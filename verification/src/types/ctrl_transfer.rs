use std::marker::PhantomData;
use vstd::prelude::*;
use vstd::slice::slice_subrange;
use vstd::slice::slice_to_vec;
use vstd::std_specs::cmp::PartialEqSpecImpl;
use vstd::std_specs::convert::FromSpecImpl;
use crate::address::vec_address_mut;
use crate::address::NULL_ADDRESS;

verus! {

/// Maximum length for Control data transfers
pub const MAX_CTRL_DATA: usize = 65535;

/// The data that a control transfer keeps of `data`: its first [`MAX_CTRL_DATA`]
/// bytes at most.
pub open spec fn kept_ctrl_data(data: Seq<u8>) -> Seq<u8> {
    if data.len() <= MAX_CTRL_DATA {
        data
    } else {
        data.take(MAX_CTRL_DATA as int)
    }
}

/// The data kept are the first bytes of the data given, as many as there are up to
/// [`MAX_CTRL_DATA`]: nothing is lost of data that fit.
pub proof fn lemma_kept_ctrl_data(data: Seq<u8>)
    ensures
        kept_ctrl_data(data).len() == if data.len() <= MAX_CTRL_DATA {
            data.len()
        } else {
            MAX_CTRL_DATA as nat
        },
        kept_ctrl_data(data) == data.take(kept_ctrl_data(data).len() as int),
        data.len() <= MAX_CTRL_DATA ==> kept_ctrl_data(data) == data,
{
    assert(data.take(data.len() as int) =~= data);
}

/// Represents a USBFS Control transfer
#[derive(Debug)]
pub struct UsbfsCtrlTransfer {
    bm_request_type: u8,
    b_request: u8,
    w_value: u16,
    w_index: u16,
    w_length: u16,
    timeout: u32,
    data: Vec<u8>,
}

/// What a [UsbfsCtrlTransfer] holds. The declared length is the length of `data`.
pub struct UsbfsCtrlTransferView {
    pub request_type: u8,
    pub request: u8,
    pub value: u16,
    pub index: u16,
    pub timeout: u32,
    pub data: Seq<u8>,
}

impl UsbfsCtrlTransferView {
    /// The transfer that [UsbfsCtrlTransfer::new] gives.
    pub open spec fn empty() -> Self {
        UsbfsCtrlTransferView {
            request_type: 0,
            request: 0,
            value: 0,
            index: 0,
            timeout: 0,
            data: Seq::<u8>::empty(),
        }
    }
}

impl View for UsbfsCtrlTransfer {
    type V = UsbfsCtrlTransferView;

    closed spec fn view(&self) -> UsbfsCtrlTransferView {
        UsbfsCtrlTransferView {
            request_type: self.bm_request_type,
            request: self.b_request,
            value: self.w_value,
            index: self.w_index,
            timeout: self.timeout,
            data: self.data@,
        }
    }
}

impl UsbfsCtrlTransfer {
    #[verifier::type_invariant]
    spec fn length_matches_data(self) -> bool {
        self.w_length as int == self.data@.len()
    }

    /// Creates a new [UsbfsCtrlTransfer].
    pub fn new() -> (xfer: Self)
        ensures
            xfer@ == UsbfsCtrlTransferView::empty(),
    {
        Self {
            bm_request_type: 0,
            b_request: 0,
            w_value: 0,
            w_index: 0,
            w_length: 0,
            timeout: 0,
            data: Vec::new(),
        }
    }

    /// Gets the request type.
    pub fn request_type(&self) -> (req_type: u8)
        ensures
            req_type == self@.request_type,
    {
        self.bm_request_type
    }

    /// Sets the request type.
    pub fn set_request_type(&mut self, req_type: u8)
        ensures
            final(self)@ == (UsbfsCtrlTransferView { request_type: req_type, ..old(self)@ }),
    {
        proof {
            use_type_invariant(&*self);
        }
        self.bm_request_type = req_type;
    }

    /// Builder function that sets the request type.
    pub fn with_request_type(self, req_type: u8) -> (xfer: Self)
        ensures
            xfer@ == (UsbfsCtrlTransferView { request_type: req_type, ..self@ }),
    {
        let mut xfer = self;
        xfer.set_request_type(req_type);
        xfer
    }

    /// Gets the request.
    pub fn request(&self) -> (req: u8)
        ensures
            req == self@.request,
    {
        self.b_request
    }

    /// Sets the request.
    pub fn set_request(&mut self, req: u8)
        ensures
            final(self)@ == (UsbfsCtrlTransferView { request: req, ..old(self)@ }),
    {
        proof {
            use_type_invariant(&*self);
        }
        self.b_request = req;
    }

    /// Builder function that sets the request.
    pub fn with_request(self, req: u8) -> (xfer: Self)
        ensures
            xfer@ == (UsbfsCtrlTransferView { request: req, ..self@ }),
    {
        let mut xfer = self;
        xfer.set_request(req);
        xfer
    }

    /// Gets the value.
    pub fn value(&self) -> (value: u16)
        ensures
            value == self@.value,
    {
        self.w_value
    }

    /// Sets the value.
    pub fn set_value(&mut self, value: u16)
        ensures
            final(self)@ == (UsbfsCtrlTransferView { value, ..old(self)@ }),
    {
        proof {
            use_type_invariant(&*self);
        }
        self.w_value = value;
    }

    /// Builder function that sets the value.
    pub fn with_value(self, value: u16) -> (xfer: Self)
        ensures
            xfer@ == (UsbfsCtrlTransferView { value, ..self@ }),
    {
        let mut xfer = self;
        xfer.set_value(value);
        xfer
    }

    /// Gets the index.
    pub fn index(&self) -> (index: u16)
        ensures
            index == self@.index,
    {
        self.w_index
    }

    /// Sets the index.
    pub fn set_index(&mut self, index: u16)
        ensures
            final(self)@ == (UsbfsCtrlTransferView { index, ..old(self)@ }),
    {
        proof {
            use_type_invariant(&*self);
        }
        self.w_index = index;
    }

    /// Builder function that sets the index.
    pub fn with_index(self, index: u16) -> (xfer: Self)
        ensures
            xfer@ == (UsbfsCtrlTransferView { index, ..self@ }),
    {
        let mut xfer = self;
        xfer.set_index(index);
        xfer
    }

    /// Gets the length: the number of bytes of the data.
    pub fn length(&self) -> (length: u16)
        ensures
            length as int == self@.data.len(),
    {
        proof {
            use_type_invariant(self);
        }
        self.w_length
    }

    /// Gets the timeout.
    pub fn timeout(&self) -> (timeout: u32)
        ensures
            timeout == self@.timeout,
    {
        self.timeout
    }

    /// Sets the timeout.
    pub fn set_timeout(&mut self, timeout: u32)
        ensures
            final(self)@ == (UsbfsCtrlTransferView { timeout, ..old(self)@ }),
    {
        proof {
            use_type_invariant(&*self);
        }
        self.timeout = timeout;
    }

    /// Builder function that sets the timeout.
    pub fn with_timeout(self, timeout: u32) -> (xfer: Self)
        ensures
            xfer@ == (UsbfsCtrlTransferView { timeout, ..self@ }),
    {
        let mut xfer = self;
        xfer.set_timeout(timeout);
        xfer
    }

    /// Gets a reference to the data buffer.
    pub fn data(&self) -> (data: &[u8])
        ensures
            data@ == self@.data,
            data@.len() <= MAX_CTRL_DATA,
    {
        proof {
            use_type_invariant(self);
        }
        self.data.as_slice()
    }

    /// Sets the data buffer.
    ///
    /// **NOTE** Sets at most [`MAX_CTRL_DATA`] bytes.
    pub fn set_data(&mut self, data: Vec<u8>)
        ensures
            final(self)@ == (UsbfsCtrlTransferView { data: kept_ctrl_data(data@), ..old(self)@ }),
    {
        let mut kept = data;
        kept.truncate(MAX_CTRL_DATA);
        assert(kept@ =~= kept_ctrl_data(data@));
        let length = kept.len() as u16;
        *self = Self {
            bm_request_type: self.bm_request_type,
            b_request: self.b_request,
            w_value: self.w_value,
            w_index: self.w_index,
            w_length: length,
            timeout: self.timeout,
            data: kept,
        };
    }

    /// Builder function that sets the data buffer.
    ///
    /// **NOTE** Sets at most [`MAX_CTRL_DATA`] bytes.
    pub fn with_data(self, data: Vec<u8>) -> (xfer: Self)
        ensures
            xfer@ == (UsbfsCtrlTransferView { data: kept_ctrl_data(data@), ..self@ }),
    {
        let mut xfer = self;
        xfer.set_data(data);
        xfer
    }

    /// Rebuilds a transfer from its wire record and the bytes found at the record's
    /// data address.
    ///
    /// A record without a data address gives a transfer without data. Otherwise the
    /// data are the first `w_length` bytes of `data`, or all of them where there are
    /// fewer.
    pub fn from_ffi(val: &UsbfsCtrlTransferFfi, data: &[u8]) -> (xfer: Self)
        ensures
            xfer@ == val.transfer(data@),
    {
        let kept: Vec<u8> = if val.data == NULL_ADDRESS {
            Vec::new()
        } else if data.len() <= val.w_length as usize {
            slice_to_vec(data)
        } else {
            slice_to_vec(slice_subrange(data, 0, val.w_length as usize))
        };
        assert(kept@ =~= val.transfer(data@).data);
        let length = kept.len() as u16;
        Self {
            bm_request_type: val.bm_request_type,
            b_request: val.b_request,
            w_value: val.w_value,
            w_index: val.w_index,
            w_length: length,
            timeout: val.timeout,
            data: kept,
        }
    }
}

impl Clone for UsbfsCtrlTransfer {
    fn clone(&self) -> (xfer: Self)
        ensures
            xfer@ == self@,
    {
        proof {
            use_type_invariant(self);
        }
        let data = self.data.clone();
        assert(data@ =~= self.data@);
        Self {
            bm_request_type: self.bm_request_type,
            b_request: self.b_request,
            w_value: self.w_value,
            w_index: self.w_index,
            w_length: self.w_length,
            timeout: self.timeout,
            data,
        }
    }
}

impl PartialEq for UsbfsCtrlTransfer {
    fn eq(&self, rhs: &Self) -> (equal: bool) {
        let equal = self.bm_request_type == rhs.bm_request_type && self.b_request == rhs.b_request
            && self.w_value == rhs.w_value && self.w_index == rhs.w_index && self.timeout
            == rhs.timeout && self.data == rhs.data;
        proof {
            if equal {
                assert(self.data@ =~= rhs.data@);
            }
        }
        equal
    }
}

impl PartialEqSpecImpl for UsbfsCtrlTransfer {
    open spec fn obeys_eq_spec() -> bool {
        true
    }

    open spec fn eq_spec(&self, rhs: &Self) -> bool {
        self@ == rhs@
    }
}

impl Default for UsbfsCtrlTransfer {
    fn default() -> (xfer: Self)
        ensures
            xfer@ == UsbfsCtrlTransferView::empty(),
    {
        Self::new()
    }
}

/// Represents a USBFS Control transfer as the `ioctl` reads it: the fields in the
/// kernel's order, and the address of the data in place of the data.
///
/// A record borrows the transfer that it was built from: while the record is there
/// the data stay where they are, and the record cannot outlive them.
#[derive(Debug)]
pub struct UsbfsCtrlTransferFfi<'a> {
    pub bm_request_type: u8,
    pub b_request: u8,
    pub w_value: u16,
    pub w_index: u16,
    pub w_length: u16,
    pub timeout: u32,
    pub data: usize,
    pub borrowed: PhantomData<&'a mut ()>,
}

impl<'a> UsbfsCtrlTransferFfi<'a> {
    /// The record that [UsbfsCtrlTransferFfi::new] gives.
    pub open spec fn empty() -> Self {
        UsbfsCtrlTransferFfi {
            bm_request_type: 0,
            b_request: 0,
            w_value: 0,
            w_index: 0,
            w_length: 0,
            timeout: 0,
            data: NULL_ADDRESS,
            borrowed: PhantomData,
        }
    }

    /// Creates a new [UsbfsCtrlTransferFfi].
    pub fn new() -> (ffi: Self)
        ensures
            ffi == Self::empty(),
    {
        Self {
            bm_request_type: 0,
            b_request: 0,
            w_value: 0,
            w_index: 0,
            w_length: 0,
            timeout: 0,
            data: NULL_ADDRESS,
            borrowed: PhantomData,
        }
    }

    /// Whether this record is the wire form of `xfer`: the same fields, the length of
    /// the data, and an address for them.
    pub open spec fn marshals(&self, xfer: UsbfsCtrlTransferView) -> bool {
        &&& self.bm_request_type == xfer.request_type
        &&& self.b_request == xfer.request
        &&& self.w_value == xfer.value
        &&& self.w_index == xfer.index
        &&& self.w_length as int == xfer.data.len()
        &&& self.timeout == xfer.timeout
        &&& self.data != NULL_ADDRESS
    }

    /// The transfer that this record stands for, given the bytes at its data address.
    pub open spec fn transfer(&self, data: Seq<u8>) -> UsbfsCtrlTransferView {
        UsbfsCtrlTransferView {
            request_type: self.bm_request_type,
            request: self.b_request,
            value: self.w_value,
            index: self.w_index,
            timeout: self.timeout,
            data: if self.data == NULL_ADDRESS {
                Seq::<u8>::empty()
            } else if data.len() <= self.w_length {
                data
            } else {
                data.take(self.w_length as int)
            },
        }
    }

    /// A transfer comes back from its wire record and its own data.
    pub proof fn lemma_marshal_round_trip(ffi: Self, xfer: UsbfsCtrlTransferView)
        requires
            ffi.marshals(xfer),
        ensures
            ffi.transfer(xfer.data) == xfer,
    {
    }
}

impl<'a> Default for UsbfsCtrlTransferFfi<'a> {
    fn default() -> (ffi: Self)
        ensures
            ffi == UsbfsCtrlTransferFfi::empty(),
    {
        Self::new()
    }
}

impl<'a> PartialEq for UsbfsCtrlTransferFfi<'a> {
    fn eq(&self, rhs: &Self) -> (equal: bool) {
        self.bm_request_type == rhs.bm_request_type && self.b_request == rhs.b_request
            && self.w_value == rhs.w_value && self.w_index == rhs.w_index && self.w_length
            == rhs.w_length && self.timeout == rhs.timeout && self.data == rhs.data
    }
}

impl<'a> PartialEqSpecImpl for UsbfsCtrlTransferFfi<'a> {
    open spec fn obeys_eq_spec() -> bool {
        true
    }

    open spec fn eq_spec(&self, rhs: &Self) -> bool {
        &&& self.bm_request_type == rhs.bm_request_type
        &&& self.b_request == rhs.b_request
        &&& self.w_value == rhs.w_value
        &&& self.w_index == rhs.w_index
        &&& self.w_length == rhs.w_length
        &&& self.timeout == rhs.timeout
        &&& self.data == rhs.data
    }
}

impl<'a> From<&'a mut UsbfsCtrlTransfer> for UsbfsCtrlTransferFfi<'a> {
    /// Builds the wire record of a transfer. The transfer is left as it is; the
    /// record's address is that of the transfer's own data.
    fn from(val: &'a mut UsbfsCtrlTransfer) -> (ffi: Self)
        ensures
            ffi.marshals(old(val)@),
            final(val)@ == old(val)@,
    {
        proof {
            use_type_invariant(&*val);
        }
        let data = vec_address_mut(&mut val.data);
        Self {
            bm_request_type: val.bm_request_type,
            b_request: val.b_request,
            w_value: val.w_value,
            w_index: val.w_index,
            w_length: val.w_length,
            timeout: val.timeout,
            data,
            borrowed: PhantomData,
        }
    }
}

impl<'a> FromSpecImpl<&'a mut UsbfsCtrlTransfer> for UsbfsCtrlTransferFfi<'a> {
    open spec fn obeys_from_spec() -> bool {
        false
    }

    open spec fn from_spec(val: &'a mut UsbfsCtrlTransfer) -> Self {
        arbitrary()
    }
}

} // verus!

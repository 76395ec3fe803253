use std::marker::PhantomData;
use vstd::prelude::*;
use vstd::std_specs::cmp::PartialEqSpecImpl;
use vstd::std_specs::convert::FromSpecImpl;
use vstd::string::StringExecFns;
use crate::address::slice_address;
use crate::address::slice_address_mut;
use crate::address::vec_address;
use crate::address::vec_address_mut;
use crate::address::NULL_ADDRESS;
use crate::text::decimal;
use crate::text::push_signed;

verus! {

/// Convenience trait for passing data arguments to USBFS IOCTL drivers.
///
/// An implementor hands out its own address and nothing else: what lies there is
/// never read by this crate. What an implementor knows of its address it says in
/// `may_be_at`; both methods answer with an address of which that holds.
pub trait UsbfsIoctlData {
    /// Whether `addr` may be the address of this value. An implementor that says
    /// nothing leaves every address open.
    open spec fn may_be_at(&self, addr: usize) -> bool {
        true
    }

    fn as_raw_ptr(&self) -> (addr: usize)
        ensures
            self.may_be_at(addr),
    ;

    fn as_raw_ptr_mut(&mut self) -> (addr: usize)
        ensures
            old(self).may_be_at(addr),
    ;
}

impl<'a> PartialEq for dyn UsbfsIoctlData + 'a {
    /// Two data arguments are equal where they give the same address for reading.
    fn eq(&self, rhs: &Self) -> (equal: bool)
        ensures
            exists|own: usize, other: usize|
                {
                    &&& #[trigger] self.may_be_at(own)
                    &&& #[trigger] rhs.may_be_at(other)
                    &&& equal == (own == other)
                },
    {
        self.as_raw_ptr() == rhs.as_raw_ptr()
    }
}

impl<'a> PartialEqSpecImpl for dyn UsbfsIoctlData + 'a {
    open spec fn obeys_eq_spec() -> bool {
        false
    }

    open spec fn eq_spec(&self, rhs: &Self) -> bool {
        arbitrary()
    }
}

impl UsbfsIoctlData for [u8] {
    /// A slice is never at the null address.
    open spec fn may_be_at(&self, addr: usize) -> bool {
        addr != NULL_ADDRESS
    }

    fn as_raw_ptr(&self) -> (addr: usize) {
        slice_address(self)
    }

    /// The bytes are left as they are.
    fn as_raw_ptr_mut(&mut self) -> (addr: usize)
        ensures
            final(self)@ == old(self)@,
    {
        slice_address_mut(self)
    }
}

impl UsbfsIoctlData for &mut [u8] {
    /// A slice is never at the null address.
    open spec fn may_be_at(&self, addr: usize) -> bool {
        addr != NULL_ADDRESS
    }

    fn as_raw_ptr(&self) -> (addr: usize) {
        slice_address(&**self)
    }

    /// The bytes are left as they are.
    fn as_raw_ptr_mut(&mut self) -> (addr: usize)
        ensures
            (*final(self))@ == (*old(self))@,
    {
        slice_address_mut(&mut **self)
    }
}

impl UsbfsIoctlData for Vec<u8> {
    /// The buffer of a vector is never at the null address.
    open spec fn may_be_at(&self, addr: usize) -> bool {
        addr != NULL_ADDRESS
    }

    fn as_raw_ptr(&self) -> (addr: usize) {
        vec_address(self)
    }

    /// The vector is left as it is.
    fn as_raw_ptr_mut(&mut self) -> (addr: usize)
        ensures
            final(self)@ == old(self)@,
    {
        vec_address_mut(self)
    }
}

/// Represents USBFS `ioctl` information.
pub struct UsbfsIoctl<'a> {
    ifno: i32,
    ioctl_code: i32,
    data: Option<&'a mut dyn UsbfsIoctlData>,
}

/// What a [UsbfsIoctl] holds: the interface number, the code, and the data argument
/// where one is set.
pub struct UsbfsIoctlView<'a> {
    pub ifno: i32,
    pub ioctl_code: i32,
    pub data: Option<&'a mut dyn UsbfsIoctlData>,
}

impl<'a> UsbfsIoctlView<'a> {
    /// Whether a data argument is set.
    pub open spec fn has_data(self) -> bool {
        self.data is Some
    }

    /// Whether `addr` may be the address of the data argument: an address that the
    /// argument may be at, and the null address where none is set.
    pub open spec fn data_may_be_at(self, addr: usize) -> bool {
        match self.data {
            Some(data) => data.may_be_at(addr),
            None => addr == NULL_ADDRESS,
        }
    }

    /// The text of a request: its numbers by name, between braces.
    pub open spec fn text(self) -> Seq<char> {
        "{"@ + "\"ifno\": "@ + decimal(self.ifno as int) + ", "@ + "\"ioctl_code\": "@ + decimal(
            self.ioctl_code as int,
        ) + "}"@
    }

    /// Whether two requests are equal, given the addresses of their data arguments:
    /// the same numbers, and either no data on both sides or data at one address.
    pub open spec fn same_at(self, rhs: Self, own: usize, other: usize) -> bool {
        &&& self.ifno == rhs.ifno
        &&& self.ioctl_code == rhs.ioctl_code
        &&& self.has_data() == rhs.has_data()
        &&& self.has_data() ==> own == other
    }
}

impl<'a> View for UsbfsIoctl<'a> {
    type V = UsbfsIoctlView<'a>;

    closed spec fn view(&self) -> UsbfsIoctlView<'a> {
        UsbfsIoctlView { ifno: self.ifno, ioctl_code: self.ioctl_code, data: self.data }
    }
}

impl<'a> UsbfsIoctl<'a> {
    /// Creates a new [UsbfsIoctl].
    pub fn new() -> (ioctl: Self)
        ensures
            ioctl@ == (UsbfsIoctlView { ifno: 0, ioctl_code: 0, data: None }),
    {
        Self { ifno: 0, ioctl_code: 0, data: None }
    }

    /// Gets the interface number.
    pub fn ifno(&self) -> (ifno: i32)
        ensures
            ifno == self@.ifno,
    {
        self.ifno
    }

    /// Sets the interface number.
    pub fn set_ifno(&mut self, ifno: i32)
        ensures
            final(self)@ == (UsbfsIoctlView { ifno, ..old(self)@ }),
    {
        self.ifno = ifno;
    }

    /// Builder function that sets the interface number.
    pub fn with_ifno(self, ifno: i32) -> (ioctl: Self)
        ensures
            ioctl@ == (UsbfsIoctlView { ifno, ..self@ }),
    {
        let mut ioctl = self;
        ioctl.set_ifno(ifno);
        ioctl
    }

    /// Gets the IOCTL code number.
    pub fn ioctl_code(&self) -> (ioctl_code: i32)
        ensures
            ioctl_code == self@.ioctl_code,
    {
        self.ioctl_code
    }

    /// Sets the IOCTL code number.
    pub fn set_ioctl_code(&mut self, ioctl_code: i32)
        ensures
            final(self)@ == (UsbfsIoctlView { ioctl_code, ..old(self)@ }),
    {
        self.ioctl_code = ioctl_code;
    }

    /// Builder function that sets the IOCTL code number.
    pub fn with_ioctl_code(self, ioctl_code: i32) -> (ioctl: Self)
        ensures
            ioctl@ == (UsbfsIoctlView { ioctl_code, ..self@ }),
    {
        let mut ioctl = self;
        ioctl.set_ioctl_code(ioctl_code);
        ioctl
    }

    /// Gets the address of the data argument, as the argument gives it for reading.
    ///
    /// **NOTE** The address is null where no data argument is set.
    pub fn data_ptr(&self) -> (addr: usize)
        ensures
            self@.data_may_be_at(addr),
    {
        match &self.data {
            Some(data) => data.as_raw_ptr(),
            None => NULL_ADDRESS,
        }
    }

    /// Gets the address of the data argument, as the argument gives it for writing.
    ///
    /// **NOTE** The address is null where no data argument is set.
    ///
    /// The numbers stay, and a data argument stays set; what the argument does to
    /// itself while it answers is its own affair.
    pub fn data_ptr_mut(&mut self) -> (addr: usize)
        ensures
            old(self)@.data_may_be_at(addr),
            final(self)@ == (UsbfsIoctlView { data: final(self)@.data, ..old(self)@ }),
            final(self)@.has_data() == old(self)@.has_data(),
    {
        match &mut self.data {
            Some(data) => data.as_raw_ptr_mut(),
            None => NULL_ADDRESS,
        }
    }

    /// Sets the data argument.
    pub fn set_data(&mut self, data: &'a mut dyn UsbfsIoctlData)
        ensures
            final(self)@.data matches Some(stored) && stored == data,
            final(self)@ == (UsbfsIoctlView { data: final(self)@.data, ..old(self)@ }),
    {
        let data = Some(data);
        self.data = data;
    }

    /// Builder function that sets the data argument.
    pub fn with_data(self, data: &'a mut dyn UsbfsIoctlData) -> (ioctl: Self)
        ensures
            ioctl@.data matches Some(stored) && stored == data,
            ioctl@ == (UsbfsIoctlView { data: ioctl@.data, ..self@ }),
    {
        let mut ioctl = self;
        let data = Some(data);
        ioctl.data = data;
        ioctl
    }

    /// Unsets the data argument.
    pub fn unset_data(&mut self)
        ensures
            final(self)@ == (UsbfsIoctlView { data: None, ..old(self)@ }),
    {
        self.data = None;
    }

    /// Compares two requests, given the addresses of their data arguments.
    pub fn same_at(&self, rhs: &Self, own: usize, other: usize) -> (equal: bool)
        ensures
            equal == self@.same_at(rhs@, own, other),
    {
        self.ifno == rhs.ifno && self.ioctl_code == rhs.ioctl_code && match (
            &self.data,
            &rhs.data,
        ) {
            (Some(_), Some(_)) => own == other,
            (None, None) => true,
            _ => false,
        }
    }

    /// Renders the request as text. The data argument is left out.
    pub fn to_string(&self) -> (text: String)
        ensures
            text@ == self@.text(),
    {
        let mut text = String::from_str("{");
        text.append("\"ifno\": ");
        push_signed(&mut text, self.ifno as i64);
        text.append(", ");
        text.append("\"ioctl_code\": ");
        push_signed(&mut text, self.ioctl_code as i64);
        text.append("}");
        text
    }
}

impl<'a> PartialEq for UsbfsIoctl<'a> {
    /// Two requests are equal where [UsbfsIoctl::same_at] holds of them at the
    /// addresses that their data arguments give.
    fn eq(&self, rhs: &Self) -> (equal: bool)
        ensures
            exists|own: usize, other: usize|
                {
                    &&& self@.data_may_be_at(own)
                    &&& rhs@.data_may_be_at(other)
                    &&& equal == #[trigger] self@.same_at(rhs@, own, other)
                },
            !self@.has_data() || !rhs@.has_data() ==> equal == (self@ == rhs@),
    {
        let own = self.data_ptr();
        let other = rhs.data_ptr();
        self.same_at(rhs, own, other)
    }
}

impl<'a> PartialEqSpecImpl for UsbfsIoctl<'a> {
    open spec fn obeys_eq_spec() -> bool {
        false
    }

    open spec fn eq_spec(&self, rhs: &Self) -> bool {
        arbitrary()
    }
}

impl<'a> Default for UsbfsIoctl<'a> {
    fn default() -> (ioctl: Self)
        ensures
            ioctl@ == (UsbfsIoctlView { ifno: 0, ioctl_code: 0, data: None }),
    {
        Self::new()
    }
}

/// Represents USBFS `ioctl` information as the `ioctl` reads it: the numbers, and
/// the address of the data argument in place of the argument.
///
/// A record borrows the request that it was built from: while the record is there
/// the data argument stays where it is, and the record cannot outlive it.
#[derive(Debug)]
pub struct UsbfsIoctlFfi<'a> {
    pub ifno: i32,
    pub ioctl_code: i32,
    pub data: usize,
    pub borrowed: PhantomData<&'a mut ()>,
}

impl<'a> UsbfsIoctlFfi<'a> {
    /// The record that [UsbfsIoctlFfi::new] gives.
    pub open spec fn empty() -> Self {
        UsbfsIoctlFfi { ifno: 0, ioctl_code: 0, data: NULL_ADDRESS, borrowed: PhantomData }
    }

    /// Creates a new [UsbfsIoctlFfi].
    pub fn new() -> (ffi: Self)
        ensures
            ffi == Self::empty(),
    {
        Self { ifno: 0, ioctl_code: 0, data: NULL_ADDRESS, borrowed: PhantomData }
    }

    /// Whether this record is the wire form of `ioctl`: the same numbers, and an
    /// address of the data argument, null where none is set.
    pub open spec fn marshals(&self, ioctl: UsbfsIoctlView) -> bool {
        &&& self.ifno == ioctl.ifno
        &&& self.ioctl_code == ioctl.ioctl_code
        &&& ioctl.data_may_be_at(self.data)
    }
}

impl<'a> Default for UsbfsIoctlFfi<'a> {
    fn default() -> (ffi: Self)
        ensures
            ffi == UsbfsIoctlFfi::empty(),
    {
        Self::new()
    }
}

impl<'a> PartialEq for UsbfsIoctlFfi<'a> {
    fn eq(&self, rhs: &Self) -> (equal: bool) {
        self.ifno == rhs.ifno && self.ioctl_code == rhs.ioctl_code && self.data == rhs.data
    }
}

impl<'a> PartialEqSpecImpl for UsbfsIoctlFfi<'a> {
    open spec fn obeys_eq_spec() -> bool {
        true
    }

    open spec fn eq_spec(&self, rhs: &Self) -> bool {
        &&& self.ifno == rhs.ifno
        &&& self.ioctl_code == rhs.ioctl_code
        &&& self.data == rhs.data
    }
}

impl<'a, 'b> From<&'b mut UsbfsIoctl<'a>> for UsbfsIoctlFfi<'b> {
    /// Builds the wire record of a request. The numbers of the request stay, and its
    /// data argument stays set; the record's address is the one that the data
    /// argument gives for writing, and null where none is set.
    fn from(val: &'b mut UsbfsIoctl<'a>) -> (ffi: Self)
        ensures
            ffi.marshals(old(val)@),
            final(val)@ == (UsbfsIoctlView { data: final(val)@.data, ..old(val)@ }),
            final(val)@.has_data() == old(val)@.has_data(),
    {
        let data = val.data_ptr_mut();
        Self { ifno: val.ifno, ioctl_code: val.ioctl_code, data, borrowed: PhantomData }
    }
}

impl<'a, 'b> FromSpecImpl<&'b mut UsbfsIoctl<'a>> for UsbfsIoctlFfi<'b> {
    open spec fn obeys_from_spec() -> bool {
        false
    }

    open spec fn from_spec(val: &'b mut UsbfsIoctl<'a>) -> Self {
        arbitrary()
    }
}

} // verus!

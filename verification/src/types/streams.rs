use std::marker::PhantomData;
use vstd::prelude::*;
use vstd::slice::slice_subrange;
use vstd::slice::slice_to_vec;
use vstd::std_specs::cmp::PartialEqSpecImpl;
use vstd::std_specs::convert::FromSpecImpl;
use vstd::string::StringExecFns;
use crate::address::vec_address_mut;
use crate::address::NULL_ADDRESS;
use crate::text::byte_list;
use crate::text::decimal;
use crate::text::push_byte_list;
use crate::text::push_unsigned;

verus! {

/// A count as a 32-bit field of a wire record holds it: its low 32 bits.
pub open spec fn wire_count(count: nat) -> u32 {
    (count % 0x1_0000_0000) as u32
}

/// Cuts a count down to a 32-bit field of a wire record.
pub fn to_wire_count(count: usize) -> (field: u32)
    ensures
        field == wire_count(count as nat),
        count <= u32::MAX ==> field == count,
{
    let wide: u64 = count as u64;
    assert(wide as u32 == wide % 0x1_0000_0000) by (bit_vector);
    #[verifier::truncate]
    (wide as u32)
}

/// Represents USBFS stream information.
#[derive(Debug)]
pub struct UsbfsStreams {
    num_streams: u32,
    eps: Vec<u8>,
}

/// What a [UsbfsStreams] holds: the number of streams, and the endpoints in order.
pub struct UsbfsStreamsView {
    pub num_streams: u32,
    pub eps: Seq<u8>,
}

impl UsbfsStreamsView {
    /// The text of a record: its fields by name, between braces.
    pub open spec fn text(self) -> Seq<char> {
        "{"@ + "\"num_streams\": "@ + decimal(self.num_streams as int) + ", "@ + "\"eps\": ["@
            + byte_list(self.eps) + "]}"@
    }
}

impl View for UsbfsStreams {
    type V = UsbfsStreamsView;

    closed spec fn view(&self) -> UsbfsStreamsView {
        UsbfsStreamsView { num_streams: self.num_streams, eps: self.eps@ }
    }
}

impl UsbfsStreams {
    /// Creates a new [UsbfsStreams].
    pub fn new() -> (streams: Self)
        ensures
            streams@ == (UsbfsStreamsView { num_streams: 0, eps: Seq::<u8>::empty() }),
    {
        Self { num_streams: 0, eps: Vec::new() }
    }

    /// Gets the number of streams.
    pub fn num_streams(&self) -> (num_streams: u32)
        ensures
            num_streams == self@.num_streams,
    {
        self.num_streams
    }

    /// Sets the number of streams.
    pub fn set_num_streams(&mut self, num_streams: u32)
        ensures
            final(self)@ == (UsbfsStreamsView { num_streams, ..old(self)@ }),
    {
        self.num_streams = num_streams;
    }

    /// Builder function that sets the number of streams.
    pub fn with_num_streams(self, num_streams: u32) -> (streams: Self)
        ensures
            streams@ == (UsbfsStreamsView { num_streams, ..self@ }),
    {
        let mut streams = self;
        streams.set_num_streams(num_streams);
        streams
    }

    /// Gets a reference to the list of endpoints.
    pub fn eps(&self) -> (eps: &[u8])
        ensures
            eps@ == self@.eps,
    {
        self.eps.as_slice()
    }

    /// Sets the list of endpoints.
    pub fn set_eps(&mut self, eps: Vec<u8>)
        ensures
            final(self)@ == (UsbfsStreamsView { eps: eps@, ..old(self)@ }),
    {
        self.eps = eps;
    }

    /// Builder function that sets the list of endpoints.
    pub fn with_eps(self, eps: Vec<u8>) -> (streams: Self)
        ensures
            streams@ == (UsbfsStreamsView { eps: eps@, ..self@ }),
    {
        let mut streams = self;
        streams.set_eps(eps);
        streams
    }

    /// Rebuilds stream information from its wire record and the bytes found at the
    /// record's endpoint address.
    ///
    /// A record without an endpoint address gives no endpoints. Otherwise the
    /// endpoints are the first `num_eps` bytes of `eps`, or all of them where there
    /// are fewer.
    pub fn from_ffi(val: &UsbfsStreamsFfi, eps: &[u8]) -> (streams: Self)
        ensures
            streams@ == val.streams(eps@),
    {
        let kept: Vec<u8> = if val.eps == NULL_ADDRESS {
            Vec::new()
        } else if eps.len() <= val.num_eps as usize {
            slice_to_vec(eps)
        } else {
            slice_to_vec(slice_subrange(eps, 0, val.num_eps as usize))
        };
        assert(kept@ =~= val.streams(eps@).eps);
        Self { num_streams: val.num_streams, eps: kept }
    }

    /// Renders the record as text.
    pub fn to_string(&self) -> (text: String)
        ensures
            text@ == self@.text(),
    {
        let mut text = String::from_str("{");
        text.append("\"num_streams\": ");
        push_unsigned(&mut text, self.num_streams as u64);
        text.append(", ");
        text.append("\"eps\": [");
        push_byte_list(&mut text, self.eps.as_slice());
        text.append("]}");
        text
    }
}

impl Clone for UsbfsStreams {
    fn clone(&self) -> (streams: Self)
        ensures
            streams@ == self@,
    {
        let eps = self.eps.clone();
        assert(eps@ =~= self.eps@);
        Self { num_streams: self.num_streams, eps }
    }
}

impl PartialEq for UsbfsStreams {
    fn eq(&self, rhs: &Self) -> (equal: bool) {
        let equal = self.num_streams == rhs.num_streams && self.eps == rhs.eps;
        proof {
            if equal {
                assert(self.eps@ =~= rhs.eps@);
            }
        }
        equal
    }
}

impl PartialEqSpecImpl for UsbfsStreams {
    open spec fn obeys_eq_spec() -> bool {
        true
    }

    open spec fn eq_spec(&self, rhs: &Self) -> bool {
        self@ == rhs@
    }
}

impl Default for UsbfsStreams {
    fn default() -> (streams: Self)
        ensures
            streams@ == (UsbfsStreamsView { num_streams: 0, eps: Seq::<u8>::empty() }),
    {
        Self::new()
    }
}

/// Represents USBFS stream information as the `ioctl` reads it: the counts, and the
/// address of the endpoints in place of the endpoints.
///
/// A record borrows the stream information that it was built from: while the record
/// is there the endpoints stay where they are, and the record cannot outlive them.
#[derive(Debug)]
pub struct UsbfsStreamsFfi<'a> {
    pub num_streams: u32,
    pub num_eps: u32,
    pub eps: usize,
    pub borrowed: PhantomData<&'a mut ()>,
}

impl<'a> UsbfsStreamsFfi<'a> {
    /// The record that [UsbfsStreamsFfi::new] gives.
    pub open spec fn empty() -> Self {
        UsbfsStreamsFfi { num_streams: 0, num_eps: 0, eps: NULL_ADDRESS, borrowed: PhantomData }
    }

    /// Creates a new [UsbfsStreamsFfi].
    pub fn new() -> (ffi: Self)
        ensures
            ffi == Self::empty(),
    {
        Self { num_streams: 0, num_eps: 0, eps: NULL_ADDRESS, borrowed: PhantomData }
    }

    /// Whether this record is the wire form of `streams`: the number of streams, the
    /// number of endpoints, and an address for the endpoints exactly when there are
    /// any.
    pub open spec fn marshals(&self, streams: UsbfsStreamsView) -> bool {
        &&& self.num_streams == streams.num_streams
        &&& self.num_eps == wire_count(streams.eps.len())
        &&& self.eps == NULL_ADDRESS <==> streams.eps.len() == 0
    }

    /// The stream information that this record stands for, given the bytes at its
    /// endpoint address.
    pub open spec fn streams(&self, eps: Seq<u8>) -> UsbfsStreamsView {
        UsbfsStreamsView {
            num_streams: self.num_streams,
            eps: if self.eps == NULL_ADDRESS {
                Seq::<u8>::empty()
            } else if eps.len() <= self.num_eps {
                eps
            } else {
                eps.take(self.num_eps as int)
            },
        }
    }

    /// Stream information comes back from its wire record and its own endpoints,
    /// where their number fits the record's field.
    pub proof fn lemma_marshal_round_trip(ffi: Self, streams: UsbfsStreamsView)
        requires
            ffi.marshals(streams),
            streams.eps.len() <= u32::MAX,
        ensures
            ffi.streams(streams.eps) == streams,
    {
        assert(ffi.streams(streams.eps).eps =~= streams.eps);
    }
}

impl<'a> Default for UsbfsStreamsFfi<'a> {
    fn default() -> (ffi: Self)
        ensures
            ffi == UsbfsStreamsFfi::empty(),
    {
        Self::new()
    }
}

impl<'a> PartialEq for UsbfsStreamsFfi<'a> {
    fn eq(&self, rhs: &Self) -> (equal: bool) {
        self.num_streams == rhs.num_streams && self.num_eps == rhs.num_eps && self.eps == rhs.eps
    }
}

impl<'a> PartialEqSpecImpl for UsbfsStreamsFfi<'a> {
    open spec fn obeys_eq_spec() -> bool {
        true
    }

    open spec fn eq_spec(&self, rhs: &Self) -> bool {
        &&& self.num_streams == rhs.num_streams
        &&& self.num_eps == rhs.num_eps
        &&& self.eps == rhs.eps
    }
}

impl<'a> From<&'a mut UsbfsStreams> for UsbfsStreamsFfi<'a> {
    /// Builds the wire record of stream information. The information is left as it
    /// is; the record's address is that of its own endpoints, and null where there
    /// are none.
    fn from(val: &'a mut UsbfsStreams) -> (ffi: Self)
        ensures
            ffi.marshals(old(val)@),
            final(val)@ == old(val)@,
    {
        let num_eps = to_wire_count(val.eps.len());
        let eps = if val.eps.is_empty() {
            NULL_ADDRESS
        } else {
            vec_address_mut(&mut val.eps)
        };
        Self { num_streams: val.num_streams, num_eps, eps, borrowed: PhantomData }
    }
}

impl<'a> FromSpecImpl<&'a mut UsbfsStreams> for UsbfsStreamsFfi<'a> {
    open spec fn obeys_from_spec() -> bool {
        false
    }

    open spec fn from_spec(val: &'a mut UsbfsStreams) -> Self {
        arbitrary()
    }
}

} // verus!

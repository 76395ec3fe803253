use std::marker::PhantomData;
use vstd::prelude::*;
use vstd::std_specs::cmp::PartialEqSpecImpl;
use vstd::std_specs::convert::FromSpecImpl;
use vstd::string::StringExecFns;
use crate::address::unit_address;
use crate::address::unit_address_mut;
use crate::address::vec_address_mut;
use crate::address::NULL_ADDRESS;
use crate::lifecycle::UrbEvent;
use crate::text::byte_list;
use crate::text::decimal;
use crate::text::joined;
use crate::text::lemma_joined_push;
use crate::text::push_byte_list;
use crate::text::push_signed;
use crate::text::push_unsigned;
use crate::types::iso_packet_desc::UsbfsIsoPacketDesc;
use crate::types::streams::to_wire_count;
use crate::types::streams::wire_count;

verus! {

/// Convenience alias for types used as a `usercontext` argument in [`Urb`].
///
/// The `usercontext` is an argument to USB callback completion functions. An
/// implementor hands out its own address and nothing else: what lies there is
/// never read by this crate. What an implementor knows of its address it says in
/// `may_be_at`; both methods answer with an address of which that holds.
pub trait UrbUserContext {
    /// Whether `addr` may be the address of this value. An implementor that says
    /// nothing leaves every address open.
    open spec fn may_be_at(&self, addr: usize) -> bool {
        true
    }

    fn as_raw_ptr(&self) -> (addr: usize)
        ensures
            self.may_be_at(addr),
    ;

    fn as_raw_ptr_mut(&mut self) -> (addr: usize)
        ensures
            old(self).may_be_at(addr),
    ;
}

impl UrbUserContext for () {
    /// A unit value is never at the null address.
    open spec fn may_be_at(&self, addr: usize) -> bool {
        addr != NULL_ADDRESS
    }

    fn as_raw_ptr(&self) -> (addr: usize) {
        unit_address(self)
    }

    fn as_raw_ptr_mut(&mut self) -> (addr: usize) {
        unit_address_mut(self)
    }
}

impl<'a> PartialEq for dyn UrbUserContext + 'a {
    /// Two contexts are equal where they give the same address for reading.
    fn eq(&self, rhs: &Self) -> (equal: bool)
        ensures
            exists|own: usize, other: usize|
                {
                    &&& #[trigger] self.may_be_at(own)
                    &&& #[trigger] rhs.may_be_at(other)
                    &&& equal == (own == other)
                },
    {
        self.as_raw_ptr() == rhs.as_raw_ptr()
    }
}

impl<'a> PartialEqSpecImpl for dyn UrbUserContext + 'a {
    open spec fn obeys_eq_spec() -> bool {
        false
    }

    open spec fn eq_spec(&self, rhs: &Self) -> bool {
        arbitrary()
    }
}

/// The raw field that carries a number of packets: its two's complement.
pub open spec fn packets_as_raw(number_of_packets: i32) -> u32 {
    if number_of_packets >= 0 {
        number_of_packets as u32
    } else {
        (number_of_packets + 0x1_0000_0000) as u32
    }
}

/// The number of packets that a raw field carries: its value read as signed.
pub open spec fn raw_as_packets(raw: u32) -> i32 {
    if raw <= i32::MAX {
        raw as i32
    } else {
        (raw - 0x1_0000_0000) as i32
    }
}

/// A number of packets is read again from the raw field that carries it, and a raw
/// field is found again from the number that it carries.
pub proof fn lemma_packets_round_trip(number_of_packets: i32, raw: u32)
    ensures
        raw_as_packets(packets_as_raw(number_of_packets)) == number_of_packets,
        packets_as_raw(raw_as_packets(raw)) == raw,
{
}

/// Gives the raw field that carries a signed value.
pub fn signed_to_raw(value: i32) -> (raw: u32)
    ensures
        raw == packets_as_raw(value),
{
    assert(value < 0 ==> value as u32 == value + 0x1_0000_0000) by (bit_vector);
    #[verifier::truncate]
    (value as u32)
}

/// Reads a raw field as a signed value.
pub fn raw_to_signed(raw: u32) -> (value: i32)
    ensures
        value == raw_as_packets(raw),
{
    assert(raw > 0x7fff_ffff ==> raw as i32 == raw - 0x1_0000_0000) by (bit_vector);
    #[verifier::truncate]
    (raw as i32)
}

/// A length as a signed 32-bit field of a wire record holds it: its low 32 bits,
/// read as signed.
pub open spec fn wire_length(len: nat) -> i32 {
    raw_as_packets(wire_count(len))
}

/// Cuts a length down to a signed 32-bit field of a wire record.
pub fn to_wire_length(len: usize) -> (field: i32)
    ensures
        field == wire_length(len as nat),
        len <= i32::MAX ==> field == len,
{
    raw_to_signed(to_wire_count(len))
}

/// A length that fits a signed 32-bit field stands in it unchanged, and so does a
/// count that fits an unsigned one.
pub proof fn lemma_wire_fields_of_fitting_lengths(len: nat)
    ensures
        len <= i32::MAX ==> wire_length(len) == len,
        len <= u32::MAX ==> wire_count(len) == len,
{
}

/// The number of packets that stands on the wire for `len` packet descriptors: their
/// number, and the largest signed 32-bit value where there are more.
pub open spec fn packet_count(len: nat) -> i32 {
    if len > i32::MAX {
        i32::MAX
    } else {
        len as i32
    }
}

/// The actual length that a buffer of `buffer_len` bytes keeps of the one that the
/// kernel reports: nothing for a negative report, and no more than the buffer holds.
pub open spec fn reaped_length(reported: i32, buffer_len: nat) -> usize {
    if reported < 0 {
        0
    } else if reported <= buffer_len {
        reported as usize
    } else {
        buffer_len as usize
    }
}

/// Represents USBFS transfer information: one raw field, read as a number of
/// packets by an Isochronous transfer and as a stream ID by a Bulk transfer.
#[derive(Clone, Copy, Debug, PartialEq, Eq, Structural)]
pub struct TransferInfo(u32);

impl View for TransferInfo {
    type V = u32;

    closed spec fn view(&self) -> u32 {
        self.0
    }
}

impl TransferInfo {
    /// The transfer information that [TransferInfo::new] gives.
    pub closed spec fn spec_new() -> Self {
        TransferInfo(0)
    }

    /// Creates a new [TransferInfo].
    #[verifier::when_used_as_spec(spec_new)]
    pub fn new() -> (info: Self)
        ensures
            info == Self::spec_new(),
            info@ == 0,
    {
        Self(0)
    }

    /// Creates a new [TransferInfo] for an Isochronous transfer.
    pub fn create_isoc(number_of_packets: i32) -> (info: Self)
        ensures
            info@ == packets_as_raw(number_of_packets),
    {
        Self(signed_to_raw(number_of_packets))
    }

    /// Creates a new [TransferInfo] for a Bulk transfer.
    pub fn create_bulk(stream_id: u32) -> (info: Self)
        ensures
            info@ == stream_id,
    {
        Self(stream_id)
    }

    /// Gets the number of packets in an Isochronous transfer.
    pub fn number_of_packets(&self) -> (number_of_packets: i32)
        ensures
            number_of_packets == raw_as_packets(self@),
    {
        raw_to_signed(self.0)
    }

    /// Gets the stream ID of a Bulk transfer.
    pub fn stream_id(&self) -> (stream_id: u32)
        ensures
            stream_id == self@,
    {
        self.0
    }

    /// Renders the raw field as text.
    pub fn to_string(&self) -> (text: String)
        ensures
            text@ == decimal(self@ as int),
    {
        let mut text = String::new();
        push_unsigned(&mut text, self.0 as u64);
        assert(text@ =~= decimal(self@ as int));
        text
    }

    /// Two values are the same exactly when they hold the same raw field.
    pub proof fn lemma_view_injective(a: Self, b: Self)
        ensures
            a@ == b@ <==> a == b,
    {
    }
}

impl Default for TransferInfo {
    fn default() -> (info: Self)
        ensures
            info@ == 0,
    {
        Self::new()
    }
}

/// Represents USBFS transfer information as the `ioctl` reads it: one 32-bit field,
/// tagged here with the way it is to be read.
///
/// Two values are equal where their raw fields are: the tag is not on the wire.
#[derive(Clone, Copy, Debug)]
pub enum TransferInfoFfi {
    Isochronous { number_of_packets: i32 },
    Bulk { stream_id: u32 },
}

impl TransferInfoFfi {
    /// The raw field of a value.
    pub open spec fn spec_raw(&self) -> u32 {
        match self {
            Self::Isochronous { number_of_packets } => packets_as_raw(*number_of_packets),
            Self::Bulk { stream_id } => *stream_id,
        }
    }

    /// Creates a new [TransferInfoFfi].
    pub fn new() -> (info: Self)
        ensures
            info == (Self::Isochronous { number_of_packets: 0 }),
    {
        Self::Isochronous { number_of_packets: 0 }
    }

    /// Creates a new [TransferInfoFfi] for isochronous transfers from the provided parameter.
    pub fn new_isoc(number_of_packets: i32) -> (info: Self)
        ensures
            info == (Self::Isochronous { number_of_packets }),
    {
        Self::Isochronous { number_of_packets }
    }

    /// Creates a new [TransferInfoFfi] for bulk transfers from the provided parameter.
    pub fn new_bulk(stream_id: u32) -> (info: Self)
        ensures
            info == (Self::Bulk { stream_id }),
    {
        Self::Bulk { stream_id }
    }

    /// Gets the raw field, as it stands on the wire.
    #[verifier::when_used_as_spec(spec_raw)]
    pub fn raw(&self) -> (raw: u32)
        ensures
            raw == self.spec_raw(),
    {
        match self {
            Self::Isochronous { number_of_packets } => signed_to_raw(*number_of_packets),
            Self::Bulk { stream_id } => *stream_id,
        }
    }
}

impl From<&TransferInfo> for TransferInfoFfi {
    /// Tags transfer information on its own, without the packet descriptors that tell
    /// how a URB reads it: as the number of packets that its raw field carries.
    fn from(val: &TransferInfo) -> (info: Self) {
        let number_of_packets = val.number_of_packets();
        if number_of_packets != 0 {
            Self::new_isoc(number_of_packets)
        } else {
            Self::new()
        }
    }
}

impl FromSpecImpl<&TransferInfo> for TransferInfoFfi {
    open spec fn obeys_from_spec() -> bool {
        true
    }

    open spec fn from_spec(val: &TransferInfo) -> Self {
        TransferInfoFfi::Isochronous { number_of_packets: raw_as_packets(val@) }
    }
}

impl From<TransferInfo> for TransferInfoFfi {
    fn from(val: TransferInfo) -> (info: Self) {
        TransferInfoFfi::from(&val)
    }
}

impl FromSpecImpl<TransferInfo> for TransferInfoFfi {
    open spec fn obeys_from_spec() -> bool {
        true
    }

    open spec fn from_spec(val: TransferInfo) -> Self {
        TransferInfoFfi::Isochronous { number_of_packets: raw_as_packets(val@) }
    }
}

impl Default for TransferInfoFfi {
    fn default() -> (info: Self)
        ensures
            info == (TransferInfoFfi::Isochronous { number_of_packets: 0 }),
    {
        Self::new()
    }
}

impl PartialEq for TransferInfoFfi {
    fn eq(&self, rhs: &Self) -> (equal: bool) {
        self.raw() == rhs.raw()
    }
}

impl PartialEqSpecImpl for TransferInfoFfi {
    open spec fn obeys_eq_spec() -> bool {
        true
    }

    open spec fn eq_spec(&self, rhs: &Self) -> bool {
        self.spec_raw() == rhs.spec_raw()
    }
}

/// A data buffer, and the number of its bytes that hold transferred data.
struct TransferBuffer {
    bytes: Vec<u8>,
    actual_length: usize,
}

impl TransferBuffer {
    #[verifier::type_invariant]
    spec fn within_bytes(self) -> bool {
        self.actual_length <= self.bytes@.len()
    }
}

/// Represents a URB record on Linux.
pub struct Urb<'a> {
    urb_type: u8,
    endpoint: u8,
    status: i32,
    flags: u32,
    data: TransferBuffer,
    start_frame: i32,
    info: TransferInfo,
    error_count: i32,
    signr: u32,
    usercontext: Option<&'a mut dyn UrbUserContext>,
    iso_frame_desc: Vec<UsbfsIsoPacketDesc>,
}

/// What a [Urb] holds. The user context is held as it was given: its address is
/// the context's to give.
pub struct UrbView<'a> {
    pub urb_type: u8,
    pub endpoint: u8,
    pub status: i32,
    pub flags: u32,
    pub buffer: Seq<u8>,
    pub actual_length: usize,
    pub start_frame: i32,
    pub info: TransferInfo,
    pub error_count: i32,
    pub signr: u32,
    pub usercontext: Option<&'a mut dyn UrbUserContext>,
    pub iso_frame_desc: Seq<UsbfsIsoPacketDesc>,
}

impl<'a> UrbView<'a> {
    /// The record that [Urb::new] gives.
    pub open spec fn empty() -> Self {
        UrbView {
            urb_type: 0,
            endpoint: 0,
            status: 0,
            flags: 0,
            buffer: Seq::<u8>::empty(),
            actual_length: 0,
            start_frame: 0,
            info: TransferInfo::spec_new(),
            error_count: 0,
            signr: 0,
            usercontext: None,
            iso_frame_desc: Seq::<UsbfsIsoPacketDesc>::empty(),
        }
    }

    /// Whether a user context is set.
    pub open spec fn has_usercontext(self) -> bool {
        self.usercontext is Some
    }

    /// Whether `addr` may be the address of the user context: an address that the
    /// context may be at, and the null address where none is set.
    pub open spec fn usercontext_may_be_at(self, addr: usize) -> bool {
        match self.usercontext {
            Some(ctx) => ctx.may_be_at(addr),
            None => addr == NULL_ADDRESS,
        }
    }

    /// The actual length is within the buffer.
    pub open spec fn wf(self) -> bool {
        self.actual_length <= self.buffer.len()
    }

    /// Whether the record describes an Isochronous transfer: it does exactly when it
    /// holds packet descriptors.
    pub open spec fn is_isochronous(self) -> bool {
        self.iso_frame_desc.len() > 0
    }

    /// The actual length that the record keeps when asked for `requested`.
    pub open spec fn clamped_actual_length(self, requested: usize) -> usize {
        if requested <= self.buffer.len() {
            requested
        } else {
            self.buffer.len() as usize
        }
    }

    /// Whether two records are equal, given the addresses of their user contexts,
    /// null for a record without one: every field but the start frame is the same,
    /// and so are the addresses.
    pub open spec fn same_at(self, rhs: Self, own: usize, other: usize) -> bool {
        &&& self.urb_type == rhs.urb_type
        &&& self.endpoint == rhs.endpoint
        &&& self.status == rhs.status
        &&& self.flags == rhs.flags
        &&& self.buffer == rhs.buffer
        &&& self.actual_length == rhs.actual_length
        &&& self.info == rhs.info
        &&& self.error_count == rhs.error_count
        &&& self.signr == rhs.signr
        &&& own == other
        &&& self.iso_frame_desc == rhs.iso_frame_desc
    }

    /// The record after the kernel has completed the request: the status, the error
    /// count and the actual length are those that the kernel reports, the last one cut
    /// to the buffer.
    pub open spec fn completed(self, status: i32, actual_length: i32, error_count: i32) -> Self {
        UrbView {
            status,
            actual_length: reaped_length(actual_length, self.buffer.len()),
            error_count,
            ..self
        }
    }

    /// The record after a reap without delay that reported `event`: completed where
    /// the request was reaped, and as it was where nothing was ready yet.
    pub open spec fn reaped(
        self,
        event: UrbEvent,
        status: i32,
        actual_length: i32,
        error_count: i32,
    ) -> Self {
        if event == UrbEvent::Reaped {
            self.completed(status, actual_length, error_count)
        } else {
            self
        }
    }

    /// The texts of the packet descriptors, joined.
    pub open spec fn desc_list(descs: Seq<UsbfsIsoPacketDesc>) -> Seq<char> {
        joined(Seq::new(descs.len(), |i: int| descs[i]@.text()))
    }

    /// The first part of the text: the fields up to the flags.
    pub open spec fn text_head(self) -> Seq<char> {
        "{"@ + "\"type\": "@ + decimal(self.urb_type as int) + ", "@ + "\"endpoint\": "@ + decimal(
            self.endpoint as int,
        ) + ", "@ + "\"status\": "@ + decimal(self.status as int) + ", "@ + "\"flags\": "@
            + decimal(self.flags as int) + ", "@
    }

    /// The second part of the text: the buffer, its lengths and the start frame.
    pub open spec fn text_buffer(self) -> Seq<char> {
        "\"buffer: ["@ + byte_list(self.buffer) + "], "@ + "\"buffer_length\": "@ + decimal(
            self.buffer.len() as int,
        ) + ", "@ + "\"actual_length\": "@ + decimal(self.actual_length as int) + ", "@
            + "\"start_frame\": "@ + decimal(self.start_frame as int) + ", "@
    }

    /// The third part of the text: the transfer information, read as a stream ID
    /// without packet descriptors and as a number of packets with them.
    pub open spec fn text_info(self) -> Seq<char> {
        if self.is_isochronous() {
            "\"number_of_packets\": "@ + decimal(raw_as_packets(self.info@) as int) + ", "@
        } else {
            "\"stream_id\": "@ + decimal(self.info@ as int) + ", "@
        }
    }

    /// The last part of the text: the error count, the signal number and the packet
    /// descriptors.
    pub open spec fn text_tail(self) -> Seq<char> {
        "\"error_count\": "@ + decimal(self.error_count as int) + ", "@ + "\"signr\": "@
            + decimal(self.signr as int) + ", "@ + "\"iso_frame_desc\": ["@ + Self::desc_list(
            self.iso_frame_desc,
        ) + "]}"@
    }

    /// The text of a record: its fields by name, between braces.
    pub open spec fn text(self) -> Seq<char> {
        self.text_head() + self.text_buffer() + self.text_info() + self.text_tail()
    }
}

impl<'a> View for Urb<'a> {
    type V = UrbView<'a>;

    closed spec fn view(&self) -> UrbView<'a> {
        UrbView {
            urb_type: self.urb_type,
            endpoint: self.endpoint,
            status: self.status,
            flags: self.flags,
            buffer: self.data.bytes@,
            actual_length: self.data.actual_length,
            start_frame: self.start_frame,
            info: self.info,
            error_count: self.error_count,
            signr: self.signr,
            usercontext: self.usercontext,
            iso_frame_desc: self.iso_frame_desc@,
        }
    }
}

impl<'a> Urb<'a> {
    /// Creates a new [Urb].
    pub fn new() -> (urb: Self)
        ensures
            urb@ == UrbView::empty(),
    {
        Self {
            urb_type: 0,
            endpoint: 0,
            status: 0,
            flags: 0,
            data: TransferBuffer { bytes: Vec::new(), actual_length: 0 },
            start_frame: 0,
            info: TransferInfo::new(),
            error_count: 0,
            signr: 0,
            usercontext: None,
            iso_frame_desc: Vec::new(),
        }
    }

    /// Gets the URB type.
    pub fn urb_type(&self) -> (urb_type: u8)
        ensures
            urb_type == self@.urb_type,
    {
        self.urb_type
    }

    /// Sets the URB type.
    pub fn set_urb_type(&mut self, urb_type: u8)
        ensures
            final(self)@ == (UrbView { urb_type, ..old(self)@ }),
    {
        self.urb_type = urb_type;
    }

    /// Builder function that sets the URB type.
    pub fn with_urb_type(self, urb_type: u8) -> (urb: Self)
        ensures
            urb@ == (UrbView { urb_type, ..self@ }),
    {
        let mut urb = self;
        urb.set_urb_type(urb_type);
        urb
    }

    /// Gets the URB endpoint.
    pub fn endpoint(&self) -> (endpoint: u8)
        ensures
            endpoint == self@.endpoint,
    {
        self.endpoint
    }

    /// Sets the URB endpoint.
    pub fn set_endpoint(&mut self, endpoint: u8)
        ensures
            final(self)@ == (UrbView { endpoint, ..old(self)@ }),
    {
        self.endpoint = endpoint;
    }

    /// Builder function that sets the URB endpoint.
    pub fn with_endpoint(self, endpoint: u8) -> (urb: Self)
        ensures
            urb@ == (UrbView { endpoint, ..self@ }),
    {
        let mut urb = self;
        urb.set_endpoint(endpoint);
        urb
    }

    /// Gets the URB status.
    pub fn status(&self) -> (status: i32)
        ensures
            status == self@.status,
    {
        self.status
    }

    /// Sets the URB status.
    pub fn set_status(&mut self, status: i32)
        ensures
            final(self)@ == (UrbView { status, ..old(self)@ }),
    {
        self.status = status;
    }

    /// Builder function that sets the URB status.
    pub fn with_status(self, status: i32) -> (urb: Self)
        ensures
            urb@ == (UrbView { status, ..self@ }),
    {
        let mut urb = self;
        urb.set_status(status);
        urb
    }

    /// Gets the URB flags.
    pub fn flags(&self) -> (flags: u32)
        ensures
            flags == self@.flags,
    {
        self.flags
    }

    /// Sets the URB flags.
    pub fn set_flags(&mut self, flags: u32)
        ensures
            final(self)@ == (UrbView { flags, ..old(self)@ }),
    {
        self.flags = flags;
    }

    /// Builder function that sets the URB flags.
    pub fn with_flags(self, flags: u32) -> (urb: Self)
        ensures
            urb@ == (UrbView { flags, ..self@ }),
    {
        let mut urb = self;
        urb.set_flags(flags);
        urb
    }

    /// Gets the URB buffer.
    pub fn buffer(&self) -> (buffer: &[u8])
        ensures
            buffer@ == self@.buffer,
    {
        self.data.bytes.as_slice()
    }

    /// Sets the URB buffer. The actual length becomes the length of the buffer.
    pub fn set_buffer(&mut self, buffer: Vec<u8>)
        ensures
            final(self)@ == (UrbView {
                buffer: buffer@,
                actual_length: buffer@.len() as usize,
                ..old(self)@
            }),
    {
        let actual_length = buffer.len();
        self.data = TransferBuffer { bytes: buffer, actual_length };
    }

    /// Builder function that sets the URB buffer.
    pub fn with_buffer(self, buffer: Vec<u8>) -> (urb: Self)
        ensures
            urb@ == (UrbView {
                buffer: buffer@,
                actual_length: buffer@.len() as usize,
                ..self@
            }),
    {
        let mut urb = self;
        urb.set_buffer(buffer);
        urb
    }

    /// Gets the URB buffer length.
    pub fn buffer_length(&self) -> (buffer_length: usize)
        ensures
            buffer_length == self@.buffer.len(),
    {
        self.data.bytes.len()
    }

    /// Gets the URB actual length. It is within the buffer.
    pub fn actual_length(&self) -> (actual_length: usize)
        ensures
            actual_length == self@.actual_length,
            self@.wf(),
    {
        proof {
            use_type_invariant(&self.data);
        }
        self.data.actual_length
    }

    /// Sets the URB actual length.
    ///
    /// **NOTE** A value above the length of the buffer is lowered to that length.
    pub fn set_actual_length(&mut self, actual_length: usize)
        ensures
            final(self)@ == (UrbView {
                actual_length: old(self)@.clamped_actual_length(actual_length),
                ..old(self)@
            }),
    {
        proof {
            use_type_invariant(&self.data);
        }
        let len = self.data.bytes.len();
        if actual_length <= len {
            self.data.actual_length = actual_length;
        } else {
            self.data.actual_length = len;
        }
    }

    /// Builder function that sets the URB actual length.
    ///
    /// **NOTE** A value above the length of the buffer is lowered to that length.
    pub fn with_actual_length(self, actual_length: usize) -> (urb: Self)
        ensures
            urb@ == (UrbView {
                actual_length: self@.clamped_actual_length(actual_length),
                ..self@
            }),
    {
        let mut urb = self;
        urb.set_actual_length(actual_length);
        urb
    }

    /// Gets the URB start frame.
    pub fn start_frame(&self) -> (start_frame: i32)
        ensures
            start_frame == self@.start_frame,
    {
        self.start_frame
    }

    /// Sets the URB start frame.
    pub fn set_start_frame(&mut self, start_frame: i32)
        ensures
            final(self)@ == (UrbView { start_frame, ..old(self)@ }),
    {
        self.start_frame = start_frame;
    }

    /// Builder function that sets the URB start frame.
    pub fn with_start_frame(self, start_frame: i32) -> (urb: Self)
        ensures
            urb@ == (UrbView { start_frame, ..self@ }),
    {
        let mut urb = self;
        urb.set_start_frame(start_frame);
        urb
    }

    /// Gets the URB info.
    pub fn info(&self) -> (info: &TransferInfo)
        ensures
            *info == self@.info,
    {
        &self.info
    }

    /// Sets the URB info.
    pub fn set_info(&mut self, info: TransferInfo)
        ensures
            final(self)@ == (UrbView { info, ..old(self)@ }),
    {
        self.info = info;
    }

    /// Builder function that sets the URB info.
    pub fn with_info(self, info: TransferInfo) -> (urb: Self)
        ensures
            urb@ == (UrbView { info, ..self@ }),
    {
        let mut urb = self;
        urb.set_info(info);
        urb
    }

    /// Gets the URB error count.
    pub fn error_count(&self) -> (error_count: i32)
        ensures
            error_count == self@.error_count,
    {
        self.error_count
    }

    /// Sets the URB error count.
    pub fn set_error_count(&mut self, error_count: i32)
        ensures
            final(self)@ == (UrbView { error_count, ..old(self)@ }),
    {
        self.error_count = error_count;
    }

    /// Builder function that sets the URB error count.
    pub fn with_error_count(self, error_count: i32) -> (urb: Self)
        ensures
            urb@ == (UrbView { error_count, ..self@ }),
    {
        let mut urb = self;
        urb.set_error_count(error_count);
        urb
    }

    /// Gets the URB signr.
    pub fn signr(&self) -> (signr: u32)
        ensures
            signr == self@.signr,
    {
        self.signr
    }

    /// Sets the URB signr.
    pub fn set_signr(&mut self, signr: u32)
        ensures
            final(self)@ == (UrbView { signr, ..old(self)@ }),
    {
        self.signr = signr;
    }

    /// Builder function that sets the URB signr.
    pub fn with_signr(self, signr: u32) -> (urb: Self)
        ensures
            urb@ == (UrbView { signr, ..self@ }),
    {
        let mut urb = self;
        urb.set_signr(signr);
        urb
    }

    /// Gets the address of the [UrbUserContext], as the context gives it for reading.
    ///
    /// **WARNING** The address is null for an unset [UrbUserContext].
    pub fn usercontext_ptr(&self) -> (addr: usize)
        ensures
            self@.usercontext_may_be_at(addr),
    {
        match &self.usercontext {
            Some(ctx) => ctx.as_raw_ptr(),
            None => NULL_ADDRESS,
        }
    }

    /// Gets the address of the [UrbUserContext], as the context gives it for writing.
    ///
    /// **WARNING** The address is null for an unset [UrbUserContext].
    ///
    /// Every other field stays, and a user context stays set; what the context does
    /// to itself while it answers is its own affair.
    pub fn usercontext_ptr_mut(&mut self) -> (addr: usize)
        ensures
            old(self)@.usercontext_may_be_at(addr),
            final(self)@ == (UrbView { usercontext: final(self)@.usercontext, ..old(self)@ }),
            final(self)@.has_usercontext() == old(self)@.has_usercontext(),
    {
        match &mut self.usercontext {
            Some(ctx) => ctx.as_raw_ptr_mut(),
            None => NULL_ADDRESS,
        }
    }

    /// Sets the URB usercontext.
    pub fn set_usercontext(&mut self, usercontext: &'a mut dyn UrbUserContext)
        ensures
            final(self)@.usercontext matches Some(stored) && stored == usercontext,
            final(self)@ == (UrbView { usercontext: final(self)@.usercontext, ..old(self)@ }),
    {
        let usercontext = Some(usercontext);
        self.usercontext = usercontext;
    }

    /// Builder function that sets the URB usercontext.
    pub fn with_usercontext(self, usercontext: &'a mut dyn UrbUserContext) -> (urb: Self)
        ensures
            urb@.usercontext matches Some(stored) && stored == usercontext,
            urb@ == (UrbView { usercontext: urb@.usercontext, ..self@ }),
    {
        let mut urb = self;
        let usercontext = Some(usercontext);
        urb.usercontext = usercontext;
        urb
    }

    /// Unsets the [UrbUserContext].
    pub fn unset_usercontext(&mut self)
        ensures
            final(self)@ == (UrbView { usercontext: None, ..old(self)@ }),
    {
        self.usercontext = None;
    }

    /// Gets the URB [UsbfsIsoPacketDesc] list.
    pub fn iso_frame_desc(&self) -> (iso_frame_desc: &[UsbfsIsoPacketDesc])
        ensures
            iso_frame_desc@ == self@.iso_frame_desc,
    {
        self.iso_frame_desc.as_slice()
    }

    /// Sets the URB iso_frame_desc.
    pub fn set_iso_frame_desc(&mut self, iso_frame_desc: Vec<UsbfsIsoPacketDesc>)
        ensures
            final(self)@ == (UrbView { iso_frame_desc: iso_frame_desc@, ..old(self)@ }),
    {
        self.iso_frame_desc = iso_frame_desc;
    }

    /// Builder function that sets the URB iso_frame_desc.
    pub fn with_iso_frame_desc(self, iso_frame_desc: Vec<UsbfsIsoPacketDesc>) -> (urb: Self)
        ensures
            urb@ == (UrbView { iso_frame_desc: iso_frame_desc@, ..self@ }),
    {
        let mut urb = self;
        urb.set_iso_frame_desc(iso_frame_desc);
        urb
    }

    /// Gets the transfer information as it goes on the wire: the stream ID that was
    /// set where the URB holds no packet descriptors, and else the number of the
    /// descriptors, whatever number of packets was set.
    pub fn transfer_kind(&self) -> (kind: TransferInfoFfi)
        ensures
            kind == UrbFfi::wire_info(self@),
    {
        let len = self.iso_frame_desc.len();
        if len == 0 {
            TransferInfoFfi::new_bulk(self.info.stream_id())
        } else if len > i32::MAX as usize {
            TransferInfoFfi::new_isoc(i32::MAX)
        } else {
            TransferInfoFfi::new_isoc(len as i32)
        }
    }

    /// Takes over what the kernel reports of a completed request, as it stands in
    /// the wire record after a reap: the status, the error count, and the actual
    /// length, cut to the buffer.
    pub fn complete(&mut self, status: i32, actual_length: i32, error_count: i32)
        ensures
            final(self)@ == old(self)@.completed(status, actual_length, error_count),
            final(self)@.wf(),
    {
        let len = self.data.bytes.len();
        let kept: usize = if actual_length < 0 {
            0
        } else if actual_length as usize <= len {
            actual_length as usize
        } else {
            len
        };
        self.status = status;
        self.error_count = error_count;
        self.data.actual_length = kept;
    }

    /// Takes over what the wire record holds after a reap without delay that reported
    /// `event`. A reap that handed the request back completes the URB; one that found
    /// nothing ready leaves it as it is, whatever the record holds.
    pub fn merge_reaped(
        &mut self,
        event: UrbEvent,
        status: i32,
        actual_length: i32,
        error_count: i32,
    )
        ensures
            final(self)@ == old(self)@.reaped(event, status, actual_length, error_count),
            final(self)@.wf(),
    {
        match event {
            UrbEvent::Reaped => self.complete(status, actual_length, error_count),
            _ => {
                proof {
                    use_type_invariant(&self.data);
                }
            },
        }
    }

    /// Compares two records, given the addresses of their user contexts.
    pub fn same_at(&self, rhs: &Self, own: usize, other: usize) -> (equal: bool)
        ensures
            equal == self@.same_at(rhs@, own, other),
    {
        if !(self.urb_type == rhs.urb_type && self.endpoint == rhs.endpoint && self.status
            == rhs.status && self.flags == rhs.flags && self.data.actual_length
            == rhs.data.actual_length && self.info == rhs.info && self.error_count
            == rhs.error_count && self.signr == rhs.signr && own == other) {
            return false;
        }
        if !(self.data.bytes == rhs.data.bytes) {
            return false;
        }
        assert(self.data.bytes@ =~= rhs.data.bytes@);
        let n = self.iso_frame_desc.len();
        if n != rhs.iso_frame_desc.len() {
            return false;
        }
        let mut i: usize = 0;
        while i < n
            invariant
                n == self.iso_frame_desc@.len(),
                n == rhs.iso_frame_desc@.len(),
                i <= n,
                forall|j: int| 0 <= j < i ==> self.iso_frame_desc@[j] == rhs.iso_frame_desc@[j],
            decreases n - i,
        {
            if self.iso_frame_desc[i] != rhs.iso_frame_desc[i] {
                return false;
            }
            proof {
                UsbfsIsoPacketDesc::lemma_view_injective(
                    self.iso_frame_desc@[i as int],
                    rhs.iso_frame_desc@[i as int],
                );
            }
            i += 1;
        }
        assert(self.iso_frame_desc@ =~= rhs.iso_frame_desc@);
        true
    }

    /// Renders the record as text. The user context is left out.
    pub fn to_string(&self) -> (text: String)
        ensures
            text@ == self@.text(),
    {
        let mut text = String::from_str("{");
        text.append("\"type\": ");
        push_unsigned(&mut text, self.urb_type as u64);
        text.append(", ");
        text.append("\"endpoint\": ");
        push_unsigned(&mut text, self.endpoint as u64);
        text.append(", ");
        text.append("\"status\": ");
        push_signed(&mut text, self.status as i64);
        text.append(", ");
        text.append("\"flags\": ");
        push_unsigned(&mut text, self.flags as u64);
        text.append(", ");
        assert(text@ == self@.text_head());

        let mut part = String::from_str("\"buffer: [");
        push_byte_list(&mut part, self.data.bytes.as_slice());
        part.append("], ");
        part.append("\"buffer_length\": ");
        push_unsigned(&mut part, self.data.bytes.len() as u64);
        part.append(", ");
        part.append("\"actual_length\": ");
        push_unsigned(&mut part, self.data.actual_length as u64);
        part.append(", ");
        part.append("\"start_frame\": ");
        push_signed(&mut part, self.start_frame as i64);
        part.append(", ");
        assert(part@ == self@.text_buffer());
        text.append(part.as_str());

        let mut part = if self.iso_frame_desc.is_empty() {
            let mut part = String::from_str("\"stream_id\": ");
            push_unsigned(&mut part, self.info.stream_id() as u64);
            part
        } else {
            let mut part = String::from_str("\"number_of_packets\": ");
            push_signed(&mut part, self.info.number_of_packets() as i64);
            part
        };
        part.append(", ");
        assert(part@ == self@.text_info());
        text.append(part.as_str());

        let mut part = String::from_str("\"error_count\": ");
        push_signed(&mut part, self.error_count as i64);
        part.append(", ");
        part.append("\"signr\": ");
        push_unsigned(&mut part, self.signr as u64);
        part.append(", ");
        part.append("\"iso_frame_desc\": [");
        push_desc_list(&mut part, self.iso_frame_desc.as_slice());
        part.append("]}");
        assert(part@ == self@.text_tail());
        text.append(part.as_str());
        text
    }
}

/// Appends the texts of the packet descriptors, joined, to `text`.
fn push_desc_list(text: &mut String, descs: &[UsbfsIsoPacketDesc])
    ensures
        final(text)@ == old(text)@ + UrbView::desc_list(descs@),
{
    let ghost before = text@;
    let n = descs.len();
    let mut i: usize = 0;
    assert(text@ =~= before + UrbView::desc_list(descs@.take(0)));
    while i < n
        invariant
            n == descs@.len(),
            i <= n,
            text@ == before + UrbView::desc_list(descs@.take(i as int)),
        decreases n - i,
    {
        let ghost done = Seq::new(i as nat, |j: int| descs@.take(i as int)[j]@.text());
        let ghost item = descs@[i as int]@.text();
        if i != 0 {
            text.append(", ");
        }
        descs[i].write_to(text);
        proof {
            lemma_joined_push(done, item);
            assert(Seq::new((i + 1) as nat, |j: int| descs@.take(i + 1)[j]@.text()) =~= done.push(
                item,
            ));
            assert(text@ =~= before + UrbView::desc_list(descs@.take(i + 1)));
        }
        i += 1;
    }
    assert(descs@.take(n as int) =~= descs@);
}

impl<'a> PartialEq for Urb<'a> {
    /// Two records are equal where [Urb::same_at] holds of them at the addresses that
    /// their user contexts give, null for a record without one.
    fn eq(&self, rhs: &Self) -> (equal: bool)
        ensures
            exists|own: usize, other: usize|
                {
                    &&& self@.usercontext_may_be_at(own)
                    &&& rhs@.usercontext_may_be_at(other)
                    &&& equal == #[trigger] self@.same_at(rhs@, own, other)
                },
            !self@.has_usercontext() && !rhs@.has_usercontext() ==> equal == self@.same_at(
                rhs@,
                NULL_ADDRESS,
                NULL_ADDRESS,
            ),
    {
        let own = self.usercontext_ptr();
        let other = rhs.usercontext_ptr();
        self.same_at(rhs, own, other)
    }
}

impl<'a> PartialEqSpecImpl for Urb<'a> {
    open spec fn obeys_eq_spec() -> bool {
        false
    }

    open spec fn eq_spec(&self, rhs: &Self) -> bool {
        arbitrary()
    }
}

impl<'a> Default for Urb<'a> {
    fn default() -> (urb: Self)
        ensures
            urb@ == UrbView::empty(),
    {
        Self::new()
    }
}

/// Represents a URB record on Linux as the `ioctl` reads it: the fields in the
/// kernel's order, and addresses in place of the buffer, the user context and the
/// packet descriptors.
///
/// A record borrows the URB that it was built from: while the record is there the
/// buffer and the packet descriptors stay where they are, and the record cannot
/// outlive them.
#[derive(Debug)]
pub struct UrbFfi<'a> {
    pub urb_type: u8,
    pub endpoint: u8,
    pub status: i32,
    pub flags: u32,
    pub buffer: usize,
    pub buffer_length: i32,
    pub actual_length: i32,
    pub start_frame: i32,
    pub info: TransferInfoFfi,
    pub error_count: i32,
    pub signr: u32,
    pub usercontext: usize,
    pub iso_frame_desc: usize,
    pub borrowed: PhantomData<&'a mut ()>,
}

impl<'a> UrbFfi<'a> {
    /// The record that [UrbFfi::new] gives.
    pub open spec fn empty() -> Self {
        UrbFfi {
            urb_type: 0,
            endpoint: 0,
            status: 0,
            flags: 0,
            buffer: NULL_ADDRESS,
            buffer_length: 0,
            actual_length: 0,
            start_frame: 0,
            info: TransferInfoFfi::Isochronous { number_of_packets: 0 },
            error_count: 0,
            signr: 0,
            usercontext: NULL_ADDRESS,
            iso_frame_desc: NULL_ADDRESS,
            borrowed: PhantomData,
        }
    }

    /// The transfer information that stands on the wire for a record: without packet
    /// descriptors its stream ID, with them their number.
    pub open spec fn wire_info(urb: UrbView) -> TransferInfoFfi {
        if urb.is_isochronous() {
            TransferInfoFfi::Isochronous {
                number_of_packets: packet_count(urb.iso_frame_desc.len()),
            }
        } else {
            TransferInfoFfi::Bulk { stream_id: urb.info@ }
        }
    }

    /// Whether this record is the wire form of `urb`: the same fields, the lengths cut
    /// to their fields, the transfer information of [UrbFfi::wire_info], an address
    /// for the buffer, an address of the user context, null where none is set, and an
    /// address for the packet descriptors exactly when there are any.
    pub open spec fn marshals(&self, urb: UrbView) -> bool {
        &&& self.urb_type == urb.urb_type
        &&& self.endpoint == urb.endpoint
        &&& self.status == urb.status
        &&& self.flags == urb.flags
        &&& self.buffer != NULL_ADDRESS
        &&& self.buffer_length == wire_length(urb.buffer.len())
        &&& self.actual_length == wire_length(urb.actual_length as nat)
        &&& self.start_frame == urb.start_frame
        &&& self.info == Self::wire_info(urb)
        &&& self.error_count == urb.error_count
        &&& self.signr == urb.signr
        &&& urb.usercontext_may_be_at(self.usercontext)
        &&& self.iso_frame_desc == NULL_ADDRESS <==> !urb.is_isochronous()
    }

    /// Creates a new [UrbFfi].
    pub fn new() -> (ffi: Self)
        ensures
            ffi == Self::empty(),
    {
        Self {
            urb_type: 0,
            endpoint: 0,
            status: 0,
            flags: 0,
            buffer: NULL_ADDRESS,
            buffer_length: 0,
            actual_length: 0,
            start_frame: 0,
            info: TransferInfoFfi::new(),
            error_count: 0,
            signr: 0,
            usercontext: NULL_ADDRESS,
            iso_frame_desc: NULL_ADDRESS,
            borrowed: PhantomData,
        }
    }
}

impl<'a, 'b> From<&'b mut Urb<'a>> for UrbFfi<'b> {
    /// Builds the wire record of a URB. The fields of the URB stay, and its user
    /// context stays set; the record's addresses are those of the URB's own buffer and
    /// packet descriptors, and the one that the user context gives for writing.
    fn from(val: &'b mut Urb<'a>) -> (ffi: Self)
        ensures
            ffi.marshals(old(val)@),
            final(val)@ == (UrbView { usercontext: final(val)@.usercontext, ..old(val)@ }),
            final(val)@.has_usercontext() == old(val)@.has_usercontext(),
    {
        let info = val.transfer_kind();
        let iso_frame_desc = if val.iso_frame_desc.is_empty() {
            NULL_ADDRESS
        } else {
            vec_address_mut(&mut val.iso_frame_desc)
        };
        let usercontext = val.usercontext_ptr_mut();
        let buffer_length = to_wire_length(val.data.bytes.len());
        let actual_length = to_wire_length(val.data.actual_length);
        proof {
            use_type_invariant(&val.data);
        }
        let buffer = vec_address_mut(&mut val.data.bytes);
        Self {
            urb_type: val.urb_type,
            endpoint: val.endpoint,
            status: val.status,
            flags: val.flags,
            buffer,
            buffer_length,
            actual_length,
            start_frame: val.start_frame,
            info,
            error_count: val.error_count,
            signr: val.signr,
            usercontext,
            iso_frame_desc,
            borrowed: PhantomData,
        }
    }
}

impl<'a, 'b> FromSpecImpl<&'b mut Urb<'a>> for UrbFfi<'b> {
    open spec fn obeys_from_spec() -> bool {
        false
    }

    open spec fn from_spec(val: &'b mut Urb<'a>) -> Self {
        arbitrary()
    }
}

impl<'a> PartialEq for UrbFfi<'a> {
    fn eq(&self, rhs: &Self) -> (equal: bool) {
        self.urb_type == rhs.urb_type && self.endpoint == rhs.endpoint && self.status
            == rhs.status && self.flags == rhs.flags && self.buffer == rhs.buffer
            && self.buffer_length == rhs.buffer_length && self.actual_length
            == rhs.actual_length && self.start_frame == rhs.start_frame && self.info == rhs.info
            && self.error_count == rhs.error_count && self.signr == rhs.signr && self.usercontext
            == rhs.usercontext && self.iso_frame_desc == rhs.iso_frame_desc
    }
}

impl<'a> PartialEqSpecImpl for UrbFfi<'a> {
    open spec fn obeys_eq_spec() -> bool {
        true
    }

    /// Two wire records are equal where every field is, the transfer information by
    /// its raw field.
    open spec fn eq_spec(&self, rhs: &Self) -> bool {
        &&& self.urb_type == rhs.urb_type
        &&& self.endpoint == rhs.endpoint
        &&& self.status == rhs.status
        &&& self.flags == rhs.flags
        &&& self.buffer == rhs.buffer
        &&& self.buffer_length == rhs.buffer_length
        &&& self.actual_length == rhs.actual_length
        &&& self.start_frame == rhs.start_frame
        &&& self.info.spec_raw() == rhs.info.spec_raw()
        &&& self.error_count == rhs.error_count
        &&& self.signr == rhs.signr
        &&& self.usercontext == rhs.usercontext
        &&& self.iso_frame_desc == rhs.iso_frame_desc
    }
}

impl<'a> Default for UrbFfi<'a> {
    fn default() -> (ffi: Self)
        ensures
            ffi == UrbFfi::empty(),
    {
        Self::new()
    }
}

} // verus!

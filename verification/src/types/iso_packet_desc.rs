use vstd::prelude::*;
use vstd::std_specs::cmp::PartialEqSpecImpl;
use vstd::string::StringExecFns;
use crate::text::decimal;
use crate::text::push_unsigned;

verus! {

/// Represents a USBFS Isochronous packet description.
///
/// A descriptor is kept as the three 32-bit words that the kernel reads and writes,
/// in the kernel's order: the length, the actual length, the status.
#[derive(Clone, Copy, Debug)]
pub struct UsbfsIsoPacketDesc {
    words: [u32; 3],
}

/// What a [UsbfsIsoPacketDesc] holds.
pub struct UsbfsIsoPacketDescView {
    pub length: u32,
    pub actual_length: u32,
    pub status: u32,
}

impl View for UsbfsIsoPacketDesc {
    type V = UsbfsIsoPacketDescView;

    closed spec fn view(&self) -> UsbfsIsoPacketDescView {
        UsbfsIsoPacketDescView {
            length: self.words@[0],
            actual_length: self.words@[1],
            status: self.words@[2],
        }
    }
}

impl UsbfsIsoPacketDescView {
    /// The text of a descriptor: its fields by name, between braces.
    pub open spec fn text(self) -> Seq<char> {
        "{"@ + "\"length\": "@ + decimal(self.length as int) + ", "@ + "\"actual_length\": "@
            + decimal(self.actual_length as int) + ", "@ + "\"status\": "@ + decimal(
            self.status as int,
        ) + "}"@
    }
}

/// The actual length that a descriptor of length `length` keeps when asked for
/// `requested`: the request, lowered to the length where it is larger.
pub open spec fn clamped_actual_length(requested: u32, length: u32) -> u32 {
    if requested <= length {
        requested
    } else {
        length
    }
}

impl UsbfsIsoPacketDesc {
    /// Creates a new [UsbfsIsoPacketDesc].
    pub fn new() -> (desc: Self)
        ensures
            desc@ == (UsbfsIsoPacketDescView { length: 0, actual_length: 0, status: 0 }),
    {
        Self { words: [0u32; 3] }
    }

    /// Gets the length.
    pub fn length(&self) -> (length: u32)
        ensures
            length == self@.length,
    {
        self.words[0]
    }

    /// Sets the length.
    ///
    /// The actual length is left as it is, also where the new length is smaller.
    pub fn set_length(&mut self, length: u32)
        ensures
            final(self)@ == (UsbfsIsoPacketDescView { length, ..old(self)@ }),
    {
        self.words[0] = length;
    }

    /// Builder function that sets the length.
    pub fn with_length(self, length: u32) -> (desc: Self)
        ensures
            desc@ == (UsbfsIsoPacketDescView { length, ..self@ }),
    {
        let mut desc = self;
        desc.set_length(length);
        desc
    }

    /// Gets the actual length.
    pub fn actual_length(&self) -> (actual_length: u32)
        ensures
            actual_length == self@.actual_length,
    {
        self.words[1]
    }

    /// Sets the actual length.
    ///
    /// **NOTE** A value above the length is lowered to the length.
    pub fn set_actual_length(&mut self, actual_length: u32)
        ensures
            final(self)@ == (UsbfsIsoPacketDescView {
                actual_length: clamped_actual_length(actual_length, old(self)@.length),
                ..old(self)@
            }),
            final(self)@.actual_length <= final(self)@.length,
    {
        if actual_length <= self.words[0] {
            self.words[1] = actual_length;
        } else {
            self.words[1] = self.words[0];
        }
    }

    /// Builder function that sets the actual length.
    ///
    /// **NOTE** A value above the length is lowered to the length.
    pub fn with_actual_length(self, actual_length: u32) -> (desc: Self)
        ensures
            desc@ == (UsbfsIsoPacketDescView {
                actual_length: clamped_actual_length(actual_length, self@.length),
                ..self@
            }),
            desc@.actual_length <= desc@.length,
    {
        let mut desc = self;
        desc.set_actual_length(actual_length);
        desc
    }

    /// Gets the status.
    pub fn status(&self) -> (status: u32)
        ensures
            status == self@.status,
    {
        self.words[2]
    }

    /// Sets the status.
    pub fn set_status(&mut self, status: u32)
        ensures
            final(self)@ == (UsbfsIsoPacketDescView { status, ..old(self)@ }),
    {
        self.words[2] = status;
    }

    /// Builder function that sets the status.
    pub fn with_status(self, status: u32) -> (desc: Self)
        ensures
            desc@ == (UsbfsIsoPacketDescView { status, ..self@ }),
    {
        let mut desc = self;
        desc.set_status(status);
        desc
    }

    /// Renders the descriptor as text.
    pub fn to_string(&self) -> (text: String)
        ensures
            text@ == self@.text(),
    {
        let mut text = String::new();
        self.write_to(&mut text);
        text
    }

    /// Appends the text of the descriptor to `text`.
    pub fn write_to(&self, text: &mut String)
        ensures
            final(text)@ == old(text)@ + self@.text(),
    {
        let ghost before = text@;
        text.append("{");
        text.append("\"length\": ");
        push_unsigned(text, self.words[0] as u64);
        text.append(", ");
        text.append("\"actual_length\": ");
        push_unsigned(text, self.words[1] as u64);
        text.append(", ");
        text.append("\"status\": ");
        push_unsigned(text, self.words[2] as u64);
        text.append("}");
        assert(text@ =~= before + self@.text());
    }

    /// Gets the descriptor as the kernel reads it: the length, the actual length and
    /// the status, in this order.
    pub fn as_words(&self) -> (words: &[u32; 3])
        ensures
            words@ == seq![self@.length, self@.actual_length, self@.status],
    {
        assert(self.words@ =~= seq![self@.length, self@.actual_length, self@.status]);
        &self.words
    }

    /// Two descriptors are the same value exactly when they hold the same fields.
    pub proof fn lemma_view_injective(a: Self, b: Self)
        ensures
            a@ == b@ <==> a == b,
    {
        if a@ == b@ {
            assert(a.words =~= b.words);
        }
    }
}

impl PartialEq for UsbfsIsoPacketDesc {
    fn eq(&self, rhs: &Self) -> (equal: bool) {
        self.words[0] == rhs.words[0] && self.words[1] == rhs.words[1] && self.words[2]
            == rhs.words[2]
    }
}

impl PartialEqSpecImpl for UsbfsIsoPacketDesc {
    open spec fn obeys_eq_spec() -> bool {
        true
    }

    open spec fn eq_spec(&self, rhs: &Self) -> bool {
        self@ == rhs@
    }
}

impl Default for UsbfsIsoPacketDesc {
    fn default() -> (desc: Self)
        ensures
            desc@ == (UsbfsIsoPacketDescView { length: 0, actual_length: 0, status: 0 }),
    {
        Self::new()
    }
}

} // verus!

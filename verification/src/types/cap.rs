use vstd::prelude::*;
use vstd::std_specs::convert::FromSpecImpl;
use vstd::string::StringExecFns;

verus! {

pub const CAP_ZERO_PACKET: u32 = 0x01;

pub const CAP_BULK_CONTINUATION: u32 = 0x02;

pub const CAP_NO_PACKET_SIZE_LIM: u32 = 0x04;

pub const CAP_BULK_SCATTER_GATHER: u32 = 0x08;

pub const CAP_REAP_AFTER_DISCONNECT: u32 = 0x10;

/// Represents USBFS capabilities.
///
/// `Empty` stands for the raw value zero and for every raw value that names no capability.
#[derive(Clone, Copy, Debug, PartialEq, Eq, Structural)]
pub enum UsbfsCap {
    Empty,
    ZeroPacket,
    BulkContinuation,
    NoPacketSizeLim,
    BulkScatterGather,
    ReapAfterDisconnect,
}

impl UsbfsCap {
    /// The capability that a raw value names.
    pub open spec fn spec_create(val: u32) -> Self {
        if val == CAP_ZERO_PACKET {
            Self::ZeroPacket
        } else if val == CAP_BULK_CONTINUATION {
            Self::BulkContinuation
        } else if val == CAP_NO_PACKET_SIZE_LIM {
            Self::NoPacketSizeLim
        } else if val == CAP_BULK_SCATTER_GATHER {
            Self::BulkScatterGather
        } else if val == CAP_REAP_AFTER_DISCONNECT {
            Self::ReapAfterDisconnect
        } else {
            Self::Empty
        }
    }

    /// The raw value of a capability.
    pub open spec fn spec_inner(&self) -> u32 {
        match self {
            Self::Empty => 0,
            Self::ZeroPacket => CAP_ZERO_PACKET,
            Self::BulkContinuation => CAP_BULK_CONTINUATION,
            Self::NoPacketSizeLim => CAP_NO_PACKET_SIZE_LIM,
            Self::BulkScatterGather => CAP_BULK_SCATTER_GATHER,
            Self::ReapAfterDisconnect => CAP_REAP_AFTER_DISCONNECT,
        }
    }

    /// The human-readable label of a capability.
    pub open spec fn label(&self) -> &'static str {
        match self {
            Self::Empty => "none",
            Self::ZeroPacket => "zero packet",
            Self::BulkContinuation => "bulk continuation",
            Self::NoPacketSizeLim => "no packet size limit",
            Self::BulkScatterGather => "bulk scatter gather",
            Self::ReapAfterDisconnect => "reap after disconnect",
        }
    }

    /// Creates a new [UsbfsCap].
    pub fn new() -> (cap: Self)
        ensures
            cap == Self::ZeroPacket,
    {
        Self::ZeroPacket
    }

    /// Creates a new [UsbfsCap] from the provided parameter.
    #[verifier::when_used_as_spec(spec_create)]
    pub fn create(val: u32) -> (cap: Self)
        ensures
            cap == Self::spec_create(val),
    {
        if val == CAP_ZERO_PACKET {
            Self::ZeroPacket
        } else if val == CAP_BULK_CONTINUATION {
            Self::BulkContinuation
        } else if val == CAP_NO_PACKET_SIZE_LIM {
            Self::NoPacketSizeLim
        } else if val == CAP_BULK_SCATTER_GATHER {
            Self::BulkScatterGather
        } else if val == CAP_REAP_AFTER_DISCONNECT {
            Self::ReapAfterDisconnect
        } else {
            Self::Empty
        }
    }

    /// Gets the inner representation of the [UsbfsCap].
    #[verifier::when_used_as_spec(spec_inner)]
    pub fn inner(&self) -> (raw: u32)
        ensures
            raw == self.spec_inner(),
    {
        match self {
            Self::Empty => 0,
            Self::ZeroPacket => CAP_ZERO_PACKET,
            Self::BulkContinuation => CAP_BULK_CONTINUATION,
            Self::NoPacketSizeLim => CAP_NO_PACKET_SIZE_LIM,
            Self::BulkScatterGather => CAP_BULK_SCATTER_GATHER,
            Self::ReapAfterDisconnect => CAP_REAP_AFTER_DISCONNECT,
        }
    }

    /// Converts into the inner representation of the [UsbfsCap].
    pub fn into_inner(self) -> (raw: u32)
        ensures
            raw == self.spec_inner(),
    {
        self.inner()
    }

    /// Renders the label between double quotes.
    pub fn to_string(&self) -> (text: String)
        ensures
            text@ == "\""@ + self.label()@ + "\""@,
    {
        let label: &'static str = <&'static str>::from(self);
        let mut text = String::from_str("\"");
        text.append(label);
        text.append("\"");
        text
    }

    /// Every capability is found again from its raw value.
    pub proof fn lemma_round_trip(cap: Self)
        ensures
            Self::spec_create(cap.spec_inner()) == cap,
    {
    }

    /// A raw value comes back from its capability exactly when it is zero or names one;
    /// every other raw value gives `Empty`.
    pub proof fn lemma_raw_round_trip(val: u32)
        ensures
            Self::is_recognized(val) <==> Self::spec_create(val).spec_inner() == val,
            !Self::is_recognized(val) ==> Self::spec_create(val) == Self::Empty,
    {
    }

    /// Whether a raw value is the raw value of some capability.
    pub open spec fn is_recognized(val: u32) -> bool {
        val == 0 || val == CAP_ZERO_PACKET || val == CAP_BULK_CONTINUATION || val
            == CAP_NO_PACKET_SIZE_LIM || val == CAP_BULK_SCATTER_GATHER || val
            == CAP_REAP_AFTER_DISCONNECT
    }
}

impl Default for UsbfsCap {
    fn default() -> (cap: Self)
        ensures
            cap == UsbfsCap::ZeroPacket,
    {
        Self::ZeroPacket
    }
}

impl From<&UsbfsCap> for &'static str {
    fn from(val: &UsbfsCap) -> (label: Self) {
        match val {
            UsbfsCap::Empty => "none",
            UsbfsCap::ZeroPacket => "zero packet",
            UsbfsCap::BulkContinuation => "bulk continuation",
            UsbfsCap::NoPacketSizeLim => "no packet size limit",
            UsbfsCap::BulkScatterGather => "bulk scatter gather",
            UsbfsCap::ReapAfterDisconnect => "reap after disconnect",
        }
    }
}

impl FromSpecImpl<&UsbfsCap> for &'static str {
    open spec fn obeys_from_spec() -> bool {
        true
    }

    open spec fn from_spec(val: &UsbfsCap) -> Self {
        val.label()
    }
}

impl From<UsbfsCap> for &'static str {
    fn from(val: UsbfsCap) -> (label: Self) {
        <&'static str>::from(&val)
    }
}

impl FromSpecImpl<UsbfsCap> for &'static str {
    open spec fn obeys_from_spec() -> bool {
        true
    }

    open spec fn from_spec(val: UsbfsCap) -> Self {
        val.label()
    }
}

impl From<u32> for UsbfsCap {
    fn from(val: u32) -> (cap: Self) {
        Self::create(val)
    }
}

impl FromSpecImpl<u32> for UsbfsCap {
    open spec fn obeys_from_spec() -> bool {
        true
    }

    open spec fn from_spec(val: u32) -> Self {
        Self::spec_create(val)
    }
}

impl From<&UsbfsCap> for u32 {
    fn from(val: &UsbfsCap) -> (raw: Self) {
        val.inner()
    }
}

impl FromSpecImpl<&UsbfsCap> for u32 {
    open spec fn obeys_from_spec() -> bool {
        true
    }

    open spec fn from_spec(val: &UsbfsCap) -> Self {
        val.spec_inner()
    }
}

impl From<UsbfsCap> for u32 {
    fn from(val: UsbfsCap) -> (raw: Self) {
        val.into_inner()
    }
}

impl FromSpecImpl<UsbfsCap> for u32 {
    open spec fn obeys_from_spec() -> bool {
        true
    }

    open spec fn from_spec(val: UsbfsCap) -> Self {
        val.spec_inner()
    }
}

} // verus!

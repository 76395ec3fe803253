use vstd::prelude::*;
use vstd::std_specs::convert::FromSpecImpl;
use vstd::string::StringExecFns;

verus! {

pub const SPEED_UNKNOWN: u32 = 0;

pub const SPEED_LOW: u32 = 1;

pub const SPEED_FULL: u32 = 2;

pub const SPEED_HIGH: u32 = 3;

pub const SPEED_WIRELESS: u32 = 4;

pub const SPEED_SUPER: u32 = 5;

pub const SPEED_SUPER_PLUS: u32 = 6;

/// Represents USBFS transfer speeds.
///
/// `Unknown` stands for the raw value zero and for every raw value that names no speed.
#[derive(Clone, Copy, Debug, PartialEq, Eq, Structural)]
pub enum UsbfsSpeed {
    Unknown,
    Low,
    Full,
    High,
    Wireless,
    Super,
    SuperPlus,
}

impl UsbfsSpeed {
    /// The speed that a raw value names.
    pub open spec fn spec_create(val: u32) -> Self {
        if val == SPEED_LOW {
            Self::Low
        } else if val == SPEED_FULL {
            Self::Full
        } else if val == SPEED_HIGH {
            Self::High
        } else if val == SPEED_WIRELESS {
            Self::Wireless
        } else if val == SPEED_SUPER {
            Self::Super
        } else if val == SPEED_SUPER_PLUS {
            Self::SuperPlus
        } else {
            Self::Unknown
        }
    }

    /// The raw value of a speed.
    pub open spec fn spec_inner(&self) -> u32 {
        match self {
            Self::Unknown => SPEED_UNKNOWN,
            Self::Low => SPEED_LOW,
            Self::Full => SPEED_FULL,
            Self::High => SPEED_HIGH,
            Self::Wireless => SPEED_WIRELESS,
            Self::Super => SPEED_SUPER,
            Self::SuperPlus => SPEED_SUPER_PLUS,
        }
    }

    /// Whether a raw value is the raw value of some speed.
    pub open spec fn is_recognized(val: u32) -> bool {
        val <= SPEED_SUPER_PLUS
    }

    /// The human-readable label of a speed.
    pub open spec fn label(&self) -> &'static str {
        match self {
            Self::Unknown => "unknown",
            Self::Low => "low",
            Self::Full => "full",
            Self::High => "high",
            Self::Wireless => "wireless",
            Self::Super => "super",
            Self::SuperPlus => "super plus",
        }
    }

    /// Creates a new [UsbfsSpeed].
    pub fn new() -> (speed: Self)
        ensures
            speed == Self::Unknown,
    {
        Self::Unknown
    }

    /// Creates a new [UsbfsSpeed] from the provided parameter.
    #[verifier::when_used_as_spec(spec_create)]
    pub fn create(val: u32) -> (speed: Self)
        ensures
            speed == Self::spec_create(val),
    {
        if val == SPEED_LOW {
            Self::Low
        } else if val == SPEED_FULL {
            Self::Full
        } else if val == SPEED_HIGH {
            Self::High
        } else if val == SPEED_WIRELESS {
            Self::Wireless
        } else if val == SPEED_SUPER {
            Self::Super
        } else if val == SPEED_SUPER_PLUS {
            Self::SuperPlus
        } else {
            Self::Unknown
        }
    }

    /// Gets the inner representation of the [UsbfsSpeed].
    #[verifier::when_used_as_spec(spec_inner)]
    pub fn inner(&self) -> (raw: u32)
        ensures
            raw == self.spec_inner(),
    {
        match self {
            Self::Unknown => SPEED_UNKNOWN,
            Self::Low => SPEED_LOW,
            Self::Full => SPEED_FULL,
            Self::High => SPEED_HIGH,
            Self::Wireless => SPEED_WIRELESS,
            Self::Super => SPEED_SUPER,
            Self::SuperPlus => SPEED_SUPER_PLUS,
        }
    }

    /// Converts into the inner representation of the [UsbfsSpeed].
    pub fn into_inner(self) -> (raw: u32)
        ensures
            raw == self.spec_inner(),
    {
        self.inner()
    }

    /// Renders the label between double quotes.
    pub fn to_string(&self) -> (text: String)
        ensures
            text@ == "\""@ + self.label()@ + "\""@,
    {
        let label: &'static str = <&'static str>::from(self);
        let mut text = String::from_str("\"");
        text.append(label);
        text.append("\"");
        text
    }

    /// Every speed is found again from its raw value.
    pub proof fn lemma_round_trip(speed: Self)
        ensures
            Self::spec_create(speed.spec_inner()) == speed,
    {
    }

    /// A raw value comes back from its speed exactly when it names one; every other
    /// raw value gives `Unknown`.
    pub proof fn lemma_raw_round_trip(val: u32)
        ensures
            Self::is_recognized(val) <==> Self::spec_create(val).spec_inner() == val,
            !Self::is_recognized(val) ==> Self::spec_create(val) == Self::Unknown,
    {
    }
}

impl Default for UsbfsSpeed {
    fn default() -> (speed: Self)
        ensures
            speed == UsbfsSpeed::Unknown,
    {
        Self::Unknown
    }
}

impl From<&UsbfsSpeed> for &'static str {
    fn from(val: &UsbfsSpeed) -> (label: Self) {
        match val {
            UsbfsSpeed::Unknown => "unknown",
            UsbfsSpeed::Low => "low",
            UsbfsSpeed::Full => "full",
            UsbfsSpeed::High => "high",
            UsbfsSpeed::Wireless => "wireless",
            UsbfsSpeed::Super => "super",
            UsbfsSpeed::SuperPlus => "super plus",
        }
    }
}

impl FromSpecImpl<&UsbfsSpeed> for &'static str {
    open spec fn obeys_from_spec() -> bool {
        true
    }

    open spec fn from_spec(val: &UsbfsSpeed) -> Self {
        val.label()
    }
}

impl From<UsbfsSpeed> for &'static str {
    fn from(val: UsbfsSpeed) -> (label: Self) {
        <&'static str>::from(&val)
    }
}

impl FromSpecImpl<UsbfsSpeed> for &'static str {
    open spec fn obeys_from_spec() -> bool {
        true
    }

    open spec fn from_spec(val: UsbfsSpeed) -> Self {
        val.label()
    }
}

impl From<u32> for UsbfsSpeed {
    fn from(val: u32) -> (speed: Self) {
        Self::create(val)
    }
}

impl FromSpecImpl<u32> for UsbfsSpeed {
    open spec fn obeys_from_spec() -> bool {
        true
    }

    open spec fn from_spec(val: u32) -> Self {
        Self::spec_create(val)
    }
}

impl From<&UsbfsSpeed> for u32 {
    fn from(val: &UsbfsSpeed) -> (raw: Self) {
        val.inner()
    }
}

impl FromSpecImpl<&UsbfsSpeed> for u32 {
    open spec fn obeys_from_spec() -> bool {
        true
    }

    open spec fn from_spec(val: &UsbfsSpeed) -> Self {
        val.spec_inner()
    }
}

impl From<UsbfsSpeed> for u32 {
    fn from(val: UsbfsSpeed) -> (raw: Self) {
        val.into_inner()
    }
}

impl FromSpecImpl<UsbfsSpeed> for u32 {
    open spec fn obeys_from_spec() -> bool {
        true
    }

    open spec fn from_spec(val: UsbfsSpeed) -> Self {
        val.spec_inner()
    }
}

} // verus!

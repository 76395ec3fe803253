use vstd::prelude::*;
use vstd::std_specs::cmp::PartialEqSpecImpl;
use vstd::std_specs::convert::FromSpecImpl;
use vstd::string::StringExecFns;
use vstd::utf8::encode_utf8;
use crate::text::decimal;
use crate::text::push_unsigned;
use crate::types::driver::decode_name;
use crate::types::driver::encode_name;
use crate::types::driver::DriverName;

verus! {

pub const CLAIM_FLAG_NONE: u8 = 0x00;

pub const CLAIM_FLAG_IF_DRIVER: u8 = 0x01;

pub const CLAIM_FLAG_EXCEPT_DRIVER: u8 = 0x02;

/// Represents USBFS disconnect claim flags.
///
/// `Empty` stands for the raw value zero and for every raw value that names no flag.
#[derive(Clone, Copy, Debug, PartialEq, Eq, Structural)]
pub enum UsbfsDisconnectClaimFlag {
    Empty,
    IfDriver,
    ExceptDriver,
}

impl UsbfsDisconnectClaimFlag {
    /// The flag that a raw value names.
    pub open spec fn spec_create(val: u8) -> Self {
        if val == CLAIM_FLAG_IF_DRIVER {
            Self::IfDriver
        } else if val == CLAIM_FLAG_EXCEPT_DRIVER {
            Self::ExceptDriver
        } else {
            Self::Empty
        }
    }

    /// The raw value of a flag.
    pub open spec fn spec_inner(&self) -> u8 {
        match self {
            Self::Empty => CLAIM_FLAG_NONE,
            Self::IfDriver => CLAIM_FLAG_IF_DRIVER,
            Self::ExceptDriver => CLAIM_FLAG_EXCEPT_DRIVER,
        }
    }

    /// Whether a raw value is the raw value of some flag.
    pub open spec fn is_recognized(val: u8) -> bool {
        val <= CLAIM_FLAG_EXCEPT_DRIVER
    }

    /// The human-readable label of a flag.
    pub open spec fn label(&self) -> &'static str {
        match self {
            Self::Empty => "no driver",
            Self::IfDriver => "IF driver",
            Self::ExceptDriver => "except driver",
        }
    }

    /// Creates a new [UsbfsDisconnectClaimFlag].
    pub fn new() -> (flag: Self)
        ensures
            flag == Self::IfDriver,
    {
        Self::IfDriver
    }

    /// Creates a new [UsbfsDisconnectClaimFlag] from the provided parameter.
    #[verifier::when_used_as_spec(spec_create)]
    pub fn create(val: u8) -> (flag: Self)
        ensures
            flag == Self::spec_create(val),
    {
        if val == CLAIM_FLAG_IF_DRIVER {
            Self::IfDriver
        } else if val == CLAIM_FLAG_EXCEPT_DRIVER {
            Self::ExceptDriver
        } else {
            Self::Empty
        }
    }

    /// Gets the inner representation of the [UsbfsDisconnectClaimFlag].
    #[verifier::when_used_as_spec(spec_inner)]
    pub fn inner(&self) -> (raw: u8)
        ensures
            raw == self.spec_inner(),
    {
        match self {
            Self::Empty => CLAIM_FLAG_NONE,
            Self::IfDriver => CLAIM_FLAG_IF_DRIVER,
            Self::ExceptDriver => CLAIM_FLAG_EXCEPT_DRIVER,
        }
    }

    /// Converts into the inner representation of the [UsbfsDisconnectClaimFlag].
    pub fn into_inner(self) -> (raw: u8)
        ensures
            raw == self.spec_inner(),
    {
        self.inner()
    }

    /// Renders the label between double quotes.
    pub fn to_string(&self) -> (text: String)
        ensures
            text@ == "\""@ + self.label()@ + "\""@,
    {
        let label: &'static str = <&'static str>::from(self);
        let mut text = String::from_str("\"");
        text.append(label);
        text.append("\"");
        text
    }

    /// Every flag is found again from its raw value.
    pub proof fn lemma_round_trip(flag: Self)
        ensures
            Self::spec_create(flag.spec_inner()) == flag,
    {
    }

    /// A raw value comes back from its flag exactly when it names one; every other
    /// raw value gives `Empty`.
    pub proof fn lemma_raw_round_trip(val: u8)
        ensures
            Self::is_recognized(val) <==> Self::spec_create(val).spec_inner() == val,
            !Self::is_recognized(val) ==> Self::spec_create(val) == Self::Empty,
    {
    }
}

impl Default for UsbfsDisconnectClaimFlag {
    fn default() -> (flag: Self)
        ensures
            flag == UsbfsDisconnectClaimFlag::IfDriver,
    {
        Self::IfDriver
    }
}

impl From<&UsbfsDisconnectClaimFlag> for &'static str {
    fn from(val: &UsbfsDisconnectClaimFlag) -> (label: Self) {
        match val {
            UsbfsDisconnectClaimFlag::Empty => "no driver",
            UsbfsDisconnectClaimFlag::IfDriver => "IF driver",
            UsbfsDisconnectClaimFlag::ExceptDriver => "except driver",
        }
    }
}

impl FromSpecImpl<&UsbfsDisconnectClaimFlag> for &'static str {
    open spec fn obeys_from_spec() -> bool {
        true
    }

    open spec fn from_spec(val: &UsbfsDisconnectClaimFlag) -> Self {
        val.label()
    }
}

impl From<u8> for UsbfsDisconnectClaimFlag {
    fn from(val: u8) -> (flag: Self) {
        Self::create(val)
    }
}

impl FromSpecImpl<u8> for UsbfsDisconnectClaimFlag {
    open spec fn obeys_from_spec() -> bool {
        true
    }

    open spec fn from_spec(val: u8) -> Self {
        Self::spec_create(val)
    }
}

impl From<&UsbfsDisconnectClaimFlag> for u8 {
    fn from(val: &UsbfsDisconnectClaimFlag) -> (raw: Self) {
        val.inner()
    }
}

impl FromSpecImpl<&UsbfsDisconnectClaimFlag> for u8 {
    open spec fn obeys_from_spec() -> bool {
        true
    }

    open spec fn from_spec(val: &UsbfsDisconnectClaimFlag) -> Self {
        val.spec_inner()
    }
}

impl From<UsbfsDisconnectClaimFlag> for u8 {
    fn from(val: UsbfsDisconnectClaimFlag) -> (raw: Self) {
        val.into_inner()
    }
}

impl FromSpecImpl<UsbfsDisconnectClaimFlag> for u8 {
    open spec fn obeys_from_spec() -> bool {
        true
    }

    open spec fn from_spec(val: UsbfsDisconnectClaimFlag) -> Self {
        val.spec_inner()
    }
}

/// Represents USBFS disconnect claim.
#[derive(Clone, Copy, Debug)]
pub struct UsbfsDisconnectClaim {
    interface: u32,
    flags: UsbfsDisconnectClaimFlag,
    driver: DriverName,
}

/// What a [UsbfsDisconnectClaim] holds: the interface, the flag, and the buffer of
/// the driver name.
pub struct UsbfsDisconnectClaimView {
    pub interface: u32,
    pub flags: UsbfsDisconnectClaimFlag,
    pub driver: Seq<u8>,
}

impl View for UsbfsDisconnectClaim {
    type V = UsbfsDisconnectClaimView;

    closed spec fn view(&self) -> UsbfsDisconnectClaimView {
        UsbfsDisconnectClaimView {
            interface: self.interface,
            flags: self.flags,
            driver: self.driver@,
        }
    }
}

impl UsbfsDisconnectClaimView {
    /// The text of a record: its fields by name, between braces.
    pub open spec fn text(self) -> Seq<char> {
        "{"@ + "\"interface\": "@ + decimal(self.interface as int) + ", "@ + "\"flags\": "@
            + "\""@ + self.flags.label()@ + "\""@ + ", "@ + "\"driver\": "@ + "\""@ + decode_name(
            self.driver,
        ) + "\""@ + "}"@
    }
}

impl UsbfsDisconnectClaim {
    /// Creates a new [UsbfsDisconnectClaim].
    pub fn new() -> (claim: Self)
        ensures
            claim@ == (UsbfsDisconnectClaimView {
                interface: 0,
                flags: UsbfsDisconnectClaimFlag::IfDriver,
                driver: encode_name(Seq::<u8>::empty()),
            }),
    {
        Self { interface: 0, flags: UsbfsDisconnectClaimFlag::new(), driver: DriverName::new() }
    }

    /// Creates a new [UsbfsDisconnectClaim] from the provided parameters.
    pub fn create(interface: u32, flags: UsbfsDisconnectClaimFlag, driver: &str) -> (claim: Self)
        ensures
            claim@ == (UsbfsDisconnectClaimView {
                interface,
                flags,
                driver: encode_name(encode_utf8(driver@)),
            }),
    {
        Self { interface, flags, driver: DriverName::from(driver) }
    }

    /// Creates a [UsbfsDisconnectClaim] from the fields of its record as the kernel
    /// holds it: the interface, the raw flag and the buffer of the driver name. A raw
    /// flag that names no flag gives `Empty`.
    pub fn from_raw(interface: u32, flags: u8, driver: DriverName) -> (claim: Self)
        ensures
            claim@ == (UsbfsDisconnectClaimView {
                interface,
                flags: UsbfsDisconnectClaimFlag::spec_create(flags),
                driver: driver@,
            }),
    {
        Self { interface, flags: UsbfsDisconnectClaimFlag::create(flags), driver }
    }

    /// Gets the interface number.
    pub fn interface(&self) -> (interface: u32)
        ensures
            interface == self@.interface,
    {
        self.interface
    }

    /// Sets the interface number.
    pub fn set_interface(&mut self, iface: u32)
        ensures
            final(self)@ == (UsbfsDisconnectClaimView { interface: iface, ..old(self)@ }),
    {
        self.interface = iface;
    }

    /// Builder function that sets the interface number.
    pub fn with_interface(self, iface: u32) -> (claim: Self)
        ensures
            claim@ == (UsbfsDisconnectClaimView { interface: iface, ..self@ }),
    {
        let mut claim = self;
        claim.set_interface(iface);
        claim
    }

    /// Gets the [UsbfsDisconnectClaimFlag].
    pub fn flags(&self) -> (flags: UsbfsDisconnectClaimFlag)
        ensures
            flags == self@.flags,
    {
        self.flags
    }

    /// Sets the [UsbfsDisconnectClaimFlag].
    pub fn set_flags(&mut self, flags: UsbfsDisconnectClaimFlag)
        ensures
            final(self)@ == (UsbfsDisconnectClaimView { flags, ..old(self)@ }),
    {
        self.flags = flags;
    }

    /// Builder function that sets the [UsbfsDisconnectClaimFlag].
    pub fn with_flags(self, flags: UsbfsDisconnectClaimFlag) -> (claim: Self)
        ensures
            claim@ == (UsbfsDisconnectClaimView { flags, ..self@ }),
    {
        let mut claim = self;
        claim.set_flags(flags);
        claim
    }

    /// Gets the driver name.
    ///
    /// **NOTE** The text is empty where the name is not valid UTF-8.
    pub fn driver(&self) -> (text: &str)
        ensures
            text@ == decode_name(self@.driver),
    {
        self.driver.as_str()
    }

    /// Gets the buffer of the driver name.
    pub fn driver_name(&self) -> (name: &DriverName)
        ensures
            name@ == self@.driver,
    {
        &self.driver
    }

    /// Sets the driver name.
    ///
    /// **NOTE** Sets at most 255 bytes.
    pub fn set_driver(&mut self, driver: &str)
        ensures
            final(self)@ == (UsbfsDisconnectClaimView {
                driver: encode_name(encode_utf8(driver@)),
                ..old(self)@
            }),
    {
        self.driver.from_string(driver);
    }

    /// Builder function that sets the driver name.
    ///
    /// **NOTE** Sets at most 255 bytes.
    pub fn with_driver(self, driver: &str) -> (claim: Self)
        ensures
            claim@ == (UsbfsDisconnectClaimView {
                driver: encode_name(encode_utf8(driver@)),
                ..self@
            }),
    {
        let mut claim = self;
        claim.set_driver(driver);
        claim
    }

    /// Renders the record as text.
    pub fn to_string(&self) -> (text: String)
        ensures
            text@ == self@.text(),
    {
        let label: &'static str = <&'static str>::from(&self.flags);
        let mut text = String::from_str("{");
        text.append("\"interface\": ");
        push_unsigned(&mut text, self.interface as u64);
        text.append(", ");
        text.append("\"flags\": ");
        text.append("\"");
        text.append(label);
        text.append("\"");
        text.append(", ");
        text.append("\"driver\": ");
        text.append("\"");
        text.append(self.driver.as_str());
        text.append("\"");
        text.append("}");
        text
    }
}

impl PartialEq for UsbfsDisconnectClaim {
    fn eq(&self, rhs: &Self) -> (equal: bool) {
        self.interface == rhs.interface && self.flags == rhs.flags && self.driver == rhs.driver
    }
}

impl PartialEqSpecImpl for UsbfsDisconnectClaim {
    open spec fn obeys_eq_spec() -> bool {
        true
    }

    open spec fn eq_spec(&self, rhs: &Self) -> bool {
        self@ == rhs@
    }
}

impl Default for UsbfsDisconnectClaim {
    fn default() -> (claim: Self)
        ensures
            claim@ == (UsbfsDisconnectClaimView {
                interface: 0,
                flags: UsbfsDisconnectClaimFlag::IfDriver,
                driver: encode_name(Seq::<u8>::empty()),
            }),
    {
        Self::new()
    }
}

} // verus!

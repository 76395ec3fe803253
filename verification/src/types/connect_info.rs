use vstd::prelude::*;
use vstd::string::StringExecFns;
use crate::text::decimal;
use crate::text::push_unsigned;

verus! {

/// Represents USBFS connection information.
#[derive(Clone, Copy, Debug, PartialEq, Eq, Structural)]
pub struct UsbfsConnectInfo {
    devnum: u32,
    slow: u8,
}

/// What a [UsbfsConnectInfo] holds.
pub struct UsbfsConnectInfoView {
    pub devnum: u32,
    pub slow: u8,
}

impl View for UsbfsConnectInfo {
    type V = UsbfsConnectInfoView;

    closed spec fn view(&self) -> UsbfsConnectInfoView {
        UsbfsConnectInfoView { devnum: self.devnum, slow: self.slow }
    }
}

impl UsbfsConnectInfoView {
    /// The text of a record: its fields by name, between braces.
    pub open spec fn text(self) -> Seq<char> {
        "{"@ + "\"devnum\": "@ + decimal(self.devnum as int) + ", "@ + "\"slow\": "@ + decimal(
            self.slow as int,
        ) + "}"@
    }
}

impl UsbfsConnectInfo {
    /// Creates a new [UsbfsConnectInfo].
    pub fn new() -> (info: Self)
        ensures
            info@ == (UsbfsConnectInfoView { devnum: 0, slow: 0 }),
    {
        Self { devnum: 0, slow: 0 }
    }

    /// Creates a new [UsbfsConnectInfo] from the provided parameter.
    pub fn create(devnum: u32, slow: u8) -> (info: Self)
        ensures
            info@ == (UsbfsConnectInfoView { devnum, slow }),
    {
        Self { devnum, slow }
    }

    /// Gets the device number.
    pub fn devnum(&self) -> (devnum: u32)
        ensures
            devnum == self@.devnum,
    {
        self.devnum
    }

    /// Sets the device number.
    pub fn set_devnum(&mut self, devnum: u32)
        ensures
            final(self)@ == (UsbfsConnectInfoView { devnum, ..old(self)@ }),
    {
        self.devnum = devnum;
    }

    /// Builder function that sets the device number.
    pub fn with_devnum(self, devnum: u32) -> (info: Self)
        ensures
            info@ == (UsbfsConnectInfoView { devnum, ..self@ }),
    {
        let mut info = self;
        info.set_devnum(devnum);
        info
    }

    /// Gets the slow field.
    pub fn slow(&self) -> (slow: u8)
        ensures
            slow == self@.slow,
    {
        self.slow
    }

    /// Sets the slow number.
    pub fn set_slow(&mut self, slow: u8)
        ensures
            final(self)@ == (UsbfsConnectInfoView { slow, ..old(self)@ }),
    {
        self.slow = slow;
    }

    /// Builder function that sets the slow number.
    pub fn with_slow(self, slow: u8) -> (info: Self)
        ensures
            info@ == (UsbfsConnectInfoView { slow, ..self@ }),
    {
        let mut info = self;
        info.set_slow(slow);
        info
    }

    /// Renders the record as text.
    pub fn to_string(&self) -> (text: String)
        ensures
            text@ == self@.text(),
    {
        let mut text = String::from_str("{");
        text.append("\"devnum\": ");
        push_unsigned(&mut text, self.devnum as u64);
        text.append(", ");
        text.append("\"slow\": ");
        push_unsigned(&mut text, self.slow as u64);
        text.append("}");
        text
    }

    /// Two records are the same value exactly when they hold the same fields.
    pub proof fn lemma_view_injective(a: Self, b: Self)
        ensures
            a@ == b@ <==> a == b,
    {
    }
}

impl Default for UsbfsConnectInfo {
    fn default() -> (info: Self)
        ensures
            info@ == (UsbfsConnectInfoView { devnum: 0, slow: 0 }),
    {
        Self::new()
    }
}

} // verus!

use vstd::prelude::*;
use vstd::string::StringExecFns;
use crate::text::decimal;
use crate::text::push_unsigned;

verus! {

/// Represents a USBFS interface setting.
#[derive(Clone, Copy, Debug, PartialEq, Eq, Structural)]
pub struct UsbfsSetInterface {
    interface: u32,
    altsetting: u32,
}

/// What a [UsbfsSetInterface] holds.
pub struct UsbfsSetInterfaceView {
    pub interface: u32,
    pub altsetting: u32,
}

impl View for UsbfsSetInterface {
    type V = UsbfsSetInterfaceView;

    closed spec fn view(&self) -> UsbfsSetInterfaceView {
        UsbfsSetInterfaceView { interface: self.interface, altsetting: self.altsetting }
    }
}

impl UsbfsSetInterfaceView {
    /// The text of a record: its fields by name, between braces.
    pub open spec fn text(self) -> Seq<char> {
        "{"@ + "\"interface\": "@ + decimal(self.interface as int) + ", "@ + "\"altsetting\": "@
            + decimal(self.altsetting as int) + "}"@
    }
}

impl UsbfsSetInterface {
    /// Creates a new [UsbfsSetInterface].
    pub fn new() -> (iface: Self)
        ensures
            iface@ == (UsbfsSetInterfaceView { interface: 0, altsetting: 0 }),
    {
        Self { interface: 0, altsetting: 0 }
    }

    /// Creates a new [UsbfsSetInterface] from the provided parameters.
    pub fn create(interface: u32, altsetting: u32) -> (iface: Self)
        ensures
            iface@ == (UsbfsSetInterfaceView { interface, altsetting }),
    {
        Self { interface, altsetting }
    }

    /// Gets the interface.
    pub fn interface(&self) -> (interface: u32)
        ensures
            interface == self@.interface,
    {
        self.interface
    }

    /// Gets a mutable reference to the interface.
    ///
    /// What the caller leaves behind the reference is the interface afterwards; the
    /// alternate setting stays.
    pub fn interface_mut(&mut self) -> (interface: &mut u32)
        ensures
            *interface == old(self)@.interface,
            final(self)@ == (UsbfsSetInterfaceView { interface: *final(interface), ..old(self)@ }),
    {
        &mut self.interface
    }

    /// Sets the interface.
    pub fn set_interface(&mut self, interface: u32)
        ensures
            final(self)@ == (UsbfsSetInterfaceView { interface, ..old(self)@ }),
    {
        self.interface = interface;
    }

    /// Builder function that sets the interface.
    pub fn with_interface(self, interface: u32) -> (iface: Self)
        ensures
            iface@ == (UsbfsSetInterfaceView { interface, ..self@ }),
    {
        let mut iface = self;
        iface.set_interface(interface);
        iface
    }

    /// Gets the altsetting.
    pub fn altsetting(&self) -> (altsetting: u32)
        ensures
            altsetting == self@.altsetting,
    {
        self.altsetting
    }

    /// Sets the altsetting.
    pub fn set_altsetting(&mut self, altsetting: u32)
        ensures
            final(self)@ == (UsbfsSetInterfaceView { altsetting, ..old(self)@ }),
    {
        self.altsetting = altsetting;
    }

    /// Builder function that sets the altsetting.
    pub fn with_altsetting(self, altsetting: u32) -> (iface: Self)
        ensures
            iface@ == (UsbfsSetInterfaceView { altsetting, ..self@ }),
    {
        let mut iface = self;
        iface.set_altsetting(altsetting);
        iface
    }

    /// Renders the record as text.
    pub fn to_string(&self) -> (text: String)
        ensures
            text@ == self@.text(),
    {
        let mut text = String::from_str("{");
        text.append("\"interface\": ");
        push_unsigned(&mut text, self.interface as u64);
        text.append(", ");
        text.append("\"altsetting\": ");
        push_unsigned(&mut text, self.altsetting as u64);
        text.append("}");
        text
    }

    /// Two records are the same value exactly when they hold the same fields.
    pub proof fn lemma_view_injective(a: Self, b: Self)
        ensures
            a@ == b@ <==> a == b,
    {
    }
}

impl Default for UsbfsSetInterface {
    fn default() -> (iface: Self)
        ensures
            iface@ == (UsbfsSetInterfaceView { interface: 0, altsetting: 0 }),
    {
        Self::new()
    }
}

} // verus!

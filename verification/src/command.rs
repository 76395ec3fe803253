//! The commands of the USBFS `ioctl` interface: for each its number, the direction
//! in which its argument travels, and what the argument is.

use vstd::prelude::*;

verus! {

/// The magic byte that every USBFS command carries: the letter `U`.
pub const USBFS_IOCTL_MAGIC: u8 = 0x55;

/// The direction in which the argument of a command travels, as the kernel's
/// headers declare it.
#[derive(Clone, Copy, Debug, PartialEq, Eq, Structural)]
pub enum UsbfsDirection {
    /// The command has no argument.
    NoData,
    /// The argument's address is passed, declared as read.
    Read,
    /// The argument's address is passed, declared as written.
    Write,
    /// The argument's address is passed, declared as read and written.
    ReadWrite,
    /// The argument itself is passed, as an integer.
    WriteInt,
}

/// What the argument of a command is.
#[derive(Clone, Copy, Debug, PartialEq, Eq, Structural)]
pub enum UsbfsPayload {
    /// No argument.
    Nothing,
    /// An unsigned 32-bit number.
    U32,
    /// An unsigned 64-bit number.
    U64,
    /// The wire record of a control transfer.
    CtrlTransfer,
    /// An interface setting.
    SetInterface,
    /// A driver query.
    GetDriver,
    /// The wire record of a URB.
    Urb,
    /// Connection information.
    ConnectInfo,
    /// The wire record of a generic request.
    Ioctl,
    /// A disconnect claim.
    DisconnectClaim,
    /// The wire record of stream information.
    Streams,
}

/// The commands of the USBFS `ioctl` interface.
#[derive(Clone, Copy, Debug, PartialEq, Eq, Structural)]
pub enum UsbfsCommand {
    Control,
    SetInterface,
    SetConfiguration,
    GetDriver,
    SubmitUrb,
    DiscardUrb,
    ReapUrbNdelay,
    ClaimInterface,
    ReleaseInterface,
    ConnectInfo,
    Ioctl,
    Reset,
    ClearHalt,
    Disconnect,
    Connect,
    GetCapabilities,
    DisconnectClaim,
    AllocStreams,
    FreeStreams,
    DropPrivileges,
    GetSpeed,
}

impl UsbfsCommand {
    /// The number of a command.
    pub open spec fn spec_number(self) -> u8 {
        match self {
            Self::Control => 0,
            Self::SetInterface => 4,
            Self::SetConfiguration => 5,
            Self::GetDriver => 8,
            Self::SubmitUrb => 10,
            Self::DiscardUrb => 11,
            Self::ReapUrbNdelay => 13,
            Self::ClaimInterface => 15,
            Self::ReleaseInterface => 16,
            Self::ConnectInfo => 17,
            Self::Ioctl => 18,
            Self::Reset => 20,
            Self::ClearHalt => 21,
            Self::Disconnect => 22,
            Self::Connect => 23,
            Self::GetCapabilities => 26,
            Self::DisconnectClaim => 27,
            Self::AllocStreams => 28,
            Self::FreeStreams => 29,
            Self::DropPrivileges => 30,
            Self::GetSpeed => 31,
        }
    }

    /// The direction of a command.
    pub open spec fn spec_direction(self) -> UsbfsDirection {
        match self {
            Self::Control => UsbfsDirection::ReadWrite,
            Self::SetInterface => UsbfsDirection::Read,
            Self::SetConfiguration => UsbfsDirection::Read,
            Self::GetDriver => UsbfsDirection::Write,
            Self::SubmitUrb => UsbfsDirection::Read,
            Self::DiscardUrb => UsbfsDirection::NoData,
            Self::ReapUrbNdelay => UsbfsDirection::Write,
            Self::ClaimInterface => UsbfsDirection::Read,
            Self::ReleaseInterface => UsbfsDirection::Read,
            Self::ConnectInfo => UsbfsDirection::Write,
            Self::Ioctl => UsbfsDirection::ReadWrite,
            Self::Reset => UsbfsDirection::NoData,
            Self::ClearHalt => UsbfsDirection::Read,
            Self::Disconnect => UsbfsDirection::NoData,
            Self::Connect => UsbfsDirection::NoData,
            Self::GetCapabilities => UsbfsDirection::Read,
            Self::DisconnectClaim => UsbfsDirection::Read,
            Self::AllocStreams => UsbfsDirection::Read,
            Self::FreeStreams => UsbfsDirection::Read,
            Self::DropPrivileges => UsbfsDirection::WriteInt,
            Self::GetSpeed => UsbfsDirection::NoData,
        }
    }

    /// The argument of a command.
    pub open spec fn spec_payload(self) -> UsbfsPayload {
        match self {
            Self::Control => UsbfsPayload::CtrlTransfer,
            Self::SetInterface => UsbfsPayload::SetInterface,
            Self::SetConfiguration => UsbfsPayload::U32,
            Self::GetDriver => UsbfsPayload::GetDriver,
            Self::SubmitUrb => UsbfsPayload::Urb,
            Self::DiscardUrb => UsbfsPayload::Nothing,
            Self::ReapUrbNdelay => UsbfsPayload::Urb,
            Self::ClaimInterface => UsbfsPayload::U32,
            Self::ReleaseInterface => UsbfsPayload::U32,
            Self::ConnectInfo => UsbfsPayload::ConnectInfo,
            Self::Ioctl => UsbfsPayload::Ioctl,
            Self::Reset => UsbfsPayload::Nothing,
            Self::ClearHalt => UsbfsPayload::U32,
            Self::Disconnect => UsbfsPayload::Nothing,
            Self::Connect => UsbfsPayload::Nothing,
            Self::GetCapabilities => UsbfsPayload::U32,
            Self::DisconnectClaim => UsbfsPayload::DisconnectClaim,
            Self::AllocStreams => UsbfsPayload::Streams,
            Self::FreeStreams => UsbfsPayload::Streams,
            Self::DropPrivileges => UsbfsPayload::U64,
            Self::GetSpeed => UsbfsPayload::Nothing,
        }
    }

    /// The command with the number `number`, and nothing where no command has it.
    pub open spec fn spec_from_number(number: u8) -> Option<Self> {
        if number == 0 {
            Some(Self::Control)
        } else if number == 4 {
            Some(Self::SetInterface)
        } else if number == 5 {
            Some(Self::SetConfiguration)
        } else if number == 8 {
            Some(Self::GetDriver)
        } else if number == 10 {
            Some(Self::SubmitUrb)
        } else if number == 11 {
            Some(Self::DiscardUrb)
        } else if number == 13 {
            Some(Self::ReapUrbNdelay)
        } else if number == 15 {
            Some(Self::ClaimInterface)
        } else if number == 16 {
            Some(Self::ReleaseInterface)
        } else if number == 17 {
            Some(Self::ConnectInfo)
        } else if number == 18 {
            Some(Self::Ioctl)
        } else if number == 20 {
            Some(Self::Reset)
        } else if number == 21 {
            Some(Self::ClearHalt)
        } else if number == 22 {
            Some(Self::Disconnect)
        } else if number == 23 {
            Some(Self::Connect)
        } else if number == 26 {
            Some(Self::GetCapabilities)
        } else if number == 27 {
            Some(Self::DisconnectClaim)
        } else if number == 28 {
            Some(Self::AllocStreams)
        } else if number == 29 {
            Some(Self::FreeStreams)
        } else if number == 30 {
            Some(Self::DropPrivileges)
        } else if number == 31 {
            Some(Self::GetSpeed)
        } else {
            None
        }
    }

    /// Gets the number of the command.
    #[verifier::when_used_as_spec(spec_number)]
    pub fn number(self) -> (number: u8)
        ensures
            number == self.spec_number(),
    {
        match self {
            Self::Control => 0,
            Self::SetInterface => 4,
            Self::SetConfiguration => 5,
            Self::GetDriver => 8,
            Self::SubmitUrb => 10,
            Self::DiscardUrb => 11,
            Self::ReapUrbNdelay => 13,
            Self::ClaimInterface => 15,
            Self::ReleaseInterface => 16,
            Self::ConnectInfo => 17,
            Self::Ioctl => 18,
            Self::Reset => 20,
            Self::ClearHalt => 21,
            Self::Disconnect => 22,
            Self::Connect => 23,
            Self::GetCapabilities => 26,
            Self::DisconnectClaim => 27,
            Self::AllocStreams => 28,
            Self::FreeStreams => 29,
            Self::DropPrivileges => 30,
            Self::GetSpeed => 31,
        }
    }

    /// Gets the magic byte of the command.
    pub fn magic(self) -> (magic: u8)
        ensures
            magic == USBFS_IOCTL_MAGIC,
    {
        USBFS_IOCTL_MAGIC
    }

    /// Gets the direction of the command.
    #[verifier::when_used_as_spec(spec_direction)]
    pub fn direction(self) -> (direction: UsbfsDirection)
        ensures
            direction == self.spec_direction(),
    {
        match self {
            Self::Control | Self::Ioctl => UsbfsDirection::ReadWrite,
            Self::GetDriver | Self::ReapUrbNdelay | Self::ConnectInfo => UsbfsDirection::Write,
            Self::DiscardUrb | Self::Reset | Self::Disconnect | Self::Connect | Self::GetSpeed =>
                UsbfsDirection::NoData,
            Self::DropPrivileges => UsbfsDirection::WriteInt,
            Self::SetInterface
            | Self::SetConfiguration
            | Self::SubmitUrb
            | Self::ClaimInterface
            | Self::ReleaseInterface
            | Self::ClearHalt
            | Self::GetCapabilities
            | Self::DisconnectClaim
            | Self::AllocStreams
            | Self::FreeStreams => UsbfsDirection::Read,
        }
    }

    /// Gets what the argument of the command is.
    #[verifier::when_used_as_spec(spec_payload)]
    pub fn payload(self) -> (payload: UsbfsPayload)
        ensures
            payload == self.spec_payload(),
    {
        match self {
            Self::Control => UsbfsPayload::CtrlTransfer,
            Self::SetInterface => UsbfsPayload::SetInterface,
            Self::GetDriver => UsbfsPayload::GetDriver,
            Self::SubmitUrb | Self::ReapUrbNdelay => UsbfsPayload::Urb,
            Self::ConnectInfo => UsbfsPayload::ConnectInfo,
            Self::Ioctl => UsbfsPayload::Ioctl,
            Self::DisconnectClaim => UsbfsPayload::DisconnectClaim,
            Self::AllocStreams | Self::FreeStreams => UsbfsPayload::Streams,
            Self::DropPrivileges => UsbfsPayload::U64,
            Self::SetConfiguration
            | Self::ClaimInterface
            | Self::ReleaseInterface
            | Self::ClearHalt
            | Self::GetCapabilities => UsbfsPayload::U32,
            Self::DiscardUrb | Self::Reset | Self::Disconnect | Self::Connect | Self::GetSpeed =>
                UsbfsPayload::Nothing,
        }
    }

    /// Finds the command with the number `number`.
    #[verifier::when_used_as_spec(spec_from_number)]
    pub fn from_number(number: u8) -> (command: Option<Self>)
        ensures
            command == Self::spec_from_number(number),
    {
        match number {
            0 => Some(Self::Control),
            4 => Some(Self::SetInterface),
            5 => Some(Self::SetConfiguration),
            8 => Some(Self::GetDriver),
            10 => Some(Self::SubmitUrb),
            11 => Some(Self::DiscardUrb),
            13 => Some(Self::ReapUrbNdelay),
            15 => Some(Self::ClaimInterface),
            16 => Some(Self::ReleaseInterface),
            17 => Some(Self::ConnectInfo),
            18 => Some(Self::Ioctl),
            20 => Some(Self::Reset),
            21 => Some(Self::ClearHalt),
            22 => Some(Self::Disconnect),
            23 => Some(Self::Connect),
            26 => Some(Self::GetCapabilities),
            27 => Some(Self::DisconnectClaim),
            28 => Some(Self::AllocStreams),
            29 => Some(Self::FreeStreams),
            30 => Some(Self::DropPrivileges),
            31 => Some(Self::GetSpeed),
            _ => None,
        }
    }

    /// Every command is found again from its number: no two commands share one.
    pub proof fn lemma_number_round_trip(command: Self)
        ensures
            Self::spec_from_number(command.spec_number()) == Some(command),
    {
    }

    /// A number that names a command is the number of that command.
    pub proof fn lemma_from_number_sound(number: u8)
        ensures
            Self::spec_from_number(number) matches Some(command) ==> command.spec_number()
                == number,
            Self::spec_from_number(number) is Some ==> number <= 31,
    {
    }

    /// A command has an argument exactly when its direction is not `NoData`, and the
    /// argument travels as an integer exactly for the 64-bit one.
    pub proof fn lemma_direction_matches_payload(command: Self)
        ensures
            command.spec_direction() == UsbfsDirection::NoData <==> command.spec_payload()
                == UsbfsPayload::Nothing,
            command.spec_direction() == UsbfsDirection::WriteInt <==> command.spec_payload()
                == UsbfsPayload::U64,
    {
    }
}

} // verus!

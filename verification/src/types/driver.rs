use vstd::prelude::*;
use vstd::slice::slice_subrange;
use vstd::std_specs::cmp::PartialEqSpecImpl;
use vstd::std_specs::convert::FromSpecImpl;
use vstd::string::StringExecFns;
use vstd::utf8::char_is_scalar;
use vstd::utf8::char_u32_cast;
use vstd::utf8::decode_utf8;
use vstd::utf8::encode_scalar;
use vstd::utf8::encode_utf8;
use vstd::utf8::encode_utf8_decode_utf8;
use vstd::utf8::encode_utf8_valid_utf8;
use vstd::utf8::valid_utf8;
use crate::constants::USBFS_MAX_DRIVER_NAME;
use crate::constants::USBFS_MAX_DRIVER_NAME_FFI;
use crate::text::decimal;
use crate::text::push_unsigned;

verus! {

/// The number of bytes that stand before the first zero byte: all of them where
/// there is none.
pub open spec fn name_len(bytes: Seq<u8>) -> nat
    decreases bytes.len(),
{
    if bytes.len() == 0 || bytes[0] == 0 {
        0
    } else {
        1 + name_len(bytes.drop_first())
    }
}

/// The name that a buffer carries: its bytes before the first zero byte.
pub open spec fn name_bytes(buffer: Seq<u8>) -> Seq<u8> {
    buffer.take(name_len(buffer) as int)
}

/// The text that a buffer decodes to: its name read as UTF-8, and the empty text
/// where the name is not valid UTF-8.
pub open spec fn decode_name(buffer: Seq<u8>) -> Seq<char> {
    if valid_utf8(name_bytes(buffer)) {
        decode_utf8(name_bytes(buffer))
    } else {
        Seq::<char>::empty()
    }
}

/// The number of bytes of `name` that a buffer keeps.
pub open spec fn kept_len(name: Seq<u8>) -> int {
    if name.len() <= USBFS_MAX_DRIVER_NAME {
        name.len() as int
    } else {
        USBFS_MAX_DRIVER_NAME as int
    }
}

/// The buffer that stores `name`: its first 255 bytes at most, then zeros up to the
/// buffer's size.
pub open spec fn encode_name(name: Seq<u8>) -> Seq<u8> {
    Seq::new(
        USBFS_MAX_DRIVER_NAME_FFI as nat,
        |i: int|
            if i < kept_len(name) {
                name[i]
            } else {
                0u8
            },
    )
}

/// A buffer of the right size whose last byte is the terminator.
pub open spec fn is_name_buffer(buffer: Seq<u8>) -> bool {
    buffer.len() == USBFS_MAX_DRIVER_NAME_FFI && buffer[USBFS_MAX_DRIVER_NAME as int] == 0
}

/// `n` is the name's length where no byte before `n` is zero and the bytes end at
/// `n` or hold a zero there.
pub proof fn lemma_name_len_first_zero(bytes: Seq<u8>, n: int)
    requires
        0 <= n <= bytes.len(),
        forall|i: int| 0 <= i < n ==> bytes[i] != 0,
        n == bytes.len() || bytes[n] == 0,
    ensures
        name_len(bytes) == n,
    decreases n,
{
    if n > 0 {
        let rest = bytes.drop_first();
        assert forall|i: int| 0 <= i < n - 1 implies rest[i] != 0 by {
            assert(rest[i] == bytes[i + 1]);
        }
        lemma_name_len_first_zero(rest, n - 1);
    }
}

/// Storing a name gives a buffer of the right size that ends in the terminator, and
/// that holds the kept bytes first and zeros after them.
pub proof fn lemma_encode_name_shape(name: Seq<u8>)
    ensures
        is_name_buffer(encode_name(name)),
        0 <= kept_len(name) <= USBFS_MAX_DRIVER_NAME,
        encode_name(name).take(kept_len(name)) == name.take(kept_len(name)),
        forall|i: int|
            kept_len(name) <= i < USBFS_MAX_DRIVER_NAME_FFI ==> encode_name(name)[i] == 0,
{
    assert(encode_name(name).take(kept_len(name)) =~= name.take(kept_len(name)));
}

/// A name without a zero byte comes back from its buffer, cut to the bytes kept.
pub proof fn lemma_name_bytes_of_encoded(name: Seq<u8>)
    requires
        forall|i: int| 0 <= i < name.len() ==> name[i] != 0,
    ensures
        name_bytes(encode_name(name)) == name.take(kept_len(name)),
{
    let buffer = encode_name(name);
    lemma_name_len_first_zero(buffer, kept_len(name));
    assert(buffer.take(kept_len(name)) =~= name.take(kept_len(name)));
}

/// The encoding of a scalar other than zero holds no zero byte.
proof fn lemma_encode_scalar_nonzero(scalar: u32)
    requires
        scalar != 0,
    ensures
        forall|i: int| 0 <= i < encode_scalar(scalar).len() ==> encode_scalar(scalar)[i] != 0,
{
    assert(scalar != 0 && scalar <= 0x7F ==> (scalar & 0x7F) as u8 != 0) by (bit_vector);
    assert(0xC0u8 | ((scalar >> 6) & 0x1F) as u8 != 0) by (bit_vector);
    assert(0xE0u8 | ((scalar >> 12) & 0x0F) as u8 != 0) by (bit_vector);
    assert(0xF0u8 | ((scalar >> 18) & 0x7) as u8 != 0) by (bit_vector);
    assert(0x80u8 | (scalar & 0x3F) as u8 != 0) by (bit_vector);
    assert(0x80u8 | ((scalar >> 6) & 0x3F) as u8 != 0) by (bit_vector);
    assert(0x80u8 | ((scalar >> 12) & 0x3F) as u8 != 0) by (bit_vector);
}

/// The UTF-8 encoding of a text without the character zero holds no zero byte.
pub proof fn lemma_encode_utf8_nonzero(chars: Seq<char>)
    requires
        forall|i: int| 0 <= i < chars.len() ==> chars[i] != '\0',
    ensures
        forall|i: int| 0 <= i < encode_utf8(chars).len() ==> encode_utf8(chars)[i] != 0,
    decreases chars.len(),
{
    if chars.len() > 0 {
        let first = encode_scalar(chars[0] as u32);
        let rest = chars.drop_first();
        assert forall|i: int| 0 <= i < rest.len() implies rest[i] != '\0' by {
            assert(rest[i] == chars[i + 1]);
        }
        lemma_encode_utf8_nonzero(rest);
        assert(chars[0] as u32 != 0) by {
            char_is_scalar(chars[0]);
            char_u32_cast(chars[0], chars[0] as u32);
            char_u32_cast('\0', 0u32);
        }
        lemma_encode_scalar_nonzero(chars[0] as u32);
        assert forall|i: int| 0 <= i < encode_utf8(chars).len() implies encode_utf8(chars)[i]
            != 0 by {
            if i < first.len() {
                assert(encode_utf8(chars)[i] == first[i]);
            } else {
                assert(encode_utf8(chars)[i] == encode_utf8(rest)[i - first.len()]);
            }
        }
    }
}

/// A text without the character zero, whose encoding fits the buffer, is stored
/// and decoded again unchanged.
pub proof fn lemma_name_round_trip(chars: Seq<char>)
    requires
        forall|i: int| 0 <= i < chars.len() ==> chars[i] != '\0',
        encode_utf8(chars).len() <= USBFS_MAX_DRIVER_NAME,
    ensures
        decode_name(encode_name(encode_utf8(chars))) == chars,
{
    let name = encode_utf8(chars);
    lemma_encode_utf8_nonzero(chars);
    lemma_name_bytes_of_encoded(name);
    assert(name.take(kept_len(name)) =~= name);
    encode_utf8_valid_utf8(chars);
    encode_utf8_decode_utf8(chars);
}

/// Reads bytes as UTF-8 text.
///
/// This is `std::str::from_utf8`, with its error dropped: the text is returned exactly
/// when the bytes are valid UTF-8, and it is then the text that they encode.
#[verifier::external_body]
fn utf8_text<'a>(bytes: &'a [u8]) -> (text: Option<&'a str>)
    ensures
        text is Some <==> valid_utf8(bytes@),
        text matches Some(s) ==> s@ == decode_utf8(bytes@),
{
    std::str::from_utf8(bytes).ok()
}

/// Represents a USBFS driver name.
///
/// The internal representation is a null-terminated byte buffer for C-like strings.
#[derive(Clone, Copy, Debug)]
pub struct DriverName {
    bytes: [u8; 256],
}

impl View for DriverName {
    type V = Seq<u8>;

    closed spec fn view(&self) -> Seq<u8> {
        self.bytes@
    }
}

impl DriverName {
    #[verifier::type_invariant]
    spec fn terminated(self) -> bool {
        self.bytes@[USBFS_MAX_DRIVER_NAME as int] == 0
    }

    /// Creates a new [DriverName].
    pub fn new() -> (name: Self)
        ensures
            name@ == encode_name(Seq::<u8>::empty()),
    {
        let name = Self { bytes: [0u8; 256] };
        assert(name.bytes@ =~= encode_name(Seq::<u8>::empty()));
        name
    }

    /// Creates a [DriverName] from bytes.
    ///
    /// **NOTE** Sets at most [`USBFS_MAX_DRIVER_NAME`] bytes.
    pub fn from_bytes(name: &[u8]) -> (stored: Self)
        ensures
            stored@ == encode_name(name@),
    {
        let len = if name.len() <= USBFS_MAX_DRIVER_NAME {
            name.len()
        } else {
            USBFS_MAX_DRIVER_NAME
        };
        let mut bytes = [0u8; 256];
        let mut i: usize = 0;
        while i < len
            invariant
                len == kept_len(name@),
                len <= USBFS_MAX_DRIVER_NAME,
                i <= len,
                forall|j: int| 0 <= j < i ==> bytes@[j] == name@[j],
                forall|j: int| i <= j < 256 ==> bytes@[j] == 0,
            decreases len - i,
        {
            bytes[i] = name[i];
            i += 1;
        }
        assert(bytes@ =~= encode_name(name@));
        Self { bytes }
    }

    /// Creates a [DriverName] from a string.
    ///
    /// **NOTE** Sets at most [`USBFS_MAX_DRIVER_NAME`] bytes.
    pub fn from_string(&mut self, driver: &str)
        ensures
            final(self)@ == encode_name(encode_utf8(driver@)),
    {
        *self = Self::from_bytes(driver.as_bytes());
    }

    /// Gets the buffer: the name, its terminator, and the zeros after it.
    pub fn as_bytes(&self) -> (bytes: &[u8; 256])
        ensures
            bytes@ == self@,
            is_name_buffer(self@),
    {
        proof {
            use_type_invariant(self);
        }
        &self.bytes
    }

    /// Gets the number of bytes of the name.
    pub fn len(&self) -> (len: usize)
        ensures
            len == name_len(self@),
            len <= USBFS_MAX_DRIVER_NAME,
    {
        proof {
            use_type_invariant(self);
        }
        let mut i: usize = 0;
        while i < USBFS_MAX_DRIVER_NAME && self.bytes[i] != 0
            invariant
                i <= USBFS_MAX_DRIVER_NAME,
                forall|j: int| 0 <= j < i ==> self.bytes@[j] != 0,
            decreases USBFS_MAX_DRIVER_NAME - i,
        {
            i += 1;
        }
        proof {
            lemma_name_len_first_zero(self.bytes@, i as int);
        }
        i
    }

    /// Gets a [`&str`] representation of the [DriverName].
    ///
    /// **NOTE** The text is empty where the name is not valid UTF-8.
    pub fn as_str(&self) -> (text: &str)
        ensures
            text@ == decode_name(self@),
    {
        let len = self.len();
        let name = slice_subrange(self.bytes.as_slice(), 0, len);
        assert(name@ =~= name_bytes(self@));
        match utf8_text(name) {
            Some(text) => text,
            None => {
                proof {
                    reveal_strlit("");
                }
                assert(""@ =~= Seq::<char>::empty());
                ""
            },
        }
    }

    /// Renders the name between double quotes.
    pub fn to_string(&self) -> (text: String)
        ensures
            text@ == "\""@ + decode_name(self@) + "\""@,
    {
        let mut text = String::from_str("\"");
        text.append(self.as_str());
        text.append("\"");
        text
    }

    /// The name that holds the buffer `buffer`.
    pub closed spec fn of_buffer(buffer: Seq<u8>) -> Self {
        choose|name: DriverName| name@ == buffer
    }

    /// Two names are the same value exactly when they hold the same buffer.
    pub proof fn lemma_view_injective(a: Self, b: Self)
        ensures
            a@ == b@ <==> a == b,
            a == Self::of_buffer(a@),
    {
        if a@ == b@ {
            assert(a.bytes =~= b.bytes);
        }
        let c = Self::of_buffer(a@);
        assert(c@ == a@);
        assert(c.bytes =~= a.bytes);
    }
}

impl PartialEq for DriverName {
    fn eq(&self, rhs: &Self) -> (equal: bool) {
        let mut i: usize = 0;
        while i < USBFS_MAX_DRIVER_NAME_FFI
            invariant
                i <= USBFS_MAX_DRIVER_NAME_FFI,
                forall|j: int| 0 <= j < i ==> self.bytes@[j] == rhs.bytes@[j],
            decreases USBFS_MAX_DRIVER_NAME_FFI - i,
        {
            if self.bytes[i] != rhs.bytes[i] {
                return false;
            }
            i += 1;
        }
        assert(self.bytes@ =~= rhs.bytes@);
        true
    }
}

impl PartialEqSpecImpl for DriverName {
    open spec fn obeys_eq_spec() -> bool {
        true
    }

    open spec fn eq_spec(&self, rhs: &Self) -> bool {
        self@ == rhs@
    }
}

impl From<&str> for DriverName {
    fn from(val: &str) -> (name: Self)
        ensures
            name@ == encode_name(encode_utf8(val@)),
    {
        let name = Self::from_bytes(val.as_bytes());
        proof {
            Self::lemma_view_injective(name, name);
        }
        name
    }
}

impl FromSpecImpl<&str> for DriverName {
    open spec fn obeys_from_spec() -> bool {
        true
    }

    open spec fn from_spec(val: &str) -> Self {
        DriverName::of_buffer(encode_name(encode_utf8(val@)))
    }
}

impl Default for DriverName {
    fn default() -> (name: Self)
        ensures
            name@ == encode_name(Seq::<u8>::empty()),
    {
        Self::new()
    }
}

/// Represents an argument to get a USBFS driver from an `ioctl`.
#[derive(Clone, Copy, Debug)]
pub struct UsbfsGetDriver {
    interface: u32,
    driver: DriverName,
}

/// What a [UsbfsGetDriver] holds: the interface, and the buffer of the driver name.
pub struct UsbfsGetDriverView {
    pub interface: u32,
    pub driver: Seq<u8>,
}

impl View for UsbfsGetDriver {
    type V = UsbfsGetDriverView;

    closed spec fn view(&self) -> UsbfsGetDriverView {
        UsbfsGetDriverView { interface: self.interface, driver: self.driver@ }
    }
}

impl UsbfsGetDriverView {
    /// The text of a record: its fields by name, between braces.
    pub open spec fn text(self) -> Seq<char> {
        "{"@ + "\"interface\": "@ + decimal(self.interface as int) + ", "@ + "\"driver\": "@
            + "\""@ + decode_name(self.driver) + "\""@ + "}"@
    }
}

impl UsbfsGetDriver {
    /// Creates a new [UsbfsGetDriver].
    pub fn new() -> (get_driver: Self)
        ensures
            get_driver@ == (UsbfsGetDriverView {
                interface: 0,
                driver: encode_name(Seq::<u8>::empty()),
            }),
    {
        Self { interface: 0, driver: DriverName::new() }
    }

    /// Creates a new [UsbfsGetDriver] from the provided parameters.
    pub fn create(interface: u32, driver: &str) -> (get_driver: Self)
        ensures
            get_driver@ == (UsbfsGetDriverView {
                interface,
                driver: encode_name(encode_utf8(driver@)),
            }),
    {
        Self { interface, driver: DriverName::from(driver) }
    }

    /// Creates a [UsbfsGetDriver] from the fields of its record as the kernel holds
    /// it: the interface and the buffer of the driver name.
    pub fn from_raw(interface: u32, driver: DriverName) -> (get_driver: Self)
        ensures
            get_driver@ == (UsbfsGetDriverView { interface, driver: driver@ }),
    {
        Self { interface, driver }
    }

    /// Gets the interface.
    pub fn interface(&self) -> (interface: u32)
        ensures
            interface == self@.interface,
    {
        self.interface
    }

    /// Sets the interface.
    pub fn set_interface(&mut self, interface: u32)
        ensures
            final(self)@ == (UsbfsGetDriverView { interface, ..old(self)@ }),
    {
        self.interface = interface;
    }

    /// Builder function that sets the interface.
    pub fn with_interface(self, interface: u32) -> (get_driver: Self)
        ensures
            get_driver@ == (UsbfsGetDriverView { interface, ..self@ }),
    {
        let mut get_driver = self;
        get_driver.set_interface(interface);
        get_driver
    }

    /// Gets the driver name.
    ///
    /// **NOTE** The text is empty where the name is not valid UTF-8.
    pub fn driver(&self) -> (text: &str)
        ensures
            text@ == decode_name(self@.driver),
    {
        self.driver.as_str()
    }

    /// Gets the buffer of the driver name.
    pub fn driver_name(&self) -> (name: &DriverName)
        ensures
            name@ == self@.driver,
    {
        &self.driver
    }

    /// Sets the driver name.
    ///
    /// **NOTE** Sets at most [`USBFS_MAX_DRIVER_NAME`] bytes.
    pub fn set_driver(&mut self, driver: &str)
        ensures
            final(self)@ == (UsbfsGetDriverView {
                driver: encode_name(encode_utf8(driver@)),
                ..old(self)@
            }),
    {
        self.driver.from_string(driver);
    }

    /// Sets the buffer of the driver name, as the kernel filled it.
    pub fn set_driver_name(&mut self, name: DriverName)
        ensures
            final(self)@ == (UsbfsGetDriverView { driver: name@, ..old(self)@ }),
    {
        self.driver = name;
    }

    /// Builder function that sets the driver name.
    ///
    /// **NOTE** Sets at most [`USBFS_MAX_DRIVER_NAME`] bytes.
    pub fn with_driver(self, driver: &str) -> (get_driver: Self)
        ensures
            get_driver@ == (UsbfsGetDriverView {
                driver: encode_name(encode_utf8(driver@)),
                ..self@
            }),
    {
        let mut get_driver = self;
        get_driver.set_driver(driver);
        get_driver
    }

    /// Renders the record as text.
    pub fn to_string(&self) -> (text: String)
        ensures
            text@ == self@.text(),
    {
        let mut text = String::from_str("{");
        text.append("\"interface\": ");
        push_unsigned(&mut text, self.interface as u64);
        text.append(", ");
        text.append("\"driver\": ");
        text.append("\"");
        text.append(self.driver.as_str());
        text.append("\"");
        text.append("}");
        text
    }
}

impl PartialEq for UsbfsGetDriver {
    fn eq(&self, rhs: &Self) -> (equal: bool) {
        self.interface == rhs.interface && self.driver == rhs.driver
    }
}

impl PartialEqSpecImpl for UsbfsGetDriver {
    open spec fn obeys_eq_spec() -> bool {
        true
    }

    open spec fn eq_spec(&self, rhs: &Self) -> bool {
        self@ == rhs@
    }
}

impl Default for UsbfsGetDriver {
    fn default() -> (get_driver: Self)
        ensures
            get_driver@ == (UsbfsGetDriverView {
                interface: 0,
                driver: encode_name(Seq::<u8>::empty()),
            }),
    {
        Self::new()
    }
}

} // verus!

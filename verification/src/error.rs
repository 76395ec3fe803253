use vstd::prelude::*;
use vstd::std_specs::cmp::PartialEqSpecImpl;
use vstd::std_specs::convert::FromSpecImpl;
use vstd::string::StringExecFns;

verus! {

/// Convenience alias for the library `Result` type.
pub type Result<T> = std::result::Result<T, Error>;

/// Error type for the USBFS crate.
///
/// Every failure of an `ioctl` is of the one kind, and carries the text of the
/// kernel's error.
#[derive(Debug)]
pub enum Error {
    Ioctl(String),
}

impl View for Error {
    type V = Seq<char>;

    /// The text of the kernel's error.
    open spec fn view(&self) -> Seq<char> {
        match self {
            Error::Ioctl(err) => err@,
        }
    }
}

#[verifier::external_type_specification]
#[verifier::external_body]
pub struct ExErrno(nix::errno::Errno);

/// The text that `nix` shows for the error number `code`: the number's name, a
/// colon, and its description.
pub uninterp spec fn errno_text(code: i32) -> Seq<char>;

/// The number of an error of the kernel: the value that its variant of
/// `nix::errno::Errno` is declared with.
pub uninterp spec fn errno_number(err: nix::errno::Errno) -> i32;

/// Whether an error of the kernel is `EAGAIN`, which says that nothing is ready yet.
pub uninterp spec fn errno_says_try_again(err: nix::errno::Errno) -> bool;

/// The number of an error of the kernel.
///
/// This is the cast of a `nix::errno::Errno` to `i32`, which gives the value that
/// the variant is declared with. The number is a function of the error alone.
#[verifier::external_body]
pub(crate) fn errno_code(err: nix::errno::Errno) -> (code: i32)
    ensures
        code == errno_number(err),
{
    err as i32
}

/// The text of the error of the kernel with the number `code`.
///
/// This is `nix::errno::Errno::from_raw`, shown through the `Display` of
/// `nix::errno::Errno`. The text is a function of the number alone.
#[verifier::external_body]
fn errno_message(code: i32) -> (text: String)
    ensures
        text@ == errno_text(code),
{
    format!("{}", nix::errno::Errno::from_raw(code))
}

/// Whether an error of the kernel says that nothing is ready yet.
///
/// This tells the variant `EAGAIN` of `nix::errno::Errno` from the others. The answer
/// is a function of the error alone.
#[verifier::external_body]
pub(crate) fn errno_is_try_again(err: nix::errno::Errno) -> (again: bool)
    ensures
        again == errno_says_try_again(err),
{
    matches!(err, nix::errno::Errno::EAGAIN)
}

impl Error {
    /// Creates the error for the error number `code` of the kernel.
    pub fn from_errno_code(code: i32) -> (err: Self)
        ensures
            err@ == errno_text(code),
    {
        Self::Ioctl(errno_message(code))
    }

    /// Renders the error as text.
    pub fn to_string(&self) -> (text: String)
        ensures
            text@ == "IOCTL error: "@ + self@,
    {
        let mut text = String::from_str("IOCTL error: ");
        match self {
            Self::Ioctl(err) => text.append(err.as_str()),
        }
        text
    }
}

impl From<nix::errno::Errno> for Error {
    /// Creates the error for an error of the kernel: it carries the text that `nix`
    /// shows for the error's number.
    fn from(err: nix::errno::Errno) -> (error: Self)
        ensures
            error@ == errno_text(errno_number(err)),
    {
        Self::from_errno_code(errno_code(err))
    }
}

impl FromSpecImpl<nix::errno::Errno> for Error {
    open spec fn obeys_from_spec() -> bool {
        false
    }

    open spec fn from_spec(err: nix::errno::Errno) -> Self {
        arbitrary()
    }
}

impl Clone for Error {
    fn clone(&self) -> (err: Self)
        ensures
            err@ == self@,
    {
        match self {
            Self::Ioctl(err) => Self::Ioctl(err.clone()),
        }
    }
}

impl PartialEq for Error {
    fn eq(&self, rhs: &Self) -> (equal: bool) {
        match (self, rhs) {
            (Self::Ioctl(err), Self::Ioctl(rhs_err)) => *err == *rhs_err,
        }
    }
}

impl PartialEqSpecImpl for Error {
    open spec fn obeys_eq_spec() -> bool {
        true
    }

    open spec fn eq_spec(&self, rhs: &Self) -> bool {
        self@ == rhs@
    }
}

/// Collapses the answer of an `ioctl` call: a success whatever number came back, and
/// for an error of the kernel the library's error with the text of that error.
pub fn ioctl_result(answer: std::result::Result<i32, nix::errno::Errno>) -> (result: Result<()>)
    ensures
        answer is Ok <==> result is Ok,
        answer matches Err(err) ==> result matches Err(error) && error@ == errno_text(
            errno_number(err),
        ),
{
    match answer {
        Ok(_) => Ok(()),
        Err(err) => Err(Error::from(err)),
    }
}

} // verus!

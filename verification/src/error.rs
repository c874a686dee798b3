//! The error that acquiring the register block can end in.

use vstd::prelude::*;
use vstd::string::StringExecFns;
use nix::errno::Errno;

verus! {

/// `nix::errno::Errno`, an OS error number by name. Its values are carried
/// and compared, never looked into.
#[verifier::external_type_specification]
#[verifier::external_body]
pub struct ExErrno(nix::errno::Errno);

/// `std::io::Error`. Its values are carried, never looked into.
#[verifier::external_type_specification]
#[verifier::external_body]
pub struct ExIoError(std::io::Error);

/// The English description that nix keeps for an OS error: what
/// `nix::errno::Errno::desc` returns for it. The table fills pages and is
/// nix's to keep, so the text has a name here and no definition.
pub uninterp spec fn errno_description(errno: Errno) -> Seq<char>;

/// `nix::errno::Errno::desc` looks the error up in a fixed table of string
/// literals, one per error, and returns the entry: the same error always
/// has the same description.
pub assume_specification[ nix::errno::Errno::desc ](errno: Errno) -> (description: &'static str)
    ensures
        description@ == errno_description(errno),
;

/// `nix::errno::Errno::as_errno` is kept by nix for callers written when its
/// error type was wider than `Errno`; it hands the receiver back inside
/// `Some`.
#[allow(deprecated)]
pub assume_specification[ nix::errno::Errno::as_errno ](error: Errno) -> (errno: Option<Errno>)
    ensures
        errno == Some(error),
;

/// `nix::errno::Errno::from_i32` maps a raw OS error number to the `Errno`
/// of that number on the target, and any number it does not know to
/// `Errno::UnknownErrno`. Nothing is claimed of which one comes back.
pub assume_specification[ nix::errno::Errno::from_i32 ](code: i32) -> (errno: Errno)
;

/// `std::io::Error::raw_os_error` returns the OS error number that the error
/// carries, if it carries one. Nothing is claimed of the result.
pub assume_specification[ std::io::Error::raw_os_error ](error: &std::io::Error) -> (code:
    Option<i32>)
;

/// A failure to reach the register block: what was attempted, and the OS
/// error behind it where there is one.
pub struct Error {
    pub message: String,
    pub errno: Option<Errno>,
}

/// What separates the message from the description of the OS error.
pub open spec fn separator() -> Seq<char> {
    seq![':', ' ']
}

/// The text shown for an error: the message alone, or the message, a colon,
/// a space and the description of the OS error.
pub open spec fn display_text(message: Seq<char>, description: Option<Seq<char>>) -> Seq<char> {
    match description {
        None => message,
        Some(text) => message + separator() + text,
    }
}

/// View of an optional string slice.
pub open spec fn optional_text(text: Option<&str>) -> Option<Seq<char>> {
    match text {
        None => None,
        Some(inner) => Some(inner@),
    }
}

/// The description of an OS error, where there is one.
pub open spec fn description_of(errno: Option<Errno>) -> Option<Seq<char>> {
    match errno {
        None => None,
        Some(known) => Some(errno_description(known)),
    }
}

/// Lays out the text shown for an error from its message and the
/// description of its OS error.
pub fn display_form(message: &str, description: Option<&str>) -> (text: String)
    ensures
        text@ == display_text(message@, optional_text(description)),
{
    let mut text = String::from_str(message);
    match description {
        None => {},
        Some(inner) => {
            proof {
                reveal_strlit(": ");
            }
            text.append(": ");
            text.append(inner);
            assert(text@ =~= message@ + separator() + inner@);
        },
    }
    text
}

impl Error {
    /// An error with the given message and OS error.
    pub fn new(message: String, errno: Option<Errno>) -> (error: Self)
        ensures
            error.message@ == message@,
            error.errno == errno,
    {
        Self { message, errno }
    }

    /// An error with the given message for a failure that nix reported.
    pub fn from_nix(message: String, error: nix::Error) -> (made: Self)
        ensures
            made.message@ == message@,
            made.errno == Some(error),
    {
        #[allow(deprecated)]
        let errno = error.as_errno();
        Self::new(message, errno)
    }

    /// An error with the given message for a failure whose OS error number,
    /// if it has one, is `code`. The OS error is the one that nix knows
    /// under that number; it is absent where the number is.
    pub fn from_raw_os_error(message: String, code: Option<i32>) -> (made: Self)
        ensures
            made.message@ == message@,
            made.errno is Some <==> code is Some,
    {
        let errno = match code {
            Some(number) => Some(Errno::from_i32(number)),
            None => None,
        };
        Self::new(message, errno)
    }

    /// An error with the given message for a failure of std's I/O, with the
    /// OS error of the number that `error` carries.
    pub fn from_io(message: String, error: std::io::Error) -> (made: Self)
        ensures
            made.message@ == message@,
    {
        Self::from_raw_os_error(message, error.raw_os_error())
    }

    /// The text shown for the error: `<message>` where no OS error is
    /// known, `<message>: <description of the OS error>` where one is.
    pub fn to_string(&self) -> (text: String)
        ensures
            text@ == display_text(self.message@, description_of(self.errno)),
    {
        match self.errno {
            None => display_form(self.message.as_str(), None),
            Some(errno) => display_form(self.message.as_str(), Some(errno.desc())),
        }
    }
}

} // verus!

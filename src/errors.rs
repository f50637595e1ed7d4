//! The failures the library reports, split by who can fix them, and the
//! process status that each one maps to.

use vstd::prelude::*;

verus! {

/// `std::fmt::Error` carries no data, so its constructor is visible.
#[verifier::external_type_specification]
pub struct ExFmtError(std::fmt::Error);

#[verifier::external_type_specification]
#[verifier::external_body]
pub struct ExIoError(std::io::Error);

/// Any failure of a run.
#[derive(Debug)]
pub enum Error {
    /// Problems the user can fix: bad flags, unreadable input.
    UserInput(UserInputError),
    /// Problems of the environment: configuration or file system.
    System(SystemError),
}

/// Failures caused by what the user supplied.
#[derive(Debug)]
pub enum UserInputError {
    InvalidDateFormat(String),
    UnsupportedFormat(std::fmt::Error),
    UnsupportedTimezone(String),
    InvalidNow(String),
    MissingArgument(String),
}

/// Failures that stem from the operating environment.
#[derive(Debug)]
pub enum SystemError {
    Config(String),
    Io(std::io::Error),
}

/// What an [`Error`] says, as plain values: its kind and its message.
pub enum Fault {
    InvalidDateFormat(Seq<char>),
    UnsupportedFormat,
    UnsupportedTimezone(Seq<char>),
    InvalidNow(Seq<char>),
    MissingArgument(Seq<char>),
    Config(Seq<char>),
    Io,
}

impl Fault {
    /// The kinds that the user can fix.
    pub open spec fn is_user_input(self) -> bool {
        !(self is Config || self is Io)
    }
}

impl View for Error {
    type V = Fault;

    open spec fn view(&self) -> Fault {
        match self {
            Error::UserInput(e) => match e {
                UserInputError::InvalidDateFormat(m) => Fault::InvalidDateFormat(m@),
                UserInputError::UnsupportedFormat(_) => Fault::UnsupportedFormat,
                UserInputError::UnsupportedTimezone(m) => Fault::UnsupportedTimezone(m@),
                UserInputError::InvalidNow(m) => Fault::InvalidNow(m@),
                UserInputError::MissingArgument(m) => Fault::MissingArgument(m@),
            },
            Error::System(e) => match e {
                SystemError::Config(m) => Fault::Config(m@),
                SystemError::Io(_) => Fault::Io,
            },
        }
    }
}

/// A result of the library as plain values.
pub open spec fn outcome_view(r: Result<String, Error>) -> Result<Seq<char>, Fault> {
    match r {
        Ok(s) => Ok(s@),
        Err(e) => Err(e@),
    }
}

/// Relies on the constant `exitcode::USAGE` (64): the command was used incorrectly.
#[verifier::external_body]
fn usage_status() -> (r: i32)
    ensures
        r == 64,
{
    exitcode::USAGE
}

/// Relies on the constant `exitcode::CONFIG` (78): something was found in an unconfigured or
/// misconfigured state.
#[verifier::external_body]
fn config_status() -> (r: i32)
    ensures
        r == 78,
{
    exitcode::CONFIG
}

/// Relies on the constant `exitcode::IOERR` (74): an error occurred while doing I/O.
#[verifier::external_body]
fn io_status() -> (r: i32)
    ensures
        r == 74,
{
    exitcode::IOERR
}

/// The process status for a failure: usage errors for what the user can fix, a configuration
/// or an I/O status for the environment.
pub open spec fn exit_status(f: Fault) -> int {
    match f {
        Fault::Config(_) => 78,
        Fault::Io => 74,
        _ => 64,
    }
}

impl Error {
    /// The status a process should end with after this failure.
    pub fn exit_code(&self) -> (code: i32)
        ensures
            code == exit_status(self@),
            self@.is_user_input() ==> code == 64,
    {
        match self {
            Error::UserInput(_) => usage_status(),
            Error::System(SystemError::Config(_)) => config_status(),
            Error::System(SystemError::Io(_)) => io_status(),
        }
    }

    /// Whether the user, rather than the environment, can fix this failure.
    pub fn is_user_input(&self) -> (r: bool)
        ensures
            r == self@.is_user_input(),
    {
        match self {
            Error::UserInput(_) => true,
            Error::System(_) => false,
        }
    }
}

impl From<UserInputError> for Error {
    fn from(e: UserInputError) -> (r: Error) {
        Error::UserInput(e)
    }
}

impl vstd::std_specs::convert::FromSpecImpl<UserInputError> for Error {
    open spec fn obeys_from_spec() -> bool {
        true
    }

    open spec fn from_spec(e: UserInputError) -> Error {
        Error::UserInput(e)
    }
}

impl From<SystemError> for Error {
    fn from(e: SystemError) -> (r: Error) {
        Error::System(e)
    }
}

impl vstd::std_specs::convert::FromSpecImpl<SystemError> for Error {
    open spec fn obeys_from_spec() -> bool {
        true
    }

    open spec fn from_spec(e: SystemError) -> Error {
        Error::System(e)
    }
}

impl From<std::fmt::Error> for UserInputError {
    fn from(e: std::fmt::Error) -> (r: UserInputError) {
        UserInputError::UnsupportedFormat(e)
    }
}

impl vstd::std_specs::convert::FromSpecImpl<std::fmt::Error> for UserInputError {
    open spec fn obeys_from_spec() -> bool {
        true
    }

    open spec fn from_spec(e: std::fmt::Error) -> UserInputError {
        UserInputError::UnsupportedFormat(e)
    }
}

/// A failure of the formatting engine is a pattern the user has to change.
impl From<std::fmt::Error> for Error {
    fn from(e: std::fmt::Error) -> (r: Error) {
        Error::UserInput(UserInputError::UnsupportedFormat(e))
    }
}

impl vstd::std_specs::convert::FromSpecImpl<std::fmt::Error> for Error {
    open spec fn obeys_from_spec() -> bool {
        true
    }

    open spec fn from_spec(e: std::fmt::Error) -> Error {
        Error::UserInput(UserInputError::UnsupportedFormat(e))
    }
}

impl From<std::io::Error> for SystemError {
    fn from(e: std::io::Error) -> (r: SystemError) {
        SystemError::Io(e)
    }
}

impl vstd::std_specs::convert::FromSpecImpl<std::io::Error> for SystemError {
    open spec fn obeys_from_spec() -> bool {
        true
    }

    open spec fn from_spec(e: std::io::Error) -> SystemError {
        SystemError::Io(e)
    }
}

impl From<std::io::Error> for Error {
    fn from(e: std::io::Error) -> (r: Error) {
        Error::System(SystemError::Io(e))
    }
}

impl vstd::std_specs::convert::FromSpecImpl<std::io::Error> for Error {
    open spec fn obeys_from_spec() -> bool {
        true
    }

    open spec fn from_spec(e: std::io::Error) -> Error {
        Error::System(SystemError::Io(e))
    }
}

/// Relies on `std::io::Error::kind` and the derived equality of `std::io::ErrorKind`: whether
/// two I/O errors are of the same kind. Verus sees neither kind, so nothing is stated.
#[verifier::external_body]
fn same_io_kind(a: &std::io::Error, b: &std::io::Error) -> (r: bool) {
    a.kind() == b.kind()
}

impl UserInputError {
    /// The failure as plain values.
    pub open spec fn fault(&self) -> Fault {
        match self {
            UserInputError::InvalidDateFormat(m) => Fault::InvalidDateFormat(m@),
            UserInputError::UnsupportedFormat(_) => Fault::UnsupportedFormat,
            UserInputError::UnsupportedTimezone(m) => Fault::UnsupportedTimezone(m@),
            UserInputError::InvalidNow(m) => Fault::InvalidNow(m@),
            UserInputError::MissingArgument(m) => Fault::MissingArgument(m@),
        }
    }
}

/// Two user-input failures are equal when they are of the same kind with the same message;
/// formatting failures carry no data and are all equal.
impl PartialEq for UserInputError {
    fn eq(&self, other: &UserInputError) -> (r: bool) {
        match (self, other) {
            (UserInputError::InvalidDateFormat(a), UserInputError::InvalidDateFormat(b)) => a.eq(b),
            (UserInputError::UnsupportedFormat(_), UserInputError::UnsupportedFormat(_)) => true,
            (UserInputError::UnsupportedTimezone(a), UserInputError::UnsupportedTimezone(b)) => a.eq(b),
            (UserInputError::InvalidNow(a), UserInputError::InvalidNow(b)) => a.eq(b),
            (UserInputError::MissingArgument(a), UserInputError::MissingArgument(b)) => a.eq(b),
            _ => false,
        }
    }
}

impl vstd::std_specs::cmp::PartialEqSpecImpl for UserInputError {
    open spec fn obeys_eq_spec() -> bool {
        true
    }

    open spec fn eq_spec(&self, other: &UserInputError) -> bool {
        self.fault() == other.fault()
    }
}

impl Eq for UserInputError {}

/// Two system failures are equal when they are of the same kind: configuration failures with
/// the same message, I/O failures of the same `std::io::ErrorKind`.
impl PartialEq for SystemError {
    fn eq(&self, other: &SystemError) -> (r: bool) {
        match (self, other) {
            (SystemError::Config(a), SystemError::Config(b)) => a == b,
            (SystemError::Io(a), SystemError::Io(b)) => same_io_kind(a, b),
            _ => false,
        }
    }
}

/// The kind of an I/O error is not visible to Verus, so `==` is given no specification here.
impl vstd::std_specs::cmp::PartialEqSpecImpl for SystemError {
    open spec fn obeys_eq_spec() -> bool {
        false
    }

    open spec fn eq_spec(&self, other: &SystemError) -> bool {
        Error::System(*self)@ == Error::System(*other)@
    }
}

impl Eq for SystemError {}

/// Two failures are equal when both are user-input failures that are equal, or both are
/// system failures that are equal.
impl PartialEq for Error {
    fn eq(&self, other: &Error) -> (r: bool) {
        match (self, other) {
            (Error::UserInput(a), Error::UserInput(b)) => a == b,
            (Error::System(a), Error::System(b)) => a == b,
            _ => false,
        }
    }
}

/// Equality reaches the kind of an I/O error, which Verus does not see, so `==` is given no
/// specification here.
impl vstd::std_specs::cmp::PartialEqSpecImpl for Error {
    open spec fn obeys_eq_spec() -> bool {
        false
    }

    open spec fn eq_spec(&self, other: &Error) -> bool {
        self@ == other@
    }
}

impl Eq for Error {}

} // verus!

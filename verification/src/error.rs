//! Everything that can go wrong, and the words that are shown for it.
use crate::text::{
    decimal, decimal_text, joined, owned, signed_decimal, signed_decimal_text, NumberError,
};
use vstd::prelude::*;

verus! {

/// What a base64 text was meant to hold.
#[derive(Clone, Copy, Debug, PartialEq, Eq, Structural)]
pub enum Base64Context {
    Input,
    Checkpoint,
    Replay,
    SubscriptionReplay,
}

/// Why a text is not the base64 of any bytes.
#[derive(Clone, Copy, Debug, PartialEq, Eq, Structural)]
pub enum Base64Error {
    /// A byte outside the alphabet, and where it stands.
    InvalidByte { index: usize, byte: u8 },
    /// A length that no encoding has.
    InvalidLength { length: usize },
    /// A last symbol with bits that should be clear, and where it stands.
    InvalidLastSymbol { index: usize, byte: u8 },
    /// Padding that is missing, wrong or misplaced.
    InvalidPadding,
}

/// What went wrong.
#[derive(Debug)]
pub enum Error {
    /// No terminal has this number.
    TerminalNotFound { id: u64 },
    /// The program to start is blank.
    EmptyProgram,
    /// More input than one request may carry.
    InputTooLarge,
    /// A terminal without columns or without rows.
    ZeroSize,
    /// The attachment does not exist.
    NotSubscribed { attachment_id: String },
    /// Another attachment is in control and was not to be displaced.
    HasController { current: String },
    /// Anonymous input while an attachment is in control.
    RequiresController,
    /// Input from an attachment that is not in control.
    NotController { attachment_id: String },
    /// Replay from an offset that was not produced yet.
    BeyondTail { requested: u64, tail: u64 },
    /// The pseudoterminal has been closed behind its child.
    ChildExited,
    /// The terminal is being shut down.
    TerminalStopping,
    /// Nothing takes input for the child any more.
    WriterStopped,
    /// Nothing is left that could close the pseudoterminal.
    CloseWorkerStopped,
    /// A request for no rows.
    ZeroRows,
    /// The rows do not fit in one answer.
    RowsTooLarge,
    /// A row further down than the emulator can address.
    RowIndexTooLarge,
    /// The emulator did not format a row.
    RowNotFormatted { cause: String },
    /// The daemon has an owner.
    LiveOwner,
    /// The daemon can have no owner any more.
    OwnershipOver,
    /// The ticket is not the one that was issued.
    InvalidTicket,
    /// A handoff was asked for by somebody other than the owner.
    NotOwner,
    /// A payload over the limit of a frame.
    FrameTooLarge,
    /// A payload whose length cannot be counted.
    OutputFrameOverflow,
    /// A frame header that announces more than the limit.
    FrameClaimsTooMuch { length: u64 },
    /// An output frame without room for its offsets.
    InvalidOutputFrame,
    /// A payload that is not the JSON of the expected value.
    InvalidJson { cause: String },
    /// The token is not the daemon's.
    AuthenticationFailed,
    /// The request is meant for another daemon.
    InstanceMismatch,
    /// The daemon is being shut down.
    DaemonStopping,
    /// A request that an owner connection does not take.
    OwnerRequestsOnly,
    /// A later owner has taken over.
    OwnerSuperseded,
    /// The daemon speaks another version of the protocol.
    ProtocolMismatch { service: u64, client: u64 },
    /// Another daemon answers at the registered endpoint.
    RegistrationMismatch,
    /// The started daemon cannot be reached in time.
    NotReady,
    /// Text that is not the number of a terminal.
    ExpectedTerminalId { number: NumberError },
    /// Text that is not a number.
    NotANumber { number: NumberError },
    /// A command that needs the active terminal, without one.
    NoActiveTerminal,
    /// A command that needs a terminal, without one.
    NoTerminal,
    /// Wrong arguments of `daemon`.
    UsageDaemon,
    /// Wrong arguments of `watch`.
    UsageWatch,
    /// Wrong arguments of `resize`.
    UsageResize,
    /// A command line with an open quote.
    UnclosedQuote,
    /// Text that is not the base64 of any bytes.
    InvalidBase64 { what: Base64Context, fault: Base64Error },
    /// The emulator could not allocate.
    OutOfMemory,
    /// The emulator refused an argument.
    InvalidValue,
    /// The emulator's output does not fit.
    OutOfSpace,
    /// The emulator has no such value.
    NoValue,
    /// A path that is not a local pipe of this service.
    InvalidEndpoint,
    /// The emulator failed in a way that has no name.
    Native { code: i32 },
    /// The emulator claims to have written more than there was room for.
    RowOverrun,
    /// A file of the service is a link.
    ReparsePoint,
    /// A file of the service is a directory, or the other way round.
    WrongFileType,
    /// A path that ends early.
    NulInPath,
    /// A registration that no daemon wrote.
    RegistrationTooLarge,
    /// A path whose length cannot be counted.
    RenameOverflow,
    /// A number that does not fit.
    OutOfRange,
    /// A runtime directory that depends on where one is.
    RuntimeDirNotAbsolute,
    /// Nothing says where the runtime directory is.
    NoLocalAppData,
    /// A client that goes on after its request.
    UnexpectedData,
    /// No daemon has registered.
    RegistrationUnavailable { cause: String },
    /// A registration that cannot be read.
    InvalidRegistration { cause: String },
    /// A link or a file where the sockets should be.
    NotRealDirectory { directory: String },
    /// Somebody else's directory where the sockets should be.
    WrongOwner { directory: String, owner: u32, expected: u32 },
    /// A file of the service belongs to somebody else.
    NotOurs,
    /// A file of the service inherits who may use it.
    Unprotected,
    /// A file of the service is open to more than one principal.
    SharedStorage,
    /// A file of the service is not simply granted to somebody.
    UnexpectedGrant,
    /// A file of the service is open to somebody else.
    ForeignGrant,
    /// The started daemon has ended before anybody could own it.
    DaemonExited { status: String },
    /// A failure outside the library, in its own words.
    Failed { message: String },
}

/// One text behind another.
fn followed(words: &str, by: &str) -> (r: String)
    ensures
        r@ == words@ + by@,
{
    joined(owned(words), by)
}

/// A text between two others.
fn around(before: &str, middle: &str, after: &str) -> (r: String)
    ensures
        r@ == before@ + middle@ + after@,
{
    joined(joined(owned(before), middle), after)
}

impl Base64Context {
    pub open spec fn text(self) -> Seq<char> {
        match self {
            Base64Context::Input => "input"@,
            Base64Context::Checkpoint => "checkpoint"@,
            Base64Context::Replay => "replay"@,
            Base64Context::SubscriptionReplay => "subscription replay"@,
        }
    }

    pub fn message(&self) -> (r: String)
        ensures
            r@ == self.text(),
    {
        match self {
            Base64Context::Input => owned("input"),
            Base64Context::Checkpoint => owned("checkpoint"),
            Base64Context::Replay => owned("replay"),
            Base64Context::SubscriptionReplay => owned("subscription replay"),
        }
    }
}

impl Base64Error {
    pub open spec fn text(self) -> Seq<char> {
        match self {
            Base64Error::InvalidByte { index, byte } => "Invalid symbol "@ + decimal(byte as nat)
                + ", offset "@ + decimal(index as nat) + "."@,
            Base64Error::InvalidLength { length } => "Invalid input length: "@ + decimal(
                length as nat,
            ),
            Base64Error::InvalidLastSymbol { index, byte } => "Invalid last symbol "@ + decimal(
                byte as nat,
            ) + ", offset "@ + decimal(index as nat) + "."@,
            Base64Error::InvalidPadding => "Invalid padding"@,
        }
    }

    pub fn message(&self) -> (r: String)
        ensures
            r@ == self.text(),
    {
        match self {
            Base64Error::InvalidByte { index, byte } => {
                let symbol = decimal_text(*byte as u128);
                let r = around("Invalid symbol ", symbol.as_str(), ", offset ");
                joined(joined(r, decimal_text(*index as u128).as_str()), ".")
            },
            Base64Error::InvalidLength { length } => followed(
                "Invalid input length: ",
                decimal_text(*length as u128).as_str(),
            ),
            Base64Error::InvalidLastSymbol { index, byte } => {
                let symbol = decimal_text(*byte as u128);
                let r = around("Invalid last symbol ", symbol.as_str(), ", offset ");
                joined(joined(r, decimal_text(*index as u128).as_str()), ".")
            },
            Base64Error::InvalidPadding => owned("Invalid padding"),
        }
    }
}

impl NumberError {
    pub open spec fn text(self) -> Seq<char> {
        match self {
            NumberError::Empty => "cannot parse integer from empty string"@,
            NumberError::InvalidDigit => "invalid digit found in string"@,
            NumberError::PosOverflow => "number too large to fit in target type"@,
        }
    }

    pub fn message(&self) -> (r: String)
        ensures
            r@ == self.text(),
    {
        match self {
            NumberError::Empty => owned("cannot parse integer from empty string"),
            NumberError::InvalidDigit => owned("invalid digit found in string"),
            NumberError::PosOverflow => owned("number too large to fit in target type"),
        }
    }
}

impl View for Error {
    type V = Seq<char>;

    /// An error is known by its words.
    open spec fn view(&self) -> Seq<char> {
        self.text()
    }
}

impl Error {
    /// The words that are shown for the error, causes included.
    pub open spec fn text(self) -> Seq<char> {
        match self {
            Error::TerminalNotFound { id } => "terminal "@ + decimal(id as nat) + " not found"@,
            Error::EmptyProgram => "terminal program cannot be empty"@,
            Error::InputTooLarge => "input exceeds 1048576 byte limit"@,
            Error::ZeroSize => "terminal dimensions must be positive"@,
            Error::NotSubscribed { attachment_id } => {
                "attachment "@ + attachment_id@ + " is not subscribed"@
            },
            Error::HasController { current } => "terminal already has controller "@ + current@,
            Error::RequiresController => {
                "terminal input requires the active controller attachment"@
            },
            Error::NotController { attachment_id } => {
                "attachment "@ + attachment_id@ + " is not the terminal controller"@
            },
            Error::BeyondTail { requested, tail } => {
                "requested offset "@ + decimal(requested as nat) + " is beyond tail "@
                    + decimal(tail as nat)
            },
            Error::ChildExited => "terminal child has exited"@,
            Error::TerminalStopping => "terminal is stopping"@,
            Error::WriterStopped => "terminal writer stopped"@,
            Error::CloseWorkerStopped => "terminal close worker stopped"@,
            Error::ZeroRows => "row count must be positive"@,
            Error::RowsTooLarge => "rows exceed 1048576 byte limit"@,
            Error::RowIndexTooLarge => {
                "terminal row index exceeds u32: out of range integral type conversion attempted"@
            },
            Error::RowNotFormatted { cause } => {
                "rows exceed 1048576 byte limit or formatting failed: "@ + cause@
            },
            Error::LiveOwner => "daemon already has a live owner"@,
            Error::OwnershipOver => "daemon ownership deadline expired or daemon is stopping"@,
            Error::InvalidTicket => "invalid handoff ticket"@,
            Error::NotOwner => "handoff requires the owner connection"@,
            Error::FrameTooLarge => "frame exceeds 8388608 byte limit"@,
            Error::OutputFrameOverflow => "output frame length overflow"@,
            Error::FrameClaimsTooMuch { length } => {
                "frame claims "@ + decimal(length as nat) + " bytes, limit is 8388608"@
            },
            Error::InvalidOutputFrame => "invalid output frame"@,
            Error::InvalidJson { cause } => "invalid protocol JSON: "@ + cause@,
            Error::AuthenticationFailed => "authentication failed"@,
            Error::InstanceMismatch => "daemon instance_id mismatch"@,
            Error::DaemonStopping => "daemon is stopping"@,
            Error::OwnerRequestsOnly => {
                "owner connection only accepts prepare_handoff or shutdown"@
            },
            Error::OwnerSuperseded => "owner connection has been superseded"@,
            Error::ProtocolMismatch { service, client } => {
                "opencode-pty protocol mismatch: service="@ + decimal(service as nat)
                    + ", client="@ + decimal(client as nat)
            },
            Error::RegistrationMismatch => {
                "opencode-pty registration did not match the running service"@
            },
            Error::NotReady => "opencode-pty did not become ready"@,
            Error::ExpectedTerminalId { number } => "expected terminal ID: "@ + number.text(),
            Error::NotANumber { number } => number.text(),
            Error::NoActiveTerminal => "no active terminal; use `new` or `use ID`"@,
            Error::NoTerminal => "no active terminal"@,
            Error::UsageDaemon => "usage: opencode-pty daemon"@,
            Error::UsageWatch => "usage: opencode-pty watch TERMINAL_ID"@,
            Error::UsageResize => "usage: resize COLS ROWS"@,
            Error::UnclosedQuote => "missing closing quote"@,
            Error::InvalidBase64 { what, fault } => {
                "invalid "@ + what.text() + " base64: "@ + fault.text()
            },
            Error::OutOfMemory => "Ghostty allocation failed"@,
            Error::InvalidValue => "Ghostty rejected an invalid value"@,
            Error::OutOfSpace => "Ghostty output buffer is too small"@,
            Error::NoValue => "Ghostty value is unavailable"@,
            Error::InvalidEndpoint => "expected a local opencode-pty named-pipe endpoint"@,
            Error::Native { code } => "Ghostty failed with result "@ + signed_decimal(code as int),
            Error::RowOverrun => "Ghostty wrote beyond the row buffer"@,
            Error::ReparsePoint => "PTY storage must not be a reparse point"@,
            Error::WrongFileType => "unexpected PTY storage file type"@,
            Error::NulInPath => "PTY storage path contains NUL"@,
            Error::RegistrationTooLarge => "PTY registration is too large"@,
            Error::RenameOverflow => "registration rename buffer overflow"@,
            Error::OutOfRange => "out of range integral type conversion attempted"@,
            Error::RuntimeDirNotAbsolute => "PTY runtime directory must be an absolute path"@,
            Error::NoLocalAppData => "LOCALAPPDATA is unavailable; set OPENCODE_PTY_RUNTIME_DIR"@,
            Error::UnexpectedData => "unexpected data after request"@,
            Error::RegistrationUnavailable { cause } => {
                "opencode-pty registration is unavailable: "@ + cause@
            },
            Error::InvalidRegistration { cause } => "invalid opencode-pty registration: "@ + cause@,
            Error::NotRealDirectory { directory } => {
                "PTY socket directory is not a real directory: "@ + directory@
            },
            Error::WrongOwner { directory, owner, expected } => {
                "PTY socket directory "@ + directory@ + " is owned by uid "@
                    + decimal(owner as nat) + ", expected "@ + decimal(expected as nat)
            },
            Error::NotOurs => "PTY storage is not owned by the current user"@,
            Error::Unprotected => "unprotected PTY storage DACL"@,
            Error::SharedStorage => "PTY storage must grant only the current user"@,
            Error::UnexpectedGrant => "unexpected PTY storage ACE"@,
            Error::ForeignGrant => "PTY storage grants another principal"@,
            Error::DaemonExited { status } => {
                "opencode-pty daemon exited before ownership acquisition: "@ + status@
            },
            Error::Failed { message } => message@,
        }
    }

    /// The words that are shown for the error, causes included.
    pub fn message(&self) -> (r: String)
        ensures
            r@ == self.text(),
            r@ == self@,
    {
        match self {
            Error::TerminalNotFound { id } => {
                around("terminal ", decimal_text(*id as u128).as_str(), " not found")
            },
            Error::EmptyProgram => owned("terminal program cannot be empty"),
            Error::InputTooLarge => owned("input exceeds 1048576 byte limit"),
            Error::ZeroSize => owned("terminal dimensions must be positive"),
            Error::NotSubscribed { attachment_id } => {
                around("attachment ", attachment_id.as_str(), " is not subscribed")
            },
            Error::HasController { current } => {
                followed("terminal already has controller ", current.as_str())
            },
            Error::RequiresController => {
                owned("terminal input requires the active controller attachment")
            },
            Error::NotController { attachment_id } => {
                around("attachment ", attachment_id.as_str(), " is not the terminal controller")
            },
            Error::BeyondTail { requested, tail } => joined(
                around(
                    "requested offset ",
                    decimal_text(*requested as u128).as_str(),
                    " is beyond tail ",
                ),
                decimal_text(*tail as u128).as_str(),
            ),
            Error::ChildExited => owned("terminal child has exited"),
            Error::TerminalStopping => owned("terminal is stopping"),
            Error::WriterStopped => owned("terminal writer stopped"),
            Error::CloseWorkerStopped => owned("terminal close worker stopped"),
            Error::ZeroRows => owned("row count must be positive"),
            Error::RowsTooLarge => owned("rows exceed 1048576 byte limit"),
            Error::RowIndexTooLarge => owned(
                "terminal row index exceeds u32: out of range integral type conversion attempted",
            ),
            Error::RowNotFormatted { cause } => {
                followed("rows exceed 1048576 byte limit or formatting failed: ", cause.as_str())
            },
            Error::LiveOwner => owned("daemon already has a live owner"),
            Error::OwnershipOver => {
                owned("daemon ownership deadline expired or daemon is stopping")
            },
            Error::InvalidTicket => owned("invalid handoff ticket"),
            Error::NotOwner => owned("handoff requires the owner connection"),
            Error::FrameTooLarge => owned("frame exceeds 8388608 byte limit"),
            Error::OutputFrameOverflow => owned("output frame length overflow"),
            Error::FrameClaimsTooMuch { length } => around(
                "frame claims ",
                decimal_text(*length as u128).as_str(),
                " bytes, limit is 8388608",
            ),
            Error::InvalidOutputFrame => owned("invalid output frame"),
            Error::InvalidJson { cause } => followed("invalid protocol JSON: ", cause.as_str()),
            Error::AuthenticationFailed => owned("authentication failed"),
            Error::InstanceMismatch => owned("daemon instance_id mismatch"),
            Error::DaemonStopping => owned("daemon is stopping"),
            Error::OwnerRequestsOnly => {
                owned("owner connection only accepts prepare_handoff or shutdown")
            },
            Error::OwnerSuperseded => owned("owner connection has been superseded"),
            Error::ProtocolMismatch { service, client } => joined(
                around(
                    "opencode-pty protocol mismatch: service=",
                    decimal_text(*service as u128).as_str(),
                    ", client=",
                ),
                decimal_text(*client as u128).as_str(),
            ),
            Error::RegistrationMismatch => {
                owned("opencode-pty registration did not match the running service")
            },
            Error::NotReady => owned("opencode-pty did not become ready"),
            Error::ExpectedTerminalId { number } => {
                followed("expected terminal ID: ", number.message().as_str())
            },
            Error::NotANumber { number } => number.message(),
            Error::NoActiveTerminal => owned("no active terminal; use `new` or `use ID`"),
            Error::NoTerminal => owned("no active terminal"),
            Error::UsageDaemon => owned("usage: opencode-pty daemon"),
            Error::UsageWatch => owned("usage: opencode-pty watch TERMINAL_ID"),
            Error::UsageResize => owned("usage: resize COLS ROWS"),
            Error::UnclosedQuote => owned("missing closing quote"),
            Error::InvalidBase64 { what, fault } => joined(
                around("invalid ", what.message().as_str(), " base64: "),
                fault.message().as_str(),
            ),
            Error::OutOfMemory => owned("Ghostty allocation failed"),
            Error::InvalidValue => owned("Ghostty rejected an invalid value"),
            Error::OutOfSpace => owned("Ghostty output buffer is too small"),
            Error::NoValue => owned("Ghostty value is unavailable"),
            Error::InvalidEndpoint => owned("expected a local opencode-pty named-pipe endpoint"),
            Error::Native { code } => {
                followed("Ghostty failed with result ", signed_decimal_text(*code).as_str())
            },
            Error::RowOverrun => owned("Ghostty wrote beyond the row buffer"),
            Error::ReparsePoint => owned("PTY storage must not be a reparse point"),
            Error::WrongFileType => owned("unexpected PTY storage file type"),
            Error::NulInPath => owned("PTY storage path contains NUL"),
            Error::RegistrationTooLarge => owned("PTY registration is too large"),
            Error::RenameOverflow => owned("registration rename buffer overflow"),
            Error::OutOfRange => owned("out of range integral type conversion attempted"),
            Error::RuntimeDirNotAbsolute => owned("PTY runtime directory must be an absolute path"),
            Error::NoLocalAppData => {
                owned("LOCALAPPDATA is unavailable; set OPENCODE_PTY_RUNTIME_DIR")
            },
            Error::UnexpectedData => owned("unexpected data after request"),
            Error::RegistrationUnavailable { cause } => {
                followed("opencode-pty registration is unavailable: ", cause.as_str())
            },
            Error::InvalidRegistration { cause } => {
                followed("invalid opencode-pty registration: ", cause.as_str())
            },
            Error::NotRealDirectory { directory } => {
                followed("PTY socket directory is not a real directory: ", directory.as_str())
            },
            Error::WrongOwner { directory, owner, expected } => {
                let r = joined(owned("PTY socket directory "), directory.as_str());
                let r = joined(r, " is owned by uid ");
                let r = joined(r, decimal_text(*owner as u128).as_str());
                joined(joined(r, ", expected "), decimal_text(*expected as u128).as_str())
            },
            Error::NotOurs => owned("PTY storage is not owned by the current user"),
            Error::Unprotected => owned("unprotected PTY storage DACL"),
            Error::SharedStorage => owned("PTY storage must grant only the current user"),
            Error::UnexpectedGrant => owned("unexpected PTY storage ACE"),
            Error::ForeignGrant => owned("PTY storage grants another principal"),
            Error::DaemonExited { status } => followed(
                "opencode-pty daemon exited before ownership acquisition: ",
                status.as_str(),
            ),
            Error::Failed { message } => message.clone(),
        }
    }
}

/// An error that knows more names it in its words.
pub proof fn law_errors_name_what_they_know(
    n: u64,
    m: u64,
    words: String,
    other: NumberError,
    what: Base64Context,
    fault: Base64Error,
    owner: u32,
    expected: u32,
)
    ensures
        (Error::TerminalNotFound { id: n })@ == "terminal "@ + decimal(n as nat) + " not found"@,
        (Error::NotSubscribed { attachment_id: words })@ == "attachment "@ + words@
            + " is not subscribed"@,
        (Error::HasController { current: words })@ == "terminal already has controller "@ + words@,
        (Error::NotController { attachment_id: words })@ == "attachment "@ + words@
            + " is not the terminal controller"@,
        (Error::BeyondTail { requested: n, tail: m })@ == "requested offset "@ + decimal(n as nat)
            + " is beyond tail "@ + decimal(m as nat),
        (Error::RowNotFormatted { cause: words })@
            == "rows exceed 1048576 byte limit or formatting failed: "@ + words@,
        (Error::FrameClaimsTooMuch { length: n })@ == "frame claims "@ + decimal(n as nat)
            + " bytes, limit is 8388608"@,
        (Error::InvalidJson { cause: words })@ == "invalid protocol JSON: "@ + words@,
        (Error::ProtocolMismatch { service: n, client: m })@
            == "opencode-pty protocol mismatch: service="@ + decimal(n as nat) + ", client="@
            + decimal(m as nat),
        (Error::ExpectedTerminalId { number: other })@ == "expected terminal ID: "@ + other.text(),
        (Error::NotANumber { number: other })@ == other.text(),
        (Error::InvalidBase64 { what, fault })@ == "invalid "@ + what.text() + " base64: "@
            + fault.text(),
        (Error::RegistrationUnavailable { cause: words })@
            == "opencode-pty registration is unavailable: "@ + words@,
        (Error::InvalidRegistration { cause: words })@ == "invalid opencode-pty registration: "@
            + words@,
        (Error::NotRealDirectory { directory: words })@
            == "PTY socket directory is not a real directory: "@ + words@,
        (Error::WrongOwner { directory: words, owner, expected })@ == "PTY socket directory "@
            + words@ + " is owned by uid "@ + decimal(owner as nat) + ", expected "@ + decimal(
            expected as nat,
        ),
        (Error::DaemonExited { status: words })@
            == "opencode-pty daemon exited before ownership acquisition: "@ + words@,
        (Error::Failed { message: words })@ == words@,
        fault matches Base64Error::InvalidByte { index, byte } ==> fault.text()
            == "Invalid symbol "@ + decimal(byte as nat) + ", offset "@ + decimal(index as nat)
            + "."@,
        fault matches Base64Error::InvalidLastSymbol { index, byte } ==> fault.text()
            == "Invalid last symbol "@ + decimal(byte as nat) + ", offset "@ + decimal(index as nat)
            + "."@,
        fault matches Base64Error::InvalidLength { length } ==> fault.text()
            == "Invalid input length: "@ + decimal(length as nat),
{
}

} // verus!

//! Error types.

use vstd::prelude::*;
use vstd::string::StringExecFns;

verus! {

/// What is kept of an error that another library raised: what it says, and
/// how it describes its kind.
#[derive(Debug)]
pub struct Foreign {
    pub message: String,
    pub description: String,
}

/// A BAD response from the server, which indicates an error message from the server.
#[derive(Debug)]
pub struct Bad {
    /// Human-redable message included with the Bad response.
    pub information: String,
    /// A more specific error status code included with the Bad response.
    pub code: Option<String>,
}

/// A NO response from the server, which indicates an operational error message from the server.
#[derive(Debug)]
pub struct No {
    /// Human-redable message included with the NO response.
    pub information: String,
    /// A more specific error status code included with the NO response.
    pub code: Option<String>,
}

/// A BYE response from the server, which indicates it is going to hang up on us.
#[derive(Debug)]
pub struct Bye {
    /// Human-redable message included with the response.
    pub information: String,
    /// A more specific error status code included with the response.
    pub code: Option<String>,
}

impl Bad {
    /// What the response says.
    pub fn to_text(&self) -> (text: String)
        ensures
            text@ == self.information@,
    {
        self.information.clone()
    }
}

impl No {
    /// What the response says.
    pub fn to_text(&self) -> (text: String)
        ensures
            text@ == self.information@,
    {
        self.information.clone()
    }
}

impl Bye {
    /// What the response says.
    pub fn to_text(&self) -> (text: String)
        ensures
            text@ == self.information@,
    {
        self.information.clone()
    }
}

/// An error occured while trying to parse a server response.
#[derive(Debug)]
pub enum ParseError {
    /// Indicates an error parsing the status response. Such as OK, NO, and BAD.
    Invalid(Vec<u8>),
    /// The client could not find or decode the server's authentication challenge.
    Authentication(String, Option<Foreign>),
    /// The client received data that was not UTF-8 encoded.
    DataNotUtf8(Vec<u8>, Foreign),
}

impl ParseError {
    /// What the error says.
    pub open spec fn text(&self) -> Seq<char> {
        match self {
            ParseError::Invalid(_) => "Unable to parse status response"@,
            ParseError::Authentication(_, _) => "Unable to parse authentication response"@,
            ParseError::DataNotUtf8(_, _) => "Unable to parse data as UTF-8 text"@,
        }
    }

    /// The error underneath, if one is kept as the cause.
    pub open spec fn cause_spec(&self) -> Option<Foreign> {
        match self {
            ParseError::Authentication(_, Some(e)) => Some(*e),
            _ => None,
        }
    }

    pub fn to_text(&self) -> (text: String)
        ensures
            text@ == self.text(),
    {
        String::from_str(self.description())
    }

    pub fn description(&self) -> (text: &'static str)
        ensures
            text@ == self.text(),
    {
        match self {
            ParseError::Invalid(_) => "Unable to parse status response",
            ParseError::Authentication(_, _) => "Unable to parse authentication response",
            ParseError::DataNotUtf8(_, _) => "Unable to parse data as UTF-8 text",
        }
    }

    pub fn cause(&self) -> (cause: Option<&Foreign>)
        ensures
            cause matches Some(e) ==> self.cause_spec() == Some(*e),
            cause is None ==> self.cause_spec() is None,
    {
        match self {
            ParseError::Authentication(_, Some(e)) => Some(e),
            _ => None,
        }
    }
}

/// How a character is shown when it is quoted for a developer: between
/// single quotes, with what cannot be printed written as an escape.
pub uninterp spec fn char_debug_text(c: char) -> Seq<char>;

/// The `Debug` formatting of a `char`.
#[verifier::external_body]
fn char_debug(c: char) -> (text: String)
    ensures
        text@ == char_debug_text(c),
{
    format!("{:?}", c)
}

/// An [invalid character](https://tools.ietf.org/html/rfc3501#section-4.3) was found in a command
/// argument.
#[derive(Debug)]
pub struct ValidateError {
    /// the synopsis of the invalid command
    pub command_synopsis: String,
    /// the name of the invalid argument
    pub argument: String,
    /// the invalid character contained in the argument
    pub offending_char: char,
}

/// The message about a character with the given quoted form, found in an
/// argument of a command.
pub open spec fn validate_text(
    quoted_char: Seq<char>,
    argument: Seq<char>,
    command_synopsis: Seq<char>,
) -> Seq<char> {
    "Invalid character "@ + quoted_char + " in argument '"@ + argument + "' of command '"@
        + command_synopsis + "'"@
}

impl ValidateError {
    /// What the error says. The character is shown in its quoted form,
    /// because invalid ones are often whitespace.
    pub open spec fn text(&self) -> Seq<char> {
        validate_text(
            char_debug_text(self.offending_char),
            self.argument@,
            self.command_synopsis@,
        )
    }

    pub fn to_string(&self) -> (text: String)
        ensures
            text@ == self.text(),
    {
        let quoted = char_debug(self.offending_char);
        validate_message(quoted.as_str(), self.argument.as_str(), self.command_synopsis.as_str())
    }

    pub fn description(&self) -> (text: &'static str)
        ensures
            text@ == "Invalid character in command argument"@,
    {
        "Invalid character in command argument"
    }

    pub fn cause(&self) -> (cause: Option<&Foreign>)
        ensures
            cause is None,
    {
        None
    }
}

/// Puts the message together from the character's quoted form and the two
/// names.
pub fn validate_message(quoted_char: &str, argument: &str, command_synopsis: &str) -> (text: String)
    ensures
        text@ == validate_text(quoted_char@, argument@, command_synopsis@),
{
    let mut text = String::from_str("Invalid character ");
    text.append(quoted_char);
    text.append(" in argument '");
    text.append(argument);
    text.append("' of command '");
    text.append(command_synopsis);
    text.append("'");
    text
}

/// A set of errors that can occur in the IMAP client
#[derive(Debug)]
pub enum ImapError {
    /// An error that occurred while trying to read or write to a network stream.
    Io(Foreign),
    /// An error from the TLS library during the TLS handshake.
    RustlsHandshakeErr(Foreign),
    /// A BAD response from the IMAP server.
    Bad(Bad),
    /// A NO response from the IMAP server.
    No(No),
    /// A BYE response from the IMAP server.
    Bye(Bye),
    /// The connection was terminated unexpectedly.
    ConnectionLost,
    /// Error parsing a server response.
    Parse(ParseError),
    /// Command inputs were not valid [IMAP
    /// strings](https://tools.ietf.org/html/rfc3501#section-4.3).
    Validate(ValidateError),
    /// Error appending an e-mail.
    Append,
    /// An unexpected response was received, kept here as it is shown to a
    /// developer.
    Unexpected(String),
    /// In response to a STATUS command, the server sent OK without actually sending any STATUS
    /// responses first.
    MissingStatusResponse,
    /// StartTls is not available on the server
    StartTlsNotAvailable,
    /// Returns when Tls is not configured
    TlsNotConfigured,
}

impl ImapError {
    /// What the error says.
    pub open spec fn text(&self) -> Seq<char> {
        match self {
            ImapError::Io(e) => e.message@,
            ImapError::RustlsHandshakeErr(e) => e.message@,
            ImapError::Validate(e) => e.text(),
            ImapError::Parse(e) => e.text(),
            ImapError::No(data) => "No Response: "@ + data.information@,
            ImapError::Bad(data) => "Bad Response: "@ + data.information@,
            ImapError::Bye(data) => "Bye Response: "@ + data.information@,
            ImapError::ConnectionLost => "Connection Lost"@,
            ImapError::Append => "Could not append mail to mailbox"@,
            ImapError::Unexpected(r) => "Unexpected Response: "@ + r@,
            ImapError::MissingStatusResponse => "Missing STATUS Response"@,
            ImapError::StartTlsNotAvailable => "StartTls is not available on the server"@,
            ImapError::TlsNotConfigured => "No Tls feature is available"@,
        }
    }

    /// How the error describes its kind.
    pub open spec fn description_text(&self) -> Seq<char> {
        match self {
            ImapError::Io(e) => e.description@,
            ImapError::RustlsHandshakeErr(e) => e.description@,
            ImapError::Parse(e) => e.text(),
            ImapError::Validate(_) => "Invalid character in command argument"@,
            ImapError::Bad(_) => "Bad Response"@,
            ImapError::No(_) => "No Response"@,
            ImapError::Bye(_) => "Bye Response"@,
            ImapError::ConnectionLost => "Connection lost"@,
            ImapError::Append => "Could not append mail to mailbox"@,
            ImapError::Unexpected(_) => "Unexpected Response"@,
            ImapError::MissingStatusResponse => "Missing STATUS Response"@,
            ImapError::StartTlsNotAvailable => "StartTls is not available on the server"@,
            ImapError::TlsNotConfigured => "No Tls feature is available"@,
        }
    }

    /// The error underneath, if one is kept as the cause.
    pub open spec fn cause_spec(&self) -> Option<Foreign> {
        match self {
            ImapError::Io(e) => Some(*e),
            ImapError::RustlsHandshakeErr(e) => Some(*e),
            ImapError::Parse(ParseError::DataNotUtf8(_, e)) => Some(*e),
            _ => None,
        }
    }

    pub fn to_text(&self) -> (text: String)
        ensures
            text@ == self.text(),
    {
        match self {
            ImapError::Io(e) => e.message.clone(),
            ImapError::RustlsHandshakeErr(e) => e.message.clone(),
            ImapError::Validate(e) => e.to_string(),
            ImapError::Parse(e) => e.to_text(),
            ImapError::No(data) => String::from_str("No Response: ").concat(data.to_text().as_str()),
            ImapError::Bad(data) => String::from_str("Bad Response: ").concat(data.to_text().as_str()),
            ImapError::Bye(data) => String::from_str("Bye Response: ").concat(data.to_text().as_str()),
            ImapError::ConnectionLost => String::from_str("Connection Lost"),
            ImapError::Append => String::from_str("Could not append mail to mailbox"),
            ImapError::Unexpected(r) => String::from_str("Unexpected Response: ").concat(r.as_str()),
            ImapError::MissingStatusResponse => String::from_str("Missing STATUS Response"),
            ImapError::StartTlsNotAvailable => String::from_str(
                "StartTls is not available on the server",
            ),
            ImapError::TlsNotConfigured => String::from_str("No Tls feature is available"),
        }
    }

    pub fn description(&self) -> (text: &str)
        ensures
            text@ == self.description_text(),
    {
        match self {
            ImapError::Io(e) => e.description.as_str(),
            ImapError::RustlsHandshakeErr(e) => e.description.as_str(),
            ImapError::Parse(e) => e.description(),
            ImapError::Validate(e) => e.description(),
            ImapError::Bad(_) => "Bad Response",
            ImapError::No(_) => "No Response",
            ImapError::Bye(_) => "Bye Response",
            ImapError::ConnectionLost => "Connection lost",
            ImapError::Append => "Could not append mail to mailbox",
            ImapError::Unexpected(_) => "Unexpected Response",
            ImapError::MissingStatusResponse => "Missing STATUS Response",
            ImapError::StartTlsNotAvailable => "StartTls is not available on the server",
            ImapError::TlsNotConfigured => "No Tls feature is available",
        }
    }

    pub fn cause(&self) -> (cause: Option<&Foreign>)
        ensures
            cause matches Some(e) ==> self.cause_spec() == Some(*e),
            cause is None ==> self.cause_spec() is None,
    {
        match self {
            ImapError::Io(e) => Some(e),
            ImapError::RustlsHandshakeErr(e) => Some(e),
            ImapError::Parse(ParseError::DataNotUtf8(_, e)) => Some(e),
            _ => None,
        }
    }
}

impl From<ParseError> for ImapError {
    fn from(err: ParseError) -> (error: ImapError) {
        ImapError::Parse(err)
    }
}

impl vstd::std_specs::convert::FromSpecImpl<ParseError> for ImapError {
    open spec fn obeys_from_spec() -> bool {
        true
    }

    open spec fn from_spec(err: ParseError) -> ImapError {
        ImapError::Parse(err)
    }
}

} // verus!

//! What a connection keeps track of while lines come in from the server.

use crate::traits::lesson8::error::ImapError;
use vstd::prelude::*;

verus! {

/// The tag that the first command of a connection gets.
pub const INITIAL_TAG: u32 = 0;

pub const CR: u8 = 0x0d;

pub const LF: u8 = 0x0a;

/// The state of a connection, apart from the stream itself.
#[derive(Debug)]
pub struct Connection {
    /// The tag of the next command.
    pub tag: u32,
    /// Enable debug mode for this connection so that all client-server interactions are shown.
    pub debug: bool,
    /// Tracks if we have read a greeting.
    pub greeting_read: bool,
}

impl Connection {
    /// A connection on which nothing was said yet.
    pub fn new() -> (connection: Self)
        ensures
            connection.tag == INITIAL_TAG,
            !connection.debug,
            !connection.greeting_read,
    {
        Connection { tag: INITIAL_TAG, debug: false, greeting_read: false }
    }

    /// Takes the greeting that was read from the stream: `read` bytes that
    /// now stand in `line`. Must not be called once a greeting was read. A
    /// stream that ended before any byte came means that the connection is
    /// lost, and the greeting still counts as unread.
    pub fn read_greeting(&mut self, read: usize, line: Vec<u8>) -> (greeting: Result<
        Vec<u8>,
        ImapError,
    >)
        requires
            !old(self).greeting_read,
        ensures
            final(self).tag == old(self).tag,
            final(self).debug == old(self).debug,
            read == 0 ==> (greeting matches Err(ImapError::ConnectionLost) && !final(
                self
            ).greeting_read),
            read != 0 ==> (greeting == Ok::<Vec<u8>, ImapError>(line) && final(
                self
            ).greeting_read),
    {
        match readline(read) {
            Ok(_) => {
                self.greeting_read = true;
                Ok(line)
            },
            Err(e) => Err(e),
        }
    }
}

/// What reading a line came to: the number of bytes, or the loss of the
/// connection where the stream gave none.
pub fn readline(read: usize) -> (outcome: Result<usize, ImapError>)
    ensures
        read == 0 ==> outcome matches Err(ImapError::ConnectionLost),
        read != 0 ==> outcome == Ok::<usize, ImapError>(read),
{
    if read == 0 {
        return Err(ImapError::ConnectionLost);
    }
    Ok(read)
}

/// The part of `into` that is shown of a line in debug mode: the last
/// `read` bytes, without the line's end.
pub open spec fn shown_line(into: Seq<u8>, read: int) -> Seq<u8> {
    into.subrange(into.len() - read, into.len() - 2)
}

/// The last line in `into`, which is `read` bytes long, without the two
/// bytes that end it; `None` where no line of that length, with room for its
/// end, stands in `into`.
pub fn debug_line(into: &[u8], read: usize) -> (line: Option<&[u8]>)
    ensures
        2 <= read <= into@.len() ==> (line matches Some(shown) && shown@ == shown_line(
            into@,
            read as int,
        )),
        !(2 <= read <= into@.len()) ==> line is None,
{
    let len = into.len();
    if read < 2 || read > len {
        return None;
    }
    Some(vstd::slice::slice_subrange(into, len - read, len - 2))
}

} // verus!

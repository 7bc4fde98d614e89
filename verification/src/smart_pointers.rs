//! A message that keeps its text next to a byte buffer of its own.

use vstd::prelude::*;
use vstd::string::StrSliceExecFns;
use vstd::string::StringExecFns;
use vstd::utf8::decode_utf8;
use vstd::utf8::encode_utf8;
use vstd::utf8::encode_utf8_decode_utf8;
use vstd::utf8::encode_utf8_valid_utf8;
use vstd::utf8::valid_utf8;

verus! {

/// What a message holds: its text, and the bytes stored beside it.
pub struct MessageView {
    pub content: Seq<char>,
    pub bytes: Seq<u8>,
}

/// The text that a byte buffer stands for, where it stands for one.
pub open spec fn text_of_bytes(bytes: Seq<u8>) -> Option<Seq<char>> {
    if valid_utf8(bytes) {
        Some(decode_utf8(bytes))
    } else {
        None
    }
}

/// `String::from_utf8`, with the error dropped: the bytes are turned into
/// a string exactly where they are well-formed UTF-8, and the string is then
/// the text that they encode.
#[verifier::external_body]
fn string_from_utf8(bytes: Vec<u8>) -> (text: Option<String>)
    ensures
        text is Some <==> valid_utf8(bytes@),
        text matches Some(s) ==> s@ == decode_utf8(bytes@),
{
    String::from_utf8(bytes).ok()
}

/// A text together with a byte buffer that can be set apart from it.
pub struct Message {
    content: String,
    bytes: Vec<u8>,
}

impl View for Message {
    type V = MessageView;

    closed spec fn view(&self) -> MessageView {
        MessageView { content: self.content@, bytes: self.bytes@ }
    }
}

impl Message {
    /// Stores the UTF-8 encoding of `content` as the bytes; the text of the
    /// message stays as it was.
    pub fn update(self, content: &str) -> (message: Self)
        ensures
            message@ == (MessageView { content: self@.content, bytes: encode_utf8(content@) }),
    {
        Message { content: self.content, bytes: content.as_bytes_vec() }
    }

    /// The text that the stored bytes encode, or `None` where they are not
    /// well-formed UTF-8.
    pub fn content_from_bytes(&self) -> (text: Option<String>)
        ensures
            text is Some <==> valid_utf8(self@.bytes),
            text matches Some(s) ==> Some(s@) == text_of_bytes(self@.bytes),
    {
        string_from_utf8(self.bytes.clone())
    }

    /// The text of the message.
    pub fn content(&self) -> (content: &String)
        ensures
            content@ == self@.content,
    {
        &self.content
    }

    /// The stored bytes.
    pub fn bytes(&self) -> (bytes: &Vec<u8>)
        ensures
            bytes@ == self@.bytes,
    {
        &self.bytes
    }
}

/// Collects the text of a message before the message is made.
pub struct MessageBuilder {
    content: String,
}

impl View for MessageBuilder {
    type V = Seq<char>;

    closed spec fn view(&self) -> Seq<char> {
        self.content@
    }
}

impl MessageBuilder {
    /// A builder with no text.
    pub fn new() -> (builder: Self)
        ensures
            builder@ == Seq::<char>::empty(),
    {
        MessageBuilder { content: String::new() }
    }

    /// Replaces the text collected so far by `content`.
    pub fn content(self, content: &str) -> (builder: Self)
        ensures
            builder@ == content@,
    {
        MessageBuilder { content: String::from_str(content) }
    }

    /// A message with the collected text, and a single zero byte stored
    /// beside it.
    pub fn build(&self) -> (message: Message)
        ensures
            message@ == (MessageView { content: self@, bytes: seq![0u8] }),
    {
        let mut bytes: Vec<u8> = Vec::new();
        bytes.push(0);
        assert(bytes@ =~= seq![0u8]);
        Message { content: self.content.clone(), bytes }
    }
}

/// The bytes that `update` stores always give the updating text back.
pub proof fn lemma_updated_bytes_give_text_back(content: Seq<char>)
    ensures
        text_of_bytes(encode_utf8(content)) == Some(content),
{
    encode_utf8_valid_utf8(content);
    encode_utf8_decode_utf8(content);
}

} // verus!

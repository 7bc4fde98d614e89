//! A document that moves through review as a chain of distinct types.
//!
//! Each state of the document is a type of its own, and every transition
//! consumes the handle it starts from, so an operation that does not belong
//! to the current state cannot be written down at all. What the handles hold
//! is described by one mathematical model, [`Document`], and the laws of the
//! workflow are proved of that model.

use vstd::prelude::*;
use vstd::string::StringExecFns;

verus! {

/// Where a document stands in the review.
pub enum Stage {
    Draft,
    PendingReview,
    ChangesRequested,
    Approved,
}

/// The model of a document: its stage, its content, and the changes a
/// editor asked for, if any are open.
pub struct Document {
    pub stage: Stage,
    pub content: Seq<char>,
    pub pending_changes: Option<Seq<char>>,
}

/// The opening words of a feedback message.
pub open spec fn feedback_head() -> Seq<char> {
    "Make changes to '"@
}

/// The words between the content and the changes in a feedback message.
pub open spec fn feedback_joint() -> Seq<char> {
    "' as "@
}

impl Document {
    /// An empty draft.
    pub open spec fn new() -> Document {
        Document { stage: Stage::Draft, content: Seq::empty(), pending_changes: None }
    }

    /// The document with `text` appended to its content.
    pub open spec fn add_text(self, text: Seq<char>) -> Document {
        Document { content: self.content + text, ..self }
    }

    /// The document handed in for review.
    pub open spec fn request_review(self) -> Document {
        Document { stage: Stage::PendingReview, content: self.content, pending_changes: None }
    }

    /// What an editor reads.
    pub open spec fn review(self) -> Seq<char> {
        self.content
    }

    /// The document approved.
    pub open spec fn approve(self) -> Document {
        Document { stage: Stage::Approved, content: self.content, pending_changes: None }
    }

    /// The document sent back with `changes`.
    pub open spec fn reject(self, changes: Seq<char>) -> Document {
        Document {
            stage: Stage::ChangesRequested,
            content: self.content,
            pending_changes: Some(changes),
        }
    }

    /// The changes that are open, or no text where none are.
    pub open spec fn changes(self) -> Seq<char> {
        match self.pending_changes {
            Some(changes) => changes,
            None => Seq::empty(),
        }
    }

    /// The message for the author.
    pub open spec fn get_feedback(self) -> Seq<char> {
        feedback_head() + self.content + feedback_joint() + self.changes()
    }

    /// The document with its content replaced by `text`, back in review.
    pub open spec fn replace_text(self, text: Seq<char>) -> Document {
        Document { stage: Stage::PendingReview, content: text, pending_changes: None }
    }
}

/// An approved document. Its content is frozen.
pub struct Post {
    content: String,
}

/// A document that is still being written.
pub struct DraftPost {
    content: String,
}

/// A document that waits for an editor's decision.
pub struct PendingReviewPost {
    content: String,
}

/// A document that an editor sent back, together with the changes asked for.
pub struct RequestChangesPost {
    content: String,
    changes: String,
}

impl View for Post {
    type V = Document;

    closed spec fn view(&self) -> Document {
        Document { stage: Stage::Approved, content: self.content@, pending_changes: None }
    }
}

impl View for DraftPost {
    type V = Document;

    closed spec fn view(&self) -> Document {
        Document { stage: Stage::Draft, content: self.content@, pending_changes: None }
    }
}

impl View for PendingReviewPost {
    type V = Document;

    closed spec fn view(&self) -> Document {
        Document { stage: Stage::PendingReview, content: self.content@, pending_changes: None }
    }
}

impl View for RequestChangesPost {
    type V = Document;

    closed spec fn view(&self) -> Document {
        Document {
            stage: Stage::ChangesRequested,
            content: self.content@,
            pending_changes: Some(self.changes@),
        }
    }
}

impl Post {
    /// Starts an empty draft.
    pub fn new() -> (draft: DraftPost)
        ensures
            draft@ == Document::new(),
    {
        DraftPost { content: String::new() }
    }

    /// The approved content.
    pub fn content(&self) -> (text: &str)
        ensures
            text@ == self@.content,
    {
        self.content.as_str()
    }

    /// An approved document is in the last stage and has no changes open.
    pub proof fn lemma_stage(&self)
        ensures
            self@.stage == Stage::Approved,
            self@.pending_changes is None,
    {
    }
}

impl DraftPost {
    /// Appends `text` to the draft.
    pub fn add_text(&mut self, text: &str)
        ensures
            final(self)@ == old(self)@.add_text(text@),
    {
        self.content.append(text);
    }

    /// Hands the draft in for review, content unchanged.
    pub fn request_review(self) -> (post: PendingReviewPost)
        ensures
            post@ == self@.request_review(),
    {
        PendingReviewPost { content: self.content }
    }

    /// A draft is in the first stage and has no changes open.
    pub proof fn lemma_stage(&self)
        ensures
            self@.stage == Stage::Draft,
            self@.pending_changes is None,
    {
    }
}

impl PendingReviewPost {
    /// The content under review.
    pub fn review(&self) -> (text: &String)
        ensures
            text@ == self@.review(),
    {
        &self.content
    }

    /// Approves the document as it stands.
    pub fn approve(self) -> (post: Post)
        ensures
            post@ == self@.approve(),
    {
        Post { content: self.content }
    }

    /// Sends the document back with the changes asked for.
    pub fn reject(self, changes: &str) -> (post: RequestChangesPost)
        ensures
            post@ == self@.reject(changes@),
    {
        RequestChangesPost { content: self.content, changes: String::from_str(changes) }
    }

    /// A document under review has no changes open.
    pub proof fn lemma_stage(&self)
        ensures
            self@.stage == Stage::PendingReview,
            self@.pending_changes is None,
    {
    }
}

impl RequestChangesPost {
    /// The message for the author: the content and the requested changes,
    /// both verbatim, in a fixed frame.
    pub fn get_feedback(&self) -> (message: String)
        ensures
            message@ == self@.get_feedback(),
    {
        let mut message = String::from_str("Make changes to '");
        message.append(self.content.as_str());
        message.append("' as ");
        message.append(self.changes.as_str());
        message
    }

    /// Discards the old content and the open changes, and hands `text` in
    /// for review.
    pub fn replace_text(self, text: &str) -> (post: PendingReviewPost)
        ensures
            post@ == self@.replace_text(text@),
    {
        PendingReviewPost { content: String::from_str(text) }
    }

    /// A document that was sent back always carries the changes asked for.
    pub proof fn lemma_stage(&self)
        ensures
            self@.stage == Stage::ChangesRequested,
            self@.pending_changes is Some,
    {
    }
}

/// The first text added to a new draft is exactly what the editor reads.
pub proof fn lemma_first_text_is_reviewed(text: Seq<char>)
    ensures
        Document::new().add_text(text).request_review().review() == text,
{
    assert(Seq::<char>::empty() + text =~= text);
}

/// Feedback on a rejected document holds the content, and after it the
/// requested changes, both verbatim: the content right behind the opening
/// words, the changes from behind the joint to the end.
pub proof fn lemma_feedback_holds_content_and_changes(document: Document, changes: Seq<char>)
    ensures
        ({
            let feedback = document.reject(changes).get_feedback();
            let content_at = feedback_head().len() as int;
            let changes_at = content_at + document.content.len() + feedback_joint().len();
            &&& feedback.len() == changes_at + changes.len()
            &&& feedback.subrange(content_at, content_at + document.content.len())
                == document.content
            &&& feedback.subrange(changes_at, feedback.len() as int) == changes
        }),
{
    let feedback = document.reject(changes).get_feedback();
    let content_at = feedback_head().len() as int;
    let changes_at = content_at + document.content.len() + feedback_joint().len();
    assert(feedback.subrange(content_at, content_at + document.content.len())
        =~= document.content);
    assert(feedback.subrange(changes_at, feedback.len() as int) =~= changes);
}

/// Approval freezes the content as it stood in review, whatever was
/// rejected and replaced before: of a cycle through rejection only the
/// replacement text arrives, and nothing of the discarded content or of the
/// changes that were asked for.
pub proof fn lemma_approved_content_is_last_reviewed(
    document: Document,
    changes: Seq<char>,
    text: Seq<char>,
)
    ensures
        document.approve().content == document.review(),
        document.reject(changes).replace_text(text).approve().content == text,
        document.reject(changes).replace_text(text).approve() == Document::new().add_text(
            text,
        ).request_review().approve(),
{
    assert(Seq::<char>::empty() + text =~= text);
}

/// Replacing the text overwrites the content: the editor reads the new
/// text alone, and no changes stay open.
pub proof fn lemma_replacement_overwrites(document: Document, text: Seq<char>)
    ensures
        document.replace_text(text).review() == text,
        document.replace_text(text).pending_changes is None,
        document.replace_text(text).stage == Stage::PendingReview,
{
}

} // verus!

//! The typed form of what arrives over the stream.

use vstd::prelude::*;

verus! {

/// One attachment of a post: where its file can be fetched.
#[derive(Clone, Debug, PartialEq, Eq)]
pub struct Attachment {
    pub url: String,
}

/// The payload of an inbound event, read as a post.
///
/// `kind` is the payload's type tag; only the tag `"note"` marks a post that
/// can qualify. `files` keeps the attachments in the order of the event.
#[derive(Clone, Debug, PartialEq, Eq)]
pub struct CandidatePost {
    pub kind: String,
    pub author: String,
    pub id: String,
    pub files: Vec<Attachment>,
}

/// A message of the stream, tagged with the channel subscription it answers.
///
/// `post` is `None` where the payload does not have the shape of a post.
#[derive(Clone, Debug, PartialEq, Eq)]
pub struct InboundEvent {
    pub channel: String,
    pub post: Option<CandidatePost>,
}

/// A post as plain text values; `files` holds the attachment URLs.
pub struct PostView {
    pub kind: Seq<char>,
    pub author: Seq<char>,
    pub id: Seq<char>,
    pub files: Seq<Seq<char>>,
}

/// An inbound event as plain text values.
pub struct InboundEventView {
    pub channel: Seq<char>,
    pub post: Option<PostView>,
}

impl View for Attachment {
    type V = Seq<char>;

    open spec fn view(&self) -> Seq<char> {
        self.url@
    }
}

/// The URLs of a list of attachments, in order.
pub open spec fn urls_of(files: Seq<Attachment>) -> Seq<Seq<char>> {
    Seq::new(files.len(), |i: int| files[i]@)
}

impl View for CandidatePost {
    type V = PostView;

    open spec fn view(&self) -> PostView {
        PostView {
            kind: self.kind@,
            author: self.author@,
            id: self.id@,
            files: urls_of(self.files@),
        }
    }
}

/// The view of a post that may be absent.
pub open spec fn post_view(post: Option<CandidatePost>) -> Option<PostView> {
    match post {
        Some(p) => Some(p@),
        None => None,
    }
}

impl View for InboundEvent {
    type V = InboundEventView;

    open spec fn view(&self) -> InboundEventView {
        InboundEventView { channel: self.channel@, post: post_view(self.post) }
    }
}

} // verus!

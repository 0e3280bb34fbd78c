//! The message filter: which posts are forwarded.

use vstd::prelude::*;
use crate::event::{CandidatePost, InboundEvent, InboundEventView, PostView};
use crate::secrets::Secrets;
use crate::text::same_text;

verus! {

/// A post qualifies for `target` when it is tagged `"note"`, has at least one
/// attachment, and was written by `target`.
pub open spec fn qualifies(post: PostView, target: Seq<char>) -> bool {
    &&& post.kind == "note"@
    &&& post.files.len() > 0
    &&& post.author == target
}

/// An event is a target note when its payload is a post that qualifies.
pub open spec fn is_target(event: InboundEventView, target: Seq<char>) -> bool {
    match event.post {
        Some(post) => qualifies(post, target),
        None => false,
    }
}

impl CandidatePost {
    /// Decides whether this post is forwarded for the author `target`.
    ///
    /// The checks run in a fixed order and stop at the first that fails: the
    /// type tag, then the attachments, then the author.
    pub fn qualifies(&self, target: &str) -> (r: bool)
        ensures
            r == qualifies(self@, target@),
    {
        if !same_text(self.kind.as_str(), "note") {
            return false;
        }
        if self.files.len() == 0 {
            return false;
        }
        same_text(self.author.as_str(), target)
    }
}

/// Decides whether an event of the relay's own channel is a post to forward:
/// one tagged `"note"`, with at least one attachment, by the configured
/// target author. An event whose payload is not a post is none.
pub fn is_target_note(event: &InboundEvent, secrets: &Secrets) -> (r: bool)
    ensures
        r == is_target(event@, secrets@.target_user_id),
{
    match &event.post {
        Some(post) => post.qualifies(secrets.target_user_id.as_str()),
        None => false,
    }
}

/// A post without attachments never qualifies, whoever wrote it and whatever
/// its type tag.
pub proof fn lemma_no_attachments_never_qualifies(post: PostView, target: Seq<char>)
    requires
        post.files.len() == 0,
    ensures
        !qualifies(post, target),
{
}

/// A post whose type tag is not `"note"` never qualifies, whatever its
/// attachments and whoever wrote it.
pub proof fn lemma_other_kind_never_qualifies(post: PostView, target: Seq<char>)
    requires
        post.kind != "note"@,
    ensures
        !qualifies(post, target),
{
}

} // verus!

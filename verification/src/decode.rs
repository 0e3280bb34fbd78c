//! From the text of a stream message to a typed event.
//!
//! A message of the stream is a JSON object of the shape
//! `{"type":"channel","body":{"id":C,"type":K,"body":{"id":N,"userId":A,"files":[{"url":U},..]}}}`.
//! `C` names the channel subscription that the message answers. `K`, `N`, `A`
//! and the `U`s make up the post.

use vstd::prelude::*;
use serde_json::Value;
use crate::event::{urls_of, Attachment, CandidatePost, InboundEvent, InboundEventView, PostView};
use crate::json::{json_parsed, json_tree, json_trees, parse_value, value_get, Json};

verus! {

/// Why a message of the stream cannot be read as an event.
#[derive(Clone, Copy, Debug, PartialEq, Eq)]
pub enum DecodeError {
    /// The text is not a JSON document.
    NotJson,
    /// The document does not say which channel subscription it answers.
    NoChannel,
}

/// The text of the member `key` of `tree`, where `tree` is an object whose
/// member of that name is a string.
pub open spec fn member_text(tree: Json, key: Seq<char>) -> Option<Seq<char>> {
    match tree.member(key) {
        Some(member) => member.text(),
        None => None,
    }
}

/// The URLs of the attachment descriptors `items`, in order, where each of
/// them is an object with a string member `url`.
pub open spec fn file_urls(items: Seq<Json>) -> Option<Seq<Seq<char>>> {
    if forall|i: int| 0 <= i < items.len() ==> (#[trigger] member_text(items[i], "url"@)) is Some {
        Some(Seq::new(items.len(), |i: int| member_text(items[i], "url"@)->0))
    } else {
        None
    }
}

/// The attachment URLs of `note`, where its member `files` is an array of
/// attachment descriptors.
pub open spec fn note_files(note: Json) -> Option<Seq<Seq<char>>> {
    match note.member("files"@) {
        Some(files) => match files.items() {
            Some(items) => file_urls(items),
            None => None,
        },
        None => None,
    }
}

/// The post inside the channel message `body`: its type tag, and from its
/// member `body` the identifier, the author and the attachments. `None`
/// where one of them is missing or of another JSON type.
pub open spec fn decoded_post(body: Json) -> Option<PostView> {
    match (member_text(body, "type"@), body.member("body"@)) {
        (Some(kind), Some(note)) => match (
            member_text(note, "id"@),
            member_text(note, "userId"@),
            note_files(note),
        ) {
            (Some(id), Some(author), Some(files)) => Some(PostView { kind, author, id, files }),
            _ => None,
        },
        _ => None,
    }
}

/// The event that the document `message` stands for. `None` where it has no
/// member `body` with a string member `id`.
pub open spec fn decoded_event(message: Json) -> Option<InboundEventView> {
    match message.member("body"@) {
        Some(body) => match member_text(body, "id"@) {
            Some(channel) => Some(InboundEventView { channel, post: decoded_post(body) }),
            None => None,
        },
        None => None,
    }
}

/// The event that a parsed text, if it was parsed, stands for.
pub open spec fn event_of_parsed(parsed: Option<Json>) -> Result<InboundEventView, DecodeError> {
    match parsed {
        Some(message) => match decoded_event(message) {
            Some(event) => Ok(event),
            None => Err(DecodeError::NoChannel),
        },
        None => Err(DecodeError::NotJson),
    }
}

/// The event that the text of a stream message stands for.
pub open spec fn parsed_event(text: Seq<char>) -> Result<InboundEventView, DecodeError> {
    event_of_parsed(json_parsed(text))
}

/// Reads the string member `key` of `value`.
fn text_member(value: &Value, key: &str) -> (r: Option<String>)
    ensures
        match r {
            Some(text) => member_text(json_tree(*value), key@) == Some(text@),
            None => member_text(json_tree(*value), key@) is None,
        },
{
    match value_get(value, key) {
        Some(member) => match member.as_str() {
            Some(text) => Some(String::from_str(text)),
            None => None,
        },
        None => None,
    }
}

/// Reads a list of attachment descriptors.
///
/// Returns the attachments in the order of `items` if every descriptor is an
/// object with a string member `url`, and `None` otherwise.
pub fn decode_files(items: &Vec<Value>) -> (r: Option<Vec<Attachment>>)
    ensures
        match r {
            Some(files) => file_urls(json_trees(items@)) == Some(urls_of(files@)),
            None => file_urls(json_trees(items@)) is None,
        },
{
    let ghost trees = json_trees(items@);
    let mut files: Vec<Attachment> = Vec::new();
    let mut i: usize = 0;
    while i < items.len()
        invariant
            i <= items.len(),
            files.len() == i,
            trees == json_trees(items@),
            forall|k: int| 0 <= k < i ==> (#[trigger] member_text(trees[k], "url"@)) == Some(files[k]@),
        decreases items.len() - i,
    {
        assert(trees[i as int] == json_tree(items[i as int]));
        match text_member(&items[i], "url") {
            Some(url) => {
                files.push(Attachment { url });
            },
            None => {
                return None;
            },
        }
        i += 1;
    }
    assert(file_urls(trees)->0 =~= urls_of(files@));
    Some(files)
}

/// Reads the post inside a channel message body.
///
/// Returns the post if the body has a string member `type` and an object
/// member `body` with string members `id` and `userId` and an array member
/// `files` of attachment descriptors; `None` otherwise.
pub fn decode_post(body: &Value) -> (r: Option<CandidatePost>)
    ensures
        match r {
            Some(post) => decoded_post(json_tree(*body)) == Some(post@),
            None => decoded_post(json_tree(*body)) is None,
        },
{
    let kind = match text_member(body, "type") {
        Some(kind) => kind,
        None => {
            return None;
        },
    };
    let note = match value_get(body, "body") {
        Some(note) => note,
        None => {
            return None;
        },
    };
    let id = match text_member(note, "id") {
        Some(id) => id,
        None => {
            return None;
        },
    };
    let author = match text_member(note, "userId") {
        Some(author) => author,
        None => {
            return None;
        },
    };
    let items = match value_get(note, "files") {
        Some(listed) => match listed.as_array() {
            Some(items) => items,
            None => {
                return None;
            },
        },
        None => {
            return None;
        },
    };
    match decode_files(items) {
        Some(files) => Some(CandidatePost { kind, author, id, files }),
        None => None,
    }
}

/// Reads a parsed stream message as an event.
///
/// Returns the event if the message has a member `body` with a string member
/// `id`, which becomes the event's channel; `None` otherwise. The event's
/// post is what `decode_post` reads from that `body`.
pub fn decode_event(message: &Value) -> (r: Option<InboundEvent>)
    ensures
        match r {
            Some(event) => decoded_event(json_tree(*message)) == Some(event@),
            None => decoded_event(json_tree(*message)) is None,
        },
{
    match value_get(message, "body") {
        Some(body) => match text_member(body, "id") {
            Some(channel) => Some(InboundEvent { channel, post: decode_post(body) }),
            None => None,
        },
        None => None,
    }
}

/// Reads the text of a stream message as an event.
///
/// Fails with `NotJson` where the text is not a JSON document, and with
/// `NoChannel` where the document names no channel subscription.
pub fn parse_event(text: &str) -> (r: Result<InboundEvent, DecodeError>)
    ensures
        match r {
            Ok(event) => parsed_event(text@) == Ok::<InboundEventView, DecodeError>(event@),
            Err(e) => parsed_event(text@) == Err::<InboundEventView, DecodeError>(e),
        },
{
    match parse_value(text) {
        Ok(message) => match decode_event(&message) {
            Some(event) => Ok(event),
            None => Err(DecodeError::NoChannel),
        },
        Err(_) => Err(DecodeError::NotJson),
    }
}

} // verus!

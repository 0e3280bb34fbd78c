//! The note formatter: from a post to the text that is delivered.

use vstd::prelude::*;
use crate::event::{CandidatePost, PostView};
use crate::text::{
    decimal, decimal_string, join_lines, join_texts, lemma_decimal_newline_free,
    lemma_join_lines_first, lemma_lines_of_join, lines_of, newline_free, texts_of,
};

verus! {

/// The link to the page that shows the post `id`.
pub open spec fn permalink_text(id: Seq<char>) -> Seq<char> {
    "[note](https://misskey.io/notes/"@ + id + ")"@
}

/// The link line of the attachment with the one-based `number`.
pub open spec fn attachment_line_text(number: nat, url: Seq<char>) -> Seq<char> {
    "["@ + decimal(number) + "枚目]("@ + url + ")"@
}

/// One link line per attachment, numbered from one, in the given order.
pub open spec fn attachment_lines(urls: Seq<Seq<char>>) -> Seq<Seq<char>> {
    Seq::new(urls.len(), |i: int| attachment_line_text((i + 1) as nat, urls[i]))
}

/// The delivery payload of a post: the permalink, a newline, and the
/// attachment lines joined by newlines.
pub open spec fn note_info(post: PostView) -> Seq<char> {
    permalink_text(post.id) + seq!['\n'] + join_lines(attachment_lines(post.files))
}

/// The lines that make up the payload of a post with attachments: the
/// permalink first, then the attachment lines.
pub open spec fn note_lines(post: PostView) -> Seq<Seq<char>> {
    seq![permalink_text(post.id)] + attachment_lines(post.files)
}

/// Writes the permalink of the post `id`.
pub fn permalink(id: &str) -> (link: String)
    ensures
        link@ == permalink_text(id@),
{
    let mut link = String::from_str("[note](https://misskey.io/notes/");
    link.append(id);
    link.append(")");
    link
}

/// Writes the link line of the attachment with the one-based `number`.
pub fn attachment_line(number: usize, url: &str) -> (line: String)
    ensures
        line@ == attachment_line_text(number as nat, url@),
{
    let numeral = decimal_string(number);
    let mut line = String::from_str("[");
    line.append(numeral.as_str());
    line.append("枚目](");
    line.append(url);
    line.append(")");
    line
}

/// Formats a post for delivery.
///
/// The payload starts with the permalink of the post. A newline follows, and
/// then one link line per attachment, numbered from one in the order of the
/// post, with a newline between two lines and none after the last.
pub fn generate_note_info(post: &CandidatePost) -> (payload: String)
    ensures
        payload@ == note_info(post@),
{
    let mut lines: Vec<String> = Vec::new();
    let mut i: usize = 0;
    while i < post.files.len()
        invariant
            i <= post.files.len(),
            texts_of(lines@) == attachment_lines(post@.files).take(i as int),
        decreases post.files.len() - i,
    {
        let line = attachment_line(i + 1, post.files[i].url.as_str());
        proof {
            let all = attachment_lines(post@.files);
            let grown = texts_of(lines@.push(line));
            assert(texts_of(lines@).len() == i);
            assert(post@.files[i as int] == post.files[i as int].url@);
            assert forall|k: int| 0 <= k < i + 1 implies grown[k] == all.take(i + 1)[k] by {
                if k < i {
                    assert(texts_of(lines@)[k] == all.take(i as int)[k]);
                }
            }
            assert(grown =~= all.take(i + 1));
        }
        lines.push(line);
        i += 1;
    }
    assert(attachment_lines(post@.files).take(i as int) =~= attachment_lines(post@.files));
    let files = join_texts(&lines);
    let mut payload = permalink(post.id.as_str());
    proof {
        reveal_strlit("\n");
        assert("\n"@ =~= seq!['\n']);
    }
    payload.append("\n");
    payload.append(files.as_str());
    payload
}

/// The payload of a post with `N >= 1` attachments is `N + 1` lines joined
/// by newlines: the permalink, then for each attachment, in the order of the
/// post, its link line, numbered from 1 to `N`.
pub proof fn lemma_note_info_layout(post: PostView)
    requires
        post.files.len() >= 1,
    ensures
        note_info(post) == join_lines(note_lines(post)),
        note_lines(post).len() == post.files.len() + 1,
        note_lines(post)[0] == permalink_text(post.id),
        forall|i: int|
            0 <= i < post.files.len() ==> #[trigger] note_lines(post)[i + 1]
                == attachment_line_text((i + 1) as nat, post.files[i]),
{
    lemma_join_lines_first(permalink_text(post.id), attachment_lines(post.files));
}

/// Where neither the identifier nor any attachment URL of a post holds a
/// newline, the payload of a post with `N >= 1` attachments reads back as
/// exactly `N + 1` lines: one permalink line followed by the `N` attachment
/// lines, labelled 1 to `N` in the order of the post.
pub proof fn lemma_note_info_reads_back(post: PostView)
    requires
        post.files.len() >= 1,
        newline_free(post.id),
        forall|i: int| 0 <= i < post.files.len() ==> newline_free(#[trigger] post.files[i]),
    ensures
        lines_of(note_info(post)) == note_lines(post),
        lines_of(note_info(post)).len() == post.files.len() + 1,
{
    lemma_note_info_layout(post);
    let lines = note_lines(post);
    reveal_strlit("[note](https://misskey.io/notes/");
    reveal_strlit(")");
    reveal_strlit("[");
    reveal_strlit("枚目](");
    assert forall|k: int| 0 <= k < lines.len() implies newline_free(#[trigger] lines[k]) by {
        if k > 0 {
            let i = k - 1;
            assert(lines[i + 1] == attachment_line_text((i + 1) as nat, post.files[i]));
            assert(newline_free(post.files[i]));
            lemma_decimal_newline_free((i + 1) as nat);
        }
    }
    lemma_lines_of_join(lines);
}

/// Formatting is a function of the post: two payloads written for the same
/// post are the same text, and so the same bytes.
pub proof fn lemma_note_info_deterministic(post: PostView, first: String, second: String)
    requires
        first@ == note_info(post),
        second@ == note_info(post),
    ensures
        first@ == second@,
        vstd::utf8::encode_utf8(first@) == vstd::utf8::encode_utf8(second@),
{
}

} // verus!

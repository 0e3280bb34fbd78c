//! Text building blocks: decimal numerals and newline-joined lines.

use vstd::prelude::*;
use vstd::string::StringSliceAdditionalSpecFns;
use vstd::utf8::encode_utf8_decode_utf8;

verus! {

/// The character that writes the digit `d`; `'9'` for anything above eight.
pub open spec fn digit_char(d: nat) -> char {
    if d == 0 {
        '0'
    } else if d == 1 {
        '1'
    } else if d == 2 {
        '2'
    } else if d == 3 {
        '3'
    } else if d == 4 {
        '4'
    } else if d == 5 {
        '5'
    } else if d == 6 {
        '6'
    } else if d == 7 {
        '7'
    } else if d == 8 {
        '8'
    } else {
        '9'
    }
}

/// The decimal numeral of `n`: most significant digit first, no leading
/// zeros, `"0"` for zero.
pub open spec fn decimal(n: nat) -> Seq<char>
    decreases n,
{
    if n < 10 {
        seq![digit_char(n)]
    } else {
        decimal(n / 10) + seq![digit_char(n % 10)]
    }
}

/// The one-character text of a single digit.
fn digit_str(d: usize) -> (s: &'static str)
    requires
        d < 10,
    ensures
        s@ == seq![digit_char(d as nat)],
{
    proof {
        reveal_strlit("0");
        reveal_strlit("1");
        reveal_strlit("2");
        reveal_strlit("3");
        reveal_strlit("4");
        reveal_strlit("5");
        reveal_strlit("6");
        reveal_strlit("7");
        reveal_strlit("8");
        reveal_strlit("9");
    }
    let s: &'static str = if d == 0 {
        "0"
    } else if d == 1 {
        "1"
    } else if d == 2 {
        "2"
    } else if d == 3 {
        "3"
    } else if d == 4 {
        "4"
    } else if d == 5 {
        "5"
    } else if d == 6 {
        "6"
    } else if d == 7 {
        "7"
    } else if d == 8 {
        "8"
    } else {
        "9"
    };
    assert(s@ =~= seq![digit_char(d as nat)]);
    s
}

/// Writes `n` in decimal.
pub fn decimal_string(n: usize) -> (s: String)
    ensures
        s@ == decimal(n as nat),
    decreases n,
{
    if n < 10 {
        String::from_str(digit_str(n))
    } else {
        let mut s = decimal_string(n / 10);
        s.append(digit_str(n % 10));
        s
    }
}

/// Compares two texts character by character.
pub fn same_text(a: &str, b: &str) -> (same: bool)
    ensures
        same == (a@ == b@),
{
    let x = a.as_bytes();
    let y = b.as_bytes();
    proof {
        // The bytes of a text determine its characters.
        encode_utf8_decode_utf8(a@);
        encode_utf8_decode_utf8(b@);
    }
    if x.len() != y.len() {
        return false;
    }
    let mut i: usize = 0;
    while i < x.len()
        invariant
            x@ == a.spec_bytes(),
            y@ == b.spec_bytes(),
            x.len() == y.len(),
            i <= x.len(),
            forall|k: int| 0 <= k < i ==> x[k] == y[k],
        decreases x.len() - i,
    {
        if x[i] != y[i] {
            return false;
        }
        i += 1;
    }
    assert(x@ =~= y@);
    true
}

/// Whether `text` holds no newline.
pub open spec fn newline_free(text: Seq<char>) -> bool {
    forall|i: int| 0 <= i < text.len() ==> text[i] != '\n'
}

/// The lines of a text: what stands before its first newline, between each
/// two newlines that follow one another, and after its last. A text with `n`
/// newlines has `n + 1` lines, some of which may be empty.
pub open spec fn lines_of(text: Seq<char>) -> Seq<Seq<char>>
    decreases text.len(),
{
    if text.len() == 0 {
        seq![Seq::empty()]
    } else {
        let before = lines_of(text.drop_last());
        if text.last() == '\n' {
            before.push(Seq::empty())
        } else {
            before.drop_last().push(before.last().push(text.last()))
        }
    }
}

/// A decimal numeral holds no newline.
pub proof fn lemma_decimal_newline_free(n: nat)
    ensures
        newline_free(decimal(n)),
    decreases n,
{
    if n >= 10 {
        lemma_decimal_newline_free(n / 10);
    }
}

/// Every text has at least one line.
pub proof fn lemma_lines_of_nonempty(text: Seq<char>)
    ensures
        lines_of(text).len() >= 1,
    decreases text.len(),
{
    if text.len() > 0 {
        lemma_lines_of_nonempty(text.drop_last());
    }
}

/// Writing a newline-free `tail` after `text` lengthens the last line of
/// `text` by `tail` and leaves the lines before it as they are.
pub proof fn lemma_lines_of_extended(text: Seq<char>, tail: Seq<char>)
    requires
        newline_free(tail),
    ensures
        lines_of(text).len() >= 1,
        lines_of(text + tail) == lines_of(text).drop_last().push(lines_of(text).last() + tail),
    decreases tail.len(),
{
    lemma_lines_of_nonempty(text);
    let lines = lines_of(text);
    if tail.len() == 0 {
        assert(text + tail =~= text);
        assert(lines.last() + tail =~= lines.last());
        assert(lines.drop_last().push(lines.last()) =~= lines);
    } else {
        let shorter = tail.drop_last();
        assert(newline_free(shorter));
        lemma_lines_of_extended(text, shorter);
        assert((text + tail).drop_last() =~= text + shorter);
        assert((text + tail).last() == tail.last());
        let before = lines_of(text + shorter);
        assert(before.drop_last() =~= lines.drop_last());
        assert(before.last().push(tail.last()) =~= lines.last() + tail);
    }
}

/// Joining newline-free lines and taking the lines of the outcome gives the
/// lines back: as many, the same, in the same order.
pub proof fn lemma_lines_of_join(lines: Seq<Seq<char>>)
    requires
        lines.len() >= 1,
        forall|i: int| 0 <= i < lines.len() ==> newline_free(#[trigger] lines[i]),
    ensures
        lines_of(join_lines(lines)) == lines,
    decreases lines.len(),
{
    let none = Seq::<char>::empty();
    if lines.len() == 1 {
        lemma_lines_of_extended(none, lines[0]);
        assert(none + lines[0] =~= lines[0]);
        assert(lines_of(none) =~= seq![none]);
        assert(seq![none].drop_last().push(none + lines[0]) =~= lines);
    } else {
        let front = lines.drop_last();
        assert forall|i: int| 0 <= i < front.len() implies newline_free(#[trigger] front[i]) by {
            assert(front[i] == lines[i]);
        }
        lemma_lines_of_join(front);
        let broken = join_lines(front) + seq!['\n'];
        assert(broken.drop_last() =~= join_lines(front));
        assert(lines_of(broken) == front.push(none));
        lemma_lines_of_extended(broken, lines.last());
        assert(front.push(none).drop_last().push(none + lines.last()) =~= lines);
    }
}

/// Joining a first line with at least one more puts the first line, a
/// newline, and the joined rest one after another.
pub proof fn lemma_join_lines_first(first: Seq<char>, rest: Seq<Seq<char>>)
    requires
        rest.len() >= 1,
    ensures
        join_lines(seq![first] + rest) == first + seq!['\n'] + join_lines(rest),
    decreases rest.len(),
{
    let all = seq![first] + rest;
    assert(all.last() == rest.last());
    if rest.len() == 1 {
        assert(all.drop_last() =~= seq![first]);
        assert(join_lines(seq![first]) == first);
    } else {
        assert(all.drop_last() =~= seq![first] + rest.drop_last());
        lemma_join_lines_first(first, rest.drop_last());
        assert(join_lines(all) =~= first + seq!['\n'] + join_lines(rest));
    }
}

/// The views of a list of strings, in order.
pub open spec fn texts_of(lines: Seq<String>) -> Seq<Seq<char>> {
    Seq::new(lines.len(), |i: int| lines[i]@)
}

/// The lines written one after another with a newline between each two:
/// nothing for no line, and no newline after the last.
pub open spec fn join_lines(lines: Seq<Seq<char>>) -> Seq<char>
    decreases lines.len(),
{
    if lines.len() == 0 {
        Seq::empty()
    } else if lines.len() == 1 {
        lines[0]
    } else {
        join_lines(lines.drop_last()) + seq!['\n'] + lines.last()
    }
}

/// Joins the lines with newlines.
pub fn join_texts(lines: &Vec<String>) -> (joined: String)
    ensures
        joined@ == join_lines(texts_of(lines@)),
{
    let mut joined = String::new();
    let mut i: usize = 0;
    while i < lines.len()
        invariant
            i <= lines.len(),
            joined@ == join_lines(texts_of(lines@).take(i as int)),
        decreases lines.len() - i,
    {
        proof {
            let all = texts_of(lines@);
            assert(all.take(i + 1).drop_last() =~= all.take(i as int));
            assert(all.take(i + 1).last() == lines[i as int]@);
            reveal_strlit("\n");
            assert("\n"@ =~= seq!['\n']);
        }
        if i > 0 {
            joined.append("\n");
        }
        joined.append(lines[i].as_str());
        i += 1;
    }
    assert(texts_of(lines@).take(i as int) =~= texts_of(lines@));
    joined
}

} // verus!

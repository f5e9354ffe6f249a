//! Turning identifier-style artifact names into readable Title Case.
//!
//! Words are the maximal runs free of underscores and whitespace.  Each
//! word is rendered as the Unicode uppercase mapping of its first
//! character followed by the Unicode lowercase form of the rest, and the
//! words are joined by single spaces, so no separator survives at either
//! end and none are doubled.

use vstd::prelude::*;
use vstd::string::{StrSliceExecFns, StringExecFns};

verus! {

/// The characters counted as whitespace: the Unicode white-space set.
pub open spec fn is_whitespace_char(c: char) -> bool {
    c == '\u{0009}' || c == '\u{000A}' || c == '\u{000B}' || c == '\u{000C}' || c == '\u{000D}'
        || c == ' ' || c == '\u{0085}' || c == '\u{00A0}' || c == '\u{1680}' || ('\u{2000}' <= c
        && c <= '\u{200A}') || c == '\u{2028}' || c == '\u{2029}' || c == '\u{202F}' || c
        == '\u{205F}' || c == '\u{3000}'
}

/// Characters that separate words: the underscore and whitespace.
pub open spec fn is_separator(c: char) -> bool {
    c == '_' || is_whitespace_char(c)
}

/// The characters `char::to_uppercase` yields for one character: its full
/// Unicode uppercase mapping, a function of the character alone.
pub uninterp spec fn upper_of(c: char) -> Seq<char>;

/// The characters `str::to_lowercase` yields for a string: its Unicode
/// lowercase form, a function of the characters alone.
pub uninterp spec fn lower_of(s: Seq<char>) -> Seq<char>;

/// The end of the word beginning at position `i`: the first position at
/// or after `i` that is past the end or holds a separator.
pub open spec fn word_end(s: Seq<char>, i: int) -> int
    decreases s.len() - i,
{
    if i >= s.len() || is_separator(s[i]) {
        i
    } else {
        word_end(s, i + 1)
    }
}

/// The rendering of one word: the Unicode uppercase mapping of its first
/// character, then the Unicode lowercase form of the rest taken as one
/// string.
pub open spec fn render_word(w: Seq<char>) -> Seq<char>
    recommends
        w.len() > 0,
{
    upper_of(w[0]) + lower_of(w.subrange(1, w.len() as int))
}

/// The readable form of `s` from position `i` on: separators are skipped,
/// each word is rendered by `render_word`, and a single joining space
/// stands before every word but the first.  `leading` says whether no
/// word has been rendered yet.
pub open spec fn readable_from(s: Seq<char>, i: int, leading: bool) -> Seq<char>
    decreases s.len() - i,
    via readable_from_decreases
{
    if i >= s.len() {
        Seq::<char>::empty()
    } else if is_separator(s[i]) {
        readable_from(s, i + 1, leading)
    } else {
        let end = word_end(s, i);
        let rendered = render_word(s.subrange(i, end));
        (if leading {
            rendered
        } else {
            seq![' '] + rendered
        }) + readable_from(s, end, false)
    }
}

/// The readable Title Case form of a whole string.
pub open spec fn spec_readable(s: Seq<char>) -> Seq<char> {
    readable_from(s, 0, true)
}

/// A word's end lies between its start and the end of the string, and
/// strictly after the start when the start holds a word character.
proof fn lemma_word_end_bounds(s: Seq<char>, i: int)
    ensures
        i <= word_end(s, i),
        i <= s.len() ==> word_end(s, i) <= s.len(),
        i < s.len() && !is_separator(s[i]) ==> i < word_end(s, i),
    decreases s.len() - i,
{
    if i < s.len() && !is_separator(s[i]) {
        lemma_word_end_bounds(s, i + 1);
    }
}

#[via_fn]
proof fn readable_from_decreases(s: Seq<char>, i: int, leading: bool) {
    lemma_word_end_bounds(s, i);
}

/// A stretch of word characters from `i` that stops at `j` — the end of
/// the string or a separator — makes `j` the end of the word at `i`.
proof fn lemma_word_end_is(s: Seq<char>, i: int, j: int)
    requires
        0 <= i < j <= s.len(),
        forall|k: int| i <= k < j ==> !is_separator(#[trigger] s[k]),
        j == s.len() || is_separator(s[j]),
    ensures
        word_end(s, i) == j,
    decreases j - i,
{
    assert(word_end(s, i) == word_end(s, i + 1));
    if i + 1 < j {
        lemma_word_end_is(s, i + 1, j);
    } else {
        assert(word_end(s, j) == j);
    }
}

/// Relies on `String::push`: appends exactly the given character.
#[verifier::external_body]
fn push_char(s: &mut String, c: char)
    ensures
        final(s)@ == old(s)@ + seq![c],
{
    s.push(c);
}

/// Relies on `char::to_uppercase`: the returned characters are the
/// character's full Unicode uppercase mapping, named `upper_of`.
#[verifier::external_body]
fn uppercase_char(c: char) -> (r: String)
    ensures
        r@ == upper_of(c),
{
    c.to_uppercase().collect()
}

/// Relies on `str::to_lowercase`: the result is the string's Unicode
/// lowercase form, named `lower_of`.
#[verifier::external_body]
fn lowercase(s: &str) -> (r: String)
    ensures
        r@ == lower_of(s@),
{
    s.to_lowercase()
}

/// Whether one character separates words.
fn separates(c: char) -> (b: bool)
    ensures
        b == is_separator(c),
{
    c == '_' || c == '\u{0009}' || c == '\u{000A}' || c == '\u{000B}' || c == '\u{000C}' || c
        == '\u{000D}' || c == ' ' || c == '\u{0085}' || c == '\u{00A0}' || c == '\u{1680}' || (
    '\u{2000}' <= c && c <= '\u{200A}') || c == '\u{2028}' || c == '\u{2029}' || c == '\u{202F}'
        || c == '\u{205F}' || c == '\u{3000}'
}

/// Converts an identifier-style string to a readable, space-separated
/// string in Title Case: words are the maximal runs free of underscores
/// and whitespace; each is written as the Unicode uppercase mapping of
/// its first character followed by the Unicode lowercase form of the
/// rest, joined by single spaces.
pub fn convert_to_readable(input: &str) -> (r: String)
    ensures
        r@ == spec_readable(input@),
{
    let n: usize = input.unicode_len();
    let mut out = String::new();
    let mut leading = true;
    let mut i: usize = 0;
    proof {
        assert(out@ + readable_from(input@, 0, true) =~= spec_readable(input@));
    }
    while i < n
        invariant
            n == input@.len(),
            i <= n,
            out@ + readable_from(input@, i as int, leading) == spec_readable(input@),
        decreases n - i,
    {
        let c = input.get_char(i);
        if separates(c) {
            i = i + 1;
        } else {
            let mut j: usize = i + 1;
            loop
                invariant_except_break
                    n == input@.len(),
                    i < j <= n,
                    forall|k: int| i < k < j ==> !is_separator(#[trigger] input@[k]),
                ensures
                    i < j <= n,
                    forall|k: int| i < k < j ==> !is_separator(#[trigger] input@[k]),
                    j == n || is_separator(input@[j as int]),
                decreases n - j,
            {
                if j == n {
                    break;
                }
                let cj = input.get_char(j);
                if separates(cj) {
                    break;
                }
                j = j + 1;
            }
            let ghost s = input@;
            let ghost ii = i as int;
            let ghost jj = j as int;
            let ghost out0 = out@;
            let ghost was_leading = leading;
            proof {
                lemma_word_end_is(s, ii, jj);
                assert(s.subrange(ii, jj)[0] == s[ii]);
                assert(s.subrange(ii, jj).subrange(1, jj - ii) =~= s.subrange(ii + 1, jj));
            }
            if !leading {
                push_char(&mut out, ' ');
            }
            let head = uppercase_char(c);
            out.append(head.as_str());
            let rest = input.substring_char(i + 1, j);
            let tail = lowercase(rest);
            out.append(tail.as_str());
            leading = false;
            i = j;
            proof {
                let rendered = render_word(s.subrange(ii, jj));
                let joined = if was_leading {
                    rendered
                } else {
                    seq![' '] + rendered
                };
                assert(rendered == upper_of(s[ii]) + lower_of(s.subrange(ii + 1, jj)));
                assert(out@ =~= out0 + joined);
                assert(readable_from(s, ii, was_leading) == joined + readable_from(s, jj, false));
                assert(out0 + (joined + readable_from(s, jj, false)) =~= (out0 + joined)
                    + readable_from(s, jj, false));
            }
        }
    }
    proof {
        assert(readable_from(input@, n as int, leading) =~= Seq::<char>::empty());
        assert(out@ + Seq::<char>::empty() =~= out@);
    }
    out
}

} // verus!

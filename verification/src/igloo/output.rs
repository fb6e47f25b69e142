//! Reading the version banners that compilers and interpreters print:
//! lines, whitespace-separated words, and UTF-8 decoding.

use vstd::prelude::*;
use vstd::utf8::{decode_utf8, valid_utf8};
use crate::text::{find_char_from, index_of, lemma_index_of, lemma_index_of_is, push_char};

verus! {

/// `char::is_whitespace`: the Unicode White_Space property.
pub open spec fn is_whitespace(c: char) -> bool {
    ||| ('\t' <= c && c <= '\r')
    ||| c == ' '
    ||| c == '\u{85}'
    ||| c == '\u{a0}'
    ||| c == '\u{1680}'
    ||| ('\u{2000}' <= c && c <= '\u{200a}')
    ||| c == '\u{2028}'
    ||| c == '\u{2029}'
    ||| c == '\u{202f}'
    ||| c == '\u{205f}'
    ||| c == '\u{3000}'
}

/// Whether `c` is Unicode white space.
pub fn char_is_whitespace(c: char) -> (r: bool)
    ensures
        r == is_whitespace(c),
{
    ('\t' <= c && c <= '\r') || c == ' ' || c == '\u{85}' || c == '\u{a0}' || c == '\u{1680}'
        || ('\u{2000}' <= c && c <= '\u{200a}') || c == '\u{2028}' || c == '\u{2029}'
        || c == '\u{202f}' || c == '\u{205f}' || c == '\u{3000}'
}

/// Length of the word that starts `s`: the run of non-white-space
/// characters at its front.
pub open spec fn word_len(s: Seq<char>) -> nat
    decreases s.len(),
{
    if s.len() == 0 || is_whitespace(s[0]) {
        0
    } else {
        1 + word_len(s.drop_first())
    }
}

/// The word at the front of `s` ends at `m` when the characters before
/// `m` are not white space and `m` is the end of `s` or white space.
pub proof fn lemma_word_len(s: Seq<char>, m: int)
    requires
        0 <= m <= s.len(),
        forall|k: int| 0 <= k < m ==> !is_whitespace(#[trigger] s[k]),
        m < s.len() ==> is_whitespace(s[m]),
    ensures
        word_len(s) == m,
    decreases m,
{
    if m > 0 {
        let t = s.drop_first();
        assert forall|k: int| 0 <= k < m - 1 implies !is_whitespace(#[trigger] t[k]) by {
            assert(t[k] == s[k + 1]);
        }
        lemma_word_len(t, m - 1);
    }
}

/// A word is no longer than the text it starts.
pub proof fn lemma_word_len_bound(s: Seq<char>)
    ensures
        word_len(s) <= s.len(),
    decreases s.len(),
{
    if s.len() > 0 && !is_whitespace(s[0]) {
        lemma_word_len_bound(s.drop_first());
    }
}

/// `str::split_whitespace`: the maximal runs of non-white-space characters.
pub open spec fn ws_tokens(s: Seq<char>) -> Seq<Seq<char>>
    decreases s.len(),
{
    if s.len() == 0 {
        seq![]
    } else if is_whitespace(s[0]) {
        ws_tokens(s.drop_first())
    } else {
        let n = word_len(s);
        proof {
            lemma_word_len_bound(s);
        }
        seq![s.take(n as int)] + ws_tokens(s.skip(n as int))
    }
}

/// The characters of the word at the front of `s` are not white space.
proof fn lemma_word_chars(s: Seq<char>)
    ensures
        forall|j: int| 0 <= j < word_len(s) ==> !is_whitespace(#[trigger] s[j]),
    decreases s.len(),
{
    if s.len() > 0 && !is_whitespace(s[0]) {
        let t = s.drop_first();
        lemma_word_chars(t);
        lemma_word_len_bound(s);
        assert forall|j: int| 0 <= j < word_len(s) implies !is_whitespace(#[trigger] s[j]) by {
            if j > 0 {
                assert(s[j] == t[j - 1]);
            }
        }
    }
}

/// Every word that `split_whitespace` yields is non-empty and holds no
/// white space.
pub proof fn ws_tokens_are_words(s: Seq<char>)
    ensures
        forall|k: int| 0 <= k < ws_tokens(s).len() ==> {
            &&& (#[trigger] ws_tokens(s)[k]).len() > 0
            &&& forall|j: int| 0 <= j < ws_tokens(s)[k].len() ==> !is_whitespace(ws_tokens(s)[k][j])
        },
    decreases s.len(),
{
    if s.len() == 0 {
    } else if is_whitespace(s[0]) {
        ws_tokens_are_words(s.drop_first());
        assert(ws_tokens(s) == ws_tokens(s.drop_first()));
    } else {
        let n = word_len(s);
        lemma_word_len_bound(s);
        lemma_word_chars(s);
        let rest = s.skip(n as int);
        ws_tokens_are_words(rest);
        let w = s.take(n as int);
        assert(ws_tokens(s) == seq![w] + ws_tokens(rest));
        assert forall|k: int| 0 <= k < ws_tokens(s).len() implies {
            &&& (#[trigger] ws_tokens(s)[k]).len() > 0
            &&& forall|j: int| 0 <= j < ws_tokens(s)[k].len() ==> !is_whitespace(ws_tokens(s)[k][j])
        } by {
            if k == 0 {
                assert(ws_tokens(s)[0] == w);
                assert forall|j: int| 0 <= j < w.len() implies !is_whitespace(w[j]) by {
                    assert(w[j] == s[j]);
                }
            } else {
                assert(ws_tokens(s)[k] == ws_tokens(rest)[k - 1]);
                assert(ws_tokens(rest)[k - 1].len() > 0);
            }
        }
    }
}

/// Splits a string into its white-space-separated words.
pub fn split_whitespace(s: &str) -> (r: Vec<String>)
    ensures
        r@.len() == ws_tokens(s@).len(),
        forall|k: int| 0 <= k < r@.len() ==> #[trigger] r@[k]@ == ws_tokens(s@)[k],
{
    let n = s.unicode_len();
    let mut out: Vec<String> = Vec::new();
    let ghost mut acc: Seq<Seq<char>> = seq![];
    let mut i: usize = 0;
    proof {
        assert(s@.skip(0) =~= s@);
    }
    while i < n
        invariant
            n == s@.len(),
            i <= n,
            out@.len() == acc.len(),
            forall|k: int| 0 <= k < out@.len() ==> #[trigger] out@[k]@ == acc[k],
            ws_tokens(s@) == acc + ws_tokens(s@.skip(i as int)),
        decreases n - i,
    {
        let c = s.get_char(i);
        if char_is_whitespace(c) {
            proof {
                let t = s@.skip(i as int);
                assert(t[0] == c);
                assert(t.drop_first() =~= s@.skip(i + 1));
            }
            i += 1;
        } else {
            let mut w = String::new();
            let mut j = i;
            while j < n && !char_is_whitespace(s.get_char(j))
                invariant
                    n == s@.len(),
                    i <= j <= n,
                    w@ == s@.subrange(i as int, j as int),
                    forall|k: int| i <= k < j ==> !is_whitespace(#[trigger] s@[k]),
                decreases n - j,
            {
                let d = s.get_char(j);
                push_char(&mut w, d);
                proof {
                    assert(w@ =~= s@.subrange(i as int, j + 1));
                }
                j += 1;
            }
            proof {
                let t = s@.skip(i as int);
                let m = (j - i) as int;
                assert forall|k: int| 0 <= k < m implies !is_whitespace(#[trigger] t[k]) by {
                    assert(t[k] == s@[i + k]);
                }
                if m < t.len() {
                    assert(t[m] == s@[j as int]);
                }
                lemma_word_len(t, m);
                assert(t[0] == c);
                assert(t.take(m) =~= w@);
                assert(t.skip(m) =~= s@.skip(j as int));
                assert(ws_tokens(t) == seq![w@] + ws_tokens(s@.skip(j as int)));
                assert(acc + ws_tokens(t) =~= acc.push(w@) + ws_tokens(s@.skip(j as int)));
            }
            out.push(w);
            proof {
                acc = acc.push(out@[out@.len() - 1]@);
            }
            i = j;
        }
    }
    proof {
        assert(s@.skip(n as int) =~= Seq::<char>::empty());
        assert(acc + seq![] =~= acc);
    }
    out
}

/// A line without the '\r' of a "\r\n" ending.
pub open spec fn strip_cr(l: Seq<char>) -> Seq<char> {
    if l.len() > 0 && l.last() == '\r' { l.drop_last() } else { l }
}

/// `str::lines`: the text split at each '\n', a '\r' just before a '\n'
/// dropped, and no empty line after a final '\n'.
pub open spec fn str_lines(s: Seq<char>) -> Seq<Seq<char>>
    decreases s.len(),
{
    if s.len() == 0 {
        seq![]
    } else {
        let i = index_of(s, '\n');
        proof {
            lemma_index_of(s, '\n');
        }
        if i < s.len() {
            seq![strip_cr(s.take(i))] + str_lines(s.skip(i + 1))
        } else {
            seq![s]
        }
    }
}

/// Splits a string into its lines as `str::lines` does.
pub fn lines(s: &str) -> (r: Vec<String>)
    ensures
        r@.len() == str_lines(s@).len(),
        forall|k: int| 0 <= k < r@.len() ==> #[trigger] r@[k]@ == str_lines(s@)[k],
{
    let n = s.unicode_len();
    let mut out: Vec<String> = Vec::new();
    let ghost mut acc: Seq<Seq<char>> = seq![];
    let mut start: usize = 0;
    proof {
        assert(s@.skip(0) =~= s@);
    }
    while start < n
        invariant
            n == s@.len(),
            start <= n,
            out@.len() == acc.len(),
            forall|k: int| 0 <= k < out@.len() ==> #[trigger] out@[k]@ == acc[k],
            str_lines(s@) == acc + str_lines(s@.skip(start as int)),
        decreases n - start,
    {
        let i = find_char_from(s, start, '\n');
        let ghost t = s@.skip(start as int);
        if i < n {
            let mut end = i;
            if i > start && s.get_char(i - 1) == '\r' {
                end = i - 1;
            }
            let line = s.substring_char(start, end);
            proof {
                let m = i - start;
                assert(t.take(m) =~= s@.subrange(start as int, i as int));
                assert(strip_cr(t.take(m)) =~= line@);
                assert(t.skip(m + 1) =~= s@.skip(i + 1));
                assert(str_lines(t) == seq![line@] + str_lines(s@.skip(i + 1)));
                assert(acc + str_lines(t) =~= acc.push(line@) + str_lines(s@.skip(i + 1)));
            }
            out.push(line.to_owned());
            proof {
                acc = acc.push(out@[out@.len() - 1]@);
            }
            start = i + 1;
        } else {
            let line = s.substring_char(start, n);
            proof {
                assert(t =~= line@);
                assert(str_lines(t) == seq![line@]);
                assert(acc + str_lines(t) =~= acc.push(line@) + str_lines(s@.skip(n as int)));
            }
            out.push(line.to_owned());
            proof {
                acc = acc.push(out@[out@.len() - 1]@);
            }
            start = n;
        }
    }
    proof {
        assert(s@.skip(n as int) =~= Seq::<char>::empty());
        assert(acc + seq![] =~= acc);
    }
    out
}

/// Decodes UTF-8 (`std::str::from_utf8`): `None` when the bytes are not
/// valid UTF-8, else the decoded text.
#[verifier::external_body]
pub(crate) fn utf8_decode(b: &[u8]) -> (r: Option<String>)
    ensures
        r is Some <==> valid_utf8(b@),
        r matches Some(s) ==> s@ == decode_utf8(b@),
{
    match std::str::from_utf8(b) {
        Ok(s) => Some(s.to_owned()),
        Err(_) => None,
    }
}

/// A byte line without the '\r' of a "\r\n" ending.
pub open spec fn strip_cr_bytes(l: Seq<u8>) -> Seq<u8> {
    if l.len() > 0 && l.last() == 13 { l.drop_last() } else { l }
}

/// The bytes of the first line that `BufRead::lines` reads: `None` when
/// there is no input, else up to the first '\n' (with a '\r' just before
/// it dropped), or everything when there is no '\n'.
pub open spec fn first_line_bytes(b: Seq<u8>) -> Option<Seq<u8>> {
    if b.len() == 0 {
        None
    } else {
        let i = index_of(b, 10u8);
        if i < b.len() {
            Some(strip_cr_bytes(b.take(i)))
        } else {
            Some(b)
        }
    }
}

/// The first item of `BufRead::lines`: `None` when there is no input;
/// `Some(None)` for a line that is not valid UTF-8 (an error); else the
/// text of the line.
pub open spec fn first_line(b: Seq<u8>) -> Option<Option<Seq<char>>> {
    match first_line_bytes(b) {
        None => None,
        Some(l) => Some(if valid_utf8(l) { Some(decode_utf8(l)) } else { None }),
    }
}

/// Reads the first line of some output, as `BufRead::lines().next()` does.
pub fn read_first_line(b: &[u8]) -> (r: Option<Option<String>>)
    ensures
        match r {
            None => first_line(b@) is None,
            Some(None) => first_line(b@) == Some(None::<Seq<char>>),
            Some(Some(s)) => first_line(b@) == Some(Some(s@)),
        },
{
    let n = b.len();
    if n == 0 {
        return None;
    }
    let mut i: usize = 0;
    while i < n && b[i] != 10u8
        invariant
            n == b@.len(),
            i <= n,
            forall|j: int| 0 <= j < i ==> b@[j] != 10u8,
        decreases n - i,
    {
        i += 1;
    }
    proof {
        lemma_index_of_is(b@, 10u8, i as int);
    }
    let mut end = i;
    if i < n && i > 0 && b[i - 1] == 13u8 {
        end = i - 1;
    }
    let mut line: Vec<u8> = Vec::new();
    let mut k: usize = 0;
    while k < end
        invariant
            end <= n,
            n == b@.len(),
            k <= end,
            line@ == b@.take(k as int),
        decreases end - k,
    {
        line.push(b[k]);
        proof {
            assert(line@ =~= b@.take(k + 1));
        }
        k += 1;
    }
    proof {
        if i < n {
            assert(strip_cr_bytes(b@.take(i as int)) =~= b@.take(end as int));
        } else {
            assert(b@.take(end as int) =~= b@);
        }
    }
    Some(utf8_decode(line.as_slice()))
}

} // verus!

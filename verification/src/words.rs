//! Splitting a rendered prompt into the words that are fed to a session.
//!
//! A word is a maximal run of characters none of which is Unicode white
//! space. Punctuation is not treated specially.

use vstd::prelude::*;
use vstd::string::*;

verus! {

/// The code points that carry the Unicode `White_Space` property.
pub open spec fn is_space(c: char) -> bool {
    let n = c as int;
    (0x09 <= n <= 0x0D) || n == 0x20 || n == 0x85 || n == 0xA0 || n == 0x1680
        || (0x2000 <= n <= 0x200A) || n == 0x2028 || n == 0x2029 || n == 0x202F
        || n == 0x205F || n == 0x3000
}

/// Length of the longest prefix of `s` that holds no white space.
pub open spec fn word_len(s: Seq<char>) -> nat
    decreases s.len(),
{
    if s.len() == 0 || is_space(s[0]) {
        0
    } else {
        1 + word_len(s.drop_first())
    }
}

/// The words of `s`, in the order in which they occur.
pub open spec fn words_of(s: Seq<char>) -> Seq<Seq<char>>
    decreases s.len(),
{
    if s.len() == 0 {
        Seq::empty()
    } else if is_space(s[0]) {
        words_of(s.drop_first())
    } else {
        let n = word_len(s) as int;
        if 0 < n <= s.len() {
            seq![s.take(n)] + words_of(s.skip(n))
        } else {
            Seq::empty()
        }
    }
}

/// The character sequences that a vector of strings stands for.
pub open spec fn texts(v: Seq<String>) -> Seq<Seq<char>> {
    Seq::new(v.len(), |i: int| v[i]@)
}

/// A prefix without white space that ends at the text's end or at a white
/// space character is the first word's extent.
pub proof fn word_len_is(s: Seq<char>, m: nat)
    requires
        m <= s.len(),
        forall|k: int| 0 <= k < m ==> !is_space(#[trigger] s[k]),
        m == s.len() || is_space(s[m as int]),
    ensures
        word_len(s) == m,
    decreases m,
{
    if m > 0 {
        let t = s.drop_first();
        assert forall|k: int| 0 <= k < m - 1 implies !is_space(#[trigger] t[k]) by {
            assert(t[k] == s[k + 1]);
        }
        word_len_is(t, (m - 1) as nat);
    }
}

/// The first word never runs past the end of the text.
pub proof fn word_len_bounded(s: Seq<char>)
    ensures
        word_len(s) <= s.len(),
        s.len() > 0 && !is_space(s[0]) ==> word_len(s) > 0,
        forall|k: int| 0 <= k < word_len(s) ==> !is_space(#[trigger] s[k]),
    decreases s.len(),
{
    if s.len() > 0 && !is_space(s[0]) {
        let t = s.drop_first();
        word_len_bounded(t);
        assert forall|k: int| 0 <= k < word_len(s) implies !is_space(#[trigger] s[k]) by {
            if k > 0 {
                assert(s[k] == t[k - 1]);
            }
        }
    }
}

/// No word is empty and no word holds a white space character.
pub proof fn words_are_solid(s: Seq<char>)
    ensures
        forall|i: int, k: int|
            0 <= i < words_of(s).len() && 0 <= k < words_of(s)[i].len() ==> !is_space(
                #[trigger] words_of(s)[i][k],
            ),
        forall|i: int| 0 <= i < words_of(s).len() ==> (#[trigger] words_of(s)[i]).len() > 0,
    decreases s.len(),
{
    if s.len() == 0 {
        assert(words_of(s).len() == 0);
    } else if is_space(s[0]) {
        words_are_solid(s.drop_first());
        assert(words_of(s) == words_of(s.drop_first()));
    } else {
        word_len_bounded(s);
        let n = word_len(s) as int;
        words_are_solid(s.skip(n));
        let rest = words_of(s.skip(n));
        let all = words_of(s);
        assert(all == seq![s.take(n)] + rest);
        assert forall|i: int| 0 <= i < all.len() implies (#[trigger] all[i]).len() > 0 by {
            if i > 0 {
                assert(all[i] == rest[i - 1]);
                assert(rest[i - 1].len() > 0);
            } else {
                assert(all[0] == s.take(n));
            }
        }
        assert forall|i: int, k: int| 0 <= i < all.len() && 0 <= k < all[i].len() implies !is_space(
            #[trigger] all[i][k],
        ) by {
            if i > 0 {
                assert(all[i] == rest[i - 1]);
                assert(!is_space(rest[i - 1][k]));
            } else {
                assert(all[0] == s.take(n));
                assert(all[0][k] == s[k]);
            }
        }
    }
}

/// Whether `c` is Unicode white space.
pub fn is_whitespace(c: char) -> (r: bool)
    ensures
        r == is_space(c),
{
    let n: u32 = c as u32;
    (0x09 <= n && n <= 0x0D) || n == 0x20 || n == 0x85 || n == 0xA0 || n == 0x1680 || (0x2000 <= n
        && n <= 0x200A) || n == 0x2028 || n == 0x2029 || n == 0x202F || n == 0x205F || n == 0x3000
}

/// The character at position `i`, read in constant time where the text is
/// known to be ASCII.
fn char_at(text: &str, ascii: bool, i: usize) -> (c: char)
    requires
        i < text@.len(),
        ascii ==> text.is_ascii(),
    ensures
        c == text@[i as int],
{
    if ascii {
        text.get_ascii(i) as char
    } else {
        text.get_char(i)
    }
}

/// The characters from position `from` up to `to`, sliced in constant time
/// where the text is known to be ASCII.
fn piece<'a>(text: &'a str, ascii: bool, from: usize, to: usize) -> (part: &'a str)
    requires
        from <= to <= text@.len(),
        ascii ==> text.is_ascii(),
    ensures
        part@ == text@.subrange(from as int, to as int),
{
    if ascii {
        text.substring_ascii(from, to)
    } else {
        text.substring_char(from, to)
    }
}

/// Splits `text` at white space. Runs of white space separate words; leading
/// and trailing white space gives no empty word.
pub fn split_words(text: &str) -> (out: Vec<String>)
    ensures
        texts(out@) == words_of(text@),
{
    let ascii = text.is_ascii();
    let n: usize = text.unicode_len();
    let mut out: Vec<String> = Vec::new();
    let mut i: usize = 0;
    assert(text@.skip(0) =~= text@);
    assert(texts(out@) =~= Seq::<Seq<char>>::empty());
    while i < n
        invariant
            n == text@.len(),
            i <= n,
            ascii ==> text.is_ascii(),
            texts(out@) + words_of(text@.skip(i as int)) == words_of(text@),
        decreases n - i,
    {
        let ghost tail = text@.skip(i as int);
        let c = char_at(text, ascii, i);
        if is_whitespace(c) {
            assert(tail.drop_first() =~= text@.skip(i + 1));
            i += 1;
        } else {
            let mut j: usize = i + 1;
            while j < n && !is_whitespace(char_at(text, ascii, j))
                invariant
                    n == text@.len(),
                    i < j <= n,
                    ascii ==> text.is_ascii(),
                    forall|k: int| i <= k < j ==> !is_space(#[trigger] text@[k]),
                decreases n - j,
            {
                j += 1;
            }
            let word = String::from_str(piece(text, ascii, i, j));
            proof {
                let m = (j - i) as nat;
                assert forall|k: int| 0 <= k < m implies !is_space(#[trigger] tail[k]) by {
                    assert(tail[k] == text@[i + k]);
                }
                word_len_is(tail, m);
                assert(tail.take(m as int) =~= text@.subrange(i as int, j as int));
                assert(tail.skip(m as int) =~= text@.skip(j as int));
                assert(words_of(tail) == seq![word@] + words_of(text@.skip(j as int)));
                assert(texts(out@.push(word)) =~= texts(out@) + seq![word@]);
                assert((texts(out@) + seq![word@]) + words_of(text@.skip(j as int)) =~= texts(out@)
                    + (seq![word@] + words_of(text@.skip(j as int))));
            }
            out.push(word);
            i = j;
        }
    }
    assert(text@.skip(n as int) =~= Seq::<char>::empty());
    assert(texts(out@) + Seq::<Seq<char>>::empty() =~= texts(out@));
    out
}

} // verus!

use vstd::prelude::*;

use crate::parse::{split_whitespace, words};
use crate::templates::texts;

verus! {

/// The upper-case form of `c`, as Unicode defines it; it may be several
/// characters.
pub uninterp spec fn upper_of(c: char) -> Seq<char>;

/// Relies on `char::to_uppercase`: the result depends on the character alone.
#[verifier::external_body]
fn uppercase_char(c: char) -> (r: String)
    ensures
        r@ == upper_of(c),
{
    c.to_uppercase().collect()
}

/// `word` with its first character in upper case.
pub open spec fn capitalized(word: Seq<char>) -> Seq<char> {
    if word.len() == 0 {
        word
    } else {
        upper_of(word[0]) + word.drop_first()
    }
}

/// The capitalized words of `ws`, each after a single space but the first.
pub open spec fn joined_capitalized(ws: Seq<Seq<char>>) -> Seq<char>
    decreases ws.len(),
{
    if ws.len() == 0 {
        Seq::empty()
    } else if ws.len() == 1 {
        capitalized(ws[0])
    } else {
        joined_capitalized(ws.drop_last()) + " "@ + capitalized(ws.last())
    }
}

/// Title case: the words of a text, first letters in upper case, joined by
/// single spaces.
pub trait TitleCase {
    fn to_titlecase(&self) -> (r: String)
        ensures
            r@ == joined_capitalized(words(self.titlecase_source()));

    spec fn titlecase_source(&self) -> Seq<char>;
}

fn capitalize(word: &str) -> (r: String)
    ensures
        r@ == capitalized(word@),
{
    let n = word.unicode_len();
    if n == 0 {
        return String::new();
    }
    let mut out = uppercase_char(word.get_char(0));
    out.append(word.substring_char(1, n));
    proof {
        assert(word@.subrange(1, n as int) =~= word@.drop_first());
    }
    out
}

impl TitleCase for str {
    open spec fn titlecase_source(&self) -> Seq<char> {
        self@
    }

    fn to_titlecase(&self) -> (r: String) {
        let ws = split_whitespace(self);
        let ghost all = texts(ws@);
        let mut out = String::new();
        let mut k: usize = 0;
        while k < ws.len()
            invariant
                k <= ws@.len(),
                all == texts(ws@),
                out@ == joined_capitalized(all.take(k as int)),
            decreases ws.len() - k,
        {
            let ghost prev = out@;
            proof {
                assert(all.take(k as int + 1).drop_last() =~= all.take(k as int));
                assert(all.take(k as int + 1).last() == ws@[k as int]@);
            }
            if k > 0 {
                out.append(" ");
            }
            let word = capitalize(ws[k].as_str());
            out.append(word.as_str());
            proof {
                if k == 0 {
                    assert(out@ =~= capitalized(ws@[0]@));
                } else {
                    assert(out@ =~= prev + " "@ + capitalized(ws@[k as int]@));
                }
            }
            k = k + 1;
        }
        proof {
            assert(all.take(ws@.len() as int) =~= all);
        }
        out
    }
}

} // verus!

use vstd::prelude::*;

verus! {

/// Whether `p` occurs in `s` starting at position `i`.
pub open spec fn matches_at(s: Seq<char>, p: Seq<char>, i: int) -> bool {
    0 <= i && i + p.len() <= s.len() && s.subrange(i, i + p.len()) == p
}

/// Whether the nonempty pattern `p` occurs anywhere in `s`.
pub open spec fn has_match(s: Seq<char>, p: Seq<char>) -> bool
    decreases s.len(),
{
    if s.len() == 0 || p.len() == 0 {
        false
    } else {
        matches_at(s, p, 0) || has_match(s.drop_first(), p)
    }
}

/// `s` with every occurrence of the nonempty pattern `p` replaced by `w`,
/// scanning from the left, occurrences not overlapping.
pub open spec fn replaced_all(s: Seq<char>, p: Seq<char>, w: Seq<char>) -> Seq<char>
    decreases s.len(),
{
    if s.len() == 0 || p.len() == 0 {
        s
    } else if matches_at(s, p, 0) {
        w + replaced_all(s.subrange(p.len() as int, s.len() as int), p, w)
    } else {
        seq![s[0]] + replaced_all(s.drop_first(), p, w)
    }
}

/// `s` with the first occurrence of the nonempty pattern `p`, if any,
/// replaced by `w`.
pub open spec fn replaced_first(s: Seq<char>, p: Seq<char>, w: Seq<char>) -> Seq<char>
    decreases s.len(),
{
    if s.len() == 0 || p.len() == 0 {
        s
    } else if matches_at(s, p, 0) {
        w + s.subrange(p.len() as int, s.len() as int)
    } else {
        seq![s[0]] + replaced_first(s.drop_first(), p, w)
    }
}

/// Whether `p` occurs in `t` at character position `i`, where `n` and `m` are
/// the character lengths of `t` and `p`.
fn occurs_at(t: &str, p: &str, i: usize, n: usize, m: usize) -> (r: bool)
    requires
        n == t@.len(),
        m == p@.len(),
        i <= n,
    ensures
        r == matches_at(t@, p@, i as int),
{
    if m > n - i {
        return false;
    }
    let mut k: usize = 0;
    while k < m
        invariant
            m == p@.len(),
            n == t@.len(),
            i + m <= n,
            k <= m,
            forall|j: int| 0 <= j < k ==> t@[i + j] == p@[j],
        decreases m - k,
    {
        if t.get_char(i + k) != p.get_char(k) {
            proof {
                assert(t@.subrange(i as int, i + m)[k as int] != p@[k as int]);
            }
            return false;
        }
        k = k + 1;
    }
    proof {
        assert(t@.subrange(i as int, i + m) =~= p@);
    }
    true
}

proof fn lemma_suffix_step(t: Seq<char>, i: int)
    requires
        0 <= i < t.len(),
    ensures
        t.subrange(i, t.len() as int).drop_first() == t.subrange(i + 1, t.len() as int),
        t.subrange(i, t.len() as int)[0] == t[i],
{
    assert(t.subrange(i, t.len() as int).drop_first() =~= t.subrange(i + 1, t.len() as int));
}

proof fn lemma_match_shift(t: Seq<char>, p: Seq<char>, i: int)
    requires
        0 <= i <= t.len(),
    ensures
        matches_at(t.subrange(i, t.len() as int), p, 0) == matches_at(t, p, i),
{
    let s = t.subrange(i, t.len() as int);
    if i + p.len() <= t.len() {
        assert(s.subrange(0, p.len() as int) =~= t.subrange(i, i + p.len()));
    }
}

/// The lower-case form of `s`, as Unicode defines it.
pub uninterp spec fn lower_of(s: Seq<char>) -> Seq<char>;

/// Relies on `str::to_lowercase`: the result depends on the characters alone,
/// and the empty text stays empty.
#[verifier::external_body]
pub(crate) fn lowercase(s: &str) -> (r: String)
    ensures
        r@ == lower_of(s@),
        s@.len() == 0 ==> r@.len() == 0,
{
    s.to_lowercase()
}

/// Whether `p` occurs in `s`, the empty text occurring everywhere.
pub open spec fn occurs_in(s: Seq<char>, p: Seq<char>) -> bool {
    p.len() == 0 || has_match(s, p)
}

/// Whether `p` occurs in `t`, the empty text occurring everywhere.
pub fn contains_or_empty(t: &str, p: &str) -> (r: bool)
    ensures
        r == occurs_in(t@, p@),
{
    if p.unicode_len() == 0 {
        true
    } else {
        contains_text(t, p)
    }
}

/// Whether `a` and `b` hold the same characters.
pub fn same_text(a: &str, b: &str) -> (r: bool)
    ensures
        r == (a@ == b@),
{
    let n = a.unicode_len();
    if n != b.unicode_len() {
        return false;
    }
    let r = occurs_at(a, b, 0, n, n);
    proof {
        if r {
            assert(a@.subrange(0, n as int) =~= a@);
        } else {
            assert(a@.subrange(0, n as int) =~= a@);
        }
    }
    r
}

/// Whether the nonempty pattern `p` occurs in `t`.
pub fn contains_text(t: &str, p: &str) -> (r: bool)
    requires
        p@.len() > 0,
    ensures
        r == has_match(t@, p@),
{
    let n = t.unicode_len();
    let m = p.unicode_len();
    let mut i: usize = 0;
    proof {
        assert(t@.subrange(0, n as int) =~= t@);
    }
    while i < n
        invariant
            n == t@.len(),
            m == p@.len(),
            m > 0,
            i <= n,
            has_match(t@, p@) == has_match(t@.subrange(i as int, n as int), p@),
        decreases n - i,
    {
        proof {
            lemma_suffix_step(t@, i as int);
            lemma_match_shift(t@, p@, i as int);
        }
        if occurs_at(t, p, i, n, m) {
            return true;
        }
        i = i + 1;
    }
    false
}

/// `t` with every occurrence of the nonempty pattern `p` replaced by `w`.
pub fn replace_all(t: &str, p: &str, w: &str) -> (r: String)
    requires
        p@.len() > 0,
    ensures
        r@ == replaced_all(t@, p@, w@),
{
    let n = t.unicode_len();
    let m = p.unicode_len();
    let mut out = String::new();
    let mut start: usize = 0;
    let mut i: usize = 0;
    proof {
        assert(t@.subrange(0, n as int) =~= t@);
        assert(t@.subrange(0, 0) =~= Seq::<char>::empty());
        assert(out@ + t@.subrange(0, 0) + replaced_all(t@, p@, w@) =~= replaced_all(t@, p@, w@));
    }
    while i < n
        invariant
            n == t@.len(),
            m == p@.len(),
            m > 0,
            start <= i <= n,
            replaced_all(t@, p@, w@) == out@ + t@.subrange(start as int, i as int) + replaced_all(
                t@.subrange(i as int, n as int),
                p@,
                w@,
            ),
        decreases n - i,
    {
        let ghost rest = t@.subrange(i as int, n as int);
        proof {
            lemma_suffix_step(t@, i as int);
            lemma_match_shift(t@, p@, i as int);
        }
        if occurs_at(t, p, i, n, m) {
            let ghost before = out@;
            out.append(t.substring_char(start, i));
            out.append(w);
            proof {
                assert(rest.subrange(m as int, rest.len() as int) =~= t@.subrange(
                    i + m,
                    n as int,
                ));
                assert(out@ =~= before + t@.subrange(start as int, i as int) + w@);
                assert(t@.subrange((i + m) as int, (i + m) as int) =~= Seq::<char>::empty());
                assert(replaced_all(t@, p@, w@) =~= out@ + t@.subrange(
                    (i + m) as int,
                    (i + m) as int,
                ) + replaced_all(t@.subrange((i + m) as int, n as int), p@, w@));
            }
            i = i + m;
            start = i;
        } else {
            proof {
                assert(t@.subrange(start as int, i + 1) =~= t@.subrange(start as int, i as int).push(
                    t@[i as int],
                ));
                assert(replaced_all(t@, p@, w@) =~= out@ + t@.subrange(start as int, i + 1)
                    + replaced_all(t@.subrange(i + 1, n as int), p@, w@));
            }
            i = i + 1;
        }
    }
    out.append(t.substring_char(start, n));
    proof {
        assert(t@.subrange(n as int, n as int) =~= Seq::<char>::empty());
        assert(out@ =~= replaced_all(t@, p@, w@));
    }
    out
}

/// `t` with the first occurrence of the nonempty pattern `p`, if any, replaced
/// by `w`.
pub fn replace_first(t: &str, p: &str, w: &str) -> (r: String)
    requires
        p@.len() > 0,
    ensures
        r@ == replaced_first(t@, p@, w@),
{
    let n = t.unicode_len();
    let m = p.unicode_len();
    let mut i: usize = 0;
    proof {
        assert(t@.subrange(0, n as int) =~= t@);
        assert(t@.subrange(0, 0) + replaced_first(t@, p@, w@) =~= replaced_first(t@, p@, w@));
    }
    while i < n
        invariant
            n == t@.len(),
            m == p@.len(),
            m > 0,
            i <= n,
            replaced_first(t@, p@, w@) == t@.subrange(0, i as int) + replaced_first(
                t@.subrange(i as int, n as int),
                p@,
                w@,
            ),
        decreases n - i,
    {
        let ghost rest = t@.subrange(i as int, n as int);
        proof {
            lemma_suffix_step(t@, i as int);
            lemma_match_shift(t@, p@, i as int);
        }
        if occurs_at(t, p, i, n, m) {
            let mut out = String::from_str(t.substring_char(0, i));
            out.append(w);
            out.append(t.substring_char(i + m, n));
            proof {
                assert(rest.subrange(m as int, rest.len() as int) =~= t@.subrange(
                    i + m,
                    n as int,
                ));
                assert(out@ =~= replaced_first(t@, p@, w@));
            }
            return out;
        }
        proof {
            assert(t@.subrange(0, i + 1) =~= t@.subrange(0, i as int).push(t@[i as int]));
            assert(replaced_first(t@, p@, w@) =~= t@.subrange(0, i + 1) + replaced_first(
                t@.subrange(i + 1, n as int),
                p@,
                w@,
            ));
        }
        i = i + 1;
    }
    proof {
        assert(t@.subrange(0, n as int) =~= t@);
        assert(t@.subrange(n as int, n as int) =~= Seq::<char>::empty());
    }
    String::from_str(t)
}

} // verus!

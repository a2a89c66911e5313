//! Wildcard patterns over host and path: `*` stands for any run of characters,
//! and a pattern must cover the whole text.
use vstd::prelude::*;

verus! {

/// Whether pattern `p` covers all of `t`, each `*` standing for zero or more characters.
pub open spec fn glob_matches(p: Seq<char>, t: Seq<char>) -> bool
    decreases p.len(), t.len(),
{
    if p.len() == 0 {
        t.len() == 0
    } else if p[0] == '*' {
        glob_matches(p.drop_first(), t) || (t.len() > 0 && glob_matches(p, t.drop_first()))
    } else {
        t.len() > 0 && t[0] == p[0] && glob_matches(p.drop_first(), t.drop_first())
    }
}

/// A pattern without `*` matches exactly one text, the pattern itself: matching is
/// equality of the whole host and path, never a search for a substring.
pub proof fn lemma_literal_pattern_is_equality(p: Seq<char>, t: Seq<char>)
    requires
        forall|i: int| 0 <= i < p.len() ==> p[i] != '*',
    ensures
        glob_matches(p, t) <==> p == t,
    decreases p.len(), t.len(),
{
    if p.len() > 0 && t.len() > 0 {
        assert forall|i: int| 0 <= i < p.drop_first().len() implies p.drop_first()[i] != '*' by {
            assert(p.drop_first()[i] == p[i + 1]);
        }
        lemma_literal_pattern_is_equality(p.drop_first(), t.drop_first());
        if p == t {
            assert(p.drop_first() == t.drop_first());
        }
        if p[0] == t[0] && p.drop_first() == t.drop_first() {
            assert(p.len() == t.len());
            assert forall|i: int| 0 <= i < p.len() implies p[i] == t[i] by {
                if i > 0 {
                    assert(p[i] == p.drop_first()[i - 1]);
                    assert(t[i] == t.drop_first()[i - 1]);
                }
            }
            assert(p =~= t);
        }
    } else if p.len() > 0 {
        assert(p != t);
    } else if t.len() > 0 {
        assert(p != t);
    } else {
        assert(p =~= t);
    }
}

/// The number of `*` in a pattern.
pub open spec fn star_count(p: Seq<char>) -> nat
    decreases p.len(),
{
    if p.len() == 0 {
        0
    } else {
        (if p[0] == '*' {
            1nat
        } else {
            0nat
        }) + star_count(p.drop_first())
    }
}

/// The pattern with its `*`s, left to right, replaced by the texts in `fills`.
pub open spec fn substitute(p: Seq<char>, fills: Seq<Seq<char>>) -> Seq<char>
    decreases p.len(),
{
    if p.len() == 0 {
        Seq::empty()
    } else if p[0] == '*' {
        fills[0] + substitute(p.drop_first(), fills.drop_first())
    } else {
        seq![p[0]] + substitute(p.drop_first(), fills)
    }
}

proof fn lemma_star_absorbs(p: Seq<char>, a: Seq<char>, b: Seq<char>)
    requires
        p.len() > 0,
        p[0] == '*',
        glob_matches(p.drop_first(), b),
    ensures
        glob_matches(p, a + b),
    decreases a.len(),
{
    if a.len() == 0 {
        assert(a + b =~= b);
    } else {
        lemma_star_absorbs(p, a.drop_first(), b);
        assert((a + b).drop_first() =~= a.drop_first() + b);
    }
}

proof fn lemma_substitution_matches(p: Seq<char>, fills: Seq<Seq<char>>)
    requires
        fills.len() == star_count(p),
    ensures
        glob_matches(p, substitute(p, fills)),
    decreases p.len(),
{
    if p.len() > 0 {
        if p[0] == '*' {
            lemma_substitution_matches(p.drop_first(), fills.drop_first());
            lemma_star_absorbs(p, fills[0], substitute(p.drop_first(), fills.drop_first()));
        } else {
            lemma_substitution_matches(p.drop_first(), fills);
            let t = substitute(p, fills);
            assert(t.drop_first() =~= substitute(p.drop_first(), fills));
        }
    }
}

proof fn lemma_match_has_substitution(p: Seq<char>, t: Seq<char>)
    requires
        glob_matches(p, t),
    ensures
        exists|fills: Seq<Seq<char>>|
            fills.len() == star_count(p) && #[trigger] substitute(p, fills) == t,
    decreases p.len(), t.len(),
{
    if p.len() == 0 {
        let fills = Seq::<Seq<char>>::empty();
        assert(substitute(p, fills) =~= t);
    } else if p[0] == '*' {
        if glob_matches(p.drop_first(), t) {
            lemma_match_has_substitution(p.drop_first(), t);
            let rest = choose|fills: Seq<Seq<char>>|
                fills.len() == star_count(p.drop_first()) && #[trigger] substitute(
                    p.drop_first(),
                    fills,
                ) == t;
            let fills = seq![Seq::<char>::empty()] + rest;
            assert(fills.drop_first() =~= rest);
            assert(substitute(p, fills) =~= t);
        } else {
            lemma_match_has_substitution(p, t.drop_first());
            let shorter = choose|fills: Seq<Seq<char>>|
                fills.len() == star_count(p) && #[trigger] substitute(p, fills) == t.drop_first();
            assert(star_count(p) >= 1);
            let fills = shorter.update(0, seq![t[0]] + shorter[0]);
            assert(fills.drop_first() =~= shorter.drop_first());
            let tail = substitute(p.drop_first(), shorter.drop_first());
            assert(substitute(p, shorter) == shorter[0] + tail);
            assert(substitute(p, fills) == (seq![t[0]] + shorter[0]) + tail);
            assert(t =~= seq![t[0]] + t.drop_first());
            assert(substitute(p, fills) =~= t);
        }
    } else {
        lemma_match_has_substitution(p.drop_first(), t.drop_first());
        let rest = choose|fills: Seq<Seq<char>>|
            fills.len() == star_count(p.drop_first()) && #[trigger] substitute(
                p.drop_first(),
                fills,
            ) == t.drop_first();
        assert(substitute(p, rest) =~= t);
    }
}

/// A pattern matches a text exactly when the text is the pattern with each `*`
/// replaced by some run of zero or more characters: the whole text is covered,
/// from its first character to its last.
pub proof fn lemma_wildcard_substitution(p: Seq<char>, t: Seq<char>)
    ensures
        glob_matches(p, t) <==> exists|fills: Seq<Seq<char>>|
            fills.len() == star_count(p) && #[trigger] substitute(p, fills) == t,
{
    if glob_matches(p, t) {
        lemma_match_has_substitution(p, t);
    }
    if exists|fills: Seq<Seq<char>>|
        fills.len() == star_count(p) && #[trigger] substitute(p, fills) == t {
        let fills = choose|fills: Seq<Seq<char>>|
            fills.len() == star_count(p) && #[trigger] substitute(p, fills) == t;
        lemma_substitution_matches(p, fills);
    }
}

proof fn lemma_suffix_step(s: Seq<char>, i: int)
    requires
        0 <= i < s.len(),
    ensures
        s.subrange(i, s.len() as int).drop_first() == s.subrange(i + 1, s.len() as int),
        s.subrange(i, s.len() as int)[0] == s[i],
        s.subrange(i, s.len() as int).len() == s.len() - i,
{
    assert(s.subrange(i, s.len() as int).drop_first() =~= s.subrange(i + 1, s.len() as int));
}

/// Decides `glob_matches(pattern, text)`, in time proportional to the product of the lengths.
pub fn pattern_matches(pattern: &Vec<char>, text: &Vec<char>) -> (r: bool)
    ensures
        r == glob_matches(pattern@, text@),
{
    let p = pattern;
    let t = text;
    let n = t.len();
    let ghost ps = p@;
    let ghost ts = t@;
    // row[j] == glob_matches(p[i..], t[j..]) for the current i, starting at i == p.len()
    let mut row: Vec<bool> = Vec::new();
    let mut j: usize = 0;
    while j < n
        invariant
            j <= n,
            n == ts.len(),
            row@.len() == j,
            forall|k: int| 0 <= k < j ==> row@[k] == false,
        decreases n - j,
    {
        row.push(false);
        j = j + 1;
    }
    row.push(true);
    proof {
        assert forall|k: int| 0 <= k <= n implies row@[k] == glob_matches(
            ps.subrange(p.len() as int, p.len() as int),
            ts.subrange(k, n as int),
        ) by {
            assert(ps.subrange(p.len() as int, p.len() as int).len() == 0);
        }
    }
    let mut i: usize = p.len();
    while i > 0
        invariant
            i <= p.len(),
            ps == p@,
            ts == t@,
            n == ts.len(),
            row@.len() == n + 1,
            forall|k: int|
                0 <= k <= n ==> row@[k] == glob_matches(
                    #[trigger] ps.subrange(i as int, ps.len() as int),
                    ts.subrange(k, n as int),
                ),
        decreases i,
    {
        let ii = i - 1;
        let c = p[ii];
        let mut next: Vec<bool> = Vec::new();
        let mut m: usize = 0;
        while m < n
            invariant
                m <= n,
                next@.len() == m,
            decreases n - m,
        {
            next.push(false);
            m = m + 1;
        }
        next.push(false);
        let mut k: usize = n;
        loop
            invariant
                ii + 1 == i,
                i <= p.len(),
                ps == p@,
                ts == t@,
                c == ps[ii as int],
                n == ts.len(),
                k <= n,
                row@.len() == n + 1,
                next@.len() == n + 1,
                forall|k: int|
                    0 <= k <= n ==> row@[k] == glob_matches(
                        #[trigger] ps.subrange(i as int, ps.len() as int),
                        ts.subrange(k, n as int),
                    ),
                forall|q: int|
                    k < q <= n ==> next@[q] == glob_matches(
                        #[trigger] ps.subrange(ii as int, ps.len() as int),
                        ts.subrange(q, n as int),
                    ),
            ensures
                next@.len() == n + 1,
                forall|q: int|
                    0 <= q <= n ==> next@[q] == glob_matches(
                        #[trigger] ps.subrange(ii as int, ps.len() as int),
                        ts.subrange(q, n as int),
                    ),
            decreases k,
        {
            proof {
                lemma_suffix_step(ps, ii as int);
                if k < n {
                    lemma_suffix_step(ts, k as int);
                }
                assert(ts.subrange(n as int, n as int).len() == 0);
            }
            let v = if c == '*' {
                row[k] || (k < n && next[k + 1])
            } else {
                k < n && t[k] == c && row[k + 1]
            };
            next.set(k, v);
            if k == 0 {
                break;
            }
            k = k - 1;
        }
        row = next;
        i = ii;
    }
    proof {
        assert(ps.subrange(0, ps.len() as int) == ps);
        assert(ts.subrange(0, n as int) == ts);
    }
    row[0]
}

} // verus!

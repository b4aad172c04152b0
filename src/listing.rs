//! Name-ordered listings of the configured hosts and aliases.
use vstd::prelude::*;
use vstd::multiset::Multiset;
use vstd::seq_lib::group_to_multiset_ensures;

verus! {

broadcast use group_to_multiset_ensures;

/// `a` comes strictly before `b` in the order of their characters.
pub open spec fn lex_lt(a: Seq<char>, b: Seq<char>) -> bool
    decreases a.len(),
{
    if a.len() == 0 {
        b.len() > 0
    } else if b.len() == 0 {
        false
    } else if a[0] != b[0] {
        (a[0] as u32) < (b[0] as u32)
    } else {
        lex_lt(a.drop_first(), b.drop_first())
    }
}

/// The order of characters is transitive.
pub proof fn lemma_lex_lt_transitive(a: Seq<char>, b: Seq<char>, c: Seq<char>)
    requires
        lex_lt(a, b),
        lex_lt(b, c),
    ensures
        lex_lt(a, c),
    decreases a.len(),
{
    if a.len() > 0 && b.len() > 0 && c.len() > 0 && a[0] == b[0] && b[0] == c[0] {
        lemma_lex_lt_transitive(a.drop_first(), b.drop_first(), c.drop_first());
    }
}

/// No text comes strictly before itself.
pub proof fn lemma_lex_lt_irreflexive(a: Seq<char>)
    ensures
        !lex_lt(a, a),
    decreases a.len(),
{
    if a.len() > 0 {
        lemma_lex_lt_irreflexive(a.drop_first());
    }
}

/// Whether `a` comes strictly before `b`.
pub fn str_lt(a: &str, b: &str) -> (r: bool)
    ensures
        r == lex_lt(a@, b@),
{
    let n = a.unicode_len();
    let m = b.unicode_len();
    let mut i: usize = 0;
    assert(a@.subrange(0, n as int) == a@);
    assert(b@.subrange(0, m as int) == b@);
    while i < n && i < m
        invariant
            n == a@.len(),
            m == b@.len(),
            i <= n,
            i <= m,
            lex_lt(a@.subrange(i as int, n as int), b@.subrange(i as int, m as int)) == lex_lt(
                a@,
                b@,
            ),
        decreases n - i,
    {
        let x = a.get_char(i);
        let y = b.get_char(i);
        let ghost sa = a@.subrange(i as int, n as int);
        let ghost sb = b@.subrange(i as int, m as int);
        assert(sa[0] == x && sb[0] == y);
        if x != y {
            return (x as u32) < (y as u32);
        }
        assert(sa.drop_first() == a@.subrange(i + 1, n as int));
        assert(sb.drop_first() == b@.subrange(i + 1, m as int));
        i = i + 1;
    }
    n - i == 0 && m - i > 0
}

/// The entries are in order of their names.
pub open spec fn sorted_by_name<V>(s: Seq<(String, V)>) -> bool {
    forall|i: int, j: int| 0 <= i < j < s.len() ==> !lex_lt((#[trigger] s[j]).0@, (#[trigger] s[i]).0@)
}

/// The first position whose name comes after `key`.
fn insertion_point<V>(v: &Vec<(String, V)>, key: &str) -> (p: usize)
    ensures
        p <= v@.len(),
        forall|i: int| 0 <= i < p ==> !lex_lt(key@, (#[trigger] v@[i]).0@),
        p < v@.len() ==> lex_lt(key@, v@[p as int].0@),
{
    let mut p: usize = 0;
    while p < v.len()
        invariant
            p <= v@.len(),
            forall|i: int| 0 <= i < p ==> !lex_lt(key@, (#[trigger] v@[i]).0@),
        decreases v@.len() - p,
    {
        if str_lt(key, v[p].0.as_str()) {
            return p;
        }
        p = p + 1;
    }
    p
}

/// Puts entries in order of their names, keeping every entry.
pub fn sort_by_name<V>(v: Vec<(String, V)>) -> (r: Vec<(String, V)>)
    ensures
        r@.to_multiset() == v@.to_multiset(),
        sorted_by_name(r@),
{
    let mut rest = v;
    let mut out: Vec<(String, V)> = Vec::new();
    let ghost all = rest@;
    while rest.len() > 0
        invariant
            out@.to_multiset().add(rest@.to_multiset()) == all.to_multiset(),
            sorted_by_name(out@),
        decreases rest@.len(),
    {
        let ghost before_rest = rest@;
        let ghost before_out = out@;
        let x = rest.pop().unwrap();
        assert(before_rest == rest@.push(x));
        let p = insertion_point(&out, x.0.as_str());
        let ghost xk = x.0@;
        let ghost xv = x;
        out.insert(p, x);
        proof {
            let o = out@;
            assert(o == before_out.insert(p as int, xv));
            assert forall|i: int, j: int| 0 <= i < j < o.len() implies !lex_lt(
                (#[trigger] o[j]).0@,
                (#[trigger] o[i]).0@,
            ) by {
                let pi = p as int;
                if j < pi {
                    assert(o[i] == before_out[i] && o[j] == before_out[j]);
                } else if j == pi {
                    assert(o[i] == before_out[i]);
                } else if i == pi {
                    assert(o[j] == before_out[j - 1]);
                    assert(lex_lt(xk, before_out[pi].0@));
                    if pi < j - 1 {
                        assert(!lex_lt(before_out[j - 1].0@, before_out[pi].0@));
                    }
                    if lex_lt(o[j].0@, xk) {
                        lemma_lex_lt_transitive(o[j].0@, xk, before_out[pi].0@);
                        lemma_lex_lt_irreflexive(before_out[pi].0@);
                    }
                } else if i < pi {
                    assert(o[i] == before_out[i] && o[j] == before_out[j - 1]);
                } else {
                    assert(o[i] == before_out[i - 1] && o[j] == before_out[j - 1]);
                }
            }
            assert(o.to_multiset() == before_out.to_multiset().insert(xv));
            assert(before_rest.to_multiset() == rest@.to_multiset().insert(xv));
            assert(o.to_multiset().add(rest@.to_multiset()) =~= before_out.to_multiset().add(
                before_rest.to_multiset(),
            ));
        }
    }
    assert(rest@.to_multiset() =~= Multiset::empty());
    assert(out@.to_multiset().add(Multiset::empty()) =~= out@.to_multiset());
    out
}

} // verus!

//! Substituting variables into a command does not depend on their order.
//! When no name or value holds a brace and the braces of the command do
//! not nest, replacing the placeholders one variable after another gives
//! what one pass from the left gives, replacing each placeholder of a
//! variable by its value and keeping every other character.

use vstd::prelude::*;
use crate::jobserver::template::{placeholder, replace_vars};
use crate::text::replace_all;

verus! {

/// Whether `c` is a brace.
pub open spec fn is_brace(c: char) -> bool {
    c == '{' || c == '}'
}

/// Whether `s` holds no brace.
pub open spec fn brace_free(s: Seq<char>) -> bool {
    forall|i: int| 0 <= i < s.len() ==> !is_brace(#[trigger] s[i])
}

/// Whether the braces of `s` do not nest: between two opening braces
/// there is a closing one.
pub open spec fn flat(s: Seq<char>) -> bool {
    forall|i: int, j: int|
        #![trigger s[i], s[j]]
        0 <= i < j < s.len() && s[i] == '{' && s[j] == '{' ==> exists|p: int| i < p < j && #[trigger] s[p] == '}'
}

/// Whether `s` begins with `pat`.
pub open spec fn begins(s: Seq<char>, pat: Seq<char>) -> bool {
    pat.len() <= s.len() && s.take(pat.len() as int) == pat
}

/// The value of each variable, by name (a later entry wins).
pub open spec fn vars_map(vars: Seq<(String, String)>) -> Map<Seq<char>, Seq<char>>
    decreases vars.len(),
{
    if vars.len() == 0 {
        Map::empty()
    } else {
        vars_map(vars.drop_last()).insert(vars.last().0@, vars.last().1@)
    }
}

/// Whether the variables have distinct names, and no name or value holds a
/// brace.
pub open spec fn plain_vars(vars: Seq<(String, String)>) -> bool {
    &&& forall|i: int, j: int| 0 <= i < j < vars.len() ==> (#[trigger] vars[i]).0@ != (#[trigger] vars[j]).0@
    &&& forall|i: int| 0 <= i < vars.len() ==> brace_free((#[trigger] vars[i]).0@) && brace_free(vars[i].1@)
}

/// Whether no name or value of `m` holds a brace.
pub open spec fn plain_map(m: Map<Seq<char>, Seq<char>>) -> bool {
    forall|j: Seq<char>| #[trigger] m.dom().contains(j) ==> brace_free(j) && brace_free(m[j])
}

/// One pass over `s` from the left: a placeholder of a name of `m` is
/// replaced by its value; every other character is kept.
pub open spec fn subst(s: Seq<char>, m: Map<Seq<char>, Seq<char>>) -> Seq<char>
    decreases s.len(),
{
    if s.len() == 0 {
        s
    } else if exists|k: Seq<char>| m.dom().contains(k) && begins(s, placeholder(k)) {
        let k = choose|k: Seq<char>| m.dom().contains(k) && begins(s, placeholder(k));
        m[k] + subst(s.skip(placeholder(k).len() as int), m)
    } else {
        seq![s[0]] + subst(s.skip(1), m)
    }
}

/// The length of the run of characters other than braces that begins `t`.
spec fn run_len(t: Seq<char>) -> nat
    decreases t.len(),
{
    if t.len() == 0 || is_brace(t[0]) {
        0
    } else {
        1 + run_len(t.skip(1))
    }
}

proof fn lemma_run(t: Seq<char>)
    ensures
        run_len(t) <= t.len(),
        brace_free(t.take(run_len(t) as int)),
        run_len(t) < t.len() ==> is_brace(t[run_len(t) as int]),
    decreases t.len(),
{
    if t.len() > 0 && !is_brace(t[0]) {
        lemma_run(t.skip(1));
        let n = run_len(t.skip(1)) as int;
        assert forall|i: int| 0 <= i < n + 1 implies !is_brace(#[trigger] t.take(n + 1)[i]) by {
            if i > 0 {
                assert(t.take(n + 1)[i] == t.skip(1).take(n)[i - 1]);
            }
        }
        if n + 1 < t.len() {
            assert(t[n + 1] == t.skip(1)[n]);
        }
    }
}

proof fn lemma_flat_skip(s: Seq<char>, n: int)
    requires
        flat(s),
        0 <= n <= s.len(),
    ensures
        flat(s.skip(n)),
{
    let t = s.skip(n);
    assert forall|i: int, j: int| 0 <= i < j < t.len() && t[i] == '{' && t[j] == '{' implies exists|p: int|
        i < p < j && #[trigger] t[p] == '}' by {
        assert(s[i + n] == '{' && s[j + n] == '{');
        let p = choose|p: int| i + n < p < j + n && #[trigger] s[p] == '}';
        assert(t[p - n] == '}');
    }
}

/// Replacing a placeholder leaves alone a prefix without an opening brace.
proof fn lemma_replace_after(a: Seq<char>, b: Seq<char>, pat: Seq<char>, rep: Seq<char>)
    requires
        pat.len() > 0,
        pat[0] == '{',
        forall|i: int| 0 <= i < a.len() ==> #[trigger] a[i] != '{',
    ensures
        replace_all(a + b, pat, rep) == a + replace_all(b, pat, rep),
    decreases a.len(),
{
    if a.len() == 0 {
        assert(a + b =~= b);
    } else {
        let s = a + b;
        if pat.len() <= s.len() {
            assert(s.take(pat.len() as int)[0] == a[0]);
        }
        assert(s.skip(1) =~= a.skip(1) + b);
        lemma_replace_after(a.skip(1), b, pat, rep);
        assert(seq![s[0]] + (a.skip(1) + replace_all(b, pat, rep)) =~= a + replace_all(b, pat, rep));
    }
}

/// One pass leaves alone a prefix without an opening brace.
proof fn lemma_subst_after(a: Seq<char>, b: Seq<char>, m: Map<Seq<char>, Seq<char>>)
    requires
        forall|i: int| 0 <= i < a.len() ==> #[trigger] a[i] != '{',
    ensures
        subst(a + b, m) == a + subst(b, m),
    decreases a.len(),
{
    if a.len() == 0 {
        assert(a + b =~= b);
    } else {
        let s = a + b;
        assert(!exists|k: Seq<char>| m.dom().contains(k) && begins(s, placeholder(k))) by {
            if exists|k: Seq<char>| m.dom().contains(k) && begins(s, placeholder(k)) {
                let k = choose|k: Seq<char>| m.dom().contains(k) && begins(s, placeholder(k));
                assert(s.take(placeholder(k).len() as int)[0] == s[0]);
                assert(placeholder(k)[0] == '{');
            }
        }
        assert(s.skip(1) =~= a.skip(1) + b);
        lemma_subst_after(a.skip(1), b, m);
        assert(seq![s[0]] + (a.skip(1) + subst(b, m)) =~= a + subst(b, m));
    }
}

/// At most one placeholder of a name without braces begins a string.
proof fn lemma_one_placeholder(s: Seq<char>, k1: Seq<char>, k2: Seq<char>)
    requires
        brace_free(k1),
        brace_free(k2),
        begins(s, placeholder(k1)),
        begins(s, placeholder(k2)),
    ensures
        k1 == k2,
{
    let p1 = placeholder(k1);
    let p2 = placeholder(k2);
    assert(forall|i: int| 0 <= i < p1.len() ==> s[i] == #[trigger] p1[i]) by {
        assert forall|i: int| 0 <= i < p1.len() implies s[i] == #[trigger] p1[i] by {
            assert(s.take(p1.len() as int)[i] == s[i]);
        }
    }
    assert(forall|i: int| 0 <= i < p2.len() ==> s[i] == #[trigger] p2[i]) by {
        assert forall|i: int| 0 <= i < p2.len() implies s[i] == #[trigger] p2[i] by {
            assert(s.take(p2.len() as int)[i] == s[i]);
        }
    }
    if k1.len() < k2.len() {
        let q = k1.len() + 1int;
        assert(p1[q] == '}');
        assert(p2[q] == k2[q - 1]);
        assert(!is_brace(k2[q - 1]));
    } else if k2.len() < k1.len() {
        let q = k2.len() + 1int;
        assert(p2[q] == '}');
        assert(p1[q] == k1[q - 1]);
        assert(!is_brace(k1[q - 1]));
    } else {
        assert forall|i: int| 0 <= i < k1.len() implies k1[i] == k2[i] by {
            assert(p1[i + 1] == k1[i]);
            assert(p2[i + 1] == k2[i]);
        }
        assert(k1 =~= k2);
    }
}

/// Replacing the placeholder of a new variable after one pass with the
/// other variables is one pass with all of them.
proof fn lemma_subst_insert(s: Seq<char>, m: Map<Seq<char>, Seq<char>>, k: Seq<char>, v: Seq<char>)
    requires
        flat(s),
        plain_map(m),
        !m.dom().contains(k),
        brace_free(k),
        brace_free(v),
    ensures
        replace_all(subst(s, m), placeholder(k), v) == subst(s, m.insert(k, v)),
    decreases s.len(),
{
    let pk = placeholder(k);
    let m2 = m.insert(k, v);
    assert(plain_map(m2));
    assert(pk[0] == '{');
    if s.len() == 0 {
        return;
    }
    let in_m = exists|j: Seq<char>| m.dom().contains(j) && begins(s, placeholder(j));
    let in_m2 = exists|j: Seq<char>| m2.dom().contains(j) && begins(s, placeholder(j));
    if in_m {
        let j = choose|j: Seq<char>| m.dom().contains(j) && begins(s, placeholder(j));
        let pj = placeholder(j);
        let rest = s.skip(pj.len() as int);
        lemma_flat_skip(s, pj.len() as int);
        lemma_subst_insert(rest, m, k, v);
        assert forall|i: int| 0 <= i < m[j].len() implies #[trigger] m[j][i] != '{' by {
            assert(!is_brace(m[j][i]));
        }
        lemma_replace_after(m[j], subst(rest, m), pk, v);
        assert(m2.dom().contains(j));
        assert(in_m2);
        let j2 = choose|j2: Seq<char>| m2.dom().contains(j2) && begins(s, placeholder(j2));
        lemma_one_placeholder(s, j, j2);
        assert(m2[j] == m[j]);
    } else if begins(s, pk) {
        let rest = s.skip(pk.len() as int);
        let t = s.skip(1);
        let a = k + seq!['}'];
        assert(t =~= a + rest) by {
            assert forall|i: int| 0 <= i < t.len() implies t[i] == (a + rest)[i] by {
                if i < a.len() {
                    assert(s.take(pk.len() as int)[i + 1] == s[i + 1]);
                    assert(pk[i + 1] == a[i]);
                }
            }
        }
        assert forall|i: int| 0 <= i < a.len() implies #[trigger] a[i] != '{' by {
            if i < k.len() {
                assert(!is_brace(k[i]));
            }
        }
        lemma_subst_after(a, rest, m);
        assert(s[0] == '{') by {
            assert(s.take(pk.len() as int)[0] == s[0]);
        }
        let y = subst(rest, m);
        let whole = pk + y;
        assert(subst(s, m) =~= whole) by {
            assert(seq![s[0]] + (a + y) =~= pk + y);
        }
        assert(whole.take(pk.len() as int) =~= pk);
        assert(whole.skip(pk.len() as int) =~= y);
        lemma_flat_skip(s, pk.len() as int);
        lemma_subst_insert(rest, m, k, v);
        assert(m2.dom().contains(k));
        assert(in_m2);
        let j2 = choose|j2: Seq<char>| m2.dom().contains(j2) && begins(s, placeholder(j2));
        lemma_one_placeholder(s, k, j2);
    } else {
        assert(!in_m2) by {
            if in_m2 {
                let j2 = choose|j2: Seq<char>| m2.dom().contains(j2) && begins(s, placeholder(j2));
                assert(j2 == k);
            }
        }
        let t = s.skip(1);
        lemma_flat_skip(s, 1);
        lemma_subst_insert(t, m, k, v);
        let y = subst(t, m);
        assert(subst(s, m) == seq![s[0]] + y);
        let whole = seq![s[0]] + y;
        assert(!begins(whole, pk)) by {
            if begins(whole, pk) {
                assert(whole.take(pk.len() as int)[0] == s[0]);
                assert(s[0] == '{');
                lemma_run(t);
                let n = run_len(t) as int;
                let c = t.take(n);
                let t2 = t.skip(n);
                assert(t =~= c + t2);
                assert forall|i: int| 0 <= i < c.len() implies #[trigger] c[i] != '{' by {
                    assert(!is_brace(c[i]));
                }
                lemma_subst_after(c, t2, m);
                // What follows the run is a closing brace or nothing.
                let closed = n < t.len();
                if closed {
                    if t[n] == '{' {
                        assert(s[0] == '{' && s[n + 1] == '{');
                        let p = choose|p: int| 0 < p < n + 1 && #[trigger] s[p] == '}';
                        assert(c[p - 1] == s[p]);
                        assert(!is_brace(c[p - 1]));
                    }
                    assert(t2[0] == '}');
                    assert(!exists|j: Seq<char>| m.dom().contains(j) && begins(t2, placeholder(j))) by {
                        if exists|j: Seq<char>| m.dom().contains(j) && begins(t2, placeholder(j)) {
                            let j = choose|j: Seq<char>| m.dom().contains(j) && begins(t2, placeholder(j));
                            assert(t2.take(placeholder(j).len() as int)[0] == t2[0]);
                        }
                    }
                }
                // The placeholder's closing brace falls in the run or after
                // it; either way the run would have to be the name.
                let q = k.len() + 1int;
                assert(whole[q] == '}') by {
                    assert(whole.take(pk.len() as int)[q] == whole[q]);
                }
                assert(y == c + subst(t2, m));
                if q <= n {
                    assert(whole[q] == c[q - 1]);
                    assert(!is_brace(c[q - 1]));
                } else {
                    assert(closed);
                    assert(whole[n + 1] == subst(t2, m)[0]);
                    assert(subst(t2, m)[0] == '}');
                    assert(whole.take(pk.len() as int)[n + 1] == whole[n + 1]);
                    if k.len() > n {
                        assert(pk[n + 1] == k[n]);
                        assert(!is_brace(k[n]));
                    } else {
                        // The run is the name, so the placeholder begins `s`.
                        assert(k.len() == n);
                        assert(s.take(pk.len() as int) =~= pk) by {
                            assert forall|i: int| 0 <= i < pk.len() implies s.take(pk.len() as int)[i] == pk[i] by {
                                assert(whole.take(pk.len() as int)[i] == whole[i]);
                                if 0 < i <= n {
                                    assert(s[i] == t[i - 1]);
                                    assert(whole[i] == c[i - 1]);
                                    assert(c[i - 1] == t[i - 1]);
                                } else if i == n + 1 {
                                    assert(s[i] == t[n]);
                                }
                            }
                        }
                        assert(begins(s, pk));
                    }
                }
            }
        }
        assert(whole.skip(1) =~= y);
    }
}

proof fn lemma_subst_empty(s: Seq<char>)
    ensures
        subst(s, Map::empty()) == s,
    decreases s.len(),
{
    if s.len() > 0 {
        lemma_subst_empty(s.skip(1));
        assert(seq![s[0]] + s.skip(1) =~= s);
    }
}

proof fn lemma_vars_map(vars: Seq<(String, String)>)
    requires
        plain_vars(vars),
    ensures
        plain_map(vars_map(vars)),
        forall|n: Seq<char>|
            vars_map(vars).dom().contains(n) <==> exists|i: int| 0 <= i < vars.len() && (#[trigger] vars[i]).0@ == n,
        forall|i: int| 0 <= i < vars.len() ==> vars_map(vars)[(#[trigger] vars[i]).0@] == vars[i].1@,
    decreases vars.len(),
{
    if vars.len() > 0 {
        let d = vars.drop_last();
        assert forall|i: int, j: int| 0 <= i < j < d.len() implies (#[trigger] d[i]).0@ != (#[trigger] d[j]).0@ by {
            assert(d[i] == vars[i] && d[j] == vars[j]);
        }
        assert forall|i: int| 0 <= i < d.len() implies brace_free((#[trigger] d[i]).0@) && brace_free(d[i].1@) by {
            assert(d[i] == vars[i]);
        }
        lemma_vars_map(d);
        let last = vars.last();
        assert(brace_free(vars[vars.len() - 1].0@));
        assert forall|n: Seq<char>|
            vars_map(vars).dom().contains(n) <==> exists|i: int| 0 <= i < vars.len() && (#[trigger] vars[i]).0@ == n by {
            if vars_map(d).dom().contains(n) {
                let i = choose|i: int| 0 <= i < d.len() && (#[trigger] d[i]).0@ == n;
                assert(vars[i] == d[i]);
            }
            if exists|i: int| 0 <= i < vars.len() && (#[trigger] vars[i]).0@ == n {
                let i = choose|i: int| 0 <= i < vars.len() && (#[trigger] vars[i]).0@ == n;
                if i < d.len() {
                    assert(d[i] == vars[i]);
                }
            }
        }
        assert forall|i: int| 0 <= i < vars.len() implies vars_map(vars)[(#[trigger] vars[i]).0@] == vars[i].1@ by {
            if i < d.len() {
                assert(d[i] == vars[i]);
                assert(vars[i].0@ != last.0@);
            }
        }
    }
}

/// Replacing the variables one after another is one pass with all of them.
proof fn lemma_replace_vars_subst(cmd: Seq<char>, vars: Seq<(String, String)>)
    requires
        flat(cmd),
        plain_vars(vars),
    ensures
        replace_vars(cmd, vars) == subst(cmd, vars_map(vars)),
    decreases vars.len(),
{
    if vars.len() == 0 {
        lemma_subst_empty(cmd);
    } else {
        let d = vars.drop_last();
        assert forall|i: int, j: int| 0 <= i < j < d.len() implies (#[trigger] d[i]).0@ != (#[trigger] d[j]).0@ by {
            assert(d[i] == vars[i] && d[j] == vars[j]);
        }
        assert forall|i: int| 0 <= i < d.len() implies brace_free((#[trigger] d[i]).0@) && brace_free(d[i].1@) by {
            assert(d[i] == vars[i]);
        }
        lemma_replace_vars_subst(cmd, d);
        lemma_vars_map(d);
        let last = vars[vars.len() - 1];
        assert(!vars_map(d).dom().contains(last.0@)) by {
            if vars_map(d).dom().contains(last.0@) {
                let i = choose|i: int| 0 <= i < d.len() && (#[trigger] d[i]).0@ == last.0@;
                assert(d[i] == vars[i]);
            }
        }
        lemma_subst_insert(cmd, vars_map(d), last.0@, last.1@);
    }
}

/// Substituting variables does not depend on their order. For a command
/// whose braces do not nest and variables with distinct names and no brace
/// in a name or value, replacing the placeholders one variable after
/// another gives one pass from the left that replaces the placeholder of
/// each variable by its value and keeps everything else (placeholders of
/// other names such as `{MACHINE}` among it); so the same variables listed
/// in any other order give the same command.
pub proof fn law_replace_vars_order_free(cmd: Seq<char>, vars: Seq<(String, String)>, other: Seq<(String, String)>)
    requires
        flat(cmd),
        plain_vars(vars),
        plain_vars(other),
        forall|p: (String, String)| vars.contains(p) <==> other.contains(p),
    ensures
        replace_vars(cmd, vars) == subst(cmd, vars_map(vars)),
        replace_vars(cmd, vars) == replace_vars(cmd, other),
{
    lemma_replace_vars_subst(cmd, vars);
    lemma_replace_vars_subst(cmd, other);
    lemma_vars_map(vars);
    lemma_vars_map(other);
    let a = vars_map(vars);
    let b = vars_map(other);
    assert forall|n: Seq<char>| a.dom().contains(n) implies b.dom().contains(n) && a[n] == b[n] by {
        let i = choose|i: int| 0 <= i < vars.len() && (#[trigger] vars[i]).0@ == n;
        assert(vars.contains(vars[i]));
        assert(other.contains(vars[i]));
        let j = choose|j: int| 0 <= j < other.len() && other[j] == vars[i];
        assert(other[j].0@ == n);
    }
    assert forall|n: Seq<char>| b.dom().contains(n) implies a.dom().contains(n) by {
        let j = choose|j: int| 0 <= j < other.len() && (#[trigger] other[j]).0@ == n;
        assert(other.contains(other[j]));
        assert(vars.contains(other[j]));
        let i = choose|i: int| 0 <= i < vars.len() && vars[i] == other[j];
        assert(vars[i].0@ == n);
    }
    assert(a =~= b);
}

} // verus!

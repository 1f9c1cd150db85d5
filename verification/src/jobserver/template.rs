//! Command templates: substituting variables and the machine name into a
//! command, naming its log file, and enumerating the configurations of a
//! job matrix.

use vstd::prelude::*;
use itertools::Itertools;
use crate::text::{
    byte_len, on_boundary, owned, prefix_bytes, push_char, push_str, replace_all, replace_str,
    truncate_bytes,
};

verus! {

/// The placeholder `{key}` that stands for the variable `key` in a command.
pub open spec fn placeholder(key: Seq<char>) -> Seq<char> {
    seq!['{'] + key + seq!['}']
}

/// `cmd` with the placeholder of each variable replaced by its value, the
/// variables taken in the order of the list.
pub open spec fn replace_vars(cmd: Seq<char>, vars: Seq<(String, String)>) -> Seq<char>
    decreases vars.len(),
{
    if vars.len() == 0 {
        cmd
    } else {
        replace_all(
            replace_vars(cmd, vars.drop_last()),
            placeholder(vars.last().0@),
            vars.last().1@,
        )
    }
}

/// Replaces the placeholder `{key}` of each variable in `cmd` by its value.
pub fn cmd_replace_vars(cmd: &str, vars: &Vec<(String, String)>) -> (r: String)
    ensures
        r@ == replace_vars(cmd@, vars@),
{
    let mut acc = owned(cmd);
    let mut i: usize = 0;
    while i < vars.len()
        invariant
            i <= vars@.len(),
            acc@ == replace_vars(cmd@, vars@.take(i as int)),
        decreases vars@.len() - i,
    {
        let mut pat = String::new();
        push_char(&mut pat, '{');
        push_str(&mut pat, vars[i].0.as_str());
        push_char(&mut pat, '}');
        assert(pat@ =~= placeholder(vars@[i as int].0@));
        acc = replace_str(acc.as_str(), pat.as_str(), vars[i].1.as_str());
        assert(vars@.take(i + 1).drop_last() =~= vars@.take(i as int));
        i = i + 1;
    }
    assert(vars@.take(vars@.len() as int) =~= vars@);
    acc
}

/// `cmd` with `{MACHINE}` replaced by the machine name.
pub open spec fn replace_machine(cmd: Seq<char>, machine: Seq<char>) -> Seq<char> {
    replace_all(cmd, "{MACHINE}"@, machine)
}

/// Replaces `{MACHINE}` in `cmd` by `machine`.
pub fn cmd_replace_machine(cmd: &str, machine: &str) -> (r: String)
    ensures
        r@ == replace_machine(cmd@, machine@),
{
    proof {
        reveal_strlit("{MACHINE}");
    }
    replace_str(cmd, "{MACHINE}", machine)
}

/// `cmd` with spaces, braces and slashes turned into underscores.
pub open spec fn sanitize_path(cmd: Seq<char>) -> Seq<char> {
    replace_all(
        replace_all(replace_all(replace_all(cmd, " "@, "_"@), "{"@, "_"@), "}"@, "_"@),
        "/"@,
        "_"@,
    )
}

/// The log file of a command before truncation: `/tmp/` followed by the
/// sanitized command.
pub open spec fn log_path_full(cmd: Seq<char>) -> Seq<char> {
    "/tmp/"@ + sanitize_path(cmd)
}

/// The path of the file that holds the output of `cmd`: its full log path
/// cut to at most 200 bytes.
pub open spec fn log_path(cmd: Seq<char>) -> Seq<char> {
    prefix_bytes(log_path_full(cmd), 200)
}

/// Whether the log path of `cmd` can be cut at 200 bytes without splitting
/// a character (`String::truncate` panics otherwise).
pub open spec fn log_path_cuttable(cmd: Seq<char>) -> bool {
    byte_len(log_path_full(cmd)) <= 200 || on_boundary(log_path_full(cmd), 200)
}

/// Whether the log path of `cmd` can be cut to 200 bytes (`cmd_to_path`
/// cuts it, which panics inside a character).
pub fn cmd_to_path_ok(cmd: &str) -> (r: bool)
    ensures
        r == log_path_cuttable(cmd@),
{
    proof {
        reveal_strlit(" ");
        reveal_strlit("{");
        reveal_strlit("}");
        reveal_strlit("/");
    }
    let a = replace_str(cmd, " ", "_");
    let b = replace_str(a.as_str(), "{", "_");
    let c = replace_str(b.as_str(), "}", "_");
    let d = replace_str(c.as_str(), "/", "_");
    let mut name = owned("/tmp/");
    push_str(&mut name, d.as_str());
    crate::text::cuttable(name.as_str(), 200)
}

/// The path of the file that holds the output of `cmd`.
pub fn cmd_to_path(cmd: &str) -> (r: String)
    requires
        log_path_cuttable(cmd@),
    ensures
        r@ == log_path(cmd@),
        byte_len(r@) <= 200,
{
    proof {
        reveal_strlit(" ");
        reveal_strlit("{");
        reveal_strlit("}");
        reveal_strlit("/");
    }
    let a = replace_str(cmd, " ", "_");
    let b = replace_str(a.as_str(), "{", "_");
    let c = replace_str(b.as_str(), "}", "_");
    let d = replace_str(c.as_str(), "/", "_");
    let mut name = owned("/tmp/");
    push_str(&mut name, d.as_str());
    truncate_bytes(name.as_str(), 200)
}

/// The log file that records the standard error of a command whose output
/// goes to `path`.
pub fn err_path(path: &str) -> (r: String)
    ensures
        r@ == path@ + ".err"@,
{
    let mut r = owned(path);
    push_str(&mut r, ".err");
    r
}

// ---------------------------------------------------------------------------
// Cartesian products.

/// The Cartesian product of `lists` in lexicographic order: the last list
/// varies fastest; the product of no lists is one empty tuple.
pub open spec fn product<T>(lists: Seq<Seq<T>>) -> Seq<Seq<T>>
    decreases lists.len(),
{
    if lists.len() == 0 {
        seq![Seq::empty()]
    } else {
        let rest = product(lists.drop_first());
        lists[0].map_values(|x: T| rest.map_values(|r: Seq<T>| seq![x] + r)).flatten()
    }
}

/// The contents of a list of lists of pairs.
pub open spec fn lists_view(v: Seq<Vec<(String, String)>>) -> Seq<Seq<(String, String)>> {
    v.map_values(|l: Vec<(String, String)>| l@)
}

/// The Cartesian product of the lists
/// (`Itertools::multi_cartesian_product`). The crate documents the order
/// (lexicographic, the last list varying fastest) and that an empty list of
/// lists yields one empty tuple; its items are clones, which for strings
/// are equal to the strings they copy.
#[verifier::external_body]
fn multi_product(lists: Vec<Vec<(String, String)>>) -> (r: Vec<Vec<(String, String)>>)
    ensures
        lists_view(r@) == product(lists_view(lists@)),
{
    lists.into_iter().multi_cartesian_product().collect()
}

/// The assignments `(key, value)` of one variable to each of its values.
pub open spec fn choices(var: (String, Vec<String>)) -> Seq<(String, String)> {
    var.1@.map_values(|v: String| (var.0, v))
}

/// For each variable, the assignments of it to each of its values.
pub open spec fn all_choices(vars: Seq<(String, Vec<String>)>) -> Seq<Seq<(String, String)>> {
    vars.map_values(|var: (String, Vec<String>)| choices(var))
}

/// Every configuration of the variables: one value for each variable, in the
/// order of the product of their values.
pub fn cartesian_product(vars: &Vec<(String, Vec<String>)>) -> (r: Vec<Vec<(String, String)>>)
    ensures
        lists_view(r@) == product(all_choices(vars@)),
{
    let mut lists: Vec<Vec<(String, String)>> = Vec::new();
    let mut i: usize = 0;
    while i < vars.len()
        invariant
            i <= vars@.len(),
            lists_view(lists@) == all_choices(vars@).take(i as int),
        decreases vars@.len() - i,
    {
        let key = &vars[i].0;
        let values = &vars[i].1;
        let mut l: Vec<(String, String)> = Vec::new();
        let mut j: usize = 0;
        while j < values.len()
            invariant
                i < vars@.len(),
                lists_view(lists@) == all_choices(vars@).take(i as int),
                j <= values@.len(),
                l@ == choices(vars@[i as int]).take(j as int),
                key == vars@[i as int].0,
                values == vars@[i as int].1,
            decreases values@.len() - j,
        {
            l.push((key.clone(), values[j].clone()));
            j = j + 1;
            assert(l@ =~= choices(vars@[i as int]).take(j as int));
        }
        assert(choices(vars@[i as int]).take(j as int) =~= choices(vars@[i as int]));
        let ghost before = lists@;
        let ghost lv = l@;
        lists.push(l);
        assert(lists@ == before.push(lists@.last()));
        assert(lv == choices(vars@[i as int]));
        assert(lists_view(before).len() == i);
        assert(before.len() == i);
        assert(lists@[i as int]@ == lv);
        assert(lists@.len() == i + 1);
        assert forall|k: int| 0 <= k < i + 1 implies #[trigger] lists_view(lists@)[k] == all_choices(vars@).take(i + 1)[k] by {
            if k < i {
                assert(lists@[k] == before[k]);
                assert(lists_view(before)[k] == all_choices(vars@).take(i as int)[k]);
            }
        }
        i = i + 1;
        assert(lists_view(lists@) =~= all_choices(vars@).take(i as int));
    }
    assert(all_choices(vars@).take(vars@.len() as int) =~= all_choices(vars@));
    multi_product(lists)
}

} // verus!

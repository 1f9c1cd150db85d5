//! The research settings a setup leaves on a machine (in
//! `research-settings.json`): named values, each kept as JSON text, which
//! later experiments read back.

use vstd::prelude::*;
use crate::jobserver::requests::vars_with;
use crate::jobserver::server::{has_var, var_pos, vars_unique};
use crate::runner::cmd::{cmd, Cmd};
use crate::runner::zerosim::{vagrant_dir, vagrant_path};
use crate::text::{owned, push_str, str_eq};

verus! {

/// The research settings of a machine: names with their JSON values, each
/// name once.
pub struct ResearchSettings {
    pub entries: Vec<(String, String)>,
}

impl ResearchSettings {
    /// Each name occurs once.
    pub open spec fn wf(&self) -> bool {
        vars_unique(self.entries@)
    }

    /// No settings.
    pub fn new() -> (r: ResearchSettings)
        ensures
            r.wf(),
            r.entries@.len() == 0,
    {
        ResearchSettings { entries: Vec::new() }
    }

    fn find(&self, name: &str) -> (r: Option<usize>)
        requires
            self.wf(),
        ensures
            r matches Some(i) ==> has_var(self.entries@, name@) && i == var_pos(self.entries@, name@),
            r is None ==> !has_var(self.entries@, name@),
    {
        let mut i: usize = 0;
        while i < self.entries.len()
            invariant
                vars_unique(self.entries@),
                i <= self.entries@.len(),
                forall|k: int| 0 <= k < i ==> (#[trigger] self.entries@[k]).0@ != name@,
            decreases self.entries@.len() - i,
        {
            if str_eq(self.entries[i].0.as_str(), name) {
                assert(has_var(self.entries@, name@));
                let ghost p = var_pos(self.entries@, name@);
                assert(p == i);
                return Some(i);
            }
            i = i + 1;
        }
        None
    }

    /// The JSON value of setting `name`, if it is set.
    pub fn get(&self, name: &str) -> (r: Option<String>)
        requires
            self.wf(),
        ensures
            match r {
                Some(v) => has_var(self.entries@, name@) && v == self.entries@[var_pos(self.entries@, name@)].1,
                None => !has_var(self.entries@, name@),
            },
    {
        match self.find(name) {
            Some(i) => Some(self.entries[i].1.clone()),
            None => None,
        }
    }

    /// Sets `name` to the JSON text `value`, replacing any earlier value.
    pub fn set(&mut self, name: String, value: String)
        requires
            old(self).wf(),
        ensures
            final(self).wf(),
            final(self).entries@ == vars_with(old(self).entries@, name, value),
    {
        match self.find(name.as_str()) {
            Some(p) => {
                self.entries[p].1 = value;
            },
            None => {
                proof {
                    assert forall|i: int, j: int|
                        0 <= i < self.entries@.len() + 1 && 0 <= j < self.entries@.len() + 1 && i != j
                            implies (#[trigger] self.entries@.push((name, value))[i]).0@
                            != (#[trigger] self.entries@.push((name, value))[j]).0@ by {
                        if i == self.entries@.len() {
                            assert(self.entries@[j].0@ != name@);
                        } else if j == self.entries@.len() {
                            assert(self.entries@[i].0@ != name@);
                        }
                    }
                }
                self.entries.push((name, value));
            },
        }
    }
}

/// After `set`, `get` of the same name gives the value that was set, and
/// `get` of any other name gives what it gave before: the same value, or
/// nothing if it was not set. `post` is `pre` after `set(name, value)`.
pub proof fn law_set_then_get(pre: ResearchSettings, post: ResearchSettings, name: String, value: String, other: Seq<char>)
    requires
        pre.wf(),
        post.entries@ == vars_with(pre.entries@, name, value),
    ensures
        post.wf(),
        has_var(post.entries@, name@),
        post.entries@[var_pos(post.entries@, name@)].1 == value,
        other != name@ ==> has_var(post.entries@, other) == has_var(pre.entries@, other),
        other != name@ && has_var(pre.entries@, other) ==> post.entries@[var_pos(post.entries@, other)].1
            == pre.entries@[var_pos(pre.entries@, other)].1,
{
    lemma_vars_with_read(pre.entries@, name, value, other);
    let s = pre.entries@;
    let t = post.entries@;
    assert forall|i: int, j: int| 0 <= i < t.len() && 0 <= j < t.len() && i != j implies (#[trigger] t[i]).0@
        != (#[trigger] t[j]).0@ by {
        if has_var(s, name@) {
            let p = var_pos(s, name@);
            assert(t[i].0 == s[i].0 && t[j].0 == s[j].0);
        } else if i == s.len() {
            assert(t[j] == s[j]);
        } else if j == s.len() {
            assert(t[i] == s[i]);
        } else {
            assert(t[i] == s[i] && t[j] == s[j]);
        }
    }
}

/// What the entries say of each name after `name` is set to `value`.
proof fn lemma_vars_with_read(s: Seq<(String, String)>, name: String, value: String, other: Seq<char>)
    requires
        vars_unique(s),
    ensures
        has_var(vars_with(s, name, value), name@),
        vars_with(s, name, value)[var_pos(vars_with(s, name, value), name@)].1 == value,
        other != name@ ==> has_var(vars_with(s, name, value), other) == has_var(s, other),
        other != name@ && has_var(s, other) ==> vars_with(s, name, value)[var_pos(vars_with(s, name, value), other)].1
            == s[var_pos(s, other)].1,
{
    let t = vars_with(s, name, value);
    if has_var(s, name@) {
        let p = var_pos(s, name@);
        assert(t[p].0@ == name@);
        let q = var_pos(t, name@);
        assert(q == p) by {
            if q != p {
                assert(t[q] == s[q]);
                assert(s[q].0@ != s[p].0@);
            }
        }
    } else {
        let p = s.len() as int;
        assert(t[p].0@ == name@);
        let q = var_pos(t, name@);
        assert(q == p) by {
            if q != p {
                assert(t[q] == s[q]);
            }
        }
    }
    if other != name@ {
        if has_var(s, other) {
            let i = var_pos(s, other);
            assert(t[i] == s[i]);
            let j = var_pos(t, other);
            assert(j == i) by {
                if j != i {
                    if j < s.len() {
                        assert(t[j] == s[j]);
                        assert(s[j].0@ != s[i].0@);
                    } else {
                        assert(t[j].0@ == name@);
                    }
                }
            }
        }
        if has_var(t, other) {
            let j = var_pos(t, other);
            if j < s.len() {
                assert(s[j].0@ == t[j].0@);
            }
        }
    }
}

/// The command that prints a short random tag for a new VM domain.
pub fn domain_tag_cmd() -> (r: Cmd)
    ensures
        r.cmd@ == "date | sha256sum | head -c 10"@,
        r.cwd is None && !r.use_bash && !r.allow_error,
{
    cmd("date | sha256sum | head -c 10")
}

/// The command that gives the VM's domain in the Vagrantfile the tag `tag`.
pub fn new_domain_cmd(tag: &str) -> (r: Cmd)
    ensures
        r.cmd@ == "sed -i 's/:test_vm/:test_vm_"@ + tag@ + "/' Vagrantfile"@,
        (r.cwd matches Some(d) && d@ == vagrant_path()) && !r.use_bash && !r.allow_error,
{
    let mut c = owned("sed -i 's/:test_vm/:test_vm_");
    push_str(&mut c, tag);
    push_str(&mut c, "/' Vagrantfile");
    let dir = vagrant_dir();
    Cmd::new(c).cwd(dir.as_str())
}

} // verus!

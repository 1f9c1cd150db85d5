//! The workloads of the experiment that collects swapping statistics while
//! a workload runs: their names in the results file and back.

use vstd::prelude::*;

verus! {

/// The workload an experiment run measures.
#[derive(Debug, Copy, Clone, PartialEq, Eq, Structural)]
pub enum Workload {
    Memcached,
    Cg,
    Memhog,
}

impl Workload {
    /// The name the workload is recorded under.
    pub open spec fn name(self) -> Seq<char> {
        match self {
            Workload::Memcached => "memcached_gen_data"@,
            Workload::Cg => "nas_cg"@,
            Workload::Memhog => "memhog"@,
        }
    }

    /// Whether `s` names a workload.
    pub open spec fn known(s: Seq<char>) -> bool {
        s == "memcached_gen_data"@ || s == "nas_cg"@ || s == "memhog"@
    }

    /// The name the workload is recorded under.
    pub fn to_str(&self) -> (r: &'static str)
        ensures
            r@ == self.name(),
    {
        match self {
            Workload::Memcached => "memcached_gen_data",
            Workload::Cg => "nas_cg",
            Workload::Memhog => "memhog",
        }
    }

    /// The workload recorded under the name `s`.
    pub fn from_str(s: &str) -> (w: Workload)
        requires
            Workload::known(s@),
        ensures
            w.name() == s@,
    {
        proof {
            reveal_strlit("memcached_gen_data");
            reveal_strlit("nas_cg");
            reveal_strlit("memhog");
        }
        if crate::text::str_eq(s, "memcached_gen_data") {
            Workload::Memcached
        } else if crate::text::str_eq(s, "nas_cg") {
            Workload::Cg
        } else {
            Workload::Memhog
        }
    }
}

/// The names of distinct workloads are distinct, and every name is known:
/// reading back the name of a workload gives that workload.
pub proof fn law_name_round_trip(w: Workload, v: Workload)
    ensures
        Workload::known(w.name()),
        w.name() == v.name() ==> w == v,
{
    reveal_strlit("memcached_gen_data");
    reveal_strlit("nas_cg");
    reveal_strlit("memhog");
    assert("memcached_gen_data"@.len() == 18);
    assert("nas_cg"@[0] != "memhog"@[0]);
}

} // verus!

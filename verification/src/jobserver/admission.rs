//! Whether the server can answer a request: what a caller tests before
//! handing a request to `Server::handle_request`.

use vstd::prelude::*;
use crate::jobserver::laws::{count_product, law_product_len};
use crate::jobserver::proto::JobServerReq;
use crate::jobserver::requests::{matrix_choices, matrix_configs, missing_vars, request_ok};
use crate::jobserver::server::Server;
use crate::jobserver::template::{all_choices, choices};

verus! {

proof fn lemma_count_push<T>(lists: Seq<Seq<T>>, x: Seq<T>)
    ensures
        count_product(lists.push(x)) == count_product(lists) * x.len(),
    decreases lists.len(),
{
    let p = lists.push(x);
    if lists.len() > 0 {
        let df = lists.drop_first();
        lemma_count_push(df, x);
        assert(p.drop_first() =~= df.push(x));
        assert(p[0] == lists[0]);
        let l0 = lists[0].len();
        let c = count_product(df);
        let xl = x.len();
        assert(count_product(p) == l0 * count_product(df.push(x)));
        assert(count_product(df.push(x)) == c * xl);
        assert(count_product(lists) == l0 * c);
        assert(l0 * (c * xl) == (l0 * c) * xl) by (nonlinear_arith);
    } else {
        assert(p.drop_first() =~= Seq::<Seq<T>>::empty());
        assert(p[0] == x);
        assert(count_product(Seq::<Seq<T>>::empty()) == 1);
        assert(count_product(p) == x.len() * count_product(p.drop_first()));
        assert(lists =~= Seq::<Seq<T>>::empty());
    }
}

proof fn lemma_count_append_singletons<T>(a: Seq<Seq<T>>, b: Seq<Seq<T>>)
    requires
        forall|i: int| 0 <= i < b.len() ==> (#[trigger] b[i]).len() == 1,
    ensures
        count_product(a + b) == count_product(a),
    decreases b.len(),
{
    if b.len() > 0 {
        let b0 = b.drop_last();
        lemma_count_append_singletons(a, b0);
        assert(a + b =~= (a + b0).push(b.last()));
        lemma_count_push(a + b0, b.last());
    } else {
        assert(a + b =~= a);
    }
}

proof fn lemma_count_zero<T>(lists: Seq<Seq<T>>, k: int)
    requires
        0 <= k < lists.len(),
        lists[k].len() == 0,
    ensures
        count_product(lists) == 0,
    decreases lists.len(),
{
    if k > 0 {
        assert(lists.drop_first()[k - 1] == lists[k]);
        lemma_count_zero(lists.drop_first(), k - 1);
        let l0 = lists[0].len();
        assert(l0 * 0 == 0) by (nonlinear_arith);
    } else {
        let c = count_product(lists.drop_first());
        assert(0 * c == 0) by (nonlinear_arith);
    }
}

proof fn lemma_count_mono<T>(lists: Seq<Seq<T>>, i: int)
    requires
        0 <= i <= lists.len(),
        forall|k: int| 0 <= k < lists.len() ==> (#[trigger] lists[k]).len() >= 1,
    ensures
        count_product(lists.take(i)) <= count_product(lists),
    decreases lists.len() - i,
{
    if i < lists.len() {
        lemma_count_mono(lists, i + 1);
        assert(lists.take(i + 1) =~= lists.take(i).push(lists[i]));
        lemma_count_push(lists.take(i), lists[i]);
        let c = count_product(lists.take(i));
        let l = lists[i].len();
        assert(c <= c * l) by (nonlinear_arith)
            requires
                l >= 1,
        ;
    } else {
        assert(lists.take(i) =~= lists);
    }
}

/// The number of configurations of the matrix `vars` on this server, if it
/// is at most `limit`.
fn matrix_count(vars: &Vec<(String, Vec<String>)>, s: &Server, limit: usize) -> (r: Option<usize>)
    requires
        s.wf(),
    ensures
        match r {
            Some(n) => n == count_product(matrix_choices(vars@, s.variables@)) && n <= limit,
            None => count_product(matrix_choices(vars@, s.variables@)) > limit,
        },
{
    let ghost mv = vars@;
    let ghost sv = s.variables@;
    let ghost own = all_choices(mv);
    let ghost miss = missing_vars(sv, mv).map_values(|p: (String, String)| seq![p]);
    proof {
        assert(matrix_choices(mv, sv) =~= own + miss);
        assert forall|i: int| 0 <= i < miss.len() implies (#[trigger] miss[i]).len() == 1 by {}
        lemma_count_append_singletons(own, miss);
    }
    // The number of values of each variable.
    let mut lens: Vec<usize> = Vec::new();
    let mut i: usize = 0;
    while i < vars.len()
        invariant
            s.wf(),
            i <= vars@.len(),
            mv == vars@,
            sv == s.variables@,
            own == all_choices(mv),
            lens@.len() == i,
            forall|k: int| 0 <= k < i ==> #[trigger] lens@[k] == own[k].len(),
        decreases vars@.len() - i,
    {
        let l = vars[i].1.len();
        assert(own[i as int] == choices(mv[i as int]));
        lens.push(l);
        i = i + 1;
    }
    // A variable without values leaves no configuration.
    let mut z: usize = 0;
    while z < lens.len()
        invariant
            z <= lens@.len(),
            lens@.len() == own.len(),
            forall|k: int| 0 <= k < lens@.len() ==> #[trigger] lens@[k] == own[k].len(),
            forall|k: int| 0 <= k < z ==> (#[trigger] lens@[k]) != 0,
            count_product(matrix_choices(vars@, s.variables@)) == count_product(own),
        decreases lens@.len() - z,
    {
        if lens[z] == 0 {
            proof {
                lemma_count_zero(own, z as int);
            }
            return Some(0);
        }
        z = z + 1;
    }
    let mut acc: usize = 1;
    let mut j: usize = 0;
    assert(own.take(0) =~= Seq::<Seq<(String, String)>>::empty());
    while j < lens.len()
        invariant
            j <= lens@.len(),
            lens@.len() == own.len(),
            forall|k: int| 0 <= k < lens@.len() ==> #[trigger] lens@[k] == own[k].len(),
            forall|k: int| 0 <= k < lens@.len() ==> (#[trigger] lens@[k]) != 0,
            acc == count_product(own.take(j as int)),
            acc <= limit || j == 0,
            1 <= acc,
            count_product(matrix_choices(vars@, s.variables@)) == count_product(own),
        decreases lens@.len() - j,
    {
        proof {
            assert(own.take(j + 1) =~= own.take(j as int).push(own[j as int]));
            lemma_count_push(own.take(j as int), own[j as int]);
        }
        let l = lens[j];
        if acc > limit / l {
            proof {
                assert(acc * l > limit) by (nonlinear_arith)
                    requires
                        acc > limit / l,
                        l >= 1,
                ;
                assert forall|k: int| 0 <= k < own.len() implies (#[trigger] own[k]).len() >= 1 by {
                    assert(lens@[k] != 0);
                }
                lemma_count_mono(own, j + 1);
            }
            return None;
        }
        proof {
            assert(acc * l <= limit) by (nonlinear_arith)
                requires
                    acc <= limit / l,
                    l >= 1,
            ;
            assert(acc * l >= 1) by (nonlinear_arith)
                requires
                    acc >= 1,
                    l >= 1,
            ;
        }
        acc = acc * l;
        j = j + 1;
    }
    assert(own.take(j as int) =~= own);
    if acc > limit {
        return None;
    }
    Some(acc)
}

impl Server {
    /// Whether the server can answer `request` (`request_ok`): the IDs it
    /// takes fit in the counter, and a status request does not name a
    /// setup task without commands.
    pub fn can_handle(&self, request: &JobServerReq) -> (r: bool)
        requires
            self.wf(),
        ensures
            r == request_ok(*self, *request),
    {
        let room: usize = usize::MAX - self.next_jid;
        match request {
            JobServerReq::SetUpMachine { .. } | JobServerReq::AddJob { .. } | JobServerReq::CloneJob { .. } => room >= 1,
            JobServerReq::AddMatrix { vars, .. } => {
                if room < 1 {
                    return false;
                }
                let n = matrix_count(vars, self, room - 1);
                proof {
                    law_product_len(matrix_choices(vars@, self.variables@));
                    assert(matrix_configs(vars@, self.variables@).len() == count_product(matrix_choices(vars@, self.variables@)));
                }
                n.is_some()
            },
            JobServerReq::JobStatus { jid } => {
                if self.find_job(*jid).is_some() {
                    true
                } else {
                    match self.find_task(*jid) {
                        Some(p) => self.setup_tasks[p].cmds.len() > 0,
                        None => true,
                    }
                }
            },
            _ => true,
        }
    }
}

} // verus!

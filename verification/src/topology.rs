//! The validated execution plan: a configuration document whose settings
//! validated, whose input references all resolved, and whose graph is
//! cycle-free, together with a feasible execution order. Built whole and
//! replaced whole: a reload builds and validates a fresh plan
//! independently and swaps it in only on success, so a brief serving gap
//! during the swap is an accepted tradeoff, not a defect.

use vstd::prelude::*;

use crate::config::{build_warnings, cycle_msg, unresolved_errors, Config};
use crate::diag::{unresolved_errors_exec, warnings_exec};
use crate::graph::{appears, edge, has_cycle, has_edge, is_topo_order};
use crate::validate::{push_all, settings_errors, validate_settings};

verus! {

/// The complete error list of a failed build: every settings error and
/// every unresolved-input error, collected together so an operator can fix
/// the whole document in one pass; only when none of those exist is the
/// cycle diagnostic the (single) error.
pub open spec fn build_errors(c: Config) -> Seq<Seq<char>> {
    if settings_errors(c).len() + unresolved_errors(c).len() > 0 {
        settings_errors(c) + unresolved_errors(c)
    } else {
        seq![cycle_msg()]
    }
}

/// A validated topology: the document and a feasible execution order over
/// its nodes.
pub struct Topology {
    pub config: Config,
    pub order: Vec<usize>,
}

impl Topology {
    /// The order lists each node exactly once and every edge points
    /// forward in it.
    pub open spec fn wf(&self) -> bool {
        is_topo_order(self.config, self.order@)
    }

    /// Build a topology from a configuration document.
    ///
    /// Succeeds exactly when the document has no settings error, no
    /// unresolved input reference, and no directed cycle; the warnings
    /// returned on success are exactly the disconnected-node warnings, and
    /// the errors returned on failure are exactly `build_errors`.
    pub fn build(c: Config) -> (r: Result<(Topology, Vec<String>), Vec<String>>)
        requires
            c.comps().len() <= usize::MAX,
        ensures
            match r {
                Ok(p) => {
                    &&& settings_errors(c).len() == 0
                    &&& unresolved_errors(c).len() == 0
                    &&& !has_cycle(c)
                    &&& p.0.config == c
                    &&& p.0.wf()
                    &&& p.1.deep_view() == build_warnings(c)
                },
                Err(errs) => {
                    &&& (settings_errors(c).len() + unresolved_errors(c).len() > 0 || has_cycle(
                        c,
                    ))
                    &&& errs.deep_view() == build_errors(c)
                },
            },
    {
        let mut errs = validate_settings(&c);
        let u = unresolved_errors_exec(&c);
        push_all(&mut errs, u);
        proof {
            assert(errs.deep_view().len() == errs@.len());
        }
        if errs.len() > 0 {
            return Err(errs);
        }
        match crate::graph::toposort(&c) {
            Ok(order) => {
                let warns = warnings_exec(&c);
                Ok((Topology { config: c, order }, warns))
            },
            Err(_) => {
                let mut es: Vec<String> = Vec::new();
                es.push("Configured topology contains a cycle".to_owned());
                proof {
                    assert(es.deep_view() =~= seq![cycle_msg()]);
                }
                Err(es)
            },
        }
    }

    /// The nodes that consume from node `i`, in ascending node order:
    /// the fan-out set the runtime wires one producer channel to.
    pub fn downstream(&self, i: usize) -> (r: Vec<usize>)
        requires
            self.config.comps().len() <= usize::MAX,
            i < self.config.comps().len(),
        ensures
            r@.no_duplicates(),
            forall|k: int, l: int| 0 <= k < l < r@.len() ==> r@[k] < r@[l],
            forall|k: int|
                0 <= k < r@.len() ==> edge(self.config, i as int, (#[trigger] r@[k]) as int),
            forall|j: int|
                0 <= j < self.config.comps().len() && edge(self.config, i as int, j) ==> appears(
                    r@,
                    j,
                ),
    {
        let nn: usize = self.config.sources.len() + self.config.transforms.len()
            + self.config.sinks.len();
        let mut out: Vec<usize> = Vec::new();
        let mut j: usize = 0;
        while j < nn
            invariant
                nn == self.config.comps().len(),
                i < self.config.comps().len(),
                j <= nn,
                out@.no_duplicates(),
                forall|k: int, l: int| 0 <= k < l < out@.len() ==> out@[k] < out@[l],
                forall|k: int| 0 <= k < out@.len() ==> (#[trigger] out@[k]) < j,
                forall|k: int|
                    0 <= k < out@.len() ==> edge(
                        self.config,
                        i as int,
                        (#[trigger] out@[k]) as int,
                    ),
                forall|jj: int|
                    0 <= jj < j && edge(self.config, i as int, jj) ==> appears(out@, jj),
            decreases nn - j,
        {
            let ghost pre = out@;
            if has_edge(&self.config, i, j) {
                out.push(j);
                proof {
                    assert(out@[out@.len() - 1] == j);
                    assert forall|k: int| 0 <= k < out@.len() implies (#[trigger] out@[k])
                        < j + 1 by {
                        if k < out@.len() - 1 {
                            assert(out@[k] == pre[k]);
                        }
                    }
                    assert forall|k: int, l: int|
                        0 <= k < l < out@.len() implies out@[k] < out@[l] by {
                        if l < out@.len() - 1 {
                            assert(out@[k] == pre[k] && out@[l] == pre[l]);
                        } else {
                            assert(out@[k] == pre[k] && out@[l] == j);
                        }
                    }
                    assert forall|jj: int|
                        0 <= jj < j + 1 && edge(self.config, i as int, jj) implies appears(
                        out@,
                        jj,
                    ) by {
                        if jj < j {
                            assert(appears(pre, jj));
                            let q = choose|q: int| 0 <= q < pre.len() && (#[trigger] pre[q]) == jj;
                            assert(out@[q] == jj);
                        } else {
                            assert(out@[out@.len() - 1] == jj);
                        }
                    }
                }
            } else {
                proof {
                    assert forall|jj: int|
                        0 <= jj < j + 1 && edge(self.config, i as int, jj) implies appears(
                        out@,
                        jj,
                    ) by {
                        if jj == j {
                            assert(!edge(self.config, i as int, j as int));
                        }
                    }
                }
            }
            j = j + 1;
        }
        out
    }
}

} // verus!

//! Structural diagnostics of the graph builder: unresolved-input errors
//! (one per listed input name that no component carries) and
//! disconnected-node warnings (non-sources with no inbound edge,
//! non-sinks with no outbound edge).

use vstd::prelude::*;

use crate::config::{
    build_warnings, comp_missing_msgs, comps_missing_msgs, missing_input_msg_exec, no_input_warns,
    no_inputs_msg_exec, no_output_warns, no_outputs_msg_exec, unresolved_errors, Component, Config,
    Role,
};
use crate::graph::comp_at;
use crate::text::eq_str;
use crate::validate::push_all;

verus! {

/// Whether some component carries the given name.
pub fn has_name_exec(c: &Config, n: &str) -> (r: bool)
    requires
        c.comps().len() <= usize::MAX,
    ensures
        r == c.has_name(n@),
{
    let nn: usize = c.sources.len() + c.transforms.len() + c.sinks.len();
    let mut i: usize = 0;
    while i < nn
        invariant
            nn == c.comps().len(),
            i <= nn,
            forall|k: int| 0 <= k < i ==> (#[trigger] c.comps()[k]).name@ != n@,
        decreases nn - i,
    {
        if eq_str(comp_at(c, i).name.as_str(), n) {
            return true;
        }
        i = i + 1;
    }
    false
}

/// Whether some transform or sink lists the given name as an input.
pub fn is_consumed_exec(c: &Config, n: &str) -> (r: bool)
    requires
        c.consumers().len() <= usize::MAX,
    ensures
        r == c.is_consumed(n@),
{
    let nn: usize = c.transforms.len() + c.sinks.len();
    let mut i: usize = 0;
    while i < nn
        invariant
            nn == c.consumers().len(),
            i <= nn,
            forall|k: int, j: int|
                0 <= k < i && 0 <= j < c.consumers()[k].inputs@.len() ==> (#[trigger] c.consumers()[k].inputs@[j])@
                    != n@,
        decreases nn - i,
    {
        let comp: &Component = if i < c.transforms.len() {
            &c.transforms[i]
        } else {
            &c.sinks[i - c.transforms.len()]
        };
        proof {
            assert(*comp == c.consumers()[i as int]);
        }
        let mut j: usize = 0;
        while j < comp.inputs.len()
            invariant
                j <= comp.inputs@.len(),
                *comp == c.consumers()[i as int],
                i < c.consumers().len(),
                forall|jj: int|
                    0 <= jj < j ==> (#[trigger] c.consumers()[i as int].inputs@[jj])@ != n@,
            decreases comp.inputs@.len() - j,
        {
            if eq_str(comp.inputs[j].as_str(), n) {
                proof {
                    assert((c.consumers()[i as int].inputs@[j as int])@ == n@);
                }
                return true;
            }
            j = j + 1;
        }
        i = i + 1;
    }
    false
}

/// The unresolved-input errors of one namespace, as values.
fn namespace_missing(c: &Config, role: Role, comps: &Vec<Component>) -> (r: Vec<String>)
    requires
        c.comps().len() <= usize::MAX,
    ensures
        r.deep_view() == comps_missing_msgs(*c, role, comps@),
{
    let mut out: Vec<String> = Vec::new();
    let mut k: usize = 0;
    while k < comps.len()
        invariant
            k <= comps@.len(),
            c.comps().len() <= usize::MAX,
            out.deep_view() == comps_missing_msgs(*c, role, comps@.take(k as int)),
        decreases comps@.len() - k,
    {
        let comp = &comps[k];
        let mut j: usize = 0;
        while j < comp.inputs.len()
            invariant
                j <= comp.inputs@.len(),
                c.comps().len() <= usize::MAX,
                *comp == comps@[k as int],
                0 <= k < comps@.len(),
                out.deep_view() == comps_missing_msgs(*c, role, comps@.take(k as int))
                    + comp_missing_msgs(*c, role, comp.name@, comp.inputs@.take(j as int)),
            decreases comp.inputs@.len() - j,
        {
            let ghost pre = out.deep_view();
            if !has_name_exec(c, comp.inputs[j].as_str()) {
                out.push(missing_input_msg_exec(comp.inputs[j].as_str(), role, comp.name.as_str()));
                proof {
                    assert(out.deep_view() =~= pre.push(
                        crate::config::missing_input_msg(comp.inputs@[j as int]@, role, comp.name@),
                    ));
                }
            }
            proof {
                assert(comp.inputs@.take(j + 1).drop_last() =~= comp.inputs@.take(j as int));
                assert(comp.inputs@.take(j + 1).last() == comp.inputs@[j as int]);
                assert(out.deep_view() =~= comps_missing_msgs(*c, role, comps@.take(k as int))
                    + comp_missing_msgs(*c, role, comp.name@, comp.inputs@.take(j + 1)));
            }
            j = j + 1;
        }
        proof {
            assert(comp.inputs@.take(comp.inputs@.len() as int) =~= comp.inputs@);
            assert(comps@.take(k + 1).drop_last() =~= comps@.take(k as int));
            assert(comps@.take(k + 1).last() == comps@[k as int]);
            assert(out.deep_view() =~= comps_missing_msgs(*c, role, comps@.take(k + 1)));
        }
        k = k + 1;
    }
    proof {
        assert(comps@.take(comps@.len() as int) =~= comps@);
    }
    out
}

/// Every unresolved-input error of the document, as values: sinks first,
/// then transforms.
pub fn unresolved_errors_exec(c: &Config) -> (r: Vec<String>)
    requires
        c.comps().len() <= usize::MAX,
    ensures
        r.deep_view() == unresolved_errors(*c),
{
    let mut out = namespace_missing(c, Role::Sink, &c.sinks);
    let t = namespace_missing(c, Role::Transform, &c.transforms);
    push_all(&mut out, t);
    out
}

/// The `has no inputs` warnings of one namespace, as values.
fn namespace_no_inputs(role: Role, comps: &Vec<Component>) -> (r: Vec<String>)
    ensures
        r.deep_view() == no_input_warns(role, comps@),
{
    let mut out: Vec<String> = Vec::new();
    let mut k: usize = 0;
    while k < comps.len()
        invariant
            k <= comps@.len(),
            out.deep_view() == no_input_warns(role, comps@.take(k as int)),
        decreases comps@.len() - k,
    {
        let ghost pre = out.deep_view();
        if comps[k].inputs.len() == 0 {
            out.push(no_inputs_msg_exec(role, comps[k].name.as_str()));
            proof {
                assert(out.deep_view() =~= pre.push(
                    crate::config::no_inputs_msg(role, comps@[k as int].name@),
                ));
            }
        }
        proof {
            assert(comps@.take(k + 1).drop_last() =~= comps@.take(k as int));
            assert(comps@.take(k + 1).last() == comps@[k as int]);
            assert(out.deep_view() =~= no_input_warns(role, comps@.take(k + 1)));
        }
        k = k + 1;
    }
    proof {
        assert(comps@.take(comps@.len() as int) =~= comps@);
    }
    out
}

/// The `has no outputs` warnings of one namespace, as values.
fn namespace_no_outputs(c: &Config, role: Role, comps: &Vec<Component>) -> (r: Vec<String>)
    requires
        c.consumers().len() <= usize::MAX,
    ensures
        r.deep_view() == no_output_warns(*c, role, comps@),
{
    let mut out: Vec<String> = Vec::new();
    let mut k: usize = 0;
    while k < comps.len()
        invariant
            k <= comps@.len(),
            c.consumers().len() <= usize::MAX,
            out.deep_view() == no_output_warns(*c, role, comps@.take(k as int)),
        decreases comps@.len() - k,
    {
        let ghost pre = out.deep_view();
        if !is_consumed_exec(c, comps[k].name.as_str()) {
            out.push(no_outputs_msg_exec(role, comps[k].name.as_str()));
            proof {
                assert(out.deep_view() =~= pre.push(
                    crate::config::no_outputs_msg(role, comps@[k as int].name@),
                ));
            }
        }
        proof {
            assert(comps@.take(k + 1).drop_last() =~= comps@.take(k as int));
            assert(comps@.take(k + 1).last() == comps@[k as int]);
            assert(out.deep_view() =~= no_output_warns(*c, role, comps@.take(k + 1)));
        }
        k = k + 1;
    }
    proof {
        assert(comps@.take(comps@.len() as int) =~= comps@);
    }
    out
}

/// Every disconnected-node warning of the document, as values.
pub fn warnings_exec(c: &Config) -> (r: Vec<String>)
    requires
        c.comps().len() <= usize::MAX,
    ensures
        r.deep_view() == build_warnings(*c),
{
    let mut out = namespace_no_inputs(Role::Sink, &c.sinks);
    let t = namespace_no_inputs(Role::Transform, &c.transforms);
    push_all(&mut out, t);
    proof {
        assert(c.consumers().len() <= c.comps().len()) by {
            assert(c.comps() =~= c.sources@ + c.consumers());
        }
    }
    let t2 = namespace_no_outputs(c, Role::Transform, &c.transforms);
    push_all(&mut out, t2);
    let s2 = namespace_no_outputs(c, Role::Source, &c.sources);
    push_all(&mut out, s2);
    out
}

} // verus!

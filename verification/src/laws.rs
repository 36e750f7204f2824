//! The build's cross-cutting guarantees, stated and proved once: how the
//! error list of a failed build decomposes, and that every disconnected
//! node is warned about on a successful build.

use vstd::prelude::*;

use crate::config::{
    build_warnings, comp_missing_msgs, comps_missing_msgs, cycle_msg, no_input_warns,
    no_inputs_msg, no_output_warns, no_outputs_msg, unresolved_errors, Component, Config, Role,
};
use crate::topology::build_errors;
use crate::validate::settings_errors;

verus! {

/// How many of the listed inputs resolve to no component.
pub open spec fn missing_count_inputs(c: Config, inputs: Seq<String>) -> int
    decreases inputs.len(),
{
    if inputs.len() == 0 {
        0
    } else {
        missing_count_inputs(c, inputs.drop_last()) + if c.has_name(inputs.last()@) {
            0int
        } else {
            1int
        }
    }
}

/// How many unresolved input references a list of components carries.
pub open spec fn missing_count_comps(c: Config, comps: Seq<Component>) -> int
    decreases comps.len(),
{
    if comps.len() == 0 {
        0
    } else {
        missing_count_comps(c, comps.drop_last()) + missing_count_inputs(
            c,
            comps.last().inputs@,
        )
    }
}

proof fn lemma_missing_len_inputs(c: Config, role: Role, name: Seq<char>, inputs: Seq<String>)
    ensures
        comp_missing_msgs(c, role, name, inputs).len() == missing_count_inputs(c, inputs),
    decreases inputs.len(),
{
    if inputs.len() > 0 {
        lemma_missing_len_inputs(c, role, name, inputs.drop_last());
    }
}

proof fn lemma_missing_len_comps(c: Config, role: Role, comps: Seq<Component>)
    ensures
        comps_missing_msgs(c, role, comps).len() == missing_count_comps(c, comps),
    decreases comps.len(),
{
    if comps.len() > 0 {
        lemma_missing_len_comps(c, role, comps.drop_last());
        lemma_missing_len_inputs(c, role, comps.last().name@, comps.last().inputs@);
    }
}

/// A failed build over a document whose settings validated reports exactly
/// the unresolved-input diagnostics: one entry per unresolved reference —
/// their count is the count of listed input names that resolve to no
/// component — each naming the referencing component, its role, and the
/// missing name, sinks first, then transforms.
pub proof fn lemma_unresolved_reported(c: Config)
    requires
        settings_errors(c).len() == 0,
        unresolved_errors(c).len() > 0,
    ensures
        build_errors(c) == unresolved_errors(c),
        unresolved_errors(c).len() == missing_count_comps(c, c.sinks@) + missing_count_comps(
            c,
            c.transforms@,
        ),
{
    assert(build_errors(c) =~= unresolved_errors(c));
    lemma_missing_len_comps(c, Role::Sink, c.sinks@);
    lemma_missing_len_comps(c, Role::Transform, c.transforms@);
}

/// When the document is structurally sound — settings validated and every
/// input reference resolved — a failed build reports exactly the cycle
/// diagnostic, whatever else is true of the graph.
pub proof fn lemma_cycle_sole_error(c: Config)
    requires
        settings_errors(c).len() == 0,
        unresolved_errors(c).len() == 0,
    ensures
        build_errors(c) == seq![cycle_msg()],
{
}

proof fn lemma_contains_concat_l<A>(a: Seq<A>, b: Seq<A>, x: A)
    requires
        a.contains(x),
    ensures
        (a + b).contains(x),
{
    let i = choose|i: int| 0 <= i < a.len() && a[i] == x;
    assert((a + b)[i] == x);
}

proof fn lemma_contains_concat_r<A>(a: Seq<A>, b: Seq<A>, x: A)
    requires
        b.contains(x),
    ensures
        (a + b).contains(x),
{
    let i = choose|i: int| 0 <= i < b.len() && b[i] == x;
    assert((a + b)[a.len() + i] == x);
}

proof fn lemma_no_input_warns_contains(role: Role, comps: Seq<Component>, k: int)
    requires
        0 <= k < comps.len(),
        comps[k].inputs@.len() == 0,
    ensures
        no_input_warns(role, comps).contains(no_inputs_msg(role, comps[k].name@)),
    decreases comps.len(),
{
    if k == comps.len() - 1 {
        let m = no_inputs_msg(role, comps.last().name@);
        let w = no_input_warns(role, comps.drop_last());
        assert((w + seq![m])[w.len() as int] == m);
    } else {
        lemma_no_input_warns_contains(role, comps.drop_last(), k);
        lemma_contains_concat_l(
            no_input_warns(role, comps.drop_last()),
            if comps.last().inputs@.len() == 0 {
                seq![no_inputs_msg(role, comps.last().name@)]
            } else {
                Seq::<Seq<char>>::empty()
            },
            no_inputs_msg(role, comps[k].name@),
        );
    }
}

proof fn lemma_no_output_warns_contains(c: Config, role: Role, comps: Seq<Component>, k: int)
    requires
        0 <= k < comps.len(),
        !c.is_consumed(comps[k].name@),
    ensures
        no_output_warns(c, role, comps).contains(no_outputs_msg(role, comps[k].name@)),
    decreases comps.len(),
{
    if k == comps.len() - 1 {
        let m = no_outputs_msg(role, comps.last().name@);
        let w = no_output_warns(c, role, comps.drop_last());
        assert((w + seq![m])[w.len() as int] == m);
    } else {
        lemma_no_output_warns_contains(c, role, comps.drop_last(), k);
        lemma_contains_concat_l(
            no_output_warns(c, role, comps.drop_last()),
            if c.is_consumed(comps.last().name@) {
                Seq::<Seq<char>>::empty()
            } else {
                seq![no_outputs_msg(role, comps.last().name@)]
            },
            no_outputs_msg(role, comps[k].name@),
        );
    }
}

/// Every non-source component with no listed inputs is warned about: the
/// build's warnings contain its `has no inputs` diagnostic. Warnings never
/// fail a build — a successful build returns them alongside the topology.
pub proof fn lemma_no_inputs_warned(c: Config, role: Role, k: int)
    requires
        (role == Role::Sink && 0 <= k < c.sinks@.len() && c.sinks@[k].inputs@.len() == 0) || (
        role == Role::Transform && 0 <= k < c.transforms@.len() && c.transforms@[k].inputs@.len()
            == 0),
    ensures
        role == Role::Sink ==> build_warnings(c).contains(no_inputs_msg(role, c.sinks@[k].name@)),
        role == Role::Transform ==> build_warnings(c).contains(
            no_inputs_msg(role, c.transforms@[k].name@),
        ),
{
    if role == Role::Sink {
        lemma_no_input_warns_contains(role, c.sinks@, k);
        lemma_contains_concat_l(
            no_input_warns(Role::Sink, c.sinks@),
            no_input_warns(Role::Transform, c.transforms@),
            no_inputs_msg(role, c.sinks@[k].name@),
        );
        lemma_contains_concat_l(
            no_input_warns(Role::Sink, c.sinks@) + no_input_warns(Role::Transform, c.transforms@),
            no_output_warns(c, Role::Transform, c.transforms@),
            no_inputs_msg(role, c.sinks@[k].name@),
        );
        lemma_contains_concat_l(
            no_input_warns(Role::Sink, c.sinks@) + no_input_warns(Role::Transform, c.transforms@)
                + no_output_warns(c, Role::Transform, c.transforms@),
            no_output_warns(c, Role::Source, c.sources@),
            no_inputs_msg(role, c.sinks@[k].name@),
        );
    } else {
        lemma_no_input_warns_contains(role, c.transforms@, k);
        lemma_contains_concat_r(
            no_input_warns(Role::Sink, c.sinks@),
            no_input_warns(Role::Transform, c.transforms@),
            no_inputs_msg(role, c.transforms@[k].name@),
        );
        lemma_contains_concat_l(
            no_input_warns(Role::Sink, c.sinks@) + no_input_warns(Role::Transform, c.transforms@),
            no_output_warns(c, Role::Transform, c.transforms@),
            no_inputs_msg(role, c.transforms@[k].name@),
        );
        lemma_contains_concat_l(
            no_input_warns(Role::Sink, c.sinks@) + no_input_warns(Role::Transform, c.transforms@)
                + no_output_warns(c, Role::Transform, c.transforms@),
            no_output_warns(c, Role::Source, c.sources@),
            no_inputs_msg(role, c.transforms@[k].name@),
        );
    }
}

/// Every component nothing consumes from, other than a sink, is warned
/// about: the build's warnings contain its `has no outputs` diagnostic.
pub proof fn lemma_no_outputs_warned(c: Config, role: Role, k: int)
    requires
        (role == Role::Source && 0 <= k < c.sources@.len() && !c.is_consumed(
            c.sources@[k].name@,
        )) || (role == Role::Transform && 0 <= k < c.transforms@.len() && !c.is_consumed(
            c.transforms@[k].name@,
        )),
    ensures
        role == Role::Source ==> build_warnings(c).contains(
            no_outputs_msg(role, c.sources@[k].name@),
        ),
        role == Role::Transform ==> build_warnings(c).contains(
            no_outputs_msg(role, c.transforms@[k].name@),
        ),
{
    if role == Role::Source {
        lemma_no_output_warns_contains(c, role, c.sources@, k);
        lemma_contains_concat_r(
            no_input_warns(Role::Sink, c.sinks@) + no_input_warns(Role::Transform, c.transforms@)
                + no_output_warns(c, Role::Transform, c.transforms@),
            no_output_warns(c, Role::Source, c.sources@),
            no_outputs_msg(role, c.sources@[k].name@),
        );
    } else {
        lemma_no_output_warns_contains(c, role, c.transforms@, k);
        lemma_contains_concat_r(
            no_input_warns(Role::Sink, c.sinks@) + no_input_warns(Role::Transform, c.transforms@),
            no_output_warns(c, Role::Transform, c.transforms@),
            no_outputs_msg(role, c.transforms@[k].name@),
        );
        lemma_contains_concat_l(
            no_input_warns(Role::Sink, c.sinks@) + no_input_warns(Role::Transform, c.transforms@)
                + no_output_warns(c, Role::Transform, c.transforms@),
            no_output_warns(c, Role::Source, c.sources@),
            no_outputs_msg(role, c.transforms@[k].name@),
        );
    }
}

} // verus!

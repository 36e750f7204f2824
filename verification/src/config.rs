//! Data model of a configuration document: named components in three
//! namespaces (sources, transforms, sinks), each with kind-specific
//! settings and a list of input names, plus the spec-level shapes of every
//! diagnostic the build can produce.

use vstd::prelude::*;

verus! {

/// Role of a component in the pipeline.
#[derive(Clone, Copy, Debug, PartialEq, Eq, Structural)]
pub enum Role {
    Source,
    Transform,
    Sink,
}

/// Kind-specific settings of one component; the closed registry of known
/// component kinds.
#[derive(Debug)]
pub enum Settings {
    /// A TCP endpoint, usable as a source or a sink.
    Tcp { address: String },
    /// A sampling transform: keep one in `rate` events, but always pass
    /// events matching one of the `pass_list` patterns.
    Sampler { rate: i64, pass_list: Vec<String> },
    /// A transform that parses fields out of each event with a pattern.
    RegexParser { pattern: String },
    /// An object-store sink addressed by region or by explicit endpoint.
    S3 { bucket: String, region: Option<String>, endpoint: Option<String> },
    /// A queue-polling source; knobs left unset take the documented
    /// defaults when the polling client is assembled.
    AwsSqs {
        queue_url: String,
        poll_secs: Option<i64>,
        visibility_timeout_secs: Option<i64>,
        delete_message: Option<bool>,
    },
}

/// Which roles a given settings kind may fill.
pub open spec fn kind_allowed(role: Role, s: Settings) -> bool {
    match s {
        Settings::Tcp { .. } => role == Role::Source || role == Role::Sink,
        Settings::Sampler { .. } => role == Role::Transform,
        Settings::RegexParser { .. } => role == Role::Transform,
        Settings::S3 { .. } => role == Role::Sink,
        Settings::AwsSqs { .. } => role == Role::Source,
    }
}

/// One named component: its settings and the names of the components it
/// consumes from (always empty for sources).
#[derive(Debug)]
pub struct Component {
    pub name: String,
    pub settings: Settings,
    pub inputs: Vec<String>,
}

/// A parsed configuration document: three namespaces of components, each in
/// declaration order.
#[derive(Debug)]
pub struct Config {
    pub sources: Vec<Component>,
    pub transforms: Vec<Component>,
    pub sinks: Vec<Component>,
}

impl Config {
    /// All components, sources first, then transforms, then sinks; this
    /// order also numbers the nodes of the graph.
    pub open spec fn comps(&self) -> Seq<Component> {
        self.sources@ + self.transforms@ + self.sinks@
    }

    /// Whether some component carries the given name.
    pub open spec fn has_name(&self, n: Seq<char>) -> bool {
        exists|i: int| 0 <= i < self.comps().len() && (#[trigger] self.comps()[i]).name@ == n
    }

    /// The components that may list inputs: transforms then sinks.
    pub open spec fn consumers(&self) -> Seq<Component> {
        self.transforms@ + self.sinks@
    }

    /// Whether some transform or sink lists the given name as an input,
    /// that is, whether the named node has at least one outbound edge.
    pub open spec fn is_consumed(&self, n: Seq<char>) -> bool {
        exists|i: int, j: int|
            0 <= i < self.consumers().len() && 0 <= j < self.consumers()[i].inputs@.len()
                && (#[trigger] self.consumers()[i].inputs@[j])@ == n
    }

    /// Shape invariant of a decoded document: sources take no inputs and
    /// every settings kind sits in a namespace it is allowed in.
    pub open spec fn wf(&self) -> bool {
        &&& forall|i: int|
            0 <= i < self.sources@.len() ==> (#[trigger] self.sources@[i]).inputs@.len() == 0
                && kind_allowed(Role::Source, self.sources@[i].settings)
        &&& forall|i: int|
            0 <= i < self.transforms@.len() ==> kind_allowed(
                Role::Transform,
                (#[trigger] self.transforms@[i]).settings,
            )
        &&& forall|i: int|
            0 <= i < self.sinks@.len() ==> kind_allowed(
                Role::Sink,
                (#[trigger] self.sinks@[i]).settings,
            )
    }
}

/// The lowercase role word used inside input-resolution errors.
pub open spec fn role_lower(r: Role) -> Seq<char> {
    match r {
        Role::Source => "source"@,
        Role::Transform => "transform"@,
        Role::Sink => "sink"@,
    }
}

/// The capitalized role word used at the head of warnings and wrapped
/// component errors.
pub open spec fn role_upper(r: Role) -> Seq<char> {
    match r {
        Role::Source => "Source"@,
        Role::Transform => "Transform"@,
        Role::Sink => "Sink"@,
    }
}

/// `Input "<name>" for <role> "<component>" doesn't exist.`
pub open spec fn missing_input_msg(input: Seq<char>, role: Role, comp: Seq<char>) -> Seq<char> {
    "Input \""@ + input + "\" for "@ + role_lower(role) + " \""@ + comp + "\" doesn't exist."@
}

/// `<Role> "<component>" has no inputs`
pub open spec fn no_inputs_msg(role: Role, comp: Seq<char>) -> Seq<char> {
    role_upper(role) + " \""@ + comp + "\" has no inputs"@
}

/// `<Role> "<component>" has no outputs`
pub open spec fn no_outputs_msg(role: Role, comp: Seq<char>) -> Seq<char> {
    role_upper(role) + " \""@ + comp + "\" has no outputs"@
}

/// `<Role> "<component>": <nested component-specific error>`
pub open spec fn nested_err_msg(role: Role, comp: Seq<char>, nested: Seq<char>) -> Seq<char> {
    role_upper(role) + " \""@ + comp + "\": "@ + nested
}

/// The one diagnostic of the cycle detector.
pub open spec fn cycle_msg() -> Seq<char> {
    "Configured topology contains a cycle"@
}

/// Unresolved-input errors of one component: one entry per listed input
/// name that no component carries, in list order.
pub open spec fn comp_missing_msgs(c: Config, role: Role, name: Seq<char>, inputs: Seq<String>) -> Seq<
    Seq<char>,
>
    decreases inputs.len(),
{
    if inputs.len() == 0 {
        Seq::empty()
    } else {
        comp_missing_msgs(c, role, name, inputs.drop_last()) + (if c.has_name(inputs.last()@) {
            Seq::<Seq<char>>::empty()
        } else {
            seq![missing_input_msg(inputs.last()@, role, name)]
        })
    }
}

/// Unresolved-input errors of a list of components, in declaration order.
pub open spec fn comps_missing_msgs(c: Config, role: Role, comps: Seq<Component>) -> Seq<Seq<char>>
    decreases comps.len(),
{
    if comps.len() == 0 {
        Seq::empty()
    } else {
        comps_missing_msgs(c, role, comps.drop_last()) + comp_missing_msgs(
            c,
            role,
            comps.last().name@,
            comps.last().inputs@,
        )
    }
}

/// Every unresolved-input error of the document: sinks first, then
/// transforms (sources list no inputs).
pub open spec fn unresolved_errors(c: Config) -> Seq<Seq<char>> {
    comps_missing_msgs(c, Role::Sink, c.sinks@) + comps_missing_msgs(
        c,
        Role::Transform,
        c.transforms@,
    )
}

/// `has no inputs` warnings of a list of components, in declaration order.
pub open spec fn no_input_warns(role: Role, comps: Seq<Component>) -> Seq<Seq<char>>
    decreases comps.len(),
{
    if comps.len() == 0 {
        Seq::empty()
    } else {
        no_input_warns(role, comps.drop_last()) + (if comps.last().inputs@.len() == 0 {
            seq![no_inputs_msg(role, comps.last().name@)]
        } else {
            Seq::<Seq<char>>::empty()
        })
    }
}

/// `has no outputs` warnings of a list of components, in declaration order.
pub open spec fn no_output_warns(c: Config, role: Role, comps: Seq<Component>) -> Seq<Seq<char>>
    decreases comps.len(),
{
    if comps.len() == 0 {
        Seq::empty()
    } else {
        no_output_warns(c, role, comps.drop_last()) + (if c.is_consumed(comps.last().name@) {
            Seq::<Seq<char>>::empty()
        } else {
            seq![no_outputs_msg(role, comps.last().name@)]
        })
    }
}

/// Every disconnected-node warning of the document: sinks and transforms
/// without inputs, then transforms and sources nothing consumes from.
pub open spec fn build_warnings(c: Config) -> Seq<Seq<char>> {
    no_input_warns(Role::Sink, c.sinks@) + no_input_warns(Role::Transform, c.transforms@)
        + no_output_warns(c, Role::Transform, c.transforms@) + no_output_warns(
        c,
        Role::Source,
        c.sources@,
    )
}

/// The lowercase role word, as a value.
pub fn role_lower_str(r: Role) -> (s: &'static str)
    ensures
        s@ == role_lower(r),
{
    match r {
        Role::Source => "source",
        Role::Transform => "transform",
        Role::Sink => "sink",
    }
}

/// The capitalized role word, as a value.
pub fn role_upper_str(r: Role) -> (s: &'static str)
    ensures
        s@ == role_upper(r),
{
    match r {
        Role::Source => "Source",
        Role::Transform => "Transform",
        Role::Sink => "Sink",
    }
}

/// Build the `doesn't exist` error for one unresolved input reference.
pub fn missing_input_msg_exec(input: &str, role: Role, comp: &str) -> (r: String)
    ensures
        r@ == missing_input_msg(input@, role, comp@),
{
    let mut s = "Input \"".to_owned();
    s.append(input);
    s.append("\" for ");
    s.append(role_lower_str(role));
    s.append(" \"");
    s.append(comp);
    s.append("\" doesn't exist.");
    proof {
        assert(s@ =~= missing_input_msg(input@, role, comp@));
    }
    s
}

/// Build the `has no inputs` warning for one component.
pub fn no_inputs_msg_exec(role: Role, comp: &str) -> (r: String)
    ensures
        r@ == no_inputs_msg(role, comp@),
{
    let mut s = role_upper_str(role).to_owned();
    s.append(" \"");
    s.append(comp);
    s.append("\" has no inputs");
    proof {
        assert(s@ =~= no_inputs_msg(role, comp@));
    }
    s
}

/// Build the `has no outputs` warning for one component.
pub fn no_outputs_msg_exec(role: Role, comp: &str) -> (r: String)
    ensures
        r@ == no_outputs_msg(role, comp@),
{
    let mut s = role_upper_str(role).to_owned();
    s.append(" \"");
    s.append(comp);
    s.append("\" has no outputs");
    proof {
        assert(s@ =~= no_outputs_msg(role, comp@));
    }
    s
}

/// Wrap a component-specific error with the owning component's role and
/// name.
pub fn nested_err_msg_exec(role: Role, comp: &str, nested: &str) -> (r: String)
    ensures
        r@ == nested_err_msg(role, comp@, nested@),
{
    let mut s = role_upper_str(role).to_owned();
    s.append(" \"");
    s.append(comp);
    s.append("\": ");
    s.append(nested);
    proof {
        assert(s@ =~= nested_err_msg(role, comp@, nested@));
    }
    s
}

} // verus!

//! Typed decoding of a raw document into a configuration: the `type` tag
//! must name a registered kind for its namespace, required fields must be
//! present with the right shape, and every such structural error across
//! the whole document is collected and reported together.

use vstd::prelude::*;

use crate::config::{kind_allowed, Component, Config, Role, Settings};
use crate::parse::{parse_document, RawComponent, RawDocument, RawEntry, RawValue};

verus! {

/// The namespace word of a role, as written in a document.
pub open spec fn role_plural(r: Role) -> Seq<char> {
    match r {
        Role::Source => "sources"@,
        Role::Transform => "transforms"@,
        Role::Sink => "sinks"@,
    }
}

/// `missing field `<field>` for key `<namespace>.<name>``
pub open spec fn missing_field_msg(field: Seq<char>, role: Role, name: Seq<char>) -> Seq<char> {
    "missing field `"@ + field + "` for key `"@ + role_plural(role) + "."@ + name + "`"@
}

/// `invalid type for key `<namespace>.<name>.<field>``
pub open spec fn invalid_type_msg(field: Seq<char>, role: Role, name: Seq<char>) -> Seq<char> {
    "invalid type for key `"@ + role_plural(role) + "."@ + name + "."@ + field + "`"@
}

/// The kinds registered for a role, as listed in an unknown-variant error.
pub open spec fn variants_of(r: Role) -> Seq<char> {
    match r {
        Role::Source => "`tcp`, `aws_sqs`"@,
        Role::Transform => "`sampler`, `regex_parser`"@,
        Role::Sink => "`tcp`, `s3`"@,
    }
}

/// `unknown variant `<value>`, expected one of <kinds>`
pub open spec fn unknown_variant_msg(v: Seq<char>, role: Role) -> Seq<char> {
    "unknown variant `"@ + v + "`, expected one of "@ + variants_of(role)
}

/// The first binding of the given key, if any.
pub open spec fn find_entry(entries: Seq<RawEntry>, k: Seq<char>) -> Option<RawValue>
    decreases entries.len(),
{
    if entries.len() == 0 {
        Option::None
    } else if entries.first().key@ == k {
        Option::Some(entries.first().value)
    } else {
        find_entry(entries.drop_first(), k)
    }
}

/// Errors of one required string field.
pub open spec fn req_str_errs(rc: RawComponent, field: Seq<char>) -> Seq<Seq<char>> {
    match find_entry(rc.entries@, field) {
        Option::None => seq![missing_field_msg(field, rc.role, rc.name@)],
        Option::Some(RawValue::Str(_)) => Seq::empty(),
        Option::Some(_) => seq![invalid_type_msg(field, rc.role, rc.name@)],
    }
}

/// Errors of one required integer field.
pub open spec fn req_int_errs(rc: RawComponent, field: Seq<char>) -> Seq<Seq<char>> {
    match find_entry(rc.entries@, field) {
        Option::None => seq![missing_field_msg(field, rc.role, rc.name@)],
        Option::Some(RawValue::Int(_)) => Seq::empty(),
        Option::Some(_) => seq![invalid_type_msg(field, rc.role, rc.name@)],
    }
}

/// Errors of one required string-array field.
pub open spec fn req_arr_errs(rc: RawComponent, field: Seq<char>) -> Seq<Seq<char>> {
    match find_entry(rc.entries@, field) {
        Option::None => seq![missing_field_msg(field, rc.role, rc.name@)],
        Option::Some(RawValue::StrArr(_)) => Seq::empty(),
        Option::Some(_) => seq![invalid_type_msg(field, rc.role, rc.name@)],
    }
}

/// Errors of one optional string field: only a present value of another
/// shape is an error.
pub open spec fn opt_str_errs(rc: RawComponent, field: Seq<char>) -> Seq<Seq<char>> {
    match find_entry(rc.entries@, field) {
        Option::None => Seq::empty(),
        Option::Some(RawValue::Str(_)) => Seq::empty(),
        Option::Some(_) => seq![invalid_type_msg(field, rc.role, rc.name@)],
    }
}

/// Errors of one optional integer field.
pub open spec fn opt_int_errs(rc: RawComponent, field: Seq<char>) -> Seq<Seq<char>> {
    match find_entry(rc.entries@, field) {
        Option::None => Seq::empty(),
        Option::Some(RawValue::Int(_)) => Seq::empty(),
        Option::Some(_) => seq![invalid_type_msg(field, rc.role, rc.name@)],
    }
}

/// Errors of one optional boolean field.
pub open spec fn opt_bool_errs(rc: RawComponent, field: Seq<char>) -> Seq<Seq<char>> {
    match find_entry(rc.entries@, field) {
        Option::None => Seq::empty(),
        Option::Some(RawValue::Bool(_)) => Seq::empty(),
        Option::Some(_) => seq![invalid_type_msg(field, rc.role, rc.name@)],
    }
}

/// Errors of the `inputs` list: required for transforms and sinks, absent
/// for sources.
pub open spec fn inputs_errs(rc: RawComponent) -> Seq<Seq<char>> {
    if rc.role == Role::Source {
        Seq::empty()
    } else {
        req_arr_errs(rc, "inputs"@)
    }
}

/// Errors of one component given its kind tag.
pub open spec fn kind_errs(rc: RawComponent, t: Seq<char>) -> Seq<Seq<char>> {
    if rc.role == Role::Source && t == "tcp"@ {
        req_str_errs(rc, "address"@)
    } else if rc.role == Role::Sink && t == "tcp"@ {
        req_str_errs(rc, "address"@) + inputs_errs(rc)
    } else if rc.role == Role::Transform && t == "sampler"@ {
        req_int_errs(rc, "rate"@) + req_arr_errs(rc, "pass_list"@) + inputs_errs(rc)
    } else if rc.role == Role::Transform && t == "regex_parser"@ {
        req_str_errs(rc, "regex"@) + inputs_errs(rc)
    } else if rc.role == Role::Sink && t == "s3"@ {
        req_str_errs(rc, "bucket"@) + opt_str_errs(rc, "region"@) + opt_str_errs(rc, "endpoint"@)
            + inputs_errs(rc)
    } else if rc.role == Role::Source && t == "aws_sqs"@ {
        req_str_errs(rc, "queue_url"@) + opt_int_errs(rc, "poll_secs"@) + opt_int_errs(
            rc,
            "visibility_timeout_secs"@,
        ) + opt_bool_errs(rc, "delete_message"@)
    } else {
        seq![unknown_variant_msg(t, rc.role)]
    }
}

/// Every structural error of one component.
pub open spec fn comp_errs(rc: RawComponent) -> Seq<Seq<char>> {
    match find_entry(rc.entries@, "type"@) {
        Option::None => seq![missing_field_msg("type"@, rc.role, rc.name@)],
        Option::Some(RawValue::Str(t)) => kind_errs(rc, t@),
        Option::Some(_) => seq![invalid_type_msg("type"@, rc.role, rc.name@)],
    }
}

/// Every structural error of the document, in declaration order.
pub open spec fn doc_errs(comps: Seq<RawComponent>) -> Seq<Seq<char>>
    decreases comps.len(),
{
    if comps.len() == 0 {
        Seq::empty()
    } else {
        doc_errs(comps.drop_last()) + comp_errs(comps.last())
    }
}

/// The raw components of one namespace, in declaration order.
pub open spec fn of_role(comps: Seq<RawComponent>, role: Role) -> Seq<RawComponent>
    decreases comps.len(),
{
    if comps.len() == 0 {
        Seq::empty()
    } else {
        of_role(comps.drop_last(), role) + (if comps.last().role == role {
            seq![comps.last()]
        } else {
            Seq::<RawComponent>::empty()
        })
    }
}

/// The string bound to a field, where one is.
pub open spec fn str_field(rc: RawComponent, f: Seq<char>) -> Seq<char> {
    match find_entry(rc.entries@, f) {
        Option::Some(RawValue::Str(v)) => v@,
        _ => Seq::empty(),
    }
}

/// The integer bound to a field, where one is.
pub open spec fn int_field(rc: RawComponent, f: Seq<char>) -> int {
    match find_entry(rc.entries@, f) {
        Option::Some(RawValue::Int(v)) => v as int,
        _ => 0,
    }
}

/// The string list bound to a field, where one is.
pub open spec fn arr_field(rc: RawComponent, f: Seq<char>) -> Seq<Seq<char>> {
    match find_entry(rc.entries@, f) {
        Option::Some(RawValue::StrArr(v)) => v.deep_view(),
        _ => Seq::empty(),
    }
}

/// The string bound to an optional field, or nothing.
pub open spec fn opt_str_field(rc: RawComponent, f: Seq<char>) -> Option<Seq<char>> {
    match find_entry(rc.entries@, f) {
        Option::Some(RawValue::Str(v)) => Option::Some(v@),
        _ => Option::None,
    }
}

/// The integer bound to an optional field, or nothing.
pub open spec fn opt_int_field(rc: RawComponent, f: Seq<char>) -> Option<int> {
    match find_entry(rc.entries@, f) {
        Option::Some(RawValue::Int(v)) => Option::Some(v as int),
        _ => Option::None,
    }
}

/// The boolean bound to an optional field, or nothing.
pub open spec fn opt_bool_field(rc: RawComponent, f: Seq<char>) -> Option<bool> {
    match find_entry(rc.entries@, f) {
        Option::Some(RawValue::Bool(v)) => Option::Some(v),
        _ => Option::None,
    }
}

/// An optional machine integer, seen as an optional integer.
pub open spec fn opt_int_view(o: Option<i64>) -> Option<int> {
    match o {
        Option::Some(v) => Option::Some(v as int),
        Option::None => Option::None,
    }
}

/// An optional string, seen as its character sequence.
pub open spec fn opt_view(o: Option<String>) -> Option<Seq<char>> {
    match o {
        Option::Some(s) => Option::Some(s@),
        Option::None => Option::None,
    }
}

/// The typed settings carry exactly the raw component's field values, for
/// the kind its tag names.
pub open spec fn settings_match(s: Settings, rc: RawComponent) -> bool {
    let t = str_field(rc, "type"@);
    if (rc.role == Role::Source || rc.role == Role::Sink) && t == "tcp"@ {
        match s {
            Settings::Tcp { address } => address@ == str_field(rc, "address"@),
            _ => false,
        }
    } else if rc.role == Role::Transform && t == "sampler"@ {
        match s {
            Settings::Sampler { rate, pass_list } => rate as int == int_field(rc, "rate"@)
                && pass_list.deep_view() == arr_field(rc, "pass_list"@),
            _ => false,
        }
    } else if rc.role == Role::Transform && t == "regex_parser"@ {
        match s {
            Settings::RegexParser { pattern } => pattern@ == str_field(rc, "regex"@),
            _ => false,
        }
    } else if rc.role == Role::Sink && t == "s3"@ {
        match s {
            Settings::S3 { bucket, region, endpoint } => bucket@ == str_field(rc, "bucket"@)
                && opt_view(region) == opt_str_field(rc, "region"@) && opt_view(endpoint)
                == opt_str_field(rc, "endpoint"@),
            _ => false,
        }
    } else if rc.role == Role::Source && t == "aws_sqs"@ {
        match s {
            Settings::AwsSqs { queue_url, poll_secs, visibility_timeout_secs, delete_message } => {
                &&& queue_url@ == str_field(rc, "queue_url"@)
                &&& opt_int_view(poll_secs) == opt_int_field(rc, "poll_secs"@)
                &&& opt_int_view(visibility_timeout_secs) == opt_int_field(
                    rc,
                    "visibility_timeout_secs"@,
                )
                &&& delete_message == opt_bool_field(rc, "delete_message"@)
            },
            _ => false,
        }
    } else {
        false
    }
}

/// The typed component is the raw component's decoding: same name, the
/// raw inputs list (none for a source), and settings carrying the raw
/// field values.
pub open spec fn comp_matches(comp: Component, rc: RawComponent) -> bool {
    &&& comp.name@ == rc.name@
    &&& comp.inputs.deep_view() == (if rc.role == Role::Source {
        Seq::<Seq<char>>::empty()
    } else {
        arr_field(rc, "inputs"@)
    })
    &&& settings_match(comp.settings, rc)
}

/// The namespace word of a role, as a value.
fn role_plural_str(r: Role) -> (s: &'static str)
    ensures
        s@ == role_plural(r),
{
    match r {
        Role::Source => "sources",
        Role::Transform => "transforms",
        Role::Sink => "sinks",
    }
}

/// Build a missing-field error.
fn missing_field_exec(field: &str, role: Role, name: &str) -> (r: String)
    ensures
        r@ == missing_field_msg(field@, role, name@),
{
    let mut s = "missing field `".to_owned();
    s.append(field);
    s.append("` for key `");
    s.append(role_plural_str(role));
    s.append(".");
    s.append(name);
    s.append("`");
    proof {
        assert(s@ =~= missing_field_msg(field@, role, name@));
    }
    s
}

/// Build an invalid-type error.
fn invalid_type_exec(field: &str, role: Role, name: &str) -> (r: String)
    ensures
        r@ == invalid_type_msg(field@, role, name@),
{
    let mut s = "invalid type for key `".to_owned();
    s.append(role_plural_str(role));
    s.append(".");
    s.append(name);
    s.append(".");
    s.append(field);
    s.append("`");
    proof {
        assert(s@ =~= invalid_type_msg(field@, role, name@));
    }
    s
}

/// Build an unknown-variant error.
fn unknown_variant_exec(v: &str, role: Role) -> (r: String)
    ensures
        r@ == unknown_variant_msg(v@, role),
{
    let mut s = "unknown variant `".to_owned();
    s.append(v);
    s.append("`, expected one of ");
    match role {
        Role::Source => s.append("`tcp`, `aws_sqs`"),
        Role::Transform => s.append("`sampler`, `regex_parser`"),
        Role::Sink => s.append("`tcp`, `s3`"),
    }
    proof {
        assert(s@ =~= unknown_variant_msg(v@, role));
    }
    s
}

/// The first binding of the given key, as a reference.
fn find_entry_exec<'a>(entries: &'a Vec<RawEntry>, k: &str) -> (r: Option<&'a RawValue>)
    ensures
        match r {
            Option::Some(v) => find_entry(entries@, k@) == Option::Some(*v),
            Option::None => find_entry(entries@, k@) is None,
        },
{
    let mut i: usize = 0;
    proof {
        assert(entries@.skip(0) =~= entries@);
    }
    while i < entries.len()
        invariant
            i <= entries@.len(),
            find_entry(entries@, k@) == find_entry(entries@.skip(i as int), k@),
        decreases entries@.len() - i,
    {
        proof {
            assert(entries@.skip(i as int).first() == entries@[i as int]);
            assert(entries@.skip(i as int).drop_first() =~= entries@.skip(i + 1));
        }
        if crate::text::eq_str(entries[i].key.as_str(), k) {
            return Some(&entries[i].value);
        }
        i = i + 1;
    }
    proof {
        assert(entries@.skip(entries@.len() as int).len() == 0);
    }
    None
}

/// Copy a list of strings.
fn clone_strings(v: &Vec<String>) -> (r: Vec<String>)
    ensures
        r.deep_view() == v.deep_view(),
        r@.len() == v@.len(),
{
    let mut out: Vec<String> = Vec::new();
    let mut i: usize = 0;
    while i < v.len()
        invariant
            i <= v@.len(),
            out@.len() == i,
            out.deep_view() == v.deep_view().take(i as int),
        decreases v@.len() - i,
    {
        let ghost pre = out.deep_view();
        out.push(v[i].clone());
        proof {
            assert(out.deep_view() =~= pre.push(v@[i as int]@));
            assert(out.deep_view() =~= v.deep_view().take(i + 1));
        }
        i = i + 1;
    }
    proof {
        assert(v.deep_view().take(v@.len() as int) =~= v.deep_view());
    }
    out
}

/// Decode one component: its structural errors, and its typed form when
/// there are none.
#[verifier::rlimit(60)]
fn decode_comp(rc: &RawComponent) -> (r: (Vec<String>, Option<Component>))
    ensures
        r.0.deep_view() == comp_errs(*rc),
        (r.0.deep_view().len() == 0) <==> (r.1 is Some),
        r.1 matches Option::Some(comp) ==> comp_matches(comp, *rc) && kind_allowed(
            rc.role,
            comp.settings,
        ) && (rc.role == Role::Source ==> comp.inputs@.len() == 0),
{
    let mut errs: Vec<String> = Vec::new();
    let name = rc.name.as_str();
    let role = rc.role;
    let tkind = match find_entry_exec(&rc.entries, "type") {
        Some(RawValue::Str(t)) => Some(t.clone()),
        Some(_) => {
            errs.push(invalid_type_exec("type", role, name));
            None
        },
        None => {
            errs.push(missing_field_exec("type", role, name));
            None
        },
    };
    let t = match tkind {
        Some(t) => t,
        None => {
            proof {
                assert(errs.deep_view() =~= comp_errs(*rc));
            }
            return (errs, None);
        },
    };
    // an unregistered kind is the component's one error
    let known: bool = (matches!(role, Role::Source) && (crate::text::eq_str(t.as_str(), "tcp")
        || crate::text::eq_str(t.as_str(), "aws_sqs"))) || (
    matches!(role, Role::Sink) && (crate::text::eq_str(t.as_str(), "tcp") || crate::text::eq_str(
        t.as_str(),
        "s3",
    ))) || (matches!(role, Role::Transform) && (crate::text::eq_str(t.as_str(), "sampler")
        || crate::text::eq_str(t.as_str(), "regex_parser")));
    if !known {
        errs.push(unknown_variant_exec(t.as_str(), role));
        proof {
            assert(errs.deep_view() =~= comp_errs(*rc));
        }
        return (errs, None);
    }
    // inputs, required outside the sources namespace
    let mut inputs: Vec<String> = Vec::new();
    if !matches!(role, Role::Source) {
        match find_entry_exec(&rc.entries, "inputs") {
            Some(RawValue::StrArr(items)) => {
                inputs = clone_strings(items);
            },
            Some(_) => {
                errs.push(invalid_type_exec("inputs", role, name));
            },
            None => {
                errs.push(missing_field_exec("inputs", role, name));
            },
        }
    }
    proof {
        assert(errs.deep_view() =~= inputs_errs(*rc));
    }
    // kind-specific fields; the spec lists them before the inputs errors
    let mut kerrs: Vec<String> = Vec::new();
    let settings: Option<Settings> = if matches!(role, Role::Source) && crate::text::eq_str(
        t.as_str(),
        "tcp",
    ) {
        match find_entry_exec(&rc.entries, "address") {
            Some(RawValue::Str(v)) => Some(Settings::Tcp { address: v.clone() }),
            Some(_) => {
                kerrs.push(invalid_type_exec("address", role, name));
                None
            },
            None => {
                kerrs.push(missing_field_exec("address", role, name));
                None
            },
        }
    } else if matches!(role, Role::Sink) && crate::text::eq_str(t.as_str(), "tcp") {
        match find_entry_exec(&rc.entries, "address") {
            Some(RawValue::Str(v)) => Some(Settings::Tcp { address: v.clone() }),
            Some(_) => {
                kerrs.push(invalid_type_exec("address", role, name));
                None
            },
            None => {
                kerrs.push(missing_field_exec("address", role, name));
                None
            },
        }
    } else if matches!(role, Role::Transform) && crate::text::eq_str(t.as_str(), "sampler") {
        let rate = match find_entry_exec(&rc.entries, "rate") {
            Some(RawValue::Int(v)) => Some(*v),
            Some(_) => {
                kerrs.push(invalid_type_exec("rate", role, name));
                None
            },
            None => {
                kerrs.push(missing_field_exec("rate", role, name));
                None
            },
        };
        let pass_list = match find_entry_exec(&rc.entries, "pass_list") {
            Some(RawValue::StrArr(items)) => Some(clone_strings(items)),
            Some(_) => {
                kerrs.push(invalid_type_exec("pass_list", role, name));
                None
            },
            None => {
                kerrs.push(missing_field_exec("pass_list", role, name));
                None
            },
        };
        match (rate, pass_list) {
            (Some(rv), Some(pl)) => Some(Settings::Sampler { rate: rv, pass_list: pl }),
            _ => None,
        }
    } else if matches!(role, Role::Transform) && crate::text::eq_str(t.as_str(), "regex_parser") {
        match find_entry_exec(&rc.entries, "regex") {
            Some(RawValue::Str(v)) => Some(Settings::RegexParser { pattern: v.clone() }),
            Some(_) => {
                kerrs.push(invalid_type_exec("regex", role, name));
                None
            },
            None => {
                kerrs.push(missing_field_exec("regex", role, name));
                None
            },
        }
    } else if matches!(role, Role::Sink) && crate::text::eq_str(t.as_str(), "s3") {
        let bucket = match find_entry_exec(&rc.entries, "bucket") {
            Some(RawValue::Str(v)) => Some(v.clone()),
            Some(_) => {
                kerrs.push(invalid_type_exec("bucket", role, name));
                None
            },
            None => {
                kerrs.push(missing_field_exec("bucket", role, name));
                None
            },
        };
        let region = match find_entry_exec(&rc.entries, "region") {
            Some(RawValue::Str(v)) => Some(v.clone()),
            Some(_) => {
                kerrs.push(invalid_type_exec("region", role, name));
                None
            },
            None => None,
        };
        let endpoint = match find_entry_exec(&rc.entries, "endpoint") {
            Some(RawValue::Str(v)) => Some(v.clone()),
            Some(_) => {
                kerrs.push(invalid_type_exec("endpoint", role, name));
                None
            },
            None => None,
        };
        match bucket {
            Some(b) => if kerrs.len() == 0 {
                Some(Settings::S3 { bucket: b, region, endpoint })
            } else {
                None
            },
            None => None,
        }
    } else if matches!(role, Role::Source) && crate::text::eq_str(t.as_str(), "aws_sqs") {
        let queue_url = match find_entry_exec(&rc.entries, "queue_url") {
            Some(RawValue::Str(v)) => Some(v.clone()),
            Some(_) => {
                kerrs.push(invalid_type_exec("queue_url", role, name));
                None
            },
            None => {
                kerrs.push(missing_field_exec("queue_url", role, name));
                None
            },
        };
        let poll_secs = match find_entry_exec(&rc.entries, "poll_secs") {
            Some(RawValue::Int(v)) => Some(*v),
            Some(_) => {
                kerrs.push(invalid_type_exec("poll_secs", role, name));
                None
            },
            None => None,
        };
        let visibility_timeout_secs = match find_entry_exec(&rc.entries, "visibility_timeout_secs") {
            Some(RawValue::Int(v)) => Some(*v),
            Some(_) => {
                kerrs.push(invalid_type_exec("visibility_timeout_secs", role, name));
                None
            },
            None => None,
        };
        let delete_message = match find_entry_exec(&rc.entries, "delete_message") {
            Some(RawValue::Bool(v)) => Some(*v),
            Some(_) => {
                kerrs.push(invalid_type_exec("delete_message", role, name));
                None
            },
            None => None,
        };
        match queue_url {
            Some(q) => if kerrs.len() == 0 {
                Some(
                    Settings::AwsSqs {
                        queue_url: q,
                        poll_secs,
                        visibility_timeout_secs,
                        delete_message,
                    },
                )
            } else {
                None
            },
            None => None,
        }
    } else {
        proof {
            assert(false);
        }
        None
    };
    let mut out = kerrs;
    crate::validate::push_all(&mut out, errs);
    proof {
        assert(out.deep_view() =~= comp_errs(*rc));
        assert(out.deep_view().len() == out@.len());
    }
    if out.len() == 0 {
        match settings {
            Some(st) => {
                let comp = Component { name: rc.name.clone(), settings: st, inputs };
                proof {
                    if rc.role == Role::Source {
                        assert(comp.inputs.deep_view() =~= Seq::<Seq<char>>::empty());
                    }
                    assert(comp_matches(comp, *rc));
                }
                (out, Some(comp))
            },
            None => {
                proof {
                    assert(false);
                }
                (out, None)
            },
        }
    } else {
        (out, None)
    }
}

/// Decode a raw document into a configuration, or report every structural
/// error of the document together. On success the configuration is the
/// document's decoding and nothing else: each namespace holds exactly the
/// decodings of the raw components of its role, in declaration order.
#[verifier::rlimit(60)]
pub fn decode(doc: &RawDocument) -> (r: Result<Config, Vec<String>>)
    ensures
        match r {
            Ok(c) => {
                &&& doc_errs(doc.comps@).len() == 0
                &&& c.wf()
                &&& c.sources@.len() == of_role(doc.comps@, Role::Source).len()
                &&& c.transforms@.len() == of_role(doc.comps@, Role::Transform).len()
                &&& c.sinks@.len() == of_role(doc.comps@, Role::Sink).len()
                &&& forall|i: int|
                    0 <= i < c.sources@.len() ==> comp_matches(
                        #[trigger] c.sources@[i],
                        of_role(doc.comps@, Role::Source)[i],
                    )
                &&& forall|i: int|
                    0 <= i < c.transforms@.len() ==> comp_matches(
                        #[trigger] c.transforms@[i],
                        of_role(doc.comps@, Role::Transform)[i],
                    )
                &&& forall|i: int|
                    0 <= i < c.sinks@.len() ==> comp_matches(
                        #[trigger] c.sinks@[i],
                        of_role(doc.comps@, Role::Sink)[i],
                    )
            },
            Err(e) => e.deep_view() == doc_errs(doc.comps@) && e@.len() > 0,
        },
{
    let mut errs: Vec<String> = Vec::new();
    let mut sources: Vec<Component> = Vec::new();
    let mut transforms: Vec<Component> = Vec::new();
    let mut sinks: Vec<Component> = Vec::new();
    let mut k: usize = 0;
    while k < doc.comps.len()
        invariant
            k <= doc.comps@.len(),
            errs.deep_view() == doc_errs(doc.comps@.take(k as int)),
            errs.deep_view().len() == errs@.len(),
            forall|i: int|
                0 <= i < sources@.len() ==> (#[trigger] sources@[i]).inputs@.len() == 0
                    && kind_allowed(Role::Source, sources@[i].settings),
            forall|i: int|
                0 <= i < transforms@.len() ==> kind_allowed(
                    Role::Transform,
                    (#[trigger] transforms@[i]).settings,
                ),
            forall|i: int|
                0 <= i < sinks@.len() ==> kind_allowed(
                    Role::Sink,
                    (#[trigger] sinks@[i]).settings,
                ),
            errs@.len() == 0 ==> sources@.len() == of_role(
                doc.comps@.take(k as int),
                Role::Source,
            ).len(),
            errs@.len() == 0 ==> transforms@.len() == of_role(
                doc.comps@.take(k as int),
                Role::Transform,
            ).len(),
            errs@.len() == 0 ==> sinks@.len() == of_role(
                doc.comps@.take(k as int),
                Role::Sink,
            ).len(),
            errs@.len() == 0 ==> forall|i: int|
                0 <= i < sources@.len() ==> comp_matches(
                    #[trigger] sources@[i],
                    of_role(doc.comps@.take(k as int), Role::Source)[i],
                ),
            errs@.len() == 0 ==> forall|i: int|
                0 <= i < transforms@.len() ==> comp_matches(
                    #[trigger] transforms@[i],
                    of_role(doc.comps@.take(k as int), Role::Transform)[i],
                ),
            errs@.len() == 0 ==> forall|i: int|
                0 <= i < sinks@.len() ==> comp_matches(
                    #[trigger] sinks@[i],
                    of_role(doc.comps@.take(k as int), Role::Sink)[i],
                ),
        decreases doc.comps@.len() - k,
    {
        let pair = decode_comp(&doc.comps[k]);
        let ghost g1 = pair.1;
        let ghost old_sources = sources@;
        let ghost old_transforms = transforms@;
        let ghost old_sinks = sinks@;
        let cerrs = pair.0;
        crate::validate::push_all(&mut errs, cerrs);
        match pair.1 {
            Some(comp) => {
                match doc.comps[k].role {
                    Role::Source => sources.push(comp),
                    Role::Transform => transforms.push(comp),
                    Role::Sink => sinks.push(comp),
                }
            },
            None => {},
        }
        proof {
            let rcs = doc.comps@;
            let rc = rcs[k as int];
            assert(rcs.take(k + 1).drop_last() =~= rcs.take(k as int));
            assert(rcs.take(k + 1).last() == rc);
            assert(errs.deep_view() =~= doc_errs(rcs.take(k + 1)));
            if errs@.len() == 0 {
                match g1 {
                    Option::Some(comp) => {
                        assert(comp_matches(comp, rc));
                        if rc.role == Role::Source {
                            assert(sources@ =~= old_sources.push(comp));
                            assert(of_role(rcs.take(k + 1), Role::Source) =~= of_role(
                                rcs.take(k as int),
                                Role::Source,
                            ).push(rc));
                            assert(of_role(rcs.take(k + 1), Role::Transform) =~= of_role(
                                rcs.take(k as int),
                                Role::Transform,
                            ));
                            assert(of_role(rcs.take(k + 1), Role::Sink) =~= of_role(
                                rcs.take(k as int),
                                Role::Sink,
                            ));
                            assert forall|i: int| 0 <= i < sources@.len() implies comp_matches(
                                #[trigger] sources@[i],
                                of_role(rcs.take(k + 1), Role::Source)[i],
                            ) by {
                                if i < sources@.len() - 1 {
                                    assert(sources@[i] == old_sources[i]);
                                } else {
                                    assert(sources@[i] == comp);
                                    assert(of_role(rcs.take(k + 1), Role::Source)[i] == rc);
                                }
                            }
                        } else if rc.role == Role::Transform {
                            assert(transforms@ =~= old_transforms.push(comp));
                            assert(of_role(rcs.take(k + 1), Role::Transform) =~= of_role(
                                rcs.take(k as int),
                                Role::Transform,
                            ).push(rc));
                            assert(of_role(rcs.take(k + 1), Role::Source) =~= of_role(
                                rcs.take(k as int),
                                Role::Source,
                            ));
                            assert(of_role(rcs.take(k + 1), Role::Sink) =~= of_role(
                                rcs.take(k as int),
                                Role::Sink,
                            ));
                            assert forall|i: int| 0 <= i < transforms@.len() implies comp_matches(
                                #[trigger] transforms@[i],
                                of_role(rcs.take(k + 1), Role::Transform)[i],
                            ) by {
                                if i < transforms@.len() - 1 {
                                    assert(transforms@[i] == old_transforms[i]);
                                } else {
                                    assert(transforms@[i] == comp);
                                    assert(of_role(rcs.take(k + 1), Role::Transform)[i] == rc);
                                }
                            }
                        } else {
                            assert(sinks@ =~= old_sinks.push(comp));
                            assert(of_role(rcs.take(k + 1), Role::Sink) =~= of_role(
                                rcs.take(k as int),
                                Role::Sink,
                            ).push(rc));
                            assert(of_role(rcs.take(k + 1), Role::Source) =~= of_role(
                                rcs.take(k as int),
                                Role::Source,
                            ));
                            assert(of_role(rcs.take(k + 1), Role::Transform) =~= of_role(
                                rcs.take(k as int),
                                Role::Transform,
                            ));
                            assert forall|i: int| 0 <= i < sinks@.len() implies comp_matches(
                                #[trigger] sinks@[i],
                                of_role(rcs.take(k + 1), Role::Sink)[i],
                            ) by {
                                if i < sinks@.len() - 1 {
                                    assert(sinks@[i] == old_sinks[i]);
                                } else {
                                    assert(sinks@[i] == comp);
                                    assert(of_role(rcs.take(k + 1), Role::Sink)[i] == rc);
                                }
                            }
                        }
                    },
                    Option::None => {
                        assert(false);
                    },
                }
            }
        }
        k = k + 1;
    }
    proof {
        assert(doc.comps@.take(doc.comps@.len() as int) =~= doc.comps@);
    }
    if errs.len() == 0 {
        let c = Config { sources, transforms, sinks };
        proof {
            assert(c.wf());
        }
        Ok(c)
    } else {
        Err(errs)
    }
}

impl Config {
    /// Read a configuration document from text. A syntax error fails
    /// immediately with a single line-numbered message; otherwise the
    /// text's raw components are handed to `decode`, whose contract pins
    /// the resulting configuration and error list exactly against the raw
    /// document. The lexical layer itself (text to raw components) is
    /// implemented here but carries no spec-level description, so this
    /// contract states only what survives it.
    pub fn load(s: &str) -> (r: Result<Config, Vec<String>>)
        requires
            s@.len() < usize::MAX,
        ensures
            r matches Ok(c) ==> c.wf(),
            r matches Err(e) ==> e@.len() >= 1,
    {
        match parse_document(s) {
            Ok(doc) => decode(&doc),
            Err(m) => {
                let mut v: Vec<String> = Vec::new();
                v.push(m);
                Err(v)
            },
        }
    }
}

} // verus!

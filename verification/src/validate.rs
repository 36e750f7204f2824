//! Kind-specific settings validation: sampler and parser patterns must
//! compile, and an object-store sink must name exactly one of a known
//! region or a well-formed endpoint. Each failure is wrapped with the
//! owning component's role and name.

use vstd::prelude::*;

use crate::config::{nested_err_msg, nested_err_msg_exec, Component, Config, Role, Settings};

verus! {

/// What compiling a pattern yields: nothing when the pattern is a valid
/// regular expression, or the parse error's rendering. The outcome depends
/// on the pattern alone.
pub uninterp spec fn regex_error(pattern: Seq<char>) -> Option<Seq<char>>;

/// What parsing a URI yields: nothing when the text is a well-formed URI,
/// or the parse error's rendering. The outcome depends on the text alone.
pub uninterp spec fn uri_error(s: Seq<char>) -> Option<Seq<char>>;

/// Relies on regex::Regex::new: whether a pattern compiles, and how its
/// parse error renders, are functions of the pattern alone.
#[verifier::external_body]
fn check_regex(pattern: &str) -> (r: Option<String>)
    ensures
        match r {
            Option::None => regex_error(pattern@) is None,
            Option::Some(m) => regex_error(pattern@) == Option::Some(m@),
        },
{
    match regex::Regex::new(pattern) {
        Ok(_) => None,
        Err(e) => Some(format!("{}", e)),
    }
}

/// Relies on http::Uri's TryFrom<&str>: whether a text parses as a URI, and
/// how its parse error renders, are functions of the text alone.
#[verifier::external_body]
fn check_uri(s: &str) -> (r: Option<String>)
    ensures
        match r {
            Option::None => uri_error(s@) is None,
            Option::Some(m) => uri_error(s@) == Option::Some(m@),
        },
{
    match <http::Uri as std::convert::TryFrom<&str>>::try_from(s) {
        Ok(_) => None,
        Err(e) => Some(format!("{}", e)),
    }
}

/// The region names the registry accepts for object-store sinks.
pub open spec fn is_valid_region(n: Seq<char>) -> bool {
    ||| n == "ap-northeast-1"@
    ||| n == "ap-northeast-2"@
    ||| n == "ap-south-1"@
    ||| n == "ap-southeast-1"@
    ||| n == "ap-southeast-2"@
    ||| n == "ca-central-1"@
    ||| n == "cn-north-1"@
    ||| n == "cn-northwest-1"@
    ||| n == "eu-central-1"@
    ||| n == "eu-west-1"@
    ||| n == "eu-west-2"@
    ||| n == "eu-west-3"@
    ||| n == "sa-east-1"@
    ||| n == "us-east-1"@
    ||| n == "us-east-2"@
    ||| n == "us-gov-west-1"@
    ||| n == "us-west-1"@
    ||| n == "us-west-2"@
}

/// Whether the registry knows the region name.
pub fn check_region(n: &str) -> (r: bool)
    ensures
        r == is_valid_region(n@),
{
    crate::text::eq_str(n, "ap-northeast-1") || crate::text::eq_str(n, "ap-northeast-2")
        || crate::text::eq_str(n, "ap-south-1") || crate::text::eq_str(n, "ap-southeast-1")
        || crate::text::eq_str(n, "ap-southeast-2") || crate::text::eq_str(n, "ca-central-1")
        || crate::text::eq_str(n, "cn-north-1") || crate::text::eq_str(n, "cn-northwest-1")
        || crate::text::eq_str(n, "eu-central-1") || crate::text::eq_str(n, "eu-west-1")
        || crate::text::eq_str(n, "eu-west-2") || crate::text::eq_str(n, "eu-west-3")
        || crate::text::eq_str(n, "sa-east-1") || crate::text::eq_str(n, "us-east-1")
        || crate::text::eq_str(n, "us-east-2") || crate::text::eq_str(n, "us-gov-west-1")
        || crate::text::eq_str(n, "us-west-1") || crate::text::eq_str(n, "us-west-2")
}

/// The settings errors of an object-store sink, already wrapped with the
/// owning component's role and name: exactly one of region or endpoint
/// must be set, the region must be known, and the endpoint must parse as a
/// URI.
pub open spec fn s3_errs(role: Role, name: Seq<char>, region: Option<String>, endpoint: Option<
    String,
>) -> Seq<Seq<char>> {
    match (region, endpoint) {
        (Option::None, Option::None) => seq![
            nested_err_msg(role, name, "Must set 'region' or 'endpoint'"@),
        ],
        (Option::Some(_), Option::Some(_)) => seq![
            nested_err_msg(role, name, "Only one of 'region' or 'endpoint' can be specified"@),
        ],
        (Option::Some(r), Option::None) => if is_valid_region(r@) {
            Seq::empty()
        } else {
            seq![nested_err_msg(role, name, "Not a valid AWS region: "@ + r@)]
        },
        (Option::None, Option::Some(e)) => match uri_error(e@) {
            Option::None => Seq::empty(),
            Option::Some(err) => seq![
                nested_err_msg(role, name, "Failed to parse custom endpoint as URI: "@ + err),
            ],
        },
    }
}

/// The settings errors of a sampling transform: one wrapped error per
/// pass-list pattern that does not compile, in list order.
pub open spec fn pass_list_errs(role: Role, name: Seq<char>, pats: Seq<String>) -> Seq<Seq<char>>
    decreases pats.len(),
{
    if pats.len() == 0 {
        Seq::empty()
    } else {
        pass_list_errs(role, name, pats.drop_last()) + match regex_error(pats.last()@) {
            Option::None => Seq::<Seq<char>>::empty(),
            Option::Some(e) => seq![nested_err_msg(role, name, e)],
        }
    }
}

/// The settings errors of one component.
pub open spec fn settings_errs(role: Role, comp: Component) -> Seq<Seq<char>> {
    match comp.settings {
        Settings::Tcp { .. } => Seq::empty(),
        Settings::Sampler { rate: _, pass_list } => pass_list_errs(role, comp.name@, pass_list@),
        Settings::RegexParser { pattern } => match regex_error(pattern@) {
            Option::None => Seq::<Seq<char>>::empty(),
            Option::Some(e) => seq![nested_err_msg(role, comp.name@, e)],
        },
        Settings::S3 { bucket: _, region, endpoint } => s3_errs(role, comp.name@, region, endpoint),
        Settings::AwsSqs { .. } => Seq::empty(),
    }
}

/// The settings errors of a list of components, in declaration order.
pub open spec fn comps_settings_errs(role: Role, comps: Seq<Component>) -> Seq<Seq<char>>
    decreases comps.len(),
{
    if comps.len() == 0 {
        Seq::empty()
    } else {
        comps_settings_errs(role, comps.drop_last()) + settings_errs(role, comps.last())
    }
}

/// Every kind-specific settings error of the document: sources, then
/// transforms, then sinks, each namespace in declaration order.
pub open spec fn settings_errors(c: Config) -> Seq<Seq<char>> {
    comps_settings_errs(Role::Source, c.sources@) + comps_settings_errs(
        Role::Transform,
        c.transforms@,
    ) + comps_settings_errs(Role::Sink, c.sinks@)
}

/// Append every element of `src` to `dst`.
pub fn push_all(dst: &mut Vec<String>, src: Vec<String>)
    ensures
        final(dst).deep_view() == old(dst).deep_view() + src.deep_view(),
{
    let mut i: usize = 0;
    while i < src.len()
        invariant
            i <= src@.len(),
            dst.deep_view() == old(dst).deep_view() + src.deep_view().take(i as int),
        decreases src@.len() - i,
    {
        let ghost pre = dst.deep_view();
        dst.push(src[i].clone());
        proof {
            assert(dst.deep_view() =~= pre.push(src@[i as int]@));
            assert(dst.deep_view() =~= old(dst).deep_view() + src.deep_view().take(i + 1));
        }
        i = i + 1;
    }
    proof {
        assert(src.deep_view().take(src@.len() as int) =~= src.deep_view());
    }
}

/// The settings errors of one component, as values.
fn comp_settings_errs_exec(role: Role, comp: &Component) -> (r: Vec<String>)
    ensures
        r.deep_view() == settings_errs(role, *comp),
{
    let mut out: Vec<String> = Vec::new();
    match &comp.settings {
        Settings::Tcp { .. } => {
            proof {
                assert(out.deep_view() =~= settings_errs(role, *comp));
            }
        },
        Settings::AwsSqs { .. } => {
            proof {
                assert(out.deep_view() =~= settings_errs(role, *comp));
            }
        },
        Settings::Sampler { rate: _, pass_list } => {
            let mut j: usize = 0;
            while j < pass_list.len()
                invariant
                    j <= pass_list@.len(),
                    comp.settings matches Settings::Sampler { pass_list: pl, .. } && pl == *pass_list,
                    out.deep_view() == pass_list_errs(role, comp.name@, pass_list@.take(j as int)),
                decreases pass_list@.len() - j,
            {
                let ghost pre = out.deep_view();
                match check_regex(pass_list[j].as_str()) {
                    None => {},
                    Some(e) => {
                        out.push(nested_err_msg_exec(role, comp.name.as_str(), e.as_str()));
                        proof {
                            assert(out.deep_view() =~= pre.push(
                                nested_err_msg(role, comp.name@, e@),
                            ));
                        }
                    },
                }
                proof {
                    assert(pass_list@.take(j + 1).drop_last() =~= pass_list@.take(j as int));
                    assert(pass_list@.take(j + 1).last() == pass_list@[j as int]);
                    assert(out.deep_view() =~= pass_list_errs(
                        role,
                        comp.name@,
                        pass_list@.take(j + 1),
                    ));
                }
                j = j + 1;
            }
            proof {
                assert(pass_list@.take(pass_list@.len() as int) =~= pass_list@);
            }
        },
        Settings::RegexParser { pattern } => {
            match check_regex(pattern.as_str()) {
                None => {},
                Some(e) => {
                    out.push(nested_err_msg_exec(role, comp.name.as_str(), e.as_str()));
                },
            }
            proof {
                assert(out.deep_view() =~= settings_errs(role, *comp));
            }
        },
        Settings::S3 { bucket: _, region, endpoint } => {
            match (region, endpoint) {
                (None, None) => {
                    out.push(
                        nested_err_msg_exec(
                            role,
                            comp.name.as_str(),
                            "Must set 'region' or 'endpoint'",
                        ),
                    );
                },
                (Some(_), Some(_)) => {
                    out.push(
                        nested_err_msg_exec(
                            role,
                            comp.name.as_str(),
                            "Only one of 'region' or 'endpoint' can be specified",
                        ),
                    );
                },
                (Some(r), None) => {
                    if !check_region(r.as_str()) {
                        let mut m = "Not a valid AWS region: ".to_owned();
                        m.append(r.as_str());
                        out.push(nested_err_msg_exec(role, comp.name.as_str(), m.as_str()));
                    }
                },
                (None, Some(e)) => {
                    match check_uri(e.as_str()) {
                        None => {},
                        Some(err) => {
                            let mut m = "Failed to parse custom endpoint as URI: ".to_owned();
                            m.append(err.as_str());
                            out.push(nested_err_msg_exec(role, comp.name.as_str(), m.as_str()));
                        },
                    }
                },
            }
            proof {
                assert(out.deep_view() =~= settings_errs(role, *comp));
            }
        },
    }
    out
}

/// The settings errors of one namespace, as values.
fn namespace_settings_errs(role: Role, comps: &Vec<Component>) -> (r: Vec<String>)
    ensures
        r.deep_view() == comps_settings_errs(role, comps@),
{
    let mut out: Vec<String> = Vec::new();
    let mut k: usize = 0;
    while k < comps.len()
        invariant
            k <= comps@.len(),
            out.deep_view() == comps_settings_errs(role, comps@.take(k as int)),
        decreases comps@.len() - k,
    {
        let errs = comp_settings_errs_exec(role, &comps[k]);
        push_all(&mut out, errs);
        proof {
            assert(comps@.take(k + 1).drop_last() =~= comps@.take(k as int));
            assert(comps@.take(k + 1).last() == comps@[k as int]);
        }
        k = k + 1;
    }
    proof {
        assert(comps@.take(comps@.len() as int) =~= comps@);
    }
    out
}

/// Every kind-specific settings error of the document, as values.
pub fn validate_settings(c: &Config) -> (r: Vec<String>)
    ensures
        r.deep_view() == settings_errors(*c),
{
    let mut out = namespace_settings_errs(Role::Source, &c.sources);
    let t = namespace_settings_errs(Role::Transform, &c.transforms);
    push_all(&mut out, t);
    let s = namespace_settings_errs(Role::Sink, &c.sinks);
    push_all(&mut out, s);
    out
}

} // verus!

//! Conversion of a generic object into a strongly-typed record.
//!
//! The spec functions here say exactly which payload shapes decode and to
//! what; the executable converters are proved to follow them. A decode
//! failure of any kind — missing required field, wrong primitive type,
//! unrecognized enum value — is `GatekeeperError::FailedConversion`; no
//! partial record is ever returned. After a successful decode the
//! cluster-assigned identity (`name`, and `kind` for a constraint)
//! overwrites any same-named field that arrived inside the payload.

use vstd::prelude::*;

use crate::document::{field_lookup, find_field, DocValue, GenericObject};
use crate::gatekeeper::{
    default_namespace, Constraint, ConstraintModel, ConstraintSpec, ConstraintSpecModel,
    ConstraintStatus, ConstraintStatusModel, ConstraintTemplate, ConstraintTemplateModel,
    ConstraintTemplateSpec, ConstraintTemplateSpecModel, EnforcementAction, GatekeeperError,
    MatchScope, MatchSpec, MatchSpecModel, TemplateTarget, TemplateTargetModel, Violation,
    ViolationModel,
};

verus! {

// ---------------------------------------------------------------------------
// Wire values of the closed enums.
// ---------------------------------------------------------------------------

/// The enforcement action a wire string denotes, if any.
pub open spec fn parse_action(s: Seq<char>) -> Option<EnforcementAction> {
    if s == "dryrun"@ {
        Some(EnforcementAction::DryRun)
    } else if s == "warn"@ {
        Some(EnforcementAction::Warn)
    } else if s == "deny"@ {
        Some(EnforcementAction::Deny)
    } else {
        None
    }
}

/// The match scope a wire string denotes, if any.
pub open spec fn parse_scope(s: Seq<char>) -> Option<MatchScope> {
    if s == "*"@ {
        Some(MatchScope::Everything)
    } else if s == "Cluster"@ {
        Some(MatchScope::Cluster)
    } else if s == "Namespaced"@ {
        Some(MatchScope::Namespaced)
    } else {
        None
    }
}

fn action_of_string(s: &String) -> (r: Option<EnforcementAction>)
    ensures
        r == parse_action(s@),
{
    let dryrun: String = "dryrun".to_owned();
    let warn: String = "warn".to_owned();
    let deny: String = "deny".to_owned();
    if *s == dryrun {
        Some(EnforcementAction::DryRun)
    } else if *s == warn {
        Some(EnforcementAction::Warn)
    } else if *s == deny {
        Some(EnforcementAction::Deny)
    } else {
        None
    }
}

fn scope_of_string(s: &String) -> (r: Option<MatchScope>)
    ensures
        r == parse_scope(s@),
{
    let star: String = "*".to_owned();
    let cluster: String = "Cluster".to_owned();
    let namespaced: String = "Namespaced".to_owned();
    if *s == star {
        Some(MatchScope::Everything)
    } else if *s == cluster {
        Some(MatchScope::Cluster)
    } else if *s == namespaced {
        Some(MatchScope::Namespaced)
    } else {
        None
    }
}

// ---------------------------------------------------------------------------
// Field shapes.
// ---------------------------------------------------------------------------

/// A required string field.
pub open spec fn req_string(fields: Seq<(String, DocValue)>, key: Seq<char>) -> Option<Seq<char>> {
    match field_lookup(fields, key) {
        Some(DocValue::Str(s)) => Some(s@),
        _ => None,
    }
}

/// A string field whose value is ignored: it may be absent, but when
/// present it must still be a string for the payload to decode.
pub open spec fn str_field_ok_if_present(
    fields: Seq<(String, DocValue)>,
    key: Seq<char>,
) -> bool {
    match field_lookup(fields, key) {
        None => true,
        Some(DocValue::Str(_)) => true,
        Some(_) => false,
    }
}

/// The `enforcementAction` field of a constraint spec: absent defaults to
/// `Deny`; present it must be a recognized wire string.
pub open spec fn action_field(fields: Seq<(String, DocValue)>) -> Option<EnforcementAction> {
    match field_lookup(fields, "enforcementAction"@) {
        None => Some(EnforcementAction::Deny),
        Some(DocValue::Str(s)) => parse_action(s@),
        Some(_) => None,
    }
}

/// The `enforcementAction` field of a violation: required, no default.
pub open spec fn req_action_field(fields: Seq<(String, DocValue)>) -> Option<EnforcementAction> {
    match field_lookup(fields, "enforcementAction"@) {
        Some(DocValue::Str(s)) => parse_action(s@),
        _ => None,
    }
}

/// The `namespace` field of a violation: absent defaults to the empty
/// string, marking a cluster-scoped violation.
pub open spec fn namespace_field(fields: Seq<(String, DocValue)>) -> Option<Seq<char>> {
    match field_lookup(fields, "namespace"@) {
        None => Some(Seq::empty()),
        Some(DocValue::Str(s)) => Some(s@),
        Some(_) => None,
    }
}

/// The `scope` field of a match spec: absent defaults to `Everything`.
pub open spec fn scope_field(fields: Seq<(String, DocValue)>) -> Option<MatchScope> {
    match field_lookup(fields, "scope"@) {
        None => Some(MatchScope::Everything),
        Some(DocValue::Str(s)) => parse_scope(s@),
        Some(_) => None,
    }
}

/// An array whose elements must all be strings.
pub open spec fn parse_string_seq(items: Seq<DocValue>) -> Option<Seq<Seq<char>>> {
    if forall|i: int| 0 <= i < items.len() ==> items[i] is Str {
        Some(items.map_values(|d: DocValue| d->Str_0@))
    } else {
        None
    }
}

/// An optional list-of-strings field: absent or null is `None`; an array of
/// strings is `Some`; anything else fails.
pub open spec fn opt_string_list_field(
    fields: Seq<(String, DocValue)>,
    key: Seq<char>,
) -> Option<Option<Seq<Seq<char>>>> {
    match field_lookup(fields, key) {
        None => Some(None),
        Some(DocValue::Null) => Some(None),
        Some(DocValue::Arr(items)) => match parse_string_seq(items@) {
            Some(ss) => Some(Some(ss)),
            None => None,
        },
        Some(_) => None,
    }
}

/// A required integer field that must fit a signed 16-bit count.
pub open spec fn req_i16(fields: Seq<(String, DocValue)>, key: Seq<char>) -> Option<i16> {
    match field_lookup(fields, key) {
        Some(DocValue::Int(n)) => if i16::MIN as int <= n as int && n as int <= i16::MAX as int {
            Some(n as i16)
        } else {
            None
        },
        _ => None,
    }
}

// ---------------------------------------------------------------------------
// Record shapes.
// ---------------------------------------------------------------------------

/// The decode of a `match` value.
pub open spec fn parse_match(v: DocValue) -> Option<MatchSpecModel> {
    match v {
        DocValue::Obj(fields) => match (
            scope_field(fields@),
            opt_string_list_field(fields@, "namespaces"@),
            opt_string_list_field(fields@, "excludedNamespaces"@),
        ) {
            (Some(sc), Some(ns), Some(ens)) => Some(
                MatchSpecModel { scope: sc, namespaces: ns, excluded_namespaces: ens },
            ),
            _ => None,
        },
        _ => None,
    }
}

/// The optional `match` field of a constraint spec: absent or null is
/// `None`; anything else must decode as a match spec.
pub open spec fn match_field(fields: Seq<(String, DocValue)>) -> Option<Option<MatchSpecModel>> {
    match field_lookup(fields, "match"@) {
        None => Some(None),
        Some(DocValue::Null) => Some(None),
        Some(v) => match parse_match(v) {
            Some(m) => Some(Some(m)),
            None => None,
        },
    }
}

/// The decode of a `spec` value of a constraint.
pub open spec fn parse_constraint_spec(v: DocValue) -> Option<ConstraintSpecModel> {
    match v {
        DocValue::Obj(fields) => match (action_field(fields@), match_field(fields@)) {
            (Some(a), Some(m)) => Some(
                ConstraintSpecModel { enforcement_action: a, match_spec: m },
            ),
            _ => None,
        },
        _ => None,
    }
}

/// The decode of one violation entry.
pub open spec fn parse_violation(v: DocValue) -> Option<ViolationModel> {
    match v {
        DocValue::Obj(fields) => match (
            req_action_field(fields@),
            req_string(fields@, "kind"@),
            req_string(fields@, "message"@),
            req_string(fields@, "name"@),
            namespace_field(fields@),
        ) {
            (Some(a), Some(k), Some(m), Some(n), Some(ns)) => Some(
                ViolationModel {
                    enforcement_action: a,
                    kind: k,
                    message: m,
                    name: n,
                    namespace: ns,
                },
            ),
            _ => None,
        },
        _ => None,
    }
}

/// An array whose elements must all decode as violations.
pub open spec fn parse_violation_seq(items: Seq<DocValue>) -> Option<Seq<ViolationModel>> {
    if forall|i: int| 0 <= i < items.len() ==> parse_violation(items[i]) is Some {
        Some(items.map_values(|d: DocValue| parse_violation(d).unwrap()))
    } else {
        None
    }
}

/// The decode of a `status` value of a constraint.
pub open spec fn parse_status(v: DocValue) -> Option<ConstraintStatusModel> {
    match v {
        DocValue::Obj(fields) => match (
            req_string(fields@, "auditTimestamp"@),
            req_i16(fields@, "totalViolations"@),
            match field_lookup(fields@, "violations"@) {
                Some(DocValue::Arr(items)) => parse_violation_seq(items@),
                _ => None,
            },
        ) {
            (Some(ts), Some(tv), Some(vs)) => Some(
                ConstraintStatusModel {
                    audit_timestamp: ts,
                    total_violations: tv,
                    violations: vs,
                },
            ),
            _ => None,
        },
        _ => None,
    }
}

/// The decode of a whole constraint payload: its `spec` and `status`.
///
/// The payload's own `kind` and `name` fields, when present, must be
/// strings, but their values never reach the record.
pub open spec fn parse_constraint_payload(data: DocValue) -> Option<
    (ConstraintSpecModel, ConstraintStatusModel),
> {
    match data {
        DocValue::Obj(fields) => if !str_field_ok_if_present(fields@, "kind"@)
            || !str_field_ok_if_present(fields@, "name"@) {
            None
        } else {
            match (field_lookup(fields@, "spec"@), field_lookup(fields@, "status"@)) {
                (Some(sv), Some(stv)) => match (parse_constraint_spec(sv), parse_status(stv)) {
                    (Some(sp), Some(st)) => Some((sp, st)),
                    _ => None,
                },
                _ => None,
            }
        },
        _ => None,
    }
}

/// The decode of one template target entry.
pub open spec fn parse_target(v: DocValue) -> Option<TemplateTargetModel> {
    match v {
        DocValue::Obj(fields) => match (
            req_string(fields@, "target"@),
            req_string(fields@, "rego"@),
        ) {
            (Some(t), Some(r)) => Some(TemplateTargetModel { target: t, rego: r }),
            _ => None,
        },
        _ => None,
    }
}

/// An array whose elements must all decode as template targets.
pub open spec fn parse_target_seq(items: Seq<DocValue>) -> Option<Seq<TemplateTargetModel>> {
    if forall|i: int| 0 <= i < items.len() ==> parse_target(items[i]) is Some {
        Some(items.map_values(|d: DocValue| parse_target(d).unwrap()))
    } else {
        None
    }
}

/// The decode of a whole constraint-template payload: its `spec`.
///
/// The payload's own `name` field, when present, must be a string, but its
/// value never reaches the record.
pub open spec fn parse_template_payload(data: DocValue) -> Option<ConstraintTemplateSpecModel> {
    match data {
        DocValue::Obj(fields) => if !str_field_ok_if_present(fields@, "name"@) {
            None
        } else {
            match field_lookup(fields@, "spec"@) {
                Some(DocValue::Obj(spec_fields)) => match field_lookup(
                    spec_fields@,
                    "targets"@,
                ) {
                    Some(DocValue::Arr(items)) => match parse_target_seq(items@) {
                        Some(ts) => Some(ConstraintTemplateSpecModel { targets: ts }),
                        None => None,
                    },
                    _ => None,
                },
                _ => None,
            }
        },
        _ => None,
    }
}

// ---------------------------------------------------------------------------
// Whole-object conversion.
// ---------------------------------------------------------------------------

/// What converting an object to a constraint template yields, if anything.
///
/// The record's `name` is the object's cluster-assigned name, whatever the
/// payload carried.
pub open spec fn spec_convert_template(obj: GenericObject) -> Option<ConstraintTemplateModel> {
    match parse_template_payload(obj.data) {
        Some(sp) => Some(ConstraintTemplateModel { name: obj.name@, spec: sp }),
        None => None,
    }
}

/// What converting an object to a constraint yields, if anything.
///
/// An object without type-kind metadata never converts; the record's `kind`
/// and `name` are the object's cluster-assigned identity, whatever the
/// payload carried.
pub open spec fn spec_convert_constraint(obj: GenericObject) -> Option<ConstraintModel> {
    match obj.kind {
        None => None,
        Some(k) => match parse_constraint_payload(obj.data) {
            Some((sp, st)) => Some(
                ConstraintModel { kind: k@, name: obj.name@, spec: sp, status: st },
            ),
            None => None,
        },
    }
}

/// Law: identity overlay precedence. Whatever `name` the payload carries
/// — equal to, or differing from, the cluster-assigned identity — a
/// converted template's `name` is the object's cluster-assigned name.
pub proof fn lemma_template_identity_overlay(obj: GenericObject)
    requires
        spec_convert_template(obj) is Some,
    ensures
        spec_convert_template(obj).unwrap().name == obj.name@,
{
}

/// Law: identity overlay precedence. Whatever `name` or `kind` the
/// payload carries, a converted constraint's identity is the object's
/// cluster-assigned name and type-kind metadata.
pub proof fn lemma_constraint_identity_overlay(obj: GenericObject)
    requires
        spec_convert_constraint(obj) is Some,
    ensures
        spec_convert_constraint(obj).unwrap().name == obj.name@,
        obj.kind is Some,
        spec_convert_constraint(obj).unwrap().kind == obj.kind.unwrap()@,
{
}

/// Law: enum strictness. A wire string parses as an enforcement action
/// exactly when it is one of the three closed values; an absent
/// `enforcementAction` field defaults to `Deny`; a present one that is
/// not a recognized string fails the decode instead of defaulting.
pub proof fn lemma_enforcement_action_strictness(s: Seq<char>, fields: Seq<(String, DocValue)>)
    ensures
        parse_action(s) is Some <==> (s == "dryrun"@ || s == "warn"@ || s == "deny"@),
        field_lookup(fields, "enforcementAction"@) is None ==> action_field(fields) == Some(
            EnforcementAction::Deny,
        ),
        (field_lookup(fields, "enforcementAction"@) matches Some(DocValue::Str(w))
            && parse_action(w@) is None) ==> action_field(fields) is None,
        (field_lookup(fields, "enforcementAction"@) matches Some(v) && !(v is Str))
            ==> action_field(fields) is None,
{
}

// ---------------------------------------------------------------------------
// Executable decoders.
// ---------------------------------------------------------------------------

fn read_req_string(fields: &Vec<(String, DocValue)>, key: &str) -> (r: Result<
    String,
    GatekeeperError,
>)
    ensures
        match req_string(fields@, key@) {
            Some(s) => r matches Ok(x) && x@ == s,
            None => r matches Err(e) && e == GatekeeperError::FailedConversion,
        },
{
    match find_field(fields, key) {
        Some(DocValue::Str(s)) => Ok(s.clone()),
        _ => Err(GatekeeperError::FailedConversion),
    }
}

fn check_str_if_present(fields: &Vec<(String, DocValue)>, key: &str) -> (r: bool)
    ensures
        r == str_field_ok_if_present(fields@, key@),
{
    match find_field(fields, key) {
        None => true,
        Some(DocValue::Str(_)) => true,
        Some(_) => false,
    }
}

fn read_action_or_default(fields: &Vec<(String, DocValue)>) -> (r: Result<
    EnforcementAction,
    GatekeeperError,
>)
    ensures
        match action_field(fields@) {
            Some(a) => r matches Ok(x) && x == a,
            None => r matches Err(e) && e == GatekeeperError::FailedConversion,
        },
{
    match find_field(fields, "enforcementAction") {
        None => Ok(EnforcementAction::default()),
        Some(DocValue::Str(s)) => match action_of_string(s) {
            Some(a) => Ok(a),
            None => Err(GatekeeperError::FailedConversion),
        },
        Some(_) => Err(GatekeeperError::FailedConversion),
    }
}

fn read_req_action(fields: &Vec<(String, DocValue)>) -> (r: Result<
    EnforcementAction,
    GatekeeperError,
>)
    ensures
        match req_action_field(fields@) {
            Some(a) => r matches Ok(x) && x == a,
            None => r matches Err(e) && e == GatekeeperError::FailedConversion,
        },
{
    match find_field(fields, "enforcementAction") {
        Some(DocValue::Str(s)) => match action_of_string(s) {
            Some(a) => Ok(a),
            None => Err(GatekeeperError::FailedConversion),
        },
        _ => Err(GatekeeperError::FailedConversion),
    }
}

fn read_namespace(fields: &Vec<(String, DocValue)>) -> (r: Result<String, GatekeeperError>)
    ensures
        match namespace_field(fields@) {
            Some(ns) => r matches Ok(x) && x@ == ns,
            None => r matches Err(e) && e == GatekeeperError::FailedConversion,
        },
{
    match find_field(fields, "namespace") {
        None => Ok(default_namespace()),
        Some(DocValue::Str(s)) => Ok(s.clone()),
        Some(_) => Err(GatekeeperError::FailedConversion),
    }
}

fn read_scope_or_default(fields: &Vec<(String, DocValue)>) -> (r: Result<
    MatchScope,
    GatekeeperError,
>)
    ensures
        match scope_field(fields@) {
            Some(sc) => r matches Ok(x) && x == sc,
            None => r matches Err(e) && e == GatekeeperError::FailedConversion,
        },
{
    match find_field(fields, "scope") {
        None => Ok(MatchScope::default()),
        Some(DocValue::Str(s)) => match scope_of_string(s) {
            Some(sc) => Ok(sc),
            None => Err(GatekeeperError::FailedConversion),
        },
        Some(_) => Err(GatekeeperError::FailedConversion),
    }
}

fn read_string_vec(items: &Vec<DocValue>) -> (r: Result<Vec<String>, GatekeeperError>)
    ensures
        match parse_string_seq(items@) {
            Some(ss) => r matches Ok(v) && v@.map_values(|s: String| s@) == ss,
            None => r matches Err(e) && e == GatekeeperError::FailedConversion,
        },
{
    let mut out: Vec<String> = Vec::new();
    let mut j: usize = 0;
    while j < items.len()
        invariant
            j <= items.len(),
            out@.len() == j,
            forall|t: int| 0 <= t < j ==> items@[t] is Str,
            forall|t: int| 0 <= t < j ==> out@[t]@ == items@[t]->Str_0@,
        decreases items.len() - j,
    {
        match &items[j] {
            DocValue::Str(s) => {
                out.push(s.clone());
            },
            _ => {
                return Err(GatekeeperError::FailedConversion);
            },
        }
        j = j + 1;
    }
    proof {
        assert(out@.map_values(|s: String| s@) =~= items@.map_values(|d: DocValue| d->Str_0@));
    }
    Ok(out)
}

fn read_opt_string_list(fields: &Vec<(String, DocValue)>, key: &str) -> (r: Result<
    Option<Vec<String>>,
    GatekeeperError,
>)
    ensures
        match opt_string_list_field(fields@, key@) {
            Some(ns) => r matches Ok(x) && (match x {
                Some(v) => ns matches Some(ss) && v@.map_values(|s: String| s@) == ss,
                None => ns is None,
            }),
            None => r matches Err(e) && e == GatekeeperError::FailedConversion,
        },
{
    match find_field(fields, key) {
        None => Ok(None),
        Some(DocValue::Null) => Ok(None),
        Some(DocValue::Arr(items)) => match read_string_vec(items) {
            Ok(v) => Ok(Some(v)),
            Err(e) => Err(e),
        },
        Some(_) => Err(GatekeeperError::FailedConversion),
    }
}

fn read_match_spec(v: &DocValue) -> (r: Result<MatchSpec, GatekeeperError>)
    ensures
        match parse_match(*v) {
            Some(m) => r matches Ok(x) && x@ == m,
            None => r matches Err(e) && e == GatekeeperError::FailedConversion,
        },
{
    match v {
        DocValue::Obj(fields) => {
            let scope = match read_scope_or_default(fields) {
                Ok(sc) => sc,
                Err(e) => {
                    return Err(e);
                },
            };
            let namespaces = match read_opt_string_list(fields, "namespaces") {
                Ok(ns) => ns,
                Err(e) => {
                    return Err(e);
                },
            };
            let excluded_namespaces = match read_opt_string_list(fields, "excludedNamespaces") {
                Ok(ns) => ns,
                Err(e) => {
                    return Err(e);
                },
            };
            Ok(MatchSpec { scope, namespaces, excluded_namespaces })
        },
        _ => Err(GatekeeperError::FailedConversion),
    }
}

fn read_constraint_spec(v: &DocValue) -> (r: Result<ConstraintSpec, GatekeeperError>)
    ensures
        match parse_constraint_spec(*v) {
            Some(m) => r matches Ok(x) && x@ == m,
            None => r matches Err(e) && e == GatekeeperError::FailedConversion,
        },
{
    match v {
        DocValue::Obj(fields) => {
            let enforcement_action = match read_action_or_default(fields) {
                Ok(a) => a,
                Err(e) => {
                    return Err(e);
                },
            };
            let match_spec: Option<MatchSpec> = match find_field(fields, "match") {
                None => None,
                Some(DocValue::Null) => None,
                Some(mv) => match read_match_spec(mv) {
                    Ok(m) => Some(m),
                    Err(e) => {
                        return Err(e);
                    },
                },
            };
            Ok(ConstraintSpec { enforcement_action, match_spec })
        },
        _ => Err(GatekeeperError::FailedConversion),
    }
}

fn read_violation(v: &DocValue) -> (r: Result<Violation, GatekeeperError>)
    ensures
        match parse_violation(*v) {
            Some(m) => r matches Ok(x) && x@ == m,
            None => r matches Err(e) && e == GatekeeperError::FailedConversion,
        },
{
    match v {
        DocValue::Obj(fields) => {
            let enforcement_action = match read_req_action(fields) {
                Ok(a) => a,
                Err(e) => {
                    return Err(e);
                },
            };
            let kind = match read_req_string(fields, "kind") {
                Ok(s) => s,
                Err(e) => {
                    return Err(e);
                },
            };
            let message = match read_req_string(fields, "message") {
                Ok(s) => s,
                Err(e) => {
                    return Err(e);
                },
            };
            let name = match read_req_string(fields, "name") {
                Ok(s) => s,
                Err(e) => {
                    return Err(e);
                },
            };
            let namespace = match read_namespace(fields) {
                Ok(s) => s,
                Err(e) => {
                    return Err(e);
                },
            };
            Ok(Violation { enforcement_action, kind, message, name, namespace })
        },
        _ => Err(GatekeeperError::FailedConversion),
    }
}

fn read_violation_vec(items: &Vec<DocValue>) -> (r: Result<Vec<Violation>, GatekeeperError>)
    ensures
        match parse_violation_seq(items@) {
            Some(ms) => r matches Ok(v) && v@.map_values(|x: Violation| x@) == ms,
            None => r matches Err(e) && e == GatekeeperError::FailedConversion,
        },
{
    let mut out: Vec<Violation> = Vec::new();
    let mut j: usize = 0;
    while j < items.len()
        invariant
            j <= items.len(),
            out@.len() == j,
            forall|t: int| 0 <= t < j ==> parse_violation(items@[t]) is Some,
            forall|t: int| 0 <= t < j ==> out@[t]@ == parse_violation(items@[t]).unwrap(),
        decreases items.len() - j,
    {
        match read_violation(&items[j]) {
            Ok(v) => {
                out.push(v);
            },
            Err(e) => {
                return Err(e);
            },
        }
        j = j + 1;
    }
    proof {
        assert(out@.map_values(|x: Violation| x@) =~= items@.map_values(
            |d: DocValue| parse_violation(d).unwrap(),
        ));
    }
    Ok(out)
}

fn read_total_violations(fields: &Vec<(String, DocValue)>) -> (r: Result<i16, GatekeeperError>)
    ensures
        match req_i16(fields@, "totalViolations"@) {
            Some(n) => r matches Ok(x) && x == n,
            None => r matches Err(e) && e == GatekeeperError::FailedConversion,
        },
{
    match find_field(fields, "totalViolations") {
        Some(DocValue::Int(n)) => {
            if i16::MIN as i64 <= *n && *n <= i16::MAX as i64 {
                Ok(*n as i16)
            } else {
                Err(GatekeeperError::FailedConversion)
            }
        },
        _ => Err(GatekeeperError::FailedConversion),
    }
}

fn read_status(v: &DocValue) -> (r: Result<ConstraintStatus, GatekeeperError>)
    ensures
        match parse_status(*v) {
            Some(m) => r matches Ok(x) && x@ == m,
            None => r matches Err(e) && e == GatekeeperError::FailedConversion,
        },
{
    match v {
        DocValue::Obj(fields) => {
            let audit_timestamp = match read_req_string(fields, "auditTimestamp") {
                Ok(s) => s,
                Err(e) => {
                    return Err(e);
                },
            };
            let total_violations = match read_total_violations(fields) {
                Ok(n) => n,
                Err(e) => {
                    return Err(e);
                },
            };
            let violations = match find_field(fields, "violations") {
                Some(DocValue::Arr(items)) => match read_violation_vec(items) {
                    Ok(vs) => vs,
                    Err(e) => {
                        return Err(e);
                    },
                },
                _ => {
                    return Err(GatekeeperError::FailedConversion);
                },
            };
            Ok(ConstraintStatus { audit_timestamp, total_violations, violations })
        },
        _ => Err(GatekeeperError::FailedConversion),
    }
}

fn read_target(v: &DocValue) -> (r: Result<TemplateTarget, GatekeeperError>)
    ensures
        match parse_target(*v) {
            Some(m) => r matches Ok(x) && x@ == m,
            None => r matches Err(e) && e == GatekeeperError::FailedConversion,
        },
{
    match v {
        DocValue::Obj(fields) => {
            let target = match read_req_string(fields, "target") {
                Ok(s) => s,
                Err(e) => {
                    return Err(e);
                },
            };
            let rego = match read_req_string(fields, "rego") {
                Ok(s) => s,
                Err(e) => {
                    return Err(e);
                },
            };
            Ok(TemplateTarget { target, rego })
        },
        _ => Err(GatekeeperError::FailedConversion),
    }
}

fn read_target_vec(items: &Vec<DocValue>) -> (r: Result<Vec<TemplateTarget>, GatekeeperError>)
    ensures
        match parse_target_seq(items@) {
            Some(ms) => r matches Ok(v) && v@.map_values(|x: TemplateTarget| x@) == ms,
            None => r matches Err(e) && e == GatekeeperError::FailedConversion,
        },
{
    let mut out: Vec<TemplateTarget> = Vec::new();
    let mut j: usize = 0;
    while j < items.len()
        invariant
            j <= items.len(),
            out@.len() == j,
            forall|t: int| 0 <= t < j ==> parse_target(items@[t]) is Some,
            forall|t: int| 0 <= t < j ==> out@[t]@ == parse_target(items@[t]).unwrap(),
        decreases items.len() - j,
    {
        match read_target(&items[j]) {
            Ok(v) => {
                out.push(v);
            },
            Err(e) => {
                return Err(e);
            },
        }
        j = j + 1;
    }
    proof {
        assert(out@.map_values(|x: TemplateTarget| x@) =~= items@.map_values(
            |d: DocValue| parse_target(d).unwrap(),
        ));
    }
    Ok(out)
}

/// Converts a generic object into a constraint template.
///
/// Succeeds exactly when [`spec_convert_template`] does, and then returns
/// the record it names: the payload's `spec.targets` decoded, and `name`
/// taken from the object's cluster-assigned identity.
pub fn try_into_constraint_template(obj: &GenericObject) -> (r: Result<
    ConstraintTemplate,
    GatekeeperError,
>)
    ensures
        match spec_convert_template(*obj) {
            Some(m) => r matches Ok(t) && t@ == m,
            None => r matches Err(e) && e == GatekeeperError::FailedConversion,
        },
{
    match &obj.data {
        DocValue::Obj(fields) => {
            if !check_str_if_present(fields, "name") {
                return Err(GatekeeperError::FailedConversion);
            }
            let targets = match find_field(fields, "spec") {
                Some(DocValue::Obj(spec_fields)) => match find_field(spec_fields, "targets") {
                    Some(DocValue::Arr(items)) => match read_target_vec(items) {
                        Ok(ts) => ts,
                        Err(e) => {
                            return Err(e);
                        },
                    },
                    _ => {
                        return Err(GatekeeperError::FailedConversion);
                    },
                },
                _ => {
                    return Err(GatekeeperError::FailedConversion);
                },
            };
            Ok(ConstraintTemplate {
                name: obj.name.clone(),
                spec: ConstraintTemplateSpec { targets },
            })
        },
        _ => Err(GatekeeperError::FailedConversion),
    }
}

/// Converts a generic object into a constraint.
///
/// Succeeds exactly when [`spec_convert_constraint`] does, and then returns
/// the record it names: the payload's `spec` and `status` decoded, and
/// `kind` and `name` taken from the object's cluster-assigned identity. An
/// object without type-kind metadata fails before its payload is looked at.
pub fn try_into_constraint(obj: &GenericObject) -> (r: Result<Constraint, GatekeeperError>)
    ensures
        match spec_convert_constraint(*obj) {
            Some(m) => r matches Ok(c) && c@ == m,
            None => r matches Err(e) && e == GatekeeperError::FailedConversion,
        },
{
    let kind: String = match &obj.kind {
        Some(k) => k.clone(),
        None => {
            return Err(GatekeeperError::FailedConversion);
        },
    };
    match &obj.data {
        DocValue::Obj(fields) => {
            if !check_str_if_present(fields, "kind") {
                return Err(GatekeeperError::FailedConversion);
            }
            if !check_str_if_present(fields, "name") {
                return Err(GatekeeperError::FailedConversion);
            }
            let spec = match find_field(fields, "spec") {
                Some(sv) => match read_constraint_spec(sv) {
                    Ok(sp) => sp,
                    Err(e) => {
                        return Err(e);
                    },
                },
                None => {
                    return Err(GatekeeperError::FailedConversion);
                },
            };
            let status = match find_field(fields, "status") {
                Some(stv) => match read_status(stv) {
                    Ok(st) => st,
                    Err(e) => {
                        return Err(e);
                    },
                },
                None => {
                    return Err(GatekeeperError::FailedConversion);
                },
            };
            Ok(Constraint { kind, name: obj.name.clone(), spec, status })
        },
        _ => Err(GatekeeperError::FailedConversion),
    }
}

} // verus!

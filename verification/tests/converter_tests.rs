use gatekeeper_view::convert::{try_into_constraint, try_into_constraint_template};
use gatekeeper_view::document::{DocValue, GenericObject};
use gatekeeper_view::gatekeeper::{default_namespace, EnforcementAction, GatekeeperError, MatchScope};
use gatekeeper_view::page::BaseTemplate;

fn s(x: &str) -> String {
    x.to_string()
}

fn template_payload(target: &str, rego: &str) -> DocValue {
    DocValue::Obj(vec![(
        s("spec"),
        DocValue::Obj(vec![(
            s("targets"),
            DocValue::Arr(vec![DocValue::Obj(vec![
                (s("target"), DocValue::Str(s(target))),
                (s("rego"), DocValue::Str(s(rego))),
            ])]),
        )]),
    )])
}

fn template_obj(name: &str, data: DocValue) -> GenericObject {
    GenericObject {
        api_version: s("templates.gatekeeper.sh/v1"),
        kind: Some(s("ConstraintTemplate")),
        name: s(name),
        namespace: None,
        data,
    }
}

fn constraint_payload(spec_fields: Vec<(String, DocValue)>, status_fields: Vec<(String, DocValue)>) -> DocValue {
    DocValue::Obj(vec![
        (s("spec"), DocValue::Obj(spec_fields)),
        (s("status"), DocValue::Obj(status_fields)),
    ])
}

fn minimal_status() -> Vec<(String, DocValue)> {
    vec![
        (s("auditTimestamp"), DocValue::Str(s("2021-01-01T00:00:00Z"))),
        (s("totalViolations"), DocValue::Int(0)),
        (s("violations"), DocValue::Arr(vec![])),
    ]
}

fn constraint_obj(kind: Option<&str>, name: &str, data: DocValue) -> GenericObject {
    GenericObject {
        api_version: s("constraints.gatekeeper.sh/v1beta1"),
        kind: kind.map(s),
        name: s(name),
        namespace: None,
        data,
    }
}

#[test]
fn template_converts_with_cluster_name() {
    let obj = template_obj("must-have-labels", template_payload("admission.k8s", "package x"));
    let t = try_into_constraint_template(&obj).unwrap();
    assert_eq!(t.name, "must-have-labels");
    assert_eq!(t.spec.targets.len(), 1);
    assert_eq!(t.spec.targets[0].target, "admission.k8s");
    assert_eq!(t.spec.targets[0].rego, "package x");
}

#[test]
fn template_payload_name_is_overridden_by_identity() {
    let data = DocValue::Obj(vec![
        (s("name"), DocValue::Str(s("from-payload"))),
        (
            s("spec"),
            DocValue::Obj(vec![(s("targets"), DocValue::Arr(vec![]))]),
        ),
    ]);
    let t = try_into_constraint_template(&template_obj("cluster-name", data)).unwrap();
    assert_eq!(t.name, "cluster-name");
}

#[test]
fn template_payload_name_of_wrong_type_fails() {
    let data = DocValue::Obj(vec![
        (s("name"), DocValue::Int(5)),
        (
            s("spec"),
            DocValue::Obj(vec![(s("targets"), DocValue::Arr(vec![]))]),
        ),
    ]);
    let r = try_into_constraint_template(&template_obj("x", data));
    assert!(matches!(r, Err(GatekeeperError::FailedConversion)));
}

#[test]
fn template_without_spec_fails() {
    let r = try_into_constraint_template(&template_obj("x", DocValue::Obj(vec![])));
    assert!(matches!(r, Err(GatekeeperError::FailedConversion)));
}

#[test]
fn template_with_non_object_payload_fails() {
    let r = try_into_constraint_template(&template_obj("x", DocValue::Null));
    assert!(matches!(r, Err(GatekeeperError::FailedConversion)));
}

#[test]
fn template_with_malformed_target_entry_fails() {
    let data = DocValue::Obj(vec![(
        s("spec"),
        DocValue::Obj(vec![(
            s("targets"),
            DocValue::Arr(vec![DocValue::Obj(vec![(s("target"), DocValue::Str(s("a")))])]),
        )]),
    )]);
    let r = try_into_constraint_template(&template_obj("x", data));
    assert!(matches!(r, Err(GatekeeperError::FailedConversion)));
}

#[test]
fn constraint_converts_with_cluster_identity() {
    let data = constraint_payload(
        vec![(s("enforcementAction"), DocValue::Str(s("warn")))],
        minimal_status(),
    );
    let obj = constraint_obj(Some("K8sRequiredLabels"), "ns-must-have-gk", data);
    let c = try_into_constraint(&obj).unwrap();
    assert_eq!(c.kind, "K8sRequiredLabels");
    assert_eq!(c.name, "ns-must-have-gk");
    assert_eq!(c.spec.enforcement_action, EnforcementAction::Warn);
}

#[test]
fn constraint_payload_identity_fields_are_overridden() {
    let data = DocValue::Obj(vec![
        (s("kind"), DocValue::Str(s("WrongKind"))),
        (s("name"), DocValue::Str(s("wrong-name"))),
        (s("spec"), DocValue::Obj(vec![])),
        (s("status"), DocValue::Obj(minimal_status())),
    ]);
    let c = try_into_constraint(&constraint_obj(Some("RealKind"), "real-name", data)).unwrap();
    assert_eq!(c.kind, "RealKind");
    assert_eq!(c.name, "real-name");
}

#[test]
fn constraint_without_type_kind_metadata_fails() {
    let data = constraint_payload(vec![], minimal_status());
    let r = try_into_constraint(&constraint_obj(None, "x", data));
    assert!(matches!(r, Err(GatekeeperError::FailedConversion)));
}

#[test]
fn enforcement_action_defaults_to_deny_when_absent() {
    let data = constraint_payload(vec![], minimal_status());
    let c = try_into_constraint(&constraint_obj(Some("K"), "x", data)).unwrap();
    assert_eq!(c.spec.enforcement_action, EnforcementAction::Deny);
}

#[test]
fn enforcement_action_outside_closed_set_fails() {
    let data = constraint_payload(
        vec![(s("enforcementAction"), DocValue::Str(s("block")))],
        minimal_status(),
    );
    let r = try_into_constraint(&constraint_obj(Some("K"), "x", data));
    assert!(matches!(r, Err(GatekeeperError::FailedConversion)));
}

#[test]
fn enforcement_action_recognizes_all_closed_values() {
    for (wire, expected) in [
        ("dryrun", EnforcementAction::DryRun),
        ("warn", EnforcementAction::Warn),
        ("deny", EnforcementAction::Deny),
    ] {
        let data = constraint_payload(
            vec![(s("enforcementAction"), DocValue::Str(s(wire)))],
            minimal_status(),
        );
        let c = try_into_constraint(&constraint_obj(Some("K"), "x", data)).unwrap();
        assert_eq!(c.spec.enforcement_action, expected);
    }
}

#[test]
fn violation_count_and_entries_are_independent() {
    let violation = DocValue::Obj(vec![
        (s("enforcementAction"), DocValue::Str(s("deny"))),
        (s("kind"), DocValue::Str(s("Pod"))),
        (s("message"), DocValue::Str(s("missing label"))),
        (s("name"), DocValue::Str(s("pod-a"))),
        (s("namespace"), DocValue::Str(s("default"))),
    ]);
    let violation2 = DocValue::Obj(vec![
        (s("enforcementAction"), DocValue::Str(s("warn"))),
        (s("kind"), DocValue::Str(s("Pod"))),
        (s("message"), DocValue::Str(s("missing label"))),
        (s("name"), DocValue::Str(s("pod-b"))),
    ]);
    let status = vec![
        (s("auditTimestamp"), DocValue::Str(s("ts"))),
        (s("totalViolations"), DocValue::Int(3)),
        (s("violations"), DocValue::Arr(vec![violation, violation2])),
    ];
    let c = try_into_constraint(&constraint_obj(Some("K"), "x", constraint_payload(vec![], status)))
        .unwrap();
    assert_eq!(c.status.total_violations, 3);
    assert_eq!(c.status.violations.len(), 2);
    assert_eq!(c.status.violations[0].namespace, "default");
    // the second violation carried no namespace: it is cluster-scoped
    assert_eq!(c.status.violations[1].namespace, "");
    assert_eq!(c.status.violations[1].enforcement_action, EnforcementAction::Warn);
}

#[test]
fn violation_without_enforcement_action_fails() {
    let violation = DocValue::Obj(vec![
        (s("kind"), DocValue::Str(s("Pod"))),
        (s("message"), DocValue::Str(s("m"))),
        (s("name"), DocValue::Str(s("n"))),
    ]);
    let status = vec![
        (s("auditTimestamp"), DocValue::Str(s("ts"))),
        (s("totalViolations"), DocValue::Int(1)),
        (s("violations"), DocValue::Arr(vec![violation])),
    ];
    let r = try_into_constraint(&constraint_obj(Some("K"), "x", constraint_payload(vec![], status)));
    assert!(matches!(r, Err(GatekeeperError::FailedConversion)));
}

#[test]
fn total_violations_must_fit_sixteen_bits() {
    let mut status = minimal_status();
    status[1] = (s("totalViolations"), DocValue::Int(40000));
    let r = try_into_constraint(&constraint_obj(Some("K"), "x", constraint_payload(vec![], status)));
    assert!(matches!(r, Err(GatekeeperError::FailedConversion)));

    let mut status = minimal_status();
    status[1] = (s("totalViolations"), DocValue::Int(32767));
    let c = try_into_constraint(&constraint_obj(Some("K"), "x", constraint_payload(vec![], status)))
        .unwrap();
    assert_eq!(c.status.total_violations, 32767);
}

#[test]
fn match_spec_defaults_and_strictness() {
    // absent match: None
    let c = try_into_constraint(&constraint_obj(
        Some("K"),
        "x",
        constraint_payload(vec![], minimal_status()),
    ))
    .unwrap();
    assert!(c.spec.match_spec.is_none());

    // null match: None
    let data = constraint_payload(vec![(s("match"), DocValue::Null)], minimal_status());
    let c = try_into_constraint(&constraint_obj(Some("K"), "x", data)).unwrap();
    assert!(c.spec.match_spec.is_none());

    // empty object match: defaults
    let data = constraint_payload(
        vec![(s("match"), DocValue::Obj(vec![]))],
        minimal_status(),
    );
    let c = try_into_constraint(&constraint_obj(Some("K"), "x", data)).unwrap();
    let m = c.spec.match_spec.unwrap();
    assert_eq!(m.scope, MatchScope::Everything);
    assert!(m.namespaces.is_none());
    assert!(m.excluded_namespaces.is_none());

    // scope outside the closed set fails
    let data = constraint_payload(
        vec![(
            s("match"),
            DocValue::Obj(vec![(s("scope"), DocValue::Str(s("Global")))]),
        )],
        minimal_status(),
    );
    let r = try_into_constraint(&constraint_obj(Some("K"), "x", data));
    assert!(matches!(r, Err(GatekeeperError::FailedConversion)));
}

#[test]
fn match_spec_namespaces_round_trip() {
    let data = constraint_payload(
        vec![(
            s("match"),
            DocValue::Obj(vec![
                (s("scope"), DocValue::Str(s("Namespaced"))),
                (
                    s("namespaces"),
                    DocValue::Arr(vec![DocValue::Str(s("a")), DocValue::Str(s("b"))]),
                ),
                (s("excludedNamespaces"), DocValue::Null),
            ]),
        )],
        minimal_status(),
    );
    let c = try_into_constraint(&constraint_obj(Some("K"), "x", data)).unwrap();
    let m = c.spec.match_spec.unwrap();
    assert_eq!(m.scope, MatchScope::Namespaced);
    assert_eq!(m.namespaces.unwrap(), vec![s("a"), s("b")]);
    assert!(m.excluded_namespaces.is_none());
}

#[test]
fn match_spec_namespace_list_with_non_string_fails() {
    let data = constraint_payload(
        vec![(
            s("match"),
            DocValue::Obj(vec![(
                s("namespaces"),
                DocValue::Arr(vec![DocValue::Str(s("a")), DocValue::Int(1)]),
            )]),
        )],
        minimal_status(),
    );
    let r = try_into_constraint(&constraint_obj(Some("K"), "x", data));
    assert!(matches!(r, Err(GatekeeperError::FailedConversion)));
}

#[test]
fn status_is_required_and_checked() {
    let data = DocValue::Obj(vec![(s("spec"), DocValue::Obj(vec![]))]);
    let r = try_into_constraint(&constraint_obj(Some("K"), "x", data));
    assert!(matches!(r, Err(GatekeeperError::FailedConversion)));

    let mut status = minimal_status();
    status[0] = (s("auditTimestamp"), DocValue::Int(7));
    let r = try_into_constraint(&constraint_obj(Some("K"), "x", constraint_payload(vec![], status)));
    assert!(matches!(r, Err(GatekeeperError::FailedConversion)));
}

#[test]
fn default_namespace_is_empty() {
    assert_eq!(default_namespace(), "");
}

#[test]
fn base_template_new_sets_title_and_login() {
    let t = BaseTemplate::new("Home");
    assert_eq!(t.title, "Home");
    assert!(t.enabled_login);
}

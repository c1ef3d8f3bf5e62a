use gatekeeper_view::client::{GatekeeperClient, InMemoryGatekeeperClient};
use gatekeeper_view::discovery::{resolve, ApiGroupInfo, VersionResources};
use gatekeeper_view::document::{DocValue, GenericObject};
use gatekeeper_view::gatekeeper::GatekeeperError;
use gatekeeper_view::lister::{aggregate, ListEntry, ListOutcome};

fn s(x: &str) -> String {
    x.to_string()
}

fn obj(name: &str, kind: Option<&str>, data: DocValue) -> GenericObject {
    GenericObject {
        api_version: s("v1"),
        kind: kind.map(s),
        name: s(name),
        namespace: None,
        data,
    }
}

fn version(ver: &str, kinds: &[&str]) -> VersionResources {
    VersionResources {
        version: s(ver),
        kinds: kinds.iter().map(|k| s(k)).collect(),
    }
}

fn template_data(target: &str, rego: &str) -> DocValue {
    DocValue::Obj(vec![(
        s("spec"),
        DocValue::Obj(vec![(
            s("targets"),
            DocValue::Arr(vec![DocValue::Obj(vec![
                (s("target"), DocValue::Str(s(target))),
                (s("rego"), DocValue::Str(s(rego))),
            ])]),
        )]),
    )])
}

fn constraint_data() -> DocValue {
    DocValue::Obj(vec![
        (s("spec"), DocValue::Obj(vec![])),
        (
            s("status"),
            DocValue::Obj(vec![
                (s("auditTimestamp"), DocValue::Str(s("ts"))),
                (s("totalViolations"), DocValue::Int(0)),
                (s("violations"), DocValue::Arr(vec![])),
            ]),
        ),
    ])
}

#[test]
fn resolve_selects_preferred_version_regardless_of_order() {
    let offered_one_way = vec![version("v1", &["A", "B"]), version("v1beta1", &["A"])];
    let offered_other_way = vec![version("v1beta1", &["A"]), version("v1", &["A", "B"])];
    for versions in [offered_one_way, offered_other_way] {
        let groups = vec![ApiGroupInfo {
            name: s("g"),
            preferred_version: Some(s("v1")),
            versions,
        }];
        let pairs = resolve(&groups, "g");
        assert_eq!(pairs.len(), 2);
        for p in &pairs {
            assert_eq!(p.version, "v1");
        }
        assert_eq!(pairs[0].kind, "A");
        assert_eq!(pairs[1].kind, "B");
    }
}

#[test]
fn resolve_falls_back_to_first_offered_version() {
    let groups = vec![ApiGroupInfo {
        name: s("g"),
        preferred_version: None,
        versions: vec![version("v2", &["C"]), version("v1", &["D"])],
    }];
    let pairs = resolve(&groups, "g");
    assert_eq!(pairs.len(), 1);
    assert_eq!(pairs[0].version, "v2");
    assert_eq!(pairs[0].kind, "C");
}

#[test]
fn resolve_absent_group_is_empty_not_an_error() {
    let groups = vec![ApiGroupInfo {
        name: s("other.group"),
        preferred_version: Some(s("v1")),
        versions: vec![version("v1", &["A"])],
    }];
    let pairs = resolve(&groups, "templates.gatekeeper.sh");
    assert!(pairs.is_empty());
}

#[test]
fn aggregate_drops_exactly_the_failed_kind() {
    let a = obj("a", None, DocValue::Null);
    let b = obj("b", None, DocValue::Null);
    let c = obj("c", None, DocValue::Null);
    let outcomes = vec![
        ListOutcome::Listed(vec![a, b]),
        ListOutcome::Failed,
        ListOutcome::Listed(vec![c]),
    ];
    let items = aggregate(outcomes);
    let names: Vec<&str> = items.iter().map(|o| o.name.as_str()).collect();
    assert_eq!(names, vec!["a", "b", "c"]);
}

#[test]
fn aggregate_keeps_call_order_across_kinds() {
    let outcomes = vec![
        ListOutcome::Listed(vec![obj("z", None, DocValue::Null)]),
        ListOutcome::Listed(vec![obj("a", None, DocValue::Null)]),
    ];
    let items = aggregate(outcomes);
    let names: Vec<&str> = items.iter().map(|o| o.name.as_str()).collect();
    assert_eq!(names, vec!["z", "a"]);
}

#[test]
fn end_to_end_templates_scenario() {
    let client = InMemoryGatekeeperClient {
        discovery_fails: false,
        groups: vec![ApiGroupInfo {
            name: s("templates.gatekeeper.sh"),
            preferred_version: Some(s("v1")),
            versions: vec![version("v1", &["ConstraintTemplate"])],
        }],
        entries: vec![ListEntry {
            version: s("v1"),
            kind: s("ConstraintTemplate"),
            outcome: ListOutcome::Listed(vec![obj(
                "must-have-labels",
                Some("ConstraintTemplate"),
                template_data("admission.x", "package x\nviolation[...] {...}"),
            )]),
        }],
    };
    let templates = client.get_constraint_templates().unwrap();
    assert_eq!(templates.len(), 1);
    assert_eq!(templates[0].name, "must-have-labels");
    assert_eq!(templates[0].spec.targets.len(), 1);
    assert_eq!(templates[0].spec.targets[0].target, "admission.x");
    assert_eq!(templates[0].spec.targets[0].rego, "package x\nviolation[...] {...}");
}

#[test]
fn end_to_end_partial_failure_scenario() {
    let client = InMemoryGatekeeperClient {
        discovery_fails: false,
        groups: vec![ApiGroupInfo {
            name: s("constraints.gatekeeper.sh"),
            preferred_version: Some(s("v1beta1")),
            versions: vec![version("v1beta1", &["K1", "K2"])],
        }],
        entries: vec![
            ListEntry {
                version: s("v1beta1"),
                kind: s("K1"),
                outcome: ListOutcome::Listed(vec![obj("only-one", Some("K1"), constraint_data())]),
            },
            ListEntry {
                version: s("v1beta1"),
                kind: s("K2"),
                outcome: ListOutcome::Failed,
            },
        ],
    };
    let constraints = client.get_constraints().unwrap();
    assert_eq!(constraints.len(), 1);
    assert_eq!(constraints[0].name, "only-one");
    assert_eq!(constraints[0].kind, "K1");
}

#[test]
fn discovery_failure_is_terminal() {
    let client = InMemoryGatekeeperClient {
        discovery_fails: true,
        groups: vec![],
        entries: vec![],
    };
    assert!(matches!(
        client.get_constraint_templates(),
        Err(GatekeeperError::Kube)
    ));
    assert!(matches!(client.get_constraints(), Err(GatekeeperError::Kube)));
}

#[test]
fn absent_group_yields_empty_success() {
    let client = InMemoryGatekeeperClient {
        discovery_fails: false,
        groups: vec![],
        entries: vec![],
    };
    assert!(client.get_constraint_templates().unwrap().is_empty());
    assert!(client.get_constraints().unwrap().is_empty());
}

#[test]
fn one_malformed_object_fails_the_whole_operation() {
    let client = InMemoryGatekeeperClient {
        discovery_fails: false,
        groups: vec![ApiGroupInfo {
            name: s("constraints.gatekeeper.sh"),
            preferred_version: Some(s("v1beta1")),
            versions: vec![version("v1beta1", &["K1"])],
        }],
        entries: vec![ListEntry {
            version: s("v1beta1"),
            kind: s("K1"),
            outcome: ListOutcome::Listed(vec![
                obj("good", Some("K1"), constraint_data()),
                obj("bad", Some("K1"), DocValue::Null),
            ]),
        }],
    };
    assert!(matches!(
        client.get_constraints(),
        Err(GatekeeperError::FailedConversion)
    ));
}

#[test]
fn unresolved_kinds_contribute_nothing() {
    // the resolved kind has no recorded list entry: treated as a failed
    // list call and dropped
    let client = InMemoryGatekeeperClient {
        discovery_fails: false,
        groups: vec![ApiGroupInfo {
            name: s("templates.gatekeeper.sh"),
            preferred_version: Some(s("v1")),
            versions: vec![version("v1", &["ConstraintTemplate"])],
        }],
        entries: vec![],
    };
    assert!(client.get_constraint_templates().unwrap().is_empty());
}

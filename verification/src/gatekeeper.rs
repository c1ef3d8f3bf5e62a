//! The strongly-typed domain records and the error taxonomy.
//!
//! Every record is a read-only, request-scoped snapshot: it is built once by
//! the converter and never mutated. Each record type has a ghost model (its
//! view) over which every contract in the crate speaks.

use vstd::prelude::*;

verus! {

/// A terminal failure of one whole operation.
///
/// `Kube` is a transport or discovery failure of the cluster API itself;
/// `FailedConversion` is a malformed or unrecognized-shape object;
/// `Unknown` is the catch-all for defects not classified above.
#[derive(Debug, Clone, Copy, PartialEq, Eq, Structural)]
pub enum GatekeeperError {
    Kube,
    Unknown,
    FailedConversion,
}

/// The effect a constraint has on a policy violation.
///
/// A closed enum: an unrecognized wire value is a conversion error, never
/// silently mapped to a default. Only an absent wire value defaults to
/// `Deny`.
#[derive(Debug, Clone, Copy, PartialEq, Eq, Structural)]
pub enum EnforcementAction {
    DryRun,
    Warn,
    Deny,
}

impl Default for EnforcementAction {
    /// The default when the wire value is absent.
    fn default() -> (r: Self)
        ensures
            r == EnforcementAction::Deny,
    {
        EnforcementAction::Deny
    }
}

/// Which scope of resources a constraint matches.
#[derive(Debug, Clone, Copy, PartialEq, Eq, Structural)]
pub enum MatchScope {
    Everything,
    Cluster,
    Namespaced,
}

impl Default for MatchScope {
    /// The default when the wire value is absent.
    fn default() -> (r: Self)
        ensures
            r == MatchScope::Everything,
    {
        MatchScope::Everything
    }
}

/// One target of a constraint template: an admission target name and the
/// policy source text attached to it.
pub struct TemplateTarget {
    pub target: String,
    pub rego: String,
}

/// Ghost model of [`TemplateTarget`].
pub ghost struct TemplateTargetModel {
    pub target: Seq<char>,
    pub rego: Seq<char>,
}

impl View for TemplateTarget {
    type V = TemplateTargetModel;

    open spec fn view(&self) -> TemplateTargetModel {
        TemplateTargetModel { target: self.target@, rego: self.rego@ }
    }
}

/// The payload-carried part of a constraint template.
pub struct ConstraintTemplateSpec {
    pub targets: Vec<TemplateTarget>,
}

/// Ghost model of [`ConstraintTemplateSpec`].
pub ghost struct ConstraintTemplateSpecModel {
    pub targets: Seq<TemplateTargetModel>,
}

impl View for ConstraintTemplateSpec {
    type V = ConstraintTemplateSpecModel;

    open spec fn view(&self) -> ConstraintTemplateSpecModel {
        ConstraintTemplateSpecModel {
            targets: self.targets@.map_values(|t: TemplateTarget| t@),
        }
    }
}

/// A reusable policy rule.
///
/// `name` is always the cluster-assigned resource name, never a name carried
/// inside the payload.
pub struct ConstraintTemplate {
    pub name: String,
    pub spec: ConstraintTemplateSpec,
}

/// Ghost model of [`ConstraintTemplate`].
pub ghost struct ConstraintTemplateModel {
    pub name: Seq<char>,
    pub spec: ConstraintTemplateSpecModel,
}

impl View for ConstraintTemplate {
    type V = ConstraintTemplateModel;

    open spec fn view(&self) -> ConstraintTemplateModel {
        ConstraintTemplateModel { name: self.name@, spec: self.spec@ }
    }
}

/// Which namespaces a constraint applies to.
pub struct MatchSpec {
    pub scope: MatchScope,
    pub namespaces: Option<Vec<String>>,
    pub excluded_namespaces: Option<Vec<String>>,
}

/// Ghost model of [`MatchSpec`].
pub ghost struct MatchSpecModel {
    pub scope: MatchScope,
    pub namespaces: Option<Seq<Seq<char>>>,
    pub excluded_namespaces: Option<Seq<Seq<char>>>,
}

impl View for MatchSpec {
    type V = MatchSpecModel;

    open spec fn view(&self) -> MatchSpecModel {
        MatchSpecModel {
            scope: self.scope,
            namespaces: match self.namespaces {
                Some(ns) => Some(ns@.map_values(|s: String| s@)),
                None => None,
            },
            excluded_namespaces: match self.excluded_namespaces {
                Some(ns) => Some(ns@.map_values(|s: String| s@)),
                None => None,
            },
        }
    }
}

/// The payload-carried part of a constraint.
pub struct ConstraintSpec {
    pub enforcement_action: EnforcementAction,
    pub match_spec: Option<MatchSpec>,
}

/// Ghost model of [`ConstraintSpec`].
pub ghost struct ConstraintSpecModel {
    pub enforcement_action: EnforcementAction,
    pub match_spec: Option<MatchSpecModel>,
}

impl View for ConstraintSpec {
    type V = ConstraintSpecModel;

    open spec fn view(&self) -> ConstraintSpecModel {
        ConstraintSpecModel {
            enforcement_action: self.enforcement_action,
            match_spec: match self.match_spec {
                Some(m) => Some(m@),
                None => None,
            },
        }
    }
}

/// One audited violation of a constraint.
///
/// A violation with an empty `namespace` is cluster-scoped: the wire value
/// defaults to the empty string when absent.
pub struct Violation {
    pub enforcement_action: EnforcementAction,
    pub kind: String,
    pub message: String,
    pub name: String,
    pub namespace: String,
}

/// Ghost model of [`Violation`].
pub ghost struct ViolationModel {
    pub enforcement_action: EnforcementAction,
    pub kind: Seq<char>,
    pub message: Seq<char>,
    pub name: Seq<char>,
    pub namespace: Seq<char>,
}

impl View for Violation {
    type V = ViolationModel;

    open spec fn view(&self) -> ViolationModel {
        ViolationModel {
            enforcement_action: self.enforcement_action,
            kind: self.kind@,
            message: self.message@,
            name: self.name@,
            namespace: self.namespace@,
        }
    }
}

/// The namespace a violation carries when the wire value is absent.
pub fn default_namespace() -> (r: String)
    ensures
        r@ == Seq::<char>::empty(),
{
    proof {
        reveal_strlit("");
    }
    "".to_owned()
}

/// The most recent violation-scan result the cluster attached to a
/// constraint.
///
/// `total_violations` and `violations` are independently sourced from the
/// cluster and may disagree; no cross-validation is performed.
pub struct ConstraintStatus {
    pub audit_timestamp: String,
    pub total_violations: i16,
    pub violations: Vec<Violation>,
}

/// Ghost model of [`ConstraintStatus`].
pub ghost struct ConstraintStatusModel {
    pub audit_timestamp: Seq<char>,
    pub total_violations: i16,
    pub violations: Seq<ViolationModel>,
}

impl View for ConstraintStatus {
    type V = ConstraintStatusModel;

    open spec fn view(&self) -> ConstraintStatusModel {
        ConstraintStatusModel {
            audit_timestamp: self.audit_timestamp@,
            total_violations: self.total_violations,
            violations: self.violations@.map_values(|v: Violation| v@),
        }
    }
}

/// An instantiation of a template.
///
/// `kind` is always the cluster-assigned type metadata and `name` the
/// cluster-assigned resource name, never values carried inside the payload.
pub struct Constraint {
    pub kind: String,
    pub name: String,
    pub spec: ConstraintSpec,
    pub status: ConstraintStatus,
}

/// Ghost model of [`Constraint`].
pub ghost struct ConstraintModel {
    pub kind: Seq<char>,
    pub name: Seq<char>,
    pub spec: ConstraintSpecModel,
    pub status: ConstraintStatusModel,
}

impl View for Constraint {
    type V = ConstraintModel;

    open spec fn view(&self) -> ConstraintModel {
        ConstraintModel {
            kind: self.kind@,
            name: self.name@,
            spec: self.spec@,
            status: self.status@,
        }
    }
}

} // verus!

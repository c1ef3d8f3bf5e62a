//! The client facade: discovery, listing and conversion composed.
//!
//! [`GatekeeperClient`] is the capability interface external collaborators
//! use; [`InMemoryGatekeeperClient`] implements it over a recorded cluster
//! state, so the whole pipeline can be exercised — and is verified —
//! without a live cluster. A live implementation belongs to the unverified
//! transport layer, which drives [`crate::discovery::resolve`],
//! [`crate::lister::aggregate`] and the converters with real round-trips.
//!
//! Error asymmetry: a per-kind list failure is tolerated and its
//! contribution dropped, but a single object that fails conversion fails
//! the whole operation — silently omitting a record could hide policy
//! state from an operator.

use vstd::prelude::*;

use crate::convert::{spec_convert_constraint, spec_convert_template, try_into_constraint,
    try_into_constraint_template};
use crate::discovery::{resolve, spec_resolve, ApiGroupInfo};
use crate::document::GenericObject;
use crate::gatekeeper::{Constraint, ConstraintModel, ConstraintTemplate, ConstraintTemplateModel,
    GatekeeperError};
use crate::lister::{find_entry, items_for, lemma_gather_snoc, lemma_gather_split, spec_gather,
    ListEntry, ListOutcome};

verus! {

/// The two operations the facade offers. Each performs full fresh
/// discovery for one fixed logical group name; nothing is cached between
/// calls.
pub trait GatekeeperClient {
    fn get_constraint_templates(&self) -> Result<Vec<ConstraintTemplate>, GatekeeperError>;

    fn get_constraints(&self) -> Result<Vec<Constraint>, GatekeeperError>;
}

/// A recorded cluster state: what discovery would report, and what each
/// per-kind list call would return. `discovery_fails` stands for a
/// transport or auth failure of the discovery round-trip itself.
pub struct InMemoryGatekeeperClient {
    pub discovery_fails: bool,
    pub groups: Vec<ApiGroupInfo>,
    pub entries: Vec<ListEntry>,
}

/// Everything one operation sees: the objects of every successfully
/// listed kind of the resolved group, in resolution order.
pub open spec fn spec_get_items(
    groups: Seq<ApiGroupInfo>,
    entries: Seq<ListEntry>,
    name: Seq<char>,
) -> Seq<GenericObject> {
    spec_gather(entries, spec_resolve(groups, name))
}

/// Whether every object converts to a constraint template.
pub open spec fn all_templates_convertible(objs: Seq<GenericObject>) -> bool {
    forall|i: int| 0 <= i < objs.len() ==> spec_convert_template(objs[i]) is Some
}

/// The templates a fully convertible sequence of objects yields.
pub open spec fn converted_templates(objs: Seq<GenericObject>) -> Seq<ConstraintTemplateModel> {
    objs.map_values(|o: GenericObject| spec_convert_template(o).unwrap())
}

/// Whether every object converts to a constraint.
pub open spec fn all_constraints_convertible(objs: Seq<GenericObject>) -> bool {
    forall|i: int| 0 <= i < objs.len() ==> spec_convert_constraint(objs[i]) is Some
}

/// The constraints a fully convertible sequence of objects yields.
pub open spec fn converted_constraints(objs: Seq<GenericObject>) -> Seq<ConstraintModel> {
    objs.map_values(|o: GenericObject| spec_convert_constraint(o).unwrap())
}

/// Template conversion distributes over concatenation.
pub proof fn lemma_converted_templates_add(a: Seq<GenericObject>, b: Seq<GenericObject>)
    ensures
        converted_templates(a + b) == converted_templates(a) + converted_templates(b),
        all_templates_convertible(a + b) <==> (all_templates_convertible(a)
            && all_templates_convertible(b)),
{
    assert(converted_templates(a + b) =~= converted_templates(a) + converted_templates(b));
    if all_templates_convertible(a + b) {
        assert forall|i: int| 0 <= i < a.len() implies spec_convert_template(a[i]) is Some by {
            assert((a + b)[i] == a[i]);
        }
        assert forall|i: int| 0 <= i < b.len() implies spec_convert_template(b[i]) is Some by {
            assert((a + b)[a.len() + i] == b[i]);
        }
    }
    if all_templates_convertible(a) && all_templates_convertible(b) {
        assert forall|i: int| 0 <= i < (a + b).len() implies spec_convert_template(
            (a + b)[i],
        ) is Some by {
            if i < a.len() {
                assert((a + b)[i] == a[i]);
            } else {
                assert((a + b)[i] == b[i - a.len()]);
            }
        }
    }
}

/// Constraint conversion distributes over concatenation.
pub proof fn lemma_converted_constraints_add(a: Seq<GenericObject>, b: Seq<GenericObject>)
    ensures
        converted_constraints(a + b) == converted_constraints(a) + converted_constraints(b),
        all_constraints_convertible(a + b) <==> (all_constraints_convertible(a)
            && all_constraints_convertible(b)),
{
    assert(converted_constraints(a + b) =~= converted_constraints(a) + converted_constraints(b));
    if all_constraints_convertible(a + b) {
        assert forall|i: int| 0 <= i < a.len() implies spec_convert_constraint(a[i]) is Some by {
            assert((a + b)[i] == a[i]);
        }
        assert forall|i: int| 0 <= i < b.len() implies spec_convert_constraint(b[i]) is Some by {
            assert((a + b)[a.len() + i] == b[i]);
        }
    }
    if all_constraints_convertible(a) && all_constraints_convertible(b) {
        assert forall|i: int| 0 <= i < (a + b).len() implies spec_convert_constraint(
            (a + b)[i],
        ) is Some by {
            if i < a.len() {
                assert((a + b)[i] == a[i]);
            } else {
                assert((a + b)[i] == b[i - a.len()]);
            }
        }
    }
}

fn find_entry_exec<'a>(entries: &'a Vec<ListEntry>, ver: &String, kind: &String) -> (r: Option<
    &'a ListEntry,
>)
    ensures
        match r {
            Some(e) => find_entry(entries@, ver@, kind@) == Some(*e),
            None => find_entry(entries@, ver@, kind@) is None,
        },
{
    proof {
        assert(entries@.skip(0) =~= entries@);
    }
    let mut i: usize = 0;
    while i < entries.len()
        invariant
            i <= entries.len(),
            find_entry(entries@, ver@, kind@) == find_entry(
                entries@.skip(i as int),
                ver@,
                kind@,
            ),
        decreases entries.len() - i,
    {
        proof {
            assert(entries@.skip(i as int)[0] == entries@[i as int]);
            assert(entries@.skip(i as int).skip(1) =~= entries@.skip(i as int + 1));
        }
        if entries[i].version == *ver && entries[i].kind == *kind {
            return Some(&entries[i]);
        }
        i = i + 1;
    }
    None
}

fn convert_templates_into(objs: &Vec<GenericObject>, out: &mut Vec<ConstraintTemplate>) -> (r:
    Result<(), GatekeeperError>)
    ensures
        r is Ok ==> all_templates_convertible(objs@) && final(out)@.map_values(
            |t: ConstraintTemplate| t@,
        ) == old(out)@.map_values(|t: ConstraintTemplate| t@) + converted_templates(objs@),
        r matches Err(e) ==> e == GatekeeperError::FailedConversion
            && !all_templates_convertible(objs@),
{
    let mut j: usize = 0;
    while j < objs.len()
        invariant
            j <= objs.len(),
            out@.len() == old(out)@.len() + j,
            forall|t: int| 0 <= t < old(out)@.len() ==> out@[t] == old(out)@[t],
            forall|t: int| 0 <= t < j ==> spec_convert_template(objs@[t]) is Some,
            forall|t: int| 0 <= t < j ==> out@[old(out)@.len() + t]@ == spec_convert_template(
                objs@[t],
            ).unwrap(),
        decreases objs.len() - j,
    {
        match try_into_constraint_template(&objs[j]) {
            Ok(t) => {
                out.push(t);
            },
            Err(_) => {
                proof {
                    assert(spec_convert_template(objs@[j as int]) is None);
                    assert(!all_templates_convertible(objs@));
                }
                return Err(GatekeeperError::FailedConversion);
            },
        }
        j = j + 1;
    }
    proof {
        assert(out@.map_values(|t: ConstraintTemplate| t@) =~= old(out)@.map_values(
            |t: ConstraintTemplate| t@,
        ) + converted_templates(objs@));
    }
    Ok(())
}

fn convert_constraints_into(objs: &Vec<GenericObject>, out: &mut Vec<Constraint>) -> (r: Result<
    (),
    GatekeeperError,
>)
    ensures
        r is Ok ==> all_constraints_convertible(objs@) && final(out)@.map_values(
            |c: Constraint| c@,
        ) == old(out)@.map_values(|c: Constraint| c@) + converted_constraints(objs@),
        r matches Err(e) ==> e == GatekeeperError::FailedConversion
            && !all_constraints_convertible(objs@),
{
    let mut j: usize = 0;
    while j < objs.len()
        invariant
            j <= objs.len(),
            out@.len() == old(out)@.len() + j,
            forall|t: int| 0 <= t < old(out)@.len() ==> out@[t] == old(out)@[t],
            forall|t: int| 0 <= t < j ==> spec_convert_constraint(objs@[t]) is Some,
            forall|t: int| 0 <= t < j ==> out@[old(out)@.len() + t]@ == spec_convert_constraint(
                objs@[t],
            ).unwrap(),
        decreases objs.len() - j,
    {
        match try_into_constraint(&objs[j]) {
            Ok(c) => {
                out.push(c);
            },
            Err(_) => {
                proof {
                    assert(spec_convert_constraint(objs@[j as int]) is None);
                    assert(!all_constraints_convertible(objs@));
                }
                return Err(GatekeeperError::FailedConversion);
            },
        }
        j = j + 1;
    }
    proof {
        assert(out@.map_values(|c: Constraint| c@) =~= old(out)@.map_values(|c: Constraint| c@)
            + converted_constraints(objs@));
    }
    Ok(())
}

impl InMemoryGatekeeperClient {
    /// One whole "list constraint templates" operation over the recorded
    /// state: fresh discovery of the template group, a list per resolved
    /// kind with per-kind failures dropped, then conversion of every
    /// object, where a single failed conversion fails the call.
    pub fn templates(&self) -> (r: Result<Vec<ConstraintTemplate>, GatekeeperError>)
        ensures
            self.discovery_fails ==> (r matches Err(e) && e == GatekeeperError::Kube),
            !self.discovery_fails ==> ({
                let objs = spec_get_items(self.groups@, self.entries@, "templates.gatekeeper.sh"@);
                &&& all_templates_convertible(objs) ==> (r matches Ok(v) && v@.map_values(
                    |t: ConstraintTemplate| t@,
                ) == converted_templates(objs))
                &&& !all_templates_convertible(objs) ==> (r matches Err(e) && e
                    == GatekeeperError::FailedConversion)
            }),
    {
        if self.discovery_fails {
            return Err(GatekeeperError::Kube);
        }
        let gvks = resolve(&self.groups, "templates.gatekeeper.sh");
        let ghost models: Seq<(Seq<char>, Seq<char>)> = spec_resolve(
            self.groups@,
            "templates.gatekeeper.sh"@,
        );
        let mut out: Vec<ConstraintTemplate> = Vec::new();
        proof {
            assert(models.take(0) =~= Seq::<(Seq<char>, Seq<char>)>::empty());
            assert(out@.map_values(|t: ConstraintTemplate| t@) =~= converted_templates(
                spec_gather(self.entries@, models.take(0)),
            ));
        }
        let mut k: usize = 0;
        while k < gvks.len()
            invariant
                k <= gvks.len(),
                !self.discovery_fails,
                models == spec_resolve(self.groups@, "templates.gatekeeper.sh"@),
                models == gvks@.map_values(|p: crate::discovery::GroupVersionKind| p@),
                all_templates_convertible(spec_gather(self.entries@, models.take(k as int))),
                out@.map_values(|t: ConstraintTemplate| t@) == converted_templates(
                    spec_gather(self.entries@, models.take(k as int)),
                ),
            decreases gvks.len() - k,
        {
            proof {
                assert(models[k as int] == gvks@[k as int]@);
            }
            let ghost kind_items: Seq<GenericObject> = items_for(self.entries@, models[k as int]);
            let step: Result<(), GatekeeperError> = match find_entry_exec(
                &self.entries,
                &gvks[k].version,
                &gvks[k].kind,
            ) {
                Some(entry) => match &entry.outcome {
                    ListOutcome::Listed(objs) => {
                        proof {
                            assert(kind_items == objs@);
                        }
                        convert_templates_into(objs, &mut out)
                    },
                    ListOutcome::Failed => {
                        proof {
                            assert(kind_items =~= Seq::<GenericObject>::empty());
                        }
                        Ok(())
                    },
                },
                None => {
                    proof {
                        assert(kind_items =~= Seq::<GenericObject>::empty());
                    }
                    Ok(())
                },
            };
            match step {
                Ok(_) => {},
                Err(_) => {
                    proof {
                        lemma_gather_split(self.entries@, models, k as int);
                        assert(models.skip(k as int)[0] == models[k as int]);
                        assert(models.skip(k as int).skip(1) =~= models.skip(k as int + 1));
                        assert(spec_gather(self.entries@, models.skip(k as int)) == kind_items
                            + spec_gather(self.entries@, models.skip(k as int + 1)));
                        lemma_converted_templates_add(
                            kind_items,
                            spec_gather(self.entries@, models.skip(k as int + 1)),
                        );
                        lemma_converted_templates_add(
                            spec_gather(self.entries@, models.take(k as int)),
                            spec_gather(self.entries@, models.skip(k as int)),
                        );
                    }
                    return Err(GatekeeperError::FailedConversion);
                },
            }
            proof {
                lemma_gather_snoc(self.entries@, models, k as int);
                lemma_converted_templates_add(
                    spec_gather(self.entries@, models.take(k as int)),
                    kind_items,
                );
                if kind_items.len() == 0 {
                    assert(converted_templates(kind_items) =~= Seq::<ConstraintTemplateModel>::empty());
                    assert(converted_templates(spec_gather(self.entries@, models.take(k as int)))
                        + converted_templates(kind_items) =~= converted_templates(
                        spec_gather(self.entries@, models.take(k as int)),
                    ));
                }
            }
            k = k + 1;
        }
        proof {
            assert(models.take(gvks@.len() as int) =~= models);
        }
        Ok(out)
    }

    /// One whole "list constraints" operation over the recorded state,
    /// composed exactly as [`Self::templates`] is, for the constraint
    /// group.
    pub fn constraints(&self) -> (r: Result<Vec<Constraint>, GatekeeperError>)
        ensures
            self.discovery_fails ==> (r matches Err(e) && e == GatekeeperError::Kube),
            !self.discovery_fails ==> ({
                let objs = spec_get_items(
                    self.groups@,
                    self.entries@,
                    "constraints.gatekeeper.sh"@,
                );
                &&& all_constraints_convertible(objs) ==> (r matches Ok(v) && v@.map_values(
                    |c: Constraint| c@,
                ) == converted_constraints(objs))
                &&& !all_constraints_convertible(objs) ==> (r matches Err(e) && e
                    == GatekeeperError::FailedConversion)
            }),
    {
        if self.discovery_fails {
            return Err(GatekeeperError::Kube);
        }
        let gvks = resolve(&self.groups, "constraints.gatekeeper.sh");
        let ghost models: Seq<(Seq<char>, Seq<char>)> = spec_resolve(
            self.groups@,
            "constraints.gatekeeper.sh"@,
        );
        let mut out: Vec<Constraint> = Vec::new();
        proof {
            assert(models.take(0) =~= Seq::<(Seq<char>, Seq<char>)>::empty());
            assert(out@.map_values(|c: Constraint| c@) =~= converted_constraints(
                spec_gather(self.entries@, models.take(0)),
            ));
        }
        let mut k: usize = 0;
        while k < gvks.len()
            invariant
                k <= gvks.len(),
                !self.discovery_fails,
                models == spec_resolve(self.groups@, "constraints.gatekeeper.sh"@),
                models == gvks@.map_values(|p: crate::discovery::GroupVersionKind| p@),
                all_constraints_convertible(spec_gather(self.entries@, models.take(k as int))),
                out@.map_values(|c: Constraint| c@) == converted_constraints(
                    spec_gather(self.entries@, models.take(k as int)),
                ),
            decreases gvks.len() - k,
        {
            proof {
                assert(models[k as int] == gvks@[k as int]@);
            }
            let ghost kind_items: Seq<GenericObject> = items_for(self.entries@, models[k as int]);
            let step: Result<(), GatekeeperError> = match find_entry_exec(
                &self.entries,
                &gvks[k].version,
                &gvks[k].kind,
            ) {
                Some(entry) => match &entry.outcome {
                    ListOutcome::Listed(objs) => {
                        proof {
                            assert(kind_items == objs@);
                        }
                        convert_constraints_into(objs, &mut out)
                    },
                    ListOutcome::Failed => {
                        proof {
                            assert(kind_items =~= Seq::<GenericObject>::empty());
                        }
                        Ok(())
                    },
                },
                None => {
                    proof {
                        assert(kind_items =~= Seq::<GenericObject>::empty());
                    }
                    Ok(())
                },
            };
            match step {
                Ok(_) => {},
                Err(_) => {
                    proof {
                        lemma_gather_split(self.entries@, models, k as int);
                        assert(models.skip(k as int)[0] == models[k as int]);
                        assert(models.skip(k as int).skip(1) =~= models.skip(k as int + 1));
                        assert(spec_gather(self.entries@, models.skip(k as int)) == kind_items
                            + spec_gather(self.entries@, models.skip(k as int + 1)));
                        lemma_converted_constraints_add(
                            kind_items,
                            spec_gather(self.entries@, models.skip(k as int + 1)),
                        );
                        lemma_converted_constraints_add(
                            spec_gather(self.entries@, models.take(k as int)),
                            spec_gather(self.entries@, models.skip(k as int)),
                        );
                    }
                    return Err(GatekeeperError::FailedConversion);
                },
            }
            proof {
                lemma_gather_snoc(self.entries@, models, k as int);
                lemma_converted_constraints_add(
                    spec_gather(self.entries@, models.take(k as int)),
                    kind_items,
                );
                if kind_items.len() == 0 {
                    assert(converted_constraints(kind_items) =~= Seq::<ConstraintModel>::empty());
                    assert(converted_constraints(spec_gather(self.entries@, models.take(k as int)))
                        + converted_constraints(kind_items) =~= converted_constraints(
                        spec_gather(self.entries@, models.take(k as int)),
                    ));
                }
            }
            k = k + 1;
        }
        proof {
            assert(models.take(gvks@.len() as int) =~= models);
        }
        Ok(out)
    }
}

impl GatekeeperClient for InMemoryGatekeeperClient {
    fn get_constraint_templates(&self) -> Result<Vec<ConstraintTemplate>, GatekeeperError> {
        self.templates()
    }

    fn get_constraints(&self) -> Result<Vec<Constraint>, GatekeeperError> {
        self.constraints()
    }
}

} // verus!

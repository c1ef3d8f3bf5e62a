//! Resolution of a logical API group to concrete (version, kind) pairs.
//!
//! A [`DiscoverySnapshot`]-like value — here a sequence of [`ApiGroupInfo`]
//! entries — is the result of one fresh discovery round-trip against the
//! cluster. [`resolve`] picks the group by name, selects its version, and
//! pairs every resource kind registered under that version with it. A group
//! that is not present yields an empty result: that is not an error.

use vstd::prelude::*;

verus! {

/// The resource kinds one API version of a group offers.
pub struct VersionResources {
    pub version: String,
    pub kinds: Vec<String>,
}

/// One API group as a discovery round-trip reported it: its name, the
/// version the cluster prefers (when it states one), and the resource
/// kinds offered per version.
pub struct ApiGroupInfo {
    pub name: String,
    pub preferred_version: Option<String>,
    pub versions: Vec<VersionResources>,
}

/// One resolved pair: a concrete API version and a resource kind under it.
pub struct GroupVersionKind {
    pub version: String,
    pub kind: String,
}

impl View for GroupVersionKind {
    type V = (Seq<char>, Seq<char>);

    open spec fn view(&self) -> (Seq<char>, Seq<char>) {
        (self.version@, self.kind@)
    }
}

/// The first group carrying `name`, if any.
pub open spec fn find_group(groups: Seq<ApiGroupInfo>, name: Seq<char>) -> Option<ApiGroupInfo>
    decreases groups.len(),
{
    if groups.len() == 0 {
        None
    } else if groups[0].name@ == name {
        Some(groups[0])
    } else {
        find_group(groups.skip(1), name)
    }
}

/// The version a resolution uses: the cluster-reported preferred version
/// when there is one, else the first offered version — a total,
/// deterministic fallback over an unchanged discovery result.
pub open spec fn selected_version(g: ApiGroupInfo) -> Seq<char> {
    match g.preferred_version {
        Some(v) => v@,
        None => if g.versions@.len() > 0 {
            g.versions@[0].version@
        } else {
            Seq::empty()
        },
    }
}

/// The kinds the first entry for `ver` offers; none when `ver` is not an
/// offered version.
pub open spec fn kinds_for_version(versions: Seq<VersionResources>, ver: Seq<char>) -> Seq<
    Seq<char>,
>
    decreases versions.len(),
{
    if versions.len() == 0 {
        Seq::empty()
    } else if versions[0].version@ == ver {
        versions[0].kinds@.map_values(|k: String| k@)
    } else {
        kinds_for_version(versions.skip(1), ver)
    }
}

/// What resolving `name` against a discovery result yields: each kind of
/// the selected version, paired with that version, in reported order; and
/// nothing at all when the group is absent.
pub open spec fn spec_resolve(groups: Seq<ApiGroupInfo>, name: Seq<char>) -> Seq<
    (Seq<char>, Seq<char>),
> {
    match find_group(groups, name) {
        None => Seq::empty(),
        Some(g) => kinds_for_version(g.versions@, selected_version(g)).map_values(
            |k: Seq<char>| (selected_version(g), k),
        ),
    }
}

/// Law: determinism of version selection. Two discovery results for the
/// same group that state the same preferred version have exactly that
/// version selected, whatever versions each offers and in whatever order.
pub proof fn lemma_preferred_version_selected(g1: ApiGroupInfo, g2: ApiGroupInfo)
    requires
        g1.preferred_version is Some,
        g2.preferred_version is Some,
        g1.preferred_version.unwrap()@ == g2.preferred_version.unwrap()@,
    ensures
        selected_version(g1) == selected_version(g2),
        selected_version(g1) == g1.preferred_version.unwrap()@,
{
}

proof fn lemma_find_group_absent(groups: Seq<ApiGroupInfo>, name: Seq<char>)
    requires
        forall|i: int| 0 <= i < groups.len() ==> groups[i].name@ != name,
    ensures
        find_group(groups, name) is None,
    decreases groups.len(),
{
    if groups.len() > 0 {
        assert(groups[0].name@ != name);
        assert forall|i: int| 0 <= i < groups.skip(1).len() implies groups.skip(
            1,
        )[i].name@ != name by {
            assert(groups.skip(1)[i] == groups[i + 1]);
        }
        lemma_find_group_absent(groups.skip(1), name);
    }
}

/// Law: a group that is absent from a discovery result resolves to the
/// empty sequence. That is a normal result, not an error.
pub proof fn lemma_group_absent_resolves_empty(groups: Seq<ApiGroupInfo>, name: Seq<char>)
    requires
        forall|i: int| 0 <= i < groups.len() ==> groups[i].name@ != name,
    ensures
        spec_resolve(groups, name) == Seq::<(Seq<char>, Seq<char>)>::empty(),
{
    lemma_find_group_absent(groups, name);
}

fn find_group_exec<'a>(groups: &'a Vec<ApiGroupInfo>, name: &str) -> (r: Option<
    &'a ApiGroupInfo,
>)
    ensures
        match r {
            Some(g) => find_group(groups@, name@) == Some(*g),
            None => find_group(groups@, name@) is None,
        },
{
    let owned_name: String = name.to_owned();
    proof {
        assert(groups@.skip(0) =~= groups@);
    }
    let mut i: usize = 0;
    while i < groups.len()
        invariant
            i <= groups.len(),
            owned_name@ == name@,
            find_group(groups@, name@) == find_group(groups@.skip(i as int), name@),
        decreases groups.len() - i,
    {
        proof {
            assert(groups@.skip(i as int)[0] == groups@[i as int]);
            assert(groups@.skip(i as int).skip(1) =~= groups@.skip(i as int + 1));
        }
        if groups[i].name == owned_name {
            return Some(&groups[i]);
        }
        i = i + 1;
    }
    None
}

/// Resolves a logical group name against a discovery result.
///
/// Returns exactly the pairs [`spec_resolve`] names: the selected version's
/// kinds in reported order, or an empty sequence when the group is absent.
pub fn resolve(groups: &Vec<ApiGroupInfo>, group_name: &str) -> (r: Vec<GroupVersionKind>)
    ensures
        r@.map_values(|p: GroupVersionKind| p@) == spec_resolve(groups@, group_name@),
{
    let g: &ApiGroupInfo = match find_group_exec(groups, group_name) {
        Some(g) => g,
        None => {
            let r: Vec<GroupVersionKind> = Vec::new();
            proof {
                assert(r@.map_values(|p: GroupVersionKind| p@) =~= spec_resolve(
                    groups@,
                    group_name@,
                ));
            }
            return r;
        },
    };
    let ver: String = match &g.preferred_version {
        Some(v) => v.clone(),
        None => {
            if g.versions.len() > 0 {
                g.versions[0].version.clone()
            } else {
                proof {
                    reveal_strlit("");
                }
                "".to_owned()
            }
        },
    };
    proof {
        assert(ver@ =~= selected_version(*g));
        assert(g.versions@.skip(0) =~= g.versions@);
    }
    let mut r: Vec<GroupVersionKind> = Vec::new();
    let mut vi: usize = 0;
    while vi < g.versions.len()
        invariant
            vi <= g.versions.len(),
            r@.len() == 0,
            ver@ == selected_version(*g),
            find_group(groups@, group_name@) == Some(*g),
            kinds_for_version(g.versions@, ver@) == kinds_for_version(
                g.versions@.skip(vi as int),
                ver@,
            ),
        decreases g.versions.len() - vi,
    {
        proof {
            assert(g.versions@.skip(vi as int)[0] == g.versions@[vi as int]);
            assert(g.versions@.skip(vi as int).skip(1) =~= g.versions@.skip(vi as int + 1));
        }
        if g.versions[vi].version == ver {
            let kinds: &Vec<String> = &g.versions[vi].kinds;
            let mut j: usize = 0;
            while j < kinds.len()
                invariant
                    j <= kinds.len(),
                    r@.len() == j,
                    ver@ == selected_version(*g),
                    find_group(groups@, group_name@) == Some(*g),
                    kinds_for_version(g.versions@, ver@) == kinds@.map_values(|k: String| k@),
                    forall|t: int| 0 <= t < j ==> r@[t]@ == (ver@, kinds@[t]@),
                decreases kinds.len() - j,
            {
                r.push(GroupVersionKind { version: ver.clone(), kind: kinds[j].clone() });
                j = j + 1;
            }
            proof {
                assert(r@.map_values(|p: GroupVersionKind| p@) =~= spec_resolve(
                    groups@,
                    group_name@,
                ));
            }
            return r;
        }
        vi = vi + 1;
    }
    proof {
        assert(r@.map_values(|p: GroupVersionKind| p@) =~= spec_resolve(groups@, group_name@));
    }
    r
}

} // verus!

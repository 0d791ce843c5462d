//! Workspace-relative script paths and the manifest a workspace script
//! runs under.

use crate::scripting::discovery::{manifest_views, runtime_for_path, runtime_kind_from_path};
use crate::scripting::manifest::{default_limits, ManifestView, ScriptError, ScriptManifest, ScriptRuntimeKind};
use crate::strset::{sorted_enumeration, sorted_set, views};
use crate::text::{concat2, opt_view, owned, str_eq};
use vstd::prelude::*;

verus! {

/// A `..` component starts at index `i` of the path: two dots with a
/// separator (or the path's end) on both sides.
pub open spec fn parent_component_at(p: Seq<char>, i: int) -> bool {
    &&& 0 <= i
    &&& i + 2 <= p.len()
    &&& p[i] == '.'
    &&& p[i + 1] == '.'
    &&& (i == 0 || p[i - 1] == '/')
    &&& (i + 2 == p.len() || p[i + 2] == '/')
}

/// A path may name a workspace file when it is relative (does not start
/// with `/`) and has no `..` component.
pub open spec fn workspace_path_allowed(p: Seq<char>) -> bool {
    !(p.len() > 0 && p[0] == '/') && !(exists|i: int| parent_component_at(p, i))
}

/// Checks that a path stays inside the workspace: it must be relative and
/// free of `..` components.
pub fn check_workspace_relative_path(relative_path: &str) -> (r: Result<(), ScriptError>)
    ensures
        r is Ok <==> workspace_path_allowed(relative_path@),
        r matches Err(e) ==> e matches ScriptError::InvalidArgument { detail } && detail@
            == "workspace path must be relative without '..': "@ + relative_path@,
{
    let p = crate::text::chars_of(relative_path);
    let mut ok = !(p.len() > 0 && p[0] == '/');
    let mut i: usize = 0;
    while ok && i < p.len()
        invariant
            i <= p@.len(),
            p@ == relative_path@,
            ok ==> !(p@.len() > 0 && p@[0] == '/'),
            ok ==> forall|j: int| 0 <= j < i ==> !parent_component_at(p@, j),
            !ok ==> !workspace_path_allowed(p@),
        decreases p.len() - i,
    {
        if p.len() - i >= 2 && p[i] == '.' && p[i + 1] == '.' && (i == 0 || p[i - 1] == '/') && (
        p.len() - i == 2 || p[i + 2] == '/') {
            assert(parent_component_at(p@, i as int));
            ok = false;
        }
        i = i + 1;
    }
    if ok {
        Ok(())
    } else {
        Err(
            ScriptError::InvalidArgument {
                detail: concat2("workspace path must be relative without '..': ", relative_path),
            },
        )
    }
}

/// The index of the first discovered manifest for a script path.
pub open spec fn first_with_path(ms: Seq<ManifestView>, path: Seq<char>) -> Option<int>
    decreases ms.len(),
{
    if ms.len() == 0 {
        None
    } else if ms[0].script_path == Some(path) {
        Some(0)
    } else {
        match first_with_path(ms.drop_first(), path) {
            Some(i) => Some(i + 1),
            None => None,
        }
    }
}

/// The manifest of an undiscovered workspace script: named by its path,
/// run by the runtime its extension selects (Rhai otherwise).
pub open spec fn undiscovered_manifest(path: Seq<char>) -> ManifestView {
    ManifestView {
        name: path,
        version: Seq::empty(),
        description: None,
        runtime: match runtime_for_path(path) {
            Some(r) => r,
            None => ScriptRuntimeKind::Rhai,
        },
        entrypoint: None,
        script_path: Some(path),
        capabilities: Seq::empty(),
        explicit_capabilities: false,
        triggers: Seq::empty(),
        limits: default_limits(),
    }
}

/// The manifest a workspace script runs under: the first discovered
/// manifest for its path (or one made from the path), with the granted
/// capabilities, sorted without repetitions, in place of its own when a
/// grant is given.
pub open spec fn workspace_manifest(
    discovered: Seq<ManifestView>,
    path: Seq<char>,
    granted: Option<Seq<Seq<char>>>,
) -> ManifestView {
    let base = match first_with_path(discovered, path) {
        Some(i) => discovered[i],
        None => undiscovered_manifest(path),
    };
    match granted {
        Some(g) => ManifestView { capabilities: sorted_enumeration(g.to_set()), ..base },
        None => base,
    }
}

/// Resolves the manifest a workspace script runs under, from the
/// workspace's discovered scripts; a path that leaves the workspace is
/// refused first.
pub fn resolve_workspace_script_manifest(
    relative_path: &str,
    discovered: &Vec<ScriptManifest>,
    granted_capabilities: Option<Vec<String>>,
) -> (r: Result<ScriptManifest, ScriptError>)
    ensures
        r is Ok <==> workspace_path_allowed(relative_path@),
        r matches Err(e) ==> e matches ScriptError::InvalidArgument { detail } && detail@
            == "workspace path must be relative without '..': "@ + relative_path@,
        r matches Ok(m) ==> m@ == workspace_manifest(
            manifest_views(discovered@),
            relative_path@,
            match granted_capabilities {
                Some(g) => Some(views(g@)),
                None => None,
            },
        ),
{
    match check_workspace_relative_path(relative_path) {
        Err(e) => {
            return Err(e);
        },
        Ok(()) => {},
    }
    let ghost ms = manifest_views(discovered@);
    let mut found: Option<usize> = None;
    let mut i: usize = 0;
    assert(ms.subrange(0, ms.len() as int) =~= ms);
    while i < discovered.len()
        invariant_except_break
            found is None,
        invariant
            i <= discovered@.len(),
            ms == manifest_views(discovered@),
            first_with_path(ms, relative_path@) == match first_with_path(
                ms.subrange(i as int, ms.len() as int),
                relative_path@,
            ) {
                Some(k) => Some(k + i),
                None => None,
            },
        ensures
            match found {
                Some(k) => first_with_path(ms, relative_path@) == Some(k as int) && k
                    < discovered@.len(),
                None => first_with_path(ms, relative_path@) is None,
            },
        decreases discovered.len() - i,
    {
        let ghost rest = ms.subrange(i as int, ms.len() as int);
        assert(rest[0] == discovered@[i as int]@);
        assert(rest.drop_first() =~= ms.subrange(i + 1, ms.len() as int));
        let matches = match &discovered[i].script_path {
            Some(p) => str_eq(p.as_str(), relative_path),
            None => false,
        };
        if matches {
            found = Some(i);
            break;
        }
        i = i + 1;
        proof {
            if i == discovered.len() {
                assert(ms.subrange(i as int, ms.len() as int) =~= Seq::<ManifestView>::empty());
            }
        }
    }
    let mut manifest = match found {
        Some(k) => discovered[k].clone(),
        None => {
            let mut m = ScriptManifest::default();
            m.name = owned(relative_path);
            m.script_path = Some(owned(relative_path));
            m.runtime = match runtime_kind_from_path(relative_path) {
                Some(r) => r,
                None => ScriptRuntimeKind::Rhai,
            };
            assert(m@ =~= undiscovered_manifest(relative_path@));
            m
        },
    };
    match granted_capabilities {
        Some(g) => {
            let caps = sorted_set(&g);
            proof {
                crate::strset::lemma_is_sorted_enumeration(views(caps@));
            }
            manifest.capabilities = caps;
        },
        None => {},
    }
    Ok(manifest)
}

} // verus!

//! Runtime-kind detection and the availability notes for guest runtimes.

use crate::scripting::manifest::{
    copy_string_vec, default_limits, ManifestView, ScriptManifest, ScriptRuntimeKind,
};
use crate::strset::{str_lt, views};
use crate::text::{chars_of, lower_chars, lower_seq, opt_view, owned, push_str, trim, trim_chars};
use crate::scripting::capabilities::chars_equal_str;
use std::path::Path;
use vstd::prelude::*;

verus! {

/// The extension of `path` as `std::path::Path::extension` reports it: the
/// part of the file name after its last dot, if the file name has a dot
/// that does not start it.
pub uninterp spec fn path_extension(path: Seq<char>) -> Option<Seq<char>>;

/// What follows the last `c` in `s` (all of `s` when it holds no `c`).
pub open spec fn after_last(s: Seq<char>, c: char) -> Seq<char>
    decreases s.len(),
{
    if s.len() == 0 {
        s
    } else if s.last() == c {
        Seq::empty()
    } else {
        after_last(s.drop_last(), c).push(s.last())
    }
}

/// Whether the last component of a path (what follows its last `/`) is a
/// plain file name: not empty, `.` or `..`. The file name of such a path
/// is that component.
pub open spec fn plain_last_component(path: Seq<char>) -> bool {
    let c = after_last(path, '/');
    c.len() > 0 && c != seq!['.'] && c != seq!['.', '.']
}

/// The extension of a plain file name: what follows its last dot, unless
/// it has no dot or its only dot starts it.
pub open spec fn dot_extension(name: Seq<char>) -> Option<Seq<char>> {
    let e = after_last(name, '.');
    if e.len() == name.len() || e.len() + 1 == name.len() {
        None
    } else {
        Some(e)
    }
}

/// Reads the extension of `path` with `Path::extension` (the `&str` path
/// is valid UTF-8, so the lossy conversion copies it). The claim: the
/// result is the named extension of the path; when the path's last
/// component is a plain file name, it is what follows the name's last dot
/// unless the name has no dot or its only dot starts it (the Unix rule of
/// `Path::file_name` and `Path::extension`).
#[verifier::external_body]
fn extension_of(path: &str) -> (r: Option<String>)
    ensures
        opt_view(r) == path_extension(path@),
        plain_last_component(path@) ==> opt_view(r) == dot_extension(after_last(path@, '/')),
{
    match Path::new(path).extension() {
        Some(e) => Some(e.to_string_lossy().to_string()),
        None => None,
    }
}

/// The runtime kind a (lower-cased) file extension selects.
pub open spec fn runtime_for_extension(ext: Seq<char>) -> Option<ScriptRuntimeKind> {
    if ext == "rhai"@ {
        Some(ScriptRuntimeKind::Rhai)
    } else if ext == "wasm"@ {
        Some(ScriptRuntimeKind::WasmComponent)
    } else if ext == "py"@ {
        Some(ScriptRuntimeKind::Python)
    } else {
        None
    }
}

/// The runtime kind a path selects by its extension, compared without
/// regard to ASCII case.
pub open spec fn runtime_for_path(path: Seq<char>) -> Option<ScriptRuntimeKind> {
    match path_extension(path) {
        Some(ext) => runtime_for_extension(lower_seq(ext)),
        None => None,
    }
}

/// The runtime a file extension selects, compared without regard to
/// ASCII case: `rhai`, `wasm` or `py`.
pub fn runtime_kind_from_extension(ext: &str) -> (r: Option<ScriptRuntimeKind>)
    ensures
        r == runtime_for_extension(lower_seq(ext@)),
{
    let lowered = lower_chars(&chars_of(ext));
    if chars_equal_str(&lowered, "rhai") {
        Some(ScriptRuntimeKind::Rhai)
    } else if chars_equal_str(&lowered, "wasm") {
        Some(ScriptRuntimeKind::WasmComponent)
    } else if chars_equal_str(&lowered, "py") {
        Some(ScriptRuntimeKind::Python)
    } else {
        None
    }
}

/// Chooses the runtime from a file's extension: `.rhai` is Rhai, `.wasm`
/// a Wasm component, `.py` Python (ASCII case ignored).
pub fn runtime_kind_from_path(path: &str) -> (r: Option<ScriptRuntimeKind>)
    ensures
        r == runtime_for_path(path@),
{
    match extension_of(path) {
        Some(ext) => runtime_kind_from_extension(ext.as_str()),
        None => None,
    }
}

/// The runtime a textual runtime name selects: surrounding whitespace and
/// ASCII case are ignored.
pub open spec fn runtime_for_name(raw: Seq<char>) -> Option<ScriptRuntimeKind> {
    let n = lower_seq(trim(raw));
    if n == "rhai"@ {
        Some(ScriptRuntimeKind::Rhai)
    } else if n == "wasm"@ || n == "wasm_component"@ || n == "wasm-component"@ {
        Some(ScriptRuntimeKind::WasmComponent)
    } else if n == "python"@ {
        Some(ScriptRuntimeKind::Python)
    } else {
        None
    }
}

/// Parses a runtime name such as `"rhai"`, `"wasm-component"` or `"python"`.
pub fn parse_runtime_kind(raw: &str) -> (r: Option<ScriptRuntimeKind>)
    ensures
        r == runtime_for_name(raw@),
{
    let n = lower_chars(&trim_chars(&chars_of(raw)));
    if chars_equal_str(&n, "rhai") {
        Some(ScriptRuntimeKind::Rhai)
    } else if chars_equal_str(&n, "wasm") || chars_equal_str(&n, "wasm_component")
        || chars_equal_str(&n, "wasm-component") {
        Some(ScriptRuntimeKind::WasmComponent)
    } else if chars_equal_str(&n, "python") {
        Some(ScriptRuntimeKind::Python)
    } else {
        None
    }
}

/// Whether a runtime can execute in this build: the embedded Rhai runtime
/// always can; the Wasm and Python guest runtimes are not compiled in.
pub open spec fn runtime_available(kind: ScriptRuntimeKind) -> bool {
    kind == ScriptRuntimeKind::Rhai
}

/// Whether the runtime is available in this build.
pub fn runtime_is_available(kind: &ScriptRuntimeKind) -> (r: bool)
    ensures
        r == runtime_available(*kind),
{
    match kind {
        ScriptRuntimeKind::Rhai => true,
        ScriptRuntimeKind::WasmComponent => false,
        ScriptRuntimeKind::Python => false,
    }
}

/// The availability note for a runtime.
pub open spec fn runtime_notes(kind: ScriptRuntimeKind) -> Seq<char> {
    match kind {
        ScriptRuntimeKind::Rhai => "Default embedded workflow runtime backed by the core capability host."@,
        ScriptRuntimeKind::WasmComponent => if runtime_available(kind) {
            "Feature-gated Wasm guest runtime is compiled in; host ABI plumbing is ready for component guest execution."@
        } else {
            "Host ABI and manifest plumbing are ready; enable the `scripting-wasm-component` feature to continue wiring the guest runtime."@
        },
        ScriptRuntimeKind::Python => if runtime_available(kind) {
            "Optional Python guest runtime feature is compiled in behind the stable plugin ABI."@
        } else {
            "Reserved optional guest runtime behind the stable plugin ABI only."@
        },
    }
}

/// Describes the state of a runtime for validation warnings and plugin
/// listings.
pub fn runtime_runtime_notes(kind: &ScriptRuntimeKind) -> (r: &'static str)
    ensures
        r@ == runtime_notes(*kind),
{
    match kind {
        ScriptRuntimeKind::Rhai => "Default embedded workflow runtime backed by the core capability host.",
        ScriptRuntimeKind::WasmComponent => {
            if runtime_is_available(kind) {
                "Feature-gated Wasm guest runtime is compiled in; host ABI plumbing is ready for component guest execution."
            } else {
                "Host ABI and manifest plumbing are ready; enable the `scripting-wasm-component` feature to continue wiring the guest runtime."
            }
        },
        ScriptRuntimeKind::Python => {
            if runtime_is_available(kind) {
                "Optional Python guest runtime feature is compiled in behind the stable plugin ABI."
            } else {
                "Reserved optional guest runtime behind the stable plugin ABI only."
            }
        },
    }
}

/// Why a runtime cannot execute a script.
pub open spec fn unavailable_detail(kind: ScriptRuntimeKind) -> Seq<char> {
    match kind {
        ScriptRuntimeKind::Rhai => "rhai execution is always available"@,
        ScriptRuntimeKind::WasmComponent => if runtime_available(kind) {
            "runtime 'wasm-component' is compiled in but the guest execution path is not yet wired through the stable host ABI."@
        } else {
            "runtime 'wasm-component' is not enabled in this build; enable the `scripting-wasm-component` feature before executing guest plugins."@
        },
        ScriptRuntimeKind::Python => if runtime_available(kind) {
            "runtime 'python' is compiled in but remains reserved behind the stable plugin ABI until the guest host bridge is completed."@
        } else {
            "runtime 'python' is not enabled in this build; optional polyglot guests remain feature-gated behind the stable plugin ABI."@
        },
    }
}

/// Explains why a script for `kind` cannot be executed.
pub fn unavailable_runtime_execution_detail(kind: &ScriptRuntimeKind) -> (r: String)
    ensures
        r@ == unavailable_detail(*kind),
{
    match kind {
        ScriptRuntimeKind::Rhai => owned("rhai execution is always available"),
        ScriptRuntimeKind::WasmComponent => {
            if runtime_is_available(kind) {
                owned("runtime 'wasm-component' is compiled in but the guest execution path is not yet wired through the stable host ABI.")
            } else {
                owned("runtime 'wasm-component' is not enabled in this build; enable the `scripting-wasm-component` feature before executing guest plugins.")
            }
        },
        ScriptRuntimeKind::Python => {
            if runtime_is_available(kind) {
                owned("runtime 'python' is compiled in but remains reserved behind the stable plugin ABI until the guest host bridge is completed.")
            } else {
                owned("runtime 'python' is not enabled in this build; optional polyglot guests remain feature-gated behind the stable plugin ABI.")
            }
        },
    }
}


// ── Workspace discovery ──────────────────────────────────────────────

/// One `[[scripts]]` entry of a skill bundle, with the script's path
/// resolved against the skill's directory.
#[derive(Debug, Clone)]
pub struct SkillBundleScript {
    /// The script's name within the skill.
    pub name: String,
    /// The script's path, joined to the skill directory.
    pub path: String,
}

/// A skill bundle as its `SKILL.toml` declares it.
#[derive(Debug, Clone)]
pub struct SkillBundle {
    /// The skill's name.
    pub name: String,
    /// The permissions the skill declares, given to each of its scripts.
    pub permissions: Vec<String>,
    /// The scripts the skill packages.
    pub scripts: Vec<SkillBundleScript>,
}

/// The manifest of a workflow script found at `relative` (a path relative
/// to the workspace), if its extension selects a runtime: named by that
/// path, with everything else defaulted.
pub open spec fn workflow_manifest_view(relative: Seq<char>) -> Option<ManifestView> {
    match runtime_for_path(relative) {
        Some(runtime) => Some(
            ManifestView {
                name: relative,
                version: Seq::empty(),
                description: None,
                runtime,
                entrypoint: None,
                script_path: Some(relative),
                capabilities: Seq::empty(),
                explicit_capabilities: false,
                triggers: Seq::empty(),
                limits: default_limits(),
            },
        ),
        None => None,
    }
}

/// The manifest of a script packaged in a skill: named
/// `<skill>::<script>`, at its resolved path, run by the runtime its
/// extension selects (Rhai when none does), granted the skill's
/// permissions.
pub open spec fn skill_manifest_view(skill: Seq<char>, permissions: Seq<Seq<char>>, script: Seq<char>, path: Seq<char>) -> ManifestView {
    ManifestView {
        name: skill + "::"@ + script,
        version: Seq::empty(),
        description: None,
        runtime: match runtime_for_path(path) {
            Some(r) => r,
            None => ScriptRuntimeKind::Rhai,
        },
        entrypoint: None,
        script_path: Some(path),
        capabilities: permissions,
        explicit_capabilities: false,
        triggers: Seq::empty(),
        limits: default_limits(),
    }
}

/// The manifest of a workflow script, if its extension selects a runtime.
pub fn workflow_manifest(relative: &str) -> (r: Option<ScriptManifest>)
    ensures
        match r {
            Some(m) => workflow_manifest_view(relative@) == Some(m@),
            None => workflow_manifest_view(relative@) is None,
        },
{
    match runtime_kind_from_path(relative) {
        Some(runtime) => {
            let mut m = ScriptManifest::default();
            m.name = owned(relative);
            m.script_path = Some(owned(relative));
            m.runtime = runtime;
            assert(m@ =~= workflow_manifest_view(relative@)->0);
            Some(m)
        },
        None => None,
    }
}

/// The manifest of a script packaged in a skill.
pub fn skill_script_manifest(skill_name: &str, permissions: &Vec<String>, script: &SkillBundleScript) -> (m: ScriptManifest)
    ensures
        m@ == skill_manifest_view(skill_name@, views(permissions@), script.name@, script.path@),
{
    let mut m = ScriptManifest::default();
    let mut name = owned(skill_name);
    push_str(&mut name, "::");
    push_str(&mut name, script.name.as_str());
    m.name = name;
    m.script_path = Some(script.path.clone());
    m.runtime = match runtime_kind_from_path(script.path.as_str()) {
        Some(r) => r,
        None => ScriptRuntimeKind::Rhai,
    };
    m.capabilities = copy_string_vec(permissions);
    assert(m@ =~= skill_manifest_view(skill_name@, views(permissions@), script.name@, script.path@));
    m
}

/// Where a manifest goes among manifests sorted by name: after every one
/// whose name is not greater, so that equal names keep their order.
pub open spec fn insert_position(sorted: Seq<ManifestView>, m: ManifestView) -> int
    decreases sorted.len(),
{
    if sorted.len() == 0 {
        0
    } else if str_lt(m.name, sorted[0].name) {
        0
    } else {
        1 + insert_position(sorted.drop_first(), m)
    }
}

/// The manifests stably sorted by name (names compared by code point, as
/// `String`'s order compares their UTF-8 bytes).
pub open spec fn sorted_by_name(ms: Seq<ManifestView>) -> Seq<ManifestView>
    decreases ms.len(),
{
    if ms.len() == 0 {
        Seq::empty()
    } else {
        let s = sorted_by_name(ms.drop_last());
        s.insert(insert_position(s, ms.last()), ms.last())
    }
}

proof fn lemma_insert_position_bounds(sorted: Seq<ManifestView>, m: ManifestView)
    ensures
        0 <= insert_position(sorted, m) <= sorted.len(),
        forall|i: int| 0 <= i < insert_position(sorted, m) ==> !str_lt(m.name, #[trigger] sorted[i].name),
        insert_position(sorted, m) < sorted.len() ==> str_lt(m.name, sorted[insert_position(sorted, m)].name),
    decreases sorted.len(),
{
    if sorted.len() > 0 && !str_lt(m.name, sorted[0].name) {
        lemma_insert_position_bounds(sorted.drop_first(), m);
        assert forall|i: int| 0 <= i < insert_position(sorted, m) implies !str_lt(m.name, #[trigger] sorted[i].name) by {
            if i > 0 {
                assert(sorted[i] == sorted.drop_first()[i - 1]);
            }
        }
    }
}

/// The names of the manifests do not decrease.
pub open spec fn names_sorted(ms: Seq<ManifestView>) -> bool {
    forall|i: int, j: int| 0 <= i < j < ms.len() ==> !str_lt(#[trigger] ms[j].name, #[trigger] ms[i].name)
}

/// Discovered manifests come out ordered by name.
pub proof fn lemma_sorted_by_name_is_sorted(ms: Seq<ManifestView>)
    ensures
        names_sorted(sorted_by_name(ms)),
        sorted_by_name(ms).len() == ms.len(),
    decreases ms.len(),
{
    if ms.len() > 0 {
        let s = sorted_by_name(ms.drop_last());
        lemma_sorted_by_name_is_sorted(ms.drop_last());
        let m = ms.last();
        let p = insert_position(s, m);
        lemma_insert_position_bounds(s, m);
        let r = s.insert(p, m);
        assert forall|i: int, j: int| 0 <= i < j < r.len() implies !str_lt(#[trigger] r[j].name, #[trigger] r[i].name) by {
            if j < p {
                assert(r[i] == s[i] && r[j] == s[j]);
            } else if j == p {
                assert(r[j] == m && r[i] == s[i]);
                crate::strset::lemma_lt_total(m.name, s[i].name);
            } else if i < p {
                assert(r[i] == s[i] && r[j] == s[j - 1]);
            } else if i == p {
                assert(r[i] == m && r[j] == s[j - 1]);
                // s[p] comes after m; s[j - 1] does not come before s[p].
                if str_lt(s[j - 1].name, m.name) {
                    if j - 1 > p {
                        crate::strset::lemma_lt_total(s[j - 1].name, s[p].name);
                        if str_lt(s[j - 1].name, s[p].name) {
                            assert(!str_lt(s[j - 1].name, s[p].name));
                        } else if s[j - 1].name == s[p].name {
                            crate::strset::lemma_lt_asymmetric(m.name, s[p].name);
                        } else {
                            crate::strset::lemma_lt_transitive(m.name, s[p].name, s[j - 1].name);
                            crate::strset::lemma_lt_asymmetric(m.name, s[j - 1].name);
                        }
                    } else {
                        crate::strset::lemma_lt_asymmetric(m.name, s[p].name);
                    }
                }
            } else {
                assert(r[i] == s[i - 1] && r[j] == s[j - 1]);
            }
        }
    }
}

fn insert_by_name(out: &mut Vec<ScriptManifest>, m: ScriptManifest)
    ensures
        manifest_views(final(out)@) == manifest_views(old(out)@).insert(
            insert_position(manifest_views(old(out)@), m@),
            m@,
        ),
{
    let ghost vs = manifest_views(out@);
    let mut p: usize = 0;
    assert(vs.subrange(0, vs.len() as int) =~= vs);
    while p < out.len()
        invariant
            p <= out@.len(),
            vs == manifest_views(out@),
            insert_position(vs, m@) == p + insert_position(vs.subrange(p as int, vs.len() as int), m@),
        ensures
            p <= out@.len(),
            insert_position(vs, m@) == p,
        decreases out.len() - p,
    {
        let ghost rest = vs.subrange(p as int, vs.len() as int);
        assert(rest[0] == out@[p as int]@);
        assert(rest.drop_first() =~= vs.subrange(p + 1, vs.len() as int));
        if crate::strset::compare_strings(&m.name, &out[p].name) < 0 {
            break;
        }
        p = p + 1;
        proof {
            if p == out.len() {
                assert(vs.subrange(p as int, vs.len() as int) =~= Seq::<ManifestView>::empty());
            }
        }
    }
    let ghost mv = m@;
    out.insert(p, m);
    assert(manifest_views(out@) =~= vs.insert(p as int, mv));
}


/// Discovers workspace and skill-packaged scripts: the workflow scripts
/// found under `workflows/` (given by their paths relative to the
/// workspace, those without a known extension skipped), then the scripts
/// of each skill bundle, all stably sorted by name.
pub fn discover_workspace_scripts(workflow_paths: &Vec<String>, skills: &Vec<SkillBundle>) -> (r: Vec<ScriptManifest>)
    ensures
        manifest_views(r@) == sorted_by_name(found_manifests(views(workflow_paths@), skills@)),
{
    let mut found: Vec<ScriptManifest> = Vec::new();
    let ghost wps = views(workflow_paths@);
    let mut i: usize = 0;
    while i < workflow_paths.len()
        invariant
            i <= workflow_paths@.len(),
            wps == views(workflow_paths@),
            manifest_views(found@) == workflow_views(wps.take(i as int)),
        decreases workflow_paths.len() - i,
    {
        proof {
            assert(wps.take(i + 1).drop_last() =~= wps.take(i as int));
            assert(wps.take(i + 1).last() == workflow_paths@[i as int]@);
        }
        match workflow_manifest(workflow_paths[i].as_str()) {
            Some(m) => {
                let ghost before = manifest_views(found@);
                found.push(m);
                assert(manifest_views(found@) =~= before.push(m@));
            },
            None => {},
        }
        i = i + 1;
    }
    assert(wps.take(workflow_paths.len() as int) =~= wps);
    let mut k: usize = 0;
    while k < skills.len()
        invariant
            k <= skills@.len(),
            wps == views(workflow_paths@),
            manifest_views(found@) == workflow_views(wps) + skills_views(skills@.take(k as int)),
        decreases skills.len() - k,
    {
        let skill = &skills[k];
        let ghost base = manifest_views(found@);
        let mut j: usize = 0;
        while j < skill.scripts.len()
            invariant
                j <= skill.scripts@.len(),
                skill == skills@[k as int],
                manifest_views(found@) == base + skill_views(*skill, j as int),
            decreases skill.scripts.len() - j,
        {
            let m = skill_script_manifest(skill.name.as_str(), &skill.permissions, &skill.scripts[j]);
            let ghost before = manifest_views(found@);
            found.push(m);
            assert(manifest_views(found@) =~= before.push(m@));
            assert(skill_views(*skill, j + 1) =~= skill_views(*skill, j as int).push(m@));
            j = j + 1;
        }
        proof {
            assert(skills@.take(k + 1).drop_last() =~= skills@.take(k as int));
            assert(skills@.take(k + 1).last() == *skill);
        }
        k = k + 1;
    }
    assert(skills@.take(skills.len() as int) =~= skills@);
    let ghost all = manifest_views(found@);
    let mut out: Vec<ScriptManifest> = Vec::new();
    let mut found = found;
    let mut idx: usize = 0;
    let ghost items = found@;
    while idx < found.len()
        invariant
            idx <= found@.len(),
            found@ == items,
            all == manifest_views(items),
            manifest_views(out@) == sorted_by_name(all.take(idx as int)),
        decreases found.len() - idx,
    {
        let m = found[idx].clone();
        proof {
            assert(all.take(idx + 1).drop_last() =~= all.take(idx as int));
            assert(all.take(idx + 1).last() == items[idx as int]@);
        }
        insert_by_name(&mut out, m);
        idx = idx + 1;
    }
    assert(all.take(found.len() as int) =~= all);
    out
}

/// The views of a sequence of manifests.
pub open spec fn manifest_views(ms: Seq<ScriptManifest>) -> Seq<ManifestView> {
    ms.map_values(|m: ScriptManifest| m@)
}

/// The manifests of the workflow scripts among `paths`, in order.
pub open spec fn workflow_views(paths: Seq<Seq<char>>) -> Seq<ManifestView>
    decreases paths.len(),
{
    if paths.len() == 0 {
        Seq::empty()
    } else {
        let rest = workflow_views(paths.drop_last());
        match workflow_manifest_view(paths.last()) {
            Some(m) => rest.push(m),
            None => rest,
        }
    }
}

/// The manifests of the first `n` scripts of a skill.
pub open spec fn skill_views(skill: SkillBundle, n: int) -> Seq<ManifestView> {
    Seq::new(
        n as nat,
        |i: int|
            skill_manifest_view(
                skill.name@,
                views(skill.permissions@),
                skill.scripts@[i].name@,
                skill.scripts@[i].path@,
            ),
    )
}

/// The manifests of all scripts of the skills, skill by skill.
pub open spec fn skills_views(skills: Seq<SkillBundle>) -> Seq<ManifestView>
    decreases skills.len(),
{
    if skills.len() == 0 {
        Seq::empty()
    } else {
        skills_views(skills.drop_last()) + skill_views(skills.last(), skills.last().scripts@.len() as int)
    }
}

/// The manifests found before sorting: workflows, then skill scripts.
pub open spec fn found_manifests(workflow_paths: Seq<Seq<char>>, skills: Seq<SkillBundle>) -> Seq<ManifestView> {
    workflow_views(workflow_paths) + skills_views(skills)
}

} // verus!

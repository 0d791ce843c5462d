//! Script preflight validation: size limits, syntax, capabilities.
//!
//! A script is validated before it runs: it must fit the size limit and
//! (for Rhai sources) compile; the capabilities it requests are settled
//! from its manifest and from the host functions the source calls, and the
//! capabilities the source needs but the manifest leaves out are reported.

use crate::scripting::capabilities::{
    infer_capabilities, inferred_capabilities, normalize_manifest, normalized_name, copy_strings,
};
use crate::scripting::discovery::{
    runtime_available, runtime_is_available, runtime_notes, runtime_runtime_notes,
    unavailable_detail, unavailable_runtime_execution_detail,
};
use crate::scripting::audit::validation_failure_audit;
use crate::scripting::manifest::{
    catalogue_names, ScriptAuditRecord, validation_available_capability_names, ScriptError, ScriptLimits,
    ScriptManifest, ScriptPluginRuntime, ScriptRuntimeKind, ScriptValidation,
};
use crate::strset::{lemma_views_push, sorted_enumeration, views};
use crate::text::{decimal, decimal_string, opt_view, owned, push_str};
use rhai::packages::Package;
use vstd::string::StringSliceAdditionalSpecFns;
use vstd::prelude::*;

verus! {

/// No explicit capabilities: the source decides.
pub const INFERRED_PERMISSIONS_WARNING: &'static str = "No explicit manifest capabilities were supplied; using source-inferred permissions for this execution.";

/// No capabilities at all.
pub const NO_CAPABILITIES_WARNING: &'static str = "Script does not currently request any host capabilities.";

/// The manifest leaves out capabilities the source needs.
pub const MISSING_CAPABILITIES_WARNING: &'static str = "The explicit manifest omits one or more capabilities inferred from the source; execution will deny those calls.";

/// A guest script without capabilities.
pub const GUEST_NO_CAPABILITIES_WARNING: &'static str = "Guest script does not currently request any host capabilities.";

/// The note of the embedded Rhai runtime.
pub const RHAI_RUNTIME_NOTES: &'static str = "Default embedded workflow runtime backed by the core capability host.";

// ── Rhai syntax ──────────────────────────────────────────────────────

/// What Rhai's compiler reports for a source (an engine without standard
/// packages beyond the core one): `None` when it compiles, otherwise the
/// text of the parse error.
pub uninterp spec fn rhai_syntax_error(source: Seq<char>) -> Option<Seq<char>>;

/// Compiles `source` with a raw `rhai::Engine` that has the core package
/// registered (`Engine::new_raw`, `register_global_module`,
/// `Engine::compile`) and renders a parse error with `to_string`. The
/// claim: the result is the named outcome for the source, a fixed function
/// of the text.
#[verifier::external_body]
fn rhai_compile_error(source: &str) -> (r: Option<String>)
    ensures
        opt_view(r) == rhai_syntax_error(source@),
{
    let mut engine = rhai::Engine::new_raw();
    engine.register_global_module(rhai::packages::CorePackage::new().as_shared_module());
    match engine.compile(source) {
        Ok(_) => None,
        Err(error) => Some(error.to_string()),
    }
}

// ── The pieces of a validation ───────────────────────────────────────

/// The detail of the error for a script over the size limit.
pub open spec fn limit_detail(limit: usize) -> Seq<char> {
    "script exceeds the "@ + decimal(limit as nat) + " byte safety limit"@
}

fn limit_error(limit: usize) -> (e: ScriptError)
    ensures
        e matches ScriptError::ValidationError { detail } && detail@ == limit_detail(limit),
{
    let mut detail = owned("script exceeds the ");
    push_str(&mut detail, decimal_string(limit as u64).as_str());
    push_str(&mut detail, " byte safety limit");
    ScriptError::ValidationError { detail }
}

/// The manifest said which capabilities it grants (explicitly, or by
/// listing some).
pub open spec fn had_explicit_capabilities(manifest: Option<ScriptManifest>) -> bool {
    match manifest {
        Some(m) => m.explicit_capabilities || m.capabilities@.len() > 0,
        None => false,
    }
}

/// The name a validation reports.
pub open spec fn validated_name(manifest: Option<ScriptManifest>) -> Seq<char> {
    match manifest {
        Some(m) => normalized_name(m.name@),
        None => "inline-script"@,
    }
}

/// The runtime a manifest selects (Rhai without a manifest).
pub open spec fn validated_runtime(manifest: Option<ScriptManifest>) -> ScriptRuntimeKind {
    match manifest {
        Some(m) => m.runtime,
        None => ScriptRuntimeKind::Rhai,
    }
}

/// The capabilities requested: the inferred ones when the manifest grants
/// none and is not explicit, otherwise the manifest's own, sorted without
/// repetitions.
pub open spec fn requested_capabilities(
    manifest: Option<ScriptManifest>,
    inferred: Seq<Seq<char>>,
) -> Seq<Seq<char>> {
    match manifest {
        Some(m) => if m.capabilities@.len() == 0 && !m.explicit_capabilities {
            inferred
        } else {
            sorted_enumeration(views(m.capabilities@).to_set())
        },
        None => inferred,
    }
}

/// The inferred capabilities that are not requested, in order.
pub open spec fn missing_capabilities(inferred: Seq<Seq<char>>, requested: Seq<Seq<char>>) -> Seq<
    Seq<char>,
>
    decreases inferred.len(),
{
    if inferred.len() == 0 {
        Seq::empty()
    } else {
        let rest = missing_capabilities(inferred.drop_last(), requested);
        if requested.contains(inferred.last()) {
            rest
        } else {
            rest.push(inferred.last())
        }
    }
}

/// The warnings of a Rhai validation, in order: inferred permissions (no
/// explicit grant but some capabilities), no capabilities (no explicit
/// grant and none inferred), missing capabilities.
pub open spec fn rhai_warnings(explicit: bool, requested: Seq<Seq<char>>, missing: Seq<Seq<char>>) -> Seq<
    Seq<char>,
> {
    (if !explicit && requested.len() > 0 {
        seq![INFERRED_PERMISSIONS_WARNING@]
    } else {
        Seq::empty()
    }) + (if !explicit && requested.len() == 0 {
        seq![NO_CAPABILITIES_WARNING@]
    } else {
        Seq::empty()
    }) + (if missing.len() > 0 {
        seq![MISSING_CAPABILITIES_WARNING@]
    } else {
        Seq::empty()
    })
}

/// `v` reports a successful validation with these parts.
pub open spec fn validation_is(
    v: ScriptValidation,
    name: Seq<char>,
    runtime: ScriptRuntimeKind,
    requested: Seq<Seq<char>>,
    missing: Seq<Seq<char>>,
    warnings: Seq<Seq<char>>,
) -> bool {
    &&& v.manifest_name@ == name
    &&& v.runtime == runtime
    &&& views(v.requested_capabilities@) == requested
    &&& views(v.missing_capabilities@) == missing
    &&& views(v.warnings@) == warnings
    &&& views(v.available_capabilities@) == catalogue_names()
}

fn compute_missing(inferred: &Vec<String>, requested: &Vec<String>) -> (r: Vec<String>)
    ensures
        views(r@) == missing_capabilities(views(inferred@), views(requested@)),
{
    let ghost inf = views(inferred@);
    let mut out: Vec<String> = Vec::new();
    let mut i: usize = 0;
    while i < inferred.len()
        invariant
            i <= inferred@.len(),
            inf == views(inferred@),
            views(out@) == missing_capabilities(inf.take(i as int), views(requested@)),
        decreases inferred.len() - i,
    {
        proof {
            assert(inf.take(i + 1).drop_last() =~= inf.take(i as int));
            assert(inf.take(i + 1).last() == inferred@[i as int]@);
        }
        let c = inferred[i].as_str();
        if !crate::scripting::capabilities::contains_str(requested, c) {
            let ghost before = out@;
            let s = owned(c);
            out.push(s);
            proof {
                lemma_views_push(before, s);
            }
        }
        i = i + 1;
    }
    assert(inf.take(inferred.len() as int) =~= inf);
    out
}

fn push_owned(v: &mut Vec<String>, s: &str)
    ensures
        views(final(v)@) == views(old(v)@).push(s@),
{
    let ghost before = v@;
    let x = owned(s);
    v.push(x);
    proof {
        lemma_views_push(before, x);
    }
}

// ── Validation ───────────────────────────────────────────────────────

/// `v` is the validation of a Rhai source that compiles: built from the
/// manifest and the capabilities inferred from the source.
pub open spec fn rhai_validation_ok(
    v: ScriptValidation,
    source: &str,
    manifest: Option<ScriptManifest>,
) -> bool {
    let inferred = sorted_enumeration(inferred_capabilities(source@));
    let requested = requested_capabilities(manifest, inferred);
    let missing = missing_capabilities(inferred, requested);
    validation_is(
        v,
        validated_name(manifest),
        validated_runtime(manifest),
        requested,
        missing,
        rhai_warnings(had_explicit_capabilities(manifest), requested, missing),
    )
}

/// The rest of a Rhai validation once the source is known to fit the size
/// limit and the compiler has been asked: a syntax error is reported as a
/// validation error with the compiler's message; otherwise the manifest is
/// normalised with the capabilities inferred from the source, and the
/// inferred capabilities the manifest does not request are reported as
/// missing.
pub fn rhai_validation_from(
    source: &str,
    manifest: Option<ScriptManifest>,
    syntax_error: Option<String>,
) -> (r: Result<ScriptValidation, ScriptError>)
    ensures
        match syntax_error {
            Some(e) => r matches Err(ScriptError::ValidationError { detail }) && detail@ == e@,
            None => r matches Ok(v) && rhai_validation_ok(v, source, manifest),
        },
{
    if let Some(detail) = syntax_error {
        return Err(ScriptError::ValidationError { detail });
    }
    let had_explicit = match &manifest {
        Some(m) => m.explicit_capabilities || m.capabilities.len() > 0,
        None => false,
    };
    let inferred = infer_capabilities(source);
    let ghost m0 = manifest;
    let normalised = normalize_manifest(manifest, copy_strings(&inferred));
    proof {
        match m0 {
            Some(m) => {
                assert(views(m.capabilities@).len() == m.capabilities@.len());
                if !(m.capabilities@.len() == 0 && !m.explicit_capabilities) {
                    crate::strset::lemma_is_sorted_enumeration(views(normalised.capabilities@));
                }
            },
            None => {},
        }
    }
    let requested = normalised.capabilities;
    let missing = compute_missing(&inferred, &requested);
    let mut warnings: Vec<String> = Vec::new();
    if !had_explicit && requested.len() > 0 {
        push_owned(&mut warnings, INFERRED_PERMISSIONS_WARNING);
    }
    if !had_explicit && requested.len() == 0 {
        push_owned(&mut warnings, NO_CAPABILITIES_WARNING);
    }
    if missing.len() > 0 {
        push_owned(&mut warnings, MISSING_CAPABILITIES_WARNING);
    }
    assert(views(warnings@) =~= rhai_warnings(had_explicit, views(requested@), views(missing@)));
    Ok(
        ScriptValidation {
            manifest_name: normalised.name,
            runtime: normalised.runtime,
            requested_capabilities: requested,
            missing_capabilities: missing,
            warnings,
            available_capabilities: validation_available_capability_names(),
        },
    )
}

/// Validates a Rhai source and returns the capabilities it requests.
///
/// A source longer (in bytes) than the limit is refused; so is one that
/// does not compile, with the compiler's message; the rest is
/// [`rhai_validation_from`].
pub fn validate_rhai_source(
    limits: &ScriptLimits,
    source: &str,
    manifest: Option<ScriptManifest>,
) -> (r: Result<ScriptValidation, ScriptError>)
    ensures
        source.spec_bytes().len() > limits.max_script_bytes ==> (r matches Err(
            ScriptError::ValidationError { detail },
        ) && detail@ == limit_detail(limits.max_script_bytes)),
        source.spec_bytes().len() <= limits.max_script_bytes ==> match rhai_syntax_error(source@) {
            Some(e) => r matches Err(ScriptError::ValidationError { detail }) && detail@ == e,
            None => r matches Ok(v) && rhai_validation_ok(v, source, manifest),
        },
{
    if source.as_bytes().len() > limits.max_script_bytes {
        return Err(limit_error(limits.max_script_bytes));
    }
    let syntax_error = rhai_compile_error(source);
    rhai_validation_from(source, manifest, syntax_error)
}

/// The warnings of a guest validation: no capabilities (when none are
/// requested), then the runtime's notes and why it cannot run yet.
pub open spec fn guest_warnings(runtime: ScriptRuntimeKind, requested: Seq<Seq<char>>) -> Seq<Seq<char>> {
    (if requested.len() == 0 {
        seq![GUEST_NO_CAPABILITIES_WARNING@]
    } else {
        Seq::empty()
    }) + seq![runtime_notes(runtime), unavailable_detail(runtime)]
}

/// Validates a guest (non-Rhai) script by its manifest and its size in
/// bytes: over the limit it is refused; otherwise the manifest is
/// normalised (nothing is inferred from a guest) and nothing is missing.
pub fn validate_guest_manifest(
    limits: &ScriptLimits,
    manifest: Option<ScriptManifest>,
    source_len: usize,
) -> (r: Result<ScriptValidation, ScriptError>)
    ensures
        source_len > limits.max_script_bytes ==> (r matches Err(ScriptError::ValidationError { detail })
            && detail@ == limit_detail(limits.max_script_bytes)),
        source_len <= limits.max_script_bytes ==> ({
            let requested = requested_capabilities(manifest, Seq::empty());
            r matches Ok(v) && validation_is(
                v,
                validated_name(manifest),
                validated_runtime(manifest),
                requested,
                Seq::empty(),
                guest_warnings(validated_runtime(manifest), requested),
            )
        }),
{
    if source_len > limits.max_script_bytes {
        return Err(limit_error(limits.max_script_bytes));
    }
    let ghost m0 = manifest;
    let no_inferred: Vec<String> = Vec::new();
    assert(views(no_inferred@) =~= Seq::<Seq<char>>::empty());
    let normalised = normalize_manifest(manifest, no_inferred);
    proof {
        match m0 {
            Some(m) => {
                assert(views(m.capabilities@).len() == m.capabilities@.len());
                if !(m.capabilities@.len() == 0 && !m.explicit_capabilities) {
                    crate::strset::lemma_is_sorted_enumeration(views(normalised.capabilities@));
                } else {
                    assert(views(normalised.capabilities@) =~= Seq::<Seq<char>>::empty());
                }
            },
            None => {
                assert(views(normalised.capabilities@) =~= Seq::<Seq<char>>::empty());
            },
        }
    }
    let mut warnings: Vec<String> = Vec::new();
    if normalised.capabilities.len() == 0 {
        push_owned(&mut warnings, GUEST_NO_CAPABILITIES_WARNING);
    }
    push_owned(&mut warnings, runtime_runtime_notes(&normalised.runtime));
    let ghost before = warnings@;
    let detail = unavailable_runtime_execution_detail(&normalised.runtime);
    warnings.push(detail);
    proof {
        lemma_views_push(before, detail);
    }
    assert(views(warnings@) =~= guest_warnings(normalised.runtime, views(normalised.capabilities@)));
    Ok(
        ScriptValidation {
            manifest_name: normalised.name,
            runtime: normalised.runtime,
            requested_capabilities: normalised.capabilities,
            missing_capabilities: Vec::new(),
            warnings,
            available_capabilities: validation_available_capability_names(),
        },
    )
}

/// Validates a script and returns the capabilities it requests: a Rhai
/// script (the default without a manifest) by its source, a guest script
/// by its manifest and the source's size in bytes.
pub fn validate_script(
    limits: &ScriptLimits,
    source: &str,
    manifest: Option<ScriptManifest>,
) -> (r: Result<ScriptValidation, ScriptError>)
    ensures
        validated_runtime(manifest) == ScriptRuntimeKind::Rhai ==> ({
            &&& source.spec_bytes().len() > limits.max_script_bytes ==> (r matches Err(
                ScriptError::ValidationError { detail },
            ) && detail@ == limit_detail(limits.max_script_bytes))
            &&& source.spec_bytes().len() <= limits.max_script_bytes ==> match rhai_syntax_error(
                source@,
            ) {
                Some(e) => r matches Err(ScriptError::ValidationError { detail }) && detail@ == e,
                None => r matches Ok(v) && rhai_validation_ok(v, source, manifest),
            }
        }),
        validated_runtime(manifest) != ScriptRuntimeKind::Rhai ==> ({
            let requested = requested_capabilities(manifest, Seq::empty());
            &&& source.spec_bytes().len() > limits.max_script_bytes ==> (r matches Err(
                ScriptError::ValidationError { detail },
            ) && detail@ == limit_detail(limits.max_script_bytes))
            &&& source.spec_bytes().len() <= limits.max_script_bytes ==> (r matches Ok(v)
                && validation_is(
                v,
                validated_name(manifest),
                validated_runtime(manifest),
                requested,
                Seq::empty(),
                guest_warnings(validated_runtime(manifest), requested),
            ))
        }),
{
    let runtime = match &manifest {
        Some(m) => m.runtime,
        None => ScriptRuntimeKind::Rhai,
    };
    match runtime {
        ScriptRuntimeKind::Rhai => validate_rhai_source(limits, source, manifest),
        _ => validate_guest_manifest(limits, manifest, source.as_bytes().len()),
    }
}

// ── Runtimes ─────────────────────────────────────────────────────────

/// The view of an advertised runtime: kind, availability, isolation, notes.
pub open spec fn plugin_runtime_view(p: ScriptPluginRuntime) -> (ScriptRuntimeKind, bool, bool, Seq<char>) {
    (p.kind, p.available, p.isolates_guest, p.notes@)
}

/// The advertised runtimes: Rhai (available, not isolating), then the
/// WebAssembly component and Python guests (isolating, available as the
/// build allows).
pub open spec fn advertised_runtimes() -> Seq<(ScriptRuntimeKind, bool, bool, Seq<char>)> {
    seq![
        (ScriptRuntimeKind::Rhai, true, false, RHAI_RUNTIME_NOTES@),
        (
            ScriptRuntimeKind::WasmComponent,
            runtime_available(ScriptRuntimeKind::WasmComponent),
            true,
            runtime_notes(ScriptRuntimeKind::WasmComponent),
        ),
        (
            ScriptRuntimeKind::Python,
            runtime_available(ScriptRuntimeKind::Python),
            true,
            runtime_notes(ScriptRuntimeKind::Python),
        ),
    ]
}

/// Returns advertised runtime availability for current and future guests.
pub fn plugin_runtimes() -> (r: Vec<ScriptPluginRuntime>)
    ensures
        r@.map_values(|p: ScriptPluginRuntime| plugin_runtime_view(p)) == advertised_runtimes(),
{
    let r = vec![
        ScriptPluginRuntime {
            kind: ScriptRuntimeKind::Rhai,
            available: true,
            isolates_guest: false,
            notes: owned(RHAI_RUNTIME_NOTES),
        },
        ScriptPluginRuntime {
            kind: ScriptRuntimeKind::WasmComponent,
            available: runtime_is_available(&ScriptRuntimeKind::WasmComponent),
            isolates_guest: true,
            notes: owned(runtime_runtime_notes(&ScriptRuntimeKind::WasmComponent)),
        },
        ScriptPluginRuntime {
            kind: ScriptRuntimeKind::Python,
            available: runtime_is_available(&ScriptRuntimeKind::Python),
            isolates_guest: true,
            notes: owned(runtime_runtime_notes(&ScriptRuntimeKind::Python)),
        },
    ];
    assert(r@.map_values(|p: ScriptPluginRuntime| plugin_runtime_view(p)) =~= advertised_runtimes());
    r
}


// ── Running a validated script ───────────────────────────────────────

/// Why a WebAssembly component cannot run: this build has no component
/// runtime.
pub const WASM_NOT_IN_BUILD_DETAIL: &'static str = "WasmComponent runtime not available in this build. Enable with: features.add(\"scripting-wasm-component\") in lib/build.gradle.kts";

/// Why a validated script cannot run in this build, if it cannot: only
/// Rhai scripts run.
pub open spec fn refusal_detail(runtime: ScriptRuntimeKind) -> Option<Seq<char>> {
    match runtime {
        ScriptRuntimeKind::Rhai => None,
        ScriptRuntimeKind::WasmComponent => Some(WASM_NOT_IN_BUILD_DETAIL@),
        ScriptRuntimeKind::Python => Some(unavailable_detail(ScriptRuntimeKind::Python)),
    }
}

/// Decides whether a validated script may run. When it may not, returns
/// the validation error to report and the audit record of the refused
/// run.
pub fn execution_refusal(validation: &ScriptValidation) -> (r: Option<(ScriptError, ScriptAuditRecord)>)
    ensures
        match refusal_detail(validation.runtime) {
            None => r is None,
            Some(d) => r matches Some((e, a)) && e matches ScriptError::ValidationError { detail }
                && detail@ == d && a.error == Some(detail) && !a.success && a.script_name@
                == validation.manifest_name@ && a.runtime == validation.runtime
                && a.requested_capabilities@ == validation.requested_capabilities@
                && a.attempted_capabilities@.len() == 0 && a.used_capabilities@.len() == 0
                && a.missing_capabilities@ == validation.missing_capabilities@ && a.warnings@
                == validation.warnings@ && a.duration_ms == 0,
        },
{
    let detail = match validation.runtime {
        ScriptRuntimeKind::Rhai => {
            return None;
        },
        ScriptRuntimeKind::WasmComponent => owned(WASM_NOT_IN_BUILD_DETAIL),
        ScriptRuntimeKind::Python => unavailable_runtime_execution_detail(&validation.runtime),
    };
    let audit = validation_failure_audit(validation, detail.clone());
    Some((ScriptError::ValidationError { detail }, audit))
}

} // verus!

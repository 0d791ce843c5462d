//! Trigger matching and registration for packaged scripts.

use crate::scripting::manifest::{ManifestView, ScriptError, ScriptManifest, ScriptTrigger, TriggerView};
use crate::text::{concat2, eq_ignore_ascii_case, opt_str_view, str_eq, str_eq_ignore_ascii_case};
use crate::text::lower_seq;
use vstd::prelude::*;

verus! {

/// A resolved trigger ready for registration with the scheduler or event bus.
#[derive(Debug)]
pub struct ResolvedTrigger {
    /// Script manifest this trigger belongs to.
    pub manifest: ScriptManifest,
    /// The trigger definition.
    pub trigger: ScriptTrigger,
}

impl View for ResolvedTrigger {
    type V = (ManifestView, TriggerView);

    open spec fn view(&self) -> (ManifestView, TriggerView) {
        (self.manifest@, self.trigger@)
    }
}

impl Clone for ResolvedTrigger {
    fn clone(&self) -> (r: Self)
        ensures
            r@ == self@,
    {
        ResolvedTrigger { manifest: self.manifest.clone(), trigger: self.trigger.clone() }
    }
}

/// The views of a sequence of resolved triggers.
pub open spec fn resolved_views(v: Seq<ResolvedTrigger>) -> Seq<(ManifestView, TriggerView)> {
    v.map_values(|r: ResolvedTrigger| r@)
}

/// A cron trigger that carries a schedule.
pub open spec fn is_scheduled_cron(t: TriggerView) -> bool {
    t.0 == "cron"@ && t.1 is Some
}

/// A trigger driven by channel or provider events.
pub open spec fn is_event_driven(t: TriggerView) -> bool {
    t.0 == "channel_event"@ || t.0 == "provider_event"@
}

/// The pairs of `m` with those of its triggers `ts` that `keep` selects, in order.
pub open spec fn pairs_for(
    m: ManifestView,
    ts: Seq<TriggerView>,
    keep: spec_fn(TriggerView) -> bool,
) -> Seq<(ManifestView, TriggerView)>
    decreases ts.len(),
{
    if ts.len() == 0 {
        Seq::empty()
    } else {
        let rest = pairs_for(m, ts.drop_last(), keep);
        if keep(ts.last()) {
            rest.push((m, ts.last()))
        } else {
            rest
        }
    }
}

/// Every (manifest, trigger) pair that `keep` selects, scripts in order and
/// each script's triggers in order.
pub open spec fn collected(
    ms: Seq<ManifestView>,
    keep: spec_fn(TriggerView) -> bool,
) -> Seq<(ManifestView, TriggerView)>
    decreases ms.len(),
{
    if ms.len() == 0 {
        Seq::empty()
    } else {
        collected(ms.drop_last(), keep) + pairs_for(ms.last(), ms.last().triggers, keep)
    }
}

/// The views of a sequence of manifests.
pub open spec fn manifest_views(ms: Seq<ScriptManifest>) -> Seq<ManifestView> {
    ms.map_values(|m: ScriptManifest| m@)
}

/// Whether a trigger is kept: `true` for scheduled cron triggers when
/// `cron` holds, for event-driven ones otherwise.
fn keeps(t: &ScriptTrigger, cron: bool) -> (r: bool)
    ensures
        r == (if cron { is_scheduled_cron(t@) } else { is_event_driven(t@) }),
{
    if cron {
        str_eq(t.kind.as_str(), "cron") && t.schedule.is_some()
    } else {
        str_eq(t.kind.as_str(), "channel_event") || str_eq(t.kind.as_str(), "provider_event")
    }
}

/// The selection that [`keeps`] makes.
pub open spec fn selection(cron: bool) -> spec_fn(TriggerView) -> bool {
    if cron {
        |t: TriggerView| is_scheduled_cron(t)
    } else {
        |t: TriggerView| is_event_driven(t)
    }
}

fn collect_selected(scripts: &[ScriptManifest], cron: bool) -> (r: Vec<ResolvedTrigger>)
    ensures
        resolved_views(r@) == collected(manifest_views(scripts@), selection(cron)),
{
    let ghost keep = selection(cron);
    let mut out: Vec<ResolvedTrigger> = Vec::new();
    let mut i: usize = 0;
    while i < scripts.len()
        invariant
            i <= scripts@.len(),
            keep == selection(cron),
            resolved_views(out@) == collected(manifest_views(scripts@.take(i as int)), keep),
        decreases scripts.len() - i,
    {
        let m = &scripts[i];
        let ghost base = out@;
        let mut j: usize = 0;
        while j < m.triggers.len()
            invariant
                j <= m.triggers@.len(),
                m == scripts@[i as int],
                keep == selection(cron),
                resolved_views(out@) == resolved_views(base) + pairs_for(
                    m@,
                    m@.triggers.take(j as int),
                    keep,
                ),
            decreases m.triggers.len() - j,
        {
            let t = &m.triggers[j];
            let ghost prev = out@;
            if keeps(t, cron) {
                let rt = ResolvedTrigger { manifest: m.clone(), trigger: t.clone() };
                out.push(rt);
                assert(resolved_views(out@) =~= resolved_views(prev).push((m@, t@)));
            }
            proof {
                assert(m@.triggers[j as int] == t@);
                assert(m@.triggers.take(j + 1).drop_last() =~= m@.triggers.take(j as int));
                assert(m@.triggers.take(j + 1).last() == t@);
            }
            j = j + 1;
        }
        proof {
            assert(m@.triggers.take(m.triggers.len() as int) =~= m@.triggers);
            let ms = manifest_views(scripts@.take(i + 1));
            assert(ms.drop_last() =~= manifest_views(scripts@.take(i as int)));
            assert(ms.last() == m@);
        }
        i = i + 1;
    }
    assert(scripts@.take(scripts.len() as int) =~= scripts@);
    out
}

/// Extract all cron triggers from workspace scripts.
pub fn collect_cron_triggers(scripts: &[ScriptManifest]) -> (r: Vec<ResolvedTrigger>)
    ensures
        resolved_views(r@) == collected(
            manifest_views(scripts@),
            |t: TriggerView| is_scheduled_cron(t),
        ),
{
    collect_selected(scripts, true)
}

/// Extract event-driven triggers (channel_event, provider_event).
pub fn collect_event_triggers(scripts: &[ScriptManifest]) -> (r: Vec<ResolvedTrigger>)
    ensures
        resolved_views(r@) == collected(
            manifest_views(scripts@),
            |t: TriggerView| is_event_driven(t),
        ),
{
    collect_selected(scripts, false)
}

/// The error detail for an event-driven trigger without an event.
pub open spec fn missing_event_detail(kind: Seq<char>) -> Seq<char> {
    kind + " trigger requires an 'event' field; wildcard triggers are not allowed"@
}

/// Validate a trigger definition.
///
/// For `channel_event` and `provider_event` triggers, the `event` field is required.
/// Wildcard triggers (no `event` field) are not allowed for event-driven triggers.
pub fn validate_trigger(trigger: &ScriptTrigger) -> (r: Result<(), ScriptError>)
    ensures
        r is Ok <==> !(is_event_driven(trigger@) && trigger.event is None),
        r matches Err(e) ==> e matches ScriptError::ValidationError { detail }
            && detail@ == missing_event_detail(trigger.kind@),
{
    if keeps(trigger, false) && trigger.event.is_none() {
        return Err(
            ScriptError::ValidationError {
                detail: concat2(
                    trigger.kind.as_str(),
                    " trigger requires an 'event' field; wildcard triggers are not allowed",
                ),
            },
        );
    }
    Ok(())
}

/// Whether a trigger's event selector accepts an event kind; the `message`
/// selector stands for `channel_message` events, no selector accepts all.
pub open spec fn event_kind_matches(event: Option<Seq<char>>, kind: Seq<char>) -> bool {
    match event {
        Some(e) => if e == "message"@ {
            kind == "channel_message"@
        } else {
            kind == e
        },
        None => true,
    }
}

/// Whether a trigger's channel selector accepts an event's channel, ignoring
/// ASCII case; no selector accepts all.
pub open spec fn channel_matches(channel: Option<Seq<char>>, event_channel: Option<Seq<char>>) -> bool {
    match channel {
        Some(required) => match event_channel {
            Some(c) => eq_ignore_ascii_case(c, required),
            None => false,
        },
        None => true,
    }
}

/// A trigger matches an event when both its event and channel selectors do.
pub open spec fn trigger_matches(t: TriggerView, kind: Seq<char>, channel: Option<Seq<char>>) -> bool {
    event_kind_matches(t.2, kind) && channel_matches(t.3, channel)
}

/// How a trigger selects events: without selectors it matches every
/// event; an event selector `e` other than `message` (and no channel
/// selector) matches exactly the events of kind `e`; `message` matches
/// exactly `channel_message` events; a channel selector admits only events
/// on that channel (ignoring ASCII case), and one on exactly that channel
/// passes it.
pub proof fn lemma_trigger_selectors(t: TriggerView, kind: Seq<char>, channel: Option<Seq<char>>)
    ensures
        (t.2 is None && t.3 is None) ==> trigger_matches(t, kind, channel),
        (t.2 is Some && t.2->0 != "message"@ && t.3 is None) ==> (trigger_matches(t, kind, channel)
            <==> kind == t.2->0),
        (t.2 == Some("message"@) && t.3 is None) ==> (trigger_matches(t, kind, channel) <==> kind
            == "channel_message"@),
        (t.3 is Some && trigger_matches(t, kind, channel)) ==> (channel is Some && lower_seq(
            channel->0,
        ) == lower_seq(t.3->0)),
        (t.2 is None && t.3 is Some && channel == t.3) ==> trigger_matches(t, kind, channel),
{
}

/// Check whether a trigger matches a given event kind and channel.
pub fn trigger_matches_event(
    trigger: &ScriptTrigger,
    event_kind: &str,
    event_channel: Option<&str>,
) -> (r: bool)
    ensures
        r == trigger_matches(trigger@, event_kind@, opt_str_view(event_channel)),
{
    let kind_matches = match &trigger.event {
        Some(e) => if str_eq(e.as_str(), "message") {
            str_eq(event_kind, "channel_message")
        } else {
            str_eq(event_kind, e.as_str())
        },
        None => true,
    };
    if !kind_matches {
        return false;
    }
    match &trigger.channel {
        Some(required) => match event_channel {
            Some(c) => str_eq_ignore_ascii_case(c, required.as_str()),
            None => false,
        },
        None => true,
    }
}

/// The names of the scripts whose triggers match an event, in order.
pub open spec fn matching_names(
    ts: Seq<(ManifestView, TriggerView)>,
    kind: Seq<char>,
    channel: Option<Seq<char>>,
) -> Seq<Seq<char>>
    decreases ts.len(),
{
    if ts.len() == 0 {
        Seq::empty()
    } else {
        let rest = matching_names(ts.drop_last(), kind, channel);
        if trigger_matches(ts.last().1, kind, channel) {
            rest.push(ts.last().0.name)
        } else {
            rest
        }
    }
}

/// Return names of scripts matching an event.
pub fn matching_script_names(
    triggers: &[ResolvedTrigger],
    event_kind: &str,
    event_channel: Option<&str>,
) -> (r: Vec<String>)
    ensures
        crate::strset::views(r@) == matching_names(
            resolved_views(triggers@),
            event_kind@,
            opt_str_view(event_channel),
        ),
{
    let mut out: Vec<String> = Vec::new();
    let mut i: usize = 0;
    while i < triggers.len()
        invariant
            i <= triggers@.len(),
            crate::strset::views(out@) == matching_names(
                resolved_views(triggers@.take(i as int)),
                event_kind@,
                opt_str_view(event_channel),
            ),
        decreases triggers.len() - i,
    {
        let rt = &triggers[i];
        let ghost prev = out@;
        if trigger_matches_event(&rt.trigger, event_kind, event_channel) {
            let name = rt.manifest.name.clone();
            out.push(name);
            proof {
                crate::strset::lemma_views_push(prev, name);
            }
        }
        proof {
            let vs = resolved_views(triggers@.take(i + 1));
            assert(vs.drop_last() =~= resolved_views(triggers@.take(i as int)));
            assert(vs.last() == rt@);
        }
        i = i + 1;
    }
    assert(triggers@.take(triggers.len() as int) =~= triggers@);
    out
}

} // verus!

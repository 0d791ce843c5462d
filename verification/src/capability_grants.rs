//! Capability grants for script and skill approval.
//!
//! Scripts and skills that request dangerous capabilities (`tools.call`,
//! `cron.write`, `auth.write`, `auth.read`) require explicit one-time user
//! approval. Approvals are per skill and capability, permanent until
//! revoked, and persisted by the FFI layer in `capability_grants.json`.
//! Pending approval requests live in memory until the user answers.

use crate::error::FfiError;
use crate::text::{concat2, decimal, decimal_string, digit_char, owned, push_str, str_eq};
use vstd::prelude::*;

verus! {

/// The name of the grants file in the workspace directory.
pub const GRANTS_FILENAME: &'static str = "capability_grants.json";

/// Capabilities that require explicit user approval before a skill may
/// use them.
pub open spec fn dangerous_capabilities() -> Seq<Seq<char>> {
    seq!["tools.call"@, "cron.write"@, "auth.write"@, "auth.read"@]
}

/// Whether a capability requires explicit user approval.
pub fn is_dangerous_capability(capability: &str) -> (r: bool)
    ensures
        r == dangerous_capabilities().contains(capability@),
{
    let r = str_eq(capability, "tools.call") || str_eq(capability, "cron.write") || str_eq(
        capability,
        "auth.write",
    ) || str_eq(capability, "auth.read");
    proof {
        let d = dangerous_capabilities();
        assert(d[0] == "tools.call"@ && d[1] == "cron.write"@ && d[2] == "auth.write"@ && d[3]
            == "auth.read"@);
        if d.contains(capability@) {
            let i = choose|i: int| 0 <= i < d.len() && d[i] == capability@;
            assert(i == 0 || i == 1 || i == 2 || i == 3);
        }
    }
    r
}

/// Information about a persisted capability grant.
#[derive(Debug, Clone)]
pub struct CapabilityGrantInfo {
    /// Name of the skill that was granted the capability.
    pub skill_name: String,
    /// The granted capability.
    pub capability: String,
    /// RFC 3339 timestamp when the grant was saved.
    pub granted_at: String,
    /// Channel or surface through which the grant was approved.
    pub granted_via: String,
    /// SHA-256 hex digest of the script at grant time. Empty for legacy grants.
    pub content_hash: String,
}

/// The plain values of a grant: skill, capability, time, channel, hash.
pub type GrantView = (Seq<char>, Seq<char>, Seq<char>, Seq<char>, Seq<char>);

impl View for CapabilityGrantInfo {
    type V = GrantView;

    open spec fn view(&self) -> GrantView {
        (self.skill_name@, self.capability@, self.granted_at@, self.granted_via@, self.content_hash@)
    }
}

/// The grant entries keyed by (skill, capability), a later record for a
/// key overriding an earlier one.
pub open spec fn grants_map(rs: Seq<GrantView>) -> Map<
    (Seq<char>, Seq<char>),
    (Seq<char>, Seq<char>, Seq<char>),
>
    decreases rs.len(),
{
    if rs.len() == 0 {
        Map::empty()
    } else {
        let r = rs.last();
        grants_map(rs.drop_last()).insert((r.0, r.1), (r.2, r.3, r.4))
    }
}

/// The records whose key is not (skill, capability), in order.
pub open spec fn without_key(rs: Seq<GrantView>, skill: Seq<char>, cap: Seq<char>) -> Seq<GrantView>
    decreases rs.len(),
{
    if rs.len() == 0 {
        Seq::empty()
    } else {
        let rest = without_key(rs.drop_last(), skill, cap);
        if rs.last().0 == skill && rs.last().1 == cap {
            rest
        } else {
            rest.push(rs.last())
        }
    }
}

/// No two records share a key.
pub open spec fn keys_unique(rs: Seq<GrantView>) -> bool {
    forall|i: int, j: int|
        0 <= i < j < rs.len() ==> !(#[trigger] rs[i].0 == #[trigger] rs[j].0 && rs[i].1 == rs[j].1)
}

proof fn lemma_without_key_map(rs: Seq<GrantView>, skill: Seq<char>, cap: Seq<char>)
    ensures
        grants_map(without_key(rs, skill, cap)) == grants_map(rs).remove((skill, cap)),
    decreases rs.len(),
{
    if rs.len() > 0 {
        lemma_without_key_map(rs.drop_last(), skill, cap);
        let r = rs.last();
        if r.0 == skill && r.1 == cap {
            assert(grants_map(rs).remove((skill, cap)) =~= grants_map(rs.drop_last()).remove(
                (skill, cap),
            ));
        } else {
            let w = without_key(rs, skill, cap);
            assert(w.drop_last() =~= without_key(rs.drop_last(), skill, cap));
            assert(w.last() == r);
            assert(grants_map(w) =~= grants_map(rs).remove((skill, cap)));
        }
    } else {
        assert(grants_map(rs).remove((skill, cap)) =~= Map::empty());
    }
}

proof fn lemma_without_key_props(rs: Seq<GrantView>, skill: Seq<char>, cap: Seq<char>)
    ensures
        forall|i: int|
            0 <= i < without_key(rs, skill, cap).len() ==> !(#[trigger] without_key(
                rs,
                skill,
                cap,
            )[i].0 == skill && without_key(rs, skill, cap)[i].1 == cap),
        forall|i: int|
            0 <= i < without_key(rs, skill, cap).len() ==> rs.contains(
                #[trigger] without_key(rs, skill, cap)[i],
            ),
        keys_unique(rs) ==> keys_unique(without_key(rs, skill, cap)),
    decreases rs.len(),
{
    if rs.len() > 0 {
        lemma_without_key_props(rs.drop_last(), skill, cap);
        let w = without_key(rs, skill, cap);
        let w0 = without_key(rs.drop_last(), skill, cap);
        assert forall|i: int| 0 <= i < w.len() implies rs.contains(#[trigger] w[i]) by {
            if i < w0.len() {
                assert(w[i] == w0[i]);
                let k = choose|k: int| 0 <= k < rs.drop_last().len() && rs.drop_last()[k] == w0[i];
                assert(rs[k] == w0[i]);
            } else {
                assert(w[i] == rs[rs.len() - 1]);
            }
        }
        if keys_unique(rs) {
            assert(keys_unique(rs.drop_last())) by {
                assert forall|i: int, j: int|
                    0 <= i < j < rs.drop_last().len() implies !(#[trigger] rs.drop_last()[i].0
                    == #[trigger] rs.drop_last()[j].0 && rs.drop_last()[i].1
                    == rs.drop_last()[j].1) by {
                    assert(rs.drop_last()[i] == rs[i] && rs.drop_last()[j] == rs[j]);
                }
            }
            assert forall|i: int, j: int| 0 <= i < j < w.len() implies !(#[trigger] w[i].0
                == #[trigger] w[j].0 && w[i].1 == w[j].1) by {
                if j < w0.len() {
                    assert(w[i] == w0[i] && w[j] == w0[j]);
                } else {
                    assert(w[j] == rs.last());
                    assert(w[i] == w0[i]);
                    let k = choose|k: int| 0 <= k < rs.drop_last().len() && rs.drop_last()[k] == w0[i];
                    assert(rs[k] == w[i]);
                    assert(k < rs.len() - 1);
                }
            }
        }
    }
}

proof fn lemma_lookup_last(rs: Seq<GrantView>, skill: Seq<char>, cap: Seq<char>, i: int)
    requires
        keys_unique(rs),
        0 <= i < rs.len(),
        rs[i].0 == skill && rs[i].1 == cap,
    ensures
        grants_map(rs).contains_key((skill, cap)),
        grants_map(rs)[(skill, cap)] == (rs[i].2, rs[i].3, rs[i].4),
    decreases rs.len(),
{
    if i < rs.len() - 1 {
        assert(keys_unique(rs.drop_last())) by {
            assert forall|a: int, b: int|
                0 <= a < b < rs.drop_last().len() implies !(#[trigger] rs.drop_last()[a].0
                == #[trigger] rs.drop_last()[b].0 && rs.drop_last()[a].1 == rs.drop_last()[b].1) by {
                assert(rs.drop_last()[a] == rs[a] && rs.drop_last()[b] == rs[b]);
            }
        }
        assert(rs.drop_last()[i] == rs[i]);
        lemma_lookup_last(rs.drop_last(), skill, cap, i);
        assert(!(rs[i].0 == rs[rs.len() - 1].0 && rs[i].1 == rs[rs.len() - 1].1));
    }
}

proof fn lemma_absent(rs: Seq<GrantView>, skill: Seq<char>, cap: Seq<char>)
    requires
        forall|i: int| 0 <= i < rs.len() ==> !(#[trigger] rs[i].0 == skill && rs[i].1 == cap),
    ensures
        !grants_map(rs).contains_key((skill, cap)),
    decreases rs.len(),
{
    if rs.len() > 0 {
        assert forall|i: int| 0 <= i < rs.drop_last().len() implies !(
        #[trigger] rs.drop_last()[i].0 == skill && rs.drop_last()[i].1 == cap) by {
            assert(rs.drop_last()[i] == rs[i]);
        }
        lemma_absent(rs.drop_last(), skill, cap);
        assert(!(rs[rs.len() - 1].0 == skill && rs[rs.len() - 1].1 == cap));
    }
}

/// The persisted capability grants, one entry per (skill, capability).
pub struct GrantTable {
    records: Vec<CapabilityGrantInfo>,
}

impl GrantTable {
    /// The grants as records, in the order they were last granted.
    pub closed spec fn records(&self) -> Seq<GrantView> {
        self.records@.map_values(|g: CapabilityGrantInfo| g@)
    }

    /// The grants keyed by (skill, capability): when, through which
    /// channel and for which script hash each was granted.
    pub open spec fn entries(&self) -> Map<(Seq<char>, Seq<char>), (Seq<char>, Seq<char>, Seq<char>)> {
        grants_map(self.records())
    }

    /// No (skill, capability) has two records.
    pub closed spec fn wf(&self) -> bool {
        keys_unique(self.records())
    }

    /// A table without grants.
    pub fn new() -> (t: GrantTable)
        ensures
            t.wf(),
            t.entries() == Map::<(Seq<char>, Seq<char>), (Seq<char>, Seq<char>, Seq<char>)>::empty(),
            t.records().len() == 0,
    {
        let t = GrantTable { records: Vec::new() };
        assert(t.records() =~= Seq::<GrantView>::empty());
        t
    }

    fn find(&self, skill_name: &str, capability: &str) -> (r: Option<usize>)
        requires
            self.wf(),
        ensures
            match r {
                Some(i) => i < self.records().len() && self.records()[i as int].0 == skill_name@
                    && self.records()[i as int].1 == capability@,
                None => forall|i: int|
                    0 <= i < self.records().len() ==> !(#[trigger] self.records()[i].0
                        == skill_name@ && self.records()[i].1 == capability@),
            },
    {
        let mut i: usize = 0;
        while i < self.records.len()
            invariant
                i <= self.records@.len(),
                forall|j: int|
                    0 <= j < i ==> !(#[trigger] self.records()[j].0 == skill_name@
                        && self.records()[j].1 == capability@),
            decreases self.records.len() - i,
        {
            let g = &self.records[i];
            assert(self.records()[i as int] == g@);
            if str_eq(g.skill_name.as_str(), skill_name) && str_eq(g.capability.as_str(), capability) {
                return Some(i);
            }
            i = i + 1;
        }
        None
    }

    /// Returns `true` if the skill has a grant for `capability`.
    pub fn is_capability_granted(&self, skill_name: &str, capability: &str) -> (r: bool)
        requires
            self.wf(),
        ensures
            r == self.entries().contains_key((skill_name@, capability@)),
    {
        match self.find(skill_name, capability) {
            Some(i) => {
                proof {
                    lemma_lookup_last(self.records(), skill_name@, capability@, i as int);
                }
                true
            },
            None => {
                proof {
                    lemma_absent(self.records(), skill_name@, capability@);
                }
                false
            },
        }
    }

    /// Returns `true` if the grant exists and its stored script hash is
    /// the non-empty `current_hash`. Legacy grants (empty hash) need
    /// re-approval.
    pub fn is_grant_valid_for_hash(&self, skill_name: &str, capability: &str, current_hash: &str) -> (r: bool)
        requires
            self.wf(),
        ensures
            r == (self.entries().contains_key((skill_name@, capability@)) && self.entries()[(
                skill_name@,
                capability@,
            )].2.len() > 0 && self.entries()[(skill_name@, capability@)].2 == current_hash@),
    {
        match self.find(skill_name, capability) {
            Some(i) => {
                proof {
                    lemma_lookup_last(self.records(), skill_name@, capability@, i as int);
                }
                let h = &self.records[i].content_hash;
                assert(self.records()[i as int] == self.records@[i as int]@);
                !h.as_str().is_empty() && str_eq(h.as_str(), current_hash)
            },
            None => {
                proof {
                    lemma_absent(self.records(), skill_name@, capability@);
                }
                false
            },
        }
    }

    fn remove_key(&mut self, skill_name: &str, capability: &str)
        requires
            old(self).wf(),
        ensures
            final(self).wf(),
            final(self).records() == without_key(old(self).records(), skill_name@, capability@),
    {
        let ghost rs = self.records();
        let mut kept: Vec<CapabilityGrantInfo> = Vec::new();
        let mut old_records: Vec<CapabilityGrantInfo> = Vec::new();
        std::mem::swap(&mut old_records, &mut self.records);
        assert(old_records@.map_values(|g: CapabilityGrantInfo| g@) == rs);
        let mut i: usize = 0;
        while i < old_records.len()
            invariant
                i <= old_records@.len(),
                rs == old_records@.map_values(|g: CapabilityGrantInfo| g@),
                kept@.map_values(|g: CapabilityGrantInfo| g@) == without_key(
                    rs.take(i as int),
                    skill_name@,
                    capability@,
                ),
            decreases old_records.len() - i,
        {
            let g = &old_records[i];
            proof {
                assert(rs.take(i + 1).drop_last() =~= rs.take(i as int));
                assert(rs.take(i + 1).last() == g@);
            }
            if !(str_eq(g.skill_name.as_str(), skill_name) && str_eq(g.capability.as_str(), capability)) {
                let ghost before = kept@;
                let copy = CapabilityGrantInfo {
                    skill_name: g.skill_name.clone(),
                    capability: g.capability.clone(),
                    granted_at: g.granted_at.clone(),
                    granted_via: g.granted_via.clone(),
                    content_hash: g.content_hash.clone(),
                };
                kept.push(copy);
                assert(kept@.map_values(|g: CapabilityGrantInfo| g@) =~= before.map_values(
                    |g: CapabilityGrantInfo| g@,
                ).push(g@));
            }
            i = i + 1;
        }
        assert(rs.take(old_records.len() as int) =~= rs);
        self.records = kept;
        proof {
            lemma_without_key_props(rs, skill_name@, capability@);
        }
    }

    /// Saves a grant for `skill_name`/`capability`, replacing any earlier
    /// grant for the same pair.
    pub fn save_grant(
        &mut self,
        skill_name: &str,
        capability: &str,
        granted_at: &str,
        granted_via: &str,
        content_hash: &str,
    )
        requires
            old(self).wf(),
        ensures
            final(self).wf(),
            final(self).entries() == old(self).entries().insert(
                (skill_name@, capability@),
                (granted_at@, granted_via@, content_hash@),
            ),
    {
        let ghost rs = self.records();
        self.remove_key(skill_name, capability);
        let ghost mid = self.records();
        let g = CapabilityGrantInfo {
            skill_name: owned(skill_name),
            capability: owned(capability),
            granted_at: owned(granted_at),
            granted_via: owned(granted_via),
            content_hash: owned(content_hash),
        };
        self.records.push(g);
        proof {
            assert(self.records() =~= mid.push(g@));
            lemma_without_key_map(rs, skill_name@, capability@);
            lemma_without_key_props(rs, skill_name@, capability@);
            assert(self.records().drop_last() =~= mid);
            assert(grants_map(self.records()) =~= grants_map(rs).insert(
                (skill_name@, capability@),
                (granted_at@, granted_via@, content_hash@),
            ));
            assert forall|i: int, j: int|
                0 <= i < j < self.records().len() implies !(#[trigger] self.records()[i].0
                == #[trigger] self.records()[j].0 && self.records()[i].1
                == self.records()[j].1) by {
                if j < mid.len() {
                    assert(self.records()[i] == mid[i] && self.records()[j] == mid[j]);
                } else {
                    assert(self.records()[i] == mid[i]);
                }
            }
        }
    }

    /// Revokes a single grant; other grants are untouched.
    pub fn revoke_capability_grant(&mut self, skill_name: &str, capability: &str)
        requires
            old(self).wf(),
        ensures
            final(self).wf(),
            final(self).entries() == old(self).entries().remove((skill_name@, capability@)),
    {
        let ghost rs = self.records();
        self.remove_key(skill_name, capability);
        proof {
            lemma_without_key_map(rs, skill_name@, capability@);
        }
    }

    /// Lists all grants.
    pub fn list_capability_grants(&self) -> (r: Vec<CapabilityGrantInfo>)
        ensures
            r@.map_values(|g: CapabilityGrantInfo| g@) == self.records(),
    {
        let mut out: Vec<CapabilityGrantInfo> = Vec::new();
        let mut i: usize = 0;
        while i < self.records.len()
            invariant
                i <= self.records@.len(),
                out@.map_values(|g: CapabilityGrantInfo| g@) == self.records().take(i as int),
            decreases self.records.len() - i,
        {
            let g = &self.records[i];
            let ghost before = out@;
            out.push(
                CapabilityGrantInfo {
                    skill_name: g.skill_name.clone(),
                    capability: g.capability.clone(),
                    granted_at: g.granted_at.clone(),
                    granted_via: g.granted_via.clone(),
                    content_hash: g.content_hash.clone(),
                },
            );
            assert(out@.map_values(|g: CapabilityGrantInfo| g@) =~= before.map_values(
                |g: CapabilityGrantInfo| g@,
            ).push(g@));
            assert(self.records().take(i + 1) =~= self.records().take(i as int).push(
                self.records()[i as int],
            ));
            i = i + 1;
        }
        assert(self.records().take(self.records.len() as int) =~= self.records());
        out
    }
}

/// A saved grant is found afterwards, with what was saved; revoking it
/// removes it and leaves every other grant as it was.
pub proof fn lemma_grant_then_revoke(
    before: Map<(Seq<char>, Seq<char>), (Seq<char>, Seq<char>, Seq<char>)>,
    key: (Seq<char>, Seq<char>),
    entry: (Seq<char>, Seq<char>, Seq<char>),
    other: (Seq<char>, Seq<char>),
)
    requires
        other != key,
    ensures
        before.insert(key, entry).contains_key(key),
        before.insert(key, entry)[key] == entry,
        !before.insert(key, entry).remove(key).contains_key(key),
        before.insert(key, entry).remove(key).contains_key(other) == before.contains_key(other),
        before.contains_key(other) ==> before.insert(key, entry).remove(key)[other] == before[other],
{
}

// ── Pending approvals ────────────────────────────────────────────────

/// Information about a pending capability approval request.
#[derive(Debug, Clone)]
pub struct PendingApprovalInfo {
    /// Unique identifier for this request (e.g. `"cap-1"`).
    pub request_id: String,
    /// Name of the skill requesting the capability.
    pub skill_name: String,
    /// The capability being requested.
    pub capability: String,
    /// Channel or surface that triggered the request.
    pub triggered_via: String,
    /// RFC 3339 timestamp when the request was created.
    pub requested_at: String,
}

/// The plain values of a pending request: id, skill, capability,
/// channel, time.
pub type PendingView = (Seq<char>, Seq<char>, Seq<char>, Seq<char>, Seq<char>);

impl View for PendingApprovalInfo {
    type V = PendingView;

    open spec fn view(&self) -> PendingView {
        (self.request_id@, self.skill_name@, self.capability@, self.triggered_via@, self.requested_at@)
    }
}

/// The id of the `n`th request: `"cap-N"`.
pub open spec fn request_id_for(n: u64) -> Seq<char> {
    "cap-"@ + decimal(n as nat)
}

/// The detail of the error for an unknown request id.
pub open spec fn unknown_request_detail(id: Seq<char>) -> Seq<char> {
    "no pending approval with id '"@ + id + "'"@
}

/// Every request has the id of a number from 1 up to (not including) `next`.
pub open spec fn ids_below(p: Seq<PendingView>, next: u64) -> bool {
    forall|i: int|
        0 <= i < p.len() ==> exists|n: u64| 1 <= n < next && (#[trigger] p[i]).0 == request_id_for(n)
}

/// No two requests share an id.
pub open spec fn ids_distinct(p: Seq<PendingView>) -> bool {
    forall|i: int, j: int| 0 <= i < j < p.len() ==> (#[trigger] p[i]).0 != (#[trigger] p[j]).0
}

/// Pending capability approval requests, each with a unique id.
pub struct PendingApprovals {
    next_id: u64,
    entries: Vec<PendingApprovalInfo>,
}

impl PendingApprovals {
    /// The pending requests, oldest first.
    pub closed spec fn pending(&self) -> Seq<PendingView> {
        self.entries@.map_values(|p: PendingApprovalInfo| p@)
    }

    /// The number the next request gets.
    pub closed spec fn next_number(&self) -> u64 {
        self.next_id
    }

    /// Every pending request has the id of a number below the next one,
    /// and no two share an id.
    pub closed spec fn wf(&self) -> bool {
        &&& self.next_id >= 1
        &&& ids_below(self.pending(), self.next_id)
        &&& ids_distinct(self.pending())
    }

    /// No requests yet; the first gets `"cap-1"`.
    pub fn new() -> (p: PendingApprovals)
        ensures
            p.wf(),
            p.pending().len() == 0,
            p.next_number() == 1,
    {
        let p = PendingApprovals { next_id: 1, entries: Vec::new() };
        assert(p.pending() =~= Seq::<PendingView>::empty());
        p
    }

    /// Whether another request can be numbered: request numbers are not
    /// reused.
    pub fn can_request(&self) -> (r: bool)
        ensures
            r == (self.next_number() < u64::MAX),
    {
        self.next_id < u64::MAX
    }

    /// Creates a pending approval request and returns its id.
    pub fn request_capability_approval(
        &mut self,
        skill_name: &str,
        capability: &str,
        triggered_via: &str,
        requested_at: &str,
    ) -> (id: String)
        requires
            old(self).wf(),
            old(self).next_number() < u64::MAX,
        ensures
            final(self).wf(),
            id@ == request_id_for(old(self).next_number()),
            final(self).next_number() == old(self).next_number() + 1,
            final(self).pending() == old(self).pending().push(
                (id@, skill_name@, capability@, triggered_via@, requested_at@),
            ),
    {
        let n = self.next_id;
        let id = concat2("cap-", decimal_string(n).as_str());
        let ghost before = self.pending();
        proof {
            assert(old(self).wf());
            assert(before == old(self).pending());
            assert(n == old(self).next_id);
            assert forall|i: int| 0 <= i < before.len() implies (#[trigger] before[i]).0
                != request_id_for(n) by {
                assert(old(self).pending()[i] == before[i]);
                let m = choose|m: u64| 1 <= m < n && before[i].0 == request_id_for(m);
                lemma_request_id_injective(m, n);
            }
        }
        self.entries.push(
            PendingApprovalInfo {
                request_id: id.clone(),
                skill_name: owned(skill_name),
                capability: owned(capability),
                triggered_via: owned(triggered_via),
                requested_at: owned(requested_at),
            },
        );
        self.next_id = n + 1;
        proof {
            assert(self.pending() =~= before.push(
                (id@, skill_name@, capability@, triggered_via@, requested_at@),
            ));
            lemma_ids_below_push(before, n, (id@, skill_name@, capability@, triggered_via@, requested_at@));
            assert forall|a: int, b: int|
                0 <= a < b < self.pending().len() implies (#[trigger] self.pending()[a]).0 != (
                #[trigger] self.pending()[b]).0 by {
                assert(self.pending()[a] == before[a]);
                if b < before.len() {
                    assert(self.pending()[b] == before[b]);
                    assert(old(self).pending()[a] == before[a]);
                    assert(old(self).pending()[b] == before[b]);
                } else {
                    assert(self.pending()[b].0 == request_id_for(n));
                }
            }
        }
        id
    }

    /// Returns all currently pending requests.
    pub fn get_pending_approvals(&self) -> (r: Vec<PendingApprovalInfo>)
        ensures
            r@.map_values(|p: PendingApprovalInfo| p@) == self.pending(),
    {
        let mut out: Vec<PendingApprovalInfo> = Vec::new();
        let mut i: usize = 0;
        while i < self.entries.len()
            invariant
                i <= self.entries@.len(),
                out@.map_values(|p: PendingApprovalInfo| p@) == self.pending().take(i as int),
            decreases self.entries.len() - i,
        {
            let e = &self.entries[i];
            let ghost before = out@;
            out.push(
                PendingApprovalInfo {
                    request_id: e.request_id.clone(),
                    skill_name: e.skill_name.clone(),
                    capability: e.capability.clone(),
                    triggered_via: e.triggered_via.clone(),
                    requested_at: e.requested_at.clone(),
                },
            );
            assert(out@.map_values(|p: PendingApprovalInfo| p@) =~= before.map_values(
                |p: PendingApprovalInfo| p@,
            ).push(e@));
            assert(self.pending().take(i + 1) =~= self.pending().take(i as int).push(
                self.pending()[i as int],
            ));
            i = i + 1;
        }
        assert(self.pending().take(self.entries.len() as int) =~= self.pending());
        out
    }

    /// Resolves a pending approval request: removes it and returns it, so
    /// that the user's decision can be delivered to the waiting task. An
    /// unknown id is an [`FfiError::InvalidArgument`].
    pub fn resolve_capability_request(&mut self, request_id: &str) -> (r: Result<
        PendingApprovalInfo,
        FfiError,
    >)
        requires
            old(self).wf(),
        ensures
            final(self).wf(),
            final(self).next_number() == old(self).next_number(),
            match r {
                Ok(info) => exists|i: int|
                    0 <= i < old(self).pending().len() && #[trigger] old(self).pending()[i]
                        == info@ && info@.0 == request_id@ && final(self).pending() == old(
                        self,
                    ).pending().remove(i),
                Err(e) => {
                    &&& !(exists|i: int|
                        0 <= i < old(self).pending().len() && #[trigger] old(self).pending()[i].0
                            == request_id@)
                    &&& final(self).pending() == old(self).pending()
                    &&& e matches FfiError::InvalidArgument { detail } && detail@
                        == unknown_request_detail(request_id@)
                },
            },
    {
        let mut i: usize = 0;
        while i < self.entries.len()
            invariant
                i <= self.entries@.len(),
                self.wf(),
                self.pending() == old(self).pending(),
                self.next_id == old(self).next_id,
                forall|j: int| 0 <= j < i ==> #[trigger] self.pending()[j].0 != request_id@,
            decreases self.entries.len() - i,
        {
            assert(self.pending()[i as int] == self.entries@[i as int]@);
            if str_eq(self.entries[i].request_id.as_str(), request_id) {
                let ghost before = self.pending();
                let info = self.entries.remove(i);
                proof {
                    assert(before[i as int] == info@);
                    assert(self.pending() =~= before.remove(i as int));
                    assert forall|a: int, b: int|
                        0 <= a < b < self.pending().len() implies (#[trigger] self.pending()[a]).0
                        != (#[trigger] self.pending()[b]).0 by {
                        let a2 = if a < i { a } else { a + 1 };
                        let b2 = if b < i { b } else { b + 1 };
                        assert(self.pending()[a] == before[a2] && self.pending()[b] == before[b2]);
                    }
                    assert forall|k: int| 0 <= k < self.pending().len() implies exists|n: u64|
                        1 <= n < self.next_id && (#[trigger] self.pending()[k]).0 == request_id_for(
                            n,
                        ) by {
                        let k2 = if k < i { k } else { k + 1 };
                        assert(self.pending()[k] == before[k2]);
                    }
                }
                return Ok(info);
            }
            i = i + 1;
        }
        let mut detail = owned("no pending approval with id '");
        push_str(&mut detail, request_id);
        push_str(&mut detail, "'");
        Err(FfiError::InvalidArgument { detail })
    }
}

proof fn lemma_digit_char_injective(a: nat, b: nat)
    requires
        a < 10,
        b < 10,
        digit_char(a) == digit_char(b),
    ensures
        a == b,
{
    assert(digit_char(a) as u32 == a + 48);
    assert(digit_char(b) as u32 == b + 48);
}

proof fn lemma_decimal_len(n: nat)
    ensures
        decimal(n).len() >= 1,
        n >= 10 ==> decimal(n).len() >= 2,
    decreases n,
{
    if n >= 10 {
        lemma_decimal_len(n / 10);
    }
}

proof fn lemma_decimal_injective(a: nat, b: nat)
    requires
        decimal(a) == decimal(b),
    ensures
        a == b,
    decreases a,
{
    lemma_decimal_len(a);
    lemma_decimal_len(b);
    if a < 10 && b < 10 {
        assert(decimal(a)[0] == digit_char(a));
        assert(decimal(b)[0] == digit_char(b));
        lemma_digit_char_injective(a, b);
    } else if a >= 10 && b >= 10 {
        assert(decimal(a).drop_last() =~= decimal(a / 10));
        assert(decimal(b).drop_last() =~= decimal(b / 10));
        lemma_decimal_injective(a / 10, b / 10);
        assert(decimal(a).last() == digit_char(a % 10));
        assert(decimal(b).last() == digit_char(b % 10));
        lemma_digit_char_injective(a % 10, b % 10);
    }
}

proof fn lemma_ids_below_push(p: Seq<PendingView>, n: u64, x: PendingView)
    requires
        ids_below(p, n),
        x.0 == request_id_for(n),
        1 <= n < u64::MAX,
    ensures
        ids_below(p.push(x), (n + 1) as u64),
{
    let q = p.push(x);
    assert forall|i: int| 0 <= i < q.len() implies exists|m: u64|
        1 <= m < (n + 1) as u64 && (#[trigger] q[i]).0 == request_id_for(m) by {
        if i < p.len() {
            assert(q[i] == p[i]);
            let m = choose|m: u64| 1 <= m < n && (p[i]).0 == request_id_for(m);
            assert(1 <= m < (n + 1) as u64 && q[i].0 == request_id_for(m));
        } else {
            assert(q[i] == x);
            assert(1 <= n < (n + 1) as u64 && q[i].0 == request_id_for(n));
        }
    }
}

proof fn lemma_request_id_injective(m: u64, n: u64)
    requires
        m != n,
    ensures
        request_id_for(m) != request_id_for(n),
{
    reveal_strlit("cap-");
    if request_id_for(m) == request_id_for(n) {
        assert(decimal(m as nat) =~= request_id_for(m).skip(4));
        assert(decimal(n as nat) =~= request_id_for(n).skip(4));
        lemma_decimal_injective(m as nat, n as nat);
    }
}

} // verus!

//! The argument rules of the auth-profile operations: which data
//! directories a standalone store may live in, what an OAuth profile is
//! built from, how a profile is named, and how metadata updates merge.
//!
//! Loading, encrypting and persisting profiles is the store's work; this
//! module decides what is handed to it.

use crate::error::FfiError;
use crate::scripting::workspace::parent_component_at;
use crate::strmap::{entries_map, entries_view, keys_distinct, lemma_entries_map_keys, StringMap};
use crate::text::{chars_of, owned, str_eq, string_of, trim, trim_chars};
use vstd::prelude::*;

verus! {

// ── Data directory ───────────────────────────────────────────────────

/// Why a standalone data directory is refused, if it is: it must be a
/// non-empty absolute path without `..` components, once trimmed.
pub open spec fn data_dir_refusal(data_dir: Seq<char>) -> Option<Seq<char>> {
    let t = trim(data_dir);
    if t.len() == 0 {
        Some("data_dir must not be empty"@)
    } else if t[0] != '/' {
        Some("data_dir must be an absolute path"@)
    } else if exists|i: int| parent_component_at(t, i) {
        Some("data_dir must not contain '..' segments"@)
    } else {
        None
    }
}

/// Checks a standalone data directory and returns it trimmed; the caller
/// then resolves it and checks that it is an existing directory.
pub fn check_standalone_data_dir(data_dir: &str) -> (r: Result<String, FfiError>)
    ensures
        match data_dir_refusal(data_dir@) {
            None => r matches Ok(p) && p@ == trim(data_dir@),
            Some(d) => r matches Err(FfiError::InvalidArgument { detail }) && detail@ == d,
        },
{
    let t = trim_chars(chars_of(data_dir).as_slice());
    if t.len() == 0 {
        return Err(FfiError::InvalidArgument { detail: owned("data_dir must not be empty") });
    }
    if t[0] != '/' {
        return Err(FfiError::InvalidArgument { detail: owned("data_dir must be an absolute path") });
    }
    let mut i: usize = 0;
    while i < t.len()
        invariant
            i <= t@.len(),
            t@ == trim(data_dir@),
            t@.len() > 0 && t@[0] == '/',
            forall|j: int| 0 <= j < i ==> !parent_component_at(t@, j),
        decreases t.len() - i,
    {
        if t.len() - i >= 2 && t[i] == '.' && t[i + 1] == '.' && (i == 0 || t[i - 1] == '/') && (t.len()
            - i == 2 || t[i + 2] == '/') {
            assert(parent_component_at(t@, i as int));
            return Err(
                FfiError::InvalidArgument { detail: owned("data_dir must not contain '..' segments") },
            );
        }
        i = i + 1;
    }
    assert(forall|j: int| !parent_component_at(t@, j));
    Ok(string_of(t.as_slice()))
}

// ── Profiles ─────────────────────────────────────────────────────────

/// What an OAuth profile is written from, once its arguments are checked.
#[derive(Debug, Clone)]
pub struct OAuthProfileRequest {
    /// The provider, trimmed.
    pub provider: String,
    /// The profile's name, trimmed.
    pub profile_name: String,
    /// The access token, trimmed.
    pub access_token: String,
    /// The refresh token, when one that is not blank was given.
    pub refresh_token: Option<String>,
    /// The ID token, when one that is not blank was given.
    pub id_token: Option<String>,
    /// Token expiry as epoch milliseconds.
    pub expires_at_ms: Option<i64>,
    /// The token type: always `Bearer`.
    pub token_type: String,
    /// The granted scopes, when not blank.
    pub scope: Option<String>,
}

/// An optional token kept only when it is not blank (it is kept as given,
/// not trimmed).
pub open spec fn non_blank(o: Option<Seq<char>>) -> Option<Seq<char>> {
    match o {
        Some(t) => if trim(t).len() > 0 {
            Some(t)
        } else {
            None
        },
        None => None,
    }
}

/// Why an OAuth profile's arguments are refused, if they are: the
/// provider, the profile name and the access token must not be blank,
/// checked in that order.
pub open spec fn oauth_refusal(provider: Seq<char>, profile_name: Seq<char>, access_token: Seq<char>) -> Option<Seq<char>> {
    if trim(provider).len() == 0 {
        Some("provider must not be empty"@)
    } else if trim(profile_name).len() == 0 {
        Some("profile_name must not be empty"@)
    } else if trim(access_token).len() == 0 {
        Some("access_token must not be empty"@)
    } else {
        None
    }
}

/// Keeps an optional token only when it is not blank.
fn keep_non_blank(o: Option<String>) -> (r: Option<String>)
    ensures
        crate::text::opt_view(r) == non_blank(crate::text::opt_view(o)),
{
    match o {
        Some(t) => {
            let blank = trim_chars(chars_of(t.as_str()).as_slice()).len() == 0;
            if blank {
                None
            } else {
                Some(t)
            }
        },
        None => None,
    }
}

/// Checks the arguments of an OAuth profile and gathers what it is
/// written from: trimmed names and token, the non-blank optional tokens
/// and scopes, and the `Bearer` token type.
pub fn oauth_profile_request(
    provider: &str,
    profile_name: &str,
    access_token: &str,
    refresh_token: Option<String>,
    id_token: Option<String>,
    expires_at_ms: Option<i64>,
    scopes: Option<String>,
) -> (r: Result<OAuthProfileRequest, FfiError>)
    ensures
        match oauth_refusal(provider@, profile_name@, access_token@) {
            Some(d) => r matches Err(FfiError::InvalidArgument { detail }) && detail@ == d,
            None => r matches Ok(q) && q.provider@ == trim(provider@) && q.profile_name@ == trim(
                profile_name@,
            ) && q.access_token@ == trim(access_token@) && crate::text::opt_view(q.refresh_token)
                == non_blank(crate::text::opt_view(refresh_token)) && crate::text::opt_view(q.id_token)
                == non_blank(crate::text::opt_view(id_token)) && q.expires_at_ms == expires_at_ms
                && q.token_type@ == "Bearer"@ && crate::text::opt_view(q.scope) == non_blank(
                crate::text::opt_view(scopes),
            ),
        },
{
    let p = trim_chars(chars_of(provider).as_slice());
    let n = trim_chars(chars_of(profile_name).as_slice());
    let a = trim_chars(chars_of(access_token).as_slice());
    if p.len() == 0 {
        return Err(FfiError::InvalidArgument { detail: owned("provider must not be empty") });
    }
    if n.len() == 0 {
        return Err(FfiError::InvalidArgument { detail: owned("profile_name must not be empty") });
    }
    if a.len() == 0 {
        return Err(FfiError::InvalidArgument { detail: owned("access_token must not be empty") });
    }
    Ok(
        OAuthProfileRequest {
            provider: string_of(p.as_slice()),
            profile_name: string_of(n.as_slice()),
            access_token: string_of(a.as_slice()),
            refresh_token: keep_non_blank(refresh_token),
            id_token: keep_non_blank(id_token),
            expires_at_ms,
            token_type: owned("Bearer"),
            scope: keep_non_blank(scopes),
        },
    )
}

/// Where a profile's account identifier comes from.
#[derive(Debug, Clone, Copy, PartialEq, Eq, Structural)]
pub enum AccountIdSource {
    /// The e-mail address in the ID token (Google providers).
    IdTokenEmail,
    /// The account claim of the access token's JWT (OpenAI providers).
    AccessTokenJwt,
    /// No account identifier is derived.
    NotDerived,
}

/// The account-identifier source for a provider.
pub open spec fn account_source_for(provider: Seq<char>) -> AccountIdSource {
    if provider == "gemini"@ || provider == "google"@ || provider == "vertex"@ {
        AccountIdSource::IdTokenEmail
    } else if provider == "openai"@ || provider == "openai-codex"@ {
        AccountIdSource::AccessTokenJwt
    } else {
        AccountIdSource::NotDerived
    }
}

/// Which token a provider's account identifier is read from.
pub fn account_id_source(provider: &str) -> (r: AccountIdSource)
    ensures
        r == account_source_for(provider@),
{
    if str_eq(provider, "gemini") || str_eq(provider, "google") || str_eq(provider, "vertex") {
        AccountIdSource::IdTokenEmail
    } else if str_eq(provider, "openai") || str_eq(provider, "openai-codex") {
        AccountIdSource::AccessTokenJwt
    } else {
        AccountIdSource::NotDerived
    }
}

/// Checks a provider and profile name that select a stored profile and
/// returns them trimmed; neither may be blank.
pub fn check_profile_ref(provider: &str, profile_name: &str) -> (r: Result<(String, String), FfiError>)
    ensures
        (trim(provider@).len() == 0 || trim(profile_name@).len() == 0) ==> (r matches Err(
            FfiError::InvalidArgument { detail },
        ) && detail@ == "provider and profile_name must not be empty"@),
        (trim(provider@).len() > 0 && trim(profile_name@).len() > 0) ==> (r matches Ok((p, n))
            && p@ == trim(provider@) && n@ == trim(profile_name@)),
{
    let p = trim_chars(chars_of(provider).as_slice());
    let n = trim_chars(chars_of(profile_name).as_slice());
    if p.len() == 0 || n.len() == 0 {
        return Err(
            FfiError::InvalidArgument { detail: owned("provider and profile_name must not be empty") },
        );
    }
    Ok((string_of(p.as_slice()), string_of(n.as_slice())))
}

/// The profile a token lookup selects within its provider: `None` (the
/// default profile) for a blank name or `default`, else the trimmed name.
pub fn token_profile_name(profile_name: &str) -> (r: Option<String>)
    ensures
        crate::text::opt_view(r) == (if trim(profile_name@).len() == 0 || trim(profile_name@)
            == "default"@ {
            None
        } else {
            Some(trim(profile_name@))
        }),
{
    let t = string_of(trim_chars(chars_of(profile_name).as_slice()).as_slice());
    if t.as_str().is_empty() || str_eq(t.as_str(), "default") {
        None
    } else {
        Some(t)
    }
}

/// A single auth profile as the app shows it.
#[derive(Debug, Clone)]
pub struct FfiAuthProfile {
    /// Profile ID in `"provider:profile_name"` format.
    pub id: String,
    /// Provider name.
    pub provider: String,
    /// Human-readable profile display name.
    pub profile_name: String,
    /// Profile kind: `"oauth"` or `"token"` (`"unknown"` when unreadable).
    pub kind: String,
    /// Whether this is the active profile for its provider.
    pub is_active: bool,
    /// Token expiry as epoch milliseconds, if available.
    pub expires_at_ms: Option<i64>,
    /// Account identifier or email derived from the token set, if any.
    pub account_id: Option<String>,
    /// OAuth scopes granted to this profile as a space-delimited string.
    pub scopes: Option<String>,
    /// JSON object containing non-secret profile metadata.
    pub metadata_json: String,
    /// Profile creation time as epoch milliseconds.
    pub created_at_ms: i64,
    /// Last update time as epoch milliseconds.
    pub updated_at_ms: i64,
}

/// Whether a profile is the active one of its provider, given the active
/// profile id of each provider.
pub fn is_active_profile(active_profiles: &StringMap, provider: &str, profile_id: &str) -> (r: bool)
    requires
        active_profiles.wf(),
    ensures
        r == (active_profiles@.contains_key(provider@) && active_profiles@[provider@] == profile_id@),
{
    match active_profiles.get(provider) {
        Some(active) => str_eq(active.as_str(), profile_id),
        None => false,
    }
}

// ── Metadata ─────────────────────────────────────────────────────────

/// A profile's non-secret metadata.
pub type ProfileMetadata = StringMap;

/// The metadata after one update: a blank value removes the key, any
/// other value sets it.
pub open spec fn apply_update(m: Map<Seq<char>, Seq<char>>, key: Seq<char>, value: Seq<char>) -> Map<Seq<char>, Seq<char>> {
    if value.len() == 0 {
        m.remove(key)
    } else {
        m.insert(key, value)
    }
}

/// Applies one metadata update: a blank value removes the key, any other
/// value sets it.
pub fn apply_metadata_update(metadata: &mut ProfileMetadata, key: &str, value: &str)
    requires
        old(metadata).wf(),
    ensures
        final(metadata).wf(),
        final(metadata)@ == apply_update(old(metadata)@, key@, value@),
{
    if value.is_empty() {
        metadata.remove_key(key);
    } else {
        metadata.insert(key, value);
    }
}

/// The updates a metadata object asks for, once keys and values are
/// trimmed (a later key that trims to the same key wins), or `None` when
/// a key is blank.
pub open spec fn normalized_updates(raw: Seq<(Seq<char>, Seq<char>)>) -> Option<Map<Seq<char>, Seq<char>>>
    decreases raw.len(),
{
    if raw.len() == 0 {
        Some(Map::empty())
    } else {
        match normalized_updates(raw.drop_last()) {
            None => None,
            Some(m) => if trim(raw.last().0).len() == 0 {
                None
            } else {
                Some(m.insert(trim(raw.last().0), trim(raw.last().1)))
            },
        }
    }
}

proof fn lemma_blank_key_refuses(raw: Seq<(Seq<char>, Seq<char>)>, i: int)
    requires
        0 <= i <= raw.len(),
        normalized_updates(raw.subrange(0, i)) is None,
    ensures
        normalized_updates(raw) is None,
    decreases raw.len() - i,
{
    if i < raw.len() {
        assert(raw.subrange(0, i + 1).drop_last() =~= raw.subrange(0, i));
        lemma_blank_key_refuses(raw, i + 1);
    } else {
        assert(raw.subrange(0, i) =~= raw);
    }
}

/// Trims the keys and values of a metadata object; a blank key refuses
/// the whole object.
pub fn normalize_metadata(raw: &Vec<(String, String)>) -> (r: Result<ProfileMetadata, FfiError>)
    ensures
        match normalized_updates(entries_view(raw@)) {
            None => r matches Err(FfiError::InvalidArgument { detail }) && detail@
                == "metadata keys must not be blank"@,
            Some(m) => r matches Ok(n) && n.wf() && n@ == m,
        },
{
    let ghost rv = entries_view(raw@);
    let mut out = ProfileMetadata::new();
    let mut i: usize = 0;
    assert(rv.subrange(0, 0) =~= Seq::<(Seq<char>, Seq<char>)>::empty());
    while i < raw.len()
        invariant
            i <= raw@.len(),
            rv == entries_view(raw@),
            out.wf(),
            normalized_updates(rv.subrange(0, i as int)) == Some(out@),
        decreases raw.len() - i,
    {
        let key = trim_chars(chars_of(raw[i].0.as_str()).as_slice());
        let value = trim_chars(chars_of(raw[i].1.as_str()).as_slice());
        assert(rv.subrange(0, i + 1).drop_last() =~= rv.subrange(0, i as int));
        assert(rv.subrange(0, i + 1).last() == rv[i as int]);
        if key.len() == 0 {
            proof {
                lemma_blank_key_refuses(rv, i + 1);
            }
            return Err(FfiError::InvalidArgument { detail: owned("metadata keys must not be blank") });
        }
        let k = string_of(key.as_slice());
        let v = string_of(value.as_slice());
        out.insert(k.as_str(), v.as_str());
        i = i + 1;
    }
    assert(rv.subrange(0, i as int) =~= rv);
    Ok(out)
}

/// Metadata after a set of updates: an updated key takes its new value,
/// or is removed when the new value is blank; other keys are kept.
pub open spec fn merged(m: Map<Seq<char>, Seq<char>>, u: Map<Seq<char>, Seq<char>>) -> Map<Seq<char>, Seq<char>> {
    Map::new(
        |k: Seq<char>|
            if u.contains_key(k) {
                u[k].len() > 0
            } else {
                m.contains_key(k)
            },
        |k: Seq<char>|
            if u.contains_key(k) {
                u[k]
            } else {
                m[k]
            },
    )
}

/// Merges normalised updates into a profile's metadata; see [`merged`].
pub fn merge_metadata(metadata: &mut ProfileMetadata, updates: &ProfileMetadata)
    requires
        old(metadata).wf(),
        updates.wf(),
    ensures
        final(metadata).wf(),
        final(metadata)@ == merged(old(metadata)@, updates@),
{
    let ghost m0 = metadata@;
    let ghost us = entries_view(updates.entries@);
    let mut i: usize = 0;
    assert(merged(m0, entries_map(us.subrange(0, 0))) =~= m0) by {
        assert(us.subrange(0, 0) =~= Seq::<(Seq<char>, Seq<char>)>::empty());
    }
    while i < updates.entries.len()
        invariant
            i <= updates.entries@.len(),
            us == entries_view(updates.entries@),
            keys_distinct(us),
            metadata.wf(),
            metadata@ == merged(m0, entries_map(us.subrange(0, i as int))),
        decreases updates.entries.len() - i,
    {
        let ghost before = metadata@;
        let ghost pre = us.subrange(0, i as int);
        apply_metadata_update(metadata, updates.entries[i].0.as_str(), updates.entries[i].1.as_str());
        proof {
            let k = us[i as int].0;
            let v = us[i as int].1;
            assert(us.subrange(0, i + 1) =~= pre.push((k, v)));
            assert(pre.push((k, v)).drop_last() =~= pre);
            lemma_entries_map_keys(pre, k);
            assert(!entries_map(pre).contains_key(k)) by {
                if entries_map(pre).contains_key(k) {
                    let j = choose|j: int| 0 <= j < pre.len() && #[trigger] pre[j].0 == k;
                    assert(us[j].0 == pre[j].0);
                }
            }
            let u1 = entries_map(pre).insert(k, v);
            assert(entries_map(us.subrange(0, i + 1)) == u1);
            assert(apply_update(before, k, v) =~= merged(m0, u1));
        }
        i = i + 1;
    }
    assert(us.subrange(0, i as int) =~= us);
}

} // verus!

//! The rules of the Discord archive operations: argument checks, which
//! guilds and channels the API listings yield, how a user's avatar URL is
//! built, the search defaults and the sync status of a channel.
//!
//! The HTTP requests, the JSON decoding and the archive database are the
//! caller's; it hands over the fields it read.

use crate::error::FfiError;
use crate::text::{concat2, opt_view, owned, push_str};
use vstd::prelude::*;

verus! {

/// Discord's channel type of a guild text channel.
pub const GUILD_TEXT_CHANNEL: i64 = 0;

/// Number of search results when the caller gives no limit.
pub const DEFAULT_SEARCH_LIMIT: u32 = 50;

/// Checks that a required argument is not empty; the error names it.
pub fn require_non_empty(value: &str, name: &str) -> (r: Result<(), FfiError>)
    ensures
        value@.len() > 0 ==> r is Ok,
        value@.len() == 0 ==> (r matches Err(FfiError::InvalidArgument { detail }) && detail@ == name@
            + " must not be empty"@),
{
    if value.is_empty() {
        Err(FfiError::InvalidArgument { detail: concat2(name, " must not be empty") })
    } else {
        Ok(())
    }
}

/// A guild the bot is a member of.
#[derive(Debug, Clone)]
pub struct FfiDiscordGuild {
    /// The guild's snowflake id.
    pub id: String,
    /// The guild's name.
    pub name: String,
    /// The guild's icon hash.
    pub icon: Option<String>,
}

/// A text channel of a guild.
#[derive(Debug, Clone)]
pub struct FfiDiscordChannel {
    /// The channel's snowflake id.
    pub id: String,
    /// The channel's name.
    pub name: String,
    /// The channel's type.
    pub channel_type: i32,
}

/// A Discord user.
#[derive(Debug, Clone)]
pub struct FfiDiscordUser {
    /// The user's snowflake id.
    pub id: String,
    /// The user's name.
    pub username: String,
    /// The URL of the user's avatar, when they have one.
    pub avatar_url: Option<String>,
}

/// The guild a listing entry yields: entries without an id are skipped; a
/// missing name is empty.
pub fn guild_entry(id: Option<&str>, name: Option<&str>, icon: Option<&str>) -> (r: Option<FfiDiscordGuild>)
    ensures
        match id {
            Some(i) if i@.len() > 0 => r matches Some(g) && g.id@ == i@ && g.name@ == (match name {
                Some(n) => n@,
                None => Seq::empty(),
            }) && opt_view(g.icon) == crate::text::opt_str_view(icon),
            _ => r is None,
        },
{
    let id = match id {
        Some(i) => i,
        None => {
            return None;
        },
    };
    if id.is_empty() {
        return None;
    }
    let name = match name {
        Some(n) => owned(n),
        None => String::new(),
    };
    let icon = match icon {
        Some(i) => Some(owned(i)),
        None => None,
    };
    Some(FfiDiscordGuild { id: owned(id), name, icon })
}

/// The channel a listing entry yields: only guild text channels with an
/// id are kept (a missing type counts as none); a missing name is empty.
pub fn text_channel_entry(channel_type: Option<i64>, id: Option<&str>, name: Option<&str>) -> (r: Option<FfiDiscordChannel>)
    ensures
        match (channel_type, id) {
            (Some(t), Some(i)) if t == GUILD_TEXT_CHANNEL && i@.len() > 0 => r matches Some(c) && c.id@
                == i@ && c.name@ == (match name {
                Some(n) => n@,
                None => Seq::empty(),
            }) && c.channel_type == 0,
            _ => r is None,
        },
{
    match channel_type {
        Some(t) => {
            if t != GUILD_TEXT_CHANNEL {
                return None;
            }
        },
        None => {
            return None;
        },
    }
    let id = match id {
        Some(i) => i,
        None => {
            return None;
        },
    };
    if id.is_empty() {
        return None;
    }
    let name = match name {
        Some(n) => owned(n),
        None => String::new(),
    };
    Some(FfiDiscordChannel { id: owned(id), name, channel_type: 0 })
}

/// The CDN URL of an avatar: animated avatars (hash starting `a_`) are
/// GIFs, others PNGs, at size 256.
pub open spec fn avatar_url_spec(id: Seq<char>, hash: Seq<char>) -> Seq<char> {
    "https://cdn.discordapp.com/avatars/"@ + id + "/"@ + hash + "."@ + (if hash.len() >= 2
        && hash[0] == 'a' && hash[1] == '_' {
        "gif"@
    } else {
        "png"@
    }) + "?size=256"@
}

/// Builds the CDN URL of a user's avatar.
pub fn avatar_url(id: &str, hash: &str) -> (r: String)
    ensures
        r@ == avatar_url_spec(id@, hash@),
{
    let h = crate::text::chars_of(hash);
    let animated = h.len() >= 2 && h[0] == 'a' && h[1] == '_';
    let mut r = concat2("https://cdn.discordapp.com/avatars/", id);
    push_str(&mut r, "/");
    push_str(&mut r, hash);
    push_str(&mut r, ".");
    push_str(&mut r, if animated { "gif" } else { "png" });
    push_str(&mut r, "?size=256");
    r
}

/// The user a lookup yields: missing fields are empty, and the avatar URL
/// is built from the avatar hash when there is one.
pub fn user_entry(id: Option<&str>, username: Option<&str>, avatar: Option<&str>) -> (r: FfiDiscordUser)
    ensures
        r.id@ == (match id {
            Some(i) => i@,
            None => Seq::empty(),
        }),
        r.username@ == (match username {
            Some(u) => u@,
            None => Seq::empty(),
        }),
        opt_view(r.avatar_url) == (match avatar {
            Some(h) => Some(avatar_url_spec(r.id@, h@)),
            None => None,
        }),
{
    let id = match id {
        Some(i) => owned(i),
        None => String::new(),
    };
    let username = match username {
        Some(u) => owned(u),
        None => String::new(),
    };
    let avatar_url = match avatar {
        Some(h) => Some(avatar_url(id.as_str(), h)),
        None => None,
    };
    FfiDiscordUser { id, username, avatar_url }
}

/// The archive-search arguments a history search uses: negative day
/// counts count as zero (then cast to `u32`), and the limit defaults to
/// [`DEFAULT_SEARCH_LIMIT`].
pub fn search_arguments(query: &str, days_back: Option<i64>, limit: Option<u32>) -> (r: Result<(Option<u32>, u32), FfiError>)
    ensures
        query@.len() == 0 ==> (r matches Err(FfiError::InvalidArgument { detail }) && detail@
            == "search query must not be empty"@),
        query@.len() > 0 ==> (r matches Ok((d, l)) && d == (match days_back {
            Some(x) => Some((if x < 0 {
                0
            } else {
                x
            }) as u32),
            None => None,
        }) && l == (match limit {
            Some(n) => n,
            None => DEFAULT_SEARCH_LIMIT,
        })),
{
    if query.is_empty() {
        return Err(FfiError::InvalidArgument { detail: owned("search query must not be empty") });
    }
    let days = match days_back {
        Some(x) => {
            let d: i64 = if x < 0 {
                0
            } else {
                x
            };
            Some(d as u32)
        },
        None => None,
    };
    let l: u32 = match limit {
        Some(n) => n,
        None => DEFAULT_SEARCH_LIMIT,
    };
    Ok((days, l))
}

/// One message found by a history search.
#[derive(Debug, Clone)]
pub struct FfiDiscordSearchResult {
    /// The author's name.
    pub author: String,
    /// The message text.
    pub content: String,
    /// The channel it was posted in.
    pub channel_id: String,
    /// When it was posted (epoch seconds).
    pub timestamp: i64,
}

/// The sync status of an archived channel.
#[derive(Debug, Clone)]
pub struct FfiDiscordSyncStatus {
    /// The channel's id.
    pub channel_id: String,
    /// When the channel was last synced (epoch seconds).
    pub last_sync: Option<i64>,
    /// Whether the backfill has finished.
    pub backfill_done: bool,
    /// How many messages are archived.
    pub message_count: i64,
}

/// A channel's sync status: its recorded sync state when there is one,
/// else never synced and not backfilled; with the archived message count.
pub fn sync_status(channel_id: String, state: Option<FfiDiscordSyncStatus>, message_count: i64) -> (r: FfiDiscordSyncStatus)
    ensures
        r.message_count == message_count,
        match state {
            Some(s) => r.channel_id == s.channel_id && r.last_sync == s.last_sync && r.backfill_done
                == s.backfill_done,
            None => r.channel_id == channel_id && r.last_sync is None && !r.backfill_done,
        },
{
    match state {
        Some(s) => FfiDiscordSyncStatus {
            channel_id: s.channel_id,
            last_sync: s.last_sync,
            backfill_done: s.backfill_done,
            message_count,
        },
        None => FfiDiscordSyncStatus { channel_id, last_sync: None, backfill_done: false, message_count },
    }
}

/// The backfill depth configured for a channel, from the archive's
/// channel configurations (`(channel id, depth)` pairs; the first match
/// counts), or the error of a channel that is not archived.
pub fn configured_backfill_depth(configs: &Vec<(String, String)>, channel_id: &str) -> (r: Result<String, FfiError>)
    ensures
        match r {
            Ok(d) => exists|i: int|
                0 <= i < configs@.len() && #[trigger] configs@[i].0@ == channel_id@ && configs@[i].1@ == d@
                    && forall|j: int| 0 <= j < i ==> configs@[j].0@ != channel_id@,
            Err(e) => {
                &&& forall|i: int| 0 <= i < configs@.len() ==> #[trigger] configs@[i].0@ != channel_id@
                &&& e matches FfiError::ConfigError { detail } && detail@ == "channel "@ + channel_id@
                    + " is not configured for archiving"@
            },
        },
{
    let mut i: usize = 0;
    while i < configs.len()
        invariant
            i <= configs@.len(),
            forall|j: int| 0 <= j < i ==> configs@[j].0@ != channel_id@,
        decreases configs.len() - i,
    {
        if crate::text::str_eq(configs[i].0.as_str(), channel_id) {
            let d = configs[i].1.clone();
            assert(configs@[i as int].0@ == channel_id@);
            return Ok(d);
        }
        i = i + 1;
    }
    let mut detail = concat2("channel ", channel_id);
    push_str(&mut detail, " is not configured for archiving");
    Err(FfiError::ConfigError { detail })
}

} // verus!

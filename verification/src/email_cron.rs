//! Email-check cron jobs.
//!
//! Each configured check time (`HH:MM`) becomes a daily cron job whose
//! command carries an `[email_check_scheduled]` marker, so that these jobs
//! can be told apart from user-created cron entries and replaced. The
//! library decides which jobs are email-check jobs and what job each check
//! time becomes; the session layer lists, removes and adds the jobs.

use crate::error::FfiError;
use crate::text::{chars_of, concat2, contains_chars, contains_seq, decimal, decimal_string, owned, push_str};
use vstd::prelude::*;

verus! {

/// Marker embedded in the cron command string to distinguish email-check
/// jobs from user-created ones.
pub const EMAIL_CRON_MARKER: &'static str = "[email_check_scheduled]";

/// Whether a cron job's command marks it as an email-check job.
pub fn is_email_cron_command(command: &str) -> (r: bool)
    ensures
        r == contains_seq(command@, EMAIL_CRON_MARKER@),
{
    contains_chars(&chars_of(command), &chars_of(EMAIL_CRON_MARKER))
}

// ── Unsigned decimal parsing ─────────────────────────────────────────

/// Every character is an ASCII digit.
pub open spec fn all_digits(s: Seq<char>) -> bool {
    forall|i: int| 0 <= i < s.len() ==> '0' <= #[trigger] s[i] <= '9'
}

/// The number the ASCII digits spell.
pub open spec fn digits_value(s: Seq<char>) -> int
    decreases s.len(),
{
    if s.len() == 0 {
        0
    } else {
        digits_value(s.drop_last()) * 10 + (s.last() as int - '0' as int)
    }
}

/// What `u8::from_str` accepts: an optional `+` followed by one or more
/// ASCII digits whose value is at most 255.
pub open spec fn parse_u8(s: Seq<char>) -> Option<u8> {
    let d = if s.len() > 0 && s[0] == '+' {
        s.drop_first()
    } else {
        s
    };
    if d.len() > 0 && all_digits(d) && digits_value(d) <= 255 {
        Some(digits_value(d) as u8)
    } else {
        None
    }
}

proof fn lemma_digits_value_nonneg(s: Seq<char>)
    requires
        all_digits(s),
    ensures
        digits_value(s) >= 0,
    decreases s.len(),
{
    if s.len() > 0 {
        assert(all_digits(s.drop_last())) by {
            assert forall|i: int| 0 <= i < s.drop_last().len() implies '0' <= #[trigger] s.drop_last()[i] <= '9' by {
                assert(s.drop_last()[i] == s[i]);
            }
        }
        lemma_digits_value_nonneg(s.drop_last());
        assert('0' <= s[s.len() - 1] <= '9');
    }
}

/// Parses a decimal `u8` the way `u8::from_str` does.
pub fn parse_u8_chars(s: &[char]) -> (r: Option<u8>)
    ensures
        r == parse_u8(s@),
{
    let start: usize = if s.len() > 0 && s[0] == '+' { 1 } else { 0 };
    let ghost d = if s@.len() > 0 && s@[0] == '+' {
        s@.drop_first()
    } else {
        s@
    };
    assert(d =~= s@.subrange(start as int, s@.len() as int));
    if start >= s.len() {
        assert(d.len() == 0);
        return None;
    }
    let mut value: u32 = 0;
    let mut i: usize = start;
    while i < s.len()
        invariant
            start <= i <= s.len(),
            start < s.len(),
            d == s@.subrange(start as int, s@.len() as int),
            d == (if s@.len() > 0 && s@[0] == '+' {
                s@.drop_first()
            } else {
                s@
            }),
            all_digits(s@.subrange(start as int, i as int)),
            value == (if digits_value(s@.subrange(start as int, i as int)) < 256 {
                digits_value(s@.subrange(start as int, i as int))
            } else {
                256
            }),
        decreases s.len() - i,
    {
        let c = s[i];
        let ghost prefix = s@.subrange(start as int, i as int);
        let ghost next = s@.subrange(start as int, i + 1);
        assert(next.drop_last() =~= prefix);
        assert(next.last() == c);
        if !('0' <= c && c <= '9') {
            assert(!all_digits(d)) by {
                assert(d[i - start] == c);
            }
            return None;
        }
        proof {
            lemma_digits_value_nonneg(prefix);
            assert(all_digits(next)) by {
                assert forall|k: int| 0 <= k < next.len() implies '0' <= #[trigger] next[k] <= '9' by {
                    if k < prefix.len() {
                        assert(next[k] == prefix[k]);
                    }
                }
            }
        }
        let digit: u32 = (c as u32) - ('0' as u32);
        value = value * 10 + digit;
        if value > 256 {
            value = 256;
        }
        i = i + 1;
    }
    assert(s@.subrange(start as int, s.len() as int) == d);
    if value <= 255 {
        Some(value as u8)
    } else {
        None
    }
}

// ── HH:MM ────────────────────────────────────────────────────────────

/// `t` holds exactly one `':'`, at index `k`.
pub open spec fn single_colon_at(t: Seq<char>, k: int) -> bool {
    &&& 0 <= k < t.len()
    &&& t[k] == ':'
    &&& forall|j: int| 0 <= j < t.len() && j != k ==> #[trigger] t[j] != ':'
}

/// The result of parsing `"HH:MM"`: the hour and minute when the text
/// splits at its only colon into two `u8` numbers; otherwise the error
/// detail, checked in that order (the shape, the hour, the minute).
pub open spec fn hh_mm_result(t: Seq<char>) -> Result<(u8, u8), Seq<char>> {
    if !(exists|k: int| single_colon_at(t, k)) {
        Err("expected HH:MM, got '"@ + t + "'"@)
    } else {
        let k = choose|k: int| single_colon_at(t, k);
        match parse_u8(t.take(k)) {
            None => Err("invalid hour in '"@ + t + "'"@),
            Some(h) => match parse_u8(t.skip(k + 1)) {
                None => Err("invalid minute in '"@ + t + "'"@),
                Some(m) => Ok((h, m)),
            },
        }
    }
}

fn quoted_detail(prefix: &str, time: &str) -> (r: String)
    ensures
        r@ == prefix@ + time@ + "'"@,
{
    let mut s = owned(prefix);
    push_str(&mut s, time);
    push_str(&mut s, "'");
    s
}

/// Parses an `"HH:MM"` string into `(hour, minute)` integers.
///
/// The text must split at `':'` into exactly two parts, each a `u8`;
/// otherwise an [`FfiError::InvalidArgument`] names what was wrong.
pub fn parse_hh_mm(time: &str) -> (r: Result<(u8, u8), FfiError>)
    ensures
        match r {
            Ok(v) => hh_mm_result(time@) == Ok::<(u8, u8), Seq<char>>(v),
            Err(FfiError::InvalidArgument { detail }) => hh_mm_result(time@) == Err::<(u8, u8), Seq<char>>(detail@),
            Err(_) => false,
        },
{
    let t = chars_of(time);
    let mut colon: usize = 0;
    let mut count: usize = 0;
    let mut i: usize = 0;
    while i < t.len()
        invariant
            i <= t@.len(),
            t@ == time@,
            count <= i,
            count == 0 ==> forall|j: int| 0 <= j < i ==> #[trigger] t@[j] != ':',
            count >= 1 ==> colon < i && t@[colon as int] == ':',
            count == 1 ==> forall|j: int| 0 <= j < i && j != colon ==> #[trigger] t@[j] != ':',
            count >= 2 ==> exists|a: int, b: int| 0 <= a < b < i && t@[a] == ':' && t@[b] == ':',
        decreases t.len() - i,
    {
        if t[i] == ':' {
            if count == 0 {
                colon = i;
            } else {
                assert(t@[colon as int] == ':' && t@[i as int] == ':');
            }
            if count < 2 {
                count = count + 1;
            }
        }
        i = i + 1;
    }
    if count != 1 {
        assert(!(exists|k: int| single_colon_at(time@, k))) by {
            if exists|k: int| single_colon_at(time@, k) {
                let k = choose|k: int| single_colon_at(time@, k);
                if count == 0 {
                    assert(t@[k] != ':');
                } else {
                    let (a, b) = choose|a: int, b: int|
                        0 <= a < b < t@.len() && t@[a] == ':' && t@[b] == ':';
                    assert(a == k || t@[a] != ':');
                    assert(b == k || t@[b] != ':');
                }
            }
        }
        return Err(FfiError::InvalidArgument { detail: quoted_detail("expected HH:MM, got '", time) });
    }
    assert(single_colon_at(time@, colon as int));
    assert(forall|k: int| single_colon_at(time@, k) ==> k == colon) by {
        assert forall|k: int| single_colon_at(time@, k) implies k == colon by {
            if k != colon {
                assert(t@[k] != ':');
            }
        }
    }
    let hour_part = crate::text::sub_chars(&t, 0, colon);
    let minute_part = crate::text::sub_chars(&t, colon + 1, t.len());
    assert(hour_part@ =~= time@.take(colon as int));
    assert(minute_part@ =~= time@.skip(colon + 1));
    let hour = match parse_u8_chars(&hour_part) {
        Some(h) => h,
        None => {
            return Err(FfiError::InvalidArgument { detail: quoted_detail("invalid hour in '", time) });
        },
    };
    let minute = match parse_u8_chars(&minute_part) {
        Some(m) => m,
        None => {
            return Err(FfiError::InvalidArgument { detail: quoted_detail("invalid minute in '", time) });
        },
    };
    Ok((hour, minute))
}

// ── Jobs ─────────────────────────────────────────────────────────────

/// The daily schedule for an hour and minute: `"MM HH * * *"`.
pub open spec fn daily_schedule(hour: u8, minute: u8) -> Seq<char> {
    decimal(minute as nat) + " "@ + decimal(hour as nat) + " * * *"@
}

/// The command of an email-check job, with the timezone it runs in.
pub open spec fn email_check_command(tz_label: Seq<char>) -> Seq<char> {
    "/prompt "@ + EMAIL_CRON_MARKER@
        + " Check the email inbox and summarize any new unread messages. If there are urgent or important messages, highlight them. Timezone context: "@
        + tz_label + "."@
}

/// The job a check time becomes: its daily schedule and the command;
/// the timezone label is `"UTC"` when none is configured.
pub fn email_cron_job(time: &str, timezone: Option<&str>) -> (r: Result<(String, String), FfiError>)
    ensures
        match hh_mm_result(time@) {
            Ok((h, m)) => r matches Ok((schedule, command)) && schedule@ == daily_schedule(h, m)
                && command@ == email_check_command(
                match timezone {
                    Some(tz) => tz@,
                    None => "UTC"@,
                },
            ),
            Err(detail) => r matches Err(FfiError::InvalidArgument { detail: d }) && d@ == detail,
        },
{
    let (hour, minute) = match parse_hh_mm(time) {
        Ok(v) => v,
        Err(e) => {
            return Err(e);
        },
    };
    let tz_label: &str = match timezone {
        Some(tz) => tz,
        None => "UTC",
    };
    let mut schedule = decimal_string(minute as u64);
    push_str(&mut schedule, " ");
    push_str(&mut schedule, decimal_string(hour as u64).as_str());
    push_str(&mut schedule, " * * *");
    let mut command = concat2("/prompt ", EMAIL_CRON_MARKER);
    push_str(
        &mut command,
        " Check the email inbox and summarize any new unread messages. If there are urgent or important messages, highlight them. Timezone context: ",
    );
    push_str(&mut command, tz_label);
    push_str(&mut command, ".");
    Ok((schedule, command))
}


// ── Synchronising the jobs ───────────────────────────────────────────

/// What synchronising the email-check jobs does, in order: remove every
/// listed job that carries the marker, then add the job of each check
/// time, stopping at the first time that does not parse.
pub struct EmailCronPlan {
    /// Ids of the jobs to remove.
    pub remove: Vec<String>,
    /// Schedules and commands of the jobs to add.
    pub add: Vec<(String, String)>,
    /// The error of the first check time that does not parse, if any.
    pub error: Option<FfiError>,
}

/// The ids of the marked jobs among `(id, command)` pairs, in order.
pub open spec fn marked_ids(jobs: Seq<(Seq<char>, Seq<char>)>) -> Seq<Seq<char>>
    decreases jobs.len(),
{
    if jobs.len() == 0 {
        Seq::empty()
    } else {
        let rest = marked_ids(jobs.drop_last());
        if contains_seq(jobs.last().1, EMAIL_CRON_MARKER@) {
            rest.push(jobs.last().0)
        } else {
            rest
        }
    }
}

/// The number of leading check times that parse.
pub open spec fn parsed_prefix(times: Seq<Seq<char>>) -> nat
    decreases times.len(),
{
    if times.len() == 0 {
        0
    } else if hh_mm_result(times[0]) is Ok {
        1 + parsed_prefix(times.drop_first())
    } else {
        0
    }
}

/// The job a parsed check time became.
pub open spec fn job_for(time: Seq<char>, tz_label: Seq<char>, job: (String, String)) -> bool {
    match hh_mm_result(time) {
        Ok((h, m)) => job.0@ == daily_schedule(h, m) && job.1@ == email_check_command(tz_label),
        Err(_) => false,
    }
}

/// The timezone label of the jobs: the configured one, else `"UTC"`.
pub open spec fn tz_label_of(timezone: Option<&str>) -> Seq<char> {
    match timezone {
        Some(tz) => tz@,
        None => "UTC"@,
    }
}

/// Plans the synchronisation of the email-check jobs from the listed
/// jobs (`(id, command)` pairs), the check times and the timezone.
pub fn email_cron_plan(jobs: &Vec<(String, String)>, check_times: &Vec<String>, timezone: Option<&str>) -> (p: EmailCronPlan)
    ensures
        p.remove@.map_values(|s: String| s@) == marked_ids(jobs@.map_values(|j: (String, String)| (j.0@, j.1@))),
        p.add@.len() == parsed_prefix(check_times@.map_values(|s: String| s@)),
        forall|i: int| 0 <= i < p.add@.len() ==> job_for(check_times@[i]@, tz_label_of(timezone), #[trigger] p.add@[i]),
        p.add@.len() < check_times@.len() <==> p.error is Some,
        p.error matches Some(e) ==> (e matches FfiError::InvalidArgument { detail } && hh_mm_result(
            check_times@[p.add@.len() as int]@,
        ) == Err::<(u8, u8), Seq<char>>(detail@)),
{
    let ghost jv = jobs@.map_values(|j: (String, String)| (j.0@, j.1@));
    let mut remove: Vec<String> = Vec::new();
    let mut i: usize = 0;
    assert(jv.take(0) =~= Seq::<(Seq<char>, Seq<char>)>::empty());
    while i < jobs.len()
        invariant
            i <= jobs@.len(),
            jv == jobs@.map_values(|j: (String, String)| (j.0@, j.1@)),
            remove@.map_values(|s: String| s@) == marked_ids(jv.take(i as int)),
        decreases jobs.len() - i,
    {
        assert(jv.take(i + 1).drop_last() =~= jv.take(i as int));
        assert(jv.take(i + 1).last() == (jobs@[i as int].0@, jobs@[i as int].1@));
        if is_email_cron_command(jobs[i].1.as_str()) {
            let ghost before = remove@;
            remove.push(jobs[i].0.clone());
            assert(remove@.map_values(|s: String| s@) =~= before.map_values(|s: String| s@).push(jobs@[i as int].0@));
        }
        i = i + 1;
    }
    assert(jv.take(jobs@.len() as int) =~= jv);
    let ghost tv = check_times@.map_values(|s: String| s@);
    let ghost tz = tz_label_of(timezone);
    let mut add: Vec<(String, String)> = Vec::new();
    let mut k: usize = 0;
    let mut error: Option<FfiError> = None;
    assert(tv.skip(0) =~= tv);
    while k < check_times.len()
        invariant_except_break
            error is None,
        invariant
            k <= check_times@.len(),
            tv == check_times@.map_values(|s: String| s@),
            tz == tz_label_of(timezone),
            add@.len() == k,
            parsed_prefix(tv) == k + parsed_prefix(tv.skip(k as int)),
            forall|j: int| 0 <= j < k ==> job_for(check_times@[j]@, tz, #[trigger] add@[j]),
        ensures
            add@.len() == k,
            forall|j: int| 0 <= j < k ==> job_for(check_times@[j]@, tz, #[trigger] add@[j]),
            k == parsed_prefix(tv),
            k < check_times@.len() <==> error is Some,
            error matches Some(e) ==> (e matches FfiError::InvalidArgument { detail } && hh_mm_result(
                check_times@[k as int]@,
            ) == Err::<(u8, u8), Seq<char>>(detail@)),
        decreases check_times.len() - k,
    {
        let ghost rest = tv.skip(k as int);
        assert(rest[0] == check_times@[k as int]@);
        assert(rest.drop_first() =~= tv.skip(k + 1));
        match email_cron_job(check_times[k].as_str(), timezone) {
            Ok(job) => {
                let ghost before = add@;
                assert(job_for(check_times@[k as int]@, tz, job));
                add.push(job);
                assert forall|j: int| 0 <= j < k + 1 implies job_for(check_times@[j]@, tz, #[trigger] add@[j]) by {
                    if j < k {
                        assert(add@[j] == before[j]);
                    }
                }
                k = k + 1;
            },
            Err(e) => {
                error = Some(e);
                break;
            },
        }
    }
    proof {
        if k == check_times@.len() {
            assert(tv.skip(k as int) =~= Seq::<Seq<char>>::empty());
        }
    }
    EmailCronPlan { remove, add, error }
}

} // verus!

//! Token budgets: daily and weekly usage windows and which limit is exceeded.

use vstd::prelude::*;
use crate::text::{decimal, push_decimal, push_str, string_from_chars};

verus! {

/// Which budget limit was exceeded.
#[derive(Clone, Copy, Debug, PartialEq, Eq, Structural)]
pub enum BudgetLimitKind {
    DailyTokens,
    WeeklyTokens,
    DailyCost,
    WeeklyCost,
}

/// Token limits of a budget (cost limits are checked by the caller).
#[derive(Clone, Copy, Debug, PartialEq, Eq, Structural)]
pub struct TokenLimits {
    pub daily_tokens: Option<u64>,
    pub weekly_tokens: Option<u64>,
}

/// One session's usage: when it was last active and, if known, its total tokens.
#[derive(Clone, Copy, Debug, PartialEq, Eq, Structural)]
pub struct UsageEntry {
    pub last_active: u64,
    pub tokens: Option<u64>,
}

/// Day of the week (1 = Monday … 7 = Sunday) of a Unix time, in UTC;
/// 1970-01-01 was a Thursday.
pub open spec fn weekday_spec(secs: nat) -> nat {
    ((secs / 86400 + 3) % 7) + 1
}

/// Returns what day of the week (1 = Monday, 7 = Sunday) the timestamp falls on in UTC.
pub fn now_secs_of_weekday(secs: u64) -> (r: u64)
    ensures
        r as nat == weekday_spec(secs as nat),
        1 <= r <= 7,
{
    ((secs / 86400 + 3) % 7) + 1
}

/// Start of the UTC day containing `now`.
pub open spec fn day_start_spec(now: nat) -> nat {
    (now - now % 86400) as nat
}

/// Start of the UTC week (Monday 00:00) containing `now`, or 0 if that is
/// before the epoch.
pub open spec fn week_start_spec(now: nat) -> nat {
    let back = ((weekday_spec(now) - 1) * 86400) as nat;
    if day_start_spec(now) >= back { (day_start_spec(now) - back) as nat } else { 0 }
}

/// The start of the current day and of the current week.
pub fn budget_windows(now: u64) -> (r: (u64, u64))
    ensures
        r.0 as nat == day_start_spec(now as nat),
        r.1 as nat == week_start_spec(now as nat),
        r.1 <= r.0 <= now,
{
    let day_start = now - (now % 86400);
    let wd = now_secs_of_weekday(now);
    let back = (wd - 1) * 86400;
    let week_start = if day_start >= back { day_start - back } else { 0 };
    (day_start, week_start)
}

/// Tokens of the entries active since `start` (entries without usage count nothing).
pub open spec fn window_tokens(entries: Seq<UsageEntry>, start: u64) -> nat
    decreases entries.len(),
{
    if entries.len() == 0 {
        0
    } else {
        let e = entries.last();
        window_tokens(entries.drop_last(), start) + (if e.last_active >= start && e.tokens is Some { e.tokens->0 as nat } else { 0 })
    }
}

proof fn lemma_window_prefix(entries: Seq<UsageEntry>, start: u64, i: int)
    requires
        0 <= i <= entries.len(),
    ensures
        window_tokens(entries.take(i), start) <= window_tokens(entries, start),
    decreases entries.len() - i,
{
    if i < entries.len() {
        lemma_window_prefix(entries, start, i + 1);
        assert(entries.take(i + 1).drop_last() =~= entries.take(i));
    } else {
        assert(entries.take(i) =~= entries);
    }
}

/// Sums the tokens of the entries active since `start`.
pub fn sum_window_tokens(entries: &Vec<UsageEntry>, start: u64) -> (r: u64)
    requires
        window_tokens(entries@, start) <= u64::MAX,
    ensures
        r as nat == window_tokens(entries@, start),
{
    let mut total: u64 = 0;
    let mut i: usize = 0;
    while i < entries.len()
        invariant
            i <= entries.len(),
            window_tokens(entries@, start) <= u64::MAX,
            total as nat == window_tokens(entries@.take(i as int), start),
        decreases entries.len() - i,
    {
        let e = entries[i];
        proof {
            assert(entries@.take(i + 1).drop_last() =~= entries@.take(i as int));
            lemma_window_prefix(entries@, start, i + 1);
        }
        if e.last_active >= start {
            match e.tokens {
                Some(t) => { total = total + t; },
                None => {},
            }
        }
        i = i + 1;
    }
    assert(entries@.take(entries.len() as int) =~= entries@);
    total
}

/// The first exceeded limit in priority order: daily tokens, daily cost,
/// weekly tokens, weekly cost.
pub open spec fn first_exceeded_spec(daily_tokens: bool, daily_cost: bool, weekly_tokens: bool, weekly_cost: bool) -> Option<BudgetLimitKind> {
    if daily_tokens { Some(BudgetLimitKind::DailyTokens) }
    else if daily_cost { Some(BudgetLimitKind::DailyCost) }
    else if weekly_tokens { Some(BudgetLimitKind::WeeklyTokens) }
    else if weekly_cost { Some(BudgetLimitKind::WeeklyCost) }
    else { None }
}

/// A token limit is exceeded when one is set and usage is above it.
pub open spec fn over_limit(limit: Option<u64>, used: nat) -> bool {
    limit matches Some(l) && used > l
}

/// The token part of a budget check: usage in the current day and week, and
/// the most severe exceeded limit, where the caller says whether the daily
/// and weekly cost limits are exceeded.
pub struct TokenCheck {
    pub daily_tokens: u64,
    pub weekly_tokens: u64,
    pub alert: Option<BudgetLimitKind>,
}

/// Checks token usage against the budget. Sessions active since the start
/// of today count for the daily window, since Monday for the weekly one;
/// entries without a known token count are left out. Whether the cost
/// limits are exceeded comes in as `daily_cost_over` and `weekly_cost_over`.
/// The alert is the first exceeded limit in the order daily tokens, daily
/// cost, weekly tokens, weekly cost.
pub fn check_budget(entries: &Vec<UsageEntry>, limits: &TokenLimits, now: u64, daily_cost_over: bool, weekly_cost_over: bool) -> (r: TokenCheck)
    requires
        window_tokens(entries@, week_start_spec(now as nat) as u64) <= u64::MAX,
        window_tokens(entries@, day_start_spec(now as nat) as u64) <= u64::MAX,
    ensures
        r.daily_tokens as nat == window_tokens(entries@, day_start_spec(now as nat) as u64),
        r.weekly_tokens as nat == window_tokens(entries@, week_start_spec(now as nat) as u64),
        r.alert == first_exceeded_spec(
            over_limit(limits.daily_tokens, r.daily_tokens as nat),
            daily_cost_over,
            over_limit(limits.weekly_tokens, r.weekly_tokens as nat),
            weekly_cost_over,
        ),
{
    let (day_start, week_start) = budget_windows(now);
    let daily = sum_window_tokens(entries, day_start);
    let weekly = sum_window_tokens(entries, week_start);
    let daily_over = match limits.daily_tokens {
        Some(l) => daily > l,
        None => false,
    };
    let weekly_over = match limits.weekly_tokens {
        Some(l) => weekly > l,
        None => false,
    };
    let alert = if daily_over {
        Some(BudgetLimitKind::DailyTokens)
    } else if daily_cost_over {
        Some(BudgetLimitKind::DailyCost)
    } else if weekly_over {
        Some(BudgetLimitKind::WeeklyTokens)
    } else if weekly_cost_over {
        Some(BudgetLimitKind::WeeklyCost)
    } else {
        None
    };
    TokenCheck { daily_tokens: daily, weekly_tokens: weekly, alert }
}

/// The alert text for an exceeded token limit.
pub fn token_alert_message(weekly: bool, used: u64, limit: u64) -> (s: String)
    ensures
        s@ == "⚠ "@ + (if weekly { "WEEKLY"@ } else { "DAILY"@ }) + " TOKEN BUDGET EXCEEDED: "@ + decimal(used as nat) + " / "@ + decimal(limit as nat) + " tokens"@,
{
    proof {
        reveal_strlit("⚠ ");
        reveal_strlit("WEEKLY");
        reveal_strlit("DAILY");
        reveal_strlit(" TOKEN BUDGET EXCEEDED: ");
        reveal_strlit(" / ");
        reveal_strlit(" tokens");
    }
    let mut v: Vec<char> = Vec::new();
    push_str(&mut v, "⚠ ");
    if weekly {
        push_str(&mut v, "WEEKLY");
    } else {
        push_str(&mut v, "DAILY");
    }
    push_str(&mut v, " TOKEN BUDGET EXCEEDED: ");
    push_decimal(&mut v, used);
    push_str(&mut v, " / ");
    push_decimal(&mut v, limit);
    push_str(&mut v, " tokens");
    string_from_chars(&v)
}

/// The weekly window contains the daily one, so weekly usage is at least
/// daily usage.
pub proof fn lemma_weekly_covers_daily(entries: Seq<UsageEntry>, now: u64)
    ensures
        window_tokens(entries, day_start_spec(now as nat) as u64) <= window_tokens(entries, week_start_spec(now as nat) as u64),
    decreases entries.len(),
{
    let d = day_start_spec(now as nat);
    let w = week_start_spec(now as nat);
    assert(w <= d <= now);
    assert((d as u64) as nat == d);
    assert((w as u64) as nat == w);
    if entries.len() > 0 {
        lemma_weekly_covers_daily(entries.drop_last(), now);
    }
}

} // verus!

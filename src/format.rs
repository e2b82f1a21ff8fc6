//! Human-readable ages.

use vstd::prelude::*;

verus! {

/// The decimal digit of `d`.
pub open spec fn digit(d: nat) -> char {
    if d == 0 { '0' } else if d == 1 { '1' } else if d == 2 { '2' } else if d == 3 { '3' }
    else if d == 4 { '4' } else if d == 5 { '5' } else if d == 6 { '6' } else if d == 7 { '7' }
    else if d == 8 { '8' } else { '9' }
}

/// The decimal notation of `n`, without leading zeros.
pub open spec fn decimal(n: nat) -> Seq<char>
    decreases n,
{
    if n < 10 {
        seq![digit(n)]
    } else {
        decimal(n / 10).push(digit(n % 10))
    }
}

/// `n` units ago, the unit in the plural unless `n` is one.
pub open spec fn units_ago(n: nat, unit: Seq<char>) -> Seq<char> {
    decimal(n) + " "@ + unit + (if n == 1 { ""@ } else { "s"@ }) + " ago"@
}

/// How long ago something happened `secs` seconds ago: in seconds under a
/// minute, then in whole minutes, hours, days, weeks (under 30 days), months
/// of 30 days (under 365 days), or years of 365 days.
pub open spec fn time_ago_spec(secs: nat) -> Seq<char> {
    let minutes = secs / 60;
    let hours = minutes / 60;
    let days = hours / 24;
    if secs < 60 {
        decimal(secs) + " seconds ago"@
    } else if minutes < 60 {
        units_ago(minutes, "minute"@)
    } else if hours < 24 {
        units_ago(hours, "hour"@)
    } else if days < 7 {
        units_ago(days, "day"@)
    } else if days < 30 {
        units_ago(days / 7, "week"@)
    } else if days < 365 {
        units_ago(days / 30, "month"@)
    } else {
        units_ago(days / 365, "year"@)
    }
}

fn digit_str(d: u64) -> (r: &'static str)
    requires
        d < 10,
    ensures
        r@ == seq![digit(d as nat)],
{
    proof {
        reveal_strlit("0");
        reveal_strlit("1");
        reveal_strlit("2");
        reveal_strlit("3");
        reveal_strlit("4");
        reveal_strlit("5");
        reveal_strlit("6");
        reveal_strlit("7");
        reveal_strlit("8");
        reveal_strlit("9");
    }
    let r = if d == 0 { "0" } else if d == 1 { "1" } else if d == 2 { "2" } else if d == 3 { "3" }
        else if d == 4 { "4" } else if d == 5 { "5" } else if d == 6 { "6" } else if d == 7 { "7" }
        else if d == 8 { "8" } else { "9" };
    assert(r@ =~= seq![digit(d as nat)]);
    r
}

/// The decimal notation of `n`.
pub fn decimal_string(n: u64) -> (r: String)
    ensures
        r@ == decimal(n as nat),
    decreases n,
{
    if n < 10 {
        String::from_str(digit_str(n))
    } else {
        let mut s = decimal_string(n / 10);
        s.append(digit_str(n % 10));
        assert(s@ =~= decimal(n as nat));
        s
    }
}

fn units_ago_string(n: u64, unit: &str) -> (r: String)
    ensures
        r@ == units_ago(n as nat, unit@),
{
    let mut s = decimal_string(n);
    s.append(" ");
    s.append(unit);
    if n != 1 {
        s.append("s");
    }
    s.append(" ago");
    proof {
        reveal_strlit("");
    }
    assert(s@ =~= units_ago(n as nat, unit@));
    s
}

/// How long before `now` the moment `then` lies, both in seconds since the
/// epoch; a `then` after `now` counts as no time at all.
pub fn format_time_ago(now: u64, then: u64) -> (r: String)
    ensures
        r@ == time_ago_spec(if now >= then { (now - then) as nat } else { 0 }),
{
    let secs: u64 = if now >= then { now - then } else { 0 };
    if secs < 60 {
        let mut s = decimal_string(secs);
        s.append(" seconds ago");
        return s;
    }
    let minutes: u64 = secs / 60;
    if minutes < 60 {
        return units_ago_string(minutes, "minute");
    }
    let hours: u64 = minutes / 60;
    if hours < 24 {
        return units_ago_string(hours, "hour");
    }
    let days: u64 = hours / 24;
    if days < 7 {
        units_ago_string(days, "day")
    } else if days < 30 {
        units_ago_string(days / 7, "week")
    } else if days < 365 {
        units_ago_string(days / 30, "month")
    } else {
        units_ago_string(days / 365, "year")
    }
}

} // verus!

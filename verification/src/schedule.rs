//! The synchronisation routine: what it logs each minute, and when it refreshes the
//! database.

use vstd::prelude::*;
use crate::calendar::{br_date, br_date_text, hour_minute, hour_minute_text, CivilDate};
use crate::text::{decimal, push_digits, push_str, string_push, decimal_i64, owned};

verus! {

/// The local wall clock at one moment.
#[derive(Clone, Copy, Debug, PartialEq, Eq, Structural)]
pub struct WallClock {
    pub date: CivilDate,
    pub hour: u32,
    pub minute: u32,
}

/// The database is refreshed in the minutes that are a multiple of fifteen.
pub open spec fn refresh_minute(minute: int) -> bool {
    minute % 15 == 0
}

/// Whether the database is refreshed at this minute of the hour.
pub fn refresh_due(minute: u32) -> (due: bool)
    ensures
        due == refresh_minute(minute as int),
{
    minute % 15 == 0
}

/// Integer division that rounds toward zero, as Rust divides `i64` values.
pub open spec fn div_toward_zero(a: int, b: int) -> int
    recommends
        b > 0,
{
    if a >= 0 {
        a / b
    } else {
        -((-a) / b)
    }
}

/// The remainder that goes with `div_toward_zero` (it has the sign of `a`).
pub open spec fn rem_toward_zero(a: int, b: int) -> int
    recommends
        b > 0,
{
    a - b * div_toward_zero(a, b)
}

/// The uptime line for a duration of `secs` whole seconds: the whole hours, and the
/// minutes past them (`num_hours`, `num_minutes() % 60`).
pub open spec fn uptime_text(secs: int) -> Seq<char> {
    "Uptime: "@ + decimal(div_toward_zero(secs, 3600)) + "h "@ + decimal(
        rem_toward_zero(div_toward_zero(secs, 60), 60),
    ) + "min"@
}

/// `n` dashes.
pub open spec fn dashes(n: nat) -> Seq<char> {
    Seq::new(n, |i: int| '-')
}

fn div_zero(a: i64, b: i64) -> (q: i64)
    requires
        b > 0,
    ensures
        q == div_toward_zero(a as int, b as int),
{
    if a >= 0 {
        a / b
    } else {
        let m: i128 = -(a as i128);
        let q: i128 = m / (b as i128);
        (-q) as i64
    }
}

fn rem_zero(a: i64, b: i64) -> (r: i64)
    requires
        b > 0,
    ensures
        r == rem_toward_zero(a as int, b as int),
        -b < r < b,
{
    if a >= 0 {
        proof {
            vstd::arithmetic::div_mod::lemma_fundamental_div_mod(a as int, b as int);
        }
        a % b
    } else {
        let m: i128 = -(a as i128);
        let r: i128 = m % (b as i128);
        proof {
            vstd::arithmetic::div_mod::lemma_fundamental_div_mod(m as int, b as int);
            let bi = b as int;
            let q = (m as int) / bi;
            assert(bi * (-q) == -(bi * q)) by (nonlinear_arith);
            assert(div_toward_zero(a as int, bi) == -q);
        }
        (-r) as i64
    }
}

/// The uptime line for a duration of `secs` whole seconds.
pub fn uptime_line(secs: i64) -> (r: String)
    ensures
        r@ == uptime_text(secs as int),
{
    let hours = div_zero(secs, 3600);
    let minutes = rem_zero(div_zero(secs, 60), 60);
    let mut r = owned("Uptime: ");
    push_str(&mut r, decimal_i64(hours).as_str());
    push_str(&mut r, "h ");
    push_str(&mut r, decimal_i64(minutes).as_str());
    push_str(&mut r, "min");
    r
}

/// A line of `n` dashes.
pub fn dash_line(n: usize) -> (r: String)
    ensures
        r@ == dashes(n as nat),
{
    let mut r = String::new();
    let mut i: usize = 0;
    while i < n
        invariant
            i <= n,
            r@ == dashes(i as nat),
        decreases n - i,
    {
        string_push(&mut r, '-');
        assert(r@ =~= dashes((i + 1) as nat));
        i = i + 1;
    }
    r
}

/// The lines logged each minute by the routines that count their uptime: the time, the
/// date, the uptime, and a line of as many dashes as the uptime line has characters.
pub fn minute_log(now: WallClock, uptime_secs: i64) -> (lines: Vec<String>)
    ensures
        lines@.len() == 4,
        lines@[0]@ == "Hora: "@ + hour_minute_text(now.hour as nat, now.minute as nat),
        lines@[1]@ == "Data: "@ + br_date_text(now.date),
        lines@[2]@ == uptime_text(uptime_secs as int),
        lines@[3]@ == dashes(uptime_text(uptime_secs as int).len()),
{
    let mut hora = owned("Hora: ");
    push_str(&mut hora, hour_minute(now.hour, now.minute).as_str());
    let mut data = owned("Data: ");
    push_str(&mut data, br_date(now.date).as_str());
    let uptime = uptime_line(uptime_secs);
    let bar = dash_line(uptime.as_str().unicode_len());
    vec![hora, data, uptime, bar]
}

/// The lines logged each minute by the routine that does not count its uptime: the
/// time, the date, and a line of sixteen dashes.
pub fn minute_log_plain(now: WallClock) -> (lines: Vec<String>)
    ensures
        lines@.len() == 3,
        lines@[0]@ == "Hora: "@ + hour_minute_text(now.hour as nat, now.minute as nat),
        lines@[1]@ == "Data: "@ + br_date_text(now.date),
        lines@[2]@ == dashes(16),
{
    let mut hora = owned("Hora: ");
    push_str(&mut hora, hour_minute(now.hour, now.minute).as_str());
    let mut data = owned("Data: ");
    push_str(&mut data, br_date(now.date).as_str());
    let bar = dash_line(16);
    vec![hora, data, bar]
}

} // verus!

verus! {

/// The database is refreshed four times an hour, at minutes 0, 15, 30 and 45 and at no
/// other minute of the hour; the pattern repeats every quarter of an hour.
pub proof fn lemma_refresh_four_times_an_hour(minute: int)
    ensures
        0 <= minute < 60 ==> (refresh_minute(minute) <==> (minute == 0 || minute == 15 || minute
            == 30 || minute == 45)),
        0 < minute < 15 ==> !refresh_minute(minute),
        minute >= 0 ==> refresh_minute(minute + 15) == refresh_minute(minute),
        refresh_minute(0),
{
}

} // verus!

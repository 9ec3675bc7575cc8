//! `MDTM` timestamp formatting: seconds since the Unix epoch rendered
//! as `YYYYMMDDHHMMSS` in UTC, using the standard civil-from-days
//! calendar arithmetic over the 400-year Gregorian era.

use vstd::prelude::*;
use crate::text::{chars_to_string, push_dec_chars, spec_dec};

verus! {

/// The last second of year 9999; later times do not fit the four-digit
/// year of the `MDTM` format.
pub const MDTM_MAX_SECS: u64 = 253402300799;

/// Days since the epoch shifted to the start of the 400-year era
/// cycle.
pub open spec fn spec_era_day(days: nat) -> nat {
    days + 719468
}

/// Day of the 400-year era (0 to 146096).
pub open spec fn spec_doe(days: nat) -> nat {
    spec_era_day(days) % 146097
}

/// Year of the era (0 to 399).
pub open spec fn spec_yoe(days: nat) -> nat {
    let doe = spec_doe(days);
    ((doe - doe / 1460 + doe / 36524 - doe / 146096) / 365) as nat
}

/// Day of the March-based year (0 to 365).
pub open spec fn spec_doy(days: nat) -> nat {
    let yoe = spec_yoe(days);
    (spec_doe(days) - (365 * yoe + yoe / 4 - yoe / 100)) as nat
}

/// March-based month index (0 = March, ..., 11 = February).
pub open spec fn spec_mp(days: nat) -> nat {
    (5 * spec_doy(days) + 2) / 153
}

/// Calendar day of the month (1 to 31) of the epoch day `days`.
pub open spec fn spec_day_of_month(days: nat) -> nat {
    let mp = spec_mp(days);
    (spec_doy(days) - (153 * mp + 2) / 5 + 1) as nat
}

/// Calendar month (1 to 12) of the epoch day `days`.
pub open spec fn spec_month(days: nat) -> nat {
    let mp = spec_mp(days);
    if mp < 10 {
        mp + 3
    } else {
        (mp - 9) as nat
    }
}

/// Calendar year of the epoch day `days`.
pub open spec fn spec_year(days: nat) -> nat {
    let y = spec_yoe(days) + (spec_era_day(days) / 146097) * 400;
    if spec_month(days) <= 2 {
        y + 1
    } else {
        y
    }
}

/// A number rendered in decimal, left-padded with `0` to two digits.
pub open spec fn spec_pad2(n: nat) -> Seq<char> {
    if n < 10 {
        seq!['0'] + spec_dec(n)
    } else {
        spec_dec(n)
    }
}

/// The `MDTM` rendering `YYYYMMDDHHMMSS` of `secs` seconds since the
/// Unix epoch, in UTC.
pub open spec fn spec_mdtm(secs: nat) -> Seq<char> {
    let days = secs / 86400;
    let rem = secs % 86400;
    spec_dec(spec_year(days)) + spec_pad2(spec_month(days)) + spec_pad2(spec_day_of_month(days))
        + spec_pad2(rem / 3600) + spec_pad2((rem % 3600) / 60) + spec_pad2(rem % 60)
}

fn push_pad2(n: u64, out: &mut Vec<char>)
    ensures
        final(out)@ == old(out)@ + spec_pad2(n as nat),
{
    if n < 10 {
        out.push('0');
    }
    push_dec_chars(n, out);
    proof {
        if n < 10 {
            assert(final(out)@ =~= old(out)@ + spec_pad2(n as nat));
        }
    }
}

/// Renders `secs` seconds since the Unix epoch as `YYYYMMDDHHMMSS` in
/// UTC. Times past year 9999 do not fit the format and are refused by
/// the precondition; `mdtm_result_msg` screens them out.
pub fn format_mdtm(secs: u64) -> (r: String)
    requires
        secs <= MDTM_MAX_SECS,
    ensures
        r@ == spec_mdtm(secs as nat),
{
    let days: u64 = secs / 86400;
    let rem: u64 = secs % 86400;
    let z: u64 = days + 719468;
    let era: u64 = z / 146097;
    let doe: u64 = z % 146097;
    let yoe: u64 = (doe - doe / 1460 + doe / 36524 - doe / 146096) / 365;
    let doy: u64 = doe - (365 * yoe + yoe / 4 - yoe / 100);
    let mp: u64 = (5 * doy + 2) / 153;
    let day: u64 = doy - (153 * mp + 2) / 5 + 1;
    let month: u64 = if mp < 10 {
        mp + 3
    } else {
        mp - 9
    };
    let year: u64 = yoe + era * 400 + (if month <= 2 {
        1
    } else {
        0
    });
    let hour: u64 = rem / 3600;
    let minute: u64 = (rem % 3600) / 60;
    let second: u64 = rem % 60;
    let mut v: Vec<char> = Vec::new();
    push_dec_chars(year, &mut v);
    push_pad2(month, &mut v);
    push_pad2(day, &mut v);
    push_pad2(hour, &mut v);
    push_pad2(minute, &mut v);
    push_pad2(second, &mut v);
    proof {
        assert(v@ =~= spec_mdtm(secs as nat));
    }
    chars_to_string(&v)
}

} // verus!

//! The bandwidth accountant: daily cumulative transfer counters with a fixed
//! quota, reset on date rollover.  The caller supplies the current calendar
//! date as a plain string and persists the record after any change.

use vstd::prelude::*;
use vstd::arithmetic::div_mod::{
    lemma_div_by_multiple, lemma_div_is_ordered, lemma_div_is_ordered_by_denominator,
};
use crate::errors::DriveError;
use crate::text::{dec_str, str_eq, u64_to_string};

verus! {

/// The daily transfer quota: 250 GiB.
pub const DAILY_LIMIT_BYTES: u64 = 250 * 1024 * 1024 * 1024;

/// One day's record: its date and the bytes sent and received so far.
#[derive(Debug, Clone, PartialEq, Eq)]
pub struct BandwidthStats {
    pub date: String,
    pub up_bytes: u64,
    pub down_bytes: u64,
}

impl BandwidthStats {
    /// A fresh record for the given date, with both counters at zero.
    pub fn new_for(date: String) -> (r: Self)
        ensures
            r.date@ == date@,
            r.up_bytes == 0,
            r.down_bytes == 0,
    {
        BandwidthStats { date, up_bytes: 0, down_bytes: 0 }
    }
}

/// Mathematical model of the accountant's state.
pub ghost struct BwModel {
    pub date: Seq<char>,
    pub up: int,
    pub down: int,
    pub limit: int,
}

/// What a date check does: on a new date both counters drop to zero and the
/// record takes the new date; on the same date nothing changes.
pub open spec fn spec_reset(m: BwModel, today: Seq<char>) -> BwModel {
    if m.date == today {
        m
    } else {
        BwModel { date: today, up: 0, down: 0, limit: m.limit }
    }
}

/// A transfer of `n` bytes fits under the quota.
pub open spec fn spec_allowed(m: BwModel, n: int) -> bool {
    m.up + m.down + n <= m.limit
}

/// Recording `n` sent bytes.
pub open spec fn spec_add_up(m: BwModel, n: int) -> BwModel {
    BwModel { up: m.up + n, ..m }
}

/// Recording `n` received bytes.
pub open spec fn spec_add_down(m: BwModel, n: int) -> BwModel {
    BwModel { down: m.down + n, ..m }
}

/// The accountant: the current record and the daily ceiling.
pub struct BandwidthManager {
    pub stats: BandwidthStats,
    pub limit: u64,
}

impl View for BandwidthManager {
    type V = BwModel;

    open spec fn view(&self) -> BwModel {
        BwModel {
            date: self.stats.date@,
            up: self.stats.up_bytes as int,
            down: self.stats.down_bytes as int,
            limit: self.limit as int,
        }
    }
}

impl BandwidthManager {
    /// An accountant over a loaded record and a daily ceiling.
    pub fn new(stats: BandwidthStats, limit: u64) -> (r: Self)
        ensures
            r@.date == stats.date@,
            r@.up == stats.up_bytes,
            r@.down == stats.down_bytes,
            r@.limit == limit,
    {
        BandwidthManager { stats, limit }
    }

    /// Reset the counters when the stored date is not `today`; the result says
    /// whether anything changed, so the caller knows to persist the record.
    pub fn check_and_reset(&mut self, today: &str) -> (changed: bool)
        ensures
            final(self)@ == spec_reset(old(self)@, today@),
            changed == (old(self)@.date != today@),
    {
        if !str_eq(self.stats.date.as_str(), today) {
            self.stats.date = String::from_str(today);
            self.stats.up_bytes = 0;
            self.stats.down_bytes = 0;
            proof {
                assert(self@ =~= spec_reset(old(self)@, today@));
            }
            true
        } else {
            proof {
                assert(self@ =~= spec_reset(old(self)@, today@));
            }
            false
        }
    }

    /// Whether a transfer of `bytes` may proceed today.  After the date check,
    /// the request is allowed exactly when the day's total plus the request
    /// stays within the ceiling; a rejection carries the ceiling and the total
    /// the request would have reached.
    pub fn can_transfer(&mut self, bytes: u64, today: &str) -> (r: Result<(), DriveError>)
        requires
            old(self)@.up + old(self)@.down + bytes <= u64::MAX,
        ensures
            final(self)@ == spec_reset(old(self)@, today@),
            r is Ok <==> spec_allowed(spec_reset(old(self)@, today@), bytes as int),
            r matches Err(e) ==> {
                let m = spec_reset(old(self)@, today@);
                e == (DriveError::QuotaExceeded {
                    limit: old(self).limit,
                    attempted: (m.up + m.down + bytes) as u64,
                })
            },
    {
        self.check_and_reset(today);
        let total = self.stats.up_bytes + self.stats.down_bytes + bytes;
        if total > self.limit {
            Err(DriveError::QuotaExceeded { limit: self.limit, attempted: total })
        } else {
            Ok(())
        }
    }

    /// Record `bytes` sent, after the date check; the caller persists.
    pub fn add_up(&mut self, bytes: u64, today: &str)
        requires
            old(self)@.up + bytes <= u64::MAX,
        ensures
            final(self)@ == spec_add_up(spec_reset(old(self)@, today@), bytes as int),
    {
        self.check_and_reset(today);
        self.stats.up_bytes = self.stats.up_bytes + bytes;
        proof {
            assert(self@ =~= spec_add_up(spec_reset(old(self)@, today@), bytes as int));
        }
    }

    /// Record `bytes` received, after the date check; the caller persists.
    pub fn add_down(&mut self, bytes: u64, today: &str)
        requires
            old(self)@.down + bytes <= u64::MAX,
        ensures
            final(self)@ == spec_add_down(spec_reset(old(self)@, today@), bytes as int),
    {
        self.check_and_reset(today);
        self.stats.down_bytes = self.stats.down_bytes + bytes;
        proof {
            assert(self@ =~= spec_add_down(spec_reset(old(self)@, today@), bytes as int));
        }
    }

    /// The current record, after the date check.
    pub fn get_stats(&mut self, today: &str) -> (r: BandwidthStats)
        ensures
            final(self)@ == spec_reset(old(self)@, today@),
            r.date@ == final(self)@.date,
            r.up_bytes == final(self)@.up,
            r.down_bytes == final(self)@.down,
    {
        self.check_and_reset(today);
        BandwidthStats {
            date: self.stats.date.clone(),
            up_bytes: self.stats.up_bytes,
            down_bytes: self.stats.down_bytes,
        }
    }

    /// Render a byte count in 1024-based units for quota messages.
    pub fn format_bytes(&self, bytes: u64) -> (r: String)
        ensures
            r@ == format_bytes_spec(bytes as int),
    {
        format_bytes_string(bytes)
    }
}

/// Law: a transfer the accountant permits, once recorded, never leaves the
/// day's total above the quota — permission already accounts for the request
/// itself, so recording it cannot overshoot.
pub proof fn lemma_no_quota_overshoot(m: BwModel, today: Seq<char>, n: int)
    requires
        n >= 0,
        spec_allowed(spec_reset(m, today), n),
    ensures
        ({
            let up = spec_add_up(spec_reset(m, today), n);
            up.up + up.down <= up.limit
        }),
        ({
            let down = spec_add_down(spec_reset(m, today), n);
            down.up + down.down <= down.limit
        }),
{
}

/// Law: a date rollover resets both counters to exactly zero and stamps the
/// new date, and a second check on the same day is a no-op — one rollover
/// triggers exactly one reset.
pub proof fn lemma_rollover_resets_once(m: BwModel, today: Seq<char>)
    requires
        m.date != today,
    ensures
        spec_reset(m, today).up == 0,
        spec_reset(m, today).down == 0,
        spec_reset(m, today).date == today,
        spec_reset(spec_reset(m, today), today) == spec_reset(m, today),
{
}

/// Law: a check on the stored date itself changes nothing.
pub proof fn lemma_same_day_no_reset(m: BwModel, today: Seq<char>)
    requires
        m.date == today,
    ensures
        spec_reset(m, today) == m,
{
}

/// Powers of 1024, the scale steps of the byte units.
pub open spec fn pow1024(i: int) -> int
    decreases i,
{
    if i <= 0 {
        1
    } else {
        1024 * pow1024(i - 1)
    }
}

/// The unit a byte count is shown in: the number of times it can be divided
/// by 1024 while staying at or above 1024, capped at the largest unit.
pub open spec fn unit_of(b: int, i: int) -> int
    decreases 4 - i,
{
    if i < 4 && b / pow1024(i) >= 1024 {
        unit_of(b, i + 1)
    } else {
        i
    }
}

/// The suffix for each unit index.
pub open spec fn unit_suffix(i: int) -> Seq<char> {
    if i == 0 {
        "B"@
    } else if i == 1 {
        "KB"@
    } else if i == 2 {
        "MB"@
    } else if i == 3 {
        "GB"@
    } else {
        "TB"@
    }
}

/// A fraction of hundredths, always shown with two digits.
pub open spec fn two_digit_str(f: int) -> Seq<char> {
    if f < 10 {
        seq!['0'] + dec_str(f)
    } else {
        dec_str(f)
    }
}

/// The integer nearest to `num / den`, resolving an exact half towards the
/// even neighbour.
pub open spec fn round_half_even(num: int, den: int) -> int
    recommends
        num >= 0,
        den > 0,
{
    let q = num / den;
    let r = num % den;
    if 2 * r > den {
        q + 1
    } else if 2 * r < den {
        q
    } else if q % 2 == 0 {
        q
    } else {
        q + 1
    }
}

/// What formatting a byte count yields: the scaled value rounded to the
/// nearest hundredth (an exact half goes to the even neighbour), followed by
/// the unit suffix.
pub open spec fn format_bytes_spec(b: int) -> Seq<char> {
    let u = unit_of(b, 0);
    let h = round_half_even(b * 100, pow1024(u));
    dec_str(h / 100) + "."@ + two_digit_str(h % 100) + " "@ + unit_suffix(u)
}

fn unit_str(i: usize) -> (r: &'static str)
    requires
        i <= 4,
    ensures
        r@ == unit_suffix(i as int),
{
    proof {
        reveal_strlit("B");
        reveal_strlit("KB");
        reveal_strlit("MB");
        reveal_strlit("GB");
        reveal_strlit("TB");
    }
    match i {
        0 => "B",
        1 => "KB",
        2 => "MB",
        3 => "GB",
        _ => "TB",
    }
}

/// Render a byte count in 1024-based units, rounded to hundredths with an
/// exact half going to the even neighbour.
pub fn format_bytes_string(bytes: u64) -> (r: String)
    ensures
        r@ == format_bytes_spec(bytes as int),
{
    let mut i: usize = 0;
    let mut d: u64 = 1;
    while i < 4 && bytes / d >= 1024
        invariant
            i <= 4,
            d == pow1024(i as int),
            d >= 1,
            unit_of(bytes as int, 0) == unit_of(bytes as int, i as int),
        decreases 4 - i,
    {
        proof {
            reveal_with_fuel(pow1024, 6);
        }
        d = d * 1024;
        i += 1;
    }
    proof {
        assert(unit_of(bytes as int, i as int) == i);
    }
    let num: u128 = (bytes as u128) * 100;
    let dv: u128 = d as u128;
    let q: u128 = num / dv;
    let rem: u128 = num % dv;
    let h128: u128 = if 2 * rem > dv {
        q + 1
    } else if 2 * rem < dv {
        q
    } else if q % 2 == 0 {
        q
    } else {
        q + 1
    };
    proof {
        let b = bytes as int;
        assert(h128 == round_half_even(b * 100, pow1024(i as int)));
        // The rounded value stays small enough for its whole part to fit the
        // result type: it is at most the unscaled count of hundredths plus 1.
        lemma_div_is_ordered_by_denominator(b * 100, 1, dv as int);
        lemma_div_by_multiple(b, 100);
        assert(h128 <= 100 * 0xFFFF_FFFF_FFFF_FFFFu64 + 1);
        lemma_div_is_ordered(h128 as int, 100 * 0xFFFF_FFFF_FFFF_FFFFu64 + 1, 100);
    }
    let whole: u64 = (h128 / 100) as u64;
    let frac: u64 = (h128 % 100) as u64;
    let mut s = u64_to_string(whole);
    s.append(".");
    proof {
        reveal_strlit(".");
        reveal_strlit("0");
        reveal_strlit(" ");
    }
    if frac < 10 {
        s.append("0");
        proof {
            assert("0"@ =~= seq!['0']);
        }
    }
    s.append(u64_to_string(frac).as_str());
    s.append(" ");
    s.append(unit_str(i));
    proof {
        assert(s@ =~= format_bytes_spec(bytes as int));
    }
    s
}

} // verus!

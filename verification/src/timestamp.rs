//! Points in time and their rendering, which is left to `chrono`.

use crate::text::optional_text;
use vstd::prelude::*;

verus! {

/// A point in time: whole seconds since 1970-01-01T00:00:00Z, which may be
/// negative, and the nanoseconds into that second.
#[derive(Clone, Copy, Debug, PartialEq, Eq, Structural)]
pub struct Timestamp {
    pub seconds: i64,
    pub nanos: u32,
}

/// The nanoseconds in a second.
pub const NANOS_PER_SECOND: u32 = 1_000_000_000;

/// The RFC 3339 text of a point in time in UTC, with millisecond precision and
/// the suffix `Z`, as `chrono` renders it; `None` where `chrono` cannot
/// represent the point in time.
pub uninterp spec fn rfc3339_millis(seconds: int, nanos: int) -> Option<Seq<char>>;

/// `chrono::DateTime::<Utc>::from_timestamp` followed by
/// `DateTime::to_rfc3339_opts(SecondsFormat::Millis, true)`. The contract
/// claims only that the outcome is determined by the two numbers; it says
/// nothing of the text itself nor of which numbers are representable.
#[verifier::external_body]
pub(crate) fn rfc3339_millis_text(seconds: i64, nanos: u32) -> (text: Option<String>)
    ensures
        match text {
            Some(t) => rfc3339_millis(seconds as int, nanos as int) == Some(t@),
            None => rfc3339_millis(seconds as int, nanos as int) is None,
        },
{
    match chrono::DateTime::<chrono::Utc>::from_timestamp(seconds, nanos) {
        Some(time) => Some(time.to_rfc3339_opts(chrono::SecondsFormat::Millis, true)),
        None => None,
    }
}

impl Timestamp {
    /// The point in time that lies `offset` nanoseconds after the epoch, or
    /// before it where `offset` is negative. A point in time beyond what the
    /// seconds can count is replaced by the last one they can, on that side.
    pub open spec fn at_offset(offset: int) -> Timestamp {
        let seconds = offset / (NANOS_PER_SECOND as int);
        let nanos = offset % (NANOS_PER_SECOND as int);
        if seconds > i64::MAX {
            Timestamp { seconds: i64::MAX, nanos: (NANOS_PER_SECOND - 1) as u32 }
        } else if seconds < i64::MIN {
            Timestamp { seconds: i64::MIN, nanos: 0 }
        } else {
            Timestamp { seconds: seconds as i64, nanos: nanos as u32 }
        }
    }

    /// How many nanoseconds after the epoch this point in time lies.
    pub open spec fn offset(&self) -> int {
        self.seconds as int * (NANOS_PER_SECOND as int) + self.nanos as int
    }

    /// The rendering of this point in time.
    pub open spec fn rendered(&self) -> Option<Seq<char>> {
        rfc3339_millis(self.seconds as int, self.nanos as int)
    }

    /// The point in time that lies `seconds` seconds and `nanos` nanoseconds
    /// after the epoch.
    pub fn after_epoch(seconds: u64, nanos: u32) -> (time: Timestamp)
        ensures
            time == Self::at_offset(seconds as int * (NANOS_PER_SECOND as int) + nanos as int),
    {
        assert(seconds * NANOS_PER_SECOND <= u64::MAX * NANOS_PER_SECOND) by (nonlinear_arith)
            requires
                seconds <= u64::MAX,
        ;
        let total: u128 = (seconds as u128) * (NANOS_PER_SECOND as u128) + (nanos as u128);
        let whole: u128 = total / (NANOS_PER_SECOND as u128);
        let rest: u128 = total % (NANOS_PER_SECOND as u128);
        if whole > i64::MAX as u128 {
            Timestamp { seconds: i64::MAX, nanos: NANOS_PER_SECOND - 1 }
        } else {
            Timestamp { seconds: whole as i64, nanos: rest as u32 }
        }
    }

    /// The point in time that lies `seconds` seconds and `nanos` nanoseconds
    /// before the epoch.
    pub fn before_epoch(seconds: u64, nanos: u32) -> (time: Timestamp)
        ensures
            time == Self::at_offset(-(seconds as int * (NANOS_PER_SECOND as int) + nanos as int)),
    {
        assert(seconds * NANOS_PER_SECOND <= u64::MAX * NANOS_PER_SECOND) by (nonlinear_arith)
            requires
                seconds <= u64::MAX,
        ;
        let total: u128 = (seconds as u128) * (NANOS_PER_SECOND as u128) + (nanos as u128);
        let whole: u128 = total / (NANOS_PER_SECOND as u128);
        let rest: u128 = total % (NANOS_PER_SECOND as u128);
        // the seconds count downwards: a broken second belongs to the one below
        let below: u128 = if rest == 0 {
            whole
        } else {
            whole + 1
        };
        proof {
            lemma_negated_division(total as int, whole as int, rest as int);
        }
        if below > (i64::MAX as u128) + 1 {
            Timestamp { seconds: i64::MIN, nanos: 0 }
        } else if below == (i64::MAX as u128) + 1 {
            Timestamp {
                seconds: i64::MIN,
                nanos: if rest == 0 {
                    0
                } else {
                    NANOS_PER_SECOND - (rest as u32)
                },
            }
        } else {
            Timestamp {
                seconds: -(below as i64),
                nanos: if rest == 0 {
                    0
                } else {
                    NANOS_PER_SECOND - (rest as u32)
                },
            }
        }
    }

    /// Renders this point in time as RFC 3339 text in UTC with millisecond
    /// precision.
    pub fn render(&self) -> (text: Option<String>)
        ensures
            optional_text(text) == self.rendered(),
    {
        rfc3339_millis_text(self.seconds, self.nanos)
    }
}

/// Division of a negated number: where `total` is `whole` seconds and `rest`
/// nanoseconds, `-total` is `-whole` seconds where nothing is left over, and
/// otherwise one second less with the remainder counted from below.
proof fn lemma_negated_division(total: int, whole: int, rest: int)
    requires
        0 <= rest < NANOS_PER_SECOND,
        total == whole * (NANOS_PER_SECOND as int) + rest,
    ensures
        rest == 0 ==> (-total) / (NANOS_PER_SECOND as int) == -whole && (-total) % (
        NANOS_PER_SECOND as int) == 0,
        rest != 0 ==> (-total) / (NANOS_PER_SECOND as int) == -whole - 1 && (-total) % (
        NANOS_PER_SECOND as int) == NANOS_PER_SECOND - rest,
{
    let d = NANOS_PER_SECOND as int;
    if rest == 0 {
        vstd::arithmetic::div_mod::lemma_fundamental_div_mod_converse(-total, d, -whole, 0);
    } else {
        vstd::arithmetic::div_mod::lemma_fundamental_div_mod_converse(
            -total,
            d,
            -whole - 1,
            d - rest,
        );
    }
}

/// Every point in time that the seconds can count is kept exactly.
pub proof fn lemma_at_offset_exact(offset: int)
    requires
        i64::MIN * (NANOS_PER_SECOND as int) <= offset < (i64::MAX + 1) * (NANOS_PER_SECOND as int),
    ensures
        Timestamp::at_offset(offset).offset() == offset,
        Timestamp::at_offset(offset).nanos < NANOS_PER_SECOND,
{
    let d = NANOS_PER_SECOND as int;
    vstd::arithmetic::div_mod::lemma_fundamental_div_mod(offset, d);
    vstd::arithmetic::div_mod::lemma_mod_bound(offset, d);
    vstd::arithmetic::div_mod::lemma_div_is_ordered(i64::MIN * d, offset, d);
    vstd::arithmetic::div_mod::lemma_div_multiples_vanish(i64::MIN as int, d);
    if offset / d > i64::MAX {
        vstd::arithmetic::mul::lemma_mul_inequality(i64::MAX + 1, offset / d, d);
        assert(d * (offset / d) == (offset / d) * d) by (nonlinear_arith);
    }
    assert(d * (offset / d) == (offset / d) * d) by (nonlinear_arith);
}

} // verus!

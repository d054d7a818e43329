use vstd::prelude::*;

verus! {

/// Seconds of arc in one degree.
pub const SECONDS_PER_DEGREE: i128 = 3600;

/// A geometric angle as whole degrees, minutes and seconds of arc.
///
/// The three parts carry the sign of the angle: `-1° -30' 0"` is
/// minus one and a half degrees.
#[derive(Clone, Copy, Debug, PartialEq, Eq, Structural)]
pub struct Degree {
    pub degree: i16,
    pub minute: i16,
    pub second: i16,
}

/// The angle in seconds of arc.
pub open spec fn total_seconds(d: Degree) -> int {
    d.degree as int * 3600 + d.minute as int * 60 + d.second as int
}

/// `d` is the canonical decomposition: minutes and seconds under sixty,
/// every part of the same sign as the whole.
pub open spec fn is_normalized(d: Degree) -> bool {
    let t = total_seconds(d);
    &&& -60 < d.minute < 60
    &&& -60 < d.second < 60
    &&& t >= 0 ==> (d.degree >= 0 && d.minute >= 0 && d.second >= 0)
    &&& t <= 0 ==> (d.degree <= 0 && d.minute <= 0 && d.second <= 0)
}

/// Smallest whole-second angle whose degree part still fits an `i16`.
pub const MIN_TOTAL_SECONDS: i128 = -117_968_399;

/// Largest whole-second angle whose degree part still fits an `i16`.
pub const MAX_TOTAL_SECONDS: i128 = 117_964_799;

impl Degree {
    pub fn new(degree: i16, minute: i16, second: i16) -> (r: Degree)
        ensures
            r.degree == degree,
            r.minute == minute,
            r.second == second,
    {
        Degree { degree, minute, second }
    }

    /// Splits an angle given in whole seconds of arc into degrees,
    /// minutes and seconds, each truncated toward zero.
    pub fn from_seconds(seconds: i128) -> (r: Degree)
        requires
            MIN_TOTAL_SECONDS <= seconds <= MAX_TOTAL_SECONDS,
        ensures
            total_seconds(r) == seconds,
            is_normalized(r),
    {
        let negative = seconds < 0;
        let magnitude: u128 = if negative { (-seconds) as u128 } else { seconds as u128 };
        let d: u128 = magnitude / 3600;
        let rest: u128 = magnitude % 3600;
        let m: u128 = rest / 60;
        let s: u128 = rest % 60;
        assert(magnitude == d * 3600 + m * 60 + s) by (nonlinear_arith)
            requires
                d == magnitude / 3600,
                rest == magnitude % 3600,
                m == rest / 60,
                s == rest % 60,
        ;
        assert(d <= 32768) by (nonlinear_arith)
            requires
                d == magnitude / 3600,
                magnitude <= 117_968_399,
        ;
        assert(negative == false ==> d <= 32767) by (nonlinear_arith)
            requires
                d == magnitude / 3600,
                negative == false ==> magnitude <= 117_964_799,
        ;
        if negative {
            Degree { degree: -(d as i32) as i16, minute: -(m as i16), second: -(s as i16) }
        } else {
            Degree { degree: d as i16, minute: m as i16, second: s as i16 }
        }
    }
}

} // verus!

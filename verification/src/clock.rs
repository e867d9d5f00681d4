//! Clock-face arithmetic: the time-of-day text the face shows, and the
//! frame timing of the animated underline beneath it.
//!
//! The caller reads the wall clock and hands the hour, minute and second in
//! as plain values; everything rendered from them is computed here.

use vstd::prelude::*;

use crate::cache::{decimal_chars, digit_char, u64_to_decimal};
use crate::settings::ClockSettings;
use vstd::string::StringExecFns;

verus! {

/// A wall-clock time of day.
#[derive(Clone, Copy, Debug, PartialEq, Eq, Structural)]
pub struct ClockTime {
    pub hour: u8,
    pub minute: u8,
    pub second: u8,
}

impl ClockTime {
    /// A valid time of day: the hour below 24, minute and second below 60.
    pub open spec fn wf(&self) -> bool {
        self.hour < 24 && self.minute < 60 && self.second < 60
    }
}

/// The hour a 12-hour face displays: 12 for 0 and 12, otherwise the hour
/// modulo 12.
pub open spec fn spec_display_hour(hour: u8) -> u8 {
    if hour % 12 == 0 {
        12u8
    } else {
        hour % 12
    }
}

/// Splits a 24-hour value into its 12-hour form: whether it is past noon,
/// and the displayed hour, between 1 and 12.
pub fn hour12(hour: u8) -> (r: (bool, u8))
    requires
        hour < 24,
    ensures
        r.0 == (hour >= 12),
        r.1 == spec_display_hour(hour),
        1 <= r.1 <= 12,
{
    let h = hour % 12;
    let display = if h == 0 {
        12
    } else {
        h
    };
    (hour >= 12, display)
}

/// A number below one hundred as exactly two digits, zero-padded.
pub open spec fn padded2(n: u8) -> Seq<char>
    recommends
        n < 100,
{
    seq![digit_char((n / 10) as nat), digit_char((n % 10) as nat)]
}

/// Renders a number below one hundred as two zero-padded digits.
pub fn two_digits(n: u8) -> (r: String)
    requires
        n < 100,
    ensures
        r@ == padded2(n),
{
    let digits = u64_to_decimal(n as u64);
    if n < 10 {
        let mut r = "0".to_owned();
        r.append(digits.as_str());
        proof {
            reveal_strlit("0");
            assert(r@ =~= padded2(n));
        }
        r
    } else {
        proof {
            assert(decimal_chars((n / 10) as nat) =~= seq![digit_char((n / 10) as nat)]);
            assert(digits@ =~= padded2(n));
        }
        digits
    }
}

/// The text the clock face shows for a time: the hour (12-hour unless the
/// settings ask for 24), a colon, the zero-padded minute, then the second if
/// the settings show seconds, and an AM/PM suffix on a 12-hour face.
pub open spec fn spec_clock_text(time: ClockTime, seconds: bool, hour_24: bool) -> Seq<char> {
    let hour_chars = if hour_24 {
        decimal_chars(time.hour as nat)
    } else {
        decimal_chars(spec_display_hour(time.hour) as nat)
    };
    let base = hour_chars + ":"@ + padded2(time.minute);
    let with_seconds = if seconds {
        base + ":"@ + decimal_chars(time.second as nat)
    } else {
        base
    };
    if hour_24 {
        with_seconds
    } else {
        with_seconds + (if time.hour >= 12 {
            " PM"@
        } else {
            " AM"@
        })
    }
}

/// Renders the clock face's text for a time under the given settings.
pub fn clock_text(time: &ClockTime, settings: &ClockSettings) -> (r: String)
    requires
        time.wf(),
    ensures
        r@ == spec_clock_text(*time, settings.seconds, settings.hour_24),
{
    let mut r = if settings.hour_24 {
        u64_to_decimal(time.hour as u64)
    } else {
        let (_is_pm, h) = hour12(time.hour);
        u64_to_decimal(h as u64)
    };
    r.append(":");
    let minutes = two_digits(time.minute);
    r.append(minutes.as_str());
    if settings.seconds {
        r.append(":");
        let secs = u64_to_decimal(time.second as u64);
        r.append(secs.as_str());
    }
    if !settings.hour_24 {
        if time.hour >= 12 {
            r.append(" PM");
        } else {
            r.append(" AM");
        }
    }
    proof {
        assert(r@ =~= spec_clock_text(*time, settings.seconds, settings.hour_24));
    }
    r
}

/// A tick of the underline animation beneath the clock.
pub enum UnderlineMessage {
    Tick,
}

/// Converts a frame rate to the microsecond delta between frames.
pub fn calculate_delta(framerate: u32) -> (r: u32)
    requires
        1 <= framerate,
    ensures
        r == 1000000u32 / framerate,
{
    1000000 / framerate
}

} // verus!

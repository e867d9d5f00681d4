//! Display settings: explicit configuration values handed to the components
//! at construction time.

use vstd::prelude::*;

verus! {

/// Credentials of the wireless network the display joins.
pub struct WifiSettings {
    pub ssid: String,
    pub psk: String,
}

/// How the clock face is rendered.
pub struct ClockSettings {
    /// Show a seconds field after the minutes.
    pub seconds: bool,
    /// Use a 24-hour clock and drop the meridiem suffix.
    pub hour_24: bool,
}

impl Default for ClockSettings {
    /// A plain 12-hour clock without seconds.
    fn default() -> (s: Self)
        ensures
            s.seconds == false,
            s.hour_24 == false,
    {
        ClockSettings { seconds: false, hour_24: false }
    }
}

/// Which font family the display uses.
pub struct ThemeSettings {
    pub font: String,
}

impl Default for ThemeSettings {
    /// The stock font.
    fn default() -> (s: Self)
        ensures
            s.font@ == "Roboto"@,
    {
        ThemeSettings { font: "Roboto".to_owned() }
    }
}

} // verus!

//! The battery's charging status as sysfs reports it.
use vstd::prelude::*;
use vstd::string::StringExecFns;
use crate::icon;
use crate::codec::opt_view;
use crate::text::{owned, str_eq, trim, trimmed};

verus! {

/// The symbol for a sysfs battery status (white space around it ignored),
/// or the error message for a status that is not known.
pub open spec fn status_icon(status: Seq<char>) -> Result<char, Seq<char>> {
    let s = trimmed(status);
    if s == "Charging"@ {
        Ok(icon::HOURGLASS)
    } else if s == "Discharging"@ {
        Ok(icon::BATTERY)
    } else if s == "Full"@ || s == "Idle"@ {
        Ok(icon::CABLE)
    } else {
        Err("Unknown Battery Status: "@ + s)
    }
}

/// The symbol for the battery status `status`.
pub fn battery_icon(status: &str) -> (r: Result<char, String>)
    ensures
        match status_icon(status@) {
            Ok(c) => r == Ok::<char, String>(c),
            Err(m) => r matches Err(m2) && m2@ == m,
        },
{
    let s = trim(status);
    if str_eq(s, "Charging") {
        Ok(icon::HOURGLASS)
    } else if str_eq(s, "Discharging") {
        Ok(icon::BATTERY)
    } else if str_eq(s, "Full") || str_eq(s, "Idle") {
        Ok(icon::CABLE)
    } else {
        let mut m = owned("Unknown Battery Status: ");
        m.append(s);
        Err(m)
    }
}

/// Whether the charge changes in status `status`, so that a charging or
/// discharging rate can be followed.
pub fn is_changing(status: &str) -> (r: bool)
    ensures
        r == (trimmed(status@) == "Charging"@ || trimmed(status@) == "Discharging"@),
{
    let s = trim(status);
    str_eq(s, "Charging") || str_eq(s, "Discharging")
}

/// One report of the battery's sysfs files: the design capacity, the
/// current charge, or the status text.
#[derive(Debug, PartialEq, Eq)]
pub enum Which {
    Full(u32),
    Now(u32),
    State(String),
}

/// What the battery block needs next.
#[derive(Debug, PartialEq, Eq)]
pub enum BatteryStep {
    /// Not every value has been read yet.
    Waiting,
    /// The status is not known; the message is to be shown as an error.
    Unknown(String),
    /// The block can be shown: charge and capacity, the status symbol, and
    /// whether the charge is changing.
    Show { full: u32, now: u32, icon: char, changing: bool },
}

/// The latest capacity, charge and status of the battery.
#[derive(Debug)]
pub struct BatteryState {
    pub full: Option<u32>,
    pub now: Option<u32>,
    pub state: Option<String>,
}

/// Whether reading `item` changes the status, so that a rate followed so
/// far no longer applies.
pub open spec fn resets_rate(state: Option<Seq<char>>, item: Which) -> bool {
    match item {
        Which::State(s) => state is None || state != Some(s@),
        _ => false,
    }
}

impl BatteryState {
    /// Nothing read yet.
    pub fn new() -> (b: BatteryState)
        ensures
            b.full is None,
            b.now is None,
            b.state is None,
    {
        BatteryState { full: None, now: None, state: None }
    }

    /// Takes one report. Gives back whether the status changed, and what
    /// the block needs: once all three values are known, the status symbol
    /// (or the error for an unknown status) and the values to show.
    pub fn on_item(&mut self, item: Which) -> (r: (bool, BatteryStep))
        ensures
            r.0 == resets_rate(opt_view(old(self).state), item),
            final(self).full == (match item {
                Which::Full(f) => Some(f),
                _ => old(self).full,
            }),
            final(self).now == (match item {
                Which::Now(n) => Some(n),
                _ => old(self).now,
            }),
            opt_view(final(self).state) == (match item {
                Which::State(s) => Some(s@),
                _ => opt_view(old(self).state),
            }),
            match (final(self).full, final(self).now, opt_view(final(self).state)) {
                (Some(f), Some(n), Some(s)) => match status_icon(s) {
                    Ok(c) => r.1 == BatteryStep::Show {
                        full: f,
                        now: n,
                        icon: c,
                        changing: trimmed(s) == "Charging"@ || trimmed(s) == "Discharging"@,
                    },
                    Err(m) => r.1 matches BatteryStep::Unknown(m2) && m2@ == m,
                },
                _ => r.1 == BatteryStep::Waiting,
            },
    {
        let mut reset = false;
        match item {
            Which::Full(f) => {
                self.full = Some(f);
            },
            Which::Now(n) => {
                self.now = Some(n);
            },
            Which::State(s) => {
                reset = match &self.state {
                    Some(prev) => !str_eq(prev.as_str(), s.as_str()),
                    None => true,
                };
                self.state = Some(s);
            },
        }
        let step = match (self.full, self.now, &self.state) {
            (Some(full), Some(now), Some(state)) => match battery_icon(state.as_str()) {
                Ok(icon) => BatteryStep::Show { full, now, icon, changing: is_changing(state.as_str()) },
                Err(m) => BatteryStep::Unknown(m),
            },
            _ => BatteryStep::Waiting,
        };
        (reset, step)
    }
}

} // verus!

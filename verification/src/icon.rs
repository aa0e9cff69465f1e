//! The symbols that the bar puts in front of its texts.
use vstd::prelude::*;

verus! {

pub const LOW_BRIGHTNESS: char = '\u{1F505}';
pub const HIGH_BRIGHTNESS: char = '\u{1F506}';
pub const HOURGLASS: char = '\u{23F3}';
pub const BATTERY: char = '\u{1F50B}';
pub const CABLE: char = '\u{1F50C}';
pub const NOTE: char = '\u{1F3B5}';
pub const PAUSED: char = '\u{23F8}';
pub const STOPPED: char = '\u{23F9}';
pub const RAM: char = '\u{1F40F}';
pub const FLOPPY: char = '\u{1F4BE}';
pub const CALENDAR: char = '\u{1F4C5}';
pub const MINIDISK: char = '\u{1F4BD}';
pub const LAN: char = '\u{1F5A7}';
pub const WIFI: char = '\u{1F4F6}';
/// A combining long stroke: pushed right after a symbol, it strikes it out.
pub const STRIKETHROUGH: char = '\u{0336}';
pub const PC: char = '\u{1F4BB}';
pub const LIGHTNING: char = '\u{26A1}';
pub const WARNING: char = '\u{26A0}';

/// Clock faces by half hour, starting at twelve o'clock: index `2 * h` shows
/// `h` o'clock (twelve for 0) and `2 * h + 1` half past.
pub open spec fn clocks() -> Seq<char> {
    seq![
        '\u{1F55B}', '\u{1F567}', '\u{1F550}', '\u{1F55C}', '\u{1F551}', '\u{1F55D}',
        '\u{1F552}', '\u{1F55E}', '\u{1F553}', '\u{1F55F}', '\u{1F554}', '\u{1F560}',
        '\u{1F555}', '\u{1F561}', '\u{1F556}', '\u{1F562}', '\u{1F557}', '\u{1F563}',
        '\u{1F558}', '\u{1F564}', '\u{1F559}', '\u{1F565}', '\u{1F55A}', '\u{1F566}',
    ]
}

/// The course of a day in five steps: night, sunrise, day, sunset, night.
pub open spec fn cycle() -> Seq<char> {
    seq!['\u{1F303}', '\u{1F305}', '\u{1F31E}', '\u{1F307}', '\u{1F303}']
}

/// The clock face at `index` of [`clocks`].
pub fn clock(index: usize) -> (c: char)
    requires
        index < 24,
    ensures
        c == clocks()[index as int],
{
    match index {
        0 => '\u{1F55B}',
        1 => '\u{1F567}',
        2 => '\u{1F550}',
        3 => '\u{1F55C}',
        4 => '\u{1F551}',
        5 => '\u{1F55D}',
        6 => '\u{1F552}',
        7 => '\u{1F55E}',
        8 => '\u{1F553}',
        9 => '\u{1F55F}',
        10 => '\u{1F554}',
        11 => '\u{1F560}',
        12 => '\u{1F555}',
        13 => '\u{1F561}',
        14 => '\u{1F556}',
        15 => '\u{1F562}',
        16 => '\u{1F557}',
        17 => '\u{1F563}',
        18 => '\u{1F558}',
        19 => '\u{1F564}',
        20 => '\u{1F559}',
        21 => '\u{1F565}',
        22 => '\u{1F55A}',
        _ => '\u{1F566}',
    }
}

/// The symbol at `index` of [`cycle`].
pub fn day_cycle(index: usize) -> (c: char)
    requires
        index < 5,
    ensures
        c == cycle()[index as int],
{
    match index {
        0 => '\u{1F303}',
        1 => '\u{1F305}',
        2 => '\u{1F31E}',
        3 => '\u{1F307}',
        _ => '\u{1F303}',
    }
}

} // verus!

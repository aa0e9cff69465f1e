//! The clock: time and date blocks from the local time.
use vstd::prelude::*;
use vstd::string::StringExecFns;
use chrono::Timelike;
use crate::codec::{Block, BlockBuilder, BlockView, text_block};
use crate::controller::{Controller, ControllerView};
use crate::icon;
use crate::text::{decimal2, owned, push_char};

verus! {

/// A reading of the local clock.
pub struct LocalTime {
    pub hour: u32,
    pub minute: u32,
    /// The time written as `%T`, that is `%H:%M:%S`.
    pub time: String,
    /// The date written as `%F`, that is `%Y-%m-%d`.
    pub date: String,
}

/// A reading as plain values: hour, minute, time text, date text.
pub open spec fn reading(t: LocalTime) -> (u32, u32, Seq<char>, Seq<char>) {
    (t.hour, t.minute, t.time@, t.date@)
}

/// What holds of every reading of the clock: an hour of the day, a minute
/// of the hour, and a time text that starts with both, zero-padded.
pub open spec fn valid_reading(t: (u32, u32, Seq<char>, Seq<char>)) -> bool {
    &&& t.0 < 24
    &&& t.1 < 60
    &&& t.2.len() == 8
    &&& t.2.take(6) == decimal2(t.0 as nat) + seq![':'] + decimal2(t.1 as nat) + seq![':']
}

/// Reads the local clock with chrono's `Local::now`, then its hour and
/// minute (`Timelike`: 0 to 23 and 0 to 59) and its `format("%T")` and
/// `format("%F")` texts. `%T` is `%H:%M:%S` with each field zero-padded to
/// two digits (the second may read 60 in a leap second). What the date text
/// holds is left unsaid here: it depends on the day.
#[verifier::external_body]
fn local_now() -> (t: LocalTime)
    ensures
        valid_reading(reading(t)),
{
    let now = chrono::Local::now();
    LocalTime {
        hour: now.hour(),
        minute: now.minute(),
        time: now.format("%T").to_string(),
        date: now.format("%F").to_string(),
    }
}

/// The clock face for `hour:minute`: the half hour, rounded to the nearest,
/// on a twelve-hour dial.
pub open spec fn clock_index(hour: nat, minute: nat) -> nat {
    ((hour % 12) * 2 + (minute + 15) / 30) % 24
}

/// Every time of day has a clock face and a day-cycle symbol.
pub proof fn law_every_time_has_faces(hour: nat, minute: nat)
    requires
        hour < 24,
    ensures
        clock_index(hour, minute) < 24,
        (hour + 2) / 6 < 5,
{
}

/// The time block: clock face, time and day-cycle symbol, named `time`.
pub open spec fn time_block(t: (u32, u32, Seq<char>, Seq<char>)) -> BlockView {
    BlockView {
        name: Some("time"@),
        ..text_block(
            seq![icon::clocks()[clock_index(t.0 as nat, t.1 as nat) as int], ' '] + t.2 + seq![
                ' ',
                icon::cycle()[((t.0 + 2) / 6) as int],
            ],
        )
    }
}

/// The date block: calendar and date, named `date`.
pub open spec fn date_block(t: (u32, u32, Seq<char>, Seq<char>)) -> BlockView {
    BlockView { name: Some("date"@), ..text_block(seq![icon::CALENDAR, ' '] + t.3) }
}

/// The time and date blocks for the clock reading `now`.
pub fn clock_blocks(now: &LocalTime) -> (r: (Block, Block))
    requires
        now.hour < 24,
        now.minute < 60,
    ensures
        r.0@ == time_block(reading(*now)),
        r.1@ == date_block(reading(*now)),
{
    let offset = ((now.hour % 12) * 2 + (now.minute + 15) / 30) % 24;
    let clock = icon::clock(offset as usize);
    let sun = icon::day_cycle(((now.hour + 2) / 6) as usize);
    let mut text = String::new();
    push_char(&mut text, clock);
    push_char(&mut text, ' ');
    text.append(now.time.as_str());
    push_char(&mut text, ' ');
    push_char(&mut text, sun);
    assert(text@ =~= time_block(reading(*now)).full_text);
    let time = BlockBuilder::new(text).name(owned("time")).build();
    let mut text = String::new();
    push_char(&mut text, icon::CALENDAR);
    push_char(&mut text, ' ');
    text.append(now.date.as_str());
    assert(text@ =~= date_block(reading(*now)).full_text);
    let date = BlockBuilder::new(text).name(owned("date")).build();
    (time, date)
}

/// Shows the current local time and date.
pub fn time(controller: &mut Controller)
    requires
        old(controller).wf(),
    ensures
        final(controller).wf(),
        exists|t: (u32, u32, Seq<char>, Seq<char>)|
            valid_reading(t) && final(controller)@ == (ControllerView {
                time: Some(time_block(t)),
                date: Some(date_block(t)),
                ..old(controller)@
            }),
{
    let now = local_now();
    let (time, date) = clock_blocks(&now);
    controller.set_time(time);
    controller.set_date(date);
    assert(valid_reading(reading(now)));
}

} // verus!

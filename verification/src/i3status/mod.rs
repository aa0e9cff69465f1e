//! Turning i3status output into blocks of the bar: each element gets a
//! symbol in front of its text and lands in the controller slot of its
//! source.
use vstd::prelude::*;
use vstd::string::{StrSliceExecFns, StringExecFns};
use chrono::{TimeZone, Timelike};
use crate::codec::{Block, BlockView, Markup};
use crate::controller::{
    block_views, error_block, status_line, Controller, ControllerView,
};
use crate::icon;
use crate::text::{
    decimal2, owned, push_char, split, split_on, str_eq, starts_with, views,
};

pub mod codec;

use self::codec::{Element, ElementView};

verus! {

/// `t` with `icon` and a space in front.
pub open spec fn with_icon(icon: char, t: Seq<char>) -> Seq<char> {
    seq![icon, ' '] + t
}

/// A network's text: the icon struck out when there is no text, else the
/// icon and the text.
pub open spec fn network_text(t: Seq<char>, icon: char) -> Seq<char> {
    if t.len() == 0 {
        seq![icon, icon::STRIKETHROUGH]
    } else {
        with_icon(icon, t)
    }
}

/// `e` showing `t` instead of its text.
pub open spec fn retext(e: ElementView, t: Seq<char>) -> ElementView {
    ElementView { full_text: t, ..e }
}

/// Whether i3status's battery text can be read: either `No battery`, or at
/// least three space-separated fields (status, percentage, remaining time).
pub open spec fn battery_readable(t: Seq<char>) -> bool {
    t == "No battery"@ || split_on(t, ' ').len() >= 3
}

/// The battery text of the bar for i3status's text `t`, or the error for an
/// unknown status.
pub open spec fn battery_text(t: Seq<char>) -> Result<Seq<char>, Seq<char>> {
    if t == "No battery"@ {
        Ok(seq![icon::BATTERY, icon::STRIKETHROUGH])
    } else {
        let f = split_on(t, ' ');
        let status = f[0];
        if status == "BAT"@ {
            Ok(with_icon(icon::BATTERY, f[1] + seq![' '] + f[2]))
        } else if status == "CHR"@ {
            Ok(with_icon(icon::HOURGLASS, f[1] + seq![' '] + f[2]))
        } else if status == "FULL"@ {
            Ok(with_icon(icon::CABLE, f[1] + seq![' '] + f[2]))
        } else {
            Err("Unknown Battery Status: "@ + status)
        }
    }
}

/// The load symbol: a lightning when i3status colors the load red, a
/// warning sign otherwise.
pub open spec fn load_icon(color: Option<Seq<char>>) -> char {
    if color == Some("#FF0000"@) {
        icon::LIGHTNING
    } else {
        icon::WARNING
    }
}

/// What `DateTime::parse_from_str`-style parsing of `text` with the format
/// `%H:%M %m/%d/%Y` in UTC gives: hour, minute, and the date-time written
/// back as `%H:%M` and as `%m/%d/%Y`; `None` where the text does not parse.
pub uninterp spec fn status_time(text: Seq<char>) -> Option<(u32, u32, Seq<char>, Seq<char>)>;

/// The index of the clock face for `hour:minute` as i3status times are
/// shown: the half hour, rounded to the nearest (without wrapping past
/// half past eleven).
pub open spec fn status_clock_index(hour: nat, minute: nat) -> nat {
    (hour % 12) * 2 + (minute + 15) / 30
}

/// The index of the day-cycle symbol for `hour`.
pub open spec fn cycle_index(hour: nat) -> nat {
    (hour + 2) / 6
}

/// Whether a parsed time can be shown: its clock face exists.
pub open spec fn time_showable(t: (u32, u32, Seq<char>, Seq<char>)) -> bool {
    t.0 < 24 && t.1 < 60 && status_clock_index(t.0 as nat, t.1 as nat) < 24
}

/// The text of the bar for a parsed time: clock face, time, day-cycle
/// symbol, calendar and date.
pub open spec fn time_text(t: (u32, u32, Seq<char>, Seq<char>)) -> Seq<char> {
    seq![icon::clocks()[status_clock_index(t.0 as nat, t.1 as nat) as int], ' '] + t.2 + seq![
        ' ',
        icon::cycle()[cycle_index(t.0 as nat) as int],
        ' ',
        icon::CALENDAR,
        ' ',
    ] + t.3
}

/// A time read from i3status's text.
pub struct StatusTime {
    pub hour: u32,
    pub minute: u32,
    /// The time written as `%H:%M`.
    pub time: String,
    /// The date written as `%m/%d/%Y`.
    pub date: String,
}

/// The parts of a [`StatusTime`] as plain values.
pub open spec fn status_time_parts(t: StatusTime) -> (u32, u32, Seq<char>, Seq<char>) {
    (t.hour, t.minute, t.time@, t.date@)
}

/// Parses `text` with chrono's `TimeZone::datetime_from_str` on `Utc` and
/// the format `%H:%M %m/%d/%Y`, then reads the hour and minute (chrono's
/// `Timelike`: 0 to 23 and 0 to 59) and writes the date-time back with
/// `format("%H:%M")` and `format("%m/%d/%Y")`; `%H` and `%M` are zero-padded
/// to two digits. The result as a whole is named by [`status_time`].
#[verifier::external_body]
fn parse_status_time(text: &str) -> (r: Option<StatusTime>)
    ensures
        match r {
            Some(t) => status_time(text@) == Some(status_time_parts(t)),
            None => status_time(text@) is None,
        },
        r matches Some(t) ==> t.hour < 24 && t.minute < 60 && t.time@ == decimal2(t.hour as nat)
            + seq![':'] + decimal2(t.minute as nat),
{
    #[allow(deprecated)]
    match chrono::Utc.datetime_from_str(text, "%H:%M %m/%d/%Y") {
        Ok(dt) => Some(
            StatusTime {
                hour: dt.hour(),
                minute: dt.minute(),
                time: dt.format("%H:%M").to_string(),
                date: dt.format("%m/%d/%Y").to_string(),
            },
        ),
        Err(_) => None,
    }
}

/// Whether i3status's line can be turned into the bar's blocks: battery
/// texts can be read and time texts parse to a time with a clock face.
pub open spec fn element_readable(e: ElementView) -> bool {
    &&& e.name == "battery"@ ==> battery_readable(e.full_text)
    &&& e.name == "time"@ ==> (status_time(e.full_text) matches Some(t) && time_showable(t))
}

/// The block of the bar that shows element `e`.
pub open spec fn block_of(e: ElementView) -> BlockView {
    BlockView {
        full_text: e.full_text,
        short_text: None,
        color: e.color,
        background: None,
        border: None,
        min_width: None,
        align: None,
        name: Some(e.name),
        instance: e.instance,
        urgent: None,
        separator: None,
        separator_block_width: None,
        markup: if e.markup == "pango"@ {
            Markup::Pango
        } else {
            Markup::Plain
        },
    }
}

/// The bar as it is being brought up to date with one i3status line: the
/// bar itself and the network and unknown blocks collected so far.
pub ghost struct StatusAcc {
    pub bar: ControllerView,
    pub networks: Seq<BlockView>,
    pub unknown: Seq<BlockView>,
}

/// What one element of an i3status line does to the bar.
pub open spec fn status_step(acc: StatusAcc, e: ElementView) -> StatusAcc {
    let bar = acc.bar;
    if e.name == "disk_info"@ {
        StatusAcc {
            bar: ControllerView {
                disk_info: Some(block_of(retext(e, with_icon(icon::MINIDISK, e.full_text)))),
                ..bar
            },
            ..acc
        }
    } else if e.name == "ethernet"@ {
        StatusAcc {
            networks: acc.networks.push(
                block_of(retext(e, network_text(e.full_text, icon::LAN))),
            ),
            ..acc
        }
    } else if e.name == "wireless"@ {
        StatusAcc {
            networks: acc.networks.push(
                block_of(retext(e, network_text(e.full_text, icon::WIFI))),
            ),
            ..acc
        }
    } else if e.name == "battery"@ {
        match battery_text(e.full_text) {
            Ok(t) => StatusAcc {
                bar: ControllerView { battery: Some(block_of(retext(e, t))), ..bar },
                ..acc
            },
            Err(m) => StatusAcc {
                bar: ControllerView {
                    errors: bar.errors.push(error_block(m, bar.error_idx as nat)),
                    error_idx: (bar.error_idx + 1) as u64,
                    ..bar
                },
                ..acc
            },
        }
    } else if e.name == "cpu_usage"@ {
        StatusAcc {
            bar: ControllerView {
                cpu_usage: Some(block_of(retext(e, with_icon(icon::PC, e.full_text)))),
                ..bar
            },
            ..acc
        }
    } else if e.name == "load"@ {
        StatusAcc {
            bar: ControllerView {
                load: Some(block_of(retext(e, with_icon(load_icon(e.color), e.full_text)))),
                ..bar
            },
            ..acc
        }
    } else if e.name == "time"@ {
        StatusAcc {
            bar: ControllerView {
                time: Some(block_of(retext(e, time_text(status_time(e.full_text).unwrap())))),
                ..bar
            },
            ..acc
        }
    } else {
        StatusAcc { unknown: acc.unknown.push(block_of(e)), ..acc }
    }
}

/// What the elements `es` do to the bar, one after the other.
pub open spec fn status_fold(acc: StatusAcc, es: Seq<ElementView>) -> StatusAcc
    decreases es.len(),
{
    if es.len() == 0 {
        acc
    } else {
        status_fold(status_step(acc, es[0]), es.drop_first())
    }
}

/// The bar after one i3status line `es`: the element slots as the line
/// sets them, and the networks and unknown blocks replaced by those of the
/// line.
pub open spec fn apply_line(bar: ControllerView, es: Seq<ElementView>) -> ControllerView {
    let acc = status_fold(StatusAcc { bar, networks: Seq::empty(), unknown: Seq::empty() }, es);
    ControllerView { networks: acc.networks, unknown: acc.unknown, ..acc.bar }
}

/// The views of a sequence of elements.
pub open spec fn element_views(es: Seq<Element>) -> Seq<ElementView> {
    es.map_values(|e: Element| e@)
}

/// An i3status time has a clock face except in the last quarter hour
/// before twelve (from 11:45 and from 23:45), where rounding to the nearest
/// half hour would pass the last face.
pub proof fn law_status_clock_face(hour: nat, minute: nat)
    requires
        hour < 24,
        minute < 60,
    ensures
        status_clock_index(hour, minute) < 24 <==> !(hour % 12 == 11 && minute >= 45),
        cycle_index(hour) < 5,
{
}

/// The day-cycle symbol of a shown i3status time follows its hour `h`: it
/// is the symbol at `(h + 2) / 6` of the day's cycle, so night before 4:00
/// and from 22:00, sunrise from 4:00, day from 10:00 and sunset from 16:00.
/// It stands after the clock face, a space, the time text and a space.
pub proof fn law_status_time_cycle(t: (u32, u32, Seq<char>, Seq<char>))
    requires
        t.0 < 24,
    ensures
        time_text(t)[t.2.len() as int + 3] == icon::cycle()[((t.0 + 2) / 6) as int],
        t.0 < 4 || t.0 >= 22 ==> time_text(t)[t.2.len() as int + 3] == '\u{1F303}',
        4 <= t.0 < 10 ==> time_text(t)[t.2.len() as int + 3] == '\u{1F305}',
        10 <= t.0 < 16 ==> time_text(t)[t.2.len() as int + 3] == '\u{1F31E}',
        16 <= t.0 < 22 ==> time_text(t)[t.2.len() as int + 3] == '\u{1F307}',
        time_text(t)[t.2.len() as int + 2] == ' ',
        time_text(t)[t.2.len() as int + 4] == ' ',
        time_text(t)[t.2.len() as int + 5] == icon::CALENDAR,
{
    let k = t.2.len() as int;
    let c = icon::clocks()[status_clock_index(t.0 as nat, t.1 as nat) as int];
    let sun = icon::cycle()[cycle_index(t.0 as nat) as int];
    let tail = seq![' ', sun, ' ', icon::CALENDAR, ' '];
    assert(time_text(t) == seq![c, ' '] + t.2 + tail + t.3);
    assert((seq![c, ' '] + t.2 + tail)[k + 3] == sun);
    assert((seq![c, ' '] + t.2 + tail)[k + 2] == ' ');
    assert((seq![c, ' '] + t.2 + tail)[k + 4] == ' ');
    assert((seq![c, ' '] + t.2 + tail)[k + 5] == icon::CALENDAR);
}

proof fn lemma_fold_collects_alike(a1: StatusAcc, a2: StatusAcc, es: Seq<ElementView>)
    requires
        a1.networks == a2.networks,
        a1.unknown == a2.unknown,
    ensures
        status_fold(a1, es).networks == status_fold(a2, es).networks,
        status_fold(a1, es).unknown == status_fold(a2, es).unknown,
    decreases es.len(),
{
    if es.len() > 0 {
        lemma_fold_collects_alike(status_step(a1, es[0]), status_step(a2, es[0]), es.drop_first());
    }
}

/// The networks and the unknown blocks that the bar shows after an i3status
/// line are those of the line alone, whatever the bar showed before.
pub proof fn law_line_replaces_networks(v1: ControllerView, v2: ControllerView, es: Seq<ElementView>)
    ensures
        apply_line(v1, es).networks == apply_line(v2, es).networks,
        apply_line(v1, es).unknown == apply_line(v2, es).unknown,
{
    lemma_fold_collects_alike(
        StatusAcc { bar: v1, networks: Seq::empty(), unknown: Seq::empty() },
        StatusAcc { bar: v2, networks: Seq::empty(), unknown: Seq::empty() },
        es,
    );
}

/// Drops the comma that separates the items of i3status's endless array.
pub fn strip_separator(line: &str) -> (r: &str)
    ensures
        r@ == (if line@.len() > 0 && line@[0] == ',' {
            line@.drop_first()
        } else {
            line@
        }),
{
    proof {
        reveal_strlit(",");
        assert(","@ =~= seq![',']);
    }
    if starts_with(line, ",") {
        let n = line.unicode_len();
        proof {
            assert(line@.take(1)[0] == ',');
            assert(line@.subrange(1, n as int) =~= line@.drop_first());
        }
        line.substring_char(1, n)
    } else {
        proof {
            reveal_strlit(",");
            if line@.len() > 0 && line@[0] == ',' {
                assert(line@.take(1) == ","@);
            }
        }
        line
    }
}

/// The block of the bar that shows `e`.
pub fn to_block(e: Element) -> (b: Block)
    ensures
        b@ == block_of(e@),
{
    let markup = if str_eq(e.markup.as_str(), "pango") {
        Markup::Pango
    } else {
        Markup::Plain
    };
    Block {
        full_text: e.full_text,
        short_text: None,
        color: e.color,
        background: None,
        border: None,
        min_width: None,
        align: None,
        name: Some(e.name),
        instance: e.instance,
        urgent: None,
        separator: None,
        separator_block_width: None,
        markup,
    }
}

fn icon_text(icon: char, t: &str) -> (r: String)
    ensures
        r@ == with_icon(icon, t@),
{
    let mut s = String::new();
    push_char(&mut s, icon);
    push_char(&mut s, ' ');
    s.append(t);
    assert(s@ =~= with_icon(icon, t@));
    s
}

pub fn disk_info(e: Element) -> (r: Element)
    ensures
        r@ == retext(e@, with_icon(icon::MINIDISK, e@.full_text)),
{
    let mut e = e;
    e.full_text = icon_text(icon::MINIDISK, e.full_text.as_str());
    e
}

pub fn ethernet(e: Element) -> (r: Element)
    ensures
        r@ == retext(e@, network_text(e@.full_text, icon::LAN)),
{
    let mut e = e;
    e.full_text = network(e.full_text.as_str(), icon::LAN);
    e
}

pub fn wireless(e: Element) -> (r: Element)
    ensures
        r@ == retext(e@, network_text(e@.full_text, icon::WIFI)),
{
    let mut e = e;
    e.full_text = network(e.full_text.as_str(), icon::WIFI);
    e
}

pub fn network(full_text: &str, icon: char) -> (s: String)
    ensures
        s@ == network_text(full_text@, icon),
{
    let mut s = String::new();
    push_char(&mut s, icon);
    if full_text.unicode_len() == 0 {
        push_char(&mut s, icon::STRIKETHROUGH);
        assert(s@ =~= seq![icon, icon::STRIKETHROUGH]);
    } else {
        push_char(&mut s, ' ');
        s.append(full_text);
        assert(s@ =~= with_icon(icon, full_text@));
    }
    s
}

pub fn battery(e: Element) -> (r: Result<Element, String>)
    requires
        battery_readable(e@.full_text),
    ensures
        match battery_text(e@.full_text) {
            Ok(t) => r matches Ok(e2) && e2@ == retext(e@, t),
            Err(m) => r matches Err(m2) && m2@ == m,
        },
{
    let mut e = e;
    if str_eq(e.full_text.as_str(), "No battery") {
        let mut s = String::new();
        push_char(&mut s, icon::BATTERY);
        push_char(&mut s, icon::STRIKETHROUGH);
        assert(s@ =~= seq![icon::BATTERY, icon::STRIKETHROUGH]);
        e.full_text = s;
        return Ok(e);
    }
    let fields = split(e.full_text.as_str(), ' ');
    proof {
        assert(views(fields@).len() == fields@.len());
        assert(views(fields@)[0] == fields@[0]@);
        assert(views(fields@)[1] == fields@[1]@);
        assert(views(fields@)[2] == fields@[2]@);
    }
    let status = fields[0].as_str();
    let percentage = fields[1].as_str();
    let remaining = fields[2].as_str();
    let icon = if str_eq(status, "BAT") {
        icon::BATTERY
    } else if str_eq(status, "CHR") {
        icon::HOURGLASS
    } else if str_eq(status, "FULL") {
        icon::CABLE
    } else {
        let mut m = owned("Unknown Battery Status: ");
        m.append(status);
        return Err(m);
    };
    let mut s = String::new();
    push_char(&mut s, icon);
    push_char(&mut s, ' ');
    s.append(percentage);
    push_char(&mut s, ' ');
    s.append(remaining);
    assert(s@ =~= with_icon(icon, percentage@ + seq![' '] + remaining@));
    e.full_text = s;
    Ok(e)
}

pub fn cpu_usage(e: Element) -> (r: Element)
    ensures
        r@ == retext(e@, with_icon(icon::PC, e@.full_text)),
{
    let mut e = e;
    e.full_text = icon_text(icon::PC, e.full_text.as_str());
    e
}

pub fn load(e: Element) -> (r: Element)
    ensures
        r@ == retext(e@, with_icon(load_icon(e@.color), e@.full_text)),
{
    let red = match &e.color {
        Some(c) => str_eq(c.as_str(), "#FF0000"),
        None => false,
    };
    let icon = if red {
        icon::LIGHTNING
    } else {
        icon::WARNING
    };
    let mut e = e;
    e.full_text = icon_text(icon, e.full_text.as_str());
    e
}

/// `e` showing the time `t` that its text was read as.
pub fn time_from(e: Element, t: &StatusTime) -> (r: Element)
    requires
        time_showable(status_time_parts(*t)),
    ensures
        r@ == retext(e@, time_text(status_time_parts(*t))),
        r@.full_text[t.time@.len() as int + 3] == icon::cycle()[((t.hour + 2) / 6) as int],
{
    proof {
        law_status_time_cycle(status_time_parts(*t));
    }
    let offset = (t.hour % 12) * 2 + (t.minute + 15) / 30;
    let clock = icon::clock(offset as usize);
    let sun = icon::day_cycle(((t.hour + 2) / 6) as usize);
    let mut s = String::new();
    push_char(&mut s, clock);
    push_char(&mut s, ' ');
    s.append(t.time.as_str());
    push_char(&mut s, ' ');
    push_char(&mut s, sun);
    push_char(&mut s, ' ');
    push_char(&mut s, icon::CALENDAR);
    push_char(&mut s, ' ');
    s.append(t.date.as_str());
    assert(s@ =~= time_text(status_time_parts(*t)));
    let mut e = e;
    e.full_text = s;
    e
}

/// `e` showing its time text as clock face, time, day-cycle symbol,
/// calendar and date.
pub fn time(e: Element) -> (r: Element)
    requires
        status_time(e@.full_text) matches Some(t) && time_showable(t),
    ensures
        r@ == retext(e@, time_text(status_time(e@.full_text).unwrap())),
{
    match parse_status_time(e.full_text.as_str()) {
        Some(t) => time_from(e, &t),
        None => {
            assert(false);
            e
        },
    }
}

/// Whether `e` can be shown, checked by reading its text.
pub fn readable(e: &Element) -> (r: bool)
    ensures
        r == element_readable(e@),
{
    if str_eq(e.name.as_str(), "battery") {
        if !str_eq(e.full_text.as_str(), "No battery") {
            let fields = split(e.full_text.as_str(), ' ');
            if fields.len() < 3 {
                return false;
            }
        }
    }
    if str_eq(e.name.as_str(), "time") {
        match parse_status_time(e.full_text.as_str()) {
            Some(t) => {
                if (t.hour % 12) * 2 + (t.minute + 15) / 30 >= 24 {
                    return false;
                }
            },
            None => {
                return false;
            },
        }
    }
    proof {
        reveal_strlit("battery");
        reveal_strlit("time");
    }
    true
}

fn step(controller: &mut Controller, e: Element, networks: &mut Vec<Block>, unknown: &mut Vec<Block>)
    requires
        old(controller).wf(),
        old(controller)@.error_idx < u64::MAX,
        element_readable(e@),
    ensures
        final(controller).wf(),
        status_step(
            StatusAcc {
                bar: old(controller)@,
                networks: block_views(old(networks)@),
                unknown: block_views(old(unknown)@),
            },
            e@,
        ) == (StatusAcc {
            bar: final(controller)@,
            networks: block_views(final(networks)@),
            unknown: block_views(final(unknown)@),
        }),
        final(controller)@.error_idx <= old(controller)@.error_idx + 1,
{
    proof {
        reveal_strlit("disk_info");
        reveal_strlit("ethernet");
        reveal_strlit("wireless");
        reveal_strlit("battery");
        reveal_strlit("cpu_usage");
        reveal_strlit("load");
        reveal_strlit("time");
    }
    let ghost nets0 = networks@;
    let ghost unk0 = unknown@;
    if str_eq(e.name.as_str(), "disk_info") {
        controller.set_disk_info(to_block(disk_info(e)));
    } else if str_eq(e.name.as_str(), "ethernet") {
        networks.push(to_block(ethernet(e)));
        assert(block_views(networks@) == block_views(nets0).push(networks@.last()@));
    } else if str_eq(e.name.as_str(), "wireless") {
        networks.push(to_block(wireless(e)));
        assert(block_views(networks@) == block_views(nets0).push(networks@.last()@));
    } else if str_eq(e.name.as_str(), "battery") {
        match battery(e) {
            Ok(e) => controller.set_battery(to_block(e)),
            Err(m) => {
                let ghost before = controller@;
                let ghost mv = m@;
                controller.push_error(m);
                assert(controller@.errors =~= before.errors.push(
                    error_block(mv, before.error_idx as nat),
                ));
            },
        }
    } else if str_eq(e.name.as_str(), "cpu_usage") {
        controller.set_cpu_usage(to_block(cpu_usage(e)));
    } else if str_eq(e.name.as_str(), "load") {
        controller.set_load(to_block(load(e)));
    } else if str_eq(e.name.as_str(), "time") {
        controller.set_time(to_block(time(e)));
    } else {
        unknown.push(to_block(e));
        assert(block_views(unknown@) == block_views(unk0).push(unknown@.last()@));
    }
}

/// Brings the bar up to date with one i3status line and gives back the
/// status line to write: each element is dressed with its symbol and set
/// in the slot of its source (a battery with an unknown status becomes an
/// error), the networks and unknown blocks are replaced by the line's.
pub fn apply(controller: &mut Controller, elements: Vec<Element>) -> (r: crate::codec::Element)
    requires
        old(controller).wf(),
        old(controller)@.error_idx + elements@.len() < u64::MAX,
        forall|i: int| 0 <= i < elements@.len() ==> element_readable(#[trigger] elements@[i]@),
    ensures
        final(controller).wf(),
        final(controller)@ == apply_line(old(controller)@, element_views(elements@)),
        r matches crate::codec::Element::Blocks(b) && block_views(b@) == status_line(
            final(controller)@,
        ),
{
    let mut networks: Vec<Block> = Vec::new();
    let mut unknown: Vec<Block> = Vec::new();
    let ghost es = element_views(elements@);
    let ghost init = StatusAcc {
        bar: old(controller)@,
        networks: Seq::empty(),
        unknown: Seq::empty(),
    };
    proof {
        assert(es.skip(0) == es);
        assert(block_views(networks@) == Seq::<BlockView>::empty());
        assert(block_views(unknown@) == Seq::<BlockView>::empty());
    }
    let mut i: usize = 0;
    while i < elements.len()
        invariant
            i <= elements@.len(),
            es == element_views(elements@),
            controller.wf(),
            controller@.error_idx <= old(controller)@.error_idx + i,
            old(controller)@.error_idx + elements@.len() < u64::MAX,
            forall|j: int| 0 <= j < elements@.len() ==> element_readable(#[trigger] elements@[j]@),
            status_fold(init, es) == status_fold(
                StatusAcc {
                    bar: controller@,
                    networks: block_views(networks@),
                    unknown: block_views(unknown@),
                },
                es.skip(i as int),
            ),
        decreases elements@.len() - i,
    {
        let e = elements[i].clone();
        proof {
            assert(es[i as int] == e@);
            assert(es.skip(i as int).drop_first() == es.skip(i + 1));
            assert(es.skip(i as int)[0] == e@);
            assert(element_readable(elements@[i as int]@));
        }
        step(controller, e, &mut networks, &mut unknown);
        i = i + 1;
    }
    proof {
        assert(es.skip(i as int).len() == 0);
    }
    controller.set_networks(networks);
    controller.set_unknown(unknown);
    controller.update()
}

/// [`apply`] where every element can be shown and the error index cannot
/// run out; `None`, with the bar left as it was, where one cannot.
pub fn checked_apply(controller: &mut Controller, elements: Vec<Element>) -> (r: Option<
    crate::codec::Element,
>)
    requires
        old(controller).wf(),
    ensures
        final(controller).wf(),
        r is Some <==> (old(controller)@.error_idx + elements@.len() < u64::MAX && forall|
            i: int,
        | 0 <= i < elements@.len() ==> element_readable(#[trigger] elements@[i]@)),
        r is Some ==> final(controller)@ == apply_line(old(controller)@, element_views(elements@)),
        r is Some ==> (r matches Some(crate::codec::Element::Blocks(b)) && block_views(b@)
            == status_line(final(controller)@)),
        r is None ==> final(controller)@ == old(controller)@,
{
    let idx = controller.error_index();
    if idx >= u64::MAX - (elements.len() as u64) || elements.len() as u64 >= u64::MAX {
        return None;
    }
    let mut i: usize = 0;
    while i < elements.len()
        invariant
            i <= elements@.len(),
            controller.wf(),
            controller@ == old(controller)@,
            forall|j: int| 0 <= j < i ==> element_readable(#[trigger] elements@[j]@),
        decreases elements@.len() - i,
    {
        if !readable(&elements[i]) {
            return None;
        }
        i = i + 1;
    }
    Some(apply(controller, elements))
}

} // verus!

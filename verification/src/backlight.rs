//! The screen brightness block, from the backlight's maximum and actual
//! brightness as sysfs reports them.
use vstd::prelude::*;
use crate::codec::{Block, BlockBuilder, BlockView, Element, text_block};
use crate::controller::{block_views, status_line, Controller, ControllerView};
use crate::icon;
use crate::text::{decimal, owned, push_char, push_decimal};

verus! {

/// A report of the two sysfs files that are watched together: the maximum
/// brightness, the actual brightness, or both at once.
#[derive(Debug, Clone, Copy, PartialEq, Eq, Structural)]
pub enum Reading {
    First(u32),
    Second(u32),
    Both(u32, u32),
}

/// The brightness symbol: dim below half of the maximum, bright otherwise.
pub open spec fn brightness_icon(max: u32, actual: u32) -> char {
    if actual < max / 2 {
        icon::LOW_BRIGHTNESS
    } else {
        icon::HIGH_BRIGHTNESS
    }
}

/// The sysfs directory of the backlight.
pub open spec fn backlight_dir() -> Seq<char> {
    "/sys/class/backlight/intel_backlight/"@
}

/// The brightness block: symbol and actual brightness, named `brightness`.
pub open spec fn backlight_view(max: u32, actual: u32) -> BlockView {
    BlockView {
        name: Some("brightness"@),
        instance: Some(backlight_dir()),
        ..text_block(seq![brightness_icon(max, actual), ' '] + decimal(actual as nat))
    }
}

/// The brightness block for the given maximum and actual brightness.
pub fn backlight_block(max: u32, actual: u32) -> (b: Block)
    ensures
        b@ == backlight_view(max, actual),
{
    let icon = if actual < max / 2 {
        icon::LOW_BRIGHTNESS
    } else {
        icon::HIGH_BRIGHTNESS
    };
    let mut text = String::new();
    push_char(&mut text, icon);
    push_char(&mut text, ' ');
    push_decimal(&mut text, actual as u64);
    assert(text@ =~= backlight_view(max, actual).full_text);
    BlockBuilder::new(text).name(owned("brightness")).instance(
        owned("/sys/class/backlight/intel_backlight/"),
    ).build()
}

/// The latest maximum and actual brightness, each once it was first read.
pub struct Backlight {
    pub max: Option<u32>,
    pub actual: Option<u32>,
}

/// The values after `item` was read.
pub open spec fn after_reading(max: Option<u32>, actual: Option<u32>, item: Reading) -> (
    Option<u32>,
    Option<u32>,
) {
    match item {
        Reading::First(m) => (Some(m), actual),
        Reading::Second(a) => (max, Some(a)),
        Reading::Both(m, a) => (Some(m), Some(a)),
    }
}

/// The latest reading wins: a reading of the maximum sets the maximum and
/// keeps the actual value, a reading of the actual brightness sets it and
/// keeps the maximum, whatever was read before; reading the actual value
/// twice keeps the second.
pub proof fn law_latest_reading(max: Option<u32>, actual: Option<u32>, m: u32, a: u32, a2: u32)
    ensures
        after_reading(max, actual, Reading::Second(a)) == (max, Some(a)),
        after_reading(max, actual, Reading::First(m)) == (Some(m), actual),
        after_reading(max, actual, Reading::Both(m, a)) == (Some(m), Some(a)),
        ({
            let (m1, a1) = after_reading(max, actual, Reading::Second(a));
            after_reading(m1, a1, Reading::Second(a2)).1 == Some(a2)
        }),
{
}

impl Backlight {
    /// Nothing read yet.
    pub fn new() -> (b: Backlight)
        ensures
            b.max is None,
            b.actual is None,
    {
        Backlight { max: None, actual: None }
    }

    /// Takes one reading. Once both values are known the brightness block
    /// is shown and the status line to write is given back.
    pub fn on_reading(&mut self, controller: &mut Controller, item: Reading) -> (r: Option<
        Element,
    >)
        requires
            old(controller).wf(),
        ensures
            final(controller).wf(),
            (final(self).max, final(self).actual) == after_reading(
                old(self).max,
                old(self).actual,
                item,
            ),
            item matches Reading::Second(a) ==> final(self).actual == Some(a) && final(self).max
                == old(self).max,
            item matches Reading::First(m) ==> final(self).max == Some(m) && final(self).actual
                == old(self).actual,
            item matches Reading::Both(m, a) ==> final(self).max == Some(m) && final(self).actual
                == Some(a),
            match (final(self).max, final(self).actual) {
                (Some(m), Some(a)) => {
                    &&& final(controller)@ == (ControllerView {
                        backlight: Some(backlight_view(m, a)),
                        ..old(controller)@
                    })
                    &&& r matches Some(Element::Blocks(b)) && block_views(b@) == status_line(
                        final(controller)@,
                    )
                },
                _ => r is None && final(controller)@ == old(controller)@,
            },
    {
        match item {
            Reading::First(m) => {
                self.max = Some(m);
            },
            Reading::Second(a) => {
                self.actual = Some(a);
            },
            Reading::Both(m, a) => {
                self.max = Some(m);
                self.actual = Some(a);
            },
        }
        match (self.max, self.actual) {
            (Some(m), Some(a)) => {
                controller.set_backlight(backlight_block(m, a));
                Some(controller.update())
            },
            _ => None,
        }
    }
}

} // verus!

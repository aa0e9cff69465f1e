//! What a click on the bar asks for.
use vstd::prelude::*;
use crate::codec::{opt_view, ClickEvent};
use crate::text::{owned, starts_with, str_eq};

verus! {

/// The answer to a click.
#[derive(Debug, PartialEq, Eq)]
pub enum ClickAction {
    /// Take away the error block with this name.
    ClearError(String),
    /// Skip to the next song (scrolling up on the player block).
    MpdNext,
    /// Go back to the previous song (scrolling down on the player block).
    MpdPrev,
    /// Pause or resume the player (any other button on the player block).
    MpdToggle,
}

/// What a click with button `button` on the block named `name` asks for.
pub open spec fn click_meaning(name: Option<Seq<char>>, button: u32) -> Option<ClickActionKind> {
    match name {
        Some(n) => if "error"@.len() <= n.len() && n.take("error"@.len() as int) == "error"@ {
            Some(ClickActionKind::ClearError(n))
        } else if n == "mpd"@ {
            if button == 4 {
                Some(ClickActionKind::MpdNext)
            } else if button == 5 {
                Some(ClickActionKind::MpdPrev)
            } else {
                Some(ClickActionKind::MpdToggle)
            }
        } else {
            None
        },
        None => None,
    }
}

/// A [`ClickAction`] with its text taken as a character sequence.
pub ghost enum ClickActionKind {
    ClearError(Seq<char>),
    MpdNext,
    MpdPrev,
    MpdToggle,
}

impl View for ClickAction {
    type V = ClickActionKind;

    open spec fn view(&self) -> ClickActionKind {
        match self {
            ClickAction::ClearError(n) => ClickActionKind::ClearError(n@),
            ClickAction::MpdNext => ClickActionKind::MpdNext,
            ClickAction::MpdPrev => ClickActionKind::MpdPrev,
            ClickAction::MpdToggle => ClickActionKind::MpdToggle,
        }
    }
}

/// A click on the player block is never ignored: scrolling up (button 4)
/// skips ahead, scrolling down (button 5) goes back, and every other button
/// pauses or resumes. A click on a block whose name starts with `error`
/// clears that block.
pub proof fn law_player_clicks(button: u32, name: Seq<char>)
    ensures
        click_meaning(Some("mpd"@), button) is Some,
        button == 4 ==> click_meaning(Some("mpd"@), button) == Some(ClickActionKind::MpdNext),
        button == 5 ==> click_meaning(Some("mpd"@), button) == Some(ClickActionKind::MpdPrev),
        button != 4 && button != 5 ==> click_meaning(Some("mpd"@), button) == Some(
            ClickActionKind::MpdToggle,
        ),
        name.len() >= 5 && name.take(5) == "error"@ ==> click_meaning(Some(name), button) == Some(
            ClickActionKind::ClearError(name),
        ),
        click_meaning(None, button) is None,
{
    reveal_strlit("error");
    reveal_strlit("mpd");
}

/// What the click `evt` asks for: clicks on error blocks clear them, clicks
/// on the player block steer the player, other clicks are ignored.
pub fn click_action(evt: &ClickEvent) -> (r: Option<ClickAction>)
    ensures
        match click_meaning(opt_view(evt.name), evt.button) {
            Some(k) => r matches Some(a) && a@ == k,
            None => r is None,
        },
        opt_view(evt.name) == Some("mpd"@) && evt.button != 4 && evt.button != 5 ==> r == Some(
            ClickAction::MpdToggle,
        ),
        opt_view(evt.name) == Some("mpd"@) && evt.button == 4 ==> r == Some(ClickAction::MpdNext),
        opt_view(evt.name) == Some("mpd"@) && evt.button == 5 ==> r == Some(ClickAction::MpdPrev),
{
    proof {
        law_player_clicks(evt.button, Seq::empty());
    }
    match &evt.name {
        Some(name) => {
            if starts_with(name.as_str(), "error") {
                Some(ClickAction::ClearError(owned(name.as_str())))
            } else if str_eq(name.as_str(), "mpd") {
                if evt.button == 4 {
                    Some(ClickAction::MpdNext)
                } else if evt.button == 5 {
                    Some(ClickAction::MpdPrev)
                } else {
                    Some(ClickAction::MpdToggle)
                }
            } else {
                None
            }
        },
        None => None,
    }
}

} // verus!

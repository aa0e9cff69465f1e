//! What the bar does every second.
use vstd::prelude::*;
use crate::codec::Element;
use crate::controller::{block_views, status_line, Controller, ControllerView};
use crate::media::{can_advance, media_block, media_timer, ticked, Info};
use crate::time::{date_block, time, time_block, valid_reading};

verus! {

/// The media slot after a second has passed for `media`.
pub open spec fn media_after_second(old_media: Option<crate::codec::BlockView>, media: Option<
    Info,
>) -> Option<crate::codec::BlockView> {
    match media {
        Some(i) => Some(media_block(ticked(i@))),
        None => old_media,
    }
}

/// One second: the clock is read and shown, then a playing song advances
/// and the player block is shown again, and the status line to write is
/// given back. `None` where the player block cannot be made after the
/// second (the clock is shown all the same, the player is left as it was).
pub fn second(controller: &mut Controller, media: &mut Option<Info>) -> (r: Option<Element>)
    requires
        old(controller).wf(),
    ensures
        final(controller).wf(),
        r is Some <==> (*old(media) matches Some(i) ==> can_advance(i@)),
        exists|t: (u32, u32, Seq<char>, Seq<char>)|
            valid_reading(t) && final(controller)@ == (ControllerView {
                time: Some(time_block(t)),
                date: Some(date_block(t)),
                media: if r is Some {
                    media_after_second(old(controller)@.media, *old(media))
                } else {
                    old(controller)@.media
                },
                ..old(controller)@
            }),
        r is Some ==> (*final(media) matches Some(j) ==> *old(media) matches Some(i) && j@ == ticked(
            i@,
        )) && (*old(media) is None ==> *final(media) is None),
        r is None ==> *final(media) == *old(media),
        r is Some ==> (r matches Some(Element::Blocks(b)) && block_views(b@) == status_line(
            final(controller)@,
        )),
{
    time(controller);
    if media_timer(controller, media) {
        Some(controller.update())
    } else {
        None
    }
}

} // verus!

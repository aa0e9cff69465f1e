//! The music player block: what mpd plays, how far it is, and by whom.
use vstd::prelude::*;
use vstd::string::StringExecFns;
use crate::codec::{opt_view, Block, BlockBuilder, BlockView, Element, text_block};
use crate::controller::{block_views, status_line, Controller, ControllerView};
use crate::icon;
use crate::text::{contains, decimal, decimal2, occurs_in, owned, push_char, push_decimal, push_decimal2};

verus! {

/// Whether the player plays, pauses or stands still.
#[derive(Debug, Clone, Copy, PartialEq, Eq, Structural)]
pub enum PlayState {
    Play,
    Pause,
    Stop,
}

/// What the player reports: the song (file, title, artist) and the elapsed
/// and total time in whole seconds.
#[derive(Debug, PartialEq, Eq)]
pub struct Info {
    pub file: Option<String>,
    pub title: Option<String>,
    pub artist: Option<String>,
    pub elapsed: Option<u64>,
    pub total: Option<u64>,
    pub state: PlayState,
}

/// An [`Info`] with its texts taken as character sequences.
pub ghost struct InfoView {
    pub file: Option<Seq<char>>,
    pub title: Option<Seq<char>>,
    pub artist: Option<Seq<char>>,
    pub elapsed: Option<u64>,
    pub total: Option<u64>,
    pub state: PlayState,
}

impl View for Info {
    type V = InfoView;

    open spec fn view(&self) -> InfoView {
        InfoView {
            file: opt_view(self.file),
            title: opt_view(self.title),
            artist: opt_view(self.artist),
            elapsed: self.elapsed,
            total: self.total,
            state: self.state,
        }
    }
}

/// What `Path::file_stem` gives for the path `p`: its final component
/// without the extension, if there is a final component.
pub uninterp spec fn path_stem(p: Seq<char>) -> Option<Seq<char>>;

/// Calls `std::path::Path::file_stem` on `path` and turns the stem back into
/// a `String` (the stem of a path made from a `&str` is valid UTF-8). The
/// result is named by [`path_stem`].
#[verifier::external_body]
fn file_stem(path: &str) -> (r: Option<String>)
    ensures
        opt_view(r) == path_stem(path@),
{
    match std::path::Path::new(path).file_stem() {
        Some(stem) => match stem.to_str() {
            Some(s) => Some(s.to_string()),
            None => None,
        },
        None => None,
    }
}

/// The symbol for the player's state.
pub open spec fn state_icon(s: PlayState) -> char {
    match s {
        PlayState::Play => icon::NOTE,
        PlayState::Pause => icon::PAUSED,
        PlayState::Stop => icon::STOPPED,
    }
}

/// The name the song is shown by: `artist - title`, or only the title where
/// it already holds that text (or there is no artist), or `artist - ` and
/// the file's stem where there is no title.
pub open spec fn song_name(i: InfoView) -> Seq<char> {
    let prefix = match i.artist {
        Some(a) => a + " - "@,
        None => Seq::empty(),
    };
    match i.title {
        Some(t) => if occurs_in(prefix, t) {
            t
        } else {
            prefix + t
        },
        None => prefix + path_stem(i.file.unwrap()).unwrap(),
    }
}

/// `secs` as minutes and zero-padded seconds.
pub open spec fn minutes(secs: nat) -> Seq<char> {
    decimal(secs / 60) + seq![':'] + decimal2(secs % 60)
}

/// The text of the player block: the state symbol alone when stopped, else
/// the symbol, `(elapsed / total)` and the song's name.
pub open spec fn media_text(i: InfoView) -> Seq<char> {
    if i.state == PlayState::Stop {
        seq![state_icon(i.state)]
    } else {
        seq![state_icon(i.state), ' ', '('] + minutes(i.elapsed.unwrap() as nat) + " / "@
            + minutes(i.total.unwrap() as nat) + seq![')', ' '] + song_name(i)
    }
}

/// The player block for `i`.
pub open spec fn media_block(i: InfoView) -> BlockView {
    BlockView { name: Some("mpd"@), ..text_block(media_text(i)) }
}

/// Whether the player block can be made: a playing or paused song has both
/// times, and a title or a file whose path has a stem.
pub open spec fn displayable(i: InfoView) -> bool {
    i.state != PlayState::Stop ==> {
        &&& i.elapsed is Some
        &&& i.total is Some
        &&& i.title is None ==> (i.file matches Some(f) && path_stem(f) is Some)
    }
}

/// `i` one second later: the elapsed time grows while the player plays.
pub open spec fn ticked(i: InfoView) -> InfoView {
    if i.state == PlayState::Play && i.elapsed is Some {
        InfoView { elapsed: Some((i.elapsed.unwrap() + 1) as u64), ..i }
    } else {
        i
    }
}

/// Time only passes for a song that plays: ticking changes nothing else,
/// keeps the block makeable, and leaves a paused or stopped player's block
/// as it was.
pub proof fn law_tick(i: InfoView)
    ensures
        ticked(i).state == i.state,
        ticked(i).file == i.file,
        ticked(i).title == i.title,
        ticked(i).artist == i.artist,
        ticked(i).total == i.total,
        displayable(ticked(i)) == displayable(i),
        i.state != PlayState::Play ==> media_block(ticked(i)) == media_block(i),
{
}

/// A time is written as whole minutes and the seconds left over: for `m`
/// minutes and `ss < 60` seconds, `m * 60 + ss` seconds are written `m`, a
/// colon and `ss` zero-padded to two digits.
pub proof fn law_minutes(secs: nat, m: nat, ss: nat)
    requires
        m * 60 + ss == secs,
        ss < 60,
    ensures
        minutes(secs) == decimal(m) + seq![':'] + decimal2(ss),
{
    assert(secs / 60 == m && secs % 60 == ss) by (nonlinear_arith)
        requires
            m * 60 + ss == secs,
            ss < 60,
    ;
}

/// Whether a second can pass for `i`: a playing song has an elapsed time
/// that can grow, and the block can still be made afterwards.
pub open spec fn can_advance(i: InfoView) -> bool {
    &&& i.state == PlayState::Play ==> (i.elapsed matches Some(e) && e < u64::MAX)
    &&& displayable(ticked(i))
}

fn push_minutes(s: &mut String, secs: u64)
    ensures
        final(s)@ == old(s)@ + minutes(secs as nat),
{
    push_decimal(s, secs / 60);
    push_char(s, ':');
    push_decimal2(s, secs % 60);
    assert(final(s)@ =~= old(s)@ + minutes(secs as nat));
}

impl Info {
    /// The player block.
    pub fn to_element(&self) -> (b: Block)
        requires
            displayable(self@),
        ensures
            b@ == media_block(self@),
    {
        let icon = match self.state {
            PlayState::Play => icon::NOTE,
            PlayState::Pause => icon::PAUSED,
            PlayState::Stop => icon::STOPPED,
        };
        let mut full_text = String::new();
        push_char(&mut full_text, icon);
        if self.state != PlayState::Stop {
            let elapsed = match self.elapsed {
                Some(e) => e,
                None => 0,
            };
            let total = match self.total {
                Some(t) => t,
                None => 0,
            };
            let mut name = String::new();
            if let Some(artist) = &self.artist {
                name.append(artist.as_str());
                name.append(" - ");
            }
            let ghost prefix = name@;
            if let Some(title) = &self.title {
                if contains(title.as_str(), name.as_str()) {
                    name = String::new();
                }
                name.append(title.as_str());
            } else {
                let file = match &self.file {
                    Some(f) => f.as_str(),
                    None => "",
                };
                let stem = match file_stem(file) {
                    Some(s) => s,
                    None => String::new(),
                };
                name.append(stem.as_str());
            }
            proof {
                assert(name@ == song_name(self@));
            }
            push_char(&mut full_text, ' ');
            push_char(&mut full_text, '(');
            push_minutes(&mut full_text, elapsed);
            full_text.append(" / ");
            push_minutes(&mut full_text, total);
            push_char(&mut full_text, ')');
            push_char(&mut full_text, ' ');
            full_text.append(name.as_str());
            assert(full_text@ =~= media_text(self@));
        } else {
            assert(full_text@ =~= media_text(self@));
        }
        BlockBuilder::new(full_text).name(owned("mpd")).build()
    }

    /// Whether the player block can be made, checked by asking for the
    /// file's stem where it is needed.
    pub fn is_displayable(&self) -> (r: bool)
        ensures
            r == displayable(self@),
    {
        if self.state == PlayState::Stop {
            return true;
        }
        if self.elapsed.is_none() || self.total.is_none() {
            return false;
        }
        if self.title.is_some() {
            return true;
        }
        match &self.file {
            Some(f) => file_stem(f.as_str()).is_some(),
            None => false,
        }
    }

    /// The player block, where it can be made.
    pub fn checked_to_element(&self) -> (b: Option<Block>)
        ensures
            b is Some == displayable(self@),
            b matches Some(b) ==> b@ == media_block(self@),
    {
        if self.is_displayable() {
            Some(self.to_element())
        } else {
            None
        }
    }

    /// Lets one second pass.
    pub fn tick(&mut self)
        requires
            old(self)@.state == PlayState::Play ==> (old(self)@.elapsed matches Some(e) && e
                < u64::MAX),
        ensures
            final(self)@ == ticked(old(self)@),
            final(self).file == old(self).file,
            final(self).title == old(self).title,
            final(self).artist == old(self).artist,
            final(self).total == old(self).total,
            final(self).state == old(self).state,
    {
        if self.state == PlayState::Play {
            if let Some(t) = self.elapsed {
                self.elapsed = Some(t + 1);
            }
        }
    }
}

/// Shows what the player reported (no block when it is unreachable) and
/// gives back the status line to write; `None`, with the bar left as it
/// was, where the block cannot be made.
pub fn show_media(controller: &mut Controller, info: &Option<Info>) -> (r: Option<Element>)
    requires
        old(controller).wf(),
    ensures
        final(controller).wf(),
        r is Some <==> (info matches Some(i) ==> displayable(i@)),
        r is Some ==> final(controller)@ == (ControllerView {
            media: match info {
                Some(i) => Some(media_block(i@)),
                None => None,
            },
            ..old(controller)@
        }),
        r is Some ==> (r matches Some(Element::Blocks(b)) && block_views(b@) == status_line(
            final(controller)@,
        )),
        r is None ==> final(controller)@ == old(controller)@,
{
    let block = match info {
        Some(i) => match i.checked_to_element() {
            Some(b) => Some(b),
            None => {
                return None;
            },
        },
        None => None,
    };
    controller.set_media(block);
    Some(controller.update())
}

/// The player's part of the one-second timer: a song that plays advances by
/// a second and its block is shown again. Gives `false`, changing nothing,
/// where the block cannot be made or the elapsed time cannot grow.
pub fn media_timer(controller: &mut Controller, info: &mut Option<Info>) -> (ok: bool)
    requires
        old(controller).wf(),
    ensures
        final(controller).wf(),
        match *old(info) {
            None => ok && final(controller)@ == old(controller)@ && *final(info) is None,
            Some(i) => {
                if can_advance(i@) {
                    &&& ok
                    &&& *final(info) matches Some(j) && j@ == ticked(i@)
                    &&& final(controller)@ == (ControllerView {
                        media: Some(media_block(ticked(i@))),
                        ..old(controller)@
                    })
                } else {
                    !ok && final(controller)@ == old(controller)@ && *final(info) == *old(info)
                }
            },
        },
{
    let taken = info.take();
    match taken {
        Some(mut i) => {
            let ghost orig = i;
            if i.state == PlayState::Play {
                let stuck = match i.elapsed {
                    Some(e) => e == u64::MAX,
                    None => true,
                };
                if stuck {
                    *info = Some(i);
                    return false;
                }
            }
            let was = i.elapsed;
            i.tick();
            match i.checked_to_element() {
                Some(b) => {
                    controller.set_media(Some(b));
                    *info = Some(i);
                    true
                },
                None => {
                    i.elapsed = was;
                    assert(i == orig);
                    *info = Some(i);
                    false
                },
            }
        },
        None => true,
    }
}

} // verus!

//! The bar's state: the latest block of every source, the error messages
//! that are still shown, and the status line that all of them make up.
use vstd::prelude::*;
use crate::codec::{Block, BlockBuilder, BlockView, Element, Header, text_block};
use crate::text::{decimal, lemma_decimal_injective, owned, push_decimal, str_eq};

verus! {

/// What the bar shows, slot by slot.
pub ghost struct ControllerView {
    pub error_idx: u64,
    pub errors: Seq<BlockView>,
    pub media: Option<BlockView>,
    pub backlight: Option<BlockView>,
    pub disk_info: Option<BlockView>,
    pub networks: Seq<BlockView>,
    pub battery: Option<BlockView>,
    pub cpu_usage: Option<BlockView>,
    pub load: Option<BlockView>,
    pub ram: Option<BlockView>,
    pub swap: Option<BlockView>,
    pub time: Option<BlockView>,
    pub date: Option<BlockView>,
    pub unknown: Seq<BlockView>,
}

/// Holds the latest block of every source and assembles the status line.
pub struct Controller {
    error_idx: u64,
    errors: Vec<Block>,
    media: Option<Block>,
    backlight: Option<Block>,
    disk_info: Option<Block>,
    networks: Vec<Block>,
    battery: Option<Block>,
    cpu_usage: Option<Block>,
    load: Option<Block>,
    ram: Option<Block>,
    swap: Option<Block>,
    time: Option<Block>,
    date: Option<Block>,
    unknown: Vec<Block>,
}

impl View for Controller {
    type V = ControllerView;

    closed spec fn view(&self) -> ControllerView {
        ControllerView {
            error_idx: self.error_idx,
            errors: block_views(self.errors@),
            media: opt_block_view(self.media),
            backlight: opt_block_view(self.backlight),
            disk_info: opt_block_view(self.disk_info),
            networks: block_views(self.networks@),
            battery: opt_block_view(self.battery),
            cpu_usage: opt_block_view(self.cpu_usage),
            load: opt_block_view(self.load),
            ram: opt_block_view(self.ram),
            swap: opt_block_view(self.swap),
            time: opt_block_view(self.time),
            date: opt_block_view(self.date),
            unknown: block_views(self.unknown@),
        }
    }
}

/// The views of a sequence of blocks.
pub open spec fn block_views(s: Seq<Block>) -> Seq<BlockView> {
    s.map_values(|b: Block| b@)
}

/// The view of an optional block.
pub open spec fn opt_block_view(o: Option<Block>) -> Option<BlockView> {
    match o {
        Some(b) => Some(b@),
        None => None,
    }
}

/// The name of the `k`-th error block: `error` followed by `k` in decimal.
pub open spec fn error_name(k: nat) -> Seq<char> {
    "error"@ + decimal(k)
}

/// The color of error blocks.
pub open spec fn error_color() -> Seq<char> {
    "#FF0000"@
}

/// The block that shows error message `msg` as the `k`-th error.
pub open spec fn error_block(msg: Seq<char>, k: nat) -> BlockView {
    BlockView { name: Some(error_name(k)), color: Some(error_color()), ..text_block(msg) }
}

/// Each error block is named after an index below the next one to hand out.
pub open spec fn errors_named_below(errors: Seq<BlockView>, idx: u64) -> bool {
    forall|i: int|
        0 <= i < errors.len() ==> exists|k: nat|
            k < idx && (#[trigger] errors[i]).name == Some(error_name(k))
}

/// Whether `p` is the first error block named `name`.
pub open spec fn first_named(errors: Seq<BlockView>, name: Seq<char>, p: int) -> bool {
    &&& 0 <= p < errors.len()
    &&& errors[p].name == Some(name)
    &&& forall|j: int| 0 <= j < p ==> (#[trigger] errors[j]).name != Some(name)
}

/// Whether some error block is named `name`.
pub open spec fn has_error_named(errors: Seq<BlockView>, name: Seq<char>) -> bool {
    exists|i: int| 0 <= i < errors.len() && (#[trigger] errors[i]).name == Some(name)
}

/// A block, if any, as a sequence of zero or one blocks.
pub open spec fn opt_seq(b: Option<BlockView>) -> Seq<BlockView> {
    match b {
        Some(b) => seq![b],
        None => Seq::empty(),
    }
}

/// The status line: the errors, the media, backlight and disk blocks, the
/// networks, then battery, cpu, load, memory, swap, time and date, and last
/// the blocks of unknown sources.
pub open spec fn status_line(v: ControllerView) -> Seq<BlockView> {
    v.errors + opt_seq(v.media) + opt_seq(v.backlight) + opt_seq(v.disk_info) + v.networks
        + opt_seq(v.battery) + opt_seq(v.cpu_usage) + opt_seq(v.load) + opt_seq(v.ram)
        + opt_seq(v.swap) + opt_seq(v.time) + opt_seq(v.date) + v.unknown
}

/// One for a filled slot, none for an empty one.
pub open spec fn filled(b: Option<BlockView>) -> nat {
    if b is Some {
        1
    } else {
        0
    }
}

/// The number of single slots that hold a block.
pub open spec fn filled_slots(v: ControllerView) -> nat {
    filled(v.media) + filled(v.backlight) + filled(v.disk_info) + filled(v.battery) + filled(
        v.cpu_usage,
    ) + filled(v.load) + filled(v.ram) + filled(v.swap) + filled(v.time) + filled(v.date)
}

/// The status line holds every block of every slot and nothing else: as
/// many blocks as there are errors, networks and unknown blocks plus the
/// filled single slots; it starts with all errors and ends with all unknown
/// blocks, each in their order, and every network block stands in it in
/// order after the errors and the media, backlight and disk slots.
pub proof fn law_status_line_holds_every_block(v: ControllerView)
    ensures
        status_line(v).len() == v.errors.len() + v.networks.len() + v.unknown.len() + filled_slots(
            v,
        ),
        status_line(v).take(v.errors.len() as int) == v.errors,
        status_line(v).skip(status_line(v).len() - v.unknown.len()) == v.unknown,
        ({
            let start = v.errors.len() + filled(v.media) + filled(v.backlight) + filled(
                v.disk_info,
            );
            status_line(v).subrange(start as int, start + v.networks.len() as int) == v.networks
        }),
{
    let line = status_line(v);
    let front = v.errors + opt_seq(v.media) + opt_seq(v.backlight) + opt_seq(v.disk_info);
    let middle = front + v.networks;
    let before_unknown = middle + opt_seq(v.battery) + opt_seq(v.cpu_usage) + opt_seq(v.load)
        + opt_seq(v.ram) + opt_seq(v.swap) + opt_seq(v.time) + opt_seq(v.date);
    assert(line == before_unknown + v.unknown);
    assert(line.skip(line.len() - v.unknown.len()) =~= v.unknown);
    assert(line.take(v.errors.len() as int) =~= v.errors);
    assert(front.len() == v.errors.len() + filled(v.media) + filled(v.backlight) + filled(
        v.disk_info,
    ));
    assert(line.subrange(front.len() as int, front.len() + v.networks.len() as int) =~= v.networks);
}

/// The header that starts the bar's output: protocol version 1, no signals
/// and no click events asked for.
pub open spec fn bar_header() -> Header {
    Header { version: 1, stop_signal: None, cont_signal: None, click_events: None }
}

/// The elements that open the bar's output: the header, then the opening of
/// the endless array.
pub open spec fn is_preamble(v: Seq<Element>) -> bool {
    &&& v.len() == 2
    &&& v[0] == Element::Header(bar_header())
    &&& v[1] is OpenStream
}

/// The empty bar.
pub open spec fn empty_view() -> ControllerView {
    ControllerView {
        error_idx: 0,
        errors: Seq::empty(),
        media: None,
        backlight: None,
        disk_info: None,
        networks: Seq::empty(),
        battery: None,
        cpu_usage: None,
        load: None,
        ram: None,
        swap: None,
        time: None,
        date: None,
        unknown: Seq::empty(),
    }
}

fn push_all(dst: &mut Vec<Block>, src: &Vec<Block>)
    ensures
        block_views(final(dst)@) == block_views(old(dst)@) + block_views(src@),
{
    let ghost start = block_views(dst@);
    for i in 0..src.len()
        invariant
            block_views(dst@) == start + block_views(src@.take(i as int)),
    {
        let ghost before = dst@;
        dst.push(src[i].clone());
        proof {
            assert(src@.take(i + 1) == src@.take(i as int).push(src@[i as int]));
            assert(dst@ == before.push(src@[i as int]));
            assert(block_views(dst@) == block_views(before).push(src@[i as int]@));
            assert(block_views(src@.take(i + 1)) == block_views(src@.take(i as int)).push(
                src@[i as int]@,
            ));
        }
    }
    proof {
        assert(src@.take(src@.len() as int) == src@);
    }
}

fn push_opt(dst: &mut Vec<Block>, b: &Option<Block>)
    ensures
        block_views(final(dst)@) == block_views(old(dst)@) + opt_seq(opt_block_view(*b)),
{
    let ghost before = dst@;
    if let Some(b) = b {
        dst.push(b.clone());
        proof {
            assert(block_views(dst@) == block_views(before).push(b@));
        }
    }
    proof {
        if b.is_none() {
            assert(block_views(before) + opt_seq(opt_block_view(*b)) == block_views(before));
        }
    }
}

/// Clearing an error right after showing it takes exactly that error away
/// again: the new block is the first one under its name, because every
/// older error is named after a smaller index and different indices give
/// different names.
pub proof fn law_clear_undoes_push(before: ControllerView, msg: Seq<char>)
    requires
        errors_named_below(before.errors, before.error_idx),
    ensures
        ({
            let after = before.errors.push(error_block(msg, before.error_idx as nat));
            let name = error_name(before.error_idx as nat);
            &&& has_error_named(after, name)
            &&& forall|p: int| first_named(after, name, p) ==> after.remove(p) == before.errors
        }),
{
    let after = before.errors.push(error_block(msg, before.error_idx as nat));
    let name = error_name(before.error_idx as nat);
    let n = before.errors.len() as int;
    reveal_strlit("error");
    assert(after[n].name == Some(name));
    assert forall|j: int| 0 <= j < n implies (#[trigger] after[j]).name != Some(name) by {
        assert(after[j] == before.errors[j]);
        let k = choose|k: nat|
            k < before.error_idx && (#[trigger] before.errors[j]).name == Some(error_name(k));
        if error_name(k) == name {
            assert(error_name(k).skip(5) == decimal(k));
            assert(name.skip(5) == decimal(before.error_idx as nat));
            lemma_decimal_injective(k, before.error_idx as nat);
        }
    }
    assert forall|p: int| first_named(after, name, p) implies after.remove(p) == before.errors by {
        if p < n {
            assert(after[p].name != Some(name));
        }
        assert(p == n);
        assert(after.remove(n) =~= before.errors);
    }
}

impl Controller {
    /// The invariant of the error list: each error block is named after an
    /// index below the next one to be handed out.
    pub open spec fn wf(&self) -> bool {
        errors_named_below(self@.errors, self@.error_idx)
    }

    /// The empty bar, with the elements that must be written before its
    /// first status line.
    pub fn new() -> (r: (Controller, Vec<Element>))
        ensures
            r.0.wf(),
            r.0@ == empty_view(),
            is_preamble(r.1@),
    {
        let c = Controller {
            error_idx: 0,
            errors: Vec::new(),
            media: None,
            backlight: None,
            disk_info: None,
            networks: Vec::new(),
            battery: None,
            cpu_usage: None,
            load: None,
            ram: None,
            swap: None,
            time: None,
            date: None,
            unknown: Vec::new(),
        };
        let mut init: Vec<Element> = Vec::new();
        init.push(
            Element::Header(
                Header { version: 1, stop_signal: None, cont_signal: None, click_events: None },
            ),
        );
        init.push(Element::OpenStream);
        assert(block_views(c.errors@) == Seq::<BlockView>::empty());
        assert(block_views(c.networks@) == Seq::<BlockView>::empty());
        assert(block_views(c.unknown@) == Seq::<BlockView>::empty());
        (c, init)
    }

    /// The status line to write now.
    pub fn update(&self) -> (e: Element)
        ensures
            e matches Element::Blocks(blocks) && block_views(blocks@) == status_line(self@),
            e matches Element::Blocks(blocks) && blocks@.len() == self@.errors.len()
                + self@.networks.len() + self@.unknown.len() + filled_slots(self@),
            e matches Element::Blocks(blocks) && block_views(blocks@).skip(
                blocks@.len() - self@.unknown.len(),
            ) == self@.unknown,
    {
        proof {
            law_status_line_holds_every_block(self@);
        }
        let mut blocks: Vec<Block> = Vec::new();
        push_all(&mut blocks, &self.errors);
        push_opt(&mut blocks, &self.media);
        push_opt(&mut blocks, &self.backlight);
        push_opt(&mut blocks, &self.disk_info);
        push_all(&mut blocks, &self.networks);
        push_opt(&mut blocks, &self.battery);
        push_opt(&mut blocks, &self.cpu_usage);
        push_opt(&mut blocks, &self.load);
        push_opt(&mut blocks, &self.ram);
        push_opt(&mut blocks, &self.swap);
        push_opt(&mut blocks, &self.time);
        push_opt(&mut blocks, &self.date);
        push_all(&mut blocks, &self.unknown);
        assert(block_views(blocks@) == status_line(self@));
        Element::Blocks(blocks)
    }

    pub fn set_media(&mut self, media: Option<Block>)
        requires
            old(self).wf(),
        ensures
            final(self).wf(),
            final(self)@ == (ControllerView { media: opt_block_view(media), ..old(self)@ }),
    {
        self.media = media;
    }

    pub fn set_backlight(&mut self, backlight: Block)
        requires
            old(self).wf(),
        ensures
            final(self).wf(),
            final(self)@ == (ControllerView { backlight: Some(backlight@), ..old(self)@ }),
    {
        self.backlight = Some(backlight);
    }

    pub fn set_disk_info(&mut self, disk_info: Block)
        requires
            old(self).wf(),
        ensures
            final(self).wf(),
            final(self)@ == (ControllerView { disk_info: Some(disk_info@), ..old(self)@ }),
    {
        self.disk_info = Some(disk_info);
    }

    pub fn set_networks(&mut self, networks: Vec<Block>)
        requires
            old(self).wf(),
        ensures
            final(self).wf(),
            final(self)@ == (ControllerView { networks: block_views(networks@), ..old(self)@ }),
    {
        self.networks = networks;
    }

    pub fn set_battery(&mut self, battery: Block)
        requires
            old(self).wf(),
        ensures
            final(self).wf(),
            final(self)@ == (ControllerView { battery: Some(battery@), ..old(self)@ }),
    {
        self.battery = Some(battery);
    }

    pub fn set_cpu_usage(&mut self, cpu_usage: Block)
        requires
            old(self).wf(),
        ensures
            final(self).wf(),
            final(self)@ == (ControllerView { cpu_usage: Some(cpu_usage@), ..old(self)@ }),
    {
        self.cpu_usage = Some(cpu_usage);
    }

    pub fn set_load(&mut self, load: Block)
        requires
            old(self).wf(),
        ensures
            final(self).wf(),
            final(self)@ == (ControllerView { load: Some(load@), ..old(self)@ }),
    {
        self.load = Some(load);
    }

    pub fn set_ram(&mut self, ram: Block)
        requires
            old(self).wf(),
        ensures
            final(self).wf(),
            final(self)@ == (ControllerView { ram: Some(ram@), ..old(self)@ }),
    {
        self.ram = Some(ram);
    }

    pub fn set_swap(&mut self, swap: Block)
        requires
            old(self).wf(),
        ensures
            final(self).wf(),
            final(self)@ == (ControllerView { swap: Some(swap@), ..old(self)@ }),
    {
        self.swap = Some(swap);
    }

    pub fn set_time(&mut self, time: Block)
        requires
            old(self).wf(),
        ensures
            final(self).wf(),
            final(self)@ == (ControllerView { time: Some(time@), ..old(self)@ }),
    {
        self.time = Some(time);
    }

    pub fn set_date(&mut self, date: Block)
        requires
            old(self).wf(),
        ensures
            final(self).wf(),
            final(self)@ == (ControllerView { date: Some(date@), ..old(self)@ }),
    {
        self.date = Some(date);
    }

    pub fn set_unknown(&mut self, unknown: Vec<Block>)
        requires
            old(self).wf(),
        ensures
            final(self).wf(),
            final(self)@ == (ControllerView { unknown: block_views(unknown@), ..old(self)@ }),
    {
        self.unknown = unknown;
    }

    /// The index that the next error will be named after.
    pub fn error_index(&self) -> (i: u64)
        ensures
            i == self@.error_idx,
    {
        self.error_idx
    }

    /// Shows `error` as a new red block after the errors already shown,
    /// named `error` and the next error index.
    pub fn push_error(&mut self, error: String)
        requires
            old(self).wf(),
            old(self)@.error_idx < u64::MAX,
        ensures
            final(self).wf(),
            final(self)@.errors.len() == old(self)@.errors.len() + 1,
            final(self)@.errors.drop_last() == old(self)@.errors,
            final(self)@.errors.last() == error_block(error@, old(self)@.error_idx as nat),
            final(self)@ == (ControllerView {
                errors: final(self)@.errors,
                error_idx: (old(self)@.error_idx + 1) as u64,
                ..old(self)@
            }),
    {
        let idx = self.error_idx;
        let mut name = owned("error");
        push_decimal(&mut name, idx);
        let block = BlockBuilder::new(error).name(name).color(owned("#FF0000")).build();
        self.errors.push(block);
        self.error_idx = idx + 1;
        proof {
            let errs = self@.errors;
            assert(errs.drop_last() == old(self)@.errors);
            assert forall|i: int| 0 <= i < errs.len() implies exists|k: nat|
                k < self.error_idx && (#[trigger] errs[i]).name == Some(error_name(k)) by {
                if i < errs.len() - 1 {
                    assert(errs[i] == old(self)@.errors[i]);
                    let k = choose|k: nat|
                        k < idx && (#[trigger] old(self)@.errors[i]).name == Some(error_name(k));
                    assert(k < self.error_idx);
                } else {
                    assert(errs[i].name == Some(error_name(idx as nat)));
                }
            }
        }
    }

    /// Whether an error block named `name` is shown.
    pub fn has_error(&self, name: &str) -> (r: bool)
        ensures
            r == has_error_named(self@.errors, name@),
    {
        self.error_position(name).is_some()
    }

    fn error_position(&self, name: &str) -> (r: Option<usize>)
        ensures
            r matches Some(p) ==> first_named(self@.errors, name@, p as int),
            r is None ==> !has_error_named(self@.errors, name@),
    {
        let mut i: usize = 0;
        while i < self.errors.len()
            invariant
                i <= self.errors@.len(),
                forall|j: int| 0 <= j < i ==> (#[trigger] self@.errors[j]).name != Some(name@),
            decreases self.errors@.len() - i,
        {
            let found = match &self.errors[i].name {
                Some(n) => str_eq(n.as_str(), name),
                None => false,
            };
            if found {
                return Some(i);
            }
            i = i + 1;
        }
        None
    }

    /// Takes away the first error block named `name` and gives back the
    /// status line to write.
    pub fn clear_error(&mut self, name: &str) -> (e: Element)
        requires
            old(self).wf(),
            has_error_named(old(self)@.errors, name@),
        ensures
            final(self).wf(),
            exists|p: int|
                first_named(old(self)@.errors, name@, p) && final(self)@ == (ControllerView {
                    errors: old(self)@.errors.remove(p),
                    ..old(self)@
                }),
            e matches Element::Blocks(blocks) && block_views(blocks@) == status_line(final(self)@),
    {
        let pos = match self.error_position(name) {
            Some(p) => p,
            None => {
                assert(false);
                0
            },
        };
        self.errors.remove(pos);
        proof {
            let errs = self@.errors;
            let olds = old(self)@.errors;
            assert(errs == olds.remove(pos as int));
            assert forall|i: int| 0 <= i < errs.len() implies exists|k: nat|
                k < self.error_idx && (#[trigger] errs[i]).name == Some(error_name(k)) by {
                if i < pos {
                    assert(errs[i] == olds[i]);
                } else {
                    assert(errs[i] == olds[i + 1]);
                }
            }
            assert(first_named(olds, name@, pos as int));
        }
        self.update()
    }
}

} // verus!

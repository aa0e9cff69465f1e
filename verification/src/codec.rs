//! The i3bar protocol: the elements that the bar writes to i3bar, the click
//! events that i3bar sends back, and the builder for status blocks.
//!
//! JSON text itself is read and written outside this module; here the
//! stream's state machine decides what each line must be, and the encoder
//! frames the serialized elements into output lines.
use vstd::prelude::*;
use crate::buffer::{buffer_contents, buffer_extend};

verus! {

/// One unit of the output stream: the header, the opening bracket of the
/// endless array, or one status line of blocks.
#[derive(Debug, Clone, PartialEq, Eq)]
pub enum Element {
    Header(Header),
    OpenStream,
    Blocks(Vec<Block>),
}

/// The header that starts the stream.
#[derive(Debug, Clone, Copy, PartialEq, Eq, Structural)]
pub struct Header {
    pub version: u32,
    pub stop_signal: Option<u32>,
    pub cont_signal: Option<u32>,
    pub click_events: Option<bool>,
}

/// How a block's text is aligned within its minimum width.
#[derive(Debug, Clone, Copy, PartialEq, Eq, Structural)]
pub enum Align {
    Center,
    Right,
    Left,
}

/// How i3bar interprets a block's text.
#[derive(Debug, Clone, Copy, PartialEq, Eq, Structural)]
pub enum Markup {
    Plain,
    Pango,
}

impl Default for Markup {
    fn default() -> (m: Markup)
        ensures
            m == Markup::Plain,
    {
        Markup::Plain
    }
}

/// A click on a block, as i3bar reports it.
#[derive(Debug, Clone, PartialEq, Eq)]
pub struct ClickEvent {
    pub name: Option<String>,
    pub instance: Option<String>,
    pub x: u32,
    pub y: u32,
    pub button: u32,
}

impl Default for ClickEvent {
    fn default() -> (e: ClickEvent)
        ensures
            e.name is None,
            e.instance is None,
            e.x == 0,
            e.y == 0,
            e.button == 0,
    {
        ClickEvent { name: None, instance: None, x: 0, y: 0, button: 0 }
    }
}

/// One block of the status line.
#[derive(Debug, PartialEq, Eq)]
pub struct Block {
    pub full_text: String,
    pub short_text: Option<String>,
    pub color: Option<String>,
    pub background: Option<String>,
    pub border: Option<String>,
    pub min_width: Option<u32>,
    pub align: Option<Align>,
    pub name: Option<String>,
    pub instance: Option<String>,
    pub urgent: Option<bool>,
    pub separator: Option<bool>,
    pub separator_block_width: Option<u32>,
    pub markup: Markup,
}

/// The text of an optional string.
pub open spec fn opt_view(o: Option<String>) -> Option<Seq<char>> {
    match o {
        Some(s) => Some(s@),
        None => None,
    }
}

/// A block with its texts taken as character sequences.
pub ghost struct BlockView {
    pub full_text: Seq<char>,
    pub short_text: Option<Seq<char>>,
    pub color: Option<Seq<char>>,
    pub background: Option<Seq<char>>,
    pub border: Option<Seq<char>>,
    pub min_width: Option<u32>,
    pub align: Option<Align>,
    pub name: Option<Seq<char>>,
    pub instance: Option<Seq<char>>,
    pub urgent: Option<bool>,
    pub separator: Option<bool>,
    pub separator_block_width: Option<u32>,
    pub markup: Markup,
}

impl View for Block {
    type V = BlockView;

    open spec fn view(&self) -> BlockView {
        BlockView {
            full_text: self.full_text@,
            short_text: opt_view(self.short_text),
            color: opt_view(self.color),
            background: opt_view(self.background),
            border: opt_view(self.border),
            min_width: self.min_width,
            align: self.align,
            name: opt_view(self.name),
            instance: opt_view(self.instance),
            urgent: self.urgent,
            separator: self.separator,
            separator_block_width: self.separator_block_width,
            markup: self.markup,
        }
    }
}

/// The block that shows `full_text` and leaves everything else to i3bar's
/// defaults.
pub open spec fn text_block(full_text: Seq<char>) -> BlockView {
    BlockView {
        full_text,
        short_text: None,
        color: None,
        background: None,
        border: None,
        min_width: None,
        align: None,
        name: None,
        instance: None,
        urgent: None,
        separator: None,
        separator_block_width: None,
        markup: Markup::Plain,
    }
}

fn clone_opt_string(o: &Option<String>) -> (r: Option<String>)
    ensures
        r == *o,
{
    match o {
        Some(s) => Some(s.clone()),
        None => None,
    }
}

impl Clone for Block {
    fn clone(&self) -> (b: Block)
        ensures
            b == *self,
    {
        Block {
            full_text: self.full_text.clone(),
            short_text: clone_opt_string(&self.short_text),
            color: clone_opt_string(&self.color),
            background: clone_opt_string(&self.background),
            border: clone_opt_string(&self.border),
            min_width: self.min_width,
            align: self.align,
            name: clone_opt_string(&self.name),
            instance: clone_opt_string(&self.instance),
            urgent: self.urgent,
            separator: self.separator,
            separator_block_width: self.separator_block_width,
            markup: self.markup,
        }
    }
}

impl Default for Block {
    fn default() -> (b: Block)
        ensures
            b@ == text_block(Seq::empty()),
    {
        Block::plain(String::new())
    }
}

impl Block {
    /// The block that shows `full_text` with every other field unset.
    pub fn plain(full_text: String) -> (b: Block)
        ensures
            b@ == text_block(full_text@),
    {
        Block {
            full_text,
            short_text: None,
            color: None,
            background: None,
            border: None,
            min_width: None,
            align: None,
            name: None,
            instance: None,
            urgent: None,
            separator: None,
            separator_block_width: None,
            markup: Markup::Plain,
        }
    }
}

/// Where the input stream stands: the header comes first, then the line
/// that opens the endless array, then data lines.
#[derive(Debug, Clone, Copy, PartialEq, Eq, Structural)]
pub enum State {
    AwaitingHeader,
    AwaitingOpenStream,
    AwaitingData,
}

/// Reads the i3bar protocol line by line.
pub struct Codec {
    state: State,
}

impl View for Codec {
    type V = State;

    closed spec fn view(&self) -> State {
        self.state
    }
}

/// The state that follows `s` once a line was accepted in it.
pub open spec fn next_state(s: State) -> State {
    match s {
        State::AwaitingHeader => State::AwaitingOpenStream,
        State::AwaitingOpenStream => State::AwaitingData,
        State::AwaitingData => State::AwaitingData,
    }
}

impl Codec {
    pub fn new() -> (c: Codec)
        ensures
            c@ == State::AwaitingHeader,
    {
        Codec { state: State::AwaitingHeader }
    }

    /// What the next line must hold: a header, the opening `[`, or data.
    pub fn state(&self) -> (s: State)
        ensures
            s == self@,
    {
        self.state
    }

    /// Takes one line. `parsed` is that line read as JSON: as a header while
    /// a header is awaited, as an element afterwards. While the opening
    /// bracket is awaited the line must be exactly `[` and `parsed` is not
    /// looked at. A line that was not valid JSON is answered with the JSON
    /// error and leaves the state as it was.
    pub fn decode_line(&mut self, line: &str, parsed: Result<Element, String>) -> (r: Result<
        Element,
        String,
    >)
        requires
            old(self)@ == State::AwaitingHeader ==> (parsed matches Ok(e) ==> e is Header),
            old(self)@ == State::AwaitingOpenStream ==> line@ == seq!['['],
        ensures
            old(self)@ == State::AwaitingOpenStream ==> r == Ok::<Element, String>(
                Element::OpenStream,
            ),
            old(self)@ != State::AwaitingOpenStream ==> r == parsed,
            final(self)@ == (if r is Ok {
                next_state(old(self)@)
            } else {
                old(self)@
            }),
    {
        match self.state {
            State::AwaitingHeader => {
                match parsed {
                    Ok(header) => {
                        self.state = State::AwaitingOpenStream;
                        Ok(header)
                    },
                    Err(e) => Err(e),
                }
            },
            State::AwaitingOpenStream => {
                self.state = State::AwaitingData;
                Ok(Element::OpenStream)
            },
            State::AwaitingData => parsed,
        }
    }
}

/// The line that carries `element` on the output stream, given the JSON
/// serialization `json` of its payload: the header and a status line are
/// their JSON followed by a newline, a status line with a comma before it,
/// since it is one item of an endless array; the opening is `[` alone.
pub open spec fn encoded_line(element: Element, json: Seq<u8>) -> Seq<u8> {
    match element {
        Element::Header(_) => json + seq![10u8],
        Element::Blocks(_) => json + seq![44u8, 10u8],
        Element::OpenStream => seq![91u8, 10u8],
    }
}

/// Each element goes out as exactly one line: when its JSON text holds no
/// newline, the only newline of the encoded line is its last byte, and the
/// JSON text comes first.
pub proof fn law_one_line_per_element(element: Element, json: Seq<u8>)
    requires
        forall|j: int| 0 <= j < json.len() ==> json[j] != 10u8,
    ensures
        ({
            let line = encoded_line(element, json);
            &&& line.len() >= 1
            &&& line.last() == 10u8
            &&& forall|j: int| 0 <= j < line.len() - 1 ==> line[j] != 10u8
            &&& (element !is OpenStream ==> line.take(json.len() as int) == json)
        }),
{
    let line = encoded_line(element, json);
    match element {
        Element::Header(_) => {
            assert(line.take(json.len() as int) =~= json);
            assert forall|j: int| 0 <= j < line.len() - 1 implies line[j] != 10u8 by {
                assert(line[j] == json[j]);
            }
        },
        Element::Blocks(_) => {
            assert(line.take(json.len() as int) =~= json);
            assert forall|j: int| 0 <= j < line.len() - 1 implies line[j] != 10u8 by {
                if j < json.len() {
                    assert(line[j] == json[j]);
                }
            }
        },
        Element::OpenStream => {},
    }
}

/// Writes elements to i3bar.
pub struct Encoder;

impl Encoder {
    /// Appends the line for `element` to `dst`; `json` is the JSON text of
    /// the element's payload (unused for the opening bracket).
    pub fn encode(&mut self, element: &Element, json: &[u8], dst: &mut bytes::BytesMut)
        ensures
            buffer_contents(*final(dst)) == buffer_contents(*old(dst)) + encoded_line(
                *element,
                json@,
            ),
    {
        let mut line: Vec<u8> = Vec::new();
        match element {
            Element::Header(_) => {
                line = vstd::slice::slice_to_vec(json);
                line.push(10u8);
            },
            Element::Blocks(_) => {
                line = vstd::slice::slice_to_vec(json);
                line.push(44u8);
                line.push(10u8);
            },
            Element::OpenStream => {
                line.push(91u8);
                line.push(10u8);
            },
        }
        assert(line@ == encoded_line(*element, json@));
        buffer_extend(dst, line.as_slice());
    }
}

/// Assembles a [`Block`] field by field.
#[derive(Debug)]
pub struct BlockBuilder {
    block: Block,
}

impl View for BlockBuilder {
    type V = BlockView;

    closed spec fn view(&self) -> BlockView {
        self.block@
    }
}

impl Clone for BlockBuilder {
    fn clone(&self) -> (b: BlockBuilder)
        ensures
            b@ == self@,
    {
        BlockBuilder { block: self.block.clone() }
    }
}

impl BlockBuilder {
    pub fn new(full_text: String) -> (b: BlockBuilder)
        ensures
            b@ == text_block(full_text@),
    {
        BlockBuilder { block: Block::plain(full_text) }
    }

    pub fn short_text(self, short_text: String) -> (b: BlockBuilder)
        ensures
            b@ == (BlockView { short_text: Some(short_text@), ..self@ }),
    {
        let mut b = self;
        b.block.short_text = Some(short_text);
        b
    }

    pub fn color(self, color: String) -> (b: BlockBuilder)
        ensures
            b@ == (BlockView { color: Some(color@), ..self@ }),
    {
        let mut b = self;
        b.block.color = Some(color);
        b
    }

    pub fn background(self, background: String) -> (b: BlockBuilder)
        ensures
            b@ == (BlockView { background: Some(background@), ..self@ }),
    {
        let mut b = self;
        b.block.background = Some(background);
        b
    }

    pub fn border(self, border: String) -> (b: BlockBuilder)
        ensures
            b@ == (BlockView { border: Some(border@), ..self@ }),
    {
        let mut b = self;
        b.block.border = Some(border);
        b
    }

    pub fn min_width(self, min_width: u32) -> (b: BlockBuilder)
        ensures
            b@ == (BlockView { min_width: Some(min_width), ..self@ }),
    {
        let mut b = self;
        b.block.min_width = Some(min_width);
        b
    }

    pub fn align(self, align: Align) -> (b: BlockBuilder)
        ensures
            b@ == (BlockView { align: Some(align), ..self@ }),
    {
        let mut b = self;
        b.block.align = Some(align);
        b
    }

    pub fn name(self, name: String) -> (b: BlockBuilder)
        ensures
            b@ == (BlockView { name: Some(name@), ..self@ }),
    {
        let mut b = self;
        b.block.name = Some(name);
        b
    }

    pub fn instance(self, instance: String) -> (b: BlockBuilder)
        ensures
            b@ == (BlockView { instance: Some(instance@), ..self@ }),
    {
        let mut b = self;
        b.block.instance = Some(instance);
        b
    }

    pub fn urgent(self, urgent: bool) -> (b: BlockBuilder)
        ensures
            b@ == (BlockView { urgent: Some(urgent), ..self@ }),
    {
        let mut b = self;
        b.block.urgent = Some(urgent);
        b
    }

    pub fn separator(self, separator: bool) -> (b: BlockBuilder)
        ensures
            b@ == (BlockView { separator: Some(separator), ..self@ }),
    {
        let mut b = self;
        b.block.separator = Some(separator);
        b
    }

    pub fn separator_block_width(self, separator_block_width: u32) -> (b: BlockBuilder)
        ensures
            b@ == (BlockView { separator_block_width: Some(separator_block_width), ..self@ }),
    {
        let mut b = self;
        b.block.separator_block_width = Some(separator_block_width);
        b
    }

    pub fn markup(self, markup: Markup) -> (b: BlockBuilder)
        ensures
            b@ == (BlockView { markup, ..self@ }),
    {
        let mut b = self;
        b.block.markup = markup;
        b
    }

    pub fn build(self) -> (b: Block)
        ensures
            b@ == self@,
    {
        self.block
    }
}

} // verus!

//! The i3status protocol: a version line, the opening `[`, then one JSON
//! array of elements per line.
use vstd::prelude::*;
use crate::buffer::{buffer_bytes, buffer_contents, buffer_extend, buffer_split_to};

verus! {

/// One item of an i3status line.
#[derive(Debug, PartialEq, Eq)]
pub struct Element {
    pub name: String,
    pub instance: Option<String>,
    pub markup: String,
    pub full_text: String,
    pub color: Option<String>,
}

/// An element with its texts taken as character sequences.
pub ghost struct ElementView {
    pub name: Seq<char>,
    pub instance: Option<Seq<char>>,
    pub markup: Seq<char>,
    pub full_text: Seq<char>,
    pub color: Option<Seq<char>>,
}

impl View for Element {
    type V = ElementView;

    open spec fn view(&self) -> ElementView {
        ElementView {
            name: self.name@,
            instance: crate::codec::opt_view(self.instance),
            markup: self.markup@,
            full_text: self.full_text@,
            color: crate::codec::opt_view(self.color),
        }
    }
}

fn clone_opt_string(o: &Option<String>) -> (r: Option<String>)
    ensures
        r == *o,
{
    match o {
        Some(s) => Some(s.clone()),
        None => None,
    }
}

impl Clone for Element {
    fn clone(&self) -> (e: Element)
        ensures
            e == *self,
    {
        Element {
            name: self.name.clone(),
            instance: clone_opt_string(&self.instance),
            markup: self.markup.clone(),
            full_text: self.full_text.clone(),
            color: clone_opt_string(&self.color),
        }
    }
}

/// Where the i3status stream stands.
#[derive(Debug, Clone, Copy, PartialEq, Eq, Structural)]
pub enum State {
    AwaitingVersion,
    AwaitingOpenStream,
    AwaitingData,
}

/// Reads i3status output line by line.
pub struct Codec {
    state: State,
}

impl View for Codec {
    type V = State;

    closed spec fn view(&self) -> State {
        self.state
    }
}

/// The version line that i3status starts with.
pub open spec fn version_line() -> Seq<char> {
    "{\"version\":1}"@
}

/// Whether `p` is the position of the first newline in `c`.
pub open spec fn first_newline(c: Seq<u8>, p: int) -> bool {
    &&& 0 <= p < c.len()
    &&& c[p] == 10u8
    &&& forall|j: int| 0 <= j < p ==> c[j] != 10u8
}

/// A line written with a newline after it is read back whole, and whatever
/// followed it stays in the buffer.
pub proof fn law_line_framing(line: Seq<u8>, rest: Seq<u8>)
    requires
        forall|j: int| 0 <= j < line.len() ==> line[j] != 10u8,
    ensures
        first_newline(line + seq![10u8] + rest, line.len() as int),
        (line + seq![10u8] + rest).take(line.len() as int) == line,
        (line + seq![10u8] + rest).skip(line.len() as int + 1) == rest,
{
    let whole = line + seq![10u8] + rest;
    assert(whole.take(line.len() as int) =~= line);
    assert(whole.skip(line.len() as int + 1) =~= rest);
    assert forall|j: int| 0 <= j < line.len() implies whole[j] != 10u8 by {
        assert(whole[j] == line[j]);
    }
}

impl Codec {
    pub fn new() -> (c: Codec)
        ensures
            c@ == State::AwaitingVersion,
    {
        Codec { state: State::AwaitingVersion }
    }

    /// What the next line must hold.
    pub fn state(&self) -> (s: State)
        ensures
            s == self@,
    {
        self.state
    }

    /// Takes one line: the version line, then `[`, then data lines, each of
    /// which `parsed` holds read as JSON. The first two lines must be
    /// exactly these texts and give nothing; a data line gives its
    /// elements, or the JSON error.
    pub fn decode_line(&mut self, line: &str, parsed: Result<Vec<Element>, String>) -> (r: Result<
        Option<Vec<Element>>,
        String,
    >)
        requires
            old(self)@ == State::AwaitingVersion ==> line@ == version_line(),
            old(self)@ == State::AwaitingOpenStream ==> line@ == seq!['['],
        ensures
            old(self)@ == State::AwaitingVersion ==> final(self)@ == State::AwaitingOpenStream
                && r == Ok::<Option<Vec<Element>>, String>(None),
            old(self)@ == State::AwaitingOpenStream ==> final(self)@ == State::AwaitingData
                && r == Ok::<Option<Vec<Element>>, String>(None),
            old(self)@ == State::AwaitingData ==> final(self)@ == State::AwaitingData && r == (
            match parsed {
                Ok(v) => Ok(Some(v)),
                Err(e) => Err(e),
            }),
    {
        match self.state {
            State::AwaitingVersion => {
                self.state = State::AwaitingOpenStream;
                Ok(None)
            },
            State::AwaitingOpenStream => {
                self.state = State::AwaitingData;
                Ok(None)
            },
            State::AwaitingData => match parsed {
                Ok(v) => Ok(Some(v)),
                Err(e) => Err(e),
            },
        }
    }

    /// Appends the JSON text of a line of elements to `dst`.
    pub fn encode(&mut self, json: &[u8], dst: &mut bytes::BytesMut)
        ensures
            buffer_contents(*final(dst)) == buffer_contents(*old(dst)) + json@,
    {
        buffer_extend(dst, json);
    }

    /// Takes the first complete line out of `src`: the bytes before the
    /// first newline, which is dropped with them. Without a newline there is
    /// no line yet and `src` stays as it is.
    pub fn decode(&mut self, src: &mut bytes::BytesMut) -> (line: Option<Vec<u8>>)
        ensures
            line matches Some(l) ==> exists|p: int|
                first_newline(buffer_contents(*old(src)), p) && l@ == buffer_contents(
                    *old(src),
                ).take(p) && buffer_contents(*final(src)) == buffer_contents(*old(src)).skip(
                    p + 1,
                ),
            line is None ==> (forall|j: int|
                0 <= j < buffer_contents(*old(src)).len() ==> buffer_contents(*old(src))[j]
                    != 10u8) && buffer_contents(*final(src)) == buffer_contents(*old(src)),
    {
        let bytes = buffer_bytes(src);
        let mut pos: usize = 0;
        while pos < bytes.len()
            invariant
                bytes@ == buffer_contents(*src),
                buffer_contents(*src) == buffer_contents(*old(src)),
                pos <= bytes@.len(),
                forall|j: int| 0 <= j < pos ==> bytes@[j] != 10u8,
            decreases bytes@.len() - pos,
        {
            if bytes[pos] == 10u8 {
                let ghost whole = bytes@;
                let head = buffer_split_to(src, pos);
                let _newline = buffer_split_to(src, 1);
                let line = buffer_bytes(&head);
                proof {
                    assert(whole.skip(pos as int).skip(1) == whole.skip(pos + 1));
                    assert(first_newline(whole, pos as int));
                    assert(line@ == whole.take(pos as int));
                    assert(buffer_contents(*src) == whole.skip(pos + 1));
                }
                return Some(line);
            }
            pos = pos + 1;
        }
        None
    }
}

} // verus!

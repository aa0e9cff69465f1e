use bytes::BytesMut;
use i3bar::codec::{Align, Block, BlockBuilder, ClickEvent, Codec, Element, Encoder, Header, Markup, State};

fn header() -> Header {
    Header { version: 1, stop_signal: None, cont_signal: None, click_events: None }
}

#[test]
fn builder_new_leaves_everything_unset() {
    let b = BlockBuilder::new("hello".to_string()).build();
    assert_eq!(b.full_text, "hello");
    assert_eq!(b.short_text, None);
    assert_eq!(b.color, None);
    assert_eq!(b.name, None);
    assert_eq!(b.min_width, None);
    assert_eq!(b.align, None);
    assert_eq!(b.markup, Markup::Plain);
    assert_eq!(b, Block::default().clone_with_text("hello"));
}

trait WithText {
    fn clone_with_text(self, t: &str) -> Block;
}

impl WithText for Block {
    fn clone_with_text(mut self, t: &str) -> Block {
        self.full_text = t.to_string();
        self
    }
}

#[test]
fn builder_setters_set_only_their_field() {
    let b = BlockBuilder::new("x".to_string())
        .short_text("s".to_string())
        .color("#00FF00".to_string())
        .background("#000000".to_string())
        .border("#FFFFFF".to_string())
        .min_width(40)
        .align(Align::Right)
        .name("n".to_string())
        .instance("i".to_string())
        .urgent(true)
        .separator(false)
        .separator_block_width(9)
        .markup(Markup::Pango)
        .build();
    assert_eq!(b.full_text, "x");
    assert_eq!(b.short_text.as_deref(), Some("s"));
    assert_eq!(b.color.as_deref(), Some("#00FF00"));
    assert_eq!(b.background.as_deref(), Some("#000000"));
    assert_eq!(b.border.as_deref(), Some("#FFFFFF"));
    assert_eq!(b.min_width, Some(40));
    assert_eq!(b.align, Some(Align::Right));
    assert_eq!(b.name.as_deref(), Some("n"));
    assert_eq!(b.instance.as_deref(), Some("i"));
    assert_eq!(b.urgent, Some(true));
    assert_eq!(b.separator, Some(false));
    assert_eq!(b.separator_block_width, Some(9));
    assert_eq!(b.markup, Markup::Pango);

    let only_color = BlockBuilder::new("x".to_string()).color("red".to_string()).build();
    assert_eq!(only_color.color.as_deref(), Some("red"));
    assert_eq!(only_color.name, None);
    assert_eq!(only_color.urgent, None);
}

#[test]
fn builder_clone_builds_the_same_block() {
    let b = BlockBuilder::new("x".to_string()).name("n".to_string()).min_width(3);
    let c = b.clone();
    assert_eq!(c.build(), b.build());
}

#[test]
fn markup_default_is_plain() {
    assert_eq!(Markup::default(), Markup::Plain);
}

#[test]
fn block_clone_is_equal() {
    let b = BlockBuilder::new("t".to_string()).name("n".to_string()).urgent(true).build();
    assert_eq!(b.clone(), b);
}

#[test]
fn click_event_default_is_empty() {
    let e = ClickEvent::default();
    assert_eq!(e.name, None);
    assert_eq!(e.instance, None);
    assert_eq!((e.x, e.y, e.button), (0, 0, 0));
}

#[test]
fn codec_reads_header_then_bracket_then_data() {
    let mut c = Codec::new();
    assert_eq!(c.state(), State::AwaitingHeader);
    let r = c.decode_line("{\"version\":1}", Ok(Element::Header(header())));
    assert_eq!(r, Ok(Element::Header(header())));
    assert_eq!(c.state(), State::AwaitingOpenStream);
    let r = c.decode_line("[", Err("not looked at".to_string()));
    assert_eq!(r, Ok(Element::OpenStream));
    assert_eq!(c.state(), State::AwaitingData);
    let blocks = vec![BlockBuilder::new("a".to_string()).build()];
    let r = c.decode_line("[{\"full_text\":\"a\"}]", Ok(Element::Blocks(blocks.clone())));
    assert_eq!(r, Ok(Element::Blocks(blocks)));
    assert_eq!(c.state(), State::AwaitingData);
    let r = c.decode_line("oops", Err("bad json".to_string()));
    assert_eq!(r, Err("bad json".to_string()));
    assert_eq!(c.state(), State::AwaitingData);
}

#[test]
fn codec_keeps_waiting_for_header_after_bad_json() {
    let mut c = Codec::new();
    let r = c.decode_line("{", Err("EOF while parsing".to_string()));
    assert_eq!(r, Err("EOF while parsing".to_string()));
    assert_eq!(c.state(), State::AwaitingHeader);
}

#[test]
fn every_element_is_one_line() {
    let mut enc = Encoder;
    for (element, json) in [
        (Element::Header(header()), &b"{\"version\":1}"[..]),
        (Element::OpenStream, &b""[..]),
        (Element::Blocks(vec![]), &b"[{\"full_text\":\"a\"}]"[..]),
    ] {
        let mut buf = BytesMut::new();
        enc.encode(&element, json, &mut buf);
        let newlines: Vec<usize> = buf.iter().enumerate().filter(|(_, b)| **b == b'\n').map(|(i, _)| i).collect();
        assert_eq!(newlines, vec![buf.len() - 1]);
    }
}

#[test]
fn encoder_frames_lines() {
    let mut enc = Encoder;
    let mut buf = BytesMut::new();
    enc.encode(&Element::Header(header()), b"{\"version\":1}", &mut buf);
    assert_eq!(&buf[..], b"{\"version\":1}\n");
    enc.encode(&Element::OpenStream, b"", &mut buf);
    assert_eq!(&buf[..], b"{\"version\":1}\n[\n");
    enc.encode(&Element::Blocks(vec![]), b"[]", &mut buf);
    assert_eq!(&buf[..], b"{\"version\":1}\n[\n[],\n");
}

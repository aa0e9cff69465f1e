use bytes::BytesMut;
use i3bar::codec::{Element as BarElement, Markup};
use i3bar::controller::Controller;
use i3bar::i3status::codec::{Codec, Element, State};
use i3bar::i3status::{
    apply, battery, checked_apply, cpu_usage, disk_info, ethernet, load, network, readable,
    strip_separator, time, to_block, wireless,
};
use i3bar::icon;

fn element(name: &str, text: &str) -> Element {
    Element {
        name: name.to_string(),
        instance: None,
        markup: "none".to_string(),
        full_text: text.to_string(),
        color: None,
    }
}

fn texts(e: &BarElement) -> Vec<String> {
    match e {
        BarElement::Blocks(b) => b.iter().map(|b| b.full_text.clone()).collect(),
        _ => panic!("not a status line"),
    }
}

#[test]
fn disk_cpu_and_load_get_their_symbols() {
    assert_eq!(disk_info(element("disk_info", "12.3 GiB")).full_text, format!("{} 12.3 GiB", icon::MINIDISK));
    assert_eq!(cpu_usage(element("cpu_usage", "07%")).full_text, format!("{} 07%", icon::PC));
    let mut l = element("load", "3.20");
    assert_eq!(load(l.clone()).full_text, format!("{} 3.20", icon::WARNING));
    l.color = Some("#FF0000".to_string());
    assert_eq!(load(l.clone()).full_text, format!("{} 3.20", icon::LIGHTNING));
    l.color = Some("#00FF00".to_string());
    assert_eq!(load(l).full_text, format!("{} 3.20", icon::WARNING));
}

#[test]
fn networks_are_struck_out_without_text() {
    assert_eq!(network("", icon::LAN), format!("{}{}", icon::LAN, icon::STRIKETHROUGH));
    assert_eq!(network("192.168.1.2", icon::WIFI), format!("{} 192.168.1.2", icon::WIFI));
    assert_eq!(ethernet(element("ethernet", "")).full_text, format!("{}{}", icon::LAN, icon::STRIKETHROUGH));
    assert_eq!(wireless(element("wireless", "W: up")).full_text, format!("{} W: up", icon::WIFI));
    let e = wireless(element("wireless", "x"));
    assert_eq!(e.name, "wireless");
    assert_eq!(e.markup, "none");
}

#[test]
fn battery_statuses() {
    let b = battery(element("battery", "BAT 87.50% 02:13:44")).unwrap();
    assert_eq!(b.full_text, format!("{} 87.50% 02:13:44", icon::BATTERY));
    let b = battery(element("battery", "CHR 40% 01:00")).unwrap();
    assert_eq!(b.full_text, format!("{} 40% 01:00", icon::HOURGLASS));
    let b = battery(element("battery", "FULL 100% x")).unwrap();
    assert_eq!(b.full_text, format!("{} 100% x", icon::CABLE));
    let b = battery(element("battery", "No battery")).unwrap();
    assert_eq!(b.full_text, format!("{}{}", icon::BATTERY, icon::STRIKETHROUGH));
    let e = battery(element("battery", "UNK 5% 1:00")).unwrap_err();
    assert_eq!(e, "Unknown Battery Status: UNK");
}

#[test]
fn time_gets_clock_and_calendar() {
    let e = time(element("time", "14:37 11/05/2023"));
    let expected = format!("{} 14:37 {} {} 11/05/2023", '\u{1F55D}', '\u{1F31E}', icon::CALENDAR);
    assert_eq!(e.full_text, expected);
    let e = time(element("time", "00:10 01/02/2024"));
    let expected = format!("{} 00:10 {} {} 01/02/2024", '\u{1F55B}', '\u{1F303}', icon::CALENDAR);
    assert_eq!(e.full_text, expected);
}

#[test]
fn readable_rejects_what_cannot_be_shown() {
    assert!(readable(&element("battery", "BAT 1% 2")));
    assert!(readable(&element("battery", "No battery")));
    assert!(!readable(&element("battery", "BAT 1%")));
    assert!(readable(&element("time", "10:44 01/02/2024")));
    // the last quarter hour before twelve has no clock face
    assert!(!readable(&element("time", "11:45 01/02/2024")));
    assert!(!readable(&element("time", "23:59 01/02/2024")));
    assert!(!readable(&element("time", "not a time")));
    assert!(readable(&element("other", "anything")));
}

#[test]
fn to_block_keeps_the_element() {
    let mut e = element("x", "text");
    e.instance = Some("inst".to_string());
    e.color = Some("#123456".to_string());
    e.markup = "pango".to_string();
    let b = to_block(e);
    assert_eq!(b.full_text, "text");
    assert_eq!(b.name.as_deref(), Some("x"));
    assert_eq!(b.instance.as_deref(), Some("inst"));
    assert_eq!(b.color.as_deref(), Some("#123456"));
    assert_eq!(b.markup, Markup::Pango);
    assert_eq!(to_block(element("y", "t")).markup, Markup::Plain);
}

#[test]
fn apply_sets_the_slots_of_a_line() {
    let (mut c, _) = Controller::new();
    let line = vec![
        element("wireless", "W: up"),
        element("ethernet", ""),
        element("disk_info", "1 GiB"),
        element("battery", "BAT 50% 1:00"),
        element("cpu_usage", "05%"),
        element("load", "0.5"),
        element("volume", "50%"),
    ];
    let out = apply(&mut c, line);
    assert_eq!(
        texts(&out),
        vec![
            format!("{} 1 GiB", icon::MINIDISK),
            format!("{} W: up", icon::WIFI),
            format!("{}{}", icon::LAN, icon::STRIKETHROUGH),
            format!("{} 50% 1:00", icon::BATTERY),
            format!("{} 05%", icon::PC),
            format!("{} 0.5", icon::WARNING),
            "50%".to_string(),
        ]
    );
    // a second line replaces networks and unknown blocks
    let out = apply(&mut c, vec![element("battery", "WHAT 1% 2")]);
    assert_eq!(
        texts(&out),
        vec![
            "Unknown Battery Status: WHAT".to_string(),
            format!("{} 1 GiB", icon::MINIDISK),
            format!("{} 50% 1:00", icon::BATTERY),
            format!("{} 05%", icon::PC),
            format!("{} 0.5", icon::WARNING),
        ]
    );
    assert_eq!(c.error_index(), 1);
}

#[test]
fn checked_apply_refuses_unreadable_lines() {
    let (mut c, _) = Controller::new();
    let before = texts(&c.update());
    assert_eq!(checked_apply(&mut c, vec![element("battery", "BAT")]), None);
    assert_eq!(texts(&c.update()), before);
    let out = checked_apply(&mut c, vec![element("time", "09:00 03/04/2025")]).unwrap();
    assert_eq!(
        texts(&out),
        vec![format!("{} 09:00 {} {} 03/04/2025", '\u{1F558}', '\u{1F305}', icon::CALENDAR)]
    );
}

#[test]
fn separator_comma_is_dropped() {
    assert_eq!(strip_separator(",[{}]"), "[{}]");
    assert_eq!(strip_separator("[{}]"), "[{}]");
    assert_eq!(strip_separator(""), "");
    assert_eq!(strip_separator(","), "");
}

#[test]
fn i3status_codec_reads_version_bracket_data() {
    let mut c = Codec::new();
    assert_eq!(c.state(), State::AwaitingVersion);
    assert_eq!(c.decode_line("{\"version\":1}", Ok(vec![])), Ok(None));
    assert_eq!(c.state(), State::AwaitingOpenStream);
    assert_eq!(c.decode_line("[", Ok(vec![])), Ok(None));
    assert_eq!(c.state(), State::AwaitingData);
    let r = c.decode_line("[...]", Ok(vec![element("a", "b")]));
    assert_eq!(r, Ok(Some(vec![element("a", "b")])));
    assert_eq!(c.decode_line("x", Err("e".to_string())), Err("e".to_string()));
}

#[test]
fn i3status_codec_frames_lines() {
    let mut c = Codec::new();
    let mut buf = BytesMut::from(&b"[{\"a\":1}]\n,[{}]\npartial"[..]);
    assert_eq!(c.decode(&mut buf), Some(b"[{\"a\":1}]".to_vec()));
    assert_eq!(&buf[..], b",[{}]\npartial");
    assert_eq!(c.decode(&mut buf), Some(b",[{}]".to_vec()));
    assert_eq!(&buf[..], b"partial");
    assert_eq!(c.decode(&mut buf), None);
    assert_eq!(&buf[..], b"partial");
    let mut out = BytesMut::new();
    c.encode(b"[]", &mut out);
    out.extend_from_slice(b"\n");
    assert_eq!(c.decode(&mut out), Some(b"[]".to_vec()));
    assert!(out.is_empty());
}

use i3bar::codec::{Block, BlockBuilder, Element, Header};
use i3bar::controller::Controller;

fn named(text: &str) -> Block {
    BlockBuilder::new(text.to_string()).name(text.to_string()).build()
}

fn texts(e: &Element) -> Vec<String> {
    match e {
        Element::Blocks(b) => b.iter().map(|b| b.full_text.clone()).collect(),
        _ => panic!("not a status line"),
    }
}

#[test]
fn new_controller_starts_the_stream() {
    let (c, init) = Controller::new();
    assert_eq!(
        init,
        vec![
            Element::Header(Header { version: 1, stop_signal: None, cont_signal: None, click_events: None }),
            Element::OpenStream,
        ]
    );
    assert_eq!(texts(&c.update()), Vec::<String>::new());
    assert_eq!(c.error_index(), 0);
}

#[test]
fn update_orders_the_slots() {
    let (mut c, _) = Controller::new();
    c.set_unknown(vec![named("unknown")]);
    c.set_date(named("date"));
    c.set_time(named("time"));
    c.set_swap(named("swap"));
    c.set_ram(named("ram"));
    c.set_load(named("load"));
    c.set_cpu_usage(named("cpu"));
    c.set_battery(named("battery"));
    c.set_networks(vec![named("eth"), named("wifi")]);
    c.set_disk_info(named("disk"));
    c.set_backlight(named("backlight"));
    c.set_media(Some(named("media")));
    c.push_error("boom".to_string());
    assert_eq!(
        texts(&c.update()),
        vec![
            "boom", "media", "backlight", "disk", "eth", "wifi", "battery", "cpu", "load", "ram", "swap",
            "time", "date", "unknown"
        ]
    );
    c.set_media(None);
    c.set_networks(vec![]);
    assert_eq!(
        texts(&c.update()),
        vec!["boom", "backlight", "disk", "battery", "cpu", "load", "ram", "swap", "time", "date", "unknown"]
    );
}

#[test]
fn push_error_names_and_colors_errors() {
    let (mut c, _) = Controller::new();
    c.push_error("first".to_string());
    c.push_error("second".to_string());
    assert_eq!(c.error_index(), 2);
    match c.update() {
        Element::Blocks(b) => {
            assert_eq!(b.len(), 2);
            assert_eq!(b[0].full_text, "first");
            assert_eq!(b[0].name.as_deref(), Some("error0"));
            assert_eq!(b[0].color.as_deref(), Some("#FF0000"));
            assert_eq!(b[1].name.as_deref(), Some("error1"));
        }
        _ => panic!("not a status line"),
    }
    assert!(c.has_error("error1"));
    assert!(!c.has_error("error2"));
}

#[test]
fn clear_error_undoes_push_error() {
    let (mut c, _) = Controller::new();
    c.set_ram(named("ram"));
    c.push_error("old".to_string());
    let before = texts(&c.update());
    c.push_error("new".to_string());
    assert_eq!(texts(&c.update()), vec!["old", "new", "ram"]);
    let after = c.clear_error("error1");
    assert_eq!(texts(&after), before);
    assert!(!c.has_error("error1"));
    assert_eq!(c.error_index(), 2);
    let after = c.clear_error("error0");
    assert_eq!(texts(&after), vec!["ram"]);
}

#[test]
fn many_errors_get_distinct_names() {
    let (mut c, _) = Controller::new();
    for i in 0..12 {
        c.push_error(format!("e{}", i));
    }
    assert!(c.has_error("error11"));
    assert!(c.has_error("error1"));
    c.clear_error("error1");
    assert!(c.has_error("error11"));
    assert!(c.has_error("error10"));
    assert!(!c.has_error("error1"));
}

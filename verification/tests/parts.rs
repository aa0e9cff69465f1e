use i3bar::backlight::{backlight_block, Backlight, Reading};
use i3bar::battery::{battery_icon, is_changing, BatteryState, BatteryStep, Which};
use i3bar::codec::{ClickEvent, Element};
use i3bar::controller::Controller;
use i3bar::icon;
use i3bar::media::{media_timer, show_media, Info, PlayState};
use i3bar::stdin::{click_action, ClickAction};
use i3bar::sysfs::selected;
use i3bar::systeminfo::{convert_bytes, memory_block, refresh_memory};
use i3bar::text::{parse_u32, push_decimal, read_number, split};
use i3bar::time::{clock_blocks, time, LocalTime};

fn texts(e: &Element) -> Vec<String> {
    match e {
        Element::Blocks(b) => b.iter().map(|b| b.full_text.clone()).collect(),
        _ => panic!("not a status line"),
    }
}

#[test]
fn convert_bytes_picks_the_unit() {
    assert_eq!(convert_bytes(0), "0k");
    assert_eq!(convert_bytes(1), "1.0k");
    assert_eq!(convert_bytes(500), "500.0k");
    assert_eq!(convert_bytes(1023), "1023.0k");
    assert_eq!(convert_bytes(1024), "1.0M");
    assert_eq!(convert_bytes(1536), "1.5M");
    assert_eq!(convert_bytes(8_000_000), "7.6G");
    assert_eq!(convert_bytes(16_000_000), "15.3G");
    assert_eq!(convert_bytes(1_073_741_824), "1.0T");
    // ties go to the even tenth
    assert_eq!(convert_bytes(1280), "1.2M");
    assert_eq!(convert_bytes(1792), "1.8M");
    // just below the next unit rounds up within the unit
    assert_eq!(convert_bytes(1_048_575), "1024.0M");
}

#[test]
fn memory_blocks() {
    let b = memory_block(icon::RAM, "ram", 1024, 2048);
    assert_eq!(b.full_text, format!("{} 1.0M/2.0M", icon::RAM));
    assert_eq!(b.name.as_deref(), Some("ram"));
    assert_eq!(b.instance.as_deref(), Some("/proc/meminfo"));
    let (mut c, _) = Controller::new();
    let out = refresh_memory(&mut c, 512, 1024, 0, 2048);
    assert_eq!(
        texts(&out),
        vec![format!("{} 512.0k/1.0M", icon::RAM), format!("{} 0k/2.0M", icon::FLOPPY)]
    );
}

#[test]
fn backlight_block_and_readings() {
    let b = backlight_block(100, 30);
    assert_eq!(b.full_text, format!("{} 30", icon::LOW_BRIGHTNESS));
    assert_eq!(b.name.as_deref(), Some("brightness"));
    assert_eq!(b.instance.as_deref(), Some("/sys/class/backlight/intel_backlight/"));
    assert_eq!(backlight_block(100, 50).full_text, format!("{} 50", icon::HIGH_BRIGHTNESS));
    assert_eq!(backlight_block(101, 50).full_text, format!("{} 50", icon::HIGH_BRIGHTNESS));
    assert_eq!(backlight_block(102, 50).full_text, format!("{} 50", icon::LOW_BRIGHTNESS));

    let (mut c, _) = Controller::new();
    let mut bl = Backlight::new();
    assert_eq!(bl.on_reading(&mut c, Reading::First(937)), None);
    let out = bl.on_reading(&mut c, Reading::Second(800)).unwrap();
    assert_eq!(texts(&out), vec![format!("{} 800", icon::HIGH_BRIGHTNESS)]);
    let out = bl.on_reading(&mut c, Reading::Both(1000, 10)).unwrap();
    assert_eq!(texts(&out), vec![format!("{} 10", icon::LOW_BRIGHTNESS)]);
    assert_eq!((bl.max, bl.actual), (Some(1000), Some(10)));
}

#[test]
fn battery_status_icons() {
    assert_eq!(battery_icon("Charging\n"), Ok(icon::HOURGLASS));
    assert_eq!(battery_icon("Discharging"), Ok(icon::BATTERY));
    assert_eq!(battery_icon(" Full "), Ok(icon::CABLE));
    assert_eq!(battery_icon("Idle\n"), Ok(icon::CABLE));
    assert_eq!(battery_icon("Unknown\n"), Err("Unknown Battery Status: Unknown".to_string()));
    assert!(is_changing("Charging\n"));
    assert!(is_changing("Discharging"));
    assert!(!is_changing("Full"));
}

#[test]
fn battery_state_waits_for_all_values() {
    let mut b = BatteryState::new();
    assert_eq!(b.on_item(Which::Full(5000)), (false, BatteryStep::Waiting));
    assert_eq!(b.on_item(Which::Now(2500)), (false, BatteryStep::Waiting));
    assert_eq!(
        b.on_item(Which::State("Discharging\n".to_string())),
        (true, BatteryStep::Show { full: 5000, now: 2500, icon: icon::BATTERY, changing: true })
    );
    assert_eq!(
        b.on_item(Which::State("Discharging\n".to_string())),
        (false, BatteryStep::Show { full: 5000, now: 2500, icon: icon::BATTERY, changing: true })
    );
    assert_eq!(
        b.on_item(Which::State("Full\n".to_string())),
        (true, BatteryStep::Show { full: 5000, now: 2500, icon: icon::CABLE, changing: false })
    );
    assert_eq!(
        b.on_item(Which::State("Broken".to_string())),
        (true, BatteryStep::Unknown("Unknown Battery Status: Broken".to_string()))
    );
    assert_eq!(b.full, Some(5000));
}

fn info(state: PlayState) -> Info {
    Info {
        file: Some("music/Artist/Album/03 song.flac".to_string()),
        title: Some("Title".to_string()),
        artist: Some("Artist".to_string()),
        elapsed: Some(75),
        total: Some(200),
        state,
    }
}

#[test]
fn media_block_texts() {
    let b = info(PlayState::Play).to_element();
    assert_eq!(b.full_text, format!("{} (1:15 / 3:20) Artist - Title", icon::NOTE));
    assert_eq!(b.name.as_deref(), Some("mpd"));
    assert_eq!(info(PlayState::Stop).to_element().full_text, icon::STOPPED.to_string());
    let mut i = info(PlayState::Pause);
    i.title = Some("Artist - Title (live)".to_string());
    assert_eq!(i.to_element().full_text, format!("{} (1:15 / 3:20) Artist - Title (live)", icon::PAUSED));
    i.title = None;
    assert_eq!(i.to_element().full_text, format!("{} (1:15 / 3:20) Artist - 03 song", icon::PAUSED));
    i.artist = None;
    i.elapsed = Some(5);
    assert_eq!(i.to_element().full_text, format!("{} (0:05 / 3:20) 03 song", icon::PAUSED));
    i.file = Some("/".to_string());
    assert!(!i.is_displayable());
    assert_eq!(i.checked_to_element(), None);
}

#[test]
fn media_timer_advances_playing_songs() {
    let (mut c, _) = Controller::new();
    let mut opt = Some(info(PlayState::Play));
    assert!(media_timer(&mut c, &mut opt));
    assert_eq!(opt.as_ref().unwrap().elapsed, Some(76));
    assert_eq!(texts(&c.update()), vec![format!("{} (1:16 / 3:20) Artist - Title", icon::NOTE)]);
    let mut paused = Some(info(PlayState::Pause));
    assert!(media_timer(&mut c, &mut paused));
    assert_eq!(paused.as_ref().unwrap().elapsed, Some(75));
    let mut none: Option<Info> = None;
    assert!(media_timer(&mut c, &mut none));
    let mut broken = Some(info(PlayState::Play));
    broken.as_mut().unwrap().total = None;
    assert!(!media_timer(&mut c, &mut broken));
    assert_eq!(broken.as_ref().unwrap().elapsed, Some(75));
    let mut i = info(PlayState::Play);
    i.tick();
    assert_eq!(i.elapsed, Some(76));
}

#[test]
fn show_media_sets_or_clears_the_block() {
    let (mut c, _) = Controller::new();
    let out = show_media(&mut c, &Some(info(PlayState::Stop))).unwrap();
    assert_eq!(texts(&out), vec![icon::STOPPED.to_string()]);
    let out = show_media(&mut c, &None).unwrap();
    assert_eq!(texts(&out), Vec::<String>::new());
    let mut bad = info(PlayState::Play);
    bad.elapsed = None;
    assert_eq!(show_media(&mut c, &Some(bad)), None);
}

#[test]
fn clicks() {
    let mut e = ClickEvent::default();
    assert_eq!(click_action(&e), None);
    e.name = Some("error3".to_string());
    assert_eq!(click_action(&e), Some(ClickAction::ClearError("error3".to_string())));
    e.name = Some("mpd".to_string());
    e.button = 4;
    assert_eq!(click_action(&e), Some(ClickAction::MpdNext));
    e.button = 5;
    assert_eq!(click_action(&e), Some(ClickAction::MpdPrev));
    e.button = 1;
    assert_eq!(click_action(&e), Some(ClickAction::MpdToggle));
    e.name = Some("time".to_string());
    assert_eq!(click_action(&e), None);
}

#[test]
fn sysfs_selection() {
    assert!(selected("BAT0", Some("BAT")));
    assert!(!selected("AC", Some("BAT")));
    assert!(selected("AC", None));
}

#[test]
fn splitting_and_numbers() {
    assert_eq!(split("a b  c", ' '), vec!["a", "b", "", "c"]);
    assert_eq!(split("", ' '), vec![""]);
    assert_eq!(split(" x", ' '), vec!["", "x"]);
    assert_eq!(parse_u32("937"), Some(937));
    assert_eq!(parse_u32("+12"), Some(12));
    assert_eq!(parse_u32("4294967295"), Some(4294967295));
    assert_eq!(parse_u32("4294967296"), None);
    assert_eq!(parse_u32(""), None);
    assert_eq!(parse_u32("+"), None);
    assert_eq!(parse_u32("-1"), None);
    assert_eq!(parse_u32("12a"), None);
    assert_eq!(read_number(" 1200\n"), Some(1200));
    assert_eq!(read_number("\t42\u{A0}\r\n"), Some(42));
    assert_eq!(read_number("4 2"), None);
    for n in [0u32, 7, 10, 99, 100, 65535, 4294967295] {
        assert_eq!(parse_u32(&n.to_string()), Some(n));
    }
}

#[test]
fn written_numbers_read_back() {
    for n in [0u32, 5, 10, 1234, 4294967295] {
        let mut s = String::new();
        push_decimal(&mut s, n as u64);
        assert_eq!(s, n.to_string());
        assert_eq!(parse_u32(&s), Some(n));
    }
}

#[test]
fn split_pieces_join_back() {
    for text in ["", "a", "a b", " lead", "trail ", "a  b   c", "BAT 87.50% 02:13:44"] {
        assert_eq!(split(text, ' ').join(" "), text);
    }
}

#[test]
fn clock_blocks_from_a_reading() {
    let now = LocalTime { hour: 23, minute: 50, time: "23:50:12".to_string(), date: "2024-05-06".to_string() };
    let (t, d) = clock_blocks(&now);
    // 23:50 rounds to twelve o'clock
    assert_eq!(t.full_text, format!("{} 23:50:12 {}", '\u{1F55B}', '\u{1F303}'));
    assert_eq!(t.name.as_deref(), Some("time"));
    assert_eq!(d.full_text, format!("{} 2024-05-06", icon::CALENDAR));
    assert_eq!(d.name.as_deref(), Some("date"));
    let now = LocalTime { hour: 6, minute: 14, time: "06:14:00".to_string(), date: "x".to_string() };
    assert_eq!(clock_blocks(&now).0.full_text, format!("{} 06:14:00 {}", '\u{1F555}', '\u{1F305}'));
}

#[test]
fn time_shows_time_and_date() {
    let (mut c, _) = Controller::new();
    time(&mut c);
    let t = texts(&c.update());
    assert_eq!(t.len(), 2);
    assert_eq!(t[0].chars().count(), 1 + 1 + 8 + 1 + 1);
    assert!(t[1].starts_with(icon::CALENDAR));
}

use asus_numpad::detection::{
    detect_in_snapshots, detection_step, extract_name, parse_devices, start_detection,
    DetectionStep,
};
use asus_numpad::error::DriverError;

const TOUCHPAD_BLOCK: &str = "I: Bus=0018 Vendor=2808 Product=0108 Version=0100\n\
N: Name=\"ASUF1416:00 2808:0108 Touchpad\"\n\
P: Phys=i2c-ASUF1416:00\n\
S: Sysfs=/devices/pci0000:00/0000:00:15.1/i2c_designware.1/i2c-4/i2c-ASUF1416:00/0018:2808:0108.0002/input/input21\n\
H: Handlers=mouse2 event7\n\
B: EV=1b";

const KEYBOARD_BLOCK: &str = "I: Bus=0011 Vendor=0001 Product=0001 Version=ab83\n\
N: Name=\"AT Translated Set 2 keyboard\"\n\
P: Phys=isa0060/serio0/input0\n\
S: Sysfs=/devices/platform/i8042/serio0/input/input3\n\
H: Handlers=sysrq kbd leds event3\n\
B: EV=120013";

const OTHER_BLOCK: &str = "I: Bus=0019 Vendor=0000 Product=0001 Version=0000\n\
N: Name=\"Power Button\"\n\
H: Handlers=kbd event0";

fn registry(blocks: &[&str]) -> String {
    blocks.join("\n\n")
}

#[test]
fn finds_touchpad_and_keyboard() {
    let text = registry(&[OTHER_BLOCK, TOUCHPAD_BLOCK, KEYBOARD_BLOCK]);
    let d = parse_devices(&text).expect("both devices");
    assert_eq!(d.touchpad.name, "ASUF1416:00 2808:0108 Touchpad");
    assert_eq!(d.touchpad.event_path, "/dev/input/event7");
    assert_eq!(d.touchpad.i2c_bus, Some(4));
    assert_eq!(d.keyboard.name, "AT Translated Set 2 keyboard");
    assert_eq!(d.keyboard.event_path, "/dev/input/event3");
    assert_eq!(d.keyboard.i2c_bus, None);
    assert_eq!(d.i2c_address, 0x38);
}

#[test]
fn first_attempt_detection() {
    let text = registry(&[TOUCHPAD_BLOCK, KEYBOARD_BLOCK]);
    match detection_step(0, 5, &text) {
        DetectionStep::Found(d) => {
            assert_eq!(d.touchpad.event_path, "/dev/input/event7");
            assert_eq!(d.keyboard.event_path, "/dev/input/event3");
            assert_eq!(d.touchpad.i2c_bus, Some(4));
            assert_eq!(d.i2c_address, 0x38);
        }
        other => panic!("unexpected step {:?}", other),
    }
}

#[test]
fn other_vendor_uses_second_address() {
    let tp = TOUCHPAD_BLOCK.replace("ASUF1416:00 2808:0108 Touchpad", "ELAN1200:00 04F3:3090 Touchpad");
    let d = parse_devices(&registry(&[&tp, KEYBOARD_BLOCK])).unwrap();
    assert_eq!(d.touchpad.name, "ELAN1200:00 04F3:3090 Touchpad");
    assert_eq!(d.i2c_address, 0x15);
}

#[test]
fn asus_keyboard_is_recognised() {
    let kb = KEYBOARD_BLOCK.replace("AT Translated Set 2 keyboard", "Asus Keyboard");
    let d = parse_devices(&registry(&[&kb, TOUCHPAD_BLOCK])).unwrap();
    assert_eq!(d.keyboard.name, "Asus Keyboard");
}

#[test]
fn missing_keyboard_finds_nothing() {
    assert!(parse_devices(&registry(&[OTHER_BLOCK, TOUCHPAD_BLOCK])).is_none());
    assert!(parse_devices("").is_none());
}

#[test]
fn touchpad_without_event_is_skipped() {
    let no_event = TOUCHPAD_BLOCK.replace("mouse2 event7", "mouse2");
    let second = TOUCHPAD_BLOCK.replace("event7", "event9");
    let d = parse_devices(&registry(&[&no_event, &second, KEYBOARD_BLOCK])).unwrap();
    assert_eq!(d.touchpad.event_path, "/dev/input/event9");
}

#[test]
fn first_matching_block_wins() {
    let later = TOUCHPAD_BLOCK.replace("event7", "event12");
    let d = parse_devices(&registry(&[TOUCHPAD_BLOCK, &later, KEYBOARD_BLOCK])).unwrap();
    assert_eq!(d.touchpad.event_path, "/dev/input/event7");
}

#[test]
fn bus_number_too_large_is_dropped() {
    let tp = TOUCHPAD_BLOCK.replace("i2c-4/", "i2c-300/");
    let d = parse_devices(&registry(&[&tp, KEYBOARD_BLOCK])).unwrap();
    assert_eq!(d.touchpad.i2c_bus, None);
    let tp = TOUCHPAD_BLOCK.replace("i2c-4/", "i2c-255/");
    let d = parse_devices(&registry(&[&tp, KEYBOARD_BLOCK])).unwrap();
    assert_eq!(d.touchpad.i2c_bus, Some(255));
}

#[test]
fn bus_without_slash_is_absent() {
    let tp = TOUCHPAD_BLOCK.replace("i2c-4/", "i2c-4x");
    let d = parse_devices(&registry(&[&tp, KEYBOARD_BLOCK])).unwrap();
    assert_eq!(d.touchpad.i2c_bus, None);
}

#[test]
fn crlf_lines_are_read() {
    let text = registry(&[TOUCHPAD_BLOCK, KEYBOARD_BLOCK]).replace("B: EV", "B: EV").replace("\"\n", "\"\r\n");
    let d = parse_devices(&text).unwrap();
    assert_eq!(d.touchpad.name, "ASUF1416:00 2808:0108 Touchpad");
}

#[test]
fn name_extraction() {
    assert_eq!(extract_name("N: Name=\"Asus Keyboard\""), "Asus Keyboard");
    assert_eq!(extract_name("N: Name=\"N: Name=\"x\"\"\""), "x");
    assert_eq!(extract_name("N: Name=\"\""), "");
    assert_eq!(extract_name("plain"), "plain");
}

#[test]
fn detection_retries_then_times_out() {
    match start_detection(3) {
        DetectionStep::Attempt { index, pause } => assert_eq!((index, pause), (0, false)),
        other => panic!("unexpected step {:?}", other),
    }
    match detection_step(0, 3, OTHER_BLOCK) {
        DetectionStep::Attempt { index, pause } => assert_eq!((index, pause), (1, true)),
        other => panic!("unexpected step {:?}", other),
    }
    match detection_step(2, 3, OTHER_BLOCK) {
        DetectionStep::Failed(DriverError::DetectionTimeout(n)) => assert_eq!(n, 3),
        other => panic!("unexpected step {:?}", other),
    }
    match start_detection(0) {
        DetectionStep::Failed(DriverError::DetectionTimeout(n)) => assert_eq!(n, 0),
        other => panic!("unexpected step {:?}", other),
    }
}

#[test]
fn no_match_in_n_attempts_reports_n() {
    for n in 1..=4u32 {
        let snaps: Vec<String> = (0..n).map(|_| OTHER_BLOCK.to_string()).collect();
        match detect_in_snapshots(&snaps, n) {
            Err(DriverError::DetectionTimeout(k)) => assert_eq!(k, n),
            other => panic!("unexpected result {:?}", other),
        }
    }
}

#[test]
fn later_attempt_finds_devices() {
    let snaps = vec![
        OTHER_BLOCK.to_string(),
        registry(&[TOUCHPAD_BLOCK, KEYBOARD_BLOCK]),
        OTHER_BLOCK.to_string(),
    ];
    let d = detect_in_snapshots(&snaps, 3).unwrap();
    assert_eq!(d.touchpad.event_path, "/dev/input/event7");
    assert!(detect_in_snapshots(&snaps, 1).is_err());
}

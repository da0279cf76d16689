use chip8::display::render_rgba;
use chip8::input::{apply_input, keypad_index, process_input, InputEvent, ESCAPE};

#[test]
fn keyboard_layout_maps_sixteen_keys() {
    let layout = [
        ('x', 0x0), ('1', 0x1), ('2', 0x2), ('3', 0x3),
        ('q', 0x4), ('w', 0x5), ('e', 0x6), ('a', 0x7),
        ('s', 0x8), ('d', 0x9), ('z', 0xA), ('c', 0xB),
        ('4', 0xC), ('r', 0xD), ('f', 0xE), ('v', 0xF),
    ];
    for (key, index) in layout {
        assert_eq!(keypad_index(key), Some(index));
    }
    let mapped = (0..=0x7Fu8).filter(|c| keypad_index(*c as char).is_some()).count();
    assert_eq!(mapped, 16);
    assert_eq!(keypad_index('X'), None);
    assert_eq!(keypad_index('5'), None);
    assert_eq!(keypad_index(ESCAPE), None);
    assert_eq!(keypad_index('é'), None);
}

#[test]
fn key_down_and_up_set_and_clear_one_key() {
    let mut keys = [false; 16];
    assert!(!apply_input(&mut keys, InputEvent::KeyDown('w')));
    let mut expected = [false; 16];
    expected[5] = true;
    assert_eq!(keys, expected);
    assert!(!apply_input(&mut keys, InputEvent::KeyDown('v')));
    expected[0xF] = true;
    assert_eq!(keys, expected);
    assert!(!apply_input(&mut keys, InputEvent::KeyUp('w')));
    expected[5] = false;
    assert_eq!(keys, expected);
}

#[test]
fn other_keys_leave_the_keypad_alone() {
    let mut keys = [false; 16];
    keys[3] = true;
    assert!(!apply_input(&mut keys, InputEvent::KeyDown('p')));
    assert!(!apply_input(&mut keys, InputEvent::KeyUp('p')));
    assert!(!apply_input(&mut keys, InputEvent::KeyUp(ESCAPE)));
    let mut expected = [false; 16];
    expected[3] = true;
    assert_eq!(keys, expected);
}

#[test]
fn quit_and_escape_end_the_session() {
    let mut keys = [false; 16];
    keys[1] = true;
    assert!(apply_input(&mut keys, InputEvent::Quit));
    assert!(apply_input(&mut keys, InputEvent::KeyDown(ESCAPE)));
    assert!(keys[1]);
    assert_eq!(keys.iter().filter(|k| **k).count(), 1);
}

#[test]
fn process_input_applies_events_in_order() {
    let mut keys = [false; 16];
    let events = [
        InputEvent::KeyDown('q'),
        InputEvent::KeyDown('a'),
        InputEvent::KeyUp('q'),
        InputEvent::KeyDown('q'),
        InputEvent::KeyUp('a'),
        InputEvent::KeyDown('m'),
    ];
    assert!(!process_input(&mut keys, &events));
    let mut expected = [false; 16];
    expected[4] = true;
    assert_eq!(keys, expected);
}

#[test]
fn process_input_reports_a_quit_anywhere_in_the_run() {
    let mut keys = [false; 16];
    assert!(!process_input(&mut keys, &[]));
    assert!(process_input(&mut keys, &[InputEvent::Quit]));
    assert!(process_input(
        &mut keys,
        &[InputEvent::KeyDown('1'), InputEvent::KeyDown(ESCAPE), InputEvent::KeyDown('2')]
    ));
    assert!(keys[1] && keys[2]);
}

#[test]
fn render_rgba_writes_four_bytes_to_the_pixel() {
    let mut video = [false; 2048];
    video[0] = true;
    video[65] = true;
    video[2047] = true;
    let mut pixels = [0x55u8; 8192];
    render_rgba(&video, &mut pixels);
    for (i, byte) in pixels.iter().enumerate() {
        let on = i / 4 == 0 || i / 4 == 65 || i / 4 == 2047;
        assert_eq!(*byte, if on { 0xFF } else { 0x00 });
    }
}

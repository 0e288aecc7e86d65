use rusty_boy::cartridge::Error;
use rusty_boy::emulator::IllegalOpcode;
use rusty_boy::ppu::{Color, Frame};
use rusty_boy::playdate::{
    render_frame, GameRunner, GameSelector, HeldButtons, PickerButtons, PickerRow, Rom,
};

fn names(list: &[&str]) -> Vec<String> {
    list.iter().map(|s| s.to_string()).collect()
}

#[test]
fn selector_keeps_game_files() {
    let selector = GameSelector::new(names(&["readme.txt", "tetris.gb", "zelda.gb", "gb", "a.gbc"]));
    assert_eq!(selector.choice_names(), &names(&["tetris.gb", "zelda.gb"]));
}

fn push(a: bool, up: bool, down: bool) -> PickerButtons {
    PickerButtons { a, up, down }
}

#[test]
fn selector_moves_and_loads() {
    let mut selector = GameSelector::new(names(&["a.gb", "b.gb", "c.gb"]));
    assert_eq!(selector.update(push(false, false, true)), None);
    assert_eq!(selector.update(push(false, false, true)), None);
    // The last choice stays selected
    assert_eq!(selector.update(push(false, false, true)), None);
    assert_eq!(selector.update(push(true, false, false)), Some("c.gb".to_string()));
    assert_eq!(selector.update(push(false, true, false)), None);
    assert_eq!(selector.update(push(true, false, false)), Some("b.gb".to_string()));
    // Up and down together cancel out
    assert_eq!(selector.update(push(false, true, true)), None);
    assert_eq!(selector.update(push(true, false, false)), Some("b.gb".to_string()));
    assert_eq!(selector.update(push(false, true, false)), None);
    assert_eq!(selector.update(push(false, true, false)), None);
    assert_eq!(selector.update(push(true, false, false)), Some("a.gb".to_string()));

    let mut empty = GameSelector::new(Vec::new());
    assert_eq!(empty.update(push(true, true, false)), None);
    assert!(empty.picker_rows().is_empty());
}

#[test]
fn picker_pages() {
    let files: Vec<String> = (0..12).map(|i| format!("{i}.gb")).collect();
    let mut selector = GameSelector::new(files);
    let rows = selector.picker_rows();
    assert_eq!(rows.len(), 9);
    assert_eq!(rows[0], PickerRow { choice: 0, box_y: 8, text_y: 12, highlighted: true });
    assert_eq!(rows[8], PickerRow { choice: 8, box_y: 8 + 8 * 24, text_y: 12 + 8 * 24, highlighted: false });
    for _ in 0..10 {
        selector.update(push(false, false, true));
    }
    let rows = selector.picker_rows();
    assert_eq!(rows.len(), 9);
    assert_eq!(rows[0].choice, 2);
    assert_eq!(rows[8].choice, 10);
    assert!(rows[8].highlighted);
    assert!(rows[..8].iter().all(|r| !r.highlighted));
}

/// The rendering computed another way: with tables of the source column and line of each
/// pixel of the display, and bit after bit.
fn oracle(frame: &Frame) -> Vec<u8> {
    const TARGET_WIDTH: usize = 264;
    const TARGET_HEIGHT: usize = 240;
    let mut out = vec![0xAAu8; 52 * 240];
    let xs: Vec<(usize, u8)> = (0..TARGET_WIDTH)
        .map(|o| ((o * 160 + TARGET_WIDTH / 2) / TARGET_WIDTH, (o & 1) as u8))
        .collect();
    for y in 0..TARGET_HEIGHT {
        let (ppu_y, odd_y) = ((y * 144 + TARGET_HEIGHT / 2) / TARGET_HEIGHT, (y & 1) as u8);
        let mut it = xs.iter();
        for b in 0..TARGET_WIDTH / 8 {
            let mut byte = 0u8;
            for bit in 0..8 {
                let (ppu_x, odd_x) = it.next().unwrap();
                let odd = odd_y | odd_x;
                let on = match frame[ppu_y][*ppu_x] {
                    Color::White => 1,
                    Color::LightGrey => odd,
                    Color::DarkGrey => 1 - odd,
                    Color::Black => 0,
                };
                byte |= on << (7 - bit);
            }
            out[y * 52 + 8 + b] = byte;
        }
    }
    out
}

#[test]
fn render_matches_the_scaling_tables() {
    let mut frame: Frame = [[Color::White; 160]; 144];
    let mut seed: u32 = 12345;
    for line in frame.iter_mut() {
        for px in line.iter_mut() {
            seed = seed.wrapping_mul(1103515245).wrapping_add(12345);
            *px = match (seed >> 16) % 4 {
                0 => Color::White,
                1 => Color::LightGrey,
                2 => Color::DarkGrey,
                _ => Color::Black,
            };
        }
    }
    let mut target = vec![0xAAu8; 52 * 240];
    render_frame(&mut target, &frame);
    assert_eq!(target, oracle(&frame));

    // The grays are dithered
    let frame: Frame = [[Color::LightGrey; 160]; 144];
    let mut target = vec![0u8; 52 * 240];
    render_frame(&mut target, &frame);
    assert_eq!(target[8], 0b0101_0101);
    assert_eq!(target[52 + 8], 0xFF);
    assert_eq!(target[7], 0);
    assert_eq!(target[41], 0);

    // A short buffer gets its whole lines only
    let mut target = vec![3u8; 60];
    render_frame(&mut target, &frame);
    assert_eq!(target[8], 0b0101_0101);
    assert_eq!(&target[52..], &[3u8; 8]);
}

fn make_rom(cartridge_type: u8, ram_code: u8) -> Vec<u8> {
    let mut data = vec![0u8; 0x8000];
    data[0x134] = b'G';
    data[0x147] = cartridge_type;
    data[0x149] = ram_code;
    // jp 0x150; at 0x150: jr -2
    data[0x100] = 0xC3;
    data[0x101] = 0x50;
    data[0x102] = 0x01;
    data[0x150] = 0x18;
    data[0x151] = 0xFE;
    data
}

#[test]
fn runner_starts_runs_and_saves() {
    let rom = Rom { file_name: "game.gb".to_string(), data: make_rom(0x1B, 2) };
    let saved = vec![9u8; 8 * 1024];
    let mut runner = GameRunner::new(rom, Some(&saved)).unwrap();
    assert_eq!(runner.game_name(), "game.gb");
    let held = HeldButtons { a: true, b: false, left: false, right: false, up: false, down: false };
    for i in 0..3 {
        let frame = runner.update(held, i == 0, false).unwrap();
        assert_eq!(frame.len(), 144);
    }
    assert_eq!(runner.save_data().unwrap(), &saved[..]);

    let rom = Rom { file_name: "game.gb".to_string(), data: make_rom(0x1B, 2) };
    assert_eq!(
        GameRunner::new(rom, Some(&[1, 2])).err().map(|e| e),
        Some(Error::UnexpectedRamSize { expected: 8 * 1024, actual: 2 })
    );
    let rom = Rom { file_name: "plain.gb".to_string(), data: make_rom(0x00, 0) };
    assert_eq!(GameRunner::new(rom, Some(&[1])).err(), Some(Error::CartridgeHasNoRam));
    let rom = Rom { file_name: "plain.gb".to_string(), data: make_rom(0x00, 0) };
    let mut runner = GameRunner::new(rom, None).unwrap();
    assert!(runner.save_data().is_none());

    let mut data = make_rom(0x00, 0);
    data[0x100] = 0xD3;
    let rom = Rom { file_name: "bad.gb".to_string(), data };
    let mut runner = GameRunner::new(rom, None).unwrap();
    assert_eq!(runner.update(held, false, true).err(), Some(IllegalOpcode(0x101)));
}

#[test]
fn menu_keys_stay_pressed_for_thirty_updates() {
    let rom = Rom { file_name: "game.gb".to_string(), data: make_rom(0x00, 0) };
    let mut runner = GameRunner::new(rom, None).unwrap();
    let held = HeldButtons { a: false, b: false, left: false, right: false, up: false, down: false };
    assert_eq!(runner.menu_counters(), (0, 0));
    runner.update(held, true, false).unwrap();
    assert_eq!(runner.menu_counters(), (29, 0));
    for k in 1..30 {
        runner.update(held, false, k == 10).unwrap();
        assert_eq!(runner.menu_counters().0, 29 - k);
    }
    runner.update(held, false, false).unwrap();
    assert_eq!(runner.menu_counters().0, 0);
    assert_eq!(runner.menu_counters().1, 9);
}

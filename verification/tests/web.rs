use rusty_boy::cartridge::Error;
use rusty_boy::joypad::{Key, State};
use rusty_boy::ppu::Color;
use rusty_boy::web::{canvas_pixels, save_state_key, to_color_array, web_key, Game, LoadError};

fn make_rom(cartridge_type: u8, ram_code: u8) -> Vec<u8> {
    let mut data = vec![0u8; 0x8000];
    for (i, b) in b"WEBGAME".iter().enumerate() {
        data[0x134 + i] = *b;
    }
    data[0x147] = cartridge_type;
    data[0x149] = ram_code;
    data[0x100] = 0xC3;
    data[0x101] = 0x50;
    data[0x102] = 0x01;
    data[0x150] = 0x18;
    data[0x151] = 0xFE;
    data
}

#[test]
fn canvas_colors() {
    assert_eq!(to_color_array(Color::Black), [15, 56, 15, 255]);
    assert_eq!(to_color_array(Color::DarkGrey), [48, 98, 48, 255]);
    assert_eq!(to_color_array(Color::LightGrey), [139, 172, 15, 255]);
    assert_eq!(to_color_array(Color::White), [155, 188, 15, 255]);
    let mut frame = [[Color::Black; 160]; 144];
    frame[0][1] = Color::White;
    let pixels = canvas_pixels(&frame);
    assert_eq!(pixels.len(), 4 * 160 * 144);
    assert_eq!(&pixels[0..8], &[15, 56, 15, 255, 155, 188, 15, 255]);
}

#[test]
fn browser_keys() {
    assert_eq!(web_key(&"a".to_string()), Some(Key::A));
    assert_eq!(web_key(&"b".to_string()), Some(Key::B));
    assert_eq!(web_key(&"Enter".to_string()), Some(Key::Start));
    assert_eq!(web_key(&" ".to_string()), Some(Key::Select));
    assert_eq!(web_key(&"ArrowDown".to_string()), Some(Key::Down));
    assert_eq!(web_key(&"ArrowUp".to_string()), Some(Key::Up));
    assert_eq!(web_key(&"ArrowLeft".to_string()), Some(Key::Left));
    assert_eq!(web_key(&"ArrowRight".to_string()), Some(Key::Right));
    assert_eq!(web_key(&"A".to_string()), None);
    let mut state = State::new();
    state.set_key(web_key(&"Enter".to_string()).unwrap(), true);
    assert!(state.start);
    state.set_key(Key::Start, false);
    assert_eq!(state, State::new());
}

#[test]
fn save_state_names() {
    assert_eq!(save_state_key(&"TETRIS".to_string()), "game_savestate:TETRIS");
}

#[test]
fn save_and_load_states() {
    let mut game = Game::new(make_rom(0x1B, 2));
    assert_eq!(game.game_name(), "WEBGAME");
    let pixels = game.tick().unwrap();
    assert_eq!(pixels.len(), 4 * 160 * 144);
    // A fresh cartridge RAM is all zeros: 8192 bytes, 2731 groups of base64
    let saved = game.save_state().unwrap();
    assert_eq!(saved.len(), 4 * 2731);
    assert!(saved.starts_with("AAAA"));
    assert!(saved.ends_with("AAA="));

    // Restore a RAM full of 0xFB, which encodes with URL-safe characters
    let mut other = Game::new(make_rom(0x1B, 2));
    let text = "-_v7".repeat(2730) + "-_s=";
    assert_eq!(other.load_state(Some(&text)), Ok(()));
    let back = other.save_state().unwrap();
    assert_eq!(back, text);
    assert!(other.tick().is_ok());

    assert_eq!(other.load_state(Some("not base64!")), Err(LoadError::InvalidBase64));
    assert_eq!(
        other.load_state(Some("AAAA")),
        Err(LoadError::Ram(Error::UnexpectedRamSize { expected: 8192, actual: 3 }))
    );
    assert_eq!(other.load_state(None), Ok(()));

    let mut plain = Game::new(make_rom(0x00, 0));
    assert_eq!(plain.save_state(), None);
    assert_eq!(plain.load_state(Some("AAAA")), Ok(()));
    let mut state = State::new();
    state.a = true;
    plain.update_keys(&state);
    assert!(plain.tick().is_ok());
}

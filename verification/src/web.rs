//! The logic of the front end that runs in a web browser: the keys of the keyboard, the
//! colors of the canvas, and the save states that are kept in the browser's storage as
//! URL-safe base64 text. The front end draws, listens to the keyboard and reads and writes the
//! storage; it hands the results to these functions and carries out what they decide.
use vstd::prelude::*;

use vstd::string::StringExecFns;
use vstd::utf8::encode_utf8;

use base64::Engine;

use crate::cartridge::{Cartridge, CartridgeModel, Error, lemma_cartridge_restore_backup};
use crate::address_space::GbModel;
use crate::emulator::{
    IllegalOpcode, RbModel, RustyBoy, initial_rb, rb_wf, restarted, runs_to_frame, with_keys,
};
use crate::header::title_bytes;
use crate::joypad::State;
use crate::joypad::Key;
use crate::mappers::{Mapper, mapper_accepts, mapper_for, new_mapper};
use crate::ppu::{Color, Frame};
use crate::surface::frame_pixel;

verus! {

#[verifier::external_type_specification]
#[verifier::external_body]
pub struct ExDecodeError(base64::DecodeError);

/// The URL-safe base64 encoding of `data`, with padding.
pub uninterp spec fn base64_url_encoded(data: Seq<u8>) -> Seq<char>;

/// The bytes that the URL-safe base64 text `text` decodes to, or `None` when it is not valid
/// base64 with padding.
pub uninterp spec fn base64_url_decoded(text: Seq<char>) -> Option<Seq<u8>>;

/// Encodes `data` as URL-safe base64 with padding (`base64::engine::general_purpose::URL_SAFE`).
/// The contract names the text, and states that decoding it gives back `data`, as the crate
/// documents of its engines; the encoding length must fit in `usize`, else the crate panics.
#[verifier::external_body]
fn base64_url_encode(data: &[u8]) -> (r: String)
    requires
        data@.len() / 3 * 4 + 4 <= usize::MAX,
    ensures
        r@ == base64_url_encoded(data@),
        base64_url_decoded(r@) == Some(data@),
{
    base64::engine::general_purpose::URL_SAFE.encode(data)
}

/// Decodes URL-safe base64 text with padding (`base64::engine::general_purpose::URL_SAFE`).
/// The contract names the decoded bytes, and states that the decoding fails exactly when the
/// text is not valid.
#[verifier::external_body]
fn base64_url_decode(text: &str) -> (r: Result<Vec<u8>, base64::DecodeError>)
    ensures
        match r {
            Ok(v) => base64_url_decoded(text@) == Some(v@),
            Err(_) => base64_url_decoded(text@) is None,
        },
{
    base64::engine::general_purpose::URL_SAFE.decode(text)
}

/// The color of the canvas for a color of the Game Boy: the four greens of its screen, opaque.
pub open spec fn canvas_color(c: Color) -> Seq<u8> {
    match c {
        Color::Black => seq![15u8, 56u8, 15u8, 255u8],
        Color::DarkGrey => seq![48u8, 98u8, 48u8, 255u8],
        Color::LightGrey => seq![139u8, 172u8, 15u8, 255u8],
        Color::White => seq![155u8, 188u8, 15u8, 255u8],
    }
}

/// The red, green, blue and alpha bytes of the canvas for a color of the Game Boy
pub fn to_color_array(color: Color) -> (r: [u8; 4])
    ensures
        r@ == canvas_color(color),
{
    let r = match color {
        Color::Black => [15, 56, 15, 255],
        Color::DarkGrey => [48, 98, 48, 255],
        Color::LightGrey => [139, 172, 15, 255],
        Color::White => [155, 188, 15, 255],
    };
    assert(r@ =~= canvas_color(color));
    r
}

/// The pixels of the canvas for a frame, line after line, 4 bytes each
pub fn canvas_pixels(frame: &Frame) -> (r: Vec<u8>)
    ensures
        r@.len() == 4 * 23040,
        forall|i: int|
            0 <= i < 4 * 23040 ==> #[trigger] r@[i] == canvas_color(frame_pixel(*frame, i / 4))[i
                % 4],
{
    let mut pixels: Vec<u8> = Vec::new();
    let mut k: usize = 0;
    while k < 23040
        invariant
            k <= 23040,
            pixels@.len() == 4 * k,
            forall|i: int|
                0 <= i < 4 * k ==> #[trigger] pixels@[i] == canvas_color(frame_pixel(*frame, i / 4))[i
                    % 4],
        decreases 23040 - k,
    {
        let c = to_color_array(frame[k / 160][k % 160]);
        pixels.push(c[0]);
        pixels.push(c[1]);
        pixels.push(c[2]);
        pixels.push(c[3]);
        k = k + 1;
    }
    pixels
}

/// The key of the Game Boy that a key of the browser stands for, by its name: A and B for
/// themselves, Enter for start, the space bar for select and the arrows for the direction
/// pad.
pub open spec fn spec_web_key(name: Seq<char>) -> Option<Key> {
    if name == "a"@ {
        Some(Key::A)
    } else if name == "b"@ {
        Some(Key::B)
    } else if name == "Enter"@ {
        Some(Key::Start)
    } else if name == " "@ {
        Some(Key::Select)
    } else if name == "ArrowDown"@ {
        Some(Key::Down)
    } else if name == "ArrowUp"@ {
        Some(Key::Up)
    } else if name == "ArrowLeft"@ {
        Some(Key::Left)
    } else if name == "ArrowRight"@ {
        Some(Key::Right)
    } else {
        None
    }
}

/// The key of the Game Boy that a key of the browser stands for, by its name (see
/// `spec_web_key`)
pub fn web_key(name: &String) -> (r: Option<Key>)
    ensures
        r == spec_web_key(name@),
{
    if *name == "a".to_owned() {
        Some(Key::A)
    } else if *name == "b".to_owned() {
        Some(Key::B)
    } else if *name == "Enter".to_owned() {
        Some(Key::Start)
    } else if *name == " ".to_owned() {
        Some(Key::Select)
    } else if *name == "ArrowDown".to_owned() {
        Some(Key::Down)
    } else if *name == "ArrowUp".to_owned() {
        Some(Key::Up)
    } else if *name == "ArrowLeft".to_owned() {
        Some(Key::Left)
    } else if *name == "ArrowRight".to_owned() {
        Some(Key::Right)
    } else {
        None
    }
}

/// The name under which the save state of a game is stored
pub fn save_state_key(game_name: &String) -> (r: String)
    ensures
        r@ == "game_savestate:"@ + game_name@,
{
    let key = String::from_str("game_savestate:");
    key.concat(game_name.as_str())
}

/// The outcome of a tick, with the address of an illegal opcode.
pub open spec fn tick_outcome(r: Result<Vec<u8>, IllegalOpcode>) -> Result<(), u16> {
    match r {
        Ok(_) => Ok(()),
        Err(e) => Err(e.0),
    }
}

/// Why a save state could not be loaded
#[derive(Debug, Clone, Copy, PartialEq, Eq, Structural)]
pub enum LoadError {
    /// The stored save state is not valid base64
    InvalidBase64,
    /// The cartridge refused the RAM of the save state
    Ram(Error),
}

/// A game running in the browser
pub struct Game {
    rusty_boy: RustyBoy,
    game_name: String,
}

impl Game {
    /// The emulator
    pub closed spec fn emulator(&self) -> RbModel {
        self.rusty_boy@
    }

    /// The title of the game
    pub closed spec fn name(&self) -> Seq<char> {
        self.game_name@
    }

    /// The emulator is well formed.
    pub open spec fn wf(&self) -> bool {
        rb_wf(self.emulator())
    }

    /// Starts the game of the ROM `data`, named by the title in its header
    pub fn new(data: Vec<u8>) -> (r: Self)
        requires
            mapper_accepts(data@),
            mapper_for(data@) is Ok,
        ensures
            r.wf(),
            initial_rb(r.emulator(), mapper_for(data@)->Ok_0),
            encode_utf8(r.name()) == title_bytes(data@),
    {
        let cartridge = match new_mapper(data) {
            Ok(c) => c,
            Err(_) => vstd::pervasive::unreached(),
        };
        let title = match cartridge.header() {
            Ok(h) => h.title.to_owned(),
            Err(_) => vstd::pervasive::unreached(),
        };
        Self { rusty_boy: RustyBoy::new_with_cartridge(cartridge), game_name: title }
    }

    /// The title of the game
    pub fn game_name(&self) -> (r: &String)
        ensures
            r@ == self.name(),
    {
        &self.game_name
    }

    /// Feeds the keys of the joypad to the emulator
    pub fn update_keys(&mut self, state: &State)
        requires
            old(self).wf(),
        ensures
            final(self).wf(),
            final(self).emulator() == with_keys(old(self).emulator(), *state),
            final(self).name() == old(self).name(),
    {
        self.rusty_boy.update_keys(state);
    }

    /// Runs the emulator to the end of a frame and returns the pixels of the canvas for it
    pub fn tick(&mut self) -> (r: Result<Vec<u8>, IllegalOpcode>)
        requires
            old(self).wf(),
        ensures
            final(self).wf(),
            final(self).name() == old(self).name(),
            exists|n: nat|
                #[trigger] runs_to_frame(
                    old(self).emulator(),
                    true,
                    n,
                    final(self).emulator(),
                    tick_outcome(r),
                ),
            r matches Ok(pixels) ==> pixels@.len() == 4 * 23040 && forall|i: int|
                0 <= i < 4 * 23040 ==> #[trigger] pixels@[i] == canvas_color(
                    final(self).emulator().gb.ppu.frame[i / 4 / 160][i / 4 % 160],
                )[i % 4],
    {
        let outcome = match self.rusty_boy.run_until_next_frame(true) {
            Ok(_) => Ok(()),
            Err(e) => Err(e),
        };
        match outcome {
            Ok(()) => {
                let frame = self.rusty_boy.frame();
                let pixels = canvas_pixels(frame);
                proof {
                    assert forall|i: int| 0 <= i < 4 * 23040 implies #[trigger] pixels@[i]
                        == canvas_color(
                        self.rusty_boy@.gb.ppu.frame[i / 4 / 160][i / 4 % 160],
                    )[i % 4] by {
                        let k = i / 4;
                        assert(0 <= k < 23040);
                        assert(frame@.map_values(|row: [Color; 160]| row@)[k / 160] == frame@[k
                            / 160]@);
                    }
                }
                Ok(pixels)
            },
            Err(e) => Err(e),
        }
    }

    /// The save state of the game: its battery-backed RAM as URL-safe base64 text; `None` when
    /// the cartridge has no battery-backed RAM. The length of the text must fit in `usize`.
    pub fn save_state(&mut self) -> (r: Option<String>)
        requires
            old(self).wf(),
            Cartridge::battery_view(old(self).emulator().gb.cartridge) matches Some(ram) ==> ram.len()
                / 3 * 4 + 4 <= usize::MAX,
        ensures
            final(self).emulator() == old(self).emulator(),
            final(self).name() == old(self).name(),
            match Cartridge::battery_view(old(self).emulator().gb.cartridge) {
                Some(ram) => r matches Some(text) && text@ == base64_url_encoded(ram)
                    && base64_url_decoded(text@) == Some(ram),
                None => r is None,
            },
    {
        if !self.rusty_boy.supports_battery_backed_ram() {
            return None;
        }
        match self.rusty_boy.get_cartridge_ram() {
            Some(ram) => Some(base64_url_encode(ram)),
            None => None,
        }
    }

    /// Loads a save state: without one, or for a cartridge without battery-backed RAM, nothing
    /// happens; otherwise the text is decoded, the emulator reset and the cartridge RAM
    /// restored from it
    pub fn load_state(&mut self, saved: Option<&str>) -> (r: Result<(), LoadError>)
        requires
            old(self).wf(),
        ensures
            final(self).wf(),
            final(self).name() == old(self).name(),
            match saved {
                None => r is Ok && final(self).emulator() == old(self).emulator(),
                Some(text) => match Cartridge::battery_view(old(self).emulator().gb.cartridge) {
                    None => r is Ok && final(self).emulator() == old(self).emulator(),
                    Some(current) => match base64_url_decoded(text@) {
                        None => r == Err::<(), LoadError>(LoadError::InvalidBase64)
                            && final(self).emulator() == old(self).emulator(),
                        Some(ram) => {
                            &&& restarted(
                                RbModel {
                                    gb: GbModel {
                                        cartridge: old(self).emulator().gb.cartridge,
                                        ..final(self).emulator().gb
                                    },
                                    ..final(self).emulator()
                                },
                                old(self).emulator(),
                            )
                            &&& if current.len() == ram.len() {
                                r is Ok && final(self).emulator().gb.cartridge
                                    == Cartridge::restore_view(
                                    old(self).emulator().gb.cartridge,
                                    ram,
                                )
                            } else {
                                r == Err::<(), LoadError>(
                                    LoadError::Ram(
                                        Error::UnexpectedRamSize {
                                            expected: current.len() as usize,
                                            actual: ram.len() as usize,
                                        },
                                    ),
                                ) && final(self).emulator().gb.cartridge == old(
                                    self,
                                ).emulator().gb.cartridge
                            }
                        },
                    },
                },
            },
    {
        let text = match saved {
            None => {
                return Ok(());
            },
            Some(text) => text,
        };
        if !self.rusty_boy.supports_battery_backed_ram() {
            return Ok(());
        }
        let ram = match base64_url_decode(text) {
            Ok(ram) => ram,
            Err(_) => {
                return Err(LoadError::InvalidBase64);
            },
        };
        self.rusty_boy.reset();
        match self.rusty_boy.restore_cartridge_ram(ram.as_slice()) {
            Ok(()) => Ok(()),
            Err(e) => Err(LoadError::Ram(e)),
        }
    }
}

/// A save state loads back into the game it was saved from: the text decodes to the
/// battery-backed RAM, of the size of that RAM, so loading it succeeds and leaves the
/// cartridge with that RAM.
pub proof fn lemma_save_state_round_trip(c: CartridgeModel, text: Seq<char>)
    requires
        Cartridge::wf_view(c),
        Cartridge::battery_view(c) matches Some(ram) && base64_url_decoded(text) == Some(ram),
    ensures
        base64_url_decoded(text) matches Some(ram) && Cartridge::battery_view(c) matches Some(
            current,
        ) && current.len() == ram.len() && Cartridge::battery_view(Cartridge::restore_view(c, ram))
            == Some(ram),
{
    let ram = Cartridge::battery_view(c)->Some_0;
    lemma_cartridge_restore_backup(c, ram);
}


} // verus!

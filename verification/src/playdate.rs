//! The logic of the front end for the Playdate handheld: the game picker, the keys that are
//! fed to the emulator, and the dithered rendering of a frame on the 1-bit display. The
//! front end lists the files, draws with the device's graphics and reads its buttons; it
//! hands the results to these functions and carries out what they decide.
use vstd::prelude::*;

use vstd::string::StringSliceAdditionalSpecFns;
use vstd::utf8::encode_utf8;

use crate::alu::Cycles;
use crate::cartridge::{Cartridge, CartridgeModel, Error};
use crate::emulator::{
    IllegalOpcode, RbModel, RustyBoy, frame_result, initial_rb, rb_wf, runs_to_frame, with_keys,
};
use crate::joypad::State;
use crate::mappers::{Mapper, mapper_accepts, mapper_for, new_mapper};
use crate::ppu::{Color, Frame};

verus! {

/// A ROM read from a file of the device
pub struct Rom {
    /// The name of the file
    pub file_name: String,
    /// The contents of the file
    pub data: Vec<u8>,
}

/// The number of choices that fit in a page of the picker
pub const BOXES_PER_PAGE: usize = 9;

/// The margin around the boxes of the picker, in pixels
pub const PADDING: i32 = 8;

/// The height of a line of text, in pixels
pub const TEXT_HEIGHT: i32 = 16;

/// The height of a box of the picker, in pixels
pub const BOX_HEIGHT: i32 = 24;

/// Whether a file name, as UTF-8 bytes, ends with `.gb`.
pub open spec fn is_game_file(name: Seq<u8>) -> bool {
    &&& name.len() >= 3
    &&& name[name.len() - 3] == 0x2E
    &&& name[name.len() - 2] == 0x67
    &&& name[name.len() - 1] == 0x62
}

/// The files of `files` whose names end with `.gb`, in their order.
pub open spec fn game_files(files: Seq<String>) -> Seq<String>
    decreases files.len(),
{
    if files.len() == 0 {
        Seq::empty()
    } else {
        let rest = game_files(files.drop_last());
        if is_game_file(encode_utf8(files.last()@)) {
            rest.push(files.last())
        } else {
            rest
        }
    }
}

/// The first choice that the picker shows: the selected choice is on the last row once it
/// is past the first page.
pub open spec fn first_visible(index: int) -> int {
    if index >= 9 {
        index - 8
    } else {
        0
    }
}

/// A row of the picker: the choice it shows, where its box and its text are drawn, and
/// whether it is highlighted.
#[derive(Debug, Clone, Copy, PartialEq, Eq, Structural)]
pub struct PickerRow {
    /// The index of the choice in the list of choices
    pub choice: usize,
    /// The top of the box
    pub box_y: i32,
    /// The top of the text
    pub text_y: i32,
    /// The box is drawn in black, with inverted text
    pub highlighted: bool,
}

/// The row `k` of the picker showing the choices from `first` with `index` selected.
pub open spec fn picker_row(index: int, k: int) -> PickerRow {
    PickerRow {
        choice: (first_visible(index) + k) as usize,
        box_y: (8 + 24 * k) as i32,
        text_y: (12 + 24 * k) as i32,
        highlighted: k == index || (index >= 9 && k == 8),
    }
}

/// The buttons pushed since the last update of the picker
#[derive(Debug, Clone, Copy, PartialEq, Eq, Structural)]
pub struct PickerButtons {
    /// The A button: load the selected game
    pub a: bool,
    /// Up: select the previous game
    pub up: bool,
    /// Down: select the next game
    pub down: bool,
}

/// Lets the player pick one of the games found on the device
pub struct GameSelector {
    index: usize,
    choices: Vec<String>,
}

/// Whether the name of `file` ends with `.gb`.
fn has_game_extension(file: &String) -> (r: bool)
    ensures
        r == is_game_file(encode_utf8(file@)),
{
    let bytes = file.as_str().as_bytes();
    let n = bytes.len();
    n >= 3 && bytes[n - 3] == 0x2E && bytes[n - 2] == 0x67 && bytes[n - 1] == 0x62
}

impl GameSelector {
    /// The selected choice
    pub closed spec fn index(&self) -> int {
        self.index as int
    }

    /// The names of the games to choose from
    pub closed spec fn choices(&self) -> Seq<String> {
        self.choices@
    }

    /// The selected choice is one of the choices, or the first when there are none.
    pub open spec fn wf(&self) -> bool {
        ||| 0 <= self.index() < self.choices().len()
        ||| self.index() == 0 && self.choices().len() == 0
    }

    /// The picker of the games among `files`: those whose names end with `.gb`, the first
    /// one selected
    pub fn new(files: Vec<String>) -> (r: Self)
        ensures
            r.wf(),
            r.index() == 0,
            r.choices() == game_files(files@),
    {
        let mut choices: Vec<String> = Vec::new();
        let mut i: usize = 0;
        while i < files.len()
            invariant
                i <= files@.len(),
                choices@ == game_files(files@.take(i as int)),
            decreases files@.len() - i,
        {
            assert(files@.take(i + 1).drop_last() == files@.take(i as int));
            if has_game_extension(&files[i]) {
                choices.push(files[i].clone());
            }
            i = i + 1;
        }
        assert(files@.take(files@.len() as int) == files@);
        Self { index: 0, choices }
    }

    /// The names of the games to choose from
    pub fn choice_names(&self) -> (r: &Vec<String>)
        ensures
            r@ == self.choices(),
    {
        &self.choices
    }

    /// Handles the pushed buttons: A loads the selected game, if there is one, and returns the
    /// name of its file; otherwise down and up move the selection within the choices.
    pub fn update(&mut self, pushed: PickerButtons) -> (r: Option<String>)
        requires
            old(self).wf(),
            old(self).choices().len() == 0 ==> !pushed.down,
        ensures
            final(self).wf(),
            final(self).choices() == old(self).choices(),
            pushed.a && old(self).choices().len() > 0 ==> r == Some(
                old(self).choices()[old(self).index()],
            ) && final(self).index() == old(self).index(),
            !(pushed.a && old(self).choices().len() > 0) ==> r is None && final(self).index() == {
                let i = if pushed.down && old(self).index() + 1 < old(self).choices().len() {
                    old(self).index() + 1
                } else {
                    old(self).index()
                };
                if pushed.up && i > 0 {
                    i - 1
                } else {
                    i
                }
            },
    {
        if pushed.a && !self.choices.is_empty() {
            return Some(self.choices[self.index].clone());
        }
        if pushed.down && self.index < self.choices.len() - 1 {
            self.index = self.index + 1;
        }
        if pushed.up && self.index > 0 {
            self.index = self.index - 1;
        }
        None
    }

    /// The rows that the picker shows: up to a page of choices, from the one that keeps the
    /// selected choice visible
    pub fn picker_rows(&self) -> (r: Vec<PickerRow>)
        requires
            self.wf(),
        ensures
            r@.len() == if self.choices().len() - first_visible(self.index()) < 9 {
                self.choices().len() - first_visible(self.index())
            } else {
                9
            },
            forall|k: int| 0 <= k < r@.len() ==> #[trigger] r@[k] == picker_row(self.index(), k),
    {
        let first = if self.index >= BOXES_PER_PAGE {
            self.index - BOXES_PER_PAGE + 1
        } else {
            0
        };
        let mut rows: Vec<PickerRow> = Vec::new();
        let mut k: usize = 0;
        let mut box_y: i32 = PADDING;
        let mut text_y: i32 = PADDING + (BOX_HEIGHT - TEXT_HEIGHT) / 2;
        while k < BOXES_PER_PAGE && first + k < self.choices.len()
            invariant
                self.wf(),
                first == first_visible(self.index()),
                k <= 9,
                first + k <= self.choices@.len(),
                rows@.len() == k,
                box_y == 8 + 24 * k,
                text_y == 12 + 24 * k,
                forall|j: int| 0 <= j < k ==> #[trigger] rows@[j] == picker_row(self.index(), j),
            decreases 9 - k,
        {
            let highlighted = k == self.index || (self.index >= BOXES_PER_PAGE && k
                == BOXES_PER_PAGE - 1);
            rows.push(PickerRow { choice: first + k, box_y, text_y, highlighted });
            box_y = box_y + BOX_HEIGHT;
            text_y = text_y + BOX_HEIGHT;
            k = k + 1;
        }
        rows
    }
}

/// The number of updates during which a key chosen in the system menu stays pressed
pub const DUMMY_BUTTON_CYCLES: usize = 30;

/// The number of cycles that the CPU runs before the other peripherals are updated: a coarse
/// step that trades accuracy for speed on the device
pub const CPU_STEP: usize = 60;

/// The buttons held on the device
#[derive(Debug, Clone, Copy, PartialEq, Eq, Structural)]
pub struct HeldButtons {
    /// The A button
    pub a: bool,
    /// The B button
    pub b: bool,
    /// The left direction
    pub left: bool,
    /// The right direction
    pub right: bool,
    /// The up direction
    pub up: bool,
    /// The down direction
    pub down: bool,
}

/// The counter of a key that the device lacks (select, start) after an update, and whether
/// the key is pressed: choosing it in the system menu restarts the counter, which then counts
/// down; the key is pressed while the counter runs.
pub open spec fn menu_key(cycles: usize, requested: bool) -> (usize, bool) {
    let c = if requested {
        30
    } else {
        cycles
    };
    if c > 0 {
        ((c - 1) as usize, true)
    } else {
        (0, false)
    }
}

/// The counter of a menu key `k` updates after the update at which the key was chosen, with
/// no other choice in between.
pub open spec fn menu_counter_after(k: nat) -> usize
    decreases k,
{
    if k == 0 {
        menu_key(0, true).0
    } else {
        menu_key(menu_counter_after((k - 1) as nat), false).0
    }
}

/// A key chosen in the system menu is pressed at the update at which it is chosen and at the
/// 29 updates that follow, 30 in all, and released afterwards.
pub proof fn lemma_menu_key_duration(k: nat)
    ensures
        menu_key(0, true).1,
        menu_counter_after(k) == if k < 29 {
            (29 - k) as usize
        } else {
            0usize
        },
        menu_key(menu_counter_after(k), false).1 == (k < 29),
    decreases k,
{
    if k > 0 {
        lemma_menu_key_duration((k - 1) as nat);
    }
}

/// The keys of the Game Boy: the held buttons of the device, and select and start.
pub open spec fn keys_of(held: HeldButtons, select: bool, start: bool) -> State {
    State {
        left: held.left,
        right: held.right,
        up: held.up,
        down: held.down,
        a: held.a,
        b: held.b,
        start: start,
        select: select,
    }
}

/// The emulator runs to the end of a frame without rendering it, then to the end of the next
/// one, which it renders; it stops early when the CPU meets an illegal opcode.
#[verifier::opaque]
pub open spec fn runs_two_frames(s0: RbModel, s2: RbModel, r: Result<(), u16>) -> bool {
    ||| exists|s1: RbModel, n1: nat, n2: nat|
        #![trigger runs_to_frame(s0, false, n1, s1, Ok::<(), u16>(())), runs_to_frame(s1, true, n2, s2, r)]
        runs_to_frame(s0, false, n1, s1, Ok::<(), u16>(())) && runs_to_frame(s1, true, n2, s2, r)
    ||| r is Err && exists|n1: nat| #[trigger] runs_to_frame(s0, false, n1, s2, r)
}

/// The outcome of a run, with the address of an illegal opcode.
pub open spec fn run_outcome(r: Result<(), IllegalOpcode>) -> Result<(), u16> {
    match r {
        Ok(()) => Ok(()),
        Err(e) => Err(e.0),
    }
}

proof fn lemma_two_frames(
    s0: RbModel,
    s1: RbModel,
    s2: RbModel,
    n1: nat,
    n2: nat,
    r: Result<(), u16>,
)
    requires
        runs_to_frame(s0, false, n1, s1, Ok::<(), u16>(())),
        runs_to_frame(s1, true, n2, s2, r),
    ensures
        runs_two_frames(s0, s2, r),
{
    reveal(runs_two_frames);
}

proof fn lemma_first_frame_fails(s0: RbModel, s1: RbModel, n1: nat, r: Result<(), u16>)
    requires
        r is Err,
        runs_to_frame(s0, false, n1, s1, r),
    ensures
        runs_two_frames(s0, s1, r),
{
    reveal(runs_two_frames);
}

/// Runs the emulator to the end of a frame without rendering it, then to the end of the next
/// one, which it renders: a lower framerate, but a better overall speed.
fn run_two_frames(rusty_boy: &mut RustyBoy) -> (r: Result<(), IllegalOpcode>)
    requires
        rb_wf(old(rusty_boy)@),
    ensures
        rb_wf(final(rusty_boy)@),
        runs_two_frames(old(rusty_boy)@, final(rusty_boy)@, run_outcome(r)),
{
    let ghost s0 = rusty_boy@;
    let first = match rusty_boy.run_until_next_frame(false) {
        Ok(_) => Ok(()),
        Err(e) => Err(e),
    };
    let ghost s1 = rusty_boy@;
    let ghost n1 = choose|n: nat| #[trigger] runs_to_frame(s0, false, n, s1, run_outcome(first));
    if let Err(e) = first {
        proof {
            lemma_first_frame_fails(s0, s1, n1, Err(e.0));
        }
        return Err(e);
    }
    let second = match rusty_boy.run_until_next_frame(true) {
        Ok(_) => Ok(()),
        Err(e) => Err(e),
    };
    proof {
        let n2 = choose|n: nat| #[trigger] runs_to_frame(s1, true, n, rusty_boy@, run_outcome(second));
        lemma_two_frames(s0, s1, rusty_boy@, n1, n2, run_outcome(second));
    }
    second
}

/// The emulator of a game that was just started, holding `cartridge`: at power on, with the
/// coarse CPU step.
pub open spec fn started(s: RbModel, cartridge: CartridgeModel) -> bool {
    &&& initial_rb(RbModel { cycle_step: 4, ..s }, cartridge)
    &&& s.cycle_step == 60
}

/// Runs a game
pub struct GameRunner {
    game: String,
    rusty_boy: RustyBoy,
    select_cycles: usize,
    start_cycles: usize,
}

impl GameRunner {
    /// The name of the file of the game
    pub closed spec fn game(&self) -> Seq<char> {
        self.game@
    }

    /// The emulator
    pub closed spec fn emulator(&self) -> RbModel {
        self.rusty_boy@
    }

    /// The number of updates for which select stays pressed
    pub closed spec fn select_cycles(&self) -> usize {
        self.select_cycles
    }

    /// The number of updates for which start stays pressed
    pub closed spec fn start_cycles(&self) -> usize {
        self.start_cycles
    }

    /// The emulator is well formed.
    pub open spec fn wf(&self) -> bool {
        rb_wf(self.emulator())
    }

    /// Starts the game of `rom`, restoring its cartridge RAM from `saved_game` when the device
    /// holds a save of it; fails when the ROM is refused or the save does not fit the
    /// cartridge
    pub fn new(rom: Rom, saved_game: Option<&[u8]>) -> (r: Result<Self, Error>)
        requires
            mapper_accepts(rom.data@),
        ensures
            match mapper_for(rom.data@) {
                Err(e) => r == Err::<Self, Error>(e),
                Ok(c) => match saved_game {
                    None => r matches Ok(g) && g.wf() && started(g.emulator(), c),
                    Some(data) => match Cartridge::battery_view(c) {
                        None => r == Err::<Self, Error>(Error::CartridgeHasNoRam),
                        Some(current) => if current.len() == data@.len() {
                            r matches Ok(g) && g.wf() && started(
                                g.emulator(),
                                Cartridge::restore_view(c, data@),
                            )
                        } else {
                            r == Err::<Self, Error>(
                                Error::UnexpectedRamSize {
                                    expected: current.len() as usize,
                                    actual: data@.len() as usize,
                                },
                            )
                        },
                    },
                },
            },
            r matches Ok(g) ==> g.game() == rom.file_name@ && g.select_cycles() == 0
                && g.start_cycles() == 0,
    {
        let cartridge = new_mapper(rom.data)?;
        let mut rusty_boy = RustyBoy::new_with_cartridge(cartridge);
        rusty_boy.configure_cpu_step(Cycles::new(CPU_STEP));
        if let Some(saved_game) = saved_game {
            rusty_boy.restore_cartridge_ram(saved_game)?;
        }
        Ok(Self { game: rom.file_name, rusty_boy, select_cycles: 0, start_cycles: 0 })
    }

    /// The name of the file of the game
    pub fn game_name(&self) -> (r: &String)
        ensures
            r@ == self.game(),
    {
        &self.game
    }

    /// The number of updates for which select and start stay pressed
    pub fn menu_counters(&self) -> (r: (usize, usize))
        ensures
            r == (self.select_cycles(), self.start_cycles()),
    {
        (self.select_cycles, self.start_cycles)
    }

    /// The battery-backed RAM of the cartridge, to be saved; `None` when the cartridge has none
    pub fn save_data(&mut self) -> (r: Option<&[u8]>)
        requires
            old(self).wf(),
        ensures
            match Cartridge::battery_view(old(self).emulator().gb.cartridge) {
                Some(ram) => r matches Some(s) && s@ == ram,
                None => r is None,
            },
    {
        if self.rusty_boy.supports_battery_backed_ram() {
            self.rusty_boy.get_cartridge_ram()
        } else {
            None
        }
    }

    /// Feeds the keys to the emulator and runs it for two frames, returning the second: the
    /// held buttons, and select and start while their menu counters run
    pub fn update(&mut self, held: HeldButtons, select_requested: bool, start_requested: bool) -> (r:
        Result<&Frame, IllegalOpcode>)
        requires
            old(self).wf(),
        ensures
            final(self).wf(),
            final(self).game() == old(self).game(),
            final(self).select_cycles() == menu_key(
                old(self).select_cycles(),
                select_requested,
            ).0,
            final(self).start_cycles() == menu_key(old(self).start_cycles(), start_requested).0,
            runs_two_frames(
                with_keys(
                    old(self).emulator(),
                    keys_of(
                        held,
                        menu_key(old(self).select_cycles(), select_requested).1,
                        menu_key(old(self).start_cycles(), start_requested).1,
                    ),
                ),
                final(self).emulator(),
                frame_result(r),
            ),
            r matches Ok(f) ==> f@.map_values(|row: [Color; 160]| row@)
                == final(self).emulator().gb.ppu.frame,
    {
        let keys = self.next_keys(held, select_requested, start_requested);
        self.rusty_boy.update_keys(&keys);
        match run_two_frames(&mut self.rusty_boy) {
            Ok(()) => Ok(self.rusty_boy.frame()),
            Err(e) => Err(e),
        }
    }

    /// The keys of the Game Boy, counting down the menu keys
    fn next_keys(&mut self, held: HeldButtons, select_requested: bool, start_requested: bool) -> (r:
        State)
        ensures
            final(self).rusty_boy == old(self).rusty_boy,
            final(self).game == old(self).game,
            final(self).select_cycles == menu_key(old(self).select_cycles, select_requested).0,
            final(self).start_cycles == menu_key(old(self).start_cycles, start_requested).0,
            r == keys_of(
                held,
                menu_key(old(self).select_cycles, select_requested).1,
                menu_key(old(self).start_cycles, start_requested).1,
            ),
    {
        if select_requested {
            self.select_cycles = DUMMY_BUTTON_CYCLES;
        }
        if start_requested {
            self.start_cycles = DUMMY_BUTTON_CYCLES;
        }
        let mut keys = State::new();
        keys.a = held.a;
        keys.b = held.b;
        keys.left = held.left;
        keys.right = held.right;
        keys.up = held.up;
        keys.down = held.down;
        if self.select_cycles > 0 {
            self.select_cycles = self.select_cycles - 1;
            keys.select = true;
        }
        if self.start_cycles > 0 {
            self.start_cycles = self.start_cycles - 1;
            keys.start = true;
        }
        keys
    }
}

/// The number of bytes of a line of the display of the device
pub const LCD_ROWSIZE: usize = 52;

/// The number of lines of the display of the device
pub const LCD_ROWS: usize = 240;

/// The width of the scaled frame: the height of the display times the aspect ratio of the
/// Game Boy (240 * 160 / 144 = 266), rounded down to whole bytes. The frame is 2 pixels
/// narrower than it should be, but each of its lines starts and ends on a byte.
pub const TARGET_WIDTH: usize = 264;

/// The first pixel of the scaled frame in a line: the frame is centered on the 400 pixels of
/// a line, on a byte
pub const X_OFFSET: usize = 64;

/// The column of the frame that the pixel `x` of the scaled frame shows.
pub open spec fn source_x(x: int) -> int {
    (x * 160 + 132) / 264
}

/// The line of the frame that the line `y` of the scaled frame shows.
pub open spec fn source_y(y: int) -> int {
    (y * 144 + 120) / 240
}

/// Whether a pixel of the display is lit for a color: the grays are dithered, light grey
/// lighting the pixels on an odd line or column and dark grey the others.
pub open spec fn dithered_on(c: Color, odd: bool) -> bool {
    match c {
        Color::White => true,
        Color::LightGrey => odd,
        Color::DarkGrey => !odd,
        Color::Black => false,
    }
}

/// Whether the pixel at line `y` and column `x` of the scaled frame is lit.
pub open spec fn scaled_pixel_on(frame: Frame, y: int, x: int) -> bool {
    dithered_on(frame@[source_y(y)]@[source_x(x)], y % 2 == 1 || x % 2 == 1)
}

/// The value of the first `k` pixels from column `x0` of line `y` of the scaled frame, as the
/// bits of a number, the first pixel in the highest bit.
pub open spec fn scaled_bits(frame: Frame, y: int, x0: int, k: nat) -> int
    decreases k,
{
    if k == 0 {
        0
    } else {
        scaled_bits(frame, y, x0, (k - 1) as nat) * 2 + if scaled_pixel_on(
            frame,
            y,
            x0 + k - 1,
        ) {
            1int
        } else {
            0int
        }
    }
}

/// The number of lines of the display that a buffer of `len` bytes holds whole, up to the
/// height of the display.
pub open spec fn display_lines(len: int) -> int {
    if len / 52 < 240 {
        len / 52
    } else {
        240
    }
}

/// The byte at `i` of a display buffer that held `old` before a frame was drawn: the bytes of
/// the scaled frame in each whole line, the other bytes as they were.
pub open spec fn display_byte(frame: Frame, old: Seq<u8>, i: int) -> u8 {
    if i / 52 < display_lines(old.len() as int) && 8 <= i % 52 < 41 {
        scaled_bits(frame, i / 52, (i % 52 - 8) * 8, 8) as u8
    } else {
        old[i]
    }
}

proof fn lemma_scaled_bits_bound(frame: Frame, y: int, x0: int, k: nat)
    requires
        k <= 8,
    ensures
        0 <= scaled_bits(frame, y, x0, k),
        k <= 7 ==> scaled_bits(frame, y, x0, k) < 128,
        scaled_bits(frame, y, x0, k) < 256,
    decreases k,
{
    if k > 0 {
        lemma_scaled_bits_bound(frame, y, x0, (k - 1) as nat);
        assert(k - 1 <= 6 ==> scaled_bits(frame, y, x0, (k - 1) as nat) < 64) by {
            if k - 1 <= 6 {
                lemma_scaled_bits_small(frame, y, x0, (k - 1) as nat);
            }
        }
    }
}

proof fn lemma_scaled_bits_small(frame: Frame, y: int, x0: int, k: nat)
    requires
        k <= 6,
    ensures
        0 <= scaled_bits(frame, y, x0, k) < 64,
        k <= 5 ==> scaled_bits(frame, y, x0, k) < 32,
        k <= 4 ==> scaled_bits(frame, y, x0, k) < 16,
        k <= 3 ==> scaled_bits(frame, y, x0, k) < 8,
        k <= 2 ==> scaled_bits(frame, y, x0, k) < 4,
        k <= 1 ==> scaled_bits(frame, y, x0, k) < 2,
        k == 0 ==> scaled_bits(frame, y, x0, k) == 0,
    decreases k,
{
    if k > 0 {
        lemma_scaled_bits_small(frame, y, x0, (k - 1) as nat);
    }
}

/// The byte of the display with the 8 pixels from column `x0` of line `y` of the scaled
/// frame.
fn scaled_byte(frame: &Frame, y: usize, x0: usize) -> (r: u8)
    requires
        y < 240,
        x0 + 8 <= 264,
    ensures
        r == scaled_bits(*frame, y as int, x0 as int, 8),
{
    let sy = (y * 144 + 120) / 240;
    assert(sy < 144) by (nonlinear_arith)
        requires
            y < 240,
            sy == (y * 144 + 120) / 240,
    ;
    let line = &frame[sy];
    let mut acc: u8 = 0;
    let mut k: usize = 0;
    while k < 8
        invariant
            k <= 8,
            y < 240,
            x0 + 8 <= 264,
            sy == source_y(y as int),
            *line == frame@[sy as int],
            acc as int == scaled_bits(*frame, y as int, x0 as int, k as nat),
        decreases 8 - k,
    {
        let x = x0 + k;
        let sx = (x * 160 + 132) / 264;
        assert(sx < 160) by (nonlinear_arith)
            requires
                x < 264,
                sx == (x * 160 + 132) / 264,
        ;
        let odd = y % 2 == 1 || x % 2 == 1;
        let on: u8 = match line[sx] {
            Color::White => 1,
            Color::LightGrey => if odd {
                1
            } else {
                0
            },
            Color::DarkGrey => if odd {
                0
            } else {
                1
            },
            Color::Black => 0,
        };
        proof {
            lemma_scaled_bits_bound(*frame, y as int, x0 as int, k as nat);
        }
        acc = acc * 2 + on;
        k = k + 1;
    }
    acc
}

/// Draws the frame on the display buffer of the device, line after line: each line of the
/// display shows a line of the frame, scaled to the height of the display and dithered, in the
/// bytes of the centered scaled frame; the other bytes, and what is past the last whole line
/// of the display, are left as they are.
pub fn render_frame(target: &mut [u8], frame: &Frame)
    ensures
        final(target)@.len() == old(target)@.len(),
        forall|i: int|
            0 <= i < old(target)@.len() ==> #[trigger] final(target)@[i] == display_byte(
                *frame,
                old(target)@,
                i,
            ),
{
    let lines = if target.len() / LCD_ROWSIZE < LCD_ROWS {
        target.len() / LCD_ROWSIZE
    } else {
        LCD_ROWS
    };
    let mut y: usize = 0;
    while y < lines
        invariant
            y <= lines,
            lines == display_lines(old(target)@.len() as int),
            target@.len() == old(target)@.len(),
            forall|i: int|
                0 <= i < target@.len() ==> #[trigger] target@[i] == if i / 52 < y {
                    display_byte(*frame, old(target)@, i)
                } else {
                    old(target)@[i]
                },
        decreases lines - y,
    {
        let mut b: usize = 0;
        while b < TARGET_WIDTH / 8
            invariant
                b <= 33,
                y < lines,
                lines == display_lines(old(target)@.len() as int),
                lines * 52 <= target@.len(),
                target@.len() == old(target)@.len(),
                forall|i: int|
                    0 <= i < target@.len() ==> #[trigger] target@[i] == if i / 52 < y || (i / 52
                        == y && i % 52 < 8 + b) {
                        display_byte(*frame, old(target)@, i)
                    } else {
                        old(target)@[i]
                    },
            decreases 33 - b,
        {
            let value = scaled_byte(frame, y, b * 8);
            let at = y * LCD_ROWSIZE + X_OFFSET / 8 + b;
            target[at] = value;
            b = b + 1;
        }
        y = y + 1;
    }
}

} // verus!

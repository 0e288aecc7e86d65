//! The Game Boy: the CPU, the DMA engine and the address space, run together frame by frame.
use vstd::prelude::*;

use crate::address_space::{
    GbAddressSpace, GbModel, gb_wf, gb_write, initial_gb, lemma_gb_ram_write_other,
    lemma_gb_ram_write_read, lemma_gb_write_wf,
};
use crate::alu::Cycles;
use crate::cartridge::{Cartridge, CartridgeModel, Error};
use crate::cpu::{
    Cpu, ExitReason, Registers, dec16, exit_cycles_ok, inc16, initial_registers,
    lemma_step_cycles, lemma_step_keeps, spec_pop, spec_push, spec_step, with_regs, word,
    write_closed,
};
use crate::interrupts::{ALL_INTERRUPTS, Interrupt, InterruptRegs, Interrupts, interrupt_mask};
use crate::joypad::{State, key_nibble};
use crate::mappers::Mapper;
use crate::memory::Memory;
use crate::ppu::dma::{DmaEngine, DmaState, dma_run, dma_wf, lemma_dma_run_keeps};
use crate::ppu::{Color, Frame, PpuModel, PpuResult, ppu_step, ppu_wf};
use crate::timer::timer_step;

verus! {

/// The address where the execution starts
pub const ENTRYPOINT: u16 = 0x100;

/// The CPU met an illegal opcode; it holds the address of the program counter.
#[derive(Debug, Clone, Copy, PartialEq, Eq, Structural)]
pub struct IllegalOpcode(pub u16);

/// The state of the emulator.
pub struct RbModel {
    /// The CPU
    pub cpu: Cpu,
    /// The DMA engine
    pub dma: DmaState,
    /// The address space
    pub gb: GbModel,
    /// Tracing of the instructions is requested
    pub debug: bool,
    /// The number of cycles the CPU runs before the other peripherals are updated
    pub cycle_step: usize,
}

/// The emulator at power on, holding `cartridge`: the CPU starts at the entrypoint, the
/// address space is at power on, the DMA is idle, tracing is off and the CPU runs 4 cycles
/// before the other peripherals are updated.
pub open spec fn initial_rb(s: RbModel, cartridge: CartridgeModel) -> bool {
    &&& s.cpu.regs == (crate::cpu::Registers { pc_reg: ENTRYPOINT, ..initial_registers() })
    &&& !s.cpu.halted
    &&& initial_gb(s.gb, cartridge)
    &&& s.dma == (DmaState { active: false, base_address: 0, current_element: 0 })
    &&& !s.debug
    &&& s.cycle_step == 4
}

/// The emulator `s2` is `s` reset: at power on with the cartridge of `s`, keeping the tracing
/// and the CPU step of `s`.
pub open spec fn restarted(s2: RbModel, s: RbModel) -> bool {
    &&& initial_rb(RbModel { debug: false, cycle_step: 4, ..s2 }, s.gb.cartridge)
    &&& s2.debug == s.debug
    &&& s2.cycle_step == s.cycle_step
}

/// The emulator with the keys of `state` on its joypad.
pub open spec fn with_keys(s: RbModel, state: State) -> RbModel {
    RbModel {
        gb: GbModel {
            joypad: crate::joypad::JoypadModel {
                buttons: key_nibble(state.a, state.b, state.select, state.start),
                dpad: key_nibble(state.right, state.left, state.up, state.down),
                ..s.gb.joypad
            },
            ..s.gb
        },
        ..s
    }
}

/// Whether the two bytes below the stack pointer `sp` are in the work RAM or in the high RAM.
pub open spec fn stack_in_ram(sp: u16) -> bool {
    (0xC002 <= sp <= 0xE000) || (0xFF82 <= sp <= 0xFFFF)
}

/// Popping right after pushing gives back the pushed word, and the stack pointer that the
/// push started from, when the stack is in the work RAM or the high RAM.
pub proof fn lemma_push_pop(c: Cpu, m: GbModel, v: u16)
    requires
        gb_wf(m),
        stack_in_ram(c.regs.sp_reg),
    ensures
        ({
            let (c1, m1) = spec_push::<GbAddressSpace>(c, m, v);
            let (c2, r) = spec_pop::<GbAddressSpace>(c1, m1);
            r == v && c2 == c
        }),
{
    let sp = c.regs.sp_reg;
    let p1 = dec16(sp);
    let p2 = dec16(p1);
    let hi = (v / 256) as u8;
    let lo = (v % 256) as u8;
    let m1 = gb_write(m, p1, hi);
    lemma_gb_write_wf(m, p1, hi);
    let m2 = gb_write(m1, p2, lo);
    lemma_gb_ram_write_read(m, p1, hi);
    lemma_gb_ram_write_read(m1, p2, lo);
    lemma_gb_ram_write_other(m1, p2, p1, lo);
    assert(inc16(p2) == p1 && inc16(p1) == sp);
    assert(word(hi, lo) == v);
    assert(with_regs(with_regs(c, Registers { sp_reg: p2, ..c.regs }), Registers {
        sp_reg: sp,
        ..c.regs
    }) == c);
}

/// The Game Boy emulator
pub struct RustyBoy {
    cpu: Cpu,
    dma_engine: DmaEngine,
    address_space: GbAddressSpace,
    debug: bool,
    cycle_step: Cycles,
}

impl View for RustyBoy {
    type V = RbModel;

    closed spec fn view(&self) -> RbModel {
        RbModel {
            cpu: self.cpu,
            dma: self.dma_engine@,
            gb: self.address_space@,
            debug: self.debug,
            cycle_step: self.cycle_step.0,
        }
    }
}

/// The invariant of the emulator: the address space and the DMA engine are well formed, and
/// the CPU runs between 1 and 416 cycles before the peripherals are updated.
pub open spec fn rb_wf(m: RbModel) -> bool {
    &&& gb_wf(m.gb)
    &&& dma_wf(m.dma)
    &&& 1 <= m.cycle_step <= 416
}

/// The interrupt registers with the flag of `irq` cleared.
pub open spec fn acknowledged(r: InterruptRegs, irq: Interrupt) -> InterruptRegs {
    InterruptRegs {
        flags_reg: Interrupts(r.flags_reg.0 & (!interrupt_mask(irq) & ALL_INTERRUPTS)),
        ..r
    }
}

/// The number of cycles of a step of the CPU.
pub open spec fn exit_cycles(r: ExitReason) -> usize {
    match r {
        ExitReason::Step(c) => c.0,
        ExitReason::InterruptTaken(c, _) => c.0,
        ExitReason::Stop(c) => c.0,
        ExitReason::Halt(c) => c.0,
        ExitReason::IllegalOpcode => 0,
    }
}

/// One step of the CPU on the address space, with the interrupts that are active.
#[verifier::opaque]
pub open spec fn cpu_step(cpu: Cpu, gb: GbModel) -> (Cpu, GbModel, ExitReason) {
    spec_step::<GbAddressSpace>(cpu, gb, gb.interrupt_regs.spec_active())
}

/// The cycles from `cycles` to `step`, or 0 past it.
pub open spec fn cycles_left(cycles: usize, step: usize) -> nat {
    if cycles >= step {
        0
    } else {
        (step - cycles) as nat
    }
}

/// The CPU and the address space after the CPU runs instructions from cycle `cycles` until
/// `step` cycles have elapsed, with the number of cycles run, or the address of an illegal
/// opcode. Before each instruction the active interrupts are read; a taken interrupt is
/// acknowledged.
pub open spec fn cpu_run(cpu: Cpu, gb: GbModel, cycles: usize, step: usize) -> (
    Cpu,
    GbModel,
    Result<usize, u16>,
)
    decreases cycles_left(cycles, step),
{
    if cycles >= step {
        (cpu, gb, Ok(cycles))
    } else {
        let (c2, g2, r) = cpu_step(cpu, gb);
        match r {
            ExitReason::IllegalOpcode => (c2, g2, Err(c2.regs.pc_reg)),
            _ => {
                let g3 = match r {
                    ExitReason::InterruptTaken(_, irq) => GbModel {
                        interrupt_regs: acknowledged(g2.interrupt_regs, irq),
                        ..g2
                    },
                    _ => g2,
                };
                let n = exit_cycles(r);
                if n == 0 || cycles + n > usize::MAX {
                    (c2, g3, Ok(cycles))
                } else {
                    cpu_run(c2, g3, (cycles + n) as usize, step)
                }
            },
        }
    }
}

/// One step of the emulator: the CPU runs `cycle_step` cycles (or a few more), then the PPU,
/// the timer and the DMA engine run for as many cycles, and the interrupts that the PPU and
/// the timer request are raised. The result is that of the PPU, or the address of an illegal
/// opcode that stopped the CPU.
#[verifier::opaque]
pub open spec fn rb_step(s: RbModel, render: bool) -> (RbModel, Result<PpuResult, u16>) {
    let (cpu2, gb2, r) = cpu_run(s.cpu, s.gb, 0, s.cycle_step);
    match r {
        Err(pc) => (RbModel { cpu: cpu2, gb: gb2, ..s }, Err(pc)),
        Ok(cycles) => {
            let (ppu3, dma3, ppu_irq, result) = ppu_step(gb2.ppu, s.dma, cycles, render);
            let (timer3, timer_irq) = timer_step(gb2.timer, cycles);
            let gb3 = GbModel { ppu: ppu3, timer: timer3, ..gb2 };
            let (dma4, gb4) = dma_run::<GbAddressSpace>(dma3, cycles as nat, gb3);
            let regs = gb4.interrupt_regs;
            let gb5 = GbModel {
                interrupt_regs: InterruptRegs {
                    flags_reg: Interrupts(regs.flags_reg.0 | (ppu_irq | timer_irq)),
                    ..regs
                },
                ..gb4
            };
            (RbModel { cpu: cpu2, dma: dma4, gb: gb5, ..s }, Ok(result))
        },
    }
}

/// The state after `k` steps of the emulator.
pub open spec fn run_steps(s: RbModel, render: bool, k: nat) -> RbModel
    decreases k,
{
    if k == 0 {
        s
    } else {
        rb_step(run_steps(s, render, (k - 1) as nat), render).0
    }
}

/// The first `k` steps of the emulator all leave the frame in progress.
pub open spec fn in_progress(s: RbModel, render: bool, k: nat) -> bool {
    forall|i: nat|
        i < k ==> #[trigger] rb_step(run_steps(s, render, i), render).1 matches Ok(
            PpuResult::InProgress(_),
        )
}

/// `s2` and the result `r` follow from `s` by steps of the emulator until one completes a frame
/// or stops at an illegal opcode: `n` steps, all but the last leaving the frame in progress.
pub open spec fn runs_to_frame(
    s: RbModel,
    render: bool,
    n: nat,
    s2: RbModel,
    r: Result<(), u16>,
) -> bool {
    &&& n >= 1
    &&& in_progress(s, render, (n - 1) as nat)
    &&& s2 == rb_step(run_steps(s, render, (n - 1) as nat), render).0
    &&& match rb_step(run_steps(s, render, (n - 1) as nat), render).1 {
        Ok(PpuResult::FrameComplete) => r is Ok,
        Err(pc) => r == Err::<(), u16>(pc),
        Ok(PpuResult::InProgress(_)) => false,
    }
}

/// The cycles left until the PPU enters the vertical blank, less than 456 below zero.
pub open spec fn frame_distance(p: PpuModel) -> int {
    if p.line < 144 {
        (144 - p.line) * 456 - p.cycles
    } else {
        (298 - p.line) * 456 - p.cycles
    }
}

/// The address spaces that are well formed, with the PPU at line `line` and cycle `cycles`.
pub open spec fn gb_at(line: usize, cycles: usize) -> spec_fn(GbModel) -> bool {
    |m: GbModel| gb_wf(m) && m.ppu.line == line && m.ppu.cycles == cycles
}

proof fn lemma_gb_at_closed(line: usize, cycles: usize)
    ensures
        write_closed::<GbAddressSpace>(gb_at(line, cycles)),
{
    assert forall|m: GbModel, a: u16, v: u8| gb_at(line, cycles)(m) implies #[trigger] gb_at(
        line,
        cycles,
    )(GbAddressSpace::write_view(m, a, v)) by {
        lemma_gb_write_wf(m, a, v);
    }
}

/// The CPU keeps the address space well formed and the line and cycle count of the PPU; it
/// runs at least `step` cycles, at most 39 more, a multiple of 4.
/// A step of the CPU takes 4 to 40 cycles, a multiple of 4, keeps the address space well
/// formed and the line and cycle count of the PPU.
proof fn lemma_cpu_step(cpu: Cpu, gb: GbModel)
    requires
        gb_wf(gb),
    ensures
        exit_cycles_ok(cpu_step(cpu, gb).2),
        gb_at(gb.ppu.line, gb.ppu.cycles)(cpu_step(cpu, gb).1),
{
    reveal(cpu_step);
    let irqs = gb.interrupt_regs.spec_active();
    lemma_step_cycles::<GbAddressSpace>(cpu, gb, irqs);
    lemma_gb_at_closed(gb.ppu.line, gb.ppu.cycles);
    lemma_step_keeps::<GbAddressSpace>(cpu, gb, irqs, gb_at(gb.ppu.line, gb.ppu.cycles));
}

proof fn lemma_cpu_run(cpu: Cpu, gb: GbModel, cycles: usize, step: usize)
    requires
        gb_wf(gb),
        cycles % 4 == 0,
        cycles < step + 40,
        step <= 416,
    ensures
        gb_wf(cpu_run(cpu, gb, cycles, step).1),
        cpu_run(cpu, gb, cycles, step).1.ppu.line == gb.ppu.line,
        cpu_run(cpu, gb, cycles, step).1.ppu.cycles == gb.ppu.cycles,
        cpu_run(cpu, gb, cycles, step).2 matches Ok(n) ==> step <= n < step + 40 && n % 4 == 0,
    decreases cycles_left(cycles, step),
{
    if cycles < step {
        let (c2, g2, r) = cpu_step(cpu, gb);
        lemma_cpu_step(cpu, gb);
        if !(r is IllegalOpcode) {
            let g3 = match r {
                ExitReason::InterruptTaken(_, irq) => GbModel {
                    interrupt_regs: acknowledged(g2.interrupt_regs, irq),
                    ..g2
                },
                _ => g2,
            };
            let n = exit_cycles(r);
            lemma_cpu_run(c2, g3, (cycles + n) as usize, step);
        }
    }
}

/// Every step of the emulator keeps its invariant; a step that leaves the frame in progress
/// brings the PPU closer to the vertical blank.
pub proof fn lemma_rb_step(s: RbModel, render: bool)
    requires
        rb_wf(s),
    ensures
        rb_wf(rb_step(s, render).0),
        rb_step(s, render).1 matches Ok(PpuResult::InProgress(_)) ==> frame_distance(
            rb_step(s, render).0.gb.ppu,
        ) < frame_distance(s.gb.ppu),
        frame_distance(rb_step(s, render).0.gb.ppu) > -456,
{
    reveal(rb_step);
    lemma_cpu_run(s.cpu, s.gb, 0, s.cycle_step);
    let (cpu2, gb2, r) = cpu_run(s.cpu, s.gb, 0, s.cycle_step);
    if let Ok(cycles) = r {
        let (ppu3, dma3, ppu_irq, result) = ppu_step(gb2.ppu, s.dma, cycles, render);
        crate::ppu::lemma_step_keeps_wf(gb2.ppu, s.dma, cycles, render);
        let (timer3, timer_irq) = timer_step(gb2.timer, cycles);
        let gb3 = GbModel { ppu: ppu3, timer: timer3, ..gb2 };
        lemma_gb_at_closed(ppu3.line, ppu3.cycles);
        lemma_dma_run_keeps::<GbAddressSpace>(
            dma3,
            cycles as nat,
            gb3,
            gb_at(ppu3.line, ppu3.cycles),
        );
        assert(gb_at(ppu3.line, ppu3.cycles)(gb3));
        let (dma4, gb4) = dma_run::<GbAddressSpace>(dma3, cycles as nat, gb3);
        assert(gb_at(ppu3.line, ppu3.cycles)(gb4));
        assert(dma_wf(dma3));
        assert(dma_wf(dma4)) by {
            lemma_dma_run_wf(dma3, cycles as nat, gb3);
        }
    }
}

/// Running the DMA engine keeps its invariant.
proof fn lemma_dma_run_wf(d: DmaState, cycles: nat, m: GbModel)
    requires
        dma_wf(d),
    ensures
        dma_wf(dma_run::<GbAddressSpace>(d, cycles, m).0),
    decreases cycles,
{
    if cycles >= 4 && d.active {
        let value = GbAddressSpace::read_view(m, (d.base_address + d.current_element) as u16);
        let m2 = GbAddressSpace::write_view(m, (0xFE00 + d.current_element) as u16, value);
        let next = (d.current_element + 1) as u16;
        lemma_dma_run_wf(
            DmaState { active: next != 160, current_element: next, ..d },
            (cycles - 4) as nat,
            m2,
        );
    }
}


/// The result of a step of the emulator, with the address of an illegal opcode as a number.
pub open spec fn step_result(r: Result<PpuResult, IllegalOpcode>) -> Result<PpuResult, u16> {
    match r {
        Ok(p) => Ok(p),
        Err(e) => Err(e.0),
    }
}

/// The outcome of running to the next frame, with the address of an illegal opcode as a number.
pub open spec fn frame_result(r: Result<&Frame, IllegalOpcode>) -> Result<(), u16> {
    match r {
        Ok(_) => Ok(()),
        Err(e) => Err(e.0),
    }
}

/// One step of the CPU on the address space.
fn run_cpu_step(cpu: &mut Cpu, address_space: &mut GbAddressSpace) -> (r: ExitReason)
    requires
        gb_wf(old(address_space)@),
    ensures
        (*final(cpu), final(address_space)@, r) == cpu_step(*old(cpu), old(address_space)@),
        gb_wf(final(address_space)@),
{
    let interrupts = address_space.interrupt_regs.active_interrupts();
    let r = cpu.step(address_space, interrupts);
    assert((*cpu, address_space@, r) == cpu_step(*old(cpu), old(address_space)@)) by {
        reveal(cpu_step);
    }
    r
}

impl RustyBoy {
    /// An emulator with the given cartridge, at power on, with the CPU at the entrypoint
    pub fn new_with_cartridge(cartridge: Cartridge) -> (r: Self)
        requires
            Cartridge::wf_view(cartridge@),
        ensures
            rb_wf(r@),
            initial_rb(r@, cartridge@),
    {
        let mut cpu = Cpu::new();
        cpu.get_mut_regs().pc_reg = ENTRYPOINT;
        Self {
            debug: false,
            cpu,
            dma_engine: DmaEngine::new(),
            address_space: GbAddressSpace::new(cartridge),
            cycle_step: Cycles::new(4),  // Default cycle step for maximum accuracy
        }
    }

    /// Resets the emulator to its state at power on, keeping the cartridge, the tracing and the
    /// CPU step
    pub fn reset(&mut self)
        requires
            rb_wf(old(self)@),
        ensures
            rb_wf(final(self)@),
            restarted(final(self)@, old(self)@),
    {
        let mut cpu = Cpu::new();
        cpu.get_mut_regs().pc_reg = ENTRYPOINT;
        self.cpu = cpu;
        self.dma_engine = DmaEngine::new();
        self.address_space.reset();
    }

    /// Requests the tracing of the instructions
    pub fn enable_debug(&mut self)
        requires
            rb_wf(old(self)@),
        ensures
            final(self)@ == (RbModel { debug: true, ..old(self)@ }),
            rb_wf(final(self)@),
    {
        self.debug = true;
    }

    /// Configures the number of cycles that the CPU runs before updating other peripherals.
    /// This makes the emulation less accurate, so be careful when using it, as it introduces
    /// jitter in operations around the CPU and reduces cycle accuracy.
    pub fn configure_cpu_step(&mut self, cycles: Cycles)
        requires
            rb_wf(old(self)@),
            1 <= cycles.0 <= 416,
        ensures
            final(self)@ == (RbModel { cycle_step: cycles.0, ..old(self)@ }),
            rb_wf(final(self)@),
    {
        self.cycle_step = cycles;
    }

    /// Whether the cartridge has battery-backed RAM
    pub fn supports_battery_backed_ram(&mut self) -> (r: bool)
        requires
            rb_wf(old(self)@),
        ensures
            r == Cartridge::battery_view(old(self)@.gb.cartridge) is Some,
            final(self)@ == old(self)@,
    {
        self.address_space.cartridge.battery_backed_ram().is_some()
    }

    /// Restores the battery-backed RAM of the cartridge from `data`
    pub fn restore_cartridge_ram(&mut self, data: &[u8]) -> (r: Result<(), Error>)
        requires
            rb_wf(old(self)@),
        ensures
            rb_wf(final(self)@),
            final(self)@ == (RbModel {
                gb: GbModel { cartridge: final(self)@.gb.cartridge, ..old(self)@.gb },
                ..old(self)@
            }),
            match Cartridge::battery_view(old(self)@.gb.cartridge) {
                None => r == Err::<(), Error>(Error::CartridgeHasNoRam)
                    && final(self)@.gb.cartridge == old(self)@.gb.cartridge,
                Some(current) => if current.len() == data@.len() {
                    r is Ok && final(self)@.gb.cartridge == Cartridge::restore_view(
                        old(self)@.gb.cartridge,
                        data@,
                    )
                } else {
                    r == Err::<(), Error>(
                        Error::UnexpectedRamSize {
                            expected: current.len() as usize,
                            actual: data@.len() as usize,
                        },
                    ) && final(self)@.gb.cartridge == old(self)@.gb.cartridge
                },
            },
    {
        self.address_space.cartridge.restore_battery_backed_ram(data)
    }

    /// The battery-backed RAM of the cartridge, if it has one
    pub fn get_cartridge_ram(&mut self) -> (r: Option<&[u8]>)
        requires
            rb_wf(old(self)@),
        ensures
            final(self)@ == old(self)@,
            match Cartridge::battery_view(old(self)@.gb.cartridge) {
                Some(ram) => r matches Some(s) && s@ == ram,
                None => r is None,
            },
    {
        self.address_space.cartridge.battery_backed_ram()
    }

    /// The last frame of the PPU
    pub fn frame(&self) -> (r: &Frame)
        ensures
            r@.map_values(|row: [Color; 160]| row@) == self@.gb.ppu.frame,
    {
        self.address_space.ppu.frame()
    }

    /// Updates the keys of the joypad from the given state
    pub fn update_keys(&mut self, state: &State)
        requires
            rb_wf(old(self)@),
        ensures
            rb_wf(final(self)@),
            final(self)@ == with_keys(old(self)@, *state),
    {
        self.address_space.joypad.update_buttons(state);
    }

    fn step(&mut self, render: bool) -> (r: Result<PpuResult, IllegalOpcode>)
        requires
            rb_wf(old(self)@),
        ensures
            final(self)@ == rb_step(old(self)@, render).0,
            step_result(r) == rb_step(old(self)@, render).1,
    {
        // Run a bunch of CPU cycles at once. This is technically potentially incorrect, but
        // saves a lot of emulation time
        let ghost cpu0 = self.cpu;
        let ghost gb0 = self.address_space@;
        let step = self.cycle_step.value();
        let mut cycles = Cycles::new(0);
        while cycles.value() < step
            invariant
                cpu_run(self.cpu, self.address_space@, cycles.0, step) == cpu_run(
                    cpu0,
                    gb0,
                    0,
                    step,
                ),
                gb_wf(self.address_space@),
                cycles.0 % 4 == 0,
                cycles.0 < step + 40,
                1 <= step <= 416,
                step == self.cycle_step.0,
                self.dma_engine@ == old(self).dma_engine@,
                self.debug == old(self).debug,
                self.cycle_step == old(self).cycle_step,
                cpu0 == old(self).cpu,
                gb0 == old(self).address_space@,
                dma_wf(self.dma_engine@),
            decreases cycles_left(cycles.0, step),
        {
            let ghost c_before = self.cpu;
            let ghost g_before = self.address_space@;
            let result = run_cpu_step(&mut self.cpu, &mut self.address_space);
            proof {
                lemma_cpu_step(c_before, g_before);
            }
            let c = match result {
                ExitReason::Step(c) => c,
                ExitReason::Stop(c) => c,
                ExitReason::Halt(c) => c,
                ExitReason::InterruptTaken(c, interrupt) => {
                    self.address_space.interrupt_regs.acknowledge(interrupt);
                    c
                },
                ExitReason::IllegalOpcode => {
                    proof {
                        reveal(rb_step);
                    }
                    return Err(IllegalOpcode(self.cpu.get_regs().pc_reg));
                },
            };
            cycles = cycles.plus(c);
        }
        let (ppu_interrupts, ppu_result) = self.address_space.ppu.step(
            cycles,
            &mut self.dma_engine,
            render,
        );
        let timer_interrupts = self.address_space.timer.step(cycles);
        self.dma_engine.run(cycles, &mut self.address_space);
        self.address_space.interrupt_regs.trigger(ppu_interrupts.bitor(timer_interrupts));
        proof {
            reveal(rb_step);
        }
        Ok(ppu_result)
    }

    /// Runs the emulator until the PPU completes a frame, and returns the frame; stops early,
    /// with the address of the program counter, when the CPU meets an illegal opcode.
    pub fn run_until_next_frame(&mut self, render: bool) -> (r: Result<&Frame, IllegalOpcode>)
        requires
            rb_wf(old(self)@),
        ensures
            rb_wf(final(self)@),
            exists|n: nat| #[trigger]
                runs_to_frame(old(self)@, render, n, final(self)@, frame_result(r)),
            r matches Ok(f) ==> f@.map_values(|row: [Color; 160]| row@) == final(self)@.gb.ppu.frame,
    {
        let ghost s0 = self@;
        let ghost mut k: nat = 0;
        loop
            invariant
                rb_wf(self@),
                s0 == old(self)@,
                self@ == run_steps(s0, render, k),
                in_progress(s0, render, k),
                frame_distance(self@.gb.ppu) > -456,
            decreases frame_distance(self@.gb.ppu) + 456,
        {
            let ghost before = self@;
            proof {
                lemma_rb_step(before, render);
            }
            let result = self.step(render);
            assert(self@ == run_steps(s0, render, k + 1));
            match result {
                Err(e) => {
                    let ghost n: nat = k + 1;
                    let r = Err(e);
                    assert(runs_to_frame(old(self)@, render, n, self@, frame_result(r)));
                    return r;
                },
                Ok(PpuResult::FrameComplete) => {
                    let ghost n: nat = k + 1;
                    let r = Ok(self.address_space.ppu.frame());
                    assert(runs_to_frame(old(self)@, render, n, self@, frame_result(r)));
                    return r;
                },
                Ok(PpuResult::InProgress(_)) => {
                    proof {
                        assert forall|i: nat| i < k + 1 implies #[trigger] rb_step(
                            run_steps(s0, render, i),
                            render,
                        ).1 matches Ok(PpuResult::InProgress(_)) by {
                            if i < k {
                                assert(in_progress(s0, render, k));
                            }
                        }
                        k = k + 1;
                    }
                },
            }
        }
    }
}

} // verus!

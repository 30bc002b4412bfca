use vstd::prelude::*;

use crate::cpu::{machine_state, stepped, fetches, Cpu, MachineState, Step, GP_REG_COUNT};
use crate::display::{blank_grid, Display};
use crate::error::Fault;
use crate::keyboard::Keyboard;
use crate::memory_bus::{initial_memory, splice, MemoryBus, EOF_BYTE, MEMORY_SIZE, ROM_START};
use crate::opcodes::{decode, spec_decode, OpCode, EOF_WORD, OP_SIZE};
use crate::timer::{ticked, Timer};

verus! {

/// Nanoseconds per instruction at the architecture's 500 Hz rate.
pub const CPU_SPEED_NS: u64 = 2_000_000;

/// The machine state right after a program is loaded: the program from
/// `ROM_START` on in memory with the font, registers zero, a blank screen
/// still to be shown, timers stopped.
pub open spec fn boot_state(rom: Seq<u8>) -> MachineState {
    MachineState {
        pc: ROM_START,
        v: Seq::new(GP_REG_COUNT as nat, |k: int| 0u8),
        i: 0,
        stack: Seq::empty(),
        halted: false,
        mem: splice(initial_memory(), ROM_START as int, rom),
        grid: blank_grid(),
        redraw: true,
        delay: 0,
        sound: 0,
    }
}

/// A timer went from value `before` with reference time `at` to value
/// `after` with reference time `at2` by one tick against some clock reading.
pub open spec fn ticked_once(before: u8, at: u64, after: u8, at2: u64) -> bool {
    exists|now: u64| #[trigger] ticked(before, at, now) == (after, at2)
}

/// One machine cycle through the intermediate state `mid`: the CPU steps
/// from `pre` to `mid` with result `r`; then only the timer values change.
pub open spec fn cycle_via(
    mid: MachineState,
    pre: MachineState,
    post: MachineState,
    keys: Seq<bool>,
    r: Result<Step, Fault>,
) -> bool {
    &&& stepped(pre, mid, keys, r)
    &&& post == MachineState { delay: post.delay, sound: post.sound, ..mid }
}

/// The word of the `k`-th two-byte chunk of a program: the sentinel byte
/// alone gives the end-of-program word; otherwise the chunk is big-endian.
pub open spec fn chunk_word(rom: Seq<u8>, k: int) -> u16 {
    if rom[2 * k] == EOF_BYTE {
        EOF_WORD
    } else {
        (rom[2 * k] as int * 256 + rom[2 * k + 1] as int) as u16
    }
}

/// Number of chunks of a program that make an instruction: every full
/// two-byte chunk, and a lone last byte if it is the sentinel.
pub open spec fn listing_len(rom: Seq<u8>) -> nat {
    if rom.len() % 2 == 1 && rom.last() == EOF_BYTE {
        rom.len() / 2 + 1
    } else {
        rom.len() / 2
    }
}

/// The whole machine: CPU, memory, the two timers, the framebuffer and the
/// keypad state.
pub struct Chip8 {
    pub cpu: Cpu,
    pub mem_bus: MemoryBus,
    pub delay_timer: Timer,
    pub sound_timer: Timer,
    pub display: Display,
    pub keyboard: Keyboard,
}

impl Chip8 {
    /// Every part well formed.
    pub open spec fn wf(&self) -> bool {
        &&& self.cpu.wf()
        &&& self.mem_bus.wf()
        &&& self.display.wf()
        &&& self.keyboard.wf()
    }

    /// The state that instructions read and change.
    pub open spec fn state(&self) -> MachineState {
        machine_state(&self.cpu, &self.mem_bus, &self.display, &self.delay_timer, &self.sound_timer)
    }

    /// A machine with `rom` loaded at `ROM_START`, ready to run it;
    /// `ProgramTooLarge` if it does not fit in memory.
    pub fn new(rom: &[u8]) -> (r: Result<Chip8, Fault>)
        ensures
            rom@.len() <= MEMORY_SIZE - ROM_START <==> r is Ok,
            r is Err ==> r == Err::<Chip8, Fault>(Fault::ProgramTooLarge),
            r matches Ok(c) ==> {
                &&& c.wf()
                &&& c.state() == boot_state(rom@)
                &&& c.cpu.counter == 0
                &&& forall|k: int| 0 <= k < 16 ==> !#[trigger] c.keyboard@[k]
            },
    {
        let mut mem_bus = MemoryBus::new();
        match mem_bus.load_rom(rom) {
            Ok(()) => {},
            Err(e) => return Err(e),
        }
        let c8 = Chip8 {
            cpu: Cpu::new(),
            mem_bus,
            delay_timer: Timer::new(),
            sound_timer: Timer::new(),
            display: Display::new(),
            keyboard: Keyboard::new(),
        };
        assert(c8.cpu.stack@ =~= Seq::empty());
        assert(c8.state() == boot_state(rom@));
        Ok(c8)
    }

    /// Whether the end-of-program instruction has executed.
    pub fn should_exit(&self) -> (r: bool)
        ensures
            r == self.cpu.exit,
    {
        self.cpu.should_exit()
    }

    /// Whether the sound timer runs, so that a tone is due this cycle.
    pub fn sound_active(&self) -> (r: bool)
        ensures
            r == (self.sound_timer.spec_value() > 0),
    {
        self.sound_timer.get_value() > 0
    }

    /// Whether the machine loop runs another cycle: the program has not
    /// ended, the instruction budget `cycles`, if one is set, is not used
    /// up, and the instruction counter can still count.
    pub fn may_run(&self, cycles: Option<u64>) -> (r: bool)
        ensures
            r == (!self.cpu.exit && self.cpu.counter < u64::MAX && match cycles {
                Some(n) => self.cpu.counter < n,
                None => true,
            }),
    {
        let count = self.cpu.instruction_count();
        let in_budget = match cycles {
            Some(n) => count < n,
            None => true,
        };
        !self.should_exit() && count < u64::MAX && in_budget
    }

    /// One machine cycle: the CPU runs one instruction against the current
    /// key states, then both timers tick against the clock.
    pub fn execute_cycle(&mut self) -> (r: Result<Step, Fault>)
        requires
            old(self).wf(),
            old(self).cpu.counter < u64::MAX,
        ensures
            final(self).wf(),
            final(self).keyboard == old(self).keyboard,
            exists|mid: MachineState|
                #[trigger] cycle_via(
                    mid,
                    old(self).state(),
                    final(self).state(),
                    old(self).keyboard@,
                    r,
                ) && ticked_once(
                    mid.delay,
                    old(self).delay_timer.spec_at(),
                    final(self).state().delay,
                    final(self).delay_timer.spec_at(),
                ) && ticked_once(
                    mid.sound,
                    old(self).sound_timer.spec_at(),
                    final(self).state().sound,
                    final(self).sound_timer.spec_at(),
                ),
            final(self).cpu.counter == old(self).cpu.counter + if fetches(
                old(self).cpu.exit,
                old(self).mem_bus@,
                old(self).cpu.reg_pc,
            ) {
                1int
            } else {
                0int
            },
    {
        let r = self.cpu.execute_instruction(
            &mut self.mem_bus,
            &mut self.display,
            &self.keyboard,
            &mut self.delay_timer,
            &mut self.sound_timer,
        );
        let ghost mid = self.state();
        self.delay_timer.cycle();
        self.sound_timer.cycle();
        assert(cycle_via(mid, old(self).state(), self.state(), old(self).keyboard@, r));
        assert(ticked_once(
            mid.delay,
            old(self).delay_timer.spec_at(),
            self.state().delay,
            self.delay_timer.spec_at(),
        ));
        assert(ticked_once(
            mid.sound,
            old(self).sound_timer.spec_at(),
            self.state().sound,
            self.sound_timer.spec_at(),
        ));
        r
    }

    /// How long to pause after a cycle that took `elapsed_ns` so that
    /// instructions run at 500 Hz: the rest of the 2 ms period, or nothing
    /// if the cycle took that long already.
    pub fn pause_after(elapsed_ns: u64) -> (r: u64)
        ensures
            elapsed_ns < CPU_SPEED_NS ==> r == CPU_SPEED_NS - elapsed_ns,
            elapsed_ns >= CPU_SPEED_NS ==> r == 0,
    {
        if elapsed_ns < CPU_SPEED_NS {
            CPU_SPEED_NS - elapsed_ns
        } else {
            0
        }
    }

    /// The program listing of `rom`: for each instruction, its address
    /// when loaded, its word and what the word decodes to. Words are read
    /// two bytes at a time from the start, as `chunk_word` says; a lone
    /// last byte other than the sentinel makes no instruction.
    pub fn disassemble(rom: &[u8]) -> (r: Vec<(usize, u16, OpCode)>)
        requires
            rom@.len() + ROM_START <= usize::MAX,
        ensures
            r@.len() == listing_len(rom@),
            forall|k: int|
                0 <= k < r@.len() ==> #[trigger] r@[k] == (
                    (ROM_START + 2 * k) as usize,
                    chunk_word(rom@, k),
                    spec_decode(chunk_word(rom@, k)),
                ),
    {
        let mut listing: Vec<(usize, u16, OpCode)> = Vec::new();
        let mut pos: usize = 0;
        while pos < rom.len()
            invariant
                rom@.len() + ROM_START <= usize::MAX,
                pos % 2 == 0,
                pos <= rom@.len() + 1,
                listing@.len() == pos / 2,
                pos > rom@.len() ==> rom@.len() % 2 == 1 && rom@.last() == EOF_BYTE,
                forall|k: int|
                    0 <= k < listing@.len() ==> #[trigger] listing@[k] == (
                        (ROM_START + 2 * k) as usize,
                        chunk_word(rom@, k),
                        spec_decode(chunk_word(rom@, k)),
                    ),
            ensures
                listing@.len() == listing_len(rom@),
                forall|k: int|
                    0 <= k < listing@.len() ==> #[trigger] listing@[k] == (
                        (ROM_START + 2 * k) as usize,
                        chunk_word(rom@, k),
                        spec_decode(chunk_word(rom@, k)),
                    ),
            decreases rom@.len() + 1 - pos,
        {
            let word_1 = rom[pos];
            let instr = if word_1 == EOF_BYTE {
                EOF_WORD
            } else {
                if pos + 1 >= rom.len() {
                    break ;
                }
                let word_2 = rom[pos + 1];
                assert(((word_1 as u16) << 8) | (word_2 as u16) == (word_1 as int * 256
                    + word_2 as int) as u16) by (bit_vector);
                // opcodes are big-endian
                ((word_1 as u16) << 8) | (word_2 as u16)
            };
            listing.push((ROM_START + pos, instr, decode(instr)));
            pos = pos + OP_SIZE;
        }
        listing
    }
}

} // verus!

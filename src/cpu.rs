use vstd::prelude::*;

use crate::display::{blank_grid, collides, drawn, Display};
use crate::error::Fault;
use crate::keyboard::{key_held, Keyboard};
use crate::memory_bus::{glyph_address, spec_fetch, splice, MemoryBus, MEMORY_SIZE, ROM_START};
use crate::opcodes::{decode, spec_decode, OpCode, OP_SIZE};
use crate::timer::Timer;

verus! {

/// Number of general purpose registers, V0 to VF.
pub const GP_REG_COUNT: usize = 16;

/// The flag register.
pub const VF: usize = 0xF;

/// Levels of subroutine nesting.
pub const STACK_SIZE: usize = 16;

/// Relies on rand::random: a value drawn from the thread-local generator.
/// Nothing is promised of the value.
pub assume_specification<T>[ rand::random::<T> ]() -> (r: T)
    where
        rand::distributions::Standard: rand::distributions::Distribution<T>,
;

/// How an executed instruction leaves the machine.
#[derive(Clone, Copy, Debug, PartialEq, Eq, Structural)]
pub enum Step {
    /// Ready for the next instruction.
    Continue,
    /// The end-of-program instruction was reached; nothing more executes.
    Halted,
    /// Waiting for a key press, whose hex value goes to register `x`
    /// (see `Cpu::load_key`).
    AwaitKey(usize),
}

/// Everything an instruction can read or change: the CPU's registers and
/// stack, memory, the framebuffer with its change flag, and the two timers.
pub struct MachineState {
    pub pc: usize,
    pub v: Seq<u8>,
    pub i: u16,
    pub stack: Seq<usize>,
    pub halted: bool,
    pub mem: Seq<u8>,
    pub grid: Seq<bool>,
    pub redraw: bool,
    pub delay: u8,
    pub sound: u8,
}

/// The machine state that the parts hold.
pub open spec fn machine_state(
    cpu: &Cpu,
    mem: &MemoryBus,
    display: &Display,
    delay: &Timer,
    sound: &Timer,
) -> MachineState {
    MachineState {
        pc: cpu.reg_pc,
        v: cpu.reg_vx@,
        i: cpu.reg_i,
        stack: cpu.stack@,
        halted: cpu.exit,
        mem: mem@,
        grid: display@,
        redraw: display.spec_changed(),
        delay: delay.spec_value(),
        sound: sound.spec_value(),
    }
}

/// `n` reduced modulo 256.
pub open spec fn wrap8(n: int) -> u8 {
    (n % 256) as u8
}

/// The flag register's value for a condition.
pub open spec fn flag(b: bool) -> u8 {
    if b {
        1
    } else {
        0
    }
}

/// `v` with register `x` set to `value` and then the flag register to `f`.
pub open spec fn with_flag(v: Seq<u8>, x: usize, value: u8, f: u8) -> Seq<u8> {
    v.update(x as int, value).update(VF as int, f)
}

/// The state with the program counter moved past one instruction.
pub open spec fn advance(s: MachineState) -> MachineState {
    MachineState { pc: (s.pc + OP_SIZE) as usize, ..s }
}

/// The state with the next instruction skipped when `c` holds.
pub open spec fn skip_if(s: MachineState, c: bool) -> MachineState {
    if c {
        advance(s)
    } else {
        s
    }
}

/// What executing `op` does to state `s`, whose program counter already
/// points past the instruction: the new state and how it leaves the
/// machine, or the fault that stops it. `keys` are the held keys and `rnd`
/// the random byte that `SetRand` masks.
///
/// Arithmetic wraps modulo 256. An instruction that defines the flag
/// register writes it after its result, so the flag wins when the result
/// register is VF. The subtractions set VF to 1 when no borrow occurs (the
/// minuend is at least the subtrahend) and to 0 when one does.
pub open spec fn execute_spec(s: MachineState, op: OpCode, keys: Seq<bool>, rnd: u8) -> Result<
    (MachineState, Step),
    Fault,
> {
    let v = s.v;
    let next = |t: MachineState| Ok::<(MachineState, Step), Fault>((t, Step::Continue));
    match op {
        OpCode::Eof => Ok((MachineState { halted: true, ..s }, Step::Halted)),
        OpCode::DrawClr => next(MachineState { grid: blank_grid(), redraw: true, ..s }),
        OpCode::Return => if s.stack.len() == 0 {
            Err(Fault::StackUnderflow)
        } else {
            next(MachineState { pc: s.stack.last(), stack: s.stack.drop_last(), ..s })
        },
        OpCode::JpConst { nnn } => next(MachineState { pc: nnn, ..s }),
        OpCode::Call { nnn } => if s.stack.len() >= STACK_SIZE {
            Err(Fault::StackOverflow)
        } else {
            next(MachineState { pc: nnn, stack: s.stack.push(s.pc), ..s })
        },
        OpCode::SkpEqConst { x, nn } => next(skip_if(s, v[x as int] == nn)),
        OpCode::SkpNeConst { x, nn } => next(skip_if(s, v[x as int] != nn)),
        OpCode::SkpEqReg { x, y } => next(skip_if(s, v[x as int] == v[y as int])),
        OpCode::SetConst { x, nn } => next(MachineState { v: v.update(x as int, nn), ..s }),
        OpCode::AddConst { x, nn } => next(
            MachineState { v: v.update(x as int, wrap8(v[x as int] + nn)), ..s },
        ),
        OpCode::SetReg { x, y } => next(MachineState { v: v.update(x as int, v[y as int]), ..s }),
        OpCode::SetRegBor { x, y } => next(
            MachineState { v: v.update(x as int, v[x as int] | v[y as int]), ..s },
        ),
        OpCode::SetRegBand { x, y } => next(
            MachineState { v: v.update(x as int, v[x as int] & v[y as int]), ..s },
        ),
        OpCode::SetRegBxor { x, y } => next(
            MachineState { v: v.update(x as int, v[x as int] ^ v[y as int]), ..s },
        ),
        OpCode::SetRegAdd { x, y } => {
            let sum = v[x as int] + v[y as int];
            next(MachineState { v: with_flag(v, x, wrap8(sum), flag(sum > 255)), ..s })
        },
        OpCode::SetRegSub { x, y } => next(
            MachineState {
                v: with_flag(
                    v,
                    x,
                    wrap8(v[x as int] - v[y as int]),
                    flag(v[x as int] >= v[y as int]),
                ),
                ..s
            },
        ),
        OpCode::SetShr1 { x } => next(
            MachineState {
                v: with_flag(v, x, (v[x as int] / 2) as u8, (v[x as int] % 2) as u8),
                ..s
            },
        ),
        OpCode::SetRegRevSub { x, y } => next(
            MachineState {
                v: with_flag(
                    v,
                    x,
                    wrap8(v[y as int] - v[x as int]),
                    flag(v[y as int] >= v[x as int]),
                ),
                ..s
            },
        ),
        OpCode::SetShl1 { x } => next(
            MachineState {
                v: with_flag(v, x, wrap8(2 * v[x as int]), (v[x as int] / 128) as u8),
                ..s
            },
        ),
        OpCode::JpRegNe { x, y } => next(skip_if(s, v[x as int] != v[y as int])),
        OpCode::SetI { nnn } => next(MachineState { i: nnn, ..s }),
        OpCode::JpOffset { nnn } => next(MachineState { pc: (v[0] + nnn) as usize, ..s }),
        OpCode::SetRand { x, nn } => next(MachineState { v: v.update(x as int, rnd & nn), ..s }),
        OpCode::Draw { x, y, n } => if s.i + n > MEMORY_SIZE {
            Err(Fault::OutOfBounds)
        } else {
            let rows = s.mem.subrange(s.i as int, s.i + n);
            let (px, py) = (v[x as int] as int, v[y as int] as int);
            next(
                MachineState {
                    grid: drawn(s.grid, px, py, rows),
                    v: v.update(VF as int, flag(collides(s.grid, px, py, rows))),
                    redraw: true,
                    ..s
                },
            )
        },
        OpCode::SkpKeyEq { x } => next(skip_if(s, key_held(keys, v[x as int]))),
        OpCode::SkpKeyNe { x } => next(skip_if(s, !key_held(keys, v[x as int]))),
        OpCode::SetRegDelay { x } => next(MachineState { v: v.update(x as int, s.delay), ..s }),
        OpCode::SetKey { x } => Ok((s, Step::AwaitKey(x))),
        OpCode::SetDelay { x } => next(MachineState { delay: v[x as int], ..s }),
        OpCode::SetSound { x } => next(MachineState { sound: v[x as int], ..s }),
        OpCode::SetIRegAdd { x } => {
            let sum = s.i + v[x as int];
            next(
                MachineState {
                    i: (sum % 0x10000) as u16,
                    v: v.update(VF as int, flag(sum > 0xFFF)),
                    ..s
                },
            )
        },
        OpCode::SetISprite { x } => if v[x as int] > 0xF {
            Err(Fault::InvalidDigit)
        } else {
            next(MachineState { i: glyph_address(v[x as int]) as u16, ..s })
        },
        OpCode::SetBCD { x } => if s.i + 3 > MEMORY_SIZE {
            Err(Fault::OutOfBounds)
        } else {
            let d = v[x as int];
            next(
                MachineState {
                    mem: s.mem.update(s.i as int, d / 100).update(s.i + 1, (d % 100) / 10).update(
                        s.i + 2,
                        d % 10,
                    ),
                    ..s
                },
            )
        },
        OpCode::DumpReg { x } => if s.i + x + 1 > MEMORY_SIZE {
            Err(Fault::OutOfBounds)
        } else {
            next(MachineState { mem: splice(s.mem, s.i as int, v.subrange(0, x + 1)), ..s })
        },
        OpCode::LoadReg { x } => if s.i + x + 1 > MEMORY_SIZE {
            Err(Fault::OutOfBounds)
        } else {
            next(MachineState { v: splice(v, 0, s.mem.subrange(s.i as int, s.i + x + 1)), ..s })
        },
        OpCode::Unknown(w) => Err(Fault::UnknownInstruction(w)),
    }
}

/// `r` and the state after, `post`, are those that the outcome `res` gives
/// to the state before, `pre`: on a fault nothing has changed.
pub open spec fn outcome_holds(
    res: Result<(MachineState, Step), Fault>,
    pre: MachineState,
    post: MachineState,
    r: Result<Step, Fault>,
) -> bool {
    match res {
        Ok((s, st)) => post == s && r == Ok::<Step, Fault>(st),
        Err(f) => post == pre && r == Err::<Step, Fault>(f),
    }
}

/// One step of the machine from `pre` to `post` with result `r`: nothing
/// once halted; otherwise the instruction at the program counter is
/// fetched, the counter moved past it and the instruction executed, with
/// some random byte. A fault in the fetch changes nothing.
pub open spec fn stepped(
    pre: MachineState,
    post: MachineState,
    keys: Seq<bool>,
    r: Result<Step, Fault>,
) -> bool {
    if pre.halted {
        post == pre && r == Ok::<Step, Fault>(Step::Halted)
    } else {
        match spec_fetch(pre.mem, pre.pc as int) {
            Err(f) => post == pre && r == Err::<Step, Fault>(f),
            Ok(w) => exists|rnd: u8|
                #[trigger] outcome_holds(
                    execute_spec(advance(pre), spec_decode(w), keys, rnd),
                    advance(pre),
                    post,
                    r,
                ),
        }
    }
}

/// Whether a step from a state with the given halt flag and memory and
/// program counter fetched an instruction, and so counts one.
pub open spec fn fetches(halted: bool, mem: Seq<u8>, pc: usize) -> bool {
    !halted && spec_fetch(mem, pc as int) is Ok
}

/// The state after fetching and executing a call to each of `targets` in
/// turn from `s`: each call is the instruction at the program counter that
/// the previous call jumped to. The first fault stops the chain.
pub open spec fn call_chain(s: MachineState, targets: Seq<usize>) -> Result<MachineState, Fault>
    decreases targets.len(),
{
    if targets.len() == 0 {
        Ok(s)
    } else {
        match call_chain(s, targets.drop_last()) {
            Ok(t) => match execute_spec(
                advance(t),
                OpCode::Call { nnn: targets.last() },
                Seq::empty(),
                0,
            ) {
                Ok((u, _)) => Ok(u),
                Err(f) => Err(f),
            },
            Err(f) => Err(f),
        }
    }
}

/// Calls nest sixteen deep: from an empty stack, a chain of up to sixteen
/// calls succeeds, ends at the last target with one return address per
/// call on the stack, and a seventeenth call is the `StackOverflow` fault.
pub proof fn lemma_call_depth(s: MachineState, targets: Seq<usize>)
    requires
        s.stack.len() == 0,
        targets.len() <= STACK_SIZE + 1,
    ensures
        targets.len() <= STACK_SIZE ==> call_chain(s, targets) is Ok,
        targets.len() <= STACK_SIZE ==> call_chain(s, targets)->Ok_0.stack.len()
            == targets.len(),
        0 < targets.len() <= STACK_SIZE ==> call_chain(s, targets)->Ok_0.pc == targets.last(),
        targets.len() == STACK_SIZE + 1 ==> call_chain(s, targets) == Err::<MachineState, Fault>(
            Fault::StackOverflow,
        ),
    decreases targets.len(),
{
    if targets.len() > 0 {
        lemma_call_depth(s, targets.drop_last());
    }
}

/// A return undoes the call that pushed the top of the stack: in any state
/// whose stack is the one that a chain of calls left, a return goes back to
/// the instruction after the last call, with the stack as it was before
/// that call.
pub proof fn lemma_return_matches_call(
    s: MachineState,
    targets: Seq<usize>,
    u: MachineState,
    keys: Seq<bool>,
    rnd: u8,
)
    requires
        targets.len() > 0,
        call_chain(s, targets) is Ok,
        u.stack == call_chain(s, targets)->Ok_0.stack,
    ensures
        ({
            let before = call_chain(s, targets.drop_last())->Ok_0;
            &&& call_chain(s, targets.drop_last()) is Ok
            &&& execute_spec(u, OpCode::Return, keys, rnd) == Ok::<(MachineState, Step), Fault>(
                (MachineState { pc: advance(before).pc, stack: before.stack, ..u }, Step::Continue),
            )
        }),
{
    let before = call_chain(s, targets.drop_last())->Ok_0;
    assert(before.stack.push(advance(before).pc).drop_last() =~= before.stack);
}

/// Instructions that decide where execution goes on: jumps, calls,
/// returns, skips, the end of the program, clearing the screen, waiting for
/// a key and the unknown instruction.
spec fn is_flow_op(op: OpCode) -> bool {
    match op {
        OpCode::Eof
        | OpCode::DrawClr
        | OpCode::Return
        | OpCode::JpConst { .. }
        | OpCode::Call { .. }
        | OpCode::SkpEqConst { .. }
        | OpCode::SkpNeConst { .. }
        | OpCode::SkpEqReg { .. }
        | OpCode::JpRegNe { .. }
        | OpCode::JpOffset { .. }
        | OpCode::SkpKeyEq { .. }
        | OpCode::SkpKeyNe { .. }
        | OpCode::SetKey { .. }
        | OpCode::Unknown(_) => true,
        _ => false,
    }
}

/// The register-to-register arithmetic family (0x8XY_).
spec fn is_arith_op(op: OpCode) -> bool {
    match op {
        OpCode::SetReg { .. }
        | OpCode::SetRegBor { .. }
        | OpCode::SetRegBand { .. }
        | OpCode::SetRegBxor { .. }
        | OpCode::SetRegAdd { .. }
        | OpCode::SetRegSub { .. }
        | OpCode::SetShr1 { .. }
        | OpCode::SetRegRevSub { .. }
        | OpCode::SetShl1 { .. } => true,
        _ => false,
    }
}

/// Instructions that load a register, the address register or a timer.
spec fn is_register_op(op: OpCode) -> bool {
    match op {
        OpCode::SetConst { .. }
        | OpCode::AddConst { .. }
        | OpCode::SetI { .. }
        | OpCode::SetRand { .. }
        | OpCode::SetRegDelay { .. }
        | OpCode::SetDelay { .. }
        | OpCode::SetSound { .. }
        | OpCode::SetIRegAdd { .. }
        | OpCode::SetISprite { .. } => true,
        _ => false,
    }
}

/// Instructions that read or write memory.
spec fn is_memory_op(op: OpCode) -> bool {
    match op {
        OpCode::Draw { .. }
        | OpCode::SetBCD { .. }
        | OpCode::DumpReg { .. }
        | OpCode::LoadReg { .. } => true,
        _ => false,
    }
}

/// The register file, program counter and call stack.
pub struct Cpu {
    /// Program counter.
    pub reg_pc: usize,
    /// General purpose registers V0 to VF; VF doubles as the flag register.
    pub reg_vx: [u8; 16],
    /// Address register.
    pub reg_i: u16,
    /// Return addresses of the subroutine calls in progress.
    pub stack: Vec<usize>,
    /// Instructions fetched so far.
    pub counter: u64,
    /// Set once the end-of-program instruction has executed.
    pub exit: bool,
}

impl Cpu {
    /// The stack within its nesting limit.
    pub open spec fn wf(&self) -> bool {
        self.stack@.len() <= STACK_SIZE
    }

    /// A CPU at the start of a program: registers zero, empty stack.
    pub fn new() -> (r: Cpu)
        ensures
            r.wf(),
            r.reg_pc == ROM_START,
            r.reg_vx@ == Seq::new(GP_REG_COUNT as nat, |k: int| 0u8),
            r.reg_i == 0,
            r.stack@.len() == 0,
            r.counter == 0,
            !r.exit,
    {
        let r = Cpu {
            reg_pc: ROM_START,
            reg_vx: [0; GP_REG_COUNT],
            reg_i: 0,
            stack: Vec::with_capacity(STACK_SIZE),
            counter: 0,
            exit: false,
        };
        assert(r.reg_vx@ =~= Seq::new(GP_REG_COUNT as nat, |k: int| 0u8));
        r
    }

    /// Instructions fetched so far.
    pub fn instruction_count(&self) -> (r: u64)
        ensures
            r == self.counter,
    {
        self.counter
    }

    /// Whether the end-of-program instruction has executed.
    pub fn should_exit(&self) -> (r: bool)
        ensures
            r == self.exit,
    {
        self.exit
    }

    /// Completes a wait for a key: register `x` takes the key's hex value.
    pub fn load_key(&mut self, x: usize, key: u8)
        requires
            x < GP_REG_COUNT,
        ensures
            final(self).reg_vx@ == old(self).reg_vx@.update(x as int, key),
            final(self).reg_pc == old(self).reg_pc,
            final(self).reg_i == old(self).reg_i,
            final(self).stack == old(self).stack,
            final(self).counter == old(self).counter,
            final(self).exit == old(self).exit,
    {
        self.reg_vx[x] = key;
    }

    /// Runs one instruction: nothing once halted; otherwise fetches the word
    /// at the program counter, counts it, moves the counter past it and
    /// executes it. A fault in the fetch changes nothing.
    pub fn execute_instruction(
        &mut self,
        memory_bus: &mut MemoryBus,
        display: &mut Display,
        keyboard: &Keyboard,
        delay_timer: &mut Timer,
        sound_timer: &mut Timer,
    ) -> (r: Result<Step, Fault>)
        requires
            old(self).wf(),
            old(memory_bus).wf(),
            old(display).wf(),
            keyboard.wf(),
            old(self).counter < u64::MAX,
        ensures
            final(self).wf(),
            final(memory_bus).wf(),
            final(display).wf(),
            stepped(
                machine_state(old(self), old(memory_bus), old(display), old(delay_timer), old(sound_timer)),
                machine_state(final(self), final(memory_bus), final(display), final(delay_timer), final(sound_timer)),
                keyboard@,
                r,
            ),
            final(self).counter == old(self).counter + if fetches(
                old(self).exit,
                old(memory_bus)@,
                old(self).reg_pc,
            ) {
                1int
            } else {
                0int
            },
            final(delay_timer).spec_at() == old(delay_timer).spec_at(),
            final(sound_timer).spec_at() == old(sound_timer).spec_at(),
    {
        if self.exit {
            return Ok(Step::Halted);
        }
        let instr = match memory_bus.read_instruction(self.reg_pc) {
            Ok(w) => w,
            Err(e) => return Err(e),
        };
        let opcode = decode(instr);
        self.counter += 1;
        // step over the instruction before executing it, since some
        // instructions set the program counter themselves
        self.reg_pc += OP_SIZE;
        let rnd: u8 = match opcode {
            OpCode::SetRand { .. } => rand::random::<u8>(),
            _ => 0,
        };
        self.execute(opcode, memory_bus, display, keyboard, delay_timer, sound_timer, rnd)
    }

    /// Executes `op`, whose word has been fetched and stepped over: the
    /// program counter already points past it. `rnd` is the random byte
    /// that `SetRand` masks. On a fault nothing changes.
    pub fn execute(
        &mut self,
        op: OpCode,
        mem: &mut MemoryBus,
        display: &mut Display,
        keyboard: &Keyboard,
        delay_timer: &mut Timer,
        sound_timer: &mut Timer,
        rnd: u8,
    ) -> (r: Result<Step, Fault>)
        requires
            old(self).wf(),
            old(mem).wf(),
            old(display).wf(),
            keyboard.wf(),
            op.wf(),
            old(self).reg_pc <= MEMORY_SIZE + 1,
        ensures
            final(self).wf(),
            final(mem).wf(),
            final(display).wf(),
            outcome_holds(
                execute_spec(
                    machine_state(old(self), old(mem), old(display), old(delay_timer), old(sound_timer)),
                    op,
                    keyboard@,
                    rnd,
                ),
                machine_state(old(self), old(mem), old(display), old(delay_timer), old(sound_timer)),
                machine_state(final(self), final(mem), final(display), final(delay_timer), final(sound_timer)),
                r,
            ),
            final(self).counter == old(self).counter,
            final(delay_timer).spec_at() == old(delay_timer).spec_at(),
            final(sound_timer).spec_at() == old(sound_timer).spec_at(),
    {
        match op {
            OpCode::SetReg { .. }
            | OpCode::SetRegBor { .. }
            | OpCode::SetRegBand { .. }
            | OpCode::SetRegBxor { .. }
            | OpCode::SetRegAdd { .. }
            | OpCode::SetRegSub { .. }
            | OpCode::SetShr1 { .. }
            | OpCode::SetRegRevSub { .. }
            | OpCode::SetShl1 { .. } => self.execute_arith(
                op,
                mem,
                display,
                keyboard,
                delay_timer,
                sound_timer,
                rnd,
            ),
            OpCode::Eof
            | OpCode::DrawClr
            | OpCode::Return
            | OpCode::JpConst { .. }
            | OpCode::Call { .. }
            | OpCode::SkpEqConst { .. }
            | OpCode::SkpNeConst { .. }
            | OpCode::SkpEqReg { .. }
            | OpCode::JpRegNe { .. }
            | OpCode::JpOffset { .. }
            | OpCode::SkpKeyEq { .. }
            | OpCode::SkpKeyNe { .. }
            | OpCode::SetKey { .. }
            | OpCode::Unknown(_) => self.execute_flow(
                op,
                mem,
                display,
                keyboard,
                delay_timer,
                sound_timer,
                rnd,
            ),
            OpCode::SetConst { .. }
            | OpCode::AddConst { .. }
            | OpCode::SetI { .. }
            | OpCode::SetRand { .. }
            | OpCode::SetRegDelay { .. }
            | OpCode::SetDelay { .. }
            | OpCode::SetSound { .. }
            | OpCode::SetIRegAdd { .. }
            | OpCode::SetISprite { .. } => self.execute_register(
                op,
                mem,
                display,
                keyboard,
                delay_timer,
                sound_timer,
                rnd,
            ),
            OpCode::Draw { .. }
            | OpCode::SetBCD { .. }
            | OpCode::DumpReg { .. }
            | OpCode::LoadReg { .. } => self.execute_memory(
                op,
                mem,
                display,
                keyboard,
                delay_timer,
                sound_timer,
                rnd,
            ),
        }
    }

    /// Executes an instruction that decides where execution goes on.
    #[verifier::rlimit(40)]
    fn execute_flow(
        &mut self,
        op: OpCode,
        mem: &mut MemoryBus,
        display: &mut Display,
        keyboard: &Keyboard,
        delay_timer: &mut Timer,
        sound_timer: &mut Timer,
        rnd: u8,
    ) -> (r: Result<Step, Fault>)
        requires
            old(self).wf(),
            old(mem).wf(),
            old(display).wf(),
            keyboard.wf(),
            op.wf(),
            old(self).reg_pc <= MEMORY_SIZE + 1,
            is_flow_op(op),
        ensures
            final(self).wf(),
            final(mem).wf(),
            final(display).wf(),
            outcome_holds(
                execute_spec(
                    machine_state(old(self), old(mem), old(display), old(delay_timer), old(sound_timer)),
                    op,
                    keyboard@,
                    rnd,
                ),
                machine_state(old(self), old(mem), old(display), old(delay_timer), old(sound_timer)),
                machine_state(final(self), final(mem), final(display), final(delay_timer), final(sound_timer)),
                r,
            ),
            final(self).counter == old(self).counter,
            final(delay_timer).spec_at() == old(delay_timer).spec_at(),
            final(sound_timer).spec_at() == old(sound_timer).spec_at(),
    {
        match op {
            OpCode::Eof => {
                self.exit = true;
                Ok(Step::Halted)
            },
            OpCode::DrawClr => {
                display.clear();
                Ok(Step::Continue)
            },
            OpCode::Return => {
                match self.stack.pop() {
                    Some(addr) => {
                        self.reg_pc = addr;
                        Ok(Step::Continue)
                    },
                    None => Err(Fault::StackUnderflow),
                }
            },
            OpCode::JpConst { nnn } => {
                self.reg_pc = nnn;
                Ok(Step::Continue)
            },
            OpCode::Call { nnn } => {
                if self.stack.len() >= STACK_SIZE {
                    return Err(Fault::StackOverflow);
                }
                self.stack.push(self.reg_pc);
                self.reg_pc = nnn;
                Ok(Step::Continue)
            },
            OpCode::SkpEqConst { x, nn } => {
                if self.reg_vx[x] == nn {
                    self.reg_pc += OP_SIZE;
                }
                Ok(Step::Continue)
            },
            OpCode::SkpNeConst { x, nn } => {
                if self.reg_vx[x] != nn {
                    self.reg_pc += OP_SIZE;
                }
                Ok(Step::Continue)
            },
            OpCode::SkpEqReg { x, y } => {
                if self.reg_vx[x] == self.reg_vx[y] {
                    self.reg_pc += OP_SIZE;
                }
                Ok(Step::Continue)
            },
            OpCode::JpRegNe { x, y } => {
                if self.reg_vx[x] != self.reg_vx[y] {
                    self.reg_pc += OP_SIZE;
                }
                Ok(Step::Continue)
            },
            OpCode::JpOffset { nnn } => {
                self.reg_pc = self.reg_vx[0] as usize + nnn;
                Ok(Step::Continue)
            },
            OpCode::SkpKeyEq { x } => {
                if keyboard.is_key_pressed(self.reg_vx[x]) {
                    self.reg_pc += OP_SIZE;
                }
                Ok(Step::Continue)
            },
            OpCode::SkpKeyNe { x } => {
                if !keyboard.is_key_pressed(self.reg_vx[x]) {
                    self.reg_pc += OP_SIZE;
                }
                Ok(Step::Continue)
            },
            OpCode::SetKey { x } => Ok(Step::AwaitKey(x)),
            OpCode::Unknown(instr) => Err(Fault::UnknownInstruction(instr)),
            _ => vstd::pervasive::unreached(),
        }
    }

    /// Executes an instruction that computes into registers or timers.
    #[verifier::rlimit(40)]
    fn execute_register(
        &mut self,
        op: OpCode,
        mem: &mut MemoryBus,
        display: &mut Display,
        keyboard: &Keyboard,
        delay_timer: &mut Timer,
        sound_timer: &mut Timer,
        rnd: u8,
    ) -> (r: Result<Step, Fault>)
        requires
            old(self).wf(),
            old(mem).wf(),
            old(display).wf(),
            keyboard.wf(),
            op.wf(),
            old(self).reg_pc <= MEMORY_SIZE + 1,
            is_register_op(op),
        ensures
            final(self).wf(),
            final(mem).wf(),
            final(display).wf(),
            outcome_holds(
                execute_spec(
                    machine_state(old(self), old(mem), old(display), old(delay_timer), old(sound_timer)),
                    op,
                    keyboard@,
                    rnd,
                ),
                machine_state(old(self), old(mem), old(display), old(delay_timer), old(sound_timer)),
                machine_state(final(self), final(mem), final(display), final(delay_timer), final(sound_timer)),
                r,
            ),
            final(self).counter == old(self).counter,
            final(delay_timer).spec_at() == old(delay_timer).spec_at(),
            final(sound_timer).spec_at() == old(sound_timer).spec_at(),
    {
        match op {
            OpCode::SetConst { x, nn } => {
                self.reg_vx[x] = nn;
                Ok(Step::Continue)
            },
            OpCode::AddConst { x, nn } => {
                self.reg_vx[x] = self.reg_vx[x].wrapping_add(nn);
                Ok(Step::Continue)
            },
            OpCode::SetI { nnn } => {
                self.reg_i = nnn;
                Ok(Step::Continue)
            },
            OpCode::SetRand { x, nn } => {
                self.reg_vx[x] = rnd & nn;
                Ok(Step::Continue)
            },
            OpCode::SetRegDelay { x } => {
                self.reg_vx[x] = delay_timer.get_value();
                Ok(Step::Continue)
            },
            OpCode::SetDelay { x } => {
                delay_timer.set_value(self.reg_vx[x]);
                Ok(Step::Continue)
            },
            OpCode::SetSound { x } => {
                sound_timer.set_value(self.reg_vx[x]);
                Ok(Step::Continue)
            },
            OpCode::SetIRegAdd { x } => {
                let vx = self.reg_vx[x];
                let sum = self.reg_i as u32 + vx as u32;
                self.reg_i = self.reg_i.wrapping_add(vx as u16);
                self.reg_vx[VF] = if sum > 0xFFF {
                    1
                } else {
                    0
                };
                Ok(Step::Continue)
            },
            OpCode::SetISprite { x } => {
                match MemoryBus::font_sprite_address(self.reg_vx[x]) {
                    Ok(addr) => {
                        self.reg_i = addr as u16;
                        Ok(Step::Continue)
                    },
                    Err(e) => Err(e),
                }
            },
            _ => vstd::pervasive::unreached(),
        }
    }

    /// Executes an instruction of the register-to-register arithmetic
    /// family; the flag register is written last.
    #[verifier::rlimit(40)]
    fn execute_arith(
        &mut self,
        op: OpCode,
        mem: &mut MemoryBus,
        display: &mut Display,
        keyboard: &Keyboard,
        delay_timer: &mut Timer,
        sound_timer: &mut Timer,
        rnd: u8,
    ) -> (r: Result<Step, Fault>)
        requires
            old(self).wf(),
            old(mem).wf(),
            old(display).wf(),
            keyboard.wf(),
            op.wf(),
            old(self).reg_pc <= MEMORY_SIZE + 1,
            is_arith_op(op),
        ensures
            final(self).wf(),
            final(mem).wf(),
            final(display).wf(),
            outcome_holds(
                execute_spec(
                    machine_state(old(self), old(mem), old(display), old(delay_timer), old(sound_timer)),
                    op,
                    keyboard@,
                    rnd,
                ),
                machine_state(old(self), old(mem), old(display), old(delay_timer), old(sound_timer)),
                machine_state(final(self), final(mem), final(display), final(delay_timer), final(sound_timer)),
                r,
            ),
            final(self).counter == old(self).counter,
            final(delay_timer).spec_at() == old(delay_timer).spec_at(),
            final(sound_timer).spec_at() == old(sound_timer).spec_at(),
    {
        match op {
            OpCode::SetReg { x, y } => {
                self.reg_vx[x] = self.reg_vx[y];
                Ok(Step::Continue)
            },
            OpCode::SetRegBor { x, y } => {
                self.reg_vx[x] = self.reg_vx[x] | self.reg_vx[y];
                Ok(Step::Continue)
            },
            OpCode::SetRegBand { x, y } => {
                self.reg_vx[x] = self.reg_vx[x] & self.reg_vx[y];
                Ok(Step::Continue)
            },
            OpCode::SetRegBxor { x, y } => {
                self.reg_vx[x] = self.reg_vx[x] ^ self.reg_vx[y];
                Ok(Step::Continue)
            },
            OpCode::SetRegAdd { x, y } => {
                let (vx, vy) = (self.reg_vx[x], self.reg_vx[y]);
                // the flag is written last, so that it wins when x is VF
                self.reg_vx[x] = vx.wrapping_add(vy);
                self.reg_vx[VF] = if vx as u16 + vy as u16 > 0xFF {
                    1
                } else {
                    0
                };
                Ok(Step::Continue)
            },
            OpCode::SetRegSub { x, y } => {
                let (vx, vy) = (self.reg_vx[x], self.reg_vx[y]);
                self.reg_vx[x] = vx.wrapping_sub(vy);
                self.reg_vx[VF] = if vx >= vy {
                    1
                } else {
                    0
                };
                Ok(Step::Continue)
            },
            OpCode::SetShr1 { x } => {
                let vx = self.reg_vx[x];
                assert(vx >> 1 == vx / 2 && vx & 1 == vx % 2) by (bit_vector);
                self.reg_vx[x] = vx >> 1;
                self.reg_vx[VF] = vx & 1;
                Ok(Step::Continue)
            },
            OpCode::SetRegRevSub { x, y } => {
                let (vx, vy) = (self.reg_vx[x], self.reg_vx[y]);
                self.reg_vx[x] = vy.wrapping_sub(vx);
                self.reg_vx[VF] = if vy >= vx {
                    1
                } else {
                    0
                };
                Ok(Step::Continue)
            },
            OpCode::SetShl1 { x } => {
                let vx = self.reg_vx[x];
                assert(vx << 1 == (2 * vx) % 256 && vx >> 7 == vx / 128) by (bit_vector);
                self.reg_vx[x] = vx << 1;
                self.reg_vx[VF] = vx >> 7;
                Ok(Step::Continue)
            },
            _ => vstd::pervasive::unreached(),
        }
    }

    /// Executes an instruction that moves bytes between registers,
    /// memory and the framebuffer.
    #[verifier::rlimit(40)]
    fn execute_memory(
        &mut self,
        op: OpCode,
        mem: &mut MemoryBus,
        display: &mut Display,
        keyboard: &Keyboard,
        delay_timer: &mut Timer,
        sound_timer: &mut Timer,
        rnd: u8,
    ) -> (r: Result<Step, Fault>)
        requires
            old(self).wf(),
            old(mem).wf(),
            old(display).wf(),
            keyboard.wf(),
            op.wf(),
            old(self).reg_pc <= MEMORY_SIZE + 1,
            is_memory_op(op),
        ensures
            final(self).wf(),
            final(mem).wf(),
            final(display).wf(),
            outcome_holds(
                execute_spec(
                    machine_state(old(self), old(mem), old(display), old(delay_timer), old(sound_timer)),
                    op,
                    keyboard@,
                    rnd,
                ),
                machine_state(old(self), old(mem), old(display), old(delay_timer), old(sound_timer)),
                machine_state(final(self), final(mem), final(display), final(delay_timer), final(sound_timer)),
                r,
            ),
            final(self).counter == old(self).counter,
            final(delay_timer).spec_at() == old(delay_timer).spec_at(),
            final(sound_timer).spec_at() == old(sound_timer).spec_at(),
    {
        match op {
            OpCode::Draw { x, y, n } => {
                let vx = self.reg_vx[x] as u16;
                let vy = self.reg_vx[y] as u16;
                match mem.read_words(self.reg_i as usize, n as usize) {
                    Ok(rows) => {
                        let flipped_unset = display.draw(vx, vy, rows);
                        self.reg_vx[VF] = if flipped_unset {
                            1
                        } else {
                            0
                        };
                        Ok(Step::Continue)
                    },
                    Err(e) => Err(e),
                }
            },
            OpCode::SetBCD { x } => {
                let i = self.reg_i as usize;
                if i + 3 > MEMORY_SIZE {
                    return Err(Fault::OutOfBounds);
                }
                let vx = self.reg_vx[x];
                let hundreds = vx / 100;
                let tens = (vx % 100) / 10;
                let ones = vx % 10;
                let _ = mem.write_word(i, hundreds);
                let _ = mem.write_word(i + 1, tens);
                let _ = mem.write_word(i + 2, ones);
                Ok(Step::Continue)
            },
            OpCode::DumpReg { x } => {
                let src = vstd::slice::slice_subrange(self.reg_vx.as_slice(), 0, x + 1);
                match mem.write_words(self.reg_i as usize, src) {
                    Ok(()) => Ok(Step::Continue),
                    Err(e) => Err(e),
                }
            },
            OpCode::LoadReg { x } => {
                match mem.read_words(self.reg_i as usize, x + 1) {
                    Ok(src) => {
                        let mut regs = self.reg_vx;
                        let mut k: usize = 0;
                        while k <= x
                            invariant
                                x < GP_REG_COUNT,
                                k <= x + 1,
                                src@.len() == x + 1,
                                forall|a: int|
                                    0 <= a < GP_REG_COUNT ==> #[trigger] regs@[a] == if a < k {
                                        src@[a]
                                    } else {
                                        self.reg_vx@[a]
                                    },
                            decreases x + 1 - k,
                        {
                            regs[k] = src[k];
                            k = k + 1;
                        }
                        assert(regs@ =~= splice(self.reg_vx@, 0, src@));
                        self.reg_vx = regs;
                        Ok(Step::Continue)
                    },
                    Err(e) => Err(e),
                }
            },
            _ => vstd::pervasive::unreached(),
        }
    }
}

} // verus!

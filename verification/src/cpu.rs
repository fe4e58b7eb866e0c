//! The processor: registers, timers, call stack, and the cycle that fetches,
//! decodes and executes one instruction.

use vstd::prelude::*;
use crate::bus::{Bus, BusState};
use crate::display::{blank_screen, draw_rows, rows_collide};
use crate::memory::{bytes_at, is_span_in_memory, span_in_memory, MEM_SIZE};
use crate::utils::get_random_u8;

verus! {

/// Where programs are loaded and where execution starts.
pub const PROG_START: u16 = 0x200;

/// What an instruction asks to be done with the program counter.
#[derive(Clone, Copy, Debug, PartialEq, Eq, Structural)]
pub enum ProgramCounterKind {
    /// Go on with the instruction that follows.
    Next,
    /// Pass over the instruction that follows.
    Skip,
    /// Go on at the given address.
    Jump(u16),
}

/// Why a cycle was abandoned.
#[derive(Clone, Copy, Debug, PartialEq, Eq, Structural)]
pub enum Fault {
    /// A return was asked for while the call stack was empty.
    StackUnderflow,
    /// The instruction, or the bytes it works on, lie beyond the end of memory.
    AddressOutOfRange,
    /// A random byte was needed and the host gave none.
    RandomUnavailable,
}

/// What the processor holds, as plain values.
pub struct CpuState {
    /// The sound timer.
    pub st: u8,
    /// The delay timer.
    pub dt: u8,
    /// The program counter.
    pub pc: u16,
    /// The index register.
    pub idx: u16,
    /// The data registers V0 to VF.
    pub v: Seq<u8>,
    /// The return addresses, the most recent call last.
    pub stack: Seq<u16>,
}

impl CpuState {
    /// There are sixteen data registers.
    pub open spec fn wf(self) -> bool {
        self.v.len() == 16
    }

    /// This state with `b` written to register `x`.
    pub open spec fn set_v(self, x: int, b: u8) -> CpuState {
        CpuState { v: self.v.update(x, b), ..self }
    }

    /// This state with Vx replaced by `b` and then VF by `flag`: where `x` is
    /// 15 the flag is what stays.
    pub open spec fn set_v_then_flag(self, x: int, b: u8, flag: u8) -> CpuState {
        self.set_v(x, b).set_v(15, flag)
    }
}

/// The processor as it is after power-on or a reset.
pub open spec fn initial_cpu() -> CpuState {
    CpuState {
        st: 0,
        dt: 0,
        pc: PROG_START,
        idx: 0,
        v: Seq::new(16, |i: int| 0u8),
        stack: Seq::empty(),
    }
}

/// `i` reduced to eight bits.
pub open spec fn wrap8(i: int) -> u8 {
    (i % 256) as u8
}

/// `i` reduced to sixteen bits.
pub open spec fn wrap16(i: int) -> u16 {
    (i % 65536) as u16
}

/// A timer after one cycle: one less, and never below zero.
pub open spec fn count_down(t: u8) -> u8 {
    if t > 0 {
        (t - 1) as u8
    } else {
        0
    }
}

/// The program counter after an instruction at `pc` has asked for `kind`.
pub open spec fn next_pc(pc: u16, kind: ProgramCounterKind) -> u16 {
    match kind {
        ProgramCounterKind::Next => wrap16(pc + 2),
        ProgramCounterKind::Skip => wrap16(pc + 4),
        ProgramCounterKind::Jump(addr) => addr,
    }
}

/// The instruction word whose high byte is at `pc` and whose low byte follows.
pub open spec fn opcode_at(mem: Seq<u8>, pc: int) -> u16 {
    (mem[pc] * 256 + mem[pc + 1]) as u16
}

/// The most significant nibble of an instruction word.
pub open spec fn op_kind(op: u16) -> int {
    (op / 4096) as int
}

/// The register index in bits 8 to 11.
pub open spec fn op_x(op: u16) -> int {
    ((op / 256) % 16) as int
}

/// The register index in bits 4 to 7.
pub open spec fn op_y(op: u16) -> int {
    ((op / 16) % 16) as int
}

/// The four-bit immediate.
pub open spec fn op_n(op: u16) -> int {
    (op % 16) as int
}

/// The eight-bit immediate.
pub open spec fn op_nn(op: u16) -> u8 {
    (op % 256) as u8
}

/// The twelve-bit address.
pub open spec fn op_nnn(op: u16) -> u16 {
    (op % 4096) as u16
}

/// `Skip` where `cond` holds, else `Next`.
pub open spec fn skip_if(cond: bool) -> ProgramCounterKind {
    if cond {
        ProgramCounterKind::Skip
    } else {
        ProgramCounterKind::Next
    }
}

/// 1 where `cond` holds, else 0.
pub open spec fn flag_of(cond: bool) -> u8 {
    if cond {
        1
    } else {
        0
    }
}

/// Memory after the hundreds, tens and units of `value` have been written to
/// `idx` and the two bytes after it.
pub open spec fn store_digits(mem: Seq<u8>, idx: int, value: u8) -> Seq<u8> {
    mem.update(idx, (value / 100) as u8).update(idx + 1, ((value / 10) % 10) as u8).update(
        idx + 2,
        (value % 10) as u8,
    )
}

/// Memory after the registers V0 to Vx have been written to `idx` and the
/// bytes after it.
pub open spec fn store_registers(mem: Seq<u8>, idx: int, v: Seq<u8>, x: int) -> Seq<u8> {
    Seq::new(mem.len(), |a: int| if idx <= a <= idx + x { v[a - idx] } else { mem[a] })
}

/// The registers after V0 to Vx have been read from `idx` and the bytes
/// after it.
pub open spec fn load_registers(v: Seq<u8>, mem: Seq<u8>, idx: int, x: int) -> Seq<u8> {
    Seq::new(v.len(), |i: int| if i <= x { mem[idx + i] } else { v[i] })
}

/// The outcome of one instruction: the processor and the bus after it, and
/// what it asks of the program counter. A faulting instruction changes
/// neither.
pub struct Executed {
    pub cpu: CpuState,
    pub bus: BusState,
    pub flow: Result<ProgramCounterKind, Fault>,
}

/// The instruction went through and asks for `kind`.
pub open spec fn flows(c: CpuState, b: BusState, kind: ProgramCounterKind) -> Executed {
    Executed { cpu: c, bus: b, flow: Ok(kind) }
}

/// The instruction went through and the next one follows.
pub open spec fn done(c: CpuState, b: BusState) -> Executed {
    flows(c, b, ProgramCounterKind::Next)
}

/// The instruction was abandoned.
pub open spec fn failed(c: CpuState, b: BusState, fault: Fault) -> Executed {
    Executed { cpu: c, bus: b, flow: Err(fault) }
}

/// What the instruction `op` does to processor `c` and bus `b`, given the
/// random byte `rnd` that the host drew, if it drew one. The program counter
/// is left to the cycle.
pub open spec fn spec_execute(c: CpuState, b: BusState, op: u16, rnd: Option<u8>) -> Executed {
    let k = op_kind(op);
    let x = op_x(op);
    let y = op_y(op);
    let n = op_n(op);
    let nn = op_nn(op);
    let nnn = op_nnn(op);
    let vx = c.v[x];
    let vy = c.v[y];
    if k == 0 && x == 0 && y == 0xE && n == 0 {
        done(c, BusState { vram: blank_screen(), ..b })
    } else if k == 0 && x == 0 && y == 0xE && n == 0xE {
        if c.stack.len() == 0 {
            failed(c, b, Fault::StackUnderflow)
        } else {
            flows(
                CpuState { stack: c.stack.drop_last(), ..c },
                b,
                ProgramCounterKind::Jump(c.stack.last()),
            )
        }
    } else if k == 1 {
        flows(c, b, ProgramCounterKind::Jump(nnn))
    } else if k == 2 {
        flows(
            CpuState { stack: c.stack.push(wrap16(c.pc + 2)), ..c },
            b,
            ProgramCounterKind::Jump(nnn),
        )
    } else if k == 3 {
        flows(c, b, skip_if(vx == nn))
    } else if k == 4 {
        flows(c, b, skip_if(vx != nn))
    } else if k == 5 && n == 0 {
        flows(c, b, skip_if(vx == vy))
    } else if k == 6 {
        done(c.set_v(x, nn), b)
    } else if k == 7 {
        done(c.set_v(x, wrap8(vx + nn)), b)
    } else if k == 8 && n == 0 {
        done(c.set_v(x, vy), b)
    } else if k == 8 && n == 1 {
        done(c.set_v(x, vx | vy), b)
    } else if k == 8 && n == 2 {
        done(c.set_v(x, vx & vy), b)
    } else if k == 8 && n == 3 {
        done(c.set_v(x, vx ^ vy), b)
    } else if k == 8 && n == 4 {
        done(c.set_v_then_flag(x, wrap8(vx + vy), flag_of(vx + vy > 255)), b)
    } else if k == 8 && n == 5 {
        done(c.set_v_then_flag(x, wrap8(vx - vy), flag_of(vy <= vx)), b)
    } else if k == 8 && n == 6 {
        done(shifted_right(c, x), b)
    } else if k == 8 && n == 7 {
        done(c.set_v_then_flag(x, wrap8(vy - vx), flag_of(vx <= vy)), b)
    } else if k == 8 && n == 0xE {
        done(shifted_left(c, x), b)
    } else if k == 9 && n == 0 {
        flows(c, b, skip_if(vx != vy))
    } else if k == 0xA {
        done(CpuState { idx: nnn, ..c }, b)
    } else if k == 0xB {
        flows(c, b, ProgramCounterKind::Jump((c.v[0] + nnn) as u16))
    } else if k == 0xC {
        match rnd {
            Some(r) => done(c.set_v(x, r & nn), b),
            None => failed(c, b, Fault::RandomUnavailable),
        }
    } else if k == 0xD {
        if span_in_memory(c.idx as int, n) {
            let sprite = bytes_at(b.mem, c.idx as int, n);
            done(
                c.set_v(15, flag_of(rows_collide(b.vram, vx as int, vy as int, sprite))),
                BusState { vram: draw_rows(b.vram, vx as int, vy as int, sprite), ..b },
            )
        } else {
            failed(c, b, Fault::AddressOutOfRange)
        }
    } else if k == 0xE && y == 9 && n == 0xE {
        flows(c, b, skip_if(b.key == Some(vx)))
    } else if k == 0xE && y == 0xA && n == 1 {
        flows(c, b, skip_if(b.key != Some(vx)))
    } else if k == 0xF && y == 0 && n == 7 {
        done(c.set_v(x, c.dt), b)
    } else if k == 0xF && y == 0 && n == 0xA {
        if b.key == Some(vx) {
            done(c, b)
        } else {
            flows(c, b, ProgramCounterKind::Jump(c.pc))
        }
    } else if k == 0xF && y == 1 && n == 5 {
        done(CpuState { dt: vx, ..c }, b)
    } else if k == 0xF && y == 1 && n == 8 {
        done(CpuState { st: vx, ..c }, b)
    } else if k == 0xF && y == 1 && n == 0xE {
        done(CpuState { idx: wrap16(c.idx + vx), ..c }, b)
    } else if k == 0xF && y == 2 && n == 9 {
        done(CpuState { idx: (vx * 5) as u16, ..c }, b)
    } else if k == 0xF && y == 3 && n == 3 {
        if span_in_memory(c.idx as int, 3) {
            done(c, BusState { mem: store_digits(b.mem, c.idx as int, vx), ..b })
        } else {
            failed(c, b, Fault::AddressOutOfRange)
        }
    } else if k == 0xF && y == 5 && n == 5 {
        if span_in_memory(c.idx as int, x + 1) {
            done(c, BusState { mem: store_registers(b.mem, c.idx as int, c.v, x), ..b })
        } else {
            failed(c, b, Fault::AddressOutOfRange)
        }
    } else if k == 0xF && y == 6 && n == 5 {
        if span_in_memory(c.idx as int, x + 1) {
            done(CpuState { v: load_registers(c.v, b.mem, c.idx as int, x), ..c }, b)
        } else {
            failed(c, b, Fault::AddressOutOfRange)
        }
    } else {
        done(c, b)
    }
}

/// The registers after a shift to the right of Vx: VF takes the bit that
/// leaves, then Vx is halved.
pub open spec fn shifted_right(c: CpuState, x: int) -> CpuState {
    let flagged = c.set_v(15, c.v[x] & 0x1);
    flagged.set_v(x, flagged.v[x] >> 1)
}

/// The registers after a shift to the left of Vx: VF takes Vx masked with
/// 0x80, as it is and not reduced to 0 or 1, then Vx is doubled in eight bits.
pub open spec fn shifted_left(c: CpuState, x: int) -> CpuState {
    let flagged = c.set_v(15, c.v[x] & 0x80);
    flagged.set_v(x, flagged.v[x] << 1)
}

/// The outcome of one cycle.
pub struct Ticked {
    pub cpu: CpuState,
    pub bus: BusState,
    pub result: Result<(), Fault>,
}

/// Whether both bytes of the instruction at `pc` lie inside memory.
pub open spec fn can_fetch(pc: u16) -> bool {
    pc + 1 < MEM_SIZE
}

/// One cycle from processor `c` and bus `b`, given the random byte `rnd`
/// that the host drew, if it drew one.
///
/// Where the instruction cannot be fetched nothing changes. Else the timers
/// count down, the sound flag is set from the sound timer as it was before,
/// and the instruction is executed. Where it faults it has no effect and the
/// program counter stays.
pub open spec fn spec_tick(c: CpuState, b: BusState, rnd: Option<u8>) -> Ticked {
    if !can_fetch(c.pc) {
        Ticked { cpu: c, bus: b, result: Err(Fault::AddressOutOfRange) }
    } else {
        let timed = CpuState { dt: count_down(c.dt), st: count_down(c.st), ..c };
        let sounded = BusState { sound: c.st > 0, ..b };
        let e = spec_execute(timed, sounded, opcode_at(b.mem, c.pc as int), rnd);
        match e.flow {
            Ok(kind) => Ticked {
                cpu: CpuState { pc: next_pc(c.pc, kind), ..e.cpu },
                bus: e.bus,
                result: Ok(()),
            },
            Err(fault) => Ticked { cpu: e.cpu, bus: e.bus, result: Err(fault) },
        }
    }
}

/// Whether the cycle from `c` and `b` executes the instruction that takes a
/// random byte.
pub open spec fn needs_random(c: CpuState, b: BusState) -> bool {
    can_fetch(c.pc) && op_kind(opcode_at(b.mem, c.pc as int)) == 0xC
}

/// The state after the cycles that the random bytes `rnds` stand for, one
/// after the other, whatever each of them reported.
pub open spec fn spec_ticks(c: CpuState, b: BusState, rnds: Seq<Option<u8>>) -> Ticked
    decreases rnds.len(),
{
    if rnds.len() == 0 {
        Ticked { cpu: c, bus: b, result: Ok(()) }
    } else {
        let before = spec_ticks(c, b, rnds.drop_last());
        spec_tick(before.cpu, before.bus, rnds.last())
    }
}

/// The processor stands at an instruction that waits for the key whose code
/// is in Vx, and that key is not held down.
pub open spec fn waits_for_key(c: CpuState, b: BusState) -> bool {
    let op = opcode_at(b.mem, c.pc as int);
    can_fetch(c.pc) && op_kind(op) == 0xF && op_y(op) == 0 && op_n(op) == 0xA && b.key != Some(
        c.v[op_x(op)],
    )
}

/// The instruction at the program counter takes Vy from Vx, or Vx from Vy.
pub open spec fn is_subtraction(op: u16) -> bool {
    op_kind(op) == 8 && (op_n(op) == 5 || op_n(op) == 7)
}

/// After a subtraction VF is 1 exactly when the number taken away is at most
/// the number it is taken from, and 0 otherwise; where Vx is not VF itself
/// it holds the difference in eight bits.
pub proof fn lemma_subtraction_flag(c: CpuState, b: BusState, op: u16, rnd: Option<u8>)
    requires
        c.wf(),
        is_subtraction(op),
    ensures
        ({
            let e = spec_execute(c, b, op, rnd);
            let vx = c.v[op_x(op)];
            let vy = c.v[op_y(op)];
            let minuend = if op_n(op) == 5 { vx } else { vy };
            let subtrahend = if op_n(op) == 5 { vy } else { vx };
            &&& e.flow == Ok::<ProgramCounterKind, Fault>(ProgramCounterKind::Next)
            &&& e.cpu.v[15] == 1 <==> subtrahend <= minuend
            &&& e.cpu.v[15] == 0 <==> subtrahend > minuend
            &&& op_x(op) != 15 ==> e.cpu.v[op_x(op)] == wrap8(minuend - subtrahend)
        }),
{
}

/// A call followed at once by a return comes back to the instruction after
/// the call, with the call stack as it was.
pub proof fn lemma_call_then_return(c: CpuState, b: BusState, r1: Option<u8>, r2: Option<u8>)
    requires
        c.wf(),
        b.wf(),
        can_fetch(c.pc),
        op_kind(opcode_at(b.mem, c.pc as int)) == 2,
        can_fetch(op_nnn(opcode_at(b.mem, c.pc as int))),
        opcode_at(b.mem, op_nnn(opcode_at(b.mem, c.pc as int)) as int) == 0x00EE,
    ensures
        ({
            let called = spec_tick(c, b, r1);
            let returned = spec_tick(called.cpu, called.bus, r2);
            &&& called.result == Ok::<(), Fault>(())
            &&& called.cpu.pc == op_nnn(opcode_at(b.mem, c.pc as int))
            &&& returned.result == Ok::<(), Fault>(())
            &&& returned.cpu.pc == wrap16(c.pc + 2)
            &&& returned.cpu.stack == c.stack
        }),
{
    let op = opcode_at(b.mem, c.pc as int);
    let called = spec_tick(c, b, r1);
    assert(called.bus.mem == b.mem);
    assert(called.cpu.pc == op_nnn(op));
    assert(called.cpu.stack == c.stack.push(wrap16(c.pc + 2)));
    assert(called.cpu.stack.drop_last() =~= c.stack);
}

/// A cycle at an instruction that waits for a key which is not held down
/// leaves the program counter, the registers, memory and the keypad as they
/// were, so the processor still waits.
pub proof fn lemma_wait_stalls(c: CpuState, b: BusState, rnd: Option<u8>)
    requires
        c.wf(),
        b.wf(),
        waits_for_key(c, b),
    ensures
        ({
            let t = spec_tick(c, b, rnd);
            &&& t.result == Ok::<(), Fault>(())
            &&& t.cpu.pc == c.pc
            &&& t.cpu.v == c.v
            &&& t.bus.mem == b.mem
            &&& t.bus.key == b.key
            &&& t.cpu.wf()
            &&& t.bus.wf()
            &&& waits_for_key(t.cpu, t.bus)
        }),
{
}

/// However many cycles run while the awaited key is not held down, the
/// program counter does not move.
pub proof fn lemma_wait_stalls_for_ever(c: CpuState, b: BusState, rnds: Seq<Option<u8>>)
    requires
        c.wf(),
        b.wf(),
        waits_for_key(c, b),
    ensures
        spec_ticks(c, b, rnds).cpu.pc == c.pc,
        spec_ticks(c, b, rnds).cpu.wf(),
        spec_ticks(c, b, rnds).bus.wf(),
        waits_for_key(spec_ticks(c, b, rnds).cpu, spec_ticks(c, b, rnds).bus),
    decreases rnds.len(),
{
    if rnds.len() > 0 {
        lemma_wait_stalls_for_ever(c, b, rnds.drop_last());
        let before = spec_ticks(c, b, rnds.drop_last());
        lemma_wait_stalls(before.cpu, before.bus, rnds.last());
    }
}

/// Once the awaited key is held down, the cycle at the waiting instruction
/// goes on to the instruction after it.
pub proof fn lemma_key_ends_wait(c: CpuState, b: BusState, rnd: Option<u8>)
    requires
        c.wf(),
        b.wf(),
        can_fetch(c.pc),
        op_kind(opcode_at(b.mem, c.pc as int)) == 0xF,
        op_y(opcode_at(b.mem, c.pc as int)) == 0,
        op_n(opcode_at(b.mem, c.pc as int)) == 0xA,
        b.key == Some(c.v[op_x(opcode_at(b.mem, c.pc as int))]),
    ensures
        spec_tick(c, b, rnd).result == Ok::<(), Fault>(()),
        spec_tick(c, b, rnd).cpu.pc == wrap16(c.pc + 2),
{
}

/// The processor.
pub struct Cpu {
    st: u8,
    dt: u8,
    pc: u16,
    idx: u16,
    v: [u8; 16],
    stack: Vec<u16>,
}

impl Cpu {
    /// What the processor holds.
    pub closed spec fn view(&self) -> CpuState {
        CpuState {
            st: self.st,
            dt: self.dt,
            pc: self.pc,
            idx: self.idx,
            v: self.v@,
            stack: self.stack@,
        }
    }

    /// There are sixteen data registers.
    pub open spec fn wf(&self) -> bool {
        self@.wf()
    }

    pub fn new() -> (cpu: Cpu)
        ensures
            cpu.wf(),
            cpu@ == initial_cpu(),
    {
        let cpu = Cpu { st: 0, dt: 0, idx: 0, v: [0; 16], pc: PROG_START, stack: Vec::<u16>::new() };
        assert(cpu.v@ =~= initial_cpu().v);
        cpu
    }

    /// Puts registers, timers, program counter and call stack back to their
    /// power-on values.
    pub fn reset(&mut self)
        ensures
            final(self).wf(),
            final(self)@ == initial_cpu(),
    {
        self.st = 0u8;
        self.dt = 0u8;
        self.idx = 0u16;
        self.v = [0u8; 16];
        self.pc = PROG_START;
        self.stack = Vec::<u16>::new();
        assert(self.v@ =~= initial_cpu().v);
    }

    /// The program counter.
    pub fn program_counter(&self) -> (pc: u16)
        ensures
            pc == self@.pc,
    {
        self.pc
    }

    /// The index register.
    pub fn index(&self) -> (idx: u16)
        ensures
            idx == self@.idx,
    {
        self.idx
    }

    /// The data register Vx.
    pub fn register(&self, x: usize) -> (value: u8)
        requires
            x < 16,
        ensures
            value == self@.v[x as int],
    {
        self.v[x]
    }

    /// The delay timer.
    pub fn delay_timer(&self) -> (dt: u8)
        ensures
            dt == self@.dt,
    {
        self.dt
    }

    /// The sound timer.
    pub fn sound_timer(&self) -> (st: u8)
        ensures
            st == self@.st,
    {
        self.st
    }

    /// How many calls have not returned yet.
    pub fn call_depth(&self) -> (depth: usize)
        ensures
            depth == self@.stack.len(),
    {
        self.stack.len()
    }

    /// Tests whether the coming cycle executes the instruction that takes a
    /// random byte.
    pub fn wants_random(&self, bus: &Bus) -> (wanted: bool)
        requires
            self.wf(),
            bus.wf(),
        ensures
            wanted == needs_random(self@, bus@),
    {
        self.pc < 4095 && bus.memread(self.pc) / 16 == 0xC
    }

    /// Runs one cycle, drawing the random byte from the browser where the
    /// instruction takes one; no other instruction reaches out to the host.
    pub fn tick(&mut self, bus: &mut Bus) -> (result: Result<(), Fault>)
        requires
            old(self).wf(),
            old(bus).wf(),
        ensures
            final(self).wf(),
            final(bus).wf(),
            exists|rnd: Option<u8>|
                (Ticked { cpu: final(self)@, bus: final(bus)@, result: result }) == spec_tick(
                    old(self)@,
                    old(bus)@,
                    rnd,
                ),
            !needs_random(old(self)@, old(bus)@) ==> (Ticked {
                cpu: final(self)@,
                bus: final(bus)@,
                result: result,
            }) == spec_tick(old(self)@, old(bus)@, None),
    {
        let rnd: Option<u8> = if self.wants_random(bus) {
            get_random_u8()
        } else {
            None
        };
        self.tick_with(bus, rnd)
    }

    /// Runs one cycle with the random byte that the caller drew: fetches the
    /// instruction at the program counter, counts the timers down, sets the
    /// sound flag, executes the instruction and moves the program counter.
    pub fn tick_with(&mut self, bus: &mut Bus, random: Option<u8>) -> (result: Result<(), Fault>)
        requires
            old(self).wf(),
            old(bus).wf(),
        ensures
            final(self).wf(),
            final(bus).wf(),
            (Ticked { cpu: final(self)@, bus: final(bus)@, result: result }) == spec_tick(
                old(self)@,
                old(bus)@,
                random,
            ),
    {
        if self.pc >= 4095 {
            return Err(Fault::AddressOutOfRange);
        }
        let hi: u16 = bus.memread(self.pc) as u16;
        let lo: u16 = bus.memread(self.pc + 1) as u16;
        let opcode: u16 = hi * 256 + lo;
        if self.dt > 0 {
            self.dt -= 1;
        }
        if self.st > 0 {
            if !bus.is_sound_on() {
                bus.set_sound_on();
            }
            self.st -= 1
        } else {
            bus.set_sound_off();
        }
        assert(bus@ == (BusState { sound: old(self)@.st > 0, ..old(bus)@ }));
        match self.execute_instruction(opcode, bus, random) {
            Ok(ProgramCounterKind::Next) => {
                self.pc = ((self.pc as u32 + 2) % 65536) as u16;
                Ok(())
            },
            Ok(ProgramCounterKind::Skip) => {
                self.pc = ((self.pc as u32 + 4) % 65536) as u16;
                Ok(())
            },
            Ok(ProgramCounterKind::Jump(n)) => {
                self.pc = n;
                Ok(())
            },
            Err(fault) => Err(fault),
        }
    }

    /// Decodes `opcode` and executes it. `random` is the byte for the one
    /// instruction that takes one. A pattern that names no instruction does
    /// nothing.
    pub fn execute_instruction(&mut self, opcode: u16, bus: &mut Bus, random: Option<u8>) -> (flow:
        Result<ProgramCounterKind, Fault>)
        requires
            old(self).wf(),
            old(bus).wf(),
        ensures
            final(self).wf(),
            final(bus).wf(),
            (Executed { cpu: final(self)@, bus: final(bus)@, flow: flow }) == spec_execute(
                old(self)@,
                old(bus)@,
                opcode,
                random,
            ),
    {
        let x: usize = ((opcode / 256) % 16) as usize;
        let y: usize = ((opcode / 16) % 16) as usize;
        let n: u8 = (opcode % 16) as u8;
        let nn: u8 = (opcode % 256) as u8;
        let nnn: u16 = opcode % 4096;
        let p1: u16 = opcode % 16;
        let p2: u16 = (opcode / 16) % 16;
        let p3: u16 = (opcode / 256) % 16;
        let p4: u16 = opcode / 4096;
        match (p4, p3, p2, p1) {
            (0, 0, 0xE, 0) => Ok(self.call_00e0(bus)),
            (0, 0, 0xE, 0xE) => self.call_00ee(),
            (0x1, _, _, _) => Ok(self.call_1nnn(nnn)),
            (0x2, _, _, _) => Ok(self.call_2nnn(nnn)),
            (0x3, _, _, _) => Ok(self.call_3xnn(x, nn)),
            (0x4, _, _, _) => Ok(self.call_4xnn(x, nn)),
            (0x5, _, _, 0) => Ok(self.call_5xy0(x, y)),
            (0x6, _, _, _) => Ok(self.call_6xnn(x, nn)),
            (0x7, _, _, _) => Ok(self.call_7xnn(x, nn)),
            (0x8, _, _, 0) => Ok(self.call_8xy0(x, y)),
            (0x8, _, _, 1) => Ok(self.call_8xy1(x, y)),
            (0x8, _, _, 2) => Ok(self.call_8xy2(x, y)),
            (0x8, _, _, 3) => Ok(self.call_8xy3(x, y)),
            (0x8, _, _, 4) => Ok(self.call_8xy4(x, y)),
            (0x8, _, _, 5) => Ok(self.call_8xy5(x, y)),
            (0x8, _, _, 6) => Ok(self.call_8xy6(x, y)),
            (0x8, _, _, 7) => Ok(self.call_8xy7(x, y)),
            (0x8, _, _, 0xE) => Ok(self.call_8xye(x, y)),
            (0x9, _, _, 0) => Ok(self.call_9xy0(x, y)),
            (0xA, _, _, _) => Ok(self.call_annn(nnn)),
            (0xB, _, _, _) => Ok(self.call_bnnn(nnn)),
            (0xC, _, _, _) => self.call_cxnn(x, nn, random),
            (0xD, _, _, _) => self.call_dxyn(bus, x, y, n),
            (0xE, _, 9, 0xE) => Ok(self.call_ex9e(bus, x)),
            (0xE, _, 0xA, 1) => Ok(self.call_exa1(bus, x)),
            (0xF, _, 0, 7) => Ok(self.call_fx07(x)),
            (0xF, _, 0, 0xA) => Ok(self.call_fx0a(bus, x)),
            (0xF, _, 1, 5) => Ok(self.call_fx15(x)),
            (0xF, _, 1, 8) => Ok(self.call_fx18(x)),
            (0xF, _, 1, 0xE) => Ok(self.call_fx1e(x)),
            (0xF, _, 2, 9) => Ok(self.call_fx29(x)),
            (0xF, _, 3, 3) => self.call_fx33(bus, x),
            (0xF, _, 5, 5) => self.call_fx55(bus, x),
            (0xF, _, 6, 5) => self.call_fx65(bus, x),
            (_, _, _, _) => Ok(ProgramCounterKind::Next),
        }
    }

    /// Clears the screen.
    pub fn call_00e0(&mut self, bus: &mut Bus) -> (kind: ProgramCounterKind)
        requires
            old(bus).wf(),
        ensures
            final(bus).wf(),
            final(self)@ == old(self)@,
            final(bus)@ == (BusState { vram: blank_screen(), ..old(bus)@ }),
            kind == ProgramCounterKind::Next,
    {
        bus.clrs();
        ProgramCounterKind::Next
    }

    /// Returns from a subroutine: takes the latest return address off the
    /// call stack and goes on there. With an empty stack nothing changes.
    pub fn call_00ee(&mut self) -> (flow: Result<ProgramCounterKind, Fault>)
        ensures
            old(self)@.stack.len() == 0 ==> flow == Err::<ProgramCounterKind, Fault>(
                Fault::StackUnderflow,
            ) && final(self)@ == old(self)@,
            old(self)@.stack.len() > 0 ==> flow == Ok::<ProgramCounterKind, Fault>(
                ProgramCounterKind::Jump(old(self)@.stack.last()),
            ) && final(self)@ == (CpuState { stack: old(self)@.stack.drop_last(), ..old(self)@ }),
    {
        match self.stack.pop() {
            Some(addr) => Ok(ProgramCounterKind::Jump(addr)),
            None => Err(Fault::StackUnderflow),
        }
    }

    /// Jumps to `nnn`.
    pub fn call_1nnn(&mut self, nnn: u16) -> (kind: ProgramCounterKind)
        ensures
            final(self)@ == old(self)@,
            kind == ProgramCounterKind::Jump(nnn),
    {
        ProgramCounterKind::Jump(nnn)
    }

    /// Calls the subroutine at `nnn`: the address of the instruction after
    /// this one goes onto the call stack.
    pub fn call_2nnn(&mut self, nnn: u16) -> (kind: ProgramCounterKind)
        ensures
            final(self)@ == (CpuState {
                stack: old(self)@.stack.push(wrap16(old(self)@.pc + 2)),
                ..old(self)@
            }),
            kind == ProgramCounterKind::Jump(nnn),
    {
        let curr: u16 = ((self.pc as u32 + 2) % 65536) as u16;
        self.stack.push(curr);
        ProgramCounterKind::Jump(nnn)
    }

    /// Skips where Vx equals `nn`.
    pub fn call_3xnn(&mut self, x: usize, nn: u8) -> (kind: ProgramCounterKind)
        requires
            x < 16,
        ensures
            final(self)@ == old(self)@,
            kind == skip_if(old(self)@.v[x as int] == nn),
    {
        if self.v[x] == nn {
            ProgramCounterKind::Skip
        } else {
            ProgramCounterKind::Next
        }
    }

    /// Skips where Vx differs from `nn`.
    pub fn call_4xnn(&mut self, x: usize, nn: u8) -> (kind: ProgramCounterKind)
        requires
            x < 16,
        ensures
            final(self)@ == old(self)@,
            kind == skip_if(old(self)@.v[x as int] != nn),
    {
        if self.v[x] == nn {
            ProgramCounterKind::Next
        } else {
            ProgramCounterKind::Skip
        }
    }

    /// Skips where Vx equals Vy.
    pub fn call_5xy0(&mut self, x: usize, y: usize) -> (kind: ProgramCounterKind)
        requires
            x < 16,
            y < 16,
        ensures
            final(self)@ == old(self)@,
            kind == skip_if(old(self)@.v[x as int] == old(self)@.v[y as int]),
    {
        if self.v[x] == self.v[y] {
            ProgramCounterKind::Skip
        } else {
            ProgramCounterKind::Next
        }
    }

    /// Loads `nn` into Vx.
    pub fn call_6xnn(&mut self, x: usize, nn: u8) -> (kind: ProgramCounterKind)
        requires
            x < 16,
        ensures
            final(self)@ == old(self)@.set_v(x as int, nn),
            kind == ProgramCounterKind::Next,
    {
        self.v[x] = nn;
        ProgramCounterKind::Next
    }

    /// Adds `nn` to Vx in eight bits; no flag is written.
    pub fn call_7xnn(&mut self, x: usize, nn: u8) -> (kind: ProgramCounterKind)
        requires
            x < 16,
        ensures
            final(self)@ == old(self)@.set_v(x as int, wrap8(old(self)@.v[x as int] + nn)),
            kind == ProgramCounterKind::Next,
    {
        let sum: u16 = self.v[x] as u16 + nn as u16;
        self.v[x] = (sum % 256) as u8;
        ProgramCounterKind::Next
    }

    /// Loads Vy into Vx.
    pub fn call_8xy0(&mut self, x: usize, y: usize) -> (kind: ProgramCounterKind)
        requires
            x < 16,
            y < 16,
        ensures
            final(self)@ == old(self)@.set_v(x as int, old(self)@.v[y as int]),
            kind == ProgramCounterKind::Next,
    {
        self.v[x] = self.v[y];
        ProgramCounterKind::Next
    }

    /// Vx becomes Vx or Vy.
    pub fn call_8xy1(&mut self, x: usize, y: usize) -> (kind: ProgramCounterKind)
        requires
            x < 16,
            y < 16,
        ensures
            final(self)@ == old(self)@.set_v(
                x as int,
                old(self)@.v[x as int] | old(self)@.v[y as int],
            ),
            kind == ProgramCounterKind::Next,
    {
        self.v[x] = self.v[x] | self.v[y];
        ProgramCounterKind::Next
    }

    /// Vx becomes Vx and Vy.
    pub fn call_8xy2(&mut self, x: usize, y: usize) -> (kind: ProgramCounterKind)
        requires
            x < 16,
            y < 16,
        ensures
            final(self)@ == old(self)@.set_v(
                x as int,
                old(self)@.v[x as int] & old(self)@.v[y as int],
            ),
            kind == ProgramCounterKind::Next,
    {
        self.v[x] = self.v[x] & self.v[y];
        ProgramCounterKind::Next
    }

    /// Vx becomes Vx exclusive-or Vy.
    pub fn call_8xy3(&mut self, x: usize, y: usize) -> (kind: ProgramCounterKind)
        requires
            x < 16,
            y < 16,
        ensures
            final(self)@ == old(self)@.set_v(
                x as int,
                old(self)@.v[x as int] ^ old(self)@.v[y as int],
            ),
            kind == ProgramCounterKind::Next,
    {
        self.v[x] = self.v[x] ^ self.v[y];
        ProgramCounterKind::Next
    }

    /// Adds Vy to Vx in eight bits; VF becomes 1 where the sum did not fit,
    /// else 0.
    pub fn call_8xy4(&mut self, x: usize, y: usize) -> (kind: ProgramCounterKind)
        requires
            x < 16,
            y < 16,
        ensures
            final(self)@ == old(self)@.set_v_then_flag(
                x as int,
                wrap8(old(self)@.v[x as int] + old(self)@.v[y as int]),
                flag_of(old(self)@.v[x as int] + old(self)@.v[y as int] > 255),
            ),
            kind == ProgramCounterKind::Next,
    {
        let sum: u16 = self.v[x] as u16 + self.v[y] as u16;
        let carry: bool = sum > 255;
        self.v[x] = (sum % 256) as u8;
        self.v[0xf] = if carry {
            1
        } else {
            0
        };
        ProgramCounterKind::Next
    }

    /// Takes Vy from Vx in eight bits; VF becomes 1 where nothing was
    /// borrowed, that is where Vy is at most Vx, else 0.
    pub fn call_8xy5(&mut self, x: usize, y: usize) -> (kind: ProgramCounterKind)
        requires
            x < 16,
            y < 16,
        ensures
            final(self)@ == old(self)@.set_v_then_flag(
                x as int,
                wrap8(old(self)@.v[x as int] - old(self)@.v[y as int]),
                flag_of(old(self)@.v[y as int] <= old(self)@.v[x as int]),
            ),
            kind == ProgramCounterKind::Next,
    {
        let minuend: u16 = self.v[x] as u16;
        let subtrahend: u16 = self.v[y] as u16;
        let borrow: bool = minuend < subtrahend;
        self.v[x] = ((256 + minuend - subtrahend) % 256) as u8;
        self.v[0xf] = if borrow {
            0
        } else {
            1
        };
        ProgramCounterKind::Next
    }

    /// Shifts Vx one bit to the right; VF takes the bit that leaves. Vy is
    /// not read.
    pub fn call_8xy6(&mut self, x: usize, _y: usize) -> (kind: ProgramCounterKind)
        requires
            x < 16,
        ensures
            final(self)@ == shifted_right(old(self)@, x as int),
            kind == ProgramCounterKind::Next,
    {
        let lsb: u8 = self.v[x] & 0x1;
        self.v[0xF] = lsb;
        self.v[x] = self.v[x] >> 1;
        ProgramCounterKind::Next
    }

    /// Vx becomes Vy less Vx in eight bits; VF becomes 1 where nothing was
    /// borrowed, that is where Vx is at most Vy, else 0.
    pub fn call_8xy7(&mut self, x: usize, y: usize) -> (kind: ProgramCounterKind)
        requires
            x < 16,
            y < 16,
        ensures
            final(self)@ == old(self)@.set_v_then_flag(
                x as int,
                wrap8(old(self)@.v[y as int] - old(self)@.v[x as int]),
                flag_of(old(self)@.v[x as int] <= old(self)@.v[y as int]),
            ),
            kind == ProgramCounterKind::Next,
    {
        let minuend: u16 = self.v[y] as u16;
        let subtrahend: u16 = self.v[x] as u16;
        let borrow: bool = minuend < subtrahend;
        self.v[x] = ((256 + minuend - subtrahend) % 256) as u8;
        self.v[0xf] = if borrow {
            0
        } else {
            1
        };
        ProgramCounterKind::Next
    }

    /// Shifts Vx one bit to the left; VF takes Vx masked with 0x80, so 0x80
    /// and not 1 where the top bit was set. Vy is not read.
    pub fn call_8xye(&mut self, x: usize, _y: usize) -> (kind: ProgramCounterKind)
        requires
            x < 16,
        ensures
            final(self)@ == shifted_left(old(self)@, x as int),
            kind == ProgramCounterKind::Next,
    {
        let msb: u8 = self.v[x] & 0x80;
        self.v[0xF] = msb;
        self.v[x] = self.v[x] << 1;
        ProgramCounterKind::Next
    }

    /// Skips where Vx differs from Vy.
    pub fn call_9xy0(&mut self, x: usize, y: usize) -> (kind: ProgramCounterKind)
        requires
            x < 16,
            y < 16,
        ensures
            final(self)@ == old(self)@,
            kind == skip_if(old(self)@.v[x as int] != old(self)@.v[y as int]),
    {
        if self.v[x] == self.v[y] {
            ProgramCounterKind::Next
        } else {
            ProgramCounterKind::Skip
        }
    }

    /// Loads `nnn` into the index register.
    pub fn call_annn(&mut self, nnn: u16) -> (kind: ProgramCounterKind)
        ensures
            final(self)@ == (CpuState { idx: nnn, ..old(self)@ }),
            kind == ProgramCounterKind::Next,
    {
        self.idx = nnn;
        ProgramCounterKind::Next
    }

    /// Jumps to `nnn` plus V0.
    pub fn call_bnnn(&mut self, nnn: u16) -> (kind: ProgramCounterKind)
        requires
            nnn < 4096,
        ensures
            final(self)@ == old(self)@,
            kind == ProgramCounterKind::Jump((old(self)@.v[0] + nnn) as u16),
    {
        ProgramCounterKind::Jump(self.v[0] as u16 + nnn)
    }

    /// Loads into Vx the random byte masked with `nn`. Without a random byte
    /// nothing changes.
    pub fn call_cxnn(&mut self, x: usize, nn: u8, random: Option<u8>) -> (flow: Result<
        ProgramCounterKind,
        Fault,
    >)
        requires
            x < 16,
        ensures
            match random {
                Some(r) => flow == Ok::<ProgramCounterKind, Fault>(ProgramCounterKind::Next)
                    && final(self)@ == old(self)@.set_v(x as int, r & nn),
                None => flow == Err::<ProgramCounterKind, Fault>(Fault::RandomUnavailable)
                    && final(self)@ == old(self)@,
            },
    {
        match random {
            Some(v) => {
                self.v[x] = v & nn;
                Ok(ProgramCounterKind::Next)
            },
            None => Err(Fault::RandomUnavailable),
        }
    }

    /// Draws the `n` bytes at the index register as a sprite at `(Vx, Vy)`;
    /// VF becomes 1 where a lit pixel was put out, else 0. Where the bytes do
    /// not all lie inside memory nothing changes.
    pub fn call_dxyn(&mut self, bus: &mut Bus, x: usize, y: usize, n: u8) -> (flow: Result<
        ProgramCounterKind,
        Fault,
    >)
        requires
            old(bus).wf(),
            x < 16,
            y < 16,
        ensures
            final(bus).wf(),
            (Executed { cpu: final(self)@, bus: final(bus)@, flow: flow }) == (if span_in_memory(
                old(self)@.idx as int,
                n as int,
            ) {
                let sprite = bytes_at(old(bus)@.mem, old(self)@.idx as int, n as int);
                let vx = old(self)@.v[x as int];
                let vy = old(self)@.v[y as int];
                done(
                    old(self)@.set_v(
                        15,
                        flag_of(rows_collide(old(bus)@.vram, vx as int, vy as int, sprite)),
                    ),
                    BusState {
                        vram: draw_rows(old(bus)@.vram, vx as int, vy as int, sprite),
                        ..old(bus)@
                    },
                )
            } else {
                failed(old(self)@, old(bus)@, Fault::AddressOutOfRange)
            }),
    {
        if !is_span_in_memory(self.idx, n as u16) {
            return Err(Fault::AddressOutOfRange);
        }
        let vx: u8 = self.v[x];
        let vy: u8 = self.v[y];
        let collision: bool = bus.draw(vx, vy, self.idx, n as u16);
        self.v[0xf] = if collision {
            1
        } else {
            0
        };
        Ok(ProgramCounterKind::Next)
    }

    /// Skips where the key held down is the one whose code is in Vx.
    pub fn call_ex9e(&self, bus: &Bus, x: usize) -> (kind: ProgramCounterKind)
        requires
            x < 16,
        ensures
            kind == skip_if(bus@.key == Some(self@.v[x as int])),
    {
        match bus.get_pressed_key() {
            None => ProgramCounterKind::Next,
            Some(k) => if k == self.v[x] {
                ProgramCounterKind::Skip
            } else {
                ProgramCounterKind::Next
            },
        }
    }

    /// Skips where the key whose code is in Vx is not held down, be it
    /// another key or none.
    pub fn call_exa1(&mut self, bus: &Bus, x: usize) -> (kind: ProgramCounterKind)
        requires
            x < 16,
        ensures
            final(self)@ == old(self)@,
            kind == skip_if(bus@.key != Some(old(self)@.v[x as int])),
    {
        match bus.get_pressed_key() {
            None => ProgramCounterKind::Skip,
            Some(k) => if k == self.v[x] {
                ProgramCounterKind::Next
            } else {
                ProgramCounterKind::Skip
            },
        }
    }

    /// Loads the delay timer into Vx.
    pub fn call_fx07(&mut self, x: usize) -> (kind: ProgramCounterKind)
        requires
            x < 16,
        ensures
            final(self)@ == old(self)@.set_v(x as int, old(self)@.dt),
            kind == ProgramCounterKind::Next,
    {
        self.v[x] = self.dt;
        ProgramCounterKind::Next
    }

    /// Waits for the key whose code is in Vx: goes on where it is held down,
    /// and else asks for this same instruction again.
    pub fn call_fx0a(&self, bus: &Bus, x: usize) -> (kind: ProgramCounterKind)
        requires
            x < 16,
        ensures
            kind == (if bus@.key == Some(self@.v[x as int]) {
                ProgramCounterKind::Next
            } else {
                ProgramCounterKind::Jump(self@.pc)
            }),
    {
        match bus.get_pressed_key() {
            None => ProgramCounterKind::Jump(self.pc),
            Some(k) => if k == self.v[x] {
                ProgramCounterKind::Next
            } else {
                ProgramCounterKind::Jump(self.pc)
            },
        }
    }

    /// Loads Vx into the delay timer.
    pub fn call_fx15(&mut self, x: usize) -> (kind: ProgramCounterKind)
        requires
            x < 16,
        ensures
            final(self)@ == (CpuState { dt: old(self)@.v[x as int], ..old(self)@ }),
            kind == ProgramCounterKind::Next,
    {
        self.dt = self.v[x];
        ProgramCounterKind::Next
    }

    /// Loads Vx into the sound timer.
    pub fn call_fx18(&mut self, x: usize) -> (kind: ProgramCounterKind)
        requires
            x < 16,
        ensures
            final(self)@ == (CpuState { st: old(self)@.v[x as int], ..old(self)@ }),
            kind == ProgramCounterKind::Next,
    {
        self.st = self.v[x];
        ProgramCounterKind::Next
    }

    /// Adds Vx to the index register in sixteen bits.
    pub fn call_fx1e(&mut self, x: usize) -> (kind: ProgramCounterKind)
        requires
            x < 16,
        ensures
            final(self)@ == (CpuState {
                idx: wrap16(old(self)@.idx + old(self)@.v[x as int]),
                ..old(self)@
            }),
            kind == ProgramCounterKind::Next,
    {
        let sum: u32 = self.v[x] as u32 + self.idx as u32;
        self.idx = (sum % 65536) as u16;
        ProgramCounterKind::Next
    }

    /// Points the index register at the glyph of the digit in Vx: five times
    /// Vx.
    pub fn call_fx29(&mut self, x: usize) -> (kind: ProgramCounterKind)
        requires
            x < 16,
        ensures
            final(self)@ == (CpuState { idx: (old(self)@.v[x as int] * 5) as u16, ..old(self)@ }),
            kind == ProgramCounterKind::Next,
    {
        let sprite_addr: u16 = self.v[x] as u16 * 5;
        self.idx = sprite_addr;
        ProgramCounterKind::Next
    }

    /// Writes the hundreds, tens and units of Vx to the three bytes at the
    /// index register. Where they do not all lie inside memory nothing
    /// changes.
    pub fn call_fx33(&self, bus: &mut Bus, x: usize) -> (flow: Result<ProgramCounterKind, Fault>)
        requires
            old(bus).wf(),
            x < 16,
        ensures
            final(bus).wf(),
            span_in_memory(self@.idx as int, 3) ==> flow == Ok::<ProgramCounterKind, Fault>(
                ProgramCounterKind::Next,
            ) && final(bus)@ == (BusState {
                mem: store_digits(old(bus)@.mem, self@.idx as int, self@.v[x as int]),
                ..old(bus)@
            }),
            !span_in_memory(self@.idx as int, 3) ==> flow == Err::<ProgramCounterKind, Fault>(
                Fault::AddressOutOfRange,
            ) && final(bus)@ == old(bus)@,
    {
        if !is_span_in_memory(self.idx, 3) {
            return Err(Fault::AddressOutOfRange);
        }
        bus.memwrite(self.idx, self.v[x] / 100);
        bus.memwrite(self.idx + 1, (self.v[x] / 10) % 10);
        bus.memwrite(self.idx + 2, (self.v[x] % 100) % 10);
        Ok(ProgramCounterKind::Next)
    }

    /// Writes V0 to Vx to the bytes at the index register, which stays as it
    /// is. Where they do not all lie inside memory nothing changes.
    pub fn call_fx55(&self, bus: &mut Bus, x: usize) -> (flow: Result<ProgramCounterKind, Fault>)
        requires
            old(bus).wf(),
            x < 16,
        ensures
            final(bus).wf(),
            span_in_memory(self@.idx as int, x + 1) ==> flow == Ok::<ProgramCounterKind, Fault>(
                ProgramCounterKind::Next,
            ) && final(bus)@ == (BusState {
                mem: store_registers(old(bus)@.mem, self@.idx as int, self@.v, x as int),
                ..old(bus)@
            }),
            !span_in_memory(self@.idx as int, x + 1) ==> flow == Err::<ProgramCounterKind, Fault>(
                Fault::AddressOutOfRange,
            ) && final(bus)@ == old(bus)@,
    {
        if !is_span_in_memory(self.idx, x as u16 + 1) {
            return Err(Fault::AddressOutOfRange);
        }
        let ghost mem0 = bus@.mem;
        let ghost bus0 = bus@;
        let mut r: usize = 0;
        assert(bus@.mem =~= store_registers(mem0, self.idx as int, self.v@, -1));
        while r <= x
            invariant
                r <= x + 1,
                x < 16,
                bus.wf(),
                bus0.mem == mem0,
                mem0.len() == MEM_SIZE,
                self.idx + x + 1 <= MEM_SIZE,
                bus@ == (BusState {
                    mem: store_registers(mem0, self.idx as int, self.v@, r - 1),
                    ..bus0
                }),
            decreases x + 1 - r,
        {
            bus.memwrite(self.idx + r as u16, self.v[r]);
            assert(bus@.mem =~= store_registers(mem0, self.idx as int, self.v@, r as int));
            r += 1;
        }
        Ok(ProgramCounterKind::Next)
    }

    /// Reads V0 to Vx from the bytes at the index register, which stays as it
    /// is. Where they do not all lie inside memory nothing changes.
    pub fn call_fx65(&mut self, bus: &Bus, x: usize) -> (flow: Result<ProgramCounterKind, Fault>)
        requires
            old(self).wf(),
            bus.wf(),
            x < 16,
        ensures
            final(self).wf(),
            span_in_memory(old(self)@.idx as int, x + 1) ==> flow == Ok::<
                ProgramCounterKind,
                Fault,
            >(ProgramCounterKind::Next) && final(self)@ == (CpuState {
                v: load_registers(old(self)@.v, bus@.mem, old(self)@.idx as int, x as int),
                ..old(self)@
            }),
            !span_in_memory(old(self)@.idx as int, x + 1) ==> flow == Err::<
                ProgramCounterKind,
                Fault,
            >(Fault::AddressOutOfRange) && final(self)@ == old(self)@,
    {
        if !is_span_in_memory(self.idx, x as u16 + 1) {
            return Err(Fault::AddressOutOfRange);
        }
        let ghost v0 = self.v@;
        let mut r: usize = 0;
        assert(self.v@ =~= load_registers(v0, bus@.mem, self.idx as int, -1));
        while r <= x
            invariant
                r <= x + 1,
                x < 16,
                bus.wf(),
                v0.len() == 16,
                self.idx + x + 1 <= MEM_SIZE,
                self.st == old(self).st,
                self.dt == old(self).dt,
                self.pc == old(self).pc,
                self.idx == old(self).idx,
                self.stack == old(self).stack,
                self.v@ == load_registers(v0, bus@.mem, self.idx as int, r - 1),
            decreases x + 1 - r,
        {
            let byte: u8 = bus.memread(self.idx + r as u16);
            self.v[r] = byte;
            assert(self.v@ =~= load_registers(v0, bus@.mem, self.idx as int, r as int));
            r += 1;
        }
        Ok(ProgramCounterKind::Next)
    }
}

} // verus!

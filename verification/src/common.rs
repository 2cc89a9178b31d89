//! Vocabulary shared by all four engines: the three-way step outcome, the
//! trap taxonomy, the load-time error values, the byte-level I/O hooks, and
//! helpers for 16-bit words stored little-endian in byte memory.

use vstd::prelude::*;

verus! {

/// Number of addressable bytes in every engine's memory.  Each engine owns a
/// fixed memory of this size; addresses at or beyond it trap at run time, and
/// images reaching beyond it are rejected at load time.
pub const MEM_SIZE: usize = 4096;

/// Outcome of executing a single instruction.  `KeepRunning` means the caller
/// may step again; `Halt` and `Error` are terminal: the engine must not be
/// stepped further.
#[derive(Clone, Copy, Debug, PartialEq, Eq, Structural)]
pub enum ProcessorContinue {
    KeepRunning,
    Halt,
    Error,
}

/// The run-time fault that made a step return `ProcessorContinue::Error`.
#[derive(Clone, Copy, Debug, PartialEq, Eq, Structural)]
pub enum TrapKind {
    /// The fetched byte does not name an instruction of the engine, or names
    /// an addressing mode the instruction does not admit.
    InvalidOpcode { opcode: u8 },
    /// A computed memory address, register index, or branch target lies
    /// outside the addressable range.
    OutOfBounds { addr: u16 },
    /// An instruction needed more operands than the stack holds.
    StackUnderflow,
    /// A push would grow the operand stack beyond its fixed capacity.
    StackOverflow,
    /// Integer division or remainder by zero.
    DivisionByZero,
}

/// A raw byte buffer failed structural validation and is not an executable
/// image.  Surfaced before any instruction executes.
#[derive(Clone, Copy, Debug, PartialEq, Eq, Structural)]
pub struct MalformedImage;

/// A structurally valid image does not fit the engine's fixed memory (a
/// segment reaches past the end, or the entry point lies beyond it).
#[derive(Clone, Copy, Debug, PartialEq, Eq, Structural)]
pub struct LoadError;

/// The caller-supplied device: every output instruction hands one word to
/// `output`, every input instruction takes one word from `input`.  The ghost
/// logs `outs` and `ins` record the traffic, so that a step's contract can
/// state exactly what crossed the boundary.  The engine accepts any word an
/// `input` implementation returns.
pub trait IoHandler {
    /// All (port, value) pairs written so far, oldest first.  A handler
    /// that keeps no record may leave the default, which says nothing.
    open spec fn outs(&self) -> Seq<(u16, u16)> {
        Seq::<(u16, u16)>::empty()
    }

    /// All words handed to the engine so far, oldest first.
    open spec fn ins(&self) -> Seq<u16> {
        Seq::<u16>::empty()
    }

    fn output(&mut self, port: u16, value: u16)
        ensures
            final(self).outs() == old(self).outs().push((port, value)),
            final(self).ins() == old(self).ins(),
    ;

    fn input(&mut self, port: u16) -> (r: u16)
        ensures
            final(self).ins() == old(self).ins().push(r),
            final(self).outs() == old(self).outs(),
    ;
}

/// A deterministic device for tests and drivers: records every output and
/// answers input requests from a fixed script, returning 0 once the script is
/// exhausted.
pub struct ScriptedIo {
    pub written: Vec<(u16, u16)>,
    pub script: Vec<u16>,
    pub consumed: Vec<u16>,
}

impl ScriptedIo {
    pub fn new(script: Vec<u16>) -> (r: ScriptedIo)
        ensures
            r.outs() == Seq::<(u16, u16)>::empty(),
            r.ins() == Seq::<u16>::empty(),
            r.script@ == script@,
    {
        ScriptedIo { written: Vec::new(), script, consumed: Vec::new() }
    }
}

impl IoHandler for ScriptedIo {
    open spec fn outs(&self) -> Seq<(u16, u16)> {
        self.written@
    }

    open spec fn ins(&self) -> Seq<u16> {
        self.consumed@
    }

    fn output(&mut self, port: u16, value: u16) {
        self.written.push((port, value));
    }

    fn input(&mut self, port: u16) -> (r: u16) {
        let idx = self.consumed.len();
        let r: u16 = if idx < self.script.len() {
            self.script[idx]
        } else {
            0u16
        };
        self.consumed.push(r);
        r
    }
}

/// The 16-bit word stored little-endian at byte offset `a` of `mem`.
pub open spec fn word_of(mem: Seq<u8>, a: int) -> u16 {
    (mem[a] + 256 * mem[a + 1]) as u16
}

pub open spec fn lo_byte(w: u16) -> u8 {
    (w % 256) as u8
}

pub open spec fn hi_byte(w: u16) -> u8 {
    (w / 256) as u8
}

/// Addition modulo 2^16.
pub open spec fn wadd(a: u16, b: u16) -> u16 {
    ((a + b) % 0x10000) as u16
}

/// Subtraction modulo 2^16.
pub open spec fn wsub(a: u16, b: u16) -> u16 {
    ((a + 0x10000 - b) % 0x10000) as u16
}

/// Multiplication modulo 2^16.
pub open spec fn wmul(a: u16, b: u16) -> u16 {
    ((a * b) % 0x10000) as u16
}

/// Truncating unsigned division; meaningful only for `b != 0`.
pub open spec fn wdiv(a: u16, b: u16) -> u16 {
    (a as int / b as int) as u16
}

/// Unsigned remainder; meaningful only for `b != 0`.
pub open spec fn wmod(a: u16, b: u16) -> u16 {
    (a as int % b as int) as u16
}

pub fn read_word(mem: &Vec<u8>, a: usize) -> (r: u16)
    requires
        a + 1 < mem@.len(),
    ensures
        r == word_of(mem@, a as int),
{
    let n = mem.len();
    let lo = mem[a];
    let hi = mem[a + 1];
    (lo as u16) + 256u16 * (hi as u16)
}

pub fn write_word(mem: &mut Vec<u8>, a: usize, w: u16)
    requires
        a + 1 < old(mem)@.len(),
    ensures
        final(mem)@ == old(mem)@.update(a as int, lo_byte(w)).update(a + 1, hi_byte(w)),
        final(mem)@.len() == old(mem)@.len(),
{
    let n = mem.len();
    mem.set(a, (w % 256) as u8);
    mem.set(a + 1, (w / 256) as u8);
}

pub fn add_words(a: u16, b: u16) -> (r: u16)
    ensures
        r == wadd(a, b),
{
    let s: u32 = a as u32 + b as u32;
    (s % 0x10000) as u16
}

pub fn sub_words(a: u16, b: u16) -> (r: u16)
    ensures
        r == wsub(a, b),
{
    let s: u32 = a as u32 + 0x10000 - b as u32;
    (s % 0x10000) as u16
}

pub fn mul_words(a: u16, b: u16) -> (r: u16)
    ensures
        r == wmul(a, b),
{
    proof {
        assert(a as int * b as int <= 0xFFFF * 0xFFFF) by (nonlinear_arith)
            requires
                a <= 0xFFFF,
                b <= 0xFFFF,
        ;
    }
    let p: u64 = a as u64 * b as u64;
    (p % 0x10000) as u16
}

pub fn div_words(a: u16, b: u16) -> (r: u16)
    requires
        b != 0,
    ensures
        r == wdiv(a, b),
{
    a / b
}

pub fn mod_words(a: u16, b: u16) -> (r: u16)
    requires
        b != 0,
    ensures
        r == wmod(a, b),
{
    a % b
}

/// A vector of `n` zero bytes: the reset state of an engine's memory.
pub fn zero_vec(n: usize) -> (r: Vec<u8>)
    ensures
        r@ == Seq::new(n as nat, |i: int| 0u8),
{
    let mut v: Vec<u8> = Vec::new();
    let mut i: usize = 0;
    while i < n
        invariant
            i <= n,
            v@ == Seq::new(i as nat, |j: int| 0u8),
        decreases n - i,
    {
        v.push(0u8);
        i = i + 1;
        proof {
            assert(v@ =~= Seq::new(i as nat, |j: int| 0u8));
        }
    }
    v
}

} // verus!

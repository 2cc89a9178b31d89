//! The CISC engine: variable-width instructions, a four-register file, a
//! flags word set by comparisons, and rich addressing modes — arithmetic may
//! take a memory operand directly.
//!
//! Encoding: an opcode byte; jumps carry a bare little-endian target address;
//! every other operand is a mode byte followed by its payload — register
//! (mode 0, one register byte), immediate (mode 1, two bytes), memory-direct
//! (mode 2, a two-byte address), memory-indirect (mode 3, one register byte;
//! the register holds the address, dereferenced once).  An instruction's
//! length is therefore known only after decoding its operands.  Destinations
//! admit every mode but immediate.  `CMP` sets the two flags (`zero`:
//! operands equal; `neg`: first operand below the second, unsigned);
//! conditional jumps consult the flags and nothing else.  An unknown opcode
//! byte and an unknown or inadmissible mode byte both trap as
//! `InvalidOpcode` (carrying the offending byte); a resolved address outside
//! memory traps as `OutOfBounds`.

use vstd::prelude::*;

use crate::common::{
    IoHandler, LoadError, ProcessorContinue, TrapKind, MEM_SIZE, add_words, div_words, hi_byte,
    lo_byte, mul_words, read_word, sub_words, wadd, wdiv, wmul, word_of, wsub, write_word,
    zero_vec,
};
use crate::executable::{Executable, image_fits, load_memory, loaded_mem};

verus! {

pub const OP_MOV: u8 = 0x01;

pub const OP_ADD: u8 = 0x10;

pub const OP_SUB: u8 = 0x11;

pub const OP_MUL: u8 = 0x12;

pub const OP_DIV: u8 = 0x13;

pub const OP_CMP: u8 = 0x20;

pub const OP_JMP: u8 = 0x30;

pub const OP_JE: u8 = 0x31;

pub const OP_JNE: u8 = 0x32;

pub const OP_JL: u8 = 0x33;

pub const OP_OUT: u8 = 0x40;

pub const OP_IN: u8 = 0x41;

pub const OP_HALT: u8 = 0xFF;

pub const MODE_REG: u8 = 0;

pub const MODE_IMM: u8 = 1;

pub const MODE_DIR: u8 = 2;

pub const MODE_IND: u8 = 3;

/// Number of general-purpose registers; indices at or beyond it trap.
pub const CISC_REGS: usize = 4;

/// The single destination/source tag handed to the I/O hooks.
pub const IO_PORT: u16 = 0;

/// Byte-addressable memory, the register file, program counter, comparison
/// flags, and the trap recorded by the last failing step.
pub struct CiscProcessor {
    pub mem: Vec<u8>,
    pub regs: Vec<u16>,
    pub pc: u16,
    pub zero: bool,
    pub neg: bool,
    pub trap: Option<TrapKind>,
}

/// The mathematical state of a CISC engine.
#[verifier::ext_equal]
pub struct CiscState {
    pub mem: Seq<u8>,
    pub regs: Seq<u16>,
    pub pc: u16,
    pub zero: bool,
    pub neg: bool,
    pub trap: Option<TrapKind>,
}

impl View for CiscProcessor {
    type V = CiscState;

    open spec fn view(&self) -> CiscState {
        CiscState {
            mem: self.mem@,
            regs: self.regs@,
            pc: self.pc,
            zero: self.zero,
            neg: self.neg,
            trap: self.trap,
        }
    }
}

pub open spec fn cisc_wf(s: CiscState) -> bool {
    s.mem.len() == MEM_SIZE && s.regs.len() == CISC_REGS
}

/// A decoded source operand: its value and the offset just past it, or the
/// trap its decoding raises.
pub enum SrcEval {
    Value { v: u16, next: int },
    Fault { k: TrapKind },
}

/// A decoded destination operand: the register or memory word it names and
/// the offset just past it, or the trap its decoding raises.
pub enum PlaceEval {
    Reg { r: int, next: int },
    Mem { a: int, next: int },
    Fault { k: TrapKind },
}

/// Decodes a source operand at byte offset `off`: mode byte, then payload.
/// Memory-indirect reads the address out of the named register and
/// dereferences it exactly once.
pub open spec fn eval_src(s: CiscState, off: int) -> SrcEval {
    if off + 1 > MEM_SIZE {
        SrcEval::Fault { k: TrapKind::OutOfBounds { addr: s.pc } }
    } else {
        let mode = s.mem[off];
        if mode == MODE_REG {
            if off + 2 > MEM_SIZE {
                SrcEval::Fault { k: TrapKind::OutOfBounds { addr: s.pc } }
            } else {
                let r = s.mem[off + 1];
                if r >= CISC_REGS {
                    SrcEval::Fault { k: TrapKind::OutOfBounds { addr: r as u16 } }
                } else {
                    SrcEval::Value { v: s.regs[r as int], next: off + 2 }
                }
            }
        } else if mode == MODE_IMM {
            if off + 3 > MEM_SIZE {
                SrcEval::Fault { k: TrapKind::OutOfBounds { addr: s.pc } }
            } else {
                SrcEval::Value { v: word_of(s.mem, off + 1), next: off + 3 }
            }
        } else if mode == MODE_DIR {
            if off + 3 > MEM_SIZE {
                SrcEval::Fault { k: TrapKind::OutOfBounds { addr: s.pc } }
            } else {
                let a = word_of(s.mem, off + 1);
                if a + 1 >= MEM_SIZE {
                    SrcEval::Fault { k: TrapKind::OutOfBounds { addr: a } }
                } else {
                    SrcEval::Value { v: word_of(s.mem, a as int), next: off + 3 }
                }
            }
        } else if mode == MODE_IND {
            if off + 2 > MEM_SIZE {
                SrcEval::Fault { k: TrapKind::OutOfBounds { addr: s.pc } }
            } else {
                let r = s.mem[off + 1];
                if r >= CISC_REGS {
                    SrcEval::Fault { k: TrapKind::OutOfBounds { addr: r as u16 } }
                } else {
                    let a = s.regs[r as int];
                    if a + 1 >= MEM_SIZE {
                        SrcEval::Fault { k: TrapKind::OutOfBounds { addr: a } }
                    } else {
                        SrcEval::Value { v: word_of(s.mem, a as int), next: off + 2 }
                    }
                }
            }
        } else {
            SrcEval::Fault { k: TrapKind::InvalidOpcode { opcode: mode } }
        }
    }
}

/// Decodes a destination operand at byte offset `off`.  Every mode but
/// immediate is admissible; memory-indirect resolves to the address held in
/// the named register, never to the register itself.
pub open spec fn eval_place(s: CiscState, off: int) -> PlaceEval {
    if off + 1 > MEM_SIZE {
        PlaceEval::Fault { k: TrapKind::OutOfBounds { addr: s.pc } }
    } else {
        let mode = s.mem[off];
        if mode == MODE_REG {
            if off + 2 > MEM_SIZE {
                PlaceEval::Fault { k: TrapKind::OutOfBounds { addr: s.pc } }
            } else {
                let r = s.mem[off + 1];
                if r >= CISC_REGS {
                    PlaceEval::Fault { k: TrapKind::OutOfBounds { addr: r as u16 } }
                } else {
                    PlaceEval::Reg { r: r as int, next: off + 2 }
                }
            }
        } else if mode == MODE_DIR {
            if off + 3 > MEM_SIZE {
                PlaceEval::Fault { k: TrapKind::OutOfBounds { addr: s.pc } }
            } else {
                let a = word_of(s.mem, off + 1);
                if a + 1 >= MEM_SIZE {
                    PlaceEval::Fault { k: TrapKind::OutOfBounds { addr: a } }
                } else {
                    PlaceEval::Mem { a: a as int, next: off + 3 }
                }
            }
        } else if mode == MODE_IND {
            if off + 2 > MEM_SIZE {
                PlaceEval::Fault { k: TrapKind::OutOfBounds { addr: s.pc } }
            } else {
                let r = s.mem[off + 1];
                if r >= CISC_REGS {
                    PlaceEval::Fault { k: TrapKind::OutOfBounds { addr: r as u16 } }
                } else {
                    let a = s.regs[r as int];
                    if a + 1 >= MEM_SIZE {
                        PlaceEval::Fault { k: TrapKind::OutOfBounds { addr: a } }
                    } else {
                        PlaceEval::Mem { a: a as int, next: off + 2 }
                    }
                }
            }
        } else {
            PlaceEval::Fault { k: TrapKind::InvalidOpcode { opcode: mode } }
        }
    }
}

pub open spec fn place_next(p: PlaceEval) -> int {
    match p {
        PlaceEval::Reg { next, .. } => next,
        PlaceEval::Mem { next, .. } => next,
        PlaceEval::Fault { .. } => 0,
    }
}

/// The current value of a decoded destination (it is also an operand of the
/// read-modify-write arithmetic instructions).
pub open spec fn place_val(s: CiscState, p: PlaceEval) -> u16 {
    match p {
        PlaceEval::Reg { r, .. } => s.regs[r],
        PlaceEval::Mem { a, .. } => word_of(s.mem, a),
        PlaceEval::Fault { .. } => 0u16,
    }
}

/// The state with `val` stored into a decoded destination.
pub open spec fn cisc_write(s: CiscState, p: PlaceEval, val: u16) -> CiscState {
    match p {
        PlaceEval::Reg { r, .. } => CiscState { regs: s.regs.update(r, val), ..s },
        PlaceEval::Mem { a, .. } => CiscState {
            mem: s.mem.update(a, lo_byte(val)).update(a + 1, hi_byte(val)),
            ..s
        },
        PlaceEval::Fault { .. } => s,
    }
}

/// What one step yields: next state, reported outcome, and any emitted
/// (port, value) pair.
#[verifier::ext_equal]
pub struct CiscPost {
    pub state: CiscState,
    pub status: ProcessorContinue,
    pub out: Option<(u16, u16)>,
}

pub open spec fn cisc_trap_post(s: CiscState, k: TrapKind) -> CiscPost {
    CiscPost { state: CiscState { trap: Some(k), ..s }, status: ProcessorContinue::Error, out: None }
}

pub open spec fn cisc_run_post(s2: CiscState, pc2: u16) -> CiscPost {
    CiscPost {
        state: CiscState { pc: pc2, trap: None, ..s2 },
        status: ProcessorContinue::KeepRunning,
        out: None,
    }
}

pub open spec fn cisc_is_arith(op: u8) -> bool {
    op == OP_ADD || op == OP_SUB || op == OP_MUL || op == OP_DIV
}

/// Destination value `a` combined with source value `b`.
pub open spec fn cisc_arith(op: u8, a: u16, b: u16) -> u16 {
    if op == OP_ADD {
        wadd(a, b)
    } else if op == OP_SUB {
        wsub(a, b)
    } else if op == OP_MUL {
        wmul(a, b)
    } else {
        wdiv(a, b)
    }
}

/// The step about to run will consume one word from the input hook.
pub open spec fn cisc_uses_input(s: CiscState) -> bool {
    s.pc < MEM_SIZE && s.mem[s.pc as int] == OP_IN && !(eval_place(s, s.pc + 1) is Fault)
}

/// The transition function of the CISC engine: the full effect of one
/// instruction from state `s`, where `v` is the word the input hook returns
/// (ignored unless the instruction is `IN`).  Traps leave memory, registers,
/// flags and program counter exactly as they were and record the trap kind.
pub open spec fn cisc_step(s: CiscState, v: u16) -> CiscPost {
    if s.pc >= MEM_SIZE {
        cisc_trap_post(s, TrapKind::OutOfBounds { addr: s.pc })
    } else {
        let op = s.mem[s.pc as int];
        if op == OP_HALT {
            CiscPost { state: s, status: ProcessorContinue::Halt, out: None }
        } else if op == OP_JMP || op == OP_JE || op == OP_JNE || op == OP_JL {
            if s.pc + 3 > MEM_SIZE {
                cisc_trap_post(s, TrapKind::OutOfBounds { addr: s.pc })
            } else {
                let t = word_of(s.mem, s.pc + 1);
                let taken = if op == OP_JMP {
                    true
                } else if op == OP_JE {
                    s.zero
                } else if op == OP_JNE {
                    !s.zero
                } else {
                    s.neg
                };
                if taken && t >= MEM_SIZE {
                    cisc_trap_post(s, TrapKind::OutOfBounds { addr: t })
                } else {
                    cisc_run_post(
                        s,
                        if taken {
                            t
                        } else {
                            (s.pc + 3) as u16
                        },
                    )
                }
            }
        } else if op == OP_MOV || cisc_is_arith(op) || op == OP_IN {
            match eval_place(s, s.pc + 1) {
                PlaceEval::Fault { k } => cisc_trap_post(s, k),
                pl => {
                    if op == OP_IN {
                        cisc_run_post(cisc_write(s, pl, v), place_next(pl) as u16)
                    } else if op == OP_MOV {
                        match eval_src(s, place_next(pl)) {
                            SrcEval::Fault { k } => cisc_trap_post(s, k),
                            SrcEval::Value { v: b, next } => cisc_run_post(
                                cisc_write(s, pl, b),
                                next as u16,
                            ),
                        }
                    } else {
                        match eval_src(s, place_next(pl)) {
                            SrcEval::Fault { k } => cisc_trap_post(s, k),
                            SrcEval::Value { v: b, next } => {
                                let a = place_val(s, pl);
                                if op == OP_DIV && b == 0 {
                                    cisc_trap_post(s, TrapKind::DivisionByZero)
                                } else {
                                    cisc_run_post(
                                        cisc_write(s, pl, cisc_arith(op, a, b)),
                                        next as u16,
                                    )
                                }
                            },
                        }
                    }
                },
            }
        } else if op == OP_CMP {
            match eval_src(s, s.pc + 1) {
                SrcEval::Fault { k } => cisc_trap_post(s, k),
                SrcEval::Value { v: a, next } => match eval_src(s, next) {
                    SrcEval::Fault { k } => cisc_trap_post(s, k),
                    SrcEval::Value { v: b, next: n2 } => cisc_run_post(
                        CiscState { zero: a == b, neg: a < b, ..s },
                        n2 as u16,
                    ),
                },
            }
        } else if op == OP_OUT {
            match eval_src(s, s.pc + 1) {
                SrcEval::Fault { k } => cisc_trap_post(s, k),
                SrcEval::Value { v: a, next } => CiscPost {
                    state: CiscState { pc: next as u16, trap: None, ..s },
                    status: ProcessorContinue::KeepRunning,
                    out: Some((IO_PORT, a)),
                },
            }
        } else {
            cisc_trap_post(s, TrapKind::InvalidOpcode { opcode: op })
        }
    }
}

/// One observed step agrees with the transition function, and the I/O logs
/// grew by exactly what the instruction emitted or consumed.
pub open spec fn cisc_step_rel(
    pre: CiscState,
    post: CiscState,
    r: ProcessorContinue,
    outs0: Seq<(u16, u16)>,
    outs1: Seq<(u16, u16)>,
    ins0: Seq<u16>,
    ins1: Seq<u16>,
) -> bool {
    let used = cisc_uses_input(pre);
    let v: u16 = if used {
        ins1.last()
    } else {
        0u16
    };
    let p = cisc_step(pre, v);
    &&& post == p.state
    &&& r == p.status
    &&& ins1 == (if used {
        ins0.push(v)
    } else {
        ins0
    })
    &&& outs1 == (match p.out {
        Some(o) => outs0.push(o),
        None => outs0,
    })
}

/// A decoded destination as the executable code carries it.
#[derive(Clone, Copy)]
pub enum CiscPlace {
    Reg(u8),
    Mem(u16),
}

/// A register file of `CISC_REGS` zeroed registers.
fn zero_regs() -> (r: Vec<u16>)
    ensures
        r@ == Seq::new(CISC_REGS as nat, |i: int| 0u16),
{
    let mut v: Vec<u16> = Vec::new();
    let mut i: usize = 0;
    while i < CISC_REGS
        invariant
            i <= CISC_REGS,
            v@ == Seq::new(i as nat, |j: int| 0u16),
        decreases CISC_REGS - i,
    {
        v.push(0u16);
        i = i + 1;
        proof {
            assert(v@ =~= Seq::new(i as nat, |j: int| 0u16));
        }
    }
    v
}

impl CiscProcessor {
    /// A fresh engine: zeroed memory, registers and flags, program counter 0.
    pub fn new() -> (r: CiscProcessor)
        ensures
            r@.mem == Seq::new(MEM_SIZE as nat, |i: int| 0u8),
            r@.regs == Seq::new(CISC_REGS as nat, |i: int| 0u16),
            r@.pc == 0u16,
            r@.zero == false,
            r@.neg == false,
            r@.trap is None,
            cisc_wf(r@),
    {
        CiscProcessor {
            mem: zero_vec(MEM_SIZE),
            regs: zero_regs(),
            pc: 0,
            zero: false,
            neg: false,
            trap: None,
        }
    }

    /// Copies the image's segments into a zeroed memory, points the program
    /// counter at the entry point and zeroes registers and flags; fails,
    /// leaving the engine untouched, exactly when the image does not fit.
    pub fn load_executable(&mut self, exe: &Executable) -> (r: Result<(), LoadError>)
        ensures
            match r {
                Ok(_) => image_fits(exe@, MEM_SIZE as int) && final(self)@.mem == loaded_mem(
                    exe@,
                    MEM_SIZE as int,
                ) && final(self)@.regs == Seq::new(CISC_REGS as nat, |i: int| 0u16)
                    && final(self)@.pc == exe@.entry_point && final(self)@.zero == false
                    && final(self)@.neg == false && final(self)@.trap is None
                    && cisc_wf(final(self)@),
                Err(_) => !image_fits(exe@, MEM_SIZE as int) && final(self)@ == old(self)@,
            },
    {
        match load_memory(exe, MEM_SIZE) {
            Some(m) => {
                self.mem = m;
                self.regs = zero_regs();
                self.pc = exe.entry_point;
                self.zero = false;
                self.neg = false;
                self.trap = None;
                Ok(())
            },
            None => Err(LoadError),
        }
    }

    /// Decodes the source operand at `off`, mirroring `eval_src`.
    fn eval_src_at(&self, off: usize) -> (r: Result<(u16, usize), TrapKind>)
        requires
            cisc_wf(self@),
            off <= MEM_SIZE,
        ensures
            match r {
                Ok(p) => eval_src(self@, off as int) == (SrcEval::Value {
                    v: p.0,
                    next: p.1 as int,
                }) && p.1 <= MEM_SIZE,
                Err(k) => eval_src(self@, off as int) == (SrcEval::Fault { k }),
            },
    {
        if off + 1 > MEM_SIZE {
            return Err(TrapKind::OutOfBounds { addr: self.pc });
        }
        let mode = self.mem[off];
        if mode == MODE_REG {
            if off + 2 > MEM_SIZE {
                return Err(TrapKind::OutOfBounds { addr: self.pc });
            }
            let r = self.mem[off + 1];
            if r as usize >= CISC_REGS {
                return Err(TrapKind::OutOfBounds { addr: r as u16 });
            }
            Ok((self.regs[r as usize], off + 2))
        } else if mode == MODE_IMM {
            if off + 3 > MEM_SIZE {
                return Err(TrapKind::OutOfBounds { addr: self.pc });
            }
            Ok((read_word(&self.mem, off + 1), off + 3))
        } else if mode == MODE_DIR {
            if off + 3 > MEM_SIZE {
                return Err(TrapKind::OutOfBounds { addr: self.pc });
            }
            let a = read_word(&self.mem, off + 1);
            if a as usize + 1 >= MEM_SIZE {
                return Err(TrapKind::OutOfBounds { addr: a });
            }
            Ok((read_word(&self.mem, a as usize), off + 3))
        } else if mode == MODE_IND {
            if off + 2 > MEM_SIZE {
                return Err(TrapKind::OutOfBounds { addr: self.pc });
            }
            let r = self.mem[off + 1];
            if r as usize >= CISC_REGS {
                return Err(TrapKind::OutOfBounds { addr: r as u16 });
            }
            let a = self.regs[r as usize];
            if a as usize + 1 >= MEM_SIZE {
                return Err(TrapKind::OutOfBounds { addr: a });
            }
            Ok((read_word(&self.mem, a as usize), off + 2))
        } else {
            Err(TrapKind::InvalidOpcode { opcode: mode })
        }
    }

    /// Decodes the destination operand at `off`, mirroring `eval_place`.
    fn eval_place_at(&self, off: usize) -> (r: Result<(CiscPlace, usize), TrapKind>)
        requires
            cisc_wf(self@),
            off <= MEM_SIZE,
        ensures
            match r {
                Ok(p) => (match p.0 {
                    CiscPlace::Reg(rr) => eval_place(self@, off as int) == (PlaceEval::Reg {
                        r: rr as int,
                        next: p.1 as int,
                    }) && (rr as usize) < CISC_REGS,
                    CiscPlace::Mem(aa) => eval_place(self@, off as int) == (PlaceEval::Mem {
                        a: aa as int,
                        next: p.1 as int,
                    }) && (aa as usize) + 1 < MEM_SIZE,
                }) && p.1 <= MEM_SIZE,
                Err(k) => eval_place(self@, off as int) == (PlaceEval::Fault { k }),
            },
    {
        if off + 1 > MEM_SIZE {
            return Err(TrapKind::OutOfBounds { addr: self.pc });
        }
        let mode = self.mem[off];
        if mode == MODE_REG {
            if off + 2 > MEM_SIZE {
                return Err(TrapKind::OutOfBounds { addr: self.pc });
            }
            let r = self.mem[off + 1];
            if r as usize >= CISC_REGS {
                return Err(TrapKind::OutOfBounds { addr: r as u16 });
            }
            Ok((CiscPlace::Reg(r), off + 2))
        } else if mode == MODE_DIR {
            if off + 3 > MEM_SIZE {
                return Err(TrapKind::OutOfBounds { addr: self.pc });
            }
            let a = read_word(&self.mem, off + 1);
            if a as usize + 1 >= MEM_SIZE {
                return Err(TrapKind::OutOfBounds { addr: a });
            }
            Ok((CiscPlace::Mem(a), off + 3))
        } else if mode == MODE_IND {
            if off + 2 > MEM_SIZE {
                return Err(TrapKind::OutOfBounds { addr: self.pc });
            }
            let r = self.mem[off + 1];
            if r as usize >= CISC_REGS {
                return Err(TrapKind::OutOfBounds { addr: r as u16 });
            }
            let a = self.regs[r as usize];
            if a as usize + 1 >= MEM_SIZE {
                return Err(TrapKind::OutOfBounds { addr: a });
            }
            Ok((CiscPlace::Mem(a), off + 2))
        } else {
            Err(TrapKind::InvalidOpcode { opcode: mode })
        }
    }

    /// Executes exactly one instruction; the outcome and the new state are
    /// exactly `cisc_step` of the old state.  `Halt` and `Error` are terminal.
    #[verifier::rlimit(100)]
    pub fn run_command<H: IoHandler>(&mut self, io: &mut H) -> (r: ProcessorContinue)
        requires
            cisc_wf(old(self)@),
        ensures
            cisc_wf(final(self)@),
            cisc_step_rel(
                old(self)@,
                final(self)@,
                r,
                old(io).outs(),
                final(io).outs(),
                old(io).ins(),
                final(io).ins(),
            ),
    {
        let pc = self.pc;
        if pc as usize >= MEM_SIZE {
            self.trap = Some(TrapKind::OutOfBounds { addr: pc });
            return ProcessorContinue::Error;
        }
        let op = self.mem[pc as usize];
        if op == OP_HALT {
            return ProcessorContinue::Halt;
        }
        if op == OP_JMP || op == OP_JE || op == OP_JNE || op == OP_JL {
            if pc as usize + 3 > MEM_SIZE {
                self.trap = Some(TrapKind::OutOfBounds { addr: pc });
                return ProcessorContinue::Error;
            }
            let t = read_word(&self.mem, pc as usize + 1);
            let taken = if op == OP_JMP {
                true
            } else if op == OP_JE {
                self.zero
            } else if op == OP_JNE {
                !self.zero
            } else {
                self.neg
            };
            if taken && t as usize >= MEM_SIZE {
                self.trap = Some(TrapKind::OutOfBounds { addr: t });
                return ProcessorContinue::Error;
            }
            self.pc = if taken {
                t
            } else {
                pc + 3
            };
            self.trap = None;
            return ProcessorContinue::KeepRunning;
        }
        if op == OP_MOV || op == OP_ADD || op == OP_SUB || op == OP_MUL || op == OP_DIV || op
            == OP_IN {
            let (pl, after_dst) = match self.eval_place_at(pc as usize + 1) {
                Ok(p) => p,
                Err(k) => {
                    self.trap = Some(k);
                    return ProcessorContinue::Error;
                },
            };
            if op == OP_IN {
                let v = io.input(IO_PORT);
                self.write_place(pl, v);
                self.pc = after_dst as u16;
                self.trap = None;
                return ProcessorContinue::KeepRunning;
            }
            let (b, after_src) = match self.eval_src_at(after_dst) {
                Ok(p) => p,
                Err(k) => {
                    self.trap = Some(k);
                    return ProcessorContinue::Error;
                },
            };
            if op == OP_MOV {
                self.write_place(pl, b);
                self.pc = after_src as u16;
                self.trap = None;
                return ProcessorContinue::KeepRunning;
            }
            let a = match pl {
                CiscPlace::Reg(rr) => self.regs[rr as usize],
                CiscPlace::Mem(aa) => read_word(&self.mem, aa as usize),
            };
            if op == OP_DIV && b == 0 {
                self.trap = Some(TrapKind::DivisionByZero);
                return ProcessorContinue::Error;
            }
            let z = if op == OP_ADD {
                add_words(a, b)
            } else if op == OP_SUB {
                sub_words(a, b)
            } else if op == OP_MUL {
                mul_words(a, b)
            } else {
                div_words(a, b)
            };
            self.write_place(pl, z);
            self.pc = after_src as u16;
            self.trap = None;
            return ProcessorContinue::KeepRunning;
        }
        if op == OP_CMP {
            let (a, n1) = match self.eval_src_at(pc as usize + 1) {
                Ok(p) => p,
                Err(k) => {
                    self.trap = Some(k);
                    return ProcessorContinue::Error;
                },
            };
            let (b, n2) = match self.eval_src_at(n1) {
                Ok(p) => p,
                Err(k) => {
                    self.trap = Some(k);
                    return ProcessorContinue::Error;
                },
            };
            self.zero = a == b;
            self.neg = a < b;
            self.pc = n2 as u16;
            self.trap = None;
            return ProcessorContinue::KeepRunning;
        }
        if op == OP_OUT {
            let (a, n1) = match self.eval_src_at(pc as usize + 1) {
                Ok(p) => p,
                Err(k) => {
                    self.trap = Some(k);
                    return ProcessorContinue::Error;
                },
            };
            self.pc = n1 as u16;
            self.trap = None;
            io.output(IO_PORT, a);
            return ProcessorContinue::KeepRunning;
        }
        self.trap = Some(TrapKind::InvalidOpcode { opcode: op });
        ProcessorContinue::Error
    }

    /// Stores `val` into a decoded destination.
    fn write_place(&mut self, p: CiscPlace, val: u16)
        requires
            cisc_wf(old(self)@),
            match p {
                CiscPlace::Reg(rr) => (rr as usize) < CISC_REGS,
                CiscPlace::Mem(aa) => (aa as usize) + 1 < MEM_SIZE,
            },
        ensures
            final(self)@ == (match p {
                CiscPlace::Reg(rr) => CiscState {
                    regs: old(self)@.regs.update(rr as int, val),
                    ..old(self)@
                },
                CiscPlace::Mem(aa) => CiscState {
                    mem: old(self)@.mem.update(aa as int, lo_byte(val)).update(
                        aa + 1,
                        hi_byte(val),
                    ),
                    ..old(self)@
                },
            }),
            cisc_wf(final(self)@),
    {
        match p {
            CiscPlace::Reg(rr) => {
                self.regs.set(rr as usize, val);
            },
            CiscPlace::Mem(aa) => {
                write_word(&mut self.mem, aa as usize, val);
            },
        }
    }
}


/// Single-step determinism: from one state, one instruction has one outcome.
/// An instruction that does not consult the input hook yields the same
/// result whatever the hook would have answered.
pub proof fn lemma_cisc_step_deterministic(s: CiscState, v1: u16, v2: u16)
    ensures
        cisc_uses_input(s) && v1 == v2 ==> cisc_step(s, v1) == cisc_step(s, v2),
        !cisc_uses_input(s) ==> cisc_step(s, v1) == cisc_step(s, v2),
{
}

/// Halt terminality: a step that reports `Halt` leaves the state exactly as
/// it was and emits nothing.
pub proof fn lemma_cisc_halt_terminal(s: CiscState, v: u16)
    ensures
        cisc_step(s, v).status == ProcessorContinue::Halt ==> cisc_step(s, v).state == s
            && cisc_step(s, v).out is None,
{
}

/// Trap terminality: a step that reports `Error` records a trap kind and
/// leaves memory, registers, flags and program counter exactly as they were,
/// emitting nothing.
pub proof fn lemma_cisc_trap_records(s: CiscState, v: u16)
    ensures
        cisc_step(s, v).status == ProcessorContinue::Error ==> cisc_step(s, v).state.mem == s.mem
            && cisc_step(s, v).state.regs == s.regs && cisc_step(s, v).state.pc == s.pc
            && cisc_step(s, v).state.zero == s.zero && cisc_step(s, v).state.neg == s.neg
            && cisc_step(s, v).state.trap is Some && cisc_step(s, v).out is None,
{
}

/// Memory-indirect addressing dereferences the register exactly once: with
/// register `r` holding address `a`, an indirect operand reads the memory
/// word at `a` itself, and as a destination it names memory at `a` — never
/// the register's own storage.
pub proof fn lemma_cisc_indirect_resolves(s: CiscState, off: int)
    requires
        cisc_wf(s),
        0 <= off,
        off + 2 <= MEM_SIZE,
        s.mem[off] == MODE_IND,
        s.mem[off + 1] < CISC_REGS,
        s.regs[s.mem[off + 1] as int] + 1 < MEM_SIZE,
    ensures
        eval_src(s, off) == (SrcEval::Value {
            v: word_of(s.mem, s.regs[s.mem[off + 1] as int] as int),
            next: off + 2,
        }),
        eval_place(s, off) == (PlaceEval::Mem {
            a: s.regs[s.mem[off + 1] as int] as int,
            next: off + 2,
        }),
{
}


/// Determinism at the observable boundary: two steps taken from identical
/// snapshots that consume identical input produce identical states, outcomes
/// and output.
pub proof fn lemma_cisc_observed_step_unique(
    pre: CiscState,
    post1: CiscState,
    post2: CiscState,
    r1: ProcessorContinue,
    r2: ProcessorContinue,
    outs0: Seq<(u16, u16)>,
    outs1: Seq<(u16, u16)>,
    outs2: Seq<(u16, u16)>,
    ins0: Seq<u16>,
    ins1: Seq<u16>,
    ins2: Seq<u16>,
)
    requires
        cisc_step_rel(pre, post1, r1, outs0, outs1, ins0, ins1),
        cisc_step_rel(pre, post2, r2, outs0, outs2, ins0, ins2),
        ins1 == ins2,
    ensures
        post1 == post2,
        r1 == r2,
        outs1 == outs2,
{
}

} // verus!

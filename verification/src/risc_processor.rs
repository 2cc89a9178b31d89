//! The RISC engine: eight uniform 16-bit registers, fixed-width instructions,
//! and a strict load/store discipline — arithmetic touches registers only.
//!
//! Every instruction is exactly four bytes: an opcode byte, one register
//! byte, and two trailing bytes that hold either two more register indices
//! or a little-endian 16-bit immediate/address.  Conditional branches pack
//! two register indices into the nibbles of the register byte.  Register 0
//! is hard-wired to zero: writes to it are ignored (the write is dropped,
//! any input consumed for it is still consumed).  The program counter always
//! advances by four on non-branch instructions.

use vstd::prelude::*;

use crate::common::{
    IoHandler, LoadError, ProcessorContinue, TrapKind, MEM_SIZE, add_words, div_words, hi_byte,
    lo_byte, mul_words, read_word, sub_words, wadd, wdiv, wmul, word_of, wsub, write_word,
    zero_vec,
};
use crate::executable::{Executable, image_fits, load_memory, loaded_mem};

verus! {

pub const OP_LI: u8 = 0x01;

pub const OP_LD: u8 = 0x02;

pub const OP_ST: u8 = 0x03;

pub const OP_ADD: u8 = 0x10;

pub const OP_SUB: u8 = 0x11;

pub const OP_MUL: u8 = 0x12;

pub const OP_DIV: u8 = 0x13;

pub const OP_AND: u8 = 0x14;

pub const OP_OR: u8 = 0x15;

pub const OP_XOR: u8 = 0x16;

pub const OP_JMP: u8 = 0x30;

pub const OP_BEQ: u8 = 0x31;

pub const OP_BNE: u8 = 0x32;

pub const OP_BLT: u8 = 0x33;

pub const OP_OUT: u8 = 0x40;

pub const OP_IN: u8 = 0x41;

pub const OP_HALT: u8 = 0xFF;

/// Number of general-purpose registers; indices at or beyond it trap.
pub const RISC_REGS: usize = 8;

/// Width in bytes of every instruction.
pub const INSN_WIDTH: usize = 4;

/// The single destination/source tag handed to the I/O hooks.
pub const IO_PORT: u16 = 0;

/// Byte-addressable memory, the register file, program counter, and the trap
/// recorded by the last failing step.
pub struct RiscProcessor {
    pub mem: Vec<u8>,
    pub regs: Vec<u16>,
    pub pc: u16,
    pub trap: Option<TrapKind>,
}

/// The mathematical state of a RISC engine.
#[verifier::ext_equal]
pub struct RiscState {
    pub mem: Seq<u8>,
    pub regs: Seq<u16>,
    pub pc: u16,
    pub trap: Option<TrapKind>,
}

impl View for RiscProcessor {
    type V = RiscState;

    open spec fn view(&self) -> RiscState {
        RiscState { mem: self.mem@, regs: self.regs@, pc: self.pc, trap: self.trap }
    }
}

pub open spec fn risc_wf(s: RiscState) -> bool {
    s.mem.len() == MEM_SIZE && s.regs.len() == RISC_REGS && s.regs[0] == 0u16
}

/// A register-file write honouring the hard-wired zero register.
pub open spec fn reg_write(regs: Seq<u16>, r: int, v: u16) -> Seq<u16> {
    if r == 0 {
        regs
    } else {
        regs.update(r, v)
    }
}

/// What one step yields: next state, reported outcome, and any emitted
/// (port, value) pair.
#[verifier::ext_equal]
pub struct RiscPost {
    pub state: RiscState,
    pub status: ProcessorContinue,
    pub out: Option<(u16, u16)>,
}

pub open spec fn risc_trap_post(s: RiscState, k: TrapKind) -> RiscPost {
    RiscPost { state: RiscState { trap: Some(k), ..s }, status: ProcessorContinue::Error, out: None }
}

pub open spec fn risc_run_post(s: RiscState, regs2: Seq<u16>, pc2: u16) -> RiscPost {
    RiscPost {
        state: RiscState { mem: s.mem, regs: regs2, pc: pc2, trap: None },
        status: ProcessorContinue::KeepRunning,
        out: None,
    }
}

pub open spec fn risc_is_arith(op: u8) -> bool {
    op == OP_ADD || op == OP_SUB || op == OP_MUL || op == OP_DIV || op == OP_AND || op == OP_OR
        || op == OP_XOR
}

/// Register `a` combined with register `b` under the opcode's operation.
pub open spec fn risc_arith(op: u8, a: u16, b: u16) -> u16 {
    if op == OP_ADD {
        wadd(a, b)
    } else if op == OP_SUB {
        wsub(a, b)
    } else if op == OP_MUL {
        wmul(a, b)
    } else if op == OP_DIV {
        wdiv(a, b)
    } else if op == OP_AND {
        a & b
    } else if op == OP_OR {
        a | b
    } else {
        a ^ b
    }
}

/// The step about to run will consume one word from the input hook.
pub open spec fn risc_uses_input(s: RiscState) -> bool {
    s.pc + INSN_WIDTH <= MEM_SIZE && s.mem[s.pc as int] == OP_IN && s.mem[s.pc + 1] < RISC_REGS
}

/// The transition function of the RISC engine: the full effect of one
/// instruction from state `s`, where `v` is the word the input hook returns
/// (ignored unless the instruction is `IN`).  Traps leave memory, registers
/// and program counter exactly as they were and record the trap kind.
pub open spec fn risc_step(s: RiscState, v: u16) -> RiscPost {
    if s.pc + INSN_WIDTH > MEM_SIZE {
        risc_trap_post(s, TrapKind::OutOfBounds { addr: s.pc })
    } else {
        let op = s.mem[s.pc as int];
        let b1 = s.mem[s.pc + 1];
        let b2 = s.mem[s.pc + 2];
        let b3 = s.mem[s.pc + 3];
        let imm = word_of(s.mem, s.pc + 2);
        let pc4 = (s.pc + INSN_WIDTH) as u16;
        if op == OP_HALT {
            RiscPost { state: s, status: ProcessorContinue::Halt, out: None }
        } else if op == OP_LI {
            if b1 >= RISC_REGS {
                risc_trap_post(s, TrapKind::OutOfBounds { addr: b1 as u16 })
            } else {
                risc_run_post(s, reg_write(s.regs, b1 as int, imm), pc4)
            }
        } else if op == OP_LD {
            if b1 >= RISC_REGS {
                risc_trap_post(s, TrapKind::OutOfBounds { addr: b1 as u16 })
            } else if imm + 1 >= MEM_SIZE {
                risc_trap_post(s, TrapKind::OutOfBounds { addr: imm })
            } else {
                risc_run_post(s, reg_write(s.regs, b1 as int, word_of(s.mem, imm as int)), pc4)
            }
        } else if op == OP_ST {
            if b1 >= RISC_REGS {
                risc_trap_post(s, TrapKind::OutOfBounds { addr: b1 as u16 })
            } else if imm + 1 >= MEM_SIZE {
                risc_trap_post(s, TrapKind::OutOfBounds { addr: imm })
            } else {
                let w = s.regs[b1 as int];
                RiscPost {
                    state: RiscState {
                        mem: s.mem.update(imm as int, lo_byte(w)).update(imm + 1, hi_byte(w)),
                        regs: s.regs,
                        pc: pc4,
                        trap: None,
                    },
                    status: ProcessorContinue::KeepRunning,
                    out: None,
                }
            }
        } else if risc_is_arith(op) {
            if b1 >= RISC_REGS {
                risc_trap_post(s, TrapKind::OutOfBounds { addr: b1 as u16 })
            } else if b2 >= RISC_REGS {
                risc_trap_post(s, TrapKind::OutOfBounds { addr: b2 as u16 })
            } else if b3 >= RISC_REGS {
                risc_trap_post(s, TrapKind::OutOfBounds { addr: b3 as u16 })
            } else if op == OP_DIV && s.regs[b3 as int] == 0 {
                risc_trap_post(s, TrapKind::DivisionByZero)
            } else {
                risc_run_post(
                    s,
                    reg_write(s.regs, b1 as int, risc_arith(op, s.regs[b2 as int], s.regs[b3 as int])),
                    pc4,
                )
            }
        } else if op == OP_JMP {
            if imm >= MEM_SIZE {
                risc_trap_post(s, TrapKind::OutOfBounds { addr: imm })
            } else {
                risc_run_post(s, s.regs, imm)
            }
        } else if op == OP_BEQ || op == OP_BNE || op == OP_BLT {
            let r1 = b1 / 16;
            let r2 = b1 % 16;
            if r1 >= RISC_REGS {
                risc_trap_post(s, TrapKind::OutOfBounds { addr: r1 as u16 })
            } else if r2 >= RISC_REGS {
                risc_trap_post(s, TrapKind::OutOfBounds { addr: r2 as u16 })
            } else {
                let x = s.regs[r1 as int];
                let y = s.regs[r2 as int];
                let taken = if op == OP_BEQ {
                    x == y
                } else if op == OP_BNE {
                    x != y
                } else {
                    x < y
                };
                if taken && imm >= MEM_SIZE {
                    risc_trap_post(s, TrapKind::OutOfBounds { addr: imm })
                } else {
                    risc_run_post(
                        s,
                        s.regs,
                        if taken {
                            imm
                        } else {
                            pc4
                        },
                    )
                }
            }
        } else if op == OP_OUT {
            if b1 >= RISC_REGS {
                risc_trap_post(s, TrapKind::OutOfBounds { addr: b1 as u16 })
            } else {
                RiscPost {
                    state: RiscState { mem: s.mem, regs: s.regs, pc: pc4, trap: None },
                    status: ProcessorContinue::KeepRunning,
                    out: Some((IO_PORT, s.regs[b1 as int])),
                }
            }
        } else if op == OP_IN {
            if b1 >= RISC_REGS {
                risc_trap_post(s, TrapKind::OutOfBounds { addr: b1 as u16 })
            } else {
                risc_run_post(s, reg_write(s.regs, b1 as int, v), pc4)
            }
        } else {
            risc_trap_post(s, TrapKind::InvalidOpcode { opcode: op })
        }
    }
}

/// One observed step agrees with the transition function, and the I/O logs
/// grew by exactly what the instruction emitted or consumed.
pub open spec fn risc_step_rel(
    pre: RiscState,
    post: RiscState,
    r: ProcessorContinue,
    outs0: Seq<(u16, u16)>,
    outs1: Seq<(u16, u16)>,
    ins0: Seq<u16>,
    ins1: Seq<u16>,
) -> bool {
    let used = risc_uses_input(pre);
    let v: u16 = if used {
        ins1.last()
    } else {
        0u16
    };
    let p = risc_step(pre, v);
    &&& post == p.state
    &&& r == p.status
    &&& ins1 == (if used {
        ins0.push(v)
    } else {
        ins0
    })
    &&& outs1 == (match p.out {
        Some(o) => outs0.push(o),
        None => outs0,
    })
}

/// A register file of `RISC_REGS` zeroed registers.
fn zero_regs() -> (r: Vec<u16>)
    ensures
        r@ == Seq::new(RISC_REGS as nat, |i: int| 0u16),
{
    let mut v: Vec<u16> = Vec::new();
    let mut i: usize = 0;
    while i < RISC_REGS
        invariant
            i <= RISC_REGS,
            v@ == Seq::new(i as nat, |j: int| 0u16),
        decreases RISC_REGS - i,
    {
        v.push(0u16);
        i = i + 1;
        proof {
            assert(v@ =~= Seq::new(i as nat, |j: int| 0u16));
        }
    }
    v
}

impl RiscProcessor {
    /// A fresh engine: zeroed memory and registers, program counter 0.
    pub fn new() -> (r: RiscProcessor)
        ensures
            r@.mem == Seq::new(MEM_SIZE as nat, |i: int| 0u8),
            r@.regs == Seq::new(RISC_REGS as nat, |i: int| 0u16),
            r@.pc == 0u16,
            r@.trap is None,
            risc_wf(r@),
    {
        RiscProcessor { mem: zero_vec(MEM_SIZE), regs: zero_regs(), pc: 0, trap: None }
    }

    /// Copies the image's segments into a zeroed memory, points the program
    /// counter at the entry point and zeroes the registers; fails, leaving
    /// the engine untouched, exactly when the image does not fit the memory.
    pub fn load_executable(&mut self, exe: &Executable) -> (r: Result<(), LoadError>)
        ensures
            match r {
                Ok(_) => image_fits(exe@, MEM_SIZE as int) && final(self)@.mem == loaded_mem(
                    exe@,
                    MEM_SIZE as int,
                ) && final(self)@.regs == Seq::new(RISC_REGS as nat, |i: int| 0u16)
                    && final(self)@.pc == exe@.entry_point && final(self)@.trap is None
                    && risc_wf(final(self)@),
                Err(_) => !image_fits(exe@, MEM_SIZE as int) && final(self)@ == old(self)@,
            },
    {
        match load_memory(exe, MEM_SIZE) {
            Some(m) => {
                self.mem = m;
                self.regs = zero_regs();
                self.pc = exe.entry_point;
                self.trap = None;
                Ok(())
            },
            None => Err(LoadError),
        }
    }

    /// Executes exactly one instruction; the outcome and the new state are
    /// exactly `risc_step` of the old state.  `Halt` and `Error` are terminal.
    #[verifier::rlimit(60)]
    pub fn run_command<H: IoHandler>(&mut self, io: &mut H) -> (r: ProcessorContinue)
        requires
            risc_wf(old(self)@),
        ensures
            risc_wf(final(self)@),
            risc_step_rel(
                old(self)@,
                final(self)@,
                r,
                old(io).outs(),
                final(io).outs(),
                old(io).ins(),
                final(io).ins(),
            ),
    {
        let pc = self.pc;
        if pc as usize + INSN_WIDTH > MEM_SIZE {
            self.trap = Some(TrapKind::OutOfBounds { addr: pc });
            return ProcessorContinue::Error;
        }
        let op = self.mem[pc as usize];
        let b1 = self.mem[pc as usize + 1];
        let b2 = self.mem[pc as usize + 2];
        let b3 = self.mem[pc as usize + 3];
        let imm = read_word(&self.mem, pc as usize + 2);
        let pc4 = pc + 4;
        if op == OP_HALT {
            return ProcessorContinue::Halt;
        }
        if op == OP_LI {
            if b1 as usize >= RISC_REGS {
                self.trap = Some(TrapKind::OutOfBounds { addr: b1 as u16 });
                return ProcessorContinue::Error;
            }
            self.set_reg(b1, imm);
            self.pc = pc4;
            self.trap = None;
            return ProcessorContinue::KeepRunning;
        }
        if op == OP_LD {
            if b1 as usize >= RISC_REGS {
                self.trap = Some(TrapKind::OutOfBounds { addr: b1 as u16 });
                return ProcessorContinue::Error;
            }
            if imm as usize + 1 >= MEM_SIZE {
                self.trap = Some(TrapKind::OutOfBounds { addr: imm });
                return ProcessorContinue::Error;
            }
            let w = read_word(&self.mem, imm as usize);
            self.set_reg(b1, w);
            self.pc = pc4;
            self.trap = None;
            return ProcessorContinue::KeepRunning;
        }
        if op == OP_ST {
            if b1 as usize >= RISC_REGS {
                self.trap = Some(TrapKind::OutOfBounds { addr: b1 as u16 });
                return ProcessorContinue::Error;
            }
            if imm as usize + 1 >= MEM_SIZE {
                self.trap = Some(TrapKind::OutOfBounds { addr: imm });
                return ProcessorContinue::Error;
            }
            let w = self.regs[b1 as usize];
            write_word(&mut self.mem, imm as usize, w);
            self.pc = pc4;
            self.trap = None;
            return ProcessorContinue::KeepRunning;
        }
        if op == OP_ADD || op == OP_SUB || op == OP_MUL || op == OP_DIV || op == OP_AND || op
            == OP_OR || op == OP_XOR {
            if b1 as usize >= RISC_REGS {
                self.trap = Some(TrapKind::OutOfBounds { addr: b1 as u16 });
                return ProcessorContinue::Error;
            }
            if b2 as usize >= RISC_REGS {
                self.trap = Some(TrapKind::OutOfBounds { addr: b2 as u16 });
                return ProcessorContinue::Error;
            }
            if b3 as usize >= RISC_REGS {
                self.trap = Some(TrapKind::OutOfBounds { addr: b3 as u16 });
                return ProcessorContinue::Error;
            }
            let x = self.regs[b2 as usize];
            let y = self.regs[b3 as usize];
            if op == OP_DIV && y == 0 {
                self.trap = Some(TrapKind::DivisionByZero);
                return ProcessorContinue::Error;
            }
            let z = if op == OP_ADD {
                add_words(x, y)
            } else if op == OP_SUB {
                sub_words(x, y)
            } else if op == OP_MUL {
                mul_words(x, y)
            } else if op == OP_DIV {
                div_words(x, y)
            } else if op == OP_AND {
                x & y
            } else if op == OP_OR {
                x | y
            } else {
                x ^ y
            };
            self.set_reg(b1, z);
            self.pc = pc4;
            self.trap = None;
            return ProcessorContinue::KeepRunning;
        }
        if op == OP_JMP {
            if imm as usize >= MEM_SIZE {
                self.trap = Some(TrapKind::OutOfBounds { addr: imm });
                return ProcessorContinue::Error;
            }
            self.pc = imm;
            self.trap = None;
            return ProcessorContinue::KeepRunning;
        }
        if op == OP_BEQ || op == OP_BNE || op == OP_BLT {
            let r1 = b1 / 16;
            let r2 = b1 % 16;
            if r1 as usize >= RISC_REGS {
                self.trap = Some(TrapKind::OutOfBounds { addr: r1 as u16 });
                return ProcessorContinue::Error;
            }
            if r2 as usize >= RISC_REGS {
                self.trap = Some(TrapKind::OutOfBounds { addr: r2 as u16 });
                return ProcessorContinue::Error;
            }
            let x = self.regs[r1 as usize];
            let y = self.regs[r2 as usize];
            let taken = if op == OP_BEQ {
                x == y
            } else if op == OP_BNE {
                x != y
            } else {
                x < y
            };
            if taken && imm as usize >= MEM_SIZE {
                self.trap = Some(TrapKind::OutOfBounds { addr: imm });
                return ProcessorContinue::Error;
            }
            self.pc = if taken {
                imm
            } else {
                pc4
            };
            self.trap = None;
            return ProcessorContinue::KeepRunning;
        }
        if op == OP_OUT {
            if b1 as usize >= RISC_REGS {
                self.trap = Some(TrapKind::OutOfBounds { addr: b1 as u16 });
                return ProcessorContinue::Error;
            }
            let v = self.regs[b1 as usize];
            self.pc = pc4;
            self.trap = None;
            io.output(IO_PORT, v);
            return ProcessorContinue::KeepRunning;
        }
        if op == OP_IN {
            if b1 as usize >= RISC_REGS {
                self.trap = Some(TrapKind::OutOfBounds { addr: b1 as u16 });
                return ProcessorContinue::Error;
            }
            let v = io.input(IO_PORT);
            self.set_reg(b1, v);
            self.pc = pc4;
            self.trap = None;
            return ProcessorContinue::KeepRunning;
        }
        self.trap = Some(TrapKind::InvalidOpcode { opcode: op });
        ProcessorContinue::Error
    }

    /// Writes register `r`, dropping the write if `r` is the zero register.
    fn set_reg(&mut self, r: u8, v: u16)
        requires
            (r as int) < old(self)@.regs.len(),
        ensures
            final(self)@.regs == reg_write(old(self)@.regs, r as int, v),
            final(self)@.mem == old(self)@.mem,
            final(self)@.pc == old(self)@.pc,
            final(self)@.trap == old(self)@.trap,
    {
        if r != 0 {
            self.regs.set(r as usize, v);
        }
    }
}


/// Single-step determinism: from one state, one instruction has one outcome.
/// An instruction that does not consult the input hook yields the same
/// result whatever the hook would have answered.
pub proof fn lemma_risc_step_deterministic(s: RiscState, v1: u16, v2: u16)
    ensures
        risc_uses_input(s) && v1 == v2 ==> risc_step(s, v1) == risc_step(s, v2),
        !risc_uses_input(s) ==> risc_step(s, v1) == risc_step(s, v2),
{
}

/// Halt terminality: a step that reports `Halt` leaves the state exactly as
/// it was and emits nothing.
pub proof fn lemma_risc_halt_terminal(s: RiscState, v: u16)
    ensures
        risc_step(s, v).status == ProcessorContinue::Halt ==> risc_step(s, v).state == s
            && risc_step(s, v).out is None,
{
}

/// Trap terminality: a step that reports `Error` records a trap kind and
/// leaves memory, registers and program counter exactly as they were,
/// emitting nothing.
pub proof fn lemma_risc_trap_records(s: RiscState, v: u16)
    ensures
        risc_step(s, v).status == ProcessorContinue::Error ==> risc_step(s, v).state.mem == s.mem
            && risc_step(s, v).state.regs == s.regs && risc_step(s, v).state.pc == s.pc
            && risc_step(s, v).state.trap is Some && risc_step(s, v).out is None,
{
}

/// The zero register stays zero: every register-file write a step performs
/// goes through `reg_write`, which drops writes to register 0.
pub proof fn lemma_risc_zero_register(regs: Seq<u16>, r: int, v: u16)
    requires
        regs.len() > 0,
        regs[0] == 0u16,
        0 <= r < regs.len(),
    ensures
        reg_write(regs, r, v)[0] == 0u16,
        r != 0 ==> reg_write(regs, r, v)[r] == v,
{
}


/// Determinism at the observable boundary: two steps taken from identical
/// snapshots that consume identical input produce identical states, outcomes
/// and output.
pub proof fn lemma_risc_observed_step_unique(
    pre: RiscState,
    post1: RiscState,
    post2: RiscState,
    r1: ProcessorContinue,
    r2: ProcessorContinue,
    outs0: Seq<(u16, u16)>,
    outs1: Seq<(u16, u16)>,
    outs2: Seq<(u16, u16)>,
    ins0: Seq<u16>,
    ins1: Seq<u16>,
    ins2: Seq<u16>,
)
    requires
        risc_step_rel(pre, post1, r1, outs0, outs1, ins0, ins1),
        risc_step_rel(pre, post2, r2, outs0, outs2, ins0, ins2),
        ins1 == ins2,
    ensures
        post1 == post2,
        r1 == r2,
        outs1 == outs2,
{
}

} // verus!

//! The accumulator engine: a single implicit result register.  Every
//! arithmetic instruction combines the accumulator with one explicit operand
//! (immediate or memory word) and stores the result back in the accumulator.
//!
//! Encoding: one opcode byte; `OUT`, `IN` and `HALT` take nothing more, every
//! other instruction carries one little-endian 16-bit operand (an immediate
//! value or an address).  Conditional branches test the accumulator directly:
//! zero, non-zero, or negative (top bit set).

use vstd::prelude::*;

use crate::common::{
    IoHandler, LoadError, ProcessorContinue, TrapKind, MEM_SIZE, add_words, div_words, hi_byte,
    lo_byte, mul_words, read_word, sub_words, wadd, wdiv, wmul, word_of, wsub, write_word,
    zero_vec,
};
use crate::executable::{Executable, image_fits, load_memory, loaded_mem};

verus! {

pub const OP_LOAD_IMM: u8 = 0x01;

pub const OP_LOAD_MEM: u8 = 0x02;

pub const OP_STORE_MEM: u8 = 0x03;

pub const OP_ADD_IMM: u8 = 0x10;

pub const OP_ADD_MEM: u8 = 0x11;

pub const OP_SUB_IMM: u8 = 0x12;

pub const OP_SUB_MEM: u8 = 0x13;

pub const OP_MUL_IMM: u8 = 0x14;

pub const OP_MUL_MEM: u8 = 0x15;

pub const OP_DIV_IMM: u8 = 0x16;

pub const OP_DIV_MEM: u8 = 0x17;

pub const OP_JMP: u8 = 0x30;

pub const OP_JZ: u8 = 0x31;

pub const OP_JNZ: u8 = 0x32;

pub const OP_JNEG: u8 = 0x33;

pub const OP_OUT: u8 = 0x40;

pub const OP_IN: u8 = 0x41;

pub const OP_HALT: u8 = 0xFF;

/// The single destination/source tag handed to the I/O hooks.
pub const IO_PORT: u16 = 0;

/// Byte-addressable memory, the accumulator, program counter, and the trap
/// recorded by the last failing step.
pub struct AccProcessor {
    pub mem: Vec<u8>,
    pub acc: u16,
    pub pc: u16,
    pub trap: Option<TrapKind>,
}

/// The mathematical state of an accumulator engine.
#[verifier::ext_equal]
pub struct AccState {
    pub mem: Seq<u8>,
    pub acc: u16,
    pub pc: u16,
    pub trap: Option<TrapKind>,
}

impl View for AccProcessor {
    type V = AccState;

    open spec fn view(&self) -> AccState {
        AccState { mem: self.mem@, acc: self.acc, pc: self.pc, trap: self.trap }
    }
}

pub open spec fn acc_wf(s: AccState) -> bool {
    s.mem.len() == MEM_SIZE
}

/// What one step yields: next state, reported outcome, and any emitted
/// (port, value) pair.
#[verifier::ext_equal]
pub struct AccPost {
    pub state: AccState,
    pub status: ProcessorContinue,
    pub out: Option<(u16, u16)>,
}

pub open spec fn acc_trap_post(s: AccState, k: TrapKind) -> AccPost {
    AccPost { state: AccState { trap: Some(k), ..s }, status: ProcessorContinue::Error, out: None }
}

pub open spec fn acc_run_post(s: AccState, acc2: u16, pc2: u16) -> AccPost {
    AccPost {
        state: AccState { mem: s.mem, acc: acc2, pc: pc2, trap: None },
        status: ProcessorContinue::KeepRunning,
        out: None,
    }
}

/// The opcodes that carry a 16-bit operand.
pub open spec fn acc_has_operand(op: u8) -> bool {
    op == OP_LOAD_IMM || op == OP_LOAD_MEM || op == OP_STORE_MEM || acc_is_arith_imm(op)
        || acc_is_arith_mem(op) || op == OP_JMP || op == OP_JZ || op == OP_JNZ || op == OP_JNEG
}

pub open spec fn acc_is_arith_imm(op: u8) -> bool {
    op == OP_ADD_IMM || op == OP_SUB_IMM || op == OP_MUL_IMM || op == OP_DIV_IMM
}

pub open spec fn acc_is_arith_mem(op: u8) -> bool {
    op == OP_ADD_MEM || op == OP_SUB_MEM || op == OP_MUL_MEM || op == OP_DIV_MEM
}

pub open spec fn acc_is_div(op: u8) -> bool {
    op == OP_DIV_IMM || op == OP_DIV_MEM
}

/// The accumulator combined with operand `b` under the opcode's operation.
pub open spec fn acc_arith(op: u8, a: u16, b: u16) -> u16 {
    if op == OP_ADD_IMM || op == OP_ADD_MEM {
        wadd(a, b)
    } else if op == OP_SUB_IMM || op == OP_SUB_MEM {
        wsub(a, b)
    } else if op == OP_MUL_IMM || op == OP_MUL_MEM {
        wmul(a, b)
    } else {
        wdiv(a, b)
    }
}

/// The step about to run will consume one word from the input hook.
pub open spec fn acc_uses_input(s: AccState) -> bool {
    s.pc < MEM_SIZE && s.mem[s.pc as int] == OP_IN
}

/// The transition function of the accumulator engine: the full effect of one
/// instruction from state `s`, where `v` is the word the input hook returns
/// (ignored unless the instruction is `IN`).  Traps leave memory, accumulator
/// and program counter exactly as they were and record the trap kind.
pub open spec fn acc_step(s: AccState, v: u16) -> AccPost {
    if s.pc >= MEM_SIZE {
        acc_trap_post(s, TrapKind::OutOfBounds { addr: s.pc })
    } else {
        let op = s.mem[s.pc as int];
        if op == OP_HALT {
            AccPost { state: s, status: ProcessorContinue::Halt, out: None }
        } else if op == OP_OUT {
            AccPost {
                state: AccState { mem: s.mem, acc: s.acc, pc: (s.pc + 1) as u16, trap: None },
                status: ProcessorContinue::KeepRunning,
                out: Some((IO_PORT, s.acc)),
            }
        } else if op == OP_IN {
            acc_run_post(s, v, (s.pc + 1) as u16)
        } else if acc_has_operand(op) {
            if s.pc + 3 > MEM_SIZE {
                acc_trap_post(s, TrapKind::OutOfBounds { addr: s.pc })
            } else {
                let w = word_of(s.mem, s.pc + 1);
                if op == OP_LOAD_IMM {
                    acc_run_post(s, w, (s.pc + 3) as u16)
                } else if op == OP_LOAD_MEM {
                    if w + 1 >= MEM_SIZE {
                        acc_trap_post(s, TrapKind::OutOfBounds { addr: w })
                    } else {
                        acc_run_post(s, word_of(s.mem, w as int), (s.pc + 3) as u16)
                    }
                } else if op == OP_STORE_MEM {
                    if w + 1 >= MEM_SIZE {
                        acc_trap_post(s, TrapKind::OutOfBounds { addr: w })
                    } else {
                        AccPost {
                            state: AccState {
                                mem: s.mem.update(w as int, lo_byte(s.acc)).update(
                                    w + 1,
                                    hi_byte(s.acc),
                                ),
                                acc: s.acc,
                                pc: (s.pc + 3) as u16,
                                trap: None,
                            },
                            status: ProcessorContinue::KeepRunning,
                            out: None,
                        }
                    }
                } else if acc_is_arith_imm(op) {
                    if acc_is_div(op) && w == 0 {
                        acc_trap_post(s, TrapKind::DivisionByZero)
                    } else {
                        acc_run_post(s, acc_arith(op, s.acc, w), (s.pc + 3) as u16)
                    }
                } else if acc_is_arith_mem(op) {
                    if w + 1 >= MEM_SIZE {
                        acc_trap_post(s, TrapKind::OutOfBounds { addr: w })
                    } else {
                        let m = word_of(s.mem, w as int);
                        if acc_is_div(op) && m == 0 {
                            acc_trap_post(s, TrapKind::DivisionByZero)
                        } else {
                            acc_run_post(s, acc_arith(op, s.acc, m), (s.pc + 3) as u16)
                        }
                    }
                } else {
                    let taken = if op == OP_JMP {
                        true
                    } else if op == OP_JZ {
                        s.acc == 0
                    } else if op == OP_JNZ {
                        s.acc != 0
                    } else {
                        s.acc >= 0x8000
                    };
                    if taken && w >= MEM_SIZE {
                        acc_trap_post(s, TrapKind::OutOfBounds { addr: w })
                    } else {
                        acc_run_post(
                            s,
                            s.acc,
                            if taken {
                                w
                            } else {
                                (s.pc + 3) as u16
                            },
                        )
                    }
                }
            }
        } else {
            acc_trap_post(s, TrapKind::InvalidOpcode { opcode: op })
        }
    }
}

/// One observed step agrees with the transition function, and the I/O logs
/// grew by exactly what the instruction emitted or consumed.
pub open spec fn acc_step_rel(
    pre: AccState,
    post: AccState,
    r: ProcessorContinue,
    outs0: Seq<(u16, u16)>,
    outs1: Seq<(u16, u16)>,
    ins0: Seq<u16>,
    ins1: Seq<u16>,
) -> bool {
    let used = acc_uses_input(pre);
    let v: u16 = if used {
        ins1.last()
    } else {
        0u16
    };
    let p = acc_step(pre, v);
    &&& post == p.state
    &&& r == p.status
    &&& ins1 == (if used {
        ins0.push(v)
    } else {
        ins0
    })
    &&& outs1 == (match p.out {
        Some(o) => outs0.push(o),
        None => outs0,
    })
}

impl AccProcessor {
    /// A fresh engine: zeroed memory and accumulator, program counter 0.
    pub fn new() -> (r: AccProcessor)
        ensures
            r@.mem == Seq::new(MEM_SIZE as nat, |i: int| 0u8),
            r@.acc == 0u16,
            r@.pc == 0u16,
            r@.trap is None,
            acc_wf(r@),
    {
        AccProcessor { mem: zero_vec(MEM_SIZE), acc: 0, pc: 0, trap: None }
    }

    /// Copies the image's segments into a zeroed memory, points the program
    /// counter at the entry point and zeroes the accumulator; fails, leaving
    /// the engine untouched, exactly when the image does not fit the memory.
    pub fn load_executable(&mut self, exe: &Executable) -> (r: Result<(), LoadError>)
        ensures
            match r {
                Ok(_) => image_fits(exe@, MEM_SIZE as int) && final(self)@.mem == loaded_mem(
                    exe@,
                    MEM_SIZE as int,
                ) && final(self)@.acc == 0u16 && final(self)@.pc == exe@.entry_point
                    && final(self)@.trap is None && acc_wf(final(self)@),
                Err(_) => !image_fits(exe@, MEM_SIZE as int) && final(self)@ == old(self)@,
            },
    {
        match load_memory(exe, MEM_SIZE) {
            Some(m) => {
                self.mem = m;
                self.acc = 0;
                self.pc = exe.entry_point;
                self.trap = None;
                Ok(())
            },
            None => Err(LoadError),
        }
    }

    /// Executes exactly one instruction; the outcome and the new state are
    /// exactly `acc_step` of the old state.  `Halt` and `Error` are terminal.
    #[verifier::rlimit(60)]
    pub fn run_command<H: IoHandler>(&mut self, io: &mut H) -> (r: ProcessorContinue)
        requires
            acc_wf(old(self)@),
        ensures
            acc_wf(final(self)@),
            acc_step_rel(
                old(self)@,
                final(self)@,
                r,
                old(io).outs(),
                final(io).outs(),
                old(io).ins(),
                final(io).ins(),
            ),
    {
        let pc = self.pc;
        if pc as usize >= MEM_SIZE {
            self.trap = Some(TrapKind::OutOfBounds { addr: pc });
            return ProcessorContinue::Error;
        }
        let op = self.mem[pc as usize];
        if op == OP_HALT {
            return ProcessorContinue::Halt;
        }
        if op == OP_OUT {
            self.pc = pc + 1;
            self.trap = None;
            io.output(IO_PORT, self.acc);
            return ProcessorContinue::KeepRunning;
        }
        if op == OP_IN {
            let v = io.input(IO_PORT);
            self.acc = v;
            self.pc = pc + 1;
            self.trap = None;
            return ProcessorContinue::KeepRunning;
        }
        let has_operand = op == OP_LOAD_IMM || op == OP_LOAD_MEM || op == OP_STORE_MEM || (op
            >= OP_ADD_IMM && op <= OP_DIV_MEM) || op == OP_JMP || op == OP_JZ || op == OP_JNZ || op
            == OP_JNEG;
        if !has_operand {
            self.trap = Some(TrapKind::InvalidOpcode { opcode: op });
            return ProcessorContinue::Error;
        }
        if pc as usize + 3 > MEM_SIZE {
            self.trap = Some(TrapKind::OutOfBounds { addr: pc });
            return ProcessorContinue::Error;
        }
        let w = read_word(&self.mem, pc as usize + 1);
        if op == OP_LOAD_IMM {
            self.acc = w;
            self.pc = pc + 3;
            self.trap = None;
            return ProcessorContinue::KeepRunning;
        }
        if op == OP_LOAD_MEM {
            if w as usize + 1 >= MEM_SIZE {
                self.trap = Some(TrapKind::OutOfBounds { addr: w });
                return ProcessorContinue::Error;
            }
            self.acc = read_word(&self.mem, w as usize);
            self.pc = pc + 3;
            self.trap = None;
            return ProcessorContinue::KeepRunning;
        }
        if op == OP_STORE_MEM {
            if w as usize + 1 >= MEM_SIZE {
                self.trap = Some(TrapKind::OutOfBounds { addr: w });
                return ProcessorContinue::Error;
            }
            write_word(&mut self.mem, w as usize, self.acc);
            self.pc = pc + 3;
            self.trap = None;
            return ProcessorContinue::KeepRunning;
        }
        if op == OP_ADD_IMM || op == OP_SUB_IMM || op == OP_MUL_IMM || op == OP_DIV_IMM {
            if op == OP_DIV_IMM && w == 0 {
                self.trap = Some(TrapKind::DivisionByZero);
                return ProcessorContinue::Error;
            }
            self.acc = if op == OP_ADD_IMM {
                add_words(self.acc, w)
            } else if op == OP_SUB_IMM {
                sub_words(self.acc, w)
            } else if op == OP_MUL_IMM {
                mul_words(self.acc, w)
            } else {
                div_words(self.acc, w)
            };
            self.pc = pc + 3;
            self.trap = None;
            return ProcessorContinue::KeepRunning;
        }
        if op == OP_ADD_MEM || op == OP_SUB_MEM || op == OP_MUL_MEM || op == OP_DIV_MEM {
            if w as usize + 1 >= MEM_SIZE {
                self.trap = Some(TrapKind::OutOfBounds { addr: w });
                return ProcessorContinue::Error;
            }
            let m = read_word(&self.mem, w as usize);
            if op == OP_DIV_MEM && m == 0 {
                self.trap = Some(TrapKind::DivisionByZero);
                return ProcessorContinue::Error;
            }
            self.acc = if op == OP_ADD_MEM {
                add_words(self.acc, m)
            } else if op == OP_SUB_MEM {
                sub_words(self.acc, m)
            } else if op == OP_MUL_MEM {
                mul_words(self.acc, m)
            } else {
                div_words(self.acc, m)
            };
            self.pc = pc + 3;
            self.trap = None;
            return ProcessorContinue::KeepRunning;
        }
        let taken = if op == OP_JMP {
            true
        } else if op == OP_JZ {
            self.acc == 0
        } else if op == OP_JNZ {
            self.acc != 0
        } else {
            self.acc >= 0x8000
        };
        if taken && w as usize >= MEM_SIZE {
            self.trap = Some(TrapKind::OutOfBounds { addr: w });
            return ProcessorContinue::Error;
        }
        self.pc = if taken {
            w
        } else {
            pc + 3
        };
        self.trap = None;
        ProcessorContinue::KeepRunning
    }
}


/// Single-step determinism: from one state, one instruction has one outcome.
/// An instruction that does not consult the input hook yields the same
/// result whatever the hook would have answered.
pub proof fn lemma_acc_step_deterministic(s: AccState, v1: u16, v2: u16)
    ensures
        acc_uses_input(s) && v1 == v2 ==> acc_step(s, v1) == acc_step(s, v2),
        !acc_uses_input(s) ==> acc_step(s, v1) == acc_step(s, v2),
{
}

/// Halt terminality: a step that reports `Halt` leaves the state exactly as
/// it was and emits nothing.
pub proof fn lemma_acc_halt_terminal(s: AccState, v: u16)
    ensures
        acc_step(s, v).status == ProcessorContinue::Halt ==> acc_step(s, v).state == s
            && acc_step(s, v).out is None,
{
}

/// Trap terminality: a step that reports `Error` records a trap kind and
/// leaves memory, accumulator and program counter exactly as they were,
/// emitting nothing.
pub proof fn lemma_acc_trap_records(s: AccState, v: u16)
    ensures
        acc_step(s, v).status == ProcessorContinue::Error ==> acc_step(s, v).state.mem == s.mem
            && acc_step(s, v).state.acc == s.acc && acc_step(s, v).state.pc == s.pc && acc_step(
            s,
            v,
        ).state.trap is Some && acc_step(s, v).out is None,
{
}


/// Determinism at the observable boundary: two steps taken from identical
/// snapshots that consume identical input produce identical states, outcomes
/// and output.
pub proof fn lemma_acc_observed_step_unique(
    pre: AccState,
    post1: AccState,
    post2: AccState,
    r1: ProcessorContinue,
    r2: ProcessorContinue,
    outs0: Seq<(u16, u16)>,
    outs1: Seq<(u16, u16)>,
    outs2: Seq<(u16, u16)>,
    ins0: Seq<u16>,
    ins1: Seq<u16>,
    ins2: Seq<u16>,
)
    requires
        acc_step_rel(pre, post1, r1, outs0, outs1, ins0, ins1),
        acc_step_rel(pre, post2, r2, outs0, outs2, ins0, ins2),
        ins1 == ins2,
    ensures
        post1 == post2,
        r1 == r2,
        outs1 == outs2,
{
}

} // verus!

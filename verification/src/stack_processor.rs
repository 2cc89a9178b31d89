//! The stack engine: an operand-stack architecture with no general-purpose
//! registers.  Most instructions pop their operands off the top of the stack
//! and push the result back.
//!
//! Encoding: one opcode byte, followed for `PUSH`, `JMP`, `JZ`, `JNZ` and
//! `CALL` by a little-endian 16-bit operand.  Documented choices: `CALL`
//! pushes the return address on the operand stack itself (there is no
//! separate return stack) and `RET` pops it; the operand stack holds at most
//! `STACK_CAPACITY` words and a push beyond that traps with `StackOverflow`;
//! `OUTPUT` pops and emits the top of stack, so values come out newest first
//! (LIFO); binary operators pop the right operand first, then the left.

use vstd::prelude::*;

use crate::common::{
    IoHandler, LoadError, ProcessorContinue, TrapKind, MEM_SIZE, add_words, div_words, hi_byte,
    lo_byte, mod_words, mul_words, read_word, sub_words, wadd, wdiv, wmod, wmul, word_of, wsub,
    write_word, zero_vec,
};
use crate::executable::{Executable, image_fits, load_memory, loaded_mem};

verus! {

pub const OP_PUSH: u8 = 0x01;

pub const OP_DROP: u8 = 0x02;

pub const OP_DUP: u8 = 0x03;

pub const OP_SWAP: u8 = 0x04;

pub const OP_ADD: u8 = 0x10;

pub const OP_SUB: u8 = 0x11;

pub const OP_MUL: u8 = 0x12;

pub const OP_DIV: u8 = 0x13;

pub const OP_MOD: u8 = 0x14;

pub const OP_LOAD: u8 = 0x20;

pub const OP_STORE: u8 = 0x21;

pub const OP_JMP: u8 = 0x30;

pub const OP_JZ: u8 = 0x31;

pub const OP_JNZ: u8 = 0x32;

pub const OP_CALL: u8 = 0x33;

pub const OP_RET: u8 = 0x34;

pub const OP_OUT: u8 = 0x40;

pub const OP_IN: u8 = 0x41;

pub const OP_HALT: u8 = 0xFF;

/// Fixed operand-stack capacity: growth beyond it traps, never silently.
pub const STACK_CAPACITY: usize = 256;

/// The single destination/source tag handed to the I/O hooks.
pub const IO_PORT: u16 = 0;

/// Byte-addressable memory, growable operand stack, program counter, and the
/// trap recorded by the last failing step.
pub struct StackProcessor {
    pub mem: Vec<u8>,
    pub stack: Vec<u16>,
    pub pc: u16,
    pub trap: Option<TrapKind>,
}

/// The mathematical state of a stack engine.
#[verifier::ext_equal]
pub struct StackState {
    pub mem: Seq<u8>,
    pub stack: Seq<u16>,
    pub pc: u16,
    pub trap: Option<TrapKind>,
}

impl View for StackProcessor {
    type V = StackState;

    open spec fn view(&self) -> StackState {
        StackState { mem: self.mem@, stack: self.stack@, pc: self.pc, trap: self.trap }
    }
}

pub open spec fn stack_wf(s: StackState) -> bool {
    s.mem.len() == MEM_SIZE && s.stack.len() <= STACK_CAPACITY
}

/// What one step yields: the next state, the outcome reported to the caller,
/// and the (port, value) pair emitted, if the instruction was an output.
#[verifier::ext_equal]
pub struct StackPost {
    pub state: StackState,
    pub status: ProcessorContinue,
    pub out: Option<(u16, u16)>,
}

pub open spec fn stack_trap_post(s: StackState, k: TrapKind) -> StackPost {
    StackPost {
        state: StackState { trap: Some(k), ..s },
        status: ProcessorContinue::Error,
        out: None,
    }
}

pub open spec fn stack_run_post(s: StackState, stack2: Seq<u16>, pc2: u16) -> StackPost {
    StackPost {
        state: StackState { mem: s.mem, stack: stack2, pc: pc2, trap: None },
        status: ProcessorContinue::KeepRunning,
        out: None,
    }
}

pub open spec fn is_stack_binop(op: u8) -> bool {
    op == OP_ADD || op == OP_SUB || op == OP_MUL || op == OP_DIV || op == OP_MOD
}

pub open spec fn stack_binop(op: u8, a: u16, b: u16) -> u16 {
    if op == OP_ADD {
        wadd(a, b)
    } else if op == OP_SUB {
        wsub(a, b)
    } else if op == OP_MUL {
        wmul(a, b)
    } else if op == OP_DIV {
        wdiv(a, b)
    } else {
        wmod(a, b)
    }
}

/// The step about to run will consume one word from the input hook: the
/// instruction is a fetchable `IN` and nothing traps before the hook is
/// consulted.
pub open spec fn stack_uses_input(s: StackState) -> bool {
    s.pc < MEM_SIZE && s.mem[s.pc as int] == OP_IN && s.stack.len() < STACK_CAPACITY
}

/// The transition function of the stack engine: the full effect of executing
/// one instruction from state `s`, where `v` is the word the input hook
/// returns (ignored unless the instruction is `IN`).  Traps leave memory,
/// stack and program counter exactly as they were and record the trap kind.
pub open spec fn stack_step(s: StackState, v: u16) -> StackPost {
    if s.pc >= MEM_SIZE {
        stack_trap_post(s, TrapKind::OutOfBounds { addr: s.pc })
    } else {
        let op = s.mem[s.pc as int];
        let n = s.stack.len() as int;
        if op == OP_PUSH {
            if s.pc + 3 > MEM_SIZE {
                stack_trap_post(s, TrapKind::OutOfBounds { addr: s.pc })
            } else if n >= STACK_CAPACITY {
                stack_trap_post(s, TrapKind::StackOverflow)
            } else {
                stack_run_post(s, s.stack.push(word_of(s.mem, s.pc + 1)), (s.pc + 3) as u16)
            }
        } else if op == OP_DROP {
            if n < 1 {
                stack_trap_post(s, TrapKind::StackUnderflow)
            } else {
                stack_run_post(s, s.stack.drop_last(), (s.pc + 1) as u16)
            }
        } else if op == OP_DUP {
            if n < 1 {
                stack_trap_post(s, TrapKind::StackUnderflow)
            } else if n >= STACK_CAPACITY {
                stack_trap_post(s, TrapKind::StackOverflow)
            } else {
                stack_run_post(s, s.stack.push(s.stack[n - 1]), (s.pc + 1) as u16)
            }
        } else if op == OP_SWAP {
            if n < 2 {
                stack_trap_post(s, TrapKind::StackUnderflow)
            } else {
                stack_run_post(
                    s,
                    s.stack.update(n - 1, s.stack[n - 2]).update(n - 2, s.stack[n - 1]),
                    (s.pc + 1) as u16,
                )
            }
        } else if is_stack_binop(op) {
            if n < 2 {
                stack_trap_post(s, TrapKind::StackUnderflow)
            } else {
                let a = s.stack[n - 2];
                let b = s.stack[n - 1];
                if (op == OP_DIV || op == OP_MOD) && b == 0 {
                    stack_trap_post(s, TrapKind::DivisionByZero)
                } else {
                    stack_run_post(
                        s,
                        s.stack.drop_last().drop_last().push(stack_binop(op, a, b)),
                        (s.pc + 1) as u16,
                    )
                }
            }
        } else if op == OP_LOAD {
            if n < 1 {
                stack_trap_post(s, TrapKind::StackUnderflow)
            } else {
                let a = s.stack[n - 1];
                if a + 1 >= MEM_SIZE {
                    stack_trap_post(s, TrapKind::OutOfBounds { addr: a })
                } else {
                    stack_run_post(
                        s,
                        s.stack.drop_last().push(word_of(s.mem, a as int)),
                        (s.pc + 1) as u16,
                    )
                }
            }
        } else if op == OP_STORE {
            if n < 2 {
                stack_trap_post(s, TrapKind::StackUnderflow)
            } else {
                let a = s.stack[n - 1];
                let w = s.stack[n - 2];
                if a + 1 >= MEM_SIZE {
                    stack_trap_post(s, TrapKind::OutOfBounds { addr: a })
                } else {
                    StackPost {
                        state: StackState {
                            mem: s.mem.update(a as int, lo_byte(w)).update(a + 1, hi_byte(w)),
                            stack: s.stack.drop_last().drop_last(),
                            pc: (s.pc + 1) as u16,
                            trap: None,
                        },
                        status: ProcessorContinue::KeepRunning,
                        out: None,
                    }
                }
            }
        } else if op == OP_JMP {
            if s.pc + 3 > MEM_SIZE {
                stack_trap_post(s, TrapKind::OutOfBounds { addr: s.pc })
            } else {
                let t = word_of(s.mem, s.pc + 1);
                if t >= MEM_SIZE {
                    stack_trap_post(s, TrapKind::OutOfBounds { addr: t })
                } else {
                    stack_run_post(s, s.stack, t)
                }
            }
        } else if op == OP_JZ || op == OP_JNZ {
            if s.pc + 3 > MEM_SIZE {
                stack_trap_post(s, TrapKind::OutOfBounds { addr: s.pc })
            } else if n < 1 {
                stack_trap_post(s, TrapKind::StackUnderflow)
            } else {
                let t = word_of(s.mem, s.pc + 1);
                let c = s.stack[n - 1];
                let taken = if op == OP_JZ {
                    c == 0
                } else {
                    c != 0
                };
                if taken && t >= MEM_SIZE {
                    stack_trap_post(s, TrapKind::OutOfBounds { addr: t })
                } else {
                    stack_run_post(
                        s,
                        s.stack.drop_last(),
                        if taken {
                            t
                        } else {
                            (s.pc + 3) as u16
                        },
                    )
                }
            }
        } else if op == OP_CALL {
            if s.pc + 3 > MEM_SIZE {
                stack_trap_post(s, TrapKind::OutOfBounds { addr: s.pc })
            } else if n >= STACK_CAPACITY {
                stack_trap_post(s, TrapKind::StackOverflow)
            } else {
                let t = word_of(s.mem, s.pc + 1);
                if t >= MEM_SIZE {
                    stack_trap_post(s, TrapKind::OutOfBounds { addr: t })
                } else {
                    stack_run_post(s, s.stack.push((s.pc + 3) as u16), t)
                }
            }
        } else if op == OP_RET {
            if n < 1 {
                stack_trap_post(s, TrapKind::StackUnderflow)
            } else {
                let t = s.stack[n - 1];
                if t >= MEM_SIZE {
                    stack_trap_post(s, TrapKind::OutOfBounds { addr: t })
                } else {
                    stack_run_post(s, s.stack.drop_last(), t)
                }
            }
        } else if op == OP_OUT {
            if n < 1 {
                stack_trap_post(s, TrapKind::StackUnderflow)
            } else {
                StackPost {
                    state: StackState {
                        mem: s.mem,
                        stack: s.stack.drop_last(),
                        pc: (s.pc + 1) as u16,
                        trap: None,
                    },
                    status: ProcessorContinue::KeepRunning,
                    out: Some((IO_PORT, s.stack[n - 1])),
                }
            }
        } else if op == OP_IN {
            if n >= STACK_CAPACITY {
                stack_trap_post(s, TrapKind::StackOverflow)
            } else {
                stack_run_post(s, s.stack.push(v), (s.pc + 1) as u16)
            }
        } else if op == OP_HALT {
            StackPost { state: s, status: ProcessorContinue::Halt, out: None }
        } else {
            stack_trap_post(s, TrapKind::InvalidOpcode { opcode: op })
        }
    }
}

/// One observed step agrees with the transition function: the new state and
/// outcome are `stack_step` of the old state and the consumed input word,
/// and the I/O logs grew by exactly what the instruction emitted or consumed.
pub open spec fn stack_step_rel(
    pre: StackState,
    post: StackState,
    r: ProcessorContinue,
    outs0: Seq<(u16, u16)>,
    outs1: Seq<(u16, u16)>,
    ins0: Seq<u16>,
    ins1: Seq<u16>,
) -> bool {
    let used = stack_uses_input(pre);
    let v: u16 = if used {
        ins1.last()
    } else {
        0u16
    };
    let p = stack_step(pre, v);
    &&& post == p.state
    &&& r == p.status
    &&& ins1 == (if used {
        ins0.push(v)
    } else {
        ins0
    })
    &&& outs1 == (match p.out {
        Some(o) => outs0.push(o),
        None => outs0,
    })
}

impl StackProcessor {
    /// A fresh engine: zeroed memory, empty stack, program counter 0.
    pub fn new() -> (r: StackProcessor)
        ensures
            r@.mem == Seq::new(MEM_SIZE as nat, |i: int| 0u8),
            r@.stack == Seq::<u16>::empty(),
            r@.pc == 0u16,
            r@.trap is None,
            stack_wf(r@),
    {
        StackProcessor { mem: zero_vec(MEM_SIZE), stack: Vec::new(), pc: 0, trap: None }
    }

    /// Copies the image's segments into a zeroed memory, points the program
    /// counter at the entry point and empties the stack; fails, leaving the
    /// engine untouched, exactly when the image does not fit the memory.
    pub fn load_executable(&mut self, exe: &Executable) -> (r: Result<(), LoadError>)
        ensures
            match r {
                Ok(_) => image_fits(exe@, MEM_SIZE as int) && final(self)@.mem == loaded_mem(
                    exe@,
                    MEM_SIZE as int,
                ) && final(self)@.stack == Seq::<u16>::empty() && final(self)@.pc
                    == exe@.entry_point && final(self)@.trap is None && stack_wf(final(self)@),
                Err(_) => !image_fits(exe@, MEM_SIZE as int) && final(self)@ == old(self)@,
            },
    {
        match load_memory(exe, MEM_SIZE) {
            Some(m) => {
                self.mem = m;
                self.stack = Vec::new();
                self.pc = exe.entry_point;
                self.trap = None;
                Ok(())
            },
            None => Err(LoadError),
        }
    }

    /// Executes exactly one instruction: fetch at the program counter,
    /// decode, execute, advance (or jump).  The outcome and the new state
    /// are exactly `stack_step` of the old state; `Halt` and `Error` are
    /// terminal and the caller must not step again.
    #[verifier::rlimit(60)]
    pub fn run_command<H: IoHandler>(&mut self, io: &mut H) -> (r: ProcessorContinue)
        requires
            stack_wf(old(self)@),
        ensures
            stack_wf(final(self)@),
            stack_step_rel(
                old(self)@,
                final(self)@,
                r,
                old(io).outs(),
                final(io).outs(),
                old(io).ins(),
                final(io).ins(),
            ),
    {
        let pc = self.pc;
        if pc as usize >= MEM_SIZE {
            self.trap = Some(TrapKind::OutOfBounds { addr: pc });
            return ProcessorContinue::Error;
        }
        let op = self.mem[pc as usize];
        if op == OP_PUSH {
            if pc as usize + 3 > MEM_SIZE {
                self.trap = Some(TrapKind::OutOfBounds { addr: pc });
                return ProcessorContinue::Error;
            }
            if self.stack.len() >= STACK_CAPACITY {
                self.trap = Some(TrapKind::StackOverflow);
                return ProcessorContinue::Error;
            }
            let w = read_word(&self.mem, pc as usize + 1);
            self.stack.push(w);
            self.pc = pc + 3;
            self.trap = None;
            return ProcessorContinue::KeepRunning;
        }
        if op == OP_DROP {
            if self.stack.len() < 1 {
                self.trap = Some(TrapKind::StackUnderflow);
                return ProcessorContinue::Error;
            }
            self.stack.pop();
            self.pc = pc + 1;
            self.trap = None;
            return ProcessorContinue::KeepRunning;
        }
        if op == OP_DUP {
            if self.stack.len() < 1 {
                self.trap = Some(TrapKind::StackUnderflow);
                return ProcessorContinue::Error;
            }
            if self.stack.len() >= STACK_CAPACITY {
                self.trap = Some(TrapKind::StackOverflow);
                return ProcessorContinue::Error;
            }
            let t = self.stack[self.stack.len() - 1];
            self.stack.push(t);
            self.pc = pc + 1;
            self.trap = None;
            return ProcessorContinue::KeepRunning;
        }
        if op == OP_SWAP {
            if self.stack.len() < 2 {
                self.trap = Some(TrapKind::StackUnderflow);
                return ProcessorContinue::Error;
            }
            let n = self.stack.len();
            let x = self.stack[n - 1];
            let y = self.stack[n - 2];
            self.stack.set(n - 1, y);
            self.stack.set(n - 2, x);
            self.pc = pc + 1;
            self.trap = None;
            return ProcessorContinue::KeepRunning;
        }
        if op == OP_ADD || op == OP_SUB || op == OP_MUL || op == OP_DIV || op == OP_MOD {
            if self.stack.len() < 2 {
                self.trap = Some(TrapKind::StackUnderflow);
                return ProcessorContinue::Error;
            }
            let n = self.stack.len();
            let b = self.stack[n - 1];
            let a = self.stack[n - 2];
            if (op == OP_DIV || op == OP_MOD) && b == 0 {
                self.trap = Some(TrapKind::DivisionByZero);
                return ProcessorContinue::Error;
            }
            let c = if op == OP_ADD {
                add_words(a, b)
            } else if op == OP_SUB {
                sub_words(a, b)
            } else if op == OP_MUL {
                mul_words(a, b)
            } else if op == OP_DIV {
                div_words(a, b)
            } else {
                mod_words(a, b)
            };
            self.stack.pop();
            self.stack.pop();
            self.stack.push(c);
            self.pc = pc + 1;
            self.trap = None;
            return ProcessorContinue::KeepRunning;
        }
        if op == OP_LOAD {
            if self.stack.len() < 1 {
                self.trap = Some(TrapKind::StackUnderflow);
                return ProcessorContinue::Error;
            }
            let a = self.stack[self.stack.len() - 1];
            if a as usize + 1 >= MEM_SIZE {
                self.trap = Some(TrapKind::OutOfBounds { addr: a });
                return ProcessorContinue::Error;
            }
            let w = read_word(&self.mem, a as usize);
            self.stack.pop();
            self.stack.push(w);
            self.pc = pc + 1;
            self.trap = None;
            return ProcessorContinue::KeepRunning;
        }
        if op == OP_STORE {
            if self.stack.len() < 2 {
                self.trap = Some(TrapKind::StackUnderflow);
                return ProcessorContinue::Error;
            }
            let n = self.stack.len();
            let a = self.stack[n - 1];
            let w = self.stack[n - 2];
            if a as usize + 1 >= MEM_SIZE {
                self.trap = Some(TrapKind::OutOfBounds { addr: a });
                return ProcessorContinue::Error;
            }
            write_word(&mut self.mem, a as usize, w);
            self.stack.pop();
            self.stack.pop();
            self.pc = pc + 1;
            self.trap = None;
            return ProcessorContinue::KeepRunning;
        }
        if op == OP_JMP {
            if pc as usize + 3 > MEM_SIZE {
                self.trap = Some(TrapKind::OutOfBounds { addr: pc });
                return ProcessorContinue::Error;
            }
            let t = read_word(&self.mem, pc as usize + 1);
            if t as usize >= MEM_SIZE {
                self.trap = Some(TrapKind::OutOfBounds { addr: t });
                return ProcessorContinue::Error;
            }
            self.pc = t;
            self.trap = None;
            return ProcessorContinue::KeepRunning;
        }
        if op == OP_JZ || op == OP_JNZ {
            if pc as usize + 3 > MEM_SIZE {
                self.trap = Some(TrapKind::OutOfBounds { addr: pc });
                return ProcessorContinue::Error;
            }
            if self.stack.len() < 1 {
                self.trap = Some(TrapKind::StackUnderflow);
                return ProcessorContinue::Error;
            }
            let t = read_word(&self.mem, pc as usize + 1);
            let c = self.stack[self.stack.len() - 1];
            let taken = if op == OP_JZ {
                c == 0
            } else {
                c != 0
            };
            if taken && t as usize >= MEM_SIZE {
                self.trap = Some(TrapKind::OutOfBounds { addr: t });
                return ProcessorContinue::Error;
            }
            self.stack.pop();
            self.pc = if taken {
                t
            } else {
                pc + 3
            };
            self.trap = None;
            return ProcessorContinue::KeepRunning;
        }
        if op == OP_CALL {
            if pc as usize + 3 > MEM_SIZE {
                self.trap = Some(TrapKind::OutOfBounds { addr: pc });
                return ProcessorContinue::Error;
            }
            if self.stack.len() >= STACK_CAPACITY {
                self.trap = Some(TrapKind::StackOverflow);
                return ProcessorContinue::Error;
            }
            let t = read_word(&self.mem, pc as usize + 1);
            if t as usize >= MEM_SIZE {
                self.trap = Some(TrapKind::OutOfBounds { addr: t });
                return ProcessorContinue::Error;
            }
            self.stack.push(pc + 3);
            self.pc = t;
            self.trap = None;
            return ProcessorContinue::KeepRunning;
        }
        if op == OP_RET {
            if self.stack.len() < 1 {
                self.trap = Some(TrapKind::StackUnderflow);
                return ProcessorContinue::Error;
            }
            let t = self.stack[self.stack.len() - 1];
            if t as usize >= MEM_SIZE {
                self.trap = Some(TrapKind::OutOfBounds { addr: t });
                return ProcessorContinue::Error;
            }
            self.stack.pop();
            self.pc = t;
            self.trap = None;
            return ProcessorContinue::KeepRunning;
        }
        if op == OP_OUT {
            if self.stack.len() < 1 {
                self.trap = Some(TrapKind::StackUnderflow);
                return ProcessorContinue::Error;
            }
            let v = self.stack[self.stack.len() - 1];
            self.stack.pop();
            self.pc = pc + 1;
            self.trap = None;
            io.output(IO_PORT, v);
            return ProcessorContinue::KeepRunning;
        }
        if op == OP_IN {
            if self.stack.len() >= STACK_CAPACITY {
                self.trap = Some(TrapKind::StackOverflow);
                return ProcessorContinue::Error;
            }
            let v = io.input(IO_PORT);
            self.stack.push(v);
            self.pc = pc + 1;
            self.trap = None;
            return ProcessorContinue::KeepRunning;
        }
        if op == OP_HALT {
            return ProcessorContinue::Halt;
        }
        self.trap = Some(TrapKind::InvalidOpcode { opcode: op });
        ProcessorContinue::Error
    }
}


/// Single-step determinism: from one state, one instruction has one outcome.
/// The transition function decides everything, and an instruction that does
/// not consult the input hook yields the same result whatever the hook would
/// have answered.
pub proof fn lemma_stack_step_deterministic(s: StackState, v1: u16, v2: u16)
    ensures
        stack_uses_input(s) && v1 == v2 ==> stack_step(s, v1) == stack_step(s, v2),
        !stack_uses_input(s) ==> stack_step(s, v1) == stack_step(s, v2),
{
}

/// Halt terminality: a step that reports `Halt` leaves memory, stack,
/// program counter and trap exactly as they were and emits nothing.
pub proof fn lemma_stack_halt_terminal(s: StackState, v: u16)
    ensures
        stack_step(s, v).status == ProcessorContinue::Halt ==> stack_step(s, v).state == s
            && stack_step(s, v).out is None,
{
}

/// Trap terminality: a step that reports `Error` records a trap kind and
/// leaves memory, stack and program counter exactly as they were, emitting
/// nothing.
pub proof fn lemma_stack_trap_records(s: StackState, v: u16)
    ensures
        stack_step(s, v).status == ProcessorContinue::Error ==> stack_step(s, v).state.mem
            == s.mem && stack_step(s, v).state.stack == s.stack && stack_step(s, v).state.pc
            == s.pc && stack_step(s, v).state.trap is Some && stack_step(s, v).out is None,
{
}

/// Stack balance: a binary-arithmetic instruction run on a stack holding
/// fewer than two words traps with `StackUnderflow` and touches nothing.
pub proof fn lemma_stack_binop_underflow(s: StackState, v: u16)
    requires
        s.pc < MEM_SIZE,
        is_stack_binop(s.mem[s.pc as int]),
        s.stack.len() < 2,
    ensures
        stack_step(s, v).status == ProcessorContinue::Error,
        stack_step(s, v).state.trap == Some(TrapKind::StackUnderflow),
        stack_step(s, v).state.mem == s.mem,
        stack_step(s, v).state.stack == s.stack,
{
}


/// Determinism at the observable boundary: two steps taken from identical
/// snapshots that consume identical input produce identical states, outcomes
/// and output.
pub proof fn lemma_stack_observed_step_unique(
    pre: StackState,
    post1: StackState,
    post2: StackState,
    r1: ProcessorContinue,
    r2: ProcessorContinue,
    outs0: Seq<(u16, u16)>,
    outs1: Seq<(u16, u16)>,
    outs2: Seq<(u16, u16)>,
    ins0: Seq<u16>,
    ins1: Seq<u16>,
    ins2: Seq<u16>,
)
    requires
        stack_step_rel(pre, post1, r1, outs0, outs1, ins0, ins1),
        stack_step_rel(pre, post2, r2, outs0, outs2, ins0, ins2),
        ins1 == ins2,
    ensures
        post1 == post2,
        r1 == r2,
        outs1 == outs2,
{
}

} // verus!

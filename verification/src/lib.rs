//! An instruction-set emulator suite: a shared executable-image loader and
//! four word-oriented CPU engines (stack machine, accumulator machine, RISC,
//! CISC), each able to load a binary image and execute it one instruction at
//! a time, reporting continue / halt / trap after every step.

pub mod cisc_processor;
pub mod common;
pub mod acc_processor;
pub mod executable;
pub mod risc_processor;
pub mod stack_processor;

//! End-to-end tests: image parsing and validation, loading, and concrete
//! programs run on each of the four engines against the documented
//! encodings.

use monistode_emulator::acc_processor::AccProcessor;
use monistode_emulator::cisc_processor::CiscProcessor;
use monistode_emulator::common::{ProcessorContinue, ScriptedIo, TrapKind};
use monistode_emulator::executable::Executable;
use monistode_emulator::risc_processor::RiscProcessor;
use monistode_emulator::stack_processor::StackProcessor;

/// Builds an image: entry point, then (kind, base, payload) segment records.
fn image(entry: u16, segs: &[(u8, u16, Vec<u8>)]) -> Vec<u8> {
    let mut b = vec![(entry & 0xFF) as u8, (entry >> 8) as u8, segs.len() as u8];
    for (kind, base, data) in segs {
        b.push(*kind);
        b.push((base & 0xFF) as u8);
        b.push((base >> 8) as u8);
        b.push((data.len() & 0xFF) as u8);
        b.push((data.len() >> 8) as u8);
        b.extend_from_slice(data);
    }
    b
}

fn code_image(program: Vec<u8>) -> Executable {
    Executable::parse(&image(0, &[(1, 0, program)])).expect("image must parse")
}

fn run_stack(p: &mut StackProcessor, io: &mut ScriptedIo) -> ProcessorContinue {
    for _ in 0..10_000 {
        match p.run_command(io) {
            ProcessorContinue::KeepRunning => {}
            r => return r,
        }
    }
    panic!("program did not terminate");
}

fn run_acc(p: &mut AccProcessor, io: &mut ScriptedIo) -> ProcessorContinue {
    for _ in 0..10_000 {
        match p.run_command(io) {
            ProcessorContinue::KeepRunning => {}
            r => return r,
        }
    }
    panic!("program did not terminate");
}

fn run_risc(p: &mut RiscProcessor, io: &mut ScriptedIo) -> ProcessorContinue {
    for _ in 0..10_000 {
        match p.run_command(io) {
            ProcessorContinue::KeepRunning => {}
            r => return r,
        }
    }
    panic!("program did not terminate");
}

fn run_cisc(p: &mut CiscProcessor, io: &mut ScriptedIo) -> ProcessorContinue {
    for _ in 0..10_000 {
        match p.run_command(io) {
            ProcessorContinue::KeepRunning => {}
            r => return r,
        }
    }
    panic!("program did not terminate");
}

// ---------- image parsing and validation ----------

#[test]
fn parse_valid_image_fields() {
    let bytes = image(3, &[(1, 0, vec![0xFF; 8]), (0, 0x100, vec![1, 2])]);
    let exe = Executable::parse(&bytes).expect("valid image");
    assert_eq!(exe.entry_point, 3);
    assert_eq!(exe.segments.len(), 2);
    assert!(exe.segments[0].is_code);
    assert_eq!(exe.segments[0].base, 0);
    assert_eq!(exe.segments[0].data, vec![0xFF; 8]);
    assert!(!exe.segments[1].is_code);
    assert_eq!(exe.segments[1].base, 0x100);
    assert_eq!(exe.segments[1].data, vec![1, 2]);
}

#[test]
fn parse_truncated_header() {
    assert!(Executable::parse(&vec![]).is_err());
    assert!(Executable::parse(&vec![0, 0]).is_err());
}

#[test]
fn parse_segment_longer_than_buffer() {
    // One segment declaring 100 bytes with only 2 present.
    let bytes = vec![0, 0, 1, 1, 0, 0, 100, 0, 0xAA, 0xBB];
    assert!(Executable::parse(&bytes).is_err());
}

#[test]
fn parse_trailing_bytes_rejected() {
    let mut bytes = image(0, &[(1, 0, vec![0xFF])]);
    bytes.push(0);
    assert!(Executable::parse(&bytes).is_err());
}

#[test]
fn parse_unknown_segment_kind() {
    let bytes = vec![0, 0, 1, 7, 0, 0, 1, 0, 0xFF];
    assert!(Executable::parse(&bytes).is_err());
}

#[test]
fn parse_overlapping_segments() {
    let bytes = image(0, &[(1, 0, vec![0xFF; 8]), (0, 4, vec![1, 2])]);
    assert!(Executable::parse(&bytes).is_err());
}

#[test]
fn parse_entry_outside_code() {
    // Entry lies in the data segment, not in any code segment.
    let bytes = image(0x100, &[(1, 0, vec![0xFF; 4]), (0, 0x100, vec![1, 2])]);
    assert!(Executable::parse(&bytes).is_err());
    // No segments at all: the entry point cannot lie in a code segment.
    assert!(Executable::parse(&image(0, &[])).is_err());
}

#[test]
fn parse_adjacent_segments_accepted() {
    let bytes = image(0, &[(1, 0, vec![0xFF; 4]), (0, 4, vec![1, 2])]);
    assert!(Executable::parse(&bytes).is_ok());
}

// ---------- loading ----------

#[test]
fn load_sets_pc_to_entry_point() {
    let bytes = image(5, &[(1, 0, vec![0xFF; 10])]);
    let exe = Executable::parse(&bytes).expect("valid image");
    let mut s = StackProcessor::new();
    assert!(s.load_executable(&exe).is_ok());
    assert_eq!(s.pc, 5);
    let mut a = AccProcessor::new();
    assert!(a.load_executable(&exe).is_ok());
    assert_eq!(a.pc, 5);
    let mut r = RiscProcessor::new();
    assert!(r.load_executable(&exe).is_ok());
    assert_eq!(r.pc, 5);
    let mut c = CiscProcessor::new();
    assert!(c.load_executable(&exe).is_ok());
    assert_eq!(c.pc, 5);
}

#[test]
fn load_copies_segment_bytes() {
    let bytes = image(0, &[(1, 0, vec![1, 2, 3]), (0, 0x80, vec![9])]);
    let exe = Executable::parse(&bytes).expect("valid image");
    let mut s = StackProcessor::new();
    assert!(s.load_executable(&exe).is_ok());
    assert_eq!(&s.mem[0..3], &[1, 2, 3]);
    assert_eq!(s.mem[0x80], 9);
    assert!(s.mem[3..0x80].iter().all(|&b| b == 0));
}

#[test]
fn scenario_d_entry_beyond_memory_fails_to_load() {
    // Declared entry point 0xFFFF lies past every engine's 4096-byte memory:
    // load must fail and no instruction may run.
    let bytes = image(0xFFFF, &[(1, 0xFFF0, vec![0xFF; 16])]);
    let exe = Executable::parse(&bytes).expect("structurally valid image");
    let mut s = StackProcessor::new();
    assert!(s.load_executable(&exe).is_err());
    assert_eq!(s.pc, 0);
    assert!(s.mem.iter().all(|&b| b == 0));
    assert!(s.trap.is_none());
    let mut a = AccProcessor::new();
    assert!(a.load_executable(&exe).is_err());
    assert_eq!(a.pc, 0);
    let mut r = RiscProcessor::new();
    assert!(r.load_executable(&exe).is_err());
    assert_eq!(r.pc, 0);
    let mut c = CiscProcessor::new();
    assert!(c.load_executable(&exe).is_err());
    assert_eq!(c.pc, 0);
}

#[test]
fn load_rejects_oversized_segment() {
    // A segment reaching past the end of memory does not fit.
    let bytes = image(0, &[(1, 0, vec![0xFF; 4]), (0, 4090, vec![0; 10])]);
    let exe = Executable::parse(&bytes).expect("valid image");
    let mut s = StackProcessor::new();
    assert!(s.load_executable(&exe).is_err());
}

// ---------- stack engine ----------

#[test]
fn scenario_a_stack_output_is_lifo() {
    // PUSH 72; PUSH 73; OUT; OUT; HALT — OUT pops, so 73 comes out first.
    let exe = code_image(vec![
        0x01, 72, 0, // PUSH 72
        0x01, 73, 0, // PUSH 73
        0x40, // OUT
        0x40, // OUT
        0xFF, // HALT
    ]);
    let mut p = StackProcessor::new();
    p.load_executable(&exe).unwrap();
    let mut io = ScriptedIo::new(vec![]);
    assert_eq!(run_stack(&mut p, &mut io), ProcessorContinue::Halt);
    assert_eq!(io.written, vec![(0, 73), (0, 72)]);
}

#[test]
fn stack_underflow_on_binary_arithmetic() {
    let exe = code_image(vec![0x10, 0xFF]); // ADD on an empty stack
    let mut p = StackProcessor::new();
    p.load_executable(&exe).unwrap();
    let mut io = ScriptedIo::new(vec![]);
    assert_eq!(p.run_command(&mut io), ProcessorContinue::Error);
    assert_eq!(p.trap, Some(TrapKind::StackUnderflow));
    assert!(io.written.is_empty());
}

#[test]
fn stack_division_by_zero() {
    let exe = code_image(vec![
        0x01, 5, 0, // PUSH 5
        0x01, 0, 0, // PUSH 0
        0x13, // DIV
        0xFF,
    ]);
    let mut p = StackProcessor::new();
    p.load_executable(&exe).unwrap();
    let mut io = ScriptedIo::new(vec![]);
    assert_eq!(run_stack(&mut p, &mut io), ProcessorContinue::Error);
    assert_eq!(p.trap, Some(TrapKind::DivisionByZero));
}

#[test]
fn stack_arithmetic_wraps() {
    let exe = code_image(vec![
        0x01, 0xFF, 0xFF, // PUSH 0xFFFF
        0x01, 2, 0, // PUSH 2
        0x10, // ADD -> 1 (mod 2^16)
        0x40, // OUT
        0xFF,
    ]);
    let mut p = StackProcessor::new();
    p.load_executable(&exe).unwrap();
    let mut io = ScriptedIo::new(vec![]);
    assert_eq!(run_stack(&mut p, &mut io), ProcessorContinue::Halt);
    assert_eq!(io.written, vec![(0, 1)]);
}

#[test]
fn stack_call_and_ret_share_operand_stack() {
    let exe = code_image(vec![
        0x01, 65, 0, // 0: PUSH 65
        0x33, 10, 0, // 3: CALL 10 (pushes return address 6)
        0x40, // 6: OUT
        0xFF, // 7: HALT
        0, 0, // padding
        0x34, // 10: RET (pops 6)
    ]);
    let mut p = StackProcessor::new();
    p.load_executable(&exe).unwrap();
    let mut io = ScriptedIo::new(vec![]);
    assert_eq!(run_stack(&mut p, &mut io), ProcessorContinue::Halt);
    assert_eq!(io.written, vec![(0, 65)]);
}

#[test]
fn stack_conditional_jump_taken_on_zero() {
    let exe = code_image(vec![
        0x01, 0, 0, // 0: PUSH 0
        0x31, 10, 0, // 3: JZ 10 (pops 0 -> taken)
        0x01, 99, 0, // 6: PUSH 99 (skipped)
        0xFF, // 9: HALT
        0x01, 7, 0, // 10: PUSH 7
        0x40, // 13: OUT
        0xFF, // 14: HALT
    ]);
    let mut p = StackProcessor::new();
    p.load_executable(&exe).unwrap();
    let mut io = ScriptedIo::new(vec![]);
    assert_eq!(run_stack(&mut p, &mut io), ProcessorContinue::Halt);
    assert_eq!(io.written, vec![(0, 7)]);
}

#[test]
fn stack_input_pushes_scripted_word() {
    let exe = code_image(vec![0x41, 0x40, 0xFF]); // IN; OUT; HALT
    let mut p = StackProcessor::new();
    p.load_executable(&exe).unwrap();
    let mut io = ScriptedIo::new(vec![65]);
    assert_eq!(run_stack(&mut p, &mut io), ProcessorContinue::Halt);
    assert_eq!(io.written, vec![(0, 65)]);
    assert_eq!(io.consumed, vec![65]);
}

#[test]
fn stack_input_exhausted_script_reads_zero() {
    let exe = code_image(vec![0x41, 0x40, 0xFF]);
    let mut p = StackProcessor::new();
    p.load_executable(&exe).unwrap();
    let mut io = ScriptedIo::new(vec![]);
    assert_eq!(run_stack(&mut p, &mut io), ProcessorContinue::Halt);
    assert_eq!(io.written, vec![(0, 0)]);
}

#[test]
fn stack_overflow_traps() {
    // 257 pushes overflow the 256-word operand stack.
    let mut program = Vec::new();
    for _ in 0..257 {
        program.extend_from_slice(&[0x01, 1, 0]);
    }
    program.push(0xFF);
    let exe = code_image(program);
    let mut p = StackProcessor::new();
    p.load_executable(&exe).unwrap();
    let mut io = ScriptedIo::new(vec![]);
    assert_eq!(run_stack(&mut p, &mut io), ProcessorContinue::Error);
    assert_eq!(p.trap, Some(TrapKind::StackOverflow));
    assert_eq!(p.stack.len(), 256);
}

#[test]
fn stack_invalid_opcode() {
    let exe = code_image(vec![0x77]);
    let mut p = StackProcessor::new();
    p.load_executable(&exe).unwrap();
    let mut io = ScriptedIo::new(vec![]);
    assert_eq!(p.run_command(&mut io), ProcessorContinue::Error);
    assert_eq!(p.trap, Some(TrapKind::InvalidOpcode { opcode: 0x77 }));
}

#[test]
fn stack_jump_target_out_of_bounds() {
    let exe = code_image(vec![0x30, 0x00, 0x10]); // JMP 0x1000, past 4096-byte memory
    let mut p = StackProcessor::new();
    p.load_executable(&exe).unwrap();
    let mut io = ScriptedIo::new(vec![]);
    assert_eq!(p.run_command(&mut io), ProcessorContinue::Error);
    assert_eq!(p.trap, Some(TrapKind::OutOfBounds { addr: 0x1000 }));
}

#[test]
fn stack_halt_preserves_state() {
    let exe = code_image(vec![0x01, 5, 0, 0xFF]); // PUSH 5; HALT
    let mut p = StackProcessor::new();
    p.load_executable(&exe).unwrap();
    let mut io = ScriptedIo::new(vec![]);
    assert_eq!(p.run_command(&mut io), ProcessorContinue::KeepRunning);
    let pc_before = p.pc;
    let stack_before = p.stack.clone();
    let mem_before = p.mem.clone();
    assert_eq!(p.run_command(&mut io), ProcessorContinue::Halt);
    assert_eq!(p.pc, pc_before);
    assert_eq!(p.stack, stack_before);
    assert_eq!(p.mem, mem_before);
    assert!(p.trap.is_none());
}

#[test]
fn stack_steps_are_deterministic() {
    let exe = code_image(vec![
        0x41, // IN
        0x01, 3, 0, // PUSH 3
        0x12, // MUL
        0x40, // OUT
        0xFF,
    ]);
    let mut p1 = StackProcessor::new();
    p1.load_executable(&exe).unwrap();
    let mut io1 = ScriptedIo::new(vec![21]);
    let mut p2 = StackProcessor::new();
    p2.load_executable(&exe).unwrap();
    let mut io2 = ScriptedIo::new(vec![21]);
    loop {
        let r1 = p1.run_command(&mut io1);
        let r2 = p2.run_command(&mut io2);
        assert_eq!(r1, r2);
        assert_eq!(p1.pc, p2.pc);
        assert_eq!(p1.stack, p2.stack);
        assert_eq!(p1.mem, p2.mem);
        assert_eq!(io1.written, io2.written);
        if r1 != ProcessorContinue::KeepRunning {
            break;
        }
    }
    assert_eq!(io1.written, vec![(0, 63)]);
}

// ---------- accumulator engine ----------

#[test]
fn scenario_b_accumulator_sum() {
    // LOAD_IMM 5; ADD_IMM 3; OUT; HALT — exactly one output call with 8.
    let exe = code_image(vec![0x01, 5, 0, 0x10, 3, 0, 0x40, 0xFF]);
    let mut p = AccProcessor::new();
    p.load_executable(&exe).unwrap();
    let mut io = ScriptedIo::new(vec![]);
    assert_eq!(run_acc(&mut p, &mut io), ProcessorContinue::Halt);
    assert_eq!(io.written, vec![(0, 8)]);
}

#[test]
fn acc_store_and_add_from_memory() {
    let exe = code_image(vec![
        0x01, 0x34, 0x12, // LOAD_IMM 0x1234
        0x03, 0x00, 0x02, // STORE 0x200
        0x01, 0, 0, // LOAD_IMM 0
        0x11, 0x00, 0x02, // ADD_MEM 0x200
        0x40, // OUT
        0xFF,
    ]);
    let mut p = AccProcessor::new();
    p.load_executable(&exe).unwrap();
    let mut io = ScriptedIo::new(vec![]);
    assert_eq!(run_acc(&mut p, &mut io), ProcessorContinue::Halt);
    assert_eq!(io.written, vec![(0, 0x1234)]);
    assert_eq!(p.mem[0x200], 0x34);
    assert_eq!(p.mem[0x201], 0x12);
}

#[test]
fn acc_division_by_zero() {
    let exe = code_image(vec![0x16, 0, 0, 0xFF]); // DIV_IMM 0
    let mut p = AccProcessor::new();
    p.load_executable(&exe).unwrap();
    let mut io = ScriptedIo::new(vec![]);
    assert_eq!(p.run_command(&mut io), ProcessorContinue::Error);
    assert_eq!(p.trap, Some(TrapKind::DivisionByZero));
}

#[test]
fn acc_branch_on_negative() {
    let exe = code_image(vec![
        0x01, 0x00, 0x80, // 0: LOAD_IMM 0x8000 (negative: top bit set)
        0x33, 10, 0, // 3: JNEG 10 (taken)
        0x40, // 6: OUT (skipped)
        0xFF, // 7: HALT
        0, 0, // padding
        0x01, 1, 0, // 10: LOAD_IMM 1
        0x40, // 13: OUT
        0xFF, // 14: HALT
    ]);
    let mut p = AccProcessor::new();
    p.load_executable(&exe).unwrap();
    let mut io = ScriptedIo::new(vec![]);
    assert_eq!(run_acc(&mut p, &mut io), ProcessorContinue::Halt);
    assert_eq!(io.written, vec![(0, 1)]);
}

#[test]
fn acc_input_goes_to_accumulator() {
    let exe = code_image(vec![0x41, 0x40, 0xFF]); // IN; OUT; HALT
    let mut p = AccProcessor::new();
    p.load_executable(&exe).unwrap();
    let mut io = ScriptedIo::new(vec![77]);
    assert_eq!(run_acc(&mut p, &mut io), ProcessorContinue::Halt);
    assert_eq!(io.written, vec![(0, 77)]);
}

#[test]
fn acc_invalid_opcode() {
    let exe = code_image(vec![0x99]);
    let mut p = AccProcessor::new();
    p.load_executable(&exe).unwrap();
    let mut io = ScriptedIo::new(vec![]);
    assert_eq!(p.run_command(&mut io), ProcessorContinue::Error);
    assert_eq!(p.trap, Some(TrapKind::InvalidOpcode { opcode: 0x99 }));
}

// ---------- RISC engine ----------

#[test]
fn scenario_c_risc_load_add_store() {
    // LOAD R1,[256]; ADD R2,R1,R1; STORE [257],R2; HALT with word 10 at 256.
    let program = vec![
        0x02, 1, 0x00, 0x01, // LD R1, [0x100]
        0x10, 2, 1, 1, // ADD R2, R1, R1
        0x03, 2, 0x01, 0x01, // ST [0x101], R2
        0xFF, 0, 0, 0, // HALT
    ];
    let bytes = image(0, &[(1, 0, program), (0, 0x100, vec![10, 0])]);
    let exe = Executable::parse(&bytes).expect("valid image");
    let mut p = RiscProcessor::new();
    p.load_executable(&exe).unwrap();
    let mut io = ScriptedIo::new(vec![]);
    assert_eq!(run_risc(&mut p, &mut io), ProcessorContinue::Halt);
    assert!(p.trap.is_none());
    let word = p.mem[0x101] as u16 + 256 * p.mem[0x102] as u16;
    assert_eq!(word, 20);
    assert_eq!(p.regs[2], 20);
}

#[test]
fn risc_zero_register_ignores_writes() {
    let exe = code_image(vec![
        0x01, 0, 5, 0, // LI R0, 5 (dropped)
        0x40, 0, 0, 0, // OUT R0
        0xFF, 0, 0, 0,
    ]);
    let mut p = RiscProcessor::new();
    p.load_executable(&exe).unwrap();
    let mut io = ScriptedIo::new(vec![]);
    assert_eq!(run_risc(&mut p, &mut io), ProcessorContinue::Halt);
    assert_eq!(io.written, vec![(0, 0)]);
    assert_eq!(p.regs[0], 0);
}

#[test]
fn risc_branch_on_equal_registers() {
    let exe = code_image(vec![
        0x01, 1, 5, 0, // 0: LI R1, 5
        0x01, 2, 5, 0, // 4: LI R2, 5
        0x31, 0x12, 16, 0, // 8: BEQ R1, R2, 16 (taken)
        0x40, 1, 0, 0, // 12: OUT R1 (skipped)
        0x01, 3, 7, 0, // 16: LI R3, 7
        0x40, 3, 0, 0, // 20: OUT R3
        0xFF, 0, 0, 0, // 24: HALT
    ]);
    let mut p = RiscProcessor::new();
    p.load_executable(&exe).unwrap();
    let mut io = ScriptedIo::new(vec![]);
    assert_eq!(run_risc(&mut p, &mut io), ProcessorContinue::Halt);
    assert_eq!(io.written, vec![(0, 7)]);
}

#[test]
fn risc_register_index_out_of_range() {
    let exe = code_image(vec![0x10, 1, 1, 9, 0xFF, 0, 0, 0]); // ADD R1, R1, R9
    let mut p = RiscProcessor::new();
    p.load_executable(&exe).unwrap();
    let mut io = ScriptedIo::new(vec![]);
    assert_eq!(p.run_command(&mut io), ProcessorContinue::Error);
    assert_eq!(p.trap, Some(TrapKind::OutOfBounds { addr: 9 }));
}

#[test]
fn risc_division_by_zero_register() {
    let exe = code_image(vec![
        0x01, 1, 9, 0, // LI R1, 9
        0x13, 2, 1, 0, // DIV R2, R1, R0 (R0 holds 0)
        0xFF, 0, 0, 0,
    ]);
    let mut p = RiscProcessor::new();
    p.load_executable(&exe).unwrap();
    let mut io = ScriptedIo::new(vec![]);
    assert_eq!(run_risc(&mut p, &mut io), ProcessorContinue::Error);
    assert_eq!(p.trap, Some(TrapKind::DivisionByZero));
}

#[test]
fn risc_input_and_output_through_registers() {
    let exe = code_image(vec![
        0x41, 4, 0, 0, // IN R4
        0x40, 4, 0, 0, // OUT R4
        0xFF, 0, 0, 0,
    ]);
    let mut p = RiscProcessor::new();
    p.load_executable(&exe).unwrap();
    let mut io = ScriptedIo::new(vec![1234]);
    assert_eq!(run_risc(&mut p, &mut io), ProcessorContinue::Halt);
    assert_eq!(io.written, vec![(0, 1234)]);
}

#[test]
fn risc_truncated_instruction_traps() {
    // Entry at 4094: fewer than four bytes remain below the 4096 limit.
    let bytes = image(4094, &[(1, 4094, vec![0xFF, 0])]);
    let exe = Executable::parse(&bytes).expect("valid image");
    let mut p = RiscProcessor::new();
    p.load_executable(&exe).unwrap();
    let mut io = ScriptedIo::new(vec![]);
    assert_eq!(p.run_command(&mut io), ProcessorContinue::Error);
    assert_eq!(p.trap, Some(TrapKind::OutOfBounds { addr: 4094 }));
}

// ---------- CISC engine ----------

#[test]
fn cisc_indirect_arithmetic_reads_and_writes_memory() {
    // R0 holds 0x100; ADD through memory-indirect must touch address 0x100,
    // not the register's own storage.
    let program = vec![
        0x01, 0x00, 0, 0x01, 0x00, 0x01, // 0: MOV reg0, imm 0x100
        0x10, 0x03, 0, 0x01, 5, 0, // 6: ADD [reg0], imm 5
        0x40, 0x02, 0x00, 0x01, // 12: OUT [0x100]
        0xFF, // 16: HALT
    ];
    let bytes = image(0, &[(1, 0, program), (0, 0x100, vec![7, 0])]);
    let exe = Executable::parse(&bytes).expect("valid image");
    let mut p = CiscProcessor::new();
    p.load_executable(&exe).unwrap();
    let mut io = ScriptedIo::new(vec![]);
    assert_eq!(run_cisc(&mut p, &mut io), ProcessorContinue::Halt);
    let word = p.mem[0x100] as u16 + 256 * p.mem[0x101] as u16;
    assert_eq!(word, 12);
    assert_eq!(io.written, vec![(0, 12)]);
    assert_eq!(p.regs[0], 0x100); // the register itself is untouched
}

#[test]
fn cisc_compare_sets_flags_and_je_consults_them() {
    let exe = code_image(vec![
        0x01, 0x00, 0, 0x01, 3, 0, // 0: MOV reg0, imm 3
        0x20, 0x00, 0, 0x01, 3, 0, // 6: CMP reg0, imm 3 (equal)
        0x31, 20, 0, // 12: JE 20 (taken)
        0x40, 0x01, 1, 0, // 15: OUT imm 1 (skipped)
        0xFF, // 19: HALT
        0x40, 0x01, 2, 0, // 20: OUT imm 2
        0xFF, // 24: HALT
    ]);
    let mut p = CiscProcessor::new();
    p.load_executable(&exe).unwrap();
    let mut io = ScriptedIo::new(vec![]);
    assert_eq!(run_cisc(&mut p, &mut io), ProcessorContinue::Halt);
    assert_eq!(io.written, vec![(0, 2)]);
    assert!(p.zero);
}

#[test]
fn cisc_compare_below_sets_negative_flag() {
    let exe = code_image(vec![
        0x20, 0x01, 2, 0, 0x01, 3, 0, // 0: CMP imm 2, imm 3 (below)
        0x33, 14, 0, // 7: JL 14 (taken)
        0xFF, 0, 0, 0, // 10: HALT (skipped)
        0x40, 0x01, 9, 0, // 14: OUT imm 9
        0xFF, // 18: HALT
    ]);
    let mut p = CiscProcessor::new();
    p.load_executable(&exe).unwrap();
    let mut io = ScriptedIo::new(vec![]);
    assert_eq!(run_cisc(&mut p, &mut io), ProcessorContinue::Halt);
    assert_eq!(io.written, vec![(0, 9)]);
    assert!(p.neg);
}

#[test]
fn cisc_mov_between_register_and_memory() {
    let exe = code_image(vec![
        0x01, 0x00, 1, 0x01, 0x21, 0x43, // 0: MOV reg1, imm 0x4321
        0x01, 0x02, 0x00, 0x02, 0x00, 1, // 6: MOV [0x200], reg1
        0x40, 0x02, 0x00, 0x02, // 12: OUT [0x200]
        0xFF, // 16: HALT
    ]);
    let mut p = CiscProcessor::new();
    p.load_executable(&exe).unwrap();
    let mut io = ScriptedIo::new(vec![]);
    assert_eq!(run_cisc(&mut p, &mut io), ProcessorContinue::Halt);
    assert_eq!(io.written, vec![(0, 0x4321)]);
    assert_eq!(p.regs[1], 0x4321);
}

#[test]
fn cisc_immediate_destination_is_invalid() {
    let exe = code_image(vec![0x10, 0x01, 0, 0, 0xFF]); // ADD with immediate destination
    let mut p = CiscProcessor::new();
    p.load_executable(&exe).unwrap();
    let mut io = ScriptedIo::new(vec![]);
    assert_eq!(p.run_command(&mut io), ProcessorContinue::Error);
    assert_eq!(p.trap, Some(TrapKind::InvalidOpcode { opcode: 0x01 }));
}

#[test]
fn cisc_division_by_zero() {
    let exe = code_image(vec![
        0x01, 0x00, 0, 0x01, 8, 0, // MOV reg0, imm 8
        0x13, 0x00, 0, 0x01, 0, 0, // DIV reg0, imm 0
        0xFF,
    ]);
    let mut p = CiscProcessor::new();
    p.load_executable(&exe).unwrap();
    let mut io = ScriptedIo::new(vec![]);
    assert_eq!(run_cisc(&mut p, &mut io), ProcessorContinue::Error);
    assert_eq!(p.trap, Some(TrapKind::DivisionByZero));
}

#[test]
fn cisc_input_to_any_destination() {
    let exe = code_image(vec![
        0x41, 0x02, 0x00, 0x02, // IN [0x200]
        0x40, 0x02, 0x00, 0x02, // OUT [0x200]
        0xFF,
    ]);
    let mut p = CiscProcessor::new();
    p.load_executable(&exe).unwrap();
    let mut io = ScriptedIo::new(vec![0x4142]);
    assert_eq!(run_cisc(&mut p, &mut io), ProcessorContinue::Halt);
    assert_eq!(io.written, vec![(0, 0x4142)]);
    assert_eq!(p.mem[0x200], 0x42);
    assert_eq!(p.mem[0x201], 0x41);
}

#[test]
fn cisc_invalid_opcode() {
    let exe = code_image(vec![0x66]);
    let mut p = CiscProcessor::new();
    p.load_executable(&exe).unwrap();
    let mut io = ScriptedIo::new(vec![]);
    assert_eq!(p.run_command(&mut io), ProcessorContinue::Error);
    assert_eq!(p.trap, Some(TrapKind::InvalidOpcode { opcode: 0x66 }));
}

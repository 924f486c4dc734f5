use riscv_asm::{
    decode_asm_line, imm_string_to_i32, set_imm, set_mem, set_mem_parts, set_reg, AsmError,
    InstructionType, RegFunc,
};

#[test]
fn test_imm_string_to_i32() {
    let imm_string = "200";
    assert_eq!(imm_string_to_i32(imm_string).unwrap(), 200);
    let imm_string = "0200";
    assert_eq!(imm_string_to_i32(imm_string).unwrap(), 200);
    let imm_string = "0d200";
    assert_eq!(imm_string_to_i32(imm_string).unwrap(), 200);
    let imm_string = "$0c8";
    assert_eq!(imm_string_to_i32(imm_string).unwrap(), 0xc8);
    let imm_string = "0xc8";
    assert_eq!(imm_string_to_i32(imm_string).unwrap(), 0xc8);
    let imm_string = "0hc8";
    assert_eq!(imm_string_to_i32(imm_string).unwrap(), 0xc8);
    let imm_string = "0o310";
    assert_eq!(imm_string_to_i32(imm_string).unwrap(), 0o310);
    let imm_string = "0q310";
    assert_eq!(imm_string_to_i32(imm_string).unwrap(), 0o310);
    let imm_string = "0b11001000";
    assert_eq!(imm_string_to_i32(imm_string).unwrap(), 0b11001000);
    let imm_string = "0y11001000";
    assert_eq!(imm_string_to_i32(imm_string).unwrap(), 0b11001000);
}

#[test]
fn test_op_imm() {
    let asm_line = "addi t2 t1 -3";
    let expected_result: u32 = 0b111111111101_00110_000_00111_0010011;
    assert_eq!(decode_asm_line(asm_line).unwrap(), expected_result);
}

#[test]
fn test_u_inst() {
    let asm_line = "lui t2 -3";
    let expected_result: u32 = 0b11111111111111111111_00111_0110111;
    assert_eq!(decode_asm_line(asm_line).unwrap(), expected_result);
}

#[test]
fn test_op() {
    let asm_line = "add t2 t1 t0";
    let expected_result: u32 = 0b0000000_00101_00110_000_00111_0110011;
    assert_eq!(decode_asm_line(asm_line).unwrap(), expected_result);
}

#[test]
fn test_jal() {
    let asm_line = "jal t2 -3";
    let expected_result: u32 = 0b1_1111111110_1_11111111_00111_1101111;
    assert_eq!(decode_asm_line(asm_line).unwrap(), expected_result);
}

#[test]
fn test_jalr() {
    let asm_line = "jalr t2 t1 -3";
    let expected_result: u32 = 0b111111111101_00110_000_00111_1100111;
    assert_eq!(decode_asm_line(asm_line).unwrap(), expected_result);
}

#[test]
fn test_b_inst() {
    let asm_line = "beq t2 t1 -3";
    let expected_result: u32 = 0b1_111111_00110_00111_000_1110_1_1100011;
    assert_eq!(decode_asm_line(asm_line).unwrap(), expected_result);
}

#[test]
fn test_load() {
    let asm_line = "lw t2 -3(t1)";
    let expected_result: u32 = 0b111111111101_00110_010_00111_0000011;
    assert_eq!(decode_asm_line(asm_line).unwrap(), expected_result);
}

#[test]
fn test_store() {
    let asm_line = "sw t2 -3(t1)";
    let expected_result: u32 = 0b1111111_00111_00110_010_11101_0100011;
    assert_eq!(decode_asm_line(asm_line).unwrap(), expected_result);
}

fn word(asm_line: &str) -> u32 {
    decode_asm_line(asm_line).unwrap()
}

fn error(asm_line: &str) -> AsmError {
    decode_asm_line(asm_line).unwrap_err()
}

#[test]
fn fp_and_s0_are_the_same_register() {
    assert_eq!(word("add fp fp fp"), word("add s0 s0 s0"));
    assert_eq!(word("addi fp sp 16"), word("addi s0 sp 16"));
    assert_eq!(word("lw a0 -4(fp)"), word("lw a0 -4(s0)"));
    assert_eq!(word("sw fp 8(sp)"), word("sw s0 8(sp)"));
    assert_eq!(word("add fp zero zero"), 0b0000000_00000_00000_000_01000_0110011);
}

#[test]
fn every_register_has_its_number() {
    let names = [
        "zero", "ra", "sp", "gp", "tp", "t0", "t1", "t2", "s0", "s1", "a0", "a1", "a2", "a3",
        "a4", "a5", "a6", "a7", "s2", "s3", "s4", "s5", "s6", "s7", "s8", "s9", "s10", "s11",
        "t3", "t4", "t5", "t6",
    ];
    for (number, name) in names.iter().enumerate() {
        let number = number as u32;
        let expected = 0b0110011 | (number << 7) | (number << 15) | (number << 20);
        assert_eq!(word(&format!("add {} {} {}", name, name, name)), expected);
    }
}

#[test]
fn r_type_fixed_bits() {
    assert_eq!(word("add zero zero zero"), 0x0000_0033);
    assert_eq!(word("sub zero zero zero"), 0x4000_0033);
    assert_eq!(word("sll zero zero zero"), 0x0000_1033);
    assert_eq!(word("slt zero zero zero"), 0x0000_2033);
    assert_eq!(word("sltu zero zero zero"), 0x0000_3033);
    assert_eq!(word("xor zero zero zero"), 0x0000_4033);
    assert_eq!(word("srl zero zero zero"), 0x0000_5033);
    assert_eq!(word("sra zero zero zero"), 0x4000_5033);
    assert_eq!(word("or zero zero zero"), 0x0000_6033);
    assert_eq!(word("and zero zero zero"), 0x0000_7033);
}

#[test]
fn i_type_fixed_bits() {
    assert_eq!(word("addi zero zero 0"), 0x0000_0013);
    assert_eq!(word("slti zero zero 0"), 0x0000_2013);
    assert_eq!(word("sltiu zero zero 0"), 0x0000_3013);
    assert_eq!(word("xori zero zero 0"), 0x0000_4013);
    assert_eq!(word("ori zero zero 0"), 0x0000_6013);
    assert_eq!(word("andi zero zero 0"), 0x0000_7013);
    assert_eq!(word("jalr zero zero 0"), 0x0000_0067);
    assert_eq!(word("lb zero 0(zero)"), 0x0000_0003);
    assert_eq!(word("lh zero 0(zero)"), 0x0000_1003);
    assert_eq!(word("lw zero 0(zero)"), 0x0000_2003);
    assert_eq!(word("lbu zero 0(zero)"), 0x0000_4003);
    assert_eq!(word("lhu zero 0(zero)"), 0x0000_5003);
}

#[test]
fn s_b_u_j_type_fixed_bits() {
    assert_eq!(word("sb zero 0(zero)"), 0x0000_0023);
    assert_eq!(word("sh zero 0(zero)"), 0x0000_1023);
    assert_eq!(word("sw zero 0(zero)"), 0x0000_2023);
    assert_eq!(word("beq zero zero 0"), 0x0000_0063);
    assert_eq!(word("bne zero zero 0"), 0x0000_1063);
    assert_eq!(word("blt zero zero 0"), 0x0000_4063);
    assert_eq!(word("bge zero zero 0"), 0x0000_5063);
    assert_eq!(word("bltu zero zero 0"), 0x0000_6063);
    assert_eq!(word("bgeu zero zero 0"), 0x0000_7063);
    assert_eq!(word("lui zero 0"), 0x0000_0037);
    assert_eq!(word("auipc zero 0"), 0x0000_0017);
    assert_eq!(word("jal zero 0"), 0x0000_006f);
}

#[test]
fn operand_fields_by_type() {
    assert_eq!(word("sub a0 a1 a2"), 0x40c5_8533);
    assert_eq!(word("addi a0 a1 2047"), 0x7ff5_8513);
    assert_eq!(word("addi a0 a1 -2048"), 0x8005_8513);
    assert_eq!(word("lw a0 8(sp)"), 0x0081_2503);
    assert_eq!(word("sw a0 8(sp)"), 0x00a1_2423);
    assert_eq!(word("beq a0 a1 16"), 0x00b5_0863);
    assert_eq!(word("bne a0 a1 -4"), 0xfeb5_1ee3);
    assert_eq!(word("lui a0 0x12345000"), 0x1234_5537);
    assert_eq!(word("auipc a0 4096"), 0x0000_1517);
    assert_eq!(word("jal ra 2048"), 0x0010_00ef);
    assert_eq!(word("jal ra 0x100000"), 0x8000_00ef);
    assert_eq!(word("jalr zero ra 0"), 0x0000_8067);
}

#[test]
fn immediate_is_cut_to_its_field() {
    assert_eq!(word("addi a0 a1 0x1234"), word("addi a0 a1 0x234"));
    assert_eq!(word("lui a0 0xfff"), word("lui a0 0"));
    assert_eq!(word("beq a0 a1 1"), word("beq a0 a1 0"));
    assert_eq!(word("jal ra 1"), word("jal ra 0"));
}

#[test]
fn immediate_prefixes_in_a_line() {
    assert_eq!(word("addi a0 a1 0x10"), word("addi a0 a1 16"));
    assert_eq!(word("addi a0 a1 $10"), word("addi a0 a1 16"));
    assert_eq!(word("addi a0 a1 0b10000"), word("addi a0 a1 16"));
    assert_eq!(word("addi a0 a1 0o20"), word("addi a0 a1 16"));
    assert_eq!(word("lw a0 0x10(sp)"), word("lw a0 16(sp)"));
}

#[test]
fn white_space_separates_words() {
    let expected = word("addi t2 t1 -3");
    assert_eq!(word("addi  t2   t1  -3"), expected);
    assert_eq!(word("  addi t2 t1 -3  "), expected);
    assert_eq!(word("\taddi\tt2\tt1\t-3"), expected);
    assert_eq!(word("addi t2 t1 -3\n"), expected);
    assert_eq!(word("addi t2 t1 -3\r\n"), expected);
}

#[test]
fn more_than_one_line_is_refused() {
    assert_eq!(error("add t2 t1 t0\nadd t2 t1 t0"), AsmError::LineCountError);
    assert_eq!(error("add t2 t1 t0\n\n"), AsmError::LineCountError);
    assert_eq!(error("\nadd t2 t1 t0"), AsmError::LineCountError);
    assert_eq!(error("add t2\nt1 t0"), AsmError::LineCountError);
}

#[test]
fn line_without_words_is_empty() {
    assert_eq!(error(""), AsmError::EmptyLine);
    assert_eq!(error(" "), AsmError::EmptyLine);
    assert_eq!(error("\n"), AsmError::EmptyLine);
    assert_eq!(error(" \t \r\n"), AsmError::EmptyLine);
}

#[test]
fn unknown_mnemonic_is_refused() {
    assert_eq!(error("mul t2 t1 t0"), AsmError::UnknownMnemonic);
    assert_eq!(error("ADD t2 t1 t0"), AsmError::UnknownMnemonic);
    assert_eq!(error("addx t2 t1 t0"), AsmError::UnknownMnemonic);
    assert_eq!(error("ad"), AsmError::UnknownMnemonic);
    assert_eq!(error("t2 t1 t0"), AsmError::UnknownMnemonic);
}

#[test]
fn wrong_number_of_operands_is_refused() {
    assert_eq!(error("add"), AsmError::ArityMismatch);
    assert_eq!(error("add t2"), AsmError::ArityMismatch);
    assert_eq!(error("add t2 t1"), AsmError::ArityMismatch);
    assert_eq!(error("add t2 t1 t0 t0"), AsmError::ArityMismatch);
    assert_eq!(error("lui t2"), AsmError::ArityMismatch);
    assert_eq!(error("lui t2 1 2"), AsmError::ArityMismatch);
    assert_eq!(error("lw t2 0 (t1)"), AsmError::ArityMismatch);
    assert_eq!(error("add bad worse"), AsmError::ArityMismatch);
}

#[test]
fn unknown_register_is_refused() {
    assert_eq!(error("add x7 t1 t0"), AsmError::UnknownRegister);
    assert_eq!(error("add t2 t7 t0"), AsmError::UnknownRegister);
    assert_eq!(error("add t2 t1 T0"), AsmError::UnknownRegister);
    assert_eq!(error("addi t2 3 3"), AsmError::UnknownRegister);
    assert_eq!(error("lw t2 0(t9)"), AsmError::UnknownRegister);
    assert_eq!(error("sw s12 0(sp)"), AsmError::UnknownRegister);
}

#[test]
fn malformed_immediate_is_refused() {
    assert_eq!(error("addi t2 t1 t0"), AsmError::MalformedImmediate);
    assert_eq!(error("addi t2 t1 0x"), AsmError::MalformedImmediate);
    assert_eq!(error("lui t2 --3"), AsmError::MalformedImmediate);
    assert_eq!(error("lw t2 x(t1)"), AsmError::MalformedImmediate);
    assert_eq!(error("jal ra 4294967296"), AsmError::MalformedImmediate);
}

#[test]
fn malformed_memory_operand_is_refused() {
    assert_eq!(error("lw t2 t1"), AsmError::MalformedMemoryOperand);
    assert_eq!(error("lw t2 (t1)"), AsmError::MalformedMemoryOperand);
    assert_eq!(error("lw t2 4()"), AsmError::MalformedMemoryOperand);
    assert_eq!(error("lw t2 4(t1"), AsmError::MalformedMemoryOperand);
    assert_eq!(error("sw t2 4"), AsmError::MalformedMemoryOperand);
}

#[test]
fn first_failing_operand_gives_the_error() {
    assert_eq!(error("addi x1 t1 zz"), AsmError::UnknownRegister);
    assert_eq!(error("addi t2 t1 zz"), AsmError::MalformedImmediate);
    assert_eq!(error("lw x1 junk"), AsmError::UnknownRegister);
    assert_eq!(error("lw t2 zz(x1)"), AsmError::UnknownRegister);
}

#[test]
fn encoding_twice_gives_the_same() {
    assert_eq!(decode_asm_line("sw t2 -3(t1)"), decode_asm_line("sw t2 -3(t1)"));
    assert_eq!(decode_asm_line("sw t2 -3(t9)"), decode_asm_line("sw t2 -3(t9)"));
    assert_eq!(word("add t2 t1 t0"), word("add t2 t1 t0"));
}

#[test]
fn set_reg_fills_each_field() {
    let mut bits: u32 = 0;
    assert_eq!(set_reg(&mut bits, "t6", RegFunc::Dest), Ok(()));
    assert_eq!(bits, 31 << 7);
    let mut bits: u32 = 0;
    assert_eq!(set_reg(&mut bits, "t6", RegFunc::Src1), Ok(()));
    assert_eq!(bits, 31 << 15);
    let mut bits: u32 = 0;
    assert_eq!(set_reg(&mut bits, "t6", RegFunc::Src2), Ok(()));
    assert_eq!(bits, 31 << 20);
    let mut bits: u32 = 0x33;
    assert_eq!(set_reg(&mut bits, "ra", RegFunc::Dest), Ok(()));
    assert_eq!(bits, 0x33 | (1 << 7));
}

#[test]
fn set_reg_leaves_the_word_on_failure() {
    let mut bits: u32 = 0x1234_5678;
    assert_eq!(set_reg(&mut bits, "x1", RegFunc::Dest), Err(AsmError::UnknownRegister));
    assert_eq!(bits, 0x1234_5678);
    assert_eq!(set_reg(&mut bits, "", RegFunc::Src1), Err(AsmError::UnknownRegister));
    assert_eq!(bits, 0x1234_5678);
}

#[test]
fn set_imm_packs_each_type() {
    let mut bits: u32 = 0;
    assert_eq!(set_imm(&mut bits, "0xabc", &InstructionType::I), Ok(()));
    assert_eq!(bits, 0xabc0_0000);
    let mut bits: u32 = 0;
    assert_eq!(set_imm(&mut bits, "0xabc", &InstructionType::S), Ok(()));
    assert_eq!(bits, 0b1010101_00000_00000_000_11100_0000000);
    let mut bits: u32 = 0;
    assert_eq!(set_imm(&mut bits, "0x1abc", &InstructionType::B), Ok(()));
    assert_eq!(bits, 0b1_010101_00000_00000_000_1110_1_0000000);
    let mut bits: u32 = 0;
    assert_eq!(set_imm(&mut bits, "0x12345678", &InstructionType::U), Ok(()));
    assert_eq!(bits, 0x1234_5000);
    let mut bits: u32 = 0;
    assert_eq!(set_imm(&mut bits, "0x1abcde", &InstructionType::J), Ok(()));
    assert_eq!(bits, 0b1_1001101111_1_10101011_00000_0000000);
}

#[test]
fn set_imm_refuses_r_type() {
    let mut bits: u32 = 0x33;
    assert_eq!(set_imm(&mut bits, "1", &InstructionType::R), Err(AsmError::InternalTypeInvariant));
    assert_eq!(bits, 0x33);
    assert_eq!(set_imm(&mut bits, "zz", &InstructionType::R), Err(AsmError::MalformedImmediate));
    assert_eq!(bits, 0x33);
}

#[test]
fn set_imm_leaves_the_word_on_failure() {
    let mut bits: u32 = 0x13;
    assert_eq!(set_imm(&mut bits, "", &InstructionType::I), Err(AsmError::MalformedImmediate));
    assert_eq!(bits, 0x13);
}

#[test]
fn set_mem_splits_displacement_and_base() {
    let mut bits: u32 = 0;
    assert_eq!(set_mem(&mut bits, "-3(t1)", &InstructionType::I), Ok(()));
    assert_eq!(bits, 0b111111111101_00110_000_00000_0000000);
    let mut bits: u32 = 0;
    assert_eq!(set_mem(&mut bits, "-3(t1)", &InstructionType::S), Ok(()));
    assert_eq!(bits, 0b1111111_00000_00110_000_11101_0000000);
}

#[test]
fn set_mem_leaves_the_word_on_failure() {
    let mut bits: u32 = 0x2003;
    assert_eq!(set_mem(&mut bits, "4", &InstructionType::I), Err(AsmError::MalformedMemoryOperand));
    assert_eq!(bits, 0x2003);
    assert_eq!(set_mem(&mut bits, "4(x1)", &InstructionType::I), Err(AsmError::UnknownRegister));
    assert_eq!(bits, 0x2003);
    assert_eq!(
        set_mem(&mut bits, "zz(t1)", &InstructionType::I),
        Err(AsmError::MalformedImmediate)
    );
    assert_eq!(bits, 0x2003);
    assert_eq!(
        set_mem(&mut bits, "4(t1)", &InstructionType::R),
        Err(AsmError::InternalTypeInvariant)
    );
    assert_eq!(bits, 0x2003);
}

#[test]
fn set_mem_takes_the_first_match_in_the_operand() {
    let mut plain: u32 = 0;
    assert_eq!(set_mem(&mut plain, "4(t1)", &InstructionType::I), Ok(()));
    let mut trailing: u32 = 0;
    assert_eq!(set_mem(&mut trailing, "4(t1)+", &InstructionType::I), Ok(()));
    assert_eq!(trailing, plain);
}

#[test]
fn set_mem_parts_resolves_base_then_displacement() {
    let mut bits: u32 = 0;
    let parts = Some(("8".to_string(), "sp".to_string()));
    assert_eq!(set_mem_parts(&mut bits, parts, &InstructionType::I), Ok(()));
    assert_eq!(bits, (8 << 20) | (2 << 15));
    let mut bits: u32 = 7;
    assert_eq!(
        set_mem_parts(&mut bits, None, &InstructionType::I),
        Err(AsmError::MalformedMemoryOperand)
    );
    assert_eq!(bits, 7);
    let parts = Some(("zz".to_string(), "x1".to_string()));
    assert_eq!(
        set_mem_parts(&mut bits, parts, &InstructionType::I),
        Err(AsmError::UnknownRegister)
    );
    assert_eq!(bits, 7);
    let parts = Some(("zz".to_string(), "sp".to_string()));
    assert_eq!(
        set_mem_parts(&mut bits, parts, &InstructionType::I),
        Err(AsmError::MalformedImmediate)
    );
    assert_eq!(bits, 7);
}

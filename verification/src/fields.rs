//! The fields of an instruction word: where a register and an immediate go,
//! and what merging a field into a word keeps.

use crate::inst::{fixed_mask, imm_mask, reg_mask, role_mask, AsmArgs, InstructionType};
use crate::reg::RegFunc;
use vstd::prelude::*;

verus! {

/// The lowest bit of the field of a register.
pub open spec fn reg_shift(reg_function: RegFunc) -> u32 {
    match reg_function {
        RegFunc::Src1 => 15u32,
        RegFunc::Src2 => 20u32,
        RegFunc::Dest => 7u32,
    }
}

/// A register number at the place of its field.
pub open spec fn reg_field(number: u32, reg_function: RegFunc) -> u32 {
    number << reg_shift(reg_function)
}

/// The bits of an immediate at the places that the instruction type gives
/// them. `imm` is the immediate in two's complement.
///
/// | type | bits of the word, and the bits of the immediate they hold        |
/// |------|------------------------------------------------------------------|
/// | I    | 31:20 hold 11:0                                                  |
/// | S    | 31:25 hold 11:5, 11:7 hold 4:0                                   |
/// | B    | 31 holds 12, 30:25 hold 10:5, 11:8 hold 4:1, 7 holds 11          |
/// | U    | 31:12 hold 31:12                                                 |
/// | J    | 31 holds 20, 30:21 hold 10:1, 20 holds 11, 19:12 hold 19:12      |
///
/// An R-type instruction has no immediate.
pub open spec fn imm_field(imm: u32, inst_type: InstructionType) -> Option<u32> {
    match inst_type {
        InstructionType::I => Some((imm & 0xFFF) << 20),
        InstructionType::S => Some((((imm >> 5) & 0x7F) << 25) | ((imm & 0x1F) << 7)),
        InstructionType::B => Some(
            (((imm >> 12) & 0x1) << 31) | (((imm >> 5) & 0x3F) << 25) | (((imm >> 1) & 0xF) << 8)
                | (((imm >> 11) & 0x1) << 7),
        ),
        InstructionType::U => Some(((imm >> 12) & 0xFFFFF) << 12),
        InstructionType::J => Some(
            (((imm >> 20) & 0x1) << 31) | (((imm >> 1) & 0x3FF) << 21) | (((imm >> 11) & 0x1)
                << 20) | (((imm >> 12) & 0xFF) << 12),
        ),
        InstructionType::R => None,
    }
}

/// The field of a register lies within the bits of that field, and holds
/// the number of the register.
pub proof fn lemma_reg_field(number: u32, reg_function: RegFunc)
    requires
        number < 32,
    ensures
        reg_field(number, reg_function) & !reg_mask(reg_function) == 0,
        (reg_field(number, reg_function) >> reg_shift(reg_function)) == number,
{
    match reg_function {
        RegFunc::Src1 => {
            assert((number << 15u32) & !0x000F_8000u32 == 0 && (number << 15u32) >> 15u32
                == number) by (bit_vector)
                requires
                    number < 32,
            ;
        },
        RegFunc::Src2 => {
            assert((number << 20u32) & !0x01F0_0000u32 == 0 && (number << 20u32) >> 20u32
                == number) by (bit_vector)
                requires
                    number < 32,
            ;
        },
        RegFunc::Dest => {
            assert((number << 7u32) & !0x0000_0F80u32 == 0 && (number << 7u32) >> 7u32
                == number) by (bit_vector)
                requires
                    number < 32,
            ;
        },
    }
}

/// The field of an immediate lies within the bits that the type gives to
/// its immediate.
pub proof fn lemma_imm_field_in_mask(imm: u32, inst_type: InstructionType)
    ensures
        imm_field(imm, inst_type) matches Some(field) ==> field & !imm_mask(inst_type) == 0,
{
    match inst_type {
        InstructionType::I => {
            assert(((imm & 0xFFF) << 20) & !0xFFF0_0000u32 == 0) by (bit_vector);
        },
        InstructionType::S => {
            assert(((((imm >> 5) & 0x7F) << 25) | ((imm & 0x1F) << 7)) & !0xFE00_0F80u32 == 0)
                by (bit_vector);
        },
        InstructionType::B => {
            assert(((((imm >> 12) & 0x1) << 31) | (((imm >> 5) & 0x3F) << 25) | (((imm >> 1) & 0xF)
                << 8) | (((imm >> 11) & 0x1) << 7)) & !0xFE00_0F80u32 == 0) by (bit_vector);
        },
        InstructionType::U => {
            assert((((imm >> 12) & 0xFFFFF) << 12) & !0xFFFF_F000u32 == 0) by (bit_vector);
        },
        InstructionType::J => {
            assert(((((imm >> 20) & 0x1) << 31) | (((imm >> 1) & 0x3FF) << 21) | (((imm >> 11)
                & 0x1) << 20) | (((imm >> 12) & 0xFF) << 12)) & !0xFFFF_F000u32 == 0)
                by (bit_vector);
        },
        InstructionType::R => {},
    }
}

/// The field of an immediate holds the bits of the immediate at the places
/// of the type, each bit once.
pub proof fn lemma_imm_field_holds(imm: u32, inst_type: InstructionType)
    ensures
        imm_field(imm, inst_type) matches Some(field) ==> match inst_type {
            InstructionType::I => field >> 20 == imm & 0xFFF,
            InstructionType::S => {
                &&& field >> 25 == (imm >> 5) & 0x7F
                &&& (field >> 7) & 0x1F == imm & 0x1F
            },
            InstructionType::B => {
                &&& field >> 31 == (imm >> 12) & 0x1
                &&& (field >> 25) & 0x3F == (imm >> 5) & 0x3F
                &&& (field >> 8) & 0xF == (imm >> 1) & 0xF
                &&& (field >> 7) & 0x1 == (imm >> 11) & 0x1
            },
            InstructionType::U => field >> 12 == imm >> 12,
            InstructionType::J => {
                &&& field >> 31 == (imm >> 20) & 0x1
                &&& (field >> 21) & 0x3FF == (imm >> 1) & 0x3FF
                &&& (field >> 20) & 0x1 == (imm >> 11) & 0x1
                &&& (field >> 12) & 0xFF == (imm >> 12) & 0xFF
            },
            InstructionType::R => true,
        },
{
    match inst_type {
        InstructionType::I => {
            let field = (imm & 0xFFF) << 20;
            assert(field >> 20 == imm & 0xFFF) by (bit_vector)
                requires
                    field == (imm & 0xFFF) << 20,
            ;
        },
        InstructionType::S => {
            let field = (((imm >> 5) & 0x7F) << 25) | ((imm & 0x1F) << 7);
            assert(field >> 25 == (imm >> 5) & 0x7F && (field >> 7) & 0x1F == imm & 0x1F)
                by (bit_vector)
                requires
                    field == (((imm >> 5) & 0x7F) << 25) | ((imm & 0x1F) << 7),
            ;
        },
        InstructionType::B => {
            let field = (((imm >> 12) & 0x1) << 31) | (((imm >> 5) & 0x3F) << 25) | (((imm >> 1)
                & 0xF) << 8) | (((imm >> 11) & 0x1) << 7);
            assert(field >> 31 == (imm >> 12) & 0x1 && (field >> 25) & 0x3F == (imm >> 5) & 0x3F
                && (field >> 8) & 0xF == (imm >> 1) & 0xF && (field >> 7) & 0x1 == (imm >> 11)
                & 0x1) by (bit_vector)
                requires
                    field == (((imm >> 12) & 0x1) << 31) | (((imm >> 5) & 0x3F) << 25) | (((imm
                        >> 1) & 0xF) << 8) | (((imm >> 11) & 0x1) << 7),
            ;
        },
        InstructionType::U => {
            let field = ((imm >> 12) & 0xFFFFF) << 12;
            assert(field >> 12 == imm >> 12) by (bit_vector)
                requires
                    field == ((imm >> 12) & 0xFFFFF) << 12,
            ;
        },
        InstructionType::J => {
            let field = (((imm >> 20) & 0x1) << 31) | (((imm >> 1) & 0x3FF) << 21) | (((imm >> 11)
                & 0x1) << 20) | (((imm >> 12) & 0xFF) << 12);
            assert(field >> 31 == (imm >> 20) & 0x1 && (field >> 21) & 0x3FF == (imm >> 1) & 0x3FF
                && (field >> 20) & 0x1 == (imm >> 11) & 0x1 && (field >> 12) & 0xFF == (imm >> 12)
                & 0xFF) by (bit_vector)
                requires
                    field == (((imm >> 20) & 0x1) << 31) | (((imm >> 1) & 0x3FF) << 21) | (((imm
                        >> 11) & 0x1) << 20) | (((imm >> 12) & 0xFF) << 12),
            ;
        },
        InstructionType::R => {},
    }
}

/// Merging a field into a word changes no bit outside the field: where the
/// field lies within `area`, and `mask` shares no bit with `area`, the bits
/// of the word under `mask` stay.
pub proof fn lemma_merge_outside(word: u32, field: u32, area: u32, mask: u32)
    requires
        field & !area == 0,
        area & mask == 0,
    ensures
        (word | field) & mask == word & mask,
{
    assert((word | field) & mask == word & mask) by (bit_vector)
        requires
            field & !area == 0,
            area & mask == 0,
    ;
}

/// Merging a field into a word whose bits in the area of the field are
/// clear puts exactly the field there.
pub proof fn lemma_merge_inside(word: u32, field: u32, area: u32)
    requires
        field & !area == 0,
        word & area == 0,
    ensures
        (word | field) & area == field,
{
    assert((word | field) & area == field) by (bit_vector)
        requires
            field & !area == 0,
            word & area == 0,
    ;
}

/// What lies within one area shares no bit with what lies within another,
/// where the areas share none; and a word that lies within an area is its
/// own part under it.
pub proof fn lemma_within(word: u32, area: u32, other: u32)
    requires
        word & !area == 0,
    ensures
        word & area == word,
        area & other == 0 ==> word & other == 0,
{
    assert(word & area == word && (area & other == 0 ==> word & other == 0)) by (bit_vector)
        requires
            word & !area == 0,
    ;
}

/// Two fields that lie within two areas lie, merged, within the merged
/// areas; and merging is associative.
pub proof fn lemma_merge_two(word: u32, first: u32, second: u32, area: u32, other: u32)
    requires
        first & !area == 0,
        second & !other == 0,
    ensures
        (first | second) & !(area | other) == 0,
        (word | first) | second == word | (first | second),
{
    assert((first | second) & !(area | other) == 0 && (word | first) | second == word | (first
        | second)) by (bit_vector)
        requires
            first & !area == 0,
            second & !other == 0,
    ;
}

/// No operand fills a fixed bit: whatever the operand and the type of the
/// instruction, the bits of the operand and the fixed bits of the type share
/// none.
pub proof fn lemma_role_outside_fixed(role: AsmArgs, inst_type: InstructionType)
    ensures
        role_mask(role, inst_type) & fixed_mask(inst_type) == 0,
{
    assert(0x0000_0F80u32 & 0xFE00_707Fu32 == 0 && 0x000F_8000u32 & 0xFE00_707Fu32 == 0
        && 0x01F0_0000u32 & 0xFE00_707Fu32 == 0 && 0u32 & 0xFE00_707Fu32 == 0 && (0x000F_8000u32
        | 0u32) & 0xFE00_707Fu32 == 0) by (bit_vector);
    assert(0x0000_0F80u32 & 0x0000_707Fu32 == 0 && 0x000F_8000u32 & 0x0000_707Fu32 == 0
        && 0x01F0_0000u32 & 0x0000_707Fu32 == 0 && 0u32 & 0x0000_707Fu32 == 0 && 0xFFF0_0000u32
        & 0x0000_707Fu32 == 0 && 0xFE00_0F80u32 & 0x0000_707Fu32 == 0 && (0x000F_8000u32
        | 0xFFF0_0000u32) & 0x0000_707Fu32 == 0 && (0x000F_8000u32 | 0xFE00_0F80u32)
        & 0x0000_707Fu32 == 0) by (bit_vector);
    assert(0x0000_0F80u32 & 0x0000_007Fu32 == 0 && 0x000F_8000u32 & 0x0000_007Fu32 == 0
        && 0x01F0_0000u32 & 0x0000_007Fu32 == 0 && 0u32 & 0x0000_007Fu32 == 0 && 0xFFFF_F000u32
        & 0x0000_007Fu32 == 0 && (0x000F_8000u32 | 0xFFFF_F000u32) & 0x0000_007Fu32 == 0)
        by (bit_vector);
}

} // verus!

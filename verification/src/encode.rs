//! The instruction encoder: one line of assembly to one instruction word.
//!
//! A line is a mnemonic and its operands, separated by white space. The word
//! starts as the fixed bits of the instruction; each operand is then merged
//! into it with a bitwise or, at the place that the kind of the operand and
//! the type of the instruction give it.

use crate::error::AsmError;
use crate::imm::{digits_of, imm_string_to_i32, parse_immediate};
use crate::fields::{
    imm_field, lemma_imm_field_in_mask, lemma_merge_inside, lemma_merge_outside, lemma_merge_two,
    lemma_reg_field, lemma_role_outside_fixed, lemma_within, reg_field,
};
use crate::inst::{
    find_instruction, fixed_mask, imm_mask, instruction_named, lemma_instructions_well_formed,
    reg_mask, role_mask, AsmArgs, Instruction, InstructionType,
};
use crate::pattern::{capture_pair, regex_captures};
use crate::reg::{
    find_register, lemma_frame_pointer_alias, lemma_register_numbers, register_number, RegFunc,
};
use crate::text::{chars_of, is_digit_of, split_words, texts, words};
use vstd::prelude::*;

verus! {

/// An immediate as the thirty-two bits of its two's complement.
pub open spec fn imm_bits(value: int) -> u32 {
    value as i32 as u32
}

/// The field of a register operand: the number of the register called
/// `name`, at the place of the field `reg_function`.
pub open spec fn register_field(name: Seq<char>, reg_function: RegFunc) -> Result<u32, AsmError> {
    match register_number(name) {
        Some(number) => Ok(reg_field(number, reg_function)),
        None => Err(AsmError::UnknownRegister),
    }
}

/// The field of an immediate operand: the value that `text` spells, packed
/// for `inst_type`.
pub open spec fn immediate_field(text: Seq<char>, inst_type: InstructionType) -> Result<
    u32,
    AsmError,
> {
    match parse_immediate(text) {
        None => Err(AsmError::MalformedImmediate),
        Some(value) => match imm_field(imm_bits(value), inst_type) {
            Some(field) => Ok(field),
            None => Err(AsmError::InternalTypeInvariant),
        },
    }
}

/// The field of a memory operand with the given parts: the base register as
/// first source, merged with the displacement as immediate. `parts` is the
/// displacement and the register name, or `None` where the operand is of
/// another form. The register is resolved first.
pub open spec fn memory_parts_field(
    parts: Option<(Seq<char>, Seq<char>)>,
    inst_type: InstructionType,
) -> Result<u32, AsmError> {
    match parts {
        None => Err(AsmError::MalformedMemoryOperand),
        Some((displacement, base)) => match register_field(base, RegFunc::Src1) {
            Err(e) => Err(e),
            Ok(base_field) => match immediate_field(displacement, inst_type) {
                Err(e) => Err(e),
                Ok(displacement_field) => Ok(base_field | displacement_field),
            },
        },
    }
}

/// The form of a memory operand, as a regular expression: a displacement of
/// at least one character, in the group `imm`, and after it, in parentheses,
/// a register name of at least one word character, in the group `reg`.
pub const MEMORY_OPERAND: &'static str = "(?<imm>.+)\\((?<reg>\\w+)\\)";

/// The parts of a memory operand: the displacement and the register name.
pub open spec fn memory_operand_parts(text: Seq<char>) -> Option<(Seq<char>, Seq<char>)> {
    regex_captures(MEMORY_OPERAND@, "imm"@, "reg"@, text)
}

/// The field of the memory operand `text`.
pub open spec fn memory_field(text: Seq<char>, inst_type: InstructionType) -> Result<
    u32,
    AsmError,
> {
    memory_parts_field(memory_operand_parts(text), inst_type)
}

/// The field of one operand, or why the operand cannot be resolved. An
/// unused slot has no bits.
pub open spec fn operand_field(role: AsmArgs, text: Seq<char>, inst_type: InstructionType)
    -> Result<u32, AsmError> {
    match role {
        AsmArgs::RegSrc1 => register_field(text, RegFunc::Src1),
        AsmArgs::RegSrc2 => register_field(text, RegFunc::Src2),
        AsmArgs::RegDest => register_field(text, RegFunc::Dest),
        AsmArgs::Imm => immediate_field(text, inst_type),
        AsmArgs::Mem => memory_field(text, inst_type),
        AsmArgs::NoArg => Ok(0u32),
    }
}

/// `word` with a field merged into it by a bitwise or; the error where there
/// is no field.
pub open spec fn merged(word: u32, field: Result<u32, AsmError>) -> Result<u32, AsmError> {
    match field {
        Ok(bits) => Ok(word | bits),
        Err(e) => Err(e),
    }
}

/// `word` with the operands from the `i`-th on merged into it, each in the
/// slot of the same index. The first operand that fails gives the error. An
/// unused slot ends the reading, and so does the end of the slots or of the
/// operands.
pub open spec fn with_operands(
    word: u32,
    inst: Instruction<'static>,
    operands: Seq<Seq<char>>,
    i: int,
) -> Result<u32, AsmError>
    decreases 3 - i,
{
    if i < 0 || i >= 3 || i >= operands.len() || inst.arguments[i] == AsmArgs::NoArg {
        Ok(word)
    } else {
        match merged(word, operand_field(inst.arguments[i], operands[i], inst.inst_type)) {
            Err(e) => Err(e),
            Ok(next) => with_operands(next, inst, operands, i + 1),
        }
    }
}

/// The word for a mnemonic and its operands: the fixed bits of the
/// instruction with every operand merged into them.
pub open spec fn encode_words(line: Seq<Seq<char>>) -> Result<u32, AsmError> {
    if line.len() == 0 {
        Err(AsmError::EmptyLine)
    } else {
        match instruction_named(line[0]) {
            None => Err(AsmError::UnknownMnemonic),
            Some(inst) => if inst.num_of_arguments != line.len() - 1 {
                Err(AsmError::ArityMismatch)
            } else {
                with_operands(inst.opcode_func, inst, line.skip(1), 0)
            },
        }
    }
}

/// The text holds more than one line: a line break stands before its last
/// character.
pub open spec fn has_more_lines(text: Seq<char>) -> bool {
    exists|i: int| 0 <= i < text.len() - 1 && text[i] == '\n'
}

/// The word for a line of assembly, or why there is none.
pub open spec fn encode_line(text: Seq<char>) -> Result<u32, AsmError> {
    if has_more_lines(text) {
        Err(AsmError::LineCountError)
    } else {
        encode_words(words(text))
    }
}

/// Puts the register called `reg_string` into the field `reg_function` of
/// the word. An unknown name is `UnknownRegister`, and leaves the word as it
/// was.
pub fn set_reg(inst_bits: &mut u32, reg_string: &str, reg_function: RegFunc) -> (r: Result<
    (),
    AsmError,
>)
    ensures
        match register_field(reg_string@, reg_function) {
            Ok(field) => r is Ok && *final(inst_bits) == *old(inst_bits) | field,
            Err(e) => r == Err::<(), AsmError>(e) && *final(inst_bits) == *old(inst_bits),
        },
{
    let name = chars_of(reg_string);
    let number = match find_register(name.as_slice()) {
        Some(number) => number,
        None => {
            return Err(AsmError::UnknownRegister);
        },
    };
    match reg_function {
        RegFunc::Src1 => *inst_bits = *inst_bits | (number << 15),
        RegFunc::Src2 => *inst_bits = *inst_bits | (number << 20),
        RegFunc::Dest => *inst_bits = *inst_bits | (number << 7),
    }
    Ok(())
}

/// Puts the immediate that `imm_string` spells into the word, at the places
/// that `inst_type` gives it. A text that is no immediate literal is
/// `MalformedImmediate`; an R-type instruction has no immediate, and asking
/// for one is `InternalTypeInvariant`. Both leave the word as it was.
pub fn set_imm(inst_bits: &mut u32, imm_string: &str, inst_type: &InstructionType) -> (r: Result<
    (),
    AsmError,
>)
    ensures
        match immediate_field(imm_string@, *inst_type) {
            Ok(field) => r is Ok && *final(inst_bits) == *old(inst_bits) | field,
            Err(e) => r == Err::<(), AsmError>(e) && *final(inst_bits) == *old(inst_bits),
        },
{
    let imm = match imm_string_to_i32(imm_string) {
        Ok(imm) => imm,
        Err(e) => {
            return Err(e);
        },
    };
    let imm = imm as u32;
    match inst_type {
        InstructionType::I => *inst_bits = *inst_bits | ((imm & 0xFFF) << 20),
        InstructionType::S => {
            let imm_11_5 = (imm >> 5) & 0x7F;
            let imm_4_0 = imm & 0x1F;
            *inst_bits = *inst_bits | ((imm_11_5 << 25) | (imm_4_0 << 7));
        },
        InstructionType::B => {
            let imm_12 = (imm >> 12) & 0x1;
            let imm_10_5 = (imm >> 5) & 0x3F;
            let imm_4_1 = (imm >> 1) & 0xF;
            let imm_11 = (imm >> 11) & 0x1;
            *inst_bits = *inst_bits | ((imm_12 << 31) | (imm_10_5 << 25) | (imm_4_1 << 8) | (imm_11
                << 7));
        },
        InstructionType::U => {
            let imm_31_12 = (imm >> 12) & 0xFFFFF;
            *inst_bits = *inst_bits | (imm_31_12 << 12);
        },
        InstructionType::J => {
            let imm_20 = (imm >> 20) & 0x1;
            let imm_10_1 = (imm >> 1) & 0x3FF;
            let imm_11 = (imm >> 11) & 0x1;
            let imm_19_12 = (imm >> 12) & 0xFF;
            *inst_bits = *inst_bits | ((imm_20 << 31) | (imm_10_1 << 21) | (imm_11 << 20) | (
            imm_19_12 << 12));
        },
        InstructionType::R => {
            return Err(AsmError::InternalTypeInvariant);
        },
    }
    Ok(())
}

/// Puts the parts of a memory operand into the word: the base register as
/// first source, then the displacement as immediate. `parts` is the
/// displacement and the register name. Without parts the operand is
/// `MalformedMemoryOperand`; a part that cannot be resolved gives its own
/// error. Every failure leaves the word as it was.
pub fn set_mem_parts(
    inst_bits: &mut u32,
    parts: Option<(String, String)>,
    inst_type: &InstructionType,
) -> (r: Result<(), AsmError>)
    ensures
        match memory_parts_field(
            match parts {
                Some(pair) => Some((pair.0@, pair.1@)),
                None => None,
            },
            *inst_type,
        ) {
            Ok(field) => r is Ok && *final(inst_bits) == *old(inst_bits) | field,
            Err(e) => r == Err::<(), AsmError>(e) && *final(inst_bits) == *old(inst_bits),
        },
{
    let (displacement, base) = match parts {
        Some(pair) => pair,
        None => {
            return Err(AsmError::MalformedMemoryOperand);
        },
    };
    let mut word = *inst_bits;
    match set_reg(&mut word, base.as_str(), RegFunc::Src1) {
        Ok(()) => {},
        Err(e) => {
            return Err(e);
        },
    }
    match set_imm(&mut word, displacement.as_str(), inst_type) {
        Ok(()) => {},
        Err(e) => {
            return Err(e);
        },
    }
    proof {
        let base_field = register_field(base@, RegFunc::Src1)->Ok_0;
        let displacement_field = immediate_field(displacement@, *inst_type)->Ok_0;
        let start = *inst_bits;
        assert((start | base_field) | displacement_field == start | (base_field
            | displacement_field)) by (bit_vector);
    }
    *inst_bits = word;
    Ok(())
}

/// Puts the memory operand `mem_string`, of the form
/// `displacement(register)`, into the word. Any other form is
/// `MalformedMemoryOperand`; an unknown register and a malformed
/// displacement give their own errors. Every failure leaves the word as it
/// was.
pub fn set_mem(inst_bits: &mut u32, mem_string: &str, inst_type: &InstructionType) -> (r: Result<
    (),
    AsmError,
>)
    ensures
        match memory_field(mem_string@, *inst_type) {
            Ok(field) => r is Ok && *final(inst_bits) == *old(inst_bits) | field,
            Err(e) => r == Err::<(), AsmError>(e) && *final(inst_bits) == *old(inst_bits),
        },
{
    let parts = capture_pair(MEMORY_OPERAND, "imm", "reg", mem_string);
    set_mem_parts(inst_bits, parts, inst_type)
}

/// Encodes one line of assembly: a mnemonic and its operands, separated by
/// white space.
///
/// The errors, in the order in which they are looked for: more than one
/// line; no mnemonic; a mnemonic that the table does not have; a number of
/// operands other than the instruction takes; then, operand by operand, what
/// keeps the operand from being resolved. On any error no word is returned.
pub fn decode_asm_line(asm_line: &str) -> (r: Result<u32, AsmError>)
    ensures
        r == encode_line(asm_line@),
{
    let line = chars_of(asm_line);
    let last = if line.len() > 0 {
        line.len() - 1
    } else {
        0
    };
    let mut at: usize = 0;
    while at < last
        invariant
            at <= last,
            last == line@.len() - 1 || (last == 0 && line@.len() == 0),
            line@ == asm_line@,
            forall|i: int| 0 <= i < at ==> line@[i] != '\n',
        decreases last - at,
    {
        if line[at] == '\n' {
            assert(has_more_lines(asm_line@));
            return Err(AsmError::LineCountError);
        }
        at += 1;
    }
    assert(!has_more_lines(asm_line@));
    let tokens = split_words(line.as_slice());
    if tokens.len() == 0 {
        return Err(AsmError::EmptyLine);
    }
    assert(tokens[0]@ == texts(tokens@)[0]);
    let inst = match find_instruction(chars_of(tokens[0].as_str()).as_slice()) {
        Some(inst) => inst,
        None => {
            return Err(AsmError::UnknownMnemonic);
        },
    };
    if inst.num_of_arguments != tokens.len() - 1 {
        return Err(AsmError::ArityMismatch);
    }
    let ghost operands = texts(tokens@).skip(1);
    let mut inst_bits: u32 = inst.opcode_func;
    let mut i: usize = 0;
    while i < 3 && i < tokens.len() - 1
        invariant
            i <= 3,
            tokens@.len() > 0,
            operands == texts(tokens@).skip(1),
            encode_line(asm_line@) == with_operands(inst_bits, inst, operands, i as int),
        ensures
            encode_line(asm_line@) == Ok::<u32, AsmError>(inst_bits),
        decreases 3 - i,
    {
        let token = tokens[i + 1].as_str();
        assert(token@ == operands[i as int]);
        let done = match inst.arguments[i] {
            AsmArgs::RegSrc1 => set_reg(&mut inst_bits, token, RegFunc::Src1),
            AsmArgs::RegSrc2 => set_reg(&mut inst_bits, token, RegFunc::Src2),
            AsmArgs::RegDest => set_reg(&mut inst_bits, token, RegFunc::Dest),
            AsmArgs::Imm => set_imm(&mut inst_bits, token, &inst.inst_type),
            AsmArgs::Mem => set_mem(&mut inst_bits, token, &inst.inst_type),
            AsmArgs::NoArg => {
                break ;
            },
        };
        match done {
            Ok(()) => {},
            Err(e) => {
                return Err(e);
            },
        }
        i += 1;
    }
    Ok(inst_bits)
}

/// The field of an operand lies within the bits of the operand.
pub proof fn lemma_field_within(role: AsmArgs, text: Seq<char>, inst_type: InstructionType)
    ensures
        operand_field(role, text, inst_type) matches Ok(field) ==> field & !role_mask(
            role,
            inst_type,
        ) == 0,
{
    lemma_register_numbers();
    match role {
        AsmArgs::RegSrc1 => {
            if let Some(number) = register_number(text) {
                lemma_reg_field(number, RegFunc::Src1);
            }
        },
        AsmArgs::RegSrc2 => {
            if let Some(number) = register_number(text) {
                lemma_reg_field(number, RegFunc::Src2);
            }
        },
        AsmArgs::RegDest => {
            if let Some(number) = register_number(text) {
                lemma_reg_field(number, RegFunc::Dest);
            }
        },
        AsmArgs::Imm => {
            if let Some(value) = parse_immediate(text) {
                lemma_imm_field_in_mask(imm_bits(value), inst_type);
            }
        },
        AsmArgs::Mem => {
            if let Some((displacement, base)) = memory_operand_parts(text) {
                if let Some(number) = register_number(base) {
                    lemma_reg_field(number, RegFunc::Src1);
                    if let Some(value) = parse_immediate(displacement) {
                        lemma_imm_field_in_mask(imm_bits(value), inst_type);
                        if let Some(field) = imm_field(imm_bits(value), inst_type) {
                            lemma_merge_two(
                                0,
                                reg_field(number, RegFunc::Src1),
                                field,
                                reg_mask(RegFunc::Src1),
                                imm_mask(inst_type),
                            );
                        }
                    }
                }
            }
        },
        AsmArgs::NoArg => {
            assert(0u32 & !0u32 == 0) by (bit_vector);
        },
    }
}

/// The operands from the `from`-th on are all resolved.
pub open spec fn operands_resolve(
    inst: Instruction<'static>,
    operands: Seq<Seq<char>>,
    from: int,
) -> bool {
    forall|j: int|
        from <= j < operands.len() ==> (#[trigger] operand_field(
            inst.arguments[j],
            operands[j],
            inst.inst_type,
        )) is Ok
}

/// Merging the operands succeeds where every operand is resolved, and gives
/// the error of the first operand that is not.
pub proof fn lemma_operands_outcome(
    word: u32,
    inst: Instruction<'static>,
    operands: Seq<Seq<char>>,
    from: int,
)
    requires
        inst.well_formed(),
        operands.len() == inst.num_of_arguments,
        0 <= from <= operands.len(),
    ensures
        with_operands(word, inst, operands, from) is Ok <==> operands_resolve(inst, operands, from),
        forall|i: int|
            from <= i < operands.len() && operands_resolve(inst, operands.take(i), from)
                && operand_field(inst.arguments[i], operands[i], inst.inst_type) is Err
                ==> with_operands(word, inst, operands, from) == Err::<u32, AsmError>(
                (#[trigger] operand_field(inst.arguments[i], operands[i], inst.inst_type))->Err_0,
            ),
    decreases operands.len() - from,
{
    if from < operands.len() {
        assert(inst.arguments[from] != AsmArgs::NoArg);
        let field = operand_field(inst.arguments[from], operands[from], inst.inst_type);
        match field {
            Ok(bits) => {
                lemma_operands_outcome(word | bits, inst, operands, from + 1);
                assert forall|i: int|
                    from <= i < operands.len() && operands_resolve(inst, operands.take(i), from)
                        && operand_field(
                        inst.arguments[i],
                        operands[i],
                        inst.inst_type,
                    ) is Err implies with_operands(word, inst, operands, from) == Err::<
                    u32,
                    AsmError,
                >(
                    (#[trigger] operand_field(
                        inst.arguments[i],
                        operands[i],
                        inst.inst_type,
                    ))->Err_0,
                ) by {
                    assert(i > from);
                    assert forall|j: int| from + 1 <= j < operands.take(i).len() implies (
                    #[trigger] operand_field(
                        inst.arguments[j],
                        operands.take(i)[j],
                        inst.inst_type,
                    )) is Ok by {}
                }
            },
            Err(e) => {
                assert forall|i: int|
                    from < i < operands.len() && operands_resolve(
                        inst,
                        operands.take(i),
                        from,
                    ) implies false by {
                    assert(operands.take(i)[from] == operands[from]);
                    assert(operand_field(
                        inst.arguments[from],
                        operands.take(i)[from],
                        inst.inst_type,
                    ) is Ok);
                }
            },
        }
    }
}

/// What `lemma_operands_exact` asks of the word that the operands from the
/// `from`-th on are merged into: their bits are still clear.
pub open spec fn operands_clear(word: u32, inst: Instruction<'static>, from: int) -> bool {
    forall|j: int|
        from <= j < 3 ==> word & role_mask(#[trigger] inst.arguments[j], inst.inst_type) == 0
}

/// `mask` shares no bit with the operands from the `from`-th on.
pub open spec fn outside_operands(mask: u32, inst: Instruction<'static>, from: int) -> bool {
    forall|j: int|
        from <= j < 3 ==> role_mask(#[trigger] inst.arguments[j], inst.inst_type) & mask == 0
}

/// Merging operands into a word whose operand bits are clear puts each
/// field at its place and changes nothing else: afterwards the bits of each
/// operand are its field, and the bits that belong to no operand are as
/// before.
pub proof fn lemma_operands_exact(
    word: u32,
    inst: Instruction<'static>,
    operands: Seq<Seq<char>>,
    from: int,
)
    requires
        inst.well_formed(),
        operands.len() == inst.num_of_arguments,
        0 <= from <= operands.len(),
        operands_clear(word, inst, from),
        with_operands(word, inst, operands, from) is Ok,
    ensures
        forall|j: int|
            from <= j < operands.len() ==> (#[trigger] operand_field(
                inst.arguments[j],
                operands[j],
                inst.inst_type,
            )) == Ok::<u32, AsmError>(
                with_operands(word, inst, operands, from)->Ok_0 & role_mask(
                    inst.arguments[j],
                    inst.inst_type,
                ),
            ),
        forall|mask: u32|
            outside_operands(mask, inst, from) ==> #[trigger] (with_operands(
                word,
                inst,
                operands,
                from,
            )->Ok_0 & mask) == word & mask,
    decreases operands.len() - from,
{
    let result = with_operands(word, inst, operands, from)->Ok_0;
    if from < operands.len() {
        let role = inst.arguments[from];
        let area = role_mask(role, inst.inst_type);
        assert(role != AsmArgs::NoArg);
        let field = operand_field(role, operands[from], inst.inst_type)->Ok_0;
        let next = word | field;
        lemma_field_within(role, operands[from], inst.inst_type);
        assert(operands_clear(next, inst, from + 1)) by {
            assert forall|j: int| from + 1 <= j < 3 implies next & role_mask(
                #[trigger] inst.arguments[j],
                inst.inst_type,
            ) == 0 by {
                lemma_merge_outside(
                    word,
                    field,
                    area,
                    role_mask(inst.arguments[j], inst.inst_type),
                );
            }
        }
        lemma_operands_exact(next, inst, operands, from + 1);
        assert(outside_operands(area, inst, from + 1)) by {
            assert forall|j: int| from + 1 <= j < 3 implies role_mask(
                #[trigger] inst.arguments[j],
                inst.inst_type,
            ) & area == 0 by {
                let other = role_mask(inst.arguments[j], inst.inst_type);
                assert(area & other == 0);
                assert(other & area == area & other) by (bit_vector);
            }
        }
        assert(result & area == next & area);
        lemma_merge_inside(word, field, area);
        assert forall|mask: u32| outside_operands(mask, inst, from) implies #[trigger] (result
            & mask) == word & mask by {
            assert(outside_operands(mask, inst, from + 1));
            assert(result & mask == next & mask);
            assert(area & mask == 0);
            lemma_merge_outside(word, field, area, mask);
        }
    }
}

/// Every word that the encoder gives holds the fixed bits of the instruction
/// and the field of each operand, each at its place and nothing else: under
/// the fixed bits of its type the word is the fixed bits of the table entry,
/// and under the bits of each operand it is the field of that operand.
pub proof fn lemma_encoding_is_exact(line: Seq<Seq<char>>)
    requires
        encode_words(line) is Ok,
    ensures
        ({
            let inst = instruction_named(line[0])->0;
            let word = encode_words(line)->Ok_0;
            &&& instruction_named(line[0]) is Some
            &&& word & fixed_mask(inst.inst_type) == inst.opcode_func
            &&& forall|i: int|
                0 <= i < inst.num_of_arguments ==> (#[trigger] operand_field(
                    inst.arguments[i],
                    line[i + 1],
                    inst.inst_type,
                )) == Ok::<u32, AsmError>(word & role_mask(inst.arguments[i], inst.inst_type))
        }),
{
    lemma_instructions_well_formed();
    let inst = instruction_named(line[0])->0;
    let operands = line.skip(1);
    let fixed = fixed_mask(inst.inst_type);
    assert(operands_clear(inst.opcode_func, inst, 0)) by {
        assert forall|j: int| 0 <= j < 3 implies inst.opcode_func & role_mask(
            #[trigger] inst.arguments[j],
            inst.inst_type,
        ) == 0 by {
            let area = role_mask(inst.arguments[j], inst.inst_type);
            lemma_role_outside_fixed(inst.arguments[j], inst.inst_type);
            assert(fixed & area == area & fixed) by (bit_vector);
            lemma_within(inst.opcode_func, fixed, area);
        }
    }
    lemma_operands_exact(inst.opcode_func, inst, operands, 0);
    assert(outside_operands(fixed, inst, 0)) by {
        assert forall|j: int| 0 <= j < 3 implies role_mask(
            #[trigger] inst.arguments[j],
            inst.inst_type,
        ) & fixed == 0 by {
            lemma_role_outside_fixed(inst.arguments[j], inst.inst_type);
        }
    }
    lemma_within(inst.opcode_func, fixed, 0);
    let word = encode_words(line)->Ok_0;
    assert(word & fixed == inst.opcode_func & fixed);
    assert forall|i: int| 0 <= i < inst.num_of_arguments implies (#[trigger] operand_field(
        inst.arguments[i],
        line[i + 1],
        inst.inst_type,
    )) == Ok::<u32, AsmError>(word & role_mask(inst.arguments[i], inst.inst_type)) by {
        assert(line[i + 1] == operands[i]);
        assert(operand_field(inst.arguments[i], operands[i], inst.inst_type) == Ok::<
            u32,
            AsmError,
        >(word & role_mask(inst.arguments[i], inst.inst_type)));
    }
}

/// The operand is a register, not an immediate or a memory operand.
pub open spec fn is_register_role(role: AsmArgs) -> bool {
    role == AsmArgs::RegSrc1 || role == AsmArgs::RegSrc2 || role == AsmArgs::RegDest
}

/// The word depends on the operands through their fields alone: two lists
/// of operands with the same fields, slot by slot, give the same outcome.
pub proof fn lemma_operands_congruent(
    word: u32,
    inst: Instruction<'static>,
    first: Seq<Seq<char>>,
    second: Seq<Seq<char>>,
    from: int,
)
    requires
        first.len() == second.len(),
        forall|j: int|
            0 <= j < first.len() && j < 3 ==> operand_field(
                inst.arguments[j],
                #[trigger] first[j],
                inst.inst_type,
            ) == operand_field(inst.arguments[j], second[j], inst.inst_type),
    ensures
        with_operands(word, inst, first, from) == with_operands(word, inst, second, from),
    decreases 3 - from,
{
    if 0 <= from < 3 && from < first.len() && inst.arguments[from] != AsmArgs::NoArg {
        let field = operand_field(inst.arguments[from], first[from], inst.inst_type);
        if let Ok(bits) = field {
            lemma_operands_congruent(word | bits, inst, first, second, from + 1);
        }
    }
}

/// In every register field the names `fp` and `s0` give the same bits, those
/// of register 8; neither is an immediate; and a memory operand has the same
/// field with either as its base register.
pub proof fn lemma_alias_same_field(
    reg_function: RegFunc,
    displacement: Seq<char>,
    inst_type: InstructionType,
)
    ensures
        register_field("fp"@, reg_function) == Ok::<u32, AsmError>(reg_field(8, reg_function)),
        register_field("s0"@, reg_function) == Ok::<u32, AsmError>(reg_field(8, reg_function)),
        immediate_field("fp"@, inst_type) == immediate_field("s0"@, inst_type),
        memory_parts_field(Some((displacement, "fp"@)), inst_type) == memory_parts_field(
            Some((displacement, "s0"@)),
            inst_type,
        ),
{
    lemma_frame_pointer_alias();
    reveal_strlit("fp");
    reveal_strlit("s0");
    assert(digits_of("fp"@) =~= "fp"@);
    assert(digits_of("s0"@) =~= "s0"@);
    assert(!is_digit_of("fp"@[0], 10));
    assert(!is_digit_of("s0"@[0], 10));
}

/// A line encodes to the same word, or fails in the same way, whether an
/// operand is written `fp` or `s0`. The operand is any but a memory operand,
/// of which `lemma_alias_same_field` speaks.
pub proof fn lemma_alias_same_word(line: Seq<Seq<char>>, i: int)
    requires
        1 <= i < line.len(),
        instruction_named(line[0]) matches Some(inst) ==> i <= 3 && inst.arguments[i - 1]
            != AsmArgs::Mem,
    ensures
        encode_words(line.update(i, "fp"@)) == encode_words(line.update(i, "s0"@)),
{
    let first = line.update(i, "fp"@);
    let second = line.update(i, "s0"@);
    assert(first[0] == line[0] && second[0] == line[0]);
    if let Some(inst) = instruction_named(line[0]) {
        lemma_alias_same_field(RegFunc::Src1, Seq::empty(), inst.inst_type);
        lemma_alias_same_field(RegFunc::Src2, Seq::empty(), inst.inst_type);
        lemma_alias_same_field(RegFunc::Dest, Seq::empty(), inst.inst_type);
        assert forall|j: int| 0 <= j < first.skip(1).len() && j < 3 implies operand_field(
            inst.arguments[j],
            #[trigger] first.skip(1)[j],
            inst.inst_type,
        ) == operand_field(inst.arguments[j], second.skip(1)[j], inst.inst_type) by {
            if j != i - 1 {
                assert(first.skip(1)[j] == line[j + 1]);
                assert(second.skip(1)[j] == line[j + 1]);
            }
        }
        lemma_operands_congruent(inst.opcode_func, inst, first.skip(1), second.skip(1), 0);
    }
}

/// A line with a known mnemonic and the right number of operands encodes
/// where every operand is resolved, and only there.
pub proof fn lemma_encodes_when_resolved(line: Seq<Seq<char>>)
    requires
        line.len() > 0,
        instruction_named(line[0]) is Some,
        instruction_named(line[0])->0.num_of_arguments == line.len() - 1,
    ensures
        encode_words(line) is Ok <==> operands_resolve(
            instruction_named(line[0])->0,
            line.skip(1),
            0,
        ),
{
    lemma_instructions_well_formed();
    let inst = instruction_named(line[0])->0;
    lemma_operands_outcome(inst.opcode_func, inst, line.skip(1), 0);
}

/// A line with a known mnemonic and another number of operands than the
/// instruction takes, too few or too many, is an `ArityMismatch`, whatever
/// the operands are.
pub proof fn lemma_arity_mismatch(text: Seq<char>)
    requires
        !has_more_lines(text),
        words(text).len() > 0,
        instruction_named(words(text)[0]) is Some,
        instruction_named(words(text)[0])->0.num_of_arguments != words(text).len() - 1,
    ensures
        encode_line(text) == Err::<u32, AsmError>(AsmError::ArityMismatch),
{
}

/// A line whose first word is no mnemonic of the table is an
/// `UnknownMnemonic`, whatever follows.
pub proof fn lemma_unknown_mnemonic(text: Seq<char>)
    requires
        !has_more_lines(text),
        words(text).len() > 0,
        instruction_named(words(text)[0]) is None,
    ensures
        encode_line(text) == Err::<u32, AsmError>(AsmError::UnknownMnemonic),
{
}

/// The first operand that cannot be resolved decides the outcome: where the
/// operands before the `i`-th are resolved and the `i`-th is not, the line
/// fails with the error of the `i`-th. And a line is encoded only where
/// every operand is resolved.
pub proof fn lemma_first_failure(line: Seq<Seq<char>>, i: int)
    requires
        line.len() > 0,
        instruction_named(line[0]) is Some,
        instruction_named(line[0])->0.num_of_arguments == line.len() - 1,
        0 <= i < line.len() - 1,
        operands_resolve(instruction_named(line[0])->0, line.skip(1).take(i), 0),
        operand_field(
            instruction_named(line[0])->0.arguments[i],
            line[i + 1],
            instruction_named(line[0])->0.inst_type,
        ) is Err,
    ensures
        encode_words(line) == Err::<u32, AsmError>(
            operand_field(
                instruction_named(line[0])->0.arguments[i],
                line[i + 1],
                instruction_named(line[0])->0.inst_type,
            )->Err_0,
        ),
{
    lemma_instructions_well_formed();
    let inst = instruction_named(line[0])->0;
    assert(line.skip(1)[i] == line[i + 1]);
    lemma_operands_outcome(inst.opcode_func, inst, line.skip(1), 0);
}

/// A register operand that names no register makes the line fail: no word
/// is returned, and where the operands before it are resolved the error is
/// `UnknownRegister`.
pub proof fn lemma_unknown_register(line: Seq<Seq<char>>, i: int)
    requires
        line.len() > 0,
        instruction_named(line[0]) is Some,
        instruction_named(line[0])->0.num_of_arguments == line.len() - 1,
        0 <= i < line.len() - 1,
        is_register_role(instruction_named(line[0])->0.arguments[i]),
        register_number(line[i + 1]) is None,
    ensures
        encode_words(line) is Err,
        operands_resolve(instruction_named(line[0])->0, line.skip(1).take(i), 0) ==> encode_words(
            line,
        ) == Err::<u32, AsmError>(AsmError::UnknownRegister),
{
    lemma_instructions_well_formed();
    let inst = instruction_named(line[0])->0;
    assert(line.skip(1)[i] == line[i + 1]);
    lemma_operands_outcome(inst.opcode_func, inst, line.skip(1), 0);
    if operands_resolve(inst, line.skip(1).take(i), 0) {
        lemma_first_failure(line, i);
    }
    if encode_words(line) is Ok {
        assert(operand_field(inst.arguments[i], line.skip(1)[i], inst.inst_type) is Ok);
    }
}

/// Merging the operands of a well-formed entry never fails for want of an
/// immediate field.
pub proof fn lemma_operands_keep_type_invariant(
    word: u32,
    inst: Instruction<'static>,
    operands: Seq<Seq<char>>,
    from: int,
)
    requires
        inst.well_formed(),
        0 <= from,
    ensures
        with_operands(word, inst, operands, from) != Err::<u32, AsmError>(
            AsmError::InternalTypeInvariant,
        ),
    decreases 3 - from,
{
    if from < 3 && from < operands.len() && inst.arguments[from] != AsmArgs::NoArg {
        let field = operand_field(inst.arguments[from], operands[from], inst.inst_type);
        assert(inst.inst_type == InstructionType::R ==> inst.arguments[from] != AsmArgs::Imm
            && inst.arguments[from] != AsmArgs::Mem);
        if let Ok(bits) = field {
            lemma_operands_keep_type_invariant(word | bits, inst, operands, from + 1);
        }
    }
}

/// No line fails with `InternalTypeInvariant`: the table gives an immediate
/// or a memory operand only to instructions of a type that has an immediate
/// field.
pub proof fn lemma_table_keeps_type_invariant(text: Seq<char>)
    ensures
        encode_line(text) != Err::<u32, AsmError>(AsmError::InternalTypeInvariant),
{
    lemma_instructions_well_formed();
    let line = words(text);
    if !has_more_lines(text) && line.len() > 0 {
        if let Some(inst) = instruction_named(line[0]) {
            lemma_operands_keep_type_invariant(inst.opcode_func, inst, line.skip(1), 0);
        }
    }
}

/// Encoding keeps no state: two results for the same line are the same word
/// or the same error.
pub proof fn lemma_encoding_is_repeatable(
    first: Result<u32, AsmError>,
    second: Result<u32, AsmError>,
    text: Seq<char>,
)
    requires
        first == encode_line(text),
        second == encode_line(text),
    ensures
        first == second,
{
}

} // verus!

//! The instruction table: the mnemonics, their fixed bits and their operands.

use crate::reg::RegFunc;
use crate::text::str_is;
use vstd::prelude::*;

verus! {

/// The six layouts of a 32-bit instruction word.
#[derive(Clone, Copy, Debug, PartialEq, Eq, Structural)]
pub enum InstructionType {
    R,
    I,
    S,
    B,
    U,
    J,
}

/// What an operand of an instruction is.
#[derive(Clone, Copy, Debug, PartialEq, Eq, Structural)]
pub enum AsmArgs {
    /// The destination register.
    RegDest,
    /// The first source register.
    RegSrc1,
    /// The second source register.
    RegSrc2,
    /// An immediate literal.
    Imm,
    /// A displacement and a base register, written `displacement(register)`.
    Mem,
    /// An unused slot. Nothing is read at or after it.
    NoArg,
}

/// One entry of the instruction table.
#[derive(Clone, Copy, Debug)]
pub struct Instruction<'a> {
    /// The mnemonic.
    pub asm_string: &'a str,
    /// The word with the opcode and function bits set and all operand bits clear.
    pub opcode_func: u32,
    pub inst_type: InstructionType,
    /// How many operands the instruction takes.
    pub num_of_arguments: usize,
    /// What the operands are, in the order in which they are written; the
    /// slots after the last operand are `NoArg`.
    pub arguments: [AsmArgs; 3],
}

/// The bits of a word that no operand of an instruction of this type fills:
/// the opcode, and the function fields that the type has.
pub open spec fn fixed_mask(inst_type: InstructionType) -> u32 {
    match inst_type {
        InstructionType::R => 0xFE00_707Fu32,
        InstructionType::I | InstructionType::S | InstructionType::B => 0x0000_707Fu32,
        InstructionType::U | InstructionType::J => 0x0000_007Fu32,
    }
}

/// The bits of a word that the immediate of an instruction of this type
/// fills; an R-type instruction has none.
pub open spec fn imm_mask(inst_type: InstructionType) -> u32 {
    match inst_type {
        InstructionType::R => 0u32,
        InstructionType::I => 0xFFF0_0000u32,
        InstructionType::S | InstructionType::B => 0xFE00_0F80u32,
        InstructionType::U | InstructionType::J => 0xFFFF_F000u32,
    }
}

/// The bits of a word that the register of this field fills.
pub open spec fn reg_mask(reg_function: RegFunc) -> u32 {
    match reg_function {
        RegFunc::Dest => 0x0000_0F80u32,
        RegFunc::Src1 => 0x000F_8000u32,
        RegFunc::Src2 => 0x01F0_0000u32,
    }
}

/// The bits of a word that an operand fills, in an instruction of this type.
/// A memory operand fills the first source register and the immediate.
pub open spec fn role_mask(role: AsmArgs, inst_type: InstructionType) -> u32 {
    match role {
        AsmArgs::RegDest => reg_mask(RegFunc::Dest),
        AsmArgs::RegSrc1 => reg_mask(RegFunc::Src1),
        AsmArgs::RegSrc2 => reg_mask(RegFunc::Src2),
        AsmArgs::Imm => imm_mask(inst_type),
        AsmArgs::Mem => reg_mask(RegFunc::Src1) | imm_mask(inst_type),
        AsmArgs::NoArg => 0u32,
    }
}

impl<'a> Instruction<'a> {
    /// The operands of the instruction, without the unused slots.
    pub open spec fn roles(&self) -> Seq<AsmArgs> {
        self.arguments@.take(self.num_of_arguments as int)
    }

    /// What holds of every entry of the table: the used slots come first and
    /// are as many as the instruction takes operands; the fixed bits lie
    /// where the type has them; only a type with an immediate field takes an
    /// immediate; and no two operands fill the same bit.
    pub open spec fn well_formed(&self) -> bool {
        &&& self.num_of_arguments <= 3
        &&& forall|i: int|
            0 <= i < 3 ==> (i < self.num_of_arguments <==> #[trigger] self.arguments[i]
                != AsmArgs::NoArg)
        &&& self.opcode_func & !fixed_mask(self.inst_type) == 0
        &&& forall|i: int|
            0 <= i < 3 && self.inst_type == InstructionType::R ==> #[trigger] self.arguments[i]
                != AsmArgs::Imm && self.arguments[i] != AsmArgs::Mem
        &&& forall|i: int, j: int|
            0 <= i < j < 3 ==> role_mask(#[trigger] self.arguments[i], self.inst_type) & role_mask(
                #[trigger] self.arguments[j],
                self.inst_type,
            ) == 0
    }
}

/// The instruction table: the base integer instructions that compute, load,
/// store, branch and jump.
pub open spec fn instructions_spec() -> Seq<Instruction<'static>> {
    seq![
        Instruction {
            asm_string: "lui",
            opcode_func: 0b0110111,
            inst_type: InstructionType::U,
            num_of_arguments: 2,
            arguments: [AsmArgs::RegDest, AsmArgs::Imm, AsmArgs::NoArg],
        },
        Instruction {
            asm_string: "auipc",
            opcode_func: 0b0010111,
            inst_type: InstructionType::U,
            num_of_arguments: 2,
            arguments: [AsmArgs::RegDest, AsmArgs::Imm, AsmArgs::NoArg],
        },
        Instruction {
            asm_string: "jal",
            opcode_func: 0b1101111,
            inst_type: InstructionType::J,
            num_of_arguments: 2,
            arguments: [AsmArgs::RegDest, AsmArgs::Imm, AsmArgs::NoArg],
        },
        Instruction {
            asm_string: "jalr",
            opcode_func: 0b000_00000_1100111,
            inst_type: InstructionType::I,
            num_of_arguments: 3,
            arguments: [AsmArgs::RegDest, AsmArgs::RegSrc1, AsmArgs::Imm],
        },
        Instruction {
            asm_string: "beq",
            opcode_func: 0b000_00000_1100011,
            inst_type: InstructionType::B,
            num_of_arguments: 3,
            arguments: [AsmArgs::RegSrc1, AsmArgs::RegSrc2, AsmArgs::Imm],
        },
        Instruction {
            asm_string: "bne",
            opcode_func: 0b001_00000_1100011,
            inst_type: InstructionType::B,
            num_of_arguments: 3,
            arguments: [AsmArgs::RegSrc1, AsmArgs::RegSrc2, AsmArgs::Imm],
        },
        Instruction {
            asm_string: "blt",
            opcode_func: 0b100_00000_1100011,
            inst_type: InstructionType::B,
            num_of_arguments: 3,
            arguments: [AsmArgs::RegSrc1, AsmArgs::RegSrc2, AsmArgs::Imm],
        },
        Instruction {
            asm_string: "bge",
            opcode_func: 0b101_00000_1100011,
            inst_type: InstructionType::B,
            num_of_arguments: 3,
            arguments: [AsmArgs::RegSrc1, AsmArgs::RegSrc2, AsmArgs::Imm],
        },
        Instruction {
            asm_string: "bltu",
            opcode_func: 0b110_00000_1100011,
            inst_type: InstructionType::B,
            num_of_arguments: 3,
            arguments: [AsmArgs::RegSrc1, AsmArgs::RegSrc2, AsmArgs::Imm],
        },
        Instruction {
            asm_string: "bgeu",
            opcode_func: 0b111_00000_1100011,
            inst_type: InstructionType::B,
            num_of_arguments: 3,
            arguments: [AsmArgs::RegSrc1, AsmArgs::RegSrc2, AsmArgs::Imm],
        },
        Instruction {
            asm_string: "lb",
            opcode_func: 0b000_00000_0000011,
            inst_type: InstructionType::I,
            num_of_arguments: 2,
            arguments: [AsmArgs::RegDest, AsmArgs::Mem, AsmArgs::NoArg],
        },
        Instruction {
            asm_string: "lh",
            opcode_func: 0b001_00000_0000011,
            inst_type: InstructionType::I,
            num_of_arguments: 2,
            arguments: [AsmArgs::RegDest, AsmArgs::Mem, AsmArgs::NoArg],
        },
        Instruction {
            asm_string: "lw",
            opcode_func: 0b010_00000_0000011,
            inst_type: InstructionType::I,
            num_of_arguments: 2,
            arguments: [AsmArgs::RegDest, AsmArgs::Mem, AsmArgs::NoArg],
        },
        Instruction {
            asm_string: "lbu",
            opcode_func: 0b100_00000_0000011,
            inst_type: InstructionType::I,
            num_of_arguments: 2,
            arguments: [AsmArgs::RegDest, AsmArgs::Mem, AsmArgs::NoArg],
        },
        Instruction {
            asm_string: "lhu",
            opcode_func: 0b101_00000_0000011,
            inst_type: InstructionType::I,
            num_of_arguments: 2,
            arguments: [AsmArgs::RegDest, AsmArgs::Mem, AsmArgs::NoArg],
        },
        Instruction {
            asm_string: "sb",
            opcode_func: 0b000_00000_0100011,
            inst_type: InstructionType::S,
            num_of_arguments: 2,
            arguments: [AsmArgs::RegSrc2, AsmArgs::Mem, AsmArgs::NoArg],
        },
        Instruction {
            asm_string: "sh",
            opcode_func: 0b001_00000_0100011,
            inst_type: InstructionType::S,
            num_of_arguments: 2,
            arguments: [AsmArgs::RegSrc2, AsmArgs::Mem, AsmArgs::NoArg],
        },
        Instruction {
            asm_string: "sw",
            opcode_func: 0b010_00000_0100011,
            inst_type: InstructionType::S,
            num_of_arguments: 2,
            arguments: [AsmArgs::RegSrc2, AsmArgs::Mem, AsmArgs::NoArg],
        },
        Instruction {
            asm_string: "addi",
            opcode_func: 0b000_00000_0010011,
            inst_type: InstructionType::I,
            num_of_arguments: 3,
            arguments: [AsmArgs::RegDest, AsmArgs::RegSrc1, AsmArgs::Imm],
        },
        Instruction {
            asm_string: "slti",
            opcode_func: 0b010_00000_0010011,
            inst_type: InstructionType::I,
            num_of_arguments: 3,
            arguments: [AsmArgs::RegDest, AsmArgs::RegSrc1, AsmArgs::Imm],
        },
        Instruction {
            asm_string: "sltiu",
            opcode_func: 0b011_00000_0010011,
            inst_type: InstructionType::I,
            num_of_arguments: 3,
            arguments: [AsmArgs::RegDest, AsmArgs::RegSrc1, AsmArgs::Imm],
        },
        Instruction {
            asm_string: "xori",
            opcode_func: 0b100_00000_0010011,
            inst_type: InstructionType::I,
            num_of_arguments: 3,
            arguments: [AsmArgs::RegDest, AsmArgs::RegSrc1, AsmArgs::Imm],
        },
        Instruction {
            asm_string: "ori",
            opcode_func: 0b110_00000_0010011,
            inst_type: InstructionType::I,
            num_of_arguments: 3,
            arguments: [AsmArgs::RegDest, AsmArgs::RegSrc1, AsmArgs::Imm],
        },
        Instruction {
            asm_string: "andi",
            opcode_func: 0b111_00000_0010011,
            inst_type: InstructionType::I,
            num_of_arguments: 3,
            arguments: [AsmArgs::RegDest, AsmArgs::RegSrc1, AsmArgs::Imm],
        },
        Instruction {
            asm_string: "add",
            opcode_func: 0b0000000_00000_00000_000_00000_0110011,
            inst_type: InstructionType::R,
            num_of_arguments: 3,
            arguments: [AsmArgs::RegDest, AsmArgs::RegSrc1, AsmArgs::RegSrc2],
        },
        Instruction {
            asm_string: "sub",
            opcode_func: 0b0100000_00000_00000_000_00000_0110011,
            inst_type: InstructionType::R,
            num_of_arguments: 3,
            arguments: [AsmArgs::RegDest, AsmArgs::RegSrc1, AsmArgs::RegSrc2],
        },
        Instruction {
            asm_string: "sll",
            opcode_func: 0b0000000_00000_00000_001_00000_0110011,
            inst_type: InstructionType::R,
            num_of_arguments: 3,
            arguments: [AsmArgs::RegDest, AsmArgs::RegSrc1, AsmArgs::RegSrc2],
        },
        Instruction {
            asm_string: "slt",
            opcode_func: 0b0000000_00000_00000_010_00000_0110011,
            inst_type: InstructionType::R,
            num_of_arguments: 3,
            arguments: [AsmArgs::RegDest, AsmArgs::RegSrc1, AsmArgs::RegSrc2],
        },
        Instruction {
            asm_string: "sltu",
            opcode_func: 0b0000000_00000_00000_011_00000_0110011,
            inst_type: InstructionType::R,
            num_of_arguments: 3,
            arguments: [AsmArgs::RegDest, AsmArgs::RegSrc1, AsmArgs::RegSrc2],
        },
        Instruction {
            asm_string: "xor",
            opcode_func: 0b0000000_00000_00000_100_00000_0110011,
            inst_type: InstructionType::R,
            num_of_arguments: 3,
            arguments: [AsmArgs::RegDest, AsmArgs::RegSrc1, AsmArgs::RegSrc2],
        },
        Instruction {
            asm_string: "srl",
            opcode_func: 0b0000000_00000_00000_101_00000_0110011,
            inst_type: InstructionType::R,
            num_of_arguments: 3,
            arguments: [AsmArgs::RegDest, AsmArgs::RegSrc1, AsmArgs::RegSrc2],
        },
        Instruction {
            asm_string: "sra",
            opcode_func: 0b0100000_00000_00000_101_00000_0110011,
            inst_type: InstructionType::R,
            num_of_arguments: 3,
            arguments: [AsmArgs::RegDest, AsmArgs::RegSrc1, AsmArgs::RegSrc2],
        },
        Instruction {
            asm_string: "or",
            opcode_func: 0b0000000_00000_00000_110_00000_0110011,
            inst_type: InstructionType::R,
            num_of_arguments: 3,
            arguments: [AsmArgs::RegDest, AsmArgs::RegSrc1, AsmArgs::RegSrc2],
        },
        Instruction {
            asm_string: "and",
            opcode_func: 0b0000000_00000_00000_111_00000_0110011,
            inst_type: InstructionType::R,
            num_of_arguments: 3,
            arguments: [AsmArgs::RegDest, AsmArgs::RegSrc1, AsmArgs::RegSrc2],
        },
    ]
}

/// The instruction table as a value.
pub fn instructions() -> (table: [Instruction<'static>; 34])
    ensures
        table@ == instructions_spec(),
{
    let table = [
        Instruction {
            asm_string: "lui",
            opcode_func: 0b0110111,
            inst_type: InstructionType::U,
            num_of_arguments: 2,
            arguments: [AsmArgs::RegDest, AsmArgs::Imm, AsmArgs::NoArg],
        },
        Instruction {
            asm_string: "auipc",
            opcode_func: 0b0010111,
            inst_type: InstructionType::U,
            num_of_arguments: 2,
            arguments: [AsmArgs::RegDest, AsmArgs::Imm, AsmArgs::NoArg],
        },
        Instruction {
            asm_string: "jal",
            opcode_func: 0b1101111,
            inst_type: InstructionType::J,
            num_of_arguments: 2,
            arguments: [AsmArgs::RegDest, AsmArgs::Imm, AsmArgs::NoArg],
        },
        Instruction {
            asm_string: "jalr",
            opcode_func: 0b000_00000_1100111,
            inst_type: InstructionType::I,
            num_of_arguments: 3,
            arguments: [AsmArgs::RegDest, AsmArgs::RegSrc1, AsmArgs::Imm],
        },
        Instruction {
            asm_string: "beq",
            opcode_func: 0b000_00000_1100011,
            inst_type: InstructionType::B,
            num_of_arguments: 3,
            arguments: [AsmArgs::RegSrc1, AsmArgs::RegSrc2, AsmArgs::Imm],
        },
        Instruction {
            asm_string: "bne",
            opcode_func: 0b001_00000_1100011,
            inst_type: InstructionType::B,
            num_of_arguments: 3,
            arguments: [AsmArgs::RegSrc1, AsmArgs::RegSrc2, AsmArgs::Imm],
        },
        Instruction {
            asm_string: "blt",
            opcode_func: 0b100_00000_1100011,
            inst_type: InstructionType::B,
            num_of_arguments: 3,
            arguments: [AsmArgs::RegSrc1, AsmArgs::RegSrc2, AsmArgs::Imm],
        },
        Instruction {
            asm_string: "bge",
            opcode_func: 0b101_00000_1100011,
            inst_type: InstructionType::B,
            num_of_arguments: 3,
            arguments: [AsmArgs::RegSrc1, AsmArgs::RegSrc2, AsmArgs::Imm],
        },
        Instruction {
            asm_string: "bltu",
            opcode_func: 0b110_00000_1100011,
            inst_type: InstructionType::B,
            num_of_arguments: 3,
            arguments: [AsmArgs::RegSrc1, AsmArgs::RegSrc2, AsmArgs::Imm],
        },
        Instruction {
            asm_string: "bgeu",
            opcode_func: 0b111_00000_1100011,
            inst_type: InstructionType::B,
            num_of_arguments: 3,
            arguments: [AsmArgs::RegSrc1, AsmArgs::RegSrc2, AsmArgs::Imm],
        },
        Instruction {
            asm_string: "lb",
            opcode_func: 0b000_00000_0000011,
            inst_type: InstructionType::I,
            num_of_arguments: 2,
            arguments: [AsmArgs::RegDest, AsmArgs::Mem, AsmArgs::NoArg],
        },
        Instruction {
            asm_string: "lh",
            opcode_func: 0b001_00000_0000011,
            inst_type: InstructionType::I,
            num_of_arguments: 2,
            arguments: [AsmArgs::RegDest, AsmArgs::Mem, AsmArgs::NoArg],
        },
        Instruction {
            asm_string: "lw",
            opcode_func: 0b010_00000_0000011,
            inst_type: InstructionType::I,
            num_of_arguments: 2,
            arguments: [AsmArgs::RegDest, AsmArgs::Mem, AsmArgs::NoArg],
        },
        Instruction {
            asm_string: "lbu",
            opcode_func: 0b100_00000_0000011,
            inst_type: InstructionType::I,
            num_of_arguments: 2,
            arguments: [AsmArgs::RegDest, AsmArgs::Mem, AsmArgs::NoArg],
        },
        Instruction {
            asm_string: "lhu",
            opcode_func: 0b101_00000_0000011,
            inst_type: InstructionType::I,
            num_of_arguments: 2,
            arguments: [AsmArgs::RegDest, AsmArgs::Mem, AsmArgs::NoArg],
        },
        Instruction {
            asm_string: "sb",
            opcode_func: 0b000_00000_0100011,
            inst_type: InstructionType::S,
            num_of_arguments: 2,
            arguments: [AsmArgs::RegSrc2, AsmArgs::Mem, AsmArgs::NoArg],
        },
        Instruction {
            asm_string: "sh",
            opcode_func: 0b001_00000_0100011,
            inst_type: InstructionType::S,
            num_of_arguments: 2,
            arguments: [AsmArgs::RegSrc2, AsmArgs::Mem, AsmArgs::NoArg],
        },
        Instruction {
            asm_string: "sw",
            opcode_func: 0b010_00000_0100011,
            inst_type: InstructionType::S,
            num_of_arguments: 2,
            arguments: [AsmArgs::RegSrc2, AsmArgs::Mem, AsmArgs::NoArg],
        },
        Instruction {
            asm_string: "addi",
            opcode_func: 0b000_00000_0010011,
            inst_type: InstructionType::I,
            num_of_arguments: 3,
            arguments: [AsmArgs::RegDest, AsmArgs::RegSrc1, AsmArgs::Imm],
        },
        Instruction {
            asm_string: "slti",
            opcode_func: 0b010_00000_0010011,
            inst_type: InstructionType::I,
            num_of_arguments: 3,
            arguments: [AsmArgs::RegDest, AsmArgs::RegSrc1, AsmArgs::Imm],
        },
        Instruction {
            asm_string: "sltiu",
            opcode_func: 0b011_00000_0010011,
            inst_type: InstructionType::I,
            num_of_arguments: 3,
            arguments: [AsmArgs::RegDest, AsmArgs::RegSrc1, AsmArgs::Imm],
        },
        Instruction {
            asm_string: "xori",
            opcode_func: 0b100_00000_0010011,
            inst_type: InstructionType::I,
            num_of_arguments: 3,
            arguments: [AsmArgs::RegDest, AsmArgs::RegSrc1, AsmArgs::Imm],
        },
        Instruction {
            asm_string: "ori",
            opcode_func: 0b110_00000_0010011,
            inst_type: InstructionType::I,
            num_of_arguments: 3,
            arguments: [AsmArgs::RegDest, AsmArgs::RegSrc1, AsmArgs::Imm],
        },
        Instruction {
            asm_string: "andi",
            opcode_func: 0b111_00000_0010011,
            inst_type: InstructionType::I,
            num_of_arguments: 3,
            arguments: [AsmArgs::RegDest, AsmArgs::RegSrc1, AsmArgs::Imm],
        },
        Instruction {
            asm_string: "add",
            opcode_func: 0b0000000_00000_00000_000_00000_0110011,
            inst_type: InstructionType::R,
            num_of_arguments: 3,
            arguments: [AsmArgs::RegDest, AsmArgs::RegSrc1, AsmArgs::RegSrc2],
        },
        Instruction {
            asm_string: "sub",
            opcode_func: 0b0100000_00000_00000_000_00000_0110011,
            inst_type: InstructionType::R,
            num_of_arguments: 3,
            arguments: [AsmArgs::RegDest, AsmArgs::RegSrc1, AsmArgs::RegSrc2],
        },
        Instruction {
            asm_string: "sll",
            opcode_func: 0b0000000_00000_00000_001_00000_0110011,
            inst_type: InstructionType::R,
            num_of_arguments: 3,
            arguments: [AsmArgs::RegDest, AsmArgs::RegSrc1, AsmArgs::RegSrc2],
        },
        Instruction {
            asm_string: "slt",
            opcode_func: 0b0000000_00000_00000_010_00000_0110011,
            inst_type: InstructionType::R,
            num_of_arguments: 3,
            arguments: [AsmArgs::RegDest, AsmArgs::RegSrc1, AsmArgs::RegSrc2],
        },
        Instruction {
            asm_string: "sltu",
            opcode_func: 0b0000000_00000_00000_011_00000_0110011,
            inst_type: InstructionType::R,
            num_of_arguments: 3,
            arguments: [AsmArgs::RegDest, AsmArgs::RegSrc1, AsmArgs::RegSrc2],
        },
        Instruction {
            asm_string: "xor",
            opcode_func: 0b0000000_00000_00000_100_00000_0110011,
            inst_type: InstructionType::R,
            num_of_arguments: 3,
            arguments: [AsmArgs::RegDest, AsmArgs::RegSrc1, AsmArgs::RegSrc2],
        },
        Instruction {
            asm_string: "srl",
            opcode_func: 0b0000000_00000_00000_101_00000_0110011,
            inst_type: InstructionType::R,
            num_of_arguments: 3,
            arguments: [AsmArgs::RegDest, AsmArgs::RegSrc1, AsmArgs::RegSrc2],
        },
        Instruction {
            asm_string: "sra",
            opcode_func: 0b0100000_00000_00000_101_00000_0110011,
            inst_type: InstructionType::R,
            num_of_arguments: 3,
            arguments: [AsmArgs::RegDest, AsmArgs::RegSrc1, AsmArgs::RegSrc2],
        },
        Instruction {
            asm_string: "or",
            opcode_func: 0b0000000_00000_00000_110_00000_0110011,
            inst_type: InstructionType::R,
            num_of_arguments: 3,
            arguments: [AsmArgs::RegDest, AsmArgs::RegSrc1, AsmArgs::RegSrc2],
        },
        Instruction {
            asm_string: "and",
            opcode_func: 0b0000000_00000_00000_111_00000_0110011,
            inst_type: InstructionType::R,
            num_of_arguments: 3,
            arguments: [AsmArgs::RegDest, AsmArgs::RegSrc1, AsmArgs::RegSrc2],
        },
    ];
    assert(table@ =~= instructions_spec());
    table
}

/// The first entry at or after `from` whose mnemonic is `name`.
pub open spec fn instruction_index(table: Seq<Instruction<'static>>, name: Seq<char>, from: int)
    -> Option<int>
    decreases table.len() - from,
{
    if from < 0 || from >= table.len() {
        None
    } else if table[from].asm_string@ == name {
        Some(from)
    } else {
        instruction_index(table, name, from + 1)
    }
}

/// The entry of the table for the mnemonic `name`, if there is one.
/// Mnemonics are matched exactly; letter case counts.
pub open spec fn instruction_named(name: Seq<char>) -> Option<Instruction<'static>> {
    match instruction_index(instructions_spec(), name, 0) {
        Some(i) => Some(instructions_spec()[i]),
        None => None,
    }
}

/// A lookup finds the first entry of that mnemonic, and fails only where no
/// entry has it.
pub proof fn lemma_instruction_index(table: Seq<Instruction<'static>>, name: Seq<char>, from: int)
    requires
        0 <= from,
    ensures
        match instruction_index(table, name, from) {
            Some(i) => {
                &&& from <= i < table.len()
                &&& table[i].asm_string@ == name
                &&& forall|j: int| from <= j < i ==> (#[trigger] table[j]).asm_string@ != name
            },
            None => forall|j: int|
                from <= j < table.len() ==> (#[trigger] table[j]).asm_string@ != name,
        },
    decreases table.len() - from,
{
    if from < table.len() && table[from].asm_string@ != name {
        lemma_instruction_index(table, name, from + 1);
    }
}

/// Every entry of the table is well formed.
pub proof fn lemma_instructions_well_formed()
    ensures
        forall|i: int|
            0 <= i < instructions_spec().len() ==> (
            #[trigger] instructions_spec()[i]).well_formed(),
        forall|name: Seq<char>| #[trigger]
            instruction_named(name) is Some ==> instruction_named(name)->0.well_formed()
                && instruction_named(name)->0.asm_string@ == name,
{
    assert({
        &&& 0b0110111u32 & !0x0000_007Fu32 == 0
        &&& 0b0010111u32 & !0x0000_007Fu32 == 0
        &&& 0b1101111u32 & !0x0000_007Fu32 == 0
    }) by (bit_vector);
    assert({
        &&& 0b000_00000_1100111u32 & !0x0000_707Fu32 == 0
        &&& 0b000_00000_1100011u32 & !0x0000_707Fu32 == 0
        &&& 0b001_00000_1100011u32 & !0x0000_707Fu32 == 0
        &&& 0b100_00000_1100011u32 & !0x0000_707Fu32 == 0
        &&& 0b101_00000_1100011u32 & !0x0000_707Fu32 == 0
        &&& 0b110_00000_1100011u32 & !0x0000_707Fu32 == 0
        &&& 0b111_00000_1100011u32 & !0x0000_707Fu32 == 0
        &&& 0b000_00000_0000011u32 & !0x0000_707Fu32 == 0
        &&& 0b001_00000_0000011u32 & !0x0000_707Fu32 == 0
        &&& 0b010_00000_0000011u32 & !0x0000_707Fu32 == 0
        &&& 0b100_00000_0000011u32 & !0x0000_707Fu32 == 0
        &&& 0b101_00000_0000011u32 & !0x0000_707Fu32 == 0
        &&& 0b000_00000_0100011u32 & !0x0000_707Fu32 == 0
        &&& 0b001_00000_0100011u32 & !0x0000_707Fu32 == 0
        &&& 0b010_00000_0100011u32 & !0x0000_707Fu32 == 0
        &&& 0b000_00000_0010011u32 & !0x0000_707Fu32 == 0
        &&& 0b010_00000_0010011u32 & !0x0000_707Fu32 == 0
        &&& 0b011_00000_0010011u32 & !0x0000_707Fu32 == 0
        &&& 0b100_00000_0010011u32 & !0x0000_707Fu32 == 0
        &&& 0b110_00000_0010011u32 & !0x0000_707Fu32 == 0
        &&& 0b111_00000_0010011u32 & !0x0000_707Fu32 == 0
    }) by (bit_vector);
    assert({
        &&& 0b0000000_00000_00000_000_00000_0110011u32 & !0xFE00_707Fu32 == 0
        &&& 0b0100000_00000_00000_000_00000_0110011u32 & !0xFE00_707Fu32 == 0
        &&& 0b0000000_00000_00000_001_00000_0110011u32 & !0xFE00_707Fu32 == 0
        &&& 0b0000000_00000_00000_010_00000_0110011u32 & !0xFE00_707Fu32 == 0
        &&& 0b0000000_00000_00000_011_00000_0110011u32 & !0xFE00_707Fu32 == 0
        &&& 0b0000000_00000_00000_100_00000_0110011u32 & !0xFE00_707Fu32 == 0
        &&& 0b0000000_00000_00000_101_00000_0110011u32 & !0xFE00_707Fu32 == 0
        &&& 0b0100000_00000_00000_101_00000_0110011u32 & !0xFE00_707Fu32 == 0
        &&& 0b0000000_00000_00000_110_00000_0110011u32 & !0xFE00_707Fu32 == 0
        &&& 0b0000000_00000_00000_111_00000_0110011u32 & !0xFE00_707Fu32 == 0
    }) by (bit_vector);
    assert({
        &&& 0x0000_0F80u32 & 0x000F_8000u32 == 0
        &&& 0x0000_0F80u32 & 0x01F0_0000u32 == 0
        &&& 0x000F_8000u32 & 0x01F0_0000u32 == 0
        &&& 0x0000_0F80u32 & 0xFFFF_F000u32 == 0
        &&& 0x0000_0F80u32 & 0xFFF0_0000u32 == 0
        &&& 0x000F_8000u32 & 0xFFF0_0000u32 == 0
        &&& 0x000F_8000u32 & 0xFE00_0F80u32 == 0
        &&& 0x01F0_0000u32 & 0xFE00_0F80u32 == 0
        &&& 0x0000_0F80u32 & (0x000F_8000u32 | 0xFFF0_0000u32) == 0
        &&& 0x01F0_0000u32 & (0x000F_8000u32 | 0xFE00_0F80u32) == 0
        &&& 0x0000_0F80u32 & 0u32 == 0
        &&& 0x01F0_0000u32 & 0u32 == 0
        &&& 0xFFFF_F000u32 & 0u32 == 0
        &&& (0x000F_8000u32 | 0xFFF0_0000u32) & 0u32 == 0
        &&& (0x000F_8000u32 | 0xFE00_0F80u32) & 0u32 == 0
    }) by (bit_vector);
    let table = instructions_spec();
    assert forall|i: int| 0 <= i < table.len() implies (#[trigger] table[i]).well_formed() by {
        let inst = table[i];
        assert(inst.arguments[0] != AsmArgs::NoArg);
        assert(inst.arguments[1] != AsmArgs::NoArg);
        assert(inst.arguments[2] == AsmArgs::NoArg <==> inst.num_of_arguments == 2);
    }
    assert forall|name: Seq<char>| #[trigger]
        instruction_named(name) is Some implies instruction_named(name)->0.well_formed()
        && instruction_named(name)->0.asm_string@ == name by {
        lemma_instruction_index(table, name, 0);
    }
}

/// No two entries of the table have the same mnemonic.
pub proof fn lemma_mnemonics_differ()
    ensures
        forall|i: int, j: int|
            0 <= i < j < instructions_spec().len() ==> (
            #[trigger] instructions_spec()[i]).asm_string@ != (
            #[trigger] instructions_spec()[j]).asm_string@,
{
    reveal_strlit("lui");
    reveal_strlit("auipc");
    reveal_strlit("jal");
    reveal_strlit("jalr");
    reveal_strlit("beq");
    reveal_strlit("bne");
    reveal_strlit("blt");
    reveal_strlit("bge");
    reveal_strlit("bltu");
    reveal_strlit("bgeu");
    reveal_strlit("lb");
    reveal_strlit("lh");
    reveal_strlit("lw");
    reveal_strlit("lbu");
    reveal_strlit("lhu");
    reveal_strlit("sb");
    reveal_strlit("sh");
    reveal_strlit("sw");
    reveal_strlit("addi");
    reveal_strlit("slti");
    reveal_strlit("sltiu");
    reveal_strlit("xori");
    reveal_strlit("ori");
    reveal_strlit("andi");
    reveal_strlit("add");
    reveal_strlit("sub");
    reveal_strlit("sll");
    reveal_strlit("slt");
    reveal_strlit("sltu");
    reveal_strlit("xor");
    reveal_strlit("srl");
    reveal_strlit("sra");
    reveal_strlit("or");
    reveal_strlit("and");
    let table = instructions_spec();
    assert forall|i: int, j: int| 0 <= i < j < table.len() implies (
    #[trigger] table[i]).asm_string@ != (#[trigger] table[j]).asm_string@ by {
        let a = table[i].asm_string@;
        let b = table[j].asm_string@;
        if a.len() == b.len() {
            assert(a[0] != b[0] || a[1] != b[1] || (a.len() > 2 && a[2] != b[2]) || (a.len() > 3
                && a[3] != b[3]) || (a.len() > 4 && a[4] != b[4]));
        }
    }
}

/// Looks an instruction up by its mnemonic.
pub fn find_instruction(name: &[char]) -> (inst: Option<Instruction<'static>>)
    ensures
        inst == instruction_named(name@),
{
    let table = instructions();
    let mut i: usize = 0;
    while i < 34
        invariant
            i <= 34,
            table@ == instructions_spec(),
            instruction_index(instructions_spec(), name@, 0) == instruction_index(
                instructions_spec(),
                name@,
                i as int,
            ),
        decreases 34 - i,
    {
        if str_is(table[i].asm_string, name) {
            return Some(table[i]);
        }
        i += 1;
    }
    None
}

} // verus!

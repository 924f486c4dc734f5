//! The register table: the names of the thirty-two integer registers.

use crate::text::str_is;
use vstd::prelude::*;

verus! {

/// The field of an instruction word that a register operand fills.
#[derive(Clone, Copy, Debug, PartialEq, Eq, Structural)]
pub enum RegFunc {
    Src1,
    Src2,
    Dest,
}

/// A name of a register, with the number of the register.
#[derive(Clone, Copy, Debug)]
pub struct Register<'a> {
    pub name: &'a str,
    pub number: u32,
}

/// The register table. Every register has its ABI name; register 8 has two,
/// `fp` and `s0`.
pub open spec fn reg_file_spec() -> Seq<Register<'static>> {
    seq![
        Register { name: "zero", number: 0 },
        Register { name: "ra", number: 1 },
        Register { name: "sp", number: 2 },
        Register { name: "gp", number: 3 },
        Register { name: "tp", number: 4 },
        Register { name: "t0", number: 5 },
        Register { name: "t1", number: 6 },
        Register { name: "t2", number: 7 },
        Register { name: "fp", number: 8 },
        Register { name: "s0", number: 8 },
        Register { name: "s1", number: 9 },
        Register { name: "a0", number: 10 },
        Register { name: "a1", number: 11 },
        Register { name: "a2", number: 12 },
        Register { name: "a3", number: 13 },
        Register { name: "a4", number: 14 },
        Register { name: "a5", number: 15 },
        Register { name: "a6", number: 16 },
        Register { name: "a7", number: 17 },
        Register { name: "s2", number: 18 },
        Register { name: "s3", number: 19 },
        Register { name: "s4", number: 20 },
        Register { name: "s5", number: 21 },
        Register { name: "s6", number: 22 },
        Register { name: "s7", number: 23 },
        Register { name: "s8", number: 24 },
        Register { name: "s9", number: 25 },
        Register { name: "s10", number: 26 },
        Register { name: "s11", number: 27 },
        Register { name: "t3", number: 28 },
        Register { name: "t4", number: 29 },
        Register { name: "t5", number: 30 },
        Register { name: "t6", number: 31 },
    ]
}

/// The register table as a value.
pub fn reg_file() -> (table: [Register<'static>; 33])
    ensures
        table@ == reg_file_spec(),
{
    let table = [
        Register { name: "zero", number: 0 },
        Register { name: "ra", number: 1 },
        Register { name: "sp", number: 2 },
        Register { name: "gp", number: 3 },
        Register { name: "tp", number: 4 },
        Register { name: "t0", number: 5 },
        Register { name: "t1", number: 6 },
        Register { name: "t2", number: 7 },
        Register { name: "fp", number: 8 },
        Register { name: "s0", number: 8 },
        Register { name: "s1", number: 9 },
        Register { name: "a0", number: 10 },
        Register { name: "a1", number: 11 },
        Register { name: "a2", number: 12 },
        Register { name: "a3", number: 13 },
        Register { name: "a4", number: 14 },
        Register { name: "a5", number: 15 },
        Register { name: "a6", number: 16 },
        Register { name: "a7", number: 17 },
        Register { name: "s2", number: 18 },
        Register { name: "s3", number: 19 },
        Register { name: "s4", number: 20 },
        Register { name: "s5", number: 21 },
        Register { name: "s6", number: 22 },
        Register { name: "s7", number: 23 },
        Register { name: "s8", number: 24 },
        Register { name: "s9", number: 25 },
        Register { name: "s10", number: 26 },
        Register { name: "s11", number: 27 },
        Register { name: "t3", number: 28 },
        Register { name: "t4", number: 29 },
        Register { name: "t5", number: 30 },
        Register { name: "t6", number: 31 },
    ];
    assert(table@ =~= reg_file_spec());
    table
}

/// The first entry at or after `from` whose name is `name`.
pub open spec fn register_index(table: Seq<Register<'static>>, name: Seq<char>, from: int)
    -> Option<int>
    decreases table.len() - from,
{
    if from < 0 || from >= table.len() {
        None
    } else if table[from].name@ == name {
        Some(from)
    } else {
        register_index(table, name, from + 1)
    }
}

/// The number of the register called `name`, if the table has that name.
/// Names are matched exactly; letter case counts.
pub open spec fn register_number(name: Seq<char>) -> Option<u32> {
    match register_index(reg_file_spec(), name, 0) {
        Some(i) => Some(reg_file_spec()[i].number),
        None => None,
    }
}

/// A lookup finds the first entry of that name, and fails only where no
/// entry has it.
pub proof fn lemma_register_index(table: Seq<Register<'static>>, name: Seq<char>, from: int)
    requires
        0 <= from,
    ensures
        match register_index(table, name, from) {
            Some(i) => {
                &&& from <= i < table.len()
                &&& table[i].name@ == name
                &&& forall|j: int| from <= j < i ==> (#[trigger] table[j]).name@ != name
            },
            None => forall|j: int| from <= j < table.len() ==> (#[trigger] table[j]).name@ != name,
        },
    decreases table.len() - from,
{
    if from < table.len() && table[from].name@ != name {
        lemma_register_index(table, name, from + 1);
    }
}

/// Some entry of the table has the number `n`.
pub open spec fn register_is_named(n: u32) -> bool {
    exists|i: int| 0 <= i < reg_file_spec().len() && (#[trigger] reg_file_spec()[i]).number == n
}

/// Every name of the table stands for a register from 0 to 31, and every
/// such register has a name.
pub proof fn lemma_register_numbers()
    ensures
        forall|i: int|
            0 <= i < reg_file_spec().len() ==> (#[trigger] reg_file_spec()[i]).number < 32,
        forall|name: Seq<char>| #[trigger]
            register_number(name) is Some ==> register_number(name)->0 < 32,
        forall|n: u32| n < 32 ==> #[trigger] register_is_named(n),
{
    let table = reg_file_spec();
    assert forall|name: Seq<char>| #[trigger] register_number(name) is Some implies register_number(
        name,
    )->0 < 32 by {
        lemma_register_index(table, name, 0);
    }
    assert forall|n: u32| n < 32 implies #[trigger] register_is_named(n) by {
        let i = if n <= 8 {
            n as int
        } else {
            n as int + 1
        };
        assert(table[i].number == n);
    }
}

/// No two entries of the table have the same name.
pub proof fn lemma_register_names_differ()
    ensures
        forall|i: int, j: int|
            0 <= i < j < reg_file_spec().len() ==> (#[trigger] reg_file_spec()[i]).name@ != (
            #[trigger] reg_file_spec()[j]).name@,
{
    reveal_strlit("zero");
    reveal_strlit("ra");
    reveal_strlit("sp");
    reveal_strlit("gp");
    reveal_strlit("tp");
    reveal_strlit("t0");
    reveal_strlit("t1");
    reveal_strlit("t2");
    reveal_strlit("fp");
    reveal_strlit("s0");
    reveal_strlit("s1");
    reveal_strlit("a0");
    reveal_strlit("a1");
    reveal_strlit("a2");
    reveal_strlit("a3");
    reveal_strlit("a4");
    reveal_strlit("a5");
    reveal_strlit("a6");
    reveal_strlit("a7");
    reveal_strlit("s2");
    reveal_strlit("s3");
    reveal_strlit("s4");
    reveal_strlit("s5");
    reveal_strlit("s6");
    reveal_strlit("s7");
    reveal_strlit("s8");
    reveal_strlit("s9");
    reveal_strlit("s10");
    reveal_strlit("s11");
    reveal_strlit("t3");
    reveal_strlit("t4");
    reveal_strlit("t5");
    reveal_strlit("t6");
    let table = reg_file_spec();
    assert forall|i: int, j: int| 0 <= i < j < table.len() implies (#[trigger] table[i]).name@ != (
    #[trigger] table[j]).name@ by {
        let a = table[i].name@;
        let b = table[j].name@;
        if a.len() == b.len() {
            assert(a[0] != b[0] || a[1] != b[1] || (a.len() > 2 && a[2] != b[2]));
        }
    }
}

/// The names `fp` and `s0` stand for the same register, number 8.
pub proof fn lemma_frame_pointer_alias()
    ensures
        register_number("fp"@) == Some(8u32),
        register_number("s0"@) == Some(8u32),
{
    lemma_register_names_differ();
    let table = reg_file_spec();
    assert(table[8].name@ == "fp"@);
    assert(table[9].name@ == "s0"@);
    lemma_register_index(table, "fp"@, 0);
    lemma_register_index(table, "s0"@, 0);
    let fp = register_index(table, "fp"@, 0);
    let s0 = register_index(table, "s0"@, 0);
    assert(fp == Some(8int)) by {
        if fp is Some && fp->0 != 8 {
            assert(table[fp->0].name@ == table[8].name@);
        }
    }
    assert(s0 == Some(9int)) by {
        if s0 is Some && s0->0 != 9 {
            assert(table[s0->0].name@ == table[9].name@);
        }
    }
}

/// Looks a register up by its name.
pub fn find_register(name: &[char]) -> (number: Option<u32>)
    ensures
        number == register_number(name@),
{
    let table = reg_file();
    let mut i: usize = 0;
    while i < 33
        invariant
            i <= 33,
            table@ == reg_file_spec(),
            register_index(reg_file_spec(), name@, 0) == register_index(
                reg_file_spec(),
                name@,
                i as int,
            ),
        decreases 33 - i,
    {
        if str_is(table[i].name, name) {
            return Some(table[i].number);
        }
        i += 1;
    }
    None
}

} // verus!

//! The names of the general-purpose registers.

use vstd::prelude::*;
use vstd::string::*;

verus! {

/// One of the thirty-two general-purpose registers of the hart.
///
/// `X0` is the register that is hardwired to zero.
#[derive(Clone, Copy, Debug, PartialEq, Eq, Structural)]
pub enum Register {
    X0,
    X1,
    X2,
    X3,
    X4,
    X5,
    X6,
    X7,
    X8,
    X9,
    X10,
    X11,
    X12,
    X13,
    X14,
    X15,
    X16,
    X17,
    X18,
    X19,
    X20,
    X21,
    X22,
    X23,
    X24,
    X25,
    X26,
    X27,
    X28,
    X29,
    X30,
    X31,
}

impl Register {
    /// The number of the register, from 0 for `X0` to 31 for `X31`.
    pub open spec fn spec_index(self) -> usize {
        match self {
            Register::X0 => 0,
            Register::X1 => 1,
            Register::X2 => 2,
            Register::X3 => 3,
            Register::X4 => 4,
            Register::X5 => 5,
            Register::X6 => 6,
            Register::X7 => 7,
            Register::X8 => 8,
            Register::X9 => 9,
            Register::X10 => 10,
            Register::X11 => 11,
            Register::X12 => 12,
            Register::X13 => 13,
            Register::X14 => 14,
            Register::X15 => 15,
            Register::X16 => 16,
            Register::X17 => 17,
            Register::X18 => 18,
            Register::X19 => 19,
            Register::X20 => 20,
            Register::X21 => 21,
            Register::X22 => 22,
            Register::X23 => 23,
            Register::X24 => 24,
            Register::X25 => 25,
            Register::X26 => 26,
            Register::X27 => 27,
            Register::X28 => 28,
            Register::X29 => 29,
            Register::X30 => 30,
            Register::X31 => 31,
        }
    }

    /// The register whose number is `index`; meaningful for `0 <= index < 32`.
    pub open spec fn of(index: int) -> Register {
        if index == 0 {
            Register::X0
        } else if index == 1 {
            Register::X1
        } else if index == 2 {
            Register::X2
        } else if index == 3 {
            Register::X3
        } else if index == 4 {
            Register::X4
        } else if index == 5 {
            Register::X5
        } else if index == 6 {
            Register::X6
        } else if index == 7 {
            Register::X7
        } else if index == 8 {
            Register::X8
        } else if index == 9 {
            Register::X9
        } else if index == 10 {
            Register::X10
        } else if index == 11 {
            Register::X11
        } else if index == 12 {
            Register::X12
        } else if index == 13 {
            Register::X13
        } else if index == 14 {
            Register::X14
        } else if index == 15 {
            Register::X15
        } else if index == 16 {
            Register::X16
        } else if index == 17 {
            Register::X17
        } else if index == 18 {
            Register::X18
        } else if index == 19 {
            Register::X19
        } else if index == 20 {
            Register::X20
        } else if index == 21 {
            Register::X21
        } else if index == 22 {
            Register::X22
        } else if index == 23 {
            Register::X23
        } else if index == 24 {
            Register::X24
        } else if index == 25 {
            Register::X25
        } else if index == 26 {
            Register::X26
        } else if index == 27 {
            Register::X27
        } else if index == 28 {
            Register::X28
        } else if index == 29 {
            Register::X29
        } else if index == 30 {
            Register::X30
        } else {
            Register::X31
        }
    }

    /// Numbering the registers and naming them by number are inverse to each other.
    pub proof fn lemma_index_of(self)
        ensures
            0 <= self.spec_index() < 32,
            Register::of(self.spec_index() as int) == self,
    {
    }

    /// Every number from 0 to 31 names the register that carries it.
    pub proof fn lemma_of_index(index: int)
        requires
            0 <= index < 32,
        ensures
            Register::of(index).spec_index() == index,
    {
    }

    /// Returns the number of the register.
    #[verifier::when_used_as_spec(spec_index)]
    pub fn index(self) -> (index: usize)
        ensures
            index == self.spec_index(),
            index < 32,
    {
        match self {
            Register::X0 => 0,
            Register::X1 => 1,
            Register::X2 => 2,
            Register::X3 => 3,
            Register::X4 => 4,
            Register::X5 => 5,
            Register::X6 => 6,
            Register::X7 => 7,
            Register::X8 => 8,
            Register::X9 => 9,
            Register::X10 => 10,
            Register::X11 => 11,
            Register::X12 => 12,
            Register::X13 => 13,
            Register::X14 => 14,
            Register::X15 => 15,
            Register::X16 => 16,
            Register::X17 => 17,
            Register::X18 => 18,
            Register::X19 => 19,
            Register::X20 => 20,
            Register::X21 => 21,
            Register::X22 => 22,
            Register::X23 => 23,
            Register::X24 => 24,
            Register::X25 => 25,
            Register::X26 => 26,
            Register::X27 => 27,
            Register::X28 => 28,
            Register::X29 => 29,
            Register::X30 => 30,
            Register::X31 => 31,
        }
    }

    /// Returns the register with the given number, or `None` when the number
    /// is not below 32.
    pub fn from_index(index: usize) -> (register: Option<Register>)
        ensures
            index < 32 ==> register == Some(Register::of(index as int)),
            index >= 32 ==> register is None,
    {
        match index {
            0 => Some(Register::X0),
            1 => Some(Register::X1),
            2 => Some(Register::X2),
            3 => Some(Register::X3),
            4 => Some(Register::X4),
            5 => Some(Register::X5),
            6 => Some(Register::X6),
            7 => Some(Register::X7),
            8 => Some(Register::X8),
            9 => Some(Register::X9),
            10 => Some(Register::X10),
            11 => Some(Register::X11),
            12 => Some(Register::X12),
            13 => Some(Register::X13),
            14 => Some(Register::X14),
            15 => Some(Register::X15),
            16 => Some(Register::X16),
            17 => Some(Register::X17),
            18 => Some(Register::X18),
            19 => Some(Register::X19),
            20 => Some(Register::X20),
            21 => Some(Register::X21),
            22 => Some(Register::X22),
            23 => Some(Register::X23),
            24 => Some(Register::X24),
            25 => Some(Register::X25),
            26 => Some(Register::X26),
            27 => Some(Register::X27),
            28 => Some(Register::X28),
            29 => Some(Register::X29),
            30 => Some(Register::X30),
            31 => Some(Register::X31),
            _ => None,
        }
    }

    /// The name that the calling convention gives the register.
    pub open spec fn spec_abi_name(self) -> Seq<char> {
        match self {
            Register::X0 => "zero"@,
            Register::X1 => "ra"@,
            Register::X2 => "sp"@,
            Register::X3 => "gp"@,
            Register::X4 => "tp"@,
            Register::X5 => "t0"@,
            Register::X6 => "t1"@,
            Register::X7 => "t2"@,
            Register::X8 => "s0"@,
            Register::X9 => "s1"@,
            Register::X10 => "a0"@,
            Register::X11 => "a1"@,
            Register::X12 => "a2"@,
            Register::X13 => "a3"@,
            Register::X14 => "a4"@,
            Register::X15 => "a5"@,
            Register::X16 => "a6"@,
            Register::X17 => "a7"@,
            Register::X18 => "s2"@,
            Register::X19 => "s3"@,
            Register::X20 => "s4"@,
            Register::X21 => "s5"@,
            Register::X22 => "s6"@,
            Register::X23 => "s7"@,
            Register::X24 => "s8"@,
            Register::X25 => "s9"@,
            Register::X26 => "s10"@,
            Register::X27 => "s11"@,
            Register::X28 => "t3"@,
            Register::X29 => "t4"@,
            Register::X30 => "t5"@,
            Register::X31 => "t6"@,
        }
    }

    /// Returns the name that the calling convention gives the register, which
    /// is made of ASCII letters and digits.
    pub fn abi_name(self) -> (name: &'static str)
        ensures
            name@ == self.spec_abi_name(),
            name.is_ascii(),
    {
        proof {
            reveal_strlit("zero");
            reveal_strlit("ra");
            reveal_strlit("sp");
            reveal_strlit("gp");
            reveal_strlit("tp");
            reveal_strlit("t0");
            reveal_strlit("t1");
            reveal_strlit("t2");
            reveal_strlit("s0");
            reveal_strlit("s1");
            reveal_strlit("a0");
            reveal_strlit("a1");
            reveal_strlit("a2");
            reveal_strlit("a3");
            reveal_strlit("a4");
            reveal_strlit("a5");
            reveal_strlit("a6");
            reveal_strlit("a7");
            reveal_strlit("s2");
            reveal_strlit("s3");
            reveal_strlit("s4");
            reveal_strlit("s5");
            reveal_strlit("s6");
            reveal_strlit("s7");
            reveal_strlit("s8");
            reveal_strlit("s9");
            reveal_strlit("s10");
            reveal_strlit("s11");
            reveal_strlit("t3");
            reveal_strlit("t4");
            reveal_strlit("t5");
            reveal_strlit("t6");
        }
        match self {
            Register::X0 => "zero",
            Register::X1 => "ra",
            Register::X2 => "sp",
            Register::X3 => "gp",
            Register::X4 => "tp",
            Register::X5 => "t0",
            Register::X6 => "t1",
            Register::X7 => "t2",
            Register::X8 => "s0",
            Register::X9 => "s1",
            Register::X10 => "a0",
            Register::X11 => "a1",
            Register::X12 => "a2",
            Register::X13 => "a3",
            Register::X14 => "a4",
            Register::X15 => "a5",
            Register::X16 => "a6",
            Register::X17 => "a7",
            Register::X18 => "s2",
            Register::X19 => "s3",
            Register::X20 => "s4",
            Register::X21 => "s5",
            Register::X22 => "s6",
            Register::X23 => "s7",
            Register::X24 => "s8",
            Register::X25 => "s9",
            Register::X26 => "s10",
            Register::X27 => "s11",
            Register::X28 => "t3",
            Register::X29 => "t4",
            Register::X30 => "t5",
            Register::X31 => "t6",
        }
    }
}

} // verus!

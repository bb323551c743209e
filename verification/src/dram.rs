//! The memory: a little-endian array of bytes with accesses of 8, 16, 32
//! and 64 bits.

use crate::bus::DRAM_BASE;
use crate::exception::Exception;
use vstd::prelude::*;

verus! {

/// Size of the memory in bytes: 128 MiB.
pub const DRAM_SIZE: u64 = 0x800_0000;

/// The number of bytes that an access of `size` bits moves, for the four
/// widths that the memory supports.
pub open spec fn access_bytes(size: u64) -> Option<nat> {
    if size == 8 {
        Some(1)
    } else if size == 16 {
        Some(2)
    } else if size == 32 {
        Some(4)
    } else if size == 64 {
        Some(8)
    } else {
        None
    }
}

/// Whether the `count` bytes from address `addr` on all lie in the memory
/// window, which starts at `DRAM_BASE` and holds `DRAM_SIZE` bytes.
pub open spec fn in_window(addr: u64, count: nat) -> bool {
    DRAM_BASE <= addr && addr + count <= DRAM_BASE + DRAM_SIZE
}

/// The number that the `count` bytes of `mem` from position `at` on stand
/// for, least significant byte first.
pub open spec fn le_value(mem: Seq<u8>, at: int, count: nat) -> nat
    decreases count,
{
    if count == 0 {
        0
    } else {
        mem[at] as nat + 256 * le_value(mem, at + 1, (count - 1) as nat)
    }
}

/// Byte number `k` of `value`, counted from the least significant one:
/// `value / 256^k mod 256`.
pub open spec fn le_byte(value: u64, k: nat) -> u8
    decreases k,
{
    if k == 0 {
        (value % 256) as u8
    } else {
        le_byte(value / 256, (k - 1) as nat)
    }
}

/// `mem` with the `count` bytes from position `at` on replaced by the low
/// `count` bytes of `value`, least significant byte first.
pub open spec fn le_write(mem: Seq<u8>, at: int, count: nat, value: u64) -> Seq<u8> {
    Seq::new(
        mem.len(),
        |i: int|
            if at <= i < at + count {
                le_byte(value, (i - at) as nat)
            } else {
                mem[i]
            },
    )
}

/// The contents of a memory that was just loaded with the program image
/// `code`: the image from position 0 on, and zero in every byte behind it.
pub open spec fn image(code: Seq<u8>) -> Seq<u8> {
    Seq::new(
        DRAM_SIZE as nat,
        |i: int|
            if i < code.len() {
                code[i]
            } else {
                0u8
            },
    )
}

/// What a load of `size` bits at address `addr` returns from a memory that
/// holds `mem`.
///
/// A width that is not supported is refused first, then an access that
/// leaves the window. Otherwise the bytes read are zero-extended to 64 bits.
pub open spec fn dram_load(mem: Seq<u8>, addr: u64, size: u64) -> Result<u64, Exception> {
    match access_bytes(size) {
        None => Err(Exception::BadSize),
        Some(count) => if in_window(addr, count) {
            Ok(le_value(mem, addr - DRAM_BASE, count) as u64)
        } else {
            Err(Exception::OutOfBounds)
        },
    }
}

/// What a memory that holds `mem` holds after a store of the low `size`
/// bits of `value` at address `addr`, or the reason why the store is
/// refused. The bits of `value` above `size` play no part.
pub open spec fn dram_store(mem: Seq<u8>, addr: u64, size: u64, value: u64) -> Result<
    Seq<u8>,
    Exception,
> {
    match access_bytes(size) {
        None => Err(Exception::BadSize),
        Some(count) => if in_window(addr, count) {
            Ok(le_write(mem, addr - DRAM_BASE, count, value))
        } else {
            Err(Exception::OutOfBounds)
        },
    }
}

/// The bit operations by which bytes are taken out of a word agree with
/// division and remainder.
pub proof fn lemma_split_bytes(v: u64)
    by (bit_vector)
    ensures
        v & 0xff == v % 256,
        (v >> 8) & 0xff == (v / 256) % 256,
        (v >> 16) & 0xff == ((v / 256) / 256) % 256,
        (v >> 24) & 0xff == (((v / 256) / 256) / 256) % 256,
        (v >> 32) & 0xff == ((((v / 256) / 256) / 256) / 256) % 256,
        (v >> 40) & 0xff == (((((v / 256) / 256) / 256) / 256) / 256) % 256,
        (v >> 48) & 0xff == ((((((v / 256) / 256) / 256) / 256) / 256) / 256) % 256,
        (v >> 56) & 0xff == (((((((v / 256) / 256) / 256) / 256) / 256) / 256) / 256) % 256,
{
}

/// Bytes put side by side with shifts and `|` make the same number as the sum
/// of the bytes, each times its power of 256.
proof fn lemma_join_bytes(b0: u8, b1: u8, b2: u8, b3: u8, b4: u8, b5: u8, b6: u8, b7: u8)
    by (bit_vector)
    ensures
        (b0 as u64) | ((b1 as u64) << 8) == b0 + 256 * b1,
        (b0 as u64) | ((b1 as u64) << 8) | ((b2 as u64) << 16) | ((b3 as u64) << 24) == b0 + 256
            * (b1 + 256 * (b2 + 256 * b3)),
        (b0 as u64) | ((b1 as u64) << 8) | ((b2 as u64) << 16) | ((b3 as u64) << 24) | ((b4 as u64)
            << 32) | ((b5 as u64) << 40) | ((b6 as u64) << 48) | ((b7 as u64) << 56) == b0 + 256 * (
        b1 + 256 * (b2 + 256 * (b3 + 256 * (b4 + 256 * (b5 + 256 * (b6 + 256 * b7)))))),
{
}

/// The memory: `DRAM_SIZE` bytes, mapped from address `DRAM_BASE` on, that
/// hold every number least significant byte first.
#[derive(Debug)]
pub struct Dram {
    dram: Vec<u8>,
}

impl View for Dram {
    type V = Seq<u8>;

    /// The bytes of the memory, in the order of their addresses.
    closed spec fn view(&self) -> Seq<u8> {
        self.dram@
    }
}

impl Dram {
    #[verifier::type_invariant]
    spec fn well_formed(&self) -> bool {
        self.dram@.len() == DRAM_SIZE
    }

    /// Makes a memory that holds the program image `code` at its start and
    /// zero behind it.
    pub fn new(code: Vec<u8>) -> (dram: Dram)
        requires
            code@.len() <= DRAM_SIZE,
        ensures
            dram@ == image(code@),
    {
        let mut dram: Vec<u8> = vec![0u8; DRAM_SIZE as usize];
        let mut i: usize = 0;
        while i < code.len()
            invariant
                i <= code@.len() <= DRAM_SIZE,
                dram@.len() == DRAM_SIZE,
                forall|j: int| 0 <= j < i ==> dram@[j] == code@[j],
                forall|j: int| i <= j < DRAM_SIZE ==> dram@[j] == 0u8,
            decreases code@.len() - i,
        {
            dram[i] = code[i];
            i += 1;
        }
        assert(dram@ =~= image(code@));
        Dram { dram }
    }

    /// Reads `size` bits at address `addr`, least significant byte first,
    /// and returns them zero-extended.
    pub fn load(&self, addr: u64, size: u64) -> (result: Result<u64, Exception>)
        ensures
            result == dram_load(self@, addr, size),
            self@.len() == DRAM_SIZE,
    {
        proof {
            use_type_invariant(self);
        }
        match size {
            8 => if Self::reaches(addr, 1) {
                Ok(self.load8(addr))
            } else {
                Err(Exception::OutOfBounds)
            },
            16 => if Self::reaches(addr, 2) {
                Ok(self.load16(addr))
            } else {
                Err(Exception::OutOfBounds)
            },
            32 => if Self::reaches(addr, 4) {
                Ok(self.load32(addr))
            } else {
                Err(Exception::OutOfBounds)
            },
            64 => if Self::reaches(addr, 8) {
                Ok(self.load64(addr))
            } else {
                Err(Exception::OutOfBounds)
            },
            _ => Err(Exception::BadSize),
        }
    }

    /// Writes the low `size` bits of `value` at address `addr`, least
    /// significant byte first. A store that is refused changes nothing.
    pub fn store(&mut self, addr: u64, size: u64, value: u64) -> (result: Result<(), Exception>)
        ensures
            match dram_store(old(self)@, addr, size, value) {
                Ok(mem) => result is Ok && final(self)@ == mem,
                Err(exception) => result == Err::<(), Exception>(exception) && final(self)@ == old(
                    self,
                )@,
            },
            final(self)@.len() == DRAM_SIZE,
        no_unwind
    {
        proof {
            use_type_invariant(&*self);
        }
        match size {
            8 => if Self::reaches(addr, 1) {
                Ok(self.store8(addr, value))
            } else {
                Err(Exception::OutOfBounds)
            },
            16 => if Self::reaches(addr, 2) {
                Ok(self.store16(addr, value))
            } else {
                Err(Exception::OutOfBounds)
            },
            32 => if Self::reaches(addr, 4) {
                Ok(self.store32(addr, value))
            } else {
                Err(Exception::OutOfBounds)
            },
            64 => if Self::reaches(addr, 8) {
                Ok(self.store64(addr, value))
            } else {
                Err(Exception::OutOfBounds)
            },
            _ => Err(Exception::BadSize),
        }
    }

    /// Tells whether `count` bytes from `addr` on lie in the window.
    fn reaches(addr: u64, count: u64) -> (inside: bool)
        requires
            count <= 8,
        ensures
            inside == in_window(addr, count as nat),
        no_unwind
    {
        addr >= DRAM_BASE && addr - DRAM_BASE <= DRAM_SIZE - count
    }

    /// Reads the byte at `addr`.
    fn load8(&self, addr: u64) -> (value: u64)
        requires
            in_window(addr, 1),
        ensures
            value == le_value(self@, addr - DRAM_BASE, 1),
    {
        proof {
            use_type_invariant(self);
            reveal_with_fuel(le_value, 2);
        }
        let addr: usize = (addr - DRAM_BASE) as usize;
        self.dram[addr] as u64
    }

    /// Reads the two bytes from `addr` on.
    fn load16(&self, addr: u64) -> (value: u64)
        requires
            in_window(addr, 2),
        ensures
            value == le_value(self@, addr - DRAM_BASE, 2),
    {
        proof {
            use_type_invariant(self);
            reveal_with_fuel(le_value, 3);
        }
        let addr: usize = (addr - DRAM_BASE) as usize;
        let b0: u8 = self.dram[addr];
        let b1: u8 = self.dram[addr + 1];
        proof {
            lemma_join_bytes(b0, b1, 0, 0, 0, 0, 0, 0);
        }
        b0 as u64 | ((b1 as u64) << 8)
    }

    /// Reads the four bytes from `addr` on.
    fn load32(&self, addr: u64) -> (value: u64)
        requires
            in_window(addr, 4),
        ensures
            value == le_value(self@, addr - DRAM_BASE, 4),
    {
        proof {
            use_type_invariant(self);
            reveal_with_fuel(le_value, 5);
        }
        let addr: usize = (addr - DRAM_BASE) as usize;
        let b0: u8 = self.dram[addr];
        let b1: u8 = self.dram[addr + 1];
        let b2: u8 = self.dram[addr + 2];
        let b3: u8 = self.dram[addr + 3];
        proof {
            lemma_join_bytes(b0, b1, b2, b3, 0, 0, 0, 0);
        }
        b0 as u64 | ((b1 as u64) << 8) | ((b2 as u64) << 16) | ((b3 as u64) << 24)
    }

    /// Reads the eight bytes from `addr` on.
    fn load64(&self, addr: u64) -> (value: u64)
        requires
            in_window(addr, 8),
        ensures
            value == le_value(self@, addr - DRAM_BASE, 8),
    {
        proof {
            use_type_invariant(self);
            reveal_with_fuel(le_value, 9);
        }
        let addr: usize = (addr - DRAM_BASE) as usize;
        let b0: u8 = self.dram[addr];
        let b1: u8 = self.dram[addr + 1];
        let b2: u8 = self.dram[addr + 2];
        let b3: u8 = self.dram[addr + 3];
        let b4: u8 = self.dram[addr + 4];
        let b5: u8 = self.dram[addr + 5];
        let b6: u8 = self.dram[addr + 6];
        let b7: u8 = self.dram[addr + 7];
        proof {
            lemma_join_bytes(b0, b1, b2, b3, b4, b5, b6, b7);
        }
        b0 as u64 | ((b1 as u64) << 8) | ((b2 as u64) << 16) | ((b3 as u64) << 24) | ((b4 as u64)
            << 32) | ((b5 as u64) << 40) | ((b6 as u64) << 48) | ((b7 as u64) << 56)
    }

    /// Writes the low byte of `value` at `addr`.
    fn store8(&mut self, addr: u64, value: u64)
        requires
            in_window(addr, 1),
        ensures
            final(self)@ == le_write(old(self)@, addr - DRAM_BASE, 1, value),
        no_unwind
    {
        proof {
            use_type_invariant(&*self);
            lemma_split_bytes(value);
            reveal_with_fuel(le_byte, 2);
        }
        let addr: usize = (addr - DRAM_BASE) as usize;
        self.dram[addr] = (value & 0xff) as u8;
        assert(self.dram@ =~= le_write(old(self)@, addr as int, 1, value));
    }

    /// Writes the low two bytes of `value` from `addr` on.
    fn store16(&mut self, addr: u64, value: u64)
        requires
            in_window(addr, 2),
        ensures
            final(self)@ == le_write(old(self)@, addr - DRAM_BASE, 2, value),
        no_unwind
    {
        proof {
            use_type_invariant(&*self);
            lemma_split_bytes(value);
            reveal_with_fuel(le_byte, 3);
        }
        let addr: usize = (addr - DRAM_BASE) as usize;
        self.dram[addr] = (value & 0xff) as u8;
        self.dram[addr + 1] = ((value >> 8) & 0xff) as u8;
        assert(self.dram@ =~= le_write(old(self)@, addr as int, 2, value));
    }

    /// Writes the low four bytes of `value` from `addr` on.
    fn store32(&mut self, addr: u64, value: u64)
        requires
            in_window(addr, 4),
        ensures
            final(self)@ == le_write(old(self)@, addr - DRAM_BASE, 4, value),
        no_unwind
    {
        proof {
            use_type_invariant(&*self);
            lemma_split_bytes(value);
            reveal_with_fuel(le_byte, 5);
        }
        let addr: usize = (addr - DRAM_BASE) as usize;
        self.dram[addr] = (value & 0xff) as u8;
        self.dram[addr + 1] = ((value >> 8) & 0xff) as u8;
        self.dram[addr + 2] = ((value >> 16) & 0xff) as u8;
        self.dram[addr + 3] = ((value >> 24) & 0xff) as u8;
        assert(self.dram@ =~= le_write(old(self)@, addr as int, 4, value));
    }

    /// Writes the eight bytes of `value` from `addr` on.
    fn store64(&mut self, addr: u64, value: u64)
        requires
            in_window(addr, 8),
        ensures
            final(self)@ == le_write(old(self)@, addr - DRAM_BASE, 8, value),
        no_unwind
    {
        proof {
            use_type_invariant(&*self);
            lemma_split_bytes(value);
            reveal_with_fuel(le_byte, 9);
        }
        let addr: usize = (addr - DRAM_BASE) as usize;
        self.dram[addr] = (value & 0xff) as u8;
        self.dram[addr + 1] = ((value >> 8) & 0xff) as u8;
        self.dram[addr + 2] = ((value >> 16) & 0xff) as u8;
        self.dram[addr + 3] = ((value >> 24) & 0xff) as u8;
        self.dram[addr + 4] = ((value >> 32) & 0xff) as u8;
        self.dram[addr + 5] = ((value >> 40) & 0xff) as u8;
        self.dram[addr + 6] = ((value >> 48) & 0xff) as u8;
        self.dram[addr + 7] = ((value >> 56) & 0xff) as u8;
        assert(self.dram@ =~= le_write(old(self)@, addr as int, 8, value));
    }
}

} // verus!

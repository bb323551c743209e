//! The bus: the single address space of the hart, which today holds nothing
//! but the memory.

use crate::dram::{dram_load, dram_store, image, Dram, DRAM_SIZE};
use crate::exception::Exception;
use vstd::prelude::*;

verus! {

/// The address at which the memory starts.
pub const DRAM_BASE: u64 = 0x8000_0000;

/// What a load of `size` bits at address `addr` returns when it goes through
/// the bus to a memory that holds `mem`: an address below the memory is not
/// mapped; every other access is the memory's to answer.
pub open spec fn bus_load(mem: Seq<u8>, addr: u64, size: u64) -> Result<u64, Exception> {
    if addr < DRAM_BASE {
        Err(Exception::Unmapped)
    } else {
        dram_load(mem, addr, size)
    }
}

/// What the memory behind the bus holds after a store of the low `size` bits
/// of `value` at address `addr`, or the reason why the store is refused.
pub open spec fn bus_store(mem: Seq<u8>, addr: u64, size: u64, value: u64) -> Result<
    Seq<u8>,
    Exception,
> {
    if addr < DRAM_BASE {
        Err(Exception::Unmapped)
    } else {
        dram_store(mem, addr, size, value)
    }
}

/// The single address space of the hart. All of it that is mapped is the
/// memory.
pub struct Bus {
    dram: Dram,
}

impl View for Bus {
    type V = Seq<u8>;

    /// The bytes of the memory behind the bus.
    closed spec fn view(&self) -> Seq<u8> {
        self.dram@
    }
}

impl Bus {
    #[verifier::type_invariant]
    spec fn well_formed(&self) -> bool {
        self.dram@.len() == DRAM_SIZE
    }

    /// Makes a bus whose memory holds the program image `code`.
    pub fn new(code: Vec<u8>) -> (bus: Bus)
        requires
            code@.len() <= DRAM_SIZE,
        ensures
            bus@ == image(code@),
    {
        Self { dram: Dram::new(code) }
    }

    /// Reads `size` bits at address `addr`.
    pub fn load(&self, addr: u64, size: u64) -> (result: Result<u64, Exception>)
        ensures
            result == bus_load(self@, addr, size),
            self@.len() == DRAM_SIZE,
    {
        proof {
            use_type_invariant(self);
        }
        if addr < DRAM_BASE {
            return Err(Exception::Unmapped);
        }
        return self.dram.load(addr, size);
    }

    /// Writes the low `size` bits of `value` at address `addr`. A store that
    /// is refused changes nothing.
    pub fn store(&mut self, addr: u64, size: u64, value: u64) -> (result: Result<(), Exception>)
        ensures
            match bus_store(old(self)@, addr, size, value) {
                Ok(mem) => result is Ok && final(self)@ == mem,
                Err(exception) => result == Err::<(), Exception>(exception) && final(self)@ == old(
                    self,
                )@,
            },
            final(self)@.len() == DRAM_SIZE,
        no_unwind
    {
        proof {
            use_type_invariant(&*self);
        }
        if addr >= DRAM_BASE {
            return self.dram.store(addr, size, value);
        }
        Err(Exception::Unmapped)
    }
}

} // verus!

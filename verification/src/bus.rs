//! The memory bus: byte-addressed, little-endian, fallible per access.

use vstd::prelude::*;

verus! {

/// How many bytes one access moves.
#[derive(Clone, Copy, Debug, PartialEq, Eq, Structural)]
pub enum AccessWidth {
    Byte,
    Half,
    Word,
}

impl AccessWidth {
    /// The number of bytes of the access: 1, 2 or 4.
    pub open spec fn bytes(self) -> int {
        match self {
            AccessWidth::Byte => 1,
            AccessWidth::Half => 2,
            AccessWidth::Word => 4,
        }
    }
}

/// Why the bus refused an access.
#[derive(Clone, Copy, Debug, PartialEq, Eq, Structural)]
pub enum BusError {
    /// The address is not a multiple of the access width.
    Misaligned,
    /// One of the addressed bytes is backed by nothing.
    Unmapped,
}

/// Every byte of the access is backed by memory.
pub open spec fn mapped(mem: Map<int, u8>, address: u32, width: AccessWidth) -> bool {
    forall|a: int| address <= a < address + width.bytes() ==> mem.contains_key(a)
}

/// The reason for which an access of `width` bytes at `address` is refused,
/// if it is. Alignment is checked first.
pub open spec fn access_fault(mem: Map<int, u8>, address: u32, width: AccessWidth) -> Option<
    BusError,
> {
    if address as int % width.bytes() != 0 {
        Some(BusError::Misaligned)
    } else if !mapped(mem, address, width) {
        Some(BusError::Unmapped)
    } else {
        None
    }
}

/// The unsigned value of the `width` bytes that start at `address`, the
/// byte at the lowest address being the least significant.
pub open spec fn stored_value(mem: Map<int, u8>, address: int, width: AccessWidth) -> u32 {
    match width {
        AccessWidth::Byte => mem[address] as u32,
        AccessWidth::Half => (mem[address] + 0x100 * mem[address + 1]) as u32,
        AccessWidth::Word => (mem[address] + 0x100 * mem[address + 1] + 0x1_0000 * mem[address
            + 2] + 0x100_0000 * mem[address + 3]) as u32,
    }
}

/// `mem` after the low-order `width` bytes of `value` were put at `address`,
/// least significant byte first.
pub open spec fn store_value(mem: Map<int, u8>, address: int, width: AccessWidth, value: u32) -> Map<
    int,
    u8,
> {
    let b0 = (value % 0x100) as u8;
    let b1 = (value / 0x100 % 0x100) as u8;
    let b2 = (value / 0x1_0000 % 0x100) as u8;
    let b3 = (value / 0x100_0000 % 0x100) as u8;
    match width {
        AccessWidth::Byte => mem.insert(address, b0),
        AccessWidth::Half => mem.insert(address, b0).insert(address + 1, b1),
        AccessWidth::Word => mem.insert(address, b0).insert(address + 1, b1).insert(
            address + 2,
            b2,
        ).insert(address + 3, b3),
    }
}

/// What a read of `width` bytes at `address` gives.
pub open spec fn load(mem: Map<int, u8>, address: u32, width: AccessWidth) -> Result<u32, BusError> {
    match access_fault(mem, address, width) {
        Some(error) => Err(error),
        None => Ok(stored_value(mem, address as int, width)),
    }
}

/// What a write of the low-order `width` bytes of `value` at `address`
/// leaves in memory.
pub open spec fn store(mem: Map<int, u8>, address: u32, width: AccessWidth, value: u32) -> Result<
    Map<int, u8>,
    BusError,
> {
    match access_fault(mem, address, width) {
        Some(error) => Err(error),
        None => Ok(store_value(mem, address as int, width, value)),
    }
}

/// The memory of a bus that backs `size` bytes from `base` on with zeroes.
/// Nothing is backed beyond the end of the 32-bit address space.
pub open spec fn zeroed(base: u32, size: usize) -> Map<int, u8> {
    Map::new(|a: int| base <= a < base + size && a <= u32::MAX, |a: int| 0u8)
}

/// A bus with one region of RAM on it. An access must be aligned to its
/// width and lie wholly inside the region.
#[derive(Debug)]
pub struct Bus {
    base: u32,
    ram: Vec<u8>,
}

impl View for Bus {
    type V = Map<int, u8>;

    /// The byte behind each backed address.
    closed spec fn view(&self) -> Map<int, u8> {
        Map::new(
            |a: int| self.base <= a < self.base + self.ram@.len() && a <= u32::MAX,
            |a: int| self.ram@[a - self.base],
        )
    }
}

impl Bus {
    /// A bus whose RAM backs the `size` addresses from `base` on, all bytes
    /// zero.
    pub fn new(base: u32, size: usize) -> (bus: Self)
        ensures
            bus@ == zeroed(base, size),
    {
        let bus = Bus { base, ram: vec![0u8; size] };
        assert(bus@ =~= zeroed(base, size));
        bus
    }

    /// Where in the RAM the first byte of an access lies.
    fn locate(&self, address: u32, width: AccessWidth) -> (place: Result<usize, BusError>)
        ensures
            match access_fault(self@, address, width) {
                Some(error) => place == Err::<usize, BusError>(error),
                None => place matches Ok(offset) && offset == address - self.base && offset
                    + width.bytes() <= self.ram.len(),
            },
    {
        let size: u32 = match width {
            AccessWidth::Byte => 1,
            AccessWidth::Half => 2,
            AccessWidth::Word => 4,
        };
        if address % size != 0 {
            return Err(BusError::Misaligned);
        }
        if address < self.base {
            assert(!self@.contains_key(address as int));
            return Err(BusError::Unmapped);
        }
        let offset = (address - self.base) as usize;
        if offset >= self.ram.len() {
            assert(!self@.contains_key(address as int));
            return Err(BusError::Unmapped);
        }
        if self.ram.len() - offset < size as usize {
            assert(!self@.contains_key(address + size - 1));
            return Err(BusError::Unmapped);
        }
        Ok(offset)
    }

    /// Reads the byte at `address`.
    pub fn read8(&self, address: u32) -> (data: Result<u8, BusError>)
        ensures
            match load(self@, address, AccessWidth::Byte) {
                Ok(value) => data == Ok::<u8, BusError>(value as u8) && value <= u8::MAX,
                Err(error) => data == Err::<u8, BusError>(error),
            },
    {
        match self.locate(address, AccessWidth::Byte) {
            Ok(offset) => Ok(self.ram[offset]),
            Err(error) => Err(error),
        }
    }

    /// Reads the half-word at `address`.
    pub fn read16(&self, address: u32) -> (data: Result<u16, BusError>)
        ensures
            match load(self@, address, AccessWidth::Half) {
                Ok(value) => data == Ok::<u16, BusError>(value as u16) && value <= u16::MAX,
                Err(error) => data == Err::<u16, BusError>(error),
            },
    {
        match self.locate(address, AccessWidth::Half) {
            Ok(offset) => {
                let b0 = self.ram[offset];
                let b1 = self.ram[offset + 1];
                assert(self@.contains_key(address as int) && self@.contains_key(address + 1));
                assert((b0 as u16 | (b1 as u16) << 8) == b0 + 0x100 * b1) by (bit_vector);
                Ok(b0 as u16 | (b1 as u16) << 8)
            },
            Err(error) => Err(error),
        }
    }

    /// Reads the word at `address`.
    pub fn read32(&self, address: u32) -> (data: Result<u32, BusError>)
        ensures
            data == load(self@, address, AccessWidth::Word),
    {
        match self.locate(address, AccessWidth::Word) {
            Ok(offset) => {
                let b0 = self.ram[offset];
                let b1 = self.ram[offset + 1];
                let b2 = self.ram[offset + 2];
                let b3 = self.ram[offset + 3];
                assert(self@.contains_key(address as int) && self@.contains_key(address + 1));
                assert(self@.contains_key(address + 2) && self@.contains_key(address + 3));
                assert((b0 as u32 | (b1 as u32) << 8 | (b2 as u32) << 16 | (b3 as u32) << 24) == b0
                    + 0x100 * b1 + 0x1_0000 * b2 + 0x100_0000 * b3) by (bit_vector);
                Ok(b0 as u32 | (b1 as u32) << 8 | (b2 as u32) << 16 | (b3 as u32) << 24)
            },
            Err(error) => Err(error),
        }
    }

    /// Writes `value` to the byte at `address`. A refused write changes
    /// nothing.
    pub fn write8(&mut self, address: u32, value: u8) -> (done: Result<(), BusError>)
        ensures
            match store(old(self)@, address, AccessWidth::Byte, value as u32) {
                Ok(mem) => done is Ok && final(self)@ == mem,
                Err(error) => done == Err::<(), BusError>(error) && final(self)@ == old(self)@,
            },
    {
        match self.locate(address, AccessWidth::Byte) {
            Ok(offset) => {
                self.ram[offset] = value;
                assert(self@ =~= store_value(old(self)@, address as int, AccessWidth::Byte, value as u32));
                Ok(())
            },
            Err(error) => Err(error),
        }
    }

    /// Writes `value` to the half-word at `address`. A refused write changes
    /// nothing.
    pub fn write16(&mut self, address: u32, value: u16) -> (done: Result<(), BusError>)
        ensures
            match store(old(self)@, address, AccessWidth::Half, value as u32) {
                Ok(mem) => done is Ok && final(self)@ == mem,
                Err(error) => done == Err::<(), BusError>(error) && final(self)@ == old(self)@,
            },
    {
        match self.locate(address, AccessWidth::Half) {
            Ok(offset) => {
                assert(value as u8 == value % 0x100 && (value >> 8) as u8 == value / 0x100 % 0x100)
                    by (bit_vector);
                self.ram[offset] = #[verifier::truncate] (value as u8);
                self.ram[offset + 1] = (value >> 8) as u8;
                assert(self@ =~= store_value(old(self)@, address as int, AccessWidth::Half, value as u32));
                Ok(())
            },
            Err(error) => Err(error),
        }
    }

    /// Writes `value` to the word at `address`. A refused write changes
    /// nothing.
    pub fn write32(&mut self, address: u32, value: u32) -> (done: Result<(), BusError>)
        ensures
            match store(old(self)@, address, AccessWidth::Word, value) {
                Ok(mem) => done is Ok && final(self)@ == mem,
                Err(error) => done == Err::<(), BusError>(error) && final(self)@ == old(self)@,
            },
    {
        match self.locate(address, AccessWidth::Word) {
            Ok(offset) => {
                assert(value as u8 == value % 0x100 && (value >> 8) as u8 == value / 0x100 % 0x100
                    && (value >> 16) as u8 == value / 0x1_0000 % 0x100 && (value >> 24) as u8
                    == value / 0x100_0000 % 0x100) by (bit_vector);
                self.ram[offset] = #[verifier::truncate] (value as u8);
                self.ram[offset + 1] = #[verifier::truncate] ((value >> 8) as u8);
                self.ram[offset + 2] = #[verifier::truncate] ((value >> 16) as u8);
                self.ram[offset + 3] = (value >> 24) as u8;
                assert(self@ =~= store_value(old(self)@, address as int, AccessWidth::Word, value));
                Ok(())
            },
            Err(error) => Err(error),
        }
    }
}

} // verus!

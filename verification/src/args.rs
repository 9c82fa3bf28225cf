//! Arguments of an instruction, read one after another from its data.
use vstd::prelude::*;

use crate::address::Address;
use crate::bytes::{
    address_at, bool_byte, le_value, read_address, read_array_10, read_array_200, read_le, read_u16,
    read_u32, read_u64, u16_at, u32_at, u64_at, unwrap_32, wrapped_32,
};
use crate::error::ProgramError;
use crate::ownership_token::state::BatchDestination;

verus! {

/// A place in an instruction's data.
#[derive(Debug, PartialEq, Eq)]
pub struct ArgReader {
    pub data: Vec<u8>,
    /// Where the next argument starts.
    pub offset: usize,
}

impl ArgReader {
    /// Whether `width` more bytes are there.
    pub open spec fn has(&self, width: int) -> bool {
        self.offset + width <= self.data@.len()
    }

    /// Whether `after` stands behind an argument of `width` bytes that starts here.
    pub open spec fn passed(&self, after: ArgReader, width: int) -> bool {
        after.data == self.data && after.offset == self.offset + width
    }

    /// Starts reading `data` behind `offset` bytes.
    pub fn new(data: Vec<u8>, offset: usize) -> (reader: ArgReader)
        ensures
            reader.data == data,
            reader.offset == offset,
    {
        ArgReader { data, offset }
    }

    /// Moves behind an argument of `width` bytes, and says where it starts.
    fn advance(&mut self, width: usize) -> (r: Result<usize, ProgramError>)
        ensures
            match r {
                Ok(at) => old(self).has(width as int) && at == old(self).offset && old(self).passed(
                    *final(self),
                    width as int,
                ),
                Err(e) => e == ProgramError::InvalidInstructionData && !old(self).has(width as int)
                    && *final(self) == *old(self),
            },
    {
        let len: usize = self.data.len();
        if self.offset > len || len - self.offset < width {
            return Err(ProgramError::InvalidInstructionData);
        }
        let at: usize = self.offset;
        self.offset = at + width;
        Ok(at)
    }

    /// Reads one byte.
    pub fn take_u8(&mut self) -> (r: Result<u8, ProgramError>)
        ensures
            match r {
                Ok(n) => old(self).has(1) && n == old(self).data@[old(self).offset as int] && old(
                    self,
                ).passed(*final(self), 1),
                Err(e) => e == ProgramError::InvalidInstructionData && !old(self).has(1)
                    && *final(self) == *old(self),
            },
    {
        match self.advance(1) {
            Err(e) => Err(e),
            Ok(at) => Ok(self.data[at]),
        }
    }

    /// Reads a flag: a byte that is zero or one. Any other byte is passed and refused.
    pub fn take_bool(&mut self) -> (r: Result<bool, ProgramError>)
        ensures
            match r {
                Ok(flag) => old(self).has(1) && old(self).data@[old(self).offset as int]
                    == bool_byte(flag) && old(self).passed(*final(self), 1),
                Err(e) => e == ProgramError::InvalidInstructionData && if old(self).has(1) {
                    old(self).data@[old(self).offset as int] > 1 && old(self).passed(
                        *final(self),
                        1,
                    )
                } else {
                    *final(self) == *old(self)
                },
            },
    {
        match self.take_u8() {
            Err(e) => Err(e),
            Ok(byte) => {
                if byte > 1 {
                    return Err(ProgramError::InvalidInstructionData);
                }
                Ok(byte == 1)
            },
        }
    }

    /// Reads a two-byte number.
    pub fn take_u16(&mut self) -> (r: Result<u16, ProgramError>)
        ensures
            match r {
                Ok(n) => old(self).has(2) && n == u16_at(old(self).data@, old(self).offset as int)
                    && old(self).passed(*final(self), 2),
                Err(e) => e == ProgramError::InvalidInstructionData && !old(self).has(2)
                    && *final(self) == *old(self),
            },
    {
        match self.advance(2) {
            Err(e) => Err(e),
            Ok(at) => Ok(read_u16(&self.data, at)),
        }
    }

    /// Reads a four-byte number.
    pub fn take_u32(&mut self) -> (r: Result<u32, ProgramError>)
        ensures
            match r {
                Ok(n) => old(self).has(4) && n == u32_at(old(self).data@, old(self).offset as int)
                    && old(self).passed(*final(self), 4),
                Err(e) => e == ProgramError::InvalidInstructionData && !old(self).has(4)
                    && *final(self) == *old(self),
            },
    {
        match self.advance(4) {
            Err(e) => Err(e),
            Ok(at) => Ok(read_u32(&self.data, at)),
        }
    }

    /// Reads a four-byte number in two's complement.
    pub fn take_i32(&mut self) -> (r: Result<i32, ProgramError>)
        ensures
            match r {
                Ok(n) => old(self).has(4) && wrapped_32(n) == u32_at(
                    old(self).data@,
                    old(self).offset as int,
                ) && old(self).passed(*final(self), 4),
                Err(e) => e == ProgramError::InvalidInstructionData && !old(self).has(4)
                    && *final(self) == *old(self),
            },
    {
        match self.take_u32() {
            Err(e) => Err(e),
            Ok(n) => Ok(unwrap_32(n)),
        }
    }

    /// Reads an eight-byte number.
    pub fn take_u64(&mut self) -> (r: Result<u64, ProgramError>)
        ensures
            match r {
                Ok(n) => old(self).has(8) && n == u64_at(old(self).data@, old(self).offset as int)
                    && old(self).passed(*final(self), 8),
                Err(e) => e == ProgramError::InvalidInstructionData && !old(self).has(8)
                    && *final(self) == *old(self),
            },
    {
        match self.advance(8) {
            Err(e) => Err(e),
            Ok(at) => Ok(read_u64(&self.data, at)),
        }
    }

    /// Reads a sixteen-byte number.
    pub fn take_u128(&mut self) -> (r: Result<u128, ProgramError>)
        ensures
            match r {
                Ok(n) => old(self).has(16) && n == le_value(
                    old(self).data@.subrange(old(self).offset as int, old(self).offset + 16),
                ) && old(self).passed(*final(self), 16),
                Err(e) => e == ProgramError::InvalidInstructionData && !old(self).has(16)
                    && *final(self) == *old(self),
            },
    {
        match self.advance(16) {
            Err(e) => Err(e),
            Ok(at) => Ok(read_le(&self.data, at, 16)),
        }
    }

    /// Reads an address.
    pub fn take_address(&mut self) -> (r: Result<Address, ProgramError>)
        ensures
            match r {
                Ok(a) => old(self).has(32) && a == address_at(
                    old(self).data@,
                    old(self).offset as int,
                ) && old(self).passed(*final(self), 32),
                Err(e) => e == ProgramError::InvalidInstructionData && !old(self).has(32)
                    && *final(self) == *old(self),
            },
    {
        match self.advance(32) {
            Err(e) => Err(e),
            Ok(at) => Ok(read_address(&self.data, at)),
        }
    }

    /// Reads ten bytes.
    pub fn take_bytes_10(&mut self) -> (r: Result<[u8; 10], ProgramError>)
        ensures
            match r {
                Ok(a) => old(self).has(10) && a@ == old(self).data@.subrange(
                    old(self).offset as int,
                    old(self).offset + 10,
                ) && old(self).passed(*final(self), 10),
                Err(e) => e == ProgramError::InvalidInstructionData && !old(self).has(10)
                    && *final(self) == *old(self),
            },
    {
        match self.advance(10) {
            Err(e) => Err(e),
            Ok(at) => Ok(read_array_10(&self.data, at)),
        }
    }

    /// Reads two hundred bytes.
    pub fn take_bytes_200(&mut self) -> (r: Result<[u8; 200], ProgramError>)
        ensures
            match r {
                Ok(a) => old(self).has(200) && a@ == old(self).data@.subrange(
                    old(self).offset as int,
                    old(self).offset + 200,
                ) && old(self).passed(*final(self), 200),
                Err(e) => e == ProgramError::InvalidInstructionData && !old(self).has(200)
                    && *final(self) == *old(self),
            },
    {
        match self.advance(200) {
            Err(e) => Err(e),
            Ok(at) => Ok(read_array_200(&self.data, at)),
        }
    }

    /// How many items the list that starts here announces.
    pub open spec fn announced(&self) -> u32 {
        u32_at(self.data@, self.offset as int)
    }

    /// Whether the list of items of `width` bytes that starts here is complete.
    pub open spec fn has_list(&self, width: int) -> bool {
        self.has(4) && self.has(4 + width * self.announced())
    }

    /// Reads a list of addresses: their number in four bytes, then the addresses.
    pub fn take_addresses(&mut self) -> (r: Result<Vec<Address>, ProgramError>)
        ensures
            match r {
                Ok(list) => {
                    &&& old(self).has_list(32)
                    &&& list@.len() == old(self).announced()
                    &&& forall|i: int|
                        0 <= i < list@.len() ==> #[trigger] list@[i] == address_at(
                            old(self).data@,
                            old(self).offset + 4 + 32 * i,
                        )
                    &&& old(self).passed(*final(self), 4 + 32 * old(self).announced())
                },
                Err(e) => e == ProgramError::InvalidInstructionData && !old(self).has_list(32),
            },
    {
        let ghost start = *self;
        let count: u32 = match self.take_u32() {
            Err(e) => {
                return Err(e);
            },
            Ok(count) => count,
        };
        let mut list: Vec<Address> = Vec::new();
        let mut i: u32 = 0;
        while i < count
            invariant
                start == *old(self),
                start.has(4),
                count == start.announced(),
                i <= count,
                list@.len() == i,
                start.passed(*self, 4 + 32 * i),
                start.has(4 + 32 * i),
                forall|j: int|
                    0 <= j < list@.len() ==> #[trigger] list@[j] == address_at(
                        start.data@,
                        start.offset + 4 + 32 * j,
                    ),
            decreases count - i,
        {
            match self.take_address() {
                Err(e) => {
                    assert(start.offset + 4 + 32 * (i + 1) > start.data@.len());
                    assert(!start.has(4 + 32 * (count as int)));
                    return Err(e);
                },
                Ok(address) => {
                    list.push(address);
                },
            }
            i += 1;
        }
        Ok(list)
    }

    /// Reads a list of revenue destinations: their number in four bytes, then the destinations.
    pub fn take_destinations(&mut self) -> (r: Result<Vec<BatchDestination>, ProgramError>)
        ensures
            match r {
                Ok(list) => {
                    &&& old(self).has_list(66)
                    &&& list@.len() == old(self).announced()
                    &&& forall|i: int|
                        0 <= i < list@.len() ==> BatchDestination::at(
                            old(self).data@,
                            old(self).offset + 4 + 66 * i,
                        ) == Ok::<BatchDestination, ProgramError>(#[trigger] list@[i])
                    &&& old(self).passed(*final(self), 4 + 66 * old(self).announced())
                },
                Err(e) => e == ProgramError::InvalidInstructionData && !old(self).has_list(66),
            },
    {
        let ghost start = *self;
        let count: u32 = match self.take_u32() {
            Err(e) => {
                return Err(e);
            },
            Ok(count) => count,
        };
        let mut list: Vec<BatchDestination> = Vec::new();
        let mut i: u32 = 0;
        while i < count
            invariant
                start == *old(self),
                start.has(4),
                count == start.announced(),
                i <= count,
                list@.len() == i,
                start.passed(*self, 4 + 66 * i),
                start.has(4 + 66 * i),
                forall|j: int|
                    0 <= j < list@.len() ==> BatchDestination::at(
                        start.data@,
                        start.offset + 4 + 66 * j,
                    ) == Ok::<BatchDestination, ProgramError>(#[trigger] list@[j]),
            decreases count - i,
        {
            match BatchDestination::deserialize(&self.data, self.offset) {
                Err(e) => {
                    assert(start.offset + 4 + 66 * (i + 1) > start.data@.len());
                    assert(!start.has(4 + 66 * (count as int)));
                    return Err(e);
                },
                Ok((destination, next)) => {
                    list.push(destination);
                    self.offset = next;
                },
            }
            i += 1;
        }
        Ok(list)
    }
}

} // verus!

use vstd::prelude::*;
use fvm_shared::address::Address;
use cid::Cid;
use crate::error::{spec_illegal_argument, ExecutionError, SyscallError};

verus! {

#[verifier::external_type_specification]
#[verifier::external_body]
pub struct ExAddress(fvm_shared::address::Address);

#[verifier::external_type_specification]
#[verifier::external_body]
pub struct ExAddressError(fvm_shared::address::Error);

#[verifier::external_type_specification]
#[verifier::external_body]
pub struct ExCidGeneric<const S: usize>(cid::CidGeneric<S>);

#[verifier::external_type_specification]
#[verifier::external_body]
pub struct ExCidError(cid::Error);

/// Whether the bytes are the encoding of an address.
pub uninterp spec fn address_parses(b: Seq<u8>) -> bool;

/// Whether the bytes begin with the encoding of a content identifier.
pub uninterp spec fn cid_parses(b: Seq<u8>) -> bool;

/// Relies on fvm_shared's `Address::from_bytes`: decodes an address, and
/// rejects anything shorter than a protocol byte and one payload byte.
#[verifier::external_body]
fn parse_address(b: &[u8]) -> (r: Result<Address, fvm_shared::address::Error>)
    ensures
        r is Ok <==> address_parses(b@),
        b@.len() < 2 ==> r is Err,
{
    Address::from_bytes(b)
}

/// Relies on cid's `Cid::read_bytes`: decodes a content identifier from the
/// front of the bytes; an empty input has no version to read.
#[verifier::external_body]
fn parse_cid(b: &[u8]) -> (r: Result<Cid, cid::Error>)
    ensures
        r is Ok <==> cid_parses(b@),
        b@.len() == 0 ==> r is Err,
{
    Cid::read_bytes(b)
}

/// Whether the range of `len` bytes at `offset` lies within a memory of
/// `mem_len` bytes.
pub open spec fn fits(offset: int, len: int, mem_len: int) -> bool {
    0 <= offset && 0 <= len && offset + len <= mem_len
}

/// A recoverable `IllegalArgument` error.
pub open spec fn is_illegal_argument(e: ExecutionError) -> bool {
    &&& e is Syscall
    &&& e->Syscall_0.spec_number() == spec_illegal_argument()
}

/// The memory `m` after `data` is stored at `offset`.
pub open spec fn spec_written(m: Seq<u8>, offset: int, data: Seq<u8>) -> Seq<u8> {
    m.take(offset) + data + m.skip(offset + data.len())
}

/// A bounds-checked view of a guest's linear memory.
pub struct Memory {
    bytes: Vec<u8>,
}

impl View for Memory {
    type V = Seq<u8>;

    closed spec fn view(&self) -> Seq<u8> {
        self.bytes@
    }
}

impl Memory {
    pub fn new(bytes: Vec<u8>) -> (r: Memory)
        ensures
            r@ == bytes@,
    {
        Memory { bytes }
    }

    pub fn len(&self) -> (r: usize)
        ensures
            r == self@.len(),
    {
        self.bytes.len()
    }

    pub fn as_bytes(&self) -> (r: &[u8])
        ensures
            r@ == self@,
    {
        self.bytes.as_slice()
    }

    /// Checks that `len` bytes at `offset` lie within memory.
    pub fn check_bounds(&self, offset: u32, len: u32) -> (r: Result<(), ExecutionError>)
        ensures
            r is Ok <==> fits(offset as int, len as int, self@.len() as int),
            r matches Err(e) ==> is_illegal_argument(e),
    {
        if (offset as u64) + (len as u64) <= self.bytes.len() as u64 {
            Ok(())
        } else {
            Err(ExecutionError::Syscall(SyscallError::illegal_argument("buffer out of bounds")))
        }
    }

    fn copy_range(&self, start: usize, end: usize) -> (r: Vec<u8>)
        requires
            start <= end <= self@.len(),
        ensures
            r@ == self@.subrange(start as int, end as int),
    {
        let mut out: Vec<u8> = Vec::new();
        let mut i: usize = start;
        while i < end
            invariant
                start <= i <= end,
                end <= self@.len(),
                out@ == self@.subrange(start as int, i as int),
            decreases end - i,
        {
            out.push(self.bytes[i]);
            i = i + 1;
            assert(out@ =~= self@.subrange(start as int, i as int));
        }
        out
    }

    /// Copies out the `len` bytes at `offset`.
    pub fn try_slice(&self, offset: u32, len: u32) -> (r: Result<Vec<u8>, ExecutionError>)
        ensures
            r is Ok <==> fits(offset as int, len as int, self@.len() as int),
            r matches Ok(v) ==> v@ == self@.subrange(offset as int, offset + len),
            r matches Err(e) ==> is_illegal_argument(e),
    {
        let n = self.bytes.len();
        match self.check_bounds(offset, len) {
            Ok(()) => {
                assert(offset + len <= n);
                Ok(self.copy_range(offset as usize, offset as usize + len as usize))
            },
            Err(e) => Err(e),
        }
    }

    /// Stores `data` at `offset`, into a buffer of `capacity` bytes there that
    /// must lie within memory. Nothing is stored when it does not.
    pub fn try_write(&mut self, offset: u32, capacity: u32, data: &[u8]) -> (r: Result<
        (),
        ExecutionError,
    >)
        requires
            data@.len() <= capacity,
        ensures
            r is Ok <==> fits(offset as int, capacity as int, old(self)@.len() as int),
            r is Ok ==> final(self)@ == spec_written(old(self)@, offset as int, data@),
            r is Err ==> final(self)@ == old(self)@,
            final(self)@.len() == old(self)@.len(),
            r matches Err(e) ==> is_illegal_argument(e),
    {
        match self.check_bounds(offset, capacity) {
            Ok(()) => {},
            Err(e) => {
                return Err(e);
            },
        }
        self.write_at(offset as usize, data);
        Ok(())
    }

    /// Stores `data` at `offset`; the caller has checked that it fits.
    pub(crate) fn write_at(&mut self, offset: usize, data: &[u8])
        requires
            offset + data@.len() <= old(self)@.len(),
        ensures
            final(self)@ == spec_written(old(self)@, offset as int, data@),
            final(self)@.len() == old(self)@.len(),
    {
        let n = self.bytes.len();
        let start = offset;
        let mut i: usize = 0;
        while i < data.len()
            invariant
                start + data@.len() <= self@.len(),
                self@.len() == old(self)@.len(),
                n == self@.len(),
                0 <= i <= data@.len(),
                forall|j: int| 0 <= j < start ==> self@[j] == old(self)@[j],
                forall|j: int| start <= j < start + i ==> self@[j] == data@[j - start],
                forall|j: int|
                    start + i <= j < self@.len() ==> #[trigger] self@[j] == old(self)@[j],
            decreases data@.len() - i,
        {
            self.bytes.set(start + i, data[i]);
            i = i + 1;
        }
        assert(self@ =~= spec_written(old(self)@, offset as int, data@));
    }

    /// Decodes the address held in the `len` bytes at `offset`.
    pub fn read_address(&self, offset: u32, len: u32) -> (r: Result<Address, ExecutionError>)
        ensures
            r is Ok <==> fits(offset as int, len as int, self@.len() as int) && address_parses(
                self@.subrange(offset as int, offset + len),
            ),
            r matches Err(e) ==> is_illegal_argument(e),
    {
        let bytes = self.try_slice(offset, len)?;
        match parse_address(bytes.as_slice()) {
            Ok(addr) => Ok(addr),
            Err(_) => Err(ExecutionError::Syscall(SyscallError::illegal_argument("invalid address"))),
        }
    }

    /// Decodes the content identifier that begins at `offset`.
    pub fn read_cid(&self, offset: u32) -> (r: Result<Cid, ExecutionError>)
        ensures
            r is Ok <==> offset <= self@.len() && cid_parses(self@.skip(offset as int)),
            r matches Err(e) ==> is_illegal_argument(e),
    {
        if offset as usize > self.bytes.len() {
            return Err(ExecutionError::Syscall(SyscallError::illegal_argument("cid out of bounds")));
        }
        let rest = self.copy_range(offset as usize, self.bytes.len());
        assert(rest@ =~= self@.skip(offset as int));
        match parse_cid(rest.as_slice()) {
            Ok(c) => Ok(c),
            Err(_) => Err(ExecutionError::Syscall(SyscallError::illegal_argument("invalid cid"))),
        }
    }
}

} // verus!

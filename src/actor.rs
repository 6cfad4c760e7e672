use vstd::prelude::*;
use cid::Cid;
use fvm_shared::address::Address;
use crate::control::ControlFlow;
use crate::error::{is_abort_of, spec_illegal_argument, Abort, ExecutionError, SyscallError};
use crate::bind::{
    charge_before_call, charges_fit, gas_after_charges, gas_synced, spec_exec_gas_used,
    update_gas_available, InvocationData, Syscall,
};
use crate::kernel::Kernel;
use crate::memory::{address_parses, cid_parses, fits, spec_written, Memory};

verus! {

/// The smallest output buffer that `new_actor_address` accepts: the length of
/// a protocol-generated actor address.
pub const MIN_ACTOR_ADDRESS_LEN: u32 = 21;

/// Relies on fvm_shared's `Address::to_bytes`: the address's encoding.
#[verifier::external_body]
fn address_to_bytes(a: &Address) -> (r: Vec<u8>) {
    a.to_bytes()
}

/// Relies on cid's `Cid::to_bytes`: the identifier's encoding.
#[verifier::external_body]
fn cid_to_bytes(c: &Cid) -> (r: Vec<u8>) {
    c.to_bytes()
}

/// Whether the `len` bytes at `offset` of `m` hold an address.
pub open spec fn address_readable(m: Seq<u8>, offset: u32, len: u32) -> bool {
    fits(offset as int, len as int, m.len() as int) && address_parses(
        m.subrange(offset as int, offset + len),
    )
}

/// A recoverable `IllegalArgument` outcome.
pub open spec fn is_illegal_argument_outcome<T>(c: ControlFlow<T>) -> bool {
    c matches ControlFlow::Error(e) && e.spec_number() == spec_illegal_argument()
}

/// What `resolve_address` hands the guest for a kernel lookup.
pub open spec fn spec_resolution(found: Option<u64>) -> (i32, u64) {
    match found {
        Some(id) => (0i32, id),
        None => (-1i32, 0u64),
    }
}

/// The guest-visible pair for the result of an address lookup.
pub fn resolution(found: Option<u64>) -> (r: (i32, u64))
    ensures
        r == spec_resolution(found),
{
    match found {
        Some(id) => (0, id),
        None => (-1, 0),
    }
}

/// Resolves the address held in guest memory to an actor id, returning
/// `(0, id)` when it resolves and `(-1, 0)` when it does not. Every failure
/// aborts: this syscall has no recoverable error.
pub fn resolve_address<K: Kernel>(kernel: &K, memory: &Memory, addr_off: u32, addr_len: u32) -> (r:
    Result<(i32, u64), Abort>)
    ensures
        !address_readable(memory@, addr_off, addr_len) ==> r matches Err(Abort::Fatal(_)),
        r matches Ok(v) ==> exists|found: Option<u64>| v == spec_resolution(found),
{
    let addr = match memory.read_address(addr_off, addr_len) {
        Ok(a) => a,
        Err(e) => {
            return Err(Abort::from_error_as_fatal(e));
        },
    };
    match kernel.resolve_address(&addr) {
        Ok(found) => Ok(resolution(found)),
        Err(e) => Err(Abort::from_error_as_fatal(e)),
    }
}

/// Stores an encoded code identifier into the guest's output buffer and
/// reports success. A buffer outside memory is a recoverable error; one too
/// small for the encoding is fatal.
pub fn place_code_cid(memory: &mut Memory, obuf_off: u32, obuf_len: u32, cid_bytes: &[u8]) -> (r:
    ControlFlow<i32>)
    ensures
        final(memory)@.len() == old(memory)@.len(),
        !fits(obuf_off as int, obuf_len as int, old(memory)@.len() as int)
            ==> is_illegal_argument_outcome(r) && final(memory)@ == old(memory)@,
        fits(obuf_off as int, obuf_len as int, old(memory)@.len() as int) && cid_bytes@.len()
            > obuf_len ==> (r matches ControlFlow::Abort(Abort::Fatal(_))) && final(memory)@ == old(
            memory,
        )@,
        fits(obuf_off as int, obuf_len as int, old(memory)@.len() as int) && cid_bytes@.len()
            <= obuf_len ==> r == ControlFlow::<i32>::Return(0i32) && final(memory)@ == spec_written(
            old(memory)@,
            obuf_off as int,
            cid_bytes@,
        ),
{
    match memory.check_bounds(obuf_off, obuf_len) {
        Ok(()) => {},
        Err(e) => {
            return ControlFlow::from(e);
        },
    }
    if cid_bytes.len() > obuf_len as usize {
        return ControlFlow::Abort(Abort::Fatal("code cid does not fit the output buffer".to_owned()));
    }
    match memory.try_write(obuf_off, obuf_len, cid_bytes) {
        Ok(()) => ControlFlow::Return(0),
        Err(e) => ControlFlow::from(e),
    }
}

/// What `get_actor_code_cid` does with the kernel's answer, given as the
/// identifier's encoding: no actor gives `-1` and writes nothing; a found one
/// is stored as `place_code_cid` does.
pub fn code_cid_outcome(memory: &mut Memory, obuf_off: u32, obuf_len: u32, found: Option<Vec<u8>>) -> (r:
    ControlFlow<i32>)
    ensures
        final(memory)@.len() == old(memory)@.len(),
        found is None ==> r == ControlFlow::<i32>::Return(-1i32) && final(memory)@ == old(memory)@,
        found matches Some(b) ==> (!fits(obuf_off as int, obuf_len as int, old(memory)@.len() as int)
            ==> is_illegal_argument_outcome(r) && final(memory)@ == old(memory)@),
        found matches Some(b) ==> (fits(obuf_off as int, obuf_len as int, old(memory)@.len() as int)
            && b@.len() > obuf_len ==> (r matches ControlFlow::Abort(Abort::Fatal(_)))
            && final(memory)@ == old(memory)@),
        found matches Some(b) ==> (fits(obuf_off as int, obuf_len as int, old(memory)@.len() as int)
            && b@.len() <= obuf_len ==> r == ControlFlow::<i32>::Return(0i32) && final(memory)@
            == spec_written(old(memory)@, obuf_off as int, b@)),
{
    match found {
        Some(bytes) => place_code_cid(memory, obuf_off, obuf_len, bytes.as_slice()),
        None => ControlFlow::Return(-1),
    }
}

/// Looks up the code identifier of the actor at the address held in guest
/// memory, and hands the answer to `code_cid_outcome`: the encoding is
/// written into the output buffer and `0` returned, or `-1` is returned
/// without writing when there is no actor. The kernel is only read.
pub fn get_actor_code_cid<K: Kernel>(
    kernel: &K,
    memory: &mut Memory,
    addr_off: u32,
    addr_len: u32,
    obuf_off: u32,
    obuf_len: u32,
) -> (r: ControlFlow<i32>)
    ensures
        final(memory)@.len() == old(memory)@.len(),
        !address_readable(old(memory)@, addr_off, addr_len) ==> is_illegal_argument_outcome(r)
            && final(memory)@ == old(memory)@,
        r == ControlFlow::<i32>::Return(-1i32) || !(r is Return) ==> final(memory)@ == old(memory)@,
        r matches ControlFlow::Return(v) ==> v == 0 || v == -1,
        r == ControlFlow::<i32>::Return(0i32) ==> exists|b: Seq<u8>|
            b.len() <= obuf_len && final(memory)@ == spec_written(old(memory)@, obuf_off as int, b),
{
    let addr = match memory.read_address(addr_off, addr_len) {
        Ok(a) => a,
        Err(e) => {
            return ControlFlow::from(e);
        },
    };
    match kernel.get_actor_code_cid(&addr) {
        Ok(found) => {
            let encoded = match found {
                Some(code) => Some(cid_to_bytes(&code)),
                None => None,
            };
            code_cid_outcome(memory, obuf_off, obuf_len, encoded)
        },
        Err(e) => ControlFlow::from(e),
    }
}

/// Stores a newly generated address's encoding into the guest's output
/// buffer and returns its length. An encoding longer than the buffer, or a
/// buffer outside memory, is a recoverable error.
pub fn place_new_address(memory: &mut Memory, obuf_off: u32, obuf_len: u32, addr_bytes: &[u8]) -> (r:
    ControlFlow<u32>)
    ensures
        final(memory)@.len() == old(memory)@.len(),
        addr_bytes@.len() > obuf_len ==> is_illegal_argument_outcome(r) && (r matches ControlFlow::Error(
            e,
        ) && e.spec_message() == "insufficient output buffer capacity"@),
        addr_bytes@.len() <= obuf_len && !fits(
            obuf_off as int,
            obuf_len as int,
            old(memory)@.len() as int,
        ) ==> is_illegal_argument_outcome(r),
        !(r is Return) ==> final(memory)@ == old(memory)@,
        addr_bytes@.len() <= obuf_len && fits(
            obuf_off as int,
            obuf_len as int,
            old(memory)@.len() as int,
        ) ==> r == ControlFlow::<u32>::Return(addr_bytes@.len() as u32) && final(memory)@
            == spec_written(old(memory)@, obuf_off as int, addr_bytes@),
{
    let len = addr_bytes.len();
    if len > obuf_len as usize {
        return ControlFlow::Error(
            SyscallError::illegal_argument("insufficient output buffer capacity"),
        );
    }
    match memory.try_write(obuf_off, obuf_len, addr_bytes) {
        Ok(()) => ControlFlow::Return(len as u32),
        Err(e) => ControlFlow::from(e),
    }
}

/// Generates a new actor address and writes its encoding into the guest's
/// output buffer, returning the number of bytes written. A buffer shorter
/// than `MIN_ACTOR_ADDRESS_LEN` is refused before the kernel is asked.
pub fn new_actor_address<K: Kernel>(
    kernel: &mut K,
    memory: &mut Memory,
    obuf_off: u32,
    obuf_len: u32,
) -> (r: ControlFlow<u32>)
    ensures
        final(kernel).spec_gas_available() <= old(kernel).spec_gas_available(),
        final(memory)@.len() == old(memory)@.len(),
        obuf_len < MIN_ACTOR_ADDRESS_LEN ==> is_illegal_argument_outcome(r) && *final(kernel)
            == *old(kernel),
        obuf_len < MIN_ACTOR_ADDRESS_LEN ==> (r matches ControlFlow::Error(e) && e.spec_message()
            == "output buffer must have a minimum capacity of 21 bytes"@),
        !(r is Return) ==> final(memory)@ == old(memory)@,
        r matches ControlFlow::Return(n) ==> n <= obuf_len && exists|b: Seq<u8>|
            b.len() == n && final(memory)@ == spec_written(old(memory)@, obuf_off as int, b),
{
    if obuf_len < MIN_ACTOR_ADDRESS_LEN {
        return ControlFlow::Error(
            SyscallError::illegal_argument("output buffer must have a minimum capacity of 21 bytes"),
        );
    }
    let addr = match kernel.new_actor_address() {
        Ok(a) => a,
        Err(e) => {
            return ControlFlow::from(e);
        },
    };
    let bytes = address_to_bytes(&addr);
    place_new_address(memory, obuf_off, obuf_len, bytes.as_slice())
}

/// What `create_actor` makes of the kernel's answer: success returns, and
/// every error aborts, those the kernel reports as recoverable too.
pub fn creation_outcome(result: Result<(), ExecutionError>) -> (r: ControlFlow<()>)
    ensures
        result is Ok <==> r == ControlFlow::<()>::Return(()),
        result matches Err(e) ==> (r matches ControlFlow::Abort(a) && is_abort_of(a, e)),
{
    match result {
        Ok(()) => ControlFlow::Return(()),
        Err(e) => ControlFlow::Abort(Abort::from_error_as_fatal(e)),
    }
}

/// Creates an actor of the code identifier held at `typ_off` in guest
/// memory, at the address held in the `addr_len` bytes at `addr_off`. Every
/// failure aborts, those that the kernel would report as recoverable too:
/// the kernel's answer goes through `creation_outcome`.
pub fn create_actor<K: Kernel>(
    kernel: &mut K,
    memory: &Memory,
    addr_off: u32,
    addr_len: u32,
    typ_off: u32,
) -> (r: ControlFlow<()>)
    ensures
        final(kernel).spec_gas_available() <= old(kernel).spec_gas_available(),
        r is Return ==> address_readable(memory@, addr_off, addr_len) && typ_off <= memory@.len()
            && cid_parses(memory@.skip(typ_off as int)),
        !(r is Error),
        !address_readable(memory@, addr_off, addr_len) ==> (r matches ControlFlow::Abort(
            Abort::Fatal(_),
        )) && *final(kernel) == *old(kernel),
        !(typ_off <= memory@.len() && cid_parses(memory@.skip(typ_off as int)))
            ==> (r matches ControlFlow::Abort(Abort::Fatal(_))) && *final(kernel) == *old(kernel),
{
    let addr = match memory.read_address(addr_off, addr_len) {
        Ok(a) => a,
        Err(e) => {
            return ControlFlow::Abort(Abort::from_error_as_fatal(e));
        },
    };
    let typ = match memory.read_cid(typ_off) {
        Ok(c) => c,
        Err(e) => {
            return ControlFlow::Abort(Abort::from_error_as_fatal(e));
        },
    };
    creation_outcome(kernel.create_actor(typ, &addr))
}

/// The arguments of `get_actor_code_cid`.
pub struct GetActorCodeCid {
    pub addr_off: u32,
    pub addr_len: u32,
    pub obuf_off: u32,
    pub obuf_len: u32,
}

impl Syscall for GetActorCodeCid {
    type Output = ControlFlow<i32>;

    fn call<K: Kernel>(&self, kernel: &mut K, memory: &mut Memory) -> (r: ControlFlow<i32>) {
        get_actor_code_cid(&*kernel, memory, self.addr_off, self.addr_len, self.obuf_off, self.obuf_len)
    }
}

/// The arguments of `new_actor_address`.
pub struct NewActorAddress {
    pub obuf_off: u32,
    pub obuf_len: u32,
}

impl Syscall for NewActorAddress {
    type Output = ControlFlow<u32>;

    fn call<K: Kernel>(&self, kernel: &mut K, memory: &mut Memory) -> (r: ControlFlow<u32>) {
        new_actor_address(kernel, memory, self.obuf_off, self.obuf_len)
    }
}

/// The arguments of `create_actor`.
pub struct CreateActor {
    pub addr_off: u32,
    pub addr_len: u32,
    pub typ_off: u32,
}

impl Syscall for CreateActor {
    type Output = ControlFlow<()>;

    fn call<K: Kernel>(&self, kernel: &mut K, memory: &mut Memory) -> (r: ControlFlow<()>) {
        create_actor(kernel, memory, self.addr_off, self.addr_len, self.typ_off)
    }
}

/// The guest-facing entry of `resolve_address`. It charges gas as every
/// syscall does (see `charge_before_call`) but returns its two values
/// directly instead of through an output pointer. On success it clears the
/// last error and shows the kernel's remaining budget to the guest; an abort
/// leaves the guest's counter and the last error as they were.
pub fn call_resolve_address<K: Kernel>(
    data: &mut InvocationData<K>,
    addr_off: u32,
    addr_len: u32,
) -> (r: Result<(i32, u64), Abort>)
    ensures
        spec_exec_gas_used(old(data).last_gas_available, old(data).gas_counter) is None ==> (
        r matches Err(Abort::Fatal(_))) && *final(data) == *old(data),
        !charges_fit(*old(data)) ==> r is Err,
        charges_fit(*old(data)) ==> final(data).kernel.spec_gas_available() == gas_after_charges(
            *old(data),
        ),
        r is Err ==> final(data).gas_counter == old(data).gas_counter && final(data).last_error
            == old(data).last_error,
        !address_readable(old(data).memory@, addr_off, addr_len) ==> r is Err,
        r matches Ok(v) ==> (exists|found: Option<u64>| v == spec_resolution(found)),
        r is Ok ==> final(data).last_error is None && gas_synced(*final(data))
            && final(data).gas_counter == final(data).kernel.spec_gas_available(),
        final(data).memory == old(data).memory,
{
    charge_before_call(data)?;
    let v = resolve_address(&data.kernel, &data.memory, addr_off, addr_len)?;
    data.last_error = None;
    update_gas_available(data);
    Ok(v)
}

} // verus!

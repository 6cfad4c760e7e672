use vstd::prelude::*;
use crate::control::{ControlFlow, IntoControlFlow, SyscallSafe};
use crate::error::{spec_illegal_argument, Abort, SyscallError};
use crate::kernel::Kernel;
use crate::memory::{fits, spec_written, Memory};

verus! {

/// What is kept of the last recoverable error: where it came from, its
/// message and its error number.
pub struct LastError {
    pub module: String,
    pub operation: String,
    pub message: String,
    pub code: u32,
}

/// The view of a last-error record: module, operation, message, code.
pub type LastErrorView = (Seq<char>, Seq<char>, Seq<char>, u32);

pub open spec fn last_error_view(e: Option<LastError>) -> Option<LastErrorView> {
    match e {
        Some(le) => Some((le.module@, le.operation@, le.message@, le.code)),
        None => None,
    }
}

/// The last-error record after a syscall with outcome `out`: success clears
/// it, a recoverable error replaces it, an abort leaves it as it was.
pub open spec fn spec_after_outcome<V>(
    prev: Option<LastErrorView>,
    module: Seq<char>,
    name: Seq<char>,
    out: ControlFlow<V>,
) -> Option<LastErrorView> {
    match out {
        ControlFlow::Return(_) => None,
        ControlFlow::Error(e) => Some((module, name, e.spec_message(), e.spec_number())),
        ControlFlow::Abort(_) => prev,
    }
}

/// The state of one invocation: the kernel, the guest's memory, the last
/// recoverable error, and the gas counter that the guest sees together with
/// the value it had when last synchronised with the kernel.
pub struct InvocationData<K> {
    pub kernel: K,
    pub memory: Memory,
    pub last_error: Option<LastError>,
    pub gas_counter: i64,
    pub last_gas_available: i64,
}

/// The guest's gas counter mirrors the kernel's budget as last read.
pub open spec fn gas_synced<K>(d: InvocationData<K>) -> bool {
    d.gas_counter == d.last_gas_available
}

impl<K: Kernel> InvocationData<K> {
    /// Starts an invocation with the guest's counter set to the kernel's budget.
    pub fn new(kernel: K, memory: Memory) -> (r: InvocationData<K>)
        ensures
            r.memory@ == memory@,
            r.last_error is None,
            gas_synced(r),
    {
        let avail = kernel.gas_available();
        InvocationData {
            kernel,
            memory,
            last_error: None,
            gas_counter: avail,
            last_gas_available: avail,
        }
    }
}

/// The gas that the guest's execution used since the last synchronisation:
/// how far its counter fell, when that is neither negative nor beyond `i64`.
pub open spec fn spec_exec_gas_used(last: i64, counter: i64) -> Option<i64> {
    if 0 <= last - counter <= i64::MAX {
        Some((last - counter) as i64)
    } else {
        None
    }
}

/// The execution gas to charge, or `None` when the counters are out of range.
pub fn exec_gas_used(last: i64, counter: i64) -> (r: Option<i64>)
    ensures
        r == spec_exec_gas_used(last, counter),
{
    match last.checked_sub(counter) {
        Some(u) => {
            if u >= 0 {
                Some(u)
            } else {
                None
            }
        },
        None => None,
    }
}

/// Whether the budget covers the execution charge and then the syscall's price.
pub open spec fn charges_fit<K: Kernel>(d: InvocationData<K>) -> bool {
    match spec_exec_gas_used(d.last_gas_available, d.gas_counter) {
        Some(x) => x <= d.kernel.spec_gas_available() && d.kernel.spec_syscall_price()
            <= d.kernel.spec_gas_available() - x,
        None => false,
    }
}

/// The kernel's budget once both charges are taken.
pub open spec fn gas_after_charges<K: Kernel>(d: InvocationData<K>) -> int {
    match spec_exec_gas_used(d.last_gas_available, d.gas_counter) {
        Some(x) => d.kernel.spec_gas_available() - x - d.kernel.spec_syscall_price(),
        None => d.kernel.spec_gas_available() as int,
    }
}

/// Charges the kernel for the guest execution since the last synchronisation.
fn charge_for_exec<K: Kernel>(data: &mut InvocationData<K>) -> (r: Result<(), Abort>)
    ensures
        spec_exec_gas_used(old(data).last_gas_available, old(data).gas_counter) is None ==> (
        r matches Err(Abort::Fatal(_))) && *final(data) == *old(data),
        spec_exec_gas_used(old(data).last_gas_available, old(data).gas_counter) matches Some(x)
            ==> (r is Ok <==> x <= old(data).kernel.spec_gas_available()) && (r is Ok
            ==> final(data).kernel.spec_gas_available() == old(data).kernel.spec_gas_available()
            - x),
        r is Ok ==> final(data).last_gas_available == old(data).gas_counter,
        final(data).kernel.spec_syscall_price() == old(data).kernel.spec_syscall_price(),
        final(data).memory == old(data).memory,
        final(data).last_error == old(data).last_error,
        final(data).gas_counter == old(data).gas_counter,
{
    let used = match exec_gas_used(data.last_gas_available, data.gas_counter) {
        Some(u) => u,
        None => {
            return Err(Abort::Fatal("gas counter out of range".to_owned()));
        },
    };
    match data.kernel.charge_gas("wasm_exec", used) {
        Ok(()) => {},
        Err(e) => {
            return Err(Abort::from_error_as_fatal(e));
        },
    }
    data.last_gas_available = data.gas_counter;
    Ok(())
}

/// Charges the fixed price of a syscall.
fn charge_syscall_gas<K: Kernel>(data: &mut InvocationData<K>) -> (r: Result<(), Abort>)
    ensures
        r is Ok <==> old(data).kernel.spec_syscall_price() <= old(
            data,
        ).kernel.spec_gas_available(),
        r is Ok ==> final(data).kernel.spec_gas_available() == old(data).kernel.spec_gas_available()
            - old(data).kernel.spec_syscall_price(),
        final(data).memory == old(data).memory,
        final(data).last_error == old(data).last_error,
        final(data).gas_counter == old(data).gas_counter,
        final(data).last_gas_available == old(data).last_gas_available,
{
    let charge = data.kernel.syscall_charge();
    match data.kernel.charge_gas(charge.name.as_str(), charge.compute_gas) {
        Ok(()) => Ok(()),
        Err(e) => Err(Abort::from_error_as_fatal(e)),
    }
}

/// Charges for execution and then for the syscall, before the syscall runs.
/// It succeeds exactly when the budget covers both; counters out of range
/// are fatal and change nothing.
pub fn charge_before_call<K: Kernel>(data: &mut InvocationData<K>) -> (r: Result<(), Abort>)
    ensures
        spec_exec_gas_used(old(data).last_gas_available, old(data).gas_counter) is None ==> (
        r matches Err(Abort::Fatal(_))) && *final(data) == *old(data),
        r is Ok <==> charges_fit(*old(data)),
        r is Ok ==> final(data).kernel.spec_gas_available() == gas_after_charges(*old(data)),
        r is Ok ==> final(data).last_gas_available == old(data).gas_counter,
        final(data).memory == old(data).memory,
        final(data).last_error == old(data).last_error,
        final(data).gas_counter == old(data).gas_counter,
{
    charge_for_exec(data)?;
    charge_syscall_gas(data)
}

/// Copies the kernel's remaining budget into the guest's gas counter.
pub fn update_gas_available<K: Kernel>(data: &mut InvocationData<K>)
    ensures
        final(data).memory == old(data).memory,
        final(data).last_error == old(data).last_error,
        final(data).kernel == old(data).kernel,
        gas_synced(*final(data)),
        final(data).gas_counter == final(data).kernel.spec_gas_available(),
{
    let avail = data.kernel.gas_available();
    data.last_gas_available = avail;
    data.gas_counter = avail;
}

/// Checks that a value of `size` bytes can be stored at `ret`. When it cannot,
/// records an `IllegalArgument` error and returns its code.
pub fn check_return_slot<K: Kernel>(
    data: &mut InvocationData<K>,
    module: &str,
    name: &str,
    ret: u32,
    size: usize,
) -> (r: Option<u32>)
    ensures
        r is None <==> fits(ret as int, size as int, old(data).memory@.len() as int),
        r is None ==> *final(data) == *old(data),
        r is Some ==> r == Some(spec_illegal_argument()) && last_error_view(final(data).last_error)
            == Some((module@, name@, "no space for return value"@, spec_illegal_argument())),
        final(data).memory == old(data).memory,
        final(data).kernel == old(data).kernel,
        final(data).gas_counter == old(data).gas_counter,
{
    let len = data.memory.len();
    if (ret as u64) > (len as u64) || len - (ret as usize) < size {
        let err = SyscallError::illegal_argument("no space for return value");
        let code = err.number();
        data.last_error = Some(
            LastError {
                module: module.to_owned(),
                operation: name.to_owned(),
                message: err.into_message(),
                code,
            },
        );
        return Some(code);
    }
    None
}

/// Hands a syscall's outcome to the guest. A value is stored at `ret` when
/// one is given, and `0` is returned; a recoverable error returns its code;
/// both record the last error as `spec_after_outcome` says and then
/// synchronise the gas counter. An abort changes nothing and is passed on.
pub fn finish_syscall<K: Kernel, V: SyscallSafe>(
    data: &mut InvocationData<K>,
    module: &str,
    name: &str,
    out: ControlFlow<V>,
    ret: Option<u32>,
) -> (r: Result<u32, Abort>)
    requires
        ret matches Some(p) ==> fits(p as int, V::spec_size() as int, old(data).memory@.len() as int),
    ensures
        out matches ControlFlow::Return(v) ==> r == Ok::<u32, Abort>(0) && final(data).memory@ == (
        match ret {
            Some(p) => spec_written(old(data).memory@, p as int, v.spec_encode()),
            None => old(data).memory@,
        }),
        out matches ControlFlow::Return(v) ==> (ret matches Some(p) ==> final(data).memory@.subrange(
            p as int,
            p + V::spec_size(),
        ) == v.spec_encode()),
        out matches ControlFlow::Error(e) ==> r == Ok::<u32, Abort>(e.spec_number()) && e.spec_number()
            > 0 && final(data).memory == old(data).memory,
        !(out is Abort) ==> gas_synced(*final(data)) && last_error_view(final(data).last_error)
            == spec_after_outcome(last_error_view(old(data).last_error), module@, name@, out),
        out matches ControlFlow::Abort(a) ==> r == Err::<u32, Abort>(a) && *final(data) == *old(
            data,
        ),
        final(data).kernel == old(data).kernel,
        !(out is Abort) ==> final(data).gas_counter == final(data).kernel.spec_gas_available(),
{
    let result = match out {
        ControlFlow::Return(value) => {
            match ret {
                Some(p) => {
                    let bytes = value.encode();
                    data.memory.write_at(p as usize, bytes.as_slice());
                    assert(data.memory@.subrange(p as int, p + V::spec_size()) =~= bytes@);
                },
                None => {},
            }
            data.last_error = None;
            Ok(0)
        },
        ControlFlow::Error(err) => {
            let code = err.number();
            data.last_error = Some(
                LastError {
                    module: module.to_owned(),
                    operation: name.to_owned(),
                    message: err.into_message(),
                    code,
                },
            );
            Ok(code)
        },
        ControlFlow::Abort(abort) => {
            return Err(abort);
        },
    };
    update_gas_available(data);
    result
}

/// A syscall implementation with its arguments bound: run against the
/// kernel and the guest's memory, it yields something that classifies as a
/// `ControlFlow`.
pub trait Syscall {
    type Output: IntoControlFlow;

    fn call<K: Kernel>(&self, kernel: &mut K, memory: &mut Memory) -> (r: Self::Output)
        ensures
            final(memory)@.len() == old(memory)@.len(),
            final(kernel).spec_gas_available() <= old(kernel).spec_gas_available(),
    ;
}

/// Whether the value of syscall type `S` needs no output pointer, or fits at `ret`.
pub open spec fn slot_fits<S: Syscall>(ret: u32, mem_len: nat) -> bool {
    <<S as Syscall>::Output as IntoControlFlow>::Value::spec_size() == 0 || fits(
        ret as int,
        <<S as Syscall>::Output as IntoControlFlow>::Value::spec_size() as int,
        mem_len as int,
    )
}

/// A syscall after its gas is charged: when the success value is not
/// zero-sized, check that it can be stored at the output pointer `ret` (and,
/// if not, record `IllegalArgument` and return its code without running the
/// syscall or touching the kernel); run it; hand the outcome to the guest as
/// `finish_syscall` does. `ret` is read only for a value that is not
/// zero-sized.
pub fn call_charged<K: Kernel, S: Syscall>(
    data: &mut InvocationData<K>,
    module: &str,
    name: &str,
    ret: u32,
    syscall: &S,
) -> (r: Result<u32, Abort>)
    ensures
        !slot_fits::<S>(ret, old(data).memory@.len()) ==> r == Ok::<u32, Abort>(
            spec_illegal_argument(),
        ) && final(data).memory == old(data).memory && final(data).kernel == old(data).kernel
            && final(data).gas_counter == old(data).gas_counter && last_error_view(
            final(data).last_error,
        ) == Some((module@, name@, "no space for return value"@, spec_illegal_argument())),
        r is Err ==> final(data).gas_counter == old(data).gas_counter && final(data).last_error
            == old(data).last_error,
        r == Ok::<u32, Abort>(0) ==> final(data).last_error is None,
        r matches Ok(c) ==> (c != 0 ==> (final(data).last_error matches Some(le) && le.code == c)),
        slot_fits::<S>(ret, old(data).memory@.len()) && r is Ok ==> gas_synced(*final(data))
            && final(data).gas_counter == final(data).kernel.spec_gas_available(),
        final(data).kernel.spec_gas_available() <= old(data).kernel.spec_gas_available(),
        <<S as Syscall>::Output as IntoControlFlow>::Value::spec_size() > 0 && r == Ok::<u32, Abort>(0) ==> exists|v: <<S as Syscall>::Output as IntoControlFlow>::Value|
            final(data).memory@.subrange(ret as int, ret + <<S as Syscall>::Output as IntoControlFlow>::Value::spec_size()) == v.spec_encode(),
{
    let size = <<S as Syscall>::Output as IntoControlFlow>::Value::size();
    if size == 0 {
        let out = syscall.call(&mut data.kernel, &mut data.memory).into_control_flow();
        finish_syscall(data, module, name, out, None)
    } else {
        match check_return_slot(data, module, name, ret, size) {
            Some(code) => {
                return Ok(code);
            },
            None => {},
        }
        let out = syscall.call(&mut data.kernel, &mut data.memory).into_control_flow();
        let ghost out_g = out;
        let r = finish_syscall(data, module, name, out, Some(ret));
        proof {
            if let ControlFlow::Return(v) = out_g {
                assert(data.memory@.subrange(ret as int, ret + <<S as Syscall>::Output as IntoControlFlow>::Value::spec_size()) == v.spec_encode());
            }
        }
        r
    }
}

/// The guest-facing entry of a syscall, by the calling convention: charge
/// gas for execution and for the syscall, then go on as `call_charged`.
/// When a charge fails the syscall does not run: the result is an abort and
/// memory, the last error and the guest's gas counter are as they were. Gas
/// charged is never given back: after a call that ran, the kernel has at
/// most what the charges left, and a completed call shows exactly that to
/// the guest.
pub fn call_syscall<K: Kernel, S: Syscall>(
    data: &mut InvocationData<K>,
    module: &str,
    name: &str,
    ret: u32,
    syscall: &S,
) -> (r: Result<u32, Abort>)
    ensures
        spec_exec_gas_used(old(data).last_gas_available, old(data).gas_counter) is None ==> (
        r matches Err(Abort::Fatal(_))) && *final(data) == *old(data),
        !charges_fit(*old(data)) ==> r is Err && final(data).memory == old(data).memory
            && final(data).last_error == old(data).last_error,
        charges_fit(*old(data)) ==> final(data).kernel.spec_gas_available() <= gas_after_charges(
            *old(data),
        ),
        r is Err ==> final(data).gas_counter == old(data).gas_counter && final(data).last_error
            == old(data).last_error,
        r == Ok::<u32, Abort>(0) ==> final(data).last_error is None,
        r matches Ok(c) ==> (c != 0 ==> (final(data).last_error matches Some(le) && le.code == c)),
        charges_fit(*old(data)) && !slot_fits::<S>(ret, old(data).memory@.len()) ==> r == Ok::<
            u32,
            Abort,
        >(spec_illegal_argument()) && final(data).memory == old(data).memory
            && final(data).kernel.spec_gas_available() == gas_after_charges(*old(data))
            && last_error_view(final(data).last_error) == Some(
            (module@, name@, "no space for return value"@, spec_illegal_argument()),
        ),
        slot_fits::<S>(ret, old(data).memory@.len()) && r is Ok ==> gas_synced(*final(data))
            && final(data).gas_counter == final(data).kernel.spec_gas_available(),
        <<S as Syscall>::Output as IntoControlFlow>::Value::spec_size() > 0 && r == Ok::<u32, Abort>(0) ==> exists|v: <<S as Syscall>::Output as IntoControlFlow>::Value|
            final(data).memory@.subrange(ret as int, ret + <<S as Syscall>::Output as IntoControlFlow>::Value::spec_size()) == v.spec_encode(),
{
    charge_before_call(data)?;
    call_charged(data, module, name, ret, syscall)
}

/// A successful syscall clears the last error that a failed one before it
/// recorded: after a recoverable error the record holds that error, and after
/// a success that follows it there is no record.
pub proof fn lemma_success_clears_last_error<V, W>(
    prev: Option<LastErrorView>,
    module1: Seq<char>,
    name1: Seq<char>,
    first: ControlFlow<V>,
    module2: Seq<char>,
    name2: Seq<char>,
    second: ControlFlow<W>,
)
    requires
        first is Error,
        second is Return,
    ensures
        spec_after_outcome(prev, module1, name1, first) == Some(
            (
                module1,
                name1,
                first->Error_0.spec_message(),
                first->Error_0.spec_number(),
            ),
        ),
        spec_after_outcome(spec_after_outcome(prev, module1, name1, first), module2, name2, second)
            is None,
{
}

} // verus!

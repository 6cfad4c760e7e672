use cid::multihash::Multihash;
use cid::Cid;
use fvm_shared::address::Address;
use fvm_shared::error::ErrorNumber;
use fvm_syscalls::actor::{
    call_resolve_address, code_cid_outcome, create_actor, creation_outcome, get_actor_code_cid,
    new_actor_address, place_code_cid, place_new_address, resolution, resolve_address,
    CreateActor, GetActorCodeCid, NewActorAddress,
};
use fvm_syscalls::bind::{call_charged, call_syscall, exec_gas_used, InvocationData};
use fvm_syscalls::control::{ControlFlow, IntoControlFlow, SyscallSafe};
use fvm_syscalls::error::{Abort, ExecutionError, SyscallError};
use fvm_syscalls::kernel::{GasCharge, Kernel};
use fvm_syscalls::memory::Memory;

struct TestKernel {
    ids: Vec<(Address, u64)>,
    codes: Vec<(Address, Cid)>,
    next_address: Address,
    created: Vec<(Cid, Address)>,
    create_fails: bool,
    gas: i64,
    syscall_price: i64,
    calls: u32,
}

impl TestKernel {
    fn new(gas: i64) -> TestKernel {
        TestKernel {
            ids: Vec::new(),
            codes: Vec::new(),
            next_address: Address::new_actor(b"seed"),
            created: Vec::new(),
            create_fails: false,
            gas,
            syscall_price: 10,
            calls: 0,
        }
    }
}

impl Kernel for TestKernel {
    fn spec_gas_available(&self) -> i64 {
        self.gas
    }

    fn spec_syscall_price(&self) -> i64 {
        self.syscall_price
    }

    fn resolve_address(&self, addr: &Address) -> Result<Option<u64>, ExecutionError> {
        Ok(self.ids.iter().find(|(a, _)| a == addr).map(|(_, id)| *id))
    }

    fn get_actor_code_cid(&self, addr: &Address) -> Result<Option<Cid>, ExecutionError> {
        Ok(self.codes.iter().find(|(a, _)| a == addr).map(|(_, c)| *c))
    }

    fn new_actor_address(&mut self) -> Result<Address, ExecutionError> {
        self.calls += 1;
        Ok(self.next_address)
    }

    fn create_actor(&mut self, code_id: Cid, addr: &Address) -> Result<(), ExecutionError> {
        self.calls += 1;
        if self.create_fails {
            return Err(ExecutionError::Syscall(SyscallError::new(
                "actor exists".to_string(),
                ErrorNumber::Forbidden,
            )));
        }
        self.created.push((code_id, *addr));
        Ok(())
    }

    fn charge_gas(&mut self, _name: &str, compute: i64) -> Result<(), ExecutionError> {
        if compute > self.gas {
            return Err(ExecutionError::OutOfGas);
        }
        self.gas -= compute;
        Ok(())
    }

    fn syscall_charge(&self) -> GasCharge {
        GasCharge { name: "OnSyscall".to_string(), compute_gas: self.syscall_price }
    }

    fn gas_available(&self) -> i64 {
        self.gas
    }
}

fn code_cid() -> Cid {
    Cid::new_v1(0x55, Multihash::wrap(0, b"account").unwrap())
}

fn is_illegal_argument(e: &ExecutionError) -> bool {
    matches!(e, ExecutionError::Syscall(s) if s.number() == ErrorNumber::IllegalArgument as u32)
}

#[test]
fn read_past_end_of_memory_fails() {
    let mem = Memory::new(vec![1, 2, 3, 4, 5, 6, 7, 8, 9, 10]);
    match mem.try_slice(8, 4) {
        Err(e) => assert!(is_illegal_argument(&e)),
        Ok(_) => panic!("read past the end"),
    }
    match mem.try_slice(6, 4) {
        Ok(v) => assert_eq!(v, vec![7, 8, 9, 10]),
        Err(_) => panic!("read within memory"),
    }
    assert!(mem.try_slice(u32::MAX, 2).is_err());
    assert!(mem.check_bounds(10, 0).is_ok());
    assert!(mem.check_bounds(11, 0).is_err());
}

#[test]
fn write_past_end_of_memory_changes_nothing() {
    let mut mem = Memory::new(vec![0; 10]);
    match mem.try_write(8, 4, &[1, 2, 3]) {
        Err(e) => assert!(is_illegal_argument(&e)),
        Ok(_) => panic!("write past the end"),
    }
    assert_eq!(mem.as_bytes(), &[0u8; 10][..]);
    assert!(mem.try_write(6, 4, &[1, 2, 3]).is_ok());
    assert_eq!(mem.as_bytes(), &[0, 0, 0, 0, 0, 0, 1, 2, 3, 0][..]);
}

#[test]
fn read_address_rejects_malformed_bytes() {
    let mem = Memory::new(vec![0xff, 1, 2]);
    match mem.read_address(0, 3) {
        Err(e) => assert!(is_illegal_argument(&e)),
        Ok(_) => panic!("unknown protocol accepted"),
    }
    let mem = Memory::new(Address::new_id(7).to_bytes());
    assert_eq!(mem.read_address(0, 2).ok(), Some(Address::new_id(7)));
}

#[test]
fn read_cid_decodes_from_offset() {
    let mut bytes = vec![9, 9];
    bytes.extend(code_cid().to_bytes());
    let mem = Memory::new(bytes);
    assert_eq!(mem.read_cid(2).ok(), Some(code_cid()));
    assert!(mem.read_cid(100).is_err());
    assert!(mem.read_cid(0).is_err());
}

#[test]
fn out_pointer_outside_memory_skips_the_syscall() {
    let mut data = InvocationData::new(TestKernel::new(1000), Memory::new(vec![0; 8]));
    let call = NewActorAddress { obuf_off: 0, obuf_len: 8 };
    let r = call_syscall(&mut data, "actor", "new_actor_address", 6, &call);
    assert!(matches!(r, Ok(1)));
    assert_eq!(data.kernel.calls, 0);
    assert_eq!(data.memory.as_bytes(), &[0u8; 8][..]);
    let le = data.last_error.as_ref().unwrap();
    assert_eq!(le.module, "actor");
    assert_eq!(le.operation, "new_actor_address");
    assert_eq!(le.message, "no space for return value");
    assert_eq!(le.code, ErrorNumber::IllegalArgument as u32);
}

#[test]
fn recoverable_failure_keeps_charged_gas() {
    let mut data = InvocationData::new(TestKernel::new(1000), Memory::new(vec![0; 16]));
    let call = GetActorCodeCid { addr_off: 0, addr_len: 0, obuf_off: 0, obuf_len: 4 };
    let r = call_syscall(&mut data, "actor", "get_actor_code_cid", 8, &call);
    assert!(matches!(r, Ok(1)));
    assert_eq!(data.kernel.gas, 990);
    assert_eq!(data.gas_counter, 990);
}

#[test]
fn abort_leaves_guest_gas_counter_unsynchronised() {
    let mut data = InvocationData::new(TestKernel::new(1000), Memory::new(vec![0; 16]));
    let call = CreateActor { addr_off: 0, addr_len: 0, typ_off: 0 };
    let r = call_syscall(&mut data, "actor", "create_actor", 0, &call);
    assert!(matches!(r, Err(Abort::Fatal(_))));
    assert_eq!(data.kernel.gas, 990);
    assert_eq!(data.gas_counter, 1000);
}

#[test]
fn exhausted_budget_aborts_before_the_syscall() {
    let mut data = InvocationData::new(TestKernel::new(5), Memory::new(vec![0; 32]));
    let call = NewActorAddress { obuf_off: 0, obuf_len: 21 };
    let r = call_syscall(&mut data, "actor", "new_actor_address", 24, &call);
    assert!(matches!(r, Err(Abort::OutOfGas)));
    assert_eq!(data.kernel.calls, 0);
    assert_eq!(data.gas_counter, 5);
}

#[test]
fn execution_gas_is_charged_from_the_guest_counter() {
    let mut data = InvocationData::new(TestKernel::new(1000), Memory::new(vec![0; 32]));
    data.gas_counter = 900;
    let call = NewActorAddress { obuf_off: 0, obuf_len: 21 };
    let r = call_syscall(&mut data, "actor", "new_actor_address", 24, &call);
    assert!(matches!(r, Ok(0)));
    assert_eq!(data.kernel.gas, 890);
    assert_eq!(data.gas_counter, 890);
    assert_eq!(data.last_gas_available, 890);
}

#[test]
fn new_actor_address_needs_21_bytes() {
    let mut k = TestKernel::new(1000);
    let mut mem = Memory::new(vec![0; 32]);
    match new_actor_address(&mut k, &mut mem, 0, 20) {
        ControlFlow::Error(e) => {
            assert_eq!(e.message(), "output buffer must have a minimum capacity of 21 bytes");
            assert_eq!(e.number(), ErrorNumber::IllegalArgument as u32);
        }
        _ => panic!("short buffer accepted"),
    }
    assert_eq!(k.calls, 0);
    assert_eq!(mem.as_bytes(), &[0u8; 32][..]);
}

#[test]
fn new_actor_address_fills_21_bytes() {
    let mut k = TestKernel::new(1000);
    let mut mem = Memory::new(vec![0; 32]);
    let expected = k.next_address.to_bytes();
    assert_eq!(expected.len(), 21);
    assert!(matches!(new_actor_address(&mut k, &mut mem, 4, 21), ControlFlow::Return(21)));
    assert_eq!(&mem.as_bytes()[4..25], &expected[..]);
    assert_eq!(&mem.as_bytes()[..4], &[0u8; 4][..]);
}

#[test]
fn new_actor_address_through_the_binder_stores_the_length() {
    let mut data = InvocationData::new(TestKernel::new(1000), Memory::new(vec![0; 32]));
    let call = NewActorAddress { obuf_off: 0, obuf_len: 21 };
    let r = call_syscall(&mut data, "actor", "new_actor_address", 25, &call);
    assert!(matches!(r, Ok(0)));
    assert_eq!(&data.memory.as_bytes()[25..29], &[21, 0, 0, 0][..]);
    assert!(data.last_error.is_none());
}

#[test]
fn place_new_address_refuses_a_longer_encoding() {
    let mut mem = Memory::new(vec![0; 32]);
    match place_new_address(&mut mem, 0, 21, &[7; 22]) {
        ControlFlow::Error(e) => assert_eq!(e.number(), ErrorNumber::IllegalArgument as u32),
        _ => panic!("overlong encoding accepted"),
    }
    assert!(matches!(place_new_address(&mut mem, 20, 21, &[7; 21]), ControlFlow::Error(_)));
    assert_eq!(mem.as_bytes(), &[0u8; 32][..]);
    assert!(matches!(place_new_address(&mut mem, 0, 30, &[7; 21]), ControlFlow::Return(21)));
    assert_eq!(&mem.as_bytes()[..22], &[7, 7, 7, 7, 7, 7, 7, 7, 7, 7, 7, 7, 7, 7, 7, 7, 7, 7, 7, 7, 7, 0][..]);
}

#[test]
fn resolve_address_found_and_not_found() {
    assert_eq!(resolution(Some(7)), (0, 7));
    assert_eq!(resolution(None), (-1, 0));
    let mut k = TestKernel::new(1000);
    k.ids.push((Address::new_actor(b"x"), 7));
    let mut bytes = Address::new_actor(b"x").to_bytes();
    bytes.extend(Address::new_actor(b"y").to_bytes());
    let mem = Memory::new(bytes);
    assert!(matches!(resolve_address(&k, &mem, 0, 21), Ok((0, 7))));
    assert!(matches!(resolve_address(&k, &mem, 21, 21), Ok((-1, 0))));
    assert!(matches!(resolve_address(&k, &mem, 30, 21), Err(Abort::Fatal(_))));
}

#[test]
fn resolve_address_entry_clears_last_error() {
    let mut k = TestKernel::new(1000);
    k.ids.push((Address::new_id(3), 3));
    let mut data = InvocationData::new(k, Memory::new(Address::new_id(3).to_bytes()));
    let call = GetActorCodeCid { addr_off: 0, addr_len: 0, obuf_off: 0, obuf_len: 0 };
    assert!(matches!(call_syscall(&mut data, "actor", "get_actor_code_cid", 0, &call), Ok(1)));
    assert!(data.last_error.is_some());
    assert!(matches!(call_resolve_address(&mut data, 0, 2), Ok((0, 3))));
    assert!(data.last_error.is_none());
    assert_eq!(data.gas_counter, 980);
}

#[test]
fn get_actor_code_cid_without_actor_leaves_buffer() {
    let k = TestKernel::new(1000);
    let mut bytes = Address::new_id(1).to_bytes();
    bytes.extend(vec![0xaa; 40]);
    let mut mem = Memory::new(bytes.clone());
    assert!(matches!(get_actor_code_cid(&k, &mut mem, 0, 2, 2, 40), ControlFlow::Return(-1)));
    assert_eq!(mem.as_bytes(), &bytes[..]);
}

#[test]
fn get_actor_code_cid_writes_the_encoding() {
    let mut k = TestKernel::new(1000);
    k.codes.push((Address::new_id(1), code_cid()));
    let mut bytes = Address::new_id(1).to_bytes();
    bytes.extend(vec![0xaa; 40]);
    let mut mem = Memory::new(bytes);
    assert!(matches!(get_actor_code_cid(&k, &mut mem, 0, 2, 2, 40), ControlFlow::Return(0)));
    let enc = code_cid().to_bytes();
    assert_eq!(&mem.as_bytes()[2..2 + enc.len()], &enc[..]);
    assert_eq!(mem.as_bytes()[2 + enc.len()], 0xaa);
}

#[test]
fn get_actor_code_cid_with_small_buffer_is_fatal() {
    let mut k = TestKernel::new(1000);
    k.codes.push((Address::new_id(1), code_cid()));
    let mut bytes = Address::new_id(1).to_bytes();
    bytes.extend(vec![0xaa; 40]);
    let mut mem = Memory::new(bytes.clone());
    assert!(matches!(
        get_actor_code_cid(&k, &mut mem, 0, 2, 2, 3),
        ControlFlow::Abort(Abort::Fatal(_))
    ));
    assert_eq!(mem.as_bytes(), &bytes[..]);
    assert!(matches!(get_actor_code_cid(&k, &mut mem, 0, 2, 30, 40), ControlFlow::Error(_)));
    assert!(matches!(place_code_cid(&mut mem, 0, 2, &[1, 2, 3]), ControlFlow::Abort(_)));
}

#[test]
fn success_after_failure_clears_last_error() {
    let mut data = InvocationData::new(TestKernel::new(1000), Memory::new(vec![0; 32]));
    let bad = NewActorAddress { obuf_off: 0, obuf_len: 20 };
    assert!(matches!(call_syscall(&mut data, "actor", "new_actor_address", 24, &bad), Ok(1)));
    let le = data.last_error.as_ref().unwrap();
    assert_eq!(le.message, "output buffer must have a minimum capacity of 21 bytes");
    let good = NewActorAddress { obuf_off: 0, obuf_len: 21 };
    assert!(matches!(call_syscall(&mut data, "actor", "new_actor_address", 24, &good), Ok(0)));
    assert!(data.last_error.is_none());
}

#[test]
fn create_actor_turns_kernel_errors_into_aborts() {
    let mut k = TestKernel::new(1000);
    k.create_fails = true;
    let mut bytes = Address::new_id(9).to_bytes();
    bytes.extend(code_cid().to_bytes());
    let mem = Memory::new(bytes);
    match create_actor(&mut k, &mem, 0, 2, 2) {
        ControlFlow::Abort(Abort::Fatal(m)) => assert_eq!(m, "actor exists"),
        _ => panic!("kernel error not turned into an abort"),
    }
}

#[test]
fn create_actor_through_the_binder_returns_zero() {
    let mut bytes = Address::new_id(9).to_bytes();
    bytes.extend(code_cid().to_bytes());
    let mut data = InvocationData::new(TestKernel::new(1000), Memory::new(bytes.clone()));
    let call = CreateActor { addr_off: 0, addr_len: 2, typ_off: 2 };
    assert!(matches!(call_syscall(&mut data, "actor", "create_actor", 0, &call), Ok(0)));
    assert_eq!(data.kernel.created, vec![(code_cid(), Address::new_id(9))]);
    assert_eq!(data.memory.as_bytes(), &bytes[..]);
}

#[test]
fn kernel_errors_are_classified() {
    let r: Result<u32, ExecutionError> = Ok(5);
    assert!(matches!(r.into_control_flow(), ControlFlow::Return(5)));
    let r: Result<u32, ExecutionError> = Err(ExecutionError::OutOfGas);
    assert!(matches!(r.into_control_flow(), ControlFlow::Abort(Abort::OutOfGas)));
    let r: Result<u32, ExecutionError> = Err(ExecutionError::Fatal("broken".to_string()));
    assert!(matches!(r.into_control_flow(), ControlFlow::Abort(Abort::Fatal(_))));
    let e = SyscallError::new("missing".to_string(), ErrorNumber::NotFound);
    assert_eq!(e.number(), 6);
    let c: ControlFlow<u32> = ControlFlow::from(ExecutionError::Syscall(e));
    assert!(matches!(c, ControlFlow::Error(ref s) if s.number() == 6 && s.message() == "missing"));
    assert!(matches!(Abort::Fatal("x".to_string()).into_control_flow(), ControlFlow::Abort(_)));
    assert!(matches!(
        Abort::from_error_as_fatal(ExecutionError::OutOfGas),
        Abort::OutOfGas
    ));
}

#[test]
fn values_are_stored_little_endian() {
    assert_eq!(0x01020304u32.encode(), vec![4, 3, 2, 1]);
    assert_eq!((-1i32).encode(), vec![255, 255, 255, 255]);
    assert_eq!(0x0102030405060708u64.encode(), vec![8, 7, 6, 5, 4, 3, 2, 1]);
    assert_eq!(<u64 as SyscallSafe>::size(), 8);
    assert_eq!(<() as SyscallSafe>::size(), 0);
}

#[test]
fn kernel_error_number_reaches_the_guest() {
    struct Missing(TestKernel);
    impl Kernel for Missing {
        fn spec_gas_available(&self) -> i64 {
            self.0.gas
        }
        fn spec_syscall_price(&self) -> i64 {
            self.0.syscall_price
        }
        fn resolve_address(&self, a: &Address) -> Result<Option<u64>, ExecutionError> {
            self.0.resolve_address(a)
        }
        fn get_actor_code_cid(&self, _a: &Address) -> Result<Option<Cid>, ExecutionError> {
            Err(ExecutionError::Syscall(SyscallError::new(
                "no such actor".to_string(),
                ErrorNumber::NotFound,
            )))
        }
        fn new_actor_address(&mut self) -> Result<Address, ExecutionError> {
            self.0.new_actor_address()
        }
        fn create_actor(&mut self, c: Cid, a: &Address) -> Result<(), ExecutionError> {
            self.0.create_actor(c, a)
        }
        fn charge_gas(&mut self, n: &str, g: i64) -> Result<(), ExecutionError> {
            self.0.charge_gas(n, g)
        }
        fn syscall_charge(&self) -> GasCharge {
            self.0.syscall_charge()
        }
        fn gas_available(&self) -> i64 {
            self.0.gas_available()
        }
    }
    let mut bytes = Address::new_id(1).to_bytes();
    bytes.extend(vec![0; 8]);
    let mut data = InvocationData::new(Missing(TestKernel::new(100)), Memory::new(bytes));
    let call = GetActorCodeCid { addr_off: 0, addr_len: 2, obuf_off: 2, obuf_len: 4 };
    assert!(matches!(call_syscall(&mut data, "actor", "get_actor_code_cid", 6, &call), Ok(6)));
    assert_eq!(data.last_error.as_ref().unwrap().message, "no such actor");
    assert_eq!(data.memory.as_bytes(), &[0, 1, 0, 0, 0, 0, 0, 0, 0, 0][..]);
}

#[test]
fn code_cid_outcome_without_actor_writes_nothing() {
    let mut mem = Memory::new(vec![5; 8]);
    assert!(matches!(code_cid_outcome(&mut mem, 0, 8, None), ControlFlow::Return(-1)));
    assert_eq!(mem.as_bytes(), &[5u8; 8][..]);
    assert!(matches!(code_cid_outcome(&mut mem, 2, 4, Some(vec![1, 2])), ControlFlow::Return(0)));
    assert_eq!(mem.as_bytes(), &[5, 5, 1, 2, 5, 5, 5, 5][..]);
}

#[test]
fn creation_outcome_maps_every_error_to_an_abort() {
    assert!(matches!(creation_outcome(Ok(())), ControlFlow::Return(())));
    let e = SyscallError::new("taken".to_string(), ErrorNumber::Forbidden);
    match creation_outcome(Err(ExecutionError::Syscall(e))) {
        ControlFlow::Abort(Abort::Fatal(m)) => assert_eq!(m, "taken"),
        _ => panic!("recoverable kernel error not turned into an abort"),
    }
    assert!(matches!(
        creation_outcome(Err(ExecutionError::OutOfGas)),
        ControlFlow::Abort(Abort::OutOfGas)
    ));
}

#[test]
fn exec_gas_used_is_the_counter_drop() {
    assert_eq!(exec_gas_used(1000, 900), Some(100));
    assert_eq!(exec_gas_used(1000, 1000), Some(0));
    assert_eq!(exec_gas_used(900, 1000), None);
    assert_eq!(exec_gas_used(i64::MAX, -1), None);
}

#[test]
fn counters_out_of_range_abort_without_change() {
    let mut data = InvocationData::new(TestKernel::new(1000), Memory::new(vec![0; 32]));
    data.gas_counter = 2000;
    let call = NewActorAddress { obuf_off: 0, obuf_len: 21 };
    let r = call_syscall(&mut data, "actor", "new_actor_address", 24, &call);
    match r {
        Err(Abort::Fatal(m)) => assert_eq!(m, "gas counter out of range"),
        _ => panic!("counter above the last synchronised value accepted"),
    }
    assert_eq!(data.kernel.gas, 1000);
    assert_eq!(data.kernel.calls, 0);
    assert_eq!(data.gas_counter, 2000);
}

#[test]
fn failed_syscall_charge_changes_no_memory_or_last_error() {
    let mut k = TestKernel::new(1000);
    k.syscall_price = 2000;
    let mut data = InvocationData::new(k, Memory::new(vec![3; 32]));
    let bad = NewActorAddress { obuf_off: 0, obuf_len: 4 };
    data.kernel.syscall_price = 0;
    assert!(matches!(call_syscall(&mut data, "actor", "new_actor_address", 24, &bad), Ok(1)));
    data.kernel.syscall_price = 2000;
    let call = NewActorAddress { obuf_off: 0, obuf_len: 21 };
    let r = call_syscall(&mut data, "actor", "new_actor_address", 24, &call);
    assert!(matches!(r, Err(Abort::OutOfGas)));
    assert_eq!(data.kernel.calls, 0);
    assert_eq!(data.memory.as_bytes(), &[3u8; 32][..]);
    assert_eq!(data.last_error.as_ref().unwrap().code, 1);
}

#[test]
fn call_charged_skips_the_syscall_without_a_slot() {
    let mut data = InvocationData::new(TestKernel::new(1000), Memory::new(vec![0; 8]));
    let call = NewActorAddress { obuf_off: 0, obuf_len: 21 };
    assert!(matches!(call_charged(&mut data, "actor", "new_actor_address", 5, &call), Ok(1)));
    assert_eq!(data.kernel.calls, 0);
    assert_eq!(data.kernel.gas, 1000);
}

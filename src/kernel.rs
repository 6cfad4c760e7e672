use vstd::prelude::*;
use cid::Cid;
use fvm_shared::address::Address;
use crate::error::ExecutionError;

verus! {

/// The gas that the price list asks for one syscall.
pub struct GasCharge {
    pub name: String,
    pub compute_gas: i64,
}

/// The host kernel that syscalls act on. The embedder implements it. Of its
/// answers nothing is assumed; of its gas accounting, that a charge succeeds
/// exactly when the budget covers it and then takes exactly that much, that
/// the per-syscall price is not negative and does not change when gas is
/// charged, and that no other operation gives gas back.
pub trait Kernel {
    /// The gas left in the budget.
    spec fn spec_gas_available(&self) -> i64;

    /// The price of one syscall in the price list.
    spec fn spec_syscall_price(&self) -> i64;

    /// The id that an address resolves to, if any.
    fn resolve_address(&self, addr: &Address) -> Result<Option<u64>, ExecutionError>;

    /// The code identifier of the actor at an address, if there is one.
    fn get_actor_code_cid(&self, addr: &Address) -> Result<Option<Cid>, ExecutionError>;

    /// A fresh actor address, unique within this invocation.
    fn new_actor_address(&mut self) -> (r: Result<Address, ExecutionError>)
        ensures
            final(self).spec_gas_available() <= old(self).spec_gas_available(),
    ;

    /// Creates an actor of the given code at the given address.
    fn create_actor(&mut self, code_id: Cid, addr: &Address) -> (r: Result<(), ExecutionError>)
        ensures
            final(self).spec_gas_available() <= old(self).spec_gas_available(),
    ;

    /// Charges gas; fails when the budget does not cover it.
    fn charge_gas(&mut self, name: &str, compute: i64) -> (r: Result<(), ExecutionError>)
        requires
            compute >= 0,
        ensures
            r is Ok <==> compute <= old(self).spec_gas_available(),
            r is Ok ==> final(self).spec_gas_available() == old(self).spec_gas_available() - compute,
            final(self).spec_syscall_price() == old(self).spec_syscall_price(),
    ;

    /// The per-syscall charge of the price list.
    fn syscall_charge(&self) -> (r: GasCharge)
        ensures
            r.compute_gas == self.spec_syscall_price(),
            r.compute_gas >= 0,
    ;

    /// The gas left in the budget.
    fn gas_available(&self) -> (r: i64)
        ensures
            r == self.spec_gas_available(),
    ;
}

} // verus!

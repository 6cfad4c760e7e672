use vstd::prelude::*;
use fvm_shared::error::ErrorNumber;

verus! {

/// The numeric code of `ErrorNumber::IllegalArgument`.
pub open spec fn spec_illegal_argument() -> u32 {
    1
}

/// Relies on fvm_shared's `ErrorNumber`: `IllegalArgument` is declared with the value 1.
#[verifier::external_body]
pub(crate) fn illegal_argument_code() -> (r: u32)
    ensures
        r == spec_illegal_argument(),
{
    ErrorNumber::IllegalArgument as u32
}

#[verifier::external_type_specification]
#[verifier::external_body]
pub struct ExErrorNumber(fvm_shared::error::ErrorNumber);

/// Relies on fvm_shared's `ErrorNumber`: its variants are numbered from 1 to 13.
#[verifier::external_body]
fn error_number_code(e: ErrorNumber) -> (r: u32)
    ensures
        1 <= r <= 13,
{
    e as u32
}

/// A recoverable failure: reported to the guest as its error number, with a
/// message kept for diagnostics.
pub struct SyscallError {
    message: String,
    number: u32,
}

impl SyscallError {
    #[verifier::type_invariant]
    spec fn number_positive(&self) -> bool {
        self.number > 0
    }

    pub closed spec fn spec_message(&self) -> Seq<char> {
        self.message@
    }

    pub closed spec fn spec_number(&self) -> u32 {
        self.number
    }

    pub fn new(message: String, number: ErrorNumber) -> (r: SyscallError)
        ensures
            r.spec_message() == message@,
            r.spec_number() >= 1,
    {
        SyscallError { message, number: error_number_code(number) }
    }

    /// An `IllegalArgument` error with the given message.
    pub fn illegal_argument(message: &str) -> (r: SyscallError)
        ensures
            r.spec_message() == message@,
            r.spec_number() == spec_illegal_argument(),
    {
        SyscallError { message: message.to_owned(), number: illegal_argument_code() }
    }

    pub fn message(&self) -> (r: &str)
        ensures
            r@ == self.spec_message(),
    {
        self.message.as_str()
    }

    /// The error number; never 0, which stands for success.
    pub fn number(&self) -> (r: u32)
        ensures
            r == self.spec_number(),
            r > 0,
    {
        proof {
            use_type_invariant(self);
        }
        self.number
    }

    pub fn into_message(self) -> (r: String)
        ensures
            r@ == self.spec_message(),
    {
        self.message
    }
}

/// What a kernel call can fail with.
pub enum ExecutionError {
    /// Recoverable: handed back to the guest as an error number.
    Syscall(SyscallError),
    /// Unrecoverable: ends the invocation.
    Fatal(String),
    /// The gas budget is exhausted.
    OutOfGas,
}

/// Why an invocation is torn down.
pub enum Abort {
    /// A fatal error, with its diagnostic.
    Fatal(String),
    /// The gas budget is exhausted.
    OutOfGas,
}

/// The abort that an execution error becomes where no error may be handed
/// back to the guest: out-of-gas stays out-of-gas, everything else is fatal.
pub open spec fn is_abort_of(a: Abort, e: ExecutionError) -> bool {
    match e {
        ExecutionError::Syscall(s) => a matches Abort::Fatal(m) && m@ == s.spec_message(),
        ExecutionError::Fatal(m) => a == Abort::Fatal(m),
        ExecutionError::OutOfGas => a is OutOfGas,
    }
}

impl Abort {
    /// Treats any execution error as fatal, keeping out-of-gas apart.
    pub fn from_error_as_fatal(e: ExecutionError) -> (r: Abort)
        ensures
            is_abort_of(r, e),
    {
        match e {
            ExecutionError::Syscall(s) => Abort::Fatal(s.into_message()),
            ExecutionError::Fatal(m) => Abort::Fatal(m),
            ExecutionError::OutOfGas => Abort::OutOfGas,
        }
    }
}

} // verus!

use vstd::prelude::*;
use crate::error::{Abort, ExecutionError, SyscallError};

verus! {

/// The outcome of a syscall: a value for the guest, a recoverable error, or an
/// abort of the whole invocation.
pub enum ControlFlow<T> {
    Return(T),
    Error(SyscallError),
    Abort(Abort),
}

/// How an execution error is classified.
pub open spec fn spec_classify<T>(e: ExecutionError) -> ControlFlow<T> {
    match e {
        ExecutionError::Syscall(err) => ControlFlow::Error(err),
        ExecutionError::Fatal(m) => ControlFlow::Abort(Abort::Fatal(m)),
        ExecutionError::OutOfGas => ControlFlow::Abort(Abort::OutOfGas),
    }
}

impl<T> From<ExecutionError> for ControlFlow<T> {
    fn from(value: ExecutionError) -> (r: ControlFlow<T>) {
        match value {
            ExecutionError::Syscall(err) => ControlFlow::Error(err),
            ExecutionError::Fatal(m) => ControlFlow::Abort(Abort::Fatal(m)),
            ExecutionError::OutOfGas => ControlFlow::Abort(Abort::OutOfGas),
        }
    }
}

impl<T> vstd::std_specs::convert::FromSpecImpl<ExecutionError> for ControlFlow<T> {
    open spec fn obeys_from_spec() -> bool {
        true
    }

    open spec fn from_spec(v: ExecutionError) -> ControlFlow<T> {
        spec_classify(v)
    }
}

/// A value that can be stored in guest memory: it has a fixed size and a
/// byte encoding of that size (little-endian, as WebAssembly memory is).
pub trait SyscallSafe: Sized {
    spec fn spec_size() -> nat;

    spec fn spec_encode(&self) -> Seq<u8>;

    fn size() -> (r: usize)
        ensures
            r as nat == Self::spec_size(),
    ;

    fn encode(&self) -> (r: Vec<u8>)
        ensures
            r@ == self.spec_encode(),
            r@.len() == Self::spec_size(),
    ;
}

/// A type with no values: the success type of a syscall that can only abort,
/// so that no `Return` can be built for it.
pub type Never = core::convert::Infallible;

impl SyscallSafe for Never {
    open spec fn spec_size() -> nat {
        0
    }

    open spec fn spec_encode(&self) -> Seq<u8> {
        Seq::empty()
    }

    fn size() -> (r: usize) {
        0
    }

    fn encode(&self) -> (r: Vec<u8>) {
        Vec::new()
    }
}

impl SyscallSafe for () {
    open spec fn spec_size() -> nat {
        0
    }

    open spec fn spec_encode(&self) -> Seq<u8> {
        Seq::empty()
    }

    fn size() -> (r: usize) {
        0
    }

    fn encode(&self) -> (r: Vec<u8>) {
        Vec::new()
    }
}

/// The little-endian bytes of a 32-bit word.
pub open spec fn le_bytes_u32(v: u32) -> Seq<u8> {
    seq![
        (v & 0xff) as u8,
        ((v >> 8u32) & 0xff) as u8,
        ((v >> 16u32) & 0xff) as u8,
        ((v >> 24u32) & 0xff) as u8,
    ]
}

/// The little-endian bytes of a 64-bit word.
pub open spec fn le_bytes_u64(v: u64) -> Seq<u8> {
    seq![
        (v & 0xff) as u8,
        ((v >> 8u64) & 0xff) as u8,
        ((v >> 16u64) & 0xff) as u8,
        ((v >> 24u64) & 0xff) as u8,
        ((v >> 32u64) & 0xff) as u8,
        ((v >> 40u64) & 0xff) as u8,
        ((v >> 48u64) & 0xff) as u8,
        ((v >> 56u64) & 0xff) as u8,
    ]
}

fn encode_u32(v: u32) -> (r: Vec<u8>)
    ensures
        r@ == le_bytes_u32(v),
{
    let mut r: Vec<u8> = Vec::new();
    r.push((v & 0xff) as u8);
    r.push(((v >> 8u32) & 0xff) as u8);
    r.push(((v >> 16u32) & 0xff) as u8);
    r.push(((v >> 24u32) & 0xff) as u8);
    assert(r@ =~= le_bytes_u32(v));
    r
}

fn encode_u64(v: u64) -> (r: Vec<u8>)
    ensures
        r@ == le_bytes_u64(v),
{
    let mut r: Vec<u8> = Vec::new();
    r.push((v & 0xff) as u8);
    r.push(((v >> 8u64) & 0xff) as u8);
    r.push(((v >> 16u64) & 0xff) as u8);
    r.push(((v >> 24u64) & 0xff) as u8);
    r.push(((v >> 32u64) & 0xff) as u8);
    r.push(((v >> 40u64) & 0xff) as u8);
    r.push(((v >> 48u64) & 0xff) as u8);
    r.push(((v >> 56u64) & 0xff) as u8);
    assert(r@ =~= le_bytes_u64(v));
    r
}

impl SyscallSafe for u32 {
    open spec fn spec_size() -> nat {
        4
    }

    open spec fn spec_encode(&self) -> Seq<u8> {
        le_bytes_u32(*self)
    }

    fn size() -> (r: usize) {
        4
    }

    fn encode(&self) -> (r: Vec<u8>) {
        encode_u32(*self)
    }
}

impl SyscallSafe for i32 {
    open spec fn spec_size() -> nat {
        4
    }

    open spec fn spec_encode(&self) -> Seq<u8> {
        le_bytes_u32(*self as u32)
    }

    fn size() -> (r: usize) {
        4
    }

    fn encode(&self) -> (r: Vec<u8>) {
        encode_u32(*self as u32)
    }
}

impl SyscallSafe for u64 {
    open spec fn spec_size() -> nat {
        8
    }

    open spec fn spec_encode(&self) -> Seq<u8> {
        le_bytes_u64(*self)
    }

    fn size() -> (r: usize) {
        8
    }

    fn encode(&self) -> (r: Vec<u8>) {
        encode_u64(*self)
    }
}

impl SyscallSafe for i64 {
    open spec fn spec_size() -> nat {
        8
    }

    open spec fn spec_encode(&self) -> Seq<u8> {
        le_bytes_u64(*self as u64)
    }

    fn size() -> (r: usize) {
        8
    }

    fn encode(&self) -> (r: Vec<u8>) {
        encode_u64(*self as u64)
    }
}

/// What a syscall implementation returns, turned into a `ControlFlow`.
pub trait IntoControlFlow: Sized {
    type Value: SyscallSafe;

    spec fn spec_control_flow(self) -> ControlFlow<Self::Value>;

    fn into_control_flow(self) -> (r: ControlFlow<Self::Value>)
        ensures
            r == self.spec_control_flow(),
    ;
}

/// A syscall that always aborts.
impl IntoControlFlow for Abort {
    type Value = Never;

    open spec fn spec_control_flow(self) -> ControlFlow<Never> {
        ControlFlow::Abort(self)
    }

    fn into_control_flow(self) -> (r: ControlFlow<Never>) {
        ControlFlow::Abort(self)
    }
}

/// A syscall that already decides between return, error and abort.
impl<T: SyscallSafe> IntoControlFlow for ControlFlow<T> {
    type Value = T;

    open spec fn spec_control_flow(self) -> ControlFlow<T> {
        self
    }

    fn into_control_flow(self) -> (r: ControlFlow<T>) {
        self
    }
}

/// A syscall that returns a kernel result.
impl<T: SyscallSafe> IntoControlFlow for Result<T, ExecutionError> {
    type Value = T;

    open spec fn spec_control_flow(self) -> ControlFlow<T> {
        match self {
            Ok(v) => ControlFlow::Return(v),
            Err(e) => spec_classify(e),
        }
    }

    fn into_control_flow(self) -> (r: ControlFlow<T>) {
        match self {
            Ok(value) => ControlFlow::Return(value),
            Err(e) => match e {
                ExecutionError::Syscall(err) => ControlFlow::Error(err),
                ExecutionError::OutOfGas => ControlFlow::Abort(Abort::OutOfGas),
                ExecutionError::Fatal(m) => ControlFlow::Abort(Abort::Fatal(m)),
            },
        }
    }
}

} // verus!

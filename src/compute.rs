//! Compute backends: byte reversal, byte increment, SHA-256 digest and
//! precompile dispatch by method name.
use revm::precompile::hash::sha256_run;
use vstd::prelude::*;

use crate::reth::{dispatch_reply, Reth};
use crate::selector::precompile_address;

verus! {

/// Why a computation produced no output.
#[derive(Debug)]
pub enum ComputeError {
    /// The method name selects no operation of the backend.
    UnknownSelector,
    /// The backend does not provide the selected operation.
    BackendUnavailable,
    /// The operation reverted with these bytes.
    Reverted(Vec<u8>),
    /// The operation halted for the reason described.
    Halted(String),
    /// The operation failed fatally for the reason described.
    Fatal(String),
}

/// The SHA-256 digest of a byte sequence.
pub uninterp spec fn sha256_of(input: Seq<u8>) -> Seq<u8>;

/// Gas that the SHA-256 precompile charges for an input of `len` bytes.
pub open spec fn sha256_gas(len: nat) -> nat {
    60 + 12 * ((len + 31) / 32)
}

/// Relies on revm's `hash::sha256_run`: out of gas when the linear cost
/// exceeds the limit, else the 32-byte SHA-256 digest of the input.
#[verifier::external_body]
fn run_sha256(input: &[u8], gas_limit: u64) -> (r: Option<Vec<u8>>)
    ensures
        r is Some <==> sha256_gas(input@.len()) <= gas_limit,
        r matches Some(d) ==> d@ == sha256_of(input@) && d@.len() == 32,
{
    sha256_run(input, gas_limit).ok().map(|o| o.bytes.to_vec())
}

/// The increment of one byte, wrapping 255 to 0.
pub open spec fn inc_byte(b: u8) -> u8 {
    ((b as int + 1) % 256) as u8
}

/// The bytes in reverse order.
pub fn reverse_bytes(input: &[u8]) -> (r: Vec<u8>)
    ensures
        r@ == input@.reverse(),
{
    let n = input.len();
    let mut out: Vec<u8> = Vec::new();
    let mut i: usize = 0;
    while i < n
        invariant
            i <= n == input@.len(),
            out@.len() == i,
            forall|k: int| 0 <= k < i ==> out@[k] == input@[n - 1 - k],
        decreases n - i,
    {
        out.push(input[n - 1 - i]);
        i = i + 1;
    }
    assert(out@ =~= input@.reverse());
    out
}

/// Each byte plus one, modulo 256.
pub fn increment_bytes(input: &[u8]) -> (r: Vec<u8>)
    ensures
        r@ == input@.map_values(|b: u8| inc_byte(b)),
        forall|k: int| 0 <= k < input@.len() ==> r@[k] as int == (input@[k] as int + 1) % 256,
{
    let n = input.len();
    let mut out: Vec<u8> = Vec::new();
    let mut i: usize = 0;
    while i < n
        invariant
            i <= n == input@.len(),
            out@.len() == i,
            forall|k: int| 0 <= k < i ==> out@[k] == inc_byte(input@[k]),
        decreases n - i,
    {
        let b = input[i];
        let c: u8 = if b == 255u8 { 0u8 } else { b + 1 };
        out.push(c);
        i = i + 1;
    }
    assert(out@ =~= input@.map_values(|b: u8| inc_byte(b)));
    out
}

/// The SHA-256 digest of the input.
pub fn digest(input: &[u8]) -> (r: Vec<u8>)
    ensures
        r@ == sha256_of(input@),
        r@.len() == 32,
{
    let n = input.len();
    proof {
        let len = input@.len();
        assert(len == n as nat);
        assert(sha256_gas(len) <= u64::MAX) by (nonlinear_arith)
            requires
                len <= 0xffff_ffff_ffff_ffffnat,
                sha256_gas(len) == 60 + 12 * ((len + 31) / 32),
        ;
    }
    match run_sha256(input, 0xffff_ffff_ffff_ffffu64) {
        Some(d) => d,
        None => Vec::new(),
    }
}

/// A compute backend.
pub enum Backend {
    Reverse,
    Increment,
    Digest,
    Precompiles(Reth),
}

impl Backend {
    /// Whether the backend offers several operations, so that a session
    /// binds a selector.
    pub fn is_multi_method(&self) -> (r: bool)
        ensures
            r == (self is Precompiles),
    {
        matches!(self, Backend::Precompiles(_))
    }
}

/// What `compute` promises of its result.
pub open spec fn compute_post(
    backend: &Backend,
    selector: Seq<char>,
    input: Seq<u8>,
    r: Result<Vec<u8>, ComputeError>,
) -> bool {
    match backend {
        Backend::Reverse => r matches Ok(v) && v@ == input.reverse(),
        Backend::Increment => r matches Ok(v) && v@ == input.map_values(|b: u8| inc_byte(b)),
        Backend::Digest => r matches Ok(v) && v@ == sha256_of(input) && v@.len() == 32,
        Backend::Precompiles(reth) => match precompile_address(selector) {
            None => r == Err::<Vec<u8>, ComputeError>(ComputeError::UnknownSelector),
            Some(a) => r == dispatch_reply(*reth, a, input),
        },
    }
}

/// Runs the backend's operation on the input; only a multi-method backend
/// reads the selector.
pub fn compute(backend: &Backend, selector: &str, input: &[u8]) -> (r: Result<Vec<u8>, ComputeError>)
    ensures
        compute_post(backend, selector@, input@, r),
{
    match backend {
        Backend::Reverse => Ok(reverse_bytes(input)),
        Backend::Increment => Ok(increment_bytes(input)),
        Backend::Digest => Ok(digest(input)),
        Backend::Precompiles(reth) => reth.handle_precompile_call(selector, input),
    }
}

/// Reversing twice gives the bytes back, and reversing nothing gives nothing.
pub proof fn lemma_reverse_involution(s: Seq<u8>)
    ensures
        s.reverse().reverse() == s,
        Seq::<u8>::empty().reverse() == Seq::<u8>::empty(),
{
    assert(s.reverse().reverse() =~= s);
    assert(Seq::<u8>::empty().reverse() =~= Seq::<u8>::empty());
}

/// The digest backend's output is a function of the input bytes alone.
pub proof fn lemma_digest_deterministic(a: Seq<u8>, b: Seq<u8>)
    requires
        a == b,
    ensures
        sha256_of(a) == sha256_of(b),
{
}

} // verus!

verus! {

/// The precompile backend answers the name `not-a-real-method` with
/// `UnknownSelector`, whatever the input bytes.
pub proof fn lemma_unknown_selector(backend: &Backend, input: Seq<u8>, r: Result<Vec<u8>, ComputeError>)
    requires
        backend is Precompiles,
        compute_post(backend, "not-a-real-method"@, input, r),
    ensures
        r == Err::<Vec<u8>, ComputeError>(ComputeError::UnknownSelector),
{
    crate::selector::lemma_unknown_name();
}

} // verus!

//! The precompile backend: revm's precompile set for the latest spec.
use revm::precompile::{u64_to_address, PrecompileStatus, Precompiles};
use vstd::prelude::*;

use crate::compute::ComputeError;
use crate::selector::{lookup_precompile, precompile_address};

verus! {

#[verifier::external_type_specification]
#[verifier::external_body]
pub struct ExPrecompiles(Precompiles);

/// Gas limit under which every precompile call runs.
pub const GAS_LIMIT: u64 = 0xffff_ffff_ffff_ffff;

/// What one precompile run came to.
#[derive(Debug)]
pub enum PrecompileOutcome {
    /// Ran to completion with these output bytes.
    Success(Vec<u8>),
    /// Reverted with these output bytes.
    Revert(Vec<u8>),
    /// Halted for the reason described.
    Halt(String),
    /// Failed fatally for the reason described.
    Fatal(String),
}

/// The addresses at which a precompile set holds a precompile.
pub uninterp spec fn precompile_addresses(set: Precompiles) -> Set<u64>;

/// What running the precompile at an address of a set on an input under a
/// gas limit comes to.
pub uninterp spec fn precompile_outcome(
    set: Precompiles,
    address: u64,
    input: Seq<u8>,
    gas_limit: u64,
) -> PrecompileOutcome;

/// Relies on revm's `Precompiles::latest`: the precompile set of the newest
/// spec, which holds the precompiles at addresses 0x1 to 0x11.
#[verifier::external_body]
fn latest_precompiles() -> (r: Precompiles)
    ensures
        forall|a: u64| 1 <= a <= 17 ==> #[trigger] precompile_addresses(r).contains(a),
{
    Precompiles::latest().clone()
}

/// Relies on revm's `Precompiles::get` (with `u64_to_address` spelling the
/// number as an address) and `Precompile::execute`: finds the precompile at
/// the address, if the set holds one, and runs it on the input under the gas
/// limit with an empty state-gas reservoir.
#[verifier::external_body]
fn run_precompile(set: &Precompiles, address: u64, input: &[u8], gas_limit: u64) -> (r: Option<
    PrecompileOutcome,
>)
    ensures
        r is Some <==> precompile_addresses(*set).contains(address),
        r matches Some(o) ==> o == precompile_outcome(*set, address, input@, gas_limit),
{
    let p = set.get(&u64_to_address(address))?;
    Some(match p.execute(input, gas_limit, 0) {
        Ok(out) => match out.status {
            PrecompileStatus::Success => PrecompileOutcome::Success(out.bytes.to_vec()),
            PrecompileStatus::Revert => PrecompileOutcome::Revert(out.bytes.to_vec()),
            PrecompileStatus::Halt(h) => PrecompileOutcome::Halt(format!("{:?}", h)),
        },
        Err(e) => PrecompileOutcome::Fatal(format!("{:?}", e)),
    })
}

/// The reply owed for a precompile outcome: its output on success, a
/// backend failure otherwise.
pub open spec fn reply_of(o: PrecompileOutcome) -> Result<Vec<u8>, ComputeError> {
    match o {
        PrecompileOutcome::Success(b) => Ok(b),
        PrecompileOutcome::Revert(b) => Err(ComputeError::Reverted(b)),
        PrecompileOutcome::Halt(d) => Err(ComputeError::Halted(d)),
        PrecompileOutcome::Fatal(d) => Err(ComputeError::Fatal(d)),
    }
}

/// Turns a precompile outcome into the reply owed for it.
pub fn precompile_reply(o: PrecompileOutcome) -> (r: Result<Vec<u8>, ComputeError>)
    ensures
        r == reply_of(o),
{
    match o {
        PrecompileOutcome::Success(b) => Ok(b),
        PrecompileOutcome::Revert(b) => Err(ComputeError::Reverted(b)),
        PrecompileOutcome::Halt(d) => Err(ComputeError::Halted(d)),
        PrecompileOutcome::Fatal(d) => Err(ComputeError::Fatal(d)),
    }
}

/// A precompile dispatcher over the latest spec's precompile set.
pub struct Reth {
    precompiles: Precompiles,
}

/// The reply owed for the method at `address` of the dispatcher's set, run
/// on `input`: what the run came to, or `BackendUnavailable` where the set
/// holds no precompile there.
pub open spec fn dispatch_reply(reth: Reth, address: u64, input: Seq<u8>) -> Result<
    Vec<u8>,
    ComputeError,
> {
    if precompile_addresses(reth.precompile_set()).contains(address) {
        reply_of(precompile_outcome(reth.precompile_set(), address, input, GAS_LIMIT))
    } else {
        Err(ComputeError::BackendUnavailable)
    }
}

impl Reth {
    /// The precompile set the dispatcher runs.
    pub closed spec fn precompile_set(self) -> Precompiles {
        self.precompiles
    }

    /// A dispatcher over the latest spec's set, which holds a precompile at
    /// every address of the method table.
    pub fn new() -> (r: Self)
        ensures
            forall|a: u64| 1 <= a <= 17 ==> #[trigger] precompile_addresses(r.precompile_set()).contains(a),
    {
        Reth { precompiles: latest_precompiles() }
    }

    /// Runs the precompile that `method` names on `input`. An unknown name
    /// fails with `UnknownSelector`, whatever the input; a known name whose
    /// precompile the set lacks fails with `BackendUnavailable`; otherwise the
    /// reply is the one owed for what the run came to.
    pub fn handle_precompile_call(&self, method: &str, input: &[u8]) -> (r: Result<
        Vec<u8>,
        ComputeError,
    >)
        ensures
            precompile_address(method@) is None ==> r == Err::<Vec<u8>, ComputeError>(
                ComputeError::UnknownSelector,
            ),
            precompile_address(method@) matches Some(a) ==> r == dispatch_reply(*self, a, input@),
    {
        match lookup_precompile(method) {
            None => Err(ComputeError::UnknownSelector),
            Some(address) => match run_precompile(&self.precompiles, address, input, GAS_LIMIT) {
                None => Err(ComputeError::BackendUnavailable),
                Some(outcome) => precompile_reply(outcome),
            },
        }
    }
}

} // verus!

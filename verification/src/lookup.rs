//! Outcomes of a single backend read, and their coercion to the uniform
//! lookup result the gateway exposes.
//!
//! A backend read either yields the object bytes, finds the object
//! absent, or fails for some infrastructure reason.  The failure reason
//! is kept as a discriminated value internally, but callers of the
//! gateway only ever learn `Found` or `Miss`.

use vstd::prelude::*;

verus! {

/// Why a backend read failed, when it did not simply find the object
/// absent.  The reason is never surfaced to a client; it exists so that
/// a failure can be told apart from a true absence internally.
#[derive(Clone, Copy, Debug, PartialEq, Eq, Structural)]
pub enum BackendFailure {
    /// The backend could not be reached or the transfer broke off.
    Transport,
    /// The backend rejected the request's credentials.
    Auth,
    /// The backend answered, but the answer could not be understood.
    MalformedResponse,
}

/// Everything a single backend read can come back with.
#[derive(Debug)]
pub enum BackendOutcome {
    /// The object exists in this backend; these are its bytes.
    Found(Vec<u8>),
    /// The backend answered and the object is not there.
    Absent,
    /// The read failed; the object may or may not be there.
    Failed(BackendFailure),
}

/// What resolution reports to the gateway: the object bytes, or a
/// uniform miss that never distinguishes absence from failure.
#[derive(Debug)]
pub enum LookupResult {
    Found(Vec<u8>),
    Miss,
}

/// Mathematical value of a [`BackendOutcome`]: the bytes are a sequence.
pub enum OutcomeModel {
    Found(Seq<u8>),
    Absent,
    Failed(BackendFailure),
}

/// Mathematical value of a [`LookupResult`].
pub enum LookupModel {
    Found(Seq<u8>),
    Miss,
}

impl View for BackendOutcome {
    type V = OutcomeModel;

    open spec fn view(&self) -> OutcomeModel {
        match self {
            BackendOutcome::Found(bytes) => OutcomeModel::Found(bytes@),
            BackendOutcome::Absent => OutcomeModel::Absent,
            BackendOutcome::Failed(reason) => OutcomeModel::Failed(*reason),
        }
    }
}

impl View for LookupResult {
    type V = LookupModel;

    open spec fn view(&self) -> LookupModel {
        match self {
            LookupResult::Found(bytes) => LookupModel::Found(bytes@),
            LookupResult::Miss => LookupModel::Miss,
        }
    }
}

/// The uniform result an outcome collapses to: only a hit keeps its
/// identity, absence and every failure become the same miss.
pub open spec fn lookup_of_outcome(outcome: OutcomeModel) -> LookupModel {
    match outcome {
        OutcomeModel::Found(bytes) => LookupModel::Found(bytes),
        OutcomeModel::Absent => LookupModel::Miss,
        OutcomeModel::Failed(_) => LookupModel::Miss,
    }
}

/// Collapse one backend outcome to the client-visible result, discarding
/// the failure reason.
pub fn to_lookup(outcome: BackendOutcome) -> (result: LookupResult)
    ensures
        result@ == lookup_of_outcome(outcome@),
{
    match outcome {
        BackendOutcome::Found(bytes) => LookupResult::Found(bytes),
        BackendOutcome::Absent => LookupResult::Miss,
        BackendOutcome::Failed(_) => LookupResult::Miss,
    }
}

} // verus!

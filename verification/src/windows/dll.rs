//! Putting the injection library next to the executable, and taking it away.
//!
//! Writing and removing the file are the caller's work; these are the decisions
//! around them, each a small state machine: a step takes the outcome of the last
//! request and gives the next state and request.
use vstd::prelude::*;

verus! {

/// What the library-file procedures ask of their caller.
#[derive(Clone, Copy, Debug, PartialEq, Eq, Structural)]
pub enum DllRequest {
    /// Write the library's bytes to the library path; the outcome is whether that
    /// succeeded.
    CreateDll,
    /// The outcome is whether a file exists at the library path.
    CheckExists,
    /// Remove the file at the library path; the outcome is whether that succeeded.
    RemoveDll,
    /// The procedure is over, with this result.
    Finished(bool),
}

/// Where `create_dll_if_not_exists_already` stands.
#[derive(Clone, Copy, Debug, PartialEq, Eq, Structural)]
pub enum CreateStage {
    /// Waiting for the outcome of writing the file.
    AwaitingCreate,
    /// Waiting to know whether the file exists.
    AwaitingExists,
    /// Done, with this result.
    Finished(bool),
}

/// Where `remove_dll_if_exists` stands.
#[derive(Clone, Copy, Debug, PartialEq, Eq, Structural)]
pub enum RemoveStage {
    /// Waiting to know whether the file exists.
    AwaitingExists,
    /// Waiting for the outcome of removing the file.
    AwaitingRemove,
    /// Done, with this result.
    Finished(bool),
}

/// One step of `create_dll_if_not_exists_already`.
pub open spec fn create_step(stage: CreateStage, outcome: bool) -> (CreateStage, DllRequest) {
    match stage {
        CreateStage::AwaitingCreate => if outcome {
            (CreateStage::Finished(true), DllRequest::Finished(true))
        } else {
            (CreateStage::AwaitingExists, DllRequest::CheckExists)
        },
        CreateStage::AwaitingExists => (CreateStage::Finished(outcome), DllRequest::Finished(outcome)),
        CreateStage::Finished(b) => (CreateStage::Finished(b), DllRequest::Finished(b)),
    }
}

/// One step of `remove_dll_if_exists`.
pub open spec fn remove_step(stage: RemoveStage, outcome: bool) -> (RemoveStage, DllRequest) {
    match stage {
        RemoveStage::AwaitingExists => if !outcome {
            (RemoveStage::Finished(true), DllRequest::Finished(true))
        } else {
            (RemoveStage::AwaitingRemove, DllRequest::RemoveDll)
        },
        RemoveStage::AwaitingRemove => (RemoveStage::Finished(outcome), DllRequest::Finished(outcome)),
        RemoveStage::Finished(b) => (RemoveStage::Finished(b), DllRequest::Finished(b)),
    }
}

impl CreateStage {
    /// Starts `create_dll_if_not_exists_already`: the first request writes the file.
    pub fn new() -> (r: (CreateStage, DllRequest))
        ensures
            r == (CreateStage::AwaitingCreate, DllRequest::CreateDll),
    {
        (CreateStage::AwaitingCreate, DllRequest::CreateDll)
    }
}

impl RemoveStage {
    /// Starts `remove_dll_if_exists`: the first request asks whether the file exists.
    pub fn new() -> (r: (RemoveStage, DllRequest))
        ensures
            r == (RemoveStage::AwaitingExists, DllRequest::CheckExists),
    {
        (RemoveStage::AwaitingExists, DllRequest::CheckExists)
    }
}

/// The decisions of putting the library file in place: write it; if that fails,
/// the result is whether a file is there already.
pub fn create_dll_if_not_exists_already(stage: CreateStage, outcome: bool) -> (r: (
    CreateStage,
    DllRequest,
))
    ensures
        r == create_step(stage, outcome),
{
    match stage {
        CreateStage::AwaitingCreate => if outcome {
            (CreateStage::Finished(true), DllRequest::Finished(true))
        } else {
            (CreateStage::AwaitingExists, DllRequest::CheckExists)
        },
        CreateStage::AwaitingExists => (CreateStage::Finished(outcome), DllRequest::Finished(outcome)),
        CreateStage::Finished(b) => (CreateStage::Finished(b), DllRequest::Finished(b)),
    }
}

/// The decisions of taking the library file away: nothing to do when no file is
/// there; otherwise the result is whether removing it succeeded.
pub fn remove_dll_if_exists(stage: RemoveStage, outcome: bool) -> (r: (RemoveStage, DllRequest))
    ensures
        r == remove_step(stage, outcome),
{
    match stage {
        RemoveStage::AwaitingExists => if !outcome {
            (RemoveStage::Finished(true), DllRequest::Finished(true))
        } else {
            (RemoveStage::AwaitingRemove, DllRequest::RemoveDll)
        },
        RemoveStage::AwaitingRemove => (RemoveStage::Finished(outcome), DllRequest::Finished(outcome)),
        RemoveStage::Finished(b) => (RemoveStage::Finished(b), DllRequest::Finished(b)),
    }
}

/// Law: putting the file in place succeeds exactly when writing it succeeds or,
/// failing that, a file is there already; whether one is there is asked only when
/// writing failed.
pub proof fn law_create_result(written: bool, exists: bool)
    ensures
        ({
            let (s1, q1) = create_step(CreateStage::AwaitingCreate, written);
            &&& (q1 == DllRequest::CheckExists) == !written
            &&& written ==> q1 == DllRequest::Finished(true)
            &&& !written ==> create_step(s1, exists).1 == DllRequest::Finished(exists)
        }),
{
}

/// Law: taking the file away succeeds exactly when no file is there or removing it
/// succeeds; removal is asked only when a file is there.
pub proof fn law_remove_result(exists: bool, removed: bool)
    ensures
        ({
            let (s1, q1) = remove_step(RemoveStage::AwaitingExists, exists);
            &&& (q1 == DllRequest::RemoveDll) == exists
            &&& !exists ==> q1 == DllRequest::Finished(true)
            &&& exists ==> remove_step(s1, removed).1 == DllRequest::Finished(removed)
        }),
{
}

/// Law: once either procedure is finished, it stays finished with the same result,
/// whatever outcome is reported.
pub proof fn law_dll_finished_is_final(b: bool, outcome: bool)
    ensures
        create_step(CreateStage::Finished(b), outcome) == (
            CreateStage::Finished(b),
            DllRequest::Finished(b),
        ),
        remove_step(RemoveStage::Finished(b), outcome) == (
            RemoveStage::Finished(b),
            DllRequest::Finished(b),
        ),
{
}

} // verus!

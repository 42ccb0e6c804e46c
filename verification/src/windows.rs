//! The Windows entry points. No call can read another process's console, so the
//! size of a parent's console is read by code injected into it (`dll_injection`).
pub mod dll;
pub mod dll_injection;

use vstd::prelude::*;
use crate::size::Size;
use crate::windows::dll_injection::{
    di_step, terminal_size_di, DiSearch, DiState, StdHandle, WinReply, WinRequest,
};

verus! {

/// Where the Windows search of the current process and its parents stands.
#[derive(Debug)]
pub enum WinSearch {
    /// Waiting for the injection library to be put in place.
    AwaitingDll,
    /// Waiting for the size behind standard output.
    AwaitingStdout,
    /// Waiting for the size behind standard error.
    AwaitingStderr,
    /// Waiting for the size behind standard input.
    AwaitingStdin,
    /// Searching the parents of the current process.
    Walking(DiSearch),
    /// Done, with this result.
    Finished(Option<Size>),
}

/// Where the Windows search of a given process and its parents stands.
#[derive(Debug)]
pub enum WinProcessSearch {
    /// Waiting for the injection library to be put in place, then to search
    /// process `pid` and its parents.
    AwaitingDll(u32),
    /// Searching the parents.
    Walking(DiSearch),
    /// Done, with this result.
    Finished(Option<Size>),
}

/// The model of `WinSearch`: the same states, with the parent walk as a `DiState`.
pub enum WinState {
    AwaitingDll,
    AwaitingStdout,
    AwaitingStderr,
    AwaitingStdin,
    Walking(DiState),
    Finished(Option<Size>),
}

/// The model of `WinProcessSearch`.
pub enum WinProcessState {
    AwaitingDll(u32),
    Walking(DiState),
    Finished(Option<Size>),
}

impl View for WinSearch {
    type V = WinState;

    open spec fn view(&self) -> WinState {
        match self {
            WinSearch::AwaitingDll => WinState::AwaitingDll,
            WinSearch::AwaitingStdout => WinState::AwaitingStdout,
            WinSearch::AwaitingStderr => WinState::AwaitingStderr,
            WinSearch::AwaitingStdin => WinState::AwaitingStdin,
            WinSearch::Walking(d) => WinState::Walking(d@),
            WinSearch::Finished(r) => WinState::Finished(*r),
        }
    }
}

impl View for WinProcessSearch {
    type V = WinProcessState;

    open spec fn view(&self) -> WinProcessState {
        match self {
            WinProcessSearch::AwaitingDll(pid) => WinProcessState::AwaitingDll(*pid),
            WinProcessSearch::Walking(d) => WinProcessState::Walking(d@),
            WinProcessSearch::Finished(r) => WinProcessState::Finished(*r),
        }
    }
}

/// The ending of the search with result `r`.
pub open spec fn win_finish(r: Option<Size>) -> (WinState, WinRequest) {
    (WinState::Finished(r), WinRequest::Finished(r))
}

/// After a standard stream: its size when it has one, else `next`.
pub open spec fn win_next_stream(reply: WinReply, next: (WinState, WinRequest)) -> (
    WinState,
    WinRequest,
) {
    match reply {
        WinReply::Size(Some(z)) => win_finish(Some(z)),
        WinReply::Size(None) => next,
        _ => win_finish(None),
    }
}

/// One step of the Windows search of the current process and its parents.
pub open spec fn win_step(s: WinState, reply: WinReply) -> (WinState, WinRequest) {
    match s {
        WinState::AwaitingDll => match reply {
            WinReply::DllReady(_) => (
                WinState::AwaitingStdout,
                WinRequest::StreamSize(StdHandle::Output),
            ),
            _ => win_finish(None),
        },
        WinState::AwaitingStdout => win_next_stream(
            reply,
            (WinState::AwaitingStderr, WinRequest::StreamSize(StdHandle::Error)),
        ),
        WinState::AwaitingStderr => win_next_stream(
            reply,
            (WinState::AwaitingStdin, WinRequest::StreamSize(StdHandle::Input)),
        ),
        WinState::AwaitingStdin => win_next_stream(
            reply,
            (WinState::Walking(DiState::AwaitingPid), WinRequest::CurrentPid),
        ),
        WinState::Walking(d) => {
            let (d2, q) = di_step(d, reply);
            match q {
                WinRequest::Finished(r) => win_finish(r),
                _ => (WinState::Walking(d2), q),
            }
        },
        WinState::Finished(r) => win_finish(r),
    }
}

/// One step of the Windows search of a given process and its parents.
pub open spec fn win_process_step(s: WinProcessState, reply: WinReply) -> (
    WinProcessState,
    WinRequest,
) {
    match s {
        WinProcessState::AwaitingDll(pid) => match reply {
            WinReply::DllReady(_) => (
                WinProcessState::Walking(DiState::AwaitingSnapshot { pid, include_self: true }),
                WinRequest::Snapshot,
            ),
            _ => (WinProcessState::Finished(None), WinRequest::Finished(None)),
        },
        WinProcessState::Walking(d) => {
            let (d2, q) = di_step(d, reply);
            match q {
                WinRequest::Finished(r) => (WinProcessState::Finished(r), WinRequest::Finished(r)),
                _ => (WinProcessState::Walking(d2), q),
            }
        },
        WinProcessState::Finished(r) => (WinProcessState::Finished(r), WinRequest::Finished(r)),
    }
}

impl WinSearch {
    /// Starts the search: the first request puts the injection library in place.
    pub fn new() -> (r: (WinSearch, WinRequest))
        ensures
            r.0@ == WinState::AwaitingDll,
            r.1 == WinRequest::EnsureDll,
    {
        (WinSearch::AwaitingDll, WinRequest::EnsureDll)
    }
}

impl WinProcessSearch {
    /// Starts the search of process `pid` and its parents: the first request puts
    /// the injection library in place.
    pub fn new(pid: u32) -> (r: (WinProcessSearch, WinRequest))
        ensures
            r.0@ == WinProcessState::AwaitingDll(pid),
            r.1 == WinRequest::EnsureDll,
    {
        (WinProcessSearch::AwaitingDll(pid), WinRequest::EnsureDll)
    }
}

/// The decisions of finding the size of the console of the current process or one
/// of its parents, on Windows: the injection library is put in place (whatever the
/// outcome), then standard output, standard error and standard input are asked in
/// that order, then the parents as `terminal_size_di` searches them. The first size
/// found is the result; `None` when the search fails.
pub fn any_terminal_size(search: WinSearch, reply: WinReply) -> (r: (WinSearch, WinRequest))
    ensures
        r.0@ == win_step(search@, reply).0,
        r.1 == win_step(search@, reply).1,
{
    match search {
        WinSearch::AwaitingDll => match reply {
            WinReply::DllReady(_) => (
                WinSearch::AwaitingStdout,
                WinRequest::StreamSize(StdHandle::Output),
            ),
            _ => (WinSearch::Finished(None), WinRequest::Finished(None)),
        },
        WinSearch::AwaitingStdout | WinSearch::AwaitingStderr | WinSearch::AwaitingStdin => {
            let next = match search {
                WinSearch::AwaitingStdout => (
                    WinSearch::AwaitingStderr,
                    WinRequest::StreamSize(StdHandle::Error),
                ),
                WinSearch::AwaitingStderr => (
                    WinSearch::AwaitingStdin,
                    WinRequest::StreamSize(StdHandle::Input),
                ),
                _ => (WinSearch::Walking(DiSearch::AwaitingPid), WinRequest::CurrentPid),
            };
            match reply {
                WinReply::Size(Some(z)) => (WinSearch::Finished(Some(z)), WinRequest::Finished(Some(z))),
                WinReply::Size(None) => next,
                _ => (WinSearch::Finished(None), WinRequest::Finished(None)),
            }
        },
        WinSearch::Walking(d) => {
            let (d2, q) = terminal_size_di(d, reply);
            match q {
                WinRequest::Finished(r) => (WinSearch::Finished(r), WinRequest::Finished(r)),
                _ => (WinSearch::Walking(d2), q),
            }
        },
        WinSearch::Finished(r) => (WinSearch::Finished(r), WinRequest::Finished(r)),
    }
}

/// The decisions of finding the size of the console of process `pid` or one of its
/// parents, on Windows: the injection library is put in place (whatever the
/// outcome), then the process and its parents are searched as
/// `terminal_size_di_of_process` does, the process itself first.
pub fn any_terminal_size_of_process(search: WinProcessSearch, reply: WinReply) -> (r: (
    WinProcessSearch,
    WinRequest,
))
    ensures
        r.0@ == win_process_step(search@, reply).0,
        r.1 == win_process_step(search@, reply).1,
{
    match search {
        WinProcessSearch::AwaitingDll(pid) => match reply {
            WinReply::DllReady(_) => (
                WinProcessSearch::Walking(DiSearch::AwaitingSnapshot { pid, include_self: true }),
                WinRequest::Snapshot,
            ),
            _ => (WinProcessSearch::Finished(None), WinRequest::Finished(None)),
        },
        WinProcessSearch::Walking(d) => {
            let (d2, q) = terminal_size_di(d, reply);
            match q {
                WinRequest::Finished(r) => (WinProcessSearch::Finished(r), WinRequest::Finished(r)),
                _ => (WinProcessSearch::Walking(d2), q),
            }
        },
        WinProcessSearch::Finished(r) => (WinProcessSearch::Finished(r), WinRequest::Finished(r)),
    }
}

/// Law (the injection library first, then stdout, stderr and stdin in that order):
/// each standard stream is asked for only right after the step before it, and each
/// stream after the first only when the one before had no console; the parents are
/// turned to only after standard input had none.
pub proof fn law_win_streams_in_order(s: WinState, reply: WinReply)
    ensures
        ({
            let (_, q) = win_step(s, reply);
            &&& q == WinRequest::StreamSize(StdHandle::Output) ==> s is AwaitingDll
                && reply is DllReady
            &&& q == WinRequest::StreamSize(StdHandle::Error) ==> s is AwaitingStdout && reply
                == WinReply::Size(None)
            &&& q == WinRequest::StreamSize(StdHandle::Input) ==> s is AwaitingStderr && reply
                == WinReply::Size(None)
            &&& q == WinRequest::CurrentPid ==> s is AwaitingStdin && reply == WinReply::Size(None)
        }),
{
}

/// A state from which no result has been reached yet.
pub open spec fn win_no_result_yet(s: WinState) -> bool {
    match s {
        WinState::Finished(Some(_)) => false,
        WinState::Walking(DiState::Finished(Some(_))) => false,
        _ => true,
    }
}

/// Law (the result is a size that was found, and final): a search with no result
/// yet ends with a size only when the caller has just reported that size; a
/// finished search stays finished with the same result.
pub proof fn law_win_result(s: WinState, reply: WinReply, z: Size)
    ensures
        win_no_result_yet(s) && win_step(s, reply).1 == WinRequest::Finished(Some(z)) ==> reply
            == WinReply::Size(Some(z)),
        s matches WinState::Finished(r) ==> win_step(s, reply) == win_finish(r),
{
}

/// Law (a console found ends the search with exactly that size): waiting for a
/// standard stream, or for the console of a process of the parent walk, a reply
/// that reports size `z` ends the search with `z`; the same holds of the search of a
/// given process.
pub proof fn law_win_found_size_ends_search(s: WinState, z: Size)
    requires
        s is AwaitingStdout || s is AwaitingStderr || s is AwaitingStdin || (s is Walking
            && s->Walking_0 is AwaitingRemote),
    ensures
        win_step(s, WinReply::Size(Some(z))) == (WinState::Finished(Some(z)), WinRequest::Finished(
            Some(z),
        )),
        s matches WinState::Walking(d) ==> win_process_step(
            WinProcessState::Walking(d),
            WinReply::Size(Some(z)),
        ) == (WinProcessState::Finished(Some(z)), WinRequest::Finished(Some(z))),
{
}

/// Law (the searches hand on what the parent walk decides): for every walk state
/// `d` and reply, both Windows searches issue the request that the walk
/// (`terminal_size_di_of_process`) issues; in particular, when the walk ends with a
/// result, so do they, with the same result.
pub proof fn law_searches_follow_walk(d: DiState, reply: WinReply)
    ensures
        win_step(WinState::Walking(d), reply).1 == di_step(d, reply).1,
        win_process_step(WinProcessState::Walking(d), reply).1 == di_step(d, reply).1,
        di_step(d, reply).1 matches WinRequest::Finished(r) ==> win_step(WinState::Walking(d), reply).0
            == WinState::Finished(r) && win_process_step(WinProcessState::Walking(d), reply).0
            == WinProcessState::Finished(r),
{
}

/// Law (the first standard stream with a console gives the result): after the
/// library is in place, when the streams before stream `k` (stdout, stderr, stdin)
/// had no console and stream `k` has one of size `z`, the search ends with `z`.
pub proof fn law_win_first_stream_with_console(k: int, z: Size)
    requires
        0 <= k < 3,
    ensures
        ({
            let s1 = win_step(WinState::AwaitingDll, WinReply::DllReady(true)).0;
            let s2 = win_step(s1, WinReply::Size(None)).0;
            let s3 = win_step(s2, WinReply::Size(None)).0;
            let at_k = if k == 0 { s1 } else if k == 1 { s2 } else { s3 };
            win_step(at_k, WinReply::Size(Some(z))).1 == WinRequest::Finished(Some(z))
        }),
{
}

} // verus!

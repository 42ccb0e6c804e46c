//! The Unix entry points.
use vstd::prelude::*;
use crate::size::Size;
use crate::unix_impl::{
    probe_step, search_step, terminal_size, terminal_size_of_process, ProbeRequest, ProcessProbe,
    Reply, Request, Search,
};

verus! {

/// The decisions of finding the size of the terminal of the current process or one
/// of its parents, if available: the search of `unix_impl::terminal_size`. Start it
/// with `Search::new()`. The standard streams are asked in stdout, stderr and stdin
/// order; the search ends with `None` when no terminal is found and the walk over
/// the parents fails.
pub fn any_terminal_size(search: Search, reply: Reply) -> (r: (Search, Request))
    ensures
        r == search_step(search, reply),
{
    terminal_size(search, reply)
}

/// The decisions of finding the size of the terminal of process `pid`: the look of
/// `unix_impl::terminal_size_of_process`. Start it with `ProcessProbe::new(pid)`.
/// Its standard streams are asked in stdout, stderr, stdin order: descriptors 1,
/// 2, then 0.
pub fn any_terminal_size_of_process(probe: ProcessProbe, answer: Option<Size>) -> (r: (
    ProcessProbe,
    ProbeRequest,
))
    ensures
        r == probe_step(probe, answer),
{
    terminal_size_of_process(probe, answer)
}

} // verus!

//! The Windows search over the parents of a process, and the pieces of the
//! injection of a library into another process that compute: the module lookup,
//! the relocation of a procedure's address, and the buffer through which the
//! injected code hands the size back.
use vstd::prelude::*;
use crate::size::Size;
use crate::text::chars_of;

verus! {

// ---------------------------------------------------------------------------
// Processes of a snapshot
// ---------------------------------------------------------------------------

/// What a process snapshot tells of one process: its id and its parent's id.
#[derive(Clone, Copy, Debug, PartialEq, Eq, Structural)]
pub struct ProcessEntry {
    /// The process id.
    pub process_id: u32,
    /// The id of the process that created it.
    pub parent_process_id: u32,
}

/// The first entry of `s` with process id `pid`, in snapshot order.
pub open spec fn first_with_pid(s: Seq<ProcessEntry>, pid: u32) -> Option<ProcessEntry>
    decreases s.len(),
{
    if s.len() == 0 {
        None
    } else if s[0].process_id == pid {
        Some(s[0])
    } else {
        first_with_pid(s.drop_first(), pid)
    }
}

/// The entry of process `process_id` in the snapshot `processes`: the first one
/// with that id, in snapshot order, or `None` when there is none.
pub fn get_process_by_pid(process_id: u32, processes: &Vec<ProcessEntry>) -> (r: Option<
    ProcessEntry,
>)
    ensures
        r == first_with_pid(processes@, process_id),
{
    let mut i: usize = 0;
    assert(processes@.subrange(0, processes.len() as int) =~= processes@);
    while i < processes.len()
        invariant
            i <= processes.len(),
            first_with_pid(processes@.subrange(i as int, processes.len() as int), process_id)
                == first_with_pid(processes@, process_id),
        decreases processes.len() - i,
    {
        let ghost rest = processes@.subrange(i as int, processes.len() as int);
        assert(rest.drop_first() =~= processes@.subrange(i + 1, processes.len() as int));
        if processes[i].process_id == process_id {
            return Some(processes[i]);
        }
        i = i + 1;
    }
    assert(processes@.subrange(i as int, processes.len() as int).len() == 0);
    None
}

// ---------------------------------------------------------------------------
// Modules of the remote process
// ---------------------------------------------------------------------------

fn same_chars(a: &Vec<char>, b: &Vec<char>) -> (r: bool)
    ensures
        r == (a@ == b@),
{
    if a.len() != b.len() {
        return false;
    }
    let mut i: usize = 0;
    while i < a.len()
        invariant
            i <= a.len() == b.len(),
            forall|j: int| 0 <= j < i ==> a@[j] == b@[j],
        decreases a.len() - i,
    {
        if a[i] != b[i] {
            return false;
        }
        i = i + 1;
    }
    assert(a@ =~= b@);
    true
}

/// Whether a module of the remote process is the wanted one: its full file name,
/// or the last component of it, is the wanted name.
pub fn module_matches(module_name: &str, module_file_name: &str, wanted_module: &str) -> (r: bool)
    ensures
        r == (module_name@ == wanted_module@ || module_file_name@ == wanted_module@),
{
    let wanted = chars_of(wanted_module);
    if same_chars(&chars_of(module_name), &wanted) {
        true
    } else {
        same_chars(&chars_of(module_file_name), &wanted)
    }
}

/// A module loaded in the remote process: its handle (base address), its full file
/// name, and the last component of that name (the full name when it has none).
#[derive(Debug)]
pub struct RemoteModule {
    /// The module's handle, which is its base address.
    pub handle: u64,
    /// The module's full file name.
    pub full_name: String,
    /// The last component of the full file name.
    pub file_name: String,
}

/// Whether a module is the wanted one.
pub open spec fn is_wanted(m: RemoteModule, wanted: Seq<char>) -> bool {
    m.full_name@ == wanted || m.file_name@ == wanted
}

/// The handle of the first module in `modules`, in enumeration order, that is the
/// wanted one.
pub open spec fn first_wanted(modules: Seq<RemoteModule>, wanted: Seq<char>) -> Option<u64>
    decreases modules.len(),
{
    if modules.len() == 0 {
        None
    } else if is_wanted(modules[0], wanted) {
        Some(modules[0].handle)
    } else {
        first_wanted(modules.drop_first(), wanted)
    }
}

/// The handle of the first of the remote process's modules, in enumeration order,
/// whose full file name or last name component is `wanted_module`; `None` when no
/// module is.
pub fn first_matching_module(modules: &Vec<RemoteModule>, wanted_module: &str) -> (r: Option<u64>)
    ensures
        r == first_wanted(modules@, wanted_module@),
{
    let mut i: usize = 0;
    assert(modules@.subrange(0, modules.len() as int) =~= modules@);
    while i < modules.len()
        invariant
            i <= modules.len(),
            first_wanted(modules@.subrange(i as int, modules.len() as int), wanted_module@)
                == first_wanted(modules@, wanted_module@),
        decreases modules.len() - i,
    {
        let ghost rest = modules@.subrange(i as int, modules.len() as int);
        assert(rest.drop_first() =~= modules@.subrange(i + 1, modules.len() as int));
        let m = &modules[i];
        if module_matches(m.full_name.as_str(), m.file_name.as_str(), wanted_module) {
            return Some(m.handle);
        }
        i = i + 1;
    }
    assert(modules@.subrange(i as int, modules.len() as int).len() == 0);
    None
}

/// The address of a procedure in the remote process: its local address moved by
/// the distance between the module's bases in the two processes (unchanged when
/// the module sits at the same base). The procedure keeps its offset from the base
/// of its module.
pub fn relocated_proc_address(local_proc: u64, local_module: u64, remote_module: u64) -> (r: u64)
    requires
        local_module != remote_module ==> local_module <= local_proc + remote_module <= u64::MAX,
    ensures
        r == (if local_module != remote_module {
            local_proc + remote_module - local_module
        } else {
            local_proc as int
        }),
        r - remote_module == local_proc - local_module,
{
    if local_module != remote_module {
        local_proc + remote_module - local_module
    } else {
        local_proc
    }
}

/// The number of bytes of a wide (UTF-16) string of `len` units with its closing
/// nul: two bytes per unit.
pub fn wide_string_byte_count(len: usize) -> (r: usize)
    requires
        2 * (len + 1) <= usize::MAX,
    ensures
        r == 2 * (len + 1),
{
    2 * (len + 1)
}

// ---------------------------------------------------------------------------
// The exchange buffer
// ---------------------------------------------------------------------------

/// The size of the buffer through which the injected code hands the size back:
/// two 16-bit numbers.
pub const EXCHANGE_BUFFER_SIZE: usize = 4;

/// The 16-bit number held by two bytes, low byte first (the byte order of every
/// Windows machine).
pub open spec fn u16_of_bytes(lo: u8, hi: u8) -> int {
    lo + 256 * hi
}

/// What the reader makes of the exchange buffer: width in the first two bytes,
/// height in the next two; all zero means that no size was found.
pub open spec fn decode_spec(b: Seq<u8>) -> Option<Size> {
    let w = u16_of_bytes(b[0], b[1]);
    let h = u16_of_bytes(b[2], b[3]);
    if w == 0 && h == 0 {
        None
    } else {
        Some(Size { width: w as u16, height: h as u16 })
    }
}

/// What the injected code writes into the exchange buffer: the width and height,
/// or zeros when it found no terminal.
pub open spec fn encode_spec(size: Option<Size>) -> Seq<u8> {
    match size {
        Some(z) => seq![
            (z.width % 256) as u8,
            (z.width / 256) as u8,
            (z.height % 256) as u8,
            (z.height / 256) as u8,
        ],
        None => seq![0u8, 0u8, 0u8, 0u8],
    }
}

/// Reads the size out of the exchange buffer, as the searching process does.
pub fn decode_exchange_buffer(buf: [u8; 4]) -> (r: Option<Size>)
    ensures
        r == decode_spec(buf@),
{
    let w: u16 = buf[0] as u16 + (buf[1] as u16) * 256;
    let h: u16 = buf[2] as u16 + (buf[3] as u16) * 256;
    if w == 0 && h == 0 {
        None
    } else {
        Some(Size { width: w, height: h })
    }
}

/// Writes a size into the exchange buffer, as the injected code does.
pub fn encode_exchange_buffer(size: Option<Size>) -> (r: [u8; 4])
    ensures
        r@ == encode_spec(size),
{
    match size {
        Some(z) => {
            let r = [
                (z.width % 256) as u8,
                (z.width / 256) as u8,
                (z.height % 256) as u8,
                (z.height / 256) as u8,
            ];
            assert(r@ =~= encode_spec(size));
            r
        },
        None => {
            let r = [0u8, 0u8, 0u8, 0u8];
            assert(r@ =~= encode_spec(size));
            r
        },
    }
}

/// Law: what the injected code writes, the searching process reads back, for every
/// size that is not all zero (a terminal's size never is), and `None` as `None`.
pub proof fn law_exchange_round_trip(size: Option<Size>)
    requires
        size matches Some(z) ==> z.width != 0 || z.height != 0,
    ensures
        decode_spec(encode_spec(size)) == size,
{
}

/// Law: every buffer the reader accepts is exactly what the writer would write for
/// the size read.
pub proof fn law_exchange_buffer_determined(b: Seq<u8>)
    requires
        b.len() == 4,
    ensures
        encode_spec(decode_spec(b)) == b,
{
    assert(encode_spec(decode_spec(b)) =~= b);
}

// ---------------------------------------------------------------------------
// The search over the parents of a process
// ---------------------------------------------------------------------------

/// A standard stream of the current process.
#[derive(Clone, Copy, Debug, PartialEq, Eq, Structural)]
pub enum StdHandle {
    /// Standard output.
    Output,
    /// Standard error.
    Error,
    /// Standard input.
    Input,
}

/// What the Windows searches ask of their caller.
#[derive(Clone, Copy, Debug, PartialEq, Eq, Structural)]
pub enum WinRequest {
    /// Put the injection library in place (`create_dll_if_not_exists_already`);
    /// its result does not change the search.
    EnsureDll,
    /// The size of the console behind this standard stream.
    StreamSize(StdHandle),
    /// The id of the current process.
    CurrentPid,
    /// A snapshot of the processes of the system.
    Snapshot,
    /// The size of the console of process `pid`, read by injecting the library.
    RemoteSize(u32),
    /// The search is over, with this result.
    Finished(Option<Size>),
}

/// The answer to a request of a Windows search.
#[derive(Debug)]
pub enum WinReply {
    /// The answer to `EnsureDll`: the library procedure's result.
    DllReady(bool),
    /// The answer to `StreamSize` or `RemoteSize`.
    Size(Option<Size>),
    /// The answer to `CurrentPid`.
    Pid(u32),
    /// The answer to `Snapshot`: the processes in snapshot order, or `None` when no
    /// snapshot could be taken.
    Processes(Option<Vec<ProcessEntry>>),
}

/// Where the search over the parents of a process stands.
#[derive(Debug)]
pub enum DiSearch {
    /// Waiting for the id of the current process.
    AwaitingPid,
    /// Waiting for the snapshot, to find process `pid` in it; its own console is
    /// asked for first when `include_self` holds, else its parent's.
    AwaitingSnapshot { pid: u32, include_self: bool },
    /// Waiting for the console size of `current`, found in `processes`; `asked`
    /// holds the ids of the processes asked so far, `current`'s last.
    AwaitingRemote { processes: Vec<ProcessEntry>, current: ProcessEntry, asked: Vec<u32> },
    /// Done, with this result.
    Finished(Option<Size>),
}

/// The model of `DiSearch`: the same states, with sequences for the vectors.
pub enum DiState {
    AwaitingPid,
    AwaitingSnapshot { pid: u32, include_self: bool },
    AwaitingRemote { processes: Seq<ProcessEntry>, current: ProcessEntry, asked: Seq<u32> },
    Finished(Option<Size>),
}

impl View for DiSearch {
    type V = DiState;

    open spec fn view(&self) -> DiState {
        match self {
            DiSearch::AwaitingPid => DiState::AwaitingPid,
            DiSearch::AwaitingSnapshot { pid, include_self } => DiState::AwaitingSnapshot {
                pid: *pid,
                include_self: *include_self,
            },
            DiSearch::AwaitingRemote { processes, current, asked } => DiState::AwaitingRemote {
                processes: processes@,
                current: *current,
                asked: asked@,
            },
            DiSearch::Finished(r) => DiState::Finished(*r),
        }
    }
}

/// The ending of the search with result `r`.
pub open spec fn di_finish(r: Option<Size>) -> (DiState, WinRequest) {
    (DiState::Finished(r), WinRequest::Finished(r))
}

/// Asking for the console of `q`, found in `processes`, after those of `asked`.
pub open spec fn ask(processes: Seq<ProcessEntry>, q: ProcessEntry, asked: Seq<u32>) -> (
    DiState,
    WinRequest,
) {
    (
        DiState::AwaitingRemote { processes, current: q, asked: asked.push(q.process_id) },
        WinRequest::RemoteSize(q.process_id),
    )
}

/// Moving on to the parent of `e`: its console is asked for when the snapshot holds
/// it and it was not asked before; otherwise the search ends with `None`.
pub open spec fn to_parent(processes: Seq<ProcessEntry>, e: ProcessEntry, asked: Seq<u32>) -> (
    DiState,
    WinRequest,
) {
    match first_with_pid(processes, e.parent_process_id) {
        Some(q) => if asked.contains(q.process_id) {
            di_finish(None)
        } else {
            ask(processes, q, asked)
        },
        None => di_finish(None),
    }
}

/// One step of the search over the parents of a process. A reply of another kind
/// than the request asked for ends the search with `None`, as every failure does.
pub open spec fn di_step(d: DiState, reply: WinReply) -> (DiState, WinRequest) {
    match d {
        DiState::AwaitingPid => match reply {
            WinReply::Pid(p) => (
                DiState::AwaitingSnapshot { pid: p, include_self: false },
                WinRequest::Snapshot,
            ),
            _ => di_finish(None),
        },
        DiState::AwaitingSnapshot { pid, include_self } => match reply {
            WinReply::Processes(Some(list)) => match first_with_pid(list@, pid) {
                Some(e) => if include_self {
                    ask(list@, e, Seq::empty())
                } else {
                    to_parent(list@, e, Seq::empty())
                },
                None => di_finish(None),
            },
            _ => di_finish(None),
        },
        DiState::AwaitingRemote { processes, current, asked } => match reply {
            WinReply::Size(Some(z)) => di_finish(Some(z)),
            WinReply::Size(None) => to_parent(processes, current, asked),
            _ => di_finish(None),
        },
        DiState::Finished(r) => di_finish(r),
    }
}

impl DiSearch {
    /// Starts the search over the parents of process `pid`: the first request is
    /// the snapshot.
    pub fn for_process(pid: u32) -> (r: (DiSearch, WinRequest))
        ensures
            r.0@ == (DiState::AwaitingSnapshot { pid, include_self: false }),
            r.1 == WinRequest::Snapshot,
    {
        (DiSearch::AwaitingSnapshot { pid, include_self: false }, WinRequest::Snapshot)
    }

    /// Starts the search over process `pid` and then its parents: the first
    /// request is the snapshot.
    pub fn for_process_and_parents(pid: u32) -> (r: (DiSearch, WinRequest))
        ensures
            r.0@ == (DiState::AwaitingSnapshot { pid, include_self: true }),
            r.1 == WinRequest::Snapshot,
    {
        (DiSearch::AwaitingSnapshot { pid, include_self: true }, WinRequest::Snapshot)
    }

    /// Starts the search over the parents of the current process: the first
    /// request is its id.
    pub fn for_current_process() -> (r: (DiSearch, WinRequest))
        ensures
            r.0@ == DiState::AwaitingPid,
            r.1 == WinRequest::CurrentPid,
    {
        (DiSearch::AwaitingPid, WinRequest::CurrentPid)
    }
}

fn contains_pid(v: &Vec<u32>, x: u32) -> (r: bool)
    ensures
        r == v@.contains(x),
{
    let mut i: usize = 0;
    while i < v.len()
        invariant
            i <= v.len(),
            forall|j: int| 0 <= j < i ==> v@[j] != x,
        decreases v.len() - i,
    {
        if v[i] == x {
            assert(v@[i as int] == x);
            return true;
        }
        i = i + 1;
    }
    false
}

fn ask_step(processes: Vec<ProcessEntry>, q: ProcessEntry, asked: Vec<u32>) -> (r: (
    DiSearch,
    WinRequest,
))
    ensures
        r.0@ == ask(processes@, q, asked@).0,
        r.1 == ask(processes@, q, asked@).1,
{
    let mut asked = asked;
    let pid = q.process_id;
    asked.push(pid);
    (DiSearch::AwaitingRemote { processes, current: q, asked }, WinRequest::RemoteSize(pid))
}

fn parent_step(processes: Vec<ProcessEntry>, e: ProcessEntry, asked: Vec<u32>) -> (r: (
    DiSearch,
    WinRequest,
))
    ensures
        r.0@ == to_parent(processes@, e, asked@).0,
        r.1 == to_parent(processes@, e, asked@).1,
{
    match get_process_by_pid(e.parent_process_id, &processes) {
        Some(q) => if contains_pid(&asked, q.process_id) {
            (DiSearch::Finished(None), WinRequest::Finished(None))
        } else {
            ask_step(processes, q, asked)
        },
        None => (DiSearch::Finished(None), WinRequest::Finished(None)),
    }
}

/// The decisions of the search for a console among the parents of process `pid`
/// (start it with `DiSearch::for_process(pid)`): the process is found in a
/// snapshot; then, parent after parent as the snapshot records them, the console
/// size of each is asked for. The process itself is asked first only when the search
/// was started with `DiSearch::for_process_and_parents`. The first size found
/// is the result; a process missing from the snapshot, a parent that was asked
/// before (a process recorded as its own parent, or any other cycle), or a snapshot
/// that could not be taken ends the search with `None`. No process is asked twice.
pub fn terminal_size_di_of_process(search: DiSearch, reply: WinReply) -> (r: (DiSearch, WinRequest))
    ensures
        r.0@ == di_step(search@, reply).0,
        r.1 == di_step(search@, reply).1,
{
    match search {
        DiSearch::AwaitingPid => match reply {
            WinReply::Pid(p) => (
                DiSearch::AwaitingSnapshot { pid: p, include_self: false },
                WinRequest::Snapshot,
            ),
            _ => (DiSearch::Finished(None), WinRequest::Finished(None)),
        },
        DiSearch::AwaitingSnapshot { pid, include_self } => match reply {
            WinReply::Processes(Some(list)) => match get_process_by_pid(pid, &list) {
                Some(e) => if include_self {
                    ask_step(list, e, Vec::new())
                } else {
                    parent_step(list, e, Vec::new())
                },
                None => (DiSearch::Finished(None), WinRequest::Finished(None)),
            },
            _ => (DiSearch::Finished(None), WinRequest::Finished(None)),
        },
        DiSearch::AwaitingRemote { processes, current, asked } => match reply {
            WinReply::Size(Some(z)) => (DiSearch::Finished(Some(z)), WinRequest::Finished(Some(z))),
            WinReply::Size(None) => parent_step(processes, current, asked),
            _ => (DiSearch::Finished(None), WinRequest::Finished(None)),
        },
        DiSearch::Finished(r) => (DiSearch::Finished(r), WinRequest::Finished(r)),
    }
}

/// The decisions of the search for a console among the parents of the current
/// process: start it with `DiSearch::for_current_process()`, which first asks for
/// the current process id; then as `terminal_size_di_of_process`.
pub fn terminal_size_di(search: DiSearch, reply: WinReply) -> (r: (DiSearch, WinRequest))
    ensures
        r.0@ == di_step(search@, reply).0,
        r.1 == di_step(search@, reply).1,
{
    terminal_size_di_of_process(search, reply)
}

/// Law (the walk follows the snapshot's parent links): from a snapshot, the first
/// console asked for is that of the process itself when the search includes it,
/// else that of its parent as the snapshot records it; after a console that is not
/// found, the next asked for is the recorded parent of that process, unless it was
/// asked before; a process or parent missing from the snapshot, or a parent asked
/// before, ends the search with `None`.
pub proof fn law_di_follows_parents(
    list: Vec<ProcessEntry>,
    pid: u32,
    include_self: bool,
    processes: Seq<ProcessEntry>,
    current: ProcessEntry,
    asked: Seq<u32>,
)
    ensures
        ({
            let (_, q) = di_step(
                DiState::AwaitingSnapshot { pid, include_self },
                WinReply::Processes(Some(list)),
            );
            match first_with_pid(list@, pid) {
                None => q == WinRequest::Finished(None),
                Some(e) => if include_self {
                    q == WinRequest::RemoteSize(pid)
                } else {
                    match first_with_pid(list@, e.parent_process_id) {
                        Some(parent) => q == WinRequest::RemoteSize(parent.process_id)
                            && parent.process_id == e.parent_process_id,
                        None => q == WinRequest::Finished(None),
                    }
                },
            }
        }),
        ({
            let (_, q) = di_step(
                DiState::AwaitingRemote { processes, current, asked },
                WinReply::Size(None),
            );
            match first_with_pid(processes, current.parent_process_id) {
                Some(parent) => if asked.contains(current.parent_process_id) {
                    q == WinRequest::Finished(None)
                } else {
                    q == WinRequest::RemoteSize(current.parent_process_id)
                },
                None => q == WinRequest::Finished(None),
            }
        }),
{
    lemma_first_with_pid_has_pid(list@, pid);
    lemma_first_with_pid_has_pid(processes, current.parent_process_id);
    if let Some(e) = first_with_pid(list@, pid) {
        lemma_first_with_pid_has_pid(list@, e.parent_process_id);
    }
}

proof fn lemma_first_with_pid_has_pid(s: Seq<ProcessEntry>, pid: u32)
    ensures
        first_with_pid(s, pid) matches Some(e) ==> e.process_id == pid,
    decreases s.len(),
{
    if s.len() > 0 && s[0].process_id != pid {
        lemma_first_with_pid_has_pid(s.drop_first(), pid);
    }
}

/// Law: a finished search stays finished with the same result, whatever the reply;
/// and a search that is not finished ends with a size only when the caller has just
/// reported that size.
pub proof fn law_di_result(d: DiState, reply: WinReply, z: Size)
    ensures
        d matches DiState::Finished(r) ==> di_step(d, reply) == di_finish(r),
        !(d is Finished) && di_step(d, reply).1 == WinRequest::Finished(Some(z)) ==> reply
            == WinReply::Size(Some(z)),
{
}

/// The requests the search issues from state `d`, one after each of the replies.
pub open spec fn di_run(d: DiState, replies: Seq<WinReply>) -> Seq<WinRequest>
    decreases replies.len(),
{
    if replies.len() == 0 {
        seq![]
    } else {
        let (d1, q1) = di_step(d, replies[0]);
        seq![q1] + di_run(d1, replies.drop_first())
    }
}

/// The ids already asked in state `d`.
pub open spec fn asked_of(d: DiState) -> Seq<u32> {
    match d {
        DiState::AwaitingRemote { asked, .. } => asked,
        _ => Seq::empty(),
    }
}

proof fn lemma_di_run_len(d: DiState, replies: Seq<WinReply>)
    ensures
        di_run(d, replies).len() == replies.len(),
    decreases replies.len(),
{
    if replies.len() > 0 {
        lemma_di_run_len(di_step(d, replies[0]).0, replies.drop_first());
    }
}

proof fn lemma_di_run_index(d: DiState, replies: Seq<WinReply>, i: int)
    requires
        0 < i < replies.len(),
    ensures
        di_run(d, replies)[i] == di_run(di_step(d, replies[0]).0, replies.drop_first())[i - 1],
{
    lemma_di_run_len(di_step(d, replies[0]).0, replies.drop_first());
}

proof fn lemma_di_finished_run(r: Option<Size>, replies: Seq<WinReply>, i: int)
    requires
        0 <= i < replies.len(),
    ensures
        di_run(DiState::Finished(r), replies)[i] == WinRequest::Finished(r),
    decreases replies.len(),
{
    if i > 0 {
        lemma_di_run_index(DiState::Finished(r), replies, i);
        lemma_di_finished_run(r, replies.drop_first(), i - 1);
    }
}

proof fn lemma_di_step_asked(d: DiState, reply: WinReply)
    ensures
        ({
            let (d1, q1) = di_step(d, reply);
            !(d1 is Finished) ==> match q1 {
                WinRequest::RemoteSize(q) => asked_of(d1) == asked_of(d).push(q) && !asked_of(
                    d,
                ).contains(q),
                _ => asked_of(d1) == asked_of(d),
            }
        }),
{
}

proof fn lemma_di_asks_once(d: DiState, replies: Seq<WinReply>, a: Set<u32>)
    requires
        d is Finished || forall|x: u32| a.contains(x) ==> asked_of(d).contains(x),
    ensures
        forall|i: int|
            0 <= i < replies.len() ==> (#[trigger] di_run(d, replies)[i] matches WinRequest::RemoteSize(q)
                ==> !a.contains(q)),
        forall|i: int, j: int|
            0 <= i < j < replies.len() ==> (#[trigger] di_run(d, replies)[i] matches WinRequest::RemoteSize(
                p,
            ) ==> #[trigger] di_run(d, replies)[j] != WinRequest::RemoteSize(p)),
    decreases replies.len(),
{
    if replies.len() == 0 {
        return;
    }
    let (d1, q1) = di_step(d, replies[0]);
    let rest = replies.drop_first();
    lemma_di_run_len(d, replies);
    if d1 is Finished {
        assert forall|i: int| 0 < i < replies.len() implies di_run(d, replies)[i]
            == WinRequest::Finished(d1->Finished_0) by {
            lemma_di_run_index(d, replies, i);
            lemma_di_finished_run(d1->Finished_0, rest, i - 1);
        }
        if let DiState::Finished(r) = d {
            lemma_di_finished_run(r, replies, 0);
        }
        return;
    }
    let a1 = match q1 {
        WinRequest::RemoteSize(q) => a.insert(q),
        _ => a,
    };
    lemma_di_step_asked(d, replies[0]);
    assert forall|x: u32| a1.contains(x) implies asked_of(d1).contains(x) by {
        if let WinRequest::RemoteSize(q) = q1 {
            if x != q {
                assert(asked_of(d).contains(x));
                assert(asked_of(d).push(q).contains(x)) by {
                    let k = choose|k: int| 0 <= k < asked_of(d).len() && asked_of(d)[k] == x;
                    assert(asked_of(d).push(q)[k] == x);
                }
            } else {
                assert(asked_of(d).push(q)[asked_of(d).len() as int] == q);
            }
        }
    }
    lemma_di_asks_once(d1, rest, a1);
    assert forall|i: int| 0 < i < replies.len() implies di_run(d, replies)[i] == di_run(d1, rest)[i
        - 1] by {
        lemma_di_run_index(d, replies, i);
    }
}

/// Law (each process is asked at most once, so the walk ends): in any run of the
/// search, from any state, no console is asked for twice, and none that the state
/// had asked already.
pub proof fn law_di_asks_each_process_once(d: DiState, replies: Seq<WinReply>, i: int, j: int)
    requires
        0 <= i < j < replies.len(),
        di_run(d, replies)[i] matches WinRequest::RemoteSize(p) && di_run(d, replies)[j]
            matches WinRequest::RemoteSize(q),
    ensures
        di_run(d, replies)[i] != di_run(d, replies)[j],
        di_run(d, replies)[j] matches WinRequest::RemoteSize(q) && !asked_of(d).contains(q),
{
    lemma_di_asks_once(d, replies, asked_of(d).to_set());
}

// ---------------------------------------------------------------------------
// The injected code: the standard streams of the process it runs in
// ---------------------------------------------------------------------------

/// Where the injected code's look at its process's standard streams stands.
#[derive(Clone, Copy, Debug, PartialEq, Eq, Structural)]
pub enum StreamProbe {
    /// Waiting for the size behind standard output.
    AwaitingOutput,
    /// Waiting for the size behind standard error.
    AwaitingError,
    /// Waiting for the size behind standard input.
    AwaitingInput,
    /// Done, with this result.
    Finished(Option<Size>),
}

/// What the injected code's look asks of its caller.
#[derive(Clone, Copy, Debug, PartialEq, Eq, Structural)]
pub enum StreamRequest {
    /// The size of the console behind this standard stream.
    Stream(StdHandle),
    /// The look is over, with this result.
    Finished(Option<Size>),
}

/// One step of the look: stdout, stderr, stdin in that order; the first size found
/// is the result, and standard input's answer when the other two had none.
pub open spec fn stream_probe_step(p: StreamProbe, answer: Option<Size>) -> (
    StreamProbe,
    StreamRequest,
) {
    match p {
        StreamProbe::AwaitingOutput => match answer {
            Some(z) => (StreamProbe::Finished(Some(z)), StreamRequest::Finished(Some(z))),
            None => (StreamProbe::AwaitingError, StreamRequest::Stream(StdHandle::Error)),
        },
        StreamProbe::AwaitingError => match answer {
            Some(z) => (StreamProbe::Finished(Some(z)), StreamRequest::Finished(Some(z))),
            None => (StreamProbe::AwaitingInput, StreamRequest::Stream(StdHandle::Input)),
        },
        StreamProbe::AwaitingInput => (StreamProbe::Finished(answer), StreamRequest::Finished(answer)),
        StreamProbe::Finished(r) => (StreamProbe::Finished(r), StreamRequest::Finished(r)),
    }
}

impl StreamProbe {
    /// Starts the look: the first request is standard output.
    pub fn new() -> (r: (StreamProbe, StreamRequest))
        ensures
            r == (StreamProbe::AwaitingOutput, StreamRequest::Stream(StdHandle::Output)),
    {
        (StreamProbe::AwaitingOutput, StreamRequest::Stream(StdHandle::Output))
    }
}

/// The decisions of the injected code, which looks for the console of the process
/// it runs in: its standard streams are queried in stdout, stderr and stdin order,
/// and the first size found is what it hands back.
pub fn console_size_of_streams(probe: StreamProbe, answer: Option<Size>) -> (r: (
    StreamProbe,
    StreamRequest,
))
    ensures
        r == stream_probe_step(probe, answer),
{
    match probe {
        StreamProbe::AwaitingOutput => match answer {
            Some(z) => (StreamProbe::Finished(Some(z)), StreamRequest::Finished(Some(z))),
            None => (StreamProbe::AwaitingError, StreamRequest::Stream(StdHandle::Error)),
        },
        StreamProbe::AwaitingError => match answer {
            Some(z) => (StreamProbe::Finished(Some(z)), StreamRequest::Finished(Some(z))),
            None => (StreamProbe::AwaitingInput, StreamRequest::Stream(StdHandle::Input)),
        },
        StreamProbe::AwaitingInput => (StreamProbe::Finished(answer), StreamRequest::Finished(answer)),
        StreamProbe::Finished(r) => (StreamProbe::Finished(r), StreamRequest::Finished(r)),
    }
}

/// Law (stdout, stderr, stdin order in the injected code): standard error is asked
/// only right after standard output had no console, standard input only right after
/// standard error had none; a size found ends the look with that size.
pub proof fn law_streams_of_remote_process_in_order(p: StreamProbe, answer: Option<Size>)
    ensures
        ({
            let (_, q) = stream_probe_step(p, answer);
            &&& q == StreamRequest::Stream(StdHandle::Error) ==> p == StreamProbe::AwaitingOutput
                && answer is None
            &&& q == StreamRequest::Stream(StdHandle::Input) ==> p == StreamProbe::AwaitingError
                && answer is None
            &&& !(q is Stream) ==> q == StreamRequest::Finished(
                match p {
                    StreamProbe::Finished(r) => r,
                    _ => answer,
                },
            )
        }),
{
}

/// Law (the snapshot lookup finds the first entry with the pid): for every snapshot
/// `s`, pid and position `i`, when `s[i]` has that pid and no entry before it does,
/// the lookup gives `s[i]`; when no entry has the pid, it gives `None`. Entries
/// with other ids, whatever they are, never stop the lookup.
pub proof fn law_first_with_pid_finds_first(s: Seq<ProcessEntry>, pid: u32, i: int)
    ensures
        0 <= i < s.len() && s[i].process_id == pid && (forall|j: int|
            0 <= j < i ==> #[trigger] s[j].process_id != pid) ==> first_with_pid(s, pid) == Some(
            s[i],
        ),
        (forall|j: int| 0 <= j < s.len() ==> #[trigger] s[j].process_id != pid) ==> first_with_pid(
            s,
            pid,
        ) is None,
    decreases s.len(),
{
    if s.len() > 0 {
        law_first_with_pid_finds_first(s.drop_first(), pid, i - 1);
        if i > 0 && 0 <= i < s.len() && s[i].process_id == pid && (forall|j: int|
            0 <= j < i ==> #[trigger] s[j].process_id != pid) {
            assert(s[0].process_id != pid);
            assert(s.drop_first()[i - 1] == s[i]);
            assert forall|j: int| 0 <= j < i - 1 implies #[trigger] s.drop_first()[j].process_id
                != pid by {
                assert(s.drop_first()[j] == s[j + 1]);
            }
        }
        if forall|j: int| 0 <= j < s.len() ==> #[trigger] s[j].process_id != pid {
            assert(s[0].process_id != pid);
            assert forall|j: int| 0 <= j < s.len() - 1 implies #[trigger] s.drop_first()[j].process_id
                != pid by {
                assert(s.drop_first()[j] == s[j + 1]);
            }
        }
    }
}

/// Law (a console found ends the walk with exactly that size): waiting for the
/// console of any process of the walk, a reply that reports size `z` ends the search
/// with `z`.
pub proof fn law_di_found_size_ends(
    processes: Seq<ProcessEntry>,
    current: ProcessEntry,
    asked: Seq<u32>,
    z: Size,
)
    ensures
        di_step(DiState::AwaitingRemote { processes, current, asked }, WinReply::Size(Some(z)))
            == (DiState::Finished(Some(z)), WinRequest::Finished(Some(z))),
{
}

/// Law (the module lookup finds the first wanted module): for every module list and
/// position `i`, when the module at `i` has the wanted full name or last name
/// component and none before it does, the lookup gives its handle; when none does,
/// it gives `None`.
pub proof fn law_first_wanted_finds_first(modules: Seq<RemoteModule>, wanted: Seq<char>, i: int)
    ensures
        0 <= i < modules.len() && (modules[i].full_name@ == wanted || modules[i].file_name@
            == wanted) && (forall|j: int|
            0 <= j < i ==> #[trigger] modules[j].full_name@ != wanted && modules[j].file_name@
                != wanted) ==> first_wanted(modules, wanted) == Some(modules[i].handle),
        (forall|j: int|
            0 <= j < modules.len() ==> #[trigger] modules[j].full_name@ != wanted
                && modules[j].file_name@ != wanted) ==> first_wanted(modules, wanted) is None,
    decreases modules.len(),
{
    if modules.len() > 0 {
        law_first_wanted_finds_first(modules.drop_first(), wanted, i - 1);
        assert forall|j: int| 0 <= j < modules.len() - 1 implies #[trigger] modules.drop_first()[j]
            == modules[j + 1] by {}
        if i > 0 && 0 <= i < modules.len() {
            assert(modules.drop_first()[i - 1] == modules[i]);
        }
    }
}

} // verus!

//! The Unix search: the standard streams of the current process first, then the
//! terminals of its parent processes, found through `/proc`.
//!
//! The search itself needs files and process ids, so it is written as a state
//! machine: each step takes the answer to the previous request and gives the
//! next state and the next request. The caller performs the requests.
use vstd::prelude::*;
use crate::size::Size;
use crate::text::{
    chars_of, is_whitespace, is_whitespace_char, parse_u32, parse_u32_spec, push_decimal,
    decimal_digits, IntError, ascii_chars, law_decimal_round_trip,
    lemma_decimal_digits_are_digits, is_digit_char,
};

verus! {

// ---------------------------------------------------------------------------
// Reading the parent process id out of `/proc/<pid>/stat`
// ---------------------------------------------------------------------------

/// The first position at or after `i` that does not hold whitespace (or the end).
pub open spec fn skip_whitespace(s: Seq<char>, i: int) -> int
    decreases s.len() - i,
{
    if 0 <= i < s.len() && is_whitespace_char(s[i]) {
        skip_whitespace(s, i + 1)
    } else {
        i
    }
}

/// The first position at or after `i` that holds whitespace (or the end).
pub open spec fn skip_word(s: Seq<char>, i: int) -> int
    decreases s.len() - i,
{
    if 0 <= i < s.len() && !is_whitespace_char(s[i]) {
        skip_word(s, i + 1)
    } else {
        i
    }
}

/// The last position before `n` that holds `c`, or -1 (`str::rfind` on `s[..n]`).
pub open spec fn last_index_before(s: Seq<char>, c: char, n: int) -> int
    decreases n,
{
    if n <= 0 {
        -1
    } else if s[n - 1] == c {
        n - 1
    } else {
        last_index_before(s, c, n - 1)
    }
}

/// Why no parent process id could be read from the text of a stat file.
#[derive(Clone, Copy, Debug, PartialEq, Eq, Structural)]
pub enum StatError {
    /// The text holds no `)`, which closes the process name.
    NoClosingParenthesis,
    /// Nothing follows the process name.
    MissingState,
    /// Only the state follows the process name.
    MissingParentPid,
    /// The field after the state is not a `u32`.
    InvalidParentPid(IntError),
}

/// The parent pid in the text of `/proc/<pid>/stat`: after the last `)` (which
/// ends the process name), the second whitespace-separated field, read as a `u32`.
pub open spec fn parent_pid_spec(s: Seq<char>) -> Result<u32, StatError> {
    let p = last_index_before(s, ')', s.len() as int);
    if p < 0 {
        Err(StatError::NoClosingParenthesis)
    } else {
        let a1 = skip_whitespace(s, p + 1);
        let b1 = skip_word(s, a1);
        if a1 == b1 {
            Err(StatError::MissingState)
        } else {
            let a2 = skip_whitespace(s, b1);
            let b2 = skip_word(s, a2);
            if a2 == b2 {
                Err(StatError::MissingParentPid)
            } else {
                match parse_u32_spec(s.subrange(a2, b2)) {
                    Ok(v) => Ok(v),
                    Err(e) => Err(StatError::InvalidParentPid(e)),
                }
            }
        }
    }
}

fn skip_whitespace_from(s: &Vec<char>, i: usize) -> (r: usize)
    requires
        i <= s.len(),
    ensures
        r == skip_whitespace(s@, i as int),
        i <= r <= s.len(),
{
    let mut j = i;
    while j < s.len() && is_whitespace(s[j])
        invariant
            i <= j <= s.len(),
            skip_whitespace(s@, j as int) == skip_whitespace(s@, i as int),
        decreases s.len() - j,
    {
        j = j + 1;
    }
    j
}

fn skip_word_from(s: &Vec<char>, i: usize) -> (r: usize)
    requires
        i <= s.len(),
    ensures
        r == skip_word(s@, i as int),
        i <= r <= s.len(),
{
    let mut j = i;
    while j < s.len() && !is_whitespace(s[j])
        invariant
            i <= j <= s.len(),
            skip_word(s@, j as int) == skip_word(s@, i as int),
        decreases s.len() - j,
    {
        j = j + 1;
    }
    j
}

/// Reads the parent process id out of the text of a `/proc/<pid>/stat` file.
pub fn parse_parent_pid(stat: &str) -> (r: Result<u32, StatError>)
    ensures
        r == parent_pid_spec(stat@),
{
    let s = chars_of(stat);
    let mut n = s.len();
    while n > 0 && s[n - 1] != ')'
        invariant
            n <= s.len(),
            s@ == stat@,
            last_index_before(s@, ')', n as int) == last_index_before(
                s@,
                ')',
                s.len() as int,
            ),
        decreases n,
    {
        n = n - 1;
    }
    if n == 0 {
        return Err(StatError::NoClosingParenthesis);
    }
    let a1 = skip_whitespace_from(&s, n);
    let b1 = skip_word_from(&s, a1);
    if a1 == b1 {
        return Err(StatError::MissingState);
    }
    let a2 = skip_whitespace_from(&s, b1);
    let b2 = skip_word_from(&s, a2);
    if a2 == b2 {
        return Err(StatError::MissingParentPid);
    }
    match parse_u32(&s, a2, b2) {
        Ok(v) => Ok(v),
        Err(e) => Err(StatError::InvalidParentPid(e)),
    }
}

// ---------------------------------------------------------------------------
// Paths under /proc
// ---------------------------------------------------------------------------

/// The bytes of `/proc/` (ASCII).
pub open spec fn proc_prefix() -> Seq<u8> {
    // '/' 'p' 'r' 'o' 'c' '/'
    seq![47u8, 112u8, 114u8, 111u8, 99u8, 47u8]
}

/// The path `/proc/<pid>/stat`.
pub open spec fn proc_stat_path_spec(pid: u32) -> Seq<u8> {
    // "/stat"
    proc_prefix() + decimal_digits(pid as nat) + seq![47u8, 115u8, 116u8, 97u8, 116u8]
}

/// The path `/proc/<pid>/fd/<fd>`.
pub open spec fn proc_fd_path_spec(pid: u32, fd: u32) -> Seq<u8> {
    // "/fd/" between the two numbers
    proc_prefix() + decimal_digits(pid as nat) + seq![47u8, 102u8, 100u8, 47u8] + decimal_digits(
        fd as nat,
    )
}

/// The path of the stat file of process `pid`: `/proc/<pid>/stat`.
pub fn proc_stat_path(pid: u32) -> (p: Vec<u8>)
    ensures
        p@ == proc_stat_path_spec(pid),
{
    let mut p: Vec<u8> = vec![47u8, 112u8, 114u8, 111u8, 99u8, 47u8];
    push_decimal(&mut p, pid);
    p.push(47u8);
    p.push(115u8);
    p.push(116u8);
    p.push(97u8);
    p.push(116u8);
    p
}

/// The path of file descriptor `fd` of process `pid`: `/proc/<pid>/fd/<fd>`.
pub fn proc_fd_path(pid: u32, fd: u32) -> (p: Vec<u8>)
    ensures
        p@ == proc_fd_path_spec(pid, fd),
{
    let mut p: Vec<u8> = vec![47u8, 112u8, 114u8, 111u8, 99u8, 47u8];
    push_decimal(&mut p, pid);
    p.push(47u8);
    p.push(102u8);
    p.push(100u8);
    p.push(47u8);
    push_decimal(&mut p, fd);
    p
}

// ---------------------------------------------------------------------------
// The terminal of one process: its descriptors 1, 2 and 0
// ---------------------------------------------------------------------------

/// Where the look at one process stands.
#[derive(Clone, Copy, Debug, PartialEq, Eq, Structural)]
pub enum ProcessProbe {
    /// Waiting for the size behind descriptor 1 of the process.
    AwaitingFd1(u32),
    /// Waiting for the size behind descriptor 2 of the process.
    AwaitingFd2(u32),
    /// Waiting for the size behind descriptor 0 of the process.
    AwaitingFd0(u32),
    /// Done, with this result.
    Finished(Option<Size>),
}

/// What the look at one process asks of its caller.
#[derive(Clone, Copy, Debug, PartialEq, Eq, Structural)]
pub enum ProbeRequest {
    /// The size of the terminal that `proc_fd_path(pid, fd)` opens, if it is one
    /// (`None` also when the path cannot be opened).
    FdSize { pid: u32, fd: u32 },
    /// The look is over, with this result.
    Finished(Option<Size>),
}

/// One step of the look at a process: its standard streams in stdout, stderr, stdin
/// order, that is descriptors 1, 2 and 0; the first terminal found is the result,
/// and the answer for descriptor 0 is the result when 1 and 2 had none.
pub open spec fn probe_step(p: ProcessProbe, answer: Option<Size>) -> (ProcessProbe, ProbeRequest) {
    match p {
        ProcessProbe::AwaitingFd1(pid) => match answer {
            Some(z) => (ProcessProbe::Finished(Some(z)), ProbeRequest::Finished(Some(z))),
            None => (ProcessProbe::AwaitingFd2(pid), ProbeRequest::FdSize { pid, fd: 2 }),
        },
        ProcessProbe::AwaitingFd2(pid) => match answer {
            Some(z) => (ProcessProbe::Finished(Some(z)), ProbeRequest::Finished(Some(z))),
            None => (ProcessProbe::AwaitingFd0(pid), ProbeRequest::FdSize { pid, fd: 0 }),
        },
        ProcessProbe::AwaitingFd0(_) => (ProcessProbe::Finished(answer), ProbeRequest::Finished(answer)),
        ProcessProbe::Finished(r) => (ProcessProbe::Finished(r), ProbeRequest::Finished(r)),
    }
}

impl ProcessProbe {
    /// Starts the look at process `pid`: the first request is descriptor 1.
    pub fn new(pid: u32) -> (r: (ProcessProbe, ProbeRequest))
        ensures
            r == (ProcessProbe::AwaitingFd1(pid), ProbeRequest::FdSize { pid, fd: 1 }),
    {
        (ProcessProbe::AwaitingFd1(pid), ProbeRequest::FdSize { pid, fd: 1 })
    }
}

/// The decisions of the look at the terminal of process `pid`: given the answer to
/// the last request, the next state and request. The standard streams are asked in
/// stdout, stderr, stdin order (descriptors 1, 2, 0); the first terminal found is
/// the result, and `None` when none of the three is one.
pub fn terminal_size_of_process(probe: ProcessProbe, answer: Option<Size>) -> (r: (
    ProcessProbe,
    ProbeRequest,
))
    ensures
        r == probe_step(probe, answer),
{
    match probe {
        ProcessProbe::AwaitingFd1(pid) => match answer {
            Some(z) => (ProcessProbe::Finished(Some(z)), ProbeRequest::Finished(Some(z))),
            None => (ProcessProbe::AwaitingFd2(pid), ProbeRequest::FdSize { pid, fd: 2 }),
        },
        ProcessProbe::AwaitingFd2(pid) => match answer {
            Some(z) => (ProcessProbe::Finished(Some(z)), ProbeRequest::Finished(Some(z))),
            None => (ProcessProbe::AwaitingFd0(pid), ProbeRequest::FdSize { pid, fd: 0 }),
        },
        ProcessProbe::AwaitingFd0(_) => (ProcessProbe::Finished(answer), ProbeRequest::Finished(answer)),
        ProcessProbe::Finished(r) => (ProcessProbe::Finished(r), ProbeRequest::Finished(r)),
    }
}

// ---------------------------------------------------------------------------
// The search over the current process and its parents
// ---------------------------------------------------------------------------

/// Where the search stands.
#[derive(Clone, Copy, Debug, PartialEq, Eq, Structural)]
pub enum Search {
    /// Waiting for the size behind standard output (descriptor 1).
    AwaitingStdout,
    /// Waiting for the size behind standard error (descriptor 2).
    AwaitingStderr,
    /// Waiting for the size behind standard input (descriptor 0).
    AwaitingStdin,
    /// Waiting for the text of a stat file, to find the next parent.
    AwaitingStat,
    /// Looking at the descriptors of an ancestor.
    Probing(ProcessProbe),
    /// Done, with this result.
    Finished(Option<Size>),
}

/// What the search asks of its caller.
#[derive(Clone, Copy, Debug, PartialEq, Eq, Structural)]
pub enum Request {
    /// The size of the terminal behind this descriptor of the current process.
    StreamSize(i32),
    /// The text of the current process's stat file, `proc_stat_path` of its id.
    OwnStat,
    /// The text of the stat file of process `pid`, `proc_stat_path(pid)`.
    Stat(u32),
    /// The size of the terminal that `proc_fd_path(pid, fd)` opens.
    FdSize { pid: u32, fd: u32 },
    /// The search is over, with this result.
    Finished(Option<Size>),
}

/// The answer to a request of the search.
#[derive(Debug)]
pub enum Reply {
    /// The answer to `StreamSize` or `FdSize`: a terminal's size, or `None`.
    Size(Option<Size>),
    /// The answer to `OwnStat` or `Stat`: the file's text, or `None` when it could
    /// not be read.
    Stat(Option<String>),
}

/// The parent pid that a reply to a stat request gives: `None` when the file could
/// not be read, its text has no parent pid, or the reply is of another kind.
pub open spec fn reply_parent(reply: Reply) -> Option<u32> {
    match reply {
        Reply::Stat(Some(t)) => match parent_pid_spec(t@) {
            Ok(q) => Some(q),
            Err(_) => None,
        },
        _ => None,
    }
}

/// The ending of the search with result `r`.
pub open spec fn finish(r: Option<Size>) -> (Search, Request) {
    (Search::Finished(r), Request::Finished(r))
}

/// The next stream to ask after one that had no terminal.
pub open spec fn next_stream(reply: Reply, next: (Search, Request)) -> (Search, Request) {
    match reply {
        Reply::Size(Some(z)) => finish(Some(z)),
        Reply::Size(None) => next,
        Reply::Stat(_) => finish(None),
    }
}

/// One step of the search. A reply of another kind than the request asked for
/// ends the search with `None`, as every failure does.
pub open spec fn search_step(s: Search, reply: Reply) -> (Search, Request) {
    match s {
        Search::AwaitingStdout => next_stream(reply, (Search::AwaitingStderr, Request::StreamSize(2))),
        Search::AwaitingStderr => next_stream(reply, (Search::AwaitingStdin, Request::StreamSize(0))),
        Search::AwaitingStdin => next_stream(reply, (Search::AwaitingStat, Request::OwnStat)),
        Search::AwaitingStat => match reply_parent(reply) {
            Some(q) => (Search::Probing(ProcessProbe::AwaitingFd1(q)), Request::FdSize { pid: q, fd: 1 }),
            None => finish(None),
        },
        Search::Probing(p) => match reply {
            Reply::Size(a) => match p {
                ProcessProbe::AwaitingFd1(q) => match a {
                    Some(z) => finish(Some(z)),
                    None => (Search::Probing(ProcessProbe::AwaitingFd2(q)), Request::FdSize { pid: q, fd: 2 }),
                },
                ProcessProbe::AwaitingFd2(q) => match a {
                    Some(z) => finish(Some(z)),
                    None => (Search::Probing(ProcessProbe::AwaitingFd0(q)), Request::FdSize { pid: q, fd: 0 }),
                },
                ProcessProbe::AwaitingFd0(q) => match a {
                    Some(z) => finish(Some(z)),
                    None => (Search::AwaitingStat, Request::Stat(q)),
                },
                ProcessProbe::Finished(r) => finish(r),
            },
            Reply::Stat(_) => finish(None),
        },
        Search::Finished(r) => finish(r),
    }
}

impl Search {
    /// Starts the search: the first request is standard output.
    pub fn new() -> (r: (Search, Request))
        ensures
            r == (Search::AwaitingStdout, Request::StreamSize(1)),
    {
        (Search::AwaitingStdout, Request::StreamSize(1))
    }
}

/// The decisions of the search for the terminal of the current process or one of
/// its parents: given the answer to the last request, the next state and request.
/// Standard output, standard error and standard input are asked in that order;
/// then, from the current process up, the parent's id is read from the stat file
/// and the parent's descriptors are looked at as `terminal_size_of_process` does.
/// The first terminal found is the result; a stat file that cannot be read or
/// holds no parent id ends the search with `None`.
pub fn terminal_size(search: Search, reply: Reply) -> (r: (Search, Request))
    ensures
        r == search_step(search, reply),
{
    match search {
        Search::AwaitingStdout | Search::AwaitingStderr | Search::AwaitingStdin => {
            let next = match search {
                Search::AwaitingStdout => (Search::AwaitingStderr, Request::StreamSize(2)),
                Search::AwaitingStderr => (Search::AwaitingStdin, Request::StreamSize(0)),
                _ => (Search::AwaitingStat, Request::OwnStat),
            };
            match reply {
                Reply::Size(Some(z)) => (Search::Finished(Some(z)), Request::Finished(Some(z))),
                Reply::Size(None) => next,
                Reply::Stat(_) => (Search::Finished(None), Request::Finished(None)),
            }
        },
        Search::AwaitingStat => {
            let parent = match reply {
                Reply::Stat(Some(t)) => match parse_parent_pid(t.as_str()) {
                    Ok(q) => Some(q),
                    Err(_) => None,
                },
                _ => None,
            };
            match parent {
                Some(q) => {
                    let (p, req) = ProcessProbe::new(q);
                    match req {
                        ProbeRequest::FdSize { pid, fd } => (Search::Probing(p), Request::FdSize { pid, fd }),
                        ProbeRequest::Finished(r) => (Search::Finished(r), Request::Finished(r)),
                    }
                },
                None => (Search::Finished(None), Request::Finished(None)),
            }
        },
        Search::Probing(p) => match reply {
            Reply::Size(a) => {
                let (p2, req) = terminal_size_of_process(p, a);
                match req {
                    ProbeRequest::FdSize { pid, fd } => (Search::Probing(p2), Request::FdSize { pid, fd }),
                    ProbeRequest::Finished(Some(z)) => (Search::Finished(Some(z)), Request::Finished(Some(z))),
                    ProbeRequest::Finished(None) => match p {
                        ProcessProbe::AwaitingFd0(q) => (Search::AwaitingStat, Request::Stat(q)),
                        _ => (Search::Finished(None), Request::Finished(None)),
                    },
                }
            },
            Reply::Stat(_) => (Search::Finished(None), Request::Finished(None)),
        },
        Search::Finished(r) => (Search::Finished(r), Request::Finished(r)),
    }
}

// ---------------------------------------------------------------------------
// Laws of the search
// ---------------------------------------------------------------------------

/// The requests a search issues from state `s`, one after each of the replies.
pub open spec fn run_requests(s: Search, replies: Seq<Reply>) -> Seq<Request>
    decreases replies.len(),
{
    if replies.len() == 0 {
        seq![]
    } else {
        let (s1, q1) = search_step(s, replies[0]);
        seq![q1] + run_requests(s1, replies.drop_first())
    }
}

proof fn lemma_run_len(s: Search, replies: Seq<Reply>)
    ensures
        run_requests(s, replies).len() == replies.len(),
    decreases replies.len(),
{
    if replies.len() > 0 {
        lemma_run_len(search_step(s, replies[0]).0, replies.drop_first());
    }
}

proof fn lemma_run_index(s: Search, replies: Seq<Reply>, i: int)
    requires
        0 < i < replies.len(),
    ensures
        run_requests(s, replies)[i] == run_requests(
            search_step(s, replies[0]).0,
            replies.drop_first(),
        )[i - 1],
{
    lemma_run_len(search_step(s, replies[0]).0, replies.drop_first());
}

/// Law: a finished search stays finished with the same result, whatever the
/// replies that follow.
pub proof fn law_finished_is_final(r: Option<Size>, replies: Seq<Reply>, i: int)
    requires
        0 <= i < replies.len(),
    ensures
        run_requests(Search::Finished(r), replies)[i] == Request::Finished(r),
    decreases replies.len(),
{
    if i > 0 {
        lemma_run_index(Search::Finished(r), replies, i);
        law_finished_is_final(r, replies.drop_first(), i - 1);
    }
}

/// The walk over the parents: reading stat files and looking at descriptors.
pub open spec fn in_walk(s: Search) -> bool {
    s is AwaitingStat || s is Probing || s is Finished
}

proof fn lemma_walk_asks_no_stream(s: Search, replies: Seq<Reply>, i: int)
    requires
        in_walk(s),
        0 <= i < replies.len(),
    ensures
        !(run_requests(s, replies)[i] is StreamSize),
    decreases replies.len(),
{
    if i > 0 {
        lemma_run_index(s, replies, i);
        lemma_walk_asks_no_stream(search_step(s, replies[0]).0, replies.drop_first(), i - 1);
    }
}

/// Law (the standard streams come first, in stdout, stderr, stdin order): after
/// the first request (standard output, from `Search::new`), a search asks for
/// standard error only as its first request after a reply, and for standard input
/// only as its second, each only when every reply before was "no terminal"; it
/// asks for no stat file and no descriptor of another process until the three
/// streams all had no terminal.
pub proof fn law_streams_in_order(replies: Seq<Reply>, i: int)
    requires
        0 <= i < replies.len(),
    ensures
        ({
            let q = run_requests(Search::AwaitingStdout, replies);
            &&& q[i] matches Request::StreamSize(fd) ==> ((i == 0 && fd == 2) || (i == 1 && fd
                == 0)) && forall|j: int| 0 <= j <= i ==> replies[j] == Reply::Size(None)
            &&& (q[i] is OwnStat || q[i] is Stat || q[i] is FdSize) ==> i >= 2 && forall|j: int|
                0 <= j < 3 ==> replies[j] == Reply::Size(None)
        }),
{
    let s0 = Search::AwaitingStdout;
    let (s1, q1) = search_step(s0, replies[0]);
    let r1 = replies.drop_first();
    if i == 0 {
        return;
    }
    lemma_run_index(s0, replies, i);
    if s1 is Finished {
        law_finished_is_final(s1->Finished_0, r1, i - 1);
        return;
    }
    assert(replies[0] == Reply::Size(None));
    let (s2, q2) = search_step(s1, r1[0]);
    let r2 = r1.drop_first();
    if i == 1 {
        return;
    }
    lemma_run_index(s1, r1, i - 1);
    if s2 is Finished {
        law_finished_is_final(s2->Finished_0, r2, i - 2);
        return;
    }
    assert(r1[0] == Reply::Size(None));
    assert(replies[1] == r1[0]);
    let (s3, q3) = search_step(s2, r2[0]);
    let r3 = r2.drop_first();
    if i == 2 {
        if s3 is Finished {
        } else {
            assert(r2[0] == Reply::Size(None));
            assert(replies[2] == r2[0]);
        }
        return;
    }
    lemma_run_index(s2, r2, i - 2);
    if s3 is Finished {
        law_finished_is_final(s3->Finished_0, r3, i - 3);
        return;
    }
    assert(r2[0] == Reply::Size(None));
    assert(replies[2] == r2[0]);
    lemma_walk_asks_no_stream(s3, r3, i - 3);
}

/// A state from which no result has been reached yet.
pub open spec fn no_result_yet(s: Search) -> bool {
    match s {
        Search::Finished(Some(_)) => false,
        Search::Probing(ProcessProbe::Finished(Some(_))) => false,
        _ => true,
    }
}

proof fn lemma_result_was_reported(s: Search, replies: Seq<Reply>, i: int, z: Size)
    requires
        no_result_yet(s),
        0 <= i < replies.len(),
        run_requests(s, replies)[i] == Request::Finished(Some(z)),
    ensures
        exists|j: int| 0 <= j <= i && replies[j] == Reply::Size(Some(z)),
    decreases replies.len(),
{
    let (s1, q1) = search_step(s, replies[0]);
    if q1 == Request::Finished(Some(z)) {
        assert(replies[0] == Reply::Size(Some(z)));
        return;
    }
    if i > 0 {
        lemma_run_index(s, replies, i);
        if s1 == Search::Finished(Some(z)) {
            assert(false);
        }
        if let Search::Finished(Some(y)) = s1 {
            law_finished_is_final(Some(y), replies.drop_first(), i - 1);
            assert(false);
        }
        lemma_result_was_reported(s1, replies.drop_first(), i - 1, z);
        let j = choose|j: int| 0 <= j <= i - 1 && replies.drop_first()[j] == Reply::Size(Some(z));
        assert(replies[j + 1] == Reply::Size(Some(z)));
    }
}

/// Law (the result is a terminal's size that was found): when a search started with
/// `Search::new` ends with a size, that size is one the caller reported for a
/// stream or a descriptor; the search never makes one up.
pub proof fn law_result_was_reported(replies: Seq<Reply>, i: int, z: Size)
    requires
        0 <= i < replies.len(),
        run_requests(Search::AwaitingStdout, replies)[i] == Request::Finished(Some(z)),
    ensures
        exists|j: int| 0 <= j <= i && replies[j] == Reply::Size(Some(z)),
{
    lemma_result_was_reported(Search::AwaitingStdout, replies, i, z);
}

/// Law (all parent processes are searched): the walk looks at each parent exactly
/// as `terminal_size_of_process` looks at a process, and when that look finds no
/// terminal it reads the stat file of that same process to find the next parent;
/// a stat file that cannot be read or holds no parent id ends the search with
/// `None`, and one that names a parent turns the walk to that parent's descriptor 1.
pub proof fn law_parent_walk(p: ProcessProbe, a: Option<Size>, reply: Reply)
    requires
        !(p is Finished),
    ensures
        ({
            let (p2, pr) = probe_step(p, a);
            let (s2, r2) = search_step(Search::Probing(p), Reply::Size(a));
            &&& pr matches ProbeRequest::FdSize { pid, fd } ==> s2 == Search::Probing(p2) && r2
                == Request::FdSize { pid, fd }
            &&& pr matches ProbeRequest::Finished(Some(z)) ==> r2 == Request::Finished(Some(z))
            &&& pr == ProbeRequest::Finished(None) ==> s2 == Search::AwaitingStat && r2
                == Request::Stat(
                match p {
                    ProcessProbe::AwaitingFd1(q) => q,
                    ProcessProbe::AwaitingFd2(q) => q,
                    ProcessProbe::AwaitingFd0(q) => q,
                    ProcessProbe::Finished(_) => 0,
                },
            )
        }),
        reply_parent(reply) is None ==> search_step(Search::AwaitingStat, reply) == finish(None),
        reply_parent(reply) matches Some(q) ==> search_step(Search::AwaitingStat, reply) == (
            Search::Probing(ProcessProbe::AwaitingFd1(q)),
            Request::FdSize { pid: q, fd: 1 },
        ),
{
}

/// Law (a terminal found ends the search with exactly that size): in every state
/// that waits for a standard stream of the current process, or for a descriptor of
/// a process in the walk, a reply that reports a terminal of size `z` ends the
/// search with `z`.
pub proof fn law_found_size_ends_search(s: Search, z: Size)
    requires
        s is AwaitingStdout || s is AwaitingStderr || s is AwaitingStdin || (s is Probing
            && !(s->Probing_0 is Finished)),
    ensures
        search_step(s, Reply::Size(Some(z))) == (Search::Finished(Some(z)), Request::Finished(
            Some(z),
        )),
{
}

/// Law (a terminal found by the look at one process is its result): in every state
/// that waits for a descriptor, an answer of size `z` ends the look with `z`.
pub proof fn law_probe_found_size_ends(p: ProcessProbe, z: Size)
    requires
        !(p is Finished),
    ensures
        probe_step(p, Some(z)) == (ProcessProbe::Finished(Some(z)), ProbeRequest::Finished(
            Some(z),
        )),
{
}

/// Law (the first standard stream with a terminal gives the result): for a search
/// started with `Search::new`, when the streams before stream `k` (stdout, stderr,
/// stdin) had no terminal and stream `k` has one of size `z`, the request issued
/// after that reply is `Finished(Some(z))`.
pub proof fn law_first_stream_with_terminal(k: int, z: Size)
    requires
        0 <= k < 3,
    ensures
        ({
            let replies = Seq::new((k + 1) as nat, |i: int| if i < k {
                Reply::Size(None)
            } else {
                Reply::Size(Some(z))
            });
            run_requests(Search::AwaitingStdout, replies)[k] == Request::Finished(Some(z))
        }),
{
    let replies = Seq::new((k + 1) as nat, |i: int| if i < k {
        Reply::Size(None)
    } else {
        Reply::Size(Some(z))
    });
    let r1 = replies.drop_first();
    if k > 0 {
        lemma_run_index(Search::AwaitingStdout, replies, k);
        let r2 = r1.drop_first();
        if k > 1 {
            lemma_run_index(Search::AwaitingStderr, r1, k - 1);
            assert(r2[0] == Reply::Size(Some(z)));
        } else {
            assert(r1[0] == Reply::Size(Some(z)));
        }
    }
}

/// Law (the walk turns to the parent that the stat file names): for every text `t`
/// of a stat file whose parent pid parses as `q`, the reply with `t` turns the walk
/// to descriptor 1 of process `q`, whatever `q` is; a text without a parent pid, or
/// an unreadable file, ends the search with `None`.
pub proof fn law_stat_names_next_parent(t: String)
    ensures
        parent_pid_spec(t@) matches Ok(q) ==> search_step(Search::AwaitingStat, Reply::Stat(Some(t)))
            == (Search::Probing(ProcessProbe::AwaitingFd1(q)), Request::FdSize { pid: q, fd: 1 }),
        parent_pid_spec(t@) is Err ==> search_step(Search::AwaitingStat, Reply::Stat(Some(t)))
            == (Search::Finished(None), Request::Finished(None)),
        search_step(Search::AwaitingStat, Reply::Stat(None)) == (
            Search::Finished(None),
            Request::Finished(None),
        ),
{
}

proof fn lemma_last_index(s: Seq<char>, c: char, n: int, p: int)
    requires
        0 <= p < n <= s.len(),
        s[p] == c,
        forall|k: int| p < k < n ==> s[k] != c,
    ensures
        last_index_before(s, c, n) == p,
    decreases n,
{
    if n - 1 > p {
        lemma_last_index(s, c, n - 1, p);
    }
}

proof fn lemma_skip_word_to(s: Seq<char>, i: int, j: int)
    requires
        0 <= i <= j <= s.len(),
        forall|k: int| i <= k < j ==> !is_whitespace_char(#[trigger] s[k]),
        j == s.len() || is_whitespace_char(s[j]),
    ensures
        skip_word(s, i) == j,
    decreases j - i,
{
    if i < j {
        lemma_skip_word_to(s, i + 1, j);
    }
}

/// Law (the parent pid of a stat line): for every process name `name` (which may
/// itself hold `)` and spaces), every state field `state` (no whitespace, no `)`),
/// every parent pid `q` and every remainder `rest` (no `)`, starting with whitespace
/// when not empty), the text `name) state q rest`, as the kernel writes
/// `/proc/<pid>/stat`, gives the parent pid `q`.
pub proof fn law_parent_pid_of_stat_line(name: Seq<char>, state: Seq<char>, q: u32, rest: Seq<char>)
    requires
        state.len() > 0,
        forall|i: int| 0 <= i < state.len() ==> !is_whitespace_char(#[trigger] state[i]) && state[i]
            != ')',
        forall|i: int| 0 <= i < rest.len() ==> #[trigger] rest[i] != ')',
        rest.len() == 0 || is_whitespace_char(rest[0]),
    ensures
        parent_pid_spec(
            name + seq![')', ' '] + state + seq![' '] + ascii_chars(decimal_digits(q as nat)) + rest,
        ) == Ok::<u32, StatError>(q),
{
    let d = ascii_chars(decimal_digits(q as nat));
    let s = name + seq![')', ' '] + state + seq![' '] + d + rest;
    let p = name.len() as int;
    let l = state.len() as int;
    let e1 = p + 2 + l;
    let dl = d.len() as int;
    lemma_decimal_digits_are_digits(q as nat);
    assert forall|i: int| 0 <= i < dl implies is_digit_char(#[trigger] d[i]) by {
        assert(0x30 <= decimal_digits(q as nat)[i] <= 0x39);
    }
    assert(s.len() == e1 + 1 + dl + rest.len());
    assert forall|k: int| p + 2 <= k < e1 implies s[k] == state[k - p - 2] by {}
    assert forall|k: int| e1 + 1 <= k < e1 + 1 + dl implies s[k] == d[k - e1 - 1] by {}
    assert forall|k: int| e1 + 1 + dl <= k < s.len() implies s[k] == rest[k - e1 - 1 - dl] by {}
    assert(s[p] == ')');
    assert(s[p + 1] == ' ');
    assert(s[e1] == ' ');
    assert forall|k: int| p < k < s.len() implies s[k] != ')' by {
        if k == p + 1 || k == e1 {
        } else if p + 2 <= k < e1 {
            assert(s[k] == state[k - p - 2]);
        } else if e1 + 1 <= k < e1 + 1 + dl {
            assert(s[k] == d[k - e1 - 1]);
            assert(is_digit_char(d[k - e1 - 1]));
        } else {
            assert(s[k] == rest[k - e1 - 1 - dl]);
        }
    }
    lemma_last_index(s, ')', s.len() as int, p);
    assert(is_whitespace_char(s[p + 1]));
    assert(s[p + 2] == state[0]);
    assert(skip_whitespace(s, p + 2) == p + 2);
    assert(skip_whitespace(s, p + 1) == p + 2);
    assert forall|k: int| p + 2 <= k < e1 implies !is_whitespace_char(#[trigger] s[k]) by {
        assert(s[k] == state[k - p - 2]);
    }
    lemma_skip_word_to(s, p + 2, e1);
    assert(is_whitespace_char(s[e1]));
    assert(s[e1 + 1] == d[0]);
    assert(is_digit_char(d[0]));
    assert(skip_whitespace(s, e1 + 1) == e1 + 1);
    assert(skip_whitespace(s, e1) == e1 + 1);
    assert forall|k: int| e1 + 1 <= k < e1 + 1 + dl implies !is_whitespace_char(#[trigger] s[k]) by {
        assert(s[k] == d[k - e1 - 1]);
        assert(is_digit_char(d[k - e1 - 1]));
    }
    if rest.len() > 0 {
        assert(s[e1 + 1 + dl] == rest[0]);
    }
    lemma_skip_word_to(s, e1 + 1, e1 + 1 + dl);
    assert(s.subrange(e1 + 1, e1 + 1 + dl) =~= d);
    law_decimal_round_trip(q);
}

/// Law (stdout, stderr, stdin order for every process looked at): for every pid,
/// a descriptor with no terminal is followed by the next one in the order 1, 2, 0,
/// both in the look at one process and in the walk over the parents; after
/// descriptor 0 the look ends with `None` and the walk reads that process's stat
/// file.
pub proof fn law_process_streams_in_order(pid: u32)
    ensures
        probe_step(ProcessProbe::AwaitingFd1(pid), None).1 == (ProbeRequest::FdSize { pid, fd: 2 }),
        probe_step(ProcessProbe::AwaitingFd2(pid), None).1 == (ProbeRequest::FdSize { pid, fd: 0 }),
        probe_step(ProcessProbe::AwaitingFd0(pid), None).1 == ProbeRequest::Finished(None),
        search_step(Search::Probing(ProcessProbe::AwaitingFd1(pid)), Reply::Size(None)).1
            == (Request::FdSize { pid, fd: 2 }),
        search_step(Search::Probing(ProcessProbe::AwaitingFd2(pid)), Reply::Size(None)).1
            == (Request::FdSize { pid, fd: 0 }),
        search_step(Search::Probing(ProcessProbe::AwaitingFd0(pid)), Reply::Size(None)) == (
            Search::AwaitingStat,
            Request::Stat(pid),
        ),
{
}

} // verus!

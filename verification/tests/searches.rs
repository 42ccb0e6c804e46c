use any_terminal_size::size::Size;
use any_terminal_size::unix_impl::{
    terminal_size, terminal_size_of_process, ProbeRequest, ProcessProbe, Reply, Request, Search,
};

fn size(w: u16, h: u16) -> Size {
    Size { width: w, height: h }
}

fn stat(ppid: u32) -> Reply {
    Reply::Stat(Some(format!("1 (sh) S {} 1 1 0", ppid)))
}

/// Runs the search with the replies in order and gives the requests it issued.
fn run(replies: Vec<Reply>) -> Vec<Request> {
    let (mut s, first) = Search::new();
    let mut out = vec![first];
    for r in replies {
        let (next, q) = terminal_size(s, r);
        s = next;
        out.push(q);
    }
    out
}

#[test]
fn streams_are_asked_in_order() {
    let reqs = run(vec![Reply::Size(None), Reply::Size(None), Reply::Size(None)]);
    assert_eq!(
        reqs,
        vec![Request::StreamSize(1), Request::StreamSize(2), Request::StreamSize(0), Request::OwnStat]
    );
}

#[test]
fn first_stream_with_a_terminal_wins() {
    let reqs = run(vec![Reply::Size(None), Reply::Size(Some(size(80, 24))), Reply::Size(None)]);
    assert_eq!(
        reqs,
        vec![
            Request::StreamSize(1),
            Request::StreamSize(2),
            Request::Finished(Some(size(80, 24))),
            Request::Finished(Some(size(80, 24))),
        ]
    );
}

#[test]
fn parents_are_walked() {
    let reqs = run(vec![
        Reply::Size(None),
        Reply::Size(None),
        Reply::Size(None),
        stat(300),
        Reply::Size(None),
        Reply::Size(None),
        Reply::Size(None),
        stat(200),
        Reply::Size(None),
        Reply::Size(Some(size(132, 43))),
    ]);
    assert_eq!(
        reqs,
        vec![
            Request::StreamSize(1),
            Request::StreamSize(2),
            Request::StreamSize(0),
            Request::OwnStat,
            Request::FdSize { pid: 300, fd: 1 },
            Request::FdSize { pid: 300, fd: 2 },
            Request::FdSize { pid: 300, fd: 0 },
            Request::Stat(300),
            Request::FdSize { pid: 200, fd: 1 },
            Request::FdSize { pid: 200, fd: 2 },
            Request::Finished(Some(size(132, 43))),
        ]
    );
}

#[test]
fn unreadable_stat_ends_with_none() {
    let reqs = run(vec![Reply::Size(None), Reply::Size(None), Reply::Size(None), Reply::Stat(None)]);
    assert_eq!(reqs.last(), Some(&Request::Finished(None)));
}

#[test]
fn malformed_stat_ends_with_none() {
    let reqs = run(vec![
        Reply::Size(None),
        Reply::Size(None),
        Reply::Size(None),
        Reply::Stat(Some("no parenthesis here".to_string())),
    ]);
    assert_eq!(reqs.last(), Some(&Request::Finished(None)));
}

#[test]
fn reply_of_wrong_kind_ends_with_none() {
    let reqs = run(vec![Reply::Stat(None)]);
    assert_eq!(reqs, vec![Request::StreamSize(1), Request::Finished(None)]);
    let reqs = run(vec![Reply::Size(None), Reply::Size(None), Reply::Size(None), Reply::Size(None)]);
    assert_eq!(reqs.last(), Some(&Request::Finished(None)));
}

#[test]
fn finished_search_stays_finished() {
    let (s, _) = terminal_size(Search::AwaitingStdout, Reply::Size(Some(size(1, 2))));
    let (s, q) = terminal_size(s, Reply::Size(Some(size(9, 9))));
    assert_eq!(q, Request::Finished(Some(size(1, 2))));
    let (_, q) = terminal_size(s, stat(5));
    assert_eq!(q, Request::Finished(Some(size(1, 2))));
}

#[test]
fn process_probe_descriptor_one_then_two() {
    let (p, q) = ProcessProbe::new(55);
    assert_eq!(q, ProbeRequest::FdSize { pid: 55, fd: 1 });
    let (p, q) = terminal_size_of_process(p, None);
    assert_eq!(q, ProbeRequest::FdSize { pid: 55, fd: 2 });
    let (p, q) = terminal_size_of_process(p, None);
    assert_eq!(q, ProbeRequest::FdSize { pid: 55, fd: 0 });
    let (_, q) = terminal_size_of_process(p, None);
    assert_eq!(q, ProbeRequest::Finished(None));
}

#[test]
fn process_probe_stops_at_first_terminal() {
    let (p, _) = ProcessProbe::new(55);
    let (p, q) = terminal_size_of_process(p, Some(size(100, 30)));
    assert_eq!(q, ProbeRequest::Finished(Some(size(100, 30))));
    assert_eq!(p, ProcessProbe::Finished(Some(size(100, 30))));
    let (p, _) = ProcessProbe::new(55);
    let (p, _) = terminal_size_of_process(p, None);
    let (_, q) = terminal_size_of_process(p, Some(size(3, 4)));
    assert_eq!(q, ProbeRequest::Finished(Some(size(3, 4))));
}

#[test]
fn process_probe_terminal_on_stdin_only() {
    let (p, _) = ProcessProbe::new(9);
    let (p, _) = terminal_size_of_process(p, None);
    let (p, _) = terminal_size_of_process(p, None);
    let (_, q) = terminal_size_of_process(p, Some(size(70, 20)));
    assert_eq!(q, ProbeRequest::Finished(Some(size(70, 20))));
}

#[test]
fn parent_with_terminal_on_stdin_only() {
    let reqs = run(vec![
        Reply::Size(None),
        Reply::Size(None),
        Reply::Size(None),
        stat(300),
        Reply::Size(None),
        Reply::Size(None),
        Reply::Size(Some(size(61, 17))),
    ]);
    assert_eq!(reqs.last(), Some(&Request::Finished(Some(size(61, 17)))));
}

//! The original integration tests. The standard streams are asked of the real
//! process; the files under /proc are out of reach of a test here, so a stat file
//! is answered as unreadable and a descriptor of another process as no terminal.
use any_terminal_size::size::Size;
use any_terminal_size::unix::{any_terminal_size, any_terminal_size_of_process};
use any_terminal_size::unix_impl::{ProbeRequest, ProcessProbe, Reply, Request, Search};

fn terminal_size_of_fd(fd: i32) -> Option<Size> {
    terminal_size::terminal_size_using_fd(fd)
        .map(|(terminal_size::Width(w), terminal_size::Height(h))| Size { width: w, height: h })
}

fn run_any_terminal_size() -> Option<Size> {
    let (mut search, mut request) = Search::new();
    loop {
        let reply = match request {
            Request::StreamSize(fd) => Reply::Size(terminal_size_of_fd(fd)),
            Request::OwnStat | Request::Stat(_) => Reply::Stat(None),
            Request::FdSize { .. } => Reply::Size(None),
            Request::Finished(r) => return r,
        };
        let (next, req) = any_terminal_size(search, reply);
        search = next;
        request = req;
    }
}

fn run_any_terminal_size_of_process(pid: u32) -> Option<Size> {
    let (mut probe, mut request) = ProcessProbe::new(pid);
    loop {
        match request {
            ProbeRequest::FdSize { .. } => {
                let (next, req) = any_terminal_size_of_process(probe, None);
                probe = next;
                request = req;
            }
            ProbeRequest::Finished(r) => return r,
        }
    }
}

fn test_unix() {
    let s = run_any_terminal_size_of_process(1);
    println!("Size from any_terminal_size_of_process(): {:?}", s);
}

fn test_shared() {
    let s = run_any_terminal_size();
    println!("Size from any_terminal_size(): {:?}", s);
}

#[test]
fn shared() {
    test_shared();
}

#[test]
fn unix() {
    test_unix();
}

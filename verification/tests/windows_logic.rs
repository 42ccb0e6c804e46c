use any_terminal_size::size::Size;
use any_terminal_size::windows::dll::{
    create_dll_if_not_exists_already, remove_dll_if_exists, CreateStage, DllRequest, RemoveStage,
};
use any_terminal_size::windows::dll_injection::{
    console_size_of_streams, decode_exchange_buffer, encode_exchange_buffer,
    first_matching_module, get_process_by_pid, module_matches, RemoteModule, StreamProbe,
    StreamRequest,
    relocated_proc_address, terminal_size_di, terminal_size_di_of_process,
    wide_string_byte_count, DiSearch, ProcessEntry, StdHandle, WinReply, WinRequest,
    EXCHANGE_BUFFER_SIZE,
};
use any_terminal_size::windows::{
    any_terminal_size, any_terminal_size_of_process, WinProcessSearch, WinSearch,
};

fn size(w: u16, h: u16) -> Size {
    Size { width: w, height: h }
}

fn entry(pid: u32, parent: u32) -> ProcessEntry {
    ProcessEntry { process_id: pid, parent_process_id: parent }
}

fn snapshot() -> Vec<ProcessEntry> {
    vec![entry(4, 0), entry(100, 4), entry(200, 100), entry(300, 200), entry(200, 7)]
}

#[test]
fn process_found_by_pid_first_match() {
    let list = snapshot();
    assert_eq!(get_process_by_pid(200, &list), Some(entry(200, 100)));
    assert_eq!(get_process_by_pid(4, &list), Some(entry(4, 0)));
    assert_eq!(get_process_by_pid(999, &list), None);
    assert_eq!(get_process_by_pid(1, &Vec::new()), None);
}

#[test]
fn di_search_starts_at_parent() {
    let (d, q) = DiSearch::for_process(300);
    assert_eq!(q, WinRequest::Snapshot);
    let (d, q) = terminal_size_di_of_process(d, WinReply::Processes(Some(snapshot())));
    assert_eq!(q, WinRequest::RemoteSize(200));
    let (d, q) = terminal_size_di_of_process(d, WinReply::Size(None));
    assert_eq!(q, WinRequest::RemoteSize(100));
    let (d, q) = terminal_size_di_of_process(d, WinReply::Size(None));
    assert_eq!(q, WinRequest::RemoteSize(4));
    let (_, q) = terminal_size_di_of_process(d, WinReply::Size(None));
    assert_eq!(q, WinRequest::Finished(None));
}

#[test]
fn di_search_including_the_process_itself() {
    let (d, _) = DiSearch::for_process_and_parents(300);
    let (d, q) = terminal_size_di_of_process(d, WinReply::Processes(Some(snapshot())));
    assert_eq!(q, WinRequest::RemoteSize(300));
    let (_, q) = terminal_size_di_of_process(d, WinReply::Size(Some(size(120, 30))));
    assert_eq!(q, WinRequest::Finished(Some(size(120, 30))));
}

#[test]
fn di_search_failures_end_with_none() {
    let (d, _) = DiSearch::for_process(300);
    let (_, q) = terminal_size_di_of_process(d, WinReply::Processes(None));
    assert_eq!(q, WinRequest::Finished(None));
    let (d, _) = DiSearch::for_process(12345);
    let (_, q) = terminal_size_di_of_process(d, WinReply::Processes(Some(snapshot())));
    assert_eq!(q, WinRequest::Finished(None));
    let (d, _) = DiSearch::for_process(4);
    let (_, q) = terminal_size_di_of_process(d, WinReply::Processes(Some(snapshot())));
    assert_eq!(q, WinRequest::Finished(None));
}

#[test]
fn di_search_of_current_process() {
    let (d, q) = DiSearch::for_current_process();
    assert_eq!(q, WinRequest::CurrentPid);
    let (d, q) = terminal_size_di(d, WinReply::Pid(200));
    assert_eq!(q, WinRequest::Snapshot);
    let (_, q) = terminal_size_di(d, WinReply::Processes(Some(snapshot())));
    assert_eq!(q, WinRequest::RemoteSize(100));
}

#[test]
fn windows_search_order() {
    let (s, q) = WinSearch::new();
    assert_eq!(q, WinRequest::EnsureDll);
    let (s, q) = any_terminal_size(s, WinReply::DllReady(false));
    assert_eq!(q, WinRequest::StreamSize(StdHandle::Output));
    let (s, q) = any_terminal_size(s, WinReply::Size(None));
    assert_eq!(q, WinRequest::StreamSize(StdHandle::Error));
    let (s, q) = any_terminal_size(s, WinReply::Size(None));
    assert_eq!(q, WinRequest::StreamSize(StdHandle::Input));
    let (s, q) = any_terminal_size(s, WinReply::Size(None));
    assert_eq!(q, WinRequest::CurrentPid);
    let (s, q) = any_terminal_size(s, WinReply::Pid(300));
    assert_eq!(q, WinRequest::Snapshot);
    let (s, q) = any_terminal_size(s, WinReply::Processes(Some(snapshot())));
    assert_eq!(q, WinRequest::RemoteSize(200));
    let (_, q) = any_terminal_size(s, WinReply::Size(Some(size(80, 25))));
    assert_eq!(q, WinRequest::Finished(Some(size(80, 25))));
}

#[test]
fn windows_search_stream_found() {
    let (s, _) = WinSearch::new();
    let (s, _) = any_terminal_size(s, WinReply::DllReady(true));
    let (_, q) = any_terminal_size(s, WinReply::Size(Some(size(90, 20))));
    assert_eq!(q, WinRequest::Finished(Some(size(90, 20))));
}

#[test]
fn windows_search_of_process() {
    let (s, q) = WinProcessSearch::new(300);
    assert_eq!(q, WinRequest::EnsureDll);
    let (s, q) = any_terminal_size_of_process(s, WinReply::DllReady(true));
    assert_eq!(q, WinRequest::Snapshot);
    let (s, q) = any_terminal_size_of_process(s, WinReply::Processes(Some(snapshot())));
    assert_eq!(q, WinRequest::RemoteSize(300));
    let (s, q) = any_terminal_size_of_process(s, WinReply::Size(None));
    assert_eq!(q, WinRequest::RemoteSize(200));
    let (_, q) = any_terminal_size_of_process(s, WinReply::Pid(1));
    assert_eq!(q, WinRequest::Finished(None));
}

#[test]
fn exchange_buffer_round_trip() {
    assert_eq!(EXCHANGE_BUFFER_SIZE, 4);
    for s in [size(80, 24), size(1, 0), size(0, 1), size(65535, 65535), size(300, 513)].iter() {
        assert_eq!(decode_exchange_buffer(encode_exchange_buffer(Some(*s))), Some(*s));
    }
    assert_eq!(encode_exchange_buffer(None), [0, 0, 0, 0]);
    assert_eq!(decode_exchange_buffer([0, 0, 0, 0]), None);
    assert_eq!(encode_exchange_buffer(Some(size(0x1234, 0xABCD))), [0x34, 0x12, 0xCD, 0xAB]);
    assert_eq!(decode_exchange_buffer([0x50, 0x00, 0x18, 0x00]), Some(size(80, 24)));
}

#[test]
fn exchange_buffer_matches_native_order() {
    let s = size(0x0102, 0x0304);
    let mut expected = Vec::new();
    expected.extend_from_slice(&0x0102u16.to_le_bytes());
    expected.extend_from_slice(&0x0304u16.to_le_bytes());
    assert_eq!(encode_exchange_buffer(Some(s)).to_vec(), expected);
}

#[test]
fn relocation_keeps_offset() {
    assert_eq!(relocated_proc_address(0x1000_2345, 0x1000_0000, 0x7000_0000), 0x7000_2345);
    assert_eq!(relocated_proc_address(0x1000_2345, 0x1000_0000, 0x1000_0000), 0x1000_2345);
    assert_eq!(relocated_proc_address(0x9000_0010, 0x9000_0000, 0x100), 0x110);
}

#[test]
fn module_name_matching() {
    assert!(module_matches("kernel32.dll", "kernel32.dll", "kernel32.dll"));
    assert!(module_matches("C:\\Windows\\System32\\KERNEL32.DLL", "KERNEL32.DLL", "KERNEL32.DLL"));
    assert!(!module_matches("C:\\x\\a.dll", "a.dll", "b.dll"));
    assert!(!module_matches("C:\\x\\a.dll", "a.dll", "A.dll"));
}

#[test]
fn wide_string_bytes() {
    assert_eq!(wide_string_byte_count(0), 2);
    assert_eq!(wide_string_byte_count(10), 22);
}

#[test]
fn create_dll_decisions() {
    let (s, q) = CreateStage::new();
    assert_eq!(q, DllRequest::CreateDll);
    let (_, q) = create_dll_if_not_exists_already(s, true);
    assert_eq!(q, DllRequest::Finished(true));
    let (s, _) = CreateStage::new();
    let (s, q) = create_dll_if_not_exists_already(s, false);
    assert_eq!(q, DllRequest::CheckExists);
    let (s2, q) = create_dll_if_not_exists_already(s, true);
    assert_eq!(q, DllRequest::Finished(true));
    let (_, q) = create_dll_if_not_exists_already(s2, false);
    assert_eq!(q, DllRequest::Finished(true));
    let (_, q) = create_dll_if_not_exists_already(CreateStage::AwaitingExists, false);
    assert_eq!(q, DllRequest::Finished(false));
}

#[test]
fn remove_dll_decisions() {
    let (s, q) = RemoveStage::new();
    assert_eq!(q, DllRequest::CheckExists);
    let (_, q) = remove_dll_if_exists(s, false);
    assert_eq!(q, DllRequest::Finished(true));
    let (s, _) = RemoveStage::new();
    let (s, q) = remove_dll_if_exists(s, true);
    assert_eq!(q, DllRequest::RemoveDll);
    let (_, q) = remove_dll_if_exists(s, false);
    assert_eq!(q, DllRequest::Finished(false));
    let (_, q) = remove_dll_if_exists(RemoveStage::AwaitingRemove, true);
    assert_eq!(q, DllRequest::Finished(true));
}

#[test]
fn di_search_stops_at_self_parented_process() {
    let list = vec![entry(5, 0), entry(0, 0)];
    let (d, _) = DiSearch::for_process(5);
    let (d, q) = terminal_size_di_of_process(d, WinReply::Processes(Some(list)));
    assert_eq!(q, WinRequest::RemoteSize(0));
    let (_, q) = terminal_size_di_of_process(d, WinReply::Size(None));
    assert_eq!(q, WinRequest::Finished(None));
}

#[test]
fn di_search_stops_on_a_cycle() {
    let list = vec![entry(1, 2), entry(2, 3), entry(3, 1)];
    let (mut d, mut q) = DiSearch::for_process_and_parents(1);
    let mut asked = Vec::new();
    let mut reply = WinReply::Processes(Some(list));
    loop {
        let (next, req) = terminal_size_di_of_process(d, reply);
        d = next;
        q = req;
        match q {
            WinRequest::RemoteSize(pid) => {
                assert!(!asked.contains(&pid));
                asked.push(pid);
                reply = WinReply::Size(None);
            }
            _ => break,
        }
    }
    assert_eq!(asked, vec![1, 2, 3]);
    assert_eq!(q, WinRequest::Finished(None));
}

fn module(handle: u64, full: &str, file: &str) -> RemoteModule {
    RemoteModule { handle, full_name: full.to_string(), file_name: file.to_string() }
}

#[test]
fn first_matching_module_in_order() {
    let modules = vec![
        module(0x1000, "C:\\x\\ntdll.dll", "ntdll.dll"),
        module(0x2000, "C:\\x\\inject.dll", "inject.dll"),
        module(0x3000, "D:\\y\\inject.dll", "inject.dll"),
    ];
    assert_eq!(first_matching_module(&modules, "inject.dll"), Some(0x2000));
    assert_eq!(first_matching_module(&modules, "D:\\y\\inject.dll"), Some(0x3000));
    assert_eq!(first_matching_module(&modules, "kernel32.dll"), None);
    assert_eq!(first_matching_module(&Vec::new(), "inject.dll"), None);
}

#[test]
fn injected_code_asks_streams_in_order() {
    let (p, q) = StreamProbe::new();
    assert_eq!(q, StreamRequest::Stream(StdHandle::Output));
    let (p, q) = console_size_of_streams(p, None);
    assert_eq!(q, StreamRequest::Stream(StdHandle::Error));
    let (p, q) = console_size_of_streams(p, None);
    assert_eq!(q, StreamRequest::Stream(StdHandle::Input));
    let (_, q) = console_size_of_streams(p, Some(size(40, 10)));
    assert_eq!(q, StreamRequest::Finished(Some(size(40, 10))));
    let (p, _) = StreamProbe::new();
    let (_, q) = console_size_of_streams(p, Some(size(1, 1)));
    assert_eq!(q, StreamRequest::Finished(Some(size(1, 1))));
}

use sandbox_research::hooks::{dll_entry_action, suspended_flags, DllAction, SpawnHook, SpawnHookAction, SpawnHookEvent};
use sandbox_research::inject::{path_payload, InjectAction, InjectError, InjectEvent, Injection, PATH_BUFFER_BYTES};
use sandbox_research::ioctl::{
    echo_matches, echo_request, BOXDRV_IO_ECHO, BOXDRV_IO_READLIST, BOXDRV_IO_WRITELIST, ECHO_BUFFER_BYTES,
};
use sandbox_research::launch::{is_white_space, launch_command, trim, Launch, LaunchAction, LaunchEvent};
use sandbox_research::managed::ProcessInfo;
use sandbox_research::Profile;

const INFO: ProcessInfo = ProcessInfo { pid: 300, h_process: 40, h_thread: 41 };

fn wide(s: &str) -> Vec<u16> {
    let mut v: Vec<u16> = s.encode_utf16().collect();
    v.push(0);
    v
}

#[test]
fn broker_launch_success_in_release() {
    let mut l = Launch::new(Profile::new(2, "calc", "", "calc.exe"), true);
    assert_eq!(l.command_line(), wide("calc.exe"));
    assert!(matches!(l.step(LaunchEvent::Created(Some(INFO))), LaunchAction::Inject { h_process: 40 }));
    assert!(matches!(l.step(LaunchEvent::Injected(true)), LaunchAction::Register { pid: 300 }));
    assert!(matches!(l.step(LaunchEvent::Registered(true)), LaunchAction::Resume { h_thread: 41 }));
    match l.step(LaunchEvent::Resumed(true)) {
        LaunchAction::Launched(m) => {
            assert_eq!(m.conf.id, 2);
            assert_eq!(m.conf.pid, 300);
            assert_eq!(m.h_process, 40);
            assert_eq!(m.h_thread, 41);
        },
        other => panic!("unexpected {:?}", other),
    }
}

#[test]
fn broker_launch_without_driver_skips_registration() {
    let mut l = Launch::new(Profile::new(2, "calc", "", "calc.exe"), false);
    l.step(LaunchEvent::Created(Some(INFO)));
    assert!(matches!(l.step(LaunchEvent::Injected(true)), LaunchAction::Resume { h_thread: 41 }));
}

#[test]
fn broker_launch_failures_terminate_child() {
    let mut l = Launch::new(Profile::new(2, "calc", "", "calc.exe"), true);
    assert!(matches!(l.step(LaunchEvent::Created(None)), LaunchAction::Failed));
    for fail_at in 0..3 {
        let mut l = Launch::new(Profile::new(2, "calc", "", "calc.exe"), true);
        l.step(LaunchEvent::Created(Some(INFO)));
        let events = [LaunchEvent::Injected(true), LaunchEvent::Registered(true), LaunchEvent::Resumed(true)];
        let failing = [LaunchEvent::Injected(false), LaunchEvent::Registered(false), LaunchEvent::Resumed(false)];
        for i in 0..fail_at {
            l.step(events[i]);
        }
        assert!(matches!(l.step(failing[fail_at]), LaunchAction::Abort { h_process: 40 }));
    }
}

#[test]
fn service_command_is_trimmed() {
    assert_eq!(launch_command("  notepad.exe a.txt \t\n"), b"notepad.exe a.txt\0".to_vec());
    assert_eq!(launch_command(""), b"\0".to_vec());
    assert_eq!(trim("\u{3000} x y \u{85}"), "x y");
    assert_eq!(trim("   "), "");
}

#[test]
fn injection_success() {
    let mut j = Injection::new();
    let path = b"C:\\hooked.dll".to_vec();
    assert!(matches!(j.step(InjectEvent::Resolved(Some(path.clone()))), InjectAction::Allocate(520)));
    match j.step(InjectEvent::Allocated(true)) {
        InjectAction::Write(bytes) => {
            assert_eq!(bytes.len(), PATH_BUFFER_BYTES);
            assert_eq!(&bytes[..path.len()], &path[..]);
            assert!(bytes[path.len()..].iter().all(|b| *b == 0));
        },
        other => panic!("unexpected {:?}", other),
    }
    assert!(matches!(j.step(InjectEvent::Written(true)), InjectAction::StartThread));
    assert!(matches!(j.step(InjectEvent::ThreadStarted(true)), InjectAction::Finish));
}

#[test]
fn injection_errors() {
    let mut j = Injection::new();
    assert!(matches!(j.step(InjectEvent::Resolved(None)), InjectAction::Fail(InjectError::ResolveError)));
    let mut j = Injection::new();
    j.step(InjectEvent::Resolved(Some(vec![b'a'])));
    assert!(matches!(j.step(InjectEvent::Allocated(false)), InjectAction::Fail(InjectError::MemoryAllocError)));
    let mut j = Injection::new();
    j.step(InjectEvent::Resolved(Some(vec![b'a'])));
    j.step(InjectEvent::Allocated(true));
    assert!(matches!(j.step(InjectEvent::Written(false)), InjectAction::Fail(InjectError::MemoryWriteError)));
    let mut j = Injection::new();
    j.step(InjectEvent::Resolved(Some(vec![b'a'])));
    j.step(InjectEvent::Allocated(true));
    j.step(InjectEvent::Written(true));
    assert!(matches!(j.step(InjectEvent::ThreadStarted(false)), InjectAction::Fail(InjectError::SpawnThreadError)));
}

#[test]
fn long_path_payload_is_cut() {
    let path = vec![b'x'; 600];
    let p = path_payload(&path);
    assert_eq!(p.len(), 520);
    assert!(p.iter().all(|b| *b == b'x'));
}

#[test]
fn hooked_spawn_paths() {
    let mut h = SpawnHook::new();
    assert!(matches!(h.step(SpawnHookEvent::Created { status: 0, info: INFO }), SpawnHookAction::Return));

    let mut h = SpawnHook::new();
    assert!(matches!(h.step(SpawnHookEvent::Created { status: 1, info: INFO }), SpawnHookAction::LocateLibrary));
    assert!(matches!(
        h.step(SpawnHookEvent::LibraryLocated { count: 0, buffer: vec![0; 256] }),
        SpawnHookAction::ResumeAndReturn { h_thread: 41 }
    ));
    assert_eq!(h.status, 1);

    let mut h = SpawnHook::new();
    h.step(SpawnHookEvent::Created { status: 1, info: INFO });
    let mut buffer = wide("C:\\box\\hooked.dll");
    buffer.resize(256, 0);
    match h.step(SpawnHookEvent::LibraryLocated { count: 17, buffer }) {
        SpawnHookAction::Inject { h_process, path } => {
            assert_eq!(h_process, 40);
            assert_eq!(path, "C:\\box\\hooked.dll");
        },
        other => panic!("unexpected {:?}", other),
    }
    assert!(matches!(h.step(SpawnHookEvent::Injected(false)), SpawnHookAction::ResumeAndReturn { h_thread: 41 }));
    assert_eq!(h.info, INFO);
}

#[test]
fn hook_flags_and_entry() {
    assert_eq!(suspended_flags(0x10), 0x14);
    assert_eq!(suspended_flags(0x4), 0x4);
    assert_eq!(dll_entry_action(1), DllAction::Attach);
    assert_eq!(dll_entry_action(0), DllAction::Detach);
    assert_eq!(dll_entry_action(2), DllAction::Ignore);
}

#[test]
fn control_codes() {
    assert_eq!(BOXDRV_IO_ECHO, 0x0022_E000);
    assert_eq!(BOXDRV_IO_READLIST, 0x0022_6004);
    assert_eq!(BOXDRV_IO_WRITELIST, 0x0022_A008);
}

#[test]
fn echo_checks() {
    assert_eq!(echo_request("Hello from user-land!"), Some(b"Hello from user-land!".to_vec()));
    let long = "x".repeat(ECHO_BUFFER_BYTES + 1);
    assert_eq!(echo_request(&long), None);
    let exact = "y".repeat(ECHO_BUFFER_BYTES);
    assert!(echo_request(&exact).is_some());
    let mut out = b"Hello".to_vec();
    assert!(echo_matches("Hello", &out));
    out.resize(ECHO_BUFFER_BYTES, 0);
    assert!(!echo_matches("Hello", &out));
    assert!(echo_matches(&exact, exact.as_bytes()));
}

#[test]
fn white_space_matches_std() {
    for v in 0u32..=0x10FFFF {
        if let Some(c) = char::from_u32(v) {
            assert_eq!(is_white_space(c), c.is_whitespace(), "U+{:04X}", v);
        }
    }
    assert_eq!(trim(" a "), "a");
}

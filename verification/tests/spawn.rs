use process_spawn::engine::assemble_child;
use process_spawn::engine::child_wiring_plan;
use process_spawn::engine::cleanup_failed_spawn;
use process_spawn::engine::failure_cleanup_plan;
use process_spawn::engine::run_fd_ops;
use process_spawn::engine::wire_child_streams;
use process_spawn::engine::FdOp;
use process_spawn::resolve_path;
use process_spawn::status::decode_result_word;
use process_spawn::status::error_word;
use process_spawn::Command;
use process_spawn::Error;
use process_spawn::ExitStatus;
use process_spawn::Stdio;
use process_spawn::StdioType;

// On this host the kernel this crate targets is absent, so every syscall
// of the `syscall` crate reports ENOSYS: closes are silently ignored (as
// the engine specifies), pipes cannot be created, and duplicates fail.
// Everything that decides — plans, resolution, decoding, assembly — is
// plain data and runs as on the target.

#[test]
fn exit_status_zero_is_success() {
    let st = ExitStatus::from_raw(0);
    assert!(st.success());
    assert_eq!(st.code(), Some(0));
}

#[test]
fn exit_status_seven_is_failure() {
    let st = ExitStatus::from_raw(7);
    assert!(!st.success());
    assert_eq!(st.code(), Some(7));
}

#[test]
fn exit_status_code_takes_low_word() {
    let st = ExitStatus::from_raw(0x1_0000_0007);
    assert!(!st.success());
    assert_eq!(st.code(), Some(7));
    let neg = ExitStatus::from_raw(0xFFFF_FFFF);
    assert_eq!(neg.code(), Some(-1));
}

#[test]
fn error_carries_its_number() {
    let e = Error::new(2);
    assert_eq!(e.errno(), 2);
    assert_eq!(e, Error::new(2));
}

#[test]
fn result_word_zero_is_success() {
    assert_eq!(decode_result_word(0), Ok(0));
    assert_eq!(decode_result_word(1), Ok(1));
    assert_eq!(decode_result_word(usize::MAX - 131), Ok(usize::MAX - 131));
}

#[test]
fn result_word_roundtrip_carries_errno() {
    for errno in [1, 2, 38, 131] {
        let w = error_word(&Error::new(errno));
        match decode_result_word(w) {
            Err(e) => assert_eq!(e.errno(), errno),
            Ok(_) => panic!("an error word decoded as success"),
        }
    }
    assert_eq!(error_word(&Error::new(1)), usize::MAX);
    assert_eq!(error_word(&Error::new(2)), usize::MAX - 1);
}

#[test]
fn bare_name_resolves_against_path_variable() {
    assert_eq!(resolve_path("foo", Some("/bin")), "/bin/foo");
    assert_eq!(resolve_path("foo", Some("/bin/")), "/bin/foo");
}

#[test]
fn bare_name_resolves_against_dot_when_unset() {
    assert_eq!(resolve_path("foo", None), "./foo");
}

#[test]
fn separated_or_scheme_path_is_verbatim() {
    assert_eq!(resolve_path("./foo", Some("/bin")), "./foo");
    assert_eq!(resolve_path("/bin/foo", Some("/usr/bin")), "/bin/foo");
    assert_eq!(resolve_path("file:foo", Some("/bin")), "file:foo");
}

#[test]
fn command_stores_path_and_args_in_order() {
    let mut c = Command::new("/bin/echo");
    c.arg("one").arg("two");
    assert_eq!(c.path().as_str(), "/bin/echo");
    let args: Vec<String> = c.args().clone();
    assert_eq!(args, vec!["one".to_string(), "two".to_string()]);
}

#[test]
fn command_records_env_overrides_in_order() {
    let mut c = Command::new("x");
    c.env("A", "1").env("B", "2").env("A", "3");
    let pairs: Vec<(String, String)> = c.env_pairs().clone();
    assert_eq!(
        pairs,
        vec![
            ("A".to_string(), "1".to_string()),
            ("B".to_string(), "2".to_string()),
            ("A".to_string(), "3".to_string()),
        ]
    );
}

#[test]
fn merged_env_prefers_the_overrides() {
    let base = vec![
        ("HOME".to_string(), "/root".to_string()),
        ("PATH".to_string(), "/bin".to_string()),
        ("TERM".to_string(), "dumb".to_string()),
    ];
    let overrides = vec![
        ("PATH".to_string(), "/usr/bin".to_string()),
        ("LANG".to_string(), "C".to_string()),
    ];
    let merged = process_spawn::command::merge_env(&base, &overrides);
    assert_eq!(
        merged,
        vec![
            ("HOME".to_string(), "/root".to_string()),
            ("TERM".to_string(), "dumb".to_string()),
            ("PATH".to_string(), "/usr/bin".to_string()),
            ("LANG".to_string(), "C".to_string()),
        ]
    );
}

#[test]
fn collapsed_overrides_keep_one_pair_per_key() {
    let pairs = vec![
        ("A".to_string(), "1".to_string()),
        ("B".to_string(), "2".to_string()),
        ("A".to_string(), "3".to_string()),
    ];
    let collapsed = process_spawn::command::collapse_env(&pairs);
    assert_eq!(
        collapsed,
        vec![("A".to_string(), "3".to_string()), ("B".to_string(), "2".to_string())]
    );
}

#[test]
fn env_entry_joins_key_and_value() {
    assert_eq!(process_spawn::command::env_entry("PATH", "/bin"), "PATH=/bin");
    assert_eq!(process_spawn::command::env_entry("X", ""), "X=");
}

#[test]
fn take_stdio_consumes_the_three_routings() {
    let mut c = Command::new("x");
    c.stdin(Stdio::null()).stdout(Stdio::raw(5)).stderr(Stdio::inherit());
    let (i, o, e) = c.take_stdio();
    assert_eq!(i, StdioType::Null);
    assert_eq!(o, StdioType::Raw(5));
    assert_eq!(e, StdioType::Inherit);
    // A second spawn attempt finds nothing left to consume.
    let (i2, o2, e2) = c.take_stdio();
    assert_eq!(i2, StdioType::Inherit);
    assert_eq!(o2, StdioType::Inherit);
    assert_eq!(e2, StdioType::Inherit);
}

#[test]
fn piped_degrades_to_null_without_a_pipe() {
    let mut c = Command::new("x");
    c.stdin(Stdio::piped());
    let (i, _, _) = c.take_stdio();
    match i {
        StdioType::Piped(r, w) => assert_ne!(r, w),
        StdioType::Null => {}
        other => panic!("piped() produced {:?}", other),
    }
}

#[test]
fn strict_piped_surfaces_the_failure() {
    // No pipe can be created on this host, so the strict variant
    // reports the error that `piped()` would swallow.
    match Stdio::piped_strict() {
        Ok(s) => {
            let mut c = Command::new("x");
            c.stdin(s);
            let (i, _, _) = c.take_stdio();
            assert!(matches!(i, StdioType::Piped(_, _)));
        }
        Err(e) => assert!(1 <= e.errno() && e.errno() <= 131),
    }
}

#[test]
fn wiring_plan_orders_stderr_stdout_stdin() {
    let plan = child_wiring_plan(StdioType::Piped(3, 4), StdioType::Null, StdioType::Raw(7));
    assert_eq!(
        plan,
        vec![
            // stderr: drop the read end, free slot 2, install the write end.
            FdOp::Close(3),
            FdOp::Close(2),
            FdOp::Dup(4),
            FdOp::Close(4),
            // stdout: just close slot 1.
            FdOp::Close(1),
            // stdin: free slot 0, install the raw descriptor.
            FdOp::Close(0),
            FdOp::Dup(7),
            FdOp::Close(7),
        ]
    );
}

#[test]
fn wiring_plan_keeps_the_read_end_for_stdin() {
    let plan = child_wiring_plan(StdioType::Inherit, StdioType::Inherit, StdioType::Piped(8, 9));
    assert_eq!(
        plan,
        vec![FdOp::Close(9), FdOp::Close(0), FdOp::Dup(8), FdOp::Close(8)]
    );
}

#[test]
fn wiring_without_installs_cannot_fail() {
    assert!(wire_child_streams(StdioType::Inherit, StdioType::Inherit, StdioType::Inherit).is_ok());
    assert!(wire_child_streams(StdioType::Null, StdioType::Null, StdioType::Null).is_ok());
    assert!(run_fd_ops(&vec![FdOp::Close(11), FdOp::Close(12)]).is_ok());
}

#[test]
fn wiring_fails_when_no_descriptor_can_be_installed() {
    // No pipe exists on this host, so the duplicate is refused.
    let r = wire_child_streams(StdioType::Piped(3, 4), StdioType::Inherit, StdioType::Inherit);
    assert!(r.is_err());
}

#[test]
fn failure_cleanup_closes_each_owned_descriptor_once() {
    let fds = failure_cleanup_plan(
        StdioType::Piped(3, 4),
        StdioType::Piped(5, 6),
        StdioType::Raw(7),
    );
    assert_eq!(fds, vec![3, 4, 6, 5, 7]);
    let mut sorted = fds.clone();
    sorted.sort();
    sorted.dedup();
    assert_eq!(sorted.len(), fds.len());
    cleanup_failed_spawn(StdioType::Piped(3, 4), StdioType::Piped(5, 6), StdioType::Raw(7));
}

#[test]
fn failure_cleanup_ignores_inherit_and_null() {
    let fds = failure_cleanup_plan(StdioType::Inherit, StdioType::Null, StdioType::Inherit);
    assert_eq!(fds, Vec::<usize>::new());
}

#[test]
fn all_inherit_child_has_no_handles() {
    let c = assemble_child(42, StdioType::Inherit, StdioType::Inherit, StdioType::Inherit);
    assert_eq!(c.id(), 42);
    assert!(c.stdin.is_none());
    assert!(c.stdout.is_none());
    assert!(c.stderr.is_none());
}

#[test]
fn piped_child_keeps_the_parent_ends() {
    let c = assemble_child(
        9,
        StdioType::Piped(3, 4),
        StdioType::Piped(5, 6),
        StdioType::Piped(10, 11),
    );
    // Parent keeps the write end of the child's input pipe and the read
    // ends of its output pipes — never the end installed in the child.
    assert_eq!(c.stdin.as_ref().map(|h| h.as_raw_fd()), Some(4));
    assert_eq!(c.stdout.as_ref().map(|h| h.as_raw_fd()), Some(5));
    assert_eq!(c.stderr.as_ref().map(|h| h.as_raw_fd()), Some(10));
}

#[test]
fn raw_and_null_streams_expose_no_handle() {
    let c = assemble_child(8, StdioType::Raw(5), StdioType::Null, StdioType::Raw(6));
    assert!(c.stdin.is_none());
    assert!(c.stdout.is_none());
    assert!(c.stderr.is_none());
}

#[test]
fn child_id_takes_low_word() {
    let c = assemble_child(
        0x1_0000_0002,
        StdioType::Inherit,
        StdioType::Inherit,
        StdioType::Inherit,
    );
    assert_eq!(c.id(), 2);
}

#[test]
fn wait_reports_the_kernels_answer() {
    let mut c = assemble_child(1, StdioType::Inherit, StdioType::Inherit, StdioType::Inherit);
    // No child exists on this host; the kernel's refusal reaches the caller.
    assert!(c.wait().is_err());
}

#[test]
fn stream_handles_report_refusals_and_keep_buffers() {
    let mut c = assemble_child(
        9,
        StdioType::Piped(3, 4),
        StdioType::Piped(5, 6),
        StdioType::Inherit,
    );
    let stdin = c.stdin.as_mut().unwrap();
    assert!(stdin.write(&[1, 2, 3]).is_err());
    assert!(stdin.flush().is_ok());
    let stdout = c.stdout.as_mut().unwrap();
    let mut buf = vec![0u8; 16];
    assert!(stdout.read(&mut buf).is_err());
    assert_eq!(buf.len(), 16);
}

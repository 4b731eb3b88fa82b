use std::cell::RefCell;

use srun::path::HostPath;
use srun::permission::{PermissionState, Permissions, PermissionsOptions};
use srun::reporter::{Reporter, Timestamp};
use srun::sandbox::{
    archive_name, archive_root, bind_list, build_step, conclude, container_config, containerfile,
    environment, exit_notice, exit_result, has_image_id_form, image_id, plan_container,
    script_text, settle, try_build_step, BuildEvent, BuildRecord, BuildStep, LogChunk, LogPump, Mount,
    PumpStep, RunOptions, CONTAINERFILE_NAME, LOG_CHUNK_CAP, MEMORY, NANO_CPUS, SCRIPT_NAME,
    STOP_TIMEOUT,
};
use srun::Error;

fn s(text: &str) -> String {
    String::from(text)
}

struct Lines {
    seen: RefCell<Vec<(String, String)>>,
    fail: bool,
}

impl Lines {
    fn new() -> Lines {
        Lines { seen: RefCell::new(Vec::new()), fail: false }
    }

    fn failing() -> Lines {
        Lines { seen: RefCell::new(Vec::new()), fail: true }
    }

    fn take(&self, kind: &str, line: &str) -> Result<(), Error> {
        self.seen.borrow_mut().push((s(kind), s(line)));
        if self.fail {
            Err(Error::UnknownError(s("reporter is down")))
        } else {
            Ok(())
        }
    }
}

impl Reporter for Lines {
    fn report_stdout(&self, line: &str, _: Timestamp) -> Result<(), Error> {
        self.take("out", line)
    }

    fn report_stderr(&self, line: &str, _: Timestamp) -> Result<(), Error> {
        self.take("err", line)
    }
}

fn options() -> RunOptions {
    RunOptions {
        image: s("abc123"),
        extend: vec![],
        workdir: s("/workspace"),
        script: vec![s("echo hi")],
        envs: vec![(s("A"), s("1")), (s("B"), s("x=y"))],
        mounts: vec![(s("/in"), s("/tmp/b"))],
    }
}

#[test]
fn containerfile_names_the_base_image() {
    assert_eq!(containerfile("busybox", &vec![]), "FROM busybox\n");
    assert_eq!(containerfile("", &vec![]), "FROM \n");
}

#[test]
fn containerfile_joins_the_extend_commands() {
    assert_eq!(
        containerfile("alpine", &vec![s("apk add git"), s("mkdir\n /x")]),
        "FROM alpine\nRUN apk add git && mkdir /x\n"
    );
    assert_eq!(containerfile("alpine", &vec![s("true")]), "FROM alpine\nRUN true\n");
}

#[test]
fn image_id_is_the_hex_behind_the_colon() {
    assert_eq!(image_id("sha256:0123abcd"), "0123abcd");
    assert_eq!(image_id("\"sha256:0123abcd\""), "0123abcd");
    assert!(has_image_id_form("sha256:0123abcd"));
    assert!(has_image_id_form("\"sha256:0123abcd\""));
    assert!(!has_image_id_form("0123abcd"));
    assert!(!has_image_id_form("\"\""));
}

#[test]
fn the_first_identifier_ends_the_build() {
    let record = BuildRecord { aux_id: Some(s("\"sha256:feed\"")), error: Some(s("late")) };
    assert!(matches!(
        build_step(BuildEvent::Record(record)),
        BuildStep::Built(id) if id == "feed"
    ));
}

#[test]
fn a_record_with_an_error_fails_the_build() {
    let record = BuildRecord { aux_id: None, error: Some(s("no such image")) };
    assert!(matches!(
        build_step(BuildEvent::Record(record)),
        BuildStep::Failed(Error::BuildError(m)) if m == "no such image"
    ));
}

#[test]
fn other_records_are_passed_over() {
    let record = BuildRecord { aux_id: None, error: None };
    assert!(matches!(build_step(BuildEvent::Record(record)), BuildStep::Continue));
}

#[test]
fn failures_of_the_stream_fail_the_build() {
    assert!(matches!(
        build_step(BuildEvent::Transport(s("connection reset"))),
        BuildStep::Failed(Error::ConnectionError(m)) if m == "connection reset"
    ));
    assert!(matches!(
        build_step(BuildEvent::Engine(s("DockerResponseServerError"))),
        BuildStep::Failed(Error::BuildError(m)) if m == "DockerResponseServerError"
    ));
    assert!(matches!(
        build_step(BuildEvent::End),
        BuildStep::Failed(Error::UnknownError(m)) if m == "image not successfully built"
    ));
}

#[test]
fn an_identifier_without_a_colon_is_not_read() {
    let bad = BuildRecord { aux_id: Some(s("feed")), error: None };
    assert!(try_build_step(BuildEvent::Record(bad)).is_none());
    let good = BuildRecord { aux_id: Some(s("sha256:feed")), error: None };
    assert!(matches!(
        try_build_step(BuildEvent::Record(good)),
        Some(BuildStep::Built(id)) if id == "feed"
    ));
    assert!(matches!(try_build_step(BuildEvent::End), Some(BuildStep::Failed(_))));
}

#[test]
fn the_script_has_one_line_for_each_entry() {
    assert_eq!(script_text(&vec![s("echo hi")]), "echo hi\n");
    assert_eq!(script_text(&vec![s("set -x"), s("exit 7")]), "set -x\nexit 7\n");
    assert_eq!(script_text(&vec![]), "");
}

#[test]
fn permission_denied_mount() {
    let permissions = Permissions::from_options(&PermissionsOptions {
        allow_read: Some(vec![HostPath::new("/tmp/a")]),
        ..Default::default()
    });
    let mounts = vec![Mount { container: s("/in"), host: HostPath::new("/tmp/b") }];
    match plan_container(&options(), "/tmp/assets", &mounts, &permissions) {
        Err(Error::PermissionDeniedError(m)) => {
            assert!(m.contains("read"));
            assert!(m.contains("/tmp/b"));
            assert_eq!(m, "Requires read access to /tmp/b, run again with --allow-read flag");
        }
        other => panic!("not denied: {:?}", other),
    }
}

#[test]
fn binds_are_read_only_unless_writing_is_allowed() {
    let permissions = Permissions::from_options(&PermissionsOptions {
        allow_read: Some(vec![HostPath::new("/data")]),
        allow_write: Some(vec![HostPath::new("/data/out")]),
        ..Default::default()
    });
    let mounts = vec![
        Mount { container: s("/in"), host: HostPath::new("/data/in") },
        Mount { container: s("/out"), host: HostPath::new("/data/out") },
    ];
    let binds = bind_list("/tmp/assets", &mounts, &permissions).unwrap();
    assert_eq!(
        binds,
        vec![s("/tmp/assets:/assets"), s("/data/in:/in:ro"), s("/data/out:/out")]
    );
    assert_eq!(
        bind_list("/tmp/assets", &vec![], &permissions).unwrap(),
        vec![s("/tmp/assets:/assets")]
    );
}

#[test]
fn the_first_refused_mount_is_named() {
    let permissions = Permissions::from_options(&PermissionsOptions {
        allow_read: Some(vec![HostPath::new("/ok")]),
        ..Default::default()
    });
    let mounts = vec![
        Mount { container: s("/a"), host: HostPath::new("/ok/a") },
        Mount { container: s("/b"), host: HostPath::new("/no/b") },
        Mount { container: s("/c"), host: HostPath::new("/no/c") },
    ];
    match bind_list("/r", &mounts, &permissions) {
        Err(Error::PermissionDeniedError(m)) => {
            assert_eq!(m, "Requires read access to /no/b, run again with --allow-read flag")
        }
        other => panic!("not denied: {:?}", other),
    }
}

#[test]
fn the_container_gets_the_fixed_limits() {
    let permissions = Permissions::default();
    let config = container_config(&options(), vec![s("/r:/assets")], &permissions);
    assert_eq!(config.image, "abc123");
    assert!(config.tty);
    assert!(config.attach_stdout);
    assert!(config.attach_stderr);
    assert_eq!(config.env, vec![s("A=1"), s("B=x=y")]);
    assert_eq!(config.network_disabled, None);
    assert_eq!(config.stop_timeout, 180);
    assert_eq!(config.working_dir, "/workspace");
    assert_eq!(config.cmd, vec![s("sh"), s("-e"), s("/assets/.run.sh")]);
    assert_eq!(config.nano_cpus, 1_000_000_000);
    assert_eq!(config.memory, 1 << 30);
    assert_eq!(config.binds, vec![s("/r:/assets")]);
    assert!(config.auto_remove);
    assert_eq!(STOP_TIMEOUT, 3 * 60);
    assert_eq!(NANO_CPUS, 1_000_000_000);
    assert_eq!(MEMORY, 1 << 30);
}

#[test]
fn the_network_is_disabled_unless_granted() {
    let mut permissions = Permissions::default();
    permissions.net.state = PermissionState::Denied;
    let config = container_config(&options(), vec![], &permissions);
    assert_eq!(config.network_disabled, Some(true));
    let granted = plan_container(&options(), "/r", &vec![], &Permissions::default()).unwrap();
    assert_eq!(granted.network_disabled, None);
    assert_eq!(granted.binds, vec![s("/r:/assets")]);
}

#[test]
fn the_environment_is_written_as_pairs() {
    assert_eq!(environment(&vec![(s("K"), s("V")), (s("E"), s(""))]), vec![s("K=V"), s("E=")]);
    assert!(environment(&vec![]).is_empty());
}

#[test]
fn non_zero_exit() {
    assert_eq!(exit_notice(7), Some(s("[program exited with code 7]")));
    assert!(matches!(exit_result(7, Ok(())), Err(Error::ErrorCode(7))));
    let lines = Lines::new();
    assert!(matches!(conclude(7, &lines), Err(Error::ErrorCode(7))));
    assert_eq!(*lines.seen.borrow(), vec![(s("err"), s("[program exited with code 7]"))]);
}

#[test]
fn an_exit_with_zero_is_a_success() {
    assert_eq!(exit_notice(0), None);
    assert!(exit_result(0, Ok(())).is_ok());
    assert!(exit_result(0, Err(Error::UnknownError(s("unused")))).is_ok());
    assert!(exit_result(-1, Ok(())).is_ok());
    let lines = Lines::new();
    assert!(conclude(0, &lines).is_ok());
    assert!(conclude(-3, &lines).is_ok());
    assert!(lines.seen.borrow().is_empty());
}

#[test]
fn a_failing_report_of_the_exit_is_handed_back() {
    assert!(matches!(
        exit_result(137, Err(Error::UnknownError(s("down")))),
        Err(Error::UnknownError(m)) if m == "down"
    ));
    assert!(matches!(conclude(137, &Lines::failing()), Err(Error::UnknownError(_))));
    assert_eq!(exit_notice(i64::MAX), Some(s("[program exited with code 9223372036854775807]")));
}

#[test]
fn chunks_are_forwarded_by_their_kind() {
    let lines = Lines::new();
    let mut pump = LogPump::new();
    let out = LogChunk::StdOut(b"2021-05-01T12:00:00Z hi\n".to_vec());
    let err = LogChunk::StdErr(b"2021-05-01T12:00:00Z oops\n".to_vec());
    let console = LogChunk::Console(b"raw \n".to_vec());
    assert_eq!(pump.pump(Ok(out), &lines).unwrap(), PumpStep::Forwarded);
    assert_eq!(pump.pump(Ok(err), &lines).unwrap(), PumpStep::Forwarded);
    assert_eq!(pump.pump(Ok(console), &lines).unwrap(), PumpStep::Forwarded);
    assert_eq!(
        *lines.seen.borrow(),
        vec![(s("out"), s("hi")), (s("err"), s("oops")), (s("out"), s("raw"))]
    );
}

#[test]
fn bytes_that_are_not_utf8_fail_the_pump() {
    let lines = Lines::new();
    let mut pump = LogPump::new();
    match pump.pump(Ok(LogChunk::StdOut(vec![0x66, 0xff, 0x6f])), &lines) {
        Err(Error::EncodingError(m)) => assert!(m.contains("valid_up_to: 1")),
        other => panic!("not an encoding error: {:?}", other),
    }
    assert!(matches!(
        pump.pump(Ok(LogChunk::Console(vec![0xc0])), &lines),
        Err(Error::EncodingError(_))
    ));
    assert!(lines.seen.borrow().is_empty());
}

#[test]
fn a_chunk_without_a_time_is_left_out() {
    let lines = Lines::new();
    let mut pump = LogPump::new();
    let chunk = LogChunk::StdOut(b"no time here\n".to_vec());
    assert_eq!(pump.pump(Ok(chunk), &lines).unwrap(), PumpStep::Malformed);
    assert!(lines.seen.borrow().is_empty());
}

#[test]
fn failures_of_the_stream_and_of_the_reporter_are_handed_back() {
    let lines = Lines::new();
    let mut pump = LogPump::new();
    assert!(matches!(
        pump.pump(Err(Error::DockerError(s("gone"))), &lines),
        Err(Error::DockerError(m)) if m == "gone"
    ));
    let chunk = LogChunk::StdOut(b"2021-05-01T12:00:00Z hi\n".to_vec());
    assert!(matches!(
        pump.pump(Ok(chunk), &Lines::failing()),
        Err(Error::UnknownError(_))
    ));
}

#[test]
fn the_pump_stops_at_the_cap() {
    let lines = Lines::new();
    let mut pump = LogPump::new();
    assert_eq!(LOG_CHUNK_CAP, 500);
    for _ in 0..500 {
        assert!(!pump.is_full());
        let chunk = LogChunk::Console(b"x".to_vec());
        assert_eq!(pump.pump(Ok(chunk), &lines).unwrap(), PumpStep::Forwarded);
    }
    assert!(pump.is_full());
    assert_eq!(
        pump.pump(Ok(LogChunk::Console(b"x".to_vec())), &lines).unwrap(),
        PumpStep::Dropped
    );
    assert_eq!(
        pump.pump(Err(Error::DockerError(s("gone"))), &lines).unwrap(),
        PumpStep::Dropped
    );
    assert_eq!(lines.seen.borrow().len(), 500);
}

#[test]
fn archive_members_are_named_below_the_root() {
    assert_eq!(archive_root("/tmp/ctx"), "/tmp/ctx/");
    assert_eq!(archive_root("/tmp/ctx/"), "/tmp/ctx/");
    assert_eq!(archive_root("/"), "/");
    assert_eq!(archive_root(""), "");
    assert_eq!(archive_name("/tmp/ctx/Dockerfile", "/tmp/ctx/"), "Dockerfile");
    assert_eq!(archive_name("/tmp/ctx/sub/file", "/tmp/ctx/"), "sub/file");
    assert_eq!(archive_name("/elsewhere/file", "/tmp/ctx/"), "/elsewhere/file");
}

#[test]
fn a_run_is_settled_by_the_log_then_the_wait_then_the_code() {
    let lines = Lines::new();
    assert!(matches!(
        settle(Err(Error::EncodingError(s("bad"))), Some(Ok(0)), &lines),
        Err(Error::EncodingError(m)) if m == "bad"
    ));
    assert!(matches!(
        settle(Ok(()), None, &lines),
        Err(Error::UnknownError(m)) if m == "failed to fetch wait response"
    ));
    assert!(matches!(
        settle(Ok(()), Some(Err(Error::DockerError(s("gone")))), &lines),
        Err(Error::DockerError(m)) if m == "gone"
    ));
    assert!(lines.seen.borrow().is_empty());
    assert!(settle(Ok(()), Some(Ok(0)), &lines).is_ok());
    assert!(matches!(settle(Ok(()), Some(Ok(7)), &lines), Err(Error::ErrorCode(7))));
    assert_eq!(*lines.seen.borrow(), vec![(s("err"), s("[program exited with code 7]"))]);
}

#[test]
fn the_command_runs_the_stage_script() {
    let config = container_config(&options(), vec![], &Permissions::default());
    assert_eq!(config.cmd[2], format!("/assets/{}", SCRIPT_NAME));
    assert_eq!(CONTAINERFILE_NAME, "Dockerfile");
}

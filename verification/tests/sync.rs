use container_agent_dev::engine::{
    asks_for_output, engine_came, engine_candidates, engine_on_path, engine_output, ensure_engine_available,
    is_unsupported_engine, run_engine, warn_if_unsupported_engine, ChildEnd, CommandEngine,
    CommandLine, FileProbe, UNSUPPORTED_ENGINE_WARNING,
};
use container_agent_dev::settings::{DEFAULT_BOOTSTRAP_PATH, DEFAULT_ENGINE, WRITABLE_ROOT};
use container_agent_dev::state::AgentState;
use container_agent_dev::sync::{
    active_image_path, handle_host_frame, loopback_reference, service_reference, ActiveImage,
    SyncAction, SyncConfig, SyncRun, ACTIVE_IMAGE_FILE,
};
use container_agent_dev::wire::{DeviceFrame, HostFrame};

const ROOT: &str = "/tmp/state";

/// An engine that records its calls and can be told to fail.
struct FakeEngine {
    fail_pull: bool,
    fail_tag: bool,
    fail_restart: bool,
    fail_resolve: bool,
    fail_inspect: bool,
    fail_pointer: bool,
    wanted_id: Option<String>,
    running_id: Option<String>,
}

impl FakeEngine {
    fn new() -> FakeEngine {
        FakeEngine {
            fail_pull: false,
            fail_tag: false,
            fail_restart: false,
            fail_resolve: false,
            fail_inspect: false,
            fail_pointer: false,
            wanted_id: Some("sha256:newid".to_string()),
            running_id: Some("sha256:newid".to_string()),
        }
    }
}

/// What a whole sync did.
struct Done {
    calls: Vec<String>,
    pointer: Option<(String, String)>,
    result: Result<bool, String>,
    report: Option<DeviceFrame>,
}

fn effect(fails: bool, why: &str) -> Result<Option<String>, String> {
    if fails {
        Err(why.to_string())
    } else {
        Ok(None)
    }
}

fn test_cfg() -> SyncConfig {
    SyncConfig {
        loopback_port: 15151,
        container: "avocado-dev".to_string(),
        writable_root: ROOT.to_string(),
    }
}

fn drive(engine: &FakeEngine, state: &mut AgentState) -> Done {
    let mut run = SyncRun::begin(test_cfg(), "my-app", "dev", "sha256:new");
    let mut calls = Vec::new();
    let mut pointer = None;
    loop {
        let outcome = match run.action() {
            SyncAction::Pull { reference } => {
                calls.push(format!("pull:{reference}"));
                effect(engine.fail_pull, "simulated pull failure")
            }
            SyncAction::Tag { source, target } => {
                calls.push(format!("tag:{source}->{target}"));
                effect(engine.fail_tag, "simulated tag failure")
            }
            SyncAction::Restart { container } => {
                calls.push(format!("restart:{container}"));
                effect(engine.fail_restart, "simulated restart failure")
            }
            SyncAction::ResolveImageId { reference } => {
                calls.push(format!("resolve_image_id:{reference}"));
                if engine.fail_resolve {
                    Err("no engine".to_string())
                } else {
                    Ok(engine.wanted_id.clone())
                }
            }
            SyncAction::RunningImageId { container } => {
                calls.push(format!("running_image_id:{container}"));
                if engine.fail_inspect {
                    Err("no engine".to_string())
                } else {
                    Ok(engine.running_id.clone())
                }
            }
            SyncAction::WritePointer { path, text } => {
                if engine.fail_pointer {
                    Err("no space left".to_string())
                } else {
                    pointer = Some((path, text));
                    Ok(None)
                }
            }
            SyncAction::Nothing => break,
        };
        run.advance(outcome, state);
    }
    Done {
        calls,
        pointer,
        result: run.result().expect("a sync that asks for nothing is over"),
        report: run.report(&state.device_id),
    }
}

#[test]
fn sync_pulls_then_restarts_in_order() {
    let mut state = AgentState::new("dev-01".to_string());
    let done = drive(&FakeEngine::new(), &mut state);
    done.result.expect("sync succeeds");
    let recorded = done.calls;
    assert_eq!(
        recorded.len(),
        5,
        "expected pull, tag, restart, then the two adoption probes, got {recorded:?}"
    );
    assert!(recorded[0].starts_with("pull:"), "first call must be the pull: {recorded:?}");
    assert!(
        recorded[1].starts_with("tag:"),
        "the tag must land between the pull and the restart: {recorded:?}"
    );
    assert!(recorded[2].starts_with("restart:"), "the restart must come last: {recorded:?}");
    assert_eq!(recorded[0], "pull:127.0.0.1:15151/my-app@sha256:new");
    assert_eq!(recorded[2], "restart:avocado-dev");
}

#[test]
fn sync_tags_the_pulled_digest_before_restarting() {
    let mut state = AgentState::new("dev-01".to_string());
    let done = drive(&FakeEngine::new(), &mut state);
    done.result.expect("sync succeeds");
    assert_eq!(
        done.calls,
        vec![
            "pull:127.0.0.1:15151/my-app@sha256:new".to_string(),
            "tag:127.0.0.1:15151/my-app@sha256:new->my-app:dev".to_string(),
            "restart:avocado-dev".to_string(),
            "resolve_image_id:my-app:dev".to_string(),
            "running_image_id:avocado-dev".to_string(),
        ]
    );
}

#[test]
fn a_failed_tag_aborts_before_the_restart() {
    let mut state = AgentState::new("dev-01".to_string());
    let engine = FakeEngine { fail_tag: true, ..FakeEngine::new() };
    let done = drive(&engine, &mut state);
    let err = done.result.expect_err("a failed tag must fail the sync");
    assert!(err.contains("tagging"), "the error must name the tag step: {err}");
    assert_eq!(
        err,
        "tagging 127.0.0.1:15151/my-app@sha256:new as my-app:dev: simulated tag failure"
    );
    let recorded = done.calls;
    assert!(
        !recorded.iter().any(|c| c.starts_with("restart:")),
        "a failed tag must abort BEFORE the restart: {recorded:?}"
    );
    assert_eq!(state.running_digest, "", "a failed tag must not record the new digest");
    assert!(done.pointer.is_none(), "a failed tag must not write the active-image pointer");
}

#[test]
fn a_restart_that_does_not_adopt_the_image_fails_the_sync() {
    let mut state = AgentState::new("dev-01".to_string());
    let engine = FakeEngine {
        running_id: Some("sha256:oldid".to_string()),
        ..FakeEngine::new()
    };
    let done = drive(&engine, &mut state);
    let err = done.result.expect_err("a restart that kept the old image must fail the sync");
    assert!(
        err.contains("did not adopt"),
        "the error must say the restart did not adopt the image: {err}"
    );
    assert!(
        err.contains("AVOCADO_CONTAINER_DEV_SERVICE"),
        "the error must name the remedy: {err}"
    );
    assert_eq!(
        err,
        "restart did not adopt the pulled image: container avocado-dev still runs image \
         sha256:oldid, expected sha256:newid. `avocado-dev` restarts the existing container \
         object, which stays bound to its create-time image id; set \
         AVOCADO_CONTAINER_DEV_SERVICE to the systemd unit that owns the container so the \
         restart re-runs it and re-resolves the tag"
    );
    assert_eq!(
        state.running_digest, "",
        "a container still on the old image must not be reported as synced"
    );
    assert!(
        done.pointer.is_none(),
        "the pointer must not claim a digest the container is not running"
    );
}

#[test]
fn a_container_that_does_not_exist_yet_is_not_a_mismatch() {
    let mut state = AgentState::new("dev-01".to_string());
    let engine = FakeEngine { running_id: None, ..FakeEngine::new() };
    drive(&engine, &mut state).result.expect("an absent container must not fail the sync");
    assert_eq!(state.running_digest, "sha256:new");
}

#[test]
fn an_image_that_cannot_be_resolved_is_not_a_mismatch() {
    let mut state = AgentState::new("dev-01".to_string());
    let engine = FakeEngine { wanted_id: None, ..FakeEngine::new() };
    drive(&engine, &mut state).result.expect("an unknown image must not fail the sync");
    assert_eq!(state.running_digest, "sha256:new");
}

#[test]
fn failed_lookups_fail_the_sync_and_keep_the_digest() {
    let mut state = AgentState::new("dev-01".to_string());
    state.record_digest("sha256:old");
    let engine = FakeEngine { fail_resolve: true, ..FakeEngine::new() };
    assert_eq!(
        drive(&engine, &mut state).result,
        Err("resolving the image id of my-app:dev: no engine".to_string())
    );
    let engine = FakeEngine { fail_inspect: true, ..FakeEngine::new() };
    assert_eq!(
        drive(&engine, &mut state).result,
        Err("reading the image id running in avocado-dev: no engine".to_string())
    );
    assert_eq!(state.running_digest, "sha256:old");
}

#[test]
fn sync_writes_pointer_under_writable_root_and_round_trips() {
    let mut state = AgentState::new("dev-01".to_string());
    let done = drive(&FakeEngine::new(), &mut state);
    assert_eq!(done.result.expect("sync succeeds"), true);
    let (path, raw) = done.pointer.expect("pointer file must be written");
    assert_eq!(path, active_image_path(ROOT));
    assert!(path.starts_with(ROOT), "pointer must live under the writable root: {path}");
    let back: serde_json::Value = serde_json::from_str(&raw).unwrap();
    assert_eq!(back["image"], "my-app");
    assert_eq!(back["tag"], "dev");
    assert_eq!(back["digest"], "sha256:new");
    assert_eq!(back.as_object().unwrap().len(), 3);
    // The layout is that of an indented JSON object.
    assert_eq!(
        raw,
        "{\n  \"image\": \"my-app\",\n  \"tag\": \"dev\",\n  \"digest\": \"sha256:new\"\n}"
    );
}

#[test]
fn a_pointer_escapes_what_json_must_escape() {
    let active = ActiveImage {
        image: "a\"b".to_string(),
        tag: "c\\d\n".to_string(),
        digest: "e\u{1}f\u{e9}".to_string(),
    };
    let raw = active.to_json();
    let back: serde_json::Value = serde_json::from_str(&raw).unwrap();
    assert_eq!(back["image"], "a\"b");
    assert_eq!(back["tag"], "c\\d\n");
    assert_eq!(back["digest"], "e\u{1}f\u{e9}");
}

#[test]
fn active_image_path_derives_from_writable_root_never_rootfs() {
    assert!(
        WRITABLE_ROOT.starts_with("/var/lib/avocado"),
        "writable root must be on the writable partition"
    );
    for ro in ["/usr", "/etc"] {
        assert!(
            !WRITABLE_ROOT.starts_with(ro),
            "writable root must not be under the read-only rootFS path {ro}"
        );
    }
    let path = active_image_path(WRITABLE_ROOT);
    let path = std::path::Path::new(&path);
    assert!(
        path.starts_with(WRITABLE_ROOT),
        "pointer path must be derived from the writable root"
    );
    assert_eq!(path.file_name().unwrap(), ACTIVE_IMAGE_FILE);
    assert!(
        std::path::Path::new(DEFAULT_BOOTSTRAP_PATH).starts_with(WRITABLE_ROOT),
        "pointer root must match the bootstrap's partition"
    );
}

#[test]
fn pointer_paths_join_like_paths() {
    for root in ["/a/b", "/a/b/", "", "rel", "/"] {
        assert_eq!(
            std::path::Path::new(&active_image_path(root)),
            std::path::Path::new(root).join(ACTIVE_IMAGE_FILE)
        );
    }
}

#[test]
fn sync_updates_running_digest_on_success() {
    let mut state = AgentState::new("dev-01".to_string());
    drive(&FakeEngine::new(), &mut state).result.expect("sync succeeds");
    assert_eq!(state.running_digest, "sha256:new");
}

#[test]
fn pull_failure_aborts_before_restart_and_keeps_digest() {
    let mut state = AgentState::new("dev-01".to_string());
    state.record_digest("sha256:old");
    let engine = FakeEngine { fail_pull: true, ..FakeEngine::new() };
    let done = drive(&engine, &mut state);
    let err = done.result.expect_err("pull failure must abort the sync");
    assert!(err.contains("loopback proxy"), "unexpected error: {err}");
    assert_eq!(
        err,
        "pulling 127.0.0.1:15151/my-app@sha256:new through loopback proxy: simulated pull failure"
    );
    let recorded = done.calls;
    assert_eq!(
        recorded.len(),
        1,
        "only the pull should have been attempted: {recorded:?}"
    );
    assert!(recorded[0].starts_with("pull:"));
    assert!(done.pointer.is_none(), "pointer must not be written when the pull fails");
    assert_eq!(
        state.running_digest, "sha256:old",
        "running digest must be unchanged after an aborted sync"
    );
}

#[test]
fn restart_failure_leaves_no_stale_pointer() {
    let mut state = AgentState::new("dev-01".to_string());
    state.record_digest("sha256:old");
    let engine = FakeEngine { fail_restart: true, ..FakeEngine::new() };
    let done = drive(&engine, &mut state);
    let err = done.result.expect_err("restart failure must fail the sync");
    assert!(err.contains("restarting container"), "unexpected error: {err}");
    let recorded = done.calls;
    assert_eq!(
        recorded,
        vec![
            "pull:127.0.0.1:15151/my-app@sha256:new".to_string(),
            "tag:127.0.0.1:15151/my-app@sha256:new->my-app:dev".to_string(),
            "restart:avocado-dev".to_string(),
        ],
        "a failed restart must abort before the adoption probes: {recorded:?}"
    );
    assert!(
        done.pointer.is_none(),
        "pointer must not claim the new image when the restart failed"
    );
    assert_eq!(
        state.running_digest, "sha256:old",
        "running digest must still report the image actually running"
    );
}

#[test]
fn pointer_write_failure_after_a_successful_restart_still_reports_the_new_digest() {
    let mut state = AgentState::new("dev-01".to_string());
    state.record_digest("sha256:old");
    let engine = FakeEngine { fail_pointer: true, ..FakeEngine::new() };
    let done = drive(&engine, &mut state);
    let written = done
        .result
        .expect("a pointer-write failure must not fail a sync that already took effect");
    let recorded = done.calls;
    assert_eq!(
        recorded,
        vec![
            "pull:127.0.0.1:15151/my-app@sha256:new".to_string(),
            "tag:127.0.0.1:15151/my-app@sha256:new->my-app:dev".to_string(),
            "restart:avocado-dev".to_string(),
            "resolve_image_id:my-app:dev".to_string(),
            "running_image_id:avocado-dev".to_string(),
        ],
        "the pull and restart must both have run: {recorded:?}"
    );
    assert!(!written, "the pointer genuinely could not be written");
    assert!(done.pointer.is_none());
    assert!(done.report.is_none());
    assert_eq!(state.running_digest, "sha256:new");
}

#[test]
fn a_failed_sync_produces_a_status_frame_for_the_host() {
    let state = AgentState::new("dev-01".to_string());
    let frame = HostFrame::Sync {
        image: "my-app".to_string(),
        tag: "dev".to_string(),
        digest: "sha256:new".to_string(),
    };
    let mut run = handle_host_frame(&frame, test_cfg());
    let mut carried = AgentState::new("dev-01".to_string());
    run.advance(Err("boom".to_string()), &mut carried);
    let report = run.report(&state.device_id).expect("a failure is reported");
    let json = report.to_wire();
    assert!(json.contains("sync_failed"), "{json}");
    assert!(json.contains("dev-01"), "{json}");
    match report {
        DeviceFrame::Status(status) => {
            assert_eq!(status.state, "sync_failed");
            assert_eq!(
                status.detail.unwrap(),
                "my-app:dev @ sha256:new: pulling 127.0.0.1:15151/my-app@sha256:new through \
                 loopback proxy: boom"
            );
        }
        other => panic!("expected Status, got {other:?}"),
    }
}

#[test]
fn a_failed_sync_stays_failed() {
    let mut state = AgentState::new("dev-01".to_string());
    let mut run = SyncRun::begin(test_cfg(), "my-app", "dev", "sha256:new");
    run.advance(Err("boom".to_string()), &mut state);
    for _ in 0..8 {
        assert_eq!(run.action(), SyncAction::Nothing);
        run.advance(Ok(Some("sha256:newid".to_string())), &mut state);
    }
    assert!(matches!(run.result(), Some(Err(_))));
    assert_eq!(state.running_digest, "");
}

#[test]
fn a_sync_under_way_has_no_result_and_no_report() {
    let run = SyncRun::begin(test_cfg(), "my-app", "dev", "sha256:new");
    assert_eq!(run.result(), None);
    assert_eq!(run.report("dev-01"), None);
}

#[test]
fn loopback_reference_pins_digest_on_loopback_host() {
    let reference = loopback_reference(15151, "my-app", "sha256:abc");
    assert_eq!(reference, "127.0.0.1:15151/my-app@sha256:abc");
}

#[test]
fn references_at_the_edges() {
    assert_eq!(loopback_reference(0, "", ""), "127.0.0.1:0/@");
    assert_eq!(loopback_reference(65535, "a/b", "x"), "127.0.0.1:65535/a/b@x");
    assert_eq!(service_reference("my-app", "dev"), "my-app:dev");
}

#[test]
fn sync_config_comes_from_the_settings() {
    assert_eq!(
        SyncConfig::from_settings(None, None, None),
        SyncConfig {
            loopback_port: 15151,
            container: "avocado-dev".to_string(),
            writable_root: WRITABLE_ROOT.to_string(),
        }
    );
    assert_eq!(
        SyncConfig::from_settings(Some(" 5001\n"), Some(" web "), Some(" /x")),
        SyncConfig {
            loopback_port: 5001,
            container: "web".to_string(),
            writable_root: " /x".to_string(),
        }
    );
    assert_eq!(
        SyncConfig::from_settings(Some("70000"), Some("   "), Some("")),
        SyncConfig {
            loopback_port: 15151,
            container: "avocado-dev".to_string(),
            writable_root: String::new(),
        }
    );
}

// --- the engine --------------------------------------------------------------

#[test]
fn podman_is_classified_unsupported_and_docker_is_not() {
    assert!(is_unsupported_engine("podman"));
    assert!(
        is_unsupported_engine("/usr/bin/podman"),
        "an absolute path must classify the same as a bare name"
    );
    assert!(is_unsupported_engine("podman-remote"), "a podman variant is still podman");

    assert!(!is_unsupported_engine("docker"));
    assert!(!is_unsupported_engine("/usr/bin/docker"));
    assert!(
        !is_unsupported_engine(DEFAULT_ENGINE),
        "the default engine must never be classified unsupported"
    );
}

#[test]
fn only_an_unsupported_engine_is_warned_about() {
    assert_eq!(warn_if_unsupported_engine("podman"), Some(UNSUPPORTED_ENGINE_WARNING));
    assert!(UNSUPPORTED_ENGINE_WARNING.contains("container-agent-dev systemd unit"));
    assert_eq!(warn_if_unsupported_engine("docker"), None);
}

const RUNNABLE: FileProbe = FileProbe { is_file: true, mode: 0o755 };

#[test]
fn a_missing_engine_binary_is_detected_before_the_first_sync() {
    assert_eq!(engine_candidates("docker", Some("/bin")), vec!["/bin/docker".to_string()]);
    assert!(
        !engine_on_path(&vec![None]),
        "an empty PATH dir must not resolve the engine"
    );
    assert!(engine_on_path(&vec![Some(RUNNABLE)]), "an executable on PATH must resolve");
}

#[test]
fn a_present_but_non_executable_engine_does_not_count() {
    assert!(!engine_on_path(&vec![Some(FileProbe { is_file: true, mode: 0o644 })]));
    assert!(!engine_on_path(&vec![Some(FileProbe { is_file: false, mode: 0o755 })]));
    for bit in [0o100, 0o010, 0o001] {
        assert!(engine_on_path(&vec![None, Some(FileProbe { is_file: true, mode: bit })]));
    }
    assert!(!engine_on_path(&vec![]));
}

#[test]
fn an_absolute_engine_path_bypasses_path_lookup() {
    assert_eq!(
        engine_candidates("/tmp/x/myengine", None),
        vec!["/tmp/x/myengine".to_string()]
    );
    assert!(engine_on_path(&vec![Some(RUNNABLE)]));
    assert_eq!(
        engine_candidates("/nonexistent/engine", Some("/bin")),
        vec!["/nonexistent/engine".to_string()]
    );
    assert!(!engine_on_path(&vec![None]));
    // A relative path is a path too.
    assert_eq!(engine_candidates("./e", Some("/bin")), vec!["./e".to_string()]);
}

#[test]
fn a_bare_name_is_looked_up_in_every_directory_in_order() {
    assert_eq!(
        engine_candidates("docker", Some("/usr/bin::/bin/:rel:")),
        vec![
            "/usr/bin/docker".to_string(),
            "/bin/docker".to_string(),
            "rel/docker".to_string(),
        ]
    );
    assert_eq!(engine_candidates("docker", Some("")), Vec::<String>::new());
    assert_eq!(engine_candidates("docker", None), Vec::<String>::new());
}

#[test]
fn the_agent_refuses_to_start_without_its_engine() {
    assert_eq!(ensure_engine_available("docker", true), Ok(()));
    assert_eq!(
        ensure_engine_available("dokker", false),
        Err(
            "container engine `dokker` was not found on PATH. The agent execs it directly on \
             every sync, so there is nothing it can do without it - install the `docker` \
             extension in this runtime, or set AVOCADO_CONTAINER_DEV_ENGINE to an engine that \
             is present."
                .to_string()
        )
    );
}

fn words(line: &CommandLine) -> Vec<&str> {
    let mut all = vec![line.program.as_str()];
    for arg in &line.args {
        all.push(arg.as_str());
    }
    all
}

#[test]
fn the_engine_is_called_with_the_words_of_its_command_line() {
    let engine = CommandEngine::from_settings(None, None);
    assert_eq!(words(&engine.pull("r")), vec!["docker", "pull", "r"]);
    assert_eq!(words(&engine.tag("s", "t")), vec!["docker", "tag", "s", "t"]);
    assert_eq!(words(&engine.restart("c")), vec!["docker", "restart", "c"]);
    assert_eq!(
        words(&engine.running_image_id("c")),
        vec!["docker", "inspect", "c", "--format", "{{.Image}}"]
    );
    assert_eq!(
        words(&engine.resolve_image_id("r")),
        vec!["docker", "image", "inspect", "r", "--format", "{{.Id}}"]
    );
}

#[test]
fn the_owning_unit_is_restarted_in_place_of_the_container() {
    let engine = CommandEngine::from_settings(Some(" /opt/docker "), Some(" app.service\n"));
    assert_eq!(words(&engine.restart("c")), vec!["systemctl", "restart", "app.service"]);
    assert_eq!(words(&engine.pull("r")), vec!["/opt/docker", "pull", "r"]);
    // A blank unit is none.
    let engine = CommandEngine::from_settings(Some("  "), Some("  "));
    assert_eq!(words(&engine.restart("c")), vec!["docker", "restart", "c"]);
}

#[test]
fn every_engine_action_has_its_command() {
    let engine = CommandEngine::from_settings(None, None);
    let pull = SyncAction::Pull { reference: "r".to_string() };
    assert_eq!(engine.command(&pull), Some(engine.pull("r")));
    let tag = SyncAction::Tag { source: "s".to_string(), target: "t".to_string() };
    assert_eq!(engine.command(&tag), Some(engine.tag("s", "t")));
    let restart = SyncAction::Restart { container: "c".to_string() };
    assert_eq!(engine.command(&restart), Some(engine.restart("c")));
    let running = SyncAction::RunningImageId { container: "c".to_string() };
    assert_eq!(engine.command(&running), Some(engine.running_image_id("c")));
    let resolve = SyncAction::ResolveImageId { reference: "r".to_string() };
    assert_eq!(engine.command(&resolve), Some(engine.resolve_image_id("r")));
    let write = SyncAction::WritePointer { path: "p".to_string(), text: "t".to_string() };
    assert_eq!(engine.command(&write), None);
    assert_eq!(engine.command(&SyncAction::Nothing), None);
}

fn exited(success: bool, status: &str, stdout: &str) -> ChildEnd {
    ChildEnd::Exited {
        success,
        status: status.to_string(),
        stdout: stdout.as_bytes().to_vec(),
    }
}

#[test]
fn a_command_that_does_not_run_or_does_not_succeed_is_an_error() {
    let line = CommandEngine::from_settings(None, None).tag("s", "t");
    assert_eq!(run_engine(&line, exited(true, "exit status: 0", "")), Ok(()));
    assert_eq!(
        run_engine(&line, exited(false, "exit status: 3", "out")),
        Err("`docker tag s t` exited with exit status: 3".to_string())
    );
    assert_eq!(
        run_engine(&line, ChildEnd::NotSpawned("No such file".to_string())),
        Err("spawning `docker tag s t`: No such file".to_string())
    );
}

#[test]
fn an_unsuccessful_question_is_answered_with_nothing() {
    let line = CommandEngine::from_settings(None, None).running_image_id("c");
    assert_eq!(
        engine_output(&line, exited(true, "exit status: 0", " sha256:id\n")),
        Ok(Some("sha256:id".to_string()))
    );
    let odd = ChildEnd::Exited {
        success: true,
        status: "exit status: 0".to_string(),
        stdout: vec![b' ', 0xff, 0xc3, 0xa9, b'\n'],
    };
    assert_eq!(engine_output(&line, odd), Ok(Some("\u{fffd}\u{e9}".to_string())));
    assert_eq!(engine_output(&line, exited(true, "exit status: 0", " \n")), Ok(None));
    assert_eq!(engine_output(&line, exited(false, "exit status: 1", "x")), Ok(None));
    assert_eq!(
        engine_output(&line, ChildEnd::NotSpawned("gone".to_string())),
        Err("spawning `docker inspect c --format {{.Image}}`: gone".to_string())
    );
}

#[test]
fn an_effect_gives_no_answer_and_a_question_does() {
    let engine = CommandEngine::from_settings(None, None);
    let pull = SyncAction::Pull { reference: "r".to_string() };
    assert_eq!(
        engine_came(&pull, &engine.pull("r"), exited(true, "exit status: 0", "noise")),
        Ok(None)
    );
    assert!(engine_came(&pull, &engine.pull("r"), exited(false, "exit status: 1", "")).is_err());
    let ask = SyncAction::ResolveImageId { reference: "r".to_string() };
    assert!(asks_for_output(&ask));
    assert!(asks_for_output(&SyncAction::RunningImageId { container: "c".to_string() }));
    assert!(!asks_for_output(&pull));
    assert!(!asks_for_output(&SyncAction::Nothing));
    assert_eq!(
        engine_came(&ask, &engine.resolve_image_id("r"), exited(true, "exit status: 0", "id")),
        Ok(Some("id".to_string()))
    );
    assert_eq!(
        engine_came(&ask, &engine.resolve_image_id("r"), exited(false, "exit status: 1", "id")),
        Ok(None)
    );
}

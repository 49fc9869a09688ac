use sierra_engine::engine::{Engine, JobOutcome, JobState};
use sierra_engine::executor::{
    command_from_raw, file_ext, interpret_outcome, join_path, plan_compile, replace_extension,
    spawn_failure_response, Config, Plan, SpawnSpec,
};
use sierra_engine::types::{Command, Status};

fn config() -> Config {
    Config {
        compilers_dir: b"/opt/compilers".to_vec(),
        sierra_root: b"/out/sierra".to_vec(),
        files_root: b"/files".to_vec(),
    }
}

fn cmd(version: &[u8], path: &[u8]) -> Command {
    Command::SierraCompile { version: version.to_vec(), path: path.to_vec() }
}

#[test]
fn unreadable_path_is_rejected_as_file_not_found() {
    let r = command_from_raw(b"v1".to_vec(), None);
    let resp = r.err().expect("an absent path is rejected");
    assert_eq!(resp.status, Status::FileNotFound);
    assert_eq!(resp.message, b"File path not found".to_vec());
    assert_eq!(resp.file_content, Vec::<u8>::new());
    assert_eq!(resp.cairo_version, b"v1".to_vec());
}

#[test]
fn readable_path_becomes_a_command() {
    let r = command_from_raw(b"v1".to_vec(), Some(b"a.cairo".to_vec()));
    let Command::SierraCompile { version, path } = r.ok().expect("a readable path is accepted");
    assert_eq!(version, b"v1".to_vec());
    assert_eq!(path, b"a.cairo".to_vec());
}

#[test]
fn wrong_extension_is_rejected_without_a_spawn() {
    let plan = plan_compile(&cmd(b"v1", b"a.txt"), true, &config());
    match plan {
        Plan::Reject(resp) => {
            assert_eq!(resp.status, Status::FileExtensionNotSupported);
            assert_eq!(resp.message, b"File extension not supported".to_vec());
            assert_eq!(resp.file_content, Vec::<u8>::new());
            assert_eq!(resp.cairo_version, b"v1".to_vec());
        }
        Plan::Spawn(_) => panic!("a .txt submission must never reach a process spawn"),
    }
}

#[test]
fn missing_toolchain_is_rejected_without_a_spawn() {
    let plan = plan_compile(&cmd(b"v9", b"a.cairo"), false, &config());
    match plan {
        Plan::Reject(resp) => {
            assert_eq!(resp.status, Status::ToolchainNotFound);
            assert_eq!(resp.message, b"Cairo compiler with version v9 not found".to_vec());
            assert_eq!(resp.file_content, Vec::<u8>::new());
            assert_eq!(resp.cairo_version, b"v9".to_vec());
        }
        Plan::Spawn(_) => panic!("a missing toolchain must never reach a process spawn"),
    }
}

#[test]
fn accepted_command_maps_to_one_exact_invocation() {
    let plan = plan_compile(&cmd(b"v1", b"dir/a.cairo"), true, &config());
    match plan {
        Plan::Spawn(s) => {
            assert_eq!(s.work_dir, b"/opt/compilers/v1".to_vec());
            assert_eq!(s.input_abs, b"/files/dir/a.cairo".to_vec());
            assert_eq!(s.input_rel, b"dir/a.cairo".to_vec());
            assert_eq!(s.output_rel, b"dir/a.sierra".to_vec());
            assert_eq!(s.output_abs, b"/out/sierra/dir/a.sierra".to_vec());
            assert_eq!(s.version, b"v1".to_vec());
        }
        Plan::Reject(resp) => panic!("expected a spawn, got a rejection: {:?}", resp),
    }
}

fn spawn_spec_for(path: &[u8]) -> SpawnSpec {
    match plan_compile(&cmd(b"v1", path), true, &config()) {
        Plan::Spawn(s) => s,
        Plan::Reject(resp) => panic!("expected a spawn, got a rejection: {:?}", resp),
    }
}

#[test]
fn zero_exit_with_artifact_is_success() {
    let s = spawn_spec_for(b"a.cairo");
    let resp = interpret_outcome(&s, Some(0), Some(Vec::new()), Some(b"<bytecode>".to_vec()));
    assert_eq!(resp.status, Status::Success);
    assert_eq!(resp.file_content, b"<bytecode>".to_vec());
    assert_eq!(resp.message, Vec::<u8>::new());
    assert_eq!(resp.cairo_version, b"v1".to_vec());
}

#[test]
fn nonzero_exit_rewrites_server_paths_in_diagnostics() {
    let s = spawn_spec_for(b"a.cairo");
    let stderr = b"error in /files/a.cairo: cannot write /out/sierra/a.sierra".to_vec();
    let resp = interpret_outcome(&s, Some(1), Some(stderr), None);
    assert_eq!(resp.status, Status::CompilationFailed);
    assert_eq!(resp.message, b"error in a.cairo: cannot write a.sierra".to_vec());
    assert_eq!(resp.file_content, Vec::<u8>::new());
}

#[test]
fn missing_exit_code_is_the_unknown_error() {
    let s = spawn_spec_for(b"a.cairo");
    let resp = interpret_outcome(&s, None, Some(b"killed".to_vec()), None);
    assert_eq!(resp.status, Status::UnknownError);
    assert_eq!(resp.message, b"killed".to_vec());
}

#[test]
fn non_utf8_diagnostics_are_reported_explicitly() {
    let s = spawn_spec_for(b"a.cairo");
    let resp = interpret_outcome(&s, Some(1), None, None);
    assert_eq!(resp.status, Status::CompilationFailed);
    assert_eq!(resp.message, b"Compiler diagnostics were not valid UTF-8".to_vec());
}

#[test]
fn missing_artifact_is_an_empty_result_not_a_fault() {
    let s = spawn_spec_for(b"a.cairo");
    let resp = interpret_outcome(&s, Some(0), Some(Vec::new()), None);
    assert_eq!(resp.status, Status::Success);
    assert_eq!(resp.file_content, Vec::<u8>::new());
}

#[test]
fn spawn_failure_is_a_distinct_reported_status() {
    let resp = spawn_failure_response(&b"v1".to_vec(), &b"no such binary".to_vec());
    assert_eq!(resp.status, Status::SpawnFailed);
    assert_eq!(
        resp.message,
        b"Failed to execute starknet-compile: no such binary".to_vec()
    );
    assert_eq!(resp.file_content, Vec::<u8>::new());
    assert_eq!(resp.cairo_version, b"v1".to_vec());
}

#[test]
fn successful_compile_scenario_end_to_end() {
    // Submit `SierraCompile{version: "v1", path: "a.cairo"}` where the
    // toolchain exists, the process exits 0 and produces "<bytecode>".
    let mut engine = Engine::new(4);
    let raw = command_from_raw(b"v1".to_vec(), Some(b"a.cairo".to_vec()));
    let command = raw.ok().expect("the submission is well-formed");
    let id = engine.submit(command, 1);

    let worker = engine.take_next().expect("a worker is free");
    assert_eq!(worker, id);
    let plan = plan_compile(engine.command_of(worker), true, &config());
    let spec = match plan {
        Plan::Spawn(s) => s,
        Plan::Reject(resp) => panic!("expected a spawn, got a rejection: {:?}", resp),
    };
    let resp = interpret_outcome(&spec, Some(0), Some(Vec::new()), Some(b"<bytecode>".to_vec()));
    engine.finish(worker, JobOutcome::Completed(resp));

    match engine.query(id) {
        Some(JobState::Completed(r)) => {
            assert_eq!(r.status, Status::Success);
            assert_eq!(r.file_content, b"<bytecode>".to_vec());
            assert_eq!(r.cairo_version, b"v1".to_vec());
        }
        other => panic!("expected the completed job, got {:?}", other),
    }
}

#[test]
fn unsupported_extension_scenario_answers_at_once() {
    // Submit with path "a.txt": the plan rejects immediately, with zero
    // process spawns, and the stored outcome is the rejection itself.
    let mut engine = Engine::new(1);
    let id = engine.submit(cmd(b"v1", b"a.txt"), 1);
    let worker = engine.take_next().expect("a worker is free");
    let plan = plan_compile(engine.command_of(worker), true, &config());
    let resp = match plan {
        Plan::Reject(resp) => resp,
        Plan::Spawn(_) => panic!("a .txt submission must never reach a process spawn"),
    };
    assert_eq!(resp.status, Status::FileExtensionNotSupported);
    engine.finish(worker, JobOutcome::Completed(resp));
    match engine.query(id) {
        Some(JobState::Completed(r)) => {
            assert_eq!(r.status, Status::FileExtensionNotSupported);
            assert_eq!(r.file_content, Vec::<u8>::new());
        }
        other => panic!("expected the stored rejection, got {:?}", other),
    }
}

#[test]
fn file_extension_exact_values() {
    assert_eq!(file_ext(&b"a.cairo".to_vec()), b"cairo".to_vec());
    assert_eq!(file_ext(&b"a.txt".to_vec()), b"txt".to_vec());
    assert_eq!(file_ext(&b"dir.d/archive.tar.gz".to_vec()), b"gz".to_vec());
    assert_eq!(file_ext(&b"noext".to_vec()), b"noext".to_vec());
    assert_eq!(file_ext(&b"trailing.".to_vec()), Vec::<u8>::new());
    assert_eq!(file_ext(&b"".to_vec()), Vec::<u8>::new());
}

#[test]
fn replace_extension_exact_values() {
    assert_eq!(
        replace_extension(&b"a.cairo".to_vec(), &b"sierra".to_vec()),
        b"a.sierra".to_vec()
    );
    assert_eq!(
        replace_extension(&b"dir/b.cairo".to_vec(), &b"sierra".to_vec()),
        b"dir/b.sierra".to_vec()
    );
}

#[test]
fn join_path_exact_values() {
    assert_eq!(
        join_path(&b"/files".to_vec(), &b"a.cairo".to_vec()),
        b"/files/a.cairo".to_vec()
    );
    assert_eq!(join_path(&b"".to_vec(), &b"x".to_vec()), b"/x".to_vec());
}

//! Job directory layout, command construction and the execution plan.

use base64::Engine;
use tarascope::shader::{FrameArgs, KaleidoArgs};
use tarascope::{CommandType, KaleidoOutput, PlanStep, RenderJobDirectories, Tarascope};

const PARAMS: &str = "{\"id\":\"job-1\",\"frames\":{\"_frames_start\":1,\"_frames_max\":300}}";

fn job() -> KaleidoArgs {
    KaleidoArgs::new(
        String::from("job-1"),
        FrameArgs {
            frame_start: 1,
            frame_end: 300,
        },
        String::from(PARAMS),
    )
}

#[test]
fn directory_layout() {
    let dirs = RenderJobDirectories::new(String::from("job-1"), String::from("/renders"));
    assert_eq!(dirs.output_dir(), "/renders");
    assert_eq!(dirs.get_id(), "job-1");
    assert_eq!(dirs.project_folder_path(), "/renders/job-1");
    assert_eq!(dirs.parameters_path(), "/renders/job-1/parameters.json");
    assert_eq!(dirs.blender_stdout_path(), "/renders/job-1/stdout.log");
    assert_eq!(dirs.blender_stderr_path(), "/renders/job-1/stderr.log");
    assert_eq!(dirs.blender_native_log_path(), "/renders/job-1/engine.log");
    assert_eq!(dirs.blender_project_path(), "/renders/job-1/project.blend");
    assert_eq!(dirs.blender_frame_path(), "/renders/job-1/frame_#####");
}

#[test]
fn executor_derives_layout_from_its_root() {
    let executor = Tarascope::new(String::from("/out"));
    let dirs = executor.paths_for_job(&String::from("abc"));
    assert_eq!(dirs.project_folder_path(), "/out/abc");
    assert_eq!(dirs.get_id(), "abc");
    assert_eq!(dirs.output_dir(), "/out");
}

#[test]
fn command_accessors() {
    let c = CommandType::Animated(1, 300, job());
    assert_eq!(c.get_job_id(), "job-1");
    let j = c.project_args();
    assert_eq!(j.get_id(), "job-1");
    assert_eq!(j.parameters_text(), PARAMS);

    let s = CommandType::Still(42, job());
    assert_eq!(s.get_job_id(), "job-1");
}

#[test]
fn plan_orders_directory_before_parameters_and_spawn() {
    let executor = Tarascope::new(String::from("/out"));
    let c = CommandType::Animated(1, 300, job());
    let plan = executor.render_plan(&c, "blender", "/tmp/proj.blend", "/tmp/loader.py");
    assert_eq!(plan.steps.len(), 3);
    match &plan.steps[0] {
        PlanStep::CreateDir(path) => assert_eq!(path, "/out/job-1"),
        _ => panic!("first step must create the job directory"),
    }
    match &plan.steps[1] {
        PlanStep::WriteFile(path, contents) => {
            assert_eq!(path, "/out/job-1/parameters.json");
            assert_eq!(contents, PARAMS);
        }
        _ => panic!("second step must write the parameters file"),
    }
    assert!(matches!(&plan.steps[2], PlanStep::Spawn(_, _)));
}

#[test]
fn plan_spawns_the_documented_invocation() {
    let executor = Tarascope::new(String::from("/out"));
    let c = CommandType::Animated(1, 300, job());
    let plan = executor.render_plan(&c, "blender", "/tmp/proj.blend", "/tmp/loader.py");
    let (program, argv) = match &plan.steps[2] {
        PlanStep::Spawn(program, argv) => (program.clone(), argv.clone()),
        _ => panic!("third step must spawn the engine"),
    };
    assert_eq!(program, "blender");
    let payload = base64::prelude::BASE64_STANDARD.encode(PARAMS);
    let expected: Vec<String> = vec![
        "/tmp/proj.blend",
        "--factory-startup",
        "--log-file",
        "/out/job-1/engine.log",
        "-s",
        "1",
        "-e",
        "300",
        "-o",
        "/out/job-1/frame_#####",
        "-Y",
        "-P",
        "/tmp/loader.py",
        "-f",
        "0",
        "-b",
        "-a",
        "--",
        payload.as_str(),
    ]
    .into_iter()
    .map(String::from)
    .collect();
    assert_eq!(argv, expected);
}

#[test]
fn still_plan_uses_a_single_frame() {
    let executor = Tarascope::new(String::from("/out"));
    let c = CommandType::Still(42, job());
    let plan = executor.render_plan(&c, "blender", "p", "l");
    let argv = match &plan.steps[2] {
        PlanStep::Spawn(_, argv) => argv.clone(),
        _ => panic!("third step must spawn the engine"),
    };
    assert_eq!(argv[4], "-s");
    assert_eq!(argv[5], "42");
    assert_eq!(argv[6], "-e");
    assert_eq!(argv[7], "42");
}

#[test]
fn base64_payload_is_the_standard_encoding() {
    let j = KaleidoArgs::new(
        String::from("x"),
        FrameArgs {
            frame_start: 1,
            frame_end: 2,
        },
        String::from("hello"),
    );
    assert_eq!(j.base64(), "aGVsbG8=");
    let empty = KaleidoArgs::new(
        String::from("x"),
        FrameArgs {
            frame_start: 1,
            frame_end: 2,
        },
        String::new(),
    );
    assert_eq!(empty.base64(), "");
}

#[test]
fn kaleido_output_records_exit() {
    let out = KaleidoOutput::new(true, String::from("/out"));
    assert!(out.exit_success);
    assert_eq!(out.output_directory, "/out");
    let failed = KaleidoOutput::new(false, String::from("/out"));
    assert!(!failed.exit_success);
}

//! Helpers, notification dispatch, and the runner's select decisions.

use tarascope::exec::{RunnerAction, RunnerEvent, runner_step};
use tarascope::listener::dispatch_notification;
use tarascope::publisher::PostPermalink;
use tarascope::queue::RenderQueueRequest;
use tarascope::shader::TexturedArgs;
use tarascope::strutil::{join_path, str_eq, u64_to_string};

#[test]
fn decimal_rendering() {
    assert_eq!(u64_to_string(0), "0");
    assert_eq!(u64_to_string(7), "7");
    assert_eq!(u64_to_string(10), "10");
    assert_eq!(u64_to_string(305), "305");
    assert_eq!(u64_to_string(65535), "65535");
    assert_eq!(u64_to_string(u64::MAX), "18446744073709551615");
}

#[test]
fn path_joining() {
    assert_eq!(join_path("/a", "b"), "/a/b");
    assert_eq!(join_path("", "b"), "/b");
    assert_eq!(join_path("/a", ""), "/a/");
}

#[test]
fn string_equality() {
    assert!(str_eq("", ""));
    assert!(str_eq("abc", "abc"));
    assert!(!str_eq("abc", "abd"));
    assert!(!str_eq("abc", "abcd"));
    assert!(str_eq("żółw", "żółw"));
    assert!(!str_eq("żółw", "zolw"));
}

#[test]
fn dispatch_table() {
    match dispatch_notification("generate_random", "") {
        Some(RenderQueueRequest::RandomAnimated) => {}
        _ => panic!("generate_random must enqueue a random animation"),
    }
    match dispatch_notification("queue_parameters", "job-9") {
        Some(RenderQueueRequest::ParameterizedAnimated(id)) => assert_eq!(id, "job-9"),
        _ => panic!("queue_parameters must enqueue the named job"),
    }
    match dispatch_notification("queue_still", "job-9") {
        Some(RenderQueueRequest::ParameterizedStill(id)) => assert_eq!(id, "job-9"),
        _ => panic!("queue_still must enqueue the named still job"),
    }
    assert!(dispatch_notification("test", "x").is_none());
    assert!(dispatch_notification("", "").is_none());
    assert!(dispatch_notification("generate_random2", "").is_none());
}

#[test]
fn runner_forwards_verbatim_and_finishes_on_exit() {
    match runner_step(RunnerEvent::ProgressLine(String::from(" raw {not json} "))) {
        RunnerAction::Forward(s) => assert_eq!(s, " raw {not json} "),
        _ => panic!("a progress line must be forwarded"),
    }
    assert!(matches!(
        runner_step(RunnerEvent::ProgressEof),
        RunnerAction::KeepWaiting
    ));
    assert!(matches!(
        runner_step(RunnerEvent::ProgressReadError),
        RunnerAction::KeepWaiting
    ));
    assert!(matches!(
        runner_step(RunnerEvent::ChildExited(true)),
        RunnerAction::Finish(true)
    ));
    assert!(matches!(
        runner_step(RunnerEvent::ChildExited(false)),
        RunnerAction::Finish(false)
    ));
}

#[test]
fn textured_args_placeholder() {
    let t = TexturedArgs::random();
    assert_eq!(t.file_path, "path goes here");
}

#[test]
fn post_permalink_holds_its_parts() {
    let p = PostPermalink::new(String::from("17"), String::from("https://example.test/p/17"));
    assert_eq!(p.id, "17");
    assert_eq!(p.permalink, "https://example.test/p/17");
}

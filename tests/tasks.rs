use april::indicator::Indicator;
use april::lifecycle::{
    accepted_notice, artifact_file_name, fetch_artifact, plan_dev, task_request, Action,
    ArtifactOutcome, ClientError, DevPlan, DevSession, Event, Stage, TaskRequest, TaskStatus,
};

fn status(s: &str, patch: Option<&str>) -> TaskStatus {
    TaskStatus { status: s.to_string(), patch: patch.map(|p| p.to_string()) }
}

#[test]
fn done_status_with_patch_is_saved() {
    let out = fetch_artifact("abc123", status("DONE", Some("--- a\n+++ b\n")));
    match out {
        ArtifactOutcome::Ready { file_name, patch, message } => {
            assert_eq!(file_name, "abc123.diff");
            assert_eq!(patch, "--- a\n+++ b\n");
            assert!(message.contains("abc123"));
            assert!(message.contains("abc123.diff"));
            assert_eq!(message, "task abc123 done. saved patch into abc123.diff");
        }
        other => panic!("unexpected {:?}", other),
    }
}

#[test]
fn running_status_is_not_ready() {
    let out = fetch_artifact("abc123", status("RUNNING", None));
    assert!(matches!(out, ArtifactOutcome::NotReady { message } if message == "task abc123's status is RUNNING"));
}

#[test]
fn done_without_patch_is_not_ready() {
    assert!(matches!(fetch_artifact("t", status("DONE", None)), ArtifactOutcome::NotReady { .. }));
    assert!(matches!(fetch_artifact("t", status("FAILED", Some("x"))), ArtifactOutcome::NotReady { .. }));
}

#[test]
fn file_name_and_notice() {
    assert_eq!(artifact_file_name("xyz"), "xyz.diff");
    assert_eq!(
        accepted_notice("xyz"),
        "TASK xyz is accepted...\nDisplaying the log of AI thoughts...\n"
    );
}

#[test]
fn missing_token_is_empty() {
    let r = task_request("repo".to_string(), None, "desc".to_string());
    assert_eq!(r.token, "");
    let r = task_request("repo".to_string(), Some("tok".to_string()), "desc".to_string());
    assert_eq!(r.token, "tok");
    assert_eq!(r.repo, "repo");
    assert_eq!(r.description, "desc");
}

#[test]
fn plan_precedence() {
    let s = |x: &str| Some(x.to_string());
    assert!(matches!(plan_dev(s("d.yaml"), s("f"), s("p")), DevPlan::FetchArtifact(id) if id == "p"));
    assert!(matches!(plan_dev(s("d.yaml"), s("f"), None), DevPlan::Follow(id) if id == "f"));
    assert!(matches!(plan_dev(s("d.yaml"), None, None), DevPlan::SubmitAndFollow(f) if f == "d.yaml"));
    assert!(matches!(plan_dev(None, None, None), DevPlan::Usage));
}

#[test]
fn full_walkthrough() {
    let (mut s, a) = DevSession::start(DevPlan::SubmitAndFollow("d.yaml".to_string()));
    assert!(matches!(a, Action::LoadDescription(f) if f == "d.yaml"));
    let req = TaskRequest { repo: "r".to_string(), token: String::new(), description: "d".to_string() };
    assert!(matches!(s.on_event(Event::DescriptionLoaded(Ok(req))), Action::Submit(_)));
    let a = s.on_event(Event::Submitted(Ok("abc123".to_string())));
    assert!(matches!(a, Action::Follow { task_id, announce: true } if task_id == "abc123"));
    let a = s.on_event(Event::LogClosed(Ok(())));
    assert!(matches!(a, Action::Poll(id) if id == "abc123"));
    let a = s.on_event(Event::StatusFetched(Ok(status("DONE", Some("p")))));
    assert!(matches!(a, Action::Report(ArtifactOutcome::Ready { patch, .. }) if patch == "p"));
    assert!(matches!(s.stage, Stage::Closed));
}

#[test]
fn follow_only_ends_when_the_log_closes() {
    let (mut s, a) = DevSession::start(DevPlan::Follow("t1".to_string()));
    assert!(matches!(a, Action::Follow { task_id, announce: false } if task_id == "t1"));
    assert!(matches!(s.on_event(Event::LogClosed(Ok(()))), Action::Done));
}

#[test]
fn fetch_only_polls_once() {
    let (mut s, a) = DevSession::start(DevPlan::FetchArtifact("t2".to_string()));
    assert!(matches!(a, Action::Poll(id) if id == "t2"));
    let a = s.on_event(Event::StatusFetched(Ok(status("RUNNING", None))));
    assert!(matches!(a, Action::Report(ArtifactOutcome::NotReady { .. })));
}

#[test]
fn usage_when_nothing_is_given() {
    let (_, a) = DevSession::start(DevPlan::Usage);
    assert!(matches!(a, Action::ShowUsage));
}

#[test]
fn failures_end_the_session() {
    let (mut s, _) = DevSession::start(DevPlan::SubmitAndFollow("d".to_string()));
    assert!(matches!(
        s.on_event(Event::DescriptionLoaded(Err("no file".to_string()))),
        Action::Fail(ClientError::SourceRead(m)) if m == "no file"
    ));
    let mut s = DevSession { stage: Stage::Submitting };
    assert!(matches!(s.on_event(Event::Submitted(Err("401".to_string()))), Action::Fail(ClientError::Submission(_))));
    let (mut s, _) = DevSession::start(DevPlan::Follow("t".to_string()));
    assert!(matches!(s.on_event(Event::LogClosed(Err("reset".to_string()))), Action::Fail(ClientError::Stream(_))));
    let (mut s, _) = DevSession::start(DevPlan::FetchArtifact("t".to_string()));
    assert!(matches!(s.on_event(Event::StatusFetched(Err("bad json".to_string()))), Action::Fail(ClientError::Status(_))));
}

#[test]
fn out_of_order_event_fails() {
    let (mut s, _) = DevSession::start(DevPlan::Follow("t".to_string()));
    assert!(matches!(s.on_event(Event::Submitted(Ok("x".to_string()))), Action::Fail(ClientError::OutOfOrder)));
    assert!(matches!(s.on_event(Event::LogClosed(Ok(()))), Action::Fail(ClientError::OutOfOrder)));
}

#[test]
fn indicator_frames_are_whole() {
    let mut ind = Indicator::new("Generating".to_string());
    assert_eq!(ind.frame(), "\r\x1b[2K| Generating");
    assert_eq!(ind.frame(), "\r\x1b[2K/ Generating");
    assert_eq!(ind.pause(), "\r\x1b[2K");
    assert_eq!(ind.frame(), "");
    assert_eq!(ind.pause(), "");
    assert_eq!(ind.resume(String::new()), "");
    assert_eq!(ind.frame(), "\r\x1b[2K- Generating");
    assert_eq!(ind.pause(), "\r\x1b[2K");
    assert_eq!(ind.resume("Done soon".to_string()), "");
    assert_eq!(ind.frame(), "\r\x1b[2K\\ Done soon");
    assert_eq!(ind.frame(), "\r\x1b[2K| Done soon");
}

#[test]
fn indicator_stop_is_idempotent() {
    let mut ind = Indicator::new("x".to_string());
    assert!(!ind.is_stopped());
    ind.frame();
    assert_eq!(ind.stop(), "\r\x1b[2K");
    assert!(ind.is_stopped());
    assert_eq!(ind.stop(), "");
    assert_eq!(ind.resume("y".to_string()), "");
    assert_eq!(ind.frame(), "");
}

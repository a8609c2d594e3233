use april::models::{DevModel, LintModel};
use april::reconcile::{
    reconcile, reconcile_response, risk_block, Finding, ResponseError, Risk, RiskReport,
};
use april::source::{code_request, lint_source, project_label, CodeRequest, SourceError};

fn risk(w: &str, r: &str, f: &str) -> Risk {
    Risk { which_part_of_code: w.to_string(), reason: r.to_string(), fix: f.to_string() }
}

#[test]
fn structured_backend_keeps_the_list_and_ignores_the_text() {
    let report = RiskReport {
        risks: vec![risk("a()", "panics", "check"), risk("b()", "leaks", "close")],
        plain_risks: "ignored".to_string(),
        backend: "openai".to_string(),
    };
    let out = reconcile(report);
    assert_eq!(out.len(), 2);
    match &out[0] {
        Finding::Structured(k) => {
            assert_eq!(k.which_part_of_code, "a()");
            assert_eq!(k.reason, "panics");
            assert_eq!(k.fix, "check");
        }
        other => panic!("unexpected {:?}", other),
    }
    match &out[1] {
        Finding::Structured(k) => assert_eq!(k.which_part_of_code, "b()"),
        other => panic!("unexpected {:?}", other),
    }
}

#[test]
fn structured_backend_with_empty_list() {
    let report = RiskReport { risks: vec![], plain_risks: "text".to_string(), backend: "openai".to_string() };
    assert!(reconcile(report).is_empty());
}

#[test]
fn other_backend_gives_one_plain_record() {
    let report = RiskReport {
        risks: vec![risk("a()", "panics", "check")],
        plain_risks: "free text".to_string(),
        backend: "custom".to_string(),
    };
    let out = reconcile(report);
    assert_eq!(out.len(), 1);
    assert!(matches!(&out[0], Finding::Plain(t) if t == "free text"));
}

#[test]
fn unparsed_payload_is_malformed_with_the_raw_text() {
    let r = reconcile_response(None, "not json".to_string());
    assert!(matches!(r, Err(ResponseError::Malformed(raw)) if raw == "not json"));
    let report = RiskReport { risks: vec![], plain_risks: "p".to_string(), backend: "x".to_string() };
    let r = reconcile_response(Some(report), "raw".to_string()).unwrap();
    assert!(matches!(&r[0], Finding::Plain(t) if t == "p"));
}

#[test]
fn risk_block_layout() {
    assert_eq!(risk_block("f()", "why", "how"), "Code  :f()\nReason:why\nFix   :how\n");
}

#[test]
fn diff_mode_without_file_diffs_the_working_tree() {
    assert!(matches!(code_request(true, None), Ok(CodeRequest::WorkingTreeDiff)));
}

#[test]
fn diff_mode_with_file_scopes_to_it() {
    assert!(matches!(code_request(true, Some("a.rs".to_string())), Ok(CodeRequest::FileDiff(f)) if f == "a.rs"));
}

#[test]
fn single_file_mode_reads_the_file() {
    assert!(matches!(code_request(false, Some("a.rs".to_string())), Ok(CodeRequest::FileContent(f)) if f == "a.rs"));
}

#[test]
fn single_file_mode_needs_a_file() {
    assert!(matches!(code_request(false, None), Err(SourceError::MissingFileArgument)));
}

#[test]
fn diff_mode_needs_a_project() {
    assert!(matches!(project_label(true, None), Err(SourceError::NotAVersionControlledProject)));
    assert_eq!(project_label(true, Some("proj".to_string())).unwrap(), "proj");
}

#[test]
fn single_file_outside_a_project_has_an_empty_name() {
    let project = project_label(false, None).unwrap();
    assert_eq!(project, "");
    let src = lint_source(project, Ok("fn main() {}".to_string())).unwrap();
    assert_eq!(src.project_name, "");
    assert_eq!(src.code, "fn main() {}");
}

#[test]
fn unreadable_source_is_a_read_error() {
    let r = lint_source("p".to_string(), Err("permission denied".to_string()));
    assert!(matches!(r, Err(SourceError::SourceRead(m)) if m == "permission denied"));
}

#[test]
fn model_names() {
    assert_eq!(DevModel::Gpt4o.to_str(), "openai:gpt4o");
    assert_eq!(DevModel::Gpt4.to_str(), "openai:gpt4");
    assert_eq!(LintModel::Gpt3.to_str(), "openai:gpt3");
}

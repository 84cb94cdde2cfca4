use ci_server::intake::should_build;
use ci_server::report::{log_path, log_url, prepare_report, status_endpoint, STATUS_CONTEXT};
use ci_server::structs::{
    CIResult, CommitStatus, Config, PushRequest, Repository, StatusRequestBody, Task,
};
use ci_server::update::{update_plan, TARGET_DIR};

fn push_request(reference: &str) -> PushRequest {
    PushRequest {
        before: "1111111111111111111111111111111111111111".to_string(),
        after: "2222222222222222222222222222222222222222".to_string(),
        reference: reference.to_string(),
        repository: Repository {
            clone_url: "https://example.invalid/o/r.git".to_string(),
            full_name: "o/r".to_string(),
        },
    }
}

#[test]
fn zero_sha_never_builds() {
    assert!(!should_build("0000000000000000000000000000000000000000"));
    assert!(!should_build("0"));
    assert!(should_build("2222222222222222222222222222222222222222"));
    assert!(should_build("000000000000000000000000000000000000000a"));
    assert!(should_build("a000000000000000000000000000000000000000"));
    // An empty identifier is not the all-zero marker.
    assert!(should_build(""));
}

#[test]
fn branch_is_last_reference_segment() {
    assert_eq!(push_request("refs/heads/main").branch(), "main");
    assert_eq!(push_request("refs/heads/feature/x").branch(), "x");
    assert_eq!(push_request("main").branch(), "main");
    assert_eq!(push_request("refs/heads/").branch(), "");
    assert_eq!(push_request("").branch(), "");
}

#[test]
fn state_strings_are_the_wire_states() {
    assert_eq!(CommitStatus::Error.state_str(), "error");
    assert_eq!(CommitStatus::Failure.state_str(), "failure");
    assert_eq!(CommitStatus::Pending.state_str(), "pending");
    assert_eq!(CommitStatus::Success.state_str(), "success");
}

#[test]
fn only_pending_is_non_terminal() {
    assert!(CommitStatus::Error.is_terminal());
    assert!(CommitStatus::Failure.is_terminal());
    assert!(!CommitStatus::Pending.is_terminal());
    assert!(CommitStatus::Success.is_terminal());
}

#[test]
fn update_plan_reuses_existing_copy() {
    let plan = update_plan(true, "https://example.invalid/o/r.git", "feature", "main");
    assert_eq!(plan.len(), 4);
    for c in &plan {
        assert_eq!(c.program, "git");
    }
    assert_eq!(plan[0].args, vec!["checkout", "main"]);
    assert_eq!(plan[1].args, vec!["pull"]);
    assert_eq!(plan[2].args, vec!["checkout", "feature"]);
    assert_eq!(plan[3].args, vec!["pull"]);
}

#[test]
fn update_plan_clones_fresh_copy_first() {
    let plan = update_plan(false, "https://example.invalid/o/r.git", "feature", "main");
    assert_eq!(plan.len(), 5);
    assert_eq!(
        plan[0].args,
        vec!["clone", "https://example.invalid/o/r.git", TARGET_DIR]
    );
    assert_eq!(plan[1].args, vec!["checkout", "main"]);
    assert_eq!(plan[4].args, vec!["pull"]);
}

#[test]
fn status_request_body_carries_the_result() {
    let res = CIResult::new(CommitStatus::Success, "All tasks finished successfully.".to_string());
    let body = StatusRequestBody::new(res, "Custom CI server", "http://localhost:8080/logs/abc");
    assert!(matches!(body.state, CommitStatus::Success));
    assert_eq!(body.description, "All tasks finished successfully.");
    assert_eq!(body.context, "Custom CI server");
    assert_eq!(body.target_url, "http://localhost:8080/logs/abc");
}

#[test]
fn report_addresses() {
    assert_eq!(
        status_endpoint("o/r", "abc123"),
        "https://api.github.com/repos/o/r/statuses/abc123"
    );
    assert_eq!(
        log_url("http://localhost:8080", "abc123"),
        "http://localhost:8080/logs/abc123"
    );
    assert_eq!(log_path("abc123"), "logs/abc123.txt");
}

#[test]
fn prepare_report_fills_context_and_link() {
    let res = CIResult::new(CommitStatus::Pending, "Running tasks...".to_string());
    let (endpoint, body) = prepare_report("o/r", "abc123", "http://localhost:8080", res);
    assert_eq!(endpoint, "https://api.github.com/repos/o/r/statuses/abc123");
    assert!(matches!(body.state, CommitStatus::Pending));
    assert_eq!(body.description, "Running tasks...");
    assert_eq!(body.context, STATUS_CONTEXT);
    assert_eq!(body.target_url, "http://localhost:8080/logs/abc123");
}

#[test]
fn config_holds_the_task_list() {
    let config = Config {
        token: "test-token".to_string(),
        main_branch: "main".to_string(),
        base_url: "http://localhost:8080".to_string(),
        tasks: vec![Task {
            name: "build".to_string(),
            command: "make".to_string(),
            args: vec!["all".to_string()],
        }],
    };
    assert_eq!(config.tasks.len(), 1);
    assert_eq!(config.tasks[0].name, "build");
    assert_eq!(config.tasks[0].command, "make");
    assert_eq!(config.tasks[0].args, vec!["all"]);
}

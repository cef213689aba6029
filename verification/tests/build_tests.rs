use infra_shared::builds::{
    final_status, git_publish_steps, is_terraform_file, missing_terraform_result, new_draft_build,
    push_not_started, push_outcome, running_status, terraform_args, terraform_init_args, Build,
    BuildLookupError, BuildStore,
};
use infra_shared::models::{
    BuildConfig, BuildStatus, BuildType, EbsConfig, Environment, TerraformAction, UtcTimestamp,
};

const ID_TEXT: &str = "67e55044-10b1-426f-9247-bb680e5fe0c8";
const ID: u128 = 0x67e5504410b1426f9247bb680e5fe0c8;

fn draft(id: u128, name: &str) -> Build {
    let t = UtcTimestamp { secs: 10, nanos: 5 };
    new_draft_build(
        id,
        name.to_string(),
        BuildType::Ebs,
        Environment::Dev,
        "us-east-1".to_string(),
        false,
        BuildConfig::Ebs(EbsConfig::default()),
        t,
        t,
    )
}

#[test]
fn new_builds_are_estimated_drafts() {
    let b = draft(ID, "vol");
    assert_eq!(b.status, BuildStatus::Draft);
    assert_eq!(b.account_id, 0);
    assert_eq!(b.cost_estimate.as_ref().unwrap().monthly_total, 80000);
    assert_eq!(b.name, "vol");
}

#[test]
fn store_add_and_find() {
    let mut s = BuildStore::new();
    assert_eq!(s.find(ID), None);
    s.add(draft(1, "a"));
    s.add(draft(ID, "b"));
    s.add(draft(ID, "c"));
    assert_eq!(s.find(ID), Some(1));
    assert_eq!(s.get(ID).unwrap().name, "b");
    assert_eq!(s.list().len(), 3);
    assert!(s.get(2).is_none());
}

#[test]
fn store_status_read_after_write() {
    let mut s = BuildStore::new();
    s.add(draft(1, "a"));
    s.add(draft(2, "b"));
    assert!(s.set_status(2, BuildStatus::Planning));
    assert_eq!(s.get(2).unwrap().status, BuildStatus::Planning);
    assert_eq!(s.get(1).unwrap().status, BuildStatus::Draft);
    assert!(!s.set_status(3, BuildStatus::Failed));
    assert_eq!(s.list().len(), 2);
}

#[test]
fn lookup_by_text() {
    let mut s = BuildStore::new();
    s.add(draft(ID, "mine"));
    assert_eq!(s.lookup(ID_TEXT).unwrap().name, "mine");
    assert_eq!(s.lookup("not-a-uuid").unwrap_err(), BuildLookupError::InvalidId);
    assert_eq!(
        s.lookup("00000000-0000-0000-0000-000000000001").unwrap_err(),
        BuildLookupError::NotFound
    );
    assert_eq!(BuildLookupError::InvalidId.message(), "Invalid ID");
    assert_eq!(BuildLookupError::NotFound.message(), "Not found");
}

#[test]
fn lookup_of_parsed_ids() {
    let mut s = BuildStore::new();
    s.add(draft(5, "x"));
    assert_eq!(s.lookup_parsed(None).unwrap_err(), BuildLookupError::InvalidId);
    assert_eq!(s.lookup_parsed(Some(6)).unwrap_err(), BuildLookupError::NotFound);
    assert_eq!(s.lookup_parsed(Some(5)).unwrap().name, "x");
}

#[test]
fn run_statuses() {
    assert_eq!(running_status(TerraformAction::Plan), BuildStatus::Planning);
    assert_eq!(running_status(TerraformAction::Apply), BuildStatus::Building);
    assert_eq!(running_status(TerraformAction::Destroy), BuildStatus::Destroying);
    assert_eq!(final_status(TerraformAction::Plan, true), BuildStatus::Planned);
    assert_eq!(final_status(TerraformAction::Apply, true), BuildStatus::Built);
    assert_eq!(final_status(TerraformAction::Destroy, true), BuildStatus::Destroyed);
    for a in [TerraformAction::Plan, TerraformAction::Apply, TerraformAction::Destroy] {
        assert_eq!(final_status(a, false), BuildStatus::Failed);
        assert_ne!(final_status(a, true), running_status(a));
    }
}

#[test]
fn terraform_arguments() {
    assert_eq!(terraform_init_args(), vec!["init", "-no-color"]);
    assert_eq!(terraform_args(TerraformAction::Plan), vec!["plan", "-no-color"]);
    assert_eq!(terraform_args(TerraformAction::Apply), vec!["apply", "-no-color", "-auto-approve"]);
    assert_eq!(terraform_args(TerraformAction::Destroy), vec!["destroy", "-no-color", "-auto-approve"]);
}

#[test]
fn missing_terraform() {
    let r = missing_terraform_result("No such file");
    assert!(!r.success);
    assert_eq!(r.stdout, "");
    assert_eq!(r.stderr, "terraform not found: No such file");
    assert!(r.plan_summary.is_none());
}

#[test]
fn terraform_file_filter() {
    assert!(is_terraform_file("main.tf"));
    assert!(is_terraform_file("terraform.tfvars"));
    assert!(is_terraform_file(".tf"));
    assert!(!is_terraform_file("README.md"));
    assert!(!is_terraform_file("tf"));
    assert!(!is_terraform_file("main.tf.bak"));
    assert!(!is_terraform_file("plan.tfstate"));
}

#[test]
fn git_publishing() {
    let steps = git_publish_steps("git@host:repo.git", "main");
    let expected: Vec<Vec<&str>> = vec![
        vec!["init"],
        vec!["add", "."],
        vec!["commit", "-m", "infra-job-killer: generated infrastructure"],
        vec!["remote", "add", "origin", "git@host:repo.git"],
        vec!["push", "-u", "origin", "main"],
    ];
    assert_eq!(steps, expected);
    assert_eq!(push_outcome(true, "ignored".to_string()), Ok("Pushed successfully".to_string()));
    assert_eq!(push_outcome(false, "denied".to_string()), Err("denied".to_string()));
    assert_eq!(push_not_started("no git"), Err("git push failed: no git".to_string()));
}

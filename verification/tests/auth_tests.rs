use infra_shared::auth::{AwsAccount, AwsAuthMethod};
use infra_shared::models::UtcTimestamp;

fn account(auth_method: AwsAuthMethod) -> AwsAccount {
    let t = UtcTimestamp { secs: 1_700_000_000, nanos: 0 };
    AwsAccount {
        id: 1,
        name: "prod".to_string(),
        account_id: "123456789012".to_string(),
        default_region: "us-east-2".to_string(),
        auth_method,
        is_active: true,
        created_at: t,
        last_used: t,
    }
}

fn keys(ak: &str) -> AwsAuthMethod {
    AwsAuthMethod::IamKeys { access_key_id: ak.to_string(), secret_access_key: "SECRET-REDACTED".to_string() }
}

fn pairs(v: &[(&str, &str)]) -> Vec<(String, String)> {
    v.iter().map(|(a, b)| (a.to_string(), b.to_string())).collect()
}

#[test]
fn env_vars_for_keys() {
    let a = account(keys("AKIAEXAMPLE12345"));
    assert_eq!(
        a.to_env_vars(),
        pairs(&[
            ("AWS_REGION", "us-east-2"),
            ("AWS_DEFAULT_REGION", "us-east-2"),
            ("AWS_ACCESS_KEY_ID", "AKIAEXAMPLE12345"),
            ("AWS_SECRET_ACCESS_KEY", "SECRET-REDACTED"),
        ])
    );
}

#[test]
fn env_vars_for_assumed_role() {
    let a = account(AwsAuthMethod::AssumeRole {
        role_arn: "arn:aws:iam::1:role/x".to_string(),
        external_id: Some("ext".to_string()),
        source_access_key_id: Some("AK".to_string()),
        source_secret_access_key: Some("SK".to_string()),
    });
    assert_eq!(
        a.to_env_vars(),
        pairs(&[
            ("AWS_REGION", "us-east-2"),
            ("AWS_DEFAULT_REGION", "us-east-2"),
            ("AWS_ACCESS_KEY_ID", "AK"),
            ("AWS_SECRET_ACCESS_KEY", "SK"),
            ("TF_VAR_assume_role_arn", "arn:aws:iam::1:role/x"),
            ("TF_VAR_assume_role_external_id", "ext"),
        ])
    );
}

#[test]
fn env_vars_need_both_source_keys() {
    let a = account(AwsAuthMethod::AssumeRole {
        role_arn: "r".to_string(),
        external_id: None,
        source_access_key_id: Some("AK".to_string()),
        source_secret_access_key: None,
    });
    assert_eq!(
        a.to_env_vars(),
        pairs(&[
            ("AWS_REGION", "us-east-2"),
            ("AWS_DEFAULT_REGION", "us-east-2"),
            ("TF_VAR_assume_role_arn", "r"),
        ])
    );
}

#[test]
fn provider_override_for_role() {
    let a = account(AwsAuthMethod::AssumeRole {
        role_arn: "arn:r".to_string(),
        external_id: Some("e1".to_string()),
        source_access_key_id: None,
        source_secret_access_key: None,
    });
    assert_eq!(
        a.provider_override().unwrap(),
        "provider \"aws\" {\n  region = \"us-east-2\"\n\n  assume_role {\n    role_arn = \"arn:r\"\n    external_id = \"e1\"\n  }\n}\n"
    );
    let b = account(AwsAuthMethod::AssumeRole {
        role_arn: "arn:r".to_string(),
        external_id: None,
        source_access_key_id: None,
        source_secret_access_key: None,
    });
    assert_eq!(
        b.provider_override().unwrap(),
        "provider \"aws\" {\n  region = \"us-east-2\"\n\n  assume_role {\n    role_arn = \"arn:r\"\n  }\n}\n"
    );
}

#[test]
fn no_provider_override_for_keys() {
    assert_eq!(account(keys("AKIA")).provider_override(), None);
}

#[test]
fn masked_credentials_cases() {
    assert_eq!(account(keys("AKIAEXAMPLE12345")).masked_credentials(), "AKIA...2345");
    assert_eq!(account(keys("AKIA1234")).masked_credentials(), "****");
    assert_eq!(account(keys("")).masked_credentials(), "****");
    assert_eq!(account(keys("ééééé")).masked_credentials(), "éé...éé");
    let r = account(AwsAuthMethod::AssumeRole {
        role_arn: "arn:aws:iam::1:role/x".to_string(),
        external_id: None,
        source_access_key_id: None,
        source_secret_access_key: None,
    });
    assert_eq!(r.masked_credentials(), "arn:aws:iam::1:role/x");
}

#[test]
fn auth_method_names() {
    assert_eq!(keys("a").to_string(), "IAM Access Keys");
    let r = AwsAuthMethod::AssumeRole {
        role_arn: String::new(),
        external_id: None,
        source_access_key_id: None,
        source_secret_access_key: None,
    };
    assert_eq!(r.to_string(), "Assume Role");
}

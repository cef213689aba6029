//! AWS accounts and the credentials that builds run with.
use crate::models::UtcTimestamp;
use vstd::prelude::*;
use vstd::string::StringSliceAdditionalSpecFns;
use vstd::utf8::{decode_utf8, encode_utf8, is_char_boundary};

verus! {

broadcast use vstd::utf8::encode_utf8_decode_utf8;

/// How the application authenticates against an AWS account.
#[derive(Debug, Clone)]
pub enum AwsAuthMethod {
    IamKeys { access_key_id: String, secret_access_key: String },
    AssumeRole {
        role_arn: String,
        external_id: Option<String>,
        source_access_key_id: Option<String>,
        source_secret_access_key: Option<String>,
    },
}

impl AwsAuthMethod {
    pub open spec fn text(&self) -> Seq<char> {
        match self {
            AwsAuthMethod::IamKeys { .. } => "IAM Access Keys"@,
            AwsAuthMethod::AssumeRole { .. } => "Assume Role"@,
        }
    }

    /// The display name of the method: "IAM Access Keys" or "Assume Role".
    pub fn to_string(&self) -> (s: String)
        ensures
            s@ == self.text(),
    {
        match self {
            AwsAuthMethod::IamKeys { .. } => String::from_str("IAM Access Keys"),
            AwsAuthMethod::AssumeRole { .. } => String::from_str("Assume Role"),
        }
    }
}

/// A connected AWS account.
#[derive(Debug, Clone)]
pub struct AwsAccount {
    pub id: u128,
    pub name: String,
    pub account_id: String,
    pub default_region: String,
    pub auth_method: AwsAuthMethod,
    pub is_active: bool,
    pub created_at: UtcTimestamp,
    pub last_used: UtcTimestamp,
}

/// A request to connect an AWS account.
#[derive(Debug, Clone)]
pub struct AddAccountRequest {
    pub name: String,
    pub account_id: String,
    pub default_region: String,
    pub auth_method: AwsAuthMethod,
}

/// The outcome of checking an account's credentials.
#[derive(Debug, Clone)]
pub struct AuthValidation {
    pub valid: bool,
    pub account_id: String,
    pub arn: String,
    pub user_id: String,
    pub error: Option<String>,
}

/// The texts of a sequence of name/value pairs.
pub open spec fn pair_texts(v: Seq<(String, String)>) -> Seq<(Seq<char>, Seq<char>)> {
    v.map_values(|p: (String, String)| (p.0@, p.1@))
}

/// The credential variables of an authentication method.
pub open spec fn credential_vars(m: AwsAuthMethod) -> Seq<(Seq<char>, Seq<char>)> {
    match m {
        AwsAuthMethod::IamKeys { access_key_id, secret_access_key } => seq![
            ("AWS_ACCESS_KEY_ID"@, access_key_id@),
            ("AWS_SECRET_ACCESS_KEY"@, secret_access_key@),
        ],
        AwsAuthMethod::AssumeRole {
            role_arn,
            external_id,
            source_access_key_id,
            source_secret_access_key,
        } => (match (source_access_key_id, source_secret_access_key) {
            (Some(ak), Some(sk)) => seq![
                ("AWS_ACCESS_KEY_ID"@, ak@),
                ("AWS_SECRET_ACCESS_KEY"@, sk@),
            ],
            _ => Seq::empty(),
        }) + seq![("TF_VAR_assume_role_arn"@, role_arn@)] + (match external_id {
            Some(e) => seq![("TF_VAR_assume_role_external_id"@, e@)],
            None => Seq::empty(),
        }),
    }
}

/// The environment of a terraform run for an account: the region twice, then
/// the credential variables.
pub open spec fn env_vars(a: AwsAccount) -> Seq<(Seq<char>, Seq<char>)> {
    seq![("AWS_REGION"@, a.default_region@), ("AWS_DEFAULT_REGION"@, a.default_region@)]
        + credential_vars(a.auth_method)
}

/// The block that the assumed role's external id adds to a provider.
pub open spec fn external_id_block(external_id: Option<String>) -> Seq<char> {
    match external_id {
        Some(e) => "    external_id = \""@ + e@ + "\"\n"@,
        None => Seq::empty(),
    }
}

/// The terraform provider block that assumes a role in a region.
pub open spec fn provider_text(region: Seq<char>, role_arn: Seq<char>, ext: Seq<char>) -> Seq<char> {
    "provider \"aws\" {\n  region = \""@ + region + "\"\n\n  assume_role {\n    role_arn = \""@
        + role_arn + "\"\n"@ + ext + "  }\n}\n"@
}

/// The characters whose UTF-8 encoding is the given bytes.
pub open spec fn text_of_bytes(b: Seq<u8>) -> Seq<char> {
    decode_utf8(b)
}

/// Whether masking the credentials of an account can cut its access key id:
/// ids longer than eight bytes are cut after their fourth byte and before
/// their last four.
pub open spec fn maskable(a: AwsAccount) -> bool {
    match a.auth_method {
        AwsAuthMethod::IamKeys { access_key_id, .. } => {
            let b = encode_utf8(access_key_id@);
            b.len() > 8 ==> is_char_boundary(b, 4) && is_char_boundary(b, b.len() - 4)
        },
        _ => true,
    }
}

/// What the application shows of an account's credentials.
pub open spec fn masked_text(a: AwsAccount) -> Seq<char> {
    match a.auth_method {
        AwsAuthMethod::IamKeys { access_key_id, .. } => {
            let b = encode_utf8(access_key_id@);
            if b.len() > 8 {
                text_of_bytes(b.subrange(0, 4)) + "..."@ + text_of_bytes(
                    b.subrange(b.len() - 4, b.len() as int),
                )
            } else {
                "****"@
            }
        },
        AwsAuthMethod::AssumeRole { role_arn, .. } => role_arn@,
    }
}

fn push_pair(v: &mut Vec<(String, String)>, name: &str, value: &String)
    ensures
        pair_texts(final(v)@) == pair_texts(old(v)@).push((name@, value@)),
{
    v.push((String::from_str(name), value.clone()));
    proof {
        assert(pair_texts(v@) =~= pair_texts(old(v)@).push((name@, value@)));
    }
}

impl AwsAccount {
    /// The environment variables a terraform run for this account needs.
    pub fn to_env_vars(&self) -> (vars: Vec<(String, String)>)
        ensures
            pair_texts(vars@) == env_vars(*self),
    {
        let mut vars: Vec<(String, String)> = Vec::new();
        push_pair(&mut vars, "AWS_REGION", &self.default_region);
        push_pair(&mut vars, "AWS_DEFAULT_REGION", &self.default_region);
        match &self.auth_method {
            AwsAuthMethod::IamKeys { access_key_id, secret_access_key } => {
                push_pair(&mut vars, "AWS_ACCESS_KEY_ID", access_key_id);
                push_pair(&mut vars, "AWS_SECRET_ACCESS_KEY", secret_access_key);
            },
            AwsAuthMethod::AssumeRole {
                role_arn,
                external_id,
                source_access_key_id,
                source_secret_access_key,
            } => {
                let ghost start = pair_texts(vars@);
                match (source_access_key_id, source_secret_access_key) {
                    (Some(ak), Some(sk)) => {
                        push_pair(&mut vars, "AWS_ACCESS_KEY_ID", ak);
                        push_pair(&mut vars, "AWS_SECRET_ACCESS_KEY", sk);
                    },
                    _ => {},
                }
                let ghost with_source = pair_texts(vars@);
                push_pair(&mut vars, "TF_VAR_assume_role_arn", role_arn);
                let ghost with_role = pair_texts(vars@);
                match external_id {
                    Some(eid) => {
                        push_pair(&mut vars, "TF_VAR_assume_role_external_id", eid);
                    },
                    None => {},
                }
                proof {
                    assert(with_role =~= with_source + seq![("TF_VAR_assume_role_arn"@, role_arn@)]);
                    assert(pair_texts(vars@) =~= start + credential_vars(self.auth_method));
                }
            },
        }
        proof {
            assert(pair_texts(vars@) =~= env_vars(*self));
        }
        vars
    }

    /// For an account reached through an assumed role, the terraform provider
    /// block that assumes it; none for IAM keys.
    pub fn provider_override(&self) -> (r: Option<String>)
        ensures
            match self.auth_method {
                AwsAuthMethod::AssumeRole { role_arn, external_id, .. } => r is Some && r->0@
                    == provider_text(self.default_region@, role_arn@, external_id_block(external_id)),
                AwsAuthMethod::IamKeys { .. } => r is None,
            },
    {
        match &self.auth_method {
            AwsAuthMethod::AssumeRole { role_arn, external_id, .. } => {
                let mut ext = String::new();
                match external_id {
                    Some(e) => {
                        ext.append("    external_id = \"");
                        ext.append(e.as_str());
                        ext.append("\"\n");
                    },
                    None => {},
                }
                let mut s = String::from_str("provider \"aws\" {\n  region = \"");
                s.append(self.default_region.as_str());
                s.append("\"\n\n  assume_role {\n    role_arn = \"");
                s.append(role_arn.as_str());
                s.append("\"\n");
                s.append(ext.as_str());
                s.append("  }\n}\n");
                proof {
                    assert(ext@ =~= external_id_block(*external_id));
                    assert(s@ =~= provider_text(
                        self.default_region@,
                        role_arn@,
                        external_id_block(*external_id),
                    ));
                }
                Some(s)
            },
            _ => None,
        }
    }

    /// The credentials as shown to the user: an access key id longer than
    /// eight bytes as its first and last four bytes around "...", a shorter
    /// one as "****", and the role ARN of an assumed role.
    pub fn masked_credentials(&self) -> (s: String)
        requires
            maskable(*self),
        ensures
            s@ == masked_text(*self),
    {
        match &self.auth_method {
            AwsAuthMethod::IamKeys { access_key_id, .. } => {
                let key = access_key_id.as_str();
                let n: usize = key.as_bytes().len();
                proof {
                    assert(key.spec_bytes() == encode_utf8(access_key_id@));
                }
                if n > 8 {
                    let (head, _) = key.split_at(4);
                    let (_, tail) = key.split_at(n - 4);
                    proof {
                        assert(head@ == decode_utf8(encode_utf8(head@)));
                        assert(tail@ == decode_utf8(encode_utf8(tail@)));
                    }
                    let mut s = String::from_str(head);
                    s.append("...");
                    s.append(tail);
                    s
                } else {
                    String::from_str("****")
                }
            },
            AwsAuthMethod::AssumeRole { role_arn, .. } => role_arn.clone(),
        }
    }
}


/// Law: a terraform run for an account gets the account's region as
/// AWS_REGION and AWS_DEFAULT_REGION first; IAM keys then give exactly the
/// access key id and secret; an assumed role gives the source keys only when
/// both are set, then always the role ARN, then the external id when set.
pub proof fn law_env_vars(a: AwsAccount)
    ensures
        ({
            let v = env_vars(a);
            let r = a.default_region@;
            &&& v.len() >= 3
            &&& v[0] == ("AWS_REGION"@, r)
            &&& v[1] == ("AWS_DEFAULT_REGION"@, r)
            &&& match a.auth_method {
                AwsAuthMethod::IamKeys { access_key_id, secret_access_key } => {
                    &&& v.len() == 4
                    &&& v[2] == ("AWS_ACCESS_KEY_ID"@, access_key_id@)
                    &&& v[3] == ("AWS_SECRET_ACCESS_KEY"@, secret_access_key@)
                },
                AwsAuthMethod::AssumeRole {
                    role_arn,
                    external_id,
                    source_access_key_id,
                    source_secret_access_key,
                } => {
                    let both = source_access_key_id is Some && source_secret_access_key is Some;
                    let k: int = if both { 4 } else { 2 };
                    &&& v.len() == k + 1 + (if external_id is Some { 1int } else { 0 })
                    &&& both ==> v[2] == ("AWS_ACCESS_KEY_ID"@, source_access_key_id->0@)
                    &&& both ==> v[3] == ("AWS_SECRET_ACCESS_KEY"@, source_secret_access_key->0@)
                    &&& v[k] == ("TF_VAR_assume_role_arn"@, role_arn@)
                    &&& external_id is Some ==> v[k + 1] == (
                        "TF_VAR_assume_role_external_id"@,
                        external_id->0@,
                    )
                },
            }
        }),
{
}

/// Law: the provider block of an assumed role sets the account's region and
/// assumes the role ARN, with the external id inside the assume_role block
/// when there is one.
pub proof fn law_provider_text(a: AwsAccount)
    ensures
        match a.auth_method {
            AwsAuthMethod::AssumeRole { role_arn, external_id, .. } => {
                let t = provider_text(a.default_region@, role_arn@, external_id_block(external_id));
                let head = "provider \"aws\" {\n  region = \""@ + a.default_region@
                    + "\"\n\n  assume_role {\n    role_arn = \""@ + role_arn@;
                &&& external_id is None ==> t == head + "\"\n  }\n}\n"@
                &&& external_id is Some ==> t == head + "\"\n    external_id = \""@
                    + external_id->0@ + "\"\n  }\n}\n"@
            },
            AwsAuthMethod::IamKeys { .. } => true,
        },
{
    match a.auth_method {
        AwsAuthMethod::AssumeRole { role_arn, external_id, .. } => {
            reveal_strlit("\"\n");
            reveal_strlit("  }\n}\n");
            reveal_strlit("\"\n  }\n}\n");
            reveal_strlit("    external_id = \"");
            reveal_strlit("\"\n    external_id = \"");
            let head = "provider \"aws\" {\n  region = \""@ + a.default_region@
                + "\"\n\n  assume_role {\n    role_arn = \""@ + role_arn@;
            let t = provider_text(a.default_region@, role_arn@, external_id_block(external_id));
            match external_id {
                None => {
                    assert(t =~= head + "\"\n  }\n}\n"@);
                },
                Some(e) => {
                    assert(t =~= head + "\"\n    external_id = \""@ + e@ + "\"\n  }\n}\n"@);
                },
            }
        },
        AwsAuthMethod::IamKeys { .. } => {},
    }
}

/// Law: masking shows "****" for an access key id of at most eight bytes,
/// the role ARN for an assumed role, and otherwise the key's first four bytes,
/// "..." and its last four bytes.
pub proof fn law_masked_text(a: AwsAccount)
    ensures
        match a.auth_method {
            AwsAuthMethod::IamKeys { access_key_id, .. } => {
                let b = encode_utf8(access_key_id@);
                &&& b.len() <= 8 ==> masked_text(a) == "****"@
                &&& b.len() > 8 ==> masked_text(a) == decode_utf8(b.take(4)) + "..."@
                    + decode_utf8(b.skip(b.len() - 4))
            },
            AwsAuthMethod::AssumeRole { role_arn, .. } => masked_text(a) == role_arn@,
        },
{
    match a.auth_method {
        AwsAuthMethod::IamKeys { access_key_id, .. } => {
            let b = encode_utf8(access_key_id@);
            assert(b.subrange(0, 4) =~= b.take(4));
            assert(b.subrange(b.len() - 4, b.len() as int) =~= b.skip(b.len() - 4));
        },
        _ => {},
    }
}

} // verus!

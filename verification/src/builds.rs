//! Builds and the registry that keeps them, with the decisions of a
//! terraform run and of publishing a build to git.
use crate::cost::{
    ebs_line_items,
    ec2_line_items,
    eks_line_items,
    estimate_ebs_cost,
    estimate_ec2_cost,
    estimate_eks_cost,
    estimate_of,
    estimate_vpc_cost,
    estimate_without_addons,
    lemma_addon_cost_within_total,
    vpc_line_items,
};
use crate::models::{
    BuildConfig,
    BuildStatus,
    BuildType,
    CostEstimate,
    Environment,
    EstimateView,
    PlanSummary,
    TerraformAction,
    TerraformResult,
    UtcTimestamp,
};
use crate::text::same_text;
use vstd::prelude::*;

verus! {

/// A build: a configured piece of infrastructure and where it stands.
#[derive(Debug, Clone)]
pub struct Build {
    pub id: u128,
    pub account_id: u128,
    pub name: String,
    pub build_type: BuildType,
    pub environment: Environment,
    pub region: String,
    pub production_ready: bool,
    pub config: BuildConfig,
    pub status: BuildStatus,
    pub cost_estimate: Option<CostEstimate>,
    pub created_at: UtcTimestamp,
    pub updated_at: UtcTimestamp,
}

/// The estimate of a configuration, whatever its kind.
pub open spec fn build_estimate(config: BuildConfig) -> EstimateView {
    match config {
        BuildConfig::Vpc(c) => estimate_of(vpc_line_items(c)),
        BuildConfig::Ec2(c) => estimate_of(ec2_line_items(c)),
        BuildConfig::Ebs(c) => estimate_without_addons(ebs_line_items(c)),
        BuildConfig::Eks(c) => estimate_of(eks_line_items(c)),
    }
}

/// Estimates the monthly cost of a configuration of any kind.
pub fn estimate_build_cost(config: &BuildConfig, region: &str) -> (e: CostEstimate)
    ensures
        e@ == build_estimate(*config),
{
    match config {
        BuildConfig::Vpc(c) => estimate_vpc_cost(c, region),
        BuildConfig::Ec2(c) => estimate_ec2_cost(c, region),
        BuildConfig::Ebs(c) => estimate_ebs_cost(c, region),
        BuildConfig::Eks(c) => estimate_eks_cost(c, region),
    }
}

/// Law: whatever the configuration, its production add-ons cost at most its
/// whole estimate, and the estimate is in US dollars.
pub proof fn lemma_estimate_addons_within_total(config: BuildConfig)
    ensures
        build_estimate(config).production_addon_cost <= build_estimate(config).monthly_total,
        build_estimate(config).currency == "USD"@,
{
    match config {
        BuildConfig::Vpc(c) => lemma_addon_cost_within_total(vpc_line_items(c)),
        BuildConfig::Ec2(c) => lemma_addon_cost_within_total(ec2_line_items(c)),
        BuildConfig::Ebs(c) => {},
        BuildConfig::Eks(c) => lemma_addon_cost_within_total(eks_line_items(c)),
    }
}

/// A new build: a draft with its cost estimated, under no account yet (the nil
/// account id), created and updated at the given instants.
pub fn new_draft_build(
    id: u128,
    name: String,
    build_type: BuildType,
    environment: Environment,
    region: String,
    production_ready: bool,
    config: BuildConfig,
    created_at: UtcTimestamp,
    updated_at: UtcTimestamp,
) -> (b: Build)
    ensures
        b.id == id,
        b.account_id == 0,
        b.name == name,
        b.build_type == build_type,
        b.environment == environment,
        b.region == region,
        b.production_ready == production_ready,
        b.config == config,
        b.status == BuildStatus::Draft,
        b.cost_estimate is Some,
        b.cost_estimate->0@ == build_estimate(config),
        b.created_at == created_at,
        b.updated_at == updated_at,
{
    let estimate = estimate_build_cost(&config, region.as_str());
    Build {
        id,
        account_id: 0,
        name,
        build_type,
        environment,
        region,
        production_ready,
        config,
        status: BuildStatus::Draft,
        cost_estimate: Some(estimate),
        created_at,
        updated_at,
    }
}

// ---------------------------------------------------------------- registry

/// Why a build could not be looked up.
#[derive(Debug, Clone, Copy, PartialEq, Eq, Structural)]
pub enum BuildLookupError {
    InvalidId,
    NotFound,
}

impl BuildLookupError {
    pub open spec fn text(self) -> Seq<char> {
        match self {
            BuildLookupError::InvalidId => "Invalid ID"@,
            BuildLookupError::NotFound => "Not found"@,
        }
    }

    /// The message the server answers with: "Invalid ID" or "Not found".
    pub fn message(&self) -> (s: String)
        ensures
            s@ == self.text(),
    {
        match self {
            BuildLookupError::InvalidId => String::from_str("Invalid ID"),
            BuildLookupError::NotFound => String::from_str("Not found"),
        }
    }
}

/// The UUID that a text denotes, as a 128-bit number, when it is one.
pub uninterp spec fn parsed_uuid(text: Seq<char>) -> Option<u128>;

/// Reads a UUID with `uuid::Uuid::parse_str` and takes its 128-bit value with
/// `Uuid::as_u128`. What texts parse, and to which value, is not stated: the
/// contract only says that the result is the one `parsed_uuid` names for the text.
#[verifier::external_body]
fn parse_uuid(text: &str) -> (r: Option<u128>)
    ensures
        r == parsed_uuid(text@),
{
    match uuid::Uuid::parse_str(text) {
        Ok(u) => Some(u.as_u128()),
        Err(_) => None,
    }
}

/// `i` is the first position of a build with the given id.
pub open spec fn first_with_id(s: Seq<Build>, id: u128, i: int) -> bool {
    &&& 0 <= i < s.len()
    &&& s[i].id == id
    &&& forall|j: int| 0 <= j < i ==> s[j].id != id
}

/// Some build has the given id.
pub open spec fn has_id(s: Seq<Build>, id: u128) -> bool {
    exists|i: int| 0 <= i < s.len() && s[i].id == id
}

/// The builds with the build at `i` moved to the given status.
pub open spec fn with_status(s: Seq<Build>, i: int, status: BuildStatus) -> Seq<Build> {
    s.update(i, Build { status, ..s[i] })
}

/// The builds that the server knows of, in the order they were created.
pub struct BuildStore {
    builds: Vec<Build>,
}

impl View for BuildStore {
    type V = Seq<Build>;

    closed spec fn view(&self) -> Seq<Build> {
        self.builds@
    }
}

impl BuildStore {
    /// A store with no builds.
    pub fn new() -> (s: BuildStore)
        ensures
            s@ == Seq::<Build>::empty(),
    {
        BuildStore { builds: Vec::new() }
    }

    /// Adds a build after all others.
    pub fn add(&mut self, build: Build)
        ensures
            final(self)@ == old(self)@.push(build),
    {
        self.builds.push(build);
    }

    /// All builds, in the order they were added.
    pub fn list(&self) -> (v: &Vec<Build>)
        ensures
            v@ == self@,
    {
        &self.builds
    }

    /// The position of the first build with the given id.
    pub fn find(&self, id: u128) -> (r: Option<usize>)
        ensures
            match r {
                Some(i) => first_with_id(self@, id, i as int),
                None => !has_id(self@, id),
            },
    {
        let mut i: usize = 0;
        while i < self.builds.len()
            invariant
                i <= self.builds@.len(),
                forall|j: int| 0 <= j < i ==> self.builds@[j].id != id,
            decreases self.builds@.len() - i,
        {
            if self.builds[i].id == id {
                return Some(i);
            }
            i = i + 1;
        }
        None
    }

    /// The first build with the given id.
    pub fn get(&self, id: u128) -> (r: Option<&Build>)
        ensures
            match r {
                Some(b) => exists|i: int| first_with_id(self@, id, i) && *b == self@[i],
                None => !has_id(self@, id),
            },
    {
        match self.find(id) {
            Some(i) => Some(&self.builds[i]),
            None => None,
        }
    }

    /// Looks a build up by the id that a UUID text has parsed to: an
    /// unparsable text is an invalid id, an unknown id is not found.
    pub fn lookup_parsed(&self, parsed: Option<u128>) -> (r: Result<&Build, BuildLookupError>)
        ensures
            match parsed {
                None => r == Err::<&Build, BuildLookupError>(BuildLookupError::InvalidId),
                Some(id) => match r {
                    Ok(b) => exists|i: int| first_with_id(self@, id, i) && *b == self@[i],
                    Err(e) => e == BuildLookupError::NotFound && !has_id(self@, id),
                },
            },
    {
        match parsed {
            None => Err(BuildLookupError::InvalidId),
            Some(id) => match self.get(id) {
                Some(b) => Ok(b),
                None => Err(BuildLookupError::NotFound),
            },
        }
    }

    /// Looks a build up by the text of its UUID.
    pub fn lookup(&self, id_text: &str) -> (r: Result<&Build, BuildLookupError>)
        ensures
            match parsed_uuid(id_text@) {
                None => r == Err::<&Build, BuildLookupError>(BuildLookupError::InvalidId),
                Some(id) => match r {
                    Ok(b) => exists|i: int| first_with_id(self@, id, i) && *b == self@[i],
                    Err(e) => e == BuildLookupError::NotFound && !has_id(self@, id),
                },
            },
    {
        let parsed = parse_uuid(id_text);
        self.lookup_parsed(parsed)
    }

    /// Moves the first build with the given id to a status; tells whether
    /// there was such a build. Nothing else changes.
    pub fn set_status(&mut self, id: u128, status: BuildStatus) -> (found: bool)
        ensures
            found == has_id(old(self)@, id),
            found ==> exists|i: int|
                first_with_id(old(self)@, id, i) && final(self)@ == with_status(old(self)@, i, status),
            !found ==> final(self)@ == old(self)@,
    {
        match self.find(id) {
            Some(i) => {
                let ghost before = self.builds@;
                self.builds[i].status = status;
                proof {
                    assert(self.builds@ =~= with_status(before, i as int, status));
                }
                true
            },
            None => false,
        }
    }
}

/// Law: after a build is moved to a status, looking its id up again finds it
/// at the same position with that status, and every other build is unchanged.
pub proof fn lemma_status_read_after_write(s: Seq<Build>, id: u128, i: int, status: BuildStatus)
    requires
        first_with_id(s, id, i),
    ensures
        first_with_id(with_status(s, i, status), id, i),
        with_status(s, i, status)[i].status == status,
        with_status(s, i, status).len() == s.len(),
        forall|j: int| 0 <= j < s.len() && j != i ==> #[trigger] with_status(s, i, status)[j] == s[j],
{
}

/// Law: a build added under an id that no build has yet is the one that
/// looking the id up finds.
pub proof fn lemma_add_then_find(s: Seq<Build>, b: Build)
    requires
        !has_id(s, b.id),
    ensures
        first_with_id(s.push(b), b.id, s.len() as int),
        s.push(b)[s.len() as int] == b,
{
    assert forall|j: int| 0 <= j < s.len() implies s.push(b)[j].id != b.id by {
        assert(s.push(b)[j] == s[j]);
    }
}

// ---------------------------------------------------------------- terraform runs

/// The status a build shows while a terraform command runs on it.
pub open spec fn running_status_of(action: TerraformAction) -> BuildStatus {
    match action {
        TerraformAction::Plan => BuildStatus::Planning,
        TerraformAction::Apply => BuildStatus::Building,
        TerraformAction::Destroy => BuildStatus::Destroying,
    }
}

/// The status a build ends in after a terraform command: the action's
/// completed status on success, failed otherwise.
pub open spec fn final_status_of(action: TerraformAction, success: bool) -> BuildStatus {
    if !success {
        BuildStatus::Failed
    } else {
        match action {
            TerraformAction::Plan => BuildStatus::Planned,
            TerraformAction::Apply => BuildStatus::Built,
            TerraformAction::Destroy => BuildStatus::Destroyed,
        }
    }
}

/// The status a build shows while a terraform command runs on it.
pub fn running_status(action: TerraformAction) -> (s: BuildStatus)
    ensures
        s == running_status_of(action),
{
    match action {
        TerraformAction::Plan => BuildStatus::Planning,
        TerraformAction::Apply => BuildStatus::Building,
        TerraformAction::Destroy => BuildStatus::Destroying,
    }
}

/// The status a build ends in after a terraform command.
pub fn final_status(action: TerraformAction, success: bool) -> (s: BuildStatus)
    ensures
        s == final_status_of(action, success),
{
    match (action, success) {
        (TerraformAction::Plan, true) => BuildStatus::Planned,
        (TerraformAction::Apply, true) => BuildStatus::Built,
        (TerraformAction::Destroy, true) => BuildStatus::Destroyed,
        (_, false) => BuildStatus::Failed,
    }
}

/// Law: a run never leaves a build in a transient status, and it fails
/// exactly when its command failed.
pub proof fn lemma_runs_settle(action: TerraformAction, success: bool)
    ensures
        final_status_of(action, success) != running_status_of(action),
        final_status_of(action, success) != BuildStatus::Draft,
        (final_status_of(action, success) == BuildStatus::Failed) == !success,
{
}

/// Law: a run shows the ongoing form of its action (planning, building,
/// destroying) and, when its command succeeds, ends in the completed form of
/// the same action (planned, built, destroyed).
pub proof fn law_run_statuses(action: TerraformAction)
    ensures
        action == TerraformAction::Plan ==> running_status_of(action) == BuildStatus::Planning
            && final_status_of(action, true) == BuildStatus::Planned,
        action == TerraformAction::Apply ==> running_status_of(action) == BuildStatus::Building
            && final_status_of(action, true) == BuildStatus::Built,
        action == TerraformAction::Destroy ==> running_status_of(action)
            == BuildStatus::Destroying && final_status_of(action, true) == BuildStatus::Destroyed,
        final_status_of(action, false) == BuildStatus::Failed,
{
}

/// The texts of a sequence of string slices.
pub open spec fn str_texts(v: Seq<&str>) -> Seq<Seq<char>> {
    v.map_values(|s: &str| s@)
}

/// The arguments of the terraform command that performs an action.
pub open spec fn terraform_args_of(action: TerraformAction) -> Seq<Seq<char>> {
    match action {
        TerraformAction::Plan => seq!["plan"@, "-no-color"@],
        TerraformAction::Apply => seq!["apply"@, "-no-color"@, "-auto-approve"@],
        TerraformAction::Destroy => seq!["destroy"@, "-no-color"@, "-auto-approve"@],
    }
}

/// The arguments of the terraform command that performs an action; apply and
/// destroy run without asking for confirmation.
pub fn terraform_args(action: TerraformAction) -> (v: Vec<&'static str>)
    ensures
        str_texts(v@) == terraform_args_of(action),
{
    let mut v: Vec<&'static str> = Vec::new();
    match action {
        TerraformAction::Plan => {
            v.push("plan");
        },
        TerraformAction::Apply => {
            v.push("apply");
        },
        TerraformAction::Destroy => {
            v.push("destroy");
        },
    }
    v.push("-no-color");
    match action {
        TerraformAction::Plan => {},
        _ => {
            v.push("-auto-approve");
        },
    }
    proof {
        assert(str_texts(v@) =~= terraform_args_of(action));
    }
    v
}

/// Law: the terraform command names its action first ("plan", "apply" or
/// "destroy"), always turns colour off, and skips the confirmation prompt
/// exactly for the actions that change infrastructure (apply and destroy).
pub proof fn law_terraform_args(action: TerraformAction)
    ensures
        ({
            let a = terraform_args_of(action);
            &&& a[0] == (match action {
                TerraformAction::Plan => "plan"@,
                TerraformAction::Apply => "apply"@,
                TerraformAction::Destroy => "destroy"@,
            })
            &&& a[1] == "-no-color"@
            &&& a.contains("-auto-approve"@) == (action != TerraformAction::Plan)
            &&& a.len() == (if action == TerraformAction::Plan { 2int } else { 3 })
        }),
{
    reveal_strlit("plan");
    reveal_strlit("-no-color");
    reveal_strlit("-auto-approve");
    let a = terraform_args_of(action);
    if action != TerraformAction::Plan {
        assert(a[2] == "-auto-approve"@);
    } else {
        assert("plan"@.len() != "-auto-approve"@.len());
        assert("-no-color"@[3] != "-auto-approve"@[3]);
        assert(a[0] != "-auto-approve"@);
        assert(a[1] != "-auto-approve"@);
        assert(!a.contains("-auto-approve"@));
    }
}

/// The arguments of `terraform init`.
pub fn terraform_init_args() -> (v: Vec<&'static str>)
    ensures
        str_texts(v@) == seq!["init"@, "-no-color"@],
{
    let mut v: Vec<&'static str> = Vec::new();
    v.push("init");
    v.push("-no-color");
    proof {
        assert(str_texts(v@) =~= seq!["init"@, "-no-color"@]);
    }
    v
}

/// The report of a terraform command that ran, with its outputs.
pub fn command_result(success: bool, stdout: String, stderr: String) -> (r: TerraformResult)
    ensures
        r.success == success,
        r.stdout == stdout,
        r.stderr == stderr,
        r.plan_summary is None,
{
    TerraformResult { success, stdout, stderr, plan_summary: None }
}

/// The report of a run whose terraform could not be started: nothing on
/// standard output, and the reason after "terraform not found: ".
pub fn missing_terraform_result(reason: &str) -> (r: TerraformResult)
    ensures
        !r.success,
        r.stdout@ == Seq::<char>::empty(),
        r.stderr@ == "terraform not found: "@ + reason@,
        r.plan_summary is None,
{
    let mut stderr = String::from_str("terraform not found: ");
    stderr.append(reason);
    TerraformResult { success: false, stdout: String::new(), stderr, plan_summary: None }
}

/// Whether a text ends with the given suffix.
pub open spec fn ends_with(s: Seq<char>, suffix: Seq<char>) -> bool {
    suffix.len() <= s.len() && s.skip(s.len() - suffix.len()) == suffix
}

fn has_suffix(s: &str, suffix: &str) -> (r: bool)
    ensures
        r == ends_with(s@, suffix@),
{
    let n: usize = s.unicode_len();
    let m: usize = suffix.unicode_len();
    if m > n {
        return false;
    }
    let mut k: usize = 0;
    while k < m
        invariant
            n == s@.len(),
            m == suffix@.len(),
            m <= n,
            k <= m,
            forall|j: int| 0 <= j < k ==> s@[n - m + j] == suffix@[j],
        decreases m - k,
    {
        if s.get_char(n - m + k) != suffix.get_char(k) {
            proof {
                assert(s@.skip(n - m)[k as int] != suffix@[k as int]);
            }
            return false;
        }
        k = k + 1;
    }
    proof {
        assert(s@.skip(n - m) =~= suffix@);
    }
    true
}

/// Whether a file is one of the generated terraform files shown to the user:
/// its name ends in ".tf" or ".tfvars".
pub fn is_terraform_file(name: &str) -> (r: bool)
    ensures
        r == (ends_with(name@, ".tf"@) || ends_with(name@, ".tfvars"@)),
{
    has_suffix(name, ".tf") || has_suffix(name, ".tfvars")
}

/// Law: a file is shown exactly when its name ends with the three characters
/// ".tf" or the seven characters ".tfvars".
pub proof fn law_terraform_file_names(name: Seq<char>)
    ensures
        (ends_with(name, ".tf"@) || ends_with(name, ".tfvars"@)) <==> ((name.len() >= 3
            && name[name.len() - 3] == '.' && name[name.len() - 2] == 't' && name[name.len() - 1]
            == 'f') || (name.len() >= 7 && name[name.len() - 7] == '.' && name[name.len() - 6]
            == 't' && name[name.len() - 5] == 'f' && name[name.len() - 4] == 'v'
            && name[name.len() - 3] == 'a' && name[name.len() - 2] == 'r' && name[name.len() - 1]
            == 's')),
{
    reveal_strlit(".tf");
    reveal_strlit(".tfvars");
    let n = name.len() as int;
    if n >= 3 {
        let t = name.skip(n - 3);
        if name[n - 3] == '.' && name[n - 2] == 't' && name[n - 1] == 'f' {
            assert(t =~= ".tf"@);
        }
        if t == ".tf"@ {
            assert(t[0] == '.' && t[1] == 't' && t[2] == 'f');
        }
    }
    if n >= 7 {
        let t = name.skip(n - 7);
        if name[n - 7] == '.' && name[n - 6] == 't' && name[n - 5] == 'f' && name[n - 4] == 'v'
            && name[n - 3] == 'a' && name[n - 2] == 'r' && name[n - 1] == 's' {
            assert(t =~= ".tfvars"@);
        }
        if t == ".tfvars"@ {
            assert(t[0] == '.' && t[1] == 't' && t[2] == 'f' && t[3] == 'v' && t[4] == 'a'
                && t[5] == 'r' && t[6] == 's');
        }
    }
}

/// Law: publishing runs five git commands in order: init, stage everything,
/// commit, add the repository as the remote "origin", and finally push the
/// branch to it with upstream tracking.
pub proof fn law_git_publish_order(repo_url: Seq<char>, branch: Seq<char>)
    ensures
        ({
            let s = git_publish_steps_of(repo_url, branch);
            &&& s.len() == 5
            &&& s[0] == seq!["init"@]
            &&& s[1] == seq!["add"@, "."@]
            &&& s[2][0] == "commit"@ && s[2][1] == "-m"@ && s[2].len() == 3
            &&& s[3] == seq!["remote"@, "add"@, "origin"@, repo_url]
            &&& s[4] == seq!["push"@, "-u"@, "origin"@, branch]
        }),
{
}

// ---------------------------------------------------------------- git

/// The git commands that publish a build's directory, each as its
/// arguments: init, stage everything, commit, add the remote, push the branch.
pub open spec fn git_publish_steps_of(repo_url: Seq<char>, branch: Seq<char>) -> Seq<
    Seq<Seq<char>>,
> {
    seq![
        seq!["init"@],
        seq!["add"@, "."@],
        seq!["commit"@, "-m"@, "infra-job-killer: generated infrastructure"@],
        seq!["remote"@, "add"@, "origin"@, repo_url],
        seq!["push"@, "-u"@, "origin"@, branch],
    ]
}

/// The texts of a sequence of argument lists.
pub open spec fn command_texts(v: Seq<Vec<String>>) -> Seq<Seq<Seq<char>>> {
    v.map_values(|c: Vec<String>| c@.map_values(|s: String| s@))
}

fn command(parts: &[&str]) -> (v: Vec<String>)
    ensures
        v@.map_values(|s: String| s@) == parts@.map_values(|s: &str| s@),
{
    let mut v: Vec<String> = Vec::new();
    let mut i: usize = 0;
    while i < parts.len()
        invariant
            i <= parts@.len(),
            v@.len() == i,
            forall|j: int| 0 <= j < i ==> #[trigger] v@[j]@ == parts@[j]@,
        decreases parts@.len() - i,
    {
        let part: &str = parts[i];
        v.push(String::from_str(part));
        i = i + 1;
    }
    proof {
        assert(v@.map_values(|s: String| s@) =~= parts@.map_values(|s: &str| s@));
    }
    v
}

/// The git commands that publish a build's directory to a repository branch.
pub fn git_publish_steps(repo_url: &str, branch: &str) -> (v: Vec<Vec<String>>)
    ensures
        command_texts(v@) == git_publish_steps_of(repo_url@, branch@),
{
    let ghost steps = git_publish_steps_of(repo_url@, branch@);
    let mut v: Vec<Vec<String>> = Vec::new();
    let a = ["init"];
    proof {
        assert(a@.map_values(|s: &str| s@) =~= steps[0]);
    }
    v.push(command(&a));
    let b = ["add", "."];
    proof {
        assert(b@.map_values(|s: &str| s@) =~= steps[1]);
    }
    v.push(command(&b));
    let c = ["commit", "-m", "infra-job-killer: generated infrastructure"];
    proof {
        assert(c@.map_values(|s: &str| s@) =~= steps[2]);
    }
    v.push(command(&c));
    let d = ["remote", "add", "origin", repo_url];
    proof {
        assert(d@.map_values(|s: &str| s@) =~= steps[3]);
    }
    v.push(command(&d));
    let e = ["push", "-u", "origin", branch];
    proof {
        assert(e@.map_values(|s: &str| s@) =~= steps[4]);
    }
    v.push(command(&e));
    proof {
        assert(command_texts(v@) =~= steps);
    }
    v
}

/// The answer to a publish request once `git push` has run: success when it
/// succeeded, its error output when it failed.
pub fn push_outcome(success: bool, stderr: String) -> (r: Result<String, String>)
    ensures
        success ==> (r matches Ok(m) && m@ == "Pushed successfully"@),
        !success ==> r == Err::<String, String>(stderr),
{
    if success {
        Ok(String::from_str("Pushed successfully"))
    } else {
        Err(stderr)
    }
}

/// The answer to a publish request whose `git push` could not be started.
pub fn push_not_started(reason: &str) -> (r: Result<String, String>)
    ensures
        r matches Err(m) && m@ == "git push failed: "@ + reason@,
{
    let mut m = String::from_str("git push failed: ");
    m.append(reason);
    Err(m)
}

} // verus!

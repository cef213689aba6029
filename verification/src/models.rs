//! The data model of builds: kinds, environments, statuses, configurations,
//! cost estimates and terraform results.
use std::collections::HashMap;
use vstd::prelude::*;

verus! {

/// An instant in UTC: whole seconds since the Unix epoch and the nanoseconds
/// within that second.
#[derive(Debug, Clone, Copy, PartialEq, Eq, Structural)]
pub struct UtcTimestamp {
    pub secs: i64,
    pub nanos: u32,
}

/// The lower-case form of an ASCII letter; any other character unchanged.
pub open spec fn lower_case(c: char) -> char {
    if 'A' <= c && c <= 'Z' {
        ((c as u32) + 32) as char
    } else {
        c
    }
}

/// The kind of infrastructure a build creates.
#[derive(Debug, Clone, Copy, PartialEq, Eq, Hash, Structural)]
pub enum BuildType {
    Vpc,
    Ec2,
    Ebs,
    Eks,
}

impl BuildType {
    /// The display name of the kind.
    pub open spec fn text(self) -> Seq<char> {
        match self {
            BuildType::Vpc => "VPC"@,
            BuildType::Ec2 => "EC2"@,
            BuildType::Ebs => "EBS"@,
            BuildType::Eks => "EKS"@,
        }
    }

    /// The lower-case name under which the kind's deployments are kept.
    pub open spec fn dir_text(self) -> Seq<char> {
        match self {
            BuildType::Vpc => "vpc"@,
            BuildType::Ec2 => "ec2"@,
            BuildType::Ebs => "ebs"@,
            BuildType::Eks => "eks"@,
        }
    }

    /// Law: the directory of a kind is its three-character display name in
    /// lower case.
    pub proof fn law_dir_name_is_lower_case(self)
        ensures
            self.text().len() == 3,
            self.dir_text().len() == 3,
            forall|i: int|
                0 <= i < 3 ==> #[trigger] self.dir_text()[i] == lower_case(self.text()[i]),
    {
        reveal_strlit("VPC");
        reveal_strlit("EC2");
        reveal_strlit("EBS");
        reveal_strlit("EKS");
        reveal_strlit("vpc");
        reveal_strlit("ec2");
        reveal_strlit("ebs");
        reveal_strlit("eks");
    }

    /// The display name: "VPC", "EC2", "EBS" or "EKS".
    pub fn to_string(&self) -> (s: String)
        ensures
            s@ == self.text(),
    {
        match self {
            BuildType::Vpc => String::from_str("VPC"),
            BuildType::Ec2 => String::from_str("EC2"),
            BuildType::Ebs => String::from_str("EBS"),
            BuildType::Eks => String::from_str("EKS"),
        }
    }

    /// The display name in lower case, which names the kind's deployment directory.
    pub fn dir_name(&self) -> (s: String)
        ensures
            s@ == self.dir_text(),
    {
        match self {
            BuildType::Vpc => String::from_str("vpc"),
            BuildType::Ec2 => String::from_str("ec2"),
            BuildType::Ebs => String::from_str("ebs"),
            BuildType::Eks => String::from_str("eks"),
        }
    }
}

/// The environment a build is meant for.
#[derive(Debug, Clone, Copy, PartialEq, Eq, Structural)]
pub enum Environment {
    Dev,
    Staging,
    Production,
}

impl Environment {
    pub open spec fn text(self) -> Seq<char> {
        match self {
            Environment::Dev => "dev"@,
            Environment::Staging => "staging"@,
            Environment::Production => "production"@,
        }
    }

    /// The display name: "dev", "staging" or "production".
    pub fn to_string(&self) -> (s: String)
        ensures
            s@ == self.text(),
    {
        match self {
            Environment::Dev => String::from_str("dev"),
            Environment::Staging => String::from_str("staging"),
            Environment::Production => String::from_str("production"),
        }
    }

    /// The environment a builder chooses: production when the build is made
    /// production ready, development otherwise.
    pub fn for_production_ready(production_ready: bool) -> (e: Environment)
        ensures
            e == (if production_ready { Environment::Production } else { Environment::Dev }),
    {
        if production_ready {
            Environment::Production
        } else {
            Environment::Dev
        }
    }
}

/// Where a build stands in its life cycle.
#[derive(Debug, Clone, Copy, PartialEq, Eq, Structural)]
pub enum BuildStatus {
    Draft,
    Planning,
    Planned,
    Building,
    Built,
    Failed,
    Destroying,
    Destroyed,
}

impl BuildStatus {
    pub open spec fn text(self) -> Seq<char> {
        match self {
            BuildStatus::Draft => "Draft"@,
            BuildStatus::Planning => "Planning..."@,
            BuildStatus::Planned => "Plan Ready"@,
            BuildStatus::Building => "Building..."@,
            BuildStatus::Built => "Built"@,
            BuildStatus::Failed => "Failed"@,
            BuildStatus::Destroying => "Destroying..."@,
            BuildStatus::Destroyed => "Destroyed"@,
        }
    }

    /// The display name of the status, e.g. "Plan Ready" or "Building...".
    pub fn to_string(&self) -> (s: String)
        ensures
            s@ == self.text(),
    {
        match self {
            BuildStatus::Draft => String::from_str("Draft"),
            BuildStatus::Planning => String::from_str("Planning..."),
            BuildStatus::Planned => String::from_str("Plan Ready"),
            BuildStatus::Building => String::from_str("Building..."),
            BuildStatus::Built => String::from_str("Built"),
            BuildStatus::Failed => String::from_str("Failed"),
            BuildStatus::Destroying => String::from_str("Destroying..."),
            BuildStatus::Destroyed => String::from_str("Destroyed"),
        }
    }
}

/// Whether an instance sits in a public or a private subnet.
#[derive(Debug, Clone, Copy, PartialEq, Eq, Structural)]
pub enum SubnetPlacement {
    Public,
    Private,
}

/// How an EKS cluster obtains its worker nodes.
#[derive(Debug, Clone, Copy, PartialEq, Eq, Structural)]
pub enum EksComputeType {
    ManagedNodeGroups,
    Karpenter,
}

/// The terraform command a run performs.
#[derive(Debug, Clone, Copy, PartialEq, Eq, Structural)]
pub enum TerraformAction {
    Plan,
    Apply,
    Destroy,
}

/// What a terraform run reports.
#[derive(Debug, Clone)]
pub struct TerraformResult {
    pub success: bool,
    pub stdout: String,
    pub stderr: String,
    pub plan_summary: Option<PlanSummary>,
}

/// How many resources a plan adds, changes and destroys.
#[derive(Debug, Clone, Copy, PartialEq, Eq, Structural)]
pub struct PlanSummary {
    pub additions: u32,
    pub changes: u32,
    pub destructions: u32,
}

/// Configuration of a VPC build.
#[derive(Debug, Clone)]
pub struct VpcConfig {
    pub vpc_cidr: String,
    pub az_count: u8,
    pub enable_nat_gateway: bool,
    pub single_nat_gateway: bool,
    pub enable_vpn_gateway: bool,
    pub enable_flow_logs: bool,
    pub enable_vpc_endpoints: bool,
    pub private_subnets: Vec<String>,
    pub public_subnets: Vec<String>,
    pub tags: HashMap<String, String>,
}

/// Configuration of an EC2 build.
#[derive(Debug, Clone)]
pub struct Ec2Config {
    pub instance_type: String,
    pub instance_count: u32,
    pub volume_size_gb: u32,
    pub volume_type: String,
    pub associate_public_ip: bool,
    pub enable_monitoring: bool,
    pub enable_termination_protection: bool,
    pub key_pair_name: String,
    pub subnet_placement: SubnetPlacement,
    pub tags: HashMap<String, String>,
}

/// Configuration of an EBS build.
#[derive(Debug, Clone)]
pub struct EbsConfig {
    pub volume_size_gb: u32,
    pub volume_type: String,
    pub iops: Option<u32>,
    pub throughput: Option<u32>,
    pub encrypted: bool,
    pub multi_attach: bool,
    pub tags: HashMap<String, String>,
}

/// Configuration of an EKS build.
#[derive(Debug, Clone)]
pub struct EksConfig {
    pub cluster_name: String,
    pub cluster_version: String,
    pub multi_az: bool,
    pub private_nodes: bool,
    pub enable_nat: bool,
    pub enable_vpc_endpoints: bool,
    pub enable_alb_controller: bool,
    pub vpc_cidr: String,
    pub compute_type: EksComputeType,
    pub instance_type: String,
    pub min_nodes: u32,
    pub max_nodes: u32,
    pub desired_nodes: u32,
    pub enable_argocd: bool,
    pub enable_prometheus: bool,
    pub enable_grafana: bool,
    pub enable_external_secrets: bool,
    pub enable_cert_manager: bool,
    pub enable_external_dns: bool,
    pub enable_istio: bool,
    pub enable_pod_identity: bool,
    pub enable_network_policies: bool,
    pub private_api_endpoint: bool,
    pub enable_secrets_encryption: bool,
    pub enable_keda: bool,
    pub enable_descheduler: bool,
    pub enable_crane: bool,
    pub enable_nth: bool,
    pub enable_pdb: bool,
    pub enable_topology_spread: bool,
    pub tags: HashMap<String, String>,
}

/// The configuration of a build, one variant per kind.
#[derive(Debug, Clone)]
pub enum BuildConfig {
    Vpc(VpcConfig),
    Ec2(Ec2Config),
    Ebs(EbsConfig),
    Eks(EksConfig),
}

/// The texts of a sequence of strings.
pub open spec fn texts(v: Seq<String>) -> Seq<Seq<char>> {
    v.map_values(|s: String| s@)
}

fn string_vec3(a: &str, b: &str, c: &str) -> (v: Vec<String>)
    ensures
        texts(v@) == seq![a@, b@, c@],
{
    let mut v: Vec<String> = Vec::new();
    v.push(String::from_str(a));
    v.push(String::from_str(b));
    v.push(String::from_str(c));
    proof {
        assert(texts(v@) =~= seq![a@, b@, c@]);
    }
    v
}

impl Default for VpcConfig {
    /// Three availability zones with one NAT gateway per zone and flow logs.
    fn default() -> (c: Self)
        ensures
            c.vpc_cidr@ == "10.0.0.0/16"@,
            c.az_count == 3,
            c.enable_nat_gateway,
            !c.single_nat_gateway,
            !c.enable_vpn_gateway,
            c.enable_flow_logs,
            !c.enable_vpc_endpoints,
            texts(c.private_subnets@) == seq!["10.0.1.0/24"@, "10.0.2.0/24"@, "10.0.3.0/24"@],
            texts(c.public_subnets@) == seq![
                "10.0.101.0/24"@,
                "10.0.102.0/24"@,
                "10.0.103.0/24"@,
            ],
            c.tags@ == Map::<String, String>::empty(),
    {
        VpcConfig {
            vpc_cidr: String::from_str("10.0.0.0/16"),
            az_count: 3,
            enable_nat_gateway: true,
            single_nat_gateway: false,
            enable_vpn_gateway: false,
            enable_flow_logs: true,
            enable_vpc_endpoints: false,
            private_subnets: string_vec3("10.0.1.0/24", "10.0.2.0/24", "10.0.3.0/24"),
            public_subnets: string_vec3("10.0.101.0/24", "10.0.102.0/24", "10.0.103.0/24"),
            tags: HashMap::new(),
        }
    }
}

impl Default for Ec2Config {
    /// One private t3.medium instance with a 30 GB gp3 volume and detailed monitoring.
    fn default() -> (c: Self)
        ensures
            c.instance_type@ == "t3.medium"@,
            c.instance_count == 1,
            c.volume_size_gb == 30,
            c.volume_type@ == "gp3"@,
            !c.associate_public_ip,
            c.enable_monitoring,
            !c.enable_termination_protection,
            c.key_pair_name@ == Seq::<char>::empty(),
            c.subnet_placement == SubnetPlacement::Private,
            c.tags@ == Map::<String, String>::empty(),
    {
        Ec2Config {
            instance_type: String::from_str("t3.medium"),
            instance_count: 1,
            volume_size_gb: 30,
            volume_type: String::from_str("gp3"),
            associate_public_ip: false,
            enable_monitoring: true,
            enable_termination_protection: false,
            key_pair_name: String::new(),
            subnet_placement: SubnetPlacement::Private,
            tags: HashMap::new(),
        }
    }
}

impl Default for EbsConfig {
    /// An encrypted 100 GB gp3 volume with 3000 IOPS and 125 MB/s throughput.
    fn default() -> (c: Self)
        ensures
            c.volume_size_gb == 100,
            c.volume_type@ == "gp3"@,
            c.iops == Some(3000u32),
            c.throughput == Some(125u32),
            c.encrypted,
            !c.multi_attach,
            c.tags@ == Map::<String, String>::empty(),
    {
        EbsConfig {
            volume_size_gb: 100,
            volume_type: String::from_str("gp3"),
            iops: Some(3000),
            throughput: Some(125),
            encrypted: true,
            multi_attach: false,
            tags: HashMap::new(),
        }
    }
}

impl Default for EksConfig {
    /// A multi-AZ Karpenter cluster on m5.xlarge nodes (2 to 10, 3 desired)
    /// with the usual platform add-ons switched on.
    fn default() -> (c: Self)
        ensures
            c.cluster_name@ == Seq::<char>::empty(),
            c.cluster_version@ == "1.30"@,
            c.multi_az,
            c.private_nodes,
            c.enable_nat,
            !c.enable_vpc_endpoints,
            c.enable_alb_controller,
            c.vpc_cidr@ == "10.0.0.0/16"@,
            c.compute_type == EksComputeType::Karpenter,
            c.instance_type@ == "m5.xlarge"@,
            c.min_nodes == 2,
            c.max_nodes == 10,
            c.desired_nodes == 3,
            !c.enable_argocd,
            c.enable_prometheus,
            c.enable_grafana,
            c.enable_external_secrets,
            c.enable_cert_manager,
            !c.enable_external_dns,
            !c.enable_istio,
            c.enable_pod_identity,
            c.enable_network_policies,
            !c.private_api_endpoint,
            c.enable_secrets_encryption,
            !c.enable_keda,
            !c.enable_descheduler,
            !c.enable_crane,
            c.enable_nth,
            c.enable_pdb,
            c.enable_topology_spread,
            c.tags@ == Map::<String, String>::empty(),
    {
        EksConfig {
            cluster_name: String::new(),
            cluster_version: String::from_str("1.30"),
            multi_az: true,
            private_nodes: true,
            enable_nat: true,
            enable_vpc_endpoints: false,
            enable_alb_controller: true,
            vpc_cidr: String::from_str("10.0.0.0/16"),
            compute_type: EksComputeType::Karpenter,
            instance_type: String::from_str("m5.xlarge"),
            min_nodes: 2,
            max_nodes: 10,
            desired_nodes: 3,
            enable_argocd: false,
            enable_prometheus: true,
            enable_grafana: true,
            enable_external_secrets: true,
            enable_cert_manager: true,
            enable_external_dns: false,
            enable_istio: false,
            enable_pod_identity: true,
            enable_network_policies: true,
            private_api_endpoint: false,
            enable_secrets_encryption: true,
            enable_keda: false,
            enable_descheduler: false,
            enable_crane: false,
            enable_nth: true,
            enable_pdb: true,
            enable_topology_spread: true,
            tags: HashMap::new(),
        }
    }
}


/// One priced resource of an estimate. Amounts are in hundredths of a cent.
#[derive(Debug, Clone, PartialEq, Eq)]
pub struct CostLineItem {
    pub service: String,
    pub resource: String,
    pub description: String,
    pub monthly_cost: u128,
    pub is_production_addon: bool,
}

/// The meaning of a line item: its texts, its monthly cost and whether it is
/// only there to make the build production ready.
#[verifier::ext_equal]
pub struct LineItemView {
    pub service: Seq<char>,
    pub resource: Seq<char>,
    pub description: Seq<char>,
    pub monthly_cost: nat,
    pub is_production_addon: bool,
}

impl View for CostLineItem {
    type V = LineItemView;

    open spec fn view(&self) -> LineItemView {
        LineItemView {
            service: self.service@,
            resource: self.resource@,
            description: self.description@,
            monthly_cost: self.monthly_cost as nat,
            is_production_addon: self.is_production_addon,
        }
    }
}

/// A monthly cost estimate. Amounts are in hundredths of a cent.
#[derive(Debug, Clone, PartialEq, Eq)]
pub struct CostEstimate {
    pub monthly_total: u128,
    pub line_items: Vec<CostLineItem>,
    pub production_addon_cost: u128,
    pub currency: String,
}

/// The meaning of an estimate.
#[verifier::ext_equal]
pub struct EstimateView {
    pub monthly_total: nat,
    pub line_items: Seq<LineItemView>,
    pub production_addon_cost: nat,
    pub currency: Seq<char>,
}

/// The meanings of a sequence of line items.
pub open spec fn item_views(v: Seq<CostLineItem>) -> Seq<LineItemView> {
    v.map_values(|i: CostLineItem| i@)
}

impl View for CostEstimate {
    type V = EstimateView;

    open spec fn view(&self) -> EstimateView {
        EstimateView {
            monthly_total: self.monthly_total as nat,
            line_items: item_views(self.line_items@),
            production_addon_cost: self.production_addon_cost as nat,
            currency: self.currency@,
        }
    }
}

} // verus!

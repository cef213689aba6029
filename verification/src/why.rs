//! Why a production-ready build makes each of its choices.
use vstd::prelude::*;
use crate::text::same_text;

verus! {

/// One decision of a production-ready build, the reason for it, what it adds
/// to the monthly cost (in hundredths of a cent) and the risk it removes.
#[derive(Debug, Clone, PartialEq, Eq)]
pub struct WhyExplanation {
    pub decision: String,
    pub reason: String,
    pub additional_cost: u128,
    pub risk_level: String,
}

/// The meaning of an explanation.
#[verifier::ext_equal]
pub struct ExplanationView {
    pub decision: Seq<char>,
    pub reason: Seq<char>,
    pub additional_cost: nat,
    pub risk_level: Seq<char>,
}

impl View for WhyExplanation {
    type V = ExplanationView;

    open spec fn view(&self) -> ExplanationView {
        ExplanationView {
            decision: self.decision@,
            reason: self.reason@,
            additional_cost: self.additional_cost as nat,
            risk_level: self.risk_level@,
        }
    }
}

/// An explanation with the given texts and cost.
pub open spec fn why_view(decision: Seq<char>, reason: Seq<char>, cost: nat, risk: Seq<char>) -> ExplanationView {
    ExplanationView { decision, reason, additional_cost: cost, risk_level: risk }
}

/// The meanings of a sequence of explanations.
pub open spec fn explanation_views(v: Seq<WhyExplanation>) -> Seq<ExplanationView> {
    v.map_values(|e: WhyExplanation| e@)
}

/// The explanations of a production-ready EKS build.
pub open spec fn eks_explanations() -> Seq<ExplanationView> {
    seq![
        why_view("Multi-AZ deployment"@, "Survive AZ failure. AWS AZs fail independently."@, 0, "Critical"@),
        why_view("Private networking"@, "Nodes unreachable from internet. Only LB is public."@, 320000, "High"@),
        why_view("Encryption at rest"@, "All data encrypted. Required for SOC2/HIPAA/PCI."@, 0, "High"@),
        why_view("Pod Disruption Budgets"@, "Prevent evicting too many pods during rollouts."@, 0, "High"@),
        why_view("Topology spread"@, "Pods spread across AZs and nodes."@, 0, "High"@),
        why_view("Monitoring (Prometheus)"@, "Full observability into cluster health."@, 450000, "High"@),
        why_view("Least-privilege IAM (IRSA)"@, "Each pod gets only the AWS perms it needs."@, 0, "Critical"@),
        why_view("Node Termination Handler"@, "Graceful drain on spot interruption."@, 0, "Medium"@),
        why_view("Secrets encryption (KMS)"@, "K8s secrets encrypted at rest in etcd."@, 0, "High"@),
    ]
}

/// The explanations of a production-ready VPC build.
pub open spec fn vpc_explanations() -> Seq<ExplanationView> {
    seq![
        why_view("Multi-AZ (3 AZs)"@, "Redundancy across failure domains."@, 0, "Critical"@),
        why_view("HA NAT (per-AZ)"@, "Each AZ has its own NAT. One AZ down doesn't kill outbound."@, 650000, "High"@),
        why_view("VPC Flow Logs"@, "Audit trail for network traffic. Required for compliance."@, 50000, "Medium"@),
        why_view("VPC Endpoints"@, "Private connectivity to AWS services. No internet transit."@, 870000, "Medium"@),
    ]
}

/// The explanations of a production-ready EC2 build.
pub open spec fn ec2_explanations() -> Seq<ExplanationView> {
    seq![
        why_view("Termination protection"@, "Prevents accidental deletion."@, 0, "Critical"@),
        why_view("Detailed monitoring"@, "1-min CloudWatch metrics for faster alerting."@, 35000, "Medium"@),
        why_view("Private subnet"@, "Not directly reachable from internet."@, 0, "High"@),
        why_view("Encrypted volumes"@, "EBS encrypted at rest. No perf impact."@, 0, "High"@),
    ]
}

/// The explanations of a production-ready EBS build.
pub open spec fn ebs_explanations() -> Seq<ExplanationView> {
    seq![
        why_view("Encryption at rest"@, "AES-256 encryption. Zero perf impact on modern instances."@, 0, "High"@),
    ]
}

/// The explanations for a kind of build named in lower case ("eks", "vpc",
/// "ec2" or "ebs"); none for any other name.
pub open spec fn explanations_for(build_type: Seq<char>) -> Seq<ExplanationView> {
    if build_type == "eks"@ {
        eks_explanations()
    } else if build_type == "vpc"@ {
        vpc_explanations()
    } else if build_type == "ec2"@ {
        ec2_explanations()
    } else if build_type == "ebs"@ {
        ebs_explanations()
    } else {
        Seq::empty()
    }
}


/// Law: the explanations are looked up by the exact lower-case kind name:
/// nine for "eks", four for "vpc" and "ec2", one for "ebs", none for any other
/// name; each names its decision, its extra monthly cost (Private networking
/// $32, Prometheus $45, HA NAT $65, Flow Logs $5, VPC Endpoints $87, detailed
/// monitoring $3.50, nothing for the others) and the risk it removes.
pub proof fn law_explanations(t: Seq<char>)
    ensures
        explanations_for("eks"@).len() == 9,
        explanations_for("eks"@)[0].decision == "Multi-AZ deployment"@ && explanations_for("eks"@)[0].additional_cost == 0 && explanations_for("eks"@)[0].risk_level == "Critical"@,
        explanations_for("eks"@)[1].decision == "Private networking"@ && explanations_for("eks"@)[1].additional_cost == 320000 && explanations_for("eks"@)[1].risk_level == "High"@,
        explanations_for("eks"@)[2].decision == "Encryption at rest"@ && explanations_for("eks"@)[2].additional_cost == 0 && explanations_for("eks"@)[2].risk_level == "High"@,
        explanations_for("eks"@)[3].decision == "Pod Disruption Budgets"@ && explanations_for("eks"@)[3].additional_cost == 0 && explanations_for("eks"@)[3].risk_level == "High"@,
        explanations_for("eks"@)[4].decision == "Topology spread"@ && explanations_for("eks"@)[4].additional_cost == 0 && explanations_for("eks"@)[4].risk_level == "High"@,
        explanations_for("eks"@)[5].decision == "Monitoring (Prometheus)"@ && explanations_for("eks"@)[5].additional_cost == 450000 && explanations_for("eks"@)[5].risk_level == "High"@,
        explanations_for("eks"@)[6].decision == "Least-privilege IAM (IRSA)"@ && explanations_for("eks"@)[6].additional_cost == 0 && explanations_for("eks"@)[6].risk_level == "Critical"@,
        explanations_for("eks"@)[7].decision == "Node Termination Handler"@ && explanations_for("eks"@)[7].additional_cost == 0 && explanations_for("eks"@)[7].risk_level == "Medium"@,
        explanations_for("eks"@)[8].decision == "Secrets encryption (KMS)"@ && explanations_for("eks"@)[8].additional_cost == 0 && explanations_for("eks"@)[8].risk_level == "High"@,
        explanations_for("vpc"@).len() == 4,
        explanations_for("vpc"@)[0].decision == "Multi-AZ (3 AZs)"@ && explanations_for("vpc"@)[0].additional_cost == 0 && explanations_for("vpc"@)[0].risk_level == "Critical"@,
        explanations_for("vpc"@)[1].decision == "HA NAT (per-AZ)"@ && explanations_for("vpc"@)[1].additional_cost == 650000 && explanations_for("vpc"@)[1].risk_level == "High"@,
        explanations_for("vpc"@)[2].decision == "VPC Flow Logs"@ && explanations_for("vpc"@)[2].additional_cost == 50000 && explanations_for("vpc"@)[2].risk_level == "Medium"@,
        explanations_for("vpc"@)[3].decision == "VPC Endpoints"@ && explanations_for("vpc"@)[3].additional_cost == 870000 && explanations_for("vpc"@)[3].risk_level == "Medium"@,
        explanations_for("ec2"@).len() == 4,
        explanations_for("ec2"@)[0].decision == "Termination protection"@ && explanations_for("ec2"@)[0].additional_cost == 0 && explanations_for("ec2"@)[0].risk_level == "Critical"@,
        explanations_for("ec2"@)[1].decision == "Detailed monitoring"@ && explanations_for("ec2"@)[1].additional_cost == 35000 && explanations_for("ec2"@)[1].risk_level == "Medium"@,
        explanations_for("ec2"@)[2].decision == "Private subnet"@ && explanations_for("ec2"@)[2].additional_cost == 0 && explanations_for("ec2"@)[2].risk_level == "High"@,
        explanations_for("ec2"@)[3].decision == "Encrypted volumes"@ && explanations_for("ec2"@)[3].additional_cost == 0 && explanations_for("ec2"@)[3].risk_level == "High"@,
        explanations_for("ebs"@).len() == 1,
        explanations_for("ebs"@)[0].decision == "Encryption at rest"@ && explanations_for("ebs"@)[0].additional_cost == 0 && explanations_for("ebs"@)[0].risk_level == "High"@,
        !(t == "eks"@ || t == "vpc"@ || t == "ec2"@ || t == "ebs"@) ==> explanations_for(t).len() == 0,
{
    reveal_strlit("eks");
    reveal_strlit("vpc");
    reveal_strlit("ec2");
    reveal_strlit("ebs");
    assert("vpc"@[0] != "eks"@[0]);
    assert("ec2"@[1] != "eks"@[1]);
    assert("ec2"@[0] != "vpc"@[0]);
    assert("ebs"@[1] != "eks"@[1]);
    assert("ebs"@[0] != "vpc"@[0]);
    assert("ebs"@[1] != "ec2"@[1]);
}

fn why(decision: &str, reason: &str, cost: u128, risk: &str) -> (e: WhyExplanation)
    ensures
        e@ == why_view(decision@, reason@, cost as nat, risk@),
{
    WhyExplanation {
        decision: String::from_str(decision),
        reason: String::from_str(reason),
        additional_cost: cost,
        risk_level: String::from_str(risk),
    }
}

fn push_why(v: &mut Vec<WhyExplanation>, decision: &str, reason: &str, cost: u128, risk: &str)
    ensures
        explanation_views(final(v)@) == explanation_views(old(v)@).push(
            why_view(decision@, reason@, cost as nat, risk@),
        ),
{
    v.push(why(decision, reason, cost, risk));
    proof {
        assert(explanation_views(v@) =~= explanation_views(old(v)@).push(
            why_view(decision@, reason@, cost as nat, risk@),
        ));
    }
}

fn eks_list() -> (v: Vec<WhyExplanation>)
    ensures
        explanation_views(v@) == eks_explanations(),
{
    let mut v: Vec<WhyExplanation> = Vec::new();
    push_why(&mut v, "Multi-AZ deployment", "Survive AZ failure. AWS AZs fail independently.", 0, "Critical");
    push_why(&mut v, "Private networking", "Nodes unreachable from internet. Only LB is public.", 320000, "High");
    push_why(&mut v, "Encryption at rest", "All data encrypted. Required for SOC2/HIPAA/PCI.", 0, "High");
    push_why(&mut v, "Pod Disruption Budgets", "Prevent evicting too many pods during rollouts.", 0, "High");
    push_why(&mut v, "Topology spread", "Pods spread across AZs and nodes.", 0, "High");
    push_why(&mut v, "Monitoring (Prometheus)", "Full observability into cluster health.", 450000, "High");
    push_why(&mut v, "Least-privilege IAM (IRSA)", "Each pod gets only the AWS perms it needs.", 0, "Critical");
    push_why(&mut v, "Node Termination Handler", "Graceful drain on spot interruption.", 0, "Medium");
    push_why(&mut v, "Secrets encryption (KMS)", "K8s secrets encrypted at rest in etcd.", 0, "High");
    proof {
        assert(explanation_views(v@) =~= eks_explanations());
    }
    v
}

fn vpc_list() -> (v: Vec<WhyExplanation>)
    ensures
        explanation_views(v@) == vpc_explanations(),
{
    let mut v: Vec<WhyExplanation> = Vec::new();
    push_why(&mut v, "Multi-AZ (3 AZs)", "Redundancy across failure domains.", 0, "Critical");
    push_why(&mut v, "HA NAT (per-AZ)", "Each AZ has its own NAT. One AZ down doesn't kill outbound.", 650000, "High");
    push_why(&mut v, "VPC Flow Logs", "Audit trail for network traffic. Required for compliance.", 50000, "Medium");
    push_why(&mut v, "VPC Endpoints", "Private connectivity to AWS services. No internet transit.", 870000, "Medium");
    proof {
        assert(explanation_views(v@) =~= vpc_explanations());
    }
    v
}

fn ec2_list() -> (v: Vec<WhyExplanation>)
    ensures
        explanation_views(v@) == ec2_explanations(),
{
    let mut v: Vec<WhyExplanation> = Vec::new();
    push_why(&mut v, "Termination protection", "Prevents accidental deletion.", 0, "Critical");
    push_why(&mut v, "Detailed monitoring", "1-min CloudWatch metrics for faster alerting.", 35000, "Medium");
    push_why(&mut v, "Private subnet", "Not directly reachable from internet.", 0, "High");
    push_why(&mut v, "Encrypted volumes", "EBS encrypted at rest. No perf impact.", 0, "High");
    proof {
        assert(explanation_views(v@) =~= ec2_explanations());
    }
    v
}

fn ebs_list() -> (v: Vec<WhyExplanation>)
    ensures
        explanation_views(v@) == ebs_explanations(),
{
    let mut v: Vec<WhyExplanation> = Vec::new();
    push_why(&mut v, "Encryption at rest", "AES-256 encryption. Zero perf impact on modern instances.", 0, "High");
    proof {
        assert(explanation_views(v@) =~= ebs_explanations());
    }
    v
}

/// Explains the choices of a production-ready build of the kind named in
/// lower case; an unknown name has no explanations.
pub fn get_explanations_for_build_type(build_type: &str) -> (v: Vec<WhyExplanation>)
    ensures
        explanation_views(v@) == explanations_for(build_type@),
{
    if same_text(build_type, "eks") {
        eks_list()
    } else if same_text(build_type, "vpc") {
        vpc_list()
    } else if same_text(build_type, "ec2") {
        ec2_list()
    } else if same_text(build_type, "ebs") {
        ebs_list()
    } else {
        let v: Vec<WhyExplanation> = Vec::new();
        proof {
            assert(explanation_views(v@) =~= Seq::<ExplanationView>::empty());
        }
        v
    }
}

} // verus!

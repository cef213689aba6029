//! Presets that turn a configuration into a production-ready one.
use crate::models::{Ec2Config, EksConfig, SubnetPlacement, VpcConfig};
use vstd::prelude::*;

verus! {

/// An EKS configuration made production ready: spread over three AZs with
/// private nodes behind NAT, private endpoints, monitoring, secrets management,
/// least-privilege identities, network policies, encryption, disruption
/// handling, and at least three nodes. Everything else is kept.
pub open spec fn production_ready_eks(c: EksConfig) -> EksConfig {
    EksConfig {
        multi_az: true,
        private_nodes: true,
        enable_nat: true,
        enable_vpc_endpoints: true,
        enable_prometheus: true,
        enable_grafana: true,
        enable_external_secrets: true,
        enable_cert_manager: true,
        enable_pod_identity: true,
        enable_network_policies: true,
        private_api_endpoint: true,
        enable_secrets_encryption: true,
        enable_nth: true,
        enable_pdb: true,
        enable_topology_spread: true,
        enable_descheduler: true,
        min_nodes: if c.min_nodes < 3 {
            3
        } else {
            c.min_nodes
        },
        ..c
    }
}

/// A VPC configuration made production ready: three AZs, one NAT gateway per
/// AZ, flow logs and VPC endpoints. Everything else is kept.
pub open spec fn production_ready_vpc(c: VpcConfig) -> VpcConfig {
    VpcConfig {
        az_count: 3,
        single_nat_gateway: false,
        enable_flow_logs: true,
        enable_vpc_endpoints: true,
        ..c
    }
}

/// An EC2 configuration made production ready: detailed monitoring,
/// termination protection, no public IP, private subnet. Everything else is kept.
pub open spec fn production_ready_ec2(c: Ec2Config) -> Ec2Config {
    Ec2Config {
        enable_monitoring: true,
        enable_termination_protection: true,
        associate_public_ip: false,
        subnet_placement: SubnetPlacement::Private,
        ..c
    }
}

/// Makes an EKS configuration production ready.
pub fn make_production_ready_eks(config: &mut EksConfig)
    ensures
        *final(config) == production_ready_eks(*old(config)),
{
    config.multi_az = true;
    config.private_nodes = true;
    config.enable_nat = true;
    config.enable_vpc_endpoints = true;
    config.enable_prometheus = true;
    config.enable_grafana = true;
    config.enable_external_secrets = true;
    config.enable_cert_manager = true;
    config.enable_pod_identity = true;
    config.enable_network_policies = true;
    config.private_api_endpoint = true;
    config.enable_secrets_encryption = true;
    config.enable_nth = true;
    config.enable_pdb = true;
    config.enable_topology_spread = true;
    config.enable_descheduler = true;
    if config.min_nodes < 3 {
        config.min_nodes = 3;
    }
}

/// Makes a VPC configuration production ready.
pub fn make_production_ready_vpc(config: &mut VpcConfig)
    ensures
        *final(config) == production_ready_vpc(*old(config)),
{
    config.az_count = 3;
    config.single_nat_gateway = false;
    config.enable_flow_logs = true;
    config.enable_vpc_endpoints = true;
}

/// Makes an EC2 configuration production ready.
pub fn make_production_ready_ec2(config: &mut Ec2Config)
    ensures
        *final(config) == production_ready_ec2(*old(config)),
{
    config.enable_monitoring = true;
    config.enable_termination_protection = true;
    config.associate_public_ip = false;
    config.subnet_placement = SubnetPlacement::Private;
}

/// Law: making a configuration production ready a second time changes nothing.
pub proof fn lemma_production_ready_idempotent(e: EksConfig, v: VpcConfig, c: Ec2Config)
    ensures
        production_ready_eks(production_ready_eks(e)) == production_ready_eks(e),
        production_ready_vpc(production_ready_vpc(v)) == production_ready_vpc(v),
        production_ready_ec2(production_ready_ec2(c)) == production_ready_ec2(c),
{
}

/// Law: a production-ready EKS cluster never runs with fewer than three
/// nodes, and keeps any larger minimum it had.
pub proof fn lemma_production_ready_eks_min_nodes(e: EksConfig)
    ensures
        production_ready_eks(e).min_nodes >= 3,
        e.min_nodes >= 3 ==> production_ready_eks(e).min_nodes == e.min_nodes,
{
}


/// Law: whatever the configuration, a production-ready EKS cluster is
/// multi-AZ with private nodes behind NAT, VPC endpoints and a private API
/// endpoint, Prometheus and Grafana, external secrets, cert-manager, pod
/// identities, network policies, secrets encryption, the node termination
/// handler, disruption budgets, topology spread and the descheduler, and at
/// least three nodes; its name, version, node type, node counts above three,
/// compute type and other add-ons are the input's.
pub proof fn law_production_ready_eks(c: EksConfig)
    ensures
        ({
            let p = production_ready_eks(c);
            &&& p.multi_az && p.private_nodes && p.enable_nat && p.enable_vpc_endpoints
            &&& p.enable_prometheus && p.enable_grafana && p.enable_external_secrets
            &&& p.enable_cert_manager && p.enable_pod_identity && p.enable_network_policies
            &&& p.private_api_endpoint && p.enable_secrets_encryption && p.enable_nth
            &&& p.enable_pdb && p.enable_topology_spread && p.enable_descheduler
            &&& p.min_nodes >= 3 && p.min_nodes >= c.min_nodes
            &&& (c.min_nodes >= 3 ==> p.min_nodes == c.min_nodes)
            &&& p.cluster_name == c.cluster_name && p.cluster_version == c.cluster_version
            &&& p.instance_type == c.instance_type && p.vpc_cidr == c.vpc_cidr
            &&& p.compute_type == c.compute_type && p.max_nodes == c.max_nodes
            &&& p.desired_nodes == c.desired_nodes && p.tags == c.tags
            &&& p.enable_alb_controller == c.enable_alb_controller
            &&& p.enable_argocd == c.enable_argocd && p.enable_external_dns == c.enable_external_dns
            &&& p.enable_istio == c.enable_istio && p.enable_keda == c.enable_keda
            &&& p.enable_crane == c.enable_crane
        }),
{
}

/// Law: whatever the configuration, a production-ready VPC spans three AZs
/// with one NAT gateway per AZ, flow logs and VPC endpoints; everything else
/// is the input's.
pub proof fn law_production_ready_vpc(c: VpcConfig)
    ensures
        ({
            let p = production_ready_vpc(c);
            &&& p.az_count == 3 && !p.single_nat_gateway && p.enable_flow_logs
            &&& p.enable_vpc_endpoints
            &&& p.vpc_cidr == c.vpc_cidr && p.enable_nat_gateway == c.enable_nat_gateway
            &&& p.enable_vpn_gateway == c.enable_vpn_gateway
            &&& p.private_subnets == c.private_subnets && p.public_subnets == c.public_subnets
            &&& p.tags == c.tags
        }),
{
}

/// Law: whatever the configuration, a production-ready EC2 instance has
/// detailed monitoring and termination protection, no public IP and sits in a
/// private subnet; everything else is the input's.
pub proof fn law_production_ready_ec2(c: Ec2Config)
    ensures
        ({
            let p = production_ready_ec2(c);
            &&& p.enable_monitoring && p.enable_termination_protection
            &&& !p.associate_public_ip && p.subnet_placement == SubnetPlacement::Private
            &&& p.instance_type == c.instance_type && p.instance_count == c.instance_count
            &&& p.volume_size_gb == c.volume_size_gb && p.volume_type == c.volume_type
            &&& p.key_pair_name == c.key_pair_name && p.tags == c.tags
        }),
{
}

} // verus!

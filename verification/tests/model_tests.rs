use infra_shared::models::{
    BuildStatus, BuildType, Ec2Config, EbsConfig, EksComputeType, EksConfig, Environment,
    SubnetPlacement, VpcConfig,
};
use infra_shared::presets::{make_production_ready_ec2, make_production_ready_eks, make_production_ready_vpc};

#[test]
fn display_names() {
    assert_eq!(BuildType::Vpc.to_string(), "VPC");
    assert_eq!(BuildType::Eks.to_string(), "EKS");
    assert_eq!(BuildType::Ec2.dir_name(), "ec2");
    assert_eq!(BuildType::Ebs.dir_name(), "ebs");
    assert_eq!(Environment::Staging.to_string(), "staging");
    assert_eq!(Environment::Production.to_string(), "production");
    assert_eq!(BuildStatus::Planned.to_string(), "Plan Ready");
    assert_eq!(BuildStatus::Destroying.to_string(), "Destroying...");
    assert_eq!(BuildStatus::Draft.to_string(), "Draft");
}

#[test]
fn environment_follows_production_toggle() {
    assert_eq!(Environment::for_production_ready(true), Environment::Production);
    assert_eq!(Environment::for_production_ready(false), Environment::Dev);
}

#[test]
fn vpc_defaults() {
    let c = VpcConfig::default();
    assert_eq!(c.vpc_cidr, "10.0.0.0/16");
    assert_eq!(c.az_count, 3);
    assert!(c.enable_nat_gateway && !c.single_nat_gateway && c.enable_flow_logs);
    assert_eq!(c.private_subnets, vec!["10.0.1.0/24", "10.0.2.0/24", "10.0.3.0/24"]);
    assert_eq!(c.public_subnets, vec!["10.0.101.0/24", "10.0.102.0/24", "10.0.103.0/24"]);
    assert!(c.tags.is_empty());
}

#[test]
fn other_defaults() {
    let e = Ec2Config::default();
    assert_eq!(e.instance_type, "t3.medium");
    assert_eq!(e.volume_size_gb, 30);
    assert_eq!(e.subnet_placement, SubnetPlacement::Private);
    let b = EbsConfig::default();
    assert_eq!(b.iops, Some(3000));
    assert_eq!(b.throughput, Some(125));
    let k = EksConfig::default();
    assert_eq!(k.cluster_version, "1.30");
    assert_eq!(k.compute_type, EksComputeType::Karpenter);
    assert_eq!((k.min_nodes, k.desired_nodes, k.max_nodes), (2, 3, 10));
}

#[test]
fn eks_preset_raises_min_nodes() {
    let mut c = EksConfig::default();
    c.min_nodes = 1;
    c.enable_argocd = true;
    c.private_api_endpoint = false;
    make_production_ready_eks(&mut c);
    assert_eq!(c.min_nodes, 3);
    assert!(c.private_api_endpoint && c.enable_descheduler && c.enable_vpc_endpoints);
    assert!(c.enable_argocd);
    assert_eq!(c.desired_nodes, 3);
}

#[test]
fn eks_preset_keeps_larger_minimum() {
    let mut c = EksConfig::default();
    c.min_nodes = 7;
    make_production_ready_eks(&mut c);
    assert_eq!(c.min_nodes, 7);
}

#[test]
fn presets_are_idempotent() {
    let mut v = VpcConfig::default();
    v.az_count = 2;
    v.single_nat_gateway = true;
    make_production_ready_vpc(&mut v);
    let once = (v.az_count, v.single_nat_gateway, v.enable_flow_logs, v.enable_vpc_endpoints);
    make_production_ready_vpc(&mut v);
    assert_eq!(once, (v.az_count, v.single_nat_gateway, v.enable_flow_logs, v.enable_vpc_endpoints));
    assert_eq!(once, (3, false, true, true));

    let mut e = Ec2Config::default();
    e.associate_public_ip = true;
    e.subnet_placement = SubnetPlacement::Public;
    e.enable_monitoring = false;
    make_production_ready_ec2(&mut e);
    assert!(!e.associate_public_ip && e.enable_monitoring && e.enable_termination_protection);
    assert_eq!(e.subnet_placement, SubnetPlacement::Private);
    make_production_ready_ec2(&mut e);
    assert_eq!(e.subnet_placement, SubnetPlacement::Private);
    assert_eq!(e.instance_type, "t3.medium");
}

use infra_shared::builds::estimate_build_cost;
use infra_shared::cost::{estimate_ebs_cost, estimate_ec2_cost, estimate_eks_cost, estimate_vpc_cost};
use infra_shared::models::{BuildConfig, CostEstimate, Ec2Config, EbsConfig, EksConfig, VpcConfig};

fn check_sums(e: &CostEstimate) {
    let total: u128 = e.line_items.iter().map(|i| i.monthly_cost).sum();
    assert_eq!(e.monthly_total, total);
    assert!(e.production_addon_cost <= e.monthly_total);
    assert_eq!(e.currency, "USD");
}

#[test]
fn vpc_default_estimate() {
    let e = estimate_vpc_cost(&VpcConfig::default(), "us-east-1");
    assert_eq!(e.line_items.len(), 2);
    let nat = &e.line_items[0];
    assert_eq!(nat.service, "VPC");
    assert_eq!(nat.resource, "NAT Gateway");
    assert_eq!(nat.description, "3 NAT(s) × $0.045/hr");
    assert_eq!(nat.monthly_cost, 985500);
    assert!(nat.is_production_addon);
    let logs = &e.line_items[1];
    assert_eq!(logs.service, "CloudWatch");
    assert_eq!(logs.resource, "Flow Logs");
    assert_eq!(logs.description, "~10GB/mo ingestion");
    assert_eq!(logs.monthly_cost, 50000);
    assert_eq!(e.monthly_total, 1035500);
    assert_eq!(e.production_addon_cost, 1035500);
    check_sums(&e);
}

#[test]
fn vpc_single_nat_is_no_addon() {
    let mut c = VpcConfig::default();
    c.single_nat_gateway = true;
    c.enable_flow_logs = false;
    c.enable_vpc_endpoints = true;
    let e = estimate_vpc_cost(&c, "eu-west-1");
    assert_eq!(e.line_items.len(), 2);
    assert_eq!(e.line_items[0].description, "1 NAT(s) × $0.045/hr");
    assert_eq!(e.line_items[0].monthly_cost, 328500);
    assert!(!e.line_items[0].is_production_addon);
    assert_eq!(e.line_items[1].description, "4 endpoints × 3 AZs");
    assert_eq!(e.line_items[1].monthly_cost, 876000);
    assert_eq!(e.monthly_total, 1204500);
    assert_eq!(e.production_addon_cost, 876000);
    check_sums(&e);
}

#[test]
fn vpc_nothing_enabled() {
    let mut c = VpcConfig::default();
    c.enable_nat_gateway = false;
    c.enable_flow_logs = false;
    let e = estimate_vpc_cost(&c, "us-east-1");
    assert!(e.line_items.is_empty());
    assert_eq!(e.monthly_total, 0);
    assert_eq!(e.production_addon_cost, 0);
}

#[test]
fn ec2_default_estimate() {
    let e = estimate_ec2_cost(&Ec2Config::default(), "us-east-1");
    assert_eq!(e.line_items.len(), 3);
    assert_eq!(e.line_items[0].description, "1 × t3.medium @ $0.0416/hr");
    assert_eq!(e.line_items[0].monthly_cost, 303680);
    assert_eq!(e.line_items[1].service, "EBS");
    assert_eq!(e.line_items[1].description, "30GB gp3");
    assert_eq!(e.line_items[1].monthly_cost, 24000);
    assert_eq!(e.line_items[2].description, "Detailed 1-min metrics");
    assert_eq!(e.line_items[2].monthly_cost, 35000);
    assert_eq!(e.monthly_total, 362680);
    assert_eq!(e.production_addon_cost, 35000);
    check_sums(&e);
}

#[test]
fn ec2_unknown_types_use_fallback_rates() {
    let mut c = Ec2Config::default();
    c.instance_type = "x9.huge".to_string();
    c.volume_type = "sc1".to_string();
    c.instance_count = 2;
    c.enable_monitoring = false;
    let e = estimate_ec2_cost(&c, "us-east-1");
    assert_eq!(e.line_items.len(), 2);
    assert_eq!(e.line_items[0].description, "2 × x9.huge @ $0.1000/hr");
    assert_eq!(e.line_items[0].monthly_cost, 1000 * 730 * 2);
    assert_eq!(e.line_items[1].monthly_cost, 800 * 30 * 2);
    assert_eq!(e.production_addon_cost, 0);
    check_sums(&e);
}

#[test]
fn ec2_large_counts_do_not_overflow() {
    let mut c = Ec2Config::default();
    c.instance_type = "m5.xlarge".to_string();
    c.volume_type = "io2".to_string();
    c.instance_count = u32::MAX;
    c.volume_size_gb = u32::MAX;
    let e = estimate_ec2_cost(&c, "us-east-1");
    let n = u32::MAX as u128;
    assert_eq!(e.line_items[1].monthly_cost, 1250 * n * n);
    check_sums(&e);
}

#[test]
fn ebs_default_estimate() {
    let e = estimate_ebs_cost(&EbsConfig::default(), "us-east-1");
    assert_eq!(e.line_items.len(), 1);
    assert_eq!(e.line_items[0].resource, "Storage");
    assert_eq!(e.line_items[0].description, "100GB gp3 @ $0.08/GB");
    assert_eq!(e.monthly_total, 80000);
    assert_eq!(e.production_addon_cost, 0);
}

#[test]
fn ebs_extra_iops() {
    let mut c = EbsConfig::default();
    c.iops = Some(4000);
    let e = estimate_ebs_cost(&c, "us-east-1");
    assert_eq!(e.line_items.len(), 2);
    assert_eq!(e.line_items[1].resource, "IOPS");
    assert_eq!(e.line_items[1].description, "1000 extra IOPS");
    assert_eq!(e.line_items[1].monthly_cost, 50000);
    assert_eq!(e.monthly_total, 130000);
    assert_eq!(e.production_addon_cost, 0);
}

#[test]
fn ebs_iops_only_count_for_gp3() {
    let mut c = EbsConfig::default();
    c.volume_type = "io2".to_string();
    c.iops = Some(9000);
    c.volume_size_gb = 10;
    let e = estimate_ebs_cost(&c, "us-east-1");
    assert_eq!(e.line_items.len(), 1);
    assert_eq!(e.line_items[0].description, "10GB io2 @ $0.125/GB");
    assert_eq!(e.monthly_total, 12500);
    let mut st = EbsConfig::default();
    st.volume_type = "st1".to_string();
    st.iops = None;
    let e2 = estimate_ebs_cost(&st, "us-east-1");
    assert_eq!(e2.line_items[0].description, "100GB st1 @ $0.045/GB");
    assert_eq!(e2.monthly_total, 45000);
}

#[test]
fn eks_default_estimate() {
    let e = estimate_eks_cost(&EksConfig::default(), "us-east-1");
    assert_eq!(e.line_items.len(), 4);
    assert_eq!(e.line_items[0].resource, "Control Plane");
    assert_eq!(e.line_items[0].description, "$0.10/hr");
    assert_eq!(e.line_items[0].monthly_cost, 730000);
    assert_eq!(e.line_items[1].description, "3 × m5.xlarge");
    assert_eq!(e.line_items[1].monthly_cost, 4204800);
    assert_eq!(e.line_items[2].description, "3 NATs");
    assert_eq!(e.line_items[2].monthly_cost, 985500);
    assert!(e.line_items[2].is_production_addon);
    assert_eq!(e.line_items[3].service, "ELB");
    assert_eq!(e.line_items[3].description, "Base + LCU");
    assert_eq!(e.monthly_total, 6140300);
    assert_eq!(e.production_addon_cost, 985500);
    check_sums(&e);
}

#[test]
fn eks_single_az_with_endpoints() {
    let mut c = EksConfig::default();
    c.multi_az = false;
    c.enable_vpc_endpoints = true;
    c.enable_alb_controller = false;
    c.instance_type = "m5.2xlarge".to_string();
    c.desired_nodes = 1;
    let e = estimate_eks_cost(&c, "us-west-2");
    assert_eq!(e.line_items.len(), 4);
    assert_eq!(e.line_items[1].monthly_cost, 3840 * 730);
    assert_eq!(e.line_items[2].description, "1 NATs");
    assert!(!e.line_items[2].is_production_addon);
    assert_eq!(e.line_items[3].description, "4 endpoints × 3 AZs");
    assert_eq!(e.production_addon_cost, 876000);
    check_sums(&e);
}

#[test]
fn build_estimate_dispatches_on_kind() {
    let e = estimate_build_cost(&BuildConfig::Ebs(EbsConfig::default()), "us-east-1");
    assert_eq!(e.monthly_total, 80000);
    let v = estimate_build_cost(&BuildConfig::Vpc(VpcConfig::default()), "us-east-1");
    assert_eq!(v.monthly_total, 1035500);
}

#[test]
fn region_does_not_change_prices() {
    let a = estimate_eks_cost(&EksConfig::default(), "us-east-1");
    let b = estimate_eks_cost(&EksConfig::default(), "eu-west-1");
    assert_eq!(a, b);
}

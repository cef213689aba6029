//! Monthly cost estimates of builds. Amounts are in hundredths of a cent
//! (ten thousand per dollar), so every price of the rate tables is exact.
use crate::models::{CostEstimate, CostLineItem, Ec2Config, EbsConfig, EksConfig, EstimateView, LineItemView, VpcConfig, item_views};
use crate::text::{amount_fixed4, amount_fixed4_string, amount_plain, amount_plain_string, decimal, decimal_string, same_text};
use vstd::prelude::*;

verus! {

/// A line item with the given texts, cost and add-on flag.
pub open spec fn line(
    service: Seq<char>,
    resource: Seq<char>,
    description: Seq<char>,
    monthly_cost: nat,
    is_production_addon: bool,
) -> LineItemView {
    LineItemView { service, resource, description, monthly_cost, is_production_addon }
}

/// The sum of the monthly costs of the items.
pub open spec fn total_cost(items: Seq<LineItemView>) -> nat
    decreases items.len(),
{
    if items.len() == 0 {
        0
    } else {
        total_cost(items.drop_last()) + items.last().monthly_cost
    }
}

/// The sum of the monthly costs of the items that are production add-ons.
pub open spec fn addon_cost(items: Seq<LineItemView>) -> nat
    decreases items.len(),
{
    if items.len() == 0 {
        0
    } else {
        addon_cost(items.drop_last()) + (if items.last().is_production_addon {
            items.last().monthly_cost
        } else {
            0
        })
    }
}

/// An estimate in US dollars made of the given items: the total is the sum of
/// all items and the add-on cost the sum of the production add-ons.
pub open spec fn estimate_of(items: Seq<LineItemView>) -> EstimateView {
    EstimateView {
        monthly_total: total_cost(items),
        line_items: items,
        production_addon_cost: addon_cost(items),
        currency: "USD"@,
    }
}

/// An estimate made of the given items that counts none of them as a production add-on.
pub open spec fn estimate_without_addons(items: Seq<LineItemView>) -> EstimateView {
    EstimateView { production_addon_cost: 0, ..estimate_of(items) }
}

/// The items in `s` when `b` holds, none otherwise.
pub open spec fn when(b: bool, s: Seq<LineItemView>) -> Seq<LineItemView> {
    if b {
        s
    } else {
        Seq::empty()
    }
}

/// Cost of a NAT gateway for a month: $0.045 an hour for 730 hours.
pub open spec fn nat_gateway_monthly() -> nat {
    328500
}

// ---------------------------------------------------------------- VPC

/// How many NAT gateways a VPC gets: one when shared, else one per AZ.
pub open spec fn vpc_nat_count(c: VpcConfig) -> nat {
    if c.single_nat_gateway {
        1
    } else {
        c.az_count as nat
    }
}

/// The priced items of a VPC build.
pub open spec fn vpc_line_items(c: VpcConfig) -> Seq<LineItemView> {
    let n = vpc_nat_count(c);
    when(
        c.enable_nat_gateway,
        seq![
            line(
                "VPC"@,
                "NAT Gateway"@,
                decimal(n) + " NAT(s) × $0.045/hr"@,
                nat_gateway_monthly() * n,
                !c.single_nat_gateway && n > 1,
            ),
        ],
    ) + when(
        c.enable_flow_logs,
        seq![line("CloudWatch"@, "Flow Logs"@, "~10GB/mo ingestion"@, 50000, true)],
    ) + when(
        c.enable_vpc_endpoints,
        seq![
            line(
                "VPC"@,
                "Endpoints"@,
                "4 endpoints × "@ + decimal(c.az_count as nat) + " AZs"@,
                292000 * (c.az_count as nat),
                true,
            ),
        ],
    )
}

// ---------------------------------------------------------------- rate tables

/// Hourly price of an EC2 instance type; unknown types cost $0.10.
pub open spec fn ec2_hourly_rate(t: Seq<char>) -> nat {
    if t == "t3.micro"@ {
        104
    } else if t == "t3.small"@ {
        208
    } else if t == "t3.medium"@ {
        416
    } else if t == "t3.large"@ {
        832
    } else if t == "m5.large"@ {
        960
    } else if t == "m5.xlarge"@ {
        1920
    } else if t == "c5.large"@ {
        850
    } else if t == "c5.xlarge"@ {
        1700
    } else if t == "r5.large"@ {
        1260
    } else {
        1000
    }
}

/// Monthly price per GB of the volume attached to an EC2 instance; unknown types are priced as gp3.
pub open spec fn ec2_volume_rate(t: Seq<char>) -> nat {
    if t == "gp3"@ {
        800
    } else if t == "gp2"@ {
        1000
    } else if t == "io2"@ {
        1250
    } else {
        800
    }
}

/// Monthly price per GB of an EBS volume; unknown types are priced as gp3.
pub open spec fn ebs_volume_rate(t: Seq<char>) -> nat {
    if t == "gp3"@ {
        800
    } else if t == "gp2"@ {
        1000
    } else if t == "io2"@ {
        1250
    } else if t == "st1"@ {
        450
    } else {
        800
    }
}

/// Hourly price of an EKS worker node type; unknown types are priced as m5.xlarge.
pub open spec fn eks_node_hourly_rate(t: Seq<char>) -> nat {
    if t == "t3.large"@ {
        832
    } else if t == "m5.large"@ {
        960
    } else if t == "m5.xlarge"@ {
        1920
    } else if t == "m5.2xlarge"@ {
        3840
    } else if t == "c5.xlarge"@ {
        1700
    } else {
        1920
    }
}

fn ec2_hourly_rate_of(t: &str) -> (r: u128)
    ensures
        r == ec2_hourly_rate(t@),
{
    if same_text(t, "t3.micro") {
        104
    } else if same_text(t, "t3.small") {
        208
    } else if same_text(t, "t3.medium") {
        416
    } else if same_text(t, "t3.large") {
        832
    } else if same_text(t, "m5.large") {
        960
    } else if same_text(t, "m5.xlarge") {
        1920
    } else if same_text(t, "c5.large") {
        850
    } else if same_text(t, "c5.xlarge") {
        1700
    } else if same_text(t, "r5.large") {
        1260
    } else {
        1000
    }
}

fn ec2_volume_rate_of(t: &str) -> (r: u128)
    ensures
        r == ec2_volume_rate(t@),
{
    if same_text(t, "gp3") {
        800
    } else if same_text(t, "gp2") {
        1000
    } else if same_text(t, "io2") {
        1250
    } else {
        800
    }
}

fn ebs_volume_rate_of(t: &str) -> (r: u128)
    ensures
        r == ebs_volume_rate(t@),
{
    if same_text(t, "gp3") {
        800
    } else if same_text(t, "gp2") {
        1000
    } else if same_text(t, "io2") {
        1250
    } else if same_text(t, "st1") {
        450
    } else {
        800
    }
}

fn eks_node_hourly_rate_of(t: &str) -> (r: u128)
    ensures
        r == eks_node_hourly_rate(t@),
{
    if same_text(t, "t3.large") {
        832
    } else if same_text(t, "m5.large") {
        960
    } else if same_text(t, "m5.xlarge") {
        1920
    } else if same_text(t, "m5.2xlarge") {
        3840
    } else if same_text(t, "c5.xlarge") {
        1700
    } else {
        1920
    }
}

// ---------------------------------------------------------------- EC2, EBS, EKS

/// The priced items of an EC2 build.
pub open spec fn ec2_line_items(c: Ec2Config) -> Seq<LineItemView> {
    let h = ec2_hourly_rate(c.instance_type@);
    let n = c.instance_count as nat;
    seq![
        line(
            "EC2"@,
            "Instance"@,
            decimal(n) + " × "@ + c.instance_type@ + " @ $"@ + amount_fixed4(h) + "/hr"@,
            h * 730 * n,
            false,
        ),
        line(
            "EBS"@,
            "Volume"@,
            decimal(c.volume_size_gb as nat) + "GB "@ + c.volume_type@,
            ec2_volume_rate(c.volume_type@) * (c.volume_size_gb as nat) * n,
            false,
        ),
    ] + when(
        c.enable_monitoring,
        seq![line("CloudWatch"@, "Monitoring"@, "Detailed 1-min metrics"@, 35000 * n, true)],
    )
}

/// The priced items of an EBS build: the storage, and the IOPS that a gp3
/// volume has beyond the 3000 it includes.
pub open spec fn ebs_line_items(c: EbsConfig) -> Seq<LineItemView> {
    let rate = ebs_volume_rate(c.volume_type@);
    seq![
        line(
            "EBS"@,
            "Storage"@,
            decimal(c.volume_size_gb as nat) + "GB "@ + c.volume_type@ + " @ $"@ + amount_plain(rate)
                + "/GB"@,
            rate * (c.volume_size_gb as nat),
            false,
        ),
    ] + match c.iops {
        Some(iops) => when(
            c.volume_type@ == "gp3"@ && iops > 3000,
            seq![
                line(
                    "EBS"@,
                    "IOPS"@,
                    decimal((iops - 3000) as nat) + " extra IOPS"@,
                    ((iops - 3000) * 50) as nat,
                    false,
                ),
            ],
        ),
        None => Seq::empty(),
    }
}

/// How many NAT gateways an EKS cluster gets.
pub open spec fn eks_nat_count(c: EksConfig) -> nat {
    if c.multi_az {
        3
    } else {
        1
    }
}

/// The priced items of an EKS build.
pub open spec fn eks_line_items(c: EksConfig) -> Seq<LineItemView> {
    let h = eks_node_hourly_rate(c.instance_type@);
    let n = eks_nat_count(c);
    seq![
        line("EKS"@, "Control Plane"@, "$0.10/hr"@, 730000, false),
        line(
            "EC2"@,
            "Worker Nodes"@,
            decimal(c.desired_nodes as nat) + " × "@ + c.instance_type@,
            h * 730 * (c.desired_nodes as nat),
            false,
        ),
    ] + when(
        c.enable_nat,
        seq![
            line(
                "VPC"@,
                "NAT Gateway"@,
                decimal(n) + " NATs"@,
                nat_gateway_monthly() * n,
                c.multi_az,
            ),
        ],
    ) + when(
        c.enable_vpc_endpoints,
        seq![line("VPC"@, "Endpoints"@, "4 endpoints × 3 AZs"@, 876000, true)],
    ) + when(
        c.enable_alb_controller,
        seq![line("ELB"@, "ALB"@, "Base + LCU"@, 220000, false)],
    )
}

// ---------------------------------------------------------------- sums

/// Cap on the cost of one line item, far above any that the rates can give.
pub open spec fn item_cost_cap() -> nat {
    0x1_0000_0000_0000_0000_0000_0000
}

proof fn lemma_total_bound(items: Seq<LineItemView>)
    requires
        forall|i: int| 0 <= i < items.len() ==> #[trigger] items[i].monthly_cost <= item_cost_cap(),
    ensures
        total_cost(items) <= items.len() * item_cost_cap(),
    decreases items.len(),
{
    if items.len() > 0 {
        let d = items.drop_last();
        assert forall|i: int| 0 <= i < d.len() implies #[trigger] d[i].monthly_cost
            <= item_cost_cap() by {
            assert(d[i] == items[i]);
        }
        lemma_total_bound(d);
        let l = items.len();
        assert((l - 1) * item_cost_cap() + item_cost_cap() == l * item_cost_cap())
            by (nonlinear_arith);
    }
}

proof fn lemma_prefix_sums(items: Seq<LineItemView>, i: int)
    requires
        0 <= i <= items.len(),
    ensures
        total_cost(items.take(i)) <= total_cost(items),
        addon_cost(items.take(i)) <= addon_cost(items),
    decreases items.len(),
{
    if i < items.len() {
        let d = items.drop_last();
        assert(d.take(i) =~= items.take(i));
        lemma_prefix_sums(d, i);
    } else {
        assert(items.take(i) =~= items);
    }
}

/// The production add-ons among some items never cost more than all of them.
pub proof fn lemma_addon_cost_within_total(items: Seq<LineItemView>)
    ensures
        addon_cost(items) <= total_cost(items),
    decreases items.len(),
{
    if items.len() > 0 {
        lemma_addon_cost_within_total(items.drop_last());
    }
}

/// Law: the total of an estimate adds up its items: nothing for no items,
/// an item's cost for that item alone, and the totals of two parts for their
/// concatenation; the add-on cost does the same over the add-ons only.
pub proof fn law_costs_add_up(a: Seq<LineItemView>, b: Seq<LineItemView>, x: LineItemView)
    ensures
        total_cost(Seq::empty()) == 0,
        addon_cost(Seq::empty()) == 0,
        total_cost(seq![x]) == x.monthly_cost,
        addon_cost(seq![x]) == (if x.is_production_addon { x.monthly_cost } else { 0 }),
        total_cost(a + b) == total_cost(a) + total_cost(b),
        addon_cost(a + b) == addon_cost(a) + addon_cost(b),
    decreases b.len(),
{
    assert(seq![x].drop_last() =~= Seq::<LineItemView>::empty());
    assert(total_cost(Seq::<LineItemView>::empty()) == 0);
    assert(addon_cost(Seq::<LineItemView>::empty()) == 0);
    assert(seq![x].last() == x);
    if b.len() == 0 {
        assert(a + b =~= a);
    } else {
        assert((a + b).drop_last() =~= a + b.drop_last());
        law_costs_add_up(a, b.drop_last(), x);
    }
}

/// Adds up the monthly costs of all items and of the production add-ons.
fn sum_costs(items: &Vec<CostLineItem>) -> (r: (u128, u128))
    requires
        total_cost(item_views(items@)) <= u128::MAX,
    ensures
        r.0 == total_cost(item_views(items@)),
        r.1 == addon_cost(item_views(items@)),
{
    let ghost iv = item_views(items@);
    let mut total: u128 = 0;
    let mut addon: u128 = 0;
    let mut i: usize = 0;
    while i < items.len()
        invariant
            iv == item_views(items@),
            total_cost(iv) <= u128::MAX,
            i <= items@.len(),
            total == total_cost(iv.take(i as int)),
            addon == addon_cost(iv.take(i as int)),
        decreases items@.len() - i,
    {
        proof {
            assert(iv.take(i + 1).drop_last() =~= iv.take(i as int));
            lemma_prefix_sums(iv, i + 1);
            lemma_addon_cost_within_total(iv.take(i + 1));
        }
        total = total + items[i].monthly_cost;
        if items[i].is_production_addon {
            addon = addon + items[i].monthly_cost;
        }
        i = i + 1;
    }
    proof {
        assert(iv.take(i as int) =~= iv);
    }
    (total, addon)
}

fn item(
    service: &str,
    resource: &str,
    description: String,
    monthly_cost: u128,
    is_production_addon: bool,
) -> (r: CostLineItem)
    ensures
        r@ == line(service@, resource@, description@, monthly_cost as nat, is_production_addon),
{
    CostLineItem {
        service: String::from_str(service),
        resource: String::from_str(resource),
        description,
        monthly_cost,
        is_production_addon,
    }
}

/// Completes an estimate from its items; the add-ons are summed when `with_addons` holds, counted as nothing otherwise.
fn finish(items: Vec<CostLineItem>, with_addons: bool) -> (e: CostEstimate)
    requires
        items@.len() <= 5,
        forall|i: int| 0 <= i < items@.len() ==> #[trigger] items@[i].monthly_cost <= item_cost_cap(),
    ensures
        e@.monthly_total == total_cost(item_views(items@)),
        e@.line_items == item_views(items@),
        e@.production_addon_cost == (if with_addons {
            addon_cost(item_views(items@))
        } else {
            0
        }),
        e@.currency == "USD"@,
{
    proof {
        let iv = item_views(items@);
        assert forall|i: int| 0 <= i < iv.len() implies #[trigger] iv[i].monthly_cost
            <= item_cost_cap() by {
            assert(iv[i] == items@[i]@);
        }
        lemma_total_bound(iv);
        assert(iv.len() * item_cost_cap() <= 5 * item_cost_cap()) by (nonlinear_arith)
            requires iv.len() <= 5;
    }
    let (total, addon) = sum_costs(&items);
    CostEstimate {
        monthly_total: total,
        line_items: items,
        production_addon_cost: if with_addons { addon } else { 0 },
        currency: String::from_str("USD"),
    }
}

/// Estimates the monthly cost of a VPC: its NAT gateways, flow logs and
/// endpoints. The region does not change the prices.
pub fn estimate_vpc_cost(config: &VpcConfig, _region: &str) -> (e: CostEstimate)
    ensures
        e@ == estimate_of(vpc_line_items(*config)),
{
    let mut items: Vec<CostLineItem> = Vec::new();
    if config.enable_nat_gateway {
        let nat_count: u32 = if config.single_nat_gateway {
            1
        } else {
            config.az_count as u32
        };
        let mut d = decimal_string(nat_count as u128);
        d.append(" NAT(s) × $0.045/hr");
        items.push(
            item(
                "VPC",
                "NAT Gateway",
                d,
                328500 * nat_count as u128,
                !config.single_nat_gateway && nat_count > 1,
            ),
        );
    }
    proof {
        assert(item_views(items@) =~= when(
            config.enable_nat_gateway,
            seq![
                line(
                    "VPC"@,
                    "NAT Gateway"@,
                    decimal(vpc_nat_count(*config)) + " NAT(s) × $0.045/hr"@,
                    nat_gateway_monthly() * vpc_nat_count(*config),
                    !config.single_nat_gateway && vpc_nat_count(*config) > 1,
                ),
            ],
        ));
    }
    let ghost first = item_views(items@);
    if config.enable_flow_logs {
        items.push(
            item("CloudWatch", "Flow Logs", String::from_str("~10GB/mo ingestion"), 50000, true),
        );
    }
    proof {
        assert(item_views(items@) =~= first + when(
            config.enable_flow_logs,
            seq![line("CloudWatch"@, "Flow Logs"@, "~10GB/mo ingestion"@, 50000, true)],
        ));
    }
    let ghost second = item_views(items@);
    if config.enable_vpc_endpoints {
        let mut d = String::from_str("4 endpoints × ");
        let az = decimal_string(config.az_count as u128);
        d.append(az.as_str());
        d.append(" AZs");
        items.push(item("VPC", "Endpoints", d, 292000 * config.az_count as u128, true));
    }
    proof {
        assert(item_views(items@) =~= second + when(
            config.enable_vpc_endpoints,
            seq![
                line(
                    "VPC"@,
                    "Endpoints"@,
                    "4 endpoints × "@ + decimal(config.az_count as nat) + " AZs"@,
                    292000 * (config.az_count as nat),
                    true,
                ),
            ],
        ));
        assert(item_views(items@) =~= vpc_line_items(*config));
    }
    finish(items, true)
}

/// Estimates the monthly cost of EC2 instances: the instances, their volumes
/// and, when enabled, detailed monitoring. The region does not change the prices.
pub fn estimate_ec2_cost(config: &Ec2Config, _region: &str) -> (e: CostEstimate)
    ensures
        e@ == estimate_of(ec2_line_items(*config)),
{
    let ghost c = *config;
    let count: u128 = config.instance_count as u128;
    let hourly: u128 = ec2_hourly_rate_of(config.instance_type.as_str());
    let mut items: Vec<CostLineItem> = Vec::new();
    let mut d = decimal_string(count);
    d.append(" × ");
    d.append(config.instance_type.as_str());
    d.append(" @ $");
    let rate_text = amount_fixed4_string(hourly);
    d.append(rate_text.as_str());
    d.append("/hr");
    assert(hourly * 730 * count <= 1920 * 730 * 0xffff_ffff) by (nonlinear_arith)
        requires hourly <= 1920, count <= 0xffff_ffff;
    items.push(item("EC2", "Instance", d, hourly * 730 * count, false));
    let volume_rate: u128 = ec2_volume_rate_of(config.volume_type.as_str());
    let size: u128 = config.volume_size_gb as u128;
    let mut v = decimal_string(size);
    v.append("GB ");
    v.append(config.volume_type.as_str());
    assert(volume_rate * size * count <= 1250 * 0xffff_ffff * 0xffff_ffff) by (nonlinear_arith)
        requires volume_rate <= 1250, size <= 0xffff_ffff, count <= 0xffff_ffff;
    items.push(item("EBS", "Volume", v, volume_rate * size * count, false));
    if config.enable_monitoring {
        items.push(
            item(
                "CloudWatch",
                "Monitoring",
                String::from_str("Detailed 1-min metrics"),
                35000 * count,
                true,
            ),
        );
    }
    proof {
        assert(item_views(items@) =~= ec2_line_items(c));
    }
    finish(items, true)
}

/// Estimates the monthly cost of an EBS volume: its storage and, for gp3,
/// the IOPS beyond the 3000 included. An EBS estimate has no production add-ons.
pub fn estimate_ebs_cost(config: &EbsConfig, _region: &str) -> (e: CostEstimate)
    ensures
        e@ == estimate_without_addons(ebs_line_items(*config)),
{
    let ghost c = *config;
    let rate: u128 = ebs_volume_rate_of(config.volume_type.as_str());
    let size: u128 = config.volume_size_gb as u128;
    let mut items: Vec<CostLineItem> = Vec::new();
    let mut d = decimal_string(size);
    d.append("GB ");
    d.append(config.volume_type.as_str());
    d.append(" @ $");
    let rate_text = amount_plain_string(rate);
    d.append(rate_text.as_str());
    d.append("/GB");
    assert(rate * size <= 1250 * 0xffff_ffff) by (nonlinear_arith)
        requires rate <= 1250, size <= 0xffff_ffff;
    items.push(item("EBS", "Storage", d, rate * size, false));
    let ghost first = item_views(items@);
    if let Some(iops) = config.iops {
        if same_text(config.volume_type.as_str(), "gp3") && iops > 3000 {
            let extra: u128 = (iops - 3000) as u128;
            let mut x = decimal_string(extra);
            x.append(" extra IOPS");
            items.push(item("EBS", "IOPS", x, extra * 50, false));
        }
    }
    proof {
        assert(item_views(items@) =~= ebs_line_items(c));
    }
    finish(items, false)
}

/// Estimates the monthly cost of an EKS cluster: control plane, worker nodes,
/// NAT gateways, VPC endpoints and the load balancer controller. The region
/// does not change the prices.
pub fn estimate_eks_cost(config: &EksConfig, _region: &str) -> (e: CostEstimate)
    ensures
        e@ == estimate_of(eks_line_items(*config)),
{
    let ghost c = *config;
    let mut items: Vec<CostLineItem> = Vec::new();
    items.push(item("EKS", "Control Plane", String::from_str("$0.10/hr"), 730000, false));
    let hourly: u128 = eks_node_hourly_rate_of(config.instance_type.as_str());
    let nodes: u128 = config.desired_nodes as u128;
    let mut d = decimal_string(nodes);
    d.append(" × ");
    d.append(config.instance_type.as_str());
    assert(hourly * 730 * nodes <= 3840 * 730 * 0xffff_ffff) by (nonlinear_arith)
        requires hourly <= 3840, nodes <= 0xffff_ffff;
    items.push(item("EC2", "Worker Nodes", d, hourly * 730 * nodes, false));
    let ghost base = item_views(items@);
    if config.enable_nat {
        let nat_count: u128 = if config.multi_az {
            3
        } else {
            1
        };
        let mut n = decimal_string(nat_count);
        n.append(" NATs");
        items.push(item("VPC", "NAT Gateway", n, 328500 * nat_count, config.multi_az));
    }
    let ghost with_nat = item_views(items@);
    if config.enable_vpc_endpoints {
        items.push(
            item("VPC", "Endpoints", String::from_str("4 endpoints × 3 AZs"), 876000, true),
        );
    }
    let ghost with_endpoints = item_views(items@);
    if config.enable_alb_controller {
        items.push(item("ELB", "ALB", String::from_str("Base + LCU"), 220000, false));
    }
    proof {
        assert(with_nat =~= base + when(
            c.enable_nat,
            seq![
                line(
                    "VPC"@,
                    "NAT Gateway"@,
                    decimal(eks_nat_count(c)) + " NATs"@,
                    nat_gateway_monthly() * eks_nat_count(c),
                    c.multi_az,
                ),
            ],
        ));
        assert(with_endpoints =~= with_nat + when(
            c.enable_vpc_endpoints,
            seq![line("VPC"@, "Endpoints"@, "4 endpoints × 3 AZs"@, 876000, true)],
        ));
        assert(item_views(items@) =~= eks_line_items(c));
    }
    finish(items, true)
}

} // verus!

verus! {

// ---------------------------------------------------------------- laws on prices

proof fn lemma_ec2_rate_table()
    ensures
        ec2_hourly_rate("t3.micro"@) == 104,
        ec2_hourly_rate("t3.small"@) == 208,
        ec2_hourly_rate("t3.medium"@) == 416,
        ec2_hourly_rate("t3.large"@) == 832,
        ec2_hourly_rate("m5.large"@) == 960,
        ec2_hourly_rate("m5.xlarge"@) == 1920,
        ec2_hourly_rate("c5.large"@) == 850,
        ec2_hourly_rate("c5.xlarge"@) == 1700,
        ec2_hourly_rate("r5.large"@) == 1260,
{
    reveal_strlit("t3.micro");
    reveal_strlit("t3.small");
    reveal_strlit("t3.medium");
    reveal_strlit("t3.large");
    reveal_strlit("m5.large");
    reveal_strlit("m5.xlarge");
    reveal_strlit("c5.large");
    reveal_strlit("c5.xlarge");
    reveal_strlit("r5.large");
    assert("t3.small"@[3] != "t3.micro"@[3]);
    assert("t3.medium"@[4] != "t3.micro"@[4]);
    assert("t3.medium"@[3] != "t3.small"@[3]);
    assert("t3.large"@[3] != "t3.micro"@[3]);
    assert("t3.large"@[3] != "t3.small"@[3]);
    assert("t3.large"@[3] != "t3.medium"@[3]);
    assert("m5.large"@[0] != "t3.micro"@[0]);
    assert("m5.large"@[0] != "t3.small"@[0]);
    assert("m5.large"@[0] != "t3.medium"@[0]);
    assert("m5.large"@[0] != "t3.large"@[0]);
    assert("m5.xlarge"@[0] != "t3.micro"@[0]);
    assert("m5.xlarge"@[0] != "t3.small"@[0]);
    assert("m5.xlarge"@[0] != "t3.medium"@[0]);
    assert("m5.xlarge"@[0] != "t3.large"@[0]);
    assert("m5.xlarge"@[3] != "m5.large"@[3]);
    assert("c5.large"@[0] != "t3.micro"@[0]);
    assert("c5.large"@[0] != "t3.small"@[0]);
    assert("c5.large"@[0] != "t3.medium"@[0]);
    assert("c5.large"@[0] != "t3.large"@[0]);
    assert("c5.large"@[0] != "m5.large"@[0]);
    assert("c5.large"@[0] != "m5.xlarge"@[0]);
    assert("c5.xlarge"@[0] != "t3.micro"@[0]);
    assert("c5.xlarge"@[0] != "t3.small"@[0]);
    assert("c5.xlarge"@[0] != "t3.medium"@[0]);
    assert("c5.xlarge"@[0] != "t3.large"@[0]);
    assert("c5.xlarge"@[0] != "m5.large"@[0]);
    assert("c5.xlarge"@[0] != "m5.xlarge"@[0]);
    assert("c5.xlarge"@[3] != "c5.large"@[3]);
    assert("r5.large"@[0] != "t3.micro"@[0]);
    assert("r5.large"@[0] != "t3.small"@[0]);
    assert("r5.large"@[0] != "t3.medium"@[0]);
    assert("r5.large"@[0] != "t3.large"@[0]);
    assert("r5.large"@[0] != "m5.large"@[0]);
    assert("r5.large"@[0] != "m5.xlarge"@[0]);
    assert("r5.large"@[0] != "c5.large"@[0]);
    assert("r5.large"@[0] != "c5.xlarge"@[0]);
}

proof fn lemma_volume_rate_tables()
    ensures
        ec2_volume_rate("gp3"@) == 800,
        ec2_volume_rate("gp2"@) == 1000,
        ec2_volume_rate("io2"@) == 1250,
        ebs_volume_rate("gp3"@) == 800,
        ebs_volume_rate("gp2"@) == 1000,
        ebs_volume_rate("io2"@) == 1250,
        ebs_volume_rate("st1"@) == 450,
{
    reveal_strlit("gp3");
    reveal_strlit("gp2");
    reveal_strlit("io2");
    reveal_strlit("st1");
    assert("gp2"@[2] != "gp3"@[2]);
    assert("io2"@[0] != "gp3"@[0]);
    assert("io2"@[0] != "gp2"@[0]);
    assert("st1"@[0] != "gp3"@[0]);
    assert("st1"@[0] != "gp2"@[0]);
    assert("st1"@[0] != "io2"@[0]);
}

proof fn lemma_eks_rate_table()
    ensures
        eks_node_hourly_rate("t3.large"@) == 832,
        eks_node_hourly_rate("m5.large"@) == 960,
        eks_node_hourly_rate("m5.xlarge"@) == 1920,
        eks_node_hourly_rate("m5.2xlarge"@) == 3840,
        eks_node_hourly_rate("c5.xlarge"@) == 1700,
{
    reveal_strlit("t3.large");
    reveal_strlit("m5.large");
    reveal_strlit("m5.xlarge");
    reveal_strlit("m5.2xlarge");
    reveal_strlit("c5.xlarge");
    assert("m5.large"@[0] != "t3.large"@[0]);
    assert("m5.xlarge"@[0] != "t3.large"@[0]);
    assert("m5.xlarge"@[3] != "m5.large"@[3]);
    assert("m5.2xlarge"@[0] != "t3.large"@[0]);
    assert("m5.2xlarge"@[3] != "m5.large"@[3]);
    assert("m5.2xlarge"@[3] != "m5.xlarge"@[3]);
    assert("c5.xlarge"@[0] != "t3.large"@[0]);
    assert("c5.xlarge"@[0] != "m5.large"@[0]);
    assert("c5.xlarge"@[0] != "m5.xlarge"@[0]);
    assert("c5.xlarge"@[0] != "m5.2xlarge"@[0]);
}

/// Law: an EKS estimate prices the control plane at $0.10 an hour and each
/// desired worker node at the hourly price of its type ($0.0832 for t3.large,
/// $0.096 for m5.large, $0.192 for m5.xlarge, $0.384 for m5.2xlarge, $0.17 for
/// c5.xlarge, $0.192 for any other type) for 730 hours; neither is an add-on.
pub proof fn law_eks_node_prices(c: EksConfig)
    ensures
        ({
            let items = estimate_of(eks_line_items(c)).line_items;
            &&& items.len() >= 2
            &&& items[0].service == "EKS"@ && items[0].resource == "Control Plane"@
            &&& items[0].description == "$0.10/hr"@
            &&& items[0].monthly_cost == 730000
            &&& !items[0].is_production_addon
            &&& items[1].service == "EC2"@ && items[1].resource == "Worker Nodes"@
            &&& items[1].description == decimal(c.desired_nodes as nat) + " × "@ + c.instance_type@
            &&& !items[1].is_production_addon
            &&& c.instance_type@ == "t3.large"@ ==> items[1].monthly_cost == 832 * 730
                * c.desired_nodes
            &&& c.instance_type@ == "m5.large"@ ==> items[1].monthly_cost == 960 * 730
                * c.desired_nodes
            &&& c.instance_type@ == "m5.xlarge"@ ==> items[1].monthly_cost == 1920 * 730
                * c.desired_nodes
            &&& c.instance_type@ == "m5.2xlarge"@ ==> items[1].monthly_cost == 3840 * 730
                * c.desired_nodes
            &&& c.instance_type@ == "c5.xlarge"@ ==> items[1].monthly_cost == 1700 * 730
                * c.desired_nodes
            &&& !(c.instance_type@ == "t3.large"@ || c.instance_type@ == "m5.large"@
                || c.instance_type@ == "m5.xlarge"@ || c.instance_type@ == "m5.2xlarge"@
                || c.instance_type@ == "c5.xlarge"@) ==> items[1].monthly_cost == 1920 * 730
                * c.desired_nodes
        }),
{
    lemma_eks_rate_table();
}

/// Law: an EKS estimate's optional items: NAT gateways at $0.045 an hour each,
/// three of them (an add-on) for a multi-AZ cluster and one otherwise; VPC
/// endpoints at $87.60 a month (an add-on); the ALB controller at $22 a month.
/// Each is there exactly when it is enabled, in that order after the nodes.
pub proof fn law_eks_optional_prices(c: EksConfig)
    ensures
        ({
            let items = estimate_of(eks_line_items(c)).line_items;
            let k = 2 + (if c.enable_nat { 1int } else { 0 });
            let j = k + (if c.enable_vpc_endpoints { 1int } else { 0 });
            &&& items.len() == j + (if c.enable_alb_controller { 1int } else { 0 })
            &&& c.enable_nat ==> items[2].service == "VPC"@ && items[2].description == decimal(
                (if c.multi_az { 3nat } else { 1nat }),
            ) + " NATs"@
            &&& c.enable_nat ==> items[2].resource == "NAT Gateway"@ && items[2].monthly_cost == (
            if c.multi_az {
                3 * 328500
            } else {
                328500
            }) && items[2].is_production_addon == c.multi_az
            &&& c.enable_vpc_endpoints ==> items[k].resource == "Endpoints"@
                && items[k].monthly_cost == 876000 && items[k].is_production_addon
                && items[k].service == "VPC"@ && items[k].description == "4 endpoints × 3 AZs"@
            &&& c.enable_alb_controller ==> items[j].resource == "ALB"@ && items[j].monthly_cost
                == 220000 && !items[j].is_production_addon && items[j].service == "ELB"@
                && items[j].description == "Base + LCU"@
        }),
{
}

/// Law: an EC2 estimate prices each instance at the hourly price of its type
/// ($0.0104 t3.micro, $0.0208 t3.small, $0.0416 t3.medium, $0.0832 t3.large,
/// $0.096 m5.large, $0.192 m5.xlarge, $0.085 c5.large, $0.17 c5.xlarge,
/// $0.126 r5.large, $0.10 any other) for 730 hours, times the instance count;
/// each instance's volume per GB-month ($0.08 gp3, $0.10 gp2, $0.125 io2, $0.08
/// any other); and detailed monitoring, when enabled, at $3.50 per instance as
/// the only production add-on.
pub proof fn law_ec2_prices(c: Ec2Config)
    ensures
        ({
            let e = estimate_of(ec2_line_items(c));
            let items = e.line_items;
            let n = c.instance_count as int;
            let t = c.instance_type@;
            let v = c.volume_type@;
            let size = c.volume_size_gb as int;
            &&& items.len() == (if c.enable_monitoring { 3int } else { 2 })
            &&& items[0].service == "EC2"@ && items[0].resource == "Instance"@
            &&& !items[0].is_production_addon
            &&& items[0].description == decimal(n as nat) + " × "@ + t + " @ $"@ + amount_fixed4(
                ec2_hourly_rate(t),
            ) + "/hr"@
            &&& t == "t3.micro"@ ==> items[0].monthly_cost == 104 * 730 * n
            &&& t == "t3.small"@ ==> items[0].monthly_cost == 208 * 730 * n
            &&& t == "t3.medium"@ ==> items[0].monthly_cost == 416 * 730 * n
            &&& t == "t3.large"@ ==> items[0].monthly_cost == 832 * 730 * n
            &&& t == "m5.large"@ ==> items[0].monthly_cost == 960 * 730 * n
            &&& t == "m5.xlarge"@ ==> items[0].monthly_cost == 1920 * 730 * n
            &&& t == "c5.large"@ ==> items[0].monthly_cost == 850 * 730 * n
            &&& t == "c5.xlarge"@ ==> items[0].monthly_cost == 1700 * 730 * n
            &&& t == "r5.large"@ ==> items[0].monthly_cost == 1260 * 730 * n
            &&& !(t == "t3.micro"@ || t == "t3.small"@ || t == "t3.medium"@ || t == "t3.large"@
                || t == "m5.large"@ || t == "m5.xlarge"@ || t == "c5.large"@ || t == "c5.xlarge"@
                || t == "r5.large"@) ==> items[0].monthly_cost == 1000 * 730 * n
            &&& items[1].service == "EBS"@ && items[1].resource == "Volume"@
            &&& !items[1].is_production_addon
            &&& items[1].description == decimal(size as nat) + "GB "@ + v
            &&& v == "gp2"@ ==> items[1].monthly_cost == 1000 * size * n
            &&& v == "io2"@ ==> items[1].monthly_cost == 1250 * size * n
            &&& !(v == "gp2"@ || v == "io2"@) ==> items[1].monthly_cost == 800 * size * n
            &&& c.enable_monitoring ==> items[2].resource == "Monitoring"@ && items[2].monthly_cost
                == 35000 * n && items[2].is_production_addon && items[2].service == "CloudWatch"@
                && items[2].description == "Detailed 1-min metrics"@
            &&& e.production_addon_cost == (if c.enable_monitoring { 35000 * n } else { 0 })
            &&& e.monthly_total == items[0].monthly_cost + items[1].monthly_cost + (
            if c.enable_monitoring {
                35000 * n
            } else {
                0
            })
        }),
{
    lemma_ec2_rate_table();
    lemma_volume_rate_tables();
    let items = ec2_line_items(c);
    reveal_with_fuel(total_cost, 4);
    reveal_with_fuel(addon_cost, 4);
    if c.enable_monitoring {
        assert(items.drop_last().drop_last() =~= seq![items[0]]);
        assert(items.drop_last().drop_last().drop_last() =~= Seq::<LineItemView>::empty());
    } else {
        assert(items.drop_last() =~= seq![items[0]]);
        assert(items.drop_last().drop_last() =~= Seq::<LineItemView>::empty());
    }
}

/// Law: an EBS estimate prices storage per GB-month by volume type ($0.08 gp3,
/// $0.10 gp2, $0.125 io2, $0.045 st1, $0.08 any other), and, for a gp3 volume
/// with more than 3000 IOPS, the IOPS beyond 3000 at $0.005 each; nothing else.
pub proof fn law_ebs_prices(c: EbsConfig)
    ensures
        ({
            let e = estimate_without_addons(ebs_line_items(c));
            let items = e.line_items;
            let v = c.volume_type@;
            let size = c.volume_size_gb as int;
            let extra = match c.iops {
                Some(i) => v == "gp3"@ && i > 3000,
                None => false,
            };
            &&& items.len() == (if extra { 2int } else { 1 })
            &&& items[0].service == "EBS"@ && items[0].resource == "Storage"@
            &&& !items[0].is_production_addon
            &&& items[0].description == decimal(size as nat) + "GB "@ + v + " @ $"@ + amount_plain(
                ebs_volume_rate(v),
            ) + "/GB"@
            &&& v == "gp2"@ ==> items[0].monthly_cost == 1000 * size
            &&& v == "io2"@ ==> items[0].monthly_cost == 1250 * size
            &&& v == "st1"@ ==> items[0].monthly_cost == 450 * size
            &&& !(v == "gp2"@ || v == "io2"@ || v == "st1"@) ==> items[0].monthly_cost == 800 * size
            &&& extra ==> items[1].resource == "IOPS"@ && items[1].monthly_cost == (c.iops->0
                - 3000) * 50 && items[1].service == "EBS"@ && items[1].description == decimal(
                (c.iops->0 - 3000) as nat,
            ) + " extra IOPS"@
            &&& e.production_addon_cost == 0
            &&& e.monthly_total == items[0].monthly_cost + (if extra {
                items[1].monthly_cost
            } else {
                0
            })
        }),
{
    lemma_volume_rate_tables();
    let items = ebs_line_items(c);
    reveal_with_fuel(total_cost, 3);
    if items.len() == 2 {
        assert(items.drop_last() =~= seq![items[0]]);
        assert(items.drop_last().drop_last() =~= Seq::<LineItemView>::empty());
    } else {
        assert(items.drop_last() =~= Seq::<LineItemView>::empty());
    }
}

/// Law: a VPC estimate prices NAT gateways at $0.045 an hour for 730 hours, one
/// gateway when shared and one per AZ otherwise; flow logs at $5 a month; and
/// VPC endpoints at four endpoints of $0.01 an hour per AZ, i.e. $29.20 a month
/// per AZ. Each item is there exactly when enabled, in that order; flow logs
/// and endpoints are add-ons, and so are NAT gateways when there are several.
pub proof fn law_vpc_prices(c: VpcConfig)
    ensures
        ({
            let items = estimate_of(vpc_line_items(c)).line_items;
            let gateways = if c.single_nat_gateway { 1int } else { c.az_count as int };
            let f = if c.enable_nat_gateway { 1int } else { 0 };
            let g = f + (if c.enable_flow_logs { 1int } else { 0 });
            &&& items.len() == g + (if c.enable_vpc_endpoints { 1int } else { 0 })
            &&& c.enable_nat_gateway ==> items[0].service == "VPC"@ && items[0].description
                == decimal(gateways as nat) + " NAT(s) × $0.045/hr"@
            &&& c.enable_nat_gateway ==> items[0].resource == "NAT Gateway"@
                && items[0].monthly_cost == 328500 * gateways && items[0].is_production_addon == (
            !c.single_nat_gateway && c.az_count > 1)
            &&& c.enable_flow_logs ==> items[f].resource == "Flow Logs"@ && items[f].monthly_cost
                == 50000 && items[f].is_production_addon && items[f].service == "CloudWatch"@
                && items[f].description == "~10GB/mo ingestion"@
            &&& c.enable_vpc_endpoints ==> items[g].resource == "Endpoints"@
                && items[g].monthly_cost == 292000 * c.az_count && items[g].is_production_addon
                && items[g].service == "VPC"@ && items[g].description == "4 endpoints × "@
                + decimal(c.az_count as nat) + " AZs"@
        }),
{
}

/// Law: for the same number of worker nodes, t3.large nodes cost less than
/// m5.xlarge nodes.
pub proof fn law_eks_node_price_order(a: EksConfig, b: EksConfig)
    requires
        a.desired_nodes == b.desired_nodes,
        a.desired_nodes > 0,
        a.instance_type@ == "t3.large"@,
        b.instance_type@ == "m5.xlarge"@,
    ensures
        estimate_of(eks_line_items(a)).line_items[1].monthly_cost < estimate_of(
            eks_line_items(b),
        ).line_items[1].monthly_cost,
{
    law_eks_node_prices(a);
    law_eks_node_prices(b);
    assert(832 * 730 * a.desired_nodes < 1920 * 730 * a.desired_nodes) by (nonlinear_arith)
        requires a.desired_nodes > 0;
}

} // verus!

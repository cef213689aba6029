use infra_shared::why::get_explanations_for_build_type;

#[test]
fn explanation_counts() {
    assert_eq!(get_explanations_for_build_type("eks").len(), 9);
    assert_eq!(get_explanations_for_build_type("vpc").len(), 4);
    assert_eq!(get_explanations_for_build_type("ec2").len(), 4);
    assert_eq!(get_explanations_for_build_type("ebs").len(), 1);
    assert!(get_explanations_for_build_type("EKS").is_empty());
    assert!(get_explanations_for_build_type("").is_empty());
}

#[test]
fn explanation_contents() {
    let eks = get_explanations_for_build_type("eks");
    assert_eq!(eks[1].decision, "Private networking");
    assert_eq!(eks[1].additional_cost, 320000);
    assert_eq!(eks[1].risk_level, "High");
    assert_eq!(eks[5].additional_cost, 450000);
    let vpc = get_explanations_for_build_type("vpc");
    assert_eq!(vpc[1].reason, "Each AZ has its own NAT. One AZ down doesn't kill outbound.");
    assert_eq!(vpc[3].additional_cost, 870000);
    let ec2 = get_explanations_for_build_type("ec2");
    assert_eq!(ec2[1].additional_cost, 35000);
    let ebs = get_explanations_for_build_type("ebs");
    assert_eq!(ebs[0].decision, "Encryption at rest");
    assert_eq!(ebs[0].additional_cost, 0);
}

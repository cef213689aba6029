use infra_shared::text::{
    amount_fixed4_string, amount_plain_string, decimal_string, format_money, same_text,
};

#[test]
fn format_money_groups_thousands() {
    assert_eq!(format_money(1234567), "1,234,567");
}

#[test]
fn format_money_small_amounts() {
    assert_eq!(format_money(0), "0");
    assert_eq!(format_money(7), "7");
    assert_eq!(format_money(999), "999");
    assert_eq!(format_money(1000), "1,000");
    assert_eq!(format_money(100000), "100,000");
}

#[test]
fn format_money_negative() {
    assert_eq!(format_money(-1234), "-1,234");
    assert_eq!(format_money(-5), "-5");
}

#[test]
fn format_money_extremes() {
    assert_eq!(format_money(i64::MAX), "9,223,372,036,854,775,807");
    assert_eq!(format_money(i64::MIN + 1), "-9,223,372,036,854,775,807");
}

#[test]
fn format_money_digits_survive_without_commas() {
    for n in [0i64, 12, 1234, 98765432, -4321] {
        let s = format_money(n);
        let stripped: String = s.chars().filter(|c| *c != ',').collect();
        assert_eq!(stripped, n.to_string());
    }
}

#[test]
fn decimal_rendering() {
    assert_eq!(decimal_string(0), "0");
    assert_eq!(decimal_string(1234), "1234");
    assert_eq!(decimal_string(u128::MAX), u128::MAX.to_string());
}

#[test]
fn four_decimal_amounts() {
    assert_eq!(amount_fixed4_string(104), "0.0104");
    assert_eq!(amount_fixed4_string(1000), "0.1000");
    assert_eq!(amount_fixed4_string(1920), "0.1920");
    assert_eq!(amount_fixed4_string(123456), "12.3456");
}

#[test]
fn shortest_amounts() {
    assert_eq!(amount_plain_string(800), "0.08");
    assert_eq!(amount_plain_string(1000), "0.1");
    assert_eq!(amount_plain_string(1250), "0.125");
    assert_eq!(amount_plain_string(450), "0.045");
    assert_eq!(amount_plain_string(30000), "3");
    assert_eq!(amount_plain_string(30001), "3.0001");
}

#[test]
fn text_comparison() {
    assert!(same_text("gp3", "gp3"));
    assert!(!same_text("gp3", "gp2"));
    assert!(!same_text("gp3", "gp30"));
    assert!(same_text("", ""));
    assert!(same_text("×é", "×é"));
}

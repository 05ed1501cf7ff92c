use zeroclaw::billing::persistence::{balance_file, balance_file_name, billing_dir, join};

#[test]
fn balance_file_layout() {
    assert_eq!(billing_dir("/work"), "/work/billing");
    assert_eq!(billing_dir("/work/"), "/work/billing");
    assert_eq!(balance_file_name("user_a"), "user_a.json");
    assert_eq!(balance_file("/work", "user_a"), "/work/billing/user_a.json");
    assert_eq!(balance_file("", "user_a"), "billing/user_a.json");
    assert_eq!(join("a", "b"), "a/b");
}

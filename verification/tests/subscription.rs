use grpc_stream_template::config::Config;
use grpc_stream_template::subscription::build_subscription;
use grpc_stream_template::subscription::CommitmentLevel;

fn settings(fee_account: &str, program: &str) -> Config {
    Config {
        rust_log_level: "info".to_string(),
        endpoint: "x".to_string(),
        auth_token: "y".to_string(),
        pump_fun_fee_account: fee_account.to_string(),
        pump_fun_program: program.to_string(),
    }
}

#[test]
fn descriptor_requires_exactly_the_two_monitored_addresses() {
    let cfg = settings("FEE1", "PROG1");
    let d = build_subscription(&cfg);
    assert_eq!(d.required_addresses, vec!["FEE1".to_string(), "PROG1".to_string()]);
    assert_eq!(d.commitment, CommitmentLevel::Processed);
}

#[test]
fn descriptor_filters_votes_and_failed_transactions_out() {
    let cfg = settings("FEE1", "PROG1");
    let d = build_subscription(&cfg);
    assert!(!d.include_votes);
    assert!(!d.include_failed);
}

#[test]
fn descriptor_addresses_follow_the_settings() {
    let cfg = settings("feeAAA", "progBBB");
    let d = build_subscription(&cfg);
    assert_eq!(d.required_addresses.len(), 2);
    assert!(d.required_addresses.contains(&"feeAAA".to_string()));
    assert!(d.required_addresses.contains(&"progBBB".to_string()));
}

use passivized_test_support::logging::enable_idempotent;

#[test]
fn idempotent() {
    enable_idempotent();
    enable_idempotent();
}

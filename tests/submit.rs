use cosmos::config::CosmosConfig;
use cosmos::gas::Fixed;
use cosmos::poll::{FinalityPoll, PollAction};
use cosmos::submit::{BroadcastAttempt, Phase, SubmitAction, SubmitError, Submission};

fn attempt(account_number: u64, sequence: u64, gas_limit: u64, fee_amount: u64, tier: u64) -> BroadcastAttempt {
    BroadcastAttempt { account_number, sequence, gas_limit, fee_amount, tier }
}

#[test]
fn submit_simulate_broadcast_and_land() {
    let config = CosmosConfig::default();
    let (mut s, action) = Submission::simulate_first(&config, false, 11, 4);
    assert_eq!(action, SubmitAction::Simulate { sequence: 4 });

    let action = s.on_simulated(Some(100_000));
    assert_eq!(action, SubmitAction::Broadcast(attempt(11, 4, 130_000, 2600, 0)));

    let action = s.on_broadcast_response(0, String::new(), "ABCD".to_owned());
    assert_eq!(action, SubmitAction::AwaitFinality { txhash: "ABCD".to_owned() });

    let (poll, first) = FinalityPoll::begin(config.transaction_attempts);
    assert_eq!(first, PollAction::Query);
    assert_eq!(poll.made, 1);

    let action = s.on_finalized(0, "landed".to_owned());
    assert_eq!(action, SubmitAction::Done);
    assert_eq!(s.phase, Phase::Finished);
}

#[test]
fn submit_retries_insufficient_gas_up_to_high_price() {
    let mut config = CosmosConfig::default();
    config.gas_price_retry_attempts = 2;
    let (mut s, action) = Submission::with_gas(&config, false, 1, 2, 100_000);
    assert_eq!(action, SubmitAction::Broadcast(attempt(1, 2, 100_000, 2000, 0)));

    let action = s.on_broadcast_response(13, "insufficient fee".to_owned(), String::new());
    assert_eq!(action, SubmitAction::Broadcast(attempt(1, 2, 100_000, 2500, 1)));

    let action = s.on_broadcast_response(13, "insufficient fee".to_owned(), String::new());
    // the final tier offers the high price: 100000 * 0.03
    assert_eq!(action, SubmitAction::Broadcast(attempt(1, 2, 100_000, 3000, 2)));

    let action = s.on_broadcast_response(0, String::new(), "FF".to_owned());
    assert_eq!(action, SubmitAction::AwaitFinality { txhash: "FF".to_owned() });
    assert_eq!(s.on_finalized(0, String::new()), SubmitAction::Done);
}

#[test]
fn submit_fails_when_the_high_price_is_insufficient() {
    let mut config = CosmosConfig::default();
    config.gas_price_retry_attempts = 1;
    let (mut s, _) = Submission::with_gas(&config, false, 1, 2, 10);
    s.on_broadcast_response(13, "low".to_owned(), String::new());
    let action = s.on_broadcast_response(13, "still low".to_owned(), String::new());
    assert_eq!(
        action,
        SubmitAction::Fail(SubmitError::Rejected { code: 13, raw_log: "still low".to_owned() })
    );
    assert_eq!(s.phase, Phase::Finished);
}

#[test]
fn submit_uses_sequence_corrected_during_simulation() {
    let config = CosmosConfig::default();
    let (mut s, action) = Submission::simulate_first(&config, false, 9, 0);
    assert_eq!(action, SubmitAction::Simulate { sequence: 0 });

    let action =
        s.on_simulate_failed("account sequence mismatch, expected 9, got 0: incorrect account sequence".to_owned());
    assert_eq!(action, SubmitAction::Simulate { sequence: 9 });

    let action = s.on_simulated(Some(1000));
    assert_eq!(action, SubmitAction::Broadcast(attempt(9, 9, 1300, 26, 0)));
}

#[test]
fn second_sequence_mismatch_in_simulation_is_fatal() {
    let config = CosmosConfig::default();
    let (mut s, _) = Submission::simulate_first(&config, false, 1, 0);
    s.on_simulate_failed("account sequence mismatch, expected 3, got 0".to_owned());
    let msg = "account sequence mismatch, expected 4, got 3".to_owned();
    let action = s.on_simulate_failed(msg.clone());
    assert_eq!(action, SubmitAction::Fail(SubmitError::Simulate { message: msg }));
}

#[test]
fn other_simulation_errors_are_fatal() {
    let config = CosmosConfig::default();
    let (mut s, _) = Submission::simulate_first(&config, false, 1, 0);
    let action = s.on_simulate_failed("out of gas".to_owned());
    assert_eq!(action, SubmitAction::Fail(SubmitError::Simulate { message: "out of gas".to_owned() }));
}

#[test]
fn missing_gas_info_is_fatal() {
    let config = CosmosConfig::default();
    let (mut s, _) = Submission::simulate_first(&config, false, 1, 0);
    assert_eq!(s.on_simulated(None), SubmitAction::Fail(SubmitError::MissingGasInfo));
}

#[test]
fn broadcast_sequence_mismatch_restarts_ladder_once() {
    let config = CosmosConfig::default();
    let (mut s, _) = Submission::with_gas(&config, false, 5, 1, 100_000);
    s.on_broadcast_response(13, String::new(), String::new());
    let action = s.on_broadcast_response(32, "account sequence mismatch, expected 6, got 1".to_owned(), String::new());
    assert_eq!(action, SubmitAction::Broadcast(attempt(5, 6, 100_000, 2000, 0)));
    let log = "account sequence mismatch, expected 7, got 6".to_owned();
    let action = s.on_broadcast_response(32, log.clone(), String::new());
    assert_eq!(action, SubmitAction::Fail(SubmitError::Rejected { code: 32, raw_log: log }));
}

#[test]
fn other_broadcast_codes_are_fatal() {
    let config = CosmosConfig::default();
    let (mut s, _) = Submission::with_gas(&config, false, 5, 1, 100);
    let action = s.on_broadcast_response(5, "insufficient funds".to_owned(), String::new());
    assert_eq!(
        action,
        SubmitAction::Fail(SubmitError::Rejected { code: 5, raw_log: "insufficient funds".to_owned() })
    );
}

#[test]
fn broadcast_transport_failure_is_fatal() {
    let config = CosmosConfig::default();
    let (mut s, _) = Submission::with_gas(&config, false, 5, 1, 100);
    let action = s.on_broadcast_failed("connection reset".to_owned());
    assert_eq!(action, SubmitAction::Fail(SubmitError::Broadcast { message: "connection reset".to_owned() }));
}

#[test]
fn landed_failure_is_never_retried() {
    let config = CosmosConfig::default();
    let (mut s, _) = Submission::with_gas(&config, false, 5, 1, 100);
    s.on_broadcast_response(0, String::new(), "AA".to_owned());
    let log = "account sequence mismatch, expected 2, got 1".to_owned();
    let action = s.on_finalized(32, log.clone());
    assert_eq!(action, SubmitAction::Fail(SubmitError::Failed { code: 32, raw_log: log }));
}

#[test]
fn finality_failure_is_fatal() {
    let config = CosmosConfig::default();
    let (mut s, _) = Submission::with_gas(&config, false, 5, 1, 100);
    s.on_broadcast_response(0, String::new(), "AA".to_owned());
    let action = s.on_finality_failed("timed out".to_owned());
    assert_eq!(action, SubmitAction::Fail(SubmitError::Finality { message: "timed out".to_owned() }));
}

#[test]
fn skipping_the_code_check_accepts_any_code() {
    let config = CosmosConfig::default();
    let (mut s, _) = Submission::with_gas(&config, true, 5, 1, 100);
    let action = s.on_broadcast_response(13, String::new(), "BB".to_owned());
    assert_eq!(action, SubmitAction::AwaitFinality { txhash: "BB".to_owned() });
    assert_eq!(s.on_finalized(7, String::new()), SubmitAction::Done);
}

#[test]
fn zero_retry_attempts_start_at_high_price() {
    let mut config = CosmosConfig::default();
    config.gas_price_retry_attempts = 0;
    config.gas_estimate_multiplier = Fixed::from_nanos(1_000_000_000);
    let (mut s, _) = Submission::simulate_first(&config, false, 1, 1);
    assert_eq!(s.on_simulated(Some(1000)), SubmitAction::Broadcast(attempt(1, 1, 1000, 30, 0)));
    assert_eq!(
        s.on_broadcast_response(13, "x".to_owned(), String::new()),
        SubmitAction::Fail(SubmitError::Rejected { code: 13, raw_log: "x".to_owned() })
    );
}

use avs_coordinator::account::AccountId;
use avs_coordinator::contract::AvsLogic;
use avs_coordinator::contract::CallbackError;
use avs_coordinator::contract::ModelInfo;
use avs_coordinator::contract::Response;
use avs_coordinator::contract::TokenError;

fn attestation() -> AccountId {
    AccountId::new("attestation_center.testnet".to_string())
}

fn submit(contract: &mut AvsLogic, register: Option<Vec<u8>>) -> Result<avs_coordinator::contract::AvsEvent, TokenError> {
    contract.before_task_submission(
        1,
        AccountId::new("performer.testnet".to_string()),
        "proof".to_string(),
        true,
        vec![],
        [0, 0],
        vec![],
        register,
    )
}

#[test]
fn new_contract_is_empty() {
    let contract = AvsLogic::new(attestation());
    assert_eq!(contract.request_id(), 0);
    assert_eq!(contract.attestation_center().text(), "attestation_center.testnet");
    assert!(contract.model_entries().is_empty());
}

#[test]
fn counter_counts_submissions() {
    let mut contract = AvsLogic::new(attestation());
    let token = vec![7u8; 32];
    assert!(submit(&mut contract, Some(token.clone())).is_ok());
    assert_eq!(contract.request_id(), 1);

    // Interleaved registration, resolution and finalization never move the
    // counter; only submissions do.
    contract.register_model(
        AccountId::new("model_owner.testnet".to_string()),
        "my_model".to_string(),
        10,
    );
    let mut yield_id = [0u8; 32];
    yield_id.copy_from_slice(&token);
    contract.respond(yield_id, "answer".to_string());
    contract.return_external_response(1, Ok("answer".to_string()));
    contract.return_external_response(1, Err(CallbackError::Failed));
    assert_eq!(contract.request_id(), 1);

    assert!(submit(&mut contract, Some(vec![8u8; 32])).is_ok());
    assert!(submit(&mut contract, Some(vec![9u8; 32])).is_ok());
    assert_eq!(contract.request_id(), 3);
}

#[test]
fn submission_emits_event_with_token() {
    let mut contract = AvsLogic::new(attestation());
    let token: Vec<u8> = (0u8..32).collect();
    let event = submit(&mut contract, Some(token.clone())).unwrap();
    assert_eq!(event.model_name, "model_name");
    assert_eq!(event.prompt, "prompt");
    assert_eq!(event.yield_id.len(), 32);
    assert_eq!(event.yield_id.to_vec(), token);
}

#[test]
fn submission_aborts_on_missing_register() {
    let mut contract = AvsLogic::new(attestation());
    let r = submit(&mut contract, None);
    assert_eq!(r.unwrap_err(), TokenError::RegisterEmpty);
    assert_eq!(contract.request_id(), 0);
}

#[test]
fn submission_aborts_on_malformed_token() {
    let mut contract = AvsLogic::new(attestation());
    let r = submit(&mut contract, Some(vec![1u8; 31]));
    assert_eq!(r.unwrap_err(), TokenError::TokenLength);
    let r = submit(&mut contract, Some(vec![1u8; 33]));
    assert_eq!(r.unwrap_err(), TokenError::TokenLength);
    assert_eq!(contract.request_id(), 0);
}

#[test]
fn next_yield_payload_names_next_request() {
    let mut contract = AvsLogic::new(attestation());
    assert_eq!(contract.next_yield_payload(), "{\"request_id\":1}");
    submit(&mut contract, Some(vec![7u8; 32])).unwrap();
    assert_eq!(contract.next_yield_payload(), "{\"request_id\":2}");
}

#[test]
fn answer_round_trip() {
    let mut contract = AvsLogic::new(attestation());
    let event = submit(&mut contract, Some(vec![5u8; 32])).unwrap();
    let action = contract.respond(event.yield_id, "42".to_string());
    assert_eq!(action.yield_id, event.yield_id);
    assert_eq!(action.payload, b"\"42\"".to_vec());
    let result = contract.return_external_response(1, Ok("42".to_string()));
    assert_eq!(result, Response::Answer("42".to_string()));
}

#[test]
fn answer_payload_is_json_escaped() {
    let mut contract = AvsLogic::new(attestation());
    let action = contract.respond([0u8; 32], "he\"llo".to_string());
    assert_eq!(action.payload, vec![b'"', b'h', b'e', b'\\', b'"', b'l', b'l', b'o', b'"']);
}

#[test]
fn timeout_gives_timeout_error() {
    let mut contract = AvsLogic::new(attestation());
    submit(&mut contract, Some(vec![5u8; 32])).unwrap();
    let result = contract.return_external_response(1, Err(CallbackError::Failed));
    assert_eq!(result, Response::TimeOutError);
    let result = contract.return_external_response(1, Err(CallbackError::TooLong(70000)));
    assert_eq!(result, Response::TimeOutError);
}

#[test]
fn registered_model_is_rewarded() {
    let mut contract = AvsLogic::new(attestation());
    let line = contract.register_model(
        AccountId::new("model_owner.testnet".to_string()),
        "my_model".to_string(),
        10,
    );
    assert_eq!(line, "Model registered for my_model with reward 10");

    let info = ModelInfo { model_name: "my_model".to_string(), reward: 10 };
    let (transfer, logs) = contract.after_task_submission(
        1,
        info,
        "proof".to_string(),
        true,
        vec![],
        [0, 0],
        vec![],
    );
    let transfer = transfer.unwrap();
    assert_eq!(transfer.recipient.text(), "model_owner.testnet");
    assert_eq!(transfer.amount, 10);
    assert_eq!(logs.len(), 2);
    assert_eq!(logs[0], "Running inference on model: my_model by model_owner.testnet");
    assert_eq!(
        logs[1],
        "Rewarding performer: model_owner.testnet with 10 NEAR for using model: my_model"
    );
}

#[test]
fn unregistered_model_is_skipped() {
    let mut contract = AvsLogic::new(attestation());
    let info = ModelInfo { model_name: "my_model".to_string(), reward: 10 };
    let (transfer, logs) = contract.after_task_submission(
        1,
        info,
        "proof".to_string(),
        true,
        vec![],
        [0, 0],
        vec![],
    );
    assert!(transfer.is_none());
    assert_eq!(logs, vec!["No model registered for my_model".to_string()]);
}

#[test]
fn lookup_is_case_sensitive() {
    let mut contract = AvsLogic::new(attestation());
    contract.register_model(
        AccountId::new("model_owner.testnet".to_string()),
        "Model-A".to_string(),
        5,
    );
    let info = ModelInfo { model_name: "model-a".to_string(), reward: 5 };
    let (transfer, logs) = contract.after_task_submission(
        1,
        info,
        "proof".to_string(),
        true,
        vec![],
        [0, 0],
        vec![],
    );
    assert!(transfer.is_none());
    assert_eq!(logs, vec!["No model registered for model-a".to_string()]);
}

#[test]
fn last_registration_wins() {
    let mut contract = AvsLogic::new(attestation());
    contract.register_model(AccountId::new("first.testnet".to_string()), "m".to_string(), 1);
    contract.register_model(AccountId::new("second.testnet".to_string()), "m".to_string(), 1);
    let info = ModelInfo { model_name: "m".to_string(), reward: 1 };
    let (transfer, _) = contract.after_task_submission(
        1,
        info,
        "proof".to_string(),
        true,
        vec![],
        [0, 0],
        vec![],
    );
    assert_eq!(transfer.unwrap().recipient.text(), "second.testnet");
    assert_eq!(contract.model_entries().len(), 1);
}

#[test]
fn large_reward_renders_in_full() {
    let mut contract = AvsLogic::new(attestation());
    let line = contract.register_model(
        AccountId::new("model_owner.testnet".to_string()),
        "m".to_string(),
        u128::MAX,
    );
    assert_eq!(
        line,
        "Model registered for m with reward 340282366920938463463374607431768211455"
    );
}

#[test]
fn parts_round_trip() {
    let mut contract = AvsLogic::new(attestation());
    contract.register_model(AccountId::new("a.testnet".to_string()), "a".to_string(), 1);
    contract.register_model(AccountId::new("b.testnet".to_string()), "b".to_string(), 2);
    submit(&mut contract, Some(vec![7u8; 32])).unwrap();

    let rebuilt = AvsLogic::from_parts(
        AccountId::new("attestation_center.testnet".to_string()),
        contract.request_id(),
        contract.model_entries(),
    );
    assert_eq!(rebuilt.request_id(), 1);
    let mut names: Vec<String> =
        rebuilt.model_entries().into_iter().map(|p| p.0).collect();
    names.sort();
    assert_eq!(names, vec!["a".to_string(), "b".to_string()]);
}

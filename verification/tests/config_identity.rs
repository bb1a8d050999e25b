//! The on-chain-config value types and the node-identity evaluator.

use aptos_logger::config::{
    config_address, new_epoch_event_key, ConfigID, ConfigurationResource, EventHandle, EventKey,
    OnChainConfigPayload, CONFIG_ADDRESS_STR,
};
use aptos_logger::identity::{
    extract_node_identity, ChainId, IdentityError, NodeIdentityEvaluator,
    NodeIdentityEvaluatorArgs, RoleType,
};
use aptos_logger::json::JsonVal;

#[test]
fn config_address_bytes() {
    assert_eq!(CONFIG_ADDRESS_STR, "0xA550C18");
    let addr = config_address();
    assert_eq!(addr.bytes.len(), 32);
    assert_eq!(&addr.bytes[28..], &[0x0a, 0x55, 0x0c, 0x18]);
    assert!(addr.bytes[..28].iter().all(|b| *b == 0));
}

#[test]
fn config_id_name() {
    let id = ConfigID("0xA550C18", "Version", "Version");
    assert_eq!(id.name(), "Version");
}

#[test]
fn payload_lookup() {
    let version_id = ConfigID("0xA550C18", "Version", "Version");
    let vm_id = ConfigID("0xA550C18", "VMConfig", "VMConfig");
    let missing_id = ConfigID("0xA550C18", "ValidatorSet", "ValidatorSet");
    let payload = OnChainConfigPayload::new(
        7,
        vec![(version_id, vec![1, 2, 3]), (vm_id, vec![9])],
    );
    assert_eq!(payload.epoch(), 7);
    assert_eq!(payload.configs().len(), 2);
    assert_eq!(payload.config_bytes(&version_id), Some(&vec![1u8, 2, 3]));
    assert_eq!(payload.config_bytes(&vm_id), Some(&vec![9u8]));
    assert!(payload.config_bytes(&missing_id).is_none());
}

#[test]
fn diagnostic_renderings() {
    let version_id = ConfigID("0xA550C18", "Version", "Version");
    assert_eq!(
        version_id.display_string(),
        "OnChain config ID [address: 0xA550C18, identifier: Version]"
    );
    let payload = OnChainConfigPayload::new(7, vec![(version_id, vec![1])]);
    assert_eq!(
        payload.display_string(),
        "OnChainConfigPayload [epoch: 7, configs: OnChain config ID [address: 0xA550C18, identifier: Version]]"
    );
}

#[test]
fn epoch_event_key() {
    let key = new_epoch_event_key();
    assert_eq!(key.salt, 5);
    assert_eq!(key.address.bytes, config_address().bytes);
}

#[test]
fn configuration_resource_accessors_and_bump() {
    let base = ConfigurationResource {
        epoch: 3,
        last_reconfiguration_time: 100,
        events: EventHandle {
            count: 9,
            key: EventKey::new_from_address(&config_address(), 16),
        },
    };
    assert_eq!(base.epoch(), 3);
    assert_eq!(base.last_reconfiguration_time(), 100);
    assert_eq!(base.events().count, 9);

    let bumped = base.bump_epoch_for_test();
    assert_eq!(bumped.epoch(), 4);
    assert_eq!(bumped.last_reconfiguration_time(), 101);
    assert_eq!(bumped.events().count, 10);
    assert_eq!(bumped.events().key.salt, 16);
}

#[test]
fn configuration_resource_default() {
    let d = ConfigurationResource::default();
    assert_eq!(d.epoch(), 0);
    assert_eq!(d.last_reconfiguration_time(), 0);
    assert_eq!(d.events().count, 0);
    assert_eq!(d.events().key.salt, 16);
    assert_eq!(d.events().key.address.bytes, config_address().bytes);
}

fn body(chain: Option<JsonVal>, role: Option<JsonVal>) -> Vec<(String, JsonVal)> {
    let mut v = Vec::new();
    if let Some(c) = chain {
        v.push(("chain_id".to_string(), c));
    }
    if let Some(r) = role {
        v.push(("node_role".to_string(), r));
    }
    v
}

#[test]
fn identity_extraction_ok() {
    let fields = body(
        Some(JsonVal::UInt(4)),
        Some(JsonVal::Str("full_node".to_string())),
    );
    assert_eq!(
        extract_node_identity(&fields),
        Ok((ChainId(4), RoleType::FullNode))
    );

    let validator = body(
        Some(JsonVal::Int(1)),
        Some(JsonVal::Str("validator".to_string())),
    );
    assert_eq!(
        extract_node_identity(&validator),
        Ok((ChainId(1), RoleType::Validator))
    );
}

#[test]
fn identity_extraction_errors() {
    assert_eq!(
        extract_node_identity(&body(None, Some(JsonVal::Str("validator".to_string())))),
        Err(IdentityError::MissingChainId)
    );
    assert_eq!(
        extract_node_identity(&body(
            Some(JsonVal::Str("4".to_string())),
            Some(JsonVal::Str("validator".to_string()))
        )),
        Err(IdentityError::ChainIdNotInteger)
    );
    assert_eq!(
        extract_node_identity(&body(Some(JsonVal::Int(-1)), None)),
        Err(IdentityError::ChainIdNotInteger)
    );
    assert_eq!(
        extract_node_identity(&body(Some(JsonVal::UInt(4)), None)),
        Err(IdentityError::MissingNodeRole)
    );
    assert_eq!(
        extract_node_identity(&body(Some(JsonVal::UInt(4)), Some(JsonVal::UInt(1)))),
        Err(IdentityError::NodeRoleNotText)
    );
    assert_eq!(
        extract_node_identity(&body(
            Some(JsonVal::UInt(4)),
            Some(JsonVal::Str("light_node".to_string()))
        )),
        Err(IdentityError::UnknownRole)
    );
}

#[test]
fn role_names_round_trip() {
    assert_eq!(RoleType::from_str("validator"), Some(RoleType::Validator));
    assert_eq!(RoleType::from_str("full_node"), Some(RoleType::FullNode));
    assert_eq!(RoleType::from_str("other"), None);
    assert_eq!(RoleType::Validator.as_str(), "validator");
    assert_eq!(RoleType::FullNode.as_str(), "full_node");
}

#[test]
fn evaluator_judges_matches_and_mismatches() {
    let evaluator = NodeIdentityEvaluator::new(NodeIdentityEvaluatorArgs {});

    let matching = evaluator.evaluate_identity(
        ChainId(4),
        RoleType::FullNode,
        Ok((ChainId(4), RoleType::FullNode)),
    );
    assert_eq!(matching.len(), 2);
    assert_eq!(matching[0].score, 100);
    assert_eq!(matching[1].score, 100);
    assert_eq!(matching[0].category, "api");
    assert_eq!(matching[0].evaluator_name, "node_identity");
    assert!(matching[0].headline.contains("Chain ID"));
    assert!(matching[1].headline.contains("Role Type"));

    let mismatching = evaluator.evaluate_identity(
        ChainId(4),
        RoleType::FullNode,
        Ok((ChainId(5), RoleType::Validator)),
    );
    assert_eq!(mismatching[0].score, 0);
    assert_eq!(mismatching[1].score, 0);

    let failed = evaluator.evaluate_identity(
        ChainId(4),
        RoleType::FullNode,
        Err("connection refused".to_string()),
    );
    assert_eq!(failed.len(), 1);
    assert_eq!(failed[0].score, 0);
    assert!(failed[0].explanation.contains("connection refused"));
}

#[test]
fn evaluator_names() {
    assert_eq!(NodeIdentityEvaluator::get_category_name(), "api");
    assert_eq!(NodeIdentityEvaluator::get_evaluator_name(), "node_identity");
}

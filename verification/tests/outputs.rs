//! Tests of the alias and foundry output types, their builders and their
//! state-transition rules.

use iota_client::output::alias::{AliasOutput, AliasOutputBuilder, AliasOutputDto};
use iota_client::output::foundry::{FoundryOutput, FoundryOutputBuilder, FoundryOutputDto};
use iota_client::output::parts::{
    Address, AliasAddress, AliasId, BlockError, Ed25519Address, Feature, FoundryId,
    MetadataFeature, NativeToken, SenderFeature, SimpleTokenScheme, TokenId, TokenScheme,
    UnlockCondition,
};
use iota_client::output::semantic::ValidationContext;
use iota_client::output::text::{hex_decode, parse_u64_decimal};
use iota_client::output::{DtoError, Output};

const SUPPLY: u64 = 1_000_000;

fn alias_id(n: u128) -> AliasId {
    AliasId::new(0, n)
}

fn alias_addr(n: u128) -> AliasAddress {
    AliasAddress::new(alias_id(n))
}

fn ed(n: u128) -> Address {
    Address::Ed25519(Ed25519Address { hi: 0, lo: n })
}

fn scheme(minted: u128, melted: u128, maximum: u128) -> TokenScheme {
    TokenScheme::Simple(SimpleTokenScheme::new(minted, melted, maximum).unwrap())
}

fn foundry(amount: u64, serial: u32, sch: TokenScheme, alias: u128) -> FoundryOutput {
    FoundryOutputBuilder::new_with_amount(amount, serial, sch)
        .unwrap()
        .add_unlock_condition(UnlockCondition::ImmutableAliasAddress(alias_addr(alias)))
        .finish(SUPPLY)
        .unwrap()
}

fn alias_output(amount: u64, id: AliasId) -> AliasOutput {
    AliasOutputBuilder::new_with_amount(amount, id)
        .unwrap()
        .add_unlock_condition(UnlockCondition::StateControllerAddress(ed(1)))
        .add_unlock_condition(UnlockCondition::GovernorAddress(ed(2)))
        .finish(SUPPLY)
        .unwrap()
}

fn empty_context() -> ValidationContext {
    ValidationContext {
        input_chains: Vec::new(),
        output_chains: Vec::new(),
        input_native_tokens: Vec::new(),
        output_native_tokens: Vec::new(),
        unlocked_addresses: Vec::new(),
        essence_outputs: Vec::new(),
    }
}

#[test]
fn foundry_builder_assembles_a_valid_output() {
    let f = foundry(1000, 7, scheme(50, 10, 100), 9);
    assert_eq!(f.amount(), 1000);
    assert_eq!(f.serial_number(), 7);
    assert_eq!(f.alias_address(), alias_addr(9));
    let id = f.id();
    assert_eq!(id, FoundryId::build(alias_addr(9), 7, 0));
    assert_eq!(f.token_id(), TokenId::from_foundry_id(id));
}

#[test]
fn foundry_without_alias_address_is_rejected() {
    let r = FoundryOutputBuilder::new_with_amount(1000, 1, scheme(0, 0, 10))
        .unwrap()
        .finish(SUPPLY);
    assert!(matches!(r, Err(BlockError::MissingAddressUnlockCondition)));
}

#[test]
fn foundry_rejects_disallowed_features() {
    let r = FoundryOutputBuilder::new_with_amount(1000, 1, scheme(0, 0, 10))
        .unwrap()
        .add_unlock_condition(UnlockCondition::ImmutableAliasAddress(alias_addr(1)))
        .add_feature(Feature::Sender(SenderFeature { address: ed(1) }))
        .finish(SUPPLY);
    assert!(matches!(r, Err(BlockError::UnallowedFeature(0))));
}

#[test]
fn output_amount_must_be_positive_and_within_supply() {
    let r = FoundryOutputBuilder::new_with_amount(0, 1, scheme(0, 0, 10))
        .unwrap()
        .add_unlock_condition(UnlockCondition::ImmutableAliasAddress(alias_addr(1)))
        .finish(SUPPLY);
    assert!(matches!(r, Err(BlockError::InvalidOutputAmount(0))));
    let r = FoundryOutputBuilder::new_with_amount(SUPPLY + 1, 1, scheme(0, 0, 10))
        .unwrap()
        .add_unlock_condition(UnlockCondition::ImmutableAliasAddress(alias_addr(1)))
        .finish(SUPPLY);
    assert!(matches!(r, Err(BlockError::InvalidOutputAmount(_))));
}

#[test]
fn duplicate_unlock_conditions_are_rejected() {
    let r = FoundryOutputBuilder::new_with_amount(10, 1, scheme(0, 0, 10))
        .unwrap()
        .add_unlock_condition(UnlockCondition::ImmutableAliasAddress(alias_addr(1)))
        .add_unlock_condition(UnlockCondition::ImmutableAliasAddress(alias_addr(2)))
        .finish(SUPPLY);
    assert!(matches!(r, Err(BlockError::DuplicateUnlockCondition(6))));
}

#[test]
fn replace_unlock_condition_needs_a_present_kind() {
    let b = FoundryOutputBuilder::new_with_amount(10, 1, scheme(0, 0, 10)).unwrap();
    let r = b.replace_unlock_condition(UnlockCondition::ImmutableAliasAddress(alias_addr(2)));
    assert!(matches!(r, Err(BlockError::CannotReplaceMissingField)));
    let b = FoundryOutputBuilder::new_with_amount(10, 1, scheme(0, 0, 10))
        .unwrap()
        .add_unlock_condition(UnlockCondition::ImmutableAliasAddress(alias_addr(1)));
    let b = b
        .replace_unlock_condition(UnlockCondition::ImmutableAliasAddress(alias_addr(2)))
        .unwrap();
    let f = b.finish(SUPPLY).unwrap();
    assert_eq!(f.alias_address(), alias_addr(2));
}

#[test]
fn token_scheme_rules() {
    assert!(SimpleTokenScheme::new(10, 5, 100).is_ok());
    assert!(matches!(SimpleTokenScheme::new(5, 10, 100), Err(BlockError::InvalidTokenScheme)));
    assert!(matches!(SimpleTokenScheme::new(200, 0, 100), Err(BlockError::InvalidTokenScheme)));
}

#[test]
fn native_token_rules() {
    let tid = TokenId::from_foundry_id(FoundryId::build(alias_addr(1), 1, 0));
    assert!(matches!(NativeToken::new(tid, 0), Err(BlockError::NativeTokensNullAmount)));
    let t = NativeToken::new(tid, 5).unwrap();
    let r = FoundryOutputBuilder::new_with_amount(10, 1, scheme(0, 0, 10))
        .unwrap()
        .add_unlock_condition(UnlockCondition::ImmutableAliasAddress(alias_addr(1)))
        .add_native_token(t)
        .add_native_token(t)
        .finish(SUPPLY);
    assert!(matches!(r, Err(BlockError::DuplicateNativeToken)));
}

#[test]
fn foundry_rejects_disallowed_unlock_conditions() {
    let r = FoundryOutputBuilder::new_with_amount(10, 1, scheme(0, 0, 10))
        .unwrap()
        .add_unlock_condition(UnlockCondition::ImmutableAliasAddress(alias_addr(1)))
        .add_unlock_condition(UnlockCondition::GovernorAddress(ed(1)))
        .finish(SUPPLY);
    assert!(matches!(r, Err(BlockError::UnallowedUnlockCondition(5))));
}

#[test]
fn duplicate_features_are_rejected() {
    let r = AliasOutputBuilder::new_with_amount(10, alias_id(3))
        .unwrap()
        .add_feature(Feature::Metadata(MetadataFeature { data: vec![1] }))
        .add_feature(Feature::Metadata(MetadataFeature { data: vec![2] }))
        .add_unlock_condition(UnlockCondition::StateControllerAddress(ed(1)))
        .add_unlock_condition(UnlockCondition::GovernorAddress(ed(2)))
        .finish(SUPPLY);
    assert!(matches!(r, Err(BlockError::DuplicateFeature(2))));
}

#[test]
fn too_many_native_tokens_are_rejected() {
    let mut b = FoundryOutputBuilder::new_with_amount(10, 1, scheme(0, 0, 10))
        .unwrap()
        .add_unlock_condition(UnlockCondition::ImmutableAliasAddress(alias_addr(1)));
    for i in 0..65u128 {
        let tid = TokenId::from_foundry_id(FoundryId::build(alias_addr(i), 1, 0));
        b = b.add_native_token(NativeToken::new(tid, 1).unwrap());
    }
    let r = b.finish(SUPPLY);
    assert!(matches!(r, Err(BlockError::InvalidNativeTokenCount(65))));
}

#[test]
fn alias_builder_assembles_a_valid_output() {
    let a = alias_output(500, alias_id(3));
    assert_eq!(a.amount(), 500);
    assert_eq!(a.alias_id(), alias_id(3));
    assert_eq!(a.state_index(), 0);
    assert_eq!(a.foundry_counter(), 0);
    assert_eq!(a.state_controller_address(), ed(1));
    assert_eq!(a.governor_address(), ed(2));
}

#[test]
fn alias_must_not_control_itself() {
    let r = AliasOutputBuilder::new_with_amount(10, alias_id(3))
        .unwrap()
        .add_unlock_condition(UnlockCondition::StateControllerAddress(Address::Alias(alias_addr(3))))
        .add_unlock_condition(UnlockCondition::GovernorAddress(ed(2)))
        .finish(SUPPLY);
    assert!(matches!(r, Err(BlockError::SelfControlledAliasOutput(_))));
}

#[test]
fn alias_needs_both_controllers() {
    let r = AliasOutputBuilder::new_with_amount(10, alias_id(3))
        .unwrap()
        .add_unlock_condition(UnlockCondition::StateControllerAddress(ed(1)))
        .finish(SUPPLY);
    assert!(matches!(r, Err(BlockError::MissingGovernorUnlockCondition)));
    let r = AliasOutputBuilder::new_with_amount(10, alias_id(3))
        .unwrap()
        .add_unlock_condition(UnlockCondition::GovernorAddress(ed(2)))
        .finish(SUPPLY);
    assert!(matches!(r, Err(BlockError::MissingStateControllerUnlockCondition)));
}

#[test]
fn null_alias_id_demands_zero_counters() {
    let r = AliasOutputBuilder::new_with_amount(10, AliasId::null())
        .unwrap()
        .with_state_index(1)
        .add_unlock_condition(UnlockCondition::StateControllerAddress(ed(1)))
        .add_unlock_condition(UnlockCondition::GovernorAddress(ed(2)))
        .finish(SUPPLY);
    assert!(matches!(r, Err(BlockError::NonZeroStateIndexOrFoundryCounter)));
}

#[test]
fn oversized_state_metadata_is_rejected() {
    let r = AliasOutputBuilder::new_with_amount(10, alias_id(3))
        .unwrap()
        .with_state_metadata(vec![0u8; 8193])
        .add_unlock_condition(UnlockCondition::StateControllerAddress(ed(1)))
        .add_unlock_condition(UnlockCondition::GovernorAddress(ed(2)))
        .finish(SUPPLY);
    assert!(matches!(r, Err(BlockError::InvalidStateMetadataLength(8193))));
}

#[test]
fn governance_transition_must_keep_state_fields() {
    let current = alias_output(500, alias_id(3));
    let next = alias_output(600, alias_id(3));
    let r = AliasOutput::transition(&current, &next, &empty_context());
    assert!(matches!(
        r,
        Err(iota_client::output::semantic::StateTransitionError::MutatedFieldWithoutRights)
    ));
    let same = alias_output(500, alias_id(3));
    let r = AliasOutput::transition(&current, &same, &empty_context());
    assert!(r.is_ok());
}

#[test]
fn state_transition_counts_created_foundries() {
    let current = alias_output(500, alias_id(3));
    let mut next = AliasOutputBuilder::new_with_amount(500, alias_id(3))
        .unwrap()
        .with_state_index(1)
        .with_foundry_counter(1)
        .add_unlock_condition(UnlockCondition::StateControllerAddress(ed(1)))
        .add_unlock_condition(UnlockCondition::GovernorAddress(ed(2)))
        .finish(SUPPLY)
        .unwrap();
    next.state_index = 1;
    let created = foundry(10, 1, scheme(0, 0, 10), 3);
    let mut context = empty_context();
    context.essence_outputs.push(Output::Foundry(created));
    let r = AliasOutput::transition(&current, &next, &context);
    assert!(r.is_ok());
    // A serial number that does not continue the counter is unsorted.
    let wrong = foundry(10, 5, scheme(0, 0, 10), 3);
    let mut context = empty_context();
    context.essence_outputs.push(Output::Foundry(wrong));
    let r = AliasOutput::transition(&current, &next, &context);
    assert!(matches!(
        r,
        Err(iota_client::output::semantic::StateTransitionError::UnsortedCreatedFoundries)
    ));
}

#[test]
fn foundry_creation_needs_its_alias() {
    let f = foundry(10, 1, scheme(0, 0, 10), 3);
    let r = FoundryOutput::creation(&f, &empty_context());
    assert!(matches!(
        r,
        Err(iota_client::output::semantic::StateTransitionError::MissingAliasForFoundry)
    ));
}

#[test]
fn foundry_mint_must_account_for_minted_tokens() {
    let current = foundry(10, 1, scheme(0, 0, 100), 3);
    let next = foundry(10, 1, scheme(40, 0, 100), 3);
    let tid = next.token_id();
    let mut context = empty_context();
    context.output_native_tokens.push((tid, 40));
    let r = FoundryOutput::transition(&current, &next, &context);
    assert!(r.is_ok());
    let mut context = empty_context();
    context.output_native_tokens.push((tid, 39));
    let r = FoundryOutput::transition(&current, &next, &context);
    assert!(matches!(
        r,
        Err(iota_client::output::semantic::StateTransitionError::InconsistentNativeTokensMint)
    ));
}

#[test]
fn foundry_destruction_reclaims_the_circulating_supply() {
    let current = foundry(10, 1, scheme(40, 15, 100), 3);
    let tid = current.token_id();
    let mut context = empty_context();
    context.input_native_tokens.push((tid, 25));
    assert!(FoundryOutput::destruction(&current, &context).is_ok());
    let mut context = empty_context();
    context.input_native_tokens.push((tid, 24));
    let r = FoundryOutput::destruction(&current, &context);
    assert!(matches!(
        r,
        Err(iota_client::output::semantic::StateTransitionError::InconsistentNativeTokensFoundryDestruction)
    ));
}

#[test]
fn decimal_amounts_parse_exactly() {
    assert_eq!(parse_u64_decimal("0"), Some(0));
    assert_eq!(parse_u64_decimal("1000"), Some(1000));
    assert_eq!(parse_u64_decimal("18446744073709551615"), Some(u64::MAX));
    assert_eq!(parse_u64_decimal("18446744073709551616"), None);
    assert_eq!(parse_u64_decimal(""), None);
    assert_eq!(parse_u64_decimal("12a"), None);
}

#[test]
fn hex_metadata_decodes_exactly() {
    assert_eq!(hex_decode("0x0102ff"), Some(vec![1, 2, 255]));
    assert_eq!(hex_decode("0x"), Some(Vec::new()));
    assert_eq!(hex_decode("0x1"), None);
    assert_eq!(hex_decode("01"), None);
    assert_eq!(hex_decode("0x0g"), None);
}

#[test]
fn foundry_dto_round_trips_the_fields() {
    let dto = FoundryOutputDto {
        kind: 5,
        amount: "1234".to_owned(),
        native_tokens: Vec::new(),
        serial_number: 2,
        token_scheme: scheme(0, 0, 10),
        unlock_conditions: vec![UnlockCondition::ImmutableAliasAddress(alias_addr(1))],
        features: Vec::new(),
        immutable_features: Vec::new(),
    };
    let f = FoundryOutput::try_from_dto(dto, SUPPLY).unwrap();
    assert_eq!(f.amount(), 1234);
    assert_eq!(f.serial_number(), 2);
    let dto = FoundryOutputDto {
        kind: 5,
        amount: "not-a-number".to_owned(),
        native_tokens: Vec::new(),
        serial_number: 2,
        token_scheme: scheme(0, 0, 10),
        unlock_conditions: vec![UnlockCondition::ImmutableAliasAddress(alias_addr(1))],
        features: Vec::new(),
        immutable_features: Vec::new(),
    };
    assert!(matches!(FoundryOutput::try_from_dto(dto, SUPPLY), Err(DtoError::InvalidField(_))));
}

#[test]
fn alias_dto_decodes_hex_metadata() {
    let dto = AliasOutputDto {
        kind: 4,
        amount: "500".to_owned(),
        native_tokens: Vec::new(),
        alias_id: alias_id(3),
        state_index: 0,
        state_metadata: "0xdead".to_owned(),
        foundry_counter: 0,
        unlock_conditions: vec![
            UnlockCondition::StateControllerAddress(ed(1)),
            UnlockCondition::GovernorAddress(ed(2)),
        ],
        features: Vec::new(),
        immutable_features: Vec::new(),
    };
    let a = AliasOutput::try_from_dto(dto, SUPPLY).unwrap();
    assert_eq!(a.state_metadata(), &vec![0xde, 0xad]);
}

#[test]
fn alias_metadata_feature_survives_build() {
    let a = AliasOutputBuilder::new_with_amount(10, alias_id(3))
        .unwrap()
        .add_feature(Feature::Metadata(MetadataFeature { data: vec![1, 2] }))
        .add_unlock_condition(UnlockCondition::StateControllerAddress(ed(1)))
        .add_unlock_condition(UnlockCondition::GovernorAddress(ed(2)))
        .finish(SUPPLY)
        .unwrap();
    match a.features().metadata() {
        Some(Feature::Metadata(m)) => assert_eq!(m.data, vec![1, 2]),
        _ => panic!("expected the metadata feature"),
    }
}

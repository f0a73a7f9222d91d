//! Alias outputs: the accounts of the ledger, controlled by a state
//! controller and a governor.

use vstd::prelude::*;
use crate::output::parts::{
    distinct_feature_kinds, distinct_token_ids, distinct_unlock_kinds, feature_kind_index,
    feature_matches, features_allowed, features_match, first_duplicate_feature,
    first_duplicate_unlock, first_unallowed_feature, first_unallowed_unlock,
    lemma_feature_kind_index_miss, lemma_unlock_kind_index_miss, spec_feature_of_kind,
    spec_unlock_of_kind, unlock_kind_index, unlocks_allowed, verify_allowed_features,
    verify_allowed_unlock_conditions, Address, AliasId, BlockError, ChainId, Feature, Features,
    NativeToken, NativeTokens, UnlockCondition, UnlockConditions, FEATURE_KIND_ISSUER,
    FEATURE_KIND_METADATA, NATIVE_TOKEN_COUNT_MAX, UNLOCK_KIND_GOVERNOR,
    UNLOCK_KIND_STATE_CONTROLLER,
};
use crate::output::semantic::{
    chain_lookup, contains_address, spec_has_chain, StateTransitionError, ValidationContext,
};
use crate::output::text::{decimal_value, hex_bytes, hex_decode, is_decimal, is_prefixed_hex, parse_u64_decimal};
use crate::output::{valid_output_amount, verify_output_amount, DtoError, Output};
use vstd::string::StrSliceExecFns;

verus! {

/// The output kind byte of an alias output.
pub const ALIAS_OUTPUT_KIND: u8 = 4;

/// Maximum possible length in bytes of the state metadata.
pub const STATE_METADATA_LENGTH_MAX: usize = 8192;

/// The unlock conditions an alias may carry: state controller and governor.
pub const ALIAS_ALLOWED_UNLOCK_CONDITIONS: u16 = 48;

/// The features an alias may carry: sender and metadata.
pub const ALIAS_ALLOWED_FEATURES: u16 = 5;

/// The immutable features an alias may carry: issuer and metadata.
pub const ALIAS_ALLOWED_IMMUTABLE_FEATURES: u16 = 6;

/// The address is the alias address of `id` itself.
pub open spec fn address_is_alias(a: Address, id: AliasId) -> bool {
    a is Alias && a->Alias_0.alias_id == id
}

/// Everything the alias build checks beyond the amount: metadata within its
/// bound; a null alias id only with zero counters; unlock conditions unique,
/// with a state controller and a governor neither of which is the alias
/// itself, and nothing disallowed; features and immutable features unique
/// and allowed; native tokens within the bound and distinct.
pub open spec fn alias_build_valid(
    native_tokens: Seq<NativeToken>,
    alias_id: AliasId,
    state_index: u32,
    state_metadata: Seq<u8>,
    foundry_counter: u32,
    unlock_conditions: Seq<UnlockCondition>,
    features: Seq<Feature>,
    immutable_features: Seq<Feature>,
) -> bool {
    &&& state_metadata.len() <= STATE_METADATA_LENGTH_MAX
    &&& !(alias_id.spec_is_null() && (state_index != 0 || foundry_counter != 0))
    &&& distinct_unlock_kinds(unlock_conditions)
    &&& match spec_unlock_of_kind(unlock_conditions, UNLOCK_KIND_STATE_CONTROLLER) {
        Some(uc) => !address_is_alias(uc->StateControllerAddress_0, alias_id),
        None => false,
    }
    &&& match spec_unlock_of_kind(unlock_conditions, UNLOCK_KIND_GOVERNOR) {
        Some(uc) => !address_is_alias(uc->GovernorAddress_0, alias_id),
        None => false,
    }
    &&& unlocks_allowed(unlock_conditions, ALIAS_ALLOWED_UNLOCK_CONDITIONS)
    &&& distinct_feature_kinds(features)
    &&& features_allowed(features, ALIAS_ALLOWED_FEATURES)
    &&& distinct_feature_kinds(immutable_features)
    &&& features_allowed(immutable_features, ALIAS_ALLOWED_IMMUTABLE_FEATURES)
    &&& native_tokens.len() <= NATIVE_TOKEN_COUNT_MAX
    &&& distinct_token_ids(native_tokens)
}

/// The first rule an alias build breaks, in the order the checks run, or
/// nothing when the build is valid.
pub open spec fn alias_build_error(
    native_tokens: Seq<NativeToken>,
    alias_id: AliasId,
    state_index: u32,
    state_metadata: Seq<u8>,
    foundry_counter: u32,
    unlock_conditions: Seq<UnlockCondition>,
    features: Seq<Feature>,
    immutable_features: Seq<Feature>,
) -> Option<BlockError> {
    if state_metadata.len() > STATE_METADATA_LENGTH_MAX {
        Some(BlockError::InvalidStateMetadataLength(state_metadata.len() as usize))
    } else if alias_id.spec_is_null() && (state_index != 0 || foundry_counter != 0) {
        Some(BlockError::NonZeroStateIndexOrFoundryCounter)
    } else if !distinct_unlock_kinds(unlock_conditions) {
        Some(BlockError::DuplicateUnlockCondition(
            unlock_conditions[first_duplicate_unlock(unlock_conditions, 0)].spec_kind(),
        ))
    } else {
        match spec_unlock_of_kind(unlock_conditions, UNLOCK_KIND_STATE_CONTROLLER) {
            None => Some(BlockError::MissingStateControllerUnlockCondition),
            Some(sc) => {
                if address_is_alias(sc->StateControllerAddress_0, alias_id) {
                    Some(BlockError::SelfControlledAliasOutput(alias_id))
                } else {
                    match spec_unlock_of_kind(unlock_conditions, UNLOCK_KIND_GOVERNOR) {
                        None => Some(BlockError::MissingGovernorUnlockCondition),
                        Some(g) => {
                            if address_is_alias(g->GovernorAddress_0, alias_id) {
                                Some(BlockError::SelfControlledAliasOutput(alias_id))
                            } else if !unlocks_allowed(
                                unlock_conditions, ALIAS_ALLOWED_UNLOCK_CONDITIONS,
                            ) {
                                Some(BlockError::UnallowedUnlockCondition(
                                    unlock_conditions[first_unallowed_unlock(
                                        unlock_conditions, ALIAS_ALLOWED_UNLOCK_CONDITIONS, 0,
                                    )].spec_kind(),
                                ))
                            } else if !distinct_feature_kinds(features) {
                                Some(BlockError::DuplicateFeature(
                                    features[first_duplicate_feature(features, 0)].spec_kind(),
                                ))
                            } else if !features_allowed(features, ALIAS_ALLOWED_FEATURES) {
                                Some(BlockError::UnallowedFeature(
                                    features[first_unallowed_feature(
                                        features, ALIAS_ALLOWED_FEATURES, 0,
                                    )].spec_kind(),
                                ))
                            } else if !distinct_feature_kinds(immutable_features) {
                                Some(BlockError::DuplicateFeature(
                                    immutable_features[first_duplicate_feature(
                                        immutable_features, 0,
                                    )].spec_kind(),
                                ))
                            } else if !features_allowed(
                                immutable_features, ALIAS_ALLOWED_IMMUTABLE_FEATURES,
                            ) {
                                Some(BlockError::UnallowedFeature(
                                    immutable_features[first_unallowed_feature(
                                        immutable_features, ALIAS_ALLOWED_IMMUTABLE_FEATURES, 0,
                                    )].spec_kind(),
                                ))
                            } else if native_tokens.len() > NATIVE_TOKEN_COUNT_MAX {
                                Some(BlockError::InvalidNativeTokenCount(
                                    native_tokens.len() as usize,
                                ))
                            } else if !distinct_token_ids(native_tokens) {
                                Some(BlockError::DuplicateNativeToken)
                            } else {
                                None
                            }
                        },
                    }
                }
            },
        }
    }
}

/// The error a checked alias assembly reports: the first broken build rule,
/// else a bad amount.
pub open spec fn alias_finish_error(
    native_tokens: Seq<NativeToken>,
    alias_id: AliasId,
    state_index: u32,
    state_metadata: Seq<u8>,
    foundry_counter: u32,
    unlock_conditions: Seq<UnlockCondition>,
    features: Seq<Feature>,
    immutable_features: Seq<Feature>,
    amount: u64,
) -> BlockError {
    match alias_build_error(
        native_tokens, alias_id, state_index, state_metadata, foundry_counter, unlock_conditions,
        features, immutable_features,
    ) {
        Some(e) => e,
        None => BlockError::InvalidOutputAmount(amount),
    }
}

/// Builds an alias output field by field.
pub struct AliasOutputBuilder {
    pub amount: u64,
    pub native_tokens: Vec<NativeToken>,
    pub alias_id: AliasId,
    pub state_index: Option<u32>,
    pub state_metadata: Vec<u8>,
    pub foundry_counter: Option<u32>,
    pub unlock_conditions: Vec<UnlockCondition>,
    pub features: Vec<Feature>,
    pub immutable_features: Vec<Feature>,
}

impl AliasOutputBuilder {
    /// A builder with the provided amount.
    pub fn new_with_amount(amount: u64, alias_id: AliasId) -> (r: Result<
        AliasOutputBuilder,
        BlockError,
    >)
        ensures
            r is Ok,
            r->Ok_0.amount == amount,
            r->Ok_0.alias_id == alias_id,
            r->Ok_0.native_tokens@ == Seq::<NativeToken>::empty(),
            r->Ok_0.state_index is None,
            r->Ok_0.state_metadata@ == Seq::<u8>::empty(),
            r->Ok_0.foundry_counter is None,
            r->Ok_0.unlock_conditions@ == Seq::<UnlockCondition>::empty(),
            r->Ok_0.features@ == Seq::<Feature>::empty(),
            r->Ok_0.immutable_features@ == Seq::<Feature>::empty(),
    {
        Ok(AliasOutputBuilder {
            amount,
            native_tokens: Vec::new(),
            alias_id,
            state_index: None,
            state_metadata: Vec::new(),
            foundry_counter: None,
            unlock_conditions: Vec::new(),
            features: Vec::new(),
            immutable_features: Vec::new(),
        })
    }

    /// Sets the amount to the provided value.
    pub fn with_amount(self, amount: u64) -> (r: Result<AliasOutputBuilder, BlockError>)
        ensures
            r is Ok,
            r->Ok_0 == (AliasOutputBuilder { amount, ..self }),
    {
        let mut b = self;
        b.amount = amount;
        Ok(b)
    }

    /// Adds one native token.
    pub fn add_native_token(self, native_token: NativeToken) -> (r: AliasOutputBuilder)
        ensures
            r == (AliasOutputBuilder { native_tokens: r.native_tokens, ..self }),
            r.native_tokens@ == self.native_tokens@.push(native_token),
    {
        let mut b = self;
        b.native_tokens.push(native_token);
        b
    }

    /// Replaces the native tokens with the given list.
    pub fn with_native_tokens(self, native_tokens: Vec<NativeToken>) -> (r: AliasOutputBuilder)
        ensures
            r == (AliasOutputBuilder { native_tokens: r.native_tokens, ..self }),
            r.native_tokens@ == native_tokens@,
    {
        let mut b = self;
        b.native_tokens = native_tokens;
        b
    }

    /// Sets the alias identifier to the provided value.
    pub fn with_alias_id(self, alias_id: AliasId) -> (r: AliasOutputBuilder)
        ensures
            r == (AliasOutputBuilder { alias_id, ..self }),
    {
        let mut b = self;
        b.alias_id = alias_id;
        b
    }

    /// Sets the state index to the provided value.
    pub fn with_state_index(self, state_index: u32) -> (r: AliasOutputBuilder)
        ensures
            r == (AliasOutputBuilder { state_index: Some(state_index), ..self }),
    {
        let mut b = self;
        b.state_index = Some(state_index);
        b
    }

    /// Sets the state metadata to the provided bytes.
    pub fn with_state_metadata(self, state_metadata: Vec<u8>) -> (r: AliasOutputBuilder)
        ensures
            r == (AliasOutputBuilder { state_metadata: r.state_metadata, ..self }),
            r.state_metadata@ == state_metadata@,
    {
        let mut b = self;
        b.state_metadata = state_metadata;
        b
    }

    /// Sets the foundry counter to the provided value.
    pub fn with_foundry_counter(self, foundry_counter: u32) -> (r: AliasOutputBuilder)
        ensures
            r == (AliasOutputBuilder { foundry_counter: Some(foundry_counter), ..self }),
    {
        let mut b = self;
        b.foundry_counter = Some(foundry_counter);
        b
    }

    /// Adds one unlock condition.
    pub fn add_unlock_condition(self, unlock_condition: UnlockCondition) -> (r: AliasOutputBuilder)
        ensures
            r == (AliasOutputBuilder { unlock_conditions: r.unlock_conditions, ..self }),
            r.unlock_conditions@ == self.unlock_conditions@.push(unlock_condition),
    {
        let mut b = self;
        b.unlock_conditions.push(unlock_condition);
        b
    }

    /// Replaces the unlock conditions with the given list.
    pub fn with_unlock_conditions(self, unlock_conditions: Vec<UnlockCondition>) -> (r:
        AliasOutputBuilder)
        ensures
            r == (AliasOutputBuilder { unlock_conditions: r.unlock_conditions, ..self }),
            r.unlock_conditions@ == unlock_conditions@,
    {
        let mut b = self;
        b.unlock_conditions = unlock_conditions;
        b
    }

    /// Replaces the first unlock condition of the same kind; an absent kind
    /// cannot be replaced.
    pub fn replace_unlock_condition(self, unlock_condition: UnlockCondition) -> (r: Result<
        AliasOutputBuilder,
        BlockError,
    >)
        ensures
            ({
                let j = unlock_kind_index(
                    self.unlock_conditions@, unlock_condition.spec_kind(), 0,
                );
                if j < self.unlock_conditions@.len() {
                    r is Ok && r->Ok_0 == (AliasOutputBuilder {
                        unlock_conditions: r->Ok_0.unlock_conditions,
                        ..self
                    }) && r->Ok_0.unlock_conditions@ == self.unlock_conditions@.update(
                        j, unlock_condition,
                    )
                } else {
                    r == Err::<AliasOutputBuilder, BlockError>(
                        BlockError::CannotReplaceMissingField,
                    )
                }
            }),
    {
        let mut b = self;
        let kind = unlock_condition.kind();
        let n = b.unlock_conditions.len();
        let mut i: usize = 0;
        while i < n
            invariant
                0 <= i <= n,
                n == b.unlock_conditions@.len(),
                b == (AliasOutputBuilder { unlock_conditions: b.unlock_conditions, ..self }),
                b.unlock_conditions@ == self.unlock_conditions@,
                kind == unlock_condition.spec_kind(),
                forall|k: int|
                    0 <= k < i ==> (#[trigger] b.unlock_conditions@[k]).spec_kind() != kind,
            decreases n - i,
        {
            if b.unlock_conditions[i].kind() == kind {
                proof {
                    lemma_unlock_kind_index_miss(b.unlock_conditions@, kind, 0, i as int);
                    assert(unlock_kind_index(b.unlock_conditions@, kind, i as int) == i as int);
                }
                b.unlock_conditions[i] = unlock_condition;
                return Ok(b);
            }
            i += 1;
        }
        proof {
            lemma_unlock_kind_index_miss(b.unlock_conditions@, kind, 0, n as int);
            assert(unlock_kind_index(b.unlock_conditions@, kind, n as int) == n as int);
        }
        Err(BlockError::CannotReplaceMissingField)
    }

    /// Adds one feature.
    pub fn add_feature(self, feature: Feature) -> (r: AliasOutputBuilder)
        ensures
            r == (AliasOutputBuilder { features: r.features, ..self }),
            r.features@ == self.features@.push(feature),
    {
        let mut b = self;
        b.features.push(feature);
        b
    }

    /// Replaces the features with the given list.
    pub fn with_features(self, features: Vec<Feature>) -> (r: AliasOutputBuilder)
        ensures
            r == (AliasOutputBuilder { features: r.features, ..self }),
            r.features@ == features@,
    {
        let mut b = self;
        b.features = features;
        b
    }

    /// Replaces the first feature of the same kind; an absent kind cannot be
    /// replaced.
    pub fn replace_feature(self, feature: Feature) -> (r: Result<AliasOutputBuilder, BlockError>)
        ensures
            ({
                let j = feature_kind_index(self.features@, feature.spec_kind(), 0);
                if j < self.features@.len() {
                    r is Ok && r->Ok_0 == (AliasOutputBuilder {
                        features: r->Ok_0.features,
                        ..self
                    }) && r->Ok_0.features@ == self.features@.update(j, feature)
                } else {
                    r == Err::<AliasOutputBuilder, BlockError>(BlockError::CannotReplaceMissingField)
                }
            }),
    {
        let mut b = self;
        let kind = feature.kind();
        let n = b.features.len();
        let mut i: usize = 0;
        while i < n
            invariant
                0 <= i <= n,
                n == b.features@.len(),
                b == (AliasOutputBuilder { features: b.features, ..self }),
                b.features@ == self.features@,
                kind == feature.spec_kind(),
                forall|k: int| 0 <= k < i ==> (#[trigger] b.features@[k]).spec_kind() != kind,
            decreases n - i,
        {
            if b.features[i].kind() == kind {
                proof {
                    lemma_feature_kind_index_miss(b.features@, kind, 0, i as int);
                    assert(feature_kind_index(b.features@, kind, i as int) == i as int);
                }
                b.features[i] = feature;
                return Ok(b);
            }
            i += 1;
        }
        proof {
            lemma_feature_kind_index_miss(b.features@, kind, 0, n as int);
            assert(feature_kind_index(b.features@, kind, n as int) == n as int);
        }
        Err(BlockError::CannotReplaceMissingField)
    }

    /// Adds one immutable feature.
    pub fn add_immutable_feature(self, immutable_feature: Feature) -> (r: AliasOutputBuilder)
        ensures
            r == (AliasOutputBuilder { immutable_features: r.immutable_features, ..self }),
            r.immutable_features@ == self.immutable_features@.push(immutable_feature),
    {
        let mut b = self;
        b.immutable_features.push(immutable_feature);
        b
    }

    /// Replaces the immutable features with the given list.
    pub fn with_immutable_features(self, immutable_features: Vec<Feature>) -> (r:
        AliasOutputBuilder)
        ensures
            r == (AliasOutputBuilder { immutable_features: r.immutable_features, ..self }),
            r.immutable_features@ == immutable_features@,
    {
        let mut b = self;
        b.immutable_features = immutable_features;
        b
    }

    /// Replaces the first immutable feature of the same kind; an absent kind
    /// cannot be replaced.
    pub fn replace_immutable_feature(self, immutable_feature: Feature) -> (r: Result<
        AliasOutputBuilder,
        BlockError,
    >)
        ensures
            ({
                let j = feature_kind_index(
                    self.immutable_features@, immutable_feature.spec_kind(), 0,
                );
                if j < self.immutable_features@.len() {
                    r is Ok && r->Ok_0 == (AliasOutputBuilder {
                        immutable_features: r->Ok_0.immutable_features,
                        ..self
                    }) && r->Ok_0.immutable_features@ == self.immutable_features@.update(
                        j, immutable_feature,
                    )
                } else {
                    r == Err::<AliasOutputBuilder, BlockError>(BlockError::CannotReplaceMissingField)
                }
            }),
    {
        let mut b = self;
        let kind = immutable_feature.kind();
        let n = b.immutable_features.len();
        let mut i: usize = 0;
        while i < n
            invariant
                0 <= i <= n,
                n == b.immutable_features@.len(),
                b == (AliasOutputBuilder { immutable_features: b.immutable_features, ..self }),
                b.immutable_features@ == self.immutable_features@,
                kind == immutable_feature.spec_kind(),
                forall|k: int|
                    0 <= k < i ==> (#[trigger] b.immutable_features@[k]).spec_kind() != kind,
            decreases n - i,
        {
            if b.immutable_features[i].kind() == kind {
                proof {
                    lemma_feature_kind_index_miss(b.immutable_features@, kind, 0, i as int);
                    assert(feature_kind_index(b.immutable_features@, kind, i as int) == i as int);
                }
                b.immutable_features[i] = immutable_feature;
                return Ok(b);
            }
            i += 1;
        }
        proof {
            lemma_feature_kind_index_miss(b.immutable_features@, kind, 0, n as int);
            assert(feature_kind_index(b.immutable_features@, kind, n as int) == n as int);
        }
        Err(BlockError::CannotReplaceMissingField)
    }

    /// Assembles the alias output, checking everything but the amount. The
    /// unset state index and foundry counter default to zero.
    pub fn finish_unverified(self) -> (r: Result<AliasOutput, BlockError>)
        ensures
            ({
                let state_index = match self.state_index {
                    Some(v) => v,
                    None => 0u32,
                };
                let foundry_counter = match self.foundry_counter {
                    Some(v) => v,
                    None => 0u32,
                };
                &&& (r is Ok <==> alias_build_valid(
                    self.native_tokens@, self.alias_id, state_index, self.state_metadata@,
                    foundry_counter, self.unlock_conditions@, self.features@,
                    self.immutable_features@,
                ))
                &&& (r is Err ==> r == Err::<AliasOutput, BlockError>(alias_build_error(
                    self.native_tokens@, self.alias_id, state_index, self.state_metadata@,
                    foundry_counter, self.unlock_conditions@, self.features@,
                    self.immutable_features@,
                ).unwrap()))
                &&& (r is Ok ==> ({
                    let o = r->Ok_0;
                    &&& o.amount == self.amount
                    &&& o.native_tokens@ == self.native_tokens@
                    &&& o.alias_id == self.alias_id
                    &&& o.state_index == state_index
                    &&& o.state_metadata@ == self.state_metadata@
                    &&& o.foundry_counter == foundry_counter
                    &&& o.unlock_conditions@ == self.unlock_conditions@
                    &&& o.features@ == self.features@
                    &&& o.immutable_features@ == self.immutable_features@
                    &&& o.wf()
                }))
            }),
    {
        let state_index = match self.state_index {
            Some(v) => v,
            None => 0,
        };
        let foundry_counter = match self.foundry_counter {
            Some(v) => v,
            None => 0,
        };
        if self.state_metadata.len() > STATE_METADATA_LENGTH_MAX {
            return Err(BlockError::InvalidStateMetadataLength(self.state_metadata.len()));
        }
        if self.alias_id.is_null() && (state_index != 0 || foundry_counter != 0) {
            return Err(BlockError::NonZeroStateIndexOrFoundryCounter);
        }
        let unlock_conditions = match UnlockConditions::new(self.unlock_conditions) {
            Ok(u) => u,
            Err(e) => {
                return Err(e);
            },
        };
        match unlock_conditions.state_controller_address() {
            Some(addr) => {
                match addr {
                    Address::Alias(aa) => {
                        if aa.alias_id() == self.alias_id {
                            return Err(BlockError::SelfControlledAliasOutput(self.alias_id));
                        }
                    },
                    _ => {},
                }
            },
            None => {
                return Err(BlockError::MissingStateControllerUnlockCondition);
            },
        }
        match unlock_conditions.governor_address() {
            Some(addr) => {
                match addr {
                    Address::Alias(aa) => {
                        if aa.alias_id() == self.alias_id {
                            return Err(BlockError::SelfControlledAliasOutput(self.alias_id));
                        }
                    },
                    _ => {},
                }
            },
            None => {
                return Err(BlockError::MissingGovernorUnlockCondition);
            },
        }
        match verify_allowed_unlock_conditions(&unlock_conditions, ALIAS_ALLOWED_UNLOCK_CONDITIONS) {
            Ok(()) => {},
            Err(e) => {
                return Err(e);
            },
        }
        let features = match Features::new(self.features) {
            Ok(f) => f,
            Err(e) => {
                return Err(e);
            },
        };
        match verify_allowed_features(&features, ALIAS_ALLOWED_FEATURES) {
            Ok(()) => {},
            Err(e) => {
                return Err(e);
            },
        }
        let immutable_features = match Features::new(self.immutable_features) {
            Ok(f) => f,
            Err(e) => {
                return Err(e);
            },
        };
        match verify_allowed_features(&immutable_features, ALIAS_ALLOWED_IMMUTABLE_FEATURES) {
            Ok(()) => {},
            Err(e) => {
                return Err(e);
            },
        }
        let native_tokens = match NativeTokens::new(self.native_tokens) {
            Ok(t) => t,
            Err(e) => {
                return Err(e);
            },
        };
        Ok(AliasOutput {
            amount: self.amount,
            native_tokens,
            alias_id: self.alias_id,
            state_index,
            state_metadata: self.state_metadata,
            foundry_counter,
            unlock_conditions,
            features,
            immutable_features,
        })
    }

    /// Assembles the alias output and holds its amount against the token
    /// supply.
    pub fn finish(self, token_supply: u64) -> (r: Result<AliasOutput, BlockError>)
        ensures
            ({
                let state_index = match self.state_index {
                    Some(v) => v,
                    None => 0u32,
                };
                let foundry_counter = match self.foundry_counter {
                    Some(v) => v,
                    None => 0u32,
                };
                &&& (r is Ok <==> (alias_build_valid(
                    self.native_tokens@, self.alias_id, state_index, self.state_metadata@,
                    foundry_counter, self.unlock_conditions@, self.features@,
                    self.immutable_features@,
                ) && valid_output_amount(self.amount, token_supply)))
                &&& (r is Err ==> r == Err::<AliasOutput, BlockError>(alias_finish_error(
                    self.native_tokens@, self.alias_id, state_index, self.state_metadata@,
                    foundry_counter, self.unlock_conditions@, self.features@,
                    self.immutable_features@, self.amount,
                )))
                &&& (r is Ok ==> ({
                    let o = r->Ok_0;
                    &&& o.amount == self.amount
                    &&& o.native_tokens@ == self.native_tokens@
                    &&& o.alias_id == self.alias_id
                    &&& o.state_index == state_index
                    &&& o.state_metadata@ == self.state_metadata@
                    &&& o.foundry_counter == foundry_counter
                    &&& o.unlock_conditions@ == self.unlock_conditions@
                    &&& o.features@ == self.features@
                    &&& o.immutable_features@ == self.immutable_features@
                    &&& o.wf()
                }))
            }),
    {
        let output = match self.finish_unverified() {
            Ok(o) => o,
            Err(e) => {
                return Err(e);
            },
        };
        match verify_output_amount(output.amount, token_supply) {
            Ok(()) => Ok(output),
            Err(e) => Err(e),
        }
    }

    /// Assembles the alias output as a ledger output: the wrapped output
    /// carries the builder's fields, and every assembly error propagates
    /// unchanged.
    pub fn finish_output(self, token_supply: u64) -> (r: Result<Output, BlockError>)
        ensures
            ({
                let state_index = match self.state_index {
                    Some(v) => v,
                    None => 0u32,
                };
                let foundry_counter = match self.foundry_counter {
                    Some(v) => v,
                    None => 0u32,
                };
                &&& (r is Err <==> !(alias_build_valid(
                    self.native_tokens@, self.alias_id, state_index, self.state_metadata@,
                    foundry_counter, self.unlock_conditions@, self.features@,
                    self.immutable_features@,
                ) && valid_output_amount(self.amount, token_supply)))
                &&& (r is Err ==> r == Err::<Output, BlockError>(alias_finish_error(
                    self.native_tokens@, self.alias_id, state_index, self.state_metadata@,
                    foundry_counter, self.unlock_conditions@, self.features@,
                    self.immutable_features@, self.amount,
                )))
                &&& (r is Ok ==> r->Ok_0 is Alias && ({
                    let o = r->Ok_0->Alias_0;
                    &&& o.amount == self.amount
                    &&& o.native_tokens@ == self.native_tokens@
                    &&& o.alias_id == self.alias_id
                    &&& o.state_index == state_index
                    &&& o.state_metadata@ == self.state_metadata@
                    &&& o.foundry_counter == foundry_counter
                    &&& o.unlock_conditions@ == self.unlock_conditions@
                    &&& o.features@ == self.features@
                    &&& o.immutable_features@ == self.immutable_features@
                    &&& o.wf()
                }))
            }),
    {
        match self.finish(token_supply) {
            Ok(o) => Ok(Output::Alias(o)),
            Err(e) => Err(e),
        }
    }
}

/// An alias account in the ledger, controlled by its state and governance
/// controllers.
pub struct AliasOutput {
    pub amount: u64,
    pub native_tokens: NativeTokens,
    pub alias_id: AliasId,
    pub state_index: u32,
    pub state_metadata: Vec<u8>,
    pub foundry_counter: u32,
    pub unlock_conditions: UnlockConditions,
    pub features: Features,
    pub immutable_features: Features,
}

impl AliasOutput {
    /// A built alias output passed every build-time check.
    pub open spec fn wf(self) -> bool {
        alias_build_valid(
            self.native_tokens@, self.alias_id, self.state_index, self.state_metadata@,
            self.foundry_counter, self.unlock_conditions@, self.features@,
            self.immutable_features@,
        )
    }

    /// The state controller's address, as the unlock conditions state it.
    pub open spec fn spec_state_controller_address(self) -> Address {
        spec_unlock_of_kind(
            self.unlock_conditions@, UNLOCK_KIND_STATE_CONTROLLER,
        )->0->StateControllerAddress_0
    }

    /// The governor's address, as the unlock conditions state it.
    pub open spec fn spec_governor_address(self) -> Address {
        spec_unlock_of_kind(self.unlock_conditions@, UNLOCK_KIND_GOVERNOR)->0->GovernorAddress_0
    }

    /// A new alias output with the provided amount.
    pub fn new_with_amount(amount: u64, alias_id: AliasId, token_supply: u64) -> (r: Result<
        AliasOutput,
        BlockError,
    >)
        ensures
            r is Ok ==> r->Ok_0.amount == amount && r->Ok_0.alias_id == alias_id && r->Ok_0.wf(),
    {
        let builder = match AliasOutputBuilder::new_with_amount(amount, alias_id) {
            Ok(b) => b,
            Err(e) => {
                return Err(e);
            },
        };
        builder.finish(token_supply)
    }

    /// A builder with the provided amount and no tokens, conditions,
    /// features, metadata or counters yet.
    pub fn build_with_amount(amount: u64, alias_id: AliasId) -> (r: Result<
        AliasOutputBuilder,
        BlockError,
    >)
        ensures
            r is Ok,
            r->Ok_0.amount == amount,
            r->Ok_0.alias_id == alias_id,
            r->Ok_0.native_tokens@ == Seq::<NativeToken>::empty(),
            r->Ok_0.state_index is None,
            r->Ok_0.state_metadata@ == Seq::<u8>::empty(),
            r->Ok_0.foundry_counter is None,
            r->Ok_0.unlock_conditions@ == Seq::<UnlockCondition>::empty(),
            r->Ok_0.features@ == Seq::<Feature>::empty(),
            r->Ok_0.immutable_features@ == Seq::<Feature>::empty(),
    {
        AliasOutputBuilder::new_with_amount(amount, alias_id)
    }

    /// The amount of base tokens held.
    pub fn amount(&self) -> (r: u64)
        ensures
            r == self.amount,
    {
        self.amount
    }

    /// The native tokens held.
    pub fn native_tokens(&self) -> (r: &NativeTokens)
        ensures
            r == &self.native_tokens,
    {
        &self.native_tokens
    }

    /// The unique identifier of the alias.
    pub fn alias_id(&self) -> (r: AliasId)
        ensures
            r == self.alias_id,
    {
        self.alias_id
    }

    /// The state index, increased by one on every state transition.
    pub fn state_index(&self) -> (r: u32)
        ensures
            r == self.state_index,
    {
        self.state_index
    }

    /// The metadata only the state controller can change.
    pub fn state_metadata(&self) -> (r: &Vec<u8>)
        ensures
            r == &self.state_metadata,
    {
        &self.state_metadata
    }

    /// How many foundries this alias has created.
    pub fn foundry_counter(&self) -> (r: u32)
        ensures
            r == self.foundry_counter,
    {
        self.foundry_counter
    }

    /// The unlock conditions.
    pub fn unlock_conditions(&self) -> (r: &UnlockConditions)
        ensures
            r == &self.unlock_conditions,
    {
        &self.unlock_conditions
    }

    /// The features.
    pub fn features(&self) -> (r: &Features)
        ensures
            r == &self.features,
    {
        &self.features
    }

    /// The immutable features.
    pub fn immutable_features(&self) -> (r: &Features)
        ensures
            r == &self.immutable_features,
    {
        &self.immutable_features
    }

    /// The state controller's address. Every alias output carries a state
    /// controller unlock condition.
    pub fn state_controller_address(&self) -> (r: Address)
        requires
            self.wf(),
        ensures
            r == self.spec_state_controller_address(),
    {
        match self.unlock_conditions.state_controller_address() {
            Some(a) => a,
            None => {
                proof {
                    assert(false);
                }
                Address::Alias(crate::output::parts::AliasAddress {
                    alias_id: AliasId { hi: 0, lo: 0 },
                })
            },
        }
    }

    /// The governor's address. Every alias output carries a governor unlock
    /// condition.
    pub fn governor_address(&self) -> (r: Address)
        requires
            self.wf(),
        ensures
            r == self.spec_governor_address(),
    {
        match self.unlock_conditions.governor_address() {
            Some(a) => a,
            None => {
                proof {
                    assert(false);
                }
                Address::Alias(crate::output::parts::AliasAddress {
                    alias_id: AliasId { hi: 0, lo: 0 },
                })
            },
        }
    }

    /// The chain identifier this alias keeps across transactions.
    pub fn chain_id(&self) -> (r: ChainId)
        ensures
            r == ChainId::Alias(self.alias_id),
    {
        ChainId::Alias(self.alias_id)
    }

    /// Judges the creation of this alias: the created identifier must be
    /// null, and a declared issuer must have been unlocked by the
    /// transaction.
    pub fn creation(next_state: &AliasOutput, context: &ValidationContext) -> (r: Result<
        (),
        StateTransitionError,
    >)
        ensures
            ({
                if !next_state.alias_id.spec_is_null() {
                    r == Err::<(), StateTransitionError>(StateTransitionError::NonZeroCreatedId)
                } else {
                    match spec_feature_of_kind(
                        next_state.immutable_features@, FEATURE_KIND_ISSUER,
                    ) {
                        Some(f) => {
                            if f is Issuer && !context.unlocked_addresses@.contains(
                                f->Issuer_0.address,
                            ) {
                                r == Err::<(), StateTransitionError>(
                                    StateTransitionError::IssuerNotUnlocked,
                                )
                            } else {
                                r == Ok::<(), StateTransitionError>(())
                            }
                        },
                        None => r == Ok::<(), StateTransitionError>(()),
                    }
                }
            }),
    {
        if !next_state.alias_id.is_null() {
            return Err(StateTransitionError::NonZeroCreatedId);
        }
        match next_state.immutable_features.issuer() {
            Some(f) => {
                match f {
                    Feature::Issuer(issuer) => {
                        if !contains_address(&context.unlocked_addresses, issuer.address) {
                            return Err(StateTransitionError::IssuerNotUnlocked);
                        }
                    },
                    _ => {},
                }
            },
            None => {},
        }
        Ok(())
    }

    /// Judges a transition of this alias. A state transition (index up by
    /// one) must keep the controllers and the metadata feature, and the
    /// foundries it creates must be serialized consecutively from the old
    /// foundry counter to the new one. A governance transition (index
    /// unchanged) must keep the amount, the native tokens, the state
    /// metadata and the foundry counter. Any other index movement is
    /// rejected, as is a change to the immutable features.
    pub fn transition(
        current_state: &AliasOutput,
        next_state: &AliasOutput,
        context: &ValidationContext,
    ) -> (r: Result<(), StateTransitionError>)
        requires
            current_state.wf(),
            next_state.wf(),
            forall|k: int|
                0 <= k < context.essence_outputs@.len() ==> ((#[trigger] context.essence_outputs@[k])
                    is Foundry ==> context.essence_outputs@[k]->Foundry_0.wf()),
        ensures
            ({
                let base = current_state.foundry_counter as int;
                if !features_match(
                    current_state.immutable_features@, next_state.immutable_features@,
                ) {
                    r == Err::<(), StateTransitionError>(
                        StateTransitionError::MutatedImmutableField,
                    )
                } else if next_state.state_index == current_state.state_index + 1 {
                    if current_state.spec_state_controller_address()
                        != next_state.spec_state_controller_address()
                        || current_state.spec_governor_address()
                            != next_state.spec_governor_address()
                        || !metadata_features_match(
                        current_state.features@, next_state.features@,
                    ) {
                        r == Err::<(), StateTransitionError>(
                            StateTransitionError::MutatedFieldWithoutRights,
                        )
                    } else if !created_serials_ok(
                        context.essence_outputs@, next_state.alias_id, context.input_chains@, base,
                    ) {
                        r == Err::<(), StateTransitionError>(
                            StateTransitionError::UnsortedCreatedFoundries,
                        )
                    } else if base + created_count(
                        context.essence_outputs@, next_state.alias_id, context.input_chains@,
                    ) != next_state.foundry_counter as int {
                        r == Err::<(), StateTransitionError>(
                            StateTransitionError::InconsistentCreatedFoundriesCount,
                        )
                    } else {
                        r == Ok::<(), StateTransitionError>(())
                    }
                } else if next_state.state_index == current_state.state_index {
                    if current_state.amount != next_state.amount
                        || !(current_state.native_tokens@ =~= next_state.native_tokens@)
                        || !(current_state.state_metadata@ =~= next_state.state_metadata@)
                        || current_state.foundry_counter != next_state.foundry_counter {
                        r == Err::<(), StateTransitionError>(
                            StateTransitionError::MutatedFieldWithoutRights,
                        )
                    } else {
                        r == Ok::<(), StateTransitionError>(())
                    }
                } else {
                    r == Err::<(), StateTransitionError>(
                        StateTransitionError::UnsupportedStateIndexOperation {
                            current_state: current_state.state_index,
                            next_state: next_state.state_index,
                        },
                    )
                }
            }),
    {
        if !current_state.immutable_features.equals(&next_state.immutable_features) {
            return Err(StateTransitionError::MutatedImmutableField);
        }
        if current_state.state_index < u32::MAX && next_state.state_index
            == current_state.state_index + 1 {
            // State transition.
            if !(current_state.state_controller_address() == next_state.state_controller_address())
                || !(current_state.governor_address() == next_state.governor_address())
                || !metadata_eq(&current_state.features, &next_state.features) {
                return Err(StateTransitionError::MutatedFieldWithoutRights);
            }
            let ghost alias_id = next_state.alias_id;
            let ghost inputs = context.input_chains@;
            let ghost all = context.essence_outputs@;
            let ghost base = current_state.foundry_counter as int;
            let mut created: u64 = 0;
            let n = context.essence_outputs.len();
            let mut i: usize = 0;
            proof {
                assert(all.take(0) =~= Seq::<Output>::empty());
            }
            while i < n
                invariant
                    0 <= i <= n,
                    n == all.len(),
                    all == context.essence_outputs@,
                    inputs == context.input_chains@,
                    alias_id == next_state.alias_id,
                    base == current_state.foundry_counter as int,
                    current_state.foundry_counter <= u32::MAX,
                    features_match(
                        current_state.immutable_features@, next_state.immutable_features@,
                    ),
                    next_state.state_index == current_state.state_index + 1,
                    current_state.spec_state_controller_address()
                        == next_state.spec_state_controller_address(),
                    current_state.spec_governor_address() == next_state.spec_governor_address(),
                    metadata_features_match(current_state.features@, next_state.features@),
                    forall|k: int|
                        0 <= k < all.len() ==> ((#[trigger] all[k]) is Foundry
                            ==> all[k]->Foundry_0.wf()),
                    created as int == created_count(all.take(i as int), alias_id, inputs),
                    created <= i,
                    created_serials_ok(all.take(i as int), alias_id, inputs, base),
                decreases n - i,
            {
                proof {
                    assert(all.take(i as int + 1).drop_last() =~= all.take(i as int));
                    assert(all.take(i as int + 1).last() == all[i as int]);
                    lemma_created_snoc(all.take(i as int), all[i as int], alias_id, inputs, base);
                }
                let is_created = match &context.essence_outputs[i] {
                    Output::Foundry(f) => {
                        if f.alias_address().alias_id() == next_state.alias_id {
                            match chain_lookup(&context.input_chains, f.chain_id()) {
                                Some(_) => false,
                                None => true,
                            }
                        } else {
                            false
                        }
                    },
                    _ => false,
                };
                if is_created {
                    created = created + 1;
                    let serial = match &context.essence_outputs[i] {
                        Output::Foundry(f) => f.serial_number(),
                        _ => 0,
                    };
                    if (serial as u128) != (current_state.foundry_counter as u128) + (
                    created as u128) {
                        proof {
                            lemma_created_prefix_break(all, alias_id, inputs, base, i as int + 1);
                        }
                        return Err(StateTransitionError::UnsortedCreatedFoundries);
                    }
                }
                i += 1;
            }
            proof {
                assert(all.take(n as int) =~= all);
            }
            if (current_state.foundry_counter as u128) + (created as u128) != (
            next_state.foundry_counter as u128) {
                return Err(StateTransitionError::InconsistentCreatedFoundriesCount);
            }
            Ok(())
        } else if next_state.state_index == current_state.state_index {
            // Governance transition.
            if current_state.amount != next_state.amount
                || !current_state.native_tokens.equals(&next_state.native_tokens)
                || !crate::output::parts::bytes_eq(
                &current_state.state_metadata, &next_state.state_metadata,
            ) || current_state.foundry_counter != next_state.foundry_counter {
                return Err(StateTransitionError::MutatedFieldWithoutRights);
            }
            Ok(())
        } else {
            Err(StateTransitionError::UnsupportedStateIndexOperation {
                current_state: current_state.state_index,
                next_state: next_state.state_index,
            })
        }
    }

    /// Judges the destruction of this alias: always permitted.
    pub fn destruction(_current_state: &AliasOutput, _context: &ValidationContext) -> (r: Result<
        (),
        StateTransitionError,
    >)
        ensures
            r == Ok::<(), StateTransitionError>(()),
    {
        Ok(())
    }

    /// Reads an alias output from its data-transfer form and holds it
    /// against the token supply. The state metadata travels as a
    /// `0x`-prefixed hexadecimal string, or empty for no metadata.
    pub fn try_from_dto(value: AliasOutputDto, token_supply: u64) -> (r: Result<
        AliasOutput,
        DtoError,
    >)
        ensures
            r is Ok <==> ({
                let a = decimal_value(value.amount@);
                let md = spec_dto_metadata(value.state_metadata@);
                &&& is_decimal(value.amount@)
                &&& a <= u64::MAX
                &&& (value.state_metadata@.len() == 0 || is_prefixed_hex(value.state_metadata@))
                &&& alias_build_valid(
                    value.native_tokens@, value.alias_id, value.state_index, md,
                    value.foundry_counter, value.unlock_conditions@, value.features@,
                    value.immutable_features@,
                )
                &&& valid_output_amount(a as u64, token_supply)
            }),
            r is Ok ==> ({
                let o = r->Ok_0;
                &&& o.amount as int == decimal_value(value.amount@)
                &&& o.native_tokens@ == value.native_tokens@
                &&& o.alias_id == value.alias_id
                &&& o.state_index == value.state_index
                &&& o.state_metadata@ == spec_dto_metadata(value.state_metadata@)
                &&& o.foundry_counter == value.foundry_counter
                &&& o.unlock_conditions@ == value.unlock_conditions@
                &&& o.features@ == value.features@
                &&& o.immutable_features@ == value.immutable_features@
                &&& o.wf()
            }),
            !(is_decimal(value.amount@) && decimal_value(value.amount@) <= u64::MAX) ==> r is Err
                && r->Err_0 is InvalidField && r->Err_0->InvalidField_0@ == "amount"@,
            is_decimal(value.amount@) && decimal_value(value.amount@) <= u64::MAX && !(
            value.state_metadata@.len() == 0 || is_prefixed_hex(value.state_metadata@)) ==> r is Err
                && r->Err_0 is InvalidField && r->Err_0->InvalidField_0@ == "state_metadata"@,
            is_decimal(value.amount@) && decimal_value(value.amount@) <= u64::MAX && (
            value.state_metadata@.len() == 0 || is_prefixed_hex(value.state_metadata@)) && r is Err
                ==> r == Err::<AliasOutput, DtoError>(DtoError::Block(alias_finish_error(
                value.native_tokens@, value.alias_id, value.state_index,
                spec_dto_metadata(value.state_metadata@), value.foundry_counter,
                value.unlock_conditions@, value.features@, value.immutable_features@,
                decimal_value(value.amount@) as u64,
            ))),
    {
        let amount = match parse_u64_decimal(&value.amount) {
            Some(v) => v,
            None => {
                return Err(DtoError::InvalidField("amount".to_owned()));
            },
        };
        let state_metadata: Vec<u8> = if value.state_metadata.unicode_len() == 0 {
            Vec::new()
        } else {
            match hex_decode(&value.state_metadata) {
                Some(v) => v,
                None => {
                    return Err(DtoError::InvalidField("state_metadata".to_owned()));
                },
            }
        };
        let builder = AliasOutputBuilder {
            amount,
            native_tokens: value.native_tokens,
            alias_id: value.alias_id,
            state_index: Some(value.state_index),
            state_metadata,
            foundry_counter: Some(value.foundry_counter),
            unlock_conditions: value.unlock_conditions,
            features: value.features,
            immutable_features: value.immutable_features,
        };
        match builder.finish(token_supply) {
            Ok(o) => Ok(o),
            Err(e) => Err(DtoError::Block(e)),
        }
    }
}

impl AliasOutput {
    /// Reads an alias output from its data-transfer form without holding the
    /// amount against the token supply.
    pub fn try_from_dto_unverified(value: AliasOutputDto) -> (r: Result<AliasOutput, DtoError>)
        ensures
            r is Ok <==> ({
                let a = decimal_value(value.amount@);
                let md = spec_dto_metadata(value.state_metadata@);
                &&& is_decimal(value.amount@)
                &&& a <= u64::MAX
                &&& (value.state_metadata@.len() == 0 || is_prefixed_hex(value.state_metadata@))
                &&& alias_build_valid(
                    value.native_tokens@, value.alias_id, value.state_index, md,
                    value.foundry_counter, value.unlock_conditions@, value.features@,
                    value.immutable_features@,
                )
            }),
            r is Ok ==> ({
                let o = r->Ok_0;
                &&& o.amount as int == decimal_value(value.amount@)
                &&& o.alias_id == value.alias_id
                &&& o.state_index == value.state_index
                &&& o.state_metadata@ == spec_dto_metadata(value.state_metadata@)
                &&& o.foundry_counter == value.foundry_counter
                &&& o.wf()
            }),
            !(is_decimal(value.amount@) && decimal_value(value.amount@) <= u64::MAX) ==> r is Err
                && r->Err_0 is InvalidField && r->Err_0->InvalidField_0@ == "amount"@,
            is_decimal(value.amount@) && decimal_value(value.amount@) <= u64::MAX && !(
            value.state_metadata@.len() == 0 || is_prefixed_hex(value.state_metadata@)) ==> r is Err
                && r->Err_0 is InvalidField && r->Err_0->InvalidField_0@ == "state_metadata"@,
            is_decimal(value.amount@) && decimal_value(value.amount@) <= u64::MAX && (
            value.state_metadata@.len() == 0 || is_prefixed_hex(value.state_metadata@)) && r is Err
                ==> r == Err::<AliasOutput, DtoError>(DtoError::Block(alias_build_error(
                value.native_tokens@, value.alias_id, value.state_index,
                spec_dto_metadata(value.state_metadata@), value.foundry_counter,
                value.unlock_conditions@, value.features@, value.immutable_features@,
            ).unwrap())),
    {
        let amount = match parse_u64_decimal(&value.amount) {
            Some(v) => v,
            None => {
                return Err(DtoError::InvalidField("amount".to_owned()));
            },
        };
        let state_metadata: Vec<u8> = if value.state_metadata.unicode_len() == 0 {
            Vec::new()
        } else {
            match hex_decode(&value.state_metadata) {
                Some(v) => v,
                None => {
                    return Err(DtoError::InvalidField("state_metadata".to_owned()));
                },
            }
        };
        let builder = AliasOutputBuilder {
            amount,
            native_tokens: value.native_tokens,
            alias_id: value.alias_id,
            state_index: Some(value.state_index),
            state_metadata,
            foundry_counter: Some(value.foundry_counter),
            unlock_conditions: value.unlock_conditions,
            features: value.features,
            immutable_features: value.immutable_features,
        };
        match builder.finish_unverified() {
            Ok(o) => Ok(o),
            Err(e) => Err(DtoError::Block(e)),
        }
    }

    /// Reads an alias output from loose data-transfer parts: a textual
    /// amount, optional token and feature lists, optional counters and raw
    /// metadata bytes.
    pub fn try_from_dtos(
        amount: String,
        native_tokens: Option<Vec<NativeToken>>,
        alias_id: AliasId,
        state_index: Option<u32>,
        state_metadata: Option<Vec<u8>>,
        foundry_counter: Option<u32>,
        unlock_conditions: Vec<UnlockCondition>,
        features: Option<Vec<Feature>>,
        immutable_features: Option<Vec<Feature>>,
        token_supply: u64,
    ) -> (r: Result<AliasOutput, DtoError>)
        ensures
            ({
                let nts = match native_tokens {
                    Some(v) => v@,
                    None => Seq::<NativeToken>::empty(),
                };
                let md = match state_metadata {
                    Some(v) => v@,
                    None => Seq::<u8>::empty(),
                };
                let si = match state_index {
                    Some(v) => v,
                    None => 0u32,
                };
                let fc = match foundry_counter {
                    Some(v) => v,
                    None => 0u32,
                };
                let fs = match features {
                    Some(v) => v@,
                    None => Seq::<Feature>::empty(),
                };
                let imfs = match immutable_features {
                    Some(v) => v@,
                    None => Seq::<Feature>::empty(),
                };
                let a = decimal_value(amount@);
                &&& (r is Ok <==> (is_decimal(amount@) && a <= u64::MAX && alias_build_valid(
                    nts, alias_id, si, md, fc, unlock_conditions@, fs, imfs,
                ) && valid_output_amount(a as u64, token_supply)))
                &&& (!(is_decimal(amount@) && a <= u64::MAX) ==> r is Err
                    && r->Err_0 is InvalidField && r->Err_0->InvalidField_0@ == "amount"@)
                &&& (is_decimal(amount@) && a <= u64::MAX && r is Err ==> r == Err::<
                    AliasOutput,
                    DtoError,
                >(DtoError::Block(alias_finish_error(
                    nts, alias_id, si, md, fc, unlock_conditions@, fs, imfs, a as u64,
                ))))
                &&& (r is Ok ==> ({
                    let o = r->Ok_0;
                    &&& o.amount as int == a
                    &&& o.native_tokens@ == nts
                    &&& o.alias_id == alias_id
                    &&& o.state_index == si
                    &&& o.state_metadata@ == md
                    &&& o.foundry_counter == fc
                    &&& o.unlock_conditions@ == unlock_conditions@
                    &&& o.features@ == fs
                    &&& o.immutable_features@ == imfs
                    &&& o.wf()
                }))
            }),
    {
        let parsed = match parse_u64_decimal(&amount) {
            Some(v) => v,
            None => {
                return Err(DtoError::InvalidField("amount".to_owned()));
            },
        };
        let builder = AliasOutputBuilder {
            amount: parsed,
            native_tokens: match native_tokens {
                Some(v) => v,
                None => Vec::new(),
            },
            alias_id,
            state_index,
            state_metadata: match state_metadata {
                Some(v) => v,
                None => Vec::new(),
            },
            foundry_counter,
            unlock_conditions,
            features: match features {
                Some(v) => v,
                None => Vec::new(),
            },
            immutable_features: match immutable_features {
                Some(v) => v,
                None => Vec::new(),
            },
        };
        match builder.finish(token_supply) {
            Ok(o) => Ok(o),
            Err(e) => Err(DtoError::Block(e)),
        }
    }
}

/// The bytes an optional metadata text denotes: nothing for an empty text,
/// else its hexadecimal value.
pub open spec fn spec_dto_metadata(s: Seq<char>) -> Seq<u8> {
    if s.len() == 0 {
        Seq::<u8>::empty()
    } else {
        hex_bytes(s)
    }
}

/// The data-transfer form of an alias output: the amount travels as text and
/// the state metadata as a `0x`-prefixed hexadecimal string.
pub struct AliasOutputDto {
    pub kind: u8,
    pub amount: String,
    pub native_tokens: Vec<NativeToken>,
    pub alias_id: AliasId,
    pub state_index: u32,
    pub state_metadata: String,
    pub foundry_counter: u32,
    pub unlock_conditions: Vec<UnlockCondition>,
    pub features: Vec<Feature>,
    pub immutable_features: Vec<Feature>,
}

/// A foundry in the transaction's outputs that `alias_id` just created: it
/// is controlled by that alias and has no input-side chain.
pub open spec fn is_created_foundry(
    o: Output,
    alias_id: AliasId,
    inputs: Seq<(ChainId, Output)>,
) -> bool {
    o is Foundry && o->Foundry_0.spec_alias_address().alias_id == alias_id && !spec_has_chain(
        inputs, ChainId::Foundry(o->Foundry_0.spec_id()),
    )
}

/// How many foundries the transaction creates for `alias_id`.
pub open spec fn created_count(
    outputs: Seq<Output>,
    alias_id: AliasId,
    inputs: Seq<(ChainId, Output)>,
) -> int
    decreases outputs.len(),
{
    if outputs.len() == 0 {
        0
    } else {
        created_count(outputs.drop_last(), alias_id, inputs) + (
        if is_created_foundry(outputs.last(), alias_id, inputs) {
            1int
        } else {
            0int
        })
    }
}

/// The created foundries carry consecutive serial numbers continuing `prev`,
/// in the order the outputs are listed.
pub open spec fn created_serials_ok(
    outputs: Seq<Output>,
    alias_id: AliasId,
    inputs: Seq<(ChainId, Output)>,
    prev: int,
) -> bool
    decreases outputs.len(),
{
    if outputs.len() == 0 {
        true
    } else {
        created_serials_ok(outputs.drop_last(), alias_id, inputs, prev) && (
        if is_created_foundry(outputs.last(), alias_id, inputs) {
            outputs.last()->Foundry_0.serial_number as int == prev + created_count(
                outputs, alias_id, inputs,
            )
        } else {
            true
        })
    }
}

/// Appending one output extends the created count and the serial check by
/// that output alone.
proof fn lemma_created_snoc(
    outputs: Seq<Output>,
    o: Output,
    alias_id: AliasId,
    inputs: Seq<(ChainId, Output)>,
    prev: int,
)
    ensures
        created_count(outputs.push(o), alias_id, inputs) == created_count(
            outputs, alias_id, inputs,
        ) + (if is_created_foundry(o, alias_id, inputs) {
            1int
        } else {
            0int
        }),
        created_serials_ok(outputs.push(o), alias_id, inputs, prev) == (created_serials_ok(
            outputs, alias_id, inputs, prev,
        ) && (if is_created_foundry(o, alias_id, inputs) {
            o->Foundry_0.serial_number as int == prev + created_count(outputs, alias_id, inputs)
                + 1
        } else {
            true
        })),
{
    assert(outputs.push(o).drop_last() =~= outputs);
    assert(outputs.push(o).last() == o);
}

/// A prefix that already breaks the serial order breaks it for the whole
/// list.
proof fn lemma_created_prefix_break(
    outputs: Seq<Output>,
    alias_id: AliasId,
    inputs: Seq<(ChainId, Output)>,
    prev: int,
    i: int,
)
    requires
        0 <= i <= outputs.len(),
        !created_serials_ok(outputs.take(i), alias_id, inputs, prev),
    ensures
        !created_serials_ok(outputs, alias_id, inputs, prev),
    decreases outputs.len() - i,
{
    if i < outputs.len() {
        assert(outputs.take(i + 1).drop_last() =~= outputs.take(i));
        lemma_created_prefix_break(outputs, alias_id, inputs, prev, i + 1);
    } else {
        assert(outputs.take(i) =~= outputs);
    }
}

/// The metadata features of two outputs carry the same content (or are both
/// absent).
pub open spec fn metadata_features_match(a: Seq<Feature>, b: Seq<Feature>) -> bool {
    match (
        spec_feature_of_kind(a, FEATURE_KIND_METADATA),
        spec_feature_of_kind(b, FEATURE_KIND_METADATA),
    ) {
        (Some(x), Some(y)) => feature_matches(x, y),
        (None, None) => true,
        _ => false,
    }
}

/// Whether the metadata features of two feature sets carry the same content.
fn metadata_eq(a: &Features, b: &Features) -> (r: bool)
    ensures
        r == metadata_features_match(a@, b@),
{
    match (a.metadata(), b.metadata()) {
        (Some(x), Some(y)) => crate::output::parts::feature_eq(x, y),
        (None, None) => true,
        _ => false,
    }
}

} // verus!

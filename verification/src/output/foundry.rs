//! Foundry outputs: the outputs that mint and melt one native token under
//! the control of an alias.

use vstd::prelude::*;
use crate::output::parts::{
    distinct_feature_kinds, distinct_token_ids, distinct_unlock_kinds, feature_kind_index,
    features_allowed, first_duplicate_feature, first_duplicate_unlock, first_unallowed_feature,
    first_unallowed_unlock, lemma_feature_kind_index_miss, lemma_unlock_kind_index_miss,
    spec_unlock_of_kind, unlock_kind_index, unlocks_allowed, verify_allowed_features,
    verify_allowed_unlock_conditions, AliasAddress, BlockError, ChainId, Feature, Features,
    FoundryId, NativeToken, NativeTokens, TokenId, TokenScheme, UnlockCondition, UnlockConditions,
    NATIVE_TOKEN_COUNT_MAX, UNLOCK_KIND_IMMUTABLE_ALIAS,
};
use crate::output::semantic::{
    chain_lookup, has_token, spec_chain_lookup, spec_has_token, spec_token_amount, token_amount,
    StateTransitionError, ValidationContext,
};
use crate::output::text::{decimal_value, is_decimal, parse_u64_decimal};
use crate::output::{valid_output_amount, verify_output_amount, DtoError, Output};

verus! {

/// The output kind byte of a foundry output.
pub const FOUNDRY_OUTPUT_KIND: u8 = 5;

/// The only unlock condition a foundry may carry: the immutable alias
/// address.
pub const FOUNDRY_ALLOWED_UNLOCK_CONDITIONS: u16 = 64;

/// The only feature a foundry may carry: metadata.
pub const FOUNDRY_ALLOWED_FEATURES: u16 = 4;

/// The only immutable feature a foundry may carry: metadata.
pub const FOUNDRY_ALLOWED_IMMUTABLE_FEATURES: u16 = 4;

/// Everything `finish_unverified` checks: unlock conditions unique, an
/// immutable alias address present and nothing disallowed; features and
/// immutable features unique and allowed; native tokens within the bound
/// and distinct.
pub open spec fn foundry_build_valid(
    native_tokens: Seq<NativeToken>,
    unlock_conditions: Seq<UnlockCondition>,
    features: Seq<Feature>,
    immutable_features: Seq<Feature>,
) -> bool {
    &&& distinct_unlock_kinds(unlock_conditions)
    &&& spec_unlock_of_kind(unlock_conditions, UNLOCK_KIND_IMMUTABLE_ALIAS) is Some
    &&& unlocks_allowed(unlock_conditions, FOUNDRY_ALLOWED_UNLOCK_CONDITIONS)
    &&& distinct_feature_kinds(features)
    &&& features_allowed(features, FOUNDRY_ALLOWED_FEATURES)
    &&& distinct_feature_kinds(immutable_features)
    &&& features_allowed(immutable_features, FOUNDRY_ALLOWED_IMMUTABLE_FEATURES)
    &&& native_tokens.len() <= NATIVE_TOKEN_COUNT_MAX
    &&& distinct_token_ids(native_tokens)
}

/// The first rule a foundry build breaks, in the order the checks run, or
/// nothing when the build is valid.
pub open spec fn foundry_build_error(
    native_tokens: Seq<NativeToken>,
    unlock_conditions: Seq<UnlockCondition>,
    features: Seq<Feature>,
    immutable_features: Seq<Feature>,
) -> Option<BlockError> {
    if !distinct_unlock_kinds(unlock_conditions) {
        Some(BlockError::DuplicateUnlockCondition(
            unlock_conditions[first_duplicate_unlock(unlock_conditions, 0)].spec_kind(),
        ))
    } else if spec_unlock_of_kind(unlock_conditions, UNLOCK_KIND_IMMUTABLE_ALIAS) is None {
        Some(BlockError::MissingAddressUnlockCondition)
    } else if !unlocks_allowed(unlock_conditions, FOUNDRY_ALLOWED_UNLOCK_CONDITIONS) {
        Some(BlockError::UnallowedUnlockCondition(
            unlock_conditions[first_unallowed_unlock(
                unlock_conditions, FOUNDRY_ALLOWED_UNLOCK_CONDITIONS, 0,
            )].spec_kind(),
        ))
    } else if !distinct_feature_kinds(features) {
        Some(BlockError::DuplicateFeature(
            features[first_duplicate_feature(features, 0)].spec_kind(),
        ))
    } else if !features_allowed(features, FOUNDRY_ALLOWED_FEATURES) {
        Some(BlockError::UnallowedFeature(
            features[first_unallowed_feature(features, FOUNDRY_ALLOWED_FEATURES, 0)].spec_kind(),
        ))
    } else if !distinct_feature_kinds(immutable_features) {
        Some(BlockError::DuplicateFeature(
            immutable_features[first_duplicate_feature(immutable_features, 0)].spec_kind(),
        ))
    } else if !features_allowed(immutable_features, FOUNDRY_ALLOWED_IMMUTABLE_FEATURES) {
        Some(BlockError::UnallowedFeature(
            immutable_features[first_unallowed_feature(
                immutable_features, FOUNDRY_ALLOWED_IMMUTABLE_FEATURES, 0,
            )].spec_kind(),
        ))
    } else if native_tokens.len() > NATIVE_TOKEN_COUNT_MAX {
        Some(BlockError::InvalidNativeTokenCount(native_tokens.len() as usize))
    } else if !distinct_token_ids(native_tokens) {
        Some(BlockError::DuplicateNativeToken)
    } else {
        None
    }
}

/// The error a checked foundry assembly reports: the first broken build
/// rule, else a bad amount.
pub open spec fn foundry_finish_error(
    native_tokens: Seq<NativeToken>,
    unlock_conditions: Seq<UnlockCondition>,
    features: Seq<Feature>,
    immutable_features: Seq<Feature>,
    amount: u64,
) -> BlockError {
    match foundry_build_error(native_tokens, unlock_conditions, features, immutable_features) {
        Some(e) => e,
        None => BlockError::InvalidOutputAmount(amount),
    }
}

/// Builds a foundry output field by field.
pub struct FoundryOutputBuilder {
    pub amount: u64,
    pub native_tokens: Vec<NativeToken>,
    pub serial_number: u32,
    pub token_scheme: TokenScheme,
    pub unlock_conditions: Vec<UnlockCondition>,
    pub features: Vec<Feature>,
    pub immutable_features: Vec<Feature>,
}

impl FoundryOutputBuilder {
    /// A builder with the provided amount.
    pub fn new_with_amount(amount: u64, serial_number: u32, token_scheme: TokenScheme) -> (r:
        Result<FoundryOutputBuilder, BlockError>)
        ensures
            r is Ok,
            r->Ok_0.amount == amount,
            r->Ok_0.serial_number == serial_number,
            r->Ok_0.token_scheme == token_scheme,
            r->Ok_0.native_tokens@ == Seq::<NativeToken>::empty(),
            r->Ok_0.unlock_conditions@ == Seq::<UnlockCondition>::empty(),
            r->Ok_0.features@ == Seq::<Feature>::empty(),
            r->Ok_0.immutable_features@ == Seq::<Feature>::empty(),
    {
        Ok(FoundryOutputBuilder {
            amount,
            native_tokens: Vec::new(),
            serial_number,
            token_scheme,
            unlock_conditions: Vec::new(),
            features: Vec::new(),
            immutable_features: Vec::new(),
        })
    }

    /// Sets the amount to the provided value.
    pub fn with_amount(self, amount: u64) -> (r: Result<FoundryOutputBuilder, BlockError>)
        ensures
            r is Ok,
            r->Ok_0 == (FoundryOutputBuilder { amount, ..self }),
    {
        let mut b = self;
        b.amount = amount;
        Ok(b)
    }

    /// Adds one native token.
    pub fn add_native_token(self, native_token: NativeToken) -> (r: FoundryOutputBuilder)
        ensures
            r == (FoundryOutputBuilder { native_tokens: r.native_tokens, ..self }),
            r.native_tokens@ == self.native_tokens@.push(native_token),
    {
        let mut b = self;
        b.native_tokens.push(native_token);
        b
    }

    /// Replaces the native tokens with the given list.
    pub fn with_native_tokens(self, native_tokens: Vec<NativeToken>) -> (r: FoundryOutputBuilder)
        ensures
            r == (FoundryOutputBuilder { native_tokens: r.native_tokens, ..self }),
            r.native_tokens@ == native_tokens@,
    {
        let mut b = self;
        b.native_tokens = native_tokens;
        b
    }

    /// Sets the serial number to the provided value.
    pub fn with_serial_number(self, serial_number: u32) -> (r: FoundryOutputBuilder)
        ensures
            r == (FoundryOutputBuilder { serial_number, ..self }),
    {
        let mut b = self;
        b.serial_number = serial_number;
        b
    }

    /// Sets the token scheme to the provided value.
    pub fn with_token_scheme(self, token_scheme: TokenScheme) -> (r: FoundryOutputBuilder)
        ensures
            r == (FoundryOutputBuilder { token_scheme, ..self }),
    {
        let mut b = self;
        b.token_scheme = token_scheme;
        b
    }

    /// Adds one unlock condition.
    pub fn add_unlock_condition(self, unlock_condition: UnlockCondition) -> (r:
        FoundryOutputBuilder)
        ensures
            r == (FoundryOutputBuilder { unlock_conditions: r.unlock_conditions, ..self }),
            r.unlock_conditions@ == self.unlock_conditions@.push(unlock_condition),
    {
        let mut b = self;
        b.unlock_conditions.push(unlock_condition);
        b
    }

    /// Replaces the unlock conditions with the given list.
    pub fn with_unlock_conditions(self, unlock_conditions: Vec<UnlockCondition>) -> (r:
        FoundryOutputBuilder)
        ensures
            r == (FoundryOutputBuilder { unlock_conditions: r.unlock_conditions, ..self }),
            r.unlock_conditions@ == unlock_conditions@,
    {
        let mut b = self;
        b.unlock_conditions = unlock_conditions;
        b
    }

    /// Replaces the first unlock condition of the same kind; an absent kind
    /// cannot be replaced.
    pub fn replace_unlock_condition(self, unlock_condition: UnlockCondition) -> (r: Result<
        FoundryOutputBuilder,
        BlockError,
    >)
        ensures
            ({
                let j = unlock_kind_index(
                    self.unlock_conditions@, unlock_condition.spec_kind(), 0,
                );
                if j < self.unlock_conditions@.len() {
                    r is Ok && r->Ok_0 == (FoundryOutputBuilder {
                        unlock_conditions: r->Ok_0.unlock_conditions,
                        ..self
                    }) && r->Ok_0.unlock_conditions@ == self.unlock_conditions@.update(
                        j, unlock_condition,
                    )
                } else {
                    r == Err::<FoundryOutputBuilder, BlockError>(
                        BlockError::CannotReplaceMissingField,
                    )
                }
            }),
    {
        let mut b = self;
        let kind = unlock_condition.kind();
        let n = b.unlock_conditions.len();
        let mut i: usize = 0;
        while i < n
            invariant
                0 <= i <= n,
                n == b.unlock_conditions@.len(),
                b == (FoundryOutputBuilder { unlock_conditions: b.unlock_conditions, ..self }),
                b.unlock_conditions@ == self.unlock_conditions@,
                kind == unlock_condition.spec_kind(),
                forall|k: int|
                    0 <= k < i ==> (#[trigger] b.unlock_conditions@[k]).spec_kind() != kind,
            decreases n - i,
        {
            if b.unlock_conditions[i].kind() == kind {
                proof {
                    lemma_unlock_kind_index_miss(b.unlock_conditions@, kind, 0, i as int);
                    assert(unlock_kind_index(b.unlock_conditions@, kind, i as int) == i as int);
                }
                b.unlock_conditions[i] = unlock_condition;
                return Ok(b);
            }
            i += 1;
        }
        proof {
            lemma_unlock_kind_index_miss(b.unlock_conditions@, kind, 0, n as int);
            assert(unlock_kind_index(b.unlock_conditions@, kind, n as int) == n as int);
        }
        Err(BlockError::CannotReplaceMissingField)
    }

    /// Adds one feature.
    pub fn add_feature(self, feature: Feature) -> (r: FoundryOutputBuilder)
        ensures
            r == (FoundryOutputBuilder { features: r.features, ..self }),
            r.features@ == self.features@.push(feature),
    {
        let mut b = self;
        b.features.push(feature);
        b
    }

    /// Replaces the features with the given list.
    pub fn with_features(self, features: Vec<Feature>) -> (r: FoundryOutputBuilder)
        ensures
            r == (FoundryOutputBuilder { features: r.features, ..self }),
            r.features@ == features@,
    {
        let mut b = self;
        b.features = features;
        b
    }

    /// Replaces the first feature of the same kind; an absent kind cannot be
    /// replaced.
    pub fn replace_feature(self, feature: Feature) -> (r: Result<FoundryOutputBuilder, BlockError>)
        ensures
            ({
                let j = feature_kind_index(self.features@, feature.spec_kind(), 0);
                if j < self.features@.len() {
                    r is Ok && r->Ok_0 == (FoundryOutputBuilder {
                        features: r->Ok_0.features,
                        ..self
                    }) && r->Ok_0.features@ == self.features@.update(j, feature)
                } else {
                    r == Err::<FoundryOutputBuilder, BlockError>(
                        BlockError::CannotReplaceMissingField,
                    )
                }
            }),
    {
        let mut b = self;
        let kind = feature.kind();
        let n = b.features.len();
        let mut i: usize = 0;
        while i < n
            invariant
                0 <= i <= n,
                n == b.features@.len(),
                b == (FoundryOutputBuilder { features: b.features, ..self }),
                b.features@ == self.features@,
                kind == feature.spec_kind(),
                forall|k: int| 0 <= k < i ==> (#[trigger] b.features@[k]).spec_kind() != kind,
            decreases n - i,
        {
            if b.features[i].kind() == kind {
                proof {
                    lemma_feature_kind_index_miss(b.features@, kind, 0, i as int);
                    assert(feature_kind_index(b.features@, kind, i as int) == i as int);
                }
                b.features[i] = feature;
                return Ok(b);
            }
            i += 1;
        }
        proof {
            lemma_feature_kind_index_miss(b.features@, kind, 0, n as int);
            assert(feature_kind_index(b.features@, kind, n as int) == n as int);
        }
        Err(BlockError::CannotReplaceMissingField)
    }

    /// Adds one immutable feature.
    pub fn add_immutable_feature(self, immutable_feature: Feature) -> (r: FoundryOutputBuilder)
        ensures
            r == (FoundryOutputBuilder { immutable_features: r.immutable_features, ..self }),
            r.immutable_features@ == self.immutable_features@.push(immutable_feature),
    {
        let mut b = self;
        b.immutable_features.push(immutable_feature);
        b
    }

    /// Replaces the immutable features with the given list.
    pub fn with_immutable_features(self, immutable_features: Vec<Feature>) -> (r:
        FoundryOutputBuilder)
        ensures
            r == (FoundryOutputBuilder { immutable_features: r.immutable_features, ..self }),
            r.immutable_features@ == immutable_features@,
    {
        let mut b = self;
        b.immutable_features = immutable_features;
        b
    }

    /// Replaces the first immutable feature of the same kind; an absent kind
    /// cannot be replaced.
    pub fn replace_immutable_feature(self, immutable_feature: Feature) -> (r: Result<
        FoundryOutputBuilder,
        BlockError,
    >)
        ensures
            ({
                let j = feature_kind_index(
                    self.immutable_features@, immutable_feature.spec_kind(), 0,
                );
                if j < self.immutable_features@.len() {
                    r is Ok && r->Ok_0 == (FoundryOutputBuilder {
                        immutable_features: r->Ok_0.immutable_features,
                        ..self
                    }) && r->Ok_0.immutable_features@ == self.immutable_features@.update(
                        j, immutable_feature,
                    )
                } else {
                    r == Err::<FoundryOutputBuilder, BlockError>(
                        BlockError::CannotReplaceMissingField,
                    )
                }
            }),
    {
        let mut b = self;
        let kind = immutable_feature.kind();
        let n = b.immutable_features.len();
        let mut i: usize = 0;
        while i < n
            invariant
                0 <= i <= n,
                n == b.immutable_features@.len(),
                b == (FoundryOutputBuilder { immutable_features: b.immutable_features, ..self }),
                b.immutable_features@ == self.immutable_features@,
                kind == immutable_feature.spec_kind(),
                forall|k: int|
                    0 <= k < i ==> (#[trigger] b.immutable_features@[k]).spec_kind() != kind,
            decreases n - i,
        {
            if b.immutable_features[i].kind() == kind {
                proof {
                    lemma_feature_kind_index_miss(b.immutable_features@, kind, 0, i as int);
                    assert(feature_kind_index(b.immutable_features@, kind, i as int) == i as int);
                }
                b.immutable_features[i] = immutable_feature;
                return Ok(b);
            }
            i += 1;
        }
        proof {
            lemma_feature_kind_index_miss(b.immutable_features@, kind, 0, n as int);
            assert(feature_kind_index(b.immutable_features@, kind, n as int) == n as int);
        }
        Err(BlockError::CannotReplaceMissingField)
    }

    /// Assembles the foundry output, checking everything but the amount:
    /// unlock conditions unique, an immutable alias address present and
    /// nothing disallowed; features unique and allowed, both lists; native
    /// tokens within the bound and distinct.
    pub fn finish_unverified(self) -> (r: Result<FoundryOutput, BlockError>)
        ensures
            r is Ok <==> foundry_build_valid(
                self.native_tokens@, self.unlock_conditions@, self.features@,
                self.immutable_features@,
            ),
            r is Err ==> r == Err::<FoundryOutput, BlockError>(foundry_build_error(
                self.native_tokens@, self.unlock_conditions@, self.features@,
                self.immutable_features@,
            ).unwrap()),
            r is Ok ==> ({
                let o = r->Ok_0;
                &&& o.amount == self.amount
                &&& o.native_tokens@ == self.native_tokens@
                &&& o.serial_number == self.serial_number
                &&& o.token_scheme == self.token_scheme
                &&& o.unlock_conditions@ == self.unlock_conditions@
                &&& o.features@ == self.features@
                &&& o.immutable_features@ == self.immutable_features@
                &&& o.wf()
            }),
    {
        let unlock_conditions = match UnlockConditions::new(self.unlock_conditions) {
            Ok(u) => u,
            Err(e) => {
                return Err(e);
            },
        };
        match unlock_conditions.immutable_alias_address() {
            Some(_) => {},
            None => {
                return Err(BlockError::MissingAddressUnlockCondition);
            },
        }
        match verify_allowed_unlock_conditions(&unlock_conditions, FOUNDRY_ALLOWED_UNLOCK_CONDITIONS) {
            Ok(()) => {},
            Err(e) => {
                return Err(e);
            },
        }
        let features = match Features::new(self.features) {
            Ok(f) => f,
            Err(e) => {
                return Err(e);
            },
        };
        match verify_allowed_features(&features, FOUNDRY_ALLOWED_FEATURES) {
            Ok(()) => {},
            Err(e) => {
                return Err(e);
            },
        }
        let immutable_features = match Features::new(self.immutable_features) {
            Ok(f) => f,
            Err(e) => {
                return Err(e);
            },
        };
        match verify_allowed_features(&immutable_features, FOUNDRY_ALLOWED_IMMUTABLE_FEATURES) {
            Ok(()) => {},
            Err(e) => {
                return Err(e);
            },
        }
        let native_tokens = match NativeTokens::new(self.native_tokens) {
            Ok(t) => t,
            Err(e) => {
                return Err(e);
            },
        };
        Ok(FoundryOutput {
            amount: self.amount,
            native_tokens,
            serial_number: self.serial_number,
            token_scheme: self.token_scheme,
            unlock_conditions,
            features,
            immutable_features,
        })
    }

    /// Assembles the foundry output and holds its amount against the token
    /// supply.
    pub fn finish(self, token_supply: u64) -> (r: Result<FoundryOutput, BlockError>)
        ensures
            r is Ok <==> (foundry_build_valid(
                self.native_tokens@, self.unlock_conditions@, self.features@,
                self.immutable_features@,
            ) && valid_output_amount(self.amount, token_supply)),
            r is Err ==> r == Err::<FoundryOutput, BlockError>(foundry_finish_error(
                self.native_tokens@, self.unlock_conditions@, self.features@,
                self.immutable_features@, self.amount,
            )),
            r is Ok ==> ({
                let o = r->Ok_0;
                &&& o.amount == self.amount
                &&& o.native_tokens@ == self.native_tokens@
                &&& o.serial_number == self.serial_number
                &&& o.token_scheme == self.token_scheme
                &&& o.unlock_conditions@ == self.unlock_conditions@
                &&& o.features@ == self.features@
                &&& o.immutable_features@ == self.immutable_features@
                &&& o.wf()
            }),
    {
        let output = match self.finish_unverified() {
            Ok(o) => o,
            Err(e) => {
                return Err(e);
            },
        };
        match verify_output_amount(output.amount, token_supply) {
            Ok(()) => Ok(output),
            Err(e) => Err(e),
        }
    }

    /// Assembles the foundry output as a ledger output: the wrapped output
    /// carries the builder's fields, and every assembly error propagates
    /// unchanged.
    pub fn finish_output(self, token_supply: u64) -> (r: Result<Output, BlockError>)
        ensures
            r is Ok <==> (foundry_build_valid(
                self.native_tokens@, self.unlock_conditions@, self.features@,
                self.immutable_features@,
            ) && valid_output_amount(self.amount, token_supply)),
            r is Ok ==> r->Ok_0 is Foundry && ({
                let o = r->Ok_0->Foundry_0;
                &&& o.amount == self.amount
                &&& o.native_tokens@ == self.native_tokens@
                &&& o.serial_number == self.serial_number
                &&& o.token_scheme == self.token_scheme
                &&& o.unlock_conditions@ == self.unlock_conditions@
                &&& o.features@ == self.features@
                &&& o.immutable_features@ == self.immutable_features@
                &&& o.wf()
            }),
            r is Err ==> r == Err::<Output, BlockError>(foundry_finish_error(
                self.native_tokens@, self.unlock_conditions@, self.features@,
                self.immutable_features@, self.amount,
            )),
    {
        match self.finish(token_supply) {
            Ok(o) => Ok(Output::Foundry(o)),
            Err(e) => Err(e),
        }
    }
}

/// A foundry output: controlled by an alias, minting and melting one native
/// token.
pub struct FoundryOutput {
    pub amount: u64,
    pub native_tokens: NativeTokens,
    pub serial_number: u32,
    pub token_scheme: TokenScheme,
    pub unlock_conditions: UnlockConditions,
    pub features: Features,
    pub immutable_features: Features,
}

impl FoundryOutput {
    /// A built foundry output passed every build-time check.
    pub open spec fn wf(self) -> bool {
        foundry_build_valid(
            self.native_tokens@, self.unlock_conditions@, self.features@,
            self.immutable_features@,
        )
    }

    /// The controlling alias address, as the unlock conditions state it.
    pub open spec fn spec_alias_address(self) -> AliasAddress {
        spec_unlock_of_kind(
            self.unlock_conditions@, UNLOCK_KIND_IMMUTABLE_ALIAS,
        )->0->ImmutableAliasAddress_0
    }

    /// The foundry's identifier as the specification sees it.
    pub open spec fn spec_id(self) -> FoundryId {
        FoundryId {
            alias_address: self.spec_alias_address(),
            serial_number: self.serial_number,
            token_scheme_kind: self.token_scheme.spec_kind(),
        }
    }

    /// A new foundry output with the provided amount.
    pub fn new_with_amount(
        amount: u64,
        serial_number: u32,
        token_scheme: TokenScheme,
        token_supply: u64,
    ) -> (r: Result<FoundryOutput, BlockError>)
        ensures
            r is Ok <==> (foundry_build_valid(
                Seq::<NativeToken>::empty(), Seq::<UnlockCondition>::empty(),
                Seq::<Feature>::empty(), Seq::<Feature>::empty(),
            ) && valid_output_amount(amount, token_supply)),
    {
        let builder = match FoundryOutputBuilder::new_with_amount(amount, serial_number, token_scheme) {
            Ok(b) => b,
            Err(e) => {
                return Err(e);
            },
        };
        builder.finish(token_supply)
    }

    /// A builder with the provided amount and no tokens, conditions or
    /// features yet.
    pub fn build_with_amount(amount: u64, serial_number: u32, token_scheme: TokenScheme) -> (r:
        Result<FoundryOutputBuilder, BlockError>)
        ensures
            r is Ok,
            r->Ok_0.amount == amount,
            r->Ok_0.serial_number == serial_number,
            r->Ok_0.token_scheme == token_scheme,
            r->Ok_0.native_tokens@ == Seq::<NativeToken>::empty(),
            r->Ok_0.unlock_conditions@ == Seq::<UnlockCondition>::empty(),
            r->Ok_0.features@ == Seq::<Feature>::empty(),
            r->Ok_0.immutable_features@ == Seq::<Feature>::empty(),
    {
        FoundryOutputBuilder::new_with_amount(amount, serial_number, token_scheme)
    }

    /// The amount of base tokens held.
    pub fn amount(&self) -> (r: u64)
        ensures
            r == self.amount,
    {
        self.amount
    }

    /// The native tokens held.
    pub fn native_tokens(&self) -> (r: &NativeTokens)
        ensures
            r == &self.native_tokens,
    {
        &self.native_tokens
    }

    /// The serial number with respect to the controlling alias.
    pub fn serial_number(&self) -> (r: u32)
        ensures
            r == self.serial_number,
    {
        self.serial_number
    }

    /// The token scheme.
    pub fn token_scheme(&self) -> (r: &TokenScheme)
        ensures
            r == &self.token_scheme,
    {
        &self.token_scheme
    }

    /// The unlock conditions.
    pub fn unlock_conditions(&self) -> (r: &UnlockConditions)
        ensures
            r == &self.unlock_conditions,
    {
        &self.unlock_conditions
    }

    /// The features.
    pub fn features(&self) -> (r: &Features)
        ensures
            r == &self.features,
    {
        &self.features
    }

    /// The immutable features.
    pub fn immutable_features(&self) -> (r: &Features)
        ensures
            r == &self.immutable_features,
    {
        &self.immutable_features
    }

    /// The controlling alias address. Every foundry output carries an
    /// immutable alias address unlock condition.
    pub fn alias_address(&self) -> (r: AliasAddress)
        requires
            self.wf(),
        ensures
            r == self.spec_alias_address(),
    {
        match self.unlock_conditions.immutable_alias_address() {
            Some(a) => a,
            None => {
                proof {
                    assert(false);
                }
                AliasAddress { alias_id: crate::output::parts::AliasId { hi: 0, lo: 0 } }
            },
        }
    }

    /// The foundry's identifier: its alias address, serial number, and token
    /// scheme kind.
    pub fn id(&self) -> (r: FoundryId)
        requires
            self.wf(),
        ensures
            r == self.spec_id(),
    {
        FoundryId::build(self.alias_address(), self.serial_number, self.token_scheme.kind())
    }

    /// The identifier of the native token this foundry mints.
    pub fn token_id(&self) -> (r: TokenId)
        requires
            self.wf(),
        ensures
            r == (TokenId { foundry_id: self.spec_id() }),
    {
        TokenId::from_foundry_id(self.id())
    }

    /// The chain identifier this foundry keeps across transactions.
    pub fn chain_id(&self) -> (r: ChainId)
        requires
            self.wf(),
        ensures
            r == ChainId::Foundry(self.spec_id()),
    {
        ChainId::Foundry(self.id())
    }

    /// Judges the creation of this foundry: its controlling alias must move
    /// through the transaction and claim its serial number, no token of its
    /// kind may exist on the input side, and the output side must hold
    /// exactly what was minted, with nothing melted yet.
    pub fn creation(next_state: &FoundryOutput, context: &ValidationContext) -> (r: Result<
        (),
        StateTransitionError,
    >)
        requires
            next_state.wf(),
        ensures
            ({
                let acid = ChainId::Alias(next_state.spec_alias_address().alias_id);
                let tid = TokenId { foundry_id: next_state.spec_id() };
                let output_tokens = spec_token_amount(context.output_native_tokens@, tid);
                let scheme = next_state.token_scheme->Simple_0;
                match (
                    spec_chain_lookup(context.input_chains@, acid),
                    spec_chain_lookup(context.output_chains@, acid),
                ) {
                    (Some(Output::Alias(input_alias)), Some(Output::Alias(output_alias))) => {
                        if input_alias.foundry_counter >= next_state.serial_number
                            || next_state.serial_number > output_alias.foundry_counter {
                            r == Err::<(), StateTransitionError>(
                                StateTransitionError::InconsistentFoundrySerialNumber,
                            )
                        } else if spec_has_token(context.input_native_tokens@, tid) {
                            r == Err::<(), StateTransitionError>(
                                StateTransitionError::InconsistentNativeTokensFoundryCreation,
                            )
                        } else if output_tokens != scheme.minted || scheme.melted != 0 {
                            r == Err::<(), StateTransitionError>(
                                StateTransitionError::InconsistentNativeTokensFoundryCreation,
                            )
                        } else {
                            r == Ok::<(), StateTransitionError>(())
                        }
                    },
                    _ => r == Err::<(), StateTransitionError>(
                        StateTransitionError::MissingAliasForFoundry,
                    ),
                }
            }),
    {
        let alias_chain_id = ChainId::Alias(next_state.alias_address().alias_id());
        let input_alias = match chain_lookup(&context.input_chains, alias_chain_id) {
            Some(o) => match o {
                Output::Alias(a) => a,
                _ => {
                    return Err(StateTransitionError::MissingAliasForFoundry);
                },
            },
            None => {
                return Err(StateTransitionError::MissingAliasForFoundry);
            },
        };
        let output_alias = match chain_lookup(&context.output_chains, alias_chain_id) {
            Some(o) => match o {
                Output::Alias(a) => a,
                _ => {
                    return Err(StateTransitionError::MissingAliasForFoundry);
                },
            },
            None => {
                return Err(StateTransitionError::MissingAliasForFoundry);
            },
        };
        if input_alias.foundry_counter >= next_state.serial_number
            || next_state.serial_number > output_alias.foundry_counter {
            return Err(StateTransitionError::InconsistentFoundrySerialNumber);
        }
        let token_id = next_state.token_id();
        let output_tokens = token_amount(&context.output_native_tokens, token_id);
        let next_scheme = match &next_state.token_scheme {
            TokenScheme::Simple(s) => s,
        };
        // No native tokens should be referenced prior to the foundry creation.
        if has_token(&context.input_native_tokens, token_id) {
            return Err(StateTransitionError::InconsistentNativeTokensFoundryCreation);
        }
        if output_tokens != next_scheme.minted_tokens() || next_scheme.melted_tokens() != 0 {
            return Err(StateTransitionError::InconsistentNativeTokensFoundryCreation);
        }
        Ok(())
    }

    /// Judges a transition of this foundry: the controlling alias, the
    /// serial number, the immutable features and the maximum supply never
    /// change; the minted and melted counters only grow; and the difference
    /// between the input and output sides of its token must account exactly
    /// for what was minted, or stay within what was melted or burned.
    pub fn transition(
        current_state: &FoundryOutput,
        next_state: &FoundryOutput,
        context: &ValidationContext,
    ) -> (r: Result<(), StateTransitionError>)
        requires
            current_state.wf(),
            next_state.wf(),
        ensures
            ({
                let tid = TokenId { foundry_id: next_state.spec_id() };
                let input_tokens = spec_token_amount(context.input_native_tokens@, tid);
                let output_tokens = spec_token_amount(context.output_native_tokens@, tid);
                let cur = current_state.token_scheme->Simple_0;
                let next = next_state.token_scheme->Simple_0;
                if current_state.spec_alias_address() != next_state.spec_alias_address()
                    || current_state.serial_number != next_state.serial_number
                    || !crate::output::parts::features_match(
                    current_state.immutable_features@, next_state.immutable_features@,
                ) {
                    r == Err::<(), StateTransitionError>(
                        StateTransitionError::MutatedImmutableField,
                    )
                } else if cur.maximum != next.maximum {
                    r == Err::<(), StateTransitionError>(
                        StateTransitionError::MutatedImmutableField,
                    )
                } else if cur.minted > next.minted || cur.melted > next.melted {
                    r == Err::<(), StateTransitionError>(
                        StateTransitionError::NonMonotonicallyIncreasingNativeTokens,
                    )
                } else if input_tokens < output_tokens {
                    if next.minted - cur.minted != output_tokens - input_tokens
                        || cur.melted != next.melted {
                        r == Err::<(), StateTransitionError>(
                            StateTransitionError::InconsistentNativeTokensMint,
                        )
                    } else {
                        r == Ok::<(), StateTransitionError>(())
                    }
                } else if input_tokens == output_tokens {
                    if cur.minted != next.minted || cur.melted != next.melted {
                        r == Err::<(), StateTransitionError>(
                            StateTransitionError::InconsistentNativeTokensTransition,
                        )
                    } else {
                        r == Ok::<(), StateTransitionError>(())
                    }
                } else {
                    if (cur.melted != next.melted && cur.minted != next.minted)
                        || next.melted - cur.melted > input_tokens - output_tokens {
                        r == Err::<(), StateTransitionError>(
                            StateTransitionError::InconsistentNativeTokensMeltBurn,
                        )
                    } else {
                        r == Ok::<(), StateTransitionError>(())
                    }
                }
            }),
    {
        if !(current_state.alias_address() == next_state.alias_address())
            || current_state.serial_number != next_state.serial_number
            || !current_state.immutable_features.equals(&next_state.immutable_features) {
            return Err(StateTransitionError::MutatedImmutableField);
        }
        let token_id = next_state.token_id();
        let input_tokens = token_amount(&context.input_native_tokens, token_id);
        let output_tokens = token_amount(&context.output_native_tokens, token_id);
        let current_scheme = match &current_state.token_scheme {
            TokenScheme::Simple(s) => s,
        };
        let next_scheme = match &next_state.token_scheme {
            TokenScheme::Simple(s) => s,
        };
        if current_scheme.maximum_supply() != next_scheme.maximum_supply() {
            return Err(StateTransitionError::MutatedImmutableField);
        }
        if current_scheme.minted_tokens() > next_scheme.minted_tokens()
            || current_scheme.melted_tokens() > next_scheme.melted_tokens() {
            return Err(StateTransitionError::NonMonotonicallyIncreasingNativeTokens);
        }
        if input_tokens < output_tokens {
            // Mint: what was minted is exactly what appeared, and nothing
            // was melted meanwhile.
            let minted_diff = next_scheme.minted_tokens() - current_scheme.minted_tokens();
            let token_diff = output_tokens - input_tokens;
            if minted_diff != token_diff {
                return Err(StateTransitionError::InconsistentNativeTokensMint);
            }
            if current_scheme.melted_tokens() != next_scheme.melted_tokens() {
                return Err(StateTransitionError::InconsistentNativeTokensMint);
            }
        } else if input_tokens == output_tokens {
            // Plain transition: the counters stand still.
            if current_scheme.minted_tokens() != next_scheme.minted_tokens()
                || current_scheme.melted_tokens() != next_scheme.melted_tokens() {
                return Err(StateTransitionError::InconsistentNativeTokensTransition);
            }
        } else {
            // Melt or burn: what was melted stays within what disappeared.
            if current_scheme.melted_tokens() != next_scheme.melted_tokens()
                && current_scheme.minted_tokens() != next_scheme.minted_tokens() {
                return Err(StateTransitionError::InconsistentNativeTokensMeltBurn);
            }
            let melted_diff = next_scheme.melted_tokens() - current_scheme.melted_tokens();
            let token_diff = input_tokens - output_tokens;
            if melted_diff > token_diff {
                return Err(StateTransitionError::InconsistentNativeTokensMeltBurn);
            }
        }
        Ok(())
    }

    /// Judges the destruction of this foundry: no token of its kind may
    /// remain on the output side, and the input side must hold exactly the
    /// circulating supply — everything minted and not melted.
    pub fn destruction(current_state: &FoundryOutput, context: &ValidationContext) -> (r: Result<
        (),
        StateTransitionError,
    >)
        requires
            current_state.wf(),
            current_state.token_scheme->Simple_0.wf(),
        ensures
            ({
                let tid = TokenId { foundry_id: current_state.spec_id() };
                let input_tokens = spec_token_amount(context.input_native_tokens@, tid);
                let cur = current_state.token_scheme->Simple_0;
                if spec_has_token(context.output_native_tokens@, tid) {
                    r == Err::<(), StateTransitionError>(
                        StateTransitionError::InconsistentNativeTokensFoundryDestruction,
                    )
                } else if cur.minted - cur.melted != input_tokens {
                    r == Err::<(), StateTransitionError>(
                        StateTransitionError::InconsistentNativeTokensFoundryDestruction,
                    )
                } else {
                    r == Ok::<(), StateTransitionError>(())
                }
            }),
    {
        let token_id = current_state.token_id();
        let input_tokens = token_amount(&context.input_native_tokens, token_id);
        let current_scheme = match &current_state.token_scheme {
            TokenScheme::Simple(s) => s,
        };
        // No native tokens should be referenced after the foundry destruction.
        if has_token(&context.output_native_tokens, token_id) {
            return Err(StateTransitionError::InconsistentNativeTokensFoundryDestruction);
        }
        // The scheme keeps melted at or below minted, so this cannot
        // underflow.
        let minted_melted_diff = current_scheme.minted_tokens() - current_scheme.melted_tokens();
        if minted_melted_diff != input_tokens {
            return Err(StateTransitionError::InconsistentNativeTokensFoundryDestruction);
        }
        Ok(())
    }

    /// Reads a foundry output from its data-transfer form and holds it
    /// against the token supply.
    pub fn try_from_dto(value: FoundryOutputDto, token_supply: u64) -> (r: Result<
        FoundryOutput,
        DtoError,
    >)
        ensures
            r is Ok <==> ({
                let a = decimal_value(value.amount@);
                &&& is_decimal(value.amount@)
                &&& a <= u64::MAX
                &&& foundry_build_valid(
                    value.native_tokens@, value.unlock_conditions@, value.features@,
                    value.immutable_features@,
                )
                &&& valid_output_amount(a as u64, token_supply)
            }),
            r is Ok ==> ({
                let o = r->Ok_0;
                &&& o.amount as int == decimal_value(value.amount@)
                &&& o.native_tokens@ == value.native_tokens@
                &&& o.serial_number == value.serial_number
                &&& o.token_scheme == value.token_scheme
                &&& o.unlock_conditions@ == value.unlock_conditions@
                &&& o.features@ == value.features@
                &&& o.immutable_features@ == value.immutable_features@
                &&& o.wf()
            }),
            !(is_decimal(value.amount@) && decimal_value(value.amount@) <= u64::MAX) ==> r is Err
                && r->Err_0 is InvalidField && r->Err_0->InvalidField_0@ == "amount"@,
            is_decimal(value.amount@) && decimal_value(value.amount@) <= u64::MAX && r is Err
                ==> r == Err::<FoundryOutput, DtoError>(DtoError::Block(foundry_finish_error(
                value.native_tokens@, value.unlock_conditions@, value.features@,
                value.immutable_features@, decimal_value(value.amount@) as u64,
            ))),
    {
        let amount = match parse_u64_decimal(&value.amount) {
            Some(v) => v,
            None => {
                return Err(DtoError::InvalidField("amount".to_owned()));
            },
        };
        let builder = FoundryOutputBuilder {
            amount,
            native_tokens: value.native_tokens,
            serial_number: value.serial_number,
            token_scheme: value.token_scheme,
            unlock_conditions: value.unlock_conditions,
            features: value.features,
            immutable_features: value.immutable_features,
        };
        match builder.finish(token_supply) {
            Ok(o) => Ok(o),
            Err(e) => Err(DtoError::Block(e)),
        }
    }

    /// Reads a foundry output from its data-transfer form without holding
    /// the amount against the token supply.
    pub fn try_from_dto_unverified(value: FoundryOutputDto) -> (r: Result<FoundryOutput, DtoError>)
        ensures
            r is Ok <==> ({
                let a = decimal_value(value.amount@);
                &&& is_decimal(value.amount@)
                &&& a <= u64::MAX
                &&& foundry_build_valid(
                    value.native_tokens@, value.unlock_conditions@, value.features@,
                    value.immutable_features@,
                )
            }),
            r is Ok ==> ({
                let o = r->Ok_0;
                &&& o.amount as int == decimal_value(value.amount@)
                &&& o.native_tokens@ == value.native_tokens@
                &&& o.serial_number == value.serial_number
                &&& o.token_scheme == value.token_scheme
                &&& o.unlock_conditions@ == value.unlock_conditions@
                &&& o.features@ == value.features@
                &&& o.immutable_features@ == value.immutable_features@
                &&& o.wf()
            }),
            !(is_decimal(value.amount@) && decimal_value(value.amount@) <= u64::MAX) ==> r is Err
                && r->Err_0 is InvalidField && r->Err_0->InvalidField_0@ == "amount"@,
            is_decimal(value.amount@) && decimal_value(value.amount@) <= u64::MAX && r is Err
                ==> r == Err::<FoundryOutput, DtoError>(DtoError::Block(foundry_build_error(
                value.native_tokens@, value.unlock_conditions@, value.features@,
                value.immutable_features@,
            ).unwrap())),
    {
        let amount = match parse_u64_decimal(&value.amount) {
            Some(v) => v,
            None => {
                return Err(DtoError::InvalidField("amount".to_owned()));
            },
        };
        let builder = FoundryOutputBuilder {
            amount,
            native_tokens: value.native_tokens,
            serial_number: value.serial_number,
            token_scheme: value.token_scheme,
            unlock_conditions: value.unlock_conditions,
            features: value.features,
            immutable_features: value.immutable_features,
        };
        match builder.finish_unverified() {
            Ok(o) => Ok(o),
            Err(e) => Err(DtoError::Block(e)),
        }
    }

    /// Reads a foundry output from loose data-transfer parts: a textual
    /// amount and optional token and feature lists.
    pub fn try_from_dtos(
        amount: String,
        native_tokens: Option<Vec<NativeToken>>,
        serial_number: u32,
        token_scheme: TokenScheme,
        unlock_conditions: Vec<UnlockCondition>,
        features: Option<Vec<Feature>>,
        immutable_features: Option<Vec<Feature>>,
        token_supply: u64,
    ) -> (r: Result<FoundryOutput, DtoError>)
        ensures
            ({
                let nts = match native_tokens {
                    Some(v) => v@,
                    None => Seq::<NativeToken>::empty(),
                };
                let fs = match features {
                    Some(v) => v@,
                    None => Seq::<Feature>::empty(),
                };
                let imfs = match immutable_features {
                    Some(v) => v@,
                    None => Seq::<Feature>::empty(),
                };
                let a = decimal_value(amount@);
                &&& (r is Ok <==> (is_decimal(amount@) && a <= u64::MAX && foundry_build_valid(
                    nts, unlock_conditions@, fs, imfs,
                ) && valid_output_amount(a as u64, token_supply)))
                &&& (!(is_decimal(amount@) && a <= u64::MAX) ==> r is Err
                    && r->Err_0 is InvalidField && r->Err_0->InvalidField_0@ == "amount"@)
                &&& (is_decimal(amount@) && a <= u64::MAX && r is Err ==> r == Err::<
                    FoundryOutput,
                    DtoError,
                >(DtoError::Block(foundry_finish_error(
                    nts, unlock_conditions@, fs, imfs, a as u64,
                ))))
                &&& (r is Ok ==> ({
                    let o = r->Ok_0;
                    &&& o.amount as int == a
                    &&& o.native_tokens@ == nts
                    &&& o.serial_number == serial_number
                    &&& o.token_scheme == token_scheme
                    &&& o.unlock_conditions@ == unlock_conditions@
                    &&& o.features@ == fs
                    &&& o.immutable_features@ == imfs
                    &&& o.wf()
                }))
            }),
    {
        let parsed = match parse_u64_decimal(&amount) {
            Some(v) => v,
            None => {
                return Err(DtoError::InvalidField("amount".to_owned()));
            },
        };
        let builder = FoundryOutputBuilder {
            amount: parsed,
            native_tokens: match native_tokens {
                Some(v) => v,
                None => Vec::new(),
            },
            serial_number,
            token_scheme,
            unlock_conditions,
            features: match features {
                Some(v) => v,
                None => Vec::new(),
            },
            immutable_features: match immutable_features {
                Some(v) => v,
                None => Vec::new(),
            },
        };
        match builder.finish(token_supply) {
            Ok(o) => Ok(o),
            Err(e) => Err(DtoError::Block(e)),
        }
    }
}

/// The data-transfer form of a foundry output: the amount travels as text.
pub struct FoundryOutputDto {
    pub kind: u8,
    pub amount: String,
    pub native_tokens: Vec<NativeToken>,
    pub serial_number: u32,
    pub token_scheme: TokenScheme,
    pub unlock_conditions: Vec<UnlockCondition>,
    pub features: Vec<Feature>,
    pub immutable_features: Vec<Feature>,
}

} // verus!

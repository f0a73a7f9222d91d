//! The building blocks of outputs: identifiers, addresses, token schemes,
//! native tokens, features and unlock conditions.

use vstd::prelude::*;

verus! {

/// Everything that can be wrong with an output or one of its parts.
#[derive(Clone, Copy, Debug, PartialEq, Eq, Structural)]
pub enum BlockError {
    /// A replacement was asked for a field that is not present.
    CannotReplaceMissingField,
    /// The state metadata exceeds its maximum length.
    InvalidStateMetadataLength(usize),
    /// A foundry output needs an immutable alias address unlock condition.
    MissingAddressUnlockCondition,
    /// An alias output needs a state controller unlock condition.
    MissingStateControllerUnlockCondition,
    /// An alias output needs a governor unlock condition.
    MissingGovernorUnlockCondition,
    /// An alias output may not be controlled by its own alias address.
    SelfControlledAliasOutput(AliasId),
    /// A null alias id demands zero state index and foundry counter.
    NonZeroStateIndexOrFoundryCounter,
    /// The output amount is zero or exceeds the token supply.
    InvalidOutputAmount(u64),
    /// A feature kind that this output type does not allow.
    UnallowedFeature(u8),
    /// An unlock condition kind that this output type does not allow.
    UnallowedUnlockCondition(u8),
    /// Two features of the same kind.
    DuplicateFeature(u8),
    /// Two unlock conditions of the same kind.
    DuplicateUnlockCondition(u8),
    /// A native token with a zero amount.
    NativeTokensNullAmount,
    /// Too many native tokens on one output.
    InvalidNativeTokenCount(usize),
    /// The same native token listed twice.
    DuplicateNativeToken,
    /// Melted tokens exceed minted tokens, or the circulating supply exceeds
    /// the maximum supply.
    InvalidTokenScheme,
}

/// A 32-byte alias identifier, as two 128-bit halves.
#[derive(Clone, Copy, Debug, PartialEq, Eq, Structural)]
pub struct AliasId {
    pub hi: u128,
    pub lo: u128,
}

impl AliasId {
    /// All zeroes: the id of an alias in its very first transaction.
    pub open spec fn spec_is_null(self) -> bool {
        self.hi == 0 && self.lo == 0
    }

    /// A fresh identifier from its two halves.
    pub fn new(hi: u128, lo: u128) -> (r: AliasId)
        ensures
            r == (AliasId { hi, lo }),
    {
        AliasId { hi, lo }
    }

    /// The null identifier.
    pub fn null() -> (r: AliasId)
        ensures
            r.spec_is_null(),
    {
        AliasId { hi: 0, lo: 0 }
    }

    /// Whether this is the null identifier.
    pub fn is_null(&self) -> (r: bool)
        ensures
            r == self.spec_is_null(),
    {
        self.hi == 0 && self.lo == 0
    }
}

/// A 32-byte Ed25519 address, as two 128-bit halves.
#[derive(Clone, Copy, Debug, PartialEq, Eq, Structural)]
pub struct Ed25519Address {
    pub hi: u128,
    pub lo: u128,
}

/// The address of an alias account.
#[derive(Clone, Copy, Debug, PartialEq, Eq, Structural)]
pub struct AliasAddress {
    pub alias_id: AliasId,
}

impl AliasAddress {
    /// The address controlled by the given alias.
    pub fn new(alias_id: AliasId) -> (r: AliasAddress)
        ensures
            r == (AliasAddress { alias_id }),
    {
        AliasAddress { alias_id }
    }

    /// The alias that controls this address.
    pub fn alias_id(&self) -> (r: AliasId)
        ensures
            r == self.alias_id,
    {
        self.alias_id
    }
}

/// An address on the ledger.
#[derive(Clone, Copy, Debug, PartialEq, Eq, Structural)]
pub enum Address {
    Ed25519(Ed25519Address),
    Alias(AliasAddress),
}

/// The identifier of a foundry: its controlling alias address, its serial
/// number, and its token scheme kind.
#[derive(Clone, Copy, Debug, PartialEq, Eq, Structural)]
pub struct FoundryId {
    pub alias_address: AliasAddress,
    pub serial_number: u32,
    pub token_scheme_kind: u8,
}

impl FoundryId {
    /// The identifier built from its three parts.
    pub fn build(alias_address: AliasAddress, serial_number: u32, token_scheme_kind: u8) -> (r:
        FoundryId)
        ensures
            r == (FoundryId { alias_address, serial_number, token_scheme_kind }),
    {
        FoundryId { alias_address, serial_number, token_scheme_kind }
    }
}

/// The identifier of a native token: the foundry that mints it.
#[derive(Clone, Copy, Debug, PartialEq, Eq, Structural)]
pub struct TokenId {
    pub foundry_id: FoundryId,
}

impl TokenId {
    /// The token identifier of a foundry.
    pub fn from_foundry_id(foundry_id: FoundryId) -> (r: TokenId)
        ensures
            r == (TokenId { foundry_id }),
    {
        TokenId { foundry_id }
    }
}

/// A chain identifier: the identity an output keeps across transactions.
#[derive(Clone, Copy, Debug, PartialEq, Eq, Structural)]
pub enum ChainId {
    Alias(AliasId),
    Foundry(FoundryId),
}

/// A token scheme where tokens are minted and melted against a fixed
/// maximum supply.
#[derive(Clone, Copy, Debug, PartialEq, Eq, Structural)]
pub struct SimpleTokenScheme {
    pub minted: u128,
    pub melted: u128,
    pub maximum: u128,
}

impl SimpleTokenScheme {
    /// Melted never exceeds minted, and the circulating supply never exceeds
    /// the maximum.
    pub open spec fn wf(self) -> bool {
        self.melted <= self.minted && self.minted - self.melted <= self.maximum
    }

    pub open spec fn spec_minted(self) -> u128 {
        self.minted
    }

    pub open spec fn spec_melted(self) -> u128 {
        self.melted
    }

    pub open spec fn spec_maximum(self) -> u128 {
        self.maximum
    }

    /// A scheme from its counters; rejected unless melted stays at or below
    /// minted and the circulating supply fits the maximum.
    pub fn new(minted_tokens: u128, melted_tokens: u128, maximum_supply: u128) -> (r: Result<
        SimpleTokenScheme,
        BlockError,
    >)
        ensures
            r is Ok <==> (melted_tokens <= minted_tokens && minted_tokens - melted_tokens
                <= maximum_supply),
            r is Ok ==> r->Ok_0 == (SimpleTokenScheme {
                minted: minted_tokens,
                melted: melted_tokens,
                maximum: maximum_supply,
            }) && r->Ok_0.wf(),
            r is Err ==> r == Err::<SimpleTokenScheme, BlockError>(BlockError::InvalidTokenScheme),
    {
        if melted_tokens <= minted_tokens && minted_tokens - melted_tokens <= maximum_supply {
            Ok(SimpleTokenScheme { minted: minted_tokens, melted: melted_tokens, maximum: maximum_supply })
        } else {
            Err(BlockError::InvalidTokenScheme)
        }
    }

    /// How many tokens were ever minted.
    pub fn minted_tokens(&self) -> (r: u128)
        ensures
            r == self.spec_minted(),
    {
        self.minted
    }

    /// How many tokens were ever melted.
    pub fn melted_tokens(&self) -> (r: u128)
        ensures
            r == self.spec_melted(),
    {
        self.melted
    }

    /// The fixed maximum supply.
    pub fn maximum_supply(&self) -> (r: u128)
        ensures
            r == self.spec_maximum(),
    {
        self.maximum
    }
}

/// A token scheme.
#[derive(Clone, Copy, Debug, PartialEq, Eq, Structural)]
pub enum TokenScheme {
    Simple(SimpleTokenScheme),
}

impl TokenScheme {
    /// The scheme kind byte.
    pub open spec fn spec_kind(self) -> u8 {
        0
    }

    /// The scheme kind byte.
    pub fn kind(&self) -> (r: u8)
        ensures
            r == self.spec_kind(),
    {
        0
    }
}

/// An amount of one native token.
#[derive(Clone, Copy, Debug, PartialEq, Eq, Structural)]
pub struct NativeToken {
    pub token_id: TokenId,
    pub amount: u128,
}

impl NativeToken {
    pub open spec fn spec_token_id(self) -> TokenId {
        self.token_id
    }

    pub open spec fn spec_amount(self) -> u128 {
        self.amount
    }

    /// A native token amount; a zero amount is rejected.
    pub fn new(token_id: TokenId, amount: u128) -> (r: Result<NativeToken, BlockError>)
        ensures
            r is Ok <==> amount != 0,
            r is Ok ==> r->Ok_0 == (NativeToken { token_id, amount }),
            r is Err ==> r == Err::<NativeToken, BlockError>(BlockError::NativeTokensNullAmount),
    {
        if amount == 0 {
            Err(BlockError::NativeTokensNullAmount)
        } else {
            Ok(NativeToken { token_id, amount })
        }
    }

    /// The token this amount is of.
    pub fn token_id(&self) -> (r: TokenId)
        ensures
            r == self.spec_token_id(),
    {
        self.token_id
    }

    /// The amount held.
    pub fn amount(&self) -> (r: u128)
        ensures
            r == self.spec_amount(),
    {
        self.amount
    }
}

/// At most this many native tokens on one output.
pub const NATIVE_TOKEN_COUNT_MAX: usize = 64;

/// Pairwise distinct token identifiers.
pub open spec fn distinct_token_ids(s: Seq<NativeToken>) -> bool {
    forall|i: int, j: int|
        0 <= i < j < s.len() ==> (#[trigger] s[i]).spec_token_id() != (#[trigger] s[j]).spec_token_id()
}

/// The native tokens held by one output: at most 64, with pairwise distinct
/// token identifiers, kept in the order they were given.
#[derive(Debug, PartialEq, Eq)]
pub struct NativeTokens {
    inner: Vec<NativeToken>,
}

impl View for NativeTokens {
    type V = Seq<NativeToken>;

    closed spec fn view(&self) -> Seq<NativeToken> {
        self.inner@
    }
}

impl NativeTokens {
    /// Distinct identifiers, within the count bound.
    pub open spec fn wf(self) -> bool {
        distinct_token_ids(self@) && self@.len() <= NATIVE_TOKEN_COUNT_MAX
    }

    /// Wraps the given tokens; rejected when over the count bound or when a
    /// token identifier repeats.
    pub fn new(tokens: Vec<NativeToken>) -> (r: Result<NativeTokens, BlockError>)
        ensures
            r is Ok <==> (tokens@.len() <= NATIVE_TOKEN_COUNT_MAX && distinct_token_ids(tokens@)),
            r is Ok ==> r->Ok_0@ == tokens@ && r->Ok_0.wf(),
            tokens@.len() > NATIVE_TOKEN_COUNT_MAX ==> r == Err::<NativeTokens, BlockError>(
                BlockError::InvalidNativeTokenCount(tokens.len()),
            ),
            tokens@.len() <= NATIVE_TOKEN_COUNT_MAX && !distinct_token_ids(tokens@) ==> r == Err::<
                NativeTokens,
                BlockError,
            >(BlockError::DuplicateNativeToken),
    {
        if tokens.len() > NATIVE_TOKEN_COUNT_MAX {
            return Err(BlockError::InvalidNativeTokenCount(tokens.len()));
        }
        let n = tokens.len();
        let mut i: usize = 0;
        while i < n
            invariant
                0 <= i <= n,
                n == tokens@.len(),
                n <= NATIVE_TOKEN_COUNT_MAX,
                forall|a: int, b: int|
                    0 <= a < b < n && a < i ==> (#[trigger] tokens@[a]).spec_token_id()
                        != (#[trigger] tokens@[b]).spec_token_id(),
            decreases n - i,
        {
            let mut j: usize = i + 1;
            while j < n
                invariant
                    0 <= i < j <= n,
                    n == tokens@.len(),
                    n <= NATIVE_TOKEN_COUNT_MAX,
                    forall|b: int|
                        i < b < j ==> (#[trigger] tokens@[b]).spec_token_id()
                            != tokens@[i as int].spec_token_id(),
                decreases n - j,
            {
                if tokens[j].token_id() == tokens[i].token_id() {
                    return Err(BlockError::DuplicateNativeToken);
                }
                j += 1;
            }
            i += 1;
        }
        Ok(NativeTokens { inner: tokens })
    }

    /// How many native tokens are held.
    pub fn len(&self) -> (r: usize)
        ensures
            r == self@.len(),
    {
        self.inner.len()
    }

    /// Whether no native token is held.
    pub fn is_empty(&self) -> (r: bool)
        ensures
            r == (self@.len() == 0),
    {
        self.inner.len() == 0
    }

    /// The token at the given position.
    pub fn get(&self, i: usize) -> (r: NativeToken)
        requires
            i < self@.len(),
        ensures
            r == self@[i as int],
    {
        self.inner[i]
    }

    /// The tokens as a fresh list.
    pub fn to_vec(&self) -> (r: Vec<NativeToken>)
        ensures
            r@ == self@,
    {
        let mut out: Vec<NativeToken> = Vec::new();
        let n = self.inner.len();
        let mut i: usize = 0;
        while i < n
            invariant
                0 <= i <= n,
                n == self.inner@.len(),
                out@ == self.inner@.take(i as int),
            decreases n - i,
        {
            out.push(self.inner[i]);
            proof {
                assert(out@ =~= self.inner@.take(i as int + 1));
            }
            i += 1;
        }
        proof {
            assert(self.inner@.take(n as int) =~= self.inner@);
        }
        out
    }

    /// Element-wise equality.
    pub fn equals(&self, other: &NativeTokens) -> (r: bool)
        ensures
            r == (self@ =~= other@),
    {
        let n = self.inner.len();
        if n != other.inner.len() {
            return false;
        }
        let mut i: usize = 0;
        while i < n
            invariant
                0 <= i <= n,
                n == self.inner@.len(),
                n == other.inner@.len(),
                forall|j: int| 0 <= j < i ==> self.inner@[j] == other.inner@[j],
            decreases n - i,
        {
            if !(self.inner[i] == other.inner[i]) {
                return false;
            }
            i += 1;
        }
        true
    }
}

/// Byte-list equality.
pub fn bytes_eq(a: &Vec<u8>, b: &Vec<u8>) -> (r: bool)
    ensures
        r == (a@ =~= b@),
{
    let n = a.len();
    if n != b.len() {
        return false;
    }
    let mut i: usize = 0;
    while i < n
        invariant
            0 <= i <= n,
            n == a@.len(),
            n == b@.len(),
            forall|j: int| 0 <= j < i ==> a@[j] == b@[j],
        decreases n - i,
    {
        if a[i] != b[i] {
            return false;
        }
        i += 1;
    }
    true
}

/// A sender feature: who sent the output.
#[derive(Clone, Copy, Debug, PartialEq, Eq, Structural)]
pub struct SenderFeature {
    pub address: Address,
}

/// An issuer feature: who issued the chain, immutable for its lifetime.
#[derive(Clone, Copy, Debug, PartialEq, Eq, Structural)]
pub struct IssuerFeature {
    pub address: Address,
}

/// Arbitrary metadata attached to an output.
#[derive(Debug, PartialEq, Eq)]
pub struct MetadataFeature {
    pub data: Vec<u8>,
}

/// A tag attached to an output.
#[derive(Debug, PartialEq, Eq)]
pub struct TagFeature {
    pub tag: Vec<u8>,
}

/// A feature of an output.
#[derive(Debug, PartialEq, Eq)]
pub enum Feature {
    Sender(SenderFeature),
    Issuer(IssuerFeature),
    Metadata(MetadataFeature),
    Tag(TagFeature),
}

/// The kind byte of a sender feature.
pub const FEATURE_KIND_SENDER: u8 = 0;

/// The kind byte of an issuer feature.
pub const FEATURE_KIND_ISSUER: u8 = 1;

/// The kind byte of a metadata feature.
pub const FEATURE_KIND_METADATA: u8 = 2;

/// The kind byte of a tag feature.
pub const FEATURE_KIND_TAG: u8 = 3;

impl Feature {
    /// The feature's kind byte.
    pub open spec fn spec_kind(self) -> u8 {
        match self {
            Feature::Sender(_) => FEATURE_KIND_SENDER,
            Feature::Issuer(_) => FEATURE_KIND_ISSUER,
            Feature::Metadata(_) => FEATURE_KIND_METADATA,
            Feature::Tag(_) => FEATURE_KIND_TAG,
        }
    }

    /// The feature's kind byte.
    pub fn kind(&self) -> (r: u8)
        ensures
            r == self.spec_kind(),
    {
        match self {
            Feature::Sender(_) => FEATURE_KIND_SENDER,
            Feature::Issuer(_) => FEATURE_KIND_ISSUER,
            Feature::Metadata(_) => FEATURE_KIND_METADATA,
            Feature::Tag(_) => FEATURE_KIND_TAG,
        }
    }
}

/// Two features carry the same content, comparing byte lists by their
/// elements.
pub open spec fn feature_matches(a: Feature, b: Feature) -> bool {
    match (a, b) {
        (Feature::Sender(x), Feature::Sender(y)) => x == y,
        (Feature::Issuer(x), Feature::Issuer(y)) => x == y,
        (Feature::Metadata(x), Feature::Metadata(y)) => x.data@ == y.data@,
        (Feature::Tag(x), Feature::Tag(y)) => x.tag@ == y.tag@,
        _ => false,
    }
}

/// Whether two features carry the same content.
pub fn feature_eq(a: &Feature, b: &Feature) -> (r: bool)
    ensures
        r == feature_matches(*a, *b),
{
    match (a, b) {
        (Feature::Sender(x), Feature::Sender(y)) => x.address == y.address,
        (Feature::Issuer(x), Feature::Issuer(y)) => x.address == y.address,
        (Feature::Metadata(x), Feature::Metadata(y)) => bytes_eq(&x.data, &y.data),
        (Feature::Tag(x), Feature::Tag(y)) => bytes_eq(&x.tag, &y.tag),
        _ => false,
    }
}

/// The flag bit of a feature kind.
pub open spec fn feature_flag(kind: u8) -> u16 {
    (1u16 << kind) as u16
}

/// The flag of the sender feature.
pub const FEATURE_FLAG_SENDER: u16 = 1;

/// The flag of the issuer feature.
pub const FEATURE_FLAG_ISSUER: u16 = 2;

/// The flag of the metadata feature.
pub const FEATURE_FLAG_METADATA: u16 = 4;

/// The flag of the tag feature.
pub const FEATURE_FLAG_TAG: u16 = 8;

/// The first feature of the given kind, or nothing.
pub open spec fn spec_feature_of_kind(s: Seq<Feature>, kind: u8) -> Option<Feature>
    decreases s.len(),
{
    if s.len() == 0 {
        None
    } else if s[0].spec_kind() == kind {
        Some(s[0])
    } else {
        spec_feature_of_kind(s.drop_first(), kind)
    }
}

/// A later feature repeats the kind of the one at `i`.
pub open spec fn feature_kind_repeats(s: Seq<Feature>, i: int) -> bool {
    exists|j: int| i < j < s.len() && (#[trigger] s[j]).spec_kind() == s[i].spec_kind()
}

/// The first position (at or after `from`) whose kind appears again later,
/// or the length when every kind is unique from `from` on.
pub open spec fn first_duplicate_feature(s: Seq<Feature>, from: int) -> int
    decreases s.len() - from,
{
    if from < 0 || from >= s.len() {
        s.len() as int
    } else if feature_kind_repeats(s, from) {
        from
    } else {
        first_duplicate_feature(s, from + 1)
    }
}

/// If no position before `upto` has a later repeat, the search from `from`
/// agrees with the search from `upto`.
pub proof fn lemma_first_duplicate_feature_miss(s: Seq<Feature>, from: int, upto: int)
    requires
        0 <= from <= upto <= s.len(),
        forall|k: int| from <= k < upto ==> !feature_kind_repeats(s, k),
    ensures
        first_duplicate_feature(s, from) == first_duplicate_feature(s, upto),
    decreases upto - from,
{
    if from < upto {
        lemma_first_duplicate_feature_miss(s, from + 1, upto);
    }
}

/// The first position (at or after `from`) of a feature whose flag is not
/// within `allowed`, or the length when all are allowed from `from` on.
pub open spec fn first_unallowed_feature(s: Seq<Feature>, allowed: u16, from: int) -> int
    decreases s.len() - from,
{
    if from < 0 || from >= s.len() {
        s.len() as int
    } else if feature_flag(s[from].spec_kind()) & allowed == 0 {
        from
    } else {
        first_unallowed_feature(s, allowed, from + 1)
    }
}

/// If every feature before `upto` is allowed, the search from `from` agrees
/// with the search from `upto`.
pub proof fn lemma_first_unallowed_feature_miss(s: Seq<Feature>, allowed: u16, from: int, upto: int)
    requires
        0 <= from <= upto <= s.len(),
        forall|k: int| from <= k < upto ==> feature_flag((#[trigger] s[k]).spec_kind()) & allowed != 0,
    ensures
        first_unallowed_feature(s, allowed, from) == first_unallowed_feature(s, allowed, upto),
    decreases upto - from,
{
    if from < upto {
        lemma_first_unallowed_feature_miss(s, allowed, from + 1, upto);
    }
}

/// Pairwise distinct feature kinds.
pub open spec fn distinct_feature_kinds(s: Seq<Feature>) -> bool {
    forall|i: int, j: int|
        0 <= i < j < s.len() ==> (#[trigger] s[i]).spec_kind() != (#[trigger] s[j]).spec_kind()
}

/// Every feature's flag is within `allowed`.
pub open spec fn features_allowed(s: Seq<Feature>, allowed: u16) -> bool {
    forall|i: int|
        0 <= i < s.len() ==> feature_flag((#[trigger] s[i]).spec_kind()) & allowed != 0
}

/// The features of one output, at most one per kind, kept in the order they
/// were given.
#[derive(Debug, PartialEq, Eq)]
pub struct Features {
    inner: Vec<Feature>,
}

impl View for Features {
    type V = Seq<Feature>;

    closed spec fn view(&self) -> Seq<Feature> {
        self.inner@
    }
}

impl Features {
    /// At most one feature of each kind.
    pub open spec fn wf(self) -> bool {
        distinct_feature_kinds(self@)
    }

    /// Wraps the given features; a repeated kind is rejected, naming the
    /// kind of the first feature that is repeated later.
    pub fn new(features: Vec<Feature>) -> (r: Result<Features, BlockError>)
        ensures
            r is Ok <==> distinct_feature_kinds(features@),
            r is Ok ==> r->Ok_0@ == features@ && r->Ok_0.wf(),
            r is Err ==> r == Err::<Features, BlockError>(BlockError::DuplicateFeature(
                features@[first_duplicate_feature(features@, 0)].spec_kind(),
            )),
    {
        let n = features.len();
        let mut i: usize = 0;
        while i < n
            invariant
                0 <= i <= n,
                n == features@.len(),
                forall|a: int, b: int|
                    0 <= a < b < n && a < i ==> (#[trigger] features@[a]).spec_kind()
                        != (#[trigger] features@[b]).spec_kind(),
            decreases n - i,
        {
            let mut j: usize = i + 1;
            while j < n
                invariant
                    0 <= i < j <= n,
                    n == features@.len(),
                    forall|a: int, b: int|
                        0 <= a < b < n && a < i ==> (#[trigger] features@[a]).spec_kind()
                            != (#[trigger] features@[b]).spec_kind(),
                    forall|b: int|
                        i < b < j ==> (#[trigger] features@[b]).spec_kind()
                            != features@[i as int].spec_kind(),
                decreases n - j,
            {
                if features[j].kind() == features[i].kind() {
                    proof {
                        assert forall|k: int| 0 <= k < i implies !feature_kind_repeats(
                            features@, k,
                        ) by {}
                        lemma_first_duplicate_feature_miss(features@, 0, i as int);
                        assert(feature_kind_repeats(features@, i as int));
                    }
                    return Err(BlockError::DuplicateFeature(features[i].kind()));
                }
                j += 1;
            }
            i += 1;
        }
        Ok(Features { inner: features })
    }

    /// How many features are present.
    pub fn len(&self) -> (r: usize)
        ensures
            r == self@.len(),
    {
        self.inner.len()
    }

    /// The feature at the given position.
    pub fn get(&self, i: usize) -> (r: &Feature)
        requires
            i < self@.len(),
        ensures
            *r == self@[i as int],
    {
        &self.inner[i]
    }

    /// The metadata feature, if one is present.
    pub fn metadata(&self) -> (r: Option<&Feature>)
        ensures
            match spec_feature_of_kind(self@, FEATURE_KIND_METADATA) {
                Some(f) => r is Some && *r->0 == f && f.spec_kind() == FEATURE_KIND_METADATA,
                None => r is None,
            },
    {
        self.of_kind(FEATURE_KIND_METADATA)
    }

    /// The issuer feature, if one is present.
    pub fn issuer(&self) -> (r: Option<&Feature>)
        ensures
            match spec_feature_of_kind(self@, FEATURE_KIND_ISSUER) {
                Some(f) => r is Some && *r->0 == f && f.spec_kind() == FEATURE_KIND_ISSUER,
                None => r is None,
            },
    {
        self.of_kind(FEATURE_KIND_ISSUER)
    }

    /// The first feature of the given kind, if one is present.
    pub fn of_kind(&self, kind: u8) -> (r: Option<&Feature>)
        ensures
            match spec_feature_of_kind(self@, kind) {
                Some(f) => r is Some && *r->0 == f && f.spec_kind() == kind,
                None => r is None,
            },
    {
        let n = self.inner.len();
        let mut i: usize = 0;
        proof {
            assert(self.inner@.skip(0) =~= self.inner@);
        }
        while i < n
            invariant
                0 <= i <= n,
                n == self.inner@.len(),
                spec_feature_of_kind(self.inner@.skip(i as int), kind)
                    == spec_feature_of_kind(self.inner@, kind),
            decreases n - i,
        {
            proof {
                assert(self.inner@.skip(i as int)[0] == self.inner@[i as int]);
                assert(self.inner@.skip(i as int).drop_first() =~= self.inner@.skip(i as int + 1));
            }
            if self.inner[i].kind() == kind {
                return Some(&self.inner[i]);
            }
            i += 1;
        }
        proof {
            assert(self.inner@.skip(n as int) =~= Seq::<Feature>::empty());
        }
        None
    }

    /// Element-wise content equality.
    pub fn equals(&self, other: &Features) -> (r: bool)
        ensures
            r == features_match(self@, other@),
    {
        let n = self.inner.len();
        if n != other.inner.len() {
            return false;
        }
        let mut i: usize = 0;
        while i < n
            invariant
                0 <= i <= n,
                n == self.inner@.len(),
                n == other.inner@.len(),
                forall|j: int| 0 <= j < i ==> feature_matches(self.inner@[j], other.inner@[j]),
            decreases n - i,
        {
            if !feature_eq(&self.inner[i], &other.inner[i]) {
                return false;
            }
            i += 1;
        }
        true
    }
}

/// Two feature lists carry the same contents in the same order.
pub open spec fn features_match(a: Seq<Feature>, b: Seq<Feature>) -> bool {
    a.len() == b.len() && forall|i: int| 0 <= i < a.len() ==> feature_matches(#[trigger] a[i], b[i])
}

/// Checks that every feature's kind is allowed for the output type, naming
/// the first disallowed kind.
pub fn verify_allowed_features(features: &Features, allowed: u16) -> (r: Result<(), BlockError>)
    ensures
        r is Ok <==> features_allowed(features@, allowed),
        r is Err ==> r == Err::<(), BlockError>(BlockError::UnallowedFeature(
            features@[first_unallowed_feature(features@, allowed, 0)].spec_kind(),
        )),
{
    let n = features.len();
    let mut i: usize = 0;
    while i < n
        invariant
            0 <= i <= n,
            n == features@.len(),
            forall|j: int|
                0 <= j < i ==> feature_flag((#[trigger] features@[j]).spec_kind()) & allowed != 0,
        decreases n - i,
    {
        let kind = features.get(i).kind();
        proof {
            assert(kind < 4);
        }
        let flag: u16 = 1u16 << kind;
        if flag & allowed == 0 {
            proof {
                lemma_first_unallowed_feature_miss(features@, allowed, 0, i as int);
            }
            return Err(BlockError::UnallowedFeature(kind));
        }
        i += 1;
    }
    Ok(())
}

/// An unlock condition of an output.
#[derive(Clone, Copy, Debug, PartialEq, Eq, Structural)]
pub enum UnlockCondition {
    /// Only the state controller may state-transition the alias.
    StateControllerAddress(Address),
    /// Only the governor may govern the alias.
    GovernorAddress(Address),
    /// The foundry is forever controlled by this alias address.
    ImmutableAliasAddress(AliasAddress),
}

/// The kind byte of the state controller address unlock condition.
pub const UNLOCK_KIND_STATE_CONTROLLER: u8 = 4;

/// The kind byte of the governor address unlock condition.
pub const UNLOCK_KIND_GOVERNOR: u8 = 5;

/// The kind byte of the immutable alias address unlock condition.
pub const UNLOCK_KIND_IMMUTABLE_ALIAS: u8 = 6;

impl UnlockCondition {
    /// The unlock condition's kind byte.
    pub open spec fn spec_kind(self) -> u8 {
        match self {
            UnlockCondition::StateControllerAddress(_) => UNLOCK_KIND_STATE_CONTROLLER,
            UnlockCondition::GovernorAddress(_) => UNLOCK_KIND_GOVERNOR,
            UnlockCondition::ImmutableAliasAddress(_) => UNLOCK_KIND_IMMUTABLE_ALIAS,
        }
    }

    /// The unlock condition's kind byte.
    pub fn kind(&self) -> (r: u8)
        ensures
            r == self.spec_kind(),
    {
        match self {
            UnlockCondition::StateControllerAddress(_) => UNLOCK_KIND_STATE_CONTROLLER,
            UnlockCondition::GovernorAddress(_) => UNLOCK_KIND_GOVERNOR,
            UnlockCondition::ImmutableAliasAddress(_) => UNLOCK_KIND_IMMUTABLE_ALIAS,
        }
    }
}

/// The flag bit of an unlock condition kind.
pub open spec fn unlock_flag(kind: u8) -> u16 {
    (1u16 << kind) as u16
}

/// The flag of the state controller address unlock condition.
pub const UNLOCK_FLAG_STATE_CONTROLLER: u16 = 16;

/// The flag of the governor address unlock condition.
pub const UNLOCK_FLAG_GOVERNOR: u16 = 32;

/// The flag of the immutable alias address unlock condition.
pub const UNLOCK_FLAG_IMMUTABLE_ALIAS: u16 = 64;

/// A later unlock condition repeats the kind of the one at `i`.
pub open spec fn unlock_kind_repeats(s: Seq<UnlockCondition>, i: int) -> bool {
    exists|j: int| i < j < s.len() && (#[trigger] s[j]).spec_kind() == s[i].spec_kind()
}

/// The first position (at or after `from`) whose kind appears again later,
/// or the length when every kind is unique from `from` on.
pub open spec fn first_duplicate_unlock(s: Seq<UnlockCondition>, from: int) -> int
    decreases s.len() - from,
{
    if from < 0 || from >= s.len() {
        s.len() as int
    } else if unlock_kind_repeats(s, from) {
        from
    } else {
        first_duplicate_unlock(s, from + 1)
    }
}

/// If no position before `upto` has a later repeat, the search from `from`
/// agrees with the search from `upto`.
pub proof fn lemma_first_duplicate_unlock_miss(s: Seq<UnlockCondition>, from: int, upto: int)
    requires
        0 <= from <= upto <= s.len(),
        forall|k: int| from <= k < upto ==> !unlock_kind_repeats(s, k),
    ensures
        first_duplicate_unlock(s, from) == first_duplicate_unlock(s, upto),
    decreases upto - from,
{
    if from < upto {
        lemma_first_duplicate_unlock_miss(s, from + 1, upto);
    }
}

/// The first position (at or after `from`) of an unlock condition whose flag
/// is not within `allowed`, or the length when all are allowed from `from`
/// on.
pub open spec fn first_unallowed_unlock(s: Seq<UnlockCondition>, allowed: u16, from: int) -> int
    decreases s.len() - from,
{
    if from < 0 || from >= s.len() {
        s.len() as int
    } else if unlock_flag(s[from].spec_kind()) & allowed == 0 {
        from
    } else {
        first_unallowed_unlock(s, allowed, from + 1)
    }
}

/// If every unlock condition before `upto` is allowed, the search from
/// `from` agrees with the search from `upto`.
pub proof fn lemma_first_unallowed_unlock_miss(
    s: Seq<UnlockCondition>,
    allowed: u16,
    from: int,
    upto: int,
)
    requires
        0 <= from <= upto <= s.len(),
        forall|k: int| from <= k < upto ==> unlock_flag((#[trigger] s[k]).spec_kind()) & allowed != 0,
    ensures
        first_unallowed_unlock(s, allowed, from) == first_unallowed_unlock(s, allowed, upto),
    decreases upto - from,
{
    if from < upto {
        lemma_first_unallowed_unlock_miss(s, allowed, from + 1, upto);
    }
}

/// Pairwise distinct unlock condition kinds.
pub open spec fn distinct_unlock_kinds(s: Seq<UnlockCondition>) -> bool {
    forall|i: int, j: int|
        0 <= i < j < s.len() ==> (#[trigger] s[i]).spec_kind() != (#[trigger] s[j]).spec_kind()
}

/// Every unlock condition's flag is within `allowed`.
pub open spec fn unlocks_allowed(s: Seq<UnlockCondition>, allowed: u16) -> bool {
    forall|i: int|
        0 <= i < s.len() ==> unlock_flag((#[trigger] s[i]).spec_kind()) & allowed != 0
}

/// The first unlock condition of the given kind, or nothing.
pub open spec fn spec_unlock_of_kind(s: Seq<UnlockCondition>, kind: u8) -> Option<UnlockCondition>
    decreases s.len(),
{
    if s.len() == 0 {
        None
    } else if s[0].spec_kind() == kind {
        Some(s[0])
    } else {
        spec_unlock_of_kind(s.drop_first(), kind)
    }
}

/// The unlock conditions of one output, at most one per kind, kept in the
/// order they were given.
#[derive(Debug, PartialEq, Eq)]
pub struct UnlockConditions {
    inner: Vec<UnlockCondition>,
}

impl View for UnlockConditions {
    type V = Seq<UnlockCondition>;

    closed spec fn view(&self) -> Seq<UnlockCondition> {
        self.inner@
    }
}

impl UnlockConditions {
    /// At most one unlock condition of each kind.
    pub open spec fn wf(self) -> bool {
        distinct_unlock_kinds(self@)
    }

    /// Wraps the given unlock conditions; a repeated kind is rejected,
    /// naming the kind of the first condition that is repeated later.
    pub fn new(unlock_conditions: Vec<UnlockCondition>) -> (r: Result<UnlockConditions, BlockError>)
        ensures
            r is Ok <==> distinct_unlock_kinds(unlock_conditions@),
            r is Ok ==> r->Ok_0@ == unlock_conditions@ && r->Ok_0.wf(),
            r is Err ==> r == Err::<UnlockConditions, BlockError>(
                BlockError::DuplicateUnlockCondition(
                    unlock_conditions@[first_duplicate_unlock(unlock_conditions@, 0)].spec_kind(),
                ),
            ),
    {
        let n = unlock_conditions.len();
        let mut i: usize = 0;
        while i < n
            invariant
                0 <= i <= n,
                n == unlock_conditions@.len(),
                forall|a: int, b: int|
                    0 <= a < b < n && a < i ==> (#[trigger] unlock_conditions@[a]).spec_kind()
                        != (#[trigger] unlock_conditions@[b]).spec_kind(),
            decreases n - i,
        {
            let mut j: usize = i + 1;
            while j < n
                invariant
                    0 <= i < j <= n,
                    n == unlock_conditions@.len(),
                    forall|a: int, b: int|
                        0 <= a < b < n && a < i ==> (#[trigger] unlock_conditions@[a]).spec_kind()
                            != (#[trigger] unlock_conditions@[b]).spec_kind(),
                    forall|b: int|
                        i < b < j ==> (#[trigger] unlock_conditions@[b]).spec_kind()
                            != unlock_conditions@[i as int].spec_kind(),
                decreases n - j,
            {
                if unlock_conditions[j].kind() == unlock_conditions[i].kind() {
                    proof {
                        assert forall|k: int| 0 <= k < i implies !unlock_kind_repeats(
                            unlock_conditions@, k,
                        ) by {}
                        lemma_first_duplicate_unlock_miss(unlock_conditions@, 0, i as int);
                        assert(unlock_kind_repeats(unlock_conditions@, i as int));
                    }
                    return Err(BlockError::DuplicateUnlockCondition(unlock_conditions[i].kind()));
                }
                j += 1;
            }
            i += 1;
        }
        Ok(UnlockConditions { inner: unlock_conditions })
    }

    /// How many unlock conditions are present.
    pub fn len(&self) -> (r: usize)
        ensures
            r == self@.len(),
    {
        self.inner.len()
    }

    /// The unlock condition at the given position.
    pub fn get(&self, i: usize) -> (r: UnlockCondition)
        requires
            i < self@.len(),
        ensures
            r == self@[i as int],
    {
        self.inner[i]
    }

    /// The unlock conditions as a fresh list.
    pub fn to_vec(&self) -> (r: Vec<UnlockCondition>)
        ensures
            r@ == self@,
    {
        let mut out: Vec<UnlockCondition> = Vec::new();
        let n = self.inner.len();
        let mut i: usize = 0;
        while i < n
            invariant
                0 <= i <= n,
                n == self.inner@.len(),
                out@ == self.inner@.take(i as int),
            decreases n - i,
        {
            out.push(self.inner[i]);
            proof {
                assert(out@ =~= self.inner@.take(i as int + 1));
            }
            i += 1;
        }
        proof {
            assert(self.inner@.take(n as int) =~= self.inner@);
        }
        out
    }

    /// The first unlock condition of the given kind, if one is present.
    pub fn of_kind(&self, kind: u8) -> (r: Option<UnlockCondition>)
        ensures
            r == spec_unlock_of_kind(self@, kind),
            r is Some ==> r->0.spec_kind() == kind,
    {
        let n = self.inner.len();
        let mut i: usize = 0;
        proof {
            assert(self.inner@.skip(0) =~= self.inner@);
        }
        while i < n
            invariant
                0 <= i <= n,
                n == self.inner@.len(),
                spec_unlock_of_kind(self.inner@.skip(i as int), kind)
                    == spec_unlock_of_kind(self.inner@, kind),
            decreases n - i,
        {
            proof {
                assert(self.inner@.skip(i as int)[0] == self.inner@[i as int]);
                assert(self.inner@.skip(i as int).drop_first() =~= self.inner@.skip(i as int + 1));
            }
            if self.inner[i].kind() == kind {
                return Some(self.inner[i]);
            }
            i += 1;
        }
        proof {
            assert(self.inner@.skip(n as int) =~= Seq::<UnlockCondition>::empty());
        }
        None
    }

    /// The state controller address, if that unlock condition is present.
    pub fn state_controller_address(&self) -> (r: Option<Address>)
        ensures
            match spec_unlock_of_kind(self@, UNLOCK_KIND_STATE_CONTROLLER) {
                Some(uc) => r == Some(uc->StateControllerAddress_0),
                None => r is None,
            },
    {
        match self.of_kind(UNLOCK_KIND_STATE_CONTROLLER) {
            Some(UnlockCondition::StateControllerAddress(a)) => Some(a),
            _ => None,
        }
    }

    /// The governor address, if that unlock condition is present.
    pub fn governor_address(&self) -> (r: Option<Address>)
        ensures
            match spec_unlock_of_kind(self@, UNLOCK_KIND_GOVERNOR) {
                Some(uc) => r == Some(uc->GovernorAddress_0),
                None => r is None,
            },
    {
        match self.of_kind(UNLOCK_KIND_GOVERNOR) {
            Some(UnlockCondition::GovernorAddress(a)) => Some(a),
            _ => None,
        }
    }

    /// The immutable alias address, if that unlock condition is present.
    pub fn immutable_alias_address(&self) -> (r: Option<AliasAddress>)
        ensures
            match spec_unlock_of_kind(self@, UNLOCK_KIND_IMMUTABLE_ALIAS) {
                Some(uc) => r == Some(uc->ImmutableAliasAddress_0),
                None => r is None,
            },
    {
        match self.of_kind(UNLOCK_KIND_IMMUTABLE_ALIAS) {
            Some(UnlockCondition::ImmutableAliasAddress(a)) => Some(a),
            _ => None,
        }
    }
}

/// The first position (at or after `from`) of a feature with kind `kind`, or
/// the length if there is none.
pub open spec fn feature_kind_index(s: Seq<Feature>, kind: u8, from: int) -> int
    decreases s.len() - from,
{
    if from < 0 || from >= s.len() {
        s.len() as int
    } else if s[from].spec_kind() == kind {
        from
    } else {
        feature_kind_index(s, kind, from + 1)
    }
}

/// If no feature before `upto` has the kind, the search from `from` agrees
/// with the search from `upto`.
pub proof fn lemma_feature_kind_index_miss(s: Seq<Feature>, kind: u8, from: int, upto: int)
    requires
        0 <= from <= upto <= s.len(),
        forall|k: int| from <= k < upto ==> (#[trigger] s[k]).spec_kind() != kind,
    ensures
        feature_kind_index(s, kind, from) == feature_kind_index(s, kind, upto),
    decreases upto - from,
{
    if from < upto {
        lemma_feature_kind_index_miss(s, kind, from + 1, upto);
    }
}

/// The first position (at or after `from`) of an unlock condition with kind
/// `kind`, or the length if there is none.
pub open spec fn unlock_kind_index(s: Seq<UnlockCondition>, kind: u8, from: int) -> int
    decreases s.len() - from,
{
    if from < 0 || from >= s.len() {
        s.len() as int
    } else if s[from].spec_kind() == kind {
        from
    } else {
        unlock_kind_index(s, kind, from + 1)
    }
}

/// If no unlock condition before `upto` has the kind, the search from `from`
/// agrees with the search from `upto`.
pub proof fn lemma_unlock_kind_index_miss(s: Seq<UnlockCondition>, kind: u8, from: int, upto: int)
    requires
        0 <= from <= upto <= s.len(),
        forall|k: int| from <= k < upto ==> (#[trigger] s[k]).spec_kind() != kind,
    ensures
        unlock_kind_index(s, kind, from) == unlock_kind_index(s, kind, upto),
    decreases upto - from,
{
    if from < upto {
        lemma_unlock_kind_index_miss(s, kind, from + 1, upto);
    }
}

/// Checks that every unlock condition's kind is allowed for the output
/// type, naming the first disallowed kind.
pub fn verify_allowed_unlock_conditions(
    unlock_conditions: &UnlockConditions,
    allowed: u16,
) -> (r: Result<(), BlockError>)
    ensures
        r is Ok <==> unlocks_allowed(unlock_conditions@, allowed),
        r is Err ==> r == Err::<(), BlockError>(BlockError::UnallowedUnlockCondition(
            unlock_conditions@[first_unallowed_unlock(unlock_conditions@, allowed, 0)].spec_kind(),
        )),
{
    let n = unlock_conditions.len();
    let mut i: usize = 0;
    while i < n
        invariant
            0 <= i <= n,
            n == unlock_conditions@.len(),
            forall|j: int|
                0 <= j < i ==> unlock_flag((#[trigger] unlock_conditions@[j]).spec_kind())
                    & allowed != 0,
        decreases n - i,
    {
        let kind = unlock_conditions.get(i).kind();
        proof {
            assert(kind < 7);
        }
        let flag: u16 = 1u16 << kind;
        if flag & allowed == 0 {
            proof {
                lemma_first_unallowed_unlock_miss(unlock_conditions@, allowed, 0, i as int);
            }
            return Err(BlockError::UnallowedUnlockCondition(kind));
        }
        i += 1;
    }
    Ok(())
}

} // verus!

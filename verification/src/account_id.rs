//! Account identifiers: derivation from a proof-of-work-bound seed,
//! validation, and bit-decoding.
//!
//! An identifier is one field element. Its two most significant bits select
//! the account category, the third most significant bit selects the storage
//! locality, and the value as a whole must have at least
//! [`MIN_ACCOUNT_ONES`] one-bits. At derivation time the seed digest must in
//! addition carry a category-dependent number of trailing zero bits in its
//! last element; raw reconstruction of an already-derived identifier
//! deliberately re-checks only the Hamming weight.

use vstd::prelude::*;
use vstd::std_specs::bits::u64_trailing_zeros;
use vstd::bytes::{spec_u64_from_le_bytes, spec_u64_to_le_bytes, u64_from_le_bytes, u64_to_le_bytes};
use crate::field::{FIELD_MODULUS, Word, count_ones, is_felt, wf_word, ones_count};
use crate::hashing::{Digest, compute_digest, digest_pow, spec_seed_digest};

verus! {

/// Minimum number of one-bits in a valid account identifier.
pub const MIN_ACCOUNT_ONES: u32 = 5;

/// Minimum trailing zeros of the last seed digest element for regular
/// accounts.
pub const REGULAR_ACCOUNT_SEED_DIGEST_MIN_TRAILING_ZEROS: u32 = 23;

/// Minimum trailing zeros of the last seed digest element for faucet
/// (issuance) accounts.
pub const FAUCET_SEED_DIGEST_MIN_TRAILING_ZEROS: u32 = 31;

/// Category tag (bits 63-62) of a regular account with updatable code.
pub const REGULAR_ACCOUNT_UPDATABLE_CODE_TAG: u64 = 0;

/// Category tag (bits 63-62) of a regular account with immutable code.
pub const REGULAR_ACCOUNT_IMMUTABLE_CODE_TAG: u64 = 1;

/// Category tag (bits 63-62) of a fungible-issuance (faucet) account.
pub const FUNGIBLE_FAUCET_TAG: u64 = 2;

/// Category tag (bits 63-62) of a non-fungible-issuance (faucet) account.
pub const NON_FUNGIBLE_FAUCET_TAG: u64 = 3;

/// Mask selecting the storage locality bit once the value is shifted down by
/// 61 bits.
pub const ON_CHAIN_ACCOUNT_SELECTOR: u64 = 1;

/// The account category encoded in an identifier's two most significant
/// bits.
#[derive(Debug, PartialEq, Eq, Clone, Copy, Structural)]
pub enum AccountType {
    FungibleFaucet,
    NonFungibleFaucet,
    RegularAccountImmutableCode,
    RegularAccountUpdatableCode,
}

/// Errors raised while deriving, reconstructing or checking an account
/// identifier.
#[derive(Debug, PartialEq, Eq, Clone, Copy, Structural)]
pub enum AccountError {
    /// The identifier value has fewer than [`MIN_ACCOUNT_ONES`] one-bits.
    AccountIdTooFewOnes,
    /// The seed digest's last element has too few trailing zero bits for the
    /// requested category.
    SeedDigestTooFewTrailingZeros,
    /// Raw bytes or a raw integer do not encode a canonical field element.
    InvalidFieldElement,
    /// A claimed seed does not reproduce the account's stored identifier.
    InconsistentAccountIdSeed { expected: AccountId, actual: AccountId },
}

/// Unique identifier of an account: one field element whose top bits encode
/// the account category and storage locality.
///
/// Every constructed value satisfies the identifier invariant: it is a
/// canonical field element with at least [`MIN_ACCOUNT_ONES`] one-bits.
/// Identifiers are totally ordered by their underlying integer value.
#[derive(Debug, Clone, Copy, PartialEq, Eq, Structural, PartialOrd, Ord)]
pub struct AccountId {
    value: u64,
}

impl View for AccountId {
    type V = u64;

    closed spec fn view(&self) -> u64 {
        self.value
    }
}

/// The category encoded in bits 63-62 of an identifier value.
pub open spec fn spec_account_type(value: u64) -> AccountType {
    if value >> 62 == REGULAR_ACCOUNT_UPDATABLE_CODE_TAG {
        AccountType::RegularAccountUpdatableCode
    } else if value >> 62 == REGULAR_ACCOUNT_IMMUTABLE_CODE_TAG {
        AccountType::RegularAccountImmutableCode
    } else if value >> 62 == FUNGIBLE_FAUCET_TAG {
        AccountType::FungibleFaucet
    } else {
        AccountType::NonFungibleFaucet
    }
}

/// Whether the category of `value` is one of the two issuance categories.
pub open spec fn spec_is_faucet(value: u64) -> bool {
    spec_account_type(value) == AccountType::FungibleFaucet || spec_account_type(value)
        == AccountType::NonFungibleFaucet
}

/// Whether the category of `value` is one of the two regular categories.
pub open spec fn spec_is_regular_account(value: u64) -> bool {
    spec_account_type(value) == AccountType::RegularAccountUpdatableCode || spec_account_type(value)
        == AccountType::RegularAccountImmutableCode
}

/// Whether bit 61 of `value` marks the account as having only a state
/// commitment on the shared ledger.
pub open spec fn spec_is_on_chain(value: u64) -> bool {
    (value >> 61) & ON_CHAIN_ACCOUNT_SELECTOR == 1
}

/// Trailing zeros required of the last seed digest element, as decided by
/// the top bit of the prospective identifier.
pub open spec fn spec_required_trailing_zeros(id_element: u64) -> u32 {
    if id_element >> 63 == 0 {
        REGULAR_ACCOUNT_SEED_DIGEST_MIN_TRAILING_ZEROS
    } else {
        FAUCET_SEED_DIGEST_MIN_TRAILING_ZEROS
    }
}

/// The validation outcome of a seed digest: the Hamming-weight rule on
/// element 0, then the category-dependent trailing-zero rule on element 3.
pub open spec fn spec_validate_seed_digest(d: Seq<u64>) -> Result<(), AccountError>
    recommends
        d.len() == 4,
{
    if count_ones(d[0]) < MIN_ACCOUNT_ONES {
        Err(AccountError::AccountIdTooFewOnes)
    } else if u64_trailing_zeros(d[3]) < spec_required_trailing_zeros(d[0]) {
        Err(AccountError::SeedDigestTooFewTrailingZeros)
    } else {
        Ok(())
    }
}

/// The outcome of deriving an identifier from a seed and the two
/// commitments: element 0 of the seed digest, provided the digest validates.
pub open spec fn spec_derive_id(seed: Seq<u64>, code: Seq<u64>, storage: Seq<u64>) -> Result<
    u64,
    AccountError,
> {
    let d = spec_seed_digest(seed, code, storage);
    match spec_validate_seed_digest(d) {
        Ok(_) => Ok(d[0]),
        Err(e) => Err(e),
    }
}

/// The outcome of reconstructing an identifier from a raw integer: only the
/// field-element bound and the Hamming weight are checked, never the
/// proof-of-work.
pub open spec fn spec_reconstruct_id(value: u64) -> Result<u64, AccountError> {
    if value >= FIELD_MODULUS {
        Err(AccountError::InvalidFieldElement)
    } else if count_ones(value) < MIN_ACCOUNT_ONES {
        Err(AccountError::AccountIdTooFewOnes)
    } else {
        Ok(value)
    }
}

/// The value accumulated after reading the first `len` bytes of chunk
/// `chunk` of the seed material, most significant byte first.
pub open spec fn seed_material_accum(bytes: Seq<u8>, chunk: int, len: int) -> u64
    decreases len,
{
    if len <= 0 {
        0
    } else {
        (seed_material_accum(bytes, chunk, len - 1) << 8) | bytes[chunk * 8 + len - 1] as u64
    }
}

/// Element `chunk` of the initial probe word: eight bytes of the seed
/// material read big-endian and reduced into the field.
pub open spec fn initial_seed_element(bytes: Seq<u8>, chunk: int) -> u64 {
    seed_material_accum(bytes, chunk, 8) % FIELD_MODULUS
}

/// The word the seed search starts from: the four 8-byte chunks of the seed
/// material, each read big-endian and reduced into the field.
pub open spec fn initial_seed_word(bytes: Seq<u8>) -> Seq<u64> {
    seq![
        initial_seed_element(bytes, 0),
        initial_seed_element(bytes, 1),
        initial_seed_element(bytes, 2),
        initial_seed_element(bytes, 3),
    ]
}

/// The `k`-th candidate the seed search probes: the initial word for
/// `k == 0`, and afterwards each candidate's own seed digest.
pub open spec fn candidate_seed(init: Seq<u64>, code: Seq<u64>, storage: Seq<u64>, k: nat) -> Seq<
    u64,
>
    decreases k,
{
    if k == 0 {
        init
    } else {
        spec_seed_digest(candidate_seed(init, code, storage, (k - 1) as nat), code, storage)
    }
}

/// Whether the `k`-th candidate's digest validates and derives an identifier
/// of the requested category and storage locality.
pub open spec fn seed_found_at(
    init: Seq<u64>,
    code: Seq<u64>,
    storage: Seq<u64>,
    account_type: AccountType,
    on_chain: bool,
    k: nat,
) -> bool {
    let d = spec_seed_digest(candidate_seed(init, code, storage, k), code, storage);
    spec_validate_seed_digest(d) is Ok && spec_account_type(d[0]) == account_type
        && spec_is_on_chain(d[0]) == on_chain
}

impl AccountId {
    /// The identifier invariant: a canonical field element with at least
    /// [`MIN_ACCOUNT_ONES`] one-bits.
    #[verifier::type_invariant]
    spec fn type_inv(self) -> bool {
        is_felt(self.value) && count_ones(self.value) >= MIN_ACCOUNT_ONES
    }

    /// Returns a new account identifier derived from the specified seed,
    /// code commitment and storage commitment: element 0 of the seed digest,
    /// after the digest passes [`validate_seed_digest`](Self::validate_seed_digest).
    pub fn new(seed: Word, code_commitment: Digest, storage_commitment: Digest) -> (r: Result<
        AccountId,
        AccountError,
    >)
        requires
            wf_word(seed@),
            code_commitment.wf(),
            storage_commitment.wf(),
        ensures
            spec_derive_id(seed@, code_commitment@, storage_commitment@) matches Ok(v) ==> (
            r matches Ok(id) && id@ == v),
            spec_derive_id(seed@, code_commitment@, storage_commitment@) matches Err(e) ==> r
                == Err::<AccountId, AccountError>(e),
    {
        let seed_digest = compute_digest(seed, code_commitment, storage_commitment);
        match Self::validate_seed_digest(&seed_digest) {
            Ok(_) => Ok(AccountId { value: seed_digest.0[0] }),
            Err(e) => Err(e),
        }
    }

    /// Wraps a value already known to satisfy the identifier invariant.
    pub(crate) fn new_unchecked(value: u64) -> (r: AccountId)
        requires
            is_felt(value),
            count_ones(value) >= MIN_ACCOUNT_ONES,
        ensures
            r@ == value,
    {
        AccountId { value }
    }

    /// Returns the category of this identifier, decoded from bits 63-62.
    pub fn account_type(&self) -> (r: AccountType)
        ensures
            r == spec_account_type(self@),
    {
        let tag = self.value >> 62;
        if tag == REGULAR_ACCOUNT_UPDATABLE_CODE_TAG {
            AccountType::RegularAccountUpdatableCode
        } else if tag == REGULAR_ACCOUNT_IMMUTABLE_CODE_TAG {
            AccountType::RegularAccountImmutableCode
        } else if tag == FUNGIBLE_FAUCET_TAG {
            AccountType::FungibleFaucet
        } else {
            AccountType::NonFungibleFaucet
        }
    }

    /// Returns true if an account with this identifier can issue assets.
    pub fn is_faucet(&self) -> (r: bool)
        ensures
            r == spec_is_faucet(self@),
    {
        matches!(
            self.account_type(),
            AccountType::FungibleFaucet | AccountType::NonFungibleFaucet
        )
    }

    /// Returns true if an account with this identifier is a regular account.
    pub fn is_regular_account(&self) -> (r: bool)
        ensures
            r == spec_is_regular_account(self@),
    {
        matches!(
            self.account_type(),
            AccountType::RegularAccountUpdatableCode | AccountType::RegularAccountImmutableCode
        )
    }

    /// Returns true if only a commitment to this account's state is kept on
    /// the shared ledger.
    pub fn is_on_chain(&self) -> (r: bool)
        ensures
            r == spec_is_on_chain(self@),
    {
        (self.value >> 61) & ON_CHAIN_ACCOUNT_SELECTOR == 1
    }

    /// Returns the underlying integer value of this identifier. The value
    /// always satisfies the identifier invariant.
    pub fn as_int(&self) -> (r: u64)
        ensures
            r == self@,
            is_felt(self@),
            count_ones(self@) >= MIN_ACCOUNT_ONES,
    {
        proof {
            use_type_invariant(self);
        }
        self.value
    }

    /// Returns the little-endian byte encoding of this identifier.
    pub fn to_le_bytes(&self) -> (r: Vec<u8>)
        ensures
            r@ == spec_u64_to_le_bytes(self@),
            r@.len() == 8,
    {
        proof {
            vstd::bytes::lemma_auto_spec_u64_to_from_le_bytes();
        }
        u64_to_le_bytes(self.value)
    }

    /// Reconstructs an identifier from a raw integer. Only the field-element
    /// bound and the Hamming weight are checked; the proof-of-work was
    /// checked once at derivation and is deliberately not re-checked here.
    pub fn try_from_int(value: u64) -> (r: Result<AccountId, AccountError>)
        ensures
            spec_reconstruct_id(value) matches Ok(v) ==> (r matches Ok(id) && id@ == v),
            spec_reconstruct_id(value) matches Err(e) ==> r == Err::<AccountId, AccountError>(e),
    {
        if value >= FIELD_MODULUS {
            return Err(AccountError::InvalidFieldElement);
        }
        if ones_count(value) < MIN_ACCOUNT_ONES {
            return Err(AccountError::AccountIdTooFewOnes);
        }
        Ok(Self::new_unchecked(value))
    }

    /// Reconstructs an identifier from its little-endian byte encoding,
    /// checking the field-element bound and the Hamming weight only.
    pub fn try_from_le_bytes(bytes: &[u8]) -> (r: Result<AccountId, AccountError>)
        ensures
            bytes@.len() != 8 ==> r == Err::<AccountId, AccountError>(
                AccountError::InvalidFieldElement,
            ),
            bytes@.len() == 8 ==> (spec_reconstruct_id(spec_u64_from_le_bytes(bytes@)) matches Ok(
                v,
            ) ==> (r matches Ok(id) && id@ == v)),
            bytes@.len() == 8 ==> (spec_reconstruct_id(spec_u64_from_le_bytes(bytes@)) matches Err(
                e,
            ) ==> r == Err::<AccountId, AccountError>(e)),
    {
        let value = match parse_felt(bytes) {
            Ok(v) => v,
            Err(e) => {
                return Err(e);
            },
        };
        if ones_count(value) < MIN_ACCOUNT_ONES {
            return Err(AccountError::AccountIdTooFewOnes);
        }
        Ok(Self::new_unchecked(value))
    }

    /// Returns an error if the seed digest has fewer than
    /// [`MIN_ACCOUNT_ONES`] one-bits in its element 0, or fewer trailing
    /// zeros in its element 3 than the category of element 0 requires.
    pub fn validate_seed_digest(digest: &Digest) -> (r: Result<(), AccountError>)
        ensures
            r == spec_validate_seed_digest(digest@),
    {
        let ones = ones_count(digest.0[0]);
        if ones < MIN_ACCOUNT_ONES {
            return Err(AccountError::AccountIdTooFewOnes);
        }
        let is_regular = digest.0[0] >> 63 == 0;
        let pow_trailing_zeros = digest_pow(*digest);
        let required = if is_regular {
            REGULAR_ACCOUNT_SEED_DIGEST_MIN_TRAILING_ZEROS
        } else {
            FAUCET_SEED_DIGEST_MIN_TRAILING_ZEROS
        };
        if pow_trailing_zeros < required {
            return Err(AccountError::SeedDigestTooFewTrailingZeros);
        }
        Ok(())
    }

    /// Finds and returns a seed whose digest derives an identifier of the
    /// requested category and storage locality: the initial seed material is
    /// folded into a probe word, and each probe's own digest becomes the
    /// next probe until one is found. An error comes back only after every
    /// candidate in the chain has been probed and rejected.
    pub fn get_account_seed(
        init_seed: [u8; 32],
        account_type: AccountType,
        on_chain: bool,
        code_commitment: Digest,
        storage_commitment: Digest,
    ) -> (r: Result<Word, AccountError>)
        requires
            code_commitment.wf(),
            storage_commitment.wf(),
        ensures
            r matches Ok(seed) ==> (wf_word(seed@) && spec_validate_seed_digest(
                spec_seed_digest(seed@, code_commitment@, storage_commitment@),
            ) is Ok && spec_account_type(
                spec_seed_digest(seed@, code_commitment@, storage_commitment@)[0],
            ) == account_type && spec_is_on_chain(
                spec_seed_digest(seed@, code_commitment@, storage_commitment@)[0],
            ) == on_chain),
            r matches Ok(seed) ==> (exists|k: nat|
                k < 0xFFFF_FFFF_FFFF_FFFF && seed@ == candidate_seed(
                    initial_seed_word(init_seed@),
                    code_commitment@,
                    storage_commitment@,
                    k,
                ) && seed_found_at(
                    initial_seed_word(init_seed@),
                    code_commitment@,
                    storage_commitment@,
                    account_type,
                    on_chain,
                    k,
                )),
            r is Err ==> forall|k: nat|
                k < 0xFFFF_FFFF_FFFF_FFFF ==> !seed_found_at(
                    initial_seed_word(init_seed@),
                    code_commitment@,
                    storage_commitment@,
                    account_type,
                    on_chain,
                    k,
                ),
    {
        let mut parts: Vec<u64> = Vec::new();
        let mut i: usize = 0;
        while i < 4
            invariant
                0 <= i <= 4,
                parts@.len() == i,
                forall|c: int| 0 <= c < i ==> parts@[c] == initial_seed_element(init_seed@, c),
                wf_word(parts@),
            decreases 4 - i,
        {
            let mut v: u64 = 0;
            let mut j: usize = 0;
            while j < 8
                invariant
                    i < 4,
                    0 <= j <= 8,
                    v == seed_material_accum(init_seed@, i as int, j as int),
                decreases 8 - j,
            {
                v = (v << 8) | (init_seed[i * 8 + j] as u64);
                j = j + 1;
            }
            parts.push(v % FIELD_MODULUS);
            i = i + 1;
        }
        let mut current: Word = [parts[0], parts[1], parts[2], parts[3]];
        proof {
            assert(current@ =~= initial_seed_word(init_seed@));
        }
        let mut attempts: u64 = 0;
        while attempts < 0xFFFF_FFFF_FFFF_FFFFu64
            invariant
                wf_word(current@),
                code_commitment.wf(),
                storage_commitment.wf(),
                current@ == candidate_seed(
                    initial_seed_word(init_seed@),
                    code_commitment@,
                    storage_commitment@,
                    attempts as nat,
                ),
                forall|k: nat|
                    k < attempts ==> !seed_found_at(
                        initial_seed_word(init_seed@),
                        code_commitment@,
                        storage_commitment@,
                        account_type,
                        on_chain,
                        k,
                    ),
            decreases 0xFFFF_FFFF_FFFF_FFFFu64 - attempts,
        {
            let digest = compute_digest(current, code_commitment, storage_commitment);
            let valid = Self::validate_seed_digest(&digest).is_ok();
            let id_element = digest.0[0];
            let tag = id_element >> 62;
            let candidate_type = if tag == REGULAR_ACCOUNT_UPDATABLE_CODE_TAG {
                AccountType::RegularAccountUpdatableCode
            } else if tag == REGULAR_ACCOUNT_IMMUTABLE_CODE_TAG {
                AccountType::RegularAccountImmutableCode
            } else if tag == FUNGIBLE_FAUCET_TAG {
                AccountType::FungibleFaucet
            } else {
                AccountType::NonFungibleFaucet
            };
            let candidate_on_chain = (id_element >> 61) & ON_CHAIN_ACCOUNT_SELECTOR == 1;
            if valid && candidate_type == account_type && candidate_on_chain == on_chain {
                proof {
                    assert(seed_found_at(
                        initial_seed_word(init_seed@),
                        code_commitment@,
                        storage_commitment@,
                        account_type,
                        on_chain,
                        attempts as nat,
                    ));
                }
                return Ok(current);
            }
            proof {
                assert(!seed_found_at(
                    initial_seed_word(init_seed@),
                    code_commitment@,
                    storage_commitment@,
                    account_type,
                    on_chain,
                    attempts as nat,
                ));
                assert(candidate_seed(
                    initial_seed_word(init_seed@),
                    code_commitment@,
                    storage_commitment@,
                    (attempts + 1) as nat,
                ) == spec_seed_digest(current@, code_commitment@, storage_commitment@));
            }
            current = digest.0;
            attempts = attempts + 1;
        }
        Err(AccountError::SeedDigestTooFewTrailingZeros)
    }
}

impl From<AccountId> for u64 {
    fn from(id: AccountId) -> (r: u64) {
        id.as_int()
    }
}

impl vstd::std_specs::convert::FromSpecImpl<AccountId> for u64 {
    open spec fn obeys_from_spec() -> bool {
        true
    }

    open spec fn from_spec(id: AccountId) -> u64 {
        id@
    }
}

/// Parses a canonical field element from its 8-byte little-endian encoding.
pub fn parse_felt(bytes: &[u8]) -> (r: Result<u64, AccountError>)
    ensures
        bytes@.len() != 8 ==> r == Err::<u64, AccountError>(AccountError::InvalidFieldElement),
        bytes@.len() == 8 && spec_u64_from_le_bytes(bytes@) >= FIELD_MODULUS ==> r == Err::<
            u64,
            AccountError,
        >(AccountError::InvalidFieldElement),
        bytes@.len() == 8 && spec_u64_from_le_bytes(bytes@) < FIELD_MODULUS ==> r == Ok::<
            u64,
            AccountError,
        >(spec_u64_from_le_bytes(bytes@)),
{
    if bytes.len() != 8 {
        return Err(AccountError::InvalidFieldElement);
    }
    let value = u64_from_le_bytes(bytes);
    if value >= FIELD_MODULUS {
        return Err(AccountError::InvalidFieldElement);
    }
    Ok(value)
}

/// The account fields consumed by seed validation: the stored identifier and
/// the commitments to the account's code and storage.
pub struct Account {
    pub id: AccountId,
    pub code_commitment: Digest,
    pub storage_commitment: Digest,
}

/// Whether `seed` derives exactly the identifier stored in `account`.
pub open spec fn seed_matches_account(account: Account, seed: Seq<u64>) -> bool {
    spec_derive_id(seed, account.code_commitment@, account.storage_commitment@) == Ok::<
        u64,
        AccountError,
    >(account.id@)
}

/// Validates that the provided seed is valid for the provided account: the
/// seed is re-derived against the account's own commitments and the result
/// must equal the account's stored identifier.
pub fn validate_account_seed(account: &Account, seed: Word) -> (r: Result<(), AccountError>)
    requires
        wf_word(seed@),
        account.code_commitment.wf(),
        account.storage_commitment.wf(),
    ensures
        r is Ok <==> seed_matches_account(*account, seed@),
        spec_derive_id(seed@, account.code_commitment@, account.storage_commitment@) matches Err(e)
            ==> r == Err::<(), AccountError>(e),
        spec_derive_id(seed@, account.code_commitment@, account.storage_commitment@) matches Ok(v)
            ==> (v != account.id@ ==> (r matches Err(e) && e matches
        AccountError::InconsistentAccountIdSeed { expected, actual } && expected == account.id
            && actual@ == v)),
{
    let account_id = match AccountId::new(seed, account.code_commitment, account.storage_commitment) {
        Ok(id) => id,
        Err(e) => {
            return Err(e);
        },
    };
    proof {
        use_type_invariant(account_id);
        use_type_invariant(account.id);
    }
    if account_id.as_int() != account.id.as_int() {
        return Err(AccountError::InconsistentAccountIdSeed {
            expected: account.id,
            actual: account_id,
        });
    }
    Ok(())
}

/// The account category reads bits 63-62 alone: two values that agree on
/// those bits have the same category.
pub proof fn lemma_account_type_reads_category_bits(a: u64, b: u64)
    requires
        a >> 62 == b >> 62,
    ensures
        spec_account_type(a) == spec_account_type(b),
{
}

/// Flipping any bit below the two category bits leaves the account category
/// unchanged.
pub proof fn lemma_account_type_ignores_other_bits(value: u64, bit: u64)
    requires
        bit < 62,
    ensures
        spec_account_type(value ^ (1u64 << bit)) == spec_account_type(value),
{
    assert((value ^ (1u64 << bit)) >> 62 == value >> 62) by (bit_vector)
        requires
            bit < 62,
    ;
}

/// The storage locality reads bit 61 alone: two values that agree on that
/// bit have the same locality.
pub proof fn lemma_is_on_chain_reads_storage_bit(a: u64, b: u64)
    requires
        (a >> 61) & 1 == (b >> 61) & 1,
    ensures
        spec_is_on_chain(a) == spec_is_on_chain(b),
{
}

/// Flipping any bit other than bit 61 leaves the storage locality
/// unchanged.
pub proof fn lemma_is_on_chain_ignores_other_bits(value: u64, bit: u64)
    requires
        bit < 64,
        bit != 61,
    ensures
        spec_is_on_chain(value ^ (1u64 << bit)) == spec_is_on_chain(value),
{
    assert(((value ^ (1u64 << bit)) >> 61) & 1 == (value >> 61) & 1) by (bit_vector)
        requires
            bit < 64 && bit != 61,
    ;
}

/// Raw reconstruction accepts every canonical field element with enough
/// one-bits, whatever its trailing-zero count: the proof-of-work threshold
/// plays no part in reconstruction.
pub proof fn lemma_reconstruction_skips_pow(value: u64)
    requires
        is_felt(value),
        count_ones(value) >= MIN_ACCOUNT_ONES,
    ensures
        spec_reconstruct_id(value) == Ok::<u64, AccountError>(value),
{
}

/// A seed whose digest validates and derives an account's stored identifier
/// always validates against that account.
pub proof fn lemma_originating_seed_validates(account: Account, seed: Seq<u64>)
    requires
        spec_derive_id(seed, account.code_commitment@, account.storage_commitment@) matches Ok(v)
            && v == account.id@,
    ensures
        seed_matches_account(account, seed),
{
}

/// A seed whose digest validates but derives a different identifier never
/// validates against the account.
pub proof fn lemma_differing_seed_rejected(account: Account, seed: Seq<u64>)
    requires
        spec_derive_id(seed, account.code_commitment@, account.storage_commitment@) matches Ok(v)
            && v != account.id@,
    ensures
        !seed_matches_account(account, seed),
{
}

} // verus!

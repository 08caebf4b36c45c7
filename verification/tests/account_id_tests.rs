use miden_tx_core::account_id::{
    Account, AccountError, AccountId, AccountType, parse_felt, validate_account_seed,
};
use miden_tx_core::field::FIELD_MODULUS;
use miden_tx_core::hashing::{Digest, compute_digest, digest_pow};

// A digest element with exactly five one-bits and a clear top bit (regular
// category).
const FIVE_ONES: u64 = 0x1F;

#[test]
fn validate_seed_digest_accepts_exact_regular_threshold() {
    // digest[0] has exactly 5 one-bits, digest[3] exactly 23 trailing zeros.
    let digest = Digest([FIVE_ONES, 0, 0, 1u64 << 23]);
    assert_eq!(AccountId::validate_seed_digest(&digest), Ok(()));
}

#[test]
fn validate_seed_digest_rejects_one_zero_short() {
    // Same digest, trailing zeros reduced to 22.
    let digest = Digest([FIVE_ONES, 0, 0, 1u64 << 22]);
    assert_eq!(
        AccountId::validate_seed_digest(&digest),
        Err(AccountError::SeedDigestTooFewTrailingZeros)
    );
}

#[test]
fn validate_seed_digest_checks_ones_first() {
    // Four one-bits only; the huge trailing-zero count (element 3 is zero,
    // counted as 64) does not rescue it.
    let digest = Digest([0xF, 0, 0, 0]);
    assert_eq!(
        AccountId::validate_seed_digest(&digest),
        Err(AccountError::AccountIdTooFewOnes)
    );
}

#[test]
fn validate_seed_digest_faucet_needs_more_zeros() {
    // Top bit set: issuance category, threshold 31.
    let id_elem = (1u64 << 63) | 0xF;
    let digest = Digest([id_elem, 0, 0, 1u64 << 23]);
    assert_eq!(
        AccountId::validate_seed_digest(&digest),
        Err(AccountError::SeedDigestTooFewTrailingZeros)
    );
    let digest = Digest([id_elem, 0, 0, 1u64 << 31]);
    assert_eq!(AccountId::validate_seed_digest(&digest), Ok(()));
}

#[test]
fn reconstruction_succeeds_without_pow() {
    // FIVE_ONES has zero trailing zeros, far below any threshold, yet raw
    // reconstruction accepts it: only the Hamming weight is re-checked.
    let id = AccountId::try_from_int(FIVE_ONES).unwrap();
    assert_eq!(id.as_int(), FIVE_ONES);
}

#[test]
fn reconstruction_rejects_too_few_ones() {
    assert_eq!(
        AccountId::try_from_int(0xF),
        Err(AccountError::AccountIdTooFewOnes)
    );
}

#[test]
fn reconstruction_rejects_non_canonical_values() {
    assert_eq!(
        AccountId::try_from_int(u64::MAX),
        Err(AccountError::InvalidFieldElement)
    );
    assert_eq!(
        AccountId::try_from_int(FIELD_MODULUS),
        Err(AccountError::InvalidFieldElement)
    );
}

#[test]
fn account_type_decodes_all_categories() {
    let updatable = AccountId::try_from_int(FIVE_ONES).unwrap();
    assert_eq!(updatable.account_type(), AccountType::RegularAccountUpdatableCode);
    assert!(updatable.is_regular_account());
    assert!(!updatable.is_faucet());

    let immutable = AccountId::try_from_int((1u64 << 62) | FIVE_ONES).unwrap();
    assert_eq!(immutable.account_type(), AccountType::RegularAccountImmutableCode);
    assert!(immutable.is_regular_account());
    assert!(!immutable.is_faucet());

    let fungible = AccountId::try_from_int((2u64 << 62) | FIVE_ONES).unwrap();
    assert_eq!(fungible.account_type(), AccountType::FungibleFaucet);
    assert!(!fungible.is_regular_account());
    assert!(fungible.is_faucet());

    let non_fungible = AccountId::try_from_int((3u64 << 62) | FIVE_ONES).unwrap();
    assert_eq!(non_fungible.account_type(), AccountType::NonFungibleFaucet);
    assert!(!non_fungible.is_regular_account());
    assert!(non_fungible.is_faucet());
}

#[test]
fn account_type_ignores_low_bits() {
    // Flipping bits below 62 never changes the decoded category.
    let base = AccountId::try_from_int((2u64 << 62) | FIVE_ONES).unwrap();
    for bit in 0..62 {
        let flipped = ((2u64 << 62) | FIVE_ONES) ^ (1u64 << bit);
        if let Ok(other) = AccountId::try_from_int(flipped) {
            assert_eq!(other.account_type(), base.account_type());
        }
    }
}

#[test]
fn is_on_chain_reads_bit_61_only() {
    let off = AccountId::try_from_int(FIVE_ONES).unwrap();
    assert!(!off.is_on_chain());
    let on = AccountId::try_from_int((1u64 << 61) | FIVE_ONES).unwrap();
    assert!(on.is_on_chain());
    // Flipping a different bit does not change the locality.
    let on_other = AccountId::try_from_int((1u64 << 61) | (1u64 << 30) | FIVE_ONES).unwrap();
    assert!(on_other.is_on_chain());
}

#[test]
fn le_bytes_round_trip() {
    let value: u64 = 0x0102_0304_0506_0708;
    let id = AccountId::try_from_int(value).unwrap();
    let bytes = id.to_le_bytes();
    assert_eq!(bytes, vec![0x08, 0x07, 0x06, 0x05, 0x04, 0x03, 0x02, 0x01]);
    let back = AccountId::try_from_le_bytes(&bytes).unwrap();
    assert_eq!(back, id);
}

#[test]
fn identifier_converts_to_its_integer() {
    let id = AccountId::try_from_int(FIVE_ONES).unwrap();
    assert_eq!(u64::from(id), FIVE_ONES);
    assert_eq!(id.as_int(), FIVE_ONES);
}

#[test]
fn parse_felt_checks_length_and_bound() {
    assert_eq!(parse_felt(&[1, 2, 3]), Err(AccountError::InvalidFieldElement));
    assert_eq!(parse_felt(&[0xFF; 8]), Err(AccountError::InvalidFieldElement));
    assert_eq!(parse_felt(&[1, 0, 0, 0, 0, 0, 0, 0]), Ok(1));
}

#[test]
fn identifiers_order_by_value() {
    let small = AccountId::try_from_int(FIVE_ONES).unwrap();
    let large = AccountId::try_from_int((1u64 << 40) | FIVE_ONES).unwrap();
    assert!(small < large);
    assert_eq!(small, AccountId::try_from_int(FIVE_ONES).unwrap());
}

#[test]
fn compute_digest_is_deterministic_and_input_sensitive() {
    let seed = [1u64, 2, 3, 4];
    let code = Digest([5, 6, 7, 8]);
    let storage = Digest([9, 10, 11, 12]);
    let d1 = compute_digest(seed, code, storage);
    let d2 = compute_digest(seed, code, storage);
    assert_eq!(d1, d2);
    let other_seed = [1u64, 2, 3, 5];
    let d3 = compute_digest(other_seed, code, storage);
    assert_ne!(d1, d3);
    // Each digest element is a canonical field element.
    for e in d1.0 {
        assert!(e < FIELD_MODULUS);
    }
}

#[test]
fn digest_pow_counts_trailing_zeros_of_last_element() {
    let digest = Digest([FIVE_ONES, 0, 0, 0x300000]);
    assert_eq!(digest_pow(digest), 20);
    let digest = Digest([FIVE_ONES, 0, 0, 0]);
    assert_eq!(digest_pow(digest), 64);
}

#[test]
fn derivation_matches_digest_validation() {
    // Derivation must agree exactly with validating the computed digest and
    // taking its element 0.
    let seed = [11u64, 22, 33, 44];
    let code = Digest([1, 2, 3, 4]);
    let storage = Digest([5, 6, 7, 8]);
    let digest = compute_digest(seed, code, storage);
    match AccountId::validate_seed_digest(&digest) {
        Ok(()) => {
            let id = AccountId::new(seed, code, storage).unwrap();
            assert_eq!(id.as_int(), digest.0[0]);
        },
        Err(e) => {
            assert_eq!(AccountId::new(seed, code, storage), Err(e));
        },
    }
}

#[test]
fn seed_validation_agrees_with_derivation() {
    let seed = [7u64, 8, 9, 10];
    let code = Digest([1, 1, 2, 2]);
    let storage = Digest([3, 3, 4, 4]);
    let stored_id = AccountId::try_from_int(FIVE_ONES).unwrap();
    let account = Account { id: stored_id, code_commitment: code, storage_commitment: storage };
    match AccountId::new(seed, code, storage) {
        Ok(derived) => {
            if derived == stored_id {
                assert_eq!(validate_account_seed(&account, seed), Ok(()));
            } else {
                assert_eq!(
                    validate_account_seed(&account, seed),
                    Err(AccountError::InconsistentAccountIdSeed {
                        expected: stored_id,
                        actual: derived,
                    })
                );
            }
        },
        Err(e) => {
            assert_eq!(validate_account_seed(&account, seed), Err(e));
        },
    }
}

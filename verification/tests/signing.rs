use namada_poc::amount::{normalize, PrecisionReply};
use namada_poc::error::TransferError;
use namada_poc::identity::{AccountRef, Address, ExtendedSpendingKey, PaymentAddress, PublicKey};
use namada_poc::intent::{build, FeeStrategy, TransferIntent};
use namada_poc::signing::{sign, SigningData, UnsignedTransaction};

fn key(text: &str) -> PublicKey {
    PublicKey(String::from(text))
}

fn source() -> AccountRef {
    AccountRef::SpendingKey(ExtendedSpendingKey(String::from("zsknam1donor")))
}

fn intent(fee_payer: Option<&str>) -> TransferIntent {
    build(
        source(),
        AccountRef::Shielded(PaymentAddress(String::from("znam1charity"))),
        Address(String::from("tnam1token")),
        normalize(100, PrecisionReply::Declared(6)).unwrap(),
        None,
        fee_payer.map(|text| AccountRef::PublicKey(key(text))),
    )
}

fn tx() -> UnsignedTransaction {
    UnsignedTransaction::new(vec![1, 2, 3, 4])
}

#[test]
fn two_owners_and_one_key_is_incomplete() {
    let data = SigningData { owner: None, public_keys: vec![key("tpknam1a"), key("tpknam1b")] };
    let signed = sign(tx(), &intent(None), &data, &vec![key("tpknam1a")]);
    assert_eq!(signed, Err(TransferError::IncompleteSigningSet));
    let signed = sign(tx(), &intent(None), &data, &vec![key("tpknam1b")]);
    assert_eq!(signed, Err(TransferError::IncompleteSigningSet));
}

#[test]
fn owner_and_public_key_with_one_key_is_incomplete() {
    let data = SigningData { owner: Some(key("tpknam1owner")), public_keys: vec![key("tpknam1a")] };
    assert_eq!(
        sign(tx(), &intent(None), &data, &vec![key("tpknam1a")]),
        Err(TransferError::IncompleteSigningSet)
    );
    assert_eq!(
        sign(tx(), &intent(None), &data, &vec![key("tpknam1owner")]),
        Err(TransferError::IncompleteSigningSet)
    );
}

#[test]
fn no_keys_at_all_is_incomplete_where_someone_must_sign() {
    let data = SigningData { owner: Some(key("tpknam1owner")), public_keys: vec![] };
    assert_eq!(sign(tx(), &intent(None), &data, &vec![]), Err(TransferError::IncompleteSigningSet));
}

#[test]
fn every_owner_covered_signs_with_all_of_them() {
    let data = SigningData {
        owner: Some(key("tpknam1owner")),
        public_keys: vec![key("tpknam1a"), key("tpknam1b")],
    };
    let keys = vec![key("tpknam1b"), key("tpknam1spare"), key("tpknam1owner"), key("tpknam1a")];
    let signed = sign(tx(), &intent(None), &data, &keys).unwrap();
    assert_eq!(signed.signers(), &vec![key("tpknam1a"), key("tpknam1b"), key("tpknam1owner")]);
    assert_eq!(signed.payload(), &vec![1, 2, 3, 4]);
    assert_eq!(
        signed.fee_strategy(),
        &FeeStrategy::DisposableSelfFunded { unshield_source: source() }
    );
}

#[test]
fn explicit_payer_signs_after_the_owners() {
    let data = SigningData { owner: None, public_keys: vec![key("tpknam1a")] };
    let keys = vec![key("tpknam1payer"), key("tpknam1a")];
    let signed = sign(tx(), &intent(Some("tpknam1payer")), &data, &keys).unwrap();
    assert_eq!(signed.signers(), &vec![key("tpknam1a"), key("tpknam1payer")]);
    assert_eq!(signed.fee_strategy(), &FeeStrategy::ExplicitPayer(key("tpknam1payer")));
}

#[test]
fn explicit_payer_without_its_key_is_incomplete() {
    let data = SigningData { owner: None, public_keys: vec![key("tpknam1a")] };
    assert_eq!(
        sign(tx(), &intent(Some("tpknam1payer")), &data, &vec![key("tpknam1a")]),
        Err(TransferError::IncompleteSigningSet)
    );
}

#[test]
fn disposable_key_needs_no_key_from_the_wallet() {
    let data = SigningData { owner: None, public_keys: vec![] };
    let signed = sign(tx(), &intent(None), &data, &vec![]).unwrap();
    assert!(signed.signers().is_empty());
    assert_eq!(signed.payload(), &vec![1, 2, 3, 4]);
}

#[test]
fn unsigned_transaction_keeps_its_bytes() {
    assert_eq!(UnsignedTransaction::new(vec![9, 8, 7]).payload(), &vec![9, 8, 7]);
    assert!(UnsignedTransaction::new(vec![]).payload().is_empty());
}

use namada_poc::amount::PrecisionReply;
use namada_poc::config::AppConfig;
use namada_poc::error::TransferError;
use namada_poc::identity::{
    AccountRef, Address, ExtendedSpendingKey, IdentityKind, PaymentAddress, PublicKey,
};
use namada_poc::intent::FeeStrategy;
use namada_poc::outcome::{classify, conclude, ProcessResponse, ResultCode};
use namada_poc::pipeline::{authorize, plan, resolve_parties, BuildFailure, BuiltTransaction};
use namada_poc::signing::{SigningData, UnsignedTransaction};
use namada_poc::wallet::{StoredIdentity, Wallet};

fn canonical(text: &str) -> StoredIdentity {
    StoredIdentity::Canonical(String::from(text))
}

fn wallet() -> Wallet {
    let mut wallet = Wallet::new();
    wallet.register(IdentityKind::SpendingKey, String::from("donor"), canonical("zsknam1donor"));
    wallet.register(
        IdentityKind::ShieldedPaymentAddress,
        String::from("charity"),
        canonical("znam1charity"),
    );
    wallet.register(IdentityKind::TransparentAddress, String::from("NAM"), canonical("tnam1nam"));
    wallet.register(IdentityKind::PublicKey, String::from("sponsor"), canonical("tpknam1sponsor"));
    wallet.register(IdentityKind::PublicKey, String::from("broken"), StoredIdentity::Malformed);
    wallet
}

fn config(fee_payer: Option<&str>) -> AppConfig {
    AppConfig {
        chain_id: String::from("local.0000"),
        rpc: String::from("http://127.0.0.1:26657"),
        token: String::from("NAM"),
        source: String::from("donor"),
        target: String::from("charity"),
        amount: 100,
        fee_payer: fee_payer.map(String::from),
    }
}

fn donor() -> AccountRef {
    AccountRef::SpendingKey(ExtendedSpendingKey(String::from("zsknam1donor")))
}

fn built(public_keys: Vec<PublicKey>) -> Result<BuiltTransaction, BuildFailure> {
    Ok(BuiltTransaction {
        tx: UnsignedTransaction::new(vec![0xca, 0xfe]),
        signing_data: SigningData { owner: None, public_keys },
        epoch: 12,
    })
}

#[test]
fn donation_from_the_shielded_pool_goes_through() {
    let wallet = wallet();
    let config = config(None);
    let parties = resolve_parties(
        &wallet,
        &config,
        IdentityKind::SpendingKey,
        IdentityKind::ShieldedPaymentAddress,
    )
    .unwrap();
    assert_eq!(parties.source, donor());
    assert_eq!(parties.target, AccountRef::Shielded(PaymentAddress(String::from("znam1charity"))));
    assert_eq!(parties.token, Address(String::from("tnam1nam")));
    assert_eq!(parties.fee_payer, None);

    let intent = plan(parties, config.amount, PrecisionReply::Declared(6), None).unwrap();
    assert_eq!(intent.amount().to_text(), "100.000000");
    assert_eq!(
        intent.fee_strategy(),
        &FeeStrategy::DisposableSelfFunded { unshield_source: donor() }
    );

    let signed = authorize(&intent, built(vec![]), &vec![]).unwrap();
    assert_eq!(signed.payload(), &vec![0xca, 0xfe]);

    let answer =
        Ok(ProcessResponse::Applied { code: ResultCode::Success, hash: String::from("deadbeef") });
    let outcome = classify(answer);
    assert!(outcome.accepted);
    assert_eq!(outcome.report(), "sent: true, tx: deadbeef");
}

#[test]
fn resolvable_fee_payer_is_the_explicit_payer() {
    let wallet = wallet();
    let config = config(Some("sponsor"));
    let parties = resolve_parties(
        &wallet,
        &config,
        IdentityKind::SpendingKey,
        IdentityKind::ShieldedPaymentAddress,
    )
    .unwrap();
    assert_eq!(
        parties.fee_payer,
        Some(AccountRef::PublicKey(PublicKey(String::from("tpknam1sponsor"))))
    );
    let intent = plan(parties, 5, PrecisionReply::Declared(6), None).unwrap();
    assert_eq!(
        intent.fee_strategy(),
        &FeeStrategy::ExplicitPayer(PublicKey(String::from("tpknam1sponsor")))
    );
}

#[test]
fn unresolvable_fee_payer_falls_back_without_an_error() {
    let wallet = wallet();
    for alias in ["nobody", "broken", "donor", ""] {
        let config = config(Some(alias));
        let parties = resolve_parties(
            &wallet,
            &config,
            IdentityKind::SpendingKey,
            IdentityKind::ShieldedPaymentAddress,
        )
        .unwrap();
        assert_eq!(parties.fee_payer, None);
        let intent = plan(parties, 5, PrecisionReply::Declared(6), None).unwrap();
        assert_eq!(
            intent.fee_strategy(),
            &FeeStrategy::DisposableSelfFunded { unshield_source: donor() }
        );
    }
}

#[test]
fn unknown_source_ends_the_request() {
    let wallet = wallet();
    let mut config = config(Some("sponsor"));
    config.source = String::from("stranger");
    assert_eq!(
        resolve_parties(
            &wallet,
            &config,
            IdentityKind::SpendingKey,
            IdentityKind::ShieldedPaymentAddress
        ),
        Err(TransferError::UnknownAlias { alias: String::from("stranger") })
    );
}

#[test]
fn source_of_the_wrong_kind_is_unknown() {
    let wallet = wallet();
    assert_eq!(
        resolve_parties(
            &wallet,
            &config(None),
            IdentityKind::TransparentAddress,
            IdentityKind::ShieldedPaymentAddress
        ),
        Err(TransferError::UnknownAlias { alias: String::from("donor") })
    );
}

#[test]
fn malformed_target_ends_the_request() {
    let mut wallet = wallet();
    wallet.register(
        IdentityKind::ShieldedPaymentAddress,
        String::from("charity"),
        StoredIdentity::Malformed,
    );
    assert_eq!(
        resolve_parties(
            &wallet,
            &config(None),
            IdentityKind::SpendingKey,
            IdentityKind::ShieldedPaymentAddress
        ),
        Err(TransferError::MalformedIdentity { alias: String::from("charity") })
    );
}

#[test]
fn unknown_token_ends_the_request() {
    let wallet = wallet();
    let mut config = config(None);
    config.token = String::from("BTC");
    assert_eq!(
        resolve_parties(
            &wallet,
            &config,
            IdentityKind::SpendingKey,
            IdentityKind::ShieldedPaymentAddress
        ),
        Err(TransferError::UnknownAlias { alias: String::from("BTC") })
    );
}

#[test]
fn source_fails_before_target_and_token() {
    let wallet = Wallet::new();
    assert_eq!(
        resolve_parties(
            &wallet,
            &config(None),
            IdentityKind::SpendingKey,
            IdentityKind::ShieldedPaymentAddress
        ),
        Err(TransferError::UnknownAlias { alias: String::from("donor") })
    );
    let mut wallet = Wallet::new();
    wallet.register(IdentityKind::SpendingKey, String::from("donor"), canonical("zsknam1donor"));
    assert_eq!(
        resolve_parties(
            &wallet,
            &config(None),
            IdentityKind::SpendingKey,
            IdentityKind::ShieldedPaymentAddress
        ),
        Err(TransferError::UnknownAlias { alias: String::from("charity") })
    );
}

#[test]
fn transparent_transfer_resolves_too() {
    let mut wallet = wallet();
    wallet.register(IdentityKind::TransparentAddress, String::from("donor"), canonical("tnam1donor"));
    wallet.register(
        IdentityKind::TransparentAddress,
        String::from("charity"),
        canonical("tnam1charity"),
    );
    let parties = resolve_parties(
        &wallet,
        &config(None),
        IdentityKind::TransparentAddress,
        IdentityKind::TransparentAddress,
    )
    .unwrap();
    assert_eq!(parties.source, AccountRef::Transparent(Address(String::from("tnam1donor"))));
    assert_eq!(parties.target, AccountRef::Transparent(Address(String::from("tnam1charity"))));
}

#[test]
fn plan_without_precision_fails_the_query() {
    let wallet = wallet();
    for reply in [PrecisionReply::Undeclared, PrecisionReply::Unreachable] {
        let parties = resolve_parties(
            &wallet,
            &config(None),
            IdentityKind::SpendingKey,
            IdentityKind::ShieldedPaymentAddress,
        )
        .unwrap();
        assert_eq!(plan(parties, 100, reply, None), Err(TransferError::DenominationQueryFailed));
    }
}

#[test]
fn failed_build_ends_the_request() {
    let wallet = wallet();
    let parties = resolve_parties(
        &wallet,
        &config(None),
        IdentityKind::SpendingKey,
        IdentityKind::ShieldedPaymentAddress,
    )
    .unwrap();
    let intent = plan(parties, 100, PrecisionReply::Declared(6), None).unwrap();
    let reply = Err(BuildFailure { reason: String::from("insufficient balance") });
    assert_eq!(authorize(&intent, reply, &vec![]), Err(TransferError::BuildFailed));
}

#[test]
fn missing_signer_ends_the_request_after_a_good_build() {
    let wallet = wallet();
    let parties = resolve_parties(
        &wallet,
        &config(Some("sponsor")),
        IdentityKind::SpendingKey,
        IdentityKind::ShieldedPaymentAddress,
    )
    .unwrap();
    let intent = plan(parties, 100, PrecisionReply::Declared(6), None).unwrap();
    let owner = PublicKey(String::from("tpknam1owner"));
    let sponsor = PublicKey(String::from("tpknam1sponsor"));
    assert_eq!(
        authorize(&intent, built(vec![owner.clone()]), &vec![owner.clone()]),
        Err(TransferError::IncompleteSigningSet)
    );
    let signed =
        authorize(&intent, built(vec![owner.clone()]), &vec![sponsor.clone(), owner.clone()])
            .unwrap();
    assert_eq!(signed.signers(), &vec![owner, sponsor]);
}

#[test]
fn rejected_submission_ends_the_request_with_its_code() {
    let answer =
        Ok(ProcessResponse::Applied { code: ResultCode::Failure(4), hash: String::from("abc") });
    assert_eq!(
        conclude(answer),
        Err(TransferError::SubmissionRejected { code: ResultCode::Failure(4) })
    );
}

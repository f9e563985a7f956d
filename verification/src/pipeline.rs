//! A transfer from its settings to its outcome, in the steps between which
//! the caller talks to the network: resolve the parties, plan the intent once
//! the token's precision is known, authorise what the builder made, and read
//! the answer to the submission with `crate::outcome::conclude`.

use crate::amount::{normalize, normalize_spec, PrecisionReply};
use crate::config::AppConfig;
use crate::error::{result_view, TransferError, TransferErrorView};
use crate::identity::{AccountRef, AccountRefView, Address, IdentityKind, PublicKey};
use crate::intent::{
    account_view, build, build_spec, fee_strategy_spec, FeeStrategyView, TransferIntent,
    TransferIntentView,
};
use crate::signing::{
    sign, sign_spec, SignedTransaction, SignedTransactionView, SigningData, SigningDataView,
    UnsignedTransaction,
};
use crate::wallet::{resolve, resolve_spec, Wallet, WalletKey};
use vstd::prelude::*;

verus! {

/// The accounts of a transfer, resolved.
#[derive(Debug, PartialEq, Eq)]
pub struct Parties {
    pub source: AccountRef,
    pub target: AccountRef,
    pub token: Address,
    /// The fee payer's key, where one was named and found.
    pub fee_payer: Option<AccountRef>,
}

/// `Parties` over the views of its parts.
pub struct PartiesView {
    pub source: AccountRefView,
    pub target: AccountRefView,
    pub token: Seq<char>,
    pub fee_payer: Option<AccountRefView>,
}

impl View for Parties {
    type V = PartiesView;

    open spec fn view(&self) -> PartiesView {
        PartiesView {
            source: self.source@,
            target: self.target@,
            token: self.token@,
            fee_payer: account_view(self.fee_payer),
        }
    }
}

/// A text that may be missing, by its characters.
pub open spec fn alias_view(alias: Option<String>) -> Option<Seq<char>> {
    match alias {
        Some(alias) => Some(alias@),
        None => None,
    }
}

/// The fee payer that an alias gives: its public key where the wallet has
/// one, and none where no alias was named or the alias does not resolve.
pub open spec fn fee_payer_spec(
    wallet: Map<WalletKey, Option<Seq<char>>>,
    alias: Option<Seq<char>>,
) -> Option<AccountRefView> {
    match alias {
        Some(alias) => match resolve_spec(wallet, alias, IdentityKind::PublicKey) {
            Ok(key) => Some(key),
            Err(_) => None,
        },
        None => None,
    }
}

/// The parties of a transfer. Source, target and token are looked up in this
/// order and the first that fails ends the request; the fee payer is looked
/// up last, and its failure ends nothing.
pub open spec fn resolve_parties_spec(
    wallet: Map<WalletKey, Option<Seq<char>>>,
    source: Seq<char>,
    source_kind: IdentityKind,
    target: Seq<char>,
    target_kind: IdentityKind,
    token: Seq<char>,
    fee_payer: Option<Seq<char>>,
) -> Result<PartiesView, TransferErrorView> {
    match resolve_spec(wallet, source, source_kind) {
        Err(error) => Err(error),
        Ok(source) => match resolve_spec(wallet, target, target_kind) {
            Err(error) => Err(error),
            Ok(target) => match resolve_spec(wallet, token, IdentityKind::TransparentAddress) {
                Err(error) => Err(error),
                Ok(token) => Ok(
                    PartiesView {
                        source,
                        target,
                        token: token.encoding,
                        fee_payer: fee_payer_spec(wallet, fee_payer),
                    },
                ),
            },
        },
    }
}

/// Resolves the aliases of a transfer. The kinds say whether source and
/// target are transparent or shielded.
pub fn resolve_parties(
    wallet: &Wallet,
    config: &AppConfig,
    source_kind: IdentityKind,
    target_kind: IdentityKind,
) -> (parties: Result<Parties, TransferError>)
    ensures
        result_view(parties) == resolve_parties_spec(
            wallet@,
            config.source@,
            source_kind,
            config.target@,
            target_kind,
            config.token@,
            alias_view(config.fee_payer),
        ),
{
    let source = match resolve(wallet, config.source.as_str(), source_kind) {
        Ok(source) => source,
        Err(error) => {
            return Err(error);
        },
    };
    let target = match resolve(wallet, config.target.as_str(), target_kind) {
        Ok(target) => target,
        Err(error) => {
            return Err(error);
        },
    };
    let token = match resolve(wallet, config.token.as_str(), IdentityKind::TransparentAddress) {
        Ok(token) => Address(token.encode()),
        Err(error) => {
            return Err(error);
        },
    };
    let fee_payer = match &config.fee_payer {
        Some(alias) => match resolve(wallet, alias.as_str(), IdentityKind::PublicKey) {
            Ok(key) => Some(key),
            Err(_) => None,
        },
        None => None,
    };
    Ok(Parties { source, target, token, fee_payer })
}

/// The intent for resolved parties: the amount has to be denominated first,
/// and then nothing can fail.
pub open spec fn plan_spec(
    parties: PartiesView,
    raw_amount: u64,
    reply: PrecisionReply,
    memo: Option<Seq<u8>>,
) -> Result<TransferIntentView, TransferErrorView> {
    match normalize_spec(raw_amount, reply) {
        Err(error) => Err(error),
        Ok(amount) => Ok(
            build_spec(
                parties.source,
                parties.target,
                parties.token,
                amount,
                memo,
                parties.fee_payer,
            ),
        ),
    }
}

/// Makes the intent of a transfer from its parties, its raw amount and the
/// network's word on the token's precision.
pub fn plan(
    parties: Parties,
    raw_amount: u64,
    reply: PrecisionReply,
    memo: Option<Vec<u8>>,
) -> (intent: Result<TransferIntent, TransferError>)
    ensures
        result_view(intent) == plan_spec(parties@, raw_amount, reply, memo.deep_view()),
{
    match normalize(raw_amount, reply) {
        Err(error) => Err(error),
        Ok(amount) => Ok(
            build(parties.source, parties.target, parties.token, amount, memo, parties.fee_payer),
        ),
    }
}

/// What the builder hands back for an intent: the transaction and the word
/// on who must sign it. The two belong to each other and to that intent.
#[derive(Debug, PartialEq, Eq)]
pub struct BuiltTransaction {
    pub tx: UnsignedTransaction,
    pub signing_data: SigningData,
    /// The epoch the transaction was built in.
    pub epoch: u64,
}

/// The builder could not make a transaction of the intent.
#[derive(Debug, PartialEq, Eq)]
pub struct BuildFailure {
    pub reason: String,
}

/// The builder's answer as `authorize_spec` reads it: the transaction with
/// its signing data, or nothing where the builder failed.
pub open spec fn build_reply_view(reply: Result<BuiltTransaction, BuildFailure>) -> Option<
    (Seq<u8>, SigningDataView),
> {
    match reply {
        Ok(built) => Some((built.tx@, built.signing_data@)),
        Err(_) => None,
    }
}

/// The signed transaction for an intent and the builder's answer to it. A
/// builder that failed ends the request, and so does a missing signer.
pub open spec fn authorize_spec(
    intent: TransferIntentView,
    reply: Option<(Seq<u8>, SigningDataView)>,
    keys: Seq<Seq<char>>,
) -> Result<SignedTransactionView, TransferErrorView> {
    match reply {
        None => Err(TransferErrorView::BuildFailed),
        Some((tx, data)) => sign_spec(tx, intent, data, keys),
    }
}

/// Takes the builder's answer to an intent and settles who signs.
pub fn authorize(
    intent: &TransferIntent,
    reply: Result<BuiltTransaction, BuildFailure>,
    keys: &Vec<PublicKey>,
) -> (signed: Result<SignedTransaction, TransferError>)
    ensures
        result_view(signed) == authorize_spec(intent@, build_reply_view(reply), keys.deep_view()),
{
    match reply {
        Err(_) => Err(TransferError::BuildFailed),
        Ok(built) => sign(built.tx, intent, &built.signing_data, keys),
    }
}

/// A fee payer decides how the fee is paid and nothing else. Whether the
/// parties resolve does not depend on it, nor does the error where they do
/// not. Where they do, a fee payer whose alias resolves is the explicit
/// payer of any intent planned for them, and without such a fee payer the
/// source pays for itself.
pub proof fn lemma_fee_payer_only_picks_the_strategy(
    wallet: Map<WalletKey, Option<Seq<char>>>,
    source: Seq<char>,
    source_kind: IdentityKind,
    target: Seq<char>,
    target_kind: IdentityKind,
    token: Seq<char>,
    fee_payer: Option<Seq<char>>,
)
    ensures
        ({
            let with = resolve_parties_spec(
                wallet,
                source,
                source_kind,
                target,
                target_kind,
                token,
                fee_payer,
            );
            let without = resolve_parties_spec(
                wallet,
                source,
                source_kind,
                target,
                target_kind,
                token,
                None,
            );
            let key = fee_payer_spec(wallet, fee_payer);
            &&& with is Ok <==> without is Ok
            &&& with is Err ==> with == without
            &&& key is Some <==> fee_payer is Some && resolve_spec(
                wallet,
                fee_payer->Some_0,
                IdentityKind::PublicKey,
            ) is Ok
            &&& with matches Ok(parties) ==> {
                &&& parties.source == without->Ok_0.source
                &&& parties.target == without->Ok_0.target
                &&& parties.token == without->Ok_0.token
                &&& key matches Some(payer) ==> fee_strategy_spec(parties.source, parties.fee_payer)
                    == FeeStrategyView::ExplicitPayer(payer.encoding)
                &&& key is None ==> fee_strategy_spec(parties.source, parties.fee_payer) == (
                FeeStrategyView::DisposableSelfFunded { unshield_source: parties.source })
            }
        }),
{
}

/// With a builder that answers, the request gets past the build: the error
/// `BuildFailed` comes up if and only if the builder failed.
pub proof fn lemma_build_fails_only_with_the_builder(
    intent: TransferIntentView,
    reply: Option<(Seq<u8>, SigningDataView)>,
    keys: Seq<Seq<char>>,
)
    ensures
        authorize_spec(intent, reply, keys) == Err::<SignedTransactionView, TransferErrorView>(
            TransferErrorView::BuildFailed,
        ) <==> reply is None,
{
}

} // verus!

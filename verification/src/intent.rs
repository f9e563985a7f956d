//! The request for a transfer, as it is handed to the transaction builder.

use crate::amount::{NormalizedAmount, NormalizedAmountView};
use crate::identity::{AccountRef, AccountRefView, Address, IdentityKind, PublicKey};
use vstd::prelude::*;

verus! {

/// How the fee of a transaction is paid.
#[derive(Debug, PartialEq, Eq)]
pub enum FeeStrategy {
    /// A designated account pays, and signs for it with this key.
    ExplicitPayer(PublicKey),
    /// A signing key made for this one transaction pays, out of funds that
    /// `unshield_source` releases from the shielded pool.
    DisposableSelfFunded { unshield_source: AccountRef },
}

/// A `FeeStrategy` over the views of its parts.
pub enum FeeStrategyView {
    ExplicitPayer(Seq<char>),
    DisposableSelfFunded { unshield_source: AccountRefView },
}

impl View for FeeStrategy {
    type V = FeeStrategyView;

    open spec fn view(&self) -> FeeStrategyView {
        match *self {
            FeeStrategy::ExplicitPayer(key) => FeeStrategyView::ExplicitPayer(key@),
            FeeStrategy::DisposableSelfFunded { unshield_source } => {
                FeeStrategyView::DisposableSelfFunded { unshield_source: unshield_source@ }
            },
        }
    }
}

impl Clone for FeeStrategy {
    fn clone(&self) -> (copy: Self)
        ensures
            copy@ == self@,
    {
        match self {
            FeeStrategy::ExplicitPayer(key) => FeeStrategy::ExplicitPayer(key.clone()),
            FeeStrategy::DisposableSelfFunded { unshield_source } => {
                FeeStrategy::DisposableSelfFunded { unshield_source: unshield_source.clone() }
            },
        }
    }
}

/// A transfer that has been decided on and not yet built. Its parts are set
/// once, by `build`, and can only be read afterwards.
#[derive(Debug, PartialEq, Eq)]
pub struct TransferIntent {
    source: AccountRef,
    target: AccountRef,
    token: Address,
    amount: NormalizedAmount,
    memo: Option<Vec<u8>>,
    fee_strategy: FeeStrategy,
}

/// A `TransferIntent` over the views of its parts.
pub struct TransferIntentView {
    pub source: AccountRefView,
    pub target: AccountRefView,
    pub token: Seq<char>,
    pub amount: NormalizedAmountView,
    pub memo: Option<Seq<u8>>,
    pub fee_strategy: FeeStrategyView,
}

impl View for TransferIntent {
    type V = TransferIntentView;

    closed spec fn view(&self) -> TransferIntentView {
        TransferIntentView {
            source: self.source@,
            target: self.target@,
            token: self.token@,
            amount: self.amount@,
            memo: self.memo.deep_view(),
            fee_strategy: self.fee_strategy@,
        }
    }
}

impl TransferIntent {
    pub fn source(&self) -> (source: &AccountRef)
        ensures
            source@ == self@.source,
    {
        &self.source
    }

    pub fn target(&self) -> (target: &AccountRef)
        ensures
            target@ == self@.target,
    {
        &self.target
    }

    pub fn token(&self) -> (token: &Address)
        ensures
            token@ == self@.token,
    {
        &self.token
    }

    pub fn amount(&self) -> (amount: NormalizedAmount)
        ensures
            amount@ == self@.amount,
    {
        self.amount
    }

    pub fn memo(&self) -> (memo: &Option<Vec<u8>>)
        ensures
            memo.deep_view() == self@.memo,
    {
        &self.memo
    }

    pub fn fee_strategy(&self) -> (fee_strategy: &FeeStrategy)
        ensures
            fee_strategy@ == self@.fee_strategy,
    {
        &self.fee_strategy
    }
}

/// An account that may be missing, by its view.
pub open spec fn account_view(account: Option<AccountRef>) -> Option<AccountRefView> {
    match account {
        Some(account) => Some(account@),
        None => None,
    }
}

/// Who pays the fee. A fee payer that is a public key pays. Without one, or
/// with one that is no public key, the transfer pays for itself: the source
/// releases the fee from the shielded pool.
pub open spec fn fee_strategy_spec(
    source: AccountRefView,
    fee_payer: Option<AccountRefView>,
) -> FeeStrategyView {
    match fee_payer {
        Some(payer) => if payer.kind is PublicKey {
            FeeStrategyView::ExplicitPayer(payer.encoding)
        } else {
            FeeStrategyView::DisposableSelfFunded { unshield_source: source }
        },
        None => FeeStrategyView::DisposableSelfFunded { unshield_source: source },
    }
}

/// The intent that `build` makes: every part as it was given, and the fee
/// strategy that the fee payer decides.
pub open spec fn build_spec(
    source: AccountRefView,
    target: AccountRefView,
    token: Seq<char>,
    amount: NormalizedAmountView,
    memo: Option<Seq<u8>>,
    fee_payer: Option<AccountRefView>,
) -> TransferIntentView {
    TransferIntentView {
        source,
        target,
        token,
        amount,
        memo,
        fee_strategy: fee_strategy_spec(source, fee_payer),
    }
}

/// Decides how the fee is paid.
pub fn choose_fee_strategy(
    source: &AccountRef,
    fee_payer: Option<AccountRef>,
) -> (strategy: FeeStrategy)
    ensures
        strategy@ == fee_strategy_spec(source@, account_view(fee_payer)),
{
    match fee_payer {
        Some(AccountRef::PublicKey(key)) => FeeStrategy::ExplicitPayer(key),
        _ => FeeStrategy::DisposableSelfFunded { unshield_source: source.clone() },
    }
}

/// Puts a transfer together. Source and target may each be transparent or
/// shielded; no pairing is refused here, and the memo is taken as it is.
pub fn build(
    source: AccountRef,
    target: AccountRef,
    token: Address,
    amount: NormalizedAmount,
    memo: Option<Vec<u8>>,
    fee_payer: Option<AccountRef>,
) -> (intent: TransferIntent)
    ensures
        intent@ == build_spec(
            source@,
            target@,
            token@,
            amount@,
            memo.deep_view(),
            account_view(fee_payer),
        ),
{
    let fee_strategy = choose_fee_strategy(&source, fee_payer);
    TransferIntent { source, target, token, amount, memo, fee_strategy }
}

/// Whatever the kinds of source and target, the intent records both exactly
/// as they were given: the same kind and the same encoding. The token, the
/// amount and the memo are recorded unchanged too.
pub proof fn lemma_build_keeps_its_inputs(
    source: AccountRefView,
    target: AccountRefView,
    token: Seq<char>,
    amount: NormalizedAmountView,
    memo: Option<Seq<u8>>,
    fee_payer: Option<AccountRefView>,
)
    ensures
        build_spec(source, target, token, amount, memo, fee_payer).source == source,
        build_spec(source, target, token, amount, memo, fee_payer).target == target,
        build_spec(source, target, token, amount, memo, fee_payer).source.kind.is_shielded()
            == source.kind.is_shielded(),
        build_spec(source, target, token, amount, memo, fee_payer).target.kind.is_shielded()
            == target.kind.is_shielded(),
        build_spec(source, target, token, amount, memo, fee_payer).token == token,
        build_spec(source, target, token, amount, memo, fee_payer).amount == amount,
        build_spec(source, target, token, amount, memo, fee_payer).memo == memo,
{
}

/// The fee strategy is one of two, decided by the fee payer alone: a public
/// key pays by itself, and anything else leaves the fee to the source.
pub proof fn lemma_fee_strategy_is_decided_by_the_payer(
    source: AccountRefView,
    fee_payer: Option<AccountRefView>,
)
    ensures
        fee_payer is Some && fee_payer.unwrap().kind is PublicKey ==> fee_strategy_spec(
            source,
            fee_payer,
        ) == FeeStrategyView::ExplicitPayer(fee_payer.unwrap().encoding),
        !(fee_payer is Some && fee_payer.unwrap().kind is PublicKey) ==> fee_strategy_spec(
            source,
            fee_payer,
        ) == (FeeStrategyView::DisposableSelfFunded { unshield_source: source }),
{
}

} // verus!

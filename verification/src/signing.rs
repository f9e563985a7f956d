//! Who has to sign a transaction, and whether every one of them can.

use crate::error::{result_view, TransferError, TransferErrorView};
use crate::identity::PublicKey;
use crate::intent::{FeeStrategy, FeeStrategyView, TransferIntent, TransferIntentView};
use vstd::prelude::*;

verus! {

/// A transaction as the builder made it, before anyone signed. The library
/// carries its bytes and never reads them.
#[derive(Debug, PartialEq, Eq)]
pub struct UnsignedTransaction {
    payload: Vec<u8>,
}

impl View for UnsignedTransaction {
    type V = Seq<u8>;

    closed spec fn view(&self) -> Seq<u8> {
        self.payload@
    }
}

impl UnsignedTransaction {
    pub fn new(payload: Vec<u8>) -> (tx: UnsignedTransaction)
        ensures
            tx@ == payload@,
    {
        UnsignedTransaction { payload }
    }

    pub fn payload(&self) -> (payload: &Vec<u8>)
        ensures
            payload@ == self@,
    {
        &self.payload
    }
}

/// The builder's word on who must sign the transaction it made.
#[derive(Debug, PartialEq, Eq)]
pub struct SigningData {
    /// The key that owns the source account, where one key does.
    pub owner: Option<PublicKey>,
    /// Further keys that must sign.
    pub public_keys: Vec<PublicKey>,
}

/// A `SigningData` with its keys as sequences of characters.
pub struct SigningDataView {
    pub owner: Option<Seq<char>>,
    pub public_keys: Seq<Seq<char>>,
}

impl View for SigningData {
    type V = SigningDataView;

    open spec fn view(&self) -> SigningDataView {
        SigningDataView {
            owner: self.owner.deep_view(),
            public_keys: self.public_keys.deep_view(),
        }
    }
}

/// A transaction together with the keys that sign it and the way its fee is
/// authorised. Only `sign` makes one, and only where no signer is missing.
#[derive(Debug, PartialEq, Eq)]
pub struct SignedTransaction {
    payload: Vec<u8>,
    signers: Vec<PublicKey>,
    fee_strategy: FeeStrategy,
}

/// A `SignedTransaction` over the views of its parts.
pub struct SignedTransactionView {
    pub payload: Seq<u8>,
    pub signers: Seq<Seq<char>>,
    pub fee_strategy: FeeStrategyView,
}

impl View for SignedTransaction {
    type V = SignedTransactionView;

    closed spec fn view(&self) -> SignedTransactionView {
        SignedTransactionView {
            payload: self.payload@,
            signers: self.signers.deep_view(),
            fee_strategy: self.fee_strategy@,
        }
    }
}

impl SignedTransaction {
    pub fn payload(&self) -> (payload: &Vec<u8>)
        ensures
            payload@ == self@.payload,
    {
        &self.payload
    }

    pub fn signers(&self) -> (signers: &Vec<PublicKey>)
        ensures
            signers.deep_view() == self@.signers,
    {
        &self.signers
    }

    pub fn fee_strategy(&self) -> (fee_strategy: &FeeStrategy)
        ensures
            fee_strategy@ == self@.fee_strategy,
    {
        &self.fee_strategy
    }
}

/// The owners that the signing data names: its public keys in their order,
/// then the owner of the source.
pub open spec fn required_owners(data: SigningDataView) -> Seq<Seq<char>> {
    match data.owner {
        Some(owner) => data.public_keys.push(owner),
        None => data.public_keys,
    }
}

/// Everyone who has to sign: the owners and, where a designated account pays
/// the fee, its key. A key made for the one transaction signs by itself and
/// is not asked for here.
pub open spec fn required_signers(fee_strategy: FeeStrategyView, data: SigningDataView) -> Seq<
    Seq<char>,
> {
    match fee_strategy {
        FeeStrategyView::ExplicitPayer(payer) => required_owners(data).push(payer),
        FeeStrategyView::DisposableSelfFunded { .. } => required_owners(data),
    }
}

/// Whether each of the required keys is among the keys at hand.
pub open spec fn all_present(required: Seq<Seq<char>>, keys: Seq<Seq<char>>) -> bool {
    forall|i: int| 0 <= i < required.len() ==> keys.contains(#[trigger] required[i])
}

/// Those of the required owners that have a key at hand.
pub open spec fn signer_set(data: SigningDataView, keys: Seq<Seq<char>>) -> Set<Seq<char>> {
    required_owners(data).to_set().intersect(keys.to_set())
}

/// What `sign` returns. With every required signer at hand the transaction
/// goes out with all of them; with one missing, it does not go out at all.
pub open spec fn sign_spec(
    unsigned_tx: Seq<u8>,
    intent: TransferIntentView,
    data: SigningDataView,
    keys: Seq<Seq<char>>,
) -> Result<SignedTransactionView, TransferErrorView> {
    let required = required_signers(intent.fee_strategy, data);
    if all_present(required, keys) {
        Ok(
            SignedTransactionView {
                payload: unsigned_tx,
                signers: required,
                fee_strategy: intent.fee_strategy,
            },
        )
    } else {
        Err(TransferErrorView::IncompleteSigningSet)
    }
}

/// Whether a key is among the keys at hand.
fn has_key(keys: &Vec<PublicKey>, key: &PublicKey) -> (found: bool)
    ensures
        found == keys.deep_view().contains(key@),
{
    let mut i: usize = 0;
    while i < keys.len()
        invariant
            i <= keys.len(),
            forall|j: int| 0 <= j < i ==> keys.deep_view()[j] != key@,
        decreases keys.len() - i,
    {
        if keys[i].0 == key.0 {
            assert(keys.deep_view()[i as int] == key@);
            return true;
        }
        i = i + 1;
    }
    false
}

/// The keys that have to sign, in the order of `required_signers`.
fn collect_required(fee_strategy: &FeeStrategy, data: &SigningData) -> (required: Vec<PublicKey>)
    ensures
        required.deep_view() == required_signers(fee_strategy@, data@),
{
    let mut required: Vec<PublicKey> = Vec::new();
    let mut i: usize = 0;
    while i < data.public_keys.len()
        invariant
            i <= data.public_keys.len(),
            required.deep_view() == data.public_keys.deep_view().take(i as int),
        decreases data.public_keys.len() - i,
    {
        let ghost before = required.deep_view();
        let key = data.public_keys[i].clone();
        assert(key@ == data.public_keys.deep_view()[i as int]);
        required.push(key);
        assert(required.deep_view() =~= before.push(key@));
        i = i + 1;
        assert(before.push(key@) =~= data.public_keys.deep_view().take(i as int));
    }
    assert(data.public_keys.deep_view().take(i as int) == data.public_keys.deep_view());
    match &data.owner {
        Some(owner) => {
            let ghost before = required.deep_view();
            required.push(owner.clone());
            assert(required.deep_view() =~= before.push(owner@));
        },
        None => {},
    }
    match fee_strategy {
        FeeStrategy::ExplicitPayer(payer) => {
            let ghost before = required.deep_view();
            required.push(payer.clone());
            assert(required.deep_view() =~= before.push(payer@));
        },
        FeeStrategy::DisposableSelfFunded { .. } => {},
    }
    required
}

/// Settles who signs a transaction. The keys at hand must cover every owner
/// that the signing data names and, where a designated account pays the fee,
/// its key as well. If one is missing the transaction is not signed in part:
/// it is not signed.
pub fn sign(
    unsigned_tx: UnsignedTransaction,
    intent: &TransferIntent,
    signing_data: &SigningData,
    keys: &Vec<PublicKey>,
) -> (signed: Result<SignedTransaction, TransferError>)
    ensures
        result_view(signed) == sign_spec(unsigned_tx@, intent@, signing_data@, keys.deep_view()),
{
    let required = collect_required(intent.fee_strategy(), signing_data);
    let mut i: usize = 0;
    while i < required.len()
        invariant
            i <= required.len(),
            required.deep_view() == required_signers(intent@.fee_strategy, signing_data@),
            forall|j: int|
                0 <= j < i ==> keys.deep_view().contains(#[trigger] required.deep_view()[j]),
        decreases required.len() - i,
    {
        if !has_key(keys, &required[i]) {
            assert(required.deep_view()[i as int] == required[i as int]@);
            return Err(TransferError::IncompleteSigningSet);
        }
        assert(required.deep_view()[i as int] == required[i as int]@);
        i = i + 1;
    }
    Ok(
        SignedTransaction {
            payload: unsigned_tx.payload,
            signers: required,
            fee_strategy: intent.fee_strategy().clone(),
        },
    )
}

/// The owners with a key at hand are always among the required owners. Where
/// they are fewer, so that some owner is left without a key, signing fails
/// with `IncompleteSigningSet`, whatever the transaction and the intent.
pub proof fn lemma_partial_signing_fails(
    unsigned_tx: Seq<u8>,
    intent: TransferIntentView,
    data: SigningDataView,
    keys: Seq<Seq<char>>,
)
    ensures
        signer_set(data, keys).subset_of(required_owners(data).to_set()),
        signer_set(data, keys) != required_owners(data).to_set() ==> sign_spec(
            unsigned_tx,
            intent,
            data,
            keys,
        ) == Err::<SignedTransactionView, TransferErrorView>(
            TransferErrorView::IncompleteSigningSet,
        ),
{
    let owners = required_owners(data);
    let required = required_signers(intent.fee_strategy, data);
    if all_present(required, keys) {
        assert forall|key: Seq<char>| owners.to_set().contains(key) implies signer_set(
            data,
            keys,
        ).contains(key) by {
            let i = choose|i: int| 0 <= i < owners.len() && owners[i] == key;
            assert(required[i] == key);
        }
        assert(signer_set(data, keys) =~= owners.to_set());
    }
}

} // verus!

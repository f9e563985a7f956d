//! The identities a transfer moves value between.
//!
//! An identity is held as the text of its canonical encoding. The library
//! never looks inside that text: two identities are the same where their
//! texts are.

use vstd::prelude::*;

verus! {

/// The representations an alias can be resolved to.
#[derive(Clone, Copy, Debug, PartialEq, Eq, Structural)]
pub enum IdentityKind {
    /// An address whose balance is public.
    TransparentAddress,
    /// A destination inside the shielded pool.
    ShieldedPaymentAddress,
    /// The authority to spend from the shielded pool.
    SpendingKey,
    /// A key that signatures are checked against.
    PublicKey,
}

impl IdentityKind {
    /// Whether an identity of this kind lives in the shielded pool.
    pub open spec fn spec_is_shielded(self) -> bool {
        self is ShieldedPaymentAddress || self is SpendingKey
    }

    #[verifier::when_used_as_spec(spec_is_shielded)]
    pub fn is_shielded(self) -> (shielded: bool)
        ensures
            shielded == self.spec_is_shielded(),
    {
        match self {
            IdentityKind::ShieldedPaymentAddress => true,
            IdentityKind::SpendingKey => true,
            IdentityKind::TransparentAddress => false,
            IdentityKind::PublicKey => false,
        }
    }
}

/// A transparent address.
#[derive(Debug, PartialEq, Eq)]
pub struct Address(pub String);

/// A payment address of the shielded pool.
#[derive(Debug, PartialEq, Eq)]
pub struct PaymentAddress(pub String);

/// A spending key of the shielded pool, by the name its wallet gives it.
#[derive(Debug, PartialEq, Eq)]
pub struct ExtendedSpendingKey(pub String);

/// A public key.
#[derive(Debug, PartialEq, Eq)]
pub struct PublicKey(pub String);

impl View for Address {
    type V = Seq<char>;

    open spec fn view(&self) -> Seq<char> {
        self.0@
    }
}

impl View for PaymentAddress {
    type V = Seq<char>;

    open spec fn view(&self) -> Seq<char> {
        self.0@
    }
}

impl View for ExtendedSpendingKey {
    type V = Seq<char>;

    open spec fn view(&self) -> Seq<char> {
        self.0@
    }
}

impl View for PublicKey {
    type V = Seq<char>;

    open spec fn view(&self) -> Seq<char> {
        self.0@
    }
}

impl DeepView for PublicKey {
    type V = Seq<char>;

    open spec fn deep_view(&self) -> Seq<char> {
        self.0@
    }
}

impl Clone for Address {
    fn clone(&self) -> (copy: Self)
        ensures
            copy@ == self@,
    {
        Address(self.0.clone())
    }
}

impl Clone for PaymentAddress {
    fn clone(&self) -> (copy: Self)
        ensures
            copy@ == self@,
    {
        PaymentAddress(self.0.clone())
    }
}

impl Clone for ExtendedSpendingKey {
    fn clone(&self) -> (copy: Self)
        ensures
            copy@ == self@,
    {
        ExtendedSpendingKey(self.0.clone())
    }
}

impl Clone for PublicKey {
    fn clone(&self) -> (copy: Self)
        ensures
            copy@ == self@,
    {
        PublicKey(self.0.clone())
    }
}

/// An account that takes part in a transfer.
#[derive(Debug, PartialEq, Eq)]
pub enum AccountRef {
    Transparent(Address),
    Shielded(PaymentAddress),
    SpendingKey(ExtendedSpendingKey),
    PublicKey(PublicKey),
}

/// An account as its kind and the characters of its encoding.
pub struct AccountRefView {
    pub kind: IdentityKind,
    pub encoding: Seq<char>,
}

impl View for AccountRef {
    type V = AccountRefView;

    open spec fn view(&self) -> AccountRefView {
        match *self {
            AccountRef::Transparent(address) => AccountRefView {
                kind: IdentityKind::TransparentAddress,
                encoding: address@,
            },
            AccountRef::Shielded(address) => AccountRefView {
                kind: IdentityKind::ShieldedPaymentAddress,
                encoding: address@,
            },
            AccountRef::SpendingKey(key) => AccountRefView {
                kind: IdentityKind::SpendingKey,
                encoding: key@,
            },
            AccountRef::PublicKey(key) => AccountRefView {
                kind: IdentityKind::PublicKey,
                encoding: key@,
            },
        }
    }
}

impl AccountRef {
    /// The account of the given kind that `encoding` names.
    pub fn new(kind: IdentityKind, encoding: String) -> (account: AccountRef)
        ensures
            account@ == (AccountRefView { kind, encoding: encoding@ }),
    {
        match kind {
            IdentityKind::TransparentAddress => AccountRef::Transparent(Address(encoding)),
            IdentityKind::ShieldedPaymentAddress => AccountRef::Shielded(PaymentAddress(encoding)),
            IdentityKind::SpendingKey => AccountRef::SpendingKey(ExtendedSpendingKey(encoding)),
            IdentityKind::PublicKey => AccountRef::PublicKey(PublicKey(encoding)),
        }
    }

    pub fn kind(&self) -> (kind: IdentityKind)
        ensures
            kind == self@.kind,
    {
        match self {
            AccountRef::Transparent(_) => IdentityKind::TransparentAddress,
            AccountRef::Shielded(_) => IdentityKind::ShieldedPaymentAddress,
            AccountRef::SpendingKey(_) => IdentityKind::SpendingKey,
            AccountRef::PublicKey(_) => IdentityKind::PublicKey,
        }
    }

    /// Writes the identity out again, in the encoding it was resolved from.
    pub fn encode(&self) -> (text: String)
        ensures
            text@ == self@.encoding,
    {
        match self {
            AccountRef::Transparent(address) => address.0.clone(),
            AccountRef::Shielded(address) => address.0.clone(),
            AccountRef::SpendingKey(key) => key.0.clone(),
            AccountRef::PublicKey(key) => key.0.clone(),
        }
    }

    /// Whether the account lives in the shielded pool.
    pub fn is_shielded(&self) -> (shielded: bool)
        ensures
            shielded == self@.kind.is_shielded(),
    {
        self.kind().is_shielded()
    }
}

impl Clone for AccountRef {
    fn clone(&self) -> (copy: Self)
        ensures
            copy@ == self@,
    {
        AccountRef::new(self.kind(), self.encode())
    }
}

} // verus!

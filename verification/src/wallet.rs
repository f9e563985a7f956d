//! A wallet's contents as far as a transfer needs them, and the lookup of
//! aliases in it.

use crate::error::{result_view, TransferError, TransferErrorView};
use crate::identity::{AccountRef, AccountRefView, IdentityKind};
use vstd::prelude::*;

verus! {

/// What a wallet holds under an alias.
#[derive(Debug, PartialEq, Eq)]
pub enum StoredIdentity {
    /// An identity, in its canonical encoding.
    Canonical(String),
    /// A value that does not decode into the kind it is stored as.
    Malformed,
}

impl View for StoredIdentity {
    type V = Option<Seq<char>>;

    open spec fn view(&self) -> Option<Seq<char>> {
        match *self {
            StoredIdentity::Canonical(text) => Some(text@),
            StoredIdentity::Malformed => None,
        }
    }
}

/// One alias of a wallet, under one kind.
struct WalletEntry {
    kind: IdentityKind,
    alias: String,
    stored: StoredIdentity,
}

/// The place of an entry in a wallet: aliases of different kinds do not meet.
pub type WalletKey = (IdentityKind, Seq<char>);

/// The aliases of a wallet. An alias registered again under the same kind
/// replaces what was there.
pub struct Wallet {
    entries: Vec<WalletEntry>,
}

/// The wallet that a list of registrations makes, later ones winning.
spec fn entries_map(entries: Seq<WalletEntry>) -> Map<WalletKey, Option<Seq<char>>>
    decreases entries.len(),
{
    if entries.len() == 0 {
        Map::empty()
    } else {
        let last = entries.last();
        entries_map(entries.drop_last()).insert((last.kind, last.alias@), last.stored@)
    }
}

impl View for Wallet {
    type V = Map<WalletKey, Option<Seq<char>>>;

    closed spec fn view(&self) -> Map<WalletKey, Option<Seq<char>>> {
        entries_map(self.entries@)
    }
}

impl Wallet {
    /// A wallet without aliases.
    pub fn new() -> (wallet: Wallet)
        ensures
            wallet@ == Map::<WalletKey, Option<Seq<char>>>::empty(),
    {
        Wallet { entries: Vec::new() }
    }

    /// Stores `stored` under `alias` for the given kind.
    pub fn register(&mut self, kind: IdentityKind, alias: String, stored: StoredIdentity)
        ensures
            final(self)@ == old(self)@.insert((kind, alias@), stored@),
    {
        let ghost before = self.entries@;
        self.entries.push(WalletEntry { kind, alias, stored });
        assert(self.entries@.drop_last() == before);
    }

    /// Looks an alias up under the given kind.
    pub fn find(&self, kind: IdentityKind, alias: &str) -> (found: Option<&StoredIdentity>)
        ensures
            match found {
                Some(stored) => self@.contains_key((kind, alias@)) && self@[(kind, alias@)]
                    == stored@,
                None => !self@.contains_key((kind, alias@)),
            },
    {
        let wanted = alias.to_owned();
        let ghost key: WalletKey = (kind, alias@);
        let mut i: usize = self.entries.len();
        assert(self.entries@.take(i as int) == self.entries@);
        while i > 0
            invariant
                i <= self.entries.len(),
                wanted@ == alias@,
                key == (kind, alias@),
                self@.contains_key(key) <==> entries_map(self.entries@.take(i as int)).contains_key(
                    key,
                ),
                self@.contains_key(key) ==> self@[key] == entries_map(
                    self.entries@.take(i as int),
                )[key],
            decreases i,
        {
            i = i - 1;
            let entry = &self.entries[i];
            assert(self.entries@.take(i + 1).drop_last() == self.entries@.take(i as int));
            if entry.kind == kind && entry.alias == wanted {
                return Some(&entry.stored);
            }
        }
        None
    }
}

/// The identity an alias stands for in a wallet: the alias has to be there
/// under the kind asked for, and what is stored has to decode.
pub open spec fn resolve_spec(
    wallet: Map<WalletKey, Option<Seq<char>>>,
    alias: Seq<char>,
    kind: IdentityKind,
) -> Result<AccountRefView, TransferErrorView> {
    if !wallet.contains_key((kind, alias)) {
        Err(TransferErrorView::UnknownAlias { alias })
    } else {
        match wallet[(kind, alias)] {
            Some(encoding) => Ok(AccountRefView { kind, encoding }),
            None => Err(TransferErrorView::MalformedIdentity { alias }),
        }
    }
}

/// Resolves an alias to the account it names.
pub fn resolve(wallet: &Wallet, alias: &str, kind: IdentityKind) -> (resolved: Result<
    AccountRef,
    TransferError,
>)
    ensures
        result_view(resolved) == resolve_spec(wallet@, alias@, kind),
{
    match wallet.find(kind, alias) {
        None => Err(TransferError::UnknownAlias { alias: alias.to_owned() }),
        Some(StoredIdentity::Malformed) => Err(
            TransferError::MalformedIdentity { alias: alias.to_owned() },
        ),
        Some(StoredIdentity::Canonical(text)) => Ok(AccountRef::new(kind, text.clone())),
    }
}

/// Resolving an alias gives back what the wallet stores under it: the
/// account has the kind that was asked for, and its encoding is the stored
/// canonical text, character for character. This holds of an alias that the
/// wallet holds already, and of one that has just been registered.
pub proof fn lemma_resolve_gives_back_what_is_stored(
    wallet: Map<WalletKey, Option<Seq<char>>>,
    alias: Seq<char>,
    kind: IdentityKind,
    canonical: Seq<char>,
)
    ensures
        wallet.contains_key((kind, alias)) && wallet[(kind, alias)] == Some(canonical)
            ==> resolve_spec(wallet, alias, kind) == Ok::<AccountRefView, TransferErrorView>(
            AccountRefView { kind, encoding: canonical },
        ),
        resolve_spec(wallet.insert((kind, alias), Some(canonical)), alias, kind) == Ok::<
            AccountRefView,
            TransferErrorView,
        >(AccountRefView { kind, encoding: canonical }),
{
}

/// Registering one alias leaves every other alias, and the same alias under
/// every other kind, resolving as before.
pub proof fn lemma_register_leaves_the_rest(
    wallet: Map<WalletKey, Option<Seq<char>>>,
    alias: Seq<char>,
    kind: IdentityKind,
    stored: Option<Seq<char>>,
    other_alias: Seq<char>,
    other_kind: IdentityKind,
)
    requires
        other_alias != alias || other_kind != kind,
    ensures
        resolve_spec(wallet.insert((kind, alias), stored), other_alias, other_kind)
            == resolve_spec(wallet, other_alias, other_kind),
{
}

} // verus!

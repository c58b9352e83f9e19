//! Account-override merge semantics and the storage read model.
//!
//! An override re-reads the account's current basic info, replaces the
//! fields the caller supplied, and yields a single per-address commit
//! record. A storage override is either a patch on top of the account's
//! live storage (`diff = true`) or an authoritative full replacement
//! (`diff = false`), under which any unlisted slot reads as zero.

use vstd::prelude::*;

use crate::types::Address;
use crate::types::U256;

verus! {

/// The basic info of an account as the execution backend reports it.
#[derive(Debug)]
pub struct AccountInfo {
    pub balance: U256,
    pub nonce: u64,
    /// The account's bytecode; `None` for a plain account.
    pub code: Option<Vec<u8>>,
}

#[verifier::ext_equal]
pub struct AccountInfoView {
    pub balance: U256,
    pub nonce: u64,
    pub code: Option<Seq<u8>>,
}

impl View for AccountInfo {
    type V = AccountInfoView;

    open spec fn view(&self) -> AccountInfoView {
        AccountInfoView {
            balance: self.balance,
            nonce: self.nonce,
            code: match self.code {
                Some(c) => Some(c@),
                None => None,
            },
        }
    }
}

/// The info an account that the backend does not know starts from.
pub open spec fn absent_info() -> AccountInfoView {
    AccountInfoView { balance: U256::spec_zero(), nonce: 0, code: None }
}

impl AccountInfo {
    /// The starting point for an account the backend has nothing for.
    pub fn absent() -> (r: AccountInfo)
        ensures
            r@ == absent_info(),
    {
        AccountInfo { balance: U256::zero(), nonce: 0, code: None }
    }
}

/// A caller-supplied storage override: slot assignments plus the choice
/// between patching (`diff = true`) and full replacement (`diff = false`).
#[derive(Debug)]
pub struct StorageOverride {
    pub slots: Vec<(U256, U256)>,
    pub diff: bool,
}

#[verifier::ext_equal]
pub struct StorageOverrideView {
    pub slots: Seq<(U256, U256)>,
    pub diff: bool,
}

impl View for StorageOverride {
    type V = StorageOverrideView;

    open spec fn view(&self) -> StorageOverrideView {
        StorageOverrideView { slots: self.slots@, diff: self.diff }
    }
}

/// The single atomic write an override produces for one address.
#[derive(Debug)]
pub struct AccountCommit {
    pub address: Address,
    pub info: AccountInfo,
    /// Slot assignments written alongside the info.
    pub storage: Vec<(U256, U256)>,
    /// When set, the account's storage is authoritatively replaced: no
    /// unlisted slot is fetched from the snapshot; it reads as zero.
    pub storage_cleared: bool,
}

#[verifier::ext_equal]
pub struct AccountCommitView {
    pub address: Address,
    pub info: AccountInfoView,
    pub storage: Seq<(U256, U256)>,
    pub storage_cleared: bool,
}

impl View for AccountCommit {
    type V = AccountCommitView;

    open spec fn view(&self) -> AccountCommitView {
        AccountCommitView {
            address: self.address,
            info: self.info@,
            storage: self.storage@,
            storage_cleared: self.storage_cleared,
        }
    }
}

/// What reading the account's basic info from the backend came to.
#[derive(Debug)]
pub enum BasicFetch {
    /// The backend knows the account.
    Known(AccountInfo),
    /// The backend answered: no such account.
    Absent,
    /// The backend could not be read.
    Failed,
}

/// The target account's basic info could not be read before an override.
#[derive(Clone, Copy, PartialEq, Eq, Structural, Debug)]
pub struct OverrideError;

pub open spec fn opt_code_view(code: Option<Vec<u8>>) -> Option<Seq<u8>> {
    match code {
        Some(c) => Some(c@),
        None => None,
    }
}

pub open spec fn opt_storage_view(storage: Option<StorageOverride>) -> Option<StorageOverrideView> {
    match storage {
        Some(s) => Some(s@),
        None => None,
    }
}

/// The merged basic info: balance and nonce replaced when supplied, the
/// bytecode replaced entirely when supplied.
pub open spec fn merged_info(
    base: AccountInfoView,
    balance: Option<U256>,
    nonce: Option<u64>,
    code: Option<Seq<u8>>,
) -> AccountInfoView {
    AccountInfoView {
        balance: match balance {
            Some(b) => b,
            None => base.balance,
        },
        nonce: match nonce {
            Some(n) => n,
            None => base.nonce,
        },
        code: match code {
            Some(c) => Some(c),
            None => base.code,
        },
    }
}

/// The whole commit an override produces: the merged info, the override's
/// slot assignments, and the cleared mark exactly when the override is a
/// full replacement.
pub open spec fn merged_commit(
    address: Address,
    base: AccountInfoView,
    balance: Option<U256>,
    nonce: Option<u64>,
    code: Option<Seq<u8>>,
    storage: Option<StorageOverrideView>,
) -> AccountCommitView {
    AccountCommitView {
        address,
        info: merged_info(base, balance, nonce, code),
        storage: match storage {
            Some(s) => s.slots,
            None => Seq::empty(),
        },
        storage_cleared: match storage {
            Some(s) => !s.diff,
            None => false,
        },
    }
}

/// The assignment a slot key carries in a commit, the last one written
/// winning; `None` when the key is not listed.
pub open spec fn slot_lookup(slots: Seq<(U256, U256)>, key: U256) -> Option<U256>
    decreases slots.len(),
{
    if slots.len() == 0 {
        None
    } else if slots.last().0 == key {
        Some(slots.last().1)
    } else {
        slot_lookup(slots.drop_last(), key)
    }
}

/// What a slot read after a commit resolves to.
#[derive(Clone, Copy, PartialEq, Eq, Structural, Debug)]
pub enum SlotRead {
    /// The commit itself determines the value.
    Value(U256),
    /// The slot is fetched lazily from the snapshot, as before the commit.
    Fetch,
}

/// How a slot of the committed account reads: a listed slot has its
/// assigned value; an unlisted one reads zero under a full replacement
/// and otherwise falls through to the lazily fetched snapshot.
pub open spec fn slot_read(c: AccountCommitView, key: U256) -> SlotRead {
    match slot_lookup(c.storage, key) {
        Some(v) => SlotRead::Value(v),
        None => if c.storage_cleared {
            SlotRead::Value(U256::spec_zero())
        } else {
            SlotRead::Fetch
        },
    }
}

/// The value a slot read yields when `prior` says what the snapshot
/// would serve for each key.
pub open spec fn slot_value_after(c: AccountCommitView, prior: Map<U256, U256>, key: U256) -> U256 {
    match slot_read(c, key) {
        SlotRead::Value(v) => v,
        SlotRead::Fetch => prior[key],
    }
}

/// Resolves how a slot of a committed account reads.
pub fn read_slot(c: &AccountCommit, key: U256) -> (r: SlotRead)
    ensures
        r == slot_read(c@, key),
{
    proof {
        assert(c@.storage.take(c.storage@.len() as int) =~= c@.storage);
    }
    let mut i: usize = c.storage.len();
    while i > 0
        invariant
            i <= c.storage@.len(),
            slot_lookup(c@.storage, key) == slot_lookup(c@.storage.take(i as int), key),
        decreases i,
    {
        let (k, v) = c.storage[i - 1];
        proof {
            assert(c@.storage.take(i as int).last() == c@.storage[i - 1]);
            assert(c@.storage.take(i as int).drop_last() =~= c@.storage.take(i - 1));
        }
        if k == key {
            return SlotRead::Value(v);
        }
        i = i - 1;
    }
    proof {
        assert(c@.storage.take(0) =~= Seq::<(U256, U256)>::empty());
    }
    if c.storage_cleared {
        SlotRead::Value(U256::zero())
    } else {
        SlotRead::Fetch
    }
}

/// Patch semantics: under `diff = true` a listed slot reads its assigned
/// value and every unlisted slot reads exactly what the snapshot would
/// have served, touched slots before the override included.
pub proof fn lemma_override_storage_diff(
    address: Address,
    base: AccountInfoView,
    balance: Option<U256>,
    nonce: Option<u64>,
    code: Option<Seq<u8>>,
    sto: StorageOverrideView,
    prior: Map<U256, U256>,
    key: U256,
)
    requires
        sto.diff,
    ensures
        ({
            let c = merged_commit(address, base, balance, nonce, code, Some(sto));
            match slot_lookup(sto.slots, key) {
                Some(v) => slot_value_after(c, prior, key) == v,
                None => slot_value_after(c, prior, key) == prior[key],
            }
        }),
{
}

/// Full-replace semantics: under `diff = false` a listed slot reads its
/// assigned value and every other slot reads zero, whatever the snapshot
/// held before.
pub proof fn lemma_override_storage_replace(
    address: Address,
    base: AccountInfoView,
    balance: Option<U256>,
    nonce: Option<u64>,
    code: Option<Seq<u8>>,
    sto: StorageOverrideView,
    prior: Map<U256, U256>,
    key: U256,
)
    requires
        !sto.diff,
    ensures
        ({
            let c = merged_commit(address, base, balance, nonce, code, Some(sto));
            match slot_lookup(sto.slots, key) {
                Some(v) => slot_value_after(c, prior, key) == v,
                None => slot_value_after(c, prior, key) == U256::spec_zero(),
            }
        }),
{
}

/// The committed state after one atomic per-address write.
pub open spec fn apply_commit(
    state: Map<Address, AccountCommitView>,
    c: AccountCommitView,
) -> Map<Address, AccountCommitView> {
    state.insert(c.address, c)
}

/// A commit lands atomically: afterwards the target address reads exactly
/// the committed record and every other address is untouched.
pub proof fn lemma_commit_atomic(
    state: Map<Address, AccountCommitView>,
    c: AccountCommitView,
    other: Address,
)
    ensures
        apply_commit(state, c)[c.address] == c,
        other != c.address ==> (apply_commit(state, c).dom().contains(other) <==> state.dom().contains(other)),
        other != c.address && state.dom().contains(other) ==> apply_commit(state, c)[other] == state[other],
{
}

} // verus!

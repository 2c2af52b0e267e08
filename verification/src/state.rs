//! The process-wide aggregate: the wallet registry's two maps and the
//! transaction log.
//!
//! The registry maps wallet identifiers to wallets and usernames to wallet
//! identifiers, enforcing username uniqueness; the log holds one record per
//! completed transfer. All mutation happens inside one synchronous section;
//! nothing here suspends.
use vstd::prelude::*;
use crate::errors::CanisterError;
use crate::uuid::CustomUuid;
use crate::uuid::CustomUuidError;
use crate::uuid::stamped_id_bytes;
use crate::wallet::AccountId;
use crate::wallet::Identity;
use crate::wallet::Subaccount;
use crate::wallet::Wallet;
use crate::wallet::WalletView;
use crate::wallet::derive_address_of;

verus! {

/// One username binding: a username maps to exactly one wallet identifier,
/// assigned at creation and never reassigned.
pub struct UserEntry {
    pub(crate) username: String,
    pub(crate) wallet_id: CustomUuid,
}

/// The mathematical value of a username binding.
pub ghost struct UserEntryView {
    pub username: Seq<char>,
    pub wallet_id: Seq<u8>,
}

impl View for UserEntry {
    type V = UserEntryView;

    open(crate) spec fn view(&self) -> UserEntryView {
        UserEntryView { username: self.username@, wallet_id: self.wallet_id@ }
    }
}

/// One completed transfer, recorded only after the external ledger reported
/// success. The log is append-only.
pub struct TransferRecord {
    pub memo: u64,
    pub(crate) from: CustomUuid,
    pub(crate) to: AccountId,
    pub amount: u64,
    pub fee: u64,
    pub timestamp: u64,
}

/// The mathematical value of a transfer record.
pub ghost struct TransferRecordView {
    pub memo: u64,
    pub from: Seq<u8>,
    pub to: Seq<u8>,
    pub amount: u64,
    pub fee: u64,
    pub timestamp: u64,
}

impl View for TransferRecord {
    type V = TransferRecordView;

    open(crate) spec fn view(&self) -> TransferRecordView {
        TransferRecordView {
            memo: self.memo,
            from: self.from@,
            to: self.to@,
            amount: self.amount,
            fee: self.fee,
            timestamp: self.timestamp,
        }
    }
}

impl TransferRecord {
    /// The source wallet's identifier.
    pub fn get_from(&self) -> (r: &CustomUuid)
        ensures
            r@ == self@.from,
    {
        &self.from
    }

    /// The destination address.
    pub fn get_to(&self) -> (r: &AccountId)
        ensures
            r@ == self@.to,
    {
        &self.to
    }
}

/// Whether some wallet in the sequence carries the identifier `id`.
pub open spec fn has_wallet_in(wallets: Seq<WalletView>, id: Seq<u8>) -> bool {
    exists|i: int| 0 <= i < wallets.len() && wallets[i].wallet_id == id
}

/// The index of the wallet carrying `id`, when one exists.
pub open spec fn wallet_index_in(wallets: Seq<WalletView>, id: Seq<u8>) -> int {
    choose|i: int| 0 <= i < wallets.len() && wallets[i].wallet_id == id
}

/// Whether some binding in the sequence carries the username `name`.
pub open spec fn has_user_in(users: Seq<UserEntryView>, name: Seq<char>) -> bool {
    exists|i: int| 0 <= i < users.len() && users[i].username == name
}

/// The index of the binding carrying `name`, when one exists.
pub open spec fn user_index_in(users: Seq<UserEntryView>, name: Seq<char>) -> int {
    choose|i: int| 0 <= i < users.len() && users[i].username == name
}

/// Whether some record in the log carries the memo `memo`.
pub open spec fn log_contains_memo(log: Seq<TransferRecordView>, memo: u64) -> bool {
    exists|i: int| 0 <= i < log.len() && log[i].memo == memo
}

/// No two wallets in the sequence share an identifier.
pub open spec fn wallet_ids_unique_in(wallets: Seq<WalletView>) -> bool {
    forall|i: int, j: int|
        0 <= i < j < wallets.len() ==> wallets[i].wallet_id != wallets[j].wallet_id
}

/// No two bindings in the sequence share a username.
pub open spec fn usernames_unique_in(users: Seq<UserEntryView>) -> bool {
    forall|i: int, j: int| 0 <= i < j < users.len() ==> users[i].username != users[j].username
}

/// The wallet identifier that a fresh draw of `id_bytes` produces: the
/// first 16 drawn bytes with the version and variant markers stamped in.
pub open spec fn drawn_wallet_id(id_bytes: Seq<u8>) -> Seq<u8> {
    stamped_id_bytes(id_bytes.subrange(0, 16))
}

/// The mathematical value of the aggregate: the registry's two maps, as
/// sequences of bindings, and the transaction log.
pub ghost struct StateView {
    pub wallets: Seq<WalletView>,
    pub users: Seq<UserEntryView>,
    pub log: Seq<TransferRecordView>,
}

impl StateView {
    /// Whether a wallet is registered under `id`.
    pub open spec fn has_wallet(self, id: Seq<u8>) -> bool {
        has_wallet_in(self.wallets, id)
    }

    /// The wallet registered under `id`, when one is.
    pub open spec fn wallet_of(self, id: Seq<u8>) -> WalletView {
        self.wallets[wallet_index_in(self.wallets, id)]
    }

    /// Whether `name` is already mapped to a wallet identifier.
    pub open spec fn has_user(self, name: Seq<char>) -> bool {
        has_user_in(self.users, name)
    }

    /// The wallet identifier that `name` maps to, when it is mapped.
    pub open spec fn user_id_of(self, name: Seq<char>) -> Seq<u8> {
        self.users[user_index_in(self.users, name)].wallet_id
    }

    /// Whether the log holds a record with this memo.
    pub open spec fn contains_memo(self, memo: u64) -> bool {
        log_contains_memo(self.log, memo)
    }

    /// Validity of the aggregate: identifiers and usernames are unique keys,
    /// every wallet is well formed, and every username binding points at a
    /// registered wallet.
    pub open spec fn wf(self) -> bool {
        &&& wallet_ids_unique_in(self.wallets)
        &&& usernames_unique_in(self.users)
        &&& forall|i: int| 0 <= i < self.wallets.len() ==> (#[trigger] self.wallets[i]).wf()
        &&& forall|i: int|
            0 <= i < self.users.len() ==> self.has_wallet(
                (#[trigger] self.users[i]).wallet_id,
            )
    }
}

/// Under unique identifiers, any index that carries `id` is the index that
/// `wallet_index_in` picks.
pub proof fn lemma_wallet_index_in(wallets: Seq<WalletView>, id: Seq<u8>, i: int)
    requires
        wallet_ids_unique_in(wallets),
        0 <= i < wallets.len(),
        wallets[i].wallet_id == id,
    ensures
        has_wallet_in(wallets, id),
        wallet_index_in(wallets, id) == i,
{
    assert(has_wallet_in(wallets, id));
    let j = wallet_index_in(wallets, id);
    assert(0 <= j < wallets.len() && wallets[j].wallet_id == id);
    if i < j {
        assert(wallets[i].wallet_id != wallets[j].wallet_id);
    } else if j < i {
        assert(wallets[j].wallet_id != wallets[i].wallet_id);
    }
}

/// Under unique usernames, any index that carries `name` is the index that
/// `user_index_in` picks.
pub proof fn lemma_user_index_in(users: Seq<UserEntryView>, name: Seq<char>, i: int)
    requires
        usernames_unique_in(users),
        0 <= i < users.len(),
        users[i].username == name,
    ensures
        has_user_in(users, name),
        user_index_in(users, name) == i,
{
    assert(has_user_in(users, name));
    let j = user_index_in(users, name);
    assert(0 <= j < users.len() && users[j].username == name);
    if i < j {
        assert(users[i].username != users[j].username);
    } else if j < i {
        assert(users[j].username != users[i].username);
    }
}

/// The process-wide aggregate, passed explicitly into every request handler:
/// wallet registry, username map, transaction log.
pub struct State {
    pub(crate) wallet_map: Vec<Wallet>,
    pub(crate) transaction_map: Vec<TransferRecord>,
    pub(crate) user_map: Vec<UserEntry>,
}

impl View for State {
    type V = StateView;

    open(crate) spec fn view(&self) -> StateView {
        StateView {
            wallets: self.wallet_map@.map_values(|w: Wallet| w@),
            users: self.user_map@.map_values(|u: UserEntry| u@),
            log: self.transaction_map@.map_values(|t: TransferRecord| t@),
        }
    }
}

/// The first position in the registry holding `id`, if any.
fn find_wallet_index(wallets: &Vec<Wallet>, id: &CustomUuid) -> (r: Option<usize>)
    ensures
        match r {
            Some(i) => 0 <= i < wallets@.len() && wallets@[i as int]@.wallet_id == id@,
            None => forall|j: int| 0 <= j < wallets@.len() ==> wallets@[j]@.wallet_id != id@,
        },
{
    let mut i: usize = 0;
    while i < wallets.len()
        invariant
            i <= wallets@.len(),
            forall|j: int| 0 <= j < i ==> wallets@[j]@.wallet_id != id@,
        decreases wallets@.len() - i,
    {
        if wallets[i].wallet_id.same_as(id) {
            return Some(i);
        }
        i += 1;
    }
    None
}

/// The first position in the username map holding `name`, if any.
fn find_user_index(users: &Vec<UserEntry>, name: &String) -> (r: Option<usize>)
    ensures
        match r {
            Some(i) => 0 <= i < users@.len() && users@[i as int]@.username == name@,
            None => forall|j: int| 0 <= j < users@.len() ==> users@[j]@.username != name@,
        },
{
    let mut i: usize = 0;
    while i < users.len()
        invariant
            i <= users@.len(),
            forall|j: int| 0 <= j < i ==> users@[j]@.username != name@,
        decreases users@.len() - i,
    {
        if users[i].username == *name {
            return Some(i);
        }
        i += 1;
    }
    None
}

impl State {
    /// The empty aggregate: no wallets, no username bindings, no records.
    pub fn new() -> (r: State)
        ensures
            r@.wallets.len() == 0,
            r@.users.len() == 0,
            r@.log.len() == 0,
            r@.wf(),
    {
        State { wallet_map: Vec::new(), transaction_map: Vec::new(), user_map: Vec::new() }
    }

    /// Create a wallet for `owner` under `username`, from one fresh draw of
    /// identifier bytes and one of subaccount bytes. Runs in one synchronous
    /// section: the username is checked first, then the identifier and
    /// subaccount are built from the draws, the address is derived, and both
    /// maps grow by exactly one entry — or nothing changes and the failure
    /// is reported. A drawn identifier that is already registered fails the
    /// creation: the registry never overwrites a stored wallet.
    pub fn create_wallet(
        &mut self,
        username: String,
        owner: Identity,
        id_bytes: &Vec<u8>,
        subaccount_bytes: &Vec<u8>,
    ) -> (r: Result<Wallet, CanisterError>)
        requires
            old(self)@.wf(),
            owner.wf(),
        ensures
            final(self)@.wf(),
            old(self)@.has_user(username@) ==> (r matches Err(CanisterError::UserAlreadyExists)
                && final(self)@ == old(self)@),
            !old(self)@.has_user(username@) && id_bytes@.len() < 16 ==> (r matches Err(
                CanisterError::UuidError(CustomUuidError::InvalidRandomBytesLength),
            ) && final(self)@ == old(self)@),
            !old(self)@.has_user(username@) && id_bytes@.len() >= 16 && subaccount_bytes@.len()
                < 32 ==> (r matches Err(CanisterError::RandomnessTooShort) && final(self)@
                == old(self)@),
            !old(self)@.has_user(username@) && id_bytes@.len() >= 16 && subaccount_bytes@.len()
                >= 32 && old(self)@.has_wallet(drawn_wallet_id(id_bytes@)) ==> (r matches Err(
                CanisterError::IdentifierCollision,
            ) && final(self)@ == old(self)@),
            !old(self)@.has_user(username@) && id_bytes@.len() >= 16 && subaccount_bytes@.len()
                >= 32 && !old(self)@.has_wallet(drawn_wallet_id(id_bytes@)) ==> (r matches Ok(w)
                && {
                &&& w@.wallet_id == drawn_wallet_id(id_bytes@)
                &&& w@.principal == owner@
                &&& w@.subaccount == subaccount_bytes@.subrange(0, 32)
                &&& w@.account_identifier == derive_address_of(owner@, w@.subaccount)
                &&& w@.wf()
                &&& final(self)@.wallets == old(self)@.wallets.push(w@)
                &&& final(self)@.users == old(self)@.users.push(
                    UserEntryView { username: username@, wallet_id: w@.wallet_id },
                )
                &&& final(self)@.log == old(self)@.log
                &&& final(self)@.has_user(username@)
                &&& final(self)@.user_id_of(username@) == w@.wallet_id
                &&& final(self)@.has_wallet(w@.wallet_id)
                &&& final(self)@.wallet_of(w@.wallet_id) == w@
            }),
    {
        match find_user_index(&self.user_map, &username) {
            Some(i) => {
                proof {
                    assert(self@.users[i as int].username == username@);
                    assert(self@.has_user(username@));
                }
                return Err(CanisterError::UserAlreadyExists);
            },
            None => {},
        }
        proof {
            if old(self)@.has_user(username@) {
                let i = choose|i: int|
                    0 <= i < old(self)@.users.len() && old(self)@.users[i].username == username@;
                assert(self.user_map@[i]@.username == username@);
            }
        }
        let wallet_id = match CustomUuid::from_random_bytes(id_bytes) {
            Ok(id) => id,
            Err(e) => {
                return Err(CanisterError::UuidError(e));
            },
        };
        let subaccount = match Subaccount::from_random_bytes(subaccount_bytes) {
            Ok(s) => s,
            Err(e) => {
                return Err(e);
            },
        };
        match find_wallet_index(&self.wallet_map, &wallet_id) {
            Some(i) => {
                proof {
                    assert(self@.wallets[i as int].wallet_id == drawn_wallet_id(id_bytes@));
                    assert(self@.has_wallet(drawn_wallet_id(id_bytes@)));
                }
                return Err(CanisterError::IdentifierCollision);
            },
            None => {},
        }
        proof {
            if old(self)@.has_wallet(drawn_wallet_id(id_bytes@)) {
                let i = choose|i: int|
                    0 <= i < old(self)@.wallets.len() && old(self)@.wallets[i].wallet_id
                        == drawn_wallet_id(id_bytes@);
                assert(self.wallet_map@[i]@.wallet_id == drawn_wallet_id(id_bytes@));
            }
        }
        let wallet = Wallet::new(wallet_id, owner, subaccount);
        let returned = wallet.duplicate();
        let entry_id = returned.get_wallet_id();
        self.wallet_map.push(wallet);
        let ghost mid = self@;
        self.user_map.push(UserEntry { username, wallet_id: entry_id });
        proof {
            assert(mid.wallets =~= old(self)@.wallets.push(returned@));
            assert(mid.users =~= old(self)@.users);
            assert(mid.log =~= old(self)@.log);
            assert(self@.wallets =~= mid.wallets);
            assert(self@.log =~= mid.log);
            assert(self@.users =~= old(self)@.users.push(
                UserEntryView { username: username@, wallet_id: returned@.wallet_id },
            ));
            let nw = old(self)@.wallets.len() as int;
            let nu = old(self)@.users.len() as int;
            assert(self@.wallets[nw] == returned@);
            // Identifiers stay unique: the drawn identifier was checked absent.
            assert forall|i: int, j: int| 0 <= i < j < self@.wallets.len() implies self@.wallets[i].wallet_id
                != self@.wallets[j].wallet_id by {
                if j < nw {
                    assert(old(self)@.wallets[i].wallet_id != old(self)@.wallets[j].wallet_id);
                } else {
                    if old(self)@.wallets[i].wallet_id == returned@.wallet_id {
                        assert(has_wallet_in(old(self)@.wallets, returned@.wallet_id));
                    }
                }
            }
            lemma_wallet_index_in(self@.wallets, returned@.wallet_id, nw);
            // Usernames stay unique: the fresh name was checked absent.
            assert forall|i: int, j: int| 0 <= i < j < self@.users.len() implies self@.users[i].username
                != self@.users[j].username by {
                if j < nu {
                    assert(old(self)@.users[i].username != old(self)@.users[j].username);
                } else {
                    if old(self)@.users[i].username == username@ {
                        assert(has_user_in(old(self)@.users, username@));
                    }
                }
            }
            lemma_user_index_in(self@.users, username@, nu);
            // Every wallet, old and new, is well formed.
            assert forall|i: int| 0 <= i < self@.wallets.len() implies (#[trigger] self@.wallets[i]).wf() by {
                if i < nw {
                    assert(old(self)@.wallets[i].wf());
                }
            }
            // Every binding, old and new, points at a registered wallet.
            assert forall|i: int| 0 <= i < self@.users.len() implies self@.has_wallet(
                (#[trigger] self@.users[i]).wallet_id,
            ) by {
                if i < nu {
                    assert(self@.users[i] == old(self)@.users[i]);
                    assert(old(self)@.has_wallet(old(self)@.users[i].wallet_id));
                    let k = choose|k: int|
                        0 <= k < old(self)@.wallets.len() && old(self)@.wallets[k].wallet_id
                            == old(self)@.users[i].wallet_id;
                    assert(self@.wallets[k].wallet_id == self@.users[i].wallet_id);
                } else {
                    assert(self@.wallets[nw].wallet_id == returned@.wallet_id);
                }
            }
        }
        Ok(returned)
    }

    /// Look a wallet up by identifier.
    pub fn get_wallet(&self, wallet_id: &CustomUuid) -> (r: Result<Wallet, CanisterError>)
        requires
            self@.wf(),
        ensures
            self@.has_wallet(wallet_id@) ==> (r matches Ok(w) && w@ == self@.wallet_of(
                wallet_id@,
            )),
            !self@.has_wallet(wallet_id@) ==> (r matches Err(CanisterError::NoWalletFound(id))
                && id@ == wallet_id@),
    {
        match find_wallet_index(&self.wallet_map, wallet_id) {
            Some(i) => {
                proof {
                    lemma_wallet_index_in(self@.wallets, wallet_id@, i as int);
                }
                Ok(self.wallet_map[i].duplicate())
            },
            None => {
                proof {
                    if self@.has_wallet(wallet_id@) {
                        let i = wallet_index_in(self@.wallets, wallet_id@);
                        assert(self.wallet_map@[i]@.wallet_id == wallet_id@);
                    }
                }
                Err(CanisterError::NoWalletFound(wallet_id.duplicate()))
            },
        }
    }

    /// Look the ledger address of a wallet up by the wallet's identifier.
    pub fn get_account_identifier(&self, wallet_identifier: &CustomUuid) -> (r: Result<
        AccountId,
        CanisterError,
    >)
        requires
            self@.wf(),
        ensures
            self@.has_wallet(wallet_identifier@) ==> (r matches Ok(a) && a@ == self@.wallet_of(
                wallet_identifier@,
            ).account_identifier),
            !self@.has_wallet(wallet_identifier@) ==> (r matches Err(
                CanisterError::NoWalletFound(id),
            ) && id@ == wallet_identifier@),
    {
        match self.get_wallet(wallet_identifier) {
            Ok(w) => Ok(w.get_account_identifier()),
            Err(e) => Err(e),
        }
    }

    /// Look a wallet identifier up by username.
    pub fn get_wallet_id_by_user(&self, username: &String) -> (r: Result<
        CustomUuid,
        CanisterError,
    >)
        requires
            self@.wf(),
        ensures
            self@.has_user(username@) ==> (r matches Ok(id) && id@ == self@.user_id_of(
                username@,
            )),
            !self@.has_user(username@) ==> (r matches Err(CanisterError::UserDoesNotExist)),
    {
        match find_user_index(&self.user_map, username) {
            Some(i) => {
                proof {
                    lemma_user_index_in(self@.users, username@, i as int);
                }
                Ok(self.user_map[i].wallet_id.duplicate())
            },
            None => {
                proof {
                    if self@.has_user(username@) {
                        let i = user_index_in(self@.users, username@);
                        assert(self.user_map@[i]@.username == username@);
                    }
                }
                Err(CanisterError::UserDoesNotExist)
            },
        }
    }

    /// Whether the transaction log already holds a record with this memo.
    pub fn contains_memo(&self, memo: u64) -> (r: bool)
        ensures
            r == self@.contains_memo(memo),
    {
        let mut i: usize = 0;
        while i < self.transaction_map.len()
            invariant
                i <= self.transaction_map@.len(),
                forall|j: int| 0 <= j < i ==> self.transaction_map@[j]@.memo != memo,
        decreases self.transaction_map@.len() - i,
        {
            if self.transaction_map[i].memo == memo {
                proof {
                    assert(self@.log[i as int].memo == memo);
                }
                return true;
            }
            i += 1;
        }
        proof {
            if self@.contains_memo(memo) {
                let j = choose|j: int| 0 <= j < self@.log.len() && self@.log[j].memo == memo;
                assert(self.transaction_map@[j]@.memo == memo);
            }
        }
        false
    }

    /// How many transfer records the log holds.
    pub fn transaction_count(&self) -> (r: usize)
        ensures
            r == self@.log.len(),
    {
        self.transaction_map.len()
    }

    /// The record at position `i` of the append-only log.
    pub fn transaction_at(&self, i: usize) -> (r: &TransferRecord)
        requires
            i < self@.log.len(),
        ensures
            r@ == self@.log[i as int],
    {
        &self.transaction_map[i]
    }

    /// Append a record of a completed transfer to the log. The log alone
    /// changes, by exactly this one record at its end.
    pub(crate) fn append_record(&mut self, record: TransferRecord)
        ensures
            final(self)@.wallets == old(self)@.wallets,
            final(self)@.users == old(self)@.users,
            final(self)@.log == old(self)@.log.push(record@),
    {
        self.transaction_map.push(record);
        proof {
            assert(self@.wallets =~= old(self)@.wallets);
            assert(self@.users =~= old(self)@.users);
            assert(self@.log =~= old(self)@.log.push(record@));
        }
    }
}

/// Stored wallets are immutable: registering a new wallet appends it and
/// leaves every wallet registered under any other identifier exactly as it
/// was — the registry only ever adds.
pub proof fn lemma_registry_preserves_wallets(
    pre: StateView,
    post: StateView,
    w: WalletView,
    id: Seq<u8>,
)
    requires
        wallet_ids_unique_in(pre.wallets),
        !pre.has_wallet(w.wallet_id),
        post.wallets == pre.wallets.push(w),
        pre.has_wallet(id),
    ensures
        post.has_wallet(id),
        post.wallet_of(id) == pre.wallet_of(id),
{
    let i = wallet_index_in(pre.wallets, id);
    assert(0 <= i < pre.wallets.len() && pre.wallets[i].wallet_id == id);
    assert(post.wallets[i] == pre.wallets[i]);
    assert forall|p: int, q: int| 0 <= p < q < post.wallets.len() implies post.wallets[p].wallet_id
        != post.wallets[q].wallet_id by {
        if q < pre.wallets.len() {
            assert(pre.wallets[p].wallet_id != pre.wallets[q].wallet_id);
        } else {
            if pre.wallets[p].wallet_id == w.wallet_id {
                assert(has_wallet_in(pre.wallets, w.wallet_id));
            }
        }
    }
    lemma_wallet_index_in(post.wallets, id, i);
}

/// Every registered wallet's address is the address derived from its owner
/// and subaccount — the construction-time invariant, kept for the wallet's
/// whole life because the registry never mutates a stored wallet's fields.
pub proof fn lemma_wallet_address_invariant(s: StateView, id: Seq<u8>)
    requires
        s.wf(),
        s.has_wallet(id),
    ensures
        s.wallet_of(id).account_identifier == derive_address_of(
            s.wallet_of(id).principal,
            s.wallet_of(id).subaccount,
        ),
{
    let i = wallet_index_in(s.wallets, id);
    assert(0 <= i < s.wallets.len() && s.wallets[i].wallet_id == id);
    assert(s.wallets[i].wf());
}

} // verus!

//! The transfer coordinator's synchronous decisions.
//!
//! One transfer attempt walks the phases authorized, balance-checked (for
//! balance-gated withdrawals only), memo-assigned, submitted, recorded — or
//! fails from any phase. The suspensions between the phases (the balance
//! query, the randomness draw, the ledger submission) happen outside this
//! crate; each function here is one synchronous segment: it takes the answer
//! the outside world produced and decides what holds next.
//!
//! Authorization failures abort before any external call and leave the state
//! untouched; a record is appended if and only if the ledger reported
//! success.
use vstd::prelude::*;
use crate::errors::CanisterError;
use crate::errors::LedgerError;
use crate::state::State;
use crate::state::TransferRecord;
use crate::state::TransferRecordView;
use crate::state::log_contains_memo;
use crate::uuid::CustomUuid;
use crate::wallet::AccountId;
use crate::wallet::Identity;
use crate::wallet::Subaccount;
use crate::wallet::Wallet;

verus! {

/// Standard fee, in e8s, that the ledger expects with every transfer.
pub const DEFAULT_FEE_E8S: u64 = 10_000;

/// The memo taken from a fresh draw of the randomness source: the first 8
/// drawn bytes read directly as a little-endian unsigned 64-bit integer.
pub open spec fn memo_of_draw(s: Seq<u8>) -> u64 {
    vstd::bytes::spec_u64_from_le_bytes(s.subrange(0, 8))
}

/// Read a random draw as an unsigned 64-bit integer: the first 8 bytes,
/// little endian, taken directly — no folding of the remaining bytes, which
/// would only discard entropy.
pub fn get_random_number(random_bytes: Vec<u8>) -> (r: u64)
    requires
        random_bytes@.len() >= 8,
    ensures
        r == memo_of_draw(random_bytes@),
{
    let first = vstd::slice::slice_subrange(random_bytes.as_slice(), 0, 8);
    vstd::bytes::u64_from_le_bytes(first)
}

/// Draw a transfer memo from the randomness source's answer. Fails if the
/// draw holds fewer than 8 bytes.
pub fn memo_from_bytes(random_bytes: Vec<u8>) -> (r: Result<u64, CanisterError>)
    ensures
        random_bytes@.len() < 8 ==> (r matches Err(CanisterError::RandomnessTooShort)),
        random_bytes@.len() >= 8 ==> (r matches Ok(m) && m == memo_of_draw(random_bytes@)),
{
    if random_bytes.len() < 8 {
        Err(CanisterError::RandomnessTooShort)
    } else {
        Ok(get_random_number(random_bytes))
    }
}

/// Does a caller own a wallet? Pure predicate: succeeds exactly when the
/// caller is the wallet's owner, with no suspension and no side effect.
pub fn authorize(wallet: &Wallet, caller: &Identity) -> (r: Result<(), CanisterError>)
    ensures
        caller@ == wallet@.principal ==> (r matches Ok(u) && u == ()),
        caller@ != wallet@.principal ==> (r matches Err(CanisterError::NotWalletOwner(c)) && c@
            == caller@),
{
    if wallet.get_principal().same_as(caller) {
        Ok(())
    } else {
        Err(CanisterError::NotWalletOwner(caller.duplicate()))
    }
}

/// The first phase of every transfer attempt: look the source wallet up and
/// authorize the caller. Either failure aborts with no external call and no
/// state change; every caller other than the wallet's owner is turned away.
pub fn authorize_transfer(state: &State, from: &CustomUuid, caller: &Identity) -> (r: Result<
    Wallet,
    CanisterError,
>)
    requires
        state@.wf(),
    ensures
        !state@.has_wallet(from@) ==> (r matches Err(CanisterError::NoWalletFound(id)) && id@
            == from@),
        state@.has_wallet(from@) && caller@ != state@.wallet_of(from@).principal ==> (r matches Err(
            CanisterError::NotWalletOwner(c),
        ) && c@ == caller@),
        state@.has_wallet(from@) && caller@ == state@.wallet_of(from@).principal ==> (r matches Ok(
            w,
        ) && w@ == state@.wallet_of(from@)),
{
    let wallet = match state.get_wallet(from) {
        Ok(w) => w,
        Err(e) => {
            return Err(e);
        },
    };
    match authorize(&wallet, caller) {
        Ok(_) => Ok(wallet),
        Err(e) => Err(e),
    }
}

/// The first phase of a balance-gated withdrawal: authorize the caller, and
/// only then release the wallet together with its own ledger address for the
/// balance read. No external call happens before this succeeds, so a caller
/// that does not own the wallet learns nothing of its balance.
pub fn begin_withdrawal(state: &State, from: &CustomUuid, caller: &Identity) -> (r: Result<
    (Wallet, AccountId),
    CanisterError,
>)
    requires
        state@.wf(),
    ensures
        !state@.has_wallet(from@) ==> (r matches Err(CanisterError::NoWalletFound(id)) && id@
            == from@),
        state@.has_wallet(from@) && caller@ != state@.wallet_of(from@).principal ==> (r matches Err(
            CanisterError::NotWalletOwner(c),
        ) && c@ == caller@),
        state@.has_wallet(from@) && caller@ == state@.wallet_of(from@).principal ==> (r matches Ok(
            p,
        ) && p.0@ == state@.wallet_of(from@) && p.1@ == state@.wallet_of(
            from@,
        ).account_identifier),
{
    match authorize_transfer(state, from, caller) {
        Ok(wallet) => {
            let address = wallet.get_account_identifier();
            Ok((wallet, address))
        },
        Err(e) => Err(e),
    }
}

/// The balance gate of a bounded withdrawal: compare the balance the ledger
/// reported a moment ago with the requested amount. Advisory only — another
/// transfer may run between this check and the submission.
pub fn gate_withdrawal(balance: u64, amount: u64) -> (r: Result<u64, CanisterError>)
    ensures
        balance < amount ==> (r matches Err(CanisterError::InsufficientFunds)),
        balance >= amount ==> (r matches Ok(a) && a == amount),
{
    if balance < amount {
        Err(CanisterError::InsufficientFunds)
    } else {
        Ok(amount)
    }
}

/// One transfer submission, ready to hand to the external ledger: memo,
/// amount and fee in e8s, source subaccount, destination address, and the
/// creation time in nanoseconds.
pub struct TransferArgs {
    pub memo: u64,
    pub amount: u64,
    pub fee: u64,
    pub(crate) from_subaccount: Subaccount,
    pub(crate) to: AccountId,
    pub created_at_time: u64,
}

/// The mathematical value of a transfer submission.
pub ghost struct TransferArgsView {
    pub memo: u64,
    pub amount: u64,
    pub fee: u64,
    pub from_subaccount: Seq<u8>,
    pub to: Seq<u8>,
    pub created_at_time: u64,
}

impl View for TransferArgs {
    type V = TransferArgsView;

    open(crate) spec fn view(&self) -> TransferArgsView {
        TransferArgsView {
            memo: self.memo,
            amount: self.amount,
            fee: self.fee,
            from_subaccount: self.from_subaccount@,
            to: self.to@,
            created_at_time: self.created_at_time,
        }
    }
}

impl TransferArgs {
    /// The source subaccount of this submission.
    pub fn get_from_subaccount(&self) -> (r: &Subaccount)
        ensures
            r@ == self@.from_subaccount,
    {
        &self.from_subaccount
    }

    /// The destination address of this submission.
    pub fn get_to(&self) -> (r: &AccountId)
        ensures
            r@ == self@.to,
    {
        &self.to
    }
}

/// The memo-assignment phase: take the randomness source's answer to the
/// memo draw and build the full ledger submission for an authorized
/// transfer — the fresh memo, the requested amount, the standard fee, the
/// wallet's subaccount, the destination, and the current time.
pub fn assemble_transfer(
    wallet: &Wallet,
    to: &AccountId,
    amount: u64,
    memo_bytes: Vec<u8>,
    now: u64,
) -> (r: Result<TransferArgs, CanisterError>)
    ensures
        memo_bytes@.len() < 8 ==> (r matches Err(CanisterError::RandomnessTooShort)),
        memo_bytes@.len() >= 8 ==> (r matches Ok(args) && args@ == (TransferArgsView {
            memo: memo_of_draw(memo_bytes@),
            amount,
            fee: DEFAULT_FEE_E8S,
            from_subaccount: wallet@.subaccount,
            to: to@,
            created_at_time: now,
        })),
{
    let memo = match memo_from_bytes(memo_bytes) {
        Ok(m) => m,
        Err(e) => {
            return Err(e);
        },
    };
    Ok(
        TransferArgs {
            memo,
            amount,
            fee: DEFAULT_FEE_E8S,
            from_subaccount: wallet.get_subaccount(),
            to: to.duplicate(),
            created_at_time: now,
        },
    )
}

/// The last phase of a transfer attempt: take the ledger's answer to the
/// submission. On success the ledger's sequence number is returned and
/// exactly one record — the submission's memo, source, destination, amount
/// and time — is appended to the log; on failure nothing changes and the
/// ledger's error is reported. Wallets and username bindings never change
/// here.
pub fn complete_transfer(
    state: &mut State,
    from: &CustomUuid,
    args: &TransferArgs,
    reply: Result<u64, LedgerError>,
) -> (r: Result<u64, CanisterError>)
    requires
        old(state)@.wf(),
    ensures
        final(state)@.wf(),
        reply matches Err(e) ==> (final(state)@ == old(state)@ && (r matches Err(
            CanisterError::TransferError(e2),
        ) && e2 == e)),
        reply matches Ok(height) ==> (r matches Ok(h) && h == height && final(state)@.wallets
            == old(state)@.wallets && final(state)@.users == old(state)@.users
            && final(state)@.log == old(state)@.log.push(
            TransferRecordView {
                memo: args@.memo,
                from: from@,
                to: args@.to,
                amount: args@.amount,
                fee: args@.fee,
                timestamp: args@.created_at_time,
            },
        )),
        reply matches Ok(height) && !old(state)@.contains_memo(args@.memo) ==> count_memo(
            final(state)@.log,
            args@.memo,
        ) == 1,
{
    match reply {
        Ok(height) => {
            let record = TransferRecord {
                memo: args.memo,
                from: from.duplicate(),
                to: args.get_to().duplicate(),
                amount: args.amount,
                fee: args.fee,
                timestamp: args.created_at_time,
            };
            let ghost rec_view = record@;
            state.append_record(record);
            proof {
                if !old(state)@.contains_memo(args@.memo) {
                    lemma_recorded_exactly_once(old(state)@.log, rec_view);
                }
            }
            Ok(height)
        },
        Err(e) => Err(CanisterError::TransferError(e)),
    }
}

/// How many records of the log carry this memo.
pub open spec fn count_memo(log: Seq<TransferRecordView>, memo: u64) -> nat
    decreases log.len(),
{
    if log.len() == 0 {
        0
    } else {
        count_memo(log.drop_last(), memo) + if log.last().memo == memo {
            1nat
        } else {
            0nat
        }
    }
}

/// A memo that no record carries is counted zero times.
pub proof fn lemma_unseen_memo_count_zero(log: Seq<TransferRecordView>, memo: u64)
    requires
        !log_contains_memo(log, memo),
    ensures
        count_memo(log, memo) == 0,
    decreases log.len(),
{
    if log.len() > 0 {
        assert(!log_contains_memo(log.drop_last(), memo)) by {
            if log_contains_memo(log.drop_last(), memo) {
                let i = choose|i: int|
                    0 <= i < log.drop_last().len() && log.drop_last()[i].memo == memo;
                assert(log[i].memo == memo);
                assert(log_contains_memo(log, memo));
            }
        }
        lemma_unseen_memo_count_zero(log.drop_last(), memo);
        assert(log.last().memo != memo) by {
            if log.last().memo == memo {
                assert(log[log.len() - 1].memo == memo);
                assert(log_contains_memo(log, memo));
            }
        }
    }
}

/// Appending one record whose memo was previously unseen leaves the log with
/// exactly one record keyed by that memo — the recorded phase creates one
/// record per successful submission, and no other phase creates any.
pub proof fn lemma_recorded_exactly_once(log: Seq<TransferRecordView>, rec: TransferRecordView)
    requires
        !log_contains_memo(log, rec.memo),
    ensures
        count_memo(log.push(rec), rec.memo) == 1,
        log_contains_memo(log.push(rec), rec.memo),
{
    let pushed = log.push(rec);
    assert(pushed.drop_last() =~= log);
    assert(pushed.last() == rec);
    lemma_unseen_memo_count_zero(log, rec.memo);
    assert(pushed[pushed.len() - 1].memo == rec.memo);
}

} // verus!

//! Wallets and the values they are made of.
//!
//! A wallet binds an identifier, an owner identity, a 32-byte subaccount
//! discriminator and the ledger address derived from owner and subaccount.
//! The address is computed once at construction and the wallet has no
//! setters, so `address == derive_address(owner, subaccount)` holds for the
//! wallet's whole life.
use vstd::prelude::*;
use crate::support::bytes_eq;
use crate::support::clone_bytes;
use crate::support::take_prefix;
use crate::uuid::CustomUuid;
use crate::errors::CanisterError;

verus! {

/// The ledger address derived from an owner identity and a subaccount: a
/// 32-byte digest computed by the ledger protocol's opaque address function.
/// It depends on the owner's bytes and the subaccount's bytes alone.
pub uninterp spec fn derive_address_of(owner: Seq<u8>, subaccount: Seq<u8>) -> Seq<u8>;

/// An opaque authenticated caller identity, supplied by the hosting
/// environment. At most 29 bytes, as the host's principal format prescribes.
#[derive(Debug)]
pub struct Identity {
    pub(crate) bytes: Vec<u8>,
}

impl View for Identity {
    type V = Seq<u8>;

    open(crate) spec fn view(&self) -> Seq<u8> {
        self.bytes@
    }
}

impl Identity {
    /// An identity holds at most 29 bytes.
    pub open spec fn wf(&self) -> bool {
        self@.len() <= 29
    }

    /// Wrap the raw bytes of a host-supplied identity.
    pub fn from_bytes(bytes: Vec<u8>) -> (r: Identity)
        requires
            bytes@.len() <= 29,
        ensures
            r@ == bytes@,
            r.wf(),
    {
        Identity { bytes }
    }

    /// The identity's bytes.
    pub fn as_bytes(&self) -> (r: &Vec<u8>)
        ensures
            r@ == self@,
    {
        &self.bytes
    }

    /// Whether two identities are the same caller.
    pub fn same_as(&self, other: &Identity) -> (r: bool)
        ensures
            r == (self@ == other@),
    {
        bytes_eq(&self.bytes, &other.bytes)
    }

    /// A copy of this identity.
    pub fn duplicate(&self) -> (r: Identity)
        ensures
            r@ == self@,
    {
        Identity { bytes: clone_bytes(&self.bytes) }
    }
}

/// A 32-byte discriminator partitioning one owner's funds into independent
/// named balances on the ledger.
#[derive(Debug)]
pub struct Subaccount {
    pub(crate) bytes: Vec<u8>,
}

impl View for Subaccount {
    type V = Seq<u8>;

    open(crate) spec fn view(&self) -> Seq<u8> {
        self.bytes@
    }
}

impl Subaccount {
    /// A subaccount holds exactly 32 bytes.
    pub open spec fn wf(&self) -> bool {
        self@.len() == 32
    }

    /// Wrap 32 subaccount bytes.
    pub fn from_bytes(bytes: Vec<u8>) -> (r: Subaccount)
        requires
            bytes@.len() == 32,
        ensures
            r@ == bytes@,
            r.wf(),
    {
        Subaccount { bytes }
    }

    /// Build a subaccount from a fresh draw of the randomness source, using
    /// the first 32 of the drawn bytes. Fails if the draw is shorter.
    pub fn from_random_bytes(random_bytes: &Vec<u8>) -> (r: Result<Subaccount, CanisterError>)
        ensures
            random_bytes@.len() < 32 ==> (r matches Err(CanisterError::RandomnessTooShort)),
            random_bytes@.len() >= 32 ==> (r matches Ok(s) && s@ == random_bytes@.subrange(0, 32)
                && s.wf()),
    {
        if random_bytes.len() < 32 {
            Err(CanisterError::RandomnessTooShort)
        } else {
            Ok(Subaccount { bytes: take_prefix(random_bytes, 32) })
        }
    }

    /// The subaccount's bytes.
    pub fn as_bytes(&self) -> (r: &Vec<u8>)
        ensures
            r@ == self@,
    {
        &self.bytes
    }

    /// A copy of this subaccount.
    pub fn duplicate(&self) -> (r: Subaccount)
        ensures
            r@ == self@,
    {
        Subaccount { bytes: clone_bytes(&self.bytes) }
    }
}

/// A 32-byte ledger-visible address identifying one balance.
#[derive(Debug)]
pub struct AccountId {
    pub(crate) bytes: Vec<u8>,
}

impl View for AccountId {
    type V = Seq<u8>;

    open(crate) spec fn view(&self) -> Seq<u8> {
        self.bytes@
    }
}

impl AccountId {
    /// An address holds exactly 32 bytes.
    pub open spec fn wf(&self) -> bool {
        self@.len() == 32
    }

    /// Wrap a 32-byte address received from outside.
    pub fn from_bytes(bytes: Vec<u8>) -> (r: AccountId)
        requires
            bytes@.len() == 32,
        ensures
            r@ == bytes@,
            r.wf(),
    {
        AccountId { bytes }
    }

    /// The address's bytes.
    pub fn as_bytes(&self) -> (r: &Vec<u8>)
        ensures
            r@ == self@,
    {
        &self.bytes
    }

    /// Whether two addresses are the same.
    pub fn same_as(&self, other: &AccountId) -> (r: bool)
        ensures
            r == (self@ == other@),
    {
        bytes_eq(&self.bytes, &other.bytes)
    }

    /// A copy of this address.
    pub fn duplicate(&self) -> (r: AccountId)
        ensures
            r@ == self@,
    {
        AccountId { bytes: clone_bytes(&self.bytes) }
    }
}

/// Relies on `ic_ledger_types::AccountIdentifier::new`: the returned address
/// is a 32-byte value (a checksum followed by a digest) computed from the
/// owner principal's bytes and the subaccount's bytes alone.
/// `candid::Principal::from_slice` only converts the owner bytes into the
/// argument type; it panics above 29 bytes, which the precondition rules out.
#[verifier::external_body]
fn derive_address(owner: &Identity, subaccount: &Subaccount) -> (r: AccountId)
    requires
        owner.wf(),
        subaccount.wf(),
    ensures
        r@ == derive_address_of(owner@, subaccount@),
        r@.len() == 32,
{
    let principal = candid::Principal::from_slice(owner.as_bytes());
    let sub = ic_ledger_types::Subaccount(subaccount.as_bytes().as_slice().try_into().unwrap());
    let account = ic_ledger_types::AccountIdentifier::new(&principal, &sub);
    AccountId { bytes: AsRef::<[u8]>::as_ref(&account).to_vec() }
}

/// The mathematical value of a wallet: the byte sequences of its four fields.
pub ghost struct WalletView {
    pub wallet_id: Seq<u8>,
    pub principal: Seq<u8>,
    pub subaccount: Seq<u8>,
    pub account_identifier: Seq<u8>,
}

impl WalletView {
    /// A wallet is well formed when its parts have their fixed widths and
    /// its address is the one derived from its owner and subaccount.
    pub open spec fn wf(self) -> bool {
        &&& self.wallet_id.len() == 16
        &&& self.principal.len() <= 29
        &&& self.subaccount.len() == 32
        &&& self.account_identifier.len() == 32
        &&& self.account_identifier == derive_address_of(self.principal, self.subaccount)
    }
}

/// A per-user wallet: identifier, owner, subaccount discriminator, and the
/// ledger address derived from the latter two at construction.
pub struct Wallet {
    pub(crate) wallet_id: CustomUuid,
    pub(crate) principal: Identity,
    pub(crate) subaccount: Subaccount,
    pub(crate) account_identifier: AccountId,
}

impl View for Wallet {
    type V = WalletView;

    open(crate) spec fn view(&self) -> WalletView {
        WalletView {
            wallet_id: self.wallet_id@,
            principal: self.principal@,
            subaccount: self.subaccount@,
            account_identifier: self.account_identifier@,
        }
    }
}

impl Wallet {
    /// Build a wallet for the given identifier, owner and subaccount; the
    /// address is derived from owner and subaccount here, once.
    pub fn new(wallet_id: CustomUuid, principal: Identity, subaccount: Subaccount) -> (r: Wallet)
        requires
            wallet_id.wf(),
            principal.wf(),
            subaccount.wf(),
        ensures
            r@.wallet_id == wallet_id@,
            r@.principal == principal@,
            r@.subaccount == subaccount@,
            r@.account_identifier == derive_address_of(principal@, subaccount@),
            r@.wf(),
    {
        let account_identifier = derive_address(&principal, &subaccount);
        Wallet { wallet_id, principal, subaccount, account_identifier }
    }

    /// The wallet's ledger address.
    pub fn get_account_identifier(&self) -> (r: AccountId)
        ensures
            r@ == self@.account_identifier,
    {
        self.account_identifier.duplicate()
    }

    /// The wallet owner's identity.
    pub fn get_principal(&self) -> (r: Identity)
        ensures
            r@ == self@.principal,
    {
        self.principal.duplicate()
    }

    /// The wallet's subaccount discriminator.
    pub fn get_subaccount(&self) -> (r: Subaccount)
        ensures
            r@ == self@.subaccount,
    {
        self.subaccount.duplicate()
    }

    /// The wallet's identifier.
    pub fn get_wallet_id(&self) -> (r: CustomUuid)
        ensures
            r@ == self@.wallet_id,
    {
        self.wallet_id.duplicate()
    }

    /// A copy of this wallet.
    pub fn duplicate(&self) -> (r: Wallet)
        ensures
            r@ == self@,
    {
        Wallet {
            wallet_id: self.wallet_id.duplicate(),
            principal: self.principal.duplicate(),
            subaccount: self.subaccount.duplicate(),
            account_identifier: self.account_identifier.duplicate(),
        }
    }
}

} // verus!

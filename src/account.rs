//! Accounts as the ledger hands them over, and their classification into
//! native-balance holders and fungible-asset (token) records.

use anchor_lang::prelude::Pubkey;
use anchor_lang::system_program::System;
use anchor_lang::AccountDeserialize;
use anchor_lang::Id;
use anchor_spl::token::TokenAccount;
use vstd::prelude::*;

verus! {

/// Length in bytes of an address, and of a program identity.
pub const ADDRESS_LEN: usize = 32;

/// Length in bytes of an encoded token account record.
pub const TOKEN_ACCOUNT_LEN: usize = 165;

/// Offset of the asset (mint) identifier within a token account record.
pub const MINT_OFFSET: usize = 0;

/// Offset of the little-endian amount within a token account record.
pub const AMOUNT_OFFSET: usize = 64;

/// Offset of the optional delegate's four-byte tag.
pub const DELEGATE_TAG_OFFSET: usize = 72;

/// Offset of the account state byte (1: initialized, 2: frozen).
pub const STATE_OFFSET: usize = 108;

/// Offset of the optional native-reserve's four-byte tag.
pub const NATIVE_TAG_OFFSET: usize = 109;

/// Offset of the optional close authority's four-byte tag.
pub const CLOSE_AUTHORITY_TAG_OFFSET: usize = 129;

/// The value of little-endian bytes.
pub open spec fn le_value(b: Seq<u8>) -> nat
    decreases b.len(),
{
    if b.len() == 0 {
        0
    } else {
        b[0] as nat + 256 * le_value(b.drop_first())
    }
}

/// An optional-value tag: `0 0 0 0` (absent) or `1 0 0 0` (present).
pub open spec fn option_tag_ok(d: Seq<u8>, at: int) -> bool {
    &&& d[at] == 0 || d[at] == 1
    &&& d[at + 1] == 0
    &&& d[at + 2] == 0
    &&& d[at + 3] == 0
}

/// The bytes decode as an initialized or frozen token account record.
pub open spec fn token_layout(d: Seq<u8>) -> bool {
    &&& d.len() == TOKEN_ACCOUNT_LEN
    &&& option_tag_ok(d, DELEGATE_TAG_OFFSET as int)
    &&& d[STATE_OFFSET as int] == 1 || d[STATE_OFFSET as int] == 2
    &&& option_tag_ok(d, NATIVE_TAG_OFFSET as int)
    &&& option_tag_ok(d, CLOSE_AUTHORITY_TAG_OFFSET as int)
}

/// The amount field of a token account record.
pub open spec fn token_amount(d: Seq<u8>) -> nat {
    le_value(d.subrange(AMOUNT_OFFSET as int, AMOUNT_OFFSET + 8))
}

/// The asset identifier field of a token account record.
pub open spec fn token_mint(d: Seq<u8>) -> Seq<u8> {
    d.subrange(MINT_OFFSET as int, MINT_OFFSET + ADDRESS_LEN)
}

/// The identity of the ledger's built-in native-balance program: all zero bytes.
pub open spec fn is_native_program(owner: Seq<u8>) -> bool {
    &&& owner.len() == ADDRESS_LEN
    &&& forall|i: int| 0 <= i < ADDRESS_LEN ==> owner[i] == 0
}

/// The base58 text of an address.
pub uninterp spec fn base58_text(bytes: Seq<u8>) -> Seq<char>;

/// Relies on anchor_spl's `TokenAccount::try_deserialize`, which is spl-token's
/// `Account::unpack`: it accepts exactly 165 bytes whose state byte is 1 or 2
/// and whose three option tags are `0 0 0 0` or `1 0 0 0`; the mint is bytes
/// 0..32 and the amount is the little-endian `u64` at bytes 64..72.
#[verifier::external_body]
fn unpack_token_account(data: &[u8]) -> (r: Option<(u64, [u8; 32])>)
    ensures
        r.is_some() == token_layout(data@),
        r matches Some((amount, mint)) ==> {
            &&& amount as nat == token_amount(data@)
            &&& mint@ == token_mint(data@)
        },
{
    let mut buf: &[u8] = data;
    match TokenAccount::try_deserialize(&mut buf) {
        Ok(t) => Some((t.amount, t.mint.to_bytes())),
        Err(_) => None,
    }
}

/// Relies on anchor_lang's `System::id()`, the system program's address
/// `11111111111111111111111111111111`, which is 32 zero bytes.
#[verifier::external_body]
fn native_program_id() -> (r: [u8; 32])
    ensures
        is_native_program(r@),
{
    System::id().to_bytes()
}

/// Relies on the `Display` of solana's `Pubkey`, the base58 text of its bytes.
#[verifier::external_body]
fn address_text(bytes: &[u8; 32]) -> (r: String)
    ensures
        r@ == base58_text(bytes@),
{
    Pubkey::new_from_array(*bytes).to_string()
}

/// An account as the ledger resolves it for one check: its address, the
/// identity of the program that owns it, its intrinsic native balance and its
/// raw storage bytes.
#[derive(Clone, Debug)]
pub struct AccountHandle {
    pub address: [u8; 32],
    pub owner: [u8; 32],
    pub lamports: u64,
    pub data: Vec<u8>,
}

/// The balance-bearing state of an account.
#[derive(Clone, Copy, Debug, PartialEq, Eq)]
pub enum BalanceRecord {
    /// The account's intrinsic ledger balance.
    NativeBalance { amount: u64 },
    /// A decoded token account record: its amount and its asset identifier.
    FungibleAssetBalance { amount: u64, asset_id: [u8; 32] },
}

/// Why an account could not be classified.
#[derive(Clone, Copy, Debug, PartialEq, Eq)]
pub enum ClassificationError {
    /// Neither a token account record nor owned by the native-balance program.
    UnrecognizedAccountKind,
}

/// A classified account: its balance record and a text naming it.
#[derive(Clone, Debug)]
pub struct ClassifiedAccount {
    pub record: BalanceRecord,
    pub identity: String,
}

/// Which kind of balance holder an account is.
#[derive(Clone, Copy, Debug, PartialEq, Eq)]
pub enum AccountKind {
    FungibleAsset,
    Native,
    Unrecognized,
}

/// Classification looks at the raw bytes first, then at the owner.
pub open spec fn kind_of(data: Seq<u8>, owner: Seq<u8>) -> AccountKind {
    if token_layout(data) {
        AccountKind::FungibleAsset
    } else if is_native_program(owner) {
        AccountKind::Native
    } else {
        AccountKind::Unrecognized
    }
}

/// The kind of an account, read off its bytes and its owner.
pub open spec fn account_kind(a: AccountHandle) -> AccountKind {
    kind_of(a.data@, a.owner@)
}

/// The account is a token account or a native-balance holder.
pub open spec fn classifiable(a: AccountHandle) -> bool {
    account_kind(a) != AccountKind::Unrecognized
}

/// The balance that the check compares, for a classifiable account.
pub open spec fn actual_balance(a: AccountHandle) -> nat {
    if token_layout(a.data@) {
        token_amount(a.data@)
    } else {
        a.lamports as nat
    }
}

/// The diagnostic text of a native-balance holder, from its address's text.
pub open spec fn native_identity_text(address: Seq<char>) -> Seq<char> {
    "sol addr "@ + address
}

/// The diagnostic text of a token account, from the texts of its address and
/// of its asset identifier.
pub open spec fn asset_identity_text(address: Seq<char>, mint: Seq<char>) -> Seq<char> {
    "spl addr "@ + address + ", mint "@ + mint
}

/// The text naming a classifiable account in diagnostics.
pub open spec fn identity_of(a: AccountHandle) -> Seq<char> {
    if token_layout(a.data@) {
        asset_identity_text(base58_text(a.address@), base58_text(token_mint(a.data@)))
    } else {
        native_identity_text(base58_text(a.address@))
    }
}

/// Names a native-balance holder whose address reads `address`.
pub fn native_identity(address: &str) -> (r: String)
    ensures
        r@ == native_identity_text(address@),
{
    let mut identity = String::from_str("sol addr ");
    identity.append(address);
    identity
}

/// Names a token account whose address reads `address` and whose asset
/// identifier reads `mint`.
pub fn asset_identity(address: &str, mint: &str) -> (r: String)
    ensures
        r@ == asset_identity_text(address@, mint@),
{
    let mut identity = String::from_str("spl addr ");
    identity.append(address);
    identity.append(", mint ");
    identity.append(mint);
    identity
}

impl BalanceRecord {
    /// The balance that the record holds.
    pub open spec fn spec_amount(self) -> u64 {
        match self {
            BalanceRecord::NativeBalance { amount } => amount,
            BalanceRecord::FungibleAssetBalance { amount, .. } => amount,
        }
    }

    /// The balance that the record holds, whatever its kind.
    pub fn amount(&self) -> (r: u64)
        ensures
            r == self.spec_amount(),
    {
        match self {
            BalanceRecord::NativeBalance { amount } => *amount,
            BalanceRecord::FungibleAssetBalance { amount, .. } => *amount,
        }
    }
}

/// Equality of two addresses, byte by byte.
fn same_address(a: &[u8; 32], b: &[u8; 32]) -> (r: bool)
    ensures
        r == (a@ == b@),
{
    let mut i: usize = 0;
    while i < ADDRESS_LEN
        invariant
            i <= ADDRESS_LEN,
            forall|j: int| 0 <= j < i ==> a@[j] == b@[j],
        decreases ADDRESS_LEN - i,
    {
        if a[i] != b[i] {
            return false;
        }
        i = i + 1;
    }
    assert(a@ =~= b@);
    true
}

/// Classifies an account: a token account record if its bytes decode as one,
/// else a native-balance holder if the native-balance program owns it, else
/// an error. The caller cannot declare the kind: it is read off the account.
pub fn classify(acc: &AccountHandle) -> (r: Result<ClassifiedAccount, ClassificationError>)
    ensures
        r is Ok <==> classifiable(*acc),
        r matches Ok(c) ==> {
            &&& c.record.spec_amount() as nat == actual_balance(*acc)
            &&& c.identity@ == identity_of(*acc)
            &&& account_kind(*acc) == AccountKind::FungibleAsset ==> {
                &&& c.record is FungibleAssetBalance
                &&& c.record->asset_id@ == token_mint(acc.data@)
            }
            &&& account_kind(*acc) == AccountKind::Native ==> c.record is NativeBalance
        },
        r matches Err(e) ==> e == ClassificationError::UnrecognizedAccountKind,
{
    match unpack_token_account(acc.data.as_slice()) {
        Some((amount, mint)) => {
            let addr = address_text(&acc.address);
            let mint_text = address_text(&mint);
            let identity = asset_identity(addr.as_str(), mint_text.as_str());
            Ok(ClassifiedAccount {
                record: BalanceRecord::FungibleAssetBalance { amount, asset_id: mint },
                identity,
            })
        },
        None => {
            let native = native_program_id();
            proof {
                assert(native@ =~= acc.owner@ <==> is_native_program(acc.owner@));
            }
            if same_address(&acc.owner, &native) {
                let addr = address_text(&acc.address);
                let identity = native_identity(addr.as_str());
                Ok(ClassifiedAccount {
                    record: BalanceRecord::NativeBalance { amount: acc.lamports },
                    identity,
                })
            } else {
                Err(ClassificationError::UnrecognizedAccountKind)
            }
        },
    }
}

} // verus!

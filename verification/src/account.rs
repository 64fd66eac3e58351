//! The accounts of an invocation and their binding to roles by position.

use vstd::prelude::*;
use crate::address::Address;
use crate::error::DispatchError;

verus! {

/// Slot of the ledger-program account.
pub const LEDGER_PROGRAM_SLOT: usize = 0;

/// Slot of the mint account.
pub const MINT_SLOT: usize = 1;

/// Slot of the mint-authority account.
pub const MINT_AUTHORITY_SLOT: usize = 2;

/// Slot of the account a transfer debits.
pub const SOURCE_SLOT: usize = 3;

/// Slot of the account a transfer credits.
pub const DESTINATION_SLOT: usize = 4;

/// Slot of the account that authorizes a transfer.
pub const AUTHORITY_SLOT: usize = 5;

/// One account handed to an invocation: what the dispatcher reads of it.
#[derive(Clone, Debug, PartialEq, Eq)]
pub struct Account {
    pub key: Address,
    pub is_signer: bool,
    pub data: Vec<u8>,
}

/// An account as a mathematical value.
pub struct AccountView {
    pub key: Seq<u8>,
    pub is_signer: bool,
    pub data: Seq<u8>,
}

impl View for Account {
    type V = AccountView;

    open spec fn view(&self) -> AccountView {
        AccountView { key: self.key@, is_signer: self.is_signer, data: self.data@ }
    }
}

/// The account list as a sequence of mathematical values.
pub open spec fn account_views(accounts: Seq<Account>) -> Seq<AccountView> {
    Seq::new(accounts.len(), |i: int| accounts[i]@)
}

/// The roles every operation binds: slots 0, 1 and 2.
#[derive(Clone, Copy, Debug, PartialEq, Eq)]
pub struct RoleBinding {
    pub ledger_program: Address,
    pub mint: Address,
    pub mint_authority: Address,
}

/// The roles only a transfer binds: slots 3, 4 and 5.
#[derive(Clone, Copy, Debug, PartialEq, Eq)]
pub struct TransferBinding {
    pub source: Address,
    pub destination: Address,
    pub authority: Address,
    pub authority_signed: bool,
}

/// Takes the account under the cursor and moves the cursor past it. Position
/// is all that binds an account to a role.
pub fn next_account<'a>(accounts: &'a Vec<Account>, cursor: &mut usize) -> (r: Result<
    &'a Account,
    DispatchError,
>)
    ensures
        match r {
            Ok(account) => {
                &&& *old(cursor) < accounts.len()
                &&& *account == accounts[*old(cursor) as int]
                &&& *final(cursor) == *old(cursor) + 1
            },
            Err(e) => {
                &&& *old(cursor) >= accounts.len()
                &&& e == DispatchError::NotEnoughAccountKeys
                &&& *final(cursor) == *old(cursor)
            },
        },
{
    if *cursor < accounts.len() {
        let account = &accounts[*cursor];
        *cursor = *cursor + 1;
        Ok(account)
    } else {
        Err(DispatchError::NotEnoughAccountKeys)
    }
}

/// Binds ledger program, mint and mint authority, in that order, to the first
/// three accounts.
pub fn bind_roles(accounts: &Vec<Account>) -> (r: Result<RoleBinding, DispatchError>)
    ensures
        match r {
            Ok(roles) => {
                &&& accounts.len() >= 3
                &&& roles.ledger_program@ == accounts[0].key@
                &&& roles.mint@ == accounts[1].key@
                &&& roles.mint_authority@ == accounts[2].key@
            },
            Err(e) => accounts.len() < 3 && e == DispatchError::NotEnoughAccountKeys,
        },
{
    let mut cursor: usize = LEDGER_PROGRAM_SLOT;
    let ledger_program = match next_account(accounts, &mut cursor) {
        Ok(account) => account.key,
        Err(e) => { return Err(e); },
    };
    let mint = match next_account(accounts, &mut cursor) {
        Ok(account) => account.key,
        Err(e) => { return Err(e); },
    };
    let mint_authority = match next_account(accounts, &mut cursor) {
        Ok(account) => account.key,
        Err(e) => { return Err(e); },
    };
    Ok(RoleBinding { ledger_program, mint, mint_authority })
}

/// Binds source, destination and authority, in that order, to the three
/// accounts behind the mint authority.
pub fn bind_transfer_roles(accounts: &Vec<Account>) -> (r: Result<TransferBinding, DispatchError>)
    ensures
        match r {
            Ok(roles) => {
                &&& accounts.len() >= 6
                &&& roles.source@ == accounts[3].key@
                &&& roles.destination@ == accounts[4].key@
                &&& roles.authority@ == accounts[5].key@
                &&& roles.authority_signed == accounts[5].is_signer
            },
            Err(e) => accounts.len() < 6 && e == DispatchError::NotEnoughAccountKeys,
        },
{
    let mut cursor: usize = SOURCE_SLOT;
    let source = match next_account(accounts, &mut cursor) {
        Ok(account) => account.key,
        Err(e) => { return Err(e); },
    };
    let destination = match next_account(accounts, &mut cursor) {
        Ok(account) => account.key,
        Err(e) => { return Err(e); },
    };
    match next_account(accounts, &mut cursor) {
        Ok(account) => Ok(
            TransferBinding {
                source,
                destination,
                authority: account.key,
                authority_signed: account.is_signer,
            },
        ),
        Err(e) => Err(e),
    }
}

} // verus!

//! The instruction dispatcher: bind the accounts, authorize, execute.

use vstd::prelude::*;
use vstd::slice::{slice_subrange, slice_to_vec};
use crate::account::{
    account_views, bind_roles, bind_transfer_roles, Account, AccountView, RoleBinding,
    TransferBinding, MINT_SLOT,
};
use crate::address::Address;
use crate::error::{DispatchError, LedgerError, INCORRECT_PROGRAM_ID};
use crate::ledger::{
    ledger_program_address, pack_mint, request_initialize_mint, request_mint_to,
    request_set_mint_authority, request_transfer, unpack_mint,
};
use crate::mint::{
    genesis_data, state_region, unpacked_mint, Mint, DECIMALS, MINT_ACCOUNT_LEN, MINT_STATE_LEN,
    NAME, SYMBOL, TOTAL_SUPPLY,
};
use crate::payload::{amount_of, decode_amount, decode_operation, operation_of, Operation};
use crate::request::{
    initialize_mint_request, ledger_program_id, mint_to_request, request_views,
    set_mint_authority_request, transfer_request, LedgerRequest, RequestView,
};

verus! {

/// What an invocation returns, as a mathematical value: the requests it
/// issued to the ledger, oldest first, or the error that aborted it.
pub open spec fn outcome_view(r: Result<Vec<LedgerRequest>, DispatchError>) -> Result<
    Seq<RequestView>,
    DispatchError,
> {
    match r {
        Ok(requests) => Ok(request_views(requests@)),
        Err(e) => Err(e),
    }
}

/// The three requests of a genesis, in the order they are issued: set up the
/// mint with nine decimals and no freeze authority, mint the whole supply to
/// the mint account itself, hand the right to mint to the ledger program.
pub open spec fn genesis_requests(ledger: Seq<u8>, mint: Seq<u8>, authority: Seq<u8>) -> Seq<
    RequestView,
> {
    seq![
        initialize_mint_request(ledger, mint, authority, None, DECIMALS),
        mint_to_request(ledger, mint, mint, authority, TOTAL_SUPPLY),
        set_mint_authority_request(ledger, mint, ledger_program_id(), authority),
    ]
}

/// Why a genesis is refused, if it is. The bytes where the state lies must
/// unpack, to a supply of zero; the account must have room for the metadata
/// behind the state; and the ledger must take the program for its own.
pub open spec fn genesis_refusal(ledger: Seq<u8>, data: Seq<u8>) -> Option<DispatchError> {
    match unpacked_mint(state_region(data)) {
        Err(e) => Some(DispatchError::Ledger(e)),
        Ok(state) => if state.supply != 0 {
            Some(DispatchError::AlreadyInitialized)
        } else if data.len() < 101 {
            Some(DispatchError::AccountDataTooSmall)
        } else if ledger != ledger_program_id() {
            Some(DispatchError::Ledger(LedgerError { code: INCORRECT_PROGRAM_ID }))
        } else {
            None
        },
    }
}

/// What a genesis on a mint account with the bytes `data` returns.
pub open spec fn genesis_outcome(
    ledger: Seq<u8>,
    mint: Seq<u8>,
    authority: Seq<u8>,
    data: Seq<u8>,
) -> Result<Seq<RequestView>, DispatchError> {
    match genesis_refusal(ledger, data) {
        Some(e) => Err(e),
        None => Ok(genesis_requests(ledger, mint, authority)),
    }
}

/// The bytes of the mint account after a genesis was asked for: rewritten if
/// it went through, untouched if it was refused.
pub open spec fn data_after_genesis(ledger: Seq<u8>, data: Seq<u8>) -> Seq<u8> {
    if genesis_refusal(ledger, data) is None {
        genesis_data(data)
    } else {
        data
    }
}

/// What a transfer returns.
pub open spec fn transfer_outcome(
    ledger: Seq<u8>,
    source: Seq<u8>,
    destination: Seq<u8>,
    authority: Seq<u8>,
    authority_signed: bool,
    payload: Seq<u8>,
) -> Result<Seq<RequestView>, DispatchError> {
    if !authority_signed {
        Err(DispatchError::MissingRequiredSignature)
    } else {
        match amount_of(payload) {
            Err(e) => Err(e),
            Ok(amount) => if ledger != ledger_program_id() {
                Err(DispatchError::Ledger(LedgerError { code: INCORRECT_PROGRAM_ID }))
            } else {
                Ok(seq![transfer_request(ledger, source, destination, authority, amount)])
            },
        }
    }
}

/// What an invocation returns.
pub open spec fn dispatch(accounts: Seq<AccountView>, payload: Seq<u8>) -> Result<
    Seq<RequestView>,
    DispatchError,
> {
    if accounts.len() < 3 {
        Err(DispatchError::NotEnoughAccountKeys)
    } else if accounts[0].key != ledger_program_id() {
        Err(DispatchError::IncorrectProgramId)
    } else {
        match operation_of(payload) {
            Err(e) => Err(e),
            Ok(Operation::InitializeAndLock) => genesis_outcome(
                accounts[0].key,
                accounts[1].key,
                accounts[2].key,
                accounts[1].data,
            ),
            Ok(Operation::Transfer) => if accounts.len() < 6 {
                Err(DispatchError::NotEnoughAccountKeys)
            } else {
                transfer_outcome(
                    accounts[0].key,
                    accounts[3].key,
                    accounts[4].key,
                    accounts[5].key,
                    accounts[5].is_signer,
                    payload,
                )
            },
        }
    }
}

/// Whether an invocation is a genesis that succeeds.
pub open spec fn is_genesis(accounts: Seq<AccountView>, payload: Seq<u8>) -> bool {
    dispatch(accounts, payload) is Ok && operation_of(payload) == Ok::<Operation, DispatchError>(
        Operation::InitializeAndLock,
    )
}

/// The accounts after an invocation: a genesis that succeeds rewrites the
/// bytes of the mint account, and nothing else ever changes.
pub open spec fn accounts_after(accounts: Seq<AccountView>, payload: Seq<u8>) -> Seq<AccountView> {
    if is_genesis(accounts, payload) {
        accounts.update(
            1,
            AccountView {
                key: accounts[1].key,
                is_signer: accounts[1].is_signer,
                data: genesis_data(accounts[1].data),
            },
        )
    } else {
        accounts
    }
}

/// Lets an invocation pass only if the account in the ledger-program slot is
/// the token ledger.
pub fn check_ledger_program(ledger_program: &Address) -> (r: Result<(), DispatchError>)
    ensures
        r is Ok <==> ledger_program@ == ledger_program_id(),
        r is Err ==> r->Err_0 == DispatchError::IncorrectProgramId,
{
    let canonical = ledger_program_address();
    if ledger_program.same_as(&canonical) {
        Ok(())
    } else {
        Err(DispatchError::IncorrectProgramId)
    }
}

/// Overwrites the bytes of `data` from `offset` on with `bytes`.
pub fn write_at(data: &mut Vec<u8>, offset: usize, bytes: &[u8])
    requires
        offset + bytes@.len() <= old(data)@.len(),
    ensures
        final(data)@ == old(data)@.subrange(0, offset as int) + bytes@ + old(data)@.subrange(
            offset + bytes@.len(),
            old(data)@.len() as int,
        ),
{
    let len: usize = data.len();
    let mut i: usize = 0;
    while i < bytes.len()
        invariant
            i <= bytes@.len(),
            offset + bytes@.len() <= len,
            data@.len() == len,
            len == old(data)@.len(),
            forall|k: int| 0 <= k < offset ==> data@[k] == old(data)@[k],
            forall|k: int| 0 <= k < i ==> data@[offset + k] == bytes@[k],
            forall|k: int| offset + i <= k < data@.len() ==> data@[k] == old(data)@[k],
        decreases bytes@.len() - i,
    {
        data[offset + i] = bytes[i];
        i += 1;
    }
    assert(data@ =~= old(data)@.subrange(0, offset as int) + bytes@ + old(data)@.subrange(
        offset + bytes@.len(),
        old(data)@.len() as int,
    ));
}

/// Genesis: mints the whole supply once and locks the mint for good.
///
/// The mint is taken as new while the supply in its bytes is zero. Then the
/// mint is set up, its state overwritten with the genesis state, name and
/// symbol written behind the state, the whole supply minted to the mint
/// account itself, and the right to mint handed to the ledger program, which
/// never uses it. A failure leaves the bytes as they were.
pub fn initialize_and_lock(roles: &RoleBinding, data: &mut Vec<u8>) -> (r: Result<
    Vec<LedgerRequest>,
    DispatchError,
>)
    ensures
        outcome_view(r) == genesis_outcome(
            roles.ledger_program@,
            roles.mint@,
            roles.mint_authority@,
            old(data)@,
        ),
        final(data)@ == data_after_genesis(roles.ledger_program@, old(data)@),
{
    let state_end: usize = if data.len() < MINT_STATE_LEN { data.len() } else { MINT_STATE_LEN };
    let current = match unpack_mint(slice_subrange(data.as_slice(), 0, state_end)) {
        Ok(mint) => mint,
        Err(e) => { return Err(DispatchError::Ledger(e)); },
    };
    if current.supply != 0 {
        return Err(DispatchError::AlreadyInitialized);
    }
    if data.len() < MINT_ACCOUNT_LEN {
        return Err(DispatchError::AccountDataTooSmall);
    }
    let set_up = match request_initialize_mint(
        &roles.ledger_program,
        &roles.mint,
        &roles.mint_authority,
        None,
        DECIMALS,
    ) {
        Ok(request) => request,
        Err(e) => { return Err(DispatchError::Ledger(e)); },
    };

    let locked = Mint {
        mint_authority: None,
        supply: TOTAL_SUPPLY,
        decimals: DECIMALS,
        is_initialized: true,
        freeze_authority: None,
    };
    let mut region = slice_to_vec(slice_subrange(data.as_slice(), 0, MINT_STATE_LEN));
    match pack_mint(locked, &mut region) {
        Ok(()) => {},
        Err(e) => { return Err(DispatchError::Ledger(e)); },
    }
    write_at(data, 0, region.as_slice());
    write_at(data, MINT_STATE_LEN, NAME.as_slice());
    write_at(data, MINT_STATE_LEN + NAME.len(), SYMBOL.as_slice());
    assert(data@ =~= genesis_data(old(data)@));

    let mint_all = request_mint_to(
        &roles.ledger_program,
        &roles.mint,
        &roles.mint,
        &roles.mint_authority,
        TOTAL_SUPPLY,
    );
    let lock = request_set_mint_authority(
        &roles.ledger_program,
        &roles.mint,
        &ledger_program_address(),
        &roles.mint_authority,
    );
    match (mint_all, lock) {
        (Ok(mint_all), Ok(lock)) => {
            let mut requests: Vec<LedgerRequest> = Vec::new();
            requests.push(set_up);
            requests.push(mint_all);
            requests.push(lock);
            assert(request_views(requests@) =~= genesis_requests(
                roles.ledger_program@,
                roles.mint@,
                roles.mint_authority@,
            ));
            Ok(requests)
        },
        (Err(e), _) => Err(DispatchError::Ledger(e)),
        (_, Err(e)) => Err(DispatchError::Ledger(e)),
    }
}

/// Transfer: moves the amount that the payload carries from the source to
/// the destination, if the authority signed the invocation.
pub fn transfer(ledger_program: &Address, roles: &TransferBinding, payload: &[u8]) -> (r: Result<
    Vec<LedgerRequest>,
    DispatchError,
>)
    ensures
        outcome_view(r) == transfer_outcome(
            ledger_program@,
            roles.source@,
            roles.destination@,
            roles.authority@,
            roles.authority_signed,
            payload@,
        ),
{
    if !roles.authority_signed {
        return Err(DispatchError::MissingRequiredSignature);
    }
    let amount = match decode_amount(payload) {
        Ok(amount) => amount,
        Err(e) => { return Err(e); },
    };
    match request_transfer(
        ledger_program,
        &roles.source,
        &roles.destination,
        &roles.authority,
        amount,
    ) {
        Ok(request) => {
            let mut requests: Vec<LedgerRequest> = Vec::new();
            requests.push(request);
            assert(request_views(requests@) =~= seq![request@]);
            Ok(requests)
        },
        Err(e) => Err(DispatchError::Ledger(e)),
    }
}

/// Handles one invocation: binds the accounts to their roles by position,
/// checks that the ledger program is the token ledger, and runs the
/// operation that the first byte of the payload selects.
///
/// Returns the requests issued to the ledger, oldest first. An invocation
/// that fails issues none and changes no account. The address under which
/// the program itself was invoked plays no part.
pub fn process_instruction(
    program_id: &Address,
    accounts: &mut Vec<Account>,
    instruction_data: &[u8],
) -> (r: Result<Vec<LedgerRequest>, DispatchError>)
    ensures
        outcome_view(r) == dispatch(account_views(old(accounts)@), instruction_data@),
        account_views(final(accounts)@) == accounts_after(
            account_views(old(accounts)@),
            instruction_data@,
        ),
{
    let roles = match bind_roles(accounts) {
        Ok(roles) => roles,
        Err(e) => { return Err(e); },
    };
    match check_ledger_program(&roles.ledger_program) {
        Ok(()) => {},
        Err(e) => { return Err(e); },
    }
    let operation = match decode_operation(instruction_data) {
        Ok(operation) => operation,
        Err(e) => { return Err(e); },
    };
    match operation {
        Operation::InitializeAndLock => {
            let r = initialize_and_lock(&roles, &mut accounts[MINT_SLOT].data);
            assert(account_views(accounts@) =~= accounts_after(
                account_views(old(accounts)@),
                instruction_data@,
            ));
            r
        },
        Operation::Transfer => {
            let transfer_roles = match bind_transfer_roles(accounts) {
                Ok(transfer_roles) => transfer_roles,
                Err(e) => { return Err(e); },
            };
            transfer(&roles.ledger_program, &transfer_roles, instruction_data)
        },
    }
}

} // verus!

//! What holds of every invocation, proved from the dispatcher's contract.

use vstd::prelude::*;
use crate::account::AccountView;
use crate::error::{DispatchError, LedgerError};
use crate::mint::{
    genesis_data, genesis_state, lemma_unpack_packed, packed_mint, state_region, token_name,
    token_symbol, unpacked_mint, MintView,
};
use crate::payload::{
    amount_of, le_bytes, lemma_le_bytes_of_value, lemma_le_round_trip, operation_of, Operation,
};
use crate::processor::{accounts_after, dispatch, genesis_requests, is_genesis};
use crate::request::{ledger_program_id, transfer_request, RequestView};

verus! {

/// The bytes of a mint account after genesis begin with the packed genesis
/// state, and that state unpacks again.
pub proof fn lemma_genesis_state_region(prior: Seq<u8>)
    requires
        prior.len() >= 101,
    ensures
        genesis_data(prior).len() == prior.len(),
        state_region(genesis_data(prior)) == packed_mint(genesis_state(), prior.subrange(0, 82)),
        unpacked_mint(state_region(genesis_data(prior))) == Ok::<MintView, LedgerError>(
            genesis_state(),
        ),
{
    let packed = packed_mint(genesis_state(), prior.subrange(0, 82));
    lemma_unpack_packed(genesis_state(), prior.subrange(0, 82));
    assert(state_region(genesis_data(prior)) =~= packed);
}

/// An invocation whose ledger-program account is not the token ledger fails
/// with `IncorrectProgramId`, whatever the payload, and changes no account.
/// The ledger-program account is the first of at least three: a shorter
/// list fails for want of accounts before any address is looked at.
pub proof fn law_foreign_ledger_is_rejected(accounts: Seq<AccountView>, payload: Seq<u8>)
    requires
        accounts.len() >= 3,
        accounts[0].key != ledger_program_id(),
    ensures
        dispatch(accounts, payload) == Err::<Seq<RequestView>, DispatchError>(
            DispatchError::IncorrectProgramId,
        ),
        accounts_after(accounts, payload) == accounts,
{
}

/// An invocation that fails changes no account.
pub proof fn law_failure_changes_nothing(accounts: Seq<AccountView>, payload: Seq<u8>)
    requires
        dispatch(accounts, payload) is Err,
    ensures
        accounts_after(accounts, payload) == accounts,
{
}

/// No invocation changes an account other than the mint, nor the address or
/// the signer flag of any account, nor the number of accounts.
pub proof fn law_only_mint_data_changes(accounts: Seq<AccountView>, payload: Seq<u8>, slot: int)
    requires
        0 <= slot < accounts.len(),
    ensures
        accounts_after(accounts, payload).len() == accounts.len(),
        accounts_after(accounts, payload)[slot].key == accounts[slot].key,
        accounts_after(accounts, payload)[slot].is_signer == accounts[slot].is_signer,
        slot != 1 ==> accounts_after(accounts, payload)[slot] == accounts[slot],
{
}

/// A mint account whose first 82 bytes are all zero holds a mint that was
/// never set up: no supply, not initialized, no authorities.
pub proof fn law_zeroed_mint_is_new(data: Seq<u8>)
    requires
        data.len() >= 82,
        forall|i: int| 0 <= i < 82 ==> data[i] == 0,
    ensures
        unpacked_mint(state_region(data)) == Ok::<MintView, LedgerError>(
            MintView {
                mint_authority: None,
                supply: 0,
                decimals: 0,
                is_initialized: false,
                freeze_authority: None,
            },
        ),
{
}

/// Genesis succeeds on a new mint: where the invocation names the token
/// ledger, a mint account of at least 101 bytes whose state unpacks to a
/// supply of zero, and a mint authority, it issues the three requests of a
/// genesis.
pub proof fn law_genesis_succeeds_on_a_new_mint(accounts: Seq<AccountView>, payload: Seq<u8>)
    requires
        accounts.len() >= 3,
        accounts[0].key == ledger_program_id(),
        operation_of(payload) == Ok::<Operation, DispatchError>(Operation::InitializeAndLock),
        accounts[1].data.len() >= 101,
        unpacked_mint(state_region(accounts[1].data)) is Ok,
        unpacked_mint(state_region(accounts[1].data))->Ok_0.supply == 0,
    ensures
        is_genesis(accounts, payload),
        dispatch(accounts, payload) == Ok::<Seq<RequestView>, DispatchError>(
            genesis_requests(ledger_program_id(), accounts[1].key, accounts[2].key),
        ),
{
}

/// After a genesis that succeeds, the mint account holds the genesis state
/// (the whole supply, nine decimals, initialized, nobody who may mint or
/// freeze) and, right behind the state, the name followed by the symbol.
pub proof fn law_genesis_locks_the_mint(accounts: Seq<AccountView>, payload: Seq<u8>)
    requires
        is_genesis(accounts, payload),
    ensures
        unpacked_mint(state_region(accounts_after(accounts, payload)[1].data)) == Ok::<
            MintView,
            LedgerError,
        >(genesis_state()),
        accounts_after(accounts, payload)[1].data.subrange(82, 95) == token_name(),
        accounts_after(accounts, payload)[1].data.subrange(95, 101) == token_symbol(),
        accounts_after(accounts, payload)[1].data.subrange(82, 101) == token_name()
            + token_symbol(),
{
    let prior = accounts[1].data;
    let after = accounts_after(accounts, payload)[1].data;
    assert(after == genesis_data(prior));
    lemma_genesis_state_region(prior);
    assert(after.subrange(82, 95) =~= token_name());
    assert(after.subrange(95, 101) =~= token_symbol());
    assert(after.subrange(82, 101) =~= token_name() + token_symbol());
}

/// Genesis succeeds at most once per mint account: on the accounts that a
/// successful genesis leaves, every further genesis fails with
/// `AlreadyInitialized`.
pub proof fn law_genesis_happens_once(
    accounts: Seq<AccountView>,
    first: Seq<u8>,
    second: Seq<u8>,
)
    requires
        is_genesis(accounts, first),
        operation_of(second) == Ok::<Operation, DispatchError>(Operation::InitializeAndLock),
    ensures
        dispatch(accounts_after(accounts, first), second) == Err::<
            Seq<RequestView>,
            DispatchError,
        >(DispatchError::AlreadyInitialized),
        accounts_after(accounts_after(accounts, first), second) == accounts_after(
            accounts,
            first,
        ),
{
    lemma_genesis_state_region(accounts[1].data);
}

/// A transfer whose authority did not sign fails with
/// `MissingRequiredSignature` and changes no account. The invocation is one
/// that reaches the signature check: six accounts, the first of them the
/// token ledger.
pub proof fn law_unsigned_transfer_is_rejected(accounts: Seq<AccountView>, payload: Seq<u8>)
    requires
        accounts.len() >= 6,
        accounts[0].key == ledger_program_id(),
        operation_of(payload) == Ok::<Operation, DispatchError>(Operation::Transfer),
        !accounts[5].is_signer,
    ensures
        dispatch(accounts, payload) == Err::<Seq<RequestView>, DispatchError>(
            DispatchError::MissingRequiredSignature,
        ),
        accounts_after(accounts, payload) == accounts,
{
}

/// A signed transfer whose payload carries `amount` in little-endian order
/// behind the tag issues exactly one request: move `amount` units from the
/// source to the destination, authorized by the authority. No account of
/// the invocation changes.
pub proof fn law_transfer_moves_the_amount(
    accounts: Seq<AccountView>,
    payload: Seq<u8>,
    amount: u64,
)
    requires
        accounts.len() >= 6,
        accounts[0].key == ledger_program_id(),
        accounts[5].is_signer,
        payload.len() >= 9,
        payload[0] == 1,
        payload.subrange(1, 9) == le_bytes(amount),
    ensures
        dispatch(accounts, payload) == Ok::<Seq<RequestView>, DispatchError>(
            seq![
                transfer_request(
                    ledger_program_id(),
                    accounts[3].key,
                    accounts[4].key,
                    accounts[5].key,
                    amount,
                ),
            ],
        ),
        accounts_after(accounts, payload) == accounts,
{
    lemma_le_round_trip(amount);
    assert(amount_of(payload) == Ok::<u64, DispatchError>(amount));
}

/// A signed transfer hands the eight bytes behind the tag to the ledger as
/// they came: the one request it issues carries the ledger's transfer tag,
/// 3, and then those bytes.
pub proof fn law_transfer_carries_the_payload_bytes(accounts: Seq<AccountView>, payload: Seq<u8>)
    requires
        accounts.len() >= 6,
        accounts[0].key == ledger_program_id(),
        accounts[5].is_signer,
        payload.len() >= 9,
        payload[0] == 1,
    ensures
        dispatch(accounts, payload) is Ok,
        dispatch(accounts, payload)->Ok_0.len() == 1,
        dispatch(accounts, payload)->Ok_0[0].data == seq![3u8] + payload.subrange(1, 9),
{
    lemma_le_bytes_of_value(payload.subrange(1, 9));
}

/// A payload whose first byte is neither 0 nor 1 selects no operation.
pub proof fn law_unknown_tag_selects_nothing(payload: Seq<u8>)
    requires
        payload.len() > 0,
        payload[0] != 0,
        payload[0] != 1,
    ensures
        operation_of(payload) == Err::<Operation, DispatchError>(
            DispatchError::InvalidInstructionData,
        ),
{
}

/// An invocation that selects no operation fails with
/// `InvalidInstructionData` and changes no account. The invocation is one
/// that reaches the tag: three accounts, the first of them the token ledger.
pub proof fn law_unknown_tag_is_rejected(accounts: Seq<AccountView>, payload: Seq<u8>)
    requires
        accounts.len() >= 3,
        accounts[0].key == ledger_program_id(),
        payload.len() > 0,
        payload[0] != 0,
        payload[0] != 1,
    ensures
        dispatch(accounts, payload) == Err::<Seq<RequestView>, DispatchError>(
            DispatchError::InvalidInstructionData,
        ),
        accounts_after(accounts, payload) == accounts,
{
}

/// A transfer whose payload has fewer than nine bytes fails, whatever the
/// accounts: it issues no request to the ledger and changes no account.
/// Where it gets as far as the amount, the error is
/// `InvalidInstructionData`.
pub proof fn law_short_transfer_issues_nothing(accounts: Seq<AccountView>, payload: Seq<u8>)
    requires
        operation_of(payload) == Ok::<Operation, DispatchError>(Operation::Transfer),
        payload.len() < 9,
    ensures
        dispatch(accounts, payload) is Err,
        accounts_after(accounts, payload) == accounts,
        accounts.len() >= 6 && accounts[0].key == ledger_program_id() && accounts[5].is_signer
            ==> dispatch(accounts, payload) == Err::<Seq<RequestView>, DispatchError>(
            DispatchError::InvalidInstructionData,
        ),
{
}

} // verus!

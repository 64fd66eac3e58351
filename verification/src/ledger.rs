//! The calls into the token ledger library. Nothing in this file is proved:
//! each contract states what the library's source shows of the call.

use vstd::prelude::*;
use crate::address::Address;
use crate::error::{LedgerError, INCORRECT_PROGRAM_ID, INVALID_ACCOUNT_DATA};
use crate::mint::{key_view, packed_mint, unpacked_mint, Mint, MintView};
use crate::request::{
    initialize_mint_request, ledger_program_id, mint_to_request, set_mint_authority_request,
    transfer_request, LedgerRequest, RequestAccount, RequestView,
};
use spl_token::solana_program::program_pack::Pack;
use spl_token::solana_program::pubkey::Pubkey;

verus! {

/// What a request builder of the ledger returns: the request, if `program`
/// is the ledger's own address, and "incorrect program id" if not.
pub open spec fn built(program: Seq<u8>, request: RequestView) -> Result<RequestView, LedgerError> {
    if program == ledger_program_id() {
        Ok(request)
    } else {
        Err(LedgerError { code: INCORRECT_PROGRAM_ID })
    }
}

/// A builder's result as a mathematical value.
pub open spec fn built_view(r: Result<LedgerRequest, LedgerError>) -> Result<
    RequestView,
    LedgerError,
> {
    match r {
        Ok(request) => Ok(request@),
        Err(e) => Err(e),
    }
}

/// What unpacking returns, as a mathematical value.
pub open spec fn unpacked_view(r: Result<Mint, LedgerError>) -> Result<MintView, LedgerError> {
    match r {
        Ok(mint) => Ok(mint@),
        Err(e) => Err(e),
    }
}

/// What packing a state leaves in a buffer: the packed state in one of 82
/// bytes, and any other buffer as it was.
pub open spec fn packed_over(mint: MintView, prior: Seq<u8>) -> Seq<u8> {
    if prior.len() == 82 {
        packed_mint(mint, prior)
    } else {
        prior
    }
}

/// `spl_token::id`: the address that the ledger declares as its own.
#[verifier::external_body]
pub(crate) fn ledger_program_address() -> (r: Address)
    ensures
        r@ == ledger_program_id(),
{
    Address { bytes: spl_token::id().to_bytes() }
}

/// `Mint::unpack_unchecked` of `spl_token::state`: reads a mint state from
/// exactly 82 bytes, without asking whether it is initialized. Every
/// failure is "invalid account data".
#[verifier::external_body]
pub(crate) fn unpack_mint(region: &[u8]) -> (r: Result<Mint, LedgerError>)
    ensures
        unpacked_view(r) == unpacked_mint(region@),
{
    let address = |k: Pubkey| Address { bytes: k.to_bytes() };
    match spl_token::state::Mint::unpack_unchecked(region) {
        Ok(m) => Ok(Mint {
            mint_authority: Option::from(m.mint_authority).map(address),
            supply: m.supply,
            decimals: m.decimals,
            is_initialized: m.is_initialized,
            freeze_authority: Option::from(m.freeze_authority).map(address),
        }),
        Err(e) => Err(LedgerError { code: u64::from(e) }),
    }
}

/// `Mint::pack` of `spl_token::state`: writes a mint state over exactly 82
/// bytes. A buffer of another length is left alone and reported as
/// "invalid account data".
#[verifier::external_body]
pub(crate) fn pack_mint(mint: Mint, region: &mut Vec<u8>) -> (r: Result<(), LedgerError>)
    ensures
        r is Ok <==> old(region)@.len() == 82,
        r is Err ==> r->Err_0.code == INVALID_ACCOUNT_DATA,
        final(region)@ == packed_over(mint@, old(region)@),
{
    let key = |a: Address| Pubkey::from(a.bytes);
    let state = spl_token::state::Mint {
        mint_authority: mint.mint_authority.map(key).into(),
        supply: mint.supply,
        decimals: mint.decimals,
        is_initialized: mint.is_initialized,
        freeze_authority: mint.freeze_authority.map(key).into(),
    };
    match spl_token::state::Mint::pack(state, region.as_mut_slice()) {
        Ok(()) => Ok(()),
        Err(e) => Err(LedgerError { code: u64::from(e) }),
    }
}

/// `spl_token::instruction::initialize_mint`: builds the request that sets up
/// a mint with the given authority, optional freeze authority and decimals.
#[verifier::external_body]
pub(crate) fn request_initialize_mint(
    program: &Address,
    mint: &Address,
    authority: &Address,
    freeze_authority: Option<Address>,
    decimals: u8,
) -> (r: Result<LedgerRequest, LedgerError>)
    ensures
        built_view(r) == built(
            program@,
            initialize_mint_request(program@, mint@, authority@, key_view(freeze_authority), decimals),
        ),
{
    let k = [program, mint, authority].map(|a| Pubkey::from(a.bytes));
    let freeze = freeze_authority.map(|a| Pubkey::from(a.bytes));
    match spl_token::instruction::initialize_mint(&k[0], &k[1], &k[2], freeze.as_ref(), decimals) {
        Ok(ix) => Ok(LedgerRequest {
            program: Address { bytes: ix.program_id.to_bytes() },
            accounts: ix.accounts.iter().map(|m| RequestAccount {
                key: Address { bytes: m.pubkey.to_bytes() },
                is_signer: m.is_signer,
                is_writable: m.is_writable,
            }).collect(),
            data: ix.data,
        }),
        Err(e) => Err(LedgerError { code: u64::from(e) }),
    }
}

/// `spl_token::instruction::mint_to`, with no multi-signer set: builds the
/// request that mints `amount` units into `destination`, authorized by
/// `authority` alone.
#[verifier::external_body]
pub(crate) fn request_mint_to(
    program: &Address,
    mint: &Address,
    destination: &Address,
    authority: &Address,
    amount: u64,
) -> (r: Result<LedgerRequest, LedgerError>)
    ensures
        built_view(r) == built(
            program@,
            mint_to_request(program@, mint@, destination@, authority@, amount),
        ),
{
    let k = [program, mint, destination, authority].map(|a| Pubkey::from(a.bytes));
    match spl_token::instruction::mint_to(&k[0], &k[1], &k[2], &k[3], &[], amount) {
        Ok(ix) => Ok(LedgerRequest {
            program: Address { bytes: ix.program_id.to_bytes() },
            accounts: ix.accounts.iter().map(|m| RequestAccount {
                key: Address { bytes: m.pubkey.to_bytes() },
                is_signer: m.is_signer,
                is_writable: m.is_writable,
            }).collect(),
            data: ix.data,
        }),
        Err(e) => Err(LedgerError { code: u64::from(e) }),
    }
}

/// `spl_token::instruction::set_authority`, for the authority type
/// `MintTokens` and with no multi-signer set: builds the request that hands
/// the right to mint from `current` to `new_authority`.
#[verifier::external_body]
pub(crate) fn request_set_mint_authority(
    program: &Address,
    mint: &Address,
    new_authority: &Address,
    current: &Address,
) -> (r: Result<LedgerRequest, LedgerError>)
    ensures
        built_view(r) == built(
            program@,
            set_mint_authority_request(program@, mint@, new_authority@, current@),
        ),
{
    let k = [program, mint, new_authority, current].map(|a| Pubkey::from(a.bytes));
    let kind = spl_token::instruction::AuthorityType::MintTokens;
    match spl_token::instruction::set_authority(&k[0], &k[1], Some(&k[2]), kind, &k[3], &[]) {
        Ok(ix) => Ok(LedgerRequest {
            program: Address { bytes: ix.program_id.to_bytes() },
            accounts: ix.accounts.iter().map(|m| RequestAccount {
                key: Address { bytes: m.pubkey.to_bytes() },
                is_signer: m.is_signer,
                is_writable: m.is_writable,
            }).collect(),
            data: ix.data,
        }),
        Err(e) => Err(LedgerError { code: u64::from(e) }),
    }
}

/// `spl_token::instruction::transfer`, with no multi-signer set: builds the
/// request that moves `amount` units from `source` to `destination`,
/// authorized by `authority` alone.
#[verifier::external_body]
pub(crate) fn request_transfer(
    program: &Address,
    source: &Address,
    destination: &Address,
    authority: &Address,
    amount: u64,
) -> (r: Result<LedgerRequest, LedgerError>)
    ensures
        built_view(r) == built(
            program@,
            transfer_request(program@, source@, destination@, authority@, amount),
        ),
{
    let k = [program, source, destination, authority].map(|a| Pubkey::from(a.bytes));
    match spl_token::instruction::transfer(&k[0], &k[1], &k[2], &k[3], &[], amount) {
        Ok(ix) => Ok(LedgerRequest {
            program: Address { bytes: ix.program_id.to_bytes() },
            accounts: ix.accounts.iter().map(|m| RequestAccount {
                key: Address { bytes: m.pubkey.to_bytes() },
                is_signer: m.is_signer,
                is_writable: m.is_writable,
            }).collect(),
            data: ix.data,
        }),
        Err(e) => Err(LedgerError { code: u64::from(e) }),
    }
}

} // verus!

//! Requests to the token ledger, as values, and what each one holds.

use vstd::prelude::*;
use crate::address::Address;
use crate::payload::le_bytes;

verus! {

/// One account that a request names, with what the ledger may do with it.
#[derive(Clone, Copy, Debug, PartialEq, Eq)]
pub struct RequestAccount {
    pub key: Address,
    pub is_signer: bool,
    pub is_writable: bool,
}

/// A request to the token ledger: the program it is for, the accounts it
/// touches and its packed arguments.
#[derive(Clone, Debug, PartialEq, Eq)]
pub struct LedgerRequest {
    pub program: Address,
    pub accounts: Vec<RequestAccount>,
    pub data: Vec<u8>,
}

/// A named account as a mathematical value.
pub struct RequestAccountView {
    pub key: Seq<u8>,
    pub is_signer: bool,
    pub is_writable: bool,
}

/// A request as a mathematical value.
pub struct RequestView {
    pub program: Seq<u8>,
    pub accounts: Seq<RequestAccountView>,
    pub data: Seq<u8>,
}

impl View for RequestAccount {
    type V = RequestAccountView;

    open spec fn view(&self) -> RequestAccountView {
        RequestAccountView {
            key: self.key@,
            is_signer: self.is_signer,
            is_writable: self.is_writable,
        }
    }
}

impl View for LedgerRequest {
    type V = RequestView;

    open spec fn view(&self) -> RequestView {
        RequestView {
            program: self.program@,
            accounts: Seq::new(self.accounts@.len(), |i: int| self.accounts@[i]@),
            data: self.data@,
        }
    }
}

/// A list of requests as a sequence of mathematical values.
pub open spec fn request_views(requests: Seq<LedgerRequest>) -> Seq<RequestView> {
    Seq::new(requests.len(), |i: int| requests[i]@)
}

/// The address of the token ledger, `TokenkegQfeZyiNwAJbNbGKPFXCWuBvf9Ss623VQ5DA`
/// in base 58.
pub open spec fn ledger_program_id() -> Seq<u8> {
    seq![
        6u8, 221, 246, 225, 215, 101, 161, 147, 217, 203, 225, 70, 206, 235, 121, 172,
        28, 180, 133, 237, 95, 91, 55, 145, 58, 140, 245, 133, 126, 255, 0, 169,
    ]
}

/// The address of the rent sysvar, `SysvarRent111111111111111111111111111111111`
/// in base 58.
pub open spec fn rent_sysvar_id() -> Seq<u8> {
    seq![
        6u8, 167, 213, 23, 25, 44, 92, 81, 33, 140, 201, 76, 61, 74, 241, 127,
        88, 218, 238, 8, 155, 161, 253, 68, 227, 219, 217, 138, 0, 0, 0, 0,
    ]
}

/// An account the ledger may write to and that need not sign.
pub open spec fn writable(key: Seq<u8>) -> RequestAccountView {
    RequestAccountView { key, is_signer: false, is_writable: true }
}

/// An account the ledger only reads and that need not sign.
pub open spec fn readonly(key: Seq<u8>) -> RequestAccountView {
    RequestAccountView { key, is_signer: false, is_writable: false }
}

/// The one account that authorizes a request: read only, and a signer.
pub open spec fn sole_signer(key: Seq<u8>) -> RequestAccountView {
    RequestAccountView { key, is_signer: true, is_writable: false }
}

/// An optional address as instruction data: a zero byte, or a one byte and
/// the address.
pub open spec fn optional_key_bytes(key: Option<Seq<u8>>) -> Seq<u8> {
    match key {
        Some(bytes) => seq![1u8] + bytes,
        None => seq![0u8],
    }
}

/// The request that sets up a mint.
pub open spec fn initialize_mint_request(
    program: Seq<u8>,
    mint: Seq<u8>,
    authority: Seq<u8>,
    freeze_authority: Option<Seq<u8>>,
    decimals: u8,
) -> RequestView {
    RequestView {
        program,
        accounts: seq![writable(mint), readonly(rent_sysvar_id())],
        data: seq![0u8, decimals] + authority + optional_key_bytes(freeze_authority),
    }
}

/// The request that mints `amount` units into `destination`.
pub open spec fn mint_to_request(
    program: Seq<u8>,
    mint: Seq<u8>,
    destination: Seq<u8>,
    authority: Seq<u8>,
    amount: u64,
) -> RequestView {
    RequestView {
        program,
        accounts: seq![writable(mint), writable(destination), sole_signer(authority)],
        data: seq![7u8] + le_bytes(amount),
    }
}

/// The request that hands the right to mint from `current` to `new_authority`.
pub open spec fn set_mint_authority_request(
    program: Seq<u8>,
    mint: Seq<u8>,
    new_authority: Seq<u8>,
    current: Seq<u8>,
) -> RequestView {
    RequestView {
        program,
        accounts: seq![writable(mint), sole_signer(current)],
        data: seq![6u8, 0u8] + optional_key_bytes(Some(new_authority)),
    }
}

/// The request that moves `amount` units from `source` to `destination`.
pub open spec fn transfer_request(
    program: Seq<u8>,
    source: Seq<u8>,
    destination: Seq<u8>,
    authority: Seq<u8>,
    amount: u64,
) -> RequestView {
    RequestView {
        program,
        accounts: seq![writable(source), writable(destination), sole_signer(authority)],
        data: seq![3u8] + le_bytes(amount),
    }
}

} // verus!

//! The mint: its state, how the ledger lays the state out in the account's
//! bytes, and the metadata this token keeps behind it.

use vstd::prelude::*;
use crate::address::Address;
use crate::error::{LedgerError, INVALID_ACCOUNT_DATA};
use crate::payload::{le_bytes, le_u64, lemma_le_round_trip};

verus! {

/// Length of the packed mint state.
pub const MINT_STATE_LEN: usize = 82;

/// Length of the shortest mint account: the packed state, the name and the
/// symbol.
pub const MINT_ACCOUNT_LEN: usize = 101;

/// The whole supply, minted once: ten trillion base units.
pub const TOTAL_SUPPLY: u64 = 10_000_000_000_000;

/// Decimal places of the token.
pub const DECIMALS: u8 = 9;

/// The token's name, "Bao Bao Panda" in ASCII.
pub const NAME: [u8; 13] = [66, 97, 111, 32, 66, 97, 111, 32, 80, 97, 110, 100, 97];

/// The token's symbol, "BaoBao" in ASCII.
pub const SYMBOL: [u8; 6] = [66, 97, 111, 66, 97, 111];

/// The state of a mint.
#[derive(Clone, Copy, Debug, PartialEq, Eq)]
pub struct Mint {
    pub mint_authority: Option<Address>,
    pub supply: u64,
    pub decimals: u8,
    pub is_initialized: bool,
    pub freeze_authority: Option<Address>,
}

/// The state of a mint as a mathematical value.
pub struct MintView {
    pub mint_authority: Option<Seq<u8>>,
    pub supply: u64,
    pub decimals: u8,
    pub is_initialized: bool,
    pub freeze_authority: Option<Seq<u8>>,
}

/// An optional address as an optional sequence of bytes.
pub open spec fn key_view(key: Option<Address>) -> Option<Seq<u8>> {
    match key {
        Some(address) => Some(address@),
        None => None,
    }
}

impl View for Mint {
    type V = MintView;

    open spec fn view(&self) -> MintView {
        MintView {
            mint_authority: key_view(self.mint_authority),
            supply: self.supply,
            decimals: self.decimals,
            is_initialized: self.is_initialized,
            freeze_authority: key_view(self.freeze_authority),
        }
    }
}

/// The state every mint of this token has after genesis: the whole supply
/// minted, and nobody left who may mint or freeze.
pub open spec fn genesis_state() -> MintView {
    MintView {
        mint_authority: None,
        supply: TOTAL_SUPPLY,
        decimals: DECIMALS,
        is_initialized: true,
        freeze_authority: None,
    }
}

/// The name as a sequence of bytes.
pub open spec fn token_name() -> Seq<u8> {
    NAME@
}

/// The symbol as a sequence of bytes.
pub open spec fn token_symbol() -> Seq<u8> {
    SYMBOL@
}

/// The 36 bytes of an optional address in the packed state: a four-byte
/// tag, then the address. An absent address leaves the 32 bytes behind the
/// tag as they were.
pub open spec fn packed_key(key: Option<Seq<u8>>, prior: Seq<u8>) -> Seq<u8> {
    match key {
        Some(bytes) => seq![1u8, 0u8, 0u8, 0u8] + bytes,
        None => seq![0u8, 0u8, 0u8, 0u8] + prior.subrange(4, 36),
    }
}

/// The optional address that 36 bytes of the packed state hold, if their tag
/// is a valid one.
pub open spec fn unpacked_key(field: Seq<u8>) -> Option<Option<Seq<u8>>> {
    if field[0] == 0 && field[1] == 0 && field[2] == 0 && field[3] == 0 {
        Some(None)
    } else if field[0] == 1 && field[1] == 0 && field[2] == 0 && field[3] == 0 {
        Some(Some(field.subrange(4, 36)))
    } else {
        None
    }
}

/// The 82 bytes that packing a state over `prior` leaves.
pub open spec fn packed_mint(mint: MintView, prior: Seq<u8>) -> Seq<u8> {
    packed_key(mint.mint_authority, prior.subrange(0, 36)) + le_bytes(mint.supply) + seq![
        mint.decimals,
        if mint.is_initialized { 1u8 } else { 0u8 },
    ] + packed_key(mint.freeze_authority, prior.subrange(46, 82))
}

/// Whether bytes are a packed state: 82 of them, both tags valid, and the
/// initialized flag 0 or 1.
pub open spec fn is_packed_mint(region: Seq<u8>) -> bool {
    &&& region.len() == 82
    &&& unpacked_key(region.subrange(0, 36)) is Some
    &&& region[45] <= 1
    &&& unpacked_key(region.subrange(46, 82)) is Some
}

/// The state that bytes hold, or the ledger's complaint about them.
pub open spec fn unpacked_mint(region: Seq<u8>) -> Result<MintView, LedgerError> {
    if is_packed_mint(region) {
        Ok(
            MintView {
                mint_authority: unpacked_key(region.subrange(0, 36))->Some_0,
                supply: le_u64(region.subrange(36, 44)) as u64,
                decimals: region[44],
                is_initialized: region[45] == 1,
                freeze_authority: unpacked_key(region.subrange(46, 82))->Some_0,
            },
        )
    } else {
        Err(LedgerError { code: INVALID_ACCOUNT_DATA })
    }
}

/// Whether every address in a state has 32 bytes.
pub open spec fn well_formed(mint: MintView) -> bool {
    &&& mint.mint_authority matches Some(key) ==> key.len() == 32
    &&& mint.freeze_authority matches Some(key) ==> key.len() == 32
}

/// The part of a mint account's bytes where the state lies: the first 82, or
/// all of them if there are fewer.
pub open spec fn state_region(data: Seq<u8>) -> Seq<u8> {
    if data.len() < 82 {
        data
    } else {
        data.subrange(0, 82)
    }
}

/// A mint account's bytes after genesis: the packed genesis state, then name
/// and symbol back to back, then whatever lay behind them.
pub open spec fn genesis_data(prior: Seq<u8>) -> Seq<u8> {
    packed_mint(genesis_state(), prior.subrange(0, 82)) + token_name() + token_symbol()
        + prior.subrange(101, prior.len() as int)
}

/// Unpacking what was packed gives the state back.
pub proof fn lemma_unpack_packed(mint: MintView, prior: Seq<u8>)
    requires
        well_formed(mint),
        prior.len() == 82,
    ensures
        packed_mint(mint, prior).len() == 82,
        unpacked_mint(packed_mint(mint, prior)) == Ok::<MintView, LedgerError>(mint),
{
    let packed = packed_mint(mint, prior);
    lemma_le_round_trip(mint.supply);
    assert(packed.len() == 82);
    let first = packed_key(mint.mint_authority, prior.subrange(0, 36));
    let second = packed_key(mint.freeze_authority, prior.subrange(46, 82));
    assert(packed.subrange(0, 36) =~= first);
    assert(packed.subrange(46, 82) =~= second);
    assert(packed.subrange(36, 44) =~= le_bytes(mint.supply));
    match mint.mint_authority {
        Some(key) => { assert(first.subrange(4, 36) =~= key); },
        None => {},
    }
    match mint.freeze_authority {
        Some(key) => { assert(second.subrange(4, 36) =~= key); },
        None => {},
    }
}

} // verus!

//! Fixed sizes, market indexes and well-known identities.

use vstd::prelude::*;
use crate::address::Address;

verus! {

/// Bytes that precede every stored record.
pub const ANCHOR_DISCRIMINATOR: usize = 8;

/// Bytes of a stored address.
pub const PUBKEY_SIZE: usize = 32;

/// Bytes of a stored derivation nonce.
pub const U8_SIZE: usize = 1;

/// The venue's market for the stablecoin.
pub const DRIFT_MARKET_INDEX_USDC: u16 = 0;

/// The venue's market for wrapped native currency.
pub const DRIFT_MARKET_INDEX_SOL: u16 = 1;

/// The program that owns every vault.
pub const PROGRAM_ID: [u8; 32] = [
    78, 213, 30, 187, 209, 231, 237, 80, 240, 91, 185, 12, 190, 244, 70, 89,
    43, 216, 144, 112, 245, 81, 37, 89, 6, 162, 220, 74, 16, 187, 111, 195,
];

/// Mint of the stablecoin.
pub const USDC_MINT_ADDRESS: [u8; 32] = [
    118, 173, 229, 13, 212, 124, 234, 165, 209, 32, 30, 160, 131, 49, 121, 127,
    106, 123, 30, 248, 14, 106, 122, 142, 147, 116, 61, 238, 106, 194, 145, 227,
];

/// Mint of wrapped native currency.
pub const WSOL_MINT_ADDRESS: [u8; 32] = [
    6, 155, 136, 87, 254, 171, 129, 132, 251, 104, 127, 99, 70, 24, 192, 53,
    218, 196, 57, 220, 26, 235, 59, 85, 152, 160, 240, 0, 0, 0, 0, 1,
];

/// The margin venue's program.
pub const DRIFT_PROGRAM_ID: [u8; 32] = [
    9, 84, 219, 190, 158, 201, 96, 201, 138, 122, 41, 63, 226, 19, 54, 150,
    111, 225, 128, 209, 81, 174, 75, 129, 121, 86, 31, 137, 133, 74, 83, 246,
];

/// The fungible-token program.
pub const TOKEN_PROGRAM_ID: [u8; 32] = [
    6, 221, 246, 225, 215, 101, 161, 147, 217, 203, 225, 70, 206, 235, 121, 172,
    28, 180, 133, 237, 95, 91, 55, 145, 58, 140, 245, 133, 126, 255, 0, 169,
];

/// The stake program.
pub const STAKE_PROGRAM_ID: [u8; 32] = [
    6, 161, 216, 23, 145, 55, 84, 42, 152, 52, 55, 189, 254, 42, 122, 178,
    85, 127, 83, 92, 138, 120, 114, 43, 104, 164, 157, 192, 0, 0, 0, 0,
];

/// The system program.
pub const SYSTEM_PROGRAM_ID: [u8; 32] = [
    0, 0, 0, 0, 0, 0, 0, 0, 0, 0, 0, 0, 0, 0, 0, 0,
    0, 0, 0, 0, 0, 0, 0, 0, 0, 0, 0, 0, 0, 0, 0, 0,
];

/// The program that derives an owner's standing token accounts.
pub const ASSOCIATED_TOKEN_PROGRAM_ID: [u8; 32] = [
    140, 151, 37, 143, 78, 36, 137, 241, 187, 61, 16, 41, 20, 142, 13, 131,
    11, 90, 19, 153, 218, 255, 16, 132, 4, 142, 123, 216, 219, 233, 248, 89,
];

/// The identities an operation checks its accounts against. A value of this
/// type is made once and handed to every operation unchanged.
#[derive(Clone, Copy, Debug)]
pub struct Config {
    pub program_id: Address,
    pub usdc_mint: Address,
    pub wsol_mint: Address,
    pub drift_program: Address,
    pub token_program: Address,
    pub associated_token_program: Address,
    pub stake_program: Address,
    pub system_program: Address,
}

impl Config {
    /// The two currencies are two mints.
    pub open spec fn well_formed(self) -> bool {
        self.usdc_mint != self.wsol_mint
    }

    /// The identities of the devnet deployment.
    pub fn devnet() -> (r: Config)
        ensures
            r.well_formed(),
            r.program_id.bytes == PROGRAM_ID,
            r.usdc_mint.bytes == USDC_MINT_ADDRESS,
            r.wsol_mint.bytes == WSOL_MINT_ADDRESS,
            r.drift_program.bytes == DRIFT_PROGRAM_ID,
            r.token_program.bytes == TOKEN_PROGRAM_ID,
            r.associated_token_program.bytes == ASSOCIATED_TOKEN_PROGRAM_ID,
            r.stake_program.bytes == STAKE_PROGRAM_ID,
            r.system_program.bytes == SYSTEM_PROGRAM_ID,
    {
        assert(USDC_MINT_ADDRESS@[0] != WSOL_MINT_ADDRESS@[0]);
        Config {
            program_id: Address { bytes: PROGRAM_ID },
            usdc_mint: Address { bytes: USDC_MINT_ADDRESS },
            wsol_mint: Address { bytes: WSOL_MINT_ADDRESS },
            drift_program: Address { bytes: DRIFT_PROGRAM_ID },
            token_program: Address { bytes: TOKEN_PROGRAM_ID },
            associated_token_program: Address { bytes: ASSOCIATED_TOKEN_PROGRAM_ID },
            stake_program: Address { bytes: STAKE_PROGRAM_ID },
            system_program: Address { bytes: SYSTEM_PROGRAM_ID },
        }
    }
}

} // verus!

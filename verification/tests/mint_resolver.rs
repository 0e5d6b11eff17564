use solana_swap::address::{token_program, Address};
use solana_swap::mint::{get_mint_info, AccountData, AccountLookup, Mint, MintError, UnpackError};
use spl_token::solana_program::program_option::COption;
use spl_token::solana_program::program_pack::Pack;
use spl_token::solana_program::pubkey::Pubkey;

fn packed(mint: spl_token::state::Mint) -> Vec<u8> {
    let mut data = vec![0u8; 82];
    spl_token::state::Mint::pack(mint, &mut data).unwrap();
    data
}

fn sample() -> spl_token::state::Mint {
    spl_token::state::Mint {
        mint_authority: COption::Some(Pubkey::new_from_array([7u8; 32])),
        supply: 0x0102_0304_0506_0708,
        decimals: 6,
        is_initialized: true,
        freeze_authority: COption::None,
    }
}

fn found(owner: Address, data: Vec<u8>) -> AccountLookup {
    AccountLookup::Found(AccountData { owner, data })
}

#[test]
fn resolves_a_packed_mint() {
    let lookup = found(token_program(), packed(sample()));
    let mint = get_mint_info(&lookup, None).unwrap();
    assert_eq!(
        mint,
        Mint {
            mint_authority: Some(Address { bytes: [7u8; 32] }),
            supply: 0x0102_0304_0506_0708,
            decimals: 6,
            is_initialized: true,
            freeze_authority: None,
        }
    );
}

#[test]
fn token_program_matches_the_token_crate() {
    assert_eq!(token_program().bytes, spl_token::id().to_bytes());
    assert_eq!(
        token_program().bytes.to_vec(),
        bs58::decode("TokenkegQfeZyiNwAJbNbGKPFXCWuBvf9Ss623VQ5DA").into_vec().unwrap()
    );
}

#[test]
fn foreign_owner_is_refused() {
    let lookup = found(Address { bytes: [9u8; 32] }, packed(sample()));
    assert_eq!(get_mint_info(&lookup, None), Err(MintError::InvalidOwner));
}

#[test]
fn missing_account_is_not_found() {
    assert_eq!(get_mint_info(&AccountLookup::Missing, None), Err(MintError::AccountNotFound));
    assert_eq!(get_mint_info(&AccountLookup::Failed, None), Err(MintError::LookupFailed));
}

#[test]
fn wrong_length_is_malformed() {
    let mut data = packed(sample());
    data.push(0);
    assert_eq!(
        get_mint_info(&found(token_program(), data), None),
        Err(MintError::MalformedMintData(UnpackError::InvalidAccountData))
    );
    assert_eq!(
        get_mint_info(&found(token_program(), Vec::new()), None),
        Err(MintError::MalformedMintData(UnpackError::InvalidAccountData))
    );
}

#[test]
fn bad_tag_or_flag_is_malformed() {
    for at in [0usize, 1, 2, 3, 45, 46, 47, 48, 49] {
        let mut data = packed(sample());
        data[at] = 2;
        assert_eq!(
            get_mint_info(&found(token_program(), data), None),
            Err(MintError::MalformedMintData(UnpackError::InvalidAccountData)),
            "byte {}",
            at
        );
    }
}

#[test]
fn uninitialized_mint_is_malformed() {
    let mut mint = sample();
    mint.is_initialized = false;
    assert_eq!(
        get_mint_info(&found(token_program(), packed(mint)), None),
        Err(MintError::MalformedMintData(UnpackError::UninitializedAccount))
    );
}

#[test]
fn expected_decimals_are_enforced() {
    let lookup = found(token_program(), packed(sample()));
    assert_eq!(get_mint_info(&lookup, Some(9)), Err(MintError::DecimalMismatch));
    assert_eq!(get_mint_info(&lookup, Some(6)).unwrap().decimals, 6);
}

#[test]
fn decimals_are_the_byte_at_offset_44() {
    let mut data = packed(sample());
    data[44] = 255;
    assert_eq!(get_mint_info(&found(token_program(), data), None).unwrap().decimals, 255);
}

#[test]
fn supply_is_little_endian_at_offset_36() {
    let mut data = packed(sample());
    for i in 0..8 {
        data[36 + i] = 0;
    }
    data[37] = 1;
    assert_eq!(get_mint_info(&found(token_program(), data), None).unwrap().supply, 256);
}

#[test]
fn freeze_authority_is_read_after_the_flag() {
    let mut mint = sample();
    mint.freeze_authority = COption::Some(Pubkey::new_from_array([3u8; 32]));
    mint.mint_authority = COption::None;
    let resolved = get_mint_info(&found(token_program(), packed(mint)), None).unwrap();
    assert_eq!(resolved.freeze_authority, Some(Address { bytes: [3u8; 32] }));
    assert_eq!(resolved.mint_authority, None);
}

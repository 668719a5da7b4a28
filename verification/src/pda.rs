//! Addresses that are derived from seeds, and the checks that bind an account to
//! the seeds it was created with.
use vstd::prelude::*;

use crate::errors::FlashBookError;
use crate::keys::Pubkey;

verus! {

/// The address that the seeds and the program determine, if they determine one.
pub uninterp spec fn program_address(seeds: Seq<Seq<u8>>, program_id: Pubkey) -> Option<Pubkey>;

/// The 32 bytes of an address: the low half first, each half low byte first.
pub open spec fn key_bytes(k: Pubkey) -> Seq<u8> {
    vstd::bytes::spec_u128_to_le_bytes(k.lo) + vstd::bytes::spec_u128_to_le_bytes(k.hi)
}

/// Writes out the 32 bytes of an address.
pub fn key_to_bytes(k: Pubkey) -> (r: Vec<u8>)
    ensures
        r@ == key_bytes(k),
{
    let mut out: Vec<u8> = vstd::bytes::u128_to_le_bytes(k.lo);
    let mut hi: Vec<u8> = vstd::bytes::u128_to_le_bytes(k.hi);
    out.append(&mut hi);
    out
}

/// Calls `anchor_lang::prelude::Pubkey::create_program_address`, which hashes the
/// seeds, the program's address and a fixed marker, and yields the hash unless it
/// is a point of the ed25519 curve or the seeds are too many or too long. The
/// result depends on the seeds and the program alone; what the hash is on given
/// seeds is not stated.
#[verifier::external_body]
fn create_program_address(seeds: &Vec<&[u8]>, program_id: Pubkey) -> (r: Option<Pubkey>)
    ensures
        r == program_address(seeds@.map_values(|s: &[u8]| s@), program_id),
{
    let mut id = [0u8; 32];
    id[..16].copy_from_slice(&program_id.lo.to_le_bytes());
    id[16..].copy_from_slice(&program_id.hi.to_le_bytes());
    let id = anchor_lang::prelude::Pubkey::new_from_array(id);
    match anchor_lang::prelude::Pubkey::create_program_address(seeds, &id) {
        Ok(key) => {
            let mut halves = [[0u8; 16]; 2];
            halves[0].copy_from_slice(&key.as_ref()[..16]);
            halves[1].copy_from_slice(&key.as_ref()[16..]);
            Some(
                Pubkey { lo: u128::from_le_bytes(halves[0]), hi: u128::from_le_bytes(halves[1]) },
            )
        },
        Err(_) => None,
    }
}

/// What a derived address says about an account: it is the right one, another
/// one, or the seeds name none.
pub open spec fn derived_refusal(
    derived: Option<Pubkey>,
    actual: Pubkey,
    none_error: FlashBookError,
) -> Option<FlashBookError> {
    match derived {
        None => Some(none_error),
        Some(k) => if k == actual {
            None
        } else {
            Some(FlashBookError::WrongTrader)
        },
    }
}

/// Compares an account's address with the one its seeds determine.
pub fn check_derived(derived: Option<Pubkey>, actual: Pubkey, none_error: FlashBookError) -> (r:
    Result<(), FlashBookError>)
    ensures
        r == (match derived_refusal(derived, actual, none_error) {
            Some(e) => Err::<(), FlashBookError>(e),
            None => Ok(()),
        }),
{
    match derived {
        None => Err(none_error),
        Some(k) => if k == actual {
            Ok(())
        } else {
            Err(FlashBookError::WrongTrader)
        },
    }
}

/// Seeds of a trader's account: sub-account 0 is the main account and has no
/// index among its seeds.
pub open spec fn trader_state_seeds(
    state_seed: Seq<u8>,
    trader: Pubkey,
    sub_index: u8,
    bump: u8,
) -> Seq<Seq<u8>> {
    if sub_index == 0 {
        seq![state_seed, key_bytes(trader), seq![bump]]
    } else {
        seq![state_seed, key_bytes(trader), seq![sub_index], seq![bump]]
    }
}

/// Accepts `actual` as the account of `trader` with index `sub_index` exactly
/// when it is the address that its seeds determine.
pub fn verify_trader_state_pda(
    state_seed: &Vec<u8>,
    sub_index: u8,
    trader: Pubkey,
    actual: Pubkey,
    bump: u8,
    program_id: Pubkey,
) -> (r: Result<(), FlashBookError>)
    ensures
        r == (match derived_refusal(
            program_address(trader_state_seeds(state_seed@, trader, sub_index, bump), program_id),
            actual,
            FlashBookError::WrongTrader,
        ) {
            Some(e) => Err::<(), FlashBookError>(e),
            None => Ok(()),
        }),
{
    let trader_bytes: Vec<u8> = key_to_bytes(trader);
    let bump_bytes: Vec<u8> = vec![bump];
    let index_bytes: Vec<u8> = vec![sub_index];
    let mut seeds: Vec<&[u8]> = Vec::new();
    seeds.push(state_seed.as_slice());
    seeds.push(trader_bytes.as_slice());
    if sub_index != 0 {
        seeds.push(index_bytes.as_slice());
    }
    seeds.push(bump_bytes.as_slice());
    proof {
        assert(bump_bytes@ =~= seq![bump]);
        assert(index_bytes@ =~= seq![sub_index]);
        assert(seeds@.map_values(|s: &[u8]| s@) =~= trader_state_seeds(
            state_seed@,
            trader,
            sub_index,
            bump,
        ));
    }
    check_derived(
        create_program_address(&seeds, program_id),
        actual,
        FlashBookError::WrongTrader,
    )
}

/// Seeds of a position: it belongs to one market and one trader account.
pub open spec fn position_seeds(
    position_seed: Seq<u8>,
    market: Pubkey,
    trader_state: Pubkey,
    bump: u8,
) -> Seq<Seq<u8>> {
    seq![position_seed, key_bytes(market), key_bytes(trader_state), seq![bump]]
}

/// Derives the address of a trader account's position in a market.
pub fn derive_position_address(
    position_seed: &Vec<u8>,
    market_key: Pubkey,
    trader_state_key: Pubkey,
    bump: u8,
    program_id: Pubkey,
) -> (r: Option<Pubkey>)
    ensures
        r == program_address(
            position_seeds(position_seed@, market_key, trader_state_key, bump),
            program_id,
        ),
{
    let market_bytes: Vec<u8> = key_to_bytes(market_key);
    let state_bytes: Vec<u8> = key_to_bytes(trader_state_key);
    let bump_bytes: Vec<u8> = vec![bump];
    let mut seeds: Vec<&[u8]> = Vec::new();
    seeds.push(position_seed.as_slice());
    seeds.push(market_bytes.as_slice());
    seeds.push(state_bytes.as_slice());
    seeds.push(bump_bytes.as_slice());
    proof {
        assert(bump_bytes@ =~= seq![bump]);
        assert(seeds@.map_values(|s: &[u8]| s@) =~= position_seeds(
            position_seed@,
            market_key,
            trader_state_key,
            bump,
        ));
    }
    create_program_address(&seeds, program_id)
}

/// Accepts `actual` as the position of a trader account in a market exactly when
/// it is the address that its seeds determine.
pub fn verify_position_pda(
    position_seed: &Vec<u8>,
    market_key: Pubkey,
    trader_state_key: Pubkey,
    bump: u8,
    actual: Pubkey,
    program_id: Pubkey,
) -> (r: Result<(), FlashBookError>)
    ensures
        r == (match derived_refusal(
            program_address(
                position_seeds(position_seed@, market_key, trader_state_key, bump),
                program_id,
            ),
            actual,
            FlashBookError::OutOfRange,
        ) {
            Some(e) => Err::<(), FlashBookError>(e),
            None => Ok(()),
        }),
{
    check_derived(
        derive_position_address(position_seed, market_key, trader_state_key, bump, program_id),
        actual,
        FlashBookError::OutOfRange,
    )
}

} // verus!

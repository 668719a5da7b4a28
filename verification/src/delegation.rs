//! Handing a market and its book to a rollup and taking them back: who may, what is
//! signed with, and what is reported.
use vstd::prelude::*;

use crate::errors::FlashBookError;
use crate::events::{
    MarketBookDelegatedEvent, MarketBookUndelegatedEvent, MarketDelegatedEvent,
    MarketUndelegatedEvent,
};
use crate::keys::Pubkey;
use crate::market::BookAccount;
use crate::pda::{key_bytes, key_to_bytes};
use crate::state::MarketAccount;

verus! {

/// What a delegation is signed with, and what is reported of it.
#[derive(Debug)]
pub struct Delegation<E> {
    pub seeds: Vec<Vec<u8>>,
    pub event: E,
}

/// The bytes of some seeds.
pub open spec fn seed_bytes(seeds: Seq<Vec<u8>>) -> Seq<Seq<u8>> {
    seeds.map_values(|v: Vec<u8>| v@)
}

/// Seeds of a market's book.
pub open spec fn book_seeds(book_seed: Seq<u8>, market: Pubkey, bump: u8) -> Seq<Seq<u8>> {
    seq![book_seed, key_bytes(market), seq![bump]]
}

/// Seeds of a market.
pub open spec fn market_seeds(market_seed: Seq<u8>, m: MarketAccount) -> Seq<Seq<u8>> {
    seq![market_seed, key_bytes(m.base_mint), key_bytes(m.quote_mint), seq![m.bump]]
}

/// Copies some bytes.
pub fn copy_bytes(v: &Vec<u8>) -> (r: Vec<u8>)
    ensures
        r@ == v@,
{
    let mut out: Vec<u8> = Vec::new();
    let mut i: usize = 0;
    while i < v.len()
        invariant
            i <= v@.len(),
            out@ == v@.take(i as int),
        decreases v@.len() - i,
    {
        out.push(v[i]);
        assert(out@ =~= v@.take(i + 1));
        i = i + 1;
    }
    assert(v@.take(i as int) =~= v@);
    out
}

/// Writes out the seeds of a market's book.
pub fn make_book_seeds(book_seed: &Vec<u8>, market: Pubkey, bump: u8) -> (r: Vec<Vec<u8>>)
    ensures
        seed_bytes(r@) == book_seeds(book_seed@, market, bump),
{
    let mut seeds: Vec<Vec<u8>> = Vec::new();
    seeds.push(copy_bytes(book_seed));
    seeds.push(key_to_bytes(market));
    let tail: Vec<u8> = vec![bump];
    assert(tail@ =~= seq![bump]);
    seeds.push(tail);
    assert(seed_bytes(seeds@) =~= book_seeds(book_seed@, market, bump));
    seeds
}

/// Writes out the seeds of a market.
pub fn make_market_seeds(market_seed: &Vec<u8>, m: &MarketAccount) -> (r: Vec<Vec<u8>>)
    ensures
        seed_bytes(r@) == market_seeds(market_seed@, *m),
{
    let mut seeds: Vec<Vec<u8>> = Vec::new();
    seeds.push(copy_bytes(market_seed));
    seeds.push(key_to_bytes(m.base_mint));
    seeds.push(key_to_bytes(m.quote_mint));
    let tail: Vec<u8> = vec![m.bump];
    assert(tail@ =~= seq![m.bump]);
    seeds.push(tail);
    assert(seed_bytes(seeds@) =~= market_seeds(market_seed@, *m));
    seeds
}

/// The validator that is reported: the all-zero key if none was chosen.
pub open spec fn reported_validator(validator: Option<Pubkey>) -> Pubkey {
    match validator {
        Some(k) => k,
        None => Pubkey::none(),
    }
}

/// Admits the delegation of a market's book. Only the market's authority may, and
/// only while the book belongs to this program.
pub fn delegate_market_book(
    ctx: &BookAccount,
    book_seed: &Vec<u8>,
    bump: u8,
    commit_frequency_ms: u32,
    validator: Option<Pubkey>,
) -> (r: Result<Delegation<MarketBookDelegatedEvent>, FlashBookError>)
    ensures
        if ctx.market.authority != ctx.authority || !ctx.owned {
            r is Err && r->Err_0 == FlashBookError::Unauthorized
        } else {
            &&& r is Ok
            &&& seed_bytes(r->Ok_0.seeds@) == book_seeds(book_seed@, ctx.market_key, bump)
            &&& r->Ok_0.event == (MarketBookDelegatedEvent {
                market: ctx.market_key,
                market_book: ctx.market_book_key,
                commit_frequency_ms,
                validator: reported_validator(validator),
            })
        },
{
    if ctx.market.authority != ctx.authority {
        return Err(FlashBookError::Unauthorized);
    }
    if !ctx.owned {
        return Err(FlashBookError::Unauthorized);
    }
    let reported = match validator {
        Some(k) => k,
        None => Pubkey::default_key(),
    };
    Ok(
        Delegation {
            seeds: make_book_seeds(book_seed, ctx.market_key, bump),
            event: MarketBookDelegatedEvent {
                market: ctx.market_key,
                market_book: ctx.market_book_key,
                commit_frequency_ms,
                validator: reported,
            },
        },
    )
}

/// Admits taking a market's book back. Only the market's authority may.
pub fn undelegate_market_book(ctx: &BookAccount, book_seed: &Vec<u8>, bump: u8) -> (r: Result<
    Delegation<MarketBookUndelegatedEvent>,
    FlashBookError,
>)
    ensures
        if ctx.market.authority != ctx.authority {
            r is Err && r->Err_0 == FlashBookError::Unauthorized
        } else {
            &&& r is Ok
            &&& seed_bytes(r->Ok_0.seeds@) == book_seeds(book_seed@, ctx.market_key, bump)
            &&& r->Ok_0.event == (MarketBookUndelegatedEvent {
                market: ctx.market_key,
                market_book: ctx.market_book_key,
            })
        },
{
    if ctx.market.authority != ctx.authority {
        return Err(FlashBookError::Unauthorized);
    }
    Ok(
        Delegation {
            seeds: make_book_seeds(book_seed, ctx.market_key, bump),
            event: MarketBookUndelegatedEvent {
                market: ctx.market_key,
                market_book: ctx.market_book_key,
            },
        },
    )
}

/// Admits the delegation of a market. Only its authority may, and only while it
/// belongs to this program.
pub fn delegate_market(
    market_key: Pubkey,
    market: &MarketAccount,
    authority: Pubkey,
    owned: bool,
    market_seed: &Vec<u8>,
    commit_frequency_ms: u32,
    validator: Option<Pubkey>,
) -> (r: Result<Delegation<MarketDelegatedEvent>, FlashBookError>)
    ensures
        if market.authority != authority || !owned {
            r is Err && r->Err_0 == FlashBookError::Unauthorized
        } else {
            &&& r is Ok
            &&& seed_bytes(r->Ok_0.seeds@) == market_seeds(market_seed@, *market)
            &&& r->Ok_0.event == (MarketDelegatedEvent {
                market: market_key,
                commit_frequency_ms,
                validator: reported_validator(validator),
            })
        },
{
    if market.authority != authority {
        return Err(FlashBookError::Unauthorized);
    }
    if !owned {
        return Err(FlashBookError::Unauthorized);
    }
    let reported = match validator {
        Some(k) => k,
        None => Pubkey::default_key(),
    };
    Ok(
        Delegation {
            seeds: make_market_seeds(market_seed, market),
            event: MarketDelegatedEvent {
                market: market_key,
                commit_frequency_ms,
                validator: reported,
            },
        },
    )
}

/// Admits taking a market back. Only its authority may.
pub fn undelegate_market(
    market_key: Pubkey,
    market: &MarketAccount,
    authority: Pubkey,
    market_seed: &Vec<u8>,
) -> (r: Result<Delegation<MarketUndelegatedEvent>, FlashBookError>)
    ensures
        if market.authority != authority {
            r is Err && r->Err_0 == FlashBookError::Unauthorized
        } else {
            &&& r is Ok
            &&& seed_bytes(r->Ok_0.seeds@) == market_seeds(market_seed@, *market)
            &&& r->Ok_0.event == (MarketUndelegatedEvent { market: market_key })
        },
{
    if market.authority != authority {
        return Err(FlashBookError::Unauthorized);
    }
    Ok(
        Delegation {
            seeds: make_market_seeds(market_seed, market),
            event: MarketUndelegatedEvent { market: market_key },
        },
    )
}

/// The first eight bytes of an account's data are zero.
pub open spec fn unstamped(data: Seq<u8>) -> bool {
    forall|i: int| 0 <= i < 8 ==> #[trigger] data[i] == 0
}

/// Marks a fresh account with its type's discriminator. An account that has one
/// keeps it.
pub fn stamp_zc_discriminator(data: &mut Vec<u8>, disc: &Vec<u8>)
    requires
        old(data)@.len() >= 8,
        disc@.len() <= old(data)@.len(),
    ensures
        final(data)@ == if unstamped(old(data)@) {
            disc@ + old(data)@.skip(disc@.len() as int)
        } else {
            old(data)@
        },
{
    let ghost before = data@;
    let mut i: usize = 0;
    while i < 8
        invariant
            i <= 8,
            data@ == before,
            before.len() >= 8,
            forall|k: int| 0 <= k < i ==> #[trigger] before[k] == 0,
        decreases 8 - i,
    {
        if data[i] != 0 {
            assert(before[i as int] != 0);
            return;
        }
        i = i + 1;
    }
    let mut k: usize = 0;
    assert(data@ =~= disc@.take(0) + before.skip(0));
    while k < disc.len()
        invariant
            k <= disc@.len() <= before.len(),
            data@.len() == before.len(),
            data@ == disc@.take(k as int) + before.skip(k as int),
        decreases disc@.len() - k,
    {
        data.set(k, disc[k]);
        assert(data@ =~= disc@.take(k + 1) + before.skip(k + 1));
        k = k + 1;
    }
    assert(disc@.take(k as int) =~= disc@);
}

} // verus!

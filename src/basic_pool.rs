use vstd::prelude::*;

use crate::address::{lemma_address_ext, Address};
use crate::dex::BarterError;

verus! {

/// Record of an oracle-priced pool in its single-price form: one price of A in B, scaled
/// by 10^9, pushed by the oracle authority.
#[derive(Debug, Clone, Copy)]
pub struct LiquidityPool {
    pub mint_a: Address,
    pub mint_b: Address,
    pub oracle_authority: Address,
    pub oracle_price: u64,
    pub last_oracle_update: i64,
    pub vault_a_bump: u8,
    pub vault_b_bump: u8,
}

/// Stores `new_price` as the pool's price at `now`: `InvalidOracleAuthority` unless
/// `signer` is the oracle authority.
pub fn update_oracle_price(pool: &mut LiquidityPool, signer: Address, new_price: u64, now: i64) -> (r:
    Result<(), BarterError>)
    ensures
        signer != old(pool).oracle_authority ==> r == Err::<(), BarterError>(
            BarterError::InvalidOracleAuthority,
        ) && *final(pool) == *old(pool),
        signer == old(pool).oracle_authority ==> r is Ok && *final(pool) == (LiquidityPool {
            oracle_price: new_price,
            last_oracle_update: now,
            ..*old(pool)
        }),
{
    if signer != pool.oracle_authority {
        return Err(BarterError::InvalidOracleAuthority);
    }
    proof {
        lemma_address_ext(signer, pool.oracle_authority);
    }
    pool.oracle_price = new_price;
    pool.last_oracle_update = now;
    Ok(())
}

} // verus!

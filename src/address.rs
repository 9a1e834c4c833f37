use vstd::prelude::*;
use vstd::string::StringSliceAdditionalSpecFns;

verus! {

/// A 32-byte account address.
#[derive(Debug, Clone, Copy, Eq)]
pub struct Address {
    pub bytes: [u8; 32],
}

impl Address {
    pub open spec fn view(&self) -> Seq<u8> {
        self.bytes@
    }

    /// The address made of `bytes`.
    pub fn new_from_array(bytes: [u8; 32]) -> (r: Address)
        ensures
            r.bytes == bytes,
    {
        Address { bytes }
    }

    /// The address as a derivation seed.
    pub fn to_seed(&self) -> (r: Vec<u8>)
        ensures
            r@ == self@,
    {
        vstd::slice::slice_to_vec(self.bytes.as_slice())
    }

    /// The 32 bytes of the address.
    pub fn to_bytes(&self) -> (r: [u8; 32])
        ensures
            r == self.bytes,
    {
        self.bytes
    }
}

impl PartialEq for Address {
    fn eq(&self, other: &Address) -> (r: bool)
        ensures
            r == (self.bytes@ == other.bytes@),
    {
        let mut i: usize = 0;
        while i < 32
            invariant
                0 <= i <= 32,
                forall|j: int| 0 <= j < i ==> self.bytes@[j] == other.bytes@[j],
            decreases 32 - i,
        {
            if self.bytes[i] != other.bytes[i] {
                return false;
            }
            i = i + 1;
        }
        proof {
            assert(self.bytes@ =~= other.bytes@);
        }
        true
    }
}

impl vstd::std_specs::cmp::PartialEqSpecImpl for Address {
    open spec fn obeys_eq_spec() -> bool {
        true
    }

    open spec fn eq_spec(&self, other: &Address) -> bool {
        self.bytes@ == other.bytes@
    }
}

/// Equal byte views mean equal addresses.
pub proof fn lemma_address_ext(a: Address, b: Address)
    requires
        a.bytes@ == b.bytes@,
    ensures
        a == b,
{
    assert(a.bytes =~= b.bytes);
}

/// Seed of the launch record address.
pub const LAUNCH_STATE_SEED: &'static str = "launch_state";

/// Seed of the lamport vault address of a launch.
pub const SOL_VAULT_SEED: &'static str = "sol_vault";

/// Seed of the vesting record address.
pub const VESTING_SCHEDULE_SEED: &'static str = "vesting_schedule";

/// Seed of the affiliate record address.
pub const AFFILIATE_INFO_SEED: &'static str = "affiliate_info";

/// Seed of the affiliate analytics record address.
pub const AFFILIATE_ANALYTICS_SEED: &'static str = "affiliate_analytics";

/// Seed of the exchange pool record address.
pub const LIQUIDITY_POOL_SEED: &'static str = "liquidity_pool";

/// Seed of the pool vault addresses.
pub const POOL_VAULT_SEED: &'static str = "pool_vault";

/// Seed of the oracle price feed address.
pub const ORACLE_PRICE_FEED_SEED: &'static str = "oracle_price_feed";

/// The program-derived address and bump seed for `seeds` under `program_id`, or `None`
/// when no bump seed yields an address off the curve or the seeds are too long.
pub uninterp spec fn program_address_of(seeds: Seq<Seq<u8>>, program_id: Seq<u8>) -> Option<
    (Seq<u8>, u8),
>;

/// Relies on `Pubkey::try_find_program_address` of the Solana program library: a pure
/// function of the seeds and the program id (SHA-256 over them and a bump seed).
#[verifier::external_body]
fn find_program_address(seeds: &Vec<Vec<u8>>, program_id: &Address) -> (r: Option<(Address, u8)>)
    ensures
        r matches Some(p) ==> program_address_of(seeds.deep_view(), program_id@) == Some(
            (p.0@, p.1),
        ),
        r is None ==> program_address_of(seeds.deep_view(), program_id@) is None,
{
    let slices: Vec<&[u8]> = seeds.iter().map(|s| s.as_slice()).collect();
    let program = anchor_lang::prelude::Pubkey::new_from_array(program_id.bytes);
    anchor_lang::prelude::Pubkey::try_find_program_address(&slices, &program).map(
        |(p, bump)| (Address { bytes: p.to_bytes() }, bump),
    )
}

fn seed_of(seed: &str) -> (r: Vec<u8>)
    ensures
        r@ == seed.spec_bytes(),
{
    vstd::slice::slice_to_vec(seed.as_bytes())
}

proof fn lemma_seed_views(seeds: &Vec<Vec<u8>>)
    ensures
        seeds.deep_view().len() == seeds@.len(),
        forall|i: int| 0 <= i < seeds@.len() ==> #[trigger] seeds.deep_view()[i] == seeds@[i]@,
{
    assert forall|i: int| 0 <= i < seeds@.len() implies #[trigger] seeds.deep_view()[i] == seeds@[i]@ by {
        assert(seeds.deep_view()[i] =~= seeds@[i]@);
    }
}

/// `found` carries the address and bump seed that `expected` describes, and is `None`
/// exactly when `expected` is.
pub open spec fn derived_as(found: Option<(Address, u8)>, expected: Option<(Seq<u8>, u8)>) -> bool {
    match found {
        Some(p) => expected == Some((p.0@, p.1)),
        None => expected is None,
    }
}

/// Seed tuple of the launch record of `token_mint` created by `authority`.
pub open spec fn launch_state_seeds(authority: Address, token_mint: Address) -> Seq<Seq<u8>> {
    seq![LAUNCH_STATE_SEED.spec_bytes(), authority@, token_mint@]
}

/// Seed tuple of the lamport vault of the launch of `token_mint` created by `authority`.
pub open spec fn sol_vault_seeds(authority: Address, token_mint: Address) -> Seq<Seq<u8>> {
    seq![SOL_VAULT_SEED.spec_bytes(), authority@, token_mint@]
}

/// Seed tuple of the affiliate record of `affiliate_key`.
pub open spec fn affiliate_info_seeds(affiliate_key: Address) -> Seq<Seq<u8>> {
    seq![AFFILIATE_INFO_SEED.spec_bytes(), affiliate_key@]
}

/// Seed tuple of the exchange pool of the pair (`mint_a`, `mint_b`).
pub open spec fn liquidity_pool_seeds(mint_a: Address, mint_b: Address) -> Seq<Seq<u8>> {
    seq![LIQUIDITY_POOL_SEED.spec_bytes(), mint_a@, mint_b@]
}

/// Address and bump seed of the launch record of `token_mint` created by `authority`.
pub fn derive_launch_state_address(authority: &Address, token_mint: &Address, program_id: &Address) -> (r:
    Option<(Address, u8)>)
    ensures
        derived_as(r, program_address_of(launch_state_seeds(*authority, *token_mint), program_id@)),
{
    let seeds = vec![seed_of(LAUNCH_STATE_SEED), authority.to_seed(), token_mint.to_seed()];
    proof {
        lemma_seed_views(&seeds);
        assert(seeds.deep_view() =~= launch_state_seeds(*authority, *token_mint));
    }
    find_program_address(&seeds, program_id)
}

/// Address and bump seed of the lamport vault of the launch of `token_mint` created by
/// `authority`.
pub fn derive_sol_vault_address(authority: &Address, token_mint: &Address, program_id: &Address) -> (r:
    Option<(Address, u8)>)
    ensures
        derived_as(r, program_address_of(sol_vault_seeds(*authority, *token_mint), program_id@)),
{
    let seeds = vec![seed_of(SOL_VAULT_SEED), authority.to_seed(), token_mint.to_seed()];
    proof {
        lemma_seed_views(&seeds);
        assert(seeds.deep_view() =~= sol_vault_seeds(*authority, *token_mint));
    }
    find_program_address(&seeds, program_id)
}

/// Address and bump seed of the affiliate record of `affiliate_key`.
pub fn derive_affiliate_info_address(affiliate_key: &Address, program_id: &Address) -> (r: Option<
    (Address, u8),
>)
    ensures
        derived_as(r, program_address_of(affiliate_info_seeds(*affiliate_key), program_id@)),
{
    let seeds = vec![seed_of(AFFILIATE_INFO_SEED), affiliate_key.to_seed()];
    proof {
        lemma_seed_views(&seeds);
        assert(seeds.deep_view() =~= affiliate_info_seeds(*affiliate_key));
    }
    find_program_address(&seeds, program_id)
}

/// Address and bump seed of the exchange pool of the pair (`mint_a`, `mint_b`).
pub fn derive_liquidity_pool_address(mint_a: &Address, mint_b: &Address, program_id: &Address) -> (r:
    Option<(Address, u8)>)
    ensures
        derived_as(r, program_address_of(liquidity_pool_seeds(*mint_a, *mint_b), program_id@)),
{
    let seeds = vec![seed_of(LIQUIDITY_POOL_SEED), mint_a.to_seed(), mint_b.to_seed()];
    proof {
        lemma_seed_views(&seeds);
        assert(seeds.deep_view() =~= liquidity_pool_seeds(*mint_a, *mint_b));
    }
    find_program_address(&seeds, program_id)
}

/// Identical seeds always resolve to the same record: two derivations of a launch address
/// from the same authority, mint and program agree.
pub proof fn lemma_launch_address_deterministic(
    authority: Address,
    token_mint: Address,
    program_id: Address,
    first: Option<(Address, u8)>,
    second: Option<(Address, u8)>,
)
    requires
        derived_as(first, program_address_of(launch_state_seeds(authority, token_mint), program_id@)),
        derived_as(second, program_address_of(launch_state_seeds(authority, token_mint), program_id@)),
    ensures
        first is Some <==> second is Some,
        first matches Some(f) ==> second matches Some(g) && f.0@ == g.0@ && f.1 == g.1,
{
}

} // verus!

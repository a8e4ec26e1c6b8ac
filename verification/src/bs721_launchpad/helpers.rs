//! Seed derivation, shuffling and the choice of the next token.

use vstd::prelude::*;
use vstd::utf8::encode_utf8;
use crate::bs721_launchpad::error::ContractError;
use crate::bs721_launchpad::msg::{Stage, StageResponse};
use crate::bs721_launchpad::state::{
    full_table, lemma_numbered_rearrangement, pick_index, token_range, valid_table, PositionTable,
    State,
};
use crate::host::{Addr, Env, StdError};
use crate::random::{chacha20_first_word, chacha20_shuffled, sha256, sha256_digest, RandomStream};
use crate::text::{be_bytes, push_str_bytes, push_u32_be, push_u64_be};

verus! {

/// A slot of the position table and the token identity that it holds.
#[derive(Debug, Clone, Copy, PartialEq, Eq, Structural)]
pub struct TokenPositionMapping {
    pub position: u128,
    pub token_id: u128,
}

/// Pairs a stored stage with its identifier for display; a failed read is
/// handed on as it is.
pub fn map_stages(item: Result<(u8, Stage), StdError>) -> (r: Result<StageResponse, StdError>)
    ensures
        match item {
            Ok((id, stage)) => r == Ok::<StageResponse, StdError>(
                StageResponse {
                    id,
                    merkle_root: stage.merkle_root,
                    start: stage.start,
                    expiration: stage.expiration,
                    price: stage.price,
                    total_amount: stage.total_amount,
                },
            ),
            Err(e) => r == Err::<StageResponse, StdError>(e),
        },
{
    match item {
        Ok((id, stage)) => Ok(
            StageResponse {
                id,
                merkle_root: stage.merkle_root,
                start: stage.start,
                expiration: stage.expiration,
                price: stage.price,
                total_amount: stage.total_amount,
            },
        ),
        Err(e) => Err(e),
    }
}

/// The bytes that are hashed into the next seed: the current seed, the
/// chain identifier, the block height in eight big-endian bytes, the
/// caller's address, and the transaction index in four big-endian bytes.
pub open spec fn seed_preimage(
    seed: Seq<u8>,
    chain_id: Seq<char>,
    height: u64,
    caller: Seq<char>,
    tx_index: u32,
) -> Seq<u8> {
    seed + encode_utf8(chain_id) + be_bytes(height as nat, 8) + encode_utf8(caller) + be_bytes(
        tx_index as nat,
        4,
    )
}

/// The seed that follows `seed` when `caller` draws in the context `env`.
pub open spec fn next_seed(seed: Seq<u8>, env: Env, caller: Seq<char>) -> Seq<u8> {
    sha256_digest(
        seed_preimage(seed, env.block.chain_id@, env.block.height, caller, env.spec_tx_index()),
    )
}

/// The seed moves on with every derivation, save where the digest of the
/// seed and the context is the very seed that went in.
pub proof fn lemma_seed_moves_on(seed: Seq<u8>, env: Env, caller: Seq<char>)
    requires
        sha256_digest(
            seed_preimage(seed, env.block.chain_id@, env.block.height, caller, env.spec_tx_index()),
        ) != seed,
    ensures
        next_seed(seed, env, caller) != seed,
{
}

/// Derivation is reproducible: the same seed in the same context, for the
/// same caller, gives the same next seed, the same first word of the
/// stream and the same shuffle of any list.
pub proof fn lemma_derivation_is_reproducible(
    seed_a: Seq<u8>,
    env_a: Env,
    caller_a: Seq<char>,
    seed_b: Seq<u8>,
    env_b: Env,
    caller_b: Seq<char>,
)
    requires
        seed_a == seed_b,
        env_a.block.chain_id@ == env_b.block.chain_id@,
        env_a.block.height == env_b.block.height,
        env_a.spec_tx_index() == env_b.spec_tx_index(),
        caller_a == caller_b,
    ensures
        next_seed(seed_a, env_a, caller_a) == next_seed(seed_b, env_b, caller_b),
        chacha20_first_word(seed_a) == chacha20_first_word(seed_b),
        forall|items: Seq<u128>|
            #[trigger] chacha20_shuffled(seed_a, items) == chacha20_shuffled(seed_b, items),
{
}

/// Derives, from the current seed and the context of the call, the seed
/// to persist next and the stream to draw from. The stream is keyed by
/// the current seed; the next seed is a digest of it and of the context.
pub fn derive_stream(
    current_seed: &[u8; 32],
    chain_id: &str,
    block_height: u64,
    caller_address: &str,
    tx_index: u32,
) -> (r: ([u8; 32], RandomStream))
    ensures
        r.0@ == sha256_digest(
            seed_preimage(current_seed@, chain_id@, block_height, caller_address@, tx_index),
        ),
        r.1.key == *current_seed,
{
    let mut new_seed: Vec<u8> = Vec::new();
    let mut i: usize = 0;
    while i < 32
        invariant
            i <= 32,
            new_seed@ == current_seed@.subrange(0, i as int),
        decreases 32 - i,
    {
        new_seed.push(current_seed[i]);
        i = i + 1;
    }
    assert(new_seed@ == current_seed@);
    push_str_bytes(&mut new_seed, chain_id);
    push_u64_be(&mut new_seed, block_height);
    push_str_bytes(&mut new_seed, caller_address);
    push_u32_be(&mut new_seed, tx_index);
    (sha256(&new_seed), RandomStream::from_seed(*current_seed))
}

/// Replaces the persisted seed by its successor and returns the stream
/// keyed by the seed that was there before. Nothing else changes.
pub fn generate_rng(state: &mut State, env: &Env, sender: &Addr) -> (rng: RandomStream)
    ensures
        rng.key == old(state).seed,
        final(state).seed@ == next_seed(old(state).seed@, *env, sender@),
        *final(state) == old(state).with_seed(final(state).seed),
{
    let tx_index: u32 = env.tx_index();
    let (new_seed, rng) = derive_stream(
        &state.seed,
        env.block.chain_id.as_str(),
        env.block.height,
        sender.as_str(),
        tx_index,
    );
    state.seed = new_seed;
    rng
}

/// Shuffles `tokens` with a freshly derived stream, replacing the seed.
/// The result holds exactly the tokens that went in.
pub fn random_nft_list(state: &mut State, env: &Env, sender: &Addr, tokens: Vec<u128>) -> (r: Vec<
    u128,
>)
    ensures
        r@ == chacha20_shuffled(old(state).seed@, tokens@),
        r@.to_multiset() == tokens@.to_multiset(),
        r@.len() == tokens@.len(),
        final(state).seed@ == next_seed(old(state).seed@, *env, sender@),
        *final(state) == old(state).with_seed(final(state).seed),
{
    let rng = generate_rng(state, env, sender);
    rng.shuffle(tokens)
}

/// The token identities `1..=total`, in increasing order.
fn token_ids(total: u128) -> (r: Vec<u128>)
    ensures
        r@ == token_range(total as nat),
{
    let mut ids: Vec<u128> = Vec::new();
    let mut next: u128 = 0;
    while next < total
        invariant
            next <= total,
            ids@ == token_range(total as nat).subrange(0, next as int),
        decreases total - next,
    {
        next = next + 1;
        ids.push(next);
    }
    ids
}

/// Fills the slots `1..=total` with the token identities `1..=total`,
/// shuffled with a freshly derived stream. Whatever the total, every slot
/// and every token occurs exactly once in the table. The seed is
/// replaced; nothing else changes.
pub fn shuffled_positions(
    state: &mut State,
    env: &Env,
    sender: &Addr,
    total: u128,
) -> (table: PositionTable)
    ensures
        table@ == PositionTable::numbered(
            chacha20_shuffled(old(state).seed@, token_range(total as nat)),
        ),
        full_table(table@, total as nat),
        valid_table(table@, total as nat),
        final(state).seed@ == next_seed(old(state).seed@, *env, sender@),
        *final(state) == old(state).with_seed(final(state).seed),
{
    let token_ids = random_nft_list(state, env, sender, token_ids(total));
    proof {
        lemma_numbered_rearrangement(token_ids@, total as nat);
    }
    PositionTable::from_tokens(&token_ids)
}

/// Chooses the slot that goes to `sender`: one word is drawn from a
/// freshly derived stream and selects, by `pick_index`, one of the slots
/// that remain. The slot stays in the table; only the seed changes. With
/// nothing remaining the call is refused as sold out and changes nothing.
pub fn pick_random_nft(state: &mut State, env: &Env, sender: &Addr) -> (r: Result<
    TokenPositionMapping,
    ContractError,
>)
    requires
        old(state).wf(),
    ensures
        old(state).stages_remaining == 0 ==> (r matches Err(ContractError::StageSoldOut {}))
            && *final(state) == *old(state),
        old(state).stages_remaining > 0 ==> r == Ok::<TokenPositionMapping, ContractError>(
            old(state).nft_positions@[pick_index(
                old(state).stages_remaining as nat,
                chacha20_first_word(old(state).seed@),
            )],
        ) && final(state).seed@ == next_seed(old(state).seed@, *env, sender@) && *final(state)
            == old(state).with_seed(final(state).seed),
        final(state).wf(),
{
    if state.stages_remaining == 0 {
        return Err(ContractError::StageSoldOut {});
    }
    let rng = generate_rng(state, env, sender);
    let next_random: u32 = rng.first_u32();
    match state.nft_positions.pick(next_random) {
        Some(mapping) => Ok(mapping),
        None => Err(ContractError::StageSoldOut {}),
    }
}

} // verus!

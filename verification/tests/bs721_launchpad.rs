use bs721_contracts::bs721_launchpad::contract::{
    execute, execute_mint, handle_instantiate_reply, instantiate, instantiate_admitted,
    link_token_contract, payment_in, query, query_config, reply, INSTANTIATE_BS721_CODE_ID,
    INSTANTIATE_REPLY_ID,
};
use bs721_contracts::bs721_launchpad::error::ContractError;
use bs721_contracts::bs721_launchpad::helpers::{
    derive_stream, generate_rng, map_stages, pick_random_nft, random_nft_list,
    shuffled_positions, TokenPositionMapping,
};
use bs721_contracts::bs721_launchpad::msg::{
    ConfigResponse, ExecuteMsg, InstantiateMsg, QueryMsg, SaleStage, Stage, StageResponse,
    StagesMsg,
};
use bs721_contracts::bs721_launchpad::state::{PositionTable, State};
use bs721_contracts::bs721_launchpad::validator::{validate_seller_fee, validate_stages};
use bs721_contracts::host::{
    coin, read_reply_address, Addr, Attribute, BankMsg, BlockInfo, Coin, ContractInfo, CosmosMsg, Env, MessageInfo,
    MintMsg, Reply, ReplyOn, Response, StdError, SubMsg, SubMsgResponse, SubMsgResult, Timestamp,
    TokenInstantiateMsg, TransactionInfo, WasmMsg, WasmPayload,
};
use bs721_contracts::schedule::{Expiration, Scheduled};
use rand::seq::SliceRandom;
use rand::SeedableRng;
use rand_chacha::ChaCha20Rng;
use sha2::{Digest, Sha256};

const MOCK_CONTRACT_ADDR: &str = "cosmos2contract";

fn mock_env() -> Env {
    Env {
        block: BlockInfo {
            height: 12_345,
            time: Timestamp::from_nanos(1_571_797_419_879_305_533),
            chain_id: "cosmos-testnet-14002".to_string(),
        },
        transaction: Some(TransactionInfo { index: 3 }),
        contract: ContractInfo { address: Addr::unchecked(MOCK_CONTRACT_ADDR) },
    }
}

fn mock_info(sender: &str, funds: &[Coin]) -> MessageInfo {
    MessageInfo { sender: Addr::unchecked(sender), funds: funds.to_vec() }
}

fn instantiate_msg() -> InstantiateMsg {
    InstantiateMsg {
        name: "test".to_string(),
        collection_uri: Some("ipfs://...".to_string()).clone(),
        symbol: String::from("test"),
        admin: String::from("creator"),
        stages: vec![Stage {
            merkle_root: None,
            start: None,
            expiration: None,
            price: Some(coin(100u128, "ubtsg")),
            total_amount: 1u32,
        }],
        payment_address: Some(Addr::unchecked("payment_address").to_string()),
        base_token_uri: "ipfs://....".to_string(),
        seller_fee: 0,
    }
}

fn set_up(info: MessageInfo, msg: InstantiateMsg) -> Result<(State, Response), ContractError> {
    let admin = Ok(Addr::unchecked(&msg.admin));
    let payment_address = Ok(msg.payment_address.as_deref().map(Addr::unchecked));
    instantiate(mock_env(), info, msg, admin, payment_address)
}

/// Protobuf encoding of the reply to a request that creates a contract:
/// field 1 holds the address, field 2 the data.
fn encode_instantiate_reply(contract_address: &str, data: &[u8]) -> Vec<u8> {
    fn varint(mut n: usize, out: &mut Vec<u8>) {
        while n >= 0x80 {
            out.push((n as u8 & 0x7f) | 0x80);
            n >>= 7;
        }
        out.push(n as u8);
    }
    let mut out = Vec::new();
    out.push(0x0a);
    varint(contract_address.len(), &mut out);
    out.extend_from_slice(contract_address.as_bytes());
    out.push(0x12);
    varint(data.len(), &mut out);
    out.extend_from_slice(data);
    out
}

fn instantiate_reply() -> Reply {
    Reply {
        id: INSTANTIATE_REPLY_ID,
        result: SubMsgResult::Success(SubMsgResponse {
            data: Some(encode_instantiate_reply("nft_address", &vec![2u8; 32769])),
        }),
    }
}

#[test]
fn instantiate_test() {
    let creator_info = mock_info("creator", &[]);
    let init_msg = &instantiate_msg();

    let (mut state, res) = set_up(mock_info("creator", &[]), init_msg.clone()).unwrap();

    assert_eq!(
        res.messages,
        vec![SubMsg {
            msg: CosmosMsg::Wasm(WasmMsg::Instantiate {
                code_id: INSTANTIATE_BS721_CODE_ID,
                msg: WasmPayload::TokenInstantiate(TokenInstantiateMsg {
                    name: init_msg.name.clone(),
                    symbol: init_msg.symbol.clone(),
                    minter: MOCK_CONTRACT_ADDR.to_string(),
                    uri: Some("ipfs://...".to_string()),
                }),
                funds: vec![],
                admin: Some(creator_info.sender.to_string()),
                label: String::from("BS721-test"),
            }),
            id: INSTANTIATE_REPLY_ID,
            gas_limit: None,
            reply_on: ReplyOn::Success,
        }]
    );

    reply(&mut state, mock_env(), instantiate_reply()).unwrap();

    let query_msg = QueryMsg::Config {};
    let config: ConfigResponse = query(&state, mock_env(), query_msg.clone()).unwrap();
    assert_eq!(
        config,
        ConfigResponse {
            admin: creator_info.sender.clone(),
            name: init_msg.name.clone(),
            symbol: init_msg.symbol.clone(),
            collection_uri: init_msg.collection_uri.clone(),
            base_token_uri: init_msg.base_token_uri.clone(),
            seller_fee_bps: init_msg.seller_fee.clone(),
            payment_address: Some(Addr::unchecked("payment_address")),
            nft_address: Addr::unchecked("nft_address"),
            stages: vec![StageResponse {
                id: 1,
                merkle_root: None,
                start: None,
                expiration: None,
                price: Some(coin(100u128, "ubtsg")),
                total_amount: 1u32
            },],
        }
    );
}

#[test]
fn mint_test() {
    let info = mock_info("creator", &[]);
    let info_with_funds = mock_info("creator", &[coin(100, "ubtsg")]);

    let (mut state, _) = set_up(mock_info("creator", &[]), instantiate_msg()).unwrap();

    reply(&mut state, mock_env(), instantiate_reply()).unwrap();

    let mint_msg = ExecuteMsg::Mint { stage: 1u8, proofs: None };

    // one token on sale: the first mint takes it, the second finds nothing
    execute(&mut state, mock_env(), info_with_funds.clone(), mint_msg.clone()).unwrap();

    let err = execute(&mut state, mock_env(), info.clone(), mint_msg.clone()).unwrap_err();
    match err {
        ContractError::StageSoldOut {} => {}
        e => panic!("unexpected error: {}", e.to_string()),
    }
}

fn env_at(height: u64, nanos: u64) -> Env {
    let mut env = mock_env();
    env.block.height = height;
    env.block.time = Timestamp::from_nanos(nanos);
    env
}

fn free_stage(total_amount: u32) -> Stage {
    Stage { merkle_root: None, start: None, expiration: None, price: None, total_amount }
}

fn sale(stages: Vec<Stage>) -> InstantiateMsg {
    InstantiateMsg { stages, payment_address: None, ..instantiate_msg() }
}

fn linked(msg: InstantiateMsg) -> State {
    let (mut state, _) = set_up(mock_info("creator", &[]), msg).unwrap();
    reply(&mut state, mock_env(), instantiate_reply()).unwrap();
    state
}

fn attr(key: &str, value: &str) -> Attribute {
    Attribute { key: key.to_string(), value: value.to_string() }
}

fn minted_token(res: &Response) -> u128 {
    res.attributes.iter().find(|a| a.key == "token_id").unwrap().value.parse().unwrap()
}

#[test]
fn setup_assigns_every_token_to_exactly_one_slot() {
    for supplies in [vec![1u32], vec![3, 7], vec![1, 1, 1], vec![50, 25, 25]] {
        let total: u128 = supplies.iter().map(|s| *s as u128).sum();
        let (state, _) =
            set_up(mock_info("creator", &[]), sale(supplies.into_iter().map(free_stage).collect()))
                .unwrap();
        let entries = &state.nft_positions.entries;
        assert_eq!(entries.len() as u128, total);
        for (i, entry) in entries.iter().enumerate() {
            assert_eq!(entry.position, i as u128 + 1);
        }
        let mut tokens: Vec<u128> = entries.iter().map(|e| e.token_id).collect();
        tokens.sort();
        assert_eq!(tokens, (1..=total).collect::<Vec<u128>>());
        assert_eq!(state.stages_remaining, total);
        assert!(state.check());
    }
}

#[test]
fn setup_shuffles_with_the_stream_of_the_default_seed() {
    let (state, _) = set_up(mock_info("creator", &[]), sale(vec![free_stage(20)])).unwrap();
    let mut expected: Vec<u128> = (1..=20).collect();
    expected.shuffle(&mut ChaCha20Rng::from_seed([0u8; 32]));
    let tokens: Vec<u128> = state.nft_positions.entries.iter().map(|e| e.token_id).collect();
    assert_eq!(tokens, expected);
    assert_ne!(tokens, (1..=20).collect::<Vec<u128>>());
}

#[test]
fn setup_replaces_the_default_seed_by_its_digest() {
    let (state, _) = set_up(mock_info("creator", &[]), sale(vec![free_stage(2)])).unwrap();
    assert_eq!(
        state.seed,
        [
            121, 212, 196, 176, 45, 230, 20, 122, 255, 115, 123, 129, 138, 16, 129, 135, 7, 80,
            110, 238, 21, 184, 55, 7, 119, 121, 172, 147, 94, 79, 34, 159
        ]
    );
}

#[test]
fn derive_stream_hashes_seed_and_context() {
    let seed = [7u8; 32];
    let (new_seed, stream) = derive_stream(&seed, "chain-1", 0x0102030405060708, "alice", 0x0a0b0c0d);
    let mut preimage = seed.to_vec();
    preimage.extend_from_slice(b"chain-1");
    preimage.extend_from_slice(&[1, 2, 3, 4, 5, 6, 7, 8]);
    preimage.extend_from_slice(b"alice");
    preimage.extend_from_slice(&[0x0a, 0x0b, 0x0c, 0x0d]);
    let expected: [u8; 32] = Sha256::digest(&preimage).into();
    assert_eq!(new_seed, expected);
    assert_ne!(new_seed, seed);
    assert_eq!(stream.key, seed);
}

#[test]
fn derive_stream_is_reproducible() {
    let seed = [9u8; 32];
    let a = derive_stream(&seed, "chain", 42, "bob", 1);
    let b = derive_stream(&seed, "chain", 42, "bob", 1);
    assert_eq!(a, b);
    assert_eq!(a.1.first_u32(), b.1.first_u32());
    assert_eq!(a.1.shuffle((1..=9).collect()), b.1.shuffle((1..=9).collect()));
    // any part of the context changes the next seed
    assert_ne!(a.0, derive_stream(&seed, "chain", 43, "bob", 1).0);
    assert_ne!(a.0, derive_stream(&seed, "chain", 42, "bob", 2).0);
    assert_ne!(a.0, derive_stream(&seed, "chain", 42, "eve", 1).0);
    assert_ne!(a.0, derive_stream(&seed, "other", 42, "bob", 1).0);
}

#[test]
fn generate_rng_keys_the_stream_by_the_old_seed() {
    let mut state = linked(sale(vec![free_stage(4)]));
    let before = state.clone();
    let env = mock_env();
    let rng = generate_rng(&mut state, &env, &Addr::unchecked("buyer"));
    assert_eq!(rng.key, before.seed);
    assert_eq!(
        state.seed,
        [
            161, 118, 173, 241, 86, 29, 19, 60, 228, 181, 40, 228, 78, 222, 29, 78, 54, 86, 159,
            190, 102, 214, 115, 42, 178, 68, 227, 239, 114, 161, 13, 188
        ]
    );
    assert_eq!(State { seed: before.seed, ..state.clone() }, before);
}

#[test]
fn transaction_index_defaults_to_zero() {
    let mut with_zero = mock_env();
    with_zero.transaction = Some(TransactionInfo { index: 0 });
    let mut without = mock_env();
    without.transaction = None;
    assert_eq!(without.tx_index(), 0);
    let mut a = linked(sale(vec![free_stage(4)]));
    let mut b = a.clone();
    generate_rng(&mut a, &with_zero, &Addr::unchecked("buyer"));
    generate_rng(&mut b, &without, &Addr::unchecked("buyer"));
    assert_eq!(a.seed, b.seed);
}

#[test]
fn random_nft_list_rearranges_and_reseeds() {
    let mut state = linked(sale(vec![free_stage(4)]));
    let seed = state.seed;
    let shuffled =
        random_nft_list(&mut state, &mock_env(), &Addr::unchecked("buyer"), (1..=30).collect());
    let mut expected: Vec<u128> = (1..=30).collect();
    expected.shuffle(&mut ChaCha20Rng::from_seed(seed));
    assert_eq!(shuffled, expected);
    let mut sorted = shuffled.clone();
    sorted.sort();
    assert_eq!(sorted, (1..=30).collect::<Vec<u128>>());
    assert_ne!(state.seed, seed);
}

fn table(n: u128) -> PositionTable {
    PositionTable::from_tokens(&(1..=n).map(|t| t * 10).collect())
}

#[test]
fn pick_scans_upwards_on_even_and_downwards_on_odd_draws() {
    let t = table(10);
    // window 5: even draws count from the lowest slot
    assert_eq!(t.pick(0), Some(TokenPositionMapping { position: 1, token_id: 10 }));
    assert_eq!(t.pick(8), Some(TokenPositionMapping { position: 4, token_id: 40 }));
    assert_eq!(t.pick(14), Some(TokenPositionMapping { position: 5, token_id: 50 }));
    // odd draws count from the highest slot
    assert_eq!(t.pick(5), Some(TokenPositionMapping { position: 10, token_id: 100 }));
    assert_eq!(t.pick(7), Some(TokenPositionMapping { position: 8, token_id: 80 }));
    assert_eq!(t.pick(u32::MAX), Some(TokenPositionMapping { position: 10, token_id: 100 }));
    // fewer than five slots: the window is what remains
    let small = table(3);
    assert_eq!(small.pick(7), Some(TokenPositionMapping { position: 2, token_id: 20 }));
    assert_eq!(small.pick(8), Some(TokenPositionMapping { position: 3, token_id: 30 }));
    assert_eq!(table(1).pick(123), Some(TokenPositionMapping { position: 1, token_id: 10 }));
    assert_eq!(table(0).pick(123), None);
}

#[test]
fn remove_takes_one_slot_and_keeps_the_rest() {
    let mut t = table(4);
    t.remove(3);
    assert_eq!(
        t.entries,
        vec![
            TokenPositionMapping { position: 1, token_id: 10 },
            TokenPositionMapping { position: 2, token_id: 20 },
            TokenPositionMapping { position: 4, token_id: 40 },
        ]
    );
    assert_eq!(t.find(4), Some(2));
    assert_eq!(t.find(3), None);
    t.remove(3);
    assert_eq!(t.len(), 3);
    assert!(t.is_valid(40));
    assert!(!t.is_valid(39));
}

#[test]
fn pick_random_nft_draws_the_first_word_of_the_stream() {
    let mut state = linked(sale(vec![free_stage(9)]));
    let before = state.clone();
    let draw = bs721_contracts::random::RandomStream::from_seed(before.seed).first_u32();
    let picked = pick_random_nft(&mut state, &mock_env(), &Addr::unchecked("buyer")).unwrap();
    assert_eq!(Some(picked), before.nft_positions.pick(draw));
    assert_eq!(state.nft_positions, before.nft_positions);
    assert_ne!(state.seed, before.seed);
}

#[test]
fn allocations_never_repeat_and_end_sold_out() {
    let total = 12u128;
    let mut state = linked(sale(vec![free_stage(5), free_stage(7)]));
    let mut tokens = Vec::new();
    let mut seeds = vec![state.seed];
    for n in 0..total {
        let stage = if n < 5 { 1u8 } else { 2u8 };
        let res = execute_mint(&mut state, mock_env(), mock_info("buyer", &[]), stage, None).unwrap();
        let token = minted_token(&res);
        assert!(!tokens.contains(&token));
        assert!((1..=total).contains(&token));
        assert!(state.nft_positions.entries.iter().all(|e| e.token_id != token));
        assert!(!seeds.contains(&state.seed));
        tokens.push(token);
        seeds.push(state.seed);
        assert_eq!(state.nft_positions.len() as u128, total - n - 1);
        assert_eq!(state.stages_remaining, total - n - 1);
        assert!(state.check());
    }
    assert!(state.nft_positions.entries.is_empty());
    assert_eq!(state.stage_remaining, vec![0, 0]);
    for stage in [1u8, 2u8] {
        let before = state.clone();
        let err = execute_mint(&mut state, mock_env(), mock_info("buyer", &[]), stage, None)
            .unwrap_err();
        assert_eq!(err, ContractError::StageSoldOut {});
        assert_eq!(state, before);
    }
    let err = pick_random_nft(&mut state, &mock_env(), &Addr::unchecked("buyer")).unwrap_err();
    assert_eq!(err, ContractError::StageSoldOut {});
}

#[test]
fn equal_histories_allocate_equal_tokens() {
    let mut a = linked(sale(vec![free_stage(8)]));
    let mut b = linked(sale(vec![free_stage(8)]));
    assert_eq!(a, b);
    for _ in 0..8 {
        let ra = execute_mint(&mut a, mock_env(), mock_info("buyer", &[]), 1, None).unwrap();
        let rb = execute_mint(&mut b, mock_env(), mock_info("buyer", &[]), 1, None).unwrap();
        assert_eq!(ra, rb);
        assert_eq!(a, b);
    }
}

#[test]
fn single_free_token_is_minted_once() {
    let mut state = linked(sale(vec![free_stage(1)]));
    let res = execute(
        &mut state,
        mock_env(),
        mock_info("buyer", &[]),
        ExecuteMsg::Mint { stage: 1, proofs: None },
    )
    .unwrap();
    assert_eq!(
        res.attributes,
        vec![
            attr("price", "0"),
            attr("action", "execute_mint"),
            attr("sender", "buyer"),
            attr("recipient", "buyer"),
            attr("token_id", "1"),
        ]
    );
    assert_eq!(
        res.messages,
        vec![SubMsg {
            id: 0,
            msg: CosmosMsg::Wasm(WasmMsg::Execute {
                contract_addr: "nft_address".to_string(),
                msg: WasmPayload::TokenMint(MintMsg {
                    token_id: "1".to_string(),
                    owner: "buyer".to_string(),
                    token_uri: Some("ipfs://..../1".to_string()),
                    seller_fee: 0,
                    payment_address: Some("creator".to_string()),
                }),
                funds: vec![],
            }),
            gas_limit: None,
            reply_on: ReplyOn::Never,
        }]
    );
    let err = execute(
        &mut state,
        mock_env(),
        mock_info("buyer", &[]),
        ExecuteMsg::Mint { stage: 1, proofs: None },
    )
    .unwrap_err();
    assert_eq!(err, ContractError::StageSoldOut {});
}

#[test]
fn priced_mint_forwards_the_price_to_the_payee() {
    let mut state = linked(instantiate_msg());
    let res = execute_mint(
        &mut state,
        mock_env(),
        mock_info("buyer", &[coin(100, "ubtsg")]),
        1,
        None,
    )
    .unwrap();
    assert_eq!(res.attributes[0], attr("price", "100ubtsg"));
    assert_eq!(res.messages.len(), 2);
    assert_eq!(
        res.messages[1],
        SubMsg {
            id: 0,
            msg: CosmosMsg::Bank(BankMsg::Send {
                to_address: "payment_address".to_string(),
                amount: vec![coin(100, "ubtsg")],
            }),
            gas_limit: None,
            reply_on: ReplyOn::Never,
        }
    );
    match &res.messages[0].msg {
        CosmosMsg::Wasm(WasmMsg::Execute { msg: WasmPayload::TokenMint(mint), .. }) => {
            assert_eq!(mint.payment_address, Some("payment_address".to_string()));
        }
        other => panic!("unexpected message: {:?}", other),
    }
}

const SECOND: u64 = 1_000_000_000;

fn three_stages() -> InstantiateMsg {
    sale(vec![
        Stage {
            merkle_root: None,
            start: Some(Scheduled::AtTime(Timestamp::from_nanos(100 * SECOND))),
            expiration: Some(Expiration::AtTime(Timestamp::from_nanos(200 * SECOND))),
            price: None,
            total_amount: 1,
        },
        Stage {
            merkle_root: None,
            start: Some(Scheduled::AtTime(Timestamp::from_nanos(300 * SECOND))),
            expiration: Some(Expiration::AtTime(Timestamp::from_nanos(400 * SECOND))),
            price: Some(coin(50, "ubtsg")),
            total_amount: 2,
        },
        Stage {
            merkle_root: None,
            start: Some(Scheduled::AtTime(Timestamp::from_nanos(500 * SECOND))),
            expiration: Some(Expiration::AtTime(Timestamp::from_nanos(600 * SECOND))),
            price: Some(coin(100, "ubtsg")),
            total_amount: 2,
        },
    ])
}

fn mint_at(state: &mut State, seconds: u64, stage: u8, funds: &[Coin]) -> Result<Response, ContractError> {
    execute_mint(state, env_at(1, seconds * SECOND), mock_info("buyer", funds), stage, None)
}

#[test]
fn three_sequential_stages() {
    let mut state = linked(three_stages());

    // outside all windows no stage sells
    for seconds in [0, 99, 200, 250, 299, 400, 450, 499, 600, 10_000] {
        for (stage, funds) in [(1u8, vec![]), (2, vec![coin(50, "ubtsg")]), (3, vec![coin(100, "ubtsg")])] {
            let before = state.clone();
            let err = mint_at(&mut state, seconds, stage, &funds).unwrap_err();
            assert!(
                err == ContractError::StageNotBegun {} || err == ContractError::StageExpired {},
                "unexpected error: {:?}",
                err
            );
            assert_eq!(state, before);
        }
    }
    assert_eq!(mint_at(&mut state, 99, 1, &[]).unwrap_err(), ContractError::StageNotBegun {});
    assert_eq!(mint_at(&mut state, 200, 1, &[]).unwrap_err(), ContractError::StageExpired {});

    // inside a window the payment must be exact
    assert_eq!(
        mint_at(&mut state, 300, 2, &[coin(49, "ubtsg")]).unwrap_err(),
        ContractError::IncorrectPaymentAmount(coin(49, "ubtsg"), coin(50, "ubtsg"))
    );
    assert_eq!(
        mint_at(&mut state, 300, 2, &[]).unwrap_err(),
        ContractError::IncorrectPaymentAmount(coin(0, "ubtsg"), coin(50, "ubtsg"))
    );
    assert_eq!(
        mint_at(&mut state, 300, 2, &[coin(50, "uatom")]).unwrap_err(),
        ContractError::IncorrectPaymentAmount(coin(50, "uatom"), coin(50, "ubtsg"))
    );
    assert_eq!(
        mint_at(&mut state, 300, 2, &[coin(50, "ubtsg"), coin(1, "uatom")]).unwrap_err(),
        ContractError::IncorrectPaymentAmount(coin(1, "uatom"), coin(50, "ubtsg"))
    );

    // a free stage takes no payment check
    mint_at(&mut state, 100, 1, &[]).unwrap();
    assert_eq!(mint_at(&mut state, 150, 1, &[]).unwrap_err(), ContractError::StageSoldOut {});

    // an exhausted stage is sold out within its window, the others still sell in theirs
    mint_at(&mut state, 300, 2, &[coin(50, "ubtsg")]).unwrap();
    mint_at(&mut state, 399, 2, &[coin(50, "ubtsg")]).unwrap();
    assert_eq!(
        mint_at(&mut state, 399, 2, &[coin(50, "ubtsg")]).unwrap_err(),
        ContractError::StageSoldOut {}
    );
    mint_at(&mut state, 500, 3, &[coin(100, "ubtsg")]).unwrap();
    mint_at(&mut state, 599, 3, &[coin(100, "ubtsg")]).unwrap();
    assert_eq!(
        mint_at(&mut state, 599, 3, &[coin(100, "ubtsg")]).unwrap_err(),
        ContractError::StageSoldOut {}
    );
    assert!(state.nft_positions.entries.is_empty());
}

#[test]
fn stages_by_height() {
    let mut state = linked(sale(vec![Stage {
        merkle_root: None,
        start: Some(Scheduled::AtHeight(10)),
        expiration: Some(Expiration::AtHeight(20)),
        price: None,
        total_amount: 5,
    }]));
    let at = |state: &mut State, height: u64| {
        execute_mint(state, env_at(height, 0), mock_info("buyer", &[]), 1, None)
    };
    assert_eq!(at(&mut state, 9).unwrap_err(), ContractError::StageNotBegun {});
    at(&mut state, 10).unwrap();
    at(&mut state, 19).unwrap();
    assert_eq!(at(&mut state, 20).unwrap_err(), ContractError::StageExpired {});
    let mut open = linked(sale(vec![Stage {
        expiration: Some(Expiration::Never {}),
        ..free_stage(1)
    }]));
    at(&mut open, u64::MAX).unwrap();
}

#[test]
fn mint_names_its_stage() {
    let mut state = linked(sale(vec![free_stage(1), free_stage(1)]));
    for stage in [0u8, 3, 255] {
        let before = state.clone();
        let err = execute_mint(&mut state, mock_env(), mock_info("buyer", &[]), stage, None)
            .unwrap_err();
        assert_eq!(err, ContractError::StageNotFound {});
        assert_eq!(state, before);
    }
}

#[test]
fn mint_needs_the_token_contract() {
    let (mut state, _) = set_up(mock_info("creator", &[]), sale(vec![free_stage(1)])).unwrap();
    let before = state.clone();
    let err =
        execute_mint(&mut state, mock_env(), mock_info("buyer", &[]), 1, None).unwrap_err();
    assert_eq!(
        err,
        ContractError::Std(StdError::NotFound { kind: "cosmwasm_std::addresses::Addr".to_string() })
    );
    assert_eq!(state, before);
    assert_eq!(
        query_config(&state).unwrap_err(),
        StdError::NotFound { kind: "cosmwasm_std::addresses::Addr".to_string() }
    );
}

#[test]
fn payment_counts_a_single_coin_of_the_denomination() {
    let denom = "ubtsg".to_string();
    assert_eq!(payment_in(&vec![], &denom), Ok(0));
    assert_eq!(payment_in(&vec![coin(7, "ubtsg")], &denom), Ok(7));
    assert_eq!(payment_in(&vec![coin(7, "uatom")], &denom), Err(coin(7, "uatom")));
    assert_eq!(
        payment_in(&vec![coin(7, "ubtsg"), coin(3, "uatom"), coin(1, "uosmo")], &denom),
        Err(coin(3, "uatom"))
    );
    assert_eq!(
        payment_in(&vec![coin(7, "ubtsg"), coin(3, "ubtsg")], &denom),
        Err(coin(7, "ubtsg"))
    );
}

#[test]
fn setup_refusals_come_in_order() {
    let bad = || Err(StdError::generic_err("Invalid input: human address too short"));
    let good = || Ok(Addr::unchecked("creator"));
    let none = || Ok(None);
    let run = |msg: InstantiateMsg, admin, payment| {
        instantiate(mock_env(), mock_info("creator", &[]), msg, admin, payment).unwrap_err()
    };
    let no_stage = InstantiateMsg { seller_fee: 10_001, ..sale(vec![]) };
    assert_eq!(run(no_stage, bad(), none()), ContractError::StageRequired {});
    let high_fee = InstantiateMsg { seller_fee: 10_001, ..sale(vec![free_stage(0)]) };
    assert_eq!(run(high_fee, bad(), none()), ContractError::SellerFeeBasisPointsTooHigh {});
    assert_eq!(
        run(sale(vec![free_stage(0)]), bad(), Err(StdError::generic_err("other"))),
        ContractError::Std(StdError::generic_err("Invalid input: human address too short"))
    );
    assert_eq!(
        run(sale(vec![free_stage(0)]), good(), Err(StdError::generic_err("other"))),
        ContractError::Std(StdError::generic_err("other"))
    );
    assert_eq!(
        run(sale(vec![free_stage(2), free_stage(0)]), good(), none()),
        ContractError::StageInvalidSupply {}
    );
    let max_fee = InstantiateMsg { seller_fee: 10_000, ..sale(vec![free_stage(1)]) };
    let (state, _) =
        instantiate(mock_env(), mock_info("creator", &[]), max_fee, good(), none()).unwrap();
    assert_eq!(state.config.seller_fee_bps, 10_000);
    assert_eq!(state.config.payment_address, None);
    assert_eq!(state.nft_address, None);
    assert_eq!(state.stage_counter, 1);
}

#[test]
fn setup_trims_the_name_in_the_label_and_forwards_funds() {
    let msg = InstantiateMsg { name: "  my sale \t".to_string(), ..sale(vec![free_stage(1)]) };
    let (_, res) = set_up(mock_info("creator", &[coin(5, "ubtsg")]), msg).unwrap();
    assert_eq!(
        res.attributes,
        vec![
            attr("action", "instantiate"),
            attr("contract_name", "crates.io:bs721-launchpad"),
            attr("contract_version", "0.1.0"),
            attr("sender", "creator"),
        ]
    );
    match &res.messages[0].msg {
        CosmosMsg::Wasm(WasmMsg::Instantiate { label, funds, msg, .. }) => {
            assert_eq!(label, "BS721-my sale");
            assert_eq!(funds, &vec![coin(5, "ubtsg")]);
            assert_eq!(
                msg,
                &WasmPayload::TokenInstantiate(TokenInstantiateMsg {
                    name: "  my sale \t".to_string(),
                    symbol: "test".to_string(),
                    minter: MOCK_CONTRACT_ADDR.to_string(),
                    uri: Some("ipfs://...".to_string()),
                })
            );
        }
        other => panic!("unexpected message: {:?}", other),
    }
}

#[test]
fn reply_links_the_token_contract_once() {
    let (mut state, _) = set_up(mock_info("creator", &[]), sale(vec![free_stage(1)])).unwrap();
    let fresh = state.clone();

    let unknown = Reply { id: 2, ..instantiate_reply() };
    assert_eq!(reply(&mut state, mock_env(), unknown).unwrap_err(), ContractError::UnknownReplyId {});
    assert_eq!(state, fresh);

    let failed = Reply { id: INSTANTIATE_REPLY_ID, result: SubMsgResult::Failure("out of gas".to_string()) };
    assert_eq!(
        reply(&mut state, mock_env(), failed).unwrap_err(),
        ContractError::InstantiateContractError {}
    );
    let empty = Reply {
        id: INSTANTIATE_REPLY_ID,
        result: SubMsgResult::Success(SubMsgResponse { data: None }),
    };
    assert_eq!(
        handle_instantiate_reply(&mut state, empty).unwrap_err(),
        ContractError::InstantiateContractError {}
    );
    let garbled = Reply {
        id: INSTANTIATE_REPLY_ID,
        result: SubMsgResult::Success(SubMsgResponse { data: Some(vec![0x0a, 0x05, b'a']) }),
    };
    assert_eq!(
        reply(&mut state, mock_env(), garbled).unwrap_err(),
        ContractError::InstantiateContractError {}
    );
    assert_eq!(state, fresh);

    let res = reply(&mut state, mock_env(), instantiate_reply()).unwrap();
    assert_eq!(
        res.attributes,
        vec![attr("action", "instantiate_bs721_reply"), attr("nft_address", "nft_address")]
    );
    assert!(res.messages.is_empty());
    assert_eq!(state, State { nft_address: Some(Addr::unchecked("nft_address")), ..fresh });

    let again = state.clone();
    assert_eq!(
        reply(&mut state, mock_env(), instantiate_reply()).unwrap_err(),
        ContractError::BS721AlreadyLinked {}
    );
    assert_eq!(state, again);
}

#[test]
fn map_stages_numbers_a_stage_and_hands_errors_on() {
    let stage = Stage {
        merkle_root: Some("root".to_string()),
        start: Some(Scheduled::AtHeight(4)),
        expiration: Some(Expiration::Never {}),
        price: Some(coin(3, "ubtsg")),
        total_amount: 9,
    };
    assert_eq!(
        map_stages(Ok((7, stage))),
        Ok(StageResponse {
            id: 7,
            merkle_root: Some("root".to_string()),
            start: Some(Scheduled::AtHeight(4)),
            expiration: Some(Expiration::Never {}),
            price: Some(coin(3, "ubtsg")),
            total_amount: 9,
        })
    );
    assert_eq!(map_stages(Err(StdError::generic_err("x"))), Err(StdError::generic_err("x")));
}

#[test]
fn config_lists_the_stages_in_order() {
    let state = linked(three_stages());
    let config = query(&state, mock_env(), QueryMsg::Config {}).unwrap();
    assert_eq!(config.stages.iter().map(|s| s.id).collect::<Vec<u8>>(), vec![1, 2, 3]);
    assert_eq!(config.stages[1].price, Some(coin(50, "ubtsg")));
    assert_eq!(config.stages[2].total_amount, 2);
    assert_eq!(config.payment_address, None);
}

#[test]
fn seller_fee_is_bounded() {
    assert_eq!(validate_seller_fee(0), Ok(true));
    assert_eq!(validate_seller_fee(10_000), Ok(true));
    assert_eq!(validate_seller_fee(10_001), Err(ContractError::SellerFeeBasisPointsTooHigh {}));
    assert_eq!(validate_seller_fee(u16::MAX), Err(ContractError::SellerFeeBasisPointsTooHigh {}));
}

fn window(start: u64, end: u64, price: Option<Coin>, supply: u32) -> SaleStage {
    SaleStage {
        start_date: Timestamp::from_nanos(start),
        end_date: Timestamp::from_nanos(end),
        price,
        supply,
    }
}

#[test]
fn stage_windows_are_validated() {
    let now = Timestamp::from_nanos(50);
    let good = StagesMsg {
        free_mint: Some(window(100, 200, None, 1)),
        pre_sale: Some(window(200, 300, Some(coin(5, "ubtsg")), 2)),
        public_sale: window(300, 400, Some(coin(9, "ubtsg")), 3),
    };
    assert_eq!(good.to_stages().max_supply(), 6);
    assert_eq!(validate_stages(good.clone(), now), Ok(true));
    let only_public =
        StagesMsg { free_mint: None, pre_sale: None, public_sale: window(50, 51, None, 1) };
    assert_eq!(validate_stages(only_public, now), Ok(true));

    let invalid_date = Err(ContractError::InvalidDate {});
    // a window that is empty or lies in the past
    let mut bad = good.clone();
    bad.public_sale = window(300, 300, None, 3);
    assert_eq!(validate_stages(bad, now), invalid_date);
    let mut bad = good.clone();
    bad.free_mint = Some(window(49, 200, None, 1));
    assert_eq!(validate_stages(bad, now), invalid_date);
    // overlapping windows
    let mut bad = good.clone();
    bad.pre_sale = Some(window(199, 300, Some(coin(5, "ubtsg")), 2));
    assert_eq!(validate_stages(bad, now), invalid_date);
    let mut bad = good.clone();
    bad.public_sale = window(299, 400, Some(coin(9, "ubtsg")), 3);
    assert_eq!(validate_stages(bad, now), invalid_date);
    // without a pre-sale the public sale follows the free mint
    let mut bad = good.clone();
    bad.pre_sale = None;
    bad.public_sale = window(199, 400, Some(coin(9, "ubtsg")), 3);
    assert_eq!(validate_stages(bad, now), invalid_date);
    let mut fine = good.clone();
    fine.pre_sale = None;
    fine.public_sale = window(200, 400, Some(coin(9, "ubtsg")), 3);
    assert_eq!(validate_stages(fine, now), Ok(true));
    // a price of zero
    let mut bad = good.clone();
    bad.pre_sale = Some(window(200, 300, Some(coin(0, "ubtsg")), 2));
    assert_eq!(validate_stages(bad, now), Err(ContractError::InvalidUnitPrice {}));
    // no token at all; the public sale is looked at first
    let none = StagesMsg {
        free_mint: Some(window(100, 200, None, 0)),
        pre_sale: None,
        public_sale: window(300, 400, None, 0),
    };
    assert_eq!(validate_stages(none.clone(), now), Err(ContractError::StageInvalidMaxSupply {}));
    let mut bad = none;
    bad.public_sale = window(400, 300, None, 0);
    assert_eq!(validate_stages(bad, now), invalid_date);
}

#[test]
fn launchpad_errors_read_as_text() {
    assert_eq!(ContractError::StageSoldOut {}.to_string(), "Stage is sold out!");
    assert_eq!(ContractError::StageExpired {}.to_string(), "Start is expired");
    assert_eq!(
        ContractError::SellerFeeBasisPointsTooHigh {}.to_string(),
        "Basis points in seller fee cannot exceed 10000"
    );
    assert_eq!(
        ContractError::IncorrectPaymentAmount(coin(49, "ubtsg"), coin(50, "ubtsg")).to_string(),
        "IncorrectPaymentAmount 49ubtsg != 50ubtsg"
    );
    assert_eq!(
        ContractError::Std(StdError::not_found("cosmwasm_std::addresses::Addr")).to_string(),
        "cosmwasm_std::addresses::Addr not found"
    );
    assert_eq!(
        ContractError::Std(StdError::generic_err("boom")).to_string(),
        "Generic error: boom"
    );
}

#[test]
fn check_rejects_inconsistent_states() {
    let good = linked(sale(vec![free_stage(2), free_stage(3)]));
    assert!(good.check());
    let mut bad = good.clone();
    bad.stages_remaining = 4;
    assert!(!bad.check());
    let mut bad = good.clone();
    bad.stage_remaining[0] = 3;
    bad.stage_remaining[1] = 2;
    assert!(!bad.check());
    let mut bad = good.clone();
    bad.stage_counter = 3;
    assert!(!bad.check());
    let mut bad = good.clone();
    bad.nft_positions.entries.swap(0, 1);
    assert!(!bad.check());
    let mut bad = good.clone();
    bad.nft_positions.entries[0].token_id = bad.nft_positions.entries[1].token_id;
    assert!(!bad.check());
    let mut bad = good.clone();
    bad.nft_positions.entries[4].token_id = 6;
    assert!(!bad.check());
}

#[test]
fn payment_agrees_with_cw_utils_where_both_answer() {
    let cases: Vec<Vec<(u128, &str)>> = vec![
        vec![],
        vec![(7, "ubtsg")],
        vec![(0, "ubtsg")],
        vec![(7, "uatom")],
        vec![(7, "ubtsg"), (3, "uatom")],
        vec![(3, "uatom"), (7, "ubtsg")],
    ];
    for case in cases {
        let ours: Vec<Coin> = case.iter().map(|(a, d)| coin(*a, d)).collect();
        let theirs = cosmwasm_std::MessageInfo {
            sender: cosmwasm_std::Addr::unchecked("buyer"),
            funds: case.iter().map(|(a, d)| cosmwasm_std::coin(*a, *d)).collect(),
        };
        match (payment_in(&ours, &"ubtsg".to_string()), cw_utils::may_pay(&theirs, "ubtsg")) {
            (Ok(a), Ok(b)) => assert_eq!(a, b.u128()),
            (Err(sent), Err(cw_utils::PaymentError::ExtraDenom(denom))) => {
                assert_eq!(sent.denom, denom)
            }
            (a, b) => panic!("{:?} against {:?}", a, b),
        }
    }
}

#[test]
fn link_records_what_was_read_from_the_reply() {
    let (mut state, _) = set_up(mock_info("creator", &[]), sale(vec![free_stage(1)])).unwrap();
    let fresh = state.clone();
    assert_eq!(
        link_token_contract(&mut state, None).unwrap_err(),
        ContractError::InstantiateContractError {}
    );
    assert_eq!(state, fresh);
    let res = link_token_contract(&mut state, Some("token".to_string())).unwrap();
    assert_eq!(
        res.attributes,
        vec![attr("action", "instantiate_bs721_reply"), attr("nft_address", "token")]
    );
    assert_eq!(state, State { nft_address: Some(Addr::unchecked("token")), ..fresh });
    let linked = state.clone();
    assert_eq!(
        link_token_contract(&mut state, Some("other".to_string())).unwrap_err(),
        ContractError::BS721AlreadyLinked {}
    );
    assert_eq!(state, linked);
}

#[test]
fn reply_address_is_read_from_the_first_field() {
    assert_eq!(read_reply_address(instantiate_reply()), Some("nft_address".to_string()));
    let only_address = Reply {
        id: 9,
        result: SubMsgResult::Success(SubMsgResponse {
            data: Some(encode_instantiate_reply("abc", &[])),
        }),
    };
    assert_eq!(read_reply_address(only_address), Some("abc".to_string()));
    let cut_short = Reply {
        id: INSTANTIATE_REPLY_ID,
        result: SubMsgResult::Success(SubMsgResponse { data: Some(vec![0x0a, 0x05, b'a']) }),
    };
    assert_eq!(read_reply_address(cut_short), None);
    let no_text = Reply {
        id: INSTANTIATE_REPLY_ID,
        result: SubMsgResult::Success(SubMsgResponse { data: Some(vec![0x0a, 0x01, 0xff]) }),
    };
    assert_eq!(read_reply_address(no_text), None);
    let no_data = Reply {
        id: INSTANTIATE_REPLY_ID,
        result: SubMsgResult::Success(SubMsgResponse { data: None }),
    };
    assert_eq!(read_reply_address(no_data), None);
    let failed =
        Reply { id: INSTANTIATE_REPLY_ID, result: SubMsgResult::Failure("no".to_string()) };
    assert_eq!(read_reply_address(failed), None);
}

#[test]
fn shuffled_positions_fill_every_slot_once() {
    for total in [0u128, 1, 2, 5, 64, 1000] {
        let mut state = linked(sale(vec![free_stage(1)]));
        let seed = state.seed;
        let table = shuffled_positions(&mut state, &mock_env(), &Addr::unchecked("buyer"), total);
        assert_ne!(state.seed, seed);
        assert_eq!(table.len() as u128, total);
        assert!(table.is_valid(total));
        for (i, entry) in table.entries.iter().enumerate() {
            assert_eq!(entry.position, i as u128 + 1);
        }
        let mut tokens: Vec<u128> = table.entries.iter().map(|e| e.token_id).collect();
        tokens.sort();
        assert_eq!(tokens, (1..=total).collect::<Vec<u128>>());
        let mut expected: Vec<u128> = (1..=total).collect();
        expected.shuffle(&mut ChaCha20Rng::from_seed(seed));
        assert_eq!(table.entries.iter().map(|e| e.token_id).collect::<Vec<u128>>(), expected);
    }
}

#[test]
fn setup_with_more_stages_than_identifiers() {
    let good = || Ok(Addr::unchecked("creator"));
    let bad = || Err(StdError::generic_err("bad"));
    let many = |n: usize| sale((0..n).map(|_| free_stage(1)).collect());
    assert!(instantiate_admitted(&many(255), &good(), &Ok(None)));
    assert!(!instantiate_admitted(&many(256), &good(), &Ok(None)));
    // a request that is refused anyway is admitted, and refused
    assert!(instantiate_admitted(&many(256), &bad(), &Ok(None)));
    assert!(instantiate_admitted(&many(256), &good(), &Err(StdError::generic_err("pay"))));
    let high_fee = InstantiateMsg { seller_fee: 10_001, ..many(300) };
    assert!(instantiate_admitted(&high_fee, &good(), &Ok(None)));
    assert_eq!(
        instantiate(mock_env(), mock_info("creator", &[]), high_fee, good(), Ok(None)).unwrap_err(),
        ContractError::SellerFeeBasisPointsTooHigh {}
    );
    let mut empty_late = many(300);
    empty_late.stages[299].total_amount = 0;
    assert!(instantiate_admitted(&empty_late, &good(), &Ok(None)));
    assert_eq!(
        instantiate(mock_env(), mock_info("creator", &[]), empty_late, good(), Ok(None))
            .unwrap_err(),
        ContractError::StageInvalidSupply {}
    );
    let (state, _) =
        instantiate(mock_env(), mock_info("creator", &[]), many(255), good(), Ok(None)).unwrap();
    assert_eq!(state.stage_counter, 255);
    assert_eq!(state.nft_positions.len(), 255);
    assert!(state.check());
}

//! Entry points of the staged launchpad.

use vstd::prelude::*;
use crate::bs721_launchpad::error::ContractError;
use crate::bs721_launchpad::helpers::{
    map_stages, next_seed, pick_random_nft, shuffled_positions, TokenPositionMapping,
};
use crate::bs721_launchpad::msg::{
    ConfigResponse, ExecuteMsg, InstantiateMsg, QueryMsg, Stage, StageResponse,
};
use crate::bs721_launchpad::state::{
    after_draws, allocated, as_map, full_table, lemma_remove_from_map, lemma_remove_keeps_order,
    lemma_sum_push, lemma_sum_update, lemma_sum_zero, lemma_supply_push, pick_index, sum, supply,
    token_range, Config, PositionTable, State,
};
use crate::bs721_launchpad::validator::MAX_SELLER_FEE;
use crate::host::{
    clone_coins, clone_opt_addr, clone_opt_coin, clone_opt_string, read_reply_address,
    Addr, BankMsg,
    Coin, CosmosMsg, Env, MessageInfo, MintMsg, Reply, ReplyOn, Response, StdError, SubMsg,
    TokenInstantiateMsg, WasmMsg, WasmPayload,
};
use crate::random::{chacha20_first_word, chacha20_shuffled};
use crate::text::{decimal, trim, trimmed, u128_to_string};

verus! {

/// Name under which the contract records its version.
pub const CONTRACT_NAME: &'static str = "crates.io:bs721-launchpad";

/// Version that the contract records.
pub const CONTRACT_VERSION: &'static str = "0.1.0";

/// Code identifier of the companion token contract.
pub const INSTANTIATE_BS721_CODE_ID: u64 = 40;

/// Tag of the request that creates the companion token contract.
pub const INSTANTIATE_REPLY_ID: u64 = 1;

/// Whether some stage offers no token.
pub open spec fn has_empty_stage(stages: Seq<Stage>) -> bool {
    exists|i: int| 0 <= i < stages.len() && (#[trigger] stages[i]).total_amount == 0
}

/// Why a setup request is refused, if it is. The checks come in this
/// order: at least one stage, the seller fee bound, the administrator's
/// address, the payment address, and a positive supply in every stage.
pub open spec fn instantiate_refusal(
    msg: InstantiateMsg,
    admin: Result<Addr, StdError>,
    payment_address: Result<Option<Addr>, StdError>,
) -> Option<ContractError> {
    if msg.stages@.len() == 0 {
        Some(ContractError::StageRequired {})
    } else if msg.seller_fee > MAX_SELLER_FEE {
        Some(ContractError::SellerFeeBasisPointsTooHigh {})
    } else if admin is Err {
        Some(ContractError::Std(admin->Err_0))
    } else if payment_address is Err {
        Some(ContractError::Std(payment_address->Err_0))
    } else if has_empty_stage(msg.stages@) {
        Some(ContractError::StageInvalidSupply {})
    } else {
        None
    }
}

/// The seed with which every sale starts: thirty-two zero bytes.
pub open spec fn default_seed() -> Seq<u8> {
    Seq::new(32, |i: int| 0u8)
}

/// The request that creates the companion token contract: tagged with
/// `INSTANTIATE_REPLY_ID`, answered on success only, forwarding the
/// caller's funds, administered by `admin`, minted by this contract.
pub open spec fn is_token_instantiate(
    sub: SubMsg,
    env: Env,
    info: MessageInfo,
    msg: InstantiateMsg,
) -> bool {
    &&& sub.id == INSTANTIATE_REPLY_ID
    &&& sub.gas_limit is None
    &&& sub.reply_on == ReplyOn::Success
    &&& sub.msg matches CosmosMsg::Wasm(
        WasmMsg::Instantiate { admin, code_id, msg: payload, funds, label },
    )
    &&& admin == Some(msg.admin)
    &&& code_id == INSTANTIATE_BS721_CODE_ID
    &&& payload == WasmPayload::TokenInstantiate(
        TokenInstantiateMsg {
            name: msg.name,
            symbol: msg.symbol,
            minter: env.contract.address.0,
            uri: msg.collection_uri,
        },
    )
    &&& funds@ == info.funds@
    &&& label@ == "BS721-"@ + trimmed(msg.name@)
}

/// The attributes of a successful setup.
pub open spec fn instantiate_attrs(sender: Seq<char>) -> Seq<(Seq<char>, Seq<char>)> {
    seq![
        ("action"@, "instantiate"@),
        ("contract_name"@, CONTRACT_NAME@),
        ("contract_version"@, CONTRACT_VERSION@),
        ("sender"@, sender),
    ]
}

/// The state right after setup: the stages with their full supply, no
/// token contract linked yet, the successor of the default seed, and the
/// slots `1..=supply` holding the shuffled token identities `1..=supply`.
pub open spec fn is_initial_state(
    state: State,
    env: Env,
    msg: InstantiateMsg,
    admin: Addr,
    payment_address: Option<Addr>,
) -> bool {
    &&& state.config == Config {
        admin,
        name: msg.name,
        symbol: msg.symbol,
        collection_uri: msg.collection_uri,
        base_token_uri: msg.base_token_uri,
        seller_fee_bps: msg.seller_fee,
        payment_address,
    }
    &&& state.nft_address is None
    &&& state.seed@ == next_seed(default_seed(), env, admin@)
    &&& state.stages@ == msg.stages@
    &&& state.stage_remaining@ == Seq::new(
        msg.stages@.len(),
        |i: int| msg.stages@[i].total_amount as u128,
    )
    &&& state.stages_remaining == supply(msg.stages@)
    &&& state.stage_counter == msg.stages@.len()
    &&& state.nft_positions@ == PositionTable::numbered(
        chacha20_shuffled(default_seed(), token_range(supply(msg.stages@))),
    )
}

/// The full supply of every stage, and the total of them, or `None` when
/// some stage offers nothing.
fn stage_supplies(stages: &Vec<Stage>) -> (r: Option<(Vec<u128>, u128)>)
    ensures
        has_empty_stage(stages@) <==> r is None,
        r matches Some((remaining, total)) ==> {
            &&& remaining@ == Seq::new(stages@.len(), |i: int| stages@[i].total_amount as u128)
            &&& total == supply(stages@)
            &&& total == sum(remaining@)
        },
{
    let mut remaining: Vec<u128> = Vec::new();
    let mut stages_supply: u128 = 0;
    let mut i: usize = 0;
    while i < stages.len()
        invariant
            i <= stages.len(),
            forall|k: int| 0 <= k < i ==> (#[trigger] stages@[k]).total_amount != 0,
            remaining@ == Seq::new(i as nat, |k: int| stages@[k].total_amount as u128),
            stages_supply == supply(stages@.subrange(0, i as int)),
            stages_supply == sum(remaining@),
            stages_supply <= i * u32::MAX,
        decreases stages.len() - i,
    {
        if stages[i].total_amount == 0 {
            return None;
        }
        proof {
            lemma_supply_push(stages@.subrange(0, i as int), stages@[i as int]);
            assert(stages@.subrange(0, i as int).push(stages@[i as int]) =~= stages@.subrange(
                0,
                i as int + 1,
            ));
            lemma_sum_push(remaining@, stages@[i as int].total_amount as u128);
            assert(i * u32::MAX + u32::MAX == (i + 1) * u32::MAX) by (nonlinear_arith);
            assert(i * u32::MAX <= usize::MAX * u32::MAX) by (nonlinear_arith)
                requires
                    i <= usize::MAX,
            ;
        }
        stages_supply = stages_supply + stages[i].total_amount as u128;
        remaining.push(stages[i].total_amount as u128);
        assert(remaining@ =~= Seq::new(
            (i + 1) as nat,
            |k: int| stages@[k].total_amount as u128,
        ));
        i = i + 1;
    }
    assert(stages@.subrange(0, i as int) =~= stages@);
    Some((remaining, stages_supply))
}

/// Whether a sale can be set up as asked: either the request is refused,
/// or its stages are few enough to be numbered by a stage identifier.
pub fn instantiate_admitted(
    msg: &InstantiateMsg,
    admin: &Result<Addr, StdError>,
    payment_address: &Result<Option<Addr>, StdError>,
) -> (ok: bool)
    ensures
        ok == (instantiate_refusal(*msg, *admin, *payment_address) is None ==> msg.stages@.len()
            <= u8::MAX),
{
    if msg.stages.len() <= 255 {
        return true;
    }
    if msg.seller_fee > MAX_SELLER_FEE {
        return true;
    }
    match admin {
        Ok(_) => {},
        Err(_) => {
            return true;
        },
    }
    match payment_address {
        Ok(_) => {},
        Err(_) => {
            return true;
        },
    }
    stage_supplies(&msg.stages).is_none()
}

/// Sets up a sale: records the parameters and the stages, shuffles the
/// token identities `1..=supply` into the slots `1..=supply` with a stream
/// derived for the administrator, and asks the host to create the
/// companion token contract.
///
/// `admin` and `payment_address` are the host's verdicts on the addresses
/// named in `msg`.
pub fn instantiate(
    env: Env,
    info: MessageInfo,
    msg: InstantiateMsg,
    admin: Result<Addr, StdError>,
    payment_address: Result<Option<Addr>, StdError>,
) -> (r: Result<(State, Response), ContractError>)
    requires
        instantiate_refusal(msg, admin, payment_address) is None ==> msg.stages@.len() <= u8::MAX,
    ensures
        match instantiate_refusal(msg, admin, payment_address) {
            Some(e) => r == Err::<(State, Response), ContractError>(e),
            None => r matches Ok((state, resp)) && {
                &&& is_initial_state(state, env, msg, admin->Ok_0, payment_address->Ok_0)
                &&& state.wf()
                &&& full_table(state.nft_positions@, supply(msg.stages@))
                &&& resp.attrs() == instantiate_attrs(info.sender@)
                &&& resp.messages@.len() == 1
                &&& is_token_instantiate(resp.messages@[0], env, info, msg)
            },
        },
{
    if msg.stages.len() == 0 {
        return Err(ContractError::StageRequired {});
    }
    if msg.seller_fee > MAX_SELLER_FEE {
        return Err(ContractError::SellerFeeBasisPointsTooHigh {});
    }
    let admin = match admin {
        Ok(a) => a,
        Err(e) => {
            return Err(ContractError::Std(e));
        },
    };
    let payment_address = match payment_address {
        Ok(a) => a,
        Err(e) => {
            return Err(ContractError::Std(e));
        },
    };
    let (stage_remaining, stages_supply) = match stage_supplies(&msg.stages) {
        Some(s) => s,
        None => {
            return Err(ContractError::StageInvalidSupply {});
        },
    };
    let stage_counter: u8 = msg.stages.len() as u8;
    let label = String::from_str("BS721-").concat(trim(msg.name.as_str()));
    let payload = WasmPayload::TokenInstantiate(
        TokenInstantiateMsg {
            name: msg.name.clone(),
            symbol: msg.symbol.clone(),
            minter: env.contract.address.to_string(),
            uri: clone_opt_string(&msg.collection_uri),
        },
    );
    let sub_msg = SubMsg {
        msg: CosmosMsg::Wasm(
            WasmMsg::Instantiate {
                code_id: INSTANTIATE_BS721_CODE_ID,
                msg: payload,
                funds: clone_coins(&info.funds),
                admin: Some(msg.admin.clone()),
                label,
            },
        ),
        id: INSTANTIATE_REPLY_ID,
        gas_limit: None,
        reply_on: ReplyOn::Success,
    };
    let default_seed_bytes: [u8; 32] = [0u8; 32];
    assert(default_seed_bytes@ =~= default_seed());
    let sender = admin.clone();
    let mut state = State {
        config: Config {
            admin,
            name: msg.name,
            symbol: msg.symbol,
            collection_uri: msg.collection_uri,
            base_token_uri: msg.base_token_uri,
            seller_fee_bps: msg.seller_fee,
            payment_address,
        },
        nft_address: None,
        seed: default_seed_bytes,
        stages: msg.stages,
        stage_remaining,
        stages_remaining: stages_supply,
        stage_counter,
        nft_positions: PositionTable { entries: Vec::new() },
    };
    state.nft_positions = shuffled_positions(&mut state, &env, &sender, stages_supply);
    let resp = Response::new().add_attribute("action", String::from_str("instantiate")).add_attribute(
        "contract_name",
        String::from_str(CONTRACT_NAME),
    ).add_attribute("contract_version", String::from_str(CONTRACT_VERSION)).add_attribute(
        "sender",
        info.sender.to_string(),
    ).add_submessage(sub_msg);
    assert(resp.attrs() =~= instantiate_attrs(info.sender@));
    Ok((state, resp))
}

/// What counts as paid towards a price in `denom`: nothing sent counts as
/// zero, a single coin of that denomination as its amount, and anything
/// else does not count at all.
pub open spec fn paid(funds: Seq<Coin>, denom: Seq<char>) -> Option<u128> {
    if funds.len() == 0 {
        Some(0u128)
    } else if funds.len() == 1 && funds[0].denom@ == denom {
        Some(funds[0].amount)
    } else {
        None
    }
}

/// Whether `funds[i]` is the first coin of a denomination other than `denom`.
pub open spec fn is_first_other(funds: Seq<Coin>, denom: Seq<char>, i: int) -> bool {
    &&& 0 <= i < funds.len()
    &&& funds[i].denom@ != denom
    &&& forall|j: int| 0 <= j < i ==> (#[trigger] funds[j]).denom@ == denom
}

/// The coin that is reported when what was sent does not count as a
/// payment: the first coin of another denomination, or the first coin when
/// all are of the right one.
pub open spec fn rejected_coin(funds: Seq<Coin>, denom: Seq<char>) -> Coin
    recommends
        funds.len() > 0,
{
    if exists|i: int| is_first_other(funds, denom, i) {
        funds[choose|i: int| is_first_other(funds, denom, i)]
    } else {
        funds[0]
    }
}

/// The amount paid towards a price in `denom`, or the coin to report when
/// what was sent does not count as a payment.
pub fn payment_in(funds: &Vec<Coin>, denom: &String) -> (r: Result<u128, Coin>)
    ensures
        match paid(funds@, denom@) {
            Some(amount) => r == Ok::<u128, Coin>(amount),
            None => r == Err::<u128, Coin>(rejected_coin(funds@, denom@)),
        },
{
    if funds.len() == 0 {
        return Ok(0);
    }
    if funds.len() == 1 && funds[0].denom == *denom {
        return Ok(funds[0].amount);
    }
    let mut i: usize = 0;
    while i < funds.len()
        invariant
            i <= funds.len(),
            forall|j: int| 0 <= j < i ==> (#[trigger] funds@[j]).denom@ == denom@,
        decreases funds.len() - i,
    {
        if funds[i].denom != *denom {
            proof {
                assert(is_first_other(funds@, denom@, i as int));
                let c = choose|c: int| is_first_other(funds@, denom@, c);
                assert(c == i) by {
                    if c < i {
                        assert(funds@[c].denom@ == denom@);
                    }
                    if i < c {
                        assert(funds@[i as int].denom@ == denom@);
                    }
                }
            }
            return Err(funds[i].clone());
        }
        i = i + 1;
    }
    proof {
        assert forall|c: int| !is_first_other(funds@, denom@, c) by {
            if 0 <= c < funds@.len() {
                assert(funds@[c].denom@ == denom@);
            }
        }
    }
    Err(funds[0].clone())
}

/// The stage that a mint names by `stage_id`: stages are numbered from one
/// in the order in which they were set up.
pub open spec fn stage_of(state: State, stage_id: u8) -> Option<Stage> {
    if 1 <= stage_id <= state.stages@.len() {
        Some(state.stages@[stage_id - 1])
    } else {
        None
    }
}

/// Whether a stage sells in `block`: it has begun, has not expired, and
/// has supply left.
pub open spec fn stage_active(stage: Stage, remaining: u128, block: crate::host::BlockInfo) -> bool {
    &&& stage.start matches Some(start) ==> start.triggered_in(block)
    &&& stage.expiration matches Some(end) ==> !end.expired_in(block)
    &&& remaining > 0
}

/// Reasons for which a mint is refused.
pub enum MintRefusal {
    StageNotFound,
    StageNotBegun,
    StageExpired,
    StageSoldOut,
    IncorrectPayment,
    NotLinked,
}

/// Why a mint is refused, if it is. The checks come in this order: the
/// stage exists, it has begun, it has not expired, it has supply left,
/// the payment equals its price, and the token contract is linked.
pub open spec fn mint_refusal(
    state: State,
    env: Env,
    info: MessageInfo,
    stage_id: u8,
) -> Option<MintRefusal> {
    match stage_of(state, stage_id) {
        None => Some(MintRefusal::StageNotFound),
        Some(stage) => {
            if stage.start matches Some(start) && !start.triggered_in(env.block) {
                Some(MintRefusal::StageNotBegun)
            } else if stage.expiration matches Some(end) && end.expired_in(env.block) {
                Some(MintRefusal::StageExpired)
            } else if state.stage_remaining@[stage_id - 1] == 0 {
                Some(MintRefusal::StageSoldOut)
            } else if stage.price matches Some(price) && paid(info.funds@, price.denom@)
                != Some(price.amount) {
                Some(MintRefusal::IncorrectPayment)
            } else if state.nft_address is None {
                Some(MintRefusal::NotLinked)
            } else {
                None
            }
        },
    }
}

/// The error with which a refused mint ends.
pub open spec fn is_mint_error(
    e: ContractError,
    refusal: MintRefusal,
    state: State,
    info: MessageInfo,
    stage_id: u8,
) -> bool {
    match refusal {
        MintRefusal::StageNotFound => e == ContractError::StageNotFound {},
        MintRefusal::StageNotBegun => e == ContractError::StageNotBegun {},
        MintRefusal::StageExpired => e == ContractError::StageExpired {},
        MintRefusal::StageSoldOut => e == ContractError::StageSoldOut {},
        MintRefusal::IncorrectPayment => {
            let price = state.stages@[stage_id - 1].price->Some_0;
            &&& e matches ContractError::IncorrectPaymentAmount(sent, wanted)
            &&& wanted == price
            &&& sent == match paid(info.funds@, price.denom@) {
                Some(amount) => Coin { denom: price.denom, amount },
                None => rejected_coin(info.funds@, price.denom@),
            }
        },
        MintRefusal::NotLinked => {
            e matches ContractError::Std(StdError::NotFound { kind }) && kind@
                == "cosmwasm_std::addresses::Addr"@
        },
    }
}

/// Who receives the proceeds: the payment address, or the administrator
/// when none was set.
pub open spec fn payee(config: Config) -> Addr {
    match config.payment_address {
        Some(a) => a,
        None => config.admin,
    }
}

/// The request to the token contract to mint `token_id` to the buyer.
pub open spec fn is_mint_msg(sub: SubMsg, state: State, buyer: Addr, token_id: u128) -> bool {
    &&& sub.id == SubMsg::unused_id()
    &&& sub.gas_limit is None
    &&& sub.reply_on == ReplyOn::Never
    &&& sub.msg matches CosmosMsg::Wasm(WasmMsg::Execute { contract_addr, msg: payload, funds })
    &&& Some(Addr(contract_addr)) == state.nft_address
    &&& funds@.len() == 0
    &&& payload matches WasmPayload::TokenMint(mint)
    &&& mint.token_id@ == decimal(token_id as nat)
    &&& mint.owner == buyer.0
    &&& mint.token_uri matches Some(uri)
    &&& uri@ == state.config.base_token_uri@ + "/"@ + decimal(token_id as nat)
    &&& mint.seller_fee == state.config.seller_fee_bps
    &&& mint.payment_address == Some(payee(state.config).0)
}

/// The transfer that forwards the price of a token to the payee.
pub open spec fn is_payout_msg(sub: SubMsg, state: State, price: Coin) -> bool {
    &&& sub.id == SubMsg::unused_id()
    &&& sub.gas_limit is None
    &&& sub.reply_on == ReplyOn::Never
    &&& sub.msg matches CosmosMsg::Bank(BankMsg::Send { to_address, amount })
    &&& to_address == payee(state.config).0
    &&& amount@ == seq![price]
}

/// The attributes of a successful mint.
pub open spec fn mint_attrs(price: Option<Coin>, buyer: Seq<char>, token_id: u128) -> Seq<
    (Seq<char>, Seq<char>),
> {
    seq![
        (
            "price"@,
            match price {
                Some(c) => c.text(),
                None => "0"@,
            },
        ),
        ("action"@, "execute_mint"@),
        ("sender"@, buyer),
        ("recipient"@, buyer),
        ("token_id"@, decimal(token_id as nat)),
    ]
}

/// The entry of the table that the next mint takes, given the seed.
pub open spec fn next_pick(state: State) -> int {
    pick_index(state.stages_remaining as nat, chacha20_first_word(state.seed@))
}

/// How a successful mint from stage `stage_id` changes the state: the
/// chosen slot leaves the table, the stage and the sale have one token
/// less, the seed moves on, and all else stays.
pub open spec fn is_minted_state(
    before: State,
    after: State,
    env: Env,
    buyer: Addr,
    stage_id: u8,
) -> bool {
    &&& after.config == before.config
    &&& after.nft_address == before.nft_address
    &&& after.stages == before.stages
    &&& after.stage_counter == before.stage_counter
    &&& after.seed@ == next_seed(before.seed@, env, buyer@)
    &&& after.nft_positions@ == before.nft_positions@.remove(next_pick(before))
    &&& after.stage_remaining@ == before.stage_remaining@.update(
        stage_id - 1,
        (before.stage_remaining@[stage_id - 1] - 1) as u128,
    )
    &&& after.stages_remaining == before.stages_remaining - 1
}

/// What a successful mint hands back: the mint request for the chosen
/// token, then, for a priced stage, the transfer of the price.
pub open spec fn is_mint_response(
    resp: Response,
    before: State,
    info: MessageInfo,
    stage_id: u8,
) -> bool {
    let token_id = before.nft_positions@[next_pick(before)].token_id;
    let price = before.stages@[stage_id - 1].price;
    &&& resp.attrs() == mint_attrs(price, info.sender@, token_id)
    &&& resp.messages@.len() == if price is Some {
        2int
    } else {
        1int
    }
    &&& is_mint_msg(resp.messages@[0], before, info.sender, token_id)
    &&& price matches Some(c) ==> is_payout_msg(resp.messages@[1], before, c)
}

/// A mint gets past the checks on its stage exactly when the stage exists
/// and is active: it is then refused only for its payment or for want of
/// a token contract.
pub proof fn lemma_active_stage_sells(state: State, env: Env, info: MessageInfo, stage_id: u8)
    ensures
        (stage_of(state, stage_id) matches Some(stage) && stage_active(
            stage,
            state.stage_remaining@[stage_id - 1],
            env.block,
        )) <==> (mint_refusal(state, env, info, stage_id) is None || (mint_refusal(
            state,
            env,
            info,
            stage_id,
        ) matches Some(refusal) && (refusal is IncorrectPayment || refusal is NotLinked))),
{
}

/// Once the last token is sold, every further mint is refused: a mint
/// from a stage that exists, has begun and has not expired is refused as
/// sold out.
pub proof fn lemma_sold_out_when_empty(state: State, env: Env, info: MessageInfo, stage_id: u8)
    requires
        state.wf(),
        state.nft_positions@.len() == 0,
    ensures
        mint_refusal(state, env, info, stage_id) is Some,
        mint_refusal(state, env, info, stage_id) matches Some(refusal) && (refusal
            is StageNotFound || refusal is StageNotBegun || refusal is StageExpired || refusal
            is StageSoldOut),
{
    lemma_sum_zero(state.stage_remaining@);
}

/// A mint takes exactly the entry that a single draw takes from the
/// table: what is left after a successful mint is what `after_draws`
/// leaves after the one word drawn for it, and what was handed out is
/// what `allocated` lists.
pub proof fn lemma_mint_is_one_draw(before: State, after: State, env: Env, buyer: Addr, stage_id: u8)
    requires
        before.wf(),
        before.stages_remaining > 0,
        is_minted_state(before, after, env, buyer, stage_id),
    ensures
        after.nft_positions@ == after_draws(
            before.nft_positions@,
            seq![chacha20_first_word(before.seed@)],
        ),
        allocated(before.nft_positions@, seq![chacha20_first_word(before.seed@)]) == seq![
            before.nft_positions@[next_pick(before)],
        ],
        as_map(after.nft_positions@) == as_map(before.nft_positions@).remove(
            before.nft_positions@[next_pick(before)].position,
        ),
{
    lemma_remove_from_map(before.nft_positions@, next_pick(before));
    let draws = seq![chacha20_first_word(before.seed@)];
    let table = before.nft_positions@;
    assert(draws.drop_last() =~= Seq::<u32>::empty());
    assert(after_draws(table, draws.drop_last()) == table);
    assert(allocated(table, draws.drop_last()) =~= Seq::<TokenPositionMapping>::empty());
    assert(allocated(table, draws) =~= seq![table[next_pick(before)]]);
}

/// Sells one token from the stage `stage_id` to the caller. A refusal
/// leaves the state as it was.
pub fn execute_mint(
    state: &mut State,
    env: Env,
    info: MessageInfo,
    stage_id: u8,
    _proofs: Option<Vec<String>>,
) -> (r: Result<Response, ContractError>)
    requires
        old(state).wf(),
    ensures
        final(state).wf(),
        match mint_refusal(*old(state), env, info, stage_id) {
            Some(refusal) => r matches Err(e) && is_mint_error(
                e,
                refusal,
                *old(state),
                info,
                stage_id,
            ) && *final(state) == *old(state),
            None => r matches Ok(resp) && is_mint_response(resp, *old(state), info, stage_id)
                && is_minted_state(*old(state), *final(state), env, info.sender, stage_id),
        },
{
    if stage_id == 0 || stage_id as usize > state.stages.len() {
        return Err(ContractError::StageNotFound {});
    }
    let at: usize = (stage_id - 1) as usize;
    if let Some(start) = state.stages[at].start {
        if !start.is_triggered(&env.block) {
            return Err(ContractError::StageNotBegun {});
        }
    }
    if let Some(expiration) = state.stages[at].expiration {
        if expiration.is_expired(&env.block) {
            return Err(ContractError::StageExpired {});
        }
    }
    let stage_remaining: u128 = state.stage_remaining[at];
    if stage_remaining == 0 {
        return Err(ContractError::StageSoldOut {});
    }
    let price = clone_opt_coin(&state.stages[at].price);
    if let Some(stage_price) = &price {
        match payment_in(&info.funds, &stage_price.denom) {
            Ok(payment) => {
                if payment != stage_price.amount {
                    return Err(
                        ContractError::IncorrectPaymentAmount(
                            Coin { denom: stage_price.denom.clone(), amount: payment },
                            stage_price.clone(),
                        ),
                    );
                }
            },
            Err(sent) => {
                return Err(ContractError::IncorrectPaymentAmount(sent, stage_price.clone()));
            },
        }
    }
    let nft_address = match &state.nft_address {
        Some(a) => a.to_string(),
        None => {
            return Err(
                ContractError::Std(StdError::not_found("cosmwasm_std::addresses::Addr")),
            );
        },
    };
    let payment_address = match &state.config.payment_address {
        Some(a) => a.to_string(),
        None => state.config.admin.to_string(),
    };
    proof {
        lemma_sum_update(old(state).stage_remaining@, at as int, (stage_remaining - 1) as u128);
    }
    let mintable_token_mapping = match pick_random_nft(state, &env, &info.sender) {
        Ok(m) => m,
        Err(e) => {
            return Err(e);
        },
    };
    let ghost picked = next_pick(*old(state));
    let token_id = u128_to_string(mintable_token_mapping.token_id);
    let token_uri = state.config.base_token_uri.clone().concat("/").concat(token_id.as_str());
    let mint_msg = MintMsg {
        token_id: token_id.clone(),
        token_uri: Some(token_uri),
        owner: info.sender.to_string(),
        seller_fee: state.config.seller_fee_bps,
        payment_address: Some(payment_address.clone()),
    };
    let msg = CosmosMsg::Wasm(
        WasmMsg::Execute {
            contract_addr: nft_address,
            msg: WasmPayload::TokenMint(mint_msg),
            funds: Vec::new(),
        },
    );
    let mut response = Response::new();
    response = response.add_message(msg);

    state.nft_positions.remove(mintable_token_mapping.position);
    state.stage_remaining.set(at, stage_remaining - 1);
    state.stages_remaining = state.stages_remaining - 1;
    proof {
        lemma_remove_keeps_order(old(state).nft_positions@, picked);
    }

    match price {
        Some(price) => {
            let price_text = price.to_string();
            let mut amount: Vec<Coin> = Vec::new();
            amount.push(price);
            response = response.add_message(
                CosmosMsg::Bank(BankMsg::Send { to_address: payment_address, amount }),
            );
            response = response.add_attribute("price", price_text);
        },
        None => {
            response = response.add_attribute("price", String::from_str("0"));
        },
    }
    let response = response.add_attribute("action", String::from_str("execute_mint")).add_attribute(
        "sender",
        info.sender.to_string(),
    ).add_attribute("recipient", info.sender.to_string()).add_attribute("token_id", token_id);
    proof {
        let token = old(state).nft_positions@[picked].token_id;
        assert(response.attrs() =~= mint_attrs(
            old(state).stages@[at as int].price,
            info.sender@,
            token,
        ));
    }
    Ok(response)
}

/// Dispatches a request that changes the state.
pub fn execute(state: &mut State, env: Env, info: MessageInfo, msg: ExecuteMsg) -> (r: Result<
    Response,
    ContractError,
>)
    requires
        old(state).wf(),
    ensures
        final(state).wf(),
        msg matches ExecuteMsg::Mint { stage, proofs } && match mint_refusal(
            *old(state),
            env,
            info,
            stage,
        ) {
            Some(refusal) => r matches Err(e) && is_mint_error(
                e,
                refusal,
                *old(state),
                info,
                stage,
            ) && *final(state) == *old(state),
            None => r matches Ok(resp) && is_mint_response(resp, *old(state), info, stage)
                && is_minted_state(*old(state), *final(state), env, info.sender, stage),
        },
{
    match msg {
        ExecuteMsg::Mint { stage, proofs } => execute_mint(state, env, info, stage, proofs),
    }
}

/// The attributes of a successful link to the token contract.
pub open spec fn link_attrs(nft_address: Seq<char>) -> Seq<(Seq<char>, Seq<char>)> {
    seq![("action"@, "instantiate_bs721_reply"@), ("nft_address"@, nft_address)]
}

/// How a link to the token contract at `address` changes the state and
/// what it hands back: the state was not linked, now holds that address,
/// and is otherwise as before; the response names the address.
pub open spec fn is_linked_to(
    before: State,
    after: State,
    resp: Response,
    address: Seq<char>,
) -> bool {
    &&& !before.linked()
    &&& after.nft_address matches Some(a)
    &&& a@ == address
    &&& resp.attrs() == link_attrs(address)
    &&& resp.messages@.len() == 0
    &&& after == (State { nft_address: after.nft_address, ..before })
}

/// Records the address read from the reply to the request that creates
/// the token contract, `None` standing for a reply that could not be
/// read. A state that is linked already refuses; a reply that could not
/// be read is an error; an address that was read is recorded as the
/// token contract. A refusal changes nothing.
pub fn link_token_contract(state: &mut State, parsed: Option<String>) -> (r: Result<
    Response,
    ContractError,
>)
    ensures
        old(state).linked() ==> (r matches Err(ContractError::BS721AlreadyLinked {}))
            && *final(state) == *old(state),
        !old(state).linked() && parsed is None ==> (r matches Err(
            ContractError::InstantiateContractError {},
        )) && *final(state) == *old(state),
        !old(state).linked() && parsed is Some ==> (r matches Ok(resp) && is_linked_to(
            *old(state),
            *final(state),
            resp,
            parsed->Some_0@,
        )) && final(state).nft_address == Some(Addr(parsed->Some_0)),
        old(state).wf() ==> final(state).wf(),
{
    if let Some(nft_address) = &state.nft_address {
        if nft_address.as_str().unicode_len() != 0 {
            return Err(ContractError::BS721AlreadyLinked {});
        }
    }
    match parsed {
        Some(contract_address) => {
            state.nft_address = Some(Addr(contract_address.clone()));
            let resp = Response::new().add_attribute(
                "action",
                String::from_str("instantiate_bs721_reply"),
            ).add_attribute("nft_address", contract_address);
            assert(resp.attrs() =~= link_attrs(parsed->Some_0@));
            Ok(resp)
        },
        None => Err(ContractError::InstantiateContractError {}),
    }
}

/// What handling the reply to the request that creates the token
/// contract comes to: a state that is linked already refuses; a reply
/// from which no address can be read is an error; otherwise the address
/// read is linked. A refusal changes nothing.
pub open spec fn is_reply_outcome(
    r: Result<Response, ContractError>,
    before: State,
    after: State,
    msg: Reply,
) -> bool {
    if before.linked() {
        r == Err::<Response, ContractError>(ContractError::BS721AlreadyLinked {}) && after
            == before
    } else {
        match msg.address() {
            Some(a) => r matches Ok(resp) && is_linked_to(before, after, resp, a),
            None => r == Err::<Response, ContractError>(
                ContractError::InstantiateContractError {},
            ) && after == before,
        }
    }
}

/// Handles the reply to the request that creates the token contract: the
/// address it carries is linked, once.
pub fn handle_instantiate_reply(state: &mut State, msg: Reply) -> (r: Result<
    Response,
    ContractError,
>)
    ensures
        is_reply_outcome(r, *old(state), *final(state), msg),
        old(state).wf() ==> final(state).wf(),
{
    if let Some(nft_address) = &state.nft_address {
        if nft_address.as_str().unicode_len() != 0 {
            return Err(ContractError::BS721AlreadyLinked {});
        }
    }
    let response = read_reply_address(msg);
    link_token_contract(state, response)
}

/// Handles a reply from the host. Only the request that creates the token
/// contract asks for one; a reply with any other tag is refused and
/// changes nothing.
pub fn reply(state: &mut State, _env: Env, msg: Reply) -> (r: Result<Response, ContractError>)
    ensures
        msg.id != INSTANTIATE_REPLY_ID ==> (r matches Err(ContractError::UnknownReplyId {}))
            && *final(state) == *old(state),
        msg.id == INSTANTIATE_REPLY_ID ==> is_reply_outcome(r, *old(state), *final(state), msg),
        old(state).wf() ==> final(state).wf(),
{
    if msg.id == INSTANTIATE_REPLY_ID {
        handle_instantiate_reply(state, msg)
    } else {
        Err(ContractError::UnknownReplyId {})
    }
}

/// The summaries of `stages`, numbered from one.
pub open spec fn stage_summaries(stages: Seq<Stage>) -> Seq<StageResponse> {
    Seq::new(
        stages.len(),
        |i: int|
            StageResponse {
                id: (i + 1) as u8,
                merkle_root: stages[i].merkle_root,
                start: stages[i].start,
                expiration: stages[i].expiration,
                price: stages[i].price,
                total_amount: stages[i].total_amount,
            },
    )
}

/// The answer to a request for the configuration: before the token
/// contract is linked, the error that its address was not found;
/// afterwards the sale parameters, that address and the stage summaries.
pub open spec fn is_config_answer(r: Result<ConfigResponse, StdError>, state: State) -> bool {
    match state.nft_address {
        None => r matches Err(StdError::NotFound { kind }) && kind@
            == "cosmwasm_std::addresses::Addr"@,
        Some(nft_address) => r matches Ok(c) && {
            &&& c.nft_address == nft_address
            &&& c.admin == state.config.admin
            &&& c.payment_address == state.config.payment_address
            &&& c.name == state.config.name
            &&& c.symbol == state.config.symbol
            &&& c.collection_uri == state.config.collection_uri
            &&& c.base_token_uri == state.config.base_token_uri
            &&& c.seller_fee_bps == state.config.seller_fee_bps
            &&& c.stages@ == stage_summaries(state.stages@)
        },
    }
}

/// The sale parameters, the linked token contract and a summary of every
/// stage. Before the token contract is linked there is nothing to show.
pub fn query_config(state: &State) -> (r: Result<ConfigResponse, StdError>)
    requires
        state.wf(),
    ensures
        is_config_answer(r, *state),
{
    let nft_address = match &state.nft_address {
        Some(a) => a.clone(),
        None => {
            return Err(StdError::not_found("cosmwasm_std::addresses::Addr"));
        },
    };
    let mut stages: Vec<StageResponse> = Vec::new();
    let mut i: usize = 0;
    while i < state.stages.len()
        invariant
            i <= state.stages.len() <= u8::MAX,
            stages@ == stage_summaries(state.stages@).subrange(0, i as int),
        decreases state.stages.len() - i,
    {
        let item = map_stages(Ok(((i + 1) as u8, state.stages[i].clone())));
        match item {
            Ok(summary) => {
                stages.push(summary);
            },
            Err(e) => {
                return Err(e);
            },
        }
        i = i + 1;
    }
    assert(stages@ =~= stage_summaries(state.stages@));
    Ok(
        ConfigResponse {
            nft_address,
            admin: state.config.admin.clone(),
            payment_address: clone_opt_addr(&state.config.payment_address),
            name: state.config.name.clone(),
            symbol: state.config.symbol.clone(),
            collection_uri: clone_opt_string(&state.config.collection_uri),
            base_token_uri: state.config.base_token_uri.clone(),
            seller_fee_bps: state.config.seller_fee_bps,
            stages,
        },
    )
}

/// Answers a read-only request.
pub fn query(state: &State, _env: Env, msg: QueryMsg) -> (r: Result<ConfigResponse, StdError>)
    requires
        state.wf(),
    ensures
        is_config_answer(r, *state),
{
    match msg {
        QueryMsg::Config {} => query_config(state),
    }
}

} // verus!

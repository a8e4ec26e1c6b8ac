//! Entry points of the single-price launchpad.

use vstd::prelude::*;
use crate::host::{
    clone_opt_addr, clone_opt_string, read_reply_address, Addr, CosmosMsg,
    Env, MessageInfo, Reply, ReplyOn, Response, StdError, SubMsg, TokenInstantiateMsg, WasmMsg,
    WasmPayload,
};
use crate::launchpad::error::ContractError;
use crate::launchpad::msg::{ConfigResponse, InstantiateMsg, QueryMsg};
use crate::launchpad::state::{Config, State};
use crate::text::{trim, trimmed};

verus! {

/// Name under which the contract records its version.
pub const CONTRACT_NAME: &'static str = "crates.io:bs721-launchpad";

/// Version that the contract records.
pub const CONTRACT_VERSION: &'static str = "0.1.0";

/// Code identifier of the companion token contract.
pub const INSTANTIATE_BS721_CODE_ID: u64 = 11;

/// Tag of the request that creates the companion token contract.
pub const INSTANTIATE_REPLY_ID: u64 = 1;

/// Why a setup request is refused, if it is. The checks come in this
/// order: the owner's address, the payment address, a positive price,
/// and a positive number of tokens.
pub open spec fn instantiate_refusal(
    msg: InstantiateMsg,
    owner: Result<Addr, StdError>,
    payment_addr: Result<Option<Addr>, StdError>,
) -> Option<ContractError> {
    if owner is Err {
        Some(ContractError::Std(owner->Err_0))
    } else if payment_addr is Err {
        Some(ContractError::Std(payment_addr->Err_0))
    } else if msg.mint_cost.amount == 0 {
        Some(ContractError::InvalidUnitPrice {})
    } else if msg.nft_limit == 0 {
        Some(ContractError::InvalidNftLimit {})
    } else {
        None
    }
}

/// The request that creates the companion token contract: tagged with
/// `INSTANTIATE_REPLY_ID`, answered on success only, carrying no funds,
/// administered by the owner, minted by this contract.
pub open spec fn is_token_instantiate(sub: SubMsg, env: Env, msg: InstantiateMsg) -> bool {
    &&& sub.id == INSTANTIATE_REPLY_ID
    &&& sub.gas_limit is None
    &&& sub.reply_on == ReplyOn::Success
    &&& sub.msg matches CosmosMsg::Wasm(
        WasmMsg::Instantiate { admin, code_id, msg: payload, funds, label },
    )
    &&& admin == Some(msg.owner)
    &&& code_id == INSTANTIATE_BS721_CODE_ID
    &&& payload == WasmPayload::TokenInstantiate(
        TokenInstantiateMsg {
            name: msg.name,
            symbol: msg.symbol,
            minter: env.contract.address.0,
            uri: msg.uri,
        },
    )
    &&& funds@.len() == 0
    &&& label@ == "BS721-"@ + trimmed(msg.name@)
}

/// The attributes of a successful setup.
pub open spec fn instantiate_attrs(sender: Seq<char>) -> Seq<(Seq<char>, Seq<char>)> {
    seq![
        ("action"@, "instantiate"@),
        ("contract_name"@, CONTRACT_NAME@),
        ("contract_version"@, CONTRACT_VERSION@),
        ("sender"@, sender),
    ]
}

/// Sets up a sale: records its parameters and asks the host to create
/// the companion token contract.
///
/// `owner` and `payment_addr` are the host's verdicts on the addresses
/// named in `msg`.
pub fn instantiate(
    env: Env,
    info: MessageInfo,
    msg: InstantiateMsg,
    owner: Result<Addr, StdError>,
    payment_addr: Result<Option<Addr>, StdError>,
) -> (r: Result<(State, Response), ContractError>)
    ensures
        match instantiate_refusal(msg, owner, payment_addr) {
            Some(e) => r == Err::<(State, Response), ContractError>(e),
            None => r matches Ok((state, resp)) && {
                &&& state.config == Config {
                    owner: owner->Ok_0,
                    payment_addr: payment_addr->Ok_0,
                    mint_cost: msg.mint_cost,
                    name: msg.name,
                    symbol: msg.symbol,
                    uri: msg.uri,
                    base_token_uri: msg.base_token_uri,
                    nft_limit: msg.nft_limit,
                    limit_per_address: msg.limit_per_address,
                }
                &&& state.mintable_nft_limit == msg.nft_limit
                &&& state.nft_address is None
                &&& resp.attrs() == instantiate_attrs(info.sender@)
                &&& resp.messages@.len() == 1
                &&& is_token_instantiate(resp.messages@[0], env, msg)
            },
        },
{
    let owner = match owner {
        Ok(a) => a,
        Err(e) => {
            return Err(ContractError::Std(e));
        },
    };
    let payment_addr = match payment_addr {
        Ok(a) => a,
        Err(e) => {
            return Err(ContractError::Std(e));
        },
    };
    if msg.mint_cost.amount == 0 {
        return Err(ContractError::InvalidUnitPrice {});
    }
    if msg.nft_limit == 0 {
        return Err(ContractError::InvalidNftLimit {});
    }
    let label = String::from_str("BS721-").concat(trim(msg.name.as_str()));
    let sub_msg = SubMsg {
        msg: CosmosMsg::Wasm(
            WasmMsg::Instantiate {
                code_id: INSTANTIATE_BS721_CODE_ID,
                msg: WasmPayload::TokenInstantiate(
                    TokenInstantiateMsg {
                        name: msg.name.clone(),
                        symbol: msg.symbol.clone(),
                        minter: env.contract.address.to_string(),
                        uri: clone_opt_string(&msg.uri),
                    },
                ),
                funds: Vec::new(),
                admin: Some(msg.owner.clone()),
                label,
            },
        ),
        id: INSTANTIATE_REPLY_ID,
        gas_limit: None,
        reply_on: ReplyOn::Success,
    };
    let cfg = Config {
        owner,
        mint_cost: msg.mint_cost,
        base_token_uri: msg.base_token_uri,
        limit_per_address: msg.limit_per_address,
        nft_limit: msg.nft_limit,
        payment_addr,
        name: msg.name,
        symbol: msg.symbol,
        uri: msg.uri,
    };
    let state = State { config: cfg, mintable_nft_limit: msg.nft_limit, nft_address: None };
    let resp = Response::new().add_attribute("action", String::from_str("instantiate")).add_attribute(
        "contract_name",
        String::from_str(CONTRACT_NAME),
    ).add_attribute("contract_version", String::from_str(CONTRACT_VERSION)).add_attribute(
        "sender",
        info.sender.to_string(),
    ).add_submessage(sub_msg);
    assert(resp.attrs() =~= instantiate_attrs(info.sender@));
    Ok((state, resp))
}

/// The attributes of a successful link to the token contract.
pub open spec fn link_attrs(nft_address: Seq<char>) -> Seq<(Seq<char>, Seq<char>)> {
    seq![("action"@, "instantiate_bs721_reply"@), ("nft_address"@, nft_address)]
}

/// How a link to the token contract at `address` changes the state and
/// what it hands back: the state was not linked, now holds that address,
/// and is otherwise as before; the response names the address.
pub open spec fn is_linked_to(
    before: State,
    after: State,
    resp: Response,
    address: Seq<char>,
) -> bool {
    &&& !before.linked()
    &&& after.nft_address matches Some(a)
    &&& a@ == address
    &&& resp.attrs() == link_attrs(address)
    &&& resp.messages@.len() == 0
    &&& after == (State { nft_address: after.nft_address, ..before })
}

/// Records the address read from the reply to the request that creates
/// the token contract, `None` standing for a reply that could not be
/// read. A state that is linked already refuses; a reply that could not
/// be read is an error; an address that was read is recorded as the
/// token contract. A refusal changes nothing.
pub fn link_token_contract(state: &mut State, parsed: Option<String>) -> (r: Result<
    Response,
    ContractError,
>)
    ensures
        old(state).linked() ==> (r matches Err(ContractError::BS721AlreadyLinked {}))
            && *final(state) == *old(state),
        !old(state).linked() && parsed is None ==> (r matches Err(
            ContractError::InstantiateContractError {},
        )) && *final(state) == *old(state),
        !old(state).linked() && parsed is Some ==> (r matches Ok(resp) && is_linked_to(
            *old(state),
            *final(state),
            resp,
            parsed->Some_0@,
        )) && final(state).nft_address == Some(Addr(parsed->Some_0)),
{
    if let Some(nft_address) = &state.nft_address {
        if nft_address.as_str().unicode_len() != 0 {
            return Err(ContractError::BS721AlreadyLinked {});
        }
    }
    match parsed {
        Some(contract_address) => {
            state.nft_address = Some(Addr(contract_address.clone()));
            let resp = Response::new().add_attribute(
                "action",
                String::from_str("instantiate_bs721_reply"),
            ).add_attribute("nft_address", contract_address);
            assert(resp.attrs() =~= link_attrs(parsed->Some_0@));
            Ok(resp)
        },
        None => Err(ContractError::InstantiateContractError {}),
    }
}

/// What handling the reply to the request that creates the token
/// contract comes to: a state that is linked already refuses; a reply
/// from which no address can be read is an error; otherwise the address
/// read is linked. A refusal changes nothing.
pub open spec fn is_reply_outcome(
    r: Result<Response, ContractError>,
    before: State,
    after: State,
    msg: Reply,
) -> bool {
    if before.linked() {
        r == Err::<Response, ContractError>(ContractError::BS721AlreadyLinked {}) && after
            == before
    } else {
        match msg.address() {
            Some(a) => r matches Ok(resp) && is_linked_to(before, after, resp, a),
            None => r == Err::<Response, ContractError>(
                ContractError::InstantiateContractError {},
            ) && after == before,
        }
    }
}

/// Handles the reply to the request that creates the token contract: the
/// address it carries is linked, once.
pub fn handle_instantiate_reply(state: &mut State, msg: Reply) -> (r: Result<
    Response,
    ContractError,
>)
    ensures
        is_reply_outcome(r, *old(state), *final(state), msg),
{
    if let Some(nft_address) = &state.nft_address {
        if nft_address.as_str().unicode_len() != 0 {
            return Err(ContractError::BS721AlreadyLinked {});
        }
    }
    let response = read_reply_address(msg);
    link_token_contract(state, response)
}

/// Handles a reply from the host. Only the request that creates the token
/// contract asks for one; a reply with any other tag is refused and
/// changes nothing.
pub fn reply(state: &mut State, _env: Env, msg: Reply) -> (r: Result<Response, ContractError>)
    ensures
        msg.id != INSTANTIATE_REPLY_ID ==> (r matches Err(ContractError::UnknownReplyId {}))
            && *final(state) == *old(state),
        msg.id == INSTANTIATE_REPLY_ID ==> is_reply_outcome(r, *old(state), *final(state), msg),
{
    if msg.id == INSTANTIATE_REPLY_ID {
        handle_instantiate_reply(state, msg)
    } else {
        Err(ContractError::UnknownReplyId {})
    }
}

/// The answer to a request for the configuration: before the token
/// contract is linked, the error that its address was not found;
/// afterwards the sale parameters and that address.
pub open spec fn is_config_answer(r: Result<ConfigResponse, StdError>, state: State) -> bool {
    match state.nft_address {
        None => r matches Err(StdError::NotFound { kind }) && kind@
            == "cosmwasm_std::addresses::Addr"@,
        Some(nft_address) => r == Ok::<ConfigResponse, StdError>(
            ConfigResponse {
                nft_address: Some(nft_address),
                owner: state.config.owner,
                payment_addr: state.config.payment_addr,
                mint_cost: state.config.mint_cost,
                name: state.config.name,
                symbol: state.config.symbol,
                uri: state.config.uri,
                base_token_uri: state.config.base_token_uri,
                nft_limit: state.config.nft_limit,
                limit_per_address: state.config.limit_per_address,
            },
        ),
    }
}

/// The sale parameters and the linked token contract.
pub fn query_config(state: &State) -> (r: Result<ConfigResponse, StdError>)
    ensures
        is_config_answer(r, *state),
{
    let nft_address = match &state.nft_address {
        Some(a) => a.clone(),
        None => {
            return Err(StdError::not_found("cosmwasm_std::addresses::Addr"));
        },
    };
    let config = &state.config;
    Ok(
        ConfigResponse {
            nft_address: Some(nft_address),
            owner: config.owner.clone(),
            payment_addr: clone_opt_addr(&config.payment_addr),
            mint_cost: config.mint_cost.clone(),
            name: config.name.clone(),
            symbol: config.symbol.clone(),
            uri: clone_opt_string(&config.uri),
            base_token_uri: config.base_token_uri.clone(),
            nft_limit: config.nft_limit,
            limit_per_address: config.limit_per_address,
        },
    )
}

/// Answers a read-only request.
pub fn query(state: &State, _env: Env, msg: QueryMsg) -> (r: Result<ConfigResponse, StdError>)
    ensures
        is_config_answer(r, *state),
{
    match msg {
        QueryMsg::GetConfig {} => query_config(state),
    }
}

} // verus!

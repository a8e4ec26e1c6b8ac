//! Entry points of the royalty splitter.

use vstd::prelude::*;
use vstd::arithmetic::div_mod::{
    lemma_div_pos_is_pos, lemma_fundamental_div_mod, lemma_fundamental_div_mod_converse,
    lemma_mod_bound, lemma_remainder_lower,
};
use crate::bs721_royalty::error::ContractError;
use crate::bs721_royalty::msg::{ConfigResponse, ExecuteMsg, InstantiateMsg};
use crate::bs721_royalty::state::{Config, State};
use crate::host::{
    Addr, BankMsg, Coin, CosmosMsg, Env, MessageInfo, ReplyOn, Response, StdError, SubMsg,
};
use crate::membership::{Cw4Contract, Member, MemberListResponse, MemberResponse};

verus! {

/// Name under which the contract records its version.
pub const CONTRACT_NAME: &'static str = "crates.io:bs721-royalty";

/// Version that the contract records.
pub const CONTRACT_VERSION: &'static str = "0.1.0";

/// Why a setup request is refused, if it is: the group's address is
/// invalid, its total weight cannot be read, or that weight is zero.
pub open spec fn instantiate_refusal(
    msg: InstantiateMsg,
    cw4_address: Result<Addr, StdError>,
    total_weight: Result<u64, StdError>,
) -> Option<ContractError> {
    if cw4_address is Err {
        Some(ContractError::InvalidCw4 { addr: msg.cw4_address })
    } else if total_weight is Err {
        Some(ContractError::Std(total_weight->Err_0))
    } else if total_weight->Ok_0 == 0 {
        Some(ContractError::InvalidCw4TotalWeight { weight: 0 })
    } else {
        None
    }
}

/// Sets up the splitter for the group at `msg.cw4_address`.
///
/// `cw4_address` is the host's verdict on that address, `total_weight`
/// the group's answer to the question for its total weight.
pub fn instantiate(
    _env: Env,
    _info: MessageInfo,
    msg: InstantiateMsg,
    cw4_address: Result<Addr, StdError>,
    total_weight: Result<u64, StdError>,
) -> (r: Result<(State, Response), ContractError>)
    ensures
        match instantiate_refusal(msg, cw4_address, total_weight) {
            Some(e) => r == Err::<(State, Response), ContractError>(e),
            None => r matches Ok((state, resp)) && state.config.cw4_address == Cw4Contract(
                cw4_address->Ok_0,
            ) && resp.messages@.len() == 0 && resp.attributes@.len() == 0,
        },
{
    let cw4_address = match cw4_address {
        Ok(a) => Cw4Contract(a),
        Err(_) => {
            return Err(ContractError::InvalidCw4 { addr: msg.cw4_address });
        },
    };
    let weight: u64 = match total_weight {
        Ok(w) => w,
        Err(e) => {
            return Err(ContractError::Std(e));
        },
    };
    if weight == 0 {
        return Err(ContractError::InvalidCw4TotalWeight { weight });
    }
    let cfg = Config { cw4_address };
    Ok((State { config: cfg }, Response::new()))
}

/// The part of `balance` that goes to a member of weight `weight` in a
/// group of total weight `total_weight`, rounded down.
pub open spec fn share(balance: nat, weight: nat, total_weight: nat) -> nat
    recommends
        total_weight > 0,
{
    (balance * weight) / total_weight
}

/// A share is the whole multiples of the total weight in the balance,
/// each paid with the member's weight, and the like share of what is
/// left over.
pub proof fn lemma_share_split(balance: nat, weight: nat, total_weight: nat)
    requires
        total_weight > 0,
    ensures
        share(balance, weight, total_weight) == (balance / total_weight) * weight + ((balance
            % total_weight) * weight) / total_weight,
        (balance % total_weight) * weight <= (total_weight - 1) * weight,
{
    let b = balance as int;
    let w = weight as int;
    let t = total_weight as int;
    let q = b / t;
    let r = b % t;
    lemma_fundamental_div_mod(b, t);
    lemma_mod_bound(b, t);
    assert(0 <= r * w <= (t - 1) * w) by (nonlinear_arith)
        requires
            0 <= r <= t - 1,
            0 <= w,
    ;
    let y = r * w;
    lemma_fundamental_div_mod(y, t);
    lemma_mod_bound(y, t);
    assert(b * w == (q * w + y / t) * t + y % t) by (nonlinear_arith)
        requires
            b == t * q + r,
            y == r * w,
            y == t * (y / t) + y % t,
    ;
    lemma_fundamental_div_mod_converse(b * w, t, q * w + y / t, y % t);
    lemma_div_pos_is_pos(b, t);
    lemma_div_pos_is_pos(y, t);
    assert(0 <= q * w) by (nonlinear_arith)
        requires
            0 <= q,
            0 <= w,
    ;
}

/// What is left over of a balance, times a weight, fits an amount.
proof fn lemma_rest_fits(rest: u128, weight: u64, total_weight: u64)
    requires
        rest < total_weight,
    ensures
        rest * weight <= u128::MAX,
{
    assert(rest * weight <= 0xffff_ffff_ffff_fffe * 0xffff_ffff_ffff_ffff) by (nonlinear_arith)
        requires
            0 <= rest <= 0xffff_ffff_ffff_fffe,
            0 <= weight <= 0xffff_ffff_ffff_ffff,
    ;
}

/// Computes a member's share of one balance.
pub fn member_share(balance: u128, weight: u64, total_weight: u64) -> (r: u128)
    requires
        total_weight > 0,
        share(balance as nat, weight as nat, total_weight as nat) <= u128::MAX,
    ensures
        r == share(balance as nat, weight as nat, total_weight as nat),
{
    let whole: u128 = balance / (total_weight as u128);
    let rest: u128 = balance % (total_weight as u128);
    proof {
        lemma_share_split(balance as nat, weight as nat, total_weight as nat);
        lemma_rest_fits(rest, weight, total_weight);
        lemma_div_pos_is_pos(rest * weight, total_weight as int);
    }
    whole * (weight as u128) + (rest * (weight as u128)) / (total_weight as u128)
}

/// Whether a member's share of one balance fits an amount.
pub fn share_fits(balance: u128, weight: u64, total_weight: u64) -> (ok: bool)
    requires
        total_weight > 0,
    ensures
        ok == (share(balance as nat, weight as nat, total_weight as nat) <= u128::MAX),
{
    let whole: u128 = balance / (total_weight as u128);
    let rest: u128 = balance % (total_weight as u128);
    proof {
        lemma_share_split(balance as nat, weight as nat, total_weight as nat);
        lemma_rest_fits(rest, weight, total_weight);
        lemma_div_pos_is_pos(rest * weight, total_weight as int);
    }
    match whole.checked_mul(weight as u128) {
        Some(paid) => paid.checked_add((rest * (weight as u128)) / (total_weight as u128)).is_some(),
        None => false,
    }
}

/// What a member of weight `weight` receives of each of `balances`.
pub open spec fn member_payout(balances: Seq<Coin>, weight: u64, total_weight: u64) -> Seq<Coin> {
    Seq::new(
        balances.len(),
        |j: int|
            Coin {
                denom: balances[j].denom,
                amount: share(balances[j].amount as nat, weight as nat, total_weight as nat) as u128,
            },
    )
}

/// Sum of the weights of `members`.
pub open spec fn weight_sum(members: Seq<Member>) -> nat
    decreases members.len(),
{
    if members.len() == 0 {
        0
    } else {
        weight_sum(members.drop_last()) + members.last().weight as nat
    }
}

/// What `members` receive of `balance` together.
pub open spec fn distributed(balance: nat, members: Seq<Member>, total_weight: nat) -> nat
    decreases members.len(),
{
    if members.len() == 0 {
        0
    } else {
        distributed(balance, members.drop_last(), total_weight) + share(
            balance,
            members.last().weight as nat,
            total_weight,
        )
    }
}

/// What is paid out never weighs more than the weights paid for: the
/// shares of `members`, times the total weight, stay within the balance
/// times the sum of their weights.
proof fn lemma_distributed_bound(balance: nat, members: Seq<Member>, total_weight: nat)
    requires
        total_weight > 0,
    ensures
        distributed(balance, members, total_weight) * total_weight <= balance * weight_sum(members),
    decreases members.len(),
{
    if members.len() == 0 {
        assert(balance * 0 == 0) by (nonlinear_arith);
    } else {
        let rest = members.drop_last();
        let w = members.last().weight as nat;
        lemma_distributed_bound(balance, rest, total_weight);
        let d = distributed(balance, rest, total_weight);
        let s = share(balance, w, total_weight);
        assert(0 <= balance * w) by (nonlinear_arith);
        lemma_remainder_lower((balance * w) as int, total_weight as int);
        assert(s * total_weight <= balance * w);
        assert((d + s) * total_weight <= balance * (weight_sum(rest) + w)) by (nonlinear_arith)
            requires
                d * total_weight <= balance * weight_sum(rest),
                s * total_weight <= balance * w,
        ;
    }
}

/// Paying out never gives away more than there is: when the weights of
/// the members paid sum to no more than the total weight, their shares
/// of a balance sum to no more than the balance. Rounding down may leave
/// a remainder behind.
pub proof fn lemma_distribution_within_balance(
    balance: nat,
    members: Seq<Member>,
    total_weight: nat,
)
    requires
        total_weight > 0,
        weight_sum(members) <= total_weight,
    ensures
        distributed(balance, members, total_weight) <= balance,
{
    lemma_distributed_bound(balance, members, total_weight);
    let d = distributed(balance, members, total_weight);
    assert(d <= balance) by (nonlinear_arith)
        requires
            d * total_weight <= balance * weight_sum(members),
            weight_sum(members) <= total_weight,
            total_weight > 0,
    ;
}

/// A member of weight `weight` can be paid its share of every balance:
/// the total weight is positive and no share exceeds the amount type.
pub open spec fn payout_fits(balances: Seq<Coin>, weight: u64, total_weight: u64) -> bool {
    &&& total_weight > 0
    &&& forall|j: int|
        0 <= j < balances.len() ==> share(
            (#[trigger] balances[j]).amount as nat,
            weight as nat,
            total_weight as nat,
        ) <= u128::MAX
}

/// Every member can be paid its share of every balance.
pub open spec fn shares_fit(members: Seq<Member>, balances: Seq<Coin>, total_weight: u64) -> bool {
    forall|i: int|
        0 <= i < members.len() ==> payout_fits(
            balances,
            (#[trigger] members[i]).weight,
            total_weight,
        )
}

/// The transfer that pays `member` its share of each of `balances`.
pub open spec fn is_member_payout(
    sub: SubMsg,
    member: Member,
    balances: Seq<Coin>,
    total_weight: u64,
) -> bool {
    &&& sub.id == SubMsg::unused_id()
    &&& sub.gas_limit is None
    &&& sub.reply_on == ReplyOn::Never
    &&& sub.msg matches CosmosMsg::Bank(BankMsg::Send { to_address, amount })
    &&& to_address == member.addr
    &&& amount@ == member_payout(balances, member.weight, total_weight)
}

/// Why a payout is refused, if it is. The checks come in this order: the
/// caller's membership can be read, the caller is a member, of positive
/// weight; the total weight, the members and the balances can be read;
/// there is something to pay out.
pub open spec fn pay_members_refusal(
    sender_weight: Result<Option<u64>, StdError>,
    total_weight: Result<u64, StdError>,
    members: Result<Vec<Member>, StdError>,
    balances: Result<Vec<Coin>, StdError>,
) -> Option<ContractError> {
    if sender_weight is Err {
        Some(ContractError::Std(sender_weight->Err_0))
    } else if sender_weight->Ok_0 is None {
        Some(ContractError::Unauthorized {})
    } else if sender_weight->Ok_0->Some_0 == 0 {
        Some(ContractError::InvalidCw4TotalWeight { weight: 0 })
    } else if total_weight is Err {
        Some(ContractError::Std(total_weight->Err_0))
    } else if members is Err {
        Some(ContractError::Std(members->Err_0))
    } else if balances is Err {
        Some(ContractError::Std(balances->Err_0))
    } else if balances->Ok_0@.len() == 0 {
        Some(ContractError::NoCoins {})
    } else {
        None
    }
}

/// Whether every member can be paid its share of every balance.
pub fn can_pay_all(members: &Vec<Member>, balances: &Vec<Coin>, total_weight: u64) -> (ok: bool)
    ensures
        ok == shares_fit(members@, balances@, total_weight),
{
    let mut i: usize = 0;
    while i < members.len()
        invariant
            i <= members.len(),
            forall|k: int|
                0 <= k < i ==> payout_fits(
                    balances@,
                    (#[trigger] members@[k]).weight,
                    total_weight,
                ),
        decreases members.len() - i,
    {
        if total_weight == 0 {
            assert(!payout_fits(balances@, members@[i as int].weight, total_weight));
            return false;
        }
        let weight: u64 = members[i].weight;
        let mut j: usize = 0;
        while j < balances.len()
            invariant
                j <= balances.len(),
                total_weight > 0,
                weight == members@[i as int].weight,
                i < members.len(),
                forall|k: int|
                    0 <= k < j ==> share(
                        (#[trigger] balances@[k]).amount as nat,
                        weight as nat,
                        total_weight as nat,
                    ) <= u128::MAX,
            decreases balances.len() - j,
        {
            if !share_fits(balances[j].amount, weight, total_weight) {
                assert(!payout_fits(balances@, members@[i as int].weight, total_weight));
                return false;
            }
            j = j + 1;
        }
        i = i + 1;
    }
    true
}

/// Whether a payout can be asked for: either it is refused before any
/// share is computed, or every member can be paid its share of every
/// balance.
pub fn pay_members_admitted(
    sender_weight: &Result<Option<u64>, StdError>,
    total_weight: &Result<u64, StdError>,
    members: &Result<Vec<Member>, StdError>,
    balances: &Result<Vec<Coin>, StdError>,
) -> (ok: bool)
    ensures
        ok == (pay_members_refusal(*sender_weight, *total_weight, *members, *balances) is None
            ==> shares_fit(members->Ok_0@, balances->Ok_0@, total_weight->Ok_0)),
{
    match sender_weight {
        Ok(Some(weight)) => {
            if *weight == 0 {
                return true;
            }
        },
        _ => {
            return true;
        },
    }
    let total: u64 = match total_weight {
        Ok(t) => *t,
        Err(_) => {
            return true;
        },
    };
    let members = match members {
        Ok(m) => m,
        Err(_) => {
            return true;
        },
    };
    let balances = match balances {
        Ok(b) => b,
        Err(_) => {
            return true;
        },
    };
    if balances.len() == 0 {
        return true;
    }
    can_pay_all(members, balances, total)
}

/// The attributes of a payout.
pub open spec fn pay_members_attrs() -> Seq<(Seq<char>, Seq<char>)> {
    seq![("action"@, "distribute"@)]
}

/// One transfer for one member: its share of every balance.
fn payout_for(member: &Member, balances: &Vec<Coin>, total_weight: u64) -> (r: CosmosMsg)
    requires
        payout_fits(balances@, member.weight, total_weight),
    ensures
        is_member_payout(SubMsg::plain(r), *member, balances@, total_weight),
{
    let mut amount: Vec<Coin> = Vec::new();
    let mut j: usize = 0;
    while j < balances.len()
        invariant
            j <= balances.len(),
            amount@ == member_payout(balances@, member.weight, total_weight).subrange(0, j as int),
            payout_fits(balances@, member.weight, total_weight),
        decreases balances.len() - j,
    {
        let c = Coin {
            denom: balances[j].denom.clone(),
            amount: member_share(balances[j].amount, member.weight, total_weight),
        };
        amount.push(c);
        assert(amount@ =~= member_payout(balances@, member.weight, total_weight).subrange(
            0,
            j as int + 1,
        ));
        j = j + 1;
    }
    assert(amount@ =~= member_payout(balances@, member.weight, total_weight));
    CosmosMsg::Bank(BankMsg::Send { to_address: member.addr.clone(), amount })
}

/// Pays the balances that the contract holds out to the members of the
/// group: one transfer per member, with the member's share of every
/// balance, rounded down. What rounding leaves over stays in the contract.
///
/// `sender_weight` is the group's answer on the caller's membership,
/// `total_weight` and `members` its answers on the group, and `balances`
/// what the bank reports of the contract's own account.
pub fn execute_pay_members(
    state: &State,
    _env: Env,
    _info: MessageInfo,
    sender_weight: Result<Option<u64>, StdError>,
    total_weight: Result<u64, StdError>,
    members: Result<Vec<Member>, StdError>,
    balances: Result<Vec<Coin>, StdError>,
) -> (r: Result<Response, ContractError>)
    requires
        pay_members_refusal(sender_weight, total_weight, members, balances) is None ==> shares_fit(
            members->Ok_0@,
            balances->Ok_0@,
            total_weight->Ok_0,
        ),
    ensures
        match pay_members_refusal(sender_weight, total_weight, members, balances) {
            Some(e) => r == Err::<Response, ContractError>(e),
            None => r matches Ok(resp) && {
                &&& resp.attrs() == pay_members_attrs()
                &&& resp.messages@.len() == members->Ok_0@.len()
                &&& forall|i: int|
                    0 <= i < resp.messages@.len() ==> is_member_payout(
                        #[trigger] resp.messages@[i],
                        members->Ok_0@[i],
                        balances->Ok_0@,
                        total_weight->Ok_0,
                    )
            },
        },
{
    let weight: u64 = match sender_weight {
        Ok(Some(w)) => w,
        Ok(None) => {
            return Err(ContractError::Unauthorized {});
        },
        Err(e) => {
            return Err(ContractError::Std(e));
        },
    };
    if weight == 0 {
        return Err(ContractError::InvalidCw4TotalWeight { weight });
    }
    let total_weight: u64 = match total_weight {
        Ok(w) => w,
        Err(e) => {
            return Err(ContractError::Std(e));
        },
    };
    let members = match members {
        Ok(m) => m,
        Err(e) => {
            return Err(ContractError::Std(e));
        },
    };
    let balances = match balances {
        Ok(b) => b,
        Err(e) => {
            return Err(ContractError::Std(e));
        },
    };
    if balances.len() == 0 {
        return Err(ContractError::NoCoins {});
    }
    let mut resp = Response::new().add_attribute("action", String::from_str("distribute"));
    assert(resp.attrs() =~= pay_members_attrs());
    let mut i: usize = 0;
    while i < members.len()
        invariant
            i <= members.len(),
            shares_fit(members@, balances@, total_weight),
            resp.attrs() == pay_members_attrs(),
            resp.messages@.len() == i,
            forall|k: int|
                0 <= k < i ==> is_member_payout(
                    #[trigger] resp.messages@[k],
                    members@[k],
                    balances@,
                    total_weight,
                ),
        decreases members.len() - i,
    {
        let msg = payout_for(&members[i], &balances, total_weight);
        resp = resp.add_message(msg);
        i = i + 1;
    }
    Ok(resp)
}

/// Dispatches a request that changes the state.
pub fn execute(
    state: &State,
    env: Env,
    info: MessageInfo,
    msg: ExecuteMsg,
    sender_weight: Result<Option<u64>, StdError>,
    total_weight: Result<u64, StdError>,
    members: Result<Vec<Member>, StdError>,
    balances: Result<Vec<Coin>, StdError>,
) -> (r: Result<Response, ContractError>)
    requires
        pay_members_refusal(sender_weight, total_weight, members, balances) is None ==> shares_fit(
            members->Ok_0@,
            balances->Ok_0@,
            total_weight->Ok_0,
        ),
    ensures
        match pay_members_refusal(sender_weight, total_weight, members, balances) {
            Some(e) => r == Err::<Response, ContractError>(e),
            None => r matches Ok(resp) && {
                &&& resp.attrs() == pay_members_attrs()
                &&& resp.messages@.len() == members->Ok_0@.len()
                &&& forall|i: int|
                    0 <= i < resp.messages@.len() ==> is_member_payout(
                        #[trigger] resp.messages@[i],
                        members->Ok_0@[i],
                        balances->Ok_0@,
                        total_weight->Ok_0,
                    )
            },
        },
{
    match msg {
        ExecuteMsg::PayMembers {} => execute_pay_members(
            state,
            env,
            info,
            sender_weight,
            total_weight,
            members,
            balances,
        ),
    }
}

/// The configuration of the splitter.
pub fn query_config(state: &State) -> (r: Result<ConfigResponse, StdError>)
    ensures
        r == Ok::<ConfigResponse, StdError>(ConfigResponse { config: state.config }),
{
    Ok(ConfigResponse { config: state.config.clone() })
}

/// The weight of one account in the group, as the group reports it for
/// the address that the host has validated.
pub fn query_member(
    _state: &State,
    member: Result<Addr, StdError>,
    weight: Result<Option<u64>, StdError>,
) -> (r: Result<MemberResponse, StdError>)
    ensures
        member is Err ==> r == Err::<MemberResponse, StdError>(member->Err_0),
        member is Ok && weight is Err ==> r == Err::<MemberResponse, StdError>(weight->Err_0),
        member is Ok && weight is Ok ==> r == Ok::<MemberResponse, StdError>(
            MemberResponse { weight: weight->Ok_0 },
        ),
{
    match member {
        Ok(_) => {},
        Err(e) => {
            return Err(e);
        },
    }
    match weight {
        Ok(weight) => Ok(MemberResponse { weight }),
        Err(e) => Err(e),
    }
}

/// The members of the group, as the group lists them.
pub fn query_all_members(_state: &State, members: Result<Vec<Member>, StdError>) -> (r: Result<
    MemberListResponse,
    StdError,
>)
    ensures
        match members {
            Ok(list) => r matches Ok(resp) && resp.members@ == list@,
            Err(e) => r == Err::<MemberListResponse, StdError>(e),
        },
{
    match members {
        Ok(list) => {
            let mut members: Vec<Member> = Vec::new();
            let mut i: usize = 0;
            while i < list.len()
                invariant
                    i <= list.len(),
                    members@ == list@.subrange(0, i as int),
                decreases list.len() - i,
            {
                members.push(Member { addr: list[i].addr.clone(), weight: list[i].weight });
                i = i + 1;
            }
            assert(members@ =~= list@);
            Ok(MemberListResponse { members })
        },
        Err(e) => Err(e),
    }
}

} // verus!

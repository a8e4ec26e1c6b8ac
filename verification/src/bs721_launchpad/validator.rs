//! Checks on the parameters of a sale before it is set up.

use vstd::prelude::*;
use crate::bs721_launchpad::error::ContractError;
use crate::bs721_launchpad::msg::{SaleStage, Stages, StagesMsg};
use crate::host::Timestamp;

verus! {

/// Highest seller fee, in basis points: 100.00%.
pub const MAX_SELLER_FEE: u16 = 10000;

/// Accepts a seller fee of at most `MAX_SELLER_FEE` basis points.
pub fn validate_seller_fee(seller_fee: u16) -> (r: Result<bool, ContractError>)
    ensures
        seller_fee <= MAX_SELLER_FEE ==> r matches Ok(true),
        seller_fee > MAX_SELLER_FEE ==> r matches Err(ContractError::SellerFeeBasisPointsTooHigh {}),
{
    if seller_fee > MAX_SELLER_FEE {
        return Err(ContractError::SellerFeeBasisPointsTooHigh {});
    }
    Ok(true)
}

impl SaleStage {
    /// What is wrong with the stage taken alone, seen at `block_time`, if
    /// anything: a window that ends no later than it starts or starts
    /// before `block_time`, or a price of zero.
    pub open spec fn defect(self, block_time: Timestamp) -> Option<ContractError> {
        if self.end_date.0 <= self.start_date.0 {
            Some(ContractError::InvalidDate {})
        } else if self.start_date.0 < block_time.0 {
            Some(ContractError::InvalidDate {})
        } else if self.price matches Some(c) && c.amount == 0 {
            Some(ContractError::InvalidUnitPrice {})
        } else {
            None
        }
    }

    /// Checks the stage taken alone.
    pub fn validate(&self, block_time: Timestamp) -> (r: Result<(), ContractError>)
        ensures
            match self.defect(block_time) {
                Some(e) => r == Err::<(), ContractError>(e),
                None => r is Ok,
            },
    {
        if self.end_date.0 <= self.start_date.0 {
            return Err(ContractError::InvalidDate {});
        }
        if self.start_date.0 < block_time.0 {
            return Err(ContractError::InvalidDate {});
        }
        if let Some(c) = &self.price {
            if c.amount == 0 {
                return Err(ContractError::InvalidUnitPrice {});
            }
        }
        Ok(())
    }
}

impl Stages {
    /// Number of tokens that the stages offer together.
    pub open spec fn spec_max_supply(&self) -> u64 {
        ((match self.free_mint {
            Some(s) => s.supply as int,
            None => 0,
        }) + (match self.pre_sale {
            Some(s) => s.supply as int,
            None => 0,
        }) + self.public_sale.supply) as u64
    }

    #[verifier::when_used_as_spec(spec_max_supply)]
    pub fn max_supply(&self) -> (r: u64)
        ensures
            r == self.spec_max_supply(),
    {
        let free: u64 = match &self.free_mint {
            Some(s) => s.supply as u64,
            None => 0,
        };
        let pre: u64 = match &self.pre_sale {
            Some(s) => s.supply as u64,
            None => 0,
        };
        free + pre + self.public_sale.supply as u64
    }
}

/// What is wrong with the stages of a sale, seen at `block_time`, if
/// anything. The checks come in this order: the public sale taken alone;
/// a positive supply over all stages; the free mint taken alone, and the
/// stage that follows it, be it the pre-sale or the public sale, not
/// starting before the free mint ends; the pre-sale taken alone, and the
/// public sale not starting before the pre-sale ends.
pub open spec fn stages_defect(stages: Stages, block_time: Timestamp) -> Option<ContractError> {
    if stages.public_sale.defect(block_time) is Some {
        stages.public_sale.defect(block_time)
    } else if stages.spec_max_supply() == 0 {
        Some(ContractError::StageInvalidMaxSupply {})
    } else if stages.free_mint matches Some(free) && free.defect(block_time) is Some {
        stages.free_mint->Some_0.defect(block_time)
    } else if stages.free_mint matches Some(free) && stages.pre_sale matches Some(pre)
        && pre.start_date.0 < free.end_date.0 {
        Some(ContractError::InvalidDate {})
    } else if stages.free_mint matches Some(free) && stages.pre_sale is None
        && stages.public_sale.start_date.0 < free.end_date.0 {
        Some(ContractError::InvalidDate {})
    } else if stages.pre_sale matches Some(pre) && pre.defect(block_time) is Some {
        stages.pre_sale->Some_0.defect(block_time)
    } else if stages.pre_sale matches Some(pre) && stages.public_sale.start_date.0
        < pre.end_date.0 {
        Some(ContractError::InvalidDate {})
    } else {
        None
    }
}

/// Accepts the stages of a sale when each has a proper window and price,
/// they offer at least one token, and they follow one another without
/// overlap.
pub fn validate_stages(stages_msg: StagesMsg, block_time: Timestamp) -> (r: Result<
    bool,
    ContractError,
>)
    ensures
        match stages_defect(stages_msg.stages(), block_time) {
            Some(e) => r == Err::<bool, ContractError>(e),
            None => r matches Ok(true),
        },
{
    let stages = stages_msg.to_stages();
    match stages.public_sale.validate(block_time) {
        Ok(_) => {},
        Err(e) => {
            return Err(e);
        },
    }
    if stages.max_supply() == 0 {
        return Err(ContractError::StageInvalidMaxSupply {});
    }
    match &stages.free_mint {
        Some(free_mint_stage) => {
            match free_mint_stage.validate(block_time) {
                Ok(_) => {},
                Err(e) => {
                    return Err(e);
                },
            }
            match &stages.pre_sale {
                Some(pre_sale_stage) => {
                    if pre_sale_stage.start_date.0 < free_mint_stage.end_date.0 {
                        return Err(ContractError::InvalidDate {});
                    }
                },
                None => {
                    if stages.public_sale.start_date.0 < free_mint_stage.end_date.0 {
                        return Err(ContractError::InvalidDate {});
                    }
                },
            }
        },
        None => {},
    }
    match &stages.pre_sale {
        Some(pre_sale_stage) => {
            match pre_sale_stage.validate(block_time) {
                Ok(_) => {},
                Err(e) => {
                    return Err(e);
                },
            }
            if stages.public_sale.start_date.0 < pre_sale_stage.end_date.0 {
                return Err(ContractError::InvalidDate {});
            }
        },
        None => {},
    }
    Ok(true)
}

} // verus!

//! Order parameters, as the exchange takes them.

use vstd::prelude::*;
use crate::model::{MarketType, OrderType, PositionDirection, PostOnlyParam, TriggerCondition};

verus! {

/// An order to place. What is `None` is left to the exchange.
#[derive(Clone, Copy, PartialEq, Eq, Debug)]
pub struct OrderParams {
    pub order_type: OrderType,
    pub market_type: MarketType,
    pub direction: PositionDirection,
    pub user_order_id: u8,
    pub base_asset_amount: u64,
    pub price: u64,
    pub market_index: u16,
    pub reduce_only: bool,
    pub post_only: PostOnlyParam,
    pub immediate_or_cancel: bool,
    pub max_ts: Option<i64>,
    pub trigger_price: Option<u64>,
    pub trigger_condition: TriggerCondition,
    pub oracle_price_offset: Option<i64>,
    pub auction_duration: Option<u8>,
    pub auction_start_price: Option<i64>,
    pub auction_end_price: Option<i64>,
    pub builder_idx: Option<u8>,
    pub builder_fee_tenth_bps: Option<u16>,
}

impl OrderParams {
    /// A plain order in the perp market.
    #[verifier::allow_in_spec]
    pub fn perp(
        order_type: OrderType,
        direction: PositionDirection,
        base_asset_amount: u64,
        price: u64,
    ) -> OrderParams
        returns
            (OrderParams {
                order_type,
                market_type: MarketType::Perp,
                direction,
                user_order_id: 0,
                base_asset_amount,
                price,
                market_index: 0,
                reduce_only: false,
                post_only: PostOnlyParam::NotPostOnly,
                immediate_or_cancel: false,
                max_ts: None,
                trigger_price: None,
                trigger_condition: TriggerCondition::Above,
                oracle_price_offset: None,
                auction_duration: None,
                auction_start_price: None,
                auction_end_price: None,
                builder_idx: None,
                builder_fee_tenth_bps: None,
            }),
    {
        OrderParams {
            order_type,
            market_type: MarketType::Perp,
            direction,
            user_order_id: 0,
            base_asset_amount,
            price,
            market_index: 0,
            reduce_only: false,
            post_only: PostOnlyParam::NotPostOnly,
            immediate_or_cancel: false,
            max_ts: None,
            trigger_price: None,
            trigger_condition: TriggerCondition::Above,
            oracle_price_offset: None,
            auction_duration: None,
            auction_start_price: None,
            auction_end_price: None,
            builder_idx: None,
            builder_fee_tenth_bps: None,
        }
    }
}

/// The direction that a choice of zero or one stands for.
#[verifier::allow_in_spec]
pub fn direction_of(dir: u8) -> PositionDirection
    returns
        (if dir == 0 {
            PositionDirection::Long
        } else {
            PositionDirection::Short
        }),
{
    if dir == 0 {
        PositionDirection::Long
    } else {
        PositionDirection::Short
    }
}

} // verus!

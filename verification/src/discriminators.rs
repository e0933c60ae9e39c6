//! The eight bytes that name each handler of the exchange in instruction data.

use vstd::prelude::*;

verus! {

pub const D_INITIALIZE_USER_STATS: [u8; 8] = [254, 243, 72, 98, 251, 130, 168, 213];

pub const D_INITIALIZE_USER: [u8; 8] = [111, 17, 185, 250, 60, 122, 38, 254];

pub const D_DEPOSIT: [u8; 8] = [242, 35, 198, 137, 82, 225, 242, 182];

pub const D_WITHDRAW: [u8; 8] = [183, 18, 70, 156, 148, 109, 161, 34];

pub const D_PLACE_PERP_ORDER: [u8; 8] = [69, 161, 93, 202, 120, 126, 76, 185];

pub const D_CANCEL_ORDER: [u8; 8] = [95, 129, 237, 240, 8, 49, 223, 132];

pub const D_SETTLE_PNL: [u8; 8] = [43, 61, 234, 45, 15, 95, 152, 153];

pub const D_CANCEL_ORDERS: [u8; 8] = [238, 225, 95, 158, 227, 103, 8, 194];

pub const D_CANCEL_ORDERS_BY_IDS: [u8; 8] = [134, 19, 144, 165, 94, 240, 210, 94];

pub const D_CANCEL_ORDER_BY_USER_ID: [u8; 8] = [107, 211, 250, 133, 18, 37, 57, 100];

pub const D_MODIFY_ORDER: [u8; 8] = [47, 124, 117, 255, 201, 197, 130, 94];

pub const D_MODIFY_ORDER_BY_USER_ID: [u8; 8] = [158, 77, 4, 253, 252, 194, 161, 179];

pub const D_PLACE_ORDERS: [u8; 8] = [60, 63, 50, 123, 12, 197, 60, 190];

pub const D_UPDATE_USER_CUSTOM_MARGIN_RATIO: [u8; 8] = [21, 221, 140, 187, 32, 129, 11, 123];

pub const D_UPDATE_USER_MARGIN_TRADING_ENABLED: [u8; 8] = [194, 92, 204, 223, 246, 188, 31, 203];

pub const D_UPDATE_USER_REDUCE_ONLY: [u8; 8] = [199, 71, 42, 67, 144, 19, 86, 109];

pub const D_UPDATE_USER_NAME: [u8; 8] = [135, 25, 185, 56, 165, 53, 34, 136];

pub const D_UPDATE_USER_POOL_ID: [u8; 8] = [219, 86, 73, 106, 56, 218, 128, 109];

pub const D_UPDATE_USER_DELEGATE: [u8; 8] = [139, 205, 141, 141, 113, 36, 94, 187];

pub const D_UPDATE_USER_ALLOW_DELEGATE_TRANSFER: [u8; 8] = [235, 106, 172, 39, 223, 238, 167, 204];

pub const D_UPDATE_USER_PERP_POSITION_CUSTOM_MARGIN_RATIO: [u8; 8] = [121, 137, 157, 155, 89, 186, 145, 113];

pub const D_UPDATE_USER_IDLE: [u8; 8] = [253, 133, 67, 22, 103, 161, 20, 100];

pub const D_FORCE_CANCEL_ORDERS: [u8; 8] = [64, 181, 196, 63, 222, 72, 64, 232];

pub const D_LOG_USER_BALANCES: [u8; 8] = [162, 21, 35, 251, 32, 57, 161, 210];

pub const D_DELETE_USER: [u8; 8] = [186, 85, 17, 249, 219, 231, 98, 251];

pub const D_RECLAIM_RENT: [u8; 8] = [218, 200, 19, 197, 227, 89, 192, 22];

pub const D_FILL_PERP_ORDER: [u8; 8] = [13, 188, 248, 103, 134, 217, 106, 240];

pub const D_PLACE_AND_TAKE_PERP_ORDER: [u8; 8] = [213, 51, 1, 187, 108, 220, 230, 224];

pub const D_PLACE_AND_MAKE_PERP_ORDER: [u8; 8] = [149, 117, 11, 237, 47, 95, 89, 237];

pub const D_TRIGGER_ORDER: [u8; 8] = [63, 112, 51, 233, 232, 47, 240, 199];

pub const D_REVERT_FILL: [u8; 8] = [236, 238, 176, 69, 239, 10, 181, 193];

pub const D_SETTLE_MULTIPLE_PNLS: [u8; 8] = [127, 66, 117, 57, 40, 50, 152, 127];

pub const D_SETTLE_FUNDING_PAYMENT: [u8; 8] = [222, 90, 202, 94, 28, 45, 115, 183];

pub const D_UPDATE_FUNDING_RATE: [u8; 8] = [201, 178, 116, 212, 166, 144, 72, 238];

pub const D_UPDATE_PERP_BID_ASK_TWAP: [u8; 8] = [247, 23, 255, 65, 212, 90, 221, 194];

pub const D_UPDATE_AMMS: [u8; 8] = [201, 106, 217, 253, 4, 175, 228, 97];

pub const D_INITIALIZE_IF_STAKE: [u8; 8] = [187, 179, 243, 70, 248, 90, 92, 147];

pub const D_ADD_IF_STAKE: [u8; 8] = [251, 144, 115, 11, 222, 47, 62, 236];

pub const D_REQUEST_REMOVE_IF_STAKE: [u8; 8] = [142, 70, 204, 92, 73, 106, 180, 52];

pub const D_CANCEL_REQUEST_REMOVE_IF_STAKE: [u8; 8] = [97, 235, 78, 62, 212, 42, 241, 127];

pub const D_REMOVE_IF_STAKE: [u8; 8] = [128, 166, 142, 9, 254, 187, 143, 174];

pub const D_DEPOSIT_INTO_REVENUE_POOL: [u8; 8] = [92, 40, 151, 42, 122, 254, 139, 246];

pub const D_SETTLE_REVENUE_TO_IF: [u8; 8] = [200, 120, 93, 136, 69, 38, 199, 159];

pub const D_SWEEP_PERP_MARKET_FEES: [u8; 8] = [194, 147, 181, 230, 193, 155, 241, 225];

pub const D_UPDATE_SPOT_MARKET_CUMULATIVE_INTEREST: [u8; 8] = [39, 166, 139, 243, 158, 165, 155, 225];

pub const D_TRANSFER_DEPOSIT: [u8; 8] = [20, 20, 147, 223, 41, 63, 204, 111];

pub const D_TRANSFER_PERP_POSITION: [u8; 8] = [23, 172, 188, 168, 134, 210, 3, 108];

pub const D_TRANSFER_DEPOSIT_BY_DELEGATE: [u8; 8] = [141, 171, 241, 161, 17, 31, 135, 29];

pub const D_INITIALIZE_REFERRER_NAME: [u8; 8] = [235, 126, 231, 10, 42, 164, 26, 61];

pub const D_PAUSE_SPOT_MARKET_DEPOSIT_WITHDRAW: [u8; 8] = [183, 119, 59, 170, 137, 35, 242, 86];

pub const D_TRIP_EQUITY_FLOOR_BREAKER: [u8; 8] = [133, 184, 25, 80, 193, 52, 162, 249];

pub const D_FORCE_DELETE_USER: [u8; 8] = [2, 241, 195, 172, 227, 24, 254, 158];

pub const D_UPDATE_USER_QUOTE_ASSET_IF_STAKE: [u8; 8] = [251, 101, 156, 7, 2, 63, 30, 23];

pub const D_LIQUIDATE_SPOT: [u8; 8] = [107, 0, 128, 41, 35, 229, 251, 18];

pub const D_LIQUIDATE_BORROW_FOR_PERP_PNL: [u8; 8] = [169, 17, 32, 90, 207, 148, 209, 27];

pub const D_BEGIN_SWAP: [u8; 8] = [174, 109, 228, 1, 242, 105, 232, 105];

pub const D_END_SWAP: [u8; 8] = [177, 184, 27, 193, 34, 13, 210, 145];

pub const D_LIQUIDATE_SPOT_WITH_SWAP_BEGIN: [u8; 8] = [12, 43, 176, 83, 156, 251, 117, 13];

pub const D_LIQUIDATE_SPOT_WITH_SWAP_END: [u8; 8] = [142, 88, 163, 160, 223, 75, 55, 225];

pub const D_TRANSFER_POOLS: [u8; 8] = [197, 103, 154, 25, 107, 90, 60, 94];

pub const D_RESOLVE_PERP_BANKRUPTCY: [u8; 8] = [224, 16, 176, 214, 162, 213, 183, 222];

pub const D_RESOLVE_SPOT_BANKRUPTCY: [u8; 8] = [124, 194, 240, 254, 198, 213, 52, 122];

pub const D_INIT_SIGNED_MSG_USER_ORDERS: [u8; 8] = [164, 99, 156, 126, 156, 57, 99, 180];

pub const D_RESIZE_SIGNED_MSG_USER_ORDERS: [u8; 8] = [137, 10, 87, 150, 18, 115, 79, 168];

pub const D_DELETE_SIGNED_MSG_USER_ORDERS: [u8; 8] = [221, 247, 128, 253, 212, 254, 46, 153];

pub const D_UPDATE_AMM_CACHE: [u8; 8] = [88, 4, 63, 94, 83, 224, 255, 130];

pub const D_UPDATE_USER_EQUITY_FLOOR: [u8; 8] = [49, 87, 139, 119, 136, 239, 186, 104];

pub const D_UPDATE_PYTH_LAZER_ORACLE: [u8; 8] = [218, 237, 170, 245, 39, 143, 166, 33];

pub const D_PLACE_SIGNED_MSG_TAKER_ORDER: [u8; 8] = [32, 79, 101, 139, 25, 6, 98, 15];

pub const D_PLACE_AND_MAKE_SIGNED_MSG_PERP_ORDER: [u8; 8] = [16, 26, 123, 131, 94, 29, 175, 98];

pub const D_INIT_SIGNED_MSG_WS_DELEGATES: [u8; 8] = [40, 132, 96, 219, 184, 193, 80, 8];

pub const D_CHANGE_SIGNED_MSG_WS_DELEGATE: [u8; 8] = [252, 202, 252, 219, 179, 27, 84, 138];

pub const D_INIT_REVENUE_SHARE: [u8; 8] = [57, 9, 123, 131, 82, 52, 50, 13];

pub const D_INIT_REVENUE_SHARE_ESCROW: [u8; 8] = [187, 18, 123, 88, 238, 104, 84, 154];

pub const D_RESIZE_REVENUE_SHARE_ESCROW: [u8; 8] = [32, 124, 247, 225, 151, 213, 225, 38];

pub const D_CHANGE_APPROVED_BUILDER: [u8; 8] = [179, 134, 211, 45, 195, 5, 189, 173];

pub const D_UPDATE_USER_STATS_REFERRER_STATUS: [u8; 8] = [174, 154, 72, 42, 191, 148, 145, 205];

pub const D_SPECIAL_TRANSFER_PERP_TO_VAMM: [u8; 8] = [39, 111, 187, 243, 18, 139, 223, 1];

pub const D_DEPOSIT_INTO_ISOLATED: [u8; 8] = [101, 48, 255, 153, 127, 121, 170, 26];

pub const D_WITHDRAW_FROM_ISOLATED: [u8; 8] = [37, 92, 178, 149, 140, 76, 159, 135];

pub const D_TRANSFER_ISOLATED_DEPOSIT: [u8; 8] = [201, 131, 242, 228, 85, 226, 70, 237];

pub const D_WITHDRAW_PROTOCOL_FEES_PERP: [u8; 8] = [227, 99, 23, 227, 168, 217, 136, 181];

pub const D_WITHDRAW_PROTOCOL_FEES_SPOT: [u8; 8] = [177, 216, 30, 239, 253, 177, 123, 155];

pub const D_SET_USER_STATUS_BEING_LIQUIDATED: [u8; 8] = [106, 133, 160, 206, 193, 171, 192, 194];

pub const D_LIQUIDATE_PERP: [u8; 8] = [75, 35, 119, 247, 191, 18, 139, 2];

pub const D_LIQUIDATE_PERP_PNL_FOR_DEPOSIT: [u8; 8] = [237, 75, 198, 235, 233, 186, 75, 35];

pub const D_RESOLVE_PERP_PNL_DEFICIT: [u8; 8] = [168, 204, 68, 150, 159, 126, 95, 148];

pub const D_DEPOSIT_INTO_SPOT_MARKET_REVENUE_POOL: [u8; 8] = [92, 40, 151, 42, 122, 254, 139, 246];

pub const D_SETTLE_REVENUE_TO_INSURANCE_FUND: [u8; 8] = [200, 120, 93, 136, 69, 38, 199, 159];

pub const D_RESIZE_SIGNED_MSG: [u8; 8] = [137, 10, 87, 150, 18, 115, 79, 168];

pub const D_PLACE_SIGNED_MSG_TAKER: [u8; 8] = [32, 79, 101, 139, 25, 6, 98, 15];

pub const A_SIGNED_MSG_USER_ORDERS: [u8; 8] = [70, 6, 50, 248, 222, 1, 143, 49];

} // verus!

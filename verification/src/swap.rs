//! Copy decision engine: classify an observed trade as a buy or a sell and
//! size the copy trade by the user's configured percentage.

use vstd::prelude::*;

use crate::monitor::{TradeInfoFromToken, TradeInfoV};

verus! {

/// Direction of a swap: the observed target bought or sold the token.
#[derive(Clone, Copy, Debug, PartialEq, Eq, Structural)]
pub enum SwapDirection {
    Buy,
    Sell,
}

/// How `amount_in` of a [`SwapConfig`] is denominated: as an outright
/// quantity or as a percentage of the wallet's holdings.
#[derive(Clone, Copy, Debug, PartialEq, Eq, Structural)]
pub enum SwapInType {
    Qty,
    Pct,
}

/// A fully sized swap order, ready to hand to the swap executor.
///
/// For a buy, `amount_in` is the native-currency spend in lamports; for a
/// sell, it is the token quantity in billionths of a token.
#[derive(Clone, Copy, Debug, PartialEq, Eq, Structural)]
pub struct SwapConfig {
    pub swap_direction: SwapDirection,
    pub in_type: SwapInType,
    pub amount_in: u64,
    pub slippage: u64,
    pub use_jito: bool,
}

/// Absolute change of the liquidity pool's native balance, in lamports.
pub open spec fn pool_delta(t: TradeInfoV) -> int {
    if t.sol_post_amount >= t.sol_pre_amount {
        t.sol_post_amount - t.sol_pre_amount
    } else {
        t.sol_pre_amount - t.sol_post_amount
    }
}

/// Absolute change of the target's token balance, in billionths of a token.
pub open spec fn token_delta(t: TradeInfoV) -> int {
    if t.token_post_amount >= t.token_pre_amount {
        t.token_post_amount - t.token_pre_amount
    } else {
        t.token_pre_amount - t.token_post_amount
    }
}

/// The delta the sizing is based on: the pool's native flow for a buy, the
/// target's token outflow for a sell, and zero when the token balance did
/// not move (no intent is produced then).
pub open spec fn sizing_delta(t: TradeInfoV) -> int {
    if t.token_post_amount > t.token_pre_amount {
        pool_delta(t)
    } else if t.token_post_amount < t.token_pre_amount {
        token_delta(t)
    } else {
        0
    }
}

/// Scale an observed delta by the user's percentage.
pub open spec fn scaled_amount(delta: int, token_percent: int) -> int {
    delta * token_percent / 100
}

/// What the decision engine returns for a trade: a buy iff the target's
/// token balance increased, a sell iff it decreased, nothing for an
/// unchanged balance or a zero scaled amount.
pub open spec fn decide_spec(t: TradeInfoV, token_percent: u64, slippage: u64) -> Option<
    SwapConfig,
> {
    let amount = scaled_amount(sizing_delta(t), token_percent as int);
    if t.token_post_amount == t.token_pre_amount || amount <= 0 {
        None
    } else {
        Some(
            SwapConfig {
                swap_direction: if t.token_post_amount > t.token_pre_amount {
                    SwapDirection::Buy
                } else {
                    SwapDirection::Sell
                },
                in_type: SwapInType::Qty,
                amount_in: amount as u64,
                slippage: slippage,
                use_jito: true,
            },
        )
    }
}

/// Decide whether to mirror the observed trade and at what size.
///
/// The precondition only keeps the scaled amount inside the machine word;
/// it holds whenever `token_percent <= 100`, since the delta itself fits.
pub fn decide_swap(t: &TradeInfoFromToken, token_percent: u64, slippage: u64) -> (r: Option<
    SwapConfig,
>)
    requires
        scaled_amount(sizing_delta(t@), token_percent as int) <= u64::MAX,
    ensures
        r == decide_spec(t@, token_percent, slippage),
{
    let post = t.token_amount_list.token_post_amount;
    let pre = t.token_amount_list.token_pre_amount;
    if post == pre {
        return None;
    }
    let delta: u64 = if post > pre {
        let sol_post = t.sol_amount_list.sol_post_amount;
        let sol_pre = t.sol_amount_list.sol_pre_amount;
        if sol_post >= sol_pre {
            sol_post - sol_pre
        } else {
            sol_pre - sol_post
        }
    } else {
        pre - post
    };
    let amount_wide: u128 = (delta as u128) * (token_percent as u128) / 100;
    proof {
        assert((delta as int) * (token_percent as int) <= u64::MAX as int * u64::MAX as int)
            by (nonlinear_arith)
            requires
                0 <= delta <= u64::MAX,
                0 <= token_percent <= u64::MAX,
        ;
        assert(amount_wide == scaled_amount(delta as int, token_percent as int));
    }
    if amount_wide == 0 {
        return None;
    }
    let amount: u64 = amount_wide as u64;
    Some(
        SwapConfig {
            swap_direction: if post > pre {
                SwapDirection::Buy
            } else {
                SwapDirection::Sell
            },
            in_type: SwapInType::Qty,
            amount_in: amount,
            slippage: slippage,
            use_jito: true,
        },
    )
}

/// Law: a trade whose token balance increased is classified as a buy, one
/// whose balance decreased as a sell, and an unchanged balance yields no
/// intent at all.
pub proof fn lemma_classification(t: TradeInfoV, token_percent: u64, slippage: u64)
    ensures
        decide_spec(t, token_percent, slippage) matches Some(c) ==> (c.swap_direction
            == SwapDirection::Buy <==> t.token_post_amount > t.token_pre_amount),
        decide_spec(t, token_percent, slippage) matches Some(c) ==> (c.swap_direction
            == SwapDirection::Sell <==> t.token_post_amount < t.token_pre_amount),
        t.token_post_amount == t.token_pre_amount ==> decide_spec(t, token_percent, slippage)
            is None,
{
}

/// Law: every produced intent carries a strictly positive amount, and that
/// amount is exactly the observed delta scaled by the percentage. The
/// precondition is the same machine limit the decision engine runs under.
pub proof fn lemma_amount_positive(t: TradeInfoV, token_percent: u64, slippage: u64)
    requires
        scaled_amount(sizing_delta(t), token_percent as int) <= u64::MAX,
    ensures
        decide_spec(t, token_percent, slippage) matches Some(c) ==> c.amount_in > 0,
        decide_spec(t, token_percent, slippage) matches Some(c) ==> c.amount_in as int
            == scaled_amount(sizing_delta(t), token_percent as int),
{
}

} // verus!

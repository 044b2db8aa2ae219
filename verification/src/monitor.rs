//! Trade-event extraction: turn one streamed transaction notification,
//! already reduced to the minimal schema below, into a structured
//! [`TradeInfoFromToken`] or a classified extraction failure.

use vstd::prelude::*;

verus! {

/// Program whose transactions the stream subscription selects.
pub const PUMP_PROGRAM: &'static str = "6EF8rrecthR5Dkzon8Nwu78hRvfCKubJ14M5uBEwF6P";

/// Aggregator address excluded from the subscription to reduce noise.
pub const JUP_PUBKEY: &'static str = "JUP6LkbZbjS1jKKwapdHNy74zcZ3tLUZoi5QNyVTaV4";

/// Subscription frame sent once, right after the stream connects: full
/// parsed transactions of [`PUMP_PROGRAM`] that did not fail, excluding
/// [`JUP_PUBKEY`], at processed commitment.
pub const SUBSCRIPTION_MSG: &'static str = "{\"id\":1,\"jsonrpc\":\"2.0\",\"method\":\"transactionSubscribe\",\"params\":[{\"accountExclude\":[\"JUP6LkbZbjS1jKKwapdHNy74zcZ3tLUZoi5QNyVTaV4\"],\"accountInclude\":[\"6EF8rrecthR5Dkzon8Nwu78hRvfCKubJ14M5uBEwF6P\"],\"failed\":false},{\"commitment\":\"processed\",\"encoding\":\"jsonParsed\",\"maxSupportedTransactionVersion\":0,\"transactionDetails\":\"full\"}]}";

/// One entry of a transaction's account-key list.
#[derive(Clone, Debug, PartialEq)]
pub struct AccountKey {
    pub pubkey: String,
    pub signer: bool,
}

/// One entry of a token-balance list. `ui_amount` is in billionths of a
/// token; `None` when the provider reported no amount for the entry.
/// Missing owner or mint strings arrive as empty strings.
#[derive(Clone, Debug, PartialEq)]
pub struct TokenBalance {
    pub owner: String,
    pub mint: String,
    pub ui_amount: Option<u64>,
}

/// Minimal schema of one streamed transaction notification: exactly the
/// fields extraction reads. A list the message did not carry is `None`.
#[derive(Clone, Debug, PartialEq)]
pub struct TxMessage {
    pub slot: u64,
    pub signature: String,
    pub account_keys: Option<Vec<AccountKey>>,
    pub pre_token_balances: Option<Vec<TokenBalance>>,
    pub post_token_balances: Option<Vec<TokenBalance>>,
    pub pre_balances: Vec<u64>,
    pub post_balances: Vec<u64>,
}

/// Mathematical image of an [`AccountKey`].
pub struct AccountKeyV {
    pub pubkey: Seq<char>,
    pub signer: bool,
}

impl View for AccountKey {
    type V = AccountKeyV;

    open spec fn view(&self) -> AccountKeyV {
        AccountKeyV { pubkey: self.pubkey@, signer: self.signer }
    }
}

/// Mathematical image of a [`TokenBalance`].
pub struct TokenBalanceV {
    pub owner: Seq<char>,
    pub mint: Seq<char>,
    pub ui_amount: Option<u64>,
}

impl View for TokenBalance {
    type V = TokenBalanceV;

    open spec fn view(&self) -> TokenBalanceV {
        TokenBalanceV { owner: self.owner@, mint: self.mint@, ui_amount: self.ui_amount }
    }
}

pub open spec fn keys_view(keys: Seq<AccountKey>) -> Seq<AccountKeyV> {
    keys.map_values(|k: AccountKey| k@)
}

pub open spec fn bals_view(bals: Seq<TokenBalance>) -> Seq<TokenBalanceV> {
    bals.map_values(|b: TokenBalance| b@)
}

/// Mathematical image of a [`TxMessage`].
pub struct TxMessageV {
    pub slot: u64,
    pub signature: Seq<char>,
    pub account_keys: Option<Seq<AccountKeyV>>,
    pub pre_token_balances: Option<Seq<TokenBalanceV>>,
    pub post_token_balances: Option<Seq<TokenBalanceV>>,
    pub pre_balances: Seq<u64>,
    pub post_balances: Seq<u64>,
}

impl View for TxMessage {
    type V = TxMessageV;

    open spec fn view(&self) -> TxMessageV {
        TxMessageV {
            slot: self.slot,
            signature: self.signature@,
            account_keys: match self.account_keys {
                Some(v) => Some(keys_view(v@)),
                None => None,
            },
            pre_token_balances: match self.pre_token_balances {
                Some(v) => Some(bals_view(v@)),
                None => None,
            },
            post_token_balances: match self.post_token_balances {
                Some(v) => Some(bals_view(v@)),
                None => None,
            },
            pre_balances: self.pre_balances@,
            post_balances: self.post_balances@,
        }
    }
}

/// The target's pre/post token balance, in billionths of a token.
#[derive(Clone, Debug, PartialEq)]
pub struct TokenAmountList {
    pub token_pre_amount: u64,
    pub token_post_amount: u64,
}

/// The pool's pre/post native balance, in lamports.
#[derive(Clone, Debug, PartialEq)]
pub struct SolAmountList {
    pub sol_pre_amount: u64,
    pub sol_post_amount: u64,
}

/// One observed on-chain swap, reconstructed from a raw message.
#[derive(Clone, Debug, PartialEq)]
pub struct TradeInfoFromToken {
    pub slot: u64,
    pub signature: String,
    pub target: String,
    pub mint: String,
    pub token_amount_list: TokenAmountList,
    pub sol_amount_list: SolAmountList,
}

/// Mathematical image of a [`TradeInfoFromToken`].
pub struct TradeInfoV {
    pub slot: u64,
    pub signature: Seq<char>,
    pub target: Seq<char>,
    pub mint: Seq<char>,
    pub token_pre_amount: u64,
    pub token_post_amount: u64,
    pub sol_pre_amount: u64,
    pub sol_post_amount: u64,
}

impl View for TradeInfoFromToken {
    type V = TradeInfoV;

    open spec fn view(&self) -> TradeInfoV {
        TradeInfoV {
            slot: self.slot,
            signature: self.signature@,
            target: self.target@,
            mint: self.mint@,
            token_pre_amount: self.token_amount_list.token_pre_amount,
            token_post_amount: self.token_amount_list.token_post_amount,
            sol_pre_amount: self.sol_amount_list.sol_pre_amount,
            sol_post_amount: self.sol_amount_list.sol_post_amount,
        }
    }
}

/// Why a raw message yields no trade event: it is not a trade notification
/// at all (no account-key list), or it is one that cannot be attributed to
/// a signing wallet (no signer flag, or a signer without a pubkey).
#[derive(Clone, Copy, Debug, PartialEq, Eq, Structural)]
pub enum ExtractError {
    NotTradeMessage,
    MalformedTrade,
}

/// First account key at or after `i` flagged as signer.
pub open spec fn signer_from(keys: Seq<AccountKeyV>, i: int) -> Option<AccountKeyV>
    decreases keys.len() - i,
{
    if i < 0 || i >= keys.len() {
        None
    } else if keys[i].signer {
        Some(keys[i])
    } else {
        signer_from(keys, i + 1)
    }
}

/// The account key the trade is attributed to: the first one flagged as
/// signer.
pub open spec fn find_signer(keys: Seq<AccountKeyV>) -> Option<AccountKeyV> {
    signer_from(keys, 0)
}

/// Token amount of the first balance entry at or after `i` owned by
/// `actor`; zero when there is none or the entry carries no amount.
pub open spec fn owned_amount_from(bals: Seq<TokenBalanceV>, actor: Seq<char>, i: int) -> u64
    decreases bals.len() - i,
{
    if i < 0 || i >= bals.len() {
        0u64
    } else if bals[i].owner == actor {
        match bals[i].ui_amount {
            Some(a) => a,
            None => 0u64,
        }
    } else {
        owned_amount_from(bals, actor, i + 1)
    }
}

pub open spec fn owned_amount(bals: Seq<TokenBalanceV>, actor: Seq<char>) -> u64 {
    owned_amount_from(bals, actor, 0)
}

/// Owner recorded as the pool after walking the first `i` balance entries:
/// the last owner that differs from the actor, or the empty string.
pub open spec fn pool_owner_upto(bals: Seq<TokenBalanceV>, actor: Seq<char>, i: int) -> Seq<char>
    decreases i,
{
    if i <= 0 || i > bals.len() {
        Seq::empty()
    } else if bals[i - 1].owner != actor {
        bals[i - 1].owner
    } else {
        pool_owner_upto(bals, actor, i - 1)
    }
}

pub open spec fn pool_owner(bals: Seq<TokenBalanceV>, actor: Seq<char>) -> Seq<char> {
    pool_owner_upto(bals, actor, bals.len() as int)
}

/// The traded token's mint: every balance entry writes it in turn, so the
/// last entry wins; empty when the list is empty.
pub open spec fn last_mint(bals: Seq<TokenBalanceV>) -> Seq<char> {
    if bals.len() == 0 {
        Seq::empty()
    } else {
        bals.last().mint
    }
}

/// Position of the first account key at or after `i` whose pubkey is `pk`.
pub open spec fn key_position_from(keys: Seq<AccountKeyV>, pk: Seq<char>, i: int) -> Option<int>
    decreases keys.len() - i,
{
    if i < 0 || i >= keys.len() {
        None
    } else if keys[i].pubkey == pk {
        Some(i)
    } else {
        key_position_from(keys, pk, i + 1)
    }
}

pub open spec fn key_position(keys: Seq<AccountKeyV>, pk: Seq<char>) -> Option<int> {
    key_position_from(keys, pk, 0)
}

/// Index used to read the pool's native balances; position of the pool
/// owner in the account-key list, falling back to zero.
pub open spec fn pool_index(keys: Seq<AccountKeyV>, pk: Seq<char>) -> int {
    match key_position(keys, pk) {
        Some(i) => i,
        None => 0,
    }
}

/// Balance list entry at `i`, defaulting to zero out of range.
pub open spec fn balance_at(bals: Seq<u64>, i: int) -> u64 {
    if 0 <= i < bals.len() {
        bals[i]
    } else {
        0u64
    }
}

/// The whole extraction, as one function of the raw message value.
pub open spec fn extract_spec(m: TxMessageV) -> Result<TradeInfoV, ExtractError> {
    match m.account_keys {
        None => Err(ExtractError::NotTradeMessage),
        Some(keys) => match find_signer(keys) {
            None => Err(ExtractError::MalformedTrade),
            Some(signer) => {
                if signer.pubkey.len() == 0 {
                    Err(ExtractError::MalformedTrade)
                } else {
                    let actor = signer.pubkey;
                    let posts = match m.post_token_balances {
                        Some(b) => b,
                        None => Seq::empty(),
                    };
                    let pres = match m.pre_token_balances {
                        Some(b) => b,
                        None => Seq::empty(),
                    };
                    let idx = pool_index(keys, pool_owner(posts, actor));
                    Ok(
                        TradeInfoV {
                            slot: m.slot,
                            signature: m.signature,
                            target: actor,
                            mint: last_mint(posts),
                            token_pre_amount: owned_amount(pres, actor),
                            token_post_amount: owned_amount(posts, actor),
                            sol_pre_amount: balance_at(m.pre_balances, idx),
                            sol_post_amount: balance_at(m.post_balances, idx),
                        },
                    )
                }
            },
        },
    }
}

pub open spec fn trade_result_view(r: Result<TradeInfoFromToken, ExtractError>) -> Result<
    TradeInfoV,
    ExtractError,
> {
    match r {
        Ok(t) => Ok(t@),
        Err(e) => Err(e),
    }
}

/// Index of the first signer-flagged key, if any.
fn find_signer_exec(keys: &Vec<AccountKey>) -> (r: Option<usize>)
    ensures
        match r {
            Some(i) => i < keys@.len() && find_signer(keys_view(keys@)) == Some(keys@[i as int]@),
            None => find_signer(keys_view(keys@)) is None,
        },
{
    let ghost kv = keys_view(keys@);
    let mut i: usize = 0;
    while i < keys.len()
        invariant
            i <= keys@.len(),
            kv == keys_view(keys@),
            find_signer(kv) == signer_from(kv, i as int),
        decreases keys@.len() - i,
    {
        proof {
            assert(kv[i as int] == keys@[i as int]@);
        }
        if keys[i].signer {
            return Some(i);
        }
        i += 1;
    }
    None
}

/// Token amount of the first balance entry owned by `actor`, zero when
/// there is none.
fn owned_amount_exec(bals: &Vec<TokenBalance>, actor: &String) -> (r: u64)
    ensures
        r == owned_amount(bals_view(bals@), actor@),
{
    let ghost bv = bals_view(bals@);
    let mut i: usize = 0;
    while i < bals.len()
        invariant
            i <= bals@.len(),
            bv == bals_view(bals@),
            owned_amount(bv, actor@) == owned_amount_from(bv, actor@, i as int),
        decreases bals@.len() - i,
    {
        proof {
            assert(bv[i as int] == bals@[i as int]@);
        }
        if bals[i].owner == *actor {
            return match bals[i].ui_amount {
                Some(a) => a,
                None => 0,
            };
        }
        i += 1;
    }
    0
}

/// The last balance-entry owner that differs from the actor, or empty.
fn pool_owner_exec(bals: &Vec<TokenBalance>, actor: &String) -> (r: String)
    ensures
        r@ == pool_owner(bals_view(bals@), actor@),
{
    let ghost bv = bals_view(bals@);
    let mut pool = String::new();
    let mut i: usize = 0;
    while i < bals.len()
        invariant
            i <= bals@.len(),
            bv == bals_view(bals@),
            pool@ == pool_owner_upto(bv, actor@, i as int),
        decreases bals@.len() - i,
    {
        proof {
            assert(bv[i as int] == bals@[i as int]@);
        }
        if !(bals[i].owner == *actor) {
            pool = bals[i].owner.clone();
        }
        i += 1;
    }
    pool
}

/// Position of `pk` in the account-key list, falling back to zero.
fn pool_index_exec(keys: &Vec<AccountKey>, pk: &String) -> (r: usize)
    ensures
        r as int == pool_index(keys_view(keys@), pk@),
        r <= keys@.len(),
{
    let ghost kv = keys_view(keys@);
    let mut i: usize = 0;
    while i < keys.len()
        invariant
            i <= keys@.len(),
            kv == keys_view(keys@),
            key_position(kv, pk@) == key_position_from(kv, pk@, i as int),
        decreases keys@.len() - i,
    {
        proof {
            assert(kv[i as int] == keys@[i as int]@);
        }
        if keys[i].pubkey == *pk {
            return i;
        }
        i += 1;
    }
    0
}

/// Balance list entry at `i`, zero when the list is shorter.
fn balance_at_exec(bals: &Vec<u64>, i: usize) -> (r: u64)
    ensures
        r == balance_at(bals@, i as int),
{
    if i < bals.len() {
        bals[i]
    } else {
        0
    }
}

impl TradeInfoFromToken {
    /// Extract the structured trade event from one raw message, or say why
    /// none can be: a message without an account-key list is not a trade
    /// notification; one whose signer cannot be determined is malformed.
    ///
    /// The result is a pure function of the message value
    /// ([`extract_spec`]), so extraction is deterministic and repeatable.
    pub fn from_json(msg: &TxMessage) -> (r: Result<TradeInfoFromToken, ExtractError>)
        ensures
            trade_result_view(r) == extract_spec(msg@),
    {
        let keys: &Vec<AccountKey> = match &msg.account_keys {
            Some(k) => k,
            None => {
                return Err(ExtractError::NotTradeMessage);
            },
        };
        let signer_idx: usize = match find_signer_exec(keys) {
            Some(i) => i,
            None => {
                return Err(ExtractError::MalformedTrade);
            },
        };
        let target: String = keys[signer_idx].pubkey.clone();
        let empty = String::new();
        if target == empty {
            return Err(ExtractError::MalformedTrade);
        }
        let no_balances: Vec<TokenBalance> = Vec::new();
        let posts: &Vec<TokenBalance> = match &msg.post_token_balances {
            Some(b) => b,
            None => &no_balances,
        };
        let pres: &Vec<TokenBalance> = match &msg.pre_token_balances {
            Some(b) => b,
            None => &no_balances,
        };
        proof {
            assert(bals_view(Seq::<TokenBalance>::empty()) =~= Seq::<TokenBalanceV>::empty());
        }
        let mint: String = if posts.len() == 0 {
            String::new()
        } else {
            posts[posts.len() - 1].mint.clone()
        };
        proof {
            let pv = bals_view(posts@);
            if posts@.len() > 0 {
                assert(pv[posts@.len() - 1] == posts@[posts@.len() - 1]@);
                assert(pv.last() == pv[pv.len() - 1]);
            }
        }
        proof {
            let kv = keys_view(keys@);
            let signer = find_signer(kv)->Some_0;
            assert(signer == keys@[signer_idx as int]@);
            assert(target@ == signer.pubkey);
            if signer.pubkey.len() == 0 {
                assert(target@ =~= Seq::<char>::empty());
            }
        }
        let token_post_amount = owned_amount_exec(posts, &target);
        let token_pre_amount = owned_amount_exec(pres, &target);
        let pool = pool_owner_exec(posts, &target);
        let idx = pool_index_exec(keys, &pool);
        let sol_post_amount = balance_at_exec(&msg.post_balances, idx);
        let sol_pre_amount = balance_at_exec(&msg.pre_balances, idx);
        Ok(
            TradeInfoFromToken {
                slot: msg.slot,
                signature: msg.signature.clone(),
                target,
                mint,
                token_amount_list: TokenAmountList { token_pre_amount, token_post_amount },
                sol_amount_list: SolAmountList { sol_pre_amount, sol_post_amount },
            },
        )
    }
}

/// Law: extraction is a pure function of the raw message value. Running it
/// twice on the same message yields identical trade events, or the
/// identical failure classification.
pub proof fn lemma_extraction_deterministic(m1: TxMessageV, m2: TxMessageV)
    requires
        m1 == m2,
    ensures
        extract_spec(m1) == extract_spec(m2),
{
}

} // verus!

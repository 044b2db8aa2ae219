//! Immutable per-run configuration and the target registry lookup.
//!
//! A [`SessionContext`] is a snapshot taken once at startup and passed by
//! reference into every component; changing the configuration means
//! building a new context and re-subscribing, never mutating this one.

use vstd::prelude::*;

verus! {

/// Configuration of one monitoring session.
#[derive(Clone, Debug)]
pub struct SessionContext {
    /// Streaming endpoint the session subscribes to.
    pub rpc_wss: String,
    /// Reference to the wallet keypair the copy trades are signed with.
    pub wallet: String,
    /// Percentage the observed trade delta is scaled by.
    pub token_percent: u64,
    /// Slippage tolerance, in basis points, copied into every intent.
    pub slippage: u64,
    /// Wallet addresses whose trades this session mirrors.
    pub targets: Vec<String>,
}

impl SessionContext {
    /// Snapshot a session configuration.
    pub fn new(
        rpc_wss: String,
        wallet: String,
        token_percent: u64,
        slippage: u64,
        targets: Vec<String>,
    ) -> (r: SessionContext)
        ensures
            r.rpc_wss == rpc_wss,
            r.wallet == wallet,
            r.token_percent == token_percent,
            r.slippage == slippage,
            r.targets == targets,
    {
        SessionContext { rpc_wss, wallet, token_percent, slippage, targets }
    }
}

/// The address sequences of a target list.
pub open spec fn targets_view(targets: Seq<String>) -> Seq<Seq<char>> {
    targets.map_values(|s: String| s@)
}

/// Whether `addr` is one of the configured copy-target addresses.
pub open spec fn is_target_spec(targets: Seq<Seq<char>>, addr: Seq<char>) -> bool {
    targets.contains(addr)
}

/// Registry lookup: is `addr` one of the session's copy targets?
pub fn is_target(targets: &Vec<String>, addr: &String) -> (r: bool)
    ensures
        r == is_target_spec(targets_view(targets@), addr@),
{
    let ghost tv = targets_view(targets@);
    let mut i: usize = 0;
    while i < targets.len()
        invariant
            i <= targets@.len(),
            tv == targets_view(targets@),
            forall|j: int| 0 <= j < i ==> tv[j] != addr@,
        decreases targets@.len() - i,
    {
        proof {
            assert(tv[i as int] == targets@[i as int]@);
        }
        if targets[i] == *addr {
            return true;
        }
        i += 1;
    }
    proof {
        assert(!tv.contains(addr@)) by {
            if tv.contains(addr@) {
                let w = choose|w: int| 0 <= w < tv.len() && tv[w] == addr@;
                assert(tv[w] != addr@);
            }
        }
    }
    false
}

} // verus!

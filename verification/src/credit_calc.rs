//! Credit amounts for requests routed through intermediate nodes: what a
//! node earns on success or failure, and what it must freeze while a
//! request is in flight.

use vstd::prelude::*;

verus! {

/// Credits paid to the destination node upon issuing a signed response:
/// `processing_fee_proposal + request_len * credits_per_byte_proposal
///  + (max_response_len - response_len)`.
pub open spec fn success_dest_credits(
    processing_fee_proposal: u64,
    request_len: u32,
    credits_per_byte_proposal: u64,
    response_len: u32,
    max_response_len: u32,
) -> int {
    processing_fee_proposal + request_len * credits_per_byte_proposal + max_response_len
        - response_len
}

/// Amount of credits paid to the destination node, the last node along
/// the route of a request, upon issuing a signed response message.
/// Returns `None` on overflow, or when the response is longer than the
/// request allowed.
pub fn credits_on_success_dest(
    processing_fee_proposal: u64,
    request_len: u32,
    credits_per_byte_proposal: u64,
    response_len: u32,
    max_response_len: u32,
) -> (r: Option<u64>)
    ensures
        match r {
            Some(v) => response_len <= max_response_len && v == success_dest_credits(
                processing_fee_proposal,
                request_len,
                credits_per_byte_proposal,
                response_len,
                max_response_len,
            ),
            None => response_len > max_response_len || success_dest_credits(
                processing_fee_proposal,
                request_len,
                credits_per_byte_proposal,
                response_len,
                max_response_len,
            ) > u64::MAX,
        },
{
    if response_len > max_response_len {
        return None;
    }
    let len_diff = (max_response_len - response_len) as u64;
    let rl = request_len as u64;
    proof {
        assert(rl * credits_per_byte_proposal >= 0) by (nonlinear_arith)
            requires
                rl >= 0,
                credits_per_byte_proposal >= 0,
        ;
    }
    if credits_per_byte_proposal != 0 && rl > u64::MAX / credits_per_byte_proposal {
        proof {
            let q = (u64::MAX as int) / (credits_per_byte_proposal as int);
            assert(rl * credits_per_byte_proposal > u64::MAX) by (nonlinear_arith)
                requires
                    rl > q,
                    credits_per_byte_proposal > 0,
                    q == (u64::MAX as int) / (credits_per_byte_proposal as int),
            {
                vstd::arithmetic::div_mod::lemma_fundamental_div_mod(
                    u64::MAX as int,
                    credits_per_byte_proposal as int,
                );
            }
        }
        return None;
    }
    let bytes_credits = if credits_per_byte_proposal == 0 {
        0u64
    } else {
        proof {
            let q = (u64::MAX as int) / (credits_per_byte_proposal as int);
            assert(rl * credits_per_byte_proposal <= u64::MAX) by (nonlinear_arith)
                requires
                    0 <= rl <= q,
                    credits_per_byte_proposal > 0,
                    q == (u64::MAX as int) / (credits_per_byte_proposal as int),
            {
                vstd::arithmetic::div_mod::lemma_fundamental_div_mod(
                    u64::MAX as int,
                    credits_per_byte_proposal as int,
                );
                vstd::arithmetic::div_mod::lemma_mod_division_less_than_divisor(
                    u64::MAX as int,
                    credits_per_byte_proposal as int,
                );
            }
        }
        rl * credits_per_byte_proposal
    };
    if processing_fee_proposal > u64::MAX - bytes_credits {
        return None;
    }
    let partial = processing_fee_proposal + bytes_credits;
    if partial > u64::MAX - len_diff {
        return None;
    }
    Some(partial + len_diff)
}

/// Credits paid to a node `nodes_to_dest` hops before the destination for
/// sending back a valid response:
/// `(request_len + response_len) * credits_per_byte_proposal
///  * nodes_to_dest + success_dest_credits(..)`.
pub open spec fn success_credits(
    processing_fee_proposal: u64,
    request_len: u32,
    credits_per_byte_proposal: u64,
    max_response_len: u32,
    response_len: u32,
    nodes_to_dest: usize,
) -> int {
    (request_len + response_len) * credits_per_byte_proposal * nodes_to_dest
        + success_dest_credits(
        processing_fee_proposal,
        request_len,
        credits_per_byte_proposal,
        response_len,
        max_response_len,
    )
}

/// Amount of credit paid to a node that sent a valid response, which
/// closes an open request. The amount depends on the original request and
/// on the node's distance from the destination; `credits_on_success_dest`
/// is the special case `nodes_to_dest = 0`. Returns `None` on overflow.
pub fn credits_on_success(
    processing_fee_proposal: u64,
    request_len: u32,
    credits_per_byte_proposal: u64,
    max_response_len: u32,
    response_len: u32,
    nodes_to_dest: usize,
) -> (r: Option<u64>)
    ensures
        match r {
            Some(v) => response_len <= max_response_len && v == success_credits(
                processing_fee_proposal,
                request_len,
                credits_per_byte_proposal,
                max_response_len,
                response_len,
                nodes_to_dest,
            ),
            None => response_len > max_response_len || success_credits(
                processing_fee_proposal,
                request_len,
                credits_per_byte_proposal,
                max_response_len,
                response_len,
                nodes_to_dest,
            ) > u64::MAX,
        },
{
    let dest_credits = match credits_on_success_dest(
        processing_fee_proposal,
        request_len,
        credits_per_byte_proposal,
        response_len,
        max_response_len,
    ) {
        None => {
            proof {
                if response_len <= max_response_len {
                    assert((request_len + response_len) * credits_per_byte_proposal
                        * nodes_to_dest >= 0) by (nonlinear_arith);
                }
            }
            return None;
        },
        Some(v) => v,
    };
    // (request_len + response_len) * credits_per_byte_proposal fits in
    // u128 comfortably; check the bound against u64 afterwards.
    let lens = (request_len as u128) + (response_len as u128);
    proof {
        assert(lens * (credits_per_byte_proposal as u128) <= 0x1ffffffff * 0xffffffffffffffff)
            by (nonlinear_arith)
            requires
                lens <= 0x1ffffffff,
                credits_per_byte_proposal <= 0xffffffffffffffff,
        ;
    }
    let per_hop_wide = lens * (credits_per_byte_proposal as u128);
    let nodes = nodes_to_dest as u128;
    if per_hop_wide != 0 && nodes > u128::MAX / per_hop_wide {
        proof {
            let q = (u128::MAX as int) / (per_hop_wide as int);
            assert(per_hop_wide * nodes > u128::MAX) by (nonlinear_arith)
                requires
                    nodes > q,
                    per_hop_wide > 0,
                    q == (u128::MAX as int) / (per_hop_wide as int),
            {
                vstd::arithmetic::div_mod::lemma_fundamental_div_mod(
                    u128::MAX as int,
                    per_hop_wide as int,
                );
            }
            assert(per_hop_wide * nodes + dest_credits > u64::MAX);
        }
        return None;
    }
    proof {
        if per_hop_wide != 0 {
            let q = (u128::MAX as int) / (per_hop_wide as int);
            assert(per_hop_wide * nodes <= u128::MAX) by (nonlinear_arith)
                requires
                    0 <= nodes <= q,
                    per_hop_wide > 0,
                    q == (u128::MAX as int) / (per_hop_wide as int),
            {
                vstd::arithmetic::div_mod::lemma_fundamental_div_mod(
                    u128::MAX as int,
                    per_hop_wide as int,
                );
                vstd::arithmetic::div_mod::lemma_mod_division_less_than_divisor(
                    u128::MAX as int,
                    per_hop_wide as int,
                );
            }
        } else {
            assert(per_hop_wide * nodes == 0) by (nonlinear_arith)
                requires
                    per_hop_wide == 0,
            ;
        }
    }
    let hops_credits = per_hop_wide * nodes;
    if hops_credits > (u64::MAX as u128) - (dest_credits as u128) {
        return None;
    }
    let total = hops_credits + (dest_credits as u128);
    Some(total as u64)
}

/// Credits paid to a node on failure:
/// `request_len * (nodes_to_reporting + 1)`.
pub open spec fn failure_credits(request_len: u32, nodes_to_reporting: usize) -> int {
    request_len * (nodes_to_reporting + 1)
}

/// The amount of credits paid to a node in case of failure. The amount
/// depends on the length of the request message and on the distance to
/// the reporting node. Returns `None` on overflow.
pub fn credits_on_failure(request_len: u32, nodes_to_reporting: usize) -> (r: Option<u64>)
    ensures
        match r {
            Some(v) => v == failure_credits(request_len, nodes_to_reporting),
            None => failure_credits(request_len, nodes_to_reporting) > u64::MAX,
        },
{
    let rl = request_len as u128;
    let hops = (nodes_to_reporting as u128) + 1;
    proof {
        assert(rl * hops <= 0xffffffff * 0x10000000000000000) by (nonlinear_arith)
            requires
                rl <= 0xffffffff,
                hops <= 0x10000000000000000,
        ;
    }
    let wide = rl * hops;
    if wide > u64::MAX as u128 {
        None
    } else {
        Some(wide as u64)
    }
}

/// Compute the amount of credits a node along a request route must
/// freeze: the maximum it could earn. As the success credits are linear
/// in the response length, the maximum is reached at one of the two
/// edges, an empty response or a maximal one.
pub fn credits_to_freeze(
    processing_fee_proposal: u64,
    request_len: u32,
    credits_per_byte_proposal: u64,
    max_response_len: u32,
    nodes_to_dest: usize,
) -> (r: Option<u64>)
    ensures
        match r {
            Some(v) => {
                let zero_len = success_credits(
                    processing_fee_proposal,
                    request_len,
                    credits_per_byte_proposal,
                    max_response_len,
                    0,
                    nodes_to_dest,
                );
                let max_len = success_credits(
                    processing_fee_proposal,
                    request_len,
                    credits_per_byte_proposal,
                    max_response_len,
                    max_response_len,
                    nodes_to_dest,
                );
                v == if zero_len <= max_len {
                    zero_len
                } else {
                    max_len
                }
            },
            None => success_credits(
                processing_fee_proposal,
                request_len,
                credits_per_byte_proposal,
                max_response_len,
                0,
                nodes_to_dest,
            ) > u64::MAX || success_credits(
                processing_fee_proposal,
                request_len,
                credits_per_byte_proposal,
                max_response_len,
                max_response_len,
                nodes_to_dest,
            ) > u64::MAX,
        },
{
    let credits_resp_len_zero = match credits_on_success(
        processing_fee_proposal,
        request_len,
        credits_per_byte_proposal,
        max_response_len,
        0,
        nodes_to_dest,
    ) {
        None => {
            return None;
        },
        Some(v) => v,
    };
    let credits_resp_len_max = match credits_on_success(
        processing_fee_proposal,
        request_len,
        credits_per_byte_proposal,
        max_response_len,
        max_response_len,
        nodes_to_dest,
    ) {
        None => {
            return None;
        },
        Some(v) => v,
    };
    if credits_resp_len_zero <= credits_resp_len_max {
        Some(credits_resp_len_zero)
    } else {
        Some(credits_resp_len_max)
    }
}

} // verus!

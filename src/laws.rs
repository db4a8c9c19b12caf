//! Properties of the auction that span several calls.
use vstd::prelude::*;

use crate::account::AccountId;
use crate::amount::Amount;
use crate::auction::{BlockNumber, Error, PoetChainX, Transfer};

verus! {

/// The funds that a transfer moves out of escrow, if there is one.
pub open spec fn paid_out(t: Option<Transfer>) -> nat {
    match t {
        Some(t) => t.amount@,
        None => 0,
    }
}

/// Along any run of accepted bids the best offer never decreases, and after
/// each accepted bid it is held by the one who placed it.
pub proof fn lemma_accepted_bids_raise_offer(
    states: Seq<PoetChainX>,
    bidders: Seq<AccountId>,
    nows: Seq<BlockNumber>,
    values: Seq<Amount>,
    refunds_sent: Seq<bool>,
)
    requires
        states.len() == bidders.len() + 1,
        nows.len() == bidders.len(),
        values.len() == bidders.len(),
        refunds_sent.len() == bidders.len(),
        forall|i: int|
            0 <= i < bidders.len() ==> {
                &&& (#[trigger] states[i]).bid_outcome(bidders[i], nows[i], values[i], refunds_sent[i]) is Ok
                &&& states[i].accepts_bid(&states[i + 1], bidders[i], values[i])
            },
    ensures
        forall|i: int, j: int|
            0 <= i <= j < states.len() ==> (#[trigger] states[i]).spec_highest_bid()@
                <= (#[trigger] states[j]).spec_highest_bid()@,
        forall|i: int|
            0 < i < states.len() ==> (#[trigger] states[i]).spec_highest_bidder() == Some(bidders[i - 1]),
    decreases bidders.len(),
{
    if bidders.len() > 0 {
        let n = bidders.len() - 1;
        lemma_accepted_bids_raise_offer(
            states.drop_last(),
            bidders.drop_last(),
            nows.drop_last(),
            values.drop_last(),
            refunds_sent.drop_last(),
        );
        assert(states[n].bid_outcome(bidders[n], nows[n], values[n], refunds_sent[n]) is Ok);
        assert(states[n].accepts_bid(&states[n + 1], bidders[n], values[n]));
        assert forall|i: int, j: int|
            0 <= i <= j < states.len() implies (#[trigger] states[i]).spec_highest_bid()@
                <= (#[trigger] states[j]).spec_highest_bid()@ by {
            if j == states.len() - 1 && i < j {
                assert(states.drop_last()[i] == states[i]);
                assert(states.drop_last()[n] == states[n]);
            } else if i < j {
                assert(states.drop_last()[i] == states[i]);
                assert(states.drop_last()[j] == states[j]);
            }
        }
        assert forall|i: int|
            0 < i < states.len() implies (#[trigger] states[i]).spec_highest_bidder() == Some(bidders[i - 1]) by {
            if i < states.len() - 1 {
                assert(states.drop_last()[i] == states[i]);
                assert(bidders.drop_last()[i - 1] == bidders[i - 1]);
            }
        }
    }
}

/// While the auction is open the escrow holds exactly the best offer: an
/// accepted bid brings its value in and pays the displaced one back, which
/// leaves exactly the new best offer, and the auction stays open.
pub proof fn lemma_bid_keeps_escrow(
    pre: PoetChainX,
    post: PoetChainX,
    bidder: AccountId,
    now: BlockNumber,
    value: Amount,
    refund_sent: bool,
    escrow: int,
)
    requires
        pre.wf(),
        escrow == pre.spec_highest_bid()@,
        pre.bid_outcome(bidder, now, value, refund_sent) is Ok,
        pre.accepts_bid(&post, bidder, value),
    ensures
        escrow + value@ - paid_out(pre.refund_due()) == post.spec_highest_bid()@,
        post.spec_active(),
{
    pre.lemma_wf_offer();
}

/// Finalizing pays out the whole escrow: if it held exactly the best offer,
/// nothing is left once the auction has ended.
pub proof fn lemma_end_empties_escrow(
    pre: PoetChainX,
    post: PoetChainX,
    caller: AccountId,
    now: BlockNumber,
    payout_sent: bool,
    escrow: int,
)
    requires
        pre.wf(),
        escrow == pre.spec_highest_bid()@,
        pre.end_outcome(caller, now, payout_sent) is Ok,
        pre.ends_as(&post),
    ensures
        escrow - paid_out(pre.payout_due()) == 0,
        !post.spec_active(),
{
    pre.lemma_wf_offer();
}

/// A bid that does not beat the best offer is refused as too low while the
/// auction is open, ties and zero bids included; a zero bid is never
/// accepted at all.
pub proof fn lemma_low_bid_refused(
    s: PoetChainX,
    bidder: AccountId,
    now: BlockNumber,
    value: Amount,
    refund_sent: bool,
)
    ensures
        s.spec_active() && now <= s.spec_end_block() && value@ <= s.spec_highest_bid()@
            ==> s.bid_outcome(bidder, now, value, refund_sent) == Err::<
            (Option<crate::auction::BidRefunded>, crate::auction::BidPlaced),
            Error,
        >(Error::BidTooLow),
        value@ == 0 ==> s.bid_outcome(bidder, now, value, refund_sent) is Err,
{
}

/// The auction cannot be finalized through its last block: such a call
/// fails, and by the seller on an open auction it fails as still running.
pub proof fn lemma_no_end_before_deadline(
    s: PoetChainX,
    caller: AccountId,
    now: BlockNumber,
    payout_sent: bool,
)
    requires
        now <= s.spec_end_block(),
    ensures
        s.end_outcome(caller, now, payout_sent) is Err,
        s.spec_active() && caller == s.spec_seller() ==> s.end_outcome(caller, now, payout_sent)
            == Err::<crate::auction::AuctionEnded, Error>(Error::AuctionStillRunning),
{
}

/// Finalization is terminal: once it has succeeded, every later attempt to
/// finalize fails as already ended, and every later bid as not active.
pub proof fn lemma_end_is_final(
    pre: PoetChainX,
    post: PoetChainX,
    caller: AccountId,
    now: BlockNumber,
    payout_sent: bool,
)
    requires
        pre.end_outcome(caller, now, payout_sent) is Ok,
        pre.ends_as(&post),
    ensures
        forall|c: AccountId, n: BlockNumber, p: bool|
            #[trigger] post.end_outcome(c, n, p) == Err::<crate::auction::AuctionEnded, Error>(
                Error::AuctionAlreadyEnded,
            ),
        forall|b: AccountId, n: BlockNumber, v: Amount, r: bool|
            #[trigger] post.bid_outcome(b, n, v, r) == Err::<
                (Option<crate::auction::BidRefunded>, crate::auction::BidPlaced),
                Error,
            >(Error::AuctionNotActive),
{
}

/// Only the seller can finalize: anyone else fails, and on an open auction
/// fails as unauthorized, whatever the block.
pub proof fn lemma_only_seller_ends(
    s: PoetChainX,
    caller: AccountId,
    now: BlockNumber,
    payout_sent: bool,
)
    ensures
        s.end_outcome(caller, now, payout_sent) is Ok ==> caller == s.spec_seller(),
        s.spec_active() && caller != s.spec_seller() ==> s.end_outcome(caller, now, payout_sent)
            == Err::<crate::auction::AuctionEnded, Error>(Error::UnAuthorized),
{
}

} // verus!

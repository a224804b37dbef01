use vstd::prelude::*;
use crate::account::is_direct_sub_account;
use crate::payouts::{
    entry_decision, eligibility_decision, PayoutError, is_eligible, not_whitelisted_marker,
    transfer_decision, transfer_failed_marker, EffectView, RequestView, WhitelistPayouts,
};

verus! {

/// A transfer that reaches its target.
pub struct Delivery {
    pub target: Seq<char>,
    pub amount: u128,
}

/// What the continuations of an accepted request ask of the host: the
/// eligibility continuation's effect, and the transfer continuation's where
/// it runs.
pub struct Chain {
    pub first: EffectView,
    pub second: Option<EffectView>,
}

/// The chain of an accepted request: the eligibility continuation runs on the
/// lookup's result and, where it pays the receiver, the transfer continuation
/// runs on that transfer's result.
pub open spec fn chain_of(
    req: RequestView,
    lookup_ok: bool,
    answer: Option<bool>,
    transfer_ok: bool,
) -> Chain {
    let first = eligibility_decision(lookup_ok, answer, req).effect;
    match first {
        EffectView::PayReceiver { request, .. } => Chain {
            first,
            second: Some(transfer_decision(transfer_ok, request).effect),
        },
        _ => Chain { first, second: None },
    }
}

/// The transfers that reach their targets by one effect. A transfer to the
/// receiver arrives when the host reported it succeeded (it bounces back to
/// the coordinator otherwise); a refund arrives.
pub open spec fn delivered(e: EffectView, transfer_ok: bool) -> Seq<Delivery> {
    match e {
        EffectView::PayReceiver { request, .. } => if transfer_ok {
            seq![Delivery { target: request.receiver, amount: request.amount }]
        } else {
            seq![]
        },
        EffectView::RefundPayer { payer, amount, .. } => seq![Delivery { target: payer, amount }],
        EffectView::RecordPayout { .. } => seq![],
    }
}

/// The transfers that reach their targets over a whole chain.
pub open spec fn chain_deliveries(ch: Chain, transfer_ok: bool) -> Seq<Delivery> {
    match ch.second {
        Some(e) => delivered(ch.first, transfer_ok) + delivered(e, transfer_ok),
        None => delivered(ch.first, transfer_ok),
    }
}

/// The diagnostic line one effect logs, if any.
pub open spec fn diagnostic_log(e: EffectView) -> Seq<Seq<char>> {
    match e {
        EffectView::RefundPayer { log, .. } => seq![log],
        _ => seq![],
    }
}

/// The diagnostic lines a chain logs, in order.
pub open spec fn chain_logs(ch: Chain) -> Seq<Seq<char>> {
    match ch.second {
        Some(e) => diagnostic_log(ch.first) + diagnostic_log(e),
        None => diagnostic_log(ch.first),
    }
}

/// The payment records a chain logs.
pub open spec fn payment_record(e: EffectView) -> Seq<(u128, Seq<char>, Seq<char>)> {
    match e {
        EffectView::RecordPayout { amount, payer, receiver } => seq![(amount, payer, receiver)],
        _ => seq![],
    }
}

pub open spec fn chain_records(ch: Chain) -> Seq<(u128, Seq<char>, Seq<char>)> {
    match ch.second {
        Some(e) => payment_record(ch.first) + payment_record(e),
        None => payment_record(ch.first),
    }
}

/// The request that the entry stage carries, where it accepts the call.
pub open spec fn accepted_request(
    c: WhitelistPayouts,
    caller: Seq<char>,
    deposit: u128,
    receiver: Seq<char>,
) -> RequestView {
    entry_decision(c.factory_id(), c.oracle_id(), caller, deposit, receiver)->Ok_0.request
}

/// Conservation: for every request that the entry stage accepts, whatever
/// the lookup and the transfer report, exactly one transfer of the whole
/// attached value reaches its target, and that target is the receiver or the
/// payer. The value is never paid twice, never lost, never kept.
pub proof fn lemma_value_conserved(
    c: WhitelistPayouts,
    caller: Seq<char>,
    deposit: u128,
    receiver: Seq<char>,
    lookup_ok: bool,
    answer: Option<bool>,
    transfer_ok: bool,
)
    requires
        entry_decision(c.factory_id(), c.oracle_id(), caller, deposit, receiver) is Ok,
    ensures
        ({
            let d = chain_deliveries(
                chain_of(accepted_request(c, caller, deposit, receiver), lookup_ok, answer, transfer_ok),
                transfer_ok,
            );
            &&& d.len() == 1
            &&& d[0].amount == deposit
            &&& d[0].target == receiver || d[0].target == caller
        }),
{
}

/// A caller that is not a direct child account of the factory is refused
/// before anything else, so no value moves and no remote call is made.
pub proof fn lemma_unauthorized_refused(
    c: WhitelistPayouts,
    caller: Seq<char>,
    deposit: u128,
    receiver: Seq<char>,
)
    requires
        !is_direct_sub_account(caller, c.factory_id()),
    ensures
        entry_decision(c.factory_id(), c.oracle_id(), caller, deposit, receiver) == Err::<
            crate::payouts::CheckView,
            PayoutError,
        >(PayoutError::UnauthorizedCaller),
{
}

/// A call with no value attached is refused, so no value moves and no remote
/// call is made; an authorized caller gets the zero-value error.
pub proof fn lemma_zero_value_refused(
    c: WhitelistPayouts,
    caller: Seq<char>,
    receiver: Seq<char>,
)
    ensures
        entry_decision(c.factory_id(), c.oracle_id(), caller, 0, receiver) is Err,
        is_direct_sub_account(caller, c.factory_id()) ==> entry_decision(
            c.factory_id(),
            c.oracle_id(),
            caller,
            0,
            receiver,
        ) == Err::<crate::payouts::CheckView, PayoutError>(PayoutError::ZeroValue),
{
}

/// An eligible receiver whose transfer succeeds gets the whole value, nothing
/// goes back to the payer, no diagnostic line is logged, and one payment
/// record holds the exact amount, payer and receiver.
pub proof fn lemma_paid(
    c: WhitelistPayouts,
    caller: Seq<char>,
    deposit: u128,
    receiver: Seq<char>,
    lookup_ok: bool,
    answer: Option<bool>,
)
    requires
        entry_decision(c.factory_id(), c.oracle_id(), caller, deposit, receiver) is Ok,
        is_eligible(lookup_ok, answer),
    ensures
        ({
            let ch = chain_of(accepted_request(c, caller, deposit, receiver), lookup_ok, answer, true);
            &&& chain_deliveries(ch, true) == seq![Delivery { target: receiver, amount: deposit }]
            &&& chain_records(ch) == seq![(deposit, caller, receiver)]
            &&& chain_logs(ch) == Seq::<Seq<char>>::empty()
        }),
{
    let ch = chain_of(accepted_request(c, caller, deposit, receiver), lookup_ok, answer, true);
    assert(chain_deliveries(ch, true) =~= seq![Delivery { target: receiver, amount: deposit }]);
    assert(chain_records(ch) =~= seq![(deposit, caller, receiver)]);
    assert(chain_logs(ch) =~= Seq::<Seq<char>>::empty());
}

/// A receiver that is not eligible (or whose lookup failed) gets nothing: the
/// whole value goes back to the payer, and exactly one line, the
/// not-allow-listed marker, is logged.
pub proof fn lemma_refused_receiver_refunded(
    c: WhitelistPayouts,
    caller: Seq<char>,
    deposit: u128,
    receiver: Seq<char>,
    lookup_ok: bool,
    answer: Option<bool>,
    transfer_ok: bool,
)
    requires
        entry_decision(c.factory_id(), c.oracle_id(), caller, deposit, receiver) is Ok,
        !is_eligible(lookup_ok, answer),
    ensures
        ({
            let ch = chain_of(accepted_request(c, caller, deposit, receiver), lookup_ok, answer, transfer_ok);
            &&& chain_deliveries(ch, transfer_ok) == seq![Delivery { target: caller, amount: deposit }]
            &&& chain_logs(ch) == seq![not_whitelisted_marker()]
            &&& chain_records(ch) == Seq::<(u128, Seq<char>, Seq<char>)>::empty()
        }),
{
}

/// When the transfer to an eligible receiver fails (the account does not
/// exist, or the host refuses it), the whole value goes back to the payer,
/// none stays with the coordinator, and exactly one line, the
/// transfer-failure marker, is logged.
pub proof fn lemma_failed_transfer_refunded(
    c: WhitelistPayouts,
    caller: Seq<char>,
    deposit: u128,
    receiver: Seq<char>,
    lookup_ok: bool,
    answer: Option<bool>,
)
    requires
        entry_decision(c.factory_id(), c.oracle_id(), caller, deposit, receiver) is Ok,
        is_eligible(lookup_ok, answer),
    ensures
        ({
            let ch = chain_of(accepted_request(c, caller, deposit, receiver), lookup_ok, answer, false);
            &&& chain_deliveries(ch, false) == seq![Delivery { target: caller, amount: deposit }]
            &&& chain_logs(ch) == seq![transfer_failed_marker()]
            &&& chain_records(ch) == Seq::<(u128, Seq<char>, Seq<char>)>::empty()
        }),
{
    let ch = chain_of(accepted_request(c, caller, deposit, receiver), lookup_ok, answer, false);
    assert(chain_deliveries(ch, false) =~= seq![Delivery { target: caller, amount: deposit }]);
    assert(chain_logs(ch) =~= seq![transfer_failed_marker()]);
    assert(chain_records(ch) =~= Seq::<(u128, Seq<char>, Seq<char>)>::empty());
}

/// How many transfers to the receiver a chain attempts.
pub open spec fn receiver_attempts(ch: Chain) -> nat {
    let a: nat = if ch.first is PayReceiver { 1 } else { 0 };
    let b: nat = match ch.second {
        Some(e) => if e is PayReceiver { 1 } else { 0 },
        None => 0,
    };
    a + b
}

/// A chain attempts at most one transfer to the receiver, and one exactly
/// when the lookup found the receiver eligible: nothing is retried. The one
/// lookup is the entry stage's; no effect of a continuation is a lookup.
pub proof fn lemma_single_attempt(
    c: WhitelistPayouts,
    caller: Seq<char>,
    deposit: u128,
    receiver: Seq<char>,
    lookup_ok: bool,
    answer: Option<bool>,
    transfer_ok: bool,
)
    requires
        entry_decision(c.factory_id(), c.oracle_id(), caller, deposit, receiver) is Ok,
    ensures
        receiver_attempts(chain_of(accepted_request(c, caller, deposit, receiver), lookup_ok, answer, transfer_ok)) <= 1,
        receiver_attempts(chain_of(accepted_request(c, caller, deposit, receiver), lookup_ok, answer, transfer_ok)) == 1
            <==> is_eligible(lookup_ok, answer),
{
}

} // verus!

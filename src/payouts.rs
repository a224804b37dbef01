use vstd::prelude::*;
use crate::account::{is_direct_sub_account, is_sub_account_of};

verus! {

/// Gas given to the transfer continuation (25 Tgas).
pub const CALLBACK_GAS: u64 = 25_000_000_000_000;

/// Gas given to the allow-list lookup: enough for a lookup, not for a full
/// execution (5 Tgas).
pub const CHECK_CALL_GAS: u64 = 5_000_000_000_000;

/// Gas given to the eligibility continuation: it covers either of the two
/// chains that continuation may start (50 Tgas).
pub const ELIGIBILITY_CALLBACK_GAS: u64 = 2 * CALLBACK_GAS;

/// Name of the allow-list service's lookup method.
pub open spec fn lookup_method() -> Seq<char> {
    "is_whitelisted"@
}

/// Log line of the eligibility continuation when the receiver is refused.
pub open spec fn not_whitelisted_marker() -> Seq<char> {
    "ERR_RECEIVER_IS_NOT_WHITELISTED"@
}

/// Log line of the transfer continuation when the transfer failed.
pub open spec fn transfer_failed_marker() -> Seq<char> {
    "ERR_TRANSFERRING_TO_RECEIVER_ACCOUNT_FAILED"@
}

/// Why the entry stage refuses a call. No value moves and no remote call is
/// made in either case.
#[derive(Debug, Clone, Copy, PartialEq, Eq, Structural)]
pub enum PayoutError {
    /// The caller is not a direct child account of the factory.
    UnauthorizedCaller,
    /// No value was attached.
    ZeroValue,
}

impl PayoutError {
    /// The abort message that the host shows for this error.
    pub fn message(&self) -> (r: String)
        ensures
            *self == PayoutError::UnauthorizedCaller ==> r@ == "ERR_CALLED_ONLY_BY_FACTORY_SUB-ACCOUNT"@,
            *self == PayoutError::ZeroValue ==> r@ == "ERR_DEPOSIT_AMOUNT_CANNOT_BE_ZERO"@,
    {
        match self {
            PayoutError::UnauthorizedCaller => "ERR_CALLED_ONLY_BY_FACTORY_SUB-ACCOUNT".to_owned(),
            PayoutError::ZeroValue => "ERR_DEPOSIT_AMOUNT_CANNOT_BE_ZERO".to_owned(),
        }
    }
}

/// One payout in flight: captured by the entry stage and carried unchanged
/// through both continuations.
pub struct PayoutRequest {
    /// The receiver.
    pub account_id: String,
    /// The attached value.
    pub amount: u128,
    /// The payer: the account that called the entry stage.
    pub predecessor_account_id: String,
}

/// What a payout request holds.
pub struct RequestView {
    pub receiver: Seq<char>,
    pub amount: u128,
    pub payer: Seq<char>,
}

impl View for PayoutRequest {
    type V = RequestView;

    open spec fn view(&self) -> RequestView {
        RequestView {
            receiver: self.account_id@,
            amount: self.amount,
            payer: self.predecessor_account_id@,
        }
    }
}

/// What the entry stage asks of the host: call `method_name` on the
/// allow-list service about the receiver, then run the eligibility
/// continuation on its answer with `request`.
pub struct EligibilityCheck {
    pub whitelist_contract: String,
    pub method_name: String,
    pub lookup_gas: u64,
    pub callback_gas: u64,
    pub request: PayoutRequest,
}

pub struct CheckView {
    pub oracle: Seq<char>,
    pub method_name: Seq<char>,
    pub lookup_gas: u64,
    pub callback_gas: u64,
    pub request: RequestView,
}

impl View for EligibilityCheck {
    type V = CheckView;

    open spec fn view(&self) -> CheckView {
        CheckView {
            oracle: self.whitelist_contract@,
            method_name: self.method_name@,
            lookup_gas: self.lookup_gas,
            callback_gas: self.callback_gas,
            request: self.request@,
        }
    }
}

/// What a continuation asks of the host.
pub enum Effect {
    /// Send the request's amount to its receiver, then run the transfer
    /// continuation on the transfer's result with the request.
    PayReceiver { request: PayoutRequest, callback_gas: u64 },
    /// Log `log`, then send `amount` back to `payer`. Nothing follows.
    RefundPayer { payer: String, amount: u128, log: String },
    /// Log the record of a completed payment. Nothing follows.
    RecordPayout { amount: u128, payer: String, receiver: String },
}

pub enum EffectView {
    PayReceiver { request: RequestView, callback_gas: u64 },
    RefundPayer { payer: Seq<char>, amount: u128, log: Seq<char> },
    RecordPayout { amount: u128, payer: Seq<char>, receiver: Seq<char> },
}

impl View for Effect {
    type V = EffectView;

    open spec fn view(&self) -> EffectView {
        match self {
            Effect::PayReceiver { request, callback_gas } => EffectView::PayReceiver {
                request: request@,
                callback_gas: *callback_gas,
            },
            Effect::RefundPayer { payer, amount, log } => EffectView::RefundPayer {
                payer: payer@,
                amount: *amount,
                log: log@,
            },
            Effect::RecordPayout { amount, payer, receiver } => EffectView::RecordPayout {
                amount: *amount,
                payer: payer@,
                receiver: receiver@,
            },
        }
    }
}

/// The result of a continuation: the value it returns to the host, and what
/// the host must do next.
pub struct StageOutcome {
    pub returned: bool,
    pub effect: Effect,
}

pub struct OutcomeView {
    pub returned: bool,
    pub effect: EffectView,
}

impl View for StageOutcome {
    type V = OutcomeView;

    open spec fn view(&self) -> OutcomeView {
        OutcomeView { returned: self.returned, effect: self.effect@ }
    }
}

/// What the entry stage's result holds.
pub open spec fn check_result_view(r: Result<EligibilityCheck, PayoutError>) -> Result<CheckView, PayoutError> {
    match r {
        Ok(c) => Ok(c@),
        Err(e) => Err(e),
    }
}

/// The entry stage's rule: refuse an unauthorized caller, then a zero value;
/// otherwise ask the allow-list service about the receiver, carrying the
/// receiver, the value and the caller as payer.
pub open spec fn entry_decision(
    factory: Seq<char>,
    oracle: Seq<char>,
    caller: Seq<char>,
    deposit: u128,
    receiver: Seq<char>,
) -> Result<CheckView, PayoutError> {
    if !is_direct_sub_account(caller, factory) {
        Err(PayoutError::UnauthorizedCaller)
    } else if deposit == 0 {
        Err(PayoutError::ZeroValue)
    } else {
        Ok(CheckView {
            oracle,
            method_name: lookup_method(),
            lookup_gas: CHECK_CALL_GAS,
            callback_gas: ELIGIBILITY_CALLBACK_GAS,
            request: RequestView { receiver, amount: deposit, payer: caller },
        })
    }
}

/// The receiver counts as eligible only when the lookup itself succeeded and
/// answered `true`; a failed lookup and a `false` answer are alike.
pub open spec fn is_eligible(promise_succeeded: bool, answer: Option<bool>) -> bool {
    promise_succeeded && answer == Some(true)
}

/// The eligibility continuation's rule.
pub open spec fn eligibility_decision(
    promise_succeeded: bool,
    answer: Option<bool>,
    req: RequestView,
) -> OutcomeView {
    if is_eligible(promise_succeeded, answer) {
        OutcomeView {
            returned: true,
            effect: EffectView::PayReceiver { request: req, callback_gas: CALLBACK_GAS },
        }
    } else {
        OutcomeView {
            returned: false,
            effect: EffectView::RefundPayer {
                payer: req.payer,
                amount: req.amount,
                log: not_whitelisted_marker(),
            },
        }
    }
}

/// The transfer continuation's rule.
pub open spec fn transfer_decision(promise_succeeded: bool, req: RequestView) -> OutcomeView {
    if promise_succeeded {
        OutcomeView {
            returned: true,
            effect: EffectView::RecordPayout {
                amount: req.amount,
                payer: req.payer,
                receiver: req.receiver,
            },
        }
    } else {
        OutcomeView {
            returned: false,
            effect: EffectView::RefundPayer {
                payer: req.payer,
                amount: req.amount,
                log: transfer_failed_marker(),
            },
        }
    }
}

/// The coordinator's configuration, fixed at initialization: the factory
/// whose direct child accounts may call it, and the allow-list service.
pub struct WhitelistPayouts {
    sputnik_factory: String,
    whitelist_contract: String,
}

impl WhitelistPayouts {
    /// The factory account.
    pub closed spec fn factory_id(&self) -> Seq<char> {
        self.sputnik_factory@
    }

    /// The allow-list service account.
    pub closed spec fn oracle_id(&self) -> Seq<char> {
        self.whitelist_contract@
    }

    pub fn new(sputnik_factory: String, whitelist_contract: String) -> (r: Self)
        ensures
            r.factory_id() == sputnik_factory@,
            r.oracle_id() == whitelist_contract@,
    {
        WhitelistPayouts { sputnik_factory, whitelist_contract }
    }

    pub fn sputnik_factory(&self) -> (r: &String)
        ensures
            r@ == self.factory_id(),
    {
        &self.sputnik_factory
    }

    pub fn whitelist_contract(&self) -> (r: &String)
        ensures
            r@ == self.oracle_id(),
    {
        &self.whitelist_contract
    }

    /// Entry stage: `predecessor_account_id` called with `attached_deposit`
    /// attached, asking for a payout to `account_id`.
    pub fn payout(
        &self,
        predecessor_account_id: String,
        attached_deposit: u128,
        account_id: String,
    ) -> (r: Result<EligibilityCheck, PayoutError>)
        ensures
            check_result_view(r) == entry_decision(
                self.factory_id(),
                self.oracle_id(),
                predecessor_account_id@,
                attached_deposit,
                account_id@,
            ),
    {
        if !is_sub_account_of(predecessor_account_id.as_str(), self.sputnik_factory.as_str()) {
            return Err(PayoutError::UnauthorizedCaller);
        }
        if attached_deposit == 0 {
            return Err(PayoutError::ZeroValue);
        }
        Ok(EligibilityCheck {
            whitelist_contract: self.whitelist_contract.clone(),
            method_name: "is_whitelisted".to_owned(),
            lookup_gas: CHECK_CALL_GAS,
            callback_gas: ELIGIBILITY_CALLBACK_GAS,
            request: PayoutRequest {
                account_id,
                amount: attached_deposit,
                predecessor_account_id,
            },
        })
    }

    /// Eligibility continuation: `promise_succeeded` tells whether the lookup
    /// call succeeded, `is_whitelisted` holds its decoded answer if any.
    pub fn on_whitelisted(
        &self,
        promise_succeeded: bool,
        is_whitelisted: Option<bool>,
        account_id: String,
        amount: u128,
        predecessor_account_id: String,
    ) -> (r: StageOutcome)
        ensures
            r@ == eligibility_decision(
                promise_succeeded,
                is_whitelisted,
                RequestView {
                    receiver: account_id@,
                    amount,
                    payer: predecessor_account_id@,
                },
            ),
    {
        let has_whitelisted = promise_succeeded && match is_whitelisted {
            Some(v) => v,
            None => false,
        };
        if has_whitelisted {
            StageOutcome {
                returned: true,
                effect: Effect::PayReceiver {
                    request: PayoutRequest { account_id, amount, predecessor_account_id },
                    callback_gas: CALLBACK_GAS,
                },
            }
        } else {
            StageOutcome {
                returned: false,
                effect: Effect::RefundPayer {
                    payer: predecessor_account_id,
                    amount,
                    log: "ERR_RECEIVER_IS_NOT_WHITELISTED".to_owned(),
                },
            }
        }
    }

    /// Transfer continuation: `promise_succeeded` tells whether the transfer
    /// to the receiver succeeded.
    pub fn on_transferred(
        &self,
        promise_succeeded: bool,
        account_id: String,
        amount: u128,
        predecessor_account_id: String,
    ) -> (r: StageOutcome)
        ensures
            r@ == transfer_decision(
                promise_succeeded,
                RequestView {
                    receiver: account_id@,
                    amount,
                    payer: predecessor_account_id@,
                },
            ),
    {
        if promise_succeeded {
            StageOutcome {
                returned: true,
                effect: Effect::RecordPayout {
                    amount,
                    payer: predecessor_account_id,
                    receiver: account_id,
                },
            }
        } else {
            StageOutcome {
                returned: false,
                effect: Effect::RefundPayer {
                    payer: predecessor_account_id,
                    amount,
                    log: "ERR_TRANSFERRING_TO_RECEIVER_ACCOUNT_FAILED".to_owned(),
                },
            }
        }
    }
}

} // verus!

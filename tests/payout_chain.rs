use std::collections::HashMap;
use whitelist_payouts::payouts::{Effect, PayoutError, WhitelistPayouts};

const SPUTNIK_FACTORY_CONTRACT_ID: &str = "sputnik";
const SMART_WHITELIST_CONTRACT_ID: &str = "smart-whitelist";
const WHITELIST_PAYOUTS_CONTRACT_ID: &str = "whitelist-payouts";
const ONE_NEAR: u128 = 1_000_000_000_000_000_000_000_000;

fn to_near(n: u128) -> u128 {
    n * ONE_NEAR
}

/// A host that runs the chain: it holds balances, answers lookups from an
/// allow-list, performs transfers and keeps what was logged.
struct Host {
    contract: WhitelistPayouts,
    balances: HashMap<String, u128>,
    whitelist: Vec<String>,
    logs: Vec<String>,
    promise_errors: Vec<String>,
    lookups: usize,
    receiver_transfers: usize,
}

impl Host {
    fn init_whitelist_contracts() -> Host {
        let mut balances = HashMap::new();
        balances.insert(WHITELIST_PAYOUTS_CONTRACT_ID.to_string(), to_near(20));
        balances.insert(SMART_WHITELIST_CONTRACT_ID.to_string(), to_near(20));
        balances.insert(SPUTNIK_FACTORY_CONTRACT_ID.to_string(), to_near(20));
        balances.insert(format!("dao.{}", SPUTNIK_FACTORY_CONTRACT_ID), to_near(10));
        balances.insert("alice".to_string(), to_near(10));
        balances.insert("bob".to_string(), to_near(10));
        Host {
            contract: WhitelistPayouts::new(
                SPUTNIK_FACTORY_CONTRACT_ID.to_string(),
                SMART_WHITELIST_CONTRACT_ID.to_string(),
            ),
            balances,
            whitelist: vec!["alice".to_string()],
            logs: Vec::new(),
            promise_errors: Vec::new(),
            lookups: 0,
            receiver_transfers: 0,
        }
    }

    fn balance(&self, account: &str) -> u128 {
        *self.balances.get(account).unwrap()
    }

    fn is_whitelisted(&self, account: &str) -> bool {
        self.whitelist.iter().any(|a| a == account)
    }

    fn delete_account(&mut self, account: &str) {
        self.balances.remove(account);
    }

    fn move_value(&mut self, from: &str, to: &str, amount: u128) -> bool {
        if !self.balances.contains_key(to) {
            self.promise_errors.push(format!(
                "Can't complete the action because account {:?} doesn't exist",
                to
            ));
            return false;
        }
        *self.balances.get_mut(from).unwrap() -= amount;
        *self.balances.get_mut(to).unwrap() += amount;
        true
    }

    fn apply(&mut self, effect: Effect) {
        match effect {
            Effect::PayReceiver { request, .. } => {
                self.receiver_transfers += 1;
                let ok = self.move_value(WHITELIST_PAYOUTS_CONTRACT_ID, &request.account_id, request.amount);
                let next = self.contract.on_transferred(
                    ok,
                    request.account_id,
                    request.amount,
                    request.predecessor_account_id,
                );
                self.apply(next.effect);
            }
            Effect::RefundPayer { payer, amount, log } => {
                self.logs.push(log);
                self.move_value(WHITELIST_PAYOUTS_CONTRACT_ID, &payer, amount);
            }
            Effect::RecordPayout { amount, payer, receiver } => {
                self.logs.push(format!(
                    "{{\"amount\":\"{}\",\"payer\":\"{}\",\"receiver\":\"{}\"}}",
                    amount, payer, receiver
                ));
            }
        }
    }

    fn call_payout(&mut self, caller: &str, deposit: u128, receiver: &str) -> Result<(), PayoutError> {
        let check = self.contract.payout(caller.to_string(), deposit, receiver.to_string())?;
        self.move_value(caller, WHITELIST_PAYOUTS_CONTRACT_ID, deposit);
        self.lookups += 1;
        let answer = self.is_whitelisted(&check.request.account_id);
        let request = check.request;
        let outcome = self.contract.on_whitelisted(
            true,
            Some(answer),
            request.account_id,
            request.amount,
            request.predecessor_account_id,
        );
        self.apply(outcome.effect);
        Ok(())
    }
}

fn assert_eq_with_gas(left: u128, right: u128) {
    let max_delta = 3 * ONE_NEAR / 100;
    assert!(std::cmp::max(left, right) - std::cmp::min(left, right) <= max_delta);
}

#[test]
fn test_successful_payout() {
    let mut host = Host::init_whitelist_contracts();
    let transfer_amount = to_near(1);
    assert!(host.is_whitelisted("alice"));

    let result = host.call_payout("dao.sputnik", transfer_amount, "alice");
    assert!(result.is_ok());

    assert_eq_with_gas(to_near(11), host.balance("alice"));
    assert_eq_with_gas(to_near(9), host.balance("dao.sputnik"));
    assert_eq!(host.balance(WHITELIST_PAYOUTS_CONTRACT_ID), to_near(20));
    assert_eq!(host.logs.len(), 1);
    assert_eq!(
        host.logs[0],
        "{\"amount\":\"1000000000000000000000000\",\"payer\":\"dao.sputnik\",\"receiver\":\"alice\"}"
    );
}

#[test]
fn test_account_is_not_whitelisted() {
    let mut host = Host::init_whitelist_contracts();
    let transfer_amount = to_near(1);
    assert!(!host.is_whitelisted("bob"));
    let dao_balance_start = host.balance("dao.sputnik");
    let bob_balance_start = host.balance("bob");

    let result = host.call_payout("dao.sputnik", transfer_amount, "bob");
    assert!(result.is_ok());

    assert_eq!(host.logs.len(), 1);
    assert!(host.logs[0].contains("ERR_RECEIVER_IS_NOT_WHITELISTED"));
    assert_eq_with_gas(dao_balance_start, host.balance("dao.sputnik"));
    assert_eq_with_gas(bob_balance_start, host.balance("bob"));
    assert_eq!(host.balance("bob"), bob_balance_start);
}

#[test]
fn test_non_existing_account() {
    let mut host = Host::init_whitelist_contracts();
    let transfer_amount = to_near(1);
    let dao_balance_start = host.balance("dao.sputnik");

    let result = host.call_payout("dao.sputnik", transfer_amount, "charlie");
    assert!(result.is_ok());

    assert_eq!(host.logs.len(), 1);
    assert!(host.logs[0].contains("ERR_RECEIVER_IS_NOT_WHITELISTED"));
    assert_eq_with_gas(dao_balance_start, host.balance("dao.sputnik"));
}

#[test]
fn test_account_is_whitelisted_but_deleted() {
    let mut host = Host::init_whitelist_contracts();
    let transfer_amount = to_near(1);
    assert!(host.is_whitelisted("alice"));
    host.delete_account("alice");
    let dao_balance_start = host.balance("dao.sputnik");

    let result = host.call_payout("dao.sputnik", transfer_amount, "alice");
    assert!(result.is_ok());

    assert_eq!(host.promise_errors.len(), 1);
    assert!(host.promise_errors[0]
        .contains("Can't complete the action because account \"alice\" doesn't exist"));
    assert_eq_with_gas(dao_balance_start, host.balance("dao.sputnik"));
    assert_eq!(host.logs.len(), 1);
    assert!(host.logs[0].contains("TRANSFERRING_TO_RECEIVER_ACCOUNT_FAILED"));
    assert_eq!(host.balance(WHITELIST_PAYOUTS_CONTRACT_ID), to_near(20));
}

#[test]
fn chain_conserves_value_in_every_outcome() {
    for receiver in ["alice", "bob", "charlie"] {
        let mut host = Host::init_whitelist_contracts();
        let before: u128 = host.balances.values().sum();
        host.call_payout("dao.sputnik", 5, receiver).unwrap();
        let after: u128 = host.balances.values().sum();
        assert_eq!(before, after);
        assert_eq!(host.balance(WHITELIST_PAYOUTS_CONTRACT_ID), to_near(20));
        let dao = host.balance("dao.sputnik");
        let paid = receiver == "alice";
        assert_eq!(dao, if paid { to_near(10) - 5 } else { to_near(10) });
    }
}

#[test]
fn one_call_makes_one_lookup_and_at_most_one_transfer() {
    let mut host = Host::init_whitelist_contracts();
    host.call_payout("dao.sputnik", 5, "alice").unwrap();
    assert_eq!((host.lookups, host.receiver_transfers), (1, 1));

    let mut host = Host::init_whitelist_contracts();
    host.call_payout("dao.sputnik", 5, "bob").unwrap();
    assert_eq!((host.lookups, host.receiver_transfers), (1, 0));

    let mut host = Host::init_whitelist_contracts();
    host.delete_account("alice");
    host.call_payout("dao.sputnik", 5, "alice").unwrap();
    assert_eq!((host.lookups, host.receiver_transfers), (1, 1));
}

#[test]
fn refused_calls_move_nothing() {
    let mut host = Host::init_whitelist_contracts();
    let start = host.balances.clone();
    assert_eq!(
        host.call_payout("dao.near", 5, "alice"),
        Err(PayoutError::UnauthorizedCaller)
    );
    assert_eq!(host.call_payout("dao.sputnik", 0, "alice"), Err(PayoutError::ZeroValue));
    assert_eq!(host.balances, start);
    assert_eq!(host.lookups, 0);
    assert!(host.logs.is_empty());
}

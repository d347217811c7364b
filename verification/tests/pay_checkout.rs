use erdsea::pay_checkout::{CheckoutDeposit, CheckoutError, CheckoutStatus, TrustedPaymentCall, Withdrawal};
use erdsea::types::Address;

fn addr(n: u128) -> Address {
    Address { hi: 2, lo: n }
}

#[test]
fn checkout_is_pending_until_answered() {
    let mut c = CheckoutDeposit::init();
    assert_eq!(c.get_status(7), None);
    let call = c.pay_checkout(addr(1), addr(2), 500, 7);
    assert_eq!(call, TrustedPaymentCall { marketplace: addr(2), buyer: addr(1), amount: 500 });
    assert_eq!(c.get_status(7), Some(CheckoutStatus::Pending));
    c.pay_checkout_callback(None);
    assert_eq!(c.get_status(7), Some(CheckoutStatus::Pending));
    c.pay_checkout_callback(Some(7));
    assert_eq!(c.get_status(7), Some(CheckoutStatus::Successful));
}

#[test]
fn only_owner_withdraws() {
    let c = CheckoutDeposit::init();
    assert_eq!(c.withdraw(addr(1), addr(9), 40), Err(CheckoutError::NotOwner));
    assert_eq!(CheckoutError::NotOwner.message(), "Only owner can withdraw!");
    assert_eq!(c.withdraw(addr(9), addr(9), 40), Ok(Withdrawal { to: addr(9), amount: 40 }));
}

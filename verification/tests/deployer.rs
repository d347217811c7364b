use erdsea::deployer::{DeployArg, Deployer, DeployerError, EgldPayment, OwnerChange};
use erdsea::types::Address;

fn addr(n: u128) -> Address {
    Address { hi: 1, lo: n }
}

#[test]
fn deployment_arguments_in_order() {
    let d = Deployer::init(addr(10), addr(20));
    let req = d.deploy_nft_template_contract(
        b"APES-0a1b2c".to_vec(),
        500,
        b"Ape".to_vec(),
        b"https://img".to_vec(),
        b".png".to_vec(),
        100,
        3,
        1_000,
        Some(b"https://meta".to_vec()),
    );
    assert_eq!(req.source, addr(10));
    assert_eq!(req.value, 0);
    assert!(req.payable && req.upgradeable);
    assert_eq!(req.args.len(), 10);
    assert!(matches!(req.args[0], DeployArg::Address(a) if a == addr(20)));
    assert!(matches!(&req.args[1], DeployArg::Bytes(b) if b == b"APES-0a1b2c"));
    assert!(matches!(req.args[2], DeployArg::Amount(500)));
    assert!(matches!(req.args[7], DeployArg::Supply(3)));
    assert!(matches!(req.args[8], DeployArg::Timestamp(1_000)));
    assert!(matches!(&req.args[9], DeployArg::Bytes(b) if b == b"https://meta"));
    let without = d.deploy_nft_template_contract(
        b"APES-0a1b2c".to_vec(),
        500,
        b"Ape".to_vec(),
        b"https://img".to_vec(),
        b".png".to_vec(),
        100,
        3,
        1_000,
        None,
    );
    assert_eq!(without.args.len(), 9);
}

#[test]
fn only_the_deployer_takes_ownership() {
    let mut d = Deployer::init(addr(10), addr(20));
    let contract = addr(30);
    let creator = addr(40);
    assert_eq!(d.change_owner(creator, contract), Err(DeployerError::NotAnOwnedContract));
    assert_eq!(d.record_deployment(contract, creator), contract);
    assert_eq!(d.get_owner_of_contract(contract), Some(creator));
    assert_eq!(d.change_owner(addr(41), contract), Err(DeployerError::NotOwnerOfContract));
    assert_eq!(
        d.change_owner(creator, contract),
        Ok(OwnerChange { contract, new_owner: creator })
    );
    assert_eq!(DeployerError::NotOwnerOfContract.message(), "not owner of contract");
}

#[test]
fn deployer_settings_and_withdrawal() {
    let mut d = Deployer::init(addr(10), addr(20));
    let owner = addr(5);
    assert_eq!(d.set_marketplace_admin(addr(6), owner, addr(21)), Err(DeployerError::OnlyOwner));
    assert_eq!(d.get_marketplace_address(), addr(20));
    assert_eq!(d.set_nft_template_address(addr(6), owner, addr(11)), Err(DeployerError::OnlyOwner));
    assert_eq!(d.set_marketplace_admin(owner, owner, addr(21)), Ok(()));
    assert_eq!(d.set_nft_template_address(owner, owner, addr(11)), Ok(()));
    assert_eq!(d.get_marketplace_address(), addr(21));
    assert_eq!(d.get_nft_template_address(), addr(11));
    assert_eq!(d.withdraw(addr(6), owner, Some(7), 100), Err(DeployerError::OnlyOwner));
    assert_eq!(d.withdraw(owner, owner, Some(7), 100), Ok(EgldPayment { to: owner, amount: 7 }));
    assert_eq!(d.withdraw(owner, owner, None, 100), Ok(EgldPayment { to: owner, amount: 100 }));
    d.record_deployment(addr(30), addr(40));
    d.upgrade(addr(12), addr(22));
    assert_eq!(d.get_nft_template_address(), addr(12));
    assert_eq!(d.get_marketplace_address(), addr(22));
    assert_eq!(d.get_owner_of_contract(addr(30)), Some(addr(40)));
}

use flats::error::FlatsError;
use flats::factory::{HouseFactory, ProvisionStep, CREATION_FEE, FUNDING, GAS};
use flats::NEAR;

const IMAGE: &str = "https://dynamic-media-cdn.tripadvisor.com/media/photo-o/1c/d3/c1/64/exterior.jpg?w=800&h=-1&s=1";
const CURRENT: &str = "houses.brian_near";
const SIGNER: &str = "brian_near";

fn request(
    f: &HouseFactory,
    name: &str,
    deposit: u128,
) -> Result<Vec<ProvisionStep>, FlatsError> {
    f.create_house(
        name.to_string(),
        NEAR * 15,
        "-1.227807,36.989969".to_string(),
        "Wifi,2 Swimming pools".to_string(),
        IMAGE.to_string(),
        deposit,
        &SIGNER.to_string(),
        &CURRENT.to_string(),
    )
}

fn register(f: &mut HouseFactory, owner: &str, account: &str) -> Result<String, FlatsError> {
    f.map_house_contract_to_user_id(
        owner.to_string(),
        account.to_string(),
        &CURRENT.to_string(),
        &CURRENT.to_string(),
    )
}

#[test]
fn test_factory_contract_creation() {
    let contract = HouseFactory::new(SIGNER.to_string());
    assert!(contract.get_owner() == SIGNER.to_string(), "signer not equal contract owner");
}

#[test]
fn test_creating_flat_contract() {
    let contract = HouseFactory::new(SIGNER.to_string());
    let r = request(&contract, "borwe_towers", 10 * NEAR);
    assert!(r.is_ok());
}

#[test]
fn provisioning_plan_is_the_chain() {
    let f = HouseFactory::new(SIGNER.to_string());
    let steps = request(&f, "borwe_towers", CREATION_FEE).unwrap();
    assert_eq!(steps.len(), 5);
    match &steps[0] {
        ProvisionStep::CreateAccount { account } => {
            assert_eq!(account, "borwe_towers.houses.brian_near")
        }
        _ => panic!("first step creates the account"),
    }
    match &steps[1] {
        ProvisionStep::Transfer { amount } => assert_eq!(*amount, FUNDING),
        _ => panic!("second step funds the account"),
    }
    assert!(matches!(steps[2], ProvisionStep::DeployContract));
    match &steps[3] {
        ProvisionStep::Initialize { flat, gas } => {
            assert_eq!(*gas, GAS);
            assert_eq!(flat.account, SIGNER);
            assert_eq!(flat.house.name, "borwe_towers");
            assert_eq!(flat.house.price, NEAR * 15);
            assert_eq!(flat.house.features.len(), 2);
        }
        _ => panic!("fourth step initializes the ledger"),
    }
    match &steps[4] {
        ProvisionStep::Register { registration, gas } => {
            assert_eq!(*gas, GAS);
            assert_eq!(registration.house_owner, SIGNER);
            assert_eq!(registration.house_account, "borwe_towers");
        }
        _ => panic!("last step registers the ledger"),
    }
    assert_eq!(FUNDING, 9 * NEAR);
    assert_eq!(CREATION_FEE, 10 * NEAR);
}

#[test]
fn name_with_separator_is_invalid() {
    let f = HouseFactory::new(SIGNER.to_string());
    assert_eq!(request(&f, "a.b", CREATION_FEE).err(), Some(FlatsError::InvalidName));
}

#[test]
fn names_that_are_not_account_ids_are_invalid() {
    let f = HouseFactory::new(SIGNER.to_string());
    assert_eq!(request(&f, "Tower", CREATION_FEE).err(), Some(FlatsError::InvalidName));
    assert_eq!(request(&f, "t", CREATION_FEE).err(), Some(FlatsError::InvalidName));
    assert_eq!(request(&f, "-tower", CREATION_FEE).err(), Some(FlatsError::InvalidName));
    assert_eq!(request(&f, "to__wer", CREATION_FEE).err(), Some(FlatsError::InvalidName));
    assert_eq!(request(&f, "", CREATION_FEE).err(), Some(FlatsError::InvalidName));
    // 47 characters: the name alone is valid, the full sub-account is 65 long.
    let long = "a".repeat(47);
    assert_eq!(request(&f, &long, CREATION_FEE).err(), Some(FlatsError::InvalidName));
    let fits = "a".repeat(46);
    assert!(request(&f, &fits, CREATION_FEE).is_ok());
    assert!(request(&f, "to_wer-2", CREATION_FEE).is_ok());
}

#[test]
fn wrong_deposit_is_insufficient() {
    let f = HouseFactory::new(SIGNER.to_string());
    for d in [0, CREATION_FEE - 1, CREATION_FEE + 1, 9 * NEAR] {
        assert_eq!(request(&f, "tower", d).err(), Some(FlatsError::InsufficientDeposit));
    }
    assert_eq!(request(&f, "a.b", 0).err(), Some(FlatsError::InsufficientDeposit));
}

#[test]
fn invalid_property_is_refused() {
    let f = HouseFactory::new(SIGNER.to_string());
    let r = f.create_house(
        "tower".to_string(),
        NEAR,
        "1.0;2.0".to_string(),
        "Wifi".to_string(),
        IMAGE.to_string(),
        CREATION_FEE,
        &SIGNER.to_string(),
        &CURRENT.to_string(),
    );
    assert_eq!(r.err(), Some(FlatsError::InvalidProperty));
    let r = f.create_house(
        "tower".to_string(),
        0,
        "1.0,2.0".to_string(),
        "Wifi".to_string(),
        IMAGE.to_string(),
        CREATION_FEE,
        &SIGNER.to_string(),
        &CURRENT.to_string(),
    );
    assert_eq!(r.err(), Some(FlatsError::InvalidProperty));
}

#[test]
fn concurrent_requests_both_pass_the_name_check() {
    // Both requests are checked before either registration lands: the
    // check is advisory and both pass it.
    let mut f = HouseFactory::new(SIGNER.to_string());
    assert!(request(&f, "tower", CREATION_FEE).is_ok());
    assert!(request(&f, "tower", CREATION_FEE).is_ok());
    assert_eq!(register(&mut f, SIGNER, "tower"), Ok("DONE".to_string()));
    assert_eq!(request(&f, "tower", CREATION_FEE).err(), Some(FlatsError::NameTaken));
}

#[test]
fn registration_is_self_only_and_idempotent() {
    let mut f = HouseFactory::new(SIGNER.to_string());
    let r = f.map_house_contract_to_user_id(
        "amy".to_string(),
        "tower".to_string(),
        &CURRENT.to_string(),
        &"carol_near".to_string(),
    );
    assert_eq!(r, Err(FlatsError::Forbidden));
    assert!(f.get_all_houses().is_empty());
    assert!(f.check_house_name_available("tower".to_string()));
    assert_eq!(register(&mut f, "amy", "tower"), Ok("DONE".to_string()));
    assert_eq!(register(&mut f, "amy", "tower"), Ok("DONE".to_string()));
    assert_eq!(f.get_all_houses(), vec!["tower".to_string()]);
    assert_eq!(register(&mut f, "amy", "villa"), Ok("DONE".to_string()));
    assert_eq!(register(&mut f, "bob", "cabin"), Ok("DONE".to_string()));
    assert_eq!(
        f.get_all_houses(),
        vec!["tower".to_string(), "villa".to_string(), "cabin".to_string()]
    );
    assert!(!f.check_house_name_available("cabin".to_string()));
    assert!(!f.check_house_name_available("villa".to_string()));
    assert!(f.check_house_name_available("manor".to_string()));
}

use view_facade::address::ContractAddress;
use view_facade::facade::{FacadeError, ViewFacade};
use view_facade::registry::{ContractKind, DataKey, RegisteredContract};

fn addr(strkey: &str) -> ContractAddress {
    ContractAddress::from_bytes(strkey.as_bytes().to_vec())
}

const ADMIN: &str = "GAADMINAAAAAAAAAAAAAAAAAAAAAAAAAAAAAAAAAAAAAAAAAAAAAAAAA";
const C1: &str = "CBOUNTYAAAAAAAAAAAAAAAAAAAAAAAAAAAAAAAAAAAAAAAAAAAAAAAAA";
const C2: &str = "CPROGRAMAAAAAAAAAAAAAAAAAAAAAAAAAAAAAAAAAAAAAAAAAAAAAAAA";
const C3: &str = "CCOREAAAAAAAAAAAAAAAAAAAAAAAAAAAAAAAAAAAAAAAAAAAAAAAAAAA";

fn initialized() -> ViewFacade {
    let mut facade = ViewFacade::new();
    facade.init(addr(ADMIN)).unwrap();
    facade
}

#[test]
fn test_register_and_lookup_contract() {
    let mut facade = ViewFacade::new();
    let admin = addr(ADMIN);
    let bounty_contract = addr(C1);

    facade.init(admin.clone()).unwrap();
    facade
        .register(bounty_contract.clone(), ContractKind::BountyEscrow, 1u32)
        .unwrap();

    let entry = facade.get_contract(&bounty_contract).unwrap();
    assert_eq!(entry.address, bounty_contract);
    assert_eq!(entry.kind, ContractKind::BountyEscrow);
    assert_eq!(entry.version, 1);
}

#[test]
fn test_list_and_count_contracts() {
    let mut facade = ViewFacade::new();
    facade.init(addr(ADMIN)).unwrap();

    let c1 = addr(C1);
    let c2 = addr(C2);

    facade.register(c1, ContractKind::BountyEscrow, 1u32).unwrap();
    facade.register(c2, ContractKind::ProgramEscrow, 2u32).unwrap();

    assert_eq!(facade.contract_count(), 2);
    let all = facade.list_contracts();
    assert_eq!(all.len(), 2);
}

#[test]
fn test_deregister_contract() {
    let mut facade = ViewFacade::new();
    let contract = addr(C3);

    facade.init(addr(ADMIN)).unwrap();
    facade
        .register(contract.clone(), ContractKind::GrainlifyCore, 3u32)
        .unwrap();
    assert_eq!(facade.contract_count(), 1);

    facade.deregister(&contract).unwrap();

    assert_eq!(facade.contract_count(), 0);
    assert_eq!(facade.get_contract(&contract), None);
}

#[test]
fn init_twice_is_refused_and_keeps_first_admin() {
    let mut facade = initialized();
    assert_eq!(facade.init(addr(C1)), Err(FacadeError::AlreadyInitialized));
    let (admin, registry) = facade.into_parts();
    assert_eq!(admin, Some(addr(ADMIN)));
    assert!(registry.is_empty());
}

#[test]
fn register_before_init_is_refused_and_changes_nothing() {
    let mut facade = ViewFacade::new();
    assert_eq!(
        facade.register(addr(C1), ContractKind::BountyEscrow, 1),
        Err(FacadeError::NotInitialized)
    );
    assert_eq!(facade.contract_count(), 0);
    assert_eq!(facade.get_contract(&addr(C1)), None);
}

#[test]
fn deregister_before_init_is_refused() {
    let mut facade = ViewFacade::from_parts(
        None,
        Some(vec![RegisteredContract {
            address: addr(C1),
            kind: ContractKind::SorobanEscrow,
            version: 4,
        }]),
    );
    assert_eq!(facade.deregister(&addr(C1)), Err(FacadeError::NotInitialized));
    assert_eq!(facade.contract_count(), 1);
}

#[test]
fn admin_operations_name_the_admin_to_authorize() {
    let mut facade = initialized();
    assert_eq!(
        facade.register(addr(C1), ContractKind::BountyEscrow, 1),
        Ok(addr(ADMIN))
    );
    assert_eq!(facade.deregister(&addr(C1)), Ok(addr(ADMIN)));
}

#[test]
fn error_messages() {
    assert_eq!(FacadeError::AlreadyInitialized.message(), "Already initialized");
    assert_eq!(FacadeError::NotInitialized.message(), "Not initialized");
}

#[test]
fn list_keeps_registration_order() {
    let mut facade = initialized();
    facade.register(addr(C2), ContractKind::ProgramEscrow, 2).unwrap();
    facade.register(addr(C1), ContractKind::BountyEscrow, 1).unwrap();
    facade.register(addr(C3), ContractKind::GrainlifyCore, 3).unwrap();
    let all = facade.list_contracts();
    let versions: Vec<u32> = all.iter().map(|e| e.version).collect();
    assert_eq!(versions, vec![2, 1, 3]);
    assert_eq!(all[1].address, addr(C1));
    assert_eq!(all[1].kind, ContractKind::BountyEscrow);
}

#[test]
fn duplicate_registration_lookup_finds_first() {
    let mut facade = initialized();
    facade.register(addr(C1), ContractKind::BountyEscrow, 1).unwrap();
    facade.register(addr(C1), ContractKind::ProgramEscrow, 7).unwrap();
    assert_eq!(facade.contract_count(), 2);
    let entry = facade.get_contract(&addr(C1)).unwrap();
    assert_eq!(entry.version, 1);
    assert_eq!(entry.kind, ContractKind::BountyEscrow);
}

#[test]
fn deregister_removes_every_entry_of_the_address_and_keeps_order() {
    let mut facade = initialized();
    facade.register(addr(C1), ContractKind::BountyEscrow, 1).unwrap();
    facade.register(addr(C2), ContractKind::ProgramEscrow, 2).unwrap();
    facade.register(addr(C1), ContractKind::BountyEscrow, 3).unwrap();
    facade.register(addr(C3), ContractKind::GrainlifyCore, 4).unwrap();
    facade.deregister(&addr(C1)).unwrap();
    assert_eq!(facade.contract_count(), 2);
    assert_eq!(facade.get_contract(&addr(C1)), None);
    let versions: Vec<u32> = facade.list_contracts().iter().map(|e| e.version).collect();
    assert_eq!(versions, vec![2, 4]);
    assert_eq!(facade.get_contract(&addr(C2)).unwrap().version, 2);
}

#[test]
fn deregister_unknown_address_changes_nothing_and_is_idempotent() {
    let mut facade = initialized();
    facade.register(addr(C1), ContractKind::BountyEscrow, 1).unwrap();
    facade.deregister(&addr(C2)).unwrap();
    assert_eq!(facade.contract_count(), 1);
    facade.deregister(&addr(C1)).unwrap();
    facade.deregister(&addr(C1)).unwrap();
    assert_eq!(facade.contract_count(), 0);
}

#[test]
fn deregister_undoes_register() {
    let mut facade = initialized();
    facade.register(addr(C1), ContractKind::BountyEscrow, 1).unwrap();
    let before = facade.list_contracts();
    facade.register(addr(C2), ContractKind::ProgramEscrow, 2).unwrap();
    facade.deregister(&addr(C2)).unwrap();
    assert_eq!(facade.list_contracts(), before);
}

#[test]
fn register_leaves_other_lookups() {
    let mut facade = initialized();
    facade.register(addr(C1), ContractKind::BountyEscrow, 1).unwrap();
    facade.register(addr(C2), ContractKind::ProgramEscrow, 2).unwrap();
    assert_eq!(facade.get_contract(&addr(C1)).unwrap().version, 1);
    assert_eq!(facade.get_contract(&addr(C3)), None);
}

#[test]
fn from_parts_without_registry_is_empty() {
    let facade = ViewFacade::from_parts(Some(addr(ADMIN)), None);
    assert_eq!(facade.contract_count(), 0);
    assert!(facade.list_contracts().is_empty());
    let (admin, registry) = facade.into_parts();
    assert_eq!(admin, Some(addr(ADMIN)));
    assert!(registry.is_empty());
}

#[test]
fn from_parts_round_trips_through_into_parts() {
    let entries = vec![
        RegisteredContract { address: addr(C1), kind: ContractKind::BountyEscrow, version: 1 },
        RegisteredContract { address: addr(C2), kind: ContractKind::SorobanEscrow, version: 9 },
    ];
    let facade = ViewFacade::from_parts(Some(addr(ADMIN)), Some(entries.clone()));
    assert_eq!(facade.get_contract(&addr(C2)).unwrap().kind, ContractKind::SorobanEscrow);
    let (admin, registry) = facade.into_parts();
    assert_eq!(admin, Some(addr(ADMIN)));
    assert_eq!(registry, entries);
}

#[test]
fn address_identity_is_by_bytes() {
    assert!(addr(C1).same_as(&addr(C1)));
    assert!(!addr(C1).same_as(&addr(C2)));
    assert!(!addr("CA").same_as(&addr("CAB")));
    assert_eq!(addr(C1).as_bytes(), &C1.as_bytes().to_vec());
    assert_eq!(addr(C3).clone(), addr(C3));
}

#[test]
fn data_keys_are_distinct() {
    assert_ne!(DataKey::Admin, DataKey::Registry);
}

use fortress::types::{
    Fortress, FortressError, InitArgs, InitFortressArgs, PlaneConfig, Resource, ResourceType,
    Reserve, SendResourcesArgs, SendedUnits, Warehouse,
};
use fortress::{
    collect_resource, init, init_fortress, is_initialized, send_resources, send_resources_self,
    AccountState,
};

fn fort(kind: ResourceType, min: u64, max: u64, last: u64, reserve: Reserve) -> Fortress {
    Fortress {
        name: String::from("A"),
        king: String::from("king"),
        description: String::from("a fortress"),
        divination_number: 1,
        key_resource: Resource {
            resource_type: kind,
            minimum_collectable: min,
            maximum_collectable: max,
            last_collection: last,
        },
        warehouse: Warehouse { reserve },
    }
}

fn args(units: SendedUnits) -> SendResourcesArgs {
    SendResourcesArgs {
        destination_fortress: String::from("B"),
        sended_resources: units,
        message: String::from("tribute"),
    }
}

fn founding_args() -> InitFortressArgs {
    InitFortressArgs {
        name: String::from("Eyrie"),
        king: String::from("Arryn"),
        description: String::from("high and mighty"),
    }
}

#[test]
fn founding_is_deterministic() {
    let a = Fortress::new(founding_args(), 3, 1, 100, 7);
    let b = Fortress::new(founding_args(), 3, 1, 100, 7);
    assert_eq!(a.name, b.name);
    assert_eq!(a.king, b.king);
    assert_eq!(a.description, b.description);
    assert_eq!(a.divination_number, b.divination_number);
    assert_eq!(a.key_resource.resource_type, b.key_resource.resource_type);
    assert_eq!(a.key_resource.minimum_collectable, b.key_resource.minimum_collectable);
    assert_eq!(a.key_resource.maximum_collectable, b.key_resource.maximum_collectable);
    assert_eq!(a.key_resource.last_collection, b.key_resource.last_collection);
    assert_eq!(a.warehouse.reserve, b.warehouse.reserve);
}

#[test]
fn founding_fields_and_bounds() {
    let f = Fortress::new(founding_args(), 3, 1, 100, 7);
    assert_eq!(f.name, "Eyrie");
    assert_eq!(f.king, "Arryn");
    assert_eq!(f.description, "high and mighty");
    assert_eq!(f.divination_number, 4);
    assert_eq!(f.key_resource.resource_type, ResourceType::Stone);
    assert_eq!(f.key_resource.minimum_collectable, 7);
    assert_eq!(f.key_resource.maximum_collectable, 151);
    assert_eq!(f.key_resource.last_collection, 0);
    assert_eq!(f.warehouse.reserve, Reserve { wood: 0, stone: 0, food: 0, magic: 0 });
}

#[test]
fn founding_extreme_draws() {
    let low = Fortress::new(founding_args(), 0, 0, 0, 0);
    assert_eq!(low.divination_number, 1);
    assert_eq!(low.key_resource.resource_type, ResourceType::Wood);
    assert_eq!(low.key_resource.minimum_collectable, 0);
    assert_eq!(low.key_resource.maximum_collectable, 51);
    let high = Fortress::new(founding_args(), 8, 2, 204, 254);
    assert_eq!(high.divination_number, 9);
    assert_eq!(high.key_resource.resource_type, ResourceType::Food);
    assert_eq!(high.key_resource.minimum_collectable, 254);
    assert_eq!(high.key_resource.maximum_collectable, 255);
    assert!(
        high.key_resource.minimum_collectable < high.key_resource.maximum_collectable
    );
}

#[test]
fn constructors_build_empty_state() {
    let r = Reserve::new();
    assert_eq!(r, Reserve { wood: 0, stone: 0, food: 0, magic: 0 });
    let w = Warehouse::new();
    assert_eq!(w.reserve, Reserve { wood: 0, stone: 0, food: 0, magic: 0 });
    let res = Resource::new(ResourceType::Food, 3, 9);
    assert_eq!(res.resource_type, ResourceType::Food);
    assert_eq!(res.minimum_collectable, 3);
    assert_eq!(res.maximum_collectable, 9);
    assert_eq!(res.last_collection, 0);
}

#[test]
fn plane_config_copies_arguments() {
    let c = PlaneConfig::new(
        String::from("creator-account"),
        InitArgs {
            plane_name: String::from("midgard"),
            descrpition: String::from("the middle plane"),
        },
    );
    assert_eq!(c.plane_name, "midgard");
    assert_eq!(c.creator, "creator-account");
    assert_eq!(c.descrpition, "the middle plane");
}

#[test]
fn collect_scenario_stone() {
    // Fortress founded with (kind = Stone, min = 10, max = 100).
    let mut f = fort(ResourceType::Stone, 10, 100, 0, Reserve::new());
    // At block 5 the collection succeeds and credits the stone reserve.
    let v = f.collect_resource(5, 37).unwrap();
    assert_eq!(v, 47);
    assert!((10..=100).contains(&v));
    assert_eq!(f.warehouse.reserve.stone, v);
    assert_eq!(f.key_resource.last_collection, 5);
    // A second collection at block 5 fails and changes nothing.
    let e = f.collect_resource(5, 0);
    assert_eq!(e, Err(FortressError::AlreadyCollectedThisBlock));
    assert_eq!(f.warehouse.reserve.stone, v);
    assert_eq!(f.key_resource.last_collection, 5);
    // At block 6 it succeeds again and the reserve increases by the yield.
    let v2 = f.collect_resource(6, 90).unwrap();
    assert_eq!(v2, 100);
    assert_eq!(f.warehouse.reserve.stone, v + v2);
    assert_eq!(f.key_resource.last_collection, 6);
}

#[test]
fn collect_yield_stays_in_range() {
    for draw in [0u64, 1, 45, 89, 90] {
        let mut f = fort(ResourceType::Wood, 10, 100, 0, Reserve::new());
        let v = f.collect_resource(1, draw).unwrap();
        assert!((10..=100).contains(&v));
        assert_eq!(v, 10 + draw);
    }
}

#[test]
fn collect_overflow_is_rejected() {
    let mut f = fort(
        ResourceType::Magic,
        10,
        100,
        0,
        Reserve { wood: 0, stone: 0, food: 0, magic: u64::MAX - 5 },
    );
    let e = f.collect_resource(3, 0);
    assert_eq!(e, Err(FortressError::NumericOverflow));
    assert_eq!(f.warehouse.reserve.magic, u64::MAX - 5);
    assert_eq!(f.key_resource.last_collection, 0);
}

#[test]
fn add_and_remove_keep_balances_exact() {
    let mut f = fort(ResourceType::Wood, 1, 2, 0, Reserve::new());
    assert_eq!(f.add_resource(ResourceType::Food, 30), Ok(()));
    assert_eq!(f.warehouse.reserve.food, 30);
    assert_eq!(f.remove_resource(ResourceType::Food, 12), Ok(()));
    assert_eq!(f.warehouse.reserve.food, 18);
    // Removing more than the reserve holds fails and changes nothing.
    let e = f.remove_resource(ResourceType::Food, 19);
    assert_eq!(e, Err(FortressError::InsufficientReserve));
    assert_eq!(f.warehouse.reserve.food, 18);
    // Removing exactly the balance empties it but never goes below zero.
    assert_eq!(f.remove_resource(ResourceType::Food, 18), Ok(()));
    assert_eq!(f.warehouse.reserve.food, 0);
    let e2 = f.remove_resource(ResourceType::Food, 1);
    assert_eq!(e2, Err(FortressError::InsufficientReserve));
    assert_eq!(f.warehouse.reserve.food, 0);
}

#[test]
fn add_overflow_is_rejected() {
    let mut f = fort(
        ResourceType::Wood,
        1,
        2,
        0,
        Reserve { wood: u64::MAX - 1, stone: 0, food: 0, magic: 0 },
    );
    let e = f.add_resource(ResourceType::Wood, 2);
    assert_eq!(e, Err(FortressError::NumericOverflow));
    assert_eq!(f.warehouse.reserve.wood, u64::MAX - 1);
    assert_eq!(f.add_resource(ResourceType::Wood, 1), Ok(()));
    assert_eq!(f.warehouse.reserve.wood, u64::MAX);
}

#[test]
fn transfer_moves_every_kind() {
    let mut a = fort(
        ResourceType::Wood,
        1,
        2,
        0,
        Reserve { wood: 10, stone: 20, food: 30, magic: 40 },
    );
    let mut b = fort(ResourceType::Stone, 1, 2, 0, Reserve::new());
    let r = a.send_resources(
        &mut b,
        &args(SendedUnits { wood: 1, stone: 2, food: 3, magic: 40 }),
    );
    assert_eq!(r, Ok(()));
    assert_eq!(a.warehouse.reserve, Reserve { wood: 9, stone: 18, food: 27, magic: 0 });
    assert_eq!(b.warehouse.reserve, Reserve { wood: 1, stone: 2, food: 3, magic: 40 });
}

#[test]
fn transfer_insufficient_reserve_has_no_effect() {
    // A has reserve.wood = 50; asking for 60 wood fails and leaves both
    // warehouses untouched for every kind.
    let mut a = fort(
        ResourceType::Wood,
        1,
        2,
        0,
        Reserve { wood: 50, stone: 7, food: 8, magic: 9 },
    );
    let mut b = fort(ResourceType::Stone, 1, 2, 0, Reserve { wood: 1, stone: 1, food: 1, magic: 1 });
    let r = a.send_resources(
        &mut b,
        &args(SendedUnits { wood: 60, stone: 1, food: 0, magic: 0 }),
    );
    assert_eq!(r, Err(FortressError::InsufficientReserve));
    assert_eq!(a.warehouse.reserve, Reserve { wood: 50, stone: 7, food: 8, magic: 9 });
    assert_eq!(b.warehouse.reserve, Reserve { wood: 1, stone: 1, food: 1, magic: 1 });
}

#[test]
fn transfer_overflow_has_no_effect() {
    let mut a = fort(ResourceType::Wood, 1, 2, 0, Reserve { wood: 5, stone: 5, food: 5, magic: 5 });
    let mut b = fort(
        ResourceType::Stone,
        1,
        2,
        0,
        Reserve { wood: 0, stone: u64::MAX, food: 0, magic: 0 },
    );
    let r = a.send_resources(
        &mut b,
        &args(SendedUnits { wood: 1, stone: 1, food: 1, magic: 1 }),
    );
    assert_eq!(r, Err(FortressError::NumericOverflow));
    assert_eq!(a.warehouse.reserve, Reserve { wood: 5, stone: 5, food: 5, magic: 5 });
    assert_eq!(b.warehouse.reserve.stone, u64::MAX);
    assert_eq!(b.warehouse.reserve.wood, 0);
}

#[test]
fn self_transfer_leaves_reserves_unchanged() {
    let mut a = fort(ResourceType::Wood, 1, 2, 0, Reserve { wood: 10, stone: 0, food: 3, magic: 0 });
    let r = a.send_resources_self(&args(SendedUnits { wood: 10, stone: 0, food: 1, magic: 0 }));
    assert_eq!(r, Ok(()));
    assert_eq!(a.warehouse.reserve, Reserve { wood: 10, stone: 0, food: 3, magic: 0 });
    // A self-transfer still fails where an ordinary transfer would.
    let e = a.send_resources_self(&args(SendedUnits { wood: 11, stone: 0, food: 0, magic: 0 }));
    assert_eq!(e, Err(FortressError::InsufficientReserve));
    assert_eq!(a.warehouse.reserve, Reserve { wood: 10, stone: 0, food: 3, magic: 0 });
}

#[test]
fn founding_is_idempotent() {
    let mut state = AccountState::Vacant;
    assert!(!is_initialized(&state));
    init_fortress(&mut state, founding_args(), 3, 1, 100, 7);
    assert!(is_initialized(&state));
    // A second founding with different arguments and draws is a silent no-op.
    let other = InitFortressArgs {
        name: String::from("Winterfell"),
        king: String::from("Stark"),
        description: String::from("the north remembers"),
    };
    init_fortress(&mut state, other, 0, 0, 0, 0);
    match &state {
        AccountState::Founded(f) => {
            assert_eq!(f.name, "Eyrie");
            assert_eq!(f.king, "Arryn");
            assert_eq!(f.divination_number, 4);
            assert_eq!(f.key_resource.maximum_collectable, 151);
        }
        _ => panic!("account should hold the first founded fortress"),
    }
}

#[test]
fn plane_init_is_idempotent() {
    let mut state = AccountState::Vacant;
    init(
        &mut state,
        String::from("caller-one"),
        InitArgs {
            plane_name: String::from("asgard"),
            descrpition: String::from("first"),
        },
    );
    assert!(is_initialized(&state));
    init(
        &mut state,
        String::from("caller-two"),
        InitArgs {
            plane_name: String::from("utgard"),
            descrpition: String::from("second"),
        },
    );
    match &state {
        AccountState::Plane(c) => {
            assert_eq!(c.plane_name, "asgard");
            assert_eq!(c.creator, "caller-one");
            assert_eq!(c.descrpition, "first");
        }
        _ => panic!("account should hold the first plane record"),
    }
}

#[test]
fn account_collect_requires_a_fortress() {
    let mut state = AccountState::Vacant;
    let e = collect_resource(&mut state, 5, 0);
    assert_eq!(e, Err(FortressError::NotFound));
    let mut plane = AccountState::Plane(PlaneConfig {
        plane_name: String::from("p"),
        creator: String::from("c"),
        descrpition: String::from("d"),
    });
    let e2 = collect_resource(&mut plane, 5, 0);
    assert_eq!(e2, Err(FortressError::NotFound));
}

#[test]
fn account_collect_delegates_to_the_fortress() {
    let mut state = AccountState::Founded(fort(ResourceType::Food, 10, 100, 0, Reserve::new()));
    let v = collect_resource(&mut state, 5, 15).unwrap();
    assert_eq!(v, 25);
    match &state {
        AccountState::Founded(f) => {
            assert_eq!(f.warehouse.reserve.food, 25);
            assert_eq!(f.key_resource.last_collection, 5);
        }
        _ => panic!("account should still hold a fortress"),
    }
    let e = collect_resource(&mut state, 5, 15);
    assert_eq!(e, Err(FortressError::AlreadyCollectedThisBlock));
}

#[test]
fn account_send_requires_both_fortresses() {
    let mut src = AccountState::Founded(fort(ResourceType::Wood, 1, 2, 0, Reserve::new()));
    let mut dst = AccountState::Vacant;
    let e = send_resources(&mut src, &mut dst, &args(SendedUnits { wood: 0, stone: 0, food: 0, magic: 0 }));
    assert_eq!(e, Err(FortressError::NotFound));
    let mut vacant = AccountState::Vacant;
    let mut dst2 = AccountState::Founded(fort(ResourceType::Wood, 1, 2, 0, Reserve::new()));
    let e2 = send_resources(&mut vacant, &mut dst2, &args(SendedUnits { wood: 0, stone: 0, food: 0, magic: 0 }));
    assert_eq!(e2, Err(FortressError::NotFound));
}

#[test]
fn account_send_moves_resources() {
    let mut src = AccountState::Founded(fort(
        ResourceType::Wood,
        1,
        2,
        0,
        Reserve { wood: 5, stone: 0, food: 0, magic: 0 },
    ));
    let mut dst = AccountState::Founded(fort(ResourceType::Stone, 1, 2, 0, Reserve::new()));
    let r = send_resources(&mut src, &mut dst, &args(SendedUnits { wood: 4, stone: 0, food: 0, magic: 0 }));
    assert_eq!(r, Ok(()));
    match (&src, &dst) {
        (AccountState::Founded(s), AccountState::Founded(d)) => {
            assert_eq!(s.warehouse.reserve.wood, 1);
            assert_eq!(d.warehouse.reserve.wood, 4);
        }
        _ => panic!("both accounts should still hold fortresses"),
    }
}

#[test]
fn account_self_send_leaves_state_unchanged() {
    let mut state = AccountState::Founded(fort(
        ResourceType::Wood,
        1,
        2,
        7,
        Reserve { wood: 3, stone: 0, food: 0, magic: 0 },
    ));
    let r = send_resources_self(&mut state, &args(SendedUnits { wood: 3, stone: 0, food: 0, magic: 0 }));
    assert_eq!(r, Ok(()));
    match &state {
        AccountState::Founded(f) => {
            assert_eq!(f.warehouse.reserve.wood, 3);
            assert_eq!(f.key_resource.last_collection, 7);
        }
        _ => panic!("account should still hold its fortress"),
    }
    let mut vacant = AccountState::Vacant;
    let e = send_resources_self(&mut vacant, &args(SendedUnits { wood: 0, stone: 0, food: 0, magic: 0 }));
    assert_eq!(e, Err(FortressError::NotFound));
}

#[test]
fn reserve_get_reads_each_kind() {
    let r = Reserve { wood: 1, stone: 2, food: 3, magic: 4 };
    assert_eq!(r.get(ResourceType::Wood), 1);
    assert_eq!(r.get(ResourceType::Stone), 2);
    assert_eq!(r.get(ResourceType::Food), 3);
    assert_eq!(r.get(ResourceType::Magic), 4);
}

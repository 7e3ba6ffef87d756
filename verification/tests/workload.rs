use std::sync::atomic::{AtomicUsize, Ordering};
use std::sync::{Arc, Mutex};

use workload_core::access::{Mutability, ParamInfo, StorageId, TypeInfo};
use workload_core::convert::{IntoWorkloadSystem, SystemFn, Untracked, ViewSystemFn};
use workload_core::error::{InvalidSystem, RunError};
use workload_core::system::regenerate_constraints;
use workload_core::validate::check_constraints;
use workload_core::world::{ViewHandle, World};

fn info(name: &str, storage_id: StorageId, mutability: Mutability) -> TypeInfo {
    TypeInfo { name: String::from(name), storage_id, mutability, is_send: true, is_sync: true }
}

fn sentinel() -> TypeInfo {
    info("", StorageId::AllStorages, Mutability::Exclusive)
}

fn one_param_each(infos: Vec<TypeInfo>) -> Vec<ParamInfo> {
    infos.into_iter().map(|i| ParamInfo { borrows: vec![i] }).collect()
}

#[test]
fn zero_arg_system_has_empty_access_list_and_runs_once() {
    let count = Arc::new(AtomicUsize::new(0));
    let c = Arc::clone(&count);
    let bundle = SystemFn {
        token: 1,
        name: String::from("tick"),
        f: move || {
            c.fetch_add(1, Ordering::SeqCst);
        },
    };
    let ws = bundle.into_workload_system().unwrap();
    assert_eq!(ws.borrow_constraints.len(), 0);
    assert_eq!(ws.generator.len(), 0);
    assert_eq!(ws.system_type_id, 1);
    assert_eq!(ws.system_type_name, "tick");
    let world = World::new();
    let r = ws.run(&world);
    assert!(r.is_ok());
    assert_eq!(count.load(Ordering::SeqCst), 1);
}

#[test]
fn zero_arg_try_system_success_and_failure() {
    let ok_bundle = SystemFn {
        token: 2,
        name: String::from("may_fail"),
        f: move || -> Result<(), String> { Ok(()) },
    };
    let ws = ok_bundle.into_workload_try_system().unwrap();
    let world = World::new();
    assert!(ws.run(&world).is_ok());

    let count = Arc::new(AtomicUsize::new(0));
    let c = Arc::clone(&count);
    let err_bundle = SystemFn {
        token: 3,
        name: String::from("fails"),
        f: move || -> Result<(), String> {
            c.fetch_add(1, Ordering::SeqCst);
            Err(String::from("boom"))
        },
    };
    let ws = err_bundle.into_workload_try_system().unwrap();
    let r = ws.run(&world);
    assert_eq!(r, Err(RunError::Failure(String::from("boom"))));
    // The side effect executed before the failure was reported is observed:
    // no rollback is performed.
    assert_eq!(count.load(Ordering::SeqCst), 1);
}

#[test]
fn failable_callable_as_plain_system_discards_its_outcome() {
    let bundle = SystemFn {
        token: 4,
        name: String::from("ignored_failure"),
        f: move || -> Result<(), String> { Err(String::from("dropped")) },
    };
    let ws = bundle.into_workload_system().unwrap();
    let world = World::new();
    assert!(ws.run(&world).is_ok());
}

#[test]
fn cross_half_exclusive_exclusive_fails_multiple_views_mut() {
    let borrows = vec![
        info("a", StorageId::Unique(1), Mutability::Exclusive),
        info("b", StorageId::Unique(1), Mutability::Exclusive),
    ];
    assert_eq!(check_constraints(&borrows), Err(InvalidSystem::MultipleViewsMut));

    let bundle = ViewSystemFn {
        token: 5,
        name: String::from("two_exclusive"),
        params: one_param_each(borrows),
        f: move |_views: Vec<ViewHandle>| {},
    };
    assert!(matches!(bundle.into_workload_system(), Err(InvalidSystem::MultipleViewsMut)));
}

#[test]
fn cross_half_exclusive_shared_fails_multiple_views() {
    let borrows = vec![
        info("a", StorageId::Unique(1), Mutability::Exclusive),
        info("b", StorageId::Unique(1), Mutability::Shared),
    ];
    assert_eq!(check_constraints(&borrows), Err(InvalidSystem::MultipleViews));

    let reversed = vec![
        info("a", StorageId::Unique(1), Mutability::Shared),
        info("b", StorageId::Unique(1), Mutability::Exclusive),
    ];
    assert_eq!(check_constraints(&reversed), Err(InvalidSystem::MultipleViews));
}

#[test]
fn cross_half_shared_shared_succeeds() {
    let borrows = vec![
        info("a", StorageId::Unique(1), Mutability::Shared),
        info("b", StorageId::Unique(1), Mutability::Shared),
    ];
    assert_eq!(check_constraints(&borrows), Ok(()));
}

#[test]
fn sole_all_storages_sentinel_succeeds() {
    let borrows = vec![sentinel()];
    assert_eq!(check_constraints(&borrows), Ok(()));

    let bundle = ViewSystemFn {
        token: 6,
        name: String::from("structural"),
        params: one_param_each(borrows),
        f: move |_views: Vec<ViewHandle>| {},
    };
    let ws = bundle.into_workload_system().unwrap();
    assert_eq!(ws.borrow_constraints.len(), 1);
    // The whole-set handle is always grantable, even in an empty context.
    let world = World::new();
    assert!(ws.run(&world).is_ok());
}

#[test]
fn all_storages_sentinel_with_any_second_entry_fails() {
    // Second entry after the sentinel.
    let borrows = vec![sentinel(), info("b", StorageId::Unique(2), Mutability::Shared)];
    assert_eq!(check_constraints(&borrows), Err(InvalidSystem::AllStorages));

    // Sentinel in the second half instead.
    let borrows = vec![info("a", StorageId::Unique(2), Mutability::Exclusive), sentinel()];
    assert_eq!(check_constraints(&borrows), Err(InvalidSystem::AllStorages));

    // Even another copy of the sentinel itself.
    let borrows = vec![sentinel(), sentinel()];
    assert_eq!(check_constraints(&borrows), Err(InvalidSystem::AllStorages));
}

#[test]
fn different_storages_across_halves_succeed() {
    let borrows = vec![
        info("x", StorageId::Unique(10), Mutability::Shared),
        info("y", StorageId::Unique(11), Mutability::Exclusive),
    ];
    assert_eq!(check_constraints(&borrows), Ok(()));
}

#[test]
fn conflicts_inside_one_half_are_not_detected() {
    // Four entries, split after the second: both halves conflict internally,
    // but no storage identifier is shared across the split, so construction
    // succeeds. This is preserved, documented behavior of the validator.
    let borrows = vec![
        info("a1", StorageId::Unique(1), Mutability::Exclusive),
        info("a2", StorageId::Unique(1), Mutability::Exclusive),
        info("b1", StorageId::Unique(2), Mutability::Shared),
        info("b2", StorageId::Unique(2), Mutability::Shared),
    ];
    assert_eq!(check_constraints(&borrows), Ok(()));
}

#[test]
fn odd_length_split_puts_middle_entry_in_first_half() {
    // Three entries: mid = 2, so indices 0 and 1 form the first half. The
    // conflicting pair (0, 1) sits entirely in the first half and is missed;
    // pairing index 1 with index 2 is checked.
    let missed = vec![
        info("a", StorageId::Unique(1), Mutability::Exclusive),
        info("b", StorageId::Unique(1), Mutability::Exclusive),
        info("c", StorageId::Unique(2), Mutability::Shared),
    ];
    assert_eq!(check_constraints(&missed), Ok(()));

    let caught = vec![
        info("a", StorageId::Unique(2), Mutability::Shared),
        info("b", StorageId::Unique(1), Mutability::Exclusive),
        info("c", StorageId::Unique(1), Mutability::Exclusive),
    ];
    assert_eq!(check_constraints(&caught), Err(InvalidSystem::MultipleViewsMut));
}

#[test]
fn first_conflict_in_scan_order_decides_the_error() {
    // Both a mixed and an exclusive/exclusive conflict exist across the
    // halves; the scan meets the pair (0, 2) first, which is mixed.
    let borrows = vec![
        info("a", StorageId::Unique(1), Mutability::Shared),
        info("b", StorageId::Unique(2), Mutability::Exclusive),
        info("c", StorageId::Unique(1), Mutability::Exclusive),
        info("d", StorageId::Unique(2), Mutability::Exclusive),
    ];
    assert_eq!(check_constraints(&borrows), Err(InvalidSystem::MultipleViews));
}

#[test]
fn access_list_concatenates_params_in_declared_order() {
    let params = vec![
        ParamInfo {
            borrows: vec![
                info("p0a", StorageId::Unique(1), Mutability::Shared),
                info("p0b", StorageId::Unique(2), Mutability::Shared),
            ],
        },
        ParamInfo { borrows: vec![] },
        ParamInfo { borrows: vec![info("p2", StorageId::Unique(3), Mutability::Exclusive)] },
    ];
    let bundle = ViewSystemFn {
        token: 7,
        name: String::from("ordered"),
        params,
        f: move |_views: Vec<ViewHandle>| {},
    };
    let ws = bundle.into_workload_system().unwrap();
    let names: Vec<&str> = ws.borrow_constraints.iter().map(|t| t.name.as_str()).collect();
    assert_eq!(names, vec!["p0a", "p0b", "p2"]);

    // The stored generator regenerates exactly the declared access list.
    let regenerated = regenerate_constraints(&ws.generator);
    assert_eq!(regenerated.len(), ws.borrow_constraints.len());
    for (a, b) in regenerated.iter().zip(ws.borrow_constraints.iter()) {
        assert_eq!(a.name, b.name);
        assert_eq!(a.storage_id, b.storage_id);
        assert_eq!(a.mutability, b.mutability);
    }
}

#[test]
fn identity_passthrough_returns_the_unit_unchanged() {
    let count = Arc::new(AtomicUsize::new(0));
    let c = Arc::clone(&count);
    let bundle = SystemFn {
        token: 8,
        name: String::from("pass"),
        f: move || {
            c.fetch_add(1, Ordering::SeqCst);
        },
    };
    let ws = bundle.into_workload_system().unwrap();
    let ws = ws.into_workload_system().unwrap();
    let ws = ws.into_workload_try_system().unwrap();
    assert_eq!(ws.system_type_id, 8);
    assert_eq!(ws.system_type_name, "pass");
    assert_eq!(ws.borrow_constraints.len(), 0);
    // The wrapped thunk is still the original callable.
    let world = World::new();
    assert!(ws.run(&world).is_ok());
    assert_eq!(count.load(Ordering::SeqCst), 1);
}

#[test]
fn thunk_acquires_views_in_order_and_hands_them_to_the_callable() {
    let seen: Arc<Mutex<Vec<ViewHandle>>> = Arc::new(Mutex::new(Vec::new()));
    let sink = Arc::clone(&seen);
    let params = one_param_each(vec![
        info("x", StorageId::Unique(1), Mutability::Shared),
        info("y", StorageId::Unique(2), Mutability::Exclusive),
    ]);
    let bundle = ViewSystemFn {
        token: 9,
        name: String::from("collects"),
        params,
        f: move |views: Vec<ViewHandle>| {
            sink.lock().unwrap().extend(views);
        },
    };
    let ws = bundle.into_workload_system().unwrap();
    let mut world = World::new();
    world.add_storage(StorageId::Unique(1));
    world.add_storage(StorageId::Unique(2));
    assert!(ws.run(&world).is_ok());
    let got = seen.lock().unwrap().clone();
    assert_eq!(
        got,
        vec![
            ViewHandle { storage_id: StorageId::Unique(1), mutability: Mutability::Shared },
            ViewHandle { storage_id: StorageId::Unique(2), mutability: Mutability::Exclusive },
        ]
    );
}

#[test]
fn first_missing_storage_fails_the_run_without_invoking_the_callable() {
    let count = Arc::new(AtomicUsize::new(0));
    let c = Arc::clone(&count);
    let params = one_param_each(vec![
        info("x", StorageId::Unique(1), Mutability::Shared),
        info("y", StorageId::Unique(2), Mutability::Shared),
        info("z", StorageId::Unique(3), Mutability::Shared),
    ]);
    let bundle = ViewSystemFn {
        token: 10,
        name: String::from("missing"),
        params,
        f: move |_views: Vec<ViewHandle>| {
            c.fetch_add(1, Ordering::SeqCst);
        },
    };
    let ws = bundle.into_workload_system().unwrap();
    let mut world = World::new();
    world.add_storage(StorageId::Unique(1));
    // Storages 2 and 3 are both absent; the failure names the first one
    // reached in access-list order.
    let r = ws.run(&world);
    assert_eq!(r, Err(RunError::MissingStorage(StorageId::Unique(2))));
    assert_eq!(count.load(Ordering::SeqCst), 0);
}

#[test]
fn view_try_system_reports_callable_failure() {
    let params = one_param_each(vec![info("x", StorageId::Unique(1), Mutability::Exclusive)]);
    let bundle = ViewSystemFn {
        token: 11,
        name: String::from("try_views"),
        params,
        f: move |_views: Vec<ViewHandle>| -> Result<(), String> { Err(String::from("late")) },
    };
    let ws = bundle.into_workload_try_system().unwrap();
    let mut world = World::new();
    world.add_storage(StorageId::Unique(1));
    assert_eq!(ws.run(&world), Err(RunError::Failure(String::from("late"))));
}

#[test]
fn view_system_with_no_params_declares_nothing_and_succeeds() {
    let bundle = ViewSystemFn {
        token: 13,
        name: String::from("no_params"),
        params: Vec::new(),
        f: move |_views: Vec<ViewHandle>| {},
    };
    let ws = bundle.into_workload_system().unwrap();
    assert_eq!(ws.borrow_constraints.len(), 0);
    let world = World::new();
    assert!(ws.run(&world).is_ok());
}

#[test]
fn named_whole_set_entry_is_not_the_sentinel() {
    // The sentinel check compares every field, the label included: a
    // whole-set entry with a non-empty label does not trigger `AllStorages`.
    // The two entries still share a storage identifier across the halves, so
    // the mixed pair is rejected by the ordinary pairwise check.
    let borrows = vec![
        info("named", StorageId::AllStorages, Mutability::Exclusive),
        info("other", StorageId::AllStorages, Mutability::Shared),
    ];
    assert_eq!(check_constraints(&borrows), Err(InvalidSystem::MultipleViews));
}

#[test]
fn untracked_marker_names_the_zero_argument_conversion() {
    let _marker = Untracked;
    let bundle = SystemFn { token: 12, name: String::from("noop"), f: move || {} };
    let ws = <SystemFn<_> as IntoWorkloadSystem<Untracked, ()>>::into_workload_system(bundle);
    assert!(ws.is_ok());
}

use callback::closure::{Closure0, Closure3};
use callback::{
    create_callback, create_callback_0, create_callback_1, create_callback_2,
    create_callback_once, fire, fire_found, get_callback, invoke, remove_callback,
    retire_callback, CallbackHandler, CallbackManager, Dispatch,
};
use std::sync::atomic::{AtomicUsize, Ordering};
use std::sync::{Arc, Mutex};

fn table() -> spin::Mutex<CallbackManager<f64>> {
    spin::Mutex::new(CallbackManager::new())
}

#[test]
fn two_argument_closure_sees_three_calls_in_order() {
    let cbs = table();
    let calls = Arc::new(AtomicUsize::new(0));
    let seen: Arc<Mutex<Vec<(f64, f64)>>> = Arc::new(Mutex::new(Vec::new()));
    let (count, log) = (calls.clone(), seen.clone());
    let handle = create_callback_2(&cbs, move |a: f64, b: f64| {
        count.fetch_add(1, Ordering::SeqCst);
        log.lock().unwrap().push((a, b));
    })
    .unwrap();
    assert_eq!(invoke(&cbs, handle, &[1.0, 2.0]), Dispatch::Called);
    assert_eq!(invoke(&cbs, handle, &[3.5, -4.0]), Dispatch::Called);
    assert_eq!(invoke(&cbs, handle, &[0.0, 1e9]), Dispatch::Called);
    assert_eq!(calls.load(Ordering::SeqCst), 3);
    assert_eq!(*seen.lock().unwrap(), vec![(1.0, 2.0), (3.5, -4.0), (0.0, 1e9)]);
}

#[test]
fn a_stateful_closure_keeps_its_state_between_calls() {
    let cbs = table();
    let totals: Arc<Mutex<Vec<f64>>> = Arc::new(Mutex::new(Vec::new()));
    let log = totals.clone();
    let mut sum = 0.0;
    let handle = create_callback_1(&cbs, move |a: f64| {
        sum += a;
        log.lock().unwrap().push(sum);
    })
    .unwrap();
    for value in [1.0, 2.0, 3.0] {
        assert_eq!(invoke(&cbs, handle, &[value]), Dispatch::Called);
    }
    assert_eq!(*totals.lock().unwrap(), vec![1.0, 3.0, 6.0]);
}

#[test]
fn shared_table_issues_handles_from_one() {
    let cbs = table();
    assert_eq!(create_callback_0(&cbs, || {}), Some(1));
    assert_eq!(create_callback_1(&cbs, |_: f64| {}), Some(2));
    assert_eq!(
        create_callback(&cbs, CallbackHandler::Callback0(Box::new(Closure0::new(|| {})))),
        Some(3)
    );
    assert_eq!(cbs.lock().keys(), vec![1, 2, 3]);
}

#[test]
fn shared_table_with_a_spent_counter_registers_nothing() {
    let cbs: spin::Mutex<CallbackManager<f64>> =
        spin::Mutex::new(CallbackManager::starting_after(u32::MAX));
    assert_eq!(create_callback_0(&cbs, || {}), None);
    assert_eq!(create_callback_2(&cbs, |_: f64, _: f64| {}), None);
    assert_eq!(cbs.lock().len(), 0);
    assert_eq!(cbs.lock().counter(), u32::MAX);
}

#[test]
fn firing_unknown_and_removed_handles_on_a_shared_table_is_a_no_op() {
    let cbs = table();
    let calls = Arc::new(AtomicUsize::new(0));
    let count = calls.clone();
    let kept = create_callback_0(&cbs, move || {
        count.fetch_add(1, Ordering::SeqCst);
    })
    .unwrap();
    let count = calls.clone();
    let dropped = create_callback_0(&cbs, move || {
        count.fetch_add(100, Ordering::SeqCst);
    })
    .unwrap();
    remove_callback(&cbs, dropped);
    remove_callback(&cbs, dropped);
    remove_callback(&cbs, 77);
    assert_eq!(invoke(&cbs, dropped, &[]), Dispatch::UnknownHandle);
    assert_eq!(invoke(&cbs, 77, &[1.0]), Dispatch::UnknownHandle);
    assert_eq!(invoke(&cbs, 0, &[]), Dispatch::UnknownHandle);
    assert_eq!(calls.load(Ordering::SeqCst), 0);
    assert_eq!(cbs.lock().keys(), vec![kept]);
    assert_eq!(invoke(&cbs, kept, &[]), Dispatch::Called);
    assert_eq!(calls.load(Ordering::SeqCst), 1);
    assert!(get_callback(&cbs, dropped).is_none());
    assert!(get_callback(&cbs, kept).is_some());
}

#[test]
fn get_callback_shares_the_slot_and_leaves_the_table_unlocked() {
    let cbs = table();
    let handle = create_callback_0(&cbs, || {}).unwrap();
    let first = get_callback(&cbs, handle).unwrap();
    let second = get_callback(&cbs, handle).unwrap();
    assert!(Arc::ptr_eq(&first, &second));
    assert_eq!(Arc::strong_count(&first), 3);
    assert!(cbs.try_lock().is_some());
    assert!(first.try_lock().is_some());
}

#[test]
fn a_callback_may_register_and_remove_while_it_runs() {
    let cbs = Arc::new(table());
    let made: Arc<Mutex<Vec<u32>>> = Arc::new(Mutex::new(Vec::new()));
    let victim = create_callback_0(&cbs, || {}).unwrap();
    let (inner, log) = (cbs.clone(), made.clone());
    let handle = create_callback_0(&cbs, move || {
        assert!(inner.try_lock().is_some());
        let fresh = create_callback_0(&inner, || {}).unwrap();
        remove_callback(&inner, victim);
        log.lock().unwrap().push(fresh);
    })
    .unwrap();
    assert_eq!(invoke(&cbs, handle, &[]), Dispatch::Called);
    assert_eq!(*made.lock().unwrap(), vec![3]);
    assert_eq!(cbs.lock().keys(), vec![handle, 3]);
}

#[test]
fn a_callback_may_remove_itself_while_it_runs() {
    let cbs = Arc::new(table());
    let calls = Arc::new(AtomicUsize::new(0));
    let own = Arc::new(AtomicUsize::new(0));
    let (inner, count, me) = (cbs.clone(), calls.clone(), own.clone());
    let handle = create_callback_0(&cbs, move || {
        count.fetch_add(1, Ordering::SeqCst);
        remove_callback(&inner, me.load(Ordering::SeqCst) as u32);
    })
    .unwrap();
    own.store(handle as usize, Ordering::SeqCst);
    assert_eq!(invoke(&cbs, handle, &[]), Dispatch::Called);
    assert_eq!(invoke(&cbs, handle, &[]), Dispatch::UnknownHandle);
    assert_eq!(calls.load(Ordering::SeqCst), 1);
    assert_eq!(cbs.lock().len(), 0);
}

#[test]
fn the_slot_is_locked_while_its_callback_runs_and_free_afterwards() {
    let cbs = Arc::new(table());
    let observed = Arc::new(AtomicUsize::new(0));
    let own = Arc::new(AtomicUsize::new(0));
    let (inner, seen, me) = (cbs.clone(), observed.clone(), own.clone());
    let handle = create_callback_0(&cbs, move || {
        let slot = get_callback(&inner, me.load(Ordering::SeqCst) as u32).unwrap();
        if slot.try_lock().is_none() {
            seen.fetch_add(1, Ordering::SeqCst);
        }
    })
    .unwrap();
    own.store(handle as usize, Ordering::SeqCst);
    assert_eq!(invoke(&cbs, handle, &[]), Dispatch::Called);
    assert_eq!(observed.load(Ordering::SeqCst), 1);
    assert!(get_callback(&cbs, handle).unwrap().try_lock().is_some());
}

#[test]
fn fire_reports_a_wrong_number_of_values() {
    let seen: Arc<Mutex<Vec<(f64, f64, f64)>>> = Arc::new(Mutex::new(Vec::new()));
    let log = seen.clone();
    let slot = spin::Mutex::new(CallbackHandler::Callback3(Box::new(Closure3::new(
        move |a: f64, b: f64, c: f64| log.lock().unwrap().push((a, b, c)),
    ))));
    assert_eq!(fire(&slot, &[1.0, 2.0]), Dispatch::ArityMismatch);
    assert_eq!(fire(&slot, &[1.0, 2.0, 3.0, 4.0]), Dispatch::ArityMismatch);
    assert_eq!(fire(&slot, &[]), Dispatch::ArityMismatch);
    assert!(seen.lock().unwrap().is_empty());
    assert_eq!(fire(&slot, &[1.0, 2.0, 3.0]), Dispatch::Called);
    assert_eq!(*seen.lock().unwrap(), vec![(1.0, 2.0, 3.0)]);
    assert!(slot.try_lock().is_some());
}

#[test]
fn fire_found_fires_the_slot_found_and_ignores_a_lookup_that_found_none() {
    let cbs = table();
    let seen: Arc<Mutex<Vec<f64>>> = Arc::new(Mutex::new(Vec::new()));
    let log = seen.clone();
    let handle = create_callback_1(&cbs, move |a: f64| log.lock().unwrap().push(a)).unwrap();
    assert_eq!(fire_found(get_callback(&cbs, handle), &[4.5]), Dispatch::Called);
    assert_eq!(fire_found(get_callback(&cbs, handle), &[]), Dispatch::ArityMismatch);
    assert_eq!(fire_found(get_callback(&cbs, handle + 1), &[4.5]), Dispatch::UnknownHandle);
    assert_eq!(fire_found::<f64>(None, &[]), Dispatch::UnknownHandle);
    assert_eq!(fire_found::<f64>(None, &[0.0; 11]), Dispatch::UnknownHandle);
    assert_eq!(*seen.lock().unwrap(), vec![4.5]);
}

#[test]
fn a_callback_registered_for_one_firing_leaves_the_shared_table_when_it_ran() {
    let cbs = table();
    let calls = Arc::new(AtomicUsize::new(0));
    let count = calls.clone();
    let kept = create_callback_0(&cbs, || {}).unwrap();
    let once = create_callback_once(
        &cbs,
        CallbackHandler::Callback0(Box::new(Closure0::new(move || {
            count.fetch_add(1, Ordering::SeqCst);
        }))),
    )
    .unwrap();
    assert_eq!((kept, once), (1, 2));
    assert_eq!(invoke(&cbs, once, &[1.0]), Dispatch::ArityMismatch);
    assert_eq!(cbs.lock().keys(), vec![kept, once]);
    assert_eq!(invoke(&cbs, once, &[]), Dispatch::Called);
    assert_eq!(cbs.lock().keys(), vec![kept]);
    assert_eq!(invoke(&cbs, once, &[]), Dispatch::UnknownHandle);
    assert_eq!(calls.load(Ordering::SeqCst), 1);
    assert_eq!(invoke(&cbs, kept, &[]), Dispatch::Called);
    assert_eq!(invoke(&cbs, kept, &[]), Dispatch::Called);
    assert_eq!(cbs.lock().keys(), vec![kept]);
    assert!(cbs.try_lock().is_some());
}

#[test]
fn retire_callback_ends_what_was_fired_by_hand() {
    let cbs = table();
    let kept = create_callback_0(&cbs, || {}).unwrap();
    let once =
        create_callback_once(&cbs, CallbackHandler::Callback0(Box::new(Closure0::new(|| {}))))
            .unwrap();
    let slot = get_callback(&cbs, once).unwrap();
    let outcome = fire(&slot, &[2.0]);
    assert_eq!(outcome, Dispatch::ArityMismatch);
    retire_callback(&cbs, once, outcome);
    assert_eq!(cbs.lock().keys(), vec![kept, once]);
    let outcome = fire(&slot, &[]);
    assert_eq!(outcome, Dispatch::Called);
    retire_callback(&cbs, kept, outcome);
    assert_eq!(cbs.lock().keys(), vec![kept, once]);
    retire_callback(&cbs, once, outcome);
    assert_eq!(cbs.lock().keys(), vec![kept]);
}

use callback::closure::{
    Callback, Closure0, Closure1, Closure10, Closure2, Closure3, Closure4, Closure5, Closure6,
    Closure7, Closure8, Closure9,
};
use callback::{
    create_callback_0, create_callback_1, create_callback_10, create_callback_2,
    create_callback_3, create_callback_4, create_callback_5, create_callback_6,
    create_callback_7, create_callback_8, create_callback_9, fire, invoke, CallbackHandler,
    CallbackManager, Dispatch,
};
use std::sync::{Arc, Mutex};

type Log = Arc<Mutex<Vec<Vec<u32>>>>;

const VALUES: [u32; 10] = [11, 22, 33, 44, 55, 66, 77, 88, 99, 110];

fn handler(arity: usize, log: &Log) -> CallbackHandler<u32> {
    let l = log.clone();
    match arity {
        0 => CallbackHandler::Callback0(Box::new(Closure0::new(move || {
            l.lock().unwrap().push(vec![])
        }))),
        1 => CallbackHandler::Callback1(Box::new(Closure1::new(move |a| {
            l.lock().unwrap().push(vec![a])
        }))),
        2 => CallbackHandler::Callback2(Box::new(Closure2::new(move |a, b| {
            l.lock().unwrap().push(vec![a, b])
        }))),
        3 => CallbackHandler::Callback3(Box::new(Closure3::new(move |a, b, c| {
            l.lock().unwrap().push(vec![a, b, c])
        }))),
        4 => CallbackHandler::Callback4(Box::new(Closure4::new(move |a, b, c, d| {
            l.lock().unwrap().push(vec![a, b, c, d])
        }))),
        5 => CallbackHandler::Callback5(Box::new(Closure5::new(move |a, b, c, d, e| {
            l.lock().unwrap().push(vec![a, b, c, d, e])
        }))),
        6 => CallbackHandler::Callback6(Box::new(Closure6::new(move |a, b, c, d, e, f| {
            l.lock().unwrap().push(vec![a, b, c, d, e, f])
        }))),
        7 => CallbackHandler::Callback7(Box::new(Closure7::new(move |a, b, c, d, e, f, g| {
            l.lock().unwrap().push(vec![a, b, c, d, e, f, g])
        }))),
        8 => CallbackHandler::Callback8(Box::new(Closure8::new(
            move |a, b, c, d, e, f, g, h| l.lock().unwrap().push(vec![a, b, c, d, e, f, g, h]),
        ))),
        9 => CallbackHandler::Callback9(Box::new(Closure9::new(
            move |a, b, c, d, e, f, g, h, i| {
                l.lock().unwrap().push(vec![a, b, c, d, e, f, g, h, i])
            },
        ))),
        10 => CallbackHandler::Callback10(Box::new(Closure10::new(
            move |a, b, c, d, e, f, g, h, i, j| {
                l.lock().unwrap().push(vec![a, b, c, d, e, f, g, h, i, j])
            },
        ))),
        _ => unreachable!(),
    }
}

#[test]
fn arity_is_the_number_of_the_variant() {
    let log: Log = Arc::new(Mutex::new(Vec::new()));
    for n in 0..=10 {
        assert_eq!(handler(n, &log).arity(), n);
    }
}

#[test]
fn every_arity_gets_its_values_in_order() {
    for n in 0..=10 {
        let log: Log = Arc::new(Mutex::new(Vec::new()));
        let mut h = handler(n, &log);
        assert!(h.call(&VALUES[..n]));
        assert_eq!(*log.lock().unwrap(), vec![VALUES[..n].to_vec()]);
    }
}

#[test]
fn every_arity_refuses_every_other_number_of_values() {
    for n in 0..=10 {
        let log: Log = Arc::new(Mutex::new(Vec::new()));
        let mut h = handler(n, &log);
        for given in 0..=10 {
            if given != n {
                assert!(!h.call(&VALUES[..given]));
            }
        }
        assert!(!h.call(&[1, 2, 3, 4, 5, 6, 7, 8, 9, 10, 11]));
        assert!(log.lock().unwrap().is_empty());
        assert_eq!(h.arity(), n);
    }
}

#[test]
fn a_handler_can_be_called_again_and_again() {
    let log: Log = Arc::new(Mutex::new(Vec::new()));
    let mut h = handler(2, &log);
    assert!(h.call(&[1, 2]));
    assert!(h.call(&[3, 4]));
    assert!(!h.call(&[5]));
    assert!(h.call(&[6, 7]));
    assert_eq!(*log.lock().unwrap(), vec![vec![1, 2], vec![3, 4], vec![6, 7]]);
}

#[test]
fn a_wrapped_closure_is_called_through_the_trait() {
    let log: Log = Arc::new(Mutex::new(Vec::new()));
    let l = log.clone();
    let mut c = Closure2::new(move |a: u32, b: u32| l.lock().unwrap().push(vec![a, b]));
    c.call((7, 8));
    c.call((8, 7));
    assert_eq!(*log.lock().unwrap(), vec![vec![7, 8], vec![8, 7]]);
}

#[test]
fn each_registration_function_stores_its_own_arity() {
    let cbs: spin::Mutex<CallbackManager<u32>> = spin::Mutex::new(CallbackManager::new());
    let log: Log = Arc::new(Mutex::new(Vec::new()));
    let l = log.clone();
    let h0 = create_callback_0(&cbs, move || l.lock().unwrap().push(vec![])).unwrap();
    let l = log.clone();
    let h1 = create_callback_1(&cbs, move |a| l.lock().unwrap().push(vec![a])).unwrap();
    let l = log.clone();
    let h2 = create_callback_2(&cbs, move |a, b| l.lock().unwrap().push(vec![a, b])).unwrap();
    let l = log.clone();
    let h3 = create_callback_3(&cbs, move |a, b, c| l.lock().unwrap().push(vec![a, b, c]))
        .unwrap();
    let l = log.clone();
    let h4 = create_callback_4(&cbs, move |a, b, c, d| l.lock().unwrap().push(vec![a, b, c, d]))
        .unwrap();
    let l = log.clone();
    let h5 = create_callback_5(&cbs, move |a, b, c, d, e| {
        l.lock().unwrap().push(vec![a, b, c, d, e])
    })
    .unwrap();
    let l = log.clone();
    let h6 = create_callback_6(&cbs, move |a, b, c, d, e, f| {
        l.lock().unwrap().push(vec![a, b, c, d, e, f])
    })
    .unwrap();
    let l = log.clone();
    let h7 = create_callback_7(&cbs, move |a, b, c, d, e, f, g| {
        l.lock().unwrap().push(vec![a, b, c, d, e, f, g])
    })
    .unwrap();
    let l = log.clone();
    let h8 = create_callback_8(&cbs, move |a, b, c, d, e, f, g, h| {
        l.lock().unwrap().push(vec![a, b, c, d, e, f, g, h])
    })
    .unwrap();
    let l = log.clone();
    let h9 = create_callback_9(&cbs, move |a, b, c, d, e, f, g, h, i| {
        l.lock().unwrap().push(vec![a, b, c, d, e, f, g, h, i])
    })
    .unwrap();
    let l = log.clone();
    let h10 = create_callback_10(&cbs, move |a, b, c, d, e, f, g, h, i, j| {
        l.lock().unwrap().push(vec![a, b, c, d, e, f, g, h, i, j])
    })
    .unwrap();
    let handles = [h0, h1, h2, h3, h4, h5, h6, h7, h8, h9, h10];
    assert_eq!(handles, [1, 2, 3, 4, 5, 6, 7, 8, 9, 10, 11]);
    for (n, handle) in handles.iter().enumerate() {
        assert_eq!(invoke(&cbs, *handle, &VALUES[..n]), Dispatch::Called);
        if n > 0 {
            assert_eq!(invoke(&cbs, *handle, &VALUES[..n - 1]), Dispatch::ArityMismatch);
        }
    }
    let expected: Vec<Vec<u32>> = (0..=10).map(|n| VALUES[..n].to_vec()).collect();
    assert_eq!(*log.lock().unwrap(), expected);
}

#[test]
fn a_boxed_closure_can_be_registered_as_it_is() {
    let cbs: spin::Mutex<CallbackManager<f64>> = spin::Mutex::new(CallbackManager::new());
    let seen: Arc<Mutex<Vec<f64>>> = Arc::new(Mutex::new(Vec::new()));
    let l = seen.clone();
    let boxed: Box<dyn FnMut(f64) -> () + Send + 'static> =
        Box::new(move |a| l.lock().unwrap().push(a));
    let handle = create_callback_1(&cbs, boxed).unwrap();
    assert_eq!(invoke(&cbs, handle, &[2.5]), Dispatch::Called);
    assert_eq!(*seen.lock().unwrap(), vec![2.5]);
}

#[test]
fn dispatch_runs_on_the_right_number_of_values_and_reports_any_other() {
    for n in 0..=10 {
        let log: Log = Arc::new(Mutex::new(Vec::new()));
        let mut h = handler(n, &log);
        for given in 0..=10 {
            let expected = if given == n { Dispatch::Called } else { Dispatch::ArityMismatch };
            assert_eq!(h.dispatch(&VALUES[..given]), expected);
        }
        assert_eq!(*log.lock().unwrap(), vec![VALUES[..n].to_vec()]);
        assert_eq!(h.arity(), n);
    }
}

#[test]
fn more_than_ten_values_are_refused_by_every_callback() {
    let eleven = [1, 2, 3, 4, 5, 6, 7, 8, 9, 10, 11];
    let cbs: spin::Mutex<CallbackManager<u32>> = spin::Mutex::new(CallbackManager::new());
    for n in 0..=10 {
        let log: Log = Arc::new(Mutex::new(Vec::new()));
        let mut h = handler(n, &log);
        assert_eq!(h.dispatch(&eleven), Dispatch::ArityMismatch);
        let slot = spin::Mutex::new(h);
        assert_eq!(fire(&slot, &eleven), Dispatch::ArityMismatch);
        assert_eq!(fire(&slot, &[0; 40]), Dispatch::ArityMismatch);
        let handle = callback::create_callback(&cbs, slot.into_inner()).unwrap();
        assert_eq!(invoke(&cbs, handle, &eleven), Dispatch::ArityMismatch);
        assert!(log.lock().unwrap().is_empty());
        assert_eq!(invoke(&cbs, handle, &VALUES[..n]), Dispatch::Called);
        assert_eq!(*log.lock().unwrap(), vec![VALUES[..n].to_vec()]);
    }
    assert_eq!(invoke(&cbs, 99, &eleven), Dispatch::UnknownHandle);
}

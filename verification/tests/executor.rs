use std::sync::Arc;
use std::time::Duration;

use tokio::runtime::Handle;
use tokio::runtime::Runtime;
use tokio::sync::Mutex;
use tokio::time::sleep;

use taskshield::task::outcome_of_join;
use taskshield::task::submit;
use taskshield::AbortDescription;
use taskshield::Outcome;

#[test]
fn returns_value() {
    let rt = Runtime::new().unwrap();
    let result: i32 = rt.block_on(async {
        let handle = submit(&Handle::current(), async { 42 });
        match outcome_of_join(handle.await).into_result() {
            Ok(v) => v,
            Err(d) => panic!("shielded computation aborted: {:?}", d),
        }
    });
    assert_eq!(result, 42);
}

#[test]
fn survives_cancel() {
    let rt = Runtime::new().unwrap();
    rt.block_on(async {
        let x = Arc::new(Mutex::new(false));
        let y = Arc::clone(&x);
        let inner = submit(&Handle::current(), async move {
            sleep(Duration::from_millis(100)).await;
            *y.lock().await = true;
        });
        let task = tokio::spawn(async move {
            match outcome_of_join(inner.await).into_result() {
                Ok(v) => v,
                Err(d) => panic!("shielded computation aborted: {:?}", d),
            }
        });
        sleep(Duration::from_millis(50)).await;
        task.abort();
        sleep(Duration::from_millis(100)).await;
        assert!(*x.lock().await);
    });
}

#[test]
fn inner_panic() {
    let rt = Runtime::new().unwrap();
    rt.block_on(async {
        let handle = submit(&Handle::current(), async {
            panic!();
        });
        let o = outcome_of_join(handle.await);
        assert!(matches!(o, Outcome::Aborted(AbortDescription::Panicked)));
    });
}

#[test]
fn eager_dispatch() {
    let rt = Runtime::new().unwrap();
    rt.block_on(async {
        let x = Arc::new(Mutex::new(false));
        let y = Arc::clone(&x);
        let handle = submit(&Handle::current(), async move {
            *y.lock().await = true;
        });
        drop(handle);
        sleep(Duration::from_millis(50)).await;
        assert!(*x.lock().await);
    });
}

#[test]
fn exactly_once() {
    let rt = Runtime::new().unwrap();
    let total: u64 = rt.block_on(async {
        let counter = Arc::new(Mutex::new(0u64));
        let mut handles = Vec::new();
        let n: usize = 10;
        let mut i: usize = 0;
        while i < n {
            let c = Arc::clone(&counter);
            handles.push(submit(&Handle::current(), async move {
                *c.lock().await += 1;
            }));
            i += 1;
        }
        for handle in handles {
            match outcome_of_join(handle.await).into_result() {
                Ok(()) => {}
                Err(d) => panic!("shielded computation aborted: {:?}", d),
            }
        }
        let v: u64 = *counter.lock().await;
        v
    });
    assert_eq!(total, 10);
}

#[test]
fn cancelled_task_reported() {
    let rt = Runtime::new().unwrap();
    rt.block_on(async {
        let handle = submit(&Handle::current(), async {
            sleep(Duration::from_millis(1000)).await;
        });
        handle.abort();
        let o = outcome_of_join(handle.await);
        assert!(matches!(o, Outcome::Aborted(AbortDescription::Cancelled)));
    });
}

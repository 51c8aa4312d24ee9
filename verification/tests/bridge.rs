use std::sync::atomic::{AtomicUsize, Ordering};
use std::sync::{mpsc, Arc, Mutex};
use std::time::{Duration, Instant};

use summary_server::bridge::settle;
use summary_server::error::{FailureKind, ServiceError};
use summary_server::handle::{ModelHandle, Readiness};
use summary_server::reply::respond;
use summary_server::service::{serve, Served};
use summary_server::settings::EngineSettings;
use tokio::runtime::{Builder, Handle, Runtime};
use tokio::task::JoinError;

fn runtime() -> Runtime {
    Builder::new_multi_thread().worker_threads(4).enable_all().build().unwrap()
}

fn cancelled_task() -> JoinError {
    runtime().block_on(async {
        let task = tokio::spawn(std::future::pending::<()>());
        task.abort();
        task.await.unwrap_err()
    })
}

fn panicked_task() -> JoinError {
    runtime().block_on(async {
        let task = tokio::task::spawn_blocking(|| -> () { panic!("worker gave up") });
        task.await.unwrap_err()
    })
}

/// Stands in for the engine: numbered at construction, upper-cases its input.
struct Shouter {
    serial: usize,
}

fn shout(engine: &Shouter, batch: Vec<String>) -> Result<Vec<String>, String> {
    Ok(batch.iter().map(|t| format!("{}:{}", engine.serial, t.to_uppercase())).collect())
}

#[test]
fn cancelled_task_is_a_scheduling_failure() {
    let lost = cancelled_task();
    assert!(lost.is_cancelled());
    let shown = format!("{:?}", lost);
    let err = ServiceError::from_join_error(lost);
    assert_eq!(err.kind(), FailureKind::Scheduling);
    assert_eq!(err.detail(), &shown);
    assert!(err.detail().starts_with("JoinError::Cancelled("));
}

#[test]
fn panicked_task_is_a_scheduling_failure() {
    let lost = panicked_task();
    assert!(lost.is_panic());
    let err = ServiceError::from_join_error(lost);
    assert_eq!(err.kind(), FailureKind::Scheduling);
    assert!(err.detail().starts_with("JoinError::Panic("));
    assert!(err.detail().contains("worker gave up"));
}

#[test]
fn finished_work_keeps_its_result() {
    match settle(Ok(Served::Answered(Ok(String::from("done"))))) {
        Served::Answered(Ok(summary)) => assert_eq!(summary, "done"),
        other => panic!("unexpected: {:?}", other),
    }
    match settle(Ok(Served::Fatal(String::from("no engine")))) {
        Served::Fatal(detail) => assert_eq!(detail, "no engine"),
        other => panic!("unexpected: {:?}", other),
    }
    match settle(Ok(Served::Answered(Err(ServiceError::inference(String::from("bad")))))) {
        Served::Answered(Err(err)) => {
            assert_eq!(err.kind(), FailureKind::Inference);
            assert_eq!(err.detail(), "bad");
        }
        other => panic!("unexpected: {:?}", other),
    }
}

#[test]
fn lost_work_is_answered_as_internal_error() {
    let lost = cancelled_task();
    let shown = format!("{:?}", lost);
    let served = settle(Err(lost));
    let reply = match served {
        Served::Answered(outcome) => respond(outcome),
        Served::Fatal(detail) => panic!("unexpected fatal: {}", detail),
    };
    assert_eq!(reply.status, 500);
    assert!(reply.body.starts_with("error while asyncing some awaits: JoinError::Cancelled("));
    assert_eq!(reply.body, format!("error while asyncing some awaits: {}", shown));
}

#[test]
fn lost_work_carries_the_report_of_its_own_task() {
    let cancelled = cancelled_task();
    let panicked = panicked_task();
    let shown_cancelled = format!("{:?}", cancelled);
    let shown_panicked = format!("{:?}", panicked);
    assert_ne!(shown_cancelled, shown_panicked);
    match settle(Err(panicked)) {
        Served::Answered(Err(err)) => {
            assert_eq!(err.kind(), FailureKind::Scheduling);
            assert_eq!(err.detail(), &shown_panicked);
        }
        other => panic!("unexpected: {:?}", other),
    }
    match settle(Err(cancelled)) {
        Served::Answered(Err(err)) => {
            assert_eq!(err.kind(), FailureKind::Scheduling);
            assert_eq!(err.detail(), &shown_cancelled);
        }
        other => panic!("unexpected: {:?}", other),
    }
}

#[test]
fn aborted_inference_is_internal_and_engine_failure_is_bad_request() {
    let aborted = match settle(Err(panicked_task())) {
        Served::Answered(outcome) => respond(outcome),
        Served::Fatal(detail) => panic!("unexpected fatal: {}", detail),
    };
    assert_eq!(aborted.status, 500);
    let mut handle: ModelHandle<Shouter> = ModelHandle::new(EngineSettings::serving());
    let served = serve(
        &mut handle,
        String::from("text"),
        |_s: &EngineSettings| Ok(Shouter { serial: 0 }),
        |_e: &Shouter, _batch: Vec<String>| Err(String::from("ValueError(\"rejected\")")),
    );
    let rejected = match settle(Ok(served)) {
        Served::Answered(outcome) => respond(outcome),
        Served::Fatal(detail) => panic!("unexpected fatal: {}", detail),
    };
    assert_eq!(rejected.status, 400);
    assert_eq!(rejected.body, "error summarizing text: ValueError(\"rejected\")");
}

#[test]
fn concurrent_first_callers_build_once() {
    let callers = 16;
    let built = Arc::new(AtomicUsize::new(0));
    let handle: Arc<Mutex<ModelHandle<Shouter>>> =
        Arc::new(Mutex::new(ModelHandle::new(EngineSettings::serving())));
    let rt = runtime();
    let summaries = rt.block_on(async {
        let mut tasks = Vec::new();
        for _ in 0..callers {
            let handle = handle.clone();
            let built = built.clone();
            tasks.push(tokio::task::spawn_blocking(move || {
                let mut guard = handle.lock().unwrap();
                serve(
                    &mut guard,
                    String::from("hello"),
                    |_s: &EngineSettings| Ok(Shouter { serial: built.fetch_add(1, Ordering::SeqCst) }),
                    shout,
                )
            }));
        }
        let mut summaries = Vec::new();
        for task in tasks {
            match settle(task.await) {
                Served::Answered(Ok(summary)) => summaries.push(summary),
                other => panic!("unexpected: {:?}", other),
            }
        }
        summaries
    });
    assert_eq!(built.load(Ordering::SeqCst), 1);
    assert_eq!(summaries.len(), callers);
    assert!(summaries.iter().all(|s| s == "0:HELLO"));
    assert_eq!(handle.lock().unwrap().readiness(), Readiness::Ready);
}

#[test]
fn concurrent_requests_never_overlap_on_the_engine() {
    let callers = 4u32;
    let pause = Duration::from_millis(25);
    let inside = Arc::new(AtomicUsize::new(0));
    let most = Arc::new(AtomicUsize::new(0));
    let handle: Arc<Mutex<ModelHandle<Shouter>>> =
        Arc::new(Mutex::new(ModelHandle::new(EngineSettings::serving())));
    let rt = runtime();
    let started = Instant::now();
    rt.block_on(async {
        let mut tasks = Vec::new();
        for _ in 0..callers {
            let handle = handle.clone();
            let inside = inside.clone();
            let most = most.clone();
            tasks.push(tokio::task::spawn_blocking(move || {
                let mut guard = handle.lock().unwrap();
                serve(
                    &mut guard,
                    String::from("hello"),
                    |_s: &EngineSettings| Ok(Shouter { serial: 0 }),
                    |e: &Shouter, batch: Vec<String>| {
                        let now = inside.fetch_add(1, Ordering::SeqCst) + 1;
                        most.fetch_max(now, Ordering::SeqCst);
                        Handle::current().block_on(tokio::time::sleep(pause));
                        inside.fetch_sub(1, Ordering::SeqCst);
                        shout(e, batch)
                    },
                )
            }));
        }
        for task in tasks {
            assert!(matches!(settle(task.await), Served::Answered(Ok(_))));
        }
    });
    assert_eq!(most.load(Ordering::SeqCst), 1);
    assert!(started.elapsed() >= pause * callers);
}

#[test]
fn second_request_waits_for_the_first_and_both_are_served() {
    let log: Arc<Mutex<Vec<String>>> = Arc::new(Mutex::new(Vec::new()));
    let handle: Arc<Mutex<ModelHandle<Shouter>>> =
        Arc::new(Mutex::new(ModelHandle::new(EngineSettings::serving())));
    let rt = runtime();
    let replies = rt.block_on(async {
        let mut tasks = Vec::new();
        for body in ["first body", "second body"] {
            let handle = handle.clone();
            let log = log.clone();
            tasks.push(tokio::task::spawn_blocking(move || {
                let mut guard = handle.lock().unwrap();
                serve(
                    &mut guard,
                    String::from(body),
                    |_s: &EngineSettings| Ok(Shouter { serial: 0 }),
                    |e: &Shouter, batch: Vec<String>| {
                        log.lock().unwrap().push(format!("begin {}", batch[0]));
                        Handle::current().block_on(tokio::time::sleep(Duration::from_millis(20)));
                        log.lock().unwrap().push(format!("end {}", batch[0]));
                        shout(e, batch)
                    },
                )
            }));
        }
        let mut replies = Vec::new();
        for task in tasks {
            match settle(task.await) {
                Served::Answered(outcome) => replies.push(respond(outcome)),
                Served::Fatal(detail) => panic!("unexpected fatal: {}", detail),
            }
        }
        replies
    });
    assert_eq!(replies[0].status, 200);
    assert_eq!(replies[1].status, 200);
    assert_eq!(replies[0].body, "0:FIRST BODY");
    assert_eq!(replies[1].body, "0:SECOND BODY");
    assert_ne!(replies[0].body, replies[1].body);
    let log = log.lock().unwrap();
    assert_eq!(log.len(), 4);
    assert!(log[0].starts_with("begin "));
    assert_eq!(log[1], log[0].replacen("begin", "end", 1));
    assert!(log[2].starts_with("begin "));
    assert_eq!(log[3], log[2].replacen("begin", "end", 1));
    assert_ne!(log[0], log[2]);
}

#[test]
fn light_request_is_not_held_up_by_inference() {
    let (release, held) = mpsc::channel::<()>();
    let handle: Arc<Mutex<ModelHandle<Shouter>>> =
        Arc::new(Mutex::new(ModelHandle::new(EngineSettings::serving())));
    let rt = runtime();
    rt.block_on(async {
        let (entered_tx, entered_rx) = tokio::sync::oneshot::channel::<()>();
        let inference = tokio::task::spawn_blocking(move || {
            let mut guard = handle.lock().unwrap();
            serve(
                &mut guard,
                String::from("slow"),
                |_s: &EngineSettings| Ok(Shouter { serial: 0 }),
                move |e: &Shouter, batch: Vec<String>| {
                    entered_tx.send(()).unwrap();
                    held.recv().unwrap();
                    shout(e, batch)
                },
            )
        });
        entered_rx.await.unwrap();
        let light = tokio::spawn(async { summary_server::reply::help() });
        let page = light.await.unwrap();
        assert_eq!(page.status, 200);
        assert!(!inference.is_finished());
        release.send(()).unwrap();
        match settle(inference.await) {
            Served::Answered(Ok(summary)) => assert_eq!(summary, "0:SLOW"),
            other => panic!("unexpected: {:?}", other),
        }
    });
}

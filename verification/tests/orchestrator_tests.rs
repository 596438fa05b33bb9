use netstrat::orchestrator::{
    FetchError, FetchEvent, FetchRequest, LoadOrchestrator, LoadOutcome, PollStep,
};
use netstrat::scheduler::{LoadError, SamplingInterval, TimeWindow};

const MINUTE: i64 = 60_000;

fn pending_progress(step: &PollStep<u64>) -> (usize, usize) {
    match &step.outcome {
        LoadOutcome::Pending(p) => (p.pages_received, p.pages_total),
        other => panic!("expected a pending outcome, got {:?}", other),
    }
}

fn request_of(step: &PollStep<u64>) -> FetchRequest {
    step.request.expect("expected a fetch request")
}

#[test]
fn untriggered_orchestrator_reports_nothing() {
    let mut o: LoadOrchestrator<u64> = LoadOrchestrator::new();
    let step = o.poll(FetchEvent::NotReady);
    assert_eq!(pending_progress(&step), (0, 0));
    assert!(step.request.is_none());
}

#[test]
fn invalid_trigger_keeps_the_previous_load() {
    let mut o: LoadOrchestrator<u64> = LoadOrchestrator::new();
    let w = TimeWindow { start: 0, end: 150 * MINUTE };
    o.trigger(w, SamplingInterval::Minute, 100).expect("valid trigger");
    let first = o.poll(FetchEvent::NotReady);
    assert_eq!(pending_progress(&first), (0, 2));
    let req = request_of(&first);

    // A window with start == end is rejected; the running load survives.
    let bad = TimeWindow { start: 7, end: 7 };
    let r = o.trigger(bad, SamplingInterval::Minute, 100);
    assert_eq!(r, Err(LoadError::InvalidWindow));

    let again = o.poll(FetchEvent::NotReady);
    assert_eq!(pending_progress(&again), (0, 2));
    assert!(again.request.is_none());

    // The old fetch still completes under its old generation and counts.
    let step = o.poll(FetchEvent::Succeeded {
        generation: req.generation,
        samples: vec![1, 2, 3],
    });
    assert_eq!(pending_progress(&step), (1, 2));
}

#[test]
fn two_page_load_completes_in_order() {
    // A window of 2h30m at one sample per minute needs 150 samples: two
    // pages of 100 and 50.
    let mut o: LoadOrchestrator<u64> = LoadOrchestrator::new();
    let start = 1_000_000;
    let w = TimeWindow { start, end: start + 150 * MINUTE };
    o.trigger(w, SamplingInterval::Minute, 100).expect("valid trigger");

    let step0 = o.poll(FetchEvent::NotReady);
    assert_eq!(pending_progress(&step0), (0, 2));
    let req0 = request_of(&step0);
    assert_eq!(req0.start, start);
    assert_eq!(req0.limit, 100);

    // Polling again with nothing ready changes nothing.
    let idle1 = o.poll(FetchEvent::NotReady);
    assert_eq!(pending_progress(&idle1), (0, 2));
    assert!(idle1.request.is_none());
    let idle2 = o.poll(FetchEvent::NotReady);
    assert_eq!(pending_progress(&idle2), (0, 2));
    assert!(idle2.request.is_none());

    let page0: Vec<u64> = (0..100).collect();
    let step1 = o.poll(FetchEvent::Succeeded { generation: req0.generation, samples: page0 });
    assert_eq!(pending_progress(&step1), (1, 2));
    let req1 = request_of(&step1);
    assert_eq!(req1.start, start + 100 * MINUTE);
    assert_eq!(req1.limit, 50);

    let page1: Vec<u64> = (100..150).collect();
    let step2 = o.poll(FetchEvent::Succeeded { generation: req1.generation, samples: page1 });
    assert!(step2.request.is_none());
    match step2.outcome {
        LoadOutcome::Complete(buf) => {
            let expected: Vec<u64> = (0..150).collect();
            assert_eq!(buf, expected);
        }
        other => panic!("expected completion, got {:?}", other),
    }

    // Completion is idempotent until the next trigger.
    let step3 = o.poll(FetchEvent::NotReady);
    assert!(step3.request.is_none());
    match step3.outcome {
        LoadOutcome::Complete(buf) => assert_eq!(buf.len(), 150),
        other => panic!("expected completion, got {:?}", other),
    }
}

#[test]
fn single_page_progress_jumps_to_complete() {
    let mut o: LoadOrchestrator<u64> = LoadOrchestrator::new();
    let w = TimeWindow { start: 0, end: 100 * MINUTE };
    o.trigger(w, SamplingInterval::Minute, 100).expect("valid trigger");
    let step0 = o.poll(FetchEvent::NotReady);
    assert_eq!(pending_progress(&step0), (0, 1));
    let req = request_of(&step0);
    let step1 = o.poll(FetchEvent::Succeeded {
        generation: req.generation,
        samples: (0..100).collect(),
    });
    assert!(matches!(step1.outcome, LoadOutcome::Complete(_)));
}

#[test]
fn page_failure_is_terminal_until_retriggered() {
    let mut o: LoadOrchestrator<u64> = LoadOrchestrator::new();
    let w = TimeWindow { start: 0, end: 100 * MINUTE };
    o.trigger(w, SamplingInterval::Minute, 100).expect("valid trigger");
    let step0 = o.poll(FetchEvent::NotReady);
    let req = request_of(&step0);

    let failure = FetchError { message: String::from("connection reset") };
    let step1 = o.poll(FetchEvent::Failed { generation: req.generation, error: failure });
    assert!(step1.request.is_none());
    match &step1.outcome {
        LoadOutcome::Failed(e) => assert_eq!(e.message, "connection reset"),
        other => panic!("expected a failure, got {:?}", other),
    }

    // The same failure is reported on every later poll; nothing is retried.
    for _ in 0..3 {
        let step = o.poll(FetchEvent::NotReady);
        assert!(step.request.is_none());
        match &step.outcome {
            LoadOutcome::Failed(e) => assert_eq!(e.message, "connection reset"),
            other => panic!("expected a failure, got {:?}", other),
        }
    }

    // A fresh trigger starts over.
    o.trigger(w, SamplingInterval::Minute, 100).expect("valid trigger");
    let step = o.poll(FetchEvent::NotReady);
    assert_eq!(pending_progress(&step), (0, 1));
    assert!(step.request.is_some());
}

#[test]
fn stale_results_are_ignored() {
    let mut o: LoadOrchestrator<u64> = LoadOrchestrator::new();
    let w1 = TimeWindow { start: 0, end: 100 * MINUTE };
    o.trigger(w1, SamplingInterval::Minute, 100).expect("valid trigger");
    let old_req = request_of(&o.poll(FetchEvent::NotReady));

    // A new load supersedes the old one while its fetch is still out.
    let w2 = TimeWindow { start: 0, end: 50 * MINUTE };
    o.trigger(w2, SamplingInterval::Minute, 100).expect("valid trigger");
    let new_req = request_of(&o.poll(FetchEvent::NotReady));
    assert_ne!(old_req.generation, new_req.generation);

    // The old load's result arrives: it no longer counts.
    let stale = o.poll(FetchEvent::Succeeded {
        generation: old_req.generation,
        samples: (0..100).collect(),
    });
    assert_eq!(pending_progress(&stale), (0, 1));
    assert!(stale.request.is_none());

    // The current load's result still completes it, with only its samples.
    let step = o.poll(FetchEvent::Succeeded {
        generation: new_req.generation,
        samples: (500..550).collect(),
    });
    match step.outcome {
        LoadOutcome::Complete(buf) => {
            let expected: Vec<u64> = (500..550).collect();
            assert_eq!(buf, expected);
        }
        other => panic!("expected completion, got {:?}", other),
    }
}

#[test]
fn failed_fetch_of_a_stale_generation_is_ignored() {
    let mut o: LoadOrchestrator<u64> = LoadOrchestrator::new();
    let w = TimeWindow { start: 0, end: 100 * MINUTE };
    o.trigger(w, SamplingInterval::Minute, 100).expect("valid trigger");
    let req = request_of(&o.poll(FetchEvent::NotReady));
    let stale = o.poll(FetchEvent::Failed {
        generation: req.generation + 1,
        error: FetchError { message: String::from("late") },
    });
    assert_eq!(pending_progress(&stale), (0, 1));
    assert!(stale.request.is_none());
}

use cfg_adapter::apply_cfg_factory;
use cfg_adapter::AdapterError;
use cfg_adapter::Event;
use cfg_adapter::PollOutcome;
use cfg_adapter::SharedState;

#[test]
fn successful_construction_yields_final_service() {
    let mut shared: SharedState<String> = SharedState::new();
    let factory = apply_cfg_factory(&mut shared, String::from("factory+transform"));
    let mut response = factory.new_service::<u32, &str>(42);

    let out = response.poll::<String, &str, &str, &str, &str>(&mut shared, Event::InnerPending);
    assert_eq!(out, PollOutcome::Pending);
    assert!(!response.is_terminal());

    let out =
        response.poll::<String, &str, &str, &str, &str>(&mut shared, Event::InnerBuilt("inner"));
    assert_eq!(out, PollOutcome::Progressed);

    let out =
        response.poll::<String, &str, &str, &str, &str>(&mut shared, Event::ReadinessPending);
    assert_eq!(out, PollOutcome::Pending);

    let out = response.poll::<String, &str, &str, &str, &str>(&mut shared, Event::ReadinessOk);
    assert_eq!(
        out,
        PollOutcome::InvokeTransform {
            cfg: 42,
            service: "inner",
            shared: String::from("factory+transform"),
        }
    );
    assert!(response.awaits_transform_start());
    assert!(!shared.is_occupied(0));

    response.transform_started(&mut shared, String::from("factory+transform"));
    assert!(shared.is_occupied(0));

    let out =
        response.poll::<String, &str, &str, &str, &str>(&mut shared, Event::TransformPending);
    assert_eq!(out, PollOutcome::Pending);

    let out = response
        .poll::<String, &str, &str, &str, &str>(&mut shared, Event::TransformDone(Ok("final")));
    assert_eq!(out, PollOutcome::Ready(Ok("final")));
    assert!(response.is_terminal());
}

#[test]
fn transform_invoked_exactly_once_on_success() {
    let mut shared: SharedState<String> = SharedState::new();
    let factory = apply_cfg_factory(&mut shared, String::from("pair"));
    let mut response = factory.new_service::<u32, &str>(1);

    let mut invocations: usize = 0;
    let events = [
        Event::InnerPending,
        Event::InnerBuilt("inner"),
        Event::ReadinessPending,
        Event::ReadinessOk,
    ];
    for event in events {
        let out = response.poll::<String, &str, &str, &str, &str>(&mut shared, event);
        if let PollOutcome::InvokeTransform { .. } = out {
            invocations += 1;
            response.transform_started(&mut shared, String::from("pair"));
        }
    }
    let out = response
        .poll::<String, &str, &str, &str, &str>(&mut shared, Event::TransformDone(Ok("done")));
    assert_eq!(out, PollOutcome::Ready(Ok("done")));
    assert!(response.is_terminal());
    assert_eq!(invocations, 1);
}

#[test]
fn construction_failure_converts_error_and_skips_transform() {
    let mut shared: SharedState<String> = SharedState::new();
    let factory = apply_cfg_factory(&mut shared, String::from("pair"));
    let mut response = factory.new_service::<u32, &str>(7);

    let out = response.poll::<String, &str, &str, &str, &str>(&mut shared, Event::InnerPending);
    assert_eq!(out, PollOutcome::Pending);

    let out = response
        .poll::<String, &str, &str, &str, &str>(&mut shared, Event::InnerFailed("bind refused"));
    assert_eq!(
        out,
        PollOutcome::Ready(Err(AdapterError::Construction("bind refused")))
    );
    assert!(response.is_terminal());
    // the transform was never handed the shared pair: the slot is untouched
    assert!(shared.is_occupied(0));
}

#[test]
fn readiness_failure_converts_error_and_skips_transform() {
    let mut shared: SharedState<String> = SharedState::new();
    let factory = apply_cfg_factory(&mut shared, String::from("pair"));
    let mut response = factory.new_service::<u32, &str>(7);

    let out =
        response.poll::<String, &str, &str, &str, &str>(&mut shared, Event::InnerBuilt("inner"));
    assert_eq!(out, PollOutcome::Progressed);

    let out = response
        .poll::<String, &str, &str, &str, &str>(&mut shared, Event::ReadinessFailed("hung up"));
    assert_eq!(out, PollOutcome::Ready(Err(AdapterError::Readiness("hung up"))));
    assert!(response.is_terminal());
    assert!(shared.is_occupied(0));
}

#[test]
fn transform_failure_flows_through_unchanged() {
    let mut shared: SharedState<String> = SharedState::new();
    let factory = apply_cfg_factory(&mut shared, String::from("pair"));
    let mut response = factory.new_service::<u32, &str>(7);

    response.poll::<String, &str, &str, &str, &str>(&mut shared, Event::InnerBuilt("inner"));
    response.poll::<String, &str, &str, &str, &str>(&mut shared, Event::ReadinessOk);
    response.transform_started(&mut shared, String::from("pair"));

    let out = response.poll::<String, &str, &str, &str, &str>(
        &mut shared,
        Event::TransformDone(Err(AdapterError::Transform("no credentials"))),
    );
    assert_eq!(
        out,
        PollOutcome::Ready(Err(AdapterError::Transform("no credentials")))
    );
    assert!(response.is_terminal());
}

#[test]
fn unready_service_never_resolves() {
    let mut shared: SharedState<String> = SharedState::new();
    let factory = apply_cfg_factory(&mut shared, String::from("pair"));
    let mut response = factory.new_service::<u32, &str>(7);

    let out =
        response.poll::<String, &str, &str, &str, &str>(&mut shared, Event::InnerBuilt("inner"));
    assert_eq!(out, PollOutcome::Progressed);

    for _ in 0..64 {
        let out =
            response.poll::<String, &str, &str, &str, &str>(&mut shared, Event::ReadinessPending);
        assert_eq!(out, PollOutcome::Pending);
        assert!(!response.is_terminal());
    }
    // dropping the unresolved construction is the caller's only way out,
    // and it needs no cleanup: the shared pair is still in its slot
    drop(response);
    assert!(shared.is_occupied(0));
}

#[test]
fn dropping_midway_leaves_no_side_effects() {
    let mut shared: SharedState<String> = SharedState::new();
    let factory = apply_cfg_factory(&mut shared, String::from("pair"));
    let mut response = factory.new_service::<u32, &str>(7);
    response.poll::<String, &str, &str, &str, &str>(&mut shared, Event::InnerBuilt("inner"));
    drop(response);

    // the partially built inner service is simply discarded; the shared
    // pair is untouched and a later construction runs as a first one would
    assert!(shared.is_occupied(0));
    let mut response = factory.new_service::<u32, &str>(8);
    response.poll::<String, &str, &str, &str, &str>(&mut shared, Event::InnerBuilt("again"));
    let out = response.poll::<String, &str, &str, &str, &str>(&mut shared, Event::ReadinessOk);
    assert_eq!(
        out,
        PollOutcome::InvokeTransform {
            cfg: 8,
            service: "again",
            shared: String::from("pair"),
        }
    );
}

#[test]
fn completed_construction_does_not_influence_the_next() {
    let mut shared: SharedState<String> = SharedState::new();
    let factory = apply_cfg_factory(&mut shared, String::from("pair"));

    let mut first = factory.new_service::<u32, &str>(1);
    first.poll::<String, &str, &str, &str, &str>(&mut shared, Event::InnerBuilt("inner"));
    let out = first.poll::<String, &str, &str, &str, &str>(&mut shared, Event::ReadinessOk);
    assert_eq!(
        out,
        PollOutcome::InvokeTransform {
            cfg: 1,
            service: "inner",
            shared: String::from("pair"),
        }
    );
    // the driver's transform mutates the shared pair before handing it back
    first.transform_started(&mut shared, String::from("pair, used once"));
    let out = first
        .poll::<String, &str, &str, &str, &str>(&mut shared, Event::TransformDone(Ok("first")));
    assert_eq!(out, PollOutcome::Ready(Ok("first")));

    // the second construction proceeds exactly as the first did, apart from
    // the explicitly shared pair's new value
    let mut second = factory.new_service::<u32, &str>(2);
    second.poll::<String, &str, &str, &str, &str>(&mut shared, Event::InnerBuilt("inner"));
    let out = second.poll::<String, &str, &str, &str, &str>(&mut shared, Event::ReadinessOk);
    assert_eq!(
        out,
        PollOutcome::InvokeTransform {
            cfg: 2,
            service: "inner",
            shared: String::from("pair, used once"),
        }
    );
    second.transform_started(&mut shared, String::from("pair, used once"));
    let out = second
        .poll::<String, &str, &str, &str, &str>(&mut shared, Event::TransformDone(Ok("first")));
    assert_eq!(out, PollOutcome::Ready(Ok("first")));
}

#[test]
fn conflicting_access_fails_fast_and_corrupts_nothing() {
    let mut shared: SharedState<String> = SharedState::new();
    let factory = apply_cfg_factory(&mut shared, String::from("pair"));

    let mut holder = factory.new_service::<u32, &str>(1);
    holder.poll::<String, &str, &str, &str, &str>(&mut shared, Event::InnerBuilt("inner"));
    let out = holder.poll::<String, &str, &str, &str, &str>(&mut shared, Event::ReadinessOk);
    assert!(matches!(out, PollOutcome::InvokeTransform { .. }));
    assert!(!shared.is_occupied(0));

    // a second construction on a clone of the factory reaches readiness
    // while the first holds the pair: a detectable fault, nothing corrupted
    let duplicate = factory.clone();
    let mut intruder = duplicate.new_service::<u32, &str>(2);
    intruder.poll::<String, &str, &str, &str, &str>(&mut shared, Event::InnerBuilt("other"));
    let out = intruder.poll::<String, &str, &str, &str, &str>(&mut shared, Event::ReadinessOk);
    assert_eq!(out, PollOutcome::SharedAccessFault);
    assert!(intruder.is_terminal());
    assert!(!shared.is_occupied(0));

    // the first construction completes; the pair it hands back is intact
    holder.transform_started(&mut shared, String::from("pair"));
    assert!(shared.is_occupied(0));
    let out = holder
        .poll::<String, &str, &str, &str, &str>(&mut shared, Event::TransformDone(Ok("done")));
    assert_eq!(out, PollOutcome::Ready(Ok("done")));

    // a fresh construction is handed exactly the pair the first returned
    let mut after = factory.new_service::<u32, &str>(3);
    after.poll::<String, &str, &str, &str, &str>(&mut shared, Event::InnerBuilt("inner"));
    let out = after.poll::<String, &str, &str, &str, &str>(&mut shared, Event::ReadinessOk);
    assert_eq!(
        out,
        PollOutcome::InvokeTransform {
            cfg: 3,
            service: "inner",
            shared: String::from("pair"),
        }
    );
}

use jobserver_core::{
    native_name, pool_name, serve_request, Client, Creation, OriginStep, Originator, PoolError,
    Released, MAX_CAPACITY, NAME_ATTEMPTS, POOL_NAME_PREFIX, WAIT_ABANDONED, WAIT_FAILED,
    WAIT_OBJECT_0, WAIT_OBJECT_1, WAIT_TIMEOUT,
};

#[test]
fn pool_name_is_prefix_then_decimal() {
    assert_eq!(pool_name(0), "__rust_jobserver_semaphore_0");
    assert_eq!(pool_name(7), "__rust_jobserver_semaphore_7");
    assert_eq!(pool_name(1234), "__rust_jobserver_semaphore_1234");
    assert_eq!(pool_name(u32::MAX), "__rust_jobserver_semaphore_4294967295");
}

#[test]
fn native_name_is_nul_terminated() {
    assert_eq!(native_name("pool").unwrap(), "pool\0");
    assert_eq!(native_name("é").unwrap(), "é\0");
}

#[test]
fn empty_identity_is_malformed() {
    match native_name("") {
        Err(PoolError::MalformedIdentity(t)) => assert_eq!(t, ""),
        other => panic!("unexpected {:?}", other),
    }
}

#[test]
fn identity_with_nul_is_malformed() {
    match native_name("ab\0cd") {
        Err(PoolError::MalformedIdentity(t)) => assert_eq!(t, "ab\0cd"),
        other => panic!("unexpected {:?}", other),
    }
    assert!(matches!(native_name("\0"), Err(PoolError::MalformedIdentity(_))));
}

#[test]
fn attach_round_trip_keeps_identity() {
    let name = pool_name(42);
    assert!(native_name(&name).is_ok());
    let client = Client::opened(&name, None).unwrap();
    assert_eq!(client.string_arg(), "__rust_jobserver_semaphore_42");
}

#[test]
fn failed_open_reports_identity_and_code() {
    match Client::opened("missing", Some(2)) {
        Err(PoolError::AttachFailed(t, code)) => {
            assert_eq!(t, "missing");
            assert_eq!(code, 2);
        }
        other => panic!("unexpected {:?}", other),
    }
}

#[test]
fn acquire_outcomes() {
    assert!(Client::acquire_result(WAIT_OBJECT_0, 0).is_ok());
    assert!(matches!(Client::acquire_result(WAIT_FAILED, 6), Err(PoolError::WaitFailed(6))));
    assert!(matches!(Client::acquire_result(WAIT_ABANDONED, 6), Err(PoolError::WaitFailed(6))));
}

#[test]
fn try_acquire_outcomes() {
    assert!(matches!(Client::try_acquire_result(WAIT_OBJECT_0, 0), Ok(Some(_))));
    assert!(matches!(Client::try_acquire_result(WAIT_TIMEOUT, 0), Ok(None)));
    assert!(matches!(Client::try_acquire_result(WAIT_FAILED, 5), Err(PoolError::WaitFailed(5))));
    assert!(matches!(
        Client::try_acquire_result(WAIT_ABANDONED, 0),
        Err(PoolError::UnexpectedWaitState(128))
    ));
    assert!(matches!(
        Client::try_acquire_result(77, 0),
        Err(PoolError::UnexpectedWaitState(77))
    ));
}

#[test]
fn release_outcomes() {
    assert!(Client::release_result(true, 0).is_ok());
    assert!(matches!(Client::release_result(false, 298), Err(PoolError::ReleaseFailed(298))));
}

#[test]
fn probe_on_empty_pool_reports_zero() {
    assert_eq!(Client::available_result(WAIT_TIMEOUT, None).unwrap(), 0);
    assert_eq!(Client::available_result(WAIT_FAILED, None).unwrap(), 0);
}

#[test]
fn probe_reports_count_before_release_plus_one() {
    let r = Client::available_result(WAIT_OBJECT_0, Some(Released::Done { previous: 0 }));
    assert_eq!(r.unwrap(), 1);
    let r = Client::available_result(WAIT_OBJECT_0, Some(Released::Done { previous: 3 }));
    assert_eq!(r.unwrap(), 4);
    let r = Client::available_result(WAIT_OBJECT_0, Some(Released::Done { previous: i32::MAX }));
    assert_eq!(r.unwrap(), 2147483648);
}

#[test]
fn probe_release_failure_is_reported() {
    let r = Client::available_result(WAIT_OBJECT_0, Some(Released::Failed { code: 298 }));
    assert!(matches!(r, Err(PoolError::ReleaseFailed(298))));
    let r = Client::available_result(WAIT_OBJECT_0, Some(Released::Done { previous: -1 }));
    assert!(matches!(r, Err(PoolError::UnexpectedCount(-1))));
}

fn expect_create(step: OriginStep) -> (String, i32) {
    match step {
        OriginStep::Create { name, count } => (name, count),
        OriginStep::Finish { .. } => panic!("finished early"),
        OriginStep::Fail(e) => panic!("failed: {:?}", e),
    }
}

#[test]
fn origination_draws_a_generated_name() {
    let mut o = Originator::new(4);
    let (name, count) = expect_create(o.next());
    assert_eq!(count, 4);
    assert!(name.starts_with(POOL_NAME_PREFIX));
    assert!(name.ends_with('\0'));
    let digits = &name[POOL_NAME_PREFIX.len()..name.len() - 1];
    assert!(digits.parse::<u32>().is_ok());
    match o.on_created(Creation::Created) {
        OriginStep::Finish { client, reserve } => {
            assert!(!reserve);
            assert_eq!(format!("{}\0", client.string_arg()), name);
        }
        _ => panic!("expected finish"),
    }
}

#[test]
fn zero_capacity_creates_one_token_and_reserves_it() {
    let mut o = Originator::new(0);
    let (_, count) = expect_create(o.next());
    assert_eq!(count, 1);
    match o.on_created(Creation::Created) {
        OriginStep::Finish { reserve, .. } => assert!(reserve),
        _ => panic!("expected finish"),
    }
}

#[test]
fn largest_capacity_is_kept() {
    let mut o = Originator::new(MAX_CAPACITY);
    let (_, count) = expect_create(o.next());
    assert_eq!(count, i32::MAX);
}

#[test]
fn name_collisions_are_retried_until_exhausted() {
    let mut o = Originator::new(2);
    let mut step = o.next();
    let mut creates: u32 = 0;
    loop {
        match step {
            OriginStep::Create { count, .. } => {
                assert_eq!(count, 2);
                creates += 1;
                step = o.on_created(Creation::AlreadyExists);
            }
            OriginStep::Fail(PoolError::NameSpaceExhausted) => break,
            _ => panic!("unexpected step"),
        }
    }
    assert_eq!(creates, NAME_ATTEMPTS);
}

#[test]
fn other_creation_failure_is_fatal() {
    let mut o = Originator::new(1);
    expect_create(o.next());
    assert!(matches!(o.on_created(Creation::Failed(5)), OriginStep::Fail(PoolError::CreateFailed(5))));
}

#[test]
fn helper_abandons_cancelled_request() {
    assert!(serve_request(WAIT_OBJECT_0, 0).is_none());
}

#[test]
fn helper_delivers_one_token() {
    assert!(matches!(serve_request(WAIT_OBJECT_1, 0), Some(Ok(_))));
}

#[test]
fn helper_delivers_wait_failure() {
    assert!(matches!(serve_request(WAIT_FAILED, 6), Some(Err(PoolError::WaitFailed(6)))));
    assert!(matches!(serve_request(WAIT_TIMEOUT, 6), Some(Err(PoolError::WaitFailed(6)))));
}

#[test]
fn probe_gives_back_only_a_taken_token() {
    assert!(Client::probe_took_token(WAIT_OBJECT_0));
    assert!(!Client::probe_took_token(WAIT_TIMEOUT));
    assert!(!Client::probe_took_token(WAIT_FAILED));
}

#[test]
fn drawn_value_names_the_candidate() {
    let mut o = Originator::new(3);
    let (name, count) = expect_create(o.on_drawn(Ok(1234)));
    assert_eq!(name, "__rust_jobserver_semaphore_1234\0");
    assert_eq!(count, 3);
    match o.on_created(Creation::Created) {
        OriginStep::Finish { client, reserve } => {
            assert_eq!(client.string_arg(), "__rust_jobserver_semaphore_1234");
            assert!(!reserve);
        }
        _ => panic!("expected finish"),
    }
}

#[test]
fn failed_draw_ends_origination() {
    let mut o = Originator::new(3);
    assert!(matches!(o.on_drawn(Err(Some(5))), OriginStep::Fail(PoolError::RandomFailed(Some(5)))));
    let mut o = Originator::new(3);
    assert!(matches!(o.on_drawn(Err(None)), OriginStep::Fail(PoolError::RandomFailed(None))));
}

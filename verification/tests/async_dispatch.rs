use tower_fallthrough_filter::async_feature::AsyncFilterLayer;
use tower_fallthrough_filter::futures::{BoolFuture, SelectServiceAndCallFut};
use tower_fallthrough_filter::service::Readiness;
use tower_fallthrough_filter::test_util::{
    BusyService, DelayedFilter, EchoService, SlowService, TestFilter, TestService,
};

#[test]
fn async_feature_should_allow() {
    let service_a = TestService::<(), &'static str>::new("a");
    let service_b = TestService::<(), &'static str>::new("b");

    let filter = TestFilter(true);
    let filter_layer = AsyncFilterLayer::new(filter, service_a);

    let mut middleware = filter_layer.layer(service_b);

    let mut fut = middleware.call(());
    assert_eq!(fut.poll(), Some(Ok("a")));
}

#[test]
fn async_feature_should_fall_through() {
    let service_a = TestService::<(), &'static str>::new("a");
    let service_b = TestService::<(), &'static str>::new("b");

    let filter = TestFilter(false);
    let filter_layer = AsyncFilterLayer::new(filter, service_a);

    let mut middleware = filter_layer.layer(service_b);

    let mut fut = middleware.call(());
    assert_eq!(fut.poll(), Some(Ok("b")));
}

#[test]
fn should_select_first() {
    let first = TestService::<&'static str, &'static str>::new("first");
    let second = TestService::<&'static str, &'static str>::new("second");

    let mut fut = SelectServiceAndCallFut::new(BoolFuture::ready(true), "value", first, second);

    let res = fut.poll().unwrap().unwrap();

    assert_eq!(res, "first");
}

#[test]
fn should_select_second() {
    let first = TestService::<&'static str, &'static str>::new("first");
    let second = TestService::<&'static str, &'static str>::new("second");

    let mut fut = SelectServiceAndCallFut::new(BoolFuture::ready(false), "value", first, second);

    let res = fut.poll().unwrap().unwrap();

    assert_eq!(res, "second");
}

#[test]
fn predicate_delay_suspends_dispatch_exactly_that_often() {
    let service_a = TestService::<(), &'static str>::new("a");
    let service_b = TestService::<(), &'static str>::new("b");

    let filter = DelayedFilter(true, 2);
    let mut middleware = AsyncFilterLayer::new(filter, service_a).layer(service_b);

    let mut fut = middleware.call(());
    assert_eq!(fut.poll(), None);
    assert_eq!(fut.poll(), None);
    assert_eq!(fut.poll(), Some(Ok("a")));
}

#[test]
fn delayed_fall_through_returns_secondary() {
    let service_a = TestService::<(), &'static str>::new("a");
    let service_b = TestService::<(), &'static str>::new("b");

    let filter = DelayedFilter(false, 3);
    let mut middleware = AsyncFilterLayer::new(filter, service_a).layer(service_b);

    let mut fut = middleware.call(());
    assert_eq!(fut.poll(), None);
    assert_eq!(fut.poll(), None);
    assert_eq!(fut.poll(), None);
    assert_eq!(fut.poll(), Some(Ok("b")));
}

#[test]
fn slow_handler_keeps_suspending_after_selection() {
    let first = SlowService::<&'static str, &'static str>::new("first", 2);
    let second = TestService::<&'static str, &'static str>::new("second");

    let mut fut = SelectServiceAndCallFut::new(BoolFuture::new(1, true), "value", first, second);

    // one suspension of the predicate, then two of the chosen handler
    assert_eq!(fut.poll(), None);
    assert_eq!(fut.poll(), None);
    assert_eq!(fut.poll(), None);
    assert_eq!(fut.poll(), Some(Ok("first")));
}

#[test]
fn request_survives_predicate_suspension_intact() {
    let first = EchoService::<u64>::new();
    let second = EchoService::<u64>::new();

    let mut fut = SelectServiceAndCallFut::new(BoolFuture::new(2, false), 41, first, second);
    assert_eq!(fut.poll(), None);
    assert_eq!(fut.poll(), None);
    assert_eq!(fut.poll(), Some(Ok(41)));
}

#[test]
fn async_dispatcher_readiness_is_conjunction() {
    let service_a = TestService::<(), &'static str>::new("a");
    let service_b = BusyService::<(), &'static str>::new("b");
    let mut middleware = AsyncFilterLayer::new(TestFilter(true), service_a).layer(service_b);
    assert!(matches!(middleware.poll_ready(), Readiness::Pending));

    let service_a = TestService::<(), &'static str>::new("a");
    let service_b = TestService::<(), &'static str>::new("b");
    let mut middleware = AsyncFilterLayer::new(TestFilter(true), service_a).layer(service_b);
    assert!(matches!(middleware.poll_ready(), Readiness::Ready));
}

#[test]
fn async_dispatchers_are_duplicable() {
    let service_a = TestService::<(), &'static str>::new("a");
    let service_b = TestService::<(), &'static str>::new("b");
    let middleware = AsyncFilterLayer::new(TestFilter(true), service_a).layer(service_b);

    let mut copy = middleware.duplicate();
    let mut fut = copy.call(());
    assert_eq!(fut.poll(), Some(Ok("a")));
}

#[test]
fn bool_future_counts_down_to_its_verdict() {
    let mut fut = BoolFuture::new(2, true);
    assert_eq!(fut.poll(), None);
    assert_eq!(fut.poll(), None);
    assert_eq!(fut.poll(), Some(true));

    let mut fut = BoolFuture::ready(false);
    assert_eq!(fut.poll(), Some(false));
}

use tower_fallthrough_filter::futures::ResultFuture;
use tower_fallthrough_filter::service::{Readiness, Service};
use tower_fallthrough_filter::test_util::{
    contains_substr, BusyService, EchoService, FailingService, SubstringFilter, TestFilter,
    TestService,
};
use tower_fallthrough_filter::FilterLayer;

#[test]
fn lib_should_allow() {
    let service_a = TestService::<(), &'static str>::new("a");
    let service_b = TestService::<(), &'static str>::new("b");

    let filter = TestFilter(true);
    let filter_layer = FilterLayer::new(filter, service_a);

    let mut middleware = filter_layer.layer(service_b);

    let mut fut = middleware.call(());
    assert_eq!(fut.poll(), Some(Ok("a")));
}

#[test]
fn lib_should_fall_through() {
    let service_a = TestService::<(), &'static str>::new("a");
    let service_b = TestService::<(), &'static str>::new("b");

    let filter = TestFilter(false);
    let filter_layer = FilterLayer::new(filter, service_a);

    let mut middleware = filter_layer.layer(service_b);

    let mut fut = middleware.call(());
    assert_eq!(fut.poll(), Some(Ok("b")));
}

#[test]
fn simple_should_allow() {
    let service_a = TestService::<String, &'static str>::new("a");
    let service_b = TestService::<String, &'static str>::new("b");

    let filter = TestFilter(true);
    let filter_layer = FilterLayer::new(filter, service_a);

    let mut middleware = filter_layer.layer(service_b);

    let mut fut = middleware.call(String::from("/test"));
    assert_eq!(fut.poll(), Some(Ok("a")));
}

#[test]
fn simple_should_fall_through() {
    let service_a = TestService::<String, &'static str>::new("a");
    let service_b = TestService::<String, &'static str>::new("b");

    let filter = TestFilter(false);
    let filter_layer = FilterLayer::new(filter, service_a);

    let mut middleware = filter_layer.layer(service_b);

    let mut fut = middleware.call(String::from("/test"));
    assert_eq!(fut.poll(), Some(Ok("b")));
}

#[test]
fn should_dynamically_filter() {
    let service_a = TestService::<String, &'static str>::new("a");
    let service_b = TestService::<String, &'static str>::new("b");

    let filter = SubstringFilter::new(String::from("filter"));
    let filter_layer = FilterLayer::new(filter, service_a);

    let mut middleware = filter_layer.layer(service_b);

    let mut fut = middleware.call(String::from("/test"));
    assert_eq!(fut.poll(), Some(Ok("b")));

    let mut fut = middleware.call(String::from("/filter"));
    assert_eq!(fut.poll(), Some(Ok("a")));

    let mut fut = middleware.call(String::from("/123-filter-asdf"));
    assert_eq!(fut.poll(), Some(Ok("a")));
}

#[test]
fn failure_propagates_verbatim_from_primary() {
    let service_a = FailingService::<(), &'static str>::new("boom");
    let service_b = TestService::<(), &'static str>::new("b");

    let mut middleware = FilterLayer::new(TestFilter(true), service_a).layer(service_b);

    let mut fut = middleware.call(());
    assert_eq!(fut.poll(), Some(Err("boom")));
}

#[test]
fn failure_propagates_verbatim_from_secondary() {
    let service_a = TestService::<(), &'static str>::new("a");
    let service_b = FailingService::<(), &'static str>::new("boom");

    let mut middleware = FilterLayer::new(TestFilter(false), service_a).layer(service_b);

    let mut fut = middleware.call(());
    assert_eq!(fut.poll(), Some(Err("boom")));
}

#[test]
fn ready_only_when_both_handlers_ready() {
    let service_a = TestService::<(), &'static str>::new("a");
    let service_b = TestService::<(), &'static str>::new("b");
    let mut middleware = FilterLayer::new(TestFilter(true), service_a).layer(service_b);
    assert!(matches!(middleware.poll_ready(), Readiness::Ready));
}

#[test]
fn not_ready_while_secondary_is_busy() {
    let service_a = TestService::<(), &'static str>::new("a");
    let service_b = BusyService::<(), &'static str>::new("b");
    let mut middleware = FilterLayer::new(TestFilter(true), service_a).layer(service_b);
    assert!(matches!(middleware.poll_ready(), Readiness::Pending));
}

#[test]
fn not_ready_while_primary_is_busy() {
    let service_a = BusyService::<(), &'static str>::new("a");
    let service_b = TestService::<(), &'static str>::new("b");
    let mut middleware = FilterLayer::new(TestFilter(false), service_a).layer(service_b);
    assert!(matches!(middleware.poll_ready(), Readiness::Pending));
}

#[test]
fn readiness_failure_surfaces() {
    let service_a = TestService::<(), &'static str>::new("a");
    let service_b = FailingService::<(), &'static str>::new("down");
    let mut middleware = FilterLayer::new(TestFilter(true), service_a).layer(service_b);
    assert!(matches!(middleware.poll_ready(), Readiness::Failed("down")));
}

#[test]
fn dispatchers_are_duplicable() {
    let service_a = TestService::<(), &'static str>::new("a");
    let service_b = TestService::<(), &'static str>::new("b");
    let middleware = FilterLayer::new(TestFilter(true), service_a).layer(service_b);

    let mut copy = middleware.duplicate();
    let mut fut = copy.call(());
    assert_eq!(fut.poll(), Some(Ok("a")));
}

#[test]
fn result_future_keeps_its_tag() {
    let service_a = TestService::<(), &'static str>::new("a");
    let service_b = TestService::<(), &'static str>::new("b");
    let mut middleware = FilterLayer::new(TestFilter(true), service_a).layer(service_b);

    let fut = middleware.call(());
    assert!(matches!(fut, ResultFuture::Primary(_)));

    let mut middleware = middleware.duplicate();
    middleware.filter = TestFilter(false);
    let fut = middleware.call(());
    assert!(matches!(fut, ResultFuture::Secondary(_)));
}

#[test]
fn request_reaches_the_chosen_handler_unchanged() {
    let primary = EchoService::<u64>::new();
    let secondary = EchoService::<u64>::new();
    let mut middleware = FilterLayer::new(TestFilter(true), primary).layer(secondary);
    let mut fut = middleware.call(17);
    assert_eq!(fut.poll(), Some(Ok(17)));

    let primary = EchoService::<u64>::new();
    let secondary = EchoService::<u64>::new();
    let mut middleware = FilterLayer::new(TestFilter(false), primary).layer(secondary);
    let mut fut = middleware.call(99);
    assert_eq!(fut.poll(), Some(Ok(99)));
}

#[test]
fn substring_search_agrees_with_contains() {
    for (hay, needle) in [
        ("/test", "filter"),
        ("/filter", "filter"),
        ("/123-filter-asdf", "filter"),
        ("", ""),
        ("abc", ""),
        ("", "a"),
        ("short", "much longer than the text"),
        ("aaab", "aab"),
        ("abcabcd", "abcd"),
    ] {
        assert_eq!(contains_substr(hay, needle), hay.contains(needle));
    }
}

use std::sync::atomic::{AtomicUsize, Ordering};
use std::sync::Arc;
use zeroai::credentials::{CredentialBroker, FfiCredentialResolver};

struct TestResolver {
    call_count: Arc<AtomicUsize>,
}

impl FfiCredentialResolver for TestResolver {
    fn resolve_credential(&self, provider: String) -> String {
        self.call_count.fetch_add(1, Ordering::SeqCst);
        if provider == "openai" {
            "sk-test-key-12345".to_string()
        } else {
            String::new()
        }
    }
}

fn broker_with_resolver() -> (CredentialBroker<TestResolver>, Arc<AtomicUsize>) {
    let count = Arc::new(AtomicUsize::new(0));
    let mut broker = CredentialBroker::new();
    broker.register(TestResolver { call_count: count.clone() });
    (broker, count)
}

#[test]
fn test_callback_resolves_known_provider() {
    let (mut broker, count) = broker_with_resolver();
    let result = broker.resolve("openai");
    assert_eq!(result, Some("sk-test-key-12345".to_string()));
    assert_eq!(count.load(Ordering::SeqCst), 1);
}

#[test]
fn test_returns_none_for_empty_string() {
    let (mut broker, _count) = broker_with_resolver();
    let result = broker.resolve("unknown-provider");
    assert_eq!(result, None);
}

#[test]
fn test_returns_none_with_no_callback() {
    let mut broker: CredentialBroker<TestResolver> = CredentialBroker::new();
    let result = broker.resolve("openai");
    assert_eq!(result, None);
}

#[test]
fn test_cache_prevents_second_callback_call() {
    let (mut broker, count) = broker_with_resolver();
    let r1 = broker.resolve("openai");
    assert_eq!(r1, Some("sk-test-key-12345".to_string()));
    assert_eq!(count.load(Ordering::SeqCst), 1);
    let r2 = broker.resolve("openai");
    assert_eq!(r2, Some("sk-test-key-12345".to_string()));
    assert_eq!(count.load(Ordering::SeqCst), 1);
}

#[test]
fn test_clear_cache_forces_re_resolve() {
    let (mut broker, count) = broker_with_resolver();
    let _ = broker.resolve("openai");
    assert_eq!(count.load(Ordering::SeqCst), 1);
    broker.clear_cache();
    let _ = broker.resolve("openai");
    assert_eq!(count.load(Ordering::SeqCst), 2);
}

#[test]
fn answers_are_trimmed_and_blank_answers_not_cached() {
    let (mut broker, count) = broker_with_resolver();
    assert_eq!(broker.accept_answer("p", "  key \n".to_string()), Some("key".to_string()));
    assert_eq!(broker.resolve("p"), Some("key".to_string()));
    assert_eq!(count.load(Ordering::SeqCst), 0);
    assert_eq!(broker.accept_answer("q", "   ".to_string()), None);
    assert_eq!(broker.resolve("q"), None);
    assert_eq!(count.load(Ordering::SeqCst), 1);
    broker.unregister();
    assert_eq!(broker.resolve("p"), None);
}

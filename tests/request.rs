use std::collections::HashMap;

use forecap_backend::errors::ApiError;
use forecap_backend::metrics::{reply_status, status_label, OutcomeTally};
use forecap_backend::request::{
    health_check, on_authenticated, on_cache_read, on_cache_written, on_store_read, Action,
    CacheSignal,
};

struct World {
    cache: HashMap<i64, String>,
    store: HashMap<i64, String>,
    cache_writable: bool,
    store_lookups: u32,
    cache_writes: u32,
    hits: u32,
    misses: u32,
    statuses: Vec<u16>,
}

impl World {
    fn new() -> World {
        World {
            cache: HashMap::new(),
            store: HashMap::new(),
            cache_writable: true,
            store_lookups: 0,
            cache_writes: 0,
            hits: 0,
            misses: 0,
            statuses: Vec::new(),
        }
    }

    fn serve(&mut self, auth: Result<i64, ApiError>) -> Result<String, ApiError> {
        let mut step = on_authenticated::<String>(auth);
        loop {
            match step.signal {
                CacheSignal::Hit => self.hits += 1,
                CacheSignal::Miss => self.misses += 1,
                CacheSignal::Quiet => {}
            }
            step = match step.action {
                Action::LookupCache(uid) => on_cache_read(uid, Ok(self.cache.get(&uid).cloned())),
                Action::LookupStore(uid) => {
                    self.store_lookups += 1;
                    on_store_read(uid, Ok(self.store.get(&uid).cloned()))
                }
                Action::PopulateCache(uid, body) => {
                    self.cache_writes += 1;
                    let written = if self.cache_writable {
                        self.cache.insert(uid, body.clone());
                        Ok(())
                    } else {
                        Err("write refused".to_string())
                    };
                    on_cache_written(body, written)
                }
                Action::Respond(reply) => {
                    self.statuses.push(reply_status(&reply));
                    return reply;
                }
            };
        }
    }
}

#[test]
fn cache_aside_second_request_hits() {
    let mut w = World::new();
    w.store.insert(7, "{\"userName\":\"ann\"}".to_string());
    let first = w.serve(Ok(7)).unwrap();
    assert_eq!((w.misses, w.hits, w.store_lookups, w.cache_writes), (1, 0, 1, 1));
    let second = w.serve(Ok(7)).unwrap();
    let third = w.serve(Ok(7)).unwrap();
    assert_eq!(first, second);
    assert_eq!(second, third);
    assert_eq!((w.misses, w.hits, w.store_lookups, w.cache_writes), (1, 2, 1, 1));
}

#[test]
fn cache_write_failure_keeps_reply() {
    let mut w = World::new();
    w.cache_writable = false;
    w.store.insert(7, "body".to_string());
    assert_eq!(w.serve(Ok(7)).unwrap(), "body");
    assert_eq!(w.statuses, vec![200]);
    assert!(w.cache.is_empty());
}

#[test]
fn unknown_user_is_not_found_and_not_cached() {
    let mut w = World::new();
    match w.serve(Ok(99)) {
        Err(ApiError::NotFound(m)) => assert_eq!(m, "User not found"),
        other => panic!("unexpected {:?}", other),
    }
    assert_eq!(w.cache_writes, 0);
    assert!(w.cache.is_empty());
    assert_eq!(w.statuses, vec![404]);
}

#[test]
fn counts_after_mixed_requests() {
    let mut w = World::new();
    w.store.insert(1, "one".to_string());
    for _ in 0..3 {
        assert!(w.serve(Ok(1)).is_ok());
    }
    assert!(w.serve(Ok(2)).is_err());
    assert!(w.serve(Err(ApiError::unauthorized("Invalid signature"))).is_err());
    assert!(w.serve(Err(ApiError::unauthorized("Invalid user_id"))).is_err());
    let count = |s: u16| w.statuses.iter().filter(|x| **x == s).count();
    assert_eq!(count(200), 3);
    assert_eq!(count(404), 1);
    assert_eq!(count(401), 2);
    assert_eq!(w.hits + w.misses, 4);
}

#[test]
fn cache_read_outcomes() {
    let hit = on_cache_read(3, Ok(Some("b".to_string())));
    assert_eq!(hit.signal, CacheSignal::Hit);
    assert!(matches!(hit.action, Action::Respond(Ok(ref b)) if b == "b"));
    let miss = on_cache_read::<String>(3, Ok(None));
    assert_eq!(miss.signal, CacheSignal::Miss);
    assert!(matches!(miss.action, Action::LookupStore(3)));
    let down = on_cache_read::<String>(3, Err("reset".to_string()));
    assert_eq!(down.signal, CacheSignal::Quiet);
    assert!(matches!(down.action, Action::Respond(Err(ApiError::Redis(_)))));
}

#[test]
fn store_failure_names_the_user() {
    let s = on_store_read::<String>(12, Err("timeout".to_string()));
    match s.action {
        Action::Respond(Err(ApiError::Internal(m))) => {
            assert_eq!(m, "Database query failed for user 12: timeout")
        }
        _ => panic!("expected an internal error"),
    }
}

#[test]
fn store_found_populates_cache() {
    let s = on_store_read(12, Ok(Some("r".to_string())));
    assert!(matches!(s.action, Action::PopulateCache(12, ref b) if b == "r"));
}

#[test]
fn auth_failure_is_replied() {
    let s = on_authenticated::<String>(Err(ApiError::unauthorized("Missing header: sign")));
    assert!(matches!(s.action, Action::Respond(Err(ApiError::Unauthorized(_)))));
    assert!(matches!(on_authenticated::<String>(Ok(5)).action, Action::LookupCache(5)));
}

#[test]
fn health_verdicts() {
    assert!(health_check(Ok(()), Ok(())).is_ok());
    let e = health_check(Err("down".to_string()), Ok(())).unwrap_err();
    assert_eq!(e.status_code(), 500);
    let e = health_check(Ok(()), Err("down".to_string())).unwrap_err();
    assert_eq!(e.status_code(), 500);
    assert!(health_check(Err("a".to_string()), Err("b".to_string())).is_err());
}

#[test]
fn status_labels() {
    assert_eq!(status_label(200), "200");
    assert_eq!(status_label(404), "404");
    assert_eq!(reply_status::<String>(&Ok("x".to_string())), 200);
    assert_eq!(reply_status::<String>(&Err(ApiError::Internal("x".to_string()))), 500);
}

#[test]
fn tally_counts_replies_and_lookups() {
    let mut w = World::new();
    w.store.insert(1, "one".to_string());
    let mut tally = OutcomeTally::new();
    let auths: Vec<Result<i64, ApiError>> = vec![
        Ok(1),
        Ok(1),
        Ok(2),
        Err(ApiError::unauthorized("Invalid signature")),
    ];
    for auth in auths {
        let mut step = on_authenticated::<String>(auth);
        loop {
            tally.record_signal(step.signal);
            step = match step.action {
                Action::LookupCache(uid) => on_cache_read(uid, Ok(w.cache.get(&uid).cloned())),
                Action::LookupStore(uid) => on_store_read(uid, Ok(w.store.get(&uid).cloned())),
                Action::PopulateCache(uid, body) => {
                    w.cache.insert(uid, body.clone());
                    on_cache_written(body, Ok(()))
                }
                Action::Respond(reply) => {
                    tally.record_reply(&reply);
                    break;
                }
            };
        }
    }
    assert_eq!(tally.ok, 2);
    assert_eq!(tally.not_found, 1);
    assert_eq!(tally.unauthorized, 1);
    assert_eq!(tally.server_error, 0);
    assert_eq!((tally.hits, tally.misses), (1, 2));
}

#[test]
fn tally_room_at_the_limit() {
    let mut tally = OutcomeTally::new();
    assert!(tally.can_record());
    tally.hits = u64::MAX;
    assert!(!tally.can_record());
    let mut t2 = OutcomeTally::new();
    t2.record_reply::<String>(&Err(ApiError::Redis("x".to_string())));
    assert_eq!(t2.server_error, 1);
}

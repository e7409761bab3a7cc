//! The per-request cache-aside protocol as a state machine. The caller
//! performs each action (a cache read, a store read, a cache write, the
//! reply) and feeds the result of the I/O back into the next transition.
use vstd::prelude::*;
use vstd::string::*;
use crate::decimal::{decimal_text, i64_text};
use crate::errors::{result_view, ApiError, ApiErrorView};

verus! {

/// What the caller must do next.
pub enum Action<R> {
    /// Read the cached entry of this user.
    LookupCache(i64),
    /// Read this user's record from the relational store.
    LookupStore(i64),
    /// Write this body to the cache for this user, then report the result.
    PopulateCache(i64, R),
    /// Send this reply; the request is over.
    Respond(Result<R, ApiError>),
}

pub enum ActionView<R> {
    LookupCache(i64),
    LookupStore(i64),
    PopulateCache(i64, R),
    Respond(Result<R, ApiErrorView>),
}

impl<R> View for Action<R> {
    type V = ActionView<R>;

    open spec fn view(&self) -> ActionView<R> {
        match self {
            Action::LookupCache(u) => ActionView::LookupCache(*u),
            Action::LookupStore(u) => ActionView::LookupStore(*u),
            Action::PopulateCache(u, b) => ActionView::PopulateCache(*u, *b),
            Action::Respond(r) => ActionView::Respond(result_view(*r)),
        }
    }
}

/// A cache counter that a transition asks to increment.
#[derive(Clone, Copy, Debug, PartialEq, Eq, Structural)]
pub enum CacheSignal {
    Hit,
    Miss,
    Quiet,
}

/// One transition: the next action and the cache counter it records.
pub struct Step<R> {
    pub action: Action<R>,
    pub signal: CacheSignal,
}

pub struct StepView<R> {
    pub action: ActionView<R>,
    pub signal: CacheSignal,
}

impl<R> View for Step<R> {
    type V = StepView<R>;

    open spec fn view(&self) -> StepView<R> {
        StepView { action: self.action@, signal: self.signal }
    }
}

pub open spec fn not_found_message() -> Seq<char> {
    "User not found"@
}

/// The diagnostic kept with a failed store lookup.
pub open spec fn store_failure_message(user_id: i64, cause: Seq<char>) -> Seq<char> {
    "Database query failed for user "@ + decimal_text(user_id as int) + ": "@ + cause
}

pub open spec fn auth_step<R>(auth: Result<i64, ApiErrorView>) -> StepView<R> {
    match auth {
        Ok(uid) => StepView { action: ActionView::LookupCache(uid), signal: CacheSignal::Quiet },
        Err(e) => StepView { action: ActionView::Respond(Err(e)), signal: CacheSignal::Quiet },
    }
}

pub open spec fn cache_read_step<R>(user_id: i64, read: Result<Option<R>, Seq<char>>) -> StepView<R> {
    match read {
        Ok(Some(body)) => StepView { action: ActionView::Respond(Ok(body)), signal: CacheSignal::Hit },
        Ok(None) => StepView { action: ActionView::LookupStore(user_id), signal: CacheSignal::Miss },
        Err(cause) => StepView {
            action: ActionView::Respond(Err(ApiErrorView::Redis(cause))),
            signal: CacheSignal::Quiet,
        },
    }
}

pub open spec fn store_read_step<R>(user_id: i64, read: Result<Option<R>, Seq<char>>) -> StepView<R> {
    match read {
        Ok(Some(body)) => StepView {
            action: ActionView::PopulateCache(user_id, body),
            signal: CacheSignal::Quiet,
        },
        Ok(None) => StepView {
            action: ActionView::Respond(Err(ApiErrorView::NotFound(not_found_message()))),
            signal: CacheSignal::Quiet,
        },
        Err(cause) => StepView {
            action: ActionView::Respond(
                Err(ApiErrorView::Internal(store_failure_message(user_id, cause))),
            ),
            signal: CacheSignal::Quiet,
        },
    }
}

pub open spec fn cache_written_step<R>(body: R) -> StepView<R> {
    StepView { action: ActionView::Respond(Ok(body)), signal: CacheSignal::Quiet }
}

pub open spec fn read_view<R>(r: Result<Option<R>, String>) -> Result<Option<R>, Seq<char>> {
    match r {
        Ok(o) => Ok(o),
        Err(e) => Err(e@),
    }
}

/// After authentication: on success read the cache, else reply with the error.
pub fn on_authenticated<R>(auth: Result<i64, ApiError>) -> (r: Step<R>)
    ensures
        r@ == auth_step::<R>(result_view(auth)),
{
    match auth {
        Ok(uid) => Step { action: Action::LookupCache(uid), signal: CacheSignal::Quiet },
        Err(e) => Step { action: Action::Respond(Err(e)), signal: CacheSignal::Quiet },
    }
}

/// After the cache read: a hit is the reply, a miss (absent or undecodable
/// entry) goes to the store, a transport failure is an internal error.
pub fn on_cache_read<R>(user_id: i64, read: Result<Option<R>, String>) -> (r: Step<R>)
    ensures
        r@ == cache_read_step(user_id, read_view(read)),
{
    match read {
        Ok(Some(body)) => Step { action: Action::Respond(Ok(body)), signal: CacheSignal::Hit },
        Ok(None) => Step { action: Action::LookupStore(user_id), signal: CacheSignal::Miss },
        Err(cause) => Step {
            action: Action::Respond(Err(ApiError::Redis(cause))),
            signal: CacheSignal::Quiet,
        },
    }
}

/// After the store read: a found record is written to the cache, an absent
/// one is a 404 (and is never cached), a failure is an internal error that
/// names the user.
pub fn on_store_read<R>(user_id: i64, read: Result<Option<R>, String>) -> (r: Step<R>)
    ensures
        r@ == store_read_step(user_id, read_view(read)),
{
    match read {
        Ok(Some(body)) => Step {
            action: Action::PopulateCache(user_id, body),
            signal: CacheSignal::Quiet,
        },
        Ok(None) => Step {
            action: Action::Respond(Err(ApiError::not_found("User not found"))),
            signal: CacheSignal::Quiet,
        },
        Err(cause) => {
            let mut msg = "Database query failed for user ".to_owned();
            let id_text = i64_text(user_id);
            msg.append(id_text.as_str());
            msg.append(": ");
            msg.append(cause.as_str());
            Step { action: Action::Respond(Err(ApiError::Internal(msg))), signal: CacheSignal::Quiet }
        },
    }
}

/// After the cache write: the reply is the stored body, whether or not the
/// write succeeded.
pub fn on_cache_written<R>(body: R, written: Result<(), String>) -> (r: Step<R>)
    ensures
        r@ == cache_written_step(body),
{
    Step { action: Action::Respond(Ok(body)), signal: CacheSignal::Quiet }
}

pub open spec fn health_outcome(
    mysql: Result<(), Seq<char>>,
    redis: Result<(), Seq<char>>,
) -> Result<(), ApiErrorView> {
    match mysql {
        Err(cause) => Err(ApiErrorView::Internal(cause)),
        Ok(_) => match redis {
            Err(cause) => Err(ApiErrorView::Internal(cause)),
            Ok(_) => Ok(()),
        },
    }
}

pub open spec fn probe_view(r: Result<(), String>) -> Result<(), Seq<char>> {
    match r {
        Ok(_) => Ok(()),
        Err(e) => Err(e@),
    }
}

/// The health verdict from the two liveness probes: healthy exactly when
/// both backing stores answered, otherwise an internal error (status 500)
/// carrying the first failure.
pub fn health_check(mysql: Result<(), String>, redis: Result<(), String>) -> (r: Result<(), ApiError>)
    ensures
        result_view(r) == health_outcome(probe_view(mysql), probe_view(redis)),
        r is Ok <==> (mysql is Ok && redis is Ok),
        r is Err ==> r->Err_0@.status() == 500,
{
    match mysql {
        Err(cause) => Err(ApiError::Internal(cause)),
        Ok(_) => match redis {
            Err(cause) => Err(ApiError::Internal(cause)),
            Ok(_) => Ok(()),
        },
    }
}

/// The backing stores as one request sees them: the cache and store
/// contents, whether each answers, and the cause reported when one does not.
pub struct Backends<R> {
    pub cache: Map<i64, R>,
    pub store: Map<i64, R>,
    pub cache_up: bool,
    pub store_up: bool,
    pub cache_writable: bool,
    pub cause: Seq<char>,
}

/// The observable effects of one request.
pub struct Run<R> {
    pub reply: Option<Result<R, ApiErrorView>>,
    pub cache_after: Map<i64, R>,
    pub store_lookups: nat,
    pub cache_writes: nat,
    pub signal: CacheSignal,
}

pub open spec fn cache_read_of<R>(b: Backends<R>, uid: i64) -> Result<Option<R>, Seq<char>> {
    if !b.cache_up {
        Err(b.cause)
    } else if b.cache.contains_key(uid) {
        Ok(Some(b.cache[uid]))
    } else {
        Ok(None)
    }
}

pub open spec fn store_read_of<R>(b: Backends<R>, uid: i64) -> Result<Option<R>, Seq<char>> {
    if !b.store_up {
        Err(b.cause)
    } else if b.store.contains_key(uid) {
        Ok(Some(b.store[uid]))
    } else {
        Ok(None)
    }
}

pub open spec fn reply_of<R>(a: ActionView<R>) -> Option<Result<R, ApiErrorView>> {
    match a {
        ActionView::Respond(r) => Some(r),
        _ => None,
    }
}

/// One request driven through the transitions against the given backends:
/// each action is answered from `b` until the machine replies.
pub open spec fn serve<R>(auth: Result<i64, ApiErrorView>, b: Backends<R>) -> Run<R> {
    let s1 = auth_step::<R>(auth);
    let untouched = Run {
        reply: reply_of(s1.action),
        cache_after: b.cache,
        store_lookups: 0,
        cache_writes: 0,
        signal: s1.signal,
    };
    match s1.action {
        ActionView::LookupCache(uid) => {
            let s2 = cache_read_step(uid, cache_read_of(b, uid));
            match s2.action {
                ActionView::LookupStore(u2) => {
                    let s3 = store_read_step(u2, store_read_of(b, u2));
                    match s3.action {
                        ActionView::PopulateCache(u3, body) => Run {
                            reply: reply_of(cache_written_step(body).action),
                            cache_after: if b.cache_writable {
                                b.cache.insert(u3, body)
                            } else {
                                b.cache
                            },
                            store_lookups: 1,
                            cache_writes: 1,
                            signal: s2.signal,
                        },
                        _ => Run {
                            reply: reply_of(s3.action),
                            cache_after: b.cache,
                            store_lookups: 1,
                            cache_writes: 0,
                            signal: s2.signal,
                        },
                    }
                },
                _ => Run {
                    reply: reply_of(s2.action),
                    cache_after: b.cache,
                    store_lookups: 0,
                    cache_writes: 0,
                    signal: s2.signal,
                },
            }
        },
        _ => untouched,
    }
}

pub open spec fn with_cache<R>(b: Backends<R>, cache: Map<i64, R>) -> Backends<R> {
    Backends { cache, ..b }
}

pub open spec fn with_writable<R>(b: Backends<R>, w: bool) -> Backends<R> {
    Backends { cache_writable: w, ..b }
}

/// Cache-aside idempotence: for a user present in the store and absent from
/// the cache, the first request misses, reads the store once and writes the
/// cache; the next request hits with the same body, reads the store zero
/// times and leaves the cache as it was, so every later one behaves alike.
pub proof fn lemma_cache_aside_idempotent<R>(uid: i64, b: Backends<R>)
    requires
        b.cache_up,
        b.store_up,
        b.cache_writable,
        !b.cache.contains_key(uid),
        b.store.contains_key(uid),
    ensures
        ({
            let first = serve(Ok(uid), b);
            let second = serve(Ok(uid), with_cache(b, first.cache_after));
            &&& first.signal == CacheSignal::Miss
            &&& first.store_lookups == 1
            &&& first.cache_writes == 1
            &&& first.reply == Some(Ok::<R, ApiErrorView>(b.store[uid]))
            &&& second.signal == CacheSignal::Hit
            &&& second.store_lookups == 0
            &&& second.cache_writes == 0
            &&& second.reply == first.reply
            &&& second.cache_after == first.cache_after
        }),
{
}

/// A failed cache write leaves the reply as it would have been: success with
/// the stored body.
pub proof fn lemma_cache_write_failure_harmless<R>(uid: i64, b: Backends<R>)
    requires
        b.cache_up,
        b.store_up,
        !b.cache.contains_key(uid),
        b.store.contains_key(uid),
    ensures
        serve(Ok(uid), with_writable(b, false)).reply == serve(Ok(uid), with_writable(b, true)).reply,
        serve(Ok(uid), with_writable(b, false)).reply == Some(Ok::<R, ApiErrorView>(b.store[uid])),
{
}

/// An authenticated request for a user in neither cache nor store is
/// answered 404 "User not found" and writes nothing to the cache.
pub proof fn lemma_unknown_user_not_found<R>(uid: i64, b: Backends<R>)
    requires
        b.cache_up,
        b.store_up,
        !b.cache.contains_key(uid),
        !b.store.contains_key(uid),
    ensures
        serve(Ok(uid), b).reply == Some(
            Err::<R, ApiErrorView>(ApiErrorView::NotFound(not_found_message())),
        ),
        ApiErrorView::NotFound(not_found_message()).status() == 404,
        serve(Ok(uid), b).cache_writes == 0,
        serve(Ok(uid), b).cache_after == b.cache,
{
}

} // verus!

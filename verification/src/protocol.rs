//! The protocol run against a model of the cache store: what one request
//! reads, fetches, writes and answers, as a function of the store, the time
//! and the upstream's reply.

use vstd::prelude::*;
use crate::error::Failure;
use crate::gateway::{
    fetch_step, hit_payload, parsed_form, read_step, reply_body, reply_status_text, write_step,
    AckModel, Plan, ReadModel, ReplyModel, StepModel,
};
use crate::youtube::{allowed_names, invalid_resource_text, youtube_plan};

verus! {

/// A stored payload and the time from which it is gone.
pub struct Entry {
    pub payload: Seq<char>,
    pub expires: nat,
}

/// What a reachable store answers to a read of `key` at time `now`.
pub open spec fn store_read(store: Map<Seq<char>, Entry>, key: Seq<char>, now: nat) -> ReadModel {
    if store.contains_key(key) && now < store[key].expires {
        ReadModel::Hit(store[key].payload)
    } else {
        ReadModel::Miss
    }
}

/// The store after a write at time `now` with a time-to-live of `ttl`:
/// whatever the key held before is replaced.
pub open spec fn store_write(
    store: Map<Seq<char>, Entry>,
    key: Seq<char>,
    payload: Seq<char>,
    now: nat,
    ttl: nat,
) -> Map<Seq<char>, Entry> {
    store.insert(key, Entry { payload, expires: now + ttl })
}

/// One request, served.
pub struct Served {
    pub store: Map<Seq<char>, Entry>,
    pub answer: StepModel,
    pub reads: nat,
    pub fetches: nat,
    pub writes: nat,
}

/// Serves one request at time `now` against `store`, with `reply` as what
/// the upstream would answer if called: validate, read, and on a miss fetch
/// and store.
pub open spec fn serve(
    store: Map<Seq<char>, Entry>,
    now: nat,
    ttl: nat,
    plan: Result<Plan, Failure>,
    reply: ReplyModel,
) -> Served {
    match plan {
        Err(f) => Served { store, answer: StepModel::Fail(f), reads: 0, fetches: 0, writes: 0 },
        Ok(p) => {
            let read = store_read(store, p.key, now);
            match read_step(read, parsed_form(hit_payload(read))) {
                StepModel::Fetch => match fetch_step(
                    p.key,
                    p.label,
                    reply,
                    parsed_form(reply_body(reply)),
                    reply_status_text(reply),
                ) {
                    StepModel::Store { key, payload } => Served {
                        store: store_write(store, key, payload, now, ttl),
                        answer: write_step(payload, AckModel::Stored),
                        reads: 1,
                        fetches: 1,
                        writes: 1,
                    },
                    other => Served { store, answer: other, reads: 1, fetches: 1, writes: 0 },
                },
                other => Served { store, answer: other, reads: 1, fetches: 0, writes: 0 },
            }
        },
    }
}

/// A request for a resource that is not on the allow-list is answered with
/// a validation failure; the cache is neither read nor written and the
/// upstream is not called.
pub proof fn lemma_rejected_resource_touches_nothing(
    resource: Seq<char>,
    params: Map<Seq<char>, Seq<char>>,
    api_key: Seq<char>,
    channel_id: Seq<char>,
    store: Map<Seq<char>, Entry>,
    now: nat,
    ttl: nat,
    reply: ReplyModel,
)
    requires
        !allowed_names().contains(resource),
    ensures
        ({
            let served = serve(
                store,
                now,
                ttl,
                youtube_plan(resource, params, api_key, channel_id),
                reply,
            );
            &&& served.answer == StepModel::Fail(
                Failure::Validation(invalid_resource_text(resource)),
            )
            &&& served.reads == 0
            &&& served.fetches == 0
            &&& served.writes == 0
            &&& served.store == store
        }),
{
}

/// No failure is ever stored: a request that fails leaves the store as it was.
pub proof fn lemma_failure_is_not_cached(
    store: Map<Seq<char>, Entry>,
    now: nat,
    ttl: nat,
    plan: Result<Plan, Failure>,
    reply: ReplyModel,
)
    requires
        serve(store, now, ttl, plan, reply).answer is Fail,
    ensures
        serve(store, now, ttl, plan, reply).store == store,
        serve(store, now, ttl, plan, reply).writes == 0,
{
}

/// A request calls the upstream at most once, and only after a read that missed.
pub proof fn lemma_at_most_one_fetch(
    store: Map<Seq<char>, Entry>,
    now: nat,
    ttl: nat,
    plan: Result<Plan, Failure>,
    reply: ReplyModel,
)
    ensures
        serve(store, now, ttl, plan, reply).fetches <= 1,
        serve(store, now, ttl, plan, reply).fetches == 1 ==> plan is Ok && store_read(
            store,
            plan->Ok_0.key,
            now,
        ) is Miss,
{
}

/// The same request again before the entry's time is up: once the first
/// request has fetched and stored a document that reads back as JSON, the
/// second is answered with that document from the cache, unchanged, without
/// a call to the upstream, whatever the upstream would now say.
pub proof fn lemma_repeat_within_ttl_hits_cache(
    store: Map<Seq<char>, Entry>,
    plan: Plan,
    first_time: nat,
    second_time: nat,
    ttl: nat,
    first_reply: ReplyModel,
    second_reply: ReplyModel,
)
    requires
        serve(store, first_time, ttl, Ok(plan), first_reply).fetches == 1,
        serve(store, first_time, ttl, Ok(plan), first_reply).answer matches StepModel::Succeed(doc)
            && parsed_form(Some(doc)) is Some,
        first_time <= second_time < first_time + ttl,
    ensures
        ({
            let first = serve(store, first_time, ttl, Ok(plan), first_reply);
            let second = serve(first.store, second_time, ttl, Ok(plan), second_reply);
            &&& second.fetches == 0
            &&& second.writes == 0
            &&& second.answer == first.answer
            &&& second.store == first.store
            &&& first.fetches + second.fetches == 1
        }),
{
}

/// The same request again once the entry's time is up: the read misses and
/// the upstream is called once more.
pub proof fn lemma_repeat_after_ttl_fetches_again(
    store: Map<Seq<char>, Entry>,
    plan: Plan,
    first_time: nat,
    second_time: nat,
    ttl: nat,
    first_reply: ReplyModel,
    second_reply: ReplyModel,
)
    requires
        serve(store, first_time, ttl, Ok(plan), first_reply).fetches == 1,
        second_time >= first_time + ttl,
    ensures
        ({
            let first = serve(store, first_time, ttl, Ok(plan), first_reply);
            let second = serve(first.store, second_time, ttl, Ok(plan), second_reply);
            &&& store_read(first.store, plan.key, second_time) is Miss
            &&& second.fetches == 1
        }),
{
}

} // verus!

//! Laws of the asset cache, stated over whole runs of cache events.
//!
//! A run is a sequence of the three things that can happen to the cache
//! between two points in time: a `get`, a fetch completion, or a sweep.
//! Each law below quantifies over every such run.

use vstd::prelude::*;

use crate::cache::CacheModel;
use crate::cache::GetOutcome;
use crate::cache::Texture;
use crate::cache::spec_complete;
use crate::cache::spec_get;
use crate::cache::spec_sweep;
use crate::channels::ImageMsg;

verus! {

/// One event in the life of the asset cache.
pub enum CacheEvent {
    /// The UI asked for this id.
    Get { id: Seq<char> },
    /// A fetch job for this id delivered its result.
    Complete { id: Seq<char>, tex: Option<Texture> },
    /// The periodic eviction sweep ran.
    Sweep,
}

/// The cache state after one event.
pub open spec fn apply_event(s: CacheModel, e: CacheEvent) -> CacheModel {
    match e {
        CacheEvent::Get { id } => spec_get(s, id).0,
        CacheEvent::Complete { id, tex } => spec_complete(s, id, tex),
        CacheEvent::Sweep => spec_sweep(s),
    }
}

/// The cache state after a run of events.
pub open spec fn apply_events(s: CacheModel, es: Seq<CacheEvent>) -> CacheModel
    decreases es.len(),
{
    if es.len() == 0 {
        s
    } else {
        apply_events(apply_event(s, es[0]), es.drop_first())
    }
}

/// Whether this event, happening in state `s`, spawns a fetch job for `id`.
pub open spec fn spawns_for(s: CacheModel, e: CacheEvent, id: Seq<char>) -> bool {
    &&& e matches CacheEvent::Get { id: g } && g == id
    &&& spec_get(s, id).1 is StartFetch
}

/// How many fetch jobs for `id` a run of events spawns, starting in `s`.
pub open spec fn spawn_count(s: CacheModel, es: Seq<CacheEvent>, id: Seq<char>) -> nat
    decreases es.len(),
{
    if es.len() == 0 {
        0
    } else {
        (if spawns_for(s, es[0], id) {
            1nat
        } else {
            0nat
        }) + spawn_count(apply_event(s, es[0]), es.drop_first(), id)
    }
}

/// Whether an event is the completion of a fetch for `id`.
pub open spec fn completes(e: CacheEvent, id: Seq<char>) -> bool {
    e matches CacheEvent::Complete { id: c, .. } && c == id
}

/// Whether an event is a `get` of `id`.
pub open spec fn gets(e: CacheEvent, id: Seq<char>) -> bool {
    e matches CacheEvent::Get { id: g } && g == id
}

/// No event of the run completes a fetch for `id`.
pub open spec fn no_complete_for(es: Seq<CacheEvent>, id: Seq<char>) -> bool {
    forall|i: int| 0 <= i < es.len() ==> !completes(#[trigger] es[i], id)
}

/// No event of the run is a `get` of `id`.
pub open spec fn no_get_for(es: Seq<CacheEvent>, id: Seq<char>) -> bool {
    forall|i: int| 0 <= i < es.len() ==> !gets(#[trigger] es[i], id)
}

/// No event of the run is a sweep.
pub open spec fn no_sweep(es: Seq<CacheEvent>) -> bool {
    forall|i: int| 0 <= i < es.len() ==> !((#[trigger] es[i]) is Sweep)
}

/// While a fetch for `id` is outstanding, no run of events that lacks its
/// completion can spawn another fetch for `id`, and the fetch stays
/// outstanding throughout.
pub proof fn lemma_no_spawn_while_owned(s: CacheModel, es: Seq<CacheEvent>, id: Seq<char>)
    requires
        s.in_flight.contains(id),
        no_complete_for(es, id),
    ensures
        spawn_count(s, es, id) == 0,
        apply_events(s, es).in_flight.contains(id),
    decreases es.len(),
{
    if es.len() > 0 {
        let e = es[0];
        let s1 = apply_event(s, e);
        assert(!spawns_for(s, e, id));
        assert(s1.in_flight.contains(id));
        assert(no_complete_for(es.drop_first(), id)) by {
            assert(forall|i: int|
                0 <= i < es.drop_first().len() ==> es.drop_first()[i] == es[i + 1]);
        }
        lemma_no_spawn_while_owned(s1, es.drop_first(), id);
    }
}

/// Single-flight: starting with no fetch outstanding for `id`, a run of
/// events in which no fetch for `id` completes spawns at most one fetch job
/// for `id` — however many times `get(id)` is called.
pub proof fn lemma_single_flight(s: CacheModel, es: Seq<CacheEvent>, id: Seq<char>)
    requires
        !s.in_flight.contains(id),
        no_complete_for(es, id),
    ensures
        spawn_count(s, es, id) <= 1,
    decreases es.len(),
{
    if es.len() > 0 {
        let e = es[0];
        let s1 = apply_event(s, e);
        assert(no_complete_for(es.drop_first(), id)) by {
            assert(forall|i: int|
                0 <= i < es.drop_first().len() ==> es.drop_first()[i] == es[i + 1]);
        }
        if spawns_for(s, e, id) {
            assert(s1.in_flight.contains(id));
            lemma_no_spawn_while_owned(s1, es.drop_first(), id);
        } else {
            assert(!s1.in_flight.contains(id));
            lemma_single_flight(s1, es.drop_first(), id);
        }
    }
}

/// A `get` of a ready id hands back the held texture without starting
/// anything, and touches nothing but the used set.
pub proof fn lemma_get_hit(s: CacheModel, id: Seq<char>)
    requires
        s.ready.contains_key(id),
    ensures
        spec_get(s, id).1 == (GetOutcome::Ready { texture: s.ready[id] }),
        spec_get(s, id).0.ready == s.ready,
        spec_get(s, id).0.in_flight == s.in_flight,
{
}

/// Cache-hit stability: once a texture is in the ready map, any run of
/// events without a sweep and without a completion for the id leaves that
/// very texture in place and spawns no fetch for the id.
pub proof fn lemma_hit_stable(s: CacheModel, es: Seq<CacheEvent>, id: Seq<char>, t: Texture)
    requires
        s.ready.contains_key(id),
        s.ready[id] == t,
        no_complete_for(es, id),
        no_sweep(es),
    ensures
        apply_events(s, es).ready.contains_key(id),
        apply_events(s, es).ready[id] == t,
        spawn_count(s, es, id) == 0,
    decreases es.len(),
{
    if es.len() > 0 {
        let e = es[0];
        let s1 = apply_event(s, e);
        assert(s1.ready.contains_key(id) && s1.ready[id] == t);
        assert(!spawns_for(s, e, id));
        assert(no_complete_for(es.drop_first(), id) && no_sweep(es.drop_first())) by {
            assert(forall|i: int|
                0 <= i < es.drop_first().len() ==> es.drop_first()[i] == es[i + 1]);
        }
        lemma_hit_stable(s1, es.drop_first(), id, t);
    }
}

/// Eviction of the unrequested: if `id` was not marked used and no event of
/// the period requests it, the sweep that ends the period leaves `id` out of
/// the ready map.
pub proof fn lemma_evicted_when_unused(s: CacheModel, es: Seq<CacheEvent>, id: Seq<char>)
    requires
        !s.used.contains(id),
        no_get_for(es, id),
        no_sweep(es),
    ensures
        !apply_events(s, es).used.contains(id),
        !spec_sweep(apply_events(s, es)).ready.contains_key(id),
    decreases es.len(),
{
    if es.len() > 0 {
        let e = es[0];
        let s1 = apply_event(s, e);
        assert(!s1.used.contains(id));
        assert(no_get_for(es.drop_first(), id) && no_sweep(es.drop_first())) by {
            assert(forall|i: int|
                0 <= i < es.drop_first().len() ==> es.drop_first()[i] == es[i + 1]);
        }
        lemma_evicted_when_unused(s1, es.drop_first(), id);
    }
}

/// A `get` marks its id used at once.
pub proof fn lemma_get_marks_used(s: CacheModel, id: Seq<char>)
    ensures
        spec_get(s, id).0.used.contains(id),
{
}

/// Survival of the requested: once `id` is marked used, it stays marked
/// through any run without a sweep, and the sweep that ends the period keeps
/// `id` ready exactly when it was ready as the sweep ran.
pub proof fn lemma_used_survives(s: CacheModel, es: Seq<CacheEvent>, id: Seq<char>)
    requires
        s.used.contains(id),
        no_sweep(es),
    ensures
        apply_events(s, es).used.contains(id),
        spec_sweep(apply_events(s, es)).ready.contains_key(id) == apply_events(
            s,
            es,
        ).ready.contains_key(id),
    decreases es.len(),
{
    if es.len() > 0 {
        let e = es[0];
        let s1 = apply_event(s, e);
        assert(s1.used.contains(id));
        assert(no_sweep(es.drop_first())) by {
            assert(forall|i: int|
                0 <= i < es.drop_first().len() ==> es.drop_first()[i] == es[i + 1]);
        }
        lemma_used_survives(s1, es.drop_first(), id);
    }
}

/// The completion events a batch of image messages stands for.
pub open spec fn completion_events(imgs: Seq<ImageMsg>) -> Seq<CacheEvent> {
    imgs.map_values(|im: ImageMsg| CacheEvent::Complete { id: im.0@, tex: im.1 })
}

/// A reconciled image batch is a run of completion events: what the laws
/// above say of runs holds of the cache after any reconciliation pass.
pub proof fn lemma_batch_is_a_run(m: CacheModel, imgs: Seq<ImageMsg>)
    ensures
        crate::runtime::images_applied(m, imgs) == apply_events(m, completion_events(imgs)),
    decreases imgs.len(),
{
    if imgs.len() > 0 {
        let es = completion_events(imgs);
        assert(es[0] == CacheEvent::Complete { id: imgs[0].0@, tex: imgs[0].1 });
        assert(es.drop_first() =~= completion_events(imgs.drop_first()));
        lemma_batch_is_a_run(spec_complete(m, imgs[0].0@, imgs[0].1), imgs.drop_first());
    }
}

/// Failure retry: a failed fetch leaves no trace, so the very next `get` of
/// the id claims the miss and spawns a brand-new fetch.
pub proof fn lemma_failure_retry(s: CacheModel, id: Seq<char>)
    requires
        !s.ready.contains_key(id),
    ensures
        spec_get(spec_complete(s, id, None), id).1 is StartFetch,
{
}

} // verus!

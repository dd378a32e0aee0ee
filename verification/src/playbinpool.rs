//! A pool of playback pipelines: those in use, and those that wait to be used again.

use crate::retain::drain_where;
use crate::text::str_eq;
use vstd::prelude::*;

verus! {

/// A pipeline of the pool, known by its number. Times are in nanoseconds.
#[derive(Debug)]
pub struct PooledPlayBin {
    pub id: u64,
    pub requested_stream_id: Option<String>,
    pub unused_since: Option<u64>,
}

/// The pool.
#[derive(Debug)]
pub struct PlaybinPool {
    pub running_pipelines: Vec<PooledPlayBin>,
    pub unused_pipelines: Vec<PooledPlayBin>,
    pub cleanup_timeout: u64,
}

/// The seconds after which an unused pipeline is stopped.
pub const DEFAULT_CLEANUP_TIMEOUT_SEC: u64 = 15;

/// How a pipeline was come by.
#[derive(Debug, Clone, Copy, PartialEq, Eq, Structural)]
pub enum Obtained {
    /// It was unused; it has to be reset.
    Reused(u64),
    /// It is new, and has to be made.
    New(u64),
}

/// The numbers of some pipelines.
pub open spec fn ids(pipelines: Seq<PooledPlayBin>) -> Seq<u64> {
    Seq::new(pipelines.len(), |i: int| pipelines[i].id)
}

/// Whether a pipeline was asked for the stream with this ID.
pub open spec fn serves(pipeline: PooledPlayBin, stream_id: Option<Seq<char>>) -> bool {
    &&& stream_id is Some
    &&& pipeline.requested_stream_id is Some
    &&& pipeline.requested_stream_id->0@ == stream_id->0
}

pub open spec fn text_of(s: Option<&str>) -> Option<Seq<char>> {
    match s {
        Some(s) => Some(s@),
        None => None,
    }
}

/// Whether an unused pipeline has waited longer than the timeout, given in seconds.
pub open spec fn expired(pipeline: PooledPlayBin, now: u64, timeout: u64) -> bool {
    now - pipeline.unused_since->0 > timeout * 1_000_000_000
}

/// Whether an unused pipeline is the first to serve a stream.
pub open spec fn first_serving(
    pipelines: Seq<PooledPlayBin>,
    stream_id: Option<Seq<char>>,
    i: int,
) -> bool {
    &&& 0 <= i < pipelines.len()
    &&& serves(pipelines[i], stream_id)
    &&& forall|k: int| 0 <= k < i ==> !serves(#[trigger] pipelines[k], stream_id)
}

/// What getting a pipeline does to the pool: the pipeline is the last of those in use, for the
/// stream, and comes from the unused ones if one of them serves.
pub open spec fn got(
    before: PlaybinPool,
    after: PlaybinPool,
    stream_id: Option<Seq<char>>,
    fresh: u64,
    obtained: Obtained,
) -> bool {
    let newest = after.running_pipelines@.last();
    &&& after.cleanup_timeout == before.cleanup_timeout
    &&& after.running_pipelines.len() == before.running_pipelines.len() + 1
    &&& after.running_pipelines@.drop_last() == before.running_pipelines@
    &&& text_of_owned(newest.requested_stream_id) == stream_id
    &&& newest.unused_since is None
    &&& match obtained {
        Obtained::Reused(id) => newest.id == id && exists|i: int|
            {
                &&& #[trigger] first_serving(before.unused_pipelines@, stream_id, i)
                &&& id == before.unused_pipelines@[i].id
                &&& after.unused_pipelines@ == before.unused_pipelines@.remove(i)
            },
        Obtained::New(id) => {
            &&& newest.id == id
            &&& id == fresh
            &&& after.unused_pipelines@ == before.unused_pipelines@
            &&& forall|k: int|
                0 <= k < before.unused_pipelines.len() ==> !serves(
                    #[trigger] before.unused_pipelines@[k],
                    stream_id,
                )
        },
    }
}

/// What taking a pipeline back does to the pool.
pub open spec fn taken_back(
    before: PlaybinPool,
    after: PlaybinPool,
    pipeline: PooledPlayBin,
) -> bool {
    &&& after.cleanup_timeout == before.cleanup_timeout
    &&& after.running_pipelines@ == before.running_pipelines@.filter(
        |p: PooledPlayBin| p.id != pipeline.id,
    )
    &&& after.unused_pipelines@ == before.unused_pipelines@.push(pipeline)
}

impl PlaybinPool {
    /// No pipeline is in the pool twice.
    pub open spec fn wf(self) -> bool {
        (ids(self.running_pipelines@) + ids(self.unused_pipelines@)).no_duplicates()
    }

    /// Every unused pipeline knows since when.
    pub open spec fn all_timed(self) -> bool {
        forall|i: int|
            0 <= i < self.unused_pipelines.len() ==> (
            #[trigger] self.unused_pipelines[i]).unused_since is Some
    }

    /// An empty pool.
    pub fn new() -> (pool: PlaybinPool)
        ensures
            pool.wf(),
            pool.running_pipelines.len() == 0,
            pool.unused_pipelines.len() == 0,
            pool.cleanup_timeout == DEFAULT_CLEANUP_TIMEOUT_SEC,
    {
        PlaybinPool {
            running_pipelines: Vec::new(),
            unused_pipelines: Vec::new(),
            cleanup_timeout: DEFAULT_CLEANUP_TIMEOUT_SEC,
        }
    }

    fn position_serving(&self, stream_id: Option<&str>) -> (position: Option<usize>)
        ensures
            match position {
                Some(i) => {
                    &&& i < self.unused_pipelines.len()
                    &&& serves(self.unused_pipelines[i as int], text_of(stream_id))
                    &&& forall|k: int|
                        0 <= k < i ==> !serves(
                            #[trigger] self.unused_pipelines[k],
                            text_of(stream_id),
                        )
                },
                None => forall|k: int|
                    0 <= k < self.unused_pipelines.len() ==> !serves(
                        #[trigger] self.unused_pipelines[k],
                        text_of(stream_id),
                    ),
            },
    {
        let wanted = match stream_id {
            Some(wanted) => wanted,
            None => return None,
        };
        let mut i: usize = 0;
        while i < self.unused_pipelines.len()
            invariant
                i <= self.unused_pipelines.len(),
                stream_id == Some(wanted),
                forall|k: int|
                    0 <= k < i ==> !serves(#[trigger] self.unused_pipelines[k], text_of(stream_id)),
            decreases self.unused_pipelines.len() - i,
        {
            let serving = match &self.unused_pipelines[i].requested_stream_id {
                Some(id) => str_eq(id.as_str(), wanted),
                None => false,
            };
            if serving {
                return Some(i);
            }
            i = i + 1;
        }
        None
    }

    /// Gets a pipeline for a stream: the first unused one that was asked for the same stream, or
    /// else a new one, under the number `fresh`. Either way it is in use from now on.
    pub fn get(&mut self, stream_id: Option<&str>, fresh: u64) -> (obtained: Obtained)
        requires
            old(self).wf(),
            !ids(old(self).running_pipelines@).contains(fresh),
            !ids(old(self).unused_pipelines@).contains(fresh),
        ensures
            final(self).wf(),
            got(*old(self), *final(self), text_of(stream_id), fresh, obtained),
    {
        let ghost before = *self;
        let requested = match stream_id {
            Some(id) => Some(id.to_owned()),
            None => None,
        };
        match self.position_serving(stream_id) {
            Some(position) => {
                let mut playbin = self.unused_pipelines.remove(position);
                playbin.requested_stream_id = requested;
                playbin.unused_since = None;
                let id: u64 = playbin.id;
                self.running_pipelines.push(playbin);
                proof {
                    lemma_moved_keeps_apart(
                        ids(before.running_pipelines@),
                        ids(before.unused_pipelines@),
                        position as int,
                    );
                    assert(ids(self.running_pipelines@) =~= ids(before.running_pipelines@).push(
                        ids(before.unused_pipelines@)[position as int],
                    ));
                    assert(ids(self.unused_pipelines@) =~= ids(before.unused_pipelines@).remove(
                        position as int,
                    ));
                    assert(self.running_pipelines@.drop_last() =~= before.running_pipelines@);
                    assert(first_serving(
                        before.unused_pipelines@,
                        text_of(stream_id),
                        position as int,
                    ));
                }
                Obtained::Reused(id)
            },
            None => {
                self.running_pipelines.push(
                    PooledPlayBin { id: fresh, requested_stream_id: requested, unused_since: None },
                );
                proof {
                    let running = ids(before.running_pipelines@);
                    let unused = ids(before.unused_pipelines@);
                    assert(ids(self.running_pipelines@) =~= running.push(fresh));
                    lemma_added_keeps_apart(running, unused, fresh);
                    assert(self.running_pipelines@.drop_last() =~= before.running_pipelines@);
                }
                Obtained::New(fresh)
            },
        }
    }

    /// Stops the unused pipelines that have waited too long, and returns their numbers; the others
    /// stay, in their order.
    pub fn cleanup(&mut self, now: u64) -> (stopped: Vec<u64>)
        requires
            old(self).wf(),
            old(self).all_timed(),
        ensures
            final(self).wf(),
            final(self).all_timed(),
            final(self).running_pipelines == old(self).running_pipelines,
            final(self).cleanup_timeout == old(self).cleanup_timeout,
            final(self).unused_pipelines@ == old(self).unused_pipelines@.filter(
                |p: PooledPlayBin| !expired(p, now, old(self).cleanup_timeout),
            ),
            stopped@ == ids(
                old(self).unused_pipelines@.filter(
                    |p: PooledPlayBin| expired(p, now, old(self).cleanup_timeout),
                ),
            ),
    {
        let ghost before = *self;
        let timeout: u64 = self.cleanup_timeout;
        let limit: u128 = timeout as u128 * 1_000_000_000;
        let ghost gone = |p: PooledPlayBin| expired(p, now, timeout);
        let ghost kept = |p: PooledPlayBin| !gone(p);
        let waited_too_long = |p: &PooledPlayBin| -> (r: bool)
            requires
                p.unused_since is Some,
            ensures
                r == expired(*p, now, timeout),
        {
            let since: u64 = p.unused_since.unwrap();
            now > since && (now - since) as u128 > limit
        };
        let taken = drain_where(&mut self.unused_pipelines, waited_too_long, Ghost(gone));
        let mut stopped: Vec<u64> = Vec::new();
        let mut i: usize = 0;
        while i < taken.len()
            invariant
                i <= taken.len(),
                stopped@ == ids(taken@.take(i as int)),
            decreases taken.len() - i,
        {
            stopped.push(taken[i].id);
            i = i + 1;
            proof {
                assert(stopped@ =~= ids(taken@.take(i as int)));
            }
        }
        proof {
            let all = before.unused_pipelines@;
            assert(taken@.take(taken@.len() as int) =~= taken@);
            assert(kept =~= (|p: PooledPlayBin| !expired(p, now, timeout)));
            lemma_filter_places(all, kept);
            lemma_thinned_keeps_apart(before, *self);
            assert forall|k: int| 0 <= k < self.unused_pipelines.len() implies (
            #[trigger] self.unused_pipelines[k]).unused_since is Some by {
                let place = choose|place: spec_fn(int) -> int|
                    is_thinning(all, all.filter(kept), place);
                assert(self.unused_pipelines@[k] == all[place(k)]);
                assert(before.unused_pipelines[place(k)].unused_since is Some);
            }
        }
        stopped
    }

    /// Sets the timeout, in seconds, and applies it at once.
    pub fn set_cleanup_timeout(&mut self, timeout: u64, now: u64) -> (stopped: Vec<u64>)
        requires
            old(self).wf(),
            old(self).all_timed(),
        ensures
            final(self).wf(),
            final(self).all_timed(),
            final(self).running_pipelines == old(self).running_pipelines,
            final(self).cleanup_timeout == timeout,
            final(self).unused_pipelines@ == old(self).unused_pipelines@.filter(
                |p: PooledPlayBin| !expired(p, now, timeout),
            ),
            stopped@ == ids(
                old(self).unused_pipelines@.filter(|p: PooledPlayBin| expired(p, now, timeout)),
            ),
    {
        self.cleanup_timeout = timeout;
        self.cleanup(now)
    }

    /// Takes a pipeline back: it is in use no more, and the last of the unused ones.
    pub fn release(&mut self, pipeline: PooledPlayBin)
        requires
            old(self).wf(),
            !ids(old(self).unused_pipelines@).contains(pipeline.id),
        ensures
            final(self).wf(),
            taken_back(*old(self), *final(self), pipeline),
    {
        let ghost before = *self;
        let id: u64 = pipeline.id;
        let ghost same = |p: PooledPlayBin| p.id == id;
        let ghost others = |p: PooledPlayBin| !same(p);
        let is_same = |p: &PooledPlayBin| -> (r: bool)
            ensures
                r == (p.id == id),
        {
            p.id == id
        };
        let released = drain_where(&mut self.running_pipelines, is_same, Ghost(same));
        self.unused_pipelines.push(pipeline);
        proof {
            assert(others =~= (|p: PooledPlayBin| p.id != pipeline.id));
            lemma_filter_places(before.running_pipelines@, others);
            lemma_released_keeps_apart(before, *self, pipeline);
        }
    }
}

/// `place` tells where the items of `few` stand in `many`, in the same order.
spec fn is_thinning(
    many: Seq<PooledPlayBin>,
    few: Seq<PooledPlayBin>,
    place: spec_fn(int) -> int,
) -> bool {
    &&& forall|k: int|
        0 <= k < few.len() ==> 0 <= #[trigger] place(k) < many.len() && few[k] == many[place(k)]
    &&& forall|a: int, b: int| 0 <= a < b < few.len() ==> #[trigger] place(a) < #[trigger] place(b)
}

proof fn lemma_filter_places(s: Seq<PooledPlayBin>, keep: spec_fn(PooledPlayBin) -> bool)
    ensures
        exists|place: spec_fn(int) -> int| is_thinning(s, s.filter(keep), place),
        forall|k: int| 0 <= k < s.filter(keep).len() ==> keep(#[trigger] s.filter(keep)[k]),
    decreases s.len(),
{
    reveal(Seq::filter);
    if s.len() == 0 {
        assert(is_thinning(s, s.filter(keep), |k: int| k));
    } else {
        let shorter = s.drop_last();
        lemma_filter_places(shorter, keep);
        let place = choose|place: spec_fn(int) -> int|
            is_thinning(shorter, shorter.filter(keep), place);
        let n = shorter.filter(keep).len() as int;
        let longer = |k: int|
            if k < n {
                place(k)
            } else {
                s.len() - 1
            };
        assert(is_thinning(s, s.filter(keep), longer));
    }
}

proof fn lemma_thinned_keeps_apart(before: PlaybinPool, after: PlaybinPool)
    requires
        before.wf(),
        after.running_pipelines@ == before.running_pipelines@,
        exists|place: spec_fn(int) -> int|
            is_thinning(before.unused_pipelines@, after.unused_pipelines@, place),
    ensures
        after.wf(),
{
    let place = choose|place: spec_fn(int) -> int|
        is_thinning(before.unused_pipelines@, after.unused_pipelines@, place);
    let all = ids(before.running_pipelines@) + ids(before.unused_pipelines@);
    let few = ids(after.running_pipelines@) + ids(after.unused_pipelines@);
    let n = before.running_pipelines@.len() as int;
    let whole = |k: int|
        if k < n {
            k
        } else {
            n + place(k - n)
        };
    assert forall|a: int, b: int| 0 <= a < few.len() && 0 <= b < few.len() && a != b implies few[a]
        != few[b] by {
        assert(few[a] == all[whole(a)]);
        assert(few[b] == all[whole(b)]);
        assert(whole(a) != whole(b)) by {
            if a >= n && b >= n {
                if a < b {
                    assert(place(a - n) < place(b - n));
                } else {
                    assert(place(b - n) < place(a - n));
                }
            }
        }
    }
}

proof fn lemma_released_keeps_apart(
    before: PlaybinPool,
    after: PlaybinPool,
    pipeline: PooledPlayBin,
)
    requires
        before.wf(),
        !ids(before.unused_pipelines@).contains(pipeline.id),
        after.unused_pipelines@ == before.unused_pipelines@.push(pipeline),
        exists|place: spec_fn(int) -> int|
            is_thinning(before.running_pipelines@, after.running_pipelines@, place),
        forall|k: int|
            0 <= k < after.running_pipelines@.len() ==> (
            #[trigger] after.running_pipelines@[k]).id != pipeline.id,
    ensures
        after.wf(),
{
    let place = choose|place: spec_fn(int) -> int|
        is_thinning(before.running_pipelines@, after.running_pipelines@, place);
    let all = ids(before.running_pipelines@) + ids(before.unused_pipelines@);
    let some = ids(after.running_pipelines@) + ids(after.unused_pipelines@);
    let m = before.running_pipelines@.len() as int;
    let n = after.running_pipelines@.len() as int;
    let u = before.unused_pipelines@.len() as int;
    let whole = |k: int|
        if k < n {
            place(k)
        } else {
            m + (k - n)
        };
    assert forall|a: int, b: int| 0 <= a < b < some.len() implies some[a] != some[b] by {
        if b == n + u {
            assert(some[b] == pipeline.id);
            if a < n {
                assert(after.running_pipelines@[a].id != pipeline.id);
            } else {
                assert(some[a] == ids(before.unused_pipelines@)[a - n]);
            }
        } else {
            assert(some[a] == all[whole(a)]);
            assert(some[b] == all[whole(b)]);
            if b < n {
                assert(place(a) < place(b));
            }
            assert(whole(a) != whole(b));
        }
    }
}

pub open spec fn text_of_owned(s: Option<String>) -> Option<Seq<char>> {
    match s {
        Some(s) => Some(s@),
        None => None,
    }
}

proof fn lemma_moved_keeps_apart(running: Seq<u64>, unused: Seq<u64>, i: int)
    requires
        (running + unused).no_duplicates(),
        0 <= i < unused.len(),
    ensures
        (running.push(unused[i]) + unused.remove(i)).no_duplicates(),
{
    let all = running + unused;
    let moved = running.push(unused[i]) + unused.remove(i);
    let n = running.len() as int;
    let place = |k: int|
        if k < n {
            k
        } else if k == n {
            n + i
        } else if k - 1 < n + i {
            k - 1
        } else {
            k
        };
    assert forall|a: int, b: int| 0 <= a < moved.len() && 0 <= b < moved.len() && a != b implies
        moved[a] != moved[b] by {
        assert(moved[a] == all[place(a)]);
        assert(moved[b] == all[place(b)]);
        assert(place(a) != place(b));
    }
}

proof fn lemma_added_keeps_apart(running: Seq<u64>, unused: Seq<u64>, id: u64)
    requires
        (running + unused).no_duplicates(),
        !running.contains(id),
        !unused.contains(id),
    ensures
        (running.push(id) + unused).no_duplicates(),
{
    let all = running + unused;
    let more = running.push(id) + unused;
    let n = running.len() as int;
    assert forall|a: int, b: int| 0 <= a < more.len() && 0 <= b < more.len() && a != b implies more[a]
        != more[b] by {
        if a < n {
            assert(more[a] == running[a] && running[a] == all[a]);
        } else if a > n {
            assert(more[a] == unused[a - n - 1] && unused[a - n - 1] == all[a - 1]);
        }
        if b < n {
            assert(more[b] == running[b] && running[b] == all[b]);
        } else if b > n {
            assert(more[b] == unused[b - n - 1] && unused[b - n - 1] == all[b - 1]);
        }
    }
}

/// A pipeline that was taken back is used again for the stream that it served: whoever asks for
/// the same stream next gets it, or one that was there before it, and no new pipeline is made.
pub proof fn law_same_stream_reuses(
    first: PlaybinPool,
    second: PlaybinPool,
    third: PlaybinPool,
    pipeline: PooledPlayBin,
    fresh: u64,
    obtained: Obtained,
)
    requires
        pipeline.requested_stream_id is Some,
        taken_back(first, second, pipeline),
        got(
            second,
            third,
            text_of_owned(pipeline.requested_stream_id),
            fresh,
            obtained,
        ),
    ensures
        obtained is Reused,
        (forall|k: int|
            0 <= k < first.unused_pipelines.len() ==> !serves(
                #[trigger] first.unused_pipelines@[k],
                text_of_owned(pipeline.requested_stream_id),
            )) ==> obtained == Obtained::Reused(pipeline.id) && third.unused_pipelines@
            == first.unused_pipelines@,
{
    let stream_id = text_of_owned(pipeline.requested_stream_id);
    let n = first.unused_pipelines@.len() as int;
    assert(second.unused_pipelines@[n] == pipeline);
    assert(serves(second.unused_pipelines@[n], stream_id));
    assert(obtained is Reused);
    let i = choose|i: int|
        {
            &&& #[trigger] first_serving(second.unused_pipelines@, stream_id, i)
            &&& obtained->Reused_0 == second.unused_pipelines@[i].id
            &&& third.unused_pipelines@ == second.unused_pipelines@.remove(i)
        };
    if forall|k: int|
        0 <= k < first.unused_pipelines.len() ==> !serves(
            #[trigger] first.unused_pipelines@[k],
            stream_id,
        ) {
        if i < n {
            assert(second.unused_pipelines@[i] == first.unused_pipelines@[i]);
        }
        assert(i == n);
        assert(third.unused_pipelines@ =~= first.unused_pipelines@);
    }
}

/// An unused pipeline waits for exactly as many seconds as the timeout has, and is stopped with the
/// next nanosecond; once it may be stopped it may be later on too, and one that came in earlier may
/// be before it.
pub proof fn law_pipelines_wait_for_the_timeout(
    pipeline: PooledPlayBin,
    other: PooledPlayBin,
    now: u64,
    later: u64,
    timeout: u64,
)
    requires
        pipeline.unused_since is Some,
        other.unused_since is Some,
        now <= later,
    ensures
        now == pipeline.unused_since->0 + timeout * 1_000_000_000 ==> !expired(pipeline, now, timeout),
        now == pipeline.unused_since->0 + timeout * 1_000_000_000 + 1 ==> expired(
            pipeline,
            now,
            timeout,
        ),
        expired(pipeline, now, timeout) ==> expired(pipeline, later, timeout),
        expired(pipeline, now, timeout) && other.unused_since->0 <= pipeline.unused_since->0
            ==> expired(other, now, timeout),
        now <= pipeline.unused_since->0 ==> !expired(pipeline, now, timeout),
{
}

/// A pipeline serves exactly the stream that it was asked for; one that was asked for none serves
/// none, and where no stream is named none serves.
pub proof fn law_pipelines_serve_their_stream(pipeline: PooledPlayBin, stream_id: Option<Seq<char>>)
    ensures
        serves(pipeline, stream_id) <==> stream_id is Some && text_of_owned(
            pipeline.requested_stream_id,
        ) == stream_id,
        !serves(pipeline, None),
{
}

/// Getting a pipeline takes it from the unused ones where one of them serves the stream, the first
/// that does, and leaves the others in their order; it makes a new one exactly where none does. Those
/// in use stay as they are, and the one that was got is behind them, for the stream, and used.
pub proof fn law_getting_takes_the_first_that_serves(
    before: PlaybinPool,
    after: PlaybinPool,
    stream_id: Option<Seq<char>>,
    fresh: u64,
    obtained: Obtained,
    k: int,
)
    requires
        got(before, after, stream_id, fresh, obtained),
        0 <= k < before.unused_pipelines@.len(),
    ensures
        text_of_owned(before.unused_pipelines@[k].requested_stream_id) == stream_id && stream_id is Some
            ==> obtained is Reused && after.unused_pipelines@.len() + 1
            == before.unused_pipelines@.len(),
        obtained is New ==> after.unused_pipelines@ == before.unused_pipelines@ && obtained
            == Obtained::New(fresh),
        stream_id is None ==> obtained is New,
        obtained matches Obtained::Reused(id) ==> ids(before.unused_pipelines@).contains(id),
        after.running_pipelines@.len() == before.running_pipelines@.len() + 1,
        after.running_pipelines@.last().id == match obtained {
            Obtained::Reused(id) => id,
            Obtained::New(id) => id,
        },
        text_of_owned(after.running_pipelines@.last().requested_stream_id) == stream_id,
        after.running_pipelines@.last().unused_since is None,
        forall|i: int|
            0 <= i < before.running_pipelines@.len() ==> #[trigger] after.running_pipelines@[i]
                == before.running_pipelines@[i],
{
    let candidate = before.unused_pipelines@[k];
    if let Obtained::Reused(id) = obtained {
        let i = choose|i: int|
            {
                &&& #[trigger] first_serving(before.unused_pipelines@, stream_id, i)
                &&& id == before.unused_pipelines@[i].id
                &&& after.unused_pipelines@ == before.unused_pipelines@.remove(i)
            };
        assert(ids(before.unused_pipelines@)[i] == id);
    } else if serves(candidate, stream_id) {
        assert(!serves(before.unused_pipelines@[k], stream_id));
    }
    assert forall|i: int| 0 <= i < before.running_pipelines@.len() implies #[trigger] after.running_pipelines@[i]
        == before.running_pipelines@[i] by {
        assert(after.running_pipelines@.drop_last()[i] == before.running_pipelines@[i]);
    }
}

/// Taking a pipeline back ends its use and nobody else's: those in use are the same but for it, in
/// their order, and the unused ones have it at their end.
pub proof fn law_taking_back_ends_one_use(
    before: PlaybinPool,
    after: PlaybinPool,
    pipeline: PooledPlayBin,
    other: PooledPlayBin,
)
    requires
        taken_back(before, after, pipeline),
    ensures
        !ids(after.running_pipelines@).contains(pipeline.id),
        other.id != pipeline.id && before.running_pipelines@.contains(other)
            ==> after.running_pipelines@.contains(other),
        after.running_pipelines@.contains(other) ==> before.running_pipelines@.contains(other),
        after.unused_pipelines@.last() == pipeline,
        after.unused_pipelines@.drop_last() == before.unused_pipelines@,
{
    let keep = |p: PooledPlayBin| p.id != pipeline.id;
    let all = before.running_pipelines@;
    lemma_filter_places(all, keep);
    if ids(after.running_pipelines@).contains(pipeline.id) {
        let k = choose|k: int|
            0 <= k < ids(after.running_pipelines@).len() && ids(after.running_pipelines@)[k]
                == pipeline.id;
        assert(keep(all.filter(keep)[k]));
    }
    if after.running_pipelines@.contains(other) {
        let place = choose|place: spec_fn(int) -> int| is_thinning(all, all.filter(keep), place);
        let k = choose|k: int|
            0 <= k < after.running_pipelines@.len() && after.running_pipelines@[k] == other;
        assert(all[place(k)] == other);
    }
    if all.contains(other) && keep(other) {
        lemma_kept(all, keep, other);
    }
    assert(after.unused_pipelines@.drop_last() =~= before.unused_pipelines@);
}

proof fn lemma_kept(
    s: Seq<PooledPlayBin>,
    keep: spec_fn(PooledPlayBin) -> bool,
    item: PooledPlayBin,
)
    requires
        s.contains(item),
        keep(item),
    ensures
        s.filter(keep).contains(item),
    decreases s.len(),
{
    reveal(Seq::filter);
    let shorter = s.drop_last();
    let few = shorter.filter(keep);
    if s.last() == item {
        assert(few.push(item)[few.len() as int] == item);
    } else {
        let k = choose|k: int| 0 <= k < s.len() && s[k] == item;
        assert(shorter[k] == item);
        lemma_kept(shorter, keep, item);
        let i = choose|i: int| 0 <= i < few.len() && few[i] == item;
        assert(few.push(s.last())[i] == item);
    }
}

} // verus!

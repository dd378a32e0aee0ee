//! What holds of a source over many calls.

use super::source::{AfterPull, BeforePull, FlowError, Pulled, Segment, SourceState, Wanted};
use vstd::prelude::*;

verus! {

/// One pull: what was wanted, what came, and whether the selected stream had started by then.
pub struct Round {
    pub wanted: Wanted,
    pub pulled: Pulled,
    pub started: bool,
}

/// The state after a number of pulls.
pub open spec fn after_rounds(state: SourceState, rounds: Seq<Round>) -> SourceState
    decreases rounds.len(),
{
    if rounds.len() == 0 {
        state
    } else {
        let before = after_rounds(state, rounds.drop_last());
        let round = rounds.last();
        super::source::after_pull_spec(before, round.wanted, round.pulled, round.started).0
    }
}

/// What the last of a number of pulls leads to.
pub open spec fn last_reaction(state: SourceState, rounds: Seq<Round>) -> AfterPull
    recommends
        rounds.len() > 0,
{
    let before = after_rounds(state, rounds.drop_last());
    let round = rounds.last();
    super::source::after_pull_spec(before, round.wanted, round.pulled, round.started).1
}

/// Whether the flush with a sequence number is among the pulls.
pub open spec fn flushed(rounds: Seq<Round>, seqnum: u32) -> bool {
    exists|i: int| 0 <= i < rounds.len() && #[trigger] rounds[i].pulled == (Pulled::FlushStop {
        seqnum,
    })
}

proof fn lemma_flush_is_awaited(state: SourceState, seqnum: u32, rounds: Seq<Round>)
    requires
        state.seek_seqnum == Some(seqnum),
        !flushed(rounds, seqnum),
    ensures
        after_rounds(state, rounds).seek_seqnum == Some(seqnum),
    decreases rounds.len(),
{
    if rounds.len() > 0 {
        let shorter = rounds.drop_last();
        assert(!flushed(shorter, seqnum)) by {
            if flushed(shorter, seqnum) {
                let i = choose|i: int|
                    0 <= i < shorter.len() && #[trigger] shorter[i].pulled == (Pulled::FlushStop {
                        seqnum,
                    });
                assert(rounds[i].pulled == (Pulled::FlushStop { seqnum }));
            }
        }
        lemma_flush_is_awaited(state, seqnum, shorter);
        assert(rounds[rounds.len() - 1] == rounds.last());
    }
}

/// After a flushing seek no sample from before it is handed out, and the end of the stream is not
/// announced: both wait for the flush that answers the seek, however many pulls that takes.
pub proof fn law_nothing_is_handed_out_before_the_flush(
    state: SourceState,
    seqnum: u32,
    rounds: Seq<Round>,
)
    requires
        state.seek_seqnum == Some(seqnum),
        rounds.len() > 0,
        !flushed(rounds, seqnum),
    ensures
        last_reaction(state, rounds) != AfterPull::GiveSample,
        last_reaction(state, rounds) != AfterPull::Fail(FlowError::Eos),
        !(last_reaction(state, rounds) is PushSegmentAndFail),
{
    let shorter = rounds.drop_last();
    assert(!flushed(shorter, seqnum)) by {
        if flushed(shorter, seqnum) {
            let i = choose|i: int|
                0 <= i < shorter.len() && #[trigger] shorter[i].pulled == (Pulled::FlushStop {
                    seqnum,
                });
            assert(rounds[i].pulled == (Pulled::FlushStop { seqnum }));
        }
    }
    lemma_flush_is_awaited(state, seqnum, shorter);
}

/// The flush that answers a seek ends the wait at once, and samples flow again.
pub proof fn law_samples_flow_after_the_flush(state: SourceState, seqnum: u32)
    requires
        state.seek_seqnum == Some(seqnum),
    ensures
        after_rounds(
            state,
            seq![Round {
                wanted: Wanted::Sample,
                pulled: Pulled::FlushStop { seqnum },
                started: true,
            }],
        ) == (SourceState { seek_seqnum: None, ..state }),
        super::source::after_pull_spec(
            SourceState { seek_seqnum: None, ..state },
            Wanted::Sample,
            Pulled::Sample,
            true,
        ).1 == AfterPull::GiveSample,
{
    let rounds = seq![
        Round { wanted: Wanted::Sample, pulled: Pulled::FlushStop { seqnum }, started: true },
    ];
    assert(rounds.drop_last() =~= Seq::empty());
    reveal_with_fuel(after_rounds, 2);
}

/// While the source flushes, a round hands nothing out: it ends before the pull.
pub proof fn law_flushing_ends_a_round(
    state: SourceState,
    wanted: Wanted,
    started: bool,
    has_caps: bool,
    has_segment: bool,
)
    requires
        state.flushing,
    ensures
        super::source::before_pull_spec(state, wanted, started, has_caps, has_segment)
            == BeforePull::Fail(FlowError::Flushing),
{
}

/// Pulls touch nothing but the awaited flush and the segment.
pub proof fn law_pulls_keep_the_rest(state: SourceState, rounds: Seq<Round>)
    ensures
        ({
            let after = after_rounds(state, rounds);
            after == SourceState {
                seek_seqnum: after.seek_seqnum,
                segment: after.segment,
                ..state
            }
        }),
    decreases rounds.len(),
{
    if rounds.len() > 0 {
        law_pulls_keep_the_rest(state, rounds.drop_last());
    }
}

/// At the end of a stream that has not sent its segment yet, the segment on the sink's pad, or
/// else that of the seek, goes out before the end is announced.
pub proof fn law_segment_precedes_the_end(
    state: SourceState,
    wanted: Wanted,
    sticky_segment: Option<Segment>,
    started: bool,
)
    requires
        state.needs_segment,
        state.seek_seqnum is None,
        sticky_segment is Some || state.seek_segment is Some,
    ensures
        super::source::after_pull_spec(
            state,
            wanted,
            Pulled::Nothing { eos: true, sticky_segment },
            started,
        ).1 == (AfterPull::PushSegmentAndFail {
            segment: if sticky_segment is Some {
                sticky_segment->0
            } else {
                state.seek_segment->0
            },
            error: FlowError::Eos,
        }),
{
}

/// What a pull leads to, whatever was remembered: tags go on, and events that mean nothing are passed
/// over. A sample is handed out exactly where one was wanted, the selected stream has started and no
/// flush is awaited; caps are handed out where they were wanted and set where they were not, and not
/// before the stream has started.
pub proof fn law_objects_go_where_they_are_wanted(
    state: SourceState,
    wanted: Wanted,
    pulled: Pulled,
    started: bool,
)
    ensures
        ({
            let r = super::source::after_pull_spec(state, wanted, pulled, started).1;
            &&& r == AfterPull::GiveSample <==> pulled == Pulled::Sample && wanted == Wanted::Sample
                && started && state.seek_seqnum is None
            &&& r == AfterPull::ForwardTag <==> pulled == Pulled::Tag
            &&& r is GiveCaps <==> pulled is Caps && started && wanted == Wanted::Caps
            &&& r is SetCaps <==> pulled is Caps && started && wanted != Wanted::Caps
            &&& r matches AfterPull::GiveCaps { caps } ==> pulled == (Pulled::Caps { caps })
            &&& r matches AfterPull::SetCaps { caps } ==> pulled == (Pulled::Caps { caps })
            &&& r is Fail || r is PushSegmentAndFail ==> pulled is Nothing
        }),
{
}

/// When nothing comes: a source goes on waiting, unless it flushes; at the end of the stream it tells
/// the end, with a segment first where it owes one and knows one, unless it waits for a flush. What
/// it owes is the segment on the sink, or else that of the seek, and it is remembered.
pub proof fn law_the_end_is_told_once_nothing_is_awaited(
    state: SourceState,
    wanted: Wanted,
    eos: bool,
    sticky: Option<Segment>,
    started: bool,
)
    ensures
        ({
            let pulled = Pulled::Nothing { eos, sticky_segment: sticky };
            let (after, r) = super::source::after_pull_spec(state, wanted, pulled, started);
            let known = sticky is Some || state.seek_segment is Some;
            &&& !eos && state.flushing ==> r == AfterPull::Fail(FlowError::Flushing)
            &&& !eos && !state.flushing ==> r == AfterPull::Continue
            &&& eos && state.seek_seqnum is Some ==> r == AfterPull::Continue
            &&& eos && state.seek_seqnum is None ==> {
                &&& r is PushSegmentAndFail <==> state.needs_segment && known
                &&& !(r is PushSegmentAndFail) ==> r == AfterPull::Fail(FlowError::Eos) && after
                    == state
            }
            &&& r matches AfterPull::PushSegmentAndFail { segment, error } ==> {
                &&& error == FlowError::Eos
                &&& after.segment == Some(segment)
                &&& sticky is Some ==> sticky == Some(segment)
                &&& sticky is None ==> state.seek_segment == Some(segment)
            }
        }),
{
}

/// Only the flush with the awaited number ends a wait; any other leaves everything as it is.
pub proof fn law_other_flushes_do_not_end_the_wait(
    state: SourceState,
    wanted: Wanted,
    seqnum: u32,
    started: bool,
)
    ensures
        ({
            let (after, r) = super::source::after_pull_spec(
                state,
                wanted,
                Pulled::FlushStop { seqnum },
                started,
            );
            &&& r == AfterPull::Continue
            &&& state.seek_seqnum == Some(seqnum) ==> after.seek_seqnum is None
            &&& state.seek_seqnum != Some(seqnum) ==> after == state
        }),
{
}

/// Before a pull, what is wanted is handed out at once exactly where it is there already, the stream
/// has started and no flush is awaited; a sample never is, and while flushing nothing is.
pub proof fn law_what_is_there_is_handed_out(
    state: SourceState,
    wanted: Wanted,
    started: bool,
    has_caps: bool,
    has_segment: bool,
)
    ensures
        ({
            let r = super::source::before_pull_spec(state, wanted, started, has_caps, has_segment);
            let ready = !state.flushing && started && state.seek_seqnum is None;
            &&& r == BeforePull::GiveCaps <==> ready && wanted == Wanted::Caps && has_caps
            &&& r == BeforePull::GiveSegment <==> ready && wanted == Wanted::Segment && has_segment
            &&& r is Fail <==> state.flushing
            &&& wanted == Wanted::Sample && !state.flushing ==> r == BeforePull::Pull
        }),
{
}

/// A stream has started exactly where one is selected and it is the one on the sink.
pub proof fn law_streams_start_under_their_own_id(selected: Option<Seq<char>>, current: Option<Seq<char>>)
    ensures
        super::source::stream_started(selected, current) <==> selected is Some && current is Some
            && selected->0 == current->0,
{
}

} // verus!

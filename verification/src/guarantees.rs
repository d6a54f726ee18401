//! What holds of the dispatcher over whole runs of frames.

use vstd::prelude::*;
use crate::client::{
    complete,
    kind_of,
    outcome,
    receive_outcome,
    receive_state,
    replay,
    replay_frames,
    state_after,
    ClientView,
    DeliveryView,
    Kind,
};
use crate::frame::{read_frame_spec, FrameError, FrameView};
use crate::roster::remove_first;

verus! {

/// A change of presence: somebody arrives, or somebody leaves.
pub enum RosterEvent {
    Arrive(Seq<char>),
    Depart(Seq<char>),
}

/// The roster after one change: an arrival is appended, a departure takes
/// out the first occurrence of the name, if there is one.
pub open spec fn apply_event(roster: Seq<Seq<char>>, event: RosterEvent) -> Seq<Seq<char>> {
    match event {
        RosterEvent::Arrive(name) => roster.push(name),
        RosterEvent::Depart(name) => remove_first(roster, name),
    }
}

/// The roster after the changes, one after the other.
pub open spec fn simulate(roster: Seq<Seq<char>>, events: Seq<RosterEvent>) -> Seq<Seq<char>>
    decreases events.len(),
{
    if events.len() == 0 {
        roster
    } else {
        apply_event(simulate(roster, events.drop_last()), events.last())
    }
}

/// The frame is the `onlineAdd` or `onlineRemove` frame of that change.
pub open spec fn announces(frame: FrameView, event: RosterEvent) -> bool {
    match event {
        RosterEvent::Arrive(name) => kind_of(frame) == Kind::OnlineAdd && frame.nick == Some(name),
        RosterEvent::Depart(name) => kind_of(frame) == Kind::OnlineRemove && frame.nick == Some(
            name,
        ),
    }
}

/// Replaying any sequence of `onlineAdd` and `onlineRemove` frames leaves
/// the roster that appending and removing the first occurrence, in the same
/// order, give. Nothing else of the client changes.
pub proof fn roster_follows_events(
    state: ClientView,
    frames: Seq<FrameView>,
    events: Seq<RosterEvent>,
)
    requires
        frames.len() == events.len(),
        forall|i: int| 0 <= i < frames.len() ==> announces(#[trigger] frames[i], events[i]),
    ensures
        replay_frames(state, frames) == (ClientView {
            roster: simulate(state.roster, events),
            ..state
        }),
    decreases frames.len(),
{
    if frames.len() > 0 {
        roster_follows_events(state, frames.drop_last(), events.drop_last());
        assert(announces(frames[frames.len() - 1], events[frames.len() - 1]));
    }
}

/// Receiving texts that are all read as frames is dispatching those frames.
pub proof fn replay_dispatches_the_frames_read(
    state: ClientView,
    texts: Seq<Seq<char>>,
    frames: Seq<FrameView>,
)
    requires
        texts.len() == frames.len(),
        forall|i: int|
            0 <= i < texts.len() ==> read_frame_spec(#[trigger] texts[i]) == Ok::<
                FrameView,
                FrameError,
            >(frames[i]),
    ensures
        replay(state, texts) == replay_frames(state, frames),
    decreases texts.len(),
{
    if texts.len() > 0 {
        replay_dispatches_the_frames_read(state, texts.drop_last(), frames.drop_last());
        assert(read_frame_spec(texts[texts.len() - 1]) == Ok::<FrameView, FrameError>(
            frames[texts.len() - 1],
        ));
    }
}

/// An `onlineSet` frame with a list of names replaces the roster by that
/// list, whatever the roster was.
pub proof fn snapshot_replaces_roster(state: ClientView, frame: FrameView, list: Seq<Seq<char>>)
    requires
        kind_of(frame) == Kind::OnlineSet,
        frame.nicks == Some(list),
    ensures
        state_after(state, frame).roster == list,
        outcome(state, frame) == Ok::<DeliveryView, FrameError>(
            DeliveryView { event: None, observers: Seq::empty() },
        ),
{
}

/// A chat frame under the client's own name reaches no observer.
pub proof fn own_chat_reaches_no_observer(state: ClientView, frame: FrameView)
    requires
        kind_of(frame) == Kind::Chat,
        frame.nick == Some(state.nick),
    ensures
        match outcome(state, frame) {
            Ok(delivery) => delivery.event.is_none() && delivery.observers.len() == 0,
            Err(_) => true,
        },
        complete(frame) ==> outcome(state, frame).is_ok(),
        state_after(state, frame) == state,
{
}

/// A text that is reported as an error is contained: it changes nothing, and
/// whatever is received after it is handled as if it had not come.
pub proof fn bad_text_is_contained(
    state: ClientView,
    before: Seq<Seq<char>>,
    bad: Seq<char>,
    after: Seq<Seq<char>>,
)
    requires
        receive_outcome(replay(state, before), bad).is_err(),
    ensures
        receive_state(replay(state, before), bad) == replay(state, before),
        replay(state, before.push(bad) + after) == replay(state, before + after),
        forall|next: Seq<char>|
            receive_outcome(replay(state, before.push(bad) + after), next) == receive_outcome(
                replay(state, before + after),
                next,
            ),
    decreases after.len(),
{
    if after.len() == 0 {
        assert(before.push(bad) + after =~= before.push(bad));
        assert(before + after =~= before);
        assert(before.push(bad).drop_last() =~= before);
    } else {
        bad_text_is_contained(state, before, bad, after.drop_last());
        assert((before.push(bad) + after).drop_last() =~= before.push(bad) + after.drop_last());
        assert((before + after).drop_last() =~= before + after.drop_last());
    }
}

} // verus!

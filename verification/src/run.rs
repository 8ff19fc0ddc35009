//! Whole runs: what holds of every sequence of events, whatever the
//! registry answers and whatever the driver reports.

use vstd::prelude::*;
use crate::error::RuntimeErrorView;
use crate::layer::gzip_member;
use crate::manifest::{lemma_entries_for_empty, offers, ManifestInListView};
use crate::pipeline::{ActionView, EventView, Phase, PipelineView};
use crate::pull::{PullActionView, PullEventView, PullStage, PullStateView};
use crate::registry::layer_request;
use crate::sandbox::SandboxState;

verus! {

/// The state that a run reaches from `start` through `events`.
pub open spec fn state_after(start: PipelineView, events: Seq<EventView>) -> PipelineView
    decreases events.len(),
{
    if events.len() == 0 {
        start
    } else {
        state_after(start, events.drop_last()).next(events.last()).0
    }
}

/// The state in which the event at position `i` arrives.
pub open spec fn state_before(start: PipelineView, events: Seq<EventView>, i: int) -> PipelineView {
    state_after(start, events.take(i))
}

/// The action that answers the event at position `i`.
pub open spec fn action_at(start: PipelineView, events: Seq<EventView>, i: int) -> ActionView {
    state_before(start, events, i).next(events[i]).1
}

/// A run that has not begun: nothing pulled, nothing isolated.
pub open spec fn fresh(start: PipelineView) -> bool {
    &&& start.phase == Phase::Pulling
    &&& start.pull == PullStateView::initial()
    &&& start.sandbox == SandboxState::Unisolated
}

/// Whether `e`, arriving in state `s`, reports a layer that was unpacked
/// and that the pull was waiting for.
pub open spec fn accepts_unpacked(s: PipelineView, e: EventView) -> bool {
    &&& s.phase == Phase::Pulling
    &&& s.pull.stage == PullStage::Unpacking
    &&& s.pull.index < s.pull.layers.len()
    &&& e == EventView::Pull(PullEventView::Unpacked(true))
}

/// The number of layers that a run has unpacked.
pub open spec fn layers_unpacked(start: PipelineView, events: Seq<EventView>) -> nat
    decreases events.len(),
{
    if events.len() == 0 {
        0
    } else {
        let earlier = layers_unpacked(start, events.drop_last());
        if accepts_unpacked(state_after(start, events.drop_last()), events.last()) {
            earlier + 1
        } else {
            earlier
        }
    }
}

/// Whether an action asks for a layer's blob.
pub open spec fn fetches_layer(action: ActionView) -> bool {
    action matches ActionView::Pull(PullActionView::FetchLayer(_))
}

/// Whether an action hands an archive out for unpacking.
pub open spec fn unpacks(action: ActionView) -> bool {
    action matches ActionView::Pull(PullActionView::Unpack(_))
}

/// Whether an action belongs to the sandbox or to the command: an
/// isolation step, or the command's start.
pub open spec fn enters_sandbox(action: ActionView) -> bool {
    action is Isolate || action is Spawn
}

/// Whether an event by itself reports that something went wrong. The
/// report of an isolation step is not among these: whether its failure
/// matters depends on the step.
pub open spec fn reports_failure(e: EventView) -> bool {
    match e {
        EventView::Pull(PullEventView::Token(Err(_))) => true,
        EventView::Pull(PullEventView::ManifestList(Err(_))) => true,
        EventView::Pull(PullEventView::Manifest(Err(_))) => true,
        EventView::Pull(PullEventView::LayerBlob(Err(_))) => true,
        EventView::Pull(PullEventView::Unpacked(false)) => true,
        EventView::SpawnFailed => true,
        _ => false,
    }
}

/// The place of a pull's stage in the order in which stages are passed.
/// Fetching and unpacking alternate, and share a place.
pub open spec fn stage_rank(stage: PullStage) -> nat {
    match stage {
        PullStage::Start => 0,
        PullStage::Authenticating => 1,
        PullStage::ListingManifests => 2,
        PullStage::FetchingManifest => 3,
        PullStage::FetchingLayer => 4,
        PullStage::Unpacking => 4,
        PullStage::Pulled => 5,
        PullStage::Failed => 6,
    }
}

/// The state after the event at position `i` is the answer to that event in
/// the state before it.
pub proof fn lemma_state_after_step(start: PipelineView, events: Seq<EventView>, i: int)
    requires
        0 <= i < events.len(),
    ensures
        state_after(start, events.take(i + 1)) == state_before(start, events, i).next(events[i]).0,
        layers_unpacked(start, events.take(i + 1)) == layers_unpacked(start, events.take(i)) + (
        if accepts_unpacked(state_before(start, events, i), events[i]) {
            1nat
        } else {
            0nat
        }),
{
    assert(events.take(i + 1).drop_last() =~= events.take(i));
    assert(events.take(i + 1).last() == events[i]);
}

/// A failure ends the run: the state that follows is the failed one, and
/// in the failed state every event is answered with a failure.
pub proof fn lemma_failure_ends_run(s: PipelineView, e: EventView)
    ensures
        s.next(e).1 is Fail <==> s.next(e).0.phase == Phase::Failed,
        s.phase == Phase::Failed ==> s.next(e) == s.failed(RuntimeErrorView::OutOfOrder),
{
}

/// An event that reports a failure is answered with a failure, in every
/// state.
pub proof fn lemma_reported_failure_fails(s: PipelineView, e: EventView)
    requires
        reports_failure(e),
    ensures
        s.next(e).1 is Fail,
{
}

/// Once an action of a run is a failure, every later action is one: the
/// run asks for nothing more.
pub proof fn lemma_failure_is_final(start: PipelineView, events: Seq<EventView>, i: int, j: int)
    requires
        0 <= i <= j < events.len(),
        action_at(start, events, i) is Fail,
    ensures
        action_at(start, events, j) is Fail,
        state_after(start, events.take(j + 1)).phase == Phase::Failed,
    decreases j - i,
{
    lemma_state_after_step(start, events, j);
    lemma_failure_ends_run(state_before(start, events, j), events[j]);
    if i < j {
        lemma_failure_is_final(start, events, i, j - 1);
    }
}

/// The sandbox is never entered after a layer failed to unpack: from the
/// report of the failure on, every action of the run is a failure, so
/// none is an isolation step or the command's start.
pub proof fn lemma_failed_unpack_prevents_isolation(
    start: PipelineView,
    events: Seq<EventView>,
    i: int,
    j: int,
)
    requires
        0 <= i <= j < events.len(),
        events[i] == EventView::Pull(PullEventView::Unpacked(false)),
    ensures
        action_at(start, events, j) is Fail,
        !enters_sandbox(action_at(start, events, j)),
{
    lemma_reported_failure_fails(state_before(start, events, i), events[i]);
    lemma_failure_is_final(start, events, i, j);
}

/// The same holds of every reported failure: whatever is reported as
/// failed, the run asks for nothing after it.
pub proof fn lemma_reported_failure_is_final(
    start: PipelineView,
    events: Seq<EventView>,
    i: int,
    j: int,
)
    requires
        0 <= i <= j < events.len(),
        reports_failure(events[i]),
    ensures
        action_at(start, events, j) is Fail,
{
    lemma_reported_failure_fails(state_before(start, events, i), events[i]);
    lemma_failure_is_final(start, events, i, j);
}

/// What holds of the state that a fresh run has reached, and of the
/// number of layers that it has unpacked on the way.
pub open spec fn consistent(start: PipelineView, s: PipelineView, unpacked: nat) -> bool {
    &&& s.registry == start.registry
    &&& s.platform == start.platform
    &&& s.command == start.command
    &&& s.args == start.args
    &&& s.pull.wf()
    &&& match s.phase {
        Phase::Pulling => s.sandbox == SandboxState::Unisolated && s.pull.stage != PullStage::Pulled
            && s.pull.stage != PullStage::Failed,
        Phase::Isolating => s.pull.stage == PullStage::Pulled && s.sandbox
            != SandboxState::NamespaceDetached,
        Phase::Running => s.pull.stage == PullStage::Pulled && s.sandbox
            == SandboxState::NamespaceDetached,
        Phase::Finished => s.pull.stage == PullStage::Pulled && s.sandbox
            == SandboxState::NamespaceDetached,
        Phase::Failed => true,
    }
    &&& s.phase != Phase::Failed ==> match s.pull.stage {
        PullStage::FetchingLayer => unpacked == s.pull.index,
        PullStage::Unpacking => unpacked == s.pull.index,
        PullStage::Pulled => unpacked == s.pull.layers.len(),
        _ => unpacked == 0,
    }
}

/// One step keeps a run consistent.
pub proof fn lemma_step_is_consistent(
    start: PipelineView,
    s: PipelineView,
    unpacked: nat,
    e: EventView,
)
    requires
        consistent(start, s, unpacked),
    ensures
        consistent(
            start,
            s.next(e).0,
            if accepts_unpacked(s, e) {
                unpacked + 1
            } else {
                unpacked
            },
        ),
{
}

/// Every state of a fresh run is consistent.
pub proof fn lemma_run_is_consistent(start: PipelineView, events: Seq<EventView>)
    requires
        fresh(start),
    ensures
        consistent(start, state_after(start, events), layers_unpacked(start, events)),
    decreases events.len(),
{
    if events.len() > 0 {
        lemma_run_is_consistent(start, events.drop_last());
        lemma_step_is_consistent(
            start,
            state_after(start, events.drop_last()),
            layers_unpacked(start, events.drop_last()),
            events.last(),
        );
    }
}

/// The sandbox is entered only after a complete pull: when an action of a
/// fresh run is an isolation step or the command's start, the manifest had
/// at least one layer, each of its layers has been unpacked, no layer
/// failed to unpack, and no earlier action was a failure.
pub proof fn lemma_isolation_follows_complete_pull(
    start: PipelineView,
    events: Seq<EventView>,
    i: int,
)
    requires
        fresh(start),
        0 <= i < events.len(),
        enters_sandbox(action_at(start, events, i)),
    ensures
        state_after(start, events.take(i + 1)).pull.stage == PullStage::Pulled,
        state_after(start, events.take(i + 1)).pull.layers.len() > 0,
        layers_unpacked(start, events.take(i + 1)) == state_after(
            start,
            events.take(i + 1),
        ).pull.layers.len(),
        forall|k: int| 0 <= k <= i ==> !(action_at(start, events, k) is Fail),
        forall|k: int|
            0 <= k <= i ==> events[k] != EventView::Pull(PullEventView::Unpacked(false)),
{
    lemma_state_after_step(start, events, i);
    lemma_run_is_consistent(start, events.take(i));
    lemma_run_is_consistent(start, events.take(i + 1));
    assert forall|k: int| 0 <= k <= i implies !(action_at(start, events, k) is Fail) by {
        if action_at(start, events, k) is Fail {
            lemma_failure_is_final(start, events, k, i);
        }
    }
    assert forall|k: int| 0 <= k <= i implies events[k] != EventView::Pull(
        PullEventView::Unpacked(false),
    ) by {
        if events[k] == EventView::Pull(PullEventView::Unpacked(false)) {
            lemma_failed_unpack_prevents_isolation(start, events, k, i);
        }
    }
}

/// The sandbox is built in its one order, and the command starts only in
/// the finished sandbox: whenever a fresh run asks for an isolation step,
/// it is the step that is due in the state reached; whenever it starts the
/// command, the root has been changed, the working directory and the
/// device are in place, the detaching of the namespace has been attempted,
/// and the command and its arguments are those that were asked for.
pub proof fn lemma_sandbox_is_built_in_order(
    start: PipelineView,
    events: Seq<EventView>,
    i: int,
)
    requires
        fresh(start),
        0 <= i < events.len(),
    ensures
        action_at(start, events, i) matches ActionView::Isolate(step) ==> {
            &&& state_after(start, events.take(i + 1)).phase == Phase::Isolating
            &&& state_after(start, events.take(i + 1)).sandbox.pending() == Some(step)
        },
        action_at(start, events, i) matches ActionView::Spawn { command, args, detached } ==> {
            &&& state_after(start, events.take(i + 1)).phase == Phase::Running
            &&& state_after(start, events.take(i + 1)).sandbox == SandboxState::NamespaceDetached
            &&& state_before(start, events, i).sandbox == SandboxState::DeviceEnsured
            &&& command == start.command
            &&& args == start.args
        },
{
    lemma_state_after_step(start, events, i);
    lemma_run_is_consistent(start, events.take(i));
    lemma_run_is_consistent(start, events.take(i + 1));
}

/// Layers are fetched in the manifest's order, one after each unpacked
/// layer: whenever a fresh run asks for a blob, it is the blob of the
/// layer whose position is the number of layers unpacked so far.
pub proof fn lemma_layers_are_fetched_in_order(
    start: PipelineView,
    events: Seq<EventView>,
    i: int,
)
    requires
        fresh(start),
        0 <= i < events.len(),
        fetches_layer(action_at(start, events, i)),
    ensures
        ({
            let s = state_after(start, events.take(i + 1));
            let done = layers_unpacked(start, events.take(i + 1));
            &&& done < s.pull.layers.len()
            &&& s.pull.index == done
            &&& action_at(start, events, i) == ActionView::Pull(
                PullActionView::FetchLayer(
                    layer_request(start.registry, s.pull.token, s.pull.layers[done as int].digest),
                ),
            )
        }),
{
    lemma_state_after_step(start, events, i);
    lemma_run_is_consistent(start, events.take(i));
    lemma_run_is_consistent(start, events.take(i + 1));
}

/// What is unpacked is the decompressed blob of the layer that was asked
/// for, and only a blob of the declared size: whenever a fresh run hands
/// out an archive, the event that it answers is the blob of the current
/// layer, the blob has the layer's declared size, and the archive is its
/// decompression.
pub proof fn lemma_unpacked_archive_is_checked_blob(
    start: PipelineView,
    events: Seq<EventView>,
    i: int,
)
    requires
        fresh(start),
        0 <= i < events.len(),
        unpacks(action_at(start, events, i)),
    ensures
        ({
            let s = state_before(start, events, i);
            &&& s.pull.index == layers_unpacked(start, events.take(i))
            &&& s.pull.index < s.pull.layers.len()
            &&& events[i] matches EventView::Pull(PullEventView::LayerBlob(Ok(blob)))
            &&& blob.len() == s.pull.layers[s.pull.index as int].size
            &&& gzip_member(blob) matches Some(archive)
            &&& action_at(start, events, i) == ActionView::Pull(PullActionView::Unpack(archive))
        }),
{
    lemma_run_is_consistent(start, events.take(i));
}

/// A stage of the pull is never gone back to: a step leaves the stage's
/// place where it is or moves it forward. A blob is asked for only on
/// entering the stage in which it is awaited.
pub proof fn lemma_stages_move_forward(s: PipelineView, e: EventView)
    ensures
        stage_rank(s.pull.stage) <= stage_rank(s.next(e).0.pull.stage),
        fetches_layer(s.next(e).1) ==> s.next(e).0.pull.stage == PullStage::FetchingLayer,
{
}

/// The stage that a run is in was not passed earlier in the run.
pub proof fn lemma_earlier_stage_is_not_later(
    start: PipelineView,
    events: Seq<EventView>,
    j: int,
    i: int,
)
    requires
        0 <= j <= i <= events.len(),
    ensures
        stage_rank(state_after(start, events.take(j)).pull.stage) <= stage_rank(
            state_after(start, events.take(i)).pull.stage,
        ),
    decreases i - j,
{
    if j < i {
        lemma_earlier_stage_is_not_later(start, events, j, i - 1);
        lemma_state_after_step(start, events, i - 1);
        lemma_stages_move_forward(state_before(start, events, i - 1), events[i - 1]);
    }
}

/// A manifest list that does not offer the platform fails the pull, and
/// no blob is ever asked for: when a run awaits the manifest list and the
/// list that arrives names no entry for the platform, the answer is
/// `NoMatchingPlatform`, and no action of the run, before or after, asks
/// for a layer.
pub proof fn lemma_unoffered_platform_fetches_no_layer(
    start: PipelineView,
    events: Seq<EventView>,
    entries: Seq<ManifestInListView>,
    i: int,
    j: int,
)
    requires
        0 <= i < events.len(),
        0 <= j < events.len(),
        state_before(start, events, i).phase == Phase::Pulling,
        state_before(start, events, i).pull.stage == PullStage::ListingManifests,
        events[i] == EventView::Pull(PullEventView::ManifestList(Ok(entries))),
        !offers(entries, state_before(start, events, i).platform),
    ensures
        action_at(start, events, i) == ActionView::Fail(RuntimeErrorView::NoMatchingPlatform),
        !fetches_layer(action_at(start, events, j)),
{
    lemma_entries_for_empty(entries, state_before(start, events, i).platform);
    if j >= i {
        lemma_failure_is_final(start, events, i, j);
    } else {
        lemma_state_after_step(start, events, j);
        lemma_stages_move_forward(state_before(start, events, j), events[j]);
        lemma_earlier_stage_is_not_later(start, events, j + 1, i);
    }
}

/// A blob of the wrong size fails the pull before anything of it is
/// unpacked: when a run awaits the blob of a layer and the blob that
/// arrives does not hold as many bytes as the layer declares, the answer is
/// `LayerSizeMismatch` with both numbers, whatever the blob holds, and
/// every later action is a failure.
pub proof fn lemma_wrong_size_is_never_unpacked(
    start: PipelineView,
    events: Seq<EventView>,
    blob: Seq<u8>,
    i: int,
    j: int,
)
    requires
        0 <= i <= j < events.len(),
        state_before(start, events, i).phase == Phase::Pulling,
        state_before(start, events, i).pull.stage == PullStage::FetchingLayer,
        state_before(start, events, i).pull.index < state_before(
            start,
            events,
            i,
        ).pull.layers.len(),
        events[i] == EventView::Pull(PullEventView::LayerBlob(Ok(blob))),
        blob.len() != state_before(start, events, i).pull.layers[state_before(
            start,
            events,
            i,
        ).pull.index as int].size,
    ensures
        action_at(start, events, i) == ActionView::Fail(
            RuntimeErrorView::LayerSizeMismatch {
                declared: state_before(start, events, i).pull.layers[state_before(
                    start,
                    events,
                    i,
                ).pull.index as int].size,
                actual: blob.len(),
            },
        ),
        action_at(start, events, j) is Fail,
        !unpacks(action_at(start, events, j)),
{
    lemma_failure_is_final(start, events, i, j);
}

} // verus!

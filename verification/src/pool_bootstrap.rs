//! The start-up of the pool service.
//!
//! The pool comes up in three steps: the length of the coinbase output is
//! taken from the configuration, the connection to the template provider is
//! made, and the pool itself is started. Only then is the service watched. A
//! step that fails ends the start-up at once: no task runs yet that could
//! report it.

use crate::status::PoolReporter;
use vstd::prelude::*;

verus! {

/// Why the start-up of the pool has failed after its first step.
#[derive(Clone, Copy, Debug, PartialEq, Eq, Structural)]
pub enum PoolBootError {
    /// The template provider could not be reached.
    TemplateProvider,
    /// An event arrived that the stage was not waiting for.
    OutOfOrder,
}

/// How far the start-up has come.
#[derive(Clone, Copy, Debug, PartialEq, Eq, Structural)]
pub enum PoolStage {
    Connecting,
    Starting,
    /// The pool runs and is watched: the start-up is complete.
    Supervising,
    Failed(PoolBootError),
}

/// What the caller reports back.
#[derive(Clone, Copy, Debug, PartialEq, Eq, Structural)]
pub enum PoolEvent {
    /// Connecting to the template provider succeeded or failed.
    Connected(bool),
    /// The pool was started.
    Started,
}

/// What the caller is to do next.
#[derive(Clone, Copy, Debug, PartialEq, Eq, Structural)]
pub enum PoolAction {
    /// Connect to the template provider, announcing this length of the
    /// coinbase output.
    ConnectTemplateProvider { coinbase_output_len: u32 },
    /// Start the pool.
    StartPool,
    /// Watch the status channel.
    Supervise,
    /// Give up the start-up for this reason.
    Stop(PoolBootError),
    /// The start-up was complete already; there is nothing to do.
    Nothing,
}

impl PoolAction {
    /// The tag under which the task that the action starts sends its reports:
    /// the connection to the template provider as the upstream, the pool as
    /// the downstream listener.
    pub open spec fn spec_reporter(&self) -> Option<PoolReporter> {
        match *self {
            PoolAction::ConnectTemplateProvider { .. } => Some(PoolReporter::Upstream),
            PoolAction::StartPool => Some(PoolReporter::DownstreamListener),
            _ => None,
        }
    }

    /// The tag for the status sender that goes with the action, if it starts
    /// a task that reports.
    #[verifier::when_used_as_spec(spec_reporter)]
    pub fn reporter(&self) -> (tag: Option<PoolReporter>)
        ensures
            tag == self.spec_reporter(),
    {
        match self {
            PoolAction::ConnectTemplateProvider { .. } => Some(PoolReporter::Upstream),
            PoolAction::StartPool => Some(PoolReporter::DownstreamListener),
            _ => None,
        }
    }
}

/// The length that is announced for `count` coinbase outputs: `count` itself,
/// cut to 32 bits.
pub fn coinbase_output_len(count: usize) -> (len: u32)
    ensures
        len == count as u32,
        count <= u32::MAX ==> len == count,
{
    #[verifier::truncate]
    (count as u32)
}

/// The first step of a start-up, from what the configuration gave for the
/// coinbase outputs: their number, or the reason why there are none.
///
/// With outputs the template provider is to be connected; without, the
/// reason is handed back and nothing is started.
pub fn pool_boot_start(outputs: Result<usize, String>) -> (first: Result<
    (PoolStage, PoolAction),
    String,
>)
    ensures
        match outputs {
            Ok(count) => first == Ok::<(PoolStage, PoolAction), String>(
                (
                    PoolStage::Connecting,
                    PoolAction::ConnectTemplateProvider { coinbase_output_len: count as u32 },
                ),
            ),
            Err(reason) => first == Err::<(PoolStage, PoolAction), String>(reason),
        },
{
    match outputs {
        Ok(count) => Ok(
            (
                PoolStage::Connecting,
                PoolAction::ConnectTemplateProvider {
                    coinbase_output_len: coinbase_output_len(count),
                },
            ),
        ),
        Err(reason) => Err(reason),
    }
}

/// The stage that follows `stage` on `event`, and what the caller is to do.
///
/// A failed connection, or an event that the stage was not waiting for, ends
/// the start-up. A failed start-up stays failed, a complete one stays
/// complete.
pub open spec fn pool_boot_next(stage: PoolStage, event: PoolEvent) -> (PoolStage, PoolAction) {
    match (stage, event) {
        (PoolStage::Failed(error), _) => (PoolStage::Failed(error), PoolAction::Stop(error)),
        (PoolStage::Supervising, _) => (PoolStage::Supervising, PoolAction::Nothing),
        (PoolStage::Connecting, PoolEvent::Connected(true)) => (
            PoolStage::Starting,
            PoolAction::StartPool,
        ),
        (PoolStage::Connecting, PoolEvent::Connected(false)) => (
            PoolStage::Failed(PoolBootError::TemplateProvider),
            PoolAction::Stop(PoolBootError::TemplateProvider),
        ),
        (PoolStage::Starting, PoolEvent::Started) => (
            PoolStage::Supervising,
            PoolAction::Supervise,
        ),
        _ => (
            PoolStage::Failed(PoolBootError::OutOfOrder),
            PoolAction::Stop(PoolBootError::OutOfOrder),
        ),
    }
}

/// Moves the start-up on by one event.
pub fn pool_boot_step(stage: PoolStage, event: PoolEvent) -> (next: (PoolStage, PoolAction))
    ensures
        next == pool_boot_next(stage, event),
{
    match stage {
        PoolStage::Failed(error) => (PoolStage::Failed(error), PoolAction::Stop(error)),
        PoolStage::Supervising => (PoolStage::Supervising, PoolAction::Nothing),
        PoolStage::Connecting => match event {
            PoolEvent::Connected(true) => (PoolStage::Starting, PoolAction::StartPool),
            PoolEvent::Connected(false) => (
                PoolStage::Failed(PoolBootError::TemplateProvider),
                PoolAction::Stop(PoolBootError::TemplateProvider),
            ),
            PoolEvent::Started => (
                PoolStage::Failed(PoolBootError::OutOfOrder),
                PoolAction::Stop(PoolBootError::OutOfOrder),
            ),
        },
        PoolStage::Starting => match event {
            PoolEvent::Started => (PoolStage::Supervising, PoolAction::Supervise),
            PoolEvent::Connected(_) => (
                PoolStage::Failed(PoolBootError::OutOfOrder),
                PoolAction::Stop(PoolBootError::OutOfOrder),
            ),
        },
    }
}

/// The stage of a start-up that began connecting and was fed `events` in order.
pub open spec fn pool_boot_stage(events: Seq<PoolEvent>) -> PoolStage
    decreases events.len(),
{
    if events.len() == 0 {
        PoolStage::Connecting
    } else {
        pool_boot_next(pool_boot_stage(events.drop_last()), events.last()).0
    }
}

/// The action with which a start-up answers the event at place `k` of `events`.
pub open spec fn pool_boot_action(events: Seq<PoolEvent>, k: int) -> PoolAction
    recommends
        0 <= k < events.len(),
{
    pool_boot_next(pool_boot_stage(events.take(k)), events[k]).1
}

/// What having reached `stage` says of the events so far.
pub open spec fn pool_history_of(stage: PoolStage, events: Seq<PoolEvent>) -> bool {
    match stage {
        PoolStage::Connecting => events.len() == 0,
        PoolStage::Starting => events.len() == 1 && events[0] == PoolEvent::Connected(true),
        PoolStage::Supervising => events.len() >= 2 && events[0] == PoolEvent::Connected(true)
            && events[1] == PoolEvent::Started,
        PoolStage::Failed(_) => events.len() >= 1,
    }
}

/// The stage that a start-up has reached tells how it got there.
pub proof fn pool_stage_tells_history(events: Seq<PoolEvent>)
    ensures
        pool_history_of(pool_boot_stage(events), events),
    decreases events.len(),
{
    if events.len() > 0 {
        let head = events.drop_last();
        pool_stage_tells_history(head);
        assert forall|j: int| 0 <= j < head.len() implies head[j] == events[j] by {}
    }
}

/// The pool is started only after the template provider was connected, and
/// watched only after it was started.
pub proof fn supervision_follows_connect_and_start(events: Seq<PoolEvent>, k: int)
    requires
        0 <= k < events.len(),
    ensures
        pool_boot_action(events, k) is StartPool ==> k == 0 && events[0] == PoolEvent::Connected(
            true,
        ),
        pool_boot_action(events, k) is Supervise ==> k == 1 && events[0] == PoolEvent::Connected(
            true,
        ) && events[1] == PoolEvent::Started,
{
    let before = events.take(k);
    pool_stage_tells_history(before);
    assert forall|j: int| 0 <= j < before.len() implies before[j] == events[j] by {}
}

/// When the template provider cannot be reached the start-up ends there: the
/// pool is never started and never watched, whatever is reported afterwards.
pub proof fn unreachable_provider_ends_start_up(events: Seq<PoolEvent>)
    requires
        events.len() >= 1,
        events[0] == PoolEvent::Connected(false),
    ensures
        pool_boot_stage(events) == PoolStage::Failed(PoolBootError::TemplateProvider),
        pool_boot_action(events, 0) == PoolAction::Stop(PoolBootError::TemplateProvider),
        forall|k: int|
            0 <= k < events.len() ==> #[trigger] pool_boot_action(events, k) == PoolAction::Stop(
                PoolBootError::TemplateProvider,
            ),
    decreases events.len(),
{
    assert(events.take(0).len() == 0);
    if events.len() == 1 {
        assert(events.drop_last().len() == 0);
    } else {
        let head = events.drop_last();
        unreachable_provider_ends_start_up(head);
        assert forall|k: int| 0 <= k < events.len() implies #[trigger] pool_boot_action(events, k)
            == PoolAction::Stop(PoolBootError::TemplateProvider) by {
            if k < head.len() {
                assert(events.take(k) == head.take(k));
                assert(pool_boot_action(head, k) == pool_boot_action(events, k));
            } else {
                assert(events.take(k) == head);
            }
        }
    }
}

} // verus!

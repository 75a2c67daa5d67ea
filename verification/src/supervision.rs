//! The loop that watches one service.
//!
//! The loop waits for two things at once: the next status report and an
//! interrupt from outside. Whoever runs it hands each thing that happened to
//! this module as a [`LoopEvent`] and goes on while the state is `Running`.
//! Once stopped, a loop stays stopped with the cause that stopped it.

use crate::bindings::{pool_connections, remove_under_lock};
use crate::status::{PoolReport, ProxyReport, Severity};
use pool_sv2::mining_pool::Pool;
use roles_logic_sv2::utils::Mutex;
use std::sync::Arc;
use vstd::prelude::*;

verus! {

/// One thing that the loop has waited for.
#[derive(Debug, PartialEq, Eq)]
pub enum LoopEvent<R> {
    /// A report has arrived on the status channel.
    Report(R),
    /// The interrupt signal has arrived.
    Interrupted,
    /// Listening for the interrupt signal has failed.
    InterruptUnavailable,
    /// The status channel is closed: every sender is gone.
    ReportsClosed,
}

/// Why a loop has ended.
#[derive(Clone, Copy, Debug, PartialEq, Eq, Structural)]
pub enum StopCause {
    Interrupted,
    InterruptUnavailable,
    ReportsClosed,
    DownstreamShutdown,
    TemplateProviderShutdown,
    UpstreamShutdown,
    BridgeShutdown,
    /// The downstream connection with this id could not be removed.
    RemovalFailed(u32),
}

/// Whether a loop goes on.
#[derive(Clone, Copy, Debug, PartialEq, Eq, Structural)]
pub enum LoopState {
    Running,
    Stopped(StopCause),
}

/// What the pool's loop does first with an event.
#[derive(Clone, Copy, Debug, PartialEq, Eq, Structural)]
pub enum PoolStep {
    /// Nothing to do; the loop goes on.
    Continue,
    /// The loop ends.
    Stop(StopCause),
    /// The downstream connection with this id is to be removed from the pool;
    /// the loop goes on only if that succeeds.
    RemoveDownstream(u32),
}

/// The severity at which an event of the pool's loop is logged: a report at
/// its own severity, an interrupt as information, the two failures as errors.
pub open spec fn pool_event_severity_of(event: LoopEvent<PoolReport>) -> Severity {
    match event {
        LoopEvent::Report(report) => report.spec_severity(),
        LoopEvent::Interrupted => Severity::Info,
        LoopEvent::InterruptUnavailable => Severity::Error,
        LoopEvent::ReportsClosed => Severity::Error,
    }
}

/// The severity at which an event of the proxy's loop is logged: a report at
/// its own severity, an interrupt as information, the two failures as errors.
pub open spec fn proxy_event_severity_of(event: LoopEvent<ProxyReport>) -> Severity {
    match event {
        LoopEvent::Report(report) => report.spec_severity(),
        LoopEvent::Interrupted => Severity::Info,
        LoopEvent::InterruptUnavailable => Severity::Error,
        LoopEvent::ReportsClosed => Severity::Error,
    }
}

/// The severity at which an event of the pool's loop is logged.
pub fn pool_event_severity(event: &LoopEvent<PoolReport>) -> (severity: Severity)
    ensures
        severity == pool_event_severity_of(*event),
{
    match event {
        LoopEvent::Report(report) => report.severity(),
        LoopEvent::Interrupted => Severity::Info,
        LoopEvent::InterruptUnavailable => Severity::Error,
        LoopEvent::ReportsClosed => Severity::Error,
    }
}

/// The severity at which an event of the proxy's loop is logged.
pub fn proxy_event_severity(event: &LoopEvent<ProxyReport>) -> (severity: Severity)
    ensures
        severity == proxy_event_severity_of(*event),
{
    match event {
        LoopEvent::Report(report) => report.severity(),
        LoopEvent::Interrupted => Severity::Info,
        LoopEvent::InterruptUnavailable => Severity::Error,
        LoopEvent::ReportsClosed => Severity::Error,
    }
}

/// The first step of the pool's loop on `event`.
pub open spec fn pool_step_of(event: LoopEvent<PoolReport>) -> PoolStep {
    match event {
        LoopEvent::Report(PoolReport::Healthy(_)) => PoolStep::Continue,
        LoopEvent::Report(PoolReport::DownstreamShutdown(_)) => PoolStep::Stop(
            StopCause::DownstreamShutdown,
        ),
        LoopEvent::Report(PoolReport::TemplateProviderShutdown(_)) => PoolStep::Stop(
            StopCause::TemplateProviderShutdown,
        ),
        LoopEvent::Report(PoolReport::DownstreamInstanceDropped(id)) => PoolStep::RemoveDownstream(
            id,
        ),
        LoopEvent::Interrupted => PoolStep::Stop(StopCause::Interrupted),
        LoopEvent::InterruptUnavailable => PoolStep::Stop(StopCause::InterruptUnavailable),
        LoopEvent::ReportsClosed => PoolStep::Stop(StopCause::ReportsClosed),
    }
}

/// The state of a running loop after an attempt to remove connection `id`.
pub open spec fn removal_outcome(id: u32, removed: bool) -> LoopState {
    if removed {
        LoopState::Running
    } else {
        LoopState::Stopped(StopCause::RemovalFailed(id))
    }
}

/// The state of the pool's loop after `event`, where `removed` says how the
/// removal went if the event asked for one.
pub open spec fn pool_next(state: LoopState, event: LoopEvent<PoolReport>, removed: bool)
    -> LoopState {
    match state {
        LoopState::Stopped(_) => state,
        LoopState::Running => match pool_step_of(event) {
            PoolStep::Continue => LoopState::Running,
            PoolStep::Stop(cause) => LoopState::Stopped(cause),
            PoolStep::RemoveDownstream(id) => removal_outcome(id, removed),
        },
    }
}

/// The state of the proxy's loop after `event`.
pub open spec fn proxy_next(state: LoopState, event: LoopEvent<ProxyReport>) -> LoopState {
    match state {
        LoopState::Stopped(_) => state,
        LoopState::Running => match event {
            LoopEvent::Report(ProxyReport::Healthy(_)) => LoopState::Running,
            LoopEvent::Report(ProxyReport::DownstreamShutdown(_)) => LoopState::Stopped(
                StopCause::DownstreamShutdown,
            ),
            LoopEvent::Report(ProxyReport::BridgeShutdown(_)) => LoopState::Stopped(
                StopCause::BridgeShutdown,
            ),
            LoopEvent::Report(ProxyReport::UpstreamShutdown(_)) => LoopState::Stopped(
                StopCause::UpstreamShutdown,
            ),
            LoopEvent::Interrupted => LoopState::Stopped(StopCause::Interrupted),
            LoopEvent::InterruptUnavailable => LoopState::Stopped(StopCause::InterruptUnavailable),
            LoopEvent::ReportsClosed => LoopState::Stopped(StopCause::ReportsClosed),
        },
    }
}

/// Decides the first step of the pool's loop on `event`.
pub fn classify_pool_event(event: &LoopEvent<PoolReport>) -> (step: PoolStep)
    ensures
        step == pool_step_of(*event),
{
    match event {
        LoopEvent::Report(PoolReport::Healthy(_)) => PoolStep::Continue,
        LoopEvent::Report(PoolReport::DownstreamShutdown(_)) => PoolStep::Stop(
            StopCause::DownstreamShutdown,
        ),
        LoopEvent::Report(PoolReport::TemplateProviderShutdown(_)) => PoolStep::Stop(
            StopCause::TemplateProviderShutdown,
        ),
        LoopEvent::Report(PoolReport::DownstreamInstanceDropped(id)) => PoolStep::RemoveDownstream(
            *id,
        ),
        LoopEvent::Interrupted => PoolStep::Stop(StopCause::Interrupted),
        LoopEvent::InterruptUnavailable => PoolStep::Stop(StopCause::InterruptUnavailable),
        LoopEvent::ReportsClosed => PoolStep::Stop(StopCause::ReportsClosed),
    }
}

/// Decides how a running loop goes on after an attempt to remove connection
/// `id`: it goes on if the removal succeeded and ends if it did not.
pub fn settle_removal(id: u32, removed: bool) -> (state: LoopState)
    ensures
        state == removal_outcome(id, removed),
        state is Running <==> removed,
{
    if removed {
        LoopState::Running
    } else {
        LoopState::Stopped(StopCause::RemovalFailed(id))
    }
}

/// Takes the connection `id` out of the pool's table; the other connections
/// stay. Runs under the pool's lock.
pub fn forget_downstream(pool: &mut Pool, id: u32)
    ensures
        pool_connections(*final(pool)) == pool_connections(*old(pool)).remove(id),
        !pool_connections(*final(pool)).contains(id),
{
    pool.remove_downstream(id);
}

/// Handles one event of the pool's loop, removing a dropped connection from
/// `pool` where the event asks for it.
///
/// A stopped loop stays as it is and touches nothing. A running loop follows
/// [`pool_next`]; whether a removal succeeds is known only once it was tried,
/// so for a dropped connection the result is one of the two outcomes of
/// [`removal_outcome`].
pub fn supervise_pool_event(
    pool: &Arc<Mutex<Pool>>,
    state: LoopState,
    event: &LoopEvent<PoolReport>,
) -> (next: LoopState)
    ensures
        next == pool_next(state, *event, true) || next == pool_next(state, *event, false),
        !(state is Running && pool_step_of(*event) is RemoveDownstream) ==> next == pool_next(
            state,
            *event,
            true,
        ),
{
    match state {
        LoopState::Stopped(_) => state,
        LoopState::Running => match classify_pool_event(event) {
            PoolStep::Continue => LoopState::Running,
            PoolStep::Stop(cause) => LoopState::Stopped(cause),
            PoolStep::RemoveDownstream(id) => {
                let removed = remove_under_lock(pool, id);
                settle_removal(id, removed)
            },
        },
    }
}

/// Handles one event of the proxy's loop.
pub fn supervise_proxy_event(state: LoopState, event: &LoopEvent<ProxyReport>) -> (next: LoopState)
    ensures
        next == proxy_next(state, *event),
{
    match state {
        LoopState::Stopped(_) => state,
        LoopState::Running => match event {
            LoopEvent::Report(ProxyReport::Healthy(_)) => LoopState::Running,
            LoopEvent::Report(ProxyReport::DownstreamShutdown(_)) => LoopState::Stopped(
                StopCause::DownstreamShutdown,
            ),
            LoopEvent::Report(ProxyReport::BridgeShutdown(_)) => LoopState::Stopped(
                StopCause::BridgeShutdown,
            ),
            LoopEvent::Report(ProxyReport::UpstreamShutdown(_)) => LoopState::Stopped(
                StopCause::UpstreamShutdown,
            ),
            LoopEvent::Interrupted => LoopState::Stopped(StopCause::Interrupted),
            LoopEvent::InterruptUnavailable => LoopState::Stopped(StopCause::InterruptUnavailable),
            LoopEvent::ReportsClosed => LoopState::Stopped(StopCause::ReportsClosed),
        },
    }
}

/// The event ends a running pool loop: anything but a healthy report and a
/// dropped connection whose removal succeeded.
pub open spec fn pool_event_fatal(event: LoopEvent<PoolReport>, removed: bool) -> bool {
    match event {
        LoopEvent::Report(PoolReport::Healthy(_)) => false,
        LoopEvent::Report(PoolReport::DownstreamInstanceDropped(_)) => !removed,
        _ => true,
    }
}

/// The event ends a running proxy loop: anything but a healthy report.
pub open spec fn proxy_event_fatal(event: LoopEvent<ProxyReport>) -> bool {
    match event {
        LoopEvent::Report(ProxyReport::Healthy(_)) => false,
        _ => true,
    }
}

/// The state of a pool loop that started running and was fed `trace` in
/// order. Each entry is an event with the outcome of the removal it led to.
pub open spec fn pool_run(trace: Seq<(LoopEvent<PoolReport>, bool)>) -> LoopState
    decreases trace.len(),
{
    if trace.len() == 0 {
        LoopState::Running
    } else {
        pool_next(pool_run(trace.drop_last()), trace.last().0, trace.last().1)
    }
}

/// The state of a proxy loop that started running and was fed `trace` in order.
pub open spec fn proxy_run(trace: Seq<LoopEvent<ProxyReport>>) -> LoopState
    decreases trace.len(),
{
    if trace.len() == 0 {
        LoopState::Running
    } else {
        proxy_next(proxy_run(trace.drop_last()), trace.last())
    }
}

/// The reports of `reports` as events of the pool's loop, each paired with
/// the outcome in `removals` at the same place.
pub open spec fn pool_reports_trace(reports: Seq<PoolReport>, removals: Seq<bool>) -> Seq<
    (LoopEvent<PoolReport>, bool),
> {
    Seq::new(reports.len(), |i: int| (LoopEvent::Report(reports[i]), removals[i]))
}

/// The reports of `reports` as events of the proxy's loop.
pub open spec fn proxy_reports_trace(reports: Seq<ProxyReport>) -> Seq<LoopEvent<ProxyReport>> {
    Seq::new(reports.len(), |i: int| LoopEvent::Report(reports[i]))
}

/// A pool loop is still running after a trace exactly if no event of the
/// trace was fatal.
pub proof fn pool_loop_runs_until_fatal(trace: Seq<(LoopEvent<PoolReport>, bool)>)
    ensures
        pool_run(trace) is Running <==> forall|i: int|
            0 <= i < trace.len() ==> !pool_event_fatal((#[trigger] trace[i]).0, trace[i].1),
    decreases trace.len(),
{
    if trace.len() > 0 {
        let head = trace.drop_last();
        pool_loop_runs_until_fatal(head);
        assert forall|i: int| 0 <= i < head.len() implies head[i] == trace[i] by {}
        if pool_run(trace) is Running {
            assert forall|i: int| 0 <= i < trace.len() implies !pool_event_fatal(
                (#[trigger] trace[i]).0,
                trace[i].1,
            ) by {
                if i < head.len() {
                    assert(head[i] == trace[i]);
                }
            }
        }
    }
}

/// A pool loop ends with the outcome of the first fatal event of its trace,
/// whatever follows.
pub proof fn pool_loop_stops_at_first_fatal(trace: Seq<(LoopEvent<PoolReport>, bool)>, first: int)
    requires
        0 <= first < trace.len(),
        pool_event_fatal(trace[first].0, trace[first].1),
        forall|j: int| 0 <= j < first ==> !pool_event_fatal((#[trigger] trace[j]).0, trace[j].1),
    ensures
        pool_run(trace) == pool_next(LoopState::Running, trace[first].0, trace[first].1),
        pool_run(trace) is Stopped,
    decreases trace.len(),
{
    let head = trace.drop_last();
    if first == trace.len() - 1 {
        pool_loop_runs_until_fatal(head);
        assert forall|i: int| 0 <= i < head.len() implies !pool_event_fatal(
            (#[trigger] head[i]).0,
            head[i].1,
        ) by {
            assert(head[i] == trace[i]);
        }
    } else {
        assert(head[first] == trace[first]);
        assert forall|j: int| 0 <= j < first implies !pool_event_fatal(
            (#[trigger] head[j]).0,
            head[j].1,
        ) by {
            assert(head[j] == trace[j]);
        }
        pool_loop_stops_at_first_fatal(head, first);
    }
}

/// The report leaves a running pool loop running: it is no shutdown, and if
/// it says that a connection was dropped, the connection was removed.
pub open spec fn pool_report_harmless(report: PoolReport, removed: bool) -> bool {
    &&& !report.is_shutdown()
    &&& report is DownstreamInstanceDropped ==> removed
}

/// Fed nothing but status reports, a pool loop is still running exactly if
/// none of them was a shutdown and every dropped connection was removed.
pub proof fn pool_loop_ends_only_on_shutdown(reports: Seq<PoolReport>, removals: Seq<bool>)
    requires
        reports.len() == removals.len(),
    ensures
        pool_run(pool_reports_trace(reports, removals)) is Running <==> forall|i: int|
            0 <= i < reports.len() ==> pool_report_harmless(#[trigger] reports[i], removals[i]),
{
    let trace = pool_reports_trace(reports, removals);
    pool_loop_runs_until_fatal(trace);
    if pool_run(trace) is Running {
        assert forall|i: int| 0 <= i < reports.len() implies pool_report_harmless(
            #[trigger] reports[i],
            removals[i],
        ) by {
            assert(!pool_event_fatal(trace[i].0, trace[i].1));
        }
    } else {
        let i = choose|i: int|
            0 <= i < trace.len() && pool_event_fatal((#[trigger] trace[i]).0, trace[i].1);
        assert(!pool_report_harmless(reports[i], removals[i]));
    }
}

/// A report that a connection was dropped leaves a running pool loop running
/// exactly if the removal succeeded.
pub proof fn dropped_connection_ends_loop_iff_removal_fails(id: u32, removed: bool)
    ensures
        pool_next(
            LoopState::Running,
            LoopEvent::Report(PoolReport::DownstreamInstanceDropped(id)),
            removed,
        ) is Running <==> removed,
        !removed ==> pool_next(
            LoopState::Running,
            LoopEvent::Report(PoolReport::DownstreamInstanceDropped(id)),
            removed,
        ) == LoopState::Stopped(StopCause::RemovalFailed(id)),
{
}

/// A proxy loop is still running after a trace exactly if no event of the
/// trace was fatal.
pub proof fn proxy_loop_runs_until_fatal(trace: Seq<LoopEvent<ProxyReport>>)
    ensures
        proxy_run(trace) is Running <==> forall|i: int|
            0 <= i < trace.len() ==> !proxy_event_fatal(#[trigger] trace[i]),
    decreases trace.len(),
{
    if trace.len() > 0 {
        let head = trace.drop_last();
        proxy_loop_runs_until_fatal(head);
        assert forall|i: int| 0 <= i < head.len() implies head[i] == trace[i] by {}
        if proxy_run(trace) is Running {
            assert forall|i: int| 0 <= i < trace.len() implies !proxy_event_fatal(
                #[trigger] trace[i],
            ) by {
                if i < head.len() {
                    assert(head[i] == trace[i]);
                }
            }
        }
    }
}

/// Fed nothing but status reports, a proxy loop is still running exactly if
/// none of them was a shutdown.
pub proof fn proxy_loop_ends_only_on_shutdown(reports: Seq<ProxyReport>)
    ensures
        proxy_run(proxy_reports_trace(reports)) is Running <==> forall|i: int|
            0 <= i < reports.len() ==> !(#[trigger] reports[i]).is_shutdown(),
{
    let trace = proxy_reports_trace(reports);
    proxy_loop_runs_until_fatal(trace);
    if proxy_run(trace) is Running {
        assert forall|i: int| 0 <= i < reports.len() implies !(#[trigger] reports[i]).is_shutdown(
        ) by {
            assert(!proxy_event_fatal(trace[i]));
        }
    } else {
        let i = choose|i: int| 0 <= i < trace.len() && proxy_event_fatal(#[trigger] trace[i]);
        assert(reports[i].is_shutdown());
    }
}

} // verus!

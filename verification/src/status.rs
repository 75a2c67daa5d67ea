//! Status reports: what a running task tells the loop that watches its service.
//!
//! Every long-lived task owns a sender of the status channel and reports under
//! the tag it was started with. The loop that owns the receiver is the only
//! place that decides what a report means for the service.

use vstd::prelude::*;

verus! {

/// The tag under which a task of the pool service sends its reports.
#[derive(Clone, Copy, Debug, PartialEq, Eq, Structural)]
pub enum PoolReporter {
    /// The connection to the template provider.
    Upstream,
    /// The pool itself, which accepts the connections from below.
    DownstreamListener,
}

/// The tag under which a task of the proxy service sends its reports.
#[derive(Clone, Copy, Debug, PartialEq, Eq, Structural)]
pub enum ProxyReporter {
    /// The connection to the pool.
    Upstream,
    /// The task that accepts the mining devices.
    DownstreamListener,
    /// The task that translates between the two mining dialects.
    Bridge,
}

/// How loudly an event is logged.
#[derive(Clone, Copy, Debug, PartialEq, Eq, Structural)]
pub enum Severity {
    Info,
    Warning,
    Error,
}

/// A report from a task of the pool service.
#[derive(Debug, PartialEq, Eq)]
pub enum PoolReport {
    /// Informational, with a message.
    Healthy(String),
    /// The downstream side has shut down, with the cause.
    DownstreamShutdown(String),
    /// The connection to the template provider has shut down, with the cause.
    TemplateProviderShutdown(String),
    /// One downstream connection has ended; the others go on.
    DownstreamInstanceDropped(u32),
}

/// A report from a task of the proxy service.
#[derive(Debug, PartialEq, Eq)]
pub enum ProxyReport {
    /// Informational, with a message.
    Healthy(String),
    /// The acceptor of mining devices has shut down, with the cause.
    DownstreamShutdown(String),
    /// The bridge has shut down, with the cause.
    BridgeShutdown(String),
    /// The connection to the pool has shut down, with the cause.
    UpstreamShutdown(String),
}

impl PoolReport {
    /// The report asks for the service to end.
    pub open spec fn is_shutdown(&self) -> bool {
        self is DownstreamShutdown || self is TemplateProviderShutdown
    }

    /// Healthy reports are informational, a dropped connection is a warning,
    /// every shutdown is an error.
    pub open spec fn spec_severity(&self) -> Severity {
        match *self {
            PoolReport::Healthy(_) => Severity::Info,
            PoolReport::DownstreamInstanceDropped(_) => Severity::Warning,
            PoolReport::DownstreamShutdown(_) => Severity::Error,
            PoolReport::TemplateProviderShutdown(_) => Severity::Error,
        }
    }

    /// The severity at which the report is logged.
    #[verifier::when_used_as_spec(spec_severity)]
    pub fn severity(&self) -> (severity: Severity)
        ensures
            severity == self.spec_severity(),
    {
        match self {
            PoolReport::Healthy(_) => Severity::Info,
            PoolReport::DownstreamInstanceDropped(_) => Severity::Warning,
            PoolReport::DownstreamShutdown(_) => Severity::Error,
            PoolReport::TemplateProviderShutdown(_) => Severity::Error,
        }
    }
}

impl ProxyReport {
    /// The report asks for the service to end.
    pub open spec fn is_shutdown(&self) -> bool {
        self is DownstreamShutdown || self is BridgeShutdown || self is UpstreamShutdown
    }

    /// Healthy reports are informational, every shutdown is an error.
    pub open spec fn spec_severity(&self) -> Severity {
        match self {
            ProxyReport::Healthy(_) => Severity::Info,
            ProxyReport::DownstreamShutdown(_) => Severity::Error,
            ProxyReport::BridgeShutdown(_) => Severity::Error,
            ProxyReport::UpstreamShutdown(_) => Severity::Error,
        }
    }

    /// The severity at which the report is logged.
    #[verifier::when_used_as_spec(spec_severity)]
    pub fn severity(&self) -> (severity: Severity)
        ensures
            severity == self.spec_severity(),
    {
        match self {
            ProxyReport::Healthy(_) => Severity::Info,
            ProxyReport::DownstreamShutdown(_) => Severity::Error,
            ProxyReport::BridgeShutdown(_) => Severity::Error,
            ProxyReport::UpstreamShutdown(_) => Severity::Error,
        }
    }
}

} // verus!

//! The startup hook and the health-check hook of the service.
//!
//! Both judge the reply to the identity query. A reply that stands for a
//! failure makes the service unhealthy; it does not make the hook fail.

use crate::api::client::{HttpReply, HttpReplyView};
use crate::failure::{Failure, FailureView};
use crate::normalize::viewer_id;
use crate::service::{FlyService, HEALTH_SUBSYSTEM};
use vstd::hash_map::StringHashMap;
use vstd::prelude::*;
use vstd::string::*;

verus! {

/// What the startup check found where the upstream answered.
#[derive(Debug, Clone, Copy, PartialEq, Eq, Structural)]
pub enum Startup {
    /// The upstream named an identity.
    Verified,
    /// The upstream answered with an empty identity.
    EmptyViewer,
}

/// Health status for a dependency. The caller adds the latency that it
/// measured.
#[derive(Debug)]
pub struct HealthStatus {
    /// Whether the dependency is healthy.
    pub ok: bool,
    /// Why it is not.
    pub message: Option<String>,
}

/// The fields of a health status as mathematical values.
pub struct HealthStatusView {
    pub ok: bool,
    pub message: Option<Seq<char>>,
}

impl View for HealthStatus {
    type V = HealthStatusView;

    open spec fn view(&self) -> HealthStatusView {
        HealthStatusView { ok: self.ok, message: self.message.deep_view() }
    }
}

/// The health of the subsystems of the service, under their names.
pub struct HealthChecks {
    entries: StringHashMap<HealthStatus>,
}

impl View for HealthChecks {
    type V = Map<Seq<char>, HealthStatusView>;

    closed spec fn view(&self) -> Map<Seq<char>, HealthStatusView> {
        self.entries@.map_values(|status: HealthStatus| status@)
    }
}

impl HealthChecks {
    /// The number of subsystems.
    pub fn len(&self) -> (n: usize)
        ensures
            n == self@.len(),
    {
        proof {
            lemma_same_size(self.entries@);
        }
        self.entries.len()
    }

    /// The health of the subsystem `name`.
    pub fn get(&self, name: &str) -> (found: Option<&HealthStatus>)
        ensures
            match found {
                Some(status) => self@.contains_key(name@) && self@[name@] == status@,
                None => !self@.contains_key(name@),
            },
    {
        self.entries.get(name)
    }
}

/// Taking the views of the values of a map leaves its size as it is.
proof fn lemma_same_size(entries: Map<Seq<char>, HealthStatus>)
    ensures
        entries.map_values(|status: HealthStatus| status@).len() == entries.len(),
{
    assert(entries.map_values(|status: HealthStatus| status@).dom() =~= entries.dom());
}

/// The health that an outcome of the identity query stands for: healthy
/// where an identity was named, unhealthy with a reason where the identity
/// is empty or the query failed.
pub open spec fn health_of(ping: Result<bool, FailureView>) -> HealthStatusView {
    match ping {
        Ok(connected) => if connected {
            HealthStatusView { ok: true, message: None }
        } else {
            HealthStatusView { ok: false, message: Some("Empty viewer ID"@) }
        },
        Err(f) => HealthStatusView { ok: false, message: Some(f.message()) },
    }
}

/// What the startup check makes of an outcome of the identity query.
pub open spec fn startup_of(ping: Result<bool, FailureView>) -> Result<Startup, FailureView> {
    match ping {
        Ok(connected) => if connected {
            Ok(Startup::Verified)
        } else {
            Ok(Startup::EmptyViewer)
        },
        Err(f) => Err(f),
    }
}

/// An empty identity is no failure of the query and no connection either:
/// the ping is false, the start goes on, and the health is not ok.
pub proof fn lemma_empty_identity(reply: HttpReplyView)
    requires
        reply.outcome() matches Ok(data) && viewer_id(data) == Some(Seq::<char>::empty()),
    ensures
        reply.ping() == Ok::<bool, FailureView>(false),
        startup_of(reply.ping()) == Ok::<Startup, FailureView>(Startup::EmptyViewer),
        !health_of(reply.ping()).ok,
{
}

/// The health is ok exactly where the identity query named an identity.
pub proof fn lemma_healthy_iff_connected(reply: HttpReplyView)
    ensures
        health_of(reply.ping()).ok <==> reply.ping() == Ok::<bool, FailureView>(true),
        health_of(reply.ping()).ok <==> health_of(reply.ping()).message is None,
{
}

impl Startup {
    /// The line to log for what was found.
    pub fn message(&self) -> (text: &'static str)
        ensures
            text@ == match self {
                Startup::Verified => "Fly.io API connection verified"@,
                Startup::EmptyViewer => "Fly.io API returned empty viewer ID"@,
            },
    {
        match self {
            Startup::Verified => "Fly.io API connection verified",
            Startup::EmptyViewer => "Fly.io API returned empty viewer ID",
        }
    }
}

impl FlyService {
    /// Called when the daemon starts, with the reply to the identity
    /// query. An empty identity is reported and does not stop the start; a
    /// failure does.
    pub fn on_start(&self, reply: &HttpReply) -> (r: Result<Startup, Failure>)
        ensures
            match r {
                Ok(found) => startup_of(reply@.ping()) == Ok::<Startup, FailureView>(found),
                Err(f) => startup_of(reply@.ping()) == Err::<Startup, FailureView>(f@),
            },
    {
        match self.client().ping(reply) {
            Ok(connected) => {
                if connected {
                    Ok(Startup::Verified)
                } else {
                    Ok(Startup::EmptyViewer)
                }
            },
            Err(f) => Err(f),
        }
    }

    /// Custom health check, from the reply to the identity query: the
    /// health of the one subsystem that the service depends on, under its
    /// name.
    pub fn health_check(&self, reply: &HttpReply) -> (checks: HealthChecks)
        ensures
            checks@ == map![HEALTH_SUBSYSTEM@ => health_of(reply@.ping())],
    {
        let status = match self.client().ping(reply) {
            Ok(connected) => {
                if connected {
                    HealthStatus { ok: true, message: None }
                } else {
                    HealthStatus { ok: false, message: Some(String::from_str("Empty viewer ID")) }
                }
            },
            Err(f) => HealthStatus { ok: false, message: Some(f.message()) },
        };
        let mut entries: StringHashMap<HealthStatus> = StringHashMap::new();
        entries.insert(String::from_str(HEALTH_SUBSYSTEM), status);
        let checks = HealthChecks { entries };
        assert(checks@ =~= map![HEALTH_SUBSYSTEM@ => health_of(reply@.ping())]);
        checks
    }
}

} // verus!

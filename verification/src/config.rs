//! The configuration of one run and what follows from it before any
//! connection is made.

use crate::wire::HEADER_LEN;
use vstd::prelude::*;

verus! {

/// Nominal length of one burst window, in milliseconds.
pub const BURST_WINDOW_MS: u64 = 1000;

/// Pause between two probes of a peer that has not answered yet, in
/// milliseconds.
pub const PROBE_RETRY_MS: u64 = 10;

/// How payloads are tagged.
#[derive(Clone, Copy, Debug, PartialEq, Eq, Structural)]
pub enum Mode {
    /// Every payload is a sample: tagged per burst, marked with the run's
    /// identifier.
    Sample,
    /// Every payload is filler: tagged with the sentinel, numbered one by
    /// one.
    Filler,
}

/// What the inbound listener does with the frames it receives.
#[derive(Clone, Copy, Debug, PartialEq, Eq, Structural)]
pub enum HandlerKind {
    /// Records every inbound event.
    Verbose,
    /// Discards inbound content.
    Silent,
}

/// Which interfaces the inbound listener binds.
#[derive(Clone, Copy, Debug, PartialEq, Eq, Structural)]
pub enum BindScope {
    /// The loopback address, 127.0.0.1.
    Loopback,
    /// Every interface, 0.0.0.0.
    AllInterfaces,
}

impl BindScope {
    /// The four octets of the address that the scope stands for.
    pub open spec fn spec_octets(self) -> (u8, u8, u8, u8) {
        match self {
            BindScope::Loopback => (127u8, 0u8, 0u8, 1u8),
            BindScope::AllInterfaces => (0u8, 0u8, 0u8, 0u8),
        }
    }

    /// The four octets of the address to bind.
    pub fn octets(&self) -> (o: (u8, u8, u8, u8))
        ensures
            o == self.spec_octets(),
    {
        match self {
            BindScope::Loopback => (127, 0, 0, 1),
            BindScope::AllInterfaces => (0, 0, 0, 0),
        }
    }
}

/// Why a configuration is refused.
#[derive(Clone, Copy, Debug, PartialEq, Eq, Structural)]
pub enum ConfigError {
    /// The payload size leaves no room for the eight header bytes.
    PayloadTooSmall,
}

impl ConfigError {
    /// The message shown to the operator.
    pub fn message(&self) -> (text: &'static str)
        ensures
            text@ == "Transaction size must be at least 8 bytes"@,
    {
        "Transaction size must be at least 8 bytes"
    }
}

/// Where the inbound listener binds and how it treats what arrives.
#[derive(Clone, Copy, Debug, PartialEq, Eq, Structural)]
pub struct ListenerPlan {
    /// The interfaces to bind.
    pub scope: BindScope,
    /// The port to bind.
    pub port: u16,
    /// The processing variant.
    pub handler: HandlerKind,
}

/// The options of one run. Endpoints are kept by the embedding program; the
/// engine knows the peers by their position, `0 .. peers`.
#[derive(Clone, Copy, Debug, PartialEq, Eq, Structural)]
pub struct RunConfig {
    /// Payload size in bytes.
    pub size: usize,
    /// Payloads per burst window.
    pub rate: u64,
    /// Number of peers that must be reachable before the first burst.
    pub peers: usize,
    /// Port of the inbound listener.
    pub port: u16,
    /// Whether the listener binds the loopback address only.
    pub local: bool,
    /// Whether payloads are samples (`true`) or filler (`false`).
    pub honest: bool,
}

/// A payload size is acceptable when the header fits.
pub open spec fn size_accepted(size: usize) -> bool {
    size >= HEADER_LEN
}

impl RunConfig {
    /// The mode that the configuration selects.
    pub open spec fn spec_mode(self) -> Mode {
        if self.honest {
            Mode::Sample
        } else {
            Mode::Filler
        }
    }

    /// The listener that the configuration asks for.
    pub open spec fn spec_listener(self) -> ListenerPlan {
        ListenerPlan {
            scope: if self.local {
                BindScope::Loopback
            } else {
                BindScope::AllInterfaces
            },
            port: self.port,
            handler: if self.honest {
                HandlerKind::Verbose
            } else {
                HandlerKind::Silent
            },
        }
    }

    /// Accepts the configuration exactly when the payload size is at least
    /// eight bytes.
    pub fn validate(&self) -> (r: Result<(), ConfigError>)
        ensures
            r is Ok <==> size_accepted(self.size),
            r is Err ==> r == Err::<(), ConfigError>(ConfigError::PayloadTooSmall),
    {
        if self.size < HEADER_LEN {
            Err(ConfigError::PayloadTooSmall)
        } else {
            Ok(())
        }
    }

    /// Sample mode for an honest run, filler mode otherwise.
    pub fn mode(&self) -> (m: Mode)
        ensures
            m == self.spec_mode(),
    {
        if self.honest {
            Mode::Sample
        } else {
            Mode::Filler
        }
    }

    /// The listener binds the configured port, on the loopback address for a
    /// local run and on all interfaces otherwise; it records inbound events in
    /// an honest run and discards them otherwise.
    pub fn listener(&self) -> (plan: ListenerPlan)
        ensures
            plan == self.spec_listener(),
    {
        let scope = if self.local {
            BindScope::Loopback
        } else {
            BindScope::AllInterfaces
        };
        let handler = if self.honest {
            HandlerKind::Verbose
        } else {
            HandlerKind::Silent
        };
        ListenerPlan { scope, port: self.port, handler }
    }
}

/// Whether a burst that took `elapsed_ms` milliseconds overran its window.
pub fn is_overrun(elapsed_ms: u128) -> (overrun: bool)
    ensures
        overrun == (elapsed_ms > BURST_WINDOW_MS),
{
    elapsed_ms > 1000
}

} // verus!

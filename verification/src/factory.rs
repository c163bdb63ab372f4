//! Backend selection: the closed set of acquisition mechanisms, the
//! per-platform default, and the factory that constructs the concrete
//! backend for a requested kind or fails fast when the kind cannot be
//! had on the platform.

use crate::backend::{CaptureBackend, Terminal};
use crate::errors::CaptureError;
use crate::pktmon_backend::PktmonBackend;
use vstd::prelude::*;
use vstd::string::StringExecFns;

verus! {

/// The closed set of packet-acquisition mechanisms a caller can request.
#[derive(Debug)]
pub enum BackendType {
    /// The OS-native event-tracing mechanism, bridged over the reserved
    /// loopback port pair.
    Pktmon,
    /// A userspace capture library.
    Pcap,
}

/// The platform the process runs on, as far as backend selection cares.
/// Build-time conditionals are modelled as data so that selection is one
/// checked function rather than a scatter of compile-time arms.
#[derive(Debug, Clone, Copy)]
pub enum Platform {
    Windows,
    Unix,
}

impl BackendType {
    /// The kind's name as diagnostics spell it.
    pub open spec fn name_spec(&self) -> Seq<char> {
        match self {
            BackendType::Pktmon => "Pktmon"@,
            BackendType::Pcap => "Pcap"@,
        }
    }

    /// The kind's name for use in messages.
    pub fn name(&self) -> (r: &'static str)
        ensures
            r@ == self.name_spec(),
    {
        match self {
            BackendType::Pktmon => "Pktmon",
            BackendType::Pcap => "Pcap",
        }
    }
}

/// Which kinds can actually be constructed where: the native tracing
/// bridge exists only on Windows, and this crate ships no userspace
/// library backend.
pub open spec fn supported_on(platform: Platform, backend: BackendType) -> bool {
    platform is Windows && backend is Pktmon
}

/// The message reported when a kind cannot be constructed on the
/// platform the process runs on.
pub open spec fn unsupported_message(backend: BackendType) -> Seq<char> {
    "Capture backend type "@ + backend.name_spec()
        + " not supported on this operating system"@
}

/// The backend kind a caller should use on `platform` absent an explicit
/// override.
pub open spec fn default_backend_spec(platform: Platform) -> BackendType {
    match platform {
        Platform::Windows => BackendType::Pktmon,
        Platform::Unix => BackendType::Pcap,
    }
}

/// The per-platform default backend kind.
pub fn default_capture_backend_type(platform: Platform) -> (r: BackendType)
    ensures
        r == default_backend_spec(platform),
{
    match platform {
        Platform::Windows => BackendType::Pktmon,
        Platform::Unix => BackendType::Pcap,
    }
}

/// A constructed capture backend: one of the closed set of concrete
/// implementations, behind the uniform contract.
pub enum Backend {
    Pktmon(PktmonBackend),
}

impl CaptureBackend for Backend {
    closed spec fn pending(&self) -> Seq<Seq<u8>> {
        match self {
            Backend::Pktmon(b) => b.pending(),
        }
    }

    closed spec fn done(&self) -> bool {
        match self {
            Backend::Pktmon(b) => b.done(),
        }
    }

    closed spec fn terminal(&self) -> Terminal {
        match self {
            Backend::Pktmon(b) => b.terminal(),
        }
    }

    closed spec fn captured(&self) -> bool {
        match self {
            Backend::Pktmon(b) => b.captured(),
        }
    }

    fn next_packet(&mut self) -> (r: Result<Vec<u8>, CaptureError>) {
        match self {
            Backend::Pktmon(b) => b.next_packet(),
        }
    }
}

/// Construct the backend for the requested kind, or fail fast.
///
/// A kind that cannot be had on `platform` yields a `Capture` error with
/// `has_captured == false` — a configuration failure, before any data —
/// whose message names the kind; no partially-constructed backend is
/// ever returned. A supported kind yields a fresh instance: nothing
/// pending, not done, nothing delivered.
pub fn create_capture(backend: BackendType, platform: Platform) -> (r: Result<
    Backend,
    CaptureError,
>)
    ensures
        supported_on(platform, backend) ==> (r matches Ok(b) && {
            &&& b.pending() == Seq::<Seq<u8>>::empty()
            &&& !b.done()
            &&& !b.captured()
        }),
        !supported_on(platform, backend) ==> (r matches Err(e) && e matches CaptureError::Capture {
            has_captured,
            error,
        } && has_captured == false && error@ == unsupported_message(backend)),
{
    match platform {
        Platform::Windows => match backend {
            BackendType::Pktmon => {
                return Ok(Backend::Pktmon(PktmonBackend::new()));
            },
            _ => {},
        },
        _ => {},
    }
    let mut cause = "Capture backend type ".to_owned();
    cause.append(backend.name());
    cause.append(" not supported on this operating system");
    Err(CaptureError::Capture { has_captured: false, error: cause })
}

} // verus!

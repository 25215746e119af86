//! The graphics context: how the adapter is asked for, and when the
//! negotiation of adapter and device has succeeded.

use crate::error::FatalError;
use vstd::prelude::*;

verus! {

/// Which kind of adapter is wanted where there are several.
#[derive(Clone, Copy, Debug, PartialEq, Eq, Structural)]
pub enum PowerPreference {
    LowPower,
    HighPerformance,
}

/// What is asked of the backend when an adapter is requested.
#[derive(Clone, Copy, Debug, PartialEq, Eq, Structural)]
pub struct AdapterRequest {
    pub power_preference: PowerPreference,
    /// Whether a software adapter is asked for.
    pub force_fallback_adapter: bool,
    /// Whether the adapter has to be able to present to the window's surface.
    pub compatible_with_surface: bool,
}

/// The request this library makes: the fastest adapter that can present to
/// the surface, and no software fallback.
pub open spec fn spec_adapter_request() -> AdapterRequest {
    AdapterRequest {
        power_preference: PowerPreference::HighPerformance,
        force_fallback_adapter: false,
        compatible_with_surface: true,
    }
}

/// How the negotiation ends for a backend that did or did not find an adapter
/// and did or did not grant a device: without an adapter there is nothing to
/// ask a device of, so its absence is reported first.
pub open spec fn spec_negotiated(adapter_found: bool, device_granted: bool) -> Option<FatalError> {
    if !adapter_found {
        Some(FatalError::AdapterUnavailable)
    } else if !device_granted {
        Some(FatalError::DeviceRequestFailed)
    } else {
        None
    }
}

/// Stands for an adapter, its logical device and its queue, negotiated with
/// the backend. A value exists only where the negotiation succeeded.
#[derive(Debug)]
pub struct GraphicsContext {
    request: AdapterRequest,
}

impl GraphicsContext {
    /// The request the context's adapter was chosen by.
    pub closed spec fn spec_request(&self) -> AdapterRequest {
        self.request
    }

    #[verifier::type_invariant]
    spec fn inv(self) -> bool {
        self.request == spec_adapter_request()
    }

    /// What to ask the backend for.
    pub fn adapter_request() -> (request: AdapterRequest)
        ensures
            request == spec_adapter_request(),
    {
        AdapterRequest {
            power_preference: PowerPreference::HighPerformance,
            force_fallback_adapter: false,
            compatible_with_surface: true,
        }
    }

    /// Makes the context once the backend has answered. It fails where no
    /// adapter was found, or where the adapter gave no device.
    pub fn create(adapter_found: bool, device_granted: bool) -> (context: Result<
        GraphicsContext,
        FatalError,
    >)
        ensures
            context is Ok <==> adapter_found && device_granted,
            context is Err ==> Some(context->Err_0) == spec_negotiated(
                adapter_found,
                device_granted,
            ),
            context is Ok ==> context->Ok_0.spec_request() == spec_adapter_request(),
    {
        if !adapter_found {
            Err(FatalError::AdapterUnavailable)
        } else if !device_granted {
            Err(FatalError::DeviceRequestFailed)
        } else {
            Ok(GraphicsContext { request: GraphicsContext::adapter_request() })
        }
    }

    /// The request the context's adapter was chosen by.
    pub fn request(&self) -> (request: AdapterRequest)
        ensures
            request == self.spec_request(),
            request == spec_adapter_request(),
    {
        proof {
            use_type_invariant(self);
        }
        self.request
    }
}

} // verus!

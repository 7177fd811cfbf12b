use vstd::prelude::*;

use crate::dto::DataRequestDto;
use crate::dto::RequestDto;

verus! {

/// The handler families a decoded command can be dispatched to: the
/// redirect workflow has a handler of its own; every other command goes
/// to the general call-through handler.
#[derive(Debug, Clone, Copy, PartialEq, Eq)]
pub enum ServiceKind {
    General,
    DataRedirect,
}

/// Which handler a command selects, by its domain and command tag alone.
pub open spec fn spec_service_kind(request: RequestDto) -> ServiceKind {
    match request {
        RequestDto::Data(DataRequestDto::Redirect { .. }) => ServiceKind::DataRedirect,
        _ => ServiceKind::General,
    }
}

/// Selects the handler for a decoded command. Selection is a pure
/// function of the request's tags, never of its payload, and cannot
/// fail: every variant has a handler.
pub fn create_service(request: &RequestDto) -> (k: ServiceKind)
    ensures
        k == spec_service_kind(*request),
{
    match request {
        RequestDto::Data(DataRequestDto::Redirect { .. }) => ServiceKind::DataRedirect,
        _ => ServiceKind::General,
    }
}

} // verus!

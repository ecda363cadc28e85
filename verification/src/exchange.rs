use vstd::prelude::*;
use crate::error::{Error, ErrorAndResponse, Fault};

verus! {

/// The HTTP success range of status codes.
pub open spec fn is_success_status(status: u16) -> bool {
    200 <= status < 300
}

/// Whether `status` lies in the success range.
pub fn status_is_success(status: u16) -> (r: bool)
    ensures
        r == is_success_status(status),
{
    200 <= status && status < 300
}

/// Everything one request/response exchange can come to, as observed at the
/// wire: the request could not be built; the send itself failed; the
/// response's body stream broke while being collected; or a response arrived,
/// with its status and its fully collected body.
#[derive(Debug)]
pub enum ExchangeEvent {
    BuildFailed(Fault),
    SendFailed(Fault),
    CollectFailed(Fault),
    Completed(u16, Vec<u8>),
}

/// Whether the event shows the connection itself failing under the exchange:
/// the send or the body stream broke. A build failure is a caller bug and
/// says nothing about the connection; a completed exchange shows it working.
pub open spec fn connection_failing(ev: ExchangeEvent) -> bool {
    match ev {
        ExchangeEvent::SendFailed(_) => true,
        ExchangeEvent::CollectFailed(_) => true,
        _ => false,
    }
}

/// What one exchange resolves to — exactly the outcome the event dictates.
/// A failure to build, send or collect is an `InternalError` of the matching
/// kind, carrying the fault unchanged; a completed exchange with a status in
/// the success range yields that status and the full body; a completed
/// exchange with any other status is a `ResponseUnsuccessful` that still
/// carries the full body.
pub open spec fn exchange_resolution(ev: ExchangeEvent) -> Result<(u16, Vec<u8>), ErrorAndResponse> {
    match ev {
        ExchangeEvent::BuildFailed(f) => Err(ErrorAndResponse::InternalError(Error::RequestBuild(f))),
        ExchangeEvent::SendFailed(f) => Err(ErrorAndResponse::InternalError(Error::RequestSend(f))),
        ExchangeEvent::CollectFailed(f) => Err(
            ErrorAndResponse::InternalError(Error::ResponseCollect(f)),
        ),
        ExchangeEvent::Completed(status, body) => if is_success_status(status) {
            Ok((status, body))
        } else {
            Err(ErrorAndResponse::ResponseUnsuccessful(status, body))
        },
    }
}

/// Resolves one exchange event to the caller-visible result.
pub fn resolve_exchange(ev: ExchangeEvent) -> (r: Result<(u16, Vec<u8>), ErrorAndResponse>)
    ensures
        r == exchange_resolution(ev),
{
    match ev {
        ExchangeEvent::BuildFailed(f) => Err(ErrorAndResponse::InternalError(Error::RequestBuild(f))),
        ExchangeEvent::SendFailed(f) => Err(ErrorAndResponse::InternalError(Error::RequestSend(f))),
        ExchangeEvent::CollectFailed(f) => Err(
            ErrorAndResponse::InternalError(Error::ResponseCollect(f)),
        ),
        ExchangeEvent::Completed(status, body) => if status_is_success(status) {
            Ok((status, body))
        } else {
            Err(ErrorAndResponse::ResponseUnsuccessful(status, body))
        },
    }
}

/// An exchange that completed with a success status: the shape of one step of
/// an untroubled run of requests.
pub open spec fn completed_success(ev: ExchangeEvent) -> bool {
    match ev {
        ExchangeEvent::Completed(status, _) => is_success_status(status),
        _ => false,
    }
}

/// A completed exchange whose status lies in the success range resolves to
/// exactly that status and exactly the body the server produced.
pub proof fn lemma_successful_response(status: u16, body: Vec<u8>)
    requires
        is_success_status(status),
    ensures
        exchange_resolution(ExchangeEvent::Completed(status, body)) == Ok::<
            (u16, Vec<u8>),
            ErrorAndResponse,
        >((status, body)),
{
}

/// A completed exchange whose status lies outside the success range resolves
/// to `ResponseUnsuccessful`, carrying that very status and the fully
/// collected body.
pub proof fn lemma_unsuccessful_response(status: u16, body: Vec<u8>)
    requires
        !is_success_status(status),
    ensures
        exchange_resolution(ExchangeEvent::Completed(status, body)) == Err::<
            (u16, Vec<u8>),
            ErrorAndResponse,
        >(ErrorAndResponse::ResponseUnsuccessful(status, body)),
{
}

/// A failed send resolves to `InternalError(RequestSend(_))`, with the fault
/// — in particular its cancellation / connection-loss classification —
/// carried through unchanged.
pub proof fn lemma_send_failure(fault: Fault)
    ensures
        exchange_resolution(ExchangeEvent::SendFailed(fault)) == Err::<
            (u16, Vec<u8>),
            ErrorAndResponse,
        >(ErrorAndResponse::InternalError(Error::RequestSend(fault))),
{
}

} // verus!

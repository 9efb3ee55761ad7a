//! The probe executor: classifies what one probe of a target observed.
//!
//! A probe runs a three-stage validation protocol in strict order. First
//! reachability: a transport-level failure ends the check as `Unresponsive`.
//! Then status validation: when a status code is expected, a mismatch ends
//! the check as `InvalidStatus`, before anything about the body counts.
//! Last body validation: an unreadable body, or a body in which an expected
//! pattern finds no match, ends the check as `InvalidBody`. A target whose
//! applicable stages all pass is healthy.
//!
//! The network exchange itself happens outside the library; its observable
//! result is handed in as a plain value, and `classify` fixes the outcome
//! for every such value.

use vstd::prelude::*;

use crate::host::{HTTPHost, HTTPHostView, Host, HostView};
use crate::pattern::{pattern_matches, pattern_search};

verus! {

/// The ways one probe can find a target unhealthy. `InvalidHeaders` is
/// reserved for a future header expectation; no probe produces it today.
#[derive(Debug, Clone, Copy, PartialEq, Eq)]
pub enum HTTPError {
    Unresponsive,
    InvalidStatus,
    InvalidBody,
    InvalidHeaders,
}

/// One probe's outcome: `Ok(())` for a healthy target, the first failed
/// stage's reason otherwise.
pub type HTTPResult = Result<(), HTTPError>;

/// What one HTTP exchange yielded once the host answered at all: the
/// received status code, and the body as text when it could be read.
pub struct ProbeResponse {
    pub status: u16,
    /// `None` when the body could not be read as text.
    pub body: Option<String>,
}

/// The mathematical image of a response.
pub struct ResponseView {
    pub status: u16,
    pub body: Option<Seq<char>>,
}

impl View for ProbeResponse {
    type V = ResponseView;

    open spec fn view(&self) -> ResponseView {
        ResponseView {
            status: self.status,
            body: match self.body {
                Some(t) => Some(t@),
                None => None,
            },
        }
    }
}

/// The image of a whole exchange; `None` stands for a transport-level
/// failure, where no response arrived.
pub open spec fn exchange_view(exchange: Option<ProbeResponse>) -> Option<ResponseView> {
    match exchange {
        Some(r) => Some(r@),
        None => None,
    }
}

/// The outcome of probing a target that expects `status` and `pattern`, for
/// every observable result of the exchange: the three validation stages in
/// their strict order, each reached only when the one before it passed.
pub open spec fn classify(host: HTTPHostView, exchange: Option<ResponseView>) -> HTTPResult {
    match exchange {
        None => Err(HTTPError::Unresponsive),
        Some(resp) => if host.status is Some && resp.status != host.status->Some_0 {
            Err(HTTPError::InvalidStatus)
        } else {
            match resp.body {
                None => Err(HTTPError::InvalidBody),
                Some(text) => if host.pattern is Some && !pattern_matches(
                    host.pattern->Some_0,
                    text,
                ) {
                    Err(HTTPError::InvalidBody)
                } else {
                    Ok(())
                },
            }
        },
    }
}

/// `classify`, dispatched over the target kinds.
pub open spec fn classify_host(host: HostView, exchange: Option<ResponseView>) -> HTTPResult {
    match host {
        HostView::HTTP(h) => classify(h, exchange),
    }
}

impl HTTPHost {
    /// Runs the validation protocol's decision stages against what one
    /// exchange with this target observed.
    pub fn evaluate(&self, exchange: Option<ProbeResponse>) -> (r: HTTPResult)
        ensures
            r == classify(self@, exchange_view(exchange)),
    {
        proof {
            use_type_invariant(self);
        }
        let resp = match exchange {
            None => {
                return Err(HTTPError::Unresponsive);
            },
            Some(resp) => resp,
        };
        match self.expected_status() {
            Some(expected) => {
                if resp.status != expected {
                    return Err(HTTPError::InvalidStatus);
                }
            },
            None => {},
        }
        let text = match resp.body {
            None => {
                return Err(HTTPError::InvalidBody);
            },
            Some(text) => text,
        };
        match self.expected_pattern() {
            Some(p) => {
                if !pattern_search(p.as_str(), text.as_str()) {
                    return Err(HTTPError::InvalidBody);
                }
            },
            None => {},
        }
        Ok(())
    }
}

impl Host {
    /// The single capability the run loop needs: classify one probe of this
    /// target, whatever its kind.
    pub fn evaluate(&self, exchange: Option<ProbeResponse>) -> (r: HTTPResult)
        ensures
            r == classify_host(self@, exchange_view(exchange)),
    {
        match self {
            Host::HTTP(h) => h.evaluate(exchange),
        }
    }
}

/// Law: a target with no expectations is healthy exactly when the host
/// answered and the body could be read, whatever the status code and the
/// body say.
pub proof fn lemma_no_expectations_healthy(host: HTTPHostView, exchange: Option<ResponseView>)
    requires
        host.status is None,
        host.pattern is None,
    ensures
        classify(host, exchange) == Ok::<(), HTTPError>(()) <==> (exchange is Some
            && exchange->Some_0.body is Some),
{
}

/// Law: when a status code is expected and the host answered with a
/// different one, the outcome is `InvalidStatus` - also when a configured
/// pattern would have failed as well, since status is checked first.
pub proof fn lemma_status_mismatch_wins(host: HTTPHostView, exchange: Option<ResponseView>)
    requires
        host.status is Some,
        exchange is Some,
        exchange->Some_0.status != host.status->Some_0,
    ensures
        classify(host, exchange) == Err::<(), HTTPError>(HTTPError::InvalidStatus),
{
}

/// Law: when a pattern is expected, the status expectation (if any) agreed,
/// and the body was readable, the pattern alone decides: `InvalidBody` when
/// it finds no match, healthy when it does.
pub proof fn lemma_pattern_decides(host: HTTPHostView, exchange: Option<ResponseView>)
    requires
        host.pattern is Some,
        host.status is Some ==> exchange->Some_0.status == host.status->Some_0,
        exchange is Some,
        exchange->Some_0.body is Some,
    ensures
        classify(host, exchange) == Err::<(), HTTPError>(HTTPError::InvalidBody) <==> !pattern_matches(
            host.pattern->Some_0,
            exchange->Some_0.body->Some_0,
        ),
        classify(host, exchange) == Ok::<(), HTTPError>(()) <==> pattern_matches(
            host.pattern->Some_0,
            exchange->Some_0.body->Some_0,
        ),
{
}

/// Law: a transport-level failure is always `Unresponsive`, never a status
/// or body verdict, whatever the target expects.
pub proof fn lemma_unreachable_unresponsive(host: HTTPHostView)
    ensures
        classify(host, None) == Err::<(), HTTPError>(HTTPError::Unresponsive),
{
}

/// Law: the reserved `InvalidHeaders` reason is never produced by today's
/// protocol.
pub proof fn lemma_headers_reserved(host: HTTPHostView, exchange: Option<ResponseView>)
    ensures
        classify(host, exchange) != Err::<(), HTTPError>(HTTPError::InvalidHeaders),
{
}

} // verus!

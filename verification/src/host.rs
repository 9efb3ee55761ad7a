//! The target model: the tagged union of monitorable target kinds and each
//! kind's expectation fields.
//!
//! A target is built once from a structured description and is immutable
//! afterwards. Construction enforces the model's invariants: an expected
//! status code lies in the valid HTTP range, and an expected body pattern
//! compiles. Neither the label nor the URL is inspected here; whether an
//! empty label or a malformed URL should be rejected is left open, so any
//! string is accepted for both.

use vstd::prelude::*;

use crate::pattern::{pattern_is_valid, pattern_valid};

verus! {

/// Why a target description was rejected.
#[derive(Debug, Clone, Copy, PartialEq, Eq)]
pub enum ValidationError {
    /// The kind tag selects no known target kind.
    UnknownKind,
    /// The description carries no label.
    MissingLabel,
    /// The description carries no URL.
    MissingUrl,
    /// The expected status code lies outside the valid HTTP range.
    StatusOutOfRange,
    /// The expected body pattern does not compile.
    InvalidPattern,
}

/// The structured description a target is built from: a discriminator
/// selecting the kind, plus that kind's fields. Only the `"http"` kind is
/// defined; its optional fields may be absent, its required fields are
/// `Option` here so that their absence can be reported.
pub struct TargetDescription {
    pub kind: String,
    pub label: Option<String>,
    pub url: Option<String>,
    pub status: Option<u16>,
    pub pattern: Option<String>,
}

/// The valid HTTP status code range.
pub open spec fn status_in_range(s: u16) -> bool {
    100 <= s <= 599
}

/// The mathematical image of an HTTP target.
pub struct HTTPHostView {
    pub label: Seq<char>,
    pub url: Seq<char>,
    pub status: Option<u16>,
    pub pattern: Option<Seq<char>>,
}

/// The mathematical image of a target of any kind.
pub enum HostView {
    HTTP(HTTPHostView),
}

/// The text of an optional pattern.
pub open spec fn opt_string_view(s: Option<String>) -> Option<Seq<char>> {
    match s {
        Some(t) => Some(t@),
        None => None,
    }
}

/// One HTTP endpoint to be health-checked: where to probe, and what the
/// probe must see to count the endpoint as healthy.
#[derive(Debug)]
pub struct HTTPHost {
    pub(crate) label: String,
    pub(crate) url: String,
    pub(crate) status: Option<u16>,
    pub(crate) pattern: Option<String>,
}

impl View for HTTPHost {
    type V = HTTPHostView;

    closed spec fn view(&self) -> HTTPHostView {
        HTTPHostView {
            label: self.label@,
            url: self.url@,
            status: self.status,
            pattern: opt_string_view(self.pattern),
        }
    }
}

impl HTTPHost {
    /// Holds of every constructed target: a present status expectation is a
    /// valid HTTP status code, and a present pattern expectation compiles.
    #[verifier::type_invariant]
    pub open(crate) spec fn wf(self) -> bool {
        &&& self@.status is Some ==> status_in_range(self@.status->Some_0)
        &&& self@.pattern is Some ==> pattern_valid(self@.pattern->Some_0)
    }

    /// Builds an HTTP target, rejecting an out-of-range status expectation
    /// and then a pattern expectation that does not compile.
    pub fn new(label: String, url: String, status: Option<u16>, pattern: Option<String>) -> (r:
        Result<HTTPHost, ValidationError>)
        ensures
            r is Ok <==> {
                &&& status is Some ==> status_in_range(status->Some_0)
                &&& pattern is Some ==> pattern_valid(pattern->Some_0@)
            },
            r is Ok ==> r->Ok_0@ == (HTTPHostView {
                label: label@,
                url: url@,
                status: status,
                pattern: opt_string_view(pattern),
            }),
            r == Err::<HTTPHost, ValidationError>(ValidationError::StatusOutOfRange) <==> (
            status is Some && !status_in_range(status->Some_0)),
            r == Err::<HTTPHost, ValidationError>(ValidationError::InvalidPattern) <==> {
                &&& status is Some ==> status_in_range(status->Some_0)
                &&& pattern is Some
                &&& !pattern_valid(pattern->Some_0@)
            },
    {
        match status {
            Some(s) => {
                if s < 100 || s > 599 {
                    return Err(ValidationError::StatusOutOfRange);
                }
            },
            None => {},
        }
        match &pattern {
            Some(p) => {
                if !pattern_is_valid(p.as_str()) {
                    return Err(ValidationError::InvalidPattern);
                }
            },
            None => {},
        }
        Ok(HTTPHost { label, url, status, pattern })
    }

    /// The human-readable identifier of this target.
    pub fn label(&self) -> (r: &String)
        ensures
            r@ == self@.label,
    {
        &self.label
    }

    /// The endpoint this target probes.
    pub fn url(&self) -> (r: &String)
        ensures
            r@ == self@.url,
    {
        &self.url
    }

    /// The status code the probe must see, if one is expected.
    pub fn expected_status(&self) -> (r: Option<u16>)
        ensures
            r == self@.status,
    {
        self.status
    }

    /// The pattern the response body must contain a match of, if one is
    /// expected.
    pub fn expected_pattern(&self) -> (r: Option<&String>)
        ensures
            r is Some <==> self@.pattern is Some,
            r is Some ==> r->Some_0@ == self@.pattern->Some_0,
    {
        self.pattern.as_ref()
    }
}

/// A monitorable target: a tagged union over target kinds, closed today but
/// laid out so that a further kind adds a variant without changing how the
/// probe is invoked.
#[derive(Debug)]
pub enum Host {
    HTTP(HTTPHost),
}

impl View for Host {
    type V = HostView;

    open spec fn view(&self) -> HostView {
        match self {
            Host::HTTP(h) => HostView::HTTP(h@),
        }
    }
}

/// Whether a description names a known kind, carries every required field,
/// and meets the kind's invariants.
pub open spec fn description_accepted(d: TargetDescription) -> bool {
    &&& d.kind@ == "http"@
    &&& d.label is Some
    &&& d.url is Some
    &&& d.status is Some ==> status_in_range(d.status->Some_0)
    &&& d.pattern is Some ==> pattern_valid(d.pattern->Some_0@)
}

impl Host {
    /// Builds a target from a structured description. The checks run in a
    /// fixed order - kind, label, URL, status range, pattern - and the first
    /// failure is reported.
    pub fn from_description(d: TargetDescription) -> (r: Result<Host, ValidationError>)
        ensures
            r is Ok <==> description_accepted(d),
            r is Ok ==> r->Ok_0@ == HostView::HTTP(HTTPHostView {
                label: d.label->Some_0@,
                url: d.url->Some_0@,
                status: d.status,
                pattern: opt_string_view(d.pattern),
            }),
            r == Err::<Host, ValidationError>(ValidationError::UnknownKind) <==> d.kind@
                != "http"@,
            r == Err::<Host, ValidationError>(ValidationError::MissingLabel) <==> (d.kind@
                == "http"@ && d.label is None),
            r == Err::<Host, ValidationError>(ValidationError::MissingUrl) <==> (d.kind@ == "http"@
                && d.label is Some && d.url is None),
            r == Err::<Host, ValidationError>(ValidationError::StatusOutOfRange) <==> {
                &&& d.kind@ == "http"@
                &&& d.label is Some
                &&& d.url is Some
                &&& d.status is Some
                &&& !status_in_range(d.status->Some_0)
            },
            r == Err::<Host, ValidationError>(ValidationError::InvalidPattern) <==> {
                &&& d.kind@ == "http"@
                &&& d.label is Some
                &&& d.url is Some
                &&& d.status is Some ==> status_in_range(d.status->Some_0)
                &&& d.pattern is Some
                &&& !pattern_valid(d.pattern->Some_0@)
            },
    {
        let http_tag: String = "http".to_owned();
        if !(d.kind == http_tag) {
            return Err(ValidationError::UnknownKind);
        }
        let label = match d.label {
            Some(l) => l,
            None => {
                return Err(ValidationError::MissingLabel);
            },
        };
        let url = match d.url {
            Some(u) => u,
            None => {
                return Err(ValidationError::MissingUrl);
            },
        };
        match HTTPHost::new(label, url, d.status, d.pattern) {
            Ok(h) => Ok(Host::HTTP(h)),
            Err(e) => Err(e),
        }
    }

    /// The human-readable identifier of this target, whatever its kind.
    pub fn label(&self) -> (r: &String)
        ensures
            self@ matches HostView::HTTP(h) ==> r@ == h.label,
    {
        match self {
            Host::HTTP(h) => h.label(),
        }
    }
}

} // verus!

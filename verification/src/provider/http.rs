//! What the providers decide about one catalog response: terminal errors
//! for connection failures and unexpected statuses, and otherwise the
//! page body with whether another page follows. The request itself is the
//! driver's work.

use vstd::prelude::*;

use crate::numfmt::dec_nat;

verus! {

/// What the driver observed for one catalog request.
#[derive(Debug, Clone, PartialEq, Eq)]
pub enum HttpEvent {
    /// The request could not be sent at all; carries the error text.
    SendFailed(String),
    /// A response arrived: its status code, the value of its
    /// next-page indicator header when one was present, and its body.
    Response { status: u16, next_page: Option<String>, body: String },
}

/// The model of an [`HttpEvent`].
pub enum HttpEventView {
    SendFailed(Seq<char>),
    Response { status: u16, next_page: Option<Seq<char>>, body: Seq<char> },
}

impl View for HttpEvent {
    type V = HttpEventView;

    open spec fn view(&self) -> HttpEventView {
        match self {
            HttpEvent::SendFailed(e) => HttpEventView::SendFailed(e@),
            HttpEvent::Response { status, next_page, body } => HttpEventView::Response {
                status: *status,
                next_page: next_page.deep_view(),
                body: body@,
            },
        }
    }
}

/// What one response means for the enumeration.
#[derive(Debug, Clone, PartialEq, Eq)]
pub enum PageVerdict {
    /// Enumeration fails with this message.
    Failed(String),
    /// A page arrived, and `more` says whether another page follows.
    Page { body: String, more: bool },
}

/// The model of a [`PageVerdict`].
pub enum PageVerdictView {
    Failed(Seq<char>),
    Page { body: Seq<char>, more: bool },
}

impl View for PageVerdict {
    type V = PageVerdictView;

    open spec fn view(&self) -> PageVerdictView {
        match self {
            PageVerdict::Failed(msg) => PageVerdictView::Failed(msg@),
            PageVerdict::Page { body, more } => PageVerdictView::Page { body: body@, more: *more },
        }
    }
}

/// The message when a request cannot be sent.
pub open spec fn connect_failed_message(url: Seq<char>, err: Seq<char>) -> Seq<char> {
    "Unable to connect to: "@ + url + " ("@ + err + ")"@
}

/// The message for an unauthorized response, telling the operator which
/// environment variable carries the token.
pub open spec fn unauthorized_message(status: u16, url: Seq<char>, token_var: Seq<char>) -> Seq<
    char,
> {
    "API call received unautorized ("@ + dec_nat(status as nat) + ") for: "@ + url
        + ". Please make sure the `"@ + token_var + "` environment variable is set."@
}

/// The message for any other unexpected status.
pub open spec fn invalid_status_message(status: u16, url: Seq<char>) -> Seq<char> {
    "API call received invalid status ("@ + dec_nat(status as nat) + ") for : "@ + url
}

/// What [`page_verdict`] decides for each observation.
pub open spec fn spec_page_verdict(
    url: Seq<char>,
    token_var: Seq<char>,
    event: HttpEventView,
) -> PageVerdictView {
    match event {
        HttpEventView::SendFailed(e) => PageVerdictView::Failed(connect_failed_message(url, e)),
        HttpEventView::Response { status, next_page, body } => {
            if status == 401 {
                PageVerdictView::Failed(unauthorized_message(status, url, token_var))
            } else if status != 200 {
                PageVerdictView::Failed(invalid_status_message(status, url))
            } else {
                PageVerdictView::Page {
                    body,
                    more: match next_page {
                        Some(h) => h.len() > 0,
                        None => false,
                    },
                }
            }
        },
    }
}

/// Classifies one response: a failed send or a status other than 200 is
/// terminal — 401 with a hint at the token variable — and a 200 response
/// is a page, with another one following exactly when the next-page
/// header is present and non-empty.
pub fn page_verdict(url: &str, token_var: &str, event: HttpEvent) -> (r: PageVerdict)
    ensures
        r@ == spec_page_verdict(url@, token_var@, event@),
{
    match event {
        HttpEvent::SendFailed(e) => {
            let mut msg = String::from_str("Unable to connect to: ");
            msg.append(url);
            msg.append(" (");
            msg.append(e.as_str());
            msg.append(")");
            PageVerdict::Failed(msg)
        },
        HttpEvent::Response { status, next_page, body } => {
            if status == 401 {
                let mut msg = String::from_str("API call received unautorized (");
                msg.append(crate::numfmt::u64_to_dec(status as u64).as_str());
                msg.append(") for: ");
                msg.append(url);
                msg.append(". Please make sure the `");
                msg.append(token_var);
                msg.append("` environment variable is set.");
                PageVerdict::Failed(msg)
            } else if status != 200 {
                let mut msg = String::from_str("API call received invalid status (");
                msg.append(crate::numfmt::u64_to_dec(status as u64).as_str());
                msg.append(") for : ");
                msg.append(url);
                PageVerdict::Failed(msg)
            } else {
                let more = match &next_page {
                    Some(h) => !h.as_str().is_empty(),
                    None => false,
                };
                PageVerdict::Page { body, more }
            }
        },
    }
}

/// The message when a page body cannot be read as the expected JSON.
pub open spec fn json_failed_message(cause: Seq<char>) -> Seq<char> {
    "Unable to parse response as JSON ("@ + cause + ")"@
}

/// Builds the message for a page body that cannot be read as JSON.
pub fn json_failed(cause: &str) -> (r: String)
    ensures
        r@ == json_failed_message(cause@),
{
    let mut msg = String::from_str("Unable to parse response as JSON (");
    msg.append(cause);
    msg.append(")");
    msg
}

} // verus!

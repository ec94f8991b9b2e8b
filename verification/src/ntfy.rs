//! Messages for an ntfy server: where a message goes and what it carries.

use vstd::prelude::*;
use crate::text::{trim_end_slashes, trim_trailing_slashes};

verus! {

/// An HTTP POST to an ntfy server: the URL, the `Title` and `Priority`
/// headers and the body.
#[derive(Clone, Debug, PartialEq)]
pub struct NtfyRequest {
    pub url: String,
    pub title: String,
    pub priority: String,
    pub body: String,
}

pub struct NtfyRequestView {
    pub url: Seq<char>,
    pub title: Seq<char>,
    pub priority: Seq<char>,
    pub body: Seq<char>,
}

impl View for NtfyRequest {
    type V = NtfyRequestView;

    open spec fn view(&self) -> NtfyRequestView {
        NtfyRequestView {
            url: self.url@,
            title: self.title@,
            priority: self.priority@,
            body: self.body@,
        }
    }
}

pub open spec fn request_opt_view(r: Option<NtfyRequest>) -> Option<NtfyRequestView> {
    match r {
        Some(q) => Some(q@),
        None => None,
    }
}

/// The URL of `topic` on `server`: the server without trailing slashes, a
/// slash, the topic.
pub open spec fn topic_url(server: Seq<char>, topic: Seq<char>) -> Seq<char> {
    trim_trailing_slashes(server) + "/"@ + topic
}

/// The message that goes out for these values: none when the topic is empty.
pub open spec fn message(
    server: Seq<char>,
    topic: Seq<char>,
    title: Seq<char>,
    priority: Seq<char>,
    body: Seq<char>,
) -> Option<NtfyRequestView> {
    if topic.len() == 0 {
        None
    } else {
        Some(
            NtfyRequestView { url: topic_url(server, topic), title, priority, body },
        )
    }
}

/// Prepares the POST that publishes `body` to `topic` on `server`; `None`
/// when the topic is empty, in which case nothing is sent.
pub fn prepare(server: &str, topic: &str, title: &str, priority: &str, body: &str) -> (r: Option<
    NtfyRequest,
>)
    ensures
        request_opt_view(r) == message(server@, topic@, title@, priority@, body@),
        r is Some <==> topic@.len() > 0,
        r matches Some(q) ==> q.url@ == trim_trailing_slashes(server@) + "/"@ + topic@,
        r matches Some(q) ==> q.title@ == title@ && q.priority@ == priority@ && q.body@ == body@,
{
    if topic.is_empty() {
        return None;
    }
    let mut url = String::from_str(trim_end_slashes(server));
    url.append("/");
    url.append(topic);
    Some(
        NtfyRequest {
            url,
            title: String::from_str(title),
            priority: String::from_str(priority),
            body: String::from_str(body),
        },
    )
}

} // verus!

//! Fetching one file from a CDN that answers with chains of redirects.
//!
//! A [`Download`] decides, reply by reply, whether to follow a redirect,
//! save the body, or give up; the caller performs the requests.

use vstd::prelude::*;
use crate::text::{concat, decimal, push_decimal};

verus! {

/// How many redirects one download follows at most.
pub const MAX_REDIRECTS: u32 = 15;

/// What one request brought back.
pub enum FetchReply {
    /// The request did not complete; the transport's message.
    TransportFailed(String),
    /// An HTTP status, its reason phrase, and the `location` header: absent,
    /// readable as text, or not (with the reason).
    Status { code: u16, reason: String, location: Option<Result<String, String>> },
}

/// Why a download failed.
pub enum DownloadError {
    Transport(String),
    InvalidRedirect(String),
    BadStatus { code: u16, reason: String },
    TooManyRedirects(String),
}

/// The text of a download error.
pub open spec fn download_error_text(e: DownloadError) -> Seq<char> {
    match e {
        DownloadError::Transport(m) => "Failed to download file: "@ + m@,
        DownloadError::InvalidRedirect(m) => "Invalid redirect URL: "@ + m@,
        DownloadError::BadStatus { code, reason } => "Download failed with status: "@ + decimal(
            code as nat,
        ) + " "@ + reason@,
        DownloadError::TooManyRedirects(url) => "Too many redirects while downloading from "@ + url@,
    }
}

impl DownloadError {
    /// The error as a message.
    pub fn message(&self) -> (r: String)
        ensures
            r@ == download_error_text(*self),
    {
        match self {
            DownloadError::Transport(m) => concat("Failed to download file: ", m.as_str()),
            DownloadError::InvalidRedirect(m) => concat("Invalid redirect URL: ", m.as_str()),
            DownloadError::BadStatus { code, reason } => {
                let mut r = String::from_str("Download failed with status: ");
                push_decimal(&mut r, *code as u128);
                r.append(" ");
                r.append(reason.as_str());
                r
            },
            DownloadError::TooManyRedirects(url) => concat(
                "Too many redirects while downloading from ",
                url.as_str(),
            ),
        }
    }
}

/// What to do next.
pub enum DownloadStep {
    /// Request this address.
    Fetch(String),
    /// The last reply succeeded: write its body to the destination.
    Save,
    /// Stop with this error.
    Failed(DownloadError),
}

/// How a reply is judged.
#[derive(PartialEq, Eq, Structural, Clone, Copy, Debug)]
pub enum Verdict {
    Follow,
    Save,
    TooManyRedirects,
    Failed,
}

pub open spec fn is_redirection(code: u16) -> bool {
    300 <= code <= 399
}

pub open spec fn is_success(code: u16) -> bool {
    200 <= code <= 299
}

/// A redirection whose `location` header could be read.
pub open spec fn is_followable(reply: FetchReply) -> bool {
    reply matches FetchReply::Status { code, location: Some(Ok(_)), .. } && is_redirection(code)
}

/// A status that is neither a followable redirect nor a success.
pub open spec fn is_rejection(reply: FetchReply) -> bool {
    &&& reply matches FetchReply::Status { code, .. }
    &&& !is_followable(reply)
    &&& !(reply matches FetchReply::Status { code, location, .. } && (is_redirection(code)
        && location matches Some(Err(_))))
    &&& !is_success(reply->code)
}

/// The judgement on `reply` after `redirects` redirects were followed.
pub open spec fn verdict_of(redirects: nat, reply: FetchReply) -> Verdict {
    match reply {
        FetchReply::TransportFailed(_) => Verdict::Failed,
        FetchReply::Status { code, location, .. } => {
            if is_redirection(code) && location is Some {
                match location->0 {
                    Ok(_) => if redirects + 1 < MAX_REDIRECTS {
                        Verdict::Follow
                    } else {
                        Verdict::TooManyRedirects
                    },
                    Err(_) => Verdict::Failed,
                }
            } else if is_success(code) {
                Verdict::Save
            } else {
                Verdict::Failed
            }
        },
    }
}

/// The redirect count after `reply`: one more for a followable redirect.
pub open spec fn redirects_after(redirects: nat, reply: FetchReply) -> nat {
    if is_followable(reply) {
        redirects + 1
    } else {
        redirects
    }
}

/// Where a run of replies ends: the first judgement that is not `Follow`
/// (or `Follow` if the replies run out first), and the redirect count then.
pub open spec fn run_replies(redirects: nat, replies: Seq<FetchReply>) -> (Verdict, nat)
    decreases replies.len(),
{
    if replies.len() == 0 {
        (Verdict::Follow, redirects)
    } else {
        let v = verdict_of(redirects, replies[0]);
        let next = redirects_after(redirects, replies[0]);
        if v == Verdict::Follow {
            run_replies(next, replies.drop_first())
        } else {
            (v, next)
        }
    }
}

/// One download in progress.
pub struct Download {
    /// The address first asked for.
    pub url: String,
    /// Redirects followed so far.
    pub redirects: u32,
}

impl Download {
    /// Starts a download of `url`; the first step is to fetch it.
    pub fn start(url: String) -> (r: (Download, DownloadStep))
        ensures
            r.0.url@ == url@,
            r.0.redirects == 0,
            r.1 matches DownloadStep::Fetch(u) && u@ == url@,
    {
        let first = url.clone();
        (Download { url, redirects: 0 }, DownloadStep::Fetch(first))
    }

    /// Judges one reply and says what to do next.
    pub fn next(&mut self, reply: FetchReply) -> (r: DownloadStep)
        requires
            old(self).redirects < MAX_REDIRECTS,
        ensures
            final(self).url == old(self).url,
            final(self).redirects == redirects_after(old(self).redirects as nat, reply),
            verdict_of(old(self).redirects as nat, reply) == Verdict::Follow ==> (r matches DownloadStep::Fetch(u)
                && reply->location == Some(Ok::<String, String>(u))),
            verdict_of(old(self).redirects as nat, reply) == Verdict::Save <==> r is Save,
            verdict_of(old(self).redirects as nat, reply) == Verdict::TooManyRedirects ==> (
            r matches DownloadStep::Failed(DownloadError::TooManyRedirects(u)) && u@ == old(
                self,
            ).url@),
            verdict_of(old(self).redirects as nat, reply) == Verdict::Failed ==> match reply {
                FetchReply::TransportFailed(m) => r == DownloadStep::Failed(
                    DownloadError::Transport(m),
                ),
                FetchReply::Status { code, reason, location } => match location {
                    Some(Err(m)) if is_redirection(code) => r == DownloadStep::Failed(
                        DownloadError::InvalidRedirect(m),
                    ),
                    _ => r == DownloadStep::Failed(DownloadError::BadStatus { code, reason }),
                },
            },
    {
        match reply {
            FetchReply::TransportFailed(m) => DownloadStep::Failed(DownloadError::Transport(m)),
            FetchReply::Status { code, reason, location } => {
                if 300 <= code && code <= 399 && location.is_some() {
                    match location {
                        Some(Ok(u)) => {
                            self.redirects = self.redirects + 1;
                            if self.redirects < MAX_REDIRECTS {
                                DownloadStep::Fetch(u)
                            } else {
                                DownloadStep::Failed(
                                    DownloadError::TooManyRedirects(self.url.clone()),
                                )
                            }
                        },
                        Some(Err(m)) => DownloadStep::Failed(DownloadError::InvalidRedirect(m)),
                        None => DownloadStep::Failed(DownloadError::BadStatus { code, reason }),
                    }
                } else if 200 <= code && code <= 299 {
                    DownloadStep::Save
                } else {
                    DownloadStep::Failed(DownloadError::BadStatus { code, reason })
                }
            },
        }
    }
}

/// Fewer redirects than the bound, then a success: the download completes,
/// having followed each redirect.
pub proof fn lemma_redirects_then_success(replies: Seq<FetchReply>, n: nat)
    requires
        n < MAX_REDIRECTS,
        replies.len() == n + 1,
        forall|i: int| 0 <= i < n ==> is_followable(#[trigger] replies[i]),
        replies[n as int] matches FetchReply::Status { code, .. } && is_success(code),
    ensures
        run_replies(0, replies) == (Verdict::Save, n),
{
    lemma_follow_run(replies, n, 0);
}

proof fn lemma_follow_run(replies: Seq<FetchReply>, n: nat, start: nat)
    requires
        start + n < MAX_REDIRECTS,
        replies.len() == n + 1,
        forall|i: int| 0 <= i < n ==> is_followable(#[trigger] replies[i]),
        replies[n as int] matches FetchReply::Status { code, .. } && is_success(code),
    ensures
        run_replies(start, replies) == (Verdict::Save, start + n),
    decreases n,
{
    if n > 0 {
        let rest = replies.drop_first();
        assert forall|i: int| 0 <= i < n - 1 implies is_followable(#[trigger] rest[i]) by {
            assert(rest[i] == replies[i + 1]);
        }
        assert(rest[n - 1] == replies[n as int]);
        lemma_follow_run(rest, (n - 1) as nat, start + 1);
    }
}

/// As many redirects as the bound (or more): the download fails with the
/// too-many-redirects error at the last one that the bound allows.
pub proof fn lemma_too_many_redirects(replies: Seq<FetchReply>)
    requires
        replies.len() >= MAX_REDIRECTS,
        forall|i: int| 0 <= i < MAX_REDIRECTS ==> is_followable(#[trigger] replies[i]),
    ensures
        run_replies(0, replies) == (Verdict::TooManyRedirects, MAX_REDIRECTS as nat),
{
    lemma_redirect_run(replies, 0);
}

proof fn lemma_redirect_run(replies: Seq<FetchReply>, start: nat)
    requires
        start < MAX_REDIRECTS,
        replies.len() >= MAX_REDIRECTS - start,
        forall|i: int| 0 <= i < MAX_REDIRECTS - start ==> is_followable(#[trigger] replies[i]),
    ensures
        run_replies(start, replies) == (Verdict::TooManyRedirects, MAX_REDIRECTS as nat),
    decreases MAX_REDIRECTS - start,
{
    assert(is_followable(replies[0]));
    if start + 1 < MAX_REDIRECTS {
        let rest = replies.drop_first();
        assert forall|i: int| 0 <= i < MAX_REDIRECTS - (start + 1) implies is_followable(
            #[trigger] rest[i],
        ) by {
            assert(rest[i] == replies[i + 1]);
        }
        lemma_redirect_run(rest, start + 1);
    }
}

/// A status that is neither a redirect nor a success ends the download at
/// once, without counting as a redirect.
pub proof fn lemma_rejection_fails_at_once(redirects: nat, replies: Seq<FetchReply>)
    requires
        replies.len() > 0,
        is_rejection(replies[0]),
    ensures
        run_replies(redirects, replies) == (Verdict::Failed, redirects),
{
}

} // verus!

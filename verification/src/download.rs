//! The download bridge.
//!
//! The native engine promotes a navigation to a download and then drives its
//! lifecycle: one destination-decision request, followed by exactly one of a
//! finished or a failed signal. The platform glue reads the raw signals,
//! invokes the application's callbacks, and lets this module resolve what is
//! reported back to the engine and to the application.
//!
//! The application registers two optional callbacks on the owning view: a
//! path-decision callback `(url, &mut path) -> accept` and a completion
//! callback `(url, path, success)`. A missing callback is not an error — it
//! means the owning view is gone — and degrades to a safe default: the
//! decision request resolves to "no destination" (with a diagnostic), and a
//! completion passes silently.

use vstd::prelude::*;

verus! {

/// What the engine is told about where a download may be written.
pub enum DestinationDecision {
    /// Accept: write to this path (the callback's, possibly rewritten).
    Destination { path: String },
    /// Reject: the engine aborts the download; no file write is initiated.
    NoDestination,
}

/// The answer of the application's path-decision callback.
pub struct CallbackAnswer {
    /// Whether the callback accepted the download.
    pub accepted: bool,
    /// The suggested destination path as the callback left it.
    pub path: String,
}

/// The result of resolving one destination-decision request.
pub struct DecisionOutcome {
    pub decision: DestinationDecision,
    /// True exactly when the request arrived with no callback registered
    /// (the owning view is gone); a diagnostic is to be recorded then.
    pub diagnostic: bool,
}

/// One completion notification, to be delivered to the completion callback.
pub struct CompletionNotice {
    /// The download's originating request URL.
    pub url: String,
    /// The final path; never carried on this contract (see the module doc).
    pub path: Option<String>,
    /// True when the download finished, false when it failed.
    pub success: bool,
}

/// How a decision request resolves: accept yields the callback's (possibly
/// rewritten) path, reject yields no destination, and a missing callback
/// yields no destination together with a diagnostic.
pub open spec fn decision_resolves(answer: Option<CallbackAnswer>, r: DecisionOutcome) -> bool {
    &&& (match answer {
        Some(a) => {
            if a.accepted {
                r.decision matches DestinationDecision::Destination { path } && path@ == a.path@
            } else {
                r.decision is NoDestination
            }
        },
        None => r.decision is NoDestination,
    })
    &&& r.diagnostic == (answer is None)
}

/// Resolves one destination-decision request from the callback's answer, or
/// from its absence. The decision must be delivered to the engine's
/// completion token exactly once; the caller hands over precisely the one
/// outcome produced here, with no implicit default.
pub fn resolve_destination(answer: Option<CallbackAnswer>) -> (r: DecisionOutcome)
    ensures
        decision_resolves(answer, r),
{
    match answer {
        Some(a) => {
            if a.accepted {
                DecisionOutcome {
                    decision: DestinationDecision::Destination { path: a.path },
                    diagnostic: false,
                }
            } else {
                DecisionOutcome { decision: DestinationDecision::NoDestination, diagnostic: false }
            }
        },
        None => DecisionOutcome { decision: DestinationDecision::NoDestination, diagnostic: true },
    }
}

/// The completion notice reported for one download signal: the originating
/// URL, no path (the final path is never threaded through on this contract),
/// and whether the finished or the failed signal was taken.
pub fn completion_notice(url: String, success: bool) -> (n: CompletionNotice)
    ensures
        n.url@ == url@,
        n.path is None,
        n.success == success,
{
    CompletionNotice { url, path: None, success }
}

/// One download's lifecycle, tracked from the moment the engine promotes a
/// navigation to a download until its single completion.
///
/// The type maintains the lifecycle invariant: the destination decision is
/// resolved at most once and strictly before completion, and at most one
/// completion notice is ever emitted.
pub struct DownloadSession {
    url: String,
    decided: bool,
    completed: Option<bool>,
}

impl DownloadSession {
    /// The originating request URL this session was created for.
    pub closed spec fn spec_url(self) -> Seq<char> {
        self.url@
    }

    /// Whether the destination decision has been resolved.
    pub closed spec fn is_decided(self) -> bool {
        self.decided
    }

    /// The completion outcome: `None` while the download is in flight,
    /// `Some(success)` once the one completion notice was emitted.
    pub closed spec fn completion(self) -> Option<bool> {
        self.completed
    }

    /// Whether the session still admits a destination decision: none was
    /// resolved yet and no completion notice was emitted.
    pub open spec fn can_decide(self) -> bool {
        !self.is_decided() && self.completion() is None
    }

    /// Starts tracking a download just promoted from a navigation.
    pub fn begin(url: String) -> (s: Self)
        ensures
            s.spec_url() == url@,
            !s.is_decided(),
            s.completion() is None,
    {
        DownloadSession { url, decided: false, completed: None }
    }

    /// Resolves the session's destination-decision request.
    ///
    /// `answer` is the path-decision callback's answer, or `None` when no
    /// callback is registered. The engine asks at most once, before any
    /// completion signal; the contract holds the caller to that order.
    pub fn decide(&mut self, answer: Option<CallbackAnswer>) -> (r: DecisionOutcome)
        requires
            old(self).can_decide(),
        ensures
            final(self).is_decided(),
            final(self).completion() is None,
            final(self).spec_url() == old(self).spec_url(),
            decision_resolves(answer, r),
    {
        self.decided = true;
        resolve_destination(answer)
    }

    /// Emits the completion notice for a download the engine reports
    /// finished. The success path intentionally carries no final path.
    pub fn finish(&mut self) -> (n: CompletionNotice)
        requires
            old(self).completion() is None,
        ensures
            finish_transition(*old(self), *final(self), n),
    {
        self.completed = Some(true);
        CompletionNotice { url: self.url.clone(), path: None, success: true }
    }

    /// Emits the completion notice for a download the engine reports failed.
    /// The engine's error description is surfaced only as a local diagnostic
    /// by the caller, never through this notice.
    pub fn fail(&mut self) -> (n: CompletionNotice)
        requires
            old(self).completion() is None,
        ensures
            fail_transition(*old(self), *final(self), n),
    {
        self.completed = Some(false);
        CompletionNotice { url: self.url.clone(), path: None, success: false }
    }
}

/// The transition a `finish` call makes: it needs a session without an
/// outcome, records a successful one, and emits a successful notice for the
/// session's URL with no path.
pub open spec fn finish_transition(
    pre: DownloadSession,
    post: DownloadSession,
    n: CompletionNotice,
) -> bool {
    &&& pre.completion() is None
    &&& post.completion() == Some(true)
    &&& post.spec_url() == pre.spec_url()
    &&& post.is_decided() == pre.is_decided()
    &&& n.url@ == pre.spec_url()
    &&& n.path is None
    &&& n.success == true
}

/// The transition a `fail` call makes: it needs a session without an
/// outcome, records a failed one, and emits a failed notice for the
/// session's URL with no path.
pub open spec fn fail_transition(
    pre: DownloadSession,
    post: DownloadSession,
    n: CompletionNotice,
) -> bool {
    &&& pre.completion() is None
    &&& post.completion() == Some(false)
    &&& post.spec_url() == pre.spec_url()
    &&& post.is_decided() == pre.is_decided()
    &&& n.url@ == pre.spec_url()
    &&& n.path is None
    &&& n.success == false
}

/// Either completion transition: the session emits the notice `n` going from
/// `pre` to `post`, by whichever of the two signals.
pub open spec fn completes(
    pre: DownloadSession,
    post: DownloadSession,
    n: CompletionNotice,
) -> bool {
    finish_transition(pre, post, n) || fail_transition(pre, post, n)
}

/// Law: at most one completion notice is ever emitted per download session —
/// once a session has made a completion transition, no session state and no
/// notice can extend it with a second one.
pub proof fn lemma_completion_at_most_once(
    s0: DownloadSession,
    s1: DownloadSession,
    s2: DownloadSession,
    n1: CompletionNotice,
    n2: CompletionNotice,
)
    requires
        completes(s0, s1, n1),
    ensures
        !completes(s1, s2, n2),
{
}

/// Law: a completion notice's success flag records which signal completed
/// the session — true exactly for the finished signal, false exactly for the
/// failed one.
pub proof fn lemma_completion_success_matches(
    pre: DownloadSession,
    post: DownloadSession,
    n: CompletionNotice,
)
    requires
        completes(pre, post, n),
    ensures
        n.success <==> finish_transition(pre, post, n),
        !n.success <==> fail_transition(pre, post, n),
{
}

/// Law: the destination decision is resolved strictly before completion — a
/// session that has emitted its completion notice admits no decision.
pub proof fn lemma_no_decision_after_completion(
    pre: DownloadSession,
    post: DownloadSession,
    n: CompletionNotice,
)
    requires
        completes(pre, post, n),
    ensures
        !post.can_decide(),
{
}

} // verus!

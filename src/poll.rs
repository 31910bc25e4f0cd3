use vstd::prelude::*;
use crate::reply::{ApiReply, BuildDetail, UploadCredential};

verus! {

/// Build processed; details are in the reply.
pub const CODE_SUCCESS: i64 = 0;

/// Build waiting to be processed.
pub const CODE_QUEUED: i64 = 1246;

/// Build being processed.
pub const CODE_PROCESSING: i64 = 1247;

/// The server failed to process the build.
pub const CODE_FAILED: i64 = 1216;

/// Where the wait for a build stands.
#[derive(Clone, Copy, Debug, PartialEq, Eq, Structural)]
pub enum PollState {
    Pending,
    Processing,
    Succeeded,
    Failed,
    UnknownError,
}

impl PollState {
    pub open spec fn spec_is_terminal(self) -> bool {
        self is Succeeded || self is Failed || self is UnknownError
    }

    /// Whether polling has stopped.
    pub fn is_terminal(&self) -> (r: bool)
        ensures
            r == self.spec_is_terminal(),
    {
        match self {
            PollState::Pending | PollState::Processing => false,
            _ => true,
        }
    }
}

/// What the polling loop does after one reply.
pub enum PollAction {
    /// Wait one interval and ask again; nothing is shown.
    Continue,
    /// Show these lines about the build, then end with success.
    ShowBuild(Vec<String>),
    /// Show that the server failed to process the build, then stop.
    ShowFailure,
    /// Show the reply as it came, then end with a failure status.
    ShowRaw(String),
    /// Polling had already stopped.
    Finished,
}

/// The state that a reply leads to. A code of 0 counts as success only when
/// the reply holds the build details.
pub open spec fn state_for(reply: ApiReply) -> PollState {
    if reply.code == Some(CODE_QUEUED) {
        PollState::Pending
    } else if reply.code == Some(CODE_PROCESSING) {
        PollState::Processing
    } else if reply.code == Some(CODE_SUCCESS) && reply.detail is Some {
        PollState::Succeeded
    } else if reply.code == Some(CODE_FAILED) {
        PollState::Failed
    } else {
        PollState::UnknownError
    }
}

/// One step of the poll: a finished poll stays as it is, a request that got
/// no readable reply is retried, and any reply decides the next state.
pub open spec fn spec_next(state: PollState, reply: Option<ApiReply>) -> PollState {
    if state.spec_is_terminal() {
        state
    } else {
        match reply {
            None => state,
            Some(r) => state_for(r),
        }
    }
}

/// The process status once polling has stopped.
pub open spec fn spec_exit_code(state: PollState) -> Option<i32> {
    match state {
        PollState::Succeeded => Some(0),
        PollState::Failed => Some(0),
        PollState::UnknownError => Some(1),
        _ => None,
    }
}

pub open spec fn share_url_of(slug: Seq<char>) -> Seq<char> {
    "https://www.pgyer.com/"@ + slug
}

/// The lines shown for a finished build.
pub open spec fn report_of(d: BuildDetail, lines: Seq<String>) -> bool {
    &&& lines.len() == 5
    &&& lines[0]@ == "buildVersion: "@ + d.version@
    &&& lines[1]@ == "buildCreated: "@ + d.created@
    &&& lines[2]@ == "buildDescription: "@ + d.description@
    &&& lines[3]@ == "buildQRCodeURL: "@ + d.qr_code_url@
    &&& lines[4]@ == "buildShortcutUrl: "@ + share_url_of(d.shortcut@)
}

/// The action that goes with a step from `state` to `next` on `reply`.
pub open spec fn action_fits(
    action: PollAction,
    state: PollState,
    reply: Option<ApiReply>,
    next: PollState,
) -> bool {
    if state.spec_is_terminal() {
        action is Finished
    } else {
        match next {
            PollState::Pending | PollState::Processing => action is Continue,
            PollState::Succeeded => action matches PollAction::ShowBuild(lines) && report_of(
                reply->Some_0.detail->Some_0,
                lines@,
            ),
            PollState::Failed => action is ShowFailure,
            PollState::UnknownError => action matches PollAction::ShowRaw(raw) && raw@
                == reply->Some_0.raw@,
        }
    }
}

pub open spec fn given(reply: Option<&ApiReply>) -> Option<ApiReply> {
    match reply {
        Some(a) => Some(*a),
        None => None,
    }
}

/// The public share link of a build: a fixed base followed by its slug.
pub fn share_url(slug: &str) -> (r: String)
    ensures
        r@ == share_url_of(slug@),
{
    String::from_str("https://www.pgyer.com/").concat(slug)
}

fn labelled(label: &str, value: &str) -> (r: String)
    ensures
        r@ == label@ + value@,
{
    label.to_owned().concat(value)
}

/// The lines that describe a finished build.
pub fn build_report(d: &BuildDetail) -> (r: Vec<String>)
    ensures
        report_of(*d, r@),
{
    let mut lines: Vec<String> = Vec::new();
    lines.push(labelled("buildVersion: ", d.version.as_str()));
    lines.push(labelled("buildCreated: ", d.created.as_str()));
    lines.push(labelled("buildDescription: ", d.description.as_str()));
    lines.push(labelled("buildQRCodeURL: ", d.qr_code_url.as_str()));
    let url = share_url(d.shortcut.as_str());
    lines.push(labelled("buildShortcutUrl: ", url.as_str()));
    lines
}

/// Decides one step of the poll from the current state and the reply to
/// the latest status request (`None` when the request failed or its body
/// could not be read).
pub fn poll_step(state: PollState, reply: Option<&ApiReply>) -> (r: (PollState, PollAction))
    ensures
        r.0 == spec_next(state, given(reply)),
        action_fits(r.1, state, given(reply), r.0),
{
    if state.is_terminal() {
        return (state, PollAction::Finished);
    }
    let a = match reply {
        None => { return (state, PollAction::Continue); },
        Some(a) => a,
    };
    if a.code == Some(CODE_QUEUED) {
        (PollState::Pending, PollAction::Continue)
    } else if a.code == Some(CODE_PROCESSING) {
        (PollState::Processing, PollAction::Continue)
    } else if a.code == Some(CODE_SUCCESS) && a.detail.is_some() {
        match &a.detail {
            Some(d) => (PollState::Succeeded, PollAction::ShowBuild(build_report(d))),
            None => (PollState::UnknownError, PollAction::ShowRaw(a.raw.clone())),
        }
    } else if a.code == Some(CODE_FAILED) {
        (PollState::Failed, PollAction::ShowFailure)
    } else {
        (PollState::UnknownError, PollAction::ShowRaw(a.raw.clone()))
    }
}

/// The process status once polling has stopped; `None` while it goes on.
pub fn exit_code(state: PollState) -> (r: Option<i32>)
    ensures
        r == spec_exit_code(state),
{
    match state {
        PollState::Succeeded => Some(0),
        PollState::Failed => Some(0),
        PollState::UnknownError => Some(1),
        _ => None,
    }
}

/// The text fields sent with the package to object storage, in order.
pub fn upload_fields(c: &UploadCredential) -> (r: Vec<(String, String)>)
    ensures
        r@.len() == 3,
        r@[0].0@ == "signature"@ && r@[0].1@ == c.signature@,
        r@[1].0@ == "x-cos-security-token"@ && r@[1].1@ == c.security_token@,
        r@[2].0@ == "key"@ && r@[2].1@ == c.key@,
{
    let mut fields: Vec<(String, String)> = Vec::new();
    fields.push((String::from_str("signature"), c.signature.clone()));
    fields.push((String::from_str("x-cos-security-token"), c.security_token.clone()));
    fields.push((String::from_str("key"), c.key.clone()));
    fields
}

/// Object storage answers a stored upload with 204 No Content; any other
/// status means the upload failed.
pub fn upload_accepted(status: u16) -> (r: bool)
    ensures
        r == (status == 204),
{
    status == 204
}

/// A queued or in-progress code keeps the poll going without output, and a
/// success code with details ends it with status 0.
pub proof fn lemma_pending_then_success(state: PollState, reply: ApiReply)
    requires
        !state.spec_is_terminal(),
    ensures
        reply.code == Some(CODE_QUEUED) || reply.code == Some(CODE_PROCESSING) ==> !spec_next(
            state,
            Some(reply),
        ).spec_is_terminal() && spec_exit_code(spec_next(state, Some(reply))) is None,
        reply.code == Some(CODE_SUCCESS) && reply.detail is Some ==> spec_next(state, Some(reply))
            == PollState::Succeeded && spec_exit_code(spec_next(state, Some(reply))) == Some(0i32),
{
}

/// The failure code stops the poll for good: no later reply changes the
/// state, and the process ends normally.
pub proof fn lemma_failure_code_stops(state: PollState, reply: ApiReply, later: Option<ApiReply>)
    requires
        !state.spec_is_terminal(),
        reply.code == Some(CODE_FAILED),
    ensures
        spec_next(state, Some(reply)) == PollState::Failed,
        spec_next(PollState::Failed, later) == PollState::Failed,
        spec_exit_code(PollState::Failed) == Some(0i32),
{
}

/// Any code other than the four known ones ends the poll with status 1.
pub proof fn lemma_unknown_code_fails(state: PollState, reply: ApiReply)
    requires
        !state.spec_is_terminal(),
        reply.code != Some(CODE_SUCCESS),
        reply.code != Some(CODE_QUEUED),
        reply.code != Some(CODE_PROCESSING),
        reply.code != Some(CODE_FAILED),
    ensures
        spec_next(state, Some(reply)) == PollState::UnknownError,
        spec_exit_code(spec_next(state, Some(reply))) == Some(1i32),
{
}

} // verus!

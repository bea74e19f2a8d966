use vstd::prelude::*;
use crate::params::{
    pairs_view, remote_url, remote_url_of, request_params, request_params_of_uri, requested,
    url_query_pairs,
};
use crate::stats::{is_report_of, make_json, totals_fit, totals_fit_in_usize, LanguageCounts, Report};

verus! {

/// The status code of a successful response.
pub const STATUS_OK: u16 = 200;

/// The status code of a response to a request that could not be served.
pub const STATUS_BAD_REQUEST: u16 = 400;

/// The status code of a response to a fault inside the handler.
pub const STATUS_INTERNAL_ERROR: u16 = 500;

/// Where a request stands between two actions of the handler.
#[derive(Clone, Debug)]
pub enum Phase {
    /// The working directory is being cleared before `url` is fetched into it.
    Removing { url: String, workdir: String },
    /// `url` is being fetched into the working directory.
    Fetching { url: String, workdir: String },
    /// The fetched tree in the working directory is being classified.
    Classifying { workdir: String },
    /// A response has been decided; nothing is left to do.
    Responded,
}

/// How clearing the working directory went.
#[derive(Clone, Debug)]
pub enum Removal {
    Removed,
    /// There was nothing to remove.
    NotFound,
    /// Any other failure, with its description.
    Failed { cause: String },
}

/// Why fetching a repository failed: the provider's error code and message.
#[derive(Clone, Debug)]
pub struct FetchError {
    pub code: String,
    pub message: String,
}

/// The outcome of an action, handed back to the handler.
#[derive(Debug)]
pub enum Event {
    Removal(Removal),
    Fetch(Result<(), FetchError>),
    Classified(Vec<(String, LanguageCounts)>),
}

/// The response that ends a request.
#[derive(Clone, Debug)]
pub enum Reply {
    /// The statistics, sent as JSON.
    Statistics(Report),
    /// The request could not be served; the body says why.
    BadRequest(String),
    /// A fault inside the handler.
    InternalError(String),
}

/// What the handler asks its runner to do next.
#[derive(Clone, Debug)]
pub enum Action {
    /// Remove the directory `path` and everything under it.
    RemoveDir { path: String },
    /// Fetch the repository at `url` into the directory `dest`.
    Fetch { url: String, dest: String },
    /// Classify the files under `root`, leaving out the paths named `excluded`.
    Classify { root: String, excluded: String },
    /// Send the response.
    Respond(Reply),
}

impl Reply {
    pub open spec fn spec_status(&self) -> u16 {
        match self {
            Reply::Statistics(_) => STATUS_OK,
            Reply::BadRequest(_) => STATUS_BAD_REQUEST,
            Reply::InternalError(_) => STATUS_INTERNAL_ERROR,
        }
    }

    /// The HTTP status code of the response.
    #[verifier::when_used_as_spec(spec_status)]
    pub fn status(&self) -> (r: u16)
        ensures
            r == self.spec_status(),
    {
        match self {
            Reply::Statistics(_) => STATUS_OK,
            Reply::BadRequest(_) => STATUS_BAD_REQUEST,
            Reply::InternalError(_) => STATUS_INTERNAL_ERROR,
        }
    }

    /// The content type that the response declares, if any.
    pub fn content_type(&self) -> (r: Option<String>)
        ensures
            self is Statistics ==> (r matches Some(t) && t@ == "application/json"@),
            !(self is Statistics) ==> r is None,
    {
        match self {
            Reply::Statistics(_) => Some(String::from_str("application/json")),
            _ => None,
        }
    }
}

/// The body sent when the user or the repository is not given.
pub open spec fn usage_body() -> Seq<char> {
    "BAD REQUEST.\nUsage instruction: /<github_username>/<github_repo>/"@
}

/// The body sent when the working directory could not be cleared.
pub open spec fn removal_failure_body(cause: Seq<char>) -> Seq<char> {
    "Failed to remove directory\n> "@ + cause
}

/// The body sent when the repository at `url` could not be fetched.
pub open spec fn fetch_failure_body(url: Seq<char>, code: Seq<char>, message: Seq<char>) -> Seq<char> {
    "Failed to clone "@ + url + "\n> "@ + code + ": "@ + message
}

/// The directory that classification leaves out: the version-control metadata.
pub open spec fn excluded_dir() -> Seq<char> {
    ".git"@
}

/// The first phase and action of a request whose query holds `query`
/// (`None` where it could not be read), served in `workdir`.
pub open spec fn begins(
    query: Option<Seq<(Seq<char>, Seq<char>)>>,
    workdir: Seq<char>,
    p: Phase,
    a: Action,
) -> bool {
    match query {
        Some(pairs) if requested(pairs) is Some => {
            let (user, repo) = requested(pairs).unwrap();
            &&& p matches Phase::Removing { url, workdir: w } && url@ == remote_url_of(user, repo)
                && w@ == workdir
            &&& a matches Action::RemoveDir { path } && path@ == workdir
        },
        _ => p is Responded && (a matches Action::Respond(Reply::BadRequest(b)) && b@
            == usage_body()),
    }
}

/// The handler, in phase `p`, told `e`, goes to phase `q` and asks for `a`.
pub open spec fn steps(p: Phase, e: Event, q: Phase, a: Action) -> bool {
    match (p, e) {
        (Phase::Removing { url, workdir }, Event::Removal(outcome)) => match outcome {
            Removal::Failed { cause } => q is Responded && (a matches Action::Respond(
                Reply::BadRequest(b),
            ) && b@ == removal_failure_body(cause@)),
            _ => {
                &&& q matches Phase::Fetching { url: u, workdir: w } && u@ == url@ && w@ == workdir@
                &&& a matches Action::Fetch { url: u, dest } && u@ == url@ && dest@ == workdir@
            },
        },
        (Phase::Fetching { url, workdir }, Event::Fetch(outcome)) => match outcome {
            Ok(()) => {
                &&& q matches Phase::Classifying { workdir: w } && w@ == workdir@
                &&& a matches Action::Classify { root, excluded } && root@ == workdir@
                    && excluded@ == excluded_dir()
            },
            Err(err) => q is Responded && (a matches Action::Respond(Reply::BadRequest(b))
                && b@ == fetch_failure_body(url@, err.code@, err.message@)),
        },
        (Phase::Classifying { .. }, Event::Classified(stats)) => {
            &&& q is Responded
            &&& totals_fit(stats@) ==> (a matches Action::Respond(Reply::Statistics(r))
                && is_report_of(stats@, r))
            &&& !totals_fit(stats@) ==> (a matches Action::Respond(Reply::InternalError(_)))
        },
        _ => q is Responded && a matches Action::Respond(Reply::InternalError(_)),
    }
}

/// The handler, started on `query` in `workdir` and told `events` in turn,
/// passed through `phases` and asked for `actions`: the first of each comes
/// from the start, the rest one per event.
pub open spec fn is_run(
    query: Option<Seq<(Seq<char>, Seq<char>)>>,
    workdir: Seq<char>,
    events: Seq<Event>,
    phases: Seq<Phase>,
    actions: Seq<Action>,
) -> bool {
    &&& phases.len() == events.len() + 1
    &&& actions.len() == events.len() + 1
    &&& begins(query, workdir, phases[0], actions[0])
    &&& forall|i: int|
        0 <= i < events.len() ==> #[trigger] steps(phases[i], events[i], phases[i + 1], actions[i + 1])
}

/// The action that led into each phase that waits on the working directory.
proof fn lemma_phase_follows_action(
    query: Option<Seq<(Seq<char>, Seq<char>)>>,
    workdir: Seq<char>,
    events: Seq<Event>,
    phases: Seq<Phase>,
    actions: Seq<Action>,
    j: int,
)
    requires
        is_run(query, workdir, events, phases, actions),
        0 <= j < phases.len(),
    ensures
        phases[j] matches Phase::Removing { workdir: w, .. } ==> (actions[j] matches Action::RemoveDir { path }
            && path@ == w@),
        phases[j] matches Phase::Fetching { url: u, workdir: w } ==> (actions[j] matches Action::Fetch { url, dest }
            && url@ == u@ && dest@ == w@),
{
    if j > 0 {
        let k = j - 1;
        assert(steps(phases[k], events[k], phases[k + 1], actions[k + 1]));
    }
}

/// Within one request, the working tree that gets classified is the one just
/// fetched for that request, into a directory that was cleared first: each
/// fetch comes right after a successful removal of its destination, and each
/// classification right after a successful fetch into its root. Nothing that
/// an earlier request left in the directory can reach the report.
pub proof fn lemma_classified_tree_is_fresh(
    query: Option<Seq<(Seq<char>, Seq<char>)>>,
    workdir: Seq<char>,
    events: Seq<Event>,
    phases: Seq<Phase>,
    actions: Seq<Action>,
    i: int,
)
    requires
        is_run(query, workdir, events, phases, actions),
        0 <= i < actions.len(),
    ensures
        actions[i] matches Action::Fetch { dest, .. } ==> {
            &&& i >= 1
            &&& actions[i - 1] matches Action::RemoveDir { path } && path@ == dest@
            &&& events[i - 1] matches Event::Removal(outcome) && !(outcome is Failed)
        },
        actions[i] matches Action::Classify { root, excluded } ==> {
            &&& i >= 2
            &&& excluded@ == excluded_dir()
            &&& actions[i - 1] matches Action::Fetch { dest, .. } && dest@ == root@
            &&& events[i - 1] matches Event::Fetch(outcome) && outcome is Ok
            &&& actions[i - 2] matches Action::RemoveDir { path } && path@ == root@
            &&& events[i - 2] matches Event::Removal(outcome) && !(outcome is Failed)
        },
        actions[i] matches Action::RemoveDir { path } ==> i == 0 && path@ == workdir,
{
    if i > 0 {
        let k = i - 1;
        assert(steps(phases[k], events[k], phases[k + 1], actions[k + 1]));
        lemma_phase_follows_action(query, workdir, events, phases, actions, k);
        if k > 0 {
            let m = k - 1;
            assert(steps(phases[m], events[m], phases[m + 1], actions[m + 1]));
            lemma_phase_follows_action(query, workdir, events, phases, actions, m);
        }
    }
}

/// The state of one request.
pub struct Handler {
    pub phase: Phase,
}

impl Handler {
    /// Starts a request whose query pairs are `query` (`None` where the query
    /// could not be read), to be served in the directory `workdir`.
    pub fn begin(query: Option<Vec<(String, String)>>, workdir: &str) -> (r: (Handler, Action))
        ensures
            begins(
                match query {
                    Some(v) => Some(pairs_view(v@)),
                    None => None,
                },
                workdir@,
                r.0.phase,
                r.1,
            ),
    {
        let params = match query {
            Some(pairs) => request_params(&pairs),
            None => None,
        };
        Self::begin_with(params, workdir)
    }

    /// Starts a request for the URI `uri`, to be served in the directory `workdir`.
    pub fn begin_uri(uri: &str, workdir: &str) -> (r: (Handler, Action))
        ensures
            begins(url_query_pairs(uri@), workdir@, r.0.phase, r.1),
    {
        let params = request_params_of_uri(uri);
        Self::begin_with(params, workdir)
    }

    fn begin_with(params: Option<(String, String)>, workdir: &str) -> (r: (Handler, Action))
        ensures
            match params {
                Some((user, repo)) => {
                    &&& r.0.phase matches Phase::Removing { url, workdir: w } && url@
                        == remote_url_of(user@, repo@) && w@ == workdir@
                    &&& r.1 matches Action::RemoveDir { path } && path@ == workdir@
                },
                None => r.0.phase is Responded && (r.1 matches Action::Respond(
                    Reply::BadRequest(b),
                ) && b@ == usage_body()),
            },
    {
        match params {
            Some((user, repo)) => {
                let url = remote_url(user.as_str(), repo.as_str());
                let phase = Phase::Removing { url, workdir: String::from_str(workdir) };
                (Handler { phase }, Action::RemoveDir { path: String::from_str(workdir) })
            },
            None => {
                let body = String::from_str(
                    "BAD REQUEST.\nUsage instruction: /<github_username>/<github_repo>/",
                );
                (Handler { phase: Phase::Responded }, Action::Respond(Reply::BadRequest(body)))
            },
        }
    }

    /// Takes the outcome `event` of the last action and decides the next one.
    pub fn step(&mut self, event: Event) -> (a: Action)
        ensures
            steps(old(self).phase, event, final(self).phase, a),
    {
        let (phase, action) = match (&self.phase, event) {
            (Phase::Removing { url, workdir }, Event::Removal(outcome)) => match outcome {
                Removal::Failed { cause } => {
                    let mut body = String::from_str("Failed to remove directory\n> ");
                    body.append(cause.as_str());
                    (Phase::Responded, Action::Respond(Reply::BadRequest(body)))
                },
                _ => (
                    Phase::Fetching { url: url.clone(), workdir: workdir.clone() },
                    Action::Fetch { url: url.clone(), dest: workdir.clone() },
                ),
            },
            (Phase::Fetching { url, workdir }, Event::Fetch(outcome)) => match outcome {
                Ok(()) => (
                    Phase::Classifying { workdir: workdir.clone() },
                    Action::Classify { root: workdir.clone(), excluded: String::from_str(".git") },
                ),
                Err(err) => {
                    let mut body = String::from_str("Failed to clone ");
                    body.append(url.as_str());
                    body.append("\n> ");
                    body.append(err.code.as_str());
                    body.append(": ");
                    body.append(err.message.as_str());
                    (Phase::Responded, Action::Respond(Reply::BadRequest(body)))
                },
            },
            (Phase::Classifying { .. }, Event::Classified(stats)) => {
                if totals_fit_in_usize(&stats) {
                    (Phase::Responded, Action::Respond(Reply::Statistics(make_json(&stats))))
                } else {
                    let body = String::from_str("Line counts too large to total");
                    (Phase::Responded, Action::Respond(Reply::InternalError(body)))
                }
            },
            _ => {
                let body = String::from_str("Unexpected event for the request's phase");
                (Phase::Responded, Action::Respond(Reply::InternalError(body)))
            },
        };
        self.phase = phase;
        action
    }
}

} // verus!

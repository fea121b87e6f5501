//! Pollers: which endpoint each category is fetched from, and what one
//! fetched reply turns into.
use vstd::prelude::*;
use crate::document::{is_json_text, json_of, parse_document};
use crate::message::{Category, Message};
use crate::snapshot::{apply_all, Snapshot};

verus! {

/// Pause between two fetches of the status, capacities and stats endpoints.
pub const SHORT_INTERVAL_MS: u64 = 100;

/// Pause between two fetches of the jobs endpoint.
pub const JOBS_INTERVAL_MS: u64 = 300;

/// What an upstream endpoint answered: the HTTP status code and the body text.
pub struct Reply {
    pub status: u16,
    pub body: String,
}

/// Why an iteration of a poller sent no message.
#[derive(Clone, Debug, PartialEq, Eq)]
pub enum PollError {
    /// The request could not be sent or no reply came back.
    Network(String),
    /// The endpoint refused the authenticated request with a 4xx status.
    ClientStatus(u16),
    /// The body is not a JSON document.
    Malformed,
}

pub open spec fn is_client_error(code: u16) -> bool {
    400 <= code <= 499
}

pub open spec fn is_success(code: u16) -> bool {
    200 <= code <= 299
}

impl Reply {
    /// Whether the status code is in the 4xx range.
    pub fn is_client_error(&self) -> (r: bool)
        ensures
            r == is_client_error(self.status),
    {
        400 <= self.status && self.status <= 499
    }

    /// Whether the status code is in the 2xx range.
    pub fn is_success(&self) -> (r: bool)
        ensures
            r == is_success(self.status),
    {
        200 <= self.status && self.status <= 299
    }
}

/// Path and query appended to the API base URL for each category.
pub open spec fn endpoint_suffix(c: Category) -> Seq<char> {
    match c {
        Category::Status => "/landing/v2/status?n=100"@,
        Category::Capacities => "/landing/v2/capacities?n=1"@,
        Category::Stats => "/landing/v2/stats?n=1"@,
        Category::Jobs => "/deploy/v1/jobs?pageSize=10&sortBy=createdAt&sortOrder=-1&excludeType=repairDeployment&excludeType=repairVm&excludeType=repairSm&excludeStatus=failed&excludeStatus=terminated&excludeStatus=pending"@,
    }
}

/// Pause between two fetches for each category.
pub open spec fn poll_interval(c: Category) -> u64 {
    match c {
        Category::Jobs => JOBS_INTERVAL_MS,
        _ => SHORT_INTERVAL_MS,
    }
}

fn suffix_text(c: Category) -> (r: &'static str)
    ensures
        r@ == endpoint_suffix(c),
{
    match c {
        Category::Status => "/landing/v2/status?n=100",
        Category::Capacities => "/landing/v2/capacities?n=1",
        Category::Stats => "/landing/v2/stats?n=1",
        Category::Jobs => "/deploy/v1/jobs?pageSize=10&sortBy=createdAt&sortOrder=-1&excludeType=repairDeployment&excludeType=repairVm&excludeType=repairSm&excludeStatus=failed&excludeStatus=terminated&excludeStatus=pending",
    }
}

/// One periodic fetcher of one category's endpoint.
pub struct Poller {
    pub category: Category,
    pub url: String,
    pub interval_ms: u64,
    /// Whether requests carry a bearer token.
    pub authenticated: bool,
}

/// The message for a parsed body: the document tagged with `c`, or
/// `Malformed` when the body did not parse.
pub fn message_for(c: Category, parsed: Result<serde_json::Value, serde_json::Error>) -> (r: Result<
    Message,
    PollError,
>)
    ensures
        parsed matches Ok(d) ==> (r matches Ok(m) && m.spec_category() == c && m.spec_document()
            == d),
        parsed is Err ==> r == Err::<Message, PollError>(PollError::Malformed),
{
    match parsed {
        Ok(d) => Ok(Message::new(c, d)),
        Err(_) => Err(PollError::Malformed),
    }
}

impl Poller {
    /// The poller of category `c` against the API at `api_url`. Only the jobs
    /// endpoint is authenticated.
    pub fn new(c: Category, api_url: &str) -> (r: Poller)
        ensures
            r.category == c,
            r.url@ == api_url@ + endpoint_suffix(c),
            r.interval_ms == poll_interval(c),
            r.authenticated == (c == Category::Jobs),
    {
        let mut url = api_url.to_owned();
        url.append(suffix_text(c));
        let interval_ms = match c {
            Category::Jobs => JOBS_INTERVAL_MS,
            _ => SHORT_INTERVAL_MS,
        };
        Poller { category: c, url, interval_ms, authenticated: c == Category::Jobs }
    }

    /// What one fetch turns into: a message for this poller's category, or the
    /// reason none is sent. A network failure and an unparseable body are
    /// reported, never fatal; an authenticated poller also rejects a 4xx reply.
    pub fn handle(&self, outcome: Result<Reply, String>) -> (r: Result<Message, PollError>)
        ensures
            outcome matches Err(e) ==> r == Err::<Message, PollError>(PollError::Network(e)),
            outcome matches Ok(rep) ==> {
                if self.authenticated && is_client_error(rep.status) {
                    r == Err::<Message, PollError>(PollError::ClientStatus(rep.status))
                } else {
                    &&& (r is Ok <==> is_json_text(rep.body@))
                    &&& (r is Err ==> r == Err::<Message, PollError>(PollError::Malformed))
                    &&& (r matches Ok(m) ==> m.spec_category() == self.category
                        && m.spec_document() == json_of(rep.body@))
                }
            },
    {
        match outcome {
            Err(e) => Err(PollError::Network(e)),
            Ok(rep) => {
                if self.authenticated && rep.is_client_error() {
                    Err(PollError::ClientStatus(rep.status))
                } else {
                    let parsed = parse_document(rep.body.as_str());
                    message_for(self.category, parsed)
                }
            },
        }
    }
}

/// The messages that a run of iterations sends: one per successful
/// iteration, in order.
pub open spec fn sent(outcomes: Seq<Result<Message, PollError>>) -> Seq<Message>
    decreases outcomes.len(),
{
    if outcomes.len() == 0 {
        Seq::empty()
    } else {
        match outcomes.last() {
            Ok(m) => sent(outcomes.drop_last()).push(m),
            Err(_) => sent(outcomes.drop_last()),
        }
    }
}

/// A failed iteration leaves the snapshot as it was, and the next successful
/// one installs its document in its category's field.
pub proof fn lemma_recovers_after_failure(
    s: Snapshot,
    outcomes: Seq<Result<Message, PollError>>,
    e: PollError,
    m: Message,
)
    ensures
        apply_all(s, sent(outcomes.push(Err(e)))) == apply_all(s, sent(outcomes)),
        apply_all(s, sent(outcomes.push(Err(e)).push(Ok(m)))).field(m.spec_category())
            == m.spec_document(),
{
    assert(outcomes.push(Err(e)).drop_last() == outcomes);
    let failed = outcomes.push(Err(e));
    assert(failed.push(Ok(m)).drop_last() == failed);
    let after = sent(failed).push(m);
    assert(after.drop_last() == sent(failed));
}

} // verus!

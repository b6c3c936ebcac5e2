//! The device flow. It has two steps: asking the server for a code that the
//! user is shown, and polling the server until the user has approved the
//! request or the attempt has failed.
//!
//! The flow sends nothing itself. An [`Attempt`] says what its host is to do
//! next, an [`Action`], and is told what came of it, an [`Event`].

use vstd::prelude::*;
use vstd::string::*;
use crate::clock::unix_now;
use crate::form::{form_body, form_encoded, pair_texts};
use crate::helper::{join, joined, texts};
use crate::json::{json_object, parse_object};
use crate::response::{
    code_response, code_view, decode_code_response, decode_token_response, token_response,
};
use crate::types::{
    outcome_view, ApplicationSecret, Error, ErrorView, JsonError, PollInformation,
    PollInformationView, Token, TokenView,
};

verus! {

pub const GOOGLE_DEVICE_CODE_URL: &'static str = "https://accounts.google.com/o/oauth2/device/code";

pub const GOOGLE_GRANT_TYPE: &'static str = "http://oauth.net/grant_type/device/1.0";

/// The method of every request of the flow.
pub const POST: &'static str = "POST";

/// The content type of every request of the flow.
pub const FORM_CONTENT_TYPE: &'static str = "application/x-www-form-urlencoded";

/// The number of seconds by which the wait grows each time the server asks
/// the client to slow down.
pub const SLOW_DOWN_STEP: u64 = 5;

/// A request for the host to send.
#[derive(Debug, Clone, PartialEq, Eq)]
pub struct Request {
    pub method: &'static str,
    pub url: String,
    pub content_type: &'static str,
    pub body: String,
}

/// What a [`Request`] holds, as mathematical values.
pub struct RequestView {
    pub method: Seq<char>,
    pub url: Seq<char>,
    pub content_type: Seq<char>,
    pub body: Seq<char>,
}

impl View for Request {
    type V = RequestView;

    open spec fn view(&self) -> RequestView {
        RequestView {
            method: self.method@,
            url: self.url@,
            content_type: self.content_type@,
            body: self.body@,
        }
    }
}

/// What a request brought.
#[derive(Debug, Clone, PartialEq, Eq)]
pub enum Reply {
    /// The body of the response, whatever its status, and the time at which
    /// it was received, in seconds since the Unix epoch.
    Response { body: Vec<u8>, received_at: i64 },
    /// The request could not be delivered, or no response came back. The
    /// text is the transport's own description.
    Failure(String),
}

/// What a [`Reply`] holds, as mathematical values.
pub enum ReplyView {
    Response { body: Seq<u8>, received_at: i64 },
    Failure(Seq<char>),
}

impl View for Reply {
    type V = ReplyView;

    open spec fn view(&self) -> ReplyView {
        match self {
            Reply::Response { body, received_at } => ReplyView::Response {
                body: body@,
                received_at: *received_at,
            },
            Reply::Failure(text) => ReplyView::Failure(text@),
        }
    }
}

/// What the host reports to an attempt.
#[derive(Debug, Clone, PartialEq, Eq)]
pub enum Event {
    /// The request that was to be sent has been answered, or has failed.
    Reply(Reply),
    /// The user has been shown the code.
    Presented,
    /// The wait has fully elapsed.
    Elapsed,
}

/// What an [`Event`] holds, as mathematical values.
pub enum EventView {
    Reply(ReplyView),
    Presented,
    Elapsed,
}

impl View for Event {
    type V = EventView;

    open spec fn view(&self) -> EventView {
        match self {
            Event::Reply(reply) => EventView::Reply(reply@),
            Event::Presented => EventView::Presented,
            Event::Elapsed => EventView::Elapsed,
        }
    }
}

/// What an attempt asks its host to do next.
#[derive(Debug, PartialEq, Eq)]
pub enum Action {
    /// Send the request, and report the reply.
    Send(Request),
    /// Show the user the code and the address, and report that it is done.
    Present(PollInformation),
    /// Let so many seconds pass, and report that they have.
    Wait { seconds: u64 },
    /// Nothing more: the attempt has ended, with a token or with the error
    /// that ended it.
    Finish(Result<Token, Error>),
}

/// What an [`Action`] holds, as mathematical values.
pub enum ActionView {
    Send(RequestView),
    Present(PollInformationView),
    Wait { seconds: nat },
    Finish(Result<TokenView, ErrorView>),
}

impl View for Action {
    type V = ActionView;

    open spec fn view(&self) -> ActionView {
        match self {
            Action::Send(request) => ActionView::Send(request@),
            Action::Present(information) => ActionView::Present(information@),
            Action::Wait { seconds } => ActionView::Wait { seconds: *seconds as nat },
            Action::Finish(outcome) => ActionView::Finish(outcome_view(*outcome)),
        }
    }
}

/// What follows a poll.
#[derive(Debug, PartialEq, Eq)]
pub enum Decision {
    /// Wait so many seconds, then poll again.
    Retry { interval: u64 },
    /// Stop, with the token or with the error.
    Stop(Result<Token, Error>),
}

/// What a [`Decision`] holds, as mathematical values.
pub enum DecisionView {
    Retry { interval: nat },
    Stop(Result<TokenView, ErrorView>),
}

impl View for Decision {
    type V = DecisionView;

    open spec fn view(&self) -> DecisionView {
        match self {
            Decision::Retry { interval } => DecisionView::Retry { interval: *interval as nat },
            Decision::Stop(outcome) => DecisionView::Stop(outcome_view(*outcome)),
        }
    }
}

/// The server has not heard from the user yet.
pub open spec fn is_pending(outcome: Result<TokenView, ErrorView>) -> bool {
    outcome matches Err(ErrorView::AuthError(error)) && error.error == "authorization_pending"@
}

/// The server asks the client to poll less often.
pub open spec fn is_slow_down(outcome: Result<TokenView, ErrorView>) -> bool {
    outcome matches Err(ErrorView::AuthError(error)) && error.error == "slow_down"@
}

/// What follows a poll that was made after a wait of `interval` seconds.
/// While the user has not acted the client polls again after the same wait;
/// asked to slow down, it polls again after a wait that is longer by
/// [`SLOW_DOWN_STEP`]; a token, and every other error, ends the polling.
pub open spec fn decide(interval: nat, outcome: Result<TokenView, ErrorView>) -> DecisionView {
    if is_pending(outcome) {
        DecisionView::Retry { interval }
    } else if is_slow_down(outcome) {
        DecisionView::Retry { interval: interval + SLOW_DOWN_STEP as nat }
    } else {
        DecisionView::Stop(outcome)
    }
}

/// Decides what follows a poll that was made after a wait of `interval`
/// seconds.
pub fn after_poll(interval: u64, outcome: Result<Token, Error>) -> (decision: Decision)
    requires
        is_slow_down(outcome_view(outcome)) ==> interval + SLOW_DOWN_STEP <= u64::MAX,
    ensures
        decision@ == decide(interval as nat, outcome_view(outcome)),
{
    proof {
        lemma_signals_differ();
    }
    match outcome {
        Ok(token) => Decision::Stop(Ok(token)),
        Err(Error::AuthError(error)) => {
            if error.error == String::from_str("authorization_pending") {
                Decision::Retry { interval }
            } else if error.error == String::from_str("slow_down") {
                Decision::Retry { interval: interval + SLOW_DOWN_STEP }
            } else {
                Decision::Stop(Err(Error::AuthError(error)))
            }
        },
        Err(error) => Decision::Stop(Err(error)),
    }
}

/// Tells whether the outcome of a poll is the server's request to poll less
/// often.
pub fn asks_to_slow_down(outcome: &Result<Token, Error>) -> (slow_down: bool)
    ensures
        slow_down == is_slow_down(outcome_view(*outcome)),
{
    match outcome {
        Err(Error::AuthError(error)) => error.error == String::from_str("slow_down"),
        _ => false,
    }
}

/// The two signals on which the client polls again are different texts.
pub proof fn lemma_signals_differ()
    ensures
        "authorization_pending"@ != "slow_down"@,
{
    reveal_strlit("authorization_pending");
    reveal_strlit("slow_down");
    assert("authorization_pending"@.len() != "slow_down"@.len());
}

/// Where an attempt stands.
#[derive(Debug, Clone, Copy, PartialEq, Eq, Structural)]
pub enum Phase {
    /// The code request is with the host; its reply is awaited.
    RequestingCode,
    /// The code is with the host, to be shown to the user.
    Presenting,
    /// The host lets the interval pass.
    Waiting,
    /// A poll is with the host; its reply is awaited.
    Polling,
    /// The attempt has ended.
    Finished,
}

/// Implements the OAuth2 device flow for one client. It works in two steps:
/// * obtain a code to show to the user
/// * (repeatedly) poll for the user to authenticate the application
pub struct DeviceFlow {
    pub app_secret: ApplicationSecret,
    /// Where to ask for the codes.
    pub device_code_url: String,
    /// The grant type that a poll names.
    pub grant_type: String,
}

/// One attempt to obtain a token: one code request, the user shown the code
/// once, then polls one after the other, each after a wait.
pub struct Attempt {
    phase: Phase,
    device_code: String,
    interval: u64,
}

/// Where an [`Attempt`] stands, as mathematical values.
pub struct AttemptView {
    pub phase: Phase,
    /// The device code, once the server has issued it. It goes into the
    /// polls and nowhere else.
    pub device_code: Seq<char>,
    /// The current wait before a poll, in seconds.
    pub interval: nat,
}

impl View for Attempt {
    type V = AttemptView;

    closed spec fn view(&self) -> AttemptView {
        AttemptView {
            phase: self.phase,
            device_code: self.device_code@,
            interval: self.interval as nat,
        }
    }
}

/// The event that an attempt in that phase waits for.
pub open spec fn expects(phase: Phase, event: EventView) -> bool {
    match phase {
        Phase::RequestingCode | Phase::Polling => event is Reply,
        Phase::Presenting => event is Presented,
        Phase::Waiting => event is Elapsed,
        Phase::Finished => false,
    }
}

/// What the reply to a code request amounts to.
pub open spec fn code_reply(reply: ReplyView) -> Result<
    (PollInformationView, Seq<char>),
    ErrorView,
> {
    match reply {
        ReplyView::Response { body, received_at } => match json_object(body) {
            Some(members) => code_response(members, received_at),
            None => Err(ErrorView::JSONError(JsonError::Syntax)),
        },
        ReplyView::Failure(text) => Err(ErrorView::HttpError(text)),
    }
}

/// What the reply to a poll amounts to.
pub open spec fn token_reply(reply: ReplyView) -> Result<TokenView, ErrorView> {
    match reply {
        ReplyView::Response { body, received_at } => match json_object(body) {
            Some(members) => token_response(members, received_at),
            None => Err(ErrorView::JSONError(JsonError::Syntax)),
        },
        ReplyView::Failure(text) => Err(ErrorView::HttpError(text)),
    }
}

/// The event that a response received at that time is.
pub open spec fn response_at(body: Seq<u8>, received_at: i64) -> EventView {
    EventView::Reply(ReplyView::Response { body, received_at })
}

/// Whether an attempt can take a step on that event: the event is the one
/// that it waits for, and, where the event is the server's request to poll
/// less often, an `u64` holds the longer wait.
pub open spec fn can_step(before: AttemptView, event: EventView) -> bool {
    &&& expects(before.phase, event)
    &&& match event {
        EventView::Reply(reply) => before.phase == Phase::Polling && is_slow_down(
            token_reply(reply),
        ) ==> before.interval + SLOW_DOWN_STEP <= u64::MAX,
        _ => true,
    }
}

/// Reads the reply to a code request.
pub fn read_code_reply(reply: Reply) -> (result: Result<(PollInformation, String), Error>)
    ensures
        code_view(result) == code_reply(reply@),
{
    match reply {
        Reply::Response { body, received_at } => match parse_object(body.as_slice()) {
            Ok(members) => decode_code_response(&members, received_at),
            Err(error) => Err(error),
        },
        Reply::Failure(text) => Err(Error::HttpError(text)),
    }
}

/// Reads the reply to a poll.
pub fn read_token_reply(reply: Reply) -> (result: Result<Token, Error>)
    ensures
        outcome_view(result) == token_reply(reply@),
{
    match reply {
        Reply::Response { body, received_at } => match parse_object(body.as_slice()) {
            Ok(members) => decode_token_response(&members, received_at),
            Err(error) => Err(error),
        },
        Reply::Failure(text) => Err(Error::HttpError(text)),
    }
}

impl Attempt {
    /// Where the attempt stands.
    pub fn phase(&self) -> (phase: Phase)
        ensures
            phase == self@.phase,
    {
        self.phase
    }

    /// The current wait before a poll, in seconds.
    pub fn interval(&self) -> (interval: u64)
        ensures
            interval == self@.interval,
    {
        self.interval
    }

    /// Tells whether the event is the one that the attempt waits for.
    pub fn expects_event(&self, event: &Event) -> (expected: bool)
        ensures
            expected == expects(self@.phase, event@),
    {
        match self.phase {
            Phase::RequestingCode | Phase::Polling => match event {
                Event::Reply(_) => true,
                _ => false,
            },
            Phase::Presenting => match event {
                Event::Presented => true,
                _ => false,
            },
            Phase::Waiting => match event {
                Event::Elapsed => true,
                _ => false,
            },
            Phase::Finished => false,
        }
    }

    /// Takes what the code request brought: the codes, which the user is to
    /// be shown, or the error that ends the attempt.
    fn take_codes(&mut self, codes: Result<(PollInformation, String), Error>) -> (action: Action)
        ensures
            (final(self)@, action@) == match code_view(codes) {
                Ok((information, device_code)) => (
                    AttemptView {
                        phase: Phase::Presenting,
                        device_code,
                        interval: information.interval,
                    },
                    ActionView::Present(information),
                ),
                Err(error) => (
                    AttemptView { phase: Phase::Finished, ..old(self)@ },
                    ActionView::Finish(Err(error)),
                ),
            },
    {
        match codes {
            Ok((information, device_code)) => {
                self.phase = Phase::Presenting;
                self.device_code = device_code;
                self.interval = information.interval;
                Action::Present(information)
            },
            Err(error) => {
                self.phase = Phase::Finished;
                Action::Finish(Err(error))
            },
        }
    }

    /// Takes what a poll brought: the attempt ends, or the interval is to
    /// pass again.
    fn take_outcome(&mut self, outcome: Result<Token, Error>) -> (action: Action)
        requires
            is_slow_down(outcome_view(outcome)) ==> old(self)@.interval + SLOW_DOWN_STEP
                <= u64::MAX,
        ensures
            (final(self)@, action@) == match decide(old(self)@.interval, outcome_view(outcome)) {
                DecisionView::Retry { interval } => (
                    AttemptView { phase: Phase::Waiting, interval, ..old(self)@ },
                    ActionView::Wait { seconds: interval },
                ),
                DecisionView::Stop(outcome) => (
                    AttemptView { phase: Phase::Finished, ..old(self)@ },
                    ActionView::Finish(outcome),
                ),
            },
    {
        match after_poll(self.interval, outcome) {
            Decision::Retry { interval } => {
                self.phase = Phase::Waiting;
                self.interval = interval;
                Action::Wait { seconds: interval }
            },
            Decision::Stop(outcome) => {
                self.phase = Phase::Finished;
                Action::Finish(outcome)
            },
        }
    }
}

impl DeviceFlow {
    /// Creates a flow for that client, with Google's address for the code
    /// request and Google's grant type.
    pub fn new(app_secret: ApplicationSecret) -> (flow: DeviceFlow)
        ensures
            flow.app_secret == app_secret,
            flow.device_code_url@ == GOOGLE_DEVICE_CODE_URL@,
            flow.grant_type@ == GOOGLE_GRANT_TYPE@,
    {
        DeviceFlow {
            app_secret,
            device_code_url: String::from_str(GOOGLE_DEVICE_CODE_URL),
            grant_type: String::from_str(GOOGLE_GRANT_TYPE),
        }
    }

    /// The request for the codes: a form with the client and the scopes, the
    /// scopes joined by spaces, posted to the address for code requests.
    pub open spec fn code_request_view(&self, scopes: Seq<Seq<char>>) -> RequestView {
        RequestView {
            method: POST@,
            url: self.device_code_url@,
            content_type: FORM_CONTENT_TYPE@,
            body: form_encoded(
                seq![
                    ("client_id"@, self.app_secret.client_id@),
                    ("scope"@, joined(scopes, " "@)),
                ],
            ),
        }
    }

    /// The request for the token: a form with the client, its secret, the
    /// device code and the grant type, posted to the token endpoint.
    pub open spec fn poll_request_view(&self, device_code: Seq<char>) -> RequestView {
        RequestView {
            method: POST@,
            url: self.app_secret.token_uri@,
            content_type: FORM_CONTENT_TYPE@,
            body: form_encoded(
                seq![
                    ("client_id"@, self.app_secret.client_id@),
                    ("client_secret"@, self.app_secret.client_secret@),
                    ("code"@, device_code),
                    ("grant_type"@, self.grant_type@),
                ],
            ),
        }
    }

    /// Builds the request that asks the server for a code that the user can
    /// type in at the address that comes with it.
    pub fn code_request(&self, scopes: &[&str]) -> (request: Request)
        ensures
            request@ == self.code_request_view(texts(scopes@)),
    {
        let scope = join(scopes, " ");
        let mut pairs: Vec<(&str, &str)> = Vec::new();
        pairs.push(("client_id", self.app_secret.client_id.as_str()));
        pairs.push(("scope", scope.as_str()));
        assert(pair_texts(pairs@) == seq![
            ("client_id"@, self.app_secret.client_id@),
            ("scope"@, joined(texts(scopes@), " "@)),
        ]);
        Request {
            method: POST,
            url: self.device_code_url.clone(),
            content_type: FORM_CONTENT_TYPE,
            body: form_body(pairs.as_slice()),
        }
    }

    /// Builds the request that asks the server whether the user has approved,
    /// and for the token if so.
    pub fn poll_request(&self, device_code: &str) -> (request: Request)
        ensures
            request@ == self.poll_request_view(device_code@),
    {
        let mut pairs: Vec<(&str, &str)> = Vec::new();
        pairs.push(("client_id", self.app_secret.client_id.as_str()));
        pairs.push(("client_secret", self.app_secret.client_secret.as_str()));
        pairs.push(("code", device_code));
        pairs.push(("grant_type", self.grant_type.as_str()));
        assert(pair_texts(pairs@) == seq![
            ("client_id"@, self.app_secret.client_id@),
            ("client_secret"@, self.app_secret.client_secret@),
            ("code"@, device_code@),
            ("grant_type"@, self.grant_type@),
        ]);
        Request {
            method: POST,
            url: self.app_secret.token_uri.clone(),
            content_type: FORM_CONTENT_TYPE,
            body: form_body(pairs.as_slice()),
        }
    }

    /// What an attempt does on an event that it expects: where it stands
    /// afterwards, and what it asks of the host.
    ///
    /// * The reply to the code request either ends the attempt with its error, or
    ///   brings the codes: the user is to be shown them.
    /// * Once the user has been shown the code, the interval is to pass.
    /// * Once the interval has passed, a poll is to be sent.
    /// * The reply to a poll ends the attempt, or has the interval pass again,
    ///   as [`decide`] says.
    pub open spec fn transition(&self, before: AttemptView, event: EventView) -> (
        AttemptView,
        ActionView,
    ) {
        match (before.phase, event) {
            (Phase::RequestingCode, EventView::Reply(reply)) => match code_reply(reply) {
                Ok((information, device_code)) => (
                    AttemptView {
                        phase: Phase::Presenting,
                        device_code,
                        interval: information.interval,
                    },
                    ActionView::Present(information),
                ),
                Err(error) => (
                    AttemptView { phase: Phase::Finished, ..before },
                    ActionView::Finish(Err(error)),
                ),
            },
            (Phase::Presenting, EventView::Presented) => (
                AttemptView { phase: Phase::Waiting, ..before },
                ActionView::Wait { seconds: before.interval },
            ),
            (Phase::Waiting, EventView::Elapsed) => (
                AttemptView { phase: Phase::Polling, ..before },
                ActionView::Send(self.poll_request_view(before.device_code)),
            ),
            (Phase::Polling, EventView::Reply(reply)) => match decide(
                before.interval,
                token_reply(reply),
            ) {
                DecisionView::Retry { interval } => (
                    AttemptView { phase: Phase::Waiting, interval, ..before },
                    ActionView::Wait { seconds: interval },
                ),
                DecisionView::Stop(outcome) => (
                    AttemptView { phase: Phase::Finished, ..before },
                    ActionView::Finish(outcome),
                ),
            },
            _ => arbitrary(),
        }
    }

    /// Starts an attempt for the scopes: the code request is to be sent.
    pub fn begin(&self, scopes: &[&str]) -> (start: (Attempt, Action))
        ensures
            start.0@ == (AttemptView {
                phase: Phase::RequestingCode,
                device_code: Seq::empty(),
                interval: 0,
            }),
            start.1@ == ActionView::Send(self.code_request_view(texts(scopes@))),
    {
        let attempt = Attempt {
            phase: Phase::RequestingCode,
            device_code: String::new(),
            interval: 0,
        };
        (attempt, Action::Send(self.code_request(scopes)))
    }

    /// What an attempt does on an event, where it can take a step on it.
    pub open spec fn try_transition(&self, before: AttemptView, event: EventView) -> Option<
        (AttemptView, ActionView),
    > {
        if can_step(before, event) {
            Some(self.transition(before, event))
        } else {
            None
        }
    }

    /// Takes the attempt one step further on the event that the host
    /// reports, and says what the host is to do next. The event is the one
    /// that the attempt waits for; an attempt that has ended waits for none.
    pub fn step(&self, attempt: &mut Attempt, event: Event) -> (action: Action)
        requires
            can_step(old(attempt)@, event@),
        ensures
            (final(attempt)@, action@) == self.transition(old(attempt)@, event@),
    {
        match event {
            Event::Reply(reply) => {
                if attempt.phase == Phase::RequestingCode {
                    attempt.take_codes(read_code_reply(reply))
                } else {
                    attempt.take_outcome(read_token_reply(reply))
                }
            },
            Event::Presented => {
                attempt.phase = Phase::Waiting;
                Action::Wait { seconds: attempt.interval }
            },
            Event::Elapsed => {
                attempt.phase = Phase::Polling;
                Action::Send(self.poll_request(attempt.device_code.as_str()))
            },
        }
    }

    /// Takes the attempt one step further on the event that the host
    /// reports, where it can take a step on it, and says what the host is to
    /// do next. Otherwise the attempt stays as it is, and nothing is to be
    /// done.
    pub fn try_step(&self, attempt: &mut Attempt, event: Event) -> (action: Option<Action>)
        ensures
            match action {
                Some(action) => self.try_transition(old(attempt)@, event@) == Some(
                    (final(attempt)@, action@),
                ),
                None => self.try_transition(old(attempt)@, event@) is None && final(attempt)@
                    == old(attempt)@,
            },
    {
        if !attempt.expects_event(&event) {
            return None;
        }
        match event {
            Event::Reply(reply) => {
                if attempt.phase == Phase::Polling {
                    let outcome = read_token_reply(reply);
                    if asks_to_slow_down(&outcome) && attempt.interval > u64::MAX
                        - SLOW_DOWN_STEP {
                        None
                    } else {
                        Some(attempt.take_outcome(outcome))
                    }
                } else {
                    Some(self.step(attempt, Event::Reply(reply)))
                }
            },
            other => Some(self.step(attempt, other)),
        }
    }

    /// Takes the attempt one step further on a response that has just come
    /// in, as [`DeviceFlow::try_step`] does: the time of receipt is read from
    /// the system clock.
    pub fn try_step_on_response(&self, attempt: &mut Attempt, body: Vec<u8>) -> (action: Option<
        Action,
    >)
        ensures
            exists|received_at: i64|
                match action {
                    Some(action) => self.try_transition(
                        old(attempt)@,
                        #[trigger] response_at(body@, received_at),
                    ) == Some((final(attempt)@, action@)),
                    None => self.try_transition(old(attempt)@, response_at(body@, received_at))
                        is None && final(attempt)@ == old(attempt)@,
                },
    {
        let received_at = unix_now();
        let ghost event = response_at(body@, received_at);
        let action = self.try_step(attempt, Event::Reply(Reply::Response { body, received_at }));
        assert(match action {
            Some(action) => self.try_transition(old(attempt)@, event) == Some((attempt@, action@)),
            None => self.try_transition(old(attempt)@, event) is None && attempt@ == old(attempt)@,
        });
        action
    }
}

/// The outcome of a poll, by its view.
pub type Outcome = Result<TokenView, ErrorView>;

/// Where the polling stands after polls with these outcomes, in order, the
/// first of them made after a wait of `interval` seconds. Once the polling
/// has stopped, later outcomes change nothing: no poll is made for them.
pub open spec fn after_polls(interval: nat, outcomes: Seq<Outcome>) -> DecisionView
    decreases outcomes.len(),
{
    if outcomes.len() == 0 {
        DecisionView::Retry { interval }
    } else {
        match after_polls(interval, outcomes.drop_last()) {
            DecisionView::Retry { interval: current } => decide(current, outcomes.last()),
            stopped => stopped,
        }
    }
}

/// The number of polls that are made when the server would answer with
/// these outcomes, in order.
pub open spec fn polls_made(interval: nat, outcomes: Seq<Outcome>) -> nat
    decreases outcomes.len(),
{
    if outcomes.len() == 0 {
        0
    } else if after_polls(interval, outcomes.drop_last()) is Retry {
        polls_made(interval, outcomes.drop_last()) + 1
    } else {
        polls_made(interval, outcomes.drop_last())
    }
}

/// Each time the server asks the client to slow down, the wait grows by
/// [`SLOW_DOWN_STEP`] seconds: after any number of such answers in a row it
/// is longer by that many steps, whatever its length was, and every one of
/// the polls is made.
pub proof fn lemma_slow_down_adds_step(interval: nat, outcomes: Seq<Outcome>)
    requires
        forall|i: int| 0 <= i < outcomes.len() ==> is_slow_down(#[trigger] outcomes[i]),
    ensures
        after_polls(interval, outcomes) == (DecisionView::Retry {
            interval: interval + SLOW_DOWN_STEP as nat * outcomes.len(),
        }),
        polls_made(interval, outcomes) == outcomes.len(),
    decreases outcomes.len(),
{
    lemma_signals_differ();
    if outcomes.len() > 0 {
        lemma_slow_down_adds_step(interval, outcomes.drop_last());
        assert(is_slow_down(outcomes[outcomes.len() - 1]));
    }
}

/// While the server answers that the user has not acted yet, the wait stays
/// as it is, however often that happens, and every one of the polls is made.
pub proof fn lemma_pending_keeps_interval(interval: nat, outcomes: Seq<Outcome>)
    requires
        forall|i: int| 0 <= i < outcomes.len() ==> is_pending(#[trigger] outcomes[i]),
    ensures
        after_polls(interval, outcomes) == (DecisionView::Retry { interval }),
        polls_made(interval, outcomes) == outcomes.len(),
    decreases outcomes.len(),
{
    if outcomes.len() > 0 {
        lemma_pending_keeps_interval(interval, outcomes.drop_last());
        assert(is_pending(outcomes[outcomes.len() - 1]));
    }
}

/// The wait never gets shorter: not by one poll, and not by any number of
/// them.
pub proof fn lemma_interval_never_decreases(interval: nat, outcomes: Seq<Outcome>)
    ensures
        forall|outcome: Outcome| #[trigger]
            decide(interval, outcome) matches DecisionView::Retry { interval: next } ==> next
                >= interval,
        after_polls(interval, outcomes) matches DecisionView::Retry { interval: last } ==> last
            >= interval,
    decreases outcomes.len(),
{
    if outcomes.len() > 0 {
        lemma_interval_never_decreases(interval, outcomes.drop_last());
    }
}

/// The first outcome that is neither of the two signals to poll again ends
/// the polling: a token, a refusal, an expired code, a failed transport, a
/// response that cannot be decoded. That outcome is the result, the poll
/// that brought it is the last one made, and whatever the server would have
/// answered afterwards plays no part.
pub proof fn lemma_polling_stops_at_first_end(interval: nat, outcomes: Seq<Outcome>, k: int)
    requires
        0 <= k < outcomes.len(),
        forall|i: int| 0 <= i < k ==> is_pending(#[trigger] outcomes[i]) || is_slow_down(outcomes[i]),
        !is_pending(outcomes[k]),
        !is_slow_down(outcomes[k]),
    ensures
        after_polls(interval, outcomes) == DecisionView::Stop(outcomes[k]),
        polls_made(interval, outcomes) == k + 1,
    decreases outcomes.len(),
{
    let earlier = outcomes.drop_last();
    if k == outcomes.len() - 1 {
        lemma_polling_goes_on(interval, earlier);
    } else {
        lemma_polling_stops_at_first_end(interval, earlier, k);
    }
}

/// As long as every outcome is one of the two signals to poll again, the
/// polling goes on, and every one of the polls is made.
pub proof fn lemma_polling_goes_on(interval: nat, outcomes: Seq<Outcome>)
    requires
        forall|i: int|
            0 <= i < outcomes.len() ==> is_pending(#[trigger] outcomes[i]) || is_slow_down(
                outcomes[i],
            ),
    ensures
        after_polls(interval, outcomes) is Retry,
        polls_made(interval, outcomes) == outcomes.len(),
    decreases outcomes.len(),
{
    if outcomes.len() > 0 {
        lemma_polling_goes_on(interval, outcomes.drop_last());
        let last = outcomes[outcomes.len() - 1];
        assert(is_pending(last) || is_slow_down(last));
    }
}

impl DeviceFlow {
    /// Where a waiting attempt stands after so many rounds: in each, the
    /// host reports that the wait has passed, is asked to send a poll, and
    /// reports the reply. Once the attempt has ended there are no more
    /// rounds: the replies that are left are never asked for.
    pub open spec fn after_rounds(&self, before: AttemptView, replies: Seq<ReplyView>) -> AttemptView
        decreases replies.len(),
    {
        if replies.len() == 0 {
            before
        } else {
            let earlier = self.after_rounds(before, replies.drop_last());
            if earlier.phase == Phase::Waiting {
                let polling = self.transition(earlier, EventView::Elapsed).0;
                self.transition(polling, EventView::Reply(replies.last())).0
            } else {
                earlier
            }
        }
    }

    /// An attempt polls as [`after_polls`] says: after any number of rounds
    /// it waits with the interval that the outcomes of the replies lead to,
    /// or it has ended because one of them ended the polling.
    pub proof fn lemma_attempt_follows_polls(&self, before: AttemptView, replies: Seq<ReplyView>)
        requires
            before.phase == Phase::Waiting,
        ensures
            ({
                let outcomes = replies.map_values(|reply: ReplyView| token_reply(reply));
                let after = self.after_rounds(before, replies);
                &&& after.device_code == before.device_code
                &&& match after_polls(before.interval, outcomes) {
                    DecisionView::Retry { interval } => after.phase == Phase::Waiting
                        && after.interval == interval,
                    DecisionView::Stop(_) => after.phase == Phase::Finished,
                }
            }),
        decreases replies.len(),
    {
        if replies.len() > 0 {
            let outcomes = replies.map_values(|reply: ReplyView| token_reply(reply));
            let earlier = replies.drop_last();
            self.lemma_attempt_follows_polls(before, earlier);
            assert(outcomes.drop_last() == earlier.map_values(
                |reply: ReplyView| token_reply(reply),
            ));
            assert(outcomes.last() == token_reply(replies.last()));
        }
    }

    /// An attempt that has ended expects no event: nothing further is asked
    /// of the host, and no request is sent.
    pub proof fn lemma_finished_is_final(event: EventView)
        ensures
            !expects(Phase::Finished, event),
    {
    }

    /// A reply to a poll that is neither of the two signals to poll again
    /// ends the attempt at once, with that reply's outcome.
    pub proof fn lemma_reply_ends_attempt(&self, before: AttemptView, reply: ReplyView)
        requires
            before.phase == Phase::Polling,
            !is_pending(token_reply(reply)),
            !is_slow_down(token_reply(reply)),
        ensures
            self.transition(before, EventView::Reply(reply)) == (
                AttemptView { phase: Phase::Finished, ..before },
                ActionView::Finish(token_reply(reply)),
            ),
    {
    }

    /// A reply to a poll that is one of the two signals has the host wait
    /// again before the next poll: as long as before where the user has not
    /// acted yet, and [`SLOW_DOWN_STEP`] seconds longer where the server asks
    /// the client to slow down.
    pub proof fn lemma_reply_waits_again(&self, before: AttemptView, reply: ReplyView)
        requires
            before.phase == Phase::Polling,
            is_pending(token_reply(reply)) || is_slow_down(token_reply(reply)),
        ensures
            ({
                let interval = if is_pending(token_reply(reply)) {
                    before.interval
                } else {
                    before.interval + SLOW_DOWN_STEP as nat
                };
                self.transition(before, EventView::Reply(reply)) == (
                    AttemptView { phase: Phase::Waiting, interval, ..before },
                    ActionView::Wait { seconds: interval },
                )
            }),
    {
        lemma_signals_differ();
    }

    /// Once the codes are there, no step changes the device code, and no
    /// step shortens the wait.
    pub proof fn lemma_step_keeps_code_and_wait(&self, before: AttemptView, event: EventView)
        requires
            before.phase != Phase::RequestingCode,
            expects(before.phase, event),
        ensures
            self.transition(before, event).0.device_code == before.device_code,
            self.transition(before, event).0.interval >= before.interval,
    {
    }

    /// The codes are asked for once and shown once: no step leads back to
    /// the code request, and only the reply to the code request has the
    /// user shown anything.
    pub proof fn lemma_codes_come_once(&self, before: AttemptView, event: EventView)
        requires
            expects(before.phase, event),
        ensures
            self.transition(before, event).0.phase != Phase::RequestingCode,
            self.transition(before, event).0.phase == Phase::Presenting <==> self.transition(
                before,
                event,
            ).1 is Present,
            self.transition(before, event).1 is Present ==> before.phase == Phase::RequestingCode,
            self.transition(before, event).0.phase == Phase::Finished <==> self.transition(
                before,
                event,
            ).1 is Finish,
    {
    }

    /// The device code reaches the host in a poll only, and a poll is asked
    /// for only when a wait has just passed: the user is never shown the
    /// device code, and no poll follows another without a wait.
    pub proof fn lemma_poll_follows_wait(&self, before: AttemptView, event: EventView)
        requires
            expects(before.phase, event),
        ensures
            self.transition(before, event).1 is Send <==> before.phase == Phase::Waiting,
            before.phase == Phase::Waiting ==> self.transition(before, event).1
                == ActionView::Send(self.poll_request_view(before.device_code)),
            self.transition(before, event).1 is Present ==> before.phase == Phase::RequestingCode,
    {
    }
}

} // verus!

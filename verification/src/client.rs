//! The client side of the websocket protocol: how a client reads what a
//! websocket server sends it, which websocket servers it may use, and in
//! which order it tries them.
use vstd::prelude::*;
use crate::const_file::{
    FAILED, HEARTBEAT_MESSAGE, LIVE_TYPE_TRUE, RESULT_MESSAGE, SERVER_WEB_SOCKET_URL, SUCCESS, WS_MODE, WS_SERVER_GROUP,
};
use crate::data::{service_views, ServiceMsg, ServiceMsgView};
use crate::text::{
    free_of, join_texts, join_with, lemma_join_split, lemma_split_after_field, split_on, split_text, text_eq,
    views,
};

verus! {

/// Tools of the websocket client.
pub struct ClientTools;

/// What a text message from a websocket server is about.
#[derive(Clone, Copy, Debug, PartialEq, Eq, Structural)]
pub enum HandleMode {
    /// A report on a message that the client pushed.
    Result,
    /// Anything else.
    Unknown,
}

/// What the client makes of a text message from a websocket server.
#[derive(Clone, Copy, Debug, PartialEq, Eq, Structural)]
pub enum ReceiveOutcome {
    /// The server reports that the pushed message reached kafka.
    PushSucceeded,
    /// The server reports that the pushed message did not reach kafka.
    PushFailed,
    /// A report whose result is neither of the two known ones.
    UnknownResult,
    /// A message that is no report.
    UnknownMessage,
}

/// A frame that arrives on the client's websocket.
pub enum WsEvent {
    /// A text frame.
    Text(String),
    /// The server closed the connection.
    Close,
    /// Any other frame.
    Other,
}

/// What the client's receiving loop does with a frame.
#[derive(Clone, Copy, Debug, PartialEq, Eq, Structural)]
pub enum ReceiveAction {
    /// A text frame was read; the loop goes on.
    Handled(ReceiveOutcome),
    /// The connection is closed; the loop ends.
    Stop,
    /// A frame of an unexpected kind; the loop goes on.
    Unexpected,
}

/// The kind field of a message: what comes before its first comma.
pub open spec fn kind_of(msg: Seq<char>) -> Seq<char> {
    split_on(msg, ',')[0]
}

/// How a text message from a server is handled, by its kind field.
pub open spec fn handle_mode_of(msg: Seq<char>) -> HandleMode {
    if kind_of(msg) == RESULT_MESSAGE@ {
        HandleMode::Result
    } else {
        HandleMode::Unknown
    }
}

/// The result that a report carries: everything after its first comma.
pub open spec fn result_of(msg: Seq<char>) -> Seq<char> {
    join_with(split_on(msg, ',').drop_first(), seq![','])
}

/// What the client makes of a text message from a server.
pub open spec fn outcome_of(msg: Seq<char>) -> ReceiveOutcome {
    match handle_mode_of(msg) {
        HandleMode::Result => if result_of(msg) == SUCCESS@ {
            ReceiveOutcome::PushSucceeded
        } else if result_of(msg) == FAILED@ {
            ReceiveOutcome::PushFailed
        } else {
            ReceiveOutcome::UnknownResult
        },
        HandleMode::Unknown => ReceiveOutcome::UnknownMessage,
    }
}

/// The websocket address of a websocket server.
pub open spec fn ws_url_of(url: Seq<char>) -> Seq<char> {
    WS_MODE@ + url + SERVER_WEB_SOCKET_URL@
}

/// A report `result,<r>` is read by its whole result `r`, whatever `r`
/// holds, commas included: `success` is a success, `failed` a failure,
/// anything else an unknown result.
pub proof fn lemma_report_result(r: Seq<char>)
    ensures
        handle_mode_of(RESULT_MESSAGE@.push(',') + r) == HandleMode::Result,
        result_of(RESULT_MESSAGE@.push(',') + r) == r,
        outcome_of(RESULT_MESSAGE@.push(',') + r) == if r == SUCCESS@ {
            ReceiveOutcome::PushSucceeded
        } else if r == FAILED@ {
            ReceiveOutcome::PushFailed
        } else {
            ReceiveOutcome::UnknownResult
        },
{
    reveal_strlit("result");
    assert(RESULT_MESSAGE@ =~= seq!['r', 'e', 's', 'u', 'l', 't']);
    assert(free_of(RESULT_MESSAGE@, ','));
    lemma_split_after_field(RESULT_MESSAGE@, r, ',');
    let t = RESULT_MESSAGE@.push(',') + r;
    assert(split_on(t, ',').drop_first() =~= split_on(r, ','));
    lemma_join_split(r, ',');
}

/// A message whose kind field is not `result` is never read as a report.
pub proof fn lemma_non_report_unknown(text: Seq<char>)
    requires
        split_on(text, ',')[0] != RESULT_MESSAGE@,
    ensures
        handle_mode_of(text) == HandleMode::Unknown,
        outcome_of(text) == ReceiveOutcome::UnknownMessage,
{
}

impl ClientTools {
    /// How a text message from a websocket server is handled: as a report
    /// when its kind field is `result`, else as unknown.
    pub fn get_handle_mode(msg: &String) -> (mode: HandleMode)
        ensures
            mode == handle_mode_of(msg@),
            (mode == HandleMode::Result) == (split_on(msg@, ',')[0] == RESULT_MESSAGE@),
    {
        let parts = split_text(msg.as_str(), ',');
        proof {
            crate::text::lemma_split_nonempty(msg@, ',');
        }
        assert(parts@[0]@ == views(parts@)[0]);
        if text_eq(parts[0].as_str(), RESULT_MESSAGE) {
            HandleMode::Result
        } else {
            HandleMode::Unknown
        }
    }

    /// What the client makes of a text message from a websocket server.
    pub fn handle_text(text: &String) -> (outcome: ReceiveOutcome)
        ensures
            outcome == outcome_of(text@),
            split_on(text@, ',')[0] != RESULT_MESSAGE@ ==> outcome == ReceiveOutcome::UnknownMessage,
            forall|r: Seq<char>|
                text@ == RESULT_MESSAGE@.push(',') + r ==> outcome == (if r == SUCCESS@ {
                    ReceiveOutcome::PushSucceeded
                } else if r == FAILED@ {
                    ReceiveOutcome::PushFailed
                } else {
                    ReceiveOutcome::UnknownResult
                }),
    {
        proof {
            assert forall|r: Seq<char>| text@ == RESULT_MESSAGE@.push(',') + r implies outcome_of(
                text@,
            ) == (if r == SUCCESS@ {
                ReceiveOutcome::PushSucceeded
            } else if r == FAILED@ {
                ReceiveOutcome::PushFailed
            } else {
                ReceiveOutcome::UnknownResult
            }) by {
                lemma_report_result(r);
            }
        }
        match ClientTools::get_handle_mode(text) {
            HandleMode::Result => {
                let mut parts = split_text(text.as_str(), ',');
                proof {
                    crate::text::lemma_split_nonempty(text@, ',');
                }
                let ghost all = views(parts@);
                parts.remove(0);
                assert(views(parts@) =~= all.drop_first());
                let result = join_texts(&parts, ",");
                proof {
                    reveal_strlit(",");
                    assert(","@ =~= seq![',']);
                }
                if text_eq(result.as_str(), SUCCESS) {
                    ReceiveOutcome::PushSucceeded
                } else if text_eq(result.as_str(), FAILED) {
                    ReceiveOutcome::PushFailed
                } else {
                    ReceiveOutcome::UnknownResult
                }
            },
            HandleMode::Unknown => ReceiveOutcome::UnknownMessage,
        }
    }

    /// One step of the client's receiving loop: a text frame is handled, a
    /// close frame ends the loop, any other frame is skipped.
    pub fn on_ws_message(event: &WsEvent) -> (action: ReceiveAction)
        ensures
            action == (match event {
                WsEvent::Text(t) => ReceiveAction::Handled(outcome_of(t@)),
                WsEvent::Close => ReceiveAction::Stop,
                WsEvent::Other => ReceiveAction::Unexpected,
            }),
    {
        match event {
            WsEvent::Text(t) => ReceiveAction::Handled(ClientTools::handle_text(t)),
            WsEvent::Close => ReceiveAction::Stop,
            WsEvent::Other => ReceiveAction::Unexpected,
        }
    }

    /// What the client sends to keep its connection alive: the bare kind
    /// `heartbeat`.
    pub fn heart_beat_text() -> (s: String)
        ensures
            s@ == HEARTBEAT_MESSAGE@,
    {
        HEARTBEAT_MESSAGE.to_string()
    }

    /// The websocket address of a websocket server: `ws://`, the server's
    /// address, `/ws`.
    pub fn ws_url(url: &str) -> (res: String)
        ensures
            res@ == ws_url_of(url@),
    {
        let mut res = WS_MODE.to_string();
        res.append(url);
        res.append(SERVER_WEB_SOCKET_URL);
        res
    }
}

/// The urls of the live websocket servers among `services`, in order.
pub open spec fn live_ws_urls(services: Seq<ServiceMsgView>) -> Seq<Seq<char>>
    decreases services.len(),
{
    if services.len() == 0 {
        Seq::<Seq<char>>::empty()
    } else {
        let prev = live_ws_urls(services.drop_last());
        let s = services.last();
        if s.service_group == WS_SERVER_GROUP@ && s.live_type == LIVE_TYPE_TRUE@ {
            prev.push(s.url)
        } else {
            prev
        }
    }
}

impl ClientTools {
    /// The urls that a client may connect to: those of the services in the
    /// group `ws_server_urls` whose live type is `1`, in order.
    pub fn select_ws_urls(services: &Vec<ServiceMsg>) -> (urls: Vec<String>)
        ensures
            views(urls@) == live_ws_urls(service_views(services@)),
            views(urls@) == service_views(services@).filter(
                |s: ServiceMsgView| s.service_group == WS_SERVER_GROUP@ && s.live_type == LIVE_TYPE_TRUE@,
            ).map_values(|s: ServiceMsgView| s.url),
    {
        let mut urls: Vec<String> = Vec::new();
        let n = services.len();
        let mut i: usize = 0;
        while i < n
            invariant
                n == services.len(),
                i <= n,
                views(urls@) == live_ws_urls(service_views(services@).take(i as int)),
            decreases n - i,
        {
            let s = &services[i];
            let ghost sv = service_views(services@);
            assert(sv.take(i + 1).drop_last() =~= sv.take(i as int));
            assert(sv.take(i + 1).last() == s@);
            if text_eq(s.service_group.as_str(), WS_SERVER_GROUP) && text_eq(
                s.live_type.as_str(),
                LIVE_TYPE_TRUE,
            ) {
                let ghost before = views(urls@);
                urls.push(s.url.clone());
                assert(views(urls@) =~= before.push(s.url@));
            }
            i += 1;
        }
        assert(service_views(services@).take(n as int) =~= service_views(services@));
        proof {
            lemma_live_ws_urls_filter(service_views(services@));
        }
        urls
    }
}

/// What the client does next when it connects to a websocket server.
pub enum ConnectAction {
    /// Try to connect to this websocket address.
    Try(String),
    /// Connected to the server at this position of the list.
    Connected(usize),
    /// No server of the list could be reached.
    AllFailed,
}

/// The client's way through its list of websocket servers: it tries them
/// in order and keeps the first one that it reaches.
pub struct ConnectPlan {
    urls: Vec<String>,
    tried: usize,
    connected: Option<usize>,
}

/// Where a [`ConnectPlan`] stands: the servers' urls, how many of them
/// failed, and which one was reached, if any.
pub struct ConnectState {
    pub urls: Seq<Seq<char>>,
    pub failed: nat,
    pub connected: Option<nat>,
}

/// A plan still has a server to try.
pub open spec fn connect_pending(s: ConnectState) -> bool {
    s.connected is None && s.failed < s.urls.len()
}

/// The state after one attempt, which reached its server or not.
pub open spec fn connect_step(s: ConnectState, reached: bool) -> ConnectState {
    if reached {
        ConnectState { connected: Some(s.failed), ..s }
    } else {
        ConnectState { failed: s.failed + 1, ..s }
    }
}

/// The state after the attempts whose outcomes are `outcomes`, made in
/// order while the plan is pending; later outcomes are not used.
pub open spec fn connect_run(s: ConnectState, outcomes: Seq<bool>) -> ConnectState
    decreases outcomes.len(),
{
    if outcomes.len() == 0 || !connect_pending(s) {
        s
    } else {
        connect_run(connect_step(s, outcomes[0]), outcomes.drop_first())
    }
}

/// No outcome before position `k` is a success.
pub open spec fn none_reached_before(outcomes: Seq<bool>, k: int) -> bool {
    forall|j: int| 0 <= j < k ==> !outcomes[j]
}

impl View for ConnectPlan {
    type V = ConnectState;

    closed spec fn view(&self) -> ConnectState {
        ConnectState {
            urls: views(self.urls@),
            failed: self.tried as nat,
            connected: match self.connected {
                Some(i) => Some(i as nat),
                None => None,
            },
        }
    }
}

impl ConnectPlan {
    /// The plan's invariant: the failures count stays within the list, and
    /// a reached server is the one after the failures.
    pub closed spec fn well_formed(&self) -> bool {
        &&& self.tried <= self.urls.len()
        &&& self.connected matches Some(i) ==> i == self.tried && i < self.urls.len()
    }

    /// A plan over `urls` that has tried nothing yet.
    pub fn new(urls: Vec<String>) -> (p: Self)
        ensures
            p.well_formed(),
            p@ == (ConnectState { urls: views(urls@), failed: 0, connected: None }),
    {
        ConnectPlan { urls, tried: 0, connected: None }
    }

    /// What to do next: the websocket address of the next server to try,
    /// the server reached, or the news that none can be reached.
    pub fn next_action(&self) -> (a: ConnectAction)
        requires
            self.well_formed(),
        ensures
            match a {
                ConnectAction::Try(u) => connect_pending(self@) && u@ == ws_url_of(
                    self@.urls[self@.failed as int],
                ),
                ConnectAction::Connected(i) => self@.connected == Some(i as nat),
                ConnectAction::AllFailed => self@.connected is None && self@.failed == self@.urls.len(),
            },
    {
        match self.connected {
            Some(i) => ConnectAction::Connected(i),
            None => {
                if self.tried < self.urls.len() {
                    ConnectAction::Try(ClientTools::ws_url(self.urls[self.tried].as_str()))
                } else {
                    ConnectAction::AllFailed
                }
            },
        }
    }

    /// Records whether the server just tried was reached.
    pub fn record(&mut self, reached: bool)
        requires
            old(self).well_formed(),
            connect_pending(old(self)@),
        ensures
            final(self).well_formed(),
            final(self)@ == connect_step(old(self)@, reached),
            final(self)@.urls == old(self)@.urls,
            reached ==> final(self)@.connected == Some(old(self)@.failed) && final(self)@.failed
                == old(self)@.failed,
            !reached ==> final(self)@.connected is None && final(self)@.failed == old(self)@.failed
                + 1,
    {
        if reached {
            self.connected = Some(self.tried);
        } else {
            self.tried = self.tried + 1;
        }
    }
}

/// Trying the servers in order ends at the first one reached: when the
/// attempts before position `k` fail and the one at `k` succeeds, the plan
/// is connected to the server at `k`.
pub proof fn lemma_connect_first_reached(s: ConnectState, outcomes: Seq<bool>, k: int)
    requires
        s.connected is None,
        s.failed <= k < s.urls.len(),
        k - s.failed < outcomes.len(),
        none_reached_before(outcomes, k - s.failed),
        outcomes[k - s.failed],
    ensures
        connect_run(s, outcomes).connected == Some(k as nat),
    decreases outcomes.len(),
{
    let t = connect_step(s, outcomes[0]);
    if k == s.failed {
        assert(connect_run(t, outcomes.drop_first()) == t);
    } else {
        assert(!outcomes[0]);
        assert forall|j: int| 0 <= j < k - t.failed implies !outcomes.drop_first()[j] by {
            assert(outcomes.drop_first()[j] == outcomes[j + 1]);
        }
        lemma_connect_first_reached(t, outcomes.drop_first(), k);
    }
}

/// When every server of the list fails, the plan reports that none can be
/// reached.
pub proof fn lemma_connect_all_failed(s: ConnectState, outcomes: Seq<bool>)
    requires
        s.connected is None,
        s.failed <= s.urls.len(),
        s.urls.len() - s.failed <= outcomes.len(),
        none_reached_before(outcomes, s.urls.len() - s.failed),
    ensures
        connect_run(s, outcomes).connected is None,
        connect_run(s, outcomes).failed == s.urls.len(),
    decreases s.urls.len() - s.failed,
{
    if s.failed < s.urls.len() {
        let t = connect_step(s, outcomes[0]);
        assert forall|j: int| 0 <= j < t.urls.len() - t.failed implies !outcomes.drop_first()[j] by {
            assert(outcomes.drop_first()[j] == outcomes[j + 1]);
        }
        lemma_connect_all_failed(t, outcomes.drop_first());
    }
}

/// The urls offered to clients are exactly the urls of the services of
/// group `ws_server_urls` whose live type is `1`, in the order of the list:
/// the list filtered by that test, each service taken by its url, however
/// many there are.
pub proof fn lemma_live_ws_urls_filter(services: Seq<ServiceMsgView>)
    ensures
        live_ws_urls(services) == services.filter(
            |s: ServiceMsgView| s.service_group == WS_SERVER_GROUP@ && s.live_type == LIVE_TYPE_TRUE@,
        ).map_values(|s: ServiceMsgView| s.url),
    decreases services.len(),
{
    let p = |s: ServiceMsgView| s.service_group == WS_SERVER_GROUP@ && s.live_type == LIVE_TYPE_TRUE@;
    reveal(Seq::filter);
    if services.len() == 0 {
        assert(services.filter(p) =~= Seq::<ServiceMsgView>::empty());
        assert(services.filter(p).map_values(|s: ServiceMsgView| s.url) =~= Seq::<Seq<char>>::empty());
    } else {
        lemma_live_ws_urls_filter(services.drop_last());
        let sub = services.drop_last().filter(p);
        if p(services.last()) {
            assert(services.filter(p) == sub.push(services.last()));
            assert(sub.push(services.last()).map_values(|s: ServiceMsgView| s.url) =~= sub.map_values(
                |s: ServiceMsgView| s.url,
            ).push(services.last().url));
        } else {
            assert(services.filter(p) == sub);
        }
    }
}

/// The plan's starting state over `urls`.
pub open spec fn connect_start(urls: Seq<Seq<char>>) -> ConnectState {
    ConnectState { urls: urls, failed: 0, connected: None }
}

/// Attempts never change the list of servers.
pub proof fn lemma_connect_run_keeps_urls(s: ConnectState, outcomes: Seq<bool>)
    ensures
        connect_run(s, outcomes).urls == s.urls,
    decreases outcomes.len(),
{
    if outcomes.len() > 0 && connect_pending(s) {
        lemma_connect_run_keeps_urls(connect_step(s, outcomes[0]), outcomes.drop_first());
    }
}

/// After `k` failed attempts from a state with no server reached, the plan
/// still holds the same list, counts `k` more failures and has reached
/// nothing.
pub proof fn lemma_connect_after_failures(s: ConnectState, outcomes: Seq<bool>, k: int)
    requires
        s.connected is None,
        0 <= k <= outcomes.len(),
        s.failed + k <= s.urls.len(),
        none_reached_before(outcomes, k),
    ensures
        connect_run(s, outcomes.take(k)) == (ConnectState {
            urls: s.urls,
            failed: (s.failed + k) as nat,
            connected: None,
        }),
    decreases k,
{
    if k == 0 {
        assert(outcomes.take(0).len() == 0);
    } else {
        let t = connect_step(s, outcomes[0]);
        assert(!outcomes[0]);
        assert(connect_pending(s));
        let rest = outcomes.drop_first();
        assert forall|j: int| 0 <= j < k - 1 implies !rest[j] by {
            assert(rest[j] == outcomes[j + 1]);
        }
        lemma_connect_after_failures(t, rest, k - 1);
        assert(outcomes.take(k).drop_first() =~= rest.take(k - 1));
        assert(outcomes.take(k)[0] == outcomes[0]);
    }
}

/// The `k`-th attempt of a plan over `urls` goes to the `k`-th server of
/// the list: after the first `k` servers failed, the plan is still pending
/// and its next server is `urls[k]`, so servers are tried once each, in
/// list order.
pub proof fn lemma_connect_kth_attempt(urls: Seq<Seq<char>>, outcomes: Seq<bool>, k: int)
    requires
        0 <= k < urls.len(),
        k <= outcomes.len(),
        none_reached_before(outcomes, k),
    ensures
        connect_pending(connect_run(connect_start(urls), outcomes.take(k))),
        connect_run(connect_start(urls), outcomes.take(k)).urls == urls,
        connect_run(connect_start(urls), outcomes.take(k)).failed == k,
        connect_run(connect_start(urls), outcomes.take(k)).urls[k] == urls[k],
{
    lemma_connect_after_failures(connect_start(urls), outcomes, k);
}

} // verus!

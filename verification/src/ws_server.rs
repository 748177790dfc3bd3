//! The websocket server's side of the protocol: what it does with each
//! text frame that a client sends, and how it reports a push back.
use vstd::prelude::*;
use crate::const_file::{FAILED, HEARTBEAT_MESSAGE, RESULT_MESSAGE, SUCCESS, TEXT_MESSAGE, TEXT_TOPIC};
use crate::data::{Msg, MsgView};
use crate::client_msg::{lemma_push_text_kind_first, push_text_of, ClientMsg, ClientMsgType};
use crate::text::{split_on, split_text, text_eq, views};

verus! {

/// What the websocket server does with a text frame from a client.
pub enum WsAction {
    /// A heartbeat: nothing to do.
    Ignore,
    /// A text message: push it to a push server, then report the result.
    Push(Msg),
    /// A frame of unknown kind: report a failure.
    ReplyFailed,
}

/// [`WsAction`] with the message given by its fields.
pub enum WsDecision {
    Ignore,
    Push(MsgView),
    ReplyFailed,
}

impl View for WsAction {
    type V = WsDecision;

    open spec fn view(&self) -> WsDecision {
        match self {
            WsAction::Ignore => WsDecision::Ignore,
            WsAction::Push(m) => WsDecision::Push(m@),
            WsAction::ReplyFailed => WsDecision::ReplyFailed,
        }
    }
}

/// A frame that the server can handle: a text message has at least its
/// kind, client uuid, data and key fields.
pub open spec fn ws_text_handled(text: Seq<char>) -> bool {
    split_on(text, ',')[0] == TEXT_MESSAGE@ ==> split_on(text, ',').len() >= 4
}

/// What the server does with `text`, received at `time`.
pub open spec fn ws_decision_of(text: Seq<char>, time: Seq<char>) -> WsDecision {
    let parts = split_on(text, ',');
    if parts[0] == HEARTBEAT_MESSAGE@ {
        WsDecision::Ignore
    } else if parts[0] == TEXT_MESSAGE@ {
        WsDecision::Push(
            MsgView {
                time: time,
                client_uuid: parts[1],
                msg: parts[2],
                kafka_topic: TEXT_TOPIC@,
                kafka_key: parts[3],
            },
        )
    } else {
        WsDecision::ReplyFailed
    }
}

/// The report that the server sends back: `result,success` or
/// `result,failed`.
pub open spec fn result_text_of(pushed: bool) -> Seq<char> {
    RESULT_MESSAGE@.push(',') + if pushed {
        SUCCESS@
    } else {
        FAILED@
    }
}

/// What the websocket server does with a text frame `text` from a client,
/// received at `time`: a heartbeat is ignored; a text message
/// `text,<uuid>,<data>,<key>` becomes a message for kafka topic `text2`;
/// anything else is answered with a failure.
pub fn handle_client_text(text: &str, time: String) -> (action: WsAction)
    requires
        ws_text_handled(text@),
    ensures
        action@ == ws_decision_of(text@, time@),
        split_on(text@, ',')[0] == HEARTBEAT_MESSAGE@ ==> action is Ignore,
        split_on(text@, ',')[0] == TEXT_MESSAGE@ ==> (action matches WsAction::Push(m) && m.time@
            == time@ && m.client_uuid@ == split_on(text@, ',')[1] && m.msg@ == split_on(text@, ',')[2]
            && m.kafka_topic@ == TEXT_TOPIC@ && m.kafka_key@ == split_on(text@, ',')[3]),
        split_on(text@, ',')[0] != HEARTBEAT_MESSAGE@ && split_on(text@, ',')[0] != TEXT_MESSAGE@
            ==> action is ReplyFailed,
{
    let parts = split_text(text, ',');
    proof {
        crate::text::lemma_split_nonempty(text@, ',');
    }
    assert(parts@[0]@ == views(parts@)[0]);
    if text_eq(parts[0].as_str(), HEARTBEAT_MESSAGE) {
        proof {
            lemma_heartbeat_kind_ignored(text@, time@);
        }
        WsAction::Ignore
    } else if text_eq(parts[0].as_str(), TEXT_MESSAGE) {
        assert(parts@[1]@ == views(parts@)[1]);
        assert(parts@[2]@ == views(parts@)[2]);
        assert(parts@[3]@ == views(parts@)[3]);
        let msg = Msg {
            time: time,
            client_uuid: parts[1].clone(),
            msg: parts[2].clone(),
            kafka_topic: TEXT_TOPIC.to_string(),
            kafka_key: parts[3].clone(),
        };
        WsAction::Push(msg)
    } else {
        WsAction::ReplyFailed
    }
}

/// The report that the websocket server sends back to the client after a
/// push: `result,success` when the push server took the message, else
/// `result,failed`.
pub fn result_text(pushed: bool) -> (s: String)
    ensures
        s@ == result_text_of(pushed),
{
    let mut s = RESULT_MESSAGE.to_string();
    s.append(",");
    if pushed {
        s.append(SUCCESS);
    } else {
        s.append(FAILED);
    }
    proof {
        reveal_strlit(",");
    }
    assert(s@ =~= result_text_of(pushed));
    s
}

/// Any frame whose kind field is `heartbeat` is ignored, whatever follows
/// the kind.
pub proof fn lemma_heartbeat_kind_ignored(text: Seq<char>, time: Seq<char>)
    requires
        split_on(text, ',')[0] == HEARTBEAT_MESSAGE@,
    ensures
        ws_text_handled(text),
        ws_decision_of(text, time) == WsDecision::Ignore,
        split_on(text, ',')[0] != TEXT_MESSAGE@,
{
    reveal_strlit("heartbeat");
    reveal_strlit("text");
    assert(HEARTBEAT_MESSAGE@.len() != TEXT_MESSAGE@.len());
}

/// A frame whose kind field is neither `heartbeat` nor `text` is answered
/// with a failure.
pub proof fn lemma_unknown_kind_fails(text: Seq<char>, time: Seq<char>)
    requires
        split_on(text, ',')[0] != HEARTBEAT_MESSAGE@,
        split_on(text, ',')[0] != TEXT_MESSAGE@,
    ensures
        ws_text_handled(text),
        ws_decision_of(text, time) == WsDecision::ReplyFailed,
{
}

/// A heartbeat message in the client's pushed form,
/// `heartbeat,<uuid>,<data>,<key>`, is ignored by the server, whatever its
/// data and key hold.
pub proof fn lemma_pushed_heartbeat_ignored(m: ClientMsg, time: Seq<char>)
    requires
        m.msg_type == ClientMsgType::HeartBeat,
    ensures
        ws_text_handled(push_text_of(m)),
        ws_decision_of(push_text_of(m), time) == WsDecision::Ignore,
{
    lemma_push_text_kind_first(m);
    lemma_heartbeat_kind_ignored(push_text_of(m), time);
}

} // verus!

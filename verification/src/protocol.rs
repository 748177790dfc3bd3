//! Laws of the websocket protocol between clients and websocket servers:
//! what a server reads back from what a client writes, and the other way
//! round.
use vstd::prelude::*;
use crate::client::{handle_mode_of, live_ws_urls, outcome_of, result_of, HandleMode, ReceiveOutcome};
use crate::client_msg::{lemma_uuid_text_free_of_comma, push_text_of, uuid_text, ClientMsg, ClientMsgType};
use crate::const_file::{
    FAILED, HEARTBEAT_MESSAGE, LIVE_TYPE_FALSE, LIVE_TYPE_TRUE, RESULT_MESSAGE, SUCCESS, TEXT_MESSAGE,
    TEXT_TOPIC, WS_SERVER_GROUP,
};
use crate::data::{MsgView, ServiceMsgView};
use crate::text::{free_of, join_with, lemma_split_free, lemma_split_join, split_on};
use crate::ws_server::{result_text_of, ws_decision_of, ws_text_handled, WsDecision};

verus! {

proof fn lemma_kind_words()
    ensures
        TEXT_MESSAGE@ == seq!['t', 'e', 'x', 't'],
        HEARTBEAT_MESSAGE@ == seq!['h', 'e', 'a', 'r', 't', 'b', 'e', 'a', 't'],
        RESULT_MESSAGE@ == seq!['r', 'e', 's', 'u', 'l', 't'],
        SUCCESS@ == seq!['s', 'u', 'c', 'c', 'e', 's', 's'],
        FAILED@ == seq!['f', 'a', 'i', 'l', 'e', 'd'],
{
    reveal_strlit("text");
    reveal_strlit("heartbeat");
    reveal_strlit("result");
    reveal_strlit("success");
    reveal_strlit("failed");
    assert(TEXT_MESSAGE@ =~= seq!['t', 'e', 'x', 't']);
    assert(HEARTBEAT_MESSAGE@ =~= seq!['h', 'e', 'a', 'r', 't', 'b', 'e', 'a', 't']);
    assert(RESULT_MESSAGE@ =~= seq!['r', 'e', 's', 'u', 'l', 't']);
    assert(SUCCESS@ =~= seq!['s', 'u', 'c', 'c', 'e', 's', 's']);
    assert(FAILED@ =~= seq!['f', 'a', 'i', 'l', 'e', 'd']);
}

/// A text message that a client pushes, with data and key free of commas,
/// is read by the websocket server as that same message: the server pushes
/// a message with the receiving time, the client's uuid text, the data, the
/// topic `text2` and the key.
pub proof fn lemma_pushed_text_reaches_kafka(m: ClientMsg, time: Seq<char>)
    requires
        m.msg_type == ClientMsgType::Text,
        free_of(m.msg_data@, ','),
        free_of(m.msg_key@, ','),
    ensures
        ws_text_handled(push_text_of(m)),
        ws_decision_of(push_text_of(m), time) == WsDecision::Push(
            MsgView {
                time: time,
                client_uuid: uuid_text(m.msg_client_uuid),
                msg: m.msg_data@,
                kafka_topic: TEXT_TOPIC@,
                kafka_key: m.msg_key@,
            },
        ),
{
    lemma_kind_words();
    lemma_uuid_text_free_of_comma(m.msg_client_uuid);
    let parts = seq![TEXT_MESSAGE@, uuid_text(m.msg_client_uuid), m.msg_data@, m.msg_key@];
    assert(join_with(parts, seq![',']) =~= push_text_of(m)) by {
        let p1 = seq![TEXT_MESSAGE@];
        let p2 = seq![TEXT_MESSAGE@, uuid_text(m.msg_client_uuid)];
        let p3 = seq![TEXT_MESSAGE@, uuid_text(m.msg_client_uuid), m.msg_data@];
        assert(p2.drop_last() =~= p1);
        assert(p3.drop_last() =~= p2);
        assert(parts.drop_last() =~= p3);
        assert(join_with(p1, seq![',']) == TEXT_MESSAGE@);
        assert(join_with(p2, seq![',']) == TEXT_MESSAGE@ + seq![','] + uuid_text(m.msg_client_uuid));
        assert(join_with(p3, seq![',']) == join_with(p2, seq![',']) + seq![','] + m.msg_data@);
        assert(join_with(parts, seq![',']) == join_with(p3, seq![',']) + seq![','] + m.msg_key@);
    }
    assert forall|i: int| 0 <= i < parts.len() implies free_of(#[trigger] parts[i], ',') by {
        if i == 0 {
            assert(TEXT_MESSAGE@[0] == 't');
        }
    }
    lemma_split_join(parts, ',');
    assert(split_on(push_text_of(m), ',')[0] != HEARTBEAT_MESSAGE@) by {
        assert(TEXT_MESSAGE@.len() != HEARTBEAT_MESSAGE@.len());
    }
}

/// The heartbeat that a client sends, the bare kind `heartbeat`, is ignored
/// by the websocket server.
pub proof fn lemma_heartbeat_ignored(time: Seq<char>)
    ensures
        ws_text_handled(HEARTBEAT_MESSAGE@),
        ws_decision_of(HEARTBEAT_MESSAGE@, time) == WsDecision::Ignore,
{
    lemma_kind_words();
    lemma_split_free(HEARTBEAT_MESSAGE@, ',');
}

/// The report that a websocket server sends after a push is read by the
/// client as that push's result.
pub proof fn lemma_report_understood(pushed: bool)
    ensures
        outcome_of(result_text_of(pushed)) == if pushed {
            ReceiveOutcome::PushSucceeded
        } else {
            ReceiveOutcome::PushFailed
        },
{
    lemma_kind_words();
    let r = if pushed { SUCCESS@ } else { FAILED@ };
    let parts = seq![RESULT_MESSAGE@, r];
    assert(join_with(parts, seq![',']) =~= result_text_of(pushed)) by {
        assert(parts.drop_last() =~= seq![RESULT_MESSAGE@]);
        assert(join_with(seq![RESULT_MESSAGE@], seq![',']) == RESULT_MESSAGE@);
        assert(join_with(parts, seq![',']) == RESULT_MESSAGE@ + seq![','] + r);
    }
    assert(free_of(parts[0], ','));
    assert(free_of(parts[1], ','));
    lemma_split_join(parts, ',');
    assert(handle_mode_of(result_text_of(pushed)) == HandleMode::Result);
    assert(split_on(result_text_of(pushed), ',').drop_first() =~= seq![r]);
    assert(result_of(result_text_of(pushed)) == r);
    assert(SUCCESS@ != FAILED@) by {
        assert(SUCCESS@.len() != FAILED@.len());
    }
}

/// A websocket server's live type, as the heartbeat stores it, decides
/// whether clients are offered it: stored alive (`1`) it is offered, stored
/// dead (`0`) it is not.
pub proof fn lemma_live_type_decides_offer(s: ServiceMsgView, alive: bool)
    requires
        s.service_group == WS_SERVER_GROUP@,
    ensures
        live_ws_urls(
            seq![
                ServiceMsgView {
                    live_type: if alive {
                        LIVE_TYPE_TRUE@
                    } else {
                        LIVE_TYPE_FALSE@
                    },
                    ..s
                },
            ],
        ) == if alive {
            seq![s.url]
        } else {
            Seq::<Seq<char>>::empty()
        },
{
    reveal_strlit("1");
    reveal_strlit("0");
    assert(LIVE_TYPE_TRUE@ != LIVE_TYPE_FALSE@) by {
        assert(LIVE_TYPE_TRUE@[0] != LIVE_TYPE_FALSE@[0]);
    }
    let t = ServiceMsgView {
        live_type: if alive {
            LIVE_TYPE_TRUE@
        } else {
            LIVE_TYPE_FALSE@
        },
        ..s
    };
    assert(seq![t].drop_last() =~= Seq::<ServiceMsgView>::empty());
    assert(live_ws_urls(Seq::<ServiceMsgView>::empty()) == Seq::<Seq<char>>::empty());
    assert(seq![t].last() == t);
    assert((t.live_type == LIVE_TYPE_TRUE@) == alive);
    assert(t.service_group == WS_SERVER_GROUP@);
    assert(Seq::<Seq<char>>::empty().push(s.url) =~= seq![s.url]);
}

} // verus!

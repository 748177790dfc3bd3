//! The push server's side: the record it hands to kafka for a message, and
//! the replies of its gRPC services.
use vstd::prelude::*;
use crate::client_msg::{lemma_uuid_text_free_of_comma, push_text_of, uuid_text, ClientMsg, ClientMsgType};
use crate::data::{Msg, MsgView};
use crate::protocol::lemma_pushed_text_reaches_kafka;
use crate::text::{free_of, join_with, lemma_split_join, split_on};
use crate::ws_server::{ws_decision_of, WsDecision};

verus! {

/// A record for kafka: where it goes and what it says.
pub struct KafkaRecord {
    pub topic: String,
    pub key: String,
    pub payload: String,
}

/// What a message says once it is in kafka: `<time>,<client uuid>,<msg>`.
pub open spec fn kafka_payload_of(m: MsgView) -> Seq<char> {
    m.time + seq![','] + m.client_uuid + seq![','] + m.msg
}

/// The kafka record of a message: it goes to the message's topic under its
/// key and says `<time>,<client uuid>,<msg>`.
pub fn kafka_record(msg: &Msg) -> (r: KafkaRecord)
    ensures
        r.topic@ == msg.kafka_topic@,
        r.key@ == msg.kafka_key@,
        r.payload@ == kafka_payload_of(msg@),
        r.payload@ == msg.time@ + seq![','] + msg.client_uuid@ + seq![','] + msg.msg@,
        r.payload@.len() == msg.time@.len() + msg.client_uuid@.len() + msg.msg@.len() + 2,
        r.payload@.subrange(0, msg.time@.len() as int) == msg.time@,
        r.payload@.subrange(
            r.payload@.len() - msg.msg@.len(),
            r.payload@.len() as int,
        ) == msg.msg@,
{
    let mut payload = msg.time.clone();
    payload.append(",");
    payload.append(msg.client_uuid.as_str());
    payload.append(",");
    payload.append(msg.msg.as_str());
    proof {
        reveal_strlit(",");
        assert(","@ =~= seq![',']);
    }
    proof {
        lemma_kafka_payload_layout(msg@);
    }
    KafkaRecord { topic: msg.kafka_topic.clone(), key: msg.kafka_key.clone(), payload }
}

/// The payload of any message, whatever its fields hold: the time, a
/// comma, the client uuid, a comma, and then the whole message text, which
/// the payload ends with.
pub proof fn lemma_kafka_payload_layout(m: MsgView)
    ensures
        kafka_payload_of(m).len() == m.time.len() + m.client_uuid.len() + m.msg.len() + 2,
        kafka_payload_of(m).subrange(0, m.time.len() as int) == m.time,
        kafka_payload_of(m)[m.time.len() as int] == ',',
        kafka_payload_of(m).subrange(
            m.time.len() + 1 as int,
            m.time.len() + 1 + m.client_uuid.len() as int,
        ) == m.client_uuid,
        kafka_payload_of(m)[m.time.len() + 1 + m.client_uuid.len() as int] == ',',
        kafka_payload_of(m).subrange(
            kafka_payload_of(m).len() - m.msg.len(),
            kafka_payload_of(m).len() as int,
        ) == m.msg,
{
    let p = kafka_payload_of(m);
    let t = m.time.len() as int;
    let u = m.client_uuid.len() as int;
    assert(p.subrange(0, t) =~= m.time);
    assert(p.subrange(t + 1, t + 1 + u) =~= m.client_uuid);
    assert(p.subrange(p.len() - m.msg.len(), p.len() as int) =~= m.msg);
}

/// A consumer that splits a kafka payload on commas reads back the time,
/// the client uuid and the message, when none of them holds a comma.
pub proof fn lemma_kafka_payload_fields(m: MsgView)
    requires
        free_of(m.time, ','),
        free_of(m.client_uuid, ','),
        free_of(m.msg, ','),
    ensures
        split_on(kafka_payload_of(m), ',') == seq![m.time, m.client_uuid, m.msg],
{
    let parts = seq![m.time, m.client_uuid, m.msg];
    assert(parts.drop_last().drop_last() =~= seq![m.time]);
    assert(parts.drop_last() =~= seq![m.time, m.client_uuid]);
    assert(join_with(seq![m.time], seq![',']) == m.time);
    assert(join_with(parts.drop_last(), seq![',']) == m.time + seq![','] + m.client_uuid);
    assert(join_with(parts, seq![',']) == kafka_payload_of(m));
    assert forall|i: int| 0 <= i < parts.len() implies free_of(#[trigger] parts[i], ',') by {}
    lemma_split_join(parts, ',');
}

/// End to end: a text message that a client pushes, with data and key free
/// of commas, reaches kafka under its key, and a consumer reads from it the
/// time at which the websocket server received it, the client's uuid and
/// the data.
pub proof fn lemma_client_text_read_by_consumer(m: ClientMsg, time: Seq<char>)
    requires
        m.msg_type == ClientMsgType::Text,
        free_of(m.msg_data@, ','),
        free_of(m.msg_key@, ','),
        free_of(time, ','),
    ensures
        ws_decision_of(push_text_of(m), time) matches WsDecision::Push(pushed) && pushed.kafka_key
            == m.msg_key@ && split_on(kafka_payload_of(pushed), ',') == seq![
            time,
            uuid_text(m.msg_client_uuid),
            m.msg_data@,
        ],
{
    lemma_pushed_text_reaches_kafka(m, time);
    lemma_uuid_text_free_of_comma(m.msg_client_uuid);
    let pushed = MsgView {
        time: time,
        client_uuid: uuid_text(m.msg_client_uuid),
        msg: m.msg_data@,
        kafka_topic: crate::const_file::TEXT_TOPIC@,
        kafka_key: m.msg_key@,
    };
    lemma_kafka_payload_fields(pushed);
}

/// The greeting of the service servers: `This is server1, Hello <name>!`.
pub fn hello_reply(name: &str) -> (s: String)
    ensures
        s@ == "This is server1, Hello "@ + name@ + "!"@,
{
    let mut s = "This is server1, Hello ".to_string();
    s.append(name);
    s.append("!");
    s
}

} // verus!

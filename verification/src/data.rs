//! The records that the servers of the push system exchange.
use vstd::prelude::*;

verus! {

/// A message on its way to kafka.
pub struct Msg {
    /// When the websocket server received it.
    pub time: String,
    /// The uuid of the client that sent it, in text form.
    pub client_uuid: String,
    /// What the message says.
    pub msg: String,
    /// The kafka topic it goes to.
    pub kafka_topic: String,
    /// The kafka key of its conversation.
    pub kafka_key: String,
}

/// The fields of a [`Msg`] as text.
pub struct MsgView {
    pub time: Seq<char>,
    pub client_uuid: Seq<char>,
    pub msg: Seq<char>,
    pub kafka_topic: Seq<char>,
    pub kafka_key: Seq<char>,
}

impl View for Msg {
    type V = MsgView;

    open spec fn view(&self) -> MsgView {
        MsgView {
            time: self.time@,
            client_uuid: self.client_uuid@,
            msg: self.msg@,
            kafka_topic: self.kafka_topic@,
            kafka_key: self.kafka_key@,
        }
    }
}

/// A service that registered itself in redis.
pub struct ServiceMsg {
    /// Its id within its group.
    pub id: String,
    /// The group it belongs to (such as `ws_server_urls`).
    pub service_group: String,
    /// `1` while it answers its heartbeat, `0` otherwise.
    pub live_type: String,
    /// Its address.
    pub url: String,
}

/// The fields of a [`ServiceMsg`] as text.
pub struct ServiceMsgView {
    pub id: Seq<char>,
    pub service_group: Seq<char>,
    pub live_type: Seq<char>,
    pub url: Seq<char>,
}

impl View for ServiceMsg {
    type V = ServiceMsgView;

    open spec fn view(&self) -> ServiceMsgView {
        ServiceMsgView {
            id: self.id@,
            service_group: self.service_group@,
            live_type: self.live_type@,
            url: self.url@,
        }
    }
}

/// The views of a sequence of service records.
pub open spec fn service_views(v: Seq<ServiceMsg>) -> Seq<ServiceMsgView> {
    v.map_values(|s: ServiceMsg| s@)
}

} // verus!

//! The message a client pushes to a websocket server, and its text form
//! `<kind>,<client uuid>,<data>,<key>`.
use vstd::prelude::*;
use crate::const_file::{HEARTBEAT_MESSAGE, TEXT_MESSAGE};
use crate::text::{free_of, join_with, lemma_split_first_field, lemma_split_join, split_on};

verus! {

/// The kind of a client message.
pub enum ClientMsgType {
    /// Keeps the connection alive.
    HeartBeat,
    /// Carries text to be pushed.
    Text,
}

/// A message that a client pushes.
pub struct ClientMsg {
    /// The kind of the message.
    pub msg_type: ClientMsgType,
    /// The uuid of the client that sends it, as its 128-bit value.
    pub msg_client_uuid: u128,
    /// What the message says.
    pub msg_data: String,
    /// The kafka key of the conversation that the message belongs to.
    pub msg_key: String,
}

/// The character of a hex digit `0 <= n < 16`, lower case.
pub open spec fn hex_digit(n: int) -> char {
    if n < 10 {
        (48 + n) as char
    } else {
        (87 + n) as char
    }
}

/// The `k`-th hex digit of `v`, counted from the most significant one
/// (`0 <= k < 32`).
pub open spec fn nibble(v: u128, k: int) -> int {
    (v as int / vstd::arithmetic::power::pow(16, (31 - k) as nat)) % 16
}

/// How many hyphens stand before position `i` of a hyphenated uuid.
pub open spec fn hyphens_before(i: int) -> int {
    if i < 8 {
        0
    } else if i < 13 {
        1
    } else if i < 18 {
        2
    } else if i < 23 {
        3
    } else {
        4
    }
}

/// The hyphenated lower-case text of the uuid whose value is `v`:
/// its 32 hex digits, most significant first, in groups of 8, 4, 4, 4 and
/// 12 separated by `-`.
pub open spec fn uuid_text(v: u128) -> Seq<char> {
    Seq::new(
        36,
        |i: int|
            if i == 8 || i == 13 || i == 18 || i == 23 {
                '-'
            } else {
                hex_digit(nibble(v, i - hyphens_before(i)))
            },
    )
}

/// `uuid::Uuid::from_u128` then `to_string` (its `Display`): the
/// hyphenated lower-case form of the uuid whose value is `value`.
#[verifier::external_body]
fn uuid_hyphenated(value: u128) -> (s: String)
    ensures
        s@ == uuid_text(value),
{
    uuid::Uuid::from_u128(value).to_string()
}

/// A uuid's text holds no comma, so it stays one field of a message.
pub proof fn lemma_uuid_text_free_of_comma(v: u128)
    ensures
        free_of(uuid_text(v), ','),
        uuid_text(v).len() == 36,
{
    assert forall|i: int| 0 <= i < uuid_text(v).len() implies uuid_text(v)[i] != ',' by {
        if !(i == 8 || i == 13 || i == 18 || i == 23) {
            let k = i - hyphens_before(i);
            let p = vstd::arithmetic::power::pow(16, (31 - k) as nat);
            vstd::arithmetic::power::lemma_pow_positive(16, (31 - k) as nat);
            let n = nibble(v, k);
            assert(v as int / p >= 0) by (nonlinear_arith)
                requires
                    p > 0,
                    v as int >= 0,
            ;
            assert(0 <= n < 16);
            if n < 10 {
                assert(((48 + n) as char) as int == 48 + n);
            } else {
                assert(((87 + n) as char) as int == 87 + n);
            }
        }
    }
}

impl ClientMsgType {
    /// The kind field that stands for this kind in a message.
    pub open spec fn text(self) -> Seq<char> {
        match self {
            ClientMsgType::HeartBeat => HEARTBEAT_MESSAGE@,
            ClientMsgType::Text => TEXT_MESSAGE@,
        }
    }

    /// The kind field that stands for this kind in a message:
    /// `heartbeat` or `text`.
    pub fn to_string(&self) -> (s: String)
        ensures
            s@ == self.text(),
            *self == ClientMsgType::HeartBeat ==> s@ == HEARTBEAT_MESSAGE@,
            *self == ClientMsgType::Text ==> s@ == TEXT_MESSAGE@,
    {
        match self {
            ClientMsgType::HeartBeat => HEARTBEAT_MESSAGE.to_string(),
            ClientMsgType::Text => TEXT_MESSAGE.to_string(),
        }
    }
}

impl Clone for ClientMsgType {
    fn clone(&self) -> (res: Self)
        ensures
            res == *self,
    {
        match self {
            ClientMsgType::HeartBeat => ClientMsgType::HeartBeat,
            ClientMsgType::Text => ClientMsgType::Text,
        }
    }
}

impl Clone for ClientMsg {
    fn clone(&self) -> (res: Self)
        ensures
            res == *self,
    {
        ClientMsg {
            msg_client_uuid: self.msg_client_uuid,
            msg_type: self.msg_type.clone(),
            msg_data: self.msg_data.clone(),
            msg_key: self.msg_key.clone(),
        }
    }
}

/// The text form of a client message: kind, client uuid, data and key,
/// separated by commas.
pub open spec fn push_text_of(m: ClientMsg) -> Seq<char> {
    m.msg_type.text().push(',') + uuid_text(m.msg_client_uuid).push(',') + m.msg_data@.push(',')
        + m.msg_key@
}

/// The kind field of each kind: `heartbeat` for a heartbeat, `text` for a
/// text message.
pub open spec fn kind_field(t: ClientMsgType) -> Seq<char> {
    match t {
        ClientMsgType::HeartBeat => HEARTBEAT_MESSAGE@,
        ClientMsgType::Text => TEXT_MESSAGE@,
    }
}

proof fn lemma_kind_fields_free_of_comma()
    ensures
        free_of(HEARTBEAT_MESSAGE@, ','),
        free_of(TEXT_MESSAGE@, ','),
        HEARTBEAT_MESSAGE@ == seq!['h', 'e', 'a', 'r', 't', 'b', 'e', 'a', 't'],
        TEXT_MESSAGE@ == seq!['t', 'e', 'x', 't'],
{
    reveal_strlit("heartbeat");
    reveal_strlit("text");
    assert(HEARTBEAT_MESSAGE@ =~= seq!['h', 'e', 'a', 'r', 't', 'b', 'e', 'a', 't']);
    assert(TEXT_MESSAGE@ =~= seq!['t', 'e', 'x', 't']);
}

/// The first comma-separated field of a pushed message is always the
/// message's kind, `heartbeat` or `text`, whatever its data and key hold.
pub proof fn lemma_push_text_kind_first(m: ClientMsg)
    ensures
        split_on(push_text_of(m), ',').len() >= 2,
        split_on(push_text_of(m), ',')[0] == kind_field(m.msg_type),
        m.msg_type == ClientMsgType::HeartBeat ==> split_on(push_text_of(m), ',')[0]
            == HEARTBEAT_MESSAGE@,
        m.msg_type == ClientMsgType::Text ==> split_on(push_text_of(m), ',')[0] == TEXT_MESSAGE@,
{
    lemma_kind_fields_free_of_comma();
    let k = kind_field(m.msg_type);
    let rest = uuid_text(m.msg_client_uuid).push(',') + m.msg_data@.push(',') + m.msg_key@;
    assert(m.msg_type.text() == k);
    assert(push_text_of(m) =~= k.push(',') + rest);
    lemma_split_first_field(k, rest, ',');
}

/// A pushed message whose data and key hold no comma splits back into
/// exactly its four fields: kind, uuid text, data, key.
pub proof fn lemma_push_text_fields(m: ClientMsg)
    requires
        free_of(m.msg_data@, ','),
        free_of(m.msg_key@, ','),
    ensures
        split_on(push_text_of(m), ',') == seq![
            kind_field(m.msg_type),
            uuid_text(m.msg_client_uuid),
            m.msg_data@,
            m.msg_key@,
        ],
{
    lemma_kind_fields_free_of_comma();
    lemma_uuid_text_free_of_comma(m.msg_client_uuid);
    let k = kind_field(m.msg_type);
    let u = uuid_text(m.msg_client_uuid);
    let parts = seq![k, u, m.msg_data@, m.msg_key@];
    let p1 = seq![k];
    let p2 = seq![k, u];
    let p3 = seq![k, u, m.msg_data@];
    assert(p2.drop_last() =~= p1);
    assert(p3.drop_last() =~= p2);
    assert(parts.drop_last() =~= p3);
    assert(join_with(p1, seq![',']) == k);
    assert(join_with(p2, seq![',']) == k + seq![','] + u);
    assert(join_with(p3, seq![',']) == join_with(p2, seq![',']) + seq![','] + m.msg_data@);
    assert(join_with(parts, seq![',']) == join_with(p3, seq![',']) + seq![','] + m.msg_key@);
    assert(m.msg_type.text() == k);
    assert(join_with(parts, seq![',']) =~= push_text_of(m));
    assert forall|i: int| 0 <= i < parts.len() implies free_of(#[trigger] parts[i], ',') by {}
    lemma_split_join(parts, ',');
}

impl ClientMsg {
    /// A text message from the nil uuid, with empty data and key.
    pub fn new() -> (m: Self)
        ensures
            m.msg_type == ClientMsgType::Text,
            m.msg_client_uuid == 0,
            m.msg_data@ == Seq::<char>::empty(),
            m.msg_key@ == Seq::<char>::empty(),
    {
        ClientMsg {
            // the nil uuid: all 128 bits zero
            msg_client_uuid: 0,
            msg_type: ClientMsgType::Text,
            msg_data: String::new(),
            msg_key: String::new(),
        }
    }

    /// Sets the sender's uuid.
    pub fn msg_client_uuid(&mut self, msg_client_uuid: u128) -> (r: &mut Self)
        ensures
            r.msg_client_uuid == msg_client_uuid,
            r.msg_type == old(self).msg_type,
            r.msg_data == old(self).msg_data,
            r.msg_key == old(self).msg_key,
            *final(self) == *final(r),
    {
        self.msg_client_uuid = msg_client_uuid;
        self
    }

    /// Sets the kind.
    pub fn msg_type(&mut self, msg_type: ClientMsgType) -> (r: &mut Self)
        ensures
            r.msg_type == msg_type,
            r.msg_client_uuid == old(self).msg_client_uuid,
            r.msg_data == old(self).msg_data,
            r.msg_key == old(self).msg_key,
            *final(self) == *final(r),
    {
        self.msg_type = msg_type;
        self
    }

    /// Sets the data.
    pub fn msg_data(&mut self, msg_data: String) -> (r: &mut Self)
        ensures
            r.msg_data == msg_data,
            r.msg_type == old(self).msg_type,
            r.msg_client_uuid == old(self).msg_client_uuid,
            r.msg_key == old(self).msg_key,
            *final(self) == *final(r),
    {
        self.msg_data = msg_data;
        self
    }

    /// The text form in which a client pushes the message:
    /// `<kind>,<client uuid>,<data>,<key>`.
    pub fn push_text(&self) -> (s: String)
        ensures
            s@ == push_text_of(*self),
            split_on(s@, ',')[0] == kind_field(self.msg_type),
            self.msg_type == ClientMsgType::HeartBeat ==> split_on(s@, ',')[0] == HEARTBEAT_MESSAGE@,
            self.msg_type == ClientMsgType::Text ==> split_on(s@, ',')[0] == TEXT_MESSAGE@,
            free_of(self.msg_data@, ',') && free_of(self.msg_key@, ',') ==> split_on(s@, ',') == seq![
                kind_field(self.msg_type),
                uuid_text(self.msg_client_uuid),
                self.msg_data@,
                self.msg_key@,
            ],
    {
        let mut s = self.msg_type.to_string();
        s.append(",");
        let u = uuid_hyphenated(self.msg_client_uuid);
        s.append(u.as_str());
        s.append(",");
        s.append(self.msg_data.as_str());
        s.append(",");
        s.append(self.msg_key.as_str());
        proof {
            reveal_strlit(",");
        }
        assert(s@ =~= push_text_of(*self));
        proof {
            lemma_push_text_kind_first(*self);
            if free_of(self.msg_data@, ',') && free_of(self.msg_key@, ',') {
                lemma_push_text_fields(*self);
            }
        }
        s
    }
}

} // verus!

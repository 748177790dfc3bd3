use my_im::redis_pool::live_type_value;
use my_im::client::{ClientTools, ConnectAction, ConnectPlan, HandleMode, ReceiveAction, ReceiveOutcome, WsEvent};
use my_im::client_msg::{ClientMsg, ClientMsgType};
use my_im::client_push_msg::ClientPushMsg;
use my_im::data::{Msg, ServiceMsg};
use my_im::push_server::{hello_reply, kafka_record};
use my_im::text::{join_texts, split_text};
use my_im::ws_server::{handle_client_text, result_text, WsAction};

fn service(id: &str, group: &str, live: &str, url: &str) -> ServiceMsg {
    ServiceMsg {
        id: id.to_string(),
        service_group: group.to_string(),
        live_type: live.to_string(),
        url: url.to_string(),
    }
}

#[test]
fn split_keeps_empty_pieces() {
    assert_eq!(split_text("a,,b,", ','), vec!["a", "", "b", ""]);
    assert_eq!(split_text("", ','), vec![""]);
    assert_eq!(split_text("abc", ','), vec!["abc"]);
}

#[test]
fn join_puts_separator_between() {
    let parts = vec!["x".to_string(), "y".to_string(), "z".to_string()];
    assert_eq!(join_texts(&parts, ", "), "x, y, z");
    assert_eq!(join_texts(&Vec::new(), ","), "");
    assert_eq!(join_texts(&vec!["only".to_string()], ","), "only");
}

#[test]
fn handle_mode_reads_first_field() {
    assert_eq!(ClientTools::get_handle_mode(&"result,success".to_string()), HandleMode::Result);
    assert_eq!(ClientTools::get_handle_mode(&"result".to_string()), HandleMode::Result);
    assert_eq!(ClientTools::get_handle_mode(&"text,result".to_string()), HandleMode::Unknown);
    assert_eq!(ClientTools::get_handle_mode(&"".to_string()), HandleMode::Unknown);
    assert_eq!(ClientTools::get_handle_mode(&"results,x".to_string()), HandleMode::Unknown);
}

#[test]
fn handle_text_reads_reports() {
    assert_eq!(ClientTools::handle_text(&"result,success".to_string()), ReceiveOutcome::PushSucceeded);
    assert_eq!(ClientTools::handle_text(&"result,failed".to_string()), ReceiveOutcome::PushFailed);
    assert_eq!(ClientTools::handle_text(&"result,ok".to_string()), ReceiveOutcome::UnknownResult);
    assert_eq!(ClientTools::handle_text(&"result,success,x".to_string()), ReceiveOutcome::UnknownResult);
    assert_eq!(ClientTools::handle_text(&"result".to_string()), ReceiveOutcome::UnknownResult);
    assert_eq!(ClientTools::handle_text(&"hello,success".to_string()), ReceiveOutcome::UnknownMessage);
}

#[test]
fn receiving_loop_steps() {
    assert_eq!(
        ClientTools::on_ws_message(&WsEvent::Text("result,failed".to_string())),
        ReceiveAction::Handled(ReceiveOutcome::PushFailed)
    );
    assert_eq!(ClientTools::on_ws_message(&WsEvent::Close), ReceiveAction::Stop);
    assert_eq!(ClientTools::on_ws_message(&WsEvent::Other), ReceiveAction::Unexpected);
}

#[test]
fn ws_url_wraps_address() {
    assert_eq!(ClientTools::ws_url("127.0.0.1:3030"), "ws://127.0.0.1:3030/ws");
    assert_eq!(ClientTools::heart_beat_text(), "heartbeat");
}

#[test]
fn select_ws_urls_keeps_live_ws_servers() {
    let services = vec![
        service("1", "ws_server_urls", "1", "127.0.0.1:3030"),
        service("2", "ws_server_urls", "0", "127.0.0.1:3031"),
        service("3", "push_server_urls", "1", "127.0.0.1:50053"),
        service("4", "ws_server_urls", "1", "127.0.0.1:3032"),
    ];
    assert_eq!(ClientTools::select_ws_urls(&services), vec!["127.0.0.1:3030", "127.0.0.1:3032"]);
    assert!(ClientTools::select_ws_urls(&Vec::new()).is_empty());
}

#[test]
fn connect_plan_keeps_first_reached() {
    let mut plan = ConnectPlan::new(vec!["a:1".to_string(), "b:2".to_string(), "c:3".to_string()]);
    assert!(matches!(plan.next_action(), ConnectAction::Try(u) if u == "ws://a:1/ws"));
    plan.record(false);
    assert!(matches!(plan.next_action(), ConnectAction::Try(u) if u == "ws://b:2/ws"));
    plan.record(true);
    assert!(matches!(plan.next_action(), ConnectAction::Connected(1)));
}

#[test]
fn connect_plan_all_failed() {
    let mut plan = ConnectPlan::new(vec!["a:1".to_string(), "b:2".to_string()]);
    plan.record(false);
    plan.record(false);
    assert!(matches!(plan.next_action(), ConnectAction::AllFailed));
    let empty = ConnectPlan::new(Vec::new());
    assert!(matches!(empty.next_action(), ConnectAction::AllFailed));
}

#[test]
fn client_msg_defaults_and_builders() {
    let mut m = ClientMsg::new();
    assert!(matches!(m.msg_type, ClientMsgType::Text));
    assert_eq!(m.msg_client_uuid, 0);
    assert_eq!(m.msg_data, "");
    assert_eq!(m.msg_key, "");
    m.msg_client_uuid(7).msg_type(ClientMsgType::HeartBeat).msg_data("hi".to_string());
    assert_eq!(m.msg_client_uuid, 7);
    assert!(matches!(m.msg_type, ClientMsgType::HeartBeat));
    assert_eq!(m.msg_data, "hi");
    let c = m.clone();
    assert_eq!(c.msg_data, "hi");
    assert_eq!(c.msg_client_uuid, 7);
}

#[test]
fn client_msg_type_text() {
    assert_eq!(ClientMsgType::HeartBeat.to_string(), "heartbeat");
    assert_eq!(ClientMsgType::Text.to_string(), "text");
}

#[test]
fn push_text_formats_fields() {
    let m = ClientMsg {
        msg_type: ClientMsgType::Text,
        msg_client_uuid: 0x67e5504410b1426f9247bb680e5fe0c8,
        msg_data: "test".to_string(),
        msg_key: "hui-hua-1".to_string(),
    };
    assert_eq!(m.push_text(), "text,67e55044-10b1-426f-9247-bb680e5fe0c8,test,hui-hua-1");
    let nil = ClientMsg::new();
    assert_eq!(nil.push_text(), "text,00000000-0000-0000-0000-000000000000,,");
}

#[test]
fn client_push_msg_builder() {
    let mut m = ClientPushMsg::new();
    assert_eq!(m.msg, "");
    m.msg("hello");
    assert_eq!(m.msg, "hello");
}

#[test]
fn ws_server_handles_frames() {
    assert!(matches!(handle_client_text("heartbeat", "t".to_string()), WsAction::Ignore));
    match handle_client_text("text,uuid-1,hello,key-1", "12:00".to_string()) {
        WsAction::Push(m) => {
            assert_eq!(m.time, "12:00");
            assert_eq!(m.client_uuid, "uuid-1");
            assert_eq!(m.msg, "hello");
            assert_eq!(m.kafka_topic, "text2");
            assert_eq!(m.kafka_key, "key-1");
        }
        _ => panic!("expected a push"),
    }
    assert!(matches!(handle_client_text("bogus,1,2,3", "t".to_string()), WsAction::ReplyFailed));
    assert!(matches!(handle_client_text("", "t".to_string()), WsAction::ReplyFailed));
}

#[test]
fn client_text_round_trip_through_ws_server() {
    let m = ClientMsg {
        msg_type: ClientMsgType::Text,
        msg_client_uuid: 1,
        msg_data: "data".to_string(),
        msg_key: "key".to_string(),
    };
    match handle_client_text(&m.push_text(), "now".to_string()) {
        WsAction::Push(p) => {
            assert_eq!(p.client_uuid, "00000000-0000-0000-0000-000000000001");
            assert_eq!(p.msg, "data");
            assert_eq!(p.kafka_key, "key");
            let r = kafka_record(&p);
            assert_eq!(split_text(&r.payload, ','), vec!["now", "00000000-0000-0000-0000-000000000001", "data"]);
        }
        _ => panic!("expected a push"),
    }
}

#[test]
fn result_reports_round_trip() {
    assert_eq!(result_text(true), "result,success");
    assert_eq!(result_text(false), "result,failed");
    assert_eq!(ClientTools::handle_text(&result_text(true)), ReceiveOutcome::PushSucceeded);
    assert_eq!(ClientTools::handle_text(&result_text(false)), ReceiveOutcome::PushFailed);
}

#[test]
fn kafka_record_of_message() {
    let msg = Msg {
        time: "test time".to_string(),
        client_uuid: "test-uuid".to_string(),
        msg: "test msg".to_string(),
        kafka_topic: "text".to_string(),
        kafka_key: "test-key".to_string(),
    };
    let r = kafka_record(&msg);
    assert_eq!(r.topic, "text");
    assert_eq!(r.key, "test-key");
    assert_eq!(r.payload, "test time,test-uuid,test msg");
}

#[test]
fn hello_reply_greets() {
    assert_eq!(hello_reply("World"), "This is server1, Hello World!");
}

#[test]
fn stored_live_type_decides_offer() {
    let alive = service("1", "ws_server_urls", live_type_value(true), "127.0.0.1:3030");
    let dead = service("2", "ws_server_urls", live_type_value(false), "127.0.0.1:3031");
    assert_eq!(ClientTools::select_ws_urls(&vec![alive]), vec!["127.0.0.1:3030"]);
    assert!(ClientTools::select_ws_urls(&vec![dead]).is_empty());
}

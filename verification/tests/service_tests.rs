use my_im::grpc_errors::{GrpcErrorTemplate, GrpcErrors};
use my_im::kafka::{ConsumerTools, KafkaTools, ProducerTools};
use my_im::redis_pool::{
    group_key_pattern, heartbeat_update, heartbeat_url, live_type_value, service_key, services_from_redis_data,
    HeartbeatOutcome, CHUNK_MISMATCH,
};
use my_im::data::ServiceMsg;

fn strings(v: &[&str]) -> Vec<String> {
    v.iter().map(|s| s.to_string()).collect()
}

#[test]
fn bootstrap_servers_join_ports() {
    assert_eq!(
        KafkaTools::get_bootstrap_servers("192.168.33.144", vec!["9094", "9095", "9096"]),
        "192.168.33.144:9094,192.168.33.144:9095,192.168.33.144:9096"
    );
    assert_eq!(KafkaTools::get_bootstrap_servers("h", vec!["1"]), "h:1");
    assert_eq!(KafkaTools::get_bootstrap_servers("h", Vec::new()), "");
    assert_eq!(KafkaTools::cluster_ports(), vec!["9094", "9095", "9096"]);
}

#[test]
fn producer_config_settings() {
    let c = ProducerTools::client_config();
    assert_eq!(
        c.get("bootstrap.servers"),
        Some("192.168.33.144:9094,192.168.33.144:9095,192.168.33.144:9096")
    );
    assert_eq!(c.get("acks"), Some("all"));
    assert_eq!(c.config_map().len(), 2);
}

#[test]
fn consumer_config_settings() {
    let c = ConsumerTools::client_config();
    assert_eq!(
        c.get("bootstrap.servers"),
        Some("192.168.33.144:9094,192.168.33.144:9095,192.168.33.144:9096")
    );
    assert_eq!(c.get("group.id"), Some("test-group"));
    assert_eq!(c.get("security.protocol"), Some("PLAINTEXT"));
    assert_eq!(c.get("auto.offset.reset"), Some("earliest"));
    assert_eq!(c.config_map().len(), 4);
}

#[test]
fn redis_values_make_records() {
    let datas = strings(&[
        "1", "ws_server_urls", "1", "127.0.0.1:3030", "2", "push_server_urls", "0", "[::1]:50053",
    ]);
    let services = match services_from_redis_data(&datas) {
        Ok(s) => s,
        Err(_) => panic!("whole records"),
    };
    assert_eq!(services.len(), 2);
    assert_eq!(services[0].id, "1");
    assert_eq!(services[0].service_group, "ws_server_urls");
    assert_eq!(services[0].live_type, "1");
    assert_eq!(services[0].url, "127.0.0.1:3030");
    assert_eq!(services[1].id, "2");
    assert_eq!(services[1].url, "[::1]:50053");
    assert!(matches!(services_from_redis_data(&Vec::new()), Ok(v) if v.is_empty()));
}

#[test]
fn redis_values_partial_record_fails() {
    let datas = strings(&["1", "ws_server_urls", "1", "127.0.0.1:3030", "2"]);
    match services_from_redis_data(&datas) {
        Err(GrpcErrors::GetDataFromRedisFailed(m)) => {
            assert_eq!(m, "Chunk pattern mismatch,the data is not right!!");
            assert_eq!(m, CHUNK_MISMATCH);
        }
        _ => panic!("expected a chunk mismatch"),
    }
    assert!(services_from_redis_data(&strings(&["a", "b", "c"])).is_err());
}

#[test]
fn redis_keys() {
    assert_eq!(group_key_pattern("ws_server_urls"), "ws_server_urls:*");
    assert_eq!(service_key("ws_server_urls", "7"), "ws_server_urls:7");
    assert_eq!(heartbeat_url("http://127.0.0.1:3030"), "http://127.0.0.1:3030/heartbeat");
    assert_eq!(live_type_value(true), "1");
    assert_eq!(live_type_value(false), "0");
}

#[test]
fn heartbeat_updates_live_type() {
    let s = ServiceMsg {
        id: "3".to_string(),
        service_group: "ws_server_urls".to_string(),
        live_type: "0".to_string(),
        url: "127.0.0.1:3030".to_string(),
    };
    let up = heartbeat_update(&s, HeartbeatOutcome::Success).unwrap();
    assert_eq!(up.key, "ws_server_urls:3");
    assert!(up.alive);
    let down = heartbeat_update(&s, HeartbeatOutcome::RequestFailed).unwrap();
    assert_eq!(down.key, "ws_server_urls:3");
    assert!(!down.alive);
    assert!(heartbeat_update(&s, HeartbeatOutcome::OtherStatus).is_none());
}

#[test]
fn template_status() {
    let s = GrpcErrorTemplate::connect_server_failed().get_status("no route");
    assert_eq!(s.code, 1);
    assert_eq!(s.message, "Failed to connect to the server: no route");
    let s = GrpcErrorTemplate::json_parse_error().get_status("eof");
    assert_eq!(s.code, 2);
    assert_eq!(s.message, "Failed to parse JSON: eof");
    let t = GrpcErrorTemplate { code: 14, message_template: "down" };
    assert_eq!(t.get_status("x").code, 14);
    let t = GrpcErrorTemplate { code: -3, message_template: "odd" };
    assert_eq!(t.get_status("x").code, 2);
}

#[test]
fn error_into_status() {
    let s = GrpcErrors::GetDataFromRedisFailed("bad").into_status();
    assert_eq!(s.code, 2);
    assert_eq!(s.message, "Failed to get data from Redis: bad");
    let s = GrpcErrors::ConnectServerFailed("down").into_status();
    assert_eq!(s.code, 1);
    assert_eq!(s.message, "Failed to connect to the server: down");
    let s = GrpcErrors::TryLockError("busy".to_string()).into_status();
    assert_eq!(s.code, 2);
    assert_eq!(s.message, "Failed to try lock: busy");
    let s = GrpcErrors::StatusError("x".to_string()).into_status();
    assert_eq!(s.message, "Failed to convert tonic status error to string: x");
    assert_eq!(GrpcErrors::Io("e".to_string()).template().code, 101);
    assert_eq!(GrpcErrors::RunRedisError("e".to_string()).template().code, 104);
}

#[test]
fn error_text() {
    assert_eq!(GrpcErrors::ConnectServerFailed("x").to_string(), "连接服务器失败: x");
    assert_eq!(GrpcErrors::RedisError("down".to_string()).to_string(), "Redis错误: down");
    assert_eq!(GrpcErrors::StatusError("s".to_string()).to_string(), "Status 错误: s");
    assert_eq!(GrpcErrors::Json("j".to_string()).details(), "j");
}

#[test]
fn bootstrap_servers_split_back() {
    let list = KafkaTools::get_bootstrap_servers("10.0.0.1", vec!["1", "2"]);
    assert_eq!(my_im::text::split_text(&list, ','), vec!["10.0.0.1:1", "10.0.0.1:2"]);
}

#[test]
fn redis_records_store_back_to_values() {
    let datas = strings(&["a", "g", "1", "u", "b", "h", "0", "v"]);
    let services = match services_from_redis_data(&datas) {
        Ok(s) => s,
        Err(_) => panic!("whole records"),
    };
    let mut back: Vec<String> = Vec::new();
    for s in services {
        back.push(s.id);
        back.push(s.service_group);
        back.push(s.live_type);
        back.push(s.url);
    }
    assert_eq!(back, datas);
}

//! Constants of the push system: service addresses, redis layout, timing,
//! message kinds and kafka settings.
use vstd::prelude::*;

verus! {

/// Addresses of the service servers.
pub const SERVICE_SERVER_URLS: [&'static str; 1] = ["http://[::1]:50051"];

/// Addresses of the push servers.
pub const PUSH_SERVER_URLS: [&'static str; 1] = ["http://[::1]:50053"];

/// How many consecutive redis values make up one service record
/// (id, service group, live type, url).
pub const CHUNK_SIZE_BY_REDIS_DATA: usize = 4;

/// Where redis listens by default.
pub const DEFAULT_REDIS_URL: &'static str = "redis://127.0.0.1/";

/// Seconds a client waits between rounds of its background work.
pub const CLIENT_DEFAULT_SLEEP_TIME: u64 = 5;

/// Seconds a server waits between rounds of its background work.
pub const SERVER_DEFAULT_SLEEP_TIME: u64 = 5;

/// Seconds to wait for kafka.
pub const KAFKA_DEFAULT_WAITING_TIME: u64 = 5;

/// The live type of a service that answers its heartbeat.
pub const LIVE_TYPE_TRUE: &'static str = "1";

/// The live type of a service that does not answer its heartbeat.
pub const LIVE_TYPE_FALSE: &'static str = "0";

/// Scheme of plain http addresses.
pub const HTTP_MODE: &'static str = "http://";

/// Scheme of websocket addresses.
pub const WS_MODE: &'static str = "ws://";

/// Path of a server's heartbeat endpoint.
pub const SERVER_HEARBEAT_URL: &'static str = "/heartbeat";

/// Path of a server's websocket endpoint.
pub const SERVER_WEB_SOCKET_URL: &'static str = "/ws";

/// Position of the client uuid in a text message, once its kind is removed.
pub const CLIENT_UUID_SUBSCRIPT: usize = 0;

/// Position of the message data in a text message, once its kind is removed.
pub const MSG_DATA_SUBSCRIPT: usize = 1;

/// Position of the kafka key in a text message, once its kind is removed.
pub const KAFKA_KEY_SUBSCRIPT: usize = 2;

/// Kind of a message that carries text to be pushed.
pub const TEXT_MESSAGE: &'static str = "text";

/// Kind of a message that reports how a push went.
pub const RESULT_MESSAGE: &'static str = "result";

/// Kind of a message that only keeps a connection alive.
pub const HEARTBEAT_MESSAGE: &'static str = "heartbeat";

/// Result of a push that reached kafka.
pub const SUCCESS: &'static str = "success";

/// Result of a push that did not reach kafka.
pub const FAILED: &'static str = "failed";

/// Address of the kafka cluster.
pub const KAFKA_CLUSER_IP: &'static str = "192.168.33.144";

/// Ports of the kafka brokers.
pub const KAFKA_CLUSER_PORTS: [&'static str; 3] = ["9094", "9095", "9096"];

/// Security protocol of the kafka consumer.
pub const SECURITY_PROTOCOL: &'static str = "PLAINTEXT";

/// Consumer group of the kafka consumer.
pub const GROUP_ID: &'static str = "test-group";

/// Acknowledgements the kafka producer waits for.
pub const ACKS: &'static str = "all";

/// Where a new kafka consumer starts reading.
pub const AUTO_OFFSET_RESET: &'static str = "earliest";

/// Redis set that names the service groups.
pub const GENERAL_SERVICE_GROUP: &'static str = "service_server_urls";

/// Service group of the websocket servers.
pub const WS_SERVER_GROUP: &'static str = "ws_server_urls";

/// Service group of the push servers.
pub const PUSH_SERVER_GROUP: &'static str = "push_server_urls";

/// Kafka topic that the websocket servers push text messages to.
pub const TEXT_TOPIC: &'static str = "text2";

} // verus!

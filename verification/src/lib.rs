pub mod client;
pub mod client_msg;
pub mod const_file;
pub mod data;
pub mod grpc_errors;
pub mod protocol;
pub mod text;
pub mod ws_server;
pub mod redis_pool;
pub mod kafka;
pub mod push_server;
pub mod client_push_msg;

//! The errors of the servers, and the gRPC status that each one is
//! answered with.
use vstd::prelude::*;

verus! {

/// An error of a server. The errors raised by outside libraries are kept
/// as the text that they display.
pub enum GrpcErrors {
    ConnectServerFailed(&'static str),
    GetDataFromRedisFailed(&'static str),
    Io(String),
    Json(String),
    ParseInt(String),
    RedisError(String),
    RunRedisError(String),
    TryLockError(String),
    ReqwestError(String),
    ReqwestToStrError(String),
    DynError(String),
    TonicTransportError(String),
    StatusError(String),
}

/// A gRPC status: its code, as the number of a gRPC code, and its message.
pub struct GrpcStatus {
    pub code: i32,
    pub message: String,
}

/// The code and the start of the message of the status that answers one
/// kind of error.
pub struct GrpcErrorTemplate {
    pub code: i32,
    pub message_template: &'static str,
}

/// The gRPC code that a number stands for, as `tonic::Code::from_i32`
/// reads it: a known code (0 to 16) is itself, any other number is
/// `Unknown` (2).
pub open spec fn grpc_code_of(code: int) -> int {
    if 0 <= code <= 16 {
        code
    } else {
        2
    }
}

/// `tonic::Code::from_i32`, read back as the code's number: the numbers
/// 0 to 16 name the codes of the same number, every other number names
/// `Code::Unknown` (2).
#[verifier::external_body]
fn grpc_code_number(code: i32) -> (n: i32)
    ensures
        n == grpc_code_of(code as int),
{
    tonic::Code::from_i32(code) as i32
}

/// The message of a status made from a template and the details of an
/// error: the template, `: `, the details.
pub open spec fn status_message_of(template: Seq<char>, details: Seq<char>) -> Seq<char> {
    template + seq![':', ' '] + details
}

impl GrpcErrorTemplate {
    /// The status that answers an error with these details.
    pub fn get_status(&self, details: &str) -> (s: GrpcStatus)
        ensures
            s.code == grpc_code_of(self.code as int),
            s.message@ == status_message_of(self.message_template@, details@),
            0 <= self.code <= 16 ==> s.code == self.code,
            !(0 <= self.code <= 16) ==> s.code == 2,
            s.message@ == self.message_template@ + seq![':', ' '] + details@,
    {
        let mut message = self.message_template.to_string();
        message.append(": ");
        message.append(details);
        proof {
            reveal_strlit(": ");
        }
        assert(message@ =~= status_message_of(self.message_template@, details@));
        GrpcStatus { code: grpc_code_number(self.code), message }
    }

    pub fn connect_server_failed() -> (t: Self)
        ensures
            t.code == 1,
            t.message_template == "Failed to connect to the server",
    {
        GrpcErrorTemplate { code: 1, message_template: "Failed to connect to the server" }
    }

    pub fn get_data_from_redis_failed() -> (t: Self)
        ensures
            t.code == 2,
            t.message_template == "Failed to get data from Redis",
    {
        GrpcErrorTemplate { code: 2, message_template: "Failed to get data from Redis" }
    }

    pub fn json_parse_error() -> (t: Self)
        ensures
            t.code == 100,
            t.message_template == "Failed to parse JSON",
    {
        GrpcErrorTemplate { code: 100, message_template: "Failed to parse JSON" }
    }

    pub fn io_read_error() -> (t: Self)
        ensures
            t.code == 101,
            t.message_template == "Failed to read from IO",
    {
        GrpcErrorTemplate { code: 101, message_template: "Failed to read from IO" }
    }

    pub fn parse_int_error() -> (t: Self)
        ensures
            t.code == 102,
            t.message_template == "Failed to parse integer",
    {
        GrpcErrorTemplate { code: 102, message_template: "Failed to parse integer" }
    }

    pub fn redis_error() -> (t: Self)
        ensures
            t.code == 103,
            t.message_template == "Failed to connect redis and handle",
    {
        GrpcErrorTemplate { code: 103, message_template: "Failed to connect redis and handle" }
    }

    pub fn run_redis_error() -> (t: Self)
        ensures
            t.code == 104,
            t.message_template == "Failed to run redis command",
    {
        GrpcErrorTemplate { code: 104, message_template: "Failed to run redis command" }
    }

    pub fn try_lock_error() -> (t: Self)
        ensures
            t.code == 105,
            t.message_template == "Failed to try lock",
    {
        GrpcErrorTemplate { code: 105, message_template: "Failed to try lock" }
    }

    pub fn reqwest_error() -> (t: Self)
        ensures
            t.code == 106,
            t.message_template == "Failed to send request to reqwest",
    {
        GrpcErrorTemplate { code: 106, message_template: "Failed to send request to reqwest" }
    }

    pub fn reqwest_to_str_error() -> (t: Self)
        ensures
            t.code == 107,
            t.message_template == "Failed to convert reqwest response to string",
    {
        GrpcErrorTemplate {
            code: 107,
            message_template: "Failed to convert reqwest response to string",
        }
    }

    pub fn dyn_error() -> (t: Self)
        ensures
            t.code == 108,
            t.message_template == "Failed to convert dyn error to string",
    {
        GrpcErrorTemplate { code: 108, message_template: "Failed to convert dyn error to string" }
    }

    pub fn tonic_transport_error() -> (t: Self)
        ensures
            t.code == 109,
            t.message_template == "Failed to convert tonic transport error to string",
    {
        GrpcErrorTemplate {
            code: 109,
            message_template: "Failed to convert tonic transport error to string",
        }
    }

    pub fn status_error() -> (t: Self)
        ensures
            t.code == 110,
            t.message_template == "Failed to convert tonic status error to string",
    {
        GrpcErrorTemplate {
            code: 110,
            message_template: "Failed to convert tonic status error to string",
        }
    }
}

/// The template of the status that answers an error.
pub open spec fn template_for(e: GrpcErrors) -> GrpcErrorTemplate {
    match e {
        GrpcErrors::ConnectServerFailed(_) => GrpcErrorTemplate { code: 1, message_template: "Failed to connect to the server" },
        GrpcErrors::GetDataFromRedisFailed(_) => GrpcErrorTemplate { code: 2, message_template: "Failed to get data from Redis" },
        GrpcErrors::Io(_) => GrpcErrorTemplate { code: 101, message_template: "Failed to read from IO" },
        GrpcErrors::Json(_) => GrpcErrorTemplate { code: 100, message_template: "Failed to parse JSON" },
        GrpcErrors::ParseInt(_) => GrpcErrorTemplate { code: 102, message_template: "Failed to parse integer" },
        GrpcErrors::RedisError(_) => GrpcErrorTemplate { code: 103, message_template: "Failed to connect redis and handle" },
        GrpcErrors::RunRedisError(_) => GrpcErrorTemplate { code: 104, message_template: "Failed to run redis command" },
        GrpcErrors::TryLockError(_) => GrpcErrorTemplate { code: 105, message_template: "Failed to try lock" },
        GrpcErrors::ReqwestError(_) => GrpcErrorTemplate { code: 106, message_template: "Failed to send request to reqwest" },
        GrpcErrors::ReqwestToStrError(_) => GrpcErrorTemplate { code: 107, message_template: "Failed to convert reqwest response to string" },
        GrpcErrors::DynError(_) => GrpcErrorTemplate { code: 108, message_template: "Failed to convert dyn error to string" },
        GrpcErrors::TonicTransportError(_) => GrpcErrorTemplate { code: 109, message_template: "Failed to convert tonic transport error to string" },
        GrpcErrors::StatusError(_) => GrpcErrorTemplate { code: 110, message_template: "Failed to convert tonic status error to string" },
    }
}

/// The details that an error carries.
pub open spec fn details_of(e: GrpcErrors) -> Seq<char> {
    match e {
        GrpcErrors::ConnectServerFailed(m) => m@,
        GrpcErrors::GetDataFromRedisFailed(m) => m@,
        GrpcErrors::Io(m) => m@,
        GrpcErrors::Json(m) => m@,
        GrpcErrors::ParseInt(m) => m@,
        GrpcErrors::RedisError(m) => m@,
        GrpcErrors::RunRedisError(m) => m@,
        GrpcErrors::TryLockError(m) => m@,
        GrpcErrors::ReqwestError(m) => m@,
        GrpcErrors::ReqwestToStrError(m) => m@,
        GrpcErrors::DynError(m) => m@,
        GrpcErrors::TonicTransportError(m) => m@,
        GrpcErrors::StatusError(m) => m@,
    }
}

/// The words that the text of an error starts with, before its details.
pub open spec fn display_prefix_of(e: GrpcErrors) -> &'static str {
    match e {
        GrpcErrors::ConnectServerFailed(_) => "连接服务器失败: ",
        GrpcErrors::GetDataFromRedisFailed(_) => "从Redis获取数据失败: ",
        GrpcErrors::Io(_) => "IO错误: ",
        GrpcErrors::Json(_) => "JSON解析错误: ",
        GrpcErrors::ParseInt(_) => "解析整数错误: ",
        GrpcErrors::RedisError(_) => "Redis错误: ",
        GrpcErrors::RunRedisError(_) => "运行Redis错误: ",
        GrpcErrors::TryLockError(_) => "尝试锁定错误: ",
        GrpcErrors::ReqwestError(_) => "Reqwest错误: ",
        GrpcErrors::ReqwestToStrError(_) => "Reqwest ToStr 错误: ",
        GrpcErrors::DynError(_) => "动态错误: ",
        GrpcErrors::TonicTransportError(_) => "Tonic Transport 错误: ",
        GrpcErrors::StatusError(_) => "Status 错误: ",
    }
}

/// Every error is answered with gRPC code `Unknown` (2), but for a failed
/// connection, which is answered with `Cancelled` (1): the templates'
/// own numbers from 100 up are no gRPC codes.
pub proof fn lemma_status_code(e: GrpcErrors)
    ensures
        grpc_code_of(template_for(e).code as int) == if e is ConnectServerFailed {
            1int
        } else {
            2int
        },
{
}

impl GrpcErrors {
    /// The details that the error carries.
    pub fn details(&self) -> (d: &str)
        ensures
            d@ == details_of(*self),
    {
        match self {
            GrpcErrors::ConnectServerFailed(m) => m,
            GrpcErrors::GetDataFromRedisFailed(m) => m,
            GrpcErrors::Io(m) => m.as_str(),
            GrpcErrors::Json(m) => m.as_str(),
            GrpcErrors::ParseInt(m) => m.as_str(),
            GrpcErrors::RedisError(m) => m.as_str(),
            GrpcErrors::RunRedisError(m) => m.as_str(),
            GrpcErrors::TryLockError(m) => m.as_str(),
            GrpcErrors::ReqwestError(m) => m.as_str(),
            GrpcErrors::ReqwestToStrError(m) => m.as_str(),
            GrpcErrors::DynError(m) => m.as_str(),
            GrpcErrors::TonicTransportError(m) => m.as_str(),
            GrpcErrors::StatusError(m) => m.as_str(),
        }
    }

    /// The template of the status that answers the error.
    pub fn template(&self) -> (t: GrpcErrorTemplate)
        ensures
            t == template_for(*self),
    {
        match self {
            GrpcErrors::ConnectServerFailed(_) => GrpcErrorTemplate::connect_server_failed(),
            GrpcErrors::GetDataFromRedisFailed(_) => GrpcErrorTemplate::get_data_from_redis_failed(),
            GrpcErrors::Io(_) => GrpcErrorTemplate::io_read_error(),
            GrpcErrors::Json(_) => GrpcErrorTemplate::json_parse_error(),
            GrpcErrors::ParseInt(_) => GrpcErrorTemplate::parse_int_error(),
            GrpcErrors::RedisError(_) => GrpcErrorTemplate::redis_error(),
            GrpcErrors::RunRedisError(_) => GrpcErrorTemplate::run_redis_error(),
            GrpcErrors::TryLockError(_) => GrpcErrorTemplate::try_lock_error(),
            GrpcErrors::ReqwestError(_) => GrpcErrorTemplate::reqwest_error(),
            GrpcErrors::ReqwestToStrError(_) => GrpcErrorTemplate::reqwest_to_str_error(),
            GrpcErrors::DynError(_) => GrpcErrorTemplate::dyn_error(),
            GrpcErrors::TonicTransportError(_) => GrpcErrorTemplate::tonic_transport_error(),
            GrpcErrors::StatusError(_) => GrpcErrorTemplate::status_error(),
        }
    }

    /// The gRPC status that answers the error: the code of its template
    /// and a message made of the template and the error's details.
    pub fn into_status(self) -> (s: GrpcStatus)
        ensures
            s.code == grpc_code_of(template_for(self).code as int),
            s.message@ == status_message_of(template_for(self).message_template@, details_of(self)),
            s.code == if self is ConnectServerFailed {
                1i32
            } else {
                2i32
            },
            s.message@.subrange(
                s.message@.len() - details_of(self).len(),
                s.message@.len() as int,
            ) == details_of(self),
    {
        proof {
            lemma_status_code(self);
            let m = status_message_of(template_for(self).message_template@, details_of(self));
            assert(m.subrange(m.len() - details_of(self).len(), m.len() as int) =~= details_of(self));
        }
        self.template().get_status(self.details())
    }

    /// The text of the error: words that name its kind, then its details.
    pub fn to_string(&self) -> (s: String)
        ensures
            s@ == display_prefix_of(*self)@ + details_of(*self),
    {
        let prefix: &'static str = match self {
            GrpcErrors::ConnectServerFailed(_) => "连接服务器失败: ",
            GrpcErrors::GetDataFromRedisFailed(_) => "从Redis获取数据失败: ",
            GrpcErrors::Io(_) => "IO错误: ",
            GrpcErrors::Json(_) => "JSON解析错误: ",
            GrpcErrors::ParseInt(_) => "解析整数错误: ",
            GrpcErrors::RedisError(_) => "Redis错误: ",
            GrpcErrors::RunRedisError(_) => "运行Redis错误: ",
            GrpcErrors::TryLockError(_) => "尝试锁定错误: ",
            GrpcErrors::ReqwestError(_) => "Reqwest错误: ",
            GrpcErrors::ReqwestToStrError(_) => "Reqwest ToStr 错误: ",
            GrpcErrors::DynError(_) => "动态错误: ",
            GrpcErrors::TonicTransportError(_) => "Tonic Transport 错误: ",
            GrpcErrors::StatusError(_) => "Status 错误: ",
        };
        let mut s = prefix.to_string();
        s.append(self.details());
        s
    }
}

} // verus!

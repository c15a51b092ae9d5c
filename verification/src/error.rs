//! The endpoints of the service and the errors that end a call.

use crate::headers::{HeaderError, HeaderSet};
use crate::text::{decimal, decimal_text, join};
use vstd::prelude::*;
use vstd::string::*;

verus! {

/// The entry that a call was made through. The two entries of the assistant
/// endpoint behave alike and differ in the label of their messages.
#[derive(Clone, Copy, Debug, PartialEq, Eq, Structural)]
pub enum Endpoint {
    /// The assistant endpoint, the answer read as a whole.
    Api,
    /// The assistant endpoint, the answer read as a stream.
    ApiStream,
    /// The MCP endpoint.
    Mcp,
}

impl Endpoint {
    /// The header set that requests to this endpoint carry.
    pub open spec fn header_set_of(self) -> HeaderSet {
        match self {
            Endpoint::Api => HeaderSet::Primary,
            Endpoint::ApiStream => HeaderSet::Primary,
            Endpoint::Mcp => HeaderSet::Mcp,
        }
    }

    /// The label of this endpoint in messages.
    pub open spec fn label_of(self) -> Seq<char> {
        match self {
            Endpoint::Api => "非流式 API"@,
            Endpoint::ApiStream => "流式 API"@,
            Endpoint::Mcp => "MCP"@,
        }
    }

    /// Gives the header set that requests to this endpoint carry.
    pub fn header_set(self) -> (set: HeaderSet)
        ensures
            set == self.header_set_of(),
    {
        match self {
            Endpoint::Api => HeaderSet::Primary,
            Endpoint::ApiStream => HeaderSet::Primary,
            Endpoint::Mcp => HeaderSet::Mcp,
        }
    }

    /// Gives the label of this endpoint in messages.
    pub fn label(self) -> (label: &'static str)
        ensures
            label@ == self.label_of(),
    {
        match self {
            Endpoint::Api => "非流式 API",
            Endpoint::ApiStream => "流式 API",
            Endpoint::Mcp => "MCP",
        }
    }
}

/// Why a call ended without a response.
#[derive(Debug)]
pub enum DispatchError {
    /// No usable lease could be had for the last attempt.
    AcquireFailure { message: String },
    /// No headers could be built for the lease of the last attempt.
    HeaderBuildFailure { cause: HeaderError },
    /// The transport failed on the last attempt before a status arrived.
    NetworkFailure { message: String },
    /// The service refused the request itself, with status 400 or another
    /// status from 400 to 499 that blames no credential.
    RequestRejected { endpoint: Endpoint, status: u16, body: String },
    /// The service refused the credential of the last attempt while others
    /// were still usable.
    CredentialRejected { endpoint: Endpoint, status: u16, body: String },
    /// The service refused the credential of the last attempt, and no usable
    /// credential is left.
    AllCredentialsExhausted { endpoint: Endpoint, status: u16, body: String },
    /// The last attempt met a transient answer of the service.
    UpstreamUnavailable { endpoint: Endpoint, status: u16, body: String },
    /// The attempts ended without any recorded cause.
    RetriesExceeded { endpoint: Endpoint, max_retries: usize },
}

/// A `DispatchError` as plain values.
pub enum DispatchErrorView {
    AcquireFailure { message: Seq<char> },
    HeaderBuildFailure { cause: HeaderError },
    NetworkFailure { message: Seq<char> },
    RequestRejected { endpoint: Endpoint, status: u16, body: Seq<char> },
    CredentialRejected { endpoint: Endpoint, status: u16, body: Seq<char> },
    AllCredentialsExhausted { endpoint: Endpoint, status: u16, body: Seq<char> },
    UpstreamUnavailable { endpoint: Endpoint, status: u16, body: Seq<char> },
    RetriesExceeded { endpoint: Endpoint, max_retries: nat },
}

/// The message of a request that the service answered with an error.
pub open spec fn failure_text(endpoint: Endpoint, status: u16, body: Seq<char>) -> Seq<char> {
    endpoint.label_of() + " 请求失败: "@ + decimal(status as nat) + " "@ + body
}

/// The message of a request whose answer left no usable credential.
pub open spec fn exhausted_text(endpoint: Endpoint, status: u16, body: Seq<char>) -> Seq<char> {
    endpoint.label_of() + " 请求失败（所有凭据已用尽）: "@ + decimal(status as nat) + " "@ + body
}

/// The message of a call that ran out of attempts without a cause.
pub open spec fn retries_text(endpoint: Endpoint, max_retries: nat) -> Seq<char> {
    endpoint.label_of() + " 请求失败：已达到最大重试次数（"@ + decimal(max_retries) + "次）"@
}

/// The message of a lease for which no headers could be built.
pub open spec fn header_failure_text(cause: HeaderError) -> Seq<char> {
    match cause {
        HeaderError::MachineIdUnavailable => "无法生成 machine_id，请检查凭证配置"@,
        HeaderError::InvalidValue => "请求头的值含有非法字符，请检查配置与凭证"@,
    }
}

impl DispatchErrorView {
    /// The message of the error.
    pub open spec fn message_of(self) -> Seq<char> {
        match self {
            DispatchErrorView::AcquireFailure { message } => message,
            DispatchErrorView::HeaderBuildFailure { cause } => header_failure_text(cause),
            DispatchErrorView::NetworkFailure { message } => message,
            DispatchErrorView::RequestRejected { endpoint, status, body } => failure_text(
                endpoint,
                status,
                body,
            ),
            DispatchErrorView::CredentialRejected { endpoint, status, body } => failure_text(
                endpoint,
                status,
                body,
            ),
            DispatchErrorView::AllCredentialsExhausted { endpoint, status, body } => exhausted_text(
                endpoint,
                status,
                body,
            ),
            DispatchErrorView::UpstreamUnavailable { endpoint, status, body } => failure_text(
                endpoint,
                status,
                body,
            ),
            DispatchErrorView::RetriesExceeded { endpoint, max_retries } => retries_text(
                endpoint,
                max_retries,
            ),
        }
    }
}

impl View for DispatchError {
    type V = DispatchErrorView;

    open spec fn view(&self) -> DispatchErrorView {
        match self {
            DispatchError::AcquireFailure { message } => DispatchErrorView::AcquireFailure {
                message: message@,
            },
            DispatchError::HeaderBuildFailure { cause } => DispatchErrorView::HeaderBuildFailure {
                cause: *cause,
            },
            DispatchError::NetworkFailure { message } => DispatchErrorView::NetworkFailure {
                message: message@,
            },
            DispatchError::RequestRejected { endpoint, status, body } => {
                DispatchErrorView::RequestRejected {
                    endpoint: *endpoint,
                    status: *status,
                    body: body@,
                }
            },
            DispatchError::CredentialRejected { endpoint, status, body } => {
                DispatchErrorView::CredentialRejected {
                    endpoint: *endpoint,
                    status: *status,
                    body: body@,
                }
            },
            DispatchError::AllCredentialsExhausted { endpoint, status, body } => {
                DispatchErrorView::AllCredentialsExhausted {
                    endpoint: *endpoint,
                    status: *status,
                    body: body@,
                }
            },
            DispatchError::UpstreamUnavailable { endpoint, status, body } => {
                DispatchErrorView::UpstreamUnavailable {
                    endpoint: *endpoint,
                    status: *status,
                    body: body@,
                }
            },
            DispatchError::RetriesExceeded { endpoint, max_retries } => {
                DispatchErrorView::RetriesExceeded {
                    endpoint: *endpoint,
                    max_retries: *max_retries as nat,
                }
            },
        }
    }
}

/// Writes the message of a request that the service answered with an error,
/// with `note` between the label and the status.
fn answer_text(endpoint: Endpoint, note: &str, status: u16, body: &str) -> (message: String)
    ensures
        message@ == endpoint.label_of() + note@ + decimal(status as nat) + " "@ + body@,
{
    let head = join(String::from_str(endpoint.label()), note);
    let numeral = decimal_text(status as u64);
    join(join(join(head, numeral.as_str()), " "), body)
}

impl DispatchError {
    /// A second error with the same content.
    pub fn duplicate(&self) -> (twin: DispatchError)
        ensures
            twin@ == self@,
    {
        match self {
            DispatchError::AcquireFailure { message } => DispatchError::AcquireFailure {
                message: message.clone(),
            },
            DispatchError::HeaderBuildFailure { cause } => DispatchError::HeaderBuildFailure {
                cause: *cause,
            },
            DispatchError::NetworkFailure { message } => DispatchError::NetworkFailure {
                message: message.clone(),
            },
            DispatchError::RequestRejected { endpoint, status, body } => {
                DispatchError::RequestRejected {
                    endpoint: *endpoint,
                    status: *status,
                    body: body.clone(),
                }
            },
            DispatchError::CredentialRejected { endpoint, status, body } => {
                DispatchError::CredentialRejected {
                    endpoint: *endpoint,
                    status: *status,
                    body: body.clone(),
                }
            },
            DispatchError::AllCredentialsExhausted { endpoint, status, body } => {
                DispatchError::AllCredentialsExhausted {
                    endpoint: *endpoint,
                    status: *status,
                    body: body.clone(),
                }
            },
            DispatchError::UpstreamUnavailable { endpoint, status, body } => {
                DispatchError::UpstreamUnavailable {
                    endpoint: *endpoint,
                    status: *status,
                    body: body.clone(),
                }
            },
            DispatchError::RetriesExceeded { endpoint, max_retries } => {
                DispatchError::RetriesExceeded { endpoint: *endpoint, max_retries: *max_retries }
            },
        }
    }

    /// Writes the message of the error.
    pub fn message(&self) -> (message: String)
        ensures
            message@ == self@.message_of(),
    {
        match self {
            DispatchError::AcquireFailure { message } => message.clone(),
            DispatchError::HeaderBuildFailure { cause } => match cause {
                HeaderError::MachineIdUnavailable => String::from_str(
                    "无法生成 machine_id，请检查凭证配置",
                ),
                HeaderError::InvalidValue => String::from_str(
                    "请求头的值含有非法字符，请检查配置与凭证",
                ),
            },
            DispatchError::NetworkFailure { message } => message.clone(),
            DispatchError::RequestRejected { endpoint, status, body } => answer_text(
                *endpoint,
                " 请求失败: ",
                *status,
                body.as_str(),
            ),
            DispatchError::CredentialRejected { endpoint, status, body } => answer_text(
                *endpoint,
                " 请求失败: ",
                *status,
                body.as_str(),
            ),
            DispatchError::AllCredentialsExhausted { endpoint, status, body } => answer_text(
                *endpoint,
                " 请求失败（所有凭据已用尽）: ",
                *status,
                body.as_str(),
            ),
            DispatchError::UpstreamUnavailable { endpoint, status, body } => answer_text(
                *endpoint,
                " 请求失败: ",
                *status,
                body.as_str(),
            ),
            DispatchError::RetriesExceeded { endpoint, max_retries } => {
                let head = join(
                    String::from_str(endpoint.label()),
                    " 请求失败：已达到最大重试次数（",
                );
                let numeral = decimal_text(*max_retries as u64);
                join(join(head, numeral.as_str()), "次）")
            },
        }
    }
}

} // verus!

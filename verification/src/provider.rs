//! The provider: one configuration, and the calls that are made under it.

use crate::config::{CallContext, Config, ConfigView, base_domain_of, base_url_of, enclose, mcp_url_of};
use crate::classify::is_monthly_quota_text;
use crate::dispatch::{Action, Dispatch, start_of};
use crate::error::Endpoint;
use crate::headers::{HeaderError, HeaderSet, header_error_of, is_built};
use crate::retry::is_retry_delay;
use reqwest::header::HeaderMap;
use vstd::prelude::*;

verus! {

/// The entry to the Kiro API under one configuration.
pub struct KiroProvider {
    config: Config,
}

impl View for KiroProvider {
    type V = ConfigView;

    closed spec fn view(&self) -> ConfigView {
        self.config@
    }
}

impl KiroProvider {
    /// A provider that works under `config`.
    pub fn new(config: Config) -> (provider: KiroProvider)
        ensures
            provider@ == config@,
    {
        KiroProvider { config }
    }

    /// The configuration of the provider.
    pub fn config(&self) -> (config: &Config)
        ensures
            config@ == self@,
    {
        &self.config
    }

    /// Writes the address of the assistant endpoint.
    pub fn base_url(&self) -> (url: String)
        ensures
            url@ == base_url_of(self@.region),
    {
        enclose(
            "https://q.",
            self.config.region.as_str(),
            ".amazonaws.com/generateAssistantResponse",
        )
    }

    /// Writes the address of the MCP endpoint.
    pub fn mcp_url(&self) -> (url: String)
        ensures
            url@ == mcp_url_of(self@.region),
    {
        enclose("https://q.", self.config.region.as_str(), ".amazonaws.com/mcp")
    }

    /// Writes the host name of the service.
    pub fn base_domain(&self) -> (domain: String)
        ensures
            domain@ == base_domain_of(self@.region),
    {
        crate::headers::base_domain(self.config.region.as_str())
    }

    /// Builds the headers of a request to the assistant endpoint for the
    /// lease `context`, under a fresh random identifier of the request.
    pub fn build_headers(&self, context: &CallContext) -> (result: Result<HeaderMap, HeaderError>)
        ensures
            is_built(HeaderSet::Primary, self@, context@, result),
            match result {
                Ok(_) => header_error_of(self@, context@) is None,
                Err(cause) => header_error_of(self@, context@) == Some(cause),
            },
    {
        crate::headers::build(&self.config, context, HeaderSet::Primary)
    }

    /// Builds the headers of a request to the MCP endpoint for the lease
    /// `context`, under a fresh random identifier of the request.
    pub fn build_mcp_headers(&self, context: &CallContext) -> (result: Result<
        HeaderMap,
        HeaderError,
    >)
        ensures
            is_built(HeaderSet::Mcp, self@, context@, result),
            match result {
                Ok(_) => header_error_of(self@, context@) is None,
                Err(cause) => header_error_of(self@, context@) == Some(cause),
            },
    {
        crate::headers::build(&self.config, context, HeaderSet::Mcp)
    }

    /// Chooses the pause, in milliseconds, before the retry that follows
    /// attempt `attempt`.
    pub fn retry_delay(attempt: usize) -> (millis: u64)
        ensures
            is_retry_delay(attempt as nat, millis as nat),
            200 <= millis <= 2500,
    {
        crate::retry::retry_delay(attempt)
    }

    /// Tells whether the body of an answer says that the monthly quota of
    /// the credential is spent.
    pub fn is_monthly_request_limit(body: &str) -> (monthly: bool)
        ensures
            monthly == is_monthly_quota_text(body@),
    {
        crate::classify::is_monthly_request_limit(body)
    }

    /// Begins a call to the assistant endpoint over a pool of
    /// `total_credentials`, the answer to be read as a whole.
    pub fn call_api(&self, total_credentials: usize) -> (begun: (Dispatch, Action))
        ensures
            (begun.0@, begun.1@) == start_of(self@, Endpoint::Api, total_credentials as nat),
            begun.0@.well_formed(),
    {
        Dispatch::start(self.config.duplicate(), Endpoint::Api, total_credentials)
    }

    /// Begins a call to the assistant endpoint over a pool of
    /// `total_credentials`, the answer to be read as a stream.
    pub fn call_api_stream(&self, total_credentials: usize) -> (begun: (Dispatch, Action))
        ensures
            (begun.0@, begun.1@) == start_of(
                self@,
                Endpoint::ApiStream,
                total_credentials as nat,
            ),
            begun.0@.well_formed(),
    {
        Dispatch::start(self.config.duplicate(), Endpoint::ApiStream, total_credentials)
    }

    /// Begins a call to the MCP endpoint over a pool of
    /// `total_credentials`.
    pub fn call_mcp(&self, total_credentials: usize) -> (begun: (Dispatch, Action))
        ensures
            (begun.0@, begun.1@) == start_of(self@, Endpoint::Mcp, total_credentials as nat),
            begun.0@.well_formed(),
    {
        Dispatch::start(self.config.duplicate(), Endpoint::Mcp, total_credentials)
    }
}

} // verus!

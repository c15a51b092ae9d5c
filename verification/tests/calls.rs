use kiro_provider::config::{CallContext, Config};
use kiro_provider::dispatch::{Action, Dispatch, Event};
use kiro_provider::error::{DispatchError, Endpoint};
use kiro_provider::headers::HeaderError;
use kiro_provider::provider::KiroProvider;
use kiro_provider::retry::{backoff, max_jitter};

/// What the service does with one request.
#[derive(Clone, Copy)]
enum Reply {
    Status(u16, &'static str),
    Broken(&'static str),
}

/// A pool of credentials that disables a credential on its first failure.
struct Pool {
    usable: Vec<bool>,
    keep_after_failure: bool,
    without_machine_id: bool,
    broken_token: bool,
    reports: Vec<String>,
}

impl Pool {
    fn of(total: usize) -> Pool {
        Pool {
            usable: vec![true; total],
            keep_after_failure: false,
            without_machine_id: false,
            broken_token: false,
            reports: Vec::new(),
        }
    }

    fn total_count(&self) -> usize {
        self.usable.len()
    }

    fn has_available(&self) -> bool {
        self.usable.iter().any(|usable| *usable)
    }

    fn acquire_context(&self) -> Result<CallContext, String> {
        match self.usable.iter().position(|usable| *usable) {
            Some(id) => Ok(CallContext {
                id: id as u64,
                machine_id: if self.without_machine_id {
                    None
                } else {
                    Some(format!("machine-{}", id))
                },
                token: if self.broken_token {
                    format!("token\n{}", id)
                } else {
                    format!("token-{}", id)
                },
            }),
            None => Err("no usable credential".to_string()),
        }
    }

    fn report_success(&mut self, id: u64) {
        self.reports.push(format!("success({})", id));
    }

    fn report_failure(&mut self, id: u64) -> bool {
        self.reports.push(format!("failure({})", id));
        if !self.keep_after_failure {
            self.usable[id as usize] = false;
        }
        self.has_available()
    }

    fn report_quota_exhausted(&mut self, id: u64) -> bool {
        self.reports.push(format!("quota({})", id));
        self.usable[id as usize] = false;
        self.has_available()
    }
}

/// What was seen of one call.
struct Seen {
    sent_on: Vec<u64>,
    urls: Vec<String>,
    tokens: Vec<String>,
    sleeps: Vec<u64>,
    slept_after_attempt: Vec<usize>,
    leases_asked: usize,
    bodies_read: usize,
    log: Vec<&'static str>,
    result: Result<u64, DispatchError>,
}

fn sample_provider() -> KiroProvider {
    KiroProvider::new(Config {
        region: "us-east-1".to_string(),
        kiro_version: "0.8.0".to_string(),
        system_version: "linux#6.1".to_string(),
        node_version: "22.21.1".to_string(),
    })
}

/// Carries a call to its end against `pool` and a service that answers the
/// requests with `replies` in turn, the last of them again and again.
fn carry(begun: (Dispatch, Action), pool: &mut Pool, replies: &[Reply]) -> Seen {
    let (mut dispatch, mut action) = begun;
    let mut seen = Seen {
        sent_on: Vec::new(),
        urls: Vec::new(),
        tokens: Vec::new(),
        sleeps: Vec::new(),
        slept_after_attempt: Vec::new(),
        leases_asked: 0,
        bodies_read: 0,
        log: Vec::new(),
        result: Ok(u64::MAX),
    };
    let mut unread = "";
    loop {
        let event = match action {
            Action::Acquire => {
                seen.leases_asked += 1;
                seen.log.push("acquire");
                match pool.acquire_context() {
                    Ok(context) => Event::Acquired { context },
                    Err(message) => Event::AcquireFailed { message },
                }
            }
            Action::Send { credential, url, headers } => {
                seen.log.push("send");
                let reply = replies[seen.sent_on.len().min(replies.len() - 1)];
                seen.sent_on.push(credential);
                seen.urls.push(url);
                seen.tokens
                    .push(headers.get("authorization").unwrap().to_str().unwrap().to_string());
                match reply {
                    Reply::Status(status, body) => {
                        unread = body;
                        Event::Responded { status }
                    }
                    Reply::Broken(message) => Event::SendFailed { message: message.to_string() },
                }
            }
            Action::ReadBody => {
                seen.log.push("read");
                seen.bodies_read += 1;
                Event::BodyRead { body: unread.to_string() }
            }
            Action::Succeed { credential } => {
                seen.log.push("succeed");
                pool.report_success(credential);
                seen.result = Ok(credential);
                break;
            }
            Action::ReportFailure { credential } => {
                seen.log.push("report");
                Event::Reported { has_available: pool.report_failure(credential) }
            }
            Action::ReportQuotaExhausted { credential } => {
                seen.log.push("report");
                Event::Reported { has_available: pool.report_quota_exhausted(credential) }
            }
            Action::Sleep { millis } => {
                seen.log.push("sleep");
                seen.sleeps.push(millis);
                seen.slept_after_attempt.push(dispatch.attempt());
                Event::Slept
            }
            Action::Fail { error } => {
                seen.log.push("fail");
                seen.result = Err(error);
                break;
            }
        };
        let (next, asked) = dispatch.step(event);
        dispatch = next;
        action = asked.unwrap();
    }
    assert!(dispatch.is_finished());
    seen
}

#[test]
fn happy_path_single_credential() {
    let mut pool = Pool::of(1);
    let begun = sample_provider().call_api(pool.total_count());
    let seen = carry(begun, &mut pool, &[Reply::Status(200, "the answer")]);
    assert_eq!(seen.sent_on, vec![0]);
    assert_eq!(pool.reports, vec!["success(0)"]);
    assert_eq!(seen.result.unwrap(), 0);
    // The body of the answer was left for the caller.
    assert_eq!(seen.bodies_read, 0);
    assert!(seen.sleeps.is_empty());
    assert_eq!(seen.log, vec!["acquire", "send", "succeed"]);
    assert_eq!(
        seen.urls,
        vec!["https://q.us-east-1.amazonaws.com/generateAssistantResponse"]
    );
    assert_eq!(seen.tokens, vec!["Bearer token-0"]);
}

#[test]
fn auth_failover() {
    let mut pool = Pool::of(2);
    let begun = sample_provider().call_api(pool.total_count());
    let seen = carry(begun, &mut pool, &[Reply::Status(403, "denied"), Reply::Status(200, "")]);
    assert_eq!(seen.sent_on.len(), 2);
    assert_ne!(seen.sent_on[0], seen.sent_on[1]);
    assert_eq!(pool.reports, vec!["failure(0)", "success(1)"]);
    assert!(seen.sleeps.is_empty());
    assert_eq!(seen.result.unwrap(), 1);
    assert_eq!(
        seen.log,
        vec!["acquire", "send", "read", "report", "acquire", "send", "succeed"]
    );
    assert_eq!(seen.tokens, vec!["Bearer token-0", "Bearer token-1"]);
}

#[test]
fn quota_exhaustion_to_empty() {
    let mut pool = Pool::of(1);
    let begun = sample_provider().call_api(pool.total_count());
    let seen = carry(
        begun,
        &mut pool,
        &[Reply::Status(402, "{\"reason\":\"MONTHLY_REQUEST_COUNT\"}")],
    );
    assert_eq!(seen.sent_on, vec![0]);
    assert_eq!(pool.reports, vec!["quota(0)"]);
    assert!(!pool.has_available());
    assert!(seen.sleeps.is_empty());
    let error = seen.result.unwrap_err();
    assert!(error.message().contains("所有凭据已用尽"));
    assert_eq!(
        error.message(),
        "非流式 API 请求失败（所有凭据已用尽）: 402 {\"reason\":\"MONTHLY_REQUEST_COUNT\"}"
    );
    match error {
        DispatchError::AllCredentialsExhausted { endpoint, status, body } => {
            assert_eq!(endpoint, Endpoint::Api);
            assert_eq!(status, 402);
            assert_eq!(body, "{\"reason\":\"MONTHLY_REQUEST_COUNT\"}");
        }
        other => panic!("unexpected error {:?}", other),
    }
}

#[test]
fn transient_then_success_on_same_credential() {
    let mut pool = Pool::of(1);
    let begun = sample_provider().call_api(pool.total_count());
    let seen = carry(begun, &mut pool, &[Reply::Status(503, "busy"), Reply::Status(200, "")]);
    assert_eq!(seen.sent_on, vec![0, 0]);
    assert_eq!(seen.sleeps.len(), 1);
    assert!(seen.sleeps[0] >= 200);
    assert!(seen.sleeps[0] <= 250);
    assert_eq!(pool.reports, vec!["success(0)"]);
    assert_eq!(seen.result.unwrap(), 0);
    assert_eq!(
        seen.log,
        vec!["acquire", "send", "read", "sleep", "acquire", "send", "succeed"]
    );
}

#[test]
fn terminal_bad_request() {
    let mut pool = Pool::of(3);
    let begun = sample_provider().call_api(pool.total_count());
    let seen = carry(begun, &mut pool, &[Reply::Status(400, "malformed")]);
    assert_eq!(seen.sent_on.len(), 1);
    assert!(pool.reports.is_empty());
    assert!(seen.sleeps.is_empty());
    let error = seen.result.unwrap_err();
    assert_eq!(error.message(), "非流式 API 请求失败: 400 malformed");
    assert!(matches!(error, DispatchError::RequestRejected { status: 400, .. }));
}

#[test]
fn attempt_cap() {
    let mut pool = Pool::of(5);
    let begun = sample_provider().call_api(pool.total_count());
    let seen = carry(begun, &mut pool, &[Reply::Status(503, "busy")]);
    assert_eq!(seen.sent_on.len(), 9);
    assert_eq!(seen.sleeps.len(), 8);
    assert!(pool.reports.is_empty());
    assert_eq!(pool.usable, vec![true; 5]);
    assert_eq!(seen.slept_after_attempt, vec![0, 1, 2, 3, 4, 5, 6, 7]);
    for (attempt, millis) in seen.sleeps.iter().enumerate() {
        assert!(*millis >= backoff(attempt));
        assert!(*millis <= backoff(attempt) + max_jitter(backoff(attempt)));
    }
    let error = seen.result.unwrap_err();
    assert_eq!(error.message(), "非流式 API 请求失败: 503 busy");
    assert!(matches!(error, DispatchError::UpstreamUnavailable { status: 503, .. }));
}

#[test]
fn budget_follows_the_size_of_the_pool() {
    for (total, budget) in [(1usize, 3usize), (2, 6), (3, 9), (4, 9), (100, 9)] {
        let mut pool = Pool::of(total);
        let begun = sample_provider().call_mcp(pool.total_count());
        assert_eq!(begun.0.max_retries(), budget);
        let seen = carry(begun, &mut pool, &[Reply::Status(500, "")]);
        assert_eq!(seen.sent_on.len(), budget);
        assert_eq!(seen.sleeps.len(), budget - 1);
    }
}

#[test]
fn empty_pool_ends_at_once() {
    let mut pool = Pool::of(0);
    let begun = sample_provider().call_api_stream(pool.total_count());
    assert!(begun.0.is_finished());
    assert_eq!(begun.0.max_retries(), 0);
    let seen = carry(begun, &mut pool, &[Reply::Status(200, "")]);
    assert_eq!(seen.leases_asked, 0);
    assert!(seen.sent_on.is_empty());
    let error = seen.result.unwrap_err();
    assert_eq!(error.message(), "流式 API 请求失败：已达到最大重试次数（0次）");
    assert!(matches!(
        error,
        DispatchError::RetriesExceeded { endpoint: Endpoint::ApiStream, max_retries: 0 }
    ));
}

#[test]
fn transport_error_is_retried_after_a_pause() {
    let mut pool = Pool::of(1);
    let begun = sample_provider().call_api(pool.total_count());
    let seen = carry(
        begun,
        &mut pool,
        &[Reply::Broken("connection reset"), Reply::Status(200, "")],
    );
    assert_eq!(seen.sent_on, vec![0, 0]);
    assert_eq!(seen.sleeps.len(), 1);
    assert_eq!(seen.bodies_read, 0);
    assert_eq!(pool.reports, vec!["success(0)"]);
}

#[test]
fn transport_errors_to_the_end() {
    let mut pool = Pool::of(1);
    let begun = sample_provider().call_api(pool.total_count());
    let seen = carry(begun, &mut pool, &[Reply::Broken("connection reset")]);
    assert_eq!(seen.sent_on, vec![0, 0, 0]);
    assert_eq!(seen.sleeps.len(), 2);
    assert!(pool.reports.is_empty());
    let error = seen.result.unwrap_err();
    assert_eq!(error.message(), "connection reset");
    assert!(matches!(error, DispatchError::NetworkFailure { .. }));
}

#[test]
fn other_client_error_is_terminal() {
    for status in [402u16, 404, 409, 422, 499] {
        let mut pool = Pool::of(2);
        let begun = sample_provider().call_mcp(pool.total_count());
        let seen = carry(begun, &mut pool, &[Reply::Status(status, "no")]);
        assert_eq!(seen.sent_on.len(), 1);
        assert!(pool.reports.is_empty());
        assert!(seen.sleeps.is_empty());
        let error = seen.result.unwrap_err();
        assert_eq!(error.message(), format!("MCP 请求失败: {} no", status));
        assert!(matches!(error, DispatchError::RequestRejected { .. }));
    }
}

#[test]
fn unknown_status_is_retried_like_a_transient_one() {
    let mut pool = Pool::of(1);
    let begun = sample_provider().call_api(pool.total_count());
    let seen = carry(begun, &mut pool, &[Reply::Status(302, "moved")]);
    assert_eq!(seen.sent_on.len(), 3);
    assert_eq!(seen.sleeps.len(), 2);
    assert!(pool.reports.is_empty());
    assert!(matches!(
        seen.result.unwrap_err(),
        DispatchError::UpstreamUnavailable { status: 302, .. }
    ));
}

#[test]
fn request_timeout_and_rate_limit_are_transient() {
    for status in [408u16, 429, 500, 502, 599] {
        let mut pool = Pool::of(1);
        let begun = sample_provider().call_api(pool.total_count());
        let seen = carry(begun, &mut pool, &[Reply::Status(status, ""), Reply::Status(204, "")]);
        assert_eq!(seen.sent_on, vec![0, 0]);
        assert_eq!(seen.sleeps.len(), 1);
        assert_eq!(pool.reports, vec!["success(0)"]);
    }
}

#[test]
fn quota_failover_to_the_next_credential() {
    let mut pool = Pool::of(2);
    let begun = sample_provider().call_api(pool.total_count());
    let seen = carry(
        begun,
        &mut pool,
        &[Reply::Status(402, "MONTHLY_REQUEST_COUNT"), Reply::Status(200, "")],
    );
    assert_eq!(seen.sent_on, vec![0, 1]);
    assert_eq!(pool.reports, vec!["quota(0)", "success(1)"]);
    assert!(seen.sleeps.is_empty());
}

#[test]
fn auth_failures_exhaust_the_pool() {
    let mut pool = Pool::of(3);
    let begun = sample_provider().call_mcp(pool.total_count());
    let seen = carry(begun, &mut pool, &[Reply::Status(401, "expired")]);
    assert_eq!(seen.sent_on, vec![0, 1, 2]);
    assert_eq!(pool.reports, vec!["failure(0)", "failure(1)", "failure(2)"]);
    assert!(seen.sleeps.is_empty());
    let error = seen.result.unwrap_err();
    assert_eq!(error.message(), "MCP 请求失败（所有凭据已用尽）: 401 expired");
    assert!(matches!(error, DispatchError::AllCredentialsExhausted { status: 401, .. }));
    assert_eq!(seen.urls[0], "https://q.us-east-1.amazonaws.com/mcp");
}

#[test]
fn auth_failures_with_credentials_left_spend_the_budget() {
    let mut pool = Pool::of(2);
    pool.keep_after_failure = true;
    let begun = sample_provider().call_api_stream(pool.total_count());
    let seen = carry(begun, &mut pool, &[Reply::Status(403, "denied")]);
    assert_eq!(seen.sent_on.len(), 6);
    assert_eq!(pool.reports.len(), 6);
    assert!(seen.sleeps.is_empty());
    let error = seen.result.unwrap_err();
    assert_eq!(error.message(), "流式 API 请求失败: 403 denied");
    assert!(matches!(
        error,
        DispatchError::CredentialRejected { endpoint: Endpoint::ApiStream, status: 403, .. }
    ));
}

#[test]
fn acquire_failures_spend_the_budget_without_pause() {
    let mut pool = Pool::of(2);
    pool.usable = vec![false, false];
    let begun = sample_provider().call_api(pool.total_count());
    let seen = carry(begun, &mut pool, &[Reply::Status(200, "")]);
    assert_eq!(seen.leases_asked, 6);
    assert!(seen.sent_on.is_empty());
    assert!(seen.sleeps.is_empty());
    assert!(pool.reports.is_empty());
    let error = seen.result.unwrap_err();
    assert_eq!(error.message(), "no usable credential");
    assert!(matches!(error, DispatchError::AcquireFailure { .. }));
}

#[test]
fn header_failures_spend_the_budget_without_blame() {
    let mut pool = Pool::of(1);
    pool.without_machine_id = true;
    let begun = sample_provider().call_api(pool.total_count());
    let seen = carry(begun, &mut pool, &[Reply::Status(200, "")]);
    assert_eq!(seen.leases_asked, 3);
    assert!(seen.sent_on.is_empty());
    assert!(seen.sleeps.is_empty());
    assert!(pool.reports.is_empty());
    let error = seen.result.unwrap_err();
    assert_eq!(error.message(), "无法生成 machine_id，请检查凭证配置");
    assert!(matches!(
        error,
        DispatchError::HeaderBuildFailure { cause: HeaderError::MachineIdUnavailable }
    ));
}

#[test]
fn unsendable_token_spends_the_budget_without_blame() {
    let mut pool = Pool::of(2);
    pool.broken_token = true;
    let begun = sample_provider().call_mcp(pool.total_count());
    let seen = carry(begun, &mut pool, &[Reply::Status(200, "")]);
    assert_eq!(seen.leases_asked, 6);
    assert!(seen.sent_on.is_empty());
    assert!(seen.sleeps.is_empty());
    assert!(pool.reports.is_empty());
    let error = seen.result.unwrap_err();
    assert_eq!(error.message(), "请求头的值含有非法字符，请检查配置与凭证");
    assert!(matches!(
        error,
        DispatchError::HeaderBuildFailure { cause: HeaderError::InvalidValue }
    ));
}

#[test]
fn address_of_a_call() {
    let (plain, _) = sample_provider().call_api(1);
    assert_eq!(plain.url(), "https://q.us-east-1.amazonaws.com/generateAssistantResponse");
    let (stream, _) = sample_provider().call_api_stream(1);
    assert_eq!(stream.url(), "https://q.us-east-1.amazonaws.com/generateAssistantResponse");
    let (mcp, _) = sample_provider().call_mcp(1);
    assert_eq!(mcp.url(), "https://q.us-east-1.amazonaws.com/mcp");
    let (direct, first) = Dispatch::start(
        Config {
            region: "ap-south-1".to_string(),
            kiro_version: String::new(),
            system_version: String::new(),
            node_version: String::new(),
        },
        Endpoint::Mcp,
        4,
    );
    assert!(matches!(first, Action::Acquire));
    assert_eq!(direct.url(), "https://q.ap-south-1.amazonaws.com/mcp");
    assert_eq!(direct.max_retries(), 9);
    assert_eq!(direct.attempt(), 0);
    assert_eq!(direct.endpoint(), Endpoint::Mcp);
}

#[test]
fn last_error_wins() {
    let mut pool = Pool::of(1);
    let begun = sample_provider().call_api(pool.total_count());
    let seen = carry(
        begun,
        &mut pool,
        &[Reply::Status(503, "first"), Reply::Broken("second"), Reply::Status(429, "third")],
    );
    assert_eq!(seen.sent_on.len(), 3);
    assert_eq!(seen.result.unwrap_err().message(), "非流式 API 请求失败: 429 third");
}

#[test]
fn stream_and_plain_calls_decide_alike() {
    let replies = [Reply::Status(403, "a"), Reply::Status(500, "b"), Reply::Status(404, "c")];
    let mut plain_pool = Pool::of(2);
    let plain = carry(
        sample_provider().call_api(plain_pool.total_count()),
        &mut plain_pool,
        &replies,
    );
    let mut stream_pool = Pool::of(2);
    let stream = carry(
        sample_provider().call_api_stream(stream_pool.total_count()),
        &mut stream_pool,
        &replies,
    );
    assert_eq!(plain.log, stream.log);
    assert_eq!(plain.sent_on, stream.sent_on);
    assert_eq!(plain.urls, stream.urls);
    assert_eq!(plain_pool.reports, stream_pool.reports);
    assert_eq!(plain.result.unwrap_err().message(), "非流式 API 请求失败: 404 c");
    assert_eq!(stream.result.unwrap_err().message(), "流式 API 请求失败: 404 c");
}

#[test]
fn event_out_of_turn_changes_nothing() {
    let (dispatch, first) = sample_provider().call_api(1);
    assert!(matches!(first, Action::Acquire));
    assert_eq!(dispatch.endpoint(), Endpoint::Api);
    let (dispatch, asked) = dispatch.step(Event::Slept);
    assert!(asked.is_none());
    let (dispatch, asked) = dispatch.step(Event::Responded { status: 200 });
    assert!(asked.is_none());
    let (dispatch, asked) = dispatch.step(Event::BodyRead { body: String::new() });
    assert!(asked.is_none());
    let (dispatch, asked) = dispatch.step(Event::Reported { has_available: true });
    assert!(asked.is_none());
    let (dispatch, asked) = dispatch.step(Event::SendFailed { message: String::new() });
    assert!(asked.is_none());
    assert_eq!(dispatch.attempt(), 0);
    assert!(!dispatch.is_finished());
    let (dispatch, asked) = dispatch.step(Event::Acquired {
        context: CallContext {
            id: 7,
            machine_id: Some("m".to_string()),
            token: "t".to_string(),
        },
    });
    assert!(matches!(asked, Some(Action::Send { credential: 7, .. })));
    let (dispatch, asked) = dispatch.step(Event::Acquired {
        context: CallContext { id: 8, machine_id: None, token: String::new() },
    });
    assert!(asked.is_none());
    let (dispatch, asked) = dispatch.step(Event::Responded { status: 200 });
    assert!(matches!(asked, Some(Action::Succeed { credential: 7 })));
    assert!(dispatch.is_finished());
    let (dispatch, asked) = dispatch.step(Event::Slept);
    assert!(asked.is_none());
    assert!(dispatch.is_finished());
}

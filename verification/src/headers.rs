//! The headers of a request: the two sets that the service expects, as
//! ordered lines of text and as a `HeaderMap` ready to be sent.

use crate::config::{CallContext, CallContextView, Config, ConfigView, base_domain_of, enclose};
use crate::text::join;
use reqwest::header::{HeaderMap, HeaderValue};
use vstd::prelude::*;
use vstd::string::*;

verus! {

/// `reqwest::header::HeaderMap`, the headers of a request as the HTTP
/// client takes them. Nothing is known of a map but what `header_fields`
/// and the functions below tell.
#[verifier::external_type_specification]
#[verifier::external_body]
#[verifier::reject_recursive_types(T)]
pub struct ExHeaderMap<T>(reqwest::header::HeaderMap<T>);

/// `reqwest::header::HeaderValue`, the kind of value that the maps of this
/// crate hold. No value of it is read here.
#[verifier::external_type_specification]
#[verifier::external_body]
pub struct ExHeaderValue(reqwest::header::HeaderValue);

/// What a `HeaderMap` holds: each header name in it, in lower case as the
/// map keeps it, with the first value stored under that name, read as
/// UTF-8 text.
pub uninterp spec fn header_fields(map: HeaderMap) -> Map<Seq<char>, Seq<char>>;

/// A number of names below which a `HeaderMap` always has room for one
/// more. The map itself gives up much later, beyond six thousand names.
pub const HEADER_ROOM: usize = 1024;

/// Which of the two header sets a request carries.
#[derive(Clone, Copy, Debug, PartialEq, Eq, Structural)]
pub enum HeaderSet {
    /// The set of the assistant endpoint.
    Primary,
    /// The set of the MCP endpoint.
    Mcp,
}

/// Why no headers could be built for a lease.
#[derive(Clone, Copy, Debug, PartialEq, Eq, Structural)]
pub enum HeaderError {
    /// The credential yields no machine identity.
    MachineIdUnavailable,
    /// The configuration, the machine identity or the token holds a
    /// character that no header value may hold.
    InvalidValue,
}

/// One header line: a name as it is written, and its value.
pub struct Header {
    pub name: &'static str,
    pub value: String,
}

/// Whether `c` may stand in a header name: a letter, a digit, or one of the
/// signs that HTTP allows in a token.
pub open spec fn is_name_char(c: char) -> bool {
    ||| 'a' <= c <= 'z'
    ||| 'A' <= c <= 'Z'
    ||| '0' <= c <= '9'
    ||| c == '!' || c == '#' || c == '$' || c == '%' || c == '&' || c == '\''
    ||| c == '*' || c == '+' || c == '-' || c == '.' || c == '^' || c == '_'
    ||| c == '`' || c == '|' || c == '~'
}

/// Whether `name` is a header name of at most 64 characters.
pub open spec fn is_header_name(name: Seq<char>) -> bool {
    &&& 1 <= name.len() <= 64
    &&& forall|i: int| 0 <= i < name.len() ==> is_name_char(#[trigger] name[i])
}

/// Whether `c` may stand in a header value: anything but a control
/// character, the tabulator excepted.
pub open spec fn is_value_char(c: char) -> bool {
    (' ' <= c && c != '\u{7f}') || c == '\t'
}

/// Whether `value` can be sent as a header value.
pub open spec fn is_header_value(value: Seq<char>) -> bool {
    forall|i: int| 0 <= i < value.len() ==> is_value_char(#[trigger] value[i])
}

/// `c` in lower case where it is an ASCII capital, and `c` itself otherwise.
pub open spec fn lower_char(c: char) -> char {
    if 'A' <= c <= 'Z' {
        ((c as u8) + 32) as char
    } else {
        c
    }
}

/// `text` with its ASCII capitals in lower case.
pub open spec fn lower_case(text: Seq<char>) -> Seq<char> {
    Seq::new(text.len(), |i: int| lower_char(text[i]))
}

/// Whether `id` is a random UUID in its usual writing: 32 hexadecimal digits
/// in lower case, in groups of 8, 4, 4, 4 and 12 with a hyphen between them,
/// where the third group starts with the version 4 and the fourth with the
/// variant, one of 8, 9, a and b.
pub open spec fn is_uuid_v4_text(id: Seq<char>) -> bool {
    &&& id.len() == 36
    &&& forall|i: int|
        0 <= i < 36 ==> if i == 8 || i == 13 || i == 18 || i == 23 {
            #[trigger] id[i] == '-'
        } else {
            '0' <= id[i] <= '9' || 'a' <= id[i] <= 'f'
        }
    &&& id[14] == '4'
    &&& (id[19] == '8' || id[19] == '9' || id[19] == 'a' || id[19] == 'b')
}

/// The value of `x-amz-user-agent`.
pub open spec fn x_amz_user_agent_of(kiro_version: Seq<char>, machine_id: Seq<char>) -> Seq<char> {
    "aws-sdk-js/1.0.27 KiroIDE-"@ + kiro_version + "-"@ + machine_id
}

/// The value of `User-Agent`.
pub open spec fn user_agent_of(config: ConfigView, machine_id: Seq<char>) -> Seq<char> {
    "aws-sdk-js/1.0.27 ua/2.1 os/"@ + config.system_version + " lang/js md/nodejs#"@
        + config.node_version + " api/codewhispererstreaming#1.0.27 m/E KiroIDE-"@
        + config.kiro_version + "-"@ + machine_id
}

/// The value of `Authorization`.
pub open spec fn bearer_of(token: Seq<char>) -> Seq<char> {
    "Bearer "@ + token
}

/// The ten header lines of a request to the assistant endpoint, in order.
pub open spec fn primary_lines_of(
    config: ConfigView,
    machine_id: Seq<char>,
    token: Seq<char>,
    invocation_id: Seq<char>,
) -> Seq<(Seq<char>, Seq<char>)> {
    seq![
        ("Content-Type"@, "application/json"@),
        ("x-amzn-codewhisperer-optout"@, "true"@),
        ("x-amzn-kiro-agent-mode"@, "vibe"@),
        ("x-amz-user-agent"@, x_amz_user_agent_of(config.kiro_version, machine_id)),
        ("User-Agent"@, user_agent_of(config, machine_id)),
        ("Host"@, base_domain_of(config.region)),
        ("amz-sdk-invocation-id"@, invocation_id),
        ("amz-sdk-request"@, "attempt=1; max=3"@),
        ("Authorization"@, bearer_of(token)),
        ("Connection"@, "close"@),
    ]
}

/// The eight header lines of a request to the MCP endpoint, in order.
pub open spec fn mcp_lines_of(
    config: ConfigView,
    machine_id: Seq<char>,
    token: Seq<char>,
    invocation_id: Seq<char>,
) -> Seq<(Seq<char>, Seq<char>)> {
    seq![
        ("content-type"@, "application/json"@),
        ("x-amz-user-agent"@, x_amz_user_agent_of(config.kiro_version, machine_id)),
        ("user-agent"@, user_agent_of(config, machine_id)),
        ("host"@, base_domain_of(config.region)),
        ("amz-sdk-invocation-id"@, invocation_id),
        ("amz-sdk-request"@, "attempt=1; max=3"@),
        ("Authorization"@, bearer_of(token)),
        ("Connection"@, "close"@),
    ]
}

/// The header lines of the set `set`.
pub open spec fn lines_for(
    set: HeaderSet,
    config: ConfigView,
    machine_id: Seq<char>,
    token: Seq<char>,
    invocation_id: Seq<char>,
) -> Seq<(Seq<char>, Seq<char>)> {
    match set {
        HeaderSet::Primary => primary_lines_of(config, machine_id, token, invocation_id),
        HeaderSet::Mcp => mcp_lines_of(config, machine_id, token, invocation_id),
    }
}

/// Header lines as pairs of text.
pub open spec fn lines_of(headers: Seq<Header>) -> Seq<(Seq<char>, Seq<char>)> {
    Seq::new(headers.len(), |i: int| (headers[i].name@, headers[i].value@))
}

/// Whether every name of `lines` is a header name.
pub open spec fn names_valid(lines: Seq<(Seq<char>, Seq<char>)>) -> bool {
    forall|i: int| 0 <= i < lines.len() ==> is_header_name((#[trigger] lines[i]).0)
}

/// Whether every value of `lines` can be sent.
pub open spec fn values_valid(lines: Seq<(Seq<char>, Seq<char>)>) -> bool {
    forall|i: int| 0 <= i < lines.len() ==> is_header_value((#[trigger] lines[i]).1)
}

/// The fields that a map holds once `lines` were inserted one after the
/// other: under each name in lower case the value of its last line.
pub open spec fn fields_of(lines: Seq<(Seq<char>, Seq<char>)>) -> Map<Seq<char>, Seq<char>>
    decreases lines.len(),
{
    if lines.len() == 0 {
        Map::empty()
    } else {
        fields_of(lines.drop_last()).insert(lower_case(lines.last().0), lines.last().1)
    }
}

/// What building the set `set` for a lease gives once the invocation id is
/// chosen: no headers for a credential without machine identity nor where a
/// value cannot be sent, and else a map that holds the lines of the set.
pub open spec fn is_header_result(
    set: HeaderSet,
    config: ConfigView,
    context: CallContextView,
    invocation_id: Seq<char>,
    result: Result<HeaderMap, HeaderError>,
) -> bool {
    match context.machine_id {
        None => result == Err::<HeaderMap, HeaderError>(HeaderError::MachineIdUnavailable),
        Some(machine_id) => {
            let lines = lines_for(set, config, machine_id, context.token, invocation_id);
            if values_valid(lines) {
                result is Ok && header_fields(result->Ok_0) == fields_of(lines)
            } else {
                result == Err::<HeaderMap, HeaderError>(HeaderError::InvalidValue)
            }
        },
    }
}

/// Whether the values that depend on the configuration and the lease can be
/// sent. The other values of both sets always can.
pub open spec fn sendable(config: ConfigView, machine_id: Seq<char>, token: Seq<char>) -> bool {
    &&& is_header_value(x_amz_user_agent_of(config.kiro_version, machine_id))
    &&& is_header_value(user_agent_of(config, machine_id))
    &&& is_header_value(base_domain_of(config.region))
    &&& is_header_value(bearer_of(token))
}

/// Why no headers can be built for a lease, or `None` where they can.
pub open spec fn header_error_of(config: ConfigView, context: CallContextView) -> Option<
    HeaderError,
> {
    match context.machine_id {
        None => Some(HeaderError::MachineIdUnavailable),
        Some(machine_id) => if sendable(config, machine_id, context.token) {
            None
        } else {
            Some(HeaderError::InvalidValue)
        },
    }
}

/// Whether `result` is what building the set `set` for a lease gives under
/// some random identifier of the request.
pub open spec fn is_built(
    set: HeaderSet,
    config: ConfigView,
    context: CallContextView,
    result: Result<HeaderMap, HeaderError>,
) -> bool {
    exists|invocation_id: Seq<char>|
        is_uuid_v4_text(invocation_id) && #[trigger] is_header_result(
            set,
            config,
            context,
            invocation_id,
            result,
        )
}

/// `HeaderMap::new`: a map without fields.
#[verifier::external_body]
fn empty_header_map() -> (map: HeaderMap)
    ensures
        header_fields(map).dom().finite(),
        header_fields(map).dom().len() == 0,
{
    HeaderMap::new()
}

/// `HeaderValue::from_str` and then `HeaderMap::insert`. The first accepts
/// `value` where none of its bytes is a control character other than the
/// tabulator; a character beyond ASCII is made of bytes from 128 on, which
/// it accepts. The second reads the name as `HeaderName` does, in lower
/// case, and puts the value in the place of any that the name had. It
/// panics on a name that is no header name and on a map that is full: the
/// `requires` leaves both out.
#[verifier::external_body]
fn insert_text(map: &mut HeaderMap, name: &'static str, value: &str) -> (stored: bool)
    requires
        is_header_name(name@),
        header_fields(*old(map)).dom().finite(),
        header_fields(*old(map)).dom().len() < HEADER_ROOM,
    ensures
        stored == is_header_value(value@),
        stored ==> header_fields(*final(map)) == header_fields(*old(map)).insert(
            lower_case(name@),
            value@,
        ),
        !stored ==> header_fields(*final(map)) == header_fields(*old(map)),
{
    match HeaderValue::from_str(value) {
        Ok(value) => {
            map.insert(name, value);
            true
        },
        Err(_) => false,
    }
}

/// `uuid::Uuid::new_v4`, written by `to_string`. The identifier is random:
/// only its shape is known.
#[verifier::external_body]
fn fresh_invocation_id() -> (id: String)
    ensures
        is_uuid_v4_text(id@),
{
    uuid::Uuid::new_v4().to_string()
}

/// Writes the value of `x-amz-user-agent`.
pub fn x_amz_user_agent(kiro_version: &str, machine_id: &str) -> (value: String)
    ensures
        value@ == x_amz_user_agent_of(kiro_version@, machine_id@),
{
    join(enclose("aws-sdk-js/1.0.27 KiroIDE-", kiro_version, "-"), machine_id)
}

/// Writes the value of `User-Agent`.
pub fn user_agent(config: &Config, machine_id: &str) -> (value: String)
    ensures
        value@ == user_agent_of(config@, machine_id@),
{
    let os = enclose(
        "aws-sdk-js/1.0.27 ua/2.1 os/",
        config.system_version.as_str(),
        " lang/js md/nodejs#",
    );
    let node = join(
        join(os, config.node_version.as_str()),
        " api/codewhispererstreaming#1.0.27 m/E KiroIDE-",
    );
    join(join(join(node, config.kiro_version.as_str()), "-"), machine_id)
}

/// Writes the value of `Authorization` for `token`.
pub fn bearer(token: &str) -> (value: String)
    ensures
        value@ == bearer_of(token@),
{
    join(String::from_str("Bearer "), token)
}

/// Writes the host name of the service in `region`.
pub fn base_domain(region: &str) -> (domain: String)
    ensures
        domain@ == base_domain_of(region@),
{
    enclose("q.", region, ".amazonaws.com")
}

/// Writes the header lines of the assistant endpoint.
pub fn primary_lines(config: &Config, machine_id: &str, token: &str, invocation_id: &str) -> (lines:
    Vec<Header>)
    ensures
        lines_of(lines@) == primary_lines_of(config@, machine_id@, token@, invocation_id@),
{
    let mut lines: Vec<Header> = Vec::new();
    lines.push(Header { name: "Content-Type", value: String::from_str("application/json") });
    lines.push(Header { name: "x-amzn-codewhisperer-optout", value: String::from_str("true") });
    lines.push(Header { name: "x-amzn-kiro-agent-mode", value: String::from_str("vibe") });
    lines.push(
        Header {
            name: "x-amz-user-agent",
            value: x_amz_user_agent(config.kiro_version.as_str(), machine_id),
        },
    );
    lines.push(Header { name: "User-Agent", value: user_agent(config, machine_id) });
    lines.push(Header { name: "Host", value: base_domain(config.region.as_str()) });
    lines.push(Header { name: "amz-sdk-invocation-id", value: String::from_str(invocation_id) });
    lines.push(Header { name: "amz-sdk-request", value: String::from_str("attempt=1; max=3") });
    lines.push(Header { name: "Authorization", value: bearer(token) });
    lines.push(Header { name: "Connection", value: String::from_str("close") });
    assert(lines_of(lines@) =~= primary_lines_of(config@, machine_id@, token@, invocation_id@));
    lines
}

/// Writes the header lines of the MCP endpoint.
pub fn mcp_lines(config: &Config, machine_id: &str, token: &str, invocation_id: &str) -> (lines:
    Vec<Header>)
    ensures
        lines_of(lines@) == mcp_lines_of(config@, machine_id@, token@, invocation_id@),
{
    let mut lines: Vec<Header> = Vec::new();
    lines.push(Header { name: "content-type", value: String::from_str("application/json") });
    lines.push(
        Header {
            name: "x-amz-user-agent",
            value: x_amz_user_agent(config.kiro_version.as_str(), machine_id),
        },
    );
    lines.push(Header { name: "user-agent", value: user_agent(config, machine_id) });
    lines.push(Header { name: "host", value: base_domain(config.region.as_str()) });
    lines.push(Header { name: "amz-sdk-invocation-id", value: String::from_str(invocation_id) });
    lines.push(Header { name: "amz-sdk-request", value: String::from_str("attempt=1; max=3") });
    lines.push(Header { name: "Authorization", value: bearer(token) });
    lines.push(Header { name: "Connection", value: String::from_str("close") });
    assert(lines_of(lines@) =~= mcp_lines_of(config@, machine_id@, token@, invocation_id@));
    lines
}

/// The names of both header sets are header names.
pub proof fn lemma_names_valid(
    set: HeaderSet,
    config: ConfigView,
    machine_id: Seq<char>,
    token: Seq<char>,
    invocation_id: Seq<char>,
)
    ensures
        names_valid(lines_for(set, config, machine_id, token, invocation_id)),
{
    reveal_strlit("Content-Type");
    reveal_strlit("x-amzn-codewhisperer-optout");
    reveal_strlit("x-amzn-kiro-agent-mode");
    reveal_strlit("x-amz-user-agent");
    reveal_strlit("User-Agent");
    reveal_strlit("Host");
    reveal_strlit("amz-sdk-invocation-id");
    reveal_strlit("amz-sdk-request");
    reveal_strlit("Authorization");
    reveal_strlit("Connection");
    reveal_strlit("content-type");
    reveal_strlit("user-agent");
    reveal_strlit("host");
    let lines = lines_for(set, config, machine_id, token, invocation_id);
    assert forall|i: int| 0 <= i < lines.len() implies is_header_name((#[trigger] lines[i]).0) by {
        if set == HeaderSet::Primary {
            assert(lines.len() == 10);
        } else {
            assert(lines.len() == 8);
        }
    }
}

/// Puts `lines` into a fresh map, one after the other. No map comes back
/// where a value cannot be sent.
fn header_map_of(lines: &Vec<Header>) -> (built: Option<HeaderMap>)
    requires
        names_valid(lines_of(lines@)),
        lines.len() <= HEADER_ROOM,
    ensures
        match built {
            Some(map) => values_valid(lines_of(lines@)) && header_fields(map) == fields_of(
                lines_of(lines@),
            ),
            None => !values_valid(lines_of(lines@)),
        },
{
    let mut map = empty_header_map();
    let ghost all = lines_of(lines@);
    assert(header_fields(map) =~= fields_of(all.take(0)));
    let mut i: usize = 0;
    while i < lines.len()
        invariant
            i <= lines.len() <= HEADER_ROOM,
            all == lines_of(lines@),
            names_valid(all),
            header_fields(map).dom().finite(),
            header_fields(map).dom().len() <= i,
            header_fields(map) == fields_of(all.take(i as int)),
            forall|j: int| 0 <= j < i ==> is_header_value((#[trigger] all[j]).1),
        decreases lines.len() - i,
    {
        assert(is_header_name(all[i as int].0));
        let stored = insert_text(&mut map, lines[i].name, lines[i].value.as_str());
        if !stored {
            assert(!is_header_value(all[i as int].1));
            return None;
        }
        proof {
            assert(all.take(i + 1).drop_last() =~= all.take(i as int));
            assert(all.take(i + 1).last() == all[i as int]);
        }
        i = i + 1;
    }
    assert(all.take(i as int) =~= all);
    Some(map)
}

/// Builds the headers of the set `set` for a lease, with `invocation_id` as
/// the identifier of the request.
pub fn headers_with_id(
    config: &Config,
    context: &CallContext,
    set: HeaderSet,
    invocation_id: &str,
) -> (result: Result<HeaderMap, HeaderError>)
    ensures
        is_header_result(set, config@, context@, invocation_id@, result),
{
    let machine_id = match &context.machine_id {
        Some(machine_id) => machine_id,
        None => {
            return Err(HeaderError::MachineIdUnavailable);
        },
    };
    let lines = match set {
        HeaderSet::Primary => primary_lines(
            config,
            machine_id.as_str(),
            context.token.as_str(),
            invocation_id,
        ),
        HeaderSet::Mcp => mcp_lines(
            config,
            machine_id.as_str(),
            context.token.as_str(),
            invocation_id,
        ),
    };
    proof {
        lemma_names_valid(set, config@, machine_id@, context.token@, invocation_id@);
    }
    match header_map_of(&lines) {
        Some(map) => Ok(map),
        None => Err(HeaderError::InvalidValue),
    }
}

/// The fields of a request to the MCP endpoint, by their names as a map
/// keeps them.
pub open spec fn mcp_fields_of(
    config: ConfigView,
    machine_id: Seq<char>,
    token: Seq<char>,
    invocation_id: Seq<char>,
) -> Map<Seq<char>, Seq<char>> {
    map![
        "content-type"@ => "application/json"@,
        "x-amz-user-agent"@ => x_amz_user_agent_of(config.kiro_version, machine_id),
        "user-agent"@ => user_agent_of(config, machine_id),
        "host"@ => base_domain_of(config.region),
        "amz-sdk-invocation-id"@ => invocation_id,
        "amz-sdk-request"@ => "attempt=1; max=3"@,
        "authorization"@ => bearer_of(token),
        "connection"@ => "close"@,
    ]
}

/// The fields of a request to the assistant endpoint, by their names as a
/// map keeps them: those of the MCP endpoint and two more.
pub open spec fn primary_fields_of(
    config: ConfigView,
    machine_id: Seq<char>,
    token: Seq<char>,
    invocation_id: Seq<char>,
) -> Map<Seq<char>, Seq<char>> {
    mcp_fields_of(config, machine_id, token, invocation_id).insert(
        "x-amzn-codewhisperer-optout"@,
        "true"@,
    ).insert("x-amzn-kiro-agent-mode"@, "vibe"@)
}

/// A map that was filled with the lines of a set holds one field for each
/// line, under the name of the line in lower case. The two sets hold the
/// same eight fields, and the set of the assistant endpoint two more.
pub proof fn lemma_fields_of_sets(
    config: ConfigView,
    machine_id: Seq<char>,
    token: Seq<char>,
    invocation_id: Seq<char>,
)
    ensures
        fields_of(primary_lines_of(config, machine_id, token, invocation_id)) == primary_fields_of(
            config,
            machine_id,
            token,
            invocation_id,
        ),
        fields_of(mcp_lines_of(config, machine_id, token, invocation_id)) == mcp_fields_of(
            config,
            machine_id,
            token,
            invocation_id,
        ),
        primary_fields_of(config, machine_id, token, invocation_id).dom().len() == 10,
        mcp_fields_of(config, machine_id, token, invocation_id).dom().len() == 8,
        !mcp_fields_of(config, machine_id, token, invocation_id).contains_key(
            "x-amzn-codewhisperer-optout"@,
        ),
        !mcp_fields_of(config, machine_id, token, invocation_id).contains_key(
            "x-amzn-kiro-agent-mode"@,
        ),
{
    reveal_strlit("Content-Type");
    reveal_strlit("x-amzn-codewhisperer-optout");
    reveal_strlit("x-amzn-kiro-agent-mode");
    reveal_strlit("x-amz-user-agent");
    reveal_strlit("User-Agent");
    reveal_strlit("Host");
    reveal_strlit("amz-sdk-invocation-id");
    reveal_strlit("amz-sdk-request");
    reveal_strlit("Authorization");
    reveal_strlit("Connection");
    reveal_strlit("content-type");
    reveal_strlit("user-agent");
    reveal_strlit("host");
    reveal_strlit("authorization");
    reveal_strlit("connection");
    assert(lower_case("Content-Type"@) =~= "content-type"@);
    assert(lower_case("x-amzn-codewhisperer-optout"@) =~= "x-amzn-codewhisperer-optout"@);
    assert(lower_case("x-amzn-kiro-agent-mode"@) =~= "x-amzn-kiro-agent-mode"@);
    assert(lower_case("x-amz-user-agent"@) =~= "x-amz-user-agent"@);
    assert(lower_case("User-Agent"@) =~= "user-agent"@);
    assert(lower_case("Host"@) =~= "host"@);
    assert(lower_case("amz-sdk-invocation-id"@) =~= "amz-sdk-invocation-id"@);
    assert(lower_case("amz-sdk-request"@) =~= "amz-sdk-request"@);
    assert(lower_case("Authorization"@) =~= "authorization"@);
    assert(lower_case("Connection"@) =~= "connection"@);
    assert(lower_case("content-type"@) =~= "content-type"@);
    assert(lower_case("user-agent"@) =~= "user-agent"@);
    assert(lower_case("host"@) =~= "host"@);
    let primary = primary_lines_of(config, machine_id, token, invocation_id);
    let mcp = mcp_lines_of(config, machine_id, token, invocation_id);
    lemma_fields_of_prefixes(primary, 10);
    lemma_fields_of_prefixes(mcp, 8);
    assert(primary.take(10) =~= primary);
    assert(mcp.take(8) =~= mcp);
    assert(fields_of(primary.take(0)) =~= Map::empty());
    assert(fields_of(mcp.take(0)) =~= Map::empty());
    assert(fields_of(primary) =~= primary_fields_of(config, machine_id, token, invocation_id));
    assert(fields_of(mcp) =~= mcp_fields_of(config, machine_id, token, invocation_id));
    let n1 = Set::<Seq<char>>::empty().insert("content-type"@);
    let n2 = n1.insert("x-amz-user-agent"@);
    let n3 = n2.insert("user-agent"@);
    let n4 = n3.insert("host"@);
    let n5 = n4.insert("amz-sdk-invocation-id"@);
    let n6 = n5.insert("amz-sdk-request"@);
    let n7 = n6.insert("authorization"@);
    let n8 = n7.insert("connection"@);
    let n9 = n8.insert("x-amzn-codewhisperer-optout"@);
    let n10 = n9.insert("x-amzn-kiro-agent-mode"@);
    assert(n1.len() == 1);
    assert(n2.len() == 2);
    assert(n3.len() == 3);
    assert(n4.len() == 4);
    assert(n5.len() == 5);
    assert(n6.len() == 6);
    assert(n7.len() == 7);
    assert("user-agent"@[0] != "connection"@[0]);
    assert(n8.len() == 8);
    assert(n9.len() == 9);
    assert(n10.len() == 10);
    assert(mcp_fields_of(config, machine_id, token, invocation_id).dom() =~= n8);
    assert(primary_fields_of(config, machine_id, token, invocation_id).dom() =~= n10);
}

/// Each longer start of `lines` adds the field of its last line.
proof fn lemma_fields_of_prefixes(lines: Seq<(Seq<char>, Seq<char>)>, upto: int)
    requires
        0 <= upto <= lines.len(),
    ensures
        forall|k: int|
            0 < k <= upto ==> #[trigger] fields_of(lines.take(k)) == fields_of(
                lines.take(k - 1),
            ).insert(lower_case(lines[k - 1].0), lines[k - 1].1),
{
    assert forall|k: int| 0 < k <= upto implies #[trigger] fields_of(lines.take(k)) == fields_of(
        lines.take(k - 1),
    ).insert(lower_case(lines[k - 1].0), lines[k - 1].1) by {
        assert(lines.take(k).drop_last() =~= lines.take(k - 1));
        assert(lines.take(k).last() == lines[k - 1]);
    }
}

/// Under a random identifier the values of a set can all be sent exactly
/// where those that depend on the configuration and the lease can.
pub proof fn lemma_values_valid(
    set: HeaderSet,
    config: ConfigView,
    machine_id: Seq<char>,
    token: Seq<char>,
    invocation_id: Seq<char>,
)
    requires
        is_uuid_v4_text(invocation_id),
    ensures
        values_valid(lines_for(set, config, machine_id, token, invocation_id)) == sendable(
            config,
            machine_id,
            token,
        ),
{
    reveal_strlit("application/json");
    reveal_strlit("true");
    reveal_strlit("vibe");
    reveal_strlit("attempt=1; max=3");
    reveal_strlit("close");
    let lines = lines_for(set, config, machine_id, token, invocation_id);
    assert(is_header_value(invocation_id)) by {
        assert forall|i: int| 0 <= i < invocation_id.len() implies is_value_char(
            #[trigger] invocation_id[i],
        ) by {
            if i == 8 || i == 13 || i == 18 || i == 23 {
                assert(invocation_id[i] == '-');
            }
        }
    }
    if set == HeaderSet::Primary {
        assert(lines.len() == 10);
        if sendable(config, machine_id, token) {
            assert forall|i: int| 0 <= i < lines.len() implies is_header_value(
                (#[trigger] lines[i]).1,
            ) by {}
        } else {
            assert(!is_header_value(lines[3].1) || !is_header_value(lines[4].1)
                || !is_header_value(lines[5].1) || !is_header_value(lines[8].1));
        }
    } else {
        assert(lines.len() == 8);
        if sendable(config, machine_id, token) {
            assert forall|i: int| 0 <= i < lines.len() implies is_header_value(
                (#[trigger] lines[i]).1,
            ) by {}
        } else {
            assert(!is_header_value(lines[1].1) || !is_header_value(lines[2].1)
                || !is_header_value(lines[3].1) || !is_header_value(lines[6].1));
        }
    }
}

/// Builds the headers of the set `set` for a lease, under a fresh random
/// identifier of the request.
pub fn build(config: &Config, context: &CallContext, set: HeaderSet) -> (result: Result<
    HeaderMap,
    HeaderError,
>)
    ensures
        is_built(set, config@, context@, result),
        match result {
            Ok(_) => header_error_of(config@, context@) is None,
            Err(cause) => header_error_of(config@, context@) == Some(cause),
        },
{
    let invocation_id = fresh_invocation_id();
    proof {
        if context.machine_id is Some {
            lemma_values_valid(
                set,
                config@,
                context@.machine_id->0,
                context@.token,
                invocation_id@,
            );
        }
    }
    headers_with_id(config, context, set, invocation_id.as_str())
}

} // verus!

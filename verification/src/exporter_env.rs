//! Environment-driven configuration of the exporter pipeline builder.
//!
//! The embedding program reads the configuration variables and hands their
//! raw values over as an [`ExporterEnv`]; [`assign_attrs`] then applies them
//! to a [`PipelineBuilder`]. The policy is exactly: an optional string
//! variable that is absent or empty leaves the builder untouched; the agent
//! endpoint is set only when host and port are both present (both-or-nothing,
//! partial configuration is never applied), joined as `host:port` with
//! surrounding whitespace trimmed; the export timeout is the variable parsed
//! as whole seconds — one optional leading plus sign, then decimal digits —
//! falling back to
//! [`DEFAULT_EXPORT_TIMEOUT_SECS`] when the variable is absent or
//! unparsable — a malformed value is recovered locally, never surfaced as an
//! error.

use vstd::prelude::*;
use vstd::string::StrSliceExecFns;
use vstd::string::StringExecFns;

verus! {

/// Default export wait timeout, in whole seconds, used when the timeout
/// variable is absent or unparsable.
pub const DEFAULT_EXPORT_TIMEOUT_SECS: u64 = 10;

/// Whether `c` is a decimal digit.
pub open spec fn is_decimal_digit(c: char) -> bool {
    '0' as int <= c as int && c as int <= '9' as int
}

/// Whether `s` consists of decimal digits only.
pub open spec fn is_digit_seq(s: Seq<char>) -> bool {
    forall|i: int| 0 <= i < s.len() ==> is_decimal_digit(#[trigger] s[i])
}

/// The value of `s` read as a decimal numeral, most significant digit first.
pub open spec fn decimal_value(s: Seq<char>) -> int
    decreases s.len(),
{
    if s.len() == 0 {
        0
    } else {
        decimal_value(s.drop_last()) * 10 + (s.last() as int - '0' as int)
    }
}

/// What parsing a plain numeral yields: its decimal value, if the string is
/// a non-empty sequence of digits whose value fits in a `u64`; nothing
/// otherwise.
pub open spec fn spec_parse_digits(s: Seq<char>) -> Option<u64> {
    if s.len() > 0 && is_digit_seq(s) && decimal_value(s) <= u64::MAX {
        Some(decimal_value(s) as u64)
    } else {
        None
    }
}

/// A numeral may carry one optional leading plus sign before its digits:
/// this is the string with that sign removed.
pub open spec fn strip_plus_sign(s: Seq<char>) -> Seq<char> {
    if s.len() > 0 && s[0] == '+' {
        s.subrange(1, s.len() as int)
    } else {
        s
    }
}

/// What parsing a string as a `u64` yields: an optional leading plus sign
/// followed by a non-empty sequence of decimal digits whose value fits in a
/// `u64` parses to that value; anything else parses to nothing.
pub open spec fn spec_parse_u64(s: Seq<char>) -> Option<u64> {
    spec_parse_digits(strip_plus_sign(s))
}

/// What `str::trim` returns for the given characters.
pub uninterp spec fn trim_of(s: Seq<char>) -> Seq<char>;

/// Relies on `str::trim`: the result is the input without leading and
/// trailing whitespace, and depends on the characters alone.
#[verifier::external_body]
fn trim_to_string(s: &str) -> (r: String)
    ensures
        r@ == trim_of(s@),
{
    s.trim().to_string()
}

/// A sequence of digits reads as a non-negative value.
proof fn lemma_digit_value_nonneg(s: Seq<char>)
    requires
        is_digit_seq(s),
    ensures
        decimal_value(s) >= 0,
    decreases s.len(),
{
    if s.len() > 0 {
        assert(is_digit_seq(s.drop_last())) by {
            assert forall|i: int| 0 <= i < s.drop_last().len() implies is_decimal_digit(
                #[trigger] s.drop_last()[i],
            ) by {
                assert(s.drop_last()[i] == s[i]);
            }
        }
        lemma_digit_value_nonneg(s.drop_last());
    }
}

/// In a sequence of digits, a prefix reads as at most the whole: each
/// further digit multiplies the value by ten and adds a non-negative digit.
proof fn lemma_digit_prefix_le(s: Seq<char>, j: int)
    requires
        0 <= j <= s.len(),
        is_digit_seq(s),
    ensures
        decimal_value(s.subrange(0, j)) <= decimal_value(s),
    decreases s.len() - j,
{
    if j == s.len() {
        assert(s.subrange(0, j) =~= s);
    } else {
        assert(s.subrange(0, j + 1).drop_last() =~= s.subrange(0, j));
        assert(s.subrange(0, j + 1).last() == s[j]);
        assert(is_digit_seq(s.subrange(0, j))) by {
            assert forall|i: int| 0 <= i < j implies is_decimal_digit(
                #[trigger] s.subrange(0, j)[i],
            ) by {
                assert(s.subrange(0, j)[i] == s[i]);
            }
        }
        lemma_digit_value_nonneg(s.subrange(0, j));
        lemma_digit_prefix_le(s, j + 1);
    }
}

/// Parse a plain numeral: a non-empty string of decimal digits whose value
/// fits in a `u64`. Anything else — empty, a non-digit character, a value
/// too large — yields nothing.
fn parse_digits(s: &str) -> (r: Option<u64>)
    ensures
        r == spec_parse_digits(s@),
{
    let n = s.unicode_len();
    if n == 0 {
        return None;
    }
    let mut value: u64 = 0;
    let mut i: usize = 0;
    while i < n
        invariant
            0 < n == s@.len(),
            i <= n,
            forall|j: int| 0 <= j < i ==> is_decimal_digit(#[trigger] s@[j]),
            value == decimal_value(s@.subrange(0, i as int)),
        decreases n - i,
    {
        let c = s.get_char(i);
        let d = c as u32;
        if d < 48 || d > 57 {
            return None;
        }
        let digit = (d - 48) as u64;
        proof {
            assert(s@.subrange(0, i + 1).drop_last() =~= s@.subrange(0, i as int));
            assert(s@.subrange(0, i + 1).last() == s@[i as int]);
        }
        let scaled = match value.checked_mul(10) {
            Some(scaled) => scaled,
            None => {
                proof {
                    if is_digit_seq(s@) {
                        lemma_digit_prefix_le(s@, i + 1);
                    }
                }
                return None;
            },
        };
        value = match scaled.checked_add(digit) {
            Some(next) => next,
            None => {
                proof {
                    if is_digit_seq(s@) {
                        lemma_digit_prefix_le(s@, i + 1);
                    }
                }
                return None;
            },
        };
        i = i + 1;
    }
    proof {
        assert(s@.subrange(0, n as int) =~= s@);
    }
    Some(value)
}

/// Parse a string as a `u64`: one optional leading plus sign, then a
/// non-empty string of decimal digits whose value fits in a `u64`. Anything
/// else — empty, a bare sign, a non-digit character, a value too large —
/// yields nothing.
pub fn parse_u64(s: &str) -> (r: Option<u64>)
    ensures
        r == spec_parse_u64(s@),
{
    let n = s.unicode_len();
    let body = if n > 0 && s.get_char(0) == '+' {
        s.substring_char(1, n)
    } else {
        s
    };
    proof {
        assert(body@ =~= strip_plus_sign(s@));
    }
    parse_digits(body)
}

/// The values of the configuration variables, as the embedding program read
/// them from its environment: a variable that was not set is absent here.
pub struct ExporterEnv {
    /// The name under which reported spans are grouped.
    pub service_name: Option<String>,
    /// The hostname of the agent, e.g. `localhost`.
    pub agent_host: Option<String>,
    /// The port of the agent, e.g. `6832`.
    pub agent_port: Option<String>,
    /// Max waiting time for the backend, in whole seconds.
    pub timeout: Option<String>,
    /// HTTP endpoint of the collector.
    pub collector_endpoint: Option<String>,
    /// Username for basic authentication against the collector.
    pub collector_username: Option<String>,
    /// Password for basic authentication against the collector.
    pub collector_password: Option<String>,
}

/// The exporter pipeline builder, as far as this configuration step speaks
/// to it: an optional field left absent means the builder keeps its own
/// default for it.
pub struct PipelineBuilder {
    pub service_name: Option<String>,
    pub agent_endpoint: Option<String>,
    pub timeout_secs: u64,
    pub collector_endpoint: Option<String>,
    pub collector_username: Option<String>,
    pub collector_password: Option<String>,
}

impl PipelineBuilder {
    /// A builder with every setting left to its default.
    pub fn new() -> (r: PipelineBuilder)
        ensures
            r.service_name is None,
            r.agent_endpoint is None,
            r.timeout_secs == DEFAULT_EXPORT_TIMEOUT_SECS,
            r.collector_endpoint is None,
            r.collector_username is None,
            r.collector_password is None,
    {
        PipelineBuilder {
            service_name: None,
            agent_endpoint: None,
            timeout_secs: DEFAULT_EXPORT_TIMEOUT_SECS,
            collector_endpoint: None,
            collector_username: None,
            collector_password: None,
        }
    }

    /// Set the reported service name; every other setting is kept.
    pub fn with_service_name(self, service_name: String) -> (r: PipelineBuilder)
        ensures
            r.service_name == Some(service_name),
            r.agent_endpoint == self.agent_endpoint,
            r.timeout_secs == self.timeout_secs,
            r.collector_endpoint == self.collector_endpoint,
            r.collector_username == self.collector_username,
            r.collector_password == self.collector_password,
    {
        PipelineBuilder { service_name: Some(service_name), ..self }
    }

    /// Set the agent endpoint; every other setting is kept.
    pub fn with_agent_endpoint(self, agent_endpoint: String) -> (r: PipelineBuilder)
        ensures
            r.agent_endpoint == Some(agent_endpoint),
            r.service_name == self.service_name,
            r.timeout_secs == self.timeout_secs,
            r.collector_endpoint == self.collector_endpoint,
            r.collector_username == self.collector_username,
            r.collector_password == self.collector_password,
    {
        PipelineBuilder { agent_endpoint: Some(agent_endpoint), ..self }
    }

    /// Set the export wait timeout, in whole seconds; every other setting is
    /// kept.
    pub fn with_timeout(self, timeout_secs: u64) -> (r: PipelineBuilder)
        ensures
            r.timeout_secs == timeout_secs,
            r.service_name == self.service_name,
            r.agent_endpoint == self.agent_endpoint,
            r.collector_endpoint == self.collector_endpoint,
            r.collector_username == self.collector_username,
            r.collector_password == self.collector_password,
    {
        PipelineBuilder { timeout_secs, ..self }
    }

    /// Set the collector endpoint; every other setting is kept.
    pub fn with_collector_endpoint(self, collector_endpoint: String) -> (r: PipelineBuilder)
        ensures
            r.collector_endpoint == Some(collector_endpoint),
            r.service_name == self.service_name,
            r.agent_endpoint == self.agent_endpoint,
            r.timeout_secs == self.timeout_secs,
            r.collector_username == self.collector_username,
            r.collector_password == self.collector_password,
    {
        PipelineBuilder { collector_endpoint: Some(collector_endpoint), ..self }
    }

    /// Set the collector username; every other setting is kept.
    pub fn with_collector_username(self, collector_username: String) -> (r: PipelineBuilder)
        ensures
            r.collector_username == Some(collector_username),
            r.service_name == self.service_name,
            r.agent_endpoint == self.agent_endpoint,
            r.timeout_secs == self.timeout_secs,
            r.collector_endpoint == self.collector_endpoint,
            r.collector_password == self.collector_password,
    {
        PipelineBuilder { collector_username: Some(collector_username), ..self }
    }

    /// Set the collector password; every other setting is kept.
    pub fn with_collector_password(self, collector_password: String) -> (r: PipelineBuilder)
        ensures
            r.collector_password == Some(collector_password),
            r.service_name == self.service_name,
            r.agent_endpoint == self.agent_endpoint,
            r.timeout_secs == self.timeout_secs,
            r.collector_endpoint == self.collector_endpoint,
            r.collector_username == self.collector_username,
    {
        PipelineBuilder { collector_password: Some(collector_password), ..self }
    }
}

/// What an optional string variable leaves in the builder: its value when it
/// is present and non-empty, the prior setting otherwise — an empty string
/// counts as absent.
pub open spec fn effective_optional(var: Option<Seq<char>>, prior: Option<Seq<char>>) -> Option<
    Seq<char>,
> {
    match var {
        Some(s) => if s.len() > 0 {
            Some(s)
        } else {
            prior
        },
        None => prior,
    }
}

/// What the agent variables leave as the agent endpoint: `host:port`, each
/// side trimmed, when host and port are both present; the prior setting when
/// either is missing — partial configuration is never applied.
pub open spec fn effective_agent_endpoint(
    host: Option<Seq<char>>,
    port: Option<Seq<char>>,
    prior: Option<Seq<char>>,
) -> Option<Seq<char>> {
    match (host, port) {
        (Some(h), Some(p)) => Some(trim_of(h) + ":"@ + trim_of(p)),
        _ => prior,
    }
}

/// The effective export timeout in whole seconds: the variable's parsed
/// value, or the default when the variable is absent or unparsable.
pub open spec fn effective_timeout_secs(var: Option<Seq<char>>) -> u64 {
    match var {
        Some(s) => match spec_parse_u64(s) {
            Some(v) => v,
            None => DEFAULT_EXPORT_TIMEOUT_SECS,
        },
        None => DEFAULT_EXPORT_TIMEOUT_SECS,
    }
}

/// Assign builder attributes from the configuration variables' values.
pub fn assign_attrs(builder: PipelineBuilder, env: &ExporterEnv) -> (r: PipelineBuilder)
    ensures
        r.service_name.deep_view() == effective_optional(
            env.service_name.deep_view(),
            builder.service_name.deep_view(),
        ),
        r.agent_endpoint.deep_view() == effective_agent_endpoint(
            env.agent_host.deep_view(),
            env.agent_port.deep_view(),
            builder.agent_endpoint.deep_view(),
        ),
        r.timeout_secs == effective_timeout_secs(env.timeout.deep_view()),
        r.collector_endpoint.deep_view() == effective_optional(
            env.collector_endpoint.deep_view(),
            builder.collector_endpoint.deep_view(),
        ),
        r.collector_username.deep_view() == effective_optional(
            env.collector_username.deep_view(),
            builder.collector_username.deep_view(),
        ),
        r.collector_password.deep_view() == effective_optional(
            env.collector_password.deep_view(),
            builder.collector_password.deep_view(),
        ),
{
    let mut b = builder;
    if let Some(service_name) = &env.service_name {
        if !service_name.as_str().is_empty() {
            b = b.with_service_name(service_name.clone());
        }
    }
    if let (Some(host), Some(port)) = (&env.agent_host, &env.agent_port) {
        let trimmed_host = trim_to_string(host.as_str());
        let trimmed_port = trim_to_string(port.as_str());
        let endpoint = trimmed_host.concat(":").concat(trimmed_port.as_str());
        b = b.with_agent_endpoint(endpoint);
    }
    let timeout_secs = match &env.timeout {
        Some(timeout) => match parse_u64(timeout.as_str()) {
            Some(secs) => secs,
            None => DEFAULT_EXPORT_TIMEOUT_SECS,
        },
        None => DEFAULT_EXPORT_TIMEOUT_SECS,
    };
    b = b.with_timeout(timeout_secs);
    if let Some(collector_endpoint) = &env.collector_endpoint {
        if !collector_endpoint.as_str().is_empty() {
            b = b.with_collector_endpoint(collector_endpoint.clone());
        }
    }
    if let Some(collector_username) = &env.collector_username {
        if !collector_username.as_str().is_empty() {
            b = b.with_collector_username(collector_username.clone());
        }
    }
    if let Some(collector_password) = &env.collector_password {
        if !collector_password.as_str().is_empty() {
            b = b.with_collector_password(collector_password.clone());
        }
    }
    b
}

} // verus!

//! What a run is configured with: the two instances, and how requests to
//! them are made.

use crate::orchestrator::Step;
use vstd::prelude::*;

verus! {

/// Where the logging setup is read from.
#[derive(Debug, Clone, PartialEq, Eq)]
pub struct LogConfig {
    pub filepath: String,
}

/// One instance: its address and the key that requests to it carry.
#[derive(Debug, Clone, PartialEq, Eq)]
pub struct ServiceConfig {
    pub host: String,
    pub api_key: String,
}

/// The two instances of a migration.
#[derive(Debug, Clone, PartialEq, Eq)]
pub struct Grafana {
    /// The instance that is exported from.
    pub src: ServiceConfig,
    /// The instance that is imported into.
    pub dst: ServiceConfig,
}

/// The whole configuration.
#[derive(Debug, Clone, PartialEq, Eq)]
pub struct Config {
    pub grafana: Grafana,
    pub log_config: LogConfig,
}

/// Why a configuration cannot be used.
#[derive(Debug, Clone, Copy, PartialEq, Eq, Structural)]
pub enum ConfigError {
    /// The key holds a character that no header value may hold.
    InvalidApiKey,
}

/// The seconds after which a request that has not been answered counts as
/// failed.
pub const REQUEST_TIMEOUT_SECONDS: u64 = 5;

/// Whether a character may stand in a header value: the tab and everything
/// from the space on, but for the delete character.
pub open spec fn header_char(c: char) -> bool {
    c == '\t' || (c as u32 >= 32 && c as u32 != 127)
}

/// Whether a text may stand as a header value.
pub open spec fn header_text(text: Seq<char>) -> bool {
    forall|i: int| 0 <= i < text.len() ==> header_char(#[trigger] text[i])
}

/// The value of the `Authorization` header for a key.
pub open spec fn bearer(api_key: Seq<char>) -> Seq<char> {
    "Bearer "@ + api_key
}

/// `reqwest::header::HeaderValue::from_str`, asked only whether it accepts
/// the text. It accepts a text exactly when each byte of it is the tab or is
/// 32 or more and not 127; the bytes of a character beyond ASCII are all 128
/// or more, so this is [`header_text`].
#[verifier::external_body]
fn header_accepts(text: &str) -> (r: bool)
    ensures
        r == header_text(text@),
{
    reqwest::header::HeaderValue::from_str(text).is_ok()
}

/// The value of the `Authorization` header that requests to an instance
/// carry, or the reason why the key cannot be sent.
pub fn authorization(api_key: &str) -> (r: Result<String, ConfigError>)
    ensures
        match r {
            Ok(value) => header_text(api_key@) && value@ == bearer(api_key@),
            Err(why) => !header_text(api_key@) && why == ConfigError::InvalidApiKey,
        },
{
    let value = "Bearer ".to_owned().concat(api_key);
    proof {
        reveal_strlit("Bearer ");
        let prefix = "Bearer "@;
        assert(prefix.len() == 7);
        assert(header_text(prefix)) by {
            assert(header_char('B'));
            assert(header_char('e'));
            assert(header_char('a'));
            assert(header_char('r'));
            assert(header_char(' '));
        }
        if header_text(api_key@) {
            assert forall|i: int| 0 <= i < value@.len() implies header_char(
                #[trigger] value@[i],
            ) by {
                if i >= 7 {
                    assert(value@[i] == api_key@[i - 7]);
                } else {
                    assert(value@[i] == prefix[i]);
                }
            }
        }
        if header_text(value@) {
            assert forall|i: int| 0 <= i < api_key@.len() implies header_char(
                #[trigger] api_key@[i],
            ) by {
                assert(api_key@[i] == value@[i + 7]);
            }
        }
    }
    if header_accepts(value.as_str()) {
        Ok(value)
    } else {
        Err(ConfigError::InvalidApiKey)
    }
}

impl Grafana {
    /// The instance that a step talks to: the source while exporting, the
    /// destination while importing, none otherwise.
    pub open spec fn service_of(self, step: Step) -> Option<ServiceConfig> {
        match step {
            Step::Export(_) => Some(self.src),
            Step::Import(_) => Some(self.dst),
            _ => None,
        }
    }

    /// The instance that `step` talks to.
    pub fn service(&self, step: Step) -> (r: Option<&ServiceConfig>)
        ensures
            match r {
                Some(service) => self.service_of(step) == Some(*service),
                None => self.service_of(step) is None,
            },
    {
        match step {
            Step::Export(_) => Some(&self.src),
            Step::Import(_) => Some(&self.dst),
            _ => None,
        }
    }
}

} // verus!

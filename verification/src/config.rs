//! The server configuration: the two API tokens and the commenter
//! allow-list, built once at startup and read-only afterwards.

use vstd::prelude::*;

use crate::json::{json_parse, parse_json, string_array_of};
use crate::trigger::{PullRequestTrigger, TriggerV};

verus! {

/// What `str::to_lowercase` returns for the given characters.
pub uninterp spec fn lower_of(s: Seq<char>) -> Seq<char>;

/// Relies on str::to_lowercase: the result depends on the characters
/// alone.
#[verifier::external_body]
fn to_lowercase(s: &str) -> (r: String)
    ensures
        r@ == lower_of(s@),
{
    s.to_lowercase()
}

/// Process-wide configuration, passed read-only into every run.
pub struct ServerConfig {
    pub source_api_token: String,
    pub profiling_api_token: String,
    /// Lower-cased commenter logins that may trigger a run.
    pub allowed_commenters: Vec<String>,
}

/// The mathematical value of a [`ServerConfig`].
#[verifier::ext_equal]
pub ghost struct ConfigV {
    pub source_api_token: Seq<char>,
    pub profiling_api_token: Seq<char>,
    pub allowed_commenters: Seq<Seq<char>>,
}

impl View for ServerConfig {
    type V = ConfigV;

    open spec fn view(&self) -> ConfigV {
        ConfigV {
            source_api_token: self.source_api_token@,
            profiling_api_token: self.profiling_api_token@,
            allowed_commenters: self.allowed_commenters.deep_view(),
        }
    }
}

impl ServerConfig {
    /// Builds the configuration, lower-casing every allowed commenter.
    pub fn new(source_api_token: String, profiling_api_token: String, commenters: &Vec<String>) -> (r:
        ServerConfig)
        ensures
            r@.source_api_token == source_api_token@,
            r@.profiling_api_token == profiling_api_token@,
            r@.allowed_commenters.len() == commenters@.len(),
            forall|i: int|
                0 <= i < commenters@.len() ==> r@.allowed_commenters[i] == lower_of(
                    commenters@[i]@,
                ),
    {
        let n = commenters.len();
        let mut lowered: Vec<String> = Vec::new();
        let mut i: usize = 0;
        while i < n
            invariant
                n == commenters@.len(),
                i <= n,
                lowered@.len() == i as int,
                forall|k: int|
                    0 <= k < i as int ==> #[trigger] lowered@[k]@ == lower_of(commenters@[k]@),
            decreases n - i,
        {
            lowered.push(to_lowercase(commenters[i].as_str()));
            i = i + 1;
        }
        let r = ServerConfig {
            source_api_token,
            profiling_api_token,
            allowed_commenters: lowered,
        };
        proof {
            assert(forall|k: int|
                0 <= k < n as int ==> #[trigger] r@.allowed_commenters[k] == lowered@[k]@);
        }
        r
    }
}

/// The allow-list carried by the configuration file's bytes: the elements
/// of a JSON array of strings; empty (deny all) on anything else.
pub open spec fn allow_list_spec(b: Seq<u8>) -> Seq<Seq<char>> {
    match json_parse(b) {
        Some(j) => match string_array_of(j) {
            Some(ss) => ss,
            None => Seq::<Seq<char>>::empty(),
        },
        None => Seq::<Seq<char>>::empty(),
    }
}

/// Reads the allow-list out of the configuration file's bytes. A missing
/// file is an empty byte string, which parses to nothing and so denies
/// all.
pub fn allow_list_from_bytes(b: &[u8]) -> (r: Vec<String>)
    ensures
        r.deep_view() == allow_list_spec(b@),
{
    let empty: Vec<String> = Vec::new();
    proof {
        assert(empty.deep_view() =~= Seq::<Seq<char>>::empty());
    }
    match parse_json(b) {
        Some(j) => match j.string_array() {
            Some(v) => v,
            None => empty,
        },
        None => empty,
    }
}

/// Whether the trigger is admitted: the command is exactly the trigger
/// keyword, and the commenter, lower-cased, is on the allow-list.
pub open spec fn authorized_spec(cfg: ConfigV, t: TriggerV) -> bool {
    t.command_text == "profile"@ && cfg.allowed_commenters.contains(lower_of(t.commenter_id))
}

/// Decides whether the trigger is admitted.
pub fn authorized(cfg: &ServerConfig, t: &PullRequestTrigger) -> (r: bool)
    ensures
        r == authorized_spec(cfg@, t@),
{
    let keyword: String = "profile".to_owned();
    if !(t.command_text == keyword) {
        return false;
    }
    let lowered = to_lowercase(t.commenter_id.as_str());
    let n = cfg.allowed_commenters.len();
    let mut i: usize = 0;
    while i < n
        invariant
            n == cfg.allowed_commenters@.len(),
            i <= n,
            t@.command_text == "profile"@,
            lowered@ == lower_of(t@.commenter_id),
            forall|k: int|
                0 <= k < i as int ==> cfg@.allowed_commenters[k] != lower_of(t@.commenter_id),
        decreases n - i,
    {
        if cfg.allowed_commenters[i] == lowered {
            proof {
                assert(cfg@.allowed_commenters[i as int] == lower_of(t@.commenter_id));
                assert(cfg@.allowed_commenters.contains(lower_of(t@.commenter_id)));
            }
            return true;
        }
        i = i + 1;
    }
    proof {
        assert(!cfg@.allowed_commenters.contains(lower_of(t@.commenter_id)));
    }
    false
}

} // verus!

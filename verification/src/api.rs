use crate::error::Error;
use crate::text::{
    chars_of, decimal, has_prefix, parse_u64_chars, parsed_u64, push_decimal, push_str,
    slice_chars, starts_with_chars, string_of,
};
use crate::types::{clone_opt, opt_text, ComponentType, DownloadLink, DownloadLinkView};
use vstd::prelude::*;

verus! {

/// The address of the catalog.
pub const DEFAULT_BASE_URL: &'static str = "https://api.kde-look.org/ocs/v1";

/// The number of entries on a catalog page.
pub const DEFAULT_PAGE_SIZE: u8 = 100;

/// How often a request is tried before it is given up.
pub const DEFAULT_MAX_RETRIES: u8 = 3;

/// How long to wait before the second try, in milliseconds.
pub const DEFAULT_INITIAL_BACKOFF_MS: u8 = 100;

/// How long to wait for a connection, in seconds.
pub const CONNECT_TIMEOUT_SECS: u64 = 5;

/// How long to wait for an answer, in seconds.
pub const REQUEST_TIMEOUT_SECS: u64 = 60;

/// The largest number of download slots of a catalog entry.
pub const MAX_DOWNLOAD_LINKS: usize = 64;

/// The name under which requests are made.
pub const USER_AGENT: &'static str = "plasmoid-updater/0.1.0";

/// How the catalog is asked.
#[derive(Debug)]
pub struct ApiConfig {
    pub base_url: &'static str,
    pub page_size: u8,
    pub max_retries: u8,
    pub initial_backoff_ms: u8,
}

impl ApiConfig {
    /// The settings for the public catalog.
    pub fn new() -> (r: Self)
        ensures
            r.base_url@ == DEFAULT_BASE_URL@,
            r.page_size == 100,
            r.max_retries == 3,
            r.initial_backoff_ms == 100,
    {
        ApiConfig {
            base_url: DEFAULT_BASE_URL,
            page_size: DEFAULT_PAGE_SIZE,
            max_retries: DEFAULT_MAX_RETRIES,
            initial_backoff_ms: DEFAULT_INITIAL_BACKOFF_MS,
        }
    }
}

impl Default for ApiConfig {
    fn default() -> (r: Self)
        ensures
            r.base_url@ == DEFAULT_BASE_URL@,
            r.page_size == 100,
            r.max_retries == 3,
            r.initial_backoff_ms == 100,
    {
        ApiConfig::new()
    }
}

/// The status that the catalog reports with an answer.
#[derive(Clone, Copy, Debug, PartialEq, Eq, Structural)]
pub enum StatusCode {
    /// The request succeeded (100).
    Success,
    /// The request succeeded, as older catalogs report it (0).
    OkLegacy,
    /// Too many requests (200).
    RateLimited,
    /// Any other code.
    Unknown(u16),
}

impl StatusCode {
    /// The status that a number stands for.
    pub open spec fn of(code: u16) -> StatusCode {
        if code == 100 {
            StatusCode::Success
        } else if code == 0 {
            StatusCode::OkLegacy
        } else if code == 200 {
            StatusCode::RateLimited
        } else {
            StatusCode::Unknown(code)
        }
    }

    /// The number that stands for a status.
    pub open spec fn number(self) -> u16 {
        match self {
            StatusCode::Success => 100,
            StatusCode::OkLegacy => 0,
            StatusCode::RateLimited => 200,
            StatusCode::Unknown(code) => code,
        }
    }

    /// The status that a number stands for.
    pub fn from_code(code: u16) -> (r: Self)
        ensures
            r == Self::of(code),
    {
        if code == 100 {
            StatusCode::Success
        } else if code == 0 {
            StatusCode::OkLegacy
        } else if code == 200 {
            StatusCode::RateLimited
        } else {
            StatusCode::Unknown(code)
        }
    }

    pub fn is_success(self) -> (r: bool)
        ensures
            r == (self == StatusCode::Success || self == StatusCode::OkLegacy),
    {
        match self {
            StatusCode::Success => true,
            StatusCode::OkLegacy => true,
            _ => false,
        }
    }

    pub fn is_rate_limited(self) -> (r: bool)
        ensures
            r == (self == StatusCode::RateLimited),
    {
        match self {
            StatusCode::RateLimited => true,
            _ => false,
        }
    }

    pub fn as_u16(self) -> (r: u16)
        ensures
            r == self.number(),
    {
        match self {
            StatusCode::Success => 100,
            StatusCode::OkLegacy => 0,
            StatusCode::RateLimited => 200,
            StatusCode::Unknown(code) => code,
        }
    }
}

/// A status read from a number stands for that number again.
pub proof fn status_keeps_its_number(code: u16)
    ensures
        StatusCode::of(code).number() == code,
{
}

/// What the catalog says of an answer as a whole.
#[derive(Clone, Copy, Debug)]
pub struct Meta {
    pub status_code: StatusCode,
    /// The number of entries that match the request, over all pages.
    pub total_items: u32,
}

/// What the catalog says of an answer as a whole, with the status as a number.
#[derive(Clone, Copy, Debug)]
pub struct OcsMeta {
    pub status_code: u16,
    pub total_items: u32,
}

/// The slot that a numbered field names: the field's name is the prefix
/// followed by a number from 1 to 64, and the slot is one less.
pub open spec fn download_slot(key: Seq<char>, prefix: Seq<char>) -> Option<nat> {
    if has_prefix(key, prefix) {
        match parsed_u64(key.skip(prefix.len() as int)) {
            Some(n) => if 1 <= n <= 64 {
                Some((n - 1) as nat)
            } else {
                None
            },
            None => None,
        }
    } else {
        None
    }
}

/// Reads the slot that a numbered field names.
pub fn parse_download_index(key: &str, prefix: &str) -> (r: Option<usize>)
    ensures
        r is Some == download_slot(key@, prefix@) is Some,
        r matches Some(i) ==> download_slot(key@, prefix@) == Some(i as nat) && i < 64,
{
    let k = chars_of(key);
    let p = chars_of(prefix);
    if !starts_with_chars(&k, &p) {
        return None;
    }
    let suffix = slice_chars(&k, p.len(), k.len());
    proof {
        assert(suffix@ =~= k@.skip(p.len() as int));
    }
    match parse_u64_chars(&suffix) {
        Some(n) => {
            if 1 <= n && n <= 64 {
                Some((n - 1) as usize)
            } else {
                None
            }
        },
        None => None,
    }
}

/// The parts of one download slot, as far as the catalog gave them.
#[derive(Debug)]
pub struct DownloadParts {
    pub url: Option<String>,
    pub version: Option<String>,
    pub checksum: Option<String>,
    pub size_kb: Option<u64>,
}

/// The mathematical value of [`DownloadParts`].
pub struct DownloadPartsView {
    pub url: Option<Seq<char>>,
    pub version: Option<Seq<char>>,
    pub checksum: Option<Seq<char>>,
    pub size_kb: Option<u64>,
}

impl View for DownloadParts {
    type V = DownloadPartsView;

    open spec fn view(&self) -> DownloadPartsView {
        DownloadPartsView {
            url: opt_text(self.url),
            version: opt_text(self.version),
            checksum: opt_text(self.checksum),
            size_kb: self.size_kb,
        }
    }
}

/// A slot without parts.
pub open spec fn no_parts() -> DownloadPartsView {
    DownloadPartsView { url: None, version: None, checksum: None, size_kb: None }
}

/// The download link of a slot: none where the slot has no address or an
/// empty one. A missing version counts as empty, an empty checksum as none.
pub open spec fn link_of(p: DownloadPartsView) -> Option<DownloadLinkView> {
    match p.url {
        Some(url) => if url.len() == 0 {
            None
        } else {
            Some(
                DownloadLinkView {
                    url,
                    version: match p.version {
                        Some(v) => v,
                        None => Seq::empty(),
                    },
                    checksum: match p.checksum {
                        Some(c) => if c.len() == 0 {
                            None
                        } else {
                            Some(c)
                        },
                        None => None,
                    },
                    size_kb: p.size_kb,
                },
            )
        },
        None => None,
    }
}

impl DownloadParts {
    /// A slot without parts.
    pub fn empty() -> (r: Self)
        ensures
            r@ == no_parts(),
    {
        DownloadParts { url: None, version: None, checksum: None, size_kb: None }
    }

    /// The download link of the slot.
    pub fn into_link(self) -> (r: Option<DownloadLink>)
        ensures
            r is Some == link_of(self@) is Some,
            r matches Some(l) ==> link_of(self@) == Some(l@),
    {
        match self.url {
            Some(url) => {
                if url.as_str().unicode_len() == 0 {
                    None
                } else {
                    let version = match self.version {
                        Some(v) => v,
                        None => String::new(),
                    };
                    let checksum = match self.checksum {
                        Some(c) => if c.as_str().unicode_len() == 0 {
                            None
                        } else {
                            Some(c)
                        },
                        None => None,
                    };
                    Some(DownloadLink { url, version, checksum, size_kb: self.size_kb })
                }
            },
            None => None,
        }
    }
}

/// The category ids of the kinds, joined by `x`.
pub open spec fn category_text(kinds: Seq<ComponentType>) -> Seq<char>
    decreases kinds.len(),
{
    if kinds.len() == 0 {
        Seq::empty()
    } else if kinds.len() == 1 {
        decimal(kinds[0].category() as nat)
    } else {
        category_text(kinds.drop_last()) + seq!['x'] + decimal(kinds.last().category() as nat)
    }
}

/// Builds the category parameter of a catalog request.
pub fn build_category_string(types: &Vec<ComponentType>) -> (r: String)
    ensures
        r@ == category_text(types@),
{
    let mut out: Vec<char> = Vec::new();
    let mut i: usize = 0;
    proof {
        assert(types@.take(0) =~= Seq::<ComponentType>::empty());
    }
    while i < types.len()
        invariant
            i <= types.len(),
            out@ == category_text(types@.take(i as int)),
        decreases types.len() - i,
    {
        proof {
            assert(types@.take(i as int + 1).drop_last() =~= types@.take(i as int));
            assert(types@.take(i as int + 1).last() == types@[i as int]);
            assert(types@.take(i as int + 1)[0] == types@[0]);
        }
        if i > 0 {
            out.push('x');
        }
        push_decimal(&mut out, types[i].category_id() as u64);
        proof {
            assert(out@ =~= category_text(types@.take(i as int + 1)));
        }
        i += 1;
    }
    proof {
        assert(types@.take(i as int) =~= types@);
    }
    string_of(&out)
}

/// The address of a catalog page.
pub open spec fn page_address(
    base_url: Seq<char>,
    categories: Seq<char>,
    page: u32,
    page_size: u8,
) -> Seq<char> {
    base_url + "/content/data?categories="@ + categories + "&page="@ + decimal(page as nat)
        + "&pagesize="@ + decimal(page_size as nat) + "&sort=new"@
}

/// The address of a catalog page.
pub fn page_url(base_url: &str, categories: &str, page: u32, page_size: u8) -> (r: String)
    ensures
        r@ == page_address(base_url@, categories@, page, page_size),
{
    let mut out = chars_of(base_url);
    push_str(&mut out, "/content/data?categories=");
    push_str(&mut out, categories);
    push_str(&mut out, "&page=");
    push_decimal(&mut out, page as u64);
    push_str(&mut out, "&pagesize=");
    push_decimal(&mut out, page_size as u64);
    push_str(&mut out, "&sort=new");
    string_of(&out)
}

/// The address of one catalog entry.
pub open spec fn content_address(base_url: Seq<char>, content_id: u64) -> Seq<char> {
    base_url + "/content/data/"@ + decimal(content_id as nat)
}

/// The address of one catalog entry.
pub fn content_url(base_url: &str, content_id: u64) -> (r: String)
    ensures
        r@ == content_address(base_url@, content_id),
{
    let mut out = chars_of(base_url);
    push_str(&mut out, "/content/data/");
    push_decimal(&mut out, content_id);
    string_of(&out)
}

/// How far the tries of one request have come.
#[derive(Clone, Copy, Debug)]
pub struct RetryState {
    /// The number of tries that have failed.
    pub failed: u8,
    /// How long to wait before the next try, in milliseconds.
    pub backoff_ms: u64,
}

/// What to do after a try of a request.
#[derive(Debug)]
pub enum RetryDecision<T> {
    /// Give the outcome to the caller.
    Finish(Result<T, Error>),
    /// Wait for the given number of milliseconds, then try again from the given state.
    Retry { wait_ms: u64, next: RetryState },
}

/// Twice a waiting time, held at the largest number that fits.
pub open spec fn doubled(ms: u64) -> u64 {
    if ms * 2 <= u64::MAX {
        (ms * 2) as u64
    } else {
        u64::MAX
    }
}

/// Whether a failed try is followed by another: the error may go away, and
/// fewer tries than allowed have been made.
pub open spec fn tries_again(state: RetryState, max_retries: u8, e: Error) -> bool {
    e.transient() && state.failed + 1 < max_retries
}

/// The state before the first try.
pub fn retry_start(config: &ApiConfig) -> (r: RetryState)
    ensures
        r.failed == 0,
        r.backoff_ms == config.initial_backoff_ms,
{
    RetryState { failed: 0, backoff_ms: config.initial_backoff_ms as u64 }
}

/// Decides what follows a try of a request.
///
/// Success is handed on at once. A rate limit or a network failure is tried
/// again after the waiting time, which doubles with every try, as long as
/// tries are left; the last such error is handed on. Any other error is
/// handed on at once.
pub fn retry_step<T>(state: RetryState, config: &ApiConfig, outcome: Result<T, Error>) -> (r:
    RetryDecision<T>)
    ensures
        match outcome {
            Ok(v) => r == RetryDecision::Finish(Ok::<T, Error>(v)),
            Err(e) => if tries_again(state, config.max_retries, e) {
                r == (RetryDecision::<T>::Retry {
                    wait_ms: state.backoff_ms,
                    next: RetryState {
                        failed: (state.failed + 1) as u8,
                        backoff_ms: doubled(state.backoff_ms),
                    },
                })
            } else {
                r == RetryDecision::Finish(Err::<T, Error>(e))
            },
        },
{
    match outcome {
        Ok(v) => RetryDecision::Finish(Ok(v)),
        Err(e) => {
            if e.is_transient() && state.failed < 254 && state.failed + 1 < config.max_retries {
                let next_backoff = if state.backoff_ms > u64::MAX / 2 {
                    u64::MAX
                } else {
                    state.backoff_ms * 2
                };
                RetryDecision::Retry {
                    wait_ms: state.backoff_ms,
                    next: RetryState { failed: state.failed + 1, backoff_ms: next_backoff },
                }
            } else {
                RetryDecision::Finish(Err(e))
            }
        },
    }
}

/// The error for a request of which no try was allowed.
pub fn retries_exhausted() -> (e: Error)
    ensures
        e matches Error::Other(m) && m@ == "max retries exceeded"@,
{
    Error::other("max retries exceeded")
}

/// After as many failed tries as are allowed, of which each but the last
/// was tried again, the error of the last try is handed on, whatever it is.
pub proof fn last_error_is_surfaced(state: RetryState, max_retries: u8, e: Error)
    requires
        state.failed + 1 >= max_retries,
    ensures
        !tries_again(state, max_retries, e),
{
}

} // verus!

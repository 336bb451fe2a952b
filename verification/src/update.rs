//! The decisions of checking for, fetching and installing an update.
//!
//! The program fetches the feed and the API answer, downloads, writes
//! files and shows dialogs; each time it hands what came back to the
//! functions here, which say what it means and what to do next.
//!
//! The check goes by the Atom feed first: GitHub limits unauthenticated
//! API calls to 60 an hour per IP address, which a shared office line can
//! use up, and the feed does not count against that limit. The API is
//! asked only when the feed shows a newer version (for the download URL
//! and the SHA-256 digest); if it fails then, the download URL is built by
//! rule and the digest check is skipped.

use sha2::{Digest, Sha256};
use vstd::prelude::*;
use vstd::utf8::{decode_utf8, valid_utf8};

use crate::atom_feed::{extract_latest_tag_from_atom, latest_tag};
use crate::config::UpdateSettings;
use crate::http::{http_message, HttpError, HttpErrorView};
use crate::text::{
    chars_of, eq_ignore_case, eq_ignore_case_exec, lower_exec, lower_seq, push_char, string_of,
    strip_prefix, strip_prefix_exec, strip_suffix, strip_suffix_exec, trim, trim_exec,
};
use crate::update_logic::{
    allowed_download_url, atom_url_for, build_download_url, build_release_page_url, download_url_for,
    is_allowed_download_url, release_page_url_for, string_from_utf8,
};
use crate::version::{parse_version, version_lt, version_text, Version};

verus! {

// ---------------------------------------------------------------------------
// Types
// ---------------------------------------------------------------------------

/// A release as the GitHub Releases API describes it (the fields used).
pub struct Release {
    pub tag_name: String,
    pub html_url: String,
    pub assets: Vec<Asset>,
}

/// A file attached to a release.
pub struct Asset {
    pub name: String,
    pub browser_download_url: String,
    /// `sha256:...`; GitHub does not always give it.
    pub digest: Option<String>,
}

/// An update that was found.
#[derive(Debug, Clone)]
pub struct Available {
    pub version: Version,
    pub download_url: String,
    /// Lower-case hexadecimal SHA-256 of the file, when known.
    pub sha256: Option<String>,
    pub page_url: String,
}

/// Why the check failed. HTTP 403 (the API's rate limit) is told apart:
/// the user did nothing wrong, so the dialog says something else.
#[derive(Debug)]
pub enum CheckError {
    /// The server answered HTTP 403.
    RateLimited,
    /// Any other failure (no connection, an unreadable answer, ...).
    Other(String),
}

/// What the Atom feed said.
pub enum AtomVerdict {
    /// The newest release is not newer than this build: no API call needed.
    UpToDate,
    /// The newest release is newer: its version and tag.
    Newer(Version, String),
    /// The feed could not be read; the API decides.
    Unreadable,
}

// ---------------------------------------------------------------------------
// Views
// ---------------------------------------------------------------------------

pub struct AssetView {
    pub name: Seq<char>,
    pub url: Seq<char>,
    pub digest: Option<Seq<char>>,
}

pub struct ReleaseView {
    pub tag_name: Seq<char>,
    pub html_url: Seq<char>,
    pub assets: Seq<AssetView>,
}

pub struct AvailableView {
    pub version: Version,
    pub download_url: Seq<char>,
    pub sha256: Option<Seq<char>>,
    pub page_url: Seq<char>,
}

pub enum CheckErrorView {
    RateLimited,
    Other(Seq<char>),
}

pub enum AtomVerdictView {
    UpToDate,
    Newer(Version, Seq<char>),
    Unreadable,
}

pub open spec fn opt_view(o: Option<String>) -> Option<Seq<char>> {
    match o {
        Some(s) => Some(s@),
        None => None,
    }
}

impl View for Asset {
    type V = AssetView;

    open spec fn view(&self) -> AssetView {
        AssetView { name: self.name@, url: self.browser_download_url@, digest: opt_view(self.digest) }
    }
}

impl View for Release {
    type V = ReleaseView;

    open spec fn view(&self) -> ReleaseView {
        ReleaseView {
            tag_name: self.tag_name@,
            html_url: self.html_url@,
            assets: self.assets@.map_values(|a: Asset| a@),
        }
    }
}

impl View for Available {
    type V = AvailableView;

    open spec fn view(&self) -> AvailableView {
        AvailableView {
            version: self.version,
            download_url: self.download_url@,
            sha256: opt_view(self.sha256),
            page_url: self.page_url@,
        }
    }
}

impl View for CheckError {
    type V = CheckErrorView;

    open spec fn view(&self) -> CheckErrorView {
        match self {
            CheckError::RateLimited => CheckErrorView::RateLimited,
            CheckError::Other(m) => CheckErrorView::Other(m@),
        }
    }
}

impl View for AtomVerdict {
    type V = AtomVerdictView;

    open spec fn view(&self) -> AtomVerdictView {
        match self {
            AtomVerdict::UpToDate => AtomVerdictView::UpToDate,
            AtomVerdict::Newer(v, t) => AtomVerdictView::Newer(*v, t@),
            AtomVerdict::Unreadable => AtomVerdictView::Unreadable,
        }
    }
}

/// The outcome of a check, with texts as character sequences.
pub open spec fn outcome_view(r: Result<Option<Available>, CheckError>) -> Result<
    Option<AvailableView>,
    CheckErrorView,
> {
    match r {
        Ok(Some(a)) => Ok(Some(a@)),
        Ok(None) => Ok(None),
        Err(e) => Err(e@),
    }
}

// ---------------------------------------------------------------------------
// Specification of the check
// ---------------------------------------------------------------------------

/// The message of a failed check.
pub open spec fn check_error_message(e: CheckErrorView) -> Seq<char> {
    match e {
        CheckErrorView::RateLimited => "サーバーが HTTP 403 を返しました"@,
        CheckErrorView::Other(m) => m,
    }
}

/// A failed GET as a failed check: HTTP 403 is the rate limit.
pub open spec fn check_error_of(e: HttpErrorView) -> CheckErrorView {
    if e == HttpErrorView::Status(403) {
        CheckErrorView::RateLimited
    } else {
        CheckErrorView::Other(http_message(e))
    }
}

/// What the feed's bytes say about `current`.
pub open spec fn atom_verdict_of(current: Version, body: Seq<u8>) -> AtomVerdictView {
    if !valid_utf8(body) {
        AtomVerdictView::Unreadable
    } else {
        match latest_tag(decode_utf8(body)) {
            None => AtomVerdictView::Unreadable,
            Some(tag) => match parse_version(tag) {
                None => AtomVerdictView::Unreadable,
                Some(v) => if version_lt(current, v) {
                    AtomVerdictView::Newer(v, tag)
                } else {
                    AtomVerdictView::UpToDate
                },
            },
        }
    }
}

/// The index of the first asset named `name` (in any case), from `i` on.
pub open spec fn asset_index_from(assets: Seq<AssetView>, name: Seq<char>, i: int) -> Option<int>
    decreases assets.len() - i,
{
    if i < 0 || i >= assets.len() {
        None
    } else if eq_ignore_case(assets[i].name, name) {
        Some(i)
    } else {
        asset_index_from(assets, name, i + 1)
    }
}

/// The hexadecimal SHA-256 that a `sha256:...` digest names, trimmed and
/// in lower case; another kind of digest names none.
pub open spec fn digest_hex(digest: Option<Seq<char>>) -> Option<Seq<char>> {
    match digest {
        Some(d) => match strip_prefix(d, "sha256:"@) {
            Some(h) => Some(lower_seq(trim(h))),
            None => None,
        },
        None => None,
    }
}

/// What the API's answer says about `current`.
pub open spec fn release_verdict_of(
    current: Version,
    rel: ReleaseView,
    asset_name: Seq<char>,
    releases_page: Seq<char>,
) -> Result<Option<AvailableView>, CheckErrorView> {
    match parse_version(rel.tag_name) {
        None => Err(CheckErrorView::Other("バージョンを解釈できません: "@ + rel.tag_name)),
        Some(latest) => if !version_lt(current, latest) {
            Ok(None)
        } else {
            match asset_index_from(rel.assets, asset_name, 0) {
                None => Err(
                    CheckErrorView::Other(
                        "リリース "@ + rel.tag_name + " に "@ + asset_name + " が添付されていません"@,
                    ),
                ),
                Some(i) => Ok(
                    Some(
                        AvailableView {
                            version: latest,
                            download_url: rel.assets[i].url,
                            sha256: digest_hex(rel.assets[i].digest),
                            page_url: if rel.html_url.len() == 0 {
                                releases_page
                            } else {
                                rel.html_url
                            },
                        },
                    ),
                ),
            }
        },
    }
}

/// What a failed API call leaves: with a newer version known from the
/// feed, an update whose download URL is built by rule (no digest);
/// otherwise the failure.
pub open spec fn fallback_of(
    known_newer: Option<(Version, Seq<char>)>,
    atom_url: Option<Seq<char>>,
    asset_name: Seq<char>,
    releases_page: Seq<char>,
    err: HttpErrorView,
) -> Result<Option<AvailableView>, CheckErrorView> {
    match (known_newer, atom_url) {
        (Some(k), Some(a)) => match download_url_for(a, k.1, asset_name) {
            Some(u) => Ok(
                Some(
                    AvailableView {
                        version: k.0,
                        download_url: u,
                        sha256: None,
                        page_url: match release_page_url_for(a, k.1) {
                            Some(p) => p,
                            None => releases_page,
                        },
                    },
                ),
            ),
            None => Err(check_error_of(err)),
        },
        _ => Err(check_error_of(err)),
    }
}

// ---------------------------------------------------------------------------
// The check
// ---------------------------------------------------------------------------

impl CheckError {
    /// A failed GET as a failed check.
    pub fn from_http_error(e: HttpError) -> (r: CheckError)
        ensures
            r@ == check_error_of(e@),
    {
        if e.is_forbidden() {
            CheckError::RateLimited
        } else {
            CheckError::Other(e.message())
        }
    }

    /// The message of the failure.
    pub fn message(&self) -> (r: String)
        ensures
            r@ == check_error_message(self@),
    {
        match self {
            CheckError::RateLimited => "サーバーが HTTP 403 を返しました".to_owned(),
            CheckError::Other(m) => m.clone(),
        }
    }
}

/// Reads the Atom feed's answer: is this build up to date, is a newer
/// version out, or does the feed say nothing.
pub fn atom_verdict(current: &Version, body: Vec<u8>) -> (r: AtomVerdict)
    ensures
        r@ == atom_verdict_of(*current, body@),
{
    let xml = match string_from_utf8(body) {
        Some(x) => x,
        None => return AtomVerdict::Unreadable,
    };
    let tag = match extract_latest_tag_from_atom(xml.as_str()) {
        Some(t) => t,
        None => return AtomVerdict::Unreadable,
    };
    match Version::parse(tag.as_str()) {
        Some(version) => {
            if version.is_newer_than(current) {
                AtomVerdict::Newer(version, tag)
            } else {
                AtomVerdict::UpToDate
            }
        },
        None => AtomVerdict::Unreadable,
    }
}

/// The hexadecimal SHA-256 named by an asset's digest.
fn digest_hex_exec(digest: &Option<String>) -> (r: Option<String>)
    ensures
        opt_view(r) == digest_hex(opt_view(*digest)),
{
    match digest {
        Some(d) => {
            let chars = chars_of(d.as_str());
            let prefix = chars_of("sha256:");
            match strip_prefix_exec(&chars, &prefix) {
                Some(h) => {
                    let t = trim_exec(&h);
                    let l = lower_exec(&t);
                    Some(string_of(&l))
                },
                None => None,
            }
        },
        None => None,
    }
}

/// Reads the API's answer about the newest release: up to date, the update
/// (the asset named in the settings, in any case), or why not.
pub fn release_verdict(current: &Version, release: &Release, settings: &UpdateSettings) -> (r:
    Result<Option<Available>, CheckError>)
    ensures
        outcome_view(r) == release_verdict_of(
            *current,
            release@,
            settings.asset_name@,
            settings.releases_page@,
        ),
{
    let latest = match Version::parse(release.tag_name.as_str()) {
        Some(v) => v,
        None => {
            let mut m = "バージョンを解釈できません: ".to_owned();
            m.append(release.tag_name.as_str());
            return Err(CheckError::Other(m));
        },
    };
    if !latest.is_newer_than(current) {
        return Ok(None);
    }
    let wanted = chars_of(settings.asset_name.as_str());
    let ghost assets = release@.assets;
    let mut i: usize = 0;
    while i < release.assets.len()
        invariant
            i <= release.assets@.len(),
            assets == release@.assets,
            wanted@ == settings.asset_name@,
            parse_version(release@.tag_name) == Some(latest),
            version_lt(*current, latest),
            asset_index_from(assets, wanted@, 0) == asset_index_from(assets, wanted@, i as int),
        decreases release.assets.len() - i,
    {
        let asset = &release.assets[i];
        assert(assets[i as int] == asset@);
        let name = chars_of(asset.name.as_str());
        if eq_ignore_case_exec(&name, &wanted) {
            let sha256 = digest_hex_exec(&asset.digest);
            let page_url = if release.html_url.as_str().is_empty() {
                settings.releases_page.clone()
            } else {
                release.html_url.clone()
            };
            let found = Available {
                version: latest,
                download_url: asset.browser_download_url.clone(),
                sha256: sha256,
                page_url: page_url,
            };
            return Ok(Some(found));
        }
        i += 1;
    }
    let mut m = "リリース ".to_owned();
    m.append(release.tag_name.as_str());
    m.append(" に ");
    m.append(settings.asset_name.as_str());
    m.append(" が添付されていません");
    Err(CheckError::Other(m))
}

/// What is left when the API call failed: if the feed showed a newer
/// version, the update with a download URL built by rule and no digest;
/// otherwise the failure (HTTP 403 as [`CheckError::RateLimited`]).
pub fn fallback_after_api_error(
    known_newer: &Option<(Version, String)>,
    atom_url: &Option<String>,
    settings: &UpdateSettings,
    error: HttpError,
) -> (r: Result<Option<Available>, CheckError>)
    ensures
        outcome_view(r) == fallback_of(
            match known_newer {
                Some(k) => Some((k.0, k.1@)),
                None => None,
            },
            opt_view(*atom_url),
            settings.asset_name@,
            settings.releases_page@,
            error@,
        ),
{
    if let (Some((version, tag)), Some(atom_url)) = (known_newer, atom_url) {
        if let Some(download_url) = build_download_url(
            atom_url.as_str(),
            tag.as_str(),
            settings.asset_name.as_str(),
        ) {
            let page_url = match build_release_page_url(atom_url.as_str(), tag.as_str()) {
                Some(p) => p,
                None => settings.releases_page.clone(),
            };
            return Ok(
                Some(
                    Available {
                        version: *version,
                        download_url: download_url,
                        sha256: None,
                        page_url: page_url,
                    },
                ),
            );
        }
    }
    Err(CheckError::from_http_error(error))
}

// ---------------------------------------------------------------------------
// The order of the check
// ---------------------------------------------------------------------------

/// The next thing a check does.
pub enum CheckStep {
    /// Fetch the Atom feed at `atom_url` and hand the answer to
    /// [`check_after_feed`].
    FetchFeed { atom_url: String },
    /// Fetch the API's newest release and hand the answer to
    /// [`check_after_api`], with what the feed showed.
    FetchApi { atom_url: Option<String>, known_newer: Option<(Version, String)> },
    /// The check is over.
    Done(Result<Option<Available>, CheckError>),
}

pub enum CheckStepView {
    FetchFeed(Seq<char>),
    FetchApi(Option<Seq<char>>, Option<(Version, Seq<char>)>),
    Done(Result<Option<AvailableView>, CheckErrorView>),
}

pub open spec fn known_view(k: Option<(Version, String)>) -> Option<(Version, Seq<char>)> {
    match k {
        Some(p) => Some((p.0, p.1@)),
        None => None,
    }
}

impl View for CheckStep {
    type V = CheckStepView;

    open spec fn view(&self) -> CheckStepView {
        match self {
            CheckStep::FetchFeed { atom_url } => CheckStepView::FetchFeed(atom_url@),
            CheckStep::FetchApi { atom_url, known_newer } => CheckStepView::FetchApi(
                opt_view(*atom_url),
                known_view(*known_newer),
            ),
            CheckStep::Done(r) => CheckStepView::Done(outcome_view(*r)),
        }
    }
}

/// A check starts with the feed when the API URL names a GitHub
/// repository, and with the API otherwise.
pub open spec fn check_begin_of(api_url: Seq<char>) -> CheckStepView {
    match atom_url_for(api_url) {
        Some(a) => CheckStepView::FetchFeed(a),
        None => CheckStepView::FetchApi(None, None),
    }
}

/// After the feed: done when it shows nothing newer; otherwise on to the
/// API, keeping the newer version it showed.
pub open spec fn after_feed_of(current: Version, atom_url: Seq<char>, answer: Result<
    Seq<u8>,
    HttpErrorView,
>) -> CheckStepView {
    match answer {
        Err(_) => CheckStepView::FetchApi(Some(atom_url), None),
        Ok(body) => match atom_verdict_of(current, body) {
            AtomVerdictView::UpToDate => CheckStepView::Done(Ok(None)),
            AtomVerdictView::Newer(v, t) => CheckStepView::FetchApi(Some(atom_url), Some((v, t))),
            AtomVerdictView::Unreadable => CheckStepView::FetchApi(Some(atom_url), None),
        },
    }
}

/// After the API: its release decides; an answer that is no release JSON
/// is a failure; a failed call falls back on what the feed showed.
pub open spec fn after_api_of(
    current: Version,
    asset_name: Seq<char>,
    releases_page: Seq<char>,
    atom_url: Option<Seq<char>>,
    known_newer: Option<(Version, Seq<char>)>,
    answer: Result<Result<ReleaseView, Seq<char>>, HttpErrorView>,
) -> CheckStepView {
    match answer {
        Ok(Ok(rel)) => CheckStepView::Done(
            release_verdict_of(current, rel, asset_name, releases_page),
        ),
        Ok(Err(m)) => CheckStepView::Done(Err(CheckErrorView::Other("応答の解析に失敗: "@ + m))),
        Err(e) => CheckStepView::Done(
            fallback_of(known_newer, atom_url, asset_name, releases_page, e),
        ),
    }
}

/// The first step of a check.
pub fn check_begin(settings: &UpdateSettings) -> (r: CheckStep)
    ensures
        r@ == check_begin_of(settings.api_url@),
{
    match crate::update_logic::atom_url_from_api_url(settings.api_url.as_str()) {
        Some(atom_url) => CheckStep::FetchFeed { atom_url },
        None => CheckStep::FetchApi { atom_url: None, known_newer: None },
    }
}

/// The step after the feed at `atom_url` answered (or failed).
pub fn check_after_feed(current: &Version, atom_url: String, answer: Result<Vec<u8>, HttpError>) -> (r:
    CheckStep)
    ensures
        r@ == after_feed_of(
            *current,
            atom_url@,
            match answer {
                Ok(b) => Ok(b@),
                Err(e) => Err(e@),
            },
        ),
{
    match answer {
        Err(_) => CheckStep::FetchApi { atom_url: Some(atom_url), known_newer: None },
        Ok(body) => match atom_verdict(current, body) {
            AtomVerdict::UpToDate => CheckStep::Done(Ok(None)),
            AtomVerdict::Newer(v, t) => CheckStep::FetchApi {
                atom_url: Some(atom_url),
                known_newer: Some((v, t)),
            },
            AtomVerdict::Unreadable => CheckStep::FetchApi {
                atom_url: Some(atom_url),
                known_newer: None,
            },
        },
    }
}

/// The step after the API answered: `Ok(Ok(release))`, `Ok(Err(text))`
/// when the answer was no release JSON (the parser's message), or the
/// failed call.
pub fn check_after_api(
    current: &Version,
    settings: &UpdateSettings,
    atom_url: Option<String>,
    known_newer: Option<(Version, String)>,
    answer: Result<Result<Release, String>, HttpError>,
) -> (r: CheckStep)
    ensures
        r@ == after_api_of(
            *current,
            settings.asset_name@,
            settings.releases_page@,
            opt_view(atom_url),
            known_view(known_newer),
            match answer {
                Ok(Ok(rel)) => Ok(Ok(rel@)),
                Ok(Err(m)) => Ok(Err(m@)),
                Err(e) => Err(e@),
            },
        ),
{
    match answer {
        Ok(Ok(release)) => CheckStep::Done(release_verdict(current, &release, settings)),
        Ok(Err(m)) => {
            let mut text = "応答の解析に失敗: ".to_owned();
            text.append(m.as_str());
            CheckStep::Done(Err(CheckError::Other(text)))
        },
        Err(e) => CheckStep::Done(fallback_after_api_error(&known_newer, &atom_url, settings, e)),
    }
}

// ---------------------------------------------------------------------------
// Download
// ---------------------------------------------------------------------------

/// The SHA-256 digest of a byte string.
pub uninterp spec fn sha256_of(data: Seq<u8>) -> Seq<u8>;

/// `sha2::Sha256::digest` (the `Digest` trait's one-call digest): claimed to
/// return [`sha256_of`] of `data`, which is 32 bytes long. SHA-256 itself
/// is not stated; it is only named.
#[verifier::external_body]
fn sha256_digest(data: &[u8]) -> (r: Vec<u8>)
    ensures
        r@ == sha256_of(data@),
        r@.len() == 32,
{
    Sha256::digest(data).to_vec()
}

/// Lower-case hexadecimal digit of `d` (below 16).
pub open spec fn hex_lower_digit(d: u8) -> char {
    if d < 10 {
        ((d + 48) as u8) as char
    } else {
        ((d + 87) as u8) as char
    }
}

/// Lower-case hexadecimal text of a byte string, two digits a byte.
pub open spec fn hex_lower(b: Seq<u8>) -> Seq<char>
    decreases b.len(),
{
    if b.len() == 0 {
        Seq::empty()
    } else {
        hex_lower(b.drop_last()) + seq![hex_lower_digit(b.last() / 16), hex_lower_digit(b.last() % 16)]
    }
}

fn hex_lower_digit_exec(d: u8) -> (r: char)
    requires
        d < 16,
    ensures
        r == hex_lower_digit(d),
{
    if d < 10 {
        (d + 48) as char
    } else {
        (d + 87) as char
    }
}

/// Lower-case hexadecimal text of `bytes`.
pub fn hex(bytes: &[u8]) -> (r: String)
    ensures
        r@ == hex_lower(bytes@),
{
    let mut s = String::new();
    let mut k: usize = 0;
    while k < bytes.len()
        invariant
            k <= bytes@.len(),
            s@ == hex_lower(bytes@.take(k as int)),
        decreases bytes@.len() - k,
    {
        let b = bytes[k];
        assert(bytes@.take(k + 1).drop_last() == bytes@.take(k as int));
        push_char(&mut s, hex_lower_digit_exec(b / 16));
        push_char(&mut s, hex_lower_digit_exec(b % 16));
        k += 1;
    }
    assert(bytes@.take(bytes@.len() as int) == bytes@);
    s
}

/// Starts with `MZ`, the signature of a Windows executable.
pub open spec fn mz_signed(bytes: Seq<u8>) -> bool {
    bytes.len() >= 2 && bytes[0] == 77 && bytes[1] == 90
}

/// Whether `bytes` start with `MZ`: a least check that the download is an
/// executable and not, say, an HTML error page.
pub fn has_mz_signature(bytes: &[u8]) -> (r: bool)
    ensures
        r == mz_signed(bytes@),
{
    bytes.len() >= 2 && bytes[0] == 77 && bytes[1] == 90
}

/// The refusal of a download host that is not allowed.
pub open spec fn disallowed_source_text(url: Seq<char>) -> Seq<char> {
    "許可されていないダウンロード元のため中止しました: "@ + url
}

pub open spec fn not_executable_text() -> Seq<char> {
    "ダウンロードしたファイルが実行ファイルの形式ではありません。もう一度お試しください。"@
}

pub open spec fn corrupted_text() -> Seq<char> {
    "ダウンロードしたファイルが壊れている可能性があります。もう一度お試しください。"@
}

/// Before downloading: the file is fetched only from an allowed host.
pub fn check_download_source(info: &Available) -> (r: Result<(), String>)
    ensures
        r is Ok <==> allowed_download_url(info.download_url@),
        r matches Err(m) ==> m@ == disallowed_source_text(info.download_url@),
{
    if is_allowed_download_url(info.download_url.as_str()) {
        Ok(())
    } else {
        let mut m = "許可されていないダウンロード元のため中止しました: ".to_owned();
        m.append(info.download_url.as_str());
        Err(m)
    }
}

/// After downloading: the file must start with `MZ`, and where the release
/// gave a SHA-256, the file's digest must be it.
pub fn verify_downloaded(info: &Available, bytes: &[u8]) -> (r: Result<(), String>)
    ensures
        r is Ok <==> mz_signed(bytes@) && (info.sha256 matches Some(expected) ==> hex_lower(
            sha256_of(bytes@),
        ) == expected@),
        r matches Err(m) ==> m@ == (if !mz_signed(bytes@) {
            not_executable_text()
        } else {
            corrupted_text()
        }),
{
    if !has_mz_signature(bytes) {
        return Err("ダウンロードしたファイルが実行ファイルの形式ではありません。もう一度お試しください。".to_owned());
    }
    if let Some(expected) = &info.sha256 {
        let digest = sha256_digest(bytes);
        let actual = hex(digest.as_slice());
        if actual != *expected {
            return Err("ダウンロードしたファイルが壊れている可能性があります。もう一度お試しください。".to_owned());
        }
    }
    Ok(())
}

/// Download progress in percent (`0` while the size is unknown).
pub fn progress_percent(done: u64, total: Option<u64>) -> (r: u64)
    requires
        done <= u64::MAX / 100,
    ensures
        r == (match total {
            Some(t) => if t > 0 {
                ((done * 100) / (t as int)) as u64
            } else {
                0
            },
            None => 0,
        }),
{
    match total {
        Some(t) => {
            if t > 0 {
                done * 100 / t
            } else {
                0
            }
        },
        None => 0,
    }
}

// ---------------------------------------------------------------------------
// Files left behind
// ---------------------------------------------------------------------------

/// The name prefix of the update files written to the temporary folder.
pub const TEMP_PREFIX: &'static str = "Atai-paste-";

/// Age (seconds) from which a temporary update file counts as left over.
pub const TEMP_STALE_SECS: u64 = 3600;

/// The temporary file name of the download of `version`.
pub open spec fn temp_name_of(v: Version) -> Seq<char> {
    "Atai-paste-"@ + version_text(v) + ".exe"@
}

/// Whether a name is one of this program's temporary update files:
/// `Atai-paste-`, then only digits and dots (at least one), then `.exe`.
pub open spec fn is_temp_name(name: Seq<char>) -> bool {
    match strip_prefix(name, "Atai-paste-"@) {
        None => false,
        Some(rest) => match strip_suffix(rest, ".exe"@) {
            None => false,
            Some(v) => v.len() > 0 && forall|i: int|
                0 <= i < v.len() ==> ('0' <= #[trigger] v[i] <= '9' || v[i] == '.'),
        },
    }
}

/// The temporary file name of the download of `version`.
pub fn temp_file_name(version: &Version) -> (r: String)
    ensures
        r@ == temp_name_of(*version),
{
    let mut s = "Atai-paste-".to_owned();
    let v = version.to_text();
    s.append(v.as_str());
    s.append(".exe");
    s
}

/// Whether `name` is one of this program's temporary update files; named
/// strictly, so that no other file is ever deleted.
pub fn is_temp_update_file(name: &str) -> (r: bool)
    ensures
        r == is_temp_name(name@),
{
    let chars = chars_of(name);
    let prefix = chars_of("Atai-paste-");
    let rest = match strip_prefix_exec(&chars, &prefix) {
        Some(r) => r,
        None => return false,
    };
    let suffix = chars_of(".exe");
    let v = match strip_suffix_exec(&rest, &suffix) {
        Some(v) => v,
        None => return false,
    };
    if v.len() == 0 {
        return false;
    }
    let mut k: usize = 0;
    while k < v.len()
        invariant
            k <= v.len(),
            v.len() > 0,
            strip_prefix(name@, "Atai-paste-"@) == Some(rest@),
            strip_suffix(rest@, ".exe"@) == Some(v@),
            forall|i: int| 0 <= i < k ==> ('0' <= #[trigger] v@[i] <= '9' || v@[i] == '.'),
        decreases v.len() - k,
    {
        let c = v[k];
        if !(('0' <= c && c <= '9') || c == '.') {
            assert(!('0' <= v@[k as int] <= '9' || v@[k as int] == '.'));
            return false;
        }
        k += 1;
    }
    true
}

/// Whether a temporary update file is old enough to be deleted: a file
/// that another running update still writes is never touched.
pub fn is_stale_temp_file(name: &str, age_secs: Option<u64>) -> (r: bool)
    ensures
        r == (is_temp_name(name@) && (age_secs matches Some(a) && a >= TEMP_STALE_SECS)),
{
    if !is_temp_update_file(name) {
        return false;
    }
    match age_secs {
        Some(a) => a >= TEMP_STALE_SECS,
        None => false,
    }
}

/// Whether the executable must be restored: it is missing and only the
/// `.old` copy is there, so an install was cut off between its two renames.
pub fn needs_exe_restore(exe_exists: bool, old_exists: bool) -> (r: bool)
    ensures
        r == (!exe_exists && old_exists),
{
    !exe_exists && old_exists
}

/// What startup does with the `.old` copy of the executable.
#[derive(Debug, Clone, Copy, PartialEq, Eq)]
pub enum OldFileAction {
    /// Rename it back to the executable.
    Restore,
    /// Delete it (the last update went through).
    Delete,
    /// Nothing is there.
    Nothing,
}

/// What startup does with the `.old` copy.
pub fn old_file_action(exe_exists: bool, old_exists: bool) -> (r: OldFileAction)
    ensures
        r == (if !exe_exists && old_exists {
            OldFileAction::Restore
        } else if old_exists {
            OldFileAction::Delete
        } else {
            OldFileAction::Nothing
        }),
{
    if needs_exe_restore(exe_exists, old_exists) {
        OldFileAction::Restore
    } else if old_exists {
        OldFileAction::Delete
    } else {
        OldFileAction::Nothing
    }
}

// ---------------------------------------------------------------------------
// What the user is told
// ---------------------------------------------------------------------------

/// A dialog to show, or none.
pub enum Notice {
    /// Show nothing (only the log is written).
    Silent,
    /// An information box.
    Info(String),
    /// An error box.
    Error(String),
    /// A yes/no question: install the update now?
    AskToUpdate(String),
}

pub enum NoticeView {
    Silent,
    Info(Seq<char>),
    Error(Seq<char>),
    AskToUpdate(Seq<char>),
}

impl View for Notice {
    type V = NoticeView;

    open spec fn view(&self) -> NoticeView {
        match self {
            Notice::Silent => NoticeView::Silent,
            Notice::Info(s) => NoticeView::Info(s@),
            Notice::Error(s) => NoticeView::Error(s@),
            Notice::AskToUpdate(s) => NoticeView::AskToUpdate(s@),
        }
    }
}

/// A plain summary with the underlying message under it.
pub open spec fn detailed(summary: Seq<char>, detail: Seq<char>) -> Seq<char> {
    summary + "\n\n詳細: "@ + detail
}

/// The summary of a failed check: the rate limit is explained apart,
/// since it is shared by everyone on the same network.
pub open spec fn failure_summary(e: CheckErrorView, releases_page: Seq<char>) -> Seq<char> {
    match e {
        CheckErrorView::RateLimited => "配布元への問い合わせが、回数の上限に達していました。この上限は同じネットワークを使う人たちで共有されるため、自分が何度も押していなくても起こります。しばらく時間をおくか、リリースページから直接ご確認ください。\n\nリリースページ:\n"@ + releases_page,
        CheckErrorView::Other(_) => "更新を確認できませんでした。インターネットに接続できないか、GitHub が混み合っている可能性があります。\n\nこのページから最新版を確認することもできます。\n"@ + releases_page,
    }
}

pub open spec fn up_to_date_text(current: Version) -> Seq<char> {
    "お使いのバージョン "@ + version_text(current) + " が最新です。"@
}

pub open spec fn update_question(found: Version, current: Version) -> Seq<char> {
    "新しいバージョン "@ + version_text(found) + " があります（現在 "@ + version_text(current)
        + "）。\n\n今すぐ更新しますか？\n更新後、アプリは自動で再起動します。"@
}

/// What the user is told after a check. A check from the menu (`manual`)
/// reports every outcome; the check at startup only asks when an update
/// was found and is otherwise silent.
pub open spec fn notice_of(
    manual: bool,
    outcome: Result<Option<AvailableView>, CheckErrorView>,
    releases_page: Seq<char>,
    current: Version,
) -> NoticeView {
    match outcome {
        Err(e) => if manual {
            NoticeView::Error(detailed(failure_summary(e, releases_page), check_error_message(e)))
        } else {
            NoticeView::Silent
        },
        Ok(None) => if manual {
            NoticeView::Info(up_to_date_text(current))
        } else {
            NoticeView::Silent
        },
        Ok(Some(a)) => NoticeView::AskToUpdate(update_question(a.version, current)),
    }
}

/// `summary`, a blank line, and `詳細: detail`: serde and WinHTTP messages
/// mean little to a user, so a plain sentence comes first and the message
/// stays below it for tracing the cause.
pub fn with_detail(summary: &str, detail: &str) -> (r: String)
    ensures
        r@ == detailed(summary@, detail@),
{
    let mut s = summary.to_owned();
    s.append("\n\n詳細: ");
    s.append(detail);
    s
}

/// What the user is told after a check.
pub fn notice_after_check(
    manual: bool,
    outcome: &Result<Option<Available>, CheckError>,
    releases_page: &str,
    current: &Version,
) -> (r: Notice)
    ensures
        r@ == notice_of(manual, outcome_view(*outcome), releases_page@, *current),
{
    match outcome {
        Err(e) => {
            if manual {
                let mut summary = match e {
                    CheckError::RateLimited => "配布元への問い合わせが、回数の上限に達していました。この上限は同じネットワークを使う人たちで共有されるため、自分が何度も押していなくても起こります。しばらく時間をおくか、リリースページから直接ご確認ください。\n\nリリースページ:\n".to_owned(),
                    CheckError::Other(_) => "更新を確認できませんでした。インターネットに接続できないか、GitHub が混み合っている可能性があります。\n\nこのページから最新版を確認することもできます。\n".to_owned(),
                };
                summary.append(releases_page);
                let detail = e.message();
                Notice::Error(with_detail(summary.as_str(), detail.as_str()))
            } else {
                Notice::Silent
            }
        },
        Ok(None) => {
            if manual {
                let mut s = "お使いのバージョン ".to_owned();
                let v = current.to_text();
                s.append(v.as_str());
                s.append(" が最新です。");
                Notice::Info(s)
            } else {
                Notice::Silent
            }
        },
        Ok(Some(info)) => {
            let mut s = "新しいバージョン ".to_owned();
            let found = info.version.to_text();
            s.append(found.as_str());
            s.append(" があります（現在 ");
            let cur = current.to_text();
            s.append(cur.as_str());
            s.append("）。\n\n今すぐ更新しますか？\n更新後、アプリは自動で再起動します。");
            Notice::AskToUpdate(s)
        },
    }
}

/// What the user is told when an update is already running: a check from
/// the menu says so, the startup check gives up silently.
pub open spec fn busy_notice_of(manual: bool) -> NoticeView {
    if manual {
        NoticeView::Info("現在、更新を確認しています。完了までしばらくお待ちください。"@)
    } else {
        NoticeView::Silent
    }
}

/// What the user is told when an update is already running.
pub fn busy_notice(manual: bool) -> (r: Notice)
    ensures
        r@ == busy_notice_of(manual),
{
    if manual {
        Notice::Info("現在、更新を確認しています。完了までしばらくお待ちください。".to_owned())
    } else {
        Notice::Silent
    }
}

/// The error text when the download failed.
pub open spec fn download_failed_message(page_url: Seq<char>, detail: Seq<char>) -> Seq<char> {
    detailed(
        "更新ファイルの取得に失敗しました。インターネットの接続状況をご確認のうえ、もう一度お試しください。\n\nこのページから手動でダウンロードすることもできます。\n"@
            + page_url,
        detail,
    )
}

/// The error text when the download failed.
pub fn download_failed_text(page_url: &str, detail: &str) -> (r: String)
    ensures
        r@ == download_failed_message(page_url@, detail@),
{
    let mut s = "更新ファイルの取得に失敗しました。インターネットの接続状況をご確認のうえ、もう一度お試しください。\n\nこのページから手動でダウンロードすることもできます。\n".to_owned();
    s.append(page_url);
    with_detail(s.as_str(), detail)
}

/// The error text when the new executable could not be put in place.
pub open spec fn install_failed_message(detail: Seq<char>) -> Seq<char> {
    detailed(
        "更新を適用できませんでした。リリースページを開きますので、お手数ですが手動で置き換えてください。"@,
        detail,
    )
}

/// The error text when the new executable could not be put in place.
pub fn install_failed_text(detail: &str) -> (r: String)
    ensures
        r@ == install_failed_message(detail@),
{
    with_detail(
        "更新を適用できませんでした。リリースページを開きますので、お手数ですが手動で置き換えてください。",
        detail,
    )
}

/// The error text when the new version could not be started.
pub open spec fn restart_failed_message(detail: Seq<char>) -> Seq<char> {
    detailed(
        "更新は完了しましたが、自動で再起動できませんでした。\nお手数ですが手動で起動し直してください。"@,
        detail,
    )
}

/// The error text when the new version could not be started.
pub fn restart_failed_text(detail: &str) -> (r: String)
    ensures
        r@ == restart_failed_message(detail@),
{
    with_detail(
        "更新は完了しましたが、自動で再起動できませんでした。\nお手数ですが手動で起動し直してください。",
        detail,
    )
}

// ---------------------------------------------------------------------------
// Replacing the running executable
// ---------------------------------------------------------------------------
//
// A running executable cannot be overwritten on Windows, but it can be
// renamed. So the new file is first copied next to it as `.new` (the slow
// part, with the old executable untouched), and then two renames swap them:
// executable to `.old`, `.new` to executable. A failed second rename is
// undone by renaming `.old` back.

/// One file operation of the replacement.
#[derive(Debug, Clone, Copy, PartialEq, Eq)]
pub enum InstallStep {
    /// Copy the downloaded file next to the executable as `.new`.
    CopyToStaged,
    /// Rename the executable to `.old`.
    SetAside,
    /// Rename `.new` to the executable.
    PutInPlace,
    /// Delete `.new` (the executable could not be set aside).
    RemoveStaged,
    /// Rename `.old` back to the executable (`.new` could not be put in place).
    RestoreOld,
}

/// Which operation made the replacement fail.
#[derive(Debug, Clone, Copy, PartialEq, Eq)]
pub enum InstallFailure {
    Copy,
    SetAside,
    PutInPlace,
}

/// What comes after an operation.
#[derive(Debug, Clone, Copy, PartialEq, Eq)]
pub enum InstallNext {
    /// Carry out this operation.
    Do(InstallStep),
    /// The new executable is in place.
    Installed,
    /// The replacement failed; the executable is as it was (unless the
    /// undoing rename failed too, which startup repairs).
    Failed(InstallFailure),
}

/// The order of the replacement and its undoing.
pub open spec fn install_after(step: InstallStep, ok: bool) -> InstallNext {
    match step {
        InstallStep::CopyToStaged => if ok {
            InstallNext::Do(InstallStep::SetAside)
        } else {
            InstallNext::Failed(InstallFailure::Copy)
        },
        InstallStep::SetAside => if ok {
            InstallNext::Do(InstallStep::PutInPlace)
        } else {
            InstallNext::Do(InstallStep::RemoveStaged)
        },
        InstallStep::PutInPlace => if ok {
            InstallNext::Installed
        } else {
            InstallNext::Do(InstallStep::RestoreOld)
        },
        InstallStep::RemoveStaged => InstallNext::Failed(InstallFailure::SetAside),
        InstallStep::RestoreOld => InstallNext::Failed(InstallFailure::PutInPlace),
    }
}

/// The first operation (after leftovers of an earlier run are deleted).
pub fn install_first_step() -> (r: InstallStep)
    ensures
        r == InstallStep::CopyToStaged,
{
    InstallStep::CopyToStaged
}

/// What follows `step`, which succeeded when `ok` (the undoing operations
/// end the run whatever their result).
pub fn install_next(step: InstallStep, ok: bool) -> (r: InstallNext)
    ensures
        r == install_after(step, ok),
{
    match step {
        InstallStep::CopyToStaged => if ok {
            InstallNext::Do(InstallStep::SetAside)
        } else {
            InstallNext::Failed(InstallFailure::Copy)
        },
        InstallStep::SetAside => if ok {
            InstallNext::Do(InstallStep::PutInPlace)
        } else {
            InstallNext::Do(InstallStep::RemoveStaged)
        },
        InstallStep::PutInPlace => if ok {
            InstallNext::Installed
        } else {
            InstallNext::Do(InstallStep::RestoreOld)
        },
        InstallStep::RemoveStaged => InstallNext::Failed(InstallFailure::SetAside),
        InstallStep::RestoreOld => InstallNext::Failed(InstallFailure::PutInPlace),
    }
}

/// Which build a file holds.
pub enum Build {
    /// The build that is running.
    Current,
    /// The downloaded update.
    New,
}

/// The files next to the executable (the executable, `.old`, `.new`):
/// which build each holds, or `None` where there is no such file.
pub struct InstallFiles {
    pub exe: Option<Build>,
    pub old: Option<Build>,
    pub staged: Option<Build>,
}

/// What an operation does to the files when it succeeds: a copy puts the
/// download at `.new`, a rename moves what a file holds to the other name.
pub open spec fn install_effect(step: InstallStep, ok: bool, f: InstallFiles) -> InstallFiles {
    if !ok {
        f
    } else {
        match step {
            InstallStep::CopyToStaged => InstallFiles { exe: f.exe, old: f.old, staged: Some(Build::New) },
            InstallStep::SetAside => InstallFiles { exe: None, old: f.exe, staged: f.staged },
            InstallStep::PutInPlace => InstallFiles { exe: f.staged, old: f.old, staged: None },
            InstallStep::RemoveStaged => InstallFiles { exe: f.exe, old: f.old, staged: None },
            InstallStep::RestoreOld => InstallFiles { exe: f.old, old: None, staged: f.staged },
        }
    }
}

/// The runs of the replacement: from `step` with the files `f`, where
/// `oks` says which operations succeed, the end reached and the files then.
pub open spec fn install_run(step: InstallStep, f: InstallFiles, oks: Seq<bool>) -> Option<
    (InstallNext, InstallFiles),
>
    decreases oks.len(),
{
    if oks.len() == 0 {
        None
    } else {
        let f2 = install_effect(step, oks[0], f);
        match install_after(step, oks[0]) {
            InstallNext::Do(next) => install_run(next, f2, oks.drop_first()),
            end => Some((end, f2)),
        }
    }
}

/// The text of a failed replacement, with the error of the operation.
pub open spec fn install_failure_message(f: InstallFailure, detail: Seq<char>) -> Seq<char> {
    match f {
        InstallFailure::Copy => "新しい実行ファイルの配置に失敗しました: "@ + detail,
        InstallFailure::SetAside => "現在の実行ファイルを退避できません: "@ + detail,
        InstallFailure::PutInPlace => "新しい実行ファイルを配置できません（元に戻しました）: "@ + detail,
    }
}

/// The text of a failed replacement, with the error of the operation.
pub fn install_failure_text(f: InstallFailure, detail: &str) -> (r: String)
    ensures
        r@ == install_failure_message(f, detail@),
{
    let mut s = match f {
        InstallFailure::Copy => "新しい実行ファイルの配置に失敗しました: ".to_owned(),
        InstallFailure::SetAside => "現在の実行ファイルを退避できません: ".to_owned(),
        InstallFailure::PutInPlace => "新しい実行ファイルを配置できません（元に戻しました）: ".to_owned(),
    };
    s.append(detail);
    s
}

/// The text when the executable's folder cannot be written (such as under
/// Program Files): the update has to be made by hand.
pub fn not_writable_text(dir: &str) -> (r: String)
    ensures
        r@ == "このフォルダには書き込めないため自動更新できません。\n"@ + dir@
            + "\n\nお手数ですが、リリースページから手動で置き換えてください。"@,
{
    let mut s = "このフォルダには書き込めないため自動更新できません。\n".to_owned();
    s.append(dir);
    s.append("\n\nお手数ですが、リリースページから手動で置き換えてください。");
    s
}

} // verus!

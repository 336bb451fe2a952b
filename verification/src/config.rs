//! Update settings (`settings.json`) and when the startup check is due.
//!
//! Reading and writing the files is the program's part; this module holds
//! the settings' shape and defaults and the rules that decide on them.

use vstd::prelude::*;
use vstd::string::StrSliceExecFns;

verus! {

/// All settings.
#[derive(Debug, Clone)]
pub struct Settings {
    pub update: UpdateSettings,
}

/// Settings of the update check.
#[derive(Debug, Clone)]
pub struct UpdateSettings {
    /// Whether to check for updates at startup (`false`: only from the menu).
    pub check_on_startup: bool,
    /// Least time between startup checks, in hours; `0` checks at every
    /// startup (the default), `24` at most once a day.
    pub check_interval_hours: u64,
    /// The GitHub Releases API endpoint.
    pub api_url: String,
    /// The page opened in the browser when an update needs a hand.
    pub releases_page: String,
    /// The name of the executable attached to a release.
    pub asset_name: String,
}

/// The default settings: check at every startup, against this project's
/// GitHub releases.
pub open spec fn default_update_settings(s: UpdateSettings) -> bool {
    &&& s.check_on_startup
    &&& s.check_interval_hours == 0
    &&& s.api_url@ == "https://api.github.com/repos/Yu5rin/MyPaste/releases/latest"@
    &&& s.releases_page@ == "https://github.com/Yu5rin/MyPaste/releases/latest"@
    &&& s.asset_name@ == "Atai-paste.exe"@
}

impl Default for UpdateSettings {
    fn default() -> (r: UpdateSettings)
        ensures
            default_update_settings(r),
    {
        UpdateSettings {
            check_on_startup: true,
            check_interval_hours: 0,
            api_url: "https://api.github.com/repos/Yu5rin/MyPaste/releases/latest".to_owned(),
            releases_page: "https://github.com/Yu5rin/MyPaste/releases/latest".to_owned(),
            asset_name: "Atai-paste.exe".to_owned(),
        }
    }
}

impl Default for Settings {
    fn default() -> (r: Settings)
        ensures
            default_update_settings(r.update),
    {
        Settings { update: UpdateSettings::default() }
    }
}

/// `text` without a leading byte order mark (U+FEFF); one elsewhere stays.
pub open spec fn without_bom(text: Seq<char>) -> Seq<char> {
    if text.len() > 0 && text[0] == '\u{feff}' {
        text.drop_first()
    } else {
        text
    }
}

/// Removes the UTF-8 byte order mark that Notepad may put at the start of
/// a file; `serde_json` would refuse the text with it.
pub fn strip_bom(text: &str) -> (r: &str)
    ensures
        r@ == without_bom(text@),
{
    let n = text.unicode_len();
    if n > 0 && text.get_char(0) == '\u{feff}' {
        text.substring_char(1, n)
    } else {
        text
    }
}

/// Whether the startup check is due at `now`, last done at `last`: always
/// with interval `0`; when the clock went back (`now < last`); otherwise
/// once at least `interval_hours` hours have passed.
pub open spec fn check_due(now: u64, last: u64, interval_hours: u64) -> bool {
    ||| interval_hours == 0
    ||| now < last
    ||| now - last >= interval_hours * 3600
}

/// Whole hours in `secs` seconds reach `hours` exactly when `secs` reaches
/// `hours` hours.
proof fn lemma_whole_hours(secs: int, hours: int)
    requires
        secs >= 0,
        hours >= 0,
    ensures
        secs / 3600 >= hours <==> secs >= hours * 3600,
{
    assert(secs / 3600 >= hours ==> secs >= hours * 3600) by (nonlinear_arith)
        requires
            secs >= 0,
            hours >= 0,
    ;
    assert(secs >= hours * 3600 ==> secs / 3600 >= hours) by (nonlinear_arith)
        requires
            secs >= 0,
            hours >= 0,
    ;
}

/// Whether the startup check is due (the rule without the clock and the
/// state file, for testing).
pub fn is_due(now: u64, last: u64, interval_hours: u64) -> (r: bool)
    ensures
        r == check_due(now, last, interval_hours),
{
    if interval_hours == 0 {
        return true;
    }
    if now < last {
        return true;
    }
    let elapsed: u64 = now - last;
    proof {
        lemma_whole_hours(elapsed as int, interval_hours as int);
    }
    elapsed / 3600 >= interval_hours
}

#[verifier::external_type_specification]
#[verifier::external_body]
pub struct ExSystemTime(std::time::SystemTime);

/// `std::time::SystemTime::now`: the machine's clock, so nothing is
/// claimed of the result.
#[verifier::external_body]
fn system_now() -> std::time::SystemTime {
    std::time::SystemTime::now()
}

/// `SystemTime::duration_since(UNIX_EPOCH)`: the time since the epoch, or
/// `None` when the clock is before it. Nothing is claimed of the value.
#[verifier::external_body]
fn since_epoch(t: std::time::SystemTime) -> Option<std::time::Duration> {
    t.duration_since(std::time::UNIX_EPOCH).ok()
}

/// `Duration::as_secs`: the whole seconds of `d`. Nothing is claimed of
/// the value, which Verus cannot see inside `d`.
#[verifier::external_body]
fn whole_secs(d: std::time::Duration) -> u64 {
    d.as_secs()
}

/// The clock, as seconds since the UNIX epoch (`0` if the clock is before
/// 1970).
pub fn now_unix() -> u64 {
    match since_epoch(system_now()) {
        Some(d) => whole_secs(d),
        None => 0,
    }
}

/// Whether the startup check may run now, given when it last ran
/// (`last_checked_unix`, `0` if never) as read from `update_state.json`.
pub fn should_check_now(interval_hours: u64, last_checked_unix: u64) -> (r: bool)
    ensures
        interval_hours == 0 ==> r,
        exists|now: u64| r == check_due(now, last_checked_unix, interval_hours),
{
    let now = now_unix();
    is_due(now, last_checked_unix, interval_hours)
}

} // verus!

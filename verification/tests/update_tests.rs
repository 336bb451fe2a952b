
use atai_paste::guard::{is_running, release, try_acquire, UpdateGuard};
use atai_paste::http::HttpError;
use atai_paste::update::{
    check_after_api, check_after_feed, check_begin, CheckStep,
    atom_verdict, busy_notice, check_download_source, download_failed_text,
    fallback_after_api_error, has_mz_signature, hex, install_failed_text, install_failure_text,
    install_first_step, install_next, is_stale_temp_file, is_temp_update_file, needs_exe_restore,
    not_writable_text, notice_after_check, old_file_action, progress_percent, release_verdict,
    restart_failed_text, temp_file_name, verify_downloaded, with_detail, Asset, AtomVerdict,
    Available, CheckError, InstallFailure, InstallNext, InstallStep, Notice, OldFileAction,
    Release,
};
use atai_paste::config::UpdateSettings;
use atai_paste::update_logic::Version;

#[test]
fn recognizes_own_temp_files() {
    assert!(is_temp_update_file("Atai-paste-1.2.1.exe"));
    assert!(is_temp_update_file("Atai-paste-10.0.0.exe"));
}

#[test]
fn never_deletes_unrelated_files() {
    assert!(!is_temp_update_file("Atai-paste.exe"));
    assert!(!is_temp_update_file("Atai-paste.exe.old"));
    assert!(!is_temp_update_file("important.exe"));
    assert!(!is_temp_update_file("Atai-paste-1.2.1.txt"));
    assert!(!is_temp_update_file("Atai-paste-.exe"));
    assert!(!is_temp_update_file("Atai-paste-メモ.exe"));
    assert!(!is_temp_update_file("XAtai-paste-1.0.0.exe"));
    assert!(!is_temp_update_file(""));
}

#[test]
fn try_acquire_blocks_concurrent_run() {
    let mut flag = UpdateGuard::new();
    assert!(try_acquire(&mut flag), "1 回目は取得できる");
    assert!(!try_acquire(&mut flag), "実行中は 2 回目を取得できない");
    release(&mut flag);
    assert!(try_acquire(&mut flag), "release 後は再取得できる");
}

#[test]
fn needs_exe_restore_only_when_exe_missing_and_old_present() {
    assert!(needs_exe_restore(false, true));
    assert!(!needs_exe_restore(true, true));
    assert!(!needs_exe_restore(true, false));
    assert!(!needs_exe_restore(false, false));
}

#[test]
fn mz_signature_detects_pe_executables() {
    assert!(has_mz_signature(b"MZ\x90\x00\x03"));
    assert!(!has_mz_signature(b"PK\x03\x04"));
    assert!(!has_mz_signature(b"M"));
    assert!(!has_mz_signature(b""));
}

#[test]
fn with_detail_keeps_both_summary_and_detail() {
    let text = with_detail("要約です。", "detail message");
    assert!(text.contains("要約です。"));
    assert!(text.contains("詳細: detail message"));
}

// ---- own tests -------------------------------------------------------------

fn settings() -> UpdateSettings {
    UpdateSettings::default()
}

fn v(major: u32, minor: u32, patch: u32) -> Version {
    Version { major, minor, patch }
}

fn available(url: &str, sha: Option<&str>) -> Available {
    Available {
        version: v(1, 2, 3),
        download_url: url.to_string(),
        sha256: sha.map(|s| s.to_string()),
        page_url: "https://github.com/Yu5rin/MyPaste/releases/tag/v1.2.3".to_string(),
    }
}

#[test]
fn running_flag_reports_state() {
    let mut flag = UpdateGuard::new();
    assert!(!is_running(&flag));
    assert!(try_acquire(&mut flag));
    assert!(is_running(&flag));
    release(&mut flag);
    assert!(!is_running(&flag));
}

#[test]
fn with_detail_exact_text() {
    assert_eq!(with_detail("要約です。", "detail message"), "要約です。\n\n詳細: detail message");
}

#[test]
fn hex_is_lower_case_two_digits_per_byte() {
    assert_eq!(hex(&[0x00, 0x0f, 0xa0, 0xff]), "000fa0ff");
    assert_eq!(hex(&[]), "");
}

#[test]
fn temp_file_name_is_recognized_by_cleanup() {
    let name = temp_file_name(&v(1, 10, 0));
    assert_eq!(name, "Atai-paste-1.10.0.exe");
    assert!(is_temp_update_file(&name));
}

#[test]
fn stale_temp_files_need_an_hour() {
    assert!(is_stale_temp_file("Atai-paste-1.0.0.exe", Some(3600)));
    assert!(!is_stale_temp_file("Atai-paste-1.0.0.exe", Some(3599)));
    assert!(!is_stale_temp_file("Atai-paste-1.0.0.exe", None));
    assert!(!is_stale_temp_file("Atai-paste.exe", Some(1_000_000)));
}

#[test]
fn old_file_actions() {
    assert_eq!(old_file_action(false, true), OldFileAction::Restore);
    assert_eq!(old_file_action(true, true), OldFileAction::Delete);
    assert_eq!(old_file_action(true, false), OldFileAction::Nothing);
    assert_eq!(old_file_action(false, false), OldFileAction::Nothing);
}

#[test]
fn progress_in_percent() {
    assert_eq!(progress_percent(50, Some(200)), 25);
    assert_eq!(progress_percent(200, Some(200)), 100);
    assert_eq!(progress_percent(5, Some(0)), 0);
    assert_eq!(progress_percent(5, None), 0);
}

#[test]
fn download_source_must_be_a_release_host() {
    assert!(check_download_source(&available("https://github.com/a/b/releases/download/v1/x.exe", None)).is_ok());
    assert_eq!(
        check_download_source(&available("https://evil.com/x.exe", None)),
        Err("許可されていないダウンロード元のため中止しました: https://evil.com/x.exe".to_string())
    );
}

#[test]
fn downloaded_file_is_checked_against_its_digest() {
    let good = "bc002d37a0c06a225d018c7b020c4e312e834b37ec9a3d973dee286fdc80c62f";
    let bytes = b"MZ\x90\x00\x03";
    assert_eq!(verify_downloaded(&available("u", Some(good)), bytes), Ok(()));
    assert_eq!(verify_downloaded(&available("u", None), bytes), Ok(()));
    assert_eq!(
        verify_downloaded(&available("u", Some(&"0".repeat(64))), bytes),
        Err("ダウンロードしたファイルが壊れている可能性があります。もう一度お試しください。".to_string())
    );
    assert_eq!(
        verify_downloaded(&available("u", Some(good)), b"<html>"),
        Err("ダウンロードしたファイルが実行ファイルの形式ではありません。もう一度お試しください。".to_string())
    );
}

fn feed_with(tag: &str) -> Vec<u8> {
    format!(
        "<feed><entry><link rel=\"alternate\" href=\"https://github.com/Yu5rin/MyPaste/releases/tag/{tag}\"/></entry></feed>"
    )
    .into_bytes()
}

#[test]
fn atom_verdicts() {
    let current = v(1, 0, 9);
    assert!(matches!(atom_verdict(&current, feed_with("v1.0.9")), AtomVerdict::UpToDate));
    assert!(matches!(atom_verdict(&current, feed_with("v1.0.8")), AtomVerdict::UpToDate));
    match atom_verdict(&current, feed_with("v1.0.10")) {
        AtomVerdict::Newer(version, tag) => {
            assert_eq!(version, v(1, 0, 10));
            assert_eq!(tag, "v1.0.10");
        }
        _ => panic!("expected a newer version"),
    }
    assert!(matches!(atom_verdict(&current, b"not xml".to_vec()), AtomVerdict::Unreadable));
    assert!(matches!(atom_verdict(&current, vec![0xff, 0xfe]), AtomVerdict::Unreadable));
}

fn make_release(tag: &str, html: &str, assets: Vec<Asset>) -> Release {
    Release { tag_name: tag.to_string(), html_url: html.to_string(), assets }
}

fn asset(name: &str, url: &str, digest: Option<&str>) -> Asset {
    Asset {
        name: name.to_string(),
        browser_download_url: url.to_string(),
        digest: digest.map(|d| d.to_string()),
    }
}

#[test]
fn release_verdicts() {
    let current = v(1, 0, 9);
    let s = settings();
    assert!(matches!(release_verdict(&current, &make_release("v1.0.9", "", vec![]), &s), Ok(None)));
    match release_verdict(&current, &make_release("nightly", "", vec![]), &s) {
        Err(CheckError::Other(m)) => assert_eq!(m, "バージョンを解釈できません: nightly"),
        _ => panic!(),
    }
    match release_verdict(&current, &make_release("v2.0.0", "", vec![asset("other.zip", "u", None)]), &s) {
        Err(CheckError::Other(m)) => {
            assert_eq!(m, "リリース v2.0.0 に Atai-paste.exe が添付されていません")
        }
        _ => panic!(),
    }
    let r = make_release(
        "v2.0.0",
        "https://github.com/Yu5rin/MyPaste/releases/tag/v2.0.0",
        vec![
            asset("readme.txt", "x", None),
            asset("ATAI-PASTE.EXE", "https://github.com/d/1", Some("sha256: ABCDEF ")),
            asset("Atai-paste.exe", "https://github.com/d/2", None),
        ],
    );
    match release_verdict(&current, &r, &s) {
        Ok(Some(a)) => {
            assert_eq!(a.version, v(2, 0, 0));
            assert_eq!(a.download_url, "https://github.com/d/1");
            assert_eq!(a.sha256.as_deref(), Some("abcdef"));
            assert_eq!(a.page_url, "https://github.com/Yu5rin/MyPaste/releases/tag/v2.0.0");
        }
        _ => panic!(),
    }
    let r = make_release("v2.0.0", "", vec![asset("Atai-paste.exe", "u", Some("md5:abc"))]);
    match release_verdict(&current, &r, &s) {
        Ok(Some(a)) => {
            assert_eq!(a.sha256, None);
            assert_eq!(a.page_url, "https://github.com/Yu5rin/MyPaste/releases/latest");
        }
        _ => panic!(),
    }
}

#[test]
fn api_failure_falls_back_to_the_feed() {
    let s = settings();
    let known = Some((v(1, 2, 3), "v1.2.3".to_string()));
    let atom = Some("https://github.com/Yu5rin/MyPaste/releases.atom".to_string());
    match fallback_after_api_error(&known, &atom, &s, HttpError::Status(403)) {
        Ok(Some(a)) => {
            assert_eq!(a.version, v(1, 2, 3));
            assert_eq!(
                a.download_url,
                "https://github.com/Yu5rin/MyPaste/releases/download/v1.2.3/Atai-paste.exe"
            );
            assert_eq!(a.sha256, None);
            assert_eq!(a.page_url, "https://github.com/Yu5rin/MyPaste/releases/tag/v1.2.3");
        }
        _ => panic!(),
    }
    assert!(matches!(
        fallback_after_api_error(&None, &atom, &s, HttpError::Status(403)),
        Err(CheckError::RateLimited)
    ));
    match fallback_after_api_error(&None, &None, &s, HttpError::Status(500)) {
        Err(CheckError::Other(m)) => assert_eq!(m, "サーバーが HTTP 500 を返しました"),
        _ => panic!(),
    }
    match fallback_after_api_error(&known, &None, &s, HttpError::Failed("接続に失敗しました".to_string())) {
        Err(CheckError::Other(m)) => assert_eq!(m, "接続に失敗しました"),
        _ => panic!(),
    }
}

#[test]
fn check_error_messages() {
    assert_eq!(CheckError::RateLimited.message(), "サーバーが HTTP 403 を返しました");
    assert_eq!(CheckError::Other("x".to_string()).message(), "x");
    assert!(matches!(CheckError::from_http_error(HttpError::Status(403)), CheckError::RateLimited));
}

#[test]
fn notices_after_a_check() {
    let current = v(1, 0, 9);
    let page = "https://github.com/Yu5rin/MyPaste/releases/latest";
    assert!(matches!(notice_after_check(false, &Ok(None), page, &current), Notice::Silent));
    assert!(matches!(
        notice_after_check(false, &Err(CheckError::RateLimited), page, &current),
        Notice::Silent
    ));
    match notice_after_check(true, &Ok(None), page, &current) {
        Notice::Info(t) => assert_eq!(t, "お使いのバージョン 1.0.9 が最新です。"),
        _ => panic!(),
    }
    match notice_after_check(true, &Err(CheckError::RateLimited), page, &current) {
        Notice::Error(t) => {
            assert!(t.starts_with("配布元への問い合わせが、回数の上限に達していました。"));
            assert!(t.ends_with("リリースページ:\nhttps://github.com/Yu5rin/MyPaste/releases/latest\n\n詳細: サーバーが HTTP 403 を返しました"));
        }
        _ => panic!(),
    }
    match notice_after_check(true, &Err(CheckError::Other("boom".to_string())), page, &current) {
        Notice::Error(t) => {
            assert!(t.starts_with("更新を確認できませんでした。"));
            assert!(t.ends_with("できます。\nhttps://github.com/Yu5rin/MyPaste/releases/latest\n\n詳細: boom"));
        }
        _ => panic!(),
    }
    let found = Ok(Some(available("u", None)));
    for manual in [false, true] {
        match notice_after_check(manual, &found, page, &current) {
            Notice::AskToUpdate(t) => assert_eq!(
                t,
                "新しいバージョン 1.2.3 があります（現在 1.0.9）。\n\n今すぐ更新しますか？\n更新後、アプリは自動で再起動します。"
            ),
            _ => panic!(),
        }
    }
    match busy_notice(true) {
        Notice::Info(t) => assert_eq!(t, "現在、更新を確認しています。完了までしばらくお待ちください。"),
        _ => panic!(),
    }
    assert!(matches!(busy_notice(false), Notice::Silent));
}

#[test]
fn failure_texts() {
    assert_eq!(
        download_failed_text("P", "D"),
        "更新ファイルの取得に失敗しました。インターネットの接続状況をご確認のうえ、もう一度お試しください。\n\nこのページから手動でダウンロードすることもできます。\nP\n\n詳細: D"
    );
    assert_eq!(
        install_failed_text("D"),
        "更新を適用できませんでした。リリースページを開きますので、お手数ですが手動で置き換えてください。\n\n詳細: D"
    );
    assert_eq!(
        restart_failed_text("D"),
        "更新は完了しましたが、自動で再起動できませんでした。\nお手数ですが手動で起動し直してください。\n\n詳細: D"
    );
    assert_eq!(
        install_failure_text(InstallFailure::PutInPlace, "E"),
        "新しい実行ファイルを配置できません（元に戻しました）: E"
    );
    assert_eq!(
        not_writable_text("C:\\Program Files\\A"),
        "このフォルダには書き込めないため自動更新できません。\nC:\\Program Files\\A\n\nお手数ですが、リリースページから手動で置き換えてください。"
    );
}

#[test]
fn install_steps_and_undoing() {
    assert_eq!(install_first_step(), InstallStep::CopyToStaged);
    assert_eq!(install_next(InstallStep::CopyToStaged, true), InstallNext::Do(InstallStep::SetAside));
    assert_eq!(install_next(InstallStep::CopyToStaged, false), InstallNext::Failed(InstallFailure::Copy));
    assert_eq!(install_next(InstallStep::SetAside, true), InstallNext::Do(InstallStep::PutInPlace));
    assert_eq!(install_next(InstallStep::SetAside, false), InstallNext::Do(InstallStep::RemoveStaged));
    assert_eq!(install_next(InstallStep::PutInPlace, true), InstallNext::Installed);
    assert_eq!(install_next(InstallStep::PutInPlace, false), InstallNext::Do(InstallStep::RestoreOld));
    assert_eq!(install_next(InstallStep::RemoveStaged, true), InstallNext::Failed(InstallFailure::SetAside));
    assert_eq!(install_next(InstallStep::RestoreOld, false), InstallNext::Failed(InstallFailure::PutInPlace));
}

#[test]
fn check_goes_feed_then_api() {
    let s = settings();
    let current = v(1, 0, 9);
    let atom = match check_begin(&s) {
        CheckStep::FetchFeed { atom_url } => atom_url,
        _ => panic!("a GitHub API URL starts with the feed"),
    };
    assert_eq!(atom, "https://github.com/Yu5rin/MyPaste/releases.atom");
    let mut other = settings();
    other.api_url = "https://example.com/latest".to_string();
    assert!(matches!(
        check_begin(&other),
        CheckStep::FetchApi { atom_url: None, known_newer: None }
    ));

    // Up to date by the feed: no API call.
    assert!(matches!(
        check_after_feed(&current, atom.clone(), Ok(feed_with("v1.0.9"))),
        CheckStep::Done(Ok(None))
    ));
    // Newer by the feed: on to the API with what it showed.
    let (atom_url, known) = match check_after_feed(&current, atom.clone(), Ok(feed_with("v1.1.0"))) {
        CheckStep::FetchApi { atom_url, known_newer } => (atom_url, known_newer),
        _ => panic!(),
    };
    assert_eq!(known, Some((v(1, 1, 0), "v1.1.0".to_string())));
    // Feed failed: on to the API knowing nothing.
    assert!(matches!(
        check_after_feed(&current, atom.clone(), Err(HttpError::Status(502))),
        CheckStep::FetchApi { known_newer: None, .. }
    ));
    // The API's limit after a newer version from the feed: go on without a digest.
    match check_after_api(&current, &s, atom_url.clone(), known.clone(), Err(HttpError::Status(403))) {
        CheckStep::Done(Ok(Some(a))) => {
            assert_eq!(a.version, v(1, 1, 0));
            assert_eq!(a.sha256, None);
            assert_eq!(
                a.download_url,
                "https://github.com/Yu5rin/MyPaste/releases/download/v1.1.0/Atai-paste.exe"
            );
        }
        _ => panic!(),
    }
    // An answer that is no release JSON.
    match check_after_api(&current, &s, atom_url.clone(), known.clone(), Ok(Err("EOF".to_string()))) {
        CheckStep::Done(Err(CheckError::Other(m))) => assert_eq!(m, "応答の解析に失敗: EOF"),
        _ => panic!(),
    }
    // A release answer decides.
    let r = make_release("v1.1.0", "", vec![asset("Atai-paste.exe", "https://github.com/d", None)]);
    match check_after_api(&current, &s, atom_url, known, Ok(Ok(r))) {
        CheckStep::Done(Ok(Some(a))) => assert_eq!(a.download_url, "https://github.com/d"),
        _ => panic!(),
    }
}

use atai_paste::atom_feed::tag_from_release_url;
use atai_paste::http::{
    body_size_error, content_length_error, host_buffer, is_secure_target, request_target,
    status_error, truncation_error, HttpError, MAX_BODY_BYTES,
};
use atai_paste::keyboard::{
    ctrl_only, ctrl_shift_v_strokes, is_excel_image_path, KeyAction, KeyEvent, KeyHook, KeyStroke,
    EXTRA_INFO_SIGNATURE, VK_B, VK_SHIFT, VK_V, WM_KEYDOWN, WM_KEYUP, WM_SYSKEYDOWN,
};
use atai_paste::tray::{
    icon_for, labeled, loop_action, startup_update, LoopAction, TrayMessage, ICON_OFF, ICON_ON,
};
use atai_paste::update_logic::{
    atom_url_from_api_url, build_download_url, build_release_page_url,
    extract_latest_tag_from_atom, is_allowed_download_url, Version,
};

// ---- Version ------------------------------------------------------------

#[test]
fn version_fields_and_text() {
    let v = Version::parse("  V2.30.4-rc1+build ").unwrap();
    assert_eq!(v, Version { major: 2, minor: 30, patch: 4 });
    assert_eq!(v.to_text(), "2.30.4");
    assert_eq!(Version::parse(&v.to_text()), Some(v));
    assert_eq!(Version::parse("7"), Some(Version { major: 7, minor: 0, patch: 0 }));
    assert_eq!(Version::parse("1.2.3.4"), Some(Version { major: 1, minor: 2, patch: 3 }));
    assert_eq!(Version::parse("007.01"), Some(Version { major: 7, minor: 1, patch: 0 }));
}

#[test]
fn version_rejects_broken_numbers() {
    assert_eq!(Version::parse("1."), None);
    assert_eq!(Version::parse(".1"), None);
    assert_eq!(Version::parse("1.x"), None);
    assert_eq!(Version::parse("4294967296"), None);
    assert_eq!(Version::parse("4294967295").map(|v| v.major), Some(u32::MAX));
    assert_eq!(Version::parse("vv1"), None);
    assert_eq!(Version::parse("-1"), None);
}

#[test]
fn version_prefix_v_is_ignored() {
    for s in ["1.2.3", "0.9", "12"] {
        assert_eq!(Version::parse(&format!("v{s}")), Version::parse(s));
        assert_eq!(Version::parse(&format!("V{s}")), Version::parse(s));
    }
}

#[test]
fn newer_than_compares_fields_in_order() {
    let a = Version { major: 1, minor: 0, patch: 10 };
    let b = Version { major: 1, minor: 0, patch: 9 };
    assert!(a.is_newer_than(&b));
    assert!(!b.is_newer_than(&a));
    assert!(!a.is_newer_than(&a));
    let c = Version { major: 2, minor: 0, patch: 0 };
    assert!(c.is_newer_than(&Version { major: 1, minor: 99, patch: 99 }));
}

#[test]
fn current_version_is_the_package_version() {
    assert_eq!(Version::current().to_text(), "1.0.9");
}

// ---- URLs ------------------------------------------------------------------

#[test]
fn atom_url_ignores_query_and_case_of_releases() {
    assert_eq!(
        atom_url_from_api_url("https://api.github.com/repos/o/r/RELEASES?per_page=1"),
        Some("https://github.com/o/r/releases.atom".to_string())
    );
    assert_eq!(atom_url_from_api_url("https://api.github.com/repos//r/releases/latest"), None);
    assert_eq!(atom_url_from_api_url("https://api.github.com/repos/o//releases/latest"), None);
    assert_eq!(atom_url_from_api_url("https://api.github.com/repos/o/r"), None);
    assert_eq!(atom_url_from_api_url("https://api.github.com/repos/o/r/tags"), None);
}

#[test]
fn download_url_percent_encodes_segments() {
    assert_eq!(
        build_download_url("https://github.com/o/r/releases.atom", "v1.0+win", "a b.exe"),
        Some("https://github.com/o/r/releases/download/v1.0%2Bwin/a%20b.exe".to_string())
    );
    assert_eq!(
        build_release_page_url("https://github.com/o/r/releases.atom", "版1"),
        Some("https://github.com/o/r/releases/tag/%E7%89%881".to_string())
    );
    assert_eq!(build_release_page_url("https://github.com/o/r/releases.atom", ""), None);
    assert_eq!(build_download_url("https://github.com/o/r/releases.atom", "v1", ""), None);
}

#[test]
fn release_page_url_names_its_tag() {
    for tag in ["v1.0.9+win", "版 1/2", "a%b", "v2.0.0"] {
        let url = build_release_page_url("https://github.com/o/r/releases.atom", tag).unwrap();
        assert_eq!(tag_from_release_url(&url), Some(tag.to_string()));
    }
}

#[test]
fn tag_from_url_edge_cases() {
    assert_eq!(
        tag_from_release_url("  https://github.com/a/b/releases/tag/v1.2//  "),
        Some("v1.2".to_string())
    );
    assert_eq!(tag_from_release_url("///"), None);
    assert_eq!(tag_from_release_url("v3"), Some("v3".to_string()));
    // An escape that is no UTF-8 leaves the segment as it was.
    assert_eq!(tag_from_release_url("x/%FF%41"), Some("%FF%41".to_string()));
    assert_eq!(tag_from_release_url("x/%41%6a%4"), Some("Aj%4".to_string()));
}

#[test]
fn built_download_url_is_allowed() {
    let atom = atom_url_from_api_url("https://api.github.com/repos/Yu5rin/MyPaste/releases/latest").unwrap();
    let url = build_download_url(&atom, "v1.2.3", "Atai-paste.exe").unwrap();
    assert!(is_allowed_download_url(&url));
}

#[test]
fn allowed_hosts_ignore_case_userinfo_and_port() {
    assert!(is_allowed_download_url("https://GitHub.COM/x"));
    assert!(is_allowed_download_url("https://user:pw@github.com:443/x"));
    assert!(is_allowed_download_url("https://github.com?x"));
    assert!(!is_allowed_download_url("https://github.com@evil.com/x"));
    assert!(!is_allowed_download_url("HTTPS://github.com/x"));
}

#[test]
fn feed_entry_details() {
    // Self-closing entries and look-alike tags are skipped.
    let xml = "<entry/><entryx><link href='https://h/releases/tag/v9.0.0'/></entryx>\
               <entry><link rel='self' href=''/><link href=\"https://h/releases/tag/v1.5\"></entry>";
    assert_eq!(extract_latest_tag_from_atom(xml), Some("v1.5".to_string()));
    // xhref is no href; an attribute needs white space before it.
    let xml = "<entry><link xhref=\"https://h/releases/tag/v9.0.0\" href=\"https://h/releases/tag/v1.0\"/></entry>";
    assert_eq!(extract_latest_tag_from_atom(xml), Some("v1.0".to_string()));
    // Of equal versions, the first entry wins.
    let xml = "<entry><link href=\"https://h/tag/v1.0\"/></entry><entry><link href=\"https://h/tag/1.0.0\"/></entry>";
    assert_eq!(extract_latest_tag_from_atom(xml), Some("v1.0".to_string()));
    // An unclosed quote ends the search in that tag.
    let xml = "<entry><link href=\"https://h/tag/v1.0/></entry>";
    assert_eq!(extract_latest_tag_from_atom(xml), None);
}

// ---- keyboard ----------------------------------------------------------------

fn event(message: u32, ctrl: bool) -> KeyEvent {
    KeyEvent { code: 0, message, injected: false, extra_info: 0, vk_code: VK_B, ctrl_only: ctrl }
}

#[test]
fn ctrl_b_becomes_one_paste_while_held() {
    let mut hook = KeyHook::new();
    assert!(hook.is_enabled());
    let down = event(WM_KEYDOWN, true);
    assert!(hook.wants_foreground_check(&down));
    assert_eq!(hook.handle(&down, true), KeyAction::SendPasteAndSwallow);
    // auto-repeat
    assert_eq!(hook.handle(&down, true), KeyAction::Swallow);
    assert_eq!(hook.handle(&event(WM_SYSKEYDOWN, true), true), KeyAction::Swallow);
    assert_eq!(hook.handle(&event(WM_KEYUP, true), true), KeyAction::Swallow);
    assert!(!hook.b_active);
    assert_eq!(hook.handle(&event(WM_KEYUP, true), true), KeyAction::Pass);
}

#[test]
fn other_input_passes() {
    let mut hook = KeyHook::new();
    assert_eq!(hook.handle(&event(WM_KEYDOWN, true), false), KeyAction::Pass);
    assert_eq!(hook.handle(&event(WM_KEYDOWN, false), true), KeyAction::Pass);
    let mut own = event(WM_KEYDOWN, true);
    own.extra_info = EXTRA_INFO_SIGNATURE;
    assert!(!hook.wants_foreground_check(&own));
    assert_eq!(hook.handle(&own, true), KeyAction::Pass);
    let mut injected = event(WM_KEYDOWN, true);
    injected.injected = true;
    assert_eq!(hook.handle(&injected, true), KeyAction::Pass);
    let mut other_key = event(WM_KEYDOWN, true);
    other_key.vk_code = 0x43;
    assert_eq!(hook.handle(&other_key, true), KeyAction::Pass);
    let mut negative = event(WM_KEYDOWN, true);
    negative.code = -1;
    assert_eq!(hook.handle(&negative, true), KeyAction::Pass);
    assert!(!hook.b_active);
}

#[test]
fn switch_toggles() {
    let mut hook = KeyHook::new();
    assert!(!hook.toggle());
    assert!(!hook.is_enabled());
    assert_eq!(hook.handle(&event(WM_KEYDOWN, true), true), KeyAction::Pass);
    assert!(hook.toggle());
    hook.set_enabled(false);
    assert!(!hook.is_enabled());
}

#[test]
fn modifiers_and_strokes() {
    assert!(ctrl_only(true, false, false, false, false));
    assert!(!ctrl_only(true, true, false, false, false));
    assert!(!ctrl_only(false, false, false, false, false));
    assert!(!ctrl_only(true, false, false, false, true));
    assert_eq!(
        ctrl_shift_v_strokes(),
        vec![
            KeyStroke { vk: VK_SHIFT, up: false },
            KeyStroke { vk: VK_V, up: false },
            KeyStroke { vk: VK_V, up: true },
            KeyStroke { vk: VK_SHIFT, up: true },
        ]
    );
}

#[test]
fn excel_is_found_by_file_name() {
    assert!(is_excel_image_path("C:\\Program Files\\Microsoft Office\\root\\Office16\\EXCEL.EXE"));
    assert!(is_excel_image_path("C:/x/excel.exe"));
    assert!(is_excel_image_path("Excel.exe"));
    assert!(!is_excel_image_path("C:\\x\\EXCEL.EXE.bak"));
    assert!(!is_excel_image_path("C:\\EXCEL.EXE\\winword.exe"));
    assert!(!is_excel_image_path(""));
}

// ---- tray and http ---------------------------------------------------------

#[test]
fn labels_and_icons() {
    assert_eq!(labeled("自動起動", true), "✔ 自動起動");
    assert_eq!(labeled("自動起動", false), "\u{3000} 自動起動");
    assert_eq!(icon_for(true), ICON_ON);
    assert_eq!(icon_for(false), ICON_OFF);
    assert_eq!(ICON_ON, "icon_on");
}

#[test]
fn http_rules() {
    assert!(status_error(200).is_none());
    let e = status_error(404).unwrap();
    assert!(!e.is_forbidden());
    assert_eq!(e.message(), "サーバーが HTTP 404 を返しました");
    assert!(status_error(403).unwrap().is_forbidden());
    assert!(content_length_error(Some(MAX_BODY_BYTES)).is_none());
    assert!(content_length_error(None).is_none());
    assert_eq!(
        content_length_error(Some(MAX_BODY_BYTES + 1)).unwrap().message(),
        "応答が大きすぎます（104857601 バイト）"
    );
    assert_eq!(body_size_error(MAX_BODY_BYTES + 1).unwrap().message(), "応答が大きすぎます");
    assert!(body_size_error(MAX_BODY_BYTES).is_none());
    assert!(truncation_error(10, Some(10)).is_none());
    assert!(truncation_error(10, None).is_none());
    assert_eq!(
        truncation_error(5, Some(10)).unwrap().message(),
        "応答が途中で切断されました（期待 10 バイト / 受信 5 バイト）"
    );
    assert!(matches!(HttpError::Failed("x".to_string()), HttpError::Failed(_)));
    assert!(is_secure_target(2, 8443));
    assert!(is_secure_target(1, 443));
    assert!(!is_secure_target(1, 80));
}

#[test]
fn only_the_menu_check_starts_an_update_from_the_loop() {
    assert!(matches!(loop_action(&TrayMessage::CheckUpdate), LoopAction::StartUpdate { manual: true }));
    assert!(matches!(loop_action(&TrayMessage::Toggle), LoopAction::FlipRemap));
    assert!(matches!(loop_action(&TrayMessage::ToggleStartup), LoopAction::FlipStartup));
    assert!(matches!(loop_action(&TrayMessage::UpdateProgress(42)), LoopAction::ShowProgress(42)));
    assert!(matches!(loop_action(&TrayMessage::UpdateFinished), LoopAction::ClearProgress));
    assert!(matches!(loop_action(&TrayMessage::Quit), LoopAction::WaitAndQuit));
}

#[test]
fn startup_check_follows_the_setting() {
    assert_eq!(startup_update(true), Some(false));
    assert_eq!(startup_update(false), None);
}

fn units(s: &str) -> Vec<u16> {
    s.encode_utf16().collect()
}

#[test]
fn host_buffer_is_nul_terminated() {
    let mut expected = units("api.github.com");
    expected.push(0);
    assert_eq!(host_buffer(&units("api.github.com")), expected);
    assert_eq!(host_buffer(&[]), vec![0u16]);
}

#[test]
fn request_target_joins_path_and_query_or_is_root() {
    let mut expected = units("/repos/x/releases/latest?per_page=1");
    expected.push(0);
    assert_eq!(request_target(&units("/repos/x/releases/latest"), &units("?per_page=1")), expected);
    assert_eq!(request_target(&[], &[]), vec![47u16, 0]);
    let mut only_query = units("?a=b");
    only_query.push(0);
    assert_eq!(request_target(&[], &units("?a=b")), only_query);
}

use atai_paste::update::{Available, CheckError, Notice};
use atai_paste::update_logic::Version;
use atai_paste::update_run::{run_begin, run_step, RunAction, RunEvent, RunStage, RunState};

const PAGE: &str = "https://github.com/Yu5rin/MyPaste/releases/latest";
const TAG_PAGE: &str = "https://github.com/Yu5rin/MyPaste/releases/tag/v1.2.0";

fn current() -> Version {
    Version { major: 1, minor: 0, patch: 9 }
}

fn found() -> Available {
    Available {
        version: Version { major: 1, minor: 2, patch: 0 },
        download_url: "https://github.com/Yu5rin/MyPaste/releases/download/v1.2.0/Atai-paste.exe"
            .to_string(),
        sha256: None,
        page_url: TAG_PAGE.to_string(),
    }
}

/// A short name for each action, to compare whole steps.
fn names(actions: &[RunAction]) -> Vec<String> {
    actions
        .iter()
        .map(|a| match a {
            RunAction::Acquire => "acquire".to_string(),
            RunAction::CheckInterval => "interval".to_string(),
            RunAction::MarkChecked => "mark".to_string(),
            RunAction::Check => "check".to_string(),
            RunAction::Show(Notice::Silent) => "show-silent".to_string(),
            RunAction::Show(Notice::Info(t)) => format!("info:{t}"),
            RunAction::Show(Notice::Error(t)) => format!("error:{t}"),
            RunAction::Show(Notice::AskToUpdate(t)) => format!("ask:{t}"),
            RunAction::Download => "download".to_string(),
            RunAction::WriteTemp => "write".to_string(),
            RunAction::RemoveTemp => "remove".to_string(),
            RunAction::Install => "install".to_string(),
            RunAction::Restart => "restart".to_string(),
            RunAction::OpenPage(u) => format!("open:{u}"),
            RunAction::SendFinished => "finished".to_string(),
            RunAction::SendQuit => "quit".to_string(),
            RunAction::Release => "release".to_string(),
        })
        .collect()
}

fn step(state: &RunState, event: RunEvent) -> (RunState, Vec<String>) {
    let (next, actions) = run_step(state, event);
    let n = names(&actions);
    (next, n)
}

/// A run from the menu that found an update and got a yes, waiting for the download.
fn agreed_run() -> RunState {
    let (s, _) = run_begin(true, current(), PAGE.to_string());
    let (s, _) = step(&s, RunEvent::Started { acquired: true });
    let (s, _) = step(&s, RunEvent::Checked(Ok(Some(found()))));
    let (s, a) = step(&s, RunEvent::Answered { yes: true });
    assert_eq!(a, vec!["download"]);
    assert_eq!(s.stage, RunStage::AwaitDownload);
    s
}

#[test]
fn a_run_first_takes_the_right_to_run() {
    let (s, a) = run_begin(false, current(), PAGE.to_string());
    assert_eq!(s.stage, RunStage::Start);
    assert_eq!(names(&a), vec!["acquire"]);
}

#[test]
fn busy_run_from_the_menu_only_says_so() {
    let (s, _) = run_begin(true, current(), PAGE.to_string());
    let (s, a) = step(&s, RunEvent::Started { acquired: false });
    assert_eq!(s.stage, RunStage::Finished);
    assert_eq!(a, vec!["info:現在、更新を確認しています。完了までしばらくお待ちください。"]);
}

#[test]
fn busy_run_at_startup_is_silent_and_releases_nothing() {
    let (s, _) = run_begin(false, current(), PAGE.to_string());
    let (s, a) = step(&s, RunEvent::Started { acquired: false });
    assert_eq!(s.stage, RunStage::Finished);
    assert_eq!(a, vec!["show-silent"]);
}

#[test]
fn startup_check_that_is_not_due_ends_the_run() {
    let (s, _) = run_begin(false, current(), PAGE.to_string());
    let (s, a) = step(&s, RunEvent::Started { acquired: true });
    assert_eq!(a, vec!["interval"]);
    let (s, a) = step(&s, RunEvent::IntervalChecked { due: false });
    assert_eq!(s.stage, RunStage::Finished);
    assert_eq!(a, vec!["release"]);
}

#[test]
fn due_startup_check_is_recorded_before_checking() {
    let (s, _) = run_begin(false, current(), PAGE.to_string());
    let (s, _) = step(&s, RunEvent::Started { acquired: true });
    let (s, a) = step(&s, RunEvent::IntervalChecked { due: true });
    assert_eq!(s.stage, RunStage::AwaitCheck);
    assert_eq!(a, vec!["mark", "check"]);
}

#[test]
fn menu_check_skips_the_interval() {
    let (s, _) = run_begin(true, current(), PAGE.to_string());
    let (s, a) = step(&s, RunEvent::Started { acquired: true });
    assert_eq!(s.stage, RunStage::AwaitCheck);
    assert_eq!(a, vec!["check"]);
}

#[test]
fn up_to_date_from_the_menu_is_reported_and_released() {
    let (s, _) = run_begin(true, current(), PAGE.to_string());
    let (s, _) = step(&s, RunEvent::Started { acquired: true });
    let (s, a) = step(&s, RunEvent::Checked(Ok(None)));
    assert_eq!(s.stage, RunStage::Finished);
    assert_eq!(a, vec!["info:お使いのバージョン 1.0.9 が最新です。", "release"]);
}

#[test]
fn failed_startup_check_is_silent() {
    let (s, _) = run_begin(false, current(), PAGE.to_string());
    let (s, _) = step(&s, RunEvent::Started { acquired: true });
    let (s, _) = step(&s, RunEvent::IntervalChecked { due: true });
    let (s, a) = step(&s, RunEvent::Checked(Err(CheckError::RateLimited)));
    assert_eq!(s.stage, RunStage::Finished);
    assert_eq!(a, vec!["show-silent", "release"]);
}

#[test]
fn found_update_is_asked_about() {
    let (s, _) = run_begin(false, current(), PAGE.to_string());
    let (s, _) = step(&s, RunEvent::Started { acquired: true });
    let (s, _) = step(&s, RunEvent::IntervalChecked { due: true });
    let (s, a) = step(&s, RunEvent::Checked(Ok(Some(found()))));
    assert_eq!(s.stage, RunStage::AwaitAnswer);
    assert_eq!(
        a,
        vec![
            "ask:新しいバージョン 1.2.0 があります（現在 1.0.9）。\n\n今すぐ更新しますか？\n更新後、アプリは自動で再起動します。"
        ]
    );
    let (s, a) = step(&s, RunEvent::Answered { yes: false });
    assert_eq!(s.stage, RunStage::Finished);
    assert_eq!(a, vec!["release"]);
}

#[test]
fn successful_update_writes_installs_removes_restarts_and_quits() {
    let s = agreed_run();
    let (s, a) = step(&s, RunEvent::Downloaded(Ok(())));
    assert_eq!(a, vec!["write"]);
    let (s, a) = step(&s, RunEvent::Written(Ok(())));
    assert_eq!(a, vec!["install"]);
    let (s, a) = step(&s, RunEvent::Installed(Ok(())));
    assert_eq!(a, vec!["remove", "restart"]);
    let (s, a) = step(&s, RunEvent::Restarted(Ok(())));
    assert_eq!(s.stage, RunStage::Finished);
    assert_eq!(a, vec!["quit", "release"]);
}

#[test]
fn failed_download_is_reported_with_the_page() {
    let s = agreed_run();
    let (s, a) = step(&s, RunEvent::Downloaded(Err("E".to_string())));
    assert_eq!(s.stage, RunStage::Finished);
    assert_eq!(
        a,
        vec![
            format!("error:更新ファイルの取得に失敗しました。インターネットの接続状況をご確認のうえ、もう一度お試しください。\n\nこのページから手動でダウンロードすることもできます。\n{TAG_PAGE}\n\n詳細: E"),
            "finished".to_string(),
            "release".to_string(),
        ]
    );
}

#[test]
fn failed_write_removes_the_partial_file() {
    let s = agreed_run();
    let (s, _) = step(&s, RunEvent::Downloaded(Ok(())));
    let (s, a) = step(&s, RunEvent::Written(Err("disk full".to_string())));
    assert_eq!(s.stage, RunStage::Finished);
    assert_eq!(
        a,
        vec![
            "remove".to_string(),
            format!("error:更新ファイルの取得に失敗しました。インターネットの接続状況をご確認のうえ、もう一度お試しください。\n\nこのページから手動でダウンロードすることもできます。\n{TAG_PAGE}\n\n詳細: 一時ファイルの書き出しに失敗: disk full"),
            "finished".to_string(),
            "release".to_string(),
        ]
    );
}

#[test]
fn failed_install_removes_the_file_and_opens_the_page() {
    let s = agreed_run();
    let (s, _) = step(&s, RunEvent::Downloaded(Ok(())));
    let (s, _) = step(&s, RunEvent::Written(Ok(())));
    let (s, a) = step(&s, RunEvent::Installed(Err("X".to_string())));
    assert_eq!(s.stage, RunStage::Finished);
    assert_eq!(
        a,
        vec![
            "remove".to_string(),
            "error:更新を適用できませんでした。リリースページを開きますので、お手数ですが手動で置き換えてください。\n\n詳細: X".to_string(),
            format!("open:{TAG_PAGE}"),
            "finished".to_string(),
            "release".to_string(),
        ]
    );
}

#[test]
fn failed_restart_is_reported_and_the_tray_stays() {
    let s = agreed_run();
    let (s, _) = step(&s, RunEvent::Downloaded(Ok(())));
    let (s, _) = step(&s, RunEvent::Written(Ok(())));
    let (s, _) = step(&s, RunEvent::Installed(Ok(())));
    let (s, a) = step(&s, RunEvent::Restarted(Err("R".to_string())));
    assert_eq!(s.stage, RunStage::Finished);
    assert_eq!(
        a,
        vec![
            "error:更新は完了しましたが、自動で再起動できませんでした。\nお手数ですが手動で起動し直してください。\n\n詳細: R".to_string(),
            "finished".to_string(),
            "release".to_string(),
        ]
    );
}

#[test]
fn events_a_stage_does_not_wait_for_change_nothing() {
    let s = agreed_run();
    let (t, a) = step(&s, RunEvent::Installed(Ok(())));
    assert_eq!(t.stage, RunStage::AwaitDownload);
    assert!(a.is_empty());
    let (_, s2) = run_begin(true, current(), PAGE.to_string());
    assert_eq!(names(&s2), vec!["acquire"]);
}

#[test]
fn a_finished_run_ignores_everything() {
    let s = agreed_run();
    let (s, _) = step(&s, RunEvent::Downloaded(Err("E".to_string())));
    let (t, a) = step(&s, RunEvent::Restarted(Ok(())));
    assert_eq!(t.stage, RunStage::Finished);
    assert!(a.is_empty());
    let (t, a) = step(&t, RunEvent::Started { acquired: true });
    assert_eq!(t.stage, RunStage::Finished);
    assert!(a.is_empty());
}

#[test]
fn every_ending_after_download_sends_once_and_releases_once() {
    let endings: Vec<Vec<RunEvent>> = vec![
        vec![RunEvent::Downloaded(Err("e".to_string()))],
        vec![RunEvent::Downloaded(Ok(())), RunEvent::Written(Err("e".to_string()))],
        vec![
            RunEvent::Downloaded(Ok(())),
            RunEvent::Written(Ok(())),
            RunEvent::Installed(Err("e".to_string())),
        ],
        vec![
            RunEvent::Downloaded(Ok(())),
            RunEvent::Written(Ok(())),
            RunEvent::Installed(Ok(())),
            RunEvent::Restarted(Err("e".to_string())),
        ],
        vec![
            RunEvent::Downloaded(Ok(())),
            RunEvent::Written(Ok(())),
            RunEvent::Installed(Ok(())),
            RunEvent::Restarted(Ok(())),
        ],
    ];
    for events in endings {
        let mut s = agreed_run();
        let mut all: Vec<String> = Vec::new();
        let mut wrote = false;
        for e in events {
            let (t, a) = step(&s, e);
            if a.iter().any(|x| x == "write") {
                wrote = true;
            }
            all.extend(a);
            s = t;
        }
        assert_eq!(s.stage, RunStage::Finished);
        let sends = all.iter().filter(|x| *x == "finished" || *x == "quit").count();
        let releases = all.iter().filter(|x| *x == "release").count();
        assert_eq!(sends, 1);
        assert_eq!(releases, 1);
        assert_eq!(all.last().map(|x| x.as_str()), Some("release"));
        if wrote {
            assert!(all.iter().any(|x| x == "remove"));
        }
    }
}

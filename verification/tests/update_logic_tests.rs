use atai_paste::update_logic::{
    atom_url_from_api_url, build_download_url, build_release_page_url,
    extract_latest_tag_from_atom, is_allowed_download_url, Version,
};

// ---- Version -----------------------------------------------------

#[test]
fn parses_common_forms() {
    assert_eq!(Version::parse("v1.2.3"), Version::parse("1.2.3"));
    assert!(Version::parse("1.2").is_some());
    assert!(Version::parse("1.2.3-beta").is_some());
    assert!(Version::parse("なし").is_none());
    assert!(Version::parse("").is_none());
    assert!(Version::parse("v").is_none());
}

#[test]
fn compares_numerically_not_lexically() {
    // 文字列比較では "1.0.10" < "1.0.9" と誤判定してしまう組み合わせ。
    let a = Version::parse("1.0.10").unwrap();
    let b = Version::parse("1.0.9").unwrap();
    assert!(a > b);

    let c = Version::parse("1.10.0").unwrap();
    let d = Version::parse("1.9.0").unwrap();
    assert!(c > d);
}

#[test]
fn equal_versions_are_not_newer() {
    let a = Version::parse("v1.1.0").unwrap();
    let b = Version::parse("1.1.0").unwrap();
    assert!(a <= b);
}

// ---- atom_url_from_api_url ----------------------------------------

#[test]
fn builds_atom_url_from_typical_api_url() {
    assert_eq!(
        atom_url_from_api_url("https://api.github.com/repos/Yu5rin/MyPaste/releases/latest"),
        Some("https://github.com/Yu5rin/MyPaste/releases.atom".to_string())
    );
}

#[test]
fn non_github_api_url_yields_none() {
    // 配布元を差し替えている場合はこの機能を使わず、従来どおり API だけで確認する。
    assert_eq!(
        atom_url_from_api_url("https://example.com/repos/Yu5rin/MyPaste/releases/latest"),
        None
    );
}

#[test]
fn lookalike_host_is_rejected() {
    // ホスト名の一部一致で通してしまわないこと。
    assert_eq!(
        atom_url_from_api_url(
            "https://api.github.com.evil.com/repos/Yu5rin/MyPaste/releases/latest"
        ),
        None
    );
}

#[test]
fn malformed_repos_path_yields_none() {
    assert_eq!(
        atom_url_from_api_url("https://api.github.com/repos/OnlyOwner"),
        None
    );
    assert_eq!(
        atom_url_from_api_url("https://api.github.com/not-repos/a/b/releases/latest"),
        None
    );
}

// ---- build_download_url / build_release_page_url ------------------

#[test]
fn builds_download_url_from_atom_url_and_tag() {
    assert_eq!(
        build_download_url(
            "https://github.com/Yu5rin/MyPaste/releases.atom",
            "v1.2.3",
            "Atai-paste.exe"
        ),
        Some(
            "https://github.com/Yu5rin/MyPaste/releases/download/v1.2.3/Atai-paste.exe"
                .to_string()
        )
    );
}

#[test]
fn download_url_needs_atom_shaped_url() {
    assert_eq!(
        build_download_url(
            "https://github.com/Yu5rin/MyPaste/releases",
            "v1.2.3",
            "Atai-paste.exe"
        ),
        None
    );
}

#[test]
fn download_url_rejects_empty_parts() {
    assert_eq!(
        build_download_url(
            "https://github.com/Yu5rin/MyPaste/releases.atom",
            "",
            "Atai-paste.exe"
        ),
        None
    );
}

#[test]
fn builds_release_page_url() {
    assert_eq!(
        build_release_page_url(
            "https://github.com/Yu5rin/MyPaste/releases.atom",
            "v1.0.8"
        ),
        Some("https://github.com/Yu5rin/MyPaste/releases/tag/v1.0.8".to_string())
    );
}

// ---- is_allowed_download_url ---------------------------------------

#[test]
fn allows_known_github_hosts() {
    assert!(is_allowed_download_url(
        "https://github.com/Yu5rin/MyPaste/releases/download/v1/Atai-paste.exe"
    ));
    assert!(is_allowed_download_url(
        "https://api.github.com/repos/Yu5rin/MyPaste/releases/latest"
    ));
    assert!(is_allowed_download_url(
        "https://objects.githubusercontent.com/foo/bar"
    ));
    assert!(is_allowed_download_url(
        "https://release-assets.githubusercontent.com/foo/bar"
    ));
}

#[test]
fn rejects_other_hosts() {
    assert!(!is_allowed_download_url("https://evil.com/Atai-paste.exe"));
    assert!(!is_allowed_download_url(
        "https://github.com.evil.com/Atai-paste.exe"
    ));
    assert!(!is_allowed_download_url(
        "https://notgithubusercontent.com/foo"
    ));
}

#[test]
fn rejects_non_https() {
    assert!(!is_allowed_download_url(
        "http://github.com/Yu5rin/MyPaste/releases/download/v1/Atai-paste.exe"
    ));
}

#[test]
fn rejects_malformed_urls() {
    assert!(!is_allowed_download_url(""));
    assert!(!is_allowed_download_url("https://"));
    assert!(!is_allowed_download_url("not a url"));
}

// ---- extract_latest_tag_from_atom ----------------------------------

/// GitHub の releases.atom と同じ形の最小フィードを組み立てる。
fn feed(tags: &[&str]) -> String {
    let entries: String = tags
        .iter()
        .map(|t| {
            format!(
                "  <entry>\n    \
                 <id>tag:github.com,2008:Repository/1/{t}</id>\n    \
                 <updated>2026-08-20T00:00:00Z</updated>\n    \
                 <link rel=\"alternate\" type=\"text/html\" href=\"https://github.com/Yu5rin/MyPaste/releases/tag/{t}\"/>\n    \
                 <title>{t}</title>\n  \
                 </entry>\n"
            )
        })
        .collect();
    format!(
        "<?xml version=\"1.0\" encoding=\"UTF-8\"?>\n\
         <feed xmlns=\"http://www.w3.org/2005/Atom\">\n  \
         <id>tag:github.com,2008:https://github.com/Yu5rin/MyPaste/releases</id>\n  \
         <link type=\"text/html\" rel=\"alternate\" href=\"https://github.com/Yu5rin/MyPaste/releases\"/>\n  \
         <title>Release notes from MyPaste</title>\n{entries}\
         </feed>\n"
    )
}

#[test]
fn picks_latest_from_typical_feed() {
    assert_eq!(
        extract_latest_tag_from_atom(&feed(&["v1.0.8", "v1.0.7", "v1.0.6"])),
        Some("v1.0.8".to_string())
    );
}

#[test]
fn picks_max_version_even_when_order_is_reversed() {
    // フィードは普通は新しい順だが、それに頼ると並びが変わったときに
    // 古い版を「最新」と判断してしまう。
    assert_eq!(
        extract_latest_tag_from_atom(&feed(&["v1.0.6", "v1.0.8", "v1.0.7"])),
        Some("v1.0.8".to_string())
    );
}

#[test]
fn numeric_comparison_not_lexical_in_feed() {
    // "1.0.10" は文字列比較だと "1.0.9" より小さく見えてしまう。
    assert_eq!(
        extract_latest_tag_from_atom(&feed(&["v1.0.9", "v1.0.10"])),
        Some("v1.0.10".to_string())
    );
}

#[test]
fn ignores_tags_that_are_not_versions() {
    // 下書き用の名前が混ざっていても、読める中での最大を返す。
    assert_eq!(
        extract_latest_tag_from_atom(&feed(&["nightly", "v1.0.7", "wip"])),
        Some("v1.0.7".to_string())
    );
}

#[test]
fn returns_none_when_no_tag_is_readable() {
    assert_eq!(extract_latest_tag_from_atom(&feed(&["nightly", "wip"])), None);
}

#[test]
fn returns_none_for_empty_feed() {
    assert_eq!(extract_latest_tag_from_atom(&feed(&[])), None);
}

#[test]
fn returns_none_for_broken_xml() {
    for xml in [
        "",
        "<feed>閉じていない",
        "これは xml ではない",
        "<html><body>502 Bad Gateway</body></html>",
        "<feed><entry><link href=\"https://github.com/a/b/releases/tag/v1.0.0\"></feed>",
    ] {
        assert_eq!(extract_latest_tag_from_atom(xml), None, "input: {xml:?}");
    }
}

#[test]
fn skips_entries_without_link() {
    let xml = "<?xml version=\"1.0\"?>\n\
         <feed xmlns=\"http://www.w3.org/2005/Atom\">\n  \
         <entry><title>v9.9.9</title></entry>\n  \
         <entry>\n    \
         <link rel=\"alternate\" type=\"text/html\" href=\"https://github.com/Yu5rin/MyPaste/releases/tag/v1.0.8\"/>\n    \
         <title>v1.0.8</title>\n  \
         </entry>\n\
         </feed>";
    // タグ名は link の href から取る。title だけの entry は当てにしない。
    assert_eq!(extract_latest_tag_from_atom(xml), Some("v1.0.8".to_string()));
}

#[test]
fn decodes_percent_encoded_tag_names() {
    let xml = "<feed xmlns=\"http://www.w3.org/2005/Atom\">\n\
         <entry>\n\
         <link rel=\"alternate\" href=\"https://github.com/Yu5rin/MyPaste/releases/tag/v1.0.9%2Bwin\"/>\n\
         </entry>\n\
         </feed>";
    assert_eq!(
        extract_latest_tag_from_atom(xml),
        Some("v1.0.9+win".to_string())
    );
}

#[test]
fn handles_single_quoted_attributes() {
    let xml = "<feed xmlns='http://www.w3.org/2005/Atom'>\n\
         <entry>\n\
         <link rel='alternate' href='https://github.com/Yu5rin/MyPaste/releases/tag/v2.0.0'/>\n\
         </entry>\n\
         </feed>";
    assert_eq!(extract_latest_tag_from_atom(xml), Some("v2.0.0".to_string()));
}

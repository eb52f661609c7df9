use mail_sessions::info::Info;

#[test]
fn info_urls() {
    let info = Info::default();
    assert_eq!(info.repo_url(), "https://github.com/Dust-Mail/desktop");
    assert_eq!(info.donate_url(), "https://ko-fi.com/Guusvanmeerveld");
    assert_eq!(info.issue_url(), "https://github.com/Dust-Mail/desktop/issues");
    assert_eq!(
        info.license_url(),
        "https://github.com/Dust-Mail/desktop/blob/main/LICENSE"
    );
}

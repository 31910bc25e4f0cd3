use pgyer::file::upload;
use pgyer::poll::{
    build_report, exit_code, poll_step, share_url, upload_accepted, upload_fields, PollAction,
    PollState,
};
use pgyer::probe::{check_proxy, ProbeNotice, ProbeReply};
use pgyer::reply::{
    print_build_info, read_credential, read_reply, reply_outcome, ApiReply, BuildDetail,
    ResponseError,
};
use pgyer::request::{get_cos_token, BuildType, UploadRequest};

fn code_reply(code: i64) -> ApiReply {
    read_reply(&format!("{{\"code\":{}}}", code)).unwrap()
}

const SUCCESS_BODY: &str = r#"{"code":0,"data":{"buildVersion":"1.0","buildCreated":"2024-01-01","buildDescription":"first","buildQRCodeURL":"https://example.com/qr.png","buildShortcutUrl":"abcd"}}"#;

fn lines_of(action: &PollAction) -> Vec<String> {
    match action {
        PollAction::ShowBuild(lines) => lines.clone(),
        _ => panic!("expected build details"),
    }
}

#[test]
fn queued_processing_then_success() {
    let mut state = PollState::Pending;
    let (next, action) = poll_step(state, Some(&code_reply(1246)));
    assert_eq!(next, PollState::Pending);
    assert!(matches!(action, PollAction::Continue));
    assert_eq!(exit_code(next), None);
    state = next;
    let (next, action) = poll_step(state, Some(&code_reply(1247)));
    assert_eq!(next, PollState::Processing);
    assert!(matches!(action, PollAction::Continue));
    state = next;
    let ok = read_reply(SUCCESS_BODY).unwrap();
    let (next, action) = poll_step(state, Some(&ok));
    assert_eq!(next, PollState::Succeeded);
    let lines = lines_of(&action);
    assert_eq!(lines.len(), 5);
    assert_eq!(lines[0], "buildVersion: 1.0");
    assert_eq!(lines[1], "buildCreated: 2024-01-01");
    assert_eq!(lines[2], "buildDescription: first");
    assert_eq!(lines[3], "buildQRCodeURL: https://example.com/qr.png");
    assert_eq!(exit_code(next), Some(0));
}

#[test]
fn failure_code_stops_polling() {
    let (next, action) = poll_step(PollState::Processing, Some(&code_reply(1216)));
    assert_eq!(next, PollState::Failed);
    assert!(matches!(action, PollAction::ShowFailure));
    assert!(next.is_terminal());
    assert_eq!(exit_code(next), Some(0));
    let (after, action) = poll_step(next, Some(&code_reply(1246)));
    assert_eq!(after, PollState::Failed);
    assert!(matches!(action, PollAction::Finished));
}

#[test]
fn unknown_code_shows_raw_and_exits_one() {
    let body = "{\"code\":9999,\"message\":\"odd\"}";
    let reply = read_reply(body).unwrap();
    let (next, action) = poll_step(PollState::Pending, Some(&reply));
    assert_eq!(next, PollState::UnknownError);
    match action {
        PollAction::ShowRaw(raw) => assert_eq!(raw, body),
        _ => panic!("expected the raw reply"),
    }
    assert_eq!(exit_code(next), Some(1));
}

#[test]
fn success_code_without_details_is_unknown() {
    let (next, action) = poll_step(PollState::Pending, Some(&code_reply(0)));
    assert_eq!(next, PollState::UnknownError);
    assert!(matches!(action, PollAction::ShowRaw(_)));
}

#[test]
fn unreadable_poll_reply_is_retried() {
    assert_eq!(read_reply("<html>").err(), Some(ResponseError::Malformed));
    let (next, action) = poll_step(PollState::Processing, None);
    assert_eq!(next, PollState::Processing);
    assert!(matches!(action, PollAction::Continue));
}

#[test]
fn upload_apk_end_to_end() {
    let file = upload(Some("app.apk"), Some(1024)).unwrap();
    assert_eq!(file.build_type, BuildType::Apk);
    let req = UploadRequest {
        channel: None,
        description: None,
        install_date: None,
        install_start_date: None,
        install_end_date: None,
        password: None,
        install_type: Some("1".to_string()),
    };
    let call = get_cos_token(&req, "0123456789abcdef0123456789abcdef", file.build_type).unwrap();
    assert_eq!(call.fields[1].1, "apk");
    let token = r#"{"code":0,"data":{"key":"obj/key","endpoint":"https://cos.example.com","params":{"signature":"sig","x-cos-security-token":"tok"}}}"#;
    let cred = read_credential(200, token).unwrap();
    assert_eq!(cred.endpoint, "https://cos.example.com");
    let fields = upload_fields(&cred);
    assert_eq!(fields[0], ("signature".to_string(), "sig".to_string()));
    assert_eq!(fields[1], ("x-cos-security-token".to_string(), "tok".to_string()));
    assert_eq!(fields[2], ("key".to_string(), "obj/key".to_string()));
    assert!(upload_accepted(204));
    let (state, action) = poll_step(PollState::Pending, Some(&code_reply(1246)));
    assert!(matches!(action, PollAction::Continue));
    let (state, action) = poll_step(state, Some(&read_reply(SUCCESS_BODY).unwrap()));
    let lines = lines_of(&action);
    assert_eq!(lines[4], "buildShortcutUrl: https://www.pgyer.com/abcd");
    assert_eq!(exit_code(state), Some(0));
}

#[test]
fn upload_status_other_than_204_fails() {
    assert!(!upload_accepted(200));
    assert!(!upload_accepted(403));
}

#[test]
fn credential_reading_errors() {
    assert_eq!(read_credential(200, "not json").err(), Some(ResponseError::Malformed));
    assert_eq!(read_credential(200, "{\"code\":0}").err(), Some(ResponseError::MissingField));
    let partial = r#"{"data":{"key":"k","params":{"signature":"s","x-cos-security-token":"t"}}}"#;
    assert_eq!(read_credential(200, partial).err(), Some(ResponseError::MissingField));
    assert_eq!(read_credential(502, "{}").err(), Some(ResponseError::Rejected(502)));
    assert_eq!(read_credential(404, "not json").err(), Some(ResponseError::Rejected(404)));
}

#[test]
fn reply_fields_come_from_the_body() {
    let body = r#"{"code":7,"message":"hi","data":{"buildBuildVersion":"12","buildCreated":"c","buildDescription":"d","buildQRCodeURL":"q","buildShortcutUrl":"s"}}"#;
    let r = read_reply(body).unwrap();
    assert_eq!(r.code, Some(7));
    assert_eq!(r.message, Some("hi".to_string()));
    let d = r.detail.unwrap();
    assert_eq!(d.version, "12");
    assert_eq!(d.shortcut, "s");
    assert!(r.data_pretty.unwrap().contains("\"buildCreated\": \"c\""));
    let both = r#"{"code":0,"data":{"buildVersion":"1.0","buildBuildVersion":"3","buildCreated":"c","buildDescription":"d","buildQRCodeURL":"q","buildShortcutUrl":"s"}}"#;
    assert_eq!(read_reply(both).unwrap().detail.unwrap().version, "1.0");
    let partial = r#"{"code":0,"data":{"buildVersion":"1.0"}}"#;
    assert!(read_reply(partial).unwrap().detail.is_none());
    let bare = read_reply("[1]").unwrap();
    assert_eq!(bare.code, None);
    assert!(bare.message.is_none());
}

#[test]
fn share_url_and_report() {
    assert_eq!(share_url("xyz"), "https://www.pgyer.com/xyz");
    let d = BuildDetail {
        version: "7".to_string(),
        created: "c".to_string(),
        description: "d".to_string(),
        qr_code_url: "q".to_string(),
        shortcut: "s".to_string(),
    };
    let lines = build_report(&d);
    assert_eq!(lines[0], "buildVersion: 7");
    assert_eq!(lines[4], "buildShortcutUrl: https://www.pgyer.com/s");
}

#[test]
fn one_shot_outcomes() {
    let ok = read_reply("{\"code\":0,\"data\":{\"a\":1}}").unwrap();
    assert_eq!(ok.code, Some(0));
    let shown = reply_outcome(&ok).unwrap().unwrap();
    assert!(shown.contains("\"a\": 1"));
    assert_eq!(print_build_info(&ok), Some(shown));
    let bad = read_reply("{\"code\":1002,\"message\":\"no such app\"}").unwrap();
    assert_eq!(reply_outcome(&bad), Err("no such app".to_string()));
    let bare = read_reply("{\"code\":5}").unwrap();
    assert_eq!(reply_outcome(&bare), Err("{\"code\":5}".to_string()));
}

#[test]
fn probe_verdicts() {
    let n = check_proxy(&ProbeReply::Status(200), &ProbeReply::Status(403));
    assert_eq!(n.len(), 1);
    assert!(matches!(n[0], ProbeNotice::ProxySuspected));
    let n = check_proxy(&ProbeReply::Unreachable("timeout".to_string()), &ProbeReply::Status(200));
    assert_eq!(n.len(), 1);
    assert!(matches!(n[0], ProbeNotice::NetworkOk));
    let n = check_proxy(&ProbeReply::Status(502), &ProbeReply::Status(500));
    assert_eq!(n.len(), 2);
    assert!(matches!(n[0], ProbeNotice::ProbeStatus(502)));
    assert!(matches!(n[1], ProbeNotice::StorageStatus(500)));
    let n = check_proxy(&ProbeReply::Unreachable("x".to_string()), &ProbeReply::Unreachable("dns".to_string()));
    match &n[1] {
        ProbeNotice::StorageError(e) => assert_eq!(e, "dns"),
        _ => panic!("expected a storage error"),
    }
}

use lnav_rs_ext::exec::{
    build_exec_call, exec_response, extract_vars, normalize_headers, script_body_with_limit,
    ExecError, ExecOutcome, ExecResult, ScriptTextError, EXEC_BODY_LIMIT,
};
use lnav_rs_ext::json::json_object_of_pairs;
use std::collections::BTreeMap;

const SCRIPT_CT: &str = "text/x-lnav-script";

#[test]
fn body_exactly_at_limit_succeeds() {
    let body = vec![b'a'; EXEC_BODY_LIMIT];
    let r = script_body_with_limit(Some(SCRIPT_CT), Some(body), EXEC_BODY_LIMIT);
    assert_eq!(r.unwrap().len(), EXEC_BODY_LIMIT);
}

#[test]
fn body_one_byte_over_limit_is_rejected() {
    let body = vec![b'a'; EXEC_BODY_LIMIT + 1];
    let r = script_body_with_limit(Some(SCRIPT_CT), Some(body), EXEC_BODY_LIMIT);
    assert_eq!(r.unwrap_err(), ScriptTextError::LimitExceeded);
}

#[test]
fn small_body_is_decoded() {
    let r = script_body_with_limit(Some(SCRIPT_CT), Some(b":version\n".to_vec()), 1024);
    assert_eq!(r.unwrap(), ":version\n");
}

#[test]
fn content_type_with_parameters_is_accepted() {
    let ct = "text/x-lnav-script; charset=utf-8";
    let r = script_body_with_limit(Some(ct), Some(b"x".to_vec()), 1024);
    assert_eq!(r.unwrap(), "x");
}

#[test]
fn wrong_content_type_is_rejected_before_the_body() {
    // Even with no body at all, the content type alone decides.
    let r = script_body_with_limit(Some("application/json"), None, 1024);
    assert_eq!(r.unwrap_err(), ScriptTextError::WrongContentType);
    let r = script_body_with_limit(None, Some(b"x".to_vec()), 1024);
    assert_eq!(r.unwrap_err(), ScriptTextError::WrongContentType);
    // An oversized body does not change the answer.
    let r = script_body_with_limit(Some("text/plain"), Some(vec![0u8; 4096]), 16);
    assert_eq!(r.unwrap_err(), ScriptTextError::WrongContentType);
}

#[test]
fn missing_body_is_its_own_error() {
    let r = script_body_with_limit(Some(SCRIPT_CT), None, 1024);
    assert_eq!(r.unwrap_err(), ScriptTextError::BodyAlreadyExtracted);
}

#[test]
fn invalid_utf8_is_rejected() {
    let r = script_body_with_limit(Some(SCRIPT_CT), Some(vec![0xff, 0xfe]), 1024);
    assert_eq!(r.unwrap_err(), ScriptTextError::NotUtf8);
}

#[test]
fn error_descriptions_are_fixed() {
    assert_eq!(
        ScriptTextError::LimitExceeded.describe(),
        "the limit to the number of bytes has been exceeded"
    );
    assert_eq!(
        ScriptTextError::WrongContentType.describe(),
        "the request didn't have a plain text content type"
    );
}

#[test]
fn headers_are_lowercased_sorted_and_last_occurrence_wins() {
    let headers = vec![
        ("X-A".to_string(), "1".to_string()),
        ("x-a".to_string(), "2".to_string()),
        ("B".to_string(), "3".to_string()),
    ];
    let normalized = normalize_headers(&headers);
    assert_eq!(
        normalized,
        vec![
            ("b".to_string(), "3".to_string()),
            ("x-a".to_string(), "2".to_string()),
        ]
    );
    // Keys come out in ascending order whatever order they arrived in.
    let headers = vec![
        ("A".to_string(), "1".to_string()),
        ("C".to_string(), "2".to_string()),
        ("B".to_string(), "3".to_string()),
    ];
    assert_eq!(
        normalize_headers(&headers),
        vec![
            ("a".to_string(), "1".to_string()),
            ("b".to_string(), "3".to_string()),
            ("c".to_string(), "2".to_string()),
        ]
    );
}

#[test]
fn header_json_matches_the_reference_serializer() {
    let headers = vec![
        ("K".to_string(), "a\"b\\c\nd\u{1}e".to_string()),
        ("Accept".to_string(), "*/*".to_string()),
        ("zulu".to_string(), "last".to_string()),
        ("ACCEPT".to_string(), "text/plain".to_string()),
    ];
    let normalized = normalize_headers(&headers);
    let mine = json_object_of_pairs(&normalized);
    let map: BTreeMap<String, String> = headers
        .iter()
        .map(|(name, value)| (name.to_lowercase(), value.clone()))
        .collect();
    let reference = serde_json::to_string(&map).unwrap();
    assert_eq!(mine, reference);
}

#[test]
fn vars_come_from_prefixed_headers_in_order() {
    let headers = vec![
        ("Content-Type".to_string(), SCRIPT_CT.to_string()),
        ("X-Lnav-Var-user".to_string(), "alice".to_string()),
        ("X-Lnav-Var-row".to_string(), "17".to_string()),
        ("x-lnav-var-lower".to_string(), "ignored".to_string()),
    ];
    let vars = extract_vars(&headers);
    assert_eq!(vars.len(), 2);
    assert_eq!(vars[0].expr, "user");
    assert_eq!(vars[0].value, "alice");
    assert_eq!(vars[1].expr, "row");
    assert_eq!(vars[1].value, "17");
}

#[test]
fn build_exec_call_assembles_everything() {
    let headers = vec![
        ("Content-Type".to_string(), SCRIPT_CT.to_string()),
        ("X-Lnav-Var-n".to_string(), "5".to_string()),
    ];
    let call = build_exec_call(
        "127.0.0.1:9".to_string(),
        Some(SCRIPT_CT),
        Some(b":version".to_vec()),
        &headers,
    )
    .unwrap();
    assert_eq!(call.src, "127.0.0.1:9");
    assert_eq!(call.body, ":version");
    assert_eq!(call.vars.len(), 1);
    assert_eq!(call.vars[0].expr, "n");
    assert_eq!(
        call.headers_json,
        "{\"content-type\":\"text/x-lnav-script\",\"x-lnav-var-n\":\"5\"}"
    );
}

#[test]
fn build_exec_call_propagates_rejections() {
    let headers: Vec<(String, String)> = Vec::new();
    let r = build_exec_call("s".to_string(), Some("text/plain"), None, &headers);
    match r {
        Err(e) => assert_eq!(e, ScriptTextError::WrongContentType),
        Ok(_) => panic!("expected a rejection"),
    }
}

#[test]
fn exec_success_streams_the_content() {
    let res = ExecResult {
        status: "ok".to_string(),
        content_type: "text/plain".to_string(),
        content_fd: 7,
        error: ExecError {
            msg: String::new(),
            reason: String::new(),
            help: String::new(),
        },
    };
    match exec_response(res) {
        ExecOutcome::Stream {
            content_type,
            content_fd,
        } => {
            assert_eq!(content_type, "text/plain");
            assert_eq!(content_fd, 7);
        }
        ExecOutcome::Failure { .. } => panic!("expected a stream"),
    }
}

#[test]
fn exec_failure_is_serialized_with_status_500() {
    let res = ExecResult {
        status: "error".to_string(),
        content_type: String::new(),
        content_fd: -1,
        error: ExecError {
            msg: "boom".to_string(),
            reason: "bad script".to_string(),
            help: "fix it".to_string(),
        },
    };
    match exec_response(res) {
        ExecOutcome::Failure { status, body_json } => {
            assert_eq!(status, 500);
            assert_eq!(
                body_json,
                "{\"msg\":\"boom\",\"reason\":\"bad script\",\"help\":\"fix it\"}"
            );
        }
        ExecOutcome::Stream { .. } => panic!("expected a failure"),
    }
}

use webhook::form::{Part, SaveOrder};
use webhook::handler::{handle_webhook, image_written, Reply, Request, Response, MULTIPART, POST};
use webhook::log::ErrorLog;

fn part(name: &str, data: &[u8]) -> Part {
    Part { name: Some(name.to_string()), data: data.to_vec() }
}

fn request(method: &str, content_type: Option<&[u8]>) -> Request {
    Request { method: method.to_string(), content_type: content_type.map(|v| v.to_vec()) }
}

fn multipart_post() -> Request {
    request("POST", Some(b"multipart/form-data; boundary=xyz"))
}

fn entry(log: &ErrorLog) -> Option<String> {
    log.get("errorHandler").cloned()
}

fn ok() -> Response {
    Response { status: 200, body: "OK".to_string() }
}

#[test]
fn handler_constants_are_fixed() {
    assert_eq!(POST, "POST");
    assert_eq!(MULTIPART, "multipart/form-data");
}

#[test]
fn responses_have_their_status_and_body() {
    assert_eq!(Response::method_not_allowed(), Response { status: 405, body: String::new() });
    assert_eq!(Response::bad_request(), Response { status: 400, body: String::new() });
    assert_eq!(Response::ok(), Response { status: 200, body: "OK".to_string() });
}

#[test]
fn other_methods_are_answered_405() {
    for method in ["GET", "PUT", "DELETE", "post", "Post", "POST ", ""] {
        for content_type in [None, Some(&b"multipart/form-data"[..]), Some(&b"text/plain"[..])] {
            let mut log = ErrorLog::new();
            let body = vec![part("status", b"200"), part("res_image", &[1])];
            let reply = handle_webhook(&request(method, content_type), body, &mut log);
            assert_eq!(
                reply,
                Reply { response: Response::method_not_allowed(), save: None, notice: None }
            );
            assert_eq!(reply.response.status, 405);
            assert_eq!(reply.response.body, "");
            assert_eq!(log.len(), 0);
        }
    }
}

#[test]
fn method_is_checked_before_the_content_type() {
    let refused = request("GET", None).refusal();
    assert_eq!(refused, Some(Response { status: 405, body: String::new() }));
}

#[test]
fn missing_content_type_is_answered_400() {
    let mut log = ErrorLog::new();
    let body = vec![part("status", b"200"), part("res_image", &[1])];
    let reply = handle_webhook(&request("POST", None), body, &mut log);
    assert_eq!(reply, Reply { response: Response::bad_request(), save: None, notice: None });
    assert_eq!(reply.response.status, 400);
    assert_eq!(reply.response.body, "");
    assert_eq!(log.len(), 0);
}

#[test]
fn other_content_types_are_answered_400() {
    let values: [&[u8]; 7] = [
        b"",
        b"application/json",
        b"multipart/form-dat",
        b"multipart/mixed",
        b"Multipart/Form-Data",
        b"multipart /form-data",
        b"form-data/multipart",
    ];
    for value in values {
        let mut log = ErrorLog::new();
        let reply = handle_webhook(&request("POST", Some(value)), vec![], &mut log);
        assert_eq!(reply.response, Response { status: 400, body: String::new() });
        assert!(reply.save.is_none());
        assert!(reply.notice.is_none());
        assert_eq!(log.len(), 0);
    }
}

#[test]
fn content_type_that_is_not_visible_ascii_is_answered_400() {
    let values: [&[u8]; 4] = [
        b"multipart/form-data; boundary=\xe9",
        b"\xffmultipart/form-data",
        b"multipart/form-data\x7f",
        b"multipart/form-data\x00",
    ];
    for value in values {
        let asked = request("POST", Some(value));
        assert!(!asked.is_multipart());
        assert_eq!(asked.refusal(), Some(Response { status: 400, body: String::new() }));
    }
}

#[test]
fn content_type_holding_the_marker_is_admitted() {
    let values: [&[u8]; 5] = [
        b"multipart/form-data",
        b"multipart/form-data; boundary=----abc",
        b"x multipart/form-data",
        b"\tmultipart/form-data\t",
        b"text/plain, multipart/form-data-extended",
    ];
    for value in values {
        let asked = request("POST", Some(value));
        assert!(asked.is_multipart());
        assert_eq!(asked.refusal(), None);
    }
}

#[test]
fn is_multipart_does_not_look_at_the_method() {
    assert!(request("GET", Some(b"multipart/form-data")).is_multipart());
    assert!(!request("POST", None).is_multipart());
}

#[test]
fn status_200_with_image_orders_a_save() {
    let mut log = ErrorLog::new();
    let image = vec![0x89, b'P', b'N', b'G', 0x0d, 0x0a];
    let body = vec![
        part("status", b"200"),
        part("id_gen", b"17"),
        part("time_gen", b"09:30"),
        part("img_message", b"fine"),
        part("res_image", &image),
    ];
    let reply = handle_webhook(&multipart_post(), body, &mut log);
    assert_eq!(reply.response.status, 200);
    assert_eq!(reply.response.body, "OK");
    assert_eq!(
        reply.save,
        Some(SaveOrder { image, id_gen: "17".to_string(), time_gen: "09:30".to_string() })
    );
    assert_eq!(reply.notice, None);
    assert_eq!(log.len(), 0);
}

#[test]
fn status_404_is_answered_ok_and_logged() {
    let mut log = ErrorLog::new();
    let body = vec![part("status", b"404"), part("img_message", b"not found")];
    let reply = handle_webhook(&multipart_post(), body, &mut log);
    assert_eq!(reply.response, ok());
    assert_eq!(reply.save, None);
    assert_eq!(reply.notice, Some("errorHandler: not found".to_string()));
    assert_eq!(entry(&log), Some("not found".to_string()));
    assert_eq!(log.len(), 1);
}

#[test]
fn status_404_with_image_saves_nothing() {
    let mut log = ErrorLog::new();
    let body = vec![
        part("status", b"404"),
        part("img_message", b"not found"),
        part("res_image", &[1, 2, 3]),
    ];
    let reply = handle_webhook(&multipart_post(), body, &mut log);
    assert_eq!(reply.response, ok());
    assert_eq!(reply.save, None);
    assert_eq!(entry(&log), Some("not found".to_string()));
}

#[test]
fn missing_image_is_answered_ok_and_logged() {
    let mut log = ErrorLog::new();
    let body = vec![part("status", b"200"), part("id_gen", b"1")];
    let reply = handle_webhook(&multipart_post(), body, &mut log);
    assert_eq!(reply.response, ok());
    assert_eq!(reply.save, None);
    assert_eq!(reply.notice, Some("errorHandler: resImage is not a file".to_string()));
    assert_eq!(entry(&log), Some("resImage is not a file".to_string()));
}

#[test]
fn near_miss_statuses_take_the_error_path() {
    for status in ["200 ", "OK", "", "0200"] {
        let mut log = ErrorLog::new();
        let body = vec![part("status", status.as_bytes()), part("res_image", &[1])];
        let reply = handle_webhook(&multipart_post(), body, &mut log);
        assert_eq!(reply.response, ok());
        assert_eq!(reply.save, None);
        assert_eq!(reply.notice, Some("errorHandler: ".to_string()));
        assert_eq!(entry(&log), Some(String::new()));
    }
}

#[test]
fn undecodable_text_is_answered_ok_and_logged() {
    let mut log = ErrorLog::new();
    let body = vec![part("status", &[0xff]), part("res_image", &[1])];
    let reply = handle_webhook(&multipart_post(), body, &mut log);
    assert_eq!(reply.response, ok());
    assert_eq!(reply.save, None);
    assert_eq!(entry(&log), Some("status is not valid UTF-8".to_string()));
}

#[test]
fn second_submission_replaces_the_first_image() {
    let mut log = ErrorLog::new();
    let first = vec![part("status", b"200"), part("res_image", &[1, 1, 1, 1])];
    let second = vec![part("status", b"200"), part("res_image", &[2, 2])];
    let one = handle_webhook(&multipart_post(), first, &mut log);
    let two = handle_webhook(&multipart_post(), second, &mut log);
    assert_eq!(one.save.map(|order| order.image), Some(vec![1, 1, 1, 1]));
    assert_eq!(two.save.map(|order| order.image), Some(vec![2, 2]));
    assert_eq!(two.response, ok());
    assert_eq!(log.len(), 0);
}

#[test]
fn later_failure_replaces_the_logged_message() {
    let mut log = ErrorLog::new();
    let first = vec![part("status", b"404"), part("img_message", b"not found")];
    let second = vec![part("status", b"500"), part("img_message", b"broken")];
    handle_webhook(&multipart_post(), first, &mut log);
    handle_webhook(&multipart_post(), second, &mut log);
    assert_eq!(entry(&log), Some("broken".to_string()));
    assert_eq!(log.len(), 1);
}

#[test]
fn success_leaves_an_earlier_message_in_the_log() {
    let mut log = ErrorLog::new();
    let first = vec![part("status", b"404"), part("img_message", b"not found")];
    let second = vec![part("status", b"200"), part("res_image", &[5])];
    handle_webhook(&multipart_post(), first, &mut log);
    let reply = handle_webhook(&multipart_post(), second, &mut log);
    assert!(reply.save.is_some());
    assert_eq!(entry(&log), Some("not found".to_string()));
}

#[test]
fn refused_request_leaves_the_log_alone() {
    let mut log = ErrorLog::new();
    log.record("errorHandler", "old");
    let body = vec![part("status", b"404"), part("img_message", b"new")];
    handle_webhook(&request("GET", Some(b"multipart/form-data")), body, &mut log);
    assert_eq!(entry(&log), Some("old".to_string()));
}

#[test]
fn written_image_gives_the_success_line() {
    let mut log = ErrorLog::new();
    let order = SaveOrder { image: vec![1], id_gen: "17".to_string(), time_gen: "09:30".to_string() };
    let line = image_written(&order, Ok(()), &mut log);
    assert_eq!(line, "processFormData: ID: 17, Time: 09:30");
    assert_eq!(log.len(), 0);
}

#[test]
fn failed_write_is_logged() {
    let mut log = ErrorLog::new();
    let order = SaveOrder { image: vec![1], id_gen: "17".to_string(), time_gen: "09:30".to_string() };
    let line = image_written(&order, Err("Permission denied (os error 13)".to_string()), &mut log);
    assert_eq!(line, "errorHandler: Permission denied (os error 13)");
    assert_eq!(entry(&log), Some("Permission denied (os error 13)".to_string()));
    assert_eq!(log.len(), 1);
}

use loganalyzer::access::format_access_line;
use loganalyzer::access::logger_name;
use loganalyzer::access::AccessRecord;
use loganalyzer::router::Method;

#[test]
fn logger_name_is_fixed() {
    assert_eq!(logger_name(), "loganalyzer");
}

#[test]
fn access_line_layout() {
    let r = AccessRecord {
        method: Method::Get,
        target: b"/".to_vec(),
        status: 200,
        body_len: 4,
        elapsed_micros: 1500,
        peer: b"127.0.0.1:5000".to_vec(),
    };
    let line = format_access_line(&r);
    assert_eq!(line, b"GET / 200 4B 1500us 127.0.0.1:5000".to_vec());
}

#[test]
fn access_line_for_collect() {
    let r = AccessRecord {
        method: Method::Post,
        target: b"/collect?x=1".to_vec(),
        status: 400,
        body_len: 11,
        elapsed_micros: 0,
        peer: b"[::1]:60000".to_vec(),
    };
    let line = format_access_line(&r);
    assert_eq!(line, b"POST /collect?x=1 400 11B 0us [::1]:60000".to_vec());
}

#[test]
fn one_record_per_completion() {
    let r = AccessRecord {
        method: Method::Put,
        target: b"/".to_vec(),
        status: 405,
        body_len: 18,
        elapsed_micros: 42,
        peer: b"10.0.0.9:1234".to_vec(),
    };
    let line = format_access_line(&r);
    let text = String::from_utf8(line).unwrap();
    assert_eq!(text.lines().count(), 1);
    assert!(text.starts_with("PUT "));
    assert!(text.contains(" 405 "));
}

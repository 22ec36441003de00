use lib::ns_url_connection::{
    refuses_request, send_synchronous_request, url_string_from_request,
    NSURLConnectionHostObject, SyncRequestError, NSURLErrorDomain,
    NSURLErrorNotConnectedToInternet,
};

#[test]
fn error_constants() {
    assert_eq!(NSURLErrorDomain, "NSURLErrorDomain");
    assert_eq!(NSURLErrorNotConnectedToInternet, -1009);
}

#[test]
fn sync_request_without_network() {
    let r = send_synchronous_request(0x100, 0x200, false);
    assert!(r.clear_response);
    assert_eq!(r.error, SyncRequestError::Error(-1009));
    assert_eq!(r.result, 0);
}

#[test]
fn sync_request_with_network() {
    let r = send_synchronous_request(0x100, 0x200, true);
    assert!(r.clear_response);
    assert_eq!(r.error, SyncRequestError::NoError);
    assert_eq!(r.result, 0);
}

#[test]
fn sync_request_null_pointers() {
    let r = send_synchronous_request(0, 0, false);
    assert!(!r.clear_response);
    assert_eq!(r.error, SyncRequestError::NotRequested);
    assert_eq!(r.result, 0);
}

#[test]
fn refusal_needs_request_and_no_network() {
    assert!(refuses_request(0x100, false));
    assert!(!refuses_request(0x100, true));
    assert!(!refuses_request(0, false));
    assert!(!refuses_request(0, true));
}

#[test]
fn url_description() {
    assert_eq!(url_string_from_request(0, String::new()), "(null)");
    assert_eq!(url_string_from_request(0x100, String::from("http://a/b")), "http://a/b");
}

#[test]
fn allocated_connection_is_idle() {
    let c = NSURLConnectionHostObject::new();
    assert_eq!(c.request, 0);
    assert_eq!(c.delegate, 0);
    assert!(!c.cancelled);
    assert!(!c.started);
}

#[test]
fn start_immediately_tells_delegate_once() {
    let mut c = NSURLConnectionHostObject::new();
    assert_eq!(c.init_with_request(0x100, 0x200, true), Some(0x200));
    assert!(c.started);
    assert_eq!(c.start(), None);
    assert_eq!(c.start_connection_loading(), None);
}

#[test]
fn deferred_start() {
    let mut c = NSURLConnectionHostObject::new();
    assert_eq!(c.init_with_request(0x100, 0x200, false), None);
    assert!(!c.started);
    assert_eq!(c.start(), Some(0x200));
    assert!(c.started);
    assert_eq!(c.start(), None);
}

#[test]
fn nil_request_does_not_start() {
    let mut c = NSURLConnectionHostObject::new();
    assert_eq!(c.init_with_request(0, 0x200, true), None);
    assert!(!c.started);
}

#[test]
fn cancelled_connection_stays_silent() {
    let mut c = NSURLConnectionHostObject::new();
    c.init_with_request(0x100, 0x200, false);
    c.cancel();
    assert!(c.cancelled);
    assert_eq!(c.start(), None);
    assert!(c.started);
}

#[test]
fn no_delegate_no_message() {
    let mut c = NSURLConnectionHostObject::new();
    assert_eq!(c.init_with_request(0x100, 0, true), None);
    assert!(c.started);
}

use s3_edit::store::{classify_failure, select_proxy, StoreError};

#[test]
fn status_404_is_not_found() {
    assert_eq!(classify_failure(Some(404)), StoreError::NotFound);
}

#[test]
fn status_403_is_access_denied() {
    assert_eq!(classify_failure(Some(403)), StoreError::AccessDenied);
}

#[test]
fn other_statuses_are_transport_errors() {
    for status in [0u16, 200, 301, 400, 401, 402, 405, 500, 503, u16::MAX] {
        assert_eq!(classify_failure(Some(status)), StoreError::Transport);
    }
}

#[test]
fn no_answer_is_a_transport_error() {
    assert_eq!(classify_failure(None), StoreError::Transport);
}

#[test]
fn no_proxy_without_the_variables() {
    assert_eq!(select_proxy(None, None), None);
}

#[test]
fn http_proxy_alone_is_used() {
    assert_eq!(
        select_proxy(Some("http://proxy:3128".to_string()), None),
        Some("http://proxy:3128".to_string())
    );
}

#[test]
fn https_proxy_alone_is_used() {
    assert_eq!(
        select_proxy(None, Some("http://secure:3129".to_string())),
        Some("http://secure:3129".to_string())
    );
}

#[test]
fn http_proxy_comes_first() {
    assert_eq!(
        select_proxy(Some("http://proxy:3128".to_string()), Some("http://secure:3129".to_string())),
        Some("http://proxy:3128".to_string())
    );
}

//! The rules of the object store client that need no network: how a failed
//! request is classified, and which proxy the store traffic goes through.

use vstd::prelude::*;

verus! {

/// Why a request to the store failed.
#[derive(Clone, Copy, Debug, PartialEq, Eq, Structural)]
pub enum StoreError {
    /// The object, or its bucket, does not exist.
    NotFound,
    /// The credentials do not allow the request.
    AccessDenied,
    /// The request did not get through: the network, a timeout, or an
    /// answer of the store that names neither of the other two.
    Transport,
}

/// The class of a failed request by the HTTP status of the store's answer;
/// `None` where no answer came.
pub open spec fn class_of_status(status: Option<u16>) -> StoreError {
    match status {
        Some(code) => if code == 404 {
            StoreError::NotFound
        } else if code == 403 {
            StoreError::AccessDenied
        } else {
            StoreError::Transport
        },
        None => StoreError::Transport,
    }
}

/// Classifies a failed request: 404 is `NotFound`, 403 is `AccessDenied`,
/// everything else, and no answer at all, is `Transport`.
pub fn classify_failure(status: Option<u16>) -> (error: StoreError)
    ensures
        error == class_of_status(status),
{
    match status {
        Some(404) => StoreError::NotFound,
        Some(403) => StoreError::AccessDenied,
        _ => StoreError::Transport,
    }
}

/// The proxy for all store traffic, given what the environment holds under
/// `http_proxy` and `https_proxy`: the first of the two that is set.
pub fn select_proxy(http_proxy: Option<String>, https_proxy: Option<String>) -> (proxy: Option<
    String,
>)
    ensures
        proxy == if http_proxy is Some {
            http_proxy
        } else {
            https_proxy
        },
{
    match http_proxy {
        Some(url) => Some(url),
        None => https_proxy,
    }
}

} // verus!

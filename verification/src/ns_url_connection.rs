//! `NSURLConnection`: the host-side record of a connection and the rules for
//! when it starts loading and whom it tells. No network traffic is made: a
//! started connection only tells its delegate that loading finished.

use vstd::prelude::*;
use vstd::string::*;

use crate::guest::Id;
use crate::guest::NSInteger;
use crate::guest::NIL;

verus! {

/// The error domain of the errors reported here.
pub const NSURLErrorDomain: &'static str = "NSURLErrorDomain";

/// Foundation's URL error codes (plain integers).
pub type NSURLErrorCode = NSInteger;

pub const NSURLErrorNotConnectedToInternet: NSURLErrorCode = -1009;

/// The host object of an `NSURLConnection`.
#[derive(Clone, Copy, PartialEq, Eq, Debug, Structural)]
pub struct NSURLConnectionHostObject {
    /// The `NSURLRequest*` (retained).
    pub request: Id,
    /// The `id<NSURLConnectionDelegate>`.
    pub delegate: Id,
    pub cancelled: bool,
    pub started: bool,
}

/// What `+sendSynchronousRequest:returningResponse:error:` stores through a
/// non-NULL `error` pointer.
#[derive(Clone, Copy, PartialEq, Eq, Debug, Structural)]
pub enum SyncRequestError {
    /// The pointer is NULL: nothing is stored.
    NotRequested,
    /// `nil` is stored.
    NoError,
    /// A new autoreleased `NSError` in [`NSURLErrorDomain`] with this code is
    /// stored.
    Error(NSURLErrorCode),
}

/// What `+sendSynchronousRequest:returningResponse:error:` does.
#[derive(Clone, Copy, PartialEq, Eq, Debug, Structural)]
pub struct SyncRequestOutcome {
    /// Store `nil` through the (non-NULL) `response` pointer.
    pub clear_response: bool,
    pub error: SyncRequestError,
    /// The returned data object.
    pub result: Id,
}

/// The connection as `+allocWithZone:` sets it up.
pub open spec fn allocated_connection() -> NSURLConnectionHostObject {
    NSURLConnectionHostObject { request: NIL, delegate: NIL, cancelled: false, started: false }
}

/// Starting to load: the first start marks the connection started; the
/// delegate is told (when there is one and the connection was not
/// cancelled) that loading finished. Later starts do nothing.
pub open spec fn start_loading_model(c: NSURLConnectionHostObject) -> (
    NSURLConnectionHostObject,
    Option<Id>,
) {
    if c.started {
        (c, None)
    } else if c.cancelled || c.delegate == NIL {
        (NSURLConnectionHostObject { started: true, ..c }, None)
    } else {
        (NSURLConnectionHostObject { started: true, ..c }, Some(c.delegate))
    }
}

/// A connection loads at most once: starting it again changes nothing and
/// tells nobody.
pub proof fn lemma_loading_starts_once(c: NSURLConnectionHostObject)
    ensures
        start_loading_model(c).0.started,
        start_loading_model(start_loading_model(c).0) == (start_loading_model(c).0, None::<Id>),
{
}

/// Starting never changes the request, the delegate or the cancel flag,
/// and always leaves the connection started.
pub proof fn lemma_start_keeps_record(c: NSURLConnectionHostObject)
    ensures
        start_loading_model(c).0 == (NSURLConnectionHostObject { started: true, ..c }),
        start_loading_model(c).1 matches Some(d) ==> d == c.delegate && d != NIL && !c.cancelled
            && !c.started,
{
}

/// A cancelled connection never tells its delegate.
pub proof fn lemma_cancelled_is_silent(c: NSURLConnectionHostObject)
    requires
        c.cancelled,
    ensures
        start_loading_model(c).1 is None,
{
}

/// The first start of a live connection with a delegate tells that
/// delegate.
pub proof fn lemma_first_start_tells_delegate(c: NSURLConnectionHostObject)
    requires
        !c.started,
        !c.cancelled,
        c.delegate != NIL,
    ensures
        start_loading_model(c).1 == Some(c.delegate),
{
}

/// `+sendSynchronousRequest:returningResponse:error:` with the given
/// `response` and `error` pointers (guest addresses, 0 for NULL). No response
/// object exists yet, so the result is always `nil`; the error says whether
/// network access is allowed.
pub fn send_synchronous_request(response: u32, out_error: u32, network_access: bool) -> (r:
    SyncRequestOutcome)
    ensures
        r.clear_response == (response != 0),
        r.error == (if out_error == 0 {
            SyncRequestError::NotRequested
        } else if network_access {
            SyncRequestError::NoError
        } else {
            SyncRequestError::Error(NSURLErrorNotConnectedToInternet)
        }),
        r.result == NIL,
{
    let error = if out_error == 0 {
        SyncRequestError::NotRequested
    } else if network_access {
        SyncRequestError::NoError
    } else {
        SyncRequestError::Error(NSURLErrorNotConnectedToInternet)
    };
    SyncRequestOutcome { clear_response: response != 0, error, result: NIL }
}

/// Whether `-initWithRequest:delegate:startImmediately:` refuses (releases
/// the connection and answers `nil`): a request while network access is
/// disabled.
pub fn refuses_request(request: Id, network_access: bool) -> (r: bool)
    ensures
        r == (request != NIL && !network_access),
{
    request != NIL && !network_access
}

/// A description of `request` for messages: `(null)` for `nil`, otherwise
/// the absolute string of its URL (fetched by the caller).
pub fn url_string_from_request(request: Id, absolute_url: String) -> (r: String)
    ensures
        r@ == (if request == NIL { "(null)"@ } else { absolute_url@ }),
{
    if request == NIL {
        String::from_str("(null)")
    } else {
        absolute_url
    }
}

impl NSURLConnectionHostObject {
    /// `+allocWithZone:`.
    pub fn new() -> (r: Self)
        ensures
            r == allocated_connection(),
    {
        NSURLConnectionHostObject { request: NIL, delegate: NIL, cancelled: false, started: false }
    }

    /// `-initWithRequest:delegate:startImmediately:` once not refused (see
    /// [`refuses_request`]): records the request (retained by the caller when
    /// not `nil`) and delegate, and starts loading when asked to and there
    /// is a request. Returns the delegate to tell that loading finished.
    pub fn init_with_request(&mut self, request: Id, delegate: Id, start_immediately: bool) -> (r:
        Option<Id>)
        ensures
            ({
                let fresh = NSURLConnectionHostObject {
                    request,
                    delegate,
                    cancelled: false,
                    started: false,
                };
                if start_immediately && request != NIL {
                    (*final(self), r) == start_loading_model(fresh)
                } else {
                    *final(self) == fresh && r is None
                }
            }),
    {
        self.request = request;
        self.delegate = delegate;
        self.cancelled = false;
        self.started = false;
        if start_immediately && request != NIL {
            self.start_connection_loading()
        } else {
            None
        }
    }

    /// `-start`.
    pub fn start(&mut self) -> (r: Option<Id>)
        ensures
            (*final(self), r) == start_loading_model(*old(self)),
    {
        if !self.started {
            self.start_connection_loading()
        } else {
            None
        }
    }

    /// `-cancel`.
    pub fn cancel(&mut self)
        ensures
            *final(self) == (NSURLConnectionHostObject { cancelled: true, ..*old(self) }),
    {
        self.cancelled = true;
    }

    /// Starts loading (once): returns the delegate to send
    /// `connectionDidFinishLoading:` to (after a zero delay, if it responds).
    pub fn start_connection_loading(&mut self) -> (r: Option<Id>)
        ensures
            (*final(self), r) == start_loading_model(*old(self)),
    {
        if self.started {
            return None;
        }
        self.started = true;
        if self.cancelled || self.delegate == NIL {
            return None;
        }
        Some(self.delegate)
    }
}

} // verus!

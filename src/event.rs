use crate::channel::{delivered, send_response};
use futures::channel::{mpsc, oneshot};
use vstd::prelude::*;

verus! {

/// The transport layer's end of an attribute's event channel.
pub type EventSender = mpsc::Sender<Event>;

/// A single-use handle through which exactly one `Response` completes a request.
pub type ResponseSender = oneshot::Sender<Response>;

/// Smallest application-level error code (Bluetooth Core Specification 5.3).
pub const APPLICATION_ERR_MIN: u8 = 0x80;

/// Largest application-level error code (Bluetooth Core Specification 5.3).
pub const APPLICATION_ERR_MAX: u8 = 0x9f;

/// Whether `code` lies in the range reserved for application-level errors.
pub open spec fn is_application_code(code: u8) -> bool {
    APPLICATION_ERR_MIN <= code <= APPLICATION_ERR_MAX
}

/// The character of the decimal digit `d`.
pub open spec fn digit_char(d: nat) -> char
    recommends
        d < 10,
{
    seq!['0', '1', '2', '3', '4', '5', '6', '7', '8', '9'][d as int]
}

/// The decimal digits of `n`, most significant first.
pub open spec fn decimal(n: nat) -> Seq<char>
    decreases n,
{
    if n < 10 {
        seq![digit_char(n)]
    } else {
        decimal(n / 10) + seq![digit_char(n % 10)]
    }
}

/// The text that explains why `code` is no application error.
pub open spec fn range_message(code: u8) -> Seq<char> {
    "Application error must be in range ["@ + decimal(APPLICATION_ERR_MIN as nat) + ", "@
        + decimal(APPLICATION_ERR_MAX as nat) + "] - got "@ + decimal(code as nat)
}

fn digit(d: u8) -> (r: &'static str)
    requires
        d < 10,
    ensures
        r@ == seq![digit_char(d as nat)],
{
    proof {
        reveal_strlit("0");
        reveal_strlit("1");
        reveal_strlit("2");
        reveal_strlit("3");
        reveal_strlit("4");
        reveal_strlit("5");
        reveal_strlit("6");
        reveal_strlit("7");
        reveal_strlit("8");
        reveal_strlit("9");
    }
    match d {
        0 => "0",
        1 => "1",
        2 => "2",
        3 => "3",
        4 => "4",
        5 => "5",
        6 => "6",
        7 => "7",
        8 => "8",
        _ => "9",
    }
}

fn push_decimal(s: &mut String, n: u8)
    ensures
        final(s)@ == old(s)@ + decimal(n as nat),
{
    let ghost start = s@;
    if n >= 100 {
        s.append(digit(n / 100));
    }
    if n >= 10 {
        s.append(digit((n / 10) % 10));
    }
    s.append(digit(n % 10));
    proof {
        let m = n as nat;
        if m >= 100 {
            assert(decimal(m / 100) == seq![digit_char(m / 100)]);
            assert(decimal(m / 10) == decimal((m / 10) / 10) + seq![digit_char((m / 10) % 10)]);
            assert((m / 10) / 10 == m / 100);
        } else if m >= 10 {
            assert(decimal(m / 10) == seq![digit_char(m / 10)]);
            assert((m / 10) % 10 == m / 10);
        }
        assert(s@ =~= start + decimal(m));
    }
}

/// One protocol operation delivered to the handler of an attribute.
#[derive(Debug)]
pub enum Event {
    ReadRequest(ReadRequest),
    WriteRequest(WriteRequest),
    NotifySubscribe(NotifySubscribe),
    NotifyUnsubscribe,
}

/// A peer asks to read the attribute's bytes from `offset` on; `mtu` bounds how many bytes one
/// response may carry.
#[derive(Debug)]
#[non_exhaustive]
pub struct ReadRequest {
    pub offset: u16,
    pub response: ResponseSender,
    pub mtu: u16,
}

impl ReadRequest {
    /// A read request for the bytes from `offset` on, answered through `response`.
    pub fn new(offset: u16, mtu: u16, response: ResponseSender) -> (r: Self)
        ensures
            r.offset == offset,
            r.mtu == mtu,
            r.response == response,
    {
        ReadRequest { offset, response, mtu }
    }

    /// Completes the request with `response`. The request, and with it its handle, is used up,
    /// so no second response can follow. When the transport no longer waits, the response comes
    /// back.
    pub fn reply(self, response: Response) -> (r: Result<(), Response>)
        ensures
            r is Ok ==> delivered(self.response) == response,
            r matches Err(back) ==> back == response,
    {
        send_response(self.response, response)
    }
}

/// A peer asks to write `data` at `offset`. With `without_response` the peer expects no reply on
/// the air, but `response` must still be completed to release the waiting transport.
#[derive(Debug)]
pub struct WriteRequest {
    pub data: Vec<u8>,
    pub offset: u16,
    pub without_response: bool,
    pub response: ResponseSender,
}

impl WriteRequest {
    /// Completes the request with `response`. The request, and with it its handle, is used up,
    /// so no second response can follow. When the transport no longer waits, the response comes
    /// back.
    pub fn reply(self, response: Response) -> (r: Result<(), Response>)
        ensures
            r is Ok ==> delivered(self.response) == response,
            r matches Err(back) ==> back == response,
    {
        send_response(self.response, response)
    }
}

/// A peer subscribed to notifications; `notification` pushes payloads to that peer.
#[derive(Debug, Clone)]
pub struct NotifySubscribe {
    pub notification: mpsc::Sender<Vec<u8>>,
}

/// Error type used when the caller attempts to construct an invalid application-level error via
/// `Response`.
#[derive(Debug, Clone)]
pub struct InvalidApplicationError {
    /// The invalid code that was used.
    pub invalid_code: u8,
}

/// The outcome of a read or write request, sent back to the peer.
#[derive(Debug, Clone)]
#[non_exhaustive]
pub enum Response {
    Success(Vec<u8>),
    InvalidOffset,
    InvalidAttributeLength,
    UnlikelyError,
    ApplicationError(ApplicationError),
}

impl Response {
    /// Constructs a response containing an application level error code. If the code is invalid,
    /// an error will be returned.
    pub fn application_error(code: u8) -> (r: Result<Self, InvalidApplicationError>)
        ensures
            is_application_code(code) <==> r is Ok,
            r matches Ok(resp) ==> resp matches Response::ApplicationError(e) && e.spec_code()
                == code,
            r matches Err(err) ==> err.invalid_code == code,
    {
        match ApplicationError::new(code) {
            Ok(e) => Ok(Response::ApplicationError(e)),
            Err(err) => Err(err),
        }
    }
}

impl InvalidApplicationError {
    /// Explains the failure: the range that application errors must lie in, and the code given.
    pub fn message(&self) -> (r: String)
        ensures
            r@ == range_message(self.invalid_code),
    {
        let mut s = "Application error must be in range [".to_owned();
        push_decimal(&mut s, APPLICATION_ERR_MIN);
        s.append(", ");
        push_decimal(&mut s, APPLICATION_ERR_MAX);
        s.append("] - got ");
        push_decimal(&mut s, self.invalid_code);
        s
    }
}

/// Contains an application level error code. The bluetooth core specification version 5.3 defines
/// application errors to be in the range 0x80-0x9f.
#[derive(Debug)]
pub struct ApplicationError {
    code: u8,
}

impl Clone for ApplicationError {
    fn clone(&self) -> (r: Self)
        ensures
            r == *self,
    {
        proof {
            use_type_invariant(self);
        }
        ApplicationError { code: self.code }
    }
}

impl ApplicationError {
    /// The code held by this error.
    pub closed spec fn spec_code(&self) -> u8 {
        self.code
    }

    #[verifier::type_invariant]
    spec fn code_in_range(&self) -> bool {
        is_application_code(self.code)
    }

    /// Constructs an application level error code. If the code lies outside the range reserved
    /// for application errors, the offending code is handed back.
    pub fn new(code: u8) -> (r: Result<Self, InvalidApplicationError>)
        ensures
            is_application_code(code) <==> r is Ok,
            r matches Ok(e) ==> e.spec_code() == code,
            r matches Err(err) ==> err.invalid_code == code,
    {
        if !(APPLICATION_ERR_MIN <= code && code <= APPLICATION_ERR_MAX) {
            return Err(InvalidApplicationError { invalid_code: code });
        }
        Ok(Self { code })
    }

    /// Returns the inner error code, which always lies in the application range.
    pub fn code(&self) -> (r: u8)
        ensures
            r == self.spec_code(),
            is_application_code(r),
    {
        proof {
            use_type_invariant(self);
        }
        self.code
    }
}

} // verus!

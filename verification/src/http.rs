//! The rules of the HTTPS GET that the update check and the download use:
//! which answers are failures and what they are called. The WinHTTP calls
//! themselves belong to the program.

use vstd::prelude::*;

use crate::version::{decimal, push_decimal};

verus! {

/// Largest response body accepted (100 MiB), so that an unexpected answer
/// cannot eat the memory.
pub const MAX_BODY_BYTES: u64 = 104_857_600;

/// Why a GET failed.
#[derive(Debug)]
pub enum HttpError {
    /// The server answered with a status other than 200.
    Status(u32),
    /// Anything else (no connection, a refused URL, a broken answer).
    Failed(String),
}

/// What an [`HttpError`] holds, with texts as character sequences.
pub enum HttpErrorView {
    Status(u32),
    Failed(Seq<char>),
}

impl View for HttpError {
    type V = HttpErrorView;

    open spec fn view(&self) -> HttpErrorView {
        match self {
            HttpError::Status(s) => HttpErrorView::Status(*s),
            HttpError::Failed(m) => HttpErrorView::Failed(m@),
        }
    }
}

/// The message of a failure.
pub open spec fn http_message(e: HttpErrorView) -> Seq<char> {
    match e {
        HttpErrorView::Status(s) => "サーバーが HTTP "@ + decimal(s as nat) + " を返しました"@,
        HttpErrorView::Failed(m) => m,
    }
}

impl HttpError {
    /// HTTP 403: what GitHub answers once the hourly limit of
    /// unauthenticated API calls (60 per IP address) is used up.
    pub fn is_forbidden(&self) -> (r: bool)
        ensures
            r == (self@ == HttpErrorView::Status(403)),
    {
        match self {
            HttpError::Status(s) => *s == 403,
            HttpError::Failed(_) => false,
        }
    }

    /// The message of the failure.
    pub fn message(&self) -> (r: String)
        ensures
            r@ == http_message(self@),
    {
        match self {
            HttpError::Status(s) => {
                let mut m = "サーバーが HTTP ".to_owned();
                push_decimal(&mut m, *s as u64);
                m.append(" を返しました");
                m
            },
            HttpError::Failed(m) => m.clone(),
        }
    }
}

/// Only HTTPS is fetched: the scheme is HTTPS (`INTERNET_SCHEME_HTTPS`,
/// 2) or the port is 443.
pub fn is_secure_target(scheme: i32, port: u16) -> (r: bool)
    ensures
        r == (scheme == 2 || port == 443),
{
    scheme == 2 || port == 443
}

/// A status other than 200 is a failure.
pub fn status_error(status: u32) -> (r: Option<HttpError>)
    ensures
        status == 200 ==> r is None,
        status != 200 ==> (r matches Some(e) && e@ == HttpErrorView::Status(status)),
{
    if status == 200 {
        None
    } else {
        Some(HttpError::Status(status))
    }
}

/// An announced length above [`MAX_BODY_BYTES`] is refused before reading.
pub fn content_length_error(total: Option<u64>) -> (r: Option<HttpError>)
    ensures
        r is Some <==> (total matches Some(t) && t > MAX_BODY_BYTES),
        r matches Some(e) ==> e@ == HttpErrorView::Failed(
            "応答が大きすぎます（"@ + decimal(total->0 as nat) + " バイト）"@,
        ),
{
    match total {
        Some(t) => {
            if t > MAX_BODY_BYTES {
                let mut m = "応答が大きすぎます（".to_owned();
                push_decimal(&mut m, t);
                m.append(" バイト）");
                Some(HttpError::Failed(m))
            } else {
                None
            }
        },
        None => None,
    }
}

/// A body that grows beyond [`MAX_BODY_BYTES`] while it is read is refused.
pub fn body_size_error(received: u64) -> (r: Option<HttpError>)
    ensures
        r is Some <==> received > MAX_BODY_BYTES,
        r matches Some(e) ==> e@ == HttpErrorView::Failed("応答が大きすぎます"@),
{
    if received > MAX_BODY_BYTES {
        Some(HttpError::Failed("応答が大きすぎます".to_owned()))
    } else {
        None
    }
}

/// A body shorter or longer than its announced length was cut off: the
/// end of the data alone does not show a broken connection.
pub fn truncation_error(received: u64, total: Option<u64>) -> (r: Option<HttpError>)
    ensures
        r is Some <==> (total matches Some(t) && t != received),
        r matches Some(e) ==> e@ == HttpErrorView::Failed(
            "応答が途中で切断されました（期待 "@ + decimal(total->0 as nat) + " バイト / 受信 "@
                + decimal(received as nat) + " バイト）"@,
        ),
{
    match total {
        Some(t) => {
            if t != received {
                let mut m = "応答が途中で切断されました（期待 ".to_owned();
                push_decimal(&mut m, t);
                m.append(" バイト / 受信 ");
                push_decimal(&mut m, received);
                m.append(" バイト）");
                Some(HttpError::Failed(m))
            } else {
                None
            }
        },
        None => None,
    }
}


/// `text` followed by a NUL, as the wide-string calls take it.
pub open spec fn nul_terminated(text: Seq<u16>) -> Seq<u16> {
    text.push(0u16)
}

/// The request target of a URL from its path and its query: the two
/// joined, `/` when both are empty, NUL-terminated.
pub open spec fn request_target_of(path: Seq<u16>, extra: Seq<u16>) -> Seq<u16> {
    if path.len() + extra.len() == 0 {
        nul_terminated(seq![47u16])
    } else {
        nul_terminated(path + extra)
    }
}

fn append_units(out: &mut Vec<u16>, units: &[u16])
    ensures
        final(out)@ == old(out)@ + units@,
{
    let mut i: usize = 0;
    while i < units.len()
        invariant
            i <= units.len(),
            out@ == old(out)@ + units@.take(i as int),
        decreases units.len() - i,
    {
        out.push(units[i]);
        i = i + 1;
        assert(units@.take(i as int) =~= units@.take((i - 1) as int).push(units@[i - 1]));
    }
    assert(units@.take(units.len() as int) =~= units@);
}

/// The host name as WinHTTP takes it: NUL-terminated.
pub fn host_buffer(host: &[u16]) -> (r: Vec<u16>)
    ensures
        r@ == nul_terminated(host@),
{
    let mut out: Vec<u16> = Vec::new();
    append_units(&mut out, host);
    out.push(0);
    assert(out@ =~= nul_terminated(host@));
    out
}

/// The request target as WinHTTP takes it: path and query, `/` when the
/// URL has neither, NUL-terminated.
pub fn request_target(path: &[u16], extra: &[u16]) -> (r: Vec<u16>)
    ensures
        r@ == request_target_of(path@, extra@),
{
    let mut out: Vec<u16> = Vec::new();
    append_units(&mut out, path);
    append_units(&mut out, extra);
    if out.len() == 0 {
        out.push(47);
    }
    out.push(0);
    assert(out@ =~= request_target_of(path@, extra@));
    out
}

} // verus!

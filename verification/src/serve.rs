//! The loopback HTTP front end that remote shims pull the clipboard from:
//! reading the request line, routing the path, and the exact bytes of every
//! answer.  Sockets, timeouts and the clipboard itself stay with the caller,
//! which hands in what it read and writes out what comes back.
use vstd::prelude::*;
use vstd::slice::slice_to_vec;
use vstd::utf8::encode_utf8;

use crate::clipboard::Payload;
use crate::text::{chars_of, chars_eq, decimal, is_ws, is_whitespace, push_decimal, push_str, str_eq};

verus! {

// ---------------------------------------------------------------------------
// The request line
// ---------------------------------------------------------------------------
/// The whitespace-separated words of `s`, as `str::split_whitespace` yields
/// them.
pub open spec fn words(s: Seq<char>) -> Seq<Seq<char>>
    decreases s.len(),
{
    if s.len() == 0 {
        Seq::empty()
    } else {
        let w = words(s.drop_last());
        let c = s.last();
        if is_ws(c) {
            w
        } else if s.len() >= 2 && !is_ws(s[s.len() - 2]) {
            w.update(w.len() - 1, w.last().push(c))
        } else {
            w.push(seq![c])
        }
    }
}

proof fn lemma_words_nonempty(s: Seq<char>)
    requires
        s.len() > 0,
        !is_ws(s.last()),
    ensures
        words(s).len() > 0,
    decreases s.len(),
{
    if s.len() >= 2 && !is_ws(s[s.len() - 2]) {
        assert(s.drop_last().last() == s[s.len() - 2]);
        lemma_words_nonempty(s.drop_last());
    }
}

/// The path of a `GET` request line: its second word when the first is
/// `GET`; anything else is a bad request.
pub open spec fn request_target(line: Seq<char>) -> Option<Seq<char>> {
    let w = words(line);
    if w.len() >= 2 && w[0] == "GET"@ {
        Some(w[1])
    } else {
        None
    }
}

fn split_words(cs: &[char]) -> (out: Vec<Vec<char>>)
    ensures
        out@.len() == words(cs@).len(),
        forall|k: int| 0 <= k < out@.len() ==> #[trigger] out@[k]@ == words(cs@)[k],
{
    let mut out: Vec<Vec<char>> = Vec::new();
    let mut i: usize = 0;
    while i < cs.len()
        invariant
            i <= cs@.len(),
            out@.len() == words(cs@.take(i as int)).len(),
            forall|k: int| 0 <= k < out@.len() ==> #[trigger] out@[k]@ == words(cs@.take(i as int))[k],
        decreases cs.len() - i,
    {
        let c = cs[i];
        let ghost prefix = cs@.take(i + 1);
        proof {
            assert(prefix.drop_last() =~= cs@.take(i as int));
            assert(prefix.last() == c);
            if i >= 1 {
                assert(prefix[prefix.len() - 2] == cs@[i - 1]);
            }
        }
        if is_whitespace(c) {
        } else if i >= 1 && !is_whitespace(cs[i - 1]) {
            proof {
                lemma_words_nonempty(cs@.take(i as int));
            }
            let last = out.len() - 1;
            let mut w = out.remove(last);
            w.push(c);
            out.push(w);
            proof {
                assert forall|k: int| 0 <= k < out@.len() implies #[trigger] out@[k]@ == words(
                    prefix,
                )[k] by {}
            }
        } else {
            let mut w: Vec<char> = Vec::new();
            w.push(c);
            out.push(w);
            proof {
                assert(out@.last()@ =~= seq![c]);
                assert forall|k: int| 0 <= k < out@.len() implies #[trigger] out@[k]@ == words(
                    prefix,
                )[k] by {
                    if k < out@.len() - 1 {
                    } else {
                        assert(out@[k]@ =~= seq![c]);
                    }
                }
            }
        }
        i = i + 1;
    }
    proof {
        assert(cs@.take(cs@.len() as int) =~= cs@);
    }
    out
}

/// The path asked for by a request line, or `None` for a bad request.
pub fn request_path(line: &str) -> (r: Option<String>)
    ensures
        match request_target(line@) {
            Some(p) => r matches Some(s) && s@ == p,
            None => r is None,
        },
{
    let cs = chars_of(line);
    let w = split_words(cs.as_slice());
    let get = vec!['G', 'E', 'T'];
    proof {
        reveal_strlit("GET");
        assert(get@ =~= "GET"@);
    }
    if w.len() >= 2 && chars_eq(w[0].as_slice(), get.as_slice()) {
        let mut p = String::new();
        crate::text::push_chars(&mut p, w[1].as_slice());
        proof {
            assert(p@ =~= w@[1]@);
        }
        Some(p)
    } else {
        None
    }
}

/// Whether the header line just read ends the request head: nothing more
/// could be read, or it is an empty line.
pub fn ends_headers(line: &str) -> (b: bool)
    ensures
        b == (line@ == Seq::<char>::empty() || line@ == "\r\n"@ || line@ == "\n"@),
{
    if line.is_empty() {
        proof {
            assert(line@ =~= Seq::<char>::empty());
        }
        return true;
    }
    str_eq(line, "\r\n") || str_eq(line, "\n")
}

// ---------------------------------------------------------------------------
// Routing
// ---------------------------------------------------------------------------
/// What a request path asks for.
#[derive(Debug, Clone, Copy, PartialEq, Eq, Structural)]
pub enum Route {
    /// `/kind`: the MIME type of the clipboard.
    Kind,
    /// `/data/image`: the clipboard as PNG.
    ImageData,
    /// `/data/text`: the clipboard as text.
    TextData,
    /// Anything else.
    Unknown,
}

pub open spec fn route_of(path: Seq<char>) -> Route {
    if path == "/kind"@ {
        Route::Kind
    } else if path == "/data/image"@ {
        Route::ImageData
    } else if path == "/data/text"@ {
        Route::TextData
    } else {
        Route::Unknown
    }
}

/// Routes a request path.
pub fn route(path: &str) -> (r: Route)
    ensures
        r == route_of(path@),
{
    if str_eq(path, "/kind") {
        Route::Kind
    } else if str_eq(path, "/data/image") {
        Route::ImageData
    } else if str_eq(path, "/data/text") {
        Route::TextData
    } else {
        Route::Unknown
    }
}

// ---------------------------------------------------------------------------
// Answers
// ---------------------------------------------------------------------------
pub open spec fn reason(status: u16) -> Seq<char> {
    if status == 200 {
        "OK"@
    } else if status == 400 {
        "Bad Request"@
    } else {
        "Not Found"@
    }
}

/// The head of an answer: status line, content type, the length of the
/// body, and that the connection closes after it.
pub open spec fn head(status: u16, content_type: Seq<char>, body_len: nat) -> Seq<char> {
    "HTTP/1.1 "@ + decimal(status as nat) + " "@ + reason(status) + "\r\nContent-Type: "@
        + content_type + "\r\nContent-Length: "@ + decimal(body_len)
        + "\r\nConnection: close\r\n\r\n"@
}

/// The bytes of an answer: its head in UTF-8, then the body unchanged.
pub open spec fn wire(status: u16, content_type: Seq<char>, body: Seq<u8>) -> Seq<u8> {
    encode_utf8(head(status, content_type, body.len())) + body
}

fn append_bytes(dst: &mut Vec<u8>, src: &[u8])
    ensures
        final(dst)@ == old(dst)@ + src@,
{
    let mut i: usize = 0;
    while i < src.len()
        invariant
            i <= src@.len(),
            dst@ == old(dst)@ + src@.take(i as int),
        decreases src.len() - i,
    {
        dst.push(src[i]);
        proof {
            assert(src@.take(i + 1) =~= src@.take(i as int).push(src@[i as int]));
        }
        i = i + 1;
    }
    proof {
        assert(src@.take(src@.len() as int) =~= src@);
    }
}

/// The bytes that answer a request with `status`, `content_type` and `body`.
pub fn respond(status: u16, content_type: &str, body: &[u8]) -> (out: Vec<u8>)
    ensures
        out@ == wire(status, content_type@, body@),
{
    let mut h = String::new();
    push_str(&mut h, "HTTP/1.1 ");
    push_decimal(&mut h, status as u128);
    push_str(&mut h, " ");
    if status == 200 {
        push_str(&mut h, "OK");
    } else if status == 400 {
        push_str(&mut h, "Bad Request");
    } else {
        push_str(&mut h, "Not Found");
    }
    push_str(&mut h, "\r\nContent-Type: ");
    push_str(&mut h, content_type);
    push_str(&mut h, "\r\nContent-Length: ");
    push_decimal(&mut h, body.len() as u128);
    push_str(&mut h, "\r\nConnection: close\r\n\r\n");
    proof {
        assert(h@ =~= head(status, content_type@, body@.len()));
    }
    let mut out = slice_to_vec(h.as_str().as_bytes());
    append_bytes(&mut out, body);
    out
}

/// The answer to a request line that is not a `GET` with a path.
pub fn bad_request() -> (out: Vec<u8>)
    ensures
        out@ == wire(400, "text/plain"@, encode_utf8("bad request"@)),
{
    respond(400, "text/plain", "bad request".as_bytes())
}

/// The body of a `404`: the clipboard cannot answer this request.
pub open spec fn unavailable_body() -> Seq<u8> {
    encode_utf8("clipboard unavailable"@)
}

/// The answer when the clipboard cannot give what was asked for.
pub fn unavailable() -> (out: Vec<u8>)
    ensures
        out@ == wire(404, "text/plain"@, unavailable_body()),
{
    respond(404, "text/plain", "clipboard unavailable".as_bytes())
}

/// The answer to `/kind`, given what the kind source reported (`None` when it
/// failed).
pub fn kind_reply(kind: Option<&str>) -> (out: Vec<u8>)
    ensures
        match kind {
            Some(k) => out@ == wire(200, "text/plain"@, encode_utf8(k@)),
            None => out@ == wire(404, "text/plain"@, unavailable_body()),
        },
{
    match kind {
        Some(k) => respond(200, "text/plain", k.as_bytes()),
        None => unavailable(),
    }
}

/// The answer to `/data/image` or `/data/text`, given what the data source
/// returned (`None` when it failed).  The clipboard is served only when it
/// holds the kind the path asks for; a clipboard that changed kind since the
/// shim asked `/kind` is answered `404`.
pub fn data_reply(route: Route, data: Option<Payload>) -> (out: Vec<u8>)
    ensures
        match (route, data) {
            (Route::ImageData, Some(Payload::Png(b))) => out@ == wire(200, "image/png"@, b@),
            (Route::TextData, Some(Payload::Text(t))) => out@ == wire(
                200,
                "text/plain; charset=utf-8"@,
                encode_utf8(t@),
            ),
            _ => out@ == wire(404, "text/plain"@, unavailable_body()),
        },
{
    match (route, data) {
        (Route::ImageData, Some(Payload::Png(b))) => respond(200, "image/png", b.as_slice()),
        (Route::TextData, Some(Payload::Text(t))) => respond(
            200,
            "text/plain; charset=utf-8",
            t.as_str().as_bytes(),
        ),
        _ => unavailable(),
    }
}

// ---------------------------------------------------------------------------
// Which source answers
// ---------------------------------------------------------------------------
/// The clipboard source a request consults.
#[derive(Debug, Clone, Copy, PartialEq, Eq, Structural)]
pub enum Source {
    /// The kind source: what the clipboard holds, without its data.
    Kind,
    /// The data source: the clipboard itself.
    Data,
    /// None: the path is answered `404` without asking the clipboard.
    Nothing,
}

pub open spec fn source_of(route: Route) -> Source {
    match route {
        Route::Kind => Source::Kind,
        Route::ImageData | Route::TextData => Source::Data,
        Route::Unknown => Source::Nothing,
    }
}

/// Which source a request for `route` consults: `/kind` the kind source,
/// the two data paths the data source, anything else none.
pub fn consults(route: Route) -> (s: Source)
    ensures
        s == source_of(route),
{
    match route {
        Route::Kind => Source::Kind,
        Route::ImageData => Source::Data,
        Route::TextData => Source::Data,
        Route::Unknown => Source::Nothing,
    }
}

/// What the consulted source gave (`None` when it failed).
#[derive(Debug)]
pub enum Reply<'a> {
    Kind(Option<&'a str>),
    Data(Option<Payload>),
    Nothing,
}

/// The bytes that answer a request for `route`, given what its source gave.
pub open spec fn answer_bytes(route: Route, reply: Reply) -> Seq<u8> {
    match reply {
        Reply::Kind(Some(k)) => if route == Route::Kind {
            wire(200, "text/plain"@, encode_utf8(k@))
        } else {
            wire(404, "text/plain"@, unavailable_body())
        },
        Reply::Data(Some(Payload::Png(b))) => if route == Route::ImageData {
            wire(200, "image/png"@, b@)
        } else {
            wire(404, "text/plain"@, unavailable_body())
        },
        Reply::Data(Some(Payload::Text(t))) => if route == Route::TextData {
            wire(200, "text/plain; charset=utf-8"@, encode_utf8(t@))
        } else {
            wire(404, "text/plain"@, unavailable_body())
        },
        _ => wire(404, "text/plain"@, unavailable_body()),
    }
}

/// The answer to a request for `route`, given what the source that
/// `consults(route)` names gave: the kind for `/kind`, the clipboard for the
/// data path of its own kind; `404` for a failed source, a kind that does
/// not match the path, or an unknown path.
pub fn answer(route: Route, reply: Reply) -> (out: Vec<u8>)
    ensures
        out@ == answer_bytes(route, reply),
{
    match reply {
        Reply::Kind(k) => {
            if route == Route::Kind {
                kind_reply(k)
            } else {
                unavailable()
            }
        },
        Reply::Data(d) => {
            if route == Route::ImageData || route == Route::TextData {
                data_reply(route, d)
            } else {
                unavailable()
            }
        },
        Reply::Nothing => unavailable(),
    }
}

/// Law: a data path is answered `200` only with a payload of its own kind:
/// `/data/image` with the PNG bytes as `image/png`, `/data/text` with the
/// text's UTF-8 bytes as `text/plain; charset=utf-8`; a payload of the other
/// kind is answered `404`, never with its bytes.
pub proof fn law_data_served_only_for_its_kind(route: Route, p: Payload)
    requires
        route == Route::ImageData || route == Route::TextData,
    ensures
        answer_bytes(route, Reply::Data(Some(p))) == if (route == Route::ImageData) == (p is Png) {
            wire(
                200,
                if p is Png {
                    "image/png"@
                } else {
                    "text/plain; charset=utf-8"@
                },
                p.spec_content(),
            )
        } else {
            wire(404, "text/plain"@, encode_utf8("clipboard unavailable"@))
        },
{
}

/// Law: `/kind` is answered `200` with the kind the kind source gave; a
/// failed source, a reply from the wrong source, or an unknown path is
/// answered `404`.
pub proof fn law_other_answers(reply: Reply, k: &str)
    ensures
        answer_bytes(Route::Kind, Reply::Kind(Some(k))) == wire(200, "text/plain"@, encode_utf8(k@)),
        answer_bytes(Route::Kind, Reply::Kind(None)) == wire(404, "text/plain"@, encode_utf8(
            "clipboard unavailable"@,
        )),
        answer_bytes(Route::Unknown, reply) == wire(404, "text/plain"@, encode_utf8(
            "clipboard unavailable"@,
        )),
        !(reply is Kind) ==> answer_bytes(Route::Kind, reply) == wire(404, "text/plain"@, encode_utf8(
            "clipboard unavailable"@,
        )),
        (reply is Kind || reply is Nothing) ==> answer_bytes(Route::TextData, reply) == wire(404, "text/plain"@, encode_utf8(
            "clipboard unavailable"@,
        )) && answer_bytes(Route::ImageData, reply) == wire(404, "text/plain"@, encode_utf8(
            "clipboard unavailable"@,
        )),
{
}

} // verus!

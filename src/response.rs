use vstd::prelude::*;
use vstd::utf8::encode_utf8;

use crate::decimal::{decimal, decimal_text};
use crate::header_map::HeaderMap;
use crate::sink::write_text;

verus! {

/// The status text that belongs to a status code. Codes outside the table
/// get "Not Found".
pub open spec fn status_text_of(code: Seq<char>) -> Seq<char> {
    if code == "200"@ {
        "OK"@
    } else if code == "400"@ {
        "Bad Request"@
    } else if code == "404"@ {
        "Not Found"@
    } else if code == "500"@ {
        "Internal Server Error"@
    } else {
        "Not Found"@
    }
}

/// The headers a response gets when none are given.
pub open spec fn default_headers() -> Seq<(Seq<char>, Seq<char>)> {
    seq![("Content-Type"@, "text/html"@)]
}

/// What a response holds, as mathematical values.
pub struct ResponseModel {
    pub version: Seq<char>,
    pub status_code: Seq<char>,
    pub status_text: Seq<char>,
    pub headers: Seq<(Seq<char>, Seq<char>)>,
    pub body: Option<Seq<char>>,
}

/// The response built from a status code, optional headers and an optional body.
pub open spec fn response_model(
    status_code: Seq<char>,
    headers: Option<Seq<(Seq<char>, Seq<char>)>>,
    body: Option<Seq<char>>,
) -> ResponseModel {
    ResponseModel {
        version: "HTTP/1.1"@,
        status_code,
        status_text: status_text_of(status_code),
        headers: match headers {
            Some(h) => h,
            None => default_headers(),
        },
        body,
    }
}

/// The header lines, one `name:value` line per entry, in order.
pub open spec fn header_lines(headers: Seq<(Seq<char>, Seq<char>)>) -> Seq<char>
    decreases headers.len(),
{
    if headers.len() == 0 {
        Seq::empty()
    } else {
        let last = headers.last();
        header_lines(headers.drop_last()) + last.0 + ":"@ + last.1 + "\r\n"@
    }
}

/// The body as text; a response without a body has the empty body.
pub open spec fn body_text(body: Option<Seq<char>>) -> Seq<char> {
    match body {
        Some(b) => b,
        None => Seq::empty(),
    }
}

/// The status line, ending in CR LF.
pub open spec fn status_line(m: ResponseModel) -> Seq<char> {
    m.version + " "@ + m.status_code + " "@ + m.status_text + "\r\n"@
}

/// The complete text of a response on the wire: status line, header lines,
/// the `Content-Length` line with the body's length in UTF-8 bytes, an empty
/// line, then the body. The `Content-Length` line ends in `;` before its CR LF,
/// as the peers of this format expect.
pub open spec fn wire_text(m: ResponseModel) -> Seq<char> {
    status_line(m) + header_lines(m.headers) + "Content-Length: "@
        + decimal(encode_utf8(body_text(m.body)).len()) + ";\r\n\r\n"@ + body_text(m.body)
}

/// An HTTP/1.1 response: status line, headers and an optional body. It is
/// built once by `new` and not changed afterwards.
#[derive(Debug, PartialEq, Eq)]
pub struct HttpResponse {
    version: String,
    status_code: String,
    status_text: String,
    headers: HeaderMap,
    body: Option<String>,
}

impl View for HttpResponse {
    type V = ResponseModel;

    closed spec fn view(&self) -> ResponseModel {
        ResponseModel {
            version: self.version@,
            status_code: self.status_code@,
            status_text: self.status_text@,
            headers: self.headers@,
            body: match self.body {
                Some(b) => Some(b@),
                None => None,
            },
        }
    }
}

/// Whether two texts hold the same characters.
fn same_text(a: &str, b: &str) -> (r: bool)
    ensures
        r == (a@ == b@),
{
    let a_owned = a.to_owned();
    let b_owned = b.to_owned();
    a_owned == b_owned
}

/// The status text for `code`, by the fixed table.
fn status_text_for(code: &str) -> (r: &'static str)
    ensures
        r@ == status_text_of(code@),
{
    if same_text(code, "200") {
        "OK"
    } else if same_text(code, "400") {
        "Bad Request"
    } else if same_text(code, "404") {
        "Not Found"
    } else if same_text(code, "500") {
        "Internal Server Error"
    } else {
        "Not Found"
    }
}

impl HttpResponse {
    /// The version is fixed and the status text always agrees with the code.
    #[verifier::type_invariant]
    spec fn wf(&self) -> bool {
        &&& self.version@ == "HTTP/1.1"@
        &&& self.status_text@ == status_text_of(self.status_code@)
    }

    /// Builds a response with version "HTTP/1.1", the given status code and
    /// the status text the table gives it, the given headers (or the single
    /// header `Content-Type: text/html` when none are given) and the given body.
    pub fn new(status_code: &str, headers: Option<HeaderMap>, body: Option<String>) -> (r:
        HttpResponse)
        ensures
            r@ == response_model(
                status_code@,
                match headers {
                    Some(h) => Some(h@),
                    None => None,
                },
                match body {
                    Some(b) => Some(b@),
                    None => None,
                },
            ),
    {
        let headers = match headers {
            Some(h) => h,
            None => {
                let mut h = HeaderMap::new();
                h.insert("Content-Type", "text/html");
                h
            },
        };
        HttpResponse {
            version: String::from_str("HTTP/1.1"),
            status_code: String::from_str(status_code),
            status_text: String::from_str(status_text_for(status_code)),
            headers,
            body,
        }
    }

    /// The protocol version, always "HTTP/1.1".
    pub fn version(&self) -> (r: &str)
        ensures
            r@ == self@.version,
            r@ == "HTTP/1.1"@,
    {
        proof {
            use_type_invariant(self);
        }
        self.version.as_str()
    }

    /// The status code.
    pub fn status_code(&self) -> (r: &str)
        ensures
            r@ == self@.status_code,
    {
        self.status_code.as_str()
    }

    /// The status text, which the table gives the status code.
    pub fn status_text(&self) -> (r: &str)
        ensures
            r@ == self@.status_text,
            r@ == status_text_of(self@.status_code),
    {
        proof {
            use_type_invariant(self);
        }
        self.status_text.as_str()
    }

    /// The header entries.
    pub fn header_map(&self) -> (r: &HeaderMap)
        ensures
            r@ == self@.headers,
    {
        &self.headers
    }

    /// The header lines as they appear on the wire, each `name:value`
    /// followed by CR LF, in the order of the entries.
    pub fn headers(&self) -> (r: String)
        ensures
            r@ == header_lines(self@.headers),
    {
        let ghost hs = self@.headers;
        let mut text = String::new();
        let n = self.headers.len();
        let mut i: usize = 0;
        while i < n
            invariant
                i <= n,
                n == hs.len(),
                hs == self.headers@,
                text@ == header_lines(hs.subrange(0, i as int)),
            decreases n - i,
        {
            let (name, value) = self.headers.entry(i);
            assert(hs.subrange(0, i + 1).drop_last() =~= hs.subrange(0, i as int));
            text.append(name);
            text.append(":");
            text.append(value);
            text.append("\r\n");
            i = i + 1;
        }
        assert(hs.subrange(0, n as int) =~= hs);
        text
    }

    /// The body, or the empty text when the response has none.
    pub fn body(&self) -> (r: &str)
        ensures
            r@ == body_text(self@.body),
    {
        proof {
            reveal_strlit("");
        }
        match &self.body {
            Some(b) => b.as_str(),
            None => "",
        }
    }

    /// The response as it goes on the wire. A response without a body is
    /// sent with an empty body and `Content-Length: 0;`.
    pub fn to_wire(&self) -> (r: String)
        ensures
            r@ == wire_text(self@),
    {
        let body = self.body();
        let length = body.as_bytes().len();
        let mut text = String::new();
        text.append(self.version.as_str());
        text.append(" ");
        text.append(self.status_code.as_str());
        text.append(" ");
        text.append(self.status_text.as_str());
        text.append("\r\n");
        let header_text = self.headers();
        text.append(header_text.as_str());
        text.append("Content-Length: ");
        let length_text = decimal_text(length);
        text.append(length_text.as_str());
        text.append(";\r\n\r\n");
        text.append(body);
        assert(text@ =~= wire_text(self@));
        text
    }

    /// Writes the wire text of the response to `sink`. The outcome of the
    /// write is not passed on: the call always reports success.
    pub fn send_response<W: std::io::Write>(&self, sink: &mut W) -> (r: Result<(), std::io::Error>)
        ensures
            r is Ok,
    {
        let text = self.to_wire();
        let _ = write_text(sink, text.as_str());
        Ok(())
    }
}

} // verus!

verus! {

/// A response built with one of the known codes 200, 400, 404 or 500
/// carries exactly the text that the table gives that code.
pub proof fn lemma_known_status_text(
    code: Seq<char>,
    headers: Option<Seq<(Seq<char>, Seq<char>)>>,
    body: Option<Seq<char>>,
)
    ensures
        code == "200"@ ==> response_model(code, headers, body).status_text == "OK"@,
        code == "400"@ ==> response_model(code, headers, body).status_text == "Bad Request"@,
        code == "404"@ ==> response_model(code, headers, body).status_text == "Not Found"@,
        code == "500"@ ==> response_model(code, headers, body).status_text
            == "Internal Server Error"@,
{
    reveal_strlit("200");
    reveal_strlit("400");
    reveal_strlit("404");
    reveal_strlit("500");
    assert("400"@[0] != "200"@[0]);
    assert("404"@[0] != "200"@[0] && "404"@[2] != "400"@[2]);
    assert("500"@[0] != "200"@[0] && "500"@[0] != "400"@[0] && "500"@[0] != "404"@[0]);
}

/// A response built with a code outside the table has the status text
/// "Not Found".
pub proof fn lemma_unknown_status_text(
    code: Seq<char>,
    headers: Option<Seq<(Seq<char>, Seq<char>)>>,
    body: Option<Seq<char>>,
)
    requires
        code != "200"@,
        code != "400"@,
        code != "404"@,
        code != "500"@,
    ensures
        response_model(code, headers, body).status_text == "Not Found"@,
{
}

/// Two responses built from the same inputs render to the same wire text.
pub proof fn lemma_wire_deterministic(
    a: HttpResponse,
    b: HttpResponse,
    code: Seq<char>,
    headers: Option<Seq<(Seq<char>, Seq<char>)>>,
    body: Option<Seq<char>>,
)
    requires
        a@ == response_model(code, headers, body),
        b@ == response_model(code, headers, body),
    ensures
        wire_text(a@) == wire_text(b@),
{
}

/// A response whose body is empty declares `Content-Length: 0;` and ends
/// right after the blank line that closes the headers.
pub proof fn lemma_empty_body_wire(m: ResponseModel)
    requires
        m.body == Some(Seq::<char>::empty()),
    ensures
        wire_text(m) == status_line(m) + header_lines(m.headers) + "Content-Length: 0;\r\n\r\n"@,
{
    reveal_strlit("Content-Length: ");
    reveal_strlit(";\r\n\r\n");
    reveal_strlit("Content-Length: 0;\r\n\r\n");
    assert(encode_utf8(Seq::<char>::empty()) =~= Seq::<u8>::empty());
    assert(wire_text(m) =~= status_line(m) + header_lines(m.headers)
        + "Content-Length: 0;\r\n\r\n"@);
}

/// A response without a body renders exactly as the same response with the
/// empty body.
pub proof fn lemma_absent_body_as_empty(m: ResponseModel)
    requires
        m.body is None,
    ensures
        wire_text(m) == wire_text(ResponseModel { body: Some(Seq::<char>::empty()), ..m }),
{
}

} // verus!

//! Rendering a response as the text to print.
//!
//! The output has three parts, in fixed order: a colorized status line
//! followed by a blank line, one `name: value` line per header with the
//! name colorized followed by a blank line, and the body. A body whose
//! `Content-Type` header has the MIME essence `application/json` is
//! pretty-printed and colorized; any other body, and a JSON body that the
//! pretty-printer rejects, is printed unchanged.

use vstd::prelude::*;
use vstd::string::*;

use crate::color::{
    blue_pre, colorize, cyan_pre, green_pre, paint_blue, paint_cyan, paint_green,
};
use crate::json::{digit_char, push_char};

verus! {

/// A response, reduced to the plain values the renderer reads: the
/// transport's protocol version, the numeric status code with its reason
/// phrase, the headers in transport order (names in lower case, as the
/// transport delivers them), and the raw body text.
#[derive(Debug)]
pub struct Response {
    pub version: String,
    pub status: u16,
    pub reason: String,
    pub headers: Vec<(String, String)>,
    pub body: String,
}

/// The essence (type and subtype, without parameters) of the string as a
/// MIME type, or nothing where it does not parse as one. The result stands
/// for what the `mime` crate computes and depends on the string alone.
pub uninterp spec fn mime_essence_of(s: Seq<char>) -> Option<Seq<char>>;

/// The pretty-printed form of a JSON text, or nothing where the text is not
/// well-formed JSON. The result stands for what `jsonxf` computes and
/// depends on the text alone.
pub uninterp spec fn pretty_of(s: Seq<char>) -> Option<Seq<char>>;

/// Relies on the `mime` crate's `FromStr` for `Mime` and on
/// `Mime::essence_str`: both whether the string parses as a MIME type and
/// the essence of the parsed type (its type and subtype, parameters
/// dropped, in lower case) are functions of the string alone.
#[verifier::external_body]
fn content_type_essence(s: &str) -> (r: Option<String>)
    ensures
        r is Some <==> mime_essence_of(s@) is Some,
        r matches Some(e) ==> e@ == mime_essence_of(s@).unwrap(),
{
    match s.parse::<mime::Mime>() {
        Ok(m) => Some(m.essence_str().to_owned()),
        Err(_) => None,
    }
}

/// Relies on `jsonxf::pretty_print`: whether the text is accepted and its
/// pretty-printed form are functions of the text alone.
#[verifier::external_body]
fn pretty_print(s: &str) -> (r: Option<String>)
    ensures
        r is Some <==> pretty_of(s@) is Some,
        r matches Some(p) ==> p@ == pretty_of(s@).unwrap(),
{
    match jsonxf::pretty_print(s) {
        Ok(p) => Some(p),
        Err(_) => None,
    }
}

/// The decimal digits of `n`.
pub open spec fn dec_digits(n: int) -> Seq<char>
    decreases n,
{
    if n < 10 {
        seq![digit_char(n)]
    } else {
        dec_digits(n / 10).push(digit_char(n % 10))
    }
}

/// The status line's text: `version code reason`.
pub open spec fn status_text(version: Seq<char>, code: int, reason: Seq<char>) -> Seq<char> {
    version + " "@ + dec_digits(code) + " "@ + reason
}

/// The first part of the output: the colorized status line and a blank
/// line.
pub open spec fn status_section(
    version: Seq<char>,
    code: int,
    reason: Seq<char>,
    on: bool,
) -> Seq<char> {
    colorize(on, blue_pre(), status_text(version, code, reason)) + "\n\n"@
}

/// The headers as sequences of characters.
pub open spec fn headers_view(hs: Seq<(String, String)>) -> Seq<(Seq<char>, Seq<char>)> {
    Seq::new(hs.len(), |i: int| (hs[i].0@, hs[i].1@))
}

/// One `name: value` line per header, names colorized.
pub open spec fn header_lines(hs: Seq<(Seq<char>, Seq<char>)>, on: bool) -> Seq<char>
    decreases hs.len(),
{
    if hs.len() == 0 {
        Seq::empty()
    } else {
        header_lines(hs.drop_last(), on) + colorize(on, green_pre(), hs.last().0) + ": "@
            + hs.last().1 + "\n"@
    }
}

/// The second part of the output: the header lines and a blank line.
pub open spec fn headers_section(hs: Seq<(Seq<char>, Seq<char>)>, on: bool) -> Seq<char> {
    header_lines(hs, on) + "\n"@
}

/// The value of the first header named `content-type`, if any.
pub open spec fn content_type_of(hs: Seq<(Seq<char>, Seq<char>)>) -> Option<Seq<char>>
    decreases hs.len(),
{
    if hs.len() == 0 {
        None
    } else if hs[0].0 == "content-type"@ {
        Some(hs[0].1)
    } else {
        content_type_of(hs.drop_first())
    }
}

/// The third part of the output: the body and a final newline. A body whose
/// content type has the MIME essence `application/json` and which the
/// pretty-printer accepts appears pretty-printed and colorized; every other
/// body appears unchanged.
pub open spec fn body_section(ct: Option<Seq<char>>, body: Seq<char>, on: bool) -> Seq<char> {
    if ct is Some && mime_essence_of(ct.unwrap()) == Some("application/json"@)
        && pretty_of(body) is Some {
        colorize(on, cyan_pre(), pretty_of(body).unwrap()) + "\n"@
    } else {
        body + "\n"@
    }
}

/// The whole rendered response: status line, headers, body.
pub open spec fn response_text(r: Response, on: bool) -> Seq<char> {
    status_section(r.version@, r.status as int, r.reason@, on)
        + headers_section(headers_view(r.headers@), on)
        + body_section(content_type_of(headers_view(r.headers@)), r.body@, on)
}

/// Appends the decimal digits of `n`.
fn push_dec(out: &mut String, n: u16)
    ensures
        final(out)@ == old(out)@ + dec_digits(n as int),
    decreases n,
{
    if n >= 10 {
        push_dec(out, n / 10);
        push_char(out, dec_digit_exec(n % 10));
        assert(out@ =~= old(out)@ + dec_digits(n as int));
    } else {
        push_char(out, dec_digit_exec(n));
        assert(out@ =~= old(out)@ + dec_digits(n as int));
    }
}

/// The decimal digit for `d`.
fn dec_digit_exec(d: u16) -> (c: char)
    requires
        d < 10,
    ensures
        c == digit_char(d as int),
{
    if d == 0 { '0' }
    else if d == 1 { '1' }
    else if d == 2 { '2' }
    else if d == 3 { '3' }
    else if d == 4 { '4' }
    else if d == 5 { '5' }
    else if d == 6 { '6' }
    else if d == 7 { '7' }
    else if d == 8 { '8' }
    else { '9' }
}

/// Renders the status line and the blank line after it.
pub fn render_status_line(version: &str, status: u16, reason: &str, use_color: bool) -> (r:
    String)
    ensures
        r@ == status_section(version@, status as int, reason@, use_color),
{
    let mut t: String = String::new();
    t.append(version);
    t.append(" ");
    push_dec(&mut t, status);
    t.append(" ");
    t.append(reason);
    assert(t@ =~= status_text(version@, status as int, reason@));
    let mut out: String = if use_color {
        paint_blue(t.as_str())
    } else {
        t
    };
    out.append("\n\n");
    proof {
        assert(out@ =~= status_section(version@, status as int, reason@, use_color));
    }
    out
}

/// Renders the header lines and the blank line after them.
pub fn render_headers(headers: &Vec<(String, String)>, use_color: bool) -> (r: String)
    ensures
        r@ == headers_section(headers_view(headers@), use_color),
{
    let ghost hv = headers_view(headers@);
    let n = headers.len();
    let mut out: String = String::new();
    let mut i: usize = 0;
    while i < n
        invariant
            n == headers.len(),
            hv == headers_view(headers@),
            0 <= i <= n,
            out@ == header_lines(hv.subrange(0, i as int), use_color),
        decreases n - i,
    {
        let ghost prefix = hv.subrange(0, i as int);
        let name = if use_color {
            paint_green(headers[i].0.as_str())
        } else {
            headers[i].0.clone()
        };
        out.append(name.as_str());
        out.append(": ");
        out.append(headers[i].1.as_str());
        out.append("\n");
        proof {
            let prefix2 = hv.subrange(0, i + 1 as int);
            assert(prefix2.drop_last() =~= prefix);
            assert(prefix2.last() == hv[i as int]);
            assert(out@ =~= header_lines(prefix2, use_color));
        }
        i = i + 1;
    }
    proof {
        assert(hv.subrange(0, n as int) =~= hv);
    }
    out.append("\n");
    out
}

/// The value of the first `content-type` header, if any. Header names are
/// expected as the transport delivers them, in lower case.
pub fn find_content_type(headers: &Vec<(String, String)>) -> (r: Option<String>)
    ensures
        r is Some <==> content_type_of(headers_view(headers@)) is Some,
        r matches Some(v) ==> v@ == content_type_of(headers_view(headers@)).unwrap(),
{
    let ghost hv = headers_view(headers@);
    let ct_name: String = "content-type".to_owned();
    let n = headers.len();
    let mut i: usize = 0;
    proof {
        assert(hv.skip(0) =~= hv);
    }
    while i < n
        invariant
            n == headers.len(),
            hv == headers_view(headers@),
            ct_name@ == "content-type"@,
            0 <= i <= n,
            content_type_of(hv) == content_type_of(hv.skip(i as int)),
        decreases n - i,
    {
        let ghost suffix = hv.skip(i as int);
        if headers[i].0 == ct_name {
            assert(suffix[0] == hv[i as int]);
            return Some(headers[i].1.clone());
        }
        proof {
            assert(suffix[0] == hv[i as int]);
            assert(suffix.drop_first() =~= hv.skip(i + 1 as int));
        }
        i = i + 1;
    }
    proof {
        assert(hv.skip(n as int) =~= Seq::<(Seq<char>, Seq<char>)>::empty());
    }
    None
}

/// Renders the body and the final newline: pretty-printed and colorized
/// where the content type's essence is `application/json` and the body is
/// well-formed JSON, unchanged otherwise.
pub fn render_body(content_type: &Option<String>, body: &str, use_color: bool) -> (r: String)
    ensures
        r@ == body_section(opt_str_view(*content_type), body@, use_color),
{
    let is_json = match content_type {
        Some(ct) => {
            match content_type_essence(ct.as_str()) {
                Some(e) => {
                    let app_json: String = "application/json".to_owned();
                    e == app_json
                },
                None => false,
            }
        },
        None => false,
    };
    proof {
        assert(is_json == (opt_str_view(*content_type) is Some
            && mime_essence_of(opt_str_view(*content_type).unwrap())
                == Some("application/json"@)));
    }
    if is_json {
        match pretty_print(body) {
            Some(p) => {
                let mut out: String = if use_color {
                    paint_cyan(p.as_str())
                } else {
                    p
                };
                out.append("\n");
                proof {
                    assert(out@ =~= body_section(
                        opt_str_view(*content_type), body@, use_color));
                }
                out
            },
            None => {
                let mut out: String = body.to_owned();
                out.append("\n");
                out
            },
        }
    } else {
        let mut out: String = body.to_owned();
        out.append("\n");
        out
    }
}

/// The view of an optional string.
pub open spec fn opt_str_view(o: Option<String>) -> Option<Seq<char>> {
    match o {
        Some(s) => Some(s@),
        None => None,
    }
}

/// Renders the whole response: status line, headers, body, each part as
/// its own section.
pub fn render_response(resp: &Response, use_color: bool) -> (r: String)
    ensures
        r@ == response_text(*resp, use_color),
{
    let mut out = render_status_line(
        resp.version.as_str(),
        resp.status,
        resp.reason.as_str(),
        use_color,
    );
    let headers_part = render_headers(&resp.headers, use_color);
    out.append(headers_part.as_str());
    let ct = find_content_type(&resp.headers);
    proof {
        assert(opt_str_view(ct) == content_type_of(headers_view(resp.headers@)));
    }
    let body_part = render_body(&ct, resp.body.as_str(), use_color);
    out.append(body_part.as_str());
    proof {
        assert(out@ =~= response_text(*resp, use_color));
    }
    out
}

} // verus!

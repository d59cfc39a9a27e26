//! Planning a request from a command.
//!
//! A command is a GET of a URL, or a POST of a URL with body pairs. Planning
//! validates the URL and fixes everything the transport needs: the method,
//! the normalized URL, and for a POST the JSON body with its content type.
//! The one-line summary printed before the request is sent is rendered here
//! as well.

use vstd::prelude::*;
use vstd::string::*;

use crate::color::{
    bright_blue_pre, bright_green_pre, colorize, green_pre, paint_bright_blue,
    paint_bright_green, paint_green, spec_mode_name, ColorMode,
};
use crate::error::HttpieError;
use crate::json::{build_body, dedup, json_object, pairs_view};
use crate::kv::KvPair;

verus! {

/// The HTTP method of a planned request.
#[derive(Debug, Clone, Copy, PartialEq, Eq, Structural)]
pub enum Method {
    Get,
    Post,
}

/// A parsed command: which request to make.
#[derive(Debug, Clone)]
pub enum Command {
    /// GET the URL, with no body.
    Get { url: String },
    /// POST to the URL, with the pairs as a JSON object body.
    Post { url: String, pairs: Vec<KvPair> },
}

/// Everything the transport needs to issue the request: the method, the
/// normalized URL, and for a POST the body with its content type.
#[derive(Debug)]
pub struct RequestPlan {
    pub method: Method,
    pub url: String,
    pub content_type: Option<String>,
    pub body: Option<String>,
}

/// The normalized serialization of the string as an absolute URL, or
/// nothing where it does not parse as one. The result stands for what the
/// `url` crate computes and depends on the string alone.
pub uninterp spec fn url_norm_of(s: Seq<char>) -> Option<Seq<char>>;

/// Relies on `url::Url::parse` and `Url::as_str`: both whether the string
/// parses as an absolute URL and the parsed URL's normalized serialization
/// are functions of the string alone.
#[verifier::external_body]
fn normalize_url(s: &str) -> (r: Option<String>)
    ensures
        r is Some <==> url_norm_of(s@) is Some,
        r matches Some(u) ==> u@ == url_norm_of(s@).unwrap(),
{
    match url::Url::parse(s) {
        Ok(u) => Some(u.as_str().to_owned()),
        Err(_) => None,
    }
}

/// The URL a command names.
pub open spec fn cmd_url(c: Command) -> Seq<char> {
    match c {
        Command::Get { url } => url@,
        Command::Post { url, .. } => url@,
    }
}

/// Plans the request a command asks for.
///
/// Fails exactly when the URL does not parse as an absolute URL. A GET plan
/// has no body and no content type; a POST plan carries the pairs as a JSON
/// object (duplicate keys resolved to their last value) under the content
/// type `application/json`.
pub fn plan_request(cmd: &Command) -> (r: Result<RequestPlan, HttpieError>)
    ensures
        r is Err <==> url_norm_of(cmd_url(*cmd)) is None,
        r matches Err(e) ==> e == HttpieError::InvalidUrl,
        r matches Ok(p) ==> {
            &&& p.url@ == url_norm_of(cmd_url(*cmd)).unwrap()
            &&& (cmd matches Command::Get { .. } ==> {
                &&& p.method == Method::Get
                &&& p.content_type is None
                &&& p.body is None
            })
            &&& (*cmd matches Command::Post { pairs, .. } ==> {
                &&& p.method == Method::Post
                &&& (p.content_type matches Some(c) && c@ == "application/json"@)
                &&& (p.body matches Some(b) && b@ == json_object(dedup(pairs_view(pairs@))))
            })
        },
{
    match cmd {
        Command::Get { url } => {
            match normalize_url(url.as_str()) {
                Some(u) => Ok(
                    RequestPlan { method: Method::Get, url: u, content_type: None, body: None },
                ),
                None => Err(HttpieError::InvalidUrl),
            }
        },
        Command::Post { url, pairs } => {
            match normalize_url(url.as_str()) {
                Some(u) => Ok(
                    RequestPlan {
                        method: Method::Post,
                        url: u,
                        content_type: Some("application/json".to_owned()),
                        body: Some(build_body(pairs)),
                    },
                ),
                None => Err(HttpieError::InvalidUrl),
            }
        },
    }
}

/// The pairs written out as `key=value`, separated by commas.
pub open spec fn pairs_list_text(ps: Seq<(Seq<char>, Seq<char>)>) -> Seq<char>
    decreases ps.len(),
{
    if ps.len() == 0 {
        Seq::empty()
    } else if ps.len() == 1 {
        ps[0].0 + "="@ + ps[0].1
    } else {
        pairs_list_text(ps.drop_last()) + ", "@ + ps.last().0 + "="@ + ps.last().1
    }
}

/// The one-line summary printed before the request is sent: the method, the
/// colorized URL, for a POST the colorized body pairs, and the color mode.
pub open spec fn summary_text(cmd: Command, mode: ColorMode, on: bool) -> Seq<char> {
    match cmd {
        Command::Get { url } => "GET "@ + colorize(on, green_pre(), url@) + " (color="@
            + spec_mode_name(mode) + ")"@,
        Command::Post { url, pairs } => "POST "@ + colorize(on, bright_green_pre(), url@)
            + ", "@
            + colorize(on, bright_blue_pre(), "["@ + pairs_list_text(pairs_view(pairs@)) + "]"@)
            + " (color="@ + spec_mode_name(mode) + ")"@,
    }
}

/// Writes the pairs as `[key=value, key=value, ...]`.
fn pairs_list_string(pairs: &Vec<KvPair>) -> (r: String)
    ensures
        r@ == "["@ + pairs_list_text(pairs_view(pairs@)) + "]"@,
{
    let ghost ps = pairs_view(pairs@);
    let n = pairs.len();
    let mut out: String = "[".to_owned();
    let mut i: usize = 0;
    while i < n
        invariant
            n == pairs.len(),
            ps == pairs_view(pairs@),
            0 <= i <= n,
            out@ == "["@ + pairs_list_text(ps.subrange(0, i as int)),
        decreases n - i,
    {
        let ghost prefix = ps.subrange(0, i as int);
        if i > 0 {
            out.append(", ");
        }
        out.append(pairs[i].k.as_str());
        out.append("=");
        out.append(pairs[i].v.as_str());
        proof {
            let prefix2 = ps.subrange(0, i + 1 as int);
            assert(prefix2.drop_last() =~= prefix);
            assert(prefix2.last() == ps[i as int]);
            if i == 0 {
                assert(pairs_list_text(prefix2) == ps[0].0 + "="@ + ps[0].1);
            }
            assert(out@ =~= "["@ + pairs_list_text(prefix2));
        }
        i = i + 1;
    }
    proof {
        assert(ps.subrange(0, n as int) =~= ps);
    }
    out.append("]");
    out
}

/// Renders the one-line request summary.
pub fn render_summary(cmd: &Command, mode: ColorMode, use_color: bool) -> (r: String)
    ensures
        r@ == summary_text(*cmd, mode, use_color),
{
    match cmd {
        Command::Get { url } => {
            let mut out: String = "GET ".to_owned();
            let painted = if use_color {
                paint_green(url.as_str())
            } else {
                url.clone()
            };
            out.append(painted.as_str());
            out.append(" (color=");
            out.append(mode.as_str());
            out.append(")");
            proof {
                assert(out@ =~= summary_text(*cmd, mode, use_color));
            }
            out
        },
        Command::Post { url, pairs } => {
            let mut out: String = "POST ".to_owned();
            let painted = if use_color {
                paint_bright_green(url.as_str())
            } else {
                url.clone()
            };
            out.append(painted.as_str());
            out.append(", ");
            let list = pairs_list_string(pairs);
            let painted_list = if use_color {
                paint_bright_blue(list.as_str())
            } else {
                list
            };
            out.append(painted_list.as_str());
            out.append(" (color=");
            out.append(mode.as_str());
            out.append(")");
            proof {
                assert(out@ =~= summary_text(*cmd, mode, use_color));
            }
            out
        },
    }
}

} // verus!

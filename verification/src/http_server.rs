//! Who may talk to the daemon over HTTP, and what they are answered.

use crate::files::{extension_dot, find_extension};
use crate::json::{find_values, values_found};
use crate::text::{
    begins_with, chars_of, is_white, joined, same_chars, same_text, slashed_chars, split_chars,
    split_on, str_of, text_begins_with, text_between, trim_chars, trimmed, trimmed_back,
    trimmed_front, view_of, with_slashes,
};
use actix_web::http::header::HeaderValue;
use actix_web::web::Query;
use mime_guess::MimeGuess;
use std::collections::HashMap;
use vstd::prelude::*;
use vstd::string::*;
use vstd::utf8::*;

verus! {

/// The parts of a request that say who may make it. Headers that are no text are left out.
#[derive(Debug)]
pub struct RequestHead {
    pub method: String,
    pub path: String,
    pub query: String,
    pub scheme: String,
    pub host: String,
    pub authorization: Option<String>,
    pub cookies: Vec<String>,
    pub origin: Option<String>,
    pub referer: Option<String>,
}

/// The name of the cookie that holds the token, and the sign behind it.
pub open spec fn cookie_prefix() -> Seq<char> {
    "goxlr_http_auth="@
}

/// The path of the socket that clients keep open.
pub open spec fn websocket_path() -> Seq<char> {
    "/api/websocket"@
}

/// The value of a parameter in the query part of an address; none where the query cannot be read.
pub uninterp spec fn query_value(query: Seq<char>, name: Seq<char>) -> Option<Seq<char>>;

/// The media type that is guessed from the extension of a file.
pub uninterp spec fn media_type(extension: Seq<char>) -> Seq<char>;

/// `web::Query::from_query` reads the query into a map, of which `name` is looked up.
#[verifier::external_body]
fn get_query_value(query: &str, name: &str) -> (value: Option<String>)
    ensures
        view_of(value) == query_value(query@, name@),
{
    match Query::<HashMap<String, String>>::from_query(query) {
        Ok(parameters) => parameters.get(name).cloned(),
        Err(_) => None,
    }
}

/// Whether a byte may stand in a header.
pub open spec fn header_byte(byte: u8) -> bool {
    byte == 0x9 || (byte >= 0x20 && byte != 0x7f)
}

/// `HeaderValue::from_str` takes a text whose bytes may all stand in a header, and keeps them.
#[verifier::external_body]
fn header_value(text: &str) -> (value: Option<Vec<u8>>)
    ensures
        value is Some <==> forall|i: int|
            0 <= i < text.spec_bytes().len() ==> header_byte(#[trigger] text.spec_bytes()[i]),
        value is Some ==> value->0@ == text.spec_bytes(),
{
    match HeaderValue::from_str(text) {
        Ok(value) => Some(value.as_bytes().to_vec()),
        Err(_) => None,
    }
}

/// `MimeGuess::from_ext` looks an extension up in a table; the guess falls back to a plain stream.
/// What the table holds is left unsaid.
#[verifier::external_body]
fn guess_media_type(extension: &str) -> (kind: String)
    ensures
        kind@ == media_type(extension@),
{
    MimeGuess::from_ext(extension).first_or_octet_stream().to_string()
}

impl RequestHead {
    /// The origin that the request was sent to.
    pub open spec fn own_origin(self) -> Seq<char> {
        self.scheme@ + "://"@ + self.host@
    }

    /// Whether one of the cookies is the token.
    pub open spec fn has_cookie(self, expected: Seq<char>) -> bool {
        exists|i: int|
            0 <= i < self.cookies@.len() && holds_cookie(#[trigger] self.cookies@[i]@, expected)
    }

    /// Whether a cookie counts. It does for a request from the own origin; a request that names no
    /// origin may only read, and must not open a socket.
    pub open spec fn cookie_counts(self) -> bool {
        match self.origin {
            Some(origin) => origin@ == self.own_origin(),
            None => match self.referer {
                Some(referer) => referer@ == self.own_origin() || begins_with(
                    referer@,
                    self.own_origin() + "/"@,
                ),
                None => self.path@ != websocket_path() && (self.method@ == "GET"@ || self.method@
                    == "HEAD"@),
            },
        }
    }

    /// Whether the request may be made. `token` is the parameter of that name in the query.
    pub open spec fn authorized(self, expected: Option<Seq<char>>, token: Option<Seq<char>>) -> bool {
        match expected {
            None => true,
            Some(expected) => {
                ||| view_of(self.authorization) == Some("Bearer "@ + expected)
                ||| self.has_cookie(expected) && self.cookie_counts()
                ||| self.path@ == websocket_path() && token == Some(expected)
            },
        }
    }
}

/// Whether a cookie header holds the token: one of its parts is the name, the sign and the token.
pub open spec fn holds_cookie(header: Seq<char>, expected: Seq<char>) -> bool {
    exists|i: int|
        0 <= i < split_on(header, ';').len() && trimmed(#[trigger] split_on(header, ';')[i])
            == cookie_prefix() + expected
}

/// Finds whether a cookie header holds the token.
fn header_holds_cookie(header: &str, expected: &str) -> (holds: bool)
    ensures
        holds == holds_cookie(header@, expected@),
{
    let wanted = chars_of(joined("goxlr_http_auth=", expected).as_str());
    let parts = split_chars(&chars_of(header), ';');
    let mut i: usize = 0;
    while i < parts.len()
        invariant
            i <= parts@.len(),
            wanted@ == cookie_prefix() + expected@,
            parts@.len() == split_on(header@, ';').len(),
            forall|j: int|
                0 <= j < parts@.len() ==> (#[trigger] parts@[j])@ == split_on(header@, ';')[j],
            forall|j: int|
                0 <= j < i ==> trimmed(#[trigger] split_on(header@, ';')[j]) != wanted@,
        decreases parts@.len() - i,
    {
        let part = trim_chars(&parts[i]);
        assert(parts@[i as int]@ == split_on(header@, ';')[i as int]);
        if same_chars(&part, &wanted) {
            return true;
        }
        i = i + 1;
    }
    false
}

/// Finds whether one of the cookies is the token.
pub fn has_auth_cookie(req: &RequestHead, expected: &str) -> (has: bool)
    ensures
        has == req.has_cookie(expected@),
{
    let mut i: usize = 0;
    while i < req.cookies.len()
        invariant
            i <= req.cookies@.len(),
            forall|j: int|
                0 <= j < i ==> !holds_cookie(#[trigger] req.cookies@[j]@, expected@),
        decreases req.cookies@.len() - i,
    {
        if header_holds_cookie(req.cookies[i].as_str(), expected) {
            return true;
        }
        i = i + 1;
    }
    false
}

/// Names the origin that a request was sent to.
pub fn request_origin(req: &RequestHead) -> (origin: String)
    ensures
        origin@ == req.own_origin(),
{
    let mut origin = joined(req.scheme.as_str(), "://");
    origin.append(req.host.as_str());
    origin
}

/// Finds whether a cookie counts.
pub fn is_cookie_auth_origin_allowed(req: &RequestHead) -> (allowed: bool)
    ensures
        allowed == req.cookie_counts(),
{
    let own = request_origin(req);
    if let Some(origin) = &req.origin {
        return same_text(origin.as_str(), own.as_str());
    }
    if let Some(referer) = &req.referer {
        let below = joined(own.as_str(), "/");
        return same_text(referer.as_str(), own.as_str()) || text_begins_with(
            referer.as_str(),
            below.as_str(),
        );
    }
    if same_text(req.path.as_str(), "/api/websocket") {
        return false;
    }
    same_text(req.method.as_str(), "GET") || same_text(req.method.as_str(), "HEAD")
}

/// Finds whether a request may be made, given the token in its query.
pub fn is_authorized_with(req: &RequestHead, expected: Option<&str>, token: &Option<String>) -> (allowed:
    bool)
    ensures
        allowed == req.authorized(str_of(expected), view_of(*token)),
{
    let expected = match expected {
        Some(expected) => expected,
        None => return true,
    };
    if let Some(authorization) = &req.authorization {
        let bearer = joined("Bearer ", expected);
        if same_text(authorization.as_str(), bearer.as_str()) {
            return true;
        }
    }
    if has_auth_cookie(req, expected) && is_cookie_auth_origin_allowed(req) {
        return true;
    }
    if same_text(req.path.as_str(), "/api/websocket") {
        if let Some(token) = token {
            return same_text(token.as_str(), expected);
        }
    }
    false
}

/// Finds whether a request may be made. Without an expected token every request may.
pub fn is_token_authorized(req: &RequestHead, expected: Option<&str>) -> (allowed: bool)
    ensures
        allowed == req.authorized(str_of(expected), query_value(req.query@, "token"@)),
{
    let token = get_query_value(req.query.as_str(), "token");
    is_authorized_with(req, expected, &token)
}

/// Whether a character may stand in the value of a cookie: it is visible, and neither a quote, a
/// comma, a semicolon nor a backslash.
pub open spec fn safe_char(c: char) -> bool {
    '!' <= c <= '~' && c != '"' && c != ',' && c != ';' && c != '\\'
}

/// Whether every character may stand in the value of a cookie.
pub open spec fn safe_value(value: Seq<char>) -> bool {
    forall|i: int| 0 <= i < value.len() ==> safe_char(#[trigger] value[i])
}

/// Finds whether a text may stand as the value of a cookie.
pub fn is_cookie_value_safe(value: &str) -> (safe: bool)
    ensures
        safe == safe_value(value@),
{
    let chars = chars_of(value);
    let mut i: usize = 0;
    while i < chars.len()
        invariant
            i <= chars@.len(),
            chars@ == value@,
            forall|j: int| 0 <= j < i ==> safe_char(#[trigger] chars@[j]),
        decreases chars@.len() - i,
    {
        let c = chars[i];
        if !(c == '!' || ('#' <= c && c <= '+') || ('-' <= c && c <= ':') || ('<' <= c && c <= '[')
            || (']' <= c && c <= '~')) {
            assert(!safe_char(chars@[i as int]));
            return false;
        }
        i = i + 1;
    }
    true
}

/// The text of the cookie that holds a token.
pub open spec fn cookie_text(token: Seq<char>) -> Seq<char> {
    cookie_prefix() + token + "; Path=/; HttpOnly; SameSite=Strict"@
}

/// Whether a token in a query is turned into a cookie: it is the expected one, and may stand in it.
pub open spec fn earns_cookie(expected: Option<Seq<char>>, token: Option<Seq<char>>) -> bool {
    expected is Some && token == expected && safe_value(token->0)
}

/// Writes the cookie for the token in a query.
pub fn cookie_for_token(expected: Option<&str>, token: &Option<String>) -> (cookie: Option<String>)
    ensures
        cookie is Some <==> earns_cookie(str_of(expected), view_of(*token)),
        cookie is Some ==> cookie->0@ == cookie_text(str_of(expected)->0),
{
    let expected = match expected {
        Some(expected) => expected,
        None => return None,
    };
    let token = match token {
        Some(token) => token,
        None => return None,
    };
    if !same_text(token.as_str(), expected) || !is_cookie_value_safe(token.as_str()) {
        return None;
    }
    let mut text = joined("goxlr_http_auth=", token.as_str());
    text.append("; Path=/; HttpOnly; SameSite=Strict");
    Some(text)
}

/// Writes the cookie header for the token in the query of a request.
pub fn build_auth_cookie_from_query(req: &RequestHead, expected: Option<&str>) -> (cookie: Option<
    Vec<u8>,
>)
    ensures
        cookie is Some <==> earns_cookie(str_of(expected), query_value(req.query@, "token"@)),
        cookie is Some ==> cookie->0@ == encode_utf8(cookie_text(str_of(expected)->0)),
{
    let token = get_query_value(req.query.as_str(), "token");
    match cookie_for_token(expected, &token) {
        Some(text) => {
            proof {
                lemma_cookie_text_plain(str_of(expected)->0);
                assert forall|i: int| 0 <= i < text@.len() implies '\0' <= #[trigger] text@[i]
                    <= '\u{7f}' by {
                    assert(text@[i] == cookie_text(str_of(expected)->0)[i]);
                }
                is_ascii_chars_encode_utf8(text@);
            }
            header_value(text.as_str())
        },
        None => None,
    }
}

/// The text of a cookie with a safe token is plain ASCII without control characters.
proof fn lemma_cookie_text_plain(token: Seq<char>)
    requires
        safe_value(token),
    ensures
        forall|i: int|
            0 <= i < cookie_text(token).len() ==> ' ' <= #[trigger] cookie_text(token)[i] <= '~',
{
    reveal_strlit("goxlr_http_auth=");
    reveal_strlit("; Path=/; HttpOnly; SameSite=Strict");
    let text = cookie_text(token);
    let start = cookie_prefix();
    let end = "; Path=/; HttpOnly; SameSite=Strict"@;
    assert forall|i: int| 0 <= i < text.len() implies ' ' <= #[trigger] text[i] <= '~' by {
        if i < start.len() {
            assert(text[i] == start[i]);
        } else if i < start.len() + token.len() {
            assert(text[i] == token[i - start.len()]);
            assert(safe_char(token[i - start.len()]));
        } else {
            assert(text[i] == end[i - start.len() - token.len()]);
        }
    }
}

/// Without an expected token every request may be made.
pub proof fn no_token_allows_all(req: RequestHead, token: Option<Seq<char>>)
    ensures
        req.authorized(None, token),
{
}

/// A token in the query opens the socket and nothing else: a request with neither the header nor
/// the cookie may be made exactly if it is for the socket and its query has the token.
pub proof fn query_token_opens_socket_only(
    req: RequestHead,
    expected: Seq<char>,
    token: Option<Seq<char>>,
)
    requires
        req.authorization is None,
        req.cookies@.len() == 0,
    ensures
        req.authorized(Some(expected), token) <==> req.path@ == websocket_path() && token == Some(
            expected,
        ),
{
}

/// A request that names another origin is not let in by its cookie.
pub proof fn cookie_needs_own_origin(req: RequestHead, expected: Seq<char>)
    requires
        req.authorization is None,
        req.origin is Some,
        req.origin->0@ != req.own_origin(),
    ensures
        !req.authorized(Some(expected), None),
{
}

/// A safe value has no character that ends a cookie, and no white space.
pub proof fn safe_value_stays_whole(value: Seq<char>, i: int)
    requires
        safe_value(value),
        0 <= i < value.len(),
    ensures
        value[i] != ';',
        value[i] != ',',
        !is_white(value[i]),
{
    assert(safe_char(value[i]));
}

/// A text without the separator is one part.
proof fn lemma_split_whole(text: Seq<char>, separator: char)
    requires
        forall|i: int| 0 <= i < text.len() ==> #[trigger] text[i] != separator,
    ensures
        split_on(text, separator) == seq![text],
    decreases text.len(),
{
    if text.len() > 0 {
        assert forall|i: int| 0 <= i < text.drop_last().len() implies #[trigger] text.drop_last()[i]
            != separator by {
            assert(text.drop_last()[i] == text[i]);
        }
        lemma_split_whole(text.drop_last(), separator);
        assert(text[text.len() - 1] != separator);
        let parts = split_on(text.drop_last(), separator);
        assert(parts.last().push(text.last()) =~= text);
        assert(split_on(text, separator) =~= seq![text]);
    } else {
        assert(text =~= Seq::empty());
    }
}

/// The cookie that a client got for its token lets it in again: sent back as its name, the sign and
/// the token, it counts for every request for which cookies count.
pub proof fn cookie_lets_in_again(req: RequestHead, expected: Seq<char>, token: Option<Seq<char>>)
    requires
        earns_cookie(Some(expected), Some(expected)),
        req.cookies@.len() == 1,
        req.cookies@[0]@ == cookie_prefix() + expected,
        req.cookie_counts(),
    ensures
        req.authorized(Some(expected), token),
{
    reveal_strlit("goxlr_http_auth=");
    let header = cookie_prefix() + expected;
    assert forall|i: int| 0 <= i < header.len() implies #[trigger] header[i] != ';' && !is_white(
        header[i],
    ) by {
        if i < cookie_prefix().len() {
            assert(header[i] == cookie_prefix()[i]);
        } else {
            assert(header[i] == expected[i - cookie_prefix().len()]);
            assert(safe_char(expected[i - cookie_prefix().len()]));
        }
    }
    lemma_split_whole(header, ';');
    assert(split_on(header, ';')[0] == header);
    assert(header[0] == header[0]);
    assert(header.last() == header[header.len() - 1]);
    assert(trimmed_front(header) == header);
    assert(trimmed_back(header) == header);
    assert(holds_cookie(req.cookies@[0]@, expected));
}

/// Whether bytes begin with other bytes.
pub open spec fn bytes_begin_with(bytes: Seq<u8>, prefix: Seq<u8>) -> bool {
    prefix.len() <= bytes.len() && bytes.take(prefix.len() as int) == prefix
}

/// Finds whether bytes begin with those of a text.
fn starts_with_text(bytes: &[u8], prefix: &str) -> (starts: bool)
    ensures
        starts == bytes_begin_with(bytes@, prefix.spec_bytes()),
{
    let wanted = prefix.as_bytes();
    if wanted.len() > bytes.len() {
        return false;
    }
    let mut i: usize = 0;
    while i < wanted.len()
        invariant
            i <= wanted@.len() <= bytes@.len(),
            wanted@ == prefix.spec_bytes(),
            forall|j: int| 0 <= j < i ==> bytes@[j] == wanted@[j],
        decreases wanted@.len() - i,
    {
        if bytes[i] != wanted[i] {
            assert(bytes@.take(wanted@.len() as int)[i as int] != wanted@[i as int]);
            return false;
        }
        i = i + 1;
    }
    assert(bytes@.take(wanted@.len() as int) =~= wanted@);
    true
}

/// Whether scripts of an origin may read what the daemon answers: those of this machine may.
pub fn is_cors_origin_allowed(origin: &[u8]) -> (allowed: bool)
    ensures
        allowed == (bytes_begin_with(origin@, "http://127.0.0.1".spec_bytes()) || bytes_begin_with(
            origin@,
            "http://localhost".spec_bytes(),
        )),
{
    starts_with_text(origin, "http://127.0.0.1") || starts_with_text(origin, "http://localhost")
}

/// Whether a character is a letter from A to Z, in either case.
pub open spec fn is_letter(c: char) -> bool {
    ('a' <= c <= 'z') || ('A' <= c <= 'Z')
}

/// The steps of a path, which lie between its separators. On Windows a drive may stand before the
/// first of them.
pub open spec fn steps_of(path: Seq<char>, windows: bool) -> Seq<Seq<char>> {
    let slashed = with_slashes(path, windows);
    if windows && path.len() >= 2 && is_letter(path[0]) && path[1] == ':' {
        split_on(slashed.skip(2), '/')
    } else {
        split_on(slashed, '/')
    }
}

/// Whether a path leads out of its directory at some point.
pub open spec fn leaves_directory(path: Seq<char>, windows: bool) -> bool {
    exists|i: int|
        0 <= i < steps_of(path, windows).len() && #[trigger] steps_of(path, windows)[i] == ".."@
}

/// Lists the steps of a path.
fn list_steps(path: &str, windows: bool) -> (steps: Vec<Vec<char>>)
    ensures
        steps@.len() == steps_of(path@, windows).len(),
        forall|i: int|
            0 <= i < steps@.len() ==> (#[trigger] steps@[i])@ == steps_of(path@, windows)[i],
{
    let chars = slashed_chars(path, windows);
    if windows && chars.len() >= 2 {
        let first: char = path.get_char(0);
        let second: char = path.get_char(1);
        let letter = ('a' <= first && first <= 'z') || ('A' <= first && first <= 'Z');
        if letter && second == ':' {
            let mut rest: Vec<char> = Vec::new();
            let mut i: usize = 2;
            while i < chars.len()
                invariant
                    2 <= i <= chars@.len(),
                    rest@ == chars@.subrange(2, i as int),
                decreases chars@.len() - i,
            {
                rest.push(chars[i]);
                assert(chars@.subrange(2, i + 1) =~= chars@.subrange(2, i as int).push(
                    chars@[i as int],
                ));
                i = i + 1;
            }
            assert(rest@ =~= chars@.skip(2));
            return split_chars(&rest, '/');
        }
    }
    split_chars(&chars, '/')
}

/// Finds whether a path leads out of its directory at some point.
pub fn has_parent_dir(path: &str, windows: bool) -> (leaves: bool)
    ensures
        leaves == leaves_directory(path@, windows),
{
    let parent = chars_of("..");
    let parts = list_steps(path, windows);
    let mut i: usize = 0;
    while i < parts.len()
        invariant
            i <= parts@.len(),
            parent@ == ".."@,
            parts@.len() == steps_of(path@, windows).len(),
            forall|j: int|
                0 <= j < parts@.len() ==> (#[trigger] parts@[j])@ == steps_of(path@, windows)[j],
            forall|j: int| 0 <= j < i ==> #[trigger] steps_of(path@, windows)[j] != ".."@,
        decreases parts@.len() - i,
    {
        assert(parts@[i as int]@ == steps_of(path@, windows)[i as int]);
        if same_chars(&parts[i], &parent) {
            return true;
        }
        i = i + 1;
    }
    false
}

/// The last step that names something: an empty step and the directory itself name nothing.
pub open spec fn last_step(steps: Seq<Seq<char>>) -> Option<Seq<char>>
    decreases steps.len(),
{
    if steps.len() == 0 {
        None
    } else if steps.last().len() == 0 || steps.last() == "."@ {
        last_step(steps.drop_last())
    } else {
        Some(steps.last())
    }
}

/// The extension of the file at a path; nothing where it has none.
pub open spec fn extension_of(path: Seq<char>, windows: bool) -> Seq<char> {
    match last_step(steps_of(path, windows)) {
        Some(name) => match extension_dot(name) {
            Some(dot) => name.skip(dot + 1),
            None => Seq::empty(),
        },
        None => Seq::empty(),
    }
}

/// Finds the extension of the file at a path.
pub fn find_path_extension(path: &str, windows: bool) -> (extension: String)
    ensures
        extension@ == extension_of(path@, windows),
{
    let steps = list_steps(path, windows);
    let ghost all = steps_of(path@, windows);
    let here = chars_of(".");
    let mut end: usize = steps.len();
    assert(all.take(end as int) =~= all);
    while end > 0
        invariant
            end <= steps@.len(),
            here@ == "."@,
            all == steps_of(path@, windows),
            steps@.len() == all.len(),
            forall|i: int| 0 <= i < steps@.len() ==> (#[trigger] steps@[i])@ == all[i],
            last_step(all) == last_step(all.take(end as int)),
        decreases end,
    {
        let name = &steps[end - 1];
        assert(all.take(end as int).drop_last() =~= all.take(end - 1));
        if name.len() > 0 && !same_chars(name, &here) {
            return match find_extension(name) {
                Some(dot) => {
                    let extension = text_between(name, dot + 1, name.len());
                    assert(extension@ =~= name@.skip(dot + 1));
                    extension
                },
                None => String::new(),
            };
        }
        end = end - 1;
    }
    String::new()
}

/// How a request for a sample is answered.
#[derive(Debug, PartialEq, Eq)]
pub enum SampleAnswer {
    Unauthorized,
    Forbidden,
    NotFound,
    /// The contents of the file, under this media type.
    Contents { media_type: String },
    Unreadable,
}

/// Decides how a request for a sample is answered. `found` is the path of the file, where there is
/// one below the directory of the samples, and `readable` says whether it could be read.
pub fn get_sample(
    authorized: bool,
    path: &str,
    windows: bool,
    found: Option<&str>,
    readable: bool,
) -> (answer: SampleAnswer)
    ensures
        match answer {
            SampleAnswer::Unauthorized => !authorized,
            SampleAnswer::Forbidden => authorized && leaves_directory(path@, windows),
            SampleAnswer::NotFound => authorized && !leaves_directory(path@, windows) && found is None,
            SampleAnswer::Contents { media_type: kind } => authorized && !leaves_directory(path@, windows)
                && found is Some && readable && kind@ == media_type(extension_of(found->0@, windows)),
            SampleAnswer::Unreadable => authorized && !leaves_directory(path@, windows) && found is Some
                && !readable,
        },
{
    if !authorized {
        return SampleAnswer::Unauthorized;
    }
    if has_parent_dir(path, windows) {
        return SampleAnswer::Forbidden;
    }
    match found {
        None => SampleAnswer::NotFound,
        Some(file) => {
            if readable {
                let extension = find_path_extension(file, windows);
                SampleAnswer::Contents { media_type: guess_media_type(extension.as_str()) }
            } else {
                SampleAnswer::Unreadable
            }
        },
    }
}

/// The page that a path stands for: the first page for the path of the site itself.
pub open spec fn page_of(path: Seq<char>) -> Seq<char> {
    if path == "/"@ || path.len() == 0 {
        "/index.html"@
    } else {
        path
    }
}

/// Finds the page that a path stands for.
pub fn page_path(path: &str) -> (page: String)
    ensures
        page@ == page_of(path@),
{
    if same_text(path, "/") || path.is_empty() {
        return "/index.html".to_owned();
    }
    path.to_owned()
}

/// Finds the name of the file of a page, which lacks the first character of the path.
pub fn page_file(page: &str) -> (file: String)
    requires
        page@.len() > 0,
    ensures
        file@ == page@.skip(1),
{
    let chars = chars_of(page);
    let file = crate::text::text_between(&chars, 1, chars.len());
    assert(chars@.subrange(1, chars@.len() as int) =~= page@.skip(1));
    file
}

/// How a request for a page is answered.
#[derive(Debug)]
pub enum PageAnswer {
    NotFound,
    /// The client is sent to `location`, and keeps the cookie.
    Redirect { cookie: Vec<u8>, location: String },
    /// The contents of the file, under this media type.
    Contents { media_type: String },
}

/// Decides how a request for a page is answered. `found` says whether the page exists. A client
/// that brings its token in the query gets it as a cookie, and is sent to the same page without it.
/// `windows` says whether the daemon runs there.
pub fn default(req: &RequestHead, expected: Option<&str>, windows: bool, found: bool) -> (answer:
    PageAnswer)
    ensures
        !found ==> answer is NotFound,
        found ==> match answer {
            PageAnswer::NotFound => false,
            PageAnswer::Redirect { cookie, location } => {
                &&& earns_cookie(str_of(expected), query_value(req.query@, "token"@))
                &&& cookie@ == encode_utf8(cookie_text(str_of(expected)->0))
                &&& location@ == (if req.path@.len() == 0 {
                    "/"@
                } else {
                    req.path@
                })
            },
            PageAnswer::Contents { media_type: kind } => {
                &&& !earns_cookie(str_of(expected), query_value(req.query@, "token"@))
                &&& kind@ == media_type(extension_of(page_of(req.path@), windows))
            },
        },
{
    if !found {
        return PageAnswer::NotFound;
    }
    if let Some(cookie) = build_auth_cookie_from_query(req, expected) {
        let location = if req.path.as_str().is_empty() {
            "/".to_owned()
        } else {
            req.path.as_str().to_owned()
        };
        return PageAnswer::Redirect { cookie, location };
    }
    let page = page_path(req.path.as_str());
    let extension = find_path_extension(page.as_str(), windows);
    PageAnswer::Contents { media_type: guess_media_type(extension.as_str()) }
}

/// How a request for a part of the state is answered.
#[derive(Debug)]
pub enum PathAnswer {
    Unauthorized,
    /// The values that the path finds.
    Found(String),
    Failed,
}

/// The values that a path finds in the state, where there is a path and the state is known.
pub open spec fn found_at(path: Option<Seq<char>>, status: Option<Seq<char>>) -> Option<Seq<char>> {
    match (path, status) {
        (Some(path), Some(status)) => values_found(status, path),
        _ => None,
    }
}

/// Answers a request for a part of the state. `status` is the state of the daemon as a text, where it
/// could be had.
pub fn get_path(req: &RequestHead, expected: Option<&str>, status: Option<&str>) -> (answer: PathAnswer)
    ensures
        match answer {
            PathAnswer::Unauthorized => !req.authorized(
                str_of(expected),
                query_value(req.query@, "token"@),
            ),
            PathAnswer::Found(values) => {
                &&& req.authorized(str_of(expected), query_value(req.query@, "token"@))
                &&& found_at(query_value(req.query@, "path"@), str_of(status)) == Some(values@)
            },
            PathAnswer::Failed => {
                &&& req.authorized(str_of(expected), query_value(req.query@, "token"@))
                &&& found_at(query_value(req.query@, "path"@), str_of(status)) is None
            },
        },
{
    if !is_token_authorized(req, expected) {
        return PathAnswer::Unauthorized;
    }
    let path = match get_query_value(req.query.as_str(), "path") {
        Some(path) => path,
        None => return PathAnswer::Failed,
    };
    let status = match status {
        Some(status) => status,
        None => return PathAnswer::Failed,
    };
    match find_values(status, path.as_str()) {
        Some(values) => PathAnswer::Found(values),
        None => PathAnswer::Failed,
    }
}

/// What the screen over a fader shows.
#[derive(Debug)]
pub struct Scribble {
    pub file_name: Option<String>,
    pub bottom_text: Option<String>,
    pub left_text: Option<String>,
    pub inverted: bool,
}

/// Whether two screens show the same.
pub open spec fn same_scribble(a: Scribble, b: Scribble) -> bool {
    view_of(a.file_name) == view_of(b.file_name) && view_of(a.bottom_text) == view_of(b.bottom_text)
        && view_of(a.left_text) == view_of(b.left_text) && a.inverted == b.inverted
}

/// Finds whether two texts, which may be missing, are the same.
fn same_optional(a: &Option<String>, b: &Option<String>) -> (same: bool)
    ensures
        same == (view_of(*a) == view_of(*b)),
{
    match (a, b) {
        (Some(a), Some(b)) => same_text(a.as_str(), b.as_str()),
        (None, None) => true,
        _ => false,
    }
}

/// How a request for the picture of a screen is answered.
#[derive(Clone, Copy, Debug, PartialEq, Eq, Structural)]
pub enum ScribbleAnswer {
    NotFound,
    /// The picture that was drawn before.
    Cached,
    /// A new picture, which is kept.
    Draw,
}

/// Decides how a request for the picture of a screen is answered. A picture that was drawn before
/// serves as long as the screen shows the same.
pub fn get_scribble(
    wanted: &Option<Scribble>,
    cached: &Option<Scribble>,
    has_picture: bool,
) -> (answer: ScribbleAnswer)
    ensures
        answer == (match *wanted {
            None => ScribbleAnswer::NotFound,
            Some(wanted) => if has_picture && *cached is Some && same_scribble(
                wanted,
                cached->0,
            ) {
                ScribbleAnswer::Cached
            } else {
                ScribbleAnswer::Draw
            },
        }),
{
    let wanted = match wanted {
        Some(wanted) => wanted,
        None => return ScribbleAnswer::NotFound,
    };
    if let Some(cached) = cached {
        if has_picture && same_optional(&wanted.file_name, &cached.file_name) && same_optional(
            &wanted.bottom_text,
            &cached.bottom_text,
        ) && same_optional(&wanted.left_text, &cached.left_text) && wanted.inverted
            == cached.inverted {
            return ScribbleAnswer::Cached;
        }
    }
    ScribbleAnswer::Draw
}

} // verus!

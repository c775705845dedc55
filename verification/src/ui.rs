//! The companion web UI's HTTP layer: reading the request line and
//! headers, routing, and framing responses. Sockets, the world model and
//! JSON bodies are handled outside.

use vstd::prelude::*;

use crate::desktop_strategy::{split_char, words};
use crate::numbers::{all_digits, digits_value};
use crate::permissions::{PermissionRegistry, PermissionState};
use crate::desktop_strategy::svs;
use crate::text::{
    byte_len, chars_of, decimal, is_prefix, lowercase, owned, push_decimal, str_eq,
    str_starts_with, string_of, string_views, to_lowercase, trim, trim_chars, utf8_len,
};
use vstd::utf8::encode_utf8;

verus! {

/// Configuration of the web UI.
#[derive(Debug, Clone, Copy, PartialEq, Eq, Structural)]
pub struct UiConfig {
    pub port: u16,
}

impl Default for UiConfig {
    fn default() -> (c: Self)
        ensures
            c.port == 9876,
    {
        UiConfig { port: 9876 }
    }
}

/// The reason phrase of a status code.
pub open spec fn status_spec(code: u16) -> Seq<char> {
    if code == 200 {
        "OK"@
    } else if code == 201 {
        "Created"@
    } else if code == 204 {
        "No Content"@
    } else if code == 400 {
        "Bad Request"@
    } else if code == 404 {
        "Not Found"@
    } else if code == 405 {
        "Method Not Allowed"@
    } else if code == 500 {
        "Internal Server Error"@
    } else {
        "Unknown"@
    }
}

/// The reason phrase of `code`.
pub fn status_text(code: u16) -> (s: &'static str)
    ensures
        s@ == status_spec(code),
{
    if code == 200 {
        "OK"
    } else if code == 201 {
        "Created"
    } else if code == 204 {
        "No Content"
    } else if code == 400 {
        "Bad Request"
    } else if code == 404 {
        "Not Found"
    } else if code == 405 {
        "Method Not Allowed"
    } else if code == 500 {
        "Internal Server Error"
    } else {
        "Unknown"
    }
}

fn push_bytes(v: &mut Vec<u8>, s: &str)
    ensures
        final(v)@ == old(v)@ + encode_utf8(s@),
{
    let b = s.as_bytes();
    let mut i: usize = 0;
    while i < b.len()
        invariant
            i <= b@.len(),
            b@ == encode_utf8(s@),
            v@ == old(v)@ + b@.subrange(0, i as int),
        decreases b@.len() - i,
    {
        v.push(b[i]);
        i = i + 1;
        assert(v@ =~= old(v)@ + b@.subrange(0, i as int));
    }
    assert(b@.subrange(0, b@.len() as int) =~= b@);
}

/// The head of a JSON response with a body of `len` bytes.
pub open spec fn json_head(len: nat) -> Seq<char> {
    "HTTP/1.1 200 OK\r\nContent-Type: application/json\r\nAccess-Control-Allow-Origin: *\r\nContent-Length: "@
        + decimal(len) + "\r\nConnection: close\r\n\r\n"@
}

/// The head of an HTML response with a body of `len` bytes.
pub open spec fn html_head(len: nat) -> Seq<char> {
    "HTTP/1.1 200 OK\r\nContent-Type: text/html; charset=utf-8\r\nContent-Length: "@ + decimal(len)
        + "\r\nConnection: close\r\n\r\n"@
}

/// A 200 response carrying JSON.
pub fn json_response(body: &str) -> (r: Vec<u8>)
    ensures
        r@ == encode_utf8(json_head(utf8_len(body@))) + encode_utf8(body@),
{
    let mut head = String::from_str(
        "HTTP/1.1 200 OK\r\nContent-Type: application/json\r\nAccess-Control-Allow-Origin: *\r\nContent-Length: ",
    );
    push_decimal(&mut head, byte_len(body) as u64);
    head.append("\r\nConnection: close\r\n\r\n");
    let mut r: Vec<u8> = Vec::new();
    push_bytes(&mut r, head.as_str());
    push_bytes(&mut r, body);
    assert(head@ =~= json_head(utf8_len(body@)));
    r
}

/// A 200 response carrying HTML.
pub fn html_response(body: &str) -> (r: Vec<u8>)
    ensures
        r@ == encode_utf8(html_head(utf8_len(body@))) + encode_utf8(body@),
{
    let mut head = String::from_str(
        "HTTP/1.1 200 OK\r\nContent-Type: text/html; charset=utf-8\r\nContent-Length: ",
    );
    push_decimal(&mut head, byte_len(body) as u64);
    head.append("\r\nConnection: close\r\n\r\n");
    let mut r: Vec<u8> = Vec::new();
    push_bytes(&mut r, head.as_str());
    push_bytes(&mut r, body);
    assert(head@ =~= html_head(utf8_len(body@)));
    r
}

/// The JSON body of an error.
pub open spec fn error_body(message: Seq<char>) -> Seq<char> {
    "{\"error\":\""@ + message + "\"}"@
}

/// The head of an error response.
pub open spec fn error_head(code: u16, len: nat) -> Seq<char> {
    "HTTP/1.1 "@ + decimal(code as nat) + " "@ + status_spec(code)
        + "\r\nContent-Type: application/json\r\nAccess-Control-Allow-Origin: *\r\nContent-Length: "@
        + decimal(len) + "\r\nConnection: close\r\n\r\n"@
}

/// An error response: the code, its reason phrase, and `{"error":"..."}`
/// with the message as given.
pub fn error_response(code: u16, message: &str) -> (r: Vec<u8>)
    ensures
        r@ == encode_utf8(error_head(code, utf8_len(error_body(message@)))) + encode_utf8(
            error_body(message@),
        ),
{
    let mut body = String::from_str("{\"error\":\"");
    body.append(message);
    body.append("\"}");
    let mut head = String::from_str("HTTP/1.1 ");
    push_decimal(&mut head, code as u64);
    head.append(" ");
    head.append(status_text(code));
    head.append(
        "\r\nContent-Type: application/json\r\nAccess-Control-Allow-Origin: *\r\nContent-Length: ",
    );
    push_decimal(&mut head, byte_len(body.as_str()) as u64);
    head.append("\r\nConnection: close\r\n\r\n");
    let mut r: Vec<u8> = Vec::new();
    push_bytes(&mut r, head.as_str());
    push_bytes(&mut r, body.as_str());
    assert(body@ =~= error_body(message@));
    assert(head@ =~= error_head(code, utf8_len(error_body(message@))));
    r
}

/// The 404 response.
pub fn not_found() -> (r: Vec<u8>)
    ensures
        r@ == encode_utf8(error_head(404, utf8_len(error_body("not found"@)))) + encode_utf8(
            error_body("not found"@),
        ),
{
    error_response(404, "not found")
}

/// The method and target of a request line: its first two
/// whitespace-separated words; `None` when it has fewer.
pub fn parse_request_line(line: &str) -> (r: Option<(String, String)>)
    ensures
        match r {
            Some((m, p)) => words(line@).len() >= 2 && m@ == words(line@)[0] && p@ == words(line@)[1],
            None => words(line@).len() < 2,
        },
{
    let ws = crate::desktop_strategy::split_words(line);
    if ws.len() < 2 {
        return None;
    }
    assert(svs(ws@)[0] == ws@[0]@);
    assert(svs(ws@)[1] == ws@[1]@);
    Some((ws[0].clone(), ws[1].clone()))
}

/// A header line that ends the headers: blank once trimmed.
pub fn is_end_of_headers(header: &str) -> (b: bool)
    ensures
        b == (trim(header@).len() == 0),
{
    let v = chars_of(header);
    let t = trim_chars(&v);
    t.len() == 0
}

/// What `s.parse::<usize>()` gives, as an option.
pub open spec fn parse_usize(s: Seq<char>) -> Option<int> {
    match crate::numbers::parse_int(s, false) {
        Some(v) => if 0 <= v <= usize::MAX { Some(v) } else { None },
        None => None,
    }
}

/// The content length a header line gives: for a `Content-Length` header
/// (in any case), the trimmed text after its first colon as a number, 0
/// when that does not parse; `None` for other headers.
pub open spec fn content_length_spec(header: Seq<char>) -> Option<int> {
    if is_prefix("content-length:"@, lowercase(header)) {
        let pieces = split_char(header, ':');
        Some(
            if pieces.len() >= 2 {
                match parse_usize(trim(pieces[1])) {
                    Some(n) => n,
                    None => 0,
                }
            } else {
                0
            },
        )
    } else {
        None
    }
}

/// The content length a header line gives, if it is a `Content-Length`
/// header.
pub fn content_length(header: &str) -> (r: Option<usize>)
    ensures
        match r {
            Some(n) => content_length_spec(header@) == Some(n as int),
            None => content_length_spec(header@) is None,
        },
{
    let low = to_lowercase(header);
    if !str_starts_with(low.as_str(), "content-length:") {
        return None;
    }
    let pieces = crate::desktop_strategy::split_on(header, ':');
    if pieces.len() < 2 {
        return Some(0);
    }
    assert(svs(pieces@)[1] == pieces@[1]@);
    let v = chars_of(pieces[1].as_str());
    let t = trim_chars(&v);
    let ts = string_of(&t);
    match crate::numbers::parse_u64_opt(ts.as_str()) {
        Some(n) => {
            if n as u128 <= usize::MAX as u128 {
                Some(n as usize)
            } else {
                Some(0)
            }
        },
        None => {
            assert(crate::numbers::parse_u64(ts@) is None);
            Some(0)
        },
    }
}

/// The position of the first `c` in `s`, if any.
pub open spec fn first_index(s: Seq<char>, c: char) -> Option<int> {
    if exists|i: int| 0 <= i < s.len() && s[i] == c {
        Some(choose|i: int| 0 <= i < s.len() && s[i] == c && forall|j: int| 0 <= j < i ==> s[j] != c)
    } else {
        None
    }
}

/// A request target split at its first '?': the path and the query
/// (empty when there is none).
pub fn split_target(target: &str) -> (r: (String, String))
    ensures
        (forall|i: int| 0 <= i < target@.len() ==> target@[i] != '?') ==> r.0@ == target@ && r.1@.len()
            == 0,
        forall|k: int|
            0 <= k < target@.len() && target@[k] == '?' && (forall|j: int|
                0 <= j < k ==> target@[j] != '?') ==> r.0@ == target@.subrange(0, k) && r.1@
                == target@.subrange(k + 1, target@.len() as int),
{
    let v = chars_of(target);
    let n = v.len();
    let mut i: usize = 0;
    while i < n && v[i] != '?'
        invariant
            n == v@.len(),
            v@ == target@,
            i <= n,
            forall|j: int| 0 <= j < i ==> v@[j] != '?',
        decreases n - i,
    {
        i = i + 1;
    }
    let mut path: Vec<char> = Vec::new();
    let mut k: usize = 0;
    while k < i
        invariant
            k <= i,
            i <= n,
            n == v@.len(),
            path@ == v@.subrange(0, k as int),
        decreases i - k,
    {
        path.push(v[k]);
        k = k + 1;
        assert(path@ =~= v@.subrange(0, k as int));
    }
    let mut query: Vec<char> = Vec::new();
    if i < n {
        let mut k: usize = i + 1;
        while k < n
            invariant
                i + 1 <= k <= n,
                n == v@.len(),
                query@ == v@.subrange(i + 1, k as int),
            decreases n - k,
        {
            query.push(v[k]);
            k = k + 1;
            assert(query@ =~= v@.subrange(i + 1, k as int));
        }
    }
    proof {
        if i == n {
            assert(v@.subrange(0, n as int) =~= v@);
        }
        assert forall|q: int|
            0 <= q < target@.len() && target@[q] == '?' && (forall|j: int|
                0 <= j < q ==> target@[j] != '?') implies q == i by {
            if q < i {
                assert(v@[q] != '?');
            }
            if q > i {
                assert(i < n);
                assert(v@[i as int] == '?');
            }
        }
    }
    (string_of(&path), string_of(&query))
}

/// The endpoints of the UI.
#[derive(Debug, Clone, Copy, PartialEq, Eq, Structural)]
pub enum Route {
    Events,
    Index,
    Status,
    Entities,
    Relationships,
    Reflections,
    Attention,
    GetSettings,
    PutSettings,
    GetPermissions,
    TogglePermission,
    Activity,
    Explain,
    Forget,
    Correct,
    Merge,
    TrustStatus,
    ToggleEncrypt,
    CreateBackup,
    RestoreBackup,
    Chat,
    NotFound,
}

/// The endpoint for a method and a path.
pub open spec fn route_spec(m: Seq<char>, p: Seq<char>) -> Route {
    if m == "GET"@ && p == "/events"@ {
        Route::Events
    } else if m == "GET"@ && p == "/"@ {
        Route::Index
    } else if m == "GET"@ && p == "/api/status"@ {
        Route::Status
    } else if m == "GET"@ && p == "/api/entities"@ {
        Route::Entities
    } else if m == "GET"@ && p == "/api/relationships"@ {
        Route::Relationships
    } else if m == "GET"@ && p == "/api/reflections"@ {
        Route::Reflections
    } else if m == "GET"@ && p == "/api/attention"@ {
        Route::Attention
    } else if m == "GET"@ && p == "/api/settings"@ {
        Route::GetSettings
    } else if m == "POST"@ && p == "/api/settings"@ {
        Route::PutSettings
    } else if m == "GET"@ && p == "/api/permissions"@ {
        Route::GetPermissions
    } else if m == "POST"@ && p == "/api/permissions"@ {
        Route::TogglePermission
    } else if m == "GET"@ && p == "/api/activity"@ {
        Route::Activity
    } else if m == "GET"@ && p == "/api/explain"@ {
        Route::Explain
    } else if m == "POST"@ && p == "/api/forget"@ {
        Route::Forget
    } else if m == "POST"@ && p == "/api/correct"@ {
        Route::Correct
    } else if m == "POST"@ && p == "/api/merge"@ {
        Route::Merge
    } else if m == "GET"@ && p == "/api/trust/status"@ {
        Route::TrustStatus
    } else if m == "GET"@ && p == "/api/encrypt"@ {
        Route::ToggleEncrypt
    } else if m == "POST"@ && p == "/api/backup"@ {
        Route::CreateBackup
    } else if m == "POST"@ && p == "/api/restore"@ {
        Route::RestoreBackup
    } else if m == "POST"@ && p == "/chat"@ {
        Route::Chat
    } else {
        Route::NotFound
    }
}

/// The web UI's endpoint table: each documented method and path with the
/// endpoint it reaches.
pub open spec fn endpoints() -> Seq<(Seq<char>, Seq<char>, Route)> {
    seq![
        ("GET"@, "/events"@, Route::Events),
        ("GET"@, "/"@, Route::Index),
        ("GET"@, "/api/status"@, Route::Status),
        ("GET"@, "/api/entities"@, Route::Entities),
        ("GET"@, "/api/relationships"@, Route::Relationships),
        ("GET"@, "/api/reflections"@, Route::Reflections),
        ("GET"@, "/api/attention"@, Route::Attention),
        ("GET"@, "/api/settings"@, Route::GetSettings),
        ("POST"@, "/api/settings"@, Route::PutSettings),
        ("GET"@, "/api/permissions"@, Route::GetPermissions),
        ("POST"@, "/api/permissions"@, Route::TogglePermission),
        ("GET"@, "/api/activity"@, Route::Activity),
        ("GET"@, "/api/explain"@, Route::Explain),
        ("POST"@, "/api/forget"@, Route::Forget),
        ("POST"@, "/api/correct"@, Route::Correct),
        ("POST"@, "/api/merge"@, Route::Merge),
        ("GET"@, "/api/trust/status"@, Route::TrustStatus),
        ("GET"@, "/api/encrypt"@, Route::ToggleEncrypt),
        ("POST"@, "/api/backup"@, Route::CreateBackup),
        ("POST"@, "/api/restore"@, Route::RestoreBackup),
        ("POST"@, "/chat"@, Route::Chat),
    ]
}

/// Every documented endpoint is reached by its method and path, and a
/// request is answered "not found" exactly when its method and path are
/// not in the table.
pub proof fn lemma_routes_follow_endpoint_table(m: Seq<char>, p: Seq<char>)
    ensures
        forall|i: int|
            0 <= i < endpoints().len() ==> route_spec(endpoints()[i].0, endpoints()[i].1)
                == #[trigger] endpoints()[i].2,
        route_spec(m, p) == Route::NotFound <==> forall|i: int|
            0 <= i < endpoints().len() ==> !(#[trigger] endpoints()[i].0 == m && endpoints()[i].1 == p),
{
    reveal_strlit("/");
    reveal_strlit("/api/activity");
    reveal_strlit("/api/attention");
    reveal_strlit("/api/backup");
    reveal_strlit("/api/correct");
    reveal_strlit("/api/encrypt");
    reveal_strlit("/api/entities");
    reveal_strlit("/api/explain");
    reveal_strlit("/api/forget");
    reveal_strlit("/api/merge");
    reveal_strlit("/api/permissions");
    reveal_strlit("/api/reflections");
    reveal_strlit("/api/relationships");
    reveal_strlit("/api/restore");
    reveal_strlit("/api/settings");
    reveal_strlit("/api/status");
    reveal_strlit("/api/trust/status");
    reveal_strlit("/chat");
    reveal_strlit("/events");
    reveal_strlit("GET");
    reveal_strlit("POST");
    assert("GET"@.len() == 3);
    assert("POST"@.len() == 4);
    assert("/events"@.len() == 7);
    assert("/"@.len() == 1);
    assert("/api/status"@.len() == 11);
    assert("/api/entities"@.len() == 13);
    assert("/api/relationships"@.len() == 18);
    assert("/api/reflections"@.len() == 16);
    assert("/api/attention"@.len() == 14);
    assert("/api/settings"@.len() == 13);
    assert("/api/permissions"@.len() == 16);
    assert("/api/activity"@.len() == 13);
    assert("/api/explain"@.len() == 12);
    assert("/api/forget"@.len() == 11);
    assert("/api/correct"@.len() == 12);
    assert("/api/merge"@.len() == 10);
    assert("/api/trust/status"@.len() == 17);
    assert("/api/encrypt"@.len() == 12);
    assert("/api/backup"@.len() == 11);
    assert("/api/restore"@.len() == 12);
    assert("/chat"@.len() == 5);
    assert("/api/entities"@[5] == 'e');
    assert("/api/settings"@[5] == 's');
    assert("/api/permissions"@[5] == 'p');
    assert("/api/reflections"@[5] == 'r');
    assert("/api/activity"@[5] == 'a');
    assert("/api/explain"@[5] == 'e');
    assert("/api/restore"@[5] == 'r');
    assert("/api/forget"@[5] == 'f');
    assert("/api/status"@[5] == 's');
    assert("/api/correct"@[5] == 'c');
    assert("/api/encrypt"@[5] == 'e');
    assert("/api/encrypt"@[6] == 'n');
    assert("/api/explain"@[6] == 'x');
    assert("/api/backup"@[5] == 'b');
    assert(route_spec("GET"@, "/events"@) == Route::Events);
    assert(route_spec("GET"@, "/"@) == Route::Index);
    assert(route_spec("GET"@, "/api/status"@) == Route::Status);
    assert(route_spec("GET"@, "/api/entities"@) == Route::Entities);
    assert(route_spec("GET"@, "/api/relationships"@) == Route::Relationships);
    assert(route_spec("GET"@, "/api/reflections"@) == Route::Reflections);
    assert(route_spec("GET"@, "/api/attention"@) == Route::Attention);
    assert(route_spec("GET"@, "/api/settings"@) == Route::GetSettings);
    assert(route_spec("POST"@, "/api/settings"@) == Route::PutSettings);
    assert(route_spec("GET"@, "/api/permissions"@) == Route::GetPermissions);
    assert(route_spec("POST"@, "/api/permissions"@) == Route::TogglePermission);
    assert(route_spec("GET"@, "/api/activity"@) == Route::Activity);
    assert(route_spec("GET"@, "/api/explain"@) == Route::Explain);
    assert(route_spec("POST"@, "/api/forget"@) == Route::Forget);
    assert(route_spec("POST"@, "/api/correct"@) == Route::Correct);
    assert(route_spec("POST"@, "/api/merge"@) == Route::Merge);
    assert(route_spec("GET"@, "/api/trust/status"@) == Route::TrustStatus);
    assert(route_spec("GET"@, "/api/encrypt"@) == Route::ToggleEncrypt);
    assert(route_spec("POST"@, "/api/backup"@) == Route::CreateBackup);
    assert(route_spec("POST"@, "/api/restore"@) == Route::RestoreBackup);
    assert(route_spec("POST"@, "/chat"@) == Route::Chat);
    assert forall|i: int|
        0 <= i < endpoints().len() implies route_spec(endpoints()[i].0, endpoints()[i].1)
        == #[trigger] endpoints()[i].2 by {
    }
    match route_spec(m, p) {
        Route::Events => {
            assert(endpoints()[0].0 == m && endpoints()[0].1 == p);
        },
        Route::Index => {
            assert(endpoints()[1].0 == m && endpoints()[1].1 == p);
        },
        Route::Status => {
            assert(endpoints()[2].0 == m && endpoints()[2].1 == p);
        },
        Route::Entities => {
            assert(endpoints()[3].0 == m && endpoints()[3].1 == p);
        },
        Route::Relationships => {
            assert(endpoints()[4].0 == m && endpoints()[4].1 == p);
        },
        Route::Reflections => {
            assert(endpoints()[5].0 == m && endpoints()[5].1 == p);
        },
        Route::Attention => {
            assert(endpoints()[6].0 == m && endpoints()[6].1 == p);
        },
        Route::GetSettings => {
            assert(endpoints()[7].0 == m && endpoints()[7].1 == p);
        },
        Route::PutSettings => {
            assert(endpoints()[8].0 == m && endpoints()[8].1 == p);
        },
        Route::GetPermissions => {
            assert(endpoints()[9].0 == m && endpoints()[9].1 == p);
        },
        Route::TogglePermission => {
            assert(endpoints()[10].0 == m && endpoints()[10].1 == p);
        },
        Route::Activity => {
            assert(endpoints()[11].0 == m && endpoints()[11].1 == p);
        },
        Route::Explain => {
            assert(endpoints()[12].0 == m && endpoints()[12].1 == p);
        },
        Route::Forget => {
            assert(endpoints()[13].0 == m && endpoints()[13].1 == p);
        },
        Route::Correct => {
            assert(endpoints()[14].0 == m && endpoints()[14].1 == p);
        },
        Route::Merge => {
            assert(endpoints()[15].0 == m && endpoints()[15].1 == p);
        },
        Route::TrustStatus => {
            assert(endpoints()[16].0 == m && endpoints()[16].1 == p);
        },
        Route::ToggleEncrypt => {
            assert(endpoints()[17].0 == m && endpoints()[17].1 == p);
        },
        Route::CreateBackup => {
            assert(endpoints()[18].0 == m && endpoints()[18].1 == p);
        },
        Route::RestoreBackup => {
            assert(endpoints()[19].0 == m && endpoints()[19].1 == p);
        },
        Route::Chat => {
            assert(endpoints()[20].0 == m && endpoints()[20].1 == p);
        },
        Route::NotFound => {},
    }
}

/// Routes a request.
pub fn route(method: &str, path: &str) -> (r: Route)
    ensures
        r == route_spec(method@, path@),
{
    let get = str_eq(method, "GET");
    let post = str_eq(method, "POST");
    if get && str_eq(path, "/events") {
        Route::Events
    } else if get && str_eq(path, "/") {
        Route::Index
    } else if get && str_eq(path, "/api/status") {
        Route::Status
    } else if get && str_eq(path, "/api/entities") {
        Route::Entities
    } else if get && str_eq(path, "/api/relationships") {
        Route::Relationships
    } else if get && str_eq(path, "/api/reflections") {
        Route::Reflections
    } else if get && str_eq(path, "/api/attention") {
        Route::Attention
    } else if get && str_eq(path, "/api/settings") {
        Route::GetSettings
    } else if post && str_eq(path, "/api/settings") {
        Route::PutSettings
    } else if get && str_eq(path, "/api/permissions") {
        Route::GetPermissions
    } else if post && str_eq(path, "/api/permissions") {
        Route::TogglePermission
    } else if get && str_eq(path, "/api/activity") {
        Route::Activity
    } else if get && str_eq(path, "/api/explain") {
        Route::Explain
    } else if post && str_eq(path, "/api/forget") {
        Route::Forget
    } else if post && str_eq(path, "/api/correct") {
        Route::Correct
    } else if post && str_eq(path, "/api/merge") {
        Route::Merge
    } else if get && str_eq(path, "/api/trust/status") {
        Route::TrustStatus
    } else if get && str_eq(path, "/api/encrypt") {
        Route::ToggleEncrypt
    } else if post && str_eq(path, "/api/backup") {
        Route::CreateBackup
    } else if post && str_eq(path, "/api/restore") {
        Route::RestoreBackup
    } else if post && str_eq(path, "/chat") {
        Route::Chat
    } else {
        Route::NotFound
    }
}

/// Why a permission change was refused (all answered with 400).
#[derive(Debug, Clone, Copy, PartialEq, Eq, Structural)]
pub enum ToggleError {
    MissingSource,
    MissingState,
    BadState,
}

/// The message of a refused permission change.
pub fn toggle_error_message(e: ToggleError) -> (s: String)
    ensures
        e == ToggleError::MissingSource ==> s@ == "missing 'source' field"@,
        e == ToggleError::MissingState ==> s@ == "missing 'state' field"@,
        e == ToggleError::BadState ==> s@ == "state must be 'granted', 'denied', or 'not_requested'"@,
{
    match e {
        ToggleError::MissingSource => owned("missing 'source' field"),
        ToggleError::MissingState => owned("missing 'state' field"),
        ToggleError::BadState => owned("state must be 'granted', 'denied', or 'not_requested'"),
    }
}

/// The permission state a request names.
pub open spec fn named_state(s: Seq<char>) -> Option<PermissionState> {
    if s == "granted"@ {
        Some(PermissionState::Granted)
    } else if s == "denied"@ {
        Some(PermissionState::Denied)
    } else if s == "not_requested"@ {
        Some(PermissionState::NotRequested)
    } else {
        None
    }
}

/// Applies a permission change from the UI: the source's category takes
/// the named state. A missing source, a missing state or an unknown state
/// is refused and changes nothing.
pub fn toggle_permission(
    registry: &mut PermissionRegistry,
    source: Option<&str>,
    state: Option<&str>,
) -> (r: Result<(), ToggleError>)
    ensures
        source is None ==> r == Err::<(), ToggleError>(ToggleError::MissingSource),
        source is Some && state is None ==> r == Err::<(), ToggleError>(ToggleError::MissingState),
        (source matches Some(_) && state matches Some(st) && named_state(st@) is None) ==> r == Err::<
            (),
            ToggleError,
        >(ToggleError::BadState),
        (source matches Some(_) && state matches Some(st) && named_state(st@) is Some) ==> r is Ok,
        r.is_err() ==> *final(registry) == *old(registry),
        r.is_ok() ==> (source matches Some(src) && state matches Some(st) && named_state(st@) matches Some(ps)
            && final(registry).names() == old(registry).names() && final(registry).permissions@.len()
            == old(registry).permissions@.len() && forall|i: int|
            0 <= i < old(registry).permissions@.len() ==> (#[trigger] final(registry).permissions@[i]).1.state
                == (if old(registry).permissions@[i].0@ == src@ {
                ps
            } else {
                old(registry).permissions@[i].1.state
            })),
{
    let src = match source {
        Some(s) => s,
        None => return Err(ToggleError::MissingSource),
    };
    let st = match state {
        Some(s) => s,
        None => return Err(ToggleError::MissingState),
    };
    let cat = PermissionRegistry::category_for_source(src);
    let ps = if str_eq(st, "granted") {
        PermissionState::Granted
    } else if str_eq(st, "denied") {
        PermissionState::Denied
    } else if str_eq(st, "not_requested") {
        PermissionState::NotRequested
    } else {
        return Err(ToggleError::BadState);
    };
    registry.set(cat, ps);
    Ok(())
}

} // verus!

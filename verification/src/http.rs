//! The text side of the shim's minimal HTTP/1.0 client: splitting a URL into the
//! address to connect to and the path to request, framing requests, and taking the
//! body out of a response.
use vstd::prelude::*;
use vstd::string::*;

use crate::text::str_chars;

verus! {

broadcast use vstd::string::group_string_axioms;

/// The scheme prefix that every URL the shim talks to starts with.
pub open spec fn http_scheme() -> Seq<char> {
    seq!['h', 't', 't', 'p', ':', '/', '/']
}

/// Whether `url` starts with `http://`.
pub open spec fn has_http_scheme(url: Seq<char>) -> bool {
    url.len() >= 7 && url.take(7) == http_scheme()
}

/// `host` and `path` split `rest` at its first `/`: `host` holds no `/`, and `path` is
/// the rest from that `/` on; where `rest` holds no `/`, `host` is all of it and the
/// path is `/`.
pub open spec fn splits_at_first_slash(rest: Seq<char>, host: Seq<char>, path: Seq<char>) -> bool {
    &&& !host.contains('/')
    &&& if rest.contains('/') {
        &&& host + path == rest
        &&& path.len() > 0
        &&& path[0] == '/'
    } else {
        &&& host == rest
        &&& path == seq!['/']
    }
}

/// What `parse_http_url` gives for `url`: `None` unless it starts with `http://`, else
/// the address (`host:port`) and the path of the request.
pub open spec fn parses_http_url(url: Seq<char>, r: Option<(Seq<char>, Seq<char>)>) -> bool {
    match r {
        None => !has_http_scheme(url),
        Some((host, path)) => has_http_scheme(url) && splits_at_first_slash(url.skip(7), host, path),
    }
}

/// Splits `http://host:port/path` into `host:port` and `/path`; the path is `/` where the
/// URL has none. Any other scheme gives `None`.
pub fn parse_http_url(url: &str) -> (r: Option<(String, String)>)
    ensures
        parses_http_url(
            url@,
            match r {
                Some((h, p)) => Some((h@, p@)),
                None => None,
            },
        ),
{
    let chars = str_chars(url);
    let n = chars.len();
    if n < 7 || chars[0] != 'h' || chars[1] != 't' || chars[2] != 't' || chars[3] != 'p'
        || chars[4] != ':' || chars[5] != '/' || chars[6] != '/' {
        proof {
            if has_http_scheme(url@) {
                assert(url@.take(7)[0] == 'h');
                assert(url@.take(7)[1] == 't');
                assert(url@.take(7)[2] == 't');
                assert(url@.take(7)[3] == 'p');
                assert(url@.take(7)[4] == ':');
                assert(url@.take(7)[5] == '/');
                assert(url@.take(7)[6] == '/');
            }
        }
        return None;
    }
    assert(url@.take(7) =~= http_scheme());
    let ghost rest = url@.skip(7);
    let mut i: usize = 7;
    while i < n && chars[i] != '/'
        invariant
            7 <= i <= n,
            n == chars@.len(),
            chars@ == url@,
            rest == url@.skip(7),
            forall|k: int| 7 <= k < i ==> chars@[k] != '/',
        decreases n - i,
    {
        i = i + 1;
    }
    let host = url.substring_char(7, i).to_owned();
    assert(host@ =~= rest.take(i - 7));
    if i < n {
        let path = url.substring_char(i, n).to_owned();
        assert(path@ =~= rest.skip(i - 7));
        assert(host@ + path@ =~= rest);
        assert(rest[i - 7] == '/');
        assert(rest.contains('/'));
        assert(!host@.contains('/')) by {
            if host@.contains('/') {
                let k = choose|k: int| 0 <= k < host@.len() && host@[k] == '/';
                assert(chars@[k + 7] == '/');
            }
        }
        Some((host, path))
    } else {
        let path = String::from_str("/");
        proof {
            reveal_strlit("/");
        }
        assert(path@ =~= seq!['/']);
        assert(host@ =~= rest);
        assert(!rest.contains('/')) by {
            if rest.contains('/') {
                let k = choose|k: int| 0 <= k < rest.len() && rest[k] == '/';
                assert(chars@[k + 7] == '/');
            }
        }
        Some((host, path))
    }
}


/// The ten decimal digits, in order of value.
pub open spec fn decimal_digits() -> Seq<char> {
    seq!['0', '1', '2', '3', '4', '5', '6', '7', '8', '9']
}

/// The decimal numeral of `n`, most significant digit first, without leading zeros.
pub open spec fn decimal(n: nat) -> Seq<char>
    decreases n,
{
    if n < 10 {
        seq![decimal_digits()[n as int]]
    } else {
        decimal(n / 10).push(decimal_digits()[(n % 10) as int])
    }
}

/// The number that the decimal numeral `s` stands for.
pub open spec fn decimal_value(s: Seq<char>) -> nat
    decreases s.len(),
{
    if s.len() == 0 {
        0
    } else {
        decimal_value(s.drop_last()) * 10 + (s.last() as nat - '0' as nat) as nat
    }
}

/// Whether `c` is one of the ten decimal digits.
pub open spec fn is_decimal_digit(c: char) -> bool {
    '0' <= c <= '9'
}

/// The digit of value `d` stands for `d`.
proof fn lemma_digit(d: nat)
    requires
        d < 10,
    ensures
        decimal_digits()[d as int] as nat - '0' as nat == d,
        is_decimal_digit(decimal_digits()[d as int]),
        d != 0 ==> decimal_digits()[d as int] != '0',
{
    if d == 0 { assert(decimal_digits()[0] == '0'); }
    else if d == 1 { assert(decimal_digits()[1] == '1'); }
    else if d == 2 { assert(decimal_digits()[2] == '2'); }
    else if d == 3 { assert(decimal_digits()[3] == '3'); }
    else if d == 4 { assert(decimal_digits()[4] == '4'); }
    else if d == 5 { assert(decimal_digits()[5] == '5'); }
    else if d == 6 { assert(decimal_digits()[6] == '6'); }
    else if d == 7 { assert(decimal_digits()[7] == '7'); }
    else if d == 8 { assert(decimal_digits()[8] == '8'); }
    else { assert(decimal_digits()[9] == '9'); }
}

/// The numeral of `n` reads back as `n`, holds digits only, and has no leading zero.
pub proof fn law_decimal_round_trip(n: nat)
    ensures
        decimal_value(decimal(n)) == n,
        decimal(n).len() > 0,
        forall|k: int| 0 <= k < decimal(n).len() ==> is_decimal_digit(#[trigger] decimal(n)[k]),
        decimal(n).len() > 1 ==> decimal(n)[0] != '0',
        decimal(n).len() == 1 <==> n < 10,
    decreases n,
{
    if n >= 10 {
        law_decimal_round_trip(n / 10);
        lemma_digit(n % 10);
        let d = decimal(n);
        assert(d.drop_last() =~= decimal(n / 10));
        assert(decimal(n / 10)[0] == d[0]);
        assert(n == (n / 10) * 10 + n % 10);
        assert(d.last() == decimal_digits()[(n % 10) as int]);
        assert(decimal_value(d) == decimal_value(d.drop_last()) * 10 + (d.last() as nat - '0' as nat) as nat);
        assert(decimal_value(d) == n);
        if n / 10 < 10 {
            lemma_digit(n / 10);
            assert(decimal(n / 10) == seq![decimal_digits()[(n / 10) as int]]);
        }
        assert forall|k: int| 0 <= k < d.len() implies is_decimal_digit(#[trigger] d[k]) by {
            if k < d.len() - 1 {
                assert(d[k] == decimal(n / 10)[k]);
            }
        }
    } else {
        lemma_digit(n);
        let d = decimal(n);
        assert(d == seq![decimal_digits()[n as int]]);
        assert(d.len() == 1);
        assert(d.drop_last() =~= Seq::<char>::empty());
        assert(decimal_value(d.drop_last()) == 0);
        assert(d.last() == decimal_digits()[n as int]);
        assert(decimal_value(d) == n);
    }
}

/// The one-character string of the digit `d`.
fn digit_str(d: usize) -> (s: &'static str)
    requires
        d < 10,
    ensures
        s@ == seq![decimal_digits()[d as int]],
{
    proof {
        reveal_strlit("0");
        reveal_strlit("1");
        reveal_strlit("2");
        reveal_strlit("3");
        reveal_strlit("4");
        reveal_strlit("5");
        reveal_strlit("6");
        reveal_strlit("7");
        reveal_strlit("8");
        reveal_strlit("9");
    }
    let s = match d {
        0 => "0",
        1 => "1",
        2 => "2",
        3 => "3",
        4 => "4",
        5 => "5",
        6 => "6",
        7 => "7",
        8 => "8",
        _ => "9",
    };
    assert(s@ =~= seq![decimal_digits()[d as int]]);
    s
}

/// Appends the decimal numeral of `n` to `out`.
pub fn append_decimal(out: &mut String, n: usize)
    ensures
        final(out)@ == old(out)@ + decimal(n as nat),
    decreases n,
{
    if n >= 10 {
        append_decimal(out, n / 10);
    }
    out.append(digit_str(n % 10));
    proof {
        if n >= 10 {
            assert(old(out)@ + decimal(n as nat) =~= old(out)@ + decimal((n / 10) as nat) + seq![
                decimal_digits()[(n % 10) as int],
            ]);
        } else {
            assert(old(out)@ + decimal(n as nat) =~= old(out)@ + seq![decimal_digits()[n as int]]);
        }
    }
}

/// The text of a GET request for `path` on `host`, which asks the server to close the
/// connection after its answer.
pub open spec fn spec_get_request(host: Seq<char>, path: Seq<char>) -> Seq<char> {
    "GET "@ + path + " HTTP/1.0\r\nHost: "@ + host + "\r\nConnection: close\r\n\r\n"@
}

/// The text of a POST request that sends the JSON document `body` to `path` on `host`;
/// `body_len` is the length of the body in bytes.
pub open spec fn spec_post_request(
    host: Seq<char>,
    path: Seq<char>,
    body_len: nat,
    body: Seq<char>,
) -> Seq<char> {
    "POST "@ + path + " HTTP/1.0\r\nHost: "@ + host
        + "\r\nContent-Type: application/json\r\nContent-Length: "@ + decimal(body_len)
        + "\r\nConnection: close\r\n\r\n"@ + body
}

/// The GET request for `path` on `host_port`.
pub fn http_get_request(host_port: &str, path: &str) -> (r: String)
    ensures
        r@ == spec_get_request(host_port@, path@),
{
    let mut r = String::from_str("GET ");
    r.append(path);
    r.append(" HTTP/1.0\r\nHost: ");
    r.append(host_port);
    r.append("\r\nConnection: close\r\n\r\n");
    r
}

/// The POST request that sends `body` as JSON to `path` on `host_port`; its
/// `Content-Length` is the byte length of `body`.
pub fn http_post_request(host_port: &str, path: &str, body: &str) -> (r: String)
    ensures
        r@ == spec_post_request(host_port@, path@, body.len() as nat, body@),
{
    let mut r = String::from_str("POST ");
    r.append(path);
    r.append(" HTTP/1.0\r\nHost: ");
    r.append(host_port);
    r.append("\r\nContent-Type: application/json\r\nContent-Length: ");
    append_decimal(&mut r, body.len());
    r.append("\r\nConnection: close\r\n\r\n");
    r.append(body);
    r
}

/// What a GET of `url` sends: `None` where the URL does not parse, else the address to
/// connect to and the request text.
pub fn http_get_plan(url: &str) -> (r: Option<(String, String)>)
    ensures
        match r {
            None => !has_http_scheme(url@),
            Some((addr, req)) => exists|path: Seq<char>|
                parses_http_url(url@, Some((addr@, path))) && req@ == spec_get_request(
                    addr@,
                    path,
                ),
        },
{
    match parse_http_url(url) {
        None => {
            assert(parses_http_url(url@, None));
            None
        },
        Some((host_port, path)) => {
            let req = http_get_request(host_port.as_str(), path.as_str());
            assert(parses_http_url(url@, Some((host_port@, path@))));
            let r = Some((host_port, req));
            assert(r matches Some((a, _)) && a@ == host_port@);
            r
        },
    }
}

/// What a POST of `body` to `url` sends: `None` where the URL does not parse, else the
/// address to connect to and the request text.
pub fn http_post_plan(url: &str, body: &str) -> (r: Option<(String, String)>)
    ensures
        match r {
            None => !has_http_scheme(url@),
            Some((addr, req)) => exists|path: Seq<char>|
                parses_http_url(url@, Some((addr@, path))) && req@ == spec_post_request(
                    addr@,
                    path,
                    body.len() as nat,
                    body@,
                ),
        },
{
    match parse_http_url(url) {
        None => {
            assert(parses_http_url(url@, None));
            None
        },
        Some((host_port, path)) => {
            let req = http_post_request(host_port.as_str(), path.as_str(), body);
            assert(parses_http_url(url@, Some((host_port@, path@))));
            let r = Some((host_port, req));
            assert(r matches Some((a, _)) && a@ == host_port@);
            r
        },
    }
}

/// The parts of a URL put back together give the URL: `http://`, then the address,
/// then the path (where the URL has one; the path is `/` where it has none).
pub proof fn law_url_parts_rebuild_url(url: Seq<char>, host: Seq<char>, path: Seq<char>)
    requires
        parses_http_url(url, Some((host, path))),
    ensures
        url.skip(7).contains('/') ==> http_scheme() + host + path == url,
        !url.skip(7).contains('/') ==> http_scheme() + host == url && path == seq!['/'],
        !host.contains('/'),
{
    assert(url =~= url.take(7) + url.skip(7));
}

/// The blank line that ends the header of an HTTP message.
pub open spec fn header_end() -> Seq<char> {
    seq!['\r', '\n', '\r', '\n']
}

/// Whether a blank line (`\r\n\r\n`) starts at position `i` of `s`.
pub open spec fn header_end_at(s: Seq<char>, i: int) -> bool {
    0 <= i && i + 4 <= s.len() && s.subrange(i, i + 4) == header_end()
}

/// What `response_body` gives for `response`: `None` where it holds no blank line, else
/// everything after the first one.
pub open spec fn is_response_body(response: Seq<char>, r: Option<Seq<char>>) -> bool {
    match r {
        None => forall|i: int| !header_end_at(response, i),
        Some(body) => exists|i: int|
            header_end_at(response, i) && (forall|j: int| 0 <= j < i ==> !header_end_at(response, j))
                && body == response.skip(i + 4),
    }
}

/// The body of an HTTP response: what follows the first blank line, or `None` where the
/// response has none.
pub fn response_body(response: &str) -> (r: Option<String>)
    ensures
        is_response_body(
            response@,
            match r {
                Some(b) => Some(b@),
                None => None,
            },
        ),
{
    let chars = str_chars(response);
    let n = chars.len();
    let mut i: usize = 0;
    while 4 <= n && i <= n - 4
        invariant
            n == chars@.len(),
            chars@ == response@,
            forall|j: int| 0 <= j < i ==> !header_end_at(response@, j),
        decreases n - i,
    {
        if chars[i] == '\r' && chars[i + 1] == '\n' && chars[i + 2] == '\r' && chars[i + 3] == '\n' {
            assert(response@.subrange(i as int, i + 4) =~= header_end());
            let body = response.substring_char(i + 4, n).to_owned();
            assert(body@ =~= response@.skip(i + 4));
            assert(header_end_at(response@, i as int));
            return Some(body);
        }
        assert(!header_end_at(response@, i as int)) by {
            if header_end_at(response@, i as int) {
                assert(response@.subrange(i as int, i + 4)[0] == '\r');
                assert(response@.subrange(i as int, i + 4)[1] == '\n');
                assert(response@.subrange(i as int, i + 4)[2] == '\r');
                assert(response@.subrange(i as int, i + 4)[3] == '\n');
            }
        }
        i = i + 1;
    }
    None
}


/// Every carriage return in `s` has two more characters after it, the second of which is
/// no carriage return: no blank line can start anywhere in `s`.
pub open spec fn returns_are_isolated(s: Seq<char>) -> bool {
    forall|j: int|
        0 <= j < s.len() && #[trigger] s[j] == '\r' ==> j + 2 < s.len() && s[j + 2] != '\r'
}

/// Isolated carriage returns stay isolated when two texts are joined.
proof fn lemma_isolated_concat(a: Seq<char>, b: Seq<char>)
    requires
        returns_are_isolated(a),
        returns_are_isolated(b),
    ensures
        returns_are_isolated(a + b),
{
    assert forall|j: int| 0 <= j < (a + b).len() && #[trigger] (a + b)[j] == '\r' implies j + 2 < (a
        + b).len() && (a + b)[j + 2] != '\r' by {
        if j < a.len() {
            assert(a[j] == '\r');
        } else {
            assert(b[j - a.len()] == '\r');
        }
    }
}

/// A text without carriage returns has none to isolate.
proof fn lemma_isolated_without_returns(s: Seq<char>)
    requires
        !s.contains('\r'),
    ensures
        returns_are_isolated(s),
{
    assert forall|j: int| 0 <= j < s.len() && #[trigger] s[j] == '\r' implies false by {
        assert(s.contains('\r'));
    }
}

/// A message made of a header in which no blank line starts, the blank line, and a body
/// has that body as its body.
pub proof fn lemma_body_after_header(head: Seq<char>, body: Seq<char>)
    requires
        returns_are_isolated(head),
    ensures
        is_response_body(head + header_end() + body, Some(body)),
{
    let s = head + header_end() + body;
    let i = head.len() as int;
    assert(s.subrange(i, i + 4) =~= header_end());
    assert(s.skip(i + 4) =~= body);
    assert forall|j: int| 0 <= j < i implies !header_end_at(s, j) by {
        if header_end_at(s, j) {
            assert(s.subrange(j, j + 4)[0] == '\r');
            assert(s[j] == head[j]);
            assert(head[j] == '\r');
            assert(s.subrange(j, j + 4)[2] == '\r');
            assert(s[j + 2] == head[j + 2]);
        }
    }
    assert(header_end_at(s, i));
}

/// The fixed pieces of the request texts hold only isolated carriage returns, and the
/// last one ends with the blank line.
proof fn lemma_request_literals()
    ensures
        returns_are_isolated("GET "@),
        returns_are_isolated("POST "@),
        returns_are_isolated(" HTTP/1.0\r\nHost: "@),
        returns_are_isolated("\r\nContent-Type: application/json\r\nContent-Length: "@),
        returns_are_isolated("\r\nConnection: close"@),
        "\r\nConnection: close\r\n\r\n"@ == "\r\nConnection: close"@ + header_end(),
{
    reveal_strlit("GET ");
    reveal_strlit("POST ");
    reveal_strlit(" HTTP/1.0\r\nHost: ");
    reveal_strlit("\r\nContent-Type: application/json\r\nContent-Length: ");
    reveal_strlit("\r\nConnection: close");
    reveal_strlit("\r\nConnection: close\r\n\r\n");
    assert("\r\nConnection: close\r\n\r\n"@ =~= "\r\nConnection: close"@ + header_end());
}

/// A request carries its body so that the first blank line sets it apart: where neither
/// the address nor the path holds a carriage return, the body of the POST request text
/// is the JSON document sent, and the body of the GET request text is empty.
pub proof fn law_request_frames_body(host: Seq<char>, path: Seq<char>, body_len: nat, body: Seq<char>)
    requires
        !host.contains('\r'),
        !path.contains('\r'),
    ensures
        is_response_body(spec_post_request(host, path, body_len, body), Some(body)),
        is_response_body(spec_get_request(host, path), Some(Seq::<char>::empty())),
{
    lemma_request_literals();
    lemma_isolated_without_returns(host);
    lemma_isolated_without_returns(path);
    law_decimal_round_trip(body_len);
    let d = decimal(body_len);
    assert(!d.contains('\r')) by {
        if d.contains('\r') {
            let k = choose|k: int| 0 <= k < d.len() && d[k] == '\r';
            assert(is_decimal_digit(d[k]));
        }
    }
    lemma_isolated_without_returns(d);
    let post_head = "POST "@ + path + " HTTP/1.0\r\nHost: "@ + host
        + "\r\nContent-Type: application/json\r\nContent-Length: "@ + d + "\r\nConnection: close"@;
    lemma_isolated_concat("POST "@, path);
    lemma_isolated_concat("POST "@ + path, " HTTP/1.0\r\nHost: "@);
    lemma_isolated_concat("POST "@ + path + " HTTP/1.0\r\nHost: "@, host);
    lemma_isolated_concat(
        "POST "@ + path + " HTTP/1.0\r\nHost: "@ + host,
        "\r\nContent-Type: application/json\r\nContent-Length: "@,
    );
    lemma_isolated_concat(
        "POST "@ + path + " HTTP/1.0\r\nHost: "@ + host
            + "\r\nContent-Type: application/json\r\nContent-Length: "@,
        d,
    );
    lemma_isolated_concat(
        "POST "@ + path + " HTTP/1.0\r\nHost: "@ + host
            + "\r\nContent-Type: application/json\r\nContent-Length: "@ + d,
        "\r\nConnection: close"@,
    );
    lemma_body_after_header(post_head, body);
    assert(spec_post_request(host, path, body_len, body) =~= post_head + header_end() + body);
    let get_head = "GET "@ + path + " HTTP/1.0\r\nHost: "@ + host + "\r\nConnection: close"@;
    lemma_isolated_concat("GET "@, path);
    lemma_isolated_concat("GET "@ + path, " HTTP/1.0\r\nHost: "@);
    lemma_isolated_concat("GET "@ + path + " HTTP/1.0\r\nHost: "@, host);
    lemma_isolated_concat("GET "@ + path + " HTTP/1.0\r\nHost: "@ + host, "\r\nConnection: close"@);
    lemma_body_after_header(get_head, Seq::<char>::empty());
    assert(spec_get_request(host, path) =~= get_head + header_end() + Seq::<char>::empty());
}


/// The request line names the method, the path and HTTP/1.0; the headers name the host,
/// ask to close the connection and, for a POST, declare JSON and the body's length in
/// decimal; a blank line ends the header and the body follows.
pub proof fn law_request_texts(host: Seq<char>, path: Seq<char>, body_len: nat, body: Seq<char>)
    ensures
        spec_get_request(host, path) == seq!['G', 'E', 'T', ' '] + path + seq![
            ' ', 'H', 'T', 'T', 'P', '/', '1', '.', '0', '\r', '\n', 'H', 'o', 's', 't', ':', ' ',
        ] + host + seq![
            '\r', '\n', 'C', 'o', 'n', 'n', 'e', 'c', 't', 'i', 'o', 'n', ':', ' ', 'c', 'l', 'o',
            's', 'e', '\r', '\n', '\r', '\n',
        ],
        spec_post_request(host, path, body_len, body) == seq!['P', 'O', 'S', 'T', ' '] + path
            + seq![
            ' ', 'H', 'T', 'T', 'P', '/', '1', '.', '0', '\r', '\n', 'H', 'o', 's', 't', ':', ' ',
        ] + host + seq![
            '\r', '\n', 'C', 'o', 'n', 't', 'e', 'n', 't', '-', 'T', 'y', 'p', 'e', ':', ' ', 'a',
            'p', 'p', 'l', 'i', 'c', 'a', 't', 'i', 'o', 'n', '/', 'j', 's', 'o', 'n', '\r', '\n',
            'C', 'o', 'n', 't', 'e', 'n', 't', '-', 'L', 'e', 'n', 'g', 't', 'h', ':', ' ',
        ] + decimal(body_len) + seq![
            '\r', '\n', 'C', 'o', 'n', 'n', 'e', 'c', 't', 'i', 'o', 'n', ':', ' ', 'c', 'l', 'o',
            's', 'e', '\r', '\n', '\r', '\n',
        ] + body,
{
    reveal_strlit("GET ");
    reveal_strlit("POST ");
    reveal_strlit(" HTTP/1.0\r\nHost: ");
    reveal_strlit("\r\nContent-Type: application/json\r\nContent-Length: ");
    reveal_strlit("\r\nConnection: close\r\n\r\n");
    assert(spec_get_request(host, path) =~= seq!['G', 'E', 'T', ' '] + path + seq![
        ' ', 'H', 'T', 'T', 'P', '/', '1', '.', '0', '\r', '\n', 'H', 'o', 's', 't', ':', ' ',
    ] + host + seq![
        '\r', '\n', 'C', 'o', 'n', 'n', 'e', 'c', 't', 'i', 'o', 'n', ':', ' ', 'c', 'l', 'o',
        's', 'e', '\r', '\n', '\r', '\n',
    ]);
    assert(spec_post_request(host, path, body_len, body) =~= seq!['P', 'O', 'S', 'T', ' '] + path
        + seq![
        ' ', 'H', 'T', 'T', 'P', '/', '1', '.', '0', '\r', '\n', 'H', 'o', 's', 't', ':', ' ',
    ] + host + seq![
        '\r', '\n', 'C', 'o', 'n', 't', 'e', 'n', 't', '-', 'T', 'y', 'p', 'e', ':', ' ', 'a',
        'p', 'p', 'l', 'i', 'c', 'a', 't', 'i', 'o', 'n', '/', 'j', 's', 'o', 'n', '\r', '\n',
        'C', 'o', 'n', 't', 'e', 'n', 't', '-', 'L', 'e', 'n', 'g', 't', 'h', ':', ' ',
    ] + decimal(body_len) + seq![
        '\r', '\n', 'C', 'o', 'n', 'n', 'e', 'c', 't', 'i', 'o', 'n', ':', ' ', 'c', 'l', 'o',
        's', 'e', '\r', '\n', '\r', '\n',
    ] + body);
}

} // verus!

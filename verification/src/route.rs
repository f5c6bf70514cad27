use vstd::prelude::*;
use vstd::string::StringExecFns;

verus! {

/// What urlencoding::encode returns for a given string: a function of
/// the characters alone.
pub uninterp spec fn url_encoded(s: Seq<char>) -> Seq<char>;

/// Relies on urlencoding::encode: percent-encodes every byte outside
/// `A-Z a-z 0-9 - _ . ~`. The result depends on the input alone.
#[verifier::external_body]
fn percent_encode(s: &str) -> (r: String)
    ensures
        r@ == url_encoded(s@),
{
    urlencoding::encode(s).into_owned()
}

/// The decimal digit characters, from `0` to `9`.
pub open spec fn dec_digit(d: nat) -> char {
    if d == 0 {
        '0'
    } else if d == 1 {
        '1'
    } else if d == 2 {
        '2'
    } else if d == 3 {
        '3'
    } else if d == 4 {
        '4'
    } else if d == 5 {
        '5'
    } else if d == 6 {
        '6'
    } else if d == 7 {
        '7'
    } else if d == 8 {
        '8'
    } else {
        '9'
    }
}

/// The decimal rendering of a natural number, without sign or padding.
pub open spec fn udec(n: nat) -> Seq<char>
    decreases n,
{
    if n < 10 {
        seq![dec_digit(n)]
    } else {
        udec(n / 10) + seq![dec_digit(n % 10)]
    }
}

/// The decimal rendering of an integer: a leading minus sign for a
/// negative value, then the digits of its magnitude.
pub open spec fn idec(i: int) -> Seq<char> {
    if i < 0 {
        seq!['-'] + udec((-i) as nat)
    } else {
        udec(i as nat)
    }
}

/// The one-character string of a single decimal digit.
fn digit_str(d: u64) -> (r: &'static str)
    requires
        d < 10,
    ensures
        r@ == seq![dec_digit(d as nat)],
{
    proof {
        reveal_strlit("0");
        reveal_strlit("1");
        reveal_strlit("2");
        reveal_strlit("3");
        reveal_strlit("4");
        reveal_strlit("5");
        reveal_strlit("6");
        reveal_strlit("7");
        reveal_strlit("8");
        reveal_strlit("9");
        assert("0"@ =~= seq![dec_digit(0)]);
        assert("1"@ =~= seq![dec_digit(1)]);
        assert("2"@ =~= seq![dec_digit(2)]);
        assert("3"@ =~= seq![dec_digit(3)]);
        assert("4"@ =~= seq![dec_digit(4)]);
        assert("5"@ =~= seq![dec_digit(5)]);
        assert("6"@ =~= seq![dec_digit(6)]);
        assert("7"@ =~= seq![dec_digit(7)]);
        assert("8"@ =~= seq![dec_digit(8)]);
        assert("9"@ =~= seq![dec_digit(9)]);
    }
    if d == 0 {
        "0"
    } else if d == 1 {
        "1"
    } else if d == 2 {
        "2"
    } else if d == 3 {
        "3"
    } else if d == 4 {
        "4"
    } else if d == 5 {
        "5"
    } else if d == 6 {
        "6"
    } else if d == 7 {
        "7"
    } else if d == 8 {
        "8"
    } else {
        "9"
    }
}

/// Appends the decimal rendering of `n` to `out`.
pub fn append_u64_decimal(out: &mut String, n: u64)
    ensures
        final(out)@ == old(out)@ + udec(n as nat),
    decreases n,
{
    if n >= 10 {
        append_u64_decimal(out, n / 10);
    }
    let d = digit_str(n % 10);
    out.append(d);
    proof {
        if n >= 10 {
            assert(old(out)@ + udec((n / 10) as nat) + seq![dec_digit((n % 10) as nat)] =~= old(
                out,
            )@ + udec(n as nat));
        }
    }
}

/// Appends the decimal rendering of `i` to `out`, with a minus sign for
/// a negative value.
pub fn append_i64_decimal(out: &mut String, i: i64)
    ensures
        final(out)@ == old(out)@ + idec(i as int),
{
    if i < 0 {
        proof {
            reveal_strlit("-");
        }
        out.append("-");
        let mag: u64 = if i == i64::MIN {
            9223372036854775808u64
        } else {
            (-i) as u64
        };
        append_u64_decimal(out, mag);
        proof {
            assert("-"@ =~= seq!['-']);
            assert(old(out)@ + "-"@ + udec(mag as nat) =~= old(out)@ + idec(i as int));
        }
    } else {
        append_u64_decimal(out, i as u64);
    }
}

/// The decimal rendering of `n` as a fresh string.
pub fn u64_to_decimal(n: u64) -> (r: String)
    ensures
        r@ == udec(n as nat),
{
    let mut s = String::new();
    append_u64_decimal(&mut s, n);
    s
}

/// The `t` query parameter: present exactly when a positive resume
/// position was supplied, holding its whole seconds.
pub open spec fn t_part(t: Option<u64>) -> Seq<char> {
    match t {
        None => Seq::<char>::empty(),
        Some(v) => "&t="@ + udec(v as nat),
    }
}

/// The `serverId` query parameter, percent-encoded, when supplied.
pub open spec fn server_id_part(s: Option<Seq<char>>) -> Seq<char> {
    match s {
        None => Seq::<char>::empty(),
        Some(x) => "&serverId="@ + url_encoded(x),
    }
}

/// The `contentType` query parameter, percent-encoded, when supplied.
pub open spec fn content_type_part(s: Option<Seq<char>>) -> Seq<char> {
    match s {
        None => Seq::<char>::empty(),
        Some(x) => "&contentType="@ + url_encoded(x),
    }
}

/// The `contentId` query parameter, in decimal, when supplied.
pub open spec fn content_id_part(c: Option<i64>) -> Seq<char> {
    match c {
        None => Seq::<char>::empty(),
        Some(v) => "&contentId="@ + idec(v as int),
    }
}

/// The front-end route of the secondary playback window: the
/// percent-encoded content URL, then each optional parameter in its
/// fixed place — resume position, server id, content type, content id —
/// each exactly once and only when supplied.
pub open spec fn video_route_spec(
    url: Seq<char>,
    t: Option<u64>,
    server_id: Option<Seq<char>>,
    content_type: Option<Seq<char>>,
    content_id: Option<i64>,
) -> Seq<char> {
    "video-window?url="@ + url_encoded(url) + t_part(t) + server_id_part(server_id)
        + content_type_part(content_type) + content_id_part(content_id)
}

/// Builds the route the secondary window loads. `start_position` holds
/// the whole seconds of the resume position and is passed only when that
/// position is positive; a zero or negative position is passed as `None`
/// and the `t` parameter is then omitted.
pub fn video_route(
    stream_url: &str,
    start_position: Option<u64>,
    server_id: Option<&str>,
    content_type: Option<&str>,
    content_id: Option<i64>,
) -> (r: String)
    ensures
        r@ == video_route_spec(
            stream_url@,
            start_position,
            server_id.deep_view(),
            content_type.deep_view(),
            content_id,
        ),
{
    let mut r = String::from_str("video-window?url=");
    let encoded_url = percent_encode(stream_url);
    r.append(encoded_url.as_str());
    if let Some(t) = start_position {
        r.append("&t=");
        append_u64_decimal(&mut r, t);
    }
    if let Some(s) = server_id {
        r.append("&serverId=");
        let encoded = percent_encode(s);
        r.append(encoded.as_str());
    }
    if let Some(s) = content_type {
        r.append("&contentType=");
        let encoded = percent_encode(s);
        r.append(encoded.as_str());
    }
    if let Some(c) = content_id {
        r.append("&contentId=");
        append_i64_decimal(&mut r, c);
    }
    proof {
        assert(r@ =~= video_route_spec(
            stream_url@,
            start_position,
            server_id.deep_view(),
            content_type.deep_view(),
            content_id,
        ));
    }
    r
}

/// The label of a secondary window derived from a millisecond clock
/// reading: a fixed prefix, then the reading in decimal.
pub open spec fn window_label_spec(millis: u64) -> Seq<char> {
    "video-"@ + udec(millis as nat)
}

/// Builds the window label for the given millisecond clock reading.
pub fn window_label(millis: u64) -> (r: String)
    ensures
        r@ == window_label_spec(millis),
{
    let mut s = String::from_str("video-");
    append_u64_decimal(&mut s, millis);
    s
}

/// Relies on std::time::SystemTime::now: the milliseconds between the
/// Unix epoch and the moment of the call. The value depends on the
/// clock, so nothing is promised of it.
#[verifier::external_body]
fn now_unix_millis() -> (r: u64) {
    let since_epoch = std::time::SystemTime::now().duration_since(
        std::time::UNIX_EPOCH,
    ).unwrap_or_default();
    since_epoch.as_millis() as u64
}

/// A label for a freshly opened window, derived from the current
/// millisecond clock reading. Distinctness rests on that granularity
/// alone: two calls within the same millisecond yield the same label,
/// and the window framework then rejects the second window rather than
/// opening a twin — an accepted risk of this scheme.
pub fn fresh_window_label() -> (r: String)
    ensures
        exists|millis: u64| r@ == window_label_spec(millis),
{
    let now: u64 = now_unix_millis();
    let label = window_label(now);
    proof {
        assert(label@ == window_label_spec(now));
    }
    label
}

} // verus!

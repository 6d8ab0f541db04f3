//! Building requests to the chat server and deciding what their responses
//! mean for the caller.

use vstd::prelude::*;
use crate::text::{join, int_decimal, i32_to_string};

verus! {

/// The server that requests go to when the build names none.
pub open spec fn default_server_url() -> Seq<char> {
    "http://localhost:8000"@
}

/// The base URL of the chat server: the one configured at build time, else
/// the local default.
pub fn api_url(configured: Option<&str>) -> (url: String)
    ensures
        url@ == match configured {
            Some(c) => c@,
            None => default_server_url(),
        },
{
    match configured {
        Some(c) => String::from_str(c),
        None => String::from_str("http://localhost:8000"),
    }
}

/// The URL of an endpoint: the base, a slash, then the extension.
pub open spec fn endpoint_spec(base: Seq<char>, extension: Seq<char>) -> Seq<char> {
    base + seq!['/'] + extension
}

/// The URL of an endpoint below the server's base URL.
pub fn endpoint_url(base: &str, extension: &str) -> (url: String)
    ensures
        url@ == endpoint_spec(base@, extension@),
{
    let mut url = String::from_str(base);
    url.append("/");
    url.append(extension);
    proof {
        reveal_strlit("/");
    }
    url
}

/// A byte that percent-encoding leaves as it is: an ASCII letter or digit,
/// or one of `-`, `.`, `_`, `~`.
pub open spec fn is_unreserved(b: u8) -> bool {
    (0x30 <= b <= 0x39) || (0x41 <= b <= 0x5a) || (0x61 <= b <= 0x7a) || b == 0x2d || b == 0x2e
        || b == 0x5f || b == 0x7e
}

/// An upper-case hexadecimal digit.
pub open spec fn hex_upper(d: u8) -> char
    recommends
        d < 16,
{
    if d < 10 {
        (0x30 + d) as char
    } else {
        (0x41 + d - 10) as char
    }
}

/// The encoding of one byte: itself when unreserved, else `%` and two
/// upper-case hexadecimal digits.
pub open spec fn encode_byte(b: u8) -> Seq<char> {
    if is_unreserved(b) {
        seq![b as char]
    } else {
        seq!['%', hex_upper(b / 16), hex_upper(b % 16)]
    }
}

/// Percent-encoding of a byte sequence, byte by byte.
pub open spec fn encode_bytes(bytes: Seq<u8>) -> Seq<char>
    decreases bytes.len(),
{
    if bytes.len() == 0 {
        Seq::empty()
    } else {
        encode_bytes(bytes.drop_last()) + encode_byte(bytes.last())
    }
}

/// Percent-encoding of a string, over its UTF-8 bytes.
pub open spec fn url_encoded(s: Seq<char>) -> Seq<char> {
    encode_bytes(vstd::utf8::encode_utf8(s))
}

/// Percent-encodes a string with `urlencoding::encode`. Its documentation and
/// source: every byte of the UTF-8 form is kept when it is an ASCII
/// alphanumeric or one of `-`, `_`, `.`, `~`, and written as `%` and two
/// upper-case hexadecimal digits otherwise.
#[verifier::external_body]
fn url_encode(value: &str) -> (encoded: String)
    ensures
        encoded@ == url_encoded(value@),
{
    urlencoding::encode(value).into_owned()
}

/// One field of a form body: the key as it is, `=`, the encoded value.
pub open spec fn form_field(key: Seq<char>, value: Seq<char>) -> Seq<char> {
    key + seq!['='] + url_encoded(value)
}

/// The fields of a form, each as it stands in the body.
pub open spec fn form_fields(data: Seq<(String, String)>) -> Seq<Seq<char>> {
    data.map_values(|p: (String, String)| form_field(p.0@, p.1@))
}

/// An `application/x-www-form-urlencoded` body: the fields joined by `&`.
pub open spec fn form_body(data: Seq<(String, String)>) -> Seq<char> {
    join(form_fields(data), seq!['&'])
}

/// Encodes form data as the body of a POST or PUT request.
pub fn encode_form(data: &Vec<(String, String)>) -> (body: String)
    ensures
        body@ == form_body(data@),
{
    let ghost fields = form_fields(data@);
    let mut out = String::new();
    let mut i: usize = 0;
    while i < data.len()
        invariant
            0 <= i <= data.len(),
            fields == form_fields(data@),
            out@ == join(fields.take(i as int), seq!['&']),
        decreases data.len() - i,
    {
        if i > 0 {
            out.append("&");
            proof {
                reveal_strlit("&");
            }
        }
        let pair = &data[i];
        let mut field = pair.0.clone();
        field.append("=");
        let encoded = url_encode(pair.1.as_str());
        field.append(encoded.as_str());
        proof {
            reveal_strlit("=");
            assert(field@ == form_field(data@[i as int].0@, data@[i as int].1@));
        }
        out.append(field.as_str());
        proof {
            assert(fields.take(i + 1).drop_last() =~= fields.take(i as int));
            if i == 0 {
                assert(fields.take(1) =~= seq![fields[0]]);
            }
        }
        i = i + 1;
    }
    proof {
        assert(fields.take(data.len() as int) =~= fields);
    }
    out
}

/// How often a character occurs in a sequence.
pub open spec fn count_char(s: Seq<char>, c: char) -> nat
    decreases s.len(),
{
    if s.len() == 0 {
        0
    } else {
        count_char(s.drop_last(), c) + if s.last() == c {
            1nat
        } else {
            0nat
        }
    }
}

proof fn lemma_count_concat(a: Seq<char>, b: Seq<char>, c: char)
    ensures
        count_char(a + b, c) == count_char(a, c) + count_char(b, c),
    decreases b.len(),
{
    if b.len() == 0 {
        assert(a + b =~= a);
    } else {
        lemma_count_concat(a, b.drop_last(), c);
        assert((a + b).drop_last() =~= a + b.drop_last());
    }
}

proof fn lemma_count_single(x: char, c: char)
    ensures
        count_char(seq![x], c) == if x == c {
            1nat
        } else {
            0nat
        },
{
    assert(seq![x].drop_last() =~= Seq::<char>::empty());
    assert(count_char(seq![x].drop_last(), c) == 0);
}

proof fn lemma_hex_is_plain(d: u8)
    requires
        d < 16,
    ensures
        hex_upper(d) != '&',
        hex_upper(d) != '=',
        hex_upper(d) != '%',
{
    assert('&' as int == 0x26);
    assert('=' as int == 0x3d);
    assert('%' as int == 0x25);
}

proof fn lemma_byte_has_no_separators(b: u8)
    ensures
        count_char(encode_byte(b), '&') == 0,
        count_char(encode_byte(b), '=') == 0,
{
    let e = encode_byte(b);
    assert('&' as int == 0x26);
    assert('=' as int == 0x3d);
    if is_unreserved(b) {
        assert(e.drop_last() =~= Seq::<char>::empty());
        assert(count_char(e.drop_last(), '&') == 0);
        assert(count_char(e.drop_last(), '=') == 0);
    } else {
        lemma_hex_is_plain(b / 16);
        lemma_hex_is_plain(b % 16);
        let e1 = e.drop_last();
        let e2 = e1.drop_last();
        assert(e2.drop_last() =~= Seq::<char>::empty());
        assert(e2 =~= seq!['%']);
        assert(e1 =~= seq!['%', hex_upper(b / 16)]);
        assert(count_char(e2.drop_last(), '&') == 0);
        assert(count_char(e2, '&') == 0);
        assert(count_char(e1, '&') == 0);
        assert(count_char(e2.drop_last(), '=') == 0);
        assert(count_char(e2, '=') == 0);
        assert(count_char(e1, '=') == 0);
    }
}

proof fn lemma_encoded_has_no_separators(bytes: Seq<u8>)
    ensures
        count_char(encode_bytes(bytes), '&') == 0,
        count_char(encode_bytes(bytes), '=') == 0,
    decreases bytes.len(),
{
    if bytes.len() == 0 {
        assert(encode_bytes(bytes) =~= Seq::<char>::empty());
    } else {
        lemma_encoded_has_no_separators(bytes.drop_last());
        let b = bytes.last();
        lemma_byte_has_no_separators(b);
        lemma_count_concat(encode_bytes(bytes.drop_last()), encode_byte(b), '&');
        lemma_count_concat(encode_bytes(bytes.drop_last()), encode_byte(b), '=');
    }
}

proof fn lemma_field_counts(key: Seq<char>, value: Seq<char>)
    ensures
        count_char(form_field(key, value), '&') == count_char(key, '&'),
        count_char(form_field(key, value), '=') == count_char(key, '=') + 1,
{
    lemma_encoded_has_no_separators(vstd::utf8::encode_utf8(value));
    lemma_count_concat(key, seq!['='], '&');
    lemma_count_concat(key, seq!['='], '=');
    lemma_count_concat(key + seq!['='], url_encoded(value), '&');
    lemma_count_concat(key + seq!['='], url_encoded(value), '=');
    lemma_count_single('=', '=');
    lemma_count_single('=', '&');
}

/// Law: percent-encoding leaves neither `&` nor `=` in a value, so each
/// field of a form body holds one `=` more than its key, and a body of `n`
/// fields whose keys hold no `&` holds exactly `n - 1` separators: splitting
/// it on `&` gives the fields back one by one.
pub proof fn law_form_body_separators(data: Seq<(String, String)>)
    requires
        forall|i: int| 0 <= i < data.len() ==> count_char(#[trigger] data[i].0@, '&') == 0,
    ensures
        data.len() > 0 ==> count_char(form_body(data), '&') == data.len() - 1,
        data.len() == 0 ==> form_body(data) == Seq::<char>::empty(),
        forall|i: int|
            0 <= i < data.len() ==> count_char(#[trigger] form_fields(data)[i], '=')
                == count_char(data[i].0@, '=') + 1,
    decreases data.len(),
{
    assert forall|i: int| 0 <= i < data.len() implies count_char(#[trigger] form_fields(data)[i], '=')
        == count_char(data[i].0@, '=') + 1 by {
        lemma_field_counts(data[i].0@, data[i].1@);
    }
    if data.len() > 1 {
        let rest = data.drop_last();
        law_form_body_separators(rest);
        assert(form_fields(data).drop_last() =~= form_fields(rest));
        let last = form_fields(data).last();
        lemma_field_counts(data.last().0@, data.last().1@);
        lemma_count_concat(form_body(rest), seq!['&'], '&');
        lemma_count_concat(form_body(rest) + seq!['&'], last, '&');
        lemma_count_single('&', '&');
        assert(form_body(data) == form_body(rest) + seq!['&'] + last);
    } else if data.len() == 1 {
        lemma_field_counts(data[0].0@, data[0].1@);
    }
}

/// An endpoint path made of a prefix, a number and a suffix, such as
/// `chat/7/thread`.
pub open spec fn id_path(prefix: Seq<char>, id: int, suffix: Seq<char>) -> Seq<char> {
    prefix + int_decimal(id) + suffix
}

/// Builds an endpoint path around a number, as `format!("{prefix}{id}{suffix}")`.
pub fn path_with_id(prefix: &str, id: i32, suffix: &str) -> (path: String)
    ensures
        path@ == id_path(prefix@, id as int, suffix@),
{
    let mut path = String::from_str(prefix);
    let number = i32_to_string(id);
    path.append(number.as_str());
    path.append(suffix);
    path
}

/// The endpoint that answers or withdraws a friend request between the member
/// and another member: the sender's id comes first, then the receiver's,
/// then the action (`accept` or `deny`).
pub fn request_action_path(member_id: i32, other_id: i32, member_is_sender: bool, action: &str) -> (path: String)
    ensures
        path@ == "request/"@ + int_decimal(if member_is_sender { member_id } else { other_id } as int)
            + seq!['/'] + int_decimal(if member_is_sender { other_id } else { member_id } as int)
            + seq!['/'] + action@,
{
    let (sender, receiver) = if member_is_sender {
        (member_id, other_id)
    } else {
        (other_id, member_id)
    };
    let mut path = String::from_str("request/");
    path.append(i32_to_string(sender).as_str());
    path.append("/");
    path.append(i32_to_string(receiver).as_str());
    path.append("/");
    path.append(action);
    proof {
        reveal_strlit("/");
    }
    path
}

/// The endpoint of an account update: `member`, or `member/password` when
/// the password changes.
pub fn member_update_path(is_password: bool) -> (path: String)
    ensures
        path@ == if is_password {
            "member/password"@
        } else {
            "member"@
        },
{
    let mut path = String::from_str("member");
    if is_password {
        path.append("/password");
        proof {
            reveal_strlit("member");
            reveal_strlit("/password");
            reveal_strlit("member/password");
            assert(path@ =~= "member/password"@);
        }
    }
    path
}

/// The search endpoint of members or servers; the term is put in as typed.
pub fn search_path(kind: &str, term: &str) -> (path: String)
    ensures
        path@ == seq!['/'] + kind@ + "/search?search_term="@ + term@,
{
    let mut path = String::from_str("/");
    path.append(kind);
    path.append("/search?search_term=");
    path.append(term);
    proof {
        reveal_strlit("/");
    }
    path
}

/// The answer to a POST request, with the parsed entity, the raw response,
/// or both.
pub enum PostResponse<T, R> {
    NonResponse(T),
    Response(T, R),
    OnlyResponse(R),
}

/// Whether the body of a POST response is read as JSON: only for a
/// successful status, and only when the caller expects an entity.
pub fn post_reads_body(status_ok: bool, expects_unit: bool) -> (read: bool)
    ensures
        read == (status_ok && !expects_unit),
{
    status_ok && !expects_unit
}

/// What a sent POST request answers: the entity (with the response when the
/// caller asked for it) when the status was successful and the body parsed,
/// else only the response.
pub fn post_response<T, R>(response: R, status_ok: bool, body: Option<T>, need_response: bool) -> (r: PostResponse<T, R>)
    ensures
        r == match body {
            Some(entity) => if !status_ok {
                PostResponse::OnlyResponse(response)
            } else if need_response {
                PostResponse::Response(entity, response)
            } else {
                PostResponse::NonResponse(entity)
            },
            None => PostResponse::OnlyResponse(response),
        },
{
    match body {
        Some(entity) => if !status_ok {
            PostResponse::OnlyResponse(response)
        } else if need_response {
            PostResponse::Response(entity, response)
        } else {
            PostResponse::NonResponse(entity)
        },
        None => PostResponse::OnlyResponse(response),
    }
}

/// What a GET or PUT request yields: the parsed body of a successful
/// response, else an error.
pub fn json_response<T>(status_ok: bool, body: Option<T>) -> (r: Result<T, ()>)
    ensures
        r == match body {
            Some(entity) => if status_ok {
                Ok(entity)
            } else {
                Err(())
            },
            None => Err(()),
        },
{
    if !status_ok {
        return Err(());
    }
    match body {
        Some(entity) => Ok(entity),
        None => Err(()),
    }
}

} // verus!

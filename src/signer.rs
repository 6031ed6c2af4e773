//! The agent's identity proof: a v4-signed (`AWS4-HMAC-SHA256`), query-string
//! presigned GET of the identity endpoint's `GetCallerIdentity` action.
use crate::text::{owned, push_char, push_str};
use vstd::prelude::*;
use vstd::utf8::encode_utf8;

verus! {

/// The SHA-256 digest of `data`.
pub uninterp spec fn sha256_of(data: Seq<u8>) -> Seq<u8>;

/// The HMAC-SHA256 of `msg` under `key`.
pub uninterp spec fn hmac_sha256_of(key: Seq<u8>, msg: Seq<u8>) -> Seq<u8>;

/// The UTC time `secs` seconds after the Unix epoch, as `YYYYMMDDTHHMMSSZ`.
pub uninterp spec fn amz_timestamp(secs: u64) -> Seq<char>;

/// Relies on sha2's `Sha256::digest`: the 32-byte digest of the input.
#[verifier::external_body]
fn sha256_digest(data: &[u8]) -> (r: Vec<u8>)
    ensures
        r@ == sha256_of(data@),
        r@.len() == 32,
{
    <sha2::Sha256 as sha2::Digest>::digest(data).to_vec()
}

/// Relies on hmac's `Hmac<Sha256>`: `new_from_slice` takes keys of any
/// length, and `finalize` gives the 32-byte tag of the message.
#[verifier::external_body]
fn hmac_sha256(key: &[u8], msg: &[u8]) -> (r: Vec<u8>)
    ensures
        r@ == hmac_sha256_of(key@, msg@),
        r@.len() == 32,
{
    match <hmac::Hmac<sha2::Sha256> as hmac::Mac>::new_from_slice(key) {
        Ok(mac) => hmac::Mac::finalize(hmac::Mac::chain_update(mac, msg)).into_bytes().to_vec(),
        Err(_) => Vec::new(),
    }
}

/// The lowercase hexadecimal digit of `d < 16`.
pub open spec fn hex_digit(d: int) -> char {
    "0123456789abcdef"@[d]
}

/// Two lowercase hexadecimal digits per byte.
pub open spec fn hex_lower(b: Seq<u8>) -> Seq<char>
    decreases b.len(),
{
    if b.len() == 0 {
        seq![]
    } else {
        hex_lower(b.drop_last()) + seq![hex_digit(b.last() as int / 16), hex_digit(b.last() as int % 16)]
    }
}

/// Relies on hex's `encode`: two lowercase hexadecimal digits per byte, in
/// order.
#[verifier::external_body]
fn hex_encode(data: &[u8]) -> (r: String)
    ensures
        r@ == hex_lower(data@),
{
    hex::encode(data)
}

/// Relies on chrono's `DateTime::from_timestamp` and `format`: the UTC time
/// of a Unix timestamp, with a four-digit year up to the end of year 9999.
#[verifier::external_body]
fn format_amz_date(secs: u64) -> (r: String)
    requires
        secs <= 253_402_300_799,
    ensures
        r@ == amz_timestamp(secs),
        r@.len() == 16,
{
    match chrono::DateTime::from_timestamp(secs as i64, 0) {
        Some(t) => t.format("%Y%m%dT%H%M%SZ").to_string(),
        None => String::new(),
    }
}

/// RFC 3986 unreserved bytes: letters, digits, `-`, `.`, `_`, `~`.
pub open spec fn is_unreserved(b: u8) -> bool {
    (0x41 <= b <= 0x5a) || (0x61 <= b <= 0x7a) || (0x30 <= b <= 0x39) || b == 0x2d || b == 0x2e
        || b == 0x5f || b == 0x7e
}

/// The uppercase hexadecimal digit of `d < 16`.
pub open spec fn hex_digit_upper(d: int) -> char {
    "0123456789ABCDEF"@[d]
}

/// Percent-encoding of UTF-8 bytes: unreserved bytes stand for themselves,
/// every other byte becomes `%` and two uppercase hexadecimal digits.
pub open spec fn percent_encoded(b: Seq<u8>) -> Seq<char>
    decreases b.len(),
{
    if b.len() == 0 {
        seq![]
    } else {
        let last = b.last();
        percent_encoded(b.drop_last()) + if is_unreserved(last) {
            seq![last as char]
        } else {
            seq!['%', hex_digit_upper(last as int / 16), hex_digit_upper(last as int % 16)]
        }
    }
}

/// Percent-encodes the UTF-8 bytes of `s`.
pub fn percent_encode(s: &str) -> (r: String)
    ensures
        r@ == percent_encoded(encode_utf8(s@)),
{
    let bytes = s.as_bytes();
    let digits = "0123456789ABCDEF";
    proof {
        reveal_strlit("0123456789ABCDEF");
    }
    let n = bytes.len();
    let mut out = String::new();
    let mut i: usize = 0;
    while i < n
        invariant
            n == bytes@.len(),
            bytes@ == encode_utf8(s@),
            digits@ == "0123456789ABCDEF"@,
            digits@.len() == 16,
            i <= n,
            out@ == percent_encoded(bytes@.subrange(0, i as int)),
        decreases n - i,
    {
        let b = bytes[i];
        proof {
            let sub = bytes@.subrange(0, i + 1);
            assert(sub.drop_last() == bytes@.subrange(0, i as int));
            assert(sub.last() == b);
        }
        if (0x41 <= b && b <= 0x5a) || (0x61 <= b && b <= 0x7a) || (0x30 <= b && b <= 0x39) || b
            == 0x2d || b == 0x2e || b == 0x5f || b == 0x7e {
            push_char(&mut out, b as char);
        } else {
            push_char(&mut out, '%');
            push_char(&mut out, digits.get_char((b / 16) as usize));
            push_char(&mut out, digits.get_char((b % 16) as usize));
        }
        i = i + 1;
    }
    assert(bytes@.subrange(0, n as int) == bytes@);
    out
}

/// The characters of an optional string.
pub open spec fn opt_view(o: Option<String>) -> Option<Seq<char>> {
    match o {
        Some(t) => Some(t@),
        None => None,
    }
}

/// The credentials and the moment of signing.
pub struct SigningInput {
    pub access_key: String,
    pub secret_key: String,
    pub session_token: Option<String>,
    pub region: String,
    /// Seconds since the Unix epoch.
    pub now_secs: u64,
}

/// The query parameters of the presigned request, in the byte order of
/// their names (which are unchanged by encoding).
pub open spec fn query_params(
    access: Seq<char>,
    date: Seq<char>,
    region: Seq<char>,
    amz_date: Seq<char>,
    token: Option<Seq<char>>,
) -> Seq<(Seq<char>, Seq<char>)> {
    let head = seq![
        ("Action"@, "GetCallerIdentity"@),
        ("Version"@, "2011-06-15"@),
        ("X-Amz-Algorithm"@, "AWS4-HMAC-SHA256"@),
        ("X-Amz-Credential"@, access + "/"@ + date + "/"@ + region + "/sts/aws4_request"@),
        ("X-Amz-Date"@, amz_date),
        ("X-Amz-Expires"@, "60"@),
    ];
    let tail = seq![("X-Amz-SignedHeaders"@, "host"@)];
    match token {
        Some(t) => head + seq![("X-Amz-Security-Token"@, t)] + tail,
        None => head + tail,
    }
}

/// `key=value` pairs, each side percent-encoded, joined by `&`.
pub open spec fn canonical_query(params: Seq<(Seq<char>, Seq<char>)>) -> Seq<char>
    decreases params.len(),
{
    if params.len() == 0 {
        seq![]
    } else {
        let prev = canonical_query(params.drop_last());
        let p = params.last();
        let item = percent_encoded(encode_utf8(p.0)) + "="@ + percent_encoded(encode_utf8(p.1));
        if params.len() == 1 {
            item
        } else {
            prev + "&"@ + item
        }
    }
}

/// The identity endpoint's host for `region`.
pub open spec fn sts_host(region: Seq<char>) -> Seq<char> {
    "sts."@ + region + ".amazonaws.com"@
}

/// The four-stage signing key.
pub open spec fn signing_key(secret: Seq<char>, date: Seq<char>, region: Seq<char>) -> Seq<u8> {
    let k_date = hmac_sha256_of(encode_utf8("AWS4"@ + secret), encode_utf8(date));
    let k_region = hmac_sha256_of(k_date, encode_utf8(region));
    let k_service = hmac_sha256_of(k_region, encode_utf8("sts"@));
    hmac_sha256_of(k_service, encode_utf8("aws4_request"@))
}

/// The canonical request of a GET of `/` with the given query on `host`,
/// signing only the host header, with an empty payload.
pub open spec fn canonical_request(query: Seq<char>, host: Seq<char>) -> Seq<char> {
    "GET\n/\n"@ + query + "\nhost:"@ + host + "\n\nhost\n"@ + hex_lower(sha256_of(seq![]))
}

/// The string to sign for a canonical request.
pub open spec fn string_to_sign(amz_date: Seq<char>, date: Seq<char>, region: Seq<char>, creq: Seq<char>) -> Seq<char> {
    "AWS4-HMAC-SHA256\n"@ + amz_date + "\n"@ + date + "/"@ + region + "/sts/aws4_request\n"@
        + hex_lower(sha256_of(encode_utf8(creq)))
}

/// The presigned URL for the given credentials and signing time.
pub open spec fn presigned_url(
    access: Seq<char>,
    secret: Seq<char>,
    token: Option<Seq<char>>,
    region: Seq<char>,
    amz_date: Seq<char>,
) -> Seq<char> {
    let date = amz_date.subrange(0, 8);
    let query = canonical_query(query_params(access, date, region, amz_date, token));
    let host = sts_host(region);
    let sts = string_to_sign(amz_date, date, region, canonical_request(query, host));
    let signature = hex_lower(hmac_sha256_of(signing_key(secret, date, region), encode_utf8(sts)));
    "https://"@ + host + "?"@ + query + "&X-Amz-Signature="@ + signature
}

fn join_query(params: &Vec<(String, String)>) -> (r: String)
    ensures
        r@ == canonical_query(params@.map_values(|p: (String, String)| (p.0@, p.1@))),
{
    let ghost pv = params@.map_values(|p: (String, String)| (p.0@, p.1@));
    let mut out = String::new();
    let mut i: usize = 0;
    while i < params.len()
        invariant
            i <= params@.len(),
            pv == params@.map_values(|p: (String, String)| (p.0@, p.1@)),
            out@ == canonical_query(pv.subrange(0, i as int)),
        decreases params@.len() - i,
    {
        proof {
            let sub = pv.subrange(0, i + 1);
            assert(sub.drop_last() == pv.subrange(0, i as int));
        }
        if i > 0 {
            push_str(&mut out, "&");
        }
        let k = percent_encode(params[i].0.as_str());
        let v = percent_encode(params[i].1.as_str());
        push_str(&mut out, k.as_str());
        push_str(&mut out, "=");
        push_str(&mut out, v.as_str());
        i = i + 1;
    }
    assert(pv.subrange(0, params@.len() as int) == pv);
    out
}

fn cat(parts: &[&str]) -> (r: String)
    ensures
        r@ == parts@.map_values(|p: &str| p@).fold_left(Seq::<char>::empty(), |acc: Seq<char>, x: Seq<char>| acc + x),
{
    let ghost pv = parts@.map_values(|p: &str| p@);
    let mut out = String::new();
    let mut i: usize = 0;
    while i < parts.len()
        invariant
            i <= parts@.len(),
            pv == parts@.map_values(|p: &str| p@),
            out@ == pv.subrange(0, i as int).fold_left(Seq::<char>::empty(), |acc: Seq<char>, x: Seq<char>| acc + x),
        decreases parts@.len() - i,
    {
        proof {
            let sub = pv.subrange(0, i + 1);
            assert(sub.drop_last() == pv.subrange(0, i as int));
        }
        push_str(&mut out, parts[i]);
        i = i + 1;
    }
    assert(pv.subrange(0, parts@.len() as int) == pv);
    out
}

/// The presigned identity URL for `input`; the amz date is the signing
/// time, its first eight characters the date stamp.
pub fn build_presigned_sts_url(input: &SigningInput) -> (r: String)
    requires
        input.now_secs <= 253_402_300_799,
    ensures
        r@ == presigned_url(
            input.access_key@,
            input.secret_key@,
            opt_view(input.session_token),
            input.region@,
            amz_timestamp(input.now_secs),
        ),
{
    let amz_date = format_amz_date(input.now_secs);
    let date = amz_date.as_str().substring_char(0, 8);
    let region = input.region.as_str();
    let credential = cat(&[input.access_key.as_str(), "/", date, "/", region, "/sts/aws4_request"]);
    let mut params: Vec<(String, String)> = vec![
        (owned("Action"), owned("GetCallerIdentity")),
        (owned("Version"), owned("2011-06-15")),
        (owned("X-Amz-Algorithm"), owned("AWS4-HMAC-SHA256")),
        (owned("X-Amz-Credential"), credential),
        (owned("X-Amz-Date"), amz_date.clone()),
        (owned("X-Amz-Expires"), owned("60")),
    ];
    match &input.session_token {
        Some(t) => params.push((owned("X-Amz-Security-Token"), t.clone())),
        None => {},
    }
    params.push((owned("X-Amz-SignedHeaders"), owned("host")));
    let ghost token_view = opt_view(input.session_token);
    let ghost expected_params = query_params(input.access_key@, date@, region@, amz_date@, token_view);
    assert(params@.map_values(|p: (String, String)| (p.0@, p.1@)) =~= expected_params) by {
        reveal_with_fuel(Seq::fold_left, 7);
    }
    let query = join_query(&params);
    let host = cat(&["sts.", region, ".amazonaws.com"]);
    let empty: Vec<u8> = Vec::new();
    let payload_hash = hex_encode(sha256_digest(empty.as_slice()).as_slice());
    let creq = cat(&["GET\n/\n", query.as_str(), "\nhost:", host.as_str(), "\n\nhost\n", payload_hash.as_str()]);
    let creq_hash = hex_encode(sha256_digest(creq.as_str().as_bytes()).as_slice());
    let sts = cat(&["AWS4-HMAC-SHA256\n", amz_date.as_str(), "\n", date, "/", region, "/sts/aws4_request\n", creq_hash.as_str()]);
    let secret = cat(&["AWS4", input.secret_key.as_str()]);
    let k_date = hmac_sha256(secret.as_str().as_bytes(), date.as_bytes());
    let k_region = hmac_sha256(k_date.as_slice(), region.as_bytes());
    let k_service = hmac_sha256(k_region.as_slice(), "sts".as_bytes());
    let k_signing = hmac_sha256(k_service.as_slice(), "aws4_request".as_bytes());
    let signature = hex_encode(hmac_sha256(k_signing.as_slice(), sts.as_str().as_bytes()).as_slice());
    let url = cat(&["https://", host.as_str(), "?", query.as_str(), "&X-Amz-Signature=", signature.as_str()]);
    proof {
        reveal_with_fuel(Seq::fold_left, 9);
    }
    url
}

/// Lexicographic order of character sequences by code point.
pub open spec fn chars_lt(a: Seq<char>, b: Seq<char>) -> bool
    decreases a.len(),
{
    if b.len() == 0 {
        false
    } else if a.len() == 0 {
        true
    } else if a[0] != b[0] {
        (a[0] as u32) < (b[0] as u32)
    } else {
        chars_lt(a.skip(1), b.skip(1))
    }
}

/// Letters and `-`: characters that UTF-8 and percent-encoding both keep.
pub open spec fn is_plain_name(k: Seq<char>) -> bool {
    forall|i: int|
        0 <= i < k.len() ==> ('A' <= #[trigger] k[i] <= 'Z') || ('a' <= k[i] <= 'z') || k[i] == '-'
}

proof fn lemma_plain_name_encodes_to_itself(k: Seq<char>)
    requires
        is_plain_name(k),
    ensures
        percent_encoded(encode_utf8(k)) == k,
    decreases k.len(),
{
    if k.len() > 0 {
        let init = k.drop_last();
        assert(is_plain_name(init)) by {
            assert forall|i: int| 0 <= i < init.len() implies ('A' <= #[trigger] init[i] <= 'Z') || (
            'a' <= init[i] <= 'z') || init[i] == '-' by {
                assert(init[i] == k[i]);
            }
        }
        lemma_plain_name_encodes_to_itself(init);
        assert(vstd::utf8::is_ascii_chars(k)) by {
            assert forall|i: int| 0 <= i < k.len() implies (k[i] as nat) < 128 by {
                assert(('A' <= k[i] <= 'Z') || ('a' <= k[i] <= 'z') || k[i] == '-');
            }
        }
        assert(vstd::utf8::is_ascii_chars(init)) by {
            assert forall|i: int| 0 <= i < init.len() implies (init[i] as nat) < 128 by {
                assert(init[i] == k[i]);
                assert(('A' <= k[i] <= 'Z') || ('a' <= k[i] <= 'z') || k[i] == '-');
            }
        }
        vstd::utf8::is_ascii_chars_encode_utf8(k);
        vstd::utf8::is_ascii_chars_encode_utf8(init);
        let b = encode_utf8(k);
        let bi = encode_utf8(init);
        assert(b.drop_last() =~= bi);
        let last = k.last();
        assert(b.last() == last as u8);
        assert(('A' <= last <= 'Z') || ('a' <= last <= 'z') || last == '-');
        assert(is_unreserved(b.last()));
        assert((b.last() as char) == last);
        assert(percent_encoded(b) == percent_encoded(bi) + seq![last]);
        assert(k =~= init + seq![last]);
    }
}

/// The parameter names of the presigned request, in the order they are
/// listed, encode to themselves and strictly increase, so the parameters
/// are sorted by encoded name and value as the signing protocol requires.
pub proof fn lemma_query_params_sorted(
    access: Seq<char>,
    date: Seq<char>,
    region: Seq<char>,
    amz_date: Seq<char>,
    token: Option<Seq<char>>,
)
    ensures
        ({
            let params = query_params(access, date, region, amz_date, token);
            &&& forall|i: int|
                0 <= i < params.len() ==> percent_encoded(encode_utf8(#[trigger] params[i].0)) == params[i].0
            &&& forall|i: int, j: int|
                0 <= i < j < params.len() ==> chars_lt(#[trigger] params[i].0, #[trigger] params[j].0)
        }),
{
    reveal_strlit("Action");
    reveal_strlit("Version");
    reveal_strlit("X-Amz-Algorithm");
    reveal_strlit("X-Amz-Credential");
    reveal_strlit("X-Amz-Date");
    reveal_strlit("X-Amz-Expires");
    reveal_strlit("X-Amz-Security-Token");
    reveal_strlit("X-Amz-SignedHeaders");
    let names = seq![
        "Action"@,
        "Version"@,
        "X-Amz-Algorithm"@,
        "X-Amz-Credential"@,
        "X-Amz-Date"@,
        "X-Amz-Expires"@,
        "X-Amz-Security-Token"@,
        "X-Amz-SignedHeaders"@,
    ];
    assert forall|n: int| 0 <= n < 8 implies is_plain_name(#[trigger] names[n]) by {}
    assert forall|n: int| 0 <= n < 8 implies percent_encoded(encode_utf8(#[trigger] names[n])) == names[n] by {
        lemma_plain_name_encodes_to_itself(names[n]);
    }
    assert forall|a: int, b: int| 0 <= a < b < 8 implies chars_lt(#[trigger] names[a], #[trigger] names[b]) by {
        reveal_with_fuel(chars_lt, 9);
    }
    let params = query_params(access, date, region, amz_date, token);
    let order: Seq<int> = match token {
        Some(_) => seq![0, 1, 2, 3, 4, 5, 6, 7],
        None => seq![0, 1, 2, 3, 4, 5, 7],
    };
    assert(params.len() == order.len());
    assert forall|i: int| 0 <= i < params.len() implies #[trigger] params[i].0 == names[order[i]] by {}
    assert forall|i: int| 0 <= i < params.len() implies percent_encoded(encode_utf8(#[trigger] params[i].0))
        == params[i].0 by {
        assert(params[i].0 == names[order[i]]);
    }
    assert forall|i: int, j: int| 0 <= i < j < params.len() implies chars_lt(
        #[trigger] params[i].0,
        #[trigger] params[j].0,
    ) by {
        assert(params[i].0 == names[order[i]]);
        assert(params[j].0 == names[order[j]]);
        assert(order[i] < order[j]);
    }
}

} // verus!

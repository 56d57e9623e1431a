//! What holds of signing and of query strings, whatever the inputs.

use crate::http::address::{
    form_append, form_encode, form_encode_bytes, form_pair, form_unchanged, query_string,
    url_parts, Pair, UrlParts,
};
use crate::http::client::{Client, ClientResult};
use crate::http::error::ErrorKind;
use crate::http::address::{parsed_url, with_path, MAX_URL_BYTES};
use crate::http::query::{
    optional, optional_bool, optional_i64, optional_text, optional_u128, optional_u16,
    optional_u8,
};
use crate::http::request::{
    agrees, agrees_url, signed_parts, Method, RequestBuilder, RequestView, SIGNATURE_PARAMETER,
    SIGNATURE_ROOM,
};
use crate::http::signature::{hmac_sha256, lemma_signature_len, signature, TAG_BYTES};
use crate::text::{boolean, byte_len, decimal, lower_hex, lower_hex_char};
use url::Url;
use vstd::prelude::*;
use vstd::utf8::{encode_utf8, is_ascii_chars, is_ascii_chars_encode_utf8};

verus! {

/// Signing is a function of the secret key and of the URL: two signings of
/// URLs with the same parts under the same key give URLs with the same
/// parts, signature included, or fail in the same way.
pub proof fn law_signing_is_deterministic(
    secret_key: Option<Seq<char>>,
    first: Url,
    second: Url,
    r1: ClientResult<Url>,
    r2: ClientResult<Url>,
)
    requires
        url_parts(first) == url_parts(second),
        agrees_url(r1, signed_parts(secret_key, url_parts(first))),
        agrees_url(r2, signed_parts(secret_key, url_parts(second))),
    ensures
        match (r1, r2) {
            (Ok(a), Ok(b)) => url_parts(a) == url_parts(b),
            (Err(a), Err(b)) => a.kind() == b.kind(),
            _ => false,
        },
{
}

/// Two signed requests of one client for the same method, path and
/// parameters describe the same request, or fail in the same way.
pub proof fn law_signed_is_deterministic(
    client: Client,
    method: Method,
    path: Seq<char>,
    params: Seq<Pair>,
    r1: ClientResult<RequestBuilder>,
    r2: ClientResult<RequestBuilder>,
)
    requires
        agrees(r1, client.signed_outcome(method, path, params)),
        agrees(r2, client.signed_outcome(method, path, params)),
    ensures
        match (r1, r2) {
            (Ok(a), Ok(b)) => a@ == b@,
            (Err(a), Err(b)) => a.kind() == b.kind(),
            _ => false,
        },
{
}

/// A URL without anything in its query is not signed, whatever the key, and
/// whether there is one or not.
pub proof fn law_empty_query_is_refused(secret_key: Option<Seq<char>>, parts: UrlParts)
    requires
        parts.query_text().len() == 0,
    ensures
        signed_parts(secret_key, parts) == Err::<UrlParts, ErrorKind>(ErrorKind::EmptyQuery),
{
}

/// A signed request without parameters to a base URL without a query fails
/// with `EmptyQuery`, whatever the credentials, wherever its URL can be
/// built.
pub proof fn law_signed_needs_a_parameter(client: Client, method: Method, path: Seq<char>)
    requires
        client.target(path, Seq::<Pair>::empty()) matches Some(target)
            && target.query_text().len() == 0,
    ensures
        client.signed_outcome(method, path, Seq::<Pair>::empty()) == Err::<
            crate::http::request::RequestView,
            ErrorKind,
        >(ErrorKind::EmptyQuery),
{
}

/// Where the URL of a signed request can be built and its query holds
/// something, a missing secret key is what the request fails with, whether
/// the API key is set or not.
pub proof fn law_missing_secret_key_comes_first(
    client: Client,
    method: Method,
    path: Seq<char>,
    params: Seq<Pair>,
)
    requires
        client.target(path, params) matches Some(target) && target.query_text().len() > 0,
        client.spec_secret().spec_secret_key() is None,
    ensures
        client.signed_outcome(method, path, params) == Err::<
            crate::http::request::RequestView,
            ErrorKind,
        >(ErrorKind::MissingCredential("SECRET KEY"@)),
{
}

/// Where signing succeeds and no API key is set, the missing API key is what
/// the request fails with.
pub proof fn law_missing_api_key_comes_last(
    client: Client,
    method: Method,
    path: Seq<char>,
    params: Seq<Pair>,
)
    requires
        client.target(path, params) matches Some(target) && signed_parts(
            client.spec_secret().spec_secret_key(),
            target,
        ) is Ok,
        client.spec_secret().spec_api_key() is None,
    ensures
        client.signed_outcome(method, path, params) == Err::<
            crate::http::request::RequestView,
            ErrorKind,
        >(ErrorKind::MissingCredential("API KEY"@)),
{
}

/// A pair in a query takes at least its `=`.
pub proof fn lemma_form_pair_is_not_empty(name: Seq<char>, value: Seq<char>)
    ensures
        form_pair(name, value).len() >= 1,
{
}

/// The length of the query that holds these pairs: each pair, and one `&`
/// between two of them.
pub open spec fn query_len(pairs: Seq<Pair>) -> nat
    decreases pairs.len(),
{
    if pairs.len() == 0 {
        0
    } else if pairs.len() == 1 {
        form_pair(pairs.last().0, pairs.last().1).len()
    } else {
        query_len(pairs.drop_last()) + 1 + form_pair(pairs.last().0, pairs.last().1).len()
    }
}

/// The query of some pairs is as long as the pairs and the `&` between them.
pub proof fn lemma_query_string_len(pairs: Seq<Pair>)
    ensures
        query_string(pairs).len() == query_len(pairs),
        pairs.len() > 0 ==> query_len(pairs) > 0,
    decreases pairs.len(),
{
    if pairs.len() > 0 {
        lemma_query_string_len(pairs.drop_last());
    }
}

/// With one more pair among them, pairs take more room: the pair and, where
/// it is not alone, one `&`.
pub proof fn lemma_query_len_insert(before: Seq<Pair>, pair: Pair, after: Seq<Pair>)
    ensures
        query_len(before + seq![pair] + after) == query_len(before + after) + form_pair(
            pair.0,
            pair.1,
        ).len() + if (before + after).len() > 0 {
            1nat
        } else {
            0nat
        },
    decreases after.len(),
{
    let with = before + seq![pair] + after;
    let without = before + after;
    if after.len() == 0 {
        assert(with =~= before.push(pair));
        assert(without =~= before);
        assert(with.drop_last() =~= before);
        assert(with.last() == pair);
    } else {
        lemma_query_len_insert(before, pair, after.drop_last());
        assert(with.drop_last() =~= before + seq![pair] + after.drop_last());
        assert(without.drop_last() =~= before + after.drop_last());
        assert(with.last() == after.last());
        assert(without.last() == after.last());
        assert(with.len() >= 2);
        if without.len() == 1 {
            assert(before.len() == 0);
            assert(after.drop_last().len() == 0);
            assert(before + after.drop_last() =~= Seq::<Pair>::empty());
        }
    }
}

/// An optional parameter that is absent is absent altogether: the query
/// without it is strictly shorter than the query with it, whatever stands
/// before and after, and whatever its value, the empty one too.
pub proof fn law_absent_parameter_shortens_query(
    before: Seq<Pair>,
    pair: Pair,
    after: Seq<Pair>,
)
    ensures
        query_string(before + after).len() < query_string(before + seq![pair] + after).len(),
{
    lemma_query_string_len(before + after);
    lemma_query_string_len(before + seq![pair] + after);
    lemma_query_len_insert(before, pair, after);
    lemma_form_pair_is_not_empty(pair.0, pair.1);
}

/// Whether a text goes into a query as it is: ASCII letters and digits, and
/// `*`, `-`, `.`, `_`.
pub open spec fn is_plain(text: Seq<char>) -> bool {
    forall|i: int|
        0 <= i < text.len() ==> '\0' <= #[trigger] text[i] <= '\u{7f}' && form_unchanged(
            text[i] as u8,
        )
}

/// Bytes that stand for themselves are encoded as themselves.
pub proof fn lemma_form_encode_unchanged(bytes: Seq<u8>)
    requires
        forall|i: int| 0 <= i < bytes.len() ==> form_unchanged(#[trigger] bytes[i]),
    ensures
        form_encode_bytes(bytes) == Seq::new(bytes.len(), |i: int| bytes[i] as char),
    decreases bytes.len(),
{
    if bytes.len() > 0 {
        let front = bytes.drop_last();
        lemma_form_encode_unchanged(front);
        assert(form_unchanged(bytes.last()));
        assert(form_encode_bytes(bytes) =~= Seq::new(bytes.len(), |i: int| bytes[i] as char));
    } else {
        assert(form_encode_bytes(bytes) =~= Seq::new(bytes.len(), |i: int| bytes[i] as char));
    }
}

/// A plain text is encoded as itself.
pub proof fn lemma_plain_text_is_kept(text: Seq<char>)
    requires
        is_plain(text),
    ensures
        form_encode(text) == text,
{
    assert(is_ascii_chars(text));
    is_ascii_chars_encode_utf8(text);
    let bytes = encode_utf8(text);
    assert forall|i: int| 0 <= i < bytes.len() implies form_unchanged(#[trigger] bytes[i]) by {
        assert(bytes[i] == text[i] as u8);
    }
    lemma_form_encode_unchanged(bytes);
    assert forall|i: int| 0 <= i < text.len() implies (bytes[i] as char) == text[i] by {
        assert(bytes[i] == text[i] as u8);
    }
    assert(form_encode(text) =~= text);
}

/// Hexadecimal digits are plain.
pub proof fn lemma_lower_hex_is_plain(bytes: Seq<u8>)
    ensures
        is_plain(lower_hex(bytes)),
    decreases bytes.len(),
{
    if bytes.len() > 0 {
        lemma_lower_hex_is_plain(bytes.drop_last());
        let high = lower_hex_char(bytes.last() as int / 16);
        let low = lower_hex_char(bytes.last() as int % 16);
        assert('\0' <= high <= '\u{7f}' && form_unchanged(high as u8));
        assert('\0' <= low <= '\u{7f}' && form_unchanged(low as u8));
    }
}

/// The name of the signature parameter is plain.
pub proof fn lemma_signature_parameter_is_plain()
    ensures
        is_plain(SIGNATURE_PARAMETER@),
        SIGNATURE_PARAMETER@.len() == 9,
{
    reveal_strlit("signature");
}

/// The signature goes out as it was computed: where a URL is signed, its
/// query is the one that was signed, then `&signature=`, then the signature
/// in hexadecimal, and nothing after it. Location and fragment stay.
pub proof fn law_signature_is_appended_verbatim(secret_key: Seq<char>, parts: UrlParts)
    requires
        signed_parts(Some(secret_key), parts) is Ok,
    ensures
        signed_parts(Some(secret_key), parts) == Ok::<UrlParts, ErrorKind>(
            UrlParts {
                query: Some(
                    parts.query_text() + seq!['&'] + SIGNATURE_PARAMETER@ + seq!['='] + signature(
                        secret_key,
                        parts.query_text(),
                    ),
                ),
                ..parts
            },
        ),
{
    let hex = signature(secret_key, parts.query_text());
    lemma_lower_hex_is_plain(
        crate::http::signature::hmac_sha256(
            encode_utf8(secret_key),
            encode_utf8(parts.query_text()),
        )@,
    );
    lemma_plain_text_is_kept(hex);
    lemma_signature_parameter_is_plain();
    lemma_plain_text_is_kept(SIGNATURE_PARAMETER@);
    assert(form_append(parts.query_text(), SIGNATURE_PARAMETER@, hex) =~= parts.query_text()
        + seq!['&'] + SIGNATURE_PARAMETER@ + seq!['='] + hex);
}

/// The query of a request to a base URL without a query is the query string
/// of its parameters, in their order; path and fragment are those of the
/// URL that the parameters were appended to.
pub proof fn law_query_holds_the_parameters(parts: UrlParts, params: Seq<Pair>)
    requires
        parts.query_text().len() == 0,
        parts.with_pairs(params) is Some,
    ensures
        parts.with_pairs(params)->0.query_text() == query_string(params),
        parts.with_pairs(params)->0.location == parts.location,
        parts.with_pairs(params)->0.fragment == parts.fragment,
        params.len() > 0 ==> parts.with_pairs(params)->0.query == Some(query_string(params)),
    decreases params.len(),
{
    if params.len() > 0 {
        law_query_holds_the_parameters(parts, params.drop_last());
    }
}

/// A plain text has as many bytes as characters.
pub proof fn lemma_plain_byte_len(text: Seq<char>)
    requires
        is_plain(text),
    ensures
        byte_len(text) == text.len(),
{
    assert(is_ascii_chars(text));
    is_ascii_chars_encode_utf8(text);
}

/// A signature is 64 plain characters, whatever was signed and under which
/// key.
pub proof fn law_signature_is_64_hex_digits(secret_key: Seq<char>, query: Seq<char>)
    ensures
        signature(secret_key, query).len() == 2 * TAG_BYTES,
        is_plain(signature(secret_key, query)),
        byte_len(signature(secret_key, query)) == 2 * TAG_BYTES,
{
    lemma_signature_len(secret_key, query);
    lemma_lower_hex_is_plain(hmac_sha256(encode_utf8(secret_key), encode_utf8(query))@);
    lemma_plain_byte_len(signature(secret_key, query));
}

/// The signature fits a URL exactly where the URL leaves `SIGNATURE_ROOM`
/// bytes below the most that a URL can have.
pub proof fn lemma_signature_fits(secret_key: Seq<char>, parts: UrlParts)
    ensures
        parts.pair_fits(SIGNATURE_PARAMETER@, signature(secret_key, parts.query_text()))
            <==> byte_len(parts.text()) + SIGNATURE_ROOM <= MAX_URL_BYTES,
{
    law_signature_is_64_hex_digits(secret_key, parts.query_text());
    lemma_signature_parameter_is_plain();
    lemma_plain_byte_len(SIGNATURE_PARAMETER@);
}

/// Where there is a secret key, a query that holds something and room for
/// the signature, signing succeeds: the query becomes the one that was
/// signed, then `&signature=`, then the 64 digits of the HMAC of that query
/// under that key. Nothing but key and query goes into the signature, and
/// the query goes in as it stands, in its order.
pub proof fn law_signing_succeeds(secret_key: Seq<char>, parts: UrlParts)
    requires
        parts.query_text().len() > 0,
        byte_len(parts.text()) + SIGNATURE_ROOM <= MAX_URL_BYTES,
    ensures
        signed_parts(Some(secret_key), parts) == Ok::<UrlParts, ErrorKind>(
            UrlParts {
                query: Some(
                    parts.query_text() + seq!['&'] + SIGNATURE_PARAMETER@ + seq!['='] + signature(
                        secret_key,
                        parts.query_text(),
                    ),
                ),
                ..parts
            },
        ),
        signature(secret_key, parts.query_text()).len() == 2 * TAG_BYTES,
        is_plain(signature(secret_key, parts.query_text())),
{
    lemma_signature_fits(secret_key, parts);
    law_signature_is_64_hex_digits(secret_key, parts.query_text());
    law_signature_is_appended_verbatim(secret_key, parts);
}

/// Signing one URL twice under one key, where it can be signed at all, gives
/// two URLs with the same text, and so the same signature.
pub proof fn law_signing_twice_agrees(
    secret_key: Seq<char>,
    url: Url,
    r1: ClientResult<Url>,
    r2: ClientResult<Url>,
)
    requires
        url_parts(url).query_text().len() > 0,
        byte_len(url_parts(url).text()) + SIGNATURE_ROOM <= MAX_URL_BYTES,
        agrees_url(r1, signed_parts(Some(secret_key), url_parts(url))),
        agrees_url(r2, signed_parts(Some(secret_key), url_parts(url))),
    ensures
        r1 matches Ok(a) && r2 matches Ok(b) && url_parts(a) == url_parts(b) && url_parts(
            a,
        ).text() == url_parts(b).text(),
{
    law_signing_succeeds(secret_key, url_parts(url));
}

/// A signed request with at least one parameter, from a client with both
/// keys and a base URL without a query of its own, where the URL can be
/// built and leaves room for the signature: it is the method and the API
/// key, and its query is the query string of the parameters in their order,
/// then `&signature=`, then the 64 digits of the HMAC of that query string
/// under the secret key.
pub proof fn law_signed_request(
    client: Client,
    method: Method,
    path: Seq<char>,
    params: Seq<Pair>,
)
    requires
        params.len() > 0,
        parsed_url(client.spec_base_url()) matches Some(base) && url_parts(base).query_text().len()
            == 0,
        client.target(path, params) matches Some(target) && byte_len(target.text())
            + SIGNATURE_ROOM <= MAX_URL_BYTES,
        client.spec_secret().spec_secret_key() is Some,
        client.spec_secret().spec_api_key() is Some,
    ensures
        client.signed_outcome(method, path, params) == Ok::<RequestView, ErrorKind>(
            RequestView {
                method,
                url: UrlParts {
                    location: with_path(parsed_url(client.spec_base_url())->0, path).location,
                    query: Some(
                        query_string(params) + seq!['&'] + SIGNATURE_PARAMETER@ + seq!['=']
                            + signature(
                            client.spec_secret().spec_secret_key()->0,
                            query_string(params),
                        ),
                    ),
                    fragment: url_parts(parsed_url(client.spec_base_url())->0).fragment,
                },
                api_key: client.spec_secret().spec_api_key(),
            },
        ),
        signature(client.spec_secret().spec_secret_key()->0, query_string(params)).len() == 2
            * TAG_BYTES,
{
    let base = parsed_url(client.spec_base_url())->0;
    let start = with_path(base, path);
    let target = client.target(path, params)->0;
    assert(start.query_text().len() == 0);
    law_query_holds_the_parameters(start, params);
    lemma_query_string_len(params);
    law_signing_succeeds(client.spec_secret().spec_secret_key()->0, target);
}

/// An unsigned request from a client with a base URL without a query of its
/// own, where the URL can be built: it is the method, without an API key,
/// and its query is the query string of the parameters in their order, or
/// what the base URL had where there are none.
pub proof fn law_unsigned_request(
    client: Client,
    method: Method,
    path: Seq<char>,
    params: Seq<Pair>,
)
    requires
        parsed_url(client.spec_base_url()) matches Some(base) && url_parts(base).query_text().len()
            == 0,
        client.target(path, params) is Some,
    ensures
        client.unsigned_outcome(method, path, params) == Ok::<RequestView, ErrorKind>(
            RequestView {
                method,
                url: UrlParts {
                    location: with_path(parsed_url(client.spec_base_url())->0, path).location,
                    query: if params.len() > 0 {
                        Some(query_string(params))
                    } else {
                        url_parts(parsed_url(client.spec_base_url())->0).query
                    },
                    fragment: url_parts(parsed_url(client.spec_base_url())->0).fragment,
                },
                api_key: None,
            },
        ),
{
    let base = parsed_url(client.spec_base_url())->0;
    let start = with_path(base, path);
    law_query_holds_the_parameters(start, params);
}

/// Every optional parameter is one pair where a value is given and none
/// where it is not, whatever the type of the value; a value is written even
/// where it is `false`, zero or empty.
pub proof fn law_optional_is_one_pair_or_none(name: Seq<char>)
    ensures
        optional(name, None) == Seq::<Pair>::empty(),
        optional_text(name, None) == Seq::<Pair>::empty(),
        optional_bool(name, None) == Seq::<Pair>::empty(),
        optional_u8(name, None) == Seq::<Pair>::empty(),
        optional_u16(name, None) == Seq::<Pair>::empty(),
        optional_u128(name, None) == Seq::<Pair>::empty(),
        optional_i64(name, None) == Seq::<Pair>::empty(),
        forall|v: Seq<char>| #[trigger] optional(name, Some(v)) == seq![(name, v)],
        forall|v: &String| #[trigger] optional_text(name, Some(v)) == optional(name, Some(v@)),
        forall|v: bool| #[trigger] optional_bool(name, Some(v)) == optional(name, Some(boolean(v))),
        forall|v: u8|
            #[trigger] optional_u8(name, Some(v)) == optional(name, Some(decimal(v as int))),
        forall|v: u16|
            #[trigger] optional_u16(name, Some(v)) == optional(name, Some(decimal(v as int))),
        forall|v: u128|
            #[trigger] optional_u128(name, Some(v)) == optional(name, Some(decimal(v as int))),
        forall|v: i64|
            #[trigger] optional_i64(name, Some(v)) == optional(name, Some(decimal(v as int))),
{
}

/// Leaving an optional parameter out takes its pair out and nothing else:
/// the parameters with it are those without it and one pair in its place,
/// and the query without it is strictly shorter, whatever the value, the
/// empty one too.
pub proof fn law_absent_optional_shortens_query(
    before: Seq<Pair>,
    name: Seq<char>,
    value: Seq<char>,
    after: Seq<Pair>,
)
    ensures
        before + optional(name, None) + after == before + after,
        before + optional(name, Some(value)) + after == before + seq![(name, value)] + after,
        query_string(before + optional(name, None) + after).len() < query_string(
            before + optional(name, Some(value)) + after,
        ).len(),
{
    assert(before + optional(name, None) + after =~= before + after);
    law_absent_parameter_shortens_query(before, (name, value), after);
}

/// Whether `with` is `without` and one more pair of that name, at some place
/// among the others.
pub open spec fn one_more(without: Seq<Pair>, with: Seq<Pair>, name: Seq<char>) -> bool {
    exists|i: int, value: Seq<char>|
        0 <= i <= without.len() && #[trigger] without.insert(i, (name, value)) == with
}

/// Parameters with one more pair among them give a strictly longer query.
pub proof fn law_one_more_is_longer(without: Seq<Pair>, with: Seq<Pair>, name: Seq<char>)
    requires
        one_more(without, with, name),
    ensures
        query_string(without).len() < query_string(with).len(),
        with.len() == without.len() + 1,
{
    let (i, value) = choose|i: int, value: Seq<char>|
        0 <= i <= without.len() && #[trigger] without.insert(i, (name, value)) == with;
    let before = without.take(i);
    let after = without.skip(i);
    assert(without =~= before + after);
    assert(without.insert(i, (name, value)) =~= before + seq![(name, value)] + after);
    law_absent_parameter_shortens_query(before, (name, value), after);
}

/// Parameters with a pair put between two runs of others are those runs and
/// one more pair.
pub proof fn lemma_one_more(before: Seq<Pair>, name: Seq<char>, value: Seq<char>, after: Seq<Pair>)
    ensures
        one_more(before + after, before + seq![(name, value)] + after, name),
{
    let without = before + after;
    let at = before.len() as int;
    assert(without.insert(at, (name, value)) =~= before + seq![(name, value)] + after);
}

} // verus!

//! The URL of a request, as the `url` crate holds it, and what this library
//! states of it.

use crate::http::error::{ClientError, ErrorKind};
use crate::text::{byte_len, push_char};
use url::{ParseError, Url};
use vstd::prelude::*;
use vstd::utf8::encode_utf8;

verus! {

/// The three parts of a URL's text that requests are built from.
pub struct UrlParts {
    /// Scheme, authority and path.
    pub location: Seq<char>,
    /// The query, without its `?`.
    pub query: Option<Seq<char>>,
    /// The fragment, without its `#`.
    pub fragment: Option<Seq<char>>,
}

/// A name and a value of the query, as the caller gave them.
pub type Pair = (Seq<char>, Seq<char>);

/// `url::Url`, carried through whole: nothing in it is read but through the
/// functions specified below.
#[verifier::external_type_specification]
#[verifier::external_body]
pub struct ExUrl(url::Url);

/// `url::ParseError`, of which only its words are used.
#[verifier::external_type_specification]
#[verifier::external_body]
pub struct ExParseError(url::ParseError);

/// What a URL holds: its text up to the end of the path, its query as
/// `Url::query` gives it, and what stands behind `#`.
pub uninterp spec fn url_parts(u: Url) -> UrlParts;

/// What `Url::parse` makes of a text: the URL, or nothing where it refuses
/// the text.
pub uninterp spec fn parsed_url(input: Seq<char>) -> Option<Url>;

/// The location that `Url::set_path` leaves, given the URL before and the
/// path. It depends on the URL and not on its text alone: a URL remembers
/// where its path begins.
pub uninterp spec fn location_with_path(u: Url, path: Seq<char>) -> Seq<char>;

/// The parts of a URL after its path was set: another location, the same
/// query and fragment.
pub open spec fn with_path(u: Url, path: Seq<char>) -> UrlParts {
    UrlParts { location: location_with_path(u, path), ..url_parts(u) }
}

/// The longest URL text, in bytes, that the `url` crate can hold.
pub const MAX_URL_BYTES: u32 = 0xFFFF_FFFF;

/// Whether a byte stands for itself in `application/x-www-form-urlencoded`:
/// the ASCII letters and digits, and `*`, `-`, `.`, `_`.
pub open spec fn form_unchanged(b: u8) -> bool {
    ||| b == 0x2A
    ||| b == 0x2D
    ||| b == 0x2E
    ||| b == 0x5F
    ||| 0x30 <= b <= 0x39
    ||| 0x41 <= b <= 0x5A
    ||| 0x61 <= b <= 0x7A
}

/// The character of a hexadecimal digit, in upper case.
pub open spec fn upper_hex_char(d: int) -> char {
    if d < 10 {
        crate::text::digit_char(d)
    } else if d == 10 {
        'A'
    } else if d == 11 {
        'B'
    } else if d == 12 {
        'C'
    } else if d == 13 {
        'D'
    } else if d == 14 {
        'E'
    } else {
        'F'
    }
}

/// One byte in `application/x-www-form-urlencoded`: itself, `+` for a space,
/// or `%` and two upper-case hexadecimal digits.
pub open spec fn form_encode_byte(b: u8) -> Seq<char> {
    if form_unchanged(b) {
        seq![b as char]
    } else if b == 0x20 {
        seq!['+']
    } else {
        seq!['%', upper_hex_char(b as int / 16), upper_hex_char(b as int % 16)]
    }
}

/// Bytes in `application/x-www-form-urlencoded`.
pub open spec fn form_encode_bytes(bytes: Seq<u8>) -> Seq<char>
    decreases bytes.len(),
{
    if bytes.len() == 0 {
        Seq::empty()
    } else {
        form_encode_bytes(bytes.drop_last()) + form_encode_byte(bytes.last())
    }
}

/// A text in `application/x-www-form-urlencoded`, by its UTF-8 bytes.
pub open spec fn form_encode(text: Seq<char>) -> Seq<char> {
    form_encode_bytes(encode_utf8(text))
}

/// A name and its value as they stand in a query.
pub open spec fn form_pair(name: Seq<char>, value: Seq<char>) -> Seq<char> {
    form_encode(name) + seq!['='] + form_encode(value)
}

/// A query with one more pair at its end, after `&` where it was not empty.
pub open spec fn form_append(query: Seq<char>, name: Seq<char>, value: Seq<char>) -> Seq<char> {
    if query.len() == 0 {
        form_pair(name, value)
    } else {
        query + seq!['&'] + form_pair(name, value)
    }
}

/// The query that holds these pairs and no others, in their order.
pub open spec fn query_string(pairs: Seq<Pair>) -> Seq<char>
    decreases pairs.len(),
{
    if pairs.len() == 0 {
        Seq::empty()
    } else {
        form_append(query_string(pairs.drop_last()), pairs.last().0, pairs.last().1)
    }
}

impl UrlParts {
    /// The URL as one text.
    pub open spec fn text(self) -> Seq<char> {
        self.location + match self.query {
            Some(q) => seq!['?'] + q,
            None => Seq::empty(),
        } + match self.fragment {
            Some(f) => seq!['#'] + f,
            None => Seq::empty(),
        }
    }

    /// The query, empty where there is none.
    pub open spec fn query_text(self) -> Seq<char> {
        match self.query {
            Some(q) => q,
            None => Seq::empty(),
        }
    }

    /// These parts with one more pair at the end of the query.
    pub open spec fn with_pair(self, name: Seq<char>, value: Seq<char>) -> UrlParts {
        UrlParts { query: Some(form_append(self.query_text(), name, value)), ..self }
    }

    /// Whether a path can be set without the text outgrowing `MAX_URL_BYTES`,
    /// whatever the path holds: a path grows to at most three bytes for each
    /// of its own, and one for a leading slash.
    pub open spec fn path_fits(self, path: Seq<char>) -> bool {
        byte_len(self.text()) + 3 * byte_len(path) + 1 <= MAX_URL_BYTES
    }

    /// Whether a pair can be appended without the text outgrowing
    /// `MAX_URL_BYTES`, whatever the pair holds: name and value grow to at
    /// most three bytes for each of their own, beside `?`, `&` and `=`.
    pub open spec fn pair_fits(self, name: Seq<char>, value: Seq<char>) -> bool {
        byte_len(self.text()) + 3 * byte_len(name) + 3 * byte_len(value) + 3 <= MAX_URL_BYTES
    }

    /// These parts with a query, be it an empty one.
    pub open spec fn with_query(self) -> UrlParts {
        UrlParts { query: Some(self.query_text()), ..self }
    }

    /// Whether an empty query can be added without the text outgrowing
    /// `MAX_URL_BYTES`: where there is a query nothing is added, else a `?`.
    pub open spec fn query_fits(self) -> bool {
        self.query is Some || byte_len(self.text()) + 1 <= MAX_URL_BYTES
    }

    /// These parts with the pairs appended in their order, or nothing where
    /// one of them does not fit.
    pub open spec fn with_pairs(self, pairs: Seq<Pair>) -> Option<UrlParts>
        decreases pairs.len(),
    {
        if pairs.len() == 0 {
            Some(self)
        } else {
            match self.with_pairs(pairs.drop_last()) {
                Some(parts) => if parts.pair_fits(pairs.last().0, pairs.last().1) {
                    Some(parts.with_pair(pairs.last().0, pairs.last().1))
                } else {
                    None
                },
                None => None,
            }
        }
    }
}

/// `Url::parse`: the result is `Ok` exactly where `parsed_url` has a URL for
/// the input, and it is that URL.
pub assume_specification[ Url::parse ](input: &str) -> (r: Result<Url, ParseError>)
    ensures
        match r {
            Ok(u) => parsed_url(input@) == Some(u),
            Err(_) => parsed_url(input@) is None,
        },
;

/// `Url::as_str`: the text of the URL is its location, then `?` and the query
/// where there is one, then `#` and the fragment where there is one.
pub assume_specification<'a>[ Url::as_str ](u: &'a Url) -> (s: &'a str)
    ensures
        s@ == url_parts(*u).text(),
;

/// `Url::query`: the query, or nothing where the URL has none.
pub assume_specification<'a>[ Url::query ](u: &'a Url) -> (q: Option<&'a str>)
    ensures
        match q {
            Some(s) => url_parts(*u).query == Some(s@),
            None => url_parts(*u).query is None,
        },
;

/// `Url::set_path`: the location becomes what `location_with_path` names for
/// the URL as it was and the path; query and fragment stay. It panics where
/// the text would pass `MAX_URL_BYTES`, which `path_fits` rules out.
pub assume_specification[ Url::set_path ](u: &mut Url, path: &str)
    requires
        url_parts(*old(u)).path_fits(path@),
    ensures
        url_parts(*final(u)) == (UrlParts {
            location: location_with_path(*old(u), path@),
            ..url_parts(*old(u))
        }),
;

/// `Url::query_pairs_mut` and `Serializer::append_pair` on what it returns:
/// the pair is appended to the query in `application/x-www-form-urlencoded`,
/// after `&` where the query held something; location and fragment stay.
/// It panics where the text would pass `MAX_URL_BYTES`, which `pair_fits`
/// rules out.
#[verifier::external_body]
fn push_pair(u: &mut Url, name: &str, value: &str)
    requires
        url_parts(*old(u)).pair_fits(name@, value@),
    ensures
        url_parts(*final(u)) == (UrlParts {
            query: Some(form_append(url_parts(*old(u)).query_text(), name@, value@)),
            ..url_parts(*old(u))
        }),
{
    u.query_pairs_mut().append_pair(name, value);
}

/// `Url::query_pairs_mut`, with nothing appended to what it returns: a URL
/// without a query gets an empty one, behind a `?`; location and fragment
/// stay. It panics where the text would pass `MAX_URL_BYTES`.
#[verifier::external_body]
fn open_query(u: &mut Url)
    requires
        url_parts(*old(u)).query is None,
        byte_len(url_parts(*old(u)).text()) + 1 <= MAX_URL_BYTES,
    ensures
        url_parts(*final(u)) == (UrlParts {
            query: Some(Seq::<char>::empty()),
            ..url_parts(*old(u))
        }),
{
    u.query_pairs_mut();
}

fn upper_hex_digit(d: u8) -> (c: char)
    requires
        d < 16,
    ensures
        c == upper_hex_char(d as int),
{
    match d {
        0 => '0',
        1 => '1',
        2 => '2',
        3 => '3',
        4 => '4',
        5 => '5',
        6 => '6',
        7 => '7',
        8 => '8',
        9 => '9',
        10 => 'A',
        11 => 'B',
        12 => 'C',
        13 => 'D',
        14 => 'E',
        _ => 'F',
    }
}

fn is_form_unchanged(b: u8) -> (r: bool)
    ensures
        r == form_unchanged(b),
{
    b == 0x2A || b == 0x2D || b == 0x2E || b == 0x5F || (0x30 <= b && b <= 0x39) || (0x41 <= b
        && b <= 0x5A) || (0x61 <= b && b <= 0x7A)
}

/// A text in `application/x-www-form-urlencoded`, as it stands in a query.
/// The `url` crate encodes what is appended to a URL; this gives the same
/// text for a name or a value alone.
pub fn form_encoded(text: &str) -> (out: String)
    ensures
        out@ == form_encode(text@),
{
    let bytes = text.as_bytes();
    let mut out = String::new();
    let mut i: usize = 0;
    while i < bytes.len()
        invariant
            i <= bytes@.len(),
            out@ == form_encode_bytes(bytes@.take(i as int)),
        decreases bytes@.len() - i,
    {
        let b: u8 = bytes[i];
        let ghost before = out@;
        if is_form_unchanged(b) {
            push_char(&mut out, b as char);
        } else if b == 0x20 {
            push_char(&mut out, '+');
        } else {
            push_char(&mut out, '%');
            push_char(&mut out, upper_hex_digit(b / 16));
            push_char(&mut out, upper_hex_digit(b % 16));
        }
        proof {
            let next = bytes@.take(i + 1);
            assert(next.drop_last() =~= bytes@.take(i as int));
            assert(next.last() == b);
            assert(out@ =~= before + form_encode_byte(b));
        }
        i = i + 1;
    }
    assert(bytes@.take(i as int) =~= bytes@);
    out
}

/// Sets the path of `u`, unless the URL could then be longer than
/// `MAX_URL_BYTES`.
pub fn try_set_path(u: &mut Url, path: &str) -> (r: Result<(), ClientError>)
    ensures
        match r {
            Ok(_) => url_parts(*old(u)).path_fits(path@) && url_parts(*final(u)) == with_path(
                *old(u),
                path@,
            ),
            Err(e) => !url_parts(*old(u)).path_fits(path@) && e.kind()
                == ErrorKind::UrlConstruction && *final(u) == *old(u),
        },
{
    let have: u128 = u.as_str().as_bytes().len() as u128;
    let want: u128 = path.as_bytes().len() as u128;
    if have + 3 * want + 1 <= MAX_URL_BYTES as u128 {
        u.set_path(path);
        Ok(())
    } else {
        Err(ClientError::too_long())
    }
}

/// Appends one pair to the query of `u`, unless the URL could then be longer
/// than `MAX_URL_BYTES`.
pub fn try_append_pair(u: &mut Url, name: &str, value: &str) -> (r: Result<(), ClientError>)
    ensures
        match r {
            Ok(_) => url_parts(*old(u)).pair_fits(name@, value@) && url_parts(*final(u))
                == url_parts(*old(u)).with_pair(name@, value@),
            Err(e) => !url_parts(*old(u)).pair_fits(name@, value@) && e.kind()
                == ErrorKind::UrlConstruction && *final(u) == *old(u),
        },
{
    let have: u128 = u.as_str().as_bytes().len() as u128;
    let name_len: u128 = name.as_bytes().len() as u128;
    let value_len: u128 = value.as_bytes().len() as u128;
    if have + 3 * name_len + 3 * value_len + 3 <= MAX_URL_BYTES as u128 {
        push_pair(u, name, value);
        Ok(())
    } else {
        Err(ClientError::too_long())
    }
}

/// Gives `u` a query where it has none, unless the URL could then be longer
/// than `MAX_URL_BYTES`.
pub fn try_open_query(u: &mut Url) -> (r: Result<(), ClientError>)
    ensures
        match r {
            Ok(_) => url_parts(*old(u)).query_fits() && url_parts(*final(u)) == url_parts(
                *old(u),
            ).with_query(),
            Err(e) => !url_parts(*old(u)).query_fits() && e.kind() == ErrorKind::UrlConstruction
                && *final(u) == *old(u),
        },
{
    if u.query().is_some() {
        return Ok(());
    }
    let have: u128 = u.as_str().as_bytes().len() as u128;
    if have + 1 <= MAX_URL_BYTES as u128 {
        open_query(u);
        Ok(())
    } else {
        Err(ClientError::too_long())
    }
}

} // verus!

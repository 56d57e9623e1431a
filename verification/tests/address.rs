use binance_client::http::address::{
    try_append_pair, try_open_query, try_set_path, MAX_URL_BYTES,
};
use url::{Position, Url};

fn parts(url: &Url) -> (String, Option<String>, Option<String>) {
    (
        url[..Position::AfterPath].to_string(),
        url.query().map(str::to_string),
        url.fragment().map(str::to_string),
    )
}

fn joined(url: &Url) -> String {
    let (location, query, fragment) = parts(url);
    let mut text = location;
    if let Some(q) = query {
        text.push('?');
        text.push_str(&q);
    }
    if let Some(f) = fragment {
        text.push('#');
        text.push_str(&f);
    }
    text
}

const SAMPLES: [&str; 8] = [
    "https://api.binance.com",
    "https://api.binance.com/api/v3/order?symbol=BTCUSDT",
    "https://api.binance.com/?",
    "https://api.binance.com/#",
    "https://api.binance.com/a?b#c",
    "http://user:pw@127.0.0.1:8080/x/y?z=1&w=2#frag?not=query",
    "https://EXAMPLE.com/é?q=é#é",
    "data:text/plain,Hello?World#end",
];

#[test]
fn the_text_of_a_url_is_its_parts_joined() {
    for sample in SAMPLES {
        let url = Url::parse(sample).unwrap();
        assert_eq!(url.as_str(), joined(&url));
    }
}

#[test]
fn a_new_path_keeps_query_and_fragment() {
    for sample in SAMPLES {
        let mut url = Url::parse(sample).unwrap();
        let (_, query, fragment) = parts(&url);
        assert!(try_set_path(&mut url, "/api/v3/some path").is_ok());
        let (_, query_after, fragment_after) = parts(&url);
        assert_eq!(query_after, query);
        assert_eq!(fragment_after, fragment);
        assert_eq!(url.as_str(), joined(&url));
    }
    let mut url = Url::parse("https://api.binance.com/old?x=1#f").unwrap();
    assert!(try_set_path(&mut url, "/api/v3/order").is_ok());
    assert_eq!(url.as_str(), "https://api.binance.com/api/v3/order?x=1#f");
    assert!(try_set_path(&mut url, "").is_ok());
    assert_eq!(url.as_str(), "https://api.binance.com/?x=1#f");
}

#[test]
fn a_new_path_goes_by_the_url_and_not_by_its_text() {
    let mut made = Url::parse("foo:/a").unwrap();
    assert!(try_set_path(&mut made, "//x/y").is_ok());
    let mut parsed = Url::parse("foo://x/y").unwrap();
    assert_eq!(made.as_str(), parsed.as_str());
    assert_eq!(parts(&made), parts(&parsed));
    assert!(try_set_path(&mut made, "/z").is_ok());
    assert!(try_set_path(&mut parsed, "/z").is_ok());
    assert_eq!(made.as_str(), "foo:/z");
    assert_eq!(parsed.as_str(), "foo://x/z");
}

#[test]
fn two_parses_of_one_text_take_a_new_path_alike() {
    for sample in SAMPLES {
        let mut first = Url::parse(sample).unwrap();
        let mut second = Url::parse(sample).unwrap();
        assert!(try_set_path(&mut first, "/api/v3/order").is_ok());
        assert!(try_set_path(&mut second, "/api/v3/order").is_ok());
        assert_eq!(first.as_str(), second.as_str());
    }
}

#[test]
fn a_new_pair_keeps_location_and_fragment() {
    for sample in SAMPLES {
        let mut url = Url::parse(sample).unwrap();
        let (location, query, fragment) = parts(&url);
        assert!(try_append_pair(&mut url, "na me", "va&lue").is_ok());
        let (location_after, query_after, fragment_after) = parts(&url);
        assert_eq!(location_after, location);
        assert_eq!(fragment_after, fragment);
        let want = match query {
            Some(q) if !q.is_empty() => format!("{}&na+me=va%26lue", q),
            _ => "na+me=va%26lue".to_string(),
        };
        assert_eq!(query_after, Some(want));
        assert_eq!(url.as_str(), joined(&url));
    }
}

#[test]
fn an_opened_query_keeps_everything_else() {
    for sample in SAMPLES {
        let mut url = Url::parse(sample).unwrap();
        let (location, query, fragment) = parts(&url);
        assert!(try_open_query(&mut url).is_ok());
        let (location_after, query_after, fragment_after) = parts(&url);
        assert_eq!(location_after, location);
        assert_eq!(fragment_after, fragment);
        assert_eq!(query_after, Some(query.unwrap_or_default()));
        assert_eq!(url.as_str(), joined(&url));
    }
    let mut url = Url::parse("https://api.binance.com/x#f").unwrap();
    assert!(try_open_query(&mut url).is_ok());
    assert_eq!(url.as_str(), "https://api.binance.com/x?#f");
    assert!(try_open_query(&mut url).is_ok());
    assert_eq!(url.as_str(), "https://api.binance.com/x?#f");
}

#[test]
fn pairs_are_joined_by_ampersands() {
    let mut url = Url::parse("https://api.binance.com/x").unwrap();
    assert_eq!(url.query(), None);
    assert!(try_append_pair(&mut url, "a", "1").is_ok());
    assert_eq!(url.query(), Some("a=1"));
    assert!(try_append_pair(&mut url, "", "").is_ok());
    assert_eq!(url.query(), Some("a=1&="));
    assert!(try_append_pair(&mut url, "b", "2").is_ok());
    assert_eq!(url.query(), Some("a=1&=&b=2"));
}

#[test]
fn the_limit_is_that_of_the_url_crate() {
    assert_eq!(MAX_URL_BYTES, u32::MAX);
}

use crate::text::{decimal, decimal_i64, push_char};
use vstd::prelude::*;
use vstd::string::{to_string_from_display_ensures, StringExecFns};

verus! {

/// The error envelope of the exchange: a numeric code and a message.
#[derive(Debug)]
pub struct BinanceError {
    code: i64,
    msg: String,
}

/// What a call can fail with.
#[derive(Debug)]
pub enum ClientError {
    /// A credential that the call needs is not configured; holds its name.
    Authorization(String),
    /// The body of a successful response did not have the expected shape.
    SerdeJson(String),
    /// The base URL, or the URL built from it, is not one that can be used.
    UrlParse(String),
    /// The transport failed, or a failure response carried no readable
    /// error envelope.
    Request(String),
    /// The exchange reported an error of its own.
    Binance(BinanceError),
    /// A request without any query parameter was to be signed.
    EmptyQuery,
}

/// What is said of a URL that would be longer than the `url` crate holds.
pub const TOO_LONG: &'static str = "URLs more than 4 GB are not supported";

/// The kinds of failure, without the texts that only describe them.
pub enum ErrorKind {
    MissingCredential(Seq<char>),
    EmptyQuery,
    UrlConstruction,
    Transport,
    Serialization,
    Remote(int, Seq<char>),
}

impl BinanceError {
    pub closed spec fn spec_code(&self) -> i64 {
        self.code
    }

    pub closed spec fn spec_msg(&self) -> Seq<char> {
        self.msg@
    }

    pub fn new(code: i64, msg: String) -> (e: Self)
        ensures
            e.spec_code() == code,
            e.spec_msg() == msg@,
    {
        BinanceError { code, msg }
    }

    #[verifier::when_used_as_spec(spec_code)]
    pub fn code(&self) -> (c: i64)
        ensures
            c == self.spec_code(),
    {
        self.code
    }

    pub fn msg(&self) -> (m: &String)
        ensures
            m@ == self.spec_msg(),
    {
        &self.msg
    }

    /// The envelope in words: the code in decimal, a space, the message.
    pub open spec fn text(&self) -> Seq<char> {
        decimal(self.spec_code() as int) + seq![' '] + self.spec_msg()
    }

    /// The envelope in words.
    pub fn to_string(&self) -> (s: String)
        ensures
            s@ == self.text(),
    {
        let mut out = decimal_i64(self.code);
        push_char(&mut out, ' ');
        out.append(self.msg.as_str());
        assert(out@ =~= self.text());
        out
    }
}

impl ClientError {
    /// The error for a URL that the `url` crate refused, with its words.
    pub fn from_url_error(e: url::ParseError) -> (error: Self)
        ensures
            error matches ClientError::UrlParse(words) && to_string_from_display_ensures::<
                url::ParseError,
            >(&e, words),
            error.kind() == ErrorKind::UrlConstruction,
    {
        ClientError::UrlParse(e.to_string())
    }

    /// The error for a value that `serde_json` could not write, with its
    /// words.
    pub fn from_json_error(e: serde_json::Error) -> (error: Self)
        ensures
            error matches ClientError::SerdeJson(words) && to_string_from_display_ensures::<
                serde_json::Error,
            >(&e, words),
            error.kind() == ErrorKind::Serialization,
    {
        ClientError::SerdeJson(e.to_string())
    }

    /// The error for a URL that would be longer than the `url` crate holds.
    pub fn too_long() -> (error: Self)
        ensures
            error matches ClientError::UrlParse(words) && words@ == TOO_LONG@,
            error.kind() == ErrorKind::UrlConstruction,
    {
        ClientError::UrlParse(TOO_LONG.to_string())
    }

    /// The error in words: the text that it holds, the envelope in words, or
    /// `Empty Query`.
    pub open spec fn text(&self) -> Seq<char> {
        match self {
            ClientError::Authorization(which) => which@,
            ClientError::SerdeJson(reason) => reason@,
            ClientError::UrlParse(reason) => reason@,
            ClientError::Request(reason) => reason@,
            ClientError::Binance(e) => e.text(),
            ClientError::EmptyQuery => "Empty Query"@,
        }
    }

    /// The error in words.
    pub fn to_string(&self) -> (s: String)
        ensures
            s@ == self.text(),
    {
        match self {
            ClientError::Authorization(which) => which.clone(),
            ClientError::SerdeJson(reason) => reason.clone(),
            ClientError::UrlParse(reason) => reason.clone(),
            ClientError::Request(reason) => reason.clone(),
            ClientError::Binance(e) => e.to_string(),
            ClientError::EmptyQuery => "Empty Query".to_string(),
        }
    }

    /// The kind of failure that this error stands for.
    pub open spec fn kind(&self) -> ErrorKind {
        match self {
            ClientError::Authorization(which) => ErrorKind::MissingCredential(which@),
            ClientError::SerdeJson(_) => ErrorKind::Serialization,
            ClientError::UrlParse(_) => ErrorKind::UrlConstruction,
            ClientError::Request(_) => ErrorKind::Transport,
            ClientError::Binance(e) => ErrorKind::Remote(e.spec_code() as int, e.spec_msg()),
            ClientError::EmptyQuery => ErrorKind::EmptyQuery,
        }
    }
}

} // verus!

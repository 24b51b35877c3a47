//! The parts of a URL that name an endpoint.
use url::Url;
use vstd::prelude::*;

verus! {

/// What is read of a URL: the scheme, the host, and the port if the URL names one.
pub struct UrlParts {
    pub scheme: String,
    pub host: Option<String>,
    pub port: Option<u16>,
}

/// The parts of a URL as plain values.
pub struct UrlView {
    pub scheme: Seq<char>,
    pub host: Option<Seq<char>>,
    pub port: Option<u16>,
}

impl View for UrlParts {
    type V = UrlView;

    open spec fn view(&self) -> UrlView {
        UrlView {
            scheme: self.scheme@,
            host: match self.host {
                Some(host) => Some(host@),
                None => None,
            },
            port: self.port,
        }
    }
}

/// What `url::Url::parse` makes of a text: the scheme, host and port of the URL, or the text of
/// the error.
pub uninterp spec fn parsed_url(text: Seq<char>) -> Result<UrlView, Seq<char>>;

/// `url::Url::parse`: reads an absolute URL. What comes back are the texts and the number that
/// `Url::scheme`, `Url::host` and `Url::port` give of it, or the text of the parse error; they
/// depend on the input alone and are named by [`parsed_url`].
#[verifier::external_body]
pub(crate) fn parse_url(text: &str) -> (r: Result<UrlParts, String>)
    ensures
        match r {
            Ok(parts) => parsed_url(text@) == Ok::<UrlView, Seq<char>>(parts@),
            Err(error) => parsed_url(text@) == Err::<UrlView, Seq<char>>(error@),
        },
{
    match Url::parse(text) {
        Ok(url) => Ok(
            UrlParts {
                scheme: url.scheme().to_owned(),
                host: url.host().map(|host| host.to_string()),
                port: url.port(),
            },
        ),
        Err(error) => Err(error.to_string()),
    }
}

} // verus!

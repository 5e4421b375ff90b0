use vstd::prelude::*;

verus! {

/// Whether `hyper::Uri` accepts a text as a URI.
pub uninterp spec fn uri_accepts(text: Seq<char>) -> bool;

/// Relies on `hyper::Uri`'s `FromStr` impl: whether a text parses as a URI
/// depends on the text alone.
#[verifier::external_body]
fn parses_as_uri(text: &str) -> (r: bool)
    ensures
        r == uri_accepts(text@),
{
    text.parse::<hyper::Uri>().is_ok()
}

/// The upstream origin: scheme and authority (host and optional port), no path.
pub struct UpstreamBase {
    pub scheme: String,
    pub authority: String,
}

/// Why a configured upstream base cannot be used.
#[derive(Debug, PartialEq, Eq, Structural)]
pub enum ConfigError {
    MissingScheme,
    MissingAuthority,
}

/// The forwarded URI could not be formed.
#[derive(Debug, PartialEq, Eq, Structural)]
pub enum UriError {
    UriConstruction,
}

/// The text of the URI that a request for `path` and `query` is forwarded to.
pub open spec fn forwarded_uri_spec(
    scheme: Seq<char>,
    authority: Seq<char>,
    path: Seq<char>,
    query: Option<Seq<char>>,
) -> Seq<char> {
    let prefix = scheme + seq![':', '/', '/'] + authority + path;
    match query {
        Some(q) => prefix + seq!['?'] + q,
        None => prefix,
    }
}

impl UpstreamBase {
    /// Builds the base from the scheme and authority of a parsed upstream URL.
    pub fn new(scheme: Option<String>, authority: Option<String>) -> (r: Result<
        UpstreamBase,
        ConfigError,
    >)
        ensures
            scheme is None ==> r == Err::<UpstreamBase, _>(ConfigError::MissingScheme),
            scheme is Some && authority is None ==> r == Err::<UpstreamBase, _>(
                ConfigError::MissingAuthority,
            ),
            scheme is Some && authority is Some ==> (r matches Ok(b) && b.scheme@ == scheme->0@
                && b.authority@ == authority->0@),
    {
        match scheme {
            None => Err(ConfigError::MissingScheme),
            Some(s) => match authority {
                None => Err(ConfigError::MissingAuthority),
                Some(a) => Ok(UpstreamBase { scheme: s, authority: a }),
            },
        }
    }

    /// The forwarded URI text: this base's scheme and authority followed by the
    /// incoming path and, when there is one, `?` and the incoming query.
    pub fn forwarded_uri_text(&self, path: &str, query: Option<&str>) -> (r: String)
        ensures
            r@ == forwarded_uri_spec(
                self.scheme@,
                self.authority@,
                path@,
                match query {
                    Some(q) => Some(q@),
                    None => None,
                },
            ),
    {
        proof {
            reveal_strlit("://");
            reveal_strlit("?");
        }
        let mut text = self.scheme.clone();
        text.append("://");
        text.append(self.authority.as_str());
        text.append(path);
        match query {
            Some(q) => {
                text.append("?");
                text.append(q);
            },
            None => {},
        }
        text
    }

    /// Builds the forwarded URI, failing when the resulting text is not a URI.
    pub fn construct_uri(&self, path: &str, query: Option<&str>) -> (r: Result<String, UriError>)
        ensures
            ({
                let text = forwarded_uri_spec(
                    self.scheme@,
                    self.authority@,
                    path@,
                    match query {
                        Some(q) => Some(q@),
                        None => None,
                    },
                );
                &&& uri_accepts(text) ==> (r matches Ok(s) && s@ == text)
                &&& !uri_accepts(text) ==> r == Err::<String, _>(UriError::UriConstruction)
            }),
    {
        let text = self.forwarded_uri_text(path, query);
        if parses_as_uri(text.as_str()) {
            Ok(text)
        } else {
            Err(UriError::UriConstruction)
        }
    }
}

} // verus!

//! What the `http` crate's URI parser makes of a text.

use vstd::prelude::*;

verus! {

/// The outcome of parsing `text` as a URI: on success the host of the URI, `None` where it
/// names no authority; on failure what the parser says of the text.
pub uninterp spec fn uri_parse(text: Seq<char>) -> Result<Option<Seq<char>>, Seq<char>>;

/// Whether `text` parses as a URI.
pub open spec fn is_uri(text: Seq<char>) -> bool {
    uri_parse(text) is Ok
}

/// `http::Uri::try_from` on a `&str`, through `hyper`'s name for the type, followed by
/// `Uri::host` on what it built, or by the `Display` text of its `InvalidUri` error. The
/// parser looks at nothing but the text, so the outcome is that of [`uri_parse`].
#[verifier::external_body]
pub(crate) fn parse_uri(text: &str) -> (parsed: Result<Option<String>, String>)
    ensures
        match parsed {
            Ok(Some(host)) => uri_parse(text@) == Ok::<Option<Seq<char>>, Seq<char>>(
                Some(host@),
            ),
            Ok(None) => uri_parse(text@) == Ok::<Option<Seq<char>>, Seq<char>>(None),
            Err(message) => uri_parse(text@) == Err::<Option<Seq<char>>, Seq<char>>(message@),
        },
{
    match hyper::Uri::try_from(text) {
        Ok(uri) => Ok(uri.host().map(|host| host.to_owned())),
        Err(error) => Err(error.to_string()),
    }
}

} // verus!

use vstd::prelude::*;

verus! {

/// An absolute URL as the URL parser serialises it, with its path.
#[derive(Debug, Clone)]
pub struct ParsedUrl {
    /// The whole serialisation.
    pub href: String,
    /// The path component. For a `place:` URL this holds the query's
    /// parameters, as in `place:folder=123`.
    pub path: String,
}

/// What `url::Url::parse` makes of `s`: the serialisation and path of the
/// parsed URL, or nothing when `s` is not an absolute URL.
pub uninterp spec fn parsed_url_of(s: Seq<char>) -> Option<(Seq<char>, Seq<char>)>;

/// The name/value pairs, percent-decoded, that
/// `application/x-www-form-urlencoded` reads from `s`.
pub uninterp spec fn form_pairs_of(s: Seq<char>) -> Seq<(Seq<char>, Seq<char>)>;

/// The `application/x-www-form-urlencoded` serialisation of `pairs`.
pub uninterp spec fn form_encoding_of(pairs: Seq<(Seq<char>, Seq<char>)>) -> Seq<char>;

/// The characters of each name and value.
pub open spec fn pairs_view(v: Seq<(String, String)>) -> Seq<(Seq<char>, Seq<char>)> {
    v.map_values(|p: (String, String)| (p.0@, p.1@))
}

/// Relies on `url::Url::parse`, `Url::as_str` and `Url::path`: the parse
/// result depends on the input alone.
#[verifier::external_body]
pub(crate) fn parse_url(s: &str) -> (r: Option<ParsedUrl>)
    ensures
        match r {
            Some(u) => parsed_url_of(s@) == Some((u.href@, u.path@)),
            None => parsed_url_of(s@).is_none(),
        },
{
    match url::Url::parse(s) {
        Ok(u) => Some(ParsedUrl { href: u.as_str().to_owned(), path: u.path().to_owned() }),
        Err(_) => None,
    }
}

/// Relies on `url::form_urlencoded::parse`, which reads name/value pairs
/// in order from the input alone.
#[verifier::external_body]
pub(crate) fn decode_form(s: &str) -> (r: Vec<(String, String)>)
    ensures
        pairs_view(r@) == form_pairs_of(s@),
{
    url::form_urlencoded::parse(s.as_bytes()).map(|(k, v)| (k.into_owned(), v.into_owned())).collect()
}

/// Relies on `url::form_urlencoded::Serializer`, which writes the pairs in
/// order, from the pairs alone.
#[verifier::external_body]
pub(crate) fn encode_form(pairs: &Vec<(String, String)>) -> (r: String)
    ensures
        r@ == form_encoding_of(pairs_view(pairs@)),
{
    url::form_urlencoded::Serializer::new(String::new()).extend_pairs(pairs.iter()).finish()
}

} // verus!

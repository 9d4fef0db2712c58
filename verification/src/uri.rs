//! URI references as plain text with the parts that signing reads, and URI templates.

use crate::headers::pairs_of;
use vstd::prelude::*;

verus! {

/// The host and the path with query that `http` reads from `text`, each where the reference has
/// one; `None` where `http` does not take `text` for a URI reference.
pub uninterp spec fn uri_parts(text: Seq<char>) -> Option<(Option<Seq<char>>, Option<Seq<char>>)>;

/// What a URI template expands to once each name of `scalars` is set to its value and the name
/// `list_name` is set to the associative array `list`.
pub uninterp spec fn template_expansion(
    template: Seq<char>,
    scalars: Seq<(Seq<char>, Seq<char>)>,
    list_name: Seq<char>,
    list: Seq<(Seq<char>, Seq<char>)>,
) -> Seq<char>;

/// `http`'s error for text that is no URI reference.
#[verifier::external_type_specification]
#[verifier::external_body]
pub struct ExInvalidUri(http::uri::InvalidUri);

/// The characters of an optional text.
pub open spec fn text_of(value: Option<String>) -> Option<Seq<char>> {
    match value {
        Some(t) => Some(t@),
        None => None,
    }
}

/// `http::Uri`'s `FromStr`, then its `host` and `path_and_query`: the parts that [`uri_parts`]
/// names for this text, and an error exactly where it names none.
#[verifier::external_body]
fn read_uri(text: &str) -> (r: Result<(Option<String>, Option<String>), http::uri::InvalidUri>)
    ensures
        match r {
            Ok(parts) => uri_parts(text@) == Some((text_of(parts.0), text_of(parts.1))),
            Err(_) => uri_parts(text@) is None,
        },
{
    let uri = text.parse::<http::Uri>()?;
    Ok((uri.host().map(|h| h.to_string()), uri.path_and_query().map(|p| p.as_str().to_string())))
}

/// A template that the expansion takes without slicing a value: ASCII only, and no `:`, so no
/// variable carries a length prefix.
pub open spec fn plain_template(template: Seq<char>) -> bool {
    forall|i: int| 0 <= i < template.len() ==> plain_char(#[trigger] template[i])
}

/// An ASCII character other than `:`.
pub open spec fn plain_char(c: char) -> bool {
    (c as u32) < 128 && c != ':'
}

/// `uritemplate::UriTemplate`: `new` on the template, `set` for each scalar and for the list,
/// then `build`. The result is the text that [`template_expansion`] names.
#[verifier::external_body]
fn expand(
    template: &str,
    scalars: &Vec<(String, String)>,
    list_name: &str,
    list: &Vec<(String, String)>,
) -> (r: String)
    requires
        plain_template(template@),
    ensures
        r@ == template_expansion(template@, pairs_of(scalars@), list_name@, pairs_of(list@)),
{
    let mut expansion = uritemplate::UriTemplate::new(template);
    for (name, value) in scalars {
        expansion.set(name, value.as_str());
    }
    expansion.set(list_name, list.clone());
    expansion.build()
}

/// Whether `template` is a [`plain_template`].
pub fn is_plain_template(template: &str) -> (r: bool)
    ensures
        r == plain_template(template@),
{
    let len = template.unicode_len();
    let mut i: usize = 0;
    while i < len
        invariant
            len == template@.len(),
            0 <= i <= len,
            forall|k: int| 0 <= k < i ==> plain_char(#[trigger] template@[k]),
        decreases len - i,
    {
        let c = template.get_char(i);
        if c as u32 >= 128 || c == ':' {
            assert(!plain_char(template@[i as int]));
            return false;
        }
        i = i + 1;
    }
    true
}

/// Expands a URI template. `None` where the template is not a [`plain_template`].
pub fn expand_template(
    template: &str,
    scalars: &Vec<(String, String)>,
    list_name: &str,
    list: &Vec<(String, String)>,
) -> (r: Option<String>)
    ensures
        match r {
            Some(text) => plain_template(template@) && text@ == template_expansion(
                template@,
                pairs_of(scalars@),
                list_name@,
                pairs_of(list@),
            ),
            None => !plain_template(template@),
        },
{
    if is_plain_template(template) {
        Some(expand(template, scalars, list_name, list))
    } else {
        None
    }
}

/// The reference at `base` followed by the expansion of `template`: `None` where the template
/// is not a [`plain_template`], or where the text is no URI reference.
pub open spec fn address_of(
    base: Seq<char>,
    template: Seq<char>,
    scalars: Seq<(Seq<char>, Seq<char>)>,
    list_name: Seq<char>,
    list: Seq<(Seq<char>, Seq<char>)>,
) -> Option<UriView> {
    let text = base + template_expansion(template, scalars, list_name, list);
    if plain_template(template) {
        match uri_parts(text) {
            Some((host, path_and_query)) => Some(UriView { text, host, path_and_query }),
            None => None,
        }
    } else {
        None
    }
}

/// What a [`Uri`] holds.
pub struct UriView {
    pub text: Seq<char>,
    pub host: Option<Seq<char>>,
    pub path_and_query: Option<Seq<char>>,
}

/// A URI reference: its text, and the host and the path with query found in it.
#[derive(Debug)]
pub struct Uri {
    text: String,
    host: Option<String>,
    path_and_query: Option<String>,
}

impl View for Uri {
    type V = UriView;

    closed spec fn view(&self) -> UriView {
        UriView {
            text: self.text@,
            host: text_of(self.host),
            path_and_query: text_of(self.path_and_query),
        }
    }
}

impl UriView {
    /// The reference `/`: no host, and the path `/`.
    pub open spec fn root() -> UriView {
        UriView { text: "/"@, host: None, path_and_query: Some("/"@) }
    }

    /// The host followed by the path with query: what a token is bound to.
    pub open spec fn target(self) -> Option<Seq<char>> {
        match (self.host, self.path_and_query) {
            (Some(host), Some(path)) => Some(host + path),
            _ => None,
        }
    }
}

impl Uri {
    /// The reference `/`.
    pub fn root() -> (r: Uri)
        ensures
            r@ == UriView::root(),
    {
        Uri { text: "/".to_owned(), host: None, path_and_query: Some("/".to_owned()) }
    }

    /// Reads a URI reference.
    pub fn parse(text: &str) -> (r: Result<Uri, http::uri::InvalidUri>)
        ensures
            match r {
                Ok(uri) => uri@.text == text@ && uri_parts(text@) == Some(
                    (uri@.host, uri@.path_and_query),
                ),
                Err(_) => uri_parts(text@) is None,
            },
    {
        match read_uri(text) {
            Ok(parts) => Ok(Uri { text: text.to_owned(), host: parts.0, path_and_query: parts.1 }),
            Err(e) => Err(e),
        }
    }

    /// The text of the reference.
    pub fn as_str(&self) -> (r: &str)
        ensures
            r@ == self@.text,
    {
        self.text.as_str()
    }

    /// The host, where the reference has an authority.
    pub fn host(&self) -> (r: Option<&str>)
        ensures
            match r {
                Some(h) => self@.host == Some(h@),
                None => self@.host is None,
            },
    {
        match &self.host {
            Some(h) => Some(h.as_str()),
            None => None,
        }
    }

    /// The path with the query, where the reference has them.
    pub fn path_and_query(&self) -> (r: Option<&str>)
        ensures
            match r {
                Some(p) => self@.path_and_query == Some(p@),
                None => self@.path_and_query is None,
            },
    {
        match &self.path_and_query {
            Some(p) => Some(p.as_str()),
            None => None,
        }
    }

    /// The host followed by the path with query, where the reference has both.
    pub fn target(&self) -> (r: Option<String>)
        ensures
            text_of(r) == self@.target(),
    {
        match (&self.host, &self.path_and_query) {
            (Some(host), Some(path)) => Some(host.clone().concat(path.as_str())),
            _ => None,
        }
    }
}

/// The reference at `base` followed by the expansion of `template`.
pub fn resolve(
    base: &str,
    template: &str,
    scalars: &Vec<(String, String)>,
    list_name: &str,
    list: &Vec<(String, String)>,
) -> (r: Option<Uri>)
    ensures
        match address_of(base@, template@, pairs_of(scalars@), list_name@, pairs_of(list@)) {
            Some(uri) => r matches Some(found) && found@ == uri,
            None => r is None,
        },
{
    match expand_template(template, scalars, list_name, list) {
        Some(path) => {
            let text = base.to_owned().concat(path.as_str());
            match Uri::parse(text.as_str()) {
                Ok(uri) => Some(uri),
                Err(_) => None,
            }
        },
        None => None,
    }
}

impl Clone for Uri {
    fn clone(&self) -> (r: Uri)
        ensures
            r@ == self@,
    {
        Uri {
            text: self.text.clone(),
            host: match &self.host {
                Some(h) => Some(h.clone()),
                None => None,
            },
            path_and_query: match &self.path_and_query {
                Some(p) => Some(p.clone()),
                None => None,
            },
        }
    }
}

} // verus!

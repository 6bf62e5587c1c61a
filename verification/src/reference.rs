//! References to images in a registry, and the URLs of the registry's API,
//! which the `url` crate parses.

use vstd::prelude::*;
use vstd::string::*;
use crate::emit::{object_json, text_list_json, text_list_value, Fields};
use crate::error::{invalid, violation, Rule, ValidationError, Violation};
use crate::fields::{
    deep, fail, required, required_text, required_text_list, text_decoder, text_list_decoder,
};
use crate::json::{distinct_keys, json_of, lookup, text_value, value_entries, Json};
use crate::text::{owned, spelled};

verus! {

#[verifier::external_type_specification]
#[verifier::external_body]
pub struct ExUrl(url::Url);

#[verifier::external_type_specification]
#[verifier::external_body]
pub struct ExUrlParseError(url::ParseError);

/// The serialization of a URL.
pub uninterp spec fn url_text(u: url::Url) -> Seq<char>;

/// What `Url::parse` reads from a text: the serialization of the URL, or
/// `None` where the text is no absolute URL.
pub uninterp spec fn url_parsed(text: Seq<char>) -> Option<Seq<char>>;

/// `Url::parse`: reads an absolute URL.
#[verifier::external_body]
pub(crate) fn parse_url(text: &str) -> (r: Result<url::Url, url::ParseError>)
    ensures
        match r {
            Ok(u) => url_parsed(text@) == Some(url_text(u)),
            Err(_) => url_parsed(text@) is None,
        },
{
    url::Url::parse(text)
}

/// `Url::as_str`: the serialization of the URL.
#[verifier::external_body]
pub(crate) fn url_as_str(u: &url::Url) -> (r: &str)
    ensures
        r@ == url_text(*u),
{
    u.as_str()
}

/// Why an image reference gives no URL.
#[derive(Debug)]
pub enum ImageRefError {
    /// The text built from the reference is no absolute URL.
    UrlParse(url::ParseError),
}

/// The answer of a registry that lists the tags of a repository.
#[derive(Clone, Debug, PartialEq, Eq)]
pub struct ContentDiscoveryResponse {
    pub name: String,
    pub tags: Vec<String>,
}

/// What the answer of a registry holds.
pub struct DiscoveryModel {
    pub name: Seq<char>,
    pub tags: Seq<Seq<char>>,
}

impl DeepView for ContentDiscoveryResponse {
    type V = DiscoveryModel;

    open spec fn deep_view(&self) -> DiscoveryModel {
        DiscoveryModel { name: self.name@, tags: self.tags.deep_view() }
    }
}

/// What a JSON value stands for as the answer of a registry: an object
/// with a name and a list of tags. Other fields are passed over, and no rule
/// of the image format is held to. A value that is no object fails at the
/// field of the empty name.
pub open spec fn discovery_of(j: Json) -> Result<DiscoveryModel, Violation> {
    match j {
        Json::Object(es) => {
            let name = required(lookup(es, "name"@), "name"@, text_decoder("name"@));
            let tags = required(lookup(es, "tags"@), "tags"@, text_list_decoder("tags"@));
            if name is Err {
                fail(name)
            } else if tags is Err {
                fail(tags)
            } else {
                Ok(DiscoveryModel { name: name->Ok_0, tags: tags->Ok_0 })
            }
        },
        _ => Err(violation(Rule::WrongType, ""@)),
    }
}

/// The fields that the answer of a registry is written with.
pub open spec fn discovery_fields(d: DiscoveryModel) -> Seq<(Seq<char>, Option<Json>)> {
    seq![("name"@, Some(Json::Text(d.name))), ("tags"@, Some(text_list_json(d.tags)))]
}

/// The JSON form of the answer of a registry.
pub open spec fn discovery_json(d: DiscoveryModel) -> Json {
    object_json(discovery_fields(d))
}

/// The fields of the answer of a registry have distinct names.
pub proof fn lemma_discovery_keys(x: DiscoveryModel)
    ensures
        distinct_keys(discovery_fields(x)),
{
    reveal_strlit("name");
    reveal_strlit("tags");
    assert(spelled("name"@, 4, 'n', 'a'));
    assert(spelled("tags"@, 4, 't', 'a'));
}

impl ContentDiscoveryResponse {
    /// Writes the answer of a registry as a JSON value.
    pub fn to_json(&self) -> (r: serde_json::Value)
        ensures
            json_of(r) == discovery_json(self.deep_view()),
    {
        let fields = Fields::new().put("name", text_value(self.name.clone())).put(
            "tags",
            text_list_value(&self.tags),
        );
        proof {
            lemma_discovery_keys(self.deep_view());
            assert(fields.table() =~= discovery_fields(self.deep_view()));
        }
        fields.finish()
    }

    /// Reads the answer of a registry from a JSON value.
    pub fn from_json(v: &serde_json::Value) -> (r: Result<ContentDiscoveryResponse, ValidationError>)
        ensures
            deep(r) == discovery_of(json_of(*v)),
    {
        let items = match value_entries(v) {
            Some(items) => items,
            None => {
                return Err(invalid(Rule::WrongType, ""));
            },
        };
        let name = match required_text(&items, "name") {
            Ok(x) => x,
            Err(e) => {
                return Err(e);
            },
        };
        let tags = match required_text_list(&items, "tags") {
            Ok(x) => x,
            Err(e) => {
                return Err(e);
            },
        };
        Ok(ContentDiscoveryResponse { name, tags })
    }
}

/// An image in a registry: the host, the repository name, and whether the
/// registry is reached over TLS.
#[derive(Debug)]
pub struct ImageRef {
    use_ssl: bool,
    host: String,
    name: String,
}

/// The text of the registry API's base for an image: `scheme://host/v2/name`.
pub open spec fn v2_text(use_ssl: bool, host: Seq<char>, name: Seq<char>) -> Seq<char> {
    (if use_ssl {
        "https"@
    } else {
        "http"@
    }) + "://"@ + host + "/v2/"@ + name
}

impl ImageRef {
    /// The host, as given.
    pub closed spec fn host(&self) -> String {
        self.host
    }

    /// The repository name, as given.
    pub closed spec fn name(&self) -> String {
        self.name
    }

    /// Whether the registry is reached over TLS.
    pub closed spec fn use_ssl(&self) -> bool {
        self.use_ssl
    }

    /// A reference to the repository `name` at `host`.
    pub fn new(host: String, name: String, use_ssl: bool) -> (r: ImageRef)
        ensures
            r.host() == host,
            r.name() == name,
            r.use_ssl() == use_ssl,
    {
        ImageRef { use_ssl, host, name }
    }

    /// `host/name`.
    pub fn to_string(&self) -> (r: String)
        ensures
            r@ == self.host()@ + "/"@ + self.name()@,
    {
        let mut s = self.host.clone();
        s.append("/");
        s.append(self.name.as_str());
        s
    }

    /// The text that [`ImageRef::get_v2_url`] parses.
    pub fn v2_string(&self) -> (r: String)
        ensures
            r@ == v2_text(self.use_ssl(), self.host()@, self.name()@),
    {
        let mut s = owned(if self.use_ssl {
            "https"
        } else {
            "http"
        });
        s.append("://");
        s.append(self.host.as_str());
        s.append("/v2/");
        s.append(self.name.as_str());
        s
    }

    /// The base URL of the registry API for this image: what `Url::parse`
    /// reads from `scheme://host/v2/name`, or its error.
    pub fn get_v2_url(&self) -> (r: Result<url::Url, ImageRefError>)
        ensures
            match r {
                Ok(u) => url_parsed(v2_text(self.use_ssl(), self.host()@, self.name()@)) == Some(url_text(u)),
                Err(e) => url_parsed(v2_text(self.use_ssl(), self.host()@, self.name()@)) is None,
            },
    {
        let text = self.v2_string();
        match parse_url(text.as_str()) {
            Ok(u) => Ok(u),
            Err(e) => Err(ImageRefError::UrlParse(e)),
        }
    }
}

} // verus!

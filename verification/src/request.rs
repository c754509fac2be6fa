//! Records of the outbound request surface.
use crate::codec::{json_from_text, parsed_json};
use core::time::Duration;
use vstd::prelude::*;

verus! {

/// Method of an outbound request.
#[derive(Debug, Clone, Copy, PartialEq, Eq)]
pub enum HostRequestType {
    Get,
    Post,
    Put,
    Patch,
    Delete,
    Head,
}

/// What the host reports back for a completed request.
#[derive(Debug, Clone, PartialEq)]
pub struct HostRequestResponse {
    /// The status code of the response.
    pub http_code: u32,
    /// Raw headers on the response.
    pub headers: Vec<(String, String)>,
    /// Raw body of the response.
    pub body: String,
}

impl HostRequestResponse {
    /// The status code of the response.
    pub fn code(&self) -> (code: u32)
        ensures
            code == self.http_code,
    {
        self.http_code
    }

    /// The raw body of the response.
    pub fn body(&self) -> (body: &str)
        ensures
            body@ == self.body@,
    {
        self.body.as_str()
    }

    /// The body of the response, read as JSON. Succeeds exactly where the body
    /// is well-formed JSON.
    pub fn json(&self) -> (r: Result<serde_json::Value, serde_json::Error>)
        ensures
            r is Ok <==> parsed_json(self.body@) is Some,
            r matches Ok(value) ==> Some(value) == parsed_json(self.body@),
    {
        json_from_text(self.body.as_str())
    }
}

/// Input envelope of the request entry point.
#[derive(Debug, Clone, PartialEq)]
pub struct RequestIn {
    pub url: String,
}

/// Output envelope of the request entry point.
#[derive(Debug, Clone, PartialEq)]
pub struct RequestOut {
    pub http_code: u32,
    pub body: String,
}

/// A list of pairs of texts, each pair by its contents.
pub open spec fn pairs_view(pairs: Seq<(String, String)>) -> Seq<(Seq<char>, Seq<char>)> {
    pairs.map_values(|pair: (String, String)| (pair.0@, pair.1@))
}

/// An outbound request, built up step by step.
#[derive(Debug, PartialEq)]
pub struct RequestBuilder {
    /// URL to invoke.
    pub url: String,
    /// Request method.
    pub method: HostRequestType,
    /// Pairs of key and value to be included as HTTP headers.
    pub headers: Option<Vec<(String, String)>>,
    /// Basic auth, as user name and password.
    pub basic_auth: Option<(String, String)>,
    /// Bearer token.
    pub bearer_auth: Option<String>,
    /// Raw request body.
    pub body: Option<String>,
    /// A timeout for this request, from the start of connecting until the
    /// response body has finished.
    pub timeout: Option<Duration>,
    /// A form body, as pairs of key and value.
    pub form: Option<Vec<(String, String)>>,
    /// A JSON body.
    pub json: Option<serde_json::Value>,
}

impl RequestBuilder {
    /// A request to `url` with the given method and nothing else set.
    pub fn new(url: String, method: HostRequestType) -> (builder: Self)
        ensures
            builder == (RequestBuilder {
                url,
                method,
                headers: None,
                basic_auth: None,
                bearer_auth: None,
                body: None,
                timeout: None,
                form: None,
                json: None,
            }),
    {
        Self {
            url,
            method,
            headers: None,
            basic_auth: None,
            bearer_auth: None,
            body: None,
            timeout: None,
            form: None,
            json: None,
        }
    }

    /// Whether nothing but the URL and the method is set.
    pub open spec fn is_bare(self) -> bool {
        &&& self.headers is None
        &&& self.basic_auth is None
        &&& self.bearer_auth is None
        &&& self.body is None
        &&& self.timeout is None
        &&& self.form is None
        &&& self.json is None
    }

    /// A `GET` request to `url`.
    pub fn get(url: &str) -> (builder: Self)
        ensures
            builder.url@ == url@,
            builder.method == HostRequestType::Get,
            builder.is_bare(),
    {
        Self::new(String::from_str(url), HostRequestType::Get)
    }

    /// A `POST` request to `url`.
    pub fn post(url: &str) -> (builder: Self)
        ensures
            builder.url@ == url@,
            builder.method == HostRequestType::Post,
            builder.is_bare(),
    {
        Self::new(String::from_str(url), HostRequestType::Post)
    }

    /// Sets the JSON body; everything else stays.
    pub fn with_json(self, value: serde_json::Value) -> (builder: Self)
        ensures
            builder == (RequestBuilder { json: Some(value), ..self }),
    {
        let mut builder = self;
        builder.json = Some(value);
        builder
    }

    /// Sets the bearer token; everything else stays.
    pub fn with_bearer_auth(self, bearer_token: String) -> (builder: Self)
        ensures
            builder == (RequestBuilder { bearer_auth: Some(bearer_token), ..self }),
    {
        let mut builder = self;
        builder.bearer_auth = Some(bearer_token);
        builder
    }

    /// Adds a form parameter after those already set; everything else stays.
    pub fn set_form_key(self, key: &str, value: &str) -> (builder: Self)
        ensures
            builder == (RequestBuilder { form: builder.form, ..self }),
            builder.form matches Some(form) && pairs_view(form@) == pairs_view(
                match self.form {
                    Some(before) => before@,
                    None => Seq::empty(),
                },
            ).push((key@, value@)),
    {
        let RequestBuilder {
            url,
            method,
            headers,
            basic_auth,
            bearer_auth,
            body,
            timeout,
            form,
            json,
        } = self;
        let mut form = match form {
            Some(form) => form,
            None => Vec::new(),
        };
        let ghost before = form@;
        form.push((String::from_str(key), String::from_str(value)));
        assert(pairs_view(form@) =~= pairs_view(before).push((key@, value@)));
        RequestBuilder {
            url,
            method,
            headers,
            basic_auth,
            bearer_auth,
            body,
            timeout,
            form: Some(form),
            json,
        }
    }

    /// Sets basic auth; everything else stays.
    pub fn set_basic_auth(self, username: &str, password: &str) -> (builder: Self)
        ensures
            builder == (RequestBuilder { basic_auth: builder.basic_auth, ..self }),
            builder.basic_auth matches Some(pair) && pair.0@ == username@ && pair.1@ == password@,
    {
        let mut builder = self;
        builder.basic_auth = Some((String::from_str(username), String::from_str(password)));
        builder
    }
}

} // verus!

//! Requests to the Vault server, and how its replies are judged.

use vstd::prelude::*;

use crate::secret::SecretString;
#[allow(unused_imports)]
use crate::views;

verus! {

/// The method of a request.
#[derive(Clone, Copy, Debug, PartialEq, Eq, Structural)]
pub enum HttpMethod {
    /// `GET`.
    Get,
    /// `POST`.
    Post,
}

/// A request to the Vault server.
#[derive(Debug)]
pub struct HttpRequest {
    /// The method.
    pub method: HttpMethod,
    /// The whole URL.
    pub url: String,
    /// The value of the header `x-vault-token`, where the request has one.
    pub vault_token: Option<SecretString>,
    /// The value of the header `Content-Type`, where the request has one.
    pub content_type: Option<&'static str>,
    /// The body, where the request has one.
    pub body: Option<SecretString>,
}

/// What a request says.
pub struct RequestView {
    /// See [`HttpRequest::method`].
    pub method: HttpMethod,
    /// See [`HttpRequest::url`].
    pub url: Seq<char>,
    /// See [`HttpRequest::vault_token`].
    pub vault_token: Option<Seq<char>>,
    /// See [`HttpRequest::content_type`].
    pub content_type: Option<Seq<char>>,
    /// See [`HttpRequest::body`].
    pub body: Option<Seq<char>>,
}

impl View for HttpRequest {
    type V = RequestView;

    open spec fn view(&self) -> RequestView {
        RequestView {
            method: self.method,
            url: self.url@,
            vault_token: views::option_view(self.vault_token),
            content_type: views::option_view(self.content_type),
            body: views::option_view(self.body),
        }
    }
}

/// A read of `url` in the name of the bearer of `token`.
pub open spec fn authorized_get(url: Seq<char>, token: Seq<char>) -> RequestView {
    RequestView {
        method: HttpMethod::Get,
        url,
        vault_token: Some(token),
        content_type: None,
        body: None,
    }
}

/// Whether a status code reports success.
pub open spec fn success(status: u16) -> bool {
    200 <= status < 300
}

/// Whether a status code reports success.
pub fn is_success(status: u16) -> (b: bool)
    ensures
        b == success(status),
        b == (200 <= status && status < 300),
{
    200 <= status && status < 300
}

/// Success is reported by the status codes from 200 up to 299, and by no
/// others: redirections, refusals and failures of the server are none.
pub proof fn law_success_is_the_two_hundreds(status: u16)
    ensures
        success(status) <==> 200 <= status && status < 300,
        status < 200 ==> !success(status),
        300 <= status ==> !success(status),
        200 <= status <= 299 ==> success(status),
{
}

/// A read in the name of a token is a `GET` of the whole URL with the whole
/// token in its header, and nothing else.
pub proof fn law_read_names_url_and_token(url: Seq<char>, token: Seq<char>)
    ensures
        authorized_get(url, token).method == HttpMethod::Get,
        authorized_get(url, token).url == url,
        authorized_get(url, token).vault_token == Some(token),
        authorized_get(url, token).content_type is None,
        authorized_get(url, token).body is None,
{
}

/// A request says just what its parts say.
pub proof fn law_requests_say_what_they_hold(request: HttpRequest)
    ensures
        request@.method == request.method,
        request@.url == request.url@,
        match request.vault_token {
            Some(token) => request@.vault_token == Some(token@),
            None => request@.vault_token is None,
        },
        match request.content_type {
            Some(kind) => request@.content_type == Some(kind@),
            None => request@.content_type is None,
        },
        match request.body {
            Some(body) => request@.body == Some(body@),
            None => request@.body is None,
        },
{
}

} // verus!

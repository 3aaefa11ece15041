//! Logging in through the browser, with OpenID Connect.

use vstd::prelude::*;
use vstd::string::*;

use crate::client::VaultClient;
#[allow(unused_imports)]
use crate::error;
use crate::error::VaultClientErr;
#[allow(unused_imports)]
use crate::http;
use crate::http::{HttpMethod, HttpRequest};
use crate::json;
#[allow(unused_imports)]
use crate::kubernetes;
use crate::secret::{seal, SecretString};
use crate::secure_value::SecureValue;
use crate::text;
#[allow(unused_imports)]
use crate::views;

verus! {

/// The port on which the browser's callback is awaited.
pub const OIDC_CALLBACK_PORT: u16 = 8250;

/// The address on which the browser's callback is awaited.
pub const OIDC_LISTEN_ADDR: &'static str = "127.0.0.1:8250";

/// The path of the browser's callback.
pub const OIDC_CALLBACK_PATH: &'static str = "/oidc/callback";

/// The URL that the browser is sent back to.
pub const OIDC_REDIRECT_URI: &'static str = "http://localhost:8250/oidc/callback";

/// The role to log in with.
pub const OIDC_ROLE: &'static str = "user";

/// The page that the browser shows after the callback.
pub const OIDC_HTML: &'static str = r#"
<!doctype html>
<html>
<head>
<script>
// Closes IE, Edge, Chrome, Brave
/*
window.onload = function load() {
  window.open('', '_self', '');
  window.close();
};
*/
</script>
</head>
<body>
  <p>Authentication successful, you can close the browser now.</p>
  <script>
    // Needed for Firefox security
    setTimeout(function() {
          window.close()
    }, 5000);
  </script>
</body>
</html>
"#;

/// What is said where logging in through the browser is not allowed.
pub const OIDC_DISABLED: &'static str = "oidc_callback feature is disabled";

/// What is said of a browser that cannot be opened.
pub const BROWSER_FAILED: &'static str = "failed to open browser for OIDC login";

/// What is said of a callback without a state.
pub const MISSING_STATE: &'static str = "missing state in callback";

/// What is said of a callback without a code.
pub const MISSING_CODE: &'static str = "missing code in callback";

/// What is said of a reply to the exchange that holds no token.
pub const OIDC_TOKEN_MISSING: &'static str = "auth.client_token missing in OIDC login response";

/// The parameters of the browser's callback.
pub struct OauthExchangeParams {
    /// The state that the login was begun with.
    pub state: Option<String>,
    /// The nonce that the login was begun with.
    pub nonce: Option<String>,
    /// The code that is exchanged for a token.
    pub code: Option<String>,
}

/// What the parameters of a callback say.
pub struct OauthParamsView {
    /// See [`OauthExchangeParams::state`].
    pub state: Option<Seq<char>>,
    /// See [`OauthExchangeParams::nonce`].
    pub nonce: Option<Seq<char>>,
    /// See [`OauthExchangeParams::code`].
    pub code: Option<Seq<char>>,
}

impl View for OauthExchangeParams {
    type V = OauthParamsView;

    open spec fn view(&self) -> OauthParamsView {
        OauthParamsView {
            state: views::option_view(self.state),
            nonce: views::option_view(self.nonce),
            code: views::option_view(self.code),
        }
    }
}

impl Default for OauthExchangeParams {
    fn default() -> (params: OauthExchangeParams)
        ensures
            params@ == (OauthParamsView { state: None, nonce: None, code: None }),
            params.state is None,
            params.nonce is None,
            params.code is None,
    {
        OauthExchangeParams { state: None, nonce: None, code: None }
    }
}

/// How the attempt to listen for the callback went.
#[derive(Debug)]
pub enum ListenOutcome {
    /// The listener is ready.
    Ready,
    /// The address could not be parsed: the message of the parser.
    BadAddress(String),
    /// The address could not be bound: the message of the system.
    Failed(String),
}

/// What is to be done next to log in, and whose outcome is awaited.
pub enum OidcStage {
    /// Begin.
    Begin,
    /// Ask the server for the URL of the login page: send the request and
    /// read the body of the reply.
    AuthUrl(HttpRequest),
    /// Listen for the callback on `addr`; `target_url` is the login page.
    Listen {
        /// The address to listen on.
        addr: String,
        /// The URL of the login page.
        target_url: String,
    },
    /// Open this URL in the browser.
    OpenBrowser(String),
    /// Serve until the callback has come.
    AwaitCallback,
    /// Exchange the code for a token: send the request and read the body of
    /// the reply.
    Exchange(HttpRequest),
    /// Nothing more: the token that the server issued, or why there is none.
    Finished(Result<String, VaultClientErr>),
}

/// The outcome of a stage.
pub enum OidcEvent {
    /// Go ahead.
    Start,
    /// The body of the reply, or the message of the HTTP client's error.
    Reply(Result<String, String>),
    /// How the attempt to listen went.
    Listening(ListenOutcome),
    /// Whether the browser was opened.
    Browser(bool),
    /// The parameters of the callback, or the message of the error that ended
    /// the server.
    Callback(Result<OauthExchangeParams, String>),
}

/// What the attempt to listen says.
pub enum ListenView {
    /// See [`ListenOutcome::Ready`].
    Ready,
    /// See [`ListenOutcome::BadAddress`].
    BadAddress(Seq<char>),
    /// See [`ListenOutcome::Failed`].
    Failed(Seq<char>),
}

/// What a stage says.
pub enum OidcView {
    /// See [`OidcStage::Begin`].
    Begin,
    /// See [`OidcStage::AuthUrl`].
    AuthUrl(http::RequestView),
    /// See [`OidcStage::Listen`].
    Listen {
        /// The address to listen on.
        addr: Seq<char>,
        /// The URL of the login page.
        target_url: Seq<char>,
    },
    /// See [`OidcStage::OpenBrowser`].
    OpenBrowser(Seq<char>),
    /// See [`OidcStage::AwaitCallback`].
    AwaitCallback,
    /// See [`OidcStage::Exchange`].
    Exchange(http::RequestView),
    /// See [`OidcStage::Finished`].
    Finished(Result<Seq<char>, error::ErrView>),
}

/// What the outcome of a stage says.
pub enum OidcEventView {
    /// See [`OidcEvent::Start`].
    Start,
    /// See [`OidcEvent::Reply`].
    Reply(Result<Seq<char>, Seq<char>>),
    /// See [`OidcEvent::Listening`].
    Listening(ListenView),
    /// See [`OidcEvent::Browser`].
    Browser(bool),
    /// See [`OidcEvent::Callback`].
    Callback(Result<OauthParamsView, Seq<char>>),
}

impl View for ListenOutcome {
    type V = ListenView;

    open spec fn view(&self) -> ListenView {
        match self {
            ListenOutcome::Ready => ListenView::Ready,
            ListenOutcome::BadAddress(message) => ListenView::BadAddress(message@),
            ListenOutcome::Failed(message) => ListenView::Failed(message@),
        }
    }
}

impl View for OidcStage {
    type V = OidcView;

    open spec fn view(&self) -> OidcView {
        match self {
            OidcStage::Begin => OidcView::Begin,
            OidcStage::AuthUrl(request) => OidcView::AuthUrl(request@),
            OidcStage::Listen { addr, target_url } => OidcView::Listen {
                addr: addr@,
                target_url: target_url@,
            },
            OidcStage::OpenBrowser(url) => OidcView::OpenBrowser(url@),
            OidcStage::AwaitCallback => OidcView::AwaitCallback,
            OidcStage::Exchange(request) => OidcView::Exchange(request@),
            OidcStage::Finished(result) => OidcView::Finished(views::result_view(*result)),
        }
    }
}

impl View for OidcEvent {
    type V = OidcEventView;

    open spec fn view(&self) -> OidcEventView {
        match self {
            OidcEvent::Start => OidcEventView::Start,
            OidcEvent::Reply(Ok(text)) => OidcEventView::Reply(Ok(text@)),
            OidcEvent::Reply(Err(message)) => OidcEventView::Reply(Err(message@)),
            OidcEvent::Listening(outcome) => OidcEventView::Listening(outcome@),
            OidcEvent::Browser(opened) => OidcEventView::Browser(*opened),
            OidcEvent::Callback(Ok(params)) => OidcEventView::Callback(Ok(params@)),
            OidcEvent::Callback(Err(message)) => OidcEventView::Callback(Err(message@)),
        }
    }
}

/// The request for the URL of the login page.
pub open spec fn auth_url_request(addr: Seq<char>) -> http::RequestView {
    http::RequestView {
        method: HttpMethod::Post,
        url: addr + "/v1/auth/oidc/oidc/auth_url"@,
        vault_token: None,
        content_type: None,
        body: Some(
            json::json_text(
                json::text_pair("role"@, OIDC_ROLE@, "redirect_uri"@, OIDC_REDIRECT_URI@),
            ),
        ),
    }
}

/// The request that exchanges the code of a callback for a token.
pub open spec fn exchange_request(
    addr: Seq<char>,
    state: Seq<char>,
    code: Seq<char>,
) -> http::RequestView {
    http::RequestView {
        method: HttpMethod::Get,
        url: addr + "/v1/auth/oidc/oidc/callback?state="@ + state + "&code="@ + code,
        vault_token: None,
        content_type: None,
        body: None,
    }
}

/// What a document holds under `inner` in the object under `outer`: the text
/// that it is written as, less every double quote.
pub open spec fn document_field(
    document: json::Json,
    outer: Seq<char>,
    inner: Seq<char>,
) -> Seq<char> {
    text::unquoted(json::json_text(document.at(outer).at(inner)))
}

/// What a reply holds under `inner` in the object under `outer`.
pub open spec fn reply_field(body: Seq<char>, outer: Seq<char>, inner: Seq<char>) -> Result<
    Seq<char>,
    error::ErrView,
> {
    match json::json_parse(body) {
        Ok(document) => Ok(document_field(document, outer, inner)),
        Err(message) => Err(error::ErrView::Json(message)),
    }
}

/// The outcome of an exchange whose reply has this body: the string under
/// `client_token` in the object under `auth`.
pub open spec fn exchange_outcome(body: Seq<char>) -> Result<Seq<char>, error::ErrView> {
    match json::json_parse(body) {
        Ok(document) => match document.at("auth"@).at("client_token"@) {
            json::Json::Text(token) => Ok(token),
            _ => Err(error::ErrView::MissingField(OIDC_TOKEN_MISSING@)),
        },
        Err(message) => Err(error::ErrView::Json(message)),
    }
}

/// The stage after `stage` with the outcome `event`. An outcome that is not
/// the awaited one changes nothing.
pub open spec fn oidc_step(
    addr: Seq<char>,
    oidc_callback: bool,
    stage: OidcView,
    event: OidcEventView,
) -> OidcView {
    match (stage, event) {
        (OidcView::Begin, OidcEventView::Start) => if oidc_callback {
            OidcView::AuthUrl(auth_url_request(addr))
        } else {
            OidcView::Finished(Err(error::ErrView::InvalidToken(OIDC_DISABLED@)))
        },
        (OidcView::AuthUrl(_), OidcEventView::Reply(reply)) => match reply {
            Ok(body) => match reply_field(body, "data"@, "auth_url"@) {
                Ok(target_url) => OidcView::Listen { addr: OIDC_LISTEN_ADDR@, target_url },
                Err(error) => OidcView::Finished(Err(error)),
            },
            Err(message) => OidcView::Finished(Err(error::ErrView::Http(message))),
        },
        (OidcView::Listen { addr: _, target_url }, OidcEventView::Listening(outcome)) => {
            match outcome {
                ListenView::Ready => OidcView::OpenBrowser(target_url),
                ListenView::BadAddress(message) => OidcView::Finished(
                    Err(error::ErrView::AddrParse(message)),
                ),
                ListenView::Failed(message) => OidcView::Finished(Err(error::ErrView::Io(message))),
            }
        },
        (OidcView::OpenBrowser(_), OidcEventView::Browser(opened)) => if opened {
            OidcView::AwaitCallback
        } else {
            OidcView::Finished(Err(error::ErrView::InvalidToken(BROWSER_FAILED@)))
        },
        (OidcView::AwaitCallback, OidcEventView::Callback(callback)) => match callback {
            Ok(params) => match (params.state, params.code) {
                (None, _) => OidcView::Finished(Err(error::ErrView::MissingField(MISSING_STATE@))),
                (Some(_), None) => OidcView::Finished(
                    Err(error::ErrView::MissingField(MISSING_CODE@)),
                ),
                (Some(state), Some(code)) => OidcView::Exchange(exchange_request(addr, state, code)),
            },
            Err(message) => OidcView::Finished(Err(error::ErrView::Io(message))),
        },
        (OidcView::Exchange(_), OidcEventView::Reply(reply)) => match reply {
            Ok(body) => OidcView::Finished(exchange_outcome(body)),
            Err(message) => OidcView::Finished(Err(error::ErrView::Http(message))),
        },
        _ => stage,
    }
}

/// Whether what a document holds under `inner` in the object under `outer` is
/// nothing, or a string that needs no escapes in JSON.
pub open spec fn has_plain_field(document: json::Json, outer: Seq<char>, inner: Seq<char>) -> bool {
    match document.at(outer).at(inner) {
        json::Json::Null => true,
        json::Json::Text(field) => json::is_verbatim(field),
        _ => false,
    }
}

/// The string that a document holds under `inner` in the object under
/// `outer`; the word `null` where it holds nothing there.
pub open spec fn plain_field(
    document: json::Json,
    outer: Seq<char>,
    inner: Seq<char>,
) -> Seq<char>
    recommends
        has_plain_field(document, outer, inner),
{
    match document.at(outer).at(inner) {
        json::Json::Text(field) => field,
        _ => "null"@,
    }
}

/// Whether a reply is a document with a plain field under `inner` in the
/// object under `outer`.
pub open spec fn replies_plainly(body: Seq<char>, outer: Seq<char>, inner: Seq<char>) -> bool {
    json::json_parse(body) matches Ok(document) && has_plain_field(document, outer, inner)
}

/// The plain field of a reply.
pub open spec fn plain_reply(body: Seq<char>, outer: Seq<char>, inner: Seq<char>) -> Seq<char>
    recommends
        replies_plainly(body, outer, inner),
{
    plain_field(json::json_parse(body)->Ok_0, outer, inner)
}

/// A text that holds no double quotes is left as it is.
proof fn lemma_unquoted_unquoted(s: Seq<char>)
    requires
        forall|i: int| 0 <= i < s.len() ==> s[i] != '"',
    ensures
        text::unquoted(s) == s,
    decreases s.len(),
{
    reveal(Seq::filter);
    if s.len() > 0 {
        lemma_unquoted_unquoted(s.drop_last());
        assert(s.drop_last().push(s.last()) =~= s);
    }
}

/// Of a quoted text that holds no double quotes inside, the text is left.
proof fn lemma_unquoted_quoted(s: Seq<char>)
    requires
        forall|i: int| 0 <= i < s.len() ==> s[i] != '"',
    ensures
        text::unquoted(seq!['"'] + s + seq!['"']) == s,
{
    let keep = |c: char| c != '"';
    Seq::filter_distributes_over_add(seq!['"'] + s, seq!['"'], keep);
    Seq::filter_distributes_over_add(seq!['"'], s, keep);
    lemma_unquoted_unquoted(s);
    assert(seq!['"'].filter(keep) =~= Seq::<char>::empty()) by {
        reveal_with_fuel(Seq::<_>::filter, 2);
        assert(seq!['"'].drop_last() =~= Seq::<char>::empty());
    }
}

impl VaultClient {
    /// Takes note of the parameters of the browser's callback, in place of
    /// what was noted before, and gives the page that the browser shows.
    pub fn oidc_callback_get_handler(
        params: &mut OauthExchangeParams,
        query: OauthExchangeParams,
    ) -> (page: &'static str)
        ensures
            *final(params) == query,
            final(params)@ == query@,
            page@ == OIDC_HTML@,
    {
        *params = query;
        OIDC_HTML
    }

    /// What a parsed document holds under `inner` in the object under `outer`.
    ///
    /// A string that needs no escapes in JSON comes out as it is; the word
    /// `null` stands for a field that is not there.
    pub fn field_of_document(document: &serde_json::Value, outer: &str, inner: &str) -> (field:
        String)
        ensures
            field@ == document_field(json::json_tree(*document), outer@, inner@),
            has_plain_field(json::json_tree(*document), outer@, inner@) ==> field@ == plain_field(
                json::json_tree(*document),
                outer@,
                inner@,
            ),
            match json::json_tree(*document).at(outer@).at(inner@) {
                json::Json::Text(text) => (forall|i: int|
                    0 <= i < text.len() ==> #[trigger] text[i] >= ' ' && text[i] != '"' && text[i]
                        != '\\') ==> field@ == text,
                json::Json::Null => field@ == "null"@,
                written => field@ == json::json_text(written).filter(|c: char| c != '"'),
            },
    {
        let value = json::member(json::member(document, outer), inner);
        let written = json::write(value);
        proof {
            match json::json_tree(*value) {
                json::Json::Text(field) if json::is_verbatim(field) => {
                    lemma_unquoted_quoted(field);
                },
                json::Json::Null => {
                    reveal_strlit("null");
                    lemma_unquoted_unquoted("null"@);
                },
                _ => {},
            }
        }
        text::unquote(written.as_str())
    }

    /// What a reply holds under `inner` in the object under `outer`.
    fn field_of_reply(body: &str, outer: &str, inner: &str) -> (field: Result<
        String,
        VaultClientErr,
    >)
        ensures
            views::result_view(field) == reply_field(body@, outer@, inner@),
            replies_plainly(body@, outer@, inner@) ==> views::result_view(field) == Ok::<
                Seq<char>,
                error::ErrView,
            >(plain_reply(body@, outer@, inner@)),
    {
        match json::parse(body) {
            Ok(document) => Ok(Self::field_of_document(&document, outer, inner)),
            Err(message) => Err(VaultClientErr::Json(message)),
        }
    }

    /// Logs in through the browser, one stage at a time, if `oidc_callback`
    /// allows it. Starts with [`OidcStage::Begin`] and [`OidcEvent::Start`].
    pub fn oidc_login(&self, oidc_callback: bool, stage: OidcStage, event: OidcEvent) -> (next:
        OidcStage)
        ensures
            next@ == oidc_step(self@.addr, oidc_callback, stage@, event@),
            match (stage@, event@) {
                (OidcView::AuthUrl(_), OidcEventView::Reply(Ok(body))) => replies_plainly(
                    body,
                    "data"@,
                    "auth_url"@,
                ) ==> next@ == (OidcView::Listen {
                    addr: OIDC_LISTEN_ADDR@,
                    target_url: plain_reply(body, "data"@, "auth_url"@),
                }),
                _ => true,
            },
            match (stage, event) {
                (OidcStage::Begin, OidcEvent::Start) => if oidc_callback {
                    &&& next matches OidcStage::AuthUrl(request)
                    &&& request.method == HttpMethod::Post
                    &&& request.url@ == self@.addr + "/v1/auth/oidc/oidc/auth_url"@
                } else {
                    &&& next matches OidcStage::Finished(Err(VaultClientErr::InvalidToken(m)))
                    &&& m@ == "oidc_callback feature is disabled"@
                },
                (OidcStage::AuthUrl(_), OidcEvent::Reply(Ok(body))) => match json::json_parse(
                    body@,
                ) {
                    Ok(document) => match document.at("data"@).at("auth_url"@) {
                        json::Json::Text(page) => (forall|i: int|
                            0 <= i < page.len() ==> #[trigger] page[i] >= ' ' && page[i] != '"'
                                && page[i] != '\\') ==> (next matches OidcStage::Listen {
                            addr,
                            target_url,
                        } && addr@ == "127.0.0.1:8250"@ && target_url@ == page),
                        json::Json::Null => next matches OidcStage::Listen { addr, target_url }
                            && addr@ == "127.0.0.1:8250"@ && target_url@ == "null"@,
                        _ => next is Listen,
                    },
                    Err(message) => next matches OidcStage::Finished(Err(VaultClientErr::Json(m)))
                        && m@ == message,
                },
                (
                    OidcStage::Listen { addr: _, target_url },
                    OidcEvent::Listening(ListenOutcome::Ready),
                ) => next matches OidcStage::OpenBrowser(url) && url@ == target_url@,
                (
                    OidcStage::Listen { addr: _, target_url: _ },
                    OidcEvent::Listening(ListenOutcome::BadAddress(message)),
                ) => next matches OidcStage::Finished(Err(VaultClientErr::AddrParse(m))) && m@
                    == message@,
                (
                    OidcStage::Listen { addr: _, target_url: _ },
                    OidcEvent::Listening(ListenOutcome::Failed(message)),
                ) => next matches OidcStage::Finished(Err(VaultClientErr::Io(m))) && m@
                    == message@,
                (OidcStage::AuthUrl(_), OidcEvent::Reply(Err(message))) =>
                    next matches OidcStage::Finished(Err(VaultClientErr::Http(m))) && m@
                    == message@,
                (OidcStage::Exchange(_), OidcEvent::Reply(Err(message))) =>
                    next matches OidcStage::Finished(Err(VaultClientErr::Http(m))) && m@
                    == message@,
                (OidcStage::AwaitCallback, OidcEvent::Callback(Err(message))) =>
                    next matches OidcStage::Finished(Err(VaultClientErr::Io(m))) && m@ == message@,
                (OidcStage::OpenBrowser(_), OidcEvent::Browser(false)) =>
                    next matches OidcStage::Finished(Err(VaultClientErr::InvalidToken(_))),
                (OidcStage::OpenBrowser(_), OidcEvent::Browser(true)) => next is AwaitCallback,
                (OidcStage::AwaitCallback, OidcEvent::Callback(Ok(params))) => match (
                    params.state,
                    params.code,
                ) {
                    (Some(state), Some(code)) => {
                        &&& next matches OidcStage::Exchange(request)
                        &&& request.method == HttpMethod::Get
                        &&& request.url@ == self@.addr + "/v1/auth/oidc/oidc/callback?state="@
                            + state@ + "&code="@ + code@
                        &&& request.vault_token is None
                        &&& request.body is None
                    },
                    _ => next matches OidcStage::Finished(Err(VaultClientErr::MissingField(_))),
                },
                (OidcStage::Exchange(_), OidcEvent::Reply(Ok(body))) => match json::json_parse(
                    body@,
                ) {
                    Ok(document) => match document.at("auth"@).at("client_token"@) {
                        json::Json::Text(token) => next matches OidcStage::Finished(Ok(issued))
                            && issued@ == token,
                        _ => next matches OidcStage::Finished(Err(VaultClientErr::MissingField(_))),
                    },
                    Err(message) => next matches OidcStage::Finished(Err(VaultClientErr::Json(m)))
                        && m@ == message,
                },
                _ => next == stage,
            },
    {
        match (stage, event) {
            (OidcStage::Begin, OidcEvent::Start) => if oidc_callback {
                OidcStage::AuthUrl(self.auth_url_request())
            } else {
                OidcStage::Finished(Err(VaultClientErr::InvalidToken(OIDC_DISABLED.to_owned())))
            },
            (OidcStage::AuthUrl(_), OidcEvent::Reply(reply)) => match reply {
                Ok(body) => match Self::field_of_reply(body.as_str(), "data", "auth_url") {
                    Ok(target_url) => OidcStage::Listen {
                        addr: OIDC_LISTEN_ADDR.to_owned(),
                        target_url,
                    },
                    Err(error) => OidcStage::Finished(Err(error)),
                },
                Err(message) => OidcStage::Finished(Err(VaultClientErr::Http(message))),
            },
            (OidcStage::Listen { addr: _, target_url }, OidcEvent::Listening(outcome)) => {
                match outcome {
                    ListenOutcome::Ready => OidcStage::OpenBrowser(target_url),
                    ListenOutcome::BadAddress(message) => OidcStage::Finished(
                        Err(VaultClientErr::AddrParse(message)),
                    ),
                    ListenOutcome::Failed(message) => OidcStage::Finished(
                        Err(VaultClientErr::Io(message)),
                    ),
                }
            },
            (OidcStage::OpenBrowser(_), OidcEvent::Browser(opened)) => if opened {
                OidcStage::AwaitCallback
            } else {
                OidcStage::Finished(Err(VaultClientErr::InvalidToken(BROWSER_FAILED.to_owned())))
            },
            (OidcStage::AwaitCallback, OidcEvent::Callback(callback)) => match callback {
                Ok(params) => match (params.state, params.code) {
                    (None, _) => OidcStage::Finished(
                        Err(VaultClientErr::MissingField(MISSING_STATE)),
                    ),
                    (Some(_), None) => OidcStage::Finished(
                        Err(VaultClientErr::MissingField(MISSING_CODE)),
                    ),
                    (Some(state), Some(code)) => OidcStage::Exchange(
                        self.exchange_request(state.as_str(), code.as_str()),
                    ),
                },
                Err(message) => OidcStage::Finished(Err(VaultClientErr::Io(message))),
            },
            (OidcStage::Exchange(_), OidcEvent::Reply(reply)) => match reply {
                Ok(body) => OidcStage::Finished(Self::exchanged_token(body)),
                Err(message) => OidcStage::Finished(Err(VaultClientErr::Http(message))),
            },
            (stage, _) => stage,
        }
    }

    /// The token in the body of the reply to an exchange.
    fn exchanged_token(body: String) -> (token: Result<String, VaultClientErr>)
        ensures
            views::result_view(token) == exchange_outcome(body@),
    {
        let mut body = body;
        let sealed = seal(&mut body);
        match SecureValue::from_json(sealed.expose_secret()) {
            Ok(reply) => {
                proof {
                    kubernetes::law_login_token_mirrors(reply, json::json_parse(sealed@)->Ok_0);
                }
                match Self::parse_kubernetes_login_token(reply) {
                    Ok(token) => Ok(token.expose_secret().to_owned()),
                    Err(_) => Err(VaultClientErr::MissingField(OIDC_TOKEN_MISSING)),
                }
            },
            Err(error) => Err(error),
        }
    }

    /// The request for the URL of the login page.
    fn auth_url_request(&self) -> (request: HttpRequest)
        ensures
            request@ == auth_url_request(self@.addr),
    {
        proof {
            reveal_strlit("role");
            reveal_strlit("redirect_uri");
            assert("role"@.len() != "redirect_uri"@.len());
        }
        HttpRequest {
            method: HttpMethod::Post,
            url: self.vault_addr().to_owned().concat("/v1/auth/oidc/oidc/auth_url"),
            vault_token: None,
            content_type: None,
            body: Some(
                SecretString::from_owned(
                    json::write_text_pair("role", OIDC_ROLE, "redirect_uri", OIDC_REDIRECT_URI),
                ),
            ),
        }
    }

    /// The request that exchanges the code of a callback for a token.
    fn exchange_request(&self, state: &str, code: &str) -> (request: HttpRequest)
        ensures
            request@ == exchange_request(self@.addr, state@, code@),
            request.url@ == self@.addr + "/v1/auth/oidc/oidc/callback?state="@ + state@
                + "&code="@ + code@,
    {
        HttpRequest {
            method: HttpMethod::Get,
            url: self.vault_addr().to_owned().concat("/v1/auth/oidc/oidc/callback?state=").concat(
                state,
            ).concat("&code=").concat(code),
            vault_token: None,
            content_type: None,
            body: None,
        }
    }
}

/// The URL of an exchange begins with the server's address and carries the
/// whole state and the whole code of the callback: it ends with the code, what
/// stands before that and its label ends with the state, and nothing is left
/// over.
pub proof fn law_exchange_carries_state_and_code(
    addr: Seq<char>,
    state: Seq<char>,
    code: Seq<char>,
)
    ensures
        ({
            let request = exchange_request(addr, state, code);
            let url = request.url;
            let head = url.take(url.len() - code.len() - 6);
            &&& request.method == HttpMethod::Get
            &&& request.vault_token is None
            &&& request.content_type is None
            &&& request.body is None
            &&& url.len() == addr.len() + 34 + state.len() + 6 + code.len()
            &&& url.skip(url.len() - code.len()) == code
            &&& url.skip(url.len() - code.len() - 6) == "&code="@ + code
            &&& head.skip(head.len() - state.len()) == state
            &&& head.take(head.len() - state.len()) == addr
                + "/v1/auth/oidc/oidc/callback?state="@
        }),
{
    reveal_strlit("/v1/auth/oidc/oidc/callback?state=");
    reveal_strlit("&code=");
    let url = exchange_request(addr, state, code).url;
    let head = url.take(url.len() - code.len() - 6);
    assert(url.skip(url.len() - code.len()) =~= code);
    assert(url.skip(url.len() - code.len() - 6) =~= "&code="@ + code);
    assert(head.skip(head.len() - state.len()) =~= state);
    assert(head.take(head.len() - state.len()) =~= addr + "/v1/auth/oidc/oidc/callback?state="@);
}

/// Two codes are exchanged at two URLs, and so are two states.
pub proof fn law_exchanges_can_be_told_apart(
    addr: Seq<char>,
    state1: Seq<char>,
    state2: Seq<char>,
    code1: Seq<char>,
    code2: Seq<char>,
)
    ensures
        exchange_request(addr, state1, code1).url == exchange_request(addr, state1, code2).url
            ==> code1 == code2,
        exchange_request(addr, state1, code1).url == exchange_request(addr, state2, code1).url
            ==> state1 == state2,
{
    law_exchange_carries_state_and_code(addr, state1, code1);
    law_exchange_carries_state_and_code(addr, state1, code2);
    law_exchange_carries_state_and_code(addr, state2, code1);
}

/// A callback leads to an exchange just where it has both a state and a code,
/// and it is these that are exchanged, whatever the nonce is.
pub proof fn law_callback_is_exchanged(
    addr: Seq<char>,
    oidc_callback: bool,
    state: Seq<char>,
    code: Seq<char>,
    nonce: Option<Seq<char>>,
    message: Seq<char>,
)
    ensures
        ({
            let step = |callback: Result<OauthParamsView, Seq<char>>|
                oidc_step(
                    addr,
                    oidc_callback,
                    OidcView::AwaitCallback,
                    OidcEventView::Callback(callback),
                );
            let failed = |e: error::ErrView| OidcView::Finished(Err::<Seq<char>, _>(e));
            &&& step(Ok(OauthParamsView { state: Some(state), nonce, code: Some(code) })) matches
                OidcView::Exchange(request)
            &&& request.url == addr + "/v1/auth/oidc/oidc/callback?state="@ + state + "&code="@
                + code
            &&& request.method == HttpMethod::Get
            &&& request.vault_token is None
            &&& request.body is None
            &&& step(Ok(OauthParamsView { state: None, nonce, code: Some(code) })) == failed(
                error::ErrView::MissingField("missing state in callback"@),
            )
            &&& step(Ok(OauthParamsView { state: None, nonce, code: None })) == failed(
                error::ErrView::MissingField("missing state in callback"@),
            )
            &&& step(Ok(OauthParamsView { state: Some(state), nonce, code: None })) == failed(
                error::ErrView::MissingField("missing code in callback"@),
            )
            &&& step(Err(message)) == failed(error::ErrView::Io(message))
        }),
{
}

/// A login begins, where it is allowed, by asking the server for a login page
/// for the role `user` that leads back to this machine.
pub proof fn law_login_page_is_asked_for(addr: Seq<char>)
    ensures
        oidc_step(addr, true, OidcView::Begin, OidcEventView::Start) matches OidcView::AuthUrl(
            request,
        ) && {
            &&& request.method == HttpMethod::Post
            &&& request.url == addr + "/v1/auth/oidc/oidc/auth_url"@
            &&& request.vault_token is None
            &&& request.content_type is None
            &&& request.body == Some(
                json::json_text(
                    json::Json::Object(
                        map![
                            "role"@ => json::Json::Text("user"@),
                            "redirect_uri"@ => json::Json::Text(
                                "http://localhost:8250/oidc/callback"@,
                            ),
                        ],
                    ),
                ),
            )
        },
        oidc_step(addr, false, OidcView::Begin, OidcEventView::Start) == OidcView::Finished(
            Err(error::ErrView::InvalidToken("oidc_callback feature is disabled"@)),
        ),
{
}

/// The page that the server names is the one that the browser is opened with,
/// once somebody listens for the callback; what goes wrong on the way ends the
/// login.
pub proof fn law_named_page_is_opened(
    addr: Seq<char>,
    oidc_callback: bool,
    body: Seq<char>,
    listen_addr: Seq<char>,
    target_url: Seq<char>,
    message: Seq<char>,
)
    ensures
        ({
            let step = |stage: OidcView, event: OidcEventView|
                oidc_step(addr, oidc_callback, stage, event);
            let failed = |e: error::ErrView| OidcView::Finished(Err::<Seq<char>, _>(e));
            let listen = OidcView::Listen { addr: listen_addr, target_url };
            let opened = OidcView::OpenBrowser(target_url);
            let asked = OidcView::AuthUrl(auth_url_request(addr));
            &&& json::json_parse(body) matches Ok(document) ==> step(
                asked,
                OidcEventView::Reply(Ok(body)),
            ) == (OidcView::Listen {
                addr: "127.0.0.1:8250"@,
                target_url: json::json_text(document.at("data"@).at("auth_url"@)).filter(
                    |c: char| c != '"',
                ),
            })
            &&& json::json_parse(body) matches Err(why) ==> step(
                asked,
                OidcEventView::Reply(Ok(body)),
            ) == failed(error::ErrView::Json(why))
            &&& step(asked, OidcEventView::Reply(Err(message))) == failed(
                error::ErrView::Http(message),
            )
            &&& step(listen, OidcEventView::Listening(ListenView::Ready)) == opened
            &&& step(listen, OidcEventView::Listening(ListenView::BadAddress(message))) == failed(
                error::ErrView::AddrParse(message),
            )
            &&& step(listen, OidcEventView::Listening(ListenView::Failed(message))) == failed(
                error::ErrView::Io(message),
            )
            &&& step(opened, OidcEventView::Browser(true)) is AwaitCallback
            &&& step(opened, OidcEventView::Browser(false)) == failed(
                error::ErrView::InvalidToken("failed to open browser for OIDC login"@),
            )
        }),
{
}

/// An exchange gives the string under `client_token` in the object under
/// `auth`, whole, whatever other members the reply has; where there is no such
/// string, the login fails and gives no token.
pub proof fn law_exchange_gives_the_client_token(
    addr: Seq<char>,
    oidc_callback: bool,
    request: http::RequestView,
    body: Seq<char>,
    document: json::Json,
    token: Seq<char>,
    message: Seq<char>,
)
    requires
        json::json_parse(body) == Ok::<json::Json, Seq<char>>(document),
    ensures
        ({
            let stage = OidcView::Exchange(request);
            let end = oidc_step(addr, oidc_callback, stage, OidcEventView::Reply(Ok(body)));
            let lost = oidc_step(addr, oidc_callback, stage, OidcEventView::Reply(Err(message)));
            &&& lost == OidcView::Finished(Err(error::ErrView::Http(message)))
            &&& end == OidcView::Finished(Ok(token)) <==> {
                &&& document matches json::Json::Object(members)
                &&& members.contains_key("auth"@)
                &&& members["auth"@] matches json::Json::Object(auth)
                &&& auth.contains_key("client_token"@)
                &&& auth["client_token"@] == json::Json::Text(token)
            }
            &&& !(end matches OidcView::Finished(Ok(_))) ==> end == OidcView::Finished(
                Err(
                    error::ErrView::MissingField(
                        "auth.client_token missing in OIDC login response"@,
                    ),
                ),
            )
        }),
{
}

/// What else stands in a reply to an exchange does not matter: neither members
/// beside `auth` nor members of `auth` beside `client_token`.
pub proof fn law_exchange_looks_at_the_client_token_alone(
    body1: Seq<char>,
    body2: Seq<char>,
    members: Map<Seq<char>, json::Json>,
    auth: Map<Seq<char>, json::Json>,
    key: Seq<char>,
    value: json::Json,
)
    requires
        json::json_parse(body1) == Ok::<json::Json, Seq<char>>(
            json::Json::Object(members.insert("auth"@, json::Json::Object(auth))),
        ),
        json::json_parse(body2) == Ok::<json::Json, Seq<char>>(
            json::Json::Object(
                members.insert(key, value).insert("auth"@, json::Json::Object(auth)),
            ),
        ) || (key != "client_token"@ && json::json_parse(body2) == Ok::<json::Json, Seq<char>>(
            json::Json::Object(
                members.insert("auth"@, json::Json::Object(auth.insert(key, value))),
            ),
        )),
    ensures
        exchange_outcome(body1) == exchange_outcome(body2),
{
}

/// A reply that is no JSON gives no token.
pub proof fn law_exchange_needs_json(body: Seq<char>, message: Seq<char>)
    requires
        json::json_parse(body) == Err::<json::Json, Seq<char>>(message),
    ensures
        exchange_outcome(body) == Err::<Seq<char>, error::ErrView>(error::ErrView::Json(message)),
{
}

/// At any stage, only the awaited outcome counts: one that comes out of turn
/// changes nothing, and a login that is over stays over.
pub proof fn law_login_goes_on_in_turn(
    addr: Seq<char>,
    oidc_callback: bool,
    stage: OidcView,
    event: OidcEventView,
)
    ensures
        !(stage is Begin && event is Start) && !(stage is AuthUrl && event is Reply) && !(stage
            is Listen && event is Listening) && !(stage is OpenBrowser && event is Browser) && !(
        stage is AwaitCallback && event is Callback) && !(stage is Exchange && event is Reply)
            ==> oidc_step(addr, oidc_callback, stage, event) == stage,
{
}

/// The browser is sent back to where the callback is awaited: to the same port
/// of this machine, and to the path of the callback.
pub proof fn law_browser_is_sent_back_here()
    ensures
        OIDC_CALLBACK_PORT == 8250,
        OIDC_LISTEN_ADDR@ == "127.0.0.1:8250"@,
        OIDC_REDIRECT_URI@ == "http://localhost:8250"@ + OIDC_CALLBACK_PATH@,
        OIDC_CALLBACK_PATH@ == "/oidc/callback"@,
{
    reveal_strlit("http://localhost:8250");
    reveal_strlit("/oidc/callback");
    reveal_strlit("http://localhost:8250/oidc/callback");
    assert(OIDC_REDIRECT_URI@ =~= "http://localhost:8250"@ + OIDC_CALLBACK_PATH@);
}

/// The parameters of a callback are told by the whole texts that came with it.
pub proof fn law_callback_says_what_came(params: OauthExchangeParams)
    ensures
        match params.state {
            Some(state) => params@.state == Some(state@),
            None => params@.state is None,
        },
        match params.code {
            Some(code) => params@.code == Some(code@),
            None => params@.code is None,
        },
{
}

} // verus!

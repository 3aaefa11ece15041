//! Logging in as a Kubernetes service account.

use vstd::prelude::*;
use vstd::string::*;

use crate::client::VaultClient;
#[allow(unused_imports)]
use crate::error;
use crate::error::VaultClientErr;
use crate::http;
use crate::http::{HttpMethod, HttpRequest};
use crate::json;
use crate::secret::{seal, seal_trimmed, SecretString};
#[allow(unused_imports)]
use crate::secure_value;
use crate::secure_value::SecureValue;
use crate::text;
use crate::text::Strip;
#[allow(unused_imports)]
use crate::views;

verus! {

/// Where Kubernetes puts the token of the service account. The file is there
/// just where the process runs in a pod.
pub const DEFAULT_K8S_SA_TOKEN_PATH: &'static str =
    "/var/run/secrets/kubernetes.io/serviceaccount/token";

/// Where the login method is mounted in Vault, if nothing else is configured.
pub const DEFAULT_K8S_AUTH_PATH: &'static str = "kubernetes";

/// What is said where no role is configured.
pub const ROLE_REQUIRED: &'static str = "VAULT_K8S_ROLE env var is required for Kubernetes login";

/// What is said, before the path, of a token file that is not there.
pub const TOKEN_FILE_NOT_FOUND: &'static str =
    "Kubernetes service account token file not found at ";

/// What is said of a login that the server refused.
pub const LOGIN_REFUSED: &'static str = "Kubernetes login request failed";

/// What is said of a reply to a login that holds no token.
pub const LOGIN_TOKEN_MISSING: &'static str =
    "auth.client_token missing in Kubernetes login response";

/// What was found at the path of the service account's token.
pub enum TokenFile {
    /// No file.
    Missing,
    /// A file that could not be read: the message of the system.
    Unreadable(String),
    /// A file with these contents.
    Contents(String),
}

/// What was found, in terms of the texts.
pub enum TokenFileView {
    /// See [`TokenFile::Missing`].
    Missing,
    /// See [`TokenFile::Unreadable`].
    Unreadable(Seq<char>),
    /// See [`TokenFile::Contents`].
    Contents(Seq<char>),
}

impl View for TokenFile {
    type V = TokenFileView;

    open spec fn view(&self) -> TokenFileView {
        match self {
            TokenFile::Missing => TokenFileView::Missing,
            TokenFile::Unreadable(message) => TokenFileView::Unreadable(message@),
            TokenFile::Contents(text) => TokenFileView::Contents(text@),
        }
    }
}

/// What is to be done next to log in, and whose outcome is awaited.
#[derive(Debug)]
pub enum K8sLoginStage {
    /// Read the environment variables `VAULT_K8S_ROLE`, `VAULT_K8S_AUTH_PATH`
    /// and `VAULT_K8S_SA_TOKEN_PATH`.
    Settings,
    /// Look for the token of the service account at `path`.
    LoadToken {
        /// The role to log in with.
        role: String,
        /// Where the login method is mounted.
        auth_path: String,
        /// Where the token is.
        path: String,
    },
    /// Send the request.
    Send(HttpRequest),
    /// Read the body of the reply.
    ReadBody,
    /// Nothing more: the token that the server issued, or why there is none.
    Finished(Result<SecretString, VaultClientErr>),
}

/// The outcome of a stage.
pub enum K8sLoginEvent {
    /// The values of the environment variables that are set.
    Settings {
        /// The value of `VAULT_K8S_ROLE`.
        role: Option<String>,
        /// The value of `VAULT_K8S_AUTH_PATH`.
        auth_path: Option<String>,
        /// The value of `VAULT_K8S_SA_TOKEN_PATH`.
        token_path: Option<String>,
    },
    /// What was found at the path of the token.
    Loaded(TokenFile),
    /// The status of the reply, or the message of the HTTP client's error.
    Replied(Result<u16, String>),
    /// The body of the reply, or the message of the HTTP client's error.
    Body(Result<String, String>),
}

/// What a stage says.
pub enum K8sLoginView {
    /// See [`K8sLoginStage::Settings`].
    Settings,
    /// See [`K8sLoginStage::LoadToken`].
    LoadToken {
        /// The role to log in with.
        role: Seq<char>,
        /// Where the login method is mounted.
        auth_path: Seq<char>,
        /// Where the token is.
        path: Seq<char>,
    },
    /// See [`K8sLoginStage::Send`].
    Send(http::RequestView),
    /// See [`K8sLoginStage::ReadBody`].
    ReadBody,
    /// See [`K8sLoginStage::Finished`].
    Finished(Result<Seq<char>, error::ErrView>),
}

/// What the outcome of a stage says.
pub enum K8sLoginEventView {
    /// See [`K8sLoginEvent::Settings`].
    Settings {
        /// The value of `VAULT_K8S_ROLE`.
        role: Option<Seq<char>>,
        /// The value of `VAULT_K8S_AUTH_PATH`.
        auth_path: Option<Seq<char>>,
        /// The value of `VAULT_K8S_SA_TOKEN_PATH`.
        token_path: Option<Seq<char>>,
    },
    /// See [`K8sLoginEvent::Loaded`].
    Loaded(TokenFileView),
    /// See [`K8sLoginEvent::Replied`].
    Replied(Result<u16, Seq<char>>),
    /// See [`K8sLoginEvent::Body`].
    Body(Result<Seq<char>, Seq<char>>),
}

impl View for K8sLoginStage {
    type V = K8sLoginView;

    open spec fn view(&self) -> K8sLoginView {
        match self {
            K8sLoginStage::Settings => K8sLoginView::Settings,
            K8sLoginStage::LoadToken { role, auth_path, path } => K8sLoginView::LoadToken {
                role: role@,
                auth_path: auth_path@,
                path: path@,
            },
            K8sLoginStage::Send(request) => K8sLoginView::Send(request@),
            K8sLoginStage::ReadBody => K8sLoginView::ReadBody,
            K8sLoginStage::Finished(result) => K8sLoginView::Finished(views::result_view(*result)),
        }
    }
}

impl View for K8sLoginEvent {
    type V = K8sLoginEventView;

    open spec fn view(&self) -> K8sLoginEventView {
        match self {
            K8sLoginEvent::Settings { role, auth_path, token_path } => K8sLoginEventView::Settings {
                role: views::option_view(*role),
                auth_path: views::option_view(*auth_path),
                token_path: views::option_view(*token_path),
            },
            K8sLoginEvent::Loaded(file) => K8sLoginEventView::Loaded(file@),
            K8sLoginEvent::Replied(Ok(status)) => K8sLoginEventView::Replied(Ok(*status)),
            K8sLoginEvent::Replied(Err(message)) => K8sLoginEventView::Replied(Err(message@)),
            K8sLoginEvent::Body(Ok(text)) => K8sLoginEventView::Body(Ok(text@)),
            K8sLoginEvent::Body(Err(message)) => K8sLoginEventView::Body(Err(message@)),
        }
    }
}

/// The token of the service account, by what was found at `path`.
pub open spec fn service_account_token(path: Seq<char>, file: TokenFileView) -> Result<
    Seq<char>,
    error::ErrView,
> {
    match file {
        TokenFileView::Missing => Err(error::ErrView::InvalidToken(TOKEN_FILE_NOT_FOUND@ + path)),
        TokenFileView::Unreadable(message) => Err(error::ErrView::Io(message)),
        TokenFileView::Contents(plain) => Ok(text::trimmed(plain)),
    }
}

/// The request that logs in with a role and the token of a service account.
pub open spec fn login_request(
    addr: Seq<char>,
    role: Seq<char>,
    auth_path: Seq<char>,
    jwt: Seq<char>,
) -> http::RequestView {
    http::RequestView {
        method: HttpMethod::Post,
        url: addr + "/v1/auth/"@ + text::stripped(auth_path, Strip::Slash) + "/login"@,
        vault_token: None,
        content_type: Some("application/json"@),
        body: Some(json::json_text(json::text_pair("jwt"@, jwt, "role"@, role))),
    }
}

/// The token in the reply to a login, if there is one: the string under
/// `client_token` in the object under `auth`.
pub open spec fn login_token(reply: SecureValue) -> Option<Seq<char>> {
    if reply.has("auth"@) && reply.at("auth"@).has("client_token"@) {
        match reply.at("auth"@).at("client_token"@) {
            SecureValue::Secret(token) => Some(token@),
            SecureValue::PlainString(token) => Some(token@),
            _ => None,
        }
    } else {
        None
    }
}

/// The outcome of a login whose reply has this body.
pub open spec fn login_outcome(body: Seq<char>) -> Result<Seq<char>, error::ErrView> {
    match json::json_parse(body) {
        Ok(document) => match document.at("auth"@).at("client_token"@) {
            json::Json::Text(token) => Ok(token),
            _ => Err(error::ErrView::MissingField(LOGIN_TOKEN_MISSING@)),
        },
        Err(message) => Err(error::ErrView::Json(message)),
    }
}

/// The stage after `stage` with the outcome `event`. An outcome that is not
/// the awaited one changes nothing.
pub open spec fn k8s_login_step(
    addr: Seq<char>,
    stage: K8sLoginView,
    event: K8sLoginEventView,
) -> K8sLoginView {
    match (stage, event) {
        (
            K8sLoginView::Settings,
            K8sLoginEventView::Settings { role, auth_path, token_path },
        ) => match role {
            Some(role) => K8sLoginView::LoadToken {
                role,
                auth_path: match auth_path {
                    Some(configured) => configured,
                    None => DEFAULT_K8S_AUTH_PATH@,
                },
                path: match token_path {
                    Some(configured) => configured,
                    None => DEFAULT_K8S_SA_TOKEN_PATH@,
                },
            },
            None => K8sLoginView::Finished(Err(error::ErrView::InvalidToken(ROLE_REQUIRED@))),
        },
        (K8sLoginView::LoadToken { role, auth_path, path }, K8sLoginEventView::Loaded(file)) => {
            match service_account_token(path, file) {
                Ok(jwt) => K8sLoginView::Send(login_request(addr, role, auth_path, jwt)),
                Err(error) => K8sLoginView::Finished(Err(error)),
            }
        },
        (K8sLoginView::Send(_), K8sLoginEventView::Replied(reply)) => match reply {
            Ok(status) => if http::success(status) {
                K8sLoginView::ReadBody
            } else {
                K8sLoginView::Finished(Err(error::ErrView::InvalidToken(LOGIN_REFUSED@)))
            },
            Err(message) => K8sLoginView::Finished(Err(error::ErrView::Http(message))),
        },
        (K8sLoginView::ReadBody, K8sLoginEventView::Body(body)) => match body {
            Ok(text) => K8sLoginView::Finished(login_outcome(text)),
            Err(message) => K8sLoginView::Finished(Err(error::ErrView::Http(message))),
        },
        _ => stage,
    }
}

impl VaultClient {
    /// The token of the service account, by what was found at `path`.
    pub fn load_k8s_token(path: &str, file: TokenFile) -> (jwt: Result<
        SecretString,
        VaultClientErr,
    >)
        ensures
            views::result_view(jwt) == service_account_token(path@, file@),
            match file {
                TokenFile::Missing => jwt matches Err(VaultClientErr::InvalidToken(m)) && m@
                    == "Kubernetes service account token file not found at "@ + path@,
                TokenFile::Unreadable(message) => jwt matches Err(VaultClientErr::Io(m)) && m@
                    == message@,
                TokenFile::Contents(plain) => jwt matches Ok(token) && token@ == text::trimmed(
                    plain@,
                ),
            },
    {
        match file {
            TokenFile::Missing => Err(
                VaultClientErr::InvalidToken(TOKEN_FILE_NOT_FOUND.to_owned().concat(path)),
            ),
            TokenFile::Unreadable(message) => Err(VaultClientErr::Io(message)),
            TokenFile::Contents(plain) => {
                let mut plain = plain;
                Ok(seal_trimmed(&mut plain))
            },
        }
    }

    /// Logs in through the Kubernetes login method, one stage at a time.
    /// Starts with [`K8sLoginStage::Settings`].
    ///
    /// The settings are read from environment variables:
    ///
    /// | Variable                  | Default                                               | Description                                  |
    /// |---------------------------|-------------------------------------------------------|----------------------------------------------|
    /// | `VAULT_K8S_ROLE`          | *(required)*                                          | The role that is bound to the service account |
    /// | `VAULT_K8S_AUTH_PATH`     | `kubernetes`                                          | Where the login method is mounted in Vault   |
    /// | `VAULT_K8S_SA_TOKEN_PATH` | `/var/run/secrets/kubernetes.io/serviceaccount/token` | The file with the service account's token    |
    pub fn kubernetes_login(&self, stage: K8sLoginStage, event: K8sLoginEvent) -> (next:
        K8sLoginStage)
        ensures
            next@ == k8s_login_step(self@.addr, stage@, event@),
            match (stage, event) {
                (
                    K8sLoginStage::Settings,
                    K8sLoginEvent::Settings { role: Some(named), auth_path, token_path },
                ) => {
                    &&& next matches K8sLoginStage::LoadToken { role, auth_path: mount, path }
                    &&& role@ == named@
                    &&& mount@ == match auth_path {
                        Some(configured) => configured@,
                        None => "kubernetes"@,
                    }
                    &&& path@ == match token_path {
                        Some(configured) => configured@,
                        None => "/var/run/secrets/kubernetes.io/serviceaccount/token"@,
                    }
                },
                (
                    K8sLoginStage::LoadToken { role, auth_path, path: _ },
                    K8sLoginEvent::Loaded(TokenFile::Contents(plain)),
                ) => {
                    &&& next matches K8sLoginStage::Send(request)
                    &&& request.method == HttpMethod::Post
                    &&& request.vault_token is None
                    &&& request.content_type matches Some(kind) && kind@ == "application/json"@
                    &&& request.url@ == self@.addr + "/v1/auth/"@ + text::stripped(
                        auth_path@,
                        Strip::Slash,
                    ) + "/login"@
                    &&& request.body matches Some(sent) && sent@ == json::json_text(
                        json::Json::Object(
                            map![
                                "jwt"@ => json::Json::Text(text::trimmed(plain@)),
                                "role"@ => json::Json::Text(role@),
                            ],
                        ),
                    )
                },
                (K8sLoginStage::Send(_), K8sLoginEvent::Replied(Ok(status))) => if 200 <= status
                    && status < 300 {
                    next is ReadBody
                } else {
                    &&& next matches K8sLoginStage::Finished(Err(VaultClientErr::InvalidToken(m)))
                    &&& m@ == "Kubernetes login request failed"@
                },
                (K8sLoginStage::ReadBody, K8sLoginEvent::Body(Ok(body))) => match json::json_parse(
                    body@,
                ) {
                    Ok(document) => match document.at("auth"@).at("client_token"@) {
                        json::Json::Text(token) => next matches K8sLoginStage::Finished(Ok(issued))
                            && issued@ == token,
                        _ => next matches K8sLoginStage::Finished(
                            Err(VaultClientErr::MissingField(_)),
                        ),
                    },
                    Err(message) => next matches K8sLoginStage::Finished(
                        Err(VaultClientErr::Json(m)),
                    ) && m@ == message,
                },
                (
                    K8sLoginStage::Settings,
                    K8sLoginEvent::Settings { role: None, auth_path: _, token_path: _ },
                ) => next matches K8sLoginStage::Finished(Err(VaultClientErr::InvalidToken(m)))
                    && m@ == "VAULT_K8S_ROLE env var is required for Kubernetes login"@,
                (
                    K8sLoginStage::LoadToken { role: _, auth_path: _, path },
                    K8sLoginEvent::Loaded(TokenFile::Missing),
                ) => next matches K8sLoginStage::Finished(Err(VaultClientErr::InvalidToken(m)))
                    && m@ == "Kubernetes service account token file not found at "@ + path@,
                (
                    K8sLoginStage::LoadToken { role: _, auth_path: _, path: _ },
                    K8sLoginEvent::Loaded(TokenFile::Unreadable(message)),
                ) => next matches K8sLoginStage::Finished(Err(VaultClientErr::Io(m))) && m@
                    == message@,
                (K8sLoginStage::Send(_), K8sLoginEvent::Replied(Err(message))) =>
                    next matches K8sLoginStage::Finished(Err(VaultClientErr::Http(m))) && m@
                    == message@,
                (K8sLoginStage::ReadBody, K8sLoginEvent::Body(Err(message))) =>
                    next matches K8sLoginStage::Finished(Err(VaultClientErr::Http(m))) && m@
                    == message@,
                _ => next == stage,
            },
    {
        match (stage, event) {
            (
                K8sLoginStage::Settings,
                K8sLoginEvent::Settings { role, auth_path, token_path },
            ) => match role {
                Some(role) => K8sLoginStage::LoadToken {
                    role,
                    auth_path: match auth_path {
                        Some(configured) => configured,
                        None => DEFAULT_K8S_AUTH_PATH.to_owned(),
                    },
                    path: match token_path {
                        Some(configured) => configured,
                        None => DEFAULT_K8S_SA_TOKEN_PATH.to_owned(),
                    },
                },
                None => K8sLoginStage::Finished(
                    Err(VaultClientErr::InvalidToken(ROLE_REQUIRED.to_owned())),
                ),
            },
            (K8sLoginStage::LoadToken { role, auth_path, path }, K8sLoginEvent::Loaded(file)) => {
                match Self::load_k8s_token(path.as_str(), file) {
                    Ok(jwt) => K8sLoginStage::Send(
                        self.k8s_login_request(role.as_str(), auth_path.as_str(), &jwt),
                    ),
                    Err(error) => K8sLoginStage::Finished(Err(error)),
                }
            },
            (K8sLoginStage::Send(_), K8sLoginEvent::Replied(reply)) => match reply {
                Ok(status) => if http::is_success(status) {
                    K8sLoginStage::ReadBody
                } else {
                    K8sLoginStage::Finished(
                        Err(VaultClientErr::InvalidToken(LOGIN_REFUSED.to_owned())),
                    )
                },
                Err(message) => K8sLoginStage::Finished(Err(VaultClientErr::Http(message))),
            },
            (K8sLoginStage::ReadBody, K8sLoginEvent::Body(body)) => match body {
                Ok(text) => {
                    let mut text = text;
                    let sealed = seal(&mut text);
                    match SecureValue::from_json(sealed.expose_secret()) {
                        Ok(reply) => {
                            proof {
                                law_login_token_mirrors(reply, json::json_parse(sealed@)->Ok_0);
                            }
                            K8sLoginStage::Finished(Self::parse_kubernetes_login_token(reply))
                        },
                        Err(error) => K8sLoginStage::Finished(Err(error)),
                    }
                },
                Err(message) => K8sLoginStage::Finished(Err(VaultClientErr::Http(message))),
            },
            (stage, _) => stage,
        }
    }

    /// The request that logs in with a role and the token of a service
    /// account.
    fn k8s_login_request(&self, role: &str, auth_path: &str, jwt: &SecretString) -> (request:
        HttpRequest)
        ensures
            request@ == login_request(self@.addr, role@, auth_path@, jwt@),
            request.url@ == self@.addr + "/v1/auth/"@ + text::stripped(auth_path@, Strip::Slash)
                + "/login"@,
    {
        let url = self.vault_addr().to_owned().concat("/v1/auth/").concat(
            text::strip_both(auth_path, Strip::Slash),
        ).concat("/login");
        proof {
            reveal_strlit("jwt");
            reveal_strlit("role");
            assert("jwt"@.len() != "role"@.len());
        }
        HttpRequest {
            method: HttpMethod::Post,
            url,
            vault_token: None,
            content_type: Some("application/json"),
            body: Some(
                SecretString::from_owned(
                    json::write_text_pair("jwt", jwt.expose_secret(), "role", role),
                ),
            ),
        }
    }

    /// The token in the reply to a login: the string under `client_token` in
    /// the object under `auth`.
    pub fn parse_kubernetes_login_token(body: SecureValue) -> (token: Result<
        SecretString,
        VaultClientErr,
    >)
        ensures
            match login_token(body) {
                Some(text) => token matches Ok(found) && found@ == text,
                None => token matches Err(e) && e@ == error::ErrView::MissingField(
                    LOGIN_TOKEN_MISSING@,
                ),
            },
    {
        if let SecureValue::Object(root) = body {
            let mut root = root;
            if let Some(SecureValue::Object(auth)) = root.remove("auth") {
                let mut auth = auth;
                return match auth.remove("client_token") {
                    Some(SecureValue::Secret(token)) => Ok(token),
                    Some(SecureValue::PlainString(token)) => Ok(SecretString::from_owned(token)),
                    _ => Err(VaultClientErr::MissingField(LOGIN_TOKEN_MISSING)),
                };
            }
        }
        Err(VaultClientErr::MissingField(LOGIN_TOKEN_MISSING))
    }
}

/// The token in a reply is the string under `auth.client_token` of the
/// document that the reply mirrors, and there is none just where that is no
/// string.
pub proof fn law_login_token_mirrors(reply: SecureValue, document: json::Json)
    requires
        reply.mirrors(document),
    ensures
        login_token(reply) == match document.at("auth"@).at("client_token"@) {
            json::Json::Text(token) => Some(token),
            _ => None,
        },
{
    secure_value::lemma_members_mirror(reply, document, "auth"@);
    if reply.has("auth"@) {
        secure_value::lemma_members_mirror(
            reply.at("auth"@),
            document.at("auth"@),
            "client_token"@,
        );
    }
}

/// The configured mount path stands in the URL of a login, unchanged but for
/// the slashes around it, between the server's address with `/v1/auth/` and
/// `/login`.
pub proof fn law_login_goes_to_the_mount_path(
    addr: Seq<char>,
    role: Seq<char>,
    before: Seq<char>,
    mount: Seq<char>,
    after: Seq<char>,
    jwt: Seq<char>,
)
    requires
        forall|k: int| 0 <= k < before.len() ==> #[trigger] before[k] == '/',
        forall|k: int| 0 <= k < after.len() ==> #[trigger] after[k] == '/',
        mount.len() > 0 ==> mount.first() != '/' && mount.last() != '/',
    ensures
        login_request(addr, role, mount, jwt).url == addr + "/v1/auth/"@ + mount + "/login"@,
        login_request(addr, role, before + mount + after, jwt).url == addr + "/v1/auth/"@ + mount
            + "/login"@,
{
    text::law_padding_alone_is_stripped(before, mount, after, Strip::Slash);
    text::law_padding_alone_is_stripped(Seq::empty(), mount, Seq::empty(), Strip::Slash);
    assert(Seq::<char>::empty() + mount + Seq::<char>::empty() =~= mount);
}

/// Two mount paths with no slashes around them have two URLs, and so have two
/// servers.
pub proof fn law_mount_paths_can_be_told_apart(
    addr1: Seq<char>,
    addr2: Seq<char>,
    role: Seq<char>,
    mount1: Seq<char>,
    mount2: Seq<char>,
    jwt: Seq<char>,
)
    requires
        mount1.len() > 0 ==> mount1.first() != '/' && mount1.last() != '/',
        mount2.len() > 0 ==> mount2.first() != '/' && mount2.last() != '/',
    ensures
        login_request(addr1, role, mount1, jwt).url == login_request(addr1, role, mount2, jwt).url
            ==> mount1 == mount2,
        login_request(addr1, role, mount1, jwt).url == login_request(addr2, role, mount1, jwt).url
            ==> addr1 == addr2,
{
    let none = Seq::<char>::empty();
    law_login_goes_to_the_mount_path(addr1, role, none, mount1, none, jwt);
    law_login_goes_to_the_mount_path(addr1, role, none, mount2, none, jwt);
    law_login_goes_to_the_mount_path(addr2, role, none, mount1, none, jwt);
    reveal_strlit("/v1/auth/");
    let url1 = login_request(addr1, role, mount1, jwt).url;
    let url2 = login_request(addr1, role, mount2, jwt).url;
    let url3 = login_request(addr2, role, mount1, jwt).url;
    let start = addr1.len() as int + "/v1/auth/"@.len();
    assert(url1.subrange(start, start + mount1.len()) =~= mount1);
    assert(url2.subrange(start, start + mount2.len()) =~= mount2);
    assert(url1.take(addr1.len() as int) =~= addr1);
    assert(url3.take(addr2.len() as int) =~= addr2);
}

/// A login posts the whole role and the whole token of the service account, as
/// JSON, and shows no token of the client's.
pub proof fn law_login_posts_role_and_token(
    addr: Seq<char>,
    role: Seq<char>,
    mount: Seq<char>,
    jwt: Seq<char>,
)
    ensures
        ({
            let request = login_request(addr, role, mount, jwt);
            &&& request.method == HttpMethod::Post
            &&& request.vault_token is None
            &&& request.content_type == Some("application/json"@)
            &&& request.body == Some(
                json::json_text(
                    json::Json::Object(
                        map!["jwt"@ => json::Json::Text(jwt), "role"@ => json::Json::Text(role)],
                    ),
                ),
            )
        }),
{
}

/// What is configured counts, as it is configured; the defaults stand in for
/// the mount path and the token's file just where these are not configured,
/// and nothing stands in for the role.
pub proof fn law_settings_are_taken_as_configured(
    addr: Seq<char>,
    role: Seq<char>,
    mount: Seq<char>,
    path: Seq<char>,
    auth_path: Option<Seq<char>>,
    token_path: Option<Seq<char>>,
)
    ensures
        ({
            let step = |role: Option<Seq<char>>, mount: Option<Seq<char>>, path: Option<Seq<char>>|
                k8s_login_step(
                    addr,
                    K8sLoginView::Settings,
                    K8sLoginEventView::Settings { role, auth_path: mount, token_path: path },
                );
            let usual = "/var/run/secrets/kubernetes.io/serviceaccount/token"@;
            &&& step(Some(role), Some(mount), Some(path)) == (K8sLoginView::LoadToken {
                role,
                auth_path: mount,
                path,
            })
            &&& step(Some(role), None, Some(path)) == (K8sLoginView::LoadToken {
                role,
                auth_path: "kubernetes"@,
                path,
            })
            &&& step(Some(role), Some(mount), None) == (K8sLoginView::LoadToken {
                role,
                auth_path: mount,
                path: usual,
            })
            &&& step(Some(role), None, None) == (K8sLoginView::LoadToken {
                role,
                auth_path: "kubernetes"@,
                path: usual,
            })
            &&& step(None, auth_path, token_path) == K8sLoginView::Finished(
                Err(
                    error::ErrView::InvalidToken(
                        "VAULT_K8S_ROLE env var is required for Kubernetes login"@,
                    ),
                ),
            )
        }),
{
}

/// The token of the service account is sent whole, less the white space around
/// it in its file, with the role to the mount path; without a readable file
/// the login fails.
pub proof fn law_service_account_logs_in(
    addr: Seq<char>,
    role: Seq<char>,
    mount: Seq<char>,
    path: Seq<char>,
    before: Seq<char>,
    jwt: Seq<char>,
    after: Seq<char>,
    message: Seq<char>,
)
    requires
        forall|k: int| 0 <= k < before.len() ==> text::is_whitespace(#[trigger] before[k]),
        forall|k: int| 0 <= k < after.len() ==> text::is_whitespace(#[trigger] after[k]),
        jwt.len() > 0 ==> !text::is_whitespace(jwt.first()) && !text::is_whitespace(jwt.last()),
        mount.len() > 0 ==> mount.first() != '/' && mount.last() != '/',
    ensures
        ({
            let step = |file: TokenFileView|
                k8s_login_step(
                    addr,
                    K8sLoginView::LoadToken { role, auth_path: mount, path },
                    K8sLoginEventView::Loaded(file),
                );
            &&& step(TokenFileView::Contents(before + jwt + after)) == K8sLoginView::Send(
                http::RequestView {
                    method: HttpMethod::Post,
                    url: addr + "/v1/auth/"@ + mount + "/login"@,
                    vault_token: None,
                    content_type: Some("application/json"@),
                    body: Some(
                        json::json_text(
                            json::Json::Object(
                                map![
                                    "jwt"@ => json::Json::Text(jwt),
                                    "role"@ => json::Json::Text(role),
                                ],
                            ),
                        ),
                    ),
                },
            )
            &&& step(TokenFileView::Missing) == K8sLoginView::Finished(
                Err(
                    error::ErrView::InvalidToken(
                        "Kubernetes service account token file not found at "@ + path,
                    ),
                ),
            )
            &&& step(TokenFileView::Unreadable(message)) == K8sLoginView::Finished(
                Err(error::ErrView::Io(message)),
            )
        }),
{
    text::law_trimming_takes_white_space_alone(before, jwt, after);
    law_login_goes_to_the_mount_path(addr, role, Seq::empty(), mount, Seq::empty(), jwt);
}

/// The reply to a login is read just where its status is one from 200 up to
/// 299; with any other status, and without a reply, the login fails.
pub proof fn law_login_is_granted_by_status(
    addr: Seq<char>,
    request: http::RequestView,
    status: u16,
    message: Seq<char>,
)
    ensures
        ({
            let stage = K8sLoginView::Send(request);
            let next = k8s_login_step(addr, stage, K8sLoginEventView::Replied(Ok(status)));
            let lost = k8s_login_step(addr, stage, K8sLoginEventView::Replied(Err(message)));
            &&& 200 <= status && status < 300 ==> next is ReadBody
            &&& status < 200 || 300 <= status ==> next == K8sLoginView::Finished(
                Err(error::ErrView::InvalidToken("Kubernetes login request failed"@)),
            )
            &&& lost == K8sLoginView::Finished(Err(error::ErrView::Http(message)))
        }),
{
}

/// A login gives the string under `client_token` in the object under `auth` of
/// the reply, whole, whatever other members the reply has; where there is no
/// such string, it fails and gives no token.
pub proof fn law_login_gives_the_client_token(
    addr: Seq<char>,
    body: Seq<char>,
    document: json::Json,
    token: Seq<char>,
    message: Seq<char>,
)
    requires
        json::json_parse(body) == Ok::<json::Json, Seq<char>>(document),
    ensures
        ({
            let stage = K8sLoginView::ReadBody;
            let end = k8s_login_step(addr, stage, K8sLoginEventView::Body(Ok(body)));
            let lost = k8s_login_step(addr, stage, K8sLoginEventView::Body(Err(message)));
            &&& end == K8sLoginView::Finished(Ok(token)) <==> {
                &&& document matches json::Json::Object(members)
                &&& members.contains_key("auth"@)
                &&& members["auth"@] matches json::Json::Object(auth)
                &&& auth.contains_key("client_token"@)
                &&& auth["client_token"@] == json::Json::Text(token)
            }
            &&& !(end matches K8sLoginView::Finished(Ok(_))) ==> end == K8sLoginView::Finished(
                Err(
                    error::ErrView::MissingField(
                        "auth.client_token missing in Kubernetes login response"@,
                    ),
                ),
            )
            &&& lost == K8sLoginView::Finished(Err(error::ErrView::Http(message)))
        }),
{
}

/// What else stands in the reply to a login does not matter: neither members
/// beside `auth` nor members of `auth` beside `client_token`.
pub proof fn law_login_looks_at_the_client_token_alone(
    body1: Seq<char>,
    body2: Seq<char>,
    members: Map<Seq<char>, json::Json>,
    auth: Map<Seq<char>, json::Json>,
    key: Seq<char>,
    value: json::Json,
)
    requires
        json::json_parse(body1) == Ok::<json::Json, Seq<char>>(
            json::Json::Object(members.insert("auth"@, json::Json::Object(auth))),
        ),
        json::json_parse(body2) == Ok::<json::Json, Seq<char>>(
            json::Json::Object(
                members.insert(key, value).insert("auth"@, json::Json::Object(auth)),
            ),
        ) || (key != "client_token"@ && json::json_parse(body2) == Ok::<json::Json, Seq<char>>(
            json::Json::Object(
                members.insert("auth"@, json::Json::Object(auth.insert(key, value))),
            ),
        )),
    ensures
        login_outcome(body1) == login_outcome(body2),
{
}

/// A reply to a login that is no JSON gives no token.
pub proof fn law_login_needs_json(body: Seq<char>, message: Seq<char>)
    requires
        json::json_parse(body) == Err::<json::Json, Seq<char>>(message),
    ensures
        login_outcome(body) == Err::<Seq<char>, error::ErrView>(error::ErrView::Json(message)),
{
}

/// A protected reply gives the string under `client_token` in the object under
/// `auth`, whether it is a secret or a plain string, and nothing else.
pub proof fn law_login_token_is_the_member(reply: SecureValue, token: Seq<char>)
    ensures
        login_token(reply) == Some(token) <==> {
            &&& reply matches SecureValue::Object(members)
            &&& members@.contains_key("auth"@)
            &&& members@["auth"@] matches SecureValue::Object(auth)
            &&& auth@.contains_key("client_token"@)
            &&& (auth@["client_token"@] matches SecureValue::Secret(s) && s@ == token) || (
            auth@["client_token"@] matches SecureValue::PlainString(s) && s@ == token)
        },
{
}

/// At any stage, only the awaited outcome counts: one that comes out of turn
/// changes nothing, and a login that is over stays over.
pub proof fn law_login_goes_on_in_turn(
    addr: Seq<char>,
    stage: K8sLoginView,
    event: K8sLoginEventView,
)
    ensures
        !(stage is Settings && event is Settings) && !(stage is LoadToken && event is Loaded) && !(
        stage is Send && event is Replied) && !(stage is ReadBody && event is Body)
            ==> k8s_login_step(addr, stage, event) == stage,
{
}

} // verus!

//! What holds of whole operations: where a search for a token, a login or an
//! attempt to save ends, and what it touches on the way.

use vstd::prelude::*;

#[allow(unused_imports)]
use crate::client;
#[allow(unused_imports)]
use crate::error;
#[allow(unused_imports)]
use crate::http;
#[allow(unused_imports)]
use crate::json;
#[allow(unused_imports)]
use crate::kubernetes;
#[allow(unused_imports)]
use crate::kubernetes::{K8sLoginEventView, K8sLoginView};
#[allow(unused_imports)]
use crate::oidc;
#[allow(unused_imports)]
use crate::oidc::{OidcEventView, OidcView};
#[allow(unused_imports)]
use crate::resolve;
#[allow(unused_imports)]
use crate::resolve::{ResolveEventView, ResolveView};
#[allow(unused_imports)]
use crate::text;

verus! {

/// What a search for a token meets.
pub struct Surroundings {
    /// The value of the environment variable, if it is set.
    pub env: Option<Seq<char>>,
    /// What comes of a lookup of the environment's token: the status of the
    /// server's reply, or the HTTP client's error.
    pub env_lookup: Result<u16, Seq<char>>,
    /// The contents of the token file, if it can be read.
    pub file: Option<Seq<char>>,
    /// What comes of a lookup of the file's token. It may differ from what
    /// came of the other lookup, though the tokens be the same.
    pub file_lookup: Result<u16, Seq<char>>,
    /// Whether the process runs in a pod.
    pub in_pod: bool,
    /// The token that a Kubernetes login gives, if it succeeds.
    pub kubernetes: Option<Seq<char>>,
    /// The token that a login in the browser gives, if it succeeds.
    pub oidc: Option<Seq<char>>,
}

/// The outcome of a stage in the surroundings.
pub open spec fn resolve_answer(w: Surroundings, stage: ResolveView) -> ResolveEventView {
    match stage {
        ResolveView::EnvToken => ResolveEventView::EnvToken(w.env),
        ResolveView::EnvLookup(_) => ResolveEventView::Lookup(w.env_lookup),
        ResolveView::FileToken => ResolveEventView::FileToken(w.file),
        ResolveView::FileLookup(_) => ResolveEventView::Lookup(w.file_lookup),
        ResolveView::KubernetesProbe => ResolveEventView::Kubernetes(w.in_pod),
        ResolveView::KubernetesLogin => ResolveEventView::KubernetesToken(w.kubernetes),
        ResolveView::OidcLogin => ResolveEventView::OidcToken(w.oidc),
        ResolveView::SaveToken(_) => ResolveEventView::Saved,
        ResolveView::Finished(_) => ResolveEventView::Saved,
    }
}

/// How many stages may still follow.
pub open spec fn resolve_rank(stage: ResolveView) -> nat {
    match stage {
        ResolveView::EnvToken => 8,
        ResolveView::EnvLookup(_) => 7,
        ResolveView::FileToken => 6,
        ResolveView::FileLookup(_) => 5,
        ResolveView::KubernetesProbe => 4,
        ResolveView::KubernetesLogin => 3,
        ResolveView::OidcLogin => 2,
        ResolveView::SaveToken(_) => 1,
        ResolveView::Finished(_) => 0,
    }
}

/// Whether `event` is an outcome that `stage` can have.
pub open spec fn resolve_awaits(stage: ResolveView, event: ResolveEventView) -> bool {
    match stage {
        ResolveView::EnvToken => event is EnvToken,
        ResolveView::EnvLookup(_) => event is Lookup,
        ResolveView::FileToken => event is FileToken,
        ResolveView::FileLookup(_) => event is Lookup,
        ResolveView::KubernetesProbe => event is Kubernetes,
        ResolveView::KubernetesLogin => event is KubernetesToken,
        ResolveView::OidcLogin => event is OidcToken,
        ResolveView::SaveToken(_) => event is Saved,
        ResolveView::Finished(_) => false,
    }
}

/// The client, and the stages that the search goes through, from `stage` on to
/// its end.
pub open spec fn resolve_run(
    c: client::ClientView,
    oidc_callback: bool,
    w: Surroundings,
    stage: ResolveView,
) -> (client::ClientView, Seq<ResolveView>)
    decreases resolve_rank(stage),
{
    if stage is Finished {
        (c, seq![stage])
    } else {
        let (c1, next) = resolve::resolve_step(c, oidc_callback, stage, resolve_answer(w, stage));
        let (c2, rest) = resolve_run(c1, oidc_callback, w, next);
        (c2, seq![stage] + rest)
    }
}

/// The token of a source that is subject to a lookup, if the source has one
/// and the server accepts it.
pub open spec fn looked_up(plain: Option<Seq<char>>, lookup: Result<u16, Seq<char>>) -> Option<
    Seq<char>,
> {
    match plain {
        Some(text) if resolve::accepted(lookup) => Some(text::trimmed(text)),
        _ => None,
    }
}

/// The token that the surroundings yield without a login: the environment's,
/// or else the token file's.
pub open spec fn kept(w: Surroundings) -> Option<Seq<char>> {
    match looked_up(w.env, w.env_lookup) {
        Some(token) => Some(token),
        None => looked_up(w.file, w.file_lookup),
    }
}

/// The token that the surroundings yield to a login: that of Kubernetes in a
/// pod, or else that of the browser.
pub open spec fn logged_in(w: Surroundings) -> Option<Seq<char>> {
    if w.in_pod && w.kubernetes is Some {
        w.kubernetes
    } else {
        match w.oidc {
            Some(plain) => Some(text::trimmed(plain)),
            None => None,
        }
    }
}

/// The token that the surroundings yield: one that was kept, or else one that
/// a login gives, if logins are allowed.
pub open spec fn resolved(w: Surroundings, oidc_callback: bool) -> Option<Seq<char>> {
    match kept(w) {
        Some(token) => Some(token),
        None => if oidc_callback {
            logged_in(w)
        } else {
            None
        },
    }
}

/// What a search says of its result.
pub open spec fn resolve_result(token: Option<Seq<char>>) -> Result<Seq<char>, error::ErrView> {
    match token {
        Some(text) => Ok(text),
        None => Err(error::ErrView::InvalidToken(resolve::NO_TOKEN_FOUND@)),
    }
}

/// A search ends with the token of the first source that has a usable one,
/// and with an error where none has. In the end the token that was found is
/// the one in use, and none is in use where none was found.
pub proof fn law_search_ends_with_first_usable_token(
    c: client::ClientView,
    oidc_callback: bool,
    w: Surroundings,
)
    ensures
        ({
            let (after, stages) = resolve_run(c, oidc_callback, w, ResolveView::EnvToken);
            &&& after == c.with_token(resolved(w, oidc_callback))
            &&& stages.last() == ResolveView::Finished(resolve_result(resolved(w, oidc_callback)))
        }),
{
    reveal_with_fuel(resolve_run, 9);
}

/// Whether the search, from `stage` on, comes to a stage that is wanted.
pub open spec fn resolve_reaches(
    c: client::ClientView,
    oidc_callback: bool,
    w: Surroundings,
    stage: ResolveView,
    wanted: spec_fn(ResolveView) -> bool,
) -> bool
    decreases resolve_rank(stage),
{
    wanted(stage) || (!(stage is Finished) && {
        let (c1, next) = resolve::resolve_step(c, oidc_callback, stage, resolve_answer(w, stage));
        resolve_reaches(c1, oidc_callback, w, next, wanted)
    })
}

/// The token file is read just where the environment yields no usable token,
/// and a login is considered just where logins are allowed and the token file
/// yields none either.
pub proof fn law_sources_are_tried_in_order(
    c: client::ClientView,
    oidc_callback: bool,
    w: Surroundings,
)
    ensures
        resolve_reaches(
            c,
            oidc_callback,
            w,
            ResolveView::EnvToken,
            |s: ResolveView| s is FileToken,
        ) <==> looked_up(w.env, w.env_lookup) is None,
        resolve_reaches(
            c,
            oidc_callback,
            w,
            ResolveView::EnvToken,
            |s: ResolveView| s is KubernetesProbe,
        ) <==> oidc_callback && kept(w) is None,
{
    reveal_with_fuel(resolve_reaches, 9);
}

/// A Kubernetes login is tried just where logins are allowed, the process runs
/// in a pod, and neither the environment nor the token file yields a usable
/// token.
pub proof fn law_kubernetes_login_is_tried_in_pods(
    c: client::ClientView,
    oidc_callback: bool,
    w: Surroundings,
)
    ensures
        resolve_reaches(
            c,
            oidc_callback,
            w,
            ResolveView::EnvToken,
            |s: ResolveView| s is KubernetesLogin,
        ) <==> oidc_callback && w.in_pod && kept(w) is None,
{
    reveal_with_fuel(resolve_reaches, 9);
}

/// A login in the browser is tried just where it is allowed and no source
/// before it yields a usable token, in a pod as elsewhere.
pub proof fn law_browser_login_is_the_last_resort(
    c: client::ClientView,
    oidc_callback: bool,
    w: Surroundings,
)
    ensures
        resolve_reaches(
            c,
            oidc_callback,
            w,
            ResolveView::EnvToken,
            |s: ResolveView| s is OidcLogin,
        ) <==> oidc_callback && kept(w) is None && !(w.in_pod && w.kubernetes is Some),
{
    reveal_with_fuel(resolve_reaches, 9);
}

/// A token is saved just where it comes from a login in the browser, and what
/// is saved is the token that the search ends with.
pub proof fn law_browser_tokens_are_saved(
    c: client::ClientView,
    oidc_callback: bool,
    w: Surroundings,
    token: Seq<char>,
)
    ensures
        resolve_reaches(
            c,
            oidc_callback,
            w,
            ResolveView::EnvToken,
            |s: ResolveView| s == ResolveView::SaveToken(token),
        ) <==> kept(w) is None && !(w.in_pod && w.kubernetes is Some) && resolved(w, oidc_callback)
            == Some(token),
{
    reveal_with_fuel(resolve_reaches, 9);
}

/// Where no login is allowed, only the environment and the token file count,
/// and nothing else is consulted, not even whether the process runs in a pod.
pub proof fn law_without_logins_two_sources_count(c: client::ClientView, w: Surroundings)
    ensures
        resolved(w, false) == kept(w),
        resolve_run(c, false, w, ResolveView::EnvToken).0 == c.with_token(kept(w)),
        !resolve_reaches(
            c,
            false,
            w,
            ResolveView::EnvToken,
            |s: ResolveView|
                s is KubernetesProbe || s is KubernetesLogin || s is OidcLogin || s is SaveToken,
        ),
{
    law_search_ends_with_first_usable_token(c, false, w);
    reveal_with_fuel(resolve_reaches, 9);
}

/// Whatever token a search ends with, the server accepted it in a lookup or
/// issued it in a login.
pub proof fn law_tokens_are_accepted_or_issued(w: Surroundings, oidc_callback: bool)
    ensures
        resolved(w, oidc_callback) matches Some(token) ==> {
            ||| w.env matches Some(plain) && text::trimmed(plain) == token && resolve::accepted(
                w.env_lookup,
            )
            ||| w.file matches Some(plain) && text::trimmed(plain) == token && resolve::accepted(
                w.file_lookup,
            )
            ||| w.kubernetes == Some(token)
            ||| w.oidc matches Some(plain) && text::trimmed(plain) == token
        },
{
}

/// Whatever the outcomes are, each that a stage can have brings the search
/// nearer to its end, and any other changes nothing.
pub proof fn law_search_always_advances(
    c: client::ClientView,
    oidc_callback: bool,
    stage: ResolveView,
    event: ResolveEventView,
)
    ensures
        ({
            let (after, next) = resolve::resolve_step(c, oidc_callback, stage, event);
            &&& after.addr == c.addr
            &&& resolve_awaits(stage, event) ==> resolve_rank(next) < resolve_rank(stage)
            &&& !resolve_awaits(stage, event) ==> after == c && next == stage
        }),
{
}

/// Whether the token in use is the one that the stage speaks of, for stages
/// past which the token in use counts.
pub open spec fn in_step(c: client::ClientView, stage: ResolveView) -> bool {
    match stage {
        ResolveView::SaveToken(token) => c.token == Some(token),
        ResolveView::Finished(Ok(token)) => c.token == Some(token),
        ResolveView::Finished(Err(_)) => c.token is None,
        _ => true,
    }
}

/// Whatever the outcomes are, the token in use and the stage stay in step: a
/// search that has ended well has its token in use, and one that has failed
/// has left none in use.
pub proof fn law_token_in_use_keeps_step(
    c: client::ClientView,
    oidc_callback: bool,
    stage: ResolveView,
    event: ResolveEventView,
)
    requires
        in_step(c, stage),
    ensures
        ({
            let (after, next) = resolve::resolve_step(c, oidc_callback, stage, event);
            in_step(after, next)
        }),
{
}

/// What a Kubernetes login meets.
pub struct PodSurroundings {
    /// The value of `VAULT_K8S_ROLE`, if it is set.
    pub role: Option<Seq<char>>,
    /// The value of `VAULT_K8S_AUTH_PATH`, if it is set.
    pub auth_path: Option<Seq<char>>,
    /// The value of `VAULT_K8S_SA_TOKEN_PATH`, if it is set.
    pub token_path: Option<Seq<char>>,
    /// What is found at a path.
    pub file: spec_fn(Seq<char>) -> kubernetes::TokenFileView,
    /// The status of the reply to a request, or the HTTP client's error.
    pub status: spec_fn(http::RequestView) -> Result<u16, Seq<char>>,
    /// The body of the reply, or the HTTP client's error.
    pub body: Result<Seq<char>, Seq<char>>,
}

/// The outcome of a stage in the surroundings.
pub open spec fn k8s_answer(w: PodSurroundings, stage: K8sLoginView) -> K8sLoginEventView {
    match stage {
        K8sLoginView::LoadToken { path, .. } => K8sLoginEventView::Loaded((w.file)(path)),
        K8sLoginView::Send(request) => K8sLoginEventView::Replied((w.status)(request)),
        K8sLoginView::ReadBody => K8sLoginEventView::Body(w.body),
        _ => K8sLoginEventView::Settings {
            role: w.role,
            auth_path: w.auth_path,
            token_path: w.token_path,
        },
    }
}

/// How many stages may still follow.
pub open spec fn k8s_rank(stage: K8sLoginView) -> nat {
    match stage {
        K8sLoginView::Settings => 4,
        K8sLoginView::LoadToken { .. } => 3,
        K8sLoginView::Send(_) => 2,
        K8sLoginView::ReadBody => 1,
        K8sLoginView::Finished(_) => 0,
    }
}

/// The end of a Kubernetes login, from `stage` on.
pub open spec fn k8s_run(addr: Seq<char>, w: PodSurroundings, stage: K8sLoginView) -> K8sLoginView
    decreases k8s_rank(stage),
{
    if stage is Finished {
        stage
    } else {
        k8s_run(addr, w, kubernetes::k8s_login_step(addr, stage, k8s_answer(w, stage)))
    }
}

/// The value of a setting, or its default.
pub open spec fn or_default(setting: Option<Seq<char>>, default: Seq<char>) -> Seq<char> {
    match setting {
        Some(configured) => configured,
        None => default,
    }
}

/// The result of a Kubernetes login.
pub open spec fn k8s_result(addr: Seq<char>, w: PodSurroundings) -> Result<
    Seq<char>,
    error::ErrView,
> {
    let path = or_default(w.token_path, kubernetes::DEFAULT_K8S_SA_TOKEN_PATH@);
    let mount = or_default(w.auth_path, kubernetes::DEFAULT_K8S_AUTH_PATH@);
    match (w.role, kubernetes::service_account_token(path, (w.file)(path))) {
        (None, _) => Err(error::ErrView::InvalidToken(kubernetes::ROLE_REQUIRED@)),
        (Some(_), Err(error)) => Err(error),
        (Some(role), Ok(jwt)) => match (w.status)(
            kubernetes::login_request(addr, role, mount, jwt),
        ) {
            Err(message) => Err(error::ErrView::Http(message)),
            Ok(status) if !http::success(status) => Err(
                error::ErrView::InvalidToken(kubernetes::LOGIN_REFUSED@),
            ),
            Ok(_) => match w.body {
                Err(message) => Err(error::ErrView::Http(message)),
                Ok(text) => kubernetes::login_outcome(text),
            },
        },
    }
}

/// A Kubernetes login ends with the token that the server issued to the
/// service account under the configured role, or with the first thing that
/// went wrong.
pub proof fn law_kubernetes_login_result(addr: Seq<char>, w: PodSurroundings)
    ensures
        k8s_run(addr, w, K8sLoginView::Settings) == K8sLoginView::Finished(k8s_result(addr, w)),
{
    reveal_with_fuel(k8s_run, 5);
}

/// A Kubernetes login that gives a token had a role, found the token of the
/// service account, and got the token from a reply that reports success.
pub proof fn law_kubernetes_tokens_are_issued(addr: Seq<char>, w: PodSurroundings)
    ensures
        k8s_result(addr, w) matches Ok(token) ==> {
            let path = or_default(w.token_path, kubernetes::DEFAULT_K8S_SA_TOKEN_PATH@);
            let mount = or_default(w.auth_path, kubernetes::DEFAULT_K8S_AUTH_PATH@);
            &&& w.role matches Some(role)
            &&& (w.file)(path) matches kubernetes::TokenFileView::Contents(plain)
            &&& (w.status)(kubernetes::login_request(addr, role, mount, text::trimmed(plain)))
                matches Ok(status)
            &&& http::success(status)
            &&& w.body matches Ok(text)
            &&& json::json_parse(text) matches Ok(document)
            &&& document.at("auth"@).at("client_token"@) == json::Json::Text(token)
        },
{
}

/// What a login in the browser meets.
pub struct BrowserSurroundings {
    /// The body of the reply to a request, or the HTTP client's error.
    pub reply: spec_fn(http::RequestView) -> Result<Seq<char>, Seq<char>>,
    /// How the attempt to listen goes.
    pub listening: oidc::ListenView,
    /// Whether the browser can be opened with a URL.
    pub opens: spec_fn(Seq<char>) -> bool,
    /// The parameters of the callback, or the error that ends the server.
    pub callback: Result<oidc::OauthParamsView, Seq<char>>,
}

/// The outcome of a stage in the surroundings.
pub open spec fn oidc_answer(w: BrowserSurroundings, stage: OidcView) -> OidcEventView {
    match stage {
        OidcView::AuthUrl(request) => OidcEventView::Reply((w.reply)(request)),
        OidcView::Listen { .. } => OidcEventView::Listening(w.listening),
        OidcView::OpenBrowser(url) => OidcEventView::Browser((w.opens)(url)),
        OidcView::AwaitCallback => OidcEventView::Callback(w.callback),
        OidcView::Exchange(request) => OidcEventView::Reply((w.reply)(request)),
        _ => OidcEventView::Start,
    }
}

/// How many stages may still follow.
pub open spec fn oidc_rank(stage: OidcView) -> nat {
    match stage {
        OidcView::Begin => 6,
        OidcView::AuthUrl(_) => 5,
        OidcView::Listen { .. } => 4,
        OidcView::OpenBrowser(_) => 3,
        OidcView::AwaitCallback => 2,
        OidcView::Exchange(_) => 1,
        OidcView::Finished(_) => 0,
    }
}

/// The end of a login in the browser, from `stage` on.
pub open spec fn oidc_run(
    addr: Seq<char>,
    oidc_callback: bool,
    w: BrowserSurroundings,
    stage: OidcView,
) -> OidcView
    decreases oidc_rank(stage),
{
    if stage is Finished {
        stage
    } else {
        oidc_run(
            addr,
            oidc_callback,
            w,
            oidc::oidc_step(addr, oidc_callback, stage, oidc_answer(w, stage)),
        )
    }
}

/// The result of a login in the browser.
pub open spec fn oidc_result(addr: Seq<char>, oidc_callback: bool, w: BrowserSurroundings) -> Result<
    Seq<char>,
    error::ErrView,
> {
    if !oidc_callback {
        Err(error::ErrView::InvalidToken(oidc::OIDC_DISABLED@))
    } else {
        match (w.reply)(oidc::auth_url_request(addr)) {
            Err(message) => Err(error::ErrView::Http(message)),
            Ok(page) => match oidc::reply_field(page, "data"@, "auth_url"@) {
                Err(error) => Err(error),
                Ok(target_url) => match w.listening {
                    oidc::ListenView::BadAddress(message) => Err(
                        error::ErrView::AddrParse(message),
                    ),
                    oidc::ListenView::Failed(message) => Err(error::ErrView::Io(message)),
                    oidc::ListenView::Ready => if (w.opens)(target_url) {
                        callback_result(addr, w)
                    } else {
                        Err(error::ErrView::InvalidToken(oidc::BROWSER_FAILED@))
                    },
                },
            },
        }
    }
}

/// The result of a login in the browser, once the browser has been opened.
pub open spec fn callback_result(addr: Seq<char>, w: BrowserSurroundings) -> Result<
    Seq<char>,
    error::ErrView,
> {
    match w.callback {
        Err(message) => Err(error::ErrView::Io(message)),
        Ok(params) => if params.state is None {
            Err(error::ErrView::MissingField(oidc::MISSING_STATE@))
        } else if params.code is None {
            Err(error::ErrView::MissingField(oidc::MISSING_CODE@))
        } else {
            match (w.reply)(oidc::exchange_request(addr, params.state->0, params.code->0)) {
                Err(message) => Err(error::ErrView::Http(message)),
                Ok(body) => oidc::exchange_outcome(body),
            }
        },
    }
}

/// A login in the browser ends with the token that the server gave in exchange
/// for the state and the code of the callback, or with the first thing that
/// went wrong.
pub proof fn law_browser_login_result(addr: Seq<char>, oidc_callback: bool, w: BrowserSurroundings)
    ensures
        oidc_run(addr, oidc_callback, w, OidcView::Begin) == OidcView::Finished(
            oidc_result(addr, oidc_callback, w),
        ),
{
    reveal_with_fuel(oidc_run, 7);
}

/// A login in the browser that gives a token was allowed, opened the login
/// page that the server named, got a state and a code in the callback, and
/// exchanged just these for a reply that holds the token as the string under
/// `auth.client_token`.
pub proof fn law_browser_tokens_are_issued(
    addr: Seq<char>,
    oidc_callback: bool,
    w: BrowserSurroundings,
)
    ensures
        oidc_result(addr, oidc_callback, w) matches Ok(token) ==> {
            &&& oidc_callback
            &&& (w.reply)(oidc::auth_url_request(addr)) matches Ok(page)
            &&& oidc::reply_field(page, "data"@, "auth_url"@) matches Ok(target_url)
            &&& w.listening is Ready
            &&& (w.opens)(target_url)
            &&& w.callback matches Ok(params)
            &&& params.state matches Some(state)
            &&& params.code matches Some(code)
            &&& (w.reply)(oidc::exchange_request(addr, state, code)) matches Ok(body)
            &&& json::json_parse(body) matches Ok(document)
            &&& document.at("auth"@).at("client_token"@) == json::Json::Text(token)
        },
{
}

/// A token of the environment ends the search, and is in use then, just where
/// its lookup is answered with a status from 200 up to 299; nothing else is
/// consulted then.
pub proof fn law_search_stops_at_the_environment(
    c: client::ClientView,
    oidc_callback: bool,
    w: Surroundings,
    token: Seq<char>,
    status: u16,
)
    requires
        w.env == Some(token),
        token.len() > 0 ==> !text::is_whitespace(token.first()) && !text::is_whitespace(
            token.last(),
        ),
        w.env_lookup == Ok::<u16, Seq<char>>(status),
    ensures
        ({
            let (after, stages) = resolve_run(c, oidc_callback, w, ResolveView::EnvToken);
            &&& 200 <= status && status < 300 ==> {
                &&& stages == seq![
                    ResolveView::EnvToken,
                    ResolveView::EnvLookup(token),
                    ResolveView::Finished(Ok(token)),
                ]
                &&& after == (client::ClientView { addr: c.addr, token: Some(token) })
            }
            &&& status < 200 || 300 <= status ==> {
                &&& stages.len() > 3
                &&& stages[1] == ResolveView::EnvLookup(token)
                &&& stages[2] is FileToken
            }
        }),
{
    text::law_trimming_takes_white_space_alone(Seq::empty(), token, Seq::empty());
    reveal_with_fuel(resolve_run, 9);
    let run = resolve_run(c, oidc_callback, w, ResolveView::EnvToken);
    if 200 <= status && status < 300 {
        assert(run.1 =~= seq![
            ResolveView::EnvToken,
            ResolveView::EnvLookup(token),
            ResolveView::Finished(Ok(token)),
        ]);
    }
}

/// Where lookups are answered with statuses below 200 or from 300 on, or not at
/// all, neither the environment nor the token file can end the search: it ends
/// with what a login issued, if logins are allowed, or fails and leaves no
/// token in use.
pub proof fn law_tokens_that_are_not_validated_are_not_used(
    c: client::ClientView,
    oidc_callback: bool,
    w: Surroundings,
)
    requires
        w.env is None || (w.env_lookup matches Ok(status) ==> status < 200 || 300 <= status),
        w.file is None || (w.file_lookup matches Ok(status) ==> status < 200 || 300 <= status),
    ensures
        ({
            let (after, stages) = resolve_run(c, oidc_callback, w, ResolveView::EnvToken);
            let failed = ResolveView::Finished(
                Err(
                    error::ErrView::InvalidToken(
                        "no valid token found via env, file, Kubernetes, or OIDC login"@,
                    ),
                ),
            );
            &&& after.addr == c.addr
            &&& !oidc_callback ==> stages.last() == failed && after.token is None
            &&& oidc_callback && w.in_pod && w.kubernetes is Some ==> {
                &&& stages.last() == ResolveView::Finished(Ok(w.kubernetes->0))
                &&& after.token == w.kubernetes
            }
            &&& oidc_callback && !(w.in_pod && w.kubernetes is Some) && w.oidc is Some ==> {
                &&& stages.last() == ResolveView::Finished(Ok(text::trimmed(w.oidc->0)))
                &&& after.token == Some(text::trimmed(w.oidc->0))
            }
            &&& oidc_callback && !(w.in_pod && w.kubernetes is Some) && w.oidc is None ==> {
                &&& stages.last() == failed
                &&& after.token is None
            }
        }),
{
    reveal_with_fuel(resolve_run, 9);
}

/// Where the environment has no token that is validated, the token file's ends
/// the search if its lookup is answered with a status from 200 up to 299.
pub proof fn law_search_falls_back_on_the_token_file(
    c: client::ClientView,
    oidc_callback: bool,
    w: Surroundings,
    token: Seq<char>,
    status: u16,
)
    requires
        w.env is None || (w.env_lookup matches Ok(status) ==> status < 200 || 300 <= status),
        w.file == Some(token),
        token.len() > 0 ==> !text::is_whitespace(token.first()) && !text::is_whitespace(
            token.last(),
        ),
        w.file_lookup == Ok::<u16, Seq<char>>(status),
        200 <= status && status < 300,
    ensures
        ({
            let (after, stages) = resolve_run(c, oidc_callback, w, ResolveView::EnvToken);
            &&& stages.last() == ResolveView::Finished(Ok(token))
            &&& after == (client::ClientView { addr: c.addr, token: Some(token) })
        }),
{
    text::law_trimming_takes_white_space_alone(Seq::empty(), token, Seq::empty());
    reveal_with_fuel(resolve_run, 9);
}

} // verus!

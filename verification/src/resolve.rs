//! Finding a token that the server accepts.

use vstd::prelude::*;
use vstd::string::*;

use crate::client;
use crate::client::VaultClient;
use crate::error;
use crate::error::VaultClientErr;
use crate::secret::{seal_trimmed, SecretString};
use crate::text;
use crate::views;

verus! {

/// What is said where no source gave a usable token.
pub const NO_TOKEN_FOUND: &'static str =
    "no valid token found via env, file, Kubernetes, or OIDC login";

/// What is to be done next to find a token, and whose outcome is awaited.
#[derive(Debug)]
pub enum ResolveStage {
    /// Read the environment variable `VAULT_TOKEN`.
    EnvToken,
    /// Ask the server whether it accepts the token of the environment.
    EnvLookup(SecretString),
    /// Read the token file in the home directory.
    FileToken,
    /// Ask the server whether it accepts the token of the file.
    FileLookup(SecretString),
    /// Find out whether the process runs in a Kubernetes pod.
    KubernetesProbe,
    /// Log in through Kubernetes.
    KubernetesLogin,
    /// Log in through the browser.
    OidcLogin,
    /// Save the token of the browser login, which is in use already.
    SaveToken(SecretString),
    /// Nothing more: the token that was found, or why there is none.
    Finished(Result<SecretString, VaultClientErr>),
}

/// The outcome of a stage.
pub enum ResolveEvent {
    /// The value of the environment variable, if it is set.
    EnvToken(Option<String>),
    /// The status of the server's reply, or the message of the HTTP client's
    /// error.
    Lookup(Result<u16, String>),
    /// The contents of the token file, if it could be read.
    FileToken(Option<String>),
    /// Whether the process runs in a Kubernetes pod.
    Kubernetes(bool),
    /// The token that the Kubernetes login gave, if it succeeded.
    KubernetesToken(Option<SecretString>),
    /// The token that the browser login gave, if it succeeded.
    OidcToken(Option<String>),
    /// The token was saved, or could not be saved.
    Saved,
}

/// What a stage says.
pub enum ResolveView {
    /// See [`ResolveStage::EnvToken`].
    EnvToken,
    /// See [`ResolveStage::EnvLookup`].
    EnvLookup(Seq<char>),
    /// See [`ResolveStage::FileToken`].
    FileToken,
    /// See [`ResolveStage::FileLookup`].
    FileLookup(Seq<char>),
    /// See [`ResolveStage::KubernetesProbe`].
    KubernetesProbe,
    /// See [`ResolveStage::KubernetesLogin`].
    KubernetesLogin,
    /// See [`ResolveStage::OidcLogin`].
    OidcLogin,
    /// See [`ResolveStage::SaveToken`].
    SaveToken(Seq<char>),
    /// See [`ResolveStage::Finished`].
    Finished(Result<Seq<char>, error::ErrView>),
}

/// What the outcome of a stage says.
pub enum ResolveEventView {
    /// See [`ResolveEvent::EnvToken`].
    EnvToken(Option<Seq<char>>),
    /// See [`ResolveEvent::Lookup`].
    Lookup(Result<u16, Seq<char>>),
    /// See [`ResolveEvent::FileToken`].
    FileToken(Option<Seq<char>>),
    /// See [`ResolveEvent::Kubernetes`].
    Kubernetes(bool),
    /// See [`ResolveEvent::KubernetesToken`].
    KubernetesToken(Option<Seq<char>>),
    /// See [`ResolveEvent::OidcToken`].
    OidcToken(Option<Seq<char>>),
    /// See [`ResolveEvent::Saved`].
    Saved,
}

impl View for ResolveStage {
    type V = ResolveView;

    open spec fn view(&self) -> ResolveView {
        match self {
            ResolveStage::EnvToken => ResolveView::EnvToken,
            ResolveStage::EnvLookup(token) => ResolveView::EnvLookup(token@),
            ResolveStage::FileToken => ResolveView::FileToken,
            ResolveStage::FileLookup(token) => ResolveView::FileLookup(token@),
            ResolveStage::KubernetesProbe => ResolveView::KubernetesProbe,
            ResolveStage::KubernetesLogin => ResolveView::KubernetesLogin,
            ResolveStage::OidcLogin => ResolveView::OidcLogin,
            ResolveStage::SaveToken(token) => ResolveView::SaveToken(token@),
            ResolveStage::Finished(result) => ResolveView::Finished(views::result_view(*result)),
        }
    }
}

impl View for ResolveEvent {
    type V = ResolveEventView;

    open spec fn view(&self) -> ResolveEventView {
        match self {
            ResolveEvent::EnvToken(value) => ResolveEventView::EnvToken(views::option_view(*value)),
            ResolveEvent::Lookup(reply) => ResolveEventView::Lookup(views::reply_view(*reply)),
            ResolveEvent::FileToken(text) => ResolveEventView::FileToken(views::option_view(*text)),
            ResolveEvent::Kubernetes(inside) => ResolveEventView::Kubernetes(*inside),
            ResolveEvent::KubernetesToken(token) => ResolveEventView::KubernetesToken(
                views::option_view(*token),
            ),
            ResolveEvent::OidcToken(token) => ResolveEventView::OidcToken(
                views::option_view(*token),
            ),
            ResolveEvent::Saved => ResolveEventView::Saved,
        }
    }
}

/// Whether a lookup finds that the server accepts the token. One that got no
/// reply does not.
pub open spec fn accepted(reply: Result<u16, Seq<char>>) -> bool {
    client::lookup_verdict(reply) == Ok::<bool, error::ErrView>(true)
}

/// The end of a search that found `token`, which is now in use.
pub open spec fn found(c: client::ClientView, token: Seq<char>) -> (
    client::ClientView,
    ResolveView,
) {
    (c.with_token(Some(token)), ResolveView::Finished(Ok(token)))
}

/// The end of a search that found nothing: no token is in use any more.
pub open spec fn gave_up(c: client::ClientView) -> (client::ClientView, ResolveView) {
    (c.with_token(None), ResolveView::Finished(Err(error::ErrView::InvalidToken(NO_TOKEN_FOUND@))))
}

/// How the search goes on once neither the environment nor the token file gave
/// a usable token: with the logins, if they are allowed.
pub open spec fn past_file(c: client::ClientView, oidc_callback: bool) -> (
    client::ClientView,
    ResolveView,
) {
    if oidc_callback {
        (c, ResolveView::KubernetesProbe)
    } else {
        gave_up(c)
    }
}

/// The client and the stage after `stage` with the outcome `event`. An outcome
/// that is not the awaited one changes nothing.
pub open spec fn resolve_step(
    c: client::ClientView,
    oidc_callback: bool,
    stage: ResolveView,
    event: ResolveEventView,
) -> (client::ClientView, ResolveView) {
    match (stage, event) {
        (ResolveView::EnvToken, ResolveEventView::EnvToken(value)) => match value {
            Some(plain) => (c, ResolveView::EnvLookup(text::trimmed(plain))),
            None => (c, ResolveView::FileToken),
        },
        (ResolveView::EnvLookup(token), ResolveEventView::Lookup(reply)) => if accepted(reply) {
            found(c, token)
        } else {
            (c, ResolveView::FileToken)
        },
        (ResolveView::FileToken, ResolveEventView::FileToken(contents)) => match contents {
            Some(plain) => (c, ResolveView::FileLookup(text::trimmed(plain))),
            None => past_file(c, oidc_callback),
        },
        (ResolveView::FileLookup(token), ResolveEventView::Lookup(reply)) => if accepted(reply) {
            found(c, token)
        } else {
            past_file(c, oidc_callback)
        },
        (ResolveView::KubernetesProbe, ResolveEventView::Kubernetes(inside)) => if inside {
            (c, ResolveView::KubernetesLogin)
        } else {
            (c, ResolveView::OidcLogin)
        },
        (ResolveView::KubernetesLogin, ResolveEventView::KubernetesToken(token)) => match token {
            Some(token) => found(c, token),
            None => (c, ResolveView::OidcLogin),
        },
        (ResolveView::OidcLogin, ResolveEventView::OidcToken(token)) => match token {
            Some(plain) => {
                let token = text::trimmed(plain);
                (c.with_token(Some(token)), ResolveView::SaveToken(token))
            },
            None => gave_up(c),
        },
        (ResolveView::SaveToken(token), ResolveEventView::Saved) => (
            c,
            ResolveView::Finished(Ok(token)),
        ),
        _ => (c, stage),
    }
}

impl VaultClient {
    /// Resolves a token, one stage at a time. Starts with
    /// [`ResolveStage::EnvToken`].
    ///
    /// The sources are the environment and the token file and, if
    /// `oidc_callback` allows logins, the Kubernetes login where the process
    /// runs in a pod, and the browser login. The first token that the server
    /// accepts, or that a login gives, is put in use and is the result. Where
    /// there is none, the token in use is discarded.
    pub fn resolve_token(
        &mut self,
        oidc_callback: bool,
        stage: ResolveStage,
        event: ResolveEvent,
    ) -> (next: ResolveStage)
        ensures
            (final(self)@, next@) == resolve_step(old(self)@, oidc_callback, stage@, event@),
            final(self)@.addr == old(self)@.addr,
            match (stage, event) {
                (ResolveStage::EnvToken, ResolveEvent::EnvToken(Some(plain))) => {
                    &&& next matches ResolveStage::EnvLookup(token)
                    &&& token@ == text::trimmed(plain@)
                    &&& final(self)@ == old(self)@
                },
                (ResolveStage::FileToken, ResolveEvent::FileToken(Some(plain))) => {
                    &&& next matches ResolveStage::FileLookup(token)
                    &&& token@ == text::trimmed(plain@)
                    &&& final(self)@ == old(self)@
                },
                (ResolveStage::EnvLookup(token), ResolveEvent::Lookup(Ok(status))) => if 200
                    <= status && status < 300 {
                    &&& next matches ResolveStage::Finished(Ok(found))
                    &&& found@ == token@
                    &&& final(self)@.token == Some(token@)
                } else {
                    &&& next is FileToken
                    &&& final(self)@ == old(self)@
                },
                (ResolveStage::FileLookup(token), ResolveEvent::Lookup(Ok(status))) => if 200
                    <= status && status < 300 {
                    &&& next matches ResolveStage::Finished(Ok(found))
                    &&& found@ == token@
                    &&& final(self)@.token == Some(token@)
                } else {
                    next is KubernetesProbe || next matches ResolveStage::Finished(Err(_))
                },
                (ResolveStage::EnvLookup(_), ResolveEvent::Lookup(Err(_))) => next is FileToken,
                (ResolveStage::FileLookup(_), ResolveEvent::Lookup(Err(_))) => next
                    is KubernetesProbe || next matches ResolveStage::Finished(Err(_)),
                (ResolveStage::KubernetesLogin, ResolveEvent::KubernetesToken(Some(token))) => {
                    &&& next matches ResolveStage::Finished(Ok(found))
                    &&& found@ == token@
                    &&& final(self)@.token == Some(token@)
                },
                (ResolveStage::OidcLogin, ResolveEvent::OidcToken(Some(plain))) => {
                    &&& next matches ResolveStage::SaveToken(token)
                    &&& token@ == text::trimmed(plain@)
                    &&& final(self)@.token == Some(text::trimmed(plain@))
                },
                (ResolveStage::SaveToken(token), ResolveEvent::Saved) => {
                    &&& next matches ResolveStage::Finished(Ok(found))
                    &&& found@ == token@
                    &&& final(self)@ == old(self)@
                },
                (ResolveStage::EnvToken, ResolveEvent::EnvToken(None)) => next is FileToken
                    && final(self)@ == old(self)@,
                (ResolveStage::FileToken, ResolveEvent::FileToken(None)) => if oidc_callback {
                    next is KubernetesProbe && final(self)@ == old(self)@
                } else {
                    next matches ResolveStage::Finished(Err(_)) && final(self)@.token is None
                },
                (ResolveStage::KubernetesProbe, ResolveEvent::Kubernetes(inside)) => {
                    &&& inside ==> next is KubernetesLogin
                    &&& !inside ==> next is OidcLogin
                    &&& final(self)@ == old(self)@
                },
                (ResolveStage::KubernetesLogin, ResolveEvent::KubernetesToken(None)) => next
                    is OidcLogin && final(self)@ == old(self)@,
                (ResolveStage::OidcLogin, ResolveEvent::OidcToken(None)) =>
                    next matches ResolveStage::Finished(Err(_)) && final(self)@.token is None,
                _ => next == stage && final(self)@ == old(self)@,
            },
    {
        match (stage, event) {
            (ResolveStage::EnvToken, ResolveEvent::EnvToken(value)) => match Self::env_token(value) {
                Some(token) => ResolveStage::EnvLookup(token),
                None => ResolveStage::FileToken,
            },
            (ResolveStage::EnvLookup(token), ResolveEvent::Lookup(reply)) => {
                if Self::is_accepted(reply) {
                    self.finish_with(token)
                } else {
                    ResolveStage::FileToken
                }
            },
            (ResolveStage::FileToken, ResolveEvent::FileToken(contents)) => match contents {
                Some(plain) => {
                    let mut plain = plain;
                    ResolveStage::FileLookup(seal_trimmed(&mut plain))
                },
                None => self.pass_file(oidc_callback),
            },
            (ResolveStage::FileLookup(token), ResolveEvent::Lookup(reply)) => {
                if Self::is_accepted(reply) {
                    self.finish_with(token)
                } else {
                    self.pass_file(oidc_callback)
                }
            },
            (ResolveStage::KubernetesProbe, ResolveEvent::Kubernetes(inside)) => {
                if inside {
                    ResolveStage::KubernetesLogin
                } else {
                    ResolveStage::OidcLogin
                }
            },
            (ResolveStage::KubernetesLogin, ResolveEvent::KubernetesToken(token)) => match token {
                Some(token) => self.finish_with(token),
                None => ResolveStage::OidcLogin,
            },
            (ResolveStage::OidcLogin, ResolveEvent::OidcToken(token)) => match token {
                Some(plain) => {
                    let mut plain = plain;
                    let token = seal_trimmed(&mut plain);
                    self.replace_token(&token);
                    ResolveStage::SaveToken(token)
                },
                None => self.give_up(),
            },
            (ResolveStage::SaveToken(token), ResolveEvent::Saved) => ResolveStage::Finished(
                Ok(token),
            ),
            (stage, _) => stage,
        }
    }

    /// Whether a lookup finds that the server accepts the token.
    fn is_accepted(reply: Result<u16, String>) -> (b: bool)
        ensures
            b == accepted(views::reply_view(reply)),
            b == (reply matches Ok(status) && 200 <= status && status < 300),
    {
        match Self::lookup_outcome(reply) {
            Ok(validated) => validated,
            Err(_) => false,
        }
    }

    /// Ends the search with `token`.
    fn finish_with(&mut self, token: SecretString) -> (next: ResolveStage)
        ensures
            (final(self)@, next@) == found(old(self)@, token@),
    {
        self.replace_token(&token);
        ResolveStage::Finished(Ok(token))
    }

    /// Goes on once neither the environment nor the token file gave a usable
    /// token.
    fn pass_file(&mut self, oidc_callback: bool) -> (next: ResolveStage)
        ensures
            (final(self)@, next@) == past_file(old(self)@, oidc_callback),
    {
        if oidc_callback {
            ResolveStage::KubernetesProbe
        } else {
            self.give_up()
        }
    }

    /// Ends the search with nothing.
    fn give_up(&mut self) -> (next: ResolveStage)
        ensures
            (final(self)@, next@) == gave_up(old(self)@),
    {
        self.discard_token();
        ResolveStage::Finished(Err(VaultClientErr::InvalidToken(NO_TOKEN_FOUND.to_owned())))
    }
}

/// A lookup decides about its token by the status of the answer alone. From
/// 200 up to 299 the search ends with just this token, which is put in use;
/// any other status, from a server that is sealed as from one that refuses,
/// and no answer at all, leave the token in use as it was and send the search
/// on: from the environment to the token file.
pub proof fn law_env_lookup_decides_by_status(
    c: client::ClientView,
    oidc_callback: bool,
    token: Seq<char>,
    status: u16,
    message: Seq<char>,
)
    ensures
        ({
            let stage = ResolveView::EnvLookup(token);
            let (after, next) = resolve_step(
                c,
                oidc_callback,
                stage,
                ResolveEventView::Lookup(Ok(status)),
            );
            let lost = resolve_step(
                c,
                oidc_callback,
                stage,
                ResolveEventView::Lookup(Err(message)),
            );
            &&& 200 <= status && status < 300 ==> {
                &&& next == ResolveView::Finished(Ok(token))
                &&& after.token == Some(token)
                &&& after.addr == c.addr
            }
            &&& status < 200 || 300 <= status ==> next is FileToken && after == c
            &&& lost.1 is FileToken && lost.0 == c
        }),
{
}

/// A lookup of the token file's token decides in the same way; the search then
/// goes on to the logins where they are allowed. Where they are not, it fails,
/// and no token is in use any more.
pub proof fn law_file_lookup_decides_by_status(
    c: client::ClientView,
    oidc_callback: bool,
    token: Seq<char>,
    status: u16,
    message: Seq<char>,
)
    ensures
        ({
            let stage = ResolveView::FileLookup(token);
            let (after, next) = resolve_step(
                c,
                oidc_callback,
                stage,
                ResolveEventView::Lookup(Ok(status)),
            );
            let lost = resolve_step(
                c,
                oidc_callback,
                stage,
                ResolveEventView::Lookup(Err(message)),
            );
            &&& 200 <= status && status < 300 ==> {
                &&& next == ResolveView::Finished(Ok(token))
                &&& after.token == Some(token)
                &&& after.addr == c.addr
            }
            &&& status < 200 || 300 <= status ==> {
                &&& (after, next) == lost
                &&& oidc_callback ==> next is KubernetesProbe && after == c
                &&& !oidc_callback ==> {
                    &&& next == ResolveView::Finished(
                        Err(
                            error::ErrView::InvalidToken(
                                "no valid token found via env, file, Kubernetes, or OIDC login"@,
                            ),
                        ),
                    )
                    &&& after.token is None
                    &&& after.addr == c.addr
                }
            }
        }),
{
}

/// A source that has a token hands on the whole of it, less the white space
/// around it; a source that has none is passed over.
pub proof fn law_sources_hand_on_the_whole_token(
    c: client::ClientView,
    oidc_callback: bool,
    before: Seq<char>,
    token: Seq<char>,
    after: Seq<char>,
)
    requires
        forall|k: int| 0 <= k < before.len() ==> text::is_whitespace(#[trigger] before[k]),
        forall|k: int| 0 <= k < after.len() ==> text::is_whitespace(#[trigger] after[k]),
        token.len() > 0 ==> !text::is_whitespace(token.first()) && !text::is_whitespace(
            token.last(),
        ),
    ensures
        ({
            let plain = before + token + after;
            let env = ResolveView::EnvToken;
            let file = ResolveView::FileToken;
            let browser = ResolveView::OidcLogin;
            &&& resolve_step(c, oidc_callback, env, ResolveEventView::EnvToken(Some(plain))) == (
                c,
                ResolveView::EnvLookup(token),
            )
            &&& resolve_step(c, oidc_callback, env, ResolveEventView::EnvToken(None)) == (c, file)
            &&& resolve_step(c, oidc_callback, file, ResolveEventView::FileToken(Some(plain))) == (
                c,
                ResolveView::FileLookup(token),
            )
            &&& resolve_step(c, oidc_callback, file, ResolveEventView::FileToken(None)) == if
                oidc_callback {
                (c, ResolveView::KubernetesProbe)
            } else {
                (
                    client::ClientView { addr: c.addr, token: None },
                    ResolveView::Finished(
                        Err(
                            error::ErrView::InvalidToken(
                                "no valid token found via env, file, Kubernetes, or OIDC login"@,
                            ),
                        ),
                    ),
                )
            }
            &&& resolve_step(c, oidc_callback, browser, ResolveEventView::OidcToken(Some(plain)))
                == (
                client::ClientView { addr: c.addr, token: Some(token) },
                ResolveView::SaveToken(token),
            )
        }),
{
    text::law_trimming_takes_white_space_alone(before, token, after);
}

/// A token that a login issued is put in use as it was issued; in a pod the
/// Kubernetes login comes first, and the browser's follows where it gives
/// nothing.
pub proof fn law_logins_issue_the_token(
    c: client::ClientView,
    oidc_callback: bool,
    token: Seq<char>,
)
    ensures
        ({
            let probe = ResolveView::KubernetesProbe;
            let login = ResolveView::KubernetesLogin;
            &&& resolve_step(c, oidc_callback, probe, ResolveEventView::Kubernetes(true)) == (
                c,
                login,
            )
            &&& resolve_step(c, oidc_callback, probe, ResolveEventView::Kubernetes(false)) == (
                c,
                ResolveView::OidcLogin,
            )
            &&& resolve_step(
                c,
                oidc_callback,
                login,
                ResolveEventView::KubernetesToken(Some(token)),
            ) == (
                client::ClientView { addr: c.addr, token: Some(token) },
                ResolveView::Finished(Ok(token)),
            )
            &&& resolve_step(c, oidc_callback, login, ResolveEventView::KubernetesToken(None)) == (
                c,
                ResolveView::OidcLogin,
            )
            &&& resolve_step(
                c,
                oidc_callback,
                ResolveView::SaveToken(token),
                ResolveEventView::Saved,
            ) == (c, ResolveView::Finished(Ok(token)))
            &&& resolve_step(
                c,
                oidc_callback,
                ResolveView::OidcLogin,
                ResolveEventView::OidcToken(None),
            ) == (
                client::ClientView { addr: c.addr, token: None },
                ResolveView::Finished(
                    Err(
                        error::ErrView::InvalidToken(
                            "no valid token found via env, file, Kubernetes, or OIDC login"@,
                        ),
                    ),
                ),
            )
        }),
{
}

} // verus!

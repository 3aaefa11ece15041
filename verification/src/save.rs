//! Keeping the token in a file for later sessions.

use vstd::prelude::*;

use crate::client;
use crate::client::VaultClient;
use crate::secret::SecretString;

verus! {

/// What is to be done next to save the token, and whose outcome is awaited.
#[derive(Debug)]
pub enum SaveStage {
    /// Find the home directory.
    FindHome,
    /// Write the text to the token file in the home directory.
    Write(SecretString),
    /// Give the token file these permissions.
    Restrict(u32),
    /// Nothing more.
    Finished,
}

/// The outcome of a stage.
#[derive(Debug)]
pub enum SaveEvent {
    /// Whether there is a home directory.
    Home(bool),
    /// Whether the token file was written.
    Written(bool),
    /// The permissions were set, or could not be set.
    Restricted,
}

/// What a stage says.
pub enum SaveView {
    /// See [`SaveStage::FindHome`].
    FindHome,
    /// See [`SaveStage::Write`].
    Write(Seq<char>),
    /// See [`SaveStage::Restrict`].
    Restrict(u32),
    /// See [`SaveStage::Finished`].
    Finished,
}

impl View for SaveStage {
    type V = SaveView;

    open spec fn view(&self) -> SaveView {
        match self {
            SaveStage::FindHome => SaveView::FindHome,
            SaveStage::Write(text) => SaveView::Write(text@),
            SaveStage::Restrict(mode) => SaveView::Restrict(*mode),
            SaveStage::Finished => SaveView::Finished,
        }
    }
}

/// The stage after `stage` with the outcome `event`. An outcome that is not
/// the awaited one changes nothing.
pub open spec fn save_step(
    token: Option<Seq<char>>,
    stage: SaveView,
    event: SaveEvent,
) -> SaveView {
    match (stage, event) {
        (SaveView::FindHome, SaveEvent::Home(found)) => match token {
            Some(text) if found => SaveView::Write(text),
            _ => SaveView::Finished,
        },
        (SaveView::Write(_), SaveEvent::Written(done)) => if done {
            SaveView::Restrict(client::TOKEN_FILE_MODE)
        } else {
            SaveView::Finished
        },
        (SaveView::Restrict(_), SaveEvent::Restricted) => SaveView::Finished,
        _ => stage,
    }
}

impl VaultClient {
    /// Saves the token in use, one stage at a time. Starts with
    /// [`SaveStage::FindHome`]. A failure on the way ends the attempt and is
    /// no error.
    pub fn save_token(&self, stage: SaveStage, event: SaveEvent) -> (next: SaveStage)
        ensures
            next@ == save_step(self@.token, stage@, event),
            match (stage, event) {
                (SaveStage::FindHome, SaveEvent::Home(true)) => match self@.token {
                    Some(token) => next matches SaveStage::Write(text) && text@ == token,
                    None => next is Finished,
                },
                (SaveStage::FindHome, SaveEvent::Home(false)) => next is Finished,
                (SaveStage::Write(_), SaveEvent::Written(true)) => next matches SaveStage::Restrict(
                    mode,
                ) && mode == 0o600,
                (SaveStage::Write(_), SaveEvent::Written(false)) => next is Finished,
                (SaveStage::Restrict(_), SaveEvent::Restricted) => next is Finished,
                _ => next == stage,
            },
    {
        match (stage, event) {
            (SaveStage::FindHome, SaveEvent::Home(found)) => match self.token() {
                Some(token) if found => SaveStage::Write(token.clone()),
                _ => SaveStage::Finished,
            },
            (SaveStage::Write(_), SaveEvent::Written(done)) => if done {
                SaveStage::Restrict(client::TOKEN_FILE_MODE)
            } else {
                SaveStage::Finished
            },
            (SaveStage::Restrict(_), SaveEvent::Restricted) => SaveStage::Finished,
            (stage, _) => stage,
        }
    }
}

/// An attempt to save writes the token in use, if there is one and a home
/// directory, and nothing else; a file that was written is made private to
/// its owner; and the attempt always ends.
pub proof fn law_saved_token_is_private(token: Option<Seq<char>>, home: bool, written: bool)
    ensures
        ({
            let first = save_step(token, SaveView::FindHome, SaveEvent::Home(home));
            let second = save_step(token, first, SaveEvent::Written(written));
            let third = save_step(token, second, SaveEvent::Restricted);
            &&& first == match token {
                Some(text) if home => SaveView::Write(text),
                _ => SaveView::Finished,
            }
            &&& second == if first is Write && written {
                SaveView::Restrict(0o600)
            } else {
                SaveView::Finished
            }
            &&& third == SaveView::Finished
        }),
{
}

/// At any stage, only the awaited outcome counts: a token that was written is
/// always made private, whatever was written, and an outcome out of turn
/// changes nothing.
pub proof fn law_saving_goes_on_in_turn(
    token: Option<Seq<char>>,
    stage: SaveView,
    event: SaveEvent,
    text: Seq<char>,
    mode: u32,
)
    ensures
        save_step(token, SaveView::Write(text), SaveEvent::Written(true)) == SaveView::Restrict(
            0o600,
        ),
        save_step(token, SaveView::Write(text), SaveEvent::Written(false)) is Finished,
        save_step(token, SaveView::Restrict(mode), SaveEvent::Restricted) is Finished,
        save_step(None, SaveView::FindHome, SaveEvent::Home(true)) is Finished,
        save_step(Some(text), SaveView::FindHome, SaveEvent::Home(true)) == SaveView::Write(text),
        save_step(token, SaveView::FindHome, SaveEvent::Home(false)) is Finished,
        !(stage is FindHome && event is Home) && !(stage is Write && event is Written) && !(stage
            is Restrict && event is Restricted) ==> save_step(token, stage, event) == stage,
{
}

} // verus!

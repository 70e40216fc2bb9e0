//! The page's state: the result of the last submission and the flags that
//! show the navigation menu and the two legal-notice dialogs. Every change
//! goes through one of the transitions below, and what the page shows is a
//! function of the state alone (`AppState::render`).

use vstd::prelude::*;
use vstd::string::*;
use crate::encoder::{
    encoded, make_qr_code, EncodeError, EncodeRequest, DEFAULT_DARK_COLOR, DEFAULT_LIGHT_COLOR,
    DEFAULT_SIDE,
};

verus! {

/// The outcome of one submission.
pub enum EncodeResult {
    Success(String),
    Failure,
}

/// `EncodeResult` with the URL as a sequence of characters.
pub enum EncodeResultView {
    Success(Seq<char>),
    Failure,
}

impl View for EncodeResult {
    type V = EncodeResultView;

    open spec fn view(&self) -> EncodeResultView {
        match self {
            EncodeResult::Success(url) => EncodeResultView::Success(url@),
            EncodeResult::Failure => EncodeResultView::Failure,
        }
    }
}

/// The outcome that an encoding result is shown as.
pub open spec fn outcome_of(r: Result<Seq<char>, EncodeError>) -> EncodeResultView {
    match r {
        Ok(url) => EncodeResultView::Success(url),
        Err(_) => EncodeResultView::Failure,
    }
}

/// The abstract state of the page.
pub struct AppStateView {
    pub last_result: Option<EncodeResultView>,
    pub menu_open: bool,
    pub terms_modal_open: bool,
    pub privacy_modal_open: bool,
}

/// The state at the start of a session: nothing submitted, all closed.
pub open spec fn initial_state() -> AppStateView {
    AppStateView {
        last_result: None,
        menu_open: false,
        terms_modal_open: false,
        privacy_modal_open: false,
    }
}

/// After the form is submitted with `text`: the text is encoded at the
/// default size and colours, and the outcome replaces the last result.
pub open spec fn submitted(s: AppStateView, text: Seq<char>) -> AppStateView {
    AppStateView {
        last_result: Some(
            outcome_of(
                encoded(text, DEFAULT_SIDE, DEFAULT_SIDE, DEFAULT_DARK_COLOR@, DEFAULT_LIGHT_COLOR@),
            ),
        ),
        ..s
    }
}

/// After the menu button is clicked: the menu flag flips.
pub open spec fn menu_toggled(s: AppStateView) -> AppStateView {
    AppStateView { menu_open: !s.menu_open, ..s }
}

/// After the terms-of-use dialog is opened (`open`) or closed.
pub open spec fn terms_modal_set(s: AppStateView, open: bool) -> AppStateView {
    AppStateView { terms_modal_open: open, ..s }
}

/// After the privacy-policy dialog is opened (`open`) or closed.
pub open spec fn privacy_modal_set(s: AppStateView, open: bool) -> AppStateView {
    AppStateView { privacy_modal_open: open, ..s }
}

pub open spec fn burger_class_of(open: bool) -> Seq<char> {
    if open {
        "navbar-burger is-active"@
    } else {
        "navbar-burger"@
    }
}

pub open spec fn menu_class_of(open: bool) -> Seq<char> {
    if open {
        "navbar-menu is-active"@
    } else {
        "navbar-menu"@
    }
}

pub open spec fn modal_class_of(open: bool) -> Seq<char> {
    if open {
        "modal is-active"@
    } else {
        "modal"@
    }
}

/// The menu and dialog transitions never touch the last result, and a
/// submission never touches the menu or dialog flags.
pub proof fn lemma_transitions_independent(s: AppStateView, text: Seq<char>, open: bool)
    ensures
        menu_toggled(s).last_result == s.last_result,
        terms_modal_set(s, open).last_result == s.last_result,
        privacy_modal_set(s, open).last_result == s.last_result,
        submitted(s, text).menu_open == s.menu_open,
        submitted(s, text).terms_modal_open == s.terms_modal_open,
        submitted(s, text).privacy_modal_open == s.privacy_modal_open,
{
}

/// The two dialogs do not exclude each other: opening the terms of use and
/// then the privacy policy leaves both open.
pub proof fn lemma_dialogs_not_exclusive(s: AppStateView)
    ensures
        ({
            let t = privacy_modal_set(terms_modal_set(s, true), true);
            t.terms_modal_open && t.privacy_modal_open
        }),
{
}

/// Toggling the menu twice gives back the state it started from.
pub proof fn lemma_toggle_menu_twice(s: AppStateView)
    ensures
        menu_toggled(menu_toggled(s)) == s,
{
}

/// Name of the file that the image's download link saves.
pub const DOWNLOAD_FILE_NAME: &'static str = "QR-code.svg";

/// What the page shows for one state.
pub struct PageView {
    /// Whether the banner that says encoding failed is shown.
    pub error_banner: bool,
    /// The URL of the image panel, which serves both as the preview's source
    /// and as the download link; `None` when the panel is hidden.
    pub image_url: Option<String>,
    pub burger_class: String,
    pub menu_class: String,
    pub terms_modal_class: String,
    pub privacy_modal_class: String,
}

/// The state of one page session.
pub struct AppState {
    last_result: Option<EncodeResult>,
    menu_open: bool,
    terms_modal_open: bool,
    privacy_modal_open: bool,
}

impl View for AppState {
    type V = AppStateView;

    closed spec fn view(&self) -> AppStateView {
        AppStateView {
            last_result: match self.last_result {
                Some(r) => Some(r@),
                None => None,
            },
            menu_open: self.menu_open,
            terms_modal_open: self.terms_modal_open,
            privacy_modal_open: self.privacy_modal_open,
        }
    }
}

fn class_string(open: bool, active: &str, dormant: &str) -> (r: String)
    ensures
        r@ == (if open { active@ } else { dormant@ }),
{
    if open {
        String::from_str(active)
    } else {
        String::from_str(dormant)
    }
}

impl AppState {
    pub fn new() -> (r: AppState)
        ensures
            r@ == initial_state(),
    {
        AppState {
            last_result: None,
            menu_open: false,
            terms_modal_open: false,
            privacy_modal_open: false,
        }
    }

    /// Encodes `text` at the default size and colours and keeps the outcome
    /// as the last result.
    pub fn submit(&mut self, text: &str)
        ensures
            final(self)@ == submitted(old(self)@, text@),
    {
        let request = EncodeRequest::with_text(text);
        let outcome = match make_qr_code(request) {
            Ok(url) => EncodeResult::Success(url),
            Err(_) => EncodeResult::Failure,
        };
        self.last_result = Some(outcome);
    }

    pub fn toggle_menu(&mut self)
        ensures
            final(self)@ == menu_toggled(old(self)@),
    {
        self.menu_open = !self.menu_open;
    }

    pub fn open_terms_modal(&mut self)
        ensures
            final(self)@ == terms_modal_set(old(self)@, true),
    {
        self.terms_modal_open = true;
    }

    pub fn close_terms_modal(&mut self)
        ensures
            final(self)@ == terms_modal_set(old(self)@, false),
    {
        self.terms_modal_open = false;
    }

    pub fn open_privacy_modal(&mut self)
        ensures
            final(self)@ == privacy_modal_set(old(self)@, true),
    {
        self.privacy_modal_open = true;
    }

    pub fn close_privacy_modal(&mut self)
        ensures
            final(self)@ == privacy_modal_set(old(self)@, false),
    {
        self.privacy_modal_open = false;
    }

    pub fn is_menu_open(&self) -> (r: bool)
        ensures
            r == self@.menu_open,
    {
        self.menu_open
    }

    pub fn is_terms_modal_open(&self) -> (r: bool)
        ensures
            r == self@.terms_modal_open,
    {
        self.terms_modal_open
    }

    pub fn is_privacy_modal_open(&self) -> (r: bool)
        ensures
            r == self@.privacy_modal_open,
    {
        self.privacy_modal_open
    }

    /// Whether the last submission failed.
    pub fn is_error(&self) -> (r: bool)
        ensures
            r == (self@.last_result == Some(EncodeResultView::Failure)),
    {
        match &self.last_result {
            Some(EncodeResult::Failure) => true,
            _ => false,
        }
    }

    /// The URL that the last submission produced, if it succeeded.
    pub fn data_url(&self) -> (r: Option<String>)
        ensures
            match r {
                Some(url) => self@.last_result == Some(EncodeResultView::Success(url@)),
                None => !(self@.last_result matches Some(EncodeResultView::Success(_))),
            },
    {
        match &self.last_result {
            Some(EncodeResult::Success(url)) => Some(url.clone()),
            _ => None,
        }
    }

    /// What the page shows in this state.
    pub fn render(&self) -> (r: PageView)
        ensures
            r.error_banner == (self@.last_result == Some(EncodeResultView::Failure)),
            match r.image_url {
                Some(url) => self@.last_result == Some(EncodeResultView::Success(url@)),
                None => !(self@.last_result matches Some(EncodeResultView::Success(_))),
            },
            r.burger_class@ == burger_class_of(self@.menu_open),
            r.menu_class@ == menu_class_of(self@.menu_open),
            r.terms_modal_class@ == modal_class_of(self@.terms_modal_open),
            r.privacy_modal_class@ == modal_class_of(self@.privacy_modal_open),
    {
        PageView {
            error_banner: self.is_error(),
            image_url: self.data_url(),
            burger_class: class_string(self.menu_open, "navbar-burger is-active", "navbar-burger"),
            menu_class: class_string(self.menu_open, "navbar-menu is-active", "navbar-menu"),
            terms_modal_class: class_string(self.terms_modal_open, "modal is-active", "modal"),
            privacy_modal_class: class_string(self.privacy_modal_open, "modal is-active", "modal"),
        }
    }
}

} // verus!

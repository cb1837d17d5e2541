//! The add-remote popup: a yes/no prompt followed by a two-field form whose
//! input is validated before the remote is added.

use crate::app::{Action, BackendRequest, ProgramEvent};
use crate::components::ComponentType;
use crate::error::Error;
use crate::keys::{KeyCode, KeyEvent, KeyModifiers};
use crate::strutil::{spec_trim, trim_str};
use vstd::prelude::*;

verus! {

/// Whether the regular expression `pattern` matches `text`.
pub uninterp spec fn regex_match(pattern: Seq<char>, text: Seq<char>) -> bool;

/// Whether `pattern` is a well-formed regular expression: compiling it is a
/// function of the pattern alone.
pub uninterp spec fn regex_compiles(pattern: Seq<char>) -> bool;

/// Relies on `regex::Regex::new` (deterministic in the pattern) and
/// `regex::Regex::is_match`: whether the regular expression matches the
/// text, or `None` when the pattern does not compile.
#[verifier::external_body]
fn regex_is_match(pattern: &str, text: &str) -> (r: Option<bool>)
    ensures
        r is Some <==> regex_compiles(pattern@),
        r matches Some(b) ==> b == regex_match(pattern@, text@),
{
    match regex::Regex::new(pattern) {
        Ok(re) => Some(re.is_match(text)),
        Err(_) => None,
    }
}

/// The pattern a remote URL must match.
pub open spec fn url_pattern() -> Seq<char> {
    r"^(([A-Za-z0-9]+@|http(|s)://)|(http(|s)://[A-Za-z0-9]+@))([A-Za-z0-9.]+(:\d+)?)(?::|/)([\d/\w.-]+?)(\.git){1}$"@
}

/// The pattern that catches characters a remote name may not hold.
pub open spec fn invalid_remote_pattern() -> Seq<char> {
    r"[^\w\s\d -]"@
}

/// What the form's validation concluded.
#[derive(Clone, Copy, Debug, PartialEq)]
pub enum InputValidation {
    Valid,
    InvalidUrl,
    InvalidRemote,
}

/// What the form's validation concludes from the patterns: the URL must match its pattern and the remote name
/// must hold no invalid character.  A pattern that does not compile counts
/// against the input it guards.
pub open spec fn validation_outcome(remote: Seq<char>, url: Seq<char>) -> InputValidation {
    if !regex_compiles(url_pattern()) || !regex_match(url_pattern(), url) {
        InputValidation::InvalidUrl
    } else if !regex_compiles(invalid_remote_pattern()) || regex_match(
        invalid_remote_pattern(),
        remote,
    ) {
        InputValidation::InvalidRemote
    } else {
        InputValidation::Valid
    }
}

/// Judge the two match results: the URL must have matched its pattern, and
/// the remote name must not hold an invalid character.  A pattern that did
/// not compile counts against the input it guards.
pub fn classify_validation(url_ok: Option<bool>, remote_invalid: Option<bool>) -> (v:
    InputValidation)
    ensures
        url_ok != Some(true) ==> v == InputValidation::InvalidUrl,
        url_ok == Some(true) && remote_invalid != Some(false) ==> v
            == InputValidation::InvalidRemote,
        url_ok == Some(true) && remote_invalid == Some(false) ==> v == InputValidation::Valid,
{
    match url_ok {
        Some(true) => match remote_invalid {
            Some(false) => InputValidation::Valid,
            _ => InputValidation::InvalidRemote,
        },
        _ => InputValidation::InvalidUrl,
    }
}

pub struct RemotePopupComponent {
    pub error_message: String,
    pub input_source: u8,
    pub prompt_user: bool,
    pub remote_input: String,
    pub state: Option<usize>,
    pub url_input: String,
    pub visible: bool,
}

impl RemotePopupComponent {
    pub fn new() -> (p: Self)
        ensures
            p.error_message@.len() == 0,
            p.input_source == 0,
            p.prompt_user,
            p.remote_input@.len() == 0,
            p.state == Some(0usize),
            p.url_input@.len() == 0,
            !p.visible,
    {
        Self {
            error_message: String::new(),
            input_source: 0,
            prompt_user: true,
            remote_input: String::new(),
            state: Some(0),
            url_input: String::new(),
            visible: false,
        }
    }

    pub fn visible(&self) -> (v: bool)
        ensures
            v == self.visible,
    {
        self.visible
    }

    pub fn focus(&mut self, focus: bool)
        ensures
            *final(self) == (RemotePopupComponent { visible: focus, ..*old(self) }),
    {
        self.visible = focus;
    }

    /// Move the edit cursor to the other input field.
    fn switch_input_source(&mut self)
        ensures
            *final(self) == (RemotePopupComponent {
                input_source: if old(self).input_source == 0 {
                    1u8
                } else {
                    0u8
                },
                ..*old(self)
            }),
    {
        self.input_source = if self.input_source == 0 {
            1
        } else {
            0
        };
    }

    /// Append a character to the field under edit, clearing any error.
    fn push_input(&mut self, c: char)
        ensures
            final(self).error_message@.len() == 0,
            old(self).input_source == 0 ==> *final(self) == (RemotePopupComponent {
                error_message: final(self).error_message,
                remote_input: final(self).remote_input,
                ..*old(self)
            }) && final(self).remote_input@ == old(self).remote_input@.push(c),
            old(self).input_source != 0 ==> *final(self) == (RemotePopupComponent {
                error_message: final(self).error_message,
                url_input: final(self).url_input,
                ..*old(self)
            }) && final(self).url_input@ == old(self).url_input@.push(c),
    {
        self.error_message.clear();
        if self.input_source == 0 {
            self.remote_input.push(c);
        } else {
            self.url_input.push(c);
        }
    }

    /// Remove the last character of the field under edit, clearing any
    /// error.
    fn pop_input(&mut self)
        ensures
            final(self).error_message@.len() == 0,
            old(self).input_source == 0 ==> *final(self) == (RemotePopupComponent {
                error_message: final(self).error_message,
                remote_input: final(self).remote_input,
                ..*old(self)
            }) && final(self).remote_input@ == if old(self).remote_input@.len() > 0 {
                old(self).remote_input@.drop_last()
            } else {
                old(self).remote_input@
            },
            old(self).input_source != 0 ==> *final(self) == (RemotePopupComponent {
                error_message: final(self).error_message,
                url_input: final(self).url_input,
                ..*old(self)
            }) && final(self).url_input@ == if old(self).url_input@.len() > 0 {
                old(self).url_input@.drop_last()
            } else {
                old(self).url_input@
            },
    {
        self.error_message.clear();
        if self.input_source == 0 {
            self.remote_input.pop();
        } else {
            self.url_input.pop();
        }
    }

    /// Check the form: the URL against the URL pattern, the remote name
    /// against the invalid-character pattern.  On failure the form's error
    /// message names the failing field.
    fn validate_input(&mut self) -> (r: bool)
        ensures
            ({
                let outcome = validation_outcome(old(self).remote_input@, old(self).url_input@);
                &&& r == (outcome == InputValidation::Valid)
                &&& (r ==> *final(self) == *old(self))
                &&& (!r ==> *final(self) == (RemotePopupComponent {
                    error_message: final(self).error_message,
                    ..*old(self)
                }))
                &&& (outcome == InputValidation::InvalidUrl ==> final(self).error_message@
                    == "Invalid URL"@)
                &&& (outcome == InputValidation::InvalidRemote ==> final(self).error_message@
                    == "Invalid remote name"@)
            }),
    {
        let url_ok = regex_is_match(
            r"^(([A-Za-z0-9]+@|http(|s)://)|(http(|s)://[A-Za-z0-9]+@))([A-Za-z0-9.]+(:\d+)?)(?::|/)([\d/\w.-]+?)(\.git){1}$",
            self.url_input.as_str(),
        );
        let remote_invalid = regex_is_match(r"[^\w\s\d -]", self.remote_input.as_str());
        match classify_validation(url_ok, remote_invalid) {
            InputValidation::Valid => true,
            InputValidation::InvalidUrl => {
                self.error_message = "Invalid URL".to_owned();
                false
            },
            InputValidation::InvalidRemote => {
                self.error_message = "Invalid remote name".to_owned();
                false
            },
        }
    }

    /// Close the form and hand focus back to the file screen.
    fn reset(&mut self) -> (r: Vec<Action>)
        ensures
            final(self).visible == false,
            final(self).prompt_user == true,
            final(self).remote_input@.len() == 0,
            final(self).url_input@.len() == 0,
            final(self).state == Some(0usize),
            final(self).error_message == old(self).error_message,
            final(self).input_source == old(self).input_source,
            r@ =~= seq![Action::Emit(ProgramEvent::Focus(ComponentType::FilesComponent))],
    {
        let mut actions: Vec<Action> = Vec::new();
        actions.push(Action::Emit(ProgramEvent::Focus(ComponentType::FilesComponent)));
        self.visible = false;
        self.prompt_user = true;
        self.remote_input.clear();
        self.url_input.clear();
        self.state = Some(0);
        actions
    }

    /// Route one key press.  In the prompt, j/k pick yes or no and enter
    /// confirms; in the form, characters edit the field under the cursor,
    /// tab switches fields, and enter validates and, when the form is good,
    /// asks the backend to add the remote.
    pub fn handle_event(&mut self, ev: KeyEvent) -> (r: Result<Vec<Action>, Error>)
        ensures
            r matches Ok(a) && remote_popup_step(*old(self), *final(self), ev, a@),
    {
        match ev.code {
            KeyCode::Char(c) => {
                if c == 'j' && matches!(ev.modifiers, KeyModifiers::Empty) {
                    if let Some(sel) = self.state {
                        if sel == 0 {
                            self.state = Some(1);
                        }
                    }
                    Ok(Vec::new())
                } else if c == 'k' && matches!(ev.modifiers, KeyModifiers::Empty) {
                    if let Some(sel) = self.state {
                        if sel == 1 {
                            self.state = Some(0);
                        }
                    }
                    Ok(Vec::new())
                } else {
                    self.push_input(c);
                    Ok(Vec::new())
                }
            },
            KeyCode::Enter => {
                if !self.prompt_user {
                    if self.validate_input() {
                        let name = trim_str(self.remote_input.as_str());
                        let url = trim_str(self.url_input.as_str());
                        let mut actions: Vec<Action> = Vec::new();
                        actions.push(Action::Backend(BackendRequest::AddRemote(name, url)));
                        let mut rest = self.reset();
                        actions.append(&mut rest);
                        Ok(actions)
                    } else {
                        Ok(Vec::new())
                    }
                } else {
                    match self.state {
                        Some(0) => {
                            self.prompt_user = false;
                            Ok(Vec::new())
                        },
                        Some(_) => Ok(self.reset()),
                        None => Ok(Vec::new()),
                    }
                }
            },
            KeyCode::Tab => {
                self.switch_input_source();
                Ok(Vec::new())
            },
            KeyCode::Esc => Ok(self.reset()),
            KeyCode::Backspace => {
                self.pop_input();
                Ok(Vec::new())
            },
            _ => Ok(Vec::new()),
        }
    }
}

/// The popup closed: back to the prompt with empty fields, keeping the
/// error message and the field cursor.
pub open spec fn remote_popup_closed(pre: RemotePopupComponent, post: RemotePopupComponent) -> bool {
    &&& post.visible == false
    &&& post.prompt_user == true
    &&& post.remote_input@.len() == 0
    &&& post.url_input@.len() == 0
    &&& post.state == Some(0usize)
    &&& post.error_message == pre.error_message
    &&& post.input_source == pre.input_source
}

/// A character joined the field under edit and any error was cleared.
pub open spec fn remote_field_pushed(
    pre: RemotePopupComponent,
    post: RemotePopupComponent,
    c: char,
) -> bool {
    &&& post.error_message@.len() == 0
    &&& (pre.input_source == 0 ==> post == (RemotePopupComponent {
        error_message: post.error_message,
        remote_input: post.remote_input,
        ..pre
    }) && post.remote_input@ == pre.remote_input@.push(c))
    &&& (pre.input_source != 0 ==> post == (RemotePopupComponent {
        error_message: post.error_message,
        url_input: post.url_input,
        ..pre
    }) && post.url_input@ == pre.url_input@.push(c))
}

/// The last character left the field under edit and any error was cleared.
pub open spec fn remote_field_popped(
    pre: RemotePopupComponent,
    post: RemotePopupComponent,
) -> bool {
    &&& post.error_message@.len() == 0
    &&& (pre.input_source == 0 ==> post == (RemotePopupComponent {
        error_message: post.error_message,
        remote_input: post.remote_input,
        ..pre
    }) && post.remote_input@ == (if pre.remote_input@.len() > 0 {
        pre.remote_input@.drop_last()
    } else {
        pre.remote_input@
    }))
    &&& (pre.input_source != 0 ==> post == (RemotePopupComponent {
        error_message: post.error_message,
        url_input: post.url_input,
        ..pre
    }) && post.url_input@ == (if pre.url_input@.len() > 0 {
        pre.url_input@.drop_last()
    } else {
        pre.url_input@
    }))
}

/// How one key press moves the popup, key by key.
pub open spec fn remote_popup_step(
    pre: RemotePopupComponent,
    post: RemotePopupComponent,
    ev: KeyEvent,
    actions: Seq<Action>,
) -> bool {
    match ev.code {
        KeyCode::Char(c) => actions.len() == 0 && if c == 'j' && ev.modifiers
            == KeyModifiers::Empty {
            post == (if pre.state == Some(0usize) {
                RemotePopupComponent { state: Some(1usize), ..pre }
            } else {
                pre
            })
        } else if c == 'k' && ev.modifiers == KeyModifiers::Empty {
            post == (if pre.state == Some(1usize) {
                RemotePopupComponent { state: Some(0usize), ..pre }
            } else {
                pre
            })
        } else {
            remote_field_pushed(pre, post, c)
        },
        KeyCode::Enter => {
            if !pre.prompt_user {
                let outcome = validation_outcome(pre.remote_input@, pre.url_input@);
                if outcome == InputValidation::Valid {
                    &&& actions.len() == 2
                    &&& actions[0] matches Action::Backend(BackendRequest::AddRemote(name, url))
                        && name@ == spec_trim(pre.remote_input@) && url@ == spec_trim(
                        pre.url_input@,
                    )
                    &&& actions[1] == Action::Emit(
                        ProgramEvent::Focus(ComponentType::FilesComponent),
                    )
                    &&& remote_popup_closed(pre, post)
                } else {
                    &&& actions.len() == 0
                    &&& post == (RemotePopupComponent { error_message: post.error_message, ..pre })
                    &&& (outcome == InputValidation::InvalidUrl ==> post.error_message@
                        == "Invalid URL"@)
                    &&& (outcome == InputValidation::InvalidRemote ==> post.error_message@
                        == "Invalid remote name"@)
                }
            } else {
                match pre.state {
                    Some(sel) => {
                        if sel == 0 {
                            post == (RemotePopupComponent { prompt_user: false, ..pre })
                                && actions.len() == 0
                        } else {
                            remote_popup_closed(pre, post) && actions =~= seq![
                                Action::Emit(ProgramEvent::Focus(ComponentType::FilesComponent)),
                            ]
                        }
                    },
                    None => post == pre && actions.len() == 0,
                }
            }
        },
        KeyCode::Tab => actions.len() == 0 && post == (RemotePopupComponent {
            input_source: if pre.input_source == 0 {
                1u8
            } else {
                0u8
            },
            ..pre
        }),
        KeyCode::Esc => remote_popup_closed(pre, post) && actions =~= seq![
            Action::Emit(ProgramEvent::Focus(ComponentType::FilesComponent)),
        ],
        KeyCode::Backspace => actions.len() == 0 && remote_field_popped(pre, post),
        _ => post == pre && actions.len() == 0,
    }
}

} // verus!

//! The editing session: the live document, the path being browsed, the edit
//! buffers, the cursors and the screen; and the table of actions that each state
//! offers.

use crate::document::{Entry, JsonData};
use crate::navigator::{is_container_model, project, resolve, rows_of, PathError, Projection, Step};
use crate::value::{JsonValue, JsonValueType};
use vstd::prelude::*;

verus! {

/// The screens of a session.
#[derive(Clone, Copy, Debug, PartialEq, Eq, Structural)]
pub enum AppScreen {
    /// Browsing the rows of the current container.
    Main,
    /// The key/value popup is open.
    Editing,
    /// Asking whether to save before leaving.
    Exiting,
    /// Showing the document as it will be written.
    Preview,
}

/// The focused field of the key/value popup.
#[derive(Clone, Copy, Debug, PartialEq, Eq, Structural)]
pub enum EditFocus {
    Key,
    Value,
    Type,
}

/// The focused control of the exit popup.
#[derive(Clone, Copy, Debug, PartialEq, Eq, Structural)]
pub enum ExitFocus {
    /// The output path field.
    Input,
    /// The "save" button.
    Positive,
    /// The "discard" button.
    Negative,
}

/// The text buffers of a session.
#[derive(Clone, Copy, Debug, PartialEq, Eq, Structural)]
pub enum TextField {
    Key,
    Value,
    OutputFile,
}

/// What an input event can do.
#[derive(Clone, Copy, Debug, PartialEq, Eq, Structural)]
pub enum InputAction {
    Quit,
    ExitCancel,
    OpenNewPairPopup,
    EditingSubmit,
    EditingCancel,
    EditingToggleField,
    EditingUp,
    EditingDown,
    EditingLeft,
    EditingRight,
    ExitUp,
    ExitDown,
    ExitLeft,
    ExitRight,
    ExitCursorSelect,
    EditingBoolToggle,
    CursorUp,
    CursorDown,
    CursorCancel,
    CursorSelect,
    RequestPairDelete,
    DeleteYes,
    DeleteNo,
    ExitPreview,
    Preview,
    TraverseIn,
    TraverseOut,
    EnterFieldText(TextField),
    BackspaceFieldText(TextField),
}

/// The keys an input device reports.
#[derive(Clone, Copy, Debug, PartialEq, Eq, Structural)]
pub enum KeyCode {
    Char(char),
    Enter,
    Tab,
    Esc,
    Up,
    Down,
    Left,
    Right,
    Backspace,
    /// Any key the editor has no use for.
    Other,
}

/// How a key event came about.
#[derive(Clone, Copy, Debug, PartialEq, Eq, Structural)]
pub enum KeyEventKind {
    Press,
    Repeat,
    Release,
}

/// One input event.
#[derive(Clone, Copy, Debug, PartialEq, Eq, Structural)]
pub struct KeyEvent {
    pub code: KeyCode,
    pub kind: KeyEventKind,
}

/// What triggers an action: one key, or any printable character.
#[derive(Clone, Copy, Debug, PartialEq, Eq, Structural)]
pub enum Binding {
    Static(KeyCode),
    TextEntry,
}

/// A trigger and the action it leads to.
pub type ActionBinding = (Binding, InputAction);

/// Why a row cannot be opened for editing.
#[derive(Clone, Copy, Debug, PartialEq, Eq, Structural)]
pub enum OpenItemEditError {
    InvalidIndex(usize),
}

/// Why a value cannot be read from its untyped form.
#[derive(Clone, Copy, Debug, PartialEq, Eq, Structural)]
pub enum JsonValueFromSerdeError {
    UnsupportedType,
}

/// Errors of a session.
#[derive(Debug)]
pub enum AppError {
    /// The input file could not be read.
    InputFileNotFound(String),
    /// The input is not JSON, or its top level is not an object, or it holds a
    /// node of an unsupported type.
    InvalidInputJson,
    FailedToOpenPairEdit(OpenItemEditError),
    NoEntryAtIndex(usize),
}

/// What loading the input produced.
pub enum InputContents {
    /// No input file was named: the document starts empty.
    Absent,
    /// The named file could not be read.
    Unreadable,
    /// The file is not valid JSON, or holds a node of an unsupported type.
    Invalid,
    /// The parsed top-level value.
    Parsed(JsonValue),
}

/// The value types in the order the type list shows them.
pub open spec fn value_types() -> Seq<JsonValueType> {
    seq![
        JsonValueType::String,
        JsonValueType::Number,
        JsonValueType::Boolean,
        JsonValueType::Null,
        JsonValueType::Object,
        JsonValueType::Array,
    ]
}

/// The text a value buffer starts with when a type is chosen.
pub open spec fn type_seed(t: JsonValueType) -> Seq<char> {
    match t {
        JsonValueType::Number => seq![],
        JsonValueType::String => seq![],
        JsonValueType::Boolean => seq!['f', 'a', 'l', 's', 'e'],
        JsonValueType::Null => seq!['n', 'u', 'l', 'l'],
        JsonValueType::Object => seq!['{', '}'],
        JsonValueType::Array => seq!['[', ']'],
    }
}

/// An editing session.
pub struct App {
    pub key_input: String,
    pub value_input: String,
    pub pairs: JsonData,
    /// The container being browsed, as steps from the root.
    pub path: Vec<Step>,
    /// The rows of the container being browsed, as last projected.
    pub view: Projection,
    /// Why the last projection failed, if it did.
    pub view_error: Option<PathError>,
    pub edit_popup_focus: Option<EditFocus>,
    pub exit_popup_focus: Option<ExitFocus>,
    pub available_bindings: Vec<ActionBinding>,
    /// The selected row of the view.
    pub selected_row: Option<usize>,
    pub selected_value_type: JsonValueType,
    /// The highlighted entry of the type list.
    pub selected_type_row: Option<usize>,
    pub type_list_open: bool,
    pub target_delete_key: Option<String>,
    pub target_write_file: Option<String>,
    /// The buffers that failed validation on the current screen.
    pub error_fields: Vec<TextField>,
    pub current_screen: AppScreen,
}

impl App {
    /// The screen shown.
    pub open spec fn screen(&self) -> AppScreen {
        self.current_screen
    }

    /// The rows of the view.
    pub open spec fn rows(&self) -> Seq<Entry> {
        rows_of(self.view@)
    }

    /// The bindings that the main screen offers.
    pub open spec fn main_bindings(&self) -> Seq<ActionBinding> {
        if self.target_delete_key is Some {
            seq![
                (Binding::Static(KeyCode::Char('y')), InputAction::DeleteYes),
                (Binding::Static(KeyCode::Char('n')), InputAction::DeleteNo),
            ]
        } else {
            let in_object = self.view@ is Object;
            let base = if in_object {
                seq![
                    (Binding::Static(KeyCode::Char('e')), InputAction::OpenNewPairPopup),
                    (Binding::Static(KeyCode::Char('q')), InputAction::Quit),
                    (Binding::Static(KeyCode::Char('p')), InputAction::Preview),
                ]
            } else {
                seq![
                    (Binding::Static(KeyCode::Char('q')), InputAction::Quit),
                    (Binding::Static(KeyCode::Char('p')), InputAction::Preview),
                ]
            };
            let moving = if self.rows().len() > 0 {
                let choosing = if in_object {
                    seq![(Binding::Static(KeyCode::Enter), InputAction::CursorSelect)]
                } else {
                    seq![]
                };
                choosing + seq![
                    (Binding::Static(KeyCode::Down), InputAction::CursorDown),
                    (Binding::Static(KeyCode::Up), InputAction::CursorUp),
                ]
            } else {
                seq![]
            };
            let selecting = match self.selected_row {
                Some(i) => if i < self.rows().len() {
                    let opening = if is_container_model(self.rows()[i as int].1) {
                        seq![(Binding::Static(KeyCode::Right), InputAction::TraverseIn)]
                    } else {
                        seq![]
                    };
                    let editing = if in_object {
                        seq![(Binding::Static(KeyCode::Backspace), InputAction::RequestPairDelete)]
                    } else {
                        seq![]
                    };
                    seq![(Binding::Static(KeyCode::Esc), InputAction::CursorCancel)] + editing
                        + opening
                } else {
                    seq![]
                },
                None => seq![],
            };
            let leaving = if self.path@.len() > 0 {
                seq![(Binding::Static(KeyCode::Left), InputAction::TraverseOut)]
            } else {
                seq![]
            };
            base + moving + selecting + leaving
        }
    }

    /// The bindings that the key/value popup offers.
    pub open spec fn editing_bindings(&self) -> Seq<ActionBinding> {
        let base = seq![
            (Binding::Static(KeyCode::Enter), InputAction::EditingSubmit),
            (Binding::Static(KeyCode::Tab), InputAction::EditingToggleField),
            (Binding::Static(KeyCode::Esc), InputAction::EditingCancel),
            (Binding::Static(KeyCode::Up), InputAction::EditingUp),
            (Binding::Static(KeyCode::Down), InputAction::EditingDown),
            (Binding::Static(KeyCode::Left), InputAction::EditingLeft),
            (Binding::Static(KeyCode::Right), InputAction::EditingRight),
        ];
        match self.edit_popup_focus {
            Some(EditFocus::Value) => {
                let typing = seq![
                    (Binding::Static(KeyCode::Backspace), InputAction::BackspaceFieldText(TextField::Value)),
                    (Binding::TextEntry, InputAction::EnterFieldText(TextField::Value)),
                ];
                let toggling = if self.selected_value_type == JsonValueType::Boolean {
                    seq![(Binding::Static(KeyCode::Char('t')), InputAction::EditingBoolToggle)]
                } else {
                    seq![]
                };
                base + typing + toggling
            },
            Some(EditFocus::Key) => base + seq![
                (Binding::Static(KeyCode::Backspace), InputAction::BackspaceFieldText(TextField::Key)),
                (Binding::TextEntry, InputAction::EnterFieldText(TextField::Key)),
            ],
            _ => base,
        }
    }

    /// The bindings that the exit popup offers.
    pub open spec fn exiting_bindings(&self) -> Seq<ActionBinding> {
        let base = seq![
            (Binding::Static(KeyCode::Esc), InputAction::ExitCancel),
            (Binding::Static(KeyCode::Up), InputAction::ExitUp),
            (Binding::Static(KeyCode::Down), InputAction::ExitDown),
            (Binding::Static(KeyCode::Left), InputAction::ExitLeft),
            (Binding::Static(KeyCode::Right), InputAction::ExitRight),
            (Binding::Static(KeyCode::Enter), InputAction::ExitCursorSelect),
        ];
        match self.exit_popup_focus {
            Some(ExitFocus::Input) => base + seq![
                (Binding::Static(KeyCode::Backspace), InputAction::BackspaceFieldText(TextField::OutputFile)),
                (Binding::TextEntry, InputAction::EnterFieldText(TextField::OutputFile)),
            ],
            _ => base,
        }
    }

    /// The legal actions of the current state, with their triggers.
    pub open spec fn bindings(&self) -> Seq<ActionBinding> {
        match self.screen() {
            AppScreen::Main => self.main_bindings(),
            AppScreen::Editing => self.editing_bindings(),
            AppScreen::Exiting => self.exiting_bindings(),
            AppScreen::Preview => seq![(Binding::Static(KeyCode::Esc), InputAction::ExitPreview)],
        }
    }

    /// The row cursor points at a row that exists, and the bindings are those of
    /// the current state.
    pub open spec fn wf(&self) -> bool {
        &&& (self.selected_row matches Some(i) ==> i < self.rows().len())
        &&& self.available_bindings@ == self.bindings()
    }

    /// The screen shown.
    pub fn get_current_screen(&self) -> (r: &AppScreen)
        ensures
            *r == self.screen(),
    {
        &self.current_screen
    }
}

} // verus!

verus! {

/// The short label that the footer shows for an action.
pub open spec fn action_label(a: InputAction) -> Option<Seq<char>> {
    match a {
        InputAction::OpenNewPairPopup => Some("new"@),
        InputAction::Quit => Some("quit"@),
        InputAction::EditingCancel => Some("cancel"@),
        InputAction::EditingToggleField => Some("switch"@),
        InputAction::EditingSubmit => Some("submit"@),
        InputAction::CursorSelect => Some("select"@),
        InputAction::CursorDown => Some("down"@),
        InputAction::CursorUp => Some("up"@),
        InputAction::CursorCancel => Some("cancel"@),
        InputAction::EditingBoolToggle => Some("toggle"@),
        InputAction::RequestPairDelete => Some("delete"@),
        InputAction::DeleteYes => Some("yes"@),
        InputAction::DeleteNo => Some("no"@),
        InputAction::ExitPreview => Some("exit"@),
        InputAction::Preview => Some("preview"@),
        InputAction::TraverseIn => Some("open"@),
        InputAction::TraverseOut => Some("back"@),
        _ => None,
    }
}

impl InputAction {
    /// The short label that the footer shows for an action, if it shows one.
    pub fn description(&self) -> (r: Option<&'static str>)
        ensures
            match r {
                Some(s) => action_label(*self) == Some(s@),
                None => action_label(*self) is None,
            },
    {
        match self {
            InputAction::OpenNewPairPopup => Some("new"),
            InputAction::Quit => Some("quit"),
            InputAction::EditingCancel => Some("cancel"),
            InputAction::EditingToggleField => Some("switch"),
            InputAction::EditingSubmit => Some("submit"),
            InputAction::CursorSelect => Some("select"),
            InputAction::CursorDown => Some("down"),
            InputAction::CursorUp => Some("up"),
            InputAction::CursorCancel => Some("cancel"),
            InputAction::EditingBoolToggle => Some("toggle"),
            InputAction::RequestPairDelete => Some("delete"),
            InputAction::DeleteYes => Some("yes"),
            InputAction::DeleteNo => Some("no"),
            InputAction::ExitPreview => Some("exit"),
            InputAction::Preview => Some("preview"),
            InputAction::TraverseIn => Some("open"),
            InputAction::TraverseOut => Some("back"),
            _ => None,
        }
    }
}

impl App {
    /// The value types in the order the type list shows them.
    pub fn all_value_types() -> (r: Vec<JsonValueType>)
        ensures
            r@ == value_types(),
    {
        let r = vec![
            JsonValueType::String,
            JsonValueType::Number,
            JsonValueType::Boolean,
            JsonValueType::Null,
            JsonValueType::Object,
            JsonValueType::Array,
        ];
        assert(r@ =~= value_types());
        r
    }

    /// Projects the current path again. Where it fails, the previous view stays
    /// and the error is kept.
    pub fn refresh_view(&mut self)
        ensures
            match resolve(old(self).pairs@, old(self).path@) {
                Ok(t) => final(self).view@ == t && final(self).view_error is None,
                Err(p) => final(self).view == old(self).view && (final(self).view_error matches Some(
                    PathError::InvalidPath(s, q),
                ) && q == p && s == old(self).path@[p]),
            },
            final(self).view_error is None ==> is_container_model(final(self).view@),
            final(self).pairs == old(self).pairs,
            final(self).path == old(self).path,
            final(self).key_input == old(self).key_input,
            final(self).value_input == old(self).value_input,
            final(self).edit_popup_focus == old(self).edit_popup_focus,
            final(self).exit_popup_focus == old(self).exit_popup_focus,
            final(self).available_bindings == old(self).available_bindings,
            final(self).selected_row == old(self).selected_row,
            final(self).selected_value_type == old(self).selected_value_type,
            final(self).selected_type_row == old(self).selected_type_row,
            final(self).type_list_open == old(self).type_list_open,
            final(self).target_delete_key == old(self).target_delete_key,
            final(self).target_write_file == old(self).target_write_file,
            final(self).error_fields == old(self).error_fields,
            final(self).current_screen == old(self).current_screen,
    {
        match project(&self.pairs, &self.path) {
            Ok(v) => {
                self.view = v;
                self.view_error = None;
                proof {
                    crate::navigator::lemma_resolved_is_container(self.pairs@, self.path@);
                }
            },
            Err(e) => {
                self.view_error = Some(e);
            },
        }
    }

    /// Recomputes the view, the cursors that depend on it, and the legal actions of
    /// the current state.
    pub fn update_state(&mut self)
        ensures
            final(self).wf(),
            match resolve(old(self).pairs@, old(self).path@) {
                Ok(t) => final(self).view@ == t && final(self).view_error is None,
                Err(p) => final(self).view == old(self).view && final(self).view_error is Some,
            },
            final(self).selected_row == if old(self).current_screen == AppScreen::Editing {
                None
            } else {
                match old(self).selected_row {
                    Some(i) => if i < final(self).rows().len() {
                        Some(i)
                    } else {
                        None
                    },
                    None => None,
                }
            },
            final(self).selected_type_row == if old(self).current_screen == AppScreen::Editing
                && old(self).type_list_open && old(self).selected_type_row is None {
                Some(0usize)
            } else {
                old(self).selected_type_row
            },
            final(self).pairs == old(self).pairs,
            final(self).path == old(self).path,
            final(self).key_input == old(self).key_input,
            final(self).value_input == old(self).value_input,
            final(self).edit_popup_focus == old(self).edit_popup_focus,
            final(self).exit_popup_focus == old(self).exit_popup_focus,
            final(self).selected_value_type == old(self).selected_value_type,
            final(self).type_list_open == old(self).type_list_open,
            final(self).target_delete_key == old(self).target_delete_key,
            final(self).target_write_file == old(self).target_write_file,
            final(self).error_fields == old(self).error_fields,
            final(self).current_screen == old(self).current_screen,
    {
        self.refresh_view();
        let count = self.view.row_count();
        if self.current_screen == AppScreen::Editing {
            self.selected_row = None;
        } else if let Some(i) = self.selected_row {
            if i >= count {
                self.selected_row = None;
            }
        }
        if self.current_screen == AppScreen::Editing && self.type_list_open
            && self.selected_type_row.is_none() {
            self.selected_type_row = Some(0);
        }
        self.available_bindings = self.compute_bindings();
    }

    /// The legal actions of the current state, with their triggers.
    fn compute_bindings(&self) -> (r: Vec<ActionBinding>)
        requires
            self.selected_row matches Some(i) ==> i < self.rows().len(),
        ensures
            r@ == self.bindings(),
    {
        let mut r: Vec<ActionBinding> = Vec::new();
        match self.current_screen {
            AppScreen::Main => {
                if self.target_delete_key.is_some() {
                    r.push((Binding::Static(KeyCode::Char('y')), InputAction::DeleteYes));
                    r.push((Binding::Static(KeyCode::Char('n')), InputAction::DeleteNo));
                    assert(r@ =~= self.main_bindings());
                } else {
                    let in_object = !self.view.is_array();
                    if in_object {
                        r.push((Binding::Static(KeyCode::Char('e')), InputAction::OpenNewPairPopup));
                    }
                    r.push((Binding::Static(KeyCode::Char('q')), InputAction::Quit));
                    r.push((Binding::Static(KeyCode::Char('p')), InputAction::Preview));
                    let ghost base = r@;
                    if self.view.row_count() > 0 {
                        if in_object {
                            r.push((Binding::Static(KeyCode::Enter), InputAction::CursorSelect));
                        }
                        r.push((Binding::Static(KeyCode::Down), InputAction::CursorDown));
                        r.push((Binding::Static(KeyCode::Up), InputAction::CursorUp));
                    }
                    let ghost moving = r@.subrange(base.len() as int, r@.len() as int);
                    let ghost before_selecting = r@;
                    if let Some(i) = self.selected_row {
                        r.push((Binding::Static(KeyCode::Esc), InputAction::CursorCancel));
                        if in_object {
                            r.push(
                                (Binding::Static(KeyCode::Backspace), InputAction::RequestPairDelete),
                            );
                        }
                        let row = self.view.row_value(i);
                        let opens = row.is_container();
                        proof {
                            crate::navigator::lemma_value_container(*row);
                        }
                        if opens {
                            r.push((Binding::Static(KeyCode::Right), InputAction::TraverseIn));
                        }
                    }
                    let ghost selecting = r@.subrange(before_selecting.len() as int, r@.len() as int);
                    let ghost before_leaving = r@;
                    if self.path.len() > 0 {
                        r.push((Binding::Static(KeyCode::Left), InputAction::TraverseOut));
                    }
                    let ghost leaving = r@.subrange(before_leaving.len() as int, r@.len() as int);
                    proof {
                        assert(r@ =~= base + moving + selecting + leaving);
                        assert(base =~= if self.view@ is Object {
                            seq![
                                (Binding::Static(KeyCode::Char('e')), InputAction::OpenNewPairPopup),
                                (Binding::Static(KeyCode::Char('q')), InputAction::Quit),
                                (Binding::Static(KeyCode::Char('p')), InputAction::Preview),
                            ]
                        } else {
                            seq![
                                (Binding::Static(KeyCode::Char('q')), InputAction::Quit),
                                (Binding::Static(KeyCode::Char('p')), InputAction::Preview),
                            ]
                        });
                        assert(r@ =~= self.main_bindings());
                    }
                }
            },
            AppScreen::Editing => {
                r.push((Binding::Static(KeyCode::Enter), InputAction::EditingSubmit));
                r.push((Binding::Static(KeyCode::Tab), InputAction::EditingToggleField));
                r.push((Binding::Static(KeyCode::Esc), InputAction::EditingCancel));
                r.push((Binding::Static(KeyCode::Up), InputAction::EditingUp));
                r.push((Binding::Static(KeyCode::Down), InputAction::EditingDown));
                r.push((Binding::Static(KeyCode::Left), InputAction::EditingLeft));
                r.push((Binding::Static(KeyCode::Right), InputAction::EditingRight));
                match self.edit_popup_focus {
                    Some(EditFocus::Value) => {
                        r.push(
                            (
                                Binding::Static(KeyCode::Backspace),
                                InputAction::BackspaceFieldText(TextField::Value),
                            ),
                        );
                        r.push((Binding::TextEntry, InputAction::EnterFieldText(TextField::Value)));
                        if self.selected_value_type == JsonValueType::Boolean {
                            r.push(
                                (Binding::Static(KeyCode::Char('t')), InputAction::EditingBoolToggle),
                            );
                        }
                    },
                    Some(EditFocus::Key) => {
                        r.push(
                            (
                                Binding::Static(KeyCode::Backspace),
                                InputAction::BackspaceFieldText(TextField::Key),
                            ),
                        );
                        r.push((Binding::TextEntry, InputAction::EnterFieldText(TextField::Key)));
                    },
                    _ => {},
                }
                assert(r@ =~= self.editing_bindings());
            },
            AppScreen::Exiting => {
                r.push((Binding::Static(KeyCode::Esc), InputAction::ExitCancel));
                r.push((Binding::Static(KeyCode::Up), InputAction::ExitUp));
                r.push((Binding::Static(KeyCode::Down), InputAction::ExitDown));
                r.push((Binding::Static(KeyCode::Left), InputAction::ExitLeft));
                r.push((Binding::Static(KeyCode::Right), InputAction::ExitRight));
                r.push((Binding::Static(KeyCode::Enter), InputAction::ExitCursorSelect));
                match self.exit_popup_focus {
                    Some(ExitFocus::Input) => {
                        r.push(
                            (
                                Binding::Static(KeyCode::Backspace),
                                InputAction::BackspaceFieldText(TextField::OutputFile),
                            ),
                        );
                        r.push(
                            (Binding::TextEntry, InputAction::EnterFieldText(TextField::OutputFile)),
                        );
                    },
                    _ => {},
                }
                assert(r@ =~= self.exiting_bindings());
            },
            AppScreen::Preview => {
                r.push((Binding::Static(KeyCode::Esc), InputAction::ExitPreview));
                assert(r@ =~= self.bindings());
            },
        }
        r
    }
}

} // verus!

//! Resolving an input event to an action, and running it on a session.

use crate::actions::{
    bool_toggled, cursor_down, cursor_up, delete_confirmed, delete_denied, delete_requested,
    edit_focus_moved, edit_submitted, editing_cancelled, exit_focus_across, exit_focus_down,
    exit_focus_up, exit_focus_moved, exit_selected, focus_after_down, focus_after_left,
    focus_after_right, focus_after_tab, focus_after_up, move_cursor, new_pair_opened,
    row_cursor_moved, row_opened, screen_entered, text_entered, text_erased, traversed_in,
    traversed_out, type_cursor_moved,
};
use crate::app::{
    value_types, ActionBinding, App, AppError, AppScreen, Binding, InputAction, InputContents,
    KeyCode, KeyEvent, KeyEventKind, OpenItemEditError,
};
use crate::document::JsonData;
use crate::navigator::Projection;
use crate::value::{JsonModel, JsonValue, JsonValueType};
use vstd::prelude::*;

verus! {

/// The action of the first binding of exactly this key, from position `from` on.
pub open spec fn exact_action(b: Seq<ActionBinding>, k: KeyCode, from: int) -> Option<InputAction>
    decreases b.len() - from,
{
    if from < 0 || from >= b.len() {
        None
    } else if b[from].0 == Binding::Static(k) {
        Some(b[from].1)
    } else {
        exact_action(b, k, from + 1)
    }
}

/// The action of the first text-entry binding, from position `from` on.
pub open spec fn text_entry_action(b: Seq<ActionBinding>, from: int) -> Option<InputAction>
    decreases b.len() - from,
{
    if from < 0 || from >= b.len() {
        None
    } else if b[from].0 == Binding::TextEntry {
        Some(b[from].1)
    } else {
        text_entry_action(b, from + 1)
    }
}

/// The action that a key leads to: an exact binding of the key wins; a printable
/// character falls back on the text-entry binding.
pub open spec fn resolve_key(b: Seq<ActionBinding>, k: KeyCode) -> Option<InputAction> {
    match exact_action(b, k, 0) {
        Some(a) => Some(a),
        None => if k is Char {
            text_entry_action(b, 0)
        } else {
            None
        },
    }
}

/// The action that a key leads to under the given bindings.
pub fn resolve_binding(bindings: &Vec<ActionBinding>, code: KeyCode) -> (r: Option<InputAction>)
    ensures
        r == resolve_key(bindings@, code),
{
    let mut i: usize = 0;
    while i < bindings.len()
        invariant
            i <= bindings@.len(),
            exact_action(bindings@, code, 0) == exact_action(bindings@, code, i as int),
        decreases bindings@.len() - i,
    {
        if bindings[i].0 == Binding::Static(code) {
            return Some(bindings[i].1);
        }
        i = i + 1;
    }
    assert(exact_action(bindings@, code, bindings@.len() as int) is None);
    if let KeyCode::Char(_) = code {
        let mut j: usize = 0;
        while j < bindings.len()
            invariant
                j <= bindings@.len(),
                exact_action(bindings@, code, 0) is None,
                code is Char,
                text_entry_action(bindings@, 0) == text_entry_action(bindings@, j as int),
            decreases bindings@.len() - j,
        {
            if bindings[j].0 == Binding::TextEntry {
                return Some(bindings[j].1);
            }
            j = j + 1;
        }
    }
    None
}

/// What running `action` (for the key `code`) does to a session `a`, giving `b`
/// and the result `r`: `Ok(Some(save))` ends the session.
pub open spec fn performed(
    a: App,
    b: App,
    action: InputAction,
    code: KeyCode,
    r: Result<Option<bool>, AppError>,
) -> bool {
    match action {
        InputAction::ExitCursorSelect => r matches Ok(x) && exit_selected(a, b, x),
        InputAction::CursorSelect => match a.selected_row {
            Some(i) => (r == Ok::<Option<bool>, AppError>(None) && row_opened(a, b, i, Ok(())))
                || (r == Err::<Option<bool>, AppError>(
                AppError::FailedToOpenPairEdit(OpenItemEditError::InvalidIndex(i)),
            ) && row_opened(a, b, i, Err(OpenItemEditError::InvalidIndex(i)))),
            None => r == Ok::<Option<bool>, AppError>(None) && b == a,
        },
        InputAction::RequestPairDelete => (r == Ok::<Option<bool>, AppError>(None)
            && delete_requested(a, b, Ok(()))) || (r matches Err(AppError::NoEntryAtIndex(i))
            && delete_requested(a, b, Err(i))),
        _ => r == Ok::<Option<bool>, AppError>(None) && match action {
            InputAction::EnterFieldText(f) => match code {
                KeyCode::Char(c) => text_entered(a, b, f, c),
                _ => b == a,
            },
            InputAction::BackspaceFieldText(f) => text_erased(a, b, f),
            InputAction::ExitCancel => screen_entered(a, b, AppScreen::Main),
            InputAction::Quit => screen_entered(a, b, AppScreen::Exiting),
            InputAction::OpenNewPairPopup => new_pair_opened(a, b),
            InputAction::EditingCancel => editing_cancelled(a, b),
            InputAction::EditingToggleField => edit_focus_moved(
                a,
                b,
                focus_after_tab(a.edit_popup_focus),
            ),
            InputAction::EditingSubmit => edit_submitted(a, b),
            InputAction::EditingLeft => edit_focus_moved(a, b, focus_after_left(a.edit_popup_focus)),
            InputAction::EditingRight => edit_focus_moved(
                a,
                b,
                focus_after_right(a.edit_popup_focus),
            ),
            InputAction::EditingUp => if a.type_list_open {
                type_cursor_moved(a, b, cursor_up(a.selected_type_row, value_types().len()))
            } else {
                edit_focus_moved(a, b, focus_after_up(a.edit_popup_focus))
            },
            InputAction::EditingDown => if a.type_list_open {
                type_cursor_moved(a, b, cursor_down(a.selected_type_row, value_types().len()))
            } else {
                edit_focus_moved(a, b, focus_after_down(a.edit_popup_focus))
            },
            InputAction::EditingBoolToggle => bool_toggled(a, b),
            InputAction::ExitLeft => exit_focus_moved(a, b, exit_focus_across(a.exit_popup_focus)),
            InputAction::ExitRight => exit_focus_moved(a, b, exit_focus_across(a.exit_popup_focus)),
            InputAction::ExitUp => exit_focus_moved(a, b, exit_focus_up(a.exit_popup_focus)),
            InputAction::ExitDown => exit_focus_moved(a, b, exit_focus_down(a.exit_popup_focus)),
            InputAction::CursorUp => row_cursor_moved(a, b, cursor_up(a.selected_row, a.rows().len())),
            InputAction::CursorDown => row_cursor_moved(
                a,
                b,
                cursor_down(a.selected_row, a.rows().len()),
            ),
            InputAction::CursorCancel => row_cursor_moved(a, b, None),
            InputAction::DeleteYes => delete_confirmed(a, b),
            InputAction::DeleteNo => delete_denied(a, b),
            InputAction::Preview => screen_entered(a, b, AppScreen::Preview),
            InputAction::ExitPreview => screen_entered(a, b, AppScreen::Main),
            InputAction::TraverseIn => traversed_in(a, b),
            InputAction::TraverseOut => traversed_out(a, b),
            InputAction::ExitCursorSelect | InputAction::CursorSelect
            | InputAction::RequestPairDelete => true,
        },
    }
}

/// Runs the action that a key event resolves to under the session's bindings.
/// Only key presses count. `Ok(Some(save))` ends the session, saving or not;
/// `Ok(None)` goes on.
pub fn handle_input(app: &mut App, key_event: KeyEvent) -> (r: Result<Option<bool>, AppError>)
    ensures
        key_event.kind != KeyEventKind::Press ==> r == Ok::<Option<bool>, AppError>(None)
            && *final(app) == *old(app),
        key_event.kind == KeyEventKind::Press ==> match resolve_key(
            old(app).available_bindings@,
            key_event.code,
        ) {
            None => r == Ok::<Option<bool>, AppError>(None) && *final(app) == *old(app),
            Some(action) => performed(*old(app), *final(app), action, key_event.code, r),
        },
{
    if key_event.kind != KeyEventKind::Press {
        return Ok(None);
    }
    let action = match resolve_binding(&app.available_bindings, key_event.code) {
        Some(a) => a,
        None => {
            return Ok(None);
        },
    };
    match action {
        InputAction::EnterFieldText(field) => {
            if let KeyCode::Char(c) = key_event.code {
                app.enter_text(field, c);
            }
        },
        InputAction::BackspaceFieldText(field) => app.erase_text(field),
        InputAction::ExitCancel => app.goto_screen(AppScreen::Main),
        InputAction::Quit => app.goto_screen(AppScreen::Exiting),
        InputAction::OpenNewPairPopup => app.open_new_pair(),
        InputAction::EditingCancel => app.cancel_editing(),
        InputAction::EditingToggleField => {
            let f = app.edit_popup_focus;
            app.edit_popup_focus = match f {
                Some(crate::app::EditFocus::Key) => Some(crate::app::EditFocus::Value),
                Some(_) => Some(crate::app::EditFocus::Key),
                None => None,
            };
        },
        InputAction::EditingSubmit => app.submit_editing(),
        InputAction::EditingLeft => {
            app.edit_popup_focus = match app.edit_popup_focus {
                Some(crate::app::EditFocus::Key) => Some(crate::app::EditFocus::Key),
                Some(_) => Some(crate::app::EditFocus::Key),
                None => None,
            };
        },
        InputAction::EditingRight => {
            app.edit_popup_focus = match app.edit_popup_focus {
                Some(_) => Some(crate::app::EditFocus::Value),
                None => None,
            };
        },
        InputAction::EditingUp => {
            if app.type_list_open {
                app.selected_type_row = move_cursor(app.selected_type_row, 6, false);
            } else if app.edit_popup_focus == Some(crate::app::EditFocus::Type) {
                app.edit_popup_focus = Some(crate::app::EditFocus::Key);
            }
        },
        InputAction::EditingDown => {
            if app.type_list_open {
                app.selected_type_row = move_cursor(app.selected_type_row, 6, true);
            } else if app.edit_popup_focus == Some(crate::app::EditFocus::Key)
                || app.edit_popup_focus == Some(crate::app::EditFocus::Value) {
                app.edit_popup_focus = Some(crate::app::EditFocus::Type);
            }
        },
        InputAction::EditingBoolToggle => app.toggle_bool(),
        InputAction::ExitLeft | InputAction::ExitRight => {
            app.exit_popup_focus = match app.exit_popup_focus {
                Some(crate::app::ExitFocus::Positive) => Some(crate::app::ExitFocus::Negative),
                Some(crate::app::ExitFocus::Negative) => Some(crate::app::ExitFocus::Positive),
                other => other,
            };
        },
        InputAction::ExitUp => {
            if app.exit_popup_focus.is_some() {
                app.exit_popup_focus = Some(crate::app::ExitFocus::Input);
            }
        },
        InputAction::ExitDown => {
            if app.exit_popup_focus == Some(crate::app::ExitFocus::Input) {
                app.exit_popup_focus = Some(crate::app::ExitFocus::Negative);
            }
        },
        InputAction::ExitCursorSelect => {
            return Ok(app.select_exit_control());
        },
        InputAction::CursorUp => {
            let n = app.view.row_count();
            app.selected_row = move_cursor(app.selected_row, n, false);
        },
        InputAction::CursorDown => {
            let n = app.view.row_count();
            app.selected_row = move_cursor(app.selected_row, n, true);
        },
        InputAction::CursorCancel => {
            app.selected_row = None;
        },
        InputAction::CursorSelect => {
            if let Some(i) = app.selected_row {
                match app.open_item_edit(i) {
                    Ok(()) => {},
                    Err(e) => {
                        return Err(AppError::FailedToOpenPairEdit(e));
                    },
                }
            }
        },
        InputAction::RequestPairDelete => {
            match app.request_delete() {
                Ok(()) => {},
                Err(i) => {
                    return Err(AppError::NoEntryAtIndex(i));
                },
            }
        },
        InputAction::DeleteYes => app.confirm_delete(),
        InputAction::DeleteNo => app.deny_delete(),
        InputAction::Preview => app.goto_screen(AppScreen::Preview),
        InputAction::ExitPreview => app.goto_screen(AppScreen::Main),
        InputAction::TraverseIn => app.traverse_in(),
        InputAction::TraverseOut => app.traverse_out(),
    }
    Ok(None)
}

impl App {
    /// A session on a loaded input. No input gives an empty document; an
    /// unreadable file, a text that is not JSON, or a top level that is not an
    /// object is refused.
    pub fn new(input_file_path: Option<String>, input: InputContents) -> (r: Result<App, AppError>)
        ensures
            match input {
                InputContents::Absent => r matches Ok(app) && app.pairs@.len() == 0,
                InputContents::Unreadable => r matches Err(AppError::InputFileNotFound(p))
                    && p@ == match input_file_path {
                    Some(s) => s@,
                    None => Seq::<char>::empty(),
                },
                InputContents::Invalid => r matches Err(AppError::InvalidInputJson),
                InputContents::Parsed(v) => match v@ {
                    JsonModel::Object(e) => r matches Ok(app) && app.pairs@ == e,
                    _ => r matches Err(AppError::InvalidInputJson),
                },
            },
            r matches Ok(app) ==> {
                &&& app.wf()
                &&& app.path@.len() == 0
                &&& app.view@ == JsonModel::Object(app.pairs@)
                &&& app.view_error is None
                &&& app.current_screen == AppScreen::Main
                &&& app.key_input@.len() == 0
                &&& app.value_input@.len() == 0
                &&& app.edit_popup_focus is None
                &&& app.exit_popup_focus is None
                &&& app.selected_row is None
                &&& app.selected_value_type == JsonValueType::String
                &&& app.selected_type_row is None
                &&& !app.type_list_open
                &&& app.target_delete_key is None
                &&& app.target_write_file == input_file_path
                &&& app.error_fields@.len() == 0
            },
    {
        let data = match input {
            InputContents::Absent => JsonData::new(),
            InputContents::Unreadable => {
                let p = match input_file_path {
                    Some(s) => s,
                    None => String::new(),
                };
                return Err(AppError::InputFileNotFound(p));
            },
            InputContents::Invalid => {
                return Err(AppError::InvalidInputJson);
            },
            InputContents::Parsed(JsonValue::Object(d)) => d,
            InputContents::Parsed(_) => {
                return Err(AppError::InvalidInputJson);
            },
        };
        let mut app = App {
            key_input: String::new(),
            value_input: String::new(),
            pairs: data,
            path: Vec::new(),
            view: Projection::Fields(JsonData::new()),
            view_error: None,
            edit_popup_focus: None,
            exit_popup_focus: None,
            available_bindings: Vec::new(),
            selected_row: None,
            selected_value_type: JsonValueType::String,
            selected_type_row: None,
            type_list_open: false,
            target_delete_key: None,
            target_write_file: input_file_path,
            error_fields: Vec::new(),
            current_screen: AppScreen::Main,
        };
        proof {
            crate::navigator::lemma_root_projection(app.pairs@);
        }
        app.update_state();
        Ok(app)
    }
}

} // verus!

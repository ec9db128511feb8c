//! What each action does to a session.

use crate::app::{
    type_seed, value_types, App, AppScreen, EditFocus, ExitFocus, OpenItemEditError, TextField,
};
use crate::document::{keys_unique, Entry, JsonData};
use crate::navigator::{
    delete, edit_done, edit_outcome, is_container_model, project, resolve, rows_of, FieldChange,
    PathError, Step,
};
use crate::text::{pop_char, push_char, same_text};
use crate::value::{
    number_bits_from_text, parsed_number_bits, JsonModel, JsonNumber, JsonValue, JsonValueType,
};
use vstd::prelude::*;
use vstd::string::StringExecFns;

verus! {

/// Whether a character has the Unicode White_Space property, as `char::is_whitespace`
/// counts it.
pub open spec fn white_space(c: char) -> bool {
    let u = c as u32;
    (0x09 <= u <= 0x0D) || u == 0x20 || u == 0x85 || u == 0xA0 || u == 0x1680 || (0x2000 <= u
        <= 0x200A) || u == 0x2028 || u == 0x2029 || u == 0x202F || u == 0x205F || u == 0x3000
}

/// Whether a character is white space.
pub fn is_white_space(c: char) -> (r: bool)
    ensures
        r == white_space(c),
{
    let u = c as u32;
    (0x09 <= u && u <= 0x0D) || u == 0x20 || u == 0x85 || u == 0xA0 || u == 0x1680 || (0x2000 <= u
        && u <= 0x200A) || u == 0x2028 || u == 0x2029 || u == 0x202F || u == 0x205F || u == 0x3000
}

/// A text of white space only (the empty text included).
pub open spec fn is_blank(t: Seq<char>) -> bool {
    forall|i: int| 0 <= i < t.len() ==> white_space(#[trigger] t[i])
}

/// What `bool`'s parser reads from a text.
pub open spec fn bool_of_text(t: Seq<char>) -> Option<bool> {
    if t == "true"@ {
        Some(true)
    } else if t == "false"@ {
        Some(false)
    } else {
        None
    }
}

/// The text that a boolean is written as.
pub open spec fn bool_text(b: bool) -> Seq<char> {
    if b {
        "true"@
    } else {
        "false"@
    }
}

/// The value that a buffer holds for a type, given what the buffer reads as a
/// number (`parsed`), where the buffer is valid for the type: a number needs a
/// reading, a boolean must be `true` or `false`, the other types take their empty
/// form or the text itself.
pub open spec fn buffer_model_from(t: JsonValueType, text: Seq<char>, parsed: Option<u64>) -> Option<
    JsonModel,
> {
    match t {
        JsonValueType::Number => match parsed {
            Some(b) => Some(JsonModel::Number(b, text)),
            None => None,
        },
        JsonValueType::Boolean => match bool_of_text(text) {
            Some(b) => Some(JsonModel::Boolean(b)),
            None => None,
        },
        JsonValueType::String => Some(JsonModel::String(text)),
        JsonValueType::Null => Some(JsonModel::Null),
        JsonValueType::Object => Some(JsonModel::Object(Seq::empty())),
        JsonValueType::Array => Some(JsonModel::Array(Seq::empty())),
    }
}

/// The value that a buffer holds for a type, where the buffer is valid for it.
pub open spec fn buffer_model(t: JsonValueType, text: Seq<char>) -> Option<JsonModel> {
    buffer_model_from(t, text, parsed_number_bits(text))
}

/// The value that a buffer holds for a type, given the buffer's reading as a
/// number, where the buffer is valid for the type.
pub fn buffer_value_from(t: JsonValueType, text: &str, parsed: Option<u64>) -> (r: Option<
    JsonValue,
>)
    ensures
        match buffer_model_from(t, text@, parsed) {
            Some(m) => r matches Some(v) && v@ == m,
            None => r is None,
        },
{
    match t {
        JsonValueType::Number => match parsed {
            Some(bits) => Some(JsonValue::Number(JsonNumber { bits, text: text.to_string() })),
            None => None,
        },
        JsonValueType::Boolean => match parse_bool(text) {
            Some(b) => Some(JsonValue::Boolean(b)),
            None => None,
        },
        JsonValueType::String => Some(JsonValue::String(text.to_string())),
        JsonValueType::Null => Some(JsonValue::Null),
        JsonValueType::Object => Some(JsonValue::Object(JsonData::new())),
        JsonValueType::Array => {
            let items: Vec<JsonValue> = Vec::new();
            let v = JsonValue::Array(items);
            proof {
                assert(v@->Array_0 =~= Seq::<JsonModel>::empty());
            }
            Some(v)
        },
    }
}

/// The text that a value is edited as.
pub open spec fn value_text(m: JsonModel) -> Seq<char> {
    match m {
        JsonModel::Number(_, text) => text,
        JsonModel::String(s) => s,
        JsonModel::Boolean(b) => bool_text(b),
        JsonModel::Null => "null"@,
        JsonModel::Object(_) => "{}"@,
        JsonModel::Array(_) => "[]"@,
    }
}

/// The type of a value.
pub open spec fn model_type(m: JsonModel) -> JsonValueType {
    match m {
        JsonModel::Number(..) => JsonValueType::Number,
        JsonModel::String(_) => JsonValueType::String,
        JsonModel::Boolean(_) => JsonValueType::Boolean,
        JsonModel::Null => JsonValueType::Null,
        JsonModel::Object(_) => JsonValueType::Object,
        JsonModel::Array(_) => JsonValueType::Array,
    }
}

/// Focus after Tab in the key/value popup.
pub open spec fn focus_after_tab(f: Option<EditFocus>) -> Option<EditFocus> {
    match f {
        Some(EditFocus::Key) => Some(EditFocus::Value),
        Some(_) => Some(EditFocus::Key),
        None => None,
    }
}

/// Focus after Left in the key/value popup.
pub open spec fn focus_after_left(f: Option<EditFocus>) -> Option<EditFocus> {
    match f {
        Some(EditFocus::Key) => f,
        Some(_) => Some(EditFocus::Key),
        None => None,
    }
}

/// Focus after Right in the key/value popup.
pub open spec fn focus_after_right(f: Option<EditFocus>) -> Option<EditFocus> {
    match f {
        Some(EditFocus::Value) => f,
        Some(_) => Some(EditFocus::Value),
        None => None,
    }
}

/// Focus after Up in the key/value popup.
pub open spec fn focus_after_up(f: Option<EditFocus>) -> Option<EditFocus> {
    match f {
        Some(EditFocus::Type) => Some(EditFocus::Key),
        _ => f,
    }
}

/// Focus after Down in the key/value popup.
pub open spec fn focus_after_down(f: Option<EditFocus>) -> Option<EditFocus> {
    match f {
        Some(EditFocus::Key) | Some(EditFocus::Value) => Some(EditFocus::Type),
        _ => f,
    }
}

/// Focus of the exit popup after Left or Right: the buttons swap, the field stays.
pub open spec fn exit_focus_across(f: Option<ExitFocus>) -> Option<ExitFocus> {
    match f {
        Some(ExitFocus::Positive) => Some(ExitFocus::Negative),
        Some(ExitFocus::Negative) => Some(ExitFocus::Positive),
        _ => f,
    }
}

/// Focus of the exit popup after Up: the field.
pub open spec fn exit_focus_up(f: Option<ExitFocus>) -> Option<ExitFocus> {
    match f {
        Some(_) => Some(ExitFocus::Input),
        None => None,
    }
}

/// Focus of the exit popup after Down: from the field to "discard".
pub open spec fn exit_focus_down(f: Option<ExitFocus>) -> Option<ExitFocus> {
    match f {
        Some(ExitFocus::Input) => Some(ExitFocus::Negative),
        _ => f,
    }
}

/// A cursor over `n` rows after moving down: from nothing to the first row, and
/// no further than the last.
pub open spec fn cursor_down(c: Option<usize>, n: nat) -> Option<usize> {
    if n == 0 {
        None
    } else {
        match c {
            None => Some(0),
            Some(i) => if i + 1 < n {
                Some((i + 1) as usize)
            } else {
                Some((n - 1) as usize)
            },
        }
    }
}

/// A cursor over `n` rows after moving up: from nothing to the last row, and no
/// further than the first.
pub open spec fn cursor_up(c: Option<usize>, n: nat) -> Option<usize> {
    if n == 0 {
        None
    } else {
        match c {
            None => Some((n - 1) as usize),
            Some(i) => if i == 0 {
                Some(0)
            } else if i <= n {
                Some((i - 1) as usize)
            } else {
                Some((n - 1) as usize)
            },
        }
    }
}

/// The output path buffer after typing a character.
pub open spec fn path_typed(p: Option<String>, c: char) -> Seq<char> {
    match p {
        Some(s) => s@.push(c),
        None => seq![c],
    }
}

/// The output path buffer after erasing a character: nothing once it is empty.
pub open spec fn path_erased(p: Option<String>) -> Option<Seq<char>> {
    match p {
        Some(s) => if s@.len() <= 1 {
            None
        } else {
            Some(s@.drop_last())
        },
        None => None,
    }
}

/// The buffers of the key/value popup are as in `a`.
pub open spec fn same_editing(a: App, b: App) -> bool {
    &&& b.key_input == a.key_input
    &&& b.value_input == a.value_input
    &&& b.edit_popup_focus == a.edit_popup_focus
    &&& b.selected_value_type == a.selected_value_type
    &&& b.selected_type_row == a.selected_type_row
    &&& b.type_list_open == a.type_list_open
}

/// The document, the path and the view are as in `a`.
pub open spec fn same_document(a: App, b: App) -> bool {
    &&& b.pairs@ == a.pairs@
    &&& b.path == a.path
    &&& b.view@ == a.view@
    &&& b.view_error == a.view_error
}

/// The browsing state is as in `a`.
pub open spec fn same_browsing(a: App, b: App) -> bool {
    &&& b.selected_row == a.selected_row
    &&& b.target_delete_key == a.target_delete_key
}

/// The exit popup is as in `a`.
pub open spec fn same_exiting(a: App, b: App) -> bool {
    &&& b.exit_popup_focus == a.exit_popup_focus
    &&& b.target_write_file == a.target_write_file
}

/// Only the popup's buffers may differ from `a`.
pub open spec fn only_editing_changed(a: App, b: App) -> bool {
    &&& same_document(a, b)
    &&& same_browsing(a, b)
    &&& same_exiting(a, b)
    &&& b.current_screen == a.current_screen
    &&& b.error_fields == a.error_fields
    &&& b.available_bindings == a.available_bindings
}

/// `b` shows `screen` with its initial focus, no flagged field and no row selected;
/// the rest is as in `a`.
pub open spec fn screen_entered(a: App, b: App, screen: AppScreen) -> bool {
    &&& b.current_screen == screen
    &&& b.edit_popup_focus == if screen == AppScreen::Editing {
        Some(EditFocus::Key)
    } else {
        a.edit_popup_focus
    }
    &&& b.exit_popup_focus == if screen == AppScreen::Exiting {
        Some(ExitFocus::Input)
    } else {
        a.exit_popup_focus
    }
    &&& b.error_fields@.len() == 0
    &&& b.key_input == a.key_input
    &&& b.value_input == a.value_input
    &&& b.selected_value_type == a.selected_value_type
    &&& b.selected_type_row == a.selected_type_row
    &&& b.type_list_open == a.type_list_open
    &&& same_document(a, b)
    &&& b.selected_row is None
    &&& b.target_delete_key == a.target_delete_key
    &&& b.target_write_file == a.target_write_file
    &&& b.available_bindings == a.available_bindings
}

/// `b` has the popup's buffers emptied and closed; the rest is as in `a`.
pub open spec fn editing_cleared(a: App, b: App) -> bool {
    &&& b.key_input@.len() == 0
    &&& b.value_input@.len() == 0
    &&& b.edit_popup_focus is None
    &&& b.selected_value_type == JsonValueType::String
    &&& b.selected_type_row is None
    &&& !b.type_list_open
    &&& b.error_fields@.len() == 0
    &&& same_document(a, b)
    &&& same_browsing(a, b)
    &&& same_exiting(a, b)
    &&& b.current_screen == a.current_screen
    &&& b.available_bindings == a.available_bindings
}

impl App {
    /// Shows another screen. The key/value popup opens on its key field, the exit
    /// popup on its output path; flagged fields and the row cursor are cleared.
    pub fn goto_screen(&mut self, new_screen: AppScreen)
        ensures
            screen_entered(*old(self), *final(self), new_screen),
    {
        match new_screen {
            AppScreen::Editing => {
                self.edit_popup_focus = Some(EditFocus::Key);
            },
            AppScreen::Exiting => {
                self.exit_popup_focus = Some(ExitFocus::Input);
            },
            _ => {},
        }
        self.error_fields = Vec::new();
        self.selected_row = None;
        self.current_screen = new_screen;
    }

    /// Chooses the type of the value being edited; the value buffer takes the
    /// type's empty form.
    pub fn select_value_type(&mut self, new_type: JsonValueType)
        ensures
            final(self).value_input@ == type_seed(new_type),
            final(self).selected_value_type == new_type,
            final(self).key_input == old(self).key_input,
            final(self).edit_popup_focus == old(self).edit_popup_focus,
            final(self).selected_type_row == old(self).selected_type_row,
            final(self).type_list_open == old(self).type_list_open,
            only_editing_changed(*old(self), *final(self)),
    {
        proof {
            reveal_strlit("false");
            reveal_strlit("null");
            reveal_strlit("{}");
            reveal_strlit("[]");
        }
        self.value_input = match new_type {
            JsonValueType::Boolean => String::from_str("false"),
            JsonValueType::Null => String::from_str("null"),
            JsonValueType::Object => String::from_str("{}"),
            JsonValueType::Array => String::from_str("[]"),
            JsonValueType::String => String::new(),
            JsonValueType::Number => String::new(),
        };
        proof {
            assert(self.value_input@ =~= type_seed(new_type));
        }
        self.selected_value_type = new_type;
    }

    /// Empties and closes the key/value popup.
    pub fn clear_editing_state(&mut self)
        ensures
            editing_cleared(*old(self), *final(self)),
    {
        self.key_input = String::new();
        self.value_input = String::new();
        self.edit_popup_focus = None;
        self.selected_value_type = JsonValueType::String;
        self.selected_type_row = None;
        self.type_list_open = false;
        self.error_fields = Vec::new();
    }
}

} // verus!

verus! {

/// `b` has the character typed into `field`; the rest is as in `a`.
pub open spec fn text_entered(a: App, b: App, field: TextField, c: char) -> bool {
    &&& same_document(a, b)
    &&& same_browsing(a, b)
    &&& b.current_screen == a.current_screen
    &&& b.error_fields == a.error_fields
    &&& b.edit_popup_focus == a.edit_popup_focus
    &&& b.selected_value_type == a.selected_value_type
    &&& b.selected_type_row == a.selected_type_row
    &&& b.type_list_open == a.type_list_open
    &&& b.exit_popup_focus == a.exit_popup_focus
    &&& b.available_bindings == a.available_bindings
    &&& match field {
        TextField::Key => b.key_input@ == a.key_input@.push(c) && b.value_input == a.value_input
            && b.target_write_file == a.target_write_file,
        TextField::Value => b.value_input@ == a.value_input@.push(c) && b.key_input
            == a.key_input && b.target_write_file == a.target_write_file,
        TextField::OutputFile => (b.target_write_file matches Some(s) && s@ == path_typed(
            a.target_write_file,
            c,
        )) && b.key_input == a.key_input && b.value_input == a.value_input,
    }
}

/// `b` has the last character of `field` erased; the rest is as in `a`.
pub open spec fn text_erased(a: App, b: App, field: TextField) -> bool {
    &&& same_document(a, b)
    &&& same_browsing(a, b)
    &&& b.current_screen == a.current_screen
    &&& b.error_fields == a.error_fields
    &&& b.edit_popup_focus == a.edit_popup_focus
    &&& b.selected_value_type == a.selected_value_type
    &&& b.selected_type_row == a.selected_type_row
    &&& b.type_list_open == a.type_list_open
    &&& b.exit_popup_focus == a.exit_popup_focus
    &&& b.available_bindings == a.available_bindings
    &&& match field {
        TextField::Key => (if a.key_input@.len() == 0 {
            b.key_input@ == a.key_input@
        } else {
            b.key_input@ == a.key_input@.drop_last()
        }) && b.value_input == a.value_input && b.target_write_file == a.target_write_file,
        TextField::Value => (if a.value_input@.len() == 0 {
            b.value_input@ == a.value_input@
        } else {
            b.value_input@ == a.value_input@.drop_last()
        }) && b.key_input == a.key_input && b.target_write_file == a.target_write_file,
        TextField::OutputFile => (match path_erased(a.target_write_file) {
            Some(t) => b.target_write_file matches Some(s) && s@ == t,
            None => b.target_write_file is None,
        }) && b.key_input == a.key_input && b.value_input == a.value_input,
    }
}

/// `b` is `a` with the popup's focus set to `f`.
pub open spec fn edit_focus_moved(a: App, b: App, f: Option<EditFocus>) -> bool {
    &&& only_editing_changed(a, b)
    &&& b.edit_popup_focus == f
    &&& b.key_input == a.key_input
    &&& b.value_input == a.value_input
    &&& b.selected_value_type == a.selected_value_type
    &&& b.selected_type_row == a.selected_type_row
    &&& b.type_list_open == a.type_list_open
}

/// `b` is `a` with the type list's cursor set to `c`.
pub open spec fn type_cursor_moved(a: App, b: App, c: Option<usize>) -> bool {
    &&& only_editing_changed(a, b)
    &&& b.selected_type_row == c
    &&& b.edit_popup_focus == a.edit_popup_focus
    &&& b.key_input == a.key_input
    &&& b.value_input == a.value_input
    &&& b.selected_value_type == a.selected_value_type
    &&& b.type_list_open == a.type_list_open
}

/// `b` is `a` with the exit popup's focus set to `f`.
pub open spec fn exit_focus_moved(a: App, b: App, f: Option<ExitFocus>) -> bool {
    &&& same_editing(a, b)
    &&& same_document(a, b)
    &&& same_browsing(a, b)
    &&& b.exit_popup_focus == f
    &&& b.target_write_file == a.target_write_file
    &&& b.current_screen == a.current_screen
    &&& b.error_fields == a.error_fields
    &&& b.available_bindings == a.available_bindings
}

/// `b` is `a` with the row cursor set to `c`.
pub open spec fn row_cursor_moved(a: App, b: App, c: Option<usize>) -> bool {
    &&& same_editing(a, b)
    &&& same_document(a, b)
    &&& same_exiting(a, b)
    &&& b.selected_row == c
    &&& b.target_delete_key == a.target_delete_key
    &&& b.current_screen == a.current_screen
    &&& b.error_fields == a.error_fields
    &&& b.available_bindings == a.available_bindings
}

/// `b` is `a` with only the flagged fields changed, to `fields`.
pub open spec fn fields_flagged(a: App, b: App, fields: Seq<TextField>) -> bool {
    &&& same_editing(a, b)
    &&& same_document(a, b)
    &&& same_browsing(a, b)
    &&& same_exiting(a, b)
    &&& b.current_screen == a.current_screen
    &&& b.error_fields@ == fields
    &&& b.available_bindings == a.available_bindings
}

impl App {
    /// Types a character into a buffer.
    pub fn enter_text(&mut self, field: TextField, c: char)
        ensures
            text_entered(*old(self), *final(self), field, c),
    {
        match field {
            TextField::Key => push_char(&mut self.key_input, c),
            TextField::Value => push_char(&mut self.value_input, c),
            TextField::OutputFile => {
                let mut p = match self.target_write_file.take() {
                    Some(s) => s,
                    None => String::new(),
                };
                push_char(&mut p, c);
                proof {
                    assert(p@ =~= path_typed(old(self).target_write_file, c));
                }
                self.target_write_file = Some(p);
            },
        }
    }

    /// Erases the last character of a buffer; an emptied output path is no path.
    pub fn erase_text(&mut self, field: TextField)
        ensures
            text_erased(*old(self), *final(self), field),
    {
        match field {
            TextField::Key => {
                pop_char(&mut self.key_input);
            },
            TextField::Value => {
                pop_char(&mut self.value_input);
            },
            TextField::OutputFile => {
                match self.target_write_file.take() {
                    Some(mut p) => {
                        pop_char(&mut p);
                        if p.unicode_len() == 0 {
                            self.target_write_file = None;
                        } else {
                            self.target_write_file = Some(p);
                        }
                    },
                    None => {},
                }
            },
        }
    }

    /// Sets the focus of the key/value popup.
    fn set_edit_focus(&mut self, f: Option<EditFocus>)
        ensures
            edit_focus_moved(*old(self), *final(self), f),
    {
        self.edit_popup_focus = f;
    }

    /// Flags the given fields as failing validation.
    fn flag_fields(&mut self, fields: Vec<TextField>)
        ensures
            fields_flagged(*old(self), *final(self), fields@),
    {
        self.error_fields = fields;
    }

    /// The value that the buffers hold for the selected type, where they are
    /// valid for it.
    pub fn buffer_value(&self) -> (r: Option<JsonValue>)
        ensures
            match buffer_model(self.selected_value_type, self.value_input@) {
                Some(m) => r matches Some(v) && v@ == m,
                None => r is None,
            },
    {
        let text = self.value_input.as_str();
        let parsed = number_bits_from_text(text);
        buffer_value_from(self.selected_value_type, text, parsed)
    }
}

/// A cursor over `n` rows moved down (`true`) or up.
pub fn move_cursor(c: Option<usize>, n: usize, down: bool) -> (r: Option<usize>)
    ensures
        r == if down {
            cursor_down(c, n as nat)
        } else {
            cursor_up(c, n as nat)
        },
{
    if n == 0 {
        return None;
    }
    if down {
        match c {
            None => Some(0),
            Some(i) => if i < n - 1 {
                Some(i + 1)
            } else {
                Some(n - 1)
            },
        }
    } else {
        match c {
            None => Some(n - 1),
            Some(i) => if i == 0 {
                Some(0)
            } else if i <= n {
                Some(i - 1)
            } else {
                Some(n - 1)
            },
        }
    }
}

/// Reads a boolean as `bool`'s parser does: exactly `true` or `false`.
pub fn parse_bool(text: &str) -> (r: Option<bool>)
    ensures
        r == bool_of_text(text@),
{
    if same_text(text, "true") {
        Some(true)
    } else if same_text(text, "false") {
        Some(false)
    } else {
        None
    }
}

/// Whether a text holds nothing but white space.
pub fn is_blank_text(text: &str) -> (r: bool)
    ensures
        r == is_blank(text@),
{
    let n = text.unicode_len();
    let mut i: usize = 0;
    while i < n
        invariant
            n == text@.len(),
            i <= n,
            forall|j: int| 0 <= j < i ==> white_space(#[trigger] text@[j]),
        decreases n - i,
    {
        if !is_white_space(text.get_char(i)) {
            return false;
        }
        i = i + 1;
    }
    true
}

} // verus!

verus! {

/// `b`'s view is the projection of its path, or, where that fails, the view `prev`
/// with the error kept.
pub open spec fn view_refreshed(prev: JsonModel, b: App) -> bool {
    match resolve(b.pairs@, b.path@) {
        Ok(t) => b.view@ == t && b.view_error is None,
        Err(p) => b.view@ == prev && (b.view_error matches Some(PathError::InvalidPath(s, q))
            && q == p && s == b.path@[p]),
    }
}

/// The popup's buffers of `b` are emptied and closed.
pub open spec fn buffers_cleared(b: App) -> bool {
    &&& b.key_input@.len() == 0
    &&& b.value_input@.len() == 0
    &&& b.edit_popup_focus is None
    &&& b.selected_value_type == JsonValueType::String
    &&& b.selected_type_row is None
    &&& !b.type_list_open
    &&& b.error_fields@.len() == 0
}

/// Submitting the value field: where the buffer is valid for the selected type,
/// the pair is written at the path and the popup closes; else the value field is
/// flagged. A write that finds no object at the path flags the key field.
pub open spec fn value_submitted(a: App, b: App) -> bool {
    match buffer_model(a.selected_value_type, a.value_input@) {
        None => fields_flagged(a, b, seq![TextField::Value]),
        Some(m) => match edit_outcome(
            JsonModel::Object(a.pairs@),
            a.path@,
            0,
            FieldChange::Insert(a.key_input@, m),
        ) {
            Ok(after) => {
                &&& JsonModel::Object(b.pairs@) == after
                &&& b.path == a.path
                &&& view_refreshed(a.view@, b)
                &&& buffers_cleared(b)
                &&& b.current_screen == AppScreen::Main
                &&& b.selected_row is None
                &&& b.target_delete_key == a.target_delete_key
                &&& same_exiting(a, b)
                &&& b.available_bindings == a.available_bindings
            },
            Err(_) => fields_flagged(a, b, seq![TextField::Key]),
        },
    }
}

/// `b` is `a` with the view projected afresh from the document, to `t`.
pub open spec fn view_reprojected(a: App, b: App, t: JsonModel) -> bool {
    &&& b.view@ == t
    &&& b.view_error is None
    &&& b.pairs == a.pairs
    &&& b.path == a.path
    &&& same_editing(a, b)
    &&& same_browsing(a, b)
    &&& same_exiting(a, b)
    &&& b.current_screen == a.current_screen
    &&& b.error_fields == a.error_fields
    &&& b.available_bindings == a.available_bindings
}

/// Opening row `index` of the current container for editing: the rows are read
/// from the document as it is now. The popup shows the row's key and its value as
/// text, with the value's type, focused on the value.
pub open spec fn row_opened(a: App, b: App, index: usize, r: Result<(), OpenItemEditError>) -> bool {
    match resolve(a.pairs@, a.path@) {
        Ok(t) => if index < rows_of(t).len() {
            &&& r is Ok
            &&& b.key_input@ == rows_of(t)[index as int].0
            &&& b.value_input@ == value_text(rows_of(t)[index as int].1)
            &&& b.selected_value_type == model_type(rows_of(t)[index as int].1)
            &&& b.current_screen == AppScreen::Editing
            &&& b.edit_popup_focus == Some(EditFocus::Value)
            &&& b.error_fields@.len() == 0
            &&& !b.type_list_open
            &&& b.selected_type_row == a.selected_type_row
            &&& b.pairs@ == a.pairs@
            &&& b.path == a.path
            &&& b.view@ == t
            &&& b.view_error is None
            &&& b.selected_row is None
            &&& b.target_delete_key == a.target_delete_key
            &&& same_exiting(a, b)
            &&& b.available_bindings == a.available_bindings
        } else {
            r == Err::<(), OpenItemEditError>(OpenItemEditError::InvalidIndex(index))
                && view_reprojected(a, b, t)
        },
        Err(_) => r == Err::<(), OpenItemEditError>(OpenItemEditError::InvalidIndex(index))
            && b == a,
    }
}

/// Asking to delete the selected row of the current container, read from the
/// document as it is now: its key becomes the pending target.
pub open spec fn delete_requested(a: App, b: App, r: Result<(), usize>) -> bool {
    match a.selected_row {
        Some(i) => match resolve(a.pairs@, a.path@) {
            Ok(t) => if i < rows_of(t).len() {
                &&& r is Ok
                &&& (b.target_delete_key matches Some(k) && k@ == rows_of(t)[i as int].0)
                &&& b.selected_row == a.selected_row
                &&& b.view@ == t
                &&& b.view_error is None
                &&& b.pairs == a.pairs
                &&& b.path == a.path
                &&& same_editing(a, b)
                &&& same_exiting(a, b)
                &&& b.current_screen == a.current_screen
                &&& b.error_fields == a.error_fields
                &&& b.available_bindings == a.available_bindings
            } else {
                r == Err::<(), usize>(i) && view_reprojected(a, b, t)
            },
            Err(_) => r == Err::<(), usize>(i) && b == a,
        },
        None => r is Ok && b == a,
    }
}

/// Confirming the pending delete: the key's field is removed from the object at
/// the path, the target and the row cursor are cleared and the view refreshed.
pub open spec fn delete_confirmed(a: App, b: App) -> bool {
    match a.target_delete_key {
        Some(k) => {
            &&& (match edit_outcome(JsonModel::Object(a.pairs@), a.path@, 0, FieldChange::Remove(k@)) {
                Ok(after) => JsonModel::Object(b.pairs@) == after,
                Err(_) => b.pairs@ == a.pairs@,
            })
            &&& (a.path@.len() == 0 ==> keys_unique(a.pairs@) && keys_unique(b.pairs@))
            &&& b.path == a.path
            &&& view_refreshed(a.view@, b)
            &&& b.target_delete_key is None
            &&& b.selected_row is None
            &&& same_editing(a, b)
            &&& same_exiting(a, b)
            &&& b.current_screen == a.current_screen
            &&& b.error_fields == a.error_fields
            &&& b.available_bindings == a.available_bindings
        },
        None => b == a,
    }
}

/// Denying the pending delete clears the target and nothing else.
pub open spec fn delete_denied(a: App, b: App) -> bool {
    &&& b.target_delete_key is None
    &&& b.selected_row == a.selected_row
    &&& same_editing(a, b)
    &&& same_document(a, b)
    &&& same_exiting(a, b)
    &&& b.current_screen == a.current_screen
    &&& b.error_fields == a.error_fields
    &&& b.available_bindings == a.available_bindings
}

/// Going into the selected row of the current container, read from the document
/// as it is now, where the row holds a container: its step (the key in an object,
/// the position in an array) is pushed on the path, the view is refreshed and the
/// cursor goes to the first row.
pub open spec fn traversed_in(a: App, b: App) -> bool {
    match a.selected_row {
        Some(i) => match resolve(a.pairs@, a.path@) {
            Ok(t) => if i < rows_of(t).len() && is_container_model(rows_of(t)[i as int].1) {
                &&& b.path@.len() == a.path@.len() + 1
                &&& b.path@.drop_last() == a.path@
                &&& (match b.path@.last() {
                    Step::Name(s) => t is Object && s@ == rows_of(t)[i as int].0,
                    Step::Index(j) => t is Array && j == i,
                })
                &&& b.pairs == a.pairs
                &&& view_refreshed(t, b)
                &&& b.selected_row == if b.rows().len() > 0 {
                    Some(0usize)
                } else {
                    None
                }
                &&& b.target_delete_key == a.target_delete_key
                &&& same_editing(a, b)
                &&& same_exiting(a, b)
                &&& b.current_screen == a.current_screen
                &&& b.error_fields == a.error_fields
                &&& b.available_bindings == a.available_bindings
            } else {
                view_reprojected(a, b, t)
            },
            Err(_) => b == a,
        },
        None => b == a,
    }
}

/// The row of a view that a step names, if the view shows it.
pub open spec fn row_of_step(step: Step, view: JsonModel) -> Option<usize> {
    match step {
        Step::Name(k) => if view is Object && crate::document::position_of(rows_of(view), k@) >= 0 {
            Some(crate::document::position_of(rows_of(view), k@) as usize)
        } else {
            None
        },
        Step::Index(j) => if view is Array && j < rows_of(view).len() {
            Some(j)
        } else {
            None
        },
    }
}

/// Going out of the current container: the last step is popped, the view is
/// refreshed and the cursor goes to the row that the popped step named, if the
/// view shows it.
pub open spec fn traversed_out(a: App, b: App) -> bool {
    if a.path@.len() > 0 {
        &&& b.path@ == a.path@.drop_last()
        &&& b.pairs@ == a.pairs@
        &&& view_refreshed(a.view@, b)
        &&& b.selected_row == if b.view_error is None {
            row_of_step(a.path@.last(), b.view@)
        } else {
            None
        }
        &&& b.target_delete_key == a.target_delete_key
        &&& same_editing(a, b)
        &&& same_exiting(a, b)
        &&& b.current_screen == a.current_screen
        &&& b.error_fields == a.error_fields
        &&& b.available_bindings == a.available_bindings
    } else {
        b == a
    }
}

/// Activating the focused control of the exit popup: "discard" ends the session
/// without saving; "save" (or the path field) ends it with saving where the
/// output path is not blank, and flags the path field where it is.
pub open spec fn exit_selected(a: App, b: App, r: Option<bool>) -> bool {
    match a.exit_popup_focus {
        None => r is None && b == a,
        Some(ExitFocus::Negative) => r == Some(false) && b == a,
        Some(_) => if a.target_write_file matches Some(p) && !is_blank(p@) {
            r == Some(true) && b == a
        } else {
            r is None && fields_flagged(a, b, seq![TextField::OutputFile])
        },
    }
}

/// Toggling the boolean value: a buffer that reads as a boolean takes the other
/// one; any other buffer stays.
pub open spec fn bool_toggled(a: App, b: App) -> bool {
    match bool_of_text(a.value_input@) {
        Some(x) => {
            &&& b.value_input@ == bool_text(!x)
            &&& only_editing_changed(a, b)
            &&& b.key_input == a.key_input
            &&& b.edit_popup_focus == a.edit_popup_focus
            &&& b.selected_value_type == a.selected_value_type
            &&& b.selected_type_row == a.selected_type_row
            &&& b.type_list_open == a.type_list_open
        },
        None => b == a,
    }
}

/// Cancelling in the popup: an open type list closes; else the popup is cleared
/// and the main screen shown.
pub open spec fn editing_cancelled(a: App, b: App) -> bool {
    if a.type_list_open {
        &&& !b.type_list_open
        &&& only_editing_changed(a, b)
        &&& b.key_input == a.key_input
        &&& b.value_input == a.value_input
        &&& b.edit_popup_focus == a.edit_popup_focus
        &&& b.selected_value_type == a.selected_value_type
        &&& b.selected_type_row == a.selected_type_row
    } else {
        &&& buffers_cleared(b)
        &&& b.current_screen == AppScreen::Main
        &&& same_document(a, b)
        &&& b.selected_row is None
        &&& b.target_delete_key == a.target_delete_key
        &&& same_exiting(a, b)
        &&& b.available_bindings == a.available_bindings
    }
}

/// Enter in the popup: with the type list open, the highlighted type is chosen and
/// the list closes; else the key field moves on to the value, the type field opens
/// the list, and the value field submits.
pub open spec fn edit_submitted(a: App, b: App) -> bool {
    if a.type_list_open {
        match a.selected_type_row {
            Some(i) => if i < value_types().len() {
                &&& !b.type_list_open
                &&& b.selected_value_type == value_types()[i as int]
                &&& b.value_input@ == type_seed(value_types()[i as int])
                &&& b.key_input == a.key_input
                &&& b.edit_popup_focus == a.edit_popup_focus
                &&& b.selected_type_row == a.selected_type_row
                &&& only_editing_changed(a, b)
            } else {
                b == a
            },
            None => b == a,
        }
    } else {
        match a.edit_popup_focus {
            Some(EditFocus::Key) => edit_focus_moved(a, b, Some(EditFocus::Value)),
            Some(EditFocus::Type) => {
                &&& b.type_list_open
                &&& only_editing_changed(a, b)
                &&& b.key_input == a.key_input
                &&& b.value_input == a.value_input
                &&& b.edit_popup_focus == a.edit_popup_focus
                &&& b.selected_value_type == a.selected_value_type
                &&& b.selected_type_row == a.selected_type_row
            },
            Some(EditFocus::Value) => value_submitted(a, b),
            None => b == a,
        }
    }
}

/// Opening the popup for a new pair: empty buffers, focus on the key.
pub open spec fn new_pair_opened(a: App, b: App) -> bool {
    &&& b.key_input@.len() == 0
    &&& b.value_input@.len() == 0
    &&& b.edit_popup_focus == Some(EditFocus::Key)
    &&& b.selected_value_type == JsonValueType::String
    &&& b.selected_type_row is None
    &&& !b.type_list_open
    &&& b.error_fields@.len() == 0
    &&& b.current_screen == AppScreen::Editing
    &&& same_document(a, b)
    &&& b.selected_row is None
    &&& b.target_delete_key == a.target_delete_key
    &&& same_exiting(a, b)
    &&& b.available_bindings == a.available_bindings
}

impl App {
    /// Writes the pair in the buffers at the current path.
    pub fn save_key_value(&mut self) -> (r: Result<(), PathError>)
        requires
            buffer_model(old(self).selected_value_type, old(self).value_input@) is Some,
        ensures
            edit_done(
                JsonModel::Object(old(self).pairs@),
                JsonModel::Object(final(self).pairs@),
                old(self).path@,
                0,
                FieldChange::Insert(
                    old(self).key_input@,
                    buffer_model(old(self).selected_value_type, old(self).value_input@)->Some_0,
                ),
                r,
            ),
            old(self).path@.len() == 0 ==> keys_unique(old(self).pairs@) && keys_unique(
                final(self).pairs@,
            ),
            same_editing(*old(self), *final(self)),
            same_browsing(*old(self), *final(self)),
            same_exiting(*old(self), *final(self)),
            final(self).path == old(self).path,
            final(self).view == old(self).view,
            final(self).view_error == old(self).view_error,
            final(self).current_screen == old(self).current_screen,
            final(self).error_fields == old(self).error_fields,
            final(self).available_bindings == old(self).available_bindings,
    {
        let value = self.buffer_value().unwrap();
        crate::navigator::write(&mut self.pairs, &self.path, self.key_input.clone(), value)
    }

    /// Submits the value field.
    fn submit_value(&mut self)
        ensures
            value_submitted(*old(self), *final(self)),
    {
        if self.buffer_value().is_none() {
            self.flag_fields(vec![TextField::Value]);
            proof {
                assert(self.error_fields@ =~= seq![TextField::Value]);
            }
            return;
        }
        match self.save_key_value() {
            Ok(()) => {
                self.clear_editing_state();
                self.goto_screen(AppScreen::Main);
                self.refresh_view();
            },
            Err(_) => {
                self.flag_fields(vec![TextField::Key]);
                proof {
                    assert(self.error_fields@ =~= seq![TextField::Key]);
                }
            },
        }
    }

    /// Projects the current path into the view. Where the path does not resolve,
    /// nothing changes.
    fn reproject(&mut self) -> (ok: bool)
        ensures
            match resolve(old(self).pairs@, old(self).path@) {
                Ok(t) => ok && view_reprojected(*old(self), *final(self), t),
                Err(_) => !ok && *final(self) == *old(self),
            },
    {
        match project(&self.pairs, &self.path) {
            Ok(v) => {
                self.view = v;
                self.view_error = None;
                true
            },
            Err(_) => false,
        }
    }

    /// Opens row `index` of the current container in the key/value popup.
    pub fn open_item_edit(&mut self, index: usize) -> (r: Result<(), OpenItemEditError>)
        ensures
            row_opened(*old(self), *final(self), index, r),
    {
        if !self.reproject() || index >= self.view.row_count() {
            return Err(OpenItemEditError::InvalidIndex(index));
        }
        let key = self.view.row_key(index);
        let value = self.view.row_value(index);
        let text = value_text_of(value);
        let t = value.value_type();
        self.key_input = key;
        self.value_input = text;
        self.selected_value_type = t;
        self.type_list_open = false;
        self.goto_screen(AppScreen::Editing);
        self.edit_popup_focus = Some(EditFocus::Value);
        Ok(())
    }

    /// Makes the key of the selected row of the current container the pending
    /// delete target.
    pub fn request_delete(&mut self) -> (r: Result<(), usize>)
        ensures
            delete_requested(*old(self), *final(self), r),
    {
        match self.selected_row {
            Some(i) => {
                if !self.reproject() || i >= self.view.row_count() {
                    return Err(i);
                }
                self.target_delete_key = Some(self.view.row_key(i));
                Ok(())
            },
            None => Ok(()),
        }
    }

    /// Removes the pending delete target from the object at the path.
    pub fn confirm_delete(&mut self)
        ensures
            delete_confirmed(*old(self), *final(self)),
    {
        match self.target_delete_key.take() {
            Some(k) => {
                let _ = delete(&mut self.pairs, &self.path, k);
                self.selected_row = None;
                self.refresh_view();
            },
            None => {},
        }
    }

    /// Drops the pending delete target.
    pub fn deny_delete(&mut self)
        ensures
            delete_denied(*old(self), *final(self)),
    {
        self.target_delete_key = None;
    }

    /// Goes into the selected row of the current container, where it holds a
    /// container.
    pub fn traverse_in(&mut self)
        ensures
            traversed_in(*old(self), *final(self)),
    {
        let i = match self.selected_row {
            Some(i) => i,
            None => {
                return;
            },
        };
        if !self.reproject() || i >= self.view.row_count() {
            return;
        }
        let row = self.view.row_value(i);
        proof {
            crate::navigator::lemma_value_container(*row);
        }
        if !row.is_container() {
            return;
        }
        let step = if self.view.is_array() {
            Step::Index(i)
        } else {
            Step::Name(self.view.row_key(i))
        };
        self.path.push(step);
        self.refresh_view();
        if self.view.row_count() > 0 {
            self.selected_row = Some(0);
        } else {
            self.selected_row = None;
        }
        proof {
            assert(self.path@.drop_last() =~= old(self).path@);
        }
    }

    /// Goes out to the container that holds the current one, with the cursor on
    /// the row just left.
    pub fn traverse_out(&mut self)
        ensures
            traversed_out(*old(self), *final(self)),
    {
        if self.path.len() == 0 {
            return;
        }
        let step = match self.path.pop() {
            Some(s) => s,
            None => {
                return;
            },
        };
        self.refresh_view();
        if self.view_error.is_some() {
            self.selected_row = None;
            return;
        }
        self.selected_row = match (&step, &self.view) {
            (Step::Name(k), crate::navigator::Projection::Fields(d)) => d.index_of(k.as_str()),
            (Step::Index(j), crate::navigator::Projection::Elements(items)) => if *j
                < items.len() {
                Some(*j)
            } else {
                None
            },
            _ => None,
        };
    }

    /// Toggles a boolean value buffer.
    pub fn toggle_bool(&mut self)
        ensures
            bool_toggled(*old(self), *final(self)),
    {
        proof {
            reveal_strlit("true");
            reveal_strlit("false");
        }
        match parse_bool(self.value_input.as_str()) {
            Some(b) => {
                self.value_input = if b {
                    String::from_str("false")
                } else {
                    String::from_str("true")
                };
            },
            None => {},
        }
    }

    /// Activates the focused control of the exit popup. `Some(save)` ends the
    /// session.
    pub fn select_exit_control(&mut self) -> (r: Option<bool>)
        ensures
            exit_selected(*old(self), *final(self), r),
    {
        match self.exit_popup_focus {
            None => None,
            Some(ExitFocus::Negative) => Some(false),
            Some(_) => {
                let blank = match &self.target_write_file {
                    Some(p) => is_blank_text(p.as_str()),
                    None => true,
                };
                if blank {
                    self.flag_fields(vec![TextField::OutputFile]);
                    proof {
                        assert(self.error_fields@ =~= seq![TextField::OutputFile]);
                    }
                    None
                } else {
                    Some(true)
                }
            },
        }
    }

    /// Cancels in the key/value popup.
    pub fn cancel_editing(&mut self)
        ensures
            editing_cancelled(*old(self), *final(self)),
    {
        if self.type_list_open {
            self.type_list_open = false;
        } else {
            self.clear_editing_state();
            self.goto_screen(AppScreen::Main);
        }
    }

    /// Enter in the key/value popup.
    pub fn submit_editing(&mut self)
        ensures
            edit_submitted(*old(self), *final(self)),
    {
        if self.type_list_open {
            if let Some(i) = self.selected_type_row {
                let types = App::all_value_types();
                if i < types.len() {
                    let t = types[i];
                    self.type_list_open = false;
                    self.select_value_type(t);
                }
            }
        } else {
            match self.edit_popup_focus {
                Some(EditFocus::Key) => self.set_edit_focus(Some(EditFocus::Value)),
                Some(EditFocus::Type) => {
                    self.type_list_open = true;
                },
                Some(EditFocus::Value) => self.submit_value(),
                None => {},
            }
        }
    }

    /// Opens the popup for a new pair.
    pub fn open_new_pair(&mut self)
        ensures
            new_pair_opened(*old(self), *final(self)),
    {
        self.clear_editing_state();
        self.goto_screen(AppScreen::Editing);
    }
}

/// The text that a value is edited as.
pub fn value_text_of(v: &JsonValue) -> (r: String)
    ensures
        r@ == value_text(v@),
{
    proof {
        reveal_strlit("true");
        reveal_strlit("false");
        reveal_strlit("null");
        reveal_strlit("{}");
        reveal_strlit("[]");
    }
    match v {
        JsonValue::Number(n) => n.text.clone(),
        JsonValue::String(s) => s.clone(),
        JsonValue::Boolean(b) => if *b {
            String::from_str("true")
        } else {
            String::from_str("false")
        },
        JsonValue::Null => String::from_str("null"),
        JsonValue::Object(_) => String::from_str("{}"),
        JsonValue::Array(_) => String::from_str("[]"),
    }
}

} // verus!

verus! {

/// The text a string, a boolean or null is edited as reads back, under its own
/// type, as the same value.
pub proof fn lemma_buffers_read_back(m: JsonModel)
    requires
        m is String || m is Boolean || m is Null,
    ensures
        buffer_model(model_type(m), value_text(m)) == Some(m),
{
    reveal_strlit("true");
    reveal_strlit("false");
    if let JsonModel::Boolean(b) = m {
        assert("true"@.len() != "false"@.len());
        assert(bool_of_text(bool_text(b)) == Some(b));
    }
}

/// Opening a row of a string, a boolean or null for editing and submitting it
/// unchanged writes back exactly what the document holds: the document keeps its
/// fields, their order and their values.
pub proof fn lemma_unchanged_edit_round_trip(doc: Seq<Entry>, path: Seq<Step>, row: int)
    requires
        crate::navigator::well_formed(JsonModel::Object(doc)),
        resolve(doc, path) matches Ok(JsonModel::Object(e)) && 0 <= row < e.len() && (
        e[row].1 is String || e[row].1 is Boolean || e[row].1 is Null),
    ensures
        ({
            let e = resolve(doc, path)->Ok_0->Object_0;
            edit_outcome(
                JsonModel::Object(doc),
                path,
                0,
                FieldChange::Insert(
                    e[row].0,
                    buffer_model(model_type(e[row].1), value_text(e[row].1))->Some_0,
                ),
            ) == Ok::<JsonModel, PathError>(JsonModel::Object(doc))
        }),
{
    let e = resolve(doc, path)->Ok_0->Object_0;
    lemma_buffers_read_back(e[row].1);
    crate::navigator::lemma_rewrite_unchanged_row(doc, path, row);
}

} // verus!

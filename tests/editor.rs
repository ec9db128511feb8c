use json_editor::actions::{buffer_value_from, is_white_space, move_cursor, parse_bool, value_text_of};
use json_editor::app::{
    App, AppError, AppScreen, EditFocus, ExitFocus, InputAction, InputContents, KeyCode, KeyEvent,
    KeyEventKind, OpenItemEditError, TextField,
};
use json_editor::control::{handle_input, resolve_binding};
use json_editor::document::JsonData;
use json_editor::navigator::{delete, project, PathError, Projection, Step};
use json_editor::number::{literal_for_bits, NumberLiteral};
use json_editor::text::decimal_string;
use json_editor::value::{JsonNumber, JsonValue, JsonValueType};

fn number(text: &str) -> JsonValue {
    JsonValue::Number(JsonNumber::parse(text).unwrap())
}

fn keys(d: &JsonData) -> Vec<String> {
    let mut out = Vec::new();
    for i in 0..d.len() {
        out.push(d.entry_at(i).unwrap().0.clone());
    }
    out
}

fn row_keys(p: &Projection) -> Vec<String> {
    (0..p.row_count()).map(|i| p.row_key(i)).collect()
}

fn as_bool(v: &JsonValue) -> Option<bool> {
    match v {
        JsonValue::Boolean(b) => Some(*b),
        _ => None,
    }
}

fn as_bits(v: &JsonValue) -> Option<u64> {
    match v {
        JsonValue::Number(n) => Some(n.bits),
        _ => None,
    }
}

/// `{"a": 1, "b": {"c": true}}`
fn sample() -> JsonData {
    let mut inner = JsonData::new();
    inner.insert("c".to_string(), JsonValue::Boolean(true));
    let mut doc = JsonData::new();
    doc.insert("a".to_string(), number("1"));
    doc.insert("b".to_string(), JsonValue::Object(inner));
    doc
}

fn session(doc: JsonData) -> App {
    App::new(None, InputContents::Parsed(JsonValue::Object(doc))).ok().unwrap()
}

fn press(app: &mut App, code: KeyCode) -> Result<Option<bool>, AppError> {
    app.update_state();
    handle_input(app, KeyEvent { code, kind: KeyEventKind::Press })
}

fn type_text(app: &mut App, text: &str) {
    for c in text.chars() {
        press(app, KeyCode::Char(c)).ok().unwrap();
    }
}

#[test]
fn insertion_order_survives_updates_and_removals() {
    let mut d = JsonData::new();
    d.insert("a".to_string(), number("1"));
    d.insert("b".to_string(), number("2"));
    d.insert("c".to_string(), number("3"));
    let previous = d.insert("b".to_string(), JsonValue::Null);
    assert_eq!(previous.as_ref().and_then(as_bits), Some(2f64.to_bits()));
    assert_eq!(keys(&d), vec!["a", "b", "c"]);
    assert!(matches!(d.get("b"), Some(JsonValue::Null)));
    let removed = d.remove("a");
    assert_eq!(removed.as_ref().and_then(as_bits), Some(1f64.to_bits()));
    assert_eq!(keys(&d), vec!["b", "c"]);
    d.insert("a".to_string(), JsonValue::Null);
    assert_eq!(keys(&d), vec!["b", "c", "a"]);
    assert!(d.remove("zzz").is_none());
    assert_eq!(keys(&d), vec!["b", "c", "a"]);
    assert_eq!(d.index_of("a"), Some(2));
    assert_eq!(d.index_of("zzz"), None);
    assert!(d.entry_at(3).is_none());
}

#[test]
fn empty_document() {
    let d = JsonData::new();
    assert!(d.is_empty());
    assert_eq!(d.len(), 0);
    assert!(d.get("a").is_none());
    assert!(d.entry_at(0).is_none());
}

#[test]
fn root_projection_is_the_document() {
    let doc = sample();
    let view = project(&doc, &Vec::new()).ok().unwrap();
    assert!(!view.is_array());
    assert_eq!(row_keys(&view), vec!["a", "b"]);
    assert_eq!(as_bits(view.row_value(0)), Some(1f64.to_bits()));
    assert!(matches!(view.row_value(1), JsonValue::Object(d) if keys(d) == vec!["c"]));
}

#[test]
fn projection_is_a_copy() {
    let doc = sample();
    let mut view = project(&doc, &vec![Step::Name("b".to_string())]).ok().unwrap();
    if let Projection::Fields(d) = &mut view {
        d.insert("new".to_string(), JsonValue::Null);
        d.remove("c");
    }
    assert_eq!(row_keys(&view), vec!["new"]);
    let again = project(&doc, &vec![Step::Name("b".to_string())]).ok().unwrap();
    assert_eq!(row_keys(&again), vec!["c"]);
    assert_eq!(keys(&doc), vec!["a", "b"]);
}

#[test]
fn projection_errors_name_the_step() {
    let doc = sample();
    let missing = project(&doc, &vec![Step::Name("zz".to_string())]);
    assert!(matches!(missing, Err(PathError::InvalidPath(Step::Name(s), 0)) if s == "zz"));
    let leaf = project(&doc, &vec![Step::Name("a".to_string())]);
    assert!(matches!(leaf, Err(PathError::InvalidPath(Step::Name(s), 0)) if s == "a"));
    let deep = project(&doc, &vec![Step::Name("b".to_string()), Step::Index(0)]);
    assert!(matches!(deep, Err(PathError::InvalidPath(Step::Index(0), 1))));
}

#[test]
fn arrays_project_as_numbered_rows() {
    let mut element = JsonData::new();
    element.insert("k".to_string(), JsonValue::Null);
    let items = vec![number("5"), JsonValue::Object(element), JsonValue::String("s".to_string())];
    let mut doc = JsonData::new();
    doc.insert("list".to_string(), JsonValue::Array(items));
    let path = vec![Step::Name("list".to_string())];
    let view = project(&doc, &path).ok().unwrap();
    assert!(view.is_array());
    assert_eq!(row_keys(&view), vec!["0", "1", "2"]);
    let inner = project(&doc, &vec![Step::Name("list".to_string()), Step::Index(1)]).ok().unwrap();
    assert_eq!(row_keys(&inner), vec!["k"]);
    let out_of_range = project(&doc, &vec![Step::Name("list".to_string()), Step::Index(7)]);
    assert!(matches!(out_of_range, Err(PathError::InvalidPath(Step::Index(7), 1))));
}

#[test]
fn write_follows_paths_into_objects_and_arrays() {
    let mut element = JsonData::new();
    element.insert("k".to_string(), JsonValue::Null);
    let mut doc = sample();
    doc.insert("list".to_string(), JsonValue::Array(vec![JsonValue::Object(element)]));
    let nested = vec![Step::Name("b".to_string())];
    json_editor::navigator::write(&mut doc, &nested, "d".to_string(), number("4")).unwrap();
    let b = project(&doc, &nested).ok().unwrap();
    assert_eq!(row_keys(&b), vec!["c", "d"]);
    let in_array = vec![Step::Name("list".to_string()), Step::Index(0)];
    json_editor::navigator::write(&mut doc, &in_array, "k".to_string(), JsonValue::Boolean(false))
        .unwrap();
    let el = project(&doc, &in_array).ok().unwrap();
    assert_eq!(row_keys(&el), vec!["k"]);
    assert_eq!(as_bool(el.row_value(0)), Some(false));
    assert_eq!(keys(&doc), vec!["a", "b", "list"]);
}

#[test]
fn write_reports_where_it_has_no_target() {
    let mut doc = sample();
    doc.insert("list".to_string(), JsonValue::Array(vec![number("1")]));
    let to_array = json_editor::navigator::write(
        &mut doc,
        &vec![Step::Name("list".to_string())],
        "x".to_string(),
        JsonValue::Null,
    );
    assert!(matches!(to_array, Err(PathError::NotAnObject)));
    let dangling = json_editor::navigator::write(
        &mut doc,
        &vec![Step::Name("nope".to_string())],
        "x".to_string(),
        JsonValue::Null,
    );
    assert!(matches!(dangling, Err(PathError::InvalidPath(Step::Name(s), 0)) if s == "nope"));
    let index_on_object =
        json_editor::navigator::write(&mut doc, &vec![Step::Index(0)], "x".to_string(), JsonValue::Null);
    assert!(matches!(index_on_object, Err(PathError::InvalidPath(Step::Index(0), 0))));
    assert_eq!(keys(&doc), vec!["a", "b", "list"]);
}

#[test]
fn delete_at_a_path() {
    let mut doc = sample();
    let path = vec![Step::Name("b".to_string())];
    delete(&mut doc, &path, "c".to_string()).unwrap();
    assert_eq!(row_keys(&project(&doc, &path).ok().unwrap()), Vec::<String>::new());
    assert_eq!(keys(&doc), vec!["a", "b"]);
}

#[test]
fn rewriting_a_projected_row_changes_nothing() {
    let mut doc = sample();
    let path = vec![Step::Name("b".to_string())];
    let view = project(&doc, &path).ok().unwrap();
    let key = view.row_key(0);
    let value = view.row_value(0).clone();
    json_editor::navigator::write(&mut doc, &path, key, value).unwrap();
    assert_eq!(keys(&doc), vec!["a", "b"]);
    let after = project(&doc, &path).ok().unwrap();
    assert_eq!(row_keys(&after), vec!["c"]);
    assert_eq!(as_bool(after.row_value(0)), Some(true));
    let root = project(&doc, &Vec::new()).ok().unwrap();
    let (k, v) = (root.row_key(0), root.row_value(0).clone());
    json_editor::navigator::write(&mut doc, &Vec::new(), k, v).unwrap();
    assert_eq!(keys(&doc), vec!["a", "b"]);
    assert_eq!(as_bits(doc.get("a").unwrap()), Some(1f64.to_bits()));
}

#[test]
fn number_literals() {
    assert_eq!(JsonNumber::parse("3.5").unwrap().literal(), NumberLiteral::Float);
    assert_eq!(JsonNumber::parse("-3").unwrap().literal(), NumberLiteral::Signed(-3));
    assert_eq!(JsonNumber::parse("-3.0").unwrap().literal(), NumberLiteral::Signed(-3));
    assert_eq!(JsonNumber::parse("3").unwrap().literal(), NumberLiteral::Unsigned(3));
    assert_eq!(JsonNumber::parse("3.0").unwrap().literal(), NumberLiteral::Unsigned(3));
    assert_eq!(JsonNumber::parse("1.0").unwrap().literal(), NumberLiteral::Unsigned(1));
}

#[test]
fn number_literals_at_the_edges() {
    assert_eq!(literal_for_bits(0f64.to_bits()), NumberLiteral::Unsigned(0));
    assert_eq!(literal_for_bits((-0f64).to_bits()), NumberLiteral::Unsigned(0));
    assert_eq!(literal_for_bits(0.5f64.to_bits()), NumberLiteral::Float);
    assert_eq!(literal_for_bits((-2.25f64).to_bits()), NumberLiteral::Float);
    assert_eq!(literal_for_bits(f64::NAN.to_bits()), NumberLiteral::Float);
    assert_eq!(literal_for_bits(f64::INFINITY.to_bits()), NumberLiteral::Float);
    assert_eq!(literal_for_bits(1e300f64.to_bits()), NumberLiteral::Unsigned(u64::MAX));
    assert_eq!(literal_for_bits((-1e300f64).to_bits()), NumberLiteral::Signed(i64::MIN));
    assert_eq!(literal_for_bits(4503599627370497f64.to_bits()), NumberLiteral::Unsigned(4503599627370497));
    assert_eq!(literal_for_bits(9007199254740992f64.to_bits()), NumberLiteral::Unsigned(9007199254740992));
    assert_eq!(literal_for_bits(1e18f64.to_bits()), NumberLiteral::Unsigned(1000000000000000000));
    assert_eq!(literal_for_bits((-9.223372036854775808e18f64).to_bits()), NumberLiteral::Signed(i64::MIN));
    assert_eq!(literal_for_bits(f64::MIN_POSITIVE.to_bits()), NumberLiteral::Float);
    assert_eq!(literal_for_bits(5e-324f64.to_bits()), NumberLiteral::Float);
}

#[test]
fn number_parsing() {
    assert!(JsonNumber::parse("abc").is_none());
    assert!(JsonNumber::parse("").is_none());
    let n = JsonNumber::parse("3.5").unwrap();
    assert_eq!(n.bits, 3.5f64.to_bits());
    assert_eq!(n.text, "3.5");
    assert_eq!(JsonNumber::parse("-12").unwrap().bits, (-12f64).to_bits());
}

#[test]
fn booleans_parse_exactly() {
    assert_eq!(parse_bool("true"), Some(true));
    assert_eq!(parse_bool("false"), Some(false));
    assert_eq!(parse_bool("True"), None);
    assert_eq!(parse_bool(""), None);
}

#[test]
fn decimal_numerals() {
    assert_eq!(decimal_string(0), "0");
    assert_eq!(decimal_string(7), "7");
    assert_eq!(decimal_string(10), "10");
    assert_eq!(decimal_string(1234567), "1234567");
}

#[test]
fn cursor_moves_stay_in_range() {
    assert_eq!(move_cursor(None, 3, true), Some(0));
    assert_eq!(move_cursor(Some(0), 3, true), Some(1));
    assert_eq!(move_cursor(Some(2), 3, true), Some(2));
    assert_eq!(move_cursor(None, 3, false), Some(2));
    assert_eq!(move_cursor(Some(0), 3, false), Some(0));
    assert_eq!(move_cursor(Some(2), 3, false), Some(1));
    assert_eq!(move_cursor(None, 0, true), None);
}

#[test]
fn value_texts() {
    assert_eq!(value_text_of(&JsonValue::Null), "null");
    assert_eq!(value_text_of(&JsonValue::Boolean(true)), "true");
    assert_eq!(value_text_of(&JsonValue::Object(JsonData::new())), "{}");
    assert_eq!(value_text_of(&JsonValue::Array(Vec::new())), "[]");
    assert_eq!(value_text_of(&JsonValue::String("hi".to_string())), "hi");
    assert_eq!(value_text_of(&number("2.5")), "2.5");
}

#[test]
fn descriptions() {
    assert_eq!(InputAction::OpenNewPairPopup.description(), Some("new"));
    assert_eq!(InputAction::Quit.description(), Some("quit"));
    assert_eq!(InputAction::DeleteYes.description(), Some("yes"));
    assert_eq!(InputAction::TraverseOut.description(), Some("back"));
    assert_eq!(InputAction::ExitUp.description(), None);
    assert_eq!(InputAction::EnterFieldText(TextField::Key).description(), None);
}

#[test]
fn value_types_in_list_order() {
    assert_eq!(
        App::all_value_types(),
        vec![
            JsonValueType::String,
            JsonValueType::Number,
            JsonValueType::Boolean,
            JsonValueType::Null,
            JsonValueType::Object,
            JsonValueType::Array
        ]
    );
}

#[test]
fn loading_inputs() {
    let empty = App::new(None, InputContents::Absent).ok().unwrap();
    assert!(empty.pairs.is_empty());
    assert_eq!(*empty.get_current_screen(), AppScreen::Main);
    let missing = App::new(Some("in.json".to_string()), InputContents::Unreadable);
    assert!(matches!(missing, Err(AppError::InputFileNotFound(p)) if p == "in.json"));
    assert!(matches!(App::new(None, InputContents::Invalid), Err(AppError::InvalidInputJson)));
    let not_object = App::new(None, InputContents::Parsed(number("1")));
    assert!(matches!(not_object, Err(AppError::InvalidInputJson)));
    let loaded = App::new(Some("in.json".to_string()), InputContents::Parsed(JsonValue::Object(sample())))
        .ok()
        .unwrap();
    assert_eq!(keys(&loaded.pairs), vec!["a", "b"]);
    assert_eq!(row_keys(&loaded.view), vec!["a", "b"]);
    assert_eq!(loaded.target_write_file.as_deref(), Some("in.json"));
}

#[test]
fn bindings_depend_on_the_state() {
    let mut empty = App::new(None, InputContents::Absent).ok().unwrap();
    empty.update_state();
    assert_eq!(resolve_binding(&empty.available_bindings, KeyCode::Down), None);
    assert_eq!(resolve_binding(&empty.available_bindings, KeyCode::Char('e')), Some(InputAction::OpenNewPairPopup));
    let mut app = session(sample());
    app.update_state();
    assert_eq!(resolve_binding(&app.available_bindings, KeyCode::Down), Some(InputAction::CursorDown));
    assert_eq!(resolve_binding(&app.available_bindings, KeyCode::Enter), Some(InputAction::CursorSelect));
    assert_eq!(resolve_binding(&app.available_bindings, KeyCode::Esc), None);
    assert_eq!(resolve_binding(&app.available_bindings, KeyCode::Backspace), None);
    assert_eq!(resolve_binding(&app.available_bindings, KeyCode::Left), None);
    press(&mut app, KeyCode::Down).unwrap();
    app.update_state();
    assert_eq!(resolve_binding(&app.available_bindings, KeyCode::Backspace), Some(InputAction::RequestPairDelete));
    assert_eq!(resolve_binding(&app.available_bindings, KeyCode::Right), None);
    press(&mut app, KeyCode::Char('e')).unwrap();
    app.update_state();
    assert_eq!(
        resolve_binding(&app.available_bindings, KeyCode::Char('z')),
        Some(InputAction::EnterFieldText(TextField::Key))
    );
    assert_eq!(resolve_binding(&app.available_bindings, KeyCode::Enter), Some(InputAction::EditingSubmit));
}

#[test]
fn released_keys_are_ignored() {
    let mut app = session(sample());
    app.update_state();
    let r = handle_input(&mut app, KeyEvent { code: KeyCode::Char('q'), kind: KeyEventKind::Release });
    assert!(matches!(r, Ok(None)));
    let r = handle_input(&mut app, KeyEvent { code: KeyCode::Char('q'), kind: KeyEventKind::Repeat });
    assert!(matches!(r, Ok(None)));
    assert_eq!(*app.get_current_screen(), AppScreen::Main);
}

#[test]
fn traverse_in_and_out() {
    let mut app = session(sample());
    press(&mut app, KeyCode::Down).unwrap();
    press(&mut app, KeyCode::Down).unwrap();
    assert_eq!(app.selected_row, Some(1));
    press(&mut app, KeyCode::Right).unwrap();
    assert_eq!(row_keys(&app.view), vec!["c"]);
    assert_eq!(as_bool(app.view.row_value(0)), Some(true));
    assert_eq!(app.selected_row, Some(0));
    press(&mut app, KeyCode::Left).unwrap();
    assert_eq!(row_keys(&app.view), vec!["a", "b"]);
    assert_eq!(as_bits(app.view.row_value(0)), Some(1f64.to_bits()));
    assert_eq!(app.selected_row, Some(1));
    assert!(app.path.is_empty());
}

#[test]
fn delete_confirmation_flow() {
    let mut app = session(sample());
    press(&mut app, KeyCode::Down).unwrap();
    press(&mut app, KeyCode::Backspace).unwrap();
    assert_eq!(app.target_delete_key.as_deref(), Some("a"));
    press(&mut app, KeyCode::Char('n')).unwrap();
    assert!(app.target_delete_key.is_none());
    assert_eq!(keys(&app.pairs), vec!["a", "b"]);
    press(&mut app, KeyCode::Backspace).unwrap();
    assert_eq!(app.target_delete_key.as_deref(), Some("a"));
    press(&mut app, KeyCode::Char('y')).unwrap();
    assert!(app.target_delete_key.is_none());
    assert_eq!(keys(&app.pairs), vec!["b"]);
    assert_eq!(app.selected_row, None);
}

#[test]
fn new_boolean_pair() {
    let mut app = session(sample());
    press(&mut app, KeyCode::Char('e')).unwrap();
    assert_eq!(*app.get_current_screen(), AppScreen::Editing);
    assert_eq!(app.edit_popup_focus, Some(EditFocus::Key));
    type_text(&mut app, "x");
    assert_eq!(app.key_input, "x");
    press(&mut app, KeyCode::Down).unwrap();
    assert_eq!(app.edit_popup_focus, Some(EditFocus::Type));
    press(&mut app, KeyCode::Enter).unwrap();
    assert!(app.type_list_open);
    press(&mut app, KeyCode::Down).unwrap();
    press(&mut app, KeyCode::Down).unwrap();
    press(&mut app, KeyCode::Enter).unwrap();
    assert!(!app.type_list_open);
    assert_eq!(app.selected_value_type, JsonValueType::Boolean);
    assert_eq!(app.value_input, "false");
    press(&mut app, KeyCode::Right).unwrap();
    assert_eq!(app.edit_popup_focus, Some(EditFocus::Value));
    press(&mut app, KeyCode::Char('t')).unwrap();
    assert_eq!(app.value_input, "true");
    press(&mut app, KeyCode::Enter).unwrap();
    assert_eq!(*app.get_current_screen(), AppScreen::Main);
    assert_eq!(keys(&app.pairs), vec!["a", "b", "x"]);
    assert_eq!(as_bool(app.pairs.get("x").unwrap()), Some(true));
    assert_eq!(app.key_input, "");
    assert_eq!(app.value_input, "");
}

#[test]
fn invalid_number_is_rejected() {
    let mut app = session(sample());
    press(&mut app, KeyCode::Char('e')).unwrap();
    type_text(&mut app, "n");
    press(&mut app, KeyCode::Down).unwrap();
    press(&mut app, KeyCode::Enter).unwrap();
    press(&mut app, KeyCode::Down).unwrap();
    press(&mut app, KeyCode::Enter).unwrap();
    assert_eq!(app.selected_value_type, JsonValueType::Number);
    press(&mut app, KeyCode::Right).unwrap();
    type_text(&mut app, "abc");
    assert_eq!(app.value_input, "abc");
    press(&mut app, KeyCode::Enter).unwrap();
    assert_eq!(app.error_fields, vec![TextField::Value]);
    assert_eq!(*app.get_current_screen(), AppScreen::Editing);
    assert_eq!(keys(&app.pairs), vec!["a", "b"]);
    for _ in 0..3 {
        press(&mut app, KeyCode::Backspace).unwrap();
    }
    type_text(&mut app, "-2.5");
    press(&mut app, KeyCode::Enter).unwrap();
    assert_eq!(*app.get_current_screen(), AppScreen::Main);
    assert_eq!(as_bits(app.pairs.get("n").unwrap()), Some((-2.5f64).to_bits()));
}

#[test]
fn editing_an_existing_row() {
    let mut app = session(sample());
    press(&mut app, KeyCode::Down).unwrap();
    press(&mut app, KeyCode::Enter).unwrap();
    assert_eq!(*app.get_current_screen(), AppScreen::Editing);
    assert_eq!(app.key_input, "a");
    assert_eq!(app.value_input, "1");
    assert_eq!(app.selected_value_type, JsonValueType::Number);
    assert_eq!(app.edit_popup_focus, Some(EditFocus::Value));
    type_text(&mut app, "0");
    press(&mut app, KeyCode::Enter).unwrap();
    assert_eq!(keys(&app.pairs), vec!["a", "b"]);
    assert_eq!(as_bits(app.pairs.get("a").unwrap()), Some(10f64.to_bits()));
}

#[test]
fn open_item_edit_checks_the_index() {
    let mut app = session(sample());
    assert_eq!(app.open_item_edit(5), Err(OpenItemEditError::InvalidIndex(5)));
    assert_eq!(*app.get_current_screen(), AppScreen::Main);
}

#[test]
fn cancelling_an_edit_clears_the_buffers() {
    let mut app = session(sample());
    press(&mut app, KeyCode::Char('e')).unwrap();
    type_text(&mut app, "zz");
    press(&mut app, KeyCode::Backspace).unwrap();
    assert_eq!(app.key_input, "z");
    press(&mut app, KeyCode::Esc).unwrap();
    assert_eq!(*app.get_current_screen(), AppScreen::Main);
    assert_eq!(app.key_input, "");
    assert_eq!(keys(&app.pairs), vec!["a", "b"]);
}

#[test]
fn exit_needs_an_output_path_to_save() {
    let mut app = session(sample());
    press(&mut app, KeyCode::Char('q')).unwrap();
    assert_eq!(*app.get_current_screen(), AppScreen::Exiting);
    assert_eq!(app.exit_popup_focus, Some(ExitFocus::Input));
    type_text(&mut app, "  ");
    assert!(matches!(press(&mut app, KeyCode::Enter), Ok(None)));
    assert_eq!(app.error_fields, vec![TextField::OutputFile]);
    press(&mut app, KeyCode::Backspace).unwrap();
    press(&mut app, KeyCode::Backspace).unwrap();
    assert!(app.target_write_file.is_none());
    type_text(&mut app, "out.json");
    assert_eq!(app.target_write_file.as_deref(), Some("out.json"));
    assert!(matches!(press(&mut app, KeyCode::Enter), Ok(Some(true))));
}

#[test]
fn exit_without_saving() {
    let mut app = session(sample());
    press(&mut app, KeyCode::Char('q')).unwrap();
    press(&mut app, KeyCode::Down).unwrap();
    assert_eq!(app.exit_popup_focus, Some(ExitFocus::Negative));
    press(&mut app, KeyCode::Left).unwrap();
    assert_eq!(app.exit_popup_focus, Some(ExitFocus::Positive));
    press(&mut app, KeyCode::Right).unwrap();
    assert_eq!(app.exit_popup_focus, Some(ExitFocus::Negative));
    assert!(matches!(press(&mut app, KeyCode::Enter), Ok(Some(false))));
    press(&mut app, KeyCode::Up).unwrap();
    assert_eq!(app.exit_popup_focus, Some(ExitFocus::Input));
    press(&mut app, KeyCode::Esc).unwrap();
    assert_eq!(*app.get_current_screen(), AppScreen::Main);
}

#[test]
fn preview_toggles() {
    let mut app = session(sample());
    press(&mut app, KeyCode::Char('p')).unwrap();
    assert_eq!(*app.get_current_screen(), AppScreen::Preview);
    press(&mut app, KeyCode::Esc).unwrap();
    assert_eq!(*app.get_current_screen(), AppScreen::Main);
}

#[test]
fn stale_cursor_reports_the_row() {
    let mut app = session(sample());
    press(&mut app, KeyCode::Down).unwrap();
    app.update_state();
    app.selected_row = Some(9);
    let r = handle_input(&mut app, KeyEvent { code: KeyCode::Enter, kind: KeyEventKind::Press });
    assert!(matches!(r, Err(AppError::FailedToOpenPairEdit(OpenItemEditError::InvalidIndex(9)))));
    let r = handle_input(&mut app, KeyEvent { code: KeyCode::Backspace, kind: KeyEventKind::Press });
    assert!(matches!(r, Err(AppError::NoEntryAtIndex(9))));
    assert!(app.target_delete_key.is_none());
}

#[test]
fn array_views_are_browsed_by_position() {
    let mut element = JsonData::new();
    element.insert("k".to_string(), JsonValue::Null);
    let mut doc = JsonData::new();
    doc.insert("list".to_string(), JsonValue::Array(vec![number("5"), JsonValue::Object(element)]));
    let mut app = session(doc);
    press(&mut app, KeyCode::Down).unwrap();
    press(&mut app, KeyCode::Right).unwrap();
    assert!(app.view.is_array());
    assert_eq!(row_keys(&app.view), vec!["0", "1"]);
    app.update_state();
    assert_eq!(resolve_binding(&app.available_bindings, KeyCode::Char('e')), None);
    assert_eq!(resolve_binding(&app.available_bindings, KeyCode::Backspace), None);
    press(&mut app, KeyCode::Down).unwrap();
    assert_eq!(app.selected_row, Some(1));
    press(&mut app, KeyCode::Right).unwrap();
    assert_eq!(row_keys(&app.view), vec!["k"]);
    assert!(matches!(app.path.last(), Some(Step::Index(1))));
    press(&mut app, KeyCode::Char('e')).unwrap();
    type_text(&mut app, "m");
    press(&mut app, KeyCode::Tab).unwrap();
    type_text(&mut app, "v");
    press(&mut app, KeyCode::Enter).unwrap();
    assert_eq!(row_keys(&app.view), vec!["k", "m"]);
    press(&mut app, KeyCode::Left).unwrap();
    assert_eq!(app.selected_row, Some(1));
    press(&mut app, KeyCode::Left).unwrap();
    assert_eq!(row_keys(&app.view), vec!["list"]);
    assert_eq!(app.selected_row, Some(0));
}

#[test]
fn rows_are_read_from_the_current_document() {
    let mut app = App::new(None, InputContents::Absent).ok().unwrap();
    app.pairs.insert("a".to_string(), number("1.5"));
    app.pairs.insert("b".to_string(), JsonValue::Boolean(true));
    assert_eq!(app.open_item_edit(1), Ok(()));
    assert_eq!(app.key_input, "b");
    assert_eq!(app.value_input, "true");
    assert_eq!(app.selected_value_type, JsonValueType::Boolean);
    assert_eq!(app.edit_popup_focus, Some(EditFocus::Value));
    assert_eq!(*app.get_current_screen(), AppScreen::Editing);
    let mut other = App::new(None, InputContents::Absent).ok().unwrap();
    other.pairs.insert("a".to_string(), JsonValue::Null);
    other.selected_row = Some(0);
    assert_eq!(other.request_delete(), Ok(()));
    assert_eq!(other.target_delete_key.as_deref(), Some("a"));
    other.selected_row = Some(3);
    assert_eq!(other.request_delete(), Err(3));
}

#[test]
fn unicode_white_space() {
    assert!(is_white_space(' '));
    assert!(is_white_space('\t'));
    assert!(is_white_space('\u{3000}'));
    assert!(is_white_space('\u{2028}'));
    assert!(!is_white_space('\u{200B}'));
    assert!(!is_white_space('x'));
    for c in ['\u{0}', 'a', '\u{85}', '\u{A0}', '\u{1680}', '\u{2005}', '\u{180E}', '\u{FEFF}'] {
        assert_eq!(is_white_space(c), c.is_whitespace());
    }
}

#[test]
fn buffers_from_a_given_reading() {
    assert!(buffer_value_from(JsonValueType::Number, "abc", None).is_none());
    let v = buffer_value_from(JsonValueType::Number, "7", Some(7f64.to_bits())).unwrap();
    assert_eq!(as_bits(&v), Some(7f64.to_bits()));
    assert!(buffer_value_from(JsonValueType::Boolean, "yes", None).is_none());
    assert_eq!(as_bool(&buffer_value_from(JsonValueType::Boolean, "false", None).unwrap()), Some(false));
    assert!(matches!(buffer_value_from(JsonValueType::Null, "", None), Some(JsonValue::Null)));
    assert!(matches!(buffer_value_from(JsonValueType::String, "s", None), Some(JsonValue::String(t)) if t == "s"));
}

#[test]
fn reopening_and_submitting_a_row_changes_nothing() {
    let mut app = session(sample());
    press(&mut app, KeyCode::Down).unwrap();
    press(&mut app, KeyCode::Down).unwrap();
    press(&mut app, KeyCode::Right).unwrap();
    press(&mut app, KeyCode::Down).unwrap();
    press(&mut app, KeyCode::Enter).unwrap();
    assert_eq!(app.value_input, "true");
    press(&mut app, KeyCode::Enter).unwrap();
    assert_eq!(*app.get_current_screen(), AppScreen::Main);
    assert_eq!(keys(&app.pairs), vec!["a", "b"]);
    assert_eq!(row_keys(&app.view), vec!["c"]);
    assert_eq!(as_bool(app.view.row_value(0)), Some(true));
}

#[test]
fn number_reading_is_correctly_rounded() {
    let text = "2.2250738585072011e-308";
    assert_eq!(JsonNumber::parse(text).unwrap().bits, text.parse::<f64>().unwrap().to_bits());
    let long = "0.1000000000000000055511151231257827021181583404541015625";
    assert_eq!(JsonNumber::parse(long).unwrap().bits, 0.1f64.to_bits());
    assert!(JsonNumber::parse("1.").is_none());
    assert!(JsonNumber::parse("+1").is_none());
}

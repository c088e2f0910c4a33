use ratquest::{
    Action, ActivePanel, ApiRequest, App, AppError, AuthType, CurrentScreen, DetailField,
    Groups, HeaderInputMode, KeyCode, KeyEvent, NetworkError, NodeId, Operation,
    ParameterInputMode, RequestResponse, RequestType, StoreCommand, TextBuffer, TreeMove,
    ValidationError,
};
use std::time::Duration;

fn key(code: KeyCode) -> KeyEvent {
    KeyEvent { code, control: false }
}

fn type_text(app: &mut App, text: &str) {
    for c in text.chars() {
        assert_eq!(app.handle_key(key(KeyCode::Char(c))), Action::Nothing);
    }
}

fn app_with_request() -> App {
    let mut app = App::new();
    app.key_input = "g1".to_string();
    app.save_group();
    app.selected_group = Some("g1".to_string());
    app.request_name_input = "r1".to_string();
    app.selected_request_type = RequestType::GET;
    app.save_request();
    app.selected_group = None;
    app
}

fn open_details(app: &mut App) {
    assert_eq!(app.handle_key(key(KeyCode::Enter)), Action::Nothing);
    assert!(app.active_panel == ActivePanel::Details);
}

#[test]
fn scenario_basic_auth_and_group_deletion() {
    let mut app = app_with_request();
    assert_eq!(app.list.list_groups(), vec!["g1".to_string()]);
    assert!(matches!(
        app.tree_state.selected(),
        Some(NodeId::Request(group, name)) if group == "g1" && name == "r1"
    ));
    open_details(&mut app);
    assert_eq!(app.selected_group_index, Some(0));
    assert_eq!(app.selected_request_index, Some(0));
    app.buffer_edited(DetailField::Url, "http://x", (0, 8));
    app.next_auth_type();
    app.buffer_edited(DetailField::AuthUsername, "u", (0, 1));
    app.buffer_edited(DetailField::AuthPassword, "p", (0, 1));
    let request = app.get_selected_request().unwrap();
    assert_eq!(request.details.url, "http://x");
    assert_eq!(request.details.headers.get("Authorization").unwrap(), "Basic dTpw");

    app.tree_state.select(NodeId::Group("g1".to_string()));
    app.start_delete_confirmation();
    assert!(app.current_screen == CurrentScreen::DeleteConfirm);
    app.confirm_delete_selected();
    assert!(app.get_selected_request().is_none());
    assert_eq!(app.selected_group_index, None);
    assert_eq!(app.selected_request_index, None);
    assert!(app.list.list_groups().is_empty());
    assert!(app.groups_vec.is_empty());
    assert!(app.pending_delete_id.is_none());
    assert!(matches!(app.tree_state.selected(), Some(NodeId::Root)));
}

#[test]
fn new_app_starts_on_the_tree() {
    let app = App::new();
    assert!(app.current_screen == CurrentScreen::Main);
    assert!(app.active_panel == ActivePanel::Tree);
    assert!(app.current_detail_field == DetailField::NoField);
    assert!(app.list.is_empty());
    assert!(matches!(app.tree_state.selected(), Some(NodeId::Root)));
    assert!(app.get_selected_request().is_none());
    assert!(app.get_current_request().is_none());
    assert_eq!(app.get_current_request_auth_type(), "None");
    assert!(!app.is_sending);
    assert!(app.last_response.is_none());
}

#[test]
fn group_is_created_once_the_store_took_it() {
    let mut app = App::new();
    assert_eq!(app.handle_key(key(KeyCode::Char('e'))), Action::Nothing);
    assert!(app.current_screen == CurrentScreen::Editing);
    assert_eq!(app.groups, Some(Groups::Name));
    assert_eq!(app.handle_key(key(KeyCode::Enter)), Action::Nothing);
    assert!(app.current_screen == CurrentScreen::Editing);
    type_text(&mut app, "g1x");
    assert_eq!(app.handle_key(key(KeyCode::Backspace)), Action::Nothing);
    assert_eq!(app.key_input, "g1");
    assert_eq!(
        app.handle_key(key(KeyCode::Enter)),
        Action::Commit(Operation::SaveGroup)
    );
    assert!(app.list.is_empty());
    app.complete(Operation::SaveGroup, true);
    assert!(app.current_screen == CurrentScreen::Main);
    assert!(app.list.contains_key("g1"));
    assert_eq!(app.groups_vec, vec!["g1".to_string()]);
    assert_eq!(app.key_input, "");
    assert_eq!(app.groups, None);
    assert_eq!(app.last_error, None);
}

#[test]
fn duplicate_group_is_reported_and_changes_nothing() {
    let mut app = app_with_request();
    assert_eq!(app.handle_key(key(KeyCode::Char('e'))), Action::Nothing);
    type_text(&mut app, "g1");
    assert_eq!(app.handle_key(key(KeyCode::Enter)), Action::Nothing);
    assert_eq!(
        app.last_error,
        Some(AppError::Validation(ValidationError::DuplicateGroup))
    );
    assert!(app.current_screen == CurrentScreen::Editing);
    assert_eq!(app.key_input, "g1");
    assert_eq!(app.list.get("g1").unwrap().len(), 1);
    assert_eq!(app.handle_key(key(KeyCode::Esc)), Action::Nothing);
    assert_eq!(app.last_error, None);
    assert!(app.current_screen == CurrentScreen::Main);
    assert_eq!(app.key_input, "");

    app.key_input = "g1".to_string();
    app.save_group();
    assert_eq!(
        app.last_error,
        Some(AppError::Validation(ValidationError::DuplicateGroup))
    );
    assert_eq!(app.list.list_groups(), vec!["g1".to_string()]);
    assert_eq!(app.list.get("g1").unwrap().len(), 1);
}

#[test]
fn a_store_failure_prevents_the_change() {
    let mut app = App::new();
    app.key_input = "g1".to_string();
    app.current_screen = CurrentScreen::Editing;
    app.complete(Operation::SaveGroup, false);
    assert!(app.list.is_empty());
    assert_eq!(app.last_error, Some(AppError::Storage));
    assert!(app.current_screen == CurrentScreen::Main);
    assert_eq!(app.key_input, "");

    let mut app = app_with_request();
    app.selected_group = Some("g1".to_string());
    app.request_name_input = "r2".to_string();
    app.complete(Operation::SaveRequest, false);
    assert_eq!(app.list.get("g1").unwrap().len(), 1);
    assert_eq!(app.last_error, Some(AppError::Storage));
    assert_eq!(app.selected_group, None);

    app.tree_state.select(NodeId::Request("g1".to_string(), "r1".to_string()));
    app.start_delete_confirmation();
    app.complete(Operation::DeleteSelected, false);
    assert_eq!(app.list.get("g1").unwrap().len(), 1);
    assert!(app.pending_delete_id.is_none());
    assert_eq!(app.last_error, Some(AppError::Storage));
}

#[test]
fn request_is_added_to_the_selected_group() {
    let mut app = App::new();
    assert_eq!(app.handle_key(key(KeyCode::Char('a'))), Action::Nothing);
    assert!(app.current_screen == CurrentScreen::Main);
    app.key_input = "g1".to_string();
    app.save_group();
    app.tree_state.select(NodeId::Group("g1".to_string()));
    assert_eq!(app.handle_key(key(KeyCode::Char('a'))), Action::Nothing);
    assert!(app.current_screen == CurrentScreen::AddingRequest);
    assert_eq!(app.selected_group.as_deref(), Some("g1"));
    assert_eq!(app.handle_key(key(KeyCode::Enter)), Action::Nothing);
    assert_eq!(
        app.last_error,
        Some(AppError::Validation(ValidationError::EmptyName))
    );
    assert!(app.current_screen == CurrentScreen::AddingRequest);
    assert_eq!(app.handle_key(key(KeyCode::Right)), Action::Nothing);
    assert_eq!(app.selected_request_type, RequestType::POST);
    assert_eq!(app.handle_key(key(KeyCode::Left)), Action::Nothing);
    assert_eq!(app.handle_key(key(KeyCode::Left)), Action::Nothing);
    assert_eq!(app.selected_request_type, RequestType::PATCH);
    type_text(&mut app, "r1");
    assert_eq!(
        app.handle_key(key(KeyCode::Enter)),
        Action::Commit(Operation::SaveRequest)
    );
    app.complete(Operation::SaveRequest, true);
    assert!(app.current_screen == CurrentScreen::Main);
    assert_eq!(app.selected_group, None);
    assert_eq!(app.request_name_input, "");
    assert_eq!(app.selected_request_type, RequestType::GET);
    let requests = app.list.get("g1").unwrap();
    assert_eq!(requests.len(), 1);
    assert_eq!(requests[0].request_type, RequestType::PATCH);
    assert!(matches!(
        app.tree_state.selected(),
        Some(NodeId::Request(group, name)) if group == "g1" && name == "r1"
    ));

    assert_eq!(app.handle_key(key(KeyCode::Char('a'))), Action::Nothing);
    assert_eq!(app.selected_group.as_deref(), Some("g1"));
    type_text(&mut app, "r1");
    assert_eq!(app.handle_key(key(KeyCode::Enter)), Action::Nothing);
    assert_eq!(
        app.last_error,
        Some(AppError::Validation(ValidationError::DuplicateRequest))
    );
    assert_eq!(app.handle_key(key(KeyCode::Esc)), Action::Nothing);
    assert!(app.current_screen == CurrentScreen::Main);
    assert_eq!(app.request_name_input, "");
}

#[test]
fn save_request_needs_a_known_group() {
    let mut app = App::new();
    app.request_name_input = "r".to_string();
    app.save_request();
    assert_eq!(app.last_error, None);
    app.selected_group = Some("missing".to_string());
    app.save_request();
    assert_eq!(
        app.last_error,
        Some(AppError::Validation(ValidationError::UnknownGroup))
    );
    assert_eq!(app.request_name_input, "r");
    assert!(app.list.is_empty());
}

#[test]
fn focus_cycles_through_five_fields_without_auth() {
    let mut app = app_with_request();
    open_details(&mut app);
    assert!(app.current_detail_field == DetailField::Url);
    let forward = [
        DetailField::Body,
        DetailField::Params,
        DetailField::Headers,
        DetailField::AuthType,
        DetailField::Url,
    ];
    for expected in forward {
        assert_eq!(app.handle_key(key(KeyCode::Tab)), Action::Nothing);
        assert_eq!(app.current_detail_field, expected);
    }
    let backward = [
        DetailField::AuthType,
        DetailField::Headers,
        DetailField::Params,
        DetailField::Body,
        DetailField::Url,
    ];
    for expected in backward {
        assert_eq!(app.handle_key(key(KeyCode::BackTab)), Action::Nothing);
        assert_eq!(app.current_detail_field, expected);
    }
    assert_eq!(app.handle_key(key(KeyCode::Down)), Action::Nothing);
    assert_eq!(app.current_detail_field, DetailField::Body);
    assert_eq!(app.handle_key(key(KeyCode::Up)), Action::Nothing);
    assert_eq!(app.current_detail_field, DetailField::Url);
}

#[test]
fn focus_cycles_through_seven_fields_with_basic_auth() {
    let mut app = app_with_request();
    open_details(&mut app);
    app.next_auth_type();
    assert_eq!(app.get_current_request_auth_type(), "Basic");
    let forward = [
        DetailField::Body,
        DetailField::Params,
        DetailField::Headers,
        DetailField::AuthType,
        DetailField::AuthUsername,
        DetailField::AuthPassword,
        DetailField::Url,
    ];
    for expected in forward {
        assert_eq!(app.handle_key(key(KeyCode::Tab)), Action::Nothing);
        assert_eq!(app.current_detail_field, expected);
    }
    assert_eq!(app.handle_key(key(KeyCode::Up)), Action::Nothing);
    assert_eq!(app.current_detail_field, DetailField::AuthPassword);
    assert_eq!(app.handle_key(key(KeyCode::Up)), Action::Nothing);
    assert_eq!(app.current_detail_field, DetailField::AuthUsername);
    assert_eq!(DetailField::NoField.next(AuthType::Basic), DetailField::Url);
    assert_eq!(
        DetailField::NoField.previous(AuthType::Basic),
        DetailField::AuthPassword
    );
    assert_eq!(
        DetailField::NoField.previous(AuthType::NoAuth),
        DetailField::AuthType
    );
    assert_eq!(
        DetailField::AuthUsername.next(AuthType::NoAuth),
        DetailField::Url
    );
}

#[test]
fn left_at_the_start_of_a_buffer_returns_to_the_tree() {
    let mut app = app_with_request();
    open_details(&mut app);
    assert!(app.is_cursor_at_start());
    app.buffer_edited(DetailField::Url, "ab", (0, 2));
    assert!(!app.is_cursor_at_start());
    assert_eq!(
        app.handle_key(key(KeyCode::Left)),
        Action::Edit(DetailField::Url)
    );
    assert!(app.active_panel == ActivePanel::Details);
    app.buffer_edited(DetailField::Url, "ab", (0, 0));
    assert_eq!(app.handle_key(key(KeyCode::Left)), Action::Nothing);
    assert!(app.active_panel == ActivePanel::Tree);
    assert!(app.current_detail_field == DetailField::NoField);
    assert_eq!(app.get_selected_request().unwrap().details.url, "ab");
}

#[test]
fn keys_in_a_text_field_go_to_its_buffer() {
    let mut app = app_with_request();
    open_details(&mut app);
    assert_eq!(
        app.handle_key(key(KeyCode::Char('h'))),
        Action::Edit(DetailField::Url)
    );
    assert_eq!(
        app.handle_key(key(KeyCode::Right)),
        Action::Edit(DetailField::Url)
    );
    assert_eq!(
        app.handle_key(key(KeyCode::Backspace)),
        Action::Edit(DetailField::Url)
    );
    assert_eq!(
        app.handle_key(KeyEvent { code: KeyCode::Char('s'), control: true }),
        Action::Send
    );
    assert_eq!(
        app.handle_key(key(KeyCode::Char('s'))),
        Action::Edit(DetailField::Url)
    );
    assert_eq!(app.handle_key(key(KeyCode::Esc)), Action::Nothing);
    assert!(app.active_panel == ActivePanel::Tree);
}

#[test]
fn left_and_right_cycle_the_auth_type_on_its_field() {
    let mut app = app_with_request();
    open_details(&mut app);
    app.current_detail_field = DetailField::AuthType;
    assert_eq!(app.handle_key(key(KeyCode::Right)), Action::Nothing);
    assert_eq!(app.get_current_request_auth_type(), "Basic");
    app.buffer_edited(DetailField::AuthUsername, "u", (0, 1));
    app.buffer_edited(DetailField::AuthPassword, "p", (0, 1));
    assert!(app
        .get_selected_request()
        .unwrap()
        .details
        .headers
        .contains_key("Authorization"));
    assert_eq!(app.handle_key(key(KeyCode::Left)), Action::Nothing);
    assert_eq!(app.get_current_request_auth_type(), "None");
    assert!(!app
        .get_selected_request()
        .unwrap()
        .details
        .headers
        .contains_key("Authorization"));
    assert_eq!(app.auth_username_textarea.text(), "");
    assert_eq!(app.handle_key(key(KeyCode::Right)), Action::Nothing);
    let request = app.get_selected_request().unwrap();
    assert_eq!(request.details.get_basic_auth().unwrap().username, "");
    assert!(!request.details.headers.contains_key("Authorization"));
    assert_eq!(app.handle_key(key(KeyCode::Left)), Action::Nothing);
    assert_eq!(app.get_current_request_auth_type(), "None");
    assert_eq!(app.handle_key(key(KeyCode::Left)), Action::Nothing);
    assert!(app.active_panel == ActivePanel::Tree);
}

#[test]
fn headers_and_params_are_typed_in_key_then_value() {
    let mut app = app_with_request();
    open_details(&mut app);
    app.current_detail_field = DetailField::Headers;
    assert_eq!(app.handle_key(key(KeyCode::Char('x'))), Action::Nothing);
    assert!(!app.adding_header);
    assert_eq!(app.handle_key(key(KeyCode::Enter)), Action::Nothing);
    assert!(app.adding_header);
    assert!(app.header_input_mode == HeaderInputMode::Key);
    assert_eq!(app.handle_key(key(KeyCode::Enter)), Action::Nothing);
    assert!(app.header_input_mode == HeaderInputMode::Key);
    type_text(&mut app, "X-A");
    assert_eq!(app.handle_key(key(KeyCode::Left)), Action::Nothing);
    assert_eq!(app.handle_key(key(KeyCode::Tab)), Action::Nothing);
    assert!(app.header_input_mode == HeaderInputMode::Value);
    type_text(&mut app, "12");
    assert_eq!(app.handle_key(key(KeyCode::Backspace)), Action::Nothing);
    assert_eq!(app.handle_key(key(KeyCode::Enter)), Action::Nothing);
    assert!(!app.adding_header);
    assert_eq!(app.header_key_input, "");
    assert_eq!(
        app.get_selected_request().unwrap().details.headers.get("X-A").unwrap(),
        "1"
    );

    app.header_key_input = "authorization".to_string();
    app.header_value_input = "secret".to_string();
    app.save_header();
    assert_eq!(app.get_selected_request().unwrap().details.headers.len(), 1);
    app.start_adding_header();
    assert!(app.adding_header);
    assert_eq!(app.handle_key(key(KeyCode::Esc)), Action::Nothing);
    assert!(!app.adding_header);
    assert!(app.active_panel == ActivePanel::Details);

    app.current_detail_field = DetailField::Params;
    assert_eq!(app.handle_key(key(KeyCode::Enter)), Action::Nothing);
    assert!(app.adding_params);
    type_text(&mut app, "q");
    assert_eq!(app.handle_key(key(KeyCode::Enter)), Action::Nothing);
    assert!(app.params_input_mode == ParameterInputMode::Value);
    type_text(&mut app, "v");
    assert_eq!(app.handle_key(key(KeyCode::Enter)), Action::Nothing);
    assert!(!app.adding_params);
    assert_eq!(
        app.get_selected_request().unwrap().details.params.get("q").unwrap(),
        "v"
    );
    app.params_key_input = "k".to_string();
    app.save_params();
    assert_eq!(app.get_selected_request().unwrap().details.params.len(), 1);
    app.toggle_params_input_mode();
    assert!(app.params_input_mode == ParameterInputMode::Key);
    app.toggle_header_input_mode();
    assert!(app.header_input_mode == HeaderInputMode::Value);
    assert_eq!(app.handle_key(key(KeyCode::Tab)), Action::Nothing);
    assert!(app.current_detail_field == DetailField::Headers);
}

#[test]
fn tree_keys_are_left_to_the_widget() {
    let mut app = app_with_request();
    assert_eq!(app.handle_key(key(KeyCode::Down)), Action::Tree(TreeMove::Down));
    assert_eq!(app.handle_key(key(KeyCode::Up)), Action::Tree(TreeMove::Up));
    assert_eq!(app.handle_key(key(KeyCode::Left)), Action::Tree(TreeMove::Toggle));
    assert_eq!(
        app.handle_key(key(KeyCode::Right)),
        Action::Tree(TreeMove::Toggle)
    );
    assert!(app.active_panel == ActivePanel::Details);
    assert!(app.current_detail_field == DetailField::Url);
    assert_eq!(app.selected_request_index, Some(0));

    let mut app = app_with_request();
    app.tree_state.select(NodeId::Group("g1".to_string()));
    assert_eq!(
        app.handle_key(key(KeyCode::Right)),
        Action::Tree(TreeMove::Toggle)
    );
    assert!(app.active_panel == ActivePanel::Tree);
    app.tree_state.selected = None;
    assert_eq!(app.handle_key(key(KeyCode::Right)), Action::Nothing);
    assert_eq!(app.handle_key(key(KeyCode::Other)), Action::Nothing);
}

#[test]
fn selection_follows_the_tree() {
    let mut app = app_with_request();
    app.selected_group = Some("g1".to_string());
    app.request_name_input = "r2".to_string();
    app.save_request();
    app.get_selected_request_mut();
    app.tree_state.select(NodeId::Request("g1".to_string(), "r2".to_string()));
    app.update_selection_from_tree();
    assert_eq!(app.selected_group_index, Some(0));
    assert_eq!(app.selected_request_index, Some(1));
    assert_eq!(app.get_selected_request().unwrap().name, "r2");
    app.tree_state.select(NodeId::Request("g1".to_string(), "gone".to_string()));
    app.update_selection_from_tree();
    assert_eq!(app.selected_request_index, Some(1));
    app.tree_state.select(NodeId::Group("g1".to_string()));
    app.update_selection_from_tree();
    assert_eq!(app.selected_request_index, None);
    assert!(app.get_selected_request().is_none());
    app.tree_state.select(NodeId::Request("g1".to_string(), "r1".to_string()));
    assert_eq!(app.get_current_request().unwrap().name, "r1");
    assert_eq!(app.handle_tree_selection(), Some(("g1".to_string(), 0)));
    app.handle_tree_enter();
    assert!(app.current_screen == CurrentScreen::RequestDetail);
    assert_eq!(app.selected_request_index, Some(0));
    assert_eq!(app.handle_key(key(KeyCode::Esc)), Action::Nothing);
    assert!(app.current_screen == CurrentScreen::Main);
    assert_eq!(app.selected_request_index, None);
    app.tree_state.select(NodeId::Group("zz".to_string()));
    assert_eq!(app.handle_tree_selection(), None);
    assert_eq!(app.selected_group_index, None);
}

#[test]
fn stale_selection_selects_nothing() {
    let mut app = app_with_request();
    app.selected_group_index = Some(5);
    app.selected_request_index = Some(0);
    assert!(app.get_selected_request().is_none());
    assert!(app.get_selected_request_mut().is_none());
    app.selected_group_index = Some(0);
    app.selected_request_index = Some(9);
    assert!(app.get_selected_request().is_none());
    app.groups_vec = vec!["other".to_string()];
    app.selected_request_index = Some(0);
    assert!(app.get_selected_request().is_none());
    app.save_textarea_content();
    app.next_auth_type();
    app.sync_textarea_content();
    assert_eq!(app.list.get("g1").unwrap()[0].details.url, "");
}

#[test]
fn deletion_resolves_the_pending_node() {
    let mut app = app_with_request();
    assert_eq!(app.handle_key(key(KeyCode::Char('d'))), Action::Nothing);
    assert!(app.current_screen == CurrentScreen::Deleting);
    assert_eq!(app.handle_key(key(KeyCode::Down)), Action::Nothing);
    assert_eq!(app.selected_index, 0);
    assert_eq!(app.handle_key(key(KeyCode::Up)), Action::Nothing);
    assert_eq!(app.selected_index, 0);
    assert_eq!(app.handle_key(key(KeyCode::Enter)), Action::Nothing);
    assert!(app.current_screen == CurrentScreen::DeleteConfirm);
    assert_eq!(
        app.get_delete_confirmation_message(),
        "Are you sure you want to delete request 'r1'? (y/n)"
    );
    app.tree_state.select(NodeId::Root);
    assert_eq!(
        app.handle_key(key(KeyCode::Char('Y'))),
        Action::Commit(Operation::DeleteSelected)
    );
    app.complete(Operation::DeleteSelected, true);
    assert!(app.current_screen == CurrentScreen::Main);
    assert!(app.list.get("g1").unwrap().is_empty());
    assert!(matches!(
        app.tree_state.selected(),
        Some(NodeId::Group(group)) if group == "g1"
    ));
    assert_eq!(app.selected_request_index, None);

    app.start_delete_confirmation();
    assert_eq!(
        app.get_delete_confirmation_message(),
        "Are you sure you want to delete group 'g1' and all its requests? (y/n)"
    );
    assert_eq!(app.handle_key(key(KeyCode::Char('n'))), Action::Nothing);
    assert!(app.current_screen == CurrentScreen::Main);
    assert!(app.pending_delete_id.is_none());
    assert!(app.list.contains_key("g1"));
    assert_eq!(
        app.get_delete_confirmation_message(),
        "Are you sure you want to delete this item? (y/n)"
    );
    app.key_input = "g1".to_string();
    app.delete_group();
    assert!(app.list.is_empty());
    assert!(app.groups_vec.is_empty());
    assert_eq!(app.key_input, "");
}

#[test]
fn leaving_asks_first() {
    let mut app = App::new();
    assert_eq!(app.handle_key(key(KeyCode::Char('q'))), Action::Nothing);
    assert!(app.current_screen == CurrentScreen::Exiting);
    assert_eq!(app.handle_key(key(KeyCode::Char('x'))), Action::Nothing);
    assert_eq!(app.handle_key(key(KeyCode::Char('N'))), Action::Nothing);
    assert!(app.current_screen == CurrentScreen::Main);
    app.current_screen = CurrentScreen::AddingRequest;
    app.request_exit();
    assert!(app.current_screen == CurrentScreen::Exiting);
    assert_eq!(app.handle_key(key(KeyCode::Char('y'))), Action::Quit);
}

#[test]
fn only_one_request_is_on_its_way() {
    let mut app = app_with_request();
    assert!(app.begin_send().is_none());
    open_details(&mut app);
    app.buffer_edited(DetailField::Url, "http://x", (0, 8));
    app.buffer_edited(DetailField::Body, "ignored", (0, 7));
    let out = app.begin_send().unwrap();
    assert_eq!(out.method, RequestType::GET);
    assert_eq!(out.url, "http://x");
    assert!(out.body.is_none());
    assert!(app.is_sending);
    assert!(app.begin_send().is_none());
    app.finish_send(Ok(RequestResponse::new(
        201,
        "201 Created".to_string(),
        Vec::new(),
        "done".to_string(),
        Duration::from_millis(5),
    )));
    assert!(!app.is_sending);
    assert_eq!(app.last_response.as_ref().unwrap().status, 201);
    assert!(app.begin_send().is_some());
    app.finish_send(Err(NetworkError {
        message: "timed out".to_string(),
        time_taken: Duration::from_secs(30),
    }));
    assert!(!app.is_sending);
    let kept = app.last_response.as_ref().unwrap();
    assert_eq!(kept.status, 0);
    assert_eq!(kept.status_text, "timed out");
    assert_eq!(kept.time_taken, Duration::from_secs(30));
}

#[test]
fn buffers_are_filled_from_the_selected_request() {
    let mut app = app_with_request();
    open_details(&mut app);
    app.buffer_edited(DetailField::Url, "http://x", (0, 3));
    app.buffer_edited(DetailField::Headers, "nothing", (0, 3));
    app.url_textarea = TextBuffer::from_text("scratch");
    app.sync_textarea_content();
    assert_eq!(app.url_textarea.text(), "http://x");
    assert_eq!(app.url_textarea.cursor(), (0, 0));
    assert_eq!(app.auth_username_textarea.text(), "");
    assert_eq!(TextBuffer::from_lines(Vec::new()).text(), "");
    assert_eq!(TextBuffer::default().cursor(), (0, 0));
}

#[test]
fn flushing_the_app_twice_changes_nothing_more() {
    let mut app = app_with_request();
    open_details(&mut app);
    app.next_auth_type();
    app.url_textarea = TextBuffer::from_text("http://x");
    app.auth_username_textarea = TextBuffer::from_text("u");
    app.auth_password_textarea = TextBuffer::from_text("p");
    app.save_textarea_content();
    let once = app.get_selected_request().unwrap().clone();
    app.save_textarea_content();
    let twice = app.get_selected_request().unwrap();
    assert_eq!(twice.details.url, once.details.url);
    assert_eq!(twice.details.headers.to_vec(), once.details.headers.to_vec());
    assert_eq!(
        twice.details.headers.to_vec(),
        vec![("Authorization".to_string(), "Basic dTpw".to_string())]
    );
}

#[test]
fn groups_are_loaded_and_sorted() {
    let mut app = App::new();
    app.load_groups(vec![
        (
            "b".to_string(),
            vec![ApiRequest::new("r".to_string(), RequestType::GET)],
        ),
        ("a".to_string(), Vec::new()),
        ("b".to_string(), Vec::new()),
    ]);
    assert_eq!(app.groups_vec, vec!["a".to_string(), "b".to_string()]);
    assert!(app.list.get("b").unwrap().is_empty());
    app.next_visible_group();
    assert_eq!(app.selected_group_index, Some(0));
    app.next_visible_group();
    assert_eq!(app.selected_group_index, Some(1));
    app.next_visible_group();
    assert_eq!(app.selected_group_index, Some(0));
    app.selected_group_index = Some(usize::MAX);
    app.next_visible_group();
    assert_eq!(app.selected_group_index, Some(0));
    app.next_group();
    assert_eq!(app.selected_index, 1);
    app.next_group();
    assert_eq!(app.selected_index, 0);
    app.previous_group();
    assert_eq!(app.selected_index, 1);
    app.next_request_type();
    assert_eq!(app.selected_request_type, RequestType::POST);
    app.previous_request_type();
    assert_eq!(app.selected_request_type, RequestType::GET);
    app.groups_vec.clear();
    app.next_visible_group();
    assert_eq!(app.selected_group_index, None);
    app.switch_to_details();
    assert!(app.current_detail_field == DetailField::Url);
    app.current_detail_field = DetailField::Body;
    app.switch_to_details();
    assert!(app.current_detail_field == DetailField::Body);
    app.switch_to_tree();
    assert!(app.current_detail_field == DetailField::NoField);
}

#[test]
fn store_commands_name_what_is_to_be_stored() {
    let mut app = app_with_request();
    app.key_input = "g2".to_string();
    assert!(matches!(
        app.store_command(Operation::SaveGroup),
        Some(StoreCommand::CreateGroup { name }) if name == "g2"
    ));
    assert!(app.store_command(Operation::SaveRequest).is_none());
    app.selected_group = Some("g1".to_string());
    app.request_name_input = "r2".to_string();
    app.selected_request_type = RequestType::PUT;
    match app.store_command(Operation::SaveRequest) {
        Some(StoreCommand::CreateRequest { group, request }) => {
            assert_eq!(group, "g1");
            assert_eq!(request.name, "r2");
            assert_eq!(request.request_type, RequestType::PUT);
            assert!(request.details.url.is_empty());
        }
        other => panic!("unexpected command {:?}", other),
    }
    assert!(app.store_command(Operation::DeleteSelected).is_none());
    app.pending_delete_id = Some(NodeId::Request("g1".to_string(), "r1".to_string()));
    assert!(matches!(
        app.store_command(Operation::DeleteSelected),
        Some(StoreCommand::DeleteRequest { group, name }) if group == "g1" && name == "r1"
    ));
    app.pending_delete_id = Some(NodeId::Group("g1".to_string()));
    assert!(matches!(
        app.store_command(Operation::DeleteSelected),
        Some(StoreCommand::DeleteGroup { name }) if name == "g1"
    ));
    app.pending_delete_id = Some(NodeId::Root);
    assert!(app.store_command(Operation::DeleteSelected).is_none());

    assert!(app.update_command().is_none());
    app.selected_group_index = Some(0);
    app.selected_request_index = Some(0);
    app.buffer_edited(DetailField::Url, "http://x", (0, 8));
    match app.update_command() {
        Some(StoreCommand::UpdateRequest { group, request }) => {
            assert_eq!(group, "g1");
            assert_eq!(request.name, "r1");
            assert_eq!(request.details.url, "http://x");
        }
        other => panic!("unexpected command {:?}", other),
    }
}

//! The keys of the interface and what each of them does on each screen.

use vstd::prelude::*;
use vstd::string::*;
use crate::groups::{check_new_group, check_new_request, request_position};
use crate::models::{ApiRequest, AuthType, RequestType, RequestView};
use crate::state::{
    position_of,
    App,
    AppError,
    AppView,
    BufferView,
    CurrentScreen,
    Groups,
    TextBuffer,
};
use crate::tree::{Address, NodeId};
use crate::ui_state::{ActivePanel, DetailField, HeaderInputMode, ParameterInputMode};

verus! {

/// A key, as far as the interface tells keys apart.
#[derive(Clone, Copy, Debug, PartialEq, Eq, Structural)]
pub enum KeyCode {
    Char(char),
    Enter,
    Esc,
    Tab,
    BackTab,
    Up,
    Down,
    Left,
    Right,
    Backspace,
    Other,
}

/// A key that was pressed, and whether the control key was held.
#[derive(Clone, Copy, Debug, PartialEq, Eq, Structural)]
pub struct KeyEvent {
    pub code: KeyCode,
    pub control: bool,
}

/// A move of the tree's cursor.
#[derive(Clone, Copy, Debug, PartialEq, Eq, Structural)]
pub enum TreeMove {
    Down,
    Up,
    Toggle,
}

/// A change that is made once the store has taken it.
#[derive(Clone, Copy, Debug, PartialEq, Eq, Structural)]
pub enum Operation {
    SaveGroup,
    SaveRequest,
    DeleteSelected,
}

/// What the store is asked to take.
#[derive(Debug)]
pub enum StoreCommand {
    CreateGroup { name: String },
    CreateRequest { group: String, request: ApiRequest },
    UpdateRequest { group: String, request: ApiRequest },
    DeleteRequest { group: String, name: String },
    DeleteGroup { name: String },
}

/// What a `StoreCommand` stands for.
pub enum StoreCommandView {
    CreateGroup { name: Seq<char> },
    CreateRequest { group: Seq<char>, request: RequestView },
    UpdateRequest { group: Seq<char>, request: RequestView },
    DeleteRequest { group: Seq<char>, name: Seq<char> },
    DeleteGroup { name: Seq<char> },
}

impl View for StoreCommand {
    type V = StoreCommandView;

    open spec fn view(&self) -> StoreCommandView {
        match self {
            StoreCommand::CreateGroup { name } => StoreCommandView::CreateGroup { name: name@ },
            StoreCommand::CreateRequest { group, request } => StoreCommandView::CreateRequest {
                group: group@,
                request: request@,
            },
            StoreCommand::UpdateRequest { group, request } => StoreCommandView::UpdateRequest {
                group: group@,
                request: request@,
            },
            StoreCommand::DeleteRequest { group, name } => StoreCommandView::DeleteRequest {
                group: group@,
                name: name@,
            },
            StoreCommand::DeleteGroup { name } => StoreCommandView::DeleteGroup { name: name@ },
        }
    }
}

/// What an optional command stands for.
pub open spec fn command_view(command: Option<StoreCommand>) -> Option<StoreCommandView> {
    match command {
        Some(c) => Some(c@),
        None => None,
    }
}

/// What is left to do outside the state once a key has been handled.
#[derive(Clone, Copy, Debug, PartialEq, Eq, Structural)]
pub enum Action {
    /// Nothing.
    Nothing,
    /// Leave the program.
    Quit,
    /// Hand the key to the text buffer of this field, then report the
    /// buffer through `buffer_edited`.
    Edit(DetailField),
    /// Send what `begin_send` gives, then report through `finish_send`.
    Send,
    /// Move the tree's cursor, then put the node it stands on into the
    /// tree state and call `update_selection_from_tree`.
    Tree(TreeMove),
    /// Store what `store_command` gives, then report through `complete`.
    Commit(Operation),
}

/// `text` without its last character.
pub open spec fn without_last(text: Seq<char>) -> Seq<char> {
    if text.len() > 0 {
        text.drop_last()
    } else {
        text
    }
}

fn pop_char(text: &mut String)
    ensures
        final(text)@ == without_last(old(text)@),
{
    let _ = text.pop();
}

impl AppView {
    /// What becomes of a key that the focused field does not use itself:
    /// it goes to the field's text buffer, where the field has one.
    pub open spec fn forward(self) -> Action {
        if self.current_detail_field.is_text() {
            Action::Edit(self.current_detail_field)
        } else {
            Action::Nothing
        }
    }

    /// The left key in a text field: at the start of the text it leads
    /// back to the tree, elsewhere it moves within the text.
    pub open spec fn handle_left_in_textarea(self) -> (AppView, Action) {
        if self.is_cursor_at_start() {
            (self.switch_to_tree(), Action::Nothing)
        } else {
            (self, self.forward())
        }
    }

    /// The focus moved to `field`.
    pub open spec fn focus(self, field: DetailField) -> AppView {
        AppView { current_detail_field: field, ..self }
    }

    /// The keys of the detail pane that are not input to a header or a
    /// parameter.
    pub open spec fn handle_common_navigation(self, key: KeyEvent) -> (AppView, Action) {
        let field = self.current_detail_field;
        let auth = self.selected_auth_type();
        match key.code {
            KeyCode::Char(c) => {
                if c == 's' && key.control {
                    (self, Action::Send)
                } else {
                    (self, self.forward())
                }
            },
            KeyCode::Left => {
                if field == DetailField::AuthType && auth != AuthType::NoAuth {
                    (self.toggle_auth_type().sync_textarea_content(), Action::Nothing)
                } else {
                    self.handle_left_in_textarea()
                }
            },
            KeyCode::Right => {
                if field == DetailField::AuthType {
                    (self.toggle_auth_type().sync_textarea_content(), Action::Nothing)
                } else {
                    (self, self.forward())
                }
            },
            KeyCode::Up | KeyCode::BackTab => (self.focus(field.previous_in(auth)), Action::Nothing),
            KeyCode::Down | KeyCode::Tab => (self.focus(field.next_in(auth)), Action::Nothing),
            KeyCode::Esc => (self.switch_to_tree(), Action::Nothing),
            _ => (self, self.forward()),
        }
    }

    /// The keys while a parameter is being typed in.
    pub open spec fn on_param_input(self, key: KeyEvent) -> AppView {
        match key.code {
            KeyCode::Esc => AppView {
                adding_params: false,
                params_key_input: Seq::empty(),
                params_value_input: Seq::empty(),
                ..self
            },
            KeyCode::Enter => match self.params_input_mode {
                ParameterInputMode::Key => if self.params_key_input.len() > 0 {
                    AppView { params_input_mode: ParameterInputMode::Value, ..self }
                } else {
                    self
                },
                ParameterInputMode::Value => if self.params_value_input.len() > 0 {
                    self.save_params()
                } else {
                    self
                },
            },
            KeyCode::Tab => if self.params_key_input.len() > 0 {
                AppView { params_input_mode: self.params_input_mode.other(), ..self }
            } else {
                self
            },
            KeyCode::Char(c) => match self.params_input_mode {
                ParameterInputMode::Key => AppView {
                    params_key_input: self.params_key_input.push(c),
                    ..self
                },
                ParameterInputMode::Value => AppView {
                    params_value_input: self.params_value_input.push(c),
                    ..self
                },
            },
            KeyCode::Backspace => match self.params_input_mode {
                ParameterInputMode::Key => AppView {
                    params_key_input: without_last(self.params_key_input),
                    ..self
                },
                ParameterInputMode::Value => AppView {
                    params_value_input: without_last(self.params_value_input),
                    ..self
                },
            },
            _ => self,
        }
    }

    /// The keys while a header is being typed in.
    pub open spec fn on_header_input(self, key: KeyEvent) -> AppView {
        match key.code {
            KeyCode::Esc => AppView {
                adding_header: false,
                header_key_input: Seq::empty(),
                header_value_input: Seq::empty(),
                ..self
            },
            KeyCode::Enter => match self.header_input_mode {
                HeaderInputMode::Key => if self.header_key_input.len() > 0 {
                    AppView { header_input_mode: HeaderInputMode::Value, ..self }
                } else {
                    self
                },
                HeaderInputMode::Value => if self.header_value_input.len() > 0 {
                    self.save_header()
                } else {
                    self
                },
            },
            KeyCode::Tab => if self.header_key_input.len() > 0 {
                AppView { header_input_mode: self.header_input_mode.other(), ..self }
            } else {
                self
            },
            KeyCode::Char(c) => match self.header_input_mode {
                HeaderInputMode::Key => AppView {
                    header_key_input: self.header_key_input.push(c),
                    ..self
                },
                HeaderInputMode::Value => AppView {
                    header_value_input: self.header_value_input.push(c),
                    ..self
                },
            },
            KeyCode::Backspace => match self.header_input_mode {
                HeaderInputMode::Key => AppView {
                    header_key_input: without_last(self.header_key_input),
                    ..self
                },
                HeaderInputMode::Value => AppView {
                    header_value_input: without_last(self.header_value_input),
                    ..self
                },
            },
            _ => self,
        }
    }

    /// Whether `key` is one of the keys that move about the detail pane.
    pub open spec fn is_navigation(key: KeyEvent) -> bool {
        match key.code {
            KeyCode::Left | KeyCode::Right | KeyCode::Up | KeyCode::Down | KeyCode::Tab | KeyCode::BackTab | KeyCode::Esc => true,
            _ => false,
        }
    }

    /// The keys of the detail pane, before the buffers are written back.
    pub open spec fn on_details(self, key: KeyEvent) -> (AppView, Action) {
        match self.current_detail_field {
            DetailField::Params => {
                if self.adding_params {
                    (self.on_param_input(key), Action::Nothing)
                } else if key.code == KeyCode::Enter {
                    (self.start_adding_params(), Action::Nothing)
                } else if Self::is_navigation(key) {
                    self.handle_common_navigation(key)
                } else {
                    (self, Action::Nothing)
                }
            },
            DetailField::Headers => {
                if self.adding_header {
                    (self.on_header_input(key), Action::Nothing)
                } else if key.code == KeyCode::Enter {
                    (self.start_adding_header(), Action::Nothing)
                } else if Self::is_navigation(key) {
                    self.handle_common_navigation(key)
                } else {
                    (self, Action::Nothing)
                }
            },
            _ => self.handle_common_navigation(key),
        }
    }

    /// The request that the tree's selection leads to becomes the selected
    /// one, where both its group and the request are found.
    pub open spec fn select_from_tree(self) -> Option<AppView> {
        match self.tree_selected {
            Some(Address::Request(group, name)) => {
                match (self.group_index(group), self.resolve(self.tree_selected)) {
                    (Some(g), Some((_, index))) => Some(
                        AppView {
                            selected_group_index: Some(g),
                            selected_request_index: Some(index as usize),
                            ..self
                        },
                    ),
                    _ => None,
                }
            },
            _ => None,
        }
    }

    /// The group in which the key for a new request creates one: the
    /// selected group, or the group of the selected request.
    pub open spec fn group_for_new_request(self) -> Option<Seq<char>> {
        match self.tree_selected {
            Some(Address::Group(group)) => Some(group),
            Some(Address::Request(group, _)) => Some(group),
            _ => None,
        }
    }

    /// The right key on the tree: the request under the cursor, where it
    /// is found, is selected and opens in the detail pane.
    pub open spec fn open_from_tree(self) -> AppView {
        match self.select_from_tree() {
            Some(selected) => selected.sync_textarea_content().switch_to_details(),
            None => self,
        }
    }

    /// The enter key on the tree: the request that the cursor leads to is
    /// selected and opens in the detail pane; on a group, the group is
    /// selected.
    pub open spec fn enter_from_tree(self) -> AppView {
        match self.resolve(self.tree_selected) {
            Some((group, index)) => AppView {
                selected_group_index: Some(
                    match self.group_index(group) {
                        Some(g) => g,
                        None => 0usize,
                    },
                ),
                selected_request_index: Some(index as usize),
                ..self
            }.switch_to_details().sync_textarea_content(),
            None => self.handle_tree_selection(),
        }
    }

    /// The letters of the tree panel: `q` asks whether to leave, `e` names
    /// a new group, `d` begins a deletion and `a` names a new request, the
    /// last two only where there is a group.
    pub open spec fn on_tree_letter(self, c: char) -> AppView {
        if c == 'q' {
            AppView { current_screen: CurrentScreen::Exiting, ..self }
        } else if c == 'e' {
            AppView { current_screen: CurrentScreen::Editing, groups: Some(Groups::Name), ..self }
        } else if c == 'd' {
            if self.list_names.len() > 0 {
                AppView {
                    groups_vec: self.list_names,
                    current_screen: CurrentScreen::Deleting,
                    ..self
                }
            } else {
                self
            }
        } else if c == 'a' {
            if self.list_names.len() > 0 {
                match self.group_for_new_request() {
                    Some(group) => self.add_request(group),
                    None => self,
                }
            } else {
                self
            }
        } else {
            self
        }
    }

    /// The keys of the tree panel.
    pub open spec fn on_tree(self, key: KeyEvent) -> (AppView, Action) {
        match key.code {
            KeyCode::Down => (self, Action::Tree(TreeMove::Down)),
            KeyCode::Up => (self, Action::Tree(TreeMove::Up)),
            KeyCode::Left => (self, Action::Tree(TreeMove::Toggle)),
            KeyCode::Right => {
                if self.tree_selected is Some {
                    (self.open_from_tree(), Action::Tree(TreeMove::Toggle))
                } else {
                    (self, Action::Nothing)
                }
            },
            KeyCode::Enter => (self.enter_from_tree(), Action::Nothing),
            KeyCode::Char(c) => (self.on_tree_letter(c), Action::Nothing),
            _ => (self, Action::Nothing),
        }
    }

    /// The keys of the screen on which a group is named.
    pub open spec fn on_editing(self, key: KeyEvent) -> (AppView, Action) {
        match key.code {
            KeyCode::Esc => (
                AppView {
                    groups: None,
                    current_screen: CurrentScreen::Main,
                    key_input: Seq::empty(),
                    ..self
                },
                Action::Nothing,
            ),
            KeyCode::Enter => {
                if self.key_input.len() > 0 {
                    match check_new_group(self.list, self.key_input) {
                        Ok(_) => (self, Action::Commit(Operation::SaveGroup)),
                        Err(e) => (
                            AppView { last_error: Some(AppError::Validation(e)), ..self },
                            Action::Nothing,
                        ),
                    }
                } else {
                    (self, Action::Nothing)
                }
            },
            KeyCode::Char(c) => (
                AppView { key_input: self.key_input.push(c), ..self },
                Action::Nothing,
            ),
            KeyCode::Backspace => (
                AppView { key_input: without_last(self.key_input), ..self },
                Action::Nothing,
            ),
            _ => (self, Action::Nothing),
        }
    }

    /// The keys of the screen on which a deletion is begun.
    pub open spec fn on_deleting(self, key: KeyEvent) -> (AppView, Action) {
        match key.code {
            KeyCode::Esc => (
                AppView { current_screen: CurrentScreen::Main, ..self },
                Action::Nothing,
            ),
            KeyCode::Up => (self.previous_group(), Action::Nothing),
            KeyCode::Down => (self.next_group(), Action::Nothing),
            KeyCode::Enter => {
                if self.groups_vec.len() > 0 {
                    (self.start_delete_confirmation(), Action::Nothing)
                } else {
                    (self, Action::Nothing)
                }
            },
            _ => (self, Action::Nothing),
        }
    }

    /// Whether `key` is the letter `letter` in either case.
    pub open spec fn is_letter(key: KeyEvent, small: char, capital: char) -> bool {
        key.code == KeyCode::Char(small) || key.code == KeyCode::Char(capital)
    }

    /// The keys of the screen that asks whether a deletion is meant.
    pub open spec fn on_delete_confirm(self, key: KeyEvent) -> (AppView, Action) {
        if Self::is_letter(key, 'y', 'Y') {
            (self, Action::Commit(Operation::DeleteSelected))
        } else if Self::is_letter(key, 'n', 'N') || key.code == KeyCode::Esc {
            (
                AppView {
                    current_screen: CurrentScreen::Main,
                    pending_delete_id: None,
                    ..self
                },
                Action::Nothing,
            )
        } else {
            (self, Action::Nothing)
        }
    }

    /// The keys of the screen that asks whether to leave.
    pub open spec fn on_exiting(self, key: KeyEvent) -> (AppView, Action) {
        if Self::is_letter(key, 'y', 'Y') {
            (self, Action::Quit)
        } else if Self::is_letter(key, 'n', 'N') {
            (AppView { current_screen: CurrentScreen::Main, ..self }, Action::Nothing)
        } else {
            (self, Action::Nothing)
        }
    }

    /// The keys of the screen on which a request is named.
    pub open spec fn on_adding_request(self, key: KeyEvent) -> (AppView, Action) {
        match key.code {
            KeyCode::Esc => (
                AppView {
                    current_screen: CurrentScreen::Main,
                    request_name_input: Seq::empty(),
                    selected_group: None,
                    selected_request_type: RequestType::GET,
                    ..self
                },
                Action::Nothing,
            ),
            KeyCode::Enter => match self.selected_group {
                Some(group) => match check_new_request(self.list, group, self.request_name_input) {
                    Ok(_) => (self, Action::Commit(Operation::SaveRequest)),
                    Err(e) => (
                        AppView { last_error: Some(AppError::Validation(e)), ..self },
                        Action::Nothing,
                    ),
                },
                None => (
                    AppView { current_screen: CurrentScreen::Main, ..self },
                    Action::Nothing,
                ),
            },
            KeyCode::Left => (
                AppView {
                    selected_request_type: self.selected_request_type.predecessor(),
                    ..self
                },
                Action::Nothing,
            ),
            KeyCode::Right => (
                AppView {
                    selected_request_type: self.selected_request_type.successor(),
                    ..self
                },
                Action::Nothing,
            ),
            KeyCode::Char(c) => (
                AppView { request_name_input: self.request_name_input.push(c), ..self },
                Action::Nothing,
            ),
            KeyCode::Backspace => (
                AppView { request_name_input: without_last(self.request_name_input), ..self },
                Action::Nothing,
            ),
            _ => (self, Action::Nothing),
        }
    }

    /// The keys of the screen that shows one request.
    pub open spec fn on_request_detail(self, key: KeyEvent) -> (AppView, Action) {
        match key.code {
            KeyCode::Esc => (
                AppView {
                    current_screen: CurrentScreen::Main,
                    selected_request_index: None,
                    current_detail_field: DetailField::NoField,
                    ..self
                },
                Action::Nothing,
            ),
            _ => (self, Action::Nothing),
        }
    }

    /// What a key does: the state after it, and what is left to do outside
    /// the state. An error of an earlier key is forgotten first. In the
    /// detail pane the buffers are written back after every key.
    pub open spec fn handle_key(self, key: KeyEvent) -> (AppView, Action) {
        let state = AppView { last_error: None, ..self };
        match state.current_screen {
            CurrentScreen::Main => match state.active_panel {
                ActivePanel::Tree => state.on_tree(key),
                ActivePanel::Details => {
                    let (after, action) = state.on_details(key);
                    (after.save_textarea_content(), action)
                },
            },
            CurrentScreen::Editing => state.on_editing(key),
            CurrentScreen::Deleting => state.on_deleting(key),
            CurrentScreen::DeleteConfirm => state.on_delete_confirm(key),
            CurrentScreen::Exiting => state.on_exiting(key),
            CurrentScreen::AddingRequest => state.on_adding_request(key),
            CurrentScreen::RequestDetail => state.on_request_detail(key),
        }
    }

    /// The state with the buffer of `field` replaced, where the field has
    /// one.
    pub open spec fn with_buffer(self, field: DetailField, buffer: BufferView) -> AppView {
        match field {
            DetailField::Url => AppView { url_textarea: buffer, ..self },
            DetailField::Body => AppView { body_textarea: buffer, ..self },
            DetailField::AuthUsername => AppView { auth_username_textarea: buffer, ..self },
            DetailField::AuthPassword => AppView { auth_password_textarea: buffer, ..self },
            _ => self,
        }
    }

    /// What the store has to take before `operation` is made: the new
    /// group, the new request with nothing set, or the pending deletion.
    pub open spec fn store_command(self, operation: Operation) -> Option<StoreCommandView> {
        match operation {
            Operation::SaveGroup => Some(StoreCommandView::CreateGroup { name: self.key_input }),
            Operation::SaveRequest => match self.selected_group {
                Some(group) => Some(
                    StoreCommandView::CreateRequest {
                        group,
                        request: ApiRequest::fresh(
                            self.request_name_input,
                            self.selected_request_type,
                        ),
                    },
                ),
                None => None,
            },
            Operation::DeleteSelected => match self.pending_delete_id {
                Some(Address::Request(group, name)) => Some(
                    StoreCommandView::DeleteRequest { group, name },
                ),
                Some(Address::Group(name)) => Some(StoreCommandView::DeleteGroup { name }),
                _ => None,
            },
        }
    }

    /// What the store has to take after an edit: the selected request as
    /// it now stands.
    pub open spec fn update_command(self) -> Option<StoreCommandView> {
        match self.selected_address() {
            Some((group, index)) => Some(
                StoreCommandView::UpdateRequest { group, request: self.list[group][index] },
            ),
            None => None,
        }
    }

    /// The group is created where the store took it.
    pub open spec fn complete_save_group(self, stored: bool) -> AppView {
        if stored {
            self.save_group()
        } else {
            AppView {
                key_input: Seq::empty(),
                groups: None,
                last_error: Some(AppError::Storage),
                ..self
            }
        }
    }

    /// The request is created where the store took it; no group is chosen
    /// afterwards.
    pub open spec fn complete_save_request(self, stored: bool) -> AppView {
        let after = if stored {
            self.save_request()
        } else {
            AppView {
                request_name_input: Seq::empty(),
                selected_request_type: RequestType::GET,
                last_error: Some(AppError::Storage),
                ..self
            }
        };
        AppView { selected_group: None, ..after }
    }

    /// The pending deletion is carried out where the store took it.
    pub open spec fn complete_delete(self, stored: bool) -> AppView {
        if stored {
            self.confirm_delete_selected()
        } else {
            AppView { pending_delete_id: None, last_error: Some(AppError::Storage), ..self }
        }
    }

    /// The state after the store has answered: the change is made where
    /// the store took it, else the failure is recorded; the main screen
    /// comes back either way.
    pub open spec fn complete(self, operation: Operation, stored: bool) -> AppView {
        let after = match operation {
            Operation::SaveGroup => self.complete_save_group(stored),
            Operation::SaveRequest => self.complete_save_request(stored),
            Operation::DeleteSelected => self.complete_delete(stored),
        };
        AppView { current_screen: CurrentScreen::Main, ..after }
    }
}

impl App {
    fn forward(&self) -> (action: Action)
        ensures
            action == self@.forward(),
    {
        if self.current_detail_field.has_text_buffer() {
            Action::Edit(self.current_detail_field)
        } else {
            Action::Nothing
        }
    }

    /// Handles the left key in a text field.
    pub fn handle_left_in_textarea(&mut self) -> (action: Action)
        ensures
            final(self)@ == old(self)@.handle_left_in_textarea().0,
            action == old(self)@.handle_left_in_textarea().1,
    {
        if self.is_cursor_at_start() {
            self.switch_to_tree();
            Action::Nothing
        } else {
            self.forward()
        }
    }

    /// Handles a key of the detail pane that is not input to a header or a
    /// parameter.
    pub fn handle_common_navigation(&mut self, key: KeyEvent) -> (action: Action)
        ensures
            final(self)@ == old(self)@.handle_common_navigation(key).0,
            action == old(self)@.handle_common_navigation(key).1,
    {
        let field = self.current_detail_field;
        let auth = self.selected_auth_type();
        match key.code {
            KeyCode::Char(c) => {
                if c == 's' && key.control {
                    Action::Send
                } else {
                    self.forward()
                }
            },
            KeyCode::Left => {
                if field == DetailField::AuthType && auth != AuthType::NoAuth {
                    self.previous_auth_type();
                    self.sync_textarea_content();
                    Action::Nothing
                } else {
                    self.handle_left_in_textarea()
                }
            },
            KeyCode::Right => {
                if field == DetailField::AuthType {
                    self.next_auth_type();
                    self.sync_textarea_content();
                    Action::Nothing
                } else {
                    self.forward()
                }
            },
            KeyCode::Up | KeyCode::BackTab => {
                self.current_detail_field = field.previous(auth);
                Action::Nothing
            },
            KeyCode::Down | KeyCode::Tab => {
                self.current_detail_field = field.next(auth);
                Action::Nothing
            },
            KeyCode::Esc => {
                self.switch_to_tree();
                Action::Nothing
            },
            _ => self.forward(),
        }
    }

    fn on_param_input(&mut self, key: KeyEvent)
        ensures
            final(self)@ == old(self)@.on_param_input(key),
    {
        match key.code {
            KeyCode::Esc => {
                self.adding_params = false;
                self.params_key_input = String::new();
                self.params_value_input = String::new();
            },
            KeyCode::Enter => match self.params_input_mode {
                ParameterInputMode::Key => {
                    if !self.params_key_input.as_str().is_empty() {
                        self.toggle_params_input_mode();
                    }
                },
                ParameterInputMode::Value => {
                    if !self.params_value_input.as_str().is_empty() {
                        self.save_params();
                    }
                },
            },
            KeyCode::Tab => {
                if !self.params_key_input.as_str().is_empty() {
                    self.toggle_params_input_mode();
                }
            },
            KeyCode::Char(c) => match self.params_input_mode {
                ParameterInputMode::Key => {
                    self.params_key_input.push(c);
                },
                ParameterInputMode::Value => {
                    self.params_value_input.push(c);
                },
            },
            KeyCode::Backspace => match self.params_input_mode {
                ParameterInputMode::Key => {
                    pop_char(&mut self.params_key_input);
                },
                ParameterInputMode::Value => {
                    pop_char(&mut self.params_value_input);
                },
            },
            _ => {},
        }
    }

    fn on_header_input(&mut self, key: KeyEvent)
        ensures
            final(self)@ == old(self)@.on_header_input(key),
    {
        match key.code {
            KeyCode::Esc => {
                self.adding_header = false;
                self.header_key_input = String::new();
                self.header_value_input = String::new();
            },
            KeyCode::Enter => match self.header_input_mode {
                HeaderInputMode::Key => {
                    if !self.header_key_input.as_str().is_empty() {
                        self.toggle_header_input_mode();
                    }
                },
                HeaderInputMode::Value => {
                    if !self.header_value_input.as_str().is_empty() {
                        self.save_header();
                    }
                },
            },
            KeyCode::Tab => {
                if !self.header_key_input.as_str().is_empty() {
                    self.toggle_header_input_mode();
                }
            },
            KeyCode::Char(c) => match self.header_input_mode {
                HeaderInputMode::Key => {
                    self.header_key_input.push(c);
                },
                HeaderInputMode::Value => {
                    self.header_value_input.push(c);
                },
            },
            KeyCode::Backspace => match self.header_input_mode {
                HeaderInputMode::Key => {
                    pop_char(&mut self.header_key_input);
                },
                HeaderInputMode::Value => {
                    pop_char(&mut self.header_value_input);
                },
            },
            _ => {},
        }
    }

    fn is_navigation(key: KeyEvent) -> (r: bool)
        ensures
            r == AppView::is_navigation(key),
    {
        match key.code {
            KeyCode::Left | KeyCode::Right | KeyCode::Up | KeyCode::Down | KeyCode::Tab | KeyCode::BackTab | KeyCode::Esc => true,
            _ => false,
        }
    }

    fn is_enter(key: KeyEvent) -> (r: bool)
        ensures
            r == (key.code == KeyCode::Enter),
    {
        match key.code {
            KeyCode::Enter => true,
            _ => false,
        }
    }

    fn on_details(&mut self, key: KeyEvent) -> (action: Action)
        ensures
            final(self)@ == old(self)@.on_details(key).0,
            action == old(self)@.on_details(key).1,
    {
        match self.current_detail_field {
            DetailField::Params => {
                if self.adding_params {
                    self.on_param_input(key);
                    Action::Nothing
                } else if Self::is_enter(key) {
                    self.start_adding_params();
                    Action::Nothing
                } else if Self::is_navigation(key) {
                    self.handle_common_navigation(key)
                } else {
                    Action::Nothing
                }
            },
            DetailField::Headers => {
                if self.adding_header {
                    self.on_header_input(key);
                    Action::Nothing
                } else if Self::is_enter(key) {
                    self.start_adding_header();
                    Action::Nothing
                } else if Self::is_navigation(key) {
                    self.handle_common_navigation(key)
                } else {
                    Action::Nothing
                }
            },
            _ => self.handle_common_navigation(key),
        }
    }

    fn select_from_tree(&mut self) -> (found: bool)
        ensures
            found == old(self)@.select_from_tree() is Some,
            final(self)@ == (match old(self)@.select_from_tree() {
                Some(selected) => selected,
                None => old(self)@,
            }),
    {
        let target = match &self.tree_state.selected {
            Some(NodeId::Request(group, name)) => {
                match position_of(&self.groups_vec, group.as_str()) {
                    Some(g) => match self.list.get(group.as_str()) {
                        Some(requests) => match request_position(requests, name.as_str()) {
                            Some(index) => Some((g, index)),
                            None => None,
                        },
                        None => None,
                    },
                    None => None,
                }
            },
            _ => None,
        };
        match target {
            Some((g, index)) => {
                self.selected_group_index = Some(g);
                self.selected_request_index = Some(index);
                true
            },
            None => false,
        }
    }

    fn group_for_new_request(&self) -> (r: Option<String>)
        ensures
            crate::text::option_view(r) == self@.group_for_new_request(),
    {
        match &self.tree_state.selected {
            Some(NodeId::Group(group)) => Some(group.clone()),
            Some(NodeId::Request(group, _)) => Some(group.clone()),
            _ => None,
        }
    }

    fn open_from_tree(&mut self)
        ensures
            final(self)@ == old(self)@.open_from_tree(),
    {
        if self.select_from_tree() {
            self.sync_textarea_content();
            self.switch_to_details();
        }
    }

    fn enter_from_tree(&mut self)
        ensures
            final(self)@ == old(self)@.enter_from_tree(),
    {
        if let Some((group, index)) = self.handle_tree_selection() {
            self.selected_group_index = Some(
                match position_of(&self.groups_vec, group.as_str()) {
                    Some(g) => g,
                    None => 0,
                },
            );
            self.selected_request_index = Some(index);
            self.switch_to_details();
            self.sync_textarea_content();
        }
    }

    fn on_tree_letter(&mut self, c: char)
        ensures
            final(self)@ == old(self)@.on_tree_letter(c),
    {
        if c == 'q' {
            self.current_screen = CurrentScreen::Exiting;
        } else if c == 'e' {
            self.current_screen = CurrentScreen::Editing;
            self.groups = Some(Groups::Name);
        } else if c == 'd' {
            if !self.list.is_empty() {
                self.update_groups_vec();
                self.current_screen = CurrentScreen::Deleting;
            }
        } else if c == 'a' {
            if !self.list.is_empty() {
                if let Some(group) = self.group_for_new_request() {
                    self.add_request(group);
                }
            }
        }
    }

    fn on_tree(&mut self, key: KeyEvent) -> (action: Action)
        ensures
            final(self)@ == old(self)@.on_tree(key).0,
            action == old(self)@.on_tree(key).1,
    {
        match key.code {
            KeyCode::Down => Action::Tree(TreeMove::Down),
            KeyCode::Up => Action::Tree(TreeMove::Up),
            KeyCode::Left => Action::Tree(TreeMove::Toggle),
            KeyCode::Right => {
                if self.tree_state.selected.is_some() {
                    self.open_from_tree();
                    Action::Tree(TreeMove::Toggle)
                } else {
                    Action::Nothing
                }
            },
            KeyCode::Enter => {
                self.enter_from_tree();
                Action::Nothing
            },
            KeyCode::Char(c) => {
                self.on_tree_letter(c);
                Action::Nothing
            },
            _ => Action::Nothing,
        }
    }

    fn on_editing(&mut self, key: KeyEvent) -> (action: Action)
        ensures
            final(self)@ == old(self)@.on_editing(key).0,
            action == old(self)@.on_editing(key).1,
    {
        match key.code {
            KeyCode::Esc => {
                self.groups = None;
                self.current_screen = CurrentScreen::Main;
                self.key_input = String::new();
                Action::Nothing
            },
            KeyCode::Enter => {
                if self.key_input.as_str().is_empty() {
                    Action::Nothing
                } else if self.list.contains_key(self.key_input.as_str()) {
                    self.last_error = Some(
                        AppError::Validation(crate::groups::ValidationError::DuplicateGroup),
                    );
                    Action::Nothing
                } else {
                    Action::Commit(Operation::SaveGroup)
                }
            },
            KeyCode::Char(c) => {
                self.key_input.push(c);
                Action::Nothing
            },
            KeyCode::Backspace => {
                pop_char(&mut self.key_input);
                Action::Nothing
            },
            _ => Action::Nothing,
        }
    }

    fn on_deleting(&mut self, key: KeyEvent) -> (action: Action)
        ensures
            final(self)@ == old(self)@.on_deleting(key).0,
            action == old(self)@.on_deleting(key).1,
    {
        match key.code {
            KeyCode::Esc => {
                self.current_screen = CurrentScreen::Main;
            },
            KeyCode::Up => {
                self.previous_group();
            },
            KeyCode::Down => {
                self.next_group();
            },
            KeyCode::Enter => {
                if self.groups_vec.len() > 0 {
                    self.start_delete_confirmation();
                }
            },
            _ => {},
        }
        Action::Nothing
    }

    fn is_letter(key: KeyEvent, small: char, capital: char) -> (r: bool)
        ensures
            r == AppView::is_letter(key, small, capital),
    {
        match key.code {
            KeyCode::Char(c) => c == small || c == capital,
            _ => false,
        }
    }

    fn is_esc(key: KeyEvent) -> (r: bool)
        ensures
            r == (key.code == KeyCode::Esc),
    {
        match key.code {
            KeyCode::Esc => true,
            _ => false,
        }
    }

    fn on_delete_confirm(&mut self, key: KeyEvent) -> (action: Action)
        ensures
            final(self)@ == old(self)@.on_delete_confirm(key).0,
            action == old(self)@.on_delete_confirm(key).1,
    {
        if Self::is_letter(key, 'y', 'Y') {
            Action::Commit(Operation::DeleteSelected)
        } else if Self::is_letter(key, 'n', 'N') || Self::is_esc(key) {
            self.current_screen = CurrentScreen::Main;
            self.pending_delete_id = None;
            Action::Nothing
        } else {
            Action::Nothing
        }
    }

    fn on_exiting(&mut self, key: KeyEvent) -> (action: Action)
        ensures
            final(self)@ == old(self)@.on_exiting(key).0,
            action == old(self)@.on_exiting(key).1,
    {
        if Self::is_letter(key, 'y', 'Y') {
            Action::Quit
        } else if Self::is_letter(key, 'n', 'N') {
            self.current_screen = CurrentScreen::Main;
            Action::Nothing
        } else {
            Action::Nothing
        }
    }

    fn check_new_request(&self) -> (r: Option<Result<(), crate::groups::ValidationError>>)
        ensures
            r == (match self@.selected_group {
                Some(group) => Some(check_new_request(self@.list, group, self@.request_name_input)),
                None => None,
            }),
    {
        match &self.selected_group {
            Some(group) => {
                if self.request_name_input.as_str().is_empty() {
                    Some(Err(crate::groups::ValidationError::EmptyName))
                } else {
                    match self.list.get(group.as_str()) {
                        None => Some(Err(crate::groups::ValidationError::UnknownGroup)),
                        Some(requests) => {
                            if request_position(requests, self.request_name_input.as_str()).is_some() {
                                Some(Err(crate::groups::ValidationError::DuplicateRequest))
                            } else {
                                Some(Ok(()))
                            }
                        },
                    }
                }
            },
            None => None,
        }
    }

    fn on_adding_request(&mut self, key: KeyEvent) -> (action: Action)
        ensures
            final(self)@ == old(self)@.on_adding_request(key).0,
            action == old(self)@.on_adding_request(key).1,
    {
        match key.code {
            KeyCode::Esc => {
                self.current_screen = CurrentScreen::Main;
                self.request_name_input = String::new();
                self.selected_group = None;
                self.selected_request_type = RequestType::GET;
                Action::Nothing
            },
            KeyCode::Enter => match self.check_new_request() {
                Some(Ok(_)) => Action::Commit(Operation::SaveRequest),
                Some(Err(e)) => {
                    self.last_error = Some(AppError::Validation(e));
                    Action::Nothing
                },
                None => {
                    self.current_screen = CurrentScreen::Main;
                    Action::Nothing
                },
            },
            KeyCode::Left => {
                self.previous_request_type();
                Action::Nothing
            },
            KeyCode::Right => {
                self.next_request_type();
                Action::Nothing
            },
            KeyCode::Char(c) => {
                self.request_name_input.push(c);
                Action::Nothing
            },
            KeyCode::Backspace => {
                pop_char(&mut self.request_name_input);
                Action::Nothing
            },
            _ => Action::Nothing,
        }
    }

    fn on_request_detail(&mut self, key: KeyEvent) -> (action: Action)
        ensures
            final(self)@ == old(self)@.on_request_detail(key).0,
            action == old(self)@.on_request_detail(key).1,
    {
        match key.code {
            KeyCode::Esc => {
                self.current_screen = CurrentScreen::Main;
                self.selected_request_index = None;
                self.current_detail_field = DetailField::NoField;
            },
            _ => {},
        }
        Action::Nothing
    }

    /// Handles one key and says what is left to do outside the state.
    pub fn handle_key(&mut self, key: KeyEvent) -> (action: Action)
        ensures
            final(self)@ == old(self)@.handle_key(key).0,
            action == old(self)@.handle_key(key).1,
    {
        self.last_error = None;
        match self.current_screen {
            CurrentScreen::Main => match self.active_panel {
                ActivePanel::Tree => self.on_tree(key),
                ActivePanel::Details => {
                    let action = self.on_details(key);
                    self.save_textarea_content();
                    action
                },
            },
            CurrentScreen::Editing => self.on_editing(key),
            CurrentScreen::Deleting => self.on_deleting(key),
            CurrentScreen::DeleteConfirm => self.on_delete_confirm(key),
            CurrentScreen::Exiting => self.on_exiting(key),
            CurrentScreen::AddingRequest => self.on_adding_request(key),
            CurrentScreen::RequestDetail => self.on_request_detail(key),
        }
    }

    /// Takes over the text buffer of `field` after an edit and writes the
    /// buffers back into the selected request.
    pub fn buffer_edited(&mut self, field: DetailField, text: &str, cursor: (usize, usize))
        ensures
            final(self)@ == old(self)@.with_buffer(
                field,
                BufferView { text: text@, cursor },
            ).save_textarea_content(),
    {
        let buffer = TextBuffer { text: String::from_str(text), cursor };
        match field {
            DetailField::Url => {
                self.url_textarea = buffer;
            },
            DetailField::Body => {
                self.body_textarea = buffer;
            },
            DetailField::AuthUsername => {
                self.auth_username_textarea = buffer;
            },
            DetailField::AuthPassword => {
                self.auth_password_textarea = buffer;
            },
            _ => {},
        }
        self.save_textarea_content();
    }

    /// What the store has to take before `operation` is made.
    pub fn store_command(&self, operation: Operation) -> (command: Option<StoreCommand>)
        ensures
            command_view(command) == self@.store_command(operation),
    {
        match operation {
            Operation::SaveGroup => Some(StoreCommand::CreateGroup { name: self.key_input.clone() }),
            Operation::SaveRequest => match &self.selected_group {
                Some(group) => Some(
                    StoreCommand::CreateRequest {
                        group: group.clone(),
                        request: ApiRequest::new(
                            self.request_name_input.clone(),
                            self.selected_request_type,
                        ),
                    },
                ),
                None => None,
            },
            Operation::DeleteSelected => match &self.pending_delete_id {
                Some(NodeId::Request(group, name)) => Some(
                    StoreCommand::DeleteRequest { group: group.clone(), name: name.clone() },
                ),
                Some(NodeId::Group(name)) => Some(StoreCommand::DeleteGroup { name: name.clone() }),
                _ => None,
            },
        }
    }

    /// What the store has to take after an edit of the selected request.
    pub fn update_command(&self) -> (command: Option<StoreCommand>)
        ensures
            command_view(command) == self@.update_command(),
    {
        let group = match self.selected_group_index {
            Some(g) => if g < self.groups_vec.len() {
                Some(self.groups_vec[g].clone())
            } else {
                None
            },
            None => None,
        };
        match (group, self.get_selected_request()) {
            (Some(group), Some(request)) => Some(
                StoreCommand::UpdateRequest { group, request: request.clone() },
            ),
            _ => None,
        }
    }

    fn complete_save_group(&mut self, stored: bool)
        ensures
            final(self)@ == old(self)@.complete_save_group(stored),
    {
        if stored {
            self.save_group();
        } else {
            self.key_input = String::new();
            self.groups = None;
            self.last_error = Some(AppError::Storage);
        }
    }

    fn complete_save_request(&mut self, stored: bool)
        ensures
            final(self)@ == old(self)@.complete_save_request(stored),
    {
        if stored {
            self.save_request();
        } else {
            self.request_name_input = String::new();
            self.selected_request_type = RequestType::GET;
            self.last_error = Some(AppError::Storage);
        }
        self.selected_group = None;
    }

    fn complete_delete(&mut self, stored: bool)
        ensures
            final(self)@ == old(self)@.complete_delete(stored),
    {
        if stored {
            self.confirm_delete_selected();
        } else {
            self.pending_delete_id = None;
            self.last_error = Some(AppError::Storage);
        }
    }

    /// Makes the change that was waiting for the store, or records that the
    /// store did not take it.
    pub fn complete(&mut self, operation: Operation, stored: bool)
        ensures
            final(self)@ == old(self)@.complete(operation, stored),
    {
        match operation {
            Operation::SaveGroup => {
                self.complete_save_group(stored);
            },
            Operation::SaveRequest => {
                self.complete_save_request(stored);
            },
            Operation::DeleteSelected => {
                self.complete_delete(stored);
            },
        }
        self.current_screen = CurrentScreen::Main;
    }
}

} // verus!

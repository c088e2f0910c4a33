//! The state of the application and the operations that the interface maps
//! its keys onto.

use vstd::prelude::*;
use vstd::string::*;
use crate::groups::{
    check_new_group,
    check_new_request,
    first_request,
    has_request,
    request_position,
    request_views,
    sorted_insert,
    sorted_remove,
    without_request,
    GroupList,
    ValidationError,
};
use crate::models::{
    ApiRequest,
    AuthDetails,
    AuthType,
    DetailsView,
    RequestType,
    RequestView,
};
use crate::requests::{
    failure_view,
    snapshot,
    NetworkError,
    OutboundRequest,
    RequestResponse,
    ResponseView,
};
use crate::text::{option_view, str_eq};
use crate::tree::{build_tree, is_projection, Address, NodeId, Tree, TreeState};
use crate::ui_state::{ActivePanel, DetailField, HeaderInputMode, ParameterInputMode};

verus! {

/// The screens of the interface.
#[derive(Clone, Copy, Debug, PartialEq, Eq, Structural)]
pub enum CurrentScreen {
    Main,
    Editing,
    Deleting,
    DeleteConfirm,
    AddingRequest,
    RequestDetail,
    Exiting,
}

/// What went wrong with the last operation.
#[derive(Clone, Copy, Debug, PartialEq, Eq, Structural)]
pub enum AppError {
    /// A name was refused.
    Validation(ValidationError),
    /// The store did not take the change, so the change was not made.
    Storage,
}

/// What of a group is being edited.
#[derive(Clone, Copy, Debug, PartialEq, Eq, Structural)]
pub enum Groups {
    Name,
}

/// The text of an edit field and the place of its cursor, as row and column.
#[derive(Debug)]
pub struct TextBuffer {
    pub text: String,
    pub cursor: (usize, usize),
}

/// What a `TextBuffer` stands for.
pub struct BufferView {
    pub text: Seq<char>,
    pub cursor: (usize, usize),
}

impl BufferView {
    /// A buffer that holds `text`, with the cursor at the start.
    pub open spec fn holding(text: Seq<char>) -> BufferView {
        BufferView { text, cursor: (0usize, 0usize) }
    }

    /// Whether the cursor stands at the start of the first line.
    pub open spec fn at_start(self) -> bool {
        self.cursor.0 == 0 && self.cursor.1 == 0
    }
}

impl View for TextBuffer {
    type V = BufferView;

    open spec fn view(&self) -> BufferView {
        BufferView { text: self.text@, cursor: self.cursor }
    }
}

impl Clone for TextBuffer {
    fn clone(&self) -> (r: Self)
        ensures
            r@ == self@,
    {
        TextBuffer { text: self.text.clone(), cursor: self.cursor }
    }
}

impl Default for TextBuffer {
    fn default() -> (r: Self)
        ensures
            r@ == BufferView::holding(Seq::empty()),
    {
        TextBuffer { text: String::new(), cursor: (0, 0) }
    }
}

impl TextBuffer {
    /// A buffer that holds `text`, with the cursor at the start.
    pub fn from_text(text: &str) -> (r: Self)
        ensures
            r@ == BufferView::holding(text@),
    {
        TextBuffer { text: String::from_str(text), cursor: (0, 0) }
    }

    /// A buffer that holds the first of `lines`, or nothing where there is
    /// no line, with the cursor at the start.
    pub fn from_lines(lines: Vec<String>) -> (r: Self)
        ensures
            r@ == BufferView::holding(
                if lines@.len() > 0 {
                    lines@[0]@
                } else {
                    Seq::empty()
                },
            ),
    {
        if lines.len() > 0 {
            TextBuffer { text: lines[0].clone(), cursor: (0, 0) }
        } else {
            TextBuffer { text: String::new(), cursor: (0, 0) }
        }
    }

    pub fn cursor(&self) -> (r: (usize, usize))
        ensures
            r == self.cursor,
    {
        self.cursor
    }

    /// The text of the first line.
    pub fn text(&self) -> (r: &str)
        ensures
            r@ == self.text@,
    {
        self.text.as_str()
    }

    pub fn is_at_start(&self) -> (r: bool)
        ensures
            r == self@.at_start(),
    {
        self.cursor.0 == 0 && self.cursor.1 == 0
    }
}

/// The whole state of the application. The widgets and the store keep
/// their own state outside; what the decisions read of it is held here.
pub struct App {
    pub key_input: String,
    pub request_name_input: String,
    pub current_screen: CurrentScreen,
    pub list: GroupList,
    pub groups: Option<Groups>,
    pub selected_index: usize,
    pub groups_vec: Vec<String>,
    pub selected_request_type: RequestType,
    pub selected_group: Option<String>,
    pub selected_group_index: Option<usize>,
    pub selected_request_index: Option<usize>,
    pub current_detail_field: DetailField,
    pub url_textarea: TextBuffer,
    pub body_textarea: TextBuffer,
    pub auth_username_textarea: TextBuffer,
    pub auth_password_textarea: TextBuffer,
    pub tree_state: TreeState,
    pub active_panel: ActivePanel,
    pub password_visible: bool,
    pub header_key_input: String,
    pub header_value_input: String,
    pub adding_header: bool,
    pub header_input_mode: HeaderInputMode,
    pub params_key_input: String,
    pub params_value_input: String,
    pub adding_params: bool,
    pub params_input_mode: ParameterInputMode,
    pub is_sending: bool,
    pub last_response: Option<RequestResponse>,
    pub pending_delete_id: Option<NodeId>,
    /// Why the last operation was refused, where it was.
    pub last_error: Option<AppError>,
}

/// What an `App` stands for.
pub struct AppView {
    pub key_input: Seq<char>,
    pub request_name_input: Seq<char>,
    pub current_screen: CurrentScreen,
    pub list: Map<Seq<char>, Seq<RequestView>>,
    pub list_names: Seq<Seq<char>>,
    pub groups: Option<Groups>,
    pub selected_index: usize,
    pub groups_vec: Seq<Seq<char>>,
    pub selected_request_type: RequestType,
    pub selected_group: Option<Seq<char>>,
    pub selected_group_index: Option<usize>,
    pub selected_request_index: Option<usize>,
    pub current_detail_field: DetailField,
    pub url_textarea: BufferView,
    pub body_textarea: BufferView,
    pub auth_username_textarea: BufferView,
    pub auth_password_textarea: BufferView,
    pub tree_selected: Option<Address>,
    pub active_panel: ActivePanel,
    pub password_visible: bool,
    pub header_key_input: Seq<char>,
    pub header_value_input: Seq<char>,
    pub adding_header: bool,
    pub header_input_mode: HeaderInputMode,
    pub params_key_input: Seq<char>,
    pub params_value_input: Seq<char>,
    pub adding_params: bool,
    pub params_input_mode: ParameterInputMode,
    pub is_sending: bool,
    pub last_response: Option<ResponseView>,
    pub pending_delete_id: Option<Address>,
    pub last_error: Option<AppError>,
}

/// What a vector of names stands for.
pub open spec fn names_view(names: Seq<String>) -> Seq<Seq<char>> {
    names.map_values(|s: String| s@)
}

pub open spec fn address_view(id: Option<NodeId>) -> Option<Address> {
    match id {
        Some(i) => Some(i@),
        None => None,
    }
}

pub open spec fn response_view(response: Option<RequestResponse>) -> Option<ResponseView> {
    match response {
        Some(r) => Some(r@),
        None => None,
    }
}

impl View for App {
    type V = AppView;

    open spec fn view(&self) -> AppView {
        AppView {
            key_input: self.key_input@,
            request_name_input: self.request_name_input@,
            current_screen: self.current_screen,
            list: self.list@,
            list_names: self.list.names(),
            groups: self.groups,
            selected_index: self.selected_index,
            groups_vec: names_view(self.groups_vec@),
            selected_request_type: self.selected_request_type,
            selected_group: option_view(self.selected_group),
            selected_group_index: self.selected_group_index,
            selected_request_index: self.selected_request_index,
            current_detail_field: self.current_detail_field,
            url_textarea: self.url_textarea@,
            body_textarea: self.body_textarea@,
            auth_username_textarea: self.auth_username_textarea@,
            auth_password_textarea: self.auth_password_textarea@,
            tree_selected: address_view(self.tree_state.selected),
            active_panel: self.active_panel,
            password_visible: self.password_visible,
            header_key_input: self.header_key_input@,
            header_value_input: self.header_value_input@,
            adding_header: self.adding_header,
            header_input_mode: self.header_input_mode,
            params_key_input: self.params_key_input@,
            params_value_input: self.params_value_input@,
            adding_params: self.adding_params,
            params_input_mode: self.params_input_mode,
            is_sending: self.is_sending,
            last_response: response_view(self.last_response),
            pending_delete_id: address_view(self.pending_delete_id),
            last_error: self.last_error,
        }
    }
}

/// The index of the first of `names` that is `name`, or the length of
/// `names` where none is.
pub open spec fn first_index(names: Seq<Seq<char>>, name: Seq<char>) -> int
    decreases names.len(),
{
    if names.len() == 0 {
        0
    } else if names[0] == name {
        0
    } else {
        1 + first_index(names.drop_first(), name)
    }
}

/// `first_index` finds the first occurrence, where there is one.
pub proof fn lemma_first_index(names: Seq<Seq<char>>, name: Seq<char>)
    ensures
        0 <= first_index(names, name) <= names.len(),
        forall|j: int| 0 <= j < first_index(names, name) ==> #[trigger] names[j] != name,
        first_index(names, name) < names.len() ==> names[first_index(names, name)] == name,
    decreases names.len(),
{
    if names.len() > 0 && names[0] != name {
        let rest = names.drop_first();
        lemma_first_index(rest, name);
        let f = first_index(rest, name);
        assert forall|j: int| 0 <= j < 1 + f implies #[trigger] names[j] != name by {
            if j > 0 {
                assert(rest[j - 1] == names[j]);
            }
        }
        if f < rest.len() {
            assert(rest[f] == names[f + 1]);
        }
    }
}

/// The place of the first of `names` that is `name`.
pub fn position_of(names: &Vec<String>, name: &str) -> (r: Option<usize>)
    ensures
        match r {
            Some(i) => i < names@.len() && i == first_index(names_view(names@), name@),
            None => first_index(names_view(names@), name@) == names@.len(),
        },
{
    proof {
        lemma_first_index(names_view(names@), name@);
    }
    let mut i: usize = 0;
    while i < names.len()
        invariant
            i <= names@.len(),
            forall|j: int| 0 <= j < i ==> #[trigger] names_view(names@)[j] != name@,
        decreases names@.len() - i,
    {
        if str_eq(names[i].as_str(), name) {
            proof {
                lemma_first_index(names_view(names@), name@);
                assert(names_view(names@)[i as int] == name@);
            }
            return Some(i);
        }
        i += 1;
    }
    proof {
        lemma_first_index(names_view(names@), name@);
    }
    None
}

impl AppView {
    /// The state of an application that has just started.
    pub open spec fn initial() -> AppView {
        AppView {
            key_input: Seq::empty(),
            request_name_input: Seq::empty(),
            current_screen: CurrentScreen::Main,
            list: Map::empty(),
            list_names: Seq::empty(),
            groups: None,
            selected_index: 0,
            groups_vec: Seq::empty(),
            selected_request_type: RequestType::GET,
            selected_group: None,
            selected_group_index: None,
            selected_request_index: None,
            current_detail_field: DetailField::NoField,
            url_textarea: BufferView::holding(Seq::empty()),
            body_textarea: BufferView::holding(Seq::empty()),
            auth_username_textarea: BufferView::holding(Seq::empty()),
            auth_password_textarea: BufferView::holding(Seq::empty()),
            tree_selected: Some(Address::Root),
            active_panel: ActivePanel::Tree,
            password_visible: false,
            header_key_input: Seq::empty(),
            header_value_input: Seq::empty(),
            adding_header: false,
            header_input_mode: HeaderInputMode::Key,
            params_key_input: Seq::empty(),
            params_value_input: Seq::empty(),
            adding_params: false,
            params_input_mode: ParameterInputMode::Key,
            is_sending: false,
            last_response: None,
            pending_delete_id: None,
            last_error: None,
        }
    }

    /// The group and the index within it that the selection points at,
    /// where it points at a request that is there.
    pub open spec fn selected_address(self) -> Option<(Seq<char>, int)> {
        match (self.selected_group_index, self.selected_request_index) {
            (Some(g), Some(r)) => {
                if g < self.groups_vec.len() && self.list.contains_key(self.groups_vec[g as int])
                    && r < self.list[self.groups_vec[g as int]].len() {
                    Some((self.groups_vec[g as int], r as int))
                } else {
                    None
                }
            },
            _ => None,
        }
    }

    /// The selected request.
    pub open spec fn selected_request(self) -> Option<RequestView> {
        match self.selected_address() {
            Some((group, index)) => Some(self.list[group][index]),
            None => None,
        }
    }

    /// The state with the selected request replaced by `request`.
    pub open spec fn with_selected(self, request: RequestView) -> AppView {
        match self.selected_address() {
            Some((group, index)) => AppView {
                list: self.list.insert(group, self.list[group].update(index, request)),
                ..self
            },
            None => self,
        }
    }

    /// The scheme of the selected request; none where nothing is selected.
    pub open spec fn selected_auth_type(self) -> AuthType {
        match self.selected_request() {
            Some(request) => request.details.auth_type,
            None => AuthType::NoAuth,
        }
    }

    /// The request that a tree address leads to: the group and the index of
    /// the first request of that name.
    pub open spec fn resolve(self, address: Option<Address>) -> Option<(Seq<char>, int)> {
        match address {
            Some(Address::Request(group, name)) => {
                if self.list.contains_key(group) && has_request(self.list[group], name) {
                    Some((group, first_request(self.list[group], name)))
                } else {
                    None
                }
            },
            _ => None,
        }
    }

    /// The index of `group` among the sorted names, where it is one of them.
    pub open spec fn group_index(self, group: Seq<char>) -> Option<usize> {
        if first_index(self.groups_vec, group) < self.groups_vec.len() {
            Some(first_index(self.groups_vec, group) as usize)
        } else {
            None
        }
    }
}

/// Replacing one request of a vector replaces what it stands for.
pub proof fn lemma_request_views_update(requests: Seq<ApiRequest>, index: int, request: ApiRequest)
    requires
        0 <= index < requests.len(),
    ensures
        request_views(requests.update(index, request)) == request_views(requests).update(
            index,
            request@,
        ),
{
    assert(request_views(requests.update(index, request)) =~= request_views(requests).update(
        index,
        request@,
    ));
}

impl App {
    /// The state at the start: no groups, the main screen, the tree panel
    /// active and the root of the tree selected.
    pub fn new() -> (app: Self)
        ensures
            app@ == AppView::initial(),
    {
        let app = App {
            key_input: String::new(),
            request_name_input: String::new(),
            current_screen: CurrentScreen::Main,
            list: GroupList::new(),
            groups: None,
            selected_index: 0,
            groups_vec: Vec::new(),
            selected_request_type: RequestType::GET,
            selected_group: None,
            selected_group_index: None,
            selected_request_index: None,
            current_detail_field: DetailField::NoField,
            url_textarea: TextBuffer::default(),
            body_textarea: TextBuffer::default(),
            auth_username_textarea: TextBuffer::default(),
            auth_password_textarea: TextBuffer::default(),
            tree_state: TreeState { selected: Some(NodeId::Root) },
            active_panel: ActivePanel::Tree,
            password_visible: false,
            header_key_input: String::new(),
            header_value_input: String::new(),
            adding_header: false,
            header_input_mode: HeaderInputMode::Key,
            params_key_input: String::new(),
            params_value_input: String::new(),
            adding_params: false,
            params_input_mode: ParameterInputMode::Key,
            is_sending: false,
            last_response: None,
            pending_delete_id: None,
            last_error: None,
        };
        proof {
            assert(names_view(app.groups_vec@) =~= Seq::empty());
        }
        app
    }

    /// The tree of the groups and their requests.
    pub fn build_tree(&self) -> (tree: Tree)
        ensures
            is_projection(tree, self@.list_names, self@.list),
            crate::groups::strictly_sorted(self@.list_names),
    {
        build_tree(&self.list)
    }

    /// The selected request, where the selection points at one.
    pub fn get_selected_request(&self) -> (r: Option<&ApiRequest>)
        ensures
            match r {
                Some(request) => self@.selected_request() == Some(request@),
                None => self@.selected_request() is None,
            },
    {
        let group_index = match self.selected_group_index {
            Some(g) => g,
            None => {
                return None;
            },
        };
        let request_index = match self.selected_request_index {
            Some(r) => r,
            None => {
                return None;
            },
        };
        if group_index >= self.groups_vec.len() {
            return None;
        }
        match self.list.get(self.groups_vec[group_index].as_str()) {
            Some(requests) => {
                if request_index < requests.len() {
                    Some(&requests[request_index])
                } else {
                    None
                }
            },
            None => None,
        }
    }

    /// Lends out the selected request for editing.
    pub fn get_selected_request_mut(&mut self) -> (r: Option<&mut ApiRequest>)
        ensures
            match r {
                Some(request) => old(self)@.selected_request() == Some(request@) && final(self)@
                    == old(self)@.with_selected(final(request)@),
                None => old(self)@.selected_request() is None && final(self)@ == old(self)@,
            },
    {
        let group_index = match self.selected_group_index {
            Some(g) => g,
            None => {
                return None;
            },
        };
        let request_index = match self.selected_request_index {
            Some(r) => r,
            None => {
                return None;
            },
        };
        if group_index >= self.groups_vec.len() {
            return None;
        }
        let ghost name = self.groups_vec@[group_index as int]@;
        let ghost before = self.list@;
        match self.list.get_mut(self.groups_vec[group_index].as_str()) {
            Some(requests) => {
                if request_index < requests.len() {
                    proof {
                        assert forall|request: ApiRequest| #[trigger]
                            request_views(requests@.update(request_index as int, request))
                            == request_views(requests@).update(request_index as int, request@) by {
                            lemma_request_views_update(requests@, request_index as int, request);
                        }
                    }
                    Some(&mut requests[request_index])
                } else {
                    proof {
                        assert(before.insert(name, request_views(requests@)) =~= before);
                    }
                    None
                }
            },
            None => None,
        }
    }
}

/// The index after `index` among `len` places, wrapping round at the end.
pub open spec fn next_index(index: usize, len: nat) -> usize {
    ((index + 1) % (len as int)) as usize
}

/// The index before `index` among `len` places, wrapping round at the start.
pub open spec fn previous_index(index: usize, len: nat) -> usize {
    if index == 0 {
        (len - 1) as usize
    } else {
        (index - 1) as usize
    }
}

fn step_index(index: usize, len: usize) -> (r: usize)
    requires
        len > 0,
    ensures
        r == next_index(index, len as nat),
        r < len,
{
    if index == usize::MAX {
        proof {
            vstd::arithmetic::div_mod::lemma_add_mod_noop(index as int, 1, len as int);
            if len > 1 {
                vstd::arithmetic::div_mod::lemma_small_mod(1, len as nat);
            }
        }
        if len == 1 {
            0
        } else {
            (index % len + 1) % len
        }
    } else {
        (index + 1) % len
    }
}

impl AppView {
    /// The state with the details of the selected request replaced by what
    /// `change` makes of them.
    pub open spec fn map_selected(self, change: spec_fn(DetailsView) -> DetailsView) -> AppView {
        match self.selected_request() {
            Some(request) => self.with_selected(
                RequestView { details: change(request.details), ..request },
            ),
            None => self,
        }
    }

    pub open spec fn switch_to_tree(self) -> AppView {
        AppView {
            active_panel: ActivePanel::Tree,
            current_detail_field: DetailField::NoField,
            ..self
        }
    }

    pub open spec fn switch_to_details(self) -> AppView {
        AppView {
            active_panel: ActivePanel::Details,
            current_detail_field: if self.current_detail_field == DetailField::NoField {
                DetailField::Url
            } else {
                self.current_detail_field
            },
            ..self
        }
    }

    pub open spec fn start_adding_params(self) -> AppView {
        AppView {
            adding_params: true,
            params_key_input: Seq::empty(),
            params_value_input: Seq::empty(),
            params_input_mode: ParameterInputMode::Key,
            ..self
        }
    }

    pub open spec fn start_adding_header(self) -> AppView {
        AppView {
            adding_header: true,
            header_key_input: Seq::empty(),
            header_value_input: Seq::empty(),
            header_input_mode: HeaderInputMode::Key,
            ..self
        }
    }

    /// A parameter is saved where both inputs hold something; the inputs
    /// are closed either way.
    pub open spec fn save_params(self) -> AppView {
        let key = self.params_key_input;
        let value = self.params_value_input;
        let saved = if key.len() > 0 && value.len() > 0 {
            self.map_selected(|d: DetailsView| d.with_param(key, value))
        } else {
            self
        };
        AppView {
            adding_params: false,
            params_key_input: Seq::empty(),
            params_value_input: Seq::empty(),
            ..saved
        }
    }

    /// A header is saved where both inputs hold something and the name is
    /// not the reserved one; the inputs are closed either way.
    pub open spec fn save_header(self) -> AppView {
        let key = self.header_key_input;
        let value = self.header_value_input;
        let saved = if key.len() > 0 && value.len() > 0 {
            self.map_selected(|d: DetailsView| d.with_header(key, value))
        } else {
            self
        };
        AppView {
            adding_header: false,
            header_key_input: Seq::empty(),
            header_value_input: Seq::empty(),
            ..saved
        }
    }

    /// Whether the cursor of the focused field's buffer stands at the start.
    /// A field without a buffer counts as at the start.
    pub open spec fn is_cursor_at_start(self) -> bool {
        match self.current_detail_field {
            DetailField::Url => self.url_textarea.at_start(),
            DetailField::Body => self.body_textarea.at_start(),
            DetailField::AuthUsername => self.auth_username_textarea.at_start(),
            DetailField::AuthPassword => self.auth_password_textarea.at_start(),
            _ => true,
        }
    }

    /// The scheme of the selected request switched to the other one.
    pub open spec fn toggle_auth_type(self) -> AppView {
        self.map_selected(|d: DetailsView| d.with_auth_type(d.auth_type.other()))
    }

    /// The buffers filled from the selected request.
    pub open spec fn sync_textarea_content(self) -> AppView {
        match self.selected_request() {
            Some(request) => AppView {
                url_textarea: BufferView::holding(request.details.url),
                body_textarea: BufferView::holding(request.details.body),
                auth_username_textarea: BufferView::holding(
                    match request.details.auth_details {
                        Some(c) => c.username,
                        None => Seq::empty(),
                    },
                ),
                auth_password_textarea: BufferView::holding(
                    match request.details.auth_details {
                        Some(c) => c.password,
                        None => Seq::empty(),
                    },
                ),
                ..self
            },
            None => self,
        }
    }

    /// The buffers written back into the selected request.
    pub open spec fn save_textarea_content(self) -> AppView {
        let url = self.url_textarea.text;
        let body = self.body_textarea.text;
        let username = self.auth_username_textarea.text;
        let password = self.auth_password_textarea.text;
        self.map_selected(|d: DetailsView| d.with_buffers(url, body, username, password))
    }

    pub open spec fn next_group(self) -> AppView {
        if self.groups_vec.len() > 0 {
            AppView { selected_index: next_index(self.selected_index, self.groups_vec.len()), ..self }
        } else {
            self
        }
    }

    pub open spec fn previous_group(self) -> AppView {
        if self.groups_vec.len() > 0 {
            AppView {
                selected_index: previous_index(self.selected_index, self.groups_vec.len()),
                ..self
            }
        } else {
            self
        }
    }

    pub open spec fn next_visible_group(self) -> AppView {
        AppView {
            selected_group_index: if self.groups_vec.len() == 0 {
                None
            } else {
                match self.selected_group_index {
                    None => Some(0usize),
                    Some(current) => Some(next_index(current, self.groups_vec.len())),
                }
            },
            ..self
        }
    }

    /// The request that is shown: the selected one, else the one that the
    /// tree's selection leads to.
    pub open spec fn current_request(self) -> Option<RequestView> {
        match self.selected_request() {
            Some(request) => Some(request),
            None => match self.resolve(self.tree_selected) {
                Some((group, index)) => Some(self.list[group][index]),
                None => None,
            },
        }
    }
}

impl App {
    pub fn switch_to_tree(&mut self)
        ensures
            final(self)@ == old(self)@.switch_to_tree(),
    {
        self.active_panel = ActivePanel::Tree;
        self.current_detail_field = DetailField::NoField;
    }

    /// Makes the detail pane active; the focus goes to the URL where no
    /// field had it.
    pub fn switch_to_details(&mut self)
        ensures
            final(self)@ == old(self)@.switch_to_details(),
    {
        self.active_panel = ActivePanel::Details;
        if self.current_detail_field == DetailField::NoField {
            self.current_detail_field = DetailField::Url;
        }
    }

    pub fn start_adding_params(&mut self)
        ensures
            final(self)@ == old(self)@.start_adding_params(),
    {
        self.adding_params = true;
        self.params_key_input = String::new();
        self.params_value_input = String::new();
        self.params_input_mode = ParameterInputMode::Key;
    }

    pub fn save_params(&mut self)
        ensures
            final(self)@ == old(self)@.save_params(),
    {
        let key = self.params_key_input.clone();
        let value = self.params_value_input.clone();
        if !key.as_str().is_empty() && !value.as_str().is_empty() {
            if let Some(request) = self.get_selected_request_mut() {
                request.details.upsert_param(key, value);
            }
        }
        self.adding_params = false;
        self.params_key_input = String::new();
        self.params_value_input = String::new();
    }

    pub fn toggle_params_input_mode(&mut self)
        ensures
            final(self)@ == (AppView {
                params_input_mode: old(self)@.params_input_mode.other(),
                ..old(self)@
            }),
    {
        self.params_input_mode = self.params_input_mode.toggled();
    }

    pub fn start_adding_header(&mut self)
        ensures
            final(self)@ == old(self)@.start_adding_header(),
    {
        self.adding_header = true;
        self.header_key_input = String::new();
        self.header_value_input = String::new();
        self.header_input_mode = HeaderInputMode::Key;
    }

    pub fn save_header(&mut self)
        ensures
            final(self)@ == old(self)@.save_header(),
    {
        let key = self.header_key_input.clone();
        let value = self.header_value_input.clone();
        if !key.as_str().is_empty() && !value.as_str().is_empty() {
            if let Some(request) = self.get_selected_request_mut() {
                request.details.upsert_header(key, value);
            }
        }
        self.adding_header = false;
        self.header_key_input = String::new();
        self.header_value_input = String::new();
    }

    pub fn toggle_header_input_mode(&mut self)
        ensures
            final(self)@ == (AppView {
                header_input_mode: old(self)@.header_input_mode.other(),
                ..old(self)@
            }),
    {
        self.header_input_mode = self.header_input_mode.toggled();
    }

    pub fn is_cursor_at_start(&self) -> (r: bool)
        ensures
            r == self@.is_cursor_at_start(),
    {
        match self.current_detail_field {
            DetailField::Url => self.url_textarea.is_at_start(),
            DetailField::Body => self.body_textarea.is_at_start(),
            DetailField::AuthUsername => self.auth_username_textarea.is_at_start(),
            DetailField::AuthPassword => self.auth_password_textarea.is_at_start(),
            _ => true,
        }
    }

    /// The scheme of the selected request; none where nothing is selected.
    pub fn selected_auth_type(&self) -> (r: AuthType)
        ensures
            r == self@.selected_auth_type(),
    {
        match self.get_selected_request() {
            Some(request) => request.details.auth_type,
            None => AuthType::NoAuth,
        }
    }

    /// The name of the selected request's scheme, `None` where nothing is
    /// selected.
    pub fn get_current_request_auth_type(&self) -> (r: String)
        ensures
            r@ == self@.selected_auth_type().name(),
    {
        String::from_str(self.selected_auth_type().as_str())
    }

    /// Switches the scheme of the selected request to the next one.
    pub fn next_auth_type(&mut self)
        ensures
            final(self)@ == old(self)@.toggle_auth_type(),
    {
        if let Some(request) = self.get_selected_request_mut() {
            let next = request.details.auth_type.next();
            request.details.set_auth_type(next);
        }
    }

    /// Switches the scheme of the selected request to the previous one.
    pub fn previous_auth_type(&mut self)
        ensures
            final(self)@ == old(self)@.toggle_auth_type(),
    {
        if let Some(request) = self.get_selected_request_mut() {
            let previous = request.details.auth_type.previous();
            request.details.set_auth_type(previous);
        }
    }

    /// Fills the four text buffers from the selected request.
    pub fn sync_textarea_content(&mut self)
        ensures
            final(self)@ == old(self)@.sync_textarea_content(),
    {
        let buffers = match self.get_selected_request() {
            Some(request) => {
                let (username, password) = match &request.details.auth_details {
                    AuthDetails::Basic(basic) => (
                        TextBuffer::from_text(basic.username.as_str()),
                        TextBuffer::from_text(basic.password.as_str()),
                    ),
                    AuthDetails::NoAuth => (TextBuffer::default(), TextBuffer::default()),
                };
                Some(
                    (
                        TextBuffer::from_text(request.details.url.as_str()),
                        TextBuffer::from_text(request.details.body.as_str()),
                        username,
                        password,
                    ),
                )
            },
            None => None,
        };
        if let Some((url, body, username, password)) = buffers {
            self.url_textarea = url;
            self.body_textarea = body;
            self.auth_username_textarea = username;
            self.auth_password_textarea = password;
        }
    }

    /// Writes the four text buffers back into the selected request and
    /// derives its `Authorization` header anew.
    pub fn save_textarea_content(&mut self)
        ensures
            final(self)@ == old(self)@.save_textarea_content(),
    {
        let url = self.url_textarea.text.clone();
        let body = self.body_textarea.text.clone();
        let username = self.auth_username_textarea.text.clone();
        let password = self.auth_password_textarea.text.clone();
        if let Some(request) = self.get_selected_request_mut() {
            request.details.apply_buffers(
                url.as_str(),
                body.as_str(),
                username.as_str(),
                password.as_str(),
            );
        }
    }

    /// Reads the sorted names of the groups anew.
    pub fn update_groups_vec(&mut self)
        ensures
            final(self)@ == (AppView { groups_vec: old(self)@.list_names, ..old(self)@ }),
            crate::groups::strictly_sorted(final(self)@.groups_vec),
    {
        self.groups_vec = self.list.list_groups();
    }

    pub fn next_group(&mut self)
        ensures
            final(self)@ == old(self)@.next_group(),
    {
        if self.groups_vec.len() > 0 {
            self.selected_index = step_index(self.selected_index, self.groups_vec.len());
        }
    }

    pub fn previous_group(&mut self)
        ensures
            final(self)@ == old(self)@.previous_group(),
    {
        if self.groups_vec.len() > 0 {
            self.selected_index = if self.selected_index == 0 {
                self.groups_vec.len() - 1
            } else {
                self.selected_index - 1
            };
        }
    }

    pub fn next_request_type(&mut self)
        ensures
            final(self)@ == (AppView {
                selected_request_type: old(self)@.selected_request_type.successor(),
                ..old(self)@
            }),
    {
        self.selected_request_type = self.selected_request_type.next();
    }

    pub fn previous_request_type(&mut self)
        ensures
            final(self)@ == (AppView {
                selected_request_type: old(self)@.selected_request_type.predecessor(),
                ..old(self)@
            }),
    {
        self.selected_request_type = self.selected_request_type.previous();
    }

    pub fn next_visible_group(&mut self)
        ensures
            final(self)@ == old(self)@.next_visible_group(),
    {
        if self.groups_vec.len() == 0 {
            self.selected_group_index = None;
            return ;
        }
        self.selected_group_index = Some(
            match self.selected_group_index {
                None => 0,
                Some(current) => step_index(current, self.groups_vec.len()),
            },
        );
    }
}

/// A group as it is loaded: its name and what its requests stand for.
pub type LoadedGroup = (Seq<char>, Seq<RequestView>);

/// What a vector of loaded groups stands for.
pub open spec fn loaded_view(loaded: Seq<(String, Vec<ApiRequest>)>) -> Seq<LoadedGroup> {
    loaded.map_values(|g: (String, Vec<ApiRequest>)| (g.0@, request_views(g.1@)))
}

/// The groups after `loaded` have been put in one after the other. A name
/// that comes again replaces the group of that name.
pub open spec fn load_into(
    list: Map<Seq<char>, Seq<RequestView>>,
    loaded: Seq<LoadedGroup>,
) -> Map<Seq<char>, Seq<RequestView>>
    decreases loaded.len(),
{
    if loaded.len() == 0 {
        list
    } else {
        load_into(list, loaded.drop_last()).insert(loaded.last().0, loaded.last().1)
    }
}

/// The sorted names after `loaded` have been put in one after the other.
pub open spec fn load_names(names: Seq<Seq<char>>, loaded: Seq<LoadedGroup>) -> Seq<Seq<char>>
    decreases loaded.len(),
{
    if loaded.len() == 0 {
        names
    } else {
        sorted_insert(load_names(names, loaded.drop_last()), loaded.last().0)
    }
}

/// The words that ask whether the pending deletion is meant.
pub open spec fn confirmation_message(pending: Option<Address>) -> Seq<char> {
    match pending {
        Some(Address::Request(_, name)) => "Are you sure you want to delete request '"@ + name
            + "'? (y/n)"@,
        Some(Address::Group(name)) => "Are you sure you want to delete group '"@ + name
            + "' and all its requests? (y/n)"@,
        _ => "Are you sure you want to delete this item? (y/n)"@,
    }
}

impl AppView {
    /// The state after `loaded` have been put in and the sorted names read
    /// anew.
    pub open spec fn load_groups(self, loaded: Seq<LoadedGroup>) -> AppView {
        AppView {
            list: load_into(self.list, loaded),
            list_names: load_names(self.list_names, loaded),
            groups_vec: load_names(self.list_names, loaded),
            ..self
        }
    }

    /// The selection follows the tree: a group's node selects the group, a
    /// request's node that leads to a request selects its group.
    pub open spec fn handle_tree_selection(self) -> AppView {
        match self.tree_selected {
            Some(Address::Request(group, name)) => {
                if self.resolve(self.tree_selected) is Some {
                    AppView { selected_group_index: self.group_index(group), ..self }
                } else {
                    self
                }
            },
            Some(Address::Group(group)) => AppView {
                selected_group_index: self.group_index(group),
                ..self
            },
            _ => self,
        }
    }

    /// Where the tree's selection leads to a request, that request is
    /// selected and shown on the screen of its own.
    pub open spec fn handle_tree_enter(self) -> AppView {
        match self.resolve(self.tree_selected) {
            Some((group, index)) => AppView {
                selected_group_index: Some(
                    match self.group_index(group) {
                        Some(g) => g,
                        None => 0usize,
                    },
                ),
                selected_request_index: Some(index as usize),
                current_screen: CurrentScreen::RequestDetail,
                ..self
            },
            None => self.handle_tree_selection(),
        }
    }

    /// The selection after the tree's cursor has moved: onto a request that
    /// is there, that request with the buffers filled from it; onto any
    /// other node, no request.
    pub open spec fn update_selection_from_tree(self) -> AppView {
        match self.tree_selected {
            Some(Address::Request(group, name)) => {
                match (self.group_index(group), self.resolve(self.tree_selected)) {
                    (Some(g), Some((_, index))) => AppView {
                        selected_group_index: Some(g),
                        selected_request_index: Some(index as usize),
                        ..self
                    }.sync_textarea_content(),
                    _ => self,
                }
            },
            Some(_) => AppView { selected_request_index: None, ..self },
            None => self,
        }
    }

    /// The screen for a new request of `group` opens; the tree's selection
    /// goes to the group where it exists.
    pub open spec fn add_request(self, group: Seq<char>) -> AppView {
        AppView {
            selected_group: Some(group),
            current_screen: CurrentScreen::AddingRequest,
            tree_selected: if self.list.contains_key(group) {
                Some(Address::Group(group))
            } else {
                self.tree_selected
            },
            ..self
        }
    }

    /// The group named in the input is created, unless the name is taken;
    /// the input closes either way. Nothing happens on an empty input.
    pub open spec fn save_group(self) -> AppView {
        if self.key_input.len() == 0 {
            self
        } else {
            match check_new_group(self.list, self.key_input) {
                Ok(_) => AppView {
                    list: self.list.insert(self.key_input, Seq::empty()),
                    list_names: sorted_insert(self.list_names, self.key_input),
                    groups_vec: sorted_insert(self.list_names, self.key_input),
                    key_input: Seq::empty(),
                    groups: None,
                    last_error: None,
                    ..self
                },
                Err(e) => AppView {
                    key_input: Seq::empty(),
                    groups: None,
                    last_error: Some(AppError::Validation(e)),
                    ..self
                },
            }
        }
    }

    /// The request named in the input is created at the end of the chosen
    /// group, with the chosen method and nothing else set, and the tree's
    /// selection goes to it. A refusal is recorded and changes nothing else.
    pub open spec fn save_request(self) -> AppView {
        match self.selected_group {
            Some(group) => match check_new_request(self.list, group, self.request_name_input) {
                Ok(_) => AppView {
                    list: self.list.insert(
                        group,
                        self.list[group].push(
                            ApiRequest::fresh(self.request_name_input, self.selected_request_type),
                        ),
                    ),
                    url_textarea: BufferView::holding(Seq::empty()),
                    body_textarea: BufferView::holding(Seq::empty()),
                    auth_username_textarea: BufferView::holding(Seq::empty()),
                    auth_password_textarea: BufferView::holding(Seq::empty()),
                    tree_selected: Some(Address::Request(group, self.request_name_input)),
                    request_name_input: Seq::empty(),
                    selected_request_type: RequestType::GET,
                    last_error: None,
                    ..self
                },
                Err(e) => AppView { last_error: Some(AppError::Validation(e)), ..self },
            },
            None => self,
        }
    }

    /// The tree's selection becomes the pending deletion.
    pub open spec fn start_delete_confirmation(self) -> AppView {
        match self.tree_selected {
            Some(address) => AppView {
                current_screen: CurrentScreen::DeleteConfirm,
                pending_delete_id: Some(address),
                ..self
            },
            None => self,
        }
    }

    /// The pending request leaves its group; the tree's selection goes to
    /// the group and no request is selected.
    pub open spec fn delete_selected_request(self) -> AppView {
        match self.pending_delete_id {
            Some(Address::Request(group, name)) => {
                if self.list.contains_key(group) && has_request(self.list[group], name) {
                    AppView {
                        list: without_request(self.list, group, name),
                        tree_selected: Some(Address::Group(group)),
                        selected_request_index: None,
                        ..self
                    }
                } else {
                    self
                }
            },
            _ => self,
        }
    }

    /// The state without the group `name`: the sorted names read anew, the
    /// tree's selection at the root, nothing selected.
    pub open spec fn without_group(self, name: Seq<char>) -> AppView {
        AppView {
            list: self.list.remove(name),
            list_names: sorted_remove(self.list_names, name),
            groups_vec: sorted_remove(self.list_names, name),
            tree_selected: Some(Address::Root),
            selected_group_index: None,
            selected_request_index: None,
            ..self
        }
    }

    /// The pending group leaves with its requests.
    pub open spec fn delete_selected_group(self) -> AppView {
        match self.pending_delete_id {
            Some(Address::Group(name)) => self.without_group(name),
            _ => self,
        }
    }

    /// The pending deletion is carried out and is pending no longer.
    pub open spec fn confirm_delete_selected(self) -> AppView {
        let deleted = match self.pending_delete_id {
            Some(Address::Request(_, _)) => self.delete_selected_request(),
            Some(Address::Group(_)) => self.delete_selected_group(),
            _ => self,
        };
        AppView { pending_delete_id: None, ..deleted }
    }

    /// The group named in the input leaves with its requests, and the input
    /// closes. Nothing happens on an empty input.
    pub open spec fn delete_group(self) -> AppView {
        if self.key_input.len() == 0 {
            self
        } else {
            AppView { key_input: Seq::empty(), groups: None, ..self.without_group(self.key_input) }
        }
    }

    /// Whether a request can be sent: one is selected and none is on its
    /// way.
    pub open spec fn can_send(self) -> bool {
        !self.is_sending && self.selected_request() is Some
    }
}

impl App {
    /// Puts the loaded groups in, one after the other, and reads the sorted
    /// names anew.
    pub fn load_groups(&mut self, loaded: Vec<(String, Vec<ApiRequest>)>)
        ensures
            final(self)@ == old(self)@.load_groups(loaded_view(loaded@)),
    {
        let mut loaded = loaded;
        let ghost all = loaded_view(loaded@);
        let ghost start = self@;
        let ghost mut done: int = 0;
        proof {
            assert(all.take(0) =~= Seq::<LoadedGroup>::empty());
            assert(all.skip(0) =~= all);
        }
        while loaded.len() > 0
            invariant
                0 <= done <= all.len(),
                loaded_view(loaded@) == all.skip(done),
                self@ == (AppView {
                    list: load_into(start.list, all.take(done)),
                    list_names: load_names(start.list_names, all.take(done)),
                    ..start
                }),
            decreases loaded@.len(),
        {
            let ghost before = loaded@;
            let ghost head = loaded_view(before)[0];
            let (name, requests) = loaded.remove(0);
            proof {
                assert(head == (name@, request_views(requests@)));
                assert(loaded_view(before).len() == before.len());
                assert(all.skip(done).len() == all.len() - done);
                assert(all.skip(done)[0] == all[done]);
                assert(loaded@ == before.remove(0));
                assert(loaded_view(loaded@) =~= loaded_view(before).remove(0));
                assert(all.skip(done).remove(0) =~= all.skip(done + 1));
                assert(all.take(done + 1).drop_last() =~= all.take(done));
                assert(all.take(done + 1).last() == head);
                done = done + 1;
            }
            self.list.insert(name, requests);
        }
        proof {
            assert(all.take(done) =~= all);
        }
        self.update_groups_vec();
    }

    /// Follows the tree's selection and returns the group and the index of
    /// the request that it leads to.
    pub fn handle_tree_selection(&mut self) -> (r: Option<(String, usize)>)
        ensures
            final(self)@ == old(self)@.handle_tree_selection(),
            match r {
                Some((group, index)) => old(self)@.resolve(old(self)@.tree_selected) == Some(
                    (group@, index as int),
                ),
                None => old(self)@.resolve(old(self)@.tree_selected) is None,
            },
    {
        match &self.tree_state.selected {
            Some(NodeId::Request(group, name)) => {
                match self.list.get(group.as_str()) {
                    Some(requests) => match request_position(requests, name.as_str()) {
                        Some(index) => {
                            let found = group.clone();
                            self.selected_group_index = position_of(
                                &self.groups_vec,
                                found.as_str(),
                            );
                            Some((found, index))
                        },
                        None => None,
                    },
                    None => None,
                }
            },
            Some(NodeId::Group(group)) => {
                self.selected_group_index = position_of(&self.groups_vec, group.as_str());
                None
            },
            _ => None,
        }
    }

    /// Opens the request that the tree's selection leads to.
    pub fn handle_tree_enter(&mut self)
        ensures
            final(self)@ == old(self)@.handle_tree_enter(),
    {
        if let Some((group, index)) = self.handle_tree_selection() {
            self.selected_group_index = Some(
                match position_of(&self.groups_vec, group.as_str()) {
                    Some(g) => g,
                    None => 0,
                },
            );
            self.selected_request_index = Some(index);
            self.current_screen = CurrentScreen::RequestDetail;
        }
    }

    /// The request that is shown: the selected one, else the one that the
    /// tree's selection leads to.
    pub fn get_current_request(&self) -> (r: Option<&ApiRequest>)
        ensures
            match r {
                Some(request) => self@.current_request() == Some(request@),
                None => self@.current_request() is None,
            },
    {
        if let Some(request) = self.get_selected_request() {
            return Some(request);
        }
        match &self.tree_state.selected {
            Some(NodeId::Request(group, name)) => {
                match self.list.get(group.as_str()) {
                    Some(requests) => match request_position(requests, name.as_str()) {
                        Some(index) => Some(&requests[index]),
                        None => None,
                    },
                    None => None,
                }
            },
            _ => None,
        }
    }

    /// Brings the selection in line with the tree's selection.
    pub fn update_selection_from_tree(&mut self)
        ensures
            final(self)@ == old(self)@.update_selection_from_tree(),
    {
        let target = match &self.tree_state.selected {
            Some(NodeId::Request(group, name)) => {
                match position_of(&self.groups_vec, group.as_str()) {
                    Some(g) => match self.list.get(group.as_str()) {
                        Some(requests) => match request_position(requests, name.as_str()) {
                            Some(index) => Some((Some(g), Some(index), true)),
                            None => None,
                        },
                        None => None,
                    },
                    None => None,
                }
            },
            Some(_) => Some((self.selected_group_index, None, false)),
            None => None,
        };
        if let Some((group_index, request_index, sync)) = target {
            self.selected_group_index = group_index;
            self.selected_request_index = request_index;
            if sync {
                self.sync_textarea_content();
            }
        }
    }

    /// Opens the screen for a new request of the group `group_name`.
    pub fn add_request(&mut self, group_name: String)
        ensures
            final(self)@ == old(self)@.add_request(group_name@),
    {
        if self.list.contains_key(group_name.as_str()) {
            self.tree_state.select(NodeId::Group(group_name.clone()));
        }
        self.selected_group = Some(group_name);
        self.current_screen = CurrentScreen::AddingRequest;
    }

    /// Creates the group named in the input.
    pub fn save_group(&mut self)
        ensures
            final(self)@ == old(self)@.save_group(),
    {
        if !self.key_input.as_str().is_empty() {
            match self.list.create_group(self.key_input.as_str()) {
                Ok(_) => {
                    self.update_groups_vec();
                    self.last_error = None;
                },
                Err(e) => {
                    self.last_error = Some(AppError::Validation(e));
                },
            }
            self.key_input = String::new();
            self.groups = None;
        }
    }

    /// Creates the request named in the input in the chosen group.
    pub fn save_request(&mut self)
        ensures
            final(self)@ == old(self)@.save_request(),
    {
        let group = match &self.selected_group {
            Some(group) => group.clone(),
            None => {
                return ;
            },
        };
        match self.list.create_request(
            group.as_str(),
            self.request_name_input.as_str(),
            self.selected_request_type,
        ) {
            Ok(_) => {
                self.url_textarea = TextBuffer::default();
                self.body_textarea = TextBuffer::default();
                self.auth_username_textarea = TextBuffer::default();
                self.auth_password_textarea = TextBuffer::default();
                self.tree_state.select(NodeId::Request(group, self.request_name_input.clone()));
                self.request_name_input = String::new();
                self.selected_request_type = RequestType::GET;
                self.last_error = None;
            },
            Err(e) => {
                self.last_error = Some(AppError::Validation(e));
            },
        }
    }

    /// Makes the tree's selection the pending deletion and asks whether it
    /// is meant.
    pub fn start_delete_confirmation(&mut self)
        ensures
            final(self)@ == old(self)@.start_delete_confirmation(),
    {
        let pending = match &self.tree_state.selected {
            Some(id) => Some(id.clone()),
            None => None,
        };
        if pending.is_some() {
            self.current_screen = CurrentScreen::DeleteConfirm;
            self.pending_delete_id = pending;
        }
    }

    /// Deletes the pending request.
    pub fn delete_selected_request(&mut self)
        ensures
            final(self)@ == old(self)@.delete_selected_request(),
    {
        let target = match &self.pending_delete_id {
            Some(NodeId::Request(group, name)) => Some((group.clone(), name.clone())),
            _ => None,
        };
        if let Some((group, name)) = target {
            if self.list.delete_request(group.as_str(), name.as_str()) {
                self.tree_state.select(NodeId::Group(group));
                self.selected_request_index = None;
            }
        }
    }

    /// Deletes the pending group with its requests.
    pub fn delete_selected_group(&mut self)
        ensures
            final(self)@ == old(self)@.delete_selected_group(),
    {
        let target = match &self.pending_delete_id {
            Some(NodeId::Group(name)) => Some(name.clone()),
            _ => None,
        };
        if let Some(name) = target {
            self.remove_group(name.as_str());
        }
    }

    fn remove_group(&mut self, name: &str)
        ensures
            final(self)@ == old(self)@.without_group(name@),
    {
        self.list.delete_group(name);
        self.update_groups_vec();
        self.tree_state.select(NodeId::Root);
        self.selected_group_index = None;
        self.selected_request_index = None;
    }

    /// Carries out the pending deletion.
    pub fn confirm_delete_selected(&mut self)
        ensures
            final(self)@ == old(self)@.confirm_delete_selected(),
    {
        let kind: u8 = match &self.pending_delete_id {
            Some(NodeId::Request(_, _)) => 1,
            Some(NodeId::Group(_)) => 2,
            _ => 0,
        };
        if kind == 1 {
            self.delete_selected_request();
        } else if kind == 2 {
            self.delete_selected_group();
        }
        self.pending_delete_id = None;
    }

    /// The words that ask whether the pending deletion is meant.
    pub fn get_delete_confirmation_message(&self) -> (r: String)
        ensures
            r@ == confirmation_message(self@.pending_delete_id),
    {
        match &self.pending_delete_id {
            Some(NodeId::Request(_, name)) => {
                let mut text = String::from_str("Are you sure you want to delete request '");
                text.append(name.as_str());
                text.append("'? (y/n)");
                text
            },
            Some(NodeId::Group(name)) => {
                let mut text = String::from_str("Are you sure you want to delete group '");
                text.append(name.as_str());
                text.append("' and all its requests? (y/n)");
                text
            },
            _ => String::from_str("Are you sure you want to delete this item? (y/n)"),
        }
    }

    /// Deletes the group named in the input.
    pub fn delete_group(&mut self)
        ensures
            final(self)@ == old(self)@.delete_group(),
    {
        if !self.key_input.as_str().is_empty() {
            let name = self.key_input.clone();
            self.remove_group(name.as_str());
            self.key_input = String::new();
            self.groups = None;
        }
    }

    /// Asks whether to leave, from whatever screen.
    pub fn request_exit(&mut self)
        ensures
            final(self)@ == (AppView { current_screen: CurrentScreen::Exiting, ..old(self)@ }),
    {
        self.current_screen = CurrentScreen::Exiting;
    }

    /// Takes the copy of the selected request that is to be sent, and notes
    /// that a request is on its way. Nothing is taken while another is on
    /// its way, or where no request is selected.
    pub fn begin_send(&mut self) -> (r: Option<OutboundRequest>)
        ensures
            r is Some == old(self)@.can_send(),
            final(self)@ == (AppView {
                is_sending: old(self)@.is_sending || old(self)@.can_send(),
                ..old(self)@
            }),
            match r {
                Some(out) => {
                    let request = old(self)@.selected_request()->0;
                    &&& out@.method == request.request_type
                    &&& out@.url == request.details.url
                    &&& crate::string_map::pairs_to_map(out@.headers) == request.details.headers
                    &&& crate::string_map::pairs_to_map(out@.params) == request.details.params
                    &&& crate::string_map::distinct_keys(out@.headers)
                    &&& crate::string_map::distinct_keys(out@.params)
                    &&& out@.body == crate::requests::outbound_body(
                        request.request_type,
                        request.details.body,
                    )
                },
                None => true,
            },
    {
        if self.is_sending {
            return None;
        }
        let out = match self.get_selected_request() {
            Some(request) => Some(snapshot(request)),
            None => None,
        };
        if out.is_some() {
            self.is_sending = true;
        }
        out
    }

    /// Keeps the answer to the request that was on its way, or the record
    /// of its failure, in place of any earlier one.
    pub fn finish_send(&mut self, outcome: Result<RequestResponse, NetworkError>)
        ensures
            final(self)@ == (AppView {
                is_sending: false,
                last_response: Some(
                    match outcome {
                        Ok(response) => response@,
                        Err(error) => failure_view(error),
                    },
                ),
                ..old(self)@
            }),
    {
        self.last_response = Some(
            match outcome {
                Ok(response) => response,
                Err(error) => RequestResponse::from_error(error),
            },
        );
        self.is_sending = false;
    }
}

/// Writing the buffers back twice, with no edit in between, leaves the state
/// that writing them back once leaves.
pub proof fn lemma_save_textarea_content_idempotent(state: AppView)
    ensures
        state.save_textarea_content().save_textarea_content() == state.save_textarea_content(),
{
    let once = state.save_textarea_content();
    let twice = once.save_textarea_content();
    match state.selected_address() {
        Some((group, index)) => {
            let request = state.list[group][index];
            let flushed = request.details.with_buffers(
                state.url_textarea.text,
                state.body_textarea.text,
                state.auth_username_textarea.text,
                state.auth_password_textarea.text,
            );
            crate::models::lemma_flush_idempotent(
                request.details,
                state.url_textarea.text,
                state.body_textarea.text,
                state.auth_username_textarea.text,
                state.auth_password_textarea.text,
            );
            assert(once.selected_address() == Some((group, index)));
            let kept = once.list[group][index];
            assert(kept.details == flushed);
            assert(once.selected_request() == Some(kept));
            assert(twice == once.with_selected(
                RequestView {
                    details: flushed.with_buffers(
                        once.url_textarea.text,
                        once.body_textarea.text,
                        once.auth_username_textarea.text,
                        once.auth_password_textarea.text,
                    ),
                    ..kept
                },
            ));
            assert(once.list[group].update(index, kept) =~= once.list[group]);
            assert(once.list.insert(group, once.list[group]) =~= once.list);
        },
        None => {},
    }
}

/// Once a group has been deleted, no request is selected, the group is
/// gone from the groups and, where the names were sorted, from the sorted
/// names.
pub proof fn lemma_deleted_group_deselected(state: AppView, name: Seq<char>)
    requires
        crate::groups::strictly_sorted(state.list_names),
    ensures
        state.without_group(name).selected_request() is None,
        !state.without_group(name).list.contains_key(name),
        !state.without_group(name).list_names.contains(name),
        !state.without_group(name).groups_vec.contains(name),
{
    crate::groups::lemma_sorted_remove(state.list_names, name);
}

} // verus!

//! The core of a terminal client for HTTP APIs: the model of groups and
//! requests, the tree that shows them, the state machine behind the keys,
//! and the shapes in which requests are stored and sent.

pub mod encoding;
pub mod groups;
pub mod input;
pub mod models;
pub mod requests;
pub mod state;
pub mod storage;
pub mod string_map;
pub mod text;
pub mod tree;
pub mod ui_state;

pub use groups::{GroupList, ValidationError};
pub use input::{Action, KeyCode, KeyEvent, Operation, StoreCommand, TreeMove};
pub use models::{ApiRequest, AuthDetails, AuthType, BasicAuth, RequestDetails, RequestType};
pub use requests::{NetworkError, OutboundRequest, RequestResponse};
pub use state::{App, AppError, CurrentScreen, Groups, TextBuffer};
pub use string_map::StringMap;
pub use tree::{Node, NodeId, Tree, TreeNode, TreeState};
pub use ui_state::{ActivePanel, DetailField, HeaderInputMode, ParameterInputMode};

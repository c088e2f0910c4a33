//! The tree of groups and requests that the interface browses, and the
//! addresses of its nodes.

use vstd::prelude::*;
use vstd::string::*;
use crate::groups::GroupList;
use crate::models::{ApiRequest, RequestType, RequestView};

verus! {

/// The address of a node: the root, a group, or a request within a group.
#[derive(Debug)]
pub enum NodeId {
    Root,
    Group(String),
    Request(String, String),
}

/// What a `NodeId` stands for.
pub enum Address {
    Root,
    Group(Seq<char>),
    Request(Seq<char>, Seq<char>),
}

impl View for NodeId {
    type V = Address;

    open spec fn view(&self) -> Address {
        match self {
            NodeId::Root => Address::Root,
            NodeId::Group(name) => Address::Group(name@),
            NodeId::Request(group, name) => Address::Request(group@, name@),
        }
    }
}

impl Address {
    /// The key under which a widget knows the node: `/` for the root,
    /// `group-` and the name for a group, `request-`, the group, `-` and the
    /// name for a request.
    pub open spec fn key(self) -> Seq<char> {
        match self {
            Address::Root => "/"@,
            Address::Group(name) => "group-"@ + name,
            Address::Request(group, name) => "request-"@ + group + "-"@ + name,
        }
    }
}

impl Clone for NodeId {
    fn clone(&self) -> (r: Self)
        ensures
            r@ == self@,
    {
        match self {
            NodeId::Root => NodeId::Root,
            NodeId::Group(name) => NodeId::Group(name.clone()),
            NodeId::Request(group, name) => NodeId::Request(group.clone(), name.clone()),
        }
    }
}

impl NodeId {
    /// The key under which a widget knows the node.
    pub fn key(&self) -> (r: String)
        ensures
            r@ == self@.key(),
    {
        match self {
            NodeId::Root => String::from_str("/"),
            NodeId::Group(name) => {
                let mut key = String::from_str("group-");
                key.append(name.as_str());
                key
            },
            NodeId::Request(group, name) => {
                let mut key = String::from_str("request-");
                key.append(group.as_str());
                key.append("-");
                key.append(name.as_str());
                key
            },
        }
    }
}

/// The sign that marks a method in a label.
pub open spec fn method_symbol(method: RequestType) -> Seq<char> {
    match method {
        RequestType::GET => "\u{25cb}"@,
        RequestType::POST => "+"@,
        RequestType::PUT => "\u{21ba}"@,
        RequestType::DELETE => "-"@,
        RequestType::PATCH => "~"@,
    }
}

/// The label of a request: the method's sign, the method and the name.
pub open spec fn request_label(method: RequestType, name: Seq<char>) -> Seq<char> {
    method_symbol(method) + " "@ + method.name() + " "@ + name
}

/// What a node shows: a label and, for a request, its method.
#[derive(Clone, Debug, Default)]
pub struct TreeNode {
    pub text: String,
    pub method: Option<RequestType>,
}

impl TreeNode {
    pub fn new(text: String) -> (r: Self)
        ensures
            r.text == text,
            r.method is None,
    {
        TreeNode { text, method: None }
    }

    /// A node that is drawn in the style of `method`.
    pub fn with_style(text: String, method: RequestType) -> (r: Self)
        ensures
            r.text == text,
            r.method == Some(method),
    {
        TreeNode { text, method: Some(method) }
    }

    /// The node of a request.
    pub fn for_request(method: RequestType, name: &str) -> (r: Self)
        ensures
            r.text@ == request_label(method, name@),
            r.method == Some(method),
    {
        let symbol = match method {
            RequestType::GET => "\u{25cb}",
            RequestType::POST => "+",
            RequestType::PUT => "\u{21ba}",
            RequestType::DELETE => "-",
            RequestType::PATCH => "~",
        };
        let mut text = String::from_str(symbol);
        text.append(" ");
        text.append(method.as_str());
        text.append(" ");
        text.append(name);
        TreeNode::with_style(text, method)
    }
}

/// A node of the tree with the nodes below it.
#[derive(Debug)]
pub struct Node {
    pub id: NodeId,
    pub value: TreeNode,
    pub children: Vec<Node>,
}

/// The tree of groups and requests below one root.
#[derive(Debug)]
pub struct Tree {
    pub root: Node,
}

impl Node {
    pub fn new(id: NodeId, value: TreeNode) -> (r: Self)
        ensures
            r.id == id,
            r.value == value,
            r.children@.len() == 0,
    {
        Node { id, value, children: Vec::new() }
    }

    /// The key under which a widget knows the node.
    pub fn id(&self) -> (r: String)
        ensures
            r@ == self.id@.key(),
    {
        self.id.key()
    }

    pub fn add_child(&mut self, child: Node)
        ensures
            final(self).id == old(self).id,
            final(self).value == old(self).value,
            final(self).children@ == old(self).children@.push(child),
    {
        self.children.push(child);
    }

    pub fn children(&self) -> (r: &Vec<Node>)
        ensures
            r == &self.children,
    {
        &self.children
    }
}

impl Tree {
    pub fn new(root: Node) -> (r: Self)
        ensures
            r.root == root,
    {
        Tree { root }
    }

    pub fn root(&self) -> (r: &Node)
        ensures
            r == &self.root,
    {
        &self.root
    }
}

/// `node` is the leaf that shows `request` of the group `group`.
pub open spec fn is_request_node(node: Node, group: Seq<char>, request: RequestView) -> bool {
    &&& node.id@ == Address::Request(group, request.name)
    &&& node.value.text@ == request_label(request.request_type, request.name)
    &&& node.value.method == Some(request.request_type)
    &&& node.children@.len() == 0
}

/// `node` shows the group `name` with `requests` below it, in their order.
pub open spec fn is_group_node(node: Node, name: Seq<char>, requests: Seq<RequestView>) -> bool {
    &&& node.id@ == Address::Group(name)
    &&& node.value.text@ == name
    &&& node.value.method is None
    &&& node.children@.len() == requests.len()
    &&& forall|j: int|
        0 <= j < requests.len() ==> is_request_node(#[trigger] node.children@[j], name, requests[j])
}

/// `tree` shows the groups named `names`, in that order, below one root.
pub open spec fn is_projection(
    tree: Tree,
    names: Seq<Seq<char>>,
    groups: Map<Seq<char>, Seq<RequestView>>,
) -> bool {
    &&& tree.root.id@ == Address::Root
    &&& tree.root.value.text@ == "API Groups"@
    &&& tree.root.value.method is None
    &&& tree.root.children@.len() == names.len()
    &&& forall|i: int|
        0 <= i < names.len() ==> is_group_node(
            #[trigger] tree.root.children@[i],
            names[i],
            groups[names[i]],
        )
}

/// In the tree of groups whose names are sorted and whose requests have
/// distinct names within each group, no two nodes have the same address.
pub proof fn lemma_addresses_distinct(
    tree: Tree,
    names: Seq<Seq<char>>,
    groups: Map<Seq<char>, Seq<RequestView>>,
)
    requires
        is_projection(tree, names, groups),
        crate::groups::strictly_sorted(names),
        forall|i: int|
            0 <= i < names.len() ==> crate::groups::unique_request_names(
                #[trigger] groups[names[i]],
            ),
    ensures
        forall|i: int, j: int|
            0 <= i < names.len() && 0 <= j < names.len() && i != j ==> (
            #[trigger] tree.root.children@[i]).id@ != (#[trigger] tree.root.children@[j]).id@,
        forall|i: int, a: int, j: int, b: int|
            0 <= i < names.len() && 0 <= a < groups[names[i]].len() && 0 <= j < names.len() && 0
                <= b < groups[names[j]].len() && (i != j || a != b) ==> (
            #[trigger] tree.root.children@[i].children@[a]).id@ != (
            #[trigger] tree.root.children@[j].children@[b]).id@,
        forall|i: int, a: int|
            0 <= i < names.len() && 0 <= a < groups[names[i]].len() ==> (
            #[trigger] tree.root.children@[i].children@[a]).id@ is Request,
        forall|i: int| 0 <= i < names.len() ==> (#[trigger] tree.root.children@[i]).id@ is Group,
{
    crate::groups::lemma_sorted_distinct(names);
    assert forall|i: int, j: int|
        0 <= i < names.len() && 0 <= j < names.len() && i != j implies (
    #[trigger] tree.root.children@[i]).id@ != (#[trigger] tree.root.children@[j]).id@ by {
        assert(is_group_node(tree.root.children@[i], names[i], groups[names[i]]));
        assert(is_group_node(tree.root.children@[j], names[j], groups[names[j]]));
        assert(names[i] != names[j]);
    }
    assert forall|i: int, a: int, j: int, b: int|
        0 <= i < names.len() && 0 <= a < groups[names[i]].len() && 0 <= j < names.len() && 0 <= b
            < groups[names[j]].len() && (i != j || a != b) implies (
    #[trigger] tree.root.children@[i].children@[a]).id@ != (
    #[trigger] tree.root.children@[j].children@[b]).id@ by {
        let left = tree.root.children@[i];
        let right = tree.root.children@[j];
        assert(is_group_node(left, names[i], groups[names[i]]));
        assert(is_group_node(right, names[j], groups[names[j]]));
        assert(is_request_node(left.children@[a], names[i], groups[names[i]][a]));
        assert(is_request_node(right.children@[b], names[j], groups[names[j]][b]));
        if i != j {
            assert(names[i] != names[j]);
        } else {
            assert(crate::groups::unique_request_names(groups[names[i]]));
            assert(groups[names[i]][a].name != groups[names[i]][b].name);
        }
    }
    assert forall|i: int, a: int|
        0 <= i < names.len() && 0 <= a < groups[names[i]].len() implies (
    #[trigger] tree.root.children@[i].children@[a]).id@ is Request by {
        let node = tree.root.children@[i];
        assert(is_group_node(node, names[i], groups[names[i]]));
        assert(is_request_node(node.children@[a], names[i], groups[names[i]][a]));
    }
    assert forall|i: int| 0 <= i < names.len() implies (#[trigger] tree.root.children@[i]).id@
        is Group by {
        assert(is_group_node(tree.root.children@[i], names[i], groups[names[i]]));
    }
}

fn group_node(name: &String, requests: &Vec<ApiRequest>) -> (node: Node)
    ensures
        is_group_node(node, name@, crate::groups::request_views(requests@)),
{
    let mut node = Node::new(NodeId::Group(name.clone()), TreeNode::new(name.clone()));
    let mut j: usize = 0;
    while j < requests.len()
        invariant
            j <= requests@.len(),
            node.id@ == Address::Group(name@),
            node.value.text@ == name@,
            node.value.method is None,
            node.children@.len() == j,
            forall|k: int|
                0 <= k < j ==> is_request_node(#[trigger] node.children@[k], name@, requests@[k]@),
        decreases requests@.len() - j,
    {
        let request = &requests[j];
        let leaf = Node::new(
            NodeId::Request(name.clone(), request.name.clone()),
            TreeNode::for_request(request.request_type, request.name.as_str()),
        );
        node.add_child(leaf);
        j += 1;
    }
    node
}

/// Projects the groups onto a tree: the groups in the order of their names,
/// the requests of each group in the order in which the group holds them.
pub fn build_tree(list: &GroupList) -> (tree: Tree)
    ensures
        is_projection(tree, list.names(), list@),
        crate::groups::strictly_sorted(list.names()),
{
    proof {
        use_type_invariant(list);
        list.lemma_names_sorted();
    }
    let mut root = Node::new(NodeId::Root, TreeNode::new(String::from_str("API Groups")));
    let mut i: usize = 0;
    while i < list.len()
        invariant
            i <= list.names().len(),
            root.id@ == Address::Root,
            root.value.text@ == "API Groups"@,
            root.value.method is None,
            root.children@.len() == i,
            forall|k: int|
                0 <= k < i ==> is_group_node(
                    #[trigger] root.children@[k],
                    list.names()[k],
                    list@[list.names()[k]],
                ),
        decreases list.names().len() - i,
    {
        match list.get_index(i) {
            Some((name, requests)) => {
                root.add_child(group_node(name, requests));
            },
            None => {},
        }
        i += 1;
    }
    Tree::new(root)
}

/// Which node of the tree is selected.
#[derive(Debug)]
pub struct TreeState {
    pub selected: Option<NodeId>,
}

impl TreeState {
    pub fn new() -> (r: Self)
        ensures
            r.selected is None,
    {
        TreeState { selected: None }
    }

    pub fn selected(&self) -> (r: Option<&NodeId>)
        ensures
            match r {
                Some(id) => self.selected == Some(*id),
                None => self.selected is None,
            },
    {
        self.selected.as_ref()
    }

    pub fn select(&mut self, id: NodeId)
        ensures
            final(self).selected == Some(id),
    {
        self.selected = Some(id);
    }
}

} // verus!

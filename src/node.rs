use vstd::prelude::*;

verus! {

/// The mathematical model of a message-body node.
pub struct NodeModel {
    pub name: Seq<char>,
    pub text: Option<Seq<char>>,
    pub cdata: Option<Seq<char>>,
    pub children: Seq<NodeModel>,
}

/// A named node of a message body: optional text, optional character data,
/// and an ordered list of child nodes.
#[derive(Debug)]
pub struct Node {
    pub name: String,
    pub text: Option<String>,
    pub cdata: Option<String>,
    pub children: Vec<Node>,
}

pub open spec fn opt_text_view(t: Option<String>) -> Option<Seq<char>> {
    match t {
        Some(s) => Some(s@),
        None => None,
    }
}

/// The model of a node: its fields viewed, and the model of each child.
pub open spec fn node_model(e: Node) -> NodeModel
    decreases e,
{
    NodeModel {
        name: e.name@,
        text: opt_text_view(e.text),
        cdata: opt_text_view(e.cdata),
        children: Seq::new(
            e.children.len() as nat,
            |i: int|
                if 0 <= i < e.children.len() {
                    node_model(e.children[i])
                } else {
                    arbitrary()
                },
        ),
    }
}

impl View for Node {
    type V = NodeModel;

    open spec fn view(&self) -> NodeModel {
        node_model(*self)
    }
}

/// The models of a list of nodes.
pub open spec fn nodes_view(v: Vec<Node>) -> Seq<NodeModel> {
    v@.map_values(|n: Node| n@)
}

/// A node with no children and no character data.
pub open spec fn leaf(name: Seq<char>, text: Option<Seq<char>>) -> NodeModel {
    NodeModel { name, text, cdata: None, children: seq![] }
}

/// A node that holds only children.
pub open spec fn parent(name: Seq<char>, children: Seq<NodeModel>) -> NodeModel {
    NodeModel { name, text: None, cdata: None, children }
}

/// What a node's view says of its fields and its children.
pub proof fn lemma_view_fields(e: &Node)
    ensures
        e@.name == e.name@,
        e@.text == opt_text_view(e.text),
        e@.cdata == opt_text_view(e.cdata),
        e@.children.len() == e.children.len(),
        forall|i: int| 0 <= i < e.children.len() ==> #[trigger] e@.children[i] == e.children[i]@,
{
}

impl Node {
    /// A node named `name`, with no content.
    pub fn new(name: &str) -> (r: Node)
        ensures
            r@.name == name@,
            r@.text is None,
            r@.cdata is None,
            r@.children.len() == 0,
    {
        Node { name: name.to_string(), text: None, cdata: None, children: Vec::new() }
    }

    /// A node named `name` holding `text` and nothing else.
    pub fn leaf(name: &str, text: Option<String>) -> (r: Node)
        ensures
            r@ == leaf(name@, opt_text_view(text)),
    {
        let r = Node { name: String::from_str(name), text, cdata: None, children: Vec::new() };
        proof {
            lemma_view_fields(&r);
        }
        assert(r@.children =~= Seq::<NodeModel>::empty());
        r
    }

    /// A node named `name` holding `children` and nothing else.
    pub fn parent(name: &str, children: Vec<Node>) -> (r: Node)
        ensures
            r@ == parent(name@, nodes_view(children)),
    {
        let r = Node { name: String::from_str(name), text: None, cdata: None, children };
        proof {
            lemma_view_fields(&r);
        }
        assert(r@.children =~= nodes_view(children));
        r
    }

    /// A copy of the whole tree.
    pub fn deep_clone(&self) -> (r: Node)
        ensures
            r@ == self@,
        decreases self,
    {
        let mut children: Vec<Node> = Vec::new();
        let n: usize = self.children.len();
        let mut i: usize = 0;
        while i < n
            invariant
                n == self.children.len(),
                i <= n,
                children.len() == i,
                forall|j: int| 0 <= j < i ==> children[j]@ == self.children[j]@,
            decreases n - i,
        {
            proof {
                vstd::std_specs::vec::axiom_vec_index_decreases(self.children, i as int);
            }
            children.push(self.children[i].deep_clone());
            i = i + 1;
        }
        let r = Node {
            name: self.name.clone(),
            text: clone_text(&self.text),
            cdata: clone_text(&self.cdata),
            children,
        };
        proof {
            lemma_view_fields(&r);
            lemma_view_fields(self);
        }
        assert(r@.children =~= self@.children);
        r
    }

    /// Whether two trees are equal, node by node.
    pub fn same_as(&self, other: &Node) -> (r: bool)
        ensures
            r == (self@ == other@),
        decreases self,
    {
        proof {
            lemma_view_fields(self);
            lemma_view_fields(other);
        }
        if self.name != other.name || !same_text(&self.text, &other.text) || !same_text(
            &self.cdata,
            &other.cdata,
        ) || self.children.len() != other.children.len() {
            return false;
        }
        let n: usize = self.children.len();
        let mut i: usize = 0;
        while i < n
            invariant
                n == self.children.len(),
                n == other.children.len(),
                i <= n,
                forall|j: int| 0 <= j < i ==> self.children[j]@ == other.children[j]@,
            decreases n - i,
        {
            proof {
                vstd::std_specs::vec::axiom_vec_index_decreases(self.children, i as int);
            }
            if !self.children[i].same_as(&other.children[i]) {
                assert(self@.children[i as int] != other@.children[i as int]);
                return false;
            }
            i = i + 1;
        }
        assert(self@.children =~= other@.children);
        true
    }
}

fn clone_text(t: &Option<String>) -> (r: Option<String>)
    ensures
        opt_text_view(r) == opt_text_view(*t),
{
    match t {
        Some(s) => Some(s.clone()),
        None => None,
    }
}

fn same_text(a: &Option<String>, b: &Option<String>) -> (r: bool)
    ensures
        r == (opt_text_view(*a) == opt_text_view(*b)),
{
    match a {
        Some(x) => match b {
            Some(y) => *x == *y,
            None => false,
        },
        None => b.is_none(),
    }
}

impl Clone for Node {
    fn clone(&self) -> (r: Node)
        ensures
            r@ == self@,
    {
        self.deep_clone()
    }
}

impl PartialEq for Node {
    fn eq(&self, other: &Node) -> (r: bool) {
        self.same_as(other)
    }
}

impl vstd::std_specs::cmp::PartialEqSpecImpl for Node {
    open spec fn obeys_eq_spec() -> bool {
        true
    }

    open spec fn eq_spec(&self, other: &Node) -> bool {
        self@ == other@
    }
}

impl Eq for Node {

}

} // verus!

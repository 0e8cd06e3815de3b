//! The tree query parameter: a tree of field names, each optionally with a
//! range, that asks the server for only part of an object's JSON.

use vstd::prelude::*;

use crate::text::{decimal, push_decimal};

verus! {

broadcast use vstd::seq::group_seq_axioms, vstd::std_specs::vec::group_vec_axioms;

/// The server's tree query parameter
#[derive(Debug)]
pub struct TreeQueryParam {
    /// Name of the key at the root of this tree
    keyname: Option<String>,
    /// Children keys
    subkeys: Vec<TreeQueryParam>,
    /// Range of objects to get
    range: Option<std::ops::Range<u32>>,
}

/// The value of a tree: its name, its children in order, its range.
pub struct TreeView {
    pub keyname: Option<Seq<char>>,
    pub subkeys: Seq<TreeView>,
    pub range: Option<(u32, u32)>,
}

pub open spec fn option_text_view(s: Option<String>) -> Option<Seq<char>> {
    match s {
        Some(s) => Some(s@),
        None => None,
    }
}

pub open spec fn range_view(r: Option<std::ops::Range<u32>>) -> Option<(u32, u32)> {
    match r {
        Some(r) => Some((r.start, r.end)),
        None => None,
    }
}

/// The value of a tree.
spec fn tree_view(t: TreeQueryParam) -> TreeView
    decreases t, t.subkeys@.len() + 1,
{
    TreeView {
        keyname: option_text_view(t.keyname),
        subkeys: subkey_views(t, t.subkeys@.len() as int),
        range: range_view(t.range),
    }
}

/// The values of the first `n` children of `t`.
spec fn subkey_views(t: TreeQueryParam, n: int) -> Seq<TreeView>
    decreases t, n,
{
    if n <= 0 || n > t.subkeys@.len() {
        seq![]
    } else {
        subkey_views(t, n - 1).push(tree_view(t.subkeys@[n - 1]))
    }
}

impl View for TreeQueryParam {
    type V = TreeView;

    closed spec fn view(&self) -> TreeView {
        tree_view(*self)
    }
}

/// `{start,end}` for a range, nothing without one.
pub open spec fn range_text(r: Option<(u32, u32)>) -> Seq<char> {
    match r {
        Some((start, end)) => "{"@ + decimal(start as nat) + ","@ + decimal(end as nat) + "}"@,
        None => seq![],
    }
}

/// How a tree is written in the query: a named node is its name, followed
/// by its children in brackets when it has any; a node without a name is
/// its children alone; a range follows in braces. Children are separated by
/// commas, in the order they were added.
pub open spec fn tree_text(v: TreeView) -> Seq<char>
    decreases v, v.subkeys.len() + 1,
{
    let children = children_text(v, v.subkeys.len() as int);
    let body = match v.keyname {
        Some(k) => if v.subkeys.len() == 0 {
            k
        } else {
            k + "["@ + children + "]"@
        },
        None => children,
    };
    body + range_text(v.range)
}

/// The first `n` children of `v`, written and separated by commas.
pub open spec fn children_text(v: TreeView, n: int) -> Seq<char>
    decreases v, n,
{
    if n <= 0 || n > v.subkeys.len() {
        seq![]
    } else if n == 1 {
        tree_text(v.subkeys[0])
    } else {
        children_text(v, n - 1) + ","@ + tree_text(v.subkeys[n - 1])
    }
}

proof fn lemma_subkey_views(t: TreeQueryParam, n: int)
    requires
        0 <= n <= t.subkeys@.len(),
    ensures
        subkey_views(t, n).len() == n,
        forall|i: int| 0 <= i < n ==> #[trigger] subkey_views(t, n)[i] == tree_view(t.subkeys@[i]),
    decreases n,
{
    if n > 0 {
        lemma_subkey_views(t, n - 1);
    }
}

/// Appends `{start,end}` for a range.
fn push_range(out: &mut String, range: &Option<std::ops::Range<u32>>)
    ensures
        final(out)@ == old(out)@ + range_text(range_view(*range)),
{
    match range {
        Some(r) => {
            out.append("{");
            push_decimal(out, r.start);
            out.append(",");
            push_decimal(out, r.end);
            out.append("}");
        },
        None => {},
    }
    assert(out@ =~= old(out)@ + range_text(range_view(*range)));
}

impl TreeQueryParam {
    /// Appends the children of this tree, separated by commas.
    fn push_children(&self, out: &mut String)
        ensures
            final(out)@ == old(out)@ + children_text(self@, self@.subkeys.len() as int),
        decreases self, 0nat,
    {
        let ghost before = out@;
        proof {
            lemma_subkey_views(*self, self.subkeys@.len() as int);
        }
        let n = self.subkeys.len();
        let mut i: usize = 0;
        while i < n
            invariant
                n == self.subkeys@.len(),
                i <= n,
                self@.subkeys.len() == n,
                forall|j: int| 0 <= j < n ==> #[trigger] self@.subkeys[j] == tree_view(self.subkeys@[j]),
                out@ == before + children_text(self@, i as int),
            decreases n - i,
        {
            if i > 0 {
                out.append(",");
            }
            proof {
                assert(decreases_to!(self.subkeys => self.subkeys[i as int]));
            }
            self.subkeys[i].push_to(out);
            assert(out@ =~= before + children_text(self@, i + 1));
            i = i + 1;
        }
    }

    /// Appends how this tree is written in the query.
    pub fn push_to(&self, out: &mut String)
        ensures
            final(out)@ == old(out)@ + tree_text(self@),
        decreases self, 1nat,
    {
        let ghost before = out@;
        proof {
            lemma_subkey_views(*self, self.subkeys@.len() as int);
        }
        match &self.keyname {
            Some(k) => {
                out.append(k.as_str());
                if self.subkeys.len() > 0 {
                    out.append("[");
                    self.push_children(out);
                    out.append("]");
                }
            },
            None => self.push_children(out),
        }
        push_range(out, &self.range);
        assert(out@ =~= before + tree_text(self@));
    }

    /// How this tree is written in the query.
    pub fn to_string(&self) -> (r: String)
        ensures
            r@ == tree_text(self@),
    {
        let mut out = String::new();
        self.push_to(&mut out);
        assert(out@ =~= tree_text(self@));
        out
    }
}

/// The value of a tree after `child` is added as its last child.
pub open spec fn with_child(v: TreeView, child: TreeView) -> TreeView {
    TreeView { keyname: v.keyname, subkeys: v.subkeys.push(child), range: v.range }
}

/// A value that can stand as one field of a tree: a field name, a builder,
/// or a tree.
pub trait IntoTree: Sized {
    /// The tree that this value stands for.
    spec fn tree_spec(&self) -> TreeView;

    fn into_tree(self) -> (r: TreeQueryParam)
        ensures
            r@ == self.tree_spec(),
    ;
}

impl<'a> IntoTree for &'a str {
    /// A field name stands for a leaf of that name.
    open spec fn tree_spec(&self) -> TreeView {
        TreeView { keyname: Some(self@), subkeys: seq![], range: None }
    }

    fn into_tree(self) -> (r: TreeQueryParam) {
        let r = TreeQueryParam { keyname: Some(String::from_str(self)), subkeys: Vec::new(), range: None };
        assert(r@.subkeys =~= seq![]);
        r
    }
}

impl IntoTree for TreeQueryParam {
    open spec fn tree_spec(&self) -> TreeView {
        self@
    }

    fn into_tree(self) -> (r: TreeQueryParam) {
        self
    }
}

impl IntoTree for TreeBuilder {
    open spec fn tree_spec(&self) -> TreeView {
        self@
    }

    fn into_tree(self) -> (r: TreeQueryParam) {
        self.build()
    }
}

/// Helper to build a `TreeQueryParam`
#[derive(Debug)]
pub struct TreeBuilder {
    tree: TreeQueryParam,
}

impl View for TreeBuilder {
    type V = TreeView;

    closed spec fn view(&self) -> TreeView {
        self.tree@
    }
}

impl TreeBuilder {
    /// Build a new empty `TreeBuilder`
    pub fn new() -> (r: Self)
        ensures
            r@ == (TreeView { keyname: None, subkeys: seq![], range: None }),
    {
        let r = TreeBuilder { tree: TreeQueryParam { keyname: None, subkeys: Vec::new(), range: None } };
        assert(r@.subkeys =~= seq![]);
        r
    }

    /// Add a field to the `TreeQueryParam`
    pub fn with_field<T: IntoTree>(self, subfield: T) -> (r: Self)
        ensures
            r@ == with_child(self@, subfield.tree_spec()),
    {
        let ghost old_tree = self.tree;
        let child = subfield.into_tree();
        let mut tree = self.tree;
        tree.subkeys.push(child);
        proof {
            let n = old_tree.subkeys@.len() as int;
            lemma_subkey_views(old_tree, n);
            lemma_subkey_views(tree, n + 1);
            assert(subkey_views(tree, n + 1) =~= old_tree@.subkeys.push(child@));
        }
        TreeBuilder { tree }
    }

    /// Create a parent `TreeQueryParam`
    pub fn object(name: &str) -> (r: Self)
        ensures
            r@ == (TreeView { keyname: Some(name@), subkeys: seq![], range: None }),
    {
        TreeBuilder { tree: name.into_tree() }
    }

    /// Add a subfield to the `TreeQueryParam`
    pub fn with_subfield<T: IntoTree>(self, subfield: T) -> (r: Self)
        ensures
            r@ == with_child(self@, subfield.tree_spec()),
    {
        self.with_field(subfield)
    }

    /// Add a range to the `TreeQueryParam`
    pub fn with_range(self, range: std::ops::Range<u32>) -> (r: Self)
        ensures
            r@ == (TreeView { range: Some((range.start, range.end)), ..self@ }),
    {
        let ghost old_tree = self.tree;
        let mut tree = self.tree;
        tree.range = Some(range);
        proof {
            let n = old_tree.subkeys@.len() as int;
            lemma_subkey_views(old_tree, n);
            lemma_subkey_views(tree, n);
            assert(subkey_views(tree, n) =~= old_tree@.subkeys);
        }
        TreeBuilder { tree }
    }

    /// Build the `TreeQueryParam`
    pub fn build(self) -> (r: TreeQueryParam)
        ensures
            r@ == self@,
    {
        self.tree
    }
}

impl Default for TreeBuilder {
    fn default() -> (r: Self)
        ensures
            r@ == (TreeView { keyname: None, subkeys: seq![], range: None }),
    {
        Self::new()
    }
}

impl From<TreeBuilder> for TreeQueryParam {
    fn from(value: TreeBuilder) -> (r: TreeQueryParam) {
        value.tree
    }
}

impl vstd::std_specs::convert::FromSpecImpl<TreeBuilder> for TreeQueryParam {
    open spec fn obeys_from_spec() -> bool {
        true
    }

    closed spec fn from_spec(v: TreeBuilder) -> TreeQueryParam {
        v.tree
    }
}

/// Query parameters that control how much data the server returns
#[derive(Debug)]
pub enum AdvancedQuery {
    /// depth query parameter
    Depth(u8),
    /// tree query parameter
    Tree(TreeQueryParam),
}

/// The query parameter that a query asks for, as a name and a value.
pub open spec fn query_param_spec(q: AdvancedQuery) -> (Seq<char>, Seq<char>) {
    match q {
        AdvancedQuery::Depth(d) => ("depth"@, decimal(d as nat)),
        AdvancedQuery::Tree(t) => ("tree"@, tree_text(t@)),
    }
}

impl AdvancedQuery {
    /// The one query parameter that this asks for: `depth` or `tree`,
    /// never both.
    pub fn query_param(&self) -> (r: (String, String))
        ensures
            (r.0@, r.1@) == query_param_spec(*self),
    {
        match self {
            AdvancedQuery::Depth(d) => {
                let mut value = String::new();
                push_decimal(&mut value, *d as u32);
                assert(value@ =~= decimal(*d as nat));
                (String::from_str("depth"), value)
            },
            AdvancedQuery::Tree(t) => (String::from_str("tree"), t.to_string()),
        }
    }
}

impl From<TreeQueryParam> for Option<AdvancedQuery> {
    fn from(value: TreeQueryParam) -> (r: Option<AdvancedQuery>) {
        Some(AdvancedQuery::Tree(value))
    }
}

impl vstd::std_specs::convert::FromSpecImpl<TreeQueryParam> for Option<AdvancedQuery> {
    open spec fn obeys_from_spec() -> bool {
        true
    }

    open spec fn from_spec(v: TreeQueryParam) -> Option<AdvancedQuery> {
        Some(AdvancedQuery::Tree(v))
    }
}

} // verus!

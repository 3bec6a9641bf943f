//! XML element trees and the shallow first-path search used on WebDAV bodies.

use crate::text::same_text;
use vstd::prelude::*;

verus! {

/// The mathematical model of an XML element: its local name, its text
/// segments in document order and its child elements in document order.
pub struct Tree {
    pub name: Seq<char>,
    pub texts: Seq<Seq<char>>,
    pub children: Seq<Tree>,
}

/// An XML element as the client reads it. Namespace prefixes are not part of
/// `name`.
#[derive(Debug, PartialEq, Eq)]
pub struct XmlElement {
    pub name: String,
    pub texts: Vec<String>,
    pub children: Vec<XmlElement>,
}

/// The model of an element: the models of its parts, in the same order.
pub open spec fn tree_of(e: XmlElement) -> Tree
    decreases e,
{
    Tree {
        name: e.name@,
        texts: Seq::new(e.texts@.len(), |i: int| e.texts@[i]@),
        children: Seq::new(
            e.children@.len(),
            |i: int|
                if 0 <= i < e.children@.len() {
                    tree_of(e.children@[i])
                } else {
                    arbitrary()
                },
        ),
    }
}

impl View for XmlElement {
    type V = Tree;

    open spec fn view(&self) -> Tree {
        tree_of(*self)
    }
}

impl XmlElement {
    /// How the model of an element is made of the models of its parts.
    pub proof fn lemma_view(&self)
        ensures
            self@.name == self.name@,
            self@.texts.len() == self.texts@.len(),
            forall|i: int| 0 <= i < self.texts@.len() ==> self@.texts[i] == (#[trigger] self.texts@[i])@,
            self@.children.len() == self.children@.len(),
            forall|i: int|
                0 <= i < self.children@.len() ==> self@.children[i] == (#[trigger] self.children@[i])@,
    {
    }
}

/// Whether the search stops at `child`: it carries the wanted name, or it has
/// at least one child element to descend into.
pub open spec fn halts_at(child: Tree, name: Seq<char>) -> bool {
    child.name == name || child.children.len() > 0
}

/// The index of the first element of `children`, at or after `from`, at which
/// the search stops; `children.len()` when there is none.
pub open spec fn first_halt(children: Seq<Tree>, name: Seq<char>, from: int) -> int
    decreases children.len() - from,
{
    if from < 0 || from >= children.len() {
        children.len() as int
    } else if halts_at(children[from], name) {
        from
    } else {
        first_halt(children, name, from + 1)
    }
}

/// The element that the search for `name` below `root` yields.
///
/// The children are examined in document order. A child with the wanted name
/// is the answer. A child with another name and children of its own takes the
/// whole search into its subtree: the siblings after it are never examined.
/// Childless children with other names are passed over.
pub open spec fn find(root: Tree, name: Seq<char>) -> Option<Tree>
    decreases root,
{
    let i = first_halt(root.children, name, 0);
    if 0 <= i < root.children.len() {
        if root.children[i].name == name {
            Some(root.children[i])
        } else {
            find(root.children[i], name)
        }
    } else {
        None
    }
}

/// Whether some element below `root`, at any depth, is named `name`.
pub open spec fn has_descendant(root: Tree, name: Seq<char>) -> bool
    decreases root,
{
    exists|i: int|
        #![trigger root.children[i]]
        0 <= i < root.children.len() && (root.children[i].name == name || has_descendant(
            root.children[i],
            name,
        ))
}

/// `first_halt` yields the least index, from `from` on, at which the search
/// stops.
pub proof fn lemma_first_halt(children: Seq<Tree>, name: Seq<char>, from: int)
    requires
        0 <= from <= children.len(),
    ensures
        from <= first_halt(children, name, from) <= children.len(),
        forall|j: int|
            from <= j < first_halt(children, name, from) ==> !halts_at(#[trigger] children[j], name),
        first_halt(children, name, from) < children.len() ==> halts_at(
            children[first_halt(children, name, from)],
            name,
        ),
    decreases children.len() - from,
{
    if from < children.len() && !halts_at(children[from], name) {
        lemma_first_halt(children, name, from + 1);
    }
}

/// Whatever the search yields carries the wanted name.
pub proof fn lemma_find_yields_name(root: Tree, name: Seq<char>)
    ensures
        find(root, name) matches Some(e) ==> e.name == name,
    decreases root,
{
    let i = first_halt(root.children, name, 0);
    if 0 <= i < root.children.len() && root.children[i].name != name {
        lemma_find_yields_name(root.children[i], name);
    }
}

/// A tree in which no element below the root carries the wanted name yields
/// nothing.
pub proof fn lemma_find_none_without_descendant(root: Tree, name: Seq<char>)
    requires
        !has_descendant(root, name),
    ensures
        find(root, name) is None,
    decreases root,
{
    let i = first_halt(root.children, name, 0);
    if 0 <= i < root.children.len() {
        assert(root.children[i].name != name && !has_descendant(root.children[i], name));
        lemma_find_none_without_descendant(root.children[i], name);
    }
}

/// Where the `n`-th child of the root carries the wanted name and no child
/// before it has children of its own, the search yields the first child that
/// carries the name: the `n`-th itself when none before it does.
pub proof fn lemma_find_top_level(root: Tree, name: Seq<char>, n: int)
    requires
        0 <= n < root.children.len(),
        root.children[n].name == name,
        forall|j: int| 0 <= j < n ==> (#[trigger] root.children[j]).children.len() == 0,
    ensures
        0 <= first_halt(root.children, name, 0) <= n,
        find(root, name) == Some(root.children[first_halt(root.children, name, 0)]),
        root.children[first_halt(root.children, name, 0)].name == name,
        forall|j: int|
            0 <= j < first_halt(root.children, name, 0) ==> (#[trigger] root.children[j]).name != name,
        (forall|j: int| 0 <= j < n ==> (#[trigger] root.children[j]).name != name) ==> find(root, name)
            == Some(root.children[n]),
{
    lemma_first_halt(root.children, name, 0);
    let k = first_halt(root.children, name, 0);
    if k > n {
        assert(!halts_at(root.children[n], name));
    }
}

/// Searches below `el` for the first element named `name`, along the first
/// nested path only.
pub fn find_element_recursive<'a>(el: &'a XmlElement, name: &str) -> (found: Option<&'a XmlElement>)
    ensures
        found matches Some(e) ==> find(el@, name@) == Some(e@),
        found is None ==> find(el@, name@) is None,
    decreases el,
{
    proof {
        el.lemma_view();
    }
    let mut i: usize = 0;
    while i < el.children.len()
        invariant
            i <= el.children.len(),
            el@.children.len() == el.children@.len(),
            forall|k: int|
                0 <= k < el.children@.len() ==> el@.children[k] == (#[trigger] el.children@[k])@,
            first_halt(el@.children, name@, 0) == first_halt(el@.children, name@, i as int),
        decreases el.children.len() - i,
    {
        let child = &el.children[i];
        proof {
            child.lemma_view();
        }
        if same_text(child.name.as_str(), name) {
            return Some(child);
        } else if child.children.len() > 0 {
            return find_element_recursive(child, name);
        }
        i += 1;
    }
    None
}

} // verus!

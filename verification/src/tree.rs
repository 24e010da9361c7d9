//! The nesting of a space's nodes into a tree, as `GET /spaces/{id}/tree`
//! answers it.

use vstd::prelude::*;

use crate::entity::node;
use crate::ids::uuid_text;
use crate::routes::{dto_of, law_node_view_shows_the_node, NodeDto};

verus! {

/// A node of the tree with the nodes nested under it.
pub struct TreeEntry {
    /// The node.
    pub node: NodeDto,
    /// Its children, in the order of the node list.
    pub children: Vec<TreeEntry>,
}

/// The nodes of `nodes` whose parent is `parent`, in their order.
pub open spec fn children_of(nodes: Seq<node::Model>, parent: Option<u128>) -> Seq<node::Model>
    decreases nodes.len(),
{
    if nodes.len() == 0 {
        Seq::empty()
    } else {
        let rest = children_of(nodes.drop_last(), parent);
        if nodes.last().parent_id == parent {
            rest.push(nodes.last())
        } else {
            rest
        }
    }
}

/// Whether `r` is the forest under `parent` built from `nodes` down to `depth`
/// levels: one entry per child of `parent`, in order, each holding the child's
/// view and, one level down, the forest under the child.
pub open spec fn forest_matches(
    r: Seq<TreeEntry>,
    nodes: Seq<node::Model>,
    parent: Option<u128>,
    depth: nat,
) -> bool
    decreases depth,
{
    let kids = children_of(nodes, parent);
    if depth == 0 {
        r.len() == 0
    } else {
        &&& r.len() == kids.len()
        &&& forall|i: int|
            #![trigger r[i]]
            0 <= i < r.len() ==> r[i].node@ == dto_of(kids[i]) && forest_matches(
                r[i].children@,
                nodes,
                Some(kids[i].id),
                (depth - 1) as nat,
            )
    }
}

/// Whether two optional ids are equal.
fn same_id(a: Option<u128>, b: Option<u128>) -> (r: bool)
    ensures
        r == (a == b),
{
    match (a, b) {
        (Some(x), Some(y)) => x == y,
        (None, None) => true,
        _ => false,
    }
}

/// The forest under `parent`, `depth` levels deep.
fn build_level(nodes: &[node::Model], parent: Option<u128>, depth: usize) -> (r: Vec<TreeEntry>)
    ensures
        forest_matches(r@, nodes@, parent, depth as nat),
    decreases depth,
{
    let mut r: Vec<TreeEntry> = Vec::new();
    if depth == 0 {
        return r;
    }
    for i in 0..nodes.len()
        invariant
            depth > 0,
            r@.len() == children_of(nodes@.take(i as int), parent).len(),
            forall|j: int|
                #![trigger r@[j]]
                0 <= j < r@.len() ==> r@[j].node@ == dto_of(
                    children_of(nodes@.take(i as int), parent)[j],
                ) && forest_matches(
                    r@[j].children@,
                    nodes@,
                    Some(children_of(nodes@.take(i as int), parent)[j].id),
                    (depth - 1) as nat,
                ),
    {
        let ghost before = children_of(nodes@.take(i as int), parent);
        assert(nodes@.take(i + 1).drop_last() =~= nodes@.take(i as int));
        assert(nodes@.take(i + 1).last() == nodes@[i as int]);
        if same_id(nodes[i].parent_id, parent) {
            let children = build_level(nodes, Some(nodes[i].id), depth - 1);
            let entry = TreeEntry { node: NodeDto::from(&nodes[i]), children };
            r.push(entry);
            assert(children_of(nodes@.take(i + 1), parent) == before.push(nodes@[i as int]));
        } else {
            assert(children_of(nodes@.take(i + 1), parent) == before);
        }
    }
    assert(nodes@.take(nodes@.len() as int) =~= nodes@);
    r
}

/// The nodes of a space nested as a tree: the top-level nodes (those without a
/// parent), each with the nodes under it, siblings in the order of `nodes`.
/// The nesting goes as many levels deep as there are nodes, which is every
/// level there is (see `law_tree_is_complete`).
pub fn build_tree(nodes: &[node::Model]) -> (r: Vec<TreeEntry>)
    ensures
        forest_matches(r@, nodes@, None, nodes@.len()),
{
    build_level(nodes, None, nodes.len())
}

/// Whether `c` is a line of descent in `nodes`: each of its nodes is one of
/// `nodes`, the first has no parent and each other has the one before as parent.
pub open spec fn is_chain(nodes: Seq<node::Model>, c: Seq<node::Model>) -> bool {
    &&& forall|i: int| 0 <= i < c.len() ==> nodes.contains(#[trigger] c[i])
    &&& c.len() > 0 ==> c[0].parent_id is None
    &&& forall|i: int| 0 < i < c.len() ==> (#[trigger] c[i]).parent_id == Some(c[i - 1].id)
}

/// Whether no line of descent in `nodes` is longer than the number of nodes,
/// that is, whether nesting the nodes from the top level comes to an end.
pub open spec fn nesting_is_finite(nodes: Seq<node::Model>) -> bool {
    forall|c: Seq<node::Model>| is_chain(nodes, c) ==> c.len() <= nodes.len()
}

/// Whether no two of `nodes` share an id, as rows keyed by their id do.
pub open spec fn ids_unique(nodes: Seq<node::Model>) -> bool {
    forall|i: int, j: int| 0 <= i < j < nodes.len() ==> nodes[i].id != nodes[j].id
}

/// The children of `parent` are nodes of the list, with `parent` as parent.
proof fn lemma_children_of(nodes: Seq<node::Model>, parent: Option<u128>)
    ensures
        forall|i: int|
            0 <= i < children_of(nodes, parent).len() ==> nodes.contains(
                #[trigger] children_of(nodes, parent)[i],
            ) && children_of(nodes, parent)[i].parent_id == parent,
        forall|j: int|
            0 <= j < nodes.len() && (#[trigger] nodes[j]).parent_id == parent ==> children_of(
                nodes,
                parent,
            ).contains(nodes[j]),
    decreases nodes.len(),
{
    if nodes.len() > 0 {
        let rest = nodes.drop_last();
        lemma_children_of(rest, parent);
        let kids = children_of(nodes, parent);
        assert forall|i: int| 0 <= i < kids.len() implies nodes.contains(#[trigger] kids[i])
            && kids[i].parent_id == parent by {
            if i < children_of(rest, parent).len() {
                let k = children_of(rest, parent)[i];
                assert(kids[i] == k);
                let w = choose|w: int| 0 <= w < rest.len() && rest[w] == k;
                assert(nodes[w] == k);
            } else {
                assert(kids[i] == nodes.last());
                assert(nodes[nodes.len() - 1] == nodes.last());
            }
        }
        assert forall|j: int|
            0 <= j < nodes.len() && (#[trigger] nodes[j]).parent_id == parent implies kids.contains(
                nodes[j],
            ) by {
            if j < nodes.len() - 1 {
                assert(rest[j] == nodes[j]);
                let rk = children_of(rest, parent);
                assert(rk.contains(rest[j]));
                let w = choose|w: int| 0 <= w < rk.len() && rk[w] == rest[j];
                assert(kids[w] == rk[w]);
            } else {
                assert(kids[kids.len() - 1] == nodes.last());
            }
        }
    }
}

/// A forest built deep enough for every line of descent through `parent` is
/// the same forest at any greater depth.
proof fn lemma_forest_stable(
    r: Seq<TreeEntry>,
    nodes: Seq<node::Model>,
    c: Seq<node::Model>,
    parent: Option<u128>,
    f: nat,
    g: nat,
)
    requires
        nesting_is_finite(nodes),
        is_chain(nodes, c),
        parent == (if c.len() == 0 {
            None
        } else {
            Some(c.last().id)
        }),
        f + c.len() >= nodes.len(),
        g >= f,
        forest_matches(r, nodes, parent, f),
    ensures
        forest_matches(r, nodes, parent, g),
    decreases f,
{
    let kids = children_of(nodes, parent);
    lemma_children_of(nodes, parent);
    if f == 0 {
        if kids.len() > 0 {
            let longer = c.push(kids[0]);
            assert(nodes.contains(kids[0]));
            assert(is_chain(nodes, longer)) by {
                assert forall|i: int| 0 < i < longer.len() implies (#[trigger] longer[i]).parent_id
                    == Some(longer[i - 1].id) by {
                    if i == longer.len() - 1 {
                        assert(longer[i - 1] == c.last());
                    } else {
                        assert(longer[i] == c[i]);
                    }
                }
                assert forall|i: int| 0 <= i < longer.len() implies nodes.contains(
                    #[trigger] longer[i],
                ) by {
                    if i < c.len() {
                        assert(longer[i] == c[i]);
                    }
                }
            }
            assert(false);
        }
    } else {
        assert forall|i: int|
            #![trigger r[i]]
            0 <= i < r.len() implies r[i].node@ == dto_of(kids[i]) && forest_matches(
                r[i].children@,
                nodes,
                Some(kids[i].id),
                (g - 1) as nat,
            ) by {
            let longer = c.push(kids[i]);
            assert(nodes.contains(kids[i]));
            assert(is_chain(nodes, longer)) by {
                assert forall|j: int| 0 < j < longer.len() implies (#[trigger] longer[j]).parent_id
                    == Some(longer[j - 1].id) by {
                    if j == longer.len() - 1 {
                        assert(longer[j - 1] == c.last());
                    } else {
                        assert(longer[j] == c[j]);
                    }
                }
                assert forall|j: int| 0 <= j < longer.len() implies nodes.contains(
                    #[trigger] longer[j],
                ) by {
                    if j < c.len() {
                        assert(longer[j] == c[j]);
                    }
                }
            }
            assert(longer.last() == kids[i]);
            lemma_forest_stable(
                r[i].children@,
                nodes,
                longer,
                Some(kids[i].id),
                (f - 1) as nat,
                (g - 1) as nat,
            );
        }
    }
}

/// The tree is complete: where nesting comes to an end, the tree that
/// `build_tree` returns (nested as many levels deep as there are nodes) is the
/// tree nested to any greater depth, so that every node under a listed node
/// is listed.
pub proof fn law_tree_is_complete(r: Seq<TreeEntry>, nodes: Seq<node::Model>, depth: nat)
    requires
        nesting_is_finite(nodes),
        forest_matches(r, nodes, None, nodes.len()),
        depth >= nodes.len(),
    ensures
        forest_matches(r, nodes, None, depth),
{
    lemma_forest_stable(r, nodes, Seq::empty(), None, nodes.len(), depth);
}

/// Two nodes of a list with unique ids that have the same id are the same node.
proof fn lemma_same_id_same_node(nodes: Seq<node::Model>, a: node::Model, b: node::Model)
    requires
        ids_unique(nodes),
        nodes.contains(a),
        nodes.contains(b),
        a.id == b.id,
    ensures
        a == b,
{
    let i = choose|i: int| 0 <= i < nodes.len() && nodes[i] == a;
    let j = choose|j: int| 0 <= j < nodes.len() && nodes[j] == b;
    if i < j {
        assert(nodes[i].id != nodes[j].id);
    } else if j < i {
        assert(nodes[j].id != nodes[i].id);
    }
}

/// In a list with unique ids, a line of descent never meets the same node twice.
proof fn lemma_chain_distinct(nodes: Seq<node::Model>, c: Seq<node::Model>, i: int, j: int)
    requires
        ids_unique(nodes),
        is_chain(nodes, c),
        0 <= i < j < c.len(),
    ensures
        c[i] != c[j],
    decreases i,
{
    if c[i] == c[j] {
        if i == 0 {
            assert(c[j].parent_id == Some(c[j - 1].id));
        } else {
            assert(c[i].parent_id == Some(c[i - 1].id));
            assert(c[j].parent_id == Some(c[j - 1].id));
            assert(nodes.contains(c[i - 1]));
            assert(nodes.contains(c[j - 1]));
            lemma_same_id_same_node(nodes, c[i - 1], c[j - 1]);
            lemma_chain_distinct(nodes, c, i - 1, j - 1);
        }
    }
}

/// Nodes with unique ids, as the rows of a space are, always nest finitely, so
/// the tree of a space is always complete.
pub proof fn law_unique_ids_nest_finitely(nodes: Seq<node::Model>)
    requires
        ids_unique(nodes),
    ensures
        nesting_is_finite(nodes),
{
    assert forall|c: Seq<node::Model>| is_chain(nodes, c) implies c.len() <= nodes.len() by {
        assert(c.no_duplicates()) by {
            assert forall|i: int, j: int| 0 <= i < c.len() && 0 <= j < c.len() && i != j implies c[i]
                != c[j] by {
                if i < j {
                    lemma_chain_distinct(nodes, c, i, j);
                } else {
                    lemma_chain_distinct(nodes, c, j, i);
                }
            }
        }
        c.unique_seq_to_set();
        nodes.lemma_cardinality_of_set();
        assert(c.to_set().subset_of(nodes.to_set())) by {
            assert forall|x: node::Model| c.to_set().contains(x) implies nodes.to_set().contains(x) by {
                let k = choose|k: int| 0 <= k < c.len() && c[k] == x;
                assert(nodes.contains(c[k]));
            }
        }
        vstd::set_lib::lemma_len_subset(c.to_set(), nodes.to_set());
    }
}

/// Each entry of a tree shows its own node: at every level built, the entries
/// stand one for one for the nodes of the list whose parent is that level's
/// parent, and each entry's view carries that node's kind, title, position and
/// version.
pub proof fn law_tree_entries_show_their_nodes(
    r: Seq<TreeEntry>,
    nodes: Seq<node::Model>,
    parent: Option<u128>,
    depth: nat,
)
    requires
        forest_matches(r, nodes, parent, depth),
        depth > 0,
    ensures
        r.len() == children_of(nodes, parent).len(),
        forall|j: int|
            0 <= j < nodes.len() && (#[trigger] nodes[j]).parent_id == parent ==> children_of(
                nodes,
                parent,
            ).contains(nodes[j]),
        forall|i: int|
            #![trigger r[i]]
            0 <= i < r.len() ==> {
                let m = children_of(nodes, parent)[i];
                &&& nodes.contains(m)
                &&& m.parent_id == parent
                &&& r[i].node@.kind == m.kind@
                &&& r[i].node@.title == m.title@
                &&& r[i].node@.position == m.position
                &&& r[i].node@.version == m.version
                &&& r[i].node@.id == uuid_text(m.id)
            },
{
    lemma_children_of(nodes, parent);
    assert forall|i: int| #![trigger r[i]] 0 <= i < r.len() implies {
        let m = children_of(nodes, parent)[i];
        &&& nodes.contains(m)
        &&& m.parent_id == parent
        &&& r[i].node@.kind == m.kind@
        &&& r[i].node@.title == m.title@
        &&& r[i].node@.position == m.position
        &&& r[i].node@.version == m.version
        &&& r[i].node@.id == uuid_text(m.id)
    } by {
        law_node_view_shows_the_node(children_of(nodes, parent)[i]);
    }
}

} // verus!

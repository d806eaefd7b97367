use vstd::prelude::*;
use crate::property::Property;

verus! {

/// How a check of the node hierarchy failed.
#[derive(Clone, Copy, Debug, PartialEq, Eq, Structural)]
pub enum NodeCheckFailure {
    /// A listing held `found` nodes where `expected` were due.
    Count { found: usize, expected: usize },
    /// The one listed node is not the one just created.
    WrongNode { found: u32, expected: u32 },
    /// A node's children do not include the child just added.
    MissingChild { child: u32 },
    /// A child that was just added has no parent.
    NoParent,
    /// A child's parent is not the node it was added to.
    WrongParent { found: u32, expected: u32 },
    /// A node still has children after its only child was removed.
    ChildrenLeft { remaining: usize },
}

/// Whether reading the id of `node` can give `id`.
#[verifier::opaque]
pub open spec fn read_id<N: Property>(node: N, id: u32) -> bool {
    call_ensures(N::id, (&node,), id)
}

/// Whether `ids` are the ids that reading each of `nodes` gave, in order.
#[verifier::opaque]
pub open spec fn ids_read<N: Property>(nodes: Seq<N>, ids: Seq<u32>) -> bool {
    &&& ids.len() == nodes.len()
    &&& forall|i: int| 0 <= i < nodes.len() ==> call_ensures(N::id, (&nodes[i],), #[trigger] ids[i])
}

/// Checks that a listing holds the expected number of nodes.
pub fn check_count(found: usize, expected: usize) -> (r: Result<(), NodeCheckFailure>)
    ensures
        r is Ok <==> found == expected,
        r is Err ==> r == Err::<(), NodeCheckFailure>(NodeCheckFailure::Count { found, expected }),
{
    if found != expected {
        Err(NodeCheckFailure::Count { found, expected })
    } else {
        Ok(())
    }
}

/// Whether the ids of a node's children include `id`.
pub fn children_contain(children: &Vec<u32>, id: u32) -> (r: bool)
    ensures
        r == children@.contains(id),
{
    let mut i: usize = 0;
    while i < children.len()
        invariant
            i <= children.len(),
            forall|j: int| 0 <= j < i ==> children@[j] != id,
        decreases children.len() - i,
    {
        if children[i] == id {
            assert(children@[i as int] == id);
            return true;
        }
        i = i + 1;
    }
    false
}

/// The ids of some nodes, in order, each read once.
fn ids_of<N: Property>(nodes: &Vec<N>) -> (r: Vec<u32>)
    ensures
        ids_read(nodes@, r@),
{
    let mut ids: Vec<u32> = Vec::new();
    let mut i: usize = 0;
    while i < nodes.len()
        invariant
            i <= nodes.len(),
            ids@.len() == i,
            forall|j: int| 0 <= j < i ==> call_ensures(N::id, (&nodes@[j],), #[trigger] ids@[j]),
        decreases nodes.len() - i,
    {
        let id = nodes[i].id();
        ids.push(id);
        i = i + 1;
    }
    proof {
        reveal(ids_read);
    }
    ids
}

/// Reads the id of a node.
fn id_of<N: Property>(node: &N) -> (r: u32)
    ensures
        read_id(*node, r),
{
    let r = node.id();
    proof {
        reveal(read_id);
    }
    r
}

/// Checks the node hierarchy end to end: a created node is the only one
/// listed and goes when removed; a child added to a node is among its
/// children and has it as parent, and is no longer among them once removed;
/// both nodes are then listed. Nodes are told apart by their ids. Stops at
/// the first failure.
pub fn test_nodes<
    N: Property,
    C: Fn() -> N,
    L: Fn() -> Vec<N>,
    R: Fn(N),
    A: Fn(&N, &N),
    K: Fn(&N) -> Vec<N>,
    P: Fn(&N) -> Option<N>,
    D: Fn(&N, &N),
>(
    create_node: C,
    list_nodes: L,
    remove_node: R,
    add_child: A,
    children: K,
    parent: P,
    remove_child: D,
) -> (r: Result<(), NodeCheckFailure>)
    requires
        call_requires(create_node, ()),
        call_requires(list_nodes, ()),
        forall|n: N| call_requires(remove_node, (n,)),
        forall|a: &N, b: &N| call_requires(add_child, (a, b)),
        forall|a: &N| call_requires(children, (a,)),
        forall|a: &N| call_requires(parent, (a,)),
        forall|a: &N, b: &N| call_requires(remove_child, (a, b)),
    ensures
        r matches Err(NodeCheckFailure::Count { found: n, expected: e }) ==> {
            &&& n != e
            &&& e == 0 || e == 1 || e == 2
            &&& exists|l: Vec<N>| #[trigger] call_ensures(list_nodes, (), l) && l.len() == n
        },
        r matches Err(NodeCheckFailure::WrongNode { found: f, expected: e }) ==> f != e && exists|n: N, l: Vec<N>|
            #![trigger call_ensures(create_node, (), n), call_ensures(list_nodes, (), l)]
            {
                &&& call_ensures(create_node, (), n)
                &&& call_ensures(list_nodes, (), l)
                &&& l.len() == 1
                &&& read_id(l@[0], f)
                &&& read_id(n, e)
            },
        r matches Err(NodeCheckFailure::MissingChild { child: c }) ==> exists|p: N, k: N, ch: Vec<N>, ids: Seq<u32>|
            #![trigger call_ensures(create_node, (), p), call_ensures(create_node, (), k), call_ensures(children, (&p,), ch), ids_read(ch@, ids)]
            {
                &&& call_ensures(create_node, (), p)
                &&& call_ensures(create_node, (), k)
                &&& call_ensures(add_child, (&p, &k), ())
                &&& call_ensures(children, (&p,), ch)
                &&& read_id(k, c)
                &&& ids_read(ch@, ids)
                &&& !ids.contains(c)
            },
        r matches Err(NodeCheckFailure::NoParent) ==> exists|k: N|
            #[trigger] call_ensures(create_node, (), k) && call_ensures(parent, (&k,), None::<N>),
        r matches Err(NodeCheckFailure::WrongParent { found: f, expected: e }) ==> f != e && exists|p: N, k: N, q: N|
            #![trigger call_ensures(create_node, (), p), call_ensures(create_node, (), k), read_id(q, f)]
            {
                &&& call_ensures(create_node, (), p)
                &&& call_ensures(create_node, (), k)
                &&& call_ensures(add_child, (&p, &k), ())
                &&& call_ensures(parent, (&k,), Some(q))
                &&& read_id(q, f)
                &&& read_id(p, e)
            },
        r matches Err(NodeCheckFailure::ChildrenLeft { remaining: n }) ==> n != 0 && exists|p: N, k: N, ch: Vec<N>|
            #![trigger call_ensures(create_node, (), p), call_ensures(create_node, (), k), call_ensures(children, (&p,), ch)]
            {
                &&& call_ensures(create_node, (), p)
                &&& call_ensures(create_node, (), k)
                &&& call_ensures(remove_child, (&p, &k), ())
                &&& call_ensures(children, (&p,), ch)
                &&& ch.len() == n
            },
        r is Ok ==> {
            &&& exists|n: N, l: Vec<N>, id: u32|
                #![trigger call_ensures(create_node, (), n), call_ensures(list_nodes, (), l), read_id(n, id)]
                {
                    &&& call_ensures(create_node, (), n)
                    &&& call_ensures(list_nodes, (), l)
                    &&& l.len() == 1
                    &&& read_id(l@[0], id)
                    &&& read_id(n, id)
                }
            &&& exists|l: Vec<N>| #[trigger] call_ensures(list_nodes, (), l) && l.len() == 0
            &&& exists|p: N, k: N, ch: Vec<N>, ids: Seq<u32>, id: u32|
                #![trigger call_ensures(create_node, (), p), call_ensures(create_node, (), k), call_ensures(children, (&p,), ch), ids_read(ch@, ids), read_id(k, id)]
                {
                    &&& call_ensures(add_child, (&p, &k), ())
                    &&& call_ensures(children, (&p,), ch)
                    &&& ids_read(ch@, ids)
                    &&& read_id(k, id)
                    &&& ids.contains(id)
                }
            &&& exists|p: N, k: N, q: N, id: u32|
                #![trigger call_ensures(create_node, (), p), call_ensures(create_node, (), k), read_id(q, id)]
                {
                    &&& call_ensures(add_child, (&p, &k), ())
                    &&& call_ensures(parent, (&k,), Some(q))
                    &&& read_id(q, id)
                    &&& read_id(p, id)
                }
            &&& exists|p: N, k: N, ch: Vec<N>|
                #![trigger call_ensures(create_node, (), p), call_ensures(create_node, (), k), call_ensures(children, (&p,), ch)]
                call_ensures(remove_child, (&p, &k), ()) && call_ensures(children, (&p,), ch) && ch.len() == 0
            &&& exists|l: Vec<N>| #[trigger] call_ensures(list_nodes, (), l) && l.len() == 2
        },
{
    let node = create_node();
    let found = list_nodes();
    check_count(found.len(), 1)?;
    let found_id = id_of(&found[0]);
    let node_id = id_of(&node);
    if found_id != node_id {
        return Err(NodeCheckFailure::WrongNode { found: found_id, expected: node_id });
    }
    remove_node(node);
    let found = list_nodes();
    check_count(found.len(), 0)?;

    let node = create_node();
    let node_2 = create_node();
    add_child(&node, &node_2);
    let kids = children(&node);
    let kid_ids = ids_of(&kids);
    let child_id = id_of(&node_2);
    if !children_contain(&kid_ids, child_id) {
        return Err(NodeCheckFailure::MissingChild { child: child_id });
    }
    let found_parent = match parent(&node_2) {
        Some(p) => p,
        None => return Err(NodeCheckFailure::NoParent),
    };
    let parent_id = id_of(&found_parent);
    let node_id = id_of(&node);
    if parent_id != node_id {
        return Err(NodeCheckFailure::WrongParent { found: parent_id, expected: node_id });
    }
    remove_child(&node, &node_2);
    let kids = children(&node);
    if kids.len() != 0 {
        return Err(NodeCheckFailure::ChildrenLeft { remaining: kids.len() });
    }
    let found = list_nodes();
    check_count(found.len(), 2)
}

} // verus!

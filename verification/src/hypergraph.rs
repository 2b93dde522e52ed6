use vstd::prelude::*;

use crate::node::Node;

verus! {

/// True when no two nodes of the sequence share an id.
pub open spec fn ids_unique<T>(s: Seq<Node<T>>) -> bool {
    forall|i: int, j: int| 0 <= i < j < s.len() ==> s[i].id@ != s[j].id@
}

/// The id-to-node map that a sequence of nodes represents.
pub open spec fn nodes_as_map<T>(s: Seq<Node<T>>) -> Map<Seq<char>, Node<T>> {
    Map::new(
        |id: Seq<char>| exists|i: int| 0 <= i < s.len() && s[i].id@ == id,
        |id: Seq<char>| s[choose|i: int| 0 <= i < s.len() && s[i].id@ == id],
    )
}

/// A named collection of uniquely-identified nodes. Nodes are added one at
/// a time and owned by the hypergraph; there is no removal operation.
pub struct Hypergraph<T> {
    pub name: String,
    pub nodes: Vec<Node<T>>,
}

proof fn lemma_unique_index<T>(s: Seq<Node<T>>, j: int, k: int)
    requires
        ids_unique(s),
        0 <= j < s.len(),
        0 <= k < s.len(),
        s[j].id@ == s[k].id@,
    ensures
        j == k,
{
}

/// Replacing the one node that carries an id with a new node under the
/// same id acts on the represented map as an insert under that id.
proof fn lemma_map_update<T>(s: Seq<Node<T>>, i: int, node: Node<T>)
    requires
        ids_unique(s),
        0 <= i < s.len(),
        s[i].id@ == node.id@,
    ensures
        ids_unique(s.update(i, node)),
        nodes_as_map(s.update(i, node)) == nodes_as_map(s).insert(node.id@, node),
        nodes_as_map(s).dom().contains(node.id@),
{
    let s2 = s.update(i, node);
    assert forall|j: int, k: int| 0 <= j < k < s2.len() implies s2[j].id@ != s2[k].id@ by {
        assert(s2[j].id@ == s[j].id@);
        assert(s2[k].id@ == s[k].id@);
    }
    let m1 = nodes_as_map(s2);
    let m2 = nodes_as_map(s).insert(node.id@, node);
    assert forall|k: Seq<char>| m1.dom().contains(k) implies m2.dom().contains(k) by {
        let j = choose|j: int| 0 <= j < s2.len() && s2[j].id@ == k;
        if j != i {
            assert(s[j].id@ == k);
        }
    }
    assert forall|k: Seq<char>| m2.dom().contains(k) implies m1.dom().contains(k) by {
        if k == node.id@ {
            assert(s2[i].id@ == k);
        } else {
            let j = choose|j: int| 0 <= j < s.len() && s[j].id@ == k;
            assert(s2[j].id@ == k);
        }
    }
    assert forall|k: Seq<char>| m1.dom().contains(k) implies m1[k] == m2[k] by {
        let j1 = choose|j: int| 0 <= j < s2.len() && s2[j].id@ == k;
        if k == node.id@ {
            lemma_unique_index(s2, j1, i);
            assert(m1[k] == node);
        } else {
            assert(s[j1].id@ == k);
            let j2 = choose|j: int| 0 <= j < s.len() && s[j].id@ == k;
            lemma_unique_index(s, j1, j2);
            assert(m1[k] == s2[j1]);
            assert(m2[k] == s[j2]);
        }
    }
    assert(m1 =~= m2);
}

/// Appending a node whose id is fresh acts on the represented map as an
/// insert under a new key.
proof fn lemma_map_push<T>(s: Seq<Node<T>>, node: Node<T>)
    requires
        ids_unique(s),
        forall|i: int| 0 <= i < s.len() ==> s[i].id@ != node.id@,
    ensures
        ids_unique(s.push(node)),
        nodes_as_map(s.push(node)) == nodes_as_map(s).insert(node.id@, node),
        !nodes_as_map(s).dom().contains(node.id@),
{
    let s2 = s.push(node);
    assert forall|j: int, k: int| 0 <= j < k < s2.len() implies s2[j].id@ != s2[k].id@ by {
        if k < s.len() {
            assert(s2[j].id@ == s[j].id@);
            assert(s2[k].id@ == s[k].id@);
        } else {
            assert(s2[j].id@ == s[j].id@);
            assert(s2[k].id@ == node.id@);
        }
    }
    let m1 = nodes_as_map(s2);
    let m2 = nodes_as_map(s).insert(node.id@, node);
    assert forall|k: Seq<char>| m1.dom().contains(k) implies m2.dom().contains(k) by {
        let j = choose|j: int| 0 <= j < s2.len() && s2[j].id@ == k;
        if j < s.len() {
            assert(s[j].id@ == k);
        }
    }
    assert forall|k: Seq<char>| m2.dom().contains(k) implies m1.dom().contains(k) by {
        if k == node.id@ {
            assert(s2[s.len() as int].id@ == k);
        } else {
            let j = choose|j: int| 0 <= j < s.len() && s[j].id@ == k;
            assert(s2[j].id@ == k);
        }
    }
    assert forall|k: Seq<char>| m1.dom().contains(k) implies m1[k] == m2[k] by {
        let j1 = choose|j: int| 0 <= j < s2.len() && s2[j].id@ == k;
        if k == node.id@ {
            lemma_unique_index(s2, j1, s.len() as int);
            assert(m1[k] == node);
        } else {
            assert(j1 < s.len());
            assert(s[j1].id@ == k);
            let j2 = choose|j: int| 0 <= j < s.len() && s[j].id@ == k;
            lemma_unique_index(s, j1, j2);
            assert(m1[k] == s2[j1]);
            assert(m2[k] == s[j2]);
        }
    }
    assert(m1 =~= m2);
}

impl<T> Hypergraph<T> {
    /// The structural invariant: no two held nodes share an id, so the id
    /// of a node, once inserted, is its unique key.
    pub open spec fn wf(self) -> bool {
        ids_unique(self.nodes@)
    }

    /// The mathematical content of the hypergraph: its nodes, keyed by id.
    pub open spec fn nodes_map(self) -> Map<Seq<char>, Node<T>> {
        nodes_as_map(self.nodes@)
    }

    /// Builds an empty hypergraph with the given name.
    pub fn new(name: &str) -> (g: Hypergraph<T>)
        ensures
            g.name@ == name@,
            g.nodes@.len() == 0,
            g.wf(),
            g.nodes_map() == Map::<Seq<char>, Node<T>>::empty(),
    {
        let g = Hypergraph { name: name.to_owned(), nodes: Vec::new() };
        proof {
            assert(g.nodes_map() =~= Map::<Seq<char>, Node<T>>::empty());
        }
        g
    }

    /// Inserts the node under its id. A node whose id is already present
    /// overwrites the previous entry (last write wins, no merge, no
    /// signal); otherwise the node count grows by one.
    pub fn add_node(&mut self, node: Node<T>)
        requires
            old(self).wf(),
        ensures
            final(self).wf(),
            final(self).name == old(self).name,
            final(self).nodes_map() == old(self).nodes_map().insert(node.id@, node),
            final(self).nodes@.len() == if old(self).nodes_map().dom().contains(node.id@) {
                old(self).nodes@.len() as int
            } else {
                old(self).nodes@.len() as int + 1
            },
    {
        let mut i: usize = 0;
        while i < self.nodes.len()
            invariant
                *self == *old(self),
                i <= self.nodes.len(),
                old(self).wf(),
                forall|j: int| 0 <= j < i ==> self.nodes@[j].id@ != node.id@,
            decreases self.nodes.len() - i,
        {
            if self.nodes[i].id == node.id {
                proof {
                    lemma_map_update(self.nodes@, i as int, node);
                }
                self.nodes.set(i, node);
                return ;
            }
            i += 1;
        }
        proof {
            lemma_map_push(self.nodes@, node);
        }
        self.nodes.push(node);
    }
}

/// Law: adding a node under an id that is already present overwrites the
/// previous entry. On the map that a hypergraph represents, inserting one
/// node and then another under the same id is the same as inserting the
/// second alone, and the set of ids is the same either way.
pub proof fn lemma_add_overwrites<T>(m: Map<Seq<char>, Node<T>>, n1: Node<T>, n2: Node<T>)
    requires
        n1.id@ == n2.id@,
    ensures
        m.insert(n1.id@, n1).insert(n2.id@, n2) == m.insert(n2.id@, n2),
        m.insert(n1.id@, n1).insert(n2.id@, n2).dom() == m.dom().insert(n2.id@),
{
    assert(m.insert(n1.id@, n1).insert(n2.id@, n2) =~= m.insert(n2.id@, n2));
    assert(m.insert(n1.id@, n1).insert(n2.id@, n2).dom() =~= m.dom().insert(n2.id@));
}

} // verus!

//! JUCE `ValueTree` data structures and parser.
//!
//! When a RØDECaster connects, it transmits its entire device state as a
//! binary `juce::ValueTreeSynchroniser` full-sync payload. This module parses
//! that binary representation into a hierarchy of [`Node`] and [`Property`]
//! structures, and writes such a hierarchy back in the same format.

use vstd::prelude::*;
use vstd::utf8::*;

use crate::juce_var::{
    lemma_compressed_int_round_trip, lemma_read_value_consumes, lemma_value_round_trip,
    spec_compressed_int, spec_cstring, spec_read_compressed_int, spec_read_cstring,
    spec_read_value, spec_write_value, var_round_trips, write_compressed_int, frame_fits,
    spec_compressed_int_stop, spec_value_stop,
    first_nul, Reader, Value, VarModel,
};
use crate::text::{concat_str, lemma_encode_no_zero_byte, no_nul, push_decimal, spec_decimal, str_bytes};
use crate::wire::{push_all, tail, lemma_tail_skip};

verus! {

/// A property (name-value pair) in the ValueTree.
#[derive(Debug, PartialEq)]
pub struct Property {
    pub name: String,
    pub value: Value,
}

/// A node in the ValueTree (has a name, properties, and child nodes).
#[derive(Debug, PartialEq)]
pub struct Node {
    pub name: String,
    pub properties: Vec<Property>,
    pub children: Vec<Node>,
}

/// The content of a [`Node`]: its name, its `(name, value)` properties in
/// order, and its children in order.
pub struct NodeModel {
    pub name: Seq<char>,
    pub properties: Seq<(Seq<char>, VarModel)>,
    pub children: Seq<NodeModel>,
}

impl View for Property {
    type V = (Seq<char>, VarModel);

    open spec fn view(&self) -> (Seq<char>, VarModel) {
        (self.name@, self.value@)
    }
}

pub open spec fn prop_models(ps: Seq<Property>) -> Seq<(Seq<char>, VarModel)> {
    ps.map_values(|p: Property| p@)
}

pub open spec fn node_model(n: Node) -> NodeModel
    decreases n,
{
    NodeModel {
        name: n.name@,
        properties: prop_models(n.properties@),
        children: node_models(n.children@),
    }
}

pub open spec fn node_models(ns: Seq<Node>) -> Seq<NodeModel>
    decreases ns,
{
    if ns.len() == 0 {
        Seq::empty()
    } else {
        node_models(ns.drop_last()).push(node_model(ns.last()))
    }
}

impl View for Node {
    type V = NodeModel;

    open spec fn view(&self) -> NodeModel {
        node_model(*self)
    }
}

pub proof fn lemma_node_models(ns: Seq<Node>)
    ensures
        node_models(ns).len() == ns.len(),
        forall|i: int| 0 <= i < ns.len() ==> #[trigger] node_models(ns)[i] == node_model(ns[i]),
    decreases ns.len(),
{
    if ns.len() > 0 {
        lemma_node_models(ns.drop_last());
    }
}

// ---------------------------------------------------------------------------
// Wire format

/// `ValueTree` property: `writeString(name)` then the value.
pub open spec fn spec_write_property(p: (Seq<char>, VarModel)) -> Seq<u8> {
    spec_cstring(p.0) + spec_write_value(p.1)
}

pub open spec fn spec_write_properties(ps: Seq<(Seq<char>, VarModel)>) -> Seq<u8>
    decreases ps.len(),
{
    if ps.len() == 0 {
        Seq::empty()
    } else {
        spec_write_property(ps[0]) + spec_write_properties(ps.drop_first())
    }
}

/// `ValueTree::writeToStream`: name, property count, properties, child
/// count, children.
pub open spec fn spec_write_node(n: NodeModel) -> Seq<u8>
    decreases n,
{
    spec_cstring(n.name) + spec_compressed_int(n.properties.len() as int)
        + spec_write_properties(n.properties) + spec_compressed_int(n.children.len() as int)
        + spec_write_nodes(n.children)
}

pub open spec fn spec_write_nodes(ns: Seq<NodeModel>) -> Seq<u8>
    decreases ns,
{
    if ns.len() == 0 {
        Seq::empty()
    } else {
        spec_write_node(ns[0]) + spec_write_nodes(ns.drop_first())
    }
}

/// A property read from `s`: the property and the bytes consumed.
pub open spec fn spec_read_property(s: Seq<u8>) -> Option<((Seq<char>, VarModel), int)> {
    match spec_read_cstring(s) {
        None => None,
        Some((name, c1)) => match spec_read_value(s.subrange(c1, s.len() as int)) {
            None => None,
            Some((v, c2)) => Some(((name, v), c1 + c2)),
        },
    }
}

pub open spec fn spec_read_properties(s: Seq<u8>, n: nat) -> Option<
    (Seq<(Seq<char>, VarModel)>, int),
>
    decreases n,
{
    if n == 0 {
        Some((Seq::empty(), 0))
    } else {
        match spec_read_property(s) {
            None => None,
            Some((p, c)) => match spec_read_properties(
                s.subrange(c, s.len() as int),
                (n - 1) as nat,
            ) {
                None => None,
                Some((ps, k)) => Some((seq![p] + ps, c + k)),
            },
        }
    }
}

/// A node read from `s` (`ValueTree::readFromStream`): the node and the
/// bytes consumed. A declared count is a hard contract: a truncated list of
/// properties or children is no node at all.
pub open spec fn spec_read_node(s: Seq<u8>) -> Option<(NodeModel, int)>
    decreases s.len(), 0int, 0nat,
{
    match spec_read_cstring(s) {
        None => None,
        Some((name, c1)) => {
            let s1 = s.subrange(c1, s.len() as int);
            match spec_read_compressed_int(s1) {
                None => None,
                Some((pc, c2)) => if pc < 0 {
                    None
                } else {
                    let s2 = s1.subrange(c2, s1.len() as int);
                    match spec_read_properties(s2, pc as nat) {
                        None => None,
                        Some((ps, k1)) => {
                            let s3 = s2.subrange(k1, s2.len() as int);
                            match spec_read_compressed_int(s3) {
                                None => None,
                                Some((cc, c3)) => if cc < 0 {
                                    None
                                } else {
                                    let s4 = s3.subrange(c3, s3.len() as int);
                                    if s4.len() < s.len() {
                                        match spec_read_nodes(s4, cc as nat) {
                                            None => None,
                                            Some((cs, k2)) => Some(
                                                (
                                                    NodeModel {
                                                        name,
                                                        properties: ps,
                                                        children: cs,
                                                    },
                                                    c1 + c2 + k1 + c3 + k2,
                                                ),
                                            ),
                                        }
                                    } else {
                                        None
                                    }
                                },
                            }
                        },
                    }
                },
            }
        },
    }
}

pub open spec fn spec_read_nodes(s: Seq<u8>, n: nat) -> Option<(Seq<NodeModel>, int)>
    decreases s.len(), 1int, n,
{
    if n == 0 {
        Some((Seq::empty(), 0))
    } else {
        match spec_read_node(s) {
            None => None,
            Some((v, c)) => if 0 <= c <= s.len() {
                match spec_read_nodes(s.subrange(c, s.len() as int), (n - 1) as nat) {
                    Some((vs, k)) => Some((seq![v] + vs, c + k)),
                    None => None,
                }
            } else {
                None
            },
        }
    }
}

/// How far a property read moves the cursor, whether it succeeds or fails:
/// nowhere when the name does not read, else past the name and as far as the
/// value read went.
pub open spec fn spec_property_stop(s: Seq<u8>) -> int {
    match spec_read_cstring(s) {
        None => 0,
        Some((name, c1)) => c1 + spec_value_stop(s.subrange(c1, s.len() as int)),
    }
}

/// How far a read of `n` properties moves the cursor.
pub open spec fn spec_properties_stop(s: Seq<u8>, n: nat) -> int
    decreases n,
{
    if n == 0 {
        0
    } else {
        match spec_read_property(s) {
            None => spec_property_stop(s),
            Some((p, c)) => c + spec_properties_stop(s.subrange(c, s.len() as int), (n - 1) as nat),
        }
    }
}

/// How far a node read moves the cursor, whether it succeeds (then by the
/// node's bytes) or fails (then to where reading stopped).
pub open spec fn spec_node_stop(s: Seq<u8>) -> int
    decreases s.len(), 0int, 0nat,
{
    match spec_read_cstring(s) {
        None => 0,
        Some((name, c1)) => {
            let s1 = s.subrange(c1, s.len() as int);
            match spec_read_compressed_int(s1) {
                None => c1 + spec_compressed_int_stop(s1),
                Some((pc, c2)) => if pc < 0 {
                    c1 + c2
                } else {
                    let s2 = s1.subrange(c2, s1.len() as int);
                    match spec_read_properties(s2, pc as nat) {
                        None => c1 + c2 + spec_properties_stop(s2, pc as nat),
                        Some((ps, k1)) => {
                            let s3 = s2.subrange(k1, s2.len() as int);
                            match spec_read_compressed_int(s3) {
                                None => c1 + c2 + k1 + spec_compressed_int_stop(s3),
                                Some((cc, c3)) => if cc < 0 {
                                    c1 + c2 + k1 + c3
                                } else {
                                    let s4 = s3.subrange(c3, s3.len() as int);
                                    if s4.len() < s.len() {
                                        c1 + c2 + k1 + c3 + spec_nodes_stop(s4, cc as nat)
                                    } else {
                                        c1 + c2 + k1 + c3
                                    }
                                },
                            }
                        },
                    }
                },
            }
        },
    }
}

/// How far a read of `n` nodes one after another moves the cursor.
pub open spec fn spec_nodes_stop(s: Seq<u8>, n: nat) -> int
    decreases s.len(), 1int, n,
{
    if n == 0 {
        0
    } else {
        match spec_read_node(s) {
            None => spec_node_stop(s),
            Some((v, c)) => if 0 <= c <= s.len() {
                c + spec_nodes_stop(s.subrange(c, s.len() as int), (n - 1) as nat)
            } else {
                c
            },
        }
    }
}

/// `ChangeType::fullSync` in `juce::ValueTreeSynchroniser`.
pub const FULL_SYNC_CHANGE: u8 = 0x02;

/// A full-sync message parsed as a tree: the change-type byte, then exactly
/// one node and nothing after it.
pub open spec fn spec_parse_valuetree(data: Seq<u8>) -> Option<NodeModel> {
    if data.len() == 0 || data[0] != FULL_SYNC_CHANGE {
        None
    } else {
        match spec_read_node(data.subrange(1, data.len() as int)) {
            Some((n, c)) => if 1 + c == data.len() {
                Some(n)
            } else {
                None
            },
            None => None,
        }
    }
}

// ---------------------------------------------------------------------------
// Progress facts

pub proof fn lemma_first_nul_bound(s: Seq<u8>)
    ensures
        first_nul(s) matches Some(k) ==> 0 <= k < s.len() && s[k] == 0 && forall|j: int|
            0 <= j < k ==> #[trigger] s[j] != 0,
    decreases s.len(),
{
    if s.len() > 0 && s[0] != 0 {
        lemma_first_nul_bound(s.drop_first());
        if let Some(k) = first_nul(s.drop_first()) {
            assert forall|j: int| 0 <= j < k + 1 implies #[trigger] s[j] != 0 by {
                if j > 0 {
                    assert(s[j] == s.drop_first()[j - 1]);
                }
            }
        }
    }
}

pub proof fn lemma_read_cstring_consumes(s: Seq<u8>)
    ensures
        spec_read_cstring(s) matches Some((cs, c)) ==> 1 <= c <= s.len(),
{
    lemma_first_nul_bound(s);
}

pub proof fn lemma_read_property_consumes(s: Seq<u8>)
    ensures
        spec_read_property(s) matches Some((p, c)) ==> 1 <= c <= s.len(),
{
    lemma_read_cstring_consumes(s);
    if let Some((name, c1)) = spec_read_cstring(s) {
        lemma_read_value_consumes(s.subrange(c1, s.len() as int));
    }
}

pub proof fn lemma_read_properties_consumes(s: Seq<u8>, n: nat)
    ensures
        spec_read_properties(s, n) matches Some((ps, k)) ==> 0 <= k <= s.len() && ps.len() == n,
    decreases n,
{
    if n > 0 {
        lemma_read_property_consumes(s);
        if let Some((p, c)) = spec_read_property(s) {
            lemma_read_properties_consumes(s.subrange(c, s.len() as int), (n - 1) as nat);
        }
    }
}

pub proof fn lemma_read_node_consumes(s: Seq<u8>)
    ensures
        spec_read_node(s) matches Some((m, c)) ==> 1 <= c <= s.len(),
    decreases s.len(), 0int, 0nat,
{
    lemma_read_cstring_consumes(s);
    if let Some((name, c1)) = spec_read_cstring(s) {
        let s1 = s.subrange(c1, s.len() as int);
        if let Some((pc, c2)) = spec_read_compressed_int(s1) {
            if pc >= 0 {
                let s2 = s1.subrange(c2, s1.len() as int);
                lemma_read_properties_consumes(s2, pc as nat);
                if let Some((ps, k1)) = spec_read_properties(s2, pc as nat) {
                    let s3 = s2.subrange(k1, s2.len() as int);
                    if let Some((cc, c3)) = spec_read_compressed_int(s3) {
                        let s4 = s3.subrange(c3, s3.len() as int);
                        if cc >= 0 && s4.len() < s.len() {
                            lemma_read_nodes_consumes(s4, cc as nat);
                        }
                    }
                }
            }
        }
    }
}

pub proof fn lemma_read_nodes_consumes(s: Seq<u8>, n: nat)
    ensures
        spec_read_nodes(s, n) matches Some((ns, k)) ==> 0 <= k <= s.len() && ns.len() == n,
    decreases s.len(), 1int, n,
{
    if n > 0 {
        lemma_read_node_consumes(s);
        if let Some((v, c)) = spec_read_node(s) {
            if 0 <= c <= s.len() {
                lemma_read_nodes_consumes(s.subrange(c, s.len() as int), (n - 1) as nat);
            }
        }
    }
}

// ---------------------------------------------------------------------------
// Executable tree walk

impl Clone for Node {
    /// A deep copy with the same content.
    fn clone(&self) -> (r: Node)
        ensures
            r@ == self@,
        decreases self,
    {
        let mut props: Vec<Property> = Vec::new();
        let mut i: usize = 0;
        while i < self.properties.len()
            invariant
                i <= self.properties@.len(),
                props@.len() == i,
                forall|k: int| 0 <= k < i ==> #[trigger] props@[k]@ == self.properties@[k]@,
            decreases self.properties@.len() - i,
        {
            let q = self.properties[i].clone();
            props.push(q);
            i = i + 1;
        }
        proof {
            assert(prop_models(props@) =~= prop_models(self.properties@));
        }
        let mut children: Vec<Node> = Vec::new();
        let mut j: usize = 0;
        proof {
            assert(decreases_to!(*self => self.children));
        }
        while j < self.children.len()
            invariant
                j <= self.children@.len(),
                decreases_to!(*self => self.children),
                node_models(children@) == node_models(self.children@.subrange(0, j as int)),
            decreases self.children@.len() - j,
        {
            proof {
                assert(decreases_to!(self.children => self.children@[j as int]));
            }
            let c = self.children[j].clone();
            let ghost before = children@;
            children.push(c);
            proof {
                assert(children@.drop_last() =~= before);
                assert(self.children@.subrange(0, j + 1).drop_last() =~= self.children@.subrange(
                    0,
                    j as int,
                ));
            }
            j = j + 1;
        }
        proof {
            assert(self.children@.subrange(0, self.children@.len() as int) =~= self.children@);
        }
        Node { name: self.name.clone(), properties: props, children }
    }
}

impl Clone for Property {
    fn clone(&self) -> (r: Property)
        ensures
            r@ == self@,
    {
        Property { name: self.name.clone(), value: self.value.clone() }
    }
}

/// Parse a property: `writeString(name)` then a `juce::var` value.
pub fn parse_property(reader: &mut Reader) -> (r: Option<Property>)
    ensures
        final(reader).bytes() == old(reader).bytes(),
        final(reader).position() >= old(reader).position(),
        match spec_read_property(old(reader).rest()) {
            Some((p, c)) => r matches Some(q) && q@ == p && final(reader).position() == old(
                reader).position() + c,
            None => r is None && final(reader).position() == old(reader).position()
                + spec_property_stop(old(reader).rest()),
        },
{
    let ghost s = old(reader).rest();
    let name = match reader.read_cstring() {
        Some(n) => n.to_owned(),
        None => {
            return None;
        },
    };
    proof {
        lemma_read_cstring_consumes(s);
        let c1 = reader.position() - old(reader).position();
        lemma_tail_skip(reader.bytes(), old(reader).position(), c1);
    }
    let value = match reader.read_value() {
        Some(v) => v,
        None => {
            proof {
                let c1 = reader.position() - old(reader).position();
                assert(spec_property_stop(s) == reader.position() - old(reader).position());
            }
            return None;
        },
    };
    Some(Property { name, value })
}

/// Parse `count` consecutive properties.
fn parse_properties(reader: &mut Reader, count: usize) -> (r: Option<Vec<Property>>)
    ensures
        final(reader).bytes() == old(reader).bytes(),
        final(reader).position() >= old(reader).position(),
        match spec_read_properties(old(reader).rest(), count as nat) {
            Some((ps, k)) => r matches Some(v) && prop_models(v@) == ps && final(reader).position()
                == old(reader).position() + k,
            None => r is None && final(reader).position() == old(reader).position()
                + spec_properties_stop(old(reader).rest(), count as nat),
        },
{
    let ghost data = old(reader).bytes();
    let ghost start = old(reader).position();
    let ghost s = old(reader).rest();
    let mut properties: Vec<Property> = Vec::new();
    let mut i: usize = 0;
    proof {
        assert(prop_models(properties@) =~= Seq::empty());
    }
    while i < count
        invariant
            i <= count,
            reader.bytes() == data,
            data == old(reader).bytes(),
            start == old(reader).position(),
            s == old(reader).rest(),
            start <= reader.position(),
            spec_read_properties(s, count as nat) == match spec_read_properties(
                reader.rest(),
                (count - i) as nat,
            ) {
                Some((ps, k)) => Some(
                    (prop_models(properties@) + ps, (reader.position() - start) + k),
                ),
                None => None,
            },
            spec_properties_stop(s, count as nat) == (reader.position() - start) + spec_properties_stop(
                reader.rest(),
                (count - i) as nat,
            ),
        decreases count - i,
    {
        let ghost here = reader.position();
        let ghost t = reader.rest();
        let p = match parse_property(reader) {
            Some(p) => p,
            None => {
                proof {
                    assert(spec_properties_stop(t, (count - i) as nat) == spec_property_stop(t));
                }
                return None;
            },
        };
        proof {
            lemma_read_property_consumes(t);
            let c = reader.position() - here;
            lemma_tail_skip(data, here, c);
            assert(spec_properties_stop(t, (count - i) as nat) == c + spec_properties_stop(
                reader.rest(),
                (count - i - 1) as nat,
            ));
            let old_models = prop_models(properties@);
            assert(prop_models(properties@.push(p)) =~= old_models.push(p@));
            match spec_read_properties(reader.rest(), (count - i - 1) as nat) {
                Some((ps, k)) => {
                    assert(old_models + (seq![p@] + ps) =~= old_models.push(p@) + ps);
                },
                None => {},
            }
        }
        properties.push(p);
        i = i + 1;
    }
    proof {
        assert(prop_models(properties@) + Seq::<(Seq<char>, VarModel)>::empty() =~= prop_models(
            properties@,
        ));
    }
    Some(properties)
}

/// Parse `count` consecutive nodes.
fn parse_nodes(reader: &mut Reader, count: usize) -> (r: Option<Vec<Node>>)
    ensures
        final(reader).bytes() == old(reader).bytes(),
        final(reader).position() >= old(reader).position(),
        match spec_read_nodes(old(reader).rest(), count as nat) {
            Some((ns, k)) => r matches Some(v) && node_models(v@) == ns && final(reader).position()
                == old(reader).position() + k,
            None => r is None && final(reader).position() == old(reader).position()
                + spec_nodes_stop(old(reader).rest(), count as nat),
        },
    decreases old(reader).rest().len(), 1int,
{
    let ghost data = old(reader).bytes();
    let ghost start = old(reader).position();
    let ghost s = old(reader).rest();
    let mut children: Vec<Node> = Vec::new();
    let mut j: usize = 0;
    while j < count
        invariant
            j <= count,
            reader.bytes() == data,
            data == old(reader).bytes(),
            start == old(reader).position(),
            s == old(reader).rest(),
            start <= reader.position(),
            reader.rest().len() <= s.len(),
            spec_read_nodes(s, count as nat) == match spec_read_nodes(
                reader.rest(),
                (count - j) as nat,
            ) {
                Some((ns, k)) => Some(
                    (node_models(children@) + ns, (reader.position() - start) + k),
                ),
                None => None,
            },
            spec_nodes_stop(s, count as nat) == (reader.position() - start) + spec_nodes_stop(
                reader.rest(),
                (count - j) as nat,
            ),
        decreases count - j,
    {
        let ghost here = reader.position();
        let ghost t = reader.rest();
        proof {
            reveal_with_fuel(spec_read_nodes, 2);
        }
        let n = match parse_node(reader) {
            Some(n) => n,
            None => {
                proof {
                    assert(spec_nodes_stop(t, (count - j) as nat) == spec_node_stop(t));
                }
                return None;
            },
        };
        proof {
            lemma_read_node_consumes(t);
            let c = reader.position() - here;
            lemma_tail_skip(data, here, c);
            assert(spec_nodes_stop(t, (count - j) as nat) == c + spec_nodes_stop(
                reader.rest(),
                (count - j - 1) as nat,
            ));
            let old_models = node_models(children@);
            assert(node_models(children@.push(n)) == old_models.push(n@)) by {
                assert(children@.push(n).drop_last() =~= children@);
            }
            match spec_read_nodes(reader.rest(), (count - j - 1) as nat) {
                Some((ns, k)) => {
                    assert(old_models + (seq![n@] + ns) =~= old_models.push(n@) + ns);
                },
                None => {},
            }
        }
        children.push(n);
        j = j + 1;
    }
    proof {
        assert(node_models(children@) + Seq::<NodeModel>::empty() =~= node_models(children@));
    }
    Some(children)
}

/// Parse one `juce::ValueTree::writeToStream` node from the cursor: name,
/// property count, properties, child count, children (recursive).
#[verifier::spinoff_prover]
#[verifier::rlimit(80)]
pub fn parse_node(reader: &mut Reader) -> (r: Option<Node>)
    ensures
        final(reader).bytes() == old(reader).bytes(),
        final(reader).position() >= old(reader).position(),
        match spec_read_node(old(reader).rest()) {
            Some((m, c)) => r matches Some(n) && n@ == m && final(reader).position() == old(
                reader).position() + c,
            None => r is None && final(reader).position() == old(reader).position()
                + spec_node_stop(old(reader).rest()),
        },
    decreases old(reader).rest().len(), 0int,
{
    let ghost s = old(reader).rest();
    let ghost p0 = old(reader).position();
    let ghost data = old(reader).bytes();
    // Node name (writeString: UTF-8 + NUL).
    let name = match reader.read_cstring() {
        Some(n) => n.to_owned(),
        None => {
            return None;
        },
    };
    let ghost c1 = reader.position() - p0;
    proof {
        lemma_read_cstring_consumes(s);
        lemma_tail_skip(data, p0, c1);
    }
    // Property count (writeCompressedInt).
    let prop_count = match reader.read_compressed_int() {
        Some(v) => v,
        None => {
            proof {
                let s1 = s.subrange(c1, s.len() as int);
                assert(s1 =~= tail(data, p0 + c1));
                assert(spec_node_stop(s) == reader.position() - p0);
            }
            return None;
        },
    };
    if prop_count < 0 {
        proof {
            let s1 = s.subrange(c1, s.len() as int);
            assert(s1 =~= tail(data, p0 + c1));
            assert(spec_node_stop(s) == reader.position() - p0);
        }
        return None;
    }
    let ghost c2 = reader.position() - p0 - c1;
    let ghost s1 = s.subrange(c1, s.len() as int);
    let ghost s2 = s1.subrange(c2, s1.len() as int);
    proof {
        lemma_tail_skip(data, p0, c1 + c2);
        assert(s2 =~= reader.rest());
        assert(spec_read_cstring(s) == Some((name@, c1)));
        assert(spec_read_compressed_int(s1) == Some((prop_count as int, c2)));
    }
    let properties = match parse_properties(reader, prop_count as usize) {
        Some(ps) => ps,
        None => {
            proof {
                assert(spec_node_stop(s) == reader.position() - p0);
            }
            return None;
        },
    };
    let ghost k1 = reader.position() - p0 - c1 - c2;
    proof {
        lemma_read_properties_consumes(tail(data, p0 + c1 + c2), prop_count as nat);
        lemma_tail_skip(data, p0, c1 + c2 + k1);
        assert(s2.subrange(k1, s2.len() as int) =~= reader.rest());
    }
    // Child count (writeCompressedInt), then children recursively. A declared
    // count is a hard contract: returning a partial tree on truncation would
    // let a corrupted full sync look valid and build a subtly incomplete
    // Layout.
    let child_count = match reader.read_compressed_int() {
        Some(v) => v,
        None => {
            proof {
                assert(spec_node_stop(s) == reader.position() - p0);
            }
            return None;
        },
    };
    if child_count < 0 {
        proof {
            assert(spec_node_stop(s) == reader.position() - p0);
        }
        return None;
    }
    let ghost c3 = reader.position() - p0 - c1 - c2 - k1;
    let ghost s3 = s2.subrange(k1, s2.len() as int);
    let ghost s4 = s3.subrange(c3, s3.len() as int);
    proof {
        lemma_tail_skip(data, p0, c1 + c2 + k1 + c3);
        assert(s3 =~= tail(data, p0 + c1 + c2 + k1));
        assert(s4 =~= reader.rest());
        assert(reader.rest().len() < s.len());
        assert(spec_read_properties(s2, prop_count as nat) == Some((prop_models(properties@), k1)));
        assert(spec_read_compressed_int(s3) == Some((child_count as int, c3)));
    }
    let children = match parse_nodes(reader, child_count as usize) {
        Some(cs) => cs,
        None => {
            proof {
                assert(spec_node_stop(s) == reader.position() - p0);
            }
            return None;
        },
    };
    Some(Node { name, properties, children })
}

/// Parse a ValueTree from binary data.
///
/// The data is the payload after the RODE transport frame, i.e. the
/// `juce::ValueTreeSynchroniser` message: a one-byte `ChangeType` header
/// (`fullSync = 2`) followed by `ValueTree::writeToStream` of the root node.
pub fn parse_valuetree(data: &[u8]) -> (r: Option<Node>)
    ensures
        match spec_parse_valuetree(data@) {
            Some(m) => r matches Some(n) && n@ == m,
            None => r is None,
        },
{
    if data.len() == 0 {
        return None;
    }
    let mut reader = Reader::new(data);
    // ChangeType::fullSync header byte (juce::ValueTreeSynchroniser).
    let change_type = match reader.read_u8() {
        Some(b) => b,
        None => {
            return None;
        },
    };
    if change_type != FULL_SYNC_CHANGE {
        return None;
    }
    proof {
        assert(reader.rest() =~= data@.subrange(1, data@.len() as int));
    }
    // Parse exactly one root node. Trailing bytes are malformed at this layer;
    // transport framing is responsible for separating adjacent messages.
    let root = match parse_node(&mut reader) {
        Some(n) => n,
        None => {
            return None;
        },
    };
    proof {
        lemma_read_node_consumes(data@.subrange(1, data@.len() as int));
    }
    if reader.remaining() == 0 {
        Some(root)
    } else {
        None
    }
}

/// The one-line summary of a node: its name and how many properties and
/// children it has.
pub open spec fn spec_node_summary(node: NodeModel) -> Seq<char> {
    "Node("@ + node.name + ", "@ + spec_decimal(node.properties.len()) + " props, "@ + spec_decimal(
        node.children.len(),
    ) + " children)"@
}

impl Node {
    /// `Node(NAME, P props, C children)`.
    pub fn to_string(&self) -> (r: String)
        ensures
            r@ == spec_node_summary(self@),
    {
        proof {
            lemma_node_models(self.children@);
        }
        let mut r = concat_str("Node(", self.name.as_str());
        r.append(", ");
        push_decimal(&mut r, self.properties.len() as u64);
        r.append(" props, ");
        push_decimal(&mut r, self.children.len() as u64);
        r.append(" children)");
        r
    }

    /// Encode this node using JUCE's `ValueTree::writeToStream` format.
    ///
    /// This writes the tree body only. Use
    /// [`crate::change_frame::encode_full_sync`] to prepend the full-sync
    /// change type, then wrap that payload in a transport packet if needed.
    pub fn write_to_stream(&self, out: &mut Vec<u8>)
        requires
            spec_write_node(self@).len() <= i64::MAX,
        ensures
            final(out)@ == old(out)@ + spec_write_node(self@),
        decreases self,
    {
        let ghost m = self@;
        let ghost ps = m.properties;
        let ghost cs = m.children;
        let ghost total = spec_write_node(m);
        proof {
            lemma_write_properties_len(ps);
            lemma_write_nodes_len(cs);
        }
        write_cstring(out, self.name.as_str());
        write_compressed_int(out, self.properties.len() as i64);
        let ghost after_count = out@;
        let mut i: usize = 0;
        proof {
            assert(ps.subrange(0, ps.len() as int) =~= ps);
            lemma_write_properties_split_len(ps);
        }
        while i < self.properties.len()
            invariant
                i <= self.properties@.len(),
                ps == prop_models(self.properties@),
                ps.len() == self.properties@.len(),
                after_count + spec_write_properties(ps) == out@ + spec_write_properties(
                    ps.subrange(i as int, ps.len() as int),
                ),
                out@.len() >= after_count.len(),
                spec_write_properties(ps).len() <= i64::MAX,
            decreases self.properties@.len() - i,
        {
            let p = &self.properties[i];
            let ghost rest = ps.subrange(i as int, ps.len() as int);
            proof {
                assert(rest[0] == p@);
                assert(rest.drop_first() =~= ps.subrange(i + 1, ps.len() as int));
                let sfx = spec_write_properties(rest);
                assert((after_count + spec_write_properties(ps)).len() == (out@ + sfx).len());
            }
            write_cstring(out, p.name.as_str());
            p.value.write_to_stream(out);
            i = i + 1;
            proof {
                assert(after_count + spec_write_properties(ps) =~= out@ + spec_write_properties(
                    ps.subrange(i as int, ps.len() as int),
                ));
            }
        }
        proof {
            assert(ps.subrange(ps.len() as int, ps.len() as int) =~= Seq::<
                (Seq<char>, VarModel),
            >::empty());
        }
        write_compressed_int(out, self.children.len() as i64);
        let ghost after_children_count = out@;
        let mut j: usize = 0;
        proof {
            lemma_node_models(self.children@);
            assert(cs.subrange(0, cs.len() as int) =~= cs);
            assert(decreases_to!(*self => self.children));
            assert(out@ =~= old(out)@ + (spec_cstring(m.name) + spec_compressed_int(
                ps.len() as int,
            ) + spec_write_properties(ps) + spec_compressed_int(cs.len() as int)));
            assert(total =~= (spec_cstring(m.name) + spec_compressed_int(ps.len() as int)
                + spec_write_properties(ps) + spec_compressed_int(cs.len() as int))
                + spec_write_nodes(cs));
        }
        while j < self.children.len()
            invariant
                j <= self.children@.len(),
                decreases_to!(*self => self.children),
                cs == node_models(self.children@),
                cs.len() == self.children@.len(),
                forall|k: int|
                    0 <= k < self.children@.len() ==> #[trigger] cs[k] == node_model(
                        self.children@[k],
                    ),
                after_children_count + spec_write_nodes(cs) == out@ + spec_write_nodes(
                    cs.subrange(j as int, cs.len() as int),
                ),
                out@.len() >= after_children_count.len(),
                spec_write_nodes(cs).len() <= i64::MAX,
            decreases self.children@.len() - j,
        {
            let c = &self.children[j];
            let ghost rest = cs.subrange(j as int, cs.len() as int);
            proof {
                assert(decreases_to!(self.children => self.children@[j as int]));
                assert(rest[0] == c@);
                assert(rest.drop_first() =~= cs.subrange(j + 1, cs.len() as int));
                let sfx = spec_write_nodes(rest);
                assert((after_children_count + spec_write_nodes(cs)).len() == (out@ + sfx).len());
            }
            c.write_to_stream(out);
            j = j + 1;
            proof {
                assert(after_children_count + spec_write_nodes(cs) =~= out@ + spec_write_nodes(
                    cs.subrange(j as int, cs.len() as int),
                ));
            }
        }
        proof {
            assert(cs.subrange(cs.len() as int, cs.len() as int) =~= Seq::<NodeModel>::empty());
            assert(out@ =~= old(out)@ + total);
        }
    }
}

proof fn lemma_write_properties_len(ps: Seq<(Seq<char>, VarModel)>)
    ensures
        spec_write_properties(ps).len() >= ps.len(),
    decreases ps.len(),
{
    if ps.len() > 0 {
        lemma_write_properties_len(ps.drop_first());
    }
}

proof fn lemma_write_nodes_len(ns: Seq<NodeModel>)
    ensures
        spec_write_nodes(ns).len() >= ns.len(),
    decreases ns.len(),
{
    if ns.len() > 0 {
        lemma_write_nodes_len(ns.drop_first());
        let n = ns[0];
        assert(spec_cstring(n.name).len() >= 1);
        assert(spec_write_node(n).len() >= spec_cstring(n.name).len());
    }
}

proof fn lemma_write_properties_split_len(ps: Seq<(Seq<char>, VarModel)>)
    ensures
        forall|i: int|
            0 <= i < ps.len() ==> spec_write_value(#[trigger] ps[i].1).len()
                <= spec_write_properties(ps.subrange(i, ps.len() as int)).len(),
{
    assert forall|i: int| 0 <= i < ps.len() implies spec_write_value(#[trigger] ps[i].1).len()
        <= spec_write_properties(ps.subrange(i, ps.len() as int)).len() by {
        let rest = ps.subrange(i, ps.len() as int);
        assert(rest[0] == ps[i]);
    }
}

/// `OutputStream::writeString`: the UTF-8 bytes of `s`, then a NUL.
fn write_cstring(out: &mut Vec<u8>, s: &str)
    ensures
        final(out)@ == old(out)@ + spec_cstring(s@),
{
    push_all(out, str_bytes(s));
    out.push(0);
    proof {
        assert(out@ =~= old(out)@ + spec_cstring(s@));
    }
}

} // verus!

verus! {

// ---------------------------------------------------------------------------
// Round trips

/// `first_nul` finds a NUL that no earlier byte matches.
proof fn lemma_first_nul_at(s: Seq<u8>, k: int)
    requires
        0 <= k < s.len(),
        s[k] == 0,
        forall|j: int| 0 <= j < k ==> #[trigger] s[j] != 0,
    ensures
        first_nul(s) == Some(k),
    decreases k,
{
    if k > 0 {
        assert forall|j: int| 0 <= j < k - 1 implies #[trigger] s.drop_first()[j] != 0 by {
            assert(s.drop_first()[j] == s[j + 1]);
        }
        lemma_first_nul_at(s.drop_first(), k - 1);
    }
}

/// A name without NUL characters written by `writeString` reads back
/// unchanged, whatever follows it.
pub proof fn lemma_cstring_round_trip(cs: Seq<char>, rest: Seq<u8>)
    requires
        no_nul(cs),
    ensures
        spec_read_cstring(spec_cstring(cs) + rest) == Some((cs, spec_cstring(cs).len() as int)),
{
    let e = encode_utf8(cs);
    let s = spec_cstring(cs) + rest;
    lemma_encode_no_zero_byte(cs);
    assert forall|j: int| 0 <= j < e.len() implies #[trigger] s[j] != 0 by {
        assert(s[j] == e[j]);
    }
    assert(s[e.len() as int] == 0);
    lemma_first_nul_at(s, e.len() as int);
    assert(s.subrange(0, e.len() as int) =~= e);
    encode_utf8_valid_utf8(cs);
    encode_utf8_decode_utf8(cs);
}

/// A tree that survives a write/read round trip: names carry no NUL, every
/// value round-trips, and both counts fit a compressed int.
pub open spec fn node_round_trips(n: NodeModel) -> bool
    decreases n,
{
    &&& no_nul(n.name)
    &&& frame_fits(n.properties.len() as int)
    &&& frame_fits(n.children.len() as int)
    &&& forall|i: int|
        0 <= i < n.properties.len() ==> no_nul(#[trigger] n.properties[i].0) && var_round_trips(
            n.properties[i].1,
        )
    &&& forall|i: int| 0 <= i < n.children.len() ==> node_round_trips(#[trigger] n.children[i])
}

#[verifier::spinoff_prover]
#[verifier::rlimit(30)]
proof fn lemma_properties_round_trip(ps: Seq<(Seq<char>, VarModel)>, rest: Seq<u8>)
    requires
        forall|i: int|
            0 <= i < ps.len() ==> no_nul(#[trigger] ps[i].0) && var_round_trips(ps[i].1),
    ensures
        spec_read_properties(spec_write_properties(ps) + rest, ps.len()) == Some(
            (ps, spec_write_properties(ps).len() as int),
        ),
    decreases ps.len(),
{
    if ps.len() == 0 {
        assert(spec_write_properties(ps) + rest =~= rest);
    } else {
        let p = ps[0];
        let others = spec_write_properties(ps.drop_first());
        let name = spec_cstring(p.0);
        let val = spec_write_value(p.1);
        let s = spec_write_properties(ps) + rest;
        assert(s =~= name + (val + (others + rest)));
        lemma_cstring_round_trip(p.0, val + (others + rest));
        assert(s.subrange(name.len() as int, s.len() as int) =~= val + (others + rest));
        lemma_value_round_trip(p.1, others + rest);
        let c = name.len() + val.len();
        assert(s.subrange(c as int, s.len() as int) =~= others + rest);
        assert forall|i: int| 0 <= i < ps.drop_first().len() implies no_nul(
            #[trigger] ps.drop_first()[i].0,
        ) && var_round_trips(ps.drop_first()[i].1) by {
            assert(ps.drop_first()[i] == ps[i + 1]);
        }
        lemma_properties_round_trip(ps.drop_first(), rest);
        assert(seq![p] + ps.drop_first() =~= ps);
    }
}

/// Every well-formed tree written by `ValueTree::writeToStream` reads back
/// unchanged through `ValueTree::readFromStream`, consuming exactly its own
/// bytes.
pub proof fn lemma_node_round_trip(n: NodeModel, rest: Seq<u8>)
    requires
        node_round_trips(n),
    ensures
        spec_read_node(spec_write_node(n) + rest) == Some(
            (n, spec_write_node(n).len() as int),
        ),
    decreases n, 0nat,
{
    let name = spec_cstring(n.name);
    let pcount = spec_compressed_int(n.properties.len() as int);
    let props = spec_write_properties(n.properties);
    let ccount = spec_compressed_int(n.children.len() as int);
    let kids = spec_write_nodes(n.children);
    let s = spec_write_node(n) + rest;
    assert(s =~= name + (pcount + (props + (ccount + (kids + rest)))));
    lemma_cstring_round_trip(n.name, pcount + (props + (ccount + (kids + rest))));
    let s1 = s.subrange(name.len() as int, s.len() as int);
    assert(s1 =~= pcount + (props + (ccount + (kids + rest))));
    lemma_compressed_int_round_trip(n.properties.len() as int, props + (ccount + (kids + rest)));
    let s2 = s1.subrange(pcount.len() as int, s1.len() as int);
    assert(s2 =~= props + (ccount + (kids + rest)));
    lemma_properties_round_trip(n.properties, ccount + (kids + rest));
    let s3 = s2.subrange(props.len() as int, s2.len() as int);
    assert(s3 =~= ccount + (kids + rest));
    lemma_compressed_int_round_trip(n.children.len() as int, kids + rest);
    let s4 = s3.subrange(ccount.len() as int, s3.len() as int);
    assert(s4 =~= kids + rest);
    lemma_nodes_round_trip(n.children, rest);
}

/// A run of well-formed trees reads back as written.
pub proof fn lemma_nodes_round_trip(ns: Seq<NodeModel>, rest: Seq<u8>)
    requires
        forall|i: int| 0 <= i < ns.len() ==> node_round_trips(#[trigger] ns[i]),
    ensures
        spec_read_nodes(spec_write_nodes(ns) + rest, ns.len()) == Some(
            (ns, spec_write_nodes(ns).len() as int),
        ),
    decreases ns, 1nat,
{
    if ns.len() == 0 {
        assert(spec_write_nodes(ns) + rest =~= rest);
    } else {
        let first = spec_write_node(ns[0]);
        let others = spec_write_nodes(ns.drop_first());
        let s = spec_write_nodes(ns) + rest;
        assert(decreases_to!(ns => ns[0]));
        lemma_node_round_trip(ns[0], others + rest);
        assert(s =~= first + (others + rest));
        assert(s.subrange(first.len() as int, s.len() as int) =~= others + rest);
        assert forall|i: int| 0 <= i < ns.drop_first().len() implies node_round_trips(
            #[trigger] ns.drop_first()[i],
        ) by {
            assert(ns.drop_first()[i] == ns[i + 1]);
        }
        lemma_nodes_round_trip(ns.drop_first(), rest);
        assert(seq![ns[0]] + ns.drop_first() =~= ns);
    }
}

} // verus!

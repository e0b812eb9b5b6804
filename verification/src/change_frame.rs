//! JUCE `ValueTreeSynchroniser` change-frame encoder and decoder.
//!
//! Handles low-level incremental change messages such as property modifications
//! and child node additions or removals.

use vstd::prelude::*;

use crate::juce_var::{
    lemma_compressed_int_round_trip, lemma_read_value_consumes, lemma_value_round_trip,
    spec_compressed_int, spec_cstring, spec_read_compressed_int, spec_read_cstring,
    spec_read_value, spec_write_value, var_round_trips, write_compressed_int, Reader, Value,
    VarModel,
};
use crate::text::{no_nul, str_bytes};
use crate::valuetree::{
    lemma_cstring_round_trip, lemma_node_round_trip, lemma_read_cstring_consumes,
    lemma_read_node_consumes, node_round_trips, parse_node, spec_parse_valuetree, spec_read_node,
    spec_write_node, Node, NodeModel, FULL_SYNC_CHANGE,
};
use crate::wire::{lemma_tail_skip, push_all, tail};

verus! {

pub const PROPERTY_CHANGED: u8 = 1;
pub const CHILD_ADDED: u8 = 3;
pub const CHILD_REMOVED: u8 = 4;
pub const CHILD_MOVED: u8 = 5;
pub const PROPERTY_REMOVED: u8 = 6;

/// A decoded ValueTree change frame.
#[derive(Debug, PartialEq)]
pub enum ChangeFrame {
    PropertyChanged { path: Vec<u32>, name: String, value: Value },
    PropertyRemoved { path: Vec<u32>, name: String },
    ChildAdded { path: Vec<u32>, index: u32, subtree: Node },
    ChildRemoved { path: Vec<u32>, old_index: u32 },
    ChildMoved { path: Vec<u32>, old_index: u32, new_index: u32 },
    FullSync { root: Node },
}

/// The content of a [`ChangeFrame`].
pub enum FrameModel {
    PropertyChanged { path: Seq<u32>, name: Seq<char>, value: VarModel },
    PropertyRemoved { path: Seq<u32>, name: Seq<char> },
    ChildAdded { path: Seq<u32>, index: u32, subtree: NodeModel },
    ChildRemoved { path: Seq<u32>, old_index: u32 },
    ChildMoved { path: Seq<u32>, old_index: u32, new_index: u32 },
    FullSync { root: NodeModel },
}

impl View for ChangeFrame {
    type V = FrameModel;

    open spec fn view(&self) -> FrameModel {
        match self {
            ChangeFrame::PropertyChanged { path, name, value } => FrameModel::PropertyChanged {
                path: path@,
                name: name@,
                value: value@,
            },
            ChangeFrame::PropertyRemoved { path, name } => FrameModel::PropertyRemoved {
                path: path@,
                name: name@,
            },
            ChangeFrame::ChildAdded { path, index, subtree } => FrameModel::ChildAdded {
                path: path@,
                index: *index,
                subtree: subtree@,
            },
            ChangeFrame::ChildRemoved { path, old_index } => FrameModel::ChildRemoved {
                path: path@,
                old_index: *old_index,
            },
            ChangeFrame::ChildMoved { path, old_index, new_index } => FrameModel::ChildMoved {
                path: path@,
                old_index: *old_index,
                new_index: *new_index,
            },
            ChangeFrame::FullSync { root } => FrameModel::FullSync { root: root@ },
        }
    }
}

/// The path of a change (empty for a full sync).
pub open spec fn frame_path(f: FrameModel) -> Seq<u32> {
    match f {
        FrameModel::PropertyChanged { path, .. } => path,
        FrameModel::PropertyRemoved { path, .. } => path,
        FrameModel::ChildAdded { path, .. } => path,
        FrameModel::ChildRemoved { path, .. } => path,
        FrameModel::ChildMoved { path, .. } => path,
        FrameModel::FullSync { .. } => Seq::empty(),
    }
}

/// Whether a change alters the tree's topology.
pub open spec fn frame_is_structural(f: FrameModel) -> bool {
    f is ChildAdded || f is ChildRemoved || f is ChildMoved || f is FullSync
}

impl ChangeFrame {
    /// Path component of the change, if any (empty for `FullSync`).
    pub fn path(&self) -> (r: &[u32])
        ensures
            r@ == frame_path(self@),
    {
        match self {
            ChangeFrame::PropertyChanged { path, .. } => path.as_slice(),
            ChangeFrame::PropertyRemoved { path, .. } => path.as_slice(),
            ChangeFrame::ChildAdded { path, .. } => path.as_slice(),
            ChangeFrame::ChildRemoved { path, .. } => path.as_slice(),
            ChangeFrame::ChildMoved { path, .. } => path.as_slice(),
            ChangeFrame::FullSync { .. } => {
                let empty: &[u32] = &[];
                proof {
                    assert(empty@ =~= Seq::<u32>::empty());
                }
                empty
            },
        }
    }

    /// True if the change alters tree topology.
    pub fn is_structural(&self) -> (r: bool)
        ensures
            r == frame_is_structural(self@),
    {
        match self {
            ChangeFrame::ChildAdded { .. } => true,
            ChangeFrame::ChildRemoved { .. } => true,
            ChangeFrame::ChildMoved { .. } => true,
            ChangeFrame::FullSync { .. } => true,
            _ => false,
        }
    }
}

// ---------------------------------------------------------------------------
// Wire format

/// The bytes of `s` after the first `c`.
pub open spec fn after(s: Seq<u8>, c: int) -> Seq<u8> {
    s.subrange(c, s.len() as int)
}

/// A non-negative compressed int that fits a `u32`, and the bytes consumed.
pub open spec fn spec_read_index(s: Seq<u8>) -> Option<(u32, int)> {
    match spec_read_compressed_int(s) {
        Some((v, c)) => if 0 <= v <= u32::MAX {
            Some((v as u32, c))
        } else {
            None
        },
        None => None,
    }
}

/// `n` indices in a row.
pub open spec fn spec_read_indices(s: Seq<u8>, n: nat) -> Option<(Seq<u32>, int)>
    decreases n,
{
    if n == 0 {
        Some((Seq::empty(), 0))
    } else {
        match spec_read_index(s) {
            None => None,
            Some((v, c)) => match spec_read_indices(after(s, c), (n - 1) as nat) {
                None => None,
                Some((vs, k)) => Some((seq![v] + vs, c + k)),
            },
        }
    }
}

/// A tree path: a level count, then one child index per level.
pub open spec fn spec_read_path(s: Seq<u8>) -> Option<(Seq<u32>, int)> {
    match spec_read_compressed_int(s) {
        Some((n, c)) => if n < 0 {
            None
        } else {
            match spec_read_indices(after(s, c), n as nat) {
                Some((p, k)) => Some((p, c + k)),
                None => None,
            }
        },
        None => None,
    }
}

/// A `propertyChanged` body: path, property name, new value.
pub open spec fn spec_read_property_changed(s: Seq<u8>) -> Option<(FrameModel, int)> {
    match spec_read_path(s) {
        None => None,
        Some((path, c1)) => match spec_read_cstring(after(s, c1)) {
            None => None,
            Some((name, c2)) => match spec_read_value(after(s, c1 + c2)) {
                None => None,
                Some((value, c3)) => Some(
                    (FrameModel::PropertyChanged { path, name, value }, c1 + c2 + c3),
                ),
            },
        },
    }
}

/// A `childAdded` body: path, insertion index, the new subtree.
pub open spec fn spec_read_child_added(s: Seq<u8>) -> Option<(FrameModel, int)> {
    match spec_read_path(s) {
        None => None,
        Some((path, c1)) => match spec_read_index(after(s, c1)) {
            None => None,
            Some((index, c2)) => match spec_read_node(after(s, c1 + c2)) {
                None => None,
                Some((subtree, c3)) => Some(
                    (FrameModel::ChildAdded { path, index, subtree }, c1 + c2 + c3),
                ),
            },
        },
    }
}

/// A `childRemoved` body: path, removed index.
pub open spec fn spec_read_child_removed(s: Seq<u8>) -> Option<(FrameModel, int)> {
    match spec_read_path(s) {
        None => None,
        Some((path, c1)) => match spec_read_index(after(s, c1)) {
            None => None,
            Some((old_index, c2)) => Some((FrameModel::ChildRemoved { path, old_index }, c1 + c2)),
        },
    }
}

/// A `childMoved` body: path, old index, new index.
pub open spec fn spec_read_child_moved(s: Seq<u8>) -> Option<(FrameModel, int)> {
    match spec_read_path(s) {
        None => None,
        Some((path, c1)) => match spec_read_index(after(s, c1)) {
            None => None,
            Some((old_index, c2)) => match spec_read_index(after(s, c1 + c2)) {
                None => None,
                Some((new_index, c3)) => Some(
                    (FrameModel::ChildMoved { path, old_index, new_index }, c1 + c2 + c3),
                ),
            },
        },
    }
}

/// A `propertyRemoved` body: path, property name.
pub open spec fn spec_read_property_removed(s: Seq<u8>) -> Option<(FrameModel, int)> {
    match spec_read_path(s) {
        None => None,
        Some((path, c1)) => match spec_read_cstring(after(s, c1)) {
            None => None,
            Some((name, c2)) => Some((FrameModel::PropertyRemoved { path, name }, c1 + c2)),
        },
    }
}

/// A `fullSync` body: the whole tree.
pub open spec fn spec_read_full_sync(s: Seq<u8>) -> Option<(FrameModel, int)> {
    match spec_read_node(s) {
        None => None,
        Some((root, c)) => Some((FrameModel::FullSync { root }, c)),
    }
}

/// The body of a change frame of type `t`, and the bytes it takes.
pub open spec fn spec_decode_body(t: u8, s: Seq<u8>) -> Option<(FrameModel, int)> {
    if t == PROPERTY_CHANGED {
        spec_read_property_changed(s)
    } else if t == FULL_SYNC_CHANGE {
        spec_read_full_sync(s)
    } else if t == CHILD_ADDED {
        spec_read_child_added(s)
    } else if t == CHILD_REMOVED {
        spec_read_child_removed(s)
    } else if t == CHILD_MOVED {
        spec_read_child_moved(s)
    } else if t == PROPERTY_REMOVED {
        spec_read_property_removed(s)
    } else {
        None
    }
}

/// A change-frame payload: a change-type byte, then a body that takes up
/// every remaining byte.
pub open spec fn spec_decode(p: Seq<u8>) -> Option<FrameModel> {
    if p.len() == 0 {
        None
    } else {
        match spec_decode_body(p[0], after(p, 1)) {
            Some((f, c)) => if 1 + c == p.len() {
                Some(f)
            } else {
                None
            },
            None => None,
        }
    }
}

/// The indices of a path, each as a compressed int.
pub open spec fn spec_write_indices(ps: Seq<u32>) -> Seq<u8>
    decreases ps.len(),
{
    if ps.len() == 0 {
        Seq::empty()
    } else {
        spec_write_indices(ps.drop_last()) + spec_compressed_int(ps.last() as int)
    }
}

/// A path: its level count, then its indices.
pub open spec fn spec_write_path(ps: Seq<u32>) -> Seq<u8> {
    spec_compressed_int(ps.len() as int) + spec_write_indices(ps)
}

/// A `propertyChanged` payload.
pub open spec fn spec_encode_property_changed(
    path: Seq<u32>,
    name: Seq<char>,
    value: VarModel,
) -> Seq<u8> {
    seq![PROPERTY_CHANGED] + spec_write_path(path) + spec_cstring(name) + spec_write_value(value)
}

/// A `fullSync` payload.
pub open spec fn spec_encode_full_sync(root: NodeModel) -> Seq<u8> {
    seq![FULL_SYNC_CHANGE] + spec_write_node(root)
}

// ---------------------------------------------------------------------------
// Progress facts

proof fn lemma_read_indices_consumes(s: Seq<u8>, n: nat)
    ensures
        spec_read_indices(s, n) matches Some((vs, k)) ==> 0 <= k <= s.len() && vs.len() == n,
    decreases n,
{
    if n > 0 {
        if let Some((v, c)) = spec_read_index(s) {
            lemma_read_compressed_int_consumes(s);
            lemma_read_indices_consumes(after(s, c), (n - 1) as nat);
        }
    }
}

proof fn lemma_read_compressed_int_consumes(s: Seq<u8>)
    ensures
        spec_read_compressed_int(s) matches Some((v, c)) ==> 1 <= c <= s.len(),
{
}

proof fn lemma_read_path_consumes(s: Seq<u8>)
    ensures
        spec_read_path(s) matches Some((p, c)) ==> 1 <= c <= s.len(),
{
    lemma_read_compressed_int_consumes(s);
    if let Some((n, c)) = spec_read_compressed_int(s) {
        if n >= 0 {
            lemma_read_indices_consumes(after(s, c), n as nat);
        }
    }
}

// ---------------------------------------------------------------------------
// Executable codec

/// Read a non-negative compressed int that fits a `u32`.
fn read_compint_u32(reader: &mut Reader) -> (r: Option<u32>)
    ensures
        final(reader).bytes() == old(reader).bytes(),
        final(reader).position() >= old(reader).position(),
        match spec_read_index(old(reader).rest()) {
            Some((v, c)) => r == Some(v) && final(reader).position() == old(reader).position() + c,
            None => r is None,
        },
{
    let v = match reader.read_compressed_int() {
        Some(v) => v,
        None => {
            return None;
        },
    };
    if v < 0 || v > 0xffff_ffff {
        return None;
    }
    Some(v as u32)
}

/// Read a path: a level count, then one child index per level.
fn read_path(reader: &mut Reader) -> (r: Option<Vec<u32>>)
    ensures
        final(reader).bytes() == old(reader).bytes(),
        final(reader).position() >= old(reader).position(),
        match spec_read_path(old(reader).rest()) {
            Some((p, c)) => r matches Some(v) && v@ == p && final(reader).position() == old(
                reader).position() + c,
            None => r is None,
        },
{
    let ghost data = old(reader).bytes();
    let ghost p0 = old(reader).position();
    let ghost s = old(reader).rest();
    let n = match reader.read_compressed_int() {
        Some(n) => n,
        None => {
            return None;
        },
    };
    if n < 0 {
        return None;
    }
    let n = n as usize;
    let ghost start = reader.position();
    let ghost s1 = reader.rest();
    proof {
        lemma_read_compressed_int_consumes(s);
        lemma_tail_skip(data, p0, start - p0);
        assert(after(s, start - p0) == s1);
    }
    let mut path: Vec<u32> = Vec::new();
    let mut i: usize = 0;
    while i < n
        invariant
            i <= n,
            reader.bytes() == data,
            data == old(reader).bytes(),
            p0 == old(reader).position(),
            start >= p0,
            start <= reader.position(),
            s1 == tail(data, start),
            start <= data.len(),
            spec_read_path(old(reader).rest()) == match spec_read_indices(s1, n as nat) {
                Some((ps, k)) => Some((ps, (start - p0) + k)),
                None => None,
            },
            spec_read_indices(s1, n as nat) == match spec_read_indices(
                reader.rest(),
                (n - i) as nat,
            ) {
                Some((ps, k)) => Some((path@ + ps, (reader.position() - start) + k)),
                None => None,
            },
        decreases n - i,
    {
        let ghost here = reader.position();
        let ghost t = reader.rest();
        let v = match read_compint_u32(reader) {
            Some(v) => v,
            None => {
                return None;
            },
        };
        proof {
            lemma_read_compressed_int_consumes(t);
            let c = reader.position() - here;
            assert(here <= data.len()) by {
                assert(t.len() >= c);
            }
            lemma_tail_skip(data, here, c);
            match spec_read_indices(reader.rest(), (n - i - 1) as nat) {
                Some((ps, k)) => {
                    assert(path@ + (seq![v] + ps) =~= path@.push(v) + ps);
                },
                None => {},
            }
        }
        path.push(v);
        i = i + 1;
    }
    proof {
        assert(path@ + Seq::<u32>::empty() =~= path@);
    }
    Some(path)
}

/// Read a `propertyChanged` body.
fn read_property_changed(reader: &mut Reader) -> (r: Option<ChangeFrame>)
    ensures
        final(reader).bytes() == old(reader).bytes(),
        final(reader).position() >= old(reader).position(),
        match spec_read_property_changed(old(reader).rest()) {
            Some((f, c)) => r matches Some(g) && g@ == f && final(reader).position() == old(
                reader).position() + c,
            None => r is None,
        },
{
    let ghost data = old(reader).bytes();
    let ghost p0 = old(reader).position();
    let ghost s = old(reader).rest();
    let path = match read_path(reader) {
        Some(p) => p,
        None => {
            return None;
        },
    };
    let ghost c1 = reader.position() - p0;
    proof {
        lemma_read_path_consumes(s);
        lemma_tail_skip(data, p0, c1);
    }
    let name = match reader.read_cstring() {
        Some(n) => n.to_owned(),
        None => {
            return None;
        },
    };
    let ghost c2 = reader.position() - p0 - c1;
    proof {
        lemma_read_cstring_consumes(after(s, c1));
        lemma_tail_skip(data, p0, c1 + c2);
        assert(after(s, c1 + c2) =~= reader.rest());
    }
    let value = match reader.read_value() {
        Some(v) => v,
        None => {
            return None;
        },
    };
    Some(ChangeFrame::PropertyChanged { path, name, value })
}

/// Read a `childAdded` body.
fn read_child_added(reader: &mut Reader) -> (r: Option<ChangeFrame>)
    ensures
        final(reader).bytes() == old(reader).bytes(),
        final(reader).position() >= old(reader).position(),
        match spec_read_child_added(old(reader).rest()) {
            Some((f, c)) => r matches Some(g) && g@ == f && final(reader).position() == old(
                reader).position() + c,
            None => r is None,
        },
{
    let ghost data = old(reader).bytes();
    let ghost p0 = old(reader).position();
    let ghost s = old(reader).rest();
    let path = match read_path(reader) {
        Some(p) => p,
        None => {
            return None;
        },
    };
    let ghost c1 = reader.position() - p0;
    proof {
        lemma_read_path_consumes(s);
        lemma_tail_skip(data, p0, c1);
    }
    let index = match read_compint_u32(reader) {
        Some(v) => v,
        None => {
            return None;
        },
    };
    let ghost c2 = reader.position() - p0 - c1;
    proof {
        lemma_read_compressed_int_consumes(after(s, c1));
        lemma_tail_skip(data, p0, c1 + c2);
        assert(after(s, c1 + c2) =~= reader.rest());
    }
    let subtree = match parse_node(reader) {
        Some(n) => n,
        None => {
            return None;
        },
    };
    Some(ChangeFrame::ChildAdded { path, index, subtree })
}

/// Read a `childRemoved` body.
fn read_child_removed(reader: &mut Reader) -> (r: Option<ChangeFrame>)
    ensures
        final(reader).bytes() == old(reader).bytes(),
        final(reader).position() >= old(reader).position(),
        match spec_read_child_removed(old(reader).rest()) {
            Some((f, c)) => r matches Some(g) && g@ == f && final(reader).position() == old(
                reader).position() + c,
            None => r is None,
        },
{
    let ghost data = old(reader).bytes();
    let ghost p0 = old(reader).position();
    let ghost s = old(reader).rest();
    let path = match read_path(reader) {
        Some(p) => p,
        None => {
            return None;
        },
    };
    let ghost c1 = reader.position() - p0;
    proof {
        lemma_read_path_consumes(s);
        lemma_tail_skip(data, p0, c1);
    }
    let old_index = match read_compint_u32(reader) {
        Some(v) => v,
        None => {
            return None;
        },
    };
    Some(ChangeFrame::ChildRemoved { path, old_index })
}

/// Read a `childMoved` body.
fn read_child_moved(reader: &mut Reader) -> (r: Option<ChangeFrame>)
    ensures
        final(reader).bytes() == old(reader).bytes(),
        final(reader).position() >= old(reader).position(),
        match spec_read_child_moved(old(reader).rest()) {
            Some((f, c)) => r matches Some(g) && g@ == f && final(reader).position() == old(
                reader).position() + c,
            None => r is None,
        },
{
    let ghost data = old(reader).bytes();
    let ghost p0 = old(reader).position();
    let ghost s = old(reader).rest();
    let path = match read_path(reader) {
        Some(p) => p,
        None => {
            return None;
        },
    };
    let ghost c1 = reader.position() - p0;
    proof {
        lemma_read_path_consumes(s);
        lemma_tail_skip(data, p0, c1);
    }
    let old_index = match read_compint_u32(reader) {
        Some(v) => v,
        None => {
            return None;
        },
    };
    let ghost c2 = reader.position() - p0 - c1;
    proof {
        lemma_read_compressed_int_consumes(after(s, c1));
        lemma_tail_skip(data, p0, c1 + c2);
        assert(after(s, c1 + c2) =~= reader.rest());
    }
    let new_index = match read_compint_u32(reader) {
        Some(v) => v,
        None => {
            return None;
        },
    };
    Some(ChangeFrame::ChildMoved { path, old_index, new_index })
}

/// Read a `propertyRemoved` body.
fn read_property_removed(reader: &mut Reader) -> (r: Option<ChangeFrame>)
    ensures
        final(reader).bytes() == old(reader).bytes(),
        final(reader).position() >= old(reader).position(),
        match spec_read_property_removed(old(reader).rest()) {
            Some((f, c)) => r matches Some(g) && g@ == f && final(reader).position() == old(
                reader).position() + c,
            None => r is None,
        },
{
    let ghost data = old(reader).bytes();
    let ghost p0 = old(reader).position();
    let ghost s = old(reader).rest();
    let path = match read_path(reader) {
        Some(p) => p,
        None => {
            return None;
        },
    };
    let ghost c1 = reader.position() - p0;
    proof {
        lemma_read_path_consumes(s);
        lemma_tail_skip(data, p0, c1);
    }
    proof {
        lemma_read_cstring_consumes(reader.rest());
    }
    let name = match reader.read_cstring() {
        Some(n) => n.to_owned(),
        None => {
            return None;
        },
    };
    Some(ChangeFrame::PropertyRemoved { path, name })
}

/// Read a change body of type `change_type`.
fn read_body(reader: &mut Reader, change_type: u8) -> (r: Option<ChangeFrame>)
    ensures
        final(reader).bytes() == old(reader).bytes(),
        final(reader).position() >= old(reader).position(),
        match spec_decode_body(change_type, old(reader).rest()) {
            Some((f, c)) => r matches Some(g) && g@ == f && final(reader).position() == old(
                reader).position() + c,
            None => r is None,
        },
{
    if change_type == PROPERTY_CHANGED {
        read_property_changed(reader)
    } else if change_type == FULL_SYNC_CHANGE {
        match parse_node(reader) {
            Some(root) => Some(ChangeFrame::FullSync { root }),
            None => None,
        }
    } else if change_type == CHILD_ADDED {
        read_child_added(reader)
    } else if change_type == CHILD_REMOVED {
        read_child_removed(reader)
    } else if change_type == CHILD_MOVED {
        read_child_moved(reader)
    } else if change_type == PROPERTY_REMOVED {
        read_property_removed(reader)
    } else {
        None
    }
}

proof fn lemma_decode_body_consumes(t: u8, s: Seq<u8>)
    ensures
        spec_decode_body(t, s) matches Some((f, c)) ==> 0 <= c <= s.len(),
{
    lemma_read_path_consumes(s);
    lemma_read_node_consumes(s);
    if let Some((p, c1)) = spec_read_path(s) {
        let s1 = after(s, c1);
        lemma_read_cstring_consumes(s1);
        lemma_read_compressed_int_consumes(s1);
        if let Some((name, c2)) = spec_read_cstring(s1) {
            assert(after(s, c1 + c2) =~= after(s1, c2));
            lemma_read_value_consumes(after(s, c1 + c2));
        }
        if let Some((i, c2)) = spec_read_index(s1) {
            assert(after(s, c1 + c2) =~= after(s1, c2));
            lemma_read_compressed_int_consumes(after(s, c1 + c2));
            lemma_read_node_consumes(after(s, c1 + c2));
        }
    }
}

/// Decode a change-frame payload.
pub fn decode(payload: &[u8]) -> (r: Option<ChangeFrame>)
    ensures
        match spec_decode(payload@) {
            Some(f) => r matches Some(g) && g@ == f,
            None => r is None,
        },
{
    let mut reader = Reader::new(payload);
    let change_type = match reader.read_u8() {
        Some(t) => t,
        None => {
            return None;
        },
    };
    proof {
        assert(reader.rest() =~= after(payload@, 1));
        lemma_decode_body_consumes(change_type, after(payload@, 1));
    }
    let frame = match read_body(&mut reader, change_type) {
        Some(f) => f,
        None => {
            return None;
        },
    };
    if reader.remaining() == 0 {
        Some(frame)
    } else {
        None
    }
}

/// Encode a complete `fullSync` change-frame payload.
pub fn encode_full_sync(root: &Node) -> (r: Vec<u8>)
    requires
        spec_write_node(root@).len() <= i64::MAX,
    ensures
        r@ == spec_encode_full_sync(root@),
{
    let mut out: Vec<u8> = Vec::new();
    out.push(FULL_SYNC_CHANGE);
    root.write_to_stream(&mut out);
    proof {
        assert(out@ =~= spec_encode_full_sync(root@));
    }
    out
}

/// Encode a `propertyChanged` frame.
pub fn encode_property_changed(path: &[u32], prop_name: &str, value: &Value) -> (r: Vec<u8>)
    requires
        path@.len() <= i64::MAX,
        spec_write_value(value@).len() <= i64::MAX,
    ensures
        r@ == spec_encode_property_changed(path@, prop_name@, value@),
{
    let mut out: Vec<u8> = Vec::new();
    out.push(PROPERTY_CHANGED);
    write_compressed_int(&mut out, path.len() as i64);
    let ghost head = out@;
    let mut i: usize = 0;
    while i < path.len()
        invariant
            i <= path@.len(),
            out@ == head + spec_write_indices(path@.subrange(0, i as int)),
        decreases path@.len() - i,
    {
        let p = path[i];
        write_compressed_int(&mut out, p as i64);
        proof {
            let sub = path@.subrange(0, i + 1);
            assert(sub.drop_last() =~= path@.subrange(0, i as int));
            assert(sub.last() == p);
        }
        i = i + 1;
    }
    proof {
        assert(path@.subrange(0, path@.len() as int) =~= path@);
    }
    push_all(&mut out, str_bytes(prop_name));
    out.push(0);
    value.write_to_stream(&mut out);
    proof {
        assert(out@ =~= spec_encode_property_changed(path@, prop_name@, value@));
    }
    out
}

} // verus!

verus! {

// ---------------------------------------------------------------------------
// Round trips

proof fn lemma_write_indices_front(ps: Seq<u32>)
    requires
        ps.len() > 0,
    ensures
        spec_write_indices(ps) == spec_compressed_int(ps[0] as int) + spec_write_indices(
            ps.drop_first(),
        ),
    decreases ps.len(),
{
    if ps.len() == 1 {
        assert(spec_write_indices(ps.drop_first()) =~= Seq::<u8>::empty());
        assert(spec_write_indices(ps.drop_last()) =~= Seq::<u8>::empty());
        assert(ps.last() == ps[0]);
        assert(spec_write_indices(ps) =~= spec_compressed_int(ps[0] as int) + Seq::<u8>::empty());
    } else {
        lemma_write_indices_front(ps.drop_last());
        assert(ps.drop_last().drop_first() =~= ps.drop_first().drop_last());
        assert(ps.drop_last()[0] == ps[0]);
        assert(ps.drop_first().last() == ps.last());
        assert(spec_write_indices(ps) =~= spec_compressed_int(ps[0] as int) + spec_write_indices(
            ps.drop_first(),
        ));
    }
}

proof fn lemma_indices_round_trip(ps: Seq<u32>, rest: Seq<u8>)
    ensures
        spec_read_indices(spec_write_indices(ps) + rest, ps.len()) == Some(
            (ps, spec_write_indices(ps).len() as int),
        ),
    decreases ps.len(),
{
    if ps.len() == 0 {
        assert(spec_write_indices(ps) + rest =~= rest);
    } else {
        lemma_write_indices_front(ps);
        let first = spec_compressed_int(ps[0] as int);
        let others = spec_write_indices(ps.drop_first());
        let s = spec_write_indices(ps) + rest;
        assert(s =~= first + (others + rest));
        lemma_compressed_int_round_trip(ps[0] as int, others + rest);
        assert(after(s, first.len() as int) =~= others + rest);
        lemma_indices_round_trip(ps.drop_first(), rest);
        assert(seq![ps[0]] + ps.drop_first() =~= ps);
    }
}

/// A path written by the encoder reads back unchanged, whatever follows it.
proof fn lemma_path_round_trip(ps: Seq<u32>, rest: Seq<u8>)
    requires
        ps.len() < 0x1_0000_0000,
    ensures
        spec_read_path(spec_write_path(ps) + rest) == Some(
            (ps, spec_write_path(ps).len() as int),
        ),
{
    let count = spec_compressed_int(ps.len() as int);
    let s = spec_write_path(ps) + rest;
    assert(s =~= count + (spec_write_indices(ps) + rest));
    lemma_compressed_int_round_trip(ps.len() as int, spec_write_indices(ps) + rest);
    assert(after(s, count.len() as int) =~= spec_write_indices(ps) + rest);
    lemma_indices_round_trip(ps, rest);
}

/// `decode` gives back exactly the change that `encode_property_changed`
/// wrote, for every path of fewer than 2^32 levels, every name without NUL
/// characters and every well-formed value.
pub proof fn lemma_property_changed_round_trip(path: Seq<u32>, name: Seq<char>, value: VarModel)
    requires
        path.len() < 0x1_0000_0000,
        no_nul(name),
        var_round_trips(value),
    ensures
        spec_decode(spec_encode_property_changed(path, name, value)) == Some(
            FrameModel::PropertyChanged { path, name, value },
        ),
{
    let p = spec_encode_property_changed(path, name, value);
    let wp = spec_write_path(path);
    let wn = spec_cstring(name);
    let wv = spec_write_value(value);
    let s = after(p, 1);
    assert(s =~= wp + (wn + wv));
    lemma_path_round_trip(path, wn + wv);
    assert(after(s, wp.len() as int) =~= wn + wv);
    lemma_cstring_round_trip(name, wv);
    assert(after(s, (wp.len() + wn.len()) as int) =~= wv + Seq::<u8>::empty());
    lemma_value_round_trip(value, Seq::<u8>::empty());
}

/// Whatever value a `propertyChanged` payload carries, if `decode` accepts
/// the payload it reads a property change on the path that was written, and
/// (for a name without NUL characters) of the name that was written.
pub proof fn lemma_property_changed_decodes(path: Seq<u32>, name: Seq<char>, value: VarModel)
    requires
        path.len() < 0x1_0000_0000,
    ensures
        spec_decode(spec_encode_property_changed(path, name, value)) matches Some(f) ==> (
        f matches FrameModel::PropertyChanged { path: q, name: n, .. } && q == path && (no_nul(
            name,
        ) ==> n == name)),
{
    let p = spec_encode_property_changed(path, name, value);
    let wp = spec_write_path(path);
    let wn = spec_cstring(name);
    let wv = spec_write_value(value);
    let s = after(p, 1);
    assert(s =~= wp + (wn + wv));
    lemma_path_round_trip(path, wn + wv);
    assert(after(s, wp.len() as int) =~= wn + wv);
    if no_nul(name) {
        lemma_cstring_round_trip(name, wv);
    }
}

/// `decode` of an encoded full sync gives back the tree, for every
/// well-formed tree.
pub proof fn lemma_full_sync_round_trip(root: NodeModel)
    requires
        node_round_trips(root),
    ensures
        spec_decode(spec_encode_full_sync(root)) == Some(FrameModel::FullSync { root }),
        spec_parse_valuetree(spec_encode_full_sync(root)) == Some(root),
{
    let p = spec_encode_full_sync(root);
    let s = after(p, 1);
    assert(s =~= spec_write_node(root) + Seq::<u8>::empty());
    assert(p.subrange(1, p.len() as int) =~= s);
    lemma_node_round_trip(root, Seq::<u8>::empty());
}

} // verus!

//! Shared test fixtures and layout builders for unit tests.

use vstd::prelude::*;

use crate::juce_var::{Value, VarModel};
use crate::layout::{spec_build, spec_first_named, spec_position, spec_run_len, Layout, LayoutView};
use crate::valuetree::{lemma_node_models, node_models, prop_models, Node, NodeModel, Property};

verus! {

/// A node with a name and nothing else.
pub open spec fn leaf(name: Seq<char>) -> NodeModel {
    NodeModel { name, properties: Seq::empty(), children: Seq::empty() }
}

/// A node with a name and children.
pub open spec fn branch(name: Seq<char>, children: Seq<NodeModel>) -> NodeModel {
    NodeModel { name, properties: Seq::empty(), children }
}

pub fn n(name: &str) -> (r: Node)
    ensures
        r@ == leaf(name@),
{
    let r = Node { name: name.to_owned(), properties: Vec::new(), children: Vec::new() };
    proof {
        assert(r@.properties =~= Seq::<(Seq<char>, VarModel)>::empty());
        assert(r@.children =~= Seq::<NodeModel>::empty());
    }
    r
}

pub fn np(name: &str, properties: Vec<Property>) -> (r: Node)
    ensures
        r@ == (NodeModel { name: name@, properties: prop_models(properties@), children: Seq::empty() }),
{
    let r = Node { name: name.to_owned(), properties, children: Vec::new() };
    proof {
        assert(r@.children =~= Seq::<NodeModel>::empty());
    }
    r
}

pub fn nc(name: &str, children: Vec<Node>) -> (r: Node)
    ensures
        r@ == branch(name@, node_models(children@)),
{
    let r = Node { name: name.to_owned(), properties: Vec::new(), children };
    proof {
        assert(r@.properties =~= Seq::<(Seq<char>, VarModel)>::empty());
    }
    r
}

pub fn prop(name: &str, value: Value) -> (r: Property)
    ensures
        r@ == (name@, value@),
{
    Property { name: name.to_owned(), value }
}

/// `n` nodes of the same name.
pub open spec fn leaves(name: Seq<char>, n: nat) -> Seq<NodeModel> {
    Seq::new(n, |i: int| leaf(name))
}

/// The `PHYSICALINTERFACE` node of the synthetic root: a header, then three
/// faders.
pub open spec fn synthetic_physical_interface() -> NodeModel {
    branch("PHYSICALINTERFACE"@, seq![leaf("HEADER"@)] + leaves("FADER"@, 3))
}

/// The `SOUNDPADS` node of the synthetic root: a header, then three pads.
pub open spec fn synthetic_soundpads() -> NodeModel {
    branch("SOUNDPADS"@, seq![leaf("PADHEADER"@)] + leaves("PAD"@, 3))
}

/// The children of the canonical synthetic root.
pub open spec fn synthetic_children() -> Seq<NodeModel> {
    seq![leaf("OTHER"@), synthetic_physical_interface()]
        + leaves("CHANNEL"@, 3)
        + leaves("MIX"@, 26)
        + leaves("INPUTSOURCE"@, 19)
        + seq![
        leaf("MASTERCHANNEL"@),
        leaf("OUTPUT"@),
        leaf("DUCKER"@),
        leaf("RECORDER"@),
        leaf("PLAYER"@),
    ] + leaves("HEADPHONE"@, 2) + leaves("EFFECTS_PARAMETERS"@, 3) + seq![
        leaf("GUI"@),
        synthetic_soundpads(),
        leaf("SYSTEM"@),
    ]
}

/// The canonical synthetic root: a `DEVICE` node with the children above.
pub open spec fn synthetic_tree() -> NodeModel {
    branch("DEVICE"@, synthetic_children())
}

/// The smallest tree with a layout: one fader, one channel, one source's
/// mixes.
pub open spec fn minimal_tree() -> NodeModel {
    branch(
        "DEVICE"@,
        seq![branch("PHYSICALINTERFACE"@, seq![leaf("FADER"@)]), leaf("CHANNEL"@)] + leaves(
            "MIX"@,
            13,
        ),
    )
}

/// Append `count` nodes named `name`.
fn push_leaves(children: &mut Vec<Node>, name: &str, count: usize)
    ensures
        node_models(final(children)@) == node_models(old(children)@) + leaves(name@, count as nat),
{
    let ghost base = node_models(children@);
    let mut i: usize = 0;
    while i < count
        invariant
            i <= count,
            node_models(children@) == base + leaves(name@, i as nat),
        decreases count - i,
    {
        let ghost before = children@;
        children.push(n(name));
        proof {
            assert(children@.drop_last() =~= before);
            assert(base + leaves(name@, (i + 1) as nat) =~= (base + leaves(name@, i as nat)).push(leaf(name@)));
        }
        i = i + 1;
    }
}

/// Append one node.
fn push_node(children: &mut Vec<Node>, node: Node)
    ensures
        node_models(final(children)@) == node_models(old(children)@).push(node@),
{
    let ghost before = children@;
    children.push(node);
    proof {
        assert(children@.drop_last() =~= before);
    }
}

/// The canonical synthetic root node used across command and event unit tests.
pub fn synthetic_root() -> (r: Node)
    ensures
        r@ == synthetic_tree(),
{
    let mut phys_children: Vec<Node> = Vec::new();
    proof {
        assert(node_models(phys_children@) =~= Seq::<NodeModel>::empty());
    }
    push_node(&mut phys_children, n("HEADER"));
    proof {
        assert(node_models(phys_children@) =~= seq![leaf("HEADER"@)]);
    }
    push_leaves(&mut phys_children, "FADER", 3);
    let phys = nc("PHYSICALINTERFACE", phys_children);
    let mut children: Vec<Node> = Vec::new();
    proof {
        assert(node_models(children@) =~= Seq::<NodeModel>::empty());
    }
    push_node(&mut children, n("OTHER"));
    push_node(&mut children, phys);  // physical_interface_idx = 1
    proof {
        assert(node_models(children@) =~= seq![leaf("OTHER"@), synthetic_physical_interface()]);
    }
    push_leaves(&mut children, "CHANNEL", 3);
    push_leaves(&mut children, "MIX", 26);
    // 19 INPUTSOURCE nodes (addressable source run), after MIX.
    push_leaves(&mut children, "INPUTSOURCE", 19);
    let ghost before_singletons = node_models(children@);
    // Singleton families (one each), after the INPUTSOURCE run.
    push_node(&mut children, n("MASTERCHANNEL"));
    push_node(&mut children, n("OUTPUT"));
    push_node(&mut children, n("DUCKER"));
    push_node(&mut children, n("RECORDER"));
    push_node(&mut children, n("PLAYER"));
    proof {
        assert(node_models(children@) =~= before_singletons + seq![
            leaf("MASTERCHANNEL"@),
            leaf("OUTPUT"@),
            leaf("DUCKER"@),
            leaf("RECORDER"@),
            leaf("PLAYER"@),
        ]);
    }
    // HEADPHONE is multi-instance; two at the tail (run length 2).
    push_leaves(&mut children, "HEADPHONE", 2);
    // EFFECTS_PARAMETERS is multi-instance; three at the tail (run length 3).
    push_leaves(&mut children, "EFFECTS_PARAMETERS", 3);
    let ghost before_tail = node_models(children@);
    // GUI is the single front-panel UI-state node (singleton) at the tail.
    push_node(&mut children, n("GUI"));
    // SOUNDPADS container with a run of 3 PAD nodes (a non-PAD child first so
    // first_pad is not zero, mirroring the real tree).
    let mut pad_children: Vec<Node> = Vec::new();
    proof {
        assert(node_models(pad_children@) =~= Seq::<NodeModel>::empty());
    }
    push_node(&mut pad_children, n("PADHEADER"));
    proof {
        assert(node_models(pad_children@) =~= seq![leaf("PADHEADER"@)]);
    }
    push_leaves(&mut pad_children, "PAD", 3);
    push_node(&mut children, nc("SOUNDPADS", pad_children));
    // SYSTEM is the single device-wide state node (singleton) at the tail.
    push_node(&mut children, n("SYSTEM"));
    proof {
        assert(node_models(children@) =~= before_tail + seq![
            leaf("GUI"@),
            synthetic_soundpads(),
            leaf("SYSTEM"@),
        ]);
    }
    nc("DEVICE", children)
}

/// A run of `n` nodes named `name` from `start` on counts `n`, plus
/// whatever run follows.
proof fn lemma_run(cs: Seq<NodeModel>, start: int, n: nat, name: Seq<char>)
    requires
        0 <= start,
        start + n <= cs.len(),
        forall|i: int| start <= i < start + n ==> #[trigger] cs[i].name == name,
    ensures
        spec_run_len(cs, start, name) == n + spec_run_len(cs, start + n, name),
    decreases n,
{
    if n > 0 {
        lemma_run(cs, start + 1, (n - 1) as nat, name);
    }
}

/// The synthetic tree has a layout.
pub proof fn lemma_synthetic_tree_builds()
    ensures
        spec_build(synthetic_tree()) is Ok,
{
    let cs = synthetic_children();
    reveal_strlit("OTHER");
    reveal_strlit("PHYSICALINTERFACE");
    reveal_strlit("HEADER");
    reveal_strlit("FADER");
    reveal_strlit("CHANNEL");
    reveal_strlit("MIX");
    reveal_strlit("INPUTSOURCE");
    assert("OTHER"@.len() == 5);
    assert("PHYSICALINTERFACE"@.len() == 17);
    assert("HEADER"@.len() == 6);
    assert("FADER"@.len() == 5);
    assert("CHANNEL"@.len() == 7);
    assert("MIX"@.len() == 3);
    assert("INPUTSOURCE"@.len() == 11);
    assert(cs[0].name == "OTHER"@);
    assert(cs[1].name == "PHYSICALINTERFACE"@);
    assert(cs[2].name == "CHANNEL"@);
    assert(cs[3].name == "CHANNEL"@);
    assert(cs[4].name == "CHANNEL"@);
    assert(spec_first_named(cs, "PHYSICALINTERFACE"@, 1) == Some(1int));
    assert(spec_first_named(cs, "PHYSICALINTERFACE"@, 0) == Some(1int));
    let kids = cs[1].children;
    assert(kids[0].name == "HEADER"@);
    assert(kids[1].name == "FADER"@);
    assert(spec_first_named(kids, "FADER"@, 1) == Some(1int));
    assert(spec_first_named(kids, "FADER"@, 0) == Some(1int));
    assert(spec_first_named(cs, "CHANNEL"@, 2) == Some(2int));
    assert(spec_first_named(cs, "CHANNEL"@, 1) == Some(2int));
    assert(spec_first_named(cs, "CHANNEL"@, 0) == Some(2int));
    assert(cs[5].name == "MIX"@);
    assert(spec_first_named(cs, "MIX"@, 5) == Some(5int));
    assert(spec_first_named(cs, "MIX"@, 4) == Some(5int));
    assert(spec_first_named(cs, "MIX"@, 3) == Some(5int));
    assert(spec_first_named(cs, "MIX"@, 2) == Some(5int));
    assert(spec_first_named(cs, "MIX"@, 1) == Some(5int));
    assert(spec_first_named(cs, "MIX"@, 0) == Some(5int));
    assert forall|i: int| 5 <= i < 31 implies #[trigger] cs[i].name == "MIX"@ by {
        assert(cs[i] == leaf("MIX"@));
    }
    lemma_run(cs, 5, 26, "MIX"@);
    assert(cs[31].name == "INPUTSOURCE"@);
    assert(spec_run_len(cs, 31, "MIX"@) == 0);
}

/// The minimal tree has a layout.
pub proof fn lemma_minimal_tree_builds()
    ensures
        spec_build(minimal_tree()) is Ok,
{
    let cs = minimal_tree().children;
    reveal_strlit("PHYSICALINTERFACE");
    reveal_strlit("FADER");
    reveal_strlit("CHANNEL");
    reveal_strlit("MIX");
    assert("PHYSICALINTERFACE"@.len() == 17);
    assert("CHANNEL"@.len() == 7);
    assert("MIX"@.len() == 3);
    assert(cs[0].name == "PHYSICALINTERFACE"@);
    assert(cs[1].name == "CHANNEL"@);
    assert(spec_first_named(cs, "PHYSICALINTERFACE"@, 0) == Some(0int));
    assert(spec_first_named(cs[0].children, "FADER"@, 0) == Some(0int));
    assert(spec_first_named(cs, "CHANNEL"@, 1) == Some(1int));
    assert(spec_first_named(cs, "CHANNEL"@, 0) == Some(1int));
    assert(cs[2].name == "MIX"@);
    assert(spec_first_named(cs, "MIX"@, 2) == Some(2int));
    assert(spec_first_named(cs, "MIX"@, 1) == Some(2int));
    assert(spec_first_named(cs, "MIX"@, 0) == Some(2int));
    assert forall|i: int| 2 <= i < 15 implies #[trigger] cs[i].name == "MIX"@ by {
        assert(cs[i] == leaf("MIX"@));
    }
    lemma_run(cs, 2, 13, "MIX"@);
    assert(spec_run_len(cs, 15, "MIX"@) == 0);
}

/// Build the standard layout from `synthetic_root()`.
pub fn layout() -> (r: Layout)
    ensures
        spec_build(synthetic_tree()) == Ok::<LayoutView, crate::layout::BuildFailure>(r@),
{
    let root = synthetic_root();
    proof {
        lemma_synthetic_tree_builds();
    }
    Layout::from_full_sync(&root).unwrap()
}

/// Minimal layout containing only the required base nodes.
pub fn minimal_layout() -> (r: Layout)
    ensures
        spec_build(minimal_tree()) == Ok::<LayoutView, crate::layout::BuildFailure>(r@),
{
    let mut kids: Vec<Node> = Vec::new();
    proof {
        assert(node_models(kids@) =~= Seq::<NodeModel>::empty());
    }
    push_node(&mut kids, n("FADER"));
    proof {
        assert(node_models(kids@) =~= seq![leaf("FADER"@)]);
    }
    let phys = nc("PHYSICALINTERFACE", kids);
    let mut children: Vec<Node> = Vec::new();
    proof {
        assert(node_models(children@) =~= Seq::<NodeModel>::empty());
    }
    push_node(&mut children, phys);
    push_node(&mut children, n("CHANNEL"));
    proof {
        assert(node_models(children@) =~= seq![
            branch("PHYSICALINTERFACE"@, seq![leaf("FADER"@)]),
            leaf("CHANNEL"@),
        ]);
    }
    push_leaves(&mut children, "MIX", 13);
    let root = nc("DEVICE", children);
    proof {
        lemma_minimal_tree_builds();
    }
    Layout::from_full_sync(&root).unwrap()
}

} // verus!

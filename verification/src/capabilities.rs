//! Device capability discovery and hardware feature inspection.
//!
//! [`DeviceCapabilities`] describes the controls, faders, inputs, outputs, and
//! audio features supported by the connected console.
//!
//! The RØDECaster Duo (4 physical faders) and Pro II (6 physical faders) share
//! the wire protocol but differ in physical surfaces and channel counts.
//! Inspecting [`DeviceCapabilities`] allows applications to adapt to either console
//! dynamically rather than hardcoding model-specific assumptions.

use vstd::prelude::*;

use crate::juce_var::{Value, VarModel};
use crate::layout::{find_property, spec_first_prop, Layout, LayoutView};
use crate::names::{DeviceModel, Fader, MixOutput, Source};
use crate::valuetree::{lemma_node_models, node_model, Node, NodeModel};

verus! {

/// Addressable controls and family counts exposed by one connected device.
#[derive(Debug, PartialEq, Eq)]
pub struct DeviceCapabilities {
    model: DeviceModel,
    firmware: Option<String>,
    faders: Vec<Fader>,
    sources: Vec<Source>,
    mix_outputs: Vec<MixOutput>,
    channel_count: u8,
    input_source_count: u8,
    headphone_count: u8,
    effects_count: u8,
    pad_count: u8,
    sip_call_slots_count: u8,
    sip_registration_count: u8,
}

/// The content of a [`DeviceCapabilities`].
pub struct CapabilitiesView {
    pub model: DeviceModel,
    pub firmware: Option<Seq<char>>,
    pub faders: Seq<Fader>,
    pub sources: Seq<Source>,
    pub mix_outputs: Seq<MixOutput>,
    pub channel_count: u8,
    pub input_source_count: u8,
    pub headphone_count: u8,
    pub effects_count: u8,
    pub pad_count: u8,
    pub sip_call_slots_count: u8,
    pub sip_registration_count: u8,
}

impl View for DeviceCapabilities {
    type V = CapabilitiesView;

    closed spec fn view(&self) -> CapabilitiesView {
        CapabilitiesView {
            model: self.model,
            firmware: match self.firmware {
                Some(s) => Some(s@),
                None => None,
            },
            faders: self.faders@,
            sources: self.sources@,
            mix_outputs: self.mix_outputs@,
            channel_count: self.channel_count,
            input_source_count: self.input_source_count,
            headphone_count: self.headphone_count,
            effects_count: self.effects_count,
            pad_count: self.pad_count,
            sip_call_slots_count: self.sip_call_slots_count,
            sip_registration_count: self.sip_registration_count,
        }
    }
}

impl Clone for DeviceCapabilities {
    fn clone(&self) -> (r: Self)
        ensures
            r@ == self@,
    {
        let firmware = match &self.firmware {
            Some(s) => Some(s.clone()),
            None => None,
        };
        DeviceCapabilities {
            model: self.model,
            firmware,
            faders: self.faders.clone(),
            sources: self.sources.clone(),
            mix_outputs: self.mix_outputs.clone(),
            channel_count: self.channel_count,
            input_source_count: self.input_source_count,
            headphone_count: self.headphone_count,
            effects_count: self.effects_count,
            pad_count: self.pad_count,
            sip_call_slots_count: self.sip_call_slots_count,
            sip_registration_count: self.sip_registration_count,
        }
    }
}

/// The strips at wire indices `0..n` on `model`, in order, leaving out the
/// indices that have no strip.
pub open spec fn spec_faders(model: DeviceModel, n: nat) -> Seq<Fader>
    decreases n,
{
    if n == 0 {
        Seq::empty()
    } else {
        let before = spec_faders(model, (n - 1) as nat);
        match Fader::strip_at(model, (n - 1) as u8) {
            Some(f) => before.push(f),
            None => before,
        }
    }
}

/// The sources at protocol indices `0..n`, in order.
pub open spec fn spec_sources(n: nat) -> Seq<Source>
    decreases n,
{
    if n == 0 {
        Seq::empty()
    } else {
        let before = spec_sources((n - 1) as nat);
        match Source::at_index((n - 1) as u8) {
            Some(s) => before.push(s),
            None => before,
        }
    }
}

/// The mix outputs at protocol indices `0..n`, in order.
pub open spec fn spec_mix_outputs(n: nat) -> Seq<MixOutput>
    decreases n,
{
    if n == 0 {
        Seq::empty()
    } else {
        let before = spec_mix_outputs((n - 1) as nat);
        match MixOutput::at_index((n - 1) as u8) {
            Some(m) => before.push(m),
            None => before,
        }
    }
}

/// The first string property named `name` met in a depth-first walk: the
/// node's own first property of that name when it is a string, else the
/// first match among its children in order.
pub open spec fn spec_find_string(n: NodeModel, name: Seq<char>) -> Option<Seq<char>>
    decreases n, 0int, 0int,
{
    match spec_first_prop(n.properties, name, 0) {
        Some(VarModel::Str(s)) => Some(s),
        _ => spec_find_string_in(n.children, name, 0),
    }
}

/// The first string property named `name` found among `cs[i..]`.
pub open spec fn spec_find_string_in(cs: Seq<NodeModel>, name: Seq<char>, i: int) -> Option<Seq<char>>
    decreases cs, 1int, cs.len() - i,
{
    if i < 0 || i >= cs.len() {
        None
    } else {
        match spec_find_string(cs[i], name) {
            Some(s) => Some(s),
            None => spec_find_string_in(cs, name, i + 1),
        }
    }
}

/// The capabilities of a device: its model and firmware, the strips,
/// sources and outputs the layout addresses, and the layout's family counts.
pub open spec fn spec_capabilities(root: NodeModel, l: LayoutView) -> CapabilitiesView {
    CapabilitiesView {
        model: l.model,
        firmware: spec_find_string(root, "systemFirmwareVersion"@),
        faders: spec_faders(l.model, l.fader.count as nat),
        sources: spec_sources(l.source_count as nat),
        mix_outputs: spec_mix_outputs(13),
        channel_count: l.channel.count,
        input_source_count: l.input_source.count,
        headphone_count: l.headphone.count,
        effects_count: l.effects.count,
        pad_count: l.pad.count,
        sip_call_slots_count: l.sip_call_slots.count,
        sip_registration_count: l.sip_registration.count,
    }
}

/// The first string property named `name` in a depth-first walk of `node`.
fn find_string_property<'a>(node: &'a Node, name: &str) -> (r: Option<&'a str>)
    ensures
        match spec_find_string(node@, name@) {
            Some(s) => r matches Some(t) && t@ == s,
            None => r is None,
        },
    decreases node,
{
    match find_property(node, name) {
        Some(Value::String(value)) => {
            return Some(value.as_str());
        },
        _ => {},
    }
    proof {
        lemma_node_models(node.children@);
        assert(decreases_to!(*node => node.children));
    }
    let ghost cs = node@.children;
    proof {
        assert(spec_find_string(node@, name@) == spec_find_string_in(cs, name@, 0));
    }
    let mut i: usize = 0;
    while i < node.children.len()
        invariant
            i <= node.children@.len(),
            cs == node@.children,
            cs.len() == node.children@.len(),
            forall|k: int| 0 <= k < cs.len() ==> #[trigger] cs[k] == node_model(node.children@[k]),
            decreases_to!(*node => node.children),
            spec_find_string(node@, name@) == spec_find_string_in(cs, name@, i as int),
        decreases node.children@.len() - i,
    {
        proof {
            assert(decreases_to!(node.children => node.children@[i as int]));
        }
        match find_string_property(&node.children[i], name) {
            Some(s) => {
                return Some(s);
            },
            None => {},
        }
        i = i + 1;
    }
    None
}

impl DeviceCapabilities {
    /// Read the capabilities of a device from its full sync and the layout
    /// discovered from it.
    pub(crate) fn discover(root: &Node, layout: &Layout) -> (r: Self)
        ensures
            r@ == spec_capabilities(root@, layout@),
    {
        let model = layout.model();
        let firmware = match find_string_property(root, "systemFirmwareVersion") {
            Some(s) => Some(s.to_owned()),
            None => None,
        };
        let mut faders: Vec<Fader> = Vec::new();
        let mut i: u8 = 0;
        while i < layout.fader_count()
            invariant
                faders@ == spec_faders(model, i as nat),
                i <= layout@.fader.count,
                model == layout@.model,
            decreases layout@.fader.count - i,
        {
            if let Some(f) = Fader::from_index(model, i) {
                faders.push(f);
            }
            i = i + 1;
        }
        let mut sources: Vec<Source> = Vec::new();
        let mut i: u8 = 0;
        while i < layout.source_count()
            invariant
                sources@ == spec_sources(i as nat),
                i <= layout@.source_count,
            decreases layout@.source_count - i,
        {
            if let Some(s) = Source::from_protocol(i) {
                sources.push(s);
            }
            i = i + 1;
        }
        let mut mix_outputs: Vec<MixOutput> = Vec::new();
        let mut i: u8 = 0;
        while i < layout.mix_count_per_source()
            invariant
                mix_outputs@ == spec_mix_outputs(i as nat),
                i <= 13,
            decreases 13 - i,
        {
            if let Some(m) = MixOutput::from_protocol(i) {
                mix_outputs.push(m);
            }
            i = i + 1;
        }
        DeviceCapabilities {
            model,
            firmware,
            faders,
            sources,
            mix_outputs,
            channel_count: layout.channel_count(),
            input_source_count: layout.input_source_count(),
            headphone_count: layout.headphone_count(),
            effects_count: layout.effects_count(),
            pad_count: layout.pad_count(),
            sip_call_slots_count: layout.sip_call_slots_count(),
            sip_registration_count: layout.sip_registration_count(),
        }
    }

    /// Detected hardware model.
    pub fn model(&self) -> (r: DeviceModel)
        ensures
            r == self@.model,
    {
        self.model
    }

    /// Firmware version reported by the full sync, when present.
    pub fn firmware(&self) -> (r: Option<&str>)
        ensures
            match self@.firmware {
                Some(s) => r matches Some(t) && t@ == s,
                None => r is None,
            },
    {
        match &self.firmware {
            Some(s) => Some(s.as_str()),
            None => None,
        }
    }

    /// Addressable fader strips in protocol order.
    pub fn faders(&self) -> (r: &[Fader])
        ensures
            r@ == self@.faders,
    {
        self.faders.as_slice()
    }

    /// Addressable input sources in protocol order.
    pub fn sources(&self) -> (r: &[Source])
        ensures
            r@ == self@.sources,
    {
        self.sources.as_slice()
    }

    /// Addressable mix outputs in protocol order.
    pub fn mix_outputs(&self) -> (r: &[MixOutput])
        ensures
            r@ == self@.mix_outputs,
    {
        self.mix_outputs.as_slice()
    }

    /// Whether this exact device topology contains the named fader.
    pub fn supports_fader(&self, fader: Fader) -> (r: bool)
        ensures
            r == self@.faders.contains(fader),
    {
        let mut i: usize = 0;
        while i < self.faders.len()
            invariant
                i <= self.faders@.len(),
                forall|k: int| 0 <= k < i ==> self.faders@[k] != fader,
            decreases self.faders@.len() - i,
        {
            if self.faders[i] == fader {
                proof {
                    assert(self.faders@[i as int] == fader);
                }
                return true;
            }
            i = i + 1;
        }
        false
    }

    pub fn channel_count(&self) -> (r: u8)
        ensures
            r == self@.channel_count,
    {
        self.channel_count
    }

    pub fn input_source_count(&self) -> (r: u8)
        ensures
            r == self@.input_source_count,
    {
        self.input_source_count
    }

    pub fn headphone_count(&self) -> (r: u8)
        ensures
            r == self@.headphone_count,
    {
        self.headphone_count
    }

    pub fn effects_count(&self) -> (r: u8)
        ensures
            r == self@.effects_count,
    {
        self.effects_count
    }

    pub fn pad_count(&self) -> (r: u8)
        ensures
            r == self@.pad_count,
    {
        self.pad_count
    }

    pub fn sip_call_slots_count(&self) -> (r: u8)
        ensures
            r == self@.sip_call_slots_count,
    {
        self.sip_call_slots_count
    }

    pub fn sip_registration_count(&self) -> (r: u8)
        ensures
            r == self@.sip_registration_count,
    {
        self.sip_registration_count
    }
}

/// The strips a device lists are exactly the strips its model places at a
/// wire index below the layout's fader count.
pub proof fn lemma_faders_listed(model: DeviceModel, n: nat, f: Fader)
    requires
        n <= 256,
    ensures
        spec_faders(model, n).contains(f) <==> (f.spec_index(model) matches Some(i) && i < n),
    decreases n,
{
    if n > 0 {
        lemma_faders_listed(model, (n - 1) as nat, f);
        crate::names::lemma_fader_index_round_trip(model, f, (n - 1) as u8);
        let before = spec_faders(model, (n - 1) as nat);
        match Fader::strip_at(model, (n - 1) as u8) {
            Some(g) => {
                assert(before.push(g).contains(f) <==> (before.contains(f) || g == f)) by {
                    if before.push(g).contains(f) {
                        let k = choose|k: int| 0 <= k < before.push(g).len() && before.push(g)[k] == f;
                        if k < before.len() {
                            assert(before[k] == f);
                        }
                    }
                    if before.contains(f) {
                        let k = choose|k: int| 0 <= k < before.len() && before[k] == f;
                        assert(before.push(g)[k] == f);
                    }
                    if g == f {
                        assert(before.push(g)[before.len() as int] == f);
                    }
                }
            },
            None => {},
        }
    }
}

/// The node reached from `n` by following child positions `path`.
pub open spec fn descendant(n: NodeModel, path: Seq<int>) -> Option<NodeModel>
    decreases path.len(),
{
    if path.len() == 0 {
        Some(n)
    } else if 0 <= path[0] < n.children.len() {
        descendant(n.children[path[0]], path.drop_first())
    } else {
        None
    }
}

/// The node at `path` below `n` exists and its first property named `name`
/// holds the string `s`.
pub open spec fn string_at(n: NodeModel, path: Seq<int>, name: Seq<char>, s: Seq<char>) -> bool {
    match descendant(n, path) {
        Some(d) => carries_string(d, name, s),
        None => false,
    }
}

/// `n`'s first property named `name` holds the string `s`.
pub open spec fn carries_string(n: NodeModel, name: Seq<char>, s: Seq<char>) -> bool {
    exists|k: int|
        0 <= k < n.properties.len() && #[trigger] n.properties[k] == (name, VarModel::Str(s)) && forall|j: int|
            0 <= j < k ==> #[trigger] n.properties[j].0 != name
}

proof fn lemma_first_prop_exact(ps: Seq<(Seq<char>, VarModel)>, name: Seq<char>, from: int)
    requires
        0 <= from,
        forall|j: int| 0 <= j < from && j < ps.len() ==> #[trigger] ps[j].0 != name,
    ensures
        match spec_first_prop(ps, name, from) {
            Some(v) => exists|k: int|
                0 <= k < ps.len() && #[trigger] ps[k] == (name, v) && forall|j: int| 0 <= j < k ==> #[trigger] ps[j].0 != name,
            None => forall|j: int| 0 <= j < ps.len() ==> #[trigger] ps[j].0 != name,
        },
    decreases ps.len() - from,
{
    if from < ps.len() && ps[from].0 != name {
        lemma_first_prop_exact(ps, name, from + 1);
    }
    if from < ps.len() && ps[from].0 == name {
        assert(ps[from] == (name, ps[from].1));
    }
}

/// A node carries the string exactly when its first property of that name
/// is that string.
proof fn lemma_carries_string(n: NodeModel, name: Seq<char>, s: Seq<char>)
    ensures
        carries_string(n, name, s) <==> spec_first_prop(n.properties, name, 0) == Some(VarModel::Str(s)),
{
    let ps = n.properties;
    lemma_first_prop_exact(ps, name, 0);
    if carries_string(n, name, s) {
        let k = choose|k: int|
            0 <= k < ps.len() && #[trigger] ps[k] == (name, VarModel::Str(s)) && forall|j: int|
                0 <= j < k ==> #[trigger] ps[j].0 != name;
        match spec_first_prop(ps, name, 0) {
            Some(v) => {
                let k2 = choose|k2: int|
                    0 <= k2 < ps.len() && #[trigger] ps[k2] == (name, v) && forall|j: int| 0 <= j < k2 ==> #[trigger] ps[j].0 != name;
                if k < k2 {
                    assert(ps[k].0 != name);
                } else if k2 < k {
                    assert(ps[k2].0 != name);
                }
            },
            None => {
                assert(ps[k].0 != name);
            },
        }
    }
}

#[verifier::spinoff_prover]
proof fn lemma_find_string_sound(n: NodeModel, name: Seq<char>)
    ensures
        match spec_find_string(n, name) {
            Some(s) => exists|p: Seq<int>| #[trigger] string_at(n, p, name, s),
            None => forall|p: Seq<int>, s: Seq<char>| !#[trigger] string_at(n, p, name, s),
        },
    decreases n, 0int, 0int,
{
    assert(decreases_to!(n => n.children));
    lemma_find_string_in_sound(n.children, name, 0);
    assert forall|s: Seq<char>| #[trigger] carries_string(n, name, s) implies spec_first_prop(n.properties, name, 0) == Some(VarModel::Str(s)) by {
        lemma_carries_string(n, name, s);
    }
    let empty = Seq::<int>::empty();
    assert(descendant(n, empty) == Some(n));
    let own = spec_first_prop(n.properties, name, 0);
    let own_str = own matches Some(VarModel::Str(_));
    assert(!own_str ==> spec_find_string(n, name) == spec_find_string_in(n.children, name, 0));
    match spec_find_string(n, name) {
        Some(s) => {
            if own_str {
                assert(own == Some(VarModel::Str(s)));
                lemma_carries_string(n, name, s);
                assert(string_at(n, empty, name, s));
            } else {
                let (k, q) = choose|k: int, q: Seq<int>|
                    0 <= k < n.children.len() && #[trigger] string_at(n.children[k], q, name, s);
                let p = seq![k] + q;
                assert(p.drop_first() =~= q);
                assert(descendant(n, p) == descendant(n.children[k], q));
                assert(string_at(n, p, name, s));
            }
        },
        None => {
            assert(!own_str);
            assert forall|p: Seq<int>, s: Seq<char>| !#[trigger] string_at(n, p, name, s) by {
                if p.len() > 0 && 0 <= p[0] < n.children.len() {
                    assert(!string_at(n.children[p[0]], p.drop_first(), name, s));
                }
            }
        },
    }
}

#[verifier::spinoff_prover]
proof fn lemma_find_string_in_sound(cs: Seq<NodeModel>, name: Seq<char>, i: int)
    requires
        0 <= i,
    ensures
        match spec_find_string_in(cs, name, i) {
            Some(s) => exists|k: int, q: Seq<int>| i <= k < cs.len() && #[trigger] string_at(cs[k], q, name, s),
            None => forall|k: int, q: Seq<int>, s: Seq<char>| i <= k < cs.len() ==> !#[trigger] string_at(cs[k], q, name, s),
        },
    decreases cs, 1int, cs.len() - i,
{
    if i < cs.len() {
        assert(decreases_to!(cs => cs[i]));
        lemma_find_string_sound(cs[i], name);
        lemma_find_string_in_sound(cs, name, i + 1);
        if let Some(s) = spec_find_string(cs[i], name) {
            let q = choose|q: Seq<int>| #[trigger] string_at(cs[i], q, name, s);
            assert(string_at(cs[i], q, name, s));
        }
    }
}

/// The firmware a device reports is found anywhere in its full sync: it is
/// a string that the first `systemFirmwareVersion` property of some node of
/// the tree holds, and it is absent only when no node of the tree (the root
/// or any descendant, such as `SYSTEM`) has such a string property. The
/// root's own property, when a string, is the one reported.
pub proof fn lemma_firmware_found_in_tree(root: NodeModel, l: LayoutView)
    ensures
        ({
            let name = "systemFirmwareVersion"@;
            let firmware = spec_capabilities(root, l).firmware;
            &&& match firmware {
                Some(s) => exists|p: Seq<int>| #[trigger] string_at(root, p, name, s),
                None => forall|p: Seq<int>, s: Seq<char>| !#[trigger] string_at(root, p, name, s),
            }
            &&& forall|s: Seq<char>| #[trigger] carries_string(root, name, s) ==> firmware == Some(s)
        }),
{
    let name = "systemFirmwareVersion"@;
    lemma_find_string_sound(root, name);
    assert forall|s: Seq<char>| #[trigger] carries_string(root, name, s) implies spec_find_string(root, name) == Some(s) by {
        lemma_carries_string(root, name, s);
    }
}

} // verus!

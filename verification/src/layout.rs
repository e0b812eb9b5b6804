//! Dynamic device topology discovery and address translation.
//!
//! RØDECaster devices do not use fixed, static wire addresses across models
//! and firmware versions. Instead, the console sends a full state tree
//! (`fullSync`) when connected.
//!
//! [`Layout`] inspects this tree to discover where physical faders, channels,
//! audio inputs, and mix routing nodes reside. High-level commands and events
//! use [`Layout`] to translate between human-readable domain names (such as
//! [`crate::names::Fader::Physical1`]) and the exact numeric node indices on
//! the wire.
//!
//! Three addressing shapes cover every node family: a root singleton
//! ([`Singleton`], path `[idx]`), a run of same-named nodes under root
//! ([`Indexed`], path `[first + n]`), and a run of same-named children inside a
//! container ([`TwoLevel`], path `[parent, first + n]`). Each shape's path and
//! its inverse are proved to undo each other.

use vstd::prelude::*;
use vstd::arithmetic::div_mod::lemma_fundamental_div_mod_converse;

use crate::juce_var::{spec_as_int, Value, VarModel};
use crate::names::{spec_detect, DeviceModel};
use crate::text::{concat_str, push_decimal, spec_decimal, str_eq};
use crate::valuetree::{lemma_node_models, node_model, Node, NodeModel};

verus! {

/// Mix destinations per source in the RODECaster Pro II / Duo mix matrix
/// (firmware 1.7.3 observation).
///
/// This is a **device characteristic**, not a JUCE protocol fact. The total
/// `MIX` node count factors as `source_count * mix_count_per_source`; one
/// dimension cannot be uniquely recovered from the fullSync alone, so this
/// constant pins it.
pub const MIX_COUNT_PER_SOURCE: u8 = 13;

/// A path result as a sequence.
pub open spec fn path_view(r: Option<Vec<u32>>) -> Option<Seq<u32>> {
    match r {
        Some(v) => Some(v@),
        None => None,
    }
}

fn single(a: u32) -> (r: Vec<u32>)
    ensures
        r@ == seq![a],
{
    let mut v: Vec<u32> = Vec::new();
    v.push(a);
    proof {
        assert(v@ =~= seq![a]);
    }
    v
}

fn pair(a: u32, b: u32) -> (r: Vec<u32>)
    ensures
        r@ == seq![a, b],
{
    let mut v: Vec<u32> = Vec::new();
    v.push(a);
    v.push(b);
    proof {
        assert(v@ =~= seq![a, b]);
    }
    v
}

/// One addressable singleton node (no index): its tree position, or absent.
///
/// `MASTERCHANNEL`, `OUTPUT`, `DUCKER`, `RECORDER`, `PLAYER`, `GUI` and `SYSTEM`
/// are all one-of-a-kind nodes addressed purely by position. `None` means the
/// fullSync did not carry the node (synthetic or partial trees).
#[derive(Debug, Clone, Copy, PartialEq, Eq, Structural)]
pub struct Singleton {
    pub idx: Option<u32>,
}

impl Singleton {
    /// The single-element path to the node, if present.
    pub open spec fn spec_path(self) -> Option<Seq<u32>> {
        match self.idx {
            Some(i) => Some(seq![i]),
            None => None,
        }
    }

    /// Whether `p` is the single-element path to the node.
    pub open spec fn spec_is_path(self, p: Seq<u32>) -> bool {
        self.idx matches Some(i) && p == seq![i]
    }

    /// Root-down single-element path to the node, if present.
    fn path(&self) -> (r: Option<Vec<u32>>)
        ensures
            path_view(r) == self.spec_path(),
    {
        match self.idx {
            Some(p) => Some(single(p)),
            None => None,
        }
    }

    /// True if this single-level path points at the node.
    fn is_path(&self, path: &[u32]) -> (r: bool)
        ensures
            r == self.spec_is_path(path@),
    {
        match self.idx {
            Some(i) => {
                let r = path.len() == 1 && path[0] == i;
                proof {
                    if r {
                        assert(path@ =~= seq![i]);
                    }
                }
                r
            },
            None => false,
        }
    }
}

/// A contiguous run of same-named nodes under root, addressed by a single-level
/// path `[first + n]`. `first` is `None` when the run is absent.
///
/// `CHANNEL`, `INPUTSOURCE`, `HEADPHONE` and the root `EFFECTS_PARAMETERS` run
/// share this shape: the ordinal within the run is the logical index.
#[derive(Debug, Clone, Copy, PartialEq, Eq, Structural)]
pub struct Indexed {
    pub first: Option<u32>,
    pub count: u8,
}

impl Indexed {
    /// The path to the `n`th node: inside the run, and only while `first + n`
    /// is a `u32`.
    pub open spec fn spec_path(self, n: u8) -> Option<Seq<u32>> {
        match self.first {
            Some(f) => if n >= self.count || f + n > u32::MAX {
                None
            } else {
                Some(seq![(f + n) as u32])
            },
            None => None,
        }
    }

    /// The ordinal a single-level path identifies inside the run.
    pub open spec fn spec_index(self, p: Seq<u32>) -> Option<u8> {
        match self.first {
            Some(f) => if p.len() != 1 || p[0] < f || p[0] - f >= self.count {
                None
            } else {
                Some((p[0] - f) as u8)
            },
            None => None,
        }
    }

    /// Root-down path to the `n`th node in the run, or `None` if `n` is past the
    /// run or the run is absent.
    fn path(&self, n: u8) -> (r: Option<Vec<u32>>)
        ensures
            path_view(r) == self.spec_path(n),
    {
        let first = match self.first {
            Some(f) => f,
            None => {
                return None;
            },
        };
        if n >= self.count {
            return None;
        }
        match first.checked_add(n as u32) {
            Some(p) => Some(single(p)),
            None => None,
        }
    }

    /// Inverse of [`Indexed::path`]: the ordinal this single-level path
    /// identifies, if it falls inside the run.
    fn index_from_path(&self, path: &[u32]) -> (r: Option<u8>)
        ensures
            r == self.spec_index(path@),
    {
        let first = match self.first {
            Some(f) => f,
            None => {
                return None;
            },
        };
        if path.len() != 1 {
            return None;
        }
        let p = path[0];
        if p < first {
            return None;
        }
        let n = p - first;
        if n >= self.count as u32 {
            return None;
        }
        Some(n as u8)
    }
}

/// A contiguous run of same-named child nodes under a parent container,
/// addressed by a two-level path `[parent, first + n]`. `parent` is `None` when
/// the container is absent; `count` can be 0 even when the container exists
/// (e.g. a `SOUNDPADS` node with no `PAD` children).
///
/// `FADER` (under `PHYSICALINTERFACE`) and `PAD` (under `SOUNDPADS`) share this
/// shape.
#[derive(Debug, Clone, Copy, PartialEq, Eq, Structural)]
pub struct TwoLevel {
    pub parent: Option<u32>,
    pub first: u32,
    pub count: u8,
}

impl TwoLevel {
    /// The two-level path to the `n`th child: inside the run, and only while
    /// `first + n` is a `u32`.
    pub open spec fn spec_path(self, n: u8) -> Option<Seq<u32>> {
        match self.parent {
            Some(par) => if n >= self.count || self.first + n > u32::MAX {
                None
            } else {
                Some(seq![par, (self.first + n) as u32])
            },
            None => None,
        }
    }

    /// The ordinal a two-level path identifies inside the run.
    pub open spec fn spec_index(self, p: Seq<u32>) -> Option<u8> {
        match self.parent {
            Some(par) => if p.len() != 2 || p[0] != par || p[1] < self.first || p[1] - self.first
                >= self.count {
                None
            } else {
                Some((p[1] - self.first) as u8)
            },
            None => None,
        }
    }

    /// Root-down two-level path to the `n`th child, or `None` if `n` is past the
    /// run or the container is absent.
    fn path(&self, n: u8) -> (r: Option<Vec<u32>>)
        ensures
            path_view(r) == self.spec_path(n),
    {
        let parent = match self.parent {
            Some(p) => p,
            None => {
                return None;
            },
        };
        if n >= self.count {
            return None;
        }
        match self.first.checked_add(n as u32) {
            Some(p) => Some(pair(parent, p)),
            None => None,
        }
    }

    /// Inverse of [`TwoLevel::path`]: the ordinal this two-level path identifies,
    /// if its parent matches and it falls inside the run.
    fn index_from_path(&self, path: &[u32]) -> (r: Option<u8>)
        ensures
            r == self.spec_index(path@),
    {
        let parent = match self.parent {
            Some(p) => p,
            None => {
                return None;
            },
        };
        if path.len() != 2 || path[0] != parent {
            return None;
        }
        let p = path[1];
        if p < self.first {
            return None;
        }
        let n = p - self.first;
        if n >= self.count as u32 {
            return None;
        }
        Some(n as u8)
    }
}

/// The content of a [`Layout`]: where each node family sits in the tree.
pub struct LayoutView {
    pub model: DeviceModel,
    pub channel: Indexed,
    pub first_mix: u32,
    pub source_count: u8,
    pub fader: TwoLevel,
    pub input_source: Indexed,
    pub headphone: Indexed,
    pub effects: Indexed,
    pub sip_call_slots: Indexed,
    pub pad_recorder: Indexed,
    pub storage_volume: Indexed,
    pub radio_tx: Indexed,
    pub radio_rx: Indexed,
    pub wifi_scan_result: Indexed,
    pub streamerx_mix_preset: Indexed,
    pub streamerx_stream_mix: Indexed,
    pub rcsync_mix: Indexed,
    pub mix_minuses: Indexed,
    pub master_channel: Singleton,
    pub output: Singleton,
    pub ducker: Singleton,
    pub recorder: Singleton,
    pub player: Singleton,
    pub gui: Singleton,
    pub system: Singleton,
    pub sip_calling: Singleton,
    pub sip_advanced: Singleton,
    pub test: Singleton,
    pub network: Singleton,
    pub audio: Singleton,
    pub build: Singleton,
    pub app: Singleton,
    pub theme: Singleton,
    pub current_show: Singleton,
    pub show_control: Singleton,
    pub recordings: Singleton,
    pub radio: Singleton,
    pub pad: TwoLevel,
    pub sip_registration: TwoLevel,
    pub fx_preset: TwoLevel,
    pub show: TwoLevel,
    pub recording: TwoLevel,
}

impl LayoutView {
    /// The path to the `MIX` cell at (`source`, `mix`), source-major: inside
    /// the matrix, and only while the position is a `u32`.
    pub open spec fn spec_mix_cell_path(self, source: u8, mix: u8) -> Option<Seq<u32>> {
        if source >= self.source_count || mix >= MIX_COUNT_PER_SOURCE {
            None
        } else if self.first_mix + source * 13 + mix > u32::MAX {
            None
        } else {
            Some(seq![(self.first_mix + source * 13 + mix) as u32])
        }
    }

    /// The (source, mix) cell a single-level path identifies in the matrix.
    pub open spec fn spec_mix_cell(self, p: Seq<u32>) -> Option<(u8, u8)> {
        if p.len() != 1 || p[0] < self.first_mix || p[0] - self.first_mix >= self.source_count
            * 13 {
            None
        } else {
            Some((((p[0] - self.first_mix) / 13) as u8, ((p[0] - self.first_mix) % 13) as u8))
        }
    }
}

/// Tree positions of the addressable node families. All fields are
/// discovered, not hardcoded.
#[derive(Debug, PartialEq, Eq, Structural)]
pub struct Layout {
    model: DeviceModel,
    channel: Indexed,
    first_mix: u32,
    source_count: u8,
    fader: TwoLevel,
    input_source: Indexed,
    headphone: Indexed,
    effects: Indexed,
    sip_call_slots: Indexed,
    pad_recorder: Indexed,
    storage_volume: Indexed,
    radio_tx: Indexed,
    radio_rx: Indexed,
    wifi_scan_result: Indexed,
    streamerx_mix_preset: Indexed,
    streamerx_stream_mix: Indexed,
    rcsync_mix: Indexed,
    mix_minuses: Indexed,
    master_channel: Singleton,
    output: Singleton,
    ducker: Singleton,
    recorder: Singleton,
    player: Singleton,
    gui: Singleton,
    system: Singleton,
    sip_calling: Singleton,
    sip_advanced: Singleton,
    test: Singleton,
    network: Singleton,
    audio: Singleton,
    build: Singleton,
    app: Singleton,
    theme: Singleton,
    current_show: Singleton,
    show_control: Singleton,
    recordings: Singleton,
    radio: Singleton,
    pad: TwoLevel,
    sip_registration: TwoLevel,
    fx_preset: TwoLevel,
    show: TwoLevel,
    recording: TwoLevel,
}

impl Layout {
    /// Every layout carries the required families: the `PHYSICALINTERFACE`
    /// container of the faders and the first `CHANNEL` node.
    #[verifier::type_invariant]
    spec fn has_required_nodes(self) -> bool {
        self.fader.parent is Some && self.channel.first is Some
    }
}

impl Clone for Layout {
    fn clone(&self) -> (r: Layout)
        ensures
            r@ == self@,
    {
        proof {
            use_type_invariant(self);
        }
        Layout {
            model: self.model,
            channel: self.channel,
            first_mix: self.first_mix,
            source_count: self.source_count,
            fader: self.fader,
            input_source: self.input_source,
            headphone: self.headphone,
            effects: self.effects,
            sip_call_slots: self.sip_call_slots,
            pad_recorder: self.pad_recorder,
            storage_volume: self.storage_volume,
            radio_tx: self.radio_tx,
            radio_rx: self.radio_rx,
            wifi_scan_result: self.wifi_scan_result,
            streamerx_mix_preset: self.streamerx_mix_preset,
            streamerx_stream_mix: self.streamerx_stream_mix,
            rcsync_mix: self.rcsync_mix,
            mix_minuses: self.mix_minuses,
            master_channel: self.master_channel,
            output: self.output,
            ducker: self.ducker,
            recorder: self.recorder,
            player: self.player,
            gui: self.gui,
            system: self.system,
            sip_calling: self.sip_calling,
            sip_advanced: self.sip_advanced,
            test: self.test,
            network: self.network,
            audio: self.audio,
            build: self.build,
            app: self.app,
            theme: self.theme,
            current_show: self.current_show,
            show_control: self.show_control,
            recordings: self.recordings,
            radio: self.radio,
            pad: self.pad,
            sip_registration: self.sip_registration,
            fx_preset: self.fx_preset,
            show: self.show,
            recording: self.recording,
        }
    }
}

impl View for Layout {
    type V = LayoutView;

    closed spec fn view(&self) -> LayoutView {
        LayoutView {
            model: self.model,
            channel: self.channel,
            first_mix: self.first_mix,
            source_count: self.source_count,
            fader: self.fader,
            input_source: self.input_source,
            headphone: self.headphone,
            effects: self.effects,
            sip_call_slots: self.sip_call_slots,
            pad_recorder: self.pad_recorder,
            storage_volume: self.storage_volume,
            radio_tx: self.radio_tx,
            radio_rx: self.radio_rx,
            wifi_scan_result: self.wifi_scan_result,
            streamerx_mix_preset: self.streamerx_mix_preset,
            streamerx_stream_mix: self.streamerx_stream_mix,
            rcsync_mix: self.rcsync_mix,
            mix_minuses: self.mix_minuses,
            master_channel: self.master_channel,
            output: self.output,
            ducker: self.ducker,
            recorder: self.recorder,
            player: self.player,
            gui: self.gui,
            system: self.system,
            sip_calling: self.sip_calling,
            sip_advanced: self.sip_advanced,
            test: self.test,
            network: self.network,
            audio: self.audio,
            build: self.build,
            app: self.app,
            theme: self.theme,
            current_show: self.current_show,
            show_control: self.show_control,
            recordings: self.recordings,
            radio: self.radio,
            pad: self.pad,
            sip_registration: self.sip_registration,
            fx_preset: self.fx_preset,
            show: self.show,
            recording: self.recording,
        }
    }
}

// ---------------------------------------------------------------------------
// Discovery rules

/// The index of the first node named `name` at or after `from`.
pub open spec fn spec_first_named(cs: Seq<NodeModel>, name: Seq<char>, from: int) -> Option<int>
    decreases cs.len() - from,
{
    if from < 0 || from >= cs.len() {
        None
    } else if cs[from].name == name {
        Some(from)
    } else {
        spec_first_named(cs, name, from + 1)
    }
}

/// The position of the first node named `name`, as the `u32` the layout
/// stores.
pub open spec fn spec_position(cs: Seq<NodeModel>, name: Seq<char>) -> Option<u32> {
    match spec_first_named(cs, name, 0) {
        Some(i) => Some(i as u32),
        None => None,
    }
}

/// `spec_first_named` finds a node of that name, at or after `from`, with
/// none of that name between `from` and it.
pub proof fn lemma_first_named(cs: Seq<NodeModel>, name: Seq<char>, from: int)
    ensures
        spec_first_named(cs, name, from) matches Some(i) ==> from <= i < cs.len() && cs[i].name
            == name,
    decreases cs.len() - from,
{
    if 0 <= from < cs.len() && cs[from].name != name {
        lemma_first_named(cs, name, from + 1);
    }
}

/// How many consecutive nodes named `name` start at `start`.
pub open spec fn spec_run_len(cs: Seq<NodeModel>, start: int, name: Seq<char>) -> nat
    decreases cs.len() - start,
{
    if 0 <= start < cs.len() && cs[start].name == name {
        1 + spec_run_len(cs, start + 1, name)
    } else {
        0
    }
}

pub open spec fn saturate_u8(n: nat) -> u8 {
    if n > 255 {
        255
    } else {
        n as u8
    }
}

pub open spec fn saturate_u32(n: nat) -> u32 {
    if n > u32::MAX {
        u32::MAX
    } else {
        n as u32
    }
}

/// The first run of `name` nodes.
pub open spec fn spec_discover_run(cs: Seq<NodeModel>, name: Seq<char>) -> Indexed {
    match spec_position(cs, name) {
        Some(f) => Indexed { first: Some(f), count: saturate_u8(spec_run_len(cs, f as int, name)) },
        None => Indexed { first: None, count: 0 },
    }
}

/// The first run of `child` nodes inside the first `container` node.
pub open spec fn spec_discover_two_level(
    cs: Seq<NodeModel>,
    container: Seq<char>,
    child: Seq<char>,
) -> TwoLevel {
    match spec_position(cs, container) {
        Some(p) => {
            let kids = cs[p as int].children;
            match spec_position(kids, child) {
                Some(f) => TwoLevel {
                    parent: Some(p),
                    first: f,
                    count: saturate_u8(spec_run_len(kids, f as int, child)),
                },
                None => TwoLevel { parent: Some(p), first: 0, count: 0 },
            }
        },
        None => TwoLevel { parent: None, first: 0, count: 0 },
    }
}

/// The value of the first property named `name`.
pub open spec fn spec_first_prop(ps: Seq<(Seq<char>, VarModel)>, name: Seq<char>, from: int) -> Option<VarModel>
    decreases ps.len() - from,
{
    if from < 0 || from >= ps.len() {
        None
    } else if ps[from].0 == name {
        Some(ps[from].1)
    } else {
        spec_first_prop(ps, name, from + 1)
    }
}

/// The model named by the first `SYSTEM` node: its first `boardType` (when an
/// int) and its first `systemName` (when a string), by the detection rule.
pub open spec fn spec_detect_model(root: NodeModel) -> DeviceModel {
    match spec_first_named(root.children, "SYSTEM"@, 0) {
        Some(i) => {
            let ps = root.children[i].properties;
            let board = match spec_first_prop(ps, "boardType"@, 0) {
                Some(v) => spec_as_int(v),
                None => None,
            };
            let name = match spec_first_prop(ps, "systemName"@, 0) {
                Some(VarModel::Str(n)) => Some(n),
                _ => None,
            };
            spec_detect(board, name)
        },
        None => spec_detect(None, None),
    }
}

/// Why a tree has no layout: a required node is missing, or a node family
/// has the wrong shape.
pub enum BuildFailure {
    MissingNode(Seq<char>),
    /// The family, and the detail text.
    ShapeMismatch(Seq<char>, Seq<char>),
}

/// The detail of a MIX run whose length is not a whole number of sources.
pub open spec fn spec_mix_not_divisible(mix_total: nat) -> Seq<char> {
    "expected mix_total divisible by MIX_COUNT_PER_SOURCE=13, got "@ + spec_decimal(mix_total)
}

/// The detail of a MIX run with more sources than a `u8` counts.
pub open spec fn spec_mix_overflow(mix_total: nat) -> Seq<char> {
    "source_count overflows u8 (mix_total="@ + spec_decimal(mix_total) + ")"@
}

/// The layout of a fullSync root, or why it has none.
pub open spec fn spec_build(root: NodeModel) -> Result<LayoutView, BuildFailure> {
    let cs = root.children;
    match spec_position(cs, "PHYSICALINTERFACE"@) {
        None => Err(BuildFailure::MissingNode("PHYSICALINTERFACE under root"@)),
        Some(pi) => {
            let phys = cs[pi as int];
            match spec_position(phys.children, "FADER"@) {
                None => Err(BuildFailure::MissingNode("FADER under PHYSICALINTERFACE"@)),
                Some(first_fader) => match spec_position(cs, "CHANNEL"@) {
                    None => Err(BuildFailure::MissingNode("CHANNEL under root"@)),
                    Some(first_channel) => match spec_position(cs, "MIX"@) {
                        None => Err(BuildFailure::MissingNode("MIX under root"@)),
                        Some(first_mix) => {
                            let mix_total = saturate_u32(spec_run_len(cs, first_mix as int, "MIX"@));
                            if mix_total == 0 || mix_total % 13 != 0 {
                                Err(BuildFailure::ShapeMismatch("MIX"@, spec_mix_not_divisible(mix_total as nat)))
                            } else if mix_total / 13 > 255 {
                                Err(BuildFailure::ShapeMismatch("MIX"@, spec_mix_overflow(mix_total as nat)))
                            } else {
                                Ok(
                                LayoutView {
                                    model: spec_detect_model(root),
                                    channel: Indexed { first: Some(first_channel), count: saturate_u8(spec_run_len(cs, first_channel as int, "CHANNEL"@)) },
                                    first_mix,
                                    source_count: (mix_total / 13) as u8,
                                    fader: TwoLevel { parent: Some(pi), first: first_fader, count: saturate_u8(spec_run_len(phys.children, first_fader as int, "FADER"@)) },
                                    input_source: spec_discover_run(cs, "INPUTSOURCE"@),
                                    headphone: spec_discover_run(cs, "HEADPHONE"@),
                                    effects: spec_discover_run(cs, "EFFECTS_PARAMETERS"@),
                                    sip_call_slots: spec_discover_run(cs, "SIPCALLSLOTS"@),
                                    pad_recorder: spec_discover_run(cs, "PADRECORDER"@),
                                    storage_volume: spec_discover_run(cs, "STORAGEVOLUME"@),
                                    radio_tx: spec_discover_run(cs, "RADIOTX"@),
                                    radio_rx: spec_discover_run(cs, "RADIORX"@),
                                    wifi_scan_result: spec_discover_run(cs, "WIFISCANRESULT"@),
                                    streamerx_mix_preset: spec_discover_run(cs, "STREAMERXMIXPRESET"@),
                                    streamerx_stream_mix: spec_discover_run(cs, "STREAMERXSTREAMMIX"@),
                                    rcsync_mix: spec_discover_run(cs, "RCSYNCMIX"@),
                                    mix_minuses: spec_discover_run(cs, "MIXMINUSES"@),
                                    master_channel: Singleton { idx: spec_position(cs, "MASTERCHANNEL"@) },
                                    output: Singleton { idx: spec_position(cs, "OUTPUT"@) },
                                    ducker: Singleton { idx: spec_position(cs, "DUCKER"@) },
                                    recorder: Singleton { idx: spec_position(cs, "RECORDER"@) },
                                    player: Singleton { idx: spec_position(cs, "PLAYER"@) },
                                    gui: Singleton { idx: spec_position(cs, "GUI"@) },
                                    system: Singleton { idx: spec_position(cs, "SYSTEM"@) },
                                    sip_calling: Singleton { idx: spec_position(cs, "SIPCALLING"@) },
                                    sip_advanced: Singleton { idx: spec_position(cs, "SIPADVANCED"@) },
                                    test: Singleton { idx: spec_position(cs, "TEST"@) },
                                    network: Singleton { idx: spec_position(cs, "NETWORK"@) },
                                    audio: Singleton { idx: spec_position(cs, "AUDIO"@) },
                                    build: Singleton { idx: spec_position(cs, "BUILD"@) },
                                    app: Singleton { idx: spec_position(cs, "APP"@) },
                                    theme: Singleton { idx: spec_position(cs, "THEME"@) },
                                    current_show: Singleton { idx: spec_position(cs, "CURRENTSHOW"@) },
                                    show_control: Singleton { idx: spec_position(cs, "SHOWCONTROL"@) },
                                    recordings: Singleton { idx: spec_position(cs, "RECORDINGS"@) },
                                    radio: Singleton { idx: spec_position(cs, "RADIO"@) },
                                    pad: spec_discover_two_level(cs, "SOUNDPADS"@, "PAD"@),
                                    sip_registration: spec_discover_two_level(cs, "SIPCALLING"@, "SIPREGISTRATION"@),
                                    fx_preset: spec_discover_two_level(cs, "FXPRESETS"@, "FXPRESET"@),
                                    show: spec_discover_two_level(cs, "SHOWS"@, "SHOW"@),
                                    recording: spec_discover_two_level(cs, "RECORDINGS"@, "RECORDING"@),
                                }
                                )
                            }
                        },
                    },
                },
            }
        },
    }
}

/// Error from [`Layout::from_full_sync`].
#[derive(Debug, Clone, PartialEq)]
pub enum BuildError {
    /// A required node name wasn't found where the Rodecaster layout expects it.
    MissingNode(&'static str),
    /// A required node family was found but its shape doesn't match expectations
    /// (e.g., MIX count not divisible by the matrix width).
    ShapeMismatch { what: &'static str, detail: String },
}

/// The message of a build failure.
pub open spec fn spec_build_failure_text(f: BuildFailure) -> Seq<char> {
    match f {
        BuildFailure::MissingNode(what) => "fullSync missing required node: "@ + what,
        BuildFailure::ShapeMismatch(what, detail) => "fullSync shape mismatch for "@ + what + ": "@
            + detail,
    }
}

/// The detail text for a MIX run that is not a whole number of sources.
fn mix_not_divisible_detail(mix_total: u32) -> (r: String)
    ensures
        r@ == spec_mix_not_divisible(mix_total as nat),
{
    let mut r = "expected mix_total divisible by MIX_COUNT_PER_SOURCE=13, got ".to_owned();
    push_decimal(&mut r, mix_total as u64);
    r
}

/// The detail text for a MIX run with more sources than a `u8` counts.
fn mix_overflow_detail(mix_total: u32) -> (r: String)
    ensures
        r@ == spec_mix_overflow(mix_total as nat),
{
    let mut r = "source_count overflows u8 (mix_total=".to_owned();
    push_decimal(&mut r, mix_total as u64);
    r.append(")");
    r
}

impl BuildError {
    /// Which failure this is, and the node family it names.
    pub open spec fn failure(&self) -> BuildFailure {
        match self {
            BuildError::MissingNode(what) => BuildFailure::MissingNode(what@),
            BuildError::ShapeMismatch { what, detail } => BuildFailure::ShapeMismatch(what@, detail@),
        }
    }

    /// The human-readable message: which node is missing, or which family has
    /// the wrong shape and how.
    pub fn to_string(&self) -> (r: String)
        ensures
            r@ == spec_build_failure_text(self.failure()),
    {
        match self {
            BuildError::MissingNode(what) => concat_str("fullSync missing required node: ", what),
            BuildError::ShapeMismatch { what, detail } => {
                let mut r = concat_str("fullSync shape mismatch for ", what);
                r.append(": ");
                r.append(detail.as_str());
                r
            },
        }
    }
}

// ---------------------------------------------------------------------------
// Tree walk

fn position_of_named_child(parent: &Node, name: &str) -> (r: Option<u32>)
    ensures
        r == spec_position(parent@.children, name@),
        r matches Some(p) ==> (p as int) < parent@.children.len(),
{
    let ghost cs = parent@.children;
    proof {
        lemma_node_models(parent.children@);
    }
    let mut i: usize = 0;
    while i < parent.children.len()
        invariant
            i <= parent.children@.len(),
            cs == parent@.children,
            cs.len() == parent.children@.len(),
            forall|k: int| 0 <= k < cs.len() ==> #[trigger] cs[k] == node_model(parent.children@[k]),
            spec_first_named(cs, name@, 0) == spec_first_named(cs, name@, i as int),
        decreases parent.children@.len() - i,
    {
        if str_eq(parent.children[i].name.as_str(), name) {
            proof {
                assert(i as u32 <= i) by (bit_vector);
            }
            return Some(i as u32);
        }
        i = i + 1;
    }
    None
}

/// How many consecutive children from `start` on are named `name`,
/// saturating at `u8::MAX`.
fn count_consecutive_named(parent: &Node, start: u32, name: &str) -> (r: u8)
    ensures
        r == saturate_u8(spec_run_len(parent@.children, start as int, name@)),
{
    let ghost cs = parent@.children;
    proof {
        lemma_node_models(parent.children@);
    }
    let mut n: u8 = 0;
    let mut i: usize = start as usize;
    while i < parent.children.len() && str_eq(parent.children[i].name.as_str(), name)
        invariant
            start <= i,
            cs == parent@.children,
            cs.len() == parent.children@.len(),
            forall|k: int| 0 <= k < cs.len() ==> #[trigger] cs[k] == node_model(parent.children@[k]),
            spec_run_len(cs, start as int, name@) == (i - start) + spec_run_len(cs, i as int, name@),
            n == saturate_u8((i - start) as nat),
        decreases parent.children@.len() - i,
    {
        n = n.saturating_add(1);
        i = i + 1;
    }
    n
}

/// How many consecutive children from `start` on are named `name`,
/// saturating at `u32::MAX`.
fn count_consecutive_named_u32(parent: &Node, start: u32, name: &str) -> (r: u32)
    ensures
        r == saturate_u32(spec_run_len(parent@.children, start as int, name@)),
{
    let ghost cs = parent@.children;
    proof {
        lemma_node_models(parent.children@);
    }
    let mut n: u32 = 0;
    let mut i: usize = start as usize;
    while i < parent.children.len() && str_eq(parent.children[i].name.as_str(), name)
        invariant
            start <= i,
            cs == parent@.children,
            cs.len() == parent.children@.len(),
            forall|k: int| 0 <= k < cs.len() ==> #[trigger] cs[k] == node_model(parent.children@[k]),
            spec_run_len(cs, start as int, name@) == (i - start) + spec_run_len(cs, i as int, name@),
            n == saturate_u32((i - start) as nat),
        decreases parent.children@.len() - i,
    {
        n = n.saturating_add(1);
        i = i + 1;
    }
    n
}

/// Discover the first contiguous run of `name` children under `parent` as an
/// [`Indexed`] addressing shape. Absent -> `first: None, count: 0`.
fn discover_run(parent: &Node, name: &str) -> (r: Indexed)
    ensures
        r == spec_discover_run(parent@.children, name@),
{
    match position_of_named_child(parent, name) {
        Some(first) => Indexed { first: Some(first), count: count_consecutive_named(parent, first, name) },
        None => Indexed { first: None, count: 0 },
    }
}

/// Discover a two-level run of `child_name` nodes inside a `container_name` parent
/// as a [`TwoLevel`] addressing shape. Absent -> `parent: None, first: 0, count: 0`.
fn discover_two_level(root: &Node, container_name: &str, child_name: &str) -> (r: TwoLevel)
    ensures
        r == spec_discover_two_level(root@.children, container_name@, child_name@),
{
    proof {
        lemma_node_models(root.children@);
    }
    match position_of_named_child(root, container_name) {
        Some(parent) => {
            let container = &root.children[parent as usize];
            match position_of_named_child(container, child_name) {
                Some(first) => TwoLevel {
                    parent: Some(parent),
                    first,
                    count: count_consecutive_named(container, first, child_name),
                },
                None => TwoLevel { parent: Some(parent), first: 0, count: 0 },
            }
        },
        None => TwoLevel { parent: None, first: 0, count: 0 },
    }
}

/// The value of the first property of `node` named `name`.
pub(crate) fn find_property<'a>(node: &'a Node, name: &str) -> (r: Option<&'a Value>)
    ensures
        match spec_first_prop(node@.properties, name@, 0) {
            Some(v) => r matches Some(x) && x@ == v,
            None => r is None,
        },
{
    let ghost ps = node@.properties;
    let mut i: usize = 0;
    while i < node.properties.len()
        invariant
            i <= node.properties@.len(),
            ps == node@.properties,
            ps.len() == node.properties@.len(),
            forall|k: int| 0 <= k < ps.len() ==> #[trigger] ps[k] == node.properties@[k]@,
            spec_first_prop(ps, name@, 0) == spec_first_prop(ps, name@, i as int),
        decreases node.properties@.len() - i,
    {
        if str_eq(node.properties[i].name.as_str(), name) {
            return Some(&node.properties[i].value);
        }
        i = i + 1;
    }
    None
}

/// Read the `SYSTEM` node's `boardType` / `systemName` and resolve the model.
/// Missing `SYSTEM` (synthetic trees, partial captures) -> Pro II default.
fn detect_model(root: &Node) -> (r: DeviceModel)
    ensures
        r == spec_detect_model(root@),
{
    proof {
        lemma_node_models(root.children@);
    }
    let mut i: usize = 0;
    while i < root.children.len()
        invariant
            i <= root.children@.len(),
            root@.children.len() == root.children@.len(),
            forall|k: int| 0 <= k < root@.children.len() ==> #[trigger] root@.children[k] == node_model(root.children@[k]),
            spec_first_named(root@.children, "SYSTEM"@, 0) == spec_first_named(root@.children, "SYSTEM"@, i as int),
        decreases root.children@.len() - i,
    {
        if str_eq(root.children[i].name.as_str(), "SYSTEM") {
            let sys = &root.children[i];
            let board_type = match find_property(sys, "boardType") {
                Some(v) => v.as_int(),
                None => None,
            };
            let system_name = match find_property(sys, "systemName") {
                Some(Value::String(name)) => Some(name.as_str()),
                _ => None,
            };
            return DeviceModel::detect(board_type, system_name);
        }
        i = i + 1;
    }
    DeviceModel::detect(None, None)
}

impl Layout {
    /// Walk a parsed fullSync root and discover the layout.
    ///
    /// Fails loudly on missing required nodes so a future firmware layout
    /// change surfaces immediately rather than silently misrouting.
    pub fn from_full_sync(root: &Node) -> (r: Result<Layout, BuildError>)
        ensures
            match spec_build(root@) {
                Ok(v) => r matches Ok(l) && l@ == v,
                Err(e) => r matches Err(x) && x.failure() == e,
            },
    {
        proof {
            lemma_node_models(root.children@);
        }
        // Device model from the SYSTEM node (boardType primary, systemName
        // fallback). Absent on synthetic trees and old firmware -> Pro II.
        let model = detect_model(root);

        // PHYSICALINTERFACE under root, with FADER children inside it (required,
        // two-level).
        let physical_interface_idx = match position_of_named_child(root, "PHYSICALINTERFACE") {
            Some(i) => i,
            None => {
                return Err(BuildError::MissingNode("PHYSICALINTERFACE under root"));
            },
        };
        let phys = &root.children[physical_interface_idx as usize];
        let first_fader_in_phys = match position_of_named_child(phys, "FADER") {
            Some(i) => i,
            None => {
                return Err(BuildError::MissingNode("FADER under PHYSICALINTERFACE"));
            },
        };
        let fader = TwoLevel {
            parent: Some(physical_interface_idx),
            first: first_fader_in_phys,
            count: count_consecutive_named(phys, first_fader_in_phys, "FADER"),
        };

        // CHANNEL nodes under root (required, single-level).
        let first_channel = match position_of_named_child(root, "CHANNEL") {
            Some(i) => i,
            None => {
                return Err(BuildError::MissingNode("CHANNEL under root"));
            },
        };
        let channel = Indexed {
            first: Some(first_channel),
            count: count_consecutive_named(root, first_channel, "CHANNEL"),
        };

        // MIX nodes under root. Count, then factor by MIX_COUNT_PER_SOURCE.
        let first_mix = match position_of_named_child(root, "MIX") {
            Some(i) => i,
            None => {
                return Err(BuildError::MissingNode("MIX under root"));
            },
        };
        let mix_total = count_consecutive_named_u32(root, first_mix, "MIX");
        if mix_total == 0 || mix_total % (MIX_COUNT_PER_SOURCE as u32) != 0 {
            return Err(
                BuildError::ShapeMismatch {
                    what: "MIX",
                    detail: mix_not_divisible_detail(mix_total),
                },
            );
        }
        let sources = mix_total / (MIX_COUNT_PER_SOURCE as u32);
        if sources > 255 {
            return Err(
                BuildError::ShapeMismatch {
                    what: "MIX",
                    detail: mix_overflow_detail(mix_total),
                },
            );
        }
        let source_count = sources as u8;

        let input_source = discover_run(root, "INPUTSOURCE");
        let headphone = discover_run(root, "HEADPHONE");
        let effects = discover_run(root, "EFFECTS_PARAMETERS");
        let sip_call_slots = discover_run(root, "SIPCALLSLOTS");
        let pad_recorder = discover_run(root, "PADRECORDER");
        let storage_volume = discover_run(root, "STORAGEVOLUME");
        let radio_tx = discover_run(root, "RADIOTX");
        let radio_rx = discover_run(root, "RADIORX");
        let wifi_scan_result = discover_run(root, "WIFISCANRESULT");
        let streamerx_mix_preset = discover_run(root, "STREAMERXMIXPRESET");
        let streamerx_stream_mix = discover_run(root, "STREAMERXSTREAMMIX");
        let rcsync_mix = discover_run(root, "RCSYNCMIX");
        let mix_minuses = discover_run(root, "MIXMINUSES");
        let master_channel = Singleton { idx: position_of_named_child(root, "MASTERCHANNEL") };
        let output = Singleton { idx: position_of_named_child(root, "OUTPUT") };
        let ducker = Singleton { idx: position_of_named_child(root, "DUCKER") };
        let recorder = Singleton { idx: position_of_named_child(root, "RECORDER") };
        let player = Singleton { idx: position_of_named_child(root, "PLAYER") };
        let gui = Singleton { idx: position_of_named_child(root, "GUI") };
        let system = Singleton { idx: position_of_named_child(root, "SYSTEM") };
        let sip_calling = Singleton { idx: position_of_named_child(root, "SIPCALLING") };
        let sip_advanced = Singleton { idx: position_of_named_child(root, "SIPADVANCED") };
        let test = Singleton { idx: position_of_named_child(root, "TEST") };
        let network = Singleton { idx: position_of_named_child(root, "NETWORK") };
        let audio = Singleton { idx: position_of_named_child(root, "AUDIO") };
        let build = Singleton { idx: position_of_named_child(root, "BUILD") };
        let app = Singleton { idx: position_of_named_child(root, "APP") };
        let theme = Singleton { idx: position_of_named_child(root, "THEME") };
        let current_show = Singleton { idx: position_of_named_child(root, "CURRENTSHOW") };
        let show_control = Singleton { idx: position_of_named_child(root, "SHOWCONTROL") };
        let recordings = Singleton { idx: position_of_named_child(root, "RECORDINGS") };
        let radio = Singleton { idx: position_of_named_child(root, "RADIO") };
        let pad = discover_two_level(root, "SOUNDPADS", "PAD");
        let sip_registration = discover_two_level(root, "SIPCALLING", "SIPREGISTRATION");
        let fx_preset = discover_two_level(root, "FXPRESETS", "FXPRESET");
        let show = discover_two_level(root, "SHOWS", "SHOW");
        let recording = discover_two_level(root, "RECORDINGS", "RECORDING");
        let layout = Layout {
            model,
            channel,
            first_mix,
            source_count,
            fader,
            input_source,
            headphone,
            effects,
            sip_call_slots,
            pad_recorder,
            storage_volume,
            radio_tx,
            radio_rx,
            wifi_scan_result,
            streamerx_mix_preset,
            streamerx_stream_mix,
            rcsync_mix,
            mix_minuses,
            master_channel,
            output,
            ducker,
            recorder,
            player,
            gui,
            system,
            sip_calling,
            sip_advanced,
            test,
            network,
            audio,
            build,
            app,
            theme,
            current_show,
            show_control,
            recordings,
            radio,
            pad,
            sip_registration,
            fx_preset,
            show,
            recording,
        };
        Ok(layout)
    }

    /// Which RODECaster this layout was discovered from. Selects the per-model
    /// [`crate::names::Fader`] mapping when resolving typed commands and events.
    pub fn model(&self) -> (r: DeviceModel)
        ensures
            r == self@.model,
    {
        self.model
    }

    /// Index of the `PHYSICALINTERFACE` node under root (present in every
    /// layout built from a tree).
    pub fn physical_interface_idx(&self) -> (r: u32)
        ensures
            self@.fader.parent == Some(r),
    {
        proof {
            use_type_invariant(self);
        }
        self.fader.parent.unwrap()
    }

    pub fn first_fader_in_phys(&self) -> (r: u32)
        ensures
            r == self@.fader.first,
    {
        self.fader.first
    }

    pub fn fader_count(&self) -> (r: u8)
        ensures
            r == self@.fader.count,
    {
        self.fader.count
    }

    /// Index of the first `CHANNEL` node under root (present in every layout
    /// built from a tree).
    pub fn first_channel(&self) -> (r: u32)
        ensures
            self@.channel.first == Some(r),
    {
        proof {
            use_type_invariant(self);
        }
        self.channel.first.unwrap()
    }

    pub fn channel_count(&self) -> (r: u8)
        ensures
            r == self@.channel.count,
    {
        self.channel.count
    }

    pub fn first_mix(&self) -> (r: u32)
        ensures
            r == self@.first_mix,
    {
        self.first_mix
    }

    pub fn source_count(&self) -> (r: u8)
        ensures
            r == self@.source_count,
    {
        self.source_count
    }

    pub fn mix_count_per_source(&self) -> (r: u8)
        ensures
            r == MIX_COUNT_PER_SOURCE,
    {
        MIX_COUNT_PER_SOURCE
    }

    /// Index of the first `INPUTSOURCE` node under root, if the fullSync had any.
    pub fn first_input_source(&self) -> (r: Option<u32>)
        ensures
            r == self@.input_source.first,
    {
        self.input_source.first
    }

    /// Number of addressable `INPUTSOURCE` nodes (the first contiguous run).
    pub fn input_source_count(&self) -> (r: u8)
        ensures
            r == self@.input_source.count,
    {
        self.input_source.count
    }

    /// Index of the single `MASTERCHANNEL` node under root, if present.
    pub fn master_channel(&self) -> (r: Option<u32>)
        ensures
            r == self@.master_channel.idx,
    {
        self.master_channel.idx
    }

    /// Index of the single `OUTPUT` node under root, if present.
    pub fn output(&self) -> (r: Option<u32>)
        ensures
            r == self@.output.idx,
    {
        self.output.idx
    }

    /// Index of the single `DUCKER` node under root, if present.
    pub fn ducker(&self) -> (r: Option<u32>)
        ensures
            r == self@.ducker.idx,
    {
        self.ducker.idx
    }

    /// Index of the single `RECORDER` node under root, if present.
    pub fn recorder(&self) -> (r: Option<u32>)
        ensures
            r == self@.recorder.idx,
    {
        self.recorder.idx
    }

    /// Index of the single `PLAYER` node under root, if present.
    pub fn player(&self) -> (r: Option<u32>)
        ensures
            r == self@.player.idx,
    {
        self.player.idx
    }

    /// Index of the first `HEADPHONE` node under root, if the fullSync had any.
    pub fn first_headphone(&self) -> (r: Option<u32>)
        ensures
            r == self@.headphone.first,
    {
        self.headphone.first
    }

    /// Number of addressable `HEADPHONE` nodes (one per physical jack).
    pub fn headphone_count(&self) -> (r: u8)
        ensures
            r == self@.headphone.count,
    {
        self.headphone.count
    }

    /// Index of the first root `EFFECTS_PARAMETERS` node, if the fullSync had any.
    pub fn first_effects(&self) -> (r: Option<u32>)
        ensures
            r == self@.effects.first,
    {
        self.effects.first
    }

    /// Number of addressable `EFFECTS_PARAMETERS` slots (the first root run).
    pub fn effects_count(&self) -> (r: u8)
        ensures
            r == self@.effects.count,
    {
        self.effects.count
    }

    /// Index of the single `GUI` (front-panel UI state) node under root, if present.
    pub fn gui(&self) -> (r: Option<u32>)
        ensures
            r == self@.gui.idx,
    {
        self.gui.idx
    }

    /// Index of the single `SYSTEM` (device-wide state) node under root, if present.
    pub fn system(&self) -> (r: Option<u32>)
        ensures
            r == self@.system.idx,
    {
        self.system.idx
    }

    /// Index of the `SOUNDPADS` container node under root, if present.
    pub fn soundpads(&self) -> (r: Option<u32>)
        ensures
            r == self@.pad.parent,
    {
        self.pad.parent
    }

    /// Offset of the first `PAD` node inside the `SOUNDPADS` container.
    pub fn first_pad(&self) -> (r: u32)
        ensures
            r == self@.pad.first,
    {
        self.pad.first
    }

    /// Number of `PAD` nodes in the contiguous run inside `SOUNDPADS`.
    pub fn pad_count(&self) -> (r: u8)
        ensures
            r == self@.pad.count,
    {
        self.pad.count
    }

    /// Root-down path to the `n`th `CHANNEL` node (single-level).
    pub fn channel_path(&self, n: u8) -> (r: Option<Vec<u32>>)
        ensures
            path_view(r) == self@.channel.spec_path(n),
    {
        self.channel.path(n)
    }

    /// Inverse of `channel_path`: channel index from single-level path.
    pub fn channel_index_from_path(&self, path: &[u32]) -> (r: Option<u8>)
        ensures
            r == self@.channel.spec_index(path@),
    {
        self.channel.index_from_path(path)
    }

    /// Root-down path to the `n`th `FADER` strip inside `PHYSICALINTERFACE` (two-level).
    pub fn fader_path(&self, n: u8) -> (r: Option<Vec<u32>>)
        ensures
            path_view(r) == self@.fader.spec_path(n),
    {
        self.fader.path(n)
    }

    /// Inverse of `fader_path`: fader index from two-level path.
    pub fn fader_index_from_path(&self, path: &[u32]) -> (r: Option<u8>)
        ensures
            r == self@.fader.spec_index(path@),
    {
        self.fader.index_from_path(path)
    }

    /// Root-down path to the `n`th `PAD` strip inside `SOUNDPADS` (two-level).
    pub fn pad_path(&self, n: u8) -> (r: Option<Vec<u32>>)
        ensures
            path_view(r) == self@.pad.spec_path(n),
    {
        self.pad.path(n)
    }

    /// Inverse of `pad_path`: pad index from two-level path.
    pub fn pad_index_from_path(&self, path: &[u32]) -> (r: Option<u8>)
        ensures
            r == self@.pad.spec_index(path@),
    {
        self.pad.index_from_path(path)
    }

    /// Root-down path to the `n`th `INPUTSOURCE` node (single-level).
    pub fn input_source_path(&self, n: u8) -> (r: Option<Vec<u32>>)
        ensures
            path_view(r) == self@.input_source.spec_path(n),
    {
        self.input_source.path(n)
    }

    /// Inverse of `input_source_path`: which input-source ordinal does this path identify?
    pub fn input_source_index_from_path(&self, path: &[u32]) -> (r: Option<u8>)
        ensures
            r == self@.input_source.spec_index(path@),
    {
        self.input_source.index_from_path(path)
    }

    /// Root-down path to the `n`th `HEADPHONE` node (single-level).
    pub fn headphone_path(&self, n: u8) -> (r: Option<Vec<u32>>)
        ensures
            path_view(r) == self@.headphone.spec_path(n),
    {
        self.headphone.path(n)
    }

    /// Inverse of `headphone_path`: headphone index from single-level path.
    pub fn headphone_index_from_path(&self, path: &[u32]) -> (r: Option<u8>)
        ensures
            r == self@.headphone.spec_index(path@),
    {
        self.headphone.index_from_path(path)
    }

    /// Root-down path to the `n`th root `EFFECTS_PARAMETERS` node (single-level).
    pub fn effects_path(&self, n: u8) -> (r: Option<Vec<u32>>)
        ensures
            path_view(r) == self@.effects.spec_path(n),
    {
        self.effects.path(n)
    }

    /// Inverse of `effects_path`: effects-slot index from single-level path.
    pub fn effects_index_from_path(&self, path: &[u32]) -> (r: Option<u8>)
        ensures
            r == self@.effects.spec_index(path@),
    {
        self.effects.index_from_path(path)
    }

    /// Root-down path to the `MIX` cell at (`source`, `mix`), source-major layout.
    pub fn mix_cell_path(&self, source: u8, mix: u8) -> (r: Option<Vec<u32>>)
        ensures
            path_view(r) == self@.spec_mix_cell_path(source, mix),
    {
        if source >= self.source_count || mix >= MIX_COUNT_PER_SOURCE {
            return None;
        }
        let offset = source as u32 * MIX_COUNT_PER_SOURCE as u32 + mix as u32;
        match self.first_mix.checked_add(offset) {
            Some(p) => Some(single(p)),
            None => None,
        }
    }

    /// Inverse of `mix_cell_path`: which (source, mix) cell, if any?
    pub fn mix_cell_from_path(&self, path: &[u32]) -> (r: Option<(u8, u8)>)
        ensures
            r == self@.spec_mix_cell(path@),
    {
        if path.len() != 1 {
            return None;
        }
        let p = path[0];
        if p < self.first_mix {
            return None;
        }
        let offset = p - self.first_mix;
        let span = self.source_count as u32 * MIX_COUNT_PER_SOURCE as u32;
        if offset >= span {
            return None;
        }
        let source = (offset / MIX_COUNT_PER_SOURCE as u32) as u8;
        let mix = (offset % MIX_COUNT_PER_SOURCE as u32) as u8;
        Some((source, mix))
    }

    /// Root-down path to the `MASTERCHANNEL` node, if present.
    pub fn master_channel_path(&self) -> (r: Option<Vec<u32>>)
        ensures
            path_view(r) == self@.master_channel.spec_path(),
    {
        self.master_channel.path()
    }

    /// True if `path` points at the `MASTERCHANNEL` node.
    pub fn is_master_channel_path(&self, path: &[u32]) -> (r: bool)
        ensures
            r == self@.master_channel.spec_is_path(path@),
    {
        self.master_channel.is_path(path)
    }

    /// Root-down path to the `OUTPUT` node, if present.
    pub fn output_path(&self) -> (r: Option<Vec<u32>>)
        ensures
            path_view(r) == self@.output.spec_path(),
    {
        self.output.path()
    }

    /// True if `path` points at the `OUTPUT` node.
    pub fn is_output_path(&self, path: &[u32]) -> (r: bool)
        ensures
            r == self@.output.spec_is_path(path@),
    {
        self.output.is_path(path)
    }

    /// Root-down path to the `DUCKER` node, if present.
    pub fn ducker_path(&self) -> (r: Option<Vec<u32>>)
        ensures
            path_view(r) == self@.ducker.spec_path(),
    {
        self.ducker.path()
    }

    /// True if `path` points at the `DUCKER` node.
    pub fn is_ducker_path(&self, path: &[u32]) -> (r: bool)
        ensures
            r == self@.ducker.spec_is_path(path@),
    {
        self.ducker.is_path(path)
    }

    /// Root-down path to the `RECORDER` node, if present.
    pub fn recorder_path(&self) -> (r: Option<Vec<u32>>)
        ensures
            path_view(r) == self@.recorder.spec_path(),
    {
        self.recorder.path()
    }

    /// True if `path` points at the `RECORDER` node.
    pub fn is_recorder_path(&self, path: &[u32]) -> (r: bool)
        ensures
            r == self@.recorder.spec_is_path(path@),
    {
        self.recorder.is_path(path)
    }

    /// Root-down path to the `PLAYER` node, if present.
    pub fn player_path(&self) -> (r: Option<Vec<u32>>)
        ensures
            path_view(r) == self@.player.spec_path(),
    {
        self.player.path()
    }

    /// True if `path` points at the `PLAYER` node.
    pub fn is_player_path(&self, path: &[u32]) -> (r: bool)
        ensures
            r == self@.player.spec_is_path(path@),
    {
        self.player.is_path(path)
    }

    /// Root-down path to the `GUI` node, if present.
    pub fn gui_path(&self) -> (r: Option<Vec<u32>>)
        ensures
            path_view(r) == self@.gui.spec_path(),
    {
        self.gui.path()
    }

    /// True if `path` points at the `GUI` node.
    pub fn is_gui_path(&self, path: &[u32]) -> (r: bool)
        ensures
            r == self@.gui.spec_is_path(path@),
    {
        self.gui.is_path(path)
    }

    /// Root-down path to the `SYSTEM` node, if present.
    pub fn system_path(&self) -> (r: Option<Vec<u32>>)
        ensures
            path_view(r) == self@.system.spec_path(),
    {
        self.system.path()
    }

    /// True if `path` points at the `SYSTEM` node.
    pub fn is_system_path(&self, path: &[u32]) -> (r: bool)
        ensures
            r == self@.system.spec_is_path(path@),
    {
        self.system.is_path(path)
    }

    /// Root-down path to the `SIPCALLING` node, if present.
    pub fn sip_calling_path(&self) -> (r: Option<Vec<u32>>)
        ensures
            path_view(r) == self@.sip_calling.spec_path(),
    {
        self.sip_calling.path()
    }

    /// True if `path` points at the `SIPCALLING` node.
    pub fn is_sip_calling_path(&self, path: &[u32]) -> (r: bool)
        ensures
            r == self@.sip_calling.spec_is_path(path@),
    {
        self.sip_calling.is_path(path)
    }

    /// Root-down path to the `SIPADVANCED` node, if present.
    pub fn sip_advanced_path(&self) -> (r: Option<Vec<u32>>)
        ensures
            path_view(r) == self@.sip_advanced.spec_path(),
    {
        self.sip_advanced.path()
    }

    /// True if `path` points at the `SIPADVANCED` node.
    pub fn is_sip_advanced_path(&self, path: &[u32]) -> (r: bool)
        ensures
            r == self@.sip_advanced.spec_is_path(path@),
    {
        self.sip_advanced.is_path(path)
    }

    /// Root-down path to the `TEST` node, if present.
    pub fn test_path(&self) -> (r: Option<Vec<u32>>)
        ensures
            path_view(r) == self@.test.spec_path(),
    {
        self.test.path()
    }

    /// True if `path` points at the `TEST` node.
    pub fn is_test_path(&self, path: &[u32]) -> (r: bool)
        ensures
            r == self@.test.spec_is_path(path@),
    {
        self.test.is_path(path)
    }

    /// Root-down path to the `NETWORK` node, if present.
    pub fn network_path(&self) -> (r: Option<Vec<u32>>)
        ensures
            path_view(r) == self@.network.spec_path(),
    {
        self.network.path()
    }

    /// True if `path` points at the `NETWORK` node.
    pub fn is_network_path(&self, path: &[u32]) -> (r: bool)
        ensures
            r == self@.network.spec_is_path(path@),
    {
        self.network.is_path(path)
    }

    /// Root-down path to the `AUDIO` node, if present.
    pub fn audio_path(&self) -> (r: Option<Vec<u32>>)
        ensures
            path_view(r) == self@.audio.spec_path(),
    {
        self.audio.path()
    }

    /// True if `path` points at the `AUDIO` node.
    pub fn is_audio_path(&self, path: &[u32]) -> (r: bool)
        ensures
            r == self@.audio.spec_is_path(path@),
    {
        self.audio.is_path(path)
    }

    /// Root-down path to the `BUILD` node, if present.
    pub fn build_path(&self) -> (r: Option<Vec<u32>>)
        ensures
            path_view(r) == self@.build.spec_path(),
    {
        self.build.path()
    }

    /// True if `path` points at the `BUILD` node.
    pub fn is_build_path(&self, path: &[u32]) -> (r: bool)
        ensures
            r == self@.build.spec_is_path(path@),
    {
        self.build.is_path(path)
    }

    /// Root-down path to the `APP` node, if present.
    pub fn app_path(&self) -> (r: Option<Vec<u32>>)
        ensures
            path_view(r) == self@.app.spec_path(),
    {
        self.app.path()
    }

    /// True if `path` points at the `APP` node.
    pub fn is_app_path(&self, path: &[u32]) -> (r: bool)
        ensures
            r == self@.app.spec_is_path(path@),
    {
        self.app.is_path(path)
    }

    /// Root-down path to the `THEME` node, if present.
    pub fn theme_path(&self) -> (r: Option<Vec<u32>>)
        ensures
            path_view(r) == self@.theme.spec_path(),
    {
        self.theme.path()
    }

    /// True if `path` points at the `THEME` node.
    pub fn is_theme_path(&self, path: &[u32]) -> (r: bool)
        ensures
            r == self@.theme.spec_is_path(path@),
    {
        self.theme.is_path(path)
    }

    /// Root-down path to the `CURRENTSHOW` node, if present.
    pub fn current_show_path(&self) -> (r: Option<Vec<u32>>)
        ensures
            path_view(r) == self@.current_show.spec_path(),
    {
        self.current_show.path()
    }

    /// True if `path` points at the `CURRENTSHOW` node.
    pub fn is_current_show_path(&self, path: &[u32]) -> (r: bool)
        ensures
            r == self@.current_show.spec_is_path(path@),
    {
        self.current_show.is_path(path)
    }

    /// Root-down path to the `SHOWCONTROL` node, if present.
    pub fn show_control_path(&self) -> (r: Option<Vec<u32>>)
        ensures
            path_view(r) == self@.show_control.spec_path(),
    {
        self.show_control.path()
    }

    /// True if `path` points at the `SHOWCONTROL` node.
    pub fn is_show_control_path(&self, path: &[u32]) -> (r: bool)
        ensures
            r == self@.show_control.spec_is_path(path@),
    {
        self.show_control.is_path(path)
    }

    /// Root-down path to the `RECORDINGS` node, if present.
    pub fn recordings_path(&self) -> (r: Option<Vec<u32>>)
        ensures
            path_view(r) == self@.recordings.spec_path(),
    {
        self.recordings.path()
    }

    /// True if `path` points at the `RECORDINGS` node.
    pub fn is_recordings_path(&self, path: &[u32]) -> (r: bool)
        ensures
            r == self@.recordings.spec_is_path(path@),
    {
        self.recordings.is_path(path)
    }

    /// Root-down path to the `RADIO` node, if present.
    pub fn radio_path(&self) -> (r: Option<Vec<u32>>)
        ensures
            path_view(r) == self@.radio.spec_path(),
    {
        self.radio.path()
    }

    /// True if `path` points at the `RADIO` node.
    pub fn is_radio_path(&self, path: &[u32]) -> (r: bool)
        ensures
            r == self@.radio.spec_is_path(path@),
    {
        self.radio.is_path(path)
    }

    /// Root-down path to the `n`th `SIPCALLSLOTS` node.
    pub fn sip_call_slots_path(&self, n: u8) -> (r: Option<Vec<u32>>)
        ensures
            path_view(r) == self@.sip_call_slots.spec_path(n),
    {
        self.sip_call_slots.path(n)
    }

    /// Inverse of `sip_call_slots_path`: the ordinal a path identifies, if any.
    pub fn sip_call_slots_index_from_path(&self, path: &[u32]) -> (r: Option<u8>)
        ensures
            r == self@.sip_call_slots.spec_index(path@),
    {
        self.sip_call_slots.index_from_path(path)
    }

    /// Number of `SIPCALLSLOTS` nodes in the run.
    pub fn sip_call_slots_count(&self) -> (r: u8)
        ensures
            r == self@.sip_call_slots.count,
    {
        self.sip_call_slots.count
    }

    /// Root-down path to the `n`th `SIPREGISTRATION` node.
    pub fn sip_registration_path(&self, n: u8) -> (r: Option<Vec<u32>>)
        ensures
            path_view(r) == self@.sip_registration.spec_path(n),
    {
        self.sip_registration.path(n)
    }

    /// Inverse of `sip_registration_path`: the ordinal a path identifies, if any.
    pub fn sip_registration_index_from_path(&self, path: &[u32]) -> (r: Option<u8>)
        ensures
            r == self@.sip_registration.spec_index(path@),
    {
        self.sip_registration.index_from_path(path)
    }

    /// Number of `SIPREGISTRATION` nodes in the run.
    pub fn sip_registration_count(&self) -> (r: u8)
        ensures
            r == self@.sip_registration.count,
    {
        self.sip_registration.count
    }

    /// Root-down path to the `n`th `PADRECORDER` node.
    pub fn pad_recorder_path(&self, n: u8) -> (r: Option<Vec<u32>>)
        ensures
            path_view(r) == self@.pad_recorder.spec_path(n),
    {
        self.pad_recorder.path(n)
    }

    /// Inverse of `pad_recorder_path`: the ordinal a path identifies, if any.
    pub fn pad_recorder_index_from_path(&self, path: &[u32]) -> (r: Option<u8>)
        ensures
            r == self@.pad_recorder.spec_index(path@),
    {
        self.pad_recorder.index_from_path(path)
    }

    /// Number of `PADRECORDER` nodes in the run.
    pub fn pad_recorder_count(&self) -> (r: u8)
        ensures
            r == self@.pad_recorder.count,
    {
        self.pad_recorder.count
    }

    /// Root-down path to the `n`th `FXPRESET` node.
    pub fn fx_preset_path(&self, n: u8) -> (r: Option<Vec<u32>>)
        ensures
            path_view(r) == self@.fx_preset.spec_path(n),
    {
        self.fx_preset.path(n)
    }

    /// Inverse of `fx_preset_path`: the ordinal a path identifies, if any.
    pub fn fx_preset_index_from_path(&self, path: &[u32]) -> (r: Option<u8>)
        ensures
            r == self@.fx_preset.spec_index(path@),
    {
        self.fx_preset.index_from_path(path)
    }

    /// Number of `FXPRESET` nodes in the run.
    pub fn fx_preset_count(&self) -> (r: u8)
        ensures
            r == self@.fx_preset.count,
    {
        self.fx_preset.count
    }

    /// Root-down path to the `n`th `SHOW` node.
    pub fn show_path(&self, n: u8) -> (r: Option<Vec<u32>>)
        ensures
            path_view(r) == self@.show.spec_path(n),
    {
        self.show.path(n)
    }

    /// Inverse of `show_path`: the ordinal a path identifies, if any.
    pub fn show_index_from_path(&self, path: &[u32]) -> (r: Option<u8>)
        ensures
            r == self@.show.spec_index(path@),
    {
        self.show.index_from_path(path)
    }

    /// Number of `SHOW` nodes in the run.
    pub fn show_count(&self) -> (r: u8)
        ensures
            r == self@.show.count,
    {
        self.show.count
    }

    /// Root-down path to the `n`th `RECORDING` node.
    pub fn recording_path(&self, n: u8) -> (r: Option<Vec<u32>>)
        ensures
            path_view(r) == self@.recording.spec_path(n),
    {
        self.recording.path(n)
    }

    /// Inverse of `recording_path`: the ordinal a path identifies, if any.
    pub fn recording_index_from_path(&self, path: &[u32]) -> (r: Option<u8>)
        ensures
            r == self@.recording.spec_index(path@),
    {
        self.recording.index_from_path(path)
    }

    /// Number of `RECORDING` nodes in the run.
    pub fn recording_count(&self) -> (r: u8)
        ensures
            r == self@.recording.count,
    {
        self.recording.count
    }

    /// Root-down path to the `n`th `STORAGEVOLUME` node.
    pub fn storage_volume_path(&self, n: u8) -> (r: Option<Vec<u32>>)
        ensures
            path_view(r) == self@.storage_volume.spec_path(n),
    {
        self.storage_volume.path(n)
    }

    /// Inverse of `storage_volume_path`: the ordinal a path identifies, if any.
    pub fn storage_volume_index_from_path(&self, path: &[u32]) -> (r: Option<u8>)
        ensures
            r == self@.storage_volume.spec_index(path@),
    {
        self.storage_volume.index_from_path(path)
    }

    /// Number of `STORAGEVOLUME` nodes in the run.
    pub fn storage_volume_count(&self) -> (r: u8)
        ensures
            r == self@.storage_volume.count,
    {
        self.storage_volume.count
    }

    /// Root-down path to the `n`th `RADIOTX` node.
    pub fn radio_tx_path(&self, n: u8) -> (r: Option<Vec<u32>>)
        ensures
            path_view(r) == self@.radio_tx.spec_path(n),
    {
        self.radio_tx.path(n)
    }

    /// Inverse of `radio_tx_path`: the ordinal a path identifies, if any.
    pub fn radio_tx_index_from_path(&self, path: &[u32]) -> (r: Option<u8>)
        ensures
            r == self@.radio_tx.spec_index(path@),
    {
        self.radio_tx.index_from_path(path)
    }

    /// Number of `RADIOTX` nodes in the run.
    pub fn radio_tx_count(&self) -> (r: u8)
        ensures
            r == self@.radio_tx.count,
    {
        self.radio_tx.count
    }

    /// Root-down path to the `n`th `RADIORX` node.
    pub fn radio_rx_path(&self, n: u8) -> (r: Option<Vec<u32>>)
        ensures
            path_view(r) == self@.radio_rx.spec_path(n),
    {
        self.radio_rx.path(n)
    }

    /// Inverse of `radio_rx_path`: the ordinal a path identifies, if any.
    pub fn radio_rx_index_from_path(&self, path: &[u32]) -> (r: Option<u8>)
        ensures
            r == self@.radio_rx.spec_index(path@),
    {
        self.radio_rx.index_from_path(path)
    }

    /// Number of `RADIORX` nodes in the run.
    pub fn radio_rx_count(&self) -> (r: u8)
        ensures
            r == self@.radio_rx.count,
    {
        self.radio_rx.count
    }

    /// Root-down path to the `n`th `WIFISCANRESULT` node.
    pub fn wifi_scan_result_path(&self, n: u8) -> (r: Option<Vec<u32>>)
        ensures
            path_view(r) == self@.wifi_scan_result.spec_path(n),
    {
        self.wifi_scan_result.path(n)
    }

    /// Inverse of `wifi_scan_result_path`: the ordinal a path identifies, if any.
    pub fn wifi_scan_result_index_from_path(&self, path: &[u32]) -> (r: Option<u8>)
        ensures
            r == self@.wifi_scan_result.spec_index(path@),
    {
        self.wifi_scan_result.index_from_path(path)
    }

    /// Number of `WIFISCANRESULT` nodes in the run.
    pub fn wifi_scan_result_count(&self) -> (r: u8)
        ensures
            r == self@.wifi_scan_result.count,
    {
        self.wifi_scan_result.count
    }

    /// Root-down path to the `n`th `STREAMERXMIXPRESET` node.
    pub fn streamerx_mix_preset_path(&self, n: u8) -> (r: Option<Vec<u32>>)
        ensures
            path_view(r) == self@.streamerx_mix_preset.spec_path(n),
    {
        self.streamerx_mix_preset.path(n)
    }

    /// Inverse of `streamerx_mix_preset_path`: the ordinal a path identifies, if any.
    pub fn streamerx_mix_preset_index_from_path(&self, path: &[u32]) -> (r: Option<u8>)
        ensures
            r == self@.streamerx_mix_preset.spec_index(path@),
    {
        self.streamerx_mix_preset.index_from_path(path)
    }

    /// Number of `STREAMERXMIXPRESET` nodes in the run.
    pub fn streamerx_mix_preset_count(&self) -> (r: u8)
        ensures
            r == self@.streamerx_mix_preset.count,
    {
        self.streamerx_mix_preset.count
    }

    /// Root-down path to the `n`th `STREAMERXSTREAMMIX` node.
    pub fn streamerx_stream_mix_path(&self, n: u8) -> (r: Option<Vec<u32>>)
        ensures
            path_view(r) == self@.streamerx_stream_mix.spec_path(n),
    {
        self.streamerx_stream_mix.path(n)
    }

    /// Inverse of `streamerx_stream_mix_path`: the ordinal a path identifies, if any.
    pub fn streamerx_stream_mix_index_from_path(&self, path: &[u32]) -> (r: Option<u8>)
        ensures
            r == self@.streamerx_stream_mix.spec_index(path@),
    {
        self.streamerx_stream_mix.index_from_path(path)
    }

    /// Number of `STREAMERXSTREAMMIX` nodes in the run.
    pub fn streamerx_stream_mix_count(&self) -> (r: u8)
        ensures
            r == self@.streamerx_stream_mix.count,
    {
        self.streamerx_stream_mix.count
    }

    /// Root-down path to the `n`th `RCSYNCMIX` node.
    pub fn rcsync_mix_path(&self, n: u8) -> (r: Option<Vec<u32>>)
        ensures
            path_view(r) == self@.rcsync_mix.spec_path(n),
    {
        self.rcsync_mix.path(n)
    }

    /// Inverse of `rcsync_mix_path`: the ordinal a path identifies, if any.
    pub fn rcsync_mix_index_from_path(&self, path: &[u32]) -> (r: Option<u8>)
        ensures
            r == self@.rcsync_mix.spec_index(path@),
    {
        self.rcsync_mix.index_from_path(path)
    }

    /// Number of `RCSYNCMIX` nodes in the run.
    pub fn rcsync_mix_count(&self) -> (r: u8)
        ensures
            r == self@.rcsync_mix.count,
    {
        self.rcsync_mix.count
    }

    /// Root-down path to the `n`th `MIXMINUSES` node.
    pub fn mix_minuses_path(&self, n: u8) -> (r: Option<Vec<u32>>)
        ensures
            path_view(r) == self@.mix_minuses.spec_path(n),
    {
        self.mix_minuses.path(n)
    }

    /// Inverse of `mix_minuses_path`: the ordinal a path identifies, if any.
    pub fn mix_minuses_index_from_path(&self, path: &[u32]) -> (r: Option<u8>)
        ensures
            r == self@.mix_minuses.spec_index(path@),
    {
        self.mix_minuses.index_from_path(path)
    }

    /// Number of `MIXMINUSES` nodes in the run.
    pub fn mix_minuses_count(&self) -> (r: u8)
        ensures
            r == self@.mix_minuses.count,
    {
        self.mix_minuses.count
    }

}

// ---------------------------------------------------------------------------
// Laws

/// A singleton's path is recognized as its path, and it is the only one.
pub proof fn lemma_singleton_path(s: Singleton, p: Seq<u32>)
    ensures
        s.spec_path() matches Some(q) ==> s.spec_is_path(q),
        s.spec_is_path(p) ==> s.spec_path() == Some(p),
{
}

/// A run's path for ordinal `n` leads back to `n`, and a path that names an
/// ordinal is that ordinal's path.
pub proof fn lemma_indexed_round_trip(r: Indexed, n: u8, p: Seq<u32>)
    ensures
        r.spec_path(n) matches Some(q) ==> r.spec_index(q) == Some(n),
        r.spec_index(p) == Some(n) ==> r.spec_path(n) == Some(p),
{
    if r.spec_index(p) == Some(n) {
        assert(p =~= seq![p[0]]);
    }
}

/// A two-level run's path for ordinal `n` leads back to `n`, and a path that
/// names an ordinal is that ordinal's path.
pub proof fn lemma_two_level_round_trip(r: TwoLevel, n: u8, p: Seq<u32>)
    ensures
        r.spec_path(n) matches Some(q) ==> r.spec_index(q) == Some(n),
        r.spec_index(p) == Some(n) ==> r.spec_path(n) == Some(p),
{
    if r.spec_index(p) == Some(n) {
        assert(p =~= seq![p[0], p[1]]);
    }
}

/// The mix cell at (`source`, `mix`) is found again from its path, and a path
/// that names a cell is that cell's path.
pub proof fn lemma_mix_cell_round_trip(l: LayoutView, source: u8, mix: u8, p: Seq<u32>)
    ensures
        l.spec_mix_cell_path(source, mix) matches Some(q) ==> l.spec_mix_cell(q) == Some(
            (source, mix),
        ),
        l.spec_mix_cell(p) == Some((source, mix)) ==> l.spec_mix_cell_path(source, mix) == Some(p),
{
    if l.spec_mix_cell_path(source, mix) is Some {
        let off = source * 13 + mix;
        lemma_fundamental_div_mod_converse(off, 13, source as int, mix as int);
        assert(off < l.source_count * 13) by (nonlinear_arith)
            requires
                source < l.source_count,
                mix < 13,
                off == source * 13 + mix,
        ;
    }
    if l.spec_mix_cell(p) == Some((source, mix)) {
        let off = p[0] - l.first_mix;
        vstd::arithmetic::div_mod::lemma_fundamental_div_mod(off, 13);
        assert(source < l.source_count) by (nonlinear_arith)
            requires
                off < l.source_count * 13,
                off == 13 * source + mix,
                0 <= mix,
        ;
        assert(p =~= seq![p[0]]);
    }
}

/// `idx` is the position of the first child named `name` in `cs`, or absent
/// exactly when no child has that name.
pub open spec fn is_first_named(cs: Seq<NodeModel>, name: Seq<char>, idx: Option<u32>) -> bool {
    match idx {
        Some(i) => i < cs.len() && cs[i as int].name == name && forall|j: int| 0 <= j < i ==> #[trigger] cs[j].name != name,
        None => forall|j: int| 0 <= j < cs.len() ==> #[trigger] cs[j].name != name,
    }
}

proof fn lemma_first_named_exact(cs: Seq<NodeModel>, name: Seq<char>, from: int)
    requires
        0 <= from,
        forall|j: int| 0 <= j < from && j < cs.len() ==> #[trigger] cs[j].name != name,
    ensures
        match spec_first_named(cs, name, from) {
            Some(i) => 0 <= i < cs.len() && cs[i].name == name && forall|j: int| 0 <= j < i ==> #[trigger] cs[j].name != name,
            None => forall|j: int| 0 <= j < cs.len() ==> #[trigger] cs[j].name != name,
        },
    decreases cs.len() - from,
{
    if from < cs.len() && cs[from].name != name {
        lemma_first_named_exact(cs, name, from + 1);
    }
}

/// The position the layout stores for a family is that of its first node.
pub proof fn lemma_position_is_first_named(cs: Seq<NodeModel>, name: Seq<char>)
    requires
        cs.len() <= u32::MAX,
    ensures
        is_first_named(cs, name, spec_position(cs, name)),
{
    lemma_first_named_exact(cs, name, 0);
}

/// Every family position a built layout holds names a node of that family:
/// each singleton and each run starts at the first root child of its own
/// name (absent when no child has it), the faders' container is the first
/// `PHYSICALINTERFACE`, and the mix matrix starts at the first `MIX`.
pub proof fn lemma_layout_positions_name_their_family(root: NodeModel)
    requires
        root.children.len() <= u32::MAX,
        spec_build(root) is Ok,
    ensures
        ({
            let cs = root.children;
            let l = spec_build(root)->Ok_0;
            &&& is_first_named(cs, "PHYSICALINTERFACE"@, l.fader.parent)
            &&& is_first_named(cs, "CHANNEL"@, l.channel.first)
            &&& is_first_named(cs, "MIX"@, Some(l.first_mix))
            &&& is_first_named(cs, "INPUTSOURCE"@, l.input_source.first)
            &&& is_first_named(cs, "HEADPHONE"@, l.headphone.first)
            &&& is_first_named(cs, "EFFECTS_PARAMETERS"@, l.effects.first)
            &&& is_first_named(cs, "SIPCALLSLOTS"@, l.sip_call_slots.first)
            &&& is_first_named(cs, "PADRECORDER"@, l.pad_recorder.first)
            &&& is_first_named(cs, "STORAGEVOLUME"@, l.storage_volume.first)
            &&& is_first_named(cs, "RADIOTX"@, l.radio_tx.first)
            &&& is_first_named(cs, "RADIORX"@, l.radio_rx.first)
            &&& is_first_named(cs, "WIFISCANRESULT"@, l.wifi_scan_result.first)
            &&& is_first_named(cs, "STREAMERXMIXPRESET"@, l.streamerx_mix_preset.first)
            &&& is_first_named(cs, "STREAMERXSTREAMMIX"@, l.streamerx_stream_mix.first)
            &&& is_first_named(cs, "RCSYNCMIX"@, l.rcsync_mix.first)
            &&& is_first_named(cs, "MIXMINUSES"@, l.mix_minuses.first)
            &&& is_first_named(cs, "MASTERCHANNEL"@, l.master_channel.idx)
            &&& is_first_named(cs, "OUTPUT"@, l.output.idx)
            &&& is_first_named(cs, "DUCKER"@, l.ducker.idx)
            &&& is_first_named(cs, "RECORDER"@, l.recorder.idx)
            &&& is_first_named(cs, "PLAYER"@, l.player.idx)
            &&& is_first_named(cs, "GUI"@, l.gui.idx)
            &&& is_first_named(cs, "SYSTEM"@, l.system.idx)
            &&& is_first_named(cs, "SIPCALLING"@, l.sip_calling.idx)
            &&& is_first_named(cs, "SIPADVANCED"@, l.sip_advanced.idx)
            &&& is_first_named(cs, "TEST"@, l.test.idx)
            &&& is_first_named(cs, "NETWORK"@, l.network.idx)
            &&& is_first_named(cs, "AUDIO"@, l.audio.idx)
            &&& is_first_named(cs, "BUILD"@, l.build.idx)
            &&& is_first_named(cs, "APP"@, l.app.idx)
            &&& is_first_named(cs, "THEME"@, l.theme.idx)
            &&& is_first_named(cs, "CURRENTSHOW"@, l.current_show.idx)
            &&& is_first_named(cs, "SHOWCONTROL"@, l.show_control.idx)
            &&& is_first_named(cs, "RECORDINGS"@, l.recordings.idx)
            &&& is_first_named(cs, "RADIO"@, l.radio.idx)
            &&& is_first_named(cs, "SOUNDPADS"@, l.pad.parent)
            &&& is_first_named(cs, "SIPCALLING"@, l.sip_registration.parent)
            &&& is_first_named(cs, "FXPRESETS"@, l.fx_preset.parent)
            &&& is_first_named(cs, "SHOWS"@, l.show.parent)
            &&& is_first_named(cs, "RECORDINGS"@, l.recording.parent)
        }),
{
    let cs = root.children;
    lemma_position_is_first_named(cs, "PHYSICALINTERFACE"@);
    lemma_position_is_first_named(cs, "CHANNEL"@);
    lemma_position_is_first_named(cs, "MIX"@);
    lemma_position_is_first_named(cs, "INPUTSOURCE"@);
    lemma_position_is_first_named(cs, "HEADPHONE"@);
    lemma_position_is_first_named(cs, "EFFECTS_PARAMETERS"@);
    lemma_position_is_first_named(cs, "SIPCALLSLOTS"@);
    lemma_position_is_first_named(cs, "PADRECORDER"@);
    lemma_position_is_first_named(cs, "STORAGEVOLUME"@);
    lemma_position_is_first_named(cs, "RADIOTX"@);
    lemma_position_is_first_named(cs, "RADIORX"@);
    lemma_position_is_first_named(cs, "WIFISCANRESULT"@);
    lemma_position_is_first_named(cs, "STREAMERXMIXPRESET"@);
    lemma_position_is_first_named(cs, "STREAMERXSTREAMMIX"@);
    lemma_position_is_first_named(cs, "RCSYNCMIX"@);
    lemma_position_is_first_named(cs, "MIXMINUSES"@);
    lemma_position_is_first_named(cs, "MASTERCHANNEL"@);
    lemma_position_is_first_named(cs, "OUTPUT"@);
    lemma_position_is_first_named(cs, "DUCKER"@);
    lemma_position_is_first_named(cs, "RECORDER"@);
    lemma_position_is_first_named(cs, "PLAYER"@);
    lemma_position_is_first_named(cs, "GUI"@);
    lemma_position_is_first_named(cs, "SYSTEM"@);
    lemma_position_is_first_named(cs, "SIPCALLING"@);
    lemma_position_is_first_named(cs, "SIPADVANCED"@);
    lemma_position_is_first_named(cs, "TEST"@);
    lemma_position_is_first_named(cs, "NETWORK"@);
    lemma_position_is_first_named(cs, "AUDIO"@);
    lemma_position_is_first_named(cs, "BUILD"@);
    lemma_position_is_first_named(cs, "APP"@);
    lemma_position_is_first_named(cs, "THEME"@);
    lemma_position_is_first_named(cs, "CURRENTSHOW"@);
    lemma_position_is_first_named(cs, "SHOWCONTROL"@);
    lemma_position_is_first_named(cs, "RECORDINGS"@);
    lemma_position_is_first_named(cs, "RADIO"@);
    lemma_position_is_first_named(cs, "SOUNDPADS"@);
    lemma_position_is_first_named(cs, "FXPRESETS"@);
    lemma_position_is_first_named(cs, "SHOWS"@);
}

} // verus!

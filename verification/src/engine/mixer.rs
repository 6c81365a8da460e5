//! Routing decisions of the mixer.
//!
//! The mixer binds data sources to voices. What it decides without looking
//! at a sample is stated here: which voice is built for a requested kind,
//! which mapper stages a mapping kind expands to, and which layers an
//! incoming reading is handed to.

use crate::config::{MappingKind, VoiceKind};
use crate::mapping::quantize::{minor_pentatonic_spec, Scale};
use crate::text::str_eq;
use vstd::prelude::*;

verus! {

/// The voice that is built for a requested kind.
#[derive(Debug, Clone, Copy, PartialEq, Eq, Structural)]
pub struct VoiceChoice {
    /// The kind of voice that is built.
    pub built: VoiceKind,
    /// Whether this differs from what was asked for, which is worth a warning.
    pub substituted: bool,
}

/// The resolution table: only the drone exists, every other kind falls
/// back to it.
pub open spec fn voice_choice(requested: VoiceKind) -> VoiceChoice {
    VoiceChoice { built: VoiceKind::Drone, substituted: requested != VoiceKind::Drone }
}

/// Looks a requested voice kind up in the resolution table.
pub fn resolve_voice(requested: VoiceKind) -> (choice: VoiceChoice)
    ensures
        choice == voice_choice(requested),
{
    match requested {
        VoiceKind::Drone => VoiceChoice { built: VoiceKind::Drone, substituted: false },
        VoiceKind::Percussion => VoiceChoice { built: VoiceKind::Drone, substituted: true },
        VoiceKind::Melody => VoiceChoice { built: VoiceKind::Drone, substituted: true },
        VoiceKind::Texture => VoiceChoice { built: VoiceKind::Drone, substituted: true },
    }
}

/// One stage of a mapping pipeline.
#[derive(Debug, Clone, Copy, PartialEq, Eq, Structural)]
pub enum StageKind {
    /// Linear mapper over the configured ranges.
    Linear,
    /// Logarithmic mapper over the configured ranges.
    Logarithmic,
    /// Exponential mapper over the configured ranges.
    Exponential,
    /// Rising threshold at the midpoint of the input range; fires the
    /// upper output bound and rests at the lower one.
    Threshold,
    /// Snap to the default scale above the default root.
    Quantize,
}

/// The stages a mapping kind expands to, in the order they are applied.
pub open spec fn pipeline_plan(kind: MappingKind) -> Seq<StageKind> {
    match kind {
        MappingKind::Linear => seq![StageKind::Linear],
        MappingKind::Logarithmic => seq![StageKind::Logarithmic],
        MappingKind::Exponential => seq![StageKind::Exponential],
        MappingKind::Threshold => seq![StageKind::Threshold],
        MappingKind::Quantize => seq![StageKind::Linear, StageKind::Quantize],
    }
}

/// Plans the pipeline for a mapping kind.
pub fn plan_pipeline(kind: MappingKind) -> (stages: Vec<StageKind>)
    ensures
        stages@ == pipeline_plan(kind),
{
    match kind {
        MappingKind::Linear => vec![StageKind::Linear],
        MappingKind::Logarithmic => vec![StageKind::Logarithmic],
        MappingKind::Exponential => vec![StageKind::Exponential],
        MappingKind::Threshold => vec![StageKind::Threshold],
        MappingKind::Quantize => vec![StageKind::Linear, StageKind::Quantize],
    }
}

/// No mapping kind gives an empty pipeline, so none is the identity by
/// accident, and only quantizing takes more than one stage.
pub proof fn lemma_plan_never_empty(kind: MappingKind)
    ensures
        1 <= pipeline_plan(kind).len() <= 2,
        pipeline_plan(kind).len() == 2 <==> kind == MappingKind::Quantize,
{
}

/// Ranges a mapping falls back to where the configuration gives none:
/// input 0 to 100, output 0 to 1.
#[derive(Debug, Clone, Copy, PartialEq, Eq, Structural)]
pub struct DefaultRanges {
    pub in_min: u32,
    pub in_max: u32,
    pub out_min: u32,
    pub out_max: u32,
}

pub fn default_ranges() -> (ranges: DefaultRanges)
    ensures
        ranges == (DefaultRanges { in_min: 0, in_max: 100, out_min: 0, out_max: 1 }),
{
    DefaultRanges { in_min: 0, in_max: 100, out_min: 0, out_max: 1 }
}

/// Root of the quantize stage in Hz (A3).
pub fn quantize_root_hz() -> (root: u32)
    ensures
        root == 220,
{
    220
}

/// Scale of the quantize stage: the minor pentatonic.
pub fn quantize_scale() -> (scale: Scale)
    ensures
        scale@ == minor_pentatonic_spec(),
{
    match Scale::from_lowercase_name("pentatonic") {
        Some(scale) => scale,
        None => Scale::minor_pentatonic(),
    }
}

/// Whether `picked` lists, in rising order, exactly the positions at which
/// `names` holds `wanted`.
pub open spec fn picks_matches(picked: Seq<usize>, names: Seq<String>, wanted: Seq<char>) -> bool {
    &&& forall|k: int|
        0 <= k < picked.len() ==> (#[trigger] picked[k]) < names.len() && names[picked[k] as int]@
            == wanted
    &&& forall|k: int, m: int| 0 <= k < m < picked.len() ==> picked[k] < picked[m]
    &&& forall|i: int|
        0 <= i < names.len() && (#[trigger] names[i])@ == wanted ==> picked.contains(i as usize)
}

/// The layers that an incoming reading is handed to: the positions of all
/// layers bound to the reading's source, in layer order. A layer bound to
/// another source is never among them.
pub fn layers_for_source(layer_sources: &Vec<String>, source: &str) -> (picked: Vec<usize>)
    ensures
        picks_matches(picked@, layer_sources@, source@),
{
    let mut picked: Vec<usize> = Vec::new();
    let mut i: usize = 0;
    while i < layer_sources.len()
        invariant
            i <= layer_sources.len(),
            forall|k: int|
                0 <= k < picked@.len() ==> (#[trigger] picked@[k]) < i && layer_sources@[picked@[k] as int]@
                    == source@,
            forall|k: int, m: int| 0 <= k < m < picked@.len() ==> picked@[k] < picked@[m],
            forall|j: int|
                0 <= j < i && (#[trigger] layer_sources@[j])@ == source@ ==> picked@.contains(
                    j as usize,
                ),
        decreases layer_sources.len() - i,
    {
        if str_eq(layer_sources[i].as_str(), source) {
            let ghost before = picked@;
            picked.push(i);
            proof {
                assert(picked@[before.len() as int] == i);
                assert forall|j: int|
                    0 <= j < i + 1 && (#[trigger] layer_sources@[j])@
                        == source@ implies picked@.contains(j as usize) by {
                    if j < i {
                        let w = choose|w: int| 0 <= w < before.len() && before[w] == j as usize;
                        assert(picked@[w] == j as usize);
                    }
                }
            }
        }
        i += 1;
    }
    picked
}

/// A reading reaches a layer exactly when the layer is bound to the
/// reading's source.
pub proof fn lemma_other_sources_untouched(
    picked: Seq<usize>,
    names: Seq<String>,
    wanted: Seq<char>,
    layer: usize,
)
    requires
        picks_matches(picked, names, wanted),
        layer < names.len(),
    ensures
        picked.contains(layer) <==> names[layer as int]@ == wanted,
{
    if picked.contains(layer) {
        let k = choose|k: int| 0 <= k < picked.len() && picked[k] == layer;
        assert(names[picked[k] as int]@ == wanted);
    }
    if names[layer as int]@ == wanted {
        assert(picked.contains(layer as int as usize));
    }
}

} // verus!

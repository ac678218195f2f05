//! Functionality related to RDF class hierarchies used by the LV2 standard.
//! Not all standard LV2 class hierarchies are represented here, as some are
//! simple enough to be better represented by other means.

use vstd::prelude::*;
use crate::graph::{ClassInHierarchy, ParentFindingDigraphNode};

verus! {

/// Identifiers for standard LV2 plugin classes.  Non-standard plugin classes
/// can exist but are not represented by this type.
#[derive(Debug, Clone, Copy, PartialEq, Eq, Hash, Structural)]
pub enum StdPluginType {
    /// Base class for the plugin class hierarchy.
    Plugin,
    DelayPlugin,
    ReverbPlugin,
    DistortionPlugin,
    WaveshaperPlugin,
    DynamicsPlugin,
    AmplifierPlugin,
    CompressorPlugin,
    EnvelopePlugin,
    ExpanderPlugin,
    GatePlugin,
    LimiterPlugin,
    FilterPlugin,
    AllpassPlugin,
    BandpassPlugin,
    CombPlugin,
    EQPlugin,
    MultiEQPlugin,
    ParaEQPlugin,
    HighpassPlugin,
    LowpassPlugin,
    GeneratorPlugin,
    ConstantPlugin,
    InstrumentPlugin,
    OscillatorPlugin,
    ModulatorPlugin,
    ChorusPlugin,
    FlangerPlugin,
    PhaserPlugin,
    SimulatorPlugin,
    SpatialPlugin,
    SpectralPlugin,
    PitchPlugin,
    UtilityPlugin,
    AnalyserPlugin,
    ConverterPlugin,
    FunctionPlugin,
    MixerPlugin,
}

impl StdPluginType {
    /// Direct superclasses of each class, as a sequence.
    pub open spec fn superclasses_seq(self) -> Seq<StdPluginType> {
        match self {
            StdPluginType::Plugin => Seq::empty(),
            StdPluginType::DelayPlugin => seq![StdPluginType::Plugin],
            StdPluginType::ReverbPlugin => seq![StdPluginType::Plugin, StdPluginType::DelayPlugin, StdPluginType::SimulatorPlugin],
            StdPluginType::DistortionPlugin => seq![StdPluginType::Plugin],
            StdPluginType::WaveshaperPlugin => seq![StdPluginType::DistortionPlugin],
            StdPluginType::DynamicsPlugin => seq![StdPluginType::Plugin],
            StdPluginType::AmplifierPlugin => seq![StdPluginType::DynamicsPlugin],
            StdPluginType::CompressorPlugin => seq![StdPluginType::DynamicsPlugin],
            StdPluginType::EnvelopePlugin => seq![StdPluginType::DynamicsPlugin],
            StdPluginType::ExpanderPlugin => seq![StdPluginType::DynamicsPlugin],
            StdPluginType::GatePlugin => seq![StdPluginType::DynamicsPlugin],
            StdPluginType::LimiterPlugin => seq![StdPluginType::DynamicsPlugin],
            StdPluginType::FilterPlugin => seq![StdPluginType::Plugin],
            StdPluginType::AllpassPlugin => seq![StdPluginType::FilterPlugin],
            StdPluginType::BandpassPlugin => seq![StdPluginType::FilterPlugin],
            StdPluginType::CombPlugin => seq![StdPluginType::FilterPlugin],
            StdPluginType::EQPlugin => seq![StdPluginType::FilterPlugin],
            StdPluginType::MultiEQPlugin => seq![StdPluginType::EQPlugin],
            StdPluginType::ParaEQPlugin => seq![StdPluginType::EQPlugin],
            StdPluginType::HighpassPlugin => seq![StdPluginType::FilterPlugin],
            StdPluginType::LowpassPlugin => seq![StdPluginType::FilterPlugin],
            StdPluginType::GeneratorPlugin => seq![StdPluginType::Plugin],
            StdPluginType::ConstantPlugin => seq![StdPluginType::GeneratorPlugin],
            StdPluginType::InstrumentPlugin => seq![StdPluginType::GeneratorPlugin],
            StdPluginType::OscillatorPlugin => seq![StdPluginType::GeneratorPlugin],
            StdPluginType::ModulatorPlugin => seq![StdPluginType::Plugin],
            StdPluginType::ChorusPlugin => seq![StdPluginType::ModulatorPlugin],
            StdPluginType::FlangerPlugin => seq![StdPluginType::ModulatorPlugin],
            StdPluginType::PhaserPlugin => seq![StdPluginType::ModulatorPlugin],
            StdPluginType::SimulatorPlugin => seq![StdPluginType::Plugin],
            StdPluginType::SpatialPlugin => seq![StdPluginType::Plugin],
            StdPluginType::SpectralPlugin => seq![StdPluginType::Plugin],
            StdPluginType::PitchPlugin => seq![StdPluginType::SpectralPlugin],
            StdPluginType::UtilityPlugin => seq![StdPluginType::Plugin],
            StdPluginType::AnalyserPlugin => seq![StdPluginType::UtilityPlugin],
            StdPluginType::ConverterPlugin => seq![StdPluginType::UtilityPlugin],
            StdPluginType::FunctionPlugin => seq![StdPluginType::UtilityPlugin],
            StdPluginType::MixerPlugin => seq![StdPluginType::UtilityPlugin],
        }
    }
}

impl ParentFindingDigraphNode for StdPluginType {
    open spec fn node_domain() -> Seq<StdPluginType> {
        seq![StdPluginType::Plugin, StdPluginType::DelayPlugin, StdPluginType::ReverbPlugin, StdPluginType::DistortionPlugin, StdPluginType::WaveshaperPlugin, StdPluginType::DynamicsPlugin, StdPluginType::AmplifierPlugin, StdPluginType::CompressorPlugin, StdPluginType::EnvelopePlugin, StdPluginType::ExpanderPlugin, StdPluginType::GatePlugin, StdPluginType::LimiterPlugin, StdPluginType::FilterPlugin, StdPluginType::AllpassPlugin, StdPluginType::BandpassPlugin, StdPluginType::CombPlugin, StdPluginType::EQPlugin, StdPluginType::MultiEQPlugin, StdPluginType::ParaEQPlugin, StdPluginType::HighpassPlugin, StdPluginType::LowpassPlugin, StdPluginType::GeneratorPlugin, StdPluginType::ConstantPlugin, StdPluginType::InstrumentPlugin, StdPluginType::OscillatorPlugin, StdPluginType::ModulatorPlugin, StdPluginType::ChorusPlugin, StdPluginType::FlangerPlugin, StdPluginType::PhaserPlugin, StdPluginType::SimulatorPlugin, StdPluginType::SpatialPlugin, StdPluginType::SpectralPlugin, StdPluginType::PitchPlugin, StdPluginType::UtilityPlugin, StdPluginType::AnalyserPlugin, StdPluginType::ConverterPlugin, StdPluginType::FunctionPlugin, StdPluginType::MixerPlugin]
    }

    open spec fn spec_parents(self) -> Set<StdPluginType> {
        self.superclasses_seq().to_set()
    }

    proof fn lemma_in_domain(self) {
        match self {
            StdPluginType::Plugin => assert(Self::node_domain()[0] == self),
            StdPluginType::DelayPlugin => assert(Self::node_domain()[1] == self),
            StdPluginType::ReverbPlugin => assert(Self::node_domain()[2] == self),
            StdPluginType::DistortionPlugin => assert(Self::node_domain()[3] == self),
            StdPluginType::WaveshaperPlugin => assert(Self::node_domain()[4] == self),
            StdPluginType::DynamicsPlugin => assert(Self::node_domain()[5] == self),
            StdPluginType::AmplifierPlugin => assert(Self::node_domain()[6] == self),
            StdPluginType::CompressorPlugin => assert(Self::node_domain()[7] == self),
            StdPluginType::EnvelopePlugin => assert(Self::node_domain()[8] == self),
            StdPluginType::ExpanderPlugin => assert(Self::node_domain()[9] == self),
            StdPluginType::GatePlugin => assert(Self::node_domain()[10] == self),
            StdPluginType::LimiterPlugin => assert(Self::node_domain()[11] == self),
            StdPluginType::FilterPlugin => assert(Self::node_domain()[12] == self),
            StdPluginType::AllpassPlugin => assert(Self::node_domain()[13] == self),
            StdPluginType::BandpassPlugin => assert(Self::node_domain()[14] == self),
            StdPluginType::CombPlugin => assert(Self::node_domain()[15] == self),
            StdPluginType::EQPlugin => assert(Self::node_domain()[16] == self),
            StdPluginType::MultiEQPlugin => assert(Self::node_domain()[17] == self),
            StdPluginType::ParaEQPlugin => assert(Self::node_domain()[18] == self),
            StdPluginType::HighpassPlugin => assert(Self::node_domain()[19] == self),
            StdPluginType::LowpassPlugin => assert(Self::node_domain()[20] == self),
            StdPluginType::GeneratorPlugin => assert(Self::node_domain()[21] == self),
            StdPluginType::ConstantPlugin => assert(Self::node_domain()[22] == self),
            StdPluginType::InstrumentPlugin => assert(Self::node_domain()[23] == self),
            StdPluginType::OscillatorPlugin => assert(Self::node_domain()[24] == self),
            StdPluginType::ModulatorPlugin => assert(Self::node_domain()[25] == self),
            StdPluginType::ChorusPlugin => assert(Self::node_domain()[26] == self),
            StdPluginType::FlangerPlugin => assert(Self::node_domain()[27] == self),
            StdPluginType::PhaserPlugin => assert(Self::node_domain()[28] == self),
            StdPluginType::SimulatorPlugin => assert(Self::node_domain()[29] == self),
            StdPluginType::SpatialPlugin => assert(Self::node_domain()[30] == self),
            StdPluginType::SpectralPlugin => assert(Self::node_domain()[31] == self),
            StdPluginType::PitchPlugin => assert(Self::node_domain()[32] == self),
            StdPluginType::UtilityPlugin => assert(Self::node_domain()[33] == self),
            StdPluginType::AnalyserPlugin => assert(Self::node_domain()[34] == self),
            StdPluginType::ConverterPlugin => assert(Self::node_domain()[35] == self),
            StdPluginType::FunctionPlugin => assert(Self::node_domain()[36] == self),
            StdPluginType::MixerPlugin => assert(Self::node_domain()[37] == self),
        }
    }

    fn eq_node(&self, other: &Self) -> (r: bool) {
        *self == *other
    }

    fn parents(&self) -> (r: Vec<StdPluginType>) {
        let r: Vec<StdPluginType> = match self {
            StdPluginType::Plugin => Vec::new(),
            StdPluginType::DelayPlugin => vec![StdPluginType::Plugin],
            StdPluginType::ReverbPlugin => vec![StdPluginType::Plugin, StdPluginType::DelayPlugin, StdPluginType::SimulatorPlugin],
            StdPluginType::DistortionPlugin => vec![StdPluginType::Plugin],
            StdPluginType::WaveshaperPlugin => vec![StdPluginType::DistortionPlugin],
            StdPluginType::DynamicsPlugin => vec![StdPluginType::Plugin],
            StdPluginType::AmplifierPlugin => vec![StdPluginType::DynamicsPlugin],
            StdPluginType::CompressorPlugin => vec![StdPluginType::DynamicsPlugin],
            StdPluginType::EnvelopePlugin => vec![StdPluginType::DynamicsPlugin],
            StdPluginType::ExpanderPlugin => vec![StdPluginType::DynamicsPlugin],
            StdPluginType::GatePlugin => vec![StdPluginType::DynamicsPlugin],
            StdPluginType::LimiterPlugin => vec![StdPluginType::DynamicsPlugin],
            StdPluginType::FilterPlugin => vec![StdPluginType::Plugin],
            StdPluginType::AllpassPlugin => vec![StdPluginType::FilterPlugin],
            StdPluginType::BandpassPlugin => vec![StdPluginType::FilterPlugin],
            StdPluginType::CombPlugin => vec![StdPluginType::FilterPlugin],
            StdPluginType::EQPlugin => vec![StdPluginType::FilterPlugin],
            StdPluginType::MultiEQPlugin => vec![StdPluginType::EQPlugin],
            StdPluginType::ParaEQPlugin => vec![StdPluginType::EQPlugin],
            StdPluginType::HighpassPlugin => vec![StdPluginType::FilterPlugin],
            StdPluginType::LowpassPlugin => vec![StdPluginType::FilterPlugin],
            StdPluginType::GeneratorPlugin => vec![StdPluginType::Plugin],
            StdPluginType::ConstantPlugin => vec![StdPluginType::GeneratorPlugin],
            StdPluginType::InstrumentPlugin => vec![StdPluginType::GeneratorPlugin],
            StdPluginType::OscillatorPlugin => vec![StdPluginType::GeneratorPlugin],
            StdPluginType::ModulatorPlugin => vec![StdPluginType::Plugin],
            StdPluginType::ChorusPlugin => vec![StdPluginType::ModulatorPlugin],
            StdPluginType::FlangerPlugin => vec![StdPluginType::ModulatorPlugin],
            StdPluginType::PhaserPlugin => vec![StdPluginType::ModulatorPlugin],
            StdPluginType::SimulatorPlugin => vec![StdPluginType::Plugin],
            StdPluginType::SpatialPlugin => vec![StdPluginType::Plugin],
            StdPluginType::SpectralPlugin => vec![StdPluginType::Plugin],
            StdPluginType::PitchPlugin => vec![StdPluginType::SpectralPlugin],
            StdPluginType::UtilityPlugin => vec![StdPluginType::Plugin],
            StdPluginType::AnalyserPlugin => vec![StdPluginType::UtilityPlugin],
            StdPluginType::ConverterPlugin => vec![StdPluginType::UtilityPlugin],
            StdPluginType::FunctionPlugin => vec![StdPluginType::UtilityPlugin],
            StdPluginType::MixerPlugin => vec![StdPluginType::UtilityPlugin],
        };
        proof {
            assert(r@ =~= self.superclasses_seq());
        }
        r
    }
}

impl ClassInHierarchy for StdPluginType {
    fn direct_superclasses(&self) -> (r: Vec<Self>) {
        self.parents()
    }
}

/// Identifiers for standard LV2 atom classes.  Non-standard atom classes can
/// exist but are not represented by this type.
#[derive(Debug, Clone, Copy, PartialEq, Eq, Hash, Structural)]
pub enum StdAtomType {
    /// Base class for the atom class hierarchy.
    Atom,
    Bool,
    Chunk,
    Literal,
    Number,
    Double,
    Float,
    Int,
    Long,
    Object,
    Property,
    Sequence,
    String,
    Uri,
    Path,
    Tuple,
    Urid,
    Vector,
    Sound,
    MidiEvent,
    MidiSystemMessage,
    MidiSystemCommon,
    MidiQuarterFrame,
    MidiSongPosition,
    MidiSongSelect,
    MidiTuneRequest,
    MidiSystemExclusive,
    MidiSystemRealtime,
    MidiActiveSense,
    MidiClock,
    MidiContinue,
    MidiReset,
    MidiStart,
    MidiStop,
    MidiVoiceMessage,
    MidiAftertouch,
    MidiBender,
    MidiChannelPressure,
    MidiController,
    MidiNoteOff,
    MidiNoteOn,
    MidiProgramChange,
}

impl StdAtomType {
    /// Direct superclasses of each class, as a sequence.
    pub open spec fn superclasses_seq(self) -> Seq<StdAtomType> {
        match self {
            StdAtomType::Atom => Seq::empty(),
            StdAtomType::Bool => seq![StdAtomType::Atom],
            StdAtomType::Chunk => seq![StdAtomType::Atom],
            StdAtomType::Literal => seq![StdAtomType::Atom],
            StdAtomType::Number => seq![StdAtomType::Atom],
            StdAtomType::Double => seq![StdAtomType::Number],
            StdAtomType::Float => seq![StdAtomType::Number],
            StdAtomType::Int => seq![StdAtomType::Number],
            StdAtomType::Long => seq![StdAtomType::Number],
            StdAtomType::Object => seq![StdAtomType::Atom],
            StdAtomType::Property => seq![StdAtomType::Atom],
            StdAtomType::Sequence => seq![StdAtomType::Atom],
            StdAtomType::String => seq![StdAtomType::Atom],
            StdAtomType::Uri => seq![StdAtomType::String],
            StdAtomType::Path => seq![StdAtomType::Uri],
            StdAtomType::Tuple => seq![StdAtomType::Atom],
            StdAtomType::Urid => seq![StdAtomType::Atom],
            StdAtomType::Vector => seq![StdAtomType::Atom],
            StdAtomType::Sound => seq![StdAtomType::Vector],
            StdAtomType::MidiEvent => seq![StdAtomType::Atom],
            StdAtomType::MidiSystemMessage => seq![StdAtomType::MidiEvent],
            StdAtomType::MidiSystemCommon => seq![StdAtomType::MidiSystemMessage],
            StdAtomType::MidiQuarterFrame => seq![StdAtomType::MidiSystemCommon],
            StdAtomType::MidiSongPosition => seq![StdAtomType::MidiSystemCommon],
            StdAtomType::MidiSongSelect => seq![StdAtomType::MidiSystemCommon],
            StdAtomType::MidiTuneRequest => seq![StdAtomType::MidiSystemCommon],
            StdAtomType::MidiSystemExclusive => seq![StdAtomType::MidiSystemMessage],
            StdAtomType::MidiSystemRealtime => seq![StdAtomType::MidiSystemMessage],
            StdAtomType::MidiActiveSense => seq![StdAtomType::MidiSystemRealtime],
            StdAtomType::MidiClock => seq![StdAtomType::MidiSystemRealtime],
            StdAtomType::MidiContinue => seq![StdAtomType::MidiSystemRealtime],
            StdAtomType::MidiReset => seq![StdAtomType::MidiSystemRealtime],
            StdAtomType::MidiStart => seq![StdAtomType::MidiSystemRealtime],
            StdAtomType::MidiStop => seq![StdAtomType::MidiSystemRealtime],
            StdAtomType::MidiVoiceMessage => seq![StdAtomType::MidiEvent],
            StdAtomType::MidiAftertouch => seq![StdAtomType::MidiVoiceMessage],
            StdAtomType::MidiBender => seq![StdAtomType::MidiVoiceMessage],
            StdAtomType::MidiChannelPressure => seq![StdAtomType::MidiVoiceMessage],
            StdAtomType::MidiController => seq![StdAtomType::MidiVoiceMessage],
            StdAtomType::MidiNoteOff => seq![StdAtomType::MidiVoiceMessage],
            StdAtomType::MidiNoteOn => seq![StdAtomType::MidiVoiceMessage],
            StdAtomType::MidiProgramChange => seq![StdAtomType::MidiVoiceMessage],
        }
    }
}

impl ParentFindingDigraphNode for StdAtomType {
    open spec fn node_domain() -> Seq<StdAtomType> {
        seq![StdAtomType::Atom, StdAtomType::Bool, StdAtomType::Chunk, StdAtomType::Literal, StdAtomType::Number, StdAtomType::Double, StdAtomType::Float, StdAtomType::Int, StdAtomType::Long, StdAtomType::Object, StdAtomType::Property, StdAtomType::Sequence, StdAtomType::String, StdAtomType::Uri, StdAtomType::Path, StdAtomType::Tuple, StdAtomType::Urid, StdAtomType::Vector, StdAtomType::Sound, StdAtomType::MidiEvent, StdAtomType::MidiSystemMessage, StdAtomType::MidiSystemCommon, StdAtomType::MidiQuarterFrame, StdAtomType::MidiSongPosition, StdAtomType::MidiSongSelect, StdAtomType::MidiTuneRequest, StdAtomType::MidiSystemExclusive, StdAtomType::MidiSystemRealtime, StdAtomType::MidiActiveSense, StdAtomType::MidiClock, StdAtomType::MidiContinue, StdAtomType::MidiReset, StdAtomType::MidiStart, StdAtomType::MidiStop, StdAtomType::MidiVoiceMessage, StdAtomType::MidiAftertouch, StdAtomType::MidiBender, StdAtomType::MidiChannelPressure, StdAtomType::MidiController, StdAtomType::MidiNoteOff, StdAtomType::MidiNoteOn, StdAtomType::MidiProgramChange]
    }

    open spec fn spec_parents(self) -> Set<StdAtomType> {
        self.superclasses_seq().to_set()
    }

    proof fn lemma_in_domain(self) {
        match self {
            StdAtomType::Atom => assert(Self::node_domain()[0] == self),
            StdAtomType::Bool => assert(Self::node_domain()[1] == self),
            StdAtomType::Chunk => assert(Self::node_domain()[2] == self),
            StdAtomType::Literal => assert(Self::node_domain()[3] == self),
            StdAtomType::Number => assert(Self::node_domain()[4] == self),
            StdAtomType::Double => assert(Self::node_domain()[5] == self),
            StdAtomType::Float => assert(Self::node_domain()[6] == self),
            StdAtomType::Int => assert(Self::node_domain()[7] == self),
            StdAtomType::Long => assert(Self::node_domain()[8] == self),
            StdAtomType::Object => assert(Self::node_domain()[9] == self),
            StdAtomType::Property => assert(Self::node_domain()[10] == self),
            StdAtomType::Sequence => assert(Self::node_domain()[11] == self),
            StdAtomType::String => assert(Self::node_domain()[12] == self),
            StdAtomType::Uri => assert(Self::node_domain()[13] == self),
            StdAtomType::Path => assert(Self::node_domain()[14] == self),
            StdAtomType::Tuple => assert(Self::node_domain()[15] == self),
            StdAtomType::Urid => assert(Self::node_domain()[16] == self),
            StdAtomType::Vector => assert(Self::node_domain()[17] == self),
            StdAtomType::Sound => assert(Self::node_domain()[18] == self),
            StdAtomType::MidiEvent => assert(Self::node_domain()[19] == self),
            StdAtomType::MidiSystemMessage => assert(Self::node_domain()[20] == self),
            StdAtomType::MidiSystemCommon => assert(Self::node_domain()[21] == self),
            StdAtomType::MidiQuarterFrame => assert(Self::node_domain()[22] == self),
            StdAtomType::MidiSongPosition => assert(Self::node_domain()[23] == self),
            StdAtomType::MidiSongSelect => assert(Self::node_domain()[24] == self),
            StdAtomType::MidiTuneRequest => assert(Self::node_domain()[25] == self),
            StdAtomType::MidiSystemExclusive => assert(Self::node_domain()[26] == self),
            StdAtomType::MidiSystemRealtime => assert(Self::node_domain()[27] == self),
            StdAtomType::MidiActiveSense => assert(Self::node_domain()[28] == self),
            StdAtomType::MidiClock => assert(Self::node_domain()[29] == self),
            StdAtomType::MidiContinue => assert(Self::node_domain()[30] == self),
            StdAtomType::MidiReset => assert(Self::node_domain()[31] == self),
            StdAtomType::MidiStart => assert(Self::node_domain()[32] == self),
            StdAtomType::MidiStop => assert(Self::node_domain()[33] == self),
            StdAtomType::MidiVoiceMessage => assert(Self::node_domain()[34] == self),
            StdAtomType::MidiAftertouch => assert(Self::node_domain()[35] == self),
            StdAtomType::MidiBender => assert(Self::node_domain()[36] == self),
            StdAtomType::MidiChannelPressure => assert(Self::node_domain()[37] == self),
            StdAtomType::MidiController => assert(Self::node_domain()[38] == self),
            StdAtomType::MidiNoteOff => assert(Self::node_domain()[39] == self),
            StdAtomType::MidiNoteOn => assert(Self::node_domain()[40] == self),
            StdAtomType::MidiProgramChange => assert(Self::node_domain()[41] == self),
        }
    }

    fn eq_node(&self, other: &Self) -> (r: bool) {
        *self == *other
    }

    fn parents(&self) -> (r: Vec<StdAtomType>) {
        let r: Vec<StdAtomType> = match self {
            StdAtomType::Atom => Vec::new(),
            StdAtomType::Bool => vec![StdAtomType::Atom],
            StdAtomType::Chunk => vec![StdAtomType::Atom],
            StdAtomType::Literal => vec![StdAtomType::Atom],
            StdAtomType::Number => vec![StdAtomType::Atom],
            StdAtomType::Double => vec![StdAtomType::Number],
            StdAtomType::Float => vec![StdAtomType::Number],
            StdAtomType::Int => vec![StdAtomType::Number],
            StdAtomType::Long => vec![StdAtomType::Number],
            StdAtomType::Object => vec![StdAtomType::Atom],
            StdAtomType::Property => vec![StdAtomType::Atom],
            StdAtomType::Sequence => vec![StdAtomType::Atom],
            StdAtomType::String => vec![StdAtomType::Atom],
            StdAtomType::Uri => vec![StdAtomType::String],
            StdAtomType::Path => vec![StdAtomType::Uri],
            StdAtomType::Tuple => vec![StdAtomType::Atom],
            StdAtomType::Urid => vec![StdAtomType::Atom],
            StdAtomType::Vector => vec![StdAtomType::Atom],
            StdAtomType::Sound => vec![StdAtomType::Vector],
            StdAtomType::MidiEvent => vec![StdAtomType::Atom],
            StdAtomType::MidiSystemMessage => vec![StdAtomType::MidiEvent],
            StdAtomType::MidiSystemCommon => vec![StdAtomType::MidiSystemMessage],
            StdAtomType::MidiQuarterFrame => vec![StdAtomType::MidiSystemCommon],
            StdAtomType::MidiSongPosition => vec![StdAtomType::MidiSystemCommon],
            StdAtomType::MidiSongSelect => vec![StdAtomType::MidiSystemCommon],
            StdAtomType::MidiTuneRequest => vec![StdAtomType::MidiSystemCommon],
            StdAtomType::MidiSystemExclusive => vec![StdAtomType::MidiSystemMessage],
            StdAtomType::MidiSystemRealtime => vec![StdAtomType::MidiSystemMessage],
            StdAtomType::MidiActiveSense => vec![StdAtomType::MidiSystemRealtime],
            StdAtomType::MidiClock => vec![StdAtomType::MidiSystemRealtime],
            StdAtomType::MidiContinue => vec![StdAtomType::MidiSystemRealtime],
            StdAtomType::MidiReset => vec![StdAtomType::MidiSystemRealtime],
            StdAtomType::MidiStart => vec![StdAtomType::MidiSystemRealtime],
            StdAtomType::MidiStop => vec![StdAtomType::MidiSystemRealtime],
            StdAtomType::MidiVoiceMessage => vec![StdAtomType::MidiEvent],
            StdAtomType::MidiAftertouch => vec![StdAtomType::MidiVoiceMessage],
            StdAtomType::MidiBender => vec![StdAtomType::MidiVoiceMessage],
            StdAtomType::MidiChannelPressure => vec![StdAtomType::MidiVoiceMessage],
            StdAtomType::MidiController => vec![StdAtomType::MidiVoiceMessage],
            StdAtomType::MidiNoteOff => vec![StdAtomType::MidiVoiceMessage],
            StdAtomType::MidiNoteOn => vec![StdAtomType::MidiVoiceMessage],
            StdAtomType::MidiProgramChange => vec![StdAtomType::MidiVoiceMessage],
        };
        proof {
            assert(r@ =~= self.superclasses_seq());
        }
        r
    }
}

impl ClassInHierarchy for StdAtomType {
    fn direct_superclasses(&self) -> (r: Vec<Self>) {
        self.parents()
    }
}

} // verus!

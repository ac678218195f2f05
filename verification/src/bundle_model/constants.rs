//! Constants representing various RDF class hierarchies and instances from
//! the LV2 standard.

use vstd::prelude::*;

verus! {

/// Identifiers for standard LV2 plugin classes.  Each identifier also has a
/// stable slot (given by `index` / `index_spec`) in the 64-slot node domain
/// of [`crate::enum_graph::EnumSetDiGraph`], so that graphs of implications
/// among plugin types can be built over this vocabulary.
#[derive(Debug, Clone, Copy, PartialEq, Eq, Hash, Structural)]
pub enum PluginType {
    Delay,
    Reverb,
    Distortion,
    Waveshaper,
    Dynamics,
    Amplifier,
    Compressor,
    Envelope,
    Expander,
    Gate,
    Limiter,
    Filter,
    Allpass,
    Bandpass,
    Comb,
    EQ,
    MultiEQ,
    ParaEQ,
    Highpass,
    Lowpass,
    Generator,
    Constant,
    Instrument,
    Oscillator,
    Midi,
    Modulator,
    Chorus,
    Flanger,
    Phaser,
    Simulator,
    Spatial,
    Spectral,
    Pitch,
    Utility,
    Analyser,
    Converter,
    Function,
    Mixer,
}

impl PluginType {
    /// The slot of this plugin type in the graph node domain.
    pub open spec fn index_spec(self) -> int {
        match self {
            PluginType::Delay => 0,
            PluginType::Reverb => 1,
            PluginType::Distortion => 2,
            PluginType::Waveshaper => 3,
            PluginType::Dynamics => 4,
            PluginType::Amplifier => 5,
            PluginType::Compressor => 6,
            PluginType::Envelope => 7,
            PluginType::Expander => 8,
            PluginType::Gate => 9,
            PluginType::Limiter => 10,
            PluginType::Filter => 11,
            PluginType::Allpass => 12,
            PluginType::Bandpass => 13,
            PluginType::Comb => 14,
            PluginType::EQ => 15,
            PluginType::MultiEQ => 16,
            PluginType::ParaEQ => 17,
            PluginType::Highpass => 18,
            PluginType::Lowpass => 19,
            PluginType::Generator => 20,
            PluginType::Constant => 21,
            PluginType::Instrument => 22,
            PluginType::Oscillator => 23,
            PluginType::Midi => 24,
            PluginType::Modulator => 25,
            PluginType::Chorus => 26,
            PluginType::Flanger => 27,
            PluginType::Phaser => 28,
            PluginType::Simulator => 29,
            PluginType::Spatial => 30,
            PluginType::Spectral => 31,
            PluginType::Pitch => 32,
            PluginType::Utility => 33,
            PluginType::Analyser => 34,
            PluginType::Converter => 35,
            PluginType::Function => 36,
            PluginType::Mixer => 37,
        }
    }

    /// The plugin type sitting at a given slot of the graph node domain.
    pub open spec fn from_index_spec(i: int) -> PluginType {
        if i == 0 {
            PluginType::Delay
        } else if i == 1 {
            PluginType::Reverb
        } else if i == 2 {
            PluginType::Distortion
        } else if i == 3 {
            PluginType::Waveshaper
        } else if i == 4 {
            PluginType::Dynamics
        } else if i == 5 {
            PluginType::Amplifier
        } else if i == 6 {
            PluginType::Compressor
        } else if i == 7 {
            PluginType::Envelope
        } else if i == 8 {
            PluginType::Expander
        } else if i == 9 {
            PluginType::Gate
        } else if i == 10 {
            PluginType::Limiter
        } else if i == 11 {
            PluginType::Filter
        } else if i == 12 {
            PluginType::Allpass
        } else if i == 13 {
            PluginType::Bandpass
        } else if i == 14 {
            PluginType::Comb
        } else if i == 15 {
            PluginType::EQ
        } else if i == 16 {
            PluginType::MultiEQ
        } else if i == 17 {
            PluginType::ParaEQ
        } else if i == 18 {
            PluginType::Highpass
        } else if i == 19 {
            PluginType::Lowpass
        } else if i == 20 {
            PluginType::Generator
        } else if i == 21 {
            PluginType::Constant
        } else if i == 22 {
            PluginType::Instrument
        } else if i == 23 {
            PluginType::Oscillator
        } else if i == 24 {
            PluginType::Midi
        } else if i == 25 {
            PluginType::Modulator
        } else if i == 26 {
            PluginType::Chorus
        } else if i == 27 {
            PluginType::Flanger
        } else if i == 28 {
            PluginType::Phaser
        } else if i == 29 {
            PluginType::Simulator
        } else if i == 30 {
            PluginType::Spatial
        } else if i == 31 {
            PluginType::Spectral
        } else if i == 32 {
            PluginType::Pitch
        } else if i == 33 {
            PluginType::Utility
        } else if i == 34 {
            PluginType::Analyser
        } else if i == 35 {
            PluginType::Converter
        } else if i == 36 {
            PluginType::Function
        } else if i == 37 {
            PluginType::Mixer
        } else {
            PluginType::Mixer
        }
    }

    /// Computes the slot of this plugin type in the graph node domain.
    pub fn index(self) -> (r: usize)
        ensures
            r as int == self.index_spec(),
            r < 38,
    {
        match self {
            PluginType::Delay => 0,
            PluginType::Reverb => 1,
            PluginType::Distortion => 2,
            PluginType::Waveshaper => 3,
            PluginType::Dynamics => 4,
            PluginType::Amplifier => 5,
            PluginType::Compressor => 6,
            PluginType::Envelope => 7,
            PluginType::Expander => 8,
            PluginType::Gate => 9,
            PluginType::Limiter => 10,
            PluginType::Filter => 11,
            PluginType::Allpass => 12,
            PluginType::Bandpass => 13,
            PluginType::Comb => 14,
            PluginType::EQ => 15,
            PluginType::MultiEQ => 16,
            PluginType::ParaEQ => 17,
            PluginType::Highpass => 18,
            PluginType::Lowpass => 19,
            PluginType::Generator => 20,
            PluginType::Constant => 21,
            PluginType::Instrument => 22,
            PluginType::Oscillator => 23,
            PluginType::Midi => 24,
            PluginType::Modulator => 25,
            PluginType::Chorus => 26,
            PluginType::Flanger => 27,
            PluginType::Phaser => 28,
            PluginType::Simulator => 29,
            PluginType::Spatial => 30,
            PluginType::Spectral => 31,
            PluginType::Pitch => 32,
            PluginType::Utility => 33,
            PluginType::Analyser => 34,
            PluginType::Converter => 35,
            PluginType::Function => 36,
            PluginType::Mixer => 37,
        }
    }
}

/// Every plugin type sits at a slot below the vocabulary's size, and the
/// slot determines the plugin type.
pub proof fn lemma_plugin_type_index(a: PluginType)
    ensures
        0 <= a.index_spec() < 38,
        PluginType::from_index_spec(a.index_spec()) == a,
{
}

/// Every slot below the vocabulary's size is some plugin type's slot.
pub proof fn lemma_plugin_type_from_index(i: int)
    requires
        0 <= i < 38,
    ensures
        PluginType::from_index_spec(i).index_spec() == i,
{
}

/// Identifiers for standard LV2 port classes.  `InputPort` and `OutputPort` are not mutually exclusive: an LV2 port can be simultaneously an input port and an output port.
#[derive(Debug, Clone, Copy, PartialEq, Eq, Hash, Structural)]
pub enum PortType {
    InputPort,
    OutputPort,
    Audio,
    CV,
    Control,
    Atom,
    Morph,
    AutoMorph,
}

/// Identifiers for standard host features that can be supported and/or required by a plugin or LV2 UI.  Does not include UI port protocol features; for those, see [`UiPortProtocol`].
#[derive(Debug, Clone, Copy, PartialEq, Eq, Hash, Structural)]
pub enum HostFeature {
    HardRtCapable,
    InPlaceBroken,
    Live,
    BoundedBlockLength,
    CoarseBlockLength,
    FixedBlockLength,
    PowerOf2BlockLength,
    Logging,
    Options,
    StrictBounds,
    ResizeBuffer,
    LoadDefaultState,
    MakePath,
    MapPath,
    ThreadSafeRestore,
    FixedGuiSize,
    IdleInterface,
    NoUserResize,
    GuiParent,
    PortMap,
    PortSubscribe,
    ResizeGui,
    UiTouch,
    UridMap,
    UridUnmap,
    WorkSchedule,
    ExtensionDataAccess,
    InstanceAccess,
}

/// Identifiers for standard host features that represent LV2 port protocols used by LV2 UIs.  A port protocol defines a way for the LV2 UI and plugin to communicate port values.
#[derive(Debug, Clone, Copy, PartialEq, Eq, Hash, Structural)]
pub enum UiPortProtocol {
    Atom,
    AtomEvent,
    Float,
    Peak,
}

/// Identifiers for standard LV2 options that may be set by a host.
#[derive(Debug, Clone, Copy, PartialEq, Eq, Hash, Structural)]
pub enum Lv2Option {
    MaxBlockLength,
    MinBlockLength,
    NominalBlockLength,
    SequenceSize,
}

/// Identifiers for standard extension interfaces that a plugin or LV2 UI can provide.
#[derive(Debug, Clone, Copy, PartialEq, Eq, Hash, Structural)]
pub enum ExtensionData {
    Options,
    State,
    IdleInterface,
    ResizeGui,
    ShowInterface,
    Worker,
}

/// Identifiers for standard LV2 atom classes.  Non-standard atom classes can exist but are not represented by this type.
#[derive(Debug, Clone, Copy, PartialEq, Eq, Hash, Structural)]
pub enum AtomType {
    Atom,
    Bool,
    Chunk,
    Literal,
    Number,
    Double,
    Float,
    Int,
    Long,
    Object,
    Property,
    Sequence,
    String,
    Uri,
    Path,
    Tuple,
    Urid,
    Vector,
    Sound,
    MidiEvent,
    MidiSystemMessage,
    MidiSystemCommon,
    MidiQuarterFrame,
    MidiSongPosition,
    MidiSongSelect,
    MidiTuneRequest,
    MidiSystemExclusive,
    MidiSystemRealtime,
    MidiActiveSense,
    MidiClock,
    MidiContinue,
    MidiReset,
    MidiStart,
    MidiStop,
    MidiVoiceMessage,
    MidiAftertouch,
    MidiBender,
    MidiChannelPressure,
    MidiController,
    MidiNoteOff,
    MidiNoteOn,
    MidiProgramChange,
}

/// Identifiers for measurement units defined by the LV2 standard.
#[derive(Debug, Clone, Copy, PartialEq, Eq, Hash, Structural)]
pub enum Unit {
    Bar,
    Beat,
    Bpm,
    Cent,
    Centimeter,
    Coefficient,
    Decibel,
    Degree,
    AudioFrame,
    Hertz,
    Inch,
    Kilohertz,
    Kilometer,
    Meter,
    Megahertz,
    MidiNote,
    Mile,
    Minute,
    Millimeter,
    Millisecond,
    Octave,
    Percent,
    Second,
    Semitone12Tet,
}

/// Identifiers for standard LV2 port properties that can apply to a port.
#[derive(Debug, Clone, Copy, PartialEq, Eq, Hash, Structural)]
pub enum PortProperty {
    ConnOptional,
    Enumeration,
    IntOnly,
    SideChain,
    ReportsLatency,
    BoundsRelativeToSampleRate,
    Toggle,
    ChangeCausesArtifacts,
    ContinuousCV,
    DiscreteCV,
    ChangeExpensive,
    StrictBounds,
    Logarithmic,
    NotAutomatic,
    NotOnGui,
    Trigger,
}

/// Identifiers for standard LV2 'designations' that can apply to a port.  Does not include channel designations; for those, see [`PortChannel`].
#[derive(Debug, Clone, Copy, PartialEq, Eq, Hash, Structural)]
pub enum PortDesignation {
    Amplitude,
    Attack,
    Bypass,
    CutoffFrequency,
    Decay,
    Delay,
    DryLevel,
    Frequency,
    Gain,
    Hold,
    PulseWidth,
    CompressionRatio,
    Release,
    Resonance,
    SampleRate,
    Sustain,
    CompressionThreshold,
    Waveform,
    WetDryRatio,
    WetLevel,
}

/// Identifiers for standard LV2 channel designations that can apply to a port.
#[derive(Debug, Clone, Copy, PartialEq, Eq, Hash, Structural)]
pub enum PortChannel {
    Control,
    Center,
    CenterLeft,
    CenterRight,
    Left,
    LowFrequencyEffects,
    RearCenter,
    RearLeft,
    RearRight,
    Right,
    Side,
    SideLeft,
    SideRight,
}

} // verus!

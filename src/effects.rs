use vstd::prelude::*;
use vstd::slice::slice_to_vec;
use crate::config::EffectType;
use crate::params::EffectParams;
use crate::text::{decimal, push_decimal, same_text, starts_with_text, parse_unsigned_from, unsigned_value};

verus! {

// Bit patterns of the single-precision values that effects use as defaults
// and as advisory ranges.
pub const ZERO: u32 = 0x0000_0000;
pub const ONE: u32 = 0x3F80_0000;
pub const HALF: u32 = 0x3F00_0000;
pub const ONE_TENTH: u32 = 0x3DCC_CCCD;
pub const ONE_HUNDREDTH: u32 = 0x3C23_D70A;
pub const ONE_THOUSANDTH: u32 = 0x3A83_126F;
pub const THREE_TENTHS: u32 = 0x3E99_999A;
pub const SEVEN_TENTHS: u32 = 0x3F33_3333;
pub const FOUR: u32 = 0x4080_0000;
pub const TEN: u32 = 0x4120_0000;
pub const TWELVE: u32 = 0x4140_0000;
pub const MINUS_TWELVE: u32 = 0xC140_0000;
pub const TWENTY: u32 = 0x41A0_0000;
pub const MINUS_TWENTY: u32 = 0xC1A0_0000;
pub const TWENTY_FOUR: u32 = 0x41C0_0000;
pub const MINUS_FORTY: u32 = 0xC220_0000;
pub const MINUS_SIXTY: u32 = 0xC270_0000;
pub const MINUS_EIGHTY: u32 = 0xC2A0_0000;
pub const HUNDRED: u32 = 0x42C8_0000;

// Centre frequencies of the equalizer's bands, in hertz.
pub const HZ_32: u32 = 0x4200_0000;
pub const HZ_64: u32 = 0x4280_0000;
pub const HZ_125: u32 = 0x42FA_0000;
pub const HZ_250: u32 = 0x437A_0000;
pub const HZ_500: u32 = 0x43FA_0000;
pub const HZ_1000: u32 = 0x447A_0000;
pub const HZ_2000: u32 = 0x44FA_0000;
pub const HZ_4000: u32 = 0x457A_0000;
pub const HZ_8000: u32 = 0x45FA_0000;
pub const HZ_16000: u32 = 0x467A_0000;

/// A parameter descriptor as a value: name, current value, min, max, step.
pub type ParameterView = (Seq<char>, u32, u32, u32, u32);

/// A parameter of an effect as offered to a user interface. `min`, `max` and
/// `step` are advisory; the effect does not enforce them.
#[derive(Debug, Clone)]
pub struct EffectParameter {
    pub name: String,
    pub value: u32,
    pub min: u32,
    pub max: u32,
    pub step: u32,
}

impl View for EffectParameter {
    type V = ParameterView;

    open spec fn view(&self) -> ParameterView {
        (self.name@, self.value, self.min, self.max, self.step)
    }
}

/// The views of a list of descriptors.
pub open spec fn descriptor_views(v: Seq<EffectParameter>) -> Seq<ParameterView> {
    v.map_values(|p: EffectParameter| p@)
}

/// The first position at or after `from` of a descriptor named `name`.
pub open spec fn named_from(d: Seq<ParameterView>, name: Seq<char>, from: int) -> Option<int>
    decreases d.len() - from,
{
    if from < 0 || from >= d.len() {
        None
    } else if d[from].0 == name {
        Some(from)
    } else {
        named_from(d, name, from + 1)
    }
}

/// The position of the descriptor named `name`, if any.
pub open spec fn named_index(d: Seq<ParameterView>, name: Seq<char>) -> Option<int> {
    named_from(d, name, 0)
}

/// The descriptors after the value at position `at` (if any) became `v`.
pub open spec fn set_value(d: Seq<ParameterView>, at: Option<int>, v: u32) -> Seq<ParameterView> {
    match at {
        Some(i) => d.update(i, (d[i].0, v, d[i].2, d[i].3, d[i].4)),
        None => d,
    }
}

/// The stored value of `k`, or `default` where none is stored.
pub open spec fn param_or(m: Map<Seq<char>, u32>, k: Seq<char>, default: u32) -> u32 {
    if m.contains_key(k) {
        m[k]
    } else {
        default
    }
}

fn descriptor(name: &str, value: u32, min: u32, max: u32, step: u32) -> (r: EffectParameter)
    ensures
        r@ == (name@, value, min, max, step),
{
    EffectParameter { name: String::from_str(name), value, min, max, step }
}

fn stored_or(params: &EffectParams, key: &str, default: u32) -> (r: u32)
    ensures
        r == param_or(params@, key@, default),
{
    match params.get(key) {
        Some(v) => v,
        None => default,
    }
}

/// One band of the equalizer: centre frequency, Q and gain in decibels.
#[derive(Debug, Clone, Copy)]
pub struct EQBand {
    pub frequency: u32,
    pub q: u32,
    pub gain: u32,
}

impl EQBand {
    pub fn new(frequency: u32, q: u32, gain: u32) -> (r: EQBand)
        ensures
            r.frequency == frequency,
            r.q == q,
            r.gain == gain,
    {
        EQBand { frequency, q, gain }
    }

    /// The band's filter. It passes the block through unchanged: every band
    /// is flat whatever its gain.
    pub fn apply(&self, input: &[u32]) -> (r: Vec<u32>)
        ensures
            r@ == input@,
    {
        slice_to_vec(input)
    }
}

/// The descriptor of band `i` of the equalizer with gain `gain`.
pub open spec fn band_descriptor(i: nat, gain: u32) -> ParameterView {
    ("band_"@ + decimal(i), gain, MINUS_TWELVE, TWELVE, ONE_TENTH)
}

/// The band that a parameter name of the equalizer addresses: `band_`
/// followed by the band's index as an unsigned number.
pub open spec fn band_index(name: Seq<char>) -> Option<nat> {
    if name.len() >= 5 && name.take(5) == "band_"@ {
        unsigned_value(name.skip(5))
    } else {
        None
    }
}

/// The equalizer's bands as built: ten bands from 32 Hz to 16 kHz, Q of one,
/// flat gain.
pub open spec fn default_bands() -> Seq<EQBand> {
    seq![
        EQBand { frequency: HZ_32, q: ONE, gain: ZERO },
        EQBand { frequency: HZ_64, q: ONE, gain: ZERO },
        EQBand { frequency: HZ_125, q: ONE, gain: ZERO },
        EQBand { frequency: HZ_250, q: ONE, gain: ZERO },
        EQBand { frequency: HZ_500, q: ONE, gain: ZERO },
        EQBand { frequency: HZ_1000, q: ONE, gain: ZERO },
        EQBand { frequency: HZ_2000, q: ONE, gain: ZERO },
        EQBand { frequency: HZ_4000, q: ONE, gain: ZERO },
        EQBand { frequency: HZ_8000, q: ONE, gain: ZERO },
        EQBand { frequency: HZ_16000, q: ONE, gain: ZERO },
    ]
}

/// A ten-band graphic equalizer.
#[derive(Debug, Clone, Copy)]
pub struct EqualizerEffect {
    bands: [EQBand; 10],
}

impl View for EqualizerEffect {
    type V = Seq<ParameterView>;

    closed spec fn view(&self) -> Seq<ParameterView> {
        Seq::new(self.bands@.len(), |i: int| band_descriptor(i as nat, self.bands@[i].gain))
    }
}

impl EqualizerEffect {
    /// The equalizer's bands.
    pub closed spec fn band_models(&self) -> Seq<EQBand> {
        self.bands@
    }

    /// The position of the band that `name` addresses, where there is one.
    pub open spec fn parameter_index(&self, name: Seq<char>) -> Option<int> {
        match band_index(name) {
            Some(n) => if n < self@.len() {
                Some(n as int)
            } else {
                None
            },
            None => None,
        }
    }

    /// A flat equalizer; it takes no parameter from `_params`.
    pub fn new(_params: EffectParams) -> (r: EqualizerEffect)
        ensures
            r.band_models() == default_bands(),
            r@.len() == 10,
            forall|i: int| 0 <= i < 10 ==> #[trigger] r@[i] == band_descriptor(i as nat, ZERO),
    {
        let bands: [EQBand; 10] = [
            EQBand::new(HZ_32, ONE, ZERO),
            EQBand::new(HZ_64, ONE, ZERO),
            EQBand::new(HZ_125, ONE, ZERO),
            EQBand::new(HZ_250, ONE, ZERO),
            EQBand::new(HZ_500, ONE, ZERO),
            EQBand::new(HZ_1000, ONE, ZERO),
            EQBand::new(HZ_2000, ONE, ZERO),
            EQBand::new(HZ_4000, ONE, ZERO),
            EQBand::new(HZ_8000, ONE, ZERO),
            EQBand::new(HZ_16000, ONE, ZERO),
        ];
        let r = EqualizerEffect { bands };
        assert(r.band_models() =~= default_bands());
        r
    }

    /// Runs the block through every band in turn; the output equals the input.
    pub fn process(&self, input: &[u32]) -> (r: Vec<u32>)
        ensures
            r@ == input@,
    {
        let mut output = slice_to_vec(input);
        let mut i: usize = 0;
        while i < 10
            invariant
                i <= self.bands@.len(),
                output@ == input@,
            decreases self.bands@.len() - i,
        {
            output = self.bands[i].apply(output.as_slice());
            i = i + 1;
        }
        output
    }

    pub fn get_name(&self) -> (r: &'static str)
        ensures
            r@ == "Equalizer"@,
    {
        "Equalizer"
    }

    /// One descriptor per band, named `band_<index>`.
    pub fn get_parameters(&self) -> (r: Vec<EffectParameter>)
        ensures
            descriptor_views(r@) == self@,
            equalizer_shaped(self@),
    {
        let mut r: Vec<EffectParameter> = Vec::new();
        let mut i: usize = 0;
        while i < 10
            invariant
                i <= self.bands@.len(),
                r@.len() == i,
                forall|j: int| 0 <= j < i ==> #[trigger] r@[j]@ == self@[j],
            decreases self.bands@.len() - i,
        {
            let mut name = String::from_str("band_");
            push_decimal(&mut name, i as u128);
            let p = EffectParameter {
                name,
                value: self.bands[i].gain,
                min: MINUS_TWELVE,
                max: TWELVE,
                step: ONE_TENTH,
            };
            r.push(p);
            i = i + 1;
        }
        assert(descriptor_views(r@) =~= self@);
        r
    }

    /// Sets the gain of the band that `name` addresses; any other name is
    /// ignored.
    pub fn set_parameter(&mut self, name: &str, value: u32)
        ensures
            final(self)@ == set_value(old(self)@, old(self).parameter_index(name@), value),
            equalizer_shaped(old(self)@),
            equalizer_shaped(final(self)@),
            final(self).band_models().len() == old(self).band_models().len(),
    {
        proof {
            reveal_strlit("band_");
        }
        if starts_with_text(name, "band_") {
            if let Some(idx) = parse_unsigned_from(name, 5) {
                if idx < 10 {
                    let mut band = self.bands[idx];
                    band.gain = value;
                    self.bands.set(idx, band);
                    assert(self@ =~= set_value(old(self)@, old(self).parameter_index(name@), value));
                }
            }
        }
    }
}

/// The compressor's descriptors for the given settings.
pub open spec fn compressor_view(
    threshold: u32,
    ratio: u32,
    attack: u32,
    release: u32,
    makeup: u32,
) -> Seq<ParameterView> {
    seq![
        ("threshold"@, threshold, MINUS_SIXTY, ZERO, ONE_TENTH),
        ("ratio"@, ratio, ONE, TWENTY, ONE_TENTH),
        ("attack"@, attack, ONE_THOUSANDTH, ONE_TENTH, ONE_THOUSANDTH),
        ("release"@, release, ONE_HUNDREDTH, ONE, ONE_HUNDREDTH),
        ("makeup"@, makeup, ZERO, TWENTY_FOUR, ONE_TENTH),
    ]
}

/// A downward compressor: threshold (dB), ratio, attack, release and makeup gain.
#[derive(Debug, Clone, Copy)]
pub struct CompressorEffect {
    threshold: u32,
    ratio: u32,
    attack: u32,
    release: u32,
    makeup_gain: u32,
}

impl View for CompressorEffect {
    type V = Seq<ParameterView>;

    closed spec fn view(&self) -> Seq<ParameterView> {
        compressor_view(self.threshold, self.ratio, self.attack, self.release, self.makeup_gain)
    }
}

impl CompressorEffect {
    pub open spec fn parameter_index(&self, name: Seq<char>) -> Option<int> {
        named_index(self@, name)
    }

    /// Takes `threshold`, `ratio`, `attack`, `release` and `makeup` from
    /// `params`, with defaults -20, 4, 0.01, 0.1 and 1 for those absent.
    pub fn new(params: EffectParams) -> (r: CompressorEffect)
        ensures
            r@ == compressor_view(
                param_or(params@, "threshold"@, MINUS_TWENTY),
                param_or(params@, "ratio"@, FOUR),
                param_or(params@, "attack"@, ONE_HUNDREDTH),
                param_or(params@, "release"@, ONE_TENTH),
                param_or(params@, "makeup"@, ONE),
            ),
    {
        CompressorEffect {
            threshold: stored_or(&params, "threshold", MINUS_TWENTY),
            ratio: stored_or(&params, "ratio", FOUR),
            attack: stored_or(&params, "attack", ONE_HUNDREDTH),
            release: stored_or(&params, "release", ONE_TENTH),
            makeup_gain: stored_or(&params, "makeup", ONE),
        }
    }

    pub fn threshold(&self) -> (r: u32)
        ensures
            r == self@[0].1,
    {
        self.threshold
    }

    pub fn ratio(&self) -> (r: u32)
        ensures
            r == self@[1].1,
    {
        self.ratio
    }

    pub fn attack(&self) -> (r: u32)
        ensures
            r == self@[2].1,
    {
        self.attack
    }

    pub fn release(&self) -> (r: u32)
        ensures
            r == self@[3].1,
    {
        self.release
    }

    pub fn makeup_gain(&self) -> (r: u32)
        ensures
            r == self@[4].1,
    {
        self.makeup_gain
    }

    pub fn get_name(&self) -> (r: &'static str)
        ensures
            r@ == "Compressor"@,
    {
        "Compressor"
    }

    pub fn get_parameters(&self) -> (r: Vec<EffectParameter>)
        ensures
            descriptor_views(r@) == self@,
            compressor_shaped(self@),
    {
        let mut r: Vec<EffectParameter> = Vec::new();
        r.push(descriptor("threshold", self.threshold, MINUS_SIXTY, ZERO, ONE_TENTH));
        r.push(descriptor("ratio", self.ratio, ONE, TWENTY, ONE_TENTH));
        r.push(descriptor("attack", self.attack, ONE_THOUSANDTH, ONE_TENTH, ONE_THOUSANDTH));
        r.push(descriptor("release", self.release, ONE_HUNDREDTH, ONE, ONE_HUNDREDTH));
        r.push(descriptor("makeup", self.makeup_gain, ZERO, TWENTY_FOUR, ONE_TENTH));
        assert(descriptor_views(r@) =~= self@);
        r
    }

    /// Sets the parameter called `name`; any other name is ignored.
    pub fn set_parameter(&mut self, name: &str, value: u32)
        ensures
            final(self)@ == set_value(old(self)@, old(self).parameter_index(name@), value),
            compressor_shaped(old(self)@),
            compressor_shaped(final(self)@),
            old(self).parameter_index(name@) == compressor_slot(name@),
    {
        proof {
            reveal_strlit("threshold");
            reveal_strlit("ratio");
            reveal_strlit("attack");
            reveal_strlit("release");
            reveal_strlit("makeup");
            reveal_with_fuel(named_from, 6);
        }
        let ghost d = self@;
        if same_text(name, "threshold") {
            self.threshold = value;
        } else if same_text(name, "ratio") {
            self.ratio = value;
        } else if same_text(name, "attack") {
            self.attack = value;
        } else if same_text(name, "release") {
            self.release = value;
        } else if same_text(name, "makeup") {
            self.makeup_gain = value;
        }
        assert(self@ =~= set_value(d, named_index(d, name@), value));
    }
}

/// The reverb's descriptors for the given settings.
pub open spec fn reverb_view(room_size: u32, damping: u32, wet_level: u32, dry_level: u32) -> Seq<
    ParameterView,
> {
    seq![
        ("room_size"@, room_size, ZERO, ONE, ONE_HUNDREDTH),
        ("damping"@, damping, ZERO, ONE, ONE_HUNDREDTH),
        ("wet_level"@, wet_level, ZERO, ONE, ONE_HUNDREDTH),
        ("dry_level"@, dry_level, ZERO, ONE, ONE_HUNDREDTH),
    ]
}

/// A dry/wet mix: room size, damping (kept, not used by the mix), wet and dry levels.
#[derive(Debug, Clone, Copy)]
pub struct ReverbEffect {
    room_size: u32,
    damping: u32,
    wet_level: u32,
    dry_level: u32,
}

impl View for ReverbEffect {
    type V = Seq<ParameterView>;

    closed spec fn view(&self) -> Seq<ParameterView> {
        reverb_view(self.room_size, self.damping, self.wet_level, self.dry_level)
    }
}

impl ReverbEffect {
    pub open spec fn parameter_index(&self, name: Seq<char>) -> Option<int> {
        named_index(self@, name)
    }

    /// Takes `room_size`, `damping`, `wet_level` and `dry_level` from
    /// `params`, with defaults 0.5, 0.5, 0.3 and 0.7 for those absent.
    pub fn new(params: EffectParams) -> (r: ReverbEffect)
        ensures
            r@ == reverb_view(
                param_or(params@, "room_size"@, HALF),
                param_or(params@, "damping"@, HALF),
                param_or(params@, "wet_level"@, THREE_TENTHS),
                param_or(params@, "dry_level"@, SEVEN_TENTHS),
            ),
    {
        ReverbEffect {
            room_size: stored_or(&params, "room_size", HALF),
            damping: stored_or(&params, "damping", HALF),
            wet_level: stored_or(&params, "wet_level", THREE_TENTHS),
            dry_level: stored_or(&params, "dry_level", SEVEN_TENTHS),
        }
    }

    pub fn room_size(&self) -> (r: u32)
        ensures
            r == self@[0].1,
    {
        self.room_size
    }

    pub fn damping(&self) -> (r: u32)
        ensures
            r == self@[1].1,
    {
        self.damping
    }

    pub fn wet_level(&self) -> (r: u32)
        ensures
            r == self@[2].1,
    {
        self.wet_level
    }

    pub fn dry_level(&self) -> (r: u32)
        ensures
            r == self@[3].1,
    {
        self.dry_level
    }

    pub fn get_name(&self) -> (r: &'static str)
        ensures
            r@ == "Reverb"@,
    {
        "Reverb"
    }

    pub fn get_parameters(&self) -> (r: Vec<EffectParameter>)
        ensures
            descriptor_views(r@) == self@,
            reverb_shaped(self@),
    {
        let mut r: Vec<EffectParameter> = Vec::new();
        r.push(descriptor("room_size", self.room_size, ZERO, ONE, ONE_HUNDREDTH));
        r.push(descriptor("damping", self.damping, ZERO, ONE, ONE_HUNDREDTH));
        r.push(descriptor("wet_level", self.wet_level, ZERO, ONE, ONE_HUNDREDTH));
        r.push(descriptor("dry_level", self.dry_level, ZERO, ONE, ONE_HUNDREDTH));
        assert(descriptor_views(r@) =~= self@);
        r
    }

    /// Sets the parameter called `name`; any other name is ignored.
    pub fn set_parameter(&mut self, name: &str, value: u32)
        ensures
            final(self)@ == set_value(old(self)@, old(self).parameter_index(name@), value),
            reverb_shaped(old(self)@),
            reverb_shaped(final(self)@),
            old(self).parameter_index(name@) == reverb_slot(name@),
    {
        proof {
            reveal_strlit("room_size");
            reveal_strlit("damping");
            reveal_strlit("wet_level");
            reveal_strlit("dry_level");
            reveal_with_fuel(named_from, 5);
        }
        let ghost d = self@;
        if same_text(name, "room_size") {
            self.room_size = value;
        } else if same_text(name, "damping") {
            self.damping = value;
        } else if same_text(name, "wet_level") {
            self.wet_level = value;
        } else if same_text(name, "dry_level") {
            self.dry_level = value;
        }
        assert(self@ =~= set_value(d, named_index(d, name@), value));
    }
}

/// The noise gate's descriptors for the given settings.
pub open spec fn noise_gate_view(threshold: u32, ratio: u32, attack: u32, release: u32) -> Seq<
    ParameterView,
> {
    seq![
        ("threshold"@, threshold, MINUS_EIGHTY, ZERO, ONE_TENTH),
        ("ratio"@, ratio, ONE, HUNDRED, ONE),
        ("attack"@, attack, ONE_THOUSANDTH, ONE_TENTH, ONE_THOUSANDTH),
        ("release"@, release, ONE_HUNDREDTH, ONE, ONE_HUNDREDTH),
    ]
}

/// A gate that attenuates by `1/ratio` while the envelope is under the threshold (dB).
#[derive(Debug, Clone, Copy)]
pub struct NoiseGateEffect {
    threshold: u32,
    ratio: u32,
    attack: u32,
    release: u32,
}

impl View for NoiseGateEffect {
    type V = Seq<ParameterView>;

    closed spec fn view(&self) -> Seq<ParameterView> {
        noise_gate_view(self.threshold, self.ratio, self.attack, self.release)
    }
}

impl NoiseGateEffect {
    pub open spec fn parameter_index(&self, name: Seq<char>) -> Option<int> {
        named_index(self@, name)
    }

    /// Takes `threshold`, `ratio`, `attack` and `release` from `params`,
    /// with defaults -40, 10, 0.001 and 0.1 for those absent.
    pub fn new(params: EffectParams) -> (r: NoiseGateEffect)
        ensures
            r@ == noise_gate_view(
                param_or(params@, "threshold"@, MINUS_FORTY),
                param_or(params@, "ratio"@, TEN),
                param_or(params@, "attack"@, ONE_THOUSANDTH),
                param_or(params@, "release"@, ONE_TENTH),
            ),
    {
        NoiseGateEffect {
            threshold: stored_or(&params, "threshold", MINUS_FORTY),
            ratio: stored_or(&params, "ratio", TEN),
            attack: stored_or(&params, "attack", ONE_THOUSANDTH),
            release: stored_or(&params, "release", ONE_TENTH),
        }
    }

    pub fn threshold(&self) -> (r: u32)
        ensures
            r == self@[0].1,
    {
        self.threshold
    }

    pub fn ratio(&self) -> (r: u32)
        ensures
            r == self@[1].1,
    {
        self.ratio
    }

    pub fn attack(&self) -> (r: u32)
        ensures
            r == self@[2].1,
    {
        self.attack
    }

    pub fn release(&self) -> (r: u32)
        ensures
            r == self@[3].1,
    {
        self.release
    }

    pub fn get_name(&self) -> (r: &'static str)
        ensures
            r@ == "Noise Gate"@,
    {
        "Noise Gate"
    }

    pub fn get_parameters(&self) -> (r: Vec<EffectParameter>)
        ensures
            descriptor_views(r@) == self@,
            noise_gate_shaped(self@),
    {
        let mut r: Vec<EffectParameter> = Vec::new();
        r.push(descriptor("threshold", self.threshold, MINUS_EIGHTY, ZERO, ONE_TENTH));
        r.push(descriptor("ratio", self.ratio, ONE, HUNDRED, ONE));
        r.push(descriptor("attack", self.attack, ONE_THOUSANDTH, ONE_TENTH, ONE_THOUSANDTH));
        r.push(descriptor("release", self.release, ONE_HUNDREDTH, ONE, ONE_HUNDREDTH));
        assert(descriptor_views(r@) =~= self@);
        r
    }

    /// Sets the parameter called `name`; any other name is ignored.
    pub fn set_parameter(&mut self, name: &str, value: u32)
        ensures
            final(self)@ == set_value(old(self)@, old(self).parameter_index(name@), value),
            noise_gate_shaped(old(self)@),
            noise_gate_shaped(final(self)@),
            old(self).parameter_index(name@) == noise_gate_slot(name@),
    {
        proof {
            reveal_strlit("threshold");
            reveal_strlit("ratio");
            reveal_strlit("attack");
            reveal_strlit("release");
            reveal_with_fuel(named_from, 5);
        }
        let ghost d = self@;
        if same_text(name, "threshold") {
            self.threshold = value;
        } else if same_text(name, "ratio") {
            self.ratio = value;
        } else if same_text(name, "attack") {
            self.attack = value;
        } else if same_text(name, "release") {
            self.release = value;
        }
        assert(self@ =~= set_value(d, named_index(d, name@), value));
    }
}

/// The display name of each kind of effect.
pub open spec fn effect_name(t: EffectType) -> Seq<char> {
    match t {
        EffectType::Eq => "Equalizer"@,
        EffectType::Compressor => "Compressor"@,
        EffectType::Reverb => "Reverb"@,
        EffectType::NoiseGate => "Noise Gate"@,
    }
}

/// The descriptor position that a compressor parameter name addresses.
pub open spec fn compressor_slot(name: Seq<char>) -> Option<int> {
    if name == "threshold"@ {
        Some(0)
    } else if name == "ratio"@ {
        Some(1)
    } else if name == "attack"@ {
        Some(2)
    } else if name == "release"@ {
        Some(3)
    } else if name == "makeup"@ {
        Some(4)
    } else {
        None
    }
}

/// The descriptor position that a reverb parameter name addresses.
pub open spec fn reverb_slot(name: Seq<char>) -> Option<int> {
    if name == "room_size"@ {
        Some(0)
    } else if name == "damping"@ {
        Some(1)
    } else if name == "wet_level"@ {
        Some(2)
    } else if name == "dry_level"@ {
        Some(3)
    } else {
        None
    }
}

/// The descriptor position that a noise gate parameter name addresses.
pub open spec fn noise_gate_slot(name: Seq<char>) -> Option<int> {
    if name == "threshold"@ {
        Some(0)
    } else if name == "ratio"@ {
        Some(1)
    } else if name == "attack"@ {
        Some(2)
    } else if name == "release"@ {
        Some(3)
    } else {
        None
    }
}

/// The compressor's descriptors in their fixed layout.
pub open spec fn compressor_shaped(d: Seq<ParameterView>) -> bool {
    d.len() == 5 && d == compressor_view(d[0].1, d[1].1, d[2].1, d[3].1, d[4].1)
}

/// The reverb's descriptors in their fixed layout.
pub open spec fn reverb_shaped(d: Seq<ParameterView>) -> bool {
    d.len() == 4 && d == reverb_view(d[0].1, d[1].1, d[2].1, d[3].1)
}

/// The noise gate's descriptors in their fixed layout.
pub open spec fn noise_gate_shaped(d: Seq<ParameterView>) -> bool {
    d.len() == 4 && d == noise_gate_view(d[0].1, d[1].1, d[2].1, d[3].1)
}

/// The equalizer's descriptors in their fixed layout: ten bands.
pub open spec fn equalizer_shaped(d: Seq<ParameterView>) -> bool {
    d.len() == 10 && forall|i: int| 0 <= i < 10 ==> #[trigger] d[i] == band_descriptor(i as nat, d[i].1)
}

/// One effect of a chain.
#[derive(Debug, Clone, Copy)]
pub enum Effect {
    Equalizer(EqualizerEffect),
    Compressor(CompressorEffect),
    Reverb(ReverbEffect),
    NoiseGate(NoiseGateEffect),
}

impl View for Effect {
    type V = Seq<ParameterView>;

    open spec fn view(&self) -> Seq<ParameterView> {
        match self {
            Effect::Equalizer(e) => e@,
            Effect::Compressor(e) => e@,
            Effect::Reverb(e) => e@,
            Effect::NoiseGate(e) => e@,
        }
    }
}

impl Effect {
    /// The kind of this effect.
    pub open spec fn kind_of(&self) -> EffectType {
        match self {
            Effect::Equalizer(_) => EffectType::Eq,
            Effect::Compressor(_) => EffectType::Compressor,
            Effect::Reverb(_) => EffectType::Reverb,
            Effect::NoiseGate(_) => EffectType::NoiseGate,
        }
    }

    /// The descriptors have their kind's fixed layout.
    pub open spec fn shaped(&self) -> bool {
        match self.kind_of() {
            EffectType::Eq => equalizer_shaped(self@),
            EffectType::Compressor => compressor_shaped(self@),
            EffectType::Reverb => reverb_shaped(self@),
            EffectType::NoiseGate => noise_gate_shaped(self@),
        }
    }

    /// The position among the descriptors of the parameter that `name` sets,
    /// if it sets one.
    pub open spec fn parameter_index(&self, name: Seq<char>) -> Option<int> {
        match self {
            Effect::Equalizer(e) => e.parameter_index(name),
            Effect::Compressor(e) => e.parameter_index(name),
            Effect::Reverb(e) => e.parameter_index(name),
            Effect::NoiseGate(e) => e.parameter_index(name),
        }
    }

    /// Builds an effect of kind `kind` from a parameter store.
    pub fn from_config(kind: EffectType, params: EffectParams) -> (r: Effect)
        ensures
            r.kind_of() == kind,
            r.shaped(),
            kind == EffectType::Eq ==> r@.len() == 10 && forall|i: int|
                0 <= i < 10 ==> #[trigger] r@[i] == band_descriptor(i as nat, ZERO),
            kind == EffectType::Compressor ==> r@ == compressor_view(
                param_or(params@, "threshold"@, MINUS_TWENTY),
                param_or(params@, "ratio"@, FOUR),
                param_or(params@, "attack"@, ONE_HUNDREDTH),
                param_or(params@, "release"@, ONE_TENTH),
                param_or(params@, "makeup"@, ONE),
            ),
            kind == EffectType::Reverb ==> r@ == reverb_view(
                param_or(params@, "room_size"@, HALF),
                param_or(params@, "damping"@, HALF),
                param_or(params@, "wet_level"@, THREE_TENTHS),
                param_or(params@, "dry_level"@, SEVEN_TENTHS),
            ),
            kind == EffectType::NoiseGate ==> r@ == noise_gate_view(
                param_or(params@, "threshold"@, MINUS_FORTY),
                param_or(params@, "ratio"@, TEN),
                param_or(params@, "attack"@, ONE_THOUSANDTH),
                param_or(params@, "release"@, ONE_TENTH),
            ),
    {
        match kind {
            EffectType::Eq => Effect::Equalizer(EqualizerEffect::new(params)),
            EffectType::Compressor => Effect::Compressor(CompressorEffect::new(params)),
            EffectType::Reverb => Effect::Reverb(ReverbEffect::new(params)),
            EffectType::NoiseGate => Effect::NoiseGate(NoiseGateEffect::new(params)),
        }
    }

    pub fn kind(&self) -> (r: EffectType)
        ensures
            r == self.kind_of(),
    {
        match self {
            Effect::Equalizer(_) => EffectType::Eq,
            Effect::Compressor(_) => EffectType::Compressor,
            Effect::Reverb(_) => EffectType::Reverb,
            Effect::NoiseGate(_) => EffectType::NoiseGate,
        }
    }

    pub fn get_name(&self) -> (r: &'static str)
        ensures
            r@ == effect_name(self.kind_of()),
    {
        match self {
            Effect::Equalizer(e) => e.get_name(),
            Effect::Compressor(e) => e.get_name(),
            Effect::Reverb(e) => e.get_name(),
            Effect::NoiseGate(e) => e.get_name(),
        }
    }

    pub fn get_parameters(&self) -> (r: Vec<EffectParameter>)
        ensures
            descriptor_views(r@) == self@,
            self.shaped(),
    {
        match self {
            Effect::Equalizer(e) => e.get_parameters(),
            Effect::Compressor(e) => e.get_parameters(),
            Effect::Reverb(e) => e.get_parameters(),
            Effect::NoiseGate(e) => e.get_parameters(),
        }
    }

    /// Sets the parameter that `name` addresses; a name that addresses none
    /// changes nothing.
    pub fn set_parameter(&mut self, name: &str, value: u32)
        ensures
            final(self).kind_of() == old(self).kind_of(),
            final(self)@ == set_value(old(self)@, old(self).parameter_index(name@), value),
            old(self).shaped(),
            final(self).shaped(),
    {
        match self {
            Effect::Equalizer(e) => e.set_parameter(name, value),
            Effect::Compressor(e) => e.set_parameter(name, value),
            Effect::Reverb(e) => e.set_parameter(name, value),
            Effect::NoiseGate(e) => e.set_parameter(name, value),
        }
    }
}

} // verus!

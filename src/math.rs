//! Waveform selection for the simulated sensor.
//!
//! The sample arithmetic itself is floating point and runs outside the
//! verified library; here the set of waveforms, their names and the parsing
//! of a name are stated and proved.

use vstd::prelude::*;
use vstd::string::StrSliceExecFns;

verus! {

/// Waveform that turns the stream's phase into a sample value.
#[derive(Clone, Copy, Debug, PartialEq, Eq, Structural)]
pub enum MathFunction {
    /// `sin(phase)`
    Sin,
    /// Sine plus uniform noise
    NoiseSin,
    /// Noisy sine with rare large spikes
    RandomSpikesSin,
    /// The phase itself
    Const,
    /// Ramp in `[-1, 1)` with period `2π`
    Saw,
    /// Square wave taking `0` and `1`
    Rect,
    /// Normalized sinc, `sin(πx) / (πx)`
    Sinc,
    /// Uniform value in `[0, 1)`, independent of the phase
    Random,
    /// Sum of the first four odd sine harmonics
    Default,
}

impl Default for MathFunction {
    /// The factory default: the sum of odd harmonics.
    fn default() -> (r: Self)
        ensures
            r == MathFunction::Default,
    {
        MathFunction::Default
    }
}

/// Name under which a waveform is shown to people.
pub open spec fn display_name(f: MathFunction) -> Seq<char> {
    match f {
        MathFunction::Sin => "sin"@,
        MathFunction::NoiseSin => "noise sin"@,
        MathFunction::RandomSpikesSin => "random spikes sin"@,
        MathFunction::Const => "const"@,
        MathFunction::Saw => "saw"@,
        MathFunction::Rect => "rect"@,
        MathFunction::Sinc => "sinc"@,
        MathFunction::Random => "random"@,
        MathFunction::Default => "default"@,
    }
}

/// Name under which a waveform is selected, on the command line and in
/// inbound reconfiguration messages.
pub open spec fn value_name(f: MathFunction) -> Seq<char> {
    match f {
        MathFunction::Sin => "sin"@,
        MathFunction::NoiseSin => "noise-sin"@,
        MathFunction::RandomSpikesSin => "random-spikes-sin"@,
        MathFunction::Const => "const"@,
        MathFunction::Saw => "saw"@,
        MathFunction::Rect => "rect"@,
        MathFunction::Sinc => "sinc"@,
        MathFunction::Random => "random"@,
        MathFunction::Default => "default"@,
    }
}

/// No two waveforms share a value name.
pub proof fn lemma_value_names_distinct()
    ensures
        forall|f: MathFunction, g: MathFunction| value_name(f) == value_name(g) ==> f == g,
{
    reveal_strlit("sin");
    reveal_strlit("noise-sin");
    reveal_strlit("random-spikes-sin");
    reveal_strlit("const");
    reveal_strlit("saw");
    reveal_strlit("rect");
    reveal_strlit("sinc");
    reveal_strlit("random");
    reveal_strlit("default");
    assert forall|f: MathFunction, g: MathFunction| value_name(f) == value_name(g) implies f == g by {
        if f != g {
            let a = value_name(f);
            let b = value_name(g);
            if a.len() == b.len() {
                assert(a[0] != b[0] || a[1] != b[1] || a[2] != b[2] || a[3] != b[3]);
            }
        }
    }
}

/// Whether two strings hold the same characters.
pub fn str_eq(a: &str, b: &str) -> (r: bool)
    ensures
        r == (a@ == b@),
{
    let n = a.unicode_len();
    let m = b.unicode_len();
    if n != m {
        return false;
    }
    let mut i: usize = 0;
    while i < n
        invariant
            n == a@.len(),
            n == b@.len(),
            i <= n,
            forall|j: int| 0 <= j < i ==> a@[j] == b@[j],
        decreases n - i,
    {
        if a.get_char(i) != b.get_char(i) {
            return false;
        }
        i = i + 1;
    }
    assert(a@ =~= b@);
    true
}

impl MathFunction {
    /// Every waveform, in declaration order.
    pub open spec fn all() -> Seq<MathFunction> {
        seq![
            MathFunction::Sin,
            MathFunction::NoiseSin,
            MathFunction::RandomSpikesSin,
            MathFunction::Const,
            MathFunction::Saw,
            MathFunction::Rect,
            MathFunction::Sinc,
            MathFunction::Random,
            MathFunction::Default,
        ]
    }

    /// The name shown to people.
    pub fn name(&self) -> (r: &'static str)
        ensures
            r@ == display_name(*self),
    {
        match self {
            MathFunction::Sin => "sin",
            MathFunction::NoiseSin => "noise sin",
            MathFunction::RandomSpikesSin => "random spikes sin",
            MathFunction::Const => "const",
            MathFunction::Saw => "saw",
            MathFunction::Rect => "rect",
            MathFunction::Sinc => "sinc",
            MathFunction::Random => "random",
            MathFunction::Default => "default",
        }
    }

    /// The name under which the waveform is selected.
    pub fn value_name(&self) -> (r: &'static str)
        ensures
            r@ == value_name(*self),
    {
        match self {
            MathFunction::Sin => "sin",
            MathFunction::NoiseSin => "noise-sin",
            MathFunction::RandomSpikesSin => "random-spikes-sin",
            MathFunction::Const => "const",
            MathFunction::Saw => "saw",
            MathFunction::Rect => "rect",
            MathFunction::Sinc => "sinc",
            MathFunction::Random => "random",
            MathFunction::Default => "default",
        }
    }

    /// The waveform selected by `name`, if any.
    pub fn from_value_name(name: &str) -> (r: Option<MathFunction>)
        ensures
            forall|f: MathFunction| (r == Some(f)) <==> value_name(f) == name@,
    {
        let all = [
            MathFunction::Sin,
            MathFunction::NoiseSin,
            MathFunction::RandomSpikesSin,
            MathFunction::Const,
            MathFunction::Saw,
            MathFunction::Rect,
            MathFunction::Sinc,
            MathFunction::Random,
            MathFunction::Default,
        ];
        let mut i: usize = 0;
        while i < 9
            invariant
                i <= 9,
                all@ == Self::all(),
                forall|j: int| 0 <= j < i ==> value_name(#[trigger] all@[j]) != name@,
            decreases 9 - i,
        {
            let f = all[i];
            let fname = f.value_name();
            if str_eq(name, fname) {
                proof {
                    lemma_value_names_distinct();
                }
                return Some(f);
            }
            i = i + 1;
        }
        proof {
            assert forall|f: MathFunction| value_name(f) != name@ by {
                assert(Self::all().contains(f)) by {
                    match f {
                        MathFunction::Sin => assert(Self::all()[0] == f),
                        MathFunction::NoiseSin => assert(Self::all()[1] == f),
                        MathFunction::RandomSpikesSin => assert(Self::all()[2] == f),
                        MathFunction::Const => assert(Self::all()[3] == f),
                        MathFunction::Saw => assert(Self::all()[4] == f),
                        MathFunction::Rect => assert(Self::all()[5] == f),
                        MathFunction::Sinc => assert(Self::all()[6] == f),
                        MathFunction::Random => assert(Self::all()[7] == f),
                        MathFunction::Default => assert(Self::all()[8] == f),
                    }
                }
            }
        }
        None
    }

    /// Whether the same phase always gives the same sample.
    pub fn is_deterministic(&self) -> (r: bool)
        ensures
            r == !(*self is NoiseSin || *self is RandomSpikesSin || *self is Random),
    {
        !matches!(self, MathFunction::NoiseSin | MathFunction::RandomSpikesSin | MathFunction::Random)
    }
}

} // verus!

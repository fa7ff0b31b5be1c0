//! Sensor-wide enumerations and the temperature display normalization.

use vstd::prelude::*;

use crate::network::NetworkVariant;

verus! {

/// Which chart shape a sensor renders.
#[derive(Debug, Clone, Copy, PartialEq, Eq, Structural)]
pub enum GraphKind {
    Ring,
    Line,
}

/// Temperature unit preference of the host configuration.
#[derive(Debug, Clone, Copy, PartialEq, Eq, Structural)]
pub enum TempUnit {
    Celsius,
    Farenheit,
    Kelvin,
    Rankine,
}

/// CPU vendor flavour used by the host for presentation choices.
#[derive(Debug, Clone, Copy, PartialEq, Eq, Structural)]
pub enum CpuVariant {
    Amd,
    Intel,
}

/// Which sensor a color-picker session edits, together with the chart
/// shape or series selection it was opened on.
#[derive(Debug, Clone, Copy, PartialEq, Eq, Structural)]
pub enum DeviceKind {
    Cpu(GraphKind),
    Network(NetworkVariant),
}

impl From<usize> for TempUnit {
    /// Index decoding of a unit preference; out-of-range indices fall
    /// back to Celsius.
    fn from(index: usize) -> Self {
        match index {
            0 => TempUnit::Celsius,
            1 => TempUnit::Farenheit,
            2 => TempUnit::Kelvin,
            3 => TempUnit::Rankine,
            _ => TempUnit::Celsius,
        }
    }
}

impl vstd::std_specs::convert::FromSpecImpl<usize> for TempUnit {
    open spec fn obeys_from_spec() -> bool {
        true
    }

    open spec fn from_spec(v: usize) -> Self {
        if v == 1 {
            TempUnit::Farenheit
        } else if v == 2 {
            TempUnit::Kelvin
        } else if v == 3 {
            TempUnit::Rankine
        } else {
            TempUnit::Celsius
        }
    }
}

impl From<TempUnit> for usize {
    /// Index encoding of a unit preference, inverse of the decoding for
    /// indices below four.
    fn from(kind: TempUnit) -> Self {
        match kind {
            TempUnit::Celsius => 0,
            TempUnit::Farenheit => 1,
            TempUnit::Kelvin => 2,
            TempUnit::Rankine => 3,
        }
    }
}

impl vstd::std_specs::convert::FromSpecImpl<TempUnit> for usize {
    open spec fn obeys_from_spec() -> bool {
        true
    }

    open spec fn from_spec(v: TempUnit) -> Self {
        match v {
            TempUnit::Celsius => 0,
            TempUnit::Farenheit => 1,
            TempUnit::Kelvin => 2,
            TempUnit::Rankine => 3,
        }
    }
}

/// The largest element of `s`; meaningful only for non-empty sequences.
pub open spec fn spec_seq_max(s: Seq<i64>) -> int
    decreases s.len(),
{
    if s.len() <= 1 {
        s[0] as int
    } else if s.last() as int >= spec_seq_max(s.drop_last()) {
        s.last() as int
    } else {
        spec_seq_max(s.drop_last())
    }
}

/// Every element of a non-empty sequence is bounded by its maximum.
pub proof fn lemma_seq_max_ge(s: Seq<i64>, i: int)
    requires
        0 <= i < s.len(),
    ensures
        s[i] as int <= spec_seq_max(s),
    decreases s.len(),
{
    if s.len() > 1 && i < s.len() - 1 {
        lemma_seq_max_ge(s.drop_last(), i);
    }
}

/// The display ceiling: the largest of the floor, the hottest sample and
/// 100, so that 100 is always representable and the divisor below is
/// never zero on the branch that divides.
pub open spec fn spec_temp_ceiling(s: Seq<i64>, floor: int) -> int {
    let m = if s.len() == 0 {
        100
    } else if spec_seq_max(s) >= 100 {
        spec_seq_max(s)
    } else {
        100
    };
    if floor >= m {
        floor
    } else {
        m
    }
}

/// Where one raw temperature lands in the 0..=100 display range.
pub open spec fn spec_norm_temp(x: int, floor: int, ceiling: int) -> int {
    if ceiling <= floor {
        0
    } else if x <= floor {
        0
    } else {
        (x - floor) * 100 / (ceiling - floor)
    }
}

/// Rescales a raw temperature series into the 0..=100 display range
/// against a dynamic ceiling; samples at or below the floor map to zero
/// and the stored series itself is never modified.
pub fn normalize_temps_dynamic(samples: &Vec<i64>, floor: i64) -> (r: Vec<i64>)
    ensures
        r@.len() == samples@.len(),
        forall|i: int|
            0 <= i < samples@.len() ==> r@[i] == spec_norm_temp(
                samples@[i] as int,
                floor as int,
                spec_temp_ceiling(samples@, floor as int),
            ),
        forall|i: int| 0 <= i < samples@.len() ==> 0 <= #[trigger] r@[i] <= 100,
{
    let n = samples.len();
    if n == 0 {
        return Vec::new();
    }
    let mut max_sample: i64 = samples[0];
    let mut k: usize = 1;
    while k < n
        invariant
            1 <= k <= n,
            n == samples@.len(),
            max_sample == spec_seq_max(samples@.subrange(0, k as int)),
        decreases n - k,
    {
        proof {
            assert(samples@.subrange(0, k + 1).drop_last() =~= samples@.subrange(0, k as int));
        }
        if samples[k] > max_sample {
            max_sample = samples[k];
        }
        k = k + 1;
    }
    proof {
        assert(samples@.subrange(0, n as int) =~= samples@);
    }
    let mut ceiling: i64 = 100;
    if max_sample > ceiling {
        ceiling = max_sample;
    }
    if floor > ceiling {
        ceiling = floor;
    }
    proof {
        assert(ceiling as int == spec_temp_ceiling(samples@, floor as int));
        assert forall|j: int| 0 <= j < n implies samples@[j] <= ceiling as int by {
            lemma_seq_max_ge(samples@, j);
        }
    }
    let ghost ceil_int = ceiling as int;
    let mut out: Vec<i64> = Vec::new();
    let mut i: usize = 0;
    while i < n
        invariant
            0 <= i <= n,
            n == samples@.len(),
            ceiling as int == ceil_int,
            out@.len() == i,
            forall|j: int|
                0 <= j < i ==> out@[j] == spec_norm_temp(samples@[j] as int, floor as int, ceil_int),
            forall|j: int| 0 <= j < i ==> 0 <= #[trigger] out@[j] <= 100,
            forall|j: int| 0 <= j < n ==> samples@[j] <= ceil_int,
        decreases n - i,
    {
        let x = samples[i];
        let v: i64 = if ceiling <= floor {
            0
        } else if x <= floor {
            0
        } else {
            let num: i128 = (x as i128 - floor as i128) * 100;
            let den: i128 = ceiling as i128 - floor as i128;
            let q: i128 = num / den;
            proof {
                assert(0 <= q <= 100) by (nonlinear_arith)
                    requires
                        den >= 1,
                        0 < num,
                        num <= den * 100,
                        q == num / den,
                ;
            }
            q as i64
        };
        out.push(v);
        i = i + 1;
    }
    out
}

} // verus!

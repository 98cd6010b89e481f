//! The closed set of radial kernels and their selection by name.
use vstd::prelude::*;

verus! {

/// A radial kernel: a function of a squared distance `d` and a bandwidth `b`.
#[derive(Clone, Copy, Debug, PartialEq, Eq, Structural)]
pub enum Kernel {
    /// `exp(-0.5 * d / b^2)`
    Gaussian,
    /// `sqrt(d + b^2)`
    Multiquadric,
    /// `1 / sqrt(d + b^2)`
    InverseMultiquadric,
    /// `d`; the bandwidth is ignored.
    Linear,
    /// `d^2`; the bandwidth is ignored.
    Cubic,
}

/// The kernel that a name selects, if any.
pub open spec fn kernel_named(name: Seq<char>) -> Option<Kernel> {
    if name == "gaussian"@ {
        Some(Kernel::Gaussian)
    } else if name == "multiquadric"@ {
        Some(Kernel::Multiquadric)
    } else if name == "inverse_multiquadratic"@ {
        Some(Kernel::InverseMultiquadric)
    } else if name == "linear"@ {
        Some(Kernel::Linear)
    } else if name == "cubic"@ {
        Some(Kernel::Cubic)
    } else {
        None
    }
}

/// Character-by-character equality of two strings.
pub fn text_equals(a: &str, b: &str) -> (r: bool)
    ensures
        r == (a@ == b@),
{
    let n: usize = a.unicode_len();
    if n != b.unicode_len() {
        return false;
    }
    let mut i: usize = 0;
    while i < n
        invariant
            n == a@.len(),
            n == b@.len(),
            i <= n,
            forall|j: int| 0 <= j < i ==> a@[j] == b@[j],
        decreases n - i,
    {
        if a.get_char(i) != b.get_char(i) {
            return false;
        }
        i = i + 1;
    }
    assert(a@ =~= b@);
    true
}

impl Kernel {
    /// The kernel of the given name: one of `gaussian`, `multiquadric`,
    /// `inverse_multiquadratic`, `linear` and `cubic`.
    pub fn from_name(name: &str) -> (r: Option<Kernel>)
        ensures
            r == kernel_named(name@),
    {
        if text_equals(name, "gaussian") {
            Some(Kernel::Gaussian)
        } else if text_equals(name, "multiquadric") {
            Some(Kernel::Multiquadric)
        } else if text_equals(name, "inverse_multiquadratic") {
            Some(Kernel::InverseMultiquadric)
        } else if text_equals(name, "linear") {
            Some(Kernel::Linear)
        } else if text_equals(name, "cubic") {
            Some(Kernel::Cubic)
        } else {
            None
        }
    }

    /// The kernel chosen by an optional name: the Gaussian when no name is
    /// given, otherwise the kernel of that name, if there is one.
    pub fn select(name: Option<&str>) -> (r: Option<Kernel>)
        ensures
            r == (match name {
                None => Some(Kernel::Gaussian),
                Some(s) => kernel_named(s@),
            }),
    {
        match name {
            None => Some(Kernel::Gaussian),
            Some(s) => Kernel::from_name(s),
        }
    }

    /// The name under which this kernel is selected.
    pub fn name(&self) -> (r: &'static str)
        ensures
            kernel_named(r@) == Some(*self),
    {
        proof {
            reveal_strlit("gaussian");
            reveal_strlit("multiquadric");
            reveal_strlit("inverse_multiquadratic");
            reveal_strlit("linear");
            reveal_strlit("cubic");
            // The five names differ in length, which tells them apart.
            assert("gaussian"@.len() == 8);
            assert("multiquadric"@.len() == 12);
            assert("inverse_multiquadratic"@.len() == 22);
            assert("linear"@.len() == 6);
            assert("cubic"@.len() == 5);
        }
        match self {
            Kernel::Gaussian => "gaussian",
            Kernel::Multiquadric => "multiquadric",
            Kernel::InverseMultiquadric => "inverse_multiquadratic",
            Kernel::Linear => "linear",
            Kernel::Cubic => "cubic",
        }
    }
}

impl Default for Kernel {
    /// The Gaussian kernel.
    fn default() -> (r: Kernel)
        ensures
            r == Kernel::Gaussian,
    {
        Kernel::Gaussian
    }
}

} // verus!

use vstd::prelude::*;

verus! {

/// The weighting curves the engine can apply to a frame before the transform.
#[derive(Clone, Copy, Debug, PartialEq, Eq, Structural)]
pub enum WindowKind {
    Rectangular,
    Bartlett,
    Triangular,
    BartlettHann,
    Hann,
    Hamming,
    Blackman,
    Cosine,
    Gauss,
    Lanczos,
}

/// The window selected by a name; any name not listed selects Hann.
pub open spec fn kind_of_name(name: Seq<char>) -> WindowKind {
    if name == "bartlett"@ {
        WindowKind::Bartlett
    } else if name == "bartlettHann"@ {
        WindowKind::BartlettHann
    } else if name == "blackman"@ {
        WindowKind::Blackman
    } else if name == "cosine"@ {
        WindowKind::Cosine
    } else if name == "gauss"@ {
        WindowKind::Gauss
    } else if name == "hamming"@ {
        WindowKind::Hamming
    } else if name == "lanczos"@ {
        WindowKind::Lanczos
    } else if name == "rectangular"@ {
        WindowKind::Rectangular
    } else if name == "triangular"@ {
        WindowKind::Triangular
    } else {
        WindowKind::Hann
    }
}

/// Character-wise equality of two strings.
pub fn same_text(a: &str, b: &str) -> (r: bool)
    ensures
        r == (a@ == b@),
{
    let n = a.unicode_len();
    if n != b.unicode_len() {
        return false;
    }
    let mut i: usize = 0;
    while i < n
        invariant
            n == a@.len(),
            n == b@.len(),
            i <= n,
            forall|k: int| 0 <= k < i ==> a@[k] == b@[k],
        decreases n - i,
    {
        if a.get_char(i) != b.get_char(i) {
            return false;
        }
        i = i + 1;
    }
    assert(a@ =~= b@);
    true
}

impl WindowKind {
    /// Selects the window for `name`, falling back to Hann for unknown names.
    pub fn from_name(name: &str) -> (r: WindowKind)
        ensures
            r == kind_of_name(name@),
    {
        if same_text(name, "bartlett") {
            WindowKind::Bartlett
        } else if same_text(name, "bartlettHann") {
            WindowKind::BartlettHann
        } else if same_text(name, "blackman") {
            WindowKind::Blackman
        } else if same_text(name, "cosine") {
            WindowKind::Cosine
        } else if same_text(name, "gauss") {
            WindowKind::Gauss
        } else if same_text(name, "hamming") {
            WindowKind::Hamming
        } else if same_text(name, "lanczos") {
            WindowKind::Lanczos
        } else if same_text(name, "rectangular") {
            WindowKind::Rectangular
        } else if same_text(name, "triangular") {
            WindowKind::Triangular
        } else {
            WindowKind::Hann
        }
    }
}

} // verus!

//! The symmetry group of a regular polygon, as exact angles.
//!
//! An angle is a rational multiple of π, so the enumeration is exact; turning
//! an angle into a matrix is floating-point work done by the caller.

use vstd::prelude::*;

verus! {

/// The angle `num`·π/`den` radians.
#[derive(Clone, Copy, Debug, PartialEq, Eq, Structural)]
pub struct PiFraction {
    pub num: u64,
    pub den: u64,
}

/// One element of the dihedral group of a regular polygon about its center.
#[derive(Clone, Copy, Debug, PartialEq, Eq, Structural)]
pub enum DihedralElement {
    /// Rotation about the center by `angle`.
    Rotation { angle: PiFraction },
    /// Reflection across the line through the center at `axis` from the x axis.
    Reflection { axis: PiFraction },
}

/// The `i`-th rotation of a regular `n`-gon: by 2π·i/n.
pub open spec fn rotation_of(n: nat, i: nat) -> DihedralElement {
    DihedralElement::Rotation { angle: PiFraction { num: (2 * i) as u64, den: n as u64 } }
}

/// The `i`-th reflection of a regular `n`-gon. For even `n` the axes are at
/// π·i/n, through vertices and edge midpoints in turn; for odd `n` they are at
/// 2π·i/n, through the vertices.
pub open spec fn reflection_of(n: nat, i: nat) -> DihedralElement {
    if n % 2 == 0 {
        DihedralElement::Reflection { axis: PiFraction { num: i as u64, den: n as u64 } }
    } else {
        DihedralElement::Reflection { axis: PiFraction { num: (2 * i) as u64, den: n as u64 } }
    }
}

/// The number of rotations in `s`.
pub open spec fn rotation_count(s: Seq<DihedralElement>) -> nat
    decreases s.len(),
{
    if s.len() == 0 {
        0
    } else {
        rotation_count(s.drop_last()) + if s.last() is Rotation { 1nat } else { 0nat }
    }
}

/// The number of reflections in `s`.
pub open spec fn reflection_count(s: Seq<DihedralElement>) -> nat
    decreases s.len(),
{
    if s.len() == 0 {
        0
    } else {
        reflection_count(s.drop_last()) + if s.last() is Reflection { 1nat } else { 0nat }
    }
}

/// The symmetries of a regular `n`-gon: the `n` rotations by 2π·i/n, then
/// the `n` reflections (see `reflection_of`).
pub fn dihedral_elements(n: usize) -> (r: Vec<DihedralElement>)
    requires
        n <= u64::MAX / 2,
    ensures
        r@.len() == 2 * n,
        forall|i: int| 0 <= i < n ==> #[trigger] r@[i] == rotation_of(n as nat, i as nat),
        forall|i: int| 0 <= i < n ==> #[trigger] r@[n + i] == reflection_of(n as nat, i as nat),
        rotation_count(r@) == n,
        reflection_count(r@) == n,
{
    let mut r: Vec<DihedralElement> = Vec::new();
    let nn = n as u64;
    let mut i: usize = 0;
    while i < n
        invariant
            n <= u64::MAX / 2,
            nn == n,
            i <= n,
            r@.len() == i,
            forall|j: int| 0 <= j < i ==> #[trigger] r@[j] == rotation_of(n as nat, j as nat),
        decreases n - i,
    {
        r.push(DihedralElement::Rotation { angle: PiFraction { num: 2 * (i as u64), den: nn } });
        i = i + 1;
    }
    let even = n % 2 == 0;
    let mut i: usize = 0;
    while i < n
        invariant
            n <= u64::MAX / 2,
            nn == n,
            even == (n % 2 == 0),
            i <= n,
            r@.len() == n + i,
            forall|j: int| 0 <= j < n ==> #[trigger] r@[j] == rotation_of(n as nat, j as nat),
            forall|j: int| 0 <= j < i ==> #[trigger] r@[n + j] == reflection_of(n as nat, j as nat),
        decreases n - i,
    {
        let num = if even { i as u64 } else { 2 * (i as u64) };
        r.push(DihedralElement::Reflection { axis: PiFraction { num, den: nn } });
        i = i + 1;
    }
    proof { lemma_dihedral_elements_counts(n as nat, r@); }
    r
}

/// A regular `n`-gon has `n` rotations and `n` reflections: in the
/// enumeration of `dihedral_elements`, the first `n` elements are the
/// rotations and the next `n` the reflections.
pub proof fn lemma_dihedral_counts(n: nat, s: Seq<DihedralElement>)
    requires
        s.len() == 2 * n,
        forall|i: int| 0 <= i < n ==> #[trigger] s[i] is Rotation,
        forall|i: int| n <= i < 2 * n ==> #[trigger] s[i] is Reflection,
    ensures
        rotation_count(s) == n,
        reflection_count(s) == n,
{
    lemma_prefix_counts(n, s, 2 * n);
    assert(s.subrange(0, 2 * n as int) =~= s);
}

/// The counts over the first `k` elements of such a sequence.
proof fn lemma_prefix_counts(n: nat, s: Seq<DihedralElement>, k: nat)
    requires
        s.len() == 2 * n,
        k <= 2 * n,
        forall|i: int| 0 <= i < n ==> #[trigger] s[i] is Rotation,
        forall|i: int| n <= i < 2 * n ==> #[trigger] s[i] is Reflection,
    ensures
        rotation_count(s.subrange(0, k as int)) == if k <= n { k } else { n },
        reflection_count(s.subrange(0, k as int)) == if k <= n { 0 } else { (k - n) as nat },
    decreases k,
{
    if k > 0 {
        lemma_prefix_counts(n, s, (k - 1) as nat);
        assert(s.subrange(0, k as int).drop_last() =~= s.subrange(0, k - 1));
    }
}

/// Every enumeration by `dihedral_elements` holds `n` rotations and `n`
/// reflections.
pub proof fn lemma_dihedral_elements_counts(n: nat, s: Seq<DihedralElement>)
    requires
        s.len() == 2 * n,
        forall|i: int| 0 <= i < n ==> #[trigger] s[i] == rotation_of(n, i as nat),
        forall|i: int| 0 <= i < n ==> #[trigger] s[n + i] == reflection_of(n, i as nat),
    ensures
        rotation_count(s) == n,
        reflection_count(s) == n,
{
    assert forall|i: int| 0 <= i < n implies #[trigger] s[i] is Rotation by {
        assert(s[i] == rotation_of(n, i as nat));
    }
    assert forall|i: int| n <= i < 2 * n implies #[trigger] s[i] is Reflection by {
        assert(s[n + (i - n)] == reflection_of(n, (i - n) as nat));
    }
    lemma_dihedral_counts(n, s);
}

} // verus!

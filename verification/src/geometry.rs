//! Gate architectures and the number of gates each one puts around the
//! channel (the `geo` factor of the natural-length electrostatics).

use vstd::prelude::*;

verus! {

/// Gate architecture of a thin-body MOSFET.
#[derive(Clone, Copy, Debug, PartialEq, Eq, Structural)]
pub enum GateGeometry {
    /// A single gate on one face of the body.
    Planar,
    /// A FinFET: gates on both faces of the fin.
    FinFet,
    /// A tri-gate: both faces plus the top of the fin.
    TriGate,
    /// A gate-all-around nanoribbon: gates on all four faces.
    Nanoribbon,
}

/// Number of gates of each architecture.
pub open spec fn spec_gate_count(g: GateGeometry) -> nat {
    match g {
        GateGeometry::Planar => 1,
        GateGeometry::FinFet => 2,
        GateGeometry::TriGate => 3,
        GateGeometry::Nanoribbon => 4,
    }
}

impl GateGeometry {
    /// Number of gates around the channel; this is the geometry factor
    /// `geo` in `lambda = sqrt(k_si / k_ox * d_ch * d_ox / geo)`.
    pub fn gate_count(self) -> (count: u32)
        ensures
            count == spec_gate_count(self),
            1 <= count <= 4,
            self == GateGeometry::Planar ==> count == 1,
            self == GateGeometry::FinFet ==> count == 2,
            self == GateGeometry::TriGate ==> count == 3,
            self == GateGeometry::Nanoribbon ==> count == 4,
    {
        match self {
            GateGeometry::Planar => 1,
            GateGeometry::FinFet => 2,
            GateGeometry::TriGate => 3,
            GateGeometry::Nanoribbon => 4,
        }
    }
}

/// Distinct architectures have distinct gate counts, so the geometry factor
/// identifies the architecture.
pub proof fn lemma_gate_count_injective(g1: GateGeometry, g2: GateGeometry)
    ensures
        spec_gate_count(g1) == spec_gate_count(g2) <==> g1 == g2,
{
}

/// Planar, FinFET, tri-gate, nanoribbon: each architecture wraps more gates
/// around the channel than the one before.
pub proof fn lemma_gate_counts_increase()
    ensures
        spec_gate_count(GateGeometry::Planar) < spec_gate_count(GateGeometry::FinFet),
        spec_gate_count(GateGeometry::FinFet) < spec_gate_count(GateGeometry::TriGate),
        spec_gate_count(GateGeometry::TriGate) < spec_gate_count(GateGeometry::Nanoribbon),
{
}

} // verus!

//! Taxonomy of the network components that a fault can target.

use vstd::prelude::*;

verus! {

/// Coarse class of a faultable component: a synaptic connection, a memory
/// area of a neuron, or one of the processing blocks inside a neuron.
#[derive(Debug, Clone, Copy, PartialEq, Eq, Structural)]
pub enum ComponentCategory {
    Connection,
    MemoryArea,
    InternalProcessingBlock,
}

/// Every component kind that a fault can be injected into.
///
/// `Extra` and `Intra` address one weight of the corresponding matrix of a
/// layer; the memory-area kinds address one stored parameter of a neuron;
/// the processing-block kinds address the arithmetic of one neuron.
#[derive(Debug, Clone, Copy, PartialEq, Eq, Structural)]
pub enum ComponentType {
    Extra,
    Intra,
    ResetPotential,
    RestingPotential,
    Threshold,
    MembranePotential,
    Tau,
    Ts,
    DT,
    Adder,
    Multiplier,
    ThresholdComparator,
}

impl ComponentType {
    /// Category that this component kind belongs to.
    pub open spec fn spec_category(self) -> ComponentCategory {
        match self {
            ComponentType::Extra | ComponentType::Intra => ComponentCategory::Connection,
            ComponentType::Adder
            | ComponentType::Multiplier
            | ComponentType::ThresholdComparator => ComponentCategory::InternalProcessingBlock,
            _ => ComponentCategory::MemoryArea,
        }
    }

    pub fn get_category(&self) -> (c: ComponentCategory)
        ensures
            c == self.spec_category(),
    {
        match self {
            ComponentType::Extra | ComponentType::Intra => ComponentCategory::Connection,
            ComponentType::Adder
            | ComponentType::Multiplier
            | ComponentType::ThresholdComparator => ComponentCategory::InternalProcessingBlock,
            _ => ComponentCategory::MemoryArea,
        }
    }

    /// A static component keeps its value for the whole inference unless a
    /// fault is written into it, so a stuck-at fault can be applied to the
    /// stored word once, up front.
    pub open spec fn spec_is_static(self) -> bool {
        match self {
            ComponentType::Extra
            | ComponentType::Intra
            | ComponentType::ResetPotential
            | ComponentType::RestingPotential
            | ComponentType::Threshold
            | ComponentType::Tau
            | ComponentType::DT => true,
            _ => false,
        }
    }

    pub fn is_static_component(&self) -> (r: bool)
        ensures
            r == self.spec_is_static(),
    {
        match self {
            ComponentType::Extra
            | ComponentType::Intra
            | ComponentType::ResetPotential
            | ComponentType::RestingPotential
            | ComponentType::Threshold
            | ComponentType::Tau
            | ComponentType::DT => true,
            _ => false,
        }
    }
}

} // verus!

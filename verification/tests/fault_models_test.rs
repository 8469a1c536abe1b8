use snn_resilience::components::{ComponentCategory, ComponentType};
use snn_resilience::fault_models::{FaultType, InjectedFault};

#[test]
fn stuck_at_0_clears_the_bit() {
    assert_eq!(InjectedFault::stuck_at_0(0xFF, 0), 0xFE);
    assert_eq!(InjectedFault::stuck_at_0(0xFF, 3), 0xF7);
    assert_eq!(InjectedFault::stuck_at_0(0, 5), 0);
    assert_eq!(
        InjectedFault::stuck_at_0(u64::MAX, 63),
        0x7FFF_FFFF_FFFF_FFFF
    );
}

#[test]
fn stuck_at_1_sets_the_bit() {
    assert_eq!(InjectedFault::stuck_at_1(0, 0), 1);
    assert_eq!(InjectedFault::stuck_at_1(0, 63), 0x8000_0000_0000_0000);
    assert_eq!(InjectedFault::stuck_at_1(0xFF, 3), 0xFF);
}

#[test]
fn bit_flip_inverts_the_bit() {
    assert_eq!(InjectedFault::bit_flip(0, 4), 16);
    assert_eq!(InjectedFault::bit_flip(16, 4), 0);
}

#[test]
fn stuck_at_round_trip_clears_the_bit() {
    // Forcing a bit to 1 and then to 0 leaves the word with the bit
    // cleared, for any double-precision pattern.
    for &x in &[0.0f64, 1.5, -3.25, 1e300, f64::NAN] {
        for bit in [0usize, 17, 51, 52, 62, 63] {
            let w = x.to_bits();
            let up = InjectedFault::stuck_at_1(w, bit);
            let down = InjectedFault::stuck_at_0(up, bit);
            assert_eq!(down, InjectedFault::stuck_at_0(w, bit));
        }
    }
}

#[test]
fn double_bit_flip_restores_the_word() {
    for &x in &[0.0f64, 1.5, -3.25, 1e-300] {
        for bit in [0usize, 31, 52, 63] {
            let w = x.to_bits();
            assert_eq!(
                InjectedFault::bit_flip(InjectedFault::bit_flip(w, bit), bit),
                w
            );
        }
    }
}

#[test]
fn sign_bit_fault_negates_the_value() {
    // Bit 63 of the IEEE-754 representation is the sign bit.
    let w = 1.0f64.to_bits();
    let negated = InjectedFault::stuck_at_1(w, 63);
    assert_eq!(f64::from_bits(negated), -1.0);
}

#[test]
fn exponent_bit_fault_blows_up_the_value() {
    // Setting bit 62 of 1.0 makes the exponent all ones: infinity.
    let w = 1.0f64.to_bits();
    let blown = InjectedFault::stuck_at_1(w, 62);
    assert_eq!(f64::from_bits(blown), f64::INFINITY);
}

fn stuck_at_1_threshold_fault() -> InjectedFault {
    InjectedFault::new(
        FaultType::StuckAt1,
        None,
        0,
        ComponentType::Threshold,
        ComponentCategory::MemoryArea,
        0,
        Some(63),
    )
}

#[test]
fn apply_fault_to_word_stuck_at() {
    let fault = stuck_at_1_threshold_fault();
    // A stuck-at fault strikes at every time step.
    assert_eq!(fault.apply_fault_to_word(0, 0), 0x8000_0000_0000_0000);
    assert_eq!(fault.apply_fault_to_word(0, 17), 0x8000_0000_0000_0000);
}

#[test]
fn apply_fault_to_word_transient_is_gated() {
    let fault = InjectedFault::new(
        FaultType::TransientBitFlip,
        Some(3),
        0,
        ComponentType::Tau,
        ComponentCategory::MemoryArea,
        0,
        Some(0),
    );
    // A transient flip strikes only at its own time step.
    assert_eq!(fault.apply_fault_to_word(8, 2), 8);
    assert_eq!(fault.apply_fault_to_word(8, 3), 9);
    assert_eq!(fault.apply_fault_to_word(8, 4), 8);
}

#[test]
fn apply_fault_to_spike_decides_the_bit() {
    let stuck0 = InjectedFault::new(
        FaultType::StuckAt0,
        None,
        0,
        ComponentType::ThresholdComparator,
        ComponentCategory::InternalProcessingBlock,
        0,
        None,
    );
    let stuck1 = InjectedFault::new(
        FaultType::StuckAt1,
        None,
        0,
        ComponentType::ThresholdComparator,
        ComponentCategory::InternalProcessingBlock,
        0,
        None,
    );
    let flip = InjectedFault::new(
        FaultType::TransientBitFlip,
        Some(1),
        0,
        ComponentType::ThresholdComparator,
        ComponentCategory::InternalProcessingBlock,
        0,
        None,
    );
    // Stuck-at-0 suppresses the spike and stuck-at-1 forces it, whatever
    // the comparison said and at every time step.
    for t in 0..4 {
        assert_eq!(stuck0.apply_fault_to_spike(0, t), 0);
        assert_eq!(stuck0.apply_fault_to_spike(1, t), 0);
        assert_eq!(stuck1.apply_fault_to_spike(0, t), 1);
        assert_eq!(stuck1.apply_fault_to_spike(1, t), 1);
    }
    assert_eq!(flip.apply_fault_to_spike(0, 1), 1);
    assert_eq!(flip.apply_fault_to_spike(1, 1), 0);
    assert_eq!(flip.apply_fault_to_spike(1, 2), 1);
}

#[test]
fn fault_type_all_lists_the_three_models() {
    let all = FaultType::all();
    assert_eq!(all.len(), 3);
    assert_eq!(all[0], FaultType::StuckAt0);
    assert_eq!(all[1], FaultType::StuckAt1);
    assert_eq!(all[2], FaultType::TransientBitFlip);
}

#[test]
fn component_categories_follow_the_taxonomy() {
    assert_eq!(
        ComponentType::Extra.get_category(),
        ComponentCategory::Connection
    );
    assert_eq!(
        ComponentType::Intra.get_category(),
        ComponentCategory::Connection
    );
    assert_eq!(
        ComponentType::Threshold.get_category(),
        ComponentCategory::MemoryArea
    );
    assert_eq!(
        ComponentType::Ts.get_category(),
        ComponentCategory::MemoryArea
    );
    assert_eq!(
        ComponentType::Adder.get_category(),
        ComponentCategory::InternalProcessingBlock
    );
    assert_eq!(
        ComponentType::ThresholdComparator.get_category(),
        ComponentCategory::InternalProcessingBlock
    );
}

#[test]
fn static_components_are_the_time_invariant_ones() {
    assert!(ComponentType::Extra.is_static_component());
    assert!(ComponentType::Intra.is_static_component());
    assert!(ComponentType::ResetPotential.is_static_component());
    assert!(ComponentType::RestingPotential.is_static_component());
    assert!(ComponentType::Threshold.is_static_component());
    assert!(ComponentType::Tau.is_static_component());
    assert!(ComponentType::DT.is_static_component());
    assert!(!ComponentType::MembranePotential.is_static_component());
    assert!(!ComponentType::Ts.is_static_component());
    assert!(!ComponentType::Adder.is_static_component());
    assert!(!ComponentType::Multiplier.is_static_component());
    assert!(!ComponentType::ThresholdComparator.is_static_component());
}

use snn_resilience::accuracy::{compute_accuracy, compute_max_output_spike};
use snn_resilience::builder::SNNBuilder;
use snn_resilience::components::{ComponentCategory, ComponentType};
use snn_resilience::fault_models::{FaultType, InjectedFault};
use snn_resilience::lif::Lif;
use snn_resilience::simulation::{FaultPreparation, UserSelection};
use snn_resilience::snn::SNN;

fn lif(reset: f64, rest: f64, threshold: f64, tau: f64) -> Lif {
    Lif::new(
        reset.to_bits(),
        rest.to_bits(),
        threshold.to_bits(),
        tau.to_bits(),
        1.0f64.to_bits(),
    )
}

fn bits_row(row: &[f64]) -> Vec<u64> {
    row.iter().map(|w| w.to_bits()).collect()
}

fn two_layer_snn() -> SNN {
    SNNBuilder::new(2)
        .add_layer(
            vec![lif(0.1, 0.05, 0.3, 1.0), lif(0.1, 0.05, 0.3, 1.0)],
            vec![bits_row(&[0.1, 0.2]), bits_row(&[0.3, 0.4])],
            vec![bits_row(&[0.0, -0.1]), bits_row(&[-0.05, 0.0])],
        )
        .unwrap()
        .add_layer(
            vec![lif(0.1, 0.05, 0.3, 1.0)],
            vec![bits_row(&[0.2, 0.3])],
            vec![bits_row(&[0.0])],
        )
        .unwrap()
        .build()
        .unwrap()
}

#[test]
fn user_selection_keeps_its_fields() {
    let input = vec![vec![vec![1u8, 0], vec![0, 1]]];
    let selection = UserSelection::new(
        vec![ComponentType::Threshold, ComponentType::Extra],
        FaultType::StuckAt1,
        5,
        input.clone(),
    );
    assert_eq!(selection.components.len(), 2);
    assert_eq!(selection.fault_type, FaultType::StuckAt1);
    assert_eq!(selection.num_faults, 5);
    assert_eq!(selection.input_sequence, input);
}

#[test]
fn generated_faults_stay_in_bounds() {
    let snn = two_layer_snn();
    let components = vec![
        ComponentType::Extra,
        ComponentType::Intra,
        ComponentType::Threshold,
        ComponentType::ThresholdComparator,
    ];
    for _ in 0..100 {
        let fault = snn.generate_random_fault(&components, FaultType::StuckAt0, 4);
        assert_eq!(fault.fault_type, FaultType::StuckAt0);
        assert!(fault.time_step.is_none());
        assert!(fault.layer_index < 2);
        assert!(components.contains(&fault.component_type));
        let layer = snn.get_layer(fault.layer_index);
        let count = layer.get_num_components_from_type(&fault.component_type);
        assert!(fault.component_index < count);
        if fault.component_type == ComponentType::ThresholdComparator {
            assert!(fault.bit_index.is_none());
        } else {
            assert!(fault.bit_index.unwrap() < 64);
        }
    }
}

#[test]
fn generated_transient_faults_carry_a_time_step() {
    let snn = two_layer_snn();
    let components = vec![ComponentType::MembranePotential];
    for _ in 0..50 {
        let fault = snn.generate_random_fault(&components, FaultType::TransientBitFlip, 7);
        assert_eq!(fault.fault_type, FaultType::TransientBitFlip);
        assert!(fault.time_step.unwrap() < 7);
        assert_eq!(fault.component_type, ComponentType::MembranePotential);
        assert_eq!(fault.component_category, ComponentCategory::MemoryArea);
    }
}

#[test]
fn static_fault_on_an_already_forced_bit_leaves_the_network_untouched() {
    let mut snn = two_layer_snn();
    // Weight 0.1 has a clear sign bit: stuck-at-0 on bit 63 changes
    // nothing, so the campaign may reuse the baseline accuracy.
    let fault = InjectedFault::new(
        FaultType::StuckAt0,
        None,
        0,
        ComponentType::Extra,
        ComponentCategory::Connection,
        0,
        Some(63),
    );
    let before = snn.clone();
    let unchanged = snn.apply_fault_before_processing(&fault);
    assert!(unchanged);
    assert_eq!(
        snn.get_layer(0).get_extra_weights(),
        before.get_layer(0).get_extra_weights()
    );
    assert_eq!(
        snn.get_layer(0).get_intra_weights(),
        before.get_layer(0).get_intra_weights()
    );
    assert_eq!(snn.get_layer(0).get_neurons(), before.get_layer(0).get_neurons());
    assert_eq!(snn.get_layer(1).get_neurons(), before.get_layer(1).get_neurons());
}

#[test]
fn static_fault_on_a_clear_bit_is_written_once() {
    let mut snn = two_layer_snn();
    // Extra weight (1, 0) of layer 0 is 0.3; stuck-at-1 on the sign bit
    // turns the stored word into -0.3.
    let fault = InjectedFault::new(
        FaultType::StuckAt1,
        None,
        0,
        ComponentType::Extra,
        ComponentCategory::Connection,
        2,
        Some(63),
    );
    let unchanged = snn.apply_fault_before_processing(&fault);
    assert!(!unchanged);
    let weights = snn.get_layer(0).get_extra_weights();
    assert_eq!(f64::from_bits(weights[1][0]), -0.3);
    // Every other weight keeps its value.
    assert_eq!(weights[0][0], 0.1f64.to_bits());
    assert_eq!(weights[0][1], 0.2f64.to_bits());
    assert_eq!(weights[1][1], 0.4f64.to_bits());
}

#[test]
fn static_fault_on_a_neuron_parameter_is_written_into_that_neuron() {
    let mut snn = two_layer_snn();
    let fault = InjectedFault::new(
        FaultType::StuckAt1,
        None,
        1,
        ComponentType::Threshold,
        ComponentCategory::MemoryArea,
        0,
        Some(63),
    );
    let unchanged = snn.apply_fault_before_processing(&fault);
    assert!(!unchanged);
    let neuron = &snn.get_layer(1).get_neurons()[0];
    assert_eq!(f64::from_bits(neuron.get_v_th()), -0.3);
    // The untargeted parameters keep their values.
    assert_eq!(neuron.get_v_reset(), 0.1f64.to_bits());
    assert_eq!(neuron.get_v_rest(), 0.05f64.to_bits());
}

#[test]
fn prepare_fault_chooses_the_injection_path() {
    let noop_fault = InjectedFault::new(
        FaultType::StuckAt0,
        None,
        0,
        ComponentType::Extra,
        ComponentCategory::Connection,
        0,
        Some(63),
    );
    let mut snn = two_layer_snn();
    assert_eq!(snn.prepare_fault(&noop_fault), FaultPreparation::UseBaseline);

    let effective_fault = InjectedFault::new(
        FaultType::StuckAt1,
        None,
        0,
        ComponentType::Extra,
        ComponentCategory::Connection,
        0,
        Some(63),
    );
    let mut snn2 = two_layer_snn();
    assert_eq!(
        snn2.prepare_fault(&effective_fault),
        FaultPreparation::AlreadyInjected
    );
    assert_eq!(
        f64::from_bits(snn2.get_layer(0).get_extra_weights()[0][0]),
        -0.1
    );

    let transient = InjectedFault::new(
        FaultType::TransientBitFlip,
        Some(0),
        0,
        ComponentType::Threshold,
        ComponentCategory::MemoryArea,
        0,
        Some(10),
    );
    let mut snn3 = two_layer_snn();
    assert_eq!(
        snn3.prepare_fault(&transient),
        FaultPreparation::InjectAtRuntime
    );

    let comparator = InjectedFault::new(
        FaultType::StuckAt1,
        None,
        0,
        ComponentType::ThresholdComparator,
        ComponentCategory::InternalProcessingBlock,
        0,
        None,
    );
    let mut snn4 = two_layer_snn();
    assert_eq!(
        snn4.prepare_fault(&comparator),
        FaultPreparation::InjectAtRuntime
    );
}

#[test]
fn argmax_takes_the_highest_spike_count() {
    let out = vec![vec![0, 1, 0, 1], vec![1, 1, 1, 0], vec![0, 0, 0, 0]];
    assert_eq!(compute_max_output_spike(out), 1);
}

#[test]
fn argmax_breaks_ties_towards_the_lowest_index() {
    let out = vec![vec![0, 1, 1, 0], vec![1, 1, 0, 0], vec![1, 1, 1, 0]];
    // Rows 0 and 2 are tied ahead of nothing: row 0 leads with 2 until
    // row 2 reaches 3.
    assert_eq!(compute_max_output_spike(out), 2);
    let tied = vec![vec![0, 1], vec![1, 0], vec![1, 0]];
    assert_eq!(compute_max_output_spike(tied), 0);
    let silent = vec![vec![0, 0], vec![0, 0]];
    assert_eq!(compute_max_output_spike(silent), 0);
}

#[test]
fn accuracy_is_truncated_whole_percent() {
    assert_eq!(compute_accuracy(vec![1, 2, 3], &vec![1, 2, 3]), 100);
    assert_eq!(compute_accuracy(vec![1, 2, 0], &vec![1, 2, 3]), 66);
    assert_eq!(compute_accuracy(vec![0, 0, 0], &vec![1, 2, 3]), 0);
    assert_eq!(compute_accuracy(vec![1, 0, 0, 0, 0, 0], &vec![1, 1, 1, 1, 1, 1]), 16);
}

use snn_resilience::builder::{BuilderError, SNNBuilder};
use snn_resilience::lif::Lif;

/// A neuron with the given double-precision parameters and a time step of
/// one, stored as bit patterns.
fn lif(reset: f64, rest: f64, threshold: f64, tau: f64) -> Lif {
    Lif::new(
        reset.to_bits(),
        rest.to_bits(),
        threshold.to_bits(),
        tau.to_bits(),
        1.0f64.to_bits(),
    )
}

fn bits_row(row: &[f64]) -> Vec<u64> {
    row.iter().map(|w| w.to_bits()).collect()
}

#[test]
fn test_add_layers() {
    let snn = SNNBuilder::new(0)
        .add_layer(Vec::new(), Vec::new(), Vec::new())
        .unwrap()
        .add_layer(Vec::new(), Vec::new(), Vec::new())
        .unwrap()
        .add_layer(Vec::new(), Vec::new(), Vec::new())
        .unwrap()
        .build()
        .unwrap();
    assert_eq!(snn.get_num_layers(), 3);
}

#[test]
fn test_parameters_layers_with_neurons() {
    let snn_params = SNNBuilder::new(3)
        .add_layer(
            vec![lif(0.1, 0.05, 0.3, 1.0), lif(0.1, 0.05, 0.3, 1.0)],
            vec![bits_row(&[0.1, 0.2, 0.3]), bits_row(&[0.4, 0.5, 0.6])],
            vec![bits_row(&[0.0, -0.2]), bits_row(&[-0.8, 0.0])],
        )
        .unwrap()
        .add_layer(
            vec![lif(0.1, 0.05, 0.3, 1.0)],
            vec![bits_row(&[0.1, 0.2])],
            vec![bits_row(&[-0.1])],
        )
        .unwrap()
        .get_parameters();

    assert_eq!(snn_params.get_extra_weights().get(0).is_some(), true);
    assert_eq!(snn_params.get_extra_weights().get(1).is_some(), true);
    assert_eq!(snn_params.get_extra_weights().get(2).is_none(), true);
    assert_eq!(snn_params.get_intra_weights().get(0).is_some(), true);
    assert_eq!(snn_params.get_intra_weights().get(0).is_some(), true);
    assert_eq!(snn_params.get_intra_weights().get(2).is_none(), true);
    assert_eq!(snn_params.get_neurons().get(1).is_some(), true);
    assert_eq!(snn_params.get_neurons().get(2).is_some(), false);

    assert_eq!(
        snn_params.get_extra_weights().get(0).unwrap(),
        &vec![bits_row(&[0.1, 0.2, 0.3]), bits_row(&[0.4, 0.5, 0.6])]
    );
    assert_eq!(
        snn_params.get_intra_weights().get(1).unwrap(),
        &vec![bits_row(&[-0.1])]
    );
    assert_eq!(snn_params.get_neurons().get(0).unwrap().len(), 2);
    assert_eq!(snn_params.get_neurons().get(1).unwrap().len(), 1);
}

#[test]
fn test_snn_layers() {
    let snn = SNNBuilder::new(3)
        .add_layer(
            vec![lif(0.1, 0.05, 0.3, 1.0), lif(0.1, 0.05, 0.3, 1.0)],
            vec![bits_row(&[0.1, 0.2, 0.3]), bits_row(&[0.4, 0.5, 0.6])],
            vec![bits_row(&[0.0, -0.2]), bits_row(&[-0.9, 0.0])],
        )
        .unwrap()
        .add_layer(
            vec![lif(0.1, 0.05, 0.3, 1.0)],
            vec![bits_row(&[0.2, 0.3])],
            vec![bits_row(&[0.0])],
        )
        .unwrap()
        .build()
        .unwrap();
    assert_eq!(snn.get_num_layers(), 2);
    assert_eq!(snn.get_layers().get(0).is_some(), true);
    assert_eq!(snn.get_layers().get(1).is_some(), true);
    assert_eq!(snn.get_layers().get(2).is_some(), false);
    assert_eq!(snn.get_layers().get(0).unwrap().get_neurons().len(), 2);
    assert_eq!(snn.get_layers().get(1).unwrap().get_neurons().len(), 1);
    assert_eq!(snn.get_layers().get(0).unwrap().get_extra_weights().len(), 2);
}

#[test]
fn builder_rejects_positive_intra_weight() {
    let r = SNNBuilder::new(3).add_layer(
        vec![lif(0.1, 0.05, 0.3, 1.0), lif(0.1, 0.05, 0.3, 1.0)],
        vec![bits_row(&[0.1, 0.2, 0.3]), bits_row(&[0.4, 0.5, 0.6])],
        vec![bits_row(&[0.0, 0.2]), bits_row(&[-0.9, 0.0])],
    );
    assert_eq!(r.unwrap_err(), BuilderError::InconsistentLayer);
}

#[test]
fn builder_ignores_positive_diagonal_intra_weight() {
    // Diagonal lateral entries are ignored by the processing, so a
    // positive value there does not make the layer inconsistent.
    let r = SNNBuilder::new(2).add_layer(
        vec![lif(0.1, 0.05, 0.3, 1.0), lif(0.1, 0.05, 0.3, 1.0)],
        vec![bits_row(&[0.1, 0.2]), bits_row(&[0.4, 0.5])],
        vec![bits_row(&[0.7, -0.2]), bits_row(&[-0.9, 0.3])],
    );
    assert!(r.is_ok());
}

#[test]
fn builder_rejects_wrong_extra_width() {
    let r = SNNBuilder::new(3).add_layer(
        vec![lif(0.1, 0.05, 0.3, 1.0), lif(0.1, 0.05, 0.3, 1.0)],
        vec![
            bits_row(&[0.1, 0.2, 0.3, 0.2]),
            bits_row(&[0.4, 0.5, 0.6, 0.8]),
        ],
        vec![bits_row(&[0.0, -0.2]), bits_row(&[-0.9, 0.0])],
    );
    assert_eq!(r.unwrap_err(), BuilderError::InconsistentLayer);
}

#[test]
fn builder_rejects_wrong_extra_width_second_layer() {
    let r = SNNBuilder::new(3)
        .add_layer(
            vec![lif(0.1, 0.05, 0.3, 1.0), lif(0.1, 0.05, 0.3, 1.0)],
            vec![bits_row(&[0.1, 0.2, 0.3]), bits_row(&[0.4, 0.5, 0.6])],
            vec![bits_row(&[0.0, -0.2]), bits_row(&[-0.9, 0.0])],
        )
        .unwrap()
        .add_layer(
            vec![lif(0.1, 0.05, 0.3, 1.0)],
            vec![bits_row(&[0.2, 0.3, 0.4])],
            vec![bits_row(&[0.0])],
        );
    assert_eq!(r.unwrap_err(), BuilderError::InconsistentLayer);
}

#[test]
fn builder_rejects_wrong_intra_width() {
    let r = SNNBuilder::new(3).add_layer(
        vec![lif(0.1, 0.05, 0.3, 1.0), lif(0.1, 0.05, 0.3, 1.0)],
        vec![bits_row(&[0.1, 0.2, 0.3]), bits_row(&[0.4, 0.5, 0.6])],
        vec![
            bits_row(&[0.0, -0.2, -0.9]),
            bits_row(&[-0.9, 0.0, -0.2]),
        ],
    );
    assert_eq!(r.unwrap_err(), BuilderError::InconsistentLayer);
}

#[test]
fn builder_rejects_wrong_extra_row_count() {
    let r = SNNBuilder::new(2).add_layer(
        vec![lif(0.1, 0.05, 0.3, 1.0), lif(0.1, 0.05, 0.3, 1.0)],
        vec![bits_row(&[0.1, 0.2])],
        vec![bits_row(&[0.0, -0.2]), bits_row(&[-0.9, 0.0])],
    );
    assert_eq!(r.unwrap_err(), BuilderError::InconsistentLayer);
}

#[test]
fn build_requires_at_least_one_layer() {
    let r = SNNBuilder::new(0).build();
    assert_eq!(r.unwrap_err(), BuilderError::EmptyNetwork);
}

use thermodynamics::dataset::BathDataset;
use thermodynamics::error::ThermoError;

fn bits(values: &[f64]) -> Vec<u64> {
    values.iter().map(|v| v.to_bits()).collect()
}

fn error_of(grid: &[f64], values: &[f64]) -> Option<ThermoError> {
    BathDataset::new(bits(grid), bits(values)).err()
}

#[test]
fn a_sound_table_is_kept_as_given() {
    let grid = bits(&[-4.5, -4.475, -4.45, -4.425, 4.0]);
    let values = bits(&[2.0, 3.0, 5.0, 3.0, 106.83]);
    let dataset = BathDataset::new(grid.clone(), values.clone()).unwrap();
    assert_eq!(dataset.len(), 5);
    assert_eq!(dataset.nodes(), &grid);
    assert_eq!(dataset.node_values(), &values);
}

#[test]
fn a_grid_that_does_not_ascend_is_invalid_input() {
    let values = [1.0, 2.0, 3.0, 4.0, 5.0];
    assert_eq!(error_of(&[0.0, 1.0, 3.0, 2.0, 4.0], &values), Some(ThermoError::InvalidInput));
    assert_eq!(error_of(&[4.0, 3.0, 2.0, 1.0, 0.0], &values), Some(ThermoError::InvalidInput));
    assert_eq!(error_of(&[0.0, 1.0, 2.0, 3.0, 3.0], &values), Some(ThermoError::InvalidInput));
    assert_eq!(error_of(&[-0.0, 0.0, 2.0, 3.0, 4.0], &values), Some(ThermoError::InvalidInput));
    assert_eq!(
        error_of(&[0.0, 1.0, f64::NAN, 3.0, 4.0], &values),
        Some(ThermoError::InvalidInput)
    );
    assert_eq!(error_of(&[1.0, 0.0], &[1.0, 2.0]), Some(ThermoError::InvalidInput));
}

#[test]
fn an_empty_table_is_invalid_input() {
    assert_eq!(error_of(&[], &[]), Some(ThermoError::InvalidInput));
    assert_eq!(error_of(&[0.0, 1.0, 2.0, 3.0], &[]), Some(ThermoError::InvalidInput));
    assert_eq!(error_of(&[], &[0.0, 1.0, 2.0, 3.0]), Some(ThermoError::InvalidInput));
}

#[test]
fn lengths_that_differ_are_invalid_input() {
    assert_eq!(
        error_of(&[0.0, 1.0, 2.0, 3.0], &[1.0, 2.0, 3.0]),
        Some(ThermoError::InvalidInput)
    );
    assert_eq!(
        error_of(&[0.0, 1.0, 2.0, 3.0], &[1.0, 2.0, 3.0, 4.0, 5.0]),
        Some(ThermoError::InvalidInput)
    );
}

#[test]
fn too_few_nodes_for_a_cubic_spline_is_an_initialization_failure() {
    assert_eq!(error_of(&[0.0], &[1.0]), Some(ThermoError::InitializationFailure));
    assert_eq!(error_of(&[0.0, 1.0], &[1.0, 2.0]), Some(ThermoError::InitializationFailure));
    assert_eq!(
        error_of(&[0.0, 1.0, 2.0], &[1.0, 2.0, 3.0]),
        Some(ThermoError::InitializationFailure)
    );
    assert_eq!(error_of(&[0.0, 1.0, 2.0, 3.0], &[1.0, 2.0, 3.0, 4.0]), None);
}

#[test]
fn the_full_grid_of_the_window_is_accepted() {
    let grid: Vec<f64> = (0..341).map(|k| -4.5 + 8.5 * f64::from(k) / 340.0).collect();
    let values: Vec<f64> = (0..341).map(|k| 3.0 + f64::from(k)).collect();
    let dataset = BathDataset::new(bits(&grid), bits(&values)).unwrap();
    assert_eq!(dataset.len(), 341);
    assert_eq!(f64::from_bits(dataset.nodes()[0]), -4.5);
    assert_eq!(f64::from_bits(dataset.nodes()[340]), 4.0);
    assert_eq!(f64::from_bits(dataset.node_values()[340]), 343.0);
}

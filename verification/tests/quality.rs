use quality_ladder::error::Error;
use quality_ladder::quality::{check_layer_count, quality_value, quality_values, MAX_LAYERS};

#[test]
fn five_layers_are_twenty_apart() {
    assert_eq!(quality_values(5).unwrap(), vec![0, 20, 40, 60, 80]);
}

#[test]
fn single_layer_uses_quality_zero() {
    assert_eq!(quality_values(1).unwrap(), vec![0]);
}

#[test]
fn seven_layers_leave_the_top_unused() {
    assert_eq!(quality_values(7).unwrap(), vec![0, 14, 28, 42, 56, 70, 84]);
}

#[test]
fn three_layers_round_the_step_down() {
    assert_eq!(quality_values(3).unwrap(), vec![0, 33, 66]);
}

#[test]
fn hundred_layers_cover_every_quality() {
    let values = quality_values(100).unwrap();
    let expected: Vec<u8> = (0u8..100).collect();
    assert_eq!(values, expected);
}

#[test]
fn more_than_fifty_layers_step_by_one() {
    let values = quality_values(51).unwrap();
    let expected: Vec<u8> = (0u8..51).collect();
    assert_eq!(values, expected);
}

#[test]
fn qualities_ascend_for_every_count() {
    for count in 1..=MAX_LAYERS {
        let values = quality_values(count).unwrap();
        assert_eq!(values.len(), count);
        assert_eq!(values[0], 0);
        for pair in values.windows(2) {
            assert!(pair[0] < pair[1]);
        }
        assert!(values[count - 1] < 100);
    }
}

#[test]
fn quality_value_matches_the_list() {
    for count in [1usize, 2, 3, 7, 50, 99, 100] {
        let values = quality_values(count).unwrap();
        for i in 0..count {
            assert_eq!(quality_value(count, i), values[i]);
        }
    }
    assert_eq!(quality_value(4, 3), 75);
    assert_eq!(quality_value(6, 5), 80);
}

#[test]
fn zero_layers_are_rejected() {
    assert!(matches!(quality_values(0), Err(Error::InvalidLayerCount { count: 0 })));
    assert!(matches!(check_layer_count(0), Err(Error::InvalidLayerCount { count: 0 })));
}

#[test]
fn too_many_layers_are_rejected() {
    assert!(matches!(quality_values(101), Err(Error::InvalidLayerCount { count: 101 })));
    assert!(matches!(check_layer_count(101), Err(Error::InvalidLayerCount { count: 101 })));
    assert!(matches!(
        check_layer_count(usize::MAX),
        Err(Error::InvalidLayerCount { count: usize::MAX })
    ));
}

#[test]
fn valid_layer_counts_pass() {
    assert!(check_layer_count(1).is_ok());
    assert!(check_layer_count(100).is_ok());
}

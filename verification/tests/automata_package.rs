use automata::packages::automata_package::{AutomataPackage, Texel, ALIVE_FROM, EMPTY, FULL};
use automata::utility::errors::AutomataError;

fn cells(weights: &[u8]) -> Vec<Texel> {
    weights.iter().map(|w| Texel(*w)).collect()
}

#[test]
fn new_store_has_two_buffers_of_width_times_height() {
    for (w, h) in [(1u32, 1u32), (8, 8), (3, 5), (56, 56), (1, 100)] {
        for random in [false, true] {
            let package = AutomataPackage::new(w, h, random).unwrap();
            assert_eq!(package.width(), w);
            assert_eq!(package.height(), h);
            assert_eq!(package.current().len(), (w * h) as usize);
            assert_eq!(package.other().len(), (w * h) as usize);
        }
    }
}

#[test]
fn new_store_rejects_zero_dimensions() {
    for random in [false, true] {
        assert_eq!(AutomataPackage::new(0, 8, random).err(), Some(AutomataError::InvalidDimensions));
        assert_eq!(AutomataPackage::new(8, 0, random).err(), Some(AutomataError::InvalidDimensions));
        assert_eq!(AutomataPackage::new(0, 0, random).err(), Some(AutomataError::InvalidDimensions));
    }
}

#[test]
fn unseeded_store_is_empty_in_both_buffers() {
    let package = AutomataPackage::new(4, 3, false).unwrap();
    assert_eq!(package.current(), &vec![Texel(EMPTY); 12]);
    assert_eq!(package.other(), &vec![Texel(EMPTY); 12]);
}

#[test]
fn random_store_fills_each_buffer_on_its_own() {
    let package = AutomataPackage::new(64, 64, true).unwrap();
    assert_ne!(package.current(), package.other());
    assert!(package.current().iter().any(|t| t.0 != 0));
    assert!(package.other().iter().any(|t| t.0 != 0));
    let again = AutomataPackage::new(64, 64, true).unwrap();
    assert_ne!(package.current(), again.current());
}

#[test]
fn from_data_keeps_the_buffers_in_order() {
    let first = cells(&[1, 2, 3, 4, 5, 6]);
    let second = cells(&[9, 8, 7, 6, 5, 4]);
    let package = AutomataPackage::from_data(3, 2, first.clone(), second.clone()).unwrap();
    assert_eq!(package.width(), 3);
    assert_eq!(package.height(), 2);
    assert_eq!(package.current(), &first);
    assert_eq!(package.other(), &second);
}

#[test]
fn from_data_rejects_what_does_not_fit() {
    let six = cells(&[0; 6]);
    let five = cells(&[0; 5]);
    assert_eq!(
        AutomataPackage::from_data(3, 2, five.clone(), six.clone()).err(),
        Some(AutomataError::InvalidDimensions)
    );
    assert_eq!(
        AutomataPackage::from_data(3, 2, six.clone(), five.clone()).err(),
        Some(AutomataError::InvalidDimensions)
    );
    assert_eq!(
        AutomataPackage::from_data(0, 2, Vec::new(), Vec::new()).err(),
        Some(AutomataError::InvalidDimensions)
    );
    assert_eq!(
        AutomataPackage::from_data(2, 0, Vec::new(), Vec::new()).err(),
        Some(AutomataError::InvalidDimensions)
    );
    assert!(AutomataPackage::from_data(2, 3, six.clone(), six).is_ok());
}

#[test]
fn swap_exchanges_current_and_other() {
    let first = cells(&[1, 2, 3, 4]);
    let second = cells(&[5, 6, 7, 8]);
    let mut package = AutomataPackage::from_data(2, 2, first.clone(), second.clone()).unwrap();
    package.swap();
    assert_eq!(package.current(), &second);
    assert_eq!(package.other(), &first);
}

#[test]
fn swap_twice_restores_the_roles() {
    let first = cells(&[1, 2, 3, 4]);
    let second = cells(&[5, 6, 7, 8]);
    let mut package = AutomataPackage::from_data(2, 2, first.clone(), second.clone()).unwrap();
    package.swap();
    package.swap();
    assert_eq!(package.current(), &first);
    assert_eq!(package.other(), &second);
}

#[test]
fn get_reads_the_current_buffer_row_by_row() {
    let first = cells(&[10, 11, 12, 20, 21, 22]);
    let second = cells(&[0; 6]);
    let mut package = AutomataPackage::from_data(3, 2, first, second).unwrap();
    assert_eq!(package.get(0, 0), Some(Texel(10)));
    assert_eq!(package.get(2, 0), Some(Texel(12)));
    assert_eq!(package.get(0, 1), Some(Texel(20)));
    assert_eq!(package.get(2, 1), Some(Texel(22)));
    assert_eq!(package.get(3, 0), None);
    assert_eq!(package.get(0, 2), None);
    assert_eq!(package.get(u32::MAX, u32::MAX), None);
    package.swap();
    assert_eq!(package.get(2, 1), Some(Texel(0)));
}

#[test]
fn recreate_replaces_both_buffers_and_resets_the_roles() {
    let first = cells(&[1, 2, 3, 4]);
    let second = cells(&[5, 6, 7, 8]);
    let mut package = AutomataPackage::from_data(2, 2, first, second).unwrap();
    package.swap();
    assert_eq!(package.recreate(3, 4, false), Ok(()));
    assert_eq!(package.width(), 3);
    assert_eq!(package.height(), 4);
    assert_eq!(package.current(), &vec![Texel(0); 12]);
    assert_eq!(package.other(), &vec![Texel(0); 12]);
}

#[test]
fn recreate_with_zero_dimension_changes_nothing() {
    let first = cells(&[1, 2, 3, 4]);
    let second = cells(&[5, 6, 7, 8]);
    let mut package = AutomataPackage::from_data(2, 2, first.clone(), second.clone()).unwrap();
    package.swap();
    assert_eq!(package.recreate(0, 4, true), Err(AutomataError::InvalidDimensions));
    assert_eq!(package.recreate(4, 0, false), Err(AutomataError::InvalidDimensions));
    assert_eq!(package.width(), 2);
    assert_eq!(package.height(), 2);
    assert_eq!(package.current(), &second);
    assert_eq!(package.other(), &first);
}

#[test]
fn recreate_random_has_the_new_size() {
    let mut package = AutomataPackage::new(2, 2, false).unwrap();
    assert_eq!(package.recreate(32, 16, true), Ok(()));
    assert_eq!(package.current().len(), 512);
    assert_eq!(package.other().len(), 512);
    assert_ne!(package.current(), package.other());
}

#[test]
fn texel_is_alive_from_the_middle_weight() {
    assert_eq!(ALIVE_FROM, 128);
    assert!(!Texel(0).is_alive());
    assert!(!Texel(127).is_alive());
    assert!(Texel(128).is_alive());
    assert!(Texel(FULL).is_alive());
}

#[test]
fn present_at_grid_size_is_the_grid() {
    let first = cells(&[10, 11, 12, 20, 21, 22]);
    let package = AutomataPackage::from_data(3, 2, first.clone(), cells(&[0; 6])).unwrap();
    assert_eq!(package.present(3, 2), first);
}

#[test]
fn present_doubles_cells_without_blending() {
    let first = cells(&[10, 11, 20, 21]);
    let package = AutomataPackage::from_data(2, 2, first, cells(&[0; 4])).unwrap();
    assert_eq!(
        package.present(4, 4),
        cells(&[10, 10, 11, 11, 10, 10, 11, 11, 20, 20, 21, 21, 20, 20, 21, 21])
    );
}

#[test]
fn present_picks_the_nearest_cell() {
    let first = cells(&[0, 1, 2, 3, 4, 5, 6, 7]);
    let package = AutomataPackage::from_data(8, 1, first, cells(&[0; 8])).unwrap();
    // Pixel centres at 1/6, 3/6 and 5/6 of the row fall into cells 1, 4 and 6.
    assert_eq!(package.present(3, 1), cells(&[1, 4, 6]));
    assert_eq!(package.present(1, 1), cells(&[4]));
}

#[test]
fn present_of_an_empty_frame_is_empty() {
    let package = AutomataPackage::new(4, 4, false).unwrap();
    assert_eq!(package.present(0, 7), Vec::new());
    assert_eq!(package.present(7, 0), Vec::new());
}

#[test]
fn present_shows_the_current_buffer_only() {
    let first = cells(&[1, 2, 3, 4]);
    let second = cells(&[5, 6, 7, 8]);
    let mut package = AutomataPackage::from_data(2, 2, first.clone(), second.clone()).unwrap();
    assert_eq!(package.present(2, 2), first);
    package.swap();
    assert_eq!(package.present(2, 2), second);
    assert_eq!(package.current(), &second);
    assert_eq!(package.other(), &first);
}

#[test]
fn error_messages_name_the_failure() {
    assert_eq!(AutomataError::InvalidDimensions.message(), "grid dimensions are invalid");
    assert_eq!(
        AutomataError::CapacityExceeded.message(),
        "edit batch exceeds the queue capacity"
    );
}

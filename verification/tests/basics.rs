use coord_core::basics::calculate;
use coord_core::basics::is_even;
use coord_core::philosopher::Philosopher;

#[test]
fn parity_of_small_numbers() {
    assert!(!is_even(3));
    assert!(is_even(4));
    assert!(!is_even(7));
    assert!(is_even(8));
}

#[test]
fn parity_of_negatives_and_extremes() {
    assert!(is_even(0));
    assert!(!is_even(-3));
    assert!(is_even(-4));
    assert!(is_even(i32::MIN));
    assert!(!is_even(i32::MAX));
}

#[test]
fn four_operations_on_a_pair() {
    assert_eq!(calculate(5, 10), (15, -5, 50, 1));
}

#[test]
fn four_operations_with_negatives() {
    assert_eq!(calculate(-6, 2), (-4, -8, -12, 1));
    assert_eq!(calculate(-1, -1), (-2, 0, 1, 1));
}

#[test]
fn philosopher_keeps_name() {
    let philosopher = Philosopher::new("Judith Butler");
    assert_eq!(philosopher.name().as_str(), "Judith Butler");
}

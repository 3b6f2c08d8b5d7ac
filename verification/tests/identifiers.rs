use drawdoc::datamodel::DataModel;
use drawdoc::ident::IdCounter;
use drawdoc::scalar::Scalar;

#[test]
fn counter_issues_decimal_numerals_in_order() {
    let mut counter = IdCounter::new();
    assert_eq!(counter.issued(), 0);
    assert_eq!(counter.next(), "1");
    assert_eq!(counter.next(), "2");
    assert_eq!(counter.issued(), 2);
}

#[test]
fn counter_writes_several_digits_without_padding() {
    let mut counter = IdCounter::starting_after(9);
    assert_eq!(counter.next(), "10");
    let mut counter = IdCounter::starting_after(99);
    assert_eq!(counter.next(), "100");
    let mut counter = IdCounter::starting_after(12344);
    assert_eq!(counter.next(), "12345");
    let mut counter = IdCounter::starting_after(u64::MAX - 1);
    assert_eq!(counter.next(), "18446744073709551615");
    assert_eq!(counter.issued(), u64::MAX);
}

#[test]
fn default_counter_has_issued_nothing() {
    let counter = IdCounter::default();
    assert_eq!(counter.issued(), 0);
}

#[test]
fn document_issues_each_identifier_once() {
    let mut dm = DataModel::new();
    let mut seen: Vec<String> = Vec::new();
    for expected in 1..=25u64 {
        let id = dm.next_id();
        assert_eq!(id, expected.to_string());
        assert!(!seen.contains(&id));
        seen.push(id);
        assert_eq!(dm.id_counter(), expected);
    }
}

#[test]
fn scalar_constants_are_the_numbers_they_name() {
    assert_eq!(f64::from_bits(Scalar::zero().to_bits()), 0.0);
    assert_eq!(f64::from_bits(Scalar::fifty().to_bits()), 50.0);
    assert_eq!(f64::from_bits(Scalar::full_turn().to_bits()), 360.0);
}

#[test]
fn scalar_keeps_its_bits() {
    let x = Scalar::from_bits((-4.04f64).to_bits());
    assert_eq!(f64::from_bits(x.to_bits()), -4.04);
    assert_eq!(x, Scalar { bits: (-4.04f64).to_bits() });
    assert_ne!(Scalar::from_bits(0.0f64.to_bits()), Scalar::from_bits((-0.0f64).to_bits()));
}

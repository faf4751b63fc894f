use pleroma_core::harmonics::{prime_harmonics, HARMONIC_COUNT};

#[test]
fn basis_is_the_first_seven_primes_in_order() {
    assert_eq!(prime_harmonics(), [2, 3, 5, 7, 11, 13, 17]);
    assert_eq!(prime_harmonics().len(), HARMONIC_COUNT);
}

#[test]
fn basis_holds_every_prime_up_to_its_largest() {
    let basis = prime_harmonics();
    for n in 0..=17u32 {
        let prime = n >= 2 && (2..n).all(|d| n % d != 0);
        assert_eq!(basis.contains(&n), prime, "{}", n);
    }
}

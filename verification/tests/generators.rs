use fountain_raptor_10::generator;
use fountain_raptor_10::generator::random_generator::{rand, V0, V1};

#[test]
fn test_random_generator() {
    // Basic test to ensure the random generator works
    let result = generator::random_generator::rand(100, 5, 1000);
    assert!(result < 1000);
}

#[test]
fn test_degree_generator() {
    // Basic test to ensure the degree generator works
    assert_eq!(generator::degree_generator::deg(0), 1);
    assert_eq!(generator::degree_generator::deg(500000), 3);
    assert_eq!(generator::degree_generator::deg(1048575), 40);
}

#[test]
fn test_combined_usage() {
    // Test combining rand and deg for typical use case
    for x in 0..100 {
        let v = generator::random_generator::rand(x, 1, 1048576);
        let d = generator::degree_generator::deg(v);

        // Degree should be one of the valid values
        assert!(matches!(d, 1 | 2 | 3 | 4 | 10 | 11 | 40), "Invalid degree {} for v={}", d, v);
    }
}

#[test]
fn test_rand_formula_values() {
    // Rand[100, 5, 1000]: index0 = 105, index1 = 5.
    assert_eq!(rand(100, 5, 1000), (V0[105] ^ V1[5]) % 1000);
    // Rand[0, 0, m] reads V0[0] and V1[0].
    assert_eq!(rand(0, 0, u32::MAX), (251291136u32 ^ 807385413u32) % u32::MAX);
    // floor(X / 256) selects the V1 entry: X = 256 * 3 + 7, i = 2.
    assert_eq!(rand(775, 2, 65536), (V0[9] ^ V1[5]) % 65536);
}

#[test]
fn test_rand_modulo_and_determinism() {
    for m in [1u32, 10, 100, 256, 1000, 10000] {
        let r = rand(42, 7, m);
        assert!(r < m);
        assert_eq!(r, rand(42, 7, m));
    }
    assert_eq!(rand(12345, 3, 1), 0);
}

#[test]
fn test_rand_index_wraps() {
    assert_eq!(rand(1234, 7, 100000), rand(1234, 7 + 256, 100000));
    assert_eq!(rand(0, 255, 10000), (V0[255] ^ V1[255]) % 10000);
    assert_eq!(rand(u32::MAX, 1, 1 << 20), (V0[0] ^ V1[0]) % (1 << 20));
}

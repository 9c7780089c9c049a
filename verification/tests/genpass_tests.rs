use rcli::process_genpass;

const UPPER: &str = "ABCDEFGHJKLMNPQRSTUVWXYZ";
const LOWER: &str = "abcdefghijkmnopqrstuvwxyz";
const NUMBER: &str = "123456789";
const SYMBOL: &str = "!@#$%^&*_";

#[test]
fn genpass_has_the_requested_length() {
    let pass = process_genpass(16, true, true, true, true).unwrap();
    assert_eq!(pass.len(), 16);
    let pass = process_genpass(32, true, true, true, true).unwrap();
    assert_eq!(pass.len(), 32);
}

#[test]
fn genpass_draws_from_the_selected_classes_only() {
    let pass = process_genpass(64, false, true, true, false).unwrap();
    for c in pass.chars() {
        assert!(LOWER.contains(c) || NUMBER.contains(c), "stray character {c}");
    }
}

#[test]
fn genpass_covers_every_selected_class() {
    for _ in 0..8 {
        let pass = process_genpass(4, true, true, true, true).unwrap();
        assert!(pass.chars().any(|c| UPPER.contains(c)));
        assert!(pass.chars().any(|c| LOWER.contains(c)));
        assert!(pass.chars().any(|c| NUMBER.contains(c)));
        assert!(pass.chars().any(|c| SYMBOL.contains(c)));
    }
}

#[test]
fn genpass_single_class_minimum_length() {
    let pass = process_genpass(1, false, false, true, false).unwrap();
    assert_eq!(pass.len(), 1);
    assert!(NUMBER.contains(pass.chars().next().unwrap()));
}

#[test]
fn genpass_empty_when_nothing_is_asked() {
    let pass = process_genpass(0, false, false, false, false).unwrap();
    assert_eq!(pass, "");
}

#[test]
fn genpass_avoids_ambiguous_characters() {
    let pass = process_genpass(200, true, true, true, true).unwrap();
    for forbidden in ['I', 'O', 'l', '0'] {
        assert!(!pass.contains(forbidden));
    }
}

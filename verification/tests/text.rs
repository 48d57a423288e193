use catalog_assets::text::{decimal, slugify};

#[test]
fn slug_replaces_spaces_and_lowercases() {
    assert_eq!(slugify("Ray Ban"), "ray_ban");
}

#[test]
fn slug_drops_apostrophes() {
    assert_eq!(slugify("O'Neill"), "oneill");
}

#[test]
fn slug_of_empty_brand_is_empty() {
    assert_eq!(slugify(""), "");
}

#[test]
fn slug_of_only_apostrophes_is_empty() {
    assert_eq!(slugify("'''"), "");
}

#[test]
fn slug_replaces_every_space() {
    assert_eq!(slugify(" Tom  Ford "), "_tom__ford_");
}

#[test]
fn slug_keeps_other_punctuation() {
    assert_eq!(slugify("Dolce & Gabbana"), "dolce_&_gabbana");
    assert_eq!(slugify("A/B-C.D"), "a/b-c.d");
}

#[test]
fn slug_lowercases_beyond_ascii() {
    assert_eq!(slugify("CHLO\u{c9} \u{c9}T\u{c9}"), "chlo\u{e9}_\u{e9}t\u{e9}");
}

#[test]
fn slug_leaves_existing_underscores() {
    assert_eq!(slugify("ray_ban"), "ray_ban");
}

#[test]
fn decimal_of_single_digits() {
    assert_eq!(decimal(0), "0");
    assert_eq!(decimal(7), "7");
    assert_eq!(decimal(9), "9");
}

#[test]
fn decimal_of_longer_numbers() {
    assert_eq!(decimal(10), "10");
    assert_eq!(decimal(42), "42");
    assert_eq!(decimal(1005), "1005");
    assert_eq!(decimal(90210), "90210");
}

#[test]
fn decimal_of_largest_number() {
    assert_eq!(decimal(usize::MAX), format!("{}", usize::MAX));
}

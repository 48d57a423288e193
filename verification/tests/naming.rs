use catalog_assets::naming::output_name;

#[test]
fn output_name_replaces_the_extension() {
    assert_eq!(output_name("catalog.json"), "catalog-modified-w-embedded-imgs.json");
}

#[test]
fn output_name_strips_repeated_extensions() {
    assert_eq!(output_name("a.json.json"), "a-modified-w-embedded-imgs.json");
}

#[test]
fn output_name_without_extension() {
    assert_eq!(output_name("data"), "data-modified-w-embedded-imgs.json");
    assert_eq!(output_name("data.txt"), "data.txt-modified-w-embedded-imgs.json");
}

#[test]
fn output_name_of_bare_extension() {
    assert_eq!(output_name(".json"), "-modified-w-embedded-imgs.json");
    assert_eq!(output_name(""), "-modified-w-embedded-imgs.json");
}

#[test]
fn output_name_keeps_inner_extension() {
    assert_eq!(output_name("a.json.bak"), "a.json.bak-modified-w-embedded-imgs.json");
    assert_eq!(output_name("x.JSON"), "x.JSON-modified-w-embedded-imgs.json");
}

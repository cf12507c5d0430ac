use ash_tutorial::layers::check_validation_layers_support;
use ash_tutorial::layers::layer_present;
use ash_tutorial::layers::layers_all_present;
use ash_tutorial::layers::validation_layers;

#[test]
fn validation_layer_names_are_the_khronos_layer() {
    let names = validation_layers();
    assert_eq!(names.len(), 1);
    assert_eq!(names[0], "VK_LAYER_KHRONOS_validation");
}

#[test]
fn layer_present_finds_a_name() {
    let available: Vec<String> =
        vec!["VK_LAYER_one".to_owned(), "VK_LAYER_two".to_owned()];
    assert!(layer_present(&available, &"VK_LAYER_two".to_owned()));
    assert!(!layer_present(&available, &"VK_LAYER_three".to_owned()));
}

#[test]
fn layer_present_in_empty_list() {
    let available: Vec<String> = Vec::new();
    assert!(!layer_present(&available, &"VK_LAYER_one".to_owned()));
}

#[test]
fn all_layers_present_over_lists() {
    let available: Vec<String> =
        vec!["a".to_owned(), "b".to_owned(), "c".to_owned()];
    let both: Vec<String> = vec!["c".to_owned(), "a".to_owned()];
    let missing: Vec<String> = vec!["a".to_owned(), "d".to_owned()];
    let nothing: Vec<String> = Vec::new();
    assert!(layers_all_present(&available, &both));
    assert!(!layers_all_present(&available, &missing));
    assert!(layers_all_present(&available, &nothing));
}

#[test]
fn validation_support_when_layer_is_advertised() {
    let available: Vec<String> = vec![
        "VK_LAYER_MESA_overlay".to_owned(),
        "VK_LAYER_KHRONOS_validation".to_owned(),
    ];
    assert!(check_validation_layers_support(&available));
}

#[test]
fn no_validation_support_when_layer_is_absent() {
    let available: Vec<String> = vec!["VK_LAYER_MESA_overlay".to_owned()];
    assert!(!check_validation_layers_support(&available));
}

#[test]
fn no_validation_support_with_no_layers() {
    let available: Vec<String> = Vec::new();
    assert!(!check_validation_layers_support(&available));
}

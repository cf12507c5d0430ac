use ash_tutorial::version::make_api_version;
use ash_tutorial::version::API_VERSION_1_3;

#[test]
fn packs_exact_words() {
    assert_eq!(make_api_version(0, 0, 1, 0), 1 << 12);
    assert_eq!(make_api_version(0, 1, 3, 0), (1 << 22) | (3 << 12));
    assert_eq!(make_api_version(1, 2, 3, 4), (1 << 29) | (2 << 22) | (3 << 12) | 4);
    assert_eq!(make_api_version(0, 0, 0, 0), 0);
}

#[test]
fn packs_as_the_runtime_does() {
    assert_eq!(make_api_version(0, 0, 1, 0), ash::vk::make_api_version(0, 0, 1, 0));
    assert_eq!(make_api_version(1, 2, 3, 4), ash::vk::make_api_version(1, 2, 3, 4));
}

#[test]
fn api_version_1_3_matches_runtime_constant() {
    assert_eq!(API_VERSION_1_3, ash::vk::API_VERSION_1_3);
    assert_eq!(API_VERSION_1_3, make_api_version(0, 1, 3, 0));
}

use qovery_engine::utilities::{
    calculate_hash, compute_image_tag, get_header_with_bearer, to_short_id,
};
use std::collections::BTreeMap;

#[test]
fn test_get_image_tag() {
    let image_tag = compute_image_tag(
        &"/".to_string(),
        &Some("Dockerfile".to_string()),
        &BTreeMap::new(),
        "63d8c437337416a7067d3f358197ac47d003fab9",
    );

    let image_tag_2 = compute_image_tag(
        &"/".to_string(),
        &Some("Dockerfile.qovery".to_string()),
        &BTreeMap::new(),
        "63d8c437337416a7067d3f358197ac47d003fab9",
    );

    assert_ne!(image_tag, image_tag_2);

    let image_tag_3 = compute_image_tag(
        &"/xxx".to_string(),
        &Some("Dockerfile.qovery".to_string()),
        &BTreeMap::new(),
        "63d8c437337416a7067d3f358197ac47d003fab9",
    );

    assert_ne!(image_tag, image_tag_3);

    let image_tag_3_2 = compute_image_tag(
        &"/xxx".to_string(),
        &Some("Dockerfile.qovery".to_string()),
        &BTreeMap::new(),
        "63d8c437337416a7067d3f358197ac47d003fab9",
    );

    assert_eq!(image_tag_3, image_tag_3_2);

    let image_tag_4 = compute_image_tag(
        &"/".to_string(),
        &None,
        &BTreeMap::new(),
        "63d8c437337416a7067d3f358197ac47d003fab9",
    );

    let mut env_vars_5 = BTreeMap::new();
    env_vars_5.insert("toto".to_string(), "key".to_string());

    let image_tag_5 = compute_image_tag(
        &"/".to_string(),
        &None,
        &env_vars_5,
        "63d8c437337416a7067d3f358197ac47d003fab9",
    );

    assert_eq!(image_tag_4, image_tag_5);
}

#[test]
fn image_tag_is_checksum_hyphen_commit() {
    let tag = compute_image_tag("/", &None, &BTreeMap::new(), "abc");
    let (sum, commit) = tag.split_once('-').unwrap();
    assert_eq!(commit, "abc");
    assert!(!sum.is_empty());
    assert!(sum.chars().all(|c| c.is_ascii_digit()));
    assert_eq!(sum.parse::<u64>().unwrap().to_string(), sum);
}

#[test]
fn image_tag_is_cut_to_127_characters() {
    let commit = "c".repeat(300);
    let tag = compute_image_tag("/", &None, &BTreeMap::new(), &commit);
    assert_eq!(tag.chars().count(), 127);
    let short = compute_image_tag("/", &None, &BTreeMap::new(), "c");
    assert!(tag.starts_with(&short));
}

#[test]
fn image_tag_depends_on_environment_with_dockerfile() {
    let mut env = BTreeMap::new();
    env.insert("toto".to_string(), "key".to_string());
    let with = compute_image_tag("/", &Some("Dockerfile".to_string()), &env, "c");
    let without = compute_image_tag("/", &Some("Dockerfile".to_string()), &BTreeMap::new(), "c");
    assert_ne!(with, without);
}

#[test]
fn hash_is_a_function_of_the_text() {
    assert_eq!(calculate_hash("Corefile"), calculate_hash("Corefile"));
    assert_ne!(calculate_hash("Corefile"), calculate_hash("Corefile "));
    assert_ne!(calculate_hash(""), calculate_hash("a"));
}

#[test]
fn short_id_is_z_and_eight_characters() {
    let id = uuid::Uuid::parse_str("a1b2c3d4-e5f6-4711-8899-aabbccddeeff").unwrap();
    assert_eq!(to_short_id(&id), "za1b2c3d4");
}

#[test]
fn bearer_headers() {
    let headers = get_header_with_bearer("token123");
    assert_eq!(
        headers,
        vec![
            ("Content-Type".to_string(), "application/json".to_string()),
            ("Authorization".to_string(), "Bearer token123".to_string()),
        ]
    );
}

use bevy_fast_mist::noise::{
    contains_key, noise_image_data, plan_noise_map_update, NOISE_IMAGE_SIZE,
};

#[test]
fn new_frequencies_are_missing_and_unused_ones_are_stale() {
    let current = vec![10u32, 20, 30];
    let used = vec![20u32, 40, 40, 50, 20];
    let update = plan_noise_map_update(&current, &used);
    assert_eq!(update.stale, vec![10, 30]);
    assert_eq!(update.missing, vec![40, 50]);
}

#[test]
fn in_sync_map_needs_no_work() {
    let current = vec![7u32, 3];
    let used = vec![3u32, 7, 3, 3];
    let update = plan_noise_map_update(&current, &used);
    assert!(update.stale.is_empty());
    assert!(update.missing.is_empty());
}

#[test]
fn empty_world_drops_every_texture() {
    let current = vec![1u32, 2, 3];
    let update = plan_noise_map_update(&current, &Vec::new());
    assert_eq!(update.stale, vec![1, 2, 3]);
    assert!(update.missing.is_empty());
}

#[test]
fn first_frame_generates_each_frequency_once() {
    let used = vec![5u32, 5, 9, 5, 1];
    let update = plan_noise_map_update(&Vec::new(), &used);
    assert!(update.stale.is_empty());
    assert_eq!(update.missing, vec![5, 9, 1]);
}

#[test]
fn applying_the_plan_yields_the_used_keys() {
    let current = vec![4u32, 8, 15, 16];
    let used = vec![15u32, 23, 42, 4, 23];
    let update = plan_noise_map_update(&current, &used);
    let mut after: Vec<u32> = current
        .iter()
        .copied()
        .filter(|k| !update.stale.contains(k))
        .collect();
    after.extend(update.missing.iter().copied());
    after.sort();
    let mut expected = used.clone();
    expected.sort();
    expected.dedup();
    assert_eq!(after, expected);
    let again = plan_noise_map_update(&after, &used);
    assert!(again.stale.is_empty() && again.missing.is_empty());
}

#[test]
fn contains_key_finds_members_only() {
    let keys = vec![3u32, 1, 4];
    assert!(contains_key(&keys, 4));
    assert!(!contains_key(&keys, 2));
    assert!(!contains_key(&Vec::new(), 0));
}

#[test]
fn texels_carry_mist_edge_zero_and_opaque_alpha() {
    let mist = vec![10u8, 200, 0];
    let edge = vec![1u8, 2, 255];
    let data = noise_image_data(&mist, &edge);
    assert_eq!(data, vec![10, 1, 0, 255, 200, 2, 0, 255, 0, 255, 0, 255]);
    assert!(noise_image_data(&Vec::new(), &Vec::new()).is_empty());
}

#[test]
fn full_texture_has_four_bytes_per_texel() {
    let n = (NOISE_IMAGE_SIZE * NOISE_IMAGE_SIZE) as usize;
    assert_eq!(NOISE_IMAGE_SIZE, 512);
    let mist: Vec<u8> = (0..n).map(|i| (i % 251) as u8).collect();
    let edge: Vec<u8> = (0..n).map(|i| (i % 13) as u8).collect();
    let data = noise_image_data(&mist, &edge);
    assert_eq!(data.len(), 4 * n);
    let texel = 513 * 7;
    assert_eq!(&data[4 * texel..4 * texel + 4], &[mist[texel], edge[texel], 0, 255]);
}

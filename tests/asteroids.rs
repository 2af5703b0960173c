use orbital::asteroids::{sprite_index, AsteroidSize, NUM_LARGE_TEXTURES, NUM_SMALL_TEXTURES};

#[test]
fn texture_counts_per_size() {
    assert_eq!(AsteroidSize::Dust.texture_count(), 13);
    assert_eq!(AsteroidSize::Small.texture_count(), 13);
    assert_eq!(AsteroidSize::Large.texture_count(), 11);
    assert_eq!(NUM_SMALL_TEXTURES, 13);
    assert_eq!(NUM_LARGE_TEXTURES, 11);
}

#[test]
fn sprite_index_stays_in_family() {
    for _ in 0..500 {
        assert!(sprite_index(AsteroidSize::Dust) < 13);
        assert!(sprite_index(AsteroidSize::Small) < 13);
        assert!(sprite_index(AsteroidSize::Large) < 11);
    }
}

#[test]
fn sprite_index_varies() {
    let first = sprite_index(AsteroidSize::Small);
    let differs = (0..500).any(|_| sprite_index(AsteroidSize::Small) != first);
    assert!(differs);
}

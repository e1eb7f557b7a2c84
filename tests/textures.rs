use pokedex_client::texture::{PokemonTexture, PokemonTextures};

#[test]
fn new_cache_is_empty() {
    let textures: PokemonTextures<String> = PokemonTextures::with_capacity(4);
    assert!(!textures.contains(&1, PokemonTexture::Front));
    assert!(!textures.contains(&1, PokemonTexture::Back));
    assert!(!textures.contains(&1, PokemonTexture::Icon));
}

#[test]
fn insert_then_get_each_side() {
    let mut textures = PokemonTextures::with_capacity(0);
    textures.insert(25, "front", "back", "icon");
    assert_eq!(*textures.get(&25, PokemonTexture::Front), "front");
    assert_eq!(*textures.get(&25, PokemonTexture::Back), "back");
    assert_eq!(*textures.get(&25, PokemonTexture::Icon), "icon");
    assert!(!textures.contains(&26, PokemonTexture::Front));
}

#[test]
fn ids_are_kept_apart() {
    let mut textures = PokemonTextures::with_capacity(2);
    textures.insert(1, 10u32, 11, 12);
    textures.insert(4, 40, 41, 42);
    textures.insert(7, 70, 71, 72);
    assert_eq!(*textures.get(&1, PokemonTexture::Back), 11);
    assert_eq!(*textures.get(&4, PokemonTexture::Icon), 42);
    assert_eq!(*textures.get(&7, PokemonTexture::Front), 70);
}

#[test]
fn reinsert_replaces() {
    let mut textures = PokemonTextures::with_capacity(2);
    textures.insert(3, 1u8, 2, 3);
    textures.insert(5, 4, 5, 6);
    textures.insert(3, 7, 8, 9);
    assert_eq!(*textures.get(&3, PokemonTexture::Front), 7);
    assert_eq!(*textures.get(&3, PokemonTexture::Back), 8);
    assert_eq!(*textures.get(&3, PokemonTexture::Icon), 9);
    assert_eq!(*textures.get(&5, PokemonTexture::Back), 5);
}

#[test]
fn largest_id() {
    let mut textures = PokemonTextures::with_capacity(1);
    textures.insert(u16::MAX, 'f', 'b', 'i');
    assert!(textures.contains(&u16::MAX, PokemonTexture::Icon));
    assert_eq!(*textures.get(&u16::MAX, PokemonTexture::Icon), 'i');
}

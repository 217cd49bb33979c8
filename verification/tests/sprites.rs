use cart::planet_sprite;
use cart::planets::planet_b;
use cart::planets::{Level, Type};

#[test]
fn planet_levels_by_distance() {
    assert_eq!(Type::A.get_level(0), Level::ONE);
    assert_eq!(Type::A.get_level(1000), Level::ONE);
    assert_eq!(Type::B.get_level(1001), Level::TWO);
    assert_eq!(Type::B.get_level(2000), Level::TWO);
    assert_eq!(Type::A.get_level(3000), Level::THREE);
    assert_eq!(Type::A.get_level(3001), Level::FOUR);
}

#[test]
fn planet_sprite_sizes() {
    assert_eq!(Type::A.get_width(&Level::ONE), 120);
    assert_eq!(Type::B.get_height(&Level::TWO), 80);
    assert_eq!(Type::A.get_height(&Level::THREE), 40);
    assert_eq!(Type::B.get_width(&Level::FOUR), 12);
    assert_eq!(Type::A.get_flags(&Level::ONE), 1);
    assert_eq!(Type::B.get_colors(&Level::FOUR), 0x0234);
}

#[test]
fn sprite_sheet_in_five_sizes() {
    assert_eq!(planet_sprite::get_level(500), planet_sprite::Level::ONE);
    assert_eq!(planet_sprite::get_level(501), planet_sprite::Level::TWO);
    assert_eq!(planet_sprite::get_level(2000), planet_sprite::Level::THREE);
    assert_eq!(planet_sprite::get_level(2500), planet_sprite::Level::FOUR);
    assert_eq!(planet_sprite::get_level(9000), planet_sprite::Level::FIVE);
    assert_eq!(planet_sprite::get_width(&planet_sprite::Level::ONE), 160);
    assert_eq!(planet_sprite::get_height(&planet_sprite::Level::FIVE), 12);
    assert_eq!(planet_sprite::get_flags(&planet_sprite::Level::TWO), 1);
    assert_eq!(planet_sprite::get_colors(), 0x0234);
}

#[test]
fn second_planet_sprites_with_landscape() {
    assert_eq!(planet_b::get_level(400), planet_b::Level::ONE);
    assert_eq!(planet_b::get_level(999), planet_b::Level::ONE);
    assert_eq!(planet_b::get_level(1500), planet_b::Level::TWO);
    assert_eq!(planet_b::get_level(2500), planet_b::Level::THREE);
    assert_eq!(planet_b::get_level(3500), planet_b::Level::FOUR);
    assert_eq!(planet_b::get_width(&planet_b::Level::THREE), 40);
    assert_eq!(planet_b::get_height(&planet_b::Level::LANDSCAPE), 160);
    assert_eq!(planet_b::get_flags(&planet_b::Level::FOUR), 1);
    assert_eq!(planet_b::get_colors(&planet_b::Level::LANDSCAPE), 0x0432);
    assert_eq!(planet_b::get_colors(&planet_b::Level::ONE), 0x0234);
}

#[test]
fn second_planet_matches_its_kind() {
    for (level, sheet_level) in [
        (Level::ONE, planet_b::Level::ONE),
        (Level::TWO, planet_b::Level::TWO),
        (Level::THREE, planet_b::Level::THREE),
        (Level::FOUR, planet_b::Level::FOUR),
    ] {
        assert_eq!(Type::B.get_width(&level), planet_b::get_width(&sheet_level));
        assert_eq!(Type::B.get_height(&level), planet_b::get_height(&sheet_level));
    }
}

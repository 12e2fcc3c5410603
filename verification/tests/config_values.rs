use remna_snow::config::numbers_of;
use remna_snow::config::ConfigObject;
use remna_snow::config::ConfigSource;
use remna_snow::config::TextureHandle;
use remna_snow::fixed::Fixed;
use remna_snow::SnowConfig;

fn fx(raw: i64) -> Fixed {
    Fixed::from_micros(raw)
}

fn empty_object() -> ConfigObject {
    ConfigObject {
        particle_count: None,
        gravity: None,
        depth: None,
        min_size: None,
        min_alpha: None,
        speed_x: None,
        speed_y: None,
        direction_x: None,
        direction_y: None,
        rotation_speed: None,
        color: None,
        texture: None,
    }
}

fn assert_is_default(config: &SnowConfig) {
    assert_eq!(config.particle_count, 130_000);
    assert_eq!(config.gravity.raw, 6_000_000);
    assert_eq!(config.depth.raw, 110_000_000);
    assert_eq!(config.min_size.raw, 3_000_000);
    assert_eq!(config.min_alpha.raw, 500_000);
    assert_eq!(config.speed_x.raw, 200_000);
    assert_eq!(config.speed_y.raw, 600_000);
    assert_eq!(config.direction_x.raw, 1_000_000);
    assert_eq!(config.direction_y.raw, 1_000_000);
    assert_eq!(config.rotation_speed.raw, 1_700_000);
    assert!(config.color.is_none());
    assert!(config.texture.is_none());
}

#[test]
fn new_config_holds_the_defaults() {
    assert_is_default(&SnowConfig::new());
    assert_is_default(&SnowConfig::default());
}

#[test]
fn clone_of_a_config_holds_the_same() {
    let mut config = SnowConfig::new();
    config.gravity = fx(-1);
    config.color = Some(vec![fx(1), fx(2), fx(3), fx(4)]);
    config.texture = Some(TextureHandle { id: 9 });
    let copy = config.clone();
    assert_eq!(copy.gravity.raw, -1);
    assert_eq!(copy.particle_count, 130_000);
    assert_eq!(copy.color, Some(vec![fx(1), fx(2), fx(3), fx(4)]));
    assert_eq!(copy.texture, Some(TextureHandle { id: 9 }));
}

#[test]
fn bare_number_is_the_particle_count() {
    let config = SnowConfig::from_js(&ConfigSource::Number(fx(1_000_000_000)));
    assert_eq!(config.particle_count, 1000);
    assert_eq!(config.gravity.raw, 6_000_000);
    assert_eq!(config.rotation_speed.raw, 1_700_000);
    assert!(config.color.is_none());
}

#[test]
fn bare_number_loses_its_fraction_and_stays_within_u32() {
    assert_eq!(SnowConfig::from_js(&ConfigSource::Number(fx(2_999_999))).particle_count, 2);
    assert_eq!(SnowConfig::from_js(&ConfigSource::Number(fx(-5_000_000))).particle_count, 0);
    assert_eq!(
        SnowConfig::from_js(&ConfigSource::Number(fx(9_000_000_000_000_000))).particle_count,
        u32::MAX
    );
}

#[test]
fn value_that_is_neither_number_nor_record_gives_the_defaults() {
    assert_is_default(&SnowConfig::from_js(&ConfigSource::Other));
}

#[test]
fn empty_record_gives_the_defaults() {
    assert_is_default(&SnowConfig::from_js(&ConfigSource::Object(empty_object())));
}

#[test]
fn record_entries_take_the_place_of_defaults() {
    let mut object = empty_object();
    object.particle_count = Some(fx(500_500_000));
    object.gravity = Some(fx(9_810_000));
    object.min_alpha = Some(fx(250_000));
    object.direction_x = Some(fx(-1_000_000));
    object.texture = Some(TextureHandle { id: 3 });
    let config = SnowConfig::from_js(&ConfigSource::Object(object));
    assert_eq!(config.particle_count, 500);
    assert_eq!(config.gravity.raw, 9_810_000);
    assert_eq!(config.min_alpha.raw, 250_000);
    assert_eq!(config.direction_x.raw, -1_000_000);
    assert_eq!(config.texture, Some(TextureHandle { id: 3 }));
    assert_eq!(config.depth.raw, 110_000_000);
    assert_eq!(config.min_size.raw, 3_000_000);
    assert_eq!(config.speed_x.raw, 200_000);
    assert_eq!(config.speed_y.raw, 600_000);
    assert_eq!(config.direction_y.raw, 1_000_000);
    assert_eq!(config.rotation_speed.raw, 1_700_000);
    assert!(config.color.is_none());
}

#[test]
fn every_record_entry_is_read() {
    let object = ConfigObject {
        particle_count: Some(fx(1_000_000)),
        gravity: Some(fx(2)),
        depth: Some(fx(3)),
        min_size: Some(fx(4)),
        min_alpha: Some(fx(5)),
        speed_x: Some(fx(6)),
        speed_y: Some(fx(7)),
        direction_x: Some(fx(8)),
        direction_y: Some(fx(9)),
        rotation_speed: Some(fx(10)),
        color: Some(vec![Some(fx(11))]),
        texture: Some(TextureHandle { id: 12 }),
    };
    let config = SnowConfig::from_js(&ConfigSource::Object(object));
    assert_eq!(config.particle_count, 1);
    assert_eq!(config.gravity.raw, 2);
    assert_eq!(config.depth.raw, 3);
    assert_eq!(config.min_size.raw, 4);
    assert_eq!(config.min_alpha.raw, 5);
    assert_eq!(config.speed_x.raw, 6);
    assert_eq!(config.speed_y.raw, 7);
    assert_eq!(config.direction_x.raw, 8);
    assert_eq!(config.direction_y.raw, 9);
    assert_eq!(config.rotation_speed.raw, 10);
    assert_eq!(config.color, Some(vec![fx(11)]));
    assert_eq!(config.texture, Some(TextureHandle { id: 12 }));
}

#[test]
fn tint_keeps_the_numbers_of_the_list_in_order() {
    let mut object = empty_object();
    object.color = Some(vec![Some(fx(100_000)), None, Some(fx(200_000)), None, Some(fx(300_000))]);
    let config = SnowConfig::from_js(&ConfigSource::Object(object));
    assert_eq!(config.color, Some(vec![fx(100_000), fx(200_000), fx(300_000)]));
}

#[test]
fn tint_without_a_number_counts_as_none() {
    let mut object = empty_object();
    object.color = Some(vec![None, None]);
    assert!(SnowConfig::from_js(&ConfigSource::Object(object)).color.is_none());
    let mut object = empty_object();
    object.color = Some(vec![]);
    assert!(SnowConfig::from_js(&ConfigSource::Object(object)).color.is_none());
}

#[test]
fn numbers_of_a_list_skip_what_is_no_number() {
    assert_eq!(numbers_of(&vec![]), vec![]);
    assert_eq!(numbers_of(&vec![None]), vec![]);
    assert_eq!(numbers_of(&vec![Some(fx(1)), None, Some(fx(-2))]), vec![fx(1), fx(-2)]);
}

//! Snowfall configuration.

use crate::constants::DEFAULT_DEPTH;
use crate::constants::DEFAULT_DIRECTION_X;
use crate::constants::DEFAULT_DIRECTION_Y;
use crate::constants::DEFAULT_GRAVITY;
use crate::constants::DEFAULT_MIN_ALPHA;
use crate::constants::DEFAULT_MIN_SIZE;
use crate::constants::DEFAULT_PARTICLE_COUNT;
use crate::constants::DEFAULT_ROTATION_SPEED;
use crate::constants::DEFAULT_SPEED_X;
use crate::constants::DEFAULT_SPEED_Y;
use crate::fixed::Fixed;
use vstd::prelude::*;

verus! {

/// A token for an image that the host owns. The library stores and hands back
/// such a token and never looks behind it.
#[derive(Clone, Copy, Debug, PartialEq, Eq, Structural)]
pub struct TextureHandle {
    pub id: u32,
}

/// The tunable parameters of a snowfall.
#[derive(Debug)]
pub struct SnowConfig {
    pub particle_count: u32,
    pub gravity: Fixed,
    pub depth: Fixed,
    pub min_size: Fixed,
    pub min_alpha: Fixed,
    pub speed_x: Fixed,
    pub speed_y: Fixed,
    pub direction_x: Fixed,
    pub direction_y: Fixed,
    pub rotation_speed: Fixed,
    pub color: Option<Vec<Fixed>>,
    pub texture: Option<TextureHandle>,
}

/// The entries of a configuration record that a host hands over. An entry is
/// there where the host's record has a number under its key; the tint is the
/// list under its key, with `None` for each item that is no number.
#[derive(Debug)]
pub struct ConfigObject {
    pub particle_count: Option<Fixed>,
    pub gravity: Option<Fixed>,
    pub depth: Option<Fixed>,
    pub min_size: Option<Fixed>,
    pub min_alpha: Option<Fixed>,
    pub speed_x: Option<Fixed>,
    pub speed_y: Option<Fixed>,
    pub direction_x: Option<Fixed>,
    pub direction_y: Option<Fixed>,
    pub rotation_speed: Option<Fixed>,
    pub color: Option<Vec<Option<Fixed>>>,
    pub texture: Option<TextureHandle>,
}

/// What a host hands over as configuration: a bare number, which is the
/// particle count; a record; or anything else, which says nothing.
#[derive(Debug)]
pub enum ConfigSource {
    Number(Fixed),
    Object(ConfigObject),
    Other,
}

/// The numbers among the items of a list, in their order.
pub open spec fn numbers_in(items: Seq<Option<Fixed>>) -> Seq<Fixed>
    decreases items.len(),
{
    if items.len() == 0 {
        Seq::empty()
    } else {
        match items.last() {
            Some(v) => numbers_in(items.drop_last()).push(v),
            None => numbers_in(items.drop_last()),
        }
    }
}

/// What a [`SnowConfig`] holds, with the tint as a sequence.
pub struct SnowConfigView {
    pub particle_count: u32,
    pub gravity: Fixed,
    pub depth: Fixed,
    pub min_size: Fixed,
    pub min_alpha: Fixed,
    pub speed_x: Fixed,
    pub speed_y: Fixed,
    pub direction_x: Fixed,
    pub direction_y: Fixed,
    pub rotation_speed: Fixed,
    pub color: Option<Seq<Fixed>>,
    pub texture: Option<TextureHandle>,
}

impl View for SnowConfig {
    type V = SnowConfigView;

    open spec fn view(&self) -> SnowConfigView {
        SnowConfigView {
            particle_count: self.particle_count,
            gravity: self.gravity,
            depth: self.depth,
            min_size: self.min_size,
            min_alpha: self.min_alpha,
            speed_x: self.speed_x,
            speed_y: self.speed_y,
            direction_x: self.direction_x,
            direction_y: self.direction_y,
            rotation_speed: self.rotation_speed,
            color: match self.color {
                Some(c) => Some(c@),
                None => None,
            },
            texture: self.texture,
        }
    }
}

impl SnowConfigView {
    /// The configuration that nothing has changed yet.
    pub open spec fn initial() -> SnowConfigView {
        SnowConfigView {
            particle_count: DEFAULT_PARTICLE_COUNT,
            gravity: Fixed { raw: DEFAULT_GRAVITY },
            depth: Fixed { raw: DEFAULT_DEPTH },
            min_size: Fixed { raw: DEFAULT_MIN_SIZE },
            min_alpha: Fixed { raw: DEFAULT_MIN_ALPHA },
            speed_x: Fixed { raw: DEFAULT_SPEED_X },
            speed_y: Fixed { raw: DEFAULT_SPEED_Y },
            direction_x: Fixed { raw: DEFAULT_DIRECTION_X },
            direction_y: Fixed { raw: DEFAULT_DIRECTION_Y },
            rotation_speed: Fixed { raw: DEFAULT_ROTATION_SPEED },
            color: None,
            texture: None,
        }
    }
}

impl SnowConfigView {
    /// This configuration with every entry of `object` in place of what it
    /// had. A particle count loses its fraction and is held within `u32`; a
    /// tint counts where the list holds a number at all.
    pub open spec fn overridden(self, object: ConfigObject) -> SnowConfigView {
        SnowConfigView {
            particle_count: match object.particle_count {
                Some(n) => n.to_u32_spec(),
                None => self.particle_count,
            },
            gravity: object.gravity.unwrap_or(self.gravity),
            depth: object.depth.unwrap_or(self.depth),
            min_size: object.min_size.unwrap_or(self.min_size),
            min_alpha: object.min_alpha.unwrap_or(self.min_alpha),
            speed_x: object.speed_x.unwrap_or(self.speed_x),
            speed_y: object.speed_y.unwrap_or(self.speed_y),
            direction_x: object.direction_x.unwrap_or(self.direction_x),
            direction_y: object.direction_y.unwrap_or(self.direction_y),
            rotation_speed: object.rotation_speed.unwrap_or(self.rotation_speed),
            color: match object.color {
                Some(items) => if numbers_in(items@).len() > 0 {
                    Some(numbers_in(items@))
                } else {
                    self.color
                },
                None => self.color,
            },
            texture: match object.texture {
                Some(t) => Some(t),
                None => self.texture,
            },
        }
    }

    /// The configuration that a host's value stands for.
    pub open spec fn from_source(value: ConfigSource) -> SnowConfigView {
        match value {
            ConfigSource::Number(n) => SnowConfigView {
                particle_count: n.to_u32_spec(),
                ..SnowConfigView::initial()
            },
            ConfigSource::Object(object) => SnowConfigView::initial().overridden(object),
            ConfigSource::Other => SnowConfigView::initial(),
        }
    }
}

impl Default for SnowConfig {
    fn default() -> (r: Self)
        ensures
            r@ == SnowConfigView::initial(),
    {
        SnowConfig {
            particle_count: DEFAULT_PARTICLE_COUNT,
            gravity: Fixed { raw: DEFAULT_GRAVITY },
            depth: Fixed { raw: DEFAULT_DEPTH },
            min_size: Fixed { raw: DEFAULT_MIN_SIZE },
            min_alpha: Fixed { raw: DEFAULT_MIN_ALPHA },
            speed_x: Fixed { raw: DEFAULT_SPEED_X },
            speed_y: Fixed { raw: DEFAULT_SPEED_Y },
            direction_x: Fixed { raw: DEFAULT_DIRECTION_X },
            direction_y: Fixed { raw: DEFAULT_DIRECTION_Y },
            rotation_speed: Fixed { raw: DEFAULT_ROTATION_SPEED },
            color: None,
            texture: None,
        }
    }
}

impl Clone for SnowConfig {
    fn clone(&self) -> (r: Self)
        ensures
            r@ == self@,
    {
        let color: Option<Vec<Fixed>> = match &self.color {
            Some(c) => {
                let copy: Vec<Fixed> = c.clone();
                assert(copy@ =~= c@);
                Some(copy)
            },
            None => None,
        };
        SnowConfig {
            particle_count: self.particle_count,
            gravity: self.gravity,
            depth: self.depth,
            min_size: self.min_size,
            min_alpha: self.min_alpha,
            speed_x: self.speed_x,
            speed_y: self.speed_y,
            direction_x: self.direction_x,
            direction_y: self.direction_y,
            rotation_speed: self.rotation_speed,
            color,
            texture: self.texture,
        }
    }
}

impl SnowConfig {
    /// The default configuration.
    pub fn new() -> (r: Self)
        ensures
            r@ == SnowConfigView::initial(),
    {
        SnowConfig::default()
    }

    /// The configuration that a host's value stands for: the defaults, with
    /// what the value says in their place.
    pub fn from_js(value: &ConfigSource) -> (r: Self)
        ensures
            r@ == SnowConfigView::from_source(*value),
    {
        let mut config = SnowConfig::default();
        match value {
            ConfigSource::Number(n) => {
                config.particle_count = n.to_u32();
            },
            ConfigSource::Object(object) => {
                if let Some(n) = object.particle_count {
                    config.particle_count = n.to_u32();
                }
                config.gravity = object.gravity.unwrap_or(config.gravity);
                config.depth = object.depth.unwrap_or(config.depth);
                config.min_size = object.min_size.unwrap_or(config.min_size);
                config.min_alpha = object.min_alpha.unwrap_or(config.min_alpha);
                config.speed_x = object.speed_x.unwrap_or(config.speed_x);
                config.speed_y = object.speed_y.unwrap_or(config.speed_y);
                config.direction_x = object.direction_x.unwrap_or(config.direction_x);
                config.direction_y = object.direction_y.unwrap_or(config.direction_y);
                config.rotation_speed = object.rotation_speed.unwrap_or(config.rotation_speed);
                if let Some(items) = &object.color {
                    let numbers = numbers_of(items);
                    if numbers.len() > 0 {
                        config.color = Some(numbers);
                    }
                }
                if let Some(t) = object.texture {
                    config.texture = Some(t);
                }
            },
            ConfigSource::Other => {},
        }
        config
    }
}

/// The numbers among the items of a list, in their order.
pub fn numbers_of(items: &Vec<Option<Fixed>>) -> (r: Vec<Fixed>)
    ensures
        r@ == numbers_in(items@),
{
    let mut numbers: Vec<Fixed> = Vec::new();
    let mut i: usize = 0;
    while i < items.len()
        invariant
            i <= items@.len(),
            numbers@ == numbers_in(items@.subrange(0, i as int)),
        decreases items@.len() - i,
    {
        assert(items@.subrange(0, i + 1).drop_last() =~= items@.subrange(0, i as int));
        if let Some(v) = items[i] {
            numbers.push(v);
        }
        i += 1;
    }
    assert(items@.subrange(0, i as int) =~= items@);
    numbers
}

} // verus!

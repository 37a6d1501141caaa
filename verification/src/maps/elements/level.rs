//! The rooms of a map and the layers each room is made of.
use vstd::prelude::*;

use crate::maps::elements::dynamic::{
    encode_dyn, encode_dyn_entity, known_element_name, known_entity_name, DynEntity, DynMapElement,
};
use crate::maps::elements::MapRoot;
use crate::maps::encoder::{lemma_prefix_chain, MapEncoder};
use crate::maps::lookup::ResolvableString;
use crate::maps::parser::{
    attr_ok, attr_read, attr_written, child_exact, child_ok, children_exact, child_read, children_ok, children_read, named_count, opt_attr_ok,
    opt_attr_read, opt_attr_written, opt_child_ok, opt_child_read, opt_count, opt_rle_written, MapElement,
    MapElementParsingError, MapParser, ToEncodedVar,
};
use crate::maps::{element_view, elements_view, AttrV, ElementV};
use crate::maps::var_types::EncodedVar;
use crate::utils::num::{Float, Integer};

verus! {

/// The rooms of a map.
#[derive(Debug)]
pub struct Levels {
    pub levels: Vec<Level>,
}

impl MapElement for Levels {
    open spec fn element_name() -> Seq<char> {
        "levels"@
    }

    fn name() -> (r: &'static str) {
        "levels"
    }

    open spec fn fields_read(p: MapParser, x: Self) -> bool {
        &&& level_children_read(p, x.levels@)
    }

    open spec fn fields_ok(p: MapParser) -> bool {
        &&& level_children_ok(p)
    }

    open spec fn exact(p: MapParser) -> bool {
        &&& level_children_exact(p)
    }

    open spec fn written_attrs(&self) -> Seq<AttrV> {
        Seq::empty()
    }

    open spec fn written_children(&self) -> nat {
        (self.levels@.len()) as nat
    }

    fn from_raw(parser: MapParser) -> (r: Result<Self, MapElementParsingError>)
        decreases *parser.raw, 2int,
    {
        proof {
            let ghost ok = Self::fields_ok(parser);
            let ghost ex = Self::exact(parser);
        }
        Ok(Levels {
            levels: levels_vec(&parser)?,
        })
    }

    fn to_raw(&self, encoder: &mut MapEncoder)
        decreases self, 0int,
    {
        let ghost start = encoder.built();
        proof {
            let ghost wa = self.written_attrs();
            let ghost wc = self.written_children();
            assert(start.attributes + self.written_attrs() =~= start.attributes);
        }
        for i in 0..self.levels.len()
            invariant
                encoder.built().name == start.name,
                encoder.built().attributes == start.attributes,
                encoder.built().children.len() == start.children.len() + i,
                encoder.built().children.take(start.children.len() as int) == start.children,
        {
            proof {
                assert(decreases_to!(self => self.levels@[i as int]));
            }
            let ghost mid = encoder.built();
            encode_level(encoder, &self.levels[i]);
            proof {
                assert(encoder.built().children.take(start.children.len() as int) =~= mid.children.take(
                    start.children.len() as int,
                ));
            }
        }
    }
}

/// A room of a map: its attributes and what it holds.
#[derive(Debug)]
pub struct Level {
    pub name: ResolvableString,
    pub width: Integer,
    pub height: Integer,
    pub wind_pattern: Option<ResolvableString>,
    pub dark: Option<bool>,
    pub camera_offset_x: Option<Float>,
    pub camera_offset_y: Option<Float>,
    pub alt_music: Option<ResolvableString>,
    pub music: Option<ResolvableString>,
    pub music_layer_1: Option<bool>,
    pub music_layer_2: Option<bool>,
    pub music_layer_3: Option<bool>,
    pub music_layer_4: Option<bool>,
    pub music_progress: Option<ResolvableString>,
    pub ambience: Option<ResolvableString>,
    pub ambience_progress: Option<ResolvableString>,
    pub underwater: Option<bool>,
    pub space: Option<bool>,
    pub disable_down_transition: Option<bool>,
    pub whisper: Option<bool>,
    pub delay_alt_music_fade: Option<bool>,
    pub enforce_dash_number: Option<Integer>,
    pub x: Float,
    pub y: Float,
    pub c: Integer,
    pub triggers: Option<Triggers>,
    pub fg_tiles: Option<FGTiles>,
    pub fg_decals: Option<FGDecals>,
    pub solids: Solids,
    pub entities: Option<Entities>,
    pub bg_tiles: Option<BGTiles>,
    pub bg_decals: Option<BGDecals>,
    pub bg: Background,
    pub objtiles: Option<ObjTiles>,
}

impl MapElement for Level {
    open spec fn element_name() -> Seq<char> {
        "level"@
    }

    fn name() -> (r: &'static str) {
        "level"
    }

    open spec fn fields_read(p: MapParser, x: Self) -> bool {
        &&& attr_read::<ResolvableString>(p, "name"@, x.name)
        &&& attr_read::<Integer>(p, "width"@, x.width)
        &&& attr_read::<Integer>(p, "height"@, x.height)
        &&& opt_attr_read::<ResolvableString>(p, "windPattern"@, x.wind_pattern)
        &&& opt_attr_read::<bool>(p, "dark"@, x.dark)
        &&& opt_attr_read::<Float>(p, "cameraOffsetX"@, x.camera_offset_x)
        &&& opt_attr_read::<Float>(p, "cameraOffsetY"@, x.camera_offset_y)
        &&& opt_attr_read::<ResolvableString>(p, "alt_music"@, x.alt_music)
        &&& opt_attr_read::<ResolvableString>(p, "music"@, x.music)
        &&& opt_attr_read::<bool>(p, "musicLayer1"@, x.music_layer_1)
        &&& opt_attr_read::<bool>(p, "musicLayer2"@, x.music_layer_2)
        &&& opt_attr_read::<bool>(p, "musicLayer3"@, x.music_layer_3)
        &&& opt_attr_read::<bool>(p, "musicLayer4"@, x.music_layer_4)
        &&& opt_attr_read::<ResolvableString>(p, "musicProgress"@, x.music_progress)
        &&& opt_attr_read::<ResolvableString>(p, "ambience"@, x.ambience)
        &&& opt_attr_read::<ResolvableString>(p, "ambienceProgress"@, x.ambience_progress)
        &&& opt_attr_read::<bool>(p, "underwater"@, x.underwater)
        &&& opt_attr_read::<bool>(p, "space"@, x.space)
        &&& opt_attr_read::<bool>(p, "disableDownTransition"@, x.disable_down_transition)
        &&& opt_attr_read::<bool>(p, "whisper"@, x.whisper)
        &&& opt_attr_read::<bool>(p, "delayAltMusicFade"@, x.delay_alt_music_fade)
        &&& opt_attr_read::<Integer>(p, "enforceDashNumber"@, x.enforce_dash_number)
        &&& attr_read::<Float>(p, "x"@, x.x)
        &&& attr_read::<Float>(p, "y"@, x.y)
        &&& attr_read::<Integer>(p, "c"@, x.c)
        &&& opt_triggers_read(p, x.triggers)
        &&& opt_child_read::<FGTiles>(p, x.fg_tiles)
        &&& opt_child_read::<FGDecals>(p, x.fg_decals)
        &&& child_read::<Solids>(p, x.solids)
        &&& opt_child_read::<Entities>(p, x.entities)
        &&& opt_child_read::<BGTiles>(p, x.bg_tiles)
        &&& opt_child_read::<BGDecals>(p, x.bg_decals)
        &&& child_read::<Background>(p, x.bg)
        &&& opt_child_read::<ObjTiles>(p, x.objtiles)
    }

    open spec fn fields_ok(p: MapParser) -> bool {
        &&& attr_ok::<ResolvableString>(p, "name"@)
        &&& attr_ok::<Integer>(p, "width"@)
        &&& attr_ok::<Integer>(p, "height"@)
        &&& opt_attr_ok::<ResolvableString>(p, "windPattern"@)
        &&& opt_attr_ok::<bool>(p, "dark"@)
        &&& opt_attr_ok::<Float>(p, "cameraOffsetX"@)
        &&& opt_attr_ok::<Float>(p, "cameraOffsetY"@)
        &&& opt_attr_ok::<ResolvableString>(p, "alt_music"@)
        &&& opt_attr_ok::<ResolvableString>(p, "music"@)
        &&& opt_attr_ok::<bool>(p, "musicLayer1"@)
        &&& opt_attr_ok::<bool>(p, "musicLayer2"@)
        &&& opt_attr_ok::<bool>(p, "musicLayer3"@)
        &&& opt_attr_ok::<bool>(p, "musicLayer4"@)
        &&& opt_attr_ok::<ResolvableString>(p, "musicProgress"@)
        &&& opt_attr_ok::<ResolvableString>(p, "ambience"@)
        &&& opt_attr_ok::<ResolvableString>(p, "ambienceProgress"@)
        &&& opt_attr_ok::<bool>(p, "underwater"@)
        &&& opt_attr_ok::<bool>(p, "space"@)
        &&& opt_attr_ok::<bool>(p, "disableDownTransition"@)
        &&& opt_attr_ok::<bool>(p, "whisper"@)
        &&& opt_attr_ok::<bool>(p, "delayAltMusicFade"@)
        &&& opt_attr_ok::<Integer>(p, "enforceDashNumber"@)
        &&& attr_ok::<Float>(p, "x"@)
        &&& attr_ok::<Float>(p, "y"@)
        &&& attr_ok::<Integer>(p, "c"@)
        &&& opt_triggers_ok(p)
        &&& opt_child_ok::<FGTiles>(p)
        &&& opt_child_ok::<FGDecals>(p)
        &&& child_ok::<Solids>(p)
        &&& opt_child_ok::<Entities>(p)
        &&& opt_child_ok::<BGTiles>(p)
        &&& opt_child_ok::<BGDecals>(p)
        &&& child_ok::<Background>(p)
        &&& opt_child_ok::<ObjTiles>(p)
    }

    open spec fn exact(p: MapParser) -> bool {
        &&& opt_triggers_exact(p)
        &&& child_exact::<FGTiles>(p)
        &&& child_exact::<FGDecals>(p)
        &&& child_exact::<Solids>(p)
        &&& child_exact::<Entities>(p)
        &&& child_exact::<BGTiles>(p)
        &&& child_exact::<BGDecals>(p)
        &&& child_exact::<Background>(p)
        &&& child_exact::<ObjTiles>(p)
    }

    open spec fn written_attrs(&self) -> Seq<AttrV> {
        level_shape_attrs(*self) + level_sound_attrs(*self) + level_place_attrs(*self)
    }

    open spec fn written_children(&self) -> nat {
        (opt_count(self.triggers) + opt_count(self.fg_tiles) + opt_count(self.fg_decals) + 1 + opt_count(self.entities) + opt_count(self.bg_tiles) + opt_count(self.bg_decals) + 1 + opt_count(self.objtiles)) as nat
    }

    #[verifier::rlimit(50)]
    fn from_raw(parser: MapParser) -> (r: Result<Self, MapElementParsingError>)
        decreases *parser.raw, 2int,
    {
        proof {
            let ghost ok = Self::fields_ok(parser);
            let ghost ex = Self::exact(parser);
        }
        proof {
            parser.lemma_searchable();
        }
        Ok(Level {
            name: parser.get_attribute("name")?,
            width: parser.get_attribute("width")?,
            height: parser.get_attribute("height")?,
            wind_pattern: parser.get_optional_attribute("windPattern")?,
            dark: parser.get_optional_attribute("dark")?,
            camera_offset_x: parser.get_optional_attribute("cameraOffsetX")?,
            camera_offset_y: parser.get_optional_attribute("cameraOffsetY")?,
            alt_music: parser.get_optional_attribute("alt_music")?,
            music: parser.get_optional_attribute("music")?,
            music_layer_1: parser.get_optional_attribute("musicLayer1")?,
            music_layer_2: parser.get_optional_attribute("musicLayer2")?,
            music_layer_3: parser.get_optional_attribute("musicLayer3")?,
            music_layer_4: parser.get_optional_attribute("musicLayer4")?,
            music_progress: parser.get_optional_attribute("musicProgress")?,
            ambience: parser.get_optional_attribute("ambience")?,
            ambience_progress: parser.get_optional_attribute("ambienceProgress")?,
            underwater: parser.get_optional_attribute("underwater")?,
            space: parser.get_optional_attribute("space")?,
            disable_down_transition: parser.get_optional_attribute("disableDownTransition")?,
            whisper: parser.get_optional_attribute("whisper")?,
            delay_alt_music_fade: parser.get_optional_attribute("delayAltMusicFade")?,
            enforce_dash_number: parser.get_optional_attribute("enforceDashNumber")?,
            x: parser.get_attribute("x")?,
            y: parser.get_attribute("y")?,
            c: parser.get_attribute("c")?,
            triggers: triggers_of(&parser)?,
            fg_tiles: parser.parse_optional_element()?,
            fg_decals: parser.parse_optional_element()?,
            solids: parser.parse_element()?,
            entities: parser.parse_optional_element()?,
            bg_tiles: parser.parse_optional_element()?,
            bg_decals: parser.parse_optional_element()?,
            bg: parser.parse_element()?,
            objtiles: parser.parse_optional_element()?,
        })
    }

    fn to_raw(&self, encoder: &mut MapEncoder)
        decreases self, 0int,
    {
        let ghost start = encoder.built();
        proof {
            let ghost wa = self.written_attrs();
            let ghost wc = self.written_children();
        }
        write_level_attributes(self, encoder);
        let ghost e0 = encoder.built();
        if let Some(v) = &self.triggers {
            encode_triggers(encoder, v);
        } else {
            proof {
                assert(e0.children.take(e0.children.len() as int) =~= e0.children);
            }
        }
        let ghost e1 = encoder.built();
        encoder.optional_child(&self.fg_tiles);
        let ghost e2 = encoder.built();
        encoder.optional_child(&self.fg_decals);
        let ghost e3 = encoder.built();
        encoder.child(&self.solids);
        let ghost e4 = encoder.built();
        encoder.optional_child(&self.entities);
        let ghost e5 = encoder.built();
        encoder.optional_child(&self.bg_tiles);
        let ghost e6 = encoder.built();
        encoder.optional_child(&self.bg_decals);
        let ghost e7 = encoder.built();
        encoder.child(&self.bg);
        let ghost e8 = encoder.built();
        encoder.optional_child(&self.objtiles);
        proof {
            let e9 = encoder.built();
            lemma_prefix_chain(e2.children, e1.children, e0.children);
            lemma_prefix_chain(e3.children, e2.children, e0.children);
            lemma_prefix_chain(e4.children, e3.children, e0.children);
            lemma_prefix_chain(e5.children, e4.children, e0.children);
            lemma_prefix_chain(e6.children, e5.children, e0.children);
            lemma_prefix_chain(e7.children, e6.children, e0.children);
            lemma_prefix_chain(e8.children, e7.children, e0.children);
            lemma_prefix_chain(e9.children, e8.children, e0.children);
        }
    }
}

/// The attributes written for a room's name, size, wind, darkness, camera and alternative music.
pub open spec fn level_shape_attrs(level: Level) -> Seq<AttrV> {
    attr_written("name"@, level.name)
        + attr_written("width"@, level.width)
        + attr_written("height"@, level.height)
        + opt_attr_written("windPattern"@, level.wind_pattern)
        + opt_attr_written("dark"@, level.dark)
        + opt_attr_written("cameraOffsetX"@, level.camera_offset_x)
        + opt_attr_written("cameraOffsetY"@, level.camera_offset_y)
        + opt_attr_written("alt_music"@, level.alt_music)
}

/// The attributes written for a room's music and ambience.
pub open spec fn level_sound_attrs(level: Level) -> Seq<AttrV> {
    opt_attr_written("music"@, level.music)
        + opt_attr_written("musicLayer1"@, level.music_layer_1)
        + opt_attr_written("musicLayer2"@, level.music_layer_2)
        + opt_attr_written("musicLayer3"@, level.music_layer_3)
        + opt_attr_written("musicLayer4"@, level.music_layer_4)
        + opt_attr_written("musicProgress"@, level.music_progress)
        + opt_attr_written("ambience"@, level.ambience)
        + opt_attr_written("ambienceProgress"@, level.ambience_progress)
}

/// The attributes written for a room's flags, dash number and position.
pub open spec fn level_place_attrs(level: Level) -> Seq<AttrV> {
    opt_attr_written("underwater"@, level.underwater)
        + opt_attr_written("space"@, level.space)
        + opt_attr_written("disableDownTransition"@, level.disable_down_transition)
        + opt_attr_written("whisper"@, level.whisper)
        + opt_attr_written("delayAltMusicFade"@, level.delay_alt_music_fade)
        + opt_attr_written("enforceDashNumber"@, level.enforce_dash_number)
        + attr_written("x"@, level.x)
        + attr_written("y"@, level.y)
        + attr_written("c"@, level.c)
}

/// Writes the attributes of a room, in order.
fn write_level_attributes(level: &Level, encoder: &mut MapEncoder)
    ensures
        final(encoder).built().name == old(encoder).built().name,
        final(encoder).built().attributes == old(encoder).built().attributes + level.written_attrs(),
        final(encoder).built().children == old(encoder).built().children,
{
    let ghost start = encoder.built();
    write_level_shape_attributes(level, encoder);
    write_level_sound_attributes(level, encoder);
    write_level_place_attributes(level, encoder);
    proof {
        assert(encoder.built().attributes =~= start.attributes + level.written_attrs());
    }
}

/// Writes the attributes of a room's name, size, wind, darkness, camera and alternative music.
fn write_level_shape_attributes(level: &Level, encoder: &mut MapEncoder)
    ensures
        final(encoder).built().name == old(encoder).built().name,
        final(encoder).built().attributes == old(encoder).built().attributes + level_shape_attrs(*level),
        final(encoder).built().children == old(encoder).built().children,
{
    let ghost start = encoder.built();
    encoder.written_attribute("name", &level.name);
    proof {
        assert(encoder.built().attributes =~= start.attributes + (attr_written("name"@, level.name)));
    }
    encoder.written_attribute("width", &level.width);
    proof {
        assert(encoder.built().attributes =~= start.attributes + (attr_written("name"@, level.name) + attr_written("width"@, level.width)));
    }
    encoder.written_attribute("height", &level.height);
    proof {
        assert(encoder.built().attributes =~= start.attributes + (attr_written("name"@, level.name) + attr_written("width"@, level.width) + attr_written("height"@, level.height)));
    }
    encoder.written_optional_attribute("windPattern", &level.wind_pattern);
    proof {
        assert(encoder.built().attributes =~= start.attributes + (attr_written("name"@, level.name) + attr_written("width"@, level.width) + attr_written("height"@, level.height) + opt_attr_written("windPattern"@, level.wind_pattern)));
    }
    encoder.written_optional_attribute("dark", &level.dark);
    proof {
        assert(encoder.built().attributes =~= start.attributes + (attr_written("name"@, level.name) + attr_written("width"@, level.width) + attr_written("height"@, level.height) + opt_attr_written("windPattern"@, level.wind_pattern) + opt_attr_written("dark"@, level.dark)));
    }
    encoder.written_optional_attribute("cameraOffsetX", &level.camera_offset_x);
    proof {
        assert(encoder.built().attributes =~= start.attributes + (attr_written("name"@, level.name) + attr_written("width"@, level.width) + attr_written("height"@, level.height) + opt_attr_written("windPattern"@, level.wind_pattern) + opt_attr_written("dark"@, level.dark) + opt_attr_written("cameraOffsetX"@, level.camera_offset_x)));
    }
    encoder.written_optional_attribute("cameraOffsetY", &level.camera_offset_y);
    proof {
        assert(encoder.built().attributes =~= start.attributes + (attr_written("name"@, level.name) + attr_written("width"@, level.width) + attr_written("height"@, level.height) + opt_attr_written("windPattern"@, level.wind_pattern) + opt_attr_written("dark"@, level.dark) + opt_attr_written("cameraOffsetX"@, level.camera_offset_x) + opt_attr_written("cameraOffsetY"@, level.camera_offset_y)));
    }
    encoder.written_optional_attribute("alt_music", &level.alt_music);
    proof {
        assert(encoder.built().attributes =~= start.attributes + (attr_written("name"@, level.name) + attr_written("width"@, level.width) + attr_written("height"@, level.height) + opt_attr_written("windPattern"@, level.wind_pattern) + opt_attr_written("dark"@, level.dark) + opt_attr_written("cameraOffsetX"@, level.camera_offset_x) + opt_attr_written("cameraOffsetY"@, level.camera_offset_y) + opt_attr_written("alt_music"@, level.alt_music)));
    }
}

/// Writes the attributes of a room's music and ambience.
fn write_level_sound_attributes(level: &Level, encoder: &mut MapEncoder)
    ensures
        final(encoder).built().name == old(encoder).built().name,
        final(encoder).built().attributes == old(encoder).built().attributes + level_sound_attrs(*level),
        final(encoder).built().children == old(encoder).built().children,
{
    let ghost start = encoder.built();
    encoder.written_optional_attribute("music", &level.music);
    proof {
        assert(encoder.built().attributes =~= start.attributes + (opt_attr_written("music"@, level.music)));
    }
    encoder.written_optional_attribute("musicLayer1", &level.music_layer_1);
    proof {
        assert(encoder.built().attributes =~= start.attributes + (opt_attr_written("music"@, level.music) + opt_attr_written("musicLayer1"@, level.music_layer_1)));
    }
    encoder.written_optional_attribute("musicLayer2", &level.music_layer_2);
    proof {
        assert(encoder.built().attributes =~= start.attributes + (opt_attr_written("music"@, level.music) + opt_attr_written("musicLayer1"@, level.music_layer_1) + opt_attr_written("musicLayer2"@, level.music_layer_2)));
    }
    encoder.written_optional_attribute("musicLayer3", &level.music_layer_3);
    proof {
        assert(encoder.built().attributes =~= start.attributes + (opt_attr_written("music"@, level.music) + opt_attr_written("musicLayer1"@, level.music_layer_1) + opt_attr_written("musicLayer2"@, level.music_layer_2) + opt_attr_written("musicLayer3"@, level.music_layer_3)));
    }
    encoder.written_optional_attribute("musicLayer4", &level.music_layer_4);
    proof {
        assert(encoder.built().attributes =~= start.attributes + (opt_attr_written("music"@, level.music) + opt_attr_written("musicLayer1"@, level.music_layer_1) + opt_attr_written("musicLayer2"@, level.music_layer_2) + opt_attr_written("musicLayer3"@, level.music_layer_3) + opt_attr_written("musicLayer4"@, level.music_layer_4)));
    }
    encoder.written_optional_attribute("musicProgress", &level.music_progress);
    proof {
        assert(encoder.built().attributes =~= start.attributes + (opt_attr_written("music"@, level.music) + opt_attr_written("musicLayer1"@, level.music_layer_1) + opt_attr_written("musicLayer2"@, level.music_layer_2) + opt_attr_written("musicLayer3"@, level.music_layer_3) + opt_attr_written("musicLayer4"@, level.music_layer_4) + opt_attr_written("musicProgress"@, level.music_progress)));
    }
    encoder.written_optional_attribute("ambience", &level.ambience);
    proof {
        assert(encoder.built().attributes =~= start.attributes + (opt_attr_written("music"@, level.music) + opt_attr_written("musicLayer1"@, level.music_layer_1) + opt_attr_written("musicLayer2"@, level.music_layer_2) + opt_attr_written("musicLayer3"@, level.music_layer_3) + opt_attr_written("musicLayer4"@, level.music_layer_4) + opt_attr_written("musicProgress"@, level.music_progress) + opt_attr_written("ambience"@, level.ambience)));
    }
    encoder.written_optional_attribute("ambienceProgress", &level.ambience_progress);
    proof {
        assert(encoder.built().attributes =~= start.attributes + (opt_attr_written("music"@, level.music) + opt_attr_written("musicLayer1"@, level.music_layer_1) + opt_attr_written("musicLayer2"@, level.music_layer_2) + opt_attr_written("musicLayer3"@, level.music_layer_3) + opt_attr_written("musicLayer4"@, level.music_layer_4) + opt_attr_written("musicProgress"@, level.music_progress) + opt_attr_written("ambience"@, level.ambience) + opt_attr_written("ambienceProgress"@, level.ambience_progress)));
    }
}

/// Writes the attributes of a room's flags, dash number and position.
fn write_level_place_attributes(level: &Level, encoder: &mut MapEncoder)
    ensures
        final(encoder).built().name == old(encoder).built().name,
        final(encoder).built().attributes == old(encoder).built().attributes + level_place_attrs(*level),
        final(encoder).built().children == old(encoder).built().children,
{
    let ghost start = encoder.built();
    encoder.written_optional_attribute("underwater", &level.underwater);
    proof {
        assert(encoder.built().attributes =~= start.attributes + (opt_attr_written("underwater"@, level.underwater)));
    }
    encoder.written_optional_attribute("space", &level.space);
    proof {
        assert(encoder.built().attributes =~= start.attributes + (opt_attr_written("underwater"@, level.underwater) + opt_attr_written("space"@, level.space)));
    }
    encoder.written_optional_attribute("disableDownTransition", &level.disable_down_transition);
    proof {
        assert(encoder.built().attributes =~= start.attributes + (opt_attr_written("underwater"@, level.underwater) + opt_attr_written("space"@, level.space) + opt_attr_written("disableDownTransition"@, level.disable_down_transition)));
    }
    encoder.written_optional_attribute("whisper", &level.whisper);
    proof {
        assert(encoder.built().attributes =~= start.attributes + (opt_attr_written("underwater"@, level.underwater) + opt_attr_written("space"@, level.space) + opt_attr_written("disableDownTransition"@, level.disable_down_transition) + opt_attr_written("whisper"@, level.whisper)));
    }
    encoder.written_optional_attribute("delayAltMusicFade", &level.delay_alt_music_fade);
    proof {
        assert(encoder.built().attributes =~= start.attributes + (opt_attr_written("underwater"@, level.underwater) + opt_attr_written("space"@, level.space) + opt_attr_written("disableDownTransition"@, level.disable_down_transition) + opt_attr_written("whisper"@, level.whisper) + opt_attr_written("delayAltMusicFade"@, level.delay_alt_music_fade)));
    }
    encoder.written_optional_attribute("enforceDashNumber", &level.enforce_dash_number);
    proof {
        assert(encoder.built().attributes =~= start.attributes + (opt_attr_written("underwater"@, level.underwater) + opt_attr_written("space"@, level.space) + opt_attr_written("disableDownTransition"@, level.disable_down_transition) + opt_attr_written("whisper"@, level.whisper) + opt_attr_written("delayAltMusicFade"@, level.delay_alt_music_fade) + opt_attr_written("enforceDashNumber"@, level.enforce_dash_number)));
    }
    encoder.written_attribute("x", &level.x);
    proof {
        assert(encoder.built().attributes =~= start.attributes + (opt_attr_written("underwater"@, level.underwater) + opt_attr_written("space"@, level.space) + opt_attr_written("disableDownTransition"@, level.disable_down_transition) + opt_attr_written("whisper"@, level.whisper) + opt_attr_written("delayAltMusicFade"@, level.delay_alt_music_fade) + opt_attr_written("enforceDashNumber"@, level.enforce_dash_number) + attr_written("x"@, level.x)));
    }
    encoder.written_attribute("y", &level.y);
    proof {
        assert(encoder.built().attributes =~= start.attributes + (opt_attr_written("underwater"@, level.underwater) + opt_attr_written("space"@, level.space) + opt_attr_written("disableDownTransition"@, level.disable_down_transition) + opt_attr_written("whisper"@, level.whisper) + opt_attr_written("delayAltMusicFade"@, level.delay_alt_music_fade) + opt_attr_written("enforceDashNumber"@, level.enforce_dash_number) + attr_written("x"@, level.x) + attr_written("y"@, level.y)));
    }
    encoder.written_attribute("c", &level.c);
    proof {
        assert(encoder.built().attributes =~= start.attributes + (opt_attr_written("underwater"@, level.underwater) + opt_attr_written("space"@, level.space) + opt_attr_written("disableDownTransition"@, level.disable_down_transition) + opt_attr_written("whisper"@, level.whisper) + opt_attr_written("delayAltMusicFade"@, level.delay_alt_music_fade) + opt_attr_written("enforceDashNumber"@, level.enforce_dash_number) + attr_written("x"@, level.x) + attr_written("y"@, level.y) + attr_written("c"@, level.c)));
    }
}

/// The triggers of a room.
#[derive(Debug)]
pub struct Triggers {
    pub offset_x: Float,
    pub offset_y: Float,
    pub triggers: Vec<DynMapElement>,
}

impl MapElement for Triggers {
    open spec fn element_name() -> Seq<char> {
        "triggers"@
    }

    fn name() -> (r: &'static str) {
        "triggers"
    }

    open spec fn fields_read(p: MapParser, x: Self) -> bool {
        &&& attr_read::<Float>(p, "offsetX"@, x.offset_x)
        &&& attr_read::<Float>(p, "offsetY"@, x.offset_y)
        &&& x.triggers@.len() == p.raw.children@.len()
        &&& forall|i: int| 0 <= i < x.triggers@.len() ==> p.parsed_any(i, #[trigger] x.triggers@[i])
    }

    open spec fn fields_ok(p: MapParser) -> bool {
        &&& attr_ok::<Float>(p, "offsetX"@)
        &&& attr_ok::<Float>(p, "offsetY"@)
    }

    open spec fn exact(p: MapParser) -> bool {
        forall|i: int|
            0 <= i < p.raw.children@.len() ==> !(p.registers(#[trigger] p.child_name(i)) && known_element_name(
                p.child_name(i),
            ))
    }

    open spec fn written_attrs(&self) -> Seq<AttrV> {
        attr_written("offsetX"@, self.offset_x)
            + attr_written("offsetY"@, self.offset_y)
    }

    open spec fn written_children(&self) -> nat {
        (self.triggers@.len()) as nat
    }

    fn from_raw(parser: MapParser) -> (r: Result<Self, MapElementParsingError>)
        decreases *parser.raw, 2int,
    {
        proof {
            let ghost ok = Self::fields_ok(parser);
            let ghost ex = Self::exact(parser);
        }
        proof {
            parser.lemma_searchable();
        }
        Ok(Triggers {
            offset_x: parser.get_attribute("offsetX")?,
            offset_y: parser.get_attribute("offsetY")?,
            triggers: parser.parse_any_element()?,
        })
    }

    fn to_raw(&self, encoder: &mut MapEncoder)
        decreases self, 0int,
    {
        let ghost first = encoder.built();
        encoder.attribute("offsetX", self.offset_x.to_encoded());
        encoder.attribute("offsetY", self.offset_y.to_encoded());
        let ghost start = encoder.built();
        proof {
            let ghost wa = self.written_attrs();
            let ghost wc = self.written_children();
            assert(start.attributes =~= first.attributes + self.written_attrs());
            assert(start.children.take(first.children.len() as int) =~= first.children);
        }
        for i in 0..self.triggers.len()
            invariant
                encoder.built().name == start.name,
                encoder.built().attributes == start.attributes,
                encoder.built().children.len() == start.children.len() + i,
                encoder.built().children.take(start.children.len() as int) == start.children,
        {
            proof {
                assert(decreases_to!(self => self.triggers@[i as int]));
            }
            let ghost mid = encoder.built();
            encode_dyn(encoder, &self.triggers[i]);
            proof {
                assert(encoder.built().children.take(start.children.len() as int) =~= mid.children.take(
                    start.children.len() as int,
                ));
            }
        }
    }
}

/// The foreground tiles of a room.
#[derive(Debug)]
pub struct FGTiles {
    pub offset_x: Float,
    pub offset_y: Float,
    pub tileset: ResolvableString,
    pub export_mode: Integer,
    pub inner_text: Option<String>,
}

impl MapElement for FGTiles {
    open spec fn element_name() -> Seq<char> {
        "fgtiles"@
    }

    fn name() -> (r: &'static str) {
        "fgtiles"
    }

    open spec fn fields_read(p: MapParser, x: Self) -> bool {
        &&& attr_read::<Float>(p, "offsetX"@, x.offset_x)
        &&& attr_read::<Float>(p, "offsetY"@, x.offset_y)
        &&& attr_read::<ResolvableString>(p, "tileset"@, x.tileset)
        &&& attr_read::<Integer>(p, "exportMode"@, x.export_mode)
        &&& opt_attr_read::<String>(p, "innerText"@, x.inner_text)
    }

    open spec fn fields_ok(p: MapParser) -> bool {
        &&& attr_ok::<Float>(p, "offsetX"@)
        &&& attr_ok::<Float>(p, "offsetY"@)
        &&& attr_ok::<ResolvableString>(p, "tileset"@)
        &&& attr_ok::<Integer>(p, "exportMode"@)
        &&& opt_attr_ok::<String>(p, "innerText"@)
    }

    open spec fn exact(p: MapParser) -> bool {
        true
    }

    open spec fn written_attrs(&self) -> Seq<AttrV> {
        attr_written("offsetX"@, self.offset_x)
            + attr_written("offsetY"@, self.offset_y)
            + attr_written("tileset"@, self.tileset)
            + attr_written("exportMode"@, self.export_mode)
            + opt_attr_written("innerText"@, self.inner_text)
    }

    open spec fn written_children(&self) -> nat {
        (0) as nat
    }

    fn from_raw(parser: MapParser) -> (r: Result<Self, MapElementParsingError>)
    {
        proof {
            let ghost ok = Self::fields_ok(parser);
            let ghost ex = Self::exact(parser);
        }
        proof {
            parser.lemma_searchable();
        }
        Ok(FGTiles {
            offset_x: parser.get_attribute("offsetX")?,
            offset_y: parser.get_attribute("offsetY")?,
            tileset: parser.get_attribute("tileset")?,
            export_mode: parser.get_attribute("exportMode")?,
            inner_text: parser.get_optional_attribute("innerText")?,
        })
    }

    fn to_raw(&self, encoder: &mut MapEncoder)
    {
        encoder.attribute("offsetX", self.offset_x.to_encoded());
        encoder.attribute("offsetY", self.offset_y.to_encoded());
        encoder.attribute("tileset", self.tileset.to_encoded());
        encoder.attribute("exportMode", self.export_mode.to_encoded());
        if let Some(v) = &self.inner_text {
            encoder.attribute("innerText", v.to_encoded());
        }
    }
}

/// The background tiles of a room.
#[derive(Debug)]
pub struct BGTiles {
    pub offset_x: Float,
    pub offset_y: Float,
    pub tileset: ResolvableString,
    pub export_mode: Integer,
}

impl MapElement for BGTiles {
    open spec fn element_name() -> Seq<char> {
        "bgtiles"@
    }

    fn name() -> (r: &'static str) {
        "bgtiles"
    }

    open spec fn fields_read(p: MapParser, x: Self) -> bool {
        &&& attr_read::<Float>(p, "offsetX"@, x.offset_x)
        &&& attr_read::<Float>(p, "offsetY"@, x.offset_y)
        &&& attr_read::<ResolvableString>(p, "tileset"@, x.tileset)
        &&& attr_read::<Integer>(p, "exportMode"@, x.export_mode)
    }

    open spec fn fields_ok(p: MapParser) -> bool {
        &&& attr_ok::<Float>(p, "offsetX"@)
        &&& attr_ok::<Float>(p, "offsetY"@)
        &&& attr_ok::<ResolvableString>(p, "tileset"@)
        &&& attr_ok::<Integer>(p, "exportMode"@)
    }

    open spec fn exact(p: MapParser) -> bool {
        true
    }

    open spec fn written_attrs(&self) -> Seq<AttrV> {
        attr_written("offsetX"@, self.offset_x)
            + attr_written("offsetY"@, self.offset_y)
            + attr_written("tileset"@, self.tileset)
            + attr_written("exportMode"@, self.export_mode)
    }

    open spec fn written_children(&self) -> nat {
        (0) as nat
    }

    fn from_raw(parser: MapParser) -> (r: Result<Self, MapElementParsingError>)
    {
        proof {
            let ghost ok = Self::fields_ok(parser);
            let ghost ex = Self::exact(parser);
        }
        proof {
            parser.lemma_searchable();
        }
        Ok(BGTiles {
            offset_x: parser.get_attribute("offsetX")?,
            offset_y: parser.get_attribute("offsetY")?,
            tileset: parser.get_attribute("tileset")?,
            export_mode: parser.get_attribute("exportMode")?,
        })
    }

    fn to_raw(&self, encoder: &mut MapEncoder)
    {
        encoder.attribute("offsetX", self.offset_x.to_encoded());
        encoder.attribute("offsetY", self.offset_y.to_encoded());
        encoder.attribute("tileset", self.tileset.to_encoded());
        encoder.attribute("exportMode", self.export_mode.to_encoded());
    }
}

/// The background decals of a room.
#[derive(Debug)]
pub struct BGDecals {
    pub offset_x: Float,
    pub offset_y: Float,
    pub decals: Vec<Decal>,
}

impl MapElement for BGDecals {
    open spec fn element_name() -> Seq<char> {
        "bgdecals"@
    }

    fn name() -> (r: &'static str) {
        "bgdecals"
    }

    open spec fn fields_read(p: MapParser, x: Self) -> bool {
        &&& attr_read::<Float>(p, "offsetX"@, x.offset_x)
        &&& attr_read::<Float>(p, "offsetY"@, x.offset_y)
        &&& children_read::<Decal>(p, x.decals@)
    }

    open spec fn fields_ok(p: MapParser) -> bool {
        &&& attr_ok::<Float>(p, "offsetX"@)
        &&& attr_ok::<Float>(p, "offsetY"@)
        &&& children_ok::<Decal>(p)
    }

    open spec fn exact(p: MapParser) -> bool {
        &&& children_exact::<Decal>(p)
    }

    open spec fn written_attrs(&self) -> Seq<AttrV> {
        attr_written("offsetX"@, self.offset_x)
            + attr_written("offsetY"@, self.offset_y)
    }

    open spec fn written_children(&self) -> nat {
        (self.decals@.len()) as nat
    }

    fn from_raw(parser: MapParser) -> (r: Result<Self, MapElementParsingError>)
    {
        proof {
            let ghost ok = Self::fields_ok(parser);
            let ghost ex = Self::exact(parser);
        }
        proof {
            parser.lemma_searchable();
        }
        Ok(BGDecals {
            offset_x: parser.get_attribute("offsetX")?,
            offset_y: parser.get_attribute("offsetY")?,
            decals: parser.parse_all_elements()?,
        })
    }

    fn to_raw(&self, encoder: &mut MapEncoder)
    {
        encoder.attribute("offsetX", self.offset_x.to_encoded());
        encoder.attribute("offsetY", self.offset_y.to_encoded());
        encoder.children(&self.decals);
    }
}

/// The foreground decals of a room.
#[derive(Debug)]
pub struct FGDecals {
    pub offset_x: Float,
    pub offset_y: Float,
    pub decals: Vec<Decal>,
}

impl MapElement for FGDecals {
    open spec fn element_name() -> Seq<char> {
        "fgdecals"@
    }

    fn name() -> (r: &'static str) {
        "fgdecals"
    }

    open spec fn fields_read(p: MapParser, x: Self) -> bool {
        &&& attr_read::<Float>(p, "offsetX"@, x.offset_x)
        &&& attr_read::<Float>(p, "offsetY"@, x.offset_y)
        &&& children_read::<Decal>(p, x.decals@)
    }

    open spec fn fields_ok(p: MapParser) -> bool {
        &&& attr_ok::<Float>(p, "offsetX"@)
        &&& attr_ok::<Float>(p, "offsetY"@)
        &&& children_ok::<Decal>(p)
    }

    open spec fn exact(p: MapParser) -> bool {
        &&& children_exact::<Decal>(p)
    }

    open spec fn written_attrs(&self) -> Seq<AttrV> {
        attr_written("offsetX"@, self.offset_x)
            + attr_written("offsetY"@, self.offset_y)
    }

    open spec fn written_children(&self) -> nat {
        (self.decals@.len()) as nat
    }

    fn from_raw(parser: MapParser) -> (r: Result<Self, MapElementParsingError>)
    {
        proof {
            let ghost ok = Self::fields_ok(parser);
            let ghost ex = Self::exact(parser);
        }
        proof {
            parser.lemma_searchable();
        }
        Ok(FGDecals {
            offset_x: parser.get_attribute("offsetX")?,
            offset_y: parser.get_attribute("offsetY")?,
            decals: parser.parse_all_elements()?,
        })
    }

    fn to_raw(&self, encoder: &mut MapEncoder)
    {
        encoder.attribute("offsetX", self.offset_x.to_encoded());
        encoder.attribute("offsetY", self.offset_y.to_encoded());
        encoder.children(&self.decals);
    }
}

/// A decal: a texture placed in a room.
#[derive(Debug, Clone)]
pub struct Decal {
    pub x: Float,
    pub y: Float,
    pub scale_x: Float,
    pub scale_y: Float,
    pub rotation: Option<Float>,
    pub texture: ResolvableString,
}

impl MapElement for Decal {
    open spec fn element_name() -> Seq<char> {
        "decal"@
    }

    fn name() -> (r: &'static str) {
        "decal"
    }

    open spec fn fields_read(p: MapParser, x: Self) -> bool {
        &&& attr_read::<Float>(p, "x"@, x.x)
        &&& attr_read::<Float>(p, "y"@, x.y)
        &&& attr_read::<Float>(p, "scaleX"@, x.scale_x)
        &&& attr_read::<Float>(p, "scaleY"@, x.scale_y)
        &&& opt_attr_read::<Float>(p, "rotation"@, x.rotation)
        &&& attr_read::<ResolvableString>(p, "texture"@, x.texture)
    }

    open spec fn fields_ok(p: MapParser) -> bool {
        &&& attr_ok::<Float>(p, "x"@)
        &&& attr_ok::<Float>(p, "y"@)
        &&& attr_ok::<Float>(p, "scaleX"@)
        &&& attr_ok::<Float>(p, "scaleY"@)
        &&& opt_attr_ok::<Float>(p, "rotation"@)
        &&& attr_ok::<ResolvableString>(p, "texture"@)
    }

    open spec fn exact(p: MapParser) -> bool {
        true
    }

    open spec fn written_attrs(&self) -> Seq<AttrV> {
        attr_written("x"@, self.x)
            + attr_written("y"@, self.y)
            + attr_written("scaleX"@, self.scale_x)
            + attr_written("scaleY"@, self.scale_y)
            + opt_attr_written("rotation"@, self.rotation)
            + attr_written("texture"@, self.texture)
    }

    open spec fn written_children(&self) -> nat {
        (0) as nat
    }

    fn from_raw(parser: MapParser) -> (r: Result<Self, MapElementParsingError>)
    {
        proof {
            let ghost ok = Self::fields_ok(parser);
            let ghost ex = Self::exact(parser);
        }
        proof {
            parser.lemma_searchable();
        }
        Ok(Decal {
            x: parser.get_attribute("x")?,
            y: parser.get_attribute("y")?,
            scale_x: parser.get_attribute("scaleX")?,
            scale_y: parser.get_attribute("scaleY")?,
            rotation: parser.get_optional_attribute("rotation")?,
            texture: parser.get_attribute("texture")?,
        })
    }

    fn to_raw(&self, encoder: &mut MapEncoder)
    {
        encoder.attribute("x", self.x.to_encoded());
        encoder.attribute("y", self.y.to_encoded());
        encoder.attribute("scaleX", self.scale_x.to_encoded());
        encoder.attribute("scaleY", self.scale_y.to_encoded());
        if let Some(v) = &self.rotation {
            encoder.attribute("rotation", v.to_encoded());
        }
        encoder.attribute("texture", self.texture.to_encoded());
    }
}

/// The background tile grid of a room.
#[derive(Debug)]
pub struct Background {
    pub offset_x: Option<Float>,
    pub offset_y: Option<Float>,
    pub inner_text: Option<String>,
}

impl MapElement for Background {
    open spec fn element_name() -> Seq<char> {
        "bg"@
    }

    fn name() -> (r: &'static str) {
        "bg"
    }

    open spec fn fields_read(p: MapParser, x: Self) -> bool {
        &&& opt_attr_read::<Float>(p, "offsetX"@, x.offset_x)
        &&& opt_attr_read::<Float>(p, "offsetY"@, x.offset_y)
        &&& opt_attr_read::<String>(p, "innerText"@, x.inner_text)
    }

    open spec fn fields_ok(p: MapParser) -> bool {
        &&& opt_attr_ok::<Float>(p, "offsetX"@)
        &&& opt_attr_ok::<Float>(p, "offsetY"@)
        &&& opt_attr_ok::<String>(p, "innerText"@)
    }

    open spec fn exact(p: MapParser) -> bool {
        true
    }

    open spec fn written_attrs(&self) -> Seq<AttrV> {
        opt_attr_written("offsetX"@, self.offset_x)
            + opt_attr_written("offsetY"@, self.offset_y)
            + opt_rle_written("innerText"@, self.inner_text)
    }

    open spec fn written_children(&self) -> nat {
        (0) as nat
    }

    fn from_raw(parser: MapParser) -> (r: Result<Self, MapElementParsingError>)
    {
        proof {
            let ghost ok = Self::fields_ok(parser);
            let ghost ex = Self::exact(parser);
        }
        proof {
            parser.lemma_searchable();
        }
        Ok(Background {
            offset_x: parser.get_optional_attribute("offsetX")?,
            offset_y: parser.get_optional_attribute("offsetY")?,
            inner_text: parser.get_optional_attribute("innerText")?,
        })
    }

    fn to_raw(&self, encoder: &mut MapEncoder)
    {
        if let Some(v) = &self.offset_x {
            encoder.attribute("offsetX", v.to_encoded());
        }
        if let Some(v) = &self.offset_y {
            encoder.attribute("offsetY", v.to_encoded());
        }
        if let Some(v) = &self.inner_text {
            encoder.attribute("innerText", EncodedVar::new_rle_str(v.as_str()));
        }
    }
}

/// The object tiles of a room.
#[derive(Debug)]
pub struct ObjTiles {
    pub offset_x: Option<Float>,
    pub offset_y: Option<Float>,
    pub tileset: ResolvableString,
    pub export_mode: Integer,
    pub inner_text: Option<String>,
}

impl MapElement for ObjTiles {
    open spec fn element_name() -> Seq<char> {
        "objtiles"@
    }

    fn name() -> (r: &'static str) {
        "objtiles"
    }

    open spec fn fields_read(p: MapParser, x: Self) -> bool {
        &&& opt_attr_read::<Float>(p, "offsetX"@, x.offset_x)
        &&& opt_attr_read::<Float>(p, "offsetY"@, x.offset_y)
        &&& attr_read::<ResolvableString>(p, "tileset"@, x.tileset)
        &&& attr_read::<Integer>(p, "exportMode"@, x.export_mode)
        &&& opt_attr_read::<String>(p, "innerText"@, x.inner_text)
    }

    open spec fn fields_ok(p: MapParser) -> bool {
        &&& opt_attr_ok::<Float>(p, "offsetX"@)
        &&& opt_attr_ok::<Float>(p, "offsetY"@)
        &&& attr_ok::<ResolvableString>(p, "tileset"@)
        &&& attr_ok::<Integer>(p, "exportMode"@)
        &&& opt_attr_ok::<String>(p, "innerText"@)
    }

    open spec fn exact(p: MapParser) -> bool {
        true
    }

    open spec fn written_attrs(&self) -> Seq<AttrV> {
        opt_attr_written("offsetX"@, self.offset_x)
            + opt_attr_written("offsetY"@, self.offset_y)
            + attr_written("tileset"@, self.tileset)
            + attr_written("exportMode"@, self.export_mode)
            + opt_attr_written("innerText"@, self.inner_text)
    }

    open spec fn written_children(&self) -> nat {
        (0) as nat
    }

    fn from_raw(parser: MapParser) -> (r: Result<Self, MapElementParsingError>)
    {
        proof {
            let ghost ok = Self::fields_ok(parser);
            let ghost ex = Self::exact(parser);
        }
        proof {
            parser.lemma_searchable();
        }
        Ok(ObjTiles {
            offset_x: parser.get_optional_attribute("offsetX")?,
            offset_y: parser.get_optional_attribute("offsetY")?,
            tileset: parser.get_attribute("tileset")?,
            export_mode: parser.get_attribute("exportMode")?,
            inner_text: parser.get_optional_attribute("innerText")?,
        })
    }

    fn to_raw(&self, encoder: &mut MapEncoder)
    {
        if let Some(v) = &self.offset_x {
            encoder.attribute("offsetX", v.to_encoded());
        }
        if let Some(v) = &self.offset_y {
            encoder.attribute("offsetY", v.to_encoded());
        }
        encoder.attribute("tileset", self.tileset.to_encoded());
        encoder.attribute("exportMode", self.export_mode.to_encoded());
        if let Some(v) = &self.inner_text {
            encoder.attribute("innerText", v.to_encoded());
        }
    }
}

/// The solid tile grid of a room.
#[derive(Debug)]
pub struct Solids {
    pub offset_x: Option<Float>,
    pub offset_y: Option<Float>,
    pub inner_text: Option<String>,
}

impl MapElement for Solids {
    open spec fn element_name() -> Seq<char> {
        "solids"@
    }

    fn name() -> (r: &'static str) {
        "solids"
    }

    open spec fn fields_read(p: MapParser, x: Self) -> bool {
        &&& opt_attr_read::<Float>(p, "offsetX"@, x.offset_x)
        &&& opt_attr_read::<Float>(p, "offsetY"@, x.offset_y)
        &&& opt_attr_read::<String>(p, "innerText"@, x.inner_text)
    }

    open spec fn fields_ok(p: MapParser) -> bool {
        &&& opt_attr_ok::<Float>(p, "offsetX"@)
        &&& opt_attr_ok::<Float>(p, "offsetY"@)
        &&& opt_attr_ok::<String>(p, "innerText"@)
    }

    open spec fn exact(p: MapParser) -> bool {
        true
    }

    open spec fn written_attrs(&self) -> Seq<AttrV> {
        opt_attr_written("offsetX"@, self.offset_x)
            + opt_attr_written("offsetY"@, self.offset_y)
            + opt_rle_written("innerText"@, self.inner_text)
    }

    open spec fn written_children(&self) -> nat {
        (0) as nat
    }

    fn from_raw(parser: MapParser) -> (r: Result<Self, MapElementParsingError>)
    {
        proof {
            let ghost ok = Self::fields_ok(parser);
            let ghost ex = Self::exact(parser);
        }
        proof {
            parser.lemma_searchable();
        }
        Ok(Solids {
            offset_x: parser.get_optional_attribute("offsetX")?,
            offset_y: parser.get_optional_attribute("offsetY")?,
            inner_text: parser.get_optional_attribute("innerText")?,
        })
    }

    fn to_raw(&self, encoder: &mut MapEncoder)
    {
        if let Some(v) = &self.offset_x {
            encoder.attribute("offsetX", v.to_encoded());
        }
        if let Some(v) = &self.offset_y {
            encoder.attribute("offsetY", v.to_encoded());
        }
        if let Some(v) = &self.inner_text {
            encoder.attribute("innerText", EncodedVar::new_rle_str(v.as_str()));
        }
    }
}

/// The entities of a room.
#[derive(Debug)]
pub struct Entities {
    pub offset_x: Option<Float>,
    pub offset_y: Option<Float>,
    pub entities: Vec<DynEntity>,
}

impl MapElement for Entities {
    open spec fn element_name() -> Seq<char> {
        "entities"@
    }

    fn name() -> (r: &'static str) {
        "entities"
    }

    open spec fn fields_read(p: MapParser, x: Self) -> bool {
        &&& opt_attr_read::<Float>(p, "offsetX"@, x.offset_x)
        &&& opt_attr_read::<Float>(p, "offsetY"@, x.offset_y)
        &&& x.entities@.len() == p.raw.children@.len()
        &&& forall|i: int| 0 <= i < x.entities@.len() ==> p.parsed_entity(i, #[trigger] x.entities@[i])
    }

    open spec fn fields_ok(p: MapParser) -> bool {
        &&& opt_attr_ok::<Float>(p, "offsetX"@)
        &&& opt_attr_ok::<Float>(p, "offsetY"@)
    }

    open spec fn exact(p: MapParser) -> bool {
        forall|i: int|
            0 <= i < p.raw.children@.len() ==> !(p.registers(#[trigger] p.child_name(i)) && known_entity_name(
                p.child_name(i),
            ))
    }

    open spec fn written_attrs(&self) -> Seq<AttrV> {
        opt_attr_written("offsetX"@, self.offset_x)
            + opt_attr_written("offsetY"@, self.offset_y)
    }

    open spec fn written_children(&self) -> nat {
        (self.entities@.len()) as nat
    }

    fn from_raw(parser: MapParser) -> (r: Result<Self, MapElementParsingError>)
    {
        proof {
            let ghost ok = Self::fields_ok(parser);
            let ghost ex = Self::exact(parser);
        }
        proof {
            parser.lemma_searchable();
        }
        Ok(Entities {
            offset_x: parser.get_optional_attribute("offsetX")?,
            offset_y: parser.get_optional_attribute("offsetY")?,
            entities: parser.parse_any_entity()?,
        })
    }

    fn to_raw(&self, encoder: &mut MapEncoder)
    {
        if let Some(v) = &self.offset_x {
            encoder.attribute("offsetX", v.to_encoded());
        }
        if let Some(v) = &self.offset_y {
            encoder.attribute("offsetY", v.to_encoded());
        }
        let ghost start = encoder.built();
        for i in 0..self.entities.len()
            invariant
                encoder.built().name == start.name,
                encoder.built().attributes == start.attributes,
                encoder.built().children.len() == start.children.len() + i,
                encoder.built().children.take(start.children.len() as int) == start.children,
        {
            let ghost mid = encoder.built();
            encode_dyn_entity(encoder, &self.entities[i]);
            proof {
                assert(encoder.built().children.take(start.children.len() as int) =~= mid.children.take(
                    start.children.len() as int,
                ));
            }
        }
    }
}

/// Whether `x` is the first `levels` child of `p`, read.
pub open spec fn levels_child_read(p: MapParser, x: Levels) -> bool {
    &&& !p.no_child_named(Levels::element_name())
    &&& forall|i: int| #[trigger] p.is_first_named(i, Levels::element_name()) ==> Levels::fields_read(p.child_at(i), x)
}

/// Whether `p` has a `levels` child, and its first one reads.
pub open spec fn levels_child_ok(p: MapParser) -> bool {
    &&& !p.no_child_named(Levels::element_name())
    &&& forall|i: int| #[trigger] p.is_first_named(i, Levels::element_name()) ==> Levels::fields_ok(p.child_at(i))
}

/// Whether the first `levels` child of `p`, if any, needs nothing beyond
/// what its fields need.
pub open spec fn levels_child_exact(p: MapParser) -> bool {
    forall|i: int| #[trigger] p.is_first_named(i, Levels::element_name()) ==> Levels::exact(p.child_at(i))
}

/// Whether the first `triggers` child of `p`, if any, needs nothing beyond
/// what its fields need.
pub open spec fn opt_triggers_exact(p: MapParser) -> bool {
    forall|i: int| #[trigger] p.is_first_named(i, Triggers::element_name()) ==> Triggers::exact(p.child_at(i))
}

/// Whether every `level` child of `p` needs nothing beyond what its fields need.
pub open spec fn level_children_exact(p: MapParser) -> bool {
    forall|i: int|
        0 <= i < p.raw.children@.len() && #[trigger] p.child_name(i) == Level::element_name() ==> Level::exact(
            p.child_at(i),
        )
}

/// What reading the child of `p` at `i` as [Levels] gives `r`.
pub open spec fn levels_outcome(p: MapParser, i: int, r: Result<Levels, MapElementParsingError>) -> bool {
    &&& r matches Ok(x) ==> Levels::fields_read(p.child_at(i), x)
    &&& !Levels::fields_ok(p.child_at(i)) ==> r is Err
    &&& Levels::exact(p.child_at(i)) && Levels::fields_ok(p.child_at(i)) ==> r is Ok
}

/// Whether `x` is the first `triggers` child of `p`, read, or `None` where
/// there is none.
pub open spec fn opt_triggers_read(p: MapParser, x: Option<Triggers>) -> bool {
    match x {
        Some(t) => !p.no_child_named(Triggers::element_name()) && forall|i: int| #[trigger]
            p.is_first_named(i, Triggers::element_name()) ==> Triggers::fields_read(p.child_at(i), t),
        None => p.no_child_named(Triggers::element_name()),
    }
}

/// Whether the first `triggers` child of `p`, if any, reads.
pub open spec fn opt_triggers_ok(p: MapParser) -> bool {
    forall|i: int| #[trigger] p.is_first_named(i, Triggers::element_name()) ==> Triggers::fields_ok(p.child_at(i))
}

/// What reading the child of `p` at `i` as [Triggers] gives `r`.
pub open spec fn triggers_outcome(p: MapParser, i: int, r: Result<Option<Triggers>, MapElementParsingError>) -> bool {
    &&& match r {
        Ok(Some(x)) => Triggers::fields_read(p.child_at(i), x),
        Ok(None) => false,
        Err(_) => true,
    }
    &&& !Triggers::fields_ok(p.child_at(i)) ==> r is Err
    &&& Triggers::exact(p.child_at(i)) && Triggers::fields_ok(p.child_at(i)) ==> r is Ok
}

/// Whether `xs` are the `level` children of `p`, read, in order.
pub open spec fn level_children_read(p: MapParser, xs: Seq<Level>) -> bool {
    &&& xs.len() == named_count(elements_view(p.raw.children@), p.lookup.strings(), Level::element_name())
    &&& forall|k: int| 0 <= k < xs.len() ==> level_read_from_nth_child(p, k, #[trigger] xs[k])
}

/// Whether `x` is what the `level` child of `p` that has `k` such children
/// before it reads as.
pub open spec fn level_read_from_nth_child(p: MapParser, k: int, x: Level) -> bool {
    exists|i: int|
        0 <= i < p.raw.children@.len() && #[trigger] p.child_name(i) == Level::element_name() && named_count(
            elements_view(p.raw.children@).take(i),
            p.lookup.strings(),
            Level::element_name(),
        ) == k && Level::fields_read(p.child_at(i), x)
}

/// Whether every `level` child of `p` reads.
pub open spec fn level_children_ok(p: MapParser) -> bool {
    forall|i: int|
        0 <= i < p.raw.children@.len() && #[trigger] p.child_name(i) == Level::element_name() ==> Level::fields_ok(
            p.child_at(i),
        )
}

/// The child `levels` of the element `parser` reads: the first child of that
/// name, or an error where there is none.
pub(crate) fn levels_of(parser: &MapParser) -> (r: Result<Levels, MapElementParsingError>)
    requires
        parser.valid(),
    ensures
        parser.no_child_named(Levels::element_name()) ==> (r matches Err(
            MapElementParsingError::NoMatchingElementFound { expected, found },
        ) && expected@ == Levels::element_name() && found@ == parser.own_name()),
        forall|i: int| #[trigger] parser.is_first_named(i, Levels::element_name()) ==> levels_outcome(*parser, i, r),
        !parser.no_child_named(Levels::element_name()) ==> exists|i: int|
            parser.is_first_named(i, Levels::element_name()),
    decreases *parser.raw, 1int,
{
    match parser.child_index(Levels::name()) {
        Some(i) => {
            proof {
                assert(decreases_to!(*parser.raw => parser.raw.children@[i as int]));
                assert(parser.is_first_named(i as int, Levels::element_name()));
                assert forall|k: int| #[trigger] parser.is_first_named(k, Levels::element_name()) implies k == i by {
                    if k < i {
                        assert(parser.child_name(k) != Levels::element_name());
                    } else if k > i {
                        assert(parser.child_name(i as int) != Levels::element_name());
                    }
                }
            }
            Levels::from_raw(parser.child_parser(i))
        },
        None => Err(
            MapElementParsingError::NoMatchingElementFound {
                expected: Levels::name(),
                found: parser.raw.name.to_string(parser.lookup).to_owned(),
            },
        ),
    }
}

/// The child `triggers` of the element `parser` reads, if it has one.
pub(crate) fn triggers_of(parser: &MapParser) -> (r: Result<Option<Triggers>, MapElementParsingError>)
    requires
        parser.valid(),
    ensures
        parser.no_child_named(Triggers::element_name()) ==> r matches Ok(None),
        forall|i: int| #[trigger]
            parser.is_first_named(i, Triggers::element_name()) ==> triggers_outcome(*parser, i, r),
        !parser.no_child_named(Triggers::element_name()) ==> exists|i: int|
            parser.is_first_named(i, Triggers::element_name()),
    decreases *parser.raw, 1int,
{
    match parser.child_index(Triggers::name()) {
        Some(i) => {
            proof {
                assert(decreases_to!(*parser.raw => parser.raw.children@[i as int]));
                assert(parser.is_first_named(i as int, Triggers::element_name()));
                assert forall|k: int| #[trigger] parser.is_first_named(k, Triggers::element_name()) implies k == i by {
                    if k < i {
                        assert(parser.child_name(k) != Triggers::element_name());
                    } else if k > i {
                        assert(parser.child_name(i as int) != Triggers::element_name());
                    }
                }
            }
            match Triggers::from_raw(parser.child_parser(i)) {
                Ok(t) => Ok(Some(t)),
                Err(e) => Err(e),
            }
        },
        None => Ok(None),
    }
}

/// Every child `level` of the element `parser` reads, stopping at the first error.
fn levels_vec(parser: &MapParser) -> (r: Result<Vec<Level>, MapElementParsingError>)
    requires
        parser.valid(),
    ensures
        r matches Ok(v) ==> level_children_read(*parser, v@),
        !level_children_ok(*parser) ==> r is Err,
        level_children_exact(*parser) && level_children_ok(*parser) ==> r is Ok,
    decreases *parser.raw, 1int,
{
    let ghost kids = elements_view(parser.raw.children@);
    let ghost table = parser.lookup.strings();
    proof {
        crate::maps::lemma_elements_view(parser.raw.children@);
        assert(kids.take(0) =~= Seq::<ElementV>::empty());
    }
    let mut out: Vec<Level> = Vec::new();
    for i in 0..parser.raw.children.len()
        invariant
            parser.valid(),
            kids == elements_view(parser.raw.children@),
            table == parser.lookup.strings(),
            kids.len() == parser.raw.children@.len(),
            forall|j: int| 0 <= j < kids.len() ==> #[trigger] kids[j] == element_view(parser.raw.children@[j]),
            out@.len() == named_count(kids.take(i as int), table, Level::element_name()),
            forall|k: int| 0 <= k < out@.len() ==> level_read_from_nth_child(*parser, k, #[trigger] out@[k]),
            forall|j: int|
                0 <= j < i && #[trigger] parser.child_name(j) == Level::element_name() ==> Level::fields_ok(
                    parser.child_at(j),
                ),
    {
        proof {
            assert(kids.take(i + 1).drop_last() =~= kids.take(i as int));
            assert(kids.take(i + 1).last() == element_view(parser.raw.children@[i as int]));
        }
        if parser.child_named(i, Level::name()) {
            proof {
                assert(decreases_to!(*parser.raw => parser.raw.children@[i as int]));
            }
            let ghost before = out@;
            let cp = parser.child_parser(i);
            proof {
                assert(parser.child_name(i as int) == Level::element_name());
            }
            match Level::from_raw(cp) {
                Ok(l) => {
                    out.push(l);
                    proof {
                        assert(level_read_from_nth_child(*parser, before.len() as int, out@[before.len() as int]));
                        assert forall|k: int| 0 <= k < out@.len() implies level_read_from_nth_child(
                            *parser,
                            k,
                            #[trigger] out@[k],
                        ) by {
                            if k < before.len() {
                                assert(out@[k] == before[k]);
                            }
                        }
                    }
                },
                Err(e) => {
                    proof {
                        assert(!level_children_ok(*parser) || !level_children_exact(*parser));
                    }
                    return Err(e);
                },
            }
        } else {
            proof {
                assert(parser.child_name(i as int) != Level::element_name());
            }
        }
    }
    proof {
        assert(kids.take(kids.len() as int) =~= kids);
    }
    Ok(out)
}

/// Writes a room as a child of the element `encoder` builds.
pub(crate) fn encode_level(encoder: &mut MapEncoder, value: &Level)
    ensures
        final(encoder).built().name == old(encoder).built().name,
        final(encoder).built().attributes == old(encoder).built().attributes,
        final(encoder).built().children.len() == old(encoder).built().children.len() + 1,
        final(encoder).built().children.take(old(encoder).built().children.len() as int) == old(
            encoder,
        ).built().children,
    decreases value, 1int,
{
    let name = encoder.name_index(Level::name());
    let mut fork = encoder.fork(name);
    value.to_raw(&mut fork);
    let child = fork.resolve();
    encoder.push_child(child);
}

/// Writes the rooms as a child of the element `encoder` builds.
pub(crate) fn encode_levels(encoder: &mut MapEncoder, value: &Levels)
    ensures
        final(encoder).built().name == old(encoder).built().name,
        final(encoder).built().attributes == old(encoder).built().attributes,
        final(encoder).built().children.len() == old(encoder).built().children.len() + 1,
        final(encoder).built().children.take(old(encoder).built().children.len() as int) == old(
            encoder,
        ).built().children,
    decreases value, 1int,
{
    let name = encoder.name_index(Levels::name());
    let mut fork = encoder.fork(name);
    value.to_raw(&mut fork);
    let child = fork.resolve();
    encoder.push_child(child);
}

/// Writes the triggers of a room as a child of the element `encoder` builds.
pub(crate) fn encode_triggers(encoder: &mut MapEncoder, value: &Triggers)
    ensures
        final(encoder).built().name == old(encoder).built().name,
        final(encoder).built().attributes == old(encoder).built().attributes,
        final(encoder).built().children.len() == old(encoder).built().children.len() + 1,
        final(encoder).built().children.take(old(encoder).built().children.len() as int) == old(
            encoder,
        ).built().children,
    decreases value, 1int,
{
    let name = encoder.name_index(Triggers::name());
    let mut fork = encoder.fork(name);
    value.to_raw(&mut fork);
    let child = fork.resolve();
    encoder.push_child(child);
}

/// Writes the root of a map as a child of the element `encoder` builds.
pub(crate) fn encode_root(encoder: &mut MapEncoder, value: &MapRoot)
    ensures
        final(encoder).built().name == old(encoder).built().name,
        final(encoder).built().attributes == old(encoder).built().attributes,
        final(encoder).built().children.len() == old(encoder).built().children.len() + 1,
        final(encoder).built().children.take(old(encoder).built().children.len() as int) == old(
            encoder,
        ).built().children,
    decreases value, 1int,
{
    let name = encoder.name_index(MapRoot::name());
    let mut fork = encoder.fork(name);
    value.to_raw(&mut fork);
    let child = fork.resolve();
    encoder.push_child(child);
}

} // verus!

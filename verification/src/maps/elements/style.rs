//! The backgrounds and foregrounds of a map.
use vstd::prelude::*;

use crate::maps::encoder::MapEncoder;
use crate::maps::lookup::ResolvableString;
use crate::maps::parser::{
    attr_ok, attr_read, attr_written, child_exact, child_ok, children_exact, child_read, children_ok, children_read, opt_attr_ok, opt_attr_read,
    opt_attr_written, MapElement, MapElementParsingError, MapParser, ToEncodedVar,
};
use crate::maps::AttrV;
use crate::utils::num::Float;

verus! {

#[derive(Debug)]
pub struct Styles {
    pub background: Backgrounds,
    pub foreground: Foregrounds,
}

impl MapElement for Styles {
    open spec fn element_name() -> Seq<char> {
        "Style"@
    }

    fn name() -> (r: &'static str) {
        "Style"
    }

    open spec fn fields_read(p: MapParser, x: Self) -> bool {
        &&& child_read::<Backgrounds>(p, x.background)
        &&& child_read::<Foregrounds>(p, x.foreground)
    }

    open spec fn fields_ok(p: MapParser) -> bool {
        &&& child_ok::<Backgrounds>(p)
        &&& child_ok::<Foregrounds>(p)
    }

    open spec fn exact(p: MapParser) -> bool {
        &&& child_exact::<Backgrounds>(p)
        &&& child_exact::<Foregrounds>(p)
    }

    open spec fn written_attrs(&self) -> Seq<AttrV> {
        Seq::empty()
    }

    open spec fn written_children(&self) -> nat {
        (1 + 1) as nat
    }

    fn from_raw(parser: MapParser) -> (r: Result<Self, MapElementParsingError>) {
        proof {
            let ghost ok = Self::fields_ok(parser);
            let ghost ex = Self::exact(parser);
        }
        Ok(Styles { background: parser.parse_element()?, foreground: parser.parse_element()? })
    }

    fn to_raw(&self, encoder: &mut MapEncoder) {
        encoder.child(&self.background);
        encoder.child(&self.foreground);
    }
}

#[derive(Debug)]
pub struct Backgrounds {
    pub parallax_elements: Vec<Parallax>,
    pub snow_bg: bool,
}

impl MapElement for Backgrounds {
    open spec fn element_name() -> Seq<char> {
        "Backgrounds"@
    }

    fn name() -> (r: &'static str) {
        "Backgrounds"
    }

    open spec fn fields_read(p: MapParser, x: Self) -> bool {
        &&& children_read::<Parallax>(p, x.parallax_elements@)
        &&& x.snow_bg == !p.no_child_named(SnowBG::element_name())
    }

    open spec fn fields_ok(p: MapParser) -> bool {
        children_ok::<Parallax>(p)
    }

    open spec fn exact(p: MapParser) -> bool {
        children_exact::<Parallax>(p)
    }

    open spec fn written_attrs(&self) -> Seq<AttrV> {
        Seq::empty()
    }

    open spec fn written_children(&self) -> nat {
        self.parallax_elements@.len() + if self.snow_bg {
            1nat
        } else {
            0nat
        }
    }

    fn from_raw(parser: MapParser) -> (r: Result<Self, MapElementParsingError>) {
        proof {
            let ghost ok = Self::fields_ok(parser);
            let ghost ex = Self::exact(parser);
        }
        Ok(
            Backgrounds {
                parallax_elements: parser.parse_all_elements()?,
                snow_bg: parser.parse_element::<SnowBG>().is_ok(),
            },
        )
    }

    fn to_raw(&self, encoder: &mut MapEncoder) {
        encoder.children(&self.parallax_elements);
        if self.snow_bg {
            encoder.child(&SnowBG);
        }
    }
}

#[derive(Debug)]
pub struct Foregrounds {
    pub parallax_elements: Vec<Parallax>,
    pub snow_fg: bool,
}

impl MapElement for Foregrounds {
    open spec fn element_name() -> Seq<char> {
        "Foregrounds"@
    }

    fn name() -> (r: &'static str) {
        "Foregrounds"
    }

    open spec fn fields_read(p: MapParser, x: Self) -> bool {
        &&& children_read::<Parallax>(p, x.parallax_elements@)
        &&& x.snow_fg == !p.no_child_named(SnowFG::element_name())
    }

    open spec fn fields_ok(p: MapParser) -> bool {
        children_ok::<Parallax>(p)
    }

    open spec fn exact(p: MapParser) -> bool {
        children_exact::<Parallax>(p)
    }

    open spec fn written_attrs(&self) -> Seq<AttrV> {
        Seq::empty()
    }

    open spec fn written_children(&self) -> nat {
        self.parallax_elements@.len() + if self.snow_fg {
            1nat
        } else {
            0nat
        }
    }

    fn from_raw(parser: MapParser) -> (r: Result<Self, MapElementParsingError>) {
        proof {
            let ghost ok = Self::fields_ok(parser);
            let ghost ex = Self::exact(parser);
        }
        Ok(
            Foregrounds {
                parallax_elements: parser.parse_all_elements()?,
                snow_fg: parser.parse_element::<SnowFG>().is_ok(),
            },
        )
    }

    fn to_raw(&self, encoder: &mut MapEncoder) {
        if self.snow_fg {
            encoder.child(&SnowFG);
        }
        encoder.children(&self.parallax_elements);
    }
}

#[derive(Debug)]
pub struct Parallax {
    pub blend_mode: Option<ResolvableString>,
    pub texture: ResolvableString,
    pub x: Float,
    pub y: Float,
    pub scroll_x: Float,
    pub scroll_y: Float,
    pub loopx: bool,
    pub loopy: bool,
    pub speed_x: Option<Float>,
    pub speed_y: Option<Float>,
    pub color: Option<ResolvableString>,
    pub alpha: Option<Float>,
}

impl MapElement for Parallax {
    open spec fn element_name() -> Seq<char> {
        "parallax"@
    }

    fn name() -> (r: &'static str) {
        "parallax"
    }

    open spec fn fields_read(p: MapParser, x: Self) -> bool {
        &&& opt_attr_read::<ResolvableString>(p, "blendmode"@, x.blend_mode)
        &&& attr_read::<ResolvableString>(p, "texture"@, x.texture)
        &&& attr_read::<Float>(p, "x"@, x.x)
        &&& attr_read::<Float>(p, "y"@, x.y)
        &&& attr_read::<Float>(p, "scrollx"@, x.scroll_x)
        &&& attr_read::<Float>(p, "scrolly"@, x.scroll_y)
        &&& attr_read::<bool>(p, "loopx"@, x.loopx)
        &&& attr_read::<bool>(p, "loopy"@, x.loopy)
        &&& opt_attr_read::<Float>(p, "speedx"@, x.speed_x)
        &&& opt_attr_read::<Float>(p, "speedy"@, x.speed_y)
        &&& opt_attr_read::<ResolvableString>(p, "color"@, x.color)
        &&& opt_attr_read::<Float>(p, "alpha"@, x.alpha)
    }

    open spec fn fields_ok(p: MapParser) -> bool {
        &&& opt_attr_ok::<ResolvableString>(p, "blendmode"@)
        &&& attr_ok::<ResolvableString>(p, "texture"@)
        &&& attr_ok::<Float>(p, "x"@)
        &&& attr_ok::<Float>(p, "y"@)
        &&& attr_ok::<Float>(p, "scrollx"@)
        &&& attr_ok::<Float>(p, "scrolly"@)
        &&& attr_ok::<bool>(p, "loopx"@)
        &&& attr_ok::<bool>(p, "loopy"@)
        &&& opt_attr_ok::<Float>(p, "speedx"@)
        &&& opt_attr_ok::<Float>(p, "speedy"@)
        &&& opt_attr_ok::<ResolvableString>(p, "color"@)
        &&& opt_attr_ok::<Float>(p, "alpha"@)
    }

    open spec fn exact(p: MapParser) -> bool {
        true
    }

    open spec fn written_attrs(&self) -> Seq<AttrV> {
        opt_attr_written("blendmode"@, self.blend_mode)
            + attr_written("texture"@, self.texture)
            + attr_written("x"@, self.x)
            + attr_written("y"@, self.y)
            + attr_written("scrollx"@, self.scroll_x)
            + attr_written("scrolly"@, self.scroll_y)
            + attr_written("loopx"@, self.loopx)
            + attr_written("loopy"@, self.loopy)
            + opt_attr_written("speedx"@, self.speed_x)
            + opt_attr_written("speedy"@, self.speed_y)
            + opt_attr_written("color"@, self.color)
            + opt_attr_written("alpha"@, self.alpha)
    }

    open spec fn written_children(&self) -> nat {
        (0) as nat
    }

    fn from_raw(parser: MapParser) -> (r: Result<Self, MapElementParsingError>) {
        proof {
            let ghost ok = Self::fields_ok(parser);
            let ghost ex = Self::exact(parser);
        }
        proof {
            parser.lemma_searchable();
        }
        Ok(
            Parallax {
                blend_mode: parser.get_optional_attribute("blendmode")?,
                texture: parser.get_attribute("texture")?,
                x: parser.get_attribute("x")?,
                y: parser.get_attribute("y")?,
                scroll_x: parser.get_attribute("scrollx")?,
                scroll_y: parser.get_attribute("scrolly")?,
                loopx: parser.get_attribute("loopx")?,
                loopy: parser.get_attribute("loopy")?,
                speed_x: parser.get_optional_attribute("speedx")?,
                speed_y: parser.get_optional_attribute("speedy")?,
                color: parser.get_optional_attribute("color")?,
                alpha: parser.get_optional_attribute("alpha")?,
            },
        )
    }

    fn to_raw(&self, encoder: &mut MapEncoder) {
        let ghost start = encoder.built();
        proof {
            let ghost wa = self.written_attrs();
            let ghost wc = self.written_children();
        }
        encoder.written_optional_attribute("blendmode", &self.blend_mode);
        proof {
            assert(encoder.built().attributes =~= start.attributes + (opt_attr_written("blendmode"@, self.blend_mode)));
        }
        encoder.written_attribute("texture", &self.texture);
        proof {
            assert(encoder.built().attributes =~= start.attributes + (opt_attr_written("blendmode"@, self.blend_mode) + attr_written("texture"@, self.texture)));
        }
        encoder.written_attribute("x", &self.x);
        proof {
            assert(encoder.built().attributes =~= start.attributes + (opt_attr_written("blendmode"@, self.blend_mode) + attr_written("texture"@, self.texture) + attr_written("x"@, self.x)));
        }
        encoder.written_attribute("y", &self.y);
        proof {
            assert(encoder.built().attributes =~= start.attributes + (opt_attr_written("blendmode"@, self.blend_mode) + attr_written("texture"@, self.texture) + attr_written("x"@, self.x) + attr_written("y"@, self.y)));
        }
        encoder.written_attribute("scrollx", &self.scroll_x);
        proof {
            assert(encoder.built().attributes =~= start.attributes + (opt_attr_written("blendmode"@, self.blend_mode) + attr_written("texture"@, self.texture) + attr_written("x"@, self.x) + attr_written("y"@, self.y) + attr_written("scrollx"@, self.scroll_x)));
        }
        encoder.written_attribute("scrolly", &self.scroll_y);
        proof {
            assert(encoder.built().attributes =~= start.attributes + (opt_attr_written("blendmode"@, self.blend_mode) + attr_written("texture"@, self.texture) + attr_written("x"@, self.x) + attr_written("y"@, self.y) + attr_written("scrollx"@, self.scroll_x) + attr_written("scrolly"@, self.scroll_y)));
        }
        encoder.written_attribute("loopx", &self.loopx);
        proof {
            assert(encoder.built().attributes =~= start.attributes + (opt_attr_written("blendmode"@, self.blend_mode) + attr_written("texture"@, self.texture) + attr_written("x"@, self.x) + attr_written("y"@, self.y) + attr_written("scrollx"@, self.scroll_x) + attr_written("scrolly"@, self.scroll_y) + attr_written("loopx"@, self.loopx)));
        }
        encoder.written_attribute("loopy", &self.loopy);
        proof {
            assert(encoder.built().attributes =~= start.attributes + (opt_attr_written("blendmode"@, self.blend_mode) + attr_written("texture"@, self.texture) + attr_written("x"@, self.x) + attr_written("y"@, self.y) + attr_written("scrollx"@, self.scroll_x) + attr_written("scrolly"@, self.scroll_y) + attr_written("loopx"@, self.loopx) + attr_written("loopy"@, self.loopy)));
        }
        encoder.written_optional_attribute("speedx", &self.speed_x);
        proof {
            assert(encoder.built().attributes =~= start.attributes + (opt_attr_written("blendmode"@, self.blend_mode) + attr_written("texture"@, self.texture) + attr_written("x"@, self.x) + attr_written("y"@, self.y) + attr_written("scrollx"@, self.scroll_x) + attr_written("scrolly"@, self.scroll_y) + attr_written("loopx"@, self.loopx) + attr_written("loopy"@, self.loopy) + opt_attr_written("speedx"@, self.speed_x)));
        }
        encoder.written_optional_attribute("speedy", &self.speed_y);
        proof {
            assert(encoder.built().attributes =~= start.attributes + (opt_attr_written("blendmode"@, self.blend_mode) + attr_written("texture"@, self.texture) + attr_written("x"@, self.x) + attr_written("y"@, self.y) + attr_written("scrollx"@, self.scroll_x) + attr_written("scrolly"@, self.scroll_y) + attr_written("loopx"@, self.loopx) + attr_written("loopy"@, self.loopy) + opt_attr_written("speedx"@, self.speed_x) + opt_attr_written("speedy"@, self.speed_y)));
        }
        encoder.written_optional_attribute("color", &self.color);
        proof {
            assert(encoder.built().attributes =~= start.attributes + (opt_attr_written("blendmode"@, self.blend_mode) + attr_written("texture"@, self.texture) + attr_written("x"@, self.x) + attr_written("y"@, self.y) + attr_written("scrollx"@, self.scroll_x) + attr_written("scrolly"@, self.scroll_y) + attr_written("loopx"@, self.loopx) + attr_written("loopy"@, self.loopy) + opt_attr_written("speedx"@, self.speed_x) + opt_attr_written("speedy"@, self.speed_y) + opt_attr_written("color"@, self.color)));
        }
        encoder.written_optional_attribute("alpha", &self.alpha);
        proof {
            assert(encoder.built().attributes =~= start.attributes + (opt_attr_written("blendmode"@, self.blend_mode) + attr_written("texture"@, self.texture) + attr_written("x"@, self.x) + attr_written("y"@, self.y) + attr_written("scrollx"@, self.scroll_x) + attr_written("scrolly"@, self.scroll_y) + attr_written("loopx"@, self.loopx) + attr_written("loopy"@, self.loopy) + opt_attr_written("speedx"@, self.speed_x) + opt_attr_written("speedy"@, self.speed_y) + opt_attr_written("color"@, self.color) + opt_attr_written("alpha"@, self.alpha)));
        }
        proof {
            assert(encoder.built().children.take(start.children.len() as int) =~= start.children);
        }
    }
}

#[derive(Debug, Clone, Copy, PartialEq, Eq, Structural)]
pub struct SnowBG;

impl MapElement for SnowBG {
    open spec fn element_name() -> Seq<char> {
        "snowBg"@
    }

    fn name() -> (r: &'static str) {
        "snowBg"
    }

    open spec fn fields_read(p: MapParser, x: Self) -> bool {
        true
    }

    open spec fn fields_ok(p: MapParser) -> bool {
        true
    }

    open spec fn exact(p: MapParser) -> bool {
        true
    }

    open spec fn written_attrs(&self) -> Seq<AttrV> {
        Seq::empty()
    }

    open spec fn written_children(&self) -> nat {
        (0) as nat
    }

    fn from_raw(parser: MapParser) -> (r: Result<Self, MapElementParsingError>) {
        proof {
            let ghost ok = Self::fields_ok(parser);
            let ghost ex = Self::exact(parser);
        }
        Ok(SnowBG)
    }

    fn to_raw(&self, encoder: &mut MapEncoder) {
    }
}

#[derive(Debug, Clone, Copy, PartialEq, Eq, Structural)]
pub struct SnowFG;

impl MapElement for SnowFG {
    open spec fn element_name() -> Seq<char> {
        "snowFg"@
    }

    fn name() -> (r: &'static str) {
        "snowFg"
    }

    open spec fn fields_read(p: MapParser, x: Self) -> bool {
        true
    }

    open spec fn fields_ok(p: MapParser) -> bool {
        true
    }

    open spec fn exact(p: MapParser) -> bool {
        true
    }

    open spec fn written_attrs(&self) -> Seq<AttrV> {
        Seq::empty()
    }

    open spec fn written_children(&self) -> nat {
        (0) as nat
    }

    fn from_raw(parser: MapParser) -> (r: Result<Self, MapElementParsingError>) {
        proof {
            let ghost ok = Self::fields_ok(parser);
            let ghost ex = Self::exact(parser);
        }
        Ok(SnowFG)
    }

    fn to_raw(&self, encoder: &mut MapEncoder) {
    }
}

} // verus!

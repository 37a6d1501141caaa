//! The vanilla triggers, each with the attributes and nodes it is stored with.
use vstd::prelude::*;

pub use crate::maps::elements::dynamic::add_trigger_parsers;
use crate::maps::elements::{Entity, Node, Trigger};
use crate::maps::encoder::MapEncoder;
use crate::maps::lookup::ResolvableString;
use crate::maps::parser::{
    attr_ok, attr_read, attr_written, child_exact, child_ok, child_read, children_ok, children_read, opt_attr_ok, opt_attr_read,
    opt_attr_written, opt_child_ok, opt_child_read, opt_count, MapElement, MapElementParsingError, MapParser,
    ToEncodedVar,
};
use crate::maps::AttrV;
use crate::maps::var_types::Character;
use crate::utils::num::{Float, Integer};

verus! {

#[derive(Debug, Clone, Copy, PartialEq, Eq, Structural)]
pub struct LookoutBlocker;

impl Trigger for LookoutBlocker {
    open spec fn trigger_name() -> Seq<char> {
        "lookoutBlocker"@
    }

    fn name() -> (r: &'static str) {
        "lookoutBlocker"
    }

    open spec fn fields_read(p: MapParser, x: Self) -> bool {
        true
    }

    open spec fn fields_ok(p: MapParser) -> bool {
        true
    }

    open spec fn exact(p: MapParser) -> bool {
        true
    }

    open spec fn written_attrs(&self) -> Seq<AttrV> {
        Seq::empty()
    }

    open spec fn written_children(&self) -> nat {
        (0) as nat
    }

    fn from_raw(parser: MapParser) -> (r: Result<Self, MapElementParsingError>) {
        proof {
            let ghost ok = Self::fields_ok(parser);
            let ghost ex = Self::exact(parser);
        }
        Ok(LookoutBlocker)
    }

    fn to_raw(&self, encoder: &mut MapEncoder) {
    }
}

#[derive(Debug)]
pub struct MusicTrigger {
    pub track: ResolvableString,
    pub resetfade: Option<bool>,
    pub setinsession: Option<bool>,
    pub resetonleave: bool,
    pub progress: Option<u8>,
}

impl Trigger for MusicTrigger {
    open spec fn trigger_name() -> Seq<char> {
        "musicTrigger"@
    }

    fn name() -> (r: &'static str) {
        "musicTrigger"
    }

    open spec fn fields_read(p: MapParser, x: Self) -> bool {
        &&& attr_read::<ResolvableString>(p, "track"@, x.track)
        &&& opt_attr_read::<bool>(p, "resetFade"@, x.resetfade)
        &&& opt_attr_read::<bool>(p, "setInSession"@, x.setinsession)
        &&& attr_read::<bool>(p, "resetOnLeave"@, x.resetonleave)
        &&& opt_attr_read::<u8>(p, "progress"@, x.progress)
    }

    open spec fn fields_ok(p: MapParser) -> bool {
        &&& attr_ok::<ResolvableString>(p, "track"@)
        &&& opt_attr_ok::<bool>(p, "resetFade"@)
        &&& opt_attr_ok::<bool>(p, "setInSession"@)
        &&& attr_ok::<bool>(p, "resetOnLeave"@)
        &&& opt_attr_ok::<u8>(p, "progress"@)
    }

    open spec fn exact(p: MapParser) -> bool {
        true
    }

    open spec fn written_attrs(&self) -> Seq<AttrV> {
        attr_written("track"@, self.track)
            + opt_attr_written("resetFade"@, self.resetfade)
            + opt_attr_written("setInSession"@, self.setinsession)
            + attr_written("resetOnLeave"@, self.resetonleave)
            + opt_attr_written("progress"@, self.progress)
    }

    open spec fn written_children(&self) -> nat {
        (0) as nat
    }

    fn from_raw(parser: MapParser) -> (r: Result<Self, MapElementParsingError>) {
        proof {
            let ghost ok = Self::fields_ok(parser);
            let ghost ex = Self::exact(parser);
        }
        proof {
            parser.lemma_searchable();
        }
        Ok(MusicTrigger {
            track: parser.get_attribute("track")?,
            resetfade: parser.get_optional_attribute("resetFade")?,
            setinsession: parser.get_optional_attribute("setInSession")?,
            resetonleave: parser.get_attribute("resetOnLeave")?,
            progress: parser.get_optional_attribute("progress")?,
        })
    }

    fn to_raw(&self, encoder: &mut MapEncoder) {
        encoder.attribute("track", self.track.to_encoded());
        if let Some(v) = &self.resetfade {
            encoder.attribute("resetFade", v.to_encoded());
        }
        if let Some(v) = &self.setinsession {
            encoder.attribute("setInSession", v.to_encoded());
        }
        encoder.attribute("resetOnLeave", self.resetonleave.to_encoded());
        if let Some(v) = &self.progress {
            encoder.attribute("progress", v.to_encoded());
        }
    }
}

#[derive(Debug, Clone, Copy, PartialEq, Eq, Structural)]
pub struct BirdPathTrigger;

impl Trigger for BirdPathTrigger {
    open spec fn trigger_name() -> Seq<char> {
        "birdPathTrigger"@
    }

    fn name() -> (r: &'static str) {
        "birdPathTrigger"
    }

    open spec fn fields_read(p: MapParser, x: Self) -> bool {
        true
    }

    open spec fn fields_ok(p: MapParser) -> bool {
        true
    }

    open spec fn exact(p: MapParser) -> bool {
        true
    }

    open spec fn written_attrs(&self) -> Seq<AttrV> {
        Seq::empty()
    }

    open spec fn written_children(&self) -> nat {
        (0) as nat
    }

    fn from_raw(parser: MapParser) -> (r: Result<Self, MapElementParsingError>) {
        proof {
            let ghost ok = Self::fields_ok(parser);
            let ghost ex = Self::exact(parser);
        }
        Ok(BirdPathTrigger)
    }

    fn to_raw(&self, encoder: &mut MapEncoder) {
    }
}

#[derive(Debug)]
pub struct BlackholeStrength {
    pub strength: ResolvableString,
}

impl Trigger for BlackholeStrength {
    open spec fn trigger_name() -> Seq<char> {
        "blackholeStrength"@
    }

    fn name() -> (r: &'static str) {
        "blackholeStrength"
    }

    open spec fn fields_read(p: MapParser, x: Self) -> bool {
        &&& attr_read::<ResolvableString>(p, "strength"@, x.strength)
    }

    open spec fn fields_ok(p: MapParser) -> bool {
        &&& attr_ok::<ResolvableString>(p, "strength"@)
    }

    open spec fn exact(p: MapParser) -> bool {
        true
    }

    open spec fn written_attrs(&self) -> Seq<AttrV> {
        attr_written("strength"@, self.strength)
    }

    open spec fn written_children(&self) -> nat {
        (0) as nat
    }

    fn from_raw(parser: MapParser) -> (r: Result<Self, MapElementParsingError>) {
        proof {
            let ghost ok = Self::fields_ok(parser);
            let ghost ex = Self::exact(parser);
        }
        proof {
            parser.lemma_searchable();
        }
        Ok(BlackholeStrength {
            strength: parser.get_attribute("strength")?,
        })
    }

    fn to_raw(&self, encoder: &mut MapEncoder) {
        encoder.attribute("strength", self.strength.to_encoded());
    }
}

#[derive(Debug)]
pub struct CameraOffsetTrigger {
    pub camerax: Float,
    pub cameray: Float,
}

impl Trigger for CameraOffsetTrigger {
    open spec fn trigger_name() -> Seq<char> {
        "cameraOffsetTrigger"@
    }

    fn name() -> (r: &'static str) {
        "cameraOffsetTrigger"
    }

    open spec fn fields_read(p: MapParser, x: Self) -> bool {
        &&& attr_read::<Float>(p, "cameraX"@, x.camerax)
        &&& attr_read::<Float>(p, "cameraY"@, x.cameray)
    }

    open spec fn fields_ok(p: MapParser) -> bool {
        &&& attr_ok::<Float>(p, "cameraX"@)
        &&& attr_ok::<Float>(p, "cameraY"@)
    }

    open spec fn exact(p: MapParser) -> bool {
        true
    }

    open spec fn written_attrs(&self) -> Seq<AttrV> {
        attr_written("cameraX"@, self.camerax)
            + attr_written("cameraY"@, self.cameray)
    }

    open spec fn written_children(&self) -> nat {
        (0) as nat
    }

    fn from_raw(parser: MapParser) -> (r: Result<Self, MapElementParsingError>) {
        proof {
            let ghost ok = Self::fields_ok(parser);
            let ghost ex = Self::exact(parser);
        }
        proof {
            parser.lemma_searchable();
        }
        Ok(CameraOffsetTrigger {
            camerax: parser.get_attribute("cameraX")?,
            cameray: parser.get_attribute("cameraY")?,
        })
    }

    fn to_raw(&self, encoder: &mut MapEncoder) {
        encoder.attribute("cameraX", self.camerax.to_encoded());
        encoder.attribute("cameraY", self.cameray.to_encoded());
    }
}

#[derive(Debug)]
pub struct ChangeRespawnTrigger {
    pub node: Option<Node>,
}

impl Trigger for ChangeRespawnTrigger {
    open spec fn trigger_name() -> Seq<char> {
        "changeRespawnTrigger"@
    }

    fn name() -> (r: &'static str) {
        "changeRespawnTrigger"
    }

    open spec fn fields_read(p: MapParser, x: Self) -> bool {
        &&& opt_child_read::<Node>(p, x.node)
    }

    open spec fn fields_ok(p: MapParser) -> bool {
        &&& opt_child_ok::<Node>(p)
    }

    open spec fn exact(p: MapParser) -> bool {
        &&& child_exact::<Node>(p)
    }

    open spec fn written_attrs(&self) -> Seq<AttrV> {
        Seq::empty()
    }

    open spec fn written_children(&self) -> nat {
        (opt_count(self.node)) as nat
    }

    fn from_raw(parser: MapParser) -> (r: Result<Self, MapElementParsingError>) {
        proof {
            let ghost ok = Self::fields_ok(parser);
            let ghost ex = Self::exact(parser);
        }
        Ok(ChangeRespawnTrigger {
            node: parser.parse_optional_element()?,
        })
    }

    fn to_raw(&self, encoder: &mut MapEncoder) {
        if let Some(v) = &self.node {
            encoder.child(v);
        }
    }
}

#[derive(Debug)]
pub struct MiniTextboxTrigger {
    pub mode: ResolvableString,
    pub dialog_id: ResolvableString,
    pub only_once: bool,
    pub death_count: Integer,
}

impl Trigger for MiniTextboxTrigger {
    open spec fn trigger_name() -> Seq<char> {
        "minitextboxTrigger"@
    }

    fn name() -> (r: &'static str) {
        "minitextboxTrigger"
    }

    open spec fn fields_read(p: MapParser, x: Self) -> bool {
        &&& attr_read::<ResolvableString>(p, "mode"@, x.mode)
        &&& attr_read::<ResolvableString>(p, "dialog_id"@, x.dialog_id)
        &&& attr_read::<bool>(p, "only_once"@, x.only_once)
        &&& attr_read::<Integer>(p, "death_count"@, x.death_count)
    }

    open spec fn fields_ok(p: MapParser) -> bool {
        &&& attr_ok::<ResolvableString>(p, "mode"@)
        &&& attr_ok::<ResolvableString>(p, "dialog_id"@)
        &&& attr_ok::<bool>(p, "only_once"@)
        &&& attr_ok::<Integer>(p, "death_count"@)
    }

    open spec fn exact(p: MapParser) -> bool {
        true
    }

    open spec fn written_attrs(&self) -> Seq<AttrV> {
        attr_written("mode"@, self.mode)
            + attr_written("dialog_id"@, self.dialog_id)
            + attr_written("only_once"@, self.only_once)
            + attr_written("death_count"@, self.death_count)
    }

    open spec fn written_children(&self) -> nat {
        (0) as nat
    }

    fn from_raw(parser: MapParser) -> (r: Result<Self, MapElementParsingError>) {
        proof {
            let ghost ok = Self::fields_ok(parser);
            let ghost ex = Self::exact(parser);
        }
        proof {
            parser.lemma_searchable();
        }
        Ok(MiniTextboxTrigger {
            mode: parser.get_attribute("mode")?,
            dialog_id: parser.get_attribute("dialog_id")?,
            only_once: parser.get_attribute("only_once")?,
            death_count: parser.get_attribute("death_count")?,
        })
    }

    fn to_raw(&self, encoder: &mut MapEncoder) {
        encoder.attribute("mode", self.mode.to_encoded());
        encoder.attribute("dialog_id", self.dialog_id.to_encoded());
        encoder.attribute("only_once", self.only_once.to_encoded());
        encoder.attribute("death_count", self.death_count.to_encoded());
    }
}

#[derive(Debug)]
pub struct RespawnTargetTrigger {
    pub node: Node,
}

impl Trigger for RespawnTargetTrigger {
    open spec fn trigger_name() -> Seq<char> {
        "respawnTargetTrigger"@
    }

    fn name() -> (r: &'static str) {
        "respawnTargetTrigger"
    }

    open spec fn fields_read(p: MapParser, x: Self) -> bool {
        &&& child_read::<Node>(p, x.node)
    }

    open spec fn fields_ok(p: MapParser) -> bool {
        &&& child_ok::<Node>(p)
    }

    open spec fn exact(p: MapParser) -> bool {
        &&& child_exact::<Node>(p)
    }

    open spec fn written_attrs(&self) -> Seq<AttrV> {
        Seq::empty()
    }

    open spec fn written_children(&self) -> nat {
        (1) as nat
    }

    fn from_raw(parser: MapParser) -> (r: Result<Self, MapElementParsingError>) {
        proof {
            let ghost ok = Self::fields_ok(parser);
            let ghost ex = Self::exact(parser);
        }
        Ok(RespawnTargetTrigger {
            node: parser.parse_element()?,
        })
    }

    fn to_raw(&self, encoder: &mut MapEncoder) {
        encoder.child(&self.node);
    }
}

#[derive(Debug)]
pub struct NoRefillTrigger {
    pub state: bool,
}

impl Trigger for NoRefillTrigger {
    open spec fn trigger_name() -> Seq<char> {
        "noRefillTrigger"@
    }

    fn name() -> (r: &'static str) {
        "noRefillTrigger"
    }

    open spec fn fields_read(p: MapParser, x: Self) -> bool {
        &&& attr_read::<bool>(p, "state"@, x.state)
    }

    open spec fn fields_ok(p: MapParser) -> bool {
        &&& attr_ok::<bool>(p, "state"@)
    }

    open spec fn exact(p: MapParser) -> bool {
        true
    }

    open spec fn written_attrs(&self) -> Seq<AttrV> {
        attr_written("state"@, self.state)
    }

    open spec fn written_children(&self) -> nat {
        (0) as nat
    }

    fn from_raw(parser: MapParser) -> (r: Result<Self, MapElementParsingError>) {
        proof {
            let ghost ok = Self::fields_ok(parser);
            let ghost ex = Self::exact(parser);
        }
        proof {
            parser.lemma_searchable();
        }
        Ok(NoRefillTrigger {
            state: parser.get_attribute("state")?,
        })
    }

    fn to_raw(&self, encoder: &mut MapEncoder) {
        encoder.attribute("state", self.state.to_encoded());
    }
}

#[derive(Debug)]
pub struct BloomFadeTrigger {
    pub bloomaddfrom: Float,
    pub bloomaddto: Float,
    pub positionmode: ResolvableString,
}

impl Trigger for BloomFadeTrigger {
    open spec fn trigger_name() -> Seq<char> {
        "bloomFadeTrigger"@
    }

    fn name() -> (r: &'static str) {
        "bloomFadeTrigger"
    }

    open spec fn fields_read(p: MapParser, x: Self) -> bool {
        &&& attr_read::<Float>(p, "bloomAddFrom"@, x.bloomaddfrom)
        &&& attr_read::<Float>(p, "bloomAddTo"@, x.bloomaddto)
        &&& attr_read::<ResolvableString>(p, "positionMode"@, x.positionmode)
    }

    open spec fn fields_ok(p: MapParser) -> bool {
        &&& attr_ok::<Float>(p, "bloomAddFrom"@)
        &&& attr_ok::<Float>(p, "bloomAddTo"@)
        &&& attr_ok::<ResolvableString>(p, "positionMode"@)
    }

    open spec fn exact(p: MapParser) -> bool {
        true
    }

    open spec fn written_attrs(&self) -> Seq<AttrV> {
        attr_written("bloomAddFrom"@, self.bloomaddfrom)
            + attr_written("bloomAddTo"@, self.bloomaddto)
            + attr_written("positionMode"@, self.positionmode)
    }

    open spec fn written_children(&self) -> nat {
        (0) as nat
    }

    fn from_raw(parser: MapParser) -> (r: Result<Self, MapElementParsingError>) {
        proof {
            let ghost ok = Self::fields_ok(parser);
            let ghost ex = Self::exact(parser);
        }
        proof {
            parser.lemma_searchable();
        }
        Ok(BloomFadeTrigger {
            bloomaddfrom: parser.get_attribute("bloomAddFrom")?,
            bloomaddto: parser.get_attribute("bloomAddTo")?,
            positionmode: parser.get_attribute("positionMode")?,
        })
    }

    fn to_raw(&self, encoder: &mut MapEncoder) {
        encoder.attribute("bloomAddFrom", self.bloomaddfrom.to_encoded());
        encoder.attribute("bloomAddTo", self.bloomaddto.to_encoded());
        encoder.attribute("positionMode", self.positionmode.to_encoded());
    }
}

#[derive(Debug)]
pub struct CameraTargetTrigger {
    pub lerpstrength: Float,
    pub positionmode: ResolvableString,
    pub xonly: bool,
    pub yonly: bool,
    pub deleteflag: Option<Character>,
    pub node: Node,
}

impl Trigger for CameraTargetTrigger {
    open spec fn trigger_name() -> Seq<char> {
        "cameraTargetTrigger"@
    }

    fn name() -> (r: &'static str) {
        "cameraTargetTrigger"
    }

    open spec fn fields_read(p: MapParser, x: Self) -> bool {
        &&& attr_read::<Float>(p, "lerpStrength"@, x.lerpstrength)
        &&& attr_read::<ResolvableString>(p, "positionMode"@, x.positionmode)
        &&& attr_read::<bool>(p, "xOnly"@, x.xonly)
        &&& attr_read::<bool>(p, "yOnly"@, x.yonly)
        &&& opt_attr_read::<Character>(p, "deleteFlag"@, x.deleteflag)
        &&& child_read::<Node>(p, x.node)
    }

    open spec fn fields_ok(p: MapParser) -> bool {
        &&& attr_ok::<Float>(p, "lerpStrength"@)
        &&& attr_ok::<ResolvableString>(p, "positionMode"@)
        &&& attr_ok::<bool>(p, "xOnly"@)
        &&& attr_ok::<bool>(p, "yOnly"@)
        &&& opt_attr_ok::<Character>(p, "deleteFlag"@)
        &&& child_ok::<Node>(p)
    }

    open spec fn exact(p: MapParser) -> bool {
        &&& child_exact::<Node>(p)
    }

    open spec fn written_attrs(&self) -> Seq<AttrV> {
        attr_written("lerpStrength"@, self.lerpstrength)
            + attr_written("positionMode"@, self.positionmode)
            + attr_written("xOnly"@, self.xonly)
            + attr_written("yOnly"@, self.yonly)
            + opt_attr_written("deleteFlag"@, self.deleteflag)
    }

    open spec fn written_children(&self) -> nat {
        (1) as nat
    }

    fn from_raw(parser: MapParser) -> (r: Result<Self, MapElementParsingError>) {
        proof {
            let ghost ok = Self::fields_ok(parser);
            let ghost ex = Self::exact(parser);
        }
        proof {
            parser.lemma_searchable();
        }
        Ok(CameraTargetTrigger {
            lerpstrength: parser.get_attribute("lerpStrength")?,
            positionmode: parser.get_attribute("positionMode")?,
            xonly: parser.get_attribute("xOnly")?,
            yonly: parser.get_attribute("yOnly")?,
            deleteflag: parser.get_optional_attribute("deleteFlag")?,
            node: parser.parse_element()?,
        })
    }

    fn to_raw(&self, encoder: &mut MapEncoder) {
        encoder.attribute("lerpStrength", self.lerpstrength.to_encoded());
        encoder.attribute("positionMode", self.positionmode.to_encoded());
        encoder.attribute("xOnly", self.xonly.to_encoded());
        encoder.attribute("yOnly", self.yonly.to_encoded());
        if let Some(v) = &self.deleteflag {
            encoder.attribute("deleteFlag", v.to_encoded());
        }
        encoder.child(&self.node);
    }
}

#[derive(Debug)]
pub struct MusicFadeTrigger {
    pub direction: ResolvableString,
    pub fadea: Float,
    pub fadeb: Float,
    pub parameter: Option<ResolvableString>,
}

impl Trigger for MusicFadeTrigger {
    open spec fn trigger_name() -> Seq<char> {
        "musicFadeTrigger"@
    }

    fn name() -> (r: &'static str) {
        "musicFadeTrigger"
    }

    open spec fn fields_read(p: MapParser, x: Self) -> bool {
        &&& attr_read::<ResolvableString>(p, "direction"@, x.direction)
        &&& attr_read::<Float>(p, "fadeA"@, x.fadea)
        &&& attr_read::<Float>(p, "fadeB"@, x.fadeb)
        &&& opt_attr_read::<ResolvableString>(p, "parameter"@, x.parameter)
    }

    open spec fn fields_ok(p: MapParser) -> bool {
        &&& attr_ok::<ResolvableString>(p, "direction"@)
        &&& attr_ok::<Float>(p, "fadeA"@)
        &&& attr_ok::<Float>(p, "fadeB"@)
        &&& opt_attr_ok::<ResolvableString>(p, "parameter"@)
    }

    open spec fn exact(p: MapParser) -> bool {
        true
    }

    open spec fn written_attrs(&self) -> Seq<AttrV> {
        attr_written("direction"@, self.direction)
            + attr_written("fadeA"@, self.fadea)
            + attr_written("fadeB"@, self.fadeb)
            + opt_attr_written("parameter"@, self.parameter)
    }

    open spec fn written_children(&self) -> nat {
        (0) as nat
    }

    fn from_raw(parser: MapParser) -> (r: Result<Self, MapElementParsingError>) {
        proof {
            let ghost ok = Self::fields_ok(parser);
            let ghost ex = Self::exact(parser);
        }
        proof {
            parser.lemma_searchable();
        }
        Ok(MusicFadeTrigger {
            direction: parser.get_attribute("direction")?,
            fadea: parser.get_attribute("fadeA")?,
            fadeb: parser.get_attribute("fadeB")?,
            parameter: parser.get_optional_attribute("parameter")?,
        })
    }

    fn to_raw(&self, encoder: &mut MapEncoder) {
        encoder.attribute("direction", self.direction.to_encoded());
        encoder.attribute("fadeA", self.fadea.to_encoded());
        encoder.attribute("fadeB", self.fadeb.to_encoded());
        if let Some(v) = &self.parameter {
            encoder.attribute("parameter", v.to_encoded());
        }
    }
}

#[derive(Debug, Clone, Copy, PartialEq, Eq, Structural)]
pub struct GoldenBerryCollectTrigger;

impl Trigger for GoldenBerryCollectTrigger {
    open spec fn trigger_name() -> Seq<char> {
        "goldenBerryCollectTrigger"@
    }

    fn name() -> (r: &'static str) {
        "goldenBerryCollectTrigger"
    }

    open spec fn fields_read(p: MapParser, x: Self) -> bool {
        true
    }

    open spec fn fields_ok(p: MapParser) -> bool {
        true
    }

    open spec fn exact(p: MapParser) -> bool {
        true
    }

    open spec fn written_attrs(&self) -> Seq<AttrV> {
        Seq::empty()
    }

    open spec fn written_children(&self) -> nat {
        (0) as nat
    }

    fn from_raw(parser: MapParser) -> (r: Result<Self, MapElementParsingError>) {
        proof {
            let ghost ok = Self::fields_ok(parser);
            let ghost ex = Self::exact(parser);
        }
        Ok(GoldenBerryCollectTrigger)
    }

    fn to_raw(&self, encoder: &mut MapEncoder) {
    }
}

#[derive(Debug)]
pub struct CameraAdvanceTargetTrigger {
    pub lerpstrengthx: Float,
    pub lerpstrengthy: Float,
    pub positionmodex: ResolvableString,
    pub positionmodey: ResolvableString,
    pub xonly: bool,
    pub yonly: bool,
    pub node: Node,
}

impl Trigger for CameraAdvanceTargetTrigger {
    open spec fn trigger_name() -> Seq<char> {
        "cameraAdvanceTargetTrigger"@
    }

    fn name() -> (r: &'static str) {
        "cameraAdvanceTargetTrigger"
    }

    open spec fn fields_read(p: MapParser, x: Self) -> bool {
        &&& attr_read::<Float>(p, "lerpStrengthX"@, x.lerpstrengthx)
        &&& attr_read::<Float>(p, "lerpStrengthY"@, x.lerpstrengthy)
        &&& attr_read::<ResolvableString>(p, "positionModeX"@, x.positionmodex)
        &&& attr_read::<ResolvableString>(p, "positionModeY"@, x.positionmodey)
        &&& attr_read::<bool>(p, "xOnly"@, x.xonly)
        &&& attr_read::<bool>(p, "yOnly"@, x.yonly)
        &&& child_read::<Node>(p, x.node)
    }

    open spec fn fields_ok(p: MapParser) -> bool {
        &&& attr_ok::<Float>(p, "lerpStrengthX"@)
        &&& attr_ok::<Float>(p, "lerpStrengthY"@)
        &&& attr_ok::<ResolvableString>(p, "positionModeX"@)
        &&& attr_ok::<ResolvableString>(p, "positionModeY"@)
        &&& attr_ok::<bool>(p, "xOnly"@)
        &&& attr_ok::<bool>(p, "yOnly"@)
        &&& child_ok::<Node>(p)
    }

    open spec fn exact(p: MapParser) -> bool {
        &&& child_exact::<Node>(p)
    }

    open spec fn written_attrs(&self) -> Seq<AttrV> {
        attr_written("lerpStrengthX"@, self.lerpstrengthx)
            + attr_written("lerpStrengthY"@, self.lerpstrengthy)
            + attr_written("positionModeX"@, self.positionmodex)
            + attr_written("positionModeY"@, self.positionmodey)
            + attr_written("xOnly"@, self.xonly)
            + attr_written("yOnly"@, self.yonly)
    }

    open spec fn written_children(&self) -> nat {
        (1) as nat
    }

    fn from_raw(parser: MapParser) -> (r: Result<Self, MapElementParsingError>) {
        proof {
            let ghost ok = Self::fields_ok(parser);
            let ghost ex = Self::exact(parser);
        }
        proof {
            parser.lemma_searchable();
        }
        Ok(CameraAdvanceTargetTrigger {
            lerpstrengthx: parser.get_attribute("lerpStrengthX")?,
            lerpstrengthy: parser.get_attribute("lerpStrengthY")?,
            positionmodex: parser.get_attribute("positionModeX")?,
            positionmodey: parser.get_attribute("positionModeY")?,
            xonly: parser.get_attribute("xOnly")?,
            yonly: parser.get_attribute("yOnly")?,
            node: parser.parse_element()?,
        })
    }

    fn to_raw(&self, encoder: &mut MapEncoder) {
        encoder.attribute("lerpStrengthX", self.lerpstrengthx.to_encoded());
        encoder.attribute("lerpStrengthY", self.lerpstrengthy.to_encoded());
        encoder.attribute("positionModeX", self.positionmodex.to_encoded());
        encoder.attribute("positionModeY", self.positionmodey.to_encoded());
        encoder.attribute("xOnly", self.xonly.to_encoded());
        encoder.attribute("yOnly", self.yonly.to_encoded());
        encoder.child(&self.node);
    }
}

#[derive(Debug)]
pub struct LightFadeTrigger {
    pub lightaddfrom: Float,
    pub lightaddto: Float,
    pub positionmode: ResolvableString,
}

impl Trigger for LightFadeTrigger {
    open spec fn trigger_name() -> Seq<char> {
        "lightFadeTrigger"@
    }

    fn name() -> (r: &'static str) {
        "lightFadeTrigger"
    }

    open spec fn fields_read(p: MapParser, x: Self) -> bool {
        &&& attr_read::<Float>(p, "lightAddFrom"@, x.lightaddfrom)
        &&& attr_read::<Float>(p, "lightAddTo"@, x.lightaddto)
        &&& attr_read::<ResolvableString>(p, "positionMode"@, x.positionmode)
    }

    open spec fn fields_ok(p: MapParser) -> bool {
        &&& attr_ok::<Float>(p, "lightAddFrom"@)
        &&& attr_ok::<Float>(p, "lightAddTo"@)
        &&& attr_ok::<ResolvableString>(p, "positionMode"@)
    }

    open spec fn exact(p: MapParser) -> bool {
        true
    }

    open spec fn written_attrs(&self) -> Seq<AttrV> {
        attr_written("lightAddFrom"@, self.lightaddfrom)
            + attr_written("lightAddTo"@, self.lightaddto)
            + attr_written("positionMode"@, self.positionmode)
    }

    open spec fn written_children(&self) -> nat {
        (0) as nat
    }

    fn from_raw(parser: MapParser) -> (r: Result<Self, MapElementParsingError>) {
        proof {
            let ghost ok = Self::fields_ok(parser);
            let ghost ex = Self::exact(parser);
        }
        proof {
            parser.lemma_searchable();
        }
        Ok(LightFadeTrigger {
            lightaddfrom: parser.get_attribute("lightAddFrom")?,
            lightaddto: parser.get_attribute("lightAddTo")?,
            positionmode: parser.get_attribute("positionMode")?,
        })
    }

    fn to_raw(&self, encoder: &mut MapEncoder) {
        encoder.attribute("lightAddFrom", self.lightaddfrom.to_encoded());
        encoder.attribute("lightAddTo", self.lightaddto.to_encoded());
        encoder.attribute("positionMode", self.positionmode.to_encoded());
    }
}

#[derive(Debug)]
pub struct SpawnFacingTrigger {
    pub facing: ResolvableString,
}

impl Trigger for SpawnFacingTrigger {
    open spec fn trigger_name() -> Seq<char> {
        "spawnFacingTrigger"@
    }

    fn name() -> (r: &'static str) {
        "spawnFacingTrigger"
    }

    open spec fn fields_read(p: MapParser, x: Self) -> bool {
        &&& attr_read::<ResolvableString>(p, "facing"@, x.facing)
    }

    open spec fn fields_ok(p: MapParser) -> bool {
        &&& attr_ok::<ResolvableString>(p, "facing"@)
    }

    open spec fn exact(p: MapParser) -> bool {
        true
    }

    open spec fn written_attrs(&self) -> Seq<AttrV> {
        attr_written("facing"@, self.facing)
    }

    open spec fn written_children(&self) -> nat {
        (0) as nat
    }

    fn from_raw(parser: MapParser) -> (r: Result<Self, MapElementParsingError>) {
        proof {
            let ghost ok = Self::fields_ok(parser);
            let ghost ex = Self::exact(parser);
        }
        proof {
            parser.lemma_searchable();
        }
        Ok(SpawnFacingTrigger {
            facing: parser.get_attribute("facing")?,
        })
    }

    fn to_raw(&self, encoder: &mut MapEncoder) {
        encoder.attribute("facing", self.facing.to_encoded());
    }
}

#[derive(Debug, Clone, Copy, PartialEq, Eq, Structural)]
pub struct WindAttackTrigger;

impl Trigger for WindAttackTrigger {
    open spec fn trigger_name() -> Seq<char> {
        "windAttackTrigger"@
    }

    fn name() -> (r: &'static str) {
        "windAttackTrigger"
    }

    open spec fn fields_read(p: MapParser, x: Self) -> bool {
        true
    }

    open spec fn fields_ok(p: MapParser) -> bool {
        true
    }

    open spec fn exact(p: MapParser) -> bool {
        true
    }

    open spec fn written_attrs(&self) -> Seq<AttrV> {
        Seq::empty()
    }

    open spec fn written_children(&self) -> nat {
        (0) as nat
    }

    fn from_raw(parser: MapParser) -> (r: Result<Self, MapElementParsingError>) {
        proof {
            let ghost ok = Self::fields_ok(parser);
            let ghost ex = Self::exact(parser);
        }
        Ok(WindAttackTrigger)
    }

    fn to_raw(&self, encoder: &mut MapEncoder) {
    }
}

#[derive(Debug)]
pub struct AmbienceParamTrigger {
    pub direction: ResolvableString,
    pub parameter: ResolvableString,
    pub from: Float,
    pub to: Float,
}

impl Trigger for AmbienceParamTrigger {
    open spec fn trigger_name() -> Seq<char> {
        "ambienceParamTrigger"@
    }

    fn name() -> (r: &'static str) {
        "ambienceParamTrigger"
    }

    open spec fn fields_read(p: MapParser, x: Self) -> bool {
        &&& attr_read::<ResolvableString>(p, "direction"@, x.direction)
        &&& attr_read::<ResolvableString>(p, "parameter"@, x.parameter)
        &&& attr_read::<Float>(p, "from"@, x.from)
        &&& attr_read::<Float>(p, "to"@, x.to)
    }

    open spec fn fields_ok(p: MapParser) -> bool {
        &&& attr_ok::<ResolvableString>(p, "direction"@)
        &&& attr_ok::<ResolvableString>(p, "parameter"@)
        &&& attr_ok::<Float>(p, "from"@)
        &&& attr_ok::<Float>(p, "to"@)
    }

    open spec fn exact(p: MapParser) -> bool {
        true
    }

    open spec fn written_attrs(&self) -> Seq<AttrV> {
        attr_written("direction"@, self.direction)
            + attr_written("parameter"@, self.parameter)
            + attr_written("from"@, self.from)
            + attr_written("to"@, self.to)
    }

    open spec fn written_children(&self) -> nat {
        (0) as nat
    }

    fn from_raw(parser: MapParser) -> (r: Result<Self, MapElementParsingError>) {
        proof {
            let ghost ok = Self::fields_ok(parser);
            let ghost ex = Self::exact(parser);
        }
        proof {
            parser.lemma_searchable();
        }
        Ok(AmbienceParamTrigger {
            direction: parser.get_attribute("direction")?,
            parameter: parser.get_attribute("parameter")?,
            from: parser.get_attribute("from")?,
            to: parser.get_attribute("to")?,
        })
    }

    fn to_raw(&self, encoder: &mut MapEncoder) {
        encoder.attribute("direction", self.direction.to_encoded());
        encoder.attribute("parameter", self.parameter.to_encoded());
        encoder.attribute("from", self.from.to_encoded());
        encoder.attribute("to", self.to.to_encoded());
    }
}

#[derive(Debug)]
pub struct EventTrigger {
    pub event: ResolvableString,
    pub onspawn: Option<bool>,
}

impl Trigger for EventTrigger {
    open spec fn trigger_name() -> Seq<char> {
        "eventTrigger"@
    }

    fn name() -> (r: &'static str) {
        "eventTrigger"
    }

    open spec fn fields_read(p: MapParser, x: Self) -> bool {
        &&& attr_read::<ResolvableString>(p, "event"@, x.event)
        &&& opt_attr_read::<bool>(p, "onSpawn"@, x.onspawn)
    }

    open spec fn fields_ok(p: MapParser) -> bool {
        &&& attr_ok::<ResolvableString>(p, "event"@)
        &&& opt_attr_ok::<bool>(p, "onSpawn"@)
    }

    open spec fn exact(p: MapParser) -> bool {
        true
    }

    open spec fn written_attrs(&self) -> Seq<AttrV> {
        attr_written("event"@, self.event)
            + opt_attr_written("onSpawn"@, self.onspawn)
    }

    open spec fn written_children(&self) -> nat {
        (0) as nat
    }

    fn from_raw(parser: MapParser) -> (r: Result<Self, MapElementParsingError>) {
        proof {
            let ghost ok = Self::fields_ok(parser);
            let ghost ex = Self::exact(parser);
        }
        proof {
            parser.lemma_searchable();
        }
        Ok(EventTrigger {
            event: parser.get_attribute("event")?,
            onspawn: parser.get_optional_attribute("onSpawn")?,
        })
    }

    fn to_raw(&self, encoder: &mut MapEncoder) {
        encoder.attribute("event", self.event.to_encoded());
        if let Some(v) = &self.onspawn {
            encoder.attribute("onSpawn", v.to_encoded());
        }
    }
}

#[derive(Debug)]
pub struct DetachFollowersTrigger {
    pub global: bool,
    pub node: Node,
}

impl Trigger for DetachFollowersTrigger {
    open spec fn trigger_name() -> Seq<char> {
        "detachFollowersTrigger"@
    }

    fn name() -> (r: &'static str) {
        "detachFollowersTrigger"
    }

    open spec fn fields_read(p: MapParser, x: Self) -> bool {
        &&& attr_read::<bool>(p, "global"@, x.global)
        &&& child_read::<Node>(p, x.node)
    }

    open spec fn fields_ok(p: MapParser) -> bool {
        &&& attr_ok::<bool>(p, "global"@)
        &&& child_ok::<Node>(p)
    }

    open spec fn exact(p: MapParser) -> bool {
        &&& child_exact::<Node>(p)
    }

    open spec fn written_attrs(&self) -> Seq<AttrV> {
        attr_written("global"@, self.global)
    }

    open spec fn written_children(&self) -> nat {
        (1) as nat
    }

    fn from_raw(parser: MapParser) -> (r: Result<Self, MapElementParsingError>) {
        proof {
            let ghost ok = Self::fields_ok(parser);
            let ghost ex = Self::exact(parser);
        }
        proof {
            parser.lemma_searchable();
        }
        Ok(DetachFollowersTrigger {
            global: parser.get_attribute("global")?,
            node: parser.parse_element()?,
        })
    }

    fn to_raw(&self, encoder: &mut MapEncoder) {
        encoder.attribute("global", self.global.to_encoded());
        encoder.child(&self.node);
    }
}

#[derive(Debug, Clone, Copy, PartialEq, Eq, Structural)]
pub struct CheckpointBlockerTrigger;

impl Trigger for CheckpointBlockerTrigger {
    open spec fn trigger_name() -> Seq<char> {
        "checkpointBlockerTrigger"@
    }

    fn name() -> (r: &'static str) {
        "checkpointBlockerTrigger"
    }

    open spec fn fields_read(p: MapParser, x: Self) -> bool {
        true
    }

    open spec fn fields_ok(p: MapParser) -> bool {
        true
    }

    open spec fn exact(p: MapParser) -> bool {
        true
    }

    open spec fn written_attrs(&self) -> Seq<AttrV> {
        Seq::empty()
    }

    open spec fn written_children(&self) -> nat {
        (0) as nat
    }

    fn from_raw(parser: MapParser) -> (r: Result<Self, MapElementParsingError>) {
        proof {
            let ghost ok = Self::fields_ok(parser);
            let ghost ex = Self::exact(parser);
        }
        Ok(CheckpointBlockerTrigger)
    }

    fn to_raw(&self, encoder: &mut MapEncoder) {
    }
}

#[derive(Debug)]
pub struct AltMusicTrigger {
    pub track: ResolvableString,
    pub resetonleave: bool,
}

impl Trigger for AltMusicTrigger {
    open spec fn trigger_name() -> Seq<char> {
        "altMusicTrigger"@
    }

    fn name() -> (r: &'static str) {
        "altMusicTrigger"
    }

    open spec fn fields_read(p: MapParser, x: Self) -> bool {
        &&& attr_read::<ResolvableString>(p, "track"@, x.track)
        &&& attr_read::<bool>(p, "resetOnLeave"@, x.resetonleave)
    }

    open spec fn fields_ok(p: MapParser) -> bool {
        &&& attr_ok::<ResolvableString>(p, "track"@)
        &&& attr_ok::<bool>(p, "resetOnLeave"@)
    }

    open spec fn exact(p: MapParser) -> bool {
        true
    }

    open spec fn written_attrs(&self) -> Seq<AttrV> {
        attr_written("track"@, self.track)
            + attr_written("resetOnLeave"@, self.resetonleave)
    }

    open spec fn written_children(&self) -> nat {
        (0) as nat
    }

    fn from_raw(parser: MapParser) -> (r: Result<Self, MapElementParsingError>) {
        proof {
            let ghost ok = Self::fields_ok(parser);
            let ghost ex = Self::exact(parser);
        }
        proof {
            parser.lemma_searchable();
        }
        Ok(AltMusicTrigger {
            track: parser.get_attribute("track")?,
            resetonleave: parser.get_attribute("resetOnLeave")?,
        })
    }

    fn to_raw(&self, encoder: &mut MapEncoder) {
        encoder.attribute("track", self.track.to_encoded());
        encoder.attribute("resetOnLeave", self.resetonleave.to_encoded());
    }
}

#[derive(Debug)]
pub struct WindTrigger {
    pub pattern: ResolvableString,
}

impl Trigger for WindTrigger {
    open spec fn trigger_name() -> Seq<char> {
        "windTrigger"@
    }

    fn name() -> (r: &'static str) {
        "windTrigger"
    }

    open spec fn fields_read(p: MapParser, x: Self) -> bool {
        &&& attr_read::<ResolvableString>(p, "pattern"@, x.pattern)
    }

    open spec fn fields_ok(p: MapParser) -> bool {
        &&& attr_ok::<ResolvableString>(p, "pattern"@)
    }

    open spec fn exact(p: MapParser) -> bool {
        true
    }

    open spec fn written_attrs(&self) -> Seq<AttrV> {
        attr_written("pattern"@, self.pattern)
    }

    open spec fn written_children(&self) -> nat {
        (0) as nat
    }

    fn from_raw(parser: MapParser) -> (r: Result<Self, MapElementParsingError>) {
        proof {
            let ghost ok = Self::fields_ok(parser);
            let ghost ex = Self::exact(parser);
        }
        proof {
            parser.lemma_searchable();
        }
        Ok(WindTrigger {
            pattern: parser.get_attribute("pattern")?,
        })
    }

    fn to_raw(&self, encoder: &mut MapEncoder) {
        encoder.attribute("pattern", self.pattern.to_encoded());
    }
}

#[derive(Debug)]
pub struct CreditsTrigger {
    pub event: ResolvableString,
}

impl Trigger for CreditsTrigger {
    open spec fn trigger_name() -> Seq<char> {
        "creditsTrigger"@
    }

    fn name() -> (r: &'static str) {
        "creditsTrigger"
    }

    open spec fn fields_read(p: MapParser, x: Self) -> bool {
        &&& attr_read::<ResolvableString>(p, "event"@, x.event)
    }

    open spec fn fields_ok(p: MapParser) -> bool {
        &&& attr_ok::<ResolvableString>(p, "event"@)
    }

    open spec fn exact(p: MapParser) -> bool {
        true
    }

    open spec fn written_attrs(&self) -> Seq<AttrV> {
        attr_written("event"@, self.event)
    }

    open spec fn written_children(&self) -> nat {
        (0) as nat
    }

    fn from_raw(parser: MapParser) -> (r: Result<Self, MapElementParsingError>) {
        proof {
            let ghost ok = Self::fields_ok(parser);
            let ghost ex = Self::exact(parser);
        }
        proof {
            parser.lemma_searchable();
        }
        Ok(CreditsTrigger {
            event: parser.get_attribute("event")?,
        })
    }

    fn to_raw(&self, encoder: &mut MapEncoder) {
        encoder.attribute("event", self.event.to_encoded());
    }
}

#[derive(Debug)]
pub struct RumbleTrigger {
    pub manualtrigger: bool,
    pub persistent: bool,
    pub node: Node,
}

impl Trigger for RumbleTrigger {
    open spec fn trigger_name() -> Seq<char> {
        "rumbleTrigger"@
    }

    fn name() -> (r: &'static str) {
        "rumbleTrigger"
    }

    open spec fn fields_read(p: MapParser, x: Self) -> bool {
        &&& attr_read::<bool>(p, "manualTrigger"@, x.manualtrigger)
        &&& attr_read::<bool>(p, "persistent"@, x.persistent)
        &&& child_read::<Node>(p, x.node)
    }

    open spec fn fields_ok(p: MapParser) -> bool {
        &&& attr_ok::<bool>(p, "manualTrigger"@)
        &&& attr_ok::<bool>(p, "persistent"@)
        &&& child_ok::<Node>(p)
    }

    open spec fn exact(p: MapParser) -> bool {
        &&& child_exact::<Node>(p)
    }

    open spec fn written_attrs(&self) -> Seq<AttrV> {
        attr_written("manualTrigger"@, self.manualtrigger)
            + attr_written("persistent"@, self.persistent)
    }

    open spec fn written_children(&self) -> nat {
        (1) as nat
    }

    fn from_raw(parser: MapParser) -> (r: Result<Self, MapElementParsingError>) {
        proof {
            let ghost ok = Self::fields_ok(parser);
            let ghost ex = Self::exact(parser);
        }
        proof {
            parser.lemma_searchable();
        }
        Ok(RumbleTrigger {
            manualtrigger: parser.get_attribute("manualTrigger")?,
            persistent: parser.get_attribute("persistent")?,
            node: parser.parse_element()?,
        })
    }

    fn to_raw(&self, encoder: &mut MapEncoder) {
        encoder.attribute("manualTrigger", self.manualtrigger.to_encoded());
        encoder.attribute("persistent", self.persistent.to_encoded());
        encoder.child(&self.node);
    }
}

#[derive(Debug)]
pub struct OshiroTrigger {
    pub state: bool,
}

impl Trigger for OshiroTrigger {
    open spec fn trigger_name() -> Seq<char> {
        "oshiroTrigger"@
    }

    fn name() -> (r: &'static str) {
        "oshiroTrigger"
    }

    open spec fn fields_read(p: MapParser, x: Self) -> bool {
        &&& attr_read::<bool>(p, "state"@, x.state)
    }

    open spec fn fields_ok(p: MapParser) -> bool {
        &&& attr_ok::<bool>(p, "state"@)
    }

    open spec fn exact(p: MapParser) -> bool {
        true
    }

    open spec fn written_attrs(&self) -> Seq<AttrV> {
        attr_written("state"@, self.state)
    }

    open spec fn written_children(&self) -> nat {
        (0) as nat
    }

    fn from_raw(parser: MapParser) -> (r: Result<Self, MapElementParsingError>) {
        proof {
            let ghost ok = Self::fields_ok(parser);
            let ghost ex = Self::exact(parser);
        }
        proof {
            parser.lemma_searchable();
        }
        Ok(OshiroTrigger {
            state: parser.get_attribute("state")?,
        })
    }

    fn to_raw(&self, encoder: &mut MapEncoder) {
        encoder.attribute("state", self.state.to_encoded());
    }
}

#[derive(Debug)]
pub struct MoonGlitchBackgroundTrigger {
    pub duration: ResolvableString,
    pub stay: bool,
    pub glitch: bool,
}

impl Trigger for MoonGlitchBackgroundTrigger {
    open spec fn trigger_name() -> Seq<char> {
        "moonGlitchBackgroundTrigger"@
    }

    fn name() -> (r: &'static str) {
        "moonGlitchBackgroundTrigger"
    }

    open spec fn fields_read(p: MapParser, x: Self) -> bool {
        &&& attr_read::<ResolvableString>(p, "duration"@, x.duration)
        &&& attr_read::<bool>(p, "stay"@, x.stay)
        &&& attr_read::<bool>(p, "glitch"@, x.glitch)
    }

    open spec fn fields_ok(p: MapParser) -> bool {
        &&& attr_ok::<ResolvableString>(p, "duration"@)
        &&& attr_ok::<bool>(p, "stay"@)
        &&& attr_ok::<bool>(p, "glitch"@)
    }

    open spec fn exact(p: MapParser) -> bool {
        true
    }

    open spec fn written_attrs(&self) -> Seq<AttrV> {
        attr_written("duration"@, self.duration)
            + attr_written("stay"@, self.stay)
            + attr_written("glitch"@, self.glitch)
    }

    open spec fn written_children(&self) -> nat {
        (0) as nat
    }

    fn from_raw(parser: MapParser) -> (r: Result<Self, MapElementParsingError>) {
        proof {
            let ghost ok = Self::fields_ok(parser);
            let ghost ex = Self::exact(parser);
        }
        proof {
            parser.lemma_searchable();
        }
        Ok(MoonGlitchBackgroundTrigger {
            duration: parser.get_attribute("duration")?,
            stay: parser.get_attribute("stay")?,
            glitch: parser.get_attribute("glitch")?,
        })
    }

    fn to_raw(&self, encoder: &mut MapEncoder) {
        encoder.attribute("duration", self.duration.to_encoded());
        encoder.attribute("stay", self.stay.to_encoded());
        encoder.attribute("glitch", self.glitch.to_encoded());
    }
}

#[derive(Debug)]
pub struct InteractTrigger {
    pub event: ResolvableString,
    pub event_2: ResolvableString,
    pub event_3: ResolvableString,
    pub node: Option<Node>,
}

impl Trigger for InteractTrigger {
    open spec fn trigger_name() -> Seq<char> {
        "interactTrigger"@
    }

    fn name() -> (r: &'static str) {
        "interactTrigger"
    }

    open spec fn fields_read(p: MapParser, x: Self) -> bool {
        &&& attr_read::<ResolvableString>(p, "event"@, x.event)
        &&& attr_read::<ResolvableString>(p, "event_2"@, x.event_2)
        &&& attr_read::<ResolvableString>(p, "event_3"@, x.event_3)
        &&& opt_child_read::<Node>(p, x.node)
    }

    open spec fn fields_ok(p: MapParser) -> bool {
        &&& attr_ok::<ResolvableString>(p, "event"@)
        &&& attr_ok::<ResolvableString>(p, "event_2"@)
        &&& attr_ok::<ResolvableString>(p, "event_3"@)
        &&& opt_child_ok::<Node>(p)
    }

    open spec fn exact(p: MapParser) -> bool {
        &&& child_exact::<Node>(p)
    }

    open spec fn written_attrs(&self) -> Seq<AttrV> {
        attr_written("event"@, self.event)
            + attr_written("event_2"@, self.event_2)
            + attr_written("event_3"@, self.event_3)
    }

    open spec fn written_children(&self) -> nat {
        (opt_count(self.node)) as nat
    }

    fn from_raw(parser: MapParser) -> (r: Result<Self, MapElementParsingError>) {
        proof {
            let ghost ok = Self::fields_ok(parser);
            let ghost ex = Self::exact(parser);
        }
        proof {
            parser.lemma_searchable();
        }
        Ok(InteractTrigger {
            event: parser.get_attribute("event")?,
            event_2: parser.get_attribute("event_2")?,
            event_3: parser.get_attribute("event_3")?,
            node: parser.parse_optional_element()?,
        })
    }

    fn to_raw(&self, encoder: &mut MapEncoder) {
        encoder.attribute("event", self.event.to_encoded());
        encoder.attribute("event_2", self.event_2.to_encoded());
        encoder.attribute("event_3", self.event_3.to_encoded());
        if let Some(v) = &self.node {
            encoder.child(v);
        }
    }
}
} // verus!

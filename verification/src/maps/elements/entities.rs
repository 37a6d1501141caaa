//! The vanilla entities, each with the attributes and nodes it is stored with.
use vstd::prelude::*;

pub use crate::maps::elements::dynamic::{add_entity_parsers, add_unit_entity_parsers};
use crate::maps::elements::{Entity, Node, Trigger};
use crate::maps::encoder::MapEncoder;
use crate::maps::lookup::ResolvableString;
use crate::maps::parser::{
    attr_ok, attr_read, attr_written, child_exact, child_ok, children_exact, child_read, children_ok, children_read, opt_attr_ok, opt_attr_read,
    opt_attr_written, opt_child_ok, opt_child_read, opt_count, MapElement, MapElementParsingError, MapParser,
    ToEncodedVar,
};
use crate::maps::AttrV;
use crate::maps::var_types::Character;
use crate::utils::num::{Float, Integer};

verus! {

#[derive(Debug, Clone, Copy, PartialEq, Eq, Structural)]
pub struct Player;

impl Entity for Player {
    open spec fn entity_name() -> Seq<char> {
        "player"@
    }

    fn name() -> (r: &'static str) {
        "player"
    }

    open spec fn fields_read(p: MapParser, x: Self) -> bool {
        true
    }

    open spec fn fields_ok(p: MapParser) -> bool {
        true
    }

    open spec fn exact(p: MapParser) -> bool {
        true
    }

    open spec fn written_attrs(&self) -> Seq<AttrV> {
        Seq::empty()
    }

    open spec fn written_children(&self) -> nat {
        (0) as nat
    }

    fn from_raw(parser: MapParser) -> (r: Result<Self, MapElementParsingError>) {
        proof {
            let ghost ok = Self::fields_ok(parser);
            let ghost ex = Self::exact(parser);
        }
        Ok(Player)
    }

    fn to_raw(&self, encoder: &mut MapEncoder) {
    }
}

#[derive(Debug, Clone, Copy, PartialEq, Eq, Structural)]
pub struct GoldenBerry;

impl Entity for GoldenBerry {
    open spec fn entity_name() -> Seq<char> {
        "goldenBerry"@
    }

    fn name() -> (r: &'static str) {
        "goldenBerry"
    }

    open spec fn fields_read(p: MapParser, x: Self) -> bool {
        true
    }

    open spec fn fields_ok(p: MapParser) -> bool {
        true
    }

    open spec fn exact(p: MapParser) -> bool {
        true
    }

    open spec fn written_attrs(&self) -> Seq<AttrV> {
        Seq::empty()
    }

    open spec fn written_children(&self) -> nat {
        (0) as nat
    }

    fn from_raw(parser: MapParser) -> (r: Result<Self, MapElementParsingError>) {
        proof {
            let ghost ok = Self::fields_ok(parser);
            let ghost ex = Self::exact(parser);
        }
        Ok(GoldenBerry)
    }

    fn to_raw(&self, encoder: &mut MapEncoder) {
    }
}

#[derive(Debug, Clone, Copy, PartialEq, Eq, Structural)]
pub struct CrumbleBlock;

impl Entity for CrumbleBlock {
    open spec fn entity_name() -> Seq<char> {
        "crumbleBlock"@
    }

    fn name() -> (r: &'static str) {
        "crumbleBlock"
    }

    open spec fn fields_read(p: MapParser, x: Self) -> bool {
        true
    }

    open spec fn fields_ok(p: MapParser) -> bool {
        true
    }

    open spec fn exact(p: MapParser) -> bool {
        true
    }

    open spec fn written_attrs(&self) -> Seq<AttrV> {
        Seq::empty()
    }

    open spec fn written_children(&self) -> nat {
        (0) as nat
    }

    fn from_raw(parser: MapParser) -> (r: Result<Self, MapElementParsingError>) {
        proof {
            let ghost ok = Self::fields_ok(parser);
            let ghost ex = Self::exact(parser);
        }
        Ok(CrumbleBlock)
    }

    fn to_raw(&self, encoder: &mut MapEncoder) {
    }
}

#[derive(Debug, Clone, Copy, PartialEq, Eq, Structural)]
pub struct Checkpoint;

impl Entity for Checkpoint {
    open spec fn entity_name() -> Seq<char> {
        "checkpoint"@
    }

    fn name() -> (r: &'static str) {
        "checkpoint"
    }

    open spec fn fields_read(p: MapParser, x: Self) -> bool {
        true
    }

    open spec fn fields_ok(p: MapParser) -> bool {
        true
    }

    open spec fn exact(p: MapParser) -> bool {
        true
    }

    open spec fn written_attrs(&self) -> Seq<AttrV> {
        Seq::empty()
    }

    open spec fn written_children(&self) -> nat {
        (0) as nat
    }

    fn from_raw(parser: MapParser) -> (r: Result<Self, MapElementParsingError>) {
        proof {
            let ghost ok = Self::fields_ok(parser);
            let ghost ex = Self::exact(parser);
        }
        Ok(Checkpoint)
    }

    fn to_raw(&self, encoder: &mut MapEncoder) {
    }
}

#[derive(Debug, Clone, Copy, PartialEq, Eq, Structural)]
pub struct WingedGoldenStrawberry;

impl Entity for WingedGoldenStrawberry {
    open spec fn entity_name() -> Seq<char> {
        "memorialTextController"@
    }

    fn name() -> (r: &'static str) {
        "memorialTextController"
    }

    open spec fn fields_read(p: MapParser, x: Self) -> bool {
        true
    }

    open spec fn fields_ok(p: MapParser) -> bool {
        true
    }

    open spec fn exact(p: MapParser) -> bool {
        true
    }

    open spec fn written_attrs(&self) -> Seq<AttrV> {
        Seq::empty()
    }

    open spec fn written_children(&self) -> nat {
        (0) as nat
    }

    fn from_raw(parser: MapParser) -> (r: Result<Self, MapElementParsingError>) {
        proof {
            let ghost ok = Self::fields_ok(parser);
            let ghost ex = Self::exact(parser);
        }
        Ok(WingedGoldenStrawberry)
    }

    fn to_raw(&self, encoder: &mut MapEncoder) {
    }
}

#[derive(Debug, Clone, Copy, PartialEq, Eq, Structural)]
pub struct FlutterBird;

impl Entity for FlutterBird {
    open spec fn entity_name() -> Seq<char> {
        "flutterbird"@
    }

    fn name() -> (r: &'static str) {
        "flutterbird"
    }

    open spec fn fields_read(p: MapParser, x: Self) -> bool {
        true
    }

    open spec fn fields_ok(p: MapParser) -> bool {
        true
    }

    open spec fn exact(p: MapParser) -> bool {
        true
    }

    open spec fn written_attrs(&self) -> Seq<AttrV> {
        Seq::empty()
    }

    open spec fn written_children(&self) -> nat {
        (0) as nat
    }

    fn from_raw(parser: MapParser) -> (r: Result<Self, MapElementParsingError>) {
        proof {
            let ghost ok = Self::fields_ok(parser);
            let ghost ex = Self::exact(parser);
        }
        Ok(FlutterBird)
    }

    fn to_raw(&self, encoder: &mut MapEncoder) {
    }
}

#[derive(Debug, Clone, Copy, PartialEq, Eq, Structural)]
pub struct Plateau;

impl Entity for Plateau {
    open spec fn entity_name() -> Seq<char> {
        "plateau"@
    }

    fn name() -> (r: &'static str) {
        "plateau"
    }

    open spec fn fields_read(p: MapParser, x: Self) -> bool {
        true
    }

    open spec fn fields_ok(p: MapParser) -> bool {
        true
    }

    open spec fn exact(p: MapParser) -> bool {
        true
    }

    open spec fn written_attrs(&self) -> Seq<AttrV> {
        Seq::empty()
    }

    open spec fn written_children(&self) -> nat {
        (0) as nat
    }

    fn from_raw(parser: MapParser) -> (r: Result<Self, MapElementParsingError>) {
        proof {
            let ghost ok = Self::fields_ok(parser);
            let ghost ex = Self::exact(parser);
        }
        Ok(Plateau)
    }

    fn to_raw(&self, encoder: &mut MapEncoder) {
    }
}

#[derive(Debug, Clone, Copy, PartialEq, Eq, Structural)]
pub struct Payphone;

impl Entity for Payphone {
    open spec fn entity_name() -> Seq<char> {
        "payphone"@
    }

    fn name() -> (r: &'static str) {
        "payphone"
    }

    open spec fn fields_read(p: MapParser, x: Self) -> bool {
        true
    }

    open spec fn fields_ok(p: MapParser) -> bool {
        true
    }

    open spec fn exact(p: MapParser) -> bool {
        true
    }

    open spec fn written_attrs(&self) -> Seq<AttrV> {
        Seq::empty()
    }

    open spec fn written_children(&self) -> nat {
        (0) as nat
    }

    fn from_raw(parser: MapParser) -> (r: Result<Self, MapElementParsingError>) {
        proof {
            let ghost ok = Self::fields_ok(parser);
            let ghost ex = Self::exact(parser);
        }
        Ok(Payphone)
    }

    fn to_raw(&self, encoder: &mut MapEncoder) {
    }
}

#[derive(Debug, Clone, Copy, PartialEq, Eq, Structural)]
pub struct WavedashMachine;

impl Entity for WavedashMachine {
    open spec fn entity_name() -> Seq<char> {
        "wavedashmachine"@
    }

    fn name() -> (r: &'static str) {
        "wavedashmachine"
    }

    open spec fn fields_read(p: MapParser, x: Self) -> bool {
        true
    }

    open spec fn fields_ok(p: MapParser) -> bool {
        true
    }

    open spec fn exact(p: MapParser) -> bool {
        true
    }

    open spec fn written_attrs(&self) -> Seq<AttrV> {
        Seq::empty()
    }

    open spec fn written_children(&self) -> nat {
        (0) as nat
    }

    fn from_raw(parser: MapParser) -> (r: Result<Self, MapElementParsingError>) {
        proof {
            let ghost ok = Self::fields_ok(parser);
            let ghost ex = Self::exact(parser);
        }
        Ok(WavedashMachine)
    }

    fn to_raw(&self, encoder: &mut MapEncoder) {
    }
}

#[derive(Debug, Clone, Copy, PartialEq, Eq, Structural)]
pub struct PlaybackBillboard;

impl Entity for PlaybackBillboard {
    open spec fn entity_name() -> Seq<char> {
        "playbackBillboard"@
    }

    fn name() -> (r: &'static str) {
        "playbackBillboard"
    }

    open spec fn fields_read(p: MapParser, x: Self) -> bool {
        true
    }

    open spec fn fields_ok(p: MapParser) -> bool {
        true
    }

    open spec fn exact(p: MapParser) -> bool {
        true
    }

    open spec fn written_attrs(&self) -> Seq<AttrV> {
        Seq::empty()
    }

    open spec fn written_children(&self) -> nat {
        (0) as nat
    }

    fn from_raw(parser: MapParser) -> (r: Result<Self, MapElementParsingError>) {
        proof {
            let ghost ok = Self::fields_ok(parser);
            let ghost ex = Self::exact(parser);
        }
        Ok(PlaybackBillboard)
    }

    fn to_raw(&self, encoder: &mut MapEncoder) {
    }
}

#[derive(Debug, Clone, Copy, PartialEq, Eq, Structural)]
pub struct SinkingPlatform;

impl Entity for SinkingPlatform {
    open spec fn entity_name() -> Seq<char> {
        "sinkingPlatform"@
    }

    fn name() -> (r: &'static str) {
        "sinkingPlatform"
    }

    open spec fn fields_read(p: MapParser, x: Self) -> bool {
        true
    }

    open spec fn fields_ok(p: MapParser) -> bool {
        true
    }

    open spec fn exact(p: MapParser) -> bool {
        true
    }

    open spec fn written_attrs(&self) -> Seq<AttrV> {
        Seq::empty()
    }

    open spec fn written_children(&self) -> nat {
        (0) as nat
    }

    fn from_raw(parser: MapParser) -> (r: Result<Self, MapElementParsingError>) {
        proof {
            let ghost ok = Self::fields_ok(parser);
            let ghost ex = Self::exact(parser);
        }
        Ok(SinkingPlatform)
    }

    fn to_raw(&self, encoder: &mut MapEncoder) {
    }
}

#[derive(Debug, Clone, Copy, PartialEq, Eq, Structural)]
pub struct PlayerSeeker;

impl Entity for PlayerSeeker {
    open spec fn entity_name() -> Seq<char> {
        "playerSeeker"@
    }

    fn name() -> (r: &'static str) {
        "playerSeeker"
    }

    open spec fn fields_read(p: MapParser, x: Self) -> bool {
        true
    }

    open spec fn fields_ok(p: MapParser) -> bool {
        true
    }

    open spec fn exact(p: MapParser) -> bool {
        true
    }

    open spec fn written_attrs(&self) -> Seq<AttrV> {
        Seq::empty()
    }

    open spec fn written_children(&self) -> nat {
        (0) as nat
    }

    fn from_raw(parser: MapParser) -> (r: Result<Self, MapElementParsingError>) {
        proof {
            let ghost ok = Self::fields_ok(parser);
            let ghost ex = Self::exact(parser);
        }
        Ok(PlayerSeeker)
    }

    fn to_raw(&self, encoder: &mut MapEncoder) {
    }
}

#[derive(Debug, Clone, Copy, PartialEq, Eq, Structural)]
pub struct PICOConsole;

impl Entity for PICOConsole {
    open spec fn entity_name() -> Seq<char> {
        "picoconsole"@
    }

    fn name() -> (r: &'static str) {
        "picoconsole"
    }

    open spec fn fields_read(p: MapParser, x: Self) -> bool {
        true
    }

    open spec fn fields_ok(p: MapParser) -> bool {
        true
    }

    open spec fn exact(p: MapParser) -> bool {
        true
    }

    open spec fn written_attrs(&self) -> Seq<AttrV> {
        Seq::empty()
    }

    open spec fn written_children(&self) -> nat {
        (0) as nat
    }

    fn from_raw(parser: MapParser) -> (r: Result<Self, MapElementParsingError>) {
        proof {
            let ghost ok = Self::fields_ok(parser);
            let ghost ex = Self::exact(parser);
        }
        Ok(PICOConsole)
    }

    fn to_raw(&self, encoder: &mut MapEncoder) {
    }
}

#[derive(Debug, Clone, Copy, PartialEq, Eq, Structural)]
pub struct DarkChaser;

impl Entity for DarkChaser {
    open spec fn entity_name() -> Seq<char> {
        "darkChaser"@
    }

    fn name() -> (r: &'static str) {
        "darkChaser"
    }

    open spec fn fields_read(p: MapParser, x: Self) -> bool {
        true
    }

    open spec fn fields_ok(p: MapParser) -> bool {
        true
    }

    open spec fn exact(p: MapParser) -> bool {
        true
    }

    open spec fn written_attrs(&self) -> Seq<AttrV> {
        Seq::empty()
    }

    open spec fn written_children(&self) -> nat {
        (0) as nat
    }

    fn from_raw(parser: MapParser) -> (r: Result<Self, MapElementParsingError>) {
        proof {
            let ghost ok = Self::fields_ok(parser);
            let ghost ex = Self::exact(parser);
        }
        Ok(DarkChaser)
    }

    fn to_raw(&self, encoder: &mut MapEncoder) {
    }
}

#[derive(Debug, Clone, Copy, PartialEq, Eq, Structural)]
pub struct ResortRoofEnding;

impl Entity for ResortRoofEnding {
    open spec fn entity_name() -> Seq<char> {
        "resortRoofEnding"@
    }

    fn name() -> (r: &'static str) {
        "resortRoofEnding"
    }

    open spec fn fields_read(p: MapParser, x: Self) -> bool {
        true
    }

    open spec fn fields_ok(p: MapParser) -> bool {
        true
    }

    open spec fn exact(p: MapParser) -> bool {
        true
    }

    open spec fn written_attrs(&self) -> Seq<AttrV> {
        Seq::empty()
    }

    open spec fn written_children(&self) -> nat {
        (0) as nat
    }

    fn from_raw(parser: MapParser) -> (r: Result<Self, MapElementParsingError>) {
        proof {
            let ghost ok = Self::fields_ok(parser);
            let ghost ex = Self::exact(parser);
        }
        Ok(ResortRoofEnding)
    }

    fn to_raw(&self, encoder: &mut MapEncoder) {
    }
}

#[derive(Debug, Clone, Copy, PartialEq, Eq, Structural)]
pub struct FireBarrier;

impl Entity for FireBarrier {
    open spec fn entity_name() -> Seq<char> {
        "fireBarrier"@
    }

    fn name() -> (r: &'static str) {
        "fireBarrier"
    }

    open spec fn fields_read(p: MapParser, x: Self) -> bool {
        true
    }

    open spec fn fields_ok(p: MapParser) -> bool {
        true
    }

    open spec fn exact(p: MapParser) -> bool {
        true
    }

    open spec fn written_attrs(&self) -> Seq<AttrV> {
        Seq::empty()
    }

    open spec fn written_children(&self) -> nat {
        (0) as nat
    }

    fn from_raw(parser: MapParser) -> (r: Result<Self, MapElementParsingError>) {
        proof {
            let ghost ok = Self::fields_ok(parser);
            let ghost ex = Self::exact(parser);
        }
        Ok(FireBarrier)
    }

    fn to_raw(&self, encoder: &mut MapEncoder) {
    }
}

#[derive(Debug, Clone, Copy, PartialEq, Eq, Structural)]
pub struct TriggerSpikesUp;

impl Entity for TriggerSpikesUp {
    open spec fn entity_name() -> Seq<char> {
        "triggerSpikesUp"@
    }

    fn name() -> (r: &'static str) {
        "triggerSpikesUp"
    }

    open spec fn fields_read(p: MapParser, x: Self) -> bool {
        true
    }

    open spec fn fields_ok(p: MapParser) -> bool {
        true
    }

    open spec fn exact(p: MapParser) -> bool {
        true
    }

    open spec fn written_attrs(&self) -> Seq<AttrV> {
        Seq::empty()
    }

    open spec fn written_children(&self) -> nat {
        (0) as nat
    }

    fn from_raw(parser: MapParser) -> (r: Result<Self, MapElementParsingError>) {
        proof {
            let ghost ok = Self::fields_ok(parser);
            let ghost ex = Self::exact(parser);
        }
        Ok(TriggerSpikesUp)
    }

    fn to_raw(&self, encoder: &mut MapEncoder) {
    }
}

#[derive(Debug, Clone, Copy, PartialEq, Eq, Structural)]
pub struct TriggerSpikesDown;

impl Entity for TriggerSpikesDown {
    open spec fn entity_name() -> Seq<char> {
        "triggerSpikesDown"@
    }

    fn name() -> (r: &'static str) {
        "triggerSpikesDown"
    }

    open spec fn fields_read(p: MapParser, x: Self) -> bool {
        true
    }

    open spec fn fields_ok(p: MapParser) -> bool {
        true
    }

    open spec fn exact(p: MapParser) -> bool {
        true
    }

    open spec fn written_attrs(&self) -> Seq<AttrV> {
        Seq::empty()
    }

    open spec fn written_children(&self) -> nat {
        (0) as nat
    }

    fn from_raw(parser: MapParser) -> (r: Result<Self, MapElementParsingError>) {
        proof {
            let ghost ok = Self::fields_ok(parser);
            let ghost ex = Self::exact(parser);
        }
        Ok(TriggerSpikesDown)
    }

    fn to_raw(&self, encoder: &mut MapEncoder) {
    }
}

#[derive(Debug, Clone, Copy, PartialEq, Eq, Structural)]
pub struct IceBlock;

impl Entity for IceBlock {
    open spec fn entity_name() -> Seq<char> {
        "iceBlock"@
    }

    fn name() -> (r: &'static str) {
        "iceBlock"
    }

    open spec fn fields_read(p: MapParser, x: Self) -> bool {
        true
    }

    open spec fn fields_ok(p: MapParser) -> bool {
        true
    }

    open spec fn exact(p: MapParser) -> bool {
        true
    }

    open spec fn written_attrs(&self) -> Seq<AttrV> {
        Seq::empty()
    }

    open spec fn written_children(&self) -> nat {
        (0) as nat
    }

    fn from_raw(parser: MapParser) -> (r: Result<Self, MapElementParsingError>) {
        proof {
            let ghost ok = Self::fields_ok(parser);
            let ghost ex = Self::exact(parser);
        }
        Ok(IceBlock)
    }

    fn to_raw(&self, encoder: &mut MapEncoder) {
    }
}

#[derive(Debug, Clone, Copy, PartialEq, Eq, Structural)]
pub struct Waterfall;

impl Entity for Waterfall {
    open spec fn entity_name() -> Seq<char> {
        "waterfall"@
    }

    fn name() -> (r: &'static str) {
        "waterfall"
    }

    open spec fn fields_read(p: MapParser, x: Self) -> bool {
        true
    }

    open spec fn fields_ok(p: MapParser) -> bool {
        true
    }

    open spec fn exact(p: MapParser) -> bool {
        true
    }

    open spec fn written_attrs(&self) -> Seq<AttrV> {
        Seq::empty()
    }

    open spec fn written_children(&self) -> nat {
        (0) as nat
    }

    fn from_raw(parser: MapParser) -> (r: Result<Self, MapElementParsingError>) {
        proof {
            let ghost ok = Self::fields_ok(parser);
            let ghost ex = Self::exact(parser);
        }
        Ok(Waterfall)
    }

    fn to_raw(&self, encoder: &mut MapEncoder) {
    }
}

#[derive(Debug, Clone, Copy, PartialEq, Eq, Structural)]
pub struct BounceBlock;

impl Entity for BounceBlock {
    open spec fn entity_name() -> Seq<char> {
        "bounceBlock"@
    }

    fn name() -> (r: &'static str) {
        "bounceBlock"
    }

    open spec fn fields_read(p: MapParser, x: Self) -> bool {
        true
    }

    open spec fn fields_ok(p: MapParser) -> bool {
        true
    }

    open spec fn exact(p: MapParser) -> bool {
        true
    }

    open spec fn written_attrs(&self) -> Seq<AttrV> {
        Seq::empty()
    }

    open spec fn written_children(&self) -> nat {
        (0) as nat
    }

    fn from_raw(parser: MapParser) -> (r: Result<Self, MapElementParsingError>) {
        proof {
            let ghost ok = Self::fields_ok(parser);
            let ghost ex = Self::exact(parser);
        }
        Ok(BounceBlock)
    }

    fn to_raw(&self, encoder: &mut MapEncoder) {
    }
}

#[derive(Debug, Clone, Copy, PartialEq, Eq, Structural)]
pub struct ResortLantern;

impl Entity for ResortLantern {
    open spec fn entity_name() -> Seq<char> {
        "resortLantern"@
    }

    fn name() -> (r: &'static str) {
        "resortLantern"
    }

    open spec fn fields_read(p: MapParser, x: Self) -> bool {
        true
    }

    open spec fn fields_ok(p: MapParser) -> bool {
        true
    }

    open spec fn exact(p: MapParser) -> bool {
        true
    }

    open spec fn written_attrs(&self) -> Seq<AttrV> {
        Seq::empty()
    }

    open spec fn written_children(&self) -> nat {
        (0) as nat
    }

    fn from_raw(parser: MapParser) -> (r: Result<Self, MapElementParsingError>) {
        proof {
            let ghost ok = Self::fields_ok(parser);
            let ghost ex = Self::exact(parser);
        }
        Ok(ResortLantern)
    }

    fn to_raw(&self, encoder: &mut MapEncoder) {
    }
}

#[derive(Debug, Clone, Copy, PartialEq, Eq, Structural)]
pub struct KillBox;

impl Entity for KillBox {
    open spec fn entity_name() -> Seq<char> {
        "killbox"@
    }

    fn name() -> (r: &'static str) {
        "killbox"
    }

    open spec fn fields_read(p: MapParser, x: Self) -> bool {
        true
    }

    open spec fn fields_ok(p: MapParser) -> bool {
        true
    }

    open spec fn exact(p: MapParser) -> bool {
        true
    }

    open spec fn written_attrs(&self) -> Seq<AttrV> {
        Seq::empty()
    }

    open spec fn written_children(&self) -> nat {
        (0) as nat
    }

    fn from_raw(parser: MapParser) -> (r: Result<Self, MapElementParsingError>) {
        proof {
            let ghost ok = Self::fields_ok(parser);
            let ghost ex = Self::exact(parser);
        }
        Ok(KillBox)
    }

    fn to_raw(&self, encoder: &mut MapEncoder) {
    }
}

#[derive(Debug, Clone, Copy, PartialEq, Eq, Structural)]
pub struct TouchSwitch;

impl Entity for TouchSwitch {
    open spec fn entity_name() -> Seq<char> {
        "touchSwitch"@
    }

    fn name() -> (r: &'static str) {
        "touchSwitch"
    }

    open spec fn fields_read(p: MapParser, x: Self) -> bool {
        true
    }

    open spec fn fields_ok(p: MapParser) -> bool {
        true
    }

    open spec fn exact(p: MapParser) -> bool {
        true
    }

    open spec fn written_attrs(&self) -> Seq<AttrV> {
        Seq::empty()
    }

    open spec fn written_children(&self) -> nat {
        (0) as nat
    }

    fn from_raw(parser: MapParser) -> (r: Result<Self, MapElementParsingError>) {
        proof {
            let ghost ok = Self::fields_ok(parser);
            let ghost ex = Self::exact(parser);
        }
        Ok(TouchSwitch)
    }

    fn to_raw(&self, encoder: &mut MapEncoder) {
    }
}

#[derive(Debug, Clone, Copy, PartialEq, Eq, Structural)]
pub struct ClutterCabinet;

impl Entity for ClutterCabinet {
    open spec fn entity_name() -> Seq<char> {
        "clutterCabinet"@
    }

    fn name() -> (r: &'static str) {
        "clutterCabinet"
    }

    open spec fn fields_read(p: MapParser, x: Self) -> bool {
        true
    }

    open spec fn fields_ok(p: MapParser) -> bool {
        true
    }

    open spec fn exact(p: MapParser) -> bool {
        true
    }

    open spec fn written_attrs(&self) -> Seq<AttrV> {
        Seq::empty()
    }

    open spec fn written_children(&self) -> nat {
        (0) as nat
    }

    fn from_raw(parser: MapParser) -> (r: Result<Self, MapElementParsingError>) {
        proof {
            let ghost ok = Self::fields_ok(parser);
            let ghost ex = Self::exact(parser);
        }
        Ok(ClutterCabinet)
    }

    fn to_raw(&self, encoder: &mut MapEncoder) {
    }
}

#[derive(Debug, Clone, Copy, PartialEq, Eq, Structural)]
pub struct TheoCrystal;

impl Entity for TheoCrystal {
    open spec fn entity_name() -> Seq<char> {
        "theoCrystal"@
    }

    fn name() -> (r: &'static str) {
        "theoCrystal"
    }

    open spec fn fields_read(p: MapParser, x: Self) -> bool {
        true
    }

    open spec fn fields_ok(p: MapParser) -> bool {
        true
    }

    open spec fn exact(p: MapParser) -> bool {
        true
    }

    open spec fn written_attrs(&self) -> Seq<AttrV> {
        Seq::empty()
    }

    open spec fn written_children(&self) -> nat {
        (0) as nat
    }

    fn from_raw(parser: MapParser) -> (r: Result<Self, MapElementParsingError>) {
        proof {
            let ghost ok = Self::fields_ok(parser);
            let ghost ex = Self::exact(parser);
        }
        Ok(TheoCrystal)
    }

    fn to_raw(&self, encoder: &mut MapEncoder) {
    }
}

#[derive(Debug, Clone, Copy, PartialEq, Eq, Structural)]
pub struct BlockField;

impl Entity for BlockField {
    open spec fn entity_name() -> Seq<char> {
        "blockField"@
    }

    fn name() -> (r: &'static str) {
        "blockField"
    }

    open spec fn fields_read(p: MapParser, x: Self) -> bool {
        true
    }

    open spec fn fields_ok(p: MapParser) -> bool {
        true
    }

    open spec fn exact(p: MapParser) -> bool {
        true
    }

    open spec fn written_attrs(&self) -> Seq<AttrV> {
        Seq::empty()
    }

    open spec fn written_children(&self) -> nat {
        (0) as nat
    }

    fn from_raw(parser: MapParser) -> (r: Result<Self, MapElementParsingError>) {
        proof {
            let ghost ok = Self::fields_ok(parser);
            let ghost ex = Self::exact(parser);
        }
        Ok(BlockField)
    }

    fn to_raw(&self, encoder: &mut MapEncoder) {
    }
}

#[derive(Debug, Clone, Copy, PartialEq, Eq, Structural)]
pub struct InvisibleBarrier;

impl Entity for InvisibleBarrier {
    open spec fn entity_name() -> Seq<char> {
        "invisibleBarrier"@
    }

    fn name() -> (r: &'static str) {
        "invisibleBarrier"
    }

    open spec fn fields_read(p: MapParser, x: Self) -> bool {
        true
    }

    open spec fn fields_ok(p: MapParser) -> bool {
        true
    }

    open spec fn exact(p: MapParser) -> bool {
        true
    }

    open spec fn written_attrs(&self) -> Seq<AttrV> {
        Seq::empty()
    }

    open spec fn written_children(&self) -> nat {
        (0) as nat
    }

    fn from_raw(parser: MapParser) -> (r: Result<Self, MapElementParsingError>) {
        proof {
            let ghost ok = Self::fields_ok(parser);
            let ghost ex = Self::exact(parser);
        }
        Ok(InvisibleBarrier)
    }

    fn to_raw(&self, encoder: &mut MapEncoder) {
    }
}

#[derive(Debug, Clone, Copy, PartialEq, Eq, Structural)]
pub struct TempleMirrorPortal;

impl Entity for TempleMirrorPortal {
    open spec fn entity_name() -> Seq<char> {
        "templeMirrorPortal"@
    }

    fn name() -> (r: &'static str) {
        "templeMirrorPortal"
    }

    open spec fn fields_read(p: MapParser, x: Self) -> bool {
        true
    }

    open spec fn fields_ok(p: MapParser) -> bool {
        true
    }

    open spec fn exact(p: MapParser) -> bool {
        true
    }

    open spec fn written_attrs(&self) -> Seq<AttrV> {
        Seq::empty()
    }

    open spec fn written_children(&self) -> nat {
        (0) as nat
    }

    fn from_raw(parser: MapParser) -> (r: Result<Self, MapElementParsingError>) {
        proof {
            let ghost ok = Self::fields_ok(parser);
            let ghost ex = Self::exact(parser);
        }
        Ok(TempleMirrorPortal)
    }

    fn to_raw(&self, encoder: &mut MapEncoder) {
    }
}

#[derive(Debug, Clone, Copy, PartialEq, Eq, Structural)]
pub struct TriggerSpikesRight;

impl Entity for TriggerSpikesRight {
    open spec fn entity_name() -> Seq<char> {
        "triggerSpikesRight"@
    }

    fn name() -> (r: &'static str) {
        "triggerSpikesRight"
    }

    open spec fn fields_read(p: MapParser, x: Self) -> bool {
        true
    }

    open spec fn fields_ok(p: MapParser) -> bool {
        true
    }

    open spec fn exact(p: MapParser) -> bool {
        true
    }

    open spec fn written_attrs(&self) -> Seq<AttrV> {
        Seq::empty()
    }

    open spec fn written_children(&self) -> nat {
        (0) as nat
    }

    fn from_raw(parser: MapParser) -> (r: Result<Self, MapElementParsingError>) {
        proof {
            let ghost ok = Self::fields_ok(parser);
            let ghost ex = Self::exact(parser);
        }
        Ok(TriggerSpikesRight)
    }

    fn to_raw(&self, encoder: &mut MapEncoder) {
    }
}

#[derive(Debug, Clone, Copy, PartialEq, Eq, Structural)]
pub struct BridgeFixed;

impl Entity for BridgeFixed {
    open spec fn entity_name() -> Seq<char> {
        "bridgeFixed"@
    }

    fn name() -> (r: &'static str) {
        "bridgeFixed"
    }

    open spec fn fields_read(p: MapParser, x: Self) -> bool {
        true
    }

    open spec fn fields_ok(p: MapParser) -> bool {
        true
    }

    open spec fn exact(p: MapParser) -> bool {
        true
    }

    open spec fn written_attrs(&self) -> Seq<AttrV> {
        Seq::empty()
    }

    open spec fn written_children(&self) -> nat {
        (0) as nat
    }

    fn from_raw(parser: MapParser) -> (r: Result<Self, MapElementParsingError>) {
        proof {
            let ghost ok = Self::fields_ok(parser);
            let ghost ex = Self::exact(parser);
        }
        Ok(BridgeFixed)
    }

    fn to_raw(&self, encoder: &mut MapEncoder) {
    }
}

#[derive(Debug, Clone, Copy, PartialEq, Eq, Structural)]
pub struct IntroCar;

impl Entity for IntroCar {
    open spec fn entity_name() -> Seq<char> {
        "introCar"@
    }

    fn name() -> (r: &'static str) {
        "introCar"
    }

    open spec fn fields_read(p: MapParser, x: Self) -> bool {
        true
    }

    open spec fn fields_ok(p: MapParser) -> bool {
        true
    }

    open spec fn exact(p: MapParser) -> bool {
        true
    }

    open spec fn written_attrs(&self) -> Seq<AttrV> {
        Seq::empty()
    }

    open spec fn written_children(&self) -> nat {
        (0) as nat
    }

    fn from_raw(parser: MapParser) -> (r: Result<Self, MapElementParsingError>) {
        proof {
            let ghost ok = Self::fields_ok(parser);
            let ghost ex = Self::exact(parser);
        }
        Ok(IntroCar)
    }

    fn to_raw(&self, encoder: &mut MapEncoder) {
    }
}

#[derive(Debug, Clone, Copy, PartialEq, Eq, Structural)]
pub struct ForegroundDebris;

impl Entity for ForegroundDebris {
    open spec fn entity_name() -> Seq<char> {
        "foregroundDebris"@
    }

    fn name() -> (r: &'static str) {
        "foregroundDebris"
    }

    open spec fn fields_read(p: MapParser, x: Self) -> bool {
        true
    }

    open spec fn fields_ok(p: MapParser) -> bool {
        true
    }

    open spec fn exact(p: MapParser) -> bool {
        true
    }

    open spec fn written_attrs(&self) -> Seq<AttrV> {
        Seq::empty()
    }

    open spec fn written_children(&self) -> nat {
        (0) as nat
    }

    fn from_raw(parser: MapParser) -> (r: Result<Self, MapElementParsingError>) {
        proof {
            let ghost ok = Self::fields_ok(parser);
            let ghost ex = Self::exact(parser);
        }
        Ok(ForegroundDebris)
    }

    fn to_raw(&self, encoder: &mut MapEncoder) {
    }
}

#[derive(Debug, Clone, Copy, PartialEq, Eq, Structural)]
pub struct OshiroDoor;

impl Entity for OshiroDoor {
    open spec fn entity_name() -> Seq<char> {
        "oshirodoor"@
    }

    fn name() -> (r: &'static str) {
        "oshirodoor"
    }

    open spec fn fields_read(p: MapParser, x: Self) -> bool {
        true
    }

    open spec fn fields_ok(p: MapParser) -> bool {
        true
    }

    open spec fn exact(p: MapParser) -> bool {
        true
    }

    open spec fn written_attrs(&self) -> Seq<AttrV> {
        Seq::empty()
    }

    open spec fn written_children(&self) -> nat {
        (0) as nat
    }

    fn from_raw(parser: MapParser) -> (r: Result<Self, MapElementParsingError>) {
        proof {
            let ghost ok = Self::fields_ok(parser);
            let ghost ex = Self::exact(parser);
        }
        Ok(OshiroDoor)
    }

    fn to_raw(&self, encoder: &mut MapEncoder) {
    }
}

#[derive(Debug, Clone, Copy, PartialEq, Eq, Structural)]
pub struct TheoCrystalHoldingBarrier;

impl Entity for TheoCrystalHoldingBarrier {
    open spec fn entity_name() -> Seq<char> {
        "theoCrystalHoldingBarrier"@
    }

    fn name() -> (r: &'static str) {
        "theoCrystalHoldingBarrier"
    }

    open spec fn fields_read(p: MapParser, x: Self) -> bool {
        true
    }

    open spec fn fields_ok(p: MapParser) -> bool {
        true
    }

    open spec fn exact(p: MapParser) -> bool {
        true
    }

    open spec fn written_attrs(&self) -> Seq<AttrV> {
        Seq::empty()
    }

    open spec fn written_children(&self) -> nat {
        (0) as nat
    }

    fn from_raw(parser: MapParser) -> (r: Result<Self, MapElementParsingError>) {
        proof {
            let ghost ok = Self::fields_ok(parser);
            let ghost ex = Self::exact(parser);
        }
        Ok(TheoCrystalHoldingBarrier)
    }

    fn to_raw(&self, encoder: &mut MapEncoder) {
    }
}

#[derive(Debug, Clone, Copy, PartialEq, Eq, Structural)]
pub struct TempleEye;

impl Entity for TempleEye {
    open spec fn entity_name() -> Seq<char> {
        "templeEye"@
    }

    fn name() -> (r: &'static str) {
        "templeEye"
    }

    open spec fn fields_read(p: MapParser, x: Self) -> bool {
        true
    }

    open spec fn fields_ok(p: MapParser) -> bool {
        true
    }

    open spec fn exact(p: MapParser) -> bool {
        true
    }

    open spec fn written_attrs(&self) -> Seq<AttrV> {
        Seq::empty()
    }

    open spec fn written_children(&self) -> nat {
        (0) as nat
    }

    fn from_raw(parser: MapParser) -> (r: Result<Self, MapElementParsingError>) {
        proof {
            let ghost ok = Self::fields_ok(parser);
            let ghost ex = Self::exact(parser);
        }
        Ok(TempleEye)
    }

    fn to_raw(&self, encoder: &mut MapEncoder) {
    }
}

#[derive(Debug, Clone, Copy, PartialEq, Eq, Structural)]
pub struct TheoCrystalPedestal;

impl Entity for TheoCrystalPedestal {
    open spec fn entity_name() -> Seq<char> {
        "theoCrystalPedestal"@
    }

    fn name() -> (r: &'static str) {
        "theoCrystalPedestal"
    }

    open spec fn fields_read(p: MapParser, x: Self) -> bool {
        true
    }

    open spec fn fields_ok(p: MapParser) -> bool {
        true
    }

    open spec fn exact(p: MapParser) -> bool {
        true
    }

    open spec fn written_attrs(&self) -> Seq<AttrV> {
        Seq::empty()
    }

    open spec fn written_children(&self) -> nat {
        (0) as nat
    }

    fn from_raw(parser: MapParser) -> (r: Result<Self, MapElementParsingError>) {
        proof {
            let ghost ok = Self::fields_ok(parser);
            let ghost ex = Self::exact(parser);
        }
        Ok(TheoCrystalPedestal)
    }

    fn to_raw(&self, encoder: &mut MapEncoder) {
    }
}

#[derive(Debug, Clone, Copy, PartialEq, Eq, Structural)]
pub struct FloatingDebris;

impl Entity for FloatingDebris {
    open spec fn entity_name() -> Seq<char> {
        "floatingDebris"@
    }

    fn name() -> (r: &'static str) {
        "floatingDebris"
    }

    open spec fn fields_read(p: MapParser, x: Self) -> bool {
        true
    }

    open spec fn fields_ok(p: MapParser) -> bool {
        true
    }

    open spec fn exact(p: MapParser) -> bool {
        true
    }

    open spec fn written_attrs(&self) -> Seq<AttrV> {
        Seq::empty()
    }

    open spec fn written_children(&self) -> nat {
        (0) as nat
    }

    fn from_raw(parser: MapParser) -> (r: Result<Self, MapElementParsingError>) {
        proof {
            let ghost ok = Self::fields_ok(parser);
            let ghost ex = Self::exact(parser);
        }
        Ok(FloatingDebris)
    }

    fn to_raw(&self, encoder: &mut MapEncoder) {
    }
}

#[derive(Debug, Clone, Copy, PartialEq, Eq, Structural)]
pub struct TriggerSpikesLeft;

impl Entity for TriggerSpikesLeft {
    open spec fn entity_name() -> Seq<char> {
        "triggerSpikesLeft"@
    }

    fn name() -> (r: &'static str) {
        "triggerSpikesLeft"
    }

    open spec fn fields_read(p: MapParser, x: Self) -> bool {
        true
    }

    open spec fn fields_ok(p: MapParser) -> bool {
        true
    }

    open spec fn exact(p: MapParser) -> bool {
        true
    }

    open spec fn written_attrs(&self) -> Seq<AttrV> {
        Seq::empty()
    }

    open spec fn written_children(&self) -> nat {
        (0) as nat
    }

    fn from_raw(parser: MapParser) -> (r: Result<Self, MapElementParsingError>) {
        proof {
            let ghost ok = Self::fields_ok(parser);
            let ghost ex = Self::exact(parser);
        }
        Ok(TriggerSpikesLeft)
    }

    fn to_raw(&self, encoder: &mut MapEncoder) {
    }
}

#[derive(Debug, Clone, Copy, PartialEq, Eq, Structural)]
pub struct KevinsPC;

impl Entity for KevinsPC {
    open spec fn entity_name() -> Seq<char> {
        "kevins_pc"@
    }

    fn name() -> (r: &'static str) {
        "kevins_pc"
    }

    open spec fn fields_read(p: MapParser, x: Self) -> bool {
        true
    }

    open spec fn fields_ok(p: MapParser) -> bool {
        true
    }

    open spec fn exact(p: MapParser) -> bool {
        true
    }

    open spec fn written_attrs(&self) -> Seq<AttrV> {
        Seq::empty()
    }

    open spec fn written_children(&self) -> nat {
        (0) as nat
    }

    fn from_raw(parser: MapParser) -> (r: Result<Self, MapElementParsingError>) {
        proof {
            let ghost ok = Self::fields_ok(parser);
            let ghost ex = Self::exact(parser);
        }
        Ok(KevinsPC)
    }

    fn to_raw(&self, encoder: &mut MapEncoder) {
    }
}

#[derive(Debug, Clone, Copy, PartialEq, Eq, Structural)]
pub struct SandwichLava;

impl Entity for SandwichLava {
    open spec fn entity_name() -> Seq<char> {
        "sandwichLava"@
    }

    fn name() -> (r: &'static str) {
        "sandwichLava"
    }

    open spec fn fields_read(p: MapParser, x: Self) -> bool {
        true
    }

    open spec fn fields_ok(p: MapParser) -> bool {
        true
    }

    open spec fn exact(p: MapParser) -> bool {
        true
    }

    open spec fn written_attrs(&self) -> Seq<AttrV> {
        Seq::empty()
    }

    open spec fn written_children(&self) -> nat {
        (0) as nat
    }

    fn from_raw(parser: MapParser) -> (r: Result<Self, MapElementParsingError>) {
        proof {
            let ghost ok = Self::fields_ok(parser);
            let ghost ex = Self::exact(parser);
        }
        Ok(SandwichLava)
    }

    fn to_raw(&self, encoder: &mut MapEncoder) {
    }
}

#[derive(Debug, Clone, Copy, PartialEq, Eq, Structural)]
pub struct Trapdoor;

impl Entity for Trapdoor {
    open spec fn entity_name() -> Seq<char> {
        "trapdoor"@
    }

    fn name() -> (r: &'static str) {
        "trapdoor"
    }

    open spec fn fields_read(p: MapParser, x: Self) -> bool {
        true
    }

    open spec fn fields_ok(p: MapParser) -> bool {
        true
    }

    open spec fn exact(p: MapParser) -> bool {
        true
    }

    open spec fn written_attrs(&self) -> Seq<AttrV> {
        Seq::empty()
    }

    open spec fn written_children(&self) -> nat {
        (0) as nat
    }

    fn from_raw(parser: MapParser) -> (r: Result<Self, MapElementParsingError>) {
        proof {
            let ghost ok = Self::fields_ok(parser);
            let ghost ex = Self::exact(parser);
        }
        Ok(Trapdoor)
    }

    fn to_raw(&self, encoder: &mut MapEncoder) {
    }
}

#[derive(Debug, Clone, Copy, PartialEq, Eq, Structural)]
pub struct SummitCloud;

impl Entity for SummitCloud {
    open spec fn entity_name() -> Seq<char> {
        "summitcloud"@
    }

    fn name() -> (r: &'static str) {
        "summitcloud"
    }

    open spec fn fields_read(p: MapParser, x: Self) -> bool {
        true
    }

    open spec fn fields_ok(p: MapParser) -> bool {
        true
    }

    open spec fn exact(p: MapParser) -> bool {
        true
    }

    open spec fn written_attrs(&self) -> Seq<AttrV> {
        Seq::empty()
    }

    open spec fn written_children(&self) -> nat {
        (0) as nat
    }

    fn from_raw(parser: MapParser) -> (r: Result<Self, MapElementParsingError>) {
        proof {
            let ghost ok = Self::fields_ok(parser);
            let ghost ex = Self::exact(parser);
        }
        Ok(SummitCloud)
    }

    fn to_raw(&self, encoder: &mut MapEncoder) {
    }
}

#[derive(Debug, Clone, Copy, PartialEq, Eq, Structural)]
pub struct FriendlyGhost;

impl Entity for FriendlyGhost {
    open spec fn entity_name() -> Seq<char> {
        "friendlyGhost"@
    }

    fn name() -> (r: &'static str) {
        "friendlyGhost"
    }

    open spec fn fields_read(p: MapParser, x: Self) -> bool {
        true
    }

    open spec fn fields_ok(p: MapParser) -> bool {
        true
    }

    open spec fn exact(p: MapParser) -> bool {
        true
    }

    open spec fn written_attrs(&self) -> Seq<AttrV> {
        Seq::empty()
    }

    open spec fn written_children(&self) -> nat {
        (0) as nat
    }

    fn from_raw(parser: MapParser) -> (r: Result<Self, MapElementParsingError>) {
        proof {
            let ghost ok = Self::fields_ok(parser);
            let ghost ex = Self::exact(parser);
        }
        Ok(FriendlyGhost)
    }

    fn to_raw(&self, encoder: &mut MapEncoder) {
    }
}

#[derive(Debug, Clone, Copy, PartialEq, Eq, Structural)]
pub struct FinalBossFallingBlock;

impl Entity for FinalBossFallingBlock {
    open spec fn entity_name() -> Seq<char> {
        "finalBossFallingBlock"@
    }

    fn name() -> (r: &'static str) {
        "finalBossFallingBlock"
    }

    open spec fn fields_read(p: MapParser, x: Self) -> bool {
        true
    }

    open spec fn fields_ok(p: MapParser) -> bool {
        true
    }

    open spec fn exact(p: MapParser) -> bool {
        true
    }

    open spec fn written_attrs(&self) -> Seq<AttrV> {
        Seq::empty()
    }

    open spec fn written_children(&self) -> nat {
        (0) as nat
    }

    fn from_raw(parser: MapParser) -> (r: Result<Self, MapElementParsingError>) {
        proof {
            let ghost ok = Self::fields_ok(parser);
            let ghost ex = Self::exact(parser);
        }
        Ok(FinalBossFallingBlock)
    }

    fn to_raw(&self, encoder: &mut MapEncoder) {
    }
}

#[derive(Debug, Clone, Copy, PartialEq, Eq, Structural)]
pub struct DreamMirror;

impl Entity for DreamMirror {
    open spec fn entity_name() -> Seq<char> {
        "dreammirror"@
    }

    fn name() -> (r: &'static str) {
        "dreammirror"
    }

    open spec fn fields_read(p: MapParser, x: Self) -> bool {
        true
    }

    open spec fn fields_ok(p: MapParser) -> bool {
        true
    }

    open spec fn exact(p: MapParser) -> bool {
        true
    }

    open spec fn written_attrs(&self) -> Seq<AttrV> {
        Seq::empty()
    }

    open spec fn written_children(&self) -> nat {
        (0) as nat
    }

    fn from_raw(parser: MapParser) -> (r: Result<Self, MapElementParsingError>) {
        proof {
            let ghost ok = Self::fields_ok(parser);
            let ghost ex = Self::exact(parser);
        }
        Ok(DreamMirror)
    }

    fn to_raw(&self, encoder: &mut MapEncoder) {
    }
}

#[derive(Debug, Clone, Copy, PartialEq, Eq, Structural)]
pub struct SeekerBarrier;

impl Entity for SeekerBarrier {
    open spec fn entity_name() -> Seq<char> {
        "seekerBarrier"@
    }

    fn name() -> (r: &'static str) {
        "seekerBarrier"
    }

    open spec fn fields_read(p: MapParser, x: Self) -> bool {
        true
    }

    open spec fn fields_ok(p: MapParser) -> bool {
        true
    }

    open spec fn exact(p: MapParser) -> bool {
        true
    }

    open spec fn written_attrs(&self) -> Seq<AttrV> {
        Seq::empty()
    }

    open spec fn written_children(&self) -> nat {
        (0) as nat
    }

    fn from_raw(parser: MapParser) -> (r: Result<Self, MapElementParsingError>) {
        proof {
            let ghost ok = Self::fields_ok(parser);
            let ghost ex = Self::exact(parser);
        }
        Ok(SeekerBarrier)
    }

    fn to_raw(&self, encoder: &mut MapEncoder) {
    }
}

#[derive(Debug, Clone, Copy, PartialEq, Eq, Structural)]
pub struct TempleBigEyeball;

impl Entity for TempleBigEyeball {
    open spec fn entity_name() -> Seq<char> {
        "templeBigEyeball"@
    }

    fn name() -> (r: &'static str) {
        "templeBigEyeball"
    }

    open spec fn fields_read(p: MapParser, x: Self) -> bool {
        true
    }

    open spec fn fields_ok(p: MapParser) -> bool {
        true
    }

    open spec fn exact(p: MapParser) -> bool {
        true
    }

    open spec fn written_attrs(&self) -> Seq<AttrV> {
        Seq::empty()
    }

    open spec fn written_children(&self) -> nat {
        (0) as nat
    }

    fn from_raw(parser: MapParser) -> (r: Result<Self, MapElementParsingError>) {
        proof {
            let ghost ok = Self::fields_ok(parser);
            let ghost ex = Self::exact(parser);
        }
        Ok(TempleBigEyeball)
    }

    fn to_raw(&self, encoder: &mut MapEncoder) {
    }
}

#[derive(Debug, Clone, Copy, PartialEq, Eq, Structural)]
pub struct ResortMirror;

impl Entity for ResortMirror {
    open spec fn entity_name() -> Seq<char> {
        "resortmirror"@
    }

    fn name() -> (r: &'static str) {
        "resortmirror"
    }

    open spec fn fields_read(p: MapParser, x: Self) -> bool {
        true
    }

    open spec fn fields_ok(p: MapParser) -> bool {
        true
    }

    open spec fn exact(p: MapParser) -> bool {
        true
    }

    open spec fn written_attrs(&self) -> Seq<AttrV> {
        Seq::empty()
    }

    open spec fn written_children(&self) -> nat {
        (0) as nat
    }

    fn from_raw(parser: MapParser) -> (r: Result<Self, MapElementParsingError>) {
        proof {
            let ghost ok = Self::fields_ok(parser);
            let ghost ex = Self::exact(parser);
        }
        Ok(ResortMirror)
    }

    fn to_raw(&self, encoder: &mut MapEncoder) {
    }
}

#[derive(Debug, Clone, Copy, PartialEq, Eq, Structural)]
pub struct WhiteBlock;

impl Entity for WhiteBlock {
    open spec fn entity_name() -> Seq<char> {
        "whiteblock"@
    }

    fn name() -> (r: &'static str) {
        "whiteblock"
    }

    open spec fn fields_read(p: MapParser, x: Self) -> bool {
        true
    }

    open spec fn fields_ok(p: MapParser) -> bool {
        true
    }

    open spec fn exact(p: MapParser) -> bool {
        true
    }

    open spec fn written_attrs(&self) -> Seq<AttrV> {
        Seq::empty()
    }

    open spec fn written_children(&self) -> nat {
        (0) as nat
    }

    fn from_raw(parser: MapParser) -> (r: Result<Self, MapElementParsingError>) {
        proof {
            let ghost ok = Self::fields_ok(parser);
            let ghost ex = Self::exact(parser);
        }
        Ok(WhiteBlock)
    }

    fn to_raw(&self, encoder: &mut MapEncoder) {
    }
}

#[derive(Debug, Clone, Copy, PartialEq, Eq, Structural)]
pub struct HangingLamp;

impl Entity for HangingLamp {
    open spec fn entity_name() -> Seq<char> {
        "hanginglamp"@
    }

    fn name() -> (r: &'static str) {
        "hanginglamp"
    }

    open spec fn fields_read(p: MapParser, x: Self) -> bool {
        true
    }

    open spec fn fields_ok(p: MapParser) -> bool {
        true
    }

    open spec fn exact(p: MapParser) -> bool {
        true
    }

    open spec fn written_attrs(&self) -> Seq<AttrV> {
        Seq::empty()
    }

    open spec fn written_children(&self) -> nat {
        (0) as nat
    }

    fn from_raw(parser: MapParser) -> (r: Result<Self, MapElementParsingError>) {
        proof {
            let ghost ok = Self::fields_ok(parser);
            let ghost ex = Self::exact(parser);
        }
        Ok(HangingLamp)
    }

    fn to_raw(&self, encoder: &mut MapEncoder) {
    }
}

#[derive(Debug)]
pub struct SpikesUp {
    pub kind: Option<ResolvableString>,
}

impl Entity for SpikesUp {
    open spec fn entity_name() -> Seq<char> {
        "spikesUp"@
    }

    fn name() -> (r: &'static str) {
        "spikesUp"
    }

    open spec fn fields_read(p: MapParser, x: Self) -> bool {
        &&& opt_attr_read::<ResolvableString>(p, "type"@, x.kind)
    }

    open spec fn fields_ok(p: MapParser) -> bool {
        &&& opt_attr_ok::<ResolvableString>(p, "type"@)
    }

    open spec fn exact(p: MapParser) -> bool {
        true
    }

    open spec fn written_attrs(&self) -> Seq<AttrV> {
        opt_attr_written("type"@, self.kind)
    }

    open spec fn written_children(&self) -> nat {
        (0) as nat
    }

    fn from_raw(parser: MapParser) -> (r: Result<Self, MapElementParsingError>) {
        proof {
            let ghost ok = Self::fields_ok(parser);
            let ghost ex = Self::exact(parser);
        }
        proof {
            parser.lemma_searchable();
        }
        Ok(SpikesUp {
            kind: parser.get_optional_attribute("type")?,
        })
    }

    fn to_raw(&self, encoder: &mut MapEncoder) {
        if let Some(v) = &self.kind {
            encoder.attribute("type", v.to_encoded());
        }
    }
}

#[derive(Debug)]
pub struct SpikesDown {
    pub kind: Option<ResolvableString>,
}

impl Entity for SpikesDown {
    open spec fn entity_name() -> Seq<char> {
        "spikesDown"@
    }

    fn name() -> (r: &'static str) {
        "spikesDown"
    }

    open spec fn fields_read(p: MapParser, x: Self) -> bool {
        &&& opt_attr_read::<ResolvableString>(p, "type"@, x.kind)
    }

    open spec fn fields_ok(p: MapParser) -> bool {
        &&& opt_attr_ok::<ResolvableString>(p, "type"@)
    }

    open spec fn exact(p: MapParser) -> bool {
        true
    }

    open spec fn written_attrs(&self) -> Seq<AttrV> {
        opt_attr_written("type"@, self.kind)
    }

    open spec fn written_children(&self) -> nat {
        (0) as nat
    }

    fn from_raw(parser: MapParser) -> (r: Result<Self, MapElementParsingError>) {
        proof {
            let ghost ok = Self::fields_ok(parser);
            let ghost ex = Self::exact(parser);
        }
        proof {
            parser.lemma_searchable();
        }
        Ok(SpikesDown {
            kind: parser.get_optional_attribute("type")?,
        })
    }

    fn to_raw(&self, encoder: &mut MapEncoder) {
        if let Some(v) = &self.kind {
            encoder.attribute("type", v.to_encoded());
        }
    }
}

#[derive(Debug)]
pub struct SpikesLeft {
    pub kind: Option<ResolvableString>,
}

impl Entity for SpikesLeft {
    open spec fn entity_name() -> Seq<char> {
        "spikesLeft"@
    }

    fn name() -> (r: &'static str) {
        "spikesLeft"
    }

    open spec fn fields_read(p: MapParser, x: Self) -> bool {
        &&& opt_attr_read::<ResolvableString>(p, "type"@, x.kind)
    }

    open spec fn fields_ok(p: MapParser) -> bool {
        &&& opt_attr_ok::<ResolvableString>(p, "type"@)
    }

    open spec fn exact(p: MapParser) -> bool {
        true
    }

    open spec fn written_attrs(&self) -> Seq<AttrV> {
        opt_attr_written("type"@, self.kind)
    }

    open spec fn written_children(&self) -> nat {
        (0) as nat
    }

    fn from_raw(parser: MapParser) -> (r: Result<Self, MapElementParsingError>) {
        proof {
            let ghost ok = Self::fields_ok(parser);
            let ghost ex = Self::exact(parser);
        }
        proof {
            parser.lemma_searchable();
        }
        Ok(SpikesLeft {
            kind: parser.get_optional_attribute("type")?,
        })
    }

    fn to_raw(&self, encoder: &mut MapEncoder) {
        if let Some(v) = &self.kind {
            encoder.attribute("type", v.to_encoded());
        }
    }
}

#[derive(Debug)]
pub struct SpikesRight {
    pub kind: Option<ResolvableString>,
}

impl Entity for SpikesRight {
    open spec fn entity_name() -> Seq<char> {
        "spikesRight"@
    }

    fn name() -> (r: &'static str) {
        "spikesRight"
    }

    open spec fn fields_read(p: MapParser, x: Self) -> bool {
        &&& opt_attr_read::<ResolvableString>(p, "type"@, x.kind)
    }

    open spec fn fields_ok(p: MapParser) -> bool {
        &&& opt_attr_ok::<ResolvableString>(p, "type"@)
    }

    open spec fn exact(p: MapParser) -> bool {
        true
    }

    open spec fn written_attrs(&self) -> Seq<AttrV> {
        opt_attr_written("type"@, self.kind)
    }

    open spec fn written_children(&self) -> nat {
        (0) as nat
    }

    fn from_raw(parser: MapParser) -> (r: Result<Self, MapElementParsingError>) {
        proof {
            let ghost ok = Self::fields_ok(parser);
            let ghost ex = Self::exact(parser);
        }
        proof {
            parser.lemma_searchable();
        }
        Ok(SpikesRight {
            kind: parser.get_optional_attribute("type")?,
        })
    }

    fn to_raw(&self, encoder: &mut MapEncoder) {
        if let Some(v) = &self.kind {
            encoder.attribute("type", v.to_encoded());
        }
    }
}

#[derive(Debug)]
pub struct JumpThru {
    pub texture: Option<ResolvableString>,
}

impl Entity for JumpThru {
    open spec fn entity_name() -> Seq<char> {
        "jumpThru"@
    }

    fn name() -> (r: &'static str) {
        "jumpThru"
    }

    open spec fn fields_read(p: MapParser, x: Self) -> bool {
        &&& opt_attr_read::<ResolvableString>(p, "texture"@, x.texture)
    }

    open spec fn fields_ok(p: MapParser) -> bool {
        &&& opt_attr_ok::<ResolvableString>(p, "texture"@)
    }

    open spec fn exact(p: MapParser) -> bool {
        true
    }

    open spec fn written_attrs(&self) -> Seq<AttrV> {
        opt_attr_written("texture"@, self.texture)
    }

    open spec fn written_children(&self) -> nat {
        (0) as nat
    }

    fn from_raw(parser: MapParser) -> (r: Result<Self, MapElementParsingError>) {
        proof {
            let ghost ok = Self::fields_ok(parser);
            let ghost ex = Self::exact(parser);
        }
        proof {
            parser.lemma_searchable();
        }
        Ok(JumpThru {
            texture: parser.get_optional_attribute("texture")?,
        })
    }

    fn to_raw(&self, encoder: &mut MapEncoder) {
        if let Some(v) = &self.texture {
            encoder.attribute("texture", v.to_encoded());
        }
    }
}

#[derive(Debug)]
pub struct Wire {
    pub above: bool,
    pub to: Node,
}

impl Entity for Wire {
    open spec fn entity_name() -> Seq<char> {
        "wire"@
    }

    fn name() -> (r: &'static str) {
        "wire"
    }

    open spec fn fields_read(p: MapParser, x: Self) -> bool {
        &&& attr_read::<bool>(p, "above"@, x.above)
        &&& child_read::<Node>(p, x.to)
    }

    open spec fn fields_ok(p: MapParser) -> bool {
        &&& attr_ok::<bool>(p, "above"@)
        &&& child_ok::<Node>(p)
    }

    open spec fn exact(p: MapParser) -> bool {
        &&& child_exact::<Node>(p)
    }

    open spec fn written_attrs(&self) -> Seq<AttrV> {
        attr_written("above"@, self.above)
    }

    open spec fn written_children(&self) -> nat {
        (1) as nat
    }

    fn from_raw(parser: MapParser) -> (r: Result<Self, MapElementParsingError>) {
        proof {
            let ghost ok = Self::fields_ok(parser);
            let ghost ex = Self::exact(parser);
        }
        proof {
            parser.lemma_searchable();
        }
        Ok(Wire {
            above: parser.get_attribute("above")?,
            to: parser.parse_element()?,
        })
    }

    fn to_raw(&self, encoder: &mut MapEncoder) {
        encoder.attribute("above", self.above.to_encoded());
        encoder.child(&self.to);
    }
}

#[derive(Debug)]
pub struct Strawberry {
    pub winged: bool,
    pub checkpoint_id: Integer,
    pub order: Option<Integer>,
}

impl Entity for Strawberry {
    open spec fn entity_name() -> Seq<char> {
        "strawberry"@
    }

    fn name() -> (r: &'static str) {
        "strawberry"
    }

    open spec fn fields_read(p: MapParser, x: Self) -> bool {
        &&& attr_read::<bool>(p, "winged"@, x.winged)
        &&& attr_read::<Integer>(p, "checkpointID"@, x.checkpoint_id)
        &&& opt_attr_read::<Integer>(p, "order"@, x.order)
    }

    open spec fn fields_ok(p: MapParser) -> bool {
        &&& attr_ok::<bool>(p, "winged"@)
        &&& attr_ok::<Integer>(p, "checkpointID"@)
        &&& opt_attr_ok::<Integer>(p, "order"@)
    }

    open spec fn exact(p: MapParser) -> bool {
        true
    }

    open spec fn written_attrs(&self) -> Seq<AttrV> {
        attr_written("winged"@, self.winged)
            + attr_written("checkpointID"@, self.checkpoint_id)
            + opt_attr_written("order"@, self.order)
    }

    open spec fn written_children(&self) -> nat {
        (0) as nat
    }

    fn from_raw(parser: MapParser) -> (r: Result<Self, MapElementParsingError>) {
        proof {
            let ghost ok = Self::fields_ok(parser);
            let ghost ex = Self::exact(parser);
        }
        proof {
            parser.lemma_searchable();
        }
        Ok(Strawberry {
            winged: parser.get_attribute("winged")?,
            checkpoint_id: parser.get_attribute("checkpointID")?,
            order: parser.get_optional_attribute("order")?,
        })
    }

    fn to_raw(&self, encoder: &mut MapEncoder) {
        encoder.attribute("winged", self.winged.to_encoded());
        encoder.attribute("checkpointID", self.checkpoint_id.to_encoded());
        if let Some(v) = &self.order {
            encoder.attribute("order", v.to_encoded());
        }
    }
}

#[derive(Debug)]
pub struct Lightbeam {
    pub rotation: Integer,
    pub flag: ResolvableString,
}

impl Entity for Lightbeam {
    open spec fn entity_name() -> Seq<char> {
        "lightbeam"@
    }

    fn name() -> (r: &'static str) {
        "lightbeam"
    }

    open spec fn fields_read(p: MapParser, x: Self) -> bool {
        &&& attr_read::<Integer>(p, "rotation"@, x.rotation)
        &&& attr_read::<ResolvableString>(p, "flag"@, x.flag)
    }

    open spec fn fields_ok(p: MapParser) -> bool {
        &&& attr_ok::<Integer>(p, "rotation"@)
        &&& attr_ok::<ResolvableString>(p, "flag"@)
    }

    open spec fn exact(p: MapParser) -> bool {
        true
    }

    open spec fn written_attrs(&self) -> Seq<AttrV> {
        attr_written("rotation"@, self.rotation)
            + attr_written("flag"@, self.flag)
    }

    open spec fn written_children(&self) -> nat {
        (0) as nat
    }

    fn from_raw(parser: MapParser) -> (r: Result<Self, MapElementParsingError>) {
        proof {
            let ghost ok = Self::fields_ok(parser);
            let ghost ex = Self::exact(parser);
        }
        proof {
            parser.lemma_searchable();
        }
        Ok(Lightbeam {
            rotation: parser.get_attribute("rotation")?,
            flag: parser.get_attribute("flag")?,
        })
    }

    fn to_raw(&self, encoder: &mut MapEncoder) {
        encoder.attribute("rotation", self.rotation.to_encoded());
        encoder.attribute("flag", self.flag.to_encoded());
    }
}

#[derive(Debug)]
pub struct Cassette {
    bubble_points: Vec<Node>,
}

impl Entity for Cassette {
    open spec fn entity_name() -> Seq<char> {
        "cassette"@
    }

    fn name() -> (r: &'static str) {
        "cassette"
    }

    closed spec fn fields_read(p: MapParser, x: Self) -> bool {
        &&& children_read::<Node>(p, x.bubble_points@)
    }

    open spec fn fields_ok(p: MapParser) -> bool {
        &&& children_ok::<Node>(p)
    }

    open spec fn exact(p: MapParser) -> bool {
        &&& children_exact::<Node>(p)
    }

    closed spec fn written_attrs(&self) -> Seq<AttrV> {
        Seq::empty()
    }

    closed spec fn written_children(&self) -> nat {
        (self.bubble_points@.len()) as nat
    }

    fn from_raw(parser: MapParser) -> (r: Result<Self, MapElementParsingError>) {
        proof {
            let ghost ok = Self::fields_ok(parser);
            let ghost ex = Self::exact(parser);
        }
        Ok(Cassette {
            bubble_points: parser.parse_all_elements()?,
        })
    }

    fn to_raw(&self, encoder: &mut MapEncoder) {
        encoder.children(&self.bubble_points);
    }
}

#[derive(Debug)]
pub struct CassetteBlock {
    pub index: Integer,
    pub finished_state: Option<bool>,
}

impl Entity for CassetteBlock {
    open spec fn entity_name() -> Seq<char> {
        "cassetteBlock"@
    }

    fn name() -> (r: &'static str) {
        "cassetteBlock"
    }

    open spec fn fields_read(p: MapParser, x: Self) -> bool {
        &&& attr_read::<Integer>(p, "index"@, x.index)
        &&& opt_attr_read::<bool>(p, "finishedState"@, x.finished_state)
    }

    open spec fn fields_ok(p: MapParser) -> bool {
        &&& attr_ok::<Integer>(p, "index"@)
        &&& opt_attr_ok::<bool>(p, "finishedState"@)
    }

    open spec fn exact(p: MapParser) -> bool {
        true
    }

    open spec fn written_attrs(&self) -> Seq<AttrV> {
        attr_written("index"@, self.index)
            + opt_attr_written("finishedState"@, self.finished_state)
    }

    open spec fn written_children(&self) -> nat {
        (0) as nat
    }

    fn from_raw(parser: MapParser) -> (r: Result<Self, MapElementParsingError>) {
        proof {
            let ghost ok = Self::fields_ok(parser);
            let ghost ex = Self::exact(parser);
        }
        proof {
            parser.lemma_searchable();
        }
        Ok(CassetteBlock {
            index: parser.get_attribute("index")?,
            finished_state: parser.get_optional_attribute("finishedState")?,
        })
    }

    fn to_raw(&self, encoder: &mut MapEncoder) {
        encoder.attribute("index", self.index.to_encoded());
        if let Some(v) = &self.finished_state {
            encoder.attribute("finishedState", v.to_encoded());
        }
    }
}

#[derive(Debug)]
pub struct DashBlock {
    pub permanent: bool,
    pub tile_type: Character,
    pub blend_in: bool,
    pub can_dash: bool,
}

impl Entity for DashBlock {
    open spec fn entity_name() -> Seq<char> {
        "dashBlock"@
    }

    fn name() -> (r: &'static str) {
        "dashBlock"
    }

    open spec fn fields_read(p: MapParser, x: Self) -> bool {
        &&& attr_read::<bool>(p, "permanent"@, x.permanent)
        &&& attr_read::<Character>(p, "tiletype"@, x.tile_type)
        &&& attr_read::<bool>(p, "blendin"@, x.blend_in)
        &&& attr_read::<bool>(p, "canDash"@, x.can_dash)
    }

    open spec fn fields_ok(p: MapParser) -> bool {
        &&& attr_ok::<bool>(p, "permanent"@)
        &&& attr_ok::<Character>(p, "tiletype"@)
        &&& attr_ok::<bool>(p, "blendin"@)
        &&& attr_ok::<bool>(p, "canDash"@)
    }

    open spec fn exact(p: MapParser) -> bool {
        true
    }

    open spec fn written_attrs(&self) -> Seq<AttrV> {
        attr_written("permanent"@, self.permanent)
            + attr_written("tiletype"@, self.tile_type)
            + attr_written("blendin"@, self.blend_in)
            + attr_written("canDash"@, self.can_dash)
    }

    open spec fn written_children(&self) -> nat {
        (0) as nat
    }

    fn from_raw(parser: MapParser) -> (r: Result<Self, MapElementParsingError>) {
        proof {
            let ghost ok = Self::fields_ok(parser);
            let ghost ex = Self::exact(parser);
        }
        proof {
            parser.lemma_searchable();
        }
        Ok(DashBlock {
            permanent: parser.get_attribute("permanent")?,
            tile_type: parser.get_attribute("tiletype")?,
            blend_in: parser.get_attribute("blendin")?,
            can_dash: parser.get_attribute("canDash")?,
        })
    }

    fn to_raw(&self, encoder: &mut MapEncoder) {
        encoder.attribute("permanent", self.permanent.to_encoded());
        encoder.attribute("tiletype", self.tile_type.to_encoded());
        encoder.attribute("blendin", self.blend_in.to_encoded());
        encoder.attribute("canDash", self.can_dash.to_encoded());
    }
}

#[derive(Debug)]
pub struct Bonfire {
    pub mode: ResolvableString,
}

impl Entity for Bonfire {
    open spec fn entity_name() -> Seq<char> {
        "bonfire"@
    }

    fn name() -> (r: &'static str) {
        "bonfire"
    }

    open spec fn fields_read(p: MapParser, x: Self) -> bool {
        &&& attr_read::<ResolvableString>(p, "mode"@, x.mode)
    }

    open spec fn fields_ok(p: MapParser) -> bool {
        &&& attr_ok::<ResolvableString>(p, "mode"@)
    }

    open spec fn exact(p: MapParser) -> bool {
        true
    }

    open spec fn written_attrs(&self) -> Seq<AttrV> {
        attr_written("mode"@, self.mode)
    }

    open spec fn written_children(&self) -> nat {
        (0) as nat
    }

    fn from_raw(parser: MapParser) -> (r: Result<Self, MapElementParsingError>) {
        proof {
            let ghost ok = Self::fields_ok(parser);
            let ghost ex = Self::exact(parser);
        }
        proof {
            parser.lemma_searchable();
        }
        Ok(Bonfire {
            mode: parser.get_attribute("mode")?,
        })
    }

    fn to_raw(&self, encoder: &mut MapEncoder) {
        encoder.attribute("mode", self.mode.to_encoded());
    }
}

#[derive(Debug)]
pub struct NPC {
    pub npc: ResolvableString,
}

impl Entity for NPC {
    open spec fn entity_name() -> Seq<char> {
        "npc"@
    }

    fn name() -> (r: &'static str) {
        "npc"
    }

    open spec fn fields_read(p: MapParser, x: Self) -> bool {
        &&& attr_read::<ResolvableString>(p, "npc"@, x.npc)
    }

    open spec fn fields_ok(p: MapParser) -> bool {
        &&& attr_ok::<ResolvableString>(p, "npc"@)
    }

    open spec fn exact(p: MapParser) -> bool {
        true
    }

    open spec fn written_attrs(&self) -> Seq<AttrV> {
        attr_written("npc"@, self.npc)
    }

    open spec fn written_children(&self) -> nat {
        (0) as nat
    }

    fn from_raw(parser: MapParser) -> (r: Result<Self, MapElementParsingError>) {
        proof {
            let ghost ok = Self::fields_ok(parser);
            let ghost ex = Self::exact(parser);
        }
        proof {
            parser.lemma_searchable();
        }
        Ok(NPC {
            npc: parser.get_attribute("npc")?,
        })
    }

    fn to_raw(&self, encoder: &mut MapEncoder) {
        encoder.attribute("npc", self.npc.to_encoded());
    }
}

#[derive(Debug)]
pub struct CoverupWall {
    pub tile_type: Character,
}

impl Entity for CoverupWall {
    open spec fn entity_name() -> Seq<char> {
        "coverupWall"@
    }

    fn name() -> (r: &'static str) {
        "coverupWall"
    }

    open spec fn fields_read(p: MapParser, x: Self) -> bool {
        &&& attr_read::<Character>(p, "tiletype"@, x.tile_type)
    }

    open spec fn fields_ok(p: MapParser) -> bool {
        &&& attr_ok::<Character>(p, "tiletype"@)
    }

    open spec fn exact(p: MapParser) -> bool {
        true
    }

    open spec fn written_attrs(&self) -> Seq<AttrV> {
        attr_written("tiletype"@, self.tile_type)
    }

    open spec fn written_children(&self) -> nat {
        (0) as nat
    }

    fn from_raw(parser: MapParser) -> (r: Result<Self, MapElementParsingError>) {
        proof {
            let ghost ok = Self::fields_ok(parser);
            let ghost ex = Self::exact(parser);
        }
        proof {
            parser.lemma_searchable();
        }
        Ok(CoverupWall {
            tile_type: parser.get_attribute("tiletype")?,
        })
    }

    fn to_raw(&self, encoder: &mut MapEncoder) {
        encoder.attribute("tiletype", self.tile_type.to_encoded());
    }
}

#[derive(Debug)]
pub struct Memorial {
    pub dreaming: bool,
}

impl Entity for Memorial {
    open spec fn entity_name() -> Seq<char> {
        "memorial"@
    }

    fn name() -> (r: &'static str) {
        "memorial"
    }

    open spec fn fields_read(p: MapParser, x: Self) -> bool {
        &&& attr_read::<bool>(p, "dreaming"@, x.dreaming)
    }

    open spec fn fields_ok(p: MapParser) -> bool {
        &&& attr_ok::<bool>(p, "dreaming"@)
    }

    open spec fn exact(p: MapParser) -> bool {
        true
    }

    open spec fn written_attrs(&self) -> Seq<AttrV> {
        attr_written("dreaming"@, self.dreaming)
    }

    open spec fn written_children(&self) -> nat {
        (0) as nat
    }

    fn from_raw(parser: MapParser) -> (r: Result<Self, MapElementParsingError>) {
        proof {
            let ghost ok = Self::fields_ok(parser);
            let ghost ex = Self::exact(parser);
        }
        proof {
            parser.lemma_searchable();
        }
        Ok(Memorial {
            dreaming: parser.get_attribute("dreaming")?,
        })
    }

    fn to_raw(&self, encoder: &mut MapEncoder) {
        encoder.attribute("dreaming", self.dreaming.to_encoded());
    }
}

#[derive(Debug)]
pub struct BirdForsakenCityGem {
    nodes: Vec<Node>,
}

impl Entity for BirdForsakenCityGem {
    open spec fn entity_name() -> Seq<char> {
        "birdForsakenCityGem"@
    }

    fn name() -> (r: &'static str) {
        "birdForsakenCityGem"
    }

    closed spec fn fields_read(p: MapParser, x: Self) -> bool {
        &&& children_read::<Node>(p, x.nodes@)
    }

    open spec fn fields_ok(p: MapParser) -> bool {
        &&& children_ok::<Node>(p)
    }

    open spec fn exact(p: MapParser) -> bool {
        &&& children_exact::<Node>(p)
    }

    closed spec fn written_attrs(&self) -> Seq<AttrV> {
        Seq::empty()
    }

    closed spec fn written_children(&self) -> nat {
        (self.nodes@.len()) as nat
    }

    fn from_raw(parser: MapParser) -> (r: Result<Self, MapElementParsingError>) {
        proof {
            let ghost ok = Self::fields_ok(parser);
            let ghost ex = Self::exact(parser);
        }
        Ok(BirdForsakenCityGem {
            nodes: parser.parse_all_elements()?,
        })
    }

    fn to_raw(&self, encoder: &mut MapEncoder) {
        encoder.children(&self.nodes);
    }
}

#[derive(Debug)]
pub struct FallingBlock {
    pub tile_type: Character,
    pub behind: Option<bool>,
    pub climb_fall: Option<bool>,
}

impl Entity for FallingBlock {
    open spec fn entity_name() -> Seq<char> {
        "fallingBlock"@
    }

    fn name() -> (r: &'static str) {
        "fallingBlock"
    }

    open spec fn fields_read(p: MapParser, x: Self) -> bool {
        &&& attr_read::<Character>(p, "tiletype"@, x.tile_type)
        &&& opt_attr_read::<bool>(p, "behind"@, x.behind)
        &&& opt_attr_read::<bool>(p, "climbFall"@, x.climb_fall)
    }

    open spec fn fields_ok(p: MapParser) -> bool {
        &&& attr_ok::<Character>(p, "tiletype"@)
        &&& opt_attr_ok::<bool>(p, "behind"@)
        &&& opt_attr_ok::<bool>(p, "climbFall"@)
    }

    open spec fn exact(p: MapParser) -> bool {
        true
    }

    open spec fn written_attrs(&self) -> Seq<AttrV> {
        attr_written("tiletype"@, self.tile_type)
            + opt_attr_written("behind"@, self.behind)
            + opt_attr_written("climbFall"@, self.climb_fall)
    }

    open spec fn written_children(&self) -> nat {
        (0) as nat
    }

    fn from_raw(parser: MapParser) -> (r: Result<Self, MapElementParsingError>) {
        proof {
            let ghost ok = Self::fields_ok(parser);
            let ghost ex = Self::exact(parser);
        }
        proof {
            parser.lemma_searchable();
        }
        Ok(FallingBlock {
            tile_type: parser.get_attribute("tiletype")?,
            behind: parser.get_optional_attribute("behind")?,
            climb_fall: parser.get_optional_attribute("climbFall")?,
        })
    }

    fn to_raw(&self, encoder: &mut MapEncoder) {
        encoder.attribute("tiletype", self.tile_type.to_encoded());
        if let Some(v) = &self.behind {
            encoder.attribute("behind", v.to_encoded());
        }
        if let Some(v) = &self.climb_fall {
            encoder.attribute("climbFall", v.to_encoded());
        }
    }
}

#[derive(Debug)]
pub struct FakeWall {
    pub tile_type: Character,
    pub play_transition_reveal: Option<bool>,
}

impl Entity for FakeWall {
    open spec fn entity_name() -> Seq<char> {
        "fakeWall"@
    }

    fn name() -> (r: &'static str) {
        "fakeWall"
    }

    open spec fn fields_read(p: MapParser, x: Self) -> bool {
        &&& attr_read::<Character>(p, "tiletype"@, x.tile_type)
        &&& opt_attr_read::<bool>(p, "playTransitionReveal"@, x.play_transition_reveal)
    }

    open spec fn fields_ok(p: MapParser) -> bool {
        &&& attr_ok::<Character>(p, "tiletype"@)
        &&& opt_attr_ok::<bool>(p, "playTransitionReveal"@)
    }

    open spec fn exact(p: MapParser) -> bool {
        true
    }

    open spec fn written_attrs(&self) -> Seq<AttrV> {
        attr_written("tiletype"@, self.tile_type)
            + opt_attr_written("playTransitionReveal"@, self.play_transition_reveal)
    }

    open spec fn written_children(&self) -> nat {
        (0) as nat
    }

    fn from_raw(parser: MapParser) -> (r: Result<Self, MapElementParsingError>) {
        proof {
            let ghost ok = Self::fields_ok(parser);
            let ghost ex = Self::exact(parser);
        }
        proof {
            parser.lemma_searchable();
        }
        Ok(FakeWall {
            tile_type: parser.get_attribute("tiletype")?,
            play_transition_reveal: parser.get_optional_attribute("playTransitionReveal")?,
        })
    }

    fn to_raw(&self, encoder: &mut MapEncoder) {
        encoder.attribute("tiletype", self.tile_type.to_encoded());
        if let Some(v) = &self.play_transition_reveal {
            encoder.attribute("playTransitionReveal", v.to_encoded());
        }
    }
}

#[derive(Debug)]
pub struct Spring {
    pub player_can_use: Option<bool>,
}

impl Entity for Spring {
    open spec fn entity_name() -> Seq<char> {
        "spring"@
    }

    fn name() -> (r: &'static str) {
        "spring"
    }

    open spec fn fields_read(p: MapParser, x: Self) -> bool {
        &&& opt_attr_read::<bool>(p, "playerCanUse"@, x.player_can_use)
    }

    open spec fn fields_ok(p: MapParser) -> bool {
        &&& opt_attr_ok::<bool>(p, "playerCanUse"@)
    }

    open spec fn exact(p: MapParser) -> bool {
        true
    }

    open spec fn written_attrs(&self) -> Seq<AttrV> {
        opt_attr_written("playerCanUse"@, self.player_can_use)
    }

    open spec fn written_children(&self) -> nat {
        (0) as nat
    }

    fn from_raw(parser: MapParser) -> (r: Result<Self, MapElementParsingError>) {
        proof {
            let ghost ok = Self::fields_ok(parser);
            let ghost ex = Self::exact(parser);
        }
        proof {
            parser.lemma_searchable();
        }
        Ok(Spring {
            player_can_use: parser.get_optional_attribute("playerCanUse")?,
        })
    }

    fn to_raw(&self, encoder: &mut MapEncoder) {
        if let Some(v) = &self.player_can_use {
            encoder.attribute("playerCanUse", v.to_encoded());
        }
    }
}

#[derive(Debug)]
pub struct ZipMover {
    pub theme: Option<ResolvableString>,
    pub to: Node,
}

impl Entity for ZipMover {
    open spec fn entity_name() -> Seq<char> {
        "zipMover"@
    }

    fn name() -> (r: &'static str) {
        "zipMover"
    }

    open spec fn fields_read(p: MapParser, x: Self) -> bool {
        &&& opt_attr_read::<ResolvableString>(p, "theme"@, x.theme)
        &&& child_read::<Node>(p, x.to)
    }

    open spec fn fields_ok(p: MapParser) -> bool {
        &&& opt_attr_ok::<ResolvableString>(p, "theme"@)
        &&& child_ok::<Node>(p)
    }

    open spec fn exact(p: MapParser) -> bool {
        &&& child_exact::<Node>(p)
    }

    open spec fn written_attrs(&self) -> Seq<AttrV> {
        opt_attr_written("theme"@, self.theme)
    }

    open spec fn written_children(&self) -> nat {
        (1) as nat
    }

    fn from_raw(parser: MapParser) -> (r: Result<Self, MapElementParsingError>) {
        proof {
            let ghost ok = Self::fields_ok(parser);
            let ghost ex = Self::exact(parser);
        }
        proof {
            parser.lemma_searchable();
        }
        Ok(ZipMover {
            theme: parser.get_optional_attribute("theme")?,
            to: parser.parse_element()?,
        })
    }

    fn to_raw(&self, encoder: &mut MapEncoder) {
        if let Some(v) = &self.theme {
            encoder.attribute("theme", v.to_encoded());
        }
        encoder.child(&self.to);
    }
}

#[derive(Debug)]
pub struct Refill {
    pub two_dash: Option<bool>,
    pub one_use: Option<bool>,
}

impl Entity for Refill {
    open spec fn entity_name() -> Seq<char> {
        "refill"@
    }

    fn name() -> (r: &'static str) {
        "refill"
    }

    open spec fn fields_read(p: MapParser, x: Self) -> bool {
        &&& opt_attr_read::<bool>(p, "twoDash"@, x.two_dash)
        &&& opt_attr_read::<bool>(p, "oneUse"@, x.one_use)
    }

    open spec fn fields_ok(p: MapParser) -> bool {
        &&& opt_attr_ok::<bool>(p, "twoDash"@)
        &&& opt_attr_ok::<bool>(p, "oneUse"@)
    }

    open spec fn exact(p: MapParser) -> bool {
        true
    }

    open spec fn written_attrs(&self) -> Seq<AttrV> {
        opt_attr_written("twoDash"@, self.two_dash)
            + opt_attr_written("oneUse"@, self.one_use)
    }

    open spec fn written_children(&self) -> nat {
        (0) as nat
    }

    fn from_raw(parser: MapParser) -> (r: Result<Self, MapElementParsingError>) {
        proof {
            let ghost ok = Self::fields_ok(parser);
            let ghost ex = Self::exact(parser);
        }
        proof {
            parser.lemma_searchable();
        }
        Ok(Refill {
            two_dash: parser.get_optional_attribute("twoDash")?,
            one_use: parser.get_optional_attribute("oneUse")?,
        })
    }

    fn to_raw(&self, encoder: &mut MapEncoder) {
        if let Some(v) = &self.two_dash {
            encoder.attribute("twoDash", v.to_encoded());
        }
        if let Some(v) = &self.one_use {
            encoder.attribute("oneUse", v.to_encoded());
        }
    }
}

#[derive(Debug)]
pub struct Tentacles {
    fear_distance: ResolvableString,
    slide_until: u8,
    node: Node,
}

impl Entity for Tentacles {
    open spec fn entity_name() -> Seq<char> {
        "tentacles"@
    }

    fn name() -> (r: &'static str) {
        "tentacles"
    }

    closed spec fn fields_read(p: MapParser, x: Self) -> bool {
        &&& attr_read::<ResolvableString>(p, "fear_distance"@, x.fear_distance)
        &&& attr_read::<u8>(p, "slide_until"@, x.slide_until)
        &&& child_read::<Node>(p, x.node)
    }

    open spec fn fields_ok(p: MapParser) -> bool {
        &&& attr_ok::<ResolvableString>(p, "fear_distance"@)
        &&& attr_ok::<u8>(p, "slide_until"@)
        &&& child_ok::<Node>(p)
    }

    open spec fn exact(p: MapParser) -> bool {
        &&& child_exact::<Node>(p)
    }

    closed spec fn written_attrs(&self) -> Seq<AttrV> {
        attr_written("fear_distance"@, self.fear_distance)
            + attr_written("slide_until"@, self.slide_until)
    }

    closed spec fn written_children(&self) -> nat {
        (1) as nat
    }

    fn from_raw(parser: MapParser) -> (r: Result<Self, MapElementParsingError>) {
        proof {
            let ghost ok = Self::fields_ok(parser);
            let ghost ex = Self::exact(parser);
        }
        proof {
            parser.lemma_searchable();
        }
        Ok(Tentacles {
            fear_distance: parser.get_attribute("fear_distance")?,
            slide_until: parser.get_attribute("slide_until")?,
            node: parser.parse_element()?,
        })
    }

    fn to_raw(&self, encoder: &mut MapEncoder) {
        encoder.attribute("fear_distance", self.fear_distance.to_encoded());
        encoder.attribute("slide_until", self.slide_until.to_encoded());
        encoder.child(&self.node);
    }
}

#[derive(Debug)]
pub struct Glider {
    bubble: bool,
    tutorial: bool,
}

impl Entity for Glider {
    open spec fn entity_name() -> Seq<char> {
        "glider"@
    }

    fn name() -> (r: &'static str) {
        "glider"
    }

    closed spec fn fields_read(p: MapParser, x: Self) -> bool {
        &&& attr_read::<bool>(p, "bubble"@, x.bubble)
        &&& attr_read::<bool>(p, "tutorial"@, x.tutorial)
    }

    open spec fn fields_ok(p: MapParser) -> bool {
        &&& attr_ok::<bool>(p, "bubble"@)
        &&& attr_ok::<bool>(p, "tutorial"@)
    }

    open spec fn exact(p: MapParser) -> bool {
        true
    }

    closed spec fn written_attrs(&self) -> Seq<AttrV> {
        attr_written("bubble"@, self.bubble)
            + attr_written("tutorial"@, self.tutorial)
    }

    closed spec fn written_children(&self) -> nat {
        (0) as nat
    }

    fn from_raw(parser: MapParser) -> (r: Result<Self, MapElementParsingError>) {
        proof {
            let ghost ok = Self::fields_ok(parser);
            let ghost ex = Self::exact(parser);
        }
        proof {
            parser.lemma_searchable();
        }
        Ok(Glider {
            bubble: parser.get_attribute("bubble")?,
            tutorial: parser.get_attribute("tutorial")?,
        })
    }

    fn to_raw(&self, encoder: &mut MapEncoder) {
        encoder.attribute("bubble", self.bubble.to_encoded());
        encoder.attribute("tutorial", self.tutorial.to_encoded());
    }
}

#[derive(Debug)]
pub struct FlingBirdIntro {
    crashes: bool,
    node: Node,
}

impl Entity for FlingBirdIntro {
    open spec fn entity_name() -> Seq<char> {
        "flingBirdIntro"@
    }

    fn name() -> (r: &'static str) {
        "flingBirdIntro"
    }

    closed spec fn fields_read(p: MapParser, x: Self) -> bool {
        &&& attr_read::<bool>(p, "crashes"@, x.crashes)
        &&& child_read::<Node>(p, x.node)
    }

    open spec fn fields_ok(p: MapParser) -> bool {
        &&& attr_ok::<bool>(p, "crashes"@)
        &&& child_ok::<Node>(p)
    }

    open spec fn exact(p: MapParser) -> bool {
        &&& child_exact::<Node>(p)
    }

    closed spec fn written_attrs(&self) -> Seq<AttrV> {
        attr_written("crashes"@, self.crashes)
    }

    closed spec fn written_children(&self) -> nat {
        (1) as nat
    }

    fn from_raw(parser: MapParser) -> (r: Result<Self, MapElementParsingError>) {
        proof {
            let ghost ok = Self::fields_ok(parser);
            let ghost ex = Self::exact(parser);
        }
        proof {
            parser.lemma_searchable();
        }
        Ok(FlingBirdIntro {
            crashes: parser.get_attribute("crashes")?,
            node: parser.parse_element()?,
        })
    }

    fn to_raw(&self, encoder: &mut MapEncoder) {
        encoder.attribute("crashes", self.crashes.to_encoded());
        encoder.child(&self.node);
    }
}

#[derive(Debug)]
pub struct ExitBlock {
    tiletype: Character,
}

impl Entity for ExitBlock {
    open spec fn entity_name() -> Seq<char> {
        "exitBlock"@
    }

    fn name() -> (r: &'static str) {
        "exitBlock"
    }

    closed spec fn fields_read(p: MapParser, x: Self) -> bool {
        &&& attr_read::<Character>(p, "tileType"@, x.tiletype)
    }

    open spec fn fields_ok(p: MapParser) -> bool {
        &&& attr_ok::<Character>(p, "tileType"@)
    }

    open spec fn exact(p: MapParser) -> bool {
        true
    }

    closed spec fn written_attrs(&self) -> Seq<AttrV> {
        attr_written("tileType"@, self.tiletype)
    }

    closed spec fn written_children(&self) -> nat {
        (0) as nat
    }

    fn from_raw(parser: MapParser) -> (r: Result<Self, MapElementParsingError>) {
        proof {
            let ghost ok = Self::fields_ok(parser);
            let ghost ex = Self::exact(parser);
        }
        proof {
            parser.lemma_searchable();
        }
        Ok(ExitBlock {
            tiletype: parser.get_attribute("tileType")?,
        })
    }

    fn to_raw(&self, encoder: &mut MapEncoder) {
        encoder.attribute("tileType", self.tiletype.to_encoded());
    }
}

#[derive(Debug)]
pub struct TempleCrackedBlock {
    persistent: bool,
}

impl Entity for TempleCrackedBlock {
    open spec fn entity_name() -> Seq<char> {
        "templeCrackedBlock"@
    }

    fn name() -> (r: &'static str) {
        "templeCrackedBlock"
    }

    closed spec fn fields_read(p: MapParser, x: Self) -> bool {
        &&& attr_read::<bool>(p, "persistent"@, x.persistent)
    }

    open spec fn fields_ok(p: MapParser) -> bool {
        &&& attr_ok::<bool>(p, "persistent"@)
    }

    open spec fn exact(p: MapParser) -> bool {
        true
    }

    closed spec fn written_attrs(&self) -> Seq<AttrV> {
        attr_written("persistent"@, self.persistent)
    }

    closed spec fn written_children(&self) -> nat {
        (0) as nat
    }

    fn from_raw(parser: MapParser) -> (r: Result<Self, MapElementParsingError>) {
        proof {
            let ghost ok = Self::fields_ok(parser);
            let ghost ex = Self::exact(parser);
        }
        proof {
            parser.lemma_searchable();
        }
        Ok(TempleCrackedBlock {
            persistent: parser.get_attribute("persistent")?,
        })
    }

    fn to_raw(&self, encoder: &mut MapEncoder) {
        encoder.attribute("persistent", self.persistent.to_encoded());
    }
}

#[derive(Debug)]
pub struct Clothesline {
    node: Node,
}

impl Entity for Clothesline {
    open spec fn entity_name() -> Seq<char> {
        "clothesline"@
    }

    fn name() -> (r: &'static str) {
        "clothesline"
    }

    closed spec fn fields_read(p: MapParser, x: Self) -> bool {
        &&& child_read::<Node>(p, x.node)
    }

    open spec fn fields_ok(p: MapParser) -> bool {
        &&& child_ok::<Node>(p)
    }

    open spec fn exact(p: MapParser) -> bool {
        &&& child_exact::<Node>(p)
    }

    closed spec fn written_attrs(&self) -> Seq<AttrV> {
        Seq::empty()
    }

    closed spec fn written_children(&self) -> nat {
        (1) as nat
    }

    fn from_raw(parser: MapParser) -> (r: Result<Self, MapElementParsingError>) {
        proof {
            let ghost ok = Self::fields_ok(parser);
            let ghost ex = Self::exact(parser);
        }
        Ok(Clothesline {
            node: parser.parse_element()?,
        })
    }

    fn to_raw(&self, encoder: &mut MapEncoder) {
        encoder.child(&self.node);
    }
}

#[derive(Debug)]
pub struct RedBlocks {
    inverted: bool,
}

impl Entity for RedBlocks {
    open spec fn entity_name() -> Seq<char> {
        "redBlocks"@
    }

    fn name() -> (r: &'static str) {
        "redBlocks"
    }

    closed spec fn fields_read(p: MapParser, x: Self) -> bool {
        &&& attr_read::<bool>(p, "inverted"@, x.inverted)
    }

    open spec fn fields_ok(p: MapParser) -> bool {
        &&& attr_ok::<bool>(p, "inverted"@)
    }

    open spec fn exact(p: MapParser) -> bool {
        true
    }

    closed spec fn written_attrs(&self) -> Seq<AttrV> {
        attr_written("inverted"@, self.inverted)
    }

    closed spec fn written_children(&self) -> nat {
        (0) as nat
    }

    fn from_raw(parser: MapParser) -> (r: Result<Self, MapElementParsingError>) {
        proof {
            let ghost ok = Self::fields_ok(parser);
            let ghost ex = Self::exact(parser);
        }
        proof {
            parser.lemma_searchable();
        }
        Ok(RedBlocks {
            inverted: parser.get_attribute("inverted")?,
        })
    }

    fn to_raw(&self, encoder: &mut MapEncoder) {
        encoder.attribute("inverted", self.inverted.to_encoded());
    }
}

#[derive(Debug)]
pub struct Door {
    kind: ResolvableString,
}

impl Entity for Door {
    open spec fn entity_name() -> Seq<char> {
        "door"@
    }

    fn name() -> (r: &'static str) {
        "door"
    }

    closed spec fn fields_read(p: MapParser, x: Self) -> bool {
        &&& attr_read::<ResolvableString>(p, "type"@, x.kind)
    }

    open spec fn fields_ok(p: MapParser) -> bool {
        &&& attr_ok::<ResolvableString>(p, "type"@)
    }

    open spec fn exact(p: MapParser) -> bool {
        true
    }

    closed spec fn written_attrs(&self) -> Seq<AttrV> {
        attr_written("type"@, self.kind)
    }

    closed spec fn written_children(&self) -> nat {
        (0) as nat
    }

    fn from_raw(parser: MapParser) -> (r: Result<Self, MapElementParsingError>) {
        proof {
            let ghost ok = Self::fields_ok(parser);
            let ghost ex = Self::exact(parser);
        }
        proof {
            parser.lemma_searchable();
        }
        Ok(Door {
            kind: parser.get_attribute("type")?,
        })
    }

    fn to_raw(&self, encoder: &mut MapEncoder) {
        encoder.attribute("type", self.kind.to_encoded());
    }
}

#[derive(Debug)]
pub struct DashSwitchV {
    ceiling: bool,
    persistent: bool,
    sprite: ResolvableString,
    allgates: Option<bool>,
}

impl Entity for DashSwitchV {
    open spec fn entity_name() -> Seq<char> {
        "dashSwitchV"@
    }

    fn name() -> (r: &'static str) {
        "dashSwitchV"
    }

    closed spec fn fields_read(p: MapParser, x: Self) -> bool {
        &&& attr_read::<bool>(p, "ceiling"@, x.ceiling)
        &&& attr_read::<bool>(p, "persistent"@, x.persistent)
        &&& attr_read::<ResolvableString>(p, "sprite"@, x.sprite)
        &&& opt_attr_read::<bool>(p, "allGates"@, x.allgates)
    }

    open spec fn fields_ok(p: MapParser) -> bool {
        &&& attr_ok::<bool>(p, "ceiling"@)
        &&& attr_ok::<bool>(p, "persistent"@)
        &&& attr_ok::<ResolvableString>(p, "sprite"@)
        &&& opt_attr_ok::<bool>(p, "allGates"@)
    }

    open spec fn exact(p: MapParser) -> bool {
        true
    }

    closed spec fn written_attrs(&self) -> Seq<AttrV> {
        attr_written("ceiling"@, self.ceiling)
            + attr_written("persistent"@, self.persistent)
            + attr_written("sprite"@, self.sprite)
            + opt_attr_written("allGates"@, self.allgates)
    }

    closed spec fn written_children(&self) -> nat {
        (0) as nat
    }

    fn from_raw(parser: MapParser) -> (r: Result<Self, MapElementParsingError>) {
        proof {
            let ghost ok = Self::fields_ok(parser);
            let ghost ex = Self::exact(parser);
        }
        proof {
            parser.lemma_searchable();
        }
        Ok(DashSwitchV {
            ceiling: parser.get_attribute("ceiling")?,
            persistent: parser.get_attribute("persistent")?,
            sprite: parser.get_attribute("sprite")?,
            allgates: parser.get_optional_attribute("allGates")?,
        })
    }

    fn to_raw(&self, encoder: &mut MapEncoder) {
        encoder.attribute("ceiling", self.ceiling.to_encoded());
        encoder.attribute("persistent", self.persistent.to_encoded());
        encoder.attribute("sprite", self.sprite.to_encoded());
        if let Some(v) = &self.allgates {
            encoder.attribute("allGates", v.to_encoded());
        }
    }
}

#[derive(Debug)]
pub struct Spinner {
    attachtosolid: bool,
}

impl Entity for Spinner {
    open spec fn entity_name() -> Seq<char> {
        "spinner"@
    }

    fn name() -> (r: &'static str) {
        "spinner"
    }

    closed spec fn fields_read(p: MapParser, x: Self) -> bool {
        &&& attr_read::<bool>(p, "attachToSolid"@, x.attachtosolid)
    }

    open spec fn fields_ok(p: MapParser) -> bool {
        &&& attr_ok::<bool>(p, "attachToSolid"@)
    }

    open spec fn exact(p: MapParser) -> bool {
        true
    }

    closed spec fn written_attrs(&self) -> Seq<AttrV> {
        attr_written("attachToSolid"@, self.attachtosolid)
    }

    closed spec fn written_children(&self) -> nat {
        (0) as nat
    }

    fn from_raw(parser: MapParser) -> (r: Result<Self, MapElementParsingError>) {
        proof {
            let ghost ok = Self::fields_ok(parser);
            let ghost ex = Self::exact(parser);
        }
        proof {
            parser.lemma_searchable();
        }
        Ok(Spinner {
            attachtosolid: parser.get_attribute("attachToSolid")?,
        })
    }

    fn to_raw(&self, encoder: &mut MapEncoder) {
        encoder.attribute("attachToSolid", self.attachtosolid.to_encoded());
    }
}

#[derive(Debug)]
pub struct ConditionBlock {
    tiletype: ResolvableString,
    condition: ResolvableString,
    conditionid: ResolvableString,
}

impl Entity for ConditionBlock {
    open spec fn entity_name() -> Seq<char> {
        "conditionBlock"@
    }

    fn name() -> (r: &'static str) {
        "conditionBlock"
    }

    closed spec fn fields_read(p: MapParser, x: Self) -> bool {
        &&& attr_read::<ResolvableString>(p, "tileType"@, x.tiletype)
        &&& attr_read::<ResolvableString>(p, "condition"@, x.condition)
        &&& attr_read::<ResolvableString>(p, "conditionID"@, x.conditionid)
    }

    open spec fn fields_ok(p: MapParser) -> bool {
        &&& attr_ok::<ResolvableString>(p, "tileType"@)
        &&& attr_ok::<ResolvableString>(p, "condition"@)
        &&& attr_ok::<ResolvableString>(p, "conditionID"@)
    }

    open spec fn exact(p: MapParser) -> bool {
        true
    }

    closed spec fn written_attrs(&self) -> Seq<AttrV> {
        attr_written("tileType"@, self.tiletype)
            + attr_written("condition"@, self.condition)
            + attr_written("conditionID"@, self.conditionid)
    }

    closed spec fn written_children(&self) -> nat {
        (0) as nat
    }

    fn from_raw(parser: MapParser) -> (r: Result<Self, MapElementParsingError>) {
        proof {
            let ghost ok = Self::fields_ok(parser);
            let ghost ex = Self::exact(parser);
        }
        proof {
            parser.lemma_searchable();
        }
        Ok(ConditionBlock {
            tiletype: parser.get_attribute("tileType")?,
            condition: parser.get_attribute("condition")?,
            conditionid: parser.get_attribute("conditionID")?,
        })
    }

    fn to_raw(&self, encoder: &mut MapEncoder) {
        encoder.attribute("tileType", self.tiletype.to_encoded());
        encoder.attribute("condition", self.condition.to_encoded());
        encoder.attribute("conditionID", self.conditionid.to_encoded());
    }
}

#[derive(Debug)]
pub struct FloatySpaceBlock {
    tiletype: Character,
    disablespawnoffset: bool,
}

impl Entity for FloatySpaceBlock {
    open spec fn entity_name() -> Seq<char> {
        "floatySpaceBlock"@
    }

    fn name() -> (r: &'static str) {
        "floatySpaceBlock"
    }

    closed spec fn fields_read(p: MapParser, x: Self) -> bool {
        &&& attr_read::<Character>(p, "tiletype"@, x.tiletype)
        &&& attr_read::<bool>(p, "disableSpawnOffset"@, x.disablespawnoffset)
    }

    open spec fn fields_ok(p: MapParser) -> bool {
        &&& attr_ok::<Character>(p, "tiletype"@)
        &&& attr_ok::<bool>(p, "disableSpawnOffset"@)
    }

    open spec fn exact(p: MapParser) -> bool {
        true
    }

    closed spec fn written_attrs(&self) -> Seq<AttrV> {
        attr_written("tiletype"@, self.tiletype)
            + attr_written("disableSpawnOffset"@, self.disablespawnoffset)
    }

    closed spec fn written_children(&self) -> nat {
        (0) as nat
    }

    fn from_raw(parser: MapParser) -> (r: Result<Self, MapElementParsingError>) {
        proof {
            let ghost ok = Self::fields_ok(parser);
            let ghost ex = Self::exact(parser);
        }
        proof {
            parser.lemma_searchable();
        }
        Ok(FloatySpaceBlock {
            tiletype: parser.get_attribute("tiletype")?,
            disablespawnoffset: parser.get_attribute("disableSpawnOffset")?,
        })
    }

    fn to_raw(&self, encoder: &mut MapEncoder) {
        encoder.attribute("tiletype", self.tiletype.to_encoded());
        encoder.attribute("disableSpawnOffset", self.disablespawnoffset.to_encoded());
    }
}

#[derive(Debug)]
pub struct SoundSource {
    sound: ResolvableString,
}

impl Entity for SoundSource {
    open spec fn entity_name() -> Seq<char> {
        "soundSource"@
    }

    fn name() -> (r: &'static str) {
        "soundSource"
    }

    closed spec fn fields_read(p: MapParser, x: Self) -> bool {
        &&& attr_read::<ResolvableString>(p, "sound"@, x.sound)
    }

    open spec fn fields_ok(p: MapParser) -> bool {
        &&& attr_ok::<ResolvableString>(p, "sound"@)
    }

    open spec fn exact(p: MapParser) -> bool {
        true
    }

    closed spec fn written_attrs(&self) -> Seq<AttrV> {
        attr_written("sound"@, self.sound)
    }

    closed spec fn written_children(&self) -> nat {
        (0) as nat
    }

    fn from_raw(parser: MapParser) -> (r: Result<Self, MapElementParsingError>) {
        proof {
            let ghost ok = Self::fields_ok(parser);
            let ghost ex = Self::exact(parser);
        }
        proof {
            parser.lemma_searchable();
        }
        Ok(SoundSource {
            sound: parser.get_attribute("sound")?,
        })
    }

    fn to_raw(&self, encoder: &mut MapEncoder) {
        encoder.attribute("sound", self.sound.to_encoded());
    }
}

#[derive(Debug)]
pub struct LockBlock {
    stepmusicprogress: bool,
    sprite: ResolvableString,
    unlock_sfx: Option<ResolvableString>,
}

impl Entity for LockBlock {
    open spec fn entity_name() -> Seq<char> {
        "lockBlock"@
    }

    fn name() -> (r: &'static str) {
        "lockBlock"
    }

    closed spec fn fields_read(p: MapParser, x: Self) -> bool {
        &&& attr_read::<bool>(p, "stepMusicProgress"@, x.stepmusicprogress)
        &&& attr_read::<ResolvableString>(p, "sprite"@, x.sprite)
        &&& opt_attr_read::<ResolvableString>(p, "unlock_sfx"@, x.unlock_sfx)
    }

    open spec fn fields_ok(p: MapParser) -> bool {
        &&& attr_ok::<bool>(p, "stepMusicProgress"@)
        &&& attr_ok::<ResolvableString>(p, "sprite"@)
        &&& opt_attr_ok::<ResolvableString>(p, "unlock_sfx"@)
    }

    open spec fn exact(p: MapParser) -> bool {
        true
    }

    closed spec fn written_attrs(&self) -> Seq<AttrV> {
        attr_written("stepMusicProgress"@, self.stepmusicprogress)
            + attr_written("sprite"@, self.sprite)
            + opt_attr_written("unlock_sfx"@, self.unlock_sfx)
    }

    closed spec fn written_children(&self) -> nat {
        (0) as nat
    }

    fn from_raw(parser: MapParser) -> (r: Result<Self, MapElementParsingError>) {
        proof {
            let ghost ok = Self::fields_ok(parser);
            let ghost ex = Self::exact(parser);
        }
        proof {
            parser.lemma_searchable();
        }
        Ok(LockBlock {
            stepmusicprogress: parser.get_attribute("stepMusicProgress")?,
            sprite: parser.get_attribute("sprite")?,
            unlock_sfx: parser.get_optional_attribute("unlock_sfx")?,
        })
    }

    fn to_raw(&self, encoder: &mut MapEncoder) {
        encoder.attribute("stepMusicProgress", self.stepmusicprogress.to_encoded());
        encoder.attribute("sprite", self.sprite.to_encoded());
        if let Some(v) = &self.unlock_sfx {
            encoder.attribute("unlock_sfx", v.to_encoded());
        }
    }
}

#[derive(Debug)]
pub struct Seeker {
    node: Option<Node>,
}

impl Entity for Seeker {
    open spec fn entity_name() -> Seq<char> {
        "seeker"@
    }

    fn name() -> (r: &'static str) {
        "seeker"
    }

    closed spec fn fields_read(p: MapParser, x: Self) -> bool {
        &&& opt_child_read::<Node>(p, x.node)
    }

    open spec fn fields_ok(p: MapParser) -> bool {
        &&& opt_child_ok::<Node>(p)
    }

    open spec fn exact(p: MapParser) -> bool {
        &&& child_exact::<Node>(p)
    }

    closed spec fn written_attrs(&self) -> Seq<AttrV> {
        Seq::empty()
    }

    closed spec fn written_children(&self) -> nat {
        (opt_count(self.node)) as nat
    }

    fn from_raw(parser: MapParser) -> (r: Result<Self, MapElementParsingError>) {
        proof {
            let ghost ok = Self::fields_ok(parser);
            let ghost ex = Self::exact(parser);
        }
        Ok(Seeker {
            node: parser.parse_optional_element()?,
        })
    }

    fn to_raw(&self, encoder: &mut MapEncoder) {
        if let Some(v) = &self.node {
            encoder.child(v);
        }
    }
}

#[derive(Debug)]
pub struct DashSwitchH {
    leftside: bool,
    persistent: bool,
    sprite: ResolvableString,
    allgates: Option<bool>,
}

impl Entity for DashSwitchH {
    open spec fn entity_name() -> Seq<char> {
        "dashSwitchH"@
    }

    fn name() -> (r: &'static str) {
        "dashSwitchH"
    }

    closed spec fn fields_read(p: MapParser, x: Self) -> bool {
        &&& attr_read::<bool>(p, "leftSide"@, x.leftside)
        &&& attr_read::<bool>(p, "persistent"@, x.persistent)
        &&& attr_read::<ResolvableString>(p, "sprite"@, x.sprite)
        &&& opt_attr_read::<bool>(p, "allGates"@, x.allgates)
    }

    open spec fn fields_ok(p: MapParser) -> bool {
        &&& attr_ok::<bool>(p, "leftSide"@)
        &&& attr_ok::<bool>(p, "persistent"@)
        &&& attr_ok::<ResolvableString>(p, "sprite"@)
        &&& opt_attr_ok::<bool>(p, "allGates"@)
    }

    open spec fn exact(p: MapParser) -> bool {
        true
    }

    closed spec fn written_attrs(&self) -> Seq<AttrV> {
        attr_written("leftSide"@, self.leftside)
            + attr_written("persistent"@, self.persistent)
            + attr_written("sprite"@, self.sprite)
            + opt_attr_written("allGates"@, self.allgates)
    }

    closed spec fn written_children(&self) -> nat {
        (0) as nat
    }

    fn from_raw(parser: MapParser) -> (r: Result<Self, MapElementParsingError>) {
        proof {
            let ghost ok = Self::fields_ok(parser);
            let ghost ex = Self::exact(parser);
        }
        proof {
            parser.lemma_searchable();
        }
        Ok(DashSwitchH {
            leftside: parser.get_attribute("leftSide")?,
            persistent: parser.get_attribute("persistent")?,
            sprite: parser.get_attribute("sprite")?,
            allgates: parser.get_optional_attribute("allGates")?,
        })
    }

    fn to_raw(&self, encoder: &mut MapEncoder) {
        encoder.attribute("leftSide", self.leftside.to_encoded());
        encoder.attribute("persistent", self.persistent.to_encoded());
        encoder.attribute("sprite", self.sprite.to_encoded());
        if let Some(v) = &self.allgates {
            encoder.attribute("allGates", v.to_encoded());
        }
    }
}

#[derive(Debug)]
pub struct SummitCheckpoint {
    number: u8,
}

impl Entity for SummitCheckpoint {
    open spec fn entity_name() -> Seq<char> {
        "summitcheckpoint"@
    }

    fn name() -> (r: &'static str) {
        "summitcheckpoint"
    }

    closed spec fn fields_read(p: MapParser, x: Self) -> bool {
        &&& attr_read::<u8>(p, "number"@, x.number)
    }

    open spec fn fields_ok(p: MapParser) -> bool {
        &&& attr_ok::<u8>(p, "number"@)
    }

    open spec fn exact(p: MapParser) -> bool {
        true
    }

    closed spec fn written_attrs(&self) -> Seq<AttrV> {
        attr_written("number"@, self.number)
    }

    closed spec fn written_children(&self) -> nat {
        (0) as nat
    }

    fn from_raw(parser: MapParser) -> (r: Result<Self, MapElementParsingError>) {
        proof {
            let ghost ok = Self::fields_ok(parser);
            let ghost ex = Self::exact(parser);
        }
        proof {
            parser.lemma_searchable();
        }
        Ok(SummitCheckpoint {
            number: parser.get_attribute("number")?,
        })
    }

    fn to_raw(&self, encoder: &mut MapEncoder) {
        encoder.attribute("number", self.number.to_encoded());
    }
}

#[derive(Debug)]
pub struct SummitGem {
    gem: u8,
}

impl Entity for SummitGem {
    open spec fn entity_name() -> Seq<char> {
        "summitgem"@
    }

    fn name() -> (r: &'static str) {
        "summitgem"
    }

    closed spec fn fields_read(p: MapParser, x: Self) -> bool {
        &&& attr_read::<u8>(p, "gem"@, x.gem)
    }

    open spec fn fields_ok(p: MapParser) -> bool {
        &&& attr_ok::<u8>(p, "gem"@)
    }

    open spec fn exact(p: MapParser) -> bool {
        true
    }

    closed spec fn written_attrs(&self) -> Seq<AttrV> {
        attr_written("gem"@, self.gem)
    }

    closed spec fn written_children(&self) -> nat {
        (0) as nat
    }

    fn from_raw(parser: MapParser) -> (r: Result<Self, MapElementParsingError>) {
        proof {
            let ghost ok = Self::fields_ok(parser);
            let ghost ex = Self::exact(parser);
        }
        proof {
            parser.lemma_searchable();
        }
        Ok(SummitGem {
            gem: parser.get_attribute("gem")?,
        })
    }

    fn to_raw(&self, encoder: &mut MapEncoder) {
        encoder.attribute("gem", self.gem.to_encoded());
    }
}

#[derive(Debug)]
pub struct SummitGemManager {
    node: Node,
}

impl Entity for SummitGemManager {
    open spec fn entity_name() -> Seq<char> {
        "summitGemManager"@
    }

    fn name() -> (r: &'static str) {
        "summitGemManager"
    }

    closed spec fn fields_read(p: MapParser, x: Self) -> bool {
        &&& child_read::<Node>(p, x.node)
    }

    open spec fn fields_ok(p: MapParser) -> bool {
        &&& child_ok::<Node>(p)
    }

    open spec fn exact(p: MapParser) -> bool {
        &&& child_exact::<Node>(p)
    }

    closed spec fn written_attrs(&self) -> Seq<AttrV> {
        Seq::empty()
    }

    closed spec fn written_children(&self) -> nat {
        (1) as nat
    }

    fn from_raw(parser: MapParser) -> (r: Result<Self, MapElementParsingError>) {
        proof {
            let ghost ok = Self::fields_ok(parser);
            let ghost ex = Self::exact(parser);
        }
        Ok(SummitGemManager {
            node: parser.parse_element()?,
        })
    }

    fn to_raw(&self, encoder: &mut MapEncoder) {
        encoder.child(&self.node);
    }
}

#[derive(Debug)]
pub struct FireBall {
    amount: u8,
    offset: Float,
    speed: Float,
    notcoremode: Option<bool>,
    node: Node,
}

impl Entity for FireBall {
    open spec fn entity_name() -> Seq<char> {
        "fireBall"@
    }

    fn name() -> (r: &'static str) {
        "fireBall"
    }

    closed spec fn fields_read(p: MapParser, x: Self) -> bool {
        &&& attr_read::<u8>(p, "amount"@, x.amount)
        &&& attr_read::<Float>(p, "offset"@, x.offset)
        &&& attr_read::<Float>(p, "speed"@, x.speed)
        &&& opt_attr_read::<bool>(p, "notCoreMode"@, x.notcoremode)
        &&& child_read::<Node>(p, x.node)
    }

    open spec fn fields_ok(p: MapParser) -> bool {
        &&& attr_ok::<u8>(p, "amount"@)
        &&& attr_ok::<Float>(p, "offset"@)
        &&& attr_ok::<Float>(p, "speed"@)
        &&& opt_attr_ok::<bool>(p, "notCoreMode"@)
        &&& child_ok::<Node>(p)
    }

    open spec fn exact(p: MapParser) -> bool {
        &&& child_exact::<Node>(p)
    }

    closed spec fn written_attrs(&self) -> Seq<AttrV> {
        attr_written("amount"@, self.amount)
            + attr_written("offset"@, self.offset)
            + attr_written("speed"@, self.speed)
            + opt_attr_written("notCoreMode"@, self.notcoremode)
    }

    closed spec fn written_children(&self) -> nat {
        (1) as nat
    }

    fn from_raw(parser: MapParser) -> (r: Result<Self, MapElementParsingError>) {
        proof {
            let ghost ok = Self::fields_ok(parser);
            let ghost ex = Self::exact(parser);
        }
        proof {
            parser.lemma_searchable();
        }
        Ok(FireBall {
            amount: parser.get_attribute("amount")?,
            offset: parser.get_attribute("offset")?,
            speed: parser.get_attribute("speed")?,
            notcoremode: parser.get_optional_attribute("notCoreMode")?,
            node: parser.parse_element()?,
        })
    }

    fn to_raw(&self, encoder: &mut MapEncoder) {
        encoder.attribute("amount", self.amount.to_encoded());
        encoder.attribute("offset", self.offset.to_encoded());
        encoder.attribute("speed", self.speed.to_encoded());
        if let Some(v) = &self.notcoremode {
            encoder.attribute("notCoreMode", v.to_encoded());
        }
        encoder.child(&self.node);
    }
}

#[derive(Debug)]
pub struct FlingBird {
    waiting: bool,
    node: Node,
}

impl Entity for FlingBird {
    open spec fn entity_name() -> Seq<char> {
        "flingBird"@
    }

    fn name() -> (r: &'static str) {
        "flingBird"
    }

    closed spec fn fields_read(p: MapParser, x: Self) -> bool {
        &&& attr_read::<bool>(p, "waiting"@, x.waiting)
        &&& child_read::<Node>(p, x.node)
    }

    open spec fn fields_ok(p: MapParser) -> bool {
        &&& attr_ok::<bool>(p, "waiting"@)
        &&& child_ok::<Node>(p)
    }

    open spec fn exact(p: MapParser) -> bool {
        &&& child_exact::<Node>(p)
    }

    closed spec fn written_attrs(&self) -> Seq<AttrV> {
        attr_written("waiting"@, self.waiting)
    }

    closed spec fn written_children(&self) -> nat {
        (1) as nat
    }

    fn from_raw(parser: MapParser) -> (r: Result<Self, MapElementParsingError>) {
        proof {
            let ghost ok = Self::fields_ok(parser);
            let ghost ex = Self::exact(parser);
        }
        proof {
            parser.lemma_searchable();
        }
        Ok(FlingBird {
            waiting: parser.get_attribute("waiting")?,
            node: parser.parse_element()?,
        })
    }

    fn to_raw(&self, encoder: &mut MapEncoder) {
        encoder.attribute("waiting", self.waiting.to_encoded());
        encoder.child(&self.node);
    }
}

#[derive(Debug)]
pub struct CoreModeToggle {
    onlyfire: bool,
    onlyice: bool,
    persistent: bool,
}

impl Entity for CoreModeToggle {
    open spec fn entity_name() -> Seq<char> {
        "coreModeToggle"@
    }

    fn name() -> (r: &'static str) {
        "coreModeToggle"
    }

    closed spec fn fields_read(p: MapParser, x: Self) -> bool {
        &&& attr_read::<bool>(p, "onlyFire"@, x.onlyfire)
        &&& attr_read::<bool>(p, "onlyIce"@, x.onlyice)
        &&& attr_read::<bool>(p, "persistent"@, x.persistent)
    }

    open spec fn fields_ok(p: MapParser) -> bool {
        &&& attr_ok::<bool>(p, "onlyFire"@)
        &&& attr_ok::<bool>(p, "onlyIce"@)
        &&& attr_ok::<bool>(p, "persistent"@)
    }

    open spec fn exact(p: MapParser) -> bool {
        true
    }

    closed spec fn written_attrs(&self) -> Seq<AttrV> {
        attr_written("onlyFire"@, self.onlyfire)
            + attr_written("onlyIce"@, self.onlyice)
            + attr_written("persistent"@, self.persistent)
    }

    closed spec fn written_children(&self) -> nat {
        (0) as nat
    }

    fn from_raw(parser: MapParser) -> (r: Result<Self, MapElementParsingError>) {
        proof {
            let ghost ok = Self::fields_ok(parser);
            let ghost ex = Self::exact(parser);
        }
        proof {
            parser.lemma_searchable();
        }
        Ok(CoreModeToggle {
            onlyfire: parser.get_attribute("onlyFire")?,
            onlyice: parser.get_attribute("onlyIce")?,
            persistent: parser.get_attribute("persistent")?,
        })
    }

    fn to_raw(&self, encoder: &mut MapEncoder) {
        encoder.attribute("onlyFire", self.onlyfire.to_encoded());
        encoder.attribute("onlyIce", self.onlyice.to_encoded());
        encoder.attribute("persistent", self.persistent.to_encoded());
    }
}

#[derive(Debug)]
pub struct HeartGemDoor {
    requires: u8,
    starthidden: Option<bool>,
    node: Node,
}

impl Entity for HeartGemDoor {
    open spec fn entity_name() -> Seq<char> {
        "heartGemDoor"@
    }

    fn name() -> (r: &'static str) {
        "heartGemDoor"
    }

    closed spec fn fields_read(p: MapParser, x: Self) -> bool {
        &&& attr_read::<u8>(p, "requires"@, x.requires)
        &&& opt_attr_read::<bool>(p, "startHidden"@, x.starthidden)
        &&& child_read::<Node>(p, x.node)
    }

    open spec fn fields_ok(p: MapParser) -> bool {
        &&& attr_ok::<u8>(p, "requires"@)
        &&& opt_attr_ok::<bool>(p, "startHidden"@)
        &&& child_ok::<Node>(p)
    }

    open spec fn exact(p: MapParser) -> bool {
        &&& child_exact::<Node>(p)
    }

    closed spec fn written_attrs(&self) -> Seq<AttrV> {
        attr_written("requires"@, self.requires)
            + opt_attr_written("startHidden"@, self.starthidden)
    }

    closed spec fn written_children(&self) -> nat {
        (1) as nat
    }

    fn from_raw(parser: MapParser) -> (r: Result<Self, MapElementParsingError>) {
        proof {
            let ghost ok = Self::fields_ok(parser);
            let ghost ex = Self::exact(parser);
        }
        proof {
            parser.lemma_searchable();
        }
        Ok(HeartGemDoor {
            requires: parser.get_attribute("requires")?,
            starthidden: parser.get_optional_attribute("startHidden")?,
            node: parser.parse_element()?,
        })
    }

    fn to_raw(&self, encoder: &mut MapEncoder) {
        encoder.attribute("requires", self.requires.to_encoded());
        if let Some(v) = &self.starthidden {
            encoder.attribute("startHidden", v.to_encoded());
        }
        encoder.child(&self.node);
    }
}

#[derive(Debug)]
pub struct Eyebomb {
    right: bool,
}

impl Entity for Eyebomb {
    open spec fn entity_name() -> Seq<char> {
        "eyebomb"@
    }

    fn name() -> (r: &'static str) {
        "eyebomb"
    }

    closed spec fn fields_read(p: MapParser, x: Self) -> bool {
        &&& attr_read::<bool>(p, "right"@, x.right)
    }

    open spec fn fields_ok(p: MapParser) -> bool {
        &&& attr_ok::<bool>(p, "right"@)
    }

    open spec fn exact(p: MapParser) -> bool {
        true
    }

    closed spec fn written_attrs(&self) -> Seq<AttrV> {
        attr_written("right"@, self.right)
    }

    closed spec fn written_children(&self) -> nat {
        (0) as nat
    }

    fn from_raw(parser: MapParser) -> (r: Result<Self, MapElementParsingError>) {
        proof {
            let ghost ok = Self::fields_ok(parser);
            let ghost ex = Self::exact(parser);
        }
        proof {
            parser.lemma_searchable();
        }
        Ok(Eyebomb {
            right: parser.get_attribute("right")?,
        })
    }

    fn to_raw(&self, encoder: &mut MapEncoder) {
        encoder.attribute("right", self.right.to_encoded());
    }
}

#[derive(Debug)]
pub struct TempleGate {
    kind: ResolvableString,
    sprite: ResolvableString,
}

impl Entity for TempleGate {
    open spec fn entity_name() -> Seq<char> {
        "templeGate"@
    }

    fn name() -> (r: &'static str) {
        "templeGate"
    }

    closed spec fn fields_read(p: MapParser, x: Self) -> bool {
        &&& attr_read::<ResolvableString>(p, "type"@, x.kind)
        &&& attr_read::<ResolvableString>(p, "sprite"@, x.sprite)
    }

    open spec fn fields_ok(p: MapParser) -> bool {
        &&& attr_ok::<ResolvableString>(p, "type"@)
        &&& attr_ok::<ResolvableString>(p, "sprite"@)
    }

    open spec fn exact(p: MapParser) -> bool {
        true
    }

    closed spec fn written_attrs(&self) -> Seq<AttrV> {
        attr_written("type"@, self.kind)
            + attr_written("sprite"@, self.sprite)
    }

    closed spec fn written_children(&self) -> nat {
        (0) as nat
    }

    fn from_raw(parser: MapParser) -> (r: Result<Self, MapElementParsingError>) {
        proof {
            let ghost ok = Self::fields_ok(parser);
            let ghost ex = Self::exact(parser);
        }
        proof {
            parser.lemma_searchable();
        }
        Ok(TempleGate {
            kind: parser.get_attribute("type")?,
            sprite: parser.get_attribute("sprite")?,
        })
    }

    fn to_raw(&self, encoder: &mut MapEncoder) {
        encoder.attribute("type", self.kind.to_encoded());
        encoder.attribute("sprite", self.sprite.to_encoded());
    }
}

#[derive(Debug)]
pub struct PlaybackTutorial {
    tutorial: ResolvableString,
    node: Node,
}

impl Entity for PlaybackTutorial {
    open spec fn entity_name() -> Seq<char> {
        "playbackTutorial"@
    }

    fn name() -> (r: &'static str) {
        "playbackTutorial"
    }

    closed spec fn fields_read(p: MapParser, x: Self) -> bool {
        &&& attr_read::<ResolvableString>(p, "tutorial"@, x.tutorial)
        &&& child_read::<Node>(p, x.node)
    }

    open spec fn fields_ok(p: MapParser) -> bool {
        &&& attr_ok::<ResolvableString>(p, "tutorial"@)
        &&& child_ok::<Node>(p)
    }

    open spec fn exact(p: MapParser) -> bool {
        &&& child_exact::<Node>(p)
    }

    closed spec fn written_attrs(&self) -> Seq<AttrV> {
        attr_written("tutorial"@, self.tutorial)
    }

    closed spec fn written_children(&self) -> nat {
        (1) as nat
    }

    fn from_raw(parser: MapParser) -> (r: Result<Self, MapElementParsingError>) {
        proof {
            let ghost ok = Self::fields_ok(parser);
            let ghost ex = Self::exact(parser);
        }
        proof {
            parser.lemma_searchable();
        }
        Ok(PlaybackTutorial {
            tutorial: parser.get_attribute("tutorial")?,
            node: parser.parse_element()?,
        })
    }

    fn to_raw(&self, encoder: &mut MapEncoder) {
        encoder.attribute("tutorial", self.tutorial.to_encoded());
        encoder.child(&self.node);
    }
}

#[derive(Debug)]
pub struct StarJumpBlock {
    sinks: bool,
}

impl Entity for StarJumpBlock {
    open spec fn entity_name() -> Seq<char> {
        "starJumpBlock"@
    }

    fn name() -> (r: &'static str) {
        "starJumpBlock"
    }

    closed spec fn fields_read(p: MapParser, x: Self) -> bool {
        &&& attr_read::<bool>(p, "sinks"@, x.sinks)
    }

    open spec fn fields_ok(p: MapParser) -> bool {
        &&& attr_ok::<bool>(p, "sinks"@)
    }

    open spec fn exact(p: MapParser) -> bool {
        true
    }

    closed spec fn written_attrs(&self) -> Seq<AttrV> {
        attr_written("sinks"@, self.sinks)
    }

    closed spec fn written_children(&self) -> nat {
        (0) as nat
    }

    fn from_raw(parser: MapParser) -> (r: Result<Self, MapElementParsingError>) {
        proof {
            let ghost ok = Self::fields_ok(parser);
            let ghost ex = Self::exact(parser);
        }
        proof {
            parser.lemma_searchable();
        }
        Ok(StarJumpBlock {
            sinks: parser.get_attribute("sinks")?,
        })
    }

    fn to_raw(&self, encoder: &mut MapEncoder) {
        encoder.attribute("sinks", self.sinks.to_encoded());
    }
}

#[derive(Debug)]
pub struct SeekerStatue {
    hatch: ResolvableString,
    node: Node,
}

impl Entity for SeekerStatue {
    open spec fn entity_name() -> Seq<char> {
        "seekerStatue"@
    }

    fn name() -> (r: &'static str) {
        "seekerStatue"
    }

    closed spec fn fields_read(p: MapParser, x: Self) -> bool {
        &&& attr_read::<ResolvableString>(p, "hatch"@, x.hatch)
        &&& child_read::<Node>(p, x.node)
    }

    open spec fn fields_ok(p: MapParser) -> bool {
        &&& attr_ok::<ResolvableString>(p, "hatch"@)
        &&& child_ok::<Node>(p)
    }

    open spec fn exact(p: MapParser) -> bool {
        &&& child_exact::<Node>(p)
    }

    closed spec fn written_attrs(&self) -> Seq<AttrV> {
        attr_written("hatch"@, self.hatch)
    }

    closed spec fn written_children(&self) -> nat {
        (1) as nat
    }

    fn from_raw(parser: MapParser) -> (r: Result<Self, MapElementParsingError>) {
        proof {
            let ghost ok = Self::fields_ok(parser);
            let ghost ex = Self::exact(parser);
        }
        proof {
            parser.lemma_searchable();
        }
        Ok(SeekerStatue {
            hatch: parser.get_attribute("hatch")?,
            node: parser.parse_element()?,
        })
    }

    fn to_raw(&self, encoder: &mut MapEncoder) {
        encoder.attribute("hatch", self.hatch.to_encoded());
        encoder.child(&self.node);
    }
}

#[derive(Debug)]
pub struct FinalBoss {
    patternindex: u8,
    camerapasty: u8,
    dialog: bool,
    starthit: bool,
    cameralocky: bool,
    node: Node,
}

impl Entity for FinalBoss {
    open spec fn entity_name() -> Seq<char> {
        "finalBoss"@
    }

    fn name() -> (r: &'static str) {
        "finalBoss"
    }

    closed spec fn fields_read(p: MapParser, x: Self) -> bool {
        &&& attr_read::<u8>(p, "patternIndex"@, x.patternindex)
        &&& attr_read::<u8>(p, "cameraPastY"@, x.camerapasty)
        &&& attr_read::<bool>(p, "dialog"@, x.dialog)
        &&& attr_read::<bool>(p, "startHit"@, x.starthit)
        &&& attr_read::<bool>(p, "cameraLockY"@, x.cameralocky)
        &&& child_read::<Node>(p, x.node)
    }

    open spec fn fields_ok(p: MapParser) -> bool {
        &&& attr_ok::<u8>(p, "patternIndex"@)
        &&& attr_ok::<u8>(p, "cameraPastY"@)
        &&& attr_ok::<bool>(p, "dialog"@)
        &&& attr_ok::<bool>(p, "startHit"@)
        &&& attr_ok::<bool>(p, "cameraLockY"@)
        &&& child_ok::<Node>(p)
    }

    open spec fn exact(p: MapParser) -> bool {
        &&& child_exact::<Node>(p)
    }

    closed spec fn written_attrs(&self) -> Seq<AttrV> {
        attr_written("patternIndex"@, self.patternindex)
            + attr_written("cameraPastY"@, self.camerapasty)
            + attr_written("dialog"@, self.dialog)
            + attr_written("startHit"@, self.starthit)
            + attr_written("cameraLockY"@, self.cameralocky)
    }

    closed spec fn written_children(&self) -> nat {
        (1) as nat
    }

    fn from_raw(parser: MapParser) -> (r: Result<Self, MapElementParsingError>) {
        proof {
            let ghost ok = Self::fields_ok(parser);
            let ghost ex = Self::exact(parser);
        }
        proof {
            parser.lemma_searchable();
        }
        Ok(FinalBoss {
            patternindex: parser.get_attribute("patternIndex")?,
            camerapasty: parser.get_attribute("cameraPastY")?,
            dialog: parser.get_attribute("dialog")?,
            starthit: parser.get_attribute("startHit")?,
            cameralocky: parser.get_attribute("cameraLockY")?,
            node: parser.parse_element()?,
        })
    }

    fn to_raw(&self, encoder: &mut MapEncoder) {
        encoder.attribute("patternIndex", self.patternindex.to_encoded());
        encoder.attribute("cameraPastY", self.camerapasty.to_encoded());
        encoder.attribute("dialog", self.dialog.to_encoded());
        encoder.attribute("startHit", self.starthit.to_encoded());
        encoder.attribute("cameraLockY", self.cameralocky.to_encoded());
        encoder.child(&self.node);
    }
}

#[derive(Debug)]
pub struct Cloud {
    fragile: bool,
}

impl Entity for Cloud {
    open spec fn entity_name() -> Seq<char> {
        "cloud"@
    }

    fn name() -> (r: &'static str) {
        "cloud"
    }

    closed spec fn fields_read(p: MapParser, x: Self) -> bool {
        &&& attr_read::<bool>(p, "fragile"@, x.fragile)
    }

    open spec fn fields_ok(p: MapParser) -> bool {
        &&& attr_ok::<bool>(p, "fragile"@)
    }

    open spec fn exact(p: MapParser) -> bool {
        true
    }

    closed spec fn written_attrs(&self) -> Seq<AttrV> {
        attr_written("fragile"@, self.fragile)
    }

    closed spec fn written_children(&self) -> nat {
        (0) as nat
    }

    fn from_raw(parser: MapParser) -> (r: Result<Self, MapElementParsingError>) {
        proof {
            let ghost ok = Self::fields_ok(parser);
            let ghost ex = Self::exact(parser);
        }
        proof {
            parser.lemma_searchable();
        }
        Ok(Cloud {
            fragile: parser.get_attribute("fragile")?,
        })
    }

    fn to_raw(&self, encoder: &mut MapEncoder) {
        encoder.attribute("fragile", self.fragile.to_encoded());
    }
}

#[derive(Debug)]
pub struct BigWaterfall {
    layer: ResolvableString,
}

impl Entity for BigWaterfall {
    open spec fn entity_name() -> Seq<char> {
        "bigWaterfall"@
    }

    fn name() -> (r: &'static str) {
        "bigWaterfall"
    }

    closed spec fn fields_read(p: MapParser, x: Self) -> bool {
        &&& attr_read::<ResolvableString>(p, "layer"@, x.layer)
    }

    open spec fn fields_ok(p: MapParser) -> bool {
        &&& attr_ok::<ResolvableString>(p, "layer"@)
    }

    open spec fn exact(p: MapParser) -> bool {
        true
    }

    closed spec fn written_attrs(&self) -> Seq<AttrV> {
        attr_written("layer"@, self.layer)
    }

    closed spec fn written_children(&self) -> nat {
        (0) as nat
    }

    fn from_raw(parser: MapParser) -> (r: Result<Self, MapElementParsingError>) {
        proof {
            let ghost ok = Self::fields_ok(parser);
            let ghost ex = Self::exact(parser);
        }
        proof {
            parser.lemma_searchable();
        }
        Ok(BigWaterfall {
            layer: parser.get_attribute("layer")?,
        })
    }

    fn to_raw(&self, encoder: &mut MapEncoder) {
        encoder.attribute("layer", self.layer.to_encoded());
    }
}

#[derive(Debug)]
pub struct WallSpringLeft {
    playercanuse: Option<bool>,
}

impl Entity for WallSpringLeft {
    open spec fn entity_name() -> Seq<char> {
        "wallSpringLeft"@
    }

    fn name() -> (r: &'static str) {
        "wallSpringLeft"
    }

    closed spec fn fields_read(p: MapParser, x: Self) -> bool {
        &&& opt_attr_read::<bool>(p, "playerCanUse"@, x.playercanuse)
    }

    open spec fn fields_ok(p: MapParser) -> bool {
        &&& opt_attr_ok::<bool>(p, "playerCanUse"@)
    }

    open spec fn exact(p: MapParser) -> bool {
        true
    }

    closed spec fn written_attrs(&self) -> Seq<AttrV> {
        opt_attr_written("playerCanUse"@, self.playercanuse)
    }

    closed spec fn written_children(&self) -> nat {
        (0) as nat
    }

    fn from_raw(parser: MapParser) -> (r: Result<Self, MapElementParsingError>) {
        proof {
            let ghost ok = Self::fields_ok(parser);
            let ghost ex = Self::exact(parser);
        }
        proof {
            parser.lemma_searchable();
        }
        Ok(WallSpringLeft {
            playercanuse: parser.get_optional_attribute("playerCanUse")?,
        })
    }

    fn to_raw(&self, encoder: &mut MapEncoder) {
        if let Some(v) = &self.playercanuse {
            encoder.attribute("playerCanUse", v.to_encoded());
        }
    }
}

#[derive(Debug)]
pub struct CoreMessage {
    line: u8,
}

impl Entity for CoreMessage {
    open spec fn entity_name() -> Seq<char> {
        "coreMessage"@
    }

    fn name() -> (r: &'static str) {
        "coreMessage"
    }

    closed spec fn fields_read(p: MapParser, x: Self) -> bool {
        &&& attr_read::<u8>(p, "line"@, x.line)
    }

    open spec fn fields_ok(p: MapParser) -> bool {
        &&& attr_ok::<u8>(p, "line"@)
    }

    open spec fn exact(p: MapParser) -> bool {
        true
    }

    closed spec fn written_attrs(&self) -> Seq<AttrV> {
        attr_written("line"@, self.line)
    }

    closed spec fn written_children(&self) -> nat {
        (0) as nat
    }

    fn from_raw(parser: MapParser) -> (r: Result<Self, MapElementParsingError>) {
        proof {
            let ghost ok = Self::fields_ok(parser);
            let ghost ex = Self::exact(parser);
        }
        proof {
            parser.lemma_searchable();
        }
        Ok(CoreMessage {
            line: parser.get_attribute("line")?,
        })
    }

    fn to_raw(&self, encoder: &mut MapEncoder) {
        encoder.attribute("line", self.line.to_encoded());
    }
}

#[derive(Debug)]
pub struct IntroCrusher {
    node: Node,
}

impl Entity for IntroCrusher {
    open spec fn entity_name() -> Seq<char> {
        "introCrusher"@
    }

    fn name() -> (r: &'static str) {
        "introCrusher"
    }

    closed spec fn fields_read(p: MapParser, x: Self) -> bool {
        &&& child_read::<Node>(p, x.node)
    }

    open spec fn fields_ok(p: MapParser) -> bool {
        &&& child_ok::<Node>(p)
    }

    open spec fn exact(p: MapParser) -> bool {
        &&& child_exact::<Node>(p)
    }

    closed spec fn written_attrs(&self) -> Seq<AttrV> {
        Seq::empty()
    }

    closed spec fn written_children(&self) -> nat {
        (1) as nat
    }

    fn from_raw(parser: MapParser) -> (r: Result<Self, MapElementParsingError>) {
        proof {
            let ghost ok = Self::fields_ok(parser);
            let ghost ex = Self::exact(parser);
        }
        Ok(IntroCrusher {
            node: parser.parse_element()?,
        })
    }

    fn to_raw(&self, encoder: &mut MapEncoder) {
        encoder.child(&self.node);
    }
}

#[derive(Debug)]
pub struct Key {
    node: Option<Node>,
}

impl Entity for Key {
    open spec fn entity_name() -> Seq<char> {
        "key"@
    }

    fn name() -> (r: &'static str) {
        "key"
    }

    closed spec fn fields_read(p: MapParser, x: Self) -> bool {
        &&& opt_child_read::<Node>(p, x.node)
    }

    open spec fn fields_ok(p: MapParser) -> bool {
        &&& opt_child_ok::<Node>(p)
    }

    open spec fn exact(p: MapParser) -> bool {
        &&& child_exact::<Node>(p)
    }

    closed spec fn written_attrs(&self) -> Seq<AttrV> {
        Seq::empty()
    }

    closed spec fn written_children(&self) -> nat {
        (opt_count(self.node)) as nat
    }

    fn from_raw(parser: MapParser) -> (r: Result<Self, MapElementParsingError>) {
        proof {
            let ghost ok = Self::fields_ok(parser);
            let ghost ex = Self::exact(parser);
        }
        Ok(Key {
            node: parser.parse_optional_element()?,
        })
    }

    fn to_raw(&self, encoder: &mut MapEncoder) {
        if let Some(v) = &self.node {
            encoder.child(v);
        }
    }
}

#[derive(Debug)]
pub struct HaHaHa {
    ifset: ResolvableString,
    triggerlaughsfx: bool,
    node: Node,
}

impl Entity for HaHaHa {
    open spec fn entity_name() -> Seq<char> {
        "hahaha"@
    }

    fn name() -> (r: &'static str) {
        "hahaha"
    }

    closed spec fn fields_read(p: MapParser, x: Self) -> bool {
        &&& attr_read::<ResolvableString>(p, "ifset"@, x.ifset)
        &&& attr_read::<bool>(p, "triggerLaughSfx"@, x.triggerlaughsfx)
        &&& child_read::<Node>(p, x.node)
    }

    open spec fn fields_ok(p: MapParser) -> bool {
        &&& attr_ok::<ResolvableString>(p, "ifset"@)
        &&& attr_ok::<bool>(p, "triggerLaughSfx"@)
        &&& child_ok::<Node>(p)
    }

    open spec fn exact(p: MapParser) -> bool {
        &&& child_exact::<Node>(p)
    }

    closed spec fn written_attrs(&self) -> Seq<AttrV> {
        attr_written("ifset"@, self.ifset)
            + attr_written("triggerLaughSfx"@, self.triggerlaughsfx)
    }

    closed spec fn written_children(&self) -> nat {
        (1) as nat
    }

    fn from_raw(parser: MapParser) -> (r: Result<Self, MapElementParsingError>) {
        proof {
            let ghost ok = Self::fields_ok(parser);
            let ghost ex = Self::exact(parser);
        }
        proof {
            parser.lemma_searchable();
        }
        Ok(HaHaHa {
            ifset: parser.get_attribute("ifset")?,
            triggerlaughsfx: parser.get_attribute("triggerLaughSfx")?,
            node: parser.parse_element()?,
        })
    }

    fn to_raw(&self, encoder: &mut MapEncoder) {
        encoder.attribute("ifset", self.ifset.to_encoded());
        encoder.attribute("triggerLaughSfx", self.triggerlaughsfx.to_encoded());
        encoder.child(&self.node);
    }
}

#[derive(Debug)]
pub struct BadelineBoost {
    lockcamera: bool,
    canskip: Option<bool>,
    finalch9boost: Option<bool>,
    finalch9goldenboost: Option<bool>,
    finalch9dialog: Option<bool>,
    node: Option<Node>,
}

impl Entity for BadelineBoost {
    open spec fn entity_name() -> Seq<char> {
        "badelineBoost"@
    }

    fn name() -> (r: &'static str) {
        "badelineBoost"
    }

    closed spec fn fields_read(p: MapParser, x: Self) -> bool {
        &&& attr_read::<bool>(p, "lockCamera"@, x.lockcamera)
        &&& opt_attr_read::<bool>(p, "canSkip"@, x.canskip)
        &&& opt_attr_read::<bool>(p, "finalCh9Boost"@, x.finalch9boost)
        &&& opt_attr_read::<bool>(p, "finalCh9GoldenBoost"@, x.finalch9goldenboost)
        &&& opt_attr_read::<bool>(p, "finalCh9Dialog"@, x.finalch9dialog)
        &&& opt_child_read::<Node>(p, x.node)
    }

    open spec fn fields_ok(p: MapParser) -> bool {
        &&& attr_ok::<bool>(p, "lockCamera"@)
        &&& opt_attr_ok::<bool>(p, "canSkip"@)
        &&& opt_attr_ok::<bool>(p, "finalCh9Boost"@)
        &&& opt_attr_ok::<bool>(p, "finalCh9GoldenBoost"@)
        &&& opt_attr_ok::<bool>(p, "finalCh9Dialog"@)
        &&& opt_child_ok::<Node>(p)
    }

    open spec fn exact(p: MapParser) -> bool {
        &&& child_exact::<Node>(p)
    }

    closed spec fn written_attrs(&self) -> Seq<AttrV> {
        attr_written("lockCamera"@, self.lockcamera)
            + opt_attr_written("canSkip"@, self.canskip)
            + opt_attr_written("finalCh9Boost"@, self.finalch9boost)
            + opt_attr_written("finalCh9GoldenBoost"@, self.finalch9goldenboost)
            + opt_attr_written("finalCh9Dialog"@, self.finalch9dialog)
    }

    closed spec fn written_children(&self) -> nat {
        (opt_count(self.node)) as nat
    }

    fn from_raw(parser: MapParser) -> (r: Result<Self, MapElementParsingError>) {
        proof {
            let ghost ok = Self::fields_ok(parser);
            let ghost ex = Self::exact(parser);
        }
        proof {
            parser.lemma_searchable();
        }
        Ok(BadelineBoost {
            lockcamera: parser.get_attribute("lockCamera")?,
            canskip: parser.get_optional_attribute("canSkip")?,
            finalch9boost: parser.get_optional_attribute("finalCh9Boost")?,
            finalch9goldenboost: parser.get_optional_attribute("finalCh9GoldenBoost")?,
            finalch9dialog: parser.get_optional_attribute("finalCh9Dialog")?,
            node: parser.parse_optional_element()?,
        })
    }

    fn to_raw(&self, encoder: &mut MapEncoder) {
        let ghost start = encoder.built();
        proof {
            let ghost wa = self.written_attrs();
            let ghost wc = self.written_children();
        }
        encoder.written_attribute("lockCamera", &self.lockcamera);
        proof {
            assert(encoder.built().attributes =~= start.attributes + (attr_written("lockCamera"@, self.lockcamera)));
        }
        encoder.written_optional_attribute("canSkip", &self.canskip);
        proof {
            assert(encoder.built().attributes =~= start.attributes + (attr_written("lockCamera"@, self.lockcamera) + opt_attr_written("canSkip"@, self.canskip)));
        }
        encoder.written_optional_attribute("finalCh9Boost", &self.finalch9boost);
        proof {
            assert(encoder.built().attributes =~= start.attributes + (attr_written("lockCamera"@, self.lockcamera) + opt_attr_written("canSkip"@, self.canskip) + opt_attr_written("finalCh9Boost"@, self.finalch9boost)));
        }
        encoder.written_optional_attribute("finalCh9GoldenBoost", &self.finalch9goldenboost);
        proof {
            assert(encoder.built().attributes =~= start.attributes + (attr_written("lockCamera"@, self.lockcamera) + opt_attr_written("canSkip"@, self.canskip) + opt_attr_written("finalCh9Boost"@, self.finalch9boost) + opt_attr_written("finalCh9GoldenBoost"@, self.finalch9goldenboost)));
        }
        encoder.written_optional_attribute("finalCh9Dialog", &self.finalch9dialog);
        proof {
            assert(encoder.built().attributes =~= start.attributes + (attr_written("lockCamera"@, self.lockcamera) + opt_attr_written("canSkip"@, self.canskip) + opt_attr_written("finalCh9Boost"@, self.finalch9boost) + opt_attr_written("finalCh9GoldenBoost"@, self.finalch9goldenboost) + opt_attr_written("finalCh9Dialog"@, self.finalch9dialog)));
        }
        encoder.optional_child(&self.node);
    }
}

#[derive(Debug)]
pub struct WallSpringRight {
    playercanuse: Option<bool>,
}

impl Entity for WallSpringRight {
    open spec fn entity_name() -> Seq<char> {
        "wallSpringRight"@
    }

    fn name() -> (r: &'static str) {
        "wallSpringRight"
    }

    closed spec fn fields_read(p: MapParser, x: Self) -> bool {
        &&& opt_attr_read::<bool>(p, "playerCanUse"@, x.playercanuse)
    }

    open spec fn fields_ok(p: MapParser) -> bool {
        &&& opt_attr_ok::<bool>(p, "playerCanUse"@)
    }

    open spec fn exact(p: MapParser) -> bool {
        true
    }

    closed spec fn written_attrs(&self) -> Seq<AttrV> {
        opt_attr_written("playerCanUse"@, self.playercanuse)
    }

    closed spec fn written_children(&self) -> nat {
        (0) as nat
    }

    fn from_raw(parser: MapParser) -> (r: Result<Self, MapElementParsingError>) {
        proof {
            let ghost ok = Self::fields_ok(parser);
            let ghost ex = Self::exact(parser);
        }
        proof {
            parser.lemma_searchable();
        }
        Ok(WallSpringRight {
            playercanuse: parser.get_optional_attribute("playerCanUse")?,
        })
    }

    fn to_raw(&self, encoder: &mut MapEncoder) {
        if let Some(v) = &self.playercanuse {
            encoder.attribute("playerCanUse", v.to_encoded());
        }
    }
}

#[derive(Debug)]
pub struct CrumbleWallOnRumble {
    blendin: bool,
    persistent: bool,
}

impl Entity for CrumbleWallOnRumble {
    open spec fn entity_name() -> Seq<char> {
        "crumbleWallOnRumble"@
    }

    fn name() -> (r: &'static str) {
        "crumbleWallOnRumble"
    }

    closed spec fn fields_read(p: MapParser, x: Self) -> bool {
        &&& attr_read::<bool>(p, "blendin"@, x.blendin)
        &&& attr_read::<bool>(p, "persistent"@, x.persistent)
    }

    open spec fn fields_ok(p: MapParser) -> bool {
        &&& attr_ok::<bool>(p, "blendin"@)
        &&& attr_ok::<bool>(p, "persistent"@)
    }

    open spec fn exact(p: MapParser) -> bool {
        true
    }

    closed spec fn written_attrs(&self) -> Seq<AttrV> {
        attr_written("blendin"@, self.blendin)
            + attr_written("persistent"@, self.persistent)
    }

    closed spec fn written_children(&self) -> nat {
        (0) as nat
    }

    fn from_raw(parser: MapParser) -> (r: Result<Self, MapElementParsingError>) {
        proof {
            let ghost ok = Self::fields_ok(parser);
            let ghost ex = Self::exact(parser);
        }
        proof {
            parser.lemma_searchable();
        }
        Ok(CrumbleWallOnRumble {
            blendin: parser.get_attribute("blendin")?,
            persistent: parser.get_attribute("persistent")?,
        })
    }

    fn to_raw(&self, encoder: &mut MapEncoder) {
        encoder.attribute("blendin", self.blendin.to_encoded());
        encoder.attribute("persistent", self.persistent.to_encoded());
    }
}

#[derive(Debug)]
pub struct RisingLava {
    intro: bool,
}

impl Entity for RisingLava {
    open spec fn entity_name() -> Seq<char> {
        "risingLava"@
    }

    fn name() -> (r: &'static str) {
        "risingLava"
    }

    closed spec fn fields_read(p: MapParser, x: Self) -> bool {
        &&& attr_read::<bool>(p, "intro"@, x.intro)
    }

    open spec fn fields_ok(p: MapParser) -> bool {
        &&& attr_ok::<bool>(p, "intro"@)
    }

    open spec fn exact(p: MapParser) -> bool {
        true
    }

    closed spec fn written_attrs(&self) -> Seq<AttrV> {
        attr_written("intro"@, self.intro)
    }

    closed spec fn written_children(&self) -> nat {
        (0) as nat
    }

    fn from_raw(parser: MapParser) -> (r: Result<Self, MapElementParsingError>) {
        proof {
            let ghost ok = Self::fields_ok(parser);
            let ghost ex = Self::exact(parser);
        }
        proof {
            parser.lemma_searchable();
        }
        Ok(RisingLava {
            intro: parser.get_attribute("intro")?,
        })
    }

    fn to_raw(&self, encoder: &mut MapEncoder) {
        encoder.attribute("intro", self.intro.to_encoded());
    }
}

#[derive(Debug)]
pub struct GreenBlocks {
    inverted: bool,
}

impl Entity for GreenBlocks {
    open spec fn entity_name() -> Seq<char> {
        "greenBlocks"@
    }

    fn name() -> (r: &'static str) {
        "greenBlocks"
    }

    closed spec fn fields_read(p: MapParser, x: Self) -> bool {
        &&& attr_read::<bool>(p, "inverted"@, x.inverted)
    }

    open spec fn fields_ok(p: MapParser) -> bool {
        &&& attr_ok::<bool>(p, "inverted"@)
    }

    open spec fn exact(p: MapParser) -> bool {
        true
    }

    closed spec fn written_attrs(&self) -> Seq<AttrV> {
        attr_written("inverted"@, self.inverted)
    }

    closed spec fn written_children(&self) -> nat {
        (0) as nat
    }

    fn from_raw(parser: MapParser) -> (r: Result<Self, MapElementParsingError>) {
        proof {
            let ghost ok = Self::fields_ok(parser);
            let ghost ex = Self::exact(parser);
        }
        proof {
            parser.lemma_searchable();
        }
        Ok(GreenBlocks {
            inverted: parser.get_attribute("inverted")?,
        })
    }

    fn to_raw(&self, encoder: &mut MapEncoder) {
        encoder.attribute("inverted", self.inverted.to_encoded());
    }
}

#[derive(Debug)]
pub struct LightningBlock {
    flag: bool,
    music: ResolvableString,
    music_progress: Integer,
    music_session: Option<bool>,
    flipx: bool,
}

impl Entity for LightningBlock {
    open spec fn entity_name() -> Seq<char> {
        "lightningBlock"@
    }

    fn name() -> (r: &'static str) {
        "lightningBlock"
    }

    closed spec fn fields_read(p: MapParser, x: Self) -> bool {
        &&& attr_read::<bool>(p, "flag"@, x.flag)
        &&& attr_read::<ResolvableString>(p, "music"@, x.music)
        &&& attr_read::<Integer>(p, "music_progress"@, x.music_progress)
        &&& opt_attr_read::<bool>(p, "music_session"@, x.music_session)
        &&& attr_read::<bool>(p, "flipX"@, x.flipx)
    }

    open spec fn fields_ok(p: MapParser) -> bool {
        &&& attr_ok::<bool>(p, "flag"@)
        &&& attr_ok::<ResolvableString>(p, "music"@)
        &&& attr_ok::<Integer>(p, "music_progress"@)
        &&& opt_attr_ok::<bool>(p, "music_session"@)
        &&& attr_ok::<bool>(p, "flipX"@)
    }

    open spec fn exact(p: MapParser) -> bool {
        true
    }

    closed spec fn written_attrs(&self) -> Seq<AttrV> {
        attr_written("flag"@, self.flag)
            + attr_written("music"@, self.music)
            + attr_written("music_progress"@, self.music_progress)
            + opt_attr_written("music_session"@, self.music_session)
            + attr_written("flipX"@, self.flipx)
    }

    closed spec fn written_children(&self) -> nat {
        (0) as nat
    }

    fn from_raw(parser: MapParser) -> (r: Result<Self, MapElementParsingError>) {
        proof {
            let ghost ok = Self::fields_ok(parser);
            let ghost ex = Self::exact(parser);
        }
        proof {
            parser.lemma_searchable();
        }
        Ok(LightningBlock {
            flag: parser.get_attribute("flag")?,
            music: parser.get_attribute("music")?,
            music_progress: parser.get_attribute("music_progress")?,
            music_session: parser.get_optional_attribute("music_session")?,
            flipx: parser.get_attribute("flipX")?,
        })
    }

    fn to_raw(&self, encoder: &mut MapEncoder) {
        encoder.attribute("flag", self.flag.to_encoded());
        encoder.attribute("music", self.music.to_encoded());
        encoder.attribute("music_progress", self.music_progress.to_encoded());
        if let Some(v) = &self.music_session {
            encoder.attribute("music_session", v.to_encoded());
        }
        encoder.attribute("flipX", self.flipx.to_encoded());
    }
}

#[derive(Debug)]
pub struct BirdPath {
    only_once: bool,
    onlyifleft: bool,
    speedmult: Option<Float>,
    node: Node,
}

impl Entity for BirdPath {
    open spec fn entity_name() -> Seq<char> {
        "birdPath"@
    }

    fn name() -> (r: &'static str) {
        "birdPath"
    }

    closed spec fn fields_read(p: MapParser, x: Self) -> bool {
        &&& attr_read::<bool>(p, "only_once"@, x.only_once)
        &&& attr_read::<bool>(p, "onlyIfLeft"@, x.onlyifleft)
        &&& opt_attr_read::<Float>(p, "speedMult"@, x.speedmult)
        &&& child_read::<Node>(p, x.node)
    }

    open spec fn fields_ok(p: MapParser) -> bool {
        &&& attr_ok::<bool>(p, "only_once"@)
        &&& attr_ok::<bool>(p, "onlyIfLeft"@)
        &&& opt_attr_ok::<Float>(p, "speedMult"@)
        &&& child_ok::<Node>(p)
    }

    open spec fn exact(p: MapParser) -> bool {
        &&& child_exact::<Node>(p)
    }

    closed spec fn written_attrs(&self) -> Seq<AttrV> {
        attr_written("only_once"@, self.only_once)
            + attr_written("onlyIfLeft"@, self.onlyifleft)
            + opt_attr_written("speedMult"@, self.speedmult)
    }

    closed spec fn written_children(&self) -> nat {
        (1) as nat
    }

    fn from_raw(parser: MapParser) -> (r: Result<Self, MapElementParsingError>) {
        proof {
            let ghost ok = Self::fields_ok(parser);
            let ghost ex = Self::exact(parser);
        }
        proof {
            parser.lemma_searchable();
        }
        Ok(BirdPath {
            only_once: parser.get_attribute("only_once")?,
            onlyifleft: parser.get_attribute("onlyIfLeft")?,
            speedmult: parser.get_optional_attribute("speedMult")?,
            node: parser.parse_element()?,
        })
    }

    fn to_raw(&self, encoder: &mut MapEncoder) {
        encoder.attribute("only_once", self.only_once.to_encoded());
        encoder.attribute("onlyIfLeft", self.onlyifleft.to_encoded());
        if let Some(v) = &self.speedmult {
            encoder.attribute("speedMult", v.to_encoded());
        }
        encoder.child(&self.node);
    }
}

#[derive(Debug)]
pub struct CutsceneNode {
    nodename: ResolvableString,
}

impl Entity for CutsceneNode {
    open spec fn entity_name() -> Seq<char> {
        "cutsceneNode"@
    }

    fn name() -> (r: &'static str) {
        "cutsceneNode"
    }

    closed spec fn fields_read(p: MapParser, x: Self) -> bool {
        &&& attr_read::<ResolvableString>(p, "nodeName"@, x.nodename)
    }

    open spec fn fields_ok(p: MapParser) -> bool {
        &&& attr_ok::<ResolvableString>(p, "nodeName"@)
    }

    open spec fn exact(p: MapParser) -> bool {
        true
    }

    closed spec fn written_attrs(&self) -> Seq<AttrV> {
        attr_written("nodeName"@, self.nodename)
    }

    closed spec fn written_children(&self) -> nat {
        (0) as nat
    }

    fn from_raw(parser: MapParser) -> (r: Result<Self, MapElementParsingError>) {
        proof {
            let ghost ok = Self::fields_ok(parser);
            let ghost ex = Self::exact(parser);
        }
        proof {
            parser.lemma_searchable();
        }
        Ok(CutsceneNode {
            nodename: parser.get_attribute("nodeName")?,
        })
    }

    fn to_raw(&self, encoder: &mut MapEncoder) {
        encoder.attribute("nodeName", self.nodename.to_encoded());
    }
}

#[derive(Debug)]
pub struct ClutterDoor {
    kind: ResolvableString,
}

impl Entity for ClutterDoor {
    open spec fn entity_name() -> Seq<char> {
        "clutterDoor"@
    }

    fn name() -> (r: &'static str) {
        "clutterDoor"
    }

    closed spec fn fields_read(p: MapParser, x: Self) -> bool {
        &&& attr_read::<ResolvableString>(p, "type"@, x.kind)
    }

    open spec fn fields_ok(p: MapParser) -> bool {
        &&& attr_ok::<ResolvableString>(p, "type"@)
    }

    open spec fn exact(p: MapParser) -> bool {
        true
    }

    closed spec fn written_attrs(&self) -> Seq<AttrV> {
        attr_written("type"@, self.kind)
    }

    closed spec fn written_children(&self) -> nat {
        (0) as nat
    }

    fn from_raw(parser: MapParser) -> (r: Result<Self, MapElementParsingError>) {
        proof {
            let ghost ok = Self::fields_ok(parser);
            let ghost ex = Self::exact(parser);
        }
        proof {
            parser.lemma_searchable();
        }
        Ok(ClutterDoor {
            kind: parser.get_attribute("type")?,
        })
    }

    fn to_raw(&self, encoder: &mut MapEncoder) {
        encoder.attribute("type", self.kind.to_encoded());
    }
}

#[derive(Debug)]
pub struct BigSpinner {
    node: Option<Node>,
}

impl Entity for BigSpinner {
    open spec fn entity_name() -> Seq<char> {
        "bigSpinner"@
    }

    fn name() -> (r: &'static str) {
        "bigSpinner"
    }

    closed spec fn fields_read(p: MapParser, x: Self) -> bool {
        &&& opt_child_read::<Node>(p, x.node)
    }

    open spec fn fields_ok(p: MapParser) -> bool {
        &&& opt_child_ok::<Node>(p)
    }

    open spec fn exact(p: MapParser) -> bool {
        &&& child_exact::<Node>(p)
    }

    closed spec fn written_attrs(&self) -> Seq<AttrV> {
        Seq::empty()
    }

    closed spec fn written_children(&self) -> nat {
        (opt_count(self.node)) as nat
    }

    fn from_raw(parser: MapParser) -> (r: Result<Self, MapElementParsingError>) {
        proof {
            let ghost ok = Self::fields_ok(parser);
            let ghost ex = Self::exact(parser);
        }
        Ok(BigSpinner {
            node: parser.parse_optional_element()?,
        })
    }

    fn to_raw(&self, encoder: &mut MapEncoder) {
        if let Some(v) = &self.node {
            encoder.child(v);
        }
    }
}

#[derive(Debug)]
pub struct CliffsideFlag {
    index: u8,
}

impl Entity for CliffsideFlag {
    open spec fn entity_name() -> Seq<char> {
        "cliffside_flag"@
    }

    fn name() -> (r: &'static str) {
        "cliffside_flag"
    }

    closed spec fn fields_read(p: MapParser, x: Self) -> bool {
        &&& attr_read::<u8>(p, "index"@, x.index)
    }

    open spec fn fields_ok(p: MapParser) -> bool {
        &&& attr_ok::<u8>(p, "index"@)
    }

    open spec fn exact(p: MapParser) -> bool {
        true
    }

    closed spec fn written_attrs(&self) -> Seq<AttrV> {
        attr_written("index"@, self.index)
    }

    closed spec fn written_children(&self) -> nat {
        (0) as nat
    }

    fn from_raw(parser: MapParser) -> (r: Result<Self, MapElementParsingError>) {
        proof {
            let ghost ok = Self::fields_ok(parser);
            let ghost ex = Self::exact(parser);
        }
        proof {
            parser.lemma_searchable();
        }
        Ok(CliffsideFlag {
            index: parser.get_attribute("index")?,
        })
    }

    fn to_raw(&self, encoder: &mut MapEncoder) {
        encoder.attribute("index", self.index.to_encoded());
    }
}

#[derive(Debug)]
pub struct RidgeGate {
    strawberries: ResolvableString,
    keys: ResolvableString,
    node: Option<Node>,
}

impl Entity for RidgeGate {
    open spec fn entity_name() -> Seq<char> {
        "ridgeGate"@
    }

    fn name() -> (r: &'static str) {
        "ridgeGate"
    }

    closed spec fn fields_read(p: MapParser, x: Self) -> bool {
        &&& attr_read::<ResolvableString>(p, "strawberries"@, x.strawberries)
        &&& attr_read::<ResolvableString>(p, "keys"@, x.keys)
        &&& opt_child_read::<Node>(p, x.node)
    }

    open spec fn fields_ok(p: MapParser) -> bool {
        &&& attr_ok::<ResolvableString>(p, "strawberries"@)
        &&& attr_ok::<ResolvableString>(p, "keys"@)
        &&& opt_child_ok::<Node>(p)
    }

    open spec fn exact(p: MapParser) -> bool {
        &&& child_exact::<Node>(p)
    }

    closed spec fn written_attrs(&self) -> Seq<AttrV> {
        attr_written("strawberries"@, self.strawberries)
            + attr_written("keys"@, self.keys)
    }

    closed spec fn written_children(&self) -> nat {
        (opt_count(self.node)) as nat
    }

    fn from_raw(parser: MapParser) -> (r: Result<Self, MapElementParsingError>) {
        proof {
            let ghost ok = Self::fields_ok(parser);
            let ghost ex = Self::exact(parser);
        }
        proof {
            parser.lemma_searchable();
        }
        Ok(RidgeGate {
            strawberries: parser.get_attribute("strawberries")?,
            keys: parser.get_attribute("keys")?,
            node: parser.parse_optional_element()?,
        })
    }

    fn to_raw(&self, encoder: &mut MapEncoder) {
        encoder.attribute("strawberries", self.strawberries.to_encoded());
        encoder.attribute("keys", self.keys.to_encoded());
        if let Some(v) = &self.node {
            encoder.child(v);
        }
    }
}

#[derive(Debug)]
pub struct SwapBlock {
    theme: Option<ResolvableString>,
    node: Node,
}

impl Entity for SwapBlock {
    open spec fn entity_name() -> Seq<char> {
        "swapBlock"@
    }

    fn name() -> (r: &'static str) {
        "swapBlock"
    }

    closed spec fn fields_read(p: MapParser, x: Self) -> bool {
        &&& opt_attr_read::<ResolvableString>(p, "theme"@, x.theme)
        &&& child_read::<Node>(p, x.node)
    }

    open spec fn fields_ok(p: MapParser) -> bool {
        &&& opt_attr_ok::<ResolvableString>(p, "theme"@)
        &&& child_ok::<Node>(p)
    }

    open spec fn exact(p: MapParser) -> bool {
        &&& child_exact::<Node>(p)
    }

    closed spec fn written_attrs(&self) -> Seq<AttrV> {
        opt_attr_written("theme"@, self.theme)
    }

    closed spec fn written_children(&self) -> nat {
        (1) as nat
    }

    fn from_raw(parser: MapParser) -> (r: Result<Self, MapElementParsingError>) {
        proof {
            let ghost ok = Self::fields_ok(parser);
            let ghost ex = Self::exact(parser);
        }
        proof {
            parser.lemma_searchable();
        }
        Ok(SwapBlock {
            theme: parser.get_optional_attribute("theme")?,
            node: parser.parse_element()?,
        })
    }

    fn to_raw(&self, encoder: &mut MapEncoder) {
        if let Some(v) = &self.theme {
            encoder.attribute("theme", v.to_encoded());
        }
        encoder.child(&self.node);
    }
}

#[derive(Debug)]
pub struct MovingPlatform {
    node: Node,
}

impl Entity for MovingPlatform {
    open spec fn entity_name() -> Seq<char> {
        "movingPlatform"@
    }

    fn name() -> (r: &'static str) {
        "movingPlatform"
    }

    closed spec fn fields_read(p: MapParser, x: Self) -> bool {
        &&& child_read::<Node>(p, x.node)
    }

    open spec fn fields_ok(p: MapParser) -> bool {
        &&& child_ok::<Node>(p)
    }

    open spec fn exact(p: MapParser) -> bool {
        &&& child_exact::<Node>(p)
    }

    closed spec fn written_attrs(&self) -> Seq<AttrV> {
        Seq::empty()
    }

    closed spec fn written_children(&self) -> nat {
        (1) as nat
    }

    fn from_raw(parser: MapParser) -> (r: Result<Self, MapElementParsingError>) {
        proof {
            let ghost ok = Self::fields_ok(parser);
            let ghost ex = Self::exact(parser);
        }
        Ok(MovingPlatform {
            node: parser.parse_element()?,
        })
    }

    fn to_raw(&self, encoder: &mut MapEncoder) {
        encoder.child(&self.node);
    }
}

#[derive(Debug)]
pub struct SwitchGate {
    persistent: bool,
    sprite: Option<ResolvableString>,
    node: Node,
}

impl Entity for SwitchGate {
    open spec fn entity_name() -> Seq<char> {
        "switchGate"@
    }

    fn name() -> (r: &'static str) {
        "switchGate"
    }

    closed spec fn fields_read(p: MapParser, x: Self) -> bool {
        &&& attr_read::<bool>(p, "persistent"@, x.persistent)
        &&& opt_attr_read::<ResolvableString>(p, "sprite"@, x.sprite)
        &&& child_read::<Node>(p, x.node)
    }

    open spec fn fields_ok(p: MapParser) -> bool {
        &&& attr_ok::<bool>(p, "persistent"@)
        &&& opt_attr_ok::<ResolvableString>(p, "sprite"@)
        &&& child_ok::<Node>(p)
    }

    open spec fn exact(p: MapParser) -> bool {
        &&& child_exact::<Node>(p)
    }

    closed spec fn written_attrs(&self) -> Seq<AttrV> {
        attr_written("persistent"@, self.persistent)
            + opt_attr_written("sprite"@, self.sprite)
    }

    closed spec fn written_children(&self) -> nat {
        (1) as nat
    }

    fn from_raw(parser: MapParser) -> (r: Result<Self, MapElementParsingError>) {
        proof {
            let ghost ok = Self::fields_ok(parser);
            let ghost ex = Self::exact(parser);
        }
        proof {
            parser.lemma_searchable();
        }
        Ok(SwitchGate {
            persistent: parser.get_attribute("persistent")?,
            sprite: parser.get_optional_attribute("sprite")?,
            node: parser.parse_element()?,
        })
    }

    fn to_raw(&self, encoder: &mut MapEncoder) {
        encoder.attribute("persistent", self.persistent.to_encoded());
        if let Some(v) = &self.sprite {
            encoder.attribute("sprite", v.to_encoded());
        }
        encoder.child(&self.node);
    }
}

#[derive(Debug)]
pub struct BlackGem {
    removecameratriggers: Option<bool>,
    fake: Option<bool>,
}

impl Entity for BlackGem {
    open spec fn entity_name() -> Seq<char> {
        "blackGem"@
    }

    fn name() -> (r: &'static str) {
        "blackGem"
    }

    closed spec fn fields_read(p: MapParser, x: Self) -> bool {
        &&& opt_attr_read::<bool>(p, "removeCameraTriggers"@, x.removecameratriggers)
        &&& opt_attr_read::<bool>(p, "fake"@, x.fake)
    }

    open spec fn fields_ok(p: MapParser) -> bool {
        &&& opt_attr_ok::<bool>(p, "removeCameraTriggers"@)
        &&& opt_attr_ok::<bool>(p, "fake"@)
    }

    open spec fn exact(p: MapParser) -> bool {
        true
    }

    closed spec fn written_attrs(&self) -> Seq<AttrV> {
        opt_attr_written("removeCameraTriggers"@, self.removecameratriggers)
            + opt_attr_written("fake"@, self.fake)
    }

    closed spec fn written_children(&self) -> nat {
        (0) as nat
    }

    fn from_raw(parser: MapParser) -> (r: Result<Self, MapElementParsingError>) {
        proof {
            let ghost ok = Self::fields_ok(parser);
            let ghost ex = Self::exact(parser);
        }
        proof {
            parser.lemma_searchable();
        }
        Ok(BlackGem {
            removecameratriggers: parser.get_optional_attribute("removeCameraTriggers")?,
            fake: parser.get_optional_attribute("fake")?,
        })
    }

    fn to_raw(&self, encoder: &mut MapEncoder) {
        if let Some(v) = &self.removecameratriggers {
            encoder.attribute("removeCameraTriggers", v.to_encoded());
        }
        if let Some(v) = &self.fake {
            encoder.attribute("fake", v.to_encoded());
        }
    }
}

#[derive(Debug)]
pub struct SummitBackgroundManager {
    index: Integer,
    intro_launch: bool,
    cutscene: Option<ResolvableString>,
    dark: Option<bool>,
    ambience: Option<ResolvableString>,
}

impl Entity for SummitBackgroundManager {
    open spec fn entity_name() -> Seq<char> {
        "SummitBackgroundManager"@
    }

    fn name() -> (r: &'static str) {
        "SummitBackgroundManager"
    }

    closed spec fn fields_read(p: MapParser, x: Self) -> bool {
        &&& attr_read::<Integer>(p, "index"@, x.index)
        &&& attr_read::<bool>(p, "intro_launch"@, x.intro_launch)
        &&& opt_attr_read::<ResolvableString>(p, "cutscene"@, x.cutscene)
        &&& opt_attr_read::<bool>(p, "dark"@, x.dark)
        &&& opt_attr_read::<ResolvableString>(p, "ambience"@, x.ambience)
    }

    open spec fn fields_ok(p: MapParser) -> bool {
        &&& attr_ok::<Integer>(p, "index"@)
        &&& attr_ok::<bool>(p, "intro_launch"@)
        &&& opt_attr_ok::<ResolvableString>(p, "cutscene"@)
        &&& opt_attr_ok::<bool>(p, "dark"@)
        &&& opt_attr_ok::<ResolvableString>(p, "ambience"@)
    }

    open spec fn exact(p: MapParser) -> bool {
        true
    }

    closed spec fn written_attrs(&self) -> Seq<AttrV> {
        attr_written("index"@, self.index)
            + attr_written("intro_launch"@, self.intro_launch)
            + opt_attr_written("cutscene"@, self.cutscene)
            + opt_attr_written("dark"@, self.dark)
            + opt_attr_written("ambience"@, self.ambience)
    }

    closed spec fn written_children(&self) -> nat {
        (0) as nat
    }

    fn from_raw(parser: MapParser) -> (r: Result<Self, MapElementParsingError>) {
        proof {
            let ghost ok = Self::fields_ok(parser);
            let ghost ex = Self::exact(parser);
        }
        proof {
            parser.lemma_searchable();
        }
        Ok(SummitBackgroundManager {
            index: parser.get_attribute("index")?,
            intro_launch: parser.get_attribute("intro_launch")?,
            cutscene: parser.get_optional_attribute("cutscene")?,
            dark: parser.get_optional_attribute("dark")?,
            ambience: parser.get_optional_attribute("ambience")?,
        })
    }

    fn to_raw(&self, encoder: &mut MapEncoder) {
        encoder.attribute("index", self.index.to_encoded());
        encoder.attribute("intro_launch", self.intro_launch.to_encoded());
        if let Some(v) = &self.cutscene {
            encoder.attribute("cutscene", v.to_encoded());
        }
        if let Some(v) = &self.dark {
            encoder.attribute("dark", v.to_encoded());
        }
        if let Some(v) = &self.ambience {
            encoder.attribute("ambience", v.to_encoded());
        }
    }
}

#[derive(Debug)]
pub struct TempleMirror {
    reflectx: Integer,
    reflecty: u8,
}

impl Entity for TempleMirror {
    open spec fn entity_name() -> Seq<char> {
        "templeMirror"@
    }

    fn name() -> (r: &'static str) {
        "templeMirror"
    }

    closed spec fn fields_read(p: MapParser, x: Self) -> bool {
        &&& attr_read::<Integer>(p, "reflectX"@, x.reflectx)
        &&& attr_read::<u8>(p, "reflectY"@, x.reflecty)
    }

    open spec fn fields_ok(p: MapParser) -> bool {
        &&& attr_ok::<Integer>(p, "reflectX"@)
        &&& attr_ok::<u8>(p, "reflectY"@)
    }

    open spec fn exact(p: MapParser) -> bool {
        true
    }

    closed spec fn written_attrs(&self) -> Seq<AttrV> {
        attr_written("reflectX"@, self.reflectx)
            + attr_written("reflectY"@, self.reflecty)
    }

    closed spec fn written_children(&self) -> nat {
        (0) as nat
    }

    fn from_raw(parser: MapParser) -> (r: Result<Self, MapElementParsingError>) {
        proof {
            let ghost ok = Self::fields_ok(parser);
            let ghost ex = Self::exact(parser);
        }
        proof {
            parser.lemma_searchable();
        }
        Ok(TempleMirror {
            reflectx: parser.get_attribute("reflectX")?,
            reflecty: parser.get_attribute("reflectY")?,
        })
    }

    fn to_raw(&self, encoder: &mut MapEncoder) {
        encoder.attribute("reflectX", self.reflectx.to_encoded());
        encoder.attribute("reflectY", self.reflecty.to_encoded());
    }
}

#[derive(Debug)]
pub struct MoveBlock {
    direction: ResolvableString,
    cansteer: bool,
    fast: bool,
}

impl Entity for MoveBlock {
    open spec fn entity_name() -> Seq<char> {
        "moveBlock"@
    }

    fn name() -> (r: &'static str) {
        "moveBlock"
    }

    closed spec fn fields_read(p: MapParser, x: Self) -> bool {
        &&& attr_read::<ResolvableString>(p, "direction"@, x.direction)
        &&& attr_read::<bool>(p, "canSteer"@, x.cansteer)
        &&& attr_read::<bool>(p, "fast"@, x.fast)
    }

    open spec fn fields_ok(p: MapParser) -> bool {
        &&& attr_ok::<ResolvableString>(p, "direction"@)
        &&& attr_ok::<bool>(p, "canSteer"@)
        &&& attr_ok::<bool>(p, "fast"@)
    }

    open spec fn exact(p: MapParser) -> bool {
        true
    }

    closed spec fn written_attrs(&self) -> Seq<AttrV> {
        attr_written("direction"@, self.direction)
            + attr_written("canSteer"@, self.cansteer)
            + attr_written("fast"@, self.fast)
    }

    closed spec fn written_children(&self) -> nat {
        (0) as nat
    }

    fn from_raw(parser: MapParser) -> (r: Result<Self, MapElementParsingError>) {
        proof {
            let ghost ok = Self::fields_ok(parser);
            let ghost ex = Self::exact(parser);
        }
        proof {
            parser.lemma_searchable();
        }
        Ok(MoveBlock {
            direction: parser.get_attribute("direction")?,
            cansteer: parser.get_attribute("canSteer")?,
            fast: parser.get_attribute("fast")?,
        })
    }

    fn to_raw(&self, encoder: &mut MapEncoder) {
        encoder.attribute("direction", self.direction.to_encoded());
        encoder.attribute("canSteer", self.cansteer.to_encoded());
        encoder.attribute("fast", self.fast.to_encoded());
    }
}

#[derive(Debug)]
pub struct DreamBlock {
    fastmoving: Option<bool>,
    oneuse: Option<bool>,
    below: Option<bool>,
    node: Option<Node>,
}

impl Entity for DreamBlock {
    open spec fn entity_name() -> Seq<char> {
        "dreamBlock"@
    }

    fn name() -> (r: &'static str) {
        "dreamBlock"
    }

    closed spec fn fields_read(p: MapParser, x: Self) -> bool {
        &&& opt_attr_read::<bool>(p, "fastMoving"@, x.fastmoving)
        &&& opt_attr_read::<bool>(p, "oneUse"@, x.oneuse)
        &&& opt_attr_read::<bool>(p, "below"@, x.below)
        &&& opt_child_read::<Node>(p, x.node)
    }

    open spec fn fields_ok(p: MapParser) -> bool {
        &&& opt_attr_ok::<bool>(p, "fastMoving"@)
        &&& opt_attr_ok::<bool>(p, "oneUse"@)
        &&& opt_attr_ok::<bool>(p, "below"@)
        &&& opt_child_ok::<Node>(p)
    }

    open spec fn exact(p: MapParser) -> bool {
        &&& child_exact::<Node>(p)
    }

    closed spec fn written_attrs(&self) -> Seq<AttrV> {
        opt_attr_written("fastMoving"@, self.fastmoving)
            + opt_attr_written("oneUse"@, self.oneuse)
            + opt_attr_written("below"@, self.below)
    }

    closed spec fn written_children(&self) -> nat {
        (opt_count(self.node)) as nat
    }

    fn from_raw(parser: MapParser) -> (r: Result<Self, MapElementParsingError>) {
        proof {
            let ghost ok = Self::fields_ok(parser);
            let ghost ex = Self::exact(parser);
        }
        proof {
            parser.lemma_searchable();
        }
        Ok(DreamBlock {
            fastmoving: parser.get_optional_attribute("fastMoving")?,
            oneuse: parser.get_optional_attribute("oneUse")?,
            below: parser.get_optional_attribute("below")?,
            node: parser.parse_optional_element()?,
        })
    }

    fn to_raw(&self, encoder: &mut MapEncoder) {
        if let Some(v) = &self.fastmoving {
            encoder.attribute("fastMoving", v.to_encoded());
        }
        if let Some(v) = &self.oneuse {
            encoder.attribute("oneUse", v.to_encoded());
        }
        if let Some(v) = &self.below {
            encoder.attribute("below", v.to_encoded());
        }
        if let Some(v) = &self.node {
            encoder.child(v);
        }
    }
}

#[derive(Debug)]
pub struct WallBooster {
    left: bool,
    notcoremode: Option<bool>,
}

impl Entity for WallBooster {
    open spec fn entity_name() -> Seq<char> {
        "wallBooster"@
    }

    fn name() -> (r: &'static str) {
        "wallBooster"
    }

    closed spec fn fields_read(p: MapParser, x: Self) -> bool {
        &&& attr_read::<bool>(p, "left"@, x.left)
        &&& opt_attr_read::<bool>(p, "notCoreMode"@, x.notcoremode)
    }

    open spec fn fields_ok(p: MapParser) -> bool {
        &&& attr_ok::<bool>(p, "left"@)
        &&& opt_attr_ok::<bool>(p, "notCoreMode"@)
    }

    open spec fn exact(p: MapParser) -> bool {
        true
    }

    closed spec fn written_attrs(&self) -> Seq<AttrV> {
        attr_written("left"@, self.left)
            + opt_attr_written("notCoreMode"@, self.notcoremode)
    }

    closed spec fn written_children(&self) -> nat {
        (0) as nat
    }

    fn from_raw(parser: MapParser) -> (r: Result<Self, MapElementParsingError>) {
        proof {
            let ghost ok = Self::fields_ok(parser);
            let ghost ex = Self::exact(parser);
        }
        proof {
            parser.lemma_searchable();
        }
        Ok(WallBooster {
            left: parser.get_attribute("left")?,
            notcoremode: parser.get_optional_attribute("notCoreMode")?,
        })
    }

    fn to_raw(&self, encoder: &mut MapEncoder) {
        encoder.attribute("left", self.left.to_encoded());
        if let Some(v) = &self.notcoremode {
            encoder.attribute("notCoreMode", v.to_encoded());
        }
    }
}

#[derive(Debug)]
pub struct Water {
    steamy: bool,
    hasbottom: bool,
}

impl Entity for Water {
    open spec fn entity_name() -> Seq<char> {
        "water"@
    }

    fn name() -> (r: &'static str) {
        "water"
    }

    closed spec fn fields_read(p: MapParser, x: Self) -> bool {
        &&& attr_read::<bool>(p, "steamy"@, x.steamy)
        &&& attr_read::<bool>(p, "hasBottom"@, x.hasbottom)
    }

    open spec fn fields_ok(p: MapParser) -> bool {
        &&& attr_ok::<bool>(p, "steamy"@)
        &&& attr_ok::<bool>(p, "hasBottom"@)
    }

    open spec fn exact(p: MapParser) -> bool {
        true
    }

    closed spec fn written_attrs(&self) -> Seq<AttrV> {
        attr_written("steamy"@, self.steamy)
            + attr_written("hasBottom"@, self.hasbottom)
    }

    closed spec fn written_children(&self) -> nat {
        (0) as nat
    }

    fn from_raw(parser: MapParser) -> (r: Result<Self, MapElementParsingError>) {
        proof {
            let ghost ok = Self::fields_ok(parser);
            let ghost ex = Self::exact(parser);
        }
        proof {
            parser.lemma_searchable();
        }
        Ok(Water {
            steamy: parser.get_attribute("steamy")?,
            hasbottom: parser.get_attribute("hasBottom")?,
        })
    }

    fn to_raw(&self, encoder: &mut MapEncoder) {
        encoder.attribute("steamy", self.steamy.to_encoded());
        encoder.attribute("hasBottom", self.hasbottom.to_encoded());
    }
}

#[derive(Debug)]
pub struct Lightning {
    perlevel: bool,
    movetime: Float,
    node: Option<Node>,
}

impl Entity for Lightning {
    open spec fn entity_name() -> Seq<char> {
        "lightning"@
    }

    fn name() -> (r: &'static str) {
        "lightning"
    }

    closed spec fn fields_read(p: MapParser, x: Self) -> bool {
        &&& attr_read::<bool>(p, "perLevel"@, x.perlevel)
        &&& attr_read::<Float>(p, "moveTime"@, x.movetime)
        &&& opt_child_read::<Node>(p, x.node)
    }

    open spec fn fields_ok(p: MapParser) -> bool {
        &&& attr_ok::<bool>(p, "perLevel"@)
        &&& attr_ok::<Float>(p, "moveTime"@)
        &&& opt_child_ok::<Node>(p)
    }

    open spec fn exact(p: MapParser) -> bool {
        &&& child_exact::<Node>(p)
    }

    closed spec fn written_attrs(&self) -> Seq<AttrV> {
        attr_written("perLevel"@, self.perlevel)
            + attr_written("moveTime"@, self.movetime)
    }

    closed spec fn written_children(&self) -> nat {
        (opt_count(self.node)) as nat
    }

    fn from_raw(parser: MapParser) -> (r: Result<Self, MapElementParsingError>) {
        proof {
            let ghost ok = Self::fields_ok(parser);
            let ghost ex = Self::exact(parser);
        }
        proof {
            parser.lemma_searchable();
        }
        Ok(Lightning {
            perlevel: parser.get_attribute("perLevel")?,
            movetime: parser.get_attribute("moveTime")?,
            node: parser.parse_optional_element()?,
        })
    }

    fn to_raw(&self, encoder: &mut MapEncoder) {
        encoder.attribute("perLevel", self.perlevel.to_encoded());
        encoder.attribute("moveTime", self.movetime.to_encoded());
        if let Some(v) = &self.node {
            encoder.child(v);
        }
    }
}

#[derive(Debug)]
pub struct MoonCreature {
    number: u8,
}

impl Entity for MoonCreature {
    open spec fn entity_name() -> Seq<char> {
        "moonCreature"@
    }

    fn name() -> (r: &'static str) {
        "moonCreature"
    }

    closed spec fn fields_read(p: MapParser, x: Self) -> bool {
        &&& attr_read::<u8>(p, "number"@, x.number)
    }

    open spec fn fields_ok(p: MapParser) -> bool {
        &&& attr_ok::<u8>(p, "number"@)
    }

    open spec fn exact(p: MapParser) -> bool {
        true
    }

    closed spec fn written_attrs(&self) -> Seq<AttrV> {
        attr_written("number"@, self.number)
    }

    closed spec fn written_children(&self) -> nat {
        (0) as nat
    }

    fn from_raw(parser: MapParser) -> (r: Result<Self, MapElementParsingError>) {
        proof {
            let ghost ok = Self::fields_ok(parser);
            let ghost ex = Self::exact(parser);
        }
        proof {
            parser.lemma_searchable();
        }
        Ok(MoonCreature {
            number: parser.get_attribute("number")?,
        })
    }

    fn to_raw(&self, encoder: &mut MapEncoder) {
        encoder.attribute("number", self.number.to_encoded());
    }
}

#[derive(Debug)]
pub struct FinalBossMovingBlock {
    nodeindex: u8,
    node: Node,
}

impl Entity for FinalBossMovingBlock {
    open spec fn entity_name() -> Seq<char> {
        "finalBossMovingBlock"@
    }

    fn name() -> (r: &'static str) {
        "finalBossMovingBlock"
    }

    closed spec fn fields_read(p: MapParser, x: Self) -> bool {
        &&& attr_read::<u8>(p, "nodeIndex"@, x.nodeindex)
        &&& child_read::<Node>(p, x.node)
    }

    open spec fn fields_ok(p: MapParser) -> bool {
        &&& attr_ok::<u8>(p, "nodeIndex"@)
        &&& child_ok::<Node>(p)
    }

    open spec fn exact(p: MapParser) -> bool {
        &&& child_exact::<Node>(p)
    }

    closed spec fn written_attrs(&self) -> Seq<AttrV> {
        attr_written("nodeIndex"@, self.nodeindex)
    }

    closed spec fn written_children(&self) -> nat {
        (1) as nat
    }

    fn from_raw(parser: MapParser) -> (r: Result<Self, MapElementParsingError>) {
        proof {
            let ghost ok = Self::fields_ok(parser);
            let ghost ex = Self::exact(parser);
        }
        proof {
            parser.lemma_searchable();
        }
        Ok(FinalBossMovingBlock {
            nodeindex: parser.get_attribute("nodeIndex")?,
            node: parser.parse_element()?,
        })
    }

    fn to_raw(&self, encoder: &mut MapEncoder) {
        encoder.attribute("nodeIndex", self.nodeindex.to_encoded());
        encoder.child(&self.node);
    }
}

#[derive(Debug)]
pub struct RotateSpinner {
    clockwise: bool,
    node: Node,
}

impl Entity for RotateSpinner {
    open spec fn entity_name() -> Seq<char> {
        "rotateSpinner"@
    }

    fn name() -> (r: &'static str) {
        "rotateSpinner"
    }

    closed spec fn fields_read(p: MapParser, x: Self) -> bool {
        &&& attr_read::<bool>(p, "clockwise"@, x.clockwise)
        &&& child_read::<Node>(p, x.node)
    }

    open spec fn fields_ok(p: MapParser) -> bool {
        &&& attr_ok::<bool>(p, "clockwise"@)
        &&& child_ok::<Node>(p)
    }

    open spec fn exact(p: MapParser) -> bool {
        &&& child_exact::<Node>(p)
    }

    closed spec fn written_attrs(&self) -> Seq<AttrV> {
        attr_written("clockwise"@, self.clockwise)
    }

    closed spec fn written_children(&self) -> nat {
        (1) as nat
    }

    fn from_raw(parser: MapParser) -> (r: Result<Self, MapElementParsingError>) {
        proof {
            let ghost ok = Self::fields_ok(parser);
            let ghost ex = Self::exact(parser);
        }
        proof {
            parser.lemma_searchable();
        }
        Ok(RotateSpinner {
            clockwise: parser.get_attribute("clockwise")?,
            node: parser.parse_element()?,
        })
    }

    fn to_raw(&self, encoder: &mut MapEncoder) {
        encoder.attribute("clockwise", self.clockwise.to_encoded());
        encoder.child(&self.node);
    }
}

#[derive(Debug)]
pub struct Booster {
    red: bool,
    ch9_hub_booster: Option<bool>,
}

impl Entity for Booster {
    open spec fn entity_name() -> Seq<char> {
        "booster"@
    }

    fn name() -> (r: &'static str) {
        "booster"
    }

    closed spec fn fields_read(p: MapParser, x: Self) -> bool {
        &&& attr_read::<bool>(p, "red"@, x.red)
        &&& opt_attr_read::<bool>(p, "ch9_hub_booster"@, x.ch9_hub_booster)
    }

    open spec fn fields_ok(p: MapParser) -> bool {
        &&& attr_ok::<bool>(p, "red"@)
        &&& opt_attr_ok::<bool>(p, "ch9_hub_booster"@)
    }

    open spec fn exact(p: MapParser) -> bool {
        true
    }

    closed spec fn written_attrs(&self) -> Seq<AttrV> {
        attr_written("red"@, self.red)
            + opt_attr_written("ch9_hub_booster"@, self.ch9_hub_booster)
    }

    closed spec fn written_children(&self) -> nat {
        (0) as nat
    }

    fn from_raw(parser: MapParser) -> (r: Result<Self, MapElementParsingError>) {
        proof {
            let ghost ok = Self::fields_ok(parser);
            let ghost ex = Self::exact(parser);
        }
        proof {
            parser.lemma_searchable();
        }
        Ok(Booster {
            red: parser.get_attribute("red")?,
            ch9_hub_booster: parser.get_optional_attribute("ch9_hub_booster")?,
        })
    }

    fn to_raw(&self, encoder: &mut MapEncoder) {
        encoder.attribute("red", self.red.to_encoded());
        if let Some(v) = &self.ch9_hub_booster {
            encoder.attribute("ch9_hub_booster", v.to_encoded());
        }
    }
}

#[derive(Debug)]
pub struct Bird {
    mode: ResolvableString,
    onlyonce: Option<bool>,
    onlyifplayerleft: Option<bool>,
    node: Option<Node>,
}

impl Entity for Bird {
    open spec fn entity_name() -> Seq<char> {
        "bird"@
    }

    fn name() -> (r: &'static str) {
        "bird"
    }

    closed spec fn fields_read(p: MapParser, x: Self) -> bool {
        &&& attr_read::<ResolvableString>(p, "mode"@, x.mode)
        &&& opt_attr_read::<bool>(p, "onlyOnce"@, x.onlyonce)
        &&& opt_attr_read::<bool>(p, "onlyIfPlayerLeft"@, x.onlyifplayerleft)
        &&& opt_child_read::<Node>(p, x.node)
    }

    open spec fn fields_ok(p: MapParser) -> bool {
        &&& attr_ok::<ResolvableString>(p, "mode"@)
        &&& opt_attr_ok::<bool>(p, "onlyOnce"@)
        &&& opt_attr_ok::<bool>(p, "onlyIfPlayerLeft"@)
        &&& opt_child_ok::<Node>(p)
    }

    open spec fn exact(p: MapParser) -> bool {
        &&& child_exact::<Node>(p)
    }

    closed spec fn written_attrs(&self) -> Seq<AttrV> {
        attr_written("mode"@, self.mode)
            + opt_attr_written("onlyOnce"@, self.onlyonce)
            + opt_attr_written("onlyIfPlayerLeft"@, self.onlyifplayerleft)
    }

    closed spec fn written_children(&self) -> nat {
        (opt_count(self.node)) as nat
    }

    fn from_raw(parser: MapParser) -> (r: Result<Self, MapElementParsingError>) {
        proof {
            let ghost ok = Self::fields_ok(parser);
            let ghost ex = Self::exact(parser);
        }
        proof {
            parser.lemma_searchable();
        }
        Ok(Bird {
            mode: parser.get_attribute("mode")?,
            onlyonce: parser.get_optional_attribute("onlyOnce")?,
            onlyifplayerleft: parser.get_optional_attribute("onlyIfPlayerLeft")?,
            node: parser.parse_optional_element()?,
        })
    }

    fn to_raw(&self, encoder: &mut MapEncoder) {
        encoder.attribute("mode", self.mode.to_encoded());
        if let Some(v) = &self.onlyonce {
            encoder.attribute("onlyOnce", v.to_encoded());
        }
        if let Some(v) = &self.onlyifplayerleft {
            encoder.attribute("onlyIfPlayerLeft", v.to_encoded());
        }
        if let Some(v) = &self.node {
            encoder.child(v);
        }
    }
}

#[derive(Debug)]
pub struct ReflectionHeartStatue {
    node: Node,
}

impl Entity for ReflectionHeartStatue {
    open spec fn entity_name() -> Seq<char> {
        "reflectionHeartStatue"@
    }

    fn name() -> (r: &'static str) {
        "reflectionHeartStatue"
    }

    closed spec fn fields_read(p: MapParser, x: Self) -> bool {
        &&& child_read::<Node>(p, x.node)
    }

    open spec fn fields_ok(p: MapParser) -> bool {
        &&& child_ok::<Node>(p)
    }

    open spec fn exact(p: MapParser) -> bool {
        &&& child_exact::<Node>(p)
    }

    closed spec fn written_attrs(&self) -> Seq<AttrV> {
        Seq::empty()
    }

    closed spec fn written_children(&self) -> nat {
        (1) as nat
    }

    fn from_raw(parser: MapParser) -> (r: Result<Self, MapElementParsingError>) {
        proof {
            let ghost ok = Self::fields_ok(parser);
            let ghost ex = Self::exact(parser);
        }
        Ok(ReflectionHeartStatue {
            node: parser.parse_element()?,
        })
    }

    fn to_raw(&self, encoder: &mut MapEncoder) {
        encoder.child(&self.node);
    }
}

#[derive(Debug)]
pub struct YellowBlocks {
    inverted: bool,
}

impl Entity for YellowBlocks {
    open spec fn entity_name() -> Seq<char> {
        "yellowBlocks"@
    }

    fn name() -> (r: &'static str) {
        "yellowBlocks"
    }

    closed spec fn fields_read(p: MapParser, x: Self) -> bool {
        &&& attr_read::<bool>(p, "inverted"@, x.inverted)
    }

    open spec fn fields_ok(p: MapParser) -> bool {
        &&& attr_ok::<bool>(p, "inverted"@)
    }

    open spec fn exact(p: MapParser) -> bool {
        true
    }

    closed spec fn written_attrs(&self) -> Seq<AttrV> {
        attr_written("inverted"@, self.inverted)
    }

    closed spec fn written_children(&self) -> nat {
        (0) as nat
    }

    fn from_raw(parser: MapParser) -> (r: Result<Self, MapElementParsingError>) {
        proof {
            let ghost ok = Self::fields_ok(parser);
            let ghost ex = Self::exact(parser);
        }
        proof {
            parser.lemma_searchable();
        }
        Ok(YellowBlocks {
            inverted: parser.get_attribute("inverted")?,
        })
    }

    fn to_raw(&self, encoder: &mut MapEncoder) {
        encoder.attribute("inverted", self.inverted.to_encoded());
    }
}

#[derive(Debug)]
pub struct TowerViewer {
    summit: Option<bool>,
    onlyy: Option<bool>,
    node: Option<Node>,
}

impl Entity for TowerViewer {
    open spec fn entity_name() -> Seq<char> {
        "towerviewer"@
    }

    fn name() -> (r: &'static str) {
        "towerviewer"
    }

    closed spec fn fields_read(p: MapParser, x: Self) -> bool {
        &&& opt_attr_read::<bool>(p, "summit"@, x.summit)
        &&& opt_attr_read::<bool>(p, "onlyY"@, x.onlyy)
        &&& opt_child_read::<Node>(p, x.node)
    }

    open spec fn fields_ok(p: MapParser) -> bool {
        &&& opt_attr_ok::<bool>(p, "summit"@)
        &&& opt_attr_ok::<bool>(p, "onlyY"@)
        &&& opt_child_ok::<Node>(p)
    }

    open spec fn exact(p: MapParser) -> bool {
        &&& child_exact::<Node>(p)
    }

    closed spec fn written_attrs(&self) -> Seq<AttrV> {
        opt_attr_written("summit"@, self.summit)
            + opt_attr_written("onlyY"@, self.onlyy)
    }

    closed spec fn written_children(&self) -> nat {
        (opt_count(self.node)) as nat
    }

    fn from_raw(parser: MapParser) -> (r: Result<Self, MapElementParsingError>) {
        proof {
            let ghost ok = Self::fields_ok(parser);
            let ghost ex = Self::exact(parser);
        }
        proof {
            parser.lemma_searchable();
        }
        Ok(TowerViewer {
            summit: parser.get_optional_attribute("summit")?,
            onlyy: parser.get_optional_attribute("onlyY")?,
            node: parser.parse_optional_element()?,
        })
    }

    fn to_raw(&self, encoder: &mut MapEncoder) {
        if let Some(v) = &self.summit {
            encoder.attribute("summit", v.to_encoded());
        }
        if let Some(v) = &self.onlyy {
            encoder.attribute("onlyY", v.to_encoded());
        }
        if let Some(v) = &self.node {
            encoder.child(v);
        }
    }
}

#[derive(Debug)]
pub struct Cobweb {
    node: Node,
}

impl Entity for Cobweb {
    open spec fn entity_name() -> Seq<char> {
        "cobweb"@
    }

    fn name() -> (r: &'static str) {
        "cobweb"
    }

    closed spec fn fields_read(p: MapParser, x: Self) -> bool {
        &&& child_read::<Node>(p, x.node)
    }

    open spec fn fields_ok(p: MapParser) -> bool {
        &&& child_ok::<Node>(p)
    }

    open spec fn exact(p: MapParser) -> bool {
        &&& child_exact::<Node>(p)
    }

    closed spec fn written_attrs(&self) -> Seq<AttrV> {
        Seq::empty()
    }

    closed spec fn written_children(&self) -> nat {
        (1) as nat
    }

    fn from_raw(parser: MapParser) -> (r: Result<Self, MapElementParsingError>) {
        proof {
            let ghost ok = Self::fields_ok(parser);
            let ghost ex = Self::exact(parser);
        }
        Ok(Cobweb {
            node: parser.parse_element()?,
        })
    }

    fn to_raw(&self, encoder: &mut MapEncoder) {
        encoder.child(&self.node);
    }
}

#[derive(Debug)]
pub struct InfiniteStar {
    shielded: bool,
    singleuse: bool,
}

impl Entity for InfiniteStar {
    open spec fn entity_name() -> Seq<char> {
        "infiniteStar"@
    }

    fn name() -> (r: &'static str) {
        "infiniteStar"
    }

    closed spec fn fields_read(p: MapParser, x: Self) -> bool {
        &&& attr_read::<bool>(p, "shielded"@, x.shielded)
        &&& attr_read::<bool>(p, "singleUse"@, x.singleuse)
    }

    open spec fn fields_ok(p: MapParser) -> bool {
        &&& attr_ok::<bool>(p, "shielded"@)
        &&& attr_ok::<bool>(p, "singleUse"@)
    }

    open spec fn exact(p: MapParser) -> bool {
        true
    }

    closed spec fn written_attrs(&self) -> Seq<AttrV> {
        attr_written("shielded"@, self.shielded)
            + attr_written("singleUse"@, self.singleuse)
    }

    closed spec fn written_children(&self) -> nat {
        (0) as nat
    }

    fn from_raw(parser: MapParser) -> (r: Result<Self, MapElementParsingError>) {
        proof {
            let ghost ok = Self::fields_ok(parser);
            let ghost ex = Self::exact(parser);
        }
        proof {
            parser.lemma_searchable();
        }
        Ok(InfiniteStar {
            shielded: parser.get_attribute("shielded")?,
            singleuse: parser.get_attribute("singleUse")?,
        })
    }

    fn to_raw(&self, encoder: &mut MapEncoder) {
        encoder.attribute("shielded", self.shielded.to_encoded());
        encoder.attribute("singleUse", self.singleuse.to_encoded());
    }
}

#[derive(Debug)]
pub struct Torch {
    startlit: bool,
}

impl Entity for Torch {
    open spec fn entity_name() -> Seq<char> {
        "torch"@
    }

    fn name() -> (r: &'static str) {
        "torch"
    }

    closed spec fn fields_read(p: MapParser, x: Self) -> bool {
        &&& attr_read::<bool>(p, "startLit"@, x.startlit)
    }

    open spec fn fields_ok(p: MapParser) -> bool {
        &&& attr_ok::<bool>(p, "startLit"@)
    }

    open spec fn exact(p: MapParser) -> bool {
        true
    }

    closed spec fn written_attrs(&self) -> Seq<AttrV> {
        attr_written("startLit"@, self.startlit)
    }

    closed spec fn written_children(&self) -> nat {
        (0) as nat
    }

    fn from_raw(parser: MapParser) -> (r: Result<Self, MapElementParsingError>) {
        proof {
            let ghost ok = Self::fields_ok(parser);
            let ghost ex = Self::exact(parser);
        }
        proof {
            parser.lemma_searchable();
        }
        Ok(Torch {
            startlit: parser.get_attribute("startLit")?,
        })
    }

    fn to_raw(&self, encoder: &mut MapEncoder) {
        encoder.attribute("startLit", self.startlit.to_encoded());
    }
}

#[derive(Debug)]
pub struct ColorSwitch {
    kind: ResolvableString,
}

impl Entity for ColorSwitch {
    open spec fn entity_name() -> Seq<char> {
        "colorSwitch"@
    }

    fn name() -> (r: &'static str) {
        "colorSwitch"
    }

    closed spec fn fields_read(p: MapParser, x: Self) -> bool {
        &&& attr_read::<ResolvableString>(p, "type"@, x.kind)
    }

    open spec fn fields_ok(p: MapParser) -> bool {
        &&& attr_ok::<ResolvableString>(p, "type"@)
    }

    open spec fn exact(p: MapParser) -> bool {
        true
    }

    closed spec fn written_attrs(&self) -> Seq<AttrV> {
        attr_written("type"@, self.kind)
    }

    closed spec fn written_children(&self) -> nat {
        (0) as nat
    }

    fn from_raw(parser: MapParser) -> (r: Result<Self, MapElementParsingError>) {
        proof {
            let ghost ok = Self::fields_ok(parser);
            let ghost ex = Self::exact(parser);
        }
        proof {
            parser.lemma_searchable();
        }
        Ok(ColorSwitch {
            kind: parser.get_attribute("type")?,
        })
    }

    fn to_raw(&self, encoder: &mut MapEncoder) {
        encoder.attribute("type", self.kind.to_encoded());
    }
}

#[derive(Debug)]
pub struct CliffFlag {
    node: Node,
}

impl Entity for CliffFlag {
    open spec fn entity_name() -> Seq<char> {
        "cliffflag"@
    }

    fn name() -> (r: &'static str) {
        "cliffflag"
    }

    closed spec fn fields_read(p: MapParser, x: Self) -> bool {
        &&& child_read::<Node>(p, x.node)
    }

    open spec fn fields_ok(p: MapParser) -> bool {
        &&& child_ok::<Node>(p)
    }

    open spec fn exact(p: MapParser) -> bool {
        &&& child_exact::<Node>(p)
    }

    closed spec fn written_attrs(&self) -> Seq<AttrV> {
        Seq::empty()
    }

    closed spec fn written_children(&self) -> nat {
        (1) as nat
    }

    fn from_raw(parser: MapParser) -> (r: Result<Self, MapElementParsingError>) {
        proof {
            let ghost ok = Self::fields_ok(parser);
            let ghost ex = Self::exact(parser);
        }
        Ok(CliffFlag {
            node: parser.parse_element()?,
        })
    }

    fn to_raw(&self, encoder: &mut MapEncoder) {
        encoder.child(&self.node);
    }
}

#[derive(Debug)]
pub struct Lamp {
    broken: bool,
}

impl Entity for Lamp {
    open spec fn entity_name() -> Seq<char> {
        "lamp"@
    }

    fn name() -> (r: &'static str) {
        "lamp"
    }

    closed spec fn fields_read(p: MapParser, x: Self) -> bool {
        &&& attr_read::<bool>(p, "broken"@, x.broken)
    }

    open spec fn fields_ok(p: MapParser) -> bool {
        &&& attr_ok::<bool>(p, "broken"@)
    }

    open spec fn exact(p: MapParser) -> bool {
        true
    }

    closed spec fn written_attrs(&self) -> Seq<AttrV> {
        attr_written("broken"@, self.broken)
    }

    closed spec fn written_children(&self) -> nat {
        (0) as nat
    }

    fn from_raw(parser: MapParser) -> (r: Result<Self, MapElementParsingError>) {
        proof {
            let ghost ok = Self::fields_ok(parser);
            let ghost ex = Self::exact(parser);
        }
        proof {
            parser.lemma_searchable();
        }
        Ok(Lamp {
            broken: parser.get_attribute("broken")?,
        })
    }

    fn to_raw(&self, encoder: &mut MapEncoder) {
        encoder.attribute("broken", self.broken.to_encoded());
    }
}

#[derive(Debug)]
pub struct PowerSourceNumber {
    number: u8,
    strawberries: ResolvableString,
    keys: ResolvableString,
}

impl Entity for PowerSourceNumber {
    open spec fn entity_name() -> Seq<char> {
        "powerSourceNumber"@
    }

    fn name() -> (r: &'static str) {
        "powerSourceNumber"
    }

    closed spec fn fields_read(p: MapParser, x: Self) -> bool {
        &&& attr_read::<u8>(p, "number"@, x.number)
        &&& attr_read::<ResolvableString>(p, "strawberries"@, x.strawberries)
        &&& attr_read::<ResolvableString>(p, "keys"@, x.keys)
    }

    open spec fn fields_ok(p: MapParser) -> bool {
        &&& attr_ok::<u8>(p, "number"@)
        &&& attr_ok::<ResolvableString>(p, "strawberries"@)
        &&& attr_ok::<ResolvableString>(p, "keys"@)
    }

    open spec fn exact(p: MapParser) -> bool {
        true
    }

    closed spec fn written_attrs(&self) -> Seq<AttrV> {
        attr_written("number"@, self.number)
            + attr_written("strawberries"@, self.strawberries)
            + attr_written("keys"@, self.keys)
    }

    closed spec fn written_children(&self) -> nat {
        (0) as nat
    }

    fn from_raw(parser: MapParser) -> (r: Result<Self, MapElementParsingError>) {
        proof {
            let ghost ok = Self::fields_ok(parser);
            let ghost ex = Self::exact(parser);
        }
        proof {
            parser.lemma_searchable();
        }
        Ok(PowerSourceNumber {
            number: parser.get_attribute("number")?,
            strawberries: parser.get_attribute("strawberries")?,
            keys: parser.get_attribute("keys")?,
        })
    }

    fn to_raw(&self, encoder: &mut MapEncoder) {
        encoder.attribute("number", self.number.to_encoded());
        encoder.attribute("strawberries", self.strawberries.to_encoded());
        encoder.attribute("keys", self.keys.to_encoded());
    }
}

#[derive(Debug)]
pub struct Bridge {
    node: Node,
}

impl Entity for Bridge {
    open spec fn entity_name() -> Seq<char> {
        "bridge"@
    }

    fn name() -> (r: &'static str) {
        "bridge"
    }

    closed spec fn fields_read(p: MapParser, x: Self) -> bool {
        &&& child_read::<Node>(p, x.node)
    }

    open spec fn fields_ok(p: MapParser) -> bool {
        &&& child_ok::<Node>(p)
    }

    open spec fn exact(p: MapParser) -> bool {
        &&& child_exact::<Node>(p)
    }

    closed spec fn written_attrs(&self) -> Seq<AttrV> {
        Seq::empty()
    }

    closed spec fn written_children(&self) -> nat {
        (1) as nat
    }

    fn from_raw(parser: MapParser) -> (r: Result<Self, MapElementParsingError>) {
        proof {
            let ghost ok = Self::fields_ok(parser);
            let ghost ex = Self::exact(parser);
        }
        Ok(Bridge {
            node: parser.parse_element()?,
        })
    }

    fn to_raw(&self, encoder: &mut MapEncoder) {
        encoder.child(&self.node);
    }
}

#[derive(Debug)]
pub struct CrushBlock {
    axes: ResolvableString,
    chillout: bool,
}

impl Entity for CrushBlock {
    open spec fn entity_name() -> Seq<char> {
        "crushBlock"@
    }

    fn name() -> (r: &'static str) {
        "crushBlock"
    }

    closed spec fn fields_read(p: MapParser, x: Self) -> bool {
        &&& attr_read::<ResolvableString>(p, "axes"@, x.axes)
        &&& attr_read::<bool>(p, "chillout"@, x.chillout)
    }

    open spec fn fields_ok(p: MapParser) -> bool {
        &&& attr_ok::<ResolvableString>(p, "axes"@)
        &&& attr_ok::<bool>(p, "chillout"@)
    }

    open spec fn exact(p: MapParser) -> bool {
        true
    }

    closed spec fn written_attrs(&self) -> Seq<AttrV> {
        attr_written("axes"@, self.axes)
            + attr_written("chillout"@, self.chillout)
    }

    closed spec fn written_children(&self) -> nat {
        (0) as nat
    }

    fn from_raw(parser: MapParser) -> (r: Result<Self, MapElementParsingError>) {
        proof {
            let ghost ok = Self::fields_ok(parser);
            let ghost ex = Self::exact(parser);
        }
        proof {
            parser.lemma_searchable();
        }
        Ok(CrushBlock {
            axes: parser.get_attribute("axes")?,
            chillout: parser.get_attribute("chillout")?,
        })
    }

    fn to_raw(&self, encoder: &mut MapEncoder) {
        encoder.attribute("axes", self.axes.to_encoded());
        encoder.attribute("chillout", self.chillout.to_encoded());
    }
}

#[derive(Debug)]
pub struct TrackSpinner {
    startcenter: bool,
    speed: ResolvableString,
    node: Node,
}

impl Entity for TrackSpinner {
    open spec fn entity_name() -> Seq<char> {
        "trackSpinner"@
    }

    fn name() -> (r: &'static str) {
        "trackSpinner"
    }

    closed spec fn fields_read(p: MapParser, x: Self) -> bool {
        &&& attr_read::<bool>(p, "startCenter"@, x.startcenter)
        &&& attr_read::<ResolvableString>(p, "speed"@, x.speed)
        &&& child_read::<Node>(p, x.node)
    }

    open spec fn fields_ok(p: MapParser) -> bool {
        &&& attr_ok::<bool>(p, "startCenter"@)
        &&& attr_ok::<ResolvableString>(p, "speed"@)
        &&& child_ok::<Node>(p)
    }

    open spec fn exact(p: MapParser) -> bool {
        &&& child_exact::<Node>(p)
    }

    closed spec fn written_attrs(&self) -> Seq<AttrV> {
        attr_written("startCenter"@, self.startcenter)
            + attr_written("speed"@, self.speed)
    }

    closed spec fn written_children(&self) -> nat {
        (1) as nat
    }

    fn from_raw(parser: MapParser) -> (r: Result<Self, MapElementParsingError>) {
        proof {
            let ghost ok = Self::fields_ok(parser);
            let ghost ex = Self::exact(parser);
        }
        proof {
            parser.lemma_searchable();
        }
        Ok(TrackSpinner {
            startcenter: parser.get_attribute("startCenter")?,
            speed: parser.get_attribute("speed")?,
            node: parser.parse_element()?,
        })
    }

    fn to_raw(&self, encoder: &mut MapEncoder) {
        encoder.attribute("startCenter", self.startcenter.to_encoded());
        encoder.attribute("speed", self.speed.to_encoded());
        encoder.child(&self.node);
    }
}

#[derive(Debug)]
pub struct Gondola {
    active: bool,
    node: Node,
}

impl Entity for Gondola {
    open spec fn entity_name() -> Seq<char> {
        "gondola"@
    }

    fn name() -> (r: &'static str) {
        "gondola"
    }

    closed spec fn fields_read(p: MapParser, x: Self) -> bool {
        &&& attr_read::<bool>(p, "active"@, x.active)
        &&& child_read::<Node>(p, x.node)
    }

    open spec fn fields_ok(p: MapParser) -> bool {
        &&& attr_ok::<bool>(p, "active"@)
        &&& child_ok::<Node>(p)
    }

    open spec fn exact(p: MapParser) -> bool {
        &&& child_exact::<Node>(p)
    }

    closed spec fn written_attrs(&self) -> Seq<AttrV> {
        attr_written("active"@, self.active)
    }

    closed spec fn written_children(&self) -> nat {
        (1) as nat
    }

    fn from_raw(parser: MapParser) -> (r: Result<Self, MapElementParsingError>) {
        proof {
            let ghost ok = Self::fields_ok(parser);
            let ghost ex = Self::exact(parser);
        }
        proof {
            parser.lemma_searchable();
        }
        Ok(Gondola {
            active: parser.get_attribute("active")?,
            node: parser.parse_element()?,
        })
    }

    fn to_raw(&self, encoder: &mut MapEncoder) {
        encoder.attribute("active", self.active.to_encoded());
        encoder.child(&self.node);
    }
}
} // verus!

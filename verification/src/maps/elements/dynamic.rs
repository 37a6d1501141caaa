//! Elements whose type is known only once they are read: an element of
//! any kind this library knows, chosen by its name, or the raw element.
use vstd::prelude::*;

use crate::maps::elements::entities::{SpikesUp, SpikesDown, SpikesLeft, SpikesRight, JumpThru, Wire, Strawberry, Lightbeam, Cassette, CassetteBlock, DashBlock, Bonfire, NPC, CoverupWall, Memorial, BirdForsakenCityGem, FallingBlock, ZipMover, FakeWall, Spring, Refill, Tentacles, Glider, FlingBirdIntro, ExitBlock, TempleCrackedBlock, Clothesline, RedBlocks, Door, DashSwitchV, Spinner, ConditionBlock, FloatySpaceBlock, SoundSource, LockBlock, Seeker, DashSwitchH, SummitCheckpoint, SummitGem, SummitGemManager, FireBall, FlingBird, CoreModeToggle, HeartGemDoor, Eyebomb, TempleGate, PlaybackTutorial, StarJumpBlock, SeekerStatue, FinalBoss, Cloud, BigWaterfall, WallSpringLeft, CoreMessage, IntroCrusher, Key, HaHaHa, BadelineBoost, WallSpringRight, CrumbleWallOnRumble, RisingLava, GreenBlocks, LightningBlock, BirdPath, CutsceneNode, ClutterDoor, BigSpinner, CliffsideFlag, RidgeGate, SwapBlock, MovingPlatform, SwitchGate, BlackGem, SummitBackgroundManager, TempleMirror, MoveBlock, DreamBlock, WallBooster, Water, Lightning, MoonCreature, FinalBossMovingBlock, RotateSpinner, Booster, Bird, ReflectionHeartStatue, YellowBlocks, TowerViewer, Cobweb, InfiniteStar, Torch, ColorSwitch, CliffFlag, Lamp, PowerSourceNumber, Bridge, CrushBlock, TrackSpinner, Gondola, Player, GoldenBerry, CrumbleBlock, Checkpoint, WingedGoldenStrawberry, FlutterBird, Plateau, Payphone, WavedashMachine, PlaybackBillboard, SinkingPlatform, PlayerSeeker, PICOConsole, DarkChaser, ResortRoofEnding, FireBarrier, TriggerSpikesUp, TriggerSpikesDown, IceBlock, Waterfall, BounceBlock, ResortLantern, KillBox, TouchSwitch, ClutterCabinet, TheoCrystal, BlockField, InvisibleBarrier, TempleMirrorPortal, TriggerSpikesRight, BridgeFixed, IntroCar, ForegroundDebris, OshiroDoor, TheoCrystalHoldingBarrier, TempleEye, TheoCrystalPedestal, FloatingDebris, TriggerSpikesLeft, KevinsPC, SandwichLava, Trapdoor, SummitCloud, FriendlyGhost, FinalBossFallingBlock, DreamMirror, SeekerBarrier, TempleBigEyeball, ResortMirror, WhiteBlock, HangingLamp};
use crate::maps::elements::level::{
    encode_level, encode_levels, encode_root, encode_triggers, BGDecals, BGTiles, Background, Decal, Entities, FGDecals,
    FGTiles, Level, Levels, ObjTiles, Solids, Triggers,
};
use crate::maps::elements::style::{Backgrounds, Foregrounds, Parallax, SnowBG, SnowFG, Styles};
use crate::maps::elements::triggers::{LookoutBlocker, MusicTrigger, BirdPathTrigger, BlackholeStrength, CameraOffsetTrigger, ChangeRespawnTrigger, MiniTextboxTrigger, RespawnTargetTrigger, NoRefillTrigger, BloomFadeTrigger, CameraTargetTrigger, MusicFadeTrigger, GoldenBerryCollectTrigger, CameraAdvanceTargetTrigger, LightFadeTrigger, SpawnFacingTrigger, WindAttackTrigger, AmbienceParamTrigger, EventTrigger, DetachFollowersTrigger, CheckpointBlockerTrigger, AltMusicTrigger, WindTrigger, CreditsTrigger, RumbleTrigger, OshiroTrigger, MoonGlitchBackgroundTrigger, InteractTrigger};
use crate::maps::elements::{Entity, Filler, MapEntity, MapRoot, MapTrigger, Node, Rect, Trigger};
use crate::maps::encoder::MapEncoder;
use crate::maps::parser::{MapElement, MapElementParsingError, MapParser};
use crate::maps::manager::MapManager;
use crate::maps::{element_view, RawMapElement};
use crate::utils::text::str_eq;

verus! {

/// An entity of any of the kinds this library knows.
#[derive(Debug)]
pub enum AnyEntity {
    SpikesUp(MapEntity<SpikesUp>),
    SpikesDown(MapEntity<SpikesDown>),
    SpikesLeft(MapEntity<SpikesLeft>),
    SpikesRight(MapEntity<SpikesRight>),
    JumpThru(MapEntity<JumpThru>),
    Wire(MapEntity<Wire>),
    Strawberry(MapEntity<Strawberry>),
    Lightbeam(MapEntity<Lightbeam>),
    Cassette(MapEntity<Cassette>),
    CassetteBlock(MapEntity<CassetteBlock>),
    DashBlock(MapEntity<DashBlock>),
    Bonfire(MapEntity<Bonfire>),
    NPC(MapEntity<NPC>),
    CoverupWall(MapEntity<CoverupWall>),
    Memorial(MapEntity<Memorial>),
    BirdForsakenCityGem(MapEntity<BirdForsakenCityGem>),
    FallingBlock(MapEntity<FallingBlock>),
    ZipMover(MapEntity<ZipMover>),
    FakeWall(MapEntity<FakeWall>),
    Spring(MapEntity<Spring>),
    Refill(MapEntity<Refill>),
    Tentacles(MapEntity<Tentacles>),
    Glider(MapEntity<Glider>),
    FlingBirdIntro(MapEntity<FlingBirdIntro>),
    ExitBlock(MapEntity<ExitBlock>),
    TempleCrackedBlock(MapEntity<TempleCrackedBlock>),
    Clothesline(MapEntity<Clothesline>),
    RedBlocks(MapEntity<RedBlocks>),
    Door(MapEntity<Door>),
    DashSwitchV(MapEntity<DashSwitchV>),
    Spinner(MapEntity<Spinner>),
    ConditionBlock(MapEntity<ConditionBlock>),
    FloatySpaceBlock(MapEntity<FloatySpaceBlock>),
    SoundSource(MapEntity<SoundSource>),
    LockBlock(MapEntity<LockBlock>),
    Seeker(MapEntity<Seeker>),
    DashSwitchH(MapEntity<DashSwitchH>),
    SummitCheckpoint(MapEntity<SummitCheckpoint>),
    SummitGem(MapEntity<SummitGem>),
    SummitGemManager(MapEntity<SummitGemManager>),
    FireBall(MapEntity<FireBall>),
    FlingBird(MapEntity<FlingBird>),
    CoreModeToggle(MapEntity<CoreModeToggle>),
    HeartGemDoor(MapEntity<HeartGemDoor>),
    Eyebomb(MapEntity<Eyebomb>),
    TempleGate(MapEntity<TempleGate>),
    PlaybackTutorial(MapEntity<PlaybackTutorial>),
    StarJumpBlock(MapEntity<StarJumpBlock>),
    SeekerStatue(MapEntity<SeekerStatue>),
    FinalBoss(MapEntity<FinalBoss>),
    Cloud(MapEntity<Cloud>),
    BigWaterfall(MapEntity<BigWaterfall>),
    WallSpringLeft(MapEntity<WallSpringLeft>),
    CoreMessage(MapEntity<CoreMessage>),
    IntroCrusher(MapEntity<IntroCrusher>),
    Key(MapEntity<Key>),
    HaHaHa(MapEntity<HaHaHa>),
    BadelineBoost(MapEntity<BadelineBoost>),
    WallSpringRight(MapEntity<WallSpringRight>),
    CrumbleWallOnRumble(MapEntity<CrumbleWallOnRumble>),
    RisingLava(MapEntity<RisingLava>),
    GreenBlocks(MapEntity<GreenBlocks>),
    LightningBlock(MapEntity<LightningBlock>),
    BirdPath(MapEntity<BirdPath>),
    CutsceneNode(MapEntity<CutsceneNode>),
    ClutterDoor(MapEntity<ClutterDoor>),
    BigSpinner(MapEntity<BigSpinner>),
    CliffsideFlag(MapEntity<CliffsideFlag>),
    RidgeGate(MapEntity<RidgeGate>),
    SwapBlock(MapEntity<SwapBlock>),
    MovingPlatform(MapEntity<MovingPlatform>),
    SwitchGate(MapEntity<SwitchGate>),
    BlackGem(MapEntity<BlackGem>),
    SummitBackgroundManager(MapEntity<SummitBackgroundManager>),
    TempleMirror(MapEntity<TempleMirror>),
    MoveBlock(MapEntity<MoveBlock>),
    DreamBlock(MapEntity<DreamBlock>),
    WallBooster(MapEntity<WallBooster>),
    Water(MapEntity<Water>),
    Lightning(MapEntity<Lightning>),
    MoonCreature(MapEntity<MoonCreature>),
    FinalBossMovingBlock(MapEntity<FinalBossMovingBlock>),
    RotateSpinner(MapEntity<RotateSpinner>),
    Booster(MapEntity<Booster>),
    Bird(MapEntity<Bird>),
    ReflectionHeartStatue(MapEntity<ReflectionHeartStatue>),
    YellowBlocks(MapEntity<YellowBlocks>),
    TowerViewer(MapEntity<TowerViewer>),
    Cobweb(MapEntity<Cobweb>),
    InfiniteStar(MapEntity<InfiniteStar>),
    Torch(MapEntity<Torch>),
    ColorSwitch(MapEntity<ColorSwitch>),
    CliffFlag(MapEntity<CliffFlag>),
    Lamp(MapEntity<Lamp>),
    PowerSourceNumber(MapEntity<PowerSourceNumber>),
    Bridge(MapEntity<Bridge>),
    CrushBlock(MapEntity<CrushBlock>),
    TrackSpinner(MapEntity<TrackSpinner>),
    Gondola(MapEntity<Gondola>),
    Player(MapEntity<Player>),
    GoldenBerry(MapEntity<GoldenBerry>),
    CrumbleBlock(MapEntity<CrumbleBlock>),
    Checkpoint(MapEntity<Checkpoint>),
    WingedGoldenStrawberry(MapEntity<WingedGoldenStrawberry>),
    FlutterBird(MapEntity<FlutterBird>),
    Plateau(MapEntity<Plateau>),
    Payphone(MapEntity<Payphone>),
    WavedashMachine(MapEntity<WavedashMachine>),
    PlaybackBillboard(MapEntity<PlaybackBillboard>),
    SinkingPlatform(MapEntity<SinkingPlatform>),
    PlayerSeeker(MapEntity<PlayerSeeker>),
    PICOConsole(MapEntity<PICOConsole>),
    DarkChaser(MapEntity<DarkChaser>),
    ResortRoofEnding(MapEntity<ResortRoofEnding>),
    FireBarrier(MapEntity<FireBarrier>),
    TriggerSpikesUp(MapEntity<TriggerSpikesUp>),
    TriggerSpikesDown(MapEntity<TriggerSpikesDown>),
    IceBlock(MapEntity<IceBlock>),
    Waterfall(MapEntity<Waterfall>),
    BounceBlock(MapEntity<BounceBlock>),
    ResortLantern(MapEntity<ResortLantern>),
    KillBox(MapEntity<KillBox>),
    TouchSwitch(MapEntity<TouchSwitch>),
    ClutterCabinet(MapEntity<ClutterCabinet>),
    TheoCrystal(MapEntity<TheoCrystal>),
    BlockField(MapEntity<BlockField>),
    InvisibleBarrier(MapEntity<InvisibleBarrier>),
    TempleMirrorPortal(MapEntity<TempleMirrorPortal>),
    TriggerSpikesRight(MapEntity<TriggerSpikesRight>),
    BridgeFixed(MapEntity<BridgeFixed>),
    IntroCar(MapEntity<IntroCar>),
    ForegroundDebris(MapEntity<ForegroundDebris>),
    OshiroDoor(MapEntity<OshiroDoor>),
    TheoCrystalHoldingBarrier(MapEntity<TheoCrystalHoldingBarrier>),
    TempleEye(MapEntity<TempleEye>),
    TheoCrystalPedestal(MapEntity<TheoCrystalPedestal>),
    FloatingDebris(MapEntity<FloatingDebris>),
    TriggerSpikesLeft(MapEntity<TriggerSpikesLeft>),
    KevinsPC(MapEntity<KevinsPC>),
    SandwichLava(MapEntity<SandwichLava>),
    Trapdoor(MapEntity<Trapdoor>),
    SummitCloud(MapEntity<SummitCloud>),
    FriendlyGhost(MapEntity<FriendlyGhost>),
    FinalBossFallingBlock(MapEntity<FinalBossFallingBlock>),
    DreamMirror(MapEntity<DreamMirror>),
    SeekerBarrier(MapEntity<SeekerBarrier>),
    TempleBigEyeball(MapEntity<TempleBigEyeball>),
    ResortMirror(MapEntity<ResortMirror>),
    WhiteBlock(MapEntity<WhiteBlock>),
    HangingLamp(MapEntity<HangingLamp>),
}

impl AnyEntity {
    /// The name of the entity's kind in the map binary.
    pub open spec fn kind_name(self) -> Seq<char> {
        match self {
            AnyEntity::SpikesUp(_) => SpikesUp::entity_name(),
            AnyEntity::SpikesDown(_) => SpikesDown::entity_name(),
            AnyEntity::SpikesLeft(_) => SpikesLeft::entity_name(),
            AnyEntity::SpikesRight(_) => SpikesRight::entity_name(),
            AnyEntity::JumpThru(_) => JumpThru::entity_name(),
            AnyEntity::Wire(_) => Wire::entity_name(),
            AnyEntity::Strawberry(_) => Strawberry::entity_name(),
            AnyEntity::Lightbeam(_) => Lightbeam::entity_name(),
            AnyEntity::Cassette(_) => Cassette::entity_name(),
            AnyEntity::CassetteBlock(_) => CassetteBlock::entity_name(),
            AnyEntity::DashBlock(_) => DashBlock::entity_name(),
            AnyEntity::Bonfire(_) => Bonfire::entity_name(),
            AnyEntity::NPC(_) => NPC::entity_name(),
            AnyEntity::CoverupWall(_) => CoverupWall::entity_name(),
            AnyEntity::Memorial(_) => Memorial::entity_name(),
            AnyEntity::BirdForsakenCityGem(_) => BirdForsakenCityGem::entity_name(),
            AnyEntity::FallingBlock(_) => FallingBlock::entity_name(),
            AnyEntity::ZipMover(_) => ZipMover::entity_name(),
            AnyEntity::FakeWall(_) => FakeWall::entity_name(),
            AnyEntity::Spring(_) => Spring::entity_name(),
            AnyEntity::Refill(_) => Refill::entity_name(),
            AnyEntity::Tentacles(_) => Tentacles::entity_name(),
            AnyEntity::Glider(_) => Glider::entity_name(),
            AnyEntity::FlingBirdIntro(_) => FlingBirdIntro::entity_name(),
            AnyEntity::ExitBlock(_) => ExitBlock::entity_name(),
            AnyEntity::TempleCrackedBlock(_) => TempleCrackedBlock::entity_name(),
            AnyEntity::Clothesline(_) => Clothesline::entity_name(),
            AnyEntity::RedBlocks(_) => RedBlocks::entity_name(),
            AnyEntity::Door(_) => Door::entity_name(),
            AnyEntity::DashSwitchV(_) => DashSwitchV::entity_name(),
            AnyEntity::Spinner(_) => Spinner::entity_name(),
            AnyEntity::ConditionBlock(_) => ConditionBlock::entity_name(),
            AnyEntity::FloatySpaceBlock(_) => FloatySpaceBlock::entity_name(),
            AnyEntity::SoundSource(_) => SoundSource::entity_name(),
            AnyEntity::LockBlock(_) => LockBlock::entity_name(),
            AnyEntity::Seeker(_) => Seeker::entity_name(),
            AnyEntity::DashSwitchH(_) => DashSwitchH::entity_name(),
            AnyEntity::SummitCheckpoint(_) => SummitCheckpoint::entity_name(),
            AnyEntity::SummitGem(_) => SummitGem::entity_name(),
            AnyEntity::SummitGemManager(_) => SummitGemManager::entity_name(),
            AnyEntity::FireBall(_) => FireBall::entity_name(),
            AnyEntity::FlingBird(_) => FlingBird::entity_name(),
            AnyEntity::CoreModeToggle(_) => CoreModeToggle::entity_name(),
            AnyEntity::HeartGemDoor(_) => HeartGemDoor::entity_name(),
            AnyEntity::Eyebomb(_) => Eyebomb::entity_name(),
            AnyEntity::TempleGate(_) => TempleGate::entity_name(),
            AnyEntity::PlaybackTutorial(_) => PlaybackTutorial::entity_name(),
            AnyEntity::StarJumpBlock(_) => StarJumpBlock::entity_name(),
            AnyEntity::SeekerStatue(_) => SeekerStatue::entity_name(),
            AnyEntity::FinalBoss(_) => FinalBoss::entity_name(),
            AnyEntity::Cloud(_) => Cloud::entity_name(),
            AnyEntity::BigWaterfall(_) => BigWaterfall::entity_name(),
            AnyEntity::WallSpringLeft(_) => WallSpringLeft::entity_name(),
            AnyEntity::CoreMessage(_) => CoreMessage::entity_name(),
            AnyEntity::IntroCrusher(_) => IntroCrusher::entity_name(),
            AnyEntity::Key(_) => Key::entity_name(),
            AnyEntity::HaHaHa(_) => HaHaHa::entity_name(),
            AnyEntity::BadelineBoost(_) => BadelineBoost::entity_name(),
            AnyEntity::WallSpringRight(_) => WallSpringRight::entity_name(),
            AnyEntity::CrumbleWallOnRumble(_) => CrumbleWallOnRumble::entity_name(),
            AnyEntity::RisingLava(_) => RisingLava::entity_name(),
            AnyEntity::GreenBlocks(_) => GreenBlocks::entity_name(),
            AnyEntity::LightningBlock(_) => LightningBlock::entity_name(),
            AnyEntity::BirdPath(_) => BirdPath::entity_name(),
            AnyEntity::CutsceneNode(_) => CutsceneNode::entity_name(),
            AnyEntity::ClutterDoor(_) => ClutterDoor::entity_name(),
            AnyEntity::BigSpinner(_) => BigSpinner::entity_name(),
            AnyEntity::CliffsideFlag(_) => CliffsideFlag::entity_name(),
            AnyEntity::RidgeGate(_) => RidgeGate::entity_name(),
            AnyEntity::SwapBlock(_) => SwapBlock::entity_name(),
            AnyEntity::MovingPlatform(_) => MovingPlatform::entity_name(),
            AnyEntity::SwitchGate(_) => SwitchGate::entity_name(),
            AnyEntity::BlackGem(_) => BlackGem::entity_name(),
            AnyEntity::SummitBackgroundManager(_) => SummitBackgroundManager::entity_name(),
            AnyEntity::TempleMirror(_) => TempleMirror::entity_name(),
            AnyEntity::MoveBlock(_) => MoveBlock::entity_name(),
            AnyEntity::DreamBlock(_) => DreamBlock::entity_name(),
            AnyEntity::WallBooster(_) => WallBooster::entity_name(),
            AnyEntity::Water(_) => Water::entity_name(),
            AnyEntity::Lightning(_) => Lightning::entity_name(),
            AnyEntity::MoonCreature(_) => MoonCreature::entity_name(),
            AnyEntity::FinalBossMovingBlock(_) => FinalBossMovingBlock::entity_name(),
            AnyEntity::RotateSpinner(_) => RotateSpinner::entity_name(),
            AnyEntity::Booster(_) => Booster::entity_name(),
            AnyEntity::Bird(_) => Bird::entity_name(),
            AnyEntity::ReflectionHeartStatue(_) => ReflectionHeartStatue::entity_name(),
            AnyEntity::YellowBlocks(_) => YellowBlocks::entity_name(),
            AnyEntity::TowerViewer(_) => TowerViewer::entity_name(),
            AnyEntity::Cobweb(_) => Cobweb::entity_name(),
            AnyEntity::InfiniteStar(_) => InfiniteStar::entity_name(),
            AnyEntity::Torch(_) => Torch::entity_name(),
            AnyEntity::ColorSwitch(_) => ColorSwitch::entity_name(),
            AnyEntity::CliffFlag(_) => CliffFlag::entity_name(),
            AnyEntity::Lamp(_) => Lamp::entity_name(),
            AnyEntity::PowerSourceNumber(_) => PowerSourceNumber::entity_name(),
            AnyEntity::Bridge(_) => Bridge::entity_name(),
            AnyEntity::CrushBlock(_) => CrushBlock::entity_name(),
            AnyEntity::TrackSpinner(_) => TrackSpinner::entity_name(),
            AnyEntity::Gondola(_) => Gondola::entity_name(),
            AnyEntity::Player(_) => Player::entity_name(),
            AnyEntity::GoldenBerry(_) => GoldenBerry::entity_name(),
            AnyEntity::CrumbleBlock(_) => CrumbleBlock::entity_name(),
            AnyEntity::Checkpoint(_) => Checkpoint::entity_name(),
            AnyEntity::WingedGoldenStrawberry(_) => WingedGoldenStrawberry::entity_name(),
            AnyEntity::FlutterBird(_) => FlutterBird::entity_name(),
            AnyEntity::Plateau(_) => Plateau::entity_name(),
            AnyEntity::Payphone(_) => Payphone::entity_name(),
            AnyEntity::WavedashMachine(_) => WavedashMachine::entity_name(),
            AnyEntity::PlaybackBillboard(_) => PlaybackBillboard::entity_name(),
            AnyEntity::SinkingPlatform(_) => SinkingPlatform::entity_name(),
            AnyEntity::PlayerSeeker(_) => PlayerSeeker::entity_name(),
            AnyEntity::PICOConsole(_) => PICOConsole::entity_name(),
            AnyEntity::DarkChaser(_) => DarkChaser::entity_name(),
            AnyEntity::ResortRoofEnding(_) => ResortRoofEnding::entity_name(),
            AnyEntity::FireBarrier(_) => FireBarrier::entity_name(),
            AnyEntity::TriggerSpikesUp(_) => TriggerSpikesUp::entity_name(),
            AnyEntity::TriggerSpikesDown(_) => TriggerSpikesDown::entity_name(),
            AnyEntity::IceBlock(_) => IceBlock::entity_name(),
            AnyEntity::Waterfall(_) => Waterfall::entity_name(),
            AnyEntity::BounceBlock(_) => BounceBlock::entity_name(),
            AnyEntity::ResortLantern(_) => ResortLantern::entity_name(),
            AnyEntity::KillBox(_) => KillBox::entity_name(),
            AnyEntity::TouchSwitch(_) => TouchSwitch::entity_name(),
            AnyEntity::ClutterCabinet(_) => ClutterCabinet::entity_name(),
            AnyEntity::TheoCrystal(_) => TheoCrystal::entity_name(),
            AnyEntity::BlockField(_) => BlockField::entity_name(),
            AnyEntity::InvisibleBarrier(_) => InvisibleBarrier::entity_name(),
            AnyEntity::TempleMirrorPortal(_) => TempleMirrorPortal::entity_name(),
            AnyEntity::TriggerSpikesRight(_) => TriggerSpikesRight::entity_name(),
            AnyEntity::BridgeFixed(_) => BridgeFixed::entity_name(),
            AnyEntity::IntroCar(_) => IntroCar::entity_name(),
            AnyEntity::ForegroundDebris(_) => ForegroundDebris::entity_name(),
            AnyEntity::OshiroDoor(_) => OshiroDoor::entity_name(),
            AnyEntity::TheoCrystalHoldingBarrier(_) => TheoCrystalHoldingBarrier::entity_name(),
            AnyEntity::TempleEye(_) => TempleEye::entity_name(),
            AnyEntity::TheoCrystalPedestal(_) => TheoCrystalPedestal::entity_name(),
            AnyEntity::FloatingDebris(_) => FloatingDebris::entity_name(),
            AnyEntity::TriggerSpikesLeft(_) => TriggerSpikesLeft::entity_name(),
            AnyEntity::KevinsPC(_) => KevinsPC::entity_name(),
            AnyEntity::SandwichLava(_) => SandwichLava::entity_name(),
            AnyEntity::Trapdoor(_) => Trapdoor::entity_name(),
            AnyEntity::SummitCloud(_) => SummitCloud::entity_name(),
            AnyEntity::FriendlyGhost(_) => FriendlyGhost::entity_name(),
            AnyEntity::FinalBossFallingBlock(_) => FinalBossFallingBlock::entity_name(),
            AnyEntity::DreamMirror(_) => DreamMirror::entity_name(),
            AnyEntity::SeekerBarrier(_) => SeekerBarrier::entity_name(),
            AnyEntity::TempleBigEyeball(_) => TempleBigEyeball::entity_name(),
            AnyEntity::ResortMirror(_) => ResortMirror::entity_name(),
            AnyEntity::WhiteBlock(_) => WhiteBlock::entity_name(),
            AnyEntity::HangingLamp(_) => HangingLamp::entity_name(),
        }
    }
}

/// A trigger of any of the kinds this library knows.
#[derive(Debug)]
pub enum AnyTrigger {
    LookoutBlocker(MapTrigger<LookoutBlocker>),
    MusicTrigger(MapTrigger<MusicTrigger>),
    BirdPathTrigger(MapTrigger<BirdPathTrigger>),
    BlackholeStrength(MapTrigger<BlackholeStrength>),
    CameraOffsetTrigger(MapTrigger<CameraOffsetTrigger>),
    ChangeRespawnTrigger(MapTrigger<ChangeRespawnTrigger>),
    MiniTextboxTrigger(MapTrigger<MiniTextboxTrigger>),
    RespawnTargetTrigger(MapTrigger<RespawnTargetTrigger>),
    NoRefillTrigger(MapTrigger<NoRefillTrigger>),
    BloomFadeTrigger(MapTrigger<BloomFadeTrigger>),
    CameraTargetTrigger(MapTrigger<CameraTargetTrigger>),
    MusicFadeTrigger(MapTrigger<MusicFadeTrigger>),
    GoldenBerryCollectTrigger(MapTrigger<GoldenBerryCollectTrigger>),
    CameraAdvanceTargetTrigger(MapTrigger<CameraAdvanceTargetTrigger>),
    LightFadeTrigger(MapTrigger<LightFadeTrigger>),
    SpawnFacingTrigger(MapTrigger<SpawnFacingTrigger>),
    WindAttackTrigger(MapTrigger<WindAttackTrigger>),
    AmbienceParamTrigger(MapTrigger<AmbienceParamTrigger>),
    EventTrigger(MapTrigger<EventTrigger>),
    DetachFollowersTrigger(MapTrigger<DetachFollowersTrigger>),
    CheckpointBlockerTrigger(MapTrigger<CheckpointBlockerTrigger>),
    AltMusicTrigger(MapTrigger<AltMusicTrigger>),
    WindTrigger(MapTrigger<WindTrigger>),
    CreditsTrigger(MapTrigger<CreditsTrigger>),
    RumbleTrigger(MapTrigger<RumbleTrigger>),
    OshiroTrigger(MapTrigger<OshiroTrigger>),
    MoonGlitchBackgroundTrigger(MapTrigger<MoonGlitchBackgroundTrigger>),
    InteractTrigger(MapTrigger<InteractTrigger>),
}

impl AnyTrigger {
    /// The name of the trigger's kind in the map binary.
    pub open spec fn kind_name(self) -> Seq<char> {
        match self {
            AnyTrigger::LookoutBlocker(_) => LookoutBlocker::trigger_name(),
            AnyTrigger::MusicTrigger(_) => MusicTrigger::trigger_name(),
            AnyTrigger::BirdPathTrigger(_) => BirdPathTrigger::trigger_name(),
            AnyTrigger::BlackholeStrength(_) => BlackholeStrength::trigger_name(),
            AnyTrigger::CameraOffsetTrigger(_) => CameraOffsetTrigger::trigger_name(),
            AnyTrigger::ChangeRespawnTrigger(_) => ChangeRespawnTrigger::trigger_name(),
            AnyTrigger::MiniTextboxTrigger(_) => MiniTextboxTrigger::trigger_name(),
            AnyTrigger::RespawnTargetTrigger(_) => RespawnTargetTrigger::trigger_name(),
            AnyTrigger::NoRefillTrigger(_) => NoRefillTrigger::trigger_name(),
            AnyTrigger::BloomFadeTrigger(_) => BloomFadeTrigger::trigger_name(),
            AnyTrigger::CameraTargetTrigger(_) => CameraTargetTrigger::trigger_name(),
            AnyTrigger::MusicFadeTrigger(_) => MusicFadeTrigger::trigger_name(),
            AnyTrigger::GoldenBerryCollectTrigger(_) => GoldenBerryCollectTrigger::trigger_name(),
            AnyTrigger::CameraAdvanceTargetTrigger(_) => CameraAdvanceTargetTrigger::trigger_name(),
            AnyTrigger::LightFadeTrigger(_) => LightFadeTrigger::trigger_name(),
            AnyTrigger::SpawnFacingTrigger(_) => SpawnFacingTrigger::trigger_name(),
            AnyTrigger::WindAttackTrigger(_) => WindAttackTrigger::trigger_name(),
            AnyTrigger::AmbienceParamTrigger(_) => AmbienceParamTrigger::trigger_name(),
            AnyTrigger::EventTrigger(_) => EventTrigger::trigger_name(),
            AnyTrigger::DetachFollowersTrigger(_) => DetachFollowersTrigger::trigger_name(),
            AnyTrigger::CheckpointBlockerTrigger(_) => CheckpointBlockerTrigger::trigger_name(),
            AnyTrigger::AltMusicTrigger(_) => AltMusicTrigger::trigger_name(),
            AnyTrigger::WindTrigger(_) => WindTrigger::trigger_name(),
            AnyTrigger::CreditsTrigger(_) => CreditsTrigger::trigger_name(),
            AnyTrigger::RumbleTrigger(_) => RumbleTrigger::trigger_name(),
            AnyTrigger::OshiroTrigger(_) => OshiroTrigger::trigger_name(),
            AnyTrigger::MoonGlitchBackgroundTrigger(_) => MoonGlitchBackgroundTrigger::trigger_name(),
            AnyTrigger::InteractTrigger(_) => InteractTrigger::trigger_name(),
        }
    }
}

/// A child of the entities of a room: an entity of a registered kind, or the
/// raw element.
#[derive(Debug)]
pub enum DynEntity {
    Entity(AnyEntity),
    Raw(RawMapElement),
}

/// An element of a registered kind, parsed into its type, or the raw element.
#[derive(Debug)]
pub enum DynMapElement {
    Raw(RawMapElement),
    Root(MapRoot),
    Filler(Filler),
    Rect(Rect),
    Node(Node),
    Levels(Levels),
    Level(Level),
    Styles(Styles),
    Triggers(Triggers),
    FGTiles(FGTiles),
    BGTiles(BGTiles),
    FGDecals(FGDecals),
    BGDecals(BGDecals),
    Decal(Decal),
    Background(Background),
    ObjTiles(ObjTiles),
    Solids(Solids),
    Entities(Entities),
    Backgrounds(Backgrounds),
    Foregrounds(Foregrounds),
    Parallax(Parallax),
    SnowBG(SnowBG),
    SnowFG(SnowFG),
    Entity(AnyEntity),
    Trigger(AnyTrigger),
}

impl DynMapElement {
    /// The name of the element's kind in the map binary, where it was parsed
    /// into a type.
    pub open spec fn kind_name(self) -> Option<Seq<char>> {
        match self {
            DynMapElement::Raw(_) => None,
            DynMapElement::Root(_) => Some(MapRoot::element_name()),
            DynMapElement::Filler(_) => Some(Filler::element_name()),
            DynMapElement::Rect(_) => Some(Rect::element_name()),
            DynMapElement::Node(_) => Some(Node::element_name()),
            DynMapElement::Levels(_) => Some(Levels::element_name()),
            DynMapElement::Level(_) => Some(Level::element_name()),
            DynMapElement::Styles(_) => Some(Styles::element_name()),
            DynMapElement::Triggers(_) => Some(Triggers::element_name()),
            DynMapElement::FGTiles(_) => Some(FGTiles::element_name()),
            DynMapElement::BGTiles(_) => Some(BGTiles::element_name()),
            DynMapElement::FGDecals(_) => Some(FGDecals::element_name()),
            DynMapElement::BGDecals(_) => Some(BGDecals::element_name()),
            DynMapElement::Decal(_) => Some(Decal::element_name()),
            DynMapElement::Background(_) => Some(Background::element_name()),
            DynMapElement::ObjTiles(_) => Some(ObjTiles::element_name()),
            DynMapElement::Solids(_) => Some(Solids::element_name()),
            DynMapElement::Entities(_) => Some(Entities::element_name()),
            DynMapElement::Backgrounds(_) => Some(Backgrounds::element_name()),
            DynMapElement::Foregrounds(_) => Some(Foregrounds::element_name()),
            DynMapElement::Parallax(_) => Some(Parallax::element_name()),
            DynMapElement::SnowBG(_) => Some(SnowBG::element_name()),
            DynMapElement::SnowFG(_) => Some(SnowFG::element_name()),
            DynMapElement::Entity(e) => Some(e.kind_name()),
            DynMapElement::Trigger(t) => Some(t.kind_name()),
        }
    }
}

/// Whether `n` names one of a group of the entity kinds this library knows.
pub open spec fn known_entity_name_0(n: Seq<char>) -> bool {
    n == SpikesUp::entity_name()
        || n == SpikesDown::entity_name()
        || n == SpikesLeft::entity_name()
        || n == SpikesRight::entity_name()
        || n == JumpThru::entity_name()
        || n == Wire::entity_name()
        || n == Strawberry::entity_name()
        || n == Lightbeam::entity_name()
        || n == Cassette::entity_name()
        || n == CassetteBlock::entity_name()
        || n == DashBlock::entity_name()
        || n == Bonfire::entity_name()
        || n == NPC::entity_name()
        || n == CoverupWall::entity_name()
        || n == Memorial::entity_name()
        || n == BirdForsakenCityGem::entity_name()
        || n == FallingBlock::entity_name()
        || n == ZipMover::entity_name()
        || n == FakeWall::entity_name()
        || n == Spring::entity_name()
        || n == Refill::entity_name()
        || n == Tentacles::entity_name()
        || n == Glider::entity_name()
        || n == FlingBirdIntro::entity_name()
        || n == ExitBlock::entity_name()
        || n == TempleCrackedBlock::entity_name()
        || n == Clothesline::entity_name()
        || n == RedBlocks::entity_name()
        || n == Door::entity_name()
        || n == DashSwitchV::entity_name()
        || n == Spinner::entity_name()
        || n == ConditionBlock::entity_name()
        || n == FloatySpaceBlock::entity_name()
}

/// Whether `n` names one of a group of the entity kinds this library knows.
pub open spec fn known_entity_name_1(n: Seq<char>) -> bool {
    n == SoundSource::entity_name()
        || n == LockBlock::entity_name()
        || n == Seeker::entity_name()
        || n == DashSwitchH::entity_name()
        || n == SummitCheckpoint::entity_name()
        || n == SummitGem::entity_name()
        || n == SummitGemManager::entity_name()
        || n == FireBall::entity_name()
        || n == FlingBird::entity_name()
        || n == CoreModeToggle::entity_name()
        || n == HeartGemDoor::entity_name()
        || n == Eyebomb::entity_name()
        || n == TempleGate::entity_name()
        || n == PlaybackTutorial::entity_name()
        || n == StarJumpBlock::entity_name()
        || n == SeekerStatue::entity_name()
        || n == FinalBoss::entity_name()
        || n == Cloud::entity_name()
        || n == BigWaterfall::entity_name()
        || n == WallSpringLeft::entity_name()
        || n == CoreMessage::entity_name()
        || n == IntroCrusher::entity_name()
        || n == Key::entity_name()
        || n == HaHaHa::entity_name()
        || n == BadelineBoost::entity_name()
        || n == WallSpringRight::entity_name()
        || n == CrumbleWallOnRumble::entity_name()
        || n == RisingLava::entity_name()
        || n == GreenBlocks::entity_name()
        || n == LightningBlock::entity_name()
        || n == BirdPath::entity_name()
        || n == CutsceneNode::entity_name()
        || n == ClutterDoor::entity_name()
}

/// Whether `n` names one of a group of the entity kinds this library knows.
pub open spec fn known_entity_name_2(n: Seq<char>) -> bool {
    n == BigSpinner::entity_name()
        || n == CliffsideFlag::entity_name()
        || n == RidgeGate::entity_name()
        || n == SwapBlock::entity_name()
        || n == MovingPlatform::entity_name()
        || n == SwitchGate::entity_name()
        || n == BlackGem::entity_name()
        || n == SummitBackgroundManager::entity_name()
        || n == TempleMirror::entity_name()
        || n == MoveBlock::entity_name()
        || n == DreamBlock::entity_name()
        || n == WallBooster::entity_name()
        || n == Water::entity_name()
        || n == Lightning::entity_name()
        || n == MoonCreature::entity_name()
        || n == FinalBossMovingBlock::entity_name()
        || n == RotateSpinner::entity_name()
        || n == Booster::entity_name()
        || n == Bird::entity_name()
        || n == ReflectionHeartStatue::entity_name()
        || n == YellowBlocks::entity_name()
        || n == TowerViewer::entity_name()
        || n == Cobweb::entity_name()
        || n == InfiniteStar::entity_name()
        || n == Torch::entity_name()
        || n == ColorSwitch::entity_name()
        || n == CliffFlag::entity_name()
        || n == Lamp::entity_name()
        || n == PowerSourceNumber::entity_name()
        || n == Bridge::entity_name()
        || n == CrushBlock::entity_name()
        || n == TrackSpinner::entity_name()
        || n == Gondola::entity_name()
}

/// Whether `n` names one of a group of the entity kinds this library knows.
pub open spec fn known_entity_name_3(n: Seq<char>) -> bool {
    n == Player::entity_name()
        || n == GoldenBerry::entity_name()
        || n == CrumbleBlock::entity_name()
        || n == Checkpoint::entity_name()
        || n == WingedGoldenStrawberry::entity_name()
        || n == FlutterBird::entity_name()
        || n == Plateau::entity_name()
        || n == Payphone::entity_name()
        || n == WavedashMachine::entity_name()
        || n == PlaybackBillboard::entity_name()
        || n == SinkingPlatform::entity_name()
        || n == PlayerSeeker::entity_name()
        || n == PICOConsole::entity_name()
        || n == DarkChaser::entity_name()
        || n == ResortRoofEnding::entity_name()
        || n == FireBarrier::entity_name()
        || n == TriggerSpikesUp::entity_name()
        || n == TriggerSpikesDown::entity_name()
        || n == IceBlock::entity_name()
        || n == Waterfall::entity_name()
        || n == BounceBlock::entity_name()
        || n == ResortLantern::entity_name()
        || n == KillBox::entity_name()
        || n == TouchSwitch::entity_name()
        || n == ClutterCabinet::entity_name()
        || n == TheoCrystal::entity_name()
}

/// Whether `n` names one of a group of the entity kinds this library knows.
pub open spec fn known_entity_name_4(n: Seq<char>) -> bool {
    n == BlockField::entity_name()
        || n == InvisibleBarrier::entity_name()
        || n == TempleMirrorPortal::entity_name()
        || n == TriggerSpikesRight::entity_name()
        || n == BridgeFixed::entity_name()
        || n == IntroCar::entity_name()
        || n == ForegroundDebris::entity_name()
        || n == OshiroDoor::entity_name()
        || n == TheoCrystalHoldingBarrier::entity_name()
        || n == TempleEye::entity_name()
        || n == TheoCrystalPedestal::entity_name()
        || n == FloatingDebris::entity_name()
        || n == TriggerSpikesLeft::entity_name()
        || n == KevinsPC::entity_name()
        || n == SandwichLava::entity_name()
        || n == Trapdoor::entity_name()
        || n == SummitCloud::entity_name()
        || n == FriendlyGhost::entity_name()
        || n == FinalBossFallingBlock::entity_name()
        || n == DreamMirror::entity_name()
        || n == SeekerBarrier::entity_name()
        || n == TempleBigEyeball::entity_name()
        || n == ResortMirror::entity_name()
        || n == WhiteBlock::entity_name()
        || n == HangingLamp::entity_name()
}

/// Whether `n` names an entity kind this library knows.
pub open spec fn known_entity_name(n: Seq<char>) -> bool {
    known_entity_name_0(n)
        || known_entity_name_1(n)
        || known_entity_name_2(n)
        || known_entity_name_3(n)
        || known_entity_name_4(n)
}

/// Whether `n` names a trigger kind this library knows.
pub open spec fn known_trigger_name(n: Seq<char>) -> bool {
    n == LookoutBlocker::trigger_name()
        || n == MusicTrigger::trigger_name()
        || n == BirdPathTrigger::trigger_name()
        || n == BlackholeStrength::trigger_name()
        || n == CameraOffsetTrigger::trigger_name()
        || n == ChangeRespawnTrigger::trigger_name()
        || n == MiniTextboxTrigger::trigger_name()
        || n == RespawnTargetTrigger::trigger_name()
        || n == NoRefillTrigger::trigger_name()
        || n == BloomFadeTrigger::trigger_name()
        || n == CameraTargetTrigger::trigger_name()
        || n == MusicFadeTrigger::trigger_name()
        || n == GoldenBerryCollectTrigger::trigger_name()
        || n == CameraAdvanceTargetTrigger::trigger_name()
        || n == LightFadeTrigger::trigger_name()
        || n == SpawnFacingTrigger::trigger_name()
        || n == WindAttackTrigger::trigger_name()
        || n == AmbienceParamTrigger::trigger_name()
        || n == EventTrigger::trigger_name()
        || n == DetachFollowersTrigger::trigger_name()
        || n == CheckpointBlockerTrigger::trigger_name()
        || n == AltMusicTrigger::trigger_name()
        || n == WindTrigger::trigger_name()
        || n == CreditsTrigger::trigger_name()
        || n == RumbleTrigger::trigger_name()
        || n == OshiroTrigger::trigger_name()
        || n == MoonGlitchBackgroundTrigger::trigger_name()
        || n == InteractTrigger::trigger_name()
}

/// Whether `n` names one of the structural elements this library knows.
pub open spec fn known_structure_name(n: Seq<char>) -> bool {
    n == MapRoot::element_name()
        || n == Filler::element_name()
        || n == Rect::element_name()
        || n == Node::element_name()
        || n == Levels::element_name()
        || n == Level::element_name()
        || n == Styles::element_name()
        || n == Triggers::element_name()
        || n == FGTiles::element_name()
        || n == BGTiles::element_name()
        || n == FGDecals::element_name()
        || n == BGDecals::element_name()
        || n == Decal::element_name()
        || n == Background::element_name()
        || n == ObjTiles::element_name()
        || n == Solids::element_name()
        || n == Entities::element_name()
        || n == Backgrounds::element_name()
        || n == Foregrounds::element_name()
        || n == Parallax::element_name()
        || n == SnowBG::element_name()
        || n == SnowFG::element_name()
}

/// Whether `n` names an element kind this library can parse into a type.
pub open spec fn known_element_name(n: Seq<char>) -> bool {
    known_structure_name(n) || known_entity_name(n) || known_trigger_name(n)
}

/// Parses the element of `parser` as the entity kind named `name`, where it
/// is one of a group of the kinds this library knows.
fn parse_entity_named_0(name: &str, parser: MapParser) -> (r: Option<Result<AnyEntity, MapElementParsingError>>)
    requires
        parser.valid(),
    ensures
        r is Some <==> known_entity_name_0(name@),
        r matches Some(Ok(e)) ==> e.kind_name() == name@,
{
    if str_eq(name, SpikesUp::name()) {
        return Some(
            match MapEntity::<SpikesUp>::from_raw(parser) {
                Ok(x) => Ok(AnyEntity::SpikesUp(x)),
                Err(err) => Err(err),
            },
        );
    }
    if str_eq(name, SpikesDown::name()) {
        return Some(
            match MapEntity::<SpikesDown>::from_raw(parser) {
                Ok(x) => Ok(AnyEntity::SpikesDown(x)),
                Err(err) => Err(err),
            },
        );
    }
    if str_eq(name, SpikesLeft::name()) {
        return Some(
            match MapEntity::<SpikesLeft>::from_raw(parser) {
                Ok(x) => Ok(AnyEntity::SpikesLeft(x)),
                Err(err) => Err(err),
            },
        );
    }
    if str_eq(name, SpikesRight::name()) {
        return Some(
            match MapEntity::<SpikesRight>::from_raw(parser) {
                Ok(x) => Ok(AnyEntity::SpikesRight(x)),
                Err(err) => Err(err),
            },
        );
    }
    if str_eq(name, JumpThru::name()) {
        return Some(
            match MapEntity::<JumpThru>::from_raw(parser) {
                Ok(x) => Ok(AnyEntity::JumpThru(x)),
                Err(err) => Err(err),
            },
        );
    }
    if str_eq(name, Wire::name()) {
        return Some(
            match MapEntity::<Wire>::from_raw(parser) {
                Ok(x) => Ok(AnyEntity::Wire(x)),
                Err(err) => Err(err),
            },
        );
    }
    if str_eq(name, Strawberry::name()) {
        return Some(
            match MapEntity::<Strawberry>::from_raw(parser) {
                Ok(x) => Ok(AnyEntity::Strawberry(x)),
                Err(err) => Err(err),
            },
        );
    }
    if str_eq(name, Lightbeam::name()) {
        return Some(
            match MapEntity::<Lightbeam>::from_raw(parser) {
                Ok(x) => Ok(AnyEntity::Lightbeam(x)),
                Err(err) => Err(err),
            },
        );
    }
    if str_eq(name, Cassette::name()) {
        return Some(
            match MapEntity::<Cassette>::from_raw(parser) {
                Ok(x) => Ok(AnyEntity::Cassette(x)),
                Err(err) => Err(err),
            },
        );
    }
    if str_eq(name, CassetteBlock::name()) {
        return Some(
            match MapEntity::<CassetteBlock>::from_raw(parser) {
                Ok(x) => Ok(AnyEntity::CassetteBlock(x)),
                Err(err) => Err(err),
            },
        );
    }
    if str_eq(name, DashBlock::name()) {
        return Some(
            match MapEntity::<DashBlock>::from_raw(parser) {
                Ok(x) => Ok(AnyEntity::DashBlock(x)),
                Err(err) => Err(err),
            },
        );
    }
    if str_eq(name, Bonfire::name()) {
        return Some(
            match MapEntity::<Bonfire>::from_raw(parser) {
                Ok(x) => Ok(AnyEntity::Bonfire(x)),
                Err(err) => Err(err),
            },
        );
    }
    if str_eq(name, NPC::name()) {
        return Some(
            match MapEntity::<NPC>::from_raw(parser) {
                Ok(x) => Ok(AnyEntity::NPC(x)),
                Err(err) => Err(err),
            },
        );
    }
    if str_eq(name, CoverupWall::name()) {
        return Some(
            match MapEntity::<CoverupWall>::from_raw(parser) {
                Ok(x) => Ok(AnyEntity::CoverupWall(x)),
                Err(err) => Err(err),
            },
        );
    }
    if str_eq(name, Memorial::name()) {
        return Some(
            match MapEntity::<Memorial>::from_raw(parser) {
                Ok(x) => Ok(AnyEntity::Memorial(x)),
                Err(err) => Err(err),
            },
        );
    }
    if str_eq(name, BirdForsakenCityGem::name()) {
        return Some(
            match MapEntity::<BirdForsakenCityGem>::from_raw(parser) {
                Ok(x) => Ok(AnyEntity::BirdForsakenCityGem(x)),
                Err(err) => Err(err),
            },
        );
    }
    if str_eq(name, FallingBlock::name()) {
        return Some(
            match MapEntity::<FallingBlock>::from_raw(parser) {
                Ok(x) => Ok(AnyEntity::FallingBlock(x)),
                Err(err) => Err(err),
            },
        );
    }
    if str_eq(name, ZipMover::name()) {
        return Some(
            match MapEntity::<ZipMover>::from_raw(parser) {
                Ok(x) => Ok(AnyEntity::ZipMover(x)),
                Err(err) => Err(err),
            },
        );
    }
    if str_eq(name, FakeWall::name()) {
        return Some(
            match MapEntity::<FakeWall>::from_raw(parser) {
                Ok(x) => Ok(AnyEntity::FakeWall(x)),
                Err(err) => Err(err),
            },
        );
    }
    if str_eq(name, Spring::name()) {
        return Some(
            match MapEntity::<Spring>::from_raw(parser) {
                Ok(x) => Ok(AnyEntity::Spring(x)),
                Err(err) => Err(err),
            },
        );
    }
    if str_eq(name, Refill::name()) {
        return Some(
            match MapEntity::<Refill>::from_raw(parser) {
                Ok(x) => Ok(AnyEntity::Refill(x)),
                Err(err) => Err(err),
            },
        );
    }
    if str_eq(name, Tentacles::name()) {
        return Some(
            match MapEntity::<Tentacles>::from_raw(parser) {
                Ok(x) => Ok(AnyEntity::Tentacles(x)),
                Err(err) => Err(err),
            },
        );
    }
    if str_eq(name, Glider::name()) {
        return Some(
            match MapEntity::<Glider>::from_raw(parser) {
                Ok(x) => Ok(AnyEntity::Glider(x)),
                Err(err) => Err(err),
            },
        );
    }
    if str_eq(name, FlingBirdIntro::name()) {
        return Some(
            match MapEntity::<FlingBirdIntro>::from_raw(parser) {
                Ok(x) => Ok(AnyEntity::FlingBirdIntro(x)),
                Err(err) => Err(err),
            },
        );
    }
    if str_eq(name, ExitBlock::name()) {
        return Some(
            match MapEntity::<ExitBlock>::from_raw(parser) {
                Ok(x) => Ok(AnyEntity::ExitBlock(x)),
                Err(err) => Err(err),
            },
        );
    }
    if str_eq(name, TempleCrackedBlock::name()) {
        return Some(
            match MapEntity::<TempleCrackedBlock>::from_raw(parser) {
                Ok(x) => Ok(AnyEntity::TempleCrackedBlock(x)),
                Err(err) => Err(err),
            },
        );
    }
    if str_eq(name, Clothesline::name()) {
        return Some(
            match MapEntity::<Clothesline>::from_raw(parser) {
                Ok(x) => Ok(AnyEntity::Clothesline(x)),
                Err(err) => Err(err),
            },
        );
    }
    if str_eq(name, RedBlocks::name()) {
        return Some(
            match MapEntity::<RedBlocks>::from_raw(parser) {
                Ok(x) => Ok(AnyEntity::RedBlocks(x)),
                Err(err) => Err(err),
            },
        );
    }
    if str_eq(name, Door::name()) {
        return Some(
            match MapEntity::<Door>::from_raw(parser) {
                Ok(x) => Ok(AnyEntity::Door(x)),
                Err(err) => Err(err),
            },
        );
    }
    if str_eq(name, DashSwitchV::name()) {
        return Some(
            match MapEntity::<DashSwitchV>::from_raw(parser) {
                Ok(x) => Ok(AnyEntity::DashSwitchV(x)),
                Err(err) => Err(err),
            },
        );
    }
    if str_eq(name, Spinner::name()) {
        return Some(
            match MapEntity::<Spinner>::from_raw(parser) {
                Ok(x) => Ok(AnyEntity::Spinner(x)),
                Err(err) => Err(err),
            },
        );
    }
    if str_eq(name, ConditionBlock::name()) {
        return Some(
            match MapEntity::<ConditionBlock>::from_raw(parser) {
                Ok(x) => Ok(AnyEntity::ConditionBlock(x)),
                Err(err) => Err(err),
            },
        );
    }
    if str_eq(name, FloatySpaceBlock::name()) {
        return Some(
            match MapEntity::<FloatySpaceBlock>::from_raw(parser) {
                Ok(x) => Ok(AnyEntity::FloatySpaceBlock(x)),
                Err(err) => Err(err),
            },
        );
    }
    None
}

/// Parses the element of `parser` as the entity kind named `name`, where it
/// is one of a group of the kinds this library knows.
fn parse_entity_named_1(name: &str, parser: MapParser) -> (r: Option<Result<AnyEntity, MapElementParsingError>>)
    requires
        parser.valid(),
    ensures
        r is Some <==> known_entity_name_1(name@),
        r matches Some(Ok(e)) ==> e.kind_name() == name@,
{
    if str_eq(name, SoundSource::name()) {
        return Some(
            match MapEntity::<SoundSource>::from_raw(parser) {
                Ok(x) => Ok(AnyEntity::SoundSource(x)),
                Err(err) => Err(err),
            },
        );
    }
    if str_eq(name, LockBlock::name()) {
        return Some(
            match MapEntity::<LockBlock>::from_raw(parser) {
                Ok(x) => Ok(AnyEntity::LockBlock(x)),
                Err(err) => Err(err),
            },
        );
    }
    if str_eq(name, Seeker::name()) {
        return Some(
            match MapEntity::<Seeker>::from_raw(parser) {
                Ok(x) => Ok(AnyEntity::Seeker(x)),
                Err(err) => Err(err),
            },
        );
    }
    if str_eq(name, DashSwitchH::name()) {
        return Some(
            match MapEntity::<DashSwitchH>::from_raw(parser) {
                Ok(x) => Ok(AnyEntity::DashSwitchH(x)),
                Err(err) => Err(err),
            },
        );
    }
    if str_eq(name, SummitCheckpoint::name()) {
        return Some(
            match MapEntity::<SummitCheckpoint>::from_raw(parser) {
                Ok(x) => Ok(AnyEntity::SummitCheckpoint(x)),
                Err(err) => Err(err),
            },
        );
    }
    if str_eq(name, SummitGem::name()) {
        return Some(
            match MapEntity::<SummitGem>::from_raw(parser) {
                Ok(x) => Ok(AnyEntity::SummitGem(x)),
                Err(err) => Err(err),
            },
        );
    }
    if str_eq(name, SummitGemManager::name()) {
        return Some(
            match MapEntity::<SummitGemManager>::from_raw(parser) {
                Ok(x) => Ok(AnyEntity::SummitGemManager(x)),
                Err(err) => Err(err),
            },
        );
    }
    if str_eq(name, FireBall::name()) {
        return Some(
            match MapEntity::<FireBall>::from_raw(parser) {
                Ok(x) => Ok(AnyEntity::FireBall(x)),
                Err(err) => Err(err),
            },
        );
    }
    if str_eq(name, FlingBird::name()) {
        return Some(
            match MapEntity::<FlingBird>::from_raw(parser) {
                Ok(x) => Ok(AnyEntity::FlingBird(x)),
                Err(err) => Err(err),
            },
        );
    }
    if str_eq(name, CoreModeToggle::name()) {
        return Some(
            match MapEntity::<CoreModeToggle>::from_raw(parser) {
                Ok(x) => Ok(AnyEntity::CoreModeToggle(x)),
                Err(err) => Err(err),
            },
        );
    }
    if str_eq(name, HeartGemDoor::name()) {
        return Some(
            match MapEntity::<HeartGemDoor>::from_raw(parser) {
                Ok(x) => Ok(AnyEntity::HeartGemDoor(x)),
                Err(err) => Err(err),
            },
        );
    }
    if str_eq(name, Eyebomb::name()) {
        return Some(
            match MapEntity::<Eyebomb>::from_raw(parser) {
                Ok(x) => Ok(AnyEntity::Eyebomb(x)),
                Err(err) => Err(err),
            },
        );
    }
    if str_eq(name, TempleGate::name()) {
        return Some(
            match MapEntity::<TempleGate>::from_raw(parser) {
                Ok(x) => Ok(AnyEntity::TempleGate(x)),
                Err(err) => Err(err),
            },
        );
    }
    if str_eq(name, PlaybackTutorial::name()) {
        return Some(
            match MapEntity::<PlaybackTutorial>::from_raw(parser) {
                Ok(x) => Ok(AnyEntity::PlaybackTutorial(x)),
                Err(err) => Err(err),
            },
        );
    }
    if str_eq(name, StarJumpBlock::name()) {
        return Some(
            match MapEntity::<StarJumpBlock>::from_raw(parser) {
                Ok(x) => Ok(AnyEntity::StarJumpBlock(x)),
                Err(err) => Err(err),
            },
        );
    }
    if str_eq(name, SeekerStatue::name()) {
        return Some(
            match MapEntity::<SeekerStatue>::from_raw(parser) {
                Ok(x) => Ok(AnyEntity::SeekerStatue(x)),
                Err(err) => Err(err),
            },
        );
    }
    if str_eq(name, FinalBoss::name()) {
        return Some(
            match MapEntity::<FinalBoss>::from_raw(parser) {
                Ok(x) => Ok(AnyEntity::FinalBoss(x)),
                Err(err) => Err(err),
            },
        );
    }
    if str_eq(name, Cloud::name()) {
        return Some(
            match MapEntity::<Cloud>::from_raw(parser) {
                Ok(x) => Ok(AnyEntity::Cloud(x)),
                Err(err) => Err(err),
            },
        );
    }
    if str_eq(name, BigWaterfall::name()) {
        return Some(
            match MapEntity::<BigWaterfall>::from_raw(parser) {
                Ok(x) => Ok(AnyEntity::BigWaterfall(x)),
                Err(err) => Err(err),
            },
        );
    }
    if str_eq(name, WallSpringLeft::name()) {
        return Some(
            match MapEntity::<WallSpringLeft>::from_raw(parser) {
                Ok(x) => Ok(AnyEntity::WallSpringLeft(x)),
                Err(err) => Err(err),
            },
        );
    }
    if str_eq(name, CoreMessage::name()) {
        return Some(
            match MapEntity::<CoreMessage>::from_raw(parser) {
                Ok(x) => Ok(AnyEntity::CoreMessage(x)),
                Err(err) => Err(err),
            },
        );
    }
    if str_eq(name, IntroCrusher::name()) {
        return Some(
            match MapEntity::<IntroCrusher>::from_raw(parser) {
                Ok(x) => Ok(AnyEntity::IntroCrusher(x)),
                Err(err) => Err(err),
            },
        );
    }
    if str_eq(name, Key::name()) {
        return Some(
            match MapEntity::<Key>::from_raw(parser) {
                Ok(x) => Ok(AnyEntity::Key(x)),
                Err(err) => Err(err),
            },
        );
    }
    if str_eq(name, HaHaHa::name()) {
        return Some(
            match MapEntity::<HaHaHa>::from_raw(parser) {
                Ok(x) => Ok(AnyEntity::HaHaHa(x)),
                Err(err) => Err(err),
            },
        );
    }
    if str_eq(name, BadelineBoost::name()) {
        return Some(
            match MapEntity::<BadelineBoost>::from_raw(parser) {
                Ok(x) => Ok(AnyEntity::BadelineBoost(x)),
                Err(err) => Err(err),
            },
        );
    }
    if str_eq(name, WallSpringRight::name()) {
        return Some(
            match MapEntity::<WallSpringRight>::from_raw(parser) {
                Ok(x) => Ok(AnyEntity::WallSpringRight(x)),
                Err(err) => Err(err),
            },
        );
    }
    if str_eq(name, CrumbleWallOnRumble::name()) {
        return Some(
            match MapEntity::<CrumbleWallOnRumble>::from_raw(parser) {
                Ok(x) => Ok(AnyEntity::CrumbleWallOnRumble(x)),
                Err(err) => Err(err),
            },
        );
    }
    if str_eq(name, RisingLava::name()) {
        return Some(
            match MapEntity::<RisingLava>::from_raw(parser) {
                Ok(x) => Ok(AnyEntity::RisingLava(x)),
                Err(err) => Err(err),
            },
        );
    }
    if str_eq(name, GreenBlocks::name()) {
        return Some(
            match MapEntity::<GreenBlocks>::from_raw(parser) {
                Ok(x) => Ok(AnyEntity::GreenBlocks(x)),
                Err(err) => Err(err),
            },
        );
    }
    if str_eq(name, LightningBlock::name()) {
        return Some(
            match MapEntity::<LightningBlock>::from_raw(parser) {
                Ok(x) => Ok(AnyEntity::LightningBlock(x)),
                Err(err) => Err(err),
            },
        );
    }
    if str_eq(name, BirdPath::name()) {
        return Some(
            match MapEntity::<BirdPath>::from_raw(parser) {
                Ok(x) => Ok(AnyEntity::BirdPath(x)),
                Err(err) => Err(err),
            },
        );
    }
    if str_eq(name, CutsceneNode::name()) {
        return Some(
            match MapEntity::<CutsceneNode>::from_raw(parser) {
                Ok(x) => Ok(AnyEntity::CutsceneNode(x)),
                Err(err) => Err(err),
            },
        );
    }
    if str_eq(name, ClutterDoor::name()) {
        return Some(
            match MapEntity::<ClutterDoor>::from_raw(parser) {
                Ok(x) => Ok(AnyEntity::ClutterDoor(x)),
                Err(err) => Err(err),
            },
        );
    }
    None
}

/// Parses the element of `parser` as the entity kind named `name`, where it
/// is one of a group of the kinds this library knows.
fn parse_entity_named_2(name: &str, parser: MapParser) -> (r: Option<Result<AnyEntity, MapElementParsingError>>)
    requires
        parser.valid(),
    ensures
        r is Some <==> known_entity_name_2(name@),
        r matches Some(Ok(e)) ==> e.kind_name() == name@,
{
    if str_eq(name, BigSpinner::name()) {
        return Some(
            match MapEntity::<BigSpinner>::from_raw(parser) {
                Ok(x) => Ok(AnyEntity::BigSpinner(x)),
                Err(err) => Err(err),
            },
        );
    }
    if str_eq(name, CliffsideFlag::name()) {
        return Some(
            match MapEntity::<CliffsideFlag>::from_raw(parser) {
                Ok(x) => Ok(AnyEntity::CliffsideFlag(x)),
                Err(err) => Err(err),
            },
        );
    }
    if str_eq(name, RidgeGate::name()) {
        return Some(
            match MapEntity::<RidgeGate>::from_raw(parser) {
                Ok(x) => Ok(AnyEntity::RidgeGate(x)),
                Err(err) => Err(err),
            },
        );
    }
    if str_eq(name, SwapBlock::name()) {
        return Some(
            match MapEntity::<SwapBlock>::from_raw(parser) {
                Ok(x) => Ok(AnyEntity::SwapBlock(x)),
                Err(err) => Err(err),
            },
        );
    }
    if str_eq(name, MovingPlatform::name()) {
        return Some(
            match MapEntity::<MovingPlatform>::from_raw(parser) {
                Ok(x) => Ok(AnyEntity::MovingPlatform(x)),
                Err(err) => Err(err),
            },
        );
    }
    if str_eq(name, SwitchGate::name()) {
        return Some(
            match MapEntity::<SwitchGate>::from_raw(parser) {
                Ok(x) => Ok(AnyEntity::SwitchGate(x)),
                Err(err) => Err(err),
            },
        );
    }
    if str_eq(name, BlackGem::name()) {
        return Some(
            match MapEntity::<BlackGem>::from_raw(parser) {
                Ok(x) => Ok(AnyEntity::BlackGem(x)),
                Err(err) => Err(err),
            },
        );
    }
    if str_eq(name, SummitBackgroundManager::name()) {
        return Some(
            match MapEntity::<SummitBackgroundManager>::from_raw(parser) {
                Ok(x) => Ok(AnyEntity::SummitBackgroundManager(x)),
                Err(err) => Err(err),
            },
        );
    }
    if str_eq(name, TempleMirror::name()) {
        return Some(
            match MapEntity::<TempleMirror>::from_raw(parser) {
                Ok(x) => Ok(AnyEntity::TempleMirror(x)),
                Err(err) => Err(err),
            },
        );
    }
    if str_eq(name, MoveBlock::name()) {
        return Some(
            match MapEntity::<MoveBlock>::from_raw(parser) {
                Ok(x) => Ok(AnyEntity::MoveBlock(x)),
                Err(err) => Err(err),
            },
        );
    }
    if str_eq(name, DreamBlock::name()) {
        return Some(
            match MapEntity::<DreamBlock>::from_raw(parser) {
                Ok(x) => Ok(AnyEntity::DreamBlock(x)),
                Err(err) => Err(err),
            },
        );
    }
    if str_eq(name, WallBooster::name()) {
        return Some(
            match MapEntity::<WallBooster>::from_raw(parser) {
                Ok(x) => Ok(AnyEntity::WallBooster(x)),
                Err(err) => Err(err),
            },
        );
    }
    if str_eq(name, Water::name()) {
        return Some(
            match MapEntity::<Water>::from_raw(parser) {
                Ok(x) => Ok(AnyEntity::Water(x)),
                Err(err) => Err(err),
            },
        );
    }
    if str_eq(name, Lightning::name()) {
        return Some(
            match MapEntity::<Lightning>::from_raw(parser) {
                Ok(x) => Ok(AnyEntity::Lightning(x)),
                Err(err) => Err(err),
            },
        );
    }
    if str_eq(name, MoonCreature::name()) {
        return Some(
            match MapEntity::<MoonCreature>::from_raw(parser) {
                Ok(x) => Ok(AnyEntity::MoonCreature(x)),
                Err(err) => Err(err),
            },
        );
    }
    if str_eq(name, FinalBossMovingBlock::name()) {
        return Some(
            match MapEntity::<FinalBossMovingBlock>::from_raw(parser) {
                Ok(x) => Ok(AnyEntity::FinalBossMovingBlock(x)),
                Err(err) => Err(err),
            },
        );
    }
    if str_eq(name, RotateSpinner::name()) {
        return Some(
            match MapEntity::<RotateSpinner>::from_raw(parser) {
                Ok(x) => Ok(AnyEntity::RotateSpinner(x)),
                Err(err) => Err(err),
            },
        );
    }
    if str_eq(name, Booster::name()) {
        return Some(
            match MapEntity::<Booster>::from_raw(parser) {
                Ok(x) => Ok(AnyEntity::Booster(x)),
                Err(err) => Err(err),
            },
        );
    }
    if str_eq(name, Bird::name()) {
        return Some(
            match MapEntity::<Bird>::from_raw(parser) {
                Ok(x) => Ok(AnyEntity::Bird(x)),
                Err(err) => Err(err),
            },
        );
    }
    if str_eq(name, ReflectionHeartStatue::name()) {
        return Some(
            match MapEntity::<ReflectionHeartStatue>::from_raw(parser) {
                Ok(x) => Ok(AnyEntity::ReflectionHeartStatue(x)),
                Err(err) => Err(err),
            },
        );
    }
    if str_eq(name, YellowBlocks::name()) {
        return Some(
            match MapEntity::<YellowBlocks>::from_raw(parser) {
                Ok(x) => Ok(AnyEntity::YellowBlocks(x)),
                Err(err) => Err(err),
            },
        );
    }
    if str_eq(name, TowerViewer::name()) {
        return Some(
            match MapEntity::<TowerViewer>::from_raw(parser) {
                Ok(x) => Ok(AnyEntity::TowerViewer(x)),
                Err(err) => Err(err),
            },
        );
    }
    if str_eq(name, Cobweb::name()) {
        return Some(
            match MapEntity::<Cobweb>::from_raw(parser) {
                Ok(x) => Ok(AnyEntity::Cobweb(x)),
                Err(err) => Err(err),
            },
        );
    }
    if str_eq(name, InfiniteStar::name()) {
        return Some(
            match MapEntity::<InfiniteStar>::from_raw(parser) {
                Ok(x) => Ok(AnyEntity::InfiniteStar(x)),
                Err(err) => Err(err),
            },
        );
    }
    if str_eq(name, Torch::name()) {
        return Some(
            match MapEntity::<Torch>::from_raw(parser) {
                Ok(x) => Ok(AnyEntity::Torch(x)),
                Err(err) => Err(err),
            },
        );
    }
    if str_eq(name, ColorSwitch::name()) {
        return Some(
            match MapEntity::<ColorSwitch>::from_raw(parser) {
                Ok(x) => Ok(AnyEntity::ColorSwitch(x)),
                Err(err) => Err(err),
            },
        );
    }
    if str_eq(name, CliffFlag::name()) {
        return Some(
            match MapEntity::<CliffFlag>::from_raw(parser) {
                Ok(x) => Ok(AnyEntity::CliffFlag(x)),
                Err(err) => Err(err),
            },
        );
    }
    if str_eq(name, Lamp::name()) {
        return Some(
            match MapEntity::<Lamp>::from_raw(parser) {
                Ok(x) => Ok(AnyEntity::Lamp(x)),
                Err(err) => Err(err),
            },
        );
    }
    if str_eq(name, PowerSourceNumber::name()) {
        return Some(
            match MapEntity::<PowerSourceNumber>::from_raw(parser) {
                Ok(x) => Ok(AnyEntity::PowerSourceNumber(x)),
                Err(err) => Err(err),
            },
        );
    }
    if str_eq(name, Bridge::name()) {
        return Some(
            match MapEntity::<Bridge>::from_raw(parser) {
                Ok(x) => Ok(AnyEntity::Bridge(x)),
                Err(err) => Err(err),
            },
        );
    }
    if str_eq(name, CrushBlock::name()) {
        return Some(
            match MapEntity::<CrushBlock>::from_raw(parser) {
                Ok(x) => Ok(AnyEntity::CrushBlock(x)),
                Err(err) => Err(err),
            },
        );
    }
    if str_eq(name, TrackSpinner::name()) {
        return Some(
            match MapEntity::<TrackSpinner>::from_raw(parser) {
                Ok(x) => Ok(AnyEntity::TrackSpinner(x)),
                Err(err) => Err(err),
            },
        );
    }
    if str_eq(name, Gondola::name()) {
        return Some(
            match MapEntity::<Gondola>::from_raw(parser) {
                Ok(x) => Ok(AnyEntity::Gondola(x)),
                Err(err) => Err(err),
            },
        );
    }
    None
}

/// Parses the element of `parser` as the entity kind named `name`, where it
/// is one of a group of the kinds this library knows.
fn parse_entity_named_3(name: &str, parser: MapParser) -> (r: Option<Result<AnyEntity, MapElementParsingError>>)
    requires
        parser.valid(),
    ensures
        r is Some <==> known_entity_name_3(name@),
        r matches Some(Ok(e)) ==> e.kind_name() == name@,
{
    if str_eq(name, Player::name()) {
        return Some(
            match MapEntity::<Player>::from_raw(parser) {
                Ok(x) => Ok(AnyEntity::Player(x)),
                Err(err) => Err(err),
            },
        );
    }
    if str_eq(name, GoldenBerry::name()) {
        return Some(
            match MapEntity::<GoldenBerry>::from_raw(parser) {
                Ok(x) => Ok(AnyEntity::GoldenBerry(x)),
                Err(err) => Err(err),
            },
        );
    }
    if str_eq(name, CrumbleBlock::name()) {
        return Some(
            match MapEntity::<CrumbleBlock>::from_raw(parser) {
                Ok(x) => Ok(AnyEntity::CrumbleBlock(x)),
                Err(err) => Err(err),
            },
        );
    }
    if str_eq(name, Checkpoint::name()) {
        return Some(
            match MapEntity::<Checkpoint>::from_raw(parser) {
                Ok(x) => Ok(AnyEntity::Checkpoint(x)),
                Err(err) => Err(err),
            },
        );
    }
    if str_eq(name, WingedGoldenStrawberry::name()) {
        return Some(
            match MapEntity::<WingedGoldenStrawberry>::from_raw(parser) {
                Ok(x) => Ok(AnyEntity::WingedGoldenStrawberry(x)),
                Err(err) => Err(err),
            },
        );
    }
    if str_eq(name, FlutterBird::name()) {
        return Some(
            match MapEntity::<FlutterBird>::from_raw(parser) {
                Ok(x) => Ok(AnyEntity::FlutterBird(x)),
                Err(err) => Err(err),
            },
        );
    }
    if str_eq(name, Plateau::name()) {
        return Some(
            match MapEntity::<Plateau>::from_raw(parser) {
                Ok(x) => Ok(AnyEntity::Plateau(x)),
                Err(err) => Err(err),
            },
        );
    }
    if str_eq(name, Payphone::name()) {
        return Some(
            match MapEntity::<Payphone>::from_raw(parser) {
                Ok(x) => Ok(AnyEntity::Payphone(x)),
                Err(err) => Err(err),
            },
        );
    }
    if str_eq(name, WavedashMachine::name()) {
        return Some(
            match MapEntity::<WavedashMachine>::from_raw(parser) {
                Ok(x) => Ok(AnyEntity::WavedashMachine(x)),
                Err(err) => Err(err),
            },
        );
    }
    if str_eq(name, PlaybackBillboard::name()) {
        return Some(
            match MapEntity::<PlaybackBillboard>::from_raw(parser) {
                Ok(x) => Ok(AnyEntity::PlaybackBillboard(x)),
                Err(err) => Err(err),
            },
        );
    }
    if str_eq(name, SinkingPlatform::name()) {
        return Some(
            match MapEntity::<SinkingPlatform>::from_raw(parser) {
                Ok(x) => Ok(AnyEntity::SinkingPlatform(x)),
                Err(err) => Err(err),
            },
        );
    }
    if str_eq(name, PlayerSeeker::name()) {
        return Some(
            match MapEntity::<PlayerSeeker>::from_raw(parser) {
                Ok(x) => Ok(AnyEntity::PlayerSeeker(x)),
                Err(err) => Err(err),
            },
        );
    }
    if str_eq(name, PICOConsole::name()) {
        return Some(
            match MapEntity::<PICOConsole>::from_raw(parser) {
                Ok(x) => Ok(AnyEntity::PICOConsole(x)),
                Err(err) => Err(err),
            },
        );
    }
    if str_eq(name, DarkChaser::name()) {
        return Some(
            match MapEntity::<DarkChaser>::from_raw(parser) {
                Ok(x) => Ok(AnyEntity::DarkChaser(x)),
                Err(err) => Err(err),
            },
        );
    }
    if str_eq(name, ResortRoofEnding::name()) {
        return Some(
            match MapEntity::<ResortRoofEnding>::from_raw(parser) {
                Ok(x) => Ok(AnyEntity::ResortRoofEnding(x)),
                Err(err) => Err(err),
            },
        );
    }
    if str_eq(name, FireBarrier::name()) {
        return Some(
            match MapEntity::<FireBarrier>::from_raw(parser) {
                Ok(x) => Ok(AnyEntity::FireBarrier(x)),
                Err(err) => Err(err),
            },
        );
    }
    if str_eq(name, TriggerSpikesUp::name()) {
        return Some(
            match MapEntity::<TriggerSpikesUp>::from_raw(parser) {
                Ok(x) => Ok(AnyEntity::TriggerSpikesUp(x)),
                Err(err) => Err(err),
            },
        );
    }
    if str_eq(name, TriggerSpikesDown::name()) {
        return Some(
            match MapEntity::<TriggerSpikesDown>::from_raw(parser) {
                Ok(x) => Ok(AnyEntity::TriggerSpikesDown(x)),
                Err(err) => Err(err),
            },
        );
    }
    if str_eq(name, IceBlock::name()) {
        return Some(
            match MapEntity::<IceBlock>::from_raw(parser) {
                Ok(x) => Ok(AnyEntity::IceBlock(x)),
                Err(err) => Err(err),
            },
        );
    }
    if str_eq(name, Waterfall::name()) {
        return Some(
            match MapEntity::<Waterfall>::from_raw(parser) {
                Ok(x) => Ok(AnyEntity::Waterfall(x)),
                Err(err) => Err(err),
            },
        );
    }
    if str_eq(name, BounceBlock::name()) {
        return Some(
            match MapEntity::<BounceBlock>::from_raw(parser) {
                Ok(x) => Ok(AnyEntity::BounceBlock(x)),
                Err(err) => Err(err),
            },
        );
    }
    if str_eq(name, ResortLantern::name()) {
        return Some(
            match MapEntity::<ResortLantern>::from_raw(parser) {
                Ok(x) => Ok(AnyEntity::ResortLantern(x)),
                Err(err) => Err(err),
            },
        );
    }
    if str_eq(name, KillBox::name()) {
        return Some(
            match MapEntity::<KillBox>::from_raw(parser) {
                Ok(x) => Ok(AnyEntity::KillBox(x)),
                Err(err) => Err(err),
            },
        );
    }
    if str_eq(name, TouchSwitch::name()) {
        return Some(
            match MapEntity::<TouchSwitch>::from_raw(parser) {
                Ok(x) => Ok(AnyEntity::TouchSwitch(x)),
                Err(err) => Err(err),
            },
        );
    }
    if str_eq(name, ClutterCabinet::name()) {
        return Some(
            match MapEntity::<ClutterCabinet>::from_raw(parser) {
                Ok(x) => Ok(AnyEntity::ClutterCabinet(x)),
                Err(err) => Err(err),
            },
        );
    }
    if str_eq(name, TheoCrystal::name()) {
        return Some(
            match MapEntity::<TheoCrystal>::from_raw(parser) {
                Ok(x) => Ok(AnyEntity::TheoCrystal(x)),
                Err(err) => Err(err),
            },
        );
    }
    None
}

/// Parses the element of `parser` as the entity kind named `name`, where it
/// is one of a group of the kinds this library knows.
fn parse_entity_named_4(name: &str, parser: MapParser) -> (r: Option<Result<AnyEntity, MapElementParsingError>>)
    requires
        parser.valid(),
    ensures
        r is Some <==> known_entity_name_4(name@),
        r matches Some(Ok(e)) ==> e.kind_name() == name@,
{
    if str_eq(name, BlockField::name()) {
        return Some(
            match MapEntity::<BlockField>::from_raw(parser) {
                Ok(x) => Ok(AnyEntity::BlockField(x)),
                Err(err) => Err(err),
            },
        );
    }
    if str_eq(name, InvisibleBarrier::name()) {
        return Some(
            match MapEntity::<InvisibleBarrier>::from_raw(parser) {
                Ok(x) => Ok(AnyEntity::InvisibleBarrier(x)),
                Err(err) => Err(err),
            },
        );
    }
    if str_eq(name, TempleMirrorPortal::name()) {
        return Some(
            match MapEntity::<TempleMirrorPortal>::from_raw(parser) {
                Ok(x) => Ok(AnyEntity::TempleMirrorPortal(x)),
                Err(err) => Err(err),
            },
        );
    }
    if str_eq(name, TriggerSpikesRight::name()) {
        return Some(
            match MapEntity::<TriggerSpikesRight>::from_raw(parser) {
                Ok(x) => Ok(AnyEntity::TriggerSpikesRight(x)),
                Err(err) => Err(err),
            },
        );
    }
    if str_eq(name, BridgeFixed::name()) {
        return Some(
            match MapEntity::<BridgeFixed>::from_raw(parser) {
                Ok(x) => Ok(AnyEntity::BridgeFixed(x)),
                Err(err) => Err(err),
            },
        );
    }
    if str_eq(name, IntroCar::name()) {
        return Some(
            match MapEntity::<IntroCar>::from_raw(parser) {
                Ok(x) => Ok(AnyEntity::IntroCar(x)),
                Err(err) => Err(err),
            },
        );
    }
    if str_eq(name, ForegroundDebris::name()) {
        return Some(
            match MapEntity::<ForegroundDebris>::from_raw(parser) {
                Ok(x) => Ok(AnyEntity::ForegroundDebris(x)),
                Err(err) => Err(err),
            },
        );
    }
    if str_eq(name, OshiroDoor::name()) {
        return Some(
            match MapEntity::<OshiroDoor>::from_raw(parser) {
                Ok(x) => Ok(AnyEntity::OshiroDoor(x)),
                Err(err) => Err(err),
            },
        );
    }
    if str_eq(name, TheoCrystalHoldingBarrier::name()) {
        return Some(
            match MapEntity::<TheoCrystalHoldingBarrier>::from_raw(parser) {
                Ok(x) => Ok(AnyEntity::TheoCrystalHoldingBarrier(x)),
                Err(err) => Err(err),
            },
        );
    }
    if str_eq(name, TempleEye::name()) {
        return Some(
            match MapEntity::<TempleEye>::from_raw(parser) {
                Ok(x) => Ok(AnyEntity::TempleEye(x)),
                Err(err) => Err(err),
            },
        );
    }
    if str_eq(name, TheoCrystalPedestal::name()) {
        return Some(
            match MapEntity::<TheoCrystalPedestal>::from_raw(parser) {
                Ok(x) => Ok(AnyEntity::TheoCrystalPedestal(x)),
                Err(err) => Err(err),
            },
        );
    }
    if str_eq(name, FloatingDebris::name()) {
        return Some(
            match MapEntity::<FloatingDebris>::from_raw(parser) {
                Ok(x) => Ok(AnyEntity::FloatingDebris(x)),
                Err(err) => Err(err),
            },
        );
    }
    if str_eq(name, TriggerSpikesLeft::name()) {
        return Some(
            match MapEntity::<TriggerSpikesLeft>::from_raw(parser) {
                Ok(x) => Ok(AnyEntity::TriggerSpikesLeft(x)),
                Err(err) => Err(err),
            },
        );
    }
    if str_eq(name, KevinsPC::name()) {
        return Some(
            match MapEntity::<KevinsPC>::from_raw(parser) {
                Ok(x) => Ok(AnyEntity::KevinsPC(x)),
                Err(err) => Err(err),
            },
        );
    }
    if str_eq(name, SandwichLava::name()) {
        return Some(
            match MapEntity::<SandwichLava>::from_raw(parser) {
                Ok(x) => Ok(AnyEntity::SandwichLava(x)),
                Err(err) => Err(err),
            },
        );
    }
    if str_eq(name, Trapdoor::name()) {
        return Some(
            match MapEntity::<Trapdoor>::from_raw(parser) {
                Ok(x) => Ok(AnyEntity::Trapdoor(x)),
                Err(err) => Err(err),
            },
        );
    }
    if str_eq(name, SummitCloud::name()) {
        return Some(
            match MapEntity::<SummitCloud>::from_raw(parser) {
                Ok(x) => Ok(AnyEntity::SummitCloud(x)),
                Err(err) => Err(err),
            },
        );
    }
    if str_eq(name, FriendlyGhost::name()) {
        return Some(
            match MapEntity::<FriendlyGhost>::from_raw(parser) {
                Ok(x) => Ok(AnyEntity::FriendlyGhost(x)),
                Err(err) => Err(err),
            },
        );
    }
    if str_eq(name, FinalBossFallingBlock::name()) {
        return Some(
            match MapEntity::<FinalBossFallingBlock>::from_raw(parser) {
                Ok(x) => Ok(AnyEntity::FinalBossFallingBlock(x)),
                Err(err) => Err(err),
            },
        );
    }
    if str_eq(name, DreamMirror::name()) {
        return Some(
            match MapEntity::<DreamMirror>::from_raw(parser) {
                Ok(x) => Ok(AnyEntity::DreamMirror(x)),
                Err(err) => Err(err),
            },
        );
    }
    if str_eq(name, SeekerBarrier::name()) {
        return Some(
            match MapEntity::<SeekerBarrier>::from_raw(parser) {
                Ok(x) => Ok(AnyEntity::SeekerBarrier(x)),
                Err(err) => Err(err),
            },
        );
    }
    if str_eq(name, TempleBigEyeball::name()) {
        return Some(
            match MapEntity::<TempleBigEyeball>::from_raw(parser) {
                Ok(x) => Ok(AnyEntity::TempleBigEyeball(x)),
                Err(err) => Err(err),
            },
        );
    }
    if str_eq(name, ResortMirror::name()) {
        return Some(
            match MapEntity::<ResortMirror>::from_raw(parser) {
                Ok(x) => Ok(AnyEntity::ResortMirror(x)),
                Err(err) => Err(err),
            },
        );
    }
    if str_eq(name, WhiteBlock::name()) {
        return Some(
            match MapEntity::<WhiteBlock>::from_raw(parser) {
                Ok(x) => Ok(AnyEntity::WhiteBlock(x)),
                Err(err) => Err(err),
            },
        );
    }
    if str_eq(name, HangingLamp::name()) {
        return Some(
            match MapEntity::<HangingLamp>::from_raw(parser) {
                Ok(x) => Ok(AnyEntity::HangingLamp(x)),
                Err(err) => Err(err),
            },
        );
    }
    None
}

/// Parses the element of `parser` as the entity kind named `name`, where it
/// is one this library knows.
pub fn parse_entity_named(name: &str, parser: MapParser) -> (r: Option<Result<AnyEntity, MapElementParsingError>>)
    requires
        parser.valid(),
    ensures
        r is Some <==> known_entity_name(name@),
        r matches Some(Ok(e)) ==> e.kind_name() == name@,
{
    let r0 = parse_entity_named_0(name, parser);
    if r0.is_some() {
        return r0;
    }
    let r1 = parse_entity_named_1(name, parser);
    if r1.is_some() {
        return r1;
    }
    let r2 = parse_entity_named_2(name, parser);
    if r2.is_some() {
        return r2;
    }
    let r3 = parse_entity_named_3(name, parser);
    if r3.is_some() {
        return r3;
    }
    let r4 = parse_entity_named_4(name, parser);
    if r4.is_some() {
        return r4;
    }
    None
}

/// Parses the element of `parser` as the trigger kind named `name`, where it
/// is one this library knows.
pub fn parse_trigger_named(name: &str, parser: MapParser) -> (r: Option<Result<AnyTrigger, MapElementParsingError>>)
    requires
        parser.valid(),
    ensures
        r is Some <==> known_trigger_name(name@),
        r matches Some(Ok(t)) ==> t.kind_name() == name@,
{
    if str_eq(name, LookoutBlocker::name()) {
        return Some(
            match MapTrigger::<LookoutBlocker>::from_raw(parser) {
                Ok(x) => Ok(AnyTrigger::LookoutBlocker(x)),
                Err(err) => Err(err),
            },
        );
    }
    if str_eq(name, MusicTrigger::name()) {
        return Some(
            match MapTrigger::<MusicTrigger>::from_raw(parser) {
                Ok(x) => Ok(AnyTrigger::MusicTrigger(x)),
                Err(err) => Err(err),
            },
        );
    }
    if str_eq(name, BirdPathTrigger::name()) {
        return Some(
            match MapTrigger::<BirdPathTrigger>::from_raw(parser) {
                Ok(x) => Ok(AnyTrigger::BirdPathTrigger(x)),
                Err(err) => Err(err),
            },
        );
    }
    if str_eq(name, BlackholeStrength::name()) {
        return Some(
            match MapTrigger::<BlackholeStrength>::from_raw(parser) {
                Ok(x) => Ok(AnyTrigger::BlackholeStrength(x)),
                Err(err) => Err(err),
            },
        );
    }
    if str_eq(name, CameraOffsetTrigger::name()) {
        return Some(
            match MapTrigger::<CameraOffsetTrigger>::from_raw(parser) {
                Ok(x) => Ok(AnyTrigger::CameraOffsetTrigger(x)),
                Err(err) => Err(err),
            },
        );
    }
    if str_eq(name, ChangeRespawnTrigger::name()) {
        return Some(
            match MapTrigger::<ChangeRespawnTrigger>::from_raw(parser) {
                Ok(x) => Ok(AnyTrigger::ChangeRespawnTrigger(x)),
                Err(err) => Err(err),
            },
        );
    }
    if str_eq(name, MiniTextboxTrigger::name()) {
        return Some(
            match MapTrigger::<MiniTextboxTrigger>::from_raw(parser) {
                Ok(x) => Ok(AnyTrigger::MiniTextboxTrigger(x)),
                Err(err) => Err(err),
            },
        );
    }
    if str_eq(name, RespawnTargetTrigger::name()) {
        return Some(
            match MapTrigger::<RespawnTargetTrigger>::from_raw(parser) {
                Ok(x) => Ok(AnyTrigger::RespawnTargetTrigger(x)),
                Err(err) => Err(err),
            },
        );
    }
    if str_eq(name, NoRefillTrigger::name()) {
        return Some(
            match MapTrigger::<NoRefillTrigger>::from_raw(parser) {
                Ok(x) => Ok(AnyTrigger::NoRefillTrigger(x)),
                Err(err) => Err(err),
            },
        );
    }
    if str_eq(name, BloomFadeTrigger::name()) {
        return Some(
            match MapTrigger::<BloomFadeTrigger>::from_raw(parser) {
                Ok(x) => Ok(AnyTrigger::BloomFadeTrigger(x)),
                Err(err) => Err(err),
            },
        );
    }
    if str_eq(name, CameraTargetTrigger::name()) {
        return Some(
            match MapTrigger::<CameraTargetTrigger>::from_raw(parser) {
                Ok(x) => Ok(AnyTrigger::CameraTargetTrigger(x)),
                Err(err) => Err(err),
            },
        );
    }
    if str_eq(name, MusicFadeTrigger::name()) {
        return Some(
            match MapTrigger::<MusicFadeTrigger>::from_raw(parser) {
                Ok(x) => Ok(AnyTrigger::MusicFadeTrigger(x)),
                Err(err) => Err(err),
            },
        );
    }
    if str_eq(name, GoldenBerryCollectTrigger::name()) {
        return Some(
            match MapTrigger::<GoldenBerryCollectTrigger>::from_raw(parser) {
                Ok(x) => Ok(AnyTrigger::GoldenBerryCollectTrigger(x)),
                Err(err) => Err(err),
            },
        );
    }
    if str_eq(name, CameraAdvanceTargetTrigger::name()) {
        return Some(
            match MapTrigger::<CameraAdvanceTargetTrigger>::from_raw(parser) {
                Ok(x) => Ok(AnyTrigger::CameraAdvanceTargetTrigger(x)),
                Err(err) => Err(err),
            },
        );
    }
    if str_eq(name, LightFadeTrigger::name()) {
        return Some(
            match MapTrigger::<LightFadeTrigger>::from_raw(parser) {
                Ok(x) => Ok(AnyTrigger::LightFadeTrigger(x)),
                Err(err) => Err(err),
            },
        );
    }
    if str_eq(name, SpawnFacingTrigger::name()) {
        return Some(
            match MapTrigger::<SpawnFacingTrigger>::from_raw(parser) {
                Ok(x) => Ok(AnyTrigger::SpawnFacingTrigger(x)),
                Err(err) => Err(err),
            },
        );
    }
    if str_eq(name, WindAttackTrigger::name()) {
        return Some(
            match MapTrigger::<WindAttackTrigger>::from_raw(parser) {
                Ok(x) => Ok(AnyTrigger::WindAttackTrigger(x)),
                Err(err) => Err(err),
            },
        );
    }
    if str_eq(name, AmbienceParamTrigger::name()) {
        return Some(
            match MapTrigger::<AmbienceParamTrigger>::from_raw(parser) {
                Ok(x) => Ok(AnyTrigger::AmbienceParamTrigger(x)),
                Err(err) => Err(err),
            },
        );
    }
    if str_eq(name, EventTrigger::name()) {
        return Some(
            match MapTrigger::<EventTrigger>::from_raw(parser) {
                Ok(x) => Ok(AnyTrigger::EventTrigger(x)),
                Err(err) => Err(err),
            },
        );
    }
    if str_eq(name, DetachFollowersTrigger::name()) {
        return Some(
            match MapTrigger::<DetachFollowersTrigger>::from_raw(parser) {
                Ok(x) => Ok(AnyTrigger::DetachFollowersTrigger(x)),
                Err(err) => Err(err),
            },
        );
    }
    if str_eq(name, CheckpointBlockerTrigger::name()) {
        return Some(
            match MapTrigger::<CheckpointBlockerTrigger>::from_raw(parser) {
                Ok(x) => Ok(AnyTrigger::CheckpointBlockerTrigger(x)),
                Err(err) => Err(err),
            },
        );
    }
    if str_eq(name, AltMusicTrigger::name()) {
        return Some(
            match MapTrigger::<AltMusicTrigger>::from_raw(parser) {
                Ok(x) => Ok(AnyTrigger::AltMusicTrigger(x)),
                Err(err) => Err(err),
            },
        );
    }
    if str_eq(name, WindTrigger::name()) {
        return Some(
            match MapTrigger::<WindTrigger>::from_raw(parser) {
                Ok(x) => Ok(AnyTrigger::WindTrigger(x)),
                Err(err) => Err(err),
            },
        );
    }
    if str_eq(name, CreditsTrigger::name()) {
        return Some(
            match MapTrigger::<CreditsTrigger>::from_raw(parser) {
                Ok(x) => Ok(AnyTrigger::CreditsTrigger(x)),
                Err(err) => Err(err),
            },
        );
    }
    if str_eq(name, RumbleTrigger::name()) {
        return Some(
            match MapTrigger::<RumbleTrigger>::from_raw(parser) {
                Ok(x) => Ok(AnyTrigger::RumbleTrigger(x)),
                Err(err) => Err(err),
            },
        );
    }
    if str_eq(name, OshiroTrigger::name()) {
        return Some(
            match MapTrigger::<OshiroTrigger>::from_raw(parser) {
                Ok(x) => Ok(AnyTrigger::OshiroTrigger(x)),
                Err(err) => Err(err),
            },
        );
    }
    if str_eq(name, MoonGlitchBackgroundTrigger::name()) {
        return Some(
            match MapTrigger::<MoonGlitchBackgroundTrigger>::from_raw(parser) {
                Ok(x) => Ok(AnyTrigger::MoonGlitchBackgroundTrigger(x)),
                Err(err) => Err(err),
            },
        );
    }
    if str_eq(name, InteractTrigger::name()) {
        return Some(
            match MapTrigger::<InteractTrigger>::from_raw(parser) {
                Ok(x) => Ok(AnyTrigger::InteractTrigger(x)),
                Err(err) => Err(err),
            },
        );
    }
    None
}

/// Parses the element of `parser` as the structural element named `name`,
/// where it is one this library knows.
fn parse_structure_named(name: &str, parser: MapParser) -> (r: Option<Result<DynMapElement, MapElementParsingError>>)
    requires
        parser.valid(),
    ensures
        r is Some <==> known_structure_name(name@),
        r matches Some(Ok(e)) ==> e.kind_name() == Some(name@),
    decreases *parser.raw, 3int,
{
    if str_eq(name, MapRoot::name()) {
        return Some(
            match MapRoot::from_raw(parser) {
                Ok(x) => Ok(DynMapElement::Root(x)),
                Err(err) => Err(err),
            },
        );
    }
    if str_eq(name, Filler::name()) {
        return Some(
            match Filler::from_raw(parser) {
                Ok(x) => Ok(DynMapElement::Filler(x)),
                Err(err) => Err(err),
            },
        );
    }
    if str_eq(name, Rect::name()) {
        return Some(
            match Rect::from_raw(parser) {
                Ok(x) => Ok(DynMapElement::Rect(x)),
                Err(err) => Err(err),
            },
        );
    }
    if str_eq(name, Node::name()) {
        return Some(
            match Node::from_raw(parser) {
                Ok(x) => Ok(DynMapElement::Node(x)),
                Err(err) => Err(err),
            },
        );
    }
    if str_eq(name, Levels::name()) {
        return Some(
            match Levels::from_raw(parser) {
                Ok(x) => Ok(DynMapElement::Levels(x)),
                Err(err) => Err(err),
            },
        );
    }
    if str_eq(name, Level::name()) {
        return Some(
            match Level::from_raw(parser) {
                Ok(x) => Ok(DynMapElement::Level(x)),
                Err(err) => Err(err),
            },
        );
    }
    if str_eq(name, Styles::name()) {
        return Some(
            match Styles::from_raw(parser) {
                Ok(x) => Ok(DynMapElement::Styles(x)),
                Err(err) => Err(err),
            },
        );
    }
    if str_eq(name, Triggers::name()) {
        return Some(
            match Triggers::from_raw(parser) {
                Ok(x) => Ok(DynMapElement::Triggers(x)),
                Err(err) => Err(err),
            },
        );
    }
    if str_eq(name, FGTiles::name()) {
        return Some(
            match FGTiles::from_raw(parser) {
                Ok(x) => Ok(DynMapElement::FGTiles(x)),
                Err(err) => Err(err),
            },
        );
    }
    if str_eq(name, BGTiles::name()) {
        return Some(
            match BGTiles::from_raw(parser) {
                Ok(x) => Ok(DynMapElement::BGTiles(x)),
                Err(err) => Err(err),
            },
        );
    }
    if str_eq(name, FGDecals::name()) {
        return Some(
            match FGDecals::from_raw(parser) {
                Ok(x) => Ok(DynMapElement::FGDecals(x)),
                Err(err) => Err(err),
            },
        );
    }
    if str_eq(name, BGDecals::name()) {
        return Some(
            match BGDecals::from_raw(parser) {
                Ok(x) => Ok(DynMapElement::BGDecals(x)),
                Err(err) => Err(err),
            },
        );
    }
    if str_eq(name, Decal::name()) {
        return Some(
            match Decal::from_raw(parser) {
                Ok(x) => Ok(DynMapElement::Decal(x)),
                Err(err) => Err(err),
            },
        );
    }
    if str_eq(name, Background::name()) {
        return Some(
            match Background::from_raw(parser) {
                Ok(x) => Ok(DynMapElement::Background(x)),
                Err(err) => Err(err),
            },
        );
    }
    if str_eq(name, ObjTiles::name()) {
        return Some(
            match ObjTiles::from_raw(parser) {
                Ok(x) => Ok(DynMapElement::ObjTiles(x)),
                Err(err) => Err(err),
            },
        );
    }
    if str_eq(name, Solids::name()) {
        return Some(
            match Solids::from_raw(parser) {
                Ok(x) => Ok(DynMapElement::Solids(x)),
                Err(err) => Err(err),
            },
        );
    }
    if str_eq(name, Entities::name()) {
        return Some(
            match Entities::from_raw(parser) {
                Ok(x) => Ok(DynMapElement::Entities(x)),
                Err(err) => Err(err),
            },
        );
    }
    if str_eq(name, Backgrounds::name()) {
        return Some(
            match Backgrounds::from_raw(parser) {
                Ok(x) => Ok(DynMapElement::Backgrounds(x)),
                Err(err) => Err(err),
            },
        );
    }
    if str_eq(name, Foregrounds::name()) {
        return Some(
            match Foregrounds::from_raw(parser) {
                Ok(x) => Ok(DynMapElement::Foregrounds(x)),
                Err(err) => Err(err),
            },
        );
    }
    if str_eq(name, Parallax::name()) {
        return Some(
            match Parallax::from_raw(parser) {
                Ok(x) => Ok(DynMapElement::Parallax(x)),
                Err(err) => Err(err),
            },
        );
    }
    if str_eq(name, SnowBG::name()) {
        return Some(
            match SnowBG::from_raw(parser) {
                Ok(x) => Ok(DynMapElement::SnowBG(x)),
                Err(err) => Err(err),
            },
        );
    }
    if str_eq(name, SnowFG::name()) {
        return Some(
            match SnowFG::from_raw(parser) {
                Ok(x) => Ok(DynMapElement::SnowFG(x)),
                Err(err) => Err(err),
            },
        );
    }
    None
}

/// Parses the element of `parser` as the element kind named `name`, where it
/// is one this library knows.
pub fn parse_named(name: &str, parser: MapParser) -> (r: Option<Result<DynMapElement, MapElementParsingError>>)
    requires
        parser.valid(),
    ensures
        r is Some <==> known_element_name(name@),
        r matches Some(Ok(e)) ==> e.kind_name() == Some(name@),
    decreases *parser.raw, 4int,
{
    let s = parse_structure_named(name, parser);
    if s.is_some() {
        return s;
    }
    match parse_entity_named(name, parser) {
        Some(Ok(e)) => {
            return Some(Ok(DynMapElement::Entity(e)));
        },
        Some(Err(err)) => {
            return Some(Err(err));
        },
        None => {},
    }
    match parse_trigger_named(name, parser) {
        Some(Ok(t)) => Some(Ok(DynMapElement::Trigger(t))),
        Some(Err(err)) => Some(Err(err)),
        None => None,
    }
}

/// Writes an entity of a known kind as a child of the element `encoder` builds.
pub fn encode_entity(encoder: &mut MapEncoder, e: &AnyEntity)
    ensures
        final(encoder).built().name == old(encoder).built().name,
        final(encoder).built().attributes == old(encoder).built().attributes,
        final(encoder).built().children.len() == old(encoder).built().children.len() + 1,
        final(encoder).built().children.take(old(encoder).built().children.len() as int) == old(
            encoder,
        ).built().children,
{
    match e {
        AnyEntity::SpikesUp(x) => encoder.child(x),
        AnyEntity::SpikesDown(x) => encoder.child(x),
        AnyEntity::SpikesLeft(x) => encoder.child(x),
        AnyEntity::SpikesRight(x) => encoder.child(x),
        AnyEntity::JumpThru(x) => encoder.child(x),
        AnyEntity::Wire(x) => encoder.child(x),
        AnyEntity::Strawberry(x) => encoder.child(x),
        AnyEntity::Lightbeam(x) => encoder.child(x),
        AnyEntity::Cassette(x) => encoder.child(x),
        AnyEntity::CassetteBlock(x) => encoder.child(x),
        AnyEntity::DashBlock(x) => encoder.child(x),
        AnyEntity::Bonfire(x) => encoder.child(x),
        AnyEntity::NPC(x) => encoder.child(x),
        AnyEntity::CoverupWall(x) => encoder.child(x),
        AnyEntity::Memorial(x) => encoder.child(x),
        AnyEntity::BirdForsakenCityGem(x) => encoder.child(x),
        AnyEntity::FallingBlock(x) => encoder.child(x),
        AnyEntity::ZipMover(x) => encoder.child(x),
        AnyEntity::FakeWall(x) => encoder.child(x),
        AnyEntity::Spring(x) => encoder.child(x),
        AnyEntity::Refill(x) => encoder.child(x),
        AnyEntity::Tentacles(x) => encoder.child(x),
        AnyEntity::Glider(x) => encoder.child(x),
        AnyEntity::FlingBirdIntro(x) => encoder.child(x),
        AnyEntity::ExitBlock(x) => encoder.child(x),
        AnyEntity::TempleCrackedBlock(x) => encoder.child(x),
        AnyEntity::Clothesline(x) => encoder.child(x),
        AnyEntity::RedBlocks(x) => encoder.child(x),
        AnyEntity::Door(x) => encoder.child(x),
        AnyEntity::DashSwitchV(x) => encoder.child(x),
        AnyEntity::Spinner(x) => encoder.child(x),
        AnyEntity::ConditionBlock(x) => encoder.child(x),
        AnyEntity::FloatySpaceBlock(x) => encoder.child(x),
        AnyEntity::SoundSource(x) => encoder.child(x),
        AnyEntity::LockBlock(x) => encoder.child(x),
        AnyEntity::Seeker(x) => encoder.child(x),
        AnyEntity::DashSwitchH(x) => encoder.child(x),
        AnyEntity::SummitCheckpoint(x) => encoder.child(x),
        AnyEntity::SummitGem(x) => encoder.child(x),
        AnyEntity::SummitGemManager(x) => encoder.child(x),
        AnyEntity::FireBall(x) => encoder.child(x),
        AnyEntity::FlingBird(x) => encoder.child(x),
        AnyEntity::CoreModeToggle(x) => encoder.child(x),
        AnyEntity::HeartGemDoor(x) => encoder.child(x),
        AnyEntity::Eyebomb(x) => encoder.child(x),
        AnyEntity::TempleGate(x) => encoder.child(x),
        AnyEntity::PlaybackTutorial(x) => encoder.child(x),
        AnyEntity::StarJumpBlock(x) => encoder.child(x),
        AnyEntity::SeekerStatue(x) => encoder.child(x),
        AnyEntity::FinalBoss(x) => encoder.child(x),
        AnyEntity::Cloud(x) => encoder.child(x),
        AnyEntity::BigWaterfall(x) => encoder.child(x),
        AnyEntity::WallSpringLeft(x) => encoder.child(x),
        AnyEntity::CoreMessage(x) => encoder.child(x),
        AnyEntity::IntroCrusher(x) => encoder.child(x),
        AnyEntity::Key(x) => encoder.child(x),
        AnyEntity::HaHaHa(x) => encoder.child(x),
        AnyEntity::BadelineBoost(x) => encoder.child(x),
        AnyEntity::WallSpringRight(x) => encoder.child(x),
        AnyEntity::CrumbleWallOnRumble(x) => encoder.child(x),
        AnyEntity::RisingLava(x) => encoder.child(x),
        AnyEntity::GreenBlocks(x) => encoder.child(x),
        AnyEntity::LightningBlock(x) => encoder.child(x),
        AnyEntity::BirdPath(x) => encoder.child(x),
        AnyEntity::CutsceneNode(x) => encoder.child(x),
        AnyEntity::ClutterDoor(x) => encoder.child(x),
        AnyEntity::BigSpinner(x) => encoder.child(x),
        AnyEntity::CliffsideFlag(x) => encoder.child(x),
        AnyEntity::RidgeGate(x) => encoder.child(x),
        AnyEntity::SwapBlock(x) => encoder.child(x),
        AnyEntity::MovingPlatform(x) => encoder.child(x),
        AnyEntity::SwitchGate(x) => encoder.child(x),
        AnyEntity::BlackGem(x) => encoder.child(x),
        AnyEntity::SummitBackgroundManager(x) => encoder.child(x),
        AnyEntity::TempleMirror(x) => encoder.child(x),
        AnyEntity::MoveBlock(x) => encoder.child(x),
        AnyEntity::DreamBlock(x) => encoder.child(x),
        AnyEntity::WallBooster(x) => encoder.child(x),
        AnyEntity::Water(x) => encoder.child(x),
        AnyEntity::Lightning(x) => encoder.child(x),
        AnyEntity::MoonCreature(x) => encoder.child(x),
        AnyEntity::FinalBossMovingBlock(x) => encoder.child(x),
        AnyEntity::RotateSpinner(x) => encoder.child(x),
        AnyEntity::Booster(x) => encoder.child(x),
        AnyEntity::Bird(x) => encoder.child(x),
        AnyEntity::ReflectionHeartStatue(x) => encoder.child(x),
        AnyEntity::YellowBlocks(x) => encoder.child(x),
        AnyEntity::TowerViewer(x) => encoder.child(x),
        AnyEntity::Cobweb(x) => encoder.child(x),
        AnyEntity::InfiniteStar(x) => encoder.child(x),
        AnyEntity::Torch(x) => encoder.child(x),
        AnyEntity::ColorSwitch(x) => encoder.child(x),
        AnyEntity::CliffFlag(x) => encoder.child(x),
        AnyEntity::Lamp(x) => encoder.child(x),
        AnyEntity::PowerSourceNumber(x) => encoder.child(x),
        AnyEntity::Bridge(x) => encoder.child(x),
        AnyEntity::CrushBlock(x) => encoder.child(x),
        AnyEntity::TrackSpinner(x) => encoder.child(x),
        AnyEntity::Gondola(x) => encoder.child(x),
        AnyEntity::Player(x) => encoder.child(x),
        AnyEntity::GoldenBerry(x) => encoder.child(x),
        AnyEntity::CrumbleBlock(x) => encoder.child(x),
        AnyEntity::Checkpoint(x) => encoder.child(x),
        AnyEntity::WingedGoldenStrawberry(x) => encoder.child(x),
        AnyEntity::FlutterBird(x) => encoder.child(x),
        AnyEntity::Plateau(x) => encoder.child(x),
        AnyEntity::Payphone(x) => encoder.child(x),
        AnyEntity::WavedashMachine(x) => encoder.child(x),
        AnyEntity::PlaybackBillboard(x) => encoder.child(x),
        AnyEntity::SinkingPlatform(x) => encoder.child(x),
        AnyEntity::PlayerSeeker(x) => encoder.child(x),
        AnyEntity::PICOConsole(x) => encoder.child(x),
        AnyEntity::DarkChaser(x) => encoder.child(x),
        AnyEntity::ResortRoofEnding(x) => encoder.child(x),
        AnyEntity::FireBarrier(x) => encoder.child(x),
        AnyEntity::TriggerSpikesUp(x) => encoder.child(x),
        AnyEntity::TriggerSpikesDown(x) => encoder.child(x),
        AnyEntity::IceBlock(x) => encoder.child(x),
        AnyEntity::Waterfall(x) => encoder.child(x),
        AnyEntity::BounceBlock(x) => encoder.child(x),
        AnyEntity::ResortLantern(x) => encoder.child(x),
        AnyEntity::KillBox(x) => encoder.child(x),
        AnyEntity::TouchSwitch(x) => encoder.child(x),
        AnyEntity::ClutterCabinet(x) => encoder.child(x),
        AnyEntity::TheoCrystal(x) => encoder.child(x),
        AnyEntity::BlockField(x) => encoder.child(x),
        AnyEntity::InvisibleBarrier(x) => encoder.child(x),
        AnyEntity::TempleMirrorPortal(x) => encoder.child(x),
        AnyEntity::TriggerSpikesRight(x) => encoder.child(x),
        AnyEntity::BridgeFixed(x) => encoder.child(x),
        AnyEntity::IntroCar(x) => encoder.child(x),
        AnyEntity::ForegroundDebris(x) => encoder.child(x),
        AnyEntity::OshiroDoor(x) => encoder.child(x),
        AnyEntity::TheoCrystalHoldingBarrier(x) => encoder.child(x),
        AnyEntity::TempleEye(x) => encoder.child(x),
        AnyEntity::TheoCrystalPedestal(x) => encoder.child(x),
        AnyEntity::FloatingDebris(x) => encoder.child(x),
        AnyEntity::TriggerSpikesLeft(x) => encoder.child(x),
        AnyEntity::KevinsPC(x) => encoder.child(x),
        AnyEntity::SandwichLava(x) => encoder.child(x),
        AnyEntity::Trapdoor(x) => encoder.child(x),
        AnyEntity::SummitCloud(x) => encoder.child(x),
        AnyEntity::FriendlyGhost(x) => encoder.child(x),
        AnyEntity::FinalBossFallingBlock(x) => encoder.child(x),
        AnyEntity::DreamMirror(x) => encoder.child(x),
        AnyEntity::SeekerBarrier(x) => encoder.child(x),
        AnyEntity::TempleBigEyeball(x) => encoder.child(x),
        AnyEntity::ResortMirror(x) => encoder.child(x),
        AnyEntity::WhiteBlock(x) => encoder.child(x),
        AnyEntity::HangingLamp(x) => encoder.child(x),
    }
}

/// Writes a trigger of a known kind as a child of the element `encoder` builds.
pub fn encode_trigger(encoder: &mut MapEncoder, t: &AnyTrigger)
    ensures
        final(encoder).built().name == old(encoder).built().name,
        final(encoder).built().attributes == old(encoder).built().attributes,
        final(encoder).built().children.len() == old(encoder).built().children.len() + 1,
        final(encoder).built().children.take(old(encoder).built().children.len() as int) == old(
            encoder,
        ).built().children,
{
    match t {
        AnyTrigger::LookoutBlocker(x) => encoder.child(x),
        AnyTrigger::MusicTrigger(x) => encoder.child(x),
        AnyTrigger::BirdPathTrigger(x) => encoder.child(x),
        AnyTrigger::BlackholeStrength(x) => encoder.child(x),
        AnyTrigger::CameraOffsetTrigger(x) => encoder.child(x),
        AnyTrigger::ChangeRespawnTrigger(x) => encoder.child(x),
        AnyTrigger::MiniTextboxTrigger(x) => encoder.child(x),
        AnyTrigger::RespawnTargetTrigger(x) => encoder.child(x),
        AnyTrigger::NoRefillTrigger(x) => encoder.child(x),
        AnyTrigger::BloomFadeTrigger(x) => encoder.child(x),
        AnyTrigger::CameraTargetTrigger(x) => encoder.child(x),
        AnyTrigger::MusicFadeTrigger(x) => encoder.child(x),
        AnyTrigger::GoldenBerryCollectTrigger(x) => encoder.child(x),
        AnyTrigger::CameraAdvanceTargetTrigger(x) => encoder.child(x),
        AnyTrigger::LightFadeTrigger(x) => encoder.child(x),
        AnyTrigger::SpawnFacingTrigger(x) => encoder.child(x),
        AnyTrigger::WindAttackTrigger(x) => encoder.child(x),
        AnyTrigger::AmbienceParamTrigger(x) => encoder.child(x),
        AnyTrigger::EventTrigger(x) => encoder.child(x),
        AnyTrigger::DetachFollowersTrigger(x) => encoder.child(x),
        AnyTrigger::CheckpointBlockerTrigger(x) => encoder.child(x),
        AnyTrigger::AltMusicTrigger(x) => encoder.child(x),
        AnyTrigger::WindTrigger(x) => encoder.child(x),
        AnyTrigger::CreditsTrigger(x) => encoder.child(x),
        AnyTrigger::RumbleTrigger(x) => encoder.child(x),
        AnyTrigger::OshiroTrigger(x) => encoder.child(x),
        AnyTrigger::MoonGlitchBackgroundTrigger(x) => encoder.child(x),
        AnyTrigger::InteractTrigger(x) => encoder.child(x),
    }
}

/// Writes a child of the entities of a room.
pub fn encode_dyn_entity(encoder: &mut MapEncoder, e: &DynEntity)
    ensures
        final(encoder).built().name == old(encoder).built().name,
        final(encoder).built().attributes == old(encoder).built().attributes,
        final(encoder).built().children.len() == old(encoder).built().children.len() + 1,
        final(encoder).built().children.take(old(encoder).built().children.len() as int) == old(
            encoder,
        ).built().children,
{
    match e {
        DynEntity::Entity(x) => encode_entity(encoder, x),
        DynEntity::Raw(raw) => {
            let ghost before = old(encoder).built().children;
            encoder.push_child(raw.duplicate());
            proof {
                assert(encoder.built().children.take(before.len() as int) =~= before);
            }
        },
    }
}

/// Writes an element of any kind as a child of the element `encoder` builds.
pub fn encode_dyn(encoder: &mut MapEncoder, e: &DynMapElement)
    ensures
        final(encoder).built().name == old(encoder).built().name,
        final(encoder).built().attributes == old(encoder).built().attributes,
        final(encoder).built().children.len() == old(encoder).built().children.len() + 1,
        final(encoder).built().children.take(old(encoder).built().children.len() as int) == old(
            encoder,
        ).built().children,
    decreases e, 1int,
{
    match e {
        DynMapElement::Raw(raw) => {
            let ghost before = old(encoder).built().children;
            encoder.push_child(raw.duplicate());
            proof {
                assert(encoder.built().children.take(before.len() as int) =~= before);
            }
        },
        DynMapElement::Root(x) => encode_root(encoder, x),
        DynMapElement::Filler(x) => encoder.child(x),
        DynMapElement::Rect(x) => encoder.child(x),
        DynMapElement::Node(x) => encoder.child(x),
        DynMapElement::Levels(x) => encode_levels(encoder, x),
        DynMapElement::Level(x) => encode_level(encoder, x),
        DynMapElement::Styles(x) => encoder.child(x),
        DynMapElement::Triggers(x) => encode_triggers(encoder, x),
        DynMapElement::FGTiles(x) => encoder.child(x),
        DynMapElement::BGTiles(x) => encoder.child(x),
        DynMapElement::FGDecals(x) => encoder.child(x),
        DynMapElement::BGDecals(x) => encoder.child(x),
        DynMapElement::Decal(x) => encoder.child(x),
        DynMapElement::Background(x) => encoder.child(x),
        DynMapElement::ObjTiles(x) => encoder.child(x),
        DynMapElement::Solids(x) => encoder.child(x),
        DynMapElement::Entities(x) => encoder.child(x),
        DynMapElement::Backgrounds(x) => encoder.child(x),
        DynMapElement::Foregrounds(x) => encoder.child(x),
        DynMapElement::Parallax(x) => encoder.child(x),
        DynMapElement::SnowBG(x) => encoder.child(x),
        DynMapElement::SnowFG(x) => encoder.child(x),
        DynMapElement::Entity(x) => encode_entity(encoder, x),
        DynMapElement::Trigger(x) => encode_trigger(encoder, x),
    }
}

/// Registers a group of the entity kinds this library knows.
fn register_entities_0(mm: &mut MapManager)
    ensures
        final(mm).raw_map() == old(mm).raw_map(),
        final(mm).valid() == old(mm).valid(),
        forall|n: Seq<char>| #[trigger] final(mm).registers(n) == (old(mm).registers(n) || known_entity_name_0(n)),
{
    mm.add_entity_parser::<SpikesUp>();
    mm.add_entity_parser::<SpikesDown>();
    mm.add_entity_parser::<SpikesLeft>();
    mm.add_entity_parser::<SpikesRight>();
    mm.add_entity_parser::<JumpThru>();
    mm.add_entity_parser::<Wire>();
    mm.add_entity_parser::<Strawberry>();
    mm.add_entity_parser::<Lightbeam>();
    mm.add_entity_parser::<Cassette>();
    mm.add_entity_parser::<CassetteBlock>();
    mm.add_entity_parser::<DashBlock>();
    mm.add_entity_parser::<Bonfire>();
    mm.add_entity_parser::<NPC>();
    mm.add_entity_parser::<CoverupWall>();
    mm.add_entity_parser::<Memorial>();
    mm.add_entity_parser::<BirdForsakenCityGem>();
    mm.add_entity_parser::<FallingBlock>();
    mm.add_entity_parser::<ZipMover>();
    mm.add_entity_parser::<FakeWall>();
    mm.add_entity_parser::<Spring>();
    mm.add_entity_parser::<Refill>();
    mm.add_entity_parser::<Tentacles>();
    mm.add_entity_parser::<Glider>();
    mm.add_entity_parser::<FlingBirdIntro>();
    mm.add_entity_parser::<ExitBlock>();
    mm.add_entity_parser::<TempleCrackedBlock>();
    mm.add_entity_parser::<Clothesline>();
    mm.add_entity_parser::<RedBlocks>();
    mm.add_entity_parser::<Door>();
    mm.add_entity_parser::<DashSwitchV>();
    mm.add_entity_parser::<Spinner>();
    mm.add_entity_parser::<ConditionBlock>();
    mm.add_entity_parser::<FloatySpaceBlock>();
}

/// Registers a group of the entity kinds this library knows.
fn register_entities_1(mm: &mut MapManager)
    ensures
        final(mm).raw_map() == old(mm).raw_map(),
        final(mm).valid() == old(mm).valid(),
        forall|n: Seq<char>| #[trigger] final(mm).registers(n) == (old(mm).registers(n) || known_entity_name_1(n)),
{
    mm.add_entity_parser::<SoundSource>();
    mm.add_entity_parser::<LockBlock>();
    mm.add_entity_parser::<Seeker>();
    mm.add_entity_parser::<DashSwitchH>();
    mm.add_entity_parser::<SummitCheckpoint>();
    mm.add_entity_parser::<SummitGem>();
    mm.add_entity_parser::<SummitGemManager>();
    mm.add_entity_parser::<FireBall>();
    mm.add_entity_parser::<FlingBird>();
    mm.add_entity_parser::<CoreModeToggle>();
    mm.add_entity_parser::<HeartGemDoor>();
    mm.add_entity_parser::<Eyebomb>();
    mm.add_entity_parser::<TempleGate>();
    mm.add_entity_parser::<PlaybackTutorial>();
    mm.add_entity_parser::<StarJumpBlock>();
    mm.add_entity_parser::<SeekerStatue>();
    mm.add_entity_parser::<FinalBoss>();
    mm.add_entity_parser::<Cloud>();
    mm.add_entity_parser::<BigWaterfall>();
    mm.add_entity_parser::<WallSpringLeft>();
    mm.add_entity_parser::<CoreMessage>();
    mm.add_entity_parser::<IntroCrusher>();
    mm.add_entity_parser::<Key>();
    mm.add_entity_parser::<HaHaHa>();
    mm.add_entity_parser::<BadelineBoost>();
    mm.add_entity_parser::<WallSpringRight>();
    mm.add_entity_parser::<CrumbleWallOnRumble>();
    mm.add_entity_parser::<RisingLava>();
    mm.add_entity_parser::<GreenBlocks>();
    mm.add_entity_parser::<LightningBlock>();
    mm.add_entity_parser::<BirdPath>();
    mm.add_entity_parser::<CutsceneNode>();
    mm.add_entity_parser::<ClutterDoor>();
}

/// Registers a group of the entity kinds this library knows.
fn register_entities_2(mm: &mut MapManager)
    ensures
        final(mm).raw_map() == old(mm).raw_map(),
        final(mm).valid() == old(mm).valid(),
        forall|n: Seq<char>| #[trigger] final(mm).registers(n) == (old(mm).registers(n) || known_entity_name_2(n)),
{
    mm.add_entity_parser::<BigSpinner>();
    mm.add_entity_parser::<CliffsideFlag>();
    mm.add_entity_parser::<RidgeGate>();
    mm.add_entity_parser::<SwapBlock>();
    mm.add_entity_parser::<MovingPlatform>();
    mm.add_entity_parser::<SwitchGate>();
    mm.add_entity_parser::<BlackGem>();
    mm.add_entity_parser::<SummitBackgroundManager>();
    mm.add_entity_parser::<TempleMirror>();
    mm.add_entity_parser::<MoveBlock>();
    mm.add_entity_parser::<DreamBlock>();
    mm.add_entity_parser::<WallBooster>();
    mm.add_entity_parser::<Water>();
    mm.add_entity_parser::<Lightning>();
    mm.add_entity_parser::<MoonCreature>();
    mm.add_entity_parser::<FinalBossMovingBlock>();
    mm.add_entity_parser::<RotateSpinner>();
    mm.add_entity_parser::<Booster>();
    mm.add_entity_parser::<Bird>();
    mm.add_entity_parser::<ReflectionHeartStatue>();
    mm.add_entity_parser::<YellowBlocks>();
    mm.add_entity_parser::<TowerViewer>();
    mm.add_entity_parser::<Cobweb>();
    mm.add_entity_parser::<InfiniteStar>();
    mm.add_entity_parser::<Torch>();
    mm.add_entity_parser::<ColorSwitch>();
    mm.add_entity_parser::<CliffFlag>();
    mm.add_entity_parser::<Lamp>();
    mm.add_entity_parser::<PowerSourceNumber>();
    mm.add_entity_parser::<Bridge>();
    mm.add_entity_parser::<CrushBlock>();
    mm.add_entity_parser::<TrackSpinner>();
    mm.add_entity_parser::<Gondola>();
}

/// Registers a group of the entity kinds this library knows.
fn register_entities_3(mm: &mut MapManager)
    ensures
        final(mm).raw_map() == old(mm).raw_map(),
        final(mm).valid() == old(mm).valid(),
        forall|n: Seq<char>| #[trigger] final(mm).registers(n) == (old(mm).registers(n) || known_entity_name_3(n)),
{
    mm.add_entity_parser::<Player>();
    mm.add_entity_parser::<GoldenBerry>();
    mm.add_entity_parser::<CrumbleBlock>();
    mm.add_entity_parser::<Checkpoint>();
    mm.add_entity_parser::<WingedGoldenStrawberry>();
    mm.add_entity_parser::<FlutterBird>();
    mm.add_entity_parser::<Plateau>();
    mm.add_entity_parser::<Payphone>();
    mm.add_entity_parser::<WavedashMachine>();
    mm.add_entity_parser::<PlaybackBillboard>();
    mm.add_entity_parser::<SinkingPlatform>();
    mm.add_entity_parser::<PlayerSeeker>();
    mm.add_entity_parser::<PICOConsole>();
    mm.add_entity_parser::<DarkChaser>();
    mm.add_entity_parser::<ResortRoofEnding>();
    mm.add_entity_parser::<FireBarrier>();
    mm.add_entity_parser::<TriggerSpikesUp>();
    mm.add_entity_parser::<TriggerSpikesDown>();
    mm.add_entity_parser::<IceBlock>();
    mm.add_entity_parser::<Waterfall>();
    mm.add_entity_parser::<BounceBlock>();
    mm.add_entity_parser::<ResortLantern>();
    mm.add_entity_parser::<KillBox>();
    mm.add_entity_parser::<TouchSwitch>();
    mm.add_entity_parser::<ClutterCabinet>();
    mm.add_entity_parser::<TheoCrystal>();
}

/// Registers a group of the entity kinds this library knows.
fn register_entities_4(mm: &mut MapManager)
    ensures
        final(mm).raw_map() == old(mm).raw_map(),
        final(mm).valid() == old(mm).valid(),
        forall|n: Seq<char>| #[trigger] final(mm).registers(n) == (old(mm).registers(n) || known_entity_name_4(n)),
{
    mm.add_entity_parser::<BlockField>();
    mm.add_entity_parser::<InvisibleBarrier>();
    mm.add_entity_parser::<TempleMirrorPortal>();
    mm.add_entity_parser::<TriggerSpikesRight>();
    mm.add_entity_parser::<BridgeFixed>();
    mm.add_entity_parser::<IntroCar>();
    mm.add_entity_parser::<ForegroundDebris>();
    mm.add_entity_parser::<OshiroDoor>();
    mm.add_entity_parser::<TheoCrystalHoldingBarrier>();
    mm.add_entity_parser::<TempleEye>();
    mm.add_entity_parser::<TheoCrystalPedestal>();
    mm.add_entity_parser::<FloatingDebris>();
    mm.add_entity_parser::<TriggerSpikesLeft>();
    mm.add_entity_parser::<KevinsPC>();
    mm.add_entity_parser::<SandwichLava>();
    mm.add_entity_parser::<Trapdoor>();
    mm.add_entity_parser::<SummitCloud>();
    mm.add_entity_parser::<FriendlyGhost>();
    mm.add_entity_parser::<FinalBossFallingBlock>();
    mm.add_entity_parser::<DreamMirror>();
    mm.add_entity_parser::<SeekerBarrier>();
    mm.add_entity_parser::<TempleBigEyeball>();
    mm.add_entity_parser::<ResortMirror>();
    mm.add_entity_parser::<WhiteBlock>();
    mm.add_entity_parser::<HangingLamp>();
}

/// Registers the entity kinds without attributes of their own.
pub fn add_unit_entity_parsers(mm: &mut MapManager)
    ensures
        final(mm).raw_map() == old(mm).raw_map(),
        final(mm).valid() == old(mm).valid(),
        forall|n: Seq<char>| #[trigger] final(mm).registers(n) == (old(mm).registers(n) || known_entity_name_3(n) || known_entity_name_4(n)),
{
    register_entities_3(mm);
    register_entities_4(mm);
}

/// Registers every entity kind this library knows.
pub fn add_entity_parsers(mm: &mut MapManager)
    ensures
        final(mm).raw_map() == old(mm).raw_map(),
        final(mm).valid() == old(mm).valid(),
        forall|n: Seq<char>| #[trigger] final(mm).registers(n) == (old(mm).registers(n) || known_entity_name(n)),
{
    register_entities_0(mm);
    register_entities_1(mm);
    register_entities_2(mm);
    add_unit_entity_parsers(mm);
}

/// Registers every trigger kind this library knows.
pub fn add_trigger_parsers(mm: &mut MapManager)
    ensures
        final(mm).raw_map() == old(mm).raw_map(),
        final(mm).valid() == old(mm).valid(),
        forall|n: Seq<char>| #[trigger] final(mm).registers(n) == (old(mm).registers(n) || known_trigger_name(n)),
{
    mm.add_trigger_parser::<LookoutBlocker>();
    mm.add_trigger_parser::<MusicTrigger>();
    mm.add_trigger_parser::<BirdPathTrigger>();
    mm.add_trigger_parser::<BlackholeStrength>();
    mm.add_trigger_parser::<CameraOffsetTrigger>();
    mm.add_trigger_parser::<ChangeRespawnTrigger>();
    mm.add_trigger_parser::<MiniTextboxTrigger>();
    mm.add_trigger_parser::<RespawnTargetTrigger>();
    mm.add_trigger_parser::<NoRefillTrigger>();
    mm.add_trigger_parser::<BloomFadeTrigger>();
    mm.add_trigger_parser::<CameraTargetTrigger>();
    mm.add_trigger_parser::<MusicFadeTrigger>();
    mm.add_trigger_parser::<GoldenBerryCollectTrigger>();
    mm.add_trigger_parser::<CameraAdvanceTargetTrigger>();
    mm.add_trigger_parser::<LightFadeTrigger>();
    mm.add_trigger_parser::<SpawnFacingTrigger>();
    mm.add_trigger_parser::<WindAttackTrigger>();
    mm.add_trigger_parser::<AmbienceParamTrigger>();
    mm.add_trigger_parser::<EventTrigger>();
    mm.add_trigger_parser::<DetachFollowersTrigger>();
    mm.add_trigger_parser::<CheckpointBlockerTrigger>();
    mm.add_trigger_parser::<AltMusicTrigger>();
    mm.add_trigger_parser::<WindTrigger>();
    mm.add_trigger_parser::<CreditsTrigger>();
    mm.add_trigger_parser::<RumbleTrigger>();
    mm.add_trigger_parser::<OshiroTrigger>();
    mm.add_trigger_parser::<MoonGlitchBackgroundTrigger>();
    mm.add_trigger_parser::<InteractTrigger>();
}

/// Whether `n` names one of the structural elements that
/// [MapManager::default_parsers] registers: all but [Node].
pub open spec fn default_structure_name(n: Seq<char>) -> bool {
    n == MapRoot::element_name()
        || n == Filler::element_name()
        || n == Rect::element_name()
        || n == Levels::element_name()
        || n == Level::element_name()
        || n == Styles::element_name()
        || n == Triggers::element_name()
        || n == FGTiles::element_name()
        || n == BGTiles::element_name()
        || n == FGDecals::element_name()
        || n == BGDecals::element_name()
        || n == Decal::element_name()
        || n == Background::element_name()
        || n == ObjTiles::element_name()
        || n == Solids::element_name()
        || n == Entities::element_name()
        || n == Backgrounds::element_name()
        || n == Foregrounds::element_name()
        || n == Parallax::element_name()
        || n == SnowBG::element_name()
        || n == SnowFG::element_name()
}

/// Whether `n` names one of the element kinds that
/// [MapManager::default_parsers] registers: every kind this library knows
/// apart from [Node].
pub open spec fn default_parser_name(n: Seq<char>) -> bool {
    default_structure_name(n) || known_entity_name(n) || known_trigger_name(n)
}

impl MapManager {
    /// Registers every element kind of this library, apart from [Node].
    pub fn default_parsers(&mut self)
        ensures
            final(self).raw_map() == old(self).raw_map(),
            final(self).valid() == old(self).valid(),
            forall|n: Seq<char>| #[trigger] final(self).registers(n) == (old(self).registers(n) || default_parser_name(n)),
    {
        self.add_parser::<MapRoot>();
        self.add_parser::<Filler>();
        self.add_parser::<Rect>();
        self.add_parser::<Levels>();
        self.add_parser::<Level>();
        self.add_parser::<Styles>();
        self.add_parser::<Triggers>();
        self.add_parser::<FGTiles>();
        self.add_parser::<BGTiles>();
        self.add_parser::<FGDecals>();
        self.add_parser::<BGDecals>();
        self.add_parser::<Decal>();
        self.add_parser::<Background>();
        self.add_parser::<ObjTiles>();
        self.add_parser::<Solids>();
        self.add_parser::<Entities>();
        self.add_parser::<Backgrounds>();
        self.add_parser::<Foregrounds>();
        self.add_parser::<Parallax>();
        self.add_parser::<SnowBG>();
        self.add_parser::<SnowFG>();
        add_entity_parsers(self);
        add_trigger_parsers(self);
    }
}

impl<'a> MapParser<'a> {
    /// What [MapParser::parse_any_element] makes of the child at `i`: where
    /// its kind is registered and known, a value of that kind; otherwise a copy
    /// of the raw child.
    pub open spec fn parsed_any(self, i: int, e: DynMapElement) -> bool {
        if self.registers(self.child_name(i)) && known_element_name(self.child_name(i)) {
            e.kind_name() == Some(self.child_name(i))
        } else {
            e matches DynMapElement::Raw(x) && element_view(x) == element_view(self.raw.children@[i])
        }
    }

    /// What [MapParser::parse_any_entity] makes of the child at `i`: where its
    /// kind is registered and is a known entity, an entity of that kind;
    /// otherwise a copy of the raw child.
    pub open spec fn parsed_entity(self, i: int, e: DynEntity) -> bool {
        if self.registers(self.child_name(i)) && known_entity_name(self.child_name(i)) {
            e matches DynEntity::Entity(x) && x.kind_name() == self.child_name(i)
        } else {
            e matches DynEntity::Raw(x) && element_view(x) == element_view(self.raw.children@[i])
        }
    }

    /// Parses all the children of the current element as [DynMapElement]s
    ///
    /// A child whose name is registered and names a kind this library knows is
    /// parsed into that kind; every other child is kept as a [RawMapElement].
    /// Where any child fails to parse, the errors of all of them are returned,
    /// each with the name of the child.
    pub fn parse_any_element(&self) -> (r: Result<Vec<DynMapElement>, MapElementParsingError>)
        requires
            self.valid(),
        ensures
            match r {
                Ok(v) => v@.len() == self.raw.children@.len() && forall|i: int|
                    0 <= i < v@.len() ==> self.parsed_any(i, #[trigger] v@[i]),
                Err(e) => e matches MapElementParsingError::MultiError { errors } && 0 < errors@.len()
                    <= self.raw.children@.len() && forall|k: int|
                    0 <= k < errors@.len() ==> self.registers(#[trigger] errors@[k].0@) && known_element_name(
                        errors@[k].0@,
                    ),
            },
            (forall|i: int|
                0 <= i < self.raw.children@.len() ==> !(self.registers(#[trigger] self.child_name(i))
                    && known_element_name(self.child_name(i)))) ==> r is Ok,
        decreases *self.raw, 1int,
    {
        let mut errors: Vec<(String, MapElementParsingError)> = Vec::new();
        let mut parsed: Vec<DynMapElement> = Vec::new();
        for i in 0..self.raw.children.len()
            invariant
                self.valid(),
                errors@.len() <= i,
                errors@.len() == 0 ==> parsed@.len() == i && forall|j: int|
                    0 <= j < i ==> self.parsed_any(j, #[trigger] parsed@[j]),
                forall|k: int|
                    0 <= k < errors@.len() ==> self.registers(#[trigger] errors@[k].0@) && known_element_name(
                        errors@[k].0@,
                    ),
                (forall|j: int|
                    0 <= j < i ==> !(self.registers(#[trigger] self.child_name(j)) && known_element_name(
                        self.child_name(j),
                    ))) ==> errors@.len() == 0,
        {
            proof {
                self.lemma_child_valid(i as int);
            }
            let name = self.raw.children[i].name.to_string(self.lookup);
            assert(name@ == self.child_name(i as int));
            let ghost before = parsed@;
            let ghost errors_before = errors@.len();
            if self.is_registered(name) {
                proof {
                    assert(decreases_to!(*self.raw => self.raw.children@[i as int]));
                }
                match parse_named(name, self.child_parser(i)) {
                    Some(Ok(e)) => parsed.push(e),
                    Some(Err(err)) => errors.push((name.to_owned(), err)),
                    None => parsed.push(DynMapElement::Raw(self.raw.children[i].duplicate())),
                }
            } else {
                parsed.push(DynMapElement::Raw(self.raw.children[i].duplicate()));
            }
            proof {
                if errors@.len() == 0 {
                    assert forall|j: int| 0 <= j < i implies self.parsed_any(j, #[trigger] parsed@[j]) by {
                        assert(parsed@[j] == before[j]);
                    }
                }
            }
        }
        if errors.len() == 0 {
            Ok(parsed)
        } else {
            Err(MapElementParsingError::MultiError { errors })
        }
    }

    /// Parses all the children of the current element as [DynEntity]s
    ///
    /// A child whose name is registered and names an entity kind this library
    /// knows is parsed into that kind; every other child is kept as a
    /// [RawMapElement]. Stops at the first error.
    pub fn parse_any_entity(&self) -> (r: Result<Vec<DynEntity>, MapElementParsingError>)
        requires
            self.valid(),
        ensures
            r matches Ok(v) ==> v@.len() == self.raw.children@.len() && forall|i: int|
                0 <= i < v@.len() ==> self.parsed_entity(i, #[trigger] v@[i]),
            (forall|i: int|
                0 <= i < self.raw.children@.len() ==> !(self.registers(#[trigger] self.child_name(i))
                    && known_entity_name(self.child_name(i)))) ==> r is Ok,
    {
        let mut parsed: Vec<DynEntity> = Vec::new();
        for i in 0..self.raw.children.len()
            invariant
                self.valid(),
                parsed@.len() == i,
                forall|j: int| 0 <= j < i ==> self.parsed_entity(j, #[trigger] parsed@[j]),
                (forall|j: int|
                    0 <= j < self.raw.children@.len() ==> !(self.registers(#[trigger] self.child_name(j))
                        && known_entity_name(self.child_name(j)))) ==> true,
        {
            proof {
                self.lemma_child_valid(i as int);
            }
            let name = self.raw.children[i].name.to_string(self.lookup);
            assert(name@ == self.child_name(i as int));
            let ghost before = parsed@;
            if self.is_registered(name) {
                match parse_entity_named(name, self.child_parser(i)) {
                    Some(Ok(e)) => parsed.push(DynEntity::Entity(e)),
                    Some(Err(err)) => {
                        assert(self.registers(self.child_name(i as int)) && known_entity_name(
                            self.child_name(i as int),
                        ));
                        return Err(err);
                    },
                    None => parsed.push(DynEntity::Raw(self.raw.children[i].duplicate())),
                }
            } else {
                parsed.push(DynEntity::Raw(self.raw.children[i].duplicate()));
            }
            proof {
                assert forall|j: int| 0 <= j < i implies self.parsed_entity(j, #[trigger] parsed@[j]) by {
                    assert(parsed@[j] == before[j]);
                }
            }
        }
        Ok(parsed)
    }

}


} // verus!

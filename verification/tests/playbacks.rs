use celeste_rs::playbacks::{Playback, PlaybackFacing, PlaybackReadError};
use celeste_rs::utils::binary::{BinReadError, BinWriter};

fn frame(w: &mut BinWriter, facing: i32, with_scale: bool) {
    w.write_u32(2.0f32.to_bits());
    w.write_u32(3.0f32.to_bits());
    w.write_u32(0.5f32.to_bits());
    w.write_string("idle");
    w.write_i32(facing);
    w.write_bool(true);
    w.write_u8(1);
    w.write_u8(2);
    w.write_u8(3);
    w.write_i32(-7);
    if with_scale {
        w.write_u32(0.75f32.to_bits());
        w.write_u32(1.0f32.to_bits());
        w.write_u32(0.0f32.to_bits());
        w.write_u32((-1.0f32).to_bits());
    }
}

#[test]
fn facing_numbers() {
    assert_eq!(PlaybackFacing::from_int(-1), Some(PlaybackFacing::Left));
    assert_eq!(PlaybackFacing::from_int(1), Some(PlaybackFacing::Right));
    assert_eq!(PlaybackFacing::from_int(0), None);
    assert_eq!(PlaybackFacing::Left.to_int(), -1);
    assert_eq!(PlaybackFacing::Right.to_int(), 1);
}

#[test]
fn timeline_playback_reads_scales() {
    let mut w = BinWriter::new();
    w.write_string("TIMELINE");
    w.write_i32(2);
    w.write_i32(1);
    frame(&mut w, 1, true);
    let bytes = w.finish();
    let p = Playback::from_bytes(&bytes).unwrap();
    assert_eq!(p.frames.len(), 1);
    let f = &p.frames[0];
    assert_eq!(f.position, [2.0f32.to_bits(), 3.0f32.to_bits()]);
    assert_eq!(f.timestamp, 0.5f32.to_bits());
    assert_eq!(f.animation, "idle");
    assert_eq!(f.facing, PlaybackFacing::Right);
    assert!(f.on_ground);
    assert_eq!(f.hair_color, [1, 2, 3]);
    assert_eq!(f.depth, -7);
    assert_eq!(f.scale, [0.75f32.to_bits(), 1.0f32.to_bits()]);
    assert_eq!(f.dash_direction, [0.0f32.to_bits(), (-1.0f32).to_bits()]);
}

#[test]
fn old_playback_takes_scale_from_facing() {
    let mut w = BinWriter::new();
    w.write_i32(2);
    frame(&mut w, -1, false);
    frame(&mut w, 1, false);
    let bytes = w.finish();
    let p = Playback::from_bytes(&bytes).unwrap();
    assert_eq!(p.frames.len(), 2);
    assert_eq!(p.frames[0].facing, PlaybackFacing::Left);
    assert_eq!(p.frames[0].scale, [(-1.0f32).to_bits(), 1.0f32.to_bits()]);
    assert_eq!(p.frames[1].scale, [1.0f32.to_bits(), 1.0f32.to_bits()]);
    assert_eq!(p.frames[1].dash_direction, [0, 0]);
}

#[test]
fn timeline_format_one_has_no_scales() {
    let mut w = BinWriter::new();
    w.write_string("TIMELINE");
    w.write_i32(1);
    w.write_i32(1);
    frame(&mut w, 1, false);
    let p = Playback::from_bytes(&w.finish()).unwrap();
    assert_eq!(p.frames[0].scale, [1.0f32.to_bits(), 1.0f32.to_bits()]);
}

#[test]
fn short_playback_is_an_error() {
    let mut w = BinWriter::new();
    w.write_i32(3);
    frame(&mut w, 1, false);
    let bytes = w.finish();
    assert!(matches!(
        Playback::from_bytes(&bytes),
        Err(PlaybackReadError::BinError(BinReadError::EndOfBuffer))
    ));
}

#[test]
fn negative_count_gives_no_frames() {
    let mut w = BinWriter::new();
    w.write_i32(-4);
    let p = Playback::from_bytes(&w.finish()).unwrap();
    assert!(p.frames.is_empty());
}

#[test]
fn facings_are_checked_before_reading() {
    let mut w = BinWriter::new();
    w.write_string("TIMELINE");
    w.write_i32(2);
    w.write_i32(2);
    frame(&mut w, 1, true);
    frame(&mut w, 0, true);
    let bad = w.finish();
    assert!(!Playback::facings_readable(&bad));
    let mut w = BinWriter::new();
    w.write_string("TIMELINE");
    w.write_i32(2);
    w.write_i32(1);
    frame(&mut w, -1, true);
    let good = w.finish();
    assert!(Playback::facings_readable(&good));
    assert!(Playback::facings_readable(&[]));
}

//! Playback tutorials: the recorded frames of the silhouette players in Farewell.
use vstd::prelude::*;

use crate::utils::binary::{le_value, string_read, BinReadError, BinReader};
use crate::utils::text::str_eq;

verus! {

/// A playback tutorial.
///
/// This is a list of frames that give the offset and actions
/// of the recorded player each frame.
pub struct Playback {
    pub frames: Vec<PlaybackFrame>,
}

/// A single frame of a [Playback]
///
/// The `f32` values of a frame are kept as their bit patterns.
pub struct PlaybackFrame {
    pub position: [u32; 2],
    pub timestamp: u32,
    pub animation: String,
    pub facing: PlaybackFacing,
    pub on_ground: bool,
    pub hair_color: [u8; 3],
    pub depth: i32,
    /// Is always 0 but including it since technically its there
    pub sounds: i32,
    pub scale: [u32; 2],
    pub dash_direction: [u32; 2],
}

/// Which way the recorded player faces: left is -1, right is 1.
#[derive(Clone, Copy, Debug, PartialEq, Eq, Structural)]
pub enum PlaybackFacing {
    Left,
    Right,
}

impl PlaybackFacing {
    /// The number that stands for the facing in a playback file.
    pub open spec fn int_of(self) -> i32 {
        match self {
            PlaybackFacing::Left => -1i32,
            PlaybackFacing::Right => 1i32,
        }
    }

    pub fn from_int(value: i32) -> (r: Option<PlaybackFacing>)
        ensures
            value == -1 ==> r == Some(PlaybackFacing::Left),
            value == 1 ==> r == Some(PlaybackFacing::Right),
            value != -1 && value != 1 ==> r is None,
            r matches Some(f) ==> f.int_of() == value,
    {
        if value == -1 {
            Some(PlaybackFacing::Left)
        } else if value == 1 {
            Some(PlaybackFacing::Right)
        } else {
            None
        }
    }

    /// The number that stands for the facing in a playback file.
    pub fn to_int(self) -> (r: i32)
        ensures
            r == self.int_of(),
    {
        match self {
            PlaybackFacing::Left => -1,
            PlaybackFacing::Right => 1,
        }
    }
}

#[derive(Debug)]
pub enum PlaybackReadError {
    BinError(BinReadError),
    IoError(std::io::Error),
}

// ---------------------------------------------------------------------------
// Reading
// ---------------------------------------------------------------------------

/// A 4-byte number from the front of `r`, and what follows it.
pub open spec fn u32_front(r: Seq<u8>) -> Result<(u32, Seq<u8>), BinReadError> {
    if r.len() >= 4 {
        Ok((le_value(r.subrange(0, 4)) as u32, r.subrange(4, r.len() as int)))
    } else {
        Err(BinReadError::EndOfBuffer)
    }
}

/// A signed 4-byte number from the front of `r`, and what follows it.
pub open spec fn i32_front(r: Seq<u8>) -> Result<(i32, Seq<u8>), BinReadError> {
    match u32_front(r) {
        Ok((v, t)) => Ok((v as i32, t)),
        Err(e) => Err(e),
    }
}

/// A byte from the front of `r`, and what follows it.
pub open spec fn u8_front(r: Seq<u8>) -> Result<(u8, Seq<u8>), BinReadError> {
    if r.len() >= 1 {
        Ok((r[0], r.subrange(1, r.len() as int)))
    } else {
        Err(BinReadError::EndOfBuffer)
    }
}

/// A bool (a byte that must be 0 or 1) from the front of `r`, and what follows it.
pub open spec fn bool_front(r: Seq<u8>) -> Result<(bool, Seq<u8>), BinReadError> {
    match u8_front(r) {
        Ok((b, t)) => if b > 1 {
            Err(BinReadError::InvalidBoolPattern(b))
        } else {
            Ok((b == 1, t))
        },
        Err(e) => Err(e),
    }
}

/// A varint-prefixed string from the front of `r`, and what follows it.
pub open spec fn string_front(r: Seq<u8>) -> Result<(Seq<char>, Seq<u8>), BinReadError> {
    match string_read(r).0 {
        Ok(s) => Ok((s, r.subrange(string_read(r).1 as int, r.len() as int))),
        Err(e) => Err(e),
    }
}

/// The value of a [PlaybackFrame].
pub struct FrameV {
    pub position: (u32, u32),
    pub timestamp: u32,
    pub animation: Seq<char>,
    pub facing: PlaybackFacing,
    pub on_ground: bool,
    pub hair_color: (u8, u8, u8),
    pub depth: i32,
    pub scale: (u32, u32),
    pub dash_direction: (u32, u32),
}

impl PlaybackFrame {
    /// The value of the frame.
    pub open spec fn value(self) -> FrameV {
        FrameV {
            position: (self.position@[0], self.position@[1]),
            timestamp: self.timestamp,
            animation: self.animation@,
            facing: self.facing,
            on_ground: self.on_ground,
            hair_color: (self.hair_color@[0], self.hair_color@[1], self.hair_color@[2]),
            depth: self.depth,
            scale: (self.scale@[0], self.scale@[1]),
            dash_direction: (self.dash_direction@[0], self.dash_direction@[1]),
        }
    }
}

/// Why reading a playback fails: the data, or a facing that is neither -1
/// nor 1 (which the reader does not accept).
pub enum PlaybackFailure {
    Bin(BinReadError),
    BadFacing(i32),
}

/// The bit pattern of the `f32` 1.0.
pub const ONE_BITS: u32 = 0x3F80_0000;

/// The bit pattern of the `f32` -1.0.
pub const MINUS_ONE_BITS: u32 = 0xBF80_0000;

/// The scale of an old-format frame: the facing as an x scale, 1 as the y scale.
pub open spec fn facing_scale(f: PlaybackFacing) -> (u32, u32) {
    match f {
        PlaybackFacing::Left => (MINUS_ONE_BITS, ONE_BITS),
        PlaybackFacing::Right => (ONE_BITS, ONE_BITS),
    }
}

/// Reading the part of a frame after its animation name.
pub open spec fn frame_tail(r: Seq<u8>, skip_scale: bool, head: (u32, u32, u32, Seq<char>)) -> Result<(FrameV, Seq<u8>), PlaybackFailure> {
    match i32_front(r) {
        Err(e) => Err(PlaybackFailure::Bin(e)),
        Ok((fv, r)) => if fv != -1 && fv != 1 {
            Err(PlaybackFailure::BadFacing(fv))
        } else {
            let facing = if fv == -1 { PlaybackFacing::Left } else { PlaybackFacing::Right };
            match bool_front(r) {
                Err(e) => Err(PlaybackFailure::Bin(e)),
                Ok((on_ground, r)) => match u8_front(r) {
                    Err(e) => Err(PlaybackFailure::Bin(e)),
                    Ok((h0, r)) => match u8_front(r) {
                        Err(e) => Err(PlaybackFailure::Bin(e)),
                        Ok((h1, r)) => match u8_front(r) {
                            Err(e) => Err(PlaybackFailure::Bin(e)),
                            Ok((h2, r)) => match i32_front(r) {
                                Err(e) => Err(PlaybackFailure::Bin(e)),
                                Ok((depth, r)) => {
                                    let frame = FrameV {
                                        position: (head.0, head.1),
                                        timestamp: head.2,
                                        animation: head.3,
                                        facing,
                                        on_ground,
                                        hair_color: (h0, h1, h2),
                                        depth,
                                        scale: facing_scale(facing),
                                        dash_direction: (0, 0),
                                    };
                                    if skip_scale {
                                        Ok((frame, r))
                                    } else {
                                        match u32_front(r) {
                                            Err(e) => Err(PlaybackFailure::Bin(e)),
                                            Ok((s0, r)) => match u32_front(r) {
                                                Err(e) => Err(PlaybackFailure::Bin(e)),
                                                Ok((s1, r)) => match u32_front(r) {
                                                    Err(e) => Err(PlaybackFailure::Bin(e)),
                                                    Ok((d0, r)) => match u32_front(r) {
                                                        Err(e) => Err(PlaybackFailure::Bin(e)),
                                                        Ok((d1, r)) => Ok(
                                                            (
                                                                FrameV {
                                                                    scale: (s0, s1),
                                                                    dash_direction: (d0, d1),
                                                                    ..frame
                                                                },
                                                                r,
                                                            ),
                                                        ),
                                                    },
                                                },
                                            },
                                        }
                                    }
                                },
                            },
                        },
                    },
                },
            }
        },
    }
}

/// Reading one frame: position, timestamp, animation name, facing, whether
/// on ground, hair color and depth, then (in the newer format) scale and
/// dash direction; the older format has a scale from the facing and no dash.
#[verifier::opaque]
pub open spec fn frame_read(r: Seq<u8>, skip_scale: bool) -> Result<(FrameV, Seq<u8>), PlaybackFailure> {
    match u32_front(r) {
        Err(e) => Err(PlaybackFailure::Bin(e)),
        Ok((x, r)) => match u32_front(r) {
            Err(e) => Err(PlaybackFailure::Bin(e)),
            Ok((y, r)) => match u32_front(r) {
                Err(e) => Err(PlaybackFailure::Bin(e)),
                Ok((t, r)) => match string_front(r) {
                    Err(e) => Err(PlaybackFailure::Bin(e)),
                    Ok((a, r)) => frame_tail(r, skip_scale, (x, y, t, a)),
                },
            },
        },
    }
}

/// Reading `n` frames one after another.
pub open spec fn frames_read(r: Seq<u8>, n: nat, skip_scale: bool) -> Result<Seq<FrameV>, PlaybackFailure>
    decreases n,
{
    if n == 0 {
        Ok(Seq::empty())
    } else {
        match frame_read(r, skip_scale) {
            Err(e) => Err(e),
            Ok((f, rest)) => match frames_read(rest, (n - 1) as nat, skip_scale) {
                Ok(t) => Ok(seq![f] + t),
                Err(e) => Err(e),
            },
        }
    }
}

/// The header of the newer playback format.
pub open spec fn timeline() -> Seq<char> {
    seq!['T', 'I', 'M', 'E', 'L', 'I', 'N', 'E']
}

/// Reading a playback: an optional "TIMELINE" header followed by a format
/// number (1 for the older format without scales), then a frame count and
/// the frames. Without the header, reading starts over from the first byte.
pub open spec fn playback_read(r: Seq<u8>) -> Result<Seq<FrameV>, PlaybackFailure> {
    match playback_start(r) {
        Err(e) => Err(PlaybackFailure::Bin(e)),
        Ok((rest, skip_scale)) => match i32_front(rest) {
            Err(e) => Err(PlaybackFailure::Bin(e)),
            Ok((n, rest)) => frames_read(rest, if n > 0 { n as nat } else { 0 }, skip_scale),
        },
    }
}

/// A cursor whose unread bytes were `r` before and are `t` after.
pub open spec fn advanced(before: BinReader, after: BinReader, t: Seq<u8>) -> bool {
    &&& after.data() == before.data()
    &&& after.rest() == t
}

proof fn lemma_rest_skip(data: Seq<u8>, pos: nat, n: nat)
    requires
        pos + n <= data.len(),
    ensures
        data.subrange(pos as int, data.len() as int).subrange(n as int, (data.len() - pos) as int) == data.subrange(
            (pos + n) as int,
            data.len() as int,
        ),
        data.subrange(pos as int, data.len() as int).subrange(0, n as int) == data.subrange(
            pos as int,
            (pos + n) as int,
        ),
{
    assert(data.subrange(pos as int, data.len() as int).subrange(n as int, (data.len() - pos) as int) =~= data.subrange(
        (pos + n) as int,
        data.len() as int,
    ));
    assert(data.subrange(pos as int, data.len() as int).subrange(0, n as int) =~= data.subrange(
        pos as int,
        (pos + n) as int,
    ));
}

fn take_u32(r: &mut BinReader) -> (res: Result<u32, BinReadError>)
    ensures
        final(r).data() == old(r).data(),
        match u32_front(old(r).rest()) {
            Ok((v, t)) => res == Ok::<u32, BinReadError>(v) && final(r).rest() == t,
            Err(e) => res == Err::<u32, BinReadError>(e),
        },
{
    proof {
        r.lemma_pos_bound();
        if r.pos() + 4 <= r.data().len() {
            lemma_rest_skip(r.data(), r.pos(), 4);
        }
    }
    r.read_u32()
}

fn take_i32(r: &mut BinReader) -> (res: Result<i32, BinReadError>)
    ensures
        final(r).data() == old(r).data(),
        match i32_front(old(r).rest()) {
            Ok((v, t)) => res == Ok::<i32, BinReadError>(v) && final(r).rest() == t,
            Err(e) => res == Err::<i32, BinReadError>(e),
        },
{
    let v = take_u32(r)?;
    proof {
        assert((v as i32) as u32 == v) by (bit_vector);
    }
    Ok(v as i32)
}

fn take_u8(r: &mut BinReader) -> (res: Result<u8, BinReadError>)
    ensures
        final(r).data() == old(r).data(),
        match u8_front(old(r).rest()) {
            Ok((v, t)) => res == Ok::<u8, BinReadError>(v) && final(r).rest() == t,
            Err(e) => res == Err::<u8, BinReadError>(e),
        },
{
    proof {
        r.lemma_pos_bound();
        if r.pos() + 1 <= r.data().len() {
            lemma_rest_skip(r.data(), r.pos(), 1);
        }
    }
    r.read_u8()
}

fn take_bool(r: &mut BinReader) -> (res: Result<bool, BinReadError>)
    ensures
        final(r).data() == old(r).data(),
        match bool_front(old(r).rest()) {
            Ok((v, t)) => res == Ok::<bool, BinReadError>(v) && final(r).rest() == t,
            Err(e) => res == Err::<bool, BinReadError>(e),
        },
{
    proof {
        r.lemma_pos_bound();
        if r.pos() + 1 <= r.data().len() {
            lemma_rest_skip(r.data(), r.pos(), 1);
        }
    }
    r.read_bool()
}

fn take_string(r: &mut BinReader) -> (res: Result<String, BinReadError>)
    ensures
        final(r).data() == old(r).data(),
        match string_front(old(r).rest()) {
            Ok((v, t)) => res matches Ok(s) && s@ == v && final(r).rest() == t,
            Err(e) => res == Err::<String, BinReadError>(e),
        },
{
    proof {
        r.lemma_pos_bound();
    }
    let ghost n = string_read(r.rest()).1;
    let res = r.read_string();
    proof {
        if res is Ok {
            lemma_rest_skip(old(r).data(), old(r).pos(), n);
        }
    }
    res
}

impl PlaybackFrame {
    /// Reads one frame; `skip_scale` marks the older format without scale
    /// and dash direction.
    fn from_reader(reader: &mut BinReader, skip_scale: bool) -> (res: Result<Self, PlaybackFailure>)
        ensures
            final(reader).data() == old(reader).data(),
            match frame_read(old(reader).rest(), skip_scale) {
                Ok((f, t)) => res matches Ok(x) && x.value() == f && final(reader).rest() == t,
                Err(e) => res == Err::<Self, PlaybackFailure>(e),
            },
    {
        proof {
            reveal(frame_read);
        }
        let x = match take_u32(reader) {
            Ok(v) => v,
            Err(e) => return Err(PlaybackFailure::Bin(e)),
        };
        let y = match take_u32(reader) {
            Ok(v) => v,
            Err(e) => return Err(PlaybackFailure::Bin(e)),
        };
        let timestamp = match take_u32(reader) {
            Ok(v) => v,
            Err(e) => return Err(PlaybackFailure::Bin(e)),
        };
        let animation = match take_string(reader) {
            Ok(v) => v,
            Err(e) => return Err(PlaybackFailure::Bin(e)),
        };
        let fv = match take_i32(reader) {
            Ok(v) => v,
            Err(e) => return Err(PlaybackFailure::Bin(e)),
        };
        let facing = match PlaybackFacing::from_int(fv) {
            Some(f) => f,
            None => {
                return Err(PlaybackFailure::BadFacing(fv));
            },
        };
        let on_ground = match take_bool(reader) {
            Ok(v) => v,
            Err(e) => return Err(PlaybackFailure::Bin(e)),
        };
        let h0 = match take_u8(reader) {
            Ok(v) => v,
            Err(e) => return Err(PlaybackFailure::Bin(e)),
        };
        let h1 = match take_u8(reader) {
            Ok(v) => v,
            Err(e) => return Err(PlaybackFailure::Bin(e)),
        };
        let h2 = match take_u8(reader) {
            Ok(v) => v,
            Err(e) => return Err(PlaybackFailure::Bin(e)),
        };
        let depth = match take_i32(reader) {
            Ok(v) => v,
            Err(e) => return Err(PlaybackFailure::Bin(e)),
        };
        let scale;
        let dash_direction;
        if skip_scale {
            scale = match facing {
                PlaybackFacing::Left => [MINUS_ONE_BITS, ONE_BITS],
                PlaybackFacing::Right => [ONE_BITS, ONE_BITS],
            };
            dash_direction = [0u32, 0u32];
        } else {
            let s0 = match take_u32(reader) {
                Ok(v) => v,
                Err(e) => return Err(PlaybackFailure::Bin(e)),
            };
            let s1 = match take_u32(reader) {
                Ok(v) => v,
                Err(e) => return Err(PlaybackFailure::Bin(e)),
            };
            let d0 = match take_u32(reader) {
                Ok(v) => v,
                Err(e) => return Err(PlaybackFailure::Bin(e)),
            };
            let d1 = match take_u32(reader) {
                Ok(v) => v,
                Err(e) => return Err(PlaybackFailure::Bin(e)),
            };
            scale = [s0, s1];
            dash_direction = [d0, d1];
        }
        Ok(
            PlaybackFrame {
                position: [x, y],
                timestamp,
                animation,
                facing,
                on_ground,
                hair_color: [h0, h1, h2],
                depth,
                sounds: 0,
                scale,
                dash_direction,
            },
        )
    }
}

/// The values of a list of frames.
pub open spec fn frames_value(s: Seq<PlaybackFrame>) -> Seq<FrameV> {
    s.map_values(|f: PlaybackFrame| f.value())
}

/// Where the frame count of a playback starts, and whether the frames are in
/// the older format.
pub open spec fn playback_start(r: Seq<u8>) -> Result<(Seq<u8>, bool), BinReadError> {
    match string_front(r) {
        Ok((h, rest)) => if h == timeline() {
            match i32_front(rest) {
                Ok((v, rest)) => Ok((rest, v == 1)),
                Err(e) => Err(e),
            }
        } else {
            Ok((r, true))
        },
        Err(_) => Ok((r, true)),
    }
}

/// Reads the optional header; the result says whether the frames are in the
/// older format.
fn read_header(reader: &mut BinReader) -> (res: Result<bool, BinReadError>)
    requires
        old(reader).pos() == 0,
    ensures
        final(reader).data() == old(reader).data(),
        match playback_start(old(reader).rest()) {
            Ok((rest, skip)) => res == Ok::<bool, BinReadError>(skip) && final(reader).rest() == rest,
            Err(e) => res == Err::<bool, BinReadError>(e),
        },
{
    let ghost r0 = reader.rest();
    proof {
        reveal_strlit("TIMELINE");
        assert("TIMELINE"@ =~= timeline());
    }
    let header = take_string(reader);
    let is_timeline = match &header {
        Ok(h) => str_eq(h.as_str(), "TIMELINE"),
        Err(_) => false,
    };
    if is_timeline {
        let v = take_i32(reader)?;
        Ok(v == 1)
    } else {
        reader.restart();
        proof {
            assert(reader.rest() =~= r0);
        }
        Ok(true)
    }
}

/// Reads `count` frames (none when `count` is not positive).
fn read_frames(reader: &mut BinReader, count: i32, skip_scale: bool) -> (res: Result<Vec<PlaybackFrame>, PlaybackFailure>)
    ensures
        match frames_read(old(reader).rest(), if count > 0 { count as nat } else { 0 }, skip_scale) {
            Ok(frames) => res matches Ok(v) && frames_value(v@) == frames,
            Err(e) => res == Err::<Vec<PlaybackFrame>, PlaybackFailure>(e),
        },
{
    let ghost total: nat = if count > 0 { count as nat } else { 0 };
    let ghost whole = frames_read(reader.rest(), total, skip_scale);
    let mut buf: Vec<PlaybackFrame> = Vec::new();
    let mut i: i32 = 0;
    proof {
        if whole is Ok {
            assert(frames_value(buf@) + whole->Ok_0 =~= whole->Ok_0);
        }
    }
    while i < count
        invariant
            0 <= i,
            count < 0 ==> i == 0,
            count >= 0 ==> i <= count,
            total == if count > 0 { count as nat } else { 0 },
            whole == frames_read(old(reader).rest(), total, skip_scale),
            match whole {
                Ok(all) => frames_read(reader.rest(), (total - i) as nat, skip_scale) matches Ok(t) && all
                    == frames_value(buf@) + t,
                Err(e) => frames_read(reader.rest(), (total - i) as nat, skip_scale) == Err::<
                    Seq<FrameV>,
                    PlaybackFailure,
                >(e),
            },
        decreases count - i,
    {
        let ghost bufv = frames_value(buf@);
        let ghost before = reader.rest();
        proof {
            assert((total - i) as nat > 0);
            assert(frames_read(before, (total - i) as nat, skip_scale) == match frame_read(before, skip_scale) {
                Err(e) => Err(e),
                Ok((f, rest)) => match frames_read(rest, (total - i - 1) as nat, skip_scale) {
                    Ok(t) => Ok(seq![f] + t),
                    Err(e) => Err(e),
                },
            });
        }
        let f = match PlaybackFrame::from_reader(reader, skip_scale) {
            Ok(f) => f,
            Err(e) => {
                proof {
                    assert(frame_read(before, skip_scale) == Err::<(FrameV, Seq<u8>), PlaybackFailure>(e));
                    assert(frames_read(before, (total - i) as nat, skip_scale) == Err::<Seq<FrameV>, PlaybackFailure>(e));
                    assert(whole == Err::<Seq<FrameV>, PlaybackFailure>(e));
                    assert(whole == frames_read(old(reader).rest(), total, skip_scale));
                }
                return Err(e);
            },
        };
        proof {
            assert(frames_value(buf@.push(f)) =~= bufv.push(f.value()));
            let t = frames_read(reader.rest(), (total - i - 1) as nat, skip_scale);
            if t is Ok {
                assert(bufv + (seq![f.value()] + t->Ok_0) =~= bufv.push(f.value()) + t->Ok_0);
            }
        }
        buf.push(f);
        i = i + 1;
    }
    proof {
        if whole is Ok {
            assert(frames_value(buf@) + Seq::<FrameV>::empty() =~= frames_value(buf@));
        }
    }
    Ok(buf)
}

impl Playback {
    /// Reads a [Playback] from binary data
    pub fn from_bytes(bytes: &[u8]) -> (res: Result<Self, PlaybackReadError>)
        requires
            bytes@.len() > 0,
            !(playback_read(bytes@) is Err && playback_read(bytes@)->Err_0 is BadFacing),
        ensures
            match playback_read(bytes@) {
                Ok(frames) => res matches Ok(p) && frames_value(p.frames@) == frames,
                Err(PlaybackFailure::Bin(e)) => res matches Err(PlaybackReadError::BinError(x)) && x == e,
                Err(PlaybackFailure::BadFacing(_)) => false,
            },
    {
        let mut reader = BinReader::new(bytes);
        proof {
            assert(reader.rest() =~= bytes@);
        }
        let skip_scale = match read_header(&mut reader) {
            Ok(s) => s,
            Err(e) => {
                return Err(PlaybackReadError::BinError(e));
            },
        };
        let frames = match take_i32(&mut reader) {
            Ok(n) => n,
            Err(e) => {
                return Err(PlaybackReadError::BinError(e));
            },
        };
        match read_frames(&mut reader, frames, skip_scale) {
            Ok(buf) => Ok(Playback { frames: buf }),
            Err(PlaybackFailure::Bin(e)) => Err(PlaybackReadError::BinError(e)),
            Err(PlaybackFailure::BadFacing(_)) => Err(PlaybackReadError::BinError(BinReadError::EndOfBuffer)),
        }
    }

    /// Whether every frame that reading `bytes` as a playback meets has a
    /// facing of -1 or 1, the condition [Playback::from_bytes] needs.
    pub fn facings_readable(bytes: &[u8]) -> (r: bool)
        ensures
            r == !(playback_read(bytes@) is Err && playback_read(bytes@)->Err_0 is BadFacing),
    {
        if bytes.len() == 0 {
            proof {
                assert(playback_start(bytes@) == Ok::<(Seq<u8>, bool), BinReadError>((bytes@, true)));
            }
            return true;
        }
        let mut reader = BinReader::new(bytes);
        proof {
            assert(reader.rest() =~= bytes@);
        }
        let skip_scale = match read_header(&mut reader) {
            Ok(s) => s,
            Err(_) => {
                return true;
            },
        };
        let frames = match take_i32(&mut reader) {
            Ok(n) => n,
            Err(_) => {
                return true;
            },
        };
        match read_frames(&mut reader, frames, skip_scale) {
            Err(PlaybackFailure::BadFacing(_)) => false,
            _ => true,
        }
    }
}

} // verus!

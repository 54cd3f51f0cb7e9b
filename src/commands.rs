//! The controller's commands, the layouts of their payloads, and the
//! decoding of its replies.

use vstd::prelude::*;
use vstd::slice::slice_subrange;
use vstd::utf8::{valid_utf8, decode_utf8};
use crate::wire::{be32, be32_at, push_be32, read_be32};

verus! {

/// Largest payload, header included, of one transfer to the controller.
pub const MAX_TRANSFER: u32 = 61440;

/// Encoded length of an `Area`.
pub const AREA_LEN: usize = 20;

/// Encoded length of a `DisplayArea`.
pub const DISPLAY_AREA_LEN: usize = 28;

/// Encoded length of a `SystemInfo`.
pub const SYSTEM_INFO_LEN: usize = 112;

/// Length of the reply to an inquiry.
pub const INQUIRY_LEN: usize = 40;

/// Waveform mode of a panel refresh. The order gives the number that the
/// controller uses for each mode.
#[allow(non_camel_case_types)]
#[derive(Clone, Copy, PartialEq, Eq, Debug, Structural)]
pub enum Mode {
    /// Blank screen.
    INIT,
    DU,
    /// Partial update, greyscale.
    GC16,
    GL16,
    GLR16,
    GLD16,
    DU4,
    A2,
    /// A mode of unknown meaning that some panels report.
    __UNKNOWN1,
}

/// The number of `m` on the wire.
pub open spec fn mode_number(m: Mode) -> u32 {
    match m {
        Mode::INIT => 0,
        Mode::DU => 1,
        Mode::GC16 => 2,
        Mode::GL16 => 3,
        Mode::GLR16 => 4,
        Mode::GLD16 => 5,
        Mode::DU4 => 6,
        Mode::A2 => 7,
        Mode::__UNKNOWN1 => 8,
    }
}

/// The mode whose number is `n`, if any.
pub open spec fn mode_of(n: u32) -> Option<Mode> {
    if n == 0 {
        Some(Mode::INIT)
    } else if n == 1 {
        Some(Mode::DU)
    } else if n == 2 {
        Some(Mode::GC16)
    } else if n == 3 {
        Some(Mode::GL16)
    } else if n == 4 {
        Some(Mode::GLR16)
    } else if n == 5 {
        Some(Mode::GLD16)
    } else if n == 6 {
        Some(Mode::DU4)
    } else if n == 7 {
        Some(Mode::A2)
    } else if n == 8 {
        Some(Mode::__UNKNOWN1)
    } else {
        None
    }
}

/// The name of `m`.
pub open spec fn mode_name(m: Mode) -> Seq<char> {
    match m {
        Mode::INIT => "INIT"@,
        Mode::DU => "DU"@,
        Mode::GC16 => "GC16"@,
        Mode::GL16 => "GL16"@,
        Mode::GLR16 => "GLR16"@,
        Mode::GLD16 => "GLD16"@,
        Mode::DU4 => "DU4"@,
        Mode::A2 => "A2"@,
        Mode::__UNKNOWN1 => "__UNKNOWN1"@,
    }
}

impl Mode {
    /// The number of this mode on the wire.
    pub fn number(&self) -> (r: u32)
        ensures
            r == mode_number(*self),
    {
        match self {
            Mode::INIT => 0,
            Mode::DU => 1,
            Mode::GC16 => 2,
            Mode::GL16 => 3,
            Mode::GLR16 => 4,
            Mode::GLD16 => 5,
            Mode::DU4 => 6,
            Mode::A2 => 7,
            Mode::__UNKNOWN1 => 8,
        }
    }

    /// The mode whose number is `n`, if any.
    pub fn from_number(n: u32) -> (r: Option<Mode>)
        ensures
            r == mode_of(n),
    {
        match n {
            0 => Some(Mode::INIT),
            1 => Some(Mode::DU),
            2 => Some(Mode::GC16),
            3 => Some(Mode::GL16),
            4 => Some(Mode::GLR16),
            5 => Some(Mode::GLD16),
            6 => Some(Mode::DU4),
            7 => Some(Mode::A2),
            8 => Some(Mode::__UNKNOWN1),
            _ => None,
        }
    }

    /// The name of this mode.
    pub fn name(&self) -> (r: &'static str)
        ensures
            r@ == mode_name(*self),
    {
        proof {
            reveal_strlit("INIT");
            reveal_strlit("DU");
            reveal_strlit("GC16");
            reveal_strlit("GL16");
            reveal_strlit("GLR16");
            reveal_strlit("GLD16");
            reveal_strlit("DU4");
            reveal_strlit("A2");
            reveal_strlit("__UNKNOWN1");
        }
        match self {
            Mode::INIT => "INIT",
            Mode::DU => "DU",
            Mode::GC16 => "GC16",
            Mode::GL16 => "GL16",
            Mode::GLR16 => "GLR16",
            Mode::GLD16 => "GLD16",
            Mode::DU4 => "DU4",
            Mode::A2 => "A2",
            Mode::__UNKNOWN1 => "__UNKNOWN1",
        }
    }
}

/// The commands that the controller takes.
#[derive(Clone, Copy, PartialEq, Eq, Debug, Structural)]
pub enum Command {
    /// Standard inquiry.
    Inquiry,
    /// Read the panel's system information.
    GetSystemInfo,
    /// Load pixels into an area of the image buffer.
    LoadImageArea,
    /// Refresh an area of the panel from the image buffer.
    DisplayArea,
}

/// The 16 command bytes of `c`.
pub open spec fn command_bytes(c: Command) -> Seq<u8> {
    match c {
        Command::Inquiry => seq![0x12u8, 0, 0, 0, 0, 0, 0, 0, 0, 0, 0, 0, 0, 0, 0, 0],
        Command::GetSystemInfo => seq![
            0xfeu8,
            0,
            0x38,
            0x39,
            0x35,
            0x31,
            0x80,
            0,
            0x01,
            0,
            0x02,
            0,
            0,
            0,
            0,
            0,
        ],
        Command::LoadImageArea => seq![0xfeu8, 0, 0, 0, 0, 0, 0xa2, 0, 0, 0, 0, 0, 0, 0, 0, 0],
        Command::DisplayArea => seq![0xfeu8, 0, 0, 0, 0, 0, 0x94, 0, 0, 0, 0, 0, 0, 0, 0, 0],
    }
}

impl Command {
    /// The 16 bytes that carry this command.
    pub fn bytes(&self) -> (r: [u8; 16])
        ensures
            r@ == command_bytes(*self),
    {
        let r: [u8; 16] = match self {
            Command::Inquiry => [0x12, 0, 0, 0, 0, 0, 0, 0, 0, 0, 0, 0, 0, 0, 0, 0],
            Command::GetSystemInfo => [
                0xfe,
                0,
                0x38,
                0x39,
                0x35,
                0x31,
                0x80,
                0,
                0x01,
                0,
                0x02,
                0,
                0,
                0,
                0,
                0,
            ],
            Command::LoadImageArea => [0xfe, 0, 0, 0, 0, 0, 0xa2, 0, 0, 0, 0, 0, 0, 0, 0, 0],
            Command::DisplayArea => [0xfe, 0, 0, 0, 0, 0, 0x94, 0, 0, 0, 0, 0, 0, 0, 0, 0],
        };
        assert(r@ =~= command_bytes(*self));
        r
    }
}

/// A rectangle of the image buffer at `address`, the target of a load.
#[derive(Clone, Copy, PartialEq, Eq, Debug, Structural)]
pub struct Area {
    pub address: u32,
    pub x: u32,
    pub y: u32,
    pub w: u32,
    pub h: u32,
}

/// The encoding of `a`: its five fields big-endian.
pub open spec fn area_bytes(a: Area) -> Seq<u8> {
    be32(a.address) + be32(a.x) + be32(a.y) + be32(a.w) + be32(a.h)
}

impl Area {
    /// The encoding of this area.
    pub fn to_bytes(&self) -> (r: Vec<u8>)
        ensures
            r@ == area_bytes(*self),
    {
        let mut out: Vec<u8> = Vec::with_capacity(AREA_LEN);
        push_be32(&mut out, self.address);
        push_be32(&mut out, self.x);
        push_be32(&mut out, self.y);
        push_be32(&mut out, self.w);
        push_be32(&mut out, self.h);
        assert(out@ =~= area_bytes(*self));
        out
    }
}

/// A rectangle of the panel to refresh from the image buffer at `address`.
#[derive(Clone, Copy, PartialEq, Eq, Debug, Structural)]
pub struct DisplayArea {
    pub address: u32,
    pub display_mode: Mode,
    pub x: u32,
    pub y: u32,
    pub w: u32,
    pub h: u32,
    /// 1 to have the controller wait until the panel is ready.
    pub wait_ready: u32,
}

/// The encoding of `d`: its seven fields big-endian, the mode by its number.
pub open spec fn display_area_bytes(d: DisplayArea) -> Seq<u8> {
    be32(d.address) + be32(mode_number(d.display_mode)) + be32(d.x) + be32(d.y) + be32(d.w)
        + be32(d.h) + be32(d.wait_ready)
}

impl DisplayArea {
    /// The encoding of this display area.
    pub fn to_bytes(&self) -> (r: Vec<u8>)
        ensures
            r@ == display_area_bytes(*self),
    {
        let mut out: Vec<u8> = Vec::with_capacity(DISPLAY_AREA_LEN);
        push_be32(&mut out, self.address);
        push_be32(&mut out, self.display_mode.number());
        push_be32(&mut out, self.x);
        push_be32(&mut out, self.y);
        push_be32(&mut out, self.w);
        push_be32(&mut out, self.h);
        push_be32(&mut out, self.wait_ready);
        assert(out@ =~= display_area_bytes(*self));
        out
    }
}

/// Why a reply of the controller could not be decoded.
#[derive(Clone, Copy, PartialEq, Eq, Debug, Structural)]
pub enum DecodeError {
    /// The reply has another length than its layout.
    SizeMismatch,
    /// The reply names a mode that has no number.
    UnknownMode,
    /// A text field is not UTF-8.
    NotUtf8,
}

/// System information of the panel, as the controller reports it.
#[derive(Clone, Copy, PartialEq, Eq, Debug)]
pub struct SystemInfo {
    pub standard_cmd_no: u32,
    pub extended_cmd_no: u32,
    pub signature: u32,
    /// Command table version.
    pub version: u32,
    /// Panel width.
    pub width: u32,
    /// Panel height.
    pub height: u32,
    pub update_buf_base: u32,
    pub image_buffer_base: u32,
    pub temperature_no: u32,
    /// Display mode.
    pub mode: Mode,
    pub frame_count: [u32; 8],
    pub num_img_buf: u32,
    pub reserved: [u32; 9],
}

/// Whether `s` is a reply to the system information command that decodes:
/// 112 bytes whose mode field holds a mode's number.
pub open spec fn system_info_decodes(s: Seq<u8>) -> bool {
    s.len() == SYSTEM_INFO_LEN && mode_of(be32_at(s, 36)) is Some
}

/// Whether `info` is what `s` holds: 28 big-endian words in the order of the
/// fields, the eight frame counts at byte 40 and the nine reserved words at
/// byte 76.
pub open spec fn system_info_of(s: Seq<u8>, info: SystemInfo) -> bool {
    &&& info.standard_cmd_no == be32_at(s, 0)
    &&& info.extended_cmd_no == be32_at(s, 4)
    &&& info.signature == be32_at(s, 8)
    &&& info.version == be32_at(s, 12)
    &&& info.width == be32_at(s, 16)
    &&& info.height == be32_at(s, 20)
    &&& info.update_buf_base == be32_at(s, 24)
    &&& info.image_buffer_base == be32_at(s, 28)
    &&& info.temperature_no == be32_at(s, 32)
    &&& mode_of(be32_at(s, 36)) == Some(info.mode)
    &&& info.frame_count@ == Seq::new(8, |k: int| be32_at(s, 40 + 4 * k))
    &&& info.num_img_buf == be32_at(s, 72)
    &&& info.reserved@ == Seq::new(9, |k: int| be32_at(s, 76 + 4 * k))
}

impl SystemInfo {
    /// Decodes the reply to the system information command.
    pub fn decode(bytes: &[u8]) -> (r: Result<SystemInfo, DecodeError>)
        ensures
            bytes@.len() != SYSTEM_INFO_LEN <==> r == Err::<SystemInfo, DecodeError>(
                DecodeError::SizeMismatch,
            ),
            r == Err::<SystemInfo, DecodeError>(DecodeError::UnknownMode) <==> (bytes@.len()
                == SYSTEM_INFO_LEN && !system_info_decodes(bytes@)),
            r is Ok <==> system_info_decodes(bytes@),
            r matches Ok(info) ==> system_info_of(bytes@, info),
    {
        if bytes.len() != SYSTEM_INFO_LEN {
            return Err(DecodeError::SizeMismatch);
        }
        let mode = match Mode::from_number(read_be32(bytes, 36)) {
            Some(m) => m,
            None => {
                return Err(DecodeError::UnknownMode);
            },
        };
        let frame_count: [u32; 8] = [
            read_be32(bytes, 40),
            read_be32(bytes, 44),
            read_be32(bytes, 48),
            read_be32(bytes, 52),
            read_be32(bytes, 56),
            read_be32(bytes, 60),
            read_be32(bytes, 64),
            read_be32(bytes, 68),
        ];
        let reserved: [u32; 9] = [
            read_be32(bytes, 76),
            read_be32(bytes, 80),
            read_be32(bytes, 84),
            read_be32(bytes, 88),
            read_be32(bytes, 92),
            read_be32(bytes, 96),
            read_be32(bytes, 100),
            read_be32(bytes, 104),
            read_be32(bytes, 108),
        ];
        assert(frame_count@ =~= Seq::new(8, |k: int| be32_at(bytes@, 40 + 4 * k)));
        assert(reserved@ =~= Seq::new(9, |k: int| be32_at(bytes@, 76 + 4 * k)));
        Ok(
            SystemInfo {
                standard_cmd_no: read_be32(bytes, 0),
                extended_cmd_no: read_be32(bytes, 4),
                signature: read_be32(bytes, 8),
                version: read_be32(bytes, 12),
                width: read_be32(bytes, 16),
                height: read_be32(bytes, 20),
                update_buf_base: read_be32(bytes, 24),
                image_buffer_base: read_be32(bytes, 28),
                temperature_no: read_be32(bytes, 32),
                mode,
                frame_count,
                num_img_buf: read_be32(bytes, 72),
                reserved,
            },
        )
    }
}

/// Relies on `String::from_utf8`: it succeeds exactly on valid UTF-8, and the
/// string then holds the characters that the bytes encode.
#[verifier::external_body]
fn utf8_string(bytes: &[u8]) -> (r: Option<String>)
    ensures
        r is Some <==> valid_utf8(bytes@),
        r matches Some(s) ==> s@ == decode_utf8(bytes@),
{
    String::from_utf8(bytes.to_vec()).ok()
}

/// What the device says of itself in reply to an inquiry.
pub struct Inquiry {
    pub vendor: String,
    pub product: String,
    pub revision: String,
}

/// Whether the text fields of an inquiry reply are UTF-8: the vendor at bytes
/// 8 to 16, the product at 16 to 32 and the revision at 32 to 36.
pub open spec fn inquiry_text_valid(s: Seq<u8>) -> bool {
    &&& valid_utf8(s.subrange(8, 16))
    &&& valid_utf8(s.subrange(16, 32))
    &&& valid_utf8(s.subrange(32, 36))
}

impl Inquiry {
    /// Decodes the 40-byte reply to an inquiry.
    pub fn decode(bytes: &[u8]) -> (r: Result<Inquiry, DecodeError>)
        ensures
            bytes@.len() != INQUIRY_LEN <==> r matches Err(DecodeError::SizeMismatch),
            r matches Err(DecodeError::NotUtf8) <==> (bytes@.len() == INQUIRY_LEN
                && !inquiry_text_valid(bytes@)),
            r is Ok <==> (bytes@.len() == INQUIRY_LEN && inquiry_text_valid(bytes@)),
            r matches Ok(i) ==> {
                &&& i.vendor@ == decode_utf8(bytes@.subrange(8, 16))
                &&& i.product@ == decode_utf8(bytes@.subrange(16, 32))
                &&& i.revision@ == decode_utf8(bytes@.subrange(32, 36))
            },
    {
        if bytes.len() != INQUIRY_LEN {
            return Err(DecodeError::SizeMismatch);
        }
        let vendor = utf8_string(slice_subrange(bytes, 8, 16));
        let product = utf8_string(slice_subrange(bytes, 16, 32));
        let revision = utf8_string(slice_subrange(bytes, 32, 36));
        match (vendor, product, revision) {
            (Some(vendor), Some(product), Some(revision)) => Ok(Inquiry { vendor, product, revision }),
            _ => Err(DecodeError::NotUtf8),
        }
    }
}

} // verus!

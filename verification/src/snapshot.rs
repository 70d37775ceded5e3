//! The full image of the canvas as one frame.

use crate::board::{rgb_bytes, Canvas, Cell};
use vstd::prelude::*;

verus! {

/// The opcode of a frame that carries the full image.
pub const OP_SNAPSHOT: u8 = 0xfb;

/// What `zstd::encode_all` makes of `data` at `level`: a zstd frame, or
/// nothing where the encoder reports an error.
pub uninterp spec fn zstd_frame(data: Seq<u8>, level: i32) -> Option<Seq<u8>>;

/// Whether the encoder makes a frame of `data` at `level`.
pub open spec fn zstd_encodes(data: Seq<u8>, level: i32) -> bool {
    zstd_frame(data, level) is Some
}

/// The bytes of a buffer that may be missing.
pub open spec fn bytes_view(bytes: Option<Vec<u8>>) -> Option<Seq<u8>> {
    match bytes {
        Some(b) => Some(b@),
        None => None,
    }
}

/// `zstd::encode_all` on a slice: the whole of `data` compressed at `level`
/// into one zstd frame, or nothing where the encoder reports an error. The
/// encoder is given the bytes and the level and nothing else, so what comes
/// back, and whether anything does, depends on those two alone.
#[verifier::external_body]
fn compress(data: &[u8], level: i32) -> (out: Option<Vec<u8>>)
    ensures
        bytes_view(out) == zstd_frame(data@, level),
{
    zstd::encode_all(data, level).ok()
}

/// The frame that carries a compressed image: the opcode, then the image.
pub open spec fn snapshot_of(compressed: Seq<u8>) -> Seq<u8> {
    seq![OP_SNAPSHOT] + compressed
}

/// The frame that carries the cells as they are: their raw image compressed
/// at `level`, with the opcode in front; nothing where the encoder gives
/// nothing.
pub open spec fn board_frame(cells: Seq<Cell>, level: i32) -> Option<Seq<u8>> {
    match zstd_frame(rgb_bytes(cells), level) {
        Some(image) => Some(snapshot_of(image)),
        None => None,
    }
}

/// Puts the opcode in front of a compressed image.
pub fn snapshot_frame(compressed: Vec<u8>) -> (frame: Vec<u8>)
    ensures
        frame@ == snapshot_of(compressed@),
{
    let mut frame: Vec<u8> = compressed;
    frame.insert(0, OP_SNAPSHOT);
    frame
}

/// The raw image of the canvas, three bytes per cell in lexicographic order
/// of `(x, y)`, compressed at `level`: what the encoder makes of it, and
/// nothing exactly where the encoder gives nothing.
pub fn compress_board(board: &Canvas, level: i32) -> (compressed: Option<Vec<u8>>)
    ensures
        bytes_view(compressed) == zstd_frame(rgb_bytes(board@), level),
{
    let raw: Vec<u8> = board.rgb();
    compress(raw.as_slice(), level)
}

/// The frame that carries the canvas as it is now: the opcode, then its
/// raw image compressed at `level`. A frame comes back exactly where the
/// encoder makes one of the raw image.
pub fn encode_board(board: &Canvas, level: i32) -> (frame: Option<Vec<u8>>)
    ensures
        frame is Some <==> zstd_encodes(rgb_bytes(board@), level),
        bytes_view(frame) == board_frame(board@, level),
{
    match compress_board(board, level) {
        Some(compressed) => Some(snapshot_frame(compressed)),
        None => None,
    }
}

} // verus!

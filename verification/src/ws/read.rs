//! What a connection does with a frame from its client.
//!
//! A frame is an opcode and a payload. Three things that a frame can ask
//! for are not decided here: whether a token is good (the signature and the
//! clock decide), what time it is, and what the compressed image looks
//! like. [`Outside`] names those three answers, and [`frame_step`] says what
//! follows from them.

use crate::actions::PaintAction;
use crate::board::{lemma_index_in_grid, rgb_bytes, Cell};
use crate::consts::Config;
use crate::hub::publish;
use crate::pace::{paced, prior_in, Pace};
use crate::pixel::{le_u16, pixel_record, Pixel};
use crate::snapshot::{
    board_frame, bytes_view, compress_board, encode_board, snapshot_frame, snapshot_of,
    zstd_encodes, zstd_frame,
};
use crate::state::{AppState, Core};
use crate::time::{local_now, Moment, TimeOfDay, Timestamp};
use crate::token::{token_user, verify_token};
use crate::ws::{WsState, OP_AUTH, OP_AUTH_FAIL, OP_AUTH_OK, OP_BOARD, OP_PAINT, OP_PONG};
use vstd::prelude::*;
use vstd::slice::slice_subrange;
use vstd::utf8::valid_utf8;

verus! {

/// What arrived from the client.
#[derive(Clone, Debug, PartialEq, Eq)]
pub enum Incoming {
    /// The stream of the client has ended.
    End,
    /// A message could not be received.
    Error,
    /// The client closed the connection.
    Close,
    /// A message with these bytes.
    Data(Vec<u8>),
}

/// What the server has to do after a frame.
#[derive(Clone, Debug, PartialEq, Eq)]
pub struct ReadOutcome {
    /// Whether the connection is over.
    pub exit: bool,
    /// The frame to send to the client, if any.
    pub reply: Option<Vec<u8>>,
    /// The paint that was handed to the hub, if any.
    pub delta: Option<Pixel>,
}

/// The answers that come from outside while a frame is handled.
pub struct Outside {
    /// The user that the token names, where the frame carries a token and
    /// the token is good.
    pub verdict: Option<i32>,
    /// The reading of the clock.
    pub now: Moment,
    /// The compressed image, where the encoder gave one.
    pub compressed: Option<Seq<u8>>,
}

/// Everything that one frame brings about.
pub struct Step {
    /// The canvas, the pace table and the log after the frame.
    pub core: Core,
    /// The state of the connection after the frame.
    pub ws: WsState,
    /// Whether the connection is over.
    pub exit: bool,
    /// The frame to send to the client, if any.
    pub reply: Option<Seq<u8>>,
    /// The paint that goes to the hub, if any.
    pub delta: Option<Pixel>,
}

/// The pixel that a paint payload asks for on a canvas of `width` by
/// `height` cells: the payload is seven bytes long and names a coordinate
/// of the canvas.
pub open spec fn paint_of(data: Seq<u8>, width: u16, height: u16) -> Option<Pixel> {
    if data.len() == 7 && le_u16(data[0], data[1]) < width && le_u16(data[2], data[3]) < height {
        Some(
            Pixel {
                x: le_u16(data[0], data[1]) as u16,
                y: le_u16(data[2], data[3]) as u16,
                color: (data[4], data[5], data[6]),
            },
        )
    } else {
        None
    }
}

/// The record of a pixel is read back as that pixel exactly where the pixel
/// lies on the canvas: a coordinate equal to the width or the height is
/// refused, one less is accepted.
pub proof fn lemma_paint_of_record(p: Pixel, width: u16, height: u16)
    ensures
        paint_of(pixel_record(p), width, height) == (if p.x < width && p.y < height {
            Some(p)
        } else {
            None
        }),
{
}

/// A payload of any other length than seven asks for no pixel.
pub proof fn lemma_paint_needs_seven_bytes(data: Seq<u8>, width: u16, height: u16)
    requires
        data.len() != 7,
    ensures
        paint_of(data, width, height) is None,
{
}

/// Reads a paint payload.
pub fn parse_paint(data: &[u8], width: u16, height: u16) -> (pixel: Option<Pixel>)
    ensures
        pixel == paint_of(data@, width, height),
{
    if data.len() != 7 {
        return None;
    }
    let x: u16 = data[0] as u16 + 256 * (data[1] as u16);
    if x >= width {
        return None;
    }
    let y: u16 = data[2] as u16 + 256 * (data[3] as u16);
    if y >= height {
        return None;
    }
    Some(Pixel { x, y, color: (data[4], data[5], data[6]) })
}

/// How a paint fares at the door.
#[derive(Clone, Copy, Debug, PartialEq, Eq)]
pub enum Verdict {
    /// It comes outside the hours in which painting is allowed.
    OutsideWindow,
    /// It comes too soon after the user's last paint.
    TooFast,
    /// It is admitted.
    Accepted,
}

/// How a paint of `uid` at `now` fares: the hours are checked first, then
/// the pace.
pub open spec fn verdict_of(
    config: Config,
    pace: Map<i32, Timestamp>,
    uid: i32,
    now: Moment,
) -> Verdict {
    if config.window is Some && !config.window->0.admits(now.time_of_day) {
        Verdict::OutsideWindow
    } else if !paced(prior_in(pace, uid), now.stamp, config.min_interval_ms) {
        Verdict::TooFast
    } else {
        Verdict::Accepted
    }
}

/// The cell that a paint leaves behind.
pub open spec fn painted_cell(pixel: Pixel, uid: i32, now: Moment) -> Cell {
    Cell { color: pixel.color, uid, time: now.stamp }
}

/// The entry that a paint leaves in the log.
pub open spec fn logged(pixel: Pixel, uid: i32, now: Moment) -> PaintAction {
    PaintAction { x: pixel.x, y: pixel.y, color: pixel.color, uid, time: now.stamp }
}

/// What a paint of `uid` brings about. Outside the hours it counts as a
/// frame that broke the protocol. Too fast, it counts as a fast paint and
/// nothing else changes. Admitted, its time is recorded, the cell is
/// overwritten, one entry is added to the log, and the pixel goes to the
/// hub exactly where the colour of the cell changes; the connection itself
/// stays as it is.
pub open spec fn admission(
    core: Core,
    config: Config,
    ws: WsState,
    uid: i32,
    pixel: Pixel,
    now: Moment,
) -> Step {
    let at = pixel.x * config.height + pixel.y;
    match verdict_of(config, core.pace, uid, now) {
        Verdict::OutsideWindow => Step {
            core,
            ws: ws.struck(),
            exit: false,
            reply: None,
            delta: None,
        },
        Verdict::TooFast => Step { core, ws: ws.hurried(), exit: false, reply: None, delta: None },
        Verdict::Accepted => Step {
            core: Core {
                board: core.board.update(at, painted_cell(pixel, uid, now)),
                pace: core.pace.insert(uid, now.stamp),
                log: core.log.push(logged(pixel, uid, now)),
            },
            ws,
            exit: false,
            reply: None,
            delta: if core.board[at].color != pixel.color {
                Some(pixel)
            } else {
                None
            },
        },
    }
}

/// An admitted paint leaves the connection as it was, both counts of
/// strikes among the rest. It leaves exactly one entry in the log, with its
/// place, colour, user and time, overwrites its cell, and records its time
/// for the user. It goes to the hub where it changes the colour of the cell,
/// and only there: a paint in the colour that the cell has is logged and
/// not published.
pub proof fn lemma_admitted_paint(
    core: Core,
    config: Config,
    ws: WsState,
    uid: i32,
    pixel: Pixel,
    now: Moment,
)
    requires
        verdict_of(config, core.pace, uid, now) == Verdict::Accepted,
        pixel.x < config.width,
        pixel.y < config.height,
        core.board.len() == config.width * config.height,
    ensures
        ({
            let step = admission(core, config, ws, uid, pixel, now);
            let at = pixel.x * config.height + pixel.y;
            &&& step.ws == ws
            &&& step.core.log == core.log.push(logged(pixel, uid, now))
            &&& step.core.log.len() == core.log.len() + 1
            &&& step.core.board.len() == core.board.len()
            &&& step.core.board[at] == painted_cell(pixel, uid, now)
            &&& forall|i: int| 0 <= i < core.board.len() && i != at ==> step.core.board[i] == core.board[i]
            &&& prior_in(step.core.pace, uid) == Some(now.stamp)
            &&& step.delta == (if core.board[at].color != pixel.color {
                Some(pixel)
            } else {
                None
            })
        }),
{
    lemma_index_in_grid(
        pixel.x as int,
        pixel.y as int,
        config.width as int,
        config.height as int,
    );
}

/// A paint that is not admitted leaves the canvas, the pace table and the
/// log as they were, and nothing goes to the hub.
pub proof fn lemma_refused_paint(
    core: Core,
    config: Config,
    ws: WsState,
    uid: i32,
    pixel: Pixel,
    now: Moment,
)
    requires
        verdict_of(config, core.pace, uid, now) != Verdict::Accepted,
    ensures
        admission(core, config, ws, uid, pixel, now).core == core,
        admission(core, config, ws, uid, pixel, now).delta is None,
{
}

/// A step that changes nothing.
pub open spec fn idle(core: Core, ws: WsState) -> Step {
    Step { core, ws, exit: false, reply: None, delta: None }
}

/// A step that counts one frame that broke the protocol.
pub open spec fn strike(core: Core, ws: WsState) -> Step {
    Step { core, ws: ws.struck(), exit: false, reply: None, delta: None }
}

/// A step that closes the connection.
pub open spec fn hang_up(core: Core, ws: WsState) -> Step {
    Step { core, ws: ws.shut(), exit: true, reply: None, delta: None }
}

/// What a connection that is over does with anything: nothing.
pub open spec fn ignored(core: Core, ws: WsState) -> Step {
    Step { core, ws, exit: true, reply: None, delta: None }
}

/// What a paint payload brings about at `now`. A connection that is over
/// ignores it; one without a user, or a payload that asks for no pixel of
/// the canvas, counts as a frame that broke the protocol.
pub open spec fn paint_step(core: Core, config: Config, ws: WsState, data: Seq<u8>, now: Moment) -> Step {
    if ws.terminal() {
        ignored(core, ws)
    } else if ws.uid is None {
        strike(core, ws)
    } else {
        match paint_of(data, config.width, config.height) {
            None => strike(core, ws),
            Some(pixel) => admission(core, config, ws, ws.uid->0, pixel, now),
        }
    }
}

/// What a token brings about, given the user it names: a connection
/// without a user takes the user and answers that the token was accepted;
/// where the token names nobody it answers that the token was refused and
/// counts a frame that broke the protocol. A connection that has a user
/// counts the frame as one that broke the protocol.
pub open spec fn auth_step(core: Core, ws: WsState, verdict: Option<i32>) -> Step {
    if ws.uid is Some {
        strike(core, ws)
    } else {
        match verdict {
            Some(uid) => Step {
                core,
                ws: WsState { uid: Some(uid), ..ws },
                exit: false,
                reply: Some(seq![OP_AUTH_OK]),
                delta: None,
            },
            None => Step {
                core,
                ws: ws.struck(),
                exit: false,
                reply: Some(seq![OP_AUTH_FAIL]),
                delta: None,
            },
        }
    }
}

/// What a request for the full image brings about, given the compressed
/// image: the first request of a connection with a user is answered with
/// the image, and from then on paints are forwarded; a second request closes
/// the connection, and so does an encoder that gave nothing. Without a user
/// the request counts as a frame that broke the protocol.
pub open spec fn board_step(core: Core, ws: WsState, compressed: Option<Seq<u8>>) -> Step {
    if ws.uid is None {
        strike(core, ws)
    } else if ws.snapshot_sent {
        hang_up(core, ws)
    } else {
        match compressed {
            Some(image) => Step {
                core,
                ws: WsState { snapshot_sent: true, ..ws },
                exit: false,
                reply: Some(snapshot_of(image)),
                delta: None,
            },
            None => hang_up(core, ws),
        }
    }
}

/// What a pong brings about: the wait for it is over. Without a user it
/// counts as a frame that broke the protocol.
pub open spec fn pong_step(core: Core, ws: WsState) -> Step {
    if ws.uid is None {
        strike(core, ws)
    } else {
        Step { core, ws: WsState { pong_pending: false, ..ws }, exit: false, reply: None, delta: None }
    }
}

/// What a frame brings about. A connection that is over ignores it. An
/// empty frame changes nothing. Otherwise the first byte says what the rest
/// is; a byte that is no opcode counts as a frame that broke the protocol.
pub open spec fn frame_step(core: Core, config: Config, ws: WsState, frame: Seq<u8>, world: Outside) -> Step {
    if ws.terminal() {
        ignored(core, ws)
    } else if frame.len() == 0 {
        idle(core, ws)
    } else if frame[0] == OP_AUTH {
        auth_step(core, ws, world.verdict)
    } else if frame[0] == OP_PAINT {
        paint_step(core, config, ws, frame.subrange(1, frame.len() as int), world.now)
    } else if frame[0] == OP_BOARD {
        board_step(core, ws, world.compressed)
    } else if frame[0] == OP_PONG {
        pong_step(core, ws)
    } else {
        strike(core, ws)
    }
}

/// What anything that arrives from the client brings about: the end of the
/// stream and a close end the connection, a message that could not be
/// received changes nothing, and a message is handled as a frame.
pub open spec fn read_step(core: Core, config: Config, ws: WsState, msg: Incoming, world: Outside) -> Step {
    match msg {
        Incoming::End => hang_up(core, ws),
        Incoming::Close => hang_up(core, ws),
        Incoming::Error => if ws.terminal() {
            ignored(core, ws)
        } else {
            idle(core, ws)
        },
        Incoming::Data(bytes) => frame_step(core, config, ws, bytes@, world),
    }
}

/// A token that the check accepts for a user makes a connection without a
/// user the connection of that user: it is answered that the token was
/// accepted, no strike is counted, and nothing else changes.
pub proof fn lemma_good_token_is_accepted(
    core: Core,
    config: Config,
    ws: WsState,
    frame: Seq<u8>,
    world: Outside,
    uid: i32,
)
    requires
        !ws.terminal(),
        ws.uid is None,
        frame.len() > 0,
        frame[0] == OP_AUTH,
        world.verdict == Some(uid),
    ensures
        frame_step(core, config, ws, frame, world) == (Step {
            core,
            ws: WsState { uid: Some(uid), ..ws },
            exit: false,
            reply: Some(seq![OP_AUTH_OK]),
            delta: None,
        }),
        !frame_step(core, config, ws, frame, world).ws.terminal(),
{
}

/// The first request for the full image of a connection with a user is
/// answered with the image exactly where the encoder makes one of the
/// canvas: the answer is the opcode and the compressed raw image, the
/// connection is live from then on, and nothing else changes. Where the
/// encoder makes none, the connection is closed.
pub proof fn lemma_first_request_gets_the_image(
    core: Core,
    config: Config,
    ws: WsState,
    frame: Seq<u8>,
    world: Outside,
)
    requires
        !ws.terminal(),
        ws.uid is Some,
        !ws.snapshot_sent,
        frame.len() > 0,
        frame[0] == OP_BOARD,
        frame_answers(world, core, config, frame),
    ensures
        ({
            let step = frame_step(core, config, ws, frame, world);
            let raw = rgb_bytes(core.board);
            &&& step.core == core
            &&& step.delta is None
            &&& step.reply == board_frame(core.board, config.snapshot_level)
            &&& zstd_encodes(raw, config.snapshot_level) ==> {
                &&& step.ws == (WsState { snapshot_sent: true, ..ws })
                &&& step.ws.live()
                &&& !step.exit
                &&& step.reply == Some(
                    snapshot_of(zstd_frame(raw, config.snapshot_level)->0),
                )
            }
            &&& !zstd_encodes(raw, config.snapshot_level) ==> {
                &&& step.ws == ws.shut()
                &&& step.exit
            }
        }),
{
}

/// A connection that is over stays as it is, whatever arrives: nothing is
/// painted, nothing is answered, nothing goes to the hub.
pub proof fn lemma_over_is_final(
    core: Core,
    config: Config,
    ws: WsState,
    msg: Incoming,
    world: Outside,
)
    requires
        ws.terminal(),
    ensures
        ({
            let step = read_step(core, config, ws, msg, world);
            &&& step.exit
            &&& step.ws.terminal()
            &&& step.core == core
            &&& step.reply is None
            &&& step.delta is None
            &&& msg is Data || msg is Error ==> step.ws == ws
        }),
{
}

/// A connection keeps its user, and keeps the mark that it was sent the
/// full image.
pub proof fn lemma_user_is_kept(
    core: Core,
    config: Config,
    ws: WsState,
    msg: Incoming,
    world: Outside,
)
    ensures
        ({
            let step = read_step(core, config, ws, msg, world);
            &&& ws.uid is Some ==> step.ws.uid == ws.uid
            &&& ws.snapshot_sent ==> step.ws.snapshot_sent
        }),
{
}

/// Only a paint changes the canvas, the pace table or the log, and only a
/// paint goes to the hub.
pub proof fn lemma_only_paint_changes_the_canvas(
    core: Core,
    config: Config,
    ws: WsState,
    frame: Seq<u8>,
    world: Outside,
)
    requires
        frame.len() == 0 || frame[0] != OP_PAINT,
    ensures
        frame_step(core, config, ws, frame, world).core == core,
        frame_step(core, config, ws, frame, world).delta is None,
{
}

/// A frame that breaks the protocol ends the connection: a first byte that
/// is no opcode, and anything but a token from a connection without a
/// user.
pub proof fn lemma_trash_ends_the_connection(
    core: Core,
    config: Config,
    ws: WsState,
    frame: Seq<u8>,
    world: Outside,
)
    requires
        !ws.terminal(),
        frame.len() > 0,
        (frame[0] != OP_AUTH && frame[0] != OP_PAINT && frame[0] != OP_BOARD && frame[0]
            != OP_PONG) || (ws.uid is None && frame[0] != OP_AUTH),
    ensures
        frame_step(core, config, ws, frame, world).ws == ws.struck(),
        frame_step(core, config, ws, frame, world).ws.terminal(),
        frame_step(core, config, ws, frame, world).core == core,
        frame_step(core, config, ws, frame, world).reply is None,
{
}

/// What is known of the answers from outside while `frame` is handled:
/// bytes that are not valid UTF-8 are no good token, and the compressed
/// image is what the encoder makes of the raw image of the canvas, there
/// exactly where the encoder makes anything of it.
pub open spec fn frame_answers(world: Outside, core: Core, config: Config, frame: Seq<u8>) -> bool {
    &&& (frame.len() > 0 && !valid_utf8(frame.subrange(1, frame.len() as int)))
        ==> world.verdict is None
    &&& world.compressed == zstd_frame(rgb_bytes(core.board), config.snapshot_level)
}

/// What is known of the answers from outside while `msg` is handled.
pub open spec fn answers(world: Outside, core: Core, config: Config, msg: Incoming) -> bool {
    match msg {
        Incoming::Data(bytes) => frame_answers(world, core, config, bytes@),
        _ => true,
    }
}

/// Whether the state after a frame, and the answer to the server, are what
/// `step` says.
pub open spec fn told(step: Step, core: Core, ws: WsState, out: ReadOutcome) -> bool {
    &&& core == step.core
    &&& ws == step.ws
    &&& out.exit == step.exit
    &&& out.delta == step.delta
    &&& match out.reply {
        Some(frame) => step.reply == Some(frame@),
        None => step.reply is None,
    }
}

/// Checks a token against the key of the server and names its user. Bytes
/// that are not valid UTF-8 are no token. For the rest the signature and
/// the clock decide whether the claims of the token are let through;
/// whatever they decide, the user is what [`token_user`] makes of it.
///
/// The check reads the system clock. It panics where that clock stands
/// before the Unix epoch, and its arithmetic overflows within the first
/// minute after it.
pub fn handle_auth(state: &AppState, data: &[u8]) -> (user: Option<i32>)
    ensures
        !valid_utf8(data@) ==> user is None,
        exists|checked: Option<serde_json::Value>|
            user == #[trigger] token_user(valid_utf8(data@), checked),
{
    verify_token(&state.pubkey, data)
}

/// The frame that carries the canvas as it is now: the opcode, then the
/// raw image of the canvas compressed at the level that the settings name.
/// A frame comes back exactly where the encoder makes one of the raw image.
pub fn get_board(state: &AppState) -> (frame: Option<Vec<u8>>)
    ensures
        frame is Some <==> zstd_encodes(rgb_bytes(state@.board), state.config.snapshot_level),
        bytes_view(frame) == board_frame(state@.board, state.config.snapshot_level),
{
    encode_board(&state.board, state.config.snapshot_level)
}

/// Takes the verdict on a token: see [`auth_step`]. A connection without a
/// user takes the user that the verdict names and is answered that the
/// token was accepted; where the verdict names nobody it is answered that
/// the token was refused, and a strike is counted. A connection that has a
/// user gets a strike, whatever the verdict.
pub fn auth_at(ws_state: &mut WsState, verdict: Option<i32>) -> (out: ReadOutcome)
    ensures
        forall|core: Core|
            told(
                #[trigger] auth_step(core, *old(ws_state), verdict),
                core,
                *final(ws_state),
                out,
            ),
{
    if ws_state.uid.is_some() {
        ws_state.strike();
        return ReadOutcome { exit: false, reply: None, delta: None };
    }
    match verdict {
        Some(uid) => {
            ws_state.uid = Some(uid);
            let reply: Vec<u8> = vec![OP_AUTH_OK];
            assert(reply@ =~= seq![OP_AUTH_OK]);
            ReadOutcome { exit: false, reply: Some(reply), delta: None }
        },
        None => {
            ws_state.strike();
            let reply: Vec<u8> = vec![OP_AUTH_FAIL];
            assert(reply@ =~= seq![OP_AUTH_FAIL]);
            ReadOutcome { exit: false, reply: Some(reply), delta: None }
        },
    }
}

/// Takes the compressed image that a request for the full image led to: see
/// [`board_step`]. The first request of a connection with a user is
/// answered with the opcode and the image, and from then on paints are
/// forwarded; a second request closes the connection, and so does a
/// missing image. Without a user the request is a strike.
pub fn board_at(ws_state: &mut WsState, compressed: Option<Vec<u8>>) -> (out: ReadOutcome)
    ensures
        forall|core: Core|
            told(
                #[trigger] board_step(core, *old(ws_state), bytes_view(compressed)),
                core,
                *final(ws_state),
                out,
            ),
{
    if ws_state.uid.is_none() {
        ws_state.strike();
        return ReadOutcome { exit: false, reply: None, delta: None };
    }
    if ws_state.snapshot_sent {
        ws_state.close();
        return ReadOutcome { exit: true, reply: None, delta: None };
    }
    match compressed {
        Some(image) => {
            ws_state.snapshot_sent = true;
            ReadOutcome { exit: false, reply: Some(snapshot_frame(image)), delta: None }
        },
        None => {
            ws_state.close();
            ReadOutcome { exit: true, reply: None, delta: None }
        },
    }
}

/// Lets one paint of the connection's user through the door, or not: see
/// [`admission`]. The pixel that the answer names was handed to the hub.
pub fn admit_paint(state: &mut AppState, ws_state: &mut WsState, pixel: Pixel, now: Moment) -> (delta:
    Option<Pixel>)
    requires
        old(state).wf(),
        old(ws_state).uid is Some,
        pixel.x < old(state).config.width,
        pixel.y < old(state).config.height,
    ensures
        final(state).wf(),
        final(state).same_frame(old(state)),
        told(
            admission(
                old(state)@,
                old(state).config,
                *old(ws_state),
                old(ws_state).uid->0,
                pixel,
                now,
            ),
            final(state)@,
            *final(ws_state),
            ReadOutcome { exit: false, reply: None, delta },
        ),
{
    let uid: i32 = match ws_state.uid {
        Some(uid) => uid,
        None => 0,
    };
    let inside: bool = match state.config.window {
        Some(window) => window.contains(&now.time_of_day),
        None => true,
    };
    if !inside {
        ws_state.strike();
        return None;
    }
    match state.user_paint.check_and_mark(uid, now.stamp, state.config.min_interval_ms) {
        Pace::TooFast => {
            ws_state.hurry();
            return None;
        },
        Pace::Admit => {},
    }
    let cell: Cell = Cell { color: pixel.color, uid, time: now.stamp };
    let colors: ((u8, u8, u8), (u8, u8, u8)) = state.board.compare_and_set(pixel.x, pixel.y, cell);
    state.actions.append(
        PaintAction { x: pixel.x, y: pixel.y, color: pixel.color, uid, time: now.stamp },
    );
    let prev: (u8, u8, u8) = colors.0;
    let same: bool = prev.0 == pixel.color.0 && prev.1 == pixel.color.1 && prev.2 == pixel.color.2;
    if same {
        None
    } else {
        publish(&state.sender, pixel);
        Some(pixel)
    }
}

/// Handles a paint payload as of `now`: see [`paint_step`]. The pixel that
/// the answer names was handed to the hub.
pub fn handle_paint_at(state: &mut AppState, ws_state: &mut WsState, data: &[u8], now: Moment) -> (delta:
    Option<Pixel>)
    requires
        old(state).wf(),
    ensures
        final(state).wf(),
        final(state).same_frame(old(state)),
        told(
            paint_step(old(state)@, old(state).config, *old(ws_state), data@, now),
            final(state)@,
            *final(ws_state),
            ReadOutcome { exit: old(ws_state).terminal(), reply: None, delta },
        ),
{
    if ws_state.is_terminal() {
        return None;
    }
    if ws_state.uid.is_none() {
        ws_state.strike();
        return None;
    }
    match parse_paint(data, state.config.width, state.config.height) {
        None => {
            ws_state.strike();
            None
        },
        Some(pixel) => admit_paint(state, ws_state, pixel, now),
    }
}

/// Handles a paint payload as of the time that the system clock shows.
/// Whatever the clock shows, what follows is what [`paint_step`] says for
/// that time.
pub fn handle_paint(state: &mut AppState, ws_state: &mut WsState, data: &[u8]) -> (delta: Option<
    Pixel,
>)
    requires
        old(state).wf(),
    ensures
        final(state).wf(),
        final(state).same_frame(old(state)),
        exists|now: Moment|
            told(
                #[trigger] paint_step(old(state)@, old(state).config, *old(ws_state), data@, now),
                final(state)@,
                *final(ws_state),
                ReadOutcome { exit: old(ws_state).terminal(), reply: None, delta },
            ),
{
    let now: Moment = local_now();
    handle_paint_at(state, ws_state, data, now)
}

/// Handles one frame from the client: see [`frame_step`]. Whatever the
/// token check, the clock and the encoder answer, what follows is what
/// [`frame_step`] says for those answers.
pub fn handle_frame(state: &mut AppState, ws_state: &mut WsState, frame: &[u8]) -> (out: ReadOutcome)
    requires
        old(state).wf(),
    ensures
        final(state).wf(),
        final(state).same_frame(old(state)),
        exists|world: Outside|
            frame_answers(world, old(state)@, old(state).config, frame@) && told(
                #[trigger] frame_step(old(state)@, old(state).config, *old(ws_state), frame@, world),
                final(state)@,
                *final(ws_state),
                out,
            ),
{
    let ghost core = state@;
    let ghost config = state.config;
    let ghost ws = *ws_state;
    let ghost quiet = Outside {
        verdict: None,
        now: Moment {
            stamp: Timestamp { secs: 0, nanos: 0 },
            time_of_day: TimeOfDay { secs: 0, nanos: 0 },
        },
        compressed: zstd_frame(rgb_bytes(core.board), config.snapshot_level),
    };
    let ghost mut world = quiet;
    let out: ReadOutcome = if ws_state.is_terminal() {
        ReadOutcome { exit: true, reply: None, delta: None }
    } else if frame.len() == 0 {
        ReadOutcome { exit: false, reply: None, delta: None }
    } else {
        let opt: u8 = frame[0];
        let data: &[u8] = slice_subrange(frame, 1, frame.len());
        if opt == OP_AUTH {
            let verdict: Option<i32> = if ws_state.uid.is_none() {
                handle_auth(state, data)
            } else {
                None
            };
            proof {
                world = Outside { verdict, ..quiet };
            }
            let out: ReadOutcome = auth_at(ws_state, verdict);
            assert(told(auth_step(core, ws, verdict), core, *ws_state, out));
            out
        } else if opt == OP_PAINT {
            let now: Moment = local_now();
            proof {
                world = Outside { now, ..quiet };
            }
            let delta: Option<Pixel> = handle_paint_at(state, ws_state, data, now);
            ReadOutcome { exit: false, reply: None, delta }
        } else if opt == OP_BOARD {
            let compressed: Option<Vec<u8>> = if ws_state.uid.is_some()
                && !ws_state.snapshot_sent {
                compress_board(&state.board, state.config.snapshot_level)
            } else {
                None
            };
            let ghost given = bytes_view(compressed);
            let out: ReadOutcome = board_at(ws_state, compressed);
            assert(told(board_step(core, ws, given), core, *ws_state, out));
            out
        } else if opt == OP_PONG {
            if ws_state.uid.is_none() {
                ws_state.strike();
            } else {
                ws_state.pong_pending = false;
            }
            ReadOutcome { exit: false, reply: None, delta: None }
        } else {
            ws_state.strike();
            ReadOutcome { exit: false, reply: None, delta: None }
        }
    };
    assert(frame_answers(world, core, config, frame@));
    assert(told(frame_step(core, config, ws, frame@, world), state@, *ws_state, out));
    out
}

/// Handles what arrived from the client: see [`read_step`]. The answer
/// says whether the connection is over, what to send to the client, and
/// which paint went to the hub.
pub fn handle_read(state: &mut AppState, ws_state: &mut WsState, msg: Incoming) -> (out: ReadOutcome)
    requires
        old(state).wf(),
    ensures
        final(state).wf(),
        final(state).same_frame(old(state)),
        exists|world: Outside|
            answers(world, old(state)@, old(state).config, msg) && told(
                #[trigger] read_step(old(state)@, old(state).config, *old(ws_state), msg, world),
                final(state)@,
                *final(ws_state),
                out,
            ),
{
    let ghost core = state@;
    let ghost config = state.config;
    let ghost ws = *ws_state;
    let ghost quiet = Outside {
        verdict: None,
        now: Moment {
            stamp: Timestamp { secs: 0, nanos: 0 },
            time_of_day: TimeOfDay { secs: 0, nanos: 0 },
        },
        compressed: None,
    };
    match &msg {
        Incoming::End => {
            ws_state.close();
            let out: ReadOutcome = ReadOutcome { exit: true, reply: None, delta: None };
            assert(told(read_step(core, config, ws, msg, quiet), state@, *ws_state, out));
            out
        },
        Incoming::Close => {
            ws_state.close();
            let out: ReadOutcome = ReadOutcome { exit: true, reply: None, delta: None };
            assert(told(read_step(core, config, ws, msg, quiet), state@, *ws_state, out));
            out
        },
        Incoming::Error => {
            let out: ReadOutcome = ReadOutcome {
                exit: ws_state.is_terminal(),
                reply: None,
                delta: None,
            };
            assert(told(read_step(core, config, ws, msg, quiet), state@, *ws_state, out));
            out
        },
        Incoming::Data(bytes) => {
            let out: ReadOutcome = handle_frame(state, ws_state, bytes.as_slice());
            let ghost world = choose|world: Outside|
                frame_answers(world, core, config, bytes@) && told(
                    #[trigger] frame_step(core, config, ws, bytes@, world),
                    state@,
                    *ws_state,
                    out,
                );
            assert(told(read_step(core, config, ws, msg, world), state@, *ws_state, out));
            out
        },
    }
}

} // verus!

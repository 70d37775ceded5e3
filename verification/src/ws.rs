//! One connection: its state, what it collects for its client, and its
//! heartbeat.
//!
//! A server runs four activities per connection. Each hands what happened
//! to one function here and does what the function answers: [`ws_read`]
//! takes what arrived from the client, [`recv_paint`] what arrived from the
//! hub, [`ws_write`] the tick on which collected paints are sent, and
//! [`heartbeat`] the two ticks of the ping.

pub mod read;

use crate::consts::Config;
use crate::pixel::{pixel_record, Pixel};
use crate::state::{AppState, Core};
use crate::ws::read::{
    answers, frame_step, handle_read, read_step, told, Incoming, Outside, ReadOutcome, Step,
};
use vstd::prelude::*;

verus! {

/// Client to server: a bearer token follows.
pub const OP_AUTH: u8 = 0xff;

/// Client to server: one pixel record follows.
pub const OP_PAINT: u8 = 0xfe;

/// Server to client: the token was refused.
pub const OP_AUTH_FAIL: u8 = 0xfd;

/// Server to client: the token was accepted.
pub const OP_AUTH_OK: u8 = 0xfc;

/// Server to client: pixel records follow, one or more.
pub const OP_PAINT_BATCH: u8 = 0xfa;

/// Client to server: send the full image.
pub const OP_BOARD: u8 = 0xf9;

/// Server to client: answer with a pong.
pub const OP_PING: u8 = 0xf8;

/// Client to server: the answer to a ping.
pub const OP_PONG: u8 = 0xf7;

/// The state of one connection.
#[derive(Clone, Copy, Debug, PartialEq, Eq)]
pub struct WsState {
    /// The user, once a token was accepted.
    pub uid: Option<i32>,
    /// Whether the full image was sent; from then on paints are forwarded.
    pub snapshot_sent: bool,
    /// Whether a ping waits for its pong.
    pub pong_pending: bool,
    /// How many paints came too fast.
    pub fast_paint_strikes: u8,
    /// How many frames broke the protocol.
    pub trash_strikes: u8,
    /// Whether the connection was closed for any other reason.
    pub closed: bool,
}

impl WsState {
    /// The state of a connection that was just opened.
    pub open spec fn fresh() -> WsState {
        WsState {
            uid: None,
            snapshot_sent: false,
            pong_pending: false,
            fast_paint_strikes: 0,
            trash_strikes: 0,
            closed: false,
        }
    }

    /// Whether the connection is over: it was closed, it broke the protocol
    /// once, or it painted too fast more than three times.
    pub open spec fn terminal(self) -> bool {
        self.closed || self.trash_strikes > 0 || self.fast_paint_strikes > 3
    }

    /// Whether paints are forwarded to the client: it has a user, it was
    /// sent the full image, and it is not over.
    pub open spec fn live(self) -> bool {
        self.uid is Some && self.snapshot_sent && !self.terminal()
    }

    /// Whether the marks of the connection fit together: it was sent the
    /// full image only if it has a user.
    pub open spec fn coherent(self) -> bool {
        self.snapshot_sent ==> self.uid is Some
    }

    /// The state after one more frame broke the protocol.
    pub open spec fn struck(self) -> WsState {
        WsState {
            trash_strikes: if self.trash_strikes < 255 {
                (self.trash_strikes + 1) as u8
            } else {
                255u8
            },
            ..self
        }
    }

    /// The state after one more paint came too fast.
    pub open spec fn hurried(self) -> WsState {
        WsState {
            fast_paint_strikes: if self.fast_paint_strikes < 255 {
                (self.fast_paint_strikes + 1) as u8
            } else {
                255u8
            },
            ..self
        }
    }

    /// The state after the connection was closed.
    pub open spec fn shut(self) -> WsState {
        WsState { closed: true, ..self }
    }

    /// The state of a connection that was just opened.
    pub fn new() -> (ws: WsState)
        ensures
            ws == WsState::fresh(),
    {
        WsState {
            uid: None,
            snapshot_sent: false,
            pong_pending: false,
            fast_paint_strikes: 0,
            trash_strikes: 0,
            closed: false,
        }
    }

    /// Whether the connection is over.
    pub fn is_terminal(&self) -> (over: bool)
        ensures
            over == self.terminal(),
    {
        self.closed || self.trash_strikes > 0 || self.fast_paint_strikes > 3
    }

    /// Whether paints are forwarded to the client.
    pub fn is_live(&self) -> (live: bool)
        ensures
            live == self.live(),
    {
        self.uid.is_some() && self.snapshot_sent && !self.is_terminal()
    }

    /// Counts one frame that broke the protocol.
    pub fn strike(&mut self)
        ensures
            *final(self) == old(self).struck(),
    {
        if self.trash_strikes < 255 {
            self.trash_strikes = self.trash_strikes + 1;
        }
    }

    /// Counts one paint that came too fast.
    pub fn hurry(&mut self)
        ensures
            *final(self) == old(self).hurried(),
    {
        if self.fast_paint_strikes < 255 {
            self.fast_paint_strikes = self.fast_paint_strikes + 1;
        }
    }

    /// Closes the connection: the peer is gone, or a frame could not be
    /// sent.
    pub fn close(&mut self)
        ensures
            *final(self) == old(self).shut(),
    {
        self.closed = true;
    }
}

/// A step that ends the connection where the step itself asks for it or
/// where the strikes after it do.
pub open spec fn closing(step: Step) -> Step {
    if step.exit || step.ws.terminal() {
        Step { ws: step.ws.shut(), exit: true, ..step }
    } else {
        step
    }
}

/// Takes what arrived from the client, lets [`handle_read`] act on it, and
/// closes the connection where that asks for it or where the strikes have
/// reached their limit. The answer says whether the connection is over,
/// what to send to the client, and which paint went to the hub.
pub fn ws_read(state: &mut AppState, ws_state: &mut WsState, msg: Incoming) -> (out: ReadOutcome)
    requires
        old(state).wf(),
    ensures
        final(state).wf(),
        final(state).same_frame(old(state)),
        exists|world: Outside|
            answers(world, old(state)@, old(state).config, msg) && told(
                closing(
                    #[trigger] read_step(
                        old(state)@,
                        old(state).config,
                        *old(ws_state),
                        msg,
                        world,
                    ),
                ),
                final(state)@,
                *final(ws_state),
                out,
            ),
{
    let out: ReadOutcome = handle_read(state, ws_state, msg);
    if out.exit || ws_state.is_terminal() {
        ws_state.close();
        let closed: ReadOutcome = ReadOutcome { exit: true, reply: out.reply, delta: out.delta };
        closed
    } else {
        out
    }
}

/// Takes what arrived from the hub. A paint is kept for the client where
/// the connection is live; a gap in the stream (a subscriber that fell
/// behind) is passed over.
pub fn recv_paint(ws_state: &WsState, ws_paints: &mut Vec<Pixel>, msg: Option<Pixel>)
    ensures
        final(ws_paints)@ == (match msg {
            Some(paint) if ws_state.live() => old(ws_paints)@.push(paint),
            _ => old(ws_paints)@,
        }),
{
    match msg {
        Some(paint) => {
            if ws_state.is_live() {
                ws_paints.push(paint);
            }
        },
        None => {},
    }
}

/// The records of a run of pixels, one after the other.
pub open spec fn records(pixels: Seq<Pixel>) -> Seq<u8> {
    Seq::new(7 * pixels.len(), |i: int| pixel_record(pixels[i / 7])[i % 7])
}

/// The frame that carries a run of pixels: the opcode, then their records.
pub open spec fn batch_frame(pixels: Seq<Pixel>) -> Seq<u8> {
    seq![OP_PAINT_BATCH] + records(pixels)
}

/// The frame that carries one pixel is the opcode and the record of the
/// pixel.
pub proof fn lemma_batch_of_one(pixel: Pixel)
    ensures
        batch_frame(seq![pixel]) == seq![OP_PAINT_BATCH] + pixel_record(pixel),
        batch_frame(seq![pixel]).len() == 8,
{
    assert(batch_frame(seq![pixel]) =~= seq![OP_PAINT_BATCH] + pixel_record(pixel));
}

/// Takes the tick on which collected paints are sent: one frame with all of
/// them, in the order in which they came, or nothing where none was
/// collected. Either way nothing stays collected.
pub fn ws_write(ws_paints: &mut Vec<Pixel>) -> (frame: Option<Vec<u8>>)
    ensures
        final(ws_paints)@ == Seq::<Pixel>::empty(),
        frame is Some <==> old(ws_paints)@.len() > 0,
        frame matches Some(f) ==> f@ == batch_frame(old(ws_paints)@),
{
    let num: usize = ws_paints.len();
    if num == 0 {
        return None;
    }
    let mut msg: Vec<u8> = Vec::new();
    msg.push(OP_PAINT_BATCH);
    let mut i: usize = 0;
    while i < num
        invariant
            i <= num,
            num == ws_paints@.len(),
            msg@ == batch_frame(ws_paints@.take(i as int)),
        decreases num - i,
    {
        let bytes: [u8; 7] = ws_paints[i].to_bytes();
        let ghost before = msg@;
        let mut k: usize = 0;
        while k < 7
            invariant
                k <= 7,
                i < num,
                num == ws_paints@.len(),
                bytes@ == pixel_record(ws_paints@[i as int]),
                msg@ == before + bytes@.take(k as int),
            decreases 7 - k,
        {
            msg.push(bytes[k]);
            k = k + 1;
        }
        i = i + 1;
    }
    ws_paints.clear();
    Some(msg)
}

/// The two ticks of the heartbeat.
#[derive(Clone, Copy, Debug, PartialEq, Eq)]
pub enum Beat {
    /// It is time to ping the client.
    Ping,
    /// The time that the client had to answer the last ping is over.
    Deadline,
}

/// What the heartbeat asks the server to do.
#[derive(Clone, Debug, PartialEq, Eq)]
pub enum HeartbeatAction {
    /// Send this frame to the client.
    Send(Vec<u8>),
    /// Nothing; wait for the next tick.
    Continue,
    /// Close the connection.
    Close,
}

/// The state of a connection after a tick of the heartbeat: a ping starts
/// the wait for a pong; at the deadline a connection that still waits is
/// closed. A connection that is over stays as it is.
pub open spec fn beat_state(ws: WsState, beat: Beat) -> WsState {
    if ws.terminal() {
        ws
    } else {
        match beat {
            Beat::Ping => WsState { pong_pending: true, ..ws },
            Beat::Deadline => if ws.pong_pending {
                ws.shut()
            } else {
                ws
            },
        }
    }
}

/// Whether a tick of the heartbeat ends the connection.
pub open spec fn beat_closes(ws: WsState, beat: Beat) -> bool {
    ws.terminal() || (beat == Beat::Deadline && ws.pong_pending)
}

/// A connection starts with marks that fit together, and whatever arrives
/// from the client and whatever the heartbeat does, they still fit.
pub proof fn lemma_connection_stays_coherent(
    core: Core,
    config: Config,
    ws: WsState,
    msg: Incoming,
    world: Outside,
    beat: Beat,
)
    requires
        ws.coherent(),
    ensures
        WsState::fresh().coherent(),
        read_step(core, config, ws, msg, world).ws.coherent(),
        closing(read_step(core, config, ws, msg, world)).ws.coherent(),
        beat_state(ws, beat).coherent(),
{
}

/// A pong that arrives between the ping and the deadline ends the wait:
/// the deadline then passes and the connection goes on.
pub proof fn lemma_pong_in_time(core: Core, config: Config, ws: WsState, world: Outside)
    requires
        !ws.terminal(),
        ws.uid is Some,
    ensures
        ({
            let pinged = beat_state(ws, Beat::Ping);
            let answered = frame_step(core, config, pinged, seq![OP_PONG], world).ws;
            &&& pinged.pong_pending
            &&& !answered.pong_pending
            &&& !beat_closes(answered, Beat::Deadline)
            &&& beat_state(answered, Beat::Deadline) == answered
            &&& !answered.terminal()
        }),
{
}

/// Without a pong the deadline closes the connection, and a pong that
/// arrives after that is ignored: the connection stays closed, and still
/// waits.
pub proof fn lemma_pong_too_late(core: Core, config: Config, ws: WsState, world: Outside)
    requires
        !ws.terminal(),
    ensures
        ({
            let expired = beat_state(beat_state(ws, Beat::Ping), Beat::Deadline);
            let late = frame_step(core, config, expired, seq![OP_PONG], world);
            &&& beat_closes(beat_state(ws, Beat::Ping), Beat::Deadline)
            &&& expired.terminal()
            &&& late.ws == expired
            &&& late.ws.pong_pending
            &&& late.core == core
            &&& late.reply is None
        }),
{
}

/// Takes a tick of the heartbeat. On `Ping` the answer is the ping frame to
/// send; on `Deadline` it is to go on, where the pong came in time, and to
/// close otherwise. A connection that is over is told to close.
pub fn heartbeat(ws_state: &mut WsState, beat: Beat) -> (action: HeartbeatAction)
    ensures
        *final(ws_state) == beat_state(*old(ws_state), beat),
        action is Close <==> beat_closes(*old(ws_state), beat),
        action is Send <==> (beat == Beat::Ping && !old(ws_state).terminal()),
        action matches HeartbeatAction::Send(frame) ==> frame@ == seq![OP_PING],
{
    if ws_state.is_terminal() {
        return HeartbeatAction::Close;
    }
    match beat {
        Beat::Ping => {
            ws_state.pong_pending = true;
            let frame: Vec<u8> = vec![OP_PING];
            HeartbeatAction::Send(frame)
        },
        Beat::Deadline => {
            if ws_state.pong_pending {
                ws_state.close();
                HeartbeatAction::Close
            } else {
                HeartbeatAction::Continue
            }
        },
    }
}

} // verus!

//! What every connection and every worker of one server shares.

use crate::actions::{ActionLog, PaintAction};
use crate::board::{place_rows, Canvas, Cell, Model};
use crate::consts::Config;
use crate::pace::PaceTable;
use crate::pixel::Pixel;
use crate::time::Timestamp;
use crate::token::{pem_holds_ed_key, read_key};
use jsonwebtoken::DecodingKey;
use tokio::sync::broadcast::Sender;
use vstd::prelude::*;

verus! {

/// The shared state of a server: the key that tokens are checked against,
/// the hub that paints are published to, the canvas, the pace table, the
/// paint log and the settings.
pub struct AppState {
    pub pubkey: DecodingKey,
    pub sender: Sender<Pixel>,
    pub board: Canvas,
    pub user_paint: PaceTable,
    pub actions: ActionLog,
    pub config: Config,
}

/// Why a server cannot start.
#[derive(Clone, Copy, Debug, PartialEq, Eq)]
pub enum BootError {
    /// The settings cannot be used.
    Settings,
    /// The text that should hold the public key holds none.
    Key,
}

/// The part of the shared state that the rules of the canvas speak of.
pub struct Core {
    pub board: Seq<Cell>,
    pub pace: Map<i32, Timestamp>,
    pub log: Seq<PaintAction>,
}

impl View for AppState {
    type V = Core;

    open spec fn view(&self) -> Core {
        Core { board: self.board@, pace: self.user_paint@, log: self.actions@ }
    }
}

impl AppState {
    /// The canvas is whole and has the size that the settings name, and the
    /// settings can be used.
    pub open spec fn wf(&self) -> bool {
        &&& self.board.wf()
        &&& self.config.wf()
        &&& self.board.spec_width() == self.config.width
        &&& self.board.spec_height() == self.config.height
    }

    /// Whether `other` has the same key, hub and settings as `self`.
    pub open spec fn same_frame(&self, other: &AppState) -> bool {
        &&& self.pubkey == other.pubkey
        &&& self.sender == other.sender
        &&& self.config == other.config
        &&& self.board.spec_width() == other.board.spec_width()
        &&& self.board.spec_height() == other.board.spec_height()
    }

    /// The state of a server that starts from the stored rows, and the copy
    /// of the canvas that stands for what the store holds. The canvas has
    /// the size that the settings name; its cells are `fill` where no row
    /// says otherwise. The key that tokens are checked against is read from
    /// `pem`. Settings that cannot be used are refused before the key is
    /// looked at; a text that holds no key is refused after that.
    pub fn boot(
        pem: &[u8],
        sender: Sender<Pixel>,
        config: Config,
        fill: Cell,
        rows: &Vec<Model>,
    ) -> (started: Result<(AppState, Canvas), BootError>)
        ensures
            started == Err::<(AppState, Canvas), BootError>(BootError::Settings) <==> !config.wf(),
            started == Err::<(AppState, Canvas), BootError>(BootError::Key) <==> (config.wf()
                && !pem_holds_ed_key(pem@)),
            started is Ok <==> (config.wf() && pem_holds_ed_key(pem@)),
            started matches Ok((state, stored)) ==> {
                &&& state.wf()
                &&& state.sender == sender
                &&& state.config == config
                &&& state@.board == place_rows(
                    Seq::new((config.width * config.height) as nat, |i: int| fill),
                    config.width as int,
                    config.height as int,
                    rows.deep_view(),
                )
                &&& state@.pace == Map::<i32, Timestamp>::empty()
                &&& state@.log == Seq::<PaintAction>::empty()
                &&& stored.wf()
                &&& stored.spec_width() == config.width
                &&& stored.spec_height() == config.height
                &&& stored@ == state@.board
            },
    {
        if config.chunk_size < 1 {
            return Err(BootError::Settings);
        }
        let pubkey: DecodingKey = match read_key(pem) {
            Some(key) => key,
            None => {
                return Err(BootError::Key);
            },
        };
        let board: Canvas = Canvas::load(config.width, config.height, fill, rows);
        let stored: Canvas = board.clone();
        match AppState::new(pubkey, sender, board, config) {
            Some(state) => Ok((state, stored)),
            None => Err(BootError::Settings),
        }
    }

    /// Whether the canvas is whole and the settings fit it.
    pub fn check(&self) -> (ok: bool)
        ensures
            ok == self.wf(),
    {
        self.board.check() && self.config.chunk_size >= 1 && self.board.width()
            == self.config.width && self.board.height() == self.config.height
    }

    /// The state of a server that starts with `board`: nobody has painted
    /// yet and nothing waits to be stored. Nothing where the settings cannot
    /// be used or name another size than the canvas has.
    pub fn new(pubkey: DecodingKey, sender: Sender<Pixel>, board: Canvas, config: Config) -> (state:
        Option<AppState>)
        requires
            board.wf(),
        ensures
            state is Some <==> (config.wf() && board.spec_width() == config.width
                && board.spec_height() == config.height),
            state matches Some(s) ==> {
                &&& s.wf()
                &&& s.pubkey == pubkey
                &&& s.sender == sender
                &&& s.config == config
                &&& s.board == board
                &&& s@.pace == Map::<i32, Timestamp>::empty()
                &&& s@.log == Seq::<PaintAction>::empty()
            },
    {
        if config.chunk_size >= 1 && board.width() == config.width && board.height()
            == config.height {
            Some(
                AppState {
                    pubkey,
                    sender,
                    board,
                    user_paint: PaceTable::new(),
                    actions: ActionLog::new(),
                    config,
                },
            )
        } else {
            None
        }
    }
}

} // verus!

//! The settings of a server, and the values they have unless a server says
//! otherwise.

use crate::time::PaintWindow;
use vstd::prelude::*;

verus! {

/// The number of columns, unless set otherwise.
pub const WIDTH: u16 = 1000;

/// The number of rows, unless set otherwise.
pub const HEIGHT: u16 = 600;

/// What a server may set. Times are in the unit that the field's name ends
/// in.
#[derive(Clone, Copy, Debug, PartialEq, Eq)]
pub struct Config {
    /// The number of columns of the canvas.
    pub width: u16,
    /// The number of rows of the canvas.
    pub height: u16,
    /// The least time between two paints of one user.
    pub min_interval_ms: u32,
    /// How often a connection sends the paints it has collected.
    pub delta_flush_ms: u32,
    /// How often a connection is pinged.
    pub ping_interval_s: u32,
    /// How long a connection has to answer a ping.
    pub pong_timeout_s: u32,
    /// How often changed cells are stored.
    pub board_flush_s: u32,
    /// How often the paint log is stored.
    pub action_flush_s: u32,
    /// The most rows handed to the store at once; at least one.
    pub chunk_size: usize,
    /// How many paints the hub keeps for a slow subscriber.
    pub broadcast_buffer: usize,
    /// The compression level of the full image.
    pub snapshot_level: i32,
    /// The part of the day in which painting is allowed; always, if unset.
    pub window: Option<PaintWindow>,
}

impl Config {
    /// Whether the settings can be used: rows are handed over at least one
    /// at a time.
    pub open spec fn wf(&self) -> bool {
        self.chunk_size >= 1
    }

    /// The settings of a server that sets nothing: 1000 by 600 cells, 500 ms
    /// between the paints of one user, paints sent on every 250 ms, a ping
    /// every 20 s that is to be answered within 10 s, the canvas stored
    /// every 300 s and the paint log every 480 s in chunks of 600 rows, 65,536
    /// paints kept for a slow subscriber, the full image compressed at level
    /// 19, and painting allowed at any time of day.
    pub open spec fn standard() -> Config {
        Config {
            width: 1000,
            height: 600,
            min_interval_ms: 500,
            delta_flush_ms: 250,
            ping_interval_s: 20,
            pong_timeout_s: 10,
            board_flush_s: 300,
            action_flush_s: 480,
            chunk_size: 600,
            broadcast_buffer: 65_536,
            snapshot_level: 19,
            window: None,
        }
    }
}

impl Default for Config {
    /// The settings of a server that sets nothing: see [`Config::standard`].
    fn default() -> (config: Config)
        ensures
            config.wf(),
            config == Config::standard(),
    {
        Config {
            width: WIDTH,
            height: HEIGHT,
            min_interval_ms: 500,
            delta_flush_ms: 250,
            ping_interval_s: 20,
            pong_timeout_s: 10,
            board_flush_s: 300,
            action_flush_s: 480,
            chunk_size: 600,
            broadcast_buffer: 65_536,
            snapshot_level: 19,
            window: None,
        }
    }
}

} // verus!

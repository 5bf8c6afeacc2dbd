//! The constants of the two applications, as values that a host can change.

use vstd::prelude::*;
use crate::render::Size;

verus! {

/// The layout and timing of an application.
#[derive(Clone, Copy, Debug, PartialEq, Eq, Structural)]
pub struct Config {
    pub canvas_width: u32,
    pub canvas_height: u32,
    pub max_slider_value: i32,
    pub tick_interval_ms: u64,
}

impl Config {
    /// The interactive emulator: a canvas of 600 by 600 and sliders from 0
    /// to 10000.
    pub fn interactive() -> (c: Config)
        ensures
            c == (Config {
                canvas_width: 600,
                canvas_height: 600,
                max_slider_value: 10000,
                tick_interval_ms: 50,
            }),
    {
        Config {
            canvas_width: 600,
            canvas_height: 600,
            max_slider_value: 10000,
            tick_interval_ms: 50,
        }
    }

    /// The animation: a canvas of 400 by 400 and a tick every 50 ms.
    pub fn animated() -> (c: Config)
        ensures
            c == (Config {
                canvas_width: 400,
                canvas_height: 400,
                max_slider_value: 10000,
                tick_interval_ms: 50,
            }),
    {
        Config {
            canvas_width: 400,
            canvas_height: 400,
            max_slider_value: 10000,
            tick_interval_ms: 50,
        }
    }

    /// The size of the canvas.
    pub fn canvas_size(&self) -> (s: Size)
        ensures
            s == (Size { width: self.canvas_width, height: self.canvas_height }),
    {
        Size { width: self.canvas_width, height: self.canvas_height }
    }
}

} // verus!

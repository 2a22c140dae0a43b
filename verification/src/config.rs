//! Runtime configuration with compile-time defaults.

use vstd::prelude::*;

verus! {

/// Display power-management parameters.
#[derive(Debug, Clone, Copy)]
pub struct DisplayConfig {
    /// Seconds of no user activity before the display dims.
    pub dim_timeout_s: u64,
    /// Seconds of no user activity before the display blanks entirely.
    pub off_timeout_s: u64,
    /// Brightness level (0..=255) when the display is fully active.
    pub brightness_active: u8,
    /// Brightness level (0..=255) when the display is dimmed.
    pub brightness_dim: u8,
}

/// Top-level runtime config.
#[derive(Debug, Clone, Copy)]
pub struct Config {
    pub display: DisplayConfig,
}

impl Config {
    /// Compile-time defaults, tuned for a wrist-worn watch on a small
    /// battery: short dim/off timeouts, dim well below active.
    pub fn default() -> (c: Self)
        ensures
            c.display.dim_timeout_s == 20,
            c.display.off_timeout_s == 30,
            c.display.brightness_active == 80,
            c.display.brightness_dim == 16,
    {
        Config {
            display: DisplayConfig {
                dim_timeout_s: 20,
                off_timeout_s: 30,
                brightness_active: 80,
                brightness_dim: 16,
            },
        }
    }
}

} // verus!

//! Character-cell console for the 320x240 ST7789V LCD.

pub mod color;
pub mod border;
pub mod console;
pub mod coord;
pub mod cp437;
pub mod laws;
pub mod lcd_colors;
pub mod model;
pub mod palette;

//! A terminal text RPG library: a verified raster-to-terminal-text rendering
//! pipeline (half-block, braille and ASCII glyph strategies with dithering
//! and edge enhancement), together with the game's state, combat and world
//! logic.

pub mod combat;
pub mod dice;
pub mod dither;
pub mod game;
pub mod glyphs;
pub mod pixels;
pub mod player;
pub mod render;
pub mod resize;
pub mod sharpen;
pub mod textfmt;
pub mod world;

//! Driver logic for SH1108 monochrome OLED controllers: the command encoder,
//! panel geometry, the command/data sequencing layer and the framebuffer with
//! its flush engine.
pub mod command;
pub mod displaysize;
mod interface;
pub mod properties;
pub mod framebuffer;
pub mod mode;

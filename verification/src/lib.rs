//! Status renderer for the Toykit v2 USB dongle.
//!
//! The dongle shows its state (host transport, link to the two keyboard
//! halves, layer, WPM, modifiers, lock indicators, sleep, batteries and a
//! bongocat animation) on a small monochrome OLED.  This crate holds the
//! logic between the keyboard firmware's render snapshot and the display
//! scene: which display events each frame produces and in what order, the
//! bongocat's pose (a paw drums on each new key press and stays down while
//! the key is held; an idle cat breathes slowly), the
//! animation clock, the decoding of the page-major framebuffer into
//! pixels, and the static BLE address of the dongle.



pub mod address;
pub mod bongocat;
pub mod context;
pub mod event;
pub mod framebuffer;




pub use bongocat::BongoCatRenderer;

//! The picture: the liquid crystal display and the pixel processing unit that
//! draws on it.
pub mod image_buffer;
pub mod lcd;
pub mod ppu;

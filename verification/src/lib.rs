pub mod ascii_converter;
pub mod image_buffer;
pub mod render;

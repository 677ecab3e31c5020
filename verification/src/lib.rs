//! The verified core of Servo's C embedding API: the registry of embedder-owned textures that
//! pages can display, the encoding of the resources that point at them, the translation of
//! embedder input into keyboard and mouse events, the rendering of script results as text, and
//! the decisions a protocol handler takes when it answers a request.

pub mod image_ids;
pub mod external_images;
pub mod capi_images;
pub mod js_value;
pub mod c_string;
pub mod input;
pub mod protocol;
pub mod frame;
pub mod laws;


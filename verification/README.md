# servo_capi

The verified core of Servo's C embedding API.

- `src/` is the library, verified with Verus: the registry of embedder textures that pages can
  display (`image_ids`, `external_images`, `capi_images`), the rendering of script results as text
  (`js_value`), keyboard and mouse input (`input`), protocol handler answers (`protocol`), frame
  sizes (`frame`), strings that can cross into C (`c_string`), and the laws that hold across calls
  (`laws`).
- `app/` is the C API around it: raw pointers, callbacks, locks, and the calls into Servo and
  WebRender.
- `tests/` runs the library on concrete values.

//! What the C API's handle on the texture registry computes: registering, updating and
//! forgetting textures on behalf of C callers, and the body of the resource that points a
//! document at one of them.

use vstd::prelude::*;
use vstd::bytes::{
    spec_u32_from_le_bytes, spec_u32_to_le_bytes, spec_u64_from_le_bytes, spec_u64_to_le_bytes,
    u32_to_le_bytes, u64_to_le_bytes,
};

use crate::external_images::{EmbedderTexture, ExternalImageChannel, ImageUpdate};

verus! {

/// Registers the texture `texture_id` of `width` by `height` pixels and returns the identifier to
/// serve as the content of a resource, or 0 before Servo has been built.
pub fn servo_external_images_register<P>(
    images: &mut ExternalImageChannel<P>,
    texture_id: u32,
    width: i32,
    height: i32,
) -> (res: u64)
    requires
        old(images).can_register(),
    ensures
        old(images).is_register(
            *final(images),
            EmbedderTexture { texture_id, width, height },
            if res == 0 {
                None
            } else {
                Some(res)
            },
        ),
        (res == 0) == !old(images).attached(),
{
    match images.register(EmbedderTexture { texture_id, width, height }) {
        Some(id) => id,
        None => 0,
    }
}

/// Points `id` at the texture `texture_id` of `width` by `height` pixels, from the next time it
/// is sampled, and returns what WebRender must be told about the images bound to it.
pub fn servo_external_images_update<P>(
    images: &mut ExternalImageChannel<P>,
    id: u64,
    texture_id: u32,
    width: i32,
    height: i32,
) -> (res: Option<ImageUpdate>)
    ensures
        old(images).is_update(*final(images), id, EmbedderTexture { texture_id, width, height }, res),
{
    images.update(id, EmbedderTexture { texture_id, width, height })
}

/// Forgets `id`. Pages still displaying it stop being able to.
pub fn servo_external_images_unregister<P>(images: &mut ExternalImageChannel<P>, id: u64)
    ensures
        old(images).is_unregister(*final(images), id),
{
    images.unregister(id)
}

/// The body of the resource that shows the external image `id` at `width` by `height` pixels,
/// as the image cache parses it: the identifier, then the width, then the height, each in little
/// endian order.
pub open spec fn external_image_body(id: u64, width: u32, height: u32) -> Seq<u8> {
    spec_u64_to_le_bytes(id) + spec_u32_to_le_bytes(width) + spec_u32_to_le_bytes(height)
}

/// The MIME type of a resource that shows an external image.
pub open spec fn external_image_content_type() -> Seq<char> {
    seq!['a', 'p', 'p', 'l', 'i', 'c', 'a', 't', 'i', 'o', 'n', '/', 'x', '-', 's', 'e', 'r', 'v',
    'o', '-', 'e', 'x', 't', 'e', 'r', 'n', 'a', 'l', '-', 'i', 'm', 'a', 'g', 'e']
}

/// What a protocol handler answers a request with, so that the requesting document displays the
/// texture registered as an external image.
pub struct ExternalImageResponse {
    pub body: Vec<u8>,
    pub content_type: &'static str,
}

/// The response that shows the texture registered as `id` at `width` by `height` pixels as the
/// content of the requested resource.
pub fn servo_external_images_answer_request(id: u64, width: u32, height: u32) -> (res:
    ExternalImageResponse)
    ensures
        res.body@ == external_image_body(id, width, height),
        res.content_type@ == external_image_content_type(),
{
    let mut body = u64_to_le_bytes(id);
    let mut width_bytes = u32_to_le_bytes(width);
    let mut height_bytes = u32_to_le_bytes(height);
    body.append(&mut width_bytes);
    body.append(&mut height_bytes);
    let content_type = "application/x-servo-external-image";
    proof {
        reveal_strlit("application/x-servo-external-image");
        assert(content_type@ =~= external_image_content_type());
    }
    ExternalImageResponse { body, content_type }
}

/// The body of an external image resource is sixteen bytes, from which the identifier, the width
/// and the height read back unchanged.
pub proof fn law_external_image_body_reads_back(id: u64, width: u32, height: u32)
    ensures
        external_image_body(id, width, height).len() == 16,
        spec_u64_from_le_bytes(external_image_body(id, width, height).subrange(0, 8)) == id,
        spec_u32_from_le_bytes(external_image_body(id, width, height).subrange(8, 12)) == width,
        spec_u32_from_le_bytes(external_image_body(id, width, height).subrange(12, 16)) == height,
{
    vstd::bytes::lemma_auto_spec_u64_to_from_le_bytes();
    vstd::bytes::lemma_auto_spec_u32_to_from_le_bytes();
    let body = external_image_body(id, width, height);
    assert(body.subrange(0, 8) =~= spec_u64_to_le_bytes(id));
    assert(body.subrange(8, 12) =~= spec_u32_to_le_bytes(width));
    assert(body.subrange(12, 16) =~= spec_u32_to_le_bytes(height));
}

} // verus!

use servo_capi::capi_images::{
    servo_external_images_answer_request, servo_external_images_register,
    servo_external_images_unregister, servo_external_images_update,
};
use servo_capi::external_images::{
    EmbedderTexture, ExternalImageChannel, ExternalImageSource, ExternalImageType, ImageBufferKind,
    ImageFormat, ImageKey,
};
use servo_capi::image_ids::{WebRenderExternalImageIdManager, WebRenderImageHandlerType};

fn texture(texture_id: u32, width: i32, height: i32) -> EmbedderTexture {
    EmbedderTexture {
        texture_id,
        width,
        height,
    }
}

fn key(id: u32) -> ImageKey {
    ImageKey { namespace: 7, id }
}

fn attached_channel() -> ExternalImageChannel<&'static str> {
    let mut channel = ExternalImageChannel::new();
    channel.attach(WebRenderExternalImageIdManager::new());
    channel
}

#[test]
fn id_manager_hands_out_increasing_ids_from_one() {
    let mut ids = WebRenderExternalImageIdManager::new();
    assert_eq!(ids.next_id(WebRenderImageHandlerType::Embedder), 1);
    assert_eq!(ids.next_id(WebRenderImageHandlerType::WebGl), 2);
    assert_eq!(ids.get(1), Some(WebRenderImageHandlerType::Embedder));
    assert_eq!(ids.get(2), Some(WebRenderImageHandlerType::WebGl));
    assert_eq!(ids.get(3), None);
    ids.remove(1);
    assert_eq!(ids.get(1), None);
    assert_eq!(ids.next_id(WebRenderImageHandlerType::Media), 3);
}

#[test]
fn register_is_refused_before_attach() {
    let mut channel: ExternalImageChannel<()> = ExternalImageChannel::new();
    assert_eq!(channel.register(texture(5, 10, 20)), None);
    assert_eq!(channel.get(1), None);
}

#[test]
fn register_then_get_and_lock() {
    let mut channel = attached_channel();
    let id = channel.register(texture(5, 10, 20)).unwrap();
    assert_eq!(id, 1);
    assert_eq!(channel.get(id), Some(texture(5, 10, 20)));
    assert_eq!(
        channel.lock(id),
        (ExternalImageSource::NativeTexture(5), (10, 20))
    );
    let second = channel.register(texture(6, 1, 1)).unwrap();
    assert_eq!(second, 2);
    assert_eq!(channel.get(id), Some(texture(5, 10, 20)));
}

#[test]
fn lock_of_unknown_image_is_invalid() {
    let channel: ExternalImageChannel<()> = ExternalImageChannel::new();
    assert_eq!(channel.lock(42), (ExternalImageSource::Invalid, (0, 0)));
}

#[test]
fn update_without_bindings_tells_webrender_nothing() {
    let mut channel = attached_channel();
    let id = channel.register(texture(5, 10, 20)).unwrap();
    assert!(channel.update(id, texture(9, 30, 40)).is_none());
    assert_eq!(channel.get(id), Some(texture(9, 30, 40)));
    assert_eq!(
        channel.lock(id),
        (ExternalImageSource::NativeTexture(9), (30, 40))
    );
}

#[test]
fn update_names_bound_images_in_order() {
    let mut channel = attached_channel();
    let id = channel.register(texture(5, 10, 20)).unwrap();
    channel.bind(id, key(1), "first document");
    channel.bind(id, key(2), "second document");
    channel.bind(id + 1, key(3), "other texture");
    let update = channel.update(id, texture(9, 30, 40)).unwrap();
    assert_eq!(update.image_keys, vec![key(1), key(2)]);
    assert_eq!(update.descriptor.format, ImageFormat::Bgra8);
    assert_eq!(update.descriptor.width, 30);
    assert_eq!(update.descriptor.height, 40);
    assert_eq!(update.descriptor.stride, None);
    assert_eq!(update.descriptor.offset, 0);
    assert_eq!(update.descriptor.flags, 0);
    assert_eq!(update.data.id, id);
    assert_eq!(update.data.channel_index, 0);
    assert_eq!(
        update.data.image_type,
        ExternalImageType::TextureHandle(ImageBufferKind::Texture2D)
    );
    assert!(!update.data.normalized_uvs);
}

#[test]
fn unbind_keeps_the_other_images() {
    let mut channel = attached_channel();
    let id = channel.register(texture(5, 10, 20)).unwrap();
    channel.bind(id, key(1), "a");
    channel.bind(id, key(2), "b");
    channel.bind(id, key(1), "c");
    channel.bind(id, key(3), "d");
    channel.unbind(id, key(1));
    let update = channel.update(id, texture(5, 10, 20)).unwrap();
    assert_eq!(update.image_keys, vec![key(2), key(3)]);
}

#[test]
fn unbind_of_last_image_removes_the_binding() {
    let mut channel = attached_channel();
    let id = channel.register(texture(5, 10, 20)).unwrap();
    channel.bind(id, key(1), "a");
    channel.unbind(id, key(1));
    assert!(channel.update(id, texture(5, 10, 20)).is_none());
    channel.unbind(id, key(1));
    channel.unbind(99, key(1));
}

#[test]
fn unregister_forgets_texture_and_bindings() {
    let mut channel = attached_channel();
    let id = channel.register(texture(5, 10, 20)).unwrap();
    channel.bind(id, key(1), "a");
    channel.unregister(id);
    assert_eq!(channel.get(id), None);
    assert_eq!(channel.lock(id), (ExternalImageSource::Invalid, (0, 0)));
    assert!(channel.update(id, texture(6, 1, 1)).is_none());
    let next = channel.register(texture(7, 2, 2)).unwrap();
    assert_ne!(next, id);
    assert_eq!(next, 2);
}

#[test]
fn ffi_register_answers_zero_before_attach() {
    let mut channel: ExternalImageChannel<()> = ExternalImageChannel::new();
    assert_eq!(servo_external_images_register(&mut channel, 5, 10, 20), 0);
    channel.attach(WebRenderExternalImageIdManager::new());
    assert_eq!(servo_external_images_register(&mut channel, 5, 10, 20), 1);
    assert_eq!(channel.get(1), Some(texture(5, 10, 20)));
}

#[test]
fn ffi_update_and_unregister() {
    let mut channel = attached_channel();
    let id = servo_external_images_register(&mut channel, 5, 10, 20);
    channel.bind(id, key(4), "doc");
    let update = servo_external_images_update(&mut channel, id, 8, 64, 32).unwrap();
    assert_eq!(update.image_keys, vec![key(4)]);
    assert_eq!(channel.get(id), Some(texture(8, 64, 32)));
    servo_external_images_unregister(&mut channel, id);
    assert_eq!(channel.get(id), None);
}

#[test]
fn answer_request_body_is_little_endian() {
    let response = servo_external_images_answer_request(0x0102_0304_0506_0708, 0x0a0b_0c0d, 16);
    assert_eq!(
        response.body,
        vec![
            0x08, 0x07, 0x06, 0x05, 0x04, 0x03, 0x02, 0x01, 0x0d, 0x0c, 0x0b, 0x0a, 16, 0, 0, 0
        ]
    );
    assert_eq!(response.content_type, "application/x-servo-external-image");
    let body = &response.body;
    assert_eq!(
        u64::from_le_bytes(body[0..8].try_into().unwrap()),
        0x0102_0304_0506_0708
    );
    assert_eq!(u32::from_le_bytes(body[8..12].try_into().unwrap()), 0x0a0b_0c0d);
    assert_eq!(u32::from_le_bytes(body[12..16].try_into().unwrap()), 16);
}

#[test]
fn update_leaves_other_images_alone() {
    let mut channel = attached_channel();
    let first = channel.register(texture(5, 10, 20)).unwrap();
    let second = channel.register(texture(6, 11, 21)).unwrap();
    channel.bind(second, key(8), "doc");
    assert!(channel.update(first, texture(7, 1, 2)).is_none());
    assert_eq!(channel.get(second), Some(texture(6, 11, 21)));
    let bound = channel.bindings_for(second).unwrap();
    assert_eq!(bound.len(), 1);
    assert_eq!(bound[0].0, key(8));
    assert!(channel.bindings_for(first).is_none());
}

#[test]
fn ids_are_left_until_attached_allocator_runs_out() {
    let mut channel: ExternalImageChannel<()> = ExternalImageChannel::new();
    assert!(channel.has_ids_left());
    channel.attach(WebRenderExternalImageIdManager::new());
    assert!(channel.has_ids_left());
}

#[test]
fn update_names_an_image_bound_twice_twice() {
    let mut channel = attached_channel();
    let id = channel.register(texture(5, 10, 20)).unwrap();
    channel.bind(id, key(1), "a");
    channel.bind(id, key(1), "b");
    let update = channel.update(id, texture(5, 10, 20)).unwrap();
    assert_eq!(update.image_keys, vec![key(1), key(1)]);
}

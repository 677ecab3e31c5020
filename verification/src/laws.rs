//! What holds of the texture registry across calls.

use vstd::prelude::*;

use crate::external_images::{
    lock_answer, EmbedderTexture, ExternalImageChannel, ExternalImageSource, ExternalImageType,
    ImageBufferKind, ImageFormat, ImageKey, ImageUpdate,
};
use crate::js_value::{entries_text, items_text, js_text, JsValue};

verus! {

/// A texture registered under an identifier is what `get` then answers for it, and what
/// WebRender samples when it locks the image; the identifier is never 0.
pub proof fn law_register_then_get<P>(
    before: ExternalImageChannel<P>,
    after: ExternalImageChannel<P>,
    texture: EmbedderTexture,
    id: u64,
)
    requires
        before.can_register(),
        before.is_register(after, texture, Some(id)),
    ensures
        id != 0,
        after.texture_of(id) == Some(texture),
        lock_answer(after.texture_of(id)) == (
            ExternalImageSource::NativeTexture(texture.texture_id),
            (texture.width, texture.height),
        ),
{
}

/// A registration is refused exactly before Servo hands over its allocator of identifiers.
pub proof fn law_register_refused_until_attached<P>(
    before: ExternalImageChannel<P>,
    after: ExternalImageChannel<P>,
    texture: EmbedderTexture,
    res: Option<u64>,
)
    requires
        before.is_register(after, texture, res),
    ensures
        res is None <==> !before.attached(),
{
}

/// Identifiers are not reused: two registrations give different identifiers, the later one
/// greater, even when the first was unregistered between them.
pub proof fn law_registered_ids_are_fresh<P>(
    c0: ExternalImageChannel<P>,
    c1: ExternalImageChannel<P>,
    c2: ExternalImageChannel<P>,
    c3: ExternalImageChannel<P>,
    first: EmbedderTexture,
    second: EmbedderTexture,
    forgotten: u64,
    a: u64,
    b: u64,
)
    requires
        c0.can_register(),
        c0.is_register(c1, first, Some(a)),
        c1.is_unregister(c2, forgotten),
        c2.can_register(),
        c2.is_register(c3, second, Some(b)),
    ensures
        a < b,
{
}

/// Once `id` points at a texture, `get` answers it and WebRender samples it at its size.
pub proof fn law_update_then_get<P>(
    before: ExternalImageChannel<P>,
    after: ExternalImageChannel<P>,
    id: u64,
    texture: EmbedderTexture,
    res: Option<ImageUpdate>,
)
    requires
        before.is_update(after, id, texture, res),
    ensures
        after.texture_of(id) == Some(texture),
        lock_answer(after.texture_of(id)) == (
            ExternalImageSource::NativeTexture(texture.texture_id),
            (texture.width, texture.height),
        ),
{
}

/// An update changes nothing but the texture of the image it names.
pub proof fn law_update_leaves_others<P>(
    before: ExternalImageChannel<P>,
    after: ExternalImageChannel<P>,
    id: u64,
    texture: EmbedderTexture,
    res: Option<ImageUpdate>,
    other: u64,
)
    requires
        before.is_update(after, id, texture, res),
        other != id,
    ensures
        after.texture_of(other) == before.texture_of(other),
        after.bindings_of(other) == before.bindings_of(other),
{
}

/// Once `id` is unregistered, pages displaying it cannot any more: WebRender finds nothing to
/// sample, and a later update of it has no image to tell WebRender about.
pub proof fn law_unregister_forgets<P>(
    c0: ExternalImageChannel<P>,
    c1: ExternalImageChannel<P>,
    c2: ExternalImageChannel<P>,
    id: u64,
    texture: EmbedderTexture,
    res: Option<ImageUpdate>,
)
    requires
        c0.is_unregister(c1, id),
        c1.is_update(c2, id, texture, res),
    ensures
        c1.texture_of(id) is None,
        lock_answer(c1.texture_of(id)) == (ExternalImageSource::Invalid, (0i32, 0i32)),
        res is None,
{
}

/// An image bound to a texture is among those WebRender is told to redraw when the texture is
/// updated, after all the images bound before it.
pub proof fn law_bind_then_update<P>(
    c0: ExternalImageChannel<P>,
    c1: ExternalImageChannel<P>,
    c2: ExternalImageChannel<P>,
    id: u64,
    image_key: ImageKey,
    paint_api: P,
    texture: EmbedderTexture,
    res: Option<ImageUpdate>,
)
    requires
        c0.is_bind(c1, id, image_key, paint_api),
        c1.is_update(c2, id, texture, res),
    ensures
        res matches Some(u) && u.image_keys@.len() == c0.bindings_of(id).len() + 1 && u.image_keys@.last()
            == image_key,
{
    let u = res->0;
    assert(c1.bindings()[id] == c0.bindings_of(id).push((image_key, paint_api)));
    assert(u.image_keys@[u.image_keys@.len() - 1] == image_key);
}

/// Once an image is unbound from a texture, an update of the texture no longer tells WebRender
/// about it.
pub proof fn law_unbind_then_update<P>(
    c0: ExternalImageChannel<P>,
    c1: ExternalImageChannel<P>,
    c2: ExternalImageChannel<P>,
    id: u64,
    image_key: ImageKey,
    texture: EmbedderTexture,
    res: Option<ImageUpdate>,
)
    requires
        c0.is_unbind(c1, id, image_key),
        c1.is_update(c2, id, texture, res),
    ensures
        res matches Some(u) ==> !u.image_keys@.contains(image_key),
{
    if res is Some && c0.bindings().contains_key(id) {
        let u = res->0;
        let kept = crate::external_images::without_key(c0.bindings()[id], image_key);
        assert(c1.bindings()[id] == kept);
        broadcast use vstd::seq_lib::group_filter_ensures;
        if u.image_keys@.contains(image_key) {
            let j = choose|j: int| 0 <= j < u.image_keys@.len() && u.image_keys@[j] == image_key;
            assert(kept[j].0 == image_key);
        }
    }
}

/// What WebRender is told on an update describes the texture as given: BGRA8 pixels at the
/// texture's own width and height, tightly packed from the start, no flag set, in the first
/// channel of a 2D texture named by the updated identifier, with UVs in texels; and it names the
/// image keys bound to the identifier, each in its place.
pub proof fn law_update_describes_the_texture<P>(
    before: ExternalImageChannel<P>,
    after: ExternalImageChannel<P>,
    id: u64,
    texture: EmbedderTexture,
    u: ImageUpdate,
)
    requires
        before.is_update(after, id, texture, Some(u)),
    ensures
        u.descriptor.format == ImageFormat::Bgra8,
        u.descriptor.width == texture.width,
        u.descriptor.height == texture.height,
        u.descriptor.stride is None,
        u.descriptor.offset == 0,
        u.descriptor.flags == 0,
        u.data.id == id,
        u.data.channel_index == 0,
        u.data.image_type == ExternalImageType::TextureHandle(ImageBufferKind::Texture2D),
        !u.data.normalized_uvs,
        u.image_keys@.len() == before.bindings_of(id).len(),
        forall|j: int| 0 <= j < u.image_keys@.len() ==> u.image_keys@[j] == #[trigger] before.bindings_of(id)[j].0,
{
}

/// Unbinding `image_key` from `id` drops exactly the bindings of that key: every binding of `id`
/// to another key (keys compared whole, namespace included) stays, none to `image_key` is left,
/// nothing is added, and the bindings of every other identifier are untouched.
pub proof fn law_unbind_drops_only_that_key<P>(
    before: ExternalImageChannel<P>,
    after: ExternalImageChannel<P>,
    id: u64,
    image_key: ImageKey,
)
    requires
        before.is_unbind(after, id, image_key),
    ensures
        forall|b: (ImageKey, P)| #[trigger] before.bindings_of(id).contains(b) && b.0 != image_key
            ==> after.bindings_of(id).contains(b),
        forall|b: (ImageKey, P)| #[trigger] after.bindings_of(id).contains(b) ==> b.0 != image_key
            && before.bindings_of(id).contains(b),
        forall|other: u64| other != id ==> #[trigger] after.bindings_of(other) == before.bindings_of(other),
        after.textures() == before.textures(),
{
    broadcast use vstd::seq_lib::group_filter_ensures;
    broadcast use vstd::seq::Seq::lemma_filter_contains_rev;

    if before.bindings().contains_key(id) {
        let old_list = before.bindings()[id];
        let kept = crate::external_images::without_key(old_list, image_key);
        assert forall|b: (ImageKey, P)| #[trigger] before.bindings_of(id).contains(b) && b.0
            != image_key implies after.bindings_of(id).contains(b) by {
            let j = choose|j: int| 0 <= j < old_list.len() && old_list[j] == b;
            assert(kept.contains(old_list[j]));
        }
        assert forall|b: (ImageKey, P)| #[trigger] after.bindings_of(id).contains(b) implies b.0
            != image_key && before.bindings_of(id).contains(b) by {
            if kept.len() == 0 {
                assert(after.bindings_of(id) =~= Seq::<(ImageKey, P)>::empty());
            } else {
                assert(after.bindings_of(id) == kept);
            }
            let j = choose|j: int| 0 <= j < kept.len() && kept[j] == b;
            assert(kept[j].0 != image_key);
        }
    }
}

/// After `image_key` is unbound from `id`, an update of `id` still tells WebRender about every
/// image bound to it under another key.
pub proof fn law_unbind_then_update_names_the_others<P>(
    c0: ExternalImageChannel<P>,
    c1: ExternalImageChannel<P>,
    c2: ExternalImageChannel<P>,
    id: u64,
    image_key: ImageKey,
    texture: EmbedderTexture,
    res: Option<ImageUpdate>,
    other: (ImageKey, P),
)
    requires
        c0.is_unbind(c1, id, image_key),
        c1.is_update(c2, id, texture, res),
        c0.bindings_of(id).contains(other),
        other.0 != image_key,
    ensures
        res matches Some(u) && u.image_keys@.contains(other.0),
{
    law_unbind_drops_only_that_key(c0, c1, id, image_key);
    assert(c1.bindings_of(id).contains(other));
    let list = c1.bindings_of(id);
    let j = choose|j: int| 0 <= j < list.len() && list[j] == other;
    assert(c1.bindings().contains_key(id));
    let u = res->0;
    assert(u.image_keys@[j] == other.0);
}

/// Unregistering `id` leaves every other identifier as it was: its texture, what WebRender
/// samples for it, and its bindings.
pub proof fn law_unregister_leaves_others<P>(
    before: ExternalImageChannel<P>,
    after: ExternalImageChannel<P>,
    id: u64,
    other: u64,
)
    requires
        before.is_unregister(after, id),
        other != id,
    ensures
        after.texture_of(other) == before.texture_of(other),
        lock_answer(after.texture_of(other)) == lock_answer(before.texture_of(other)),
        after.bindings_of(other) == before.bindings_of(other),
{
}

/// `parts` one after the other, with `sep` between each two.
pub open spec fn join(parts: Seq<Seq<char>>, sep: char) -> Seq<char>
    decreases parts.len(),
{
    if parts.len() == 0 {
        Seq::empty()
    } else if parts.len() == 1 {
        parts[0]
    } else {
        join(parts.drop_last(), sep) + seq![sep] + parts.last()
    }
}

proof fn lemma_items_text_joins(values: Seq<JsValue>)
    ensures
        items_text(values) == join(values.map_values(|v: JsValue| js_text(v)), ','),
    decreases values.len(),
{
    let parts = values.map_values(|v: JsValue| js_text(v));
    if values.len() > 1 {
        lemma_items_text_joins(values.drop_last());
        assert(parts.drop_last() =~= values.drop_last().map_values(|v: JsValue| js_text(v)));
    }
}

proof fn lemma_entries_text_joins(entries: Seq<(String, JsValue)>)
    ensures
        entries_text(entries) == join(
            entries.map_values(|e: (String, JsValue)| e.0@ + seq![':'] + js_text(e.1)),
            ',',
        ),
    decreases entries.len(),
{
    let parts = entries.map_values(|e: (String, JsValue)| e.0@ + seq![':'] + js_text(e.1));
    if entries.len() > 1 {
        lemma_entries_text_joins(entries.drop_last());
        assert(parts.drop_last() =~= entries.drop_last().map_values(
            |e: (String, JsValue)| e.0@ + seq![':'] + js_text(e.1),
        ));
        assert(entries_text(entries) == entries_text(entries.drop_last()) + seq![','] + parts.last());
    }
}

/// An array is written as the texts its items have on their own, whatever kind each is, joined
/// by commas, in brackets.
pub proof fn law_array_text_embeds_items(values: Vec<JsValue>)
    ensures
        js_text(JsValue::Array(values)) == seq!['['] + join(
            values@.map_values(|v: JsValue| js_text(v)),
            ',',
        ) + seq![']'],
{
    lemma_items_text_joins(values@);
}

/// An object is written as its properties, each its key, a colon and the text its value has on
/// its own, whatever kind the value is, joined by commas, in braces.
pub proof fn law_object_text_embeds_values(entries: Vec<(String, JsValue)>)
    ensures
        js_text(JsValue::Object(entries)) == seq!['{'] + join(
            entries@.map_values(|e: (String, JsValue)| e.0@ + seq![':'] + js_text(e.1)),
            ',',
        ) + seq!['}'],
{
    lemma_entries_text_joins(entries@);
}

/// An array of one item is that item's own text in brackets; an object of one property is its
/// key, a colon and the value's own text, in braces.
pub proof fn law_single_item_texts(values: Vec<JsValue>, entries: Vec<(String, JsValue)>)
    ensures
        values@.len() == 1 ==> js_text(JsValue::Array(values)) == seq!['['] + js_text(values@[0])
            + seq![']'],
        entries@.len() == 1 ==> js_text(JsValue::Object(entries)) == seq!['{'] + entries@[0].0@
            + seq![':'] + js_text(entries@[0].1) + seq!['}'],
{
    law_array_text_embeds_items(values);
    law_object_text_embeds_values(entries);
}

} // verus!

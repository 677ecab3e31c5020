//! Letting the embedder put textures it owns into the page.
//!
//! An embedder that renders with the same GPU context as Servo registers a texture here and
//! serves the identifier it gets back as the content of a resource, so that a document can lay
//! it out like any other image while WebRender samples the texture directly.

use std::collections::HashMap;

use vstd::prelude::*;

use crate::image_ids::{WebRenderExternalImageIdManager, WebRenderImageHandlerType};

verus! {

broadcast use vstd::std_specs::hash::group_hash_axioms;

/// A texture the embedder owns, and the size WebRender should sample it at.
#[derive(Clone, Copy, Debug, PartialEq, Eq, Structural)]
pub struct EmbedderTexture {
    /// The name of the texture in the GPU context Servo renders with.
    pub texture_id: u32,
    pub width: i32,
    pub height: i32,
}

/// The key by which WebRender knows an image of a document: the namespace of the API that
/// allocated it, and a number unique in that namespace.
#[derive(Clone, Copy, Debug, PartialEq, Eq, Structural)]
pub struct ImageKey {
    pub namespace: u32,
    pub id: u32,
}

/// The pixel format WebRender is told the embedder's textures hold.
#[derive(Clone, Copy, Debug, PartialEq, Eq, Structural)]
pub enum ImageFormat {
    /// Four channels, one byte each, in blue, green, red, alpha order.
    Bgra8,
}

/// How WebRender is to read an image that an update points at.
#[derive(Clone, Copy, Debug, PartialEq, Eq, Structural)]
pub struct ImageDescriptor {
    pub format: ImageFormat,
    pub width: i32,
    pub height: i32,
    /// Bytes from one row to the next; `None` when rows are tightly packed.
    pub stride: Option<i32>,
    /// Offset of the first pixel in its buffer.
    pub offset: i32,
    /// The bits of WebRender's descriptor flags that are set.
    pub flags: u32,
}

/// The kind of GPU texture an external image lives in.
#[derive(Clone, Copy, Debug, PartialEq, Eq, Structural)]
pub enum ImageBufferKind {
    Texture2D,
}

/// Where an external image's pixels are.
#[derive(Clone, Copy, Debug, PartialEq, Eq, Structural)]
pub enum ExternalImageType {
    TextureHandle(ImageBufferKind),
}

/// What WebRender is told about an external image when it is updated.
#[derive(Clone, Copy, Debug, PartialEq, Eq, Structural)]
pub struct ExternalImageData {
    pub id: u64,
    pub channel_index: u8,
    pub image_type: ExternalImageType,
    pub normalized_uvs: bool,
}

/// What WebRender must be told after a texture changed: each image key bound to it is to be
/// updated with `descriptor` and `data`, then a frame generated for it, in this order.
pub struct ImageUpdate {
    pub descriptor: ImageDescriptor,
    pub data: ExternalImageData,
    pub image_keys: Vec<ImageKey>,
}

/// What WebRender is handed when it locks an external image for sampling.
#[derive(Clone, Copy, Debug, PartialEq, Eq, Structural)]
pub enum ExternalImageSource {
    /// A texture handle in the GPU context.
    NativeTexture(u32),
    /// Nothing can be sampled.
    Invalid,
}

/// The descriptor WebRender gets for `texture`: BGRA8 at the texture's size, tightly packed,
/// from the start of the buffer, with no flag set.
pub open spec fn texture_descriptor(texture: EmbedderTexture) -> ImageDescriptor {
    ImageDescriptor {
        format: ImageFormat::Bgra8,
        width: texture.width,
        height: texture.height,
        stride: None,
        offset: 0,
        flags: 0,
    }
}

/// What WebRender is told of the external image `id`: the first channel of a 2D texture, with
/// UV coordinates in texels.
pub open spec fn texture_image_data(id: u64) -> ExternalImageData {
    ExternalImageData {
        id,
        channel_index: 0,
        image_type: ExternalImageType::TextureHandle(ImageBufferKind::Texture2D),
        normalized_uvs: false,
    }
}

/// The answer to a lock of an image that has `texture`, or of one that has none.
pub open spec fn lock_answer(texture: Option<EmbedderTexture>) -> (ExternalImageSource, (i32, i32)) {
    match texture {
        Some(t) => (ExternalImageSource::NativeTexture(t.texture_id), (t.width, t.height)),
        None => (ExternalImageSource::Invalid, (0, 0)),
    }
}

/// `bindings` without those of `image_key`.
pub open spec fn without_key<P>(bindings: Seq<(ImageKey, P)>, image_key: ImageKey) -> Seq<(ImageKey, P)> {
    bindings.filter(|b: (ImageKey, P)| b.0 != image_key)
}

/// The embedder's registry of the textures it wants pages to be able to display, and of the
/// images documents resolved to them. `P` is the channel to the WebRender API of the document
/// that holds an image.
pub struct ExternalImageChannel<P> {
    id_manager: Option<WebRenderExternalImageIdManager>,
    textures: HashMap<u64, EmbedderTexture>,
    /// The images a document has resolved to one of these textures. WebRender caches what it has
    /// composited, so it has to be told when a texture holds something new.
    bindings: HashMap<u64, Vec<(ImageKey, P)>>,
}

impl<P> ExternalImageChannel<P> {
    /// The allocator of identifiers, once Servo has handed one over.
    pub closed spec fn id_manager(&self) -> Option<WebRenderExternalImageIdManager> {
        self.id_manager
    }

    /// The texture registered for each identifier.
    pub closed spec fn textures(&self) -> Map<u64, EmbedderTexture> {
        self.textures@
    }

    /// For each identifier, the images bound to it, in the order they were bound.
    pub closed spec fn bindings(&self) -> Map<u64, Seq<(ImageKey, P)>> {
        self.bindings@.map_values(|v: Vec<(ImageKey, P)>| v@)
    }

    pub open spec fn attached(&self) -> bool {
        self.id_manager() is Some
    }

    /// Whether a registration can still be given an identifier, or is refused before that.
    pub open spec fn can_register(&self) -> bool {
        self.id_manager() matches Some(m) ==> !m.exhausted()
    }

    /// No identifier is bound to an empty list of images.
    #[verifier::type_invariant]
    closed spec fn inv(self) -> bool {
        forall|id: u64| #[trigger] self.bindings@.contains_key(id) ==> self.bindings@[id]@.len() > 0
    }

    /// What `get(id)` answers.
    pub open spec fn texture_of(&self, id: u64) -> Option<EmbedderTexture> {
        if self.textures().contains_key(id) {
            Some(self.textures()[id])
        } else {
            None
        }
    }

    /// The bindings of `id`, empty if it has none.
    pub open spec fn bindings_of(&self, id: u64) -> Seq<(ImageKey, P)> {
        if self.bindings().contains_key(id) {
            self.bindings()[id]
        } else {
            Seq::empty()
        }
    }

    /// `post` is what `register(texture)` makes of `self`, answering `res`: nothing changes and
    /// `None` is answered before an allocator is attached; after, the next identifier is handed
    /// out, answered by the embedder, and `texture` is registered under it.
    pub open spec fn is_register(self, post: Self, texture: EmbedderTexture, res: Option<u64>) -> bool {
        &&& post.bindings() == self.bindings()
        &&& match self.id_manager() {
            None => {
                &&& res is None
                &&& post.id_manager() is None
                &&& post.textures() == self.textures()
            },
            Some(m) => {
                let id = (m.last_id() + 1) as u64;
                &&& res == Some(id)
                &&& !m.images().contains_key(id)
                &&& post.id_manager() matches Some(m2) && m2.last_id() == id && m2.images()
                    == m.images().insert(id, WebRenderImageHandlerType::Embedder)
                &&& post.textures() == self.textures().insert(id, texture)
            },
        }
    }

    /// `post` is what `bind(id, image_key, paint_api)` makes of `self`: the binding is added
    /// after those of `id`.
    pub open spec fn is_bind(self, post: Self, id: u64, image_key: ImageKey, paint_api: P) -> bool {
        &&& post.id_manager() == self.id_manager()
        &&& post.textures() == self.textures()
        &&& post.bindings() == self.bindings().insert(
            id,
            self.bindings_of(id).push((image_key, paint_api)),
        )
    }

    /// `post` is what `update(id, texture)` makes of `self`, answering `res`: `texture` is
    /// registered under `id`, and what WebRender is told names, in order, the image keys bound to
    /// `id`, if any.
    pub open spec fn is_update(
        self,
        post: Self,
        id: u64,
        texture: EmbedderTexture,
        res: Option<ImageUpdate>,
    ) -> bool {
        &&& post.id_manager() == self.id_manager()
        &&& post.textures() == self.textures().insert(id, texture)
        &&& post.bindings() == self.bindings()
        &&& (res is Some <==> self.bindings().contains_key(id))
        &&& (res matches Some(u) ==> {
            &&& u.descriptor == texture_descriptor(texture)
            &&& u.data == texture_image_data(id)
            &&& u.image_keys@ == self.bindings()[id].map_values(|b: (ImageKey, P)| b.0)
        })
    }

    /// `post` is what `unbind(id, image_key)` makes of `self`: the bindings of `id` to
    /// `image_key` are gone, the others stay in order, and `id` is bound to nothing once none is
    /// left.
    pub open spec fn is_unbind(self, post: Self, id: u64, image_key: ImageKey) -> bool {
        &&& post.id_manager() == self.id_manager()
        &&& post.textures() == self.textures()
        &&& (!self.bindings().contains_key(id) ==> post.bindings() == self.bindings())
        &&& (self.bindings().contains_key(id) ==> {
            let kept = without_key(self.bindings()[id], image_key);
            post.bindings() == if kept.len() == 0 {
                self.bindings().remove(id)
            } else {
                self.bindings().insert(id, kept)
            }
        })
    }

    /// `post` is what `unregister(id)` makes of `self`: the texture and the bindings of `id` are
    /// gone, and the allocator, if any, forgets it.
    pub open spec fn is_unregister(self, post: Self, id: u64) -> bool {
        &&& post.textures() == self.textures().remove(id)
        &&& post.bindings() == self.bindings().remove(id)
        &&& match self.id_manager() {
            None => post.id_manager() is None,
            Some(m) => post.id_manager() matches Some(m2) && m2.last_id() == m.last_id()
                && m2.images() == m.images().remove(id),
        }
    }

    proof fn lemma_bindings_view(&self)
        ensures
            forall|id: u64| #[trigger] self.bindings().contains_key(id) <==> self.bindings@.contains_key(id),
            forall|id: u64| self.bindings@.contains_key(id) ==> #[trigger] self.bindings()[id] == self.bindings@[id]@,
    {
    }

    pub fn new() -> (res: Self)
        ensures
            res.id_manager() is None,
            res.textures() == Map::<u64, EmbedderTexture>::empty(),
            res.bindings() == Map::<u64, Seq<(ImageKey, P)>>::empty(),
    {
        let res = ExternalImageChannel {
            id_manager: None,
            textures: HashMap::new(),
            bindings: HashMap::new(),
        };
        assert(res.bindings() =~= Map::<u64, Seq<(ImageKey, P)>>::empty());
        res
    }

    /// Called by Servo once it knows how to allocate external image identifiers.
    pub fn attach(&mut self, id_manager: WebRenderExternalImageIdManager)
        ensures
            final(self).id_manager() == Some(id_manager),
            final(self).textures() == old(self).textures(),
            final(self).bindings() == old(self).bindings(),
    {
        proof {
            use_type_invariant(&*self);
        }
        self.id_manager = Some(id_manager);
        assert(self.bindings() =~= old(self).bindings());
    }

    /// Registers `texture`, returning the identifier to serve as the content of a resource, or
    /// `None` if Servo has not started yet.
    pub fn register(&mut self, texture: EmbedderTexture) -> (res: Option<u64>)
        requires
            old(self).can_register(),
        ensures
            old(self).is_register(*final(self), texture, res),
    {
        proof {
            use_type_invariant(&*self);
        }
        let mut id_manager: Option<WebRenderExternalImageIdManager> = None;
        std::mem::swap(&mut id_manager, &mut self.id_manager);
        match id_manager {
            None => {
                assert(self.bindings() =~= old(self).bindings());
                None
            },
            Some(mut id_manager) => {
                let id = id_manager.next_id(WebRenderImageHandlerType::Embedder);
                self.id_manager = Some(id_manager);
                let mut textures = HashMap::new();
                std::mem::swap(&mut textures, &mut self.textures);
                textures.insert(id, texture);
                self.textures = textures;
                assert(self.bindings() =~= old(self).bindings());
                Some(id)
            },
        }
    }

    /// Records that a document resolved a resource to the texture registered as `id`, so that
    /// updating the texture can invalidate what WebRender composited from it.
    pub fn bind(&mut self, id: u64, image_key: ImageKey, paint_api: P)
        ensures
            old(self).is_bind(*final(self), id, image_key, paint_api),
    {
        proof {
            use_type_invariant(&*self);
            self.lemma_bindings_view();
        }
        let ghost expected = old(self).bindings().insert(
            id,
            old(self).bindings_of(id).push((image_key, paint_api)),
        );
        let mut bindings = HashMap::new();
        std::mem::swap(&mut bindings, &mut self.bindings);
        let mut keys = match bindings.remove(&id) {
            Some(keys) => keys,
            None => Vec::new(),
        };
        keys.push((image_key, paint_api));
        bindings.insert(id, keys);
        assert(bindings@.map_values(|v: Vec<(ImageKey, P)>| v@) =~= expected);
        self.bindings = bindings;
    }

    /// Points `id` at a different texture, or at the same texture at a different size, and
    /// returns what WebRender must be told so that anything composited from it is redrawn:
    /// nothing if no image is bound to `id`.
    pub fn update(&mut self, id: u64, texture: EmbedderTexture) -> (res: Option<ImageUpdate>)
        ensures
            old(self).is_update(*final(self), id, texture, res),
    {
        proof {
            use_type_invariant(&*self);
            self.lemma_bindings_view();
        }
        let mut textures = HashMap::new();
        std::mem::swap(&mut textures, &mut self.textures);
        textures.insert(id, texture);
        self.textures = textures;
        assert(self.bindings() =~= old(self).bindings());
        let bindings = match self.bindings.get(&id) {
            None => {
                return None;
            },
            Some(bindings) => bindings,
        };
        let descriptor = ImageDescriptor {
            format: ImageFormat::Bgra8,
            width: texture.width,
            height: texture.height,
            stride: None,
            offset: 0,
            flags: 0,
        };
        let data = ExternalImageData {
            id,
            channel_index: 0,
            image_type: ExternalImageType::TextureHandle(ImageBufferKind::Texture2D),
            normalized_uvs: false,
        };
        let mut image_keys: Vec<ImageKey> = Vec::new();
        let n = bindings.len();
        for i in 0..n
            invariant
                n == bindings@.len(),
                image_keys@ == bindings@.take(i as int).map_values(|b: (ImageKey, P)| b.0),
        {
            image_keys.push(bindings[i].0);
            assert(bindings@.take(i + 1).map_values(|b: (ImageKey, P)| b.0) =~= bindings@.take(
                i as int,
            ).map_values(|b: (ImageKey, P)| b.0).push(bindings@[i as int].0));
        }
        assert(bindings@.take(n as int) =~= bindings@);
        Some(ImageUpdate { descriptor, data, image_keys })
    }

    /// Forgets that `image_key` displays the texture registered as `id`, once the document that
    /// resolved it is gone.
    pub fn unbind(&mut self, id: u64, image_key: ImageKey)
        ensures
            old(self).is_unbind(*final(self), id, image_key),
    {
        proof {
            use_type_invariant(&*self);
            self.lemma_bindings_view();
        }
        let mut bindings = HashMap::new();
        std::mem::swap(&mut bindings, &mut self.bindings);
        let mut rest = match bindings.remove(&id) {
            None => {
                self.bindings = bindings;
                assert(self.bindings() =~= old(self).bindings());
                return;
            },
            Some(keys) => keys,
        };
        let ghost original = rest@;
        let mut kept: Vec<(ImageKey, P)> = Vec::new();
        while rest.len() > 0
            invariant
                rest@.len() <= original.len(),
                rest@ == original.skip(original.len() - rest@.len()),
                kept@ == without_key(original.take(original.len() - rest@.len()), image_key),
            decreases rest@.len(),
        {
            let ghost done = original.len() - rest@.len();
            let binding = rest.remove(0);
            proof {
                assert(binding == original[done]);
                assert(original.take(done + 1).drop_last() =~= original.take(done));
                assert(original.take(done + 1).last() == original[done]);
                reveal_with_fuel(Seq::filter, 1);
                assert(rest@ =~= original.skip(done + 1));
            }
            if binding.0 != image_key {
                kept.push(binding);
            }
        }
        proof {
            assert(original.take(original.len() as int) =~= original);
        }
        if kept.len() > 0 {
            bindings.insert(id, kept);
        }
        proof {
            let k = without_key(original, image_key);
            let view = bindings@.map_values(|v: Vec<(ImageKey, P)>| v@);
            if k.len() == 0 {
                assert(view =~= old(self).bindings().remove(id));
            } else {
                assert(view =~= old(self).bindings().insert(id, k));
            }
        }
        self.bindings = bindings;
    }

    /// Forgets `id` and everything bound to it. Pages still displaying it stop being able to.
    pub fn unregister(&mut self, id: u64)
        ensures
            old(self).is_unregister(*final(self), id),
    {
        proof {
            use_type_invariant(&*self);
            self.lemma_bindings_view();
        }
        let mut textures = HashMap::new();
        std::mem::swap(&mut textures, &mut self.textures);
        textures.remove(&id);
        self.textures = textures;
        let mut bindings = HashMap::new();
        std::mem::swap(&mut bindings, &mut self.bindings);
        bindings.remove(&id);
        assert(bindings@.map_values(|v: Vec<(ImageKey, P)>| v@) =~= old(self).bindings().remove(id));
        self.bindings = bindings;
        let mut id_manager: Option<WebRenderExternalImageIdManager> = None;
        std::mem::swap(&mut id_manager, &mut self.id_manager);
        if let Some(mut id_manager) = id_manager {
            id_manager.remove(id);
            self.id_manager = Some(id_manager);
        }
    }

    /// Whether a registration now would not run out of identifiers.
    pub fn has_ids_left(&self) -> (res: bool)
        ensures
            res == self.can_register(),
    {
        match &self.id_manager {
            Some(id_manager) => !id_manager.is_exhausted(),
            None => true,
        }
    }

    /// The images bound to `id`, with the channels to their documents, in the order they were
    /// bound; `None` if there is none.
    pub fn bindings_for(&self, id: u64) -> (res: Option<&Vec<(ImageKey, P)>>)
        ensures
            res is Some <==> self.bindings().contains_key(id),
            res matches Some(v) ==> v@ == self.bindings()[id],
    {
        proof {
            self.lemma_bindings_view();
        }
        self.bindings.get(&id)
    }

    /// The texture registered as `id`, if any.
    pub fn get(&self, id: u64) -> (res: Option<EmbedderTexture>)
        ensures
            res == self.texture_of(id),
    {
        match self.textures.get(&id) {
            Some(texture) => Some(*texture),
            None => None,
        }
    }

    /// Answers WebRender's request to sample the image `id`: the texture registered for it at
    /// its size, or nothing to sample and an empty size.
    pub fn lock(&self, id: u64) -> (res: (ExternalImageSource, (i32, i32)))
        ensures
            res == lock_answer(self.texture_of(id)),
    {
        match self.get(id) {
            Some(texture) => (
                ExternalImageSource::NativeTexture(texture.texture_id),
                (texture.width, texture.height),
            ),
            None => (ExternalImageSource::Invalid, (0, 0)),
        }
    }
}

} // verus!

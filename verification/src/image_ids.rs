//! The allocation of the identifiers WebRender knows external images by.

use std::collections::HashMap;

use vstd::prelude::*;

verus! {

broadcast use vstd::std_specs::hash::group_hash_axioms;

/// Which part of Servo answers WebRender's requests for the contents of an external image.
#[derive(Clone, Copy, Debug, PartialEq, Eq, Structural)]
pub enum WebRenderImageHandlerType {
    WebGl,
    Media,
    WebGpu,
    Embedder,
}

/// Hands out the identifiers of external images and remembers, for each identifier still in use,
/// which handler answers for it. Identifiers are never reused: each one is one more than the last,
/// and the first is 1, so that 0 never names an image.
pub struct WebRenderExternalImageIdManager {
    external_images: HashMap<u64, WebRenderImageHandlerType>,
    last_image_id: u64,
}

impl WebRenderExternalImageIdManager {
    /// The identifiers in use, each with the handler that answers for it.
    pub closed spec fn images(&self) -> Map<u64, WebRenderImageHandlerType> {
        self.external_images@
    }

    /// The last identifier handed out, 0 before the first.
    pub closed spec fn last_id(&self) -> u64 {
        self.last_image_id
    }

    /// Every identifier in use was handed out already.
    pub open spec fn wf(&self) -> bool {
        forall|id: u64| #[trigger] self.images().contains_key(id) ==> 1 <= id <= self.last_id()
    }

    #[verifier::type_invariant]
    closed spec fn inv(self) -> bool {
        self.wf()
    }

    /// Whether every identifier has been handed out.
    pub open spec fn exhausted(&self) -> bool {
        self.last_id() == u64::MAX
    }

    /// Whether every identifier has been handed out, so that no registration can succeed.
    pub fn is_exhausted(&self) -> (res: bool)
        ensures
            res == self.exhausted(),
    {
        self.last_image_id == u64::MAX
    }

    pub fn new() -> (res: Self)
        ensures
            res.images() == Map::<u64, WebRenderImageHandlerType>::empty(),
            res.last_id() == 0,
    {
        WebRenderExternalImageIdManager { external_images: HashMap::new(), last_image_id: 0 }
    }

    /// Hands out a new identifier, answered for by `handler_type`.
    pub fn next_id(&mut self, handler_type: WebRenderImageHandlerType) -> (id: u64)
        requires
            !old(self).exhausted(),
        ensures
            id == old(self).last_id() + 1,
            final(self).last_id() == id,
            !old(self).images().contains_key(id),
            final(self).images() == old(self).images().insert(id, handler_type),
    {
        proof {
            use_type_invariant(&*self);
        }
        let id = self.last_image_id + 1;
        let mut external_images = HashMap::new();
        std::mem::swap(&mut external_images, &mut self.external_images);
        external_images.insert(id, handler_type);
        assert forall|k: u64| #[trigger] external_images@.contains_key(k) implies 1 <= k <= id by {
            if k != id {
                assert(old(self).images().contains_key(k));
            }
        }
        *self = WebRenderExternalImageIdManager { external_images, last_image_id: id };
        id
    }

    /// Forgets `id`; it is not handed out again.
    pub fn remove(&mut self, id: u64)
        ensures
            final(self).last_id() == old(self).last_id(),
            final(self).images() == old(self).images().remove(id),
    {
        proof {
            use_type_invariant(&*self);
        }
        let last = self.last_image_id;
        let mut external_images = HashMap::new();
        std::mem::swap(&mut external_images, &mut self.external_images);
        external_images.remove(&id);
        assert forall|k: u64| #[trigger] external_images@.contains_key(k) implies 1 <= k <= last by {
            assert(old(self).images().contains_key(k));
        }
        *self = WebRenderExternalImageIdManager { external_images, last_image_id: last };
    }

    /// Which handler answers for `id`, if it is in use.
    pub fn get(&self, id: u64) -> (res: Option<WebRenderImageHandlerType>)
        ensures
            res == (if self.images().contains_key(id) {
                Some(self.images()[id])
            } else {
                None
            }),
    {
        match self.external_images.get(&id) {
            Some(handler_type) => Some(*handler_type),
            None => None,
        }
    }
}

} // verus!

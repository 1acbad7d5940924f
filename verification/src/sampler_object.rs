//! Sampler objects: the backend keeps one sampler per sampling behavior, created on first use.

use vstd::prelude::*;

use std::collections::HashMap;

use crate::{DrawError, GlObject};
use crate::version::{Api, CapabilitiesSource, ExtensionsList, Version, ver_ge, version_ge};

verus! {

/// Whether a backend of version `v` with extensions `e` has the entry points of sampler
/// objects: OpenGL 3.2, OpenGL ES 3.0 or `GL_ARB_sampler_objects`.
pub open spec fn sampler_objects_available(v: Version, e: ExtensionsList) -> bool {
    ver_ge(v, Api::Gl, 3, 2) || ver_ge(v, Api::GlEs, 3, 0) || e.gl_arb_sampler_objects
}

/// The sampler to use for a behavior.
#[derive(Copy, Clone, Debug, PartialEq, Eq, Structural)]
pub enum SamplerChoice {
    /// The sampler that already exists for this behavior, by its OpenGL name.
    Existing(u32),
    /// A new sampler must be created for this behavior and kept for later uses.
    Create,
}

/// The samplers created so far, one per sampling behavior: each behavior, by an integer that
/// encodes it, with the OpenGL name of its sampler.
#[derive(Debug)]
pub struct SamplersContainer {
    samplers: HashMap<u64, u32>,
}

impl SamplersContainer {
    /// The samplers, by the behavior they were created for.
    pub closed spec fn view(&self) -> Map<u64, u32> {
        self.samplers@
    }

    /// An empty container.
    pub fn new() -> (r: SamplersContainer)
        ensures
            r@ == Map::<u64, u32>::empty(),
    {
        SamplersContainer { samplers: HashMap::new() }
    }

    /// Returns the number of samplers.
    pub fn len(&self) -> (r: usize)
        ensures
            r == self@.len(),
    {
        broadcast use vstd::std_specs::hash::group_hash_axioms;

        self.samplers.len()
    }

    /// Returns the sampler created for `behavior`, if any.
    pub fn get(&self, behavior: u64) -> (r: Option<u32>)
        ensures
            r == sampler_for(self@, behavior),
    {
        broadcast use vstd::std_specs::hash::group_hash_axioms;

        match self.samplers.get(&behavior) {
            Some(id) => Some(*id),
            None => None,
        }
    }

    /// Records sampler `id`, created for `behavior`, which had none.
    pub fn insert(&mut self, behavior: u64, id: u32)
        requires
            !old(self)@.contains_key(behavior),
        ensures
            final(self)@ == old(self)@.insert(behavior, id),
    {
        broadcast use vstd::std_specs::hash::group_hash_axioms;

        self.samplers.insert(behavior, id);
    }
}

/// The sampler of `samplers` for `behavior`, if there is one.
pub open spec fn sampler_for(samplers: Map<u64, u32>, behavior: u64) -> Option<u32> {
    if samplers.contains_key(behavior) {
        Some(samplers[behavior])
    } else {
        None
    }
}

/// What getting the sampler for `behavior` gives on a backend of version `v` with extensions
/// `e`, given the samplers created so far.
pub open spec fn sampler_choice(
    v: Version,
    e: ExtensionsList,
    samplers: Map<u64, u32>,
    behavior: u64,
) -> Result<SamplerChoice, DrawError> {
    if !sampler_objects_available(v, e) {
        Err(DrawError::SamplersNotSupported)
    } else {
        match sampler_for(samplers, behavior) {
            Some(id) => Ok(SamplerChoice::Existing(id)),
            None => Ok(SamplerChoice::Create),
        }
    }
}

/// Returns the sampler to use for `behavior`: the one already created for it, or `Create`
/// when a sampler must be created and then recorded with `SamplersContainer::insert`; or
/// `DrawError::SamplersNotSupported` if the backend has no sampler objects.
pub fn get_sampler<C: CapabilitiesSource>(
    ctxt: &C,
    samplers: &SamplersContainer,
    behavior: u64,
) -> (r: Result<SamplerChoice, DrawError>)
    ensures
        r == sampler_choice(ctxt.version_view(), ctxt.extensions_view(), samplers@, behavior),
{
    let v = ctxt.get_version();
    if !version_ge(v, Api::Gl, 3, 2) && !version_ge(v, Api::GlEs, 3, 0)
        && !ctxt.get_extensions().gl_arb_sampler_objects {
        return Err(DrawError::SamplersNotSupported);
    }
    match samplers.get(behavior) {
        Some(id) => Ok(SamplerChoice::Existing(id)),
        None => Ok(SamplerChoice::Create),
    }
}

/// Once the sampler created for a behavior has been recorded, getting the sampler for that
/// behavior again gives it, and records nothing more: the number of samplers grew by one with
/// the first call only.
pub proof fn lemma_sampler_second_call(
    v: Version,
    e: ExtensionsList,
    samplers: Map<u64, u32>,
    behavior: u64,
    id: u32,
)
    requires
        sampler_objects_available(v, e),
        samplers.dom().finite(),
        sampler_choice(v, e, samplers, behavior) == Ok::<SamplerChoice, DrawError>(
            SamplerChoice::Create,
        ),
    ensures
        sampler_choice(v, e, samplers.insert(behavior, id), behavior) == Ok::<
            SamplerChoice,
            DrawError,
        >(SamplerChoice::Existing(id)),
        samplers.insert(behavior, id).len() == samplers.len() + 1,
{
}

/// An OpenGL sampler object.
#[derive(Debug)]
pub struct SamplerObject {
    id: u32,
    destroyed: bool,
}

impl SamplerObject {
    /// The OpenGL name of the sampler.
    pub closed spec fn id_view(&self) -> u32 {
        self.id
    }

    /// Whether the sampler has been destroyed.
    pub closed spec fn destroyed_view(&self) -> bool {
        self.destroyed
    }

    /// Records the sampler object `id` that the backend generated; the backend must have sampler
    /// objects. Its parameters are set by the caller from the sampling behavior.
    pub fn new<C: CapabilitiesSource>(ctxt: &C, id: u32) -> (r: SamplerObject)
        requires
            sampler_objects_available(ctxt.version_view(), ctxt.extensions_view()),
        ensures
            r.id_view() == id,
            !r.destroyed_view(),
    {
        SamplerObject { id, destroyed: false }
    }

    /// Destroys the sampler: returns its name, to delete it.
    pub fn destroy(self) -> (r: u32)
        ensures
            r == self.id_view(),
    {
        let mut sampler = self;
        sampler.destroyed = true;
        sampler.id
    }
}

impl GlObject for SamplerObject {
    type Id = u32;

    fn get_id(&self) -> (r: u32)
        ensures
            r == self.id_view(),
    {
        self.id
    }
}

} // verus!

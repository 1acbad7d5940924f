//! Lists of uniform values to give to a program, built one uniform at a time.

use vstd::prelude::*;

verus! {

/// The names of the uniforms of a list, in the order in which they were added.
pub trait Uniforms {
    /// The names of the uniforms, in the order in which they were added.
    spec fn uniform_names(&self) -> Seq<Seq<char>>;
}

/// An empty list of uniforms.
#[derive(Copy, Clone, Debug, PartialEq, Eq, Structural)]
pub struct EmptyUniforms;

impl Uniforms for EmptyUniforms {
    open spec fn uniform_names(&self) -> Seq<Seq<char>> {
        Seq::empty()
    }
}

/// A list of uniforms: the last one added, with its name, and the ones added before it.
#[derive(Copy, Clone, Debug)]
pub struct UniformsStorage<'n, T, R> {
    name: &'n str,
    value: T,
    rest: R,
}

impl<'n, T, R: Uniforms> Uniforms for UniformsStorage<'n, T, R> {
    open spec fn uniform_names(&self) -> Seq<Seq<char>> {
        self.rest_view().uniform_names().push(self.name_view())
    }
}

impl<'n, T> UniformsStorage<'n, T, EmptyUniforms> {
    /// Builds a list that holds one uniform.
    pub fn new(name: &'n str, value: T) -> (r: UniformsStorage<'n, T, EmptyUniforms>)
        ensures
            r.name_view() == name@,
            r.value_view() == value,
            r.rest_view() == EmptyUniforms,
    {
        UniformsStorage { name, value, rest: EmptyUniforms }
    }
}

impl<'n, T, R> UniformsStorage<'n, T, R> {
    /// The name of the last uniform added.
    pub closed spec fn name_view(&self) -> Seq<char> {
        self.name@
    }

    /// The value of the last uniform added.
    pub closed spec fn value_view(&self) -> T {
        self.value
    }

    /// The uniforms added before the last one.
    pub closed spec fn rest_view(&self) -> R {
        self.rest
    }

    /// Adds a uniform to the list.
    pub fn add<U>(self, name: &'n str, value: U) -> (r: UniformsStorage<'n, U, UniformsStorage<'n, T, R>>)
        ensures
            r.name_view() == name@,
            r.value_view() == value,
            r.rest_view() == self,
    {
        UniformsStorage { name, value, rest: self }
    }

    /// Returns the name of the last uniform added.
    pub fn get_name(&self) -> (r: &'n str)
        ensures
            r@ == self.name_view(),
    {
        self.name
    }

    /// Returns the value of the last uniform added.
    pub fn get_value(&self) -> (r: &T)
        ensures
            *r == self.value_view(),
    {
        &self.value
    }

    /// Returns the uniforms added before the last one.
    pub fn get_rest(&self) -> (r: &R)
        ensures
            *r == self.rest_view(),
    {
        &self.rest
    }
}

/// Adding a uniform to a list appends its name to the names of the list.
pub proof fn lemma_add_appends_name<'n, T, U, R: Uniforms>(
    list: UniformsStorage<'n, T, R>,
    added: UniformsStorage<'n, U, UniformsStorage<'n, T, R>>,
    name: Seq<char>,
)
    requires
        added.rest_view() == list,
        added.name_view() == name,
    ensures
        added.uniform_names() == list.uniform_names().push(name),
{
}

} // verus!

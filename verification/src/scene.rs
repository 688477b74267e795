//! Scene data model: the drawables and the lights one frame renders.

use vstd::prelude::*;
use crate::light::Light;
use crate::render_object::RenderObject;

verus! {

/// What the renderer consumes each frame.
#[derive(Debug)]
pub struct Scene<S> {
    pub objects: Vec<RenderObject<S>>,
    pub lights: Vec<Light<S>>,
}

impl<S> Scene<S> {
    pub fn new() -> (r: Self)
        ensures
            r.objects@ == Seq::<RenderObject<S>>::empty(),
            r.lights@ == Seq::<Light<S>>::empty(),
    {
        Scene { objects: Vec::new(), lights: Vec::new() }
    }

    pub fn add_object(&mut self, obj: RenderObject<S>)
        ensures
            final(self).objects@ == old(self).objects@.push(obj),
            final(self).lights@ == old(self).lights@,
    {
        self.objects.push(obj);
    }

    pub fn add_light(&mut self, light: Light<S>)
        ensures
            final(self).lights@ == old(self).lights@.push(light),
            final(self).objects@ == old(self).objects@,
    {
        self.lights.push(light);
    }

    pub fn get_objects(&self) -> (r: &Vec<RenderObject<S>>)
        ensures
            r@ == self.objects@,
    {
        &self.objects
    }

    pub fn get_lights(&self) -> (r: &Vec<Light<S>>)
        ensures
            r@ == self.lights@,
    {
        &self.lights
    }
}

} // verus!

//! The lights of a scene.

use vstd::prelude::*;

verus! {

/// The lights of a scene, each part kept in a list of its own: the colours
/// in one, the positions in another. The type of a colour or position is
/// left to the caller.
pub struct RawLights<V> {
    colors: Vec<V>,
    positions: Vec<V>,
}

impl<V> RawLights<V> {
    /// The positions of the lights, in the order they were added.
    pub closed spec fn spec_positions(&self) -> Seq<V> {
        self.positions@
    }

    /// The colours of the lights, in the order they were added.
    pub closed spec fn spec_colors(&self) -> Seq<V> {
        self.colors@
    }

    /// Every light has a colour and a position. This holds of every value
    /// that was made by `new` and `add_light`.
    pub open spec fn wf(&self) -> bool {
        self.spec_colors().len() == self.spec_positions().len()
    }

    /// No lights.
    pub fn new() -> (lights: Self)
        ensures
            lights.spec_positions().len() == 0,
            lights.spec_colors().len() == 0,
            lights.wf(),
    {
        RawLights { colors: Vec::new(), positions: Vec::new() }
    }

    /// Number of lights.
    pub fn len(&self) -> (n: usize)
        ensures
            n == self.spec_positions().len(),
    {
        self.positions.len()
    }

    /// Adds a light behind the others.
    pub fn add_light(&mut self, position: V, color: V)
        ensures
            final(self).spec_positions() == old(self).spec_positions().push(position),
            final(self).spec_colors() == old(self).spec_colors().push(color),
            old(self).wf() ==> final(self).wf(),
    {
        self.colors.push(color);
        self.positions.push(position);
    }

    /// Position and colour of a light.
    pub fn get_light(&self, index: usize) -> (light: (&V, &V))
        requires
            self.wf(),
            index < self.spec_positions().len(),
        ensures
            *light.0 == self.spec_positions()[index as int],
            *light.1 == self.spec_colors()[index as int],
    {
        (&self.positions[index], &self.colors[index])
    }

    /// All positions and all colours.
    pub fn get_lights(&self) -> (lights: (&Vec<V>, &Vec<V>))
        ensures
            lights.0@ == self.spec_positions(),
            lights.1@ == self.spec_colors(),
    {
        (&self.positions, &self.colors)
    }
}

} // verus!

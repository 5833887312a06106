//! Configuration of the editor's animation effects.

use vstd::prelude::*;

verus! {

/// Settings for the editor's animation effects.
#[derive(Clone, Copy, PartialEq, Eq, Structural, Debug)]
pub struct AnimationConfig {
    pub blur: bool,
    pub fade_in: bool,
}

impl AnimationConfig {
    /// A fresh configuration carrying the default settings.
    pub fn new() -> (r: AnimationConfig)
        ensures
            r.blur,
            r.fade_in,
    {
        AnimationConfig::default()
    }

    /// The default settings: both effects switched on.
    pub fn default() -> (r: AnimationConfig)
        ensures
            r.blur,
            r.fade_in,
    {
        AnimationConfig { blur: true, fade_in: true }
    }

    /// The pair of settings `(blur, fade_in)`.
    pub fn animation_default_settings(&self) -> (r: (bool, bool))
        ensures
            r.0 == self.blur,
            r.1 == self.fade_in,
    {
        (self.blur, self.fade_in)
    }
}

} // verus!

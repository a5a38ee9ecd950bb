//! Choice of shader dialect for the GUI's renderer.

use vstd::prelude::*;

verus! {

/// A shader dialect that the GUI's renderer ships programs in.
#[derive(Clone, Copy, Debug, PartialEq, Eq)]
pub enum Shaders {
    /// Desktop GL, shading language 4.00 and later.
    GlSl400,
    /// Desktop GL, shading language 1.30 and later.
    GlSl130,
    /// Desktop GL, shading language 1.10 and later.
    GlSl110,
    /// Embedded GL, shading language 3.00 and later.
    GlSlEs300,
    /// Embedded GL, shading language 1.00 and later.
    GlSlEs100,
}

impl Shaders {
    /// The newest dialect that a device understands whose shading language
    /// has major version `major`, embedded or not.
    pub open spec fn best_for(is_embedded: bool, major: u32) -> Shaders {
        if is_embedded {
            if major >= 3 {
                Shaders::GlSlEs300
            } else {
                Shaders::GlSlEs100
            }
        } else if major >= 4 {
            Shaders::GlSl400
        } else if major >= 3 {
            Shaders::GlSl130
        } else {
            Shaders::GlSl110
        }
    }

    /// The least major version of the shading language that the dialect
    /// needs.
    pub open spec fn min_major(self) -> int {
        match self {
            Shaders::GlSl400 => 4,
            Shaders::GlSl130 => 3,
            Shaders::GlSl110 => 0,
            Shaders::GlSlEs300 => 3,
            Shaders::GlSlEs100 => 0,
        }
    }

    /// Whether the dialect is one for embedded GL.
    pub open spec fn embedded(self) -> bool {
        self is GlSlEs300 || self is GlSlEs100
    }

    /// Picks the dialect for a device from the version of its shading
    /// language.
    pub fn select(is_embedded: bool, major: u32) -> (shaders: Shaders)
        ensures
            shaders == Self::best_for(is_embedded, major),
    {
        if is_embedded {
            if major >= 3 {
                Shaders::GlSlEs300
            } else {
                Shaders::GlSlEs100
            }
        } else if major >= 4 {
            Shaders::GlSl400
        } else if major >= 3 {
            Shaders::GlSl130
        } else {
            Shaders::GlSl110
        }
    }

    /// The chosen dialect is of the device's kind, the device is new enough
    /// for it, and no dialect of that kind that the device is new enough for
    /// needs a later version.
    pub proof fn best_for_is_newest_supported(is_embedded: bool, major: u32, other: Shaders)
        ensures
            Self::best_for(is_embedded, major).embedded() == is_embedded,
            Self::best_for(is_embedded, major).min_major() <= major,
            other.embedded() == is_embedded && other.min_major() <= major
                ==> other.min_major() <= Self::best_for(is_embedded, major).min_major(),
    {
    }
}

} // verus!

//! Icon sources: paths of SVG icons in the host's asset source.
//!
//! An icon source only names a path; nothing is read or parsed when it is made.
use vstd::prelude::*;

verus! {

/// The path of an SVG icon in the host's asset source.
#[derive(Clone, Debug)]
pub struct IconSource {
    path: String,
}

impl View for IconSource {
    type V = Seq<char>;

    closed spec fn view(&self) -> Seq<char> {
        self.path@
    }
}

impl IconSource {
    /// The icon at `path` (by convention `icons/**/*.svg`).
    pub fn asset(path: &str) -> (r: IconSource)
        ensures
            r@ == path@,
    {
        IconSource { path: path.to_string() }
    }

    /// The icon's path.
    pub fn path(&self) -> (r: &str)
        ensures
            r@ == self@,
    {
        self.path.as_str()
    }

    /// A copy of this source.
    pub fn duplicate(&self) -> (r: IconSource)
        ensures
            r@ == self@,
    {
        IconSource { path: self.path.clone() }
    }
}

/// Conversion of an icon name or a type of the user's into an icon source.
pub trait IntoIconSource {
    /// The icon source that names the same path.
    fn into_icon_source(self) -> IconSource;
}

impl IntoIconSource for IconSource {
    fn into_icon_source(self) -> (r: IconSource)
        ensures
            r@ == self@,
    {
        self
    }
}

} // verus!

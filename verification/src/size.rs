//! The semantic size shared by the components, and how a component's size is resolved.
use vstd::prelude::*;

verus! {

/// Semantic size of a component; each component maps it to its own theme tokens.
#[derive(Clone, Copy, Debug, PartialEq, Eq, Structural)]
pub enum ComponentSize {
    /// Smallest.
    Xs,
    /// Small.
    Sm,
    /// Medium; the default.
    Md,
    /// Large.
    Lg,
}

/// Theme key of a size.
pub open spec fn component_size_key(s: ComponentSize) -> Seq<char> {
    match s {
        ComponentSize::Xs => "xs"@,
        ComponentSize::Sm => "sm"@,
        ComponentSize::Md => "md"@,
        ComponentSize::Lg => "lg"@,
    }
}

impl ComponentSize {
    /// The theme key of the size.
    pub fn token_key(self) -> (r: &'static str)
        ensures
            r@ == component_size_key(self),
    {
        match self {
            ComponentSize::Xs => "xs",
            ComponentSize::Sm => "sm",
            ComponentSize::Md => "md",
            ComponentSize::Lg => "lg",
        }
    }
}

impl Default for ComponentSize {
    fn default() -> (r: Self)
        ensures
            r == ComponentSize::Md,
    {
        ComponentSize::Md
    }
}

/// The application-wide default size, when one was set.
#[derive(Clone, Copy, Debug, PartialEq, Eq, Structural)]
pub struct ComponentSizeSettings {
    /// The default set by the application.
    pub size: Option<ComponentSize>,
}

impl ComponentSizeSettings {
    /// No default set yet.
    pub fn new() -> (r: ComponentSizeSettings)
        ensures
            r.size is None,
    {
        ComponentSizeSettings { size: None }
    }

    /// The current default: `Md` until one is set.
    pub fn component_size(&self) -> (r: ComponentSize)
        ensures
            r == self.size.unwrap_or(ComponentSize::Md),
    {
        match self.size {
            Some(s) => s,
            None => ComponentSize::Md,
        }
    }

    /// Sets the default; components with an explicit size keep theirs.
    pub fn set_component_size(&mut self, size: ComponentSize)
        ensures
            final(self).size == Some(size),
    {
        self.size = Some(size);
    }
}

/// The size a component uses: its explicit size, else the application's default.
pub fn resolved_size(explicit: Option<ComponentSize>, settings: &ComponentSizeSettings) -> (r:
    ComponentSize)
    ensures
        r == (match explicit {
            Some(s) => s,
            None => settings.size.unwrap_or(ComponentSize::Md),
        }),
{
    match explicit {
        Some(s) => s,
        None => settings.component_size(),
    }
}

} // verus!

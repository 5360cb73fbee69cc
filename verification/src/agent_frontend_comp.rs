//! The closed set of frontend build components, in their fixed build
//! order, each with its identity and target artifact path.

use vstd::prelude::*;
use vstd::string::StringExecFns;

verus! {

/// One frontend artifact to build. The build order is Logo, NavHeader,
/// NavFooter, ReactHook, PageContent1, PageContent2.
#[derive(Debug, Clone, Copy, PartialEq, Eq, Structural)]
pub enum BuildComponent {
    Logo,
    NavHeader,
    NavFooter,
    ReactHook,
    PageContent1,
    PageContent2,
}

/// How many components the fixed build order holds.
pub open spec fn component_count() -> int {
    6
}

/// The component at a position of the fixed build order.
pub open spec fn spec_component_at(index: int) -> BuildComponent {
    if index == 0 {
        BuildComponent::Logo
    } else if index == 1 {
        BuildComponent::NavHeader
    } else if index == 2 {
        BuildComponent::NavFooter
    } else if index == 3 {
        BuildComponent::ReactHook
    } else if index == 4 {
        BuildComponent::PageContent1
    } else {
        BuildComponent::PageContent2
    }
}

/// The component at a position of the fixed build order.
pub fn component_at(index: usize) -> (r: BuildComponent)
    ensures
        r == spec_component_at(index as int),
{
    if index == 0 {
        BuildComponent::Logo
    } else if index == 1 {
        BuildComponent::NavHeader
    } else if index == 2 {
        BuildComponent::NavFooter
    } else if index == 3 {
        BuildComponent::ReactHook
    } else if index == 4 {
        BuildComponent::PageContent1
    } else {
        BuildComponent::PageContent2
    }
}

impl BuildComponent {
    /// The component's display name.
    pub open spec fn spec_name(self) -> Seq<char> {
        match self {
            BuildComponent::Logo => "Logo"@,
            BuildComponent::NavHeader => "NavHeader"@,
            BuildComponent::NavFooter => "NavFooter"@,
            BuildComponent::ReactHook => "ReactHook"@,
            BuildComponent::PageContent1 => "PageContent1"@,
            BuildComponent::PageContent2 => "PageContent2"@,
        }
    }

    pub fn name(&self) -> (r: &'static str)
        ensures
            r@ == self.spec_name(),
    {
        match self {
            BuildComponent::Logo => "Logo",
            BuildComponent::NavHeader => "NavHeader",
            BuildComponent::NavFooter => "NavFooter",
            BuildComponent::ReactHook => "ReactHook",
            BuildComponent::PageContent1 => "PageContent1",
            BuildComponent::PageContent2 => "PageContent2",
        }
    }

    /// The artifact path this component is persisted at.
    pub open spec fn spec_filepath(self) -> Seq<char> {
        match self {
            BuildComponent::Logo => "/src/components/shared/Logo.tsx"@,
            BuildComponent::NavHeader => "/src/components/shared/Navigation.tsx"@,
            BuildComponent::NavFooter => "/src/components/shared/Footer.tsx"@,
            BuildComponent::ReactHook => "/src/hooks/useCall.tsx"@,
            BuildComponent::PageContent1 => "/src/components/pages/PageOne.tsx"@,
            BuildComponent::PageContent2 => "/src/components/pages/PageTwo.tsx"@,
        }
    }

    pub fn filepath(&self) -> (r: String)
        ensures
            r@ == self.spec_filepath(),
    {
        match self {
            BuildComponent::Logo => String::from_str("/src/components/shared/Logo.tsx"),
            BuildComponent::NavHeader => String::from_str("/src/components/shared/Navigation.tsx"),
            BuildComponent::NavFooter => String::from_str("/src/components/shared/Footer.tsx"),
            BuildComponent::ReactHook => String::from_str("/src/hooks/useCall.tsx"),
            BuildComponent::PageContent1 => String::from_str("/src/components/pages/PageOne.tsx"),
            BuildComponent::PageContent2 => String::from_str("/src/components/pages/PageTwo.tsx"),
        }
    }
}

} // verus!

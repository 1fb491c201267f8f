//! A container and its subviews.
use crate::action::Action;
use crate::script::{Outcome, Script};
use vstd::prelude::*;

verus! {

/// A container view, as far as border glasses change it. Views go by their addresses.
#[verifier::ext_equal]
pub struct Scene {
    /// The view that the container remembers as its border; zero where there is none.
    pub border: usize,
    /// The subviews of the container, from back to front.
    pub subviews: Seq<usize>,
    /// The view that is made next.
    pub fresh: usize,
}

impl Scene {
    /// Whether the next view has an address of its own.
    pub open spec fn valid(self) -> bool {
        self.fresh != 0 && self.fresh != self.border && !self.subviews.contains(self.fresh)
    }

    /// The same container, with another view to be made next.
    pub open spec fn with_fresh(self, fresh: usize) -> Scene {
        Scene { fresh, ..self }
    }

    /// What an action reports, where the container decides that. A border that is there
    /// can be taken hold of.
    pub open spec fn report(self, action: Action) -> Option<bool> {
        match action {
            Action::FindBorder => Some(self.border != 0),
            Action::RetainBorder => Some(self.border != 0),
            _ => None,
        }
    }

    /// The container once an action has been performed.
    pub open spec fn after(self, action: Action) -> Scene {
        match action {
            Action::DetachBorder => Scene {
                subviews: self.subviews.filter(|view: usize| view != self.border),
                ..self
            },
            Action::ForgetBorder(_) => Scene { border: 0, ..self },
            Action::AddSubview(_) => Scene { subviews: self.subviews.push(self.fresh), ..self },
            Action::RememberBorder(_) => Scene { border: self.fresh, ..self },
            _ => self,
        }
    }

    /// The container without its border glass.
    pub open spec fn cleared(self) -> Scene {
        Scene {
            border: 0,
            subviews: if self.border != 0 {
                self.subviews.filter(|view: usize| view != self.border)
            } else {
                self.subviews
            },
            ..self
        }
    }

    /// The container with the next view for its only border glass, in front of all other
    /// subviews.
    pub open spec fn applied(self) -> Scene {
        Scene { border: self.fresh, subviews: self.cleared().subviews.push(self.fresh), ..self }
    }

    /// Whether the script, started on this container, ends in `outcome` and leaves the
    /// container as `end`, whatever is reported by the actions that the container does not
    /// decide.
    pub open spec fn leads_to(self, script: Script, outcome: Outcome, end: Scene) -> bool
        decreases script,
    {
        match script {
            Script::End(o) => o == outcome && self == end,
            Script::Next(action, yes, no) => {
                let next = self.after(action);
                &&& self.report(action) != Some(false) ==> next.leads_to(*yes, outcome, end)
                &&& self.report(action) != Some(true) ==> next.leads_to(*no, outcome, end)
            },
        }
    }
}

} // verus!

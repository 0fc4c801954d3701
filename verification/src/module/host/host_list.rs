//! The list of hypervisors on the host operations screen.
use vstd::prelude::*;
use crate::models::nova::Hypervisor;

verus! {

/// Hypervisors and the selected one. The selection lies on a hypervisor
/// whenever there is one.
pub struct HostList {
    hypervisors: Vec<Hypervisor>,
    selected: usize,
}

impl HostList {
    /// The hypervisors, in the order loaded.
    pub closed spec fn hypervisors_spec(&self) -> Seq<Hypervisor> {
        self.hypervisors@
    }

    /// Index of the selected hypervisor.
    pub closed spec fn selected_spec(&self) -> nat {
        self.selected as nat
    }

    /// The selection lies on a hypervisor whenever there is one.
    pub open spec fn inv(&self) -> bool {
        self.hypervisors_spec().len() > 0 ==> self.selected_spec() < self.hypervisors_spec().len()
    }

    /// An empty list.
    pub fn new() -> (r: Self)
        ensures
            r.hypervisors_spec() == Seq::<Hypervisor>::empty(),
            r.selected_spec() == 0,
            r.inv(),
    {
        HostList { hypervisors: Vec::new(), selected: 0 }
    }

    /// Replace the hypervisors; the selection moves to the last one when it
    /// would fall off the end.
    pub fn set_hypervisors(&mut self, hypervisors: Vec<Hypervisor>)
        requires
            old(self).inv(),
        ensures
            final(self).inv(),
            final(self).hypervisors_spec() == hypervisors@,
            final(self).selected_spec() == if hypervisors@.len() != 0 && old(self).selected_spec()
                >= hypervisors@.len() {
                (hypervisors@.len() - 1) as nat
            } else {
                old(self).selected_spec()
            },
    {
        self.hypervisors = hypervisors;
        if self.selected >= self.hypervisors.len() && self.hypervisors.len() != 0 {
            self.selected = self.hypervisors.len() - 1;
        }
    }

    /// The hypervisors.
    pub fn hypervisors(&self) -> (r: &[Hypervisor])
        ensures
            r@ == self.hypervisors_spec(),
    {
        self.hypervisors.as_slice()
    }

    /// Index of the selected hypervisor.
    pub fn selected_index(&self) -> (r: usize)
        ensures
            r == self.selected_spec(),
    {
        self.selected
    }

    /// The selected hypervisor, if any.
    pub fn selected_hypervisor(&self) -> (r: Option<&Hypervisor>)
        ensures
            self.selected_spec() < self.hypervisors_spec().len() ==> r == Some(
                &self.hypervisors_spec()[self.selected_spec() as int],
            ),
            self.selected_spec() >= self.hypervisors_spec().len() ==> r.is_none(),
    {
        if self.selected < self.hypervisors.len() {
            Some(&self.hypervisors[self.selected])
        } else {
            None
        }
    }

    /// Move the selection up, stopping at the first hypervisor.
    pub fn move_up(&mut self)
        requires
            old(self).inv(),
        ensures
            final(self).inv(),
            final(self).hypervisors_spec() == old(self).hypervisors_spec(),
            final(self).selected_spec() == if old(self).selected_spec() > 0 {
                (old(self).selected_spec() - 1) as nat
            } else {
                0
            },
    {
        if self.selected > 0 {
            self.selected = self.selected - 1;
        }
    }

    /// Move the selection down, stopping at the last hypervisor.
    pub fn move_down(&mut self)
        requires
            old(self).inv(),
        ensures
            final(self).inv(),
            final(self).hypervisors_spec() == old(self).hypervisors_spec(),
            final(self).selected_spec() == if old(self).selected_spec() + 1 < old(
                self,
            ).hypervisors_spec().len() {
                old(self).selected_spec() + 1
            } else {
                old(self).selected_spec()
            },
    {
        if self.hypervisors.len() != 0 && self.selected < self.hypervisors.len() - 1 {
            self.selected = self.selected + 1;
        }
    }

    /// Number of hypervisors.
    pub fn len(&self) -> (r: usize)
        ensures
            r == self.hypervisors_spec().len(),
    {
        self.hypervisors.len()
    }

    /// Whether there are no hypervisors.
    pub fn is_empty(&self) -> (r: bool)
        ensures
            r == (self.hypervisors_spec().len() == 0),
    {
        self.hypervisors.len() == 0
    }
}

/// Icon of a host: `⊘` when disabled, otherwise `●` up, `✗` down, `?` else.
pub open spec fn host_icon(state: Seq<char>, status: Seq<char>) -> Seq<char> {
    if status == "disabled"@ {
        "⊘"@
    } else if state == "up"@ {
        "●"@
    } else if state == "down"@ {
        "✗"@
    } else {
        "?"@
    }
}

/// Icon of a host from its state and its status.
pub fn host_state_icon(state: &str, status: &str) -> (r: &'static str)
    ensures
        r@ == host_icon(state@, status@),
{
    if crate::text::str_eq(status, "disabled") {
        return "⊘";
    }
    if crate::text::str_eq(state, "up") {
        "●"
    } else if crate::text::str_eq(state, "down") {
        "✗"
    } else {
        "?"
    }
}

} // verus!

//! Rejecting form submits whose selected resources belong to another
//! project than the active one.
use vstd::prelude::*;
use crate::text::str_eq;

verus! {

/// Why a request was kept from crossing project boundaries.
#[derive(Debug, Clone, PartialEq, Eq)]
pub enum CrossProjectReason {
    /// A form selection belongs to `selected`, not to the active `active`.
    FormSelectionMismatch { selected: String, active: String },
}

/// One scope-bearing form input: the field's name and the project of the
/// selected resource (`None` when unknown, which never matches).
#[derive(Debug, Clone, PartialEq, Eq)]
pub struct FormSelection<'a> {
    pub field: &'a str,
    pub project_id: Option<&'a str>,
}

/// The first mismatching field and why it was rejected.
#[derive(Debug, Clone, PartialEq, Eq)]
pub struct FormValidationError {
    pub field: String,
    pub reason: CrossProjectReason,
}

/// Whether a selection belongs to the active project.
pub open spec fn selection_matches(sel: FormSelection, active: Seq<char>) -> bool {
    match sel.project_id {
        Some(p) => p@ == active,
        None => false,
    }
}

/// Check every selection against the active project; the first one that
/// does not belong to it (or has no project) is reported, with its project
/// (empty when unknown) and the active one.
pub fn validate_form_scope(active: &str, selections: &[FormSelection<'_>]) -> (r: Result<(), FormValidationError>)
    ensures
        r is Ok <==> forall|i: int| 0 <= i < selections@.len() ==> selection_matches(#[trigger] selections@[i], active@),
        r matches Err(e) ==> exists|i: int| {
            &&& 0 <= i < selections@.len()
            &&& !selection_matches(selections@[i], active@)
            &&& forall|j: int| 0 <= j < i ==> selection_matches(#[trigger] selections@[j], active@)
            &&& e.field@ == selections@[i].field@
            &&& e.reason matches CrossProjectReason::FormSelectionMismatch { selected, active: a } && a@
                == active@ && selected@ == match selections@[i].project_id {
                Some(p) => p@,
                None => Seq::<char>::empty(),
            }
        },
{
    let n = selections.len();
    let mut i: usize = 0;
    while i < n
        invariant
            n == selections@.len(),
            i <= n,
            forall|j: int| 0 <= j < i ==> selection_matches(#[trigger] selections@[j], active@),
        decreases n - i,
    {
        let sel = &selections[i];
        let matches = match sel.project_id {
            Some(p) => str_eq(p, active),
            None => false,
        };
        if !matches {
            let selected = match sel.project_id {
                Some(p) => String::from_str(p),
                None => String::new(),
            };
            let e = FormValidationError {
                field: String::from_str(sel.field),
                reason: CrossProjectReason::FormSelectionMismatch {
                    selected,
                    active: String::from_str(active),
                },
            };
            proof {
                assert(!selection_matches(selections@[i as int], active@));
            }
            return Err(e);
        }
        i = i + 1;
    }
    Ok(())
}

} // verus!

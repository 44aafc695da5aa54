//! The data each interactive prompt is built over.
//!
//! The prompts themselves are terminal I/O and live with the caller; what
//! stands here is what they present and the one decision that needs no
//! terminal: an empty previous selection is never offered for reuse.

use vstd::prelude::*;

use crate::institution::Institution;

verus! {

/// Confirmation that the user authorized access to one institution.
pub struct AcceptedConfirm<'a> {
    pub institution: &'a Institution,
}

impl<'a> AcceptedConfirm<'a> {
    pub fn new(institution: &'a Institution) -> (r: AcceptedConfirm<'a>)
        ensures
            r.institution == institution,
    {
        AcceptedConfirm { institution }
    }
}

/// Free-text entry of the aggregator client credentials.
pub struct ClientCredentialsInput;

/// Selection of the institutions the user holds accounts with.
pub struct InstitutionSelect {
    pub available_institutions: Vec<Institution>,
}

impl InstitutionSelect {
    pub fn new(available_institutions: Vec<Institution>) -> (r: InstitutionSelect)
        ensures
            r.available_institutions == available_institutions,
    {
        InstitutionSelect { available_institutions }
    }
}

/// Offer to reuse the institutions selected last time.
pub struct ReuseConfirm<'a> {
    pub selected: &'a [Institution],
}

impl<'a> ReuseConfirm<'a> {
    pub fn new(selected: &'a [Institution]) -> (r: ReuseConfirm<'a>)
        ensures
            r.selected == selected,
    {
        ReuseConfirm { selected }
    }

    /// With nothing selected last time there is nothing to offer: the answer
    /// is no, without prompting.
    pub fn nothing_to_reuse(&self) -> (r: bool)
        ensures
            r <==> self.selected@.len() == 0,
    {
        self.selected.len() == 0
    }
}

} // verus!

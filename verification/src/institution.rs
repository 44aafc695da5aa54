//! Institutions: the banks a user holds accounts with.

use vstd::prelude::*;

use crate::http_interface::institutions::InstitutionEntry;

verus! {

use vstd::string::StringExecFns;

/// A bank, with the requisition (consent) this client may already hold
/// towards it.
#[derive(Debug, Clone, PartialEq, Eq)]
pub struct Institution {
    pub id: String,
    pub name: String,
    pub countries: Vec<String>,
    pub requisition_id: Option<String>,
}

impl Institution {
    /// An institution lifted from one listing entry: same identity and
    /// countries, and no requisition yet.
    pub open spec fn matches_entry(self, entry: InstitutionEntry) -> bool {
        &&& self.id == entry.id
        &&& self.name == entry.name
        &&& self.countries@ == entry.countries@
        &&& self.requisition_id is None
    }

    /// Lifts the aggregator's institution listing, in order.
    pub fn list_from_entries(entries: Vec<InstitutionEntry>) -> (r: Vec<Institution>)
        ensures
            r@.len() == entries@.len(),
            forall|j: int|
                0 <= j < entries@.len() ==> (#[trigger] r@[j]).matches_entry(entries@[j]),
    {
        let mut r: Vec<Institution> = Vec::new();
        let mut i: usize = 0;
        while i < entries.len()
            invariant
                i <= entries@.len(),
                r@.len() == i,
                forall|j: int| 0 <= j < i ==> (#[trigger] r@[j]).matches_entry(entries@[j]),
            decreases entries@.len() - i,
        {
            let entry = &entries[i];
            r.push(
                Institution {
                    id: entry.id.clone(),
                    name: entry.name.clone(),
                    countries: clone_strings(&entry.countries),
                    requisition_id: None,
                },
            );
            i = i + 1;
        }
        r
    }

    /// Remembers the requisition obtained for this institution.
    pub fn adopt_requisition(&mut self, requisition_id: String)
        ensures
            *final(self) == (Institution { requisition_id: Option::Some(requisition_id), ..*old(
                self,
            ) }),
    {
        self.requisition_id = Some(requisition_id);
    }

    /// The label an institution renders as: its name, then its country codes
    /// bracketed and comma-separated.
    pub open spec fn spec_display_label(self) -> Seq<char> {
        self.name@ + " ["@ + countries_label(self.countries@) + "]"@
    }

    pub fn display_label(&self) -> (r: String)
        ensures
            r@ == self.spec_display_label(),
    {
        let mut label = self.name.clone();
        label.append(" [");
        let mut i: usize = 0;
        while i < self.countries.len()
            invariant
                i <= self.countries@.len(),
                label@ == self.name@ + " ["@ + countries_label(self.countries@.take(i as int)),
            decreases self.countries@.len() - i,
        {
            proof {
                assert(self.countries@.take(i + 1).drop_last() =~= self.countries@.take(i as int));
            }
            if i > 0 {
                label.append(", ");
            }
            label.append(self.countries[i].as_str());
            i = i + 1;
        }
        proof {
            assert(self.countries@.take(self.countries@.len() as int) =~= self.countries@);
        }
        label.append("]");
        label
    }
}

/// Country codes joined with a comma and a space.
pub open spec fn countries_label(countries: Seq<String>) -> Seq<char>
    decreases countries.len(),
{
    if countries.len() == 0 {
        Seq::empty()
    } else if countries.len() == 1 {
        countries[0]@
    } else {
        countries_label(countries.drop_last()) + ", "@ + countries.last()@
    }
}

/// A field-for-field copy of a string list.
pub fn clone_strings(v: &Vec<String>) -> (r: Vec<String>)
    ensures
        r@ == v@,
{
    let mut r: Vec<String> = Vec::new();
    let mut i: usize = 0;
    while i < v.len()
        invariant
            i <= v@.len(),
            r@ == v@.take(i as int),
        decreases v@.len() - i,
    {
        r.push(v[i].clone());
        proof {
            assert(r@ =~= v@.take(i + 1));
        }
        i = i + 1;
    }
    proof {
        assert(v@.take(v@.len() as int) =~= v@);
    }
    r
}

} // verus!

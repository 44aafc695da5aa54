//! Bank accounts.
//!
//! An account is identified by an opaque, stable id; everything else on it is
//! an optional human-facing label, used only for rendering. Accounts are
//! copied freely into the transactions that reference them: the matcher only
//! ever reads the id and, when rendering, the labels.

use vstd::prelude::*;

verus! {

use vstd::pervasive::cloned;

/// A bank-held account as the ingestion layer reports it.
#[derive(Debug, Clone, PartialEq, Eq)]
pub struct Account {
    pub id: String,
    pub bban: Option<String>,
    pub iban: Option<String>,
    pub status: String,
    pub name: Option<String>,
    pub display_name: Option<String>,
}

impl Account {
    /// The label an account renders as: the first present label in the chain
    /// display name, name, BBAN, IBAN; the raw id when no label is set.
    pub open spec fn spec_display_label(self) -> Seq<char> {
        if self.display_name is Some {
            self.display_name->0@
        } else if self.name is Some {
            self.name->0@
        } else if self.bban is Some {
            self.bban->0@
        } else if self.iban is Some {
            self.iban->0@
        } else {
            self.id@
        }
    }

    /// Whether the aggregator reports the account as usable.
    pub fn is_available(&self) -> (r: bool)
        ensures
            r <==> self.status@ == "enabled"@,
    {
        let enabled: String = "enabled".to_owned();
        self.status == enabled
    }

    /// A field-for-field copy.
    pub fn duplicate(&self) -> (r: Account)
        ensures
            r == *self,
    {
        let r = Account {
            id: self.id.clone(),
            bban: self.bban.clone(),
            iban: self.iban.clone(),
            status: self.status.clone(),
            name: self.name.clone(),
            display_name: self.display_name.clone(),
        };
        proof {
            lemma_cloned_option_string(self.bban, r.bban);
            lemma_cloned_option_string(self.iban, r.iban);
            lemma_cloned_option_string(self.name, r.name);
            lemma_cloned_option_string(self.display_name, r.display_name);
        }
        r
    }

    /// The rendering label, per the fallback chain of
    /// [`Account::spec_display_label`].
    pub fn display_label(&self) -> (r: String)
        ensures
            r@ == self.spec_display_label(),
    {
        if let Some(label) = &self.display_name {
            label.clone()
        } else if let Some(label) = &self.name {
            label.clone()
        } else if let Some(label) = &self.bban {
            label.clone()
        } else if let Some(label) = &self.iban {
            label.clone()
        } else {
            self.id.clone()
        }
    }
}

/// A clone of an optional string equals the original: cloning a `String`
/// preserves its characters.
proof fn lemma_cloned_option_string(a: Option<String>, b: Option<String>)
    requires
        a is None ==> b is None,
        a is Some ==> b is Some && cloned::<String>(a->0, b->0),
    ensures
        a == b,
{
}

} // verus!

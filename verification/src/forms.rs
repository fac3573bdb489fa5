//! What the forms for a new site and a new page hand in.

use vstd::prelude::*;

verus! {

/// The form for a new page of a site.
#[derive(Debug)]
pub struct PageFormData {
    pub path: String,
    pub name: String,
}

/// The form for a new site. A description that was left empty is no
/// description.
#[derive(Debug)]
pub struct CreateSiteFormData {
    pub name: String,
    pub domain: String,
    pub description: Option<String>,
}

/// A text field that may be left empty: the empty text stands for nothing.
pub fn empty_string_is_none(s: String) -> (field: Option<String>)
    ensures
        s@.len() == 0 ==> field is None,
        s@.len() > 0 ==> field == Some(s),
{
    if s.as_str().is_empty() {
        None
    } else {
        Some(s)
    }
}

impl CreateSiteFormData {
    /// The form as it was filled in, `description` being the text of the
    /// description field.
    pub fn new(name: String, domain: String, description: String) -> (form: CreateSiteFormData)
        ensures
            form.name == name,
            form.domain == domain,
            description@.len() == 0 ==> form.description is None,
            description@.len() > 0 ==> form.description == Some(description),
    {
        CreateSiteFormData { name, domain, description: empty_string_is_none(description) }
    }
}

} // verus!

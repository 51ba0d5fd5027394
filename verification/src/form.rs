//! Token endpoint request forms.

use vstd::prelude::*;
use crate::error::{StdbAuthError, StdbAuthErrorView};
use crate::text::{concat3, non_blank, opt_view, trim, trim_spec};
use crate::token::empty_field_text;
use crate::urls::{first_value, pairs_lookup, pairs_view};

verus! {

/// The fields of a token endpoint request, in the order in which they are
/// sent in an `application/x-www-form-urlencoded` body.
#[derive(Clone, Debug, PartialEq, Eq)]
pub struct StdbTokenRequestForm {
    /// The form fields.
    pub params: Vec<(String, String)>,
}

impl StdbTokenRequestForm {
    /// The value of the field named `key`.
    pub fn get(&self, key: &str) -> (r: Option<String>)
        ensures
            opt_view(r) == first_value(pairs_view(self.params@), key@),
    {
        pairs_lookup(&self.params, key)
    }
}

/// A form result with its strings taken as character sequences.
pub open spec fn form_result_view(r: Result<StdbTokenRequestForm, StdbAuthError>) -> Result<Seq<(Seq<char>, Seq<char>)>, StdbAuthErrorView> {
    match r {
        Ok(form) => Ok(pairs_view(form.params@)),
        Err(e) => Err(e@),
    }
}

/// Returns the trimmed value, or the configuration error for `field`.
pub fn require_non_empty(value: &str, field: &str) -> (r: Result<String, StdbAuthError>)
    ensures
        match r {
            Ok(v) => non_blank(value@) && v@ == trim_spec(value@),
            Err(e) => !non_blank(value@) && e@ == StdbAuthErrorView::InvalidConfig(empty_field_text(field@)),
        },
{
    let v = trim(value);
    if v.as_str().is_empty() {
        return Err(StdbAuthError::InvalidConfig(concat3("`", field, "` must not be empty")));
    }
    Ok(v)
}

/// A pair of owned strings.
pub fn pair(key: &str, value: String) -> (r: (String, String))
    ensures
        r.0@ == key@,
        r.1 == value,
{
    (key.to_owned(), value)
}

} // verus!

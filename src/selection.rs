//! Which template a run starts from, and what is input and what customizes it.
use vstd::prelude::*;
use vstd::string::*;

use crate::model::opt_view;
use crate::text::same_text;

verus! {

/// The template used when the arguments name none.
pub const DEFAULT_PROMPT_NAME: &'static str = "default";

/// Why the positional arguments cannot be used.
#[derive(Debug, Clone, Copy, PartialEq, Eq, Structural)]
pub enum SelectionError {
    /// A second argument was given but the first names no template.
    NotATemplate,
    /// The first argument names no template and there is no default one.
    NoDefaultTemplate,
}

/// Some stored template is called `name`.
pub open spec fn has_template(names: Seq<String>, name: Seq<char>) -> bool {
    exists|i: int| 0 <= i < names.len() && (#[trigger] names[i])@ == name
}

/// The template to use and the customization text, from the first two arguments and
/// the current customization text. A first argument that names a template selects it,
/// and the second one, if any, customizes it. Any other first argument is itself the
/// customization of the default template, and then a second argument is an error.
pub open spec fn template_choice(
    names: Seq<String>,
    first: Option<Seq<char>>,
    second: Option<Seq<char>>,
    current: Option<Seq<char>>,
) -> Result<(Seq<char>, Option<Seq<char>>), SelectionError> {
    let key = match first {
        Some(f) => f,
        None => DEFAULT_PROMPT_NAME@,
    };
    if has_template(names, key) {
        Ok((key, if second is Some { second } else { current }))
    } else if second is Some {
        Err(SelectionError::NotATemplate)
    } else if has_template(names, DEFAULT_PROMPT_NAME@) {
        Ok((DEFAULT_PROMPT_NAME@, Some(key)))
    } else {
        Err(SelectionError::NoDefaultTemplate)
    }
}

/// Whether a template called `name` is stored.
pub fn contains_name(names: &Vec<String>, name: &str) -> (r: bool)
    ensures
        r == has_template(names@, name@),
{
    let mut i: usize = 0;
    while i < names.len()
        invariant
            i <= names.len(),
            forall|k: int| 0 <= k < i ==> (#[trigger] names@[k])@ != name@,
        decreases names.len() - i,
    {
        if same_text(names[i].as_str(), name) {
            return true;
        }
        i += 1;
    }
    false
}

/// The name of the template to start from and the customization text.
pub fn choose_template(
    names: &Vec<String>,
    first: Option<String>,
    second: Option<String>,
    current: Option<String>,
) -> (r: Result<(String, Option<String>), SelectionError>)
    ensures
        match template_choice(names@, opt_view(first), opt_view(second), opt_view(current)) {
            Ok((key, text)) => r matches Ok((k, t)) && k@ == key && opt_view(t) == text,
            Err(e) => r == Err::<(String, Option<String>), SelectionError>(e),
        },
{
    let key = match first {
        Some(f) => f,
        None => String::from_str(DEFAULT_PROMPT_NAME),
    };
    if contains_name(names, key.as_str()) {
        let text = if second.is_some() {
            second
        } else {
            current
        };
        Ok((key, text))
    } else if second.is_some() {
        Err(SelectionError::NotATemplate)
    } else if contains_name(names, DEFAULT_PROMPT_NAME) {
        Ok((String::from_str(DEFAULT_PROMPT_NAME), Some(key)))
    } else {
        Err(SelectionError::NoDefaultTemplate)
    }
}

/// The input and the customization text of a run: with no input, the customization
/// text is the input and nothing customizes the template.
pub fn split_input(input: String, customization: Option<String>) -> (r: (String, Option<String>))
    ensures
        input@.len() > 0 ==> r.0 == input && r.1 == customization,
        input@.len() == 0 ==> r.1 is None && r.0@ == (match customization {
            Some(c) => c@,
            None => Seq::empty(),
        }),
{
    if input.as_str().unicode_len() > 0 {
        (input, customization)
    } else {
        match customization {
            Some(c) => (c, None),
            None => (input, None),
        }
    }
}

} // verus!

//! Labels for the messages that the validation layers send back.

use vstd::prelude::*;

verus! {

/// The label of a message's severity: the gravest flag that is set wins,
/// and a message with none of the three flags is verbose.
pub fn severity_label(error: bool, warning: bool, information: bool) -> (r: &'static str)
    ensures
        error ==> r@ == "ERROR"@,
        !error && warning ==> r@ == "Warning"@,
        !error && !warning && information ==> r@ == "Info"@,
        !error && !warning && !information ==> r@ == "Verbose"@,
{
    proof {
        reveal_strlit("ERROR");
        reveal_strlit("Warning");
        reveal_strlit("Info");
        reveal_strlit("Verbose");
    }
    if error {
        "ERROR"
    } else if warning {
        "Warning"
    } else if information {
        "Info"
    } else {
        "Verbose"
    }
}

/// The label of a message's category; a message that is neither general nor
/// a validation message is a performance one.
pub fn category_label(general: bool, validation: bool) -> (r: &'static str)
    ensures
        general ==> r@ == "general"@,
        !general && validation ==> r@ == "validation"@,
        !general && !validation ==> r@ == "performance"@,
{
    proof {
        reveal_strlit("general");
        reveal_strlit("validation");
        reveal_strlit("performance");
    }
    if general {
        "general"
    } else if validation {
        "validation"
    } else {
        "performance"
    }
}

} // verus!

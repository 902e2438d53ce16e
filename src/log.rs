use vstd::prelude::*;

verus! {

/// The text that a logged value is written as when it serializes to nothing.
pub open spec fn undefined_text() -> Seq<char> {
    seq!['u', 'n', 'd', 'e', 'f', 'i', 'n', 'e', 'd']
}

/// The indentation that the logging callable asks the serializer for.
pub open spec fn indent_text() -> Seq<char> {
    seq![' ', ' ']
}

/// The line that the logging callable writes for a value, given what the
/// interpreter's stringify facility made of it.
pub open spec fn log_line_spec(serialized: Option<Seq<char>>) -> Seq<char> {
    match serialized {
        Some(s) => s,
        None => undefined_text(),
    }
}

/// The indentation handed to the serializer: two spaces.
pub fn log_indent() -> (r: String)
    ensures
        r@ == indent_text(),
{
    let r = String::from_str("  ");
    proof {
        reveal_strlit("  ");
    }
    r
}

/// The line written for one logged value: the serialized text, or
/// `undefined` where the value serializes to nothing.
pub fn log_line(serialized: Option<String>) -> (r: String)
    ensures
        r@ == log_line_spec(
            match serialized {
                Some(s) => Some(s@),
                None => None,
            },
        ),
{
    match serialized {
        Some(s) => s,
        None => {
            proof {
                reveal_strlit("undefined");
            }
            String::from_str("undefined")
        },
    }
}

} // verus!

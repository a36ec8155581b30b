//! The choices of an enum attribute: a value is accepted only if it is one
//! of them.
use crate::text::{debug_str, debug_str_text, text_equals};
use crate::Error;
use vstd::prelude::*;
use vstd::string::*;

verus! {

/// The items of a list of strings, each in its `Debug` rendering,
/// separated by ", ".
pub open spec fn debug_items(items: Seq<Seq<char>>) -> Seq<char>
    decreases items.len(),
{
    if items.len() == 0 {
        Seq::empty()
    } else if items.len() == 1 {
        debug_str_text(items[0])
    } else {
        debug_items(items.drop_last()) + ", "@ + debug_str_text(items.last())
    }
}

/// `Debug` rendering of a list of strings: `["a", "b"]`.
pub open spec fn debug_list_text(items: Seq<Seq<char>>) -> Seq<char> {
    "["@ + debug_items(items) + "]"@
}

/// The texts of a list of strings.
pub open spec fn texts(items: Seq<String>) -> Seq<Seq<char>> {
    items.map_values(|s: String| s@)
}

/// Message of the error raised for a value that is not one of the choices.
pub open spec fn out_of_choices_text(value: Seq<char>, choices: Seq<Seq<char>>) -> Seq<char> {
    debug_str_text(value) + " is not in "@ + debug_list_text(choices)
}

/// Renders a list of strings as its `Debug` implementation does.
pub fn debug_string_list(items: &Vec<String>) -> (r: String)
    ensures
        r@ == debug_list_text(texts(items@)),
{
    let mut body = String::new();
    let n = items.len();
    let mut i: usize = 0;
    while i < n
        invariant
            n == items@.len(),
            i <= n,
            body@ == debug_items(texts(items@.take(i as int))),
        decreases n - i,
    {
        let piece = debug_str(items[i].as_str());
        proof {
            assert(texts(items@.take(i + 1)).drop_last() =~= texts(items@.take(i as int)));
            assert(texts(items@.take(i + 1)).last() == items@[i as int]@);
        }
        if i == 0 {
            body = piece;
            proof {
                assert(texts(items@.take(1)).len() == 1);
            }
        } else {
            body.append(", ");
            body.append(piece.as_str());
        }
        i = i + 1;
    }
    assert(items@.take(n as int) =~= items@);
    "[".to_owned().concat(body.as_str()).concat("]")
}

/// Whether `value` is one of the choices.
pub fn is_choice(value: &str, choices: &Vec<String>) -> (r: bool)
    ensures
        r == texts(choices@).contains(value@),
{
    let n = choices.len();
    let mut i: usize = 0;
    while i < n
        invariant
            n == choices@.len(),
            i <= n,
            forall|j: int| 0 <= j < i ==> (#[trigger] choices@[j])@ != value@,
        decreases n - i,
    {
        if text_equals(choices[i].as_str(), value) {
            assert(texts(choices@)[i as int] == value@);
            return true;
        }
        i = i + 1;
    }
    proof {
        if texts(choices@).contains(value@) {
            let k = choose|k: int| 0 <= k < texts(choices@).len() && texts(choices@)[k] == value@;
            assert(choices@[k]@ == value@);
        }
    }
    false
}

/// Accepts a value that is one of the choices, refuses any other.
pub fn check_choice(value: String, choices: &Vec<String>) -> (r: Result<String, Error>)
    ensures
        texts(choices@).contains(value@) ==> (r matches Ok(v) && v@ == value@),
        !texts(choices@).contains(value@) ==> (r matches Err(Error::EnumOutOfChoices(m)) && m@
            == out_of_choices_text(value@, texts(choices@))),
{
    if is_choice(value.as_str(), choices) {
        Ok(value)
    } else {
        let mut m = debug_str(value.as_str());
        m.append(" is not in ");
        m.append(debug_string_list(choices).as_str());
        Err(Error::EnumOutOfChoices(m))
    }
}

} // verus!

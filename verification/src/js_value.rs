//! Rendering the result of evaluating a script as the text handed to the embedder.

use vstd::prelude::*;
use vstd::string::StringExecFns;

use crate::c_string::{fits_c_string, is_c_string};

verus! {

broadcast use vstd::string::group_string_axioms;

/// The value a script evaluated to, as the embedder receives it.
pub enum JsValue {
    Undefined,
    Null,
    Boolean(bool),
    /// A number, written in decimal as Rust displays an `f64`.
    Number(String),
    String(String),
    Element(String),
    ShadowRoot(String),
    Frame(String),
    Window(String),
    Array(Vec<JsValue>),
    /// The properties of an object, in the order they are to be written.
    Object(Vec<(String, JsValue)>),
}

pub open spec fn undefined_text() -> Seq<char> {
    seq!['u', 'n', 'd', 'e', 'f', 'i', 'n', 'e', 'd']
}

pub open spec fn null_text() -> Seq<char> {
    seq!['n', 'u', 'l', 'l']
}

pub open spec fn bool_text(b: bool) -> Seq<char> {
    if b {
        seq!['t', 'r', 'u', 'e']
    } else {
        seq!['f', 'a', 'l', 's', 'e']
    }
}

/// The text of a value: scalars as JavaScript writes them, strings and the names of elements,
/// shadow roots, frames and windows as they are, arrays as their items in brackets and objects
/// as their `key:value` properties in braces, separated by commas.
pub open spec fn js_text(value: JsValue) -> Seq<char>
    decreases value,
{
    match value {
        JsValue::Undefined => undefined_text(),
        JsValue::Null => null_text(),
        JsValue::Boolean(b) => bool_text(b),
        JsValue::Number(s) => s@,
        JsValue::String(s) => s@,
        JsValue::Element(s) => s@,
        JsValue::ShadowRoot(s) => s@,
        JsValue::Frame(s) => s@,
        JsValue::Window(s) => s@,
        JsValue::Array(values) => seq!['['] + items_text(values@) + seq![']'],
        JsValue::Object(entries) => seq!['{'] + entries_text(entries@) + seq!['}'],
    }
}

/// The texts of `values`, separated by commas.
pub open spec fn items_text(values: Seq<JsValue>) -> Seq<char>
    decreases values,
{
    if values.len() == 0 {
        Seq::empty()
    } else if values.len() == 1 {
        js_text(values[0])
    } else {
        items_text(values.drop_last()) + seq![','] + js_text(values.last())
    }
}

/// The properties of `entries`, each written `key:value`, separated by commas.
pub open spec fn entries_text(entries: Seq<(String, JsValue)>) -> Seq<char>
    decreases entries,
{
    if entries.len() == 0 {
        Seq::empty()
    } else if entries.len() == 1 {
        entries[0].0@ + seq![':'] + js_text(entries[0].1)
    } else {
        entries_text(entries.drop_last()) + seq![','] + entries.last().0@ + seq![':'] + js_text(
            entries.last().1,
        )
    }
}


/// Writes `value` as text, as the embedder receives the result of a script.
pub fn js_value_to_string(value: &JsValue) -> (res: String)
    ensures
        res@ == js_text(*value),
    decreases value,
{
    match value {
        JsValue::Undefined => {
            let res = String::from_str("undefined");
            proof {
                reveal_strlit("undefined");
                assert(res@ =~= undefined_text());
            }
            res
        },
        JsValue::Null => {
            let res = String::from_str("null");
            proof {
                reveal_strlit("null");
                assert(res@ =~= null_text());
            }
            res
        },
        JsValue::Boolean(b) => {
            if *b {
                let res = String::from_str("true");
                proof {
                    reveal_strlit("true");
                    assert(res@ =~= bool_text(true));
                }
                res
            } else {
                let res = String::from_str("false");
                proof {
                    reveal_strlit("false");
                    assert(res@ =~= bool_text(false));
                }
                res
            }
        },
        JsValue::Number(s) => s.clone(),
        JsValue::String(s) => s.clone(),
        JsValue::Element(s) => s.clone(),
        JsValue::ShadowRoot(s) => s.clone(),
        JsValue::Frame(s) => s.clone(),
        JsValue::Window(s) => s.clone(),
        JsValue::Array(values) => {
            let mut res = String::from_str("[");
            proof {
                reveal_strlit("[");
                assert(res@ =~= seq!['['] + items_text(values@.take(0)));
            }
            let n = values.len();
            for i in 0..n
                invariant
                    n == values@.len(),
                    *value == JsValue::Array(*values),
                    res@ == seq!['['] + items_text(values@.take(i as int)),
            {
                proof {
                    assert(decreases_to!(*value => (*value)->Array_0));
                    assert(decreases_to!(*values => values@));
                    assert(decreases_to!(values@ => values@[i as int]));
                    reveal_strlit(",");
                }
                let item = js_value_to_string(&values[i]);
                if i > 0 {
                    res.append(",");
                }
                res.append(item.as_str());
                proof {
                    let done = values@.take(i + 1);
                    assert(done.drop_last() =~= values@.take(i as int));
                    if i == 0 {
                        assert(done =~= seq![values@[0]]);
                    }
                    assert(res@ =~= seq!['['] + items_text(done));
                }
            }
            res.append("]");
            proof {
                reveal_strlit("]");
                assert(values@.take(n as int) =~= values@);
            }
            res
        },
        JsValue::Object(entries) => {
            let mut res = String::from_str("{");
            proof {
                reveal_strlit("{");
                assert(res@ =~= seq!['{'] + entries_text(entries@.take(0)));
            }
            let n = entries.len();
            for i in 0..n
                invariant
                    n == entries@.len(),
                    *value == JsValue::Object(*entries),
                    res@ == seq!['{'] + entries_text(entries@.take(i as int)),
            {
                proof {
                    assert(decreases_to!(*value => (*value)->Object_0));
                    assert(decreases_to!(*entries => entries@));
                    assert(decreases_to!(entries@ => entries@[i as int]));
                    assert(decreases_to!(entries@[i as int] => entries@[i as int].1));
                    reveal_strlit(",");
                    reveal_strlit(":");
                }
                let (key, item) = &entries[i];
                let text = js_value_to_string(item);
                if i > 0 {
                    res.append(",");
                }
                res.append(key.as_str());
                res.append(":");
                res.append(text.as_str());
                proof {
                    let done = entries@.take(i + 1);
                    assert(done.drop_last() =~= entries@.take(i as int));
                    if i == 0 {
                        assert(done =~= seq![entries@[0]]);
                    }
                    assert(res@ =~= seq!['{'] + entries_text(done));
                }
            }
            res.append("}");
            proof {
                reveal_strlit("}");
                assert(entries@.take(n as int) =~= entries@);
            }
            res
        },
    }
}

/// The text the embedder's callback receives for the outcome of evaluating a script: that of the
/// value it evaluated to, or none when evaluation failed (`result` is `None`) or when the text
/// holds a NUL character and so cannot be handed to C.
pub fn evaluation_result_text(result: Option<&JsValue>) -> (res: Option<String>)
    ensures
        match result {
            None => res is None,
            Some(value) => if is_c_string(js_text(*value)) {
                res matches Some(text) && text@ == js_text(*value)
            } else {
                res is None
            },
        },
{
    match result {
        None => None,
        Some(value) => {
            let text = js_value_to_string(value);
            if fits_c_string(text.as_str()) {
                Some(text)
            } else {
                None
            }
        },
    }
}

} // verus!

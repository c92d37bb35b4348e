//! The input decoder: turns a caller-supplied JSON payload into the ordered
//! sequence of machine-stack values handed to the engine.
//!
//! The recognized shape is an object with a field `operand_stack` holding an
//! array whose elements are either strings (decimal numerals) or numbers that
//! fit an unsigned 64-bit integer.  A missing or malformed envelope silently
//! yields no inputs; only malformed JSON and unparsable numerals are errors.
//! The declared sequence is reversed before it is returned, because the
//! engine pushes inputs in reverse declaration order.

use vstd::prelude::*;
use vstd::string::StringExecFns;

use crate::numbers::{parse_u64, parse_u64_spec, NumberError};

verus! {

/// Mathematical model of one element of the `operand_stack` array: a JSON
/// string, a JSON number representable as `u64`, or anything else.
pub enum ItemModel {
    Text(Seq<char>),
    Number(u64),
    Other,
}

/// Mathematical model of a classified inputs payload: not valid JSON (with
/// the parser's message), no `operand_stack` array, or an array of elements.
pub enum ShapeModel {
    Invalid(Seq<char>),
    NoStack,
    Stack(Seq<ItemModel>),
}

/// One element of the `operand_stack` array, as handed over by the JSON
/// classifier.
pub enum InputItem {
    /// A JSON string, to be parsed as a decimal numeral.
    Text(String),
    /// A JSON number already representable as `u64`.
    Number(u64),
    /// An element of any other type; it is skipped.
    Unsupported,
}

impl View for InputItem {
    type V = ItemModel;

    open spec fn view(&self) -> ItemModel {
        match self {
            InputItem::Text(s) => ItemModel::Text(s@),
            InputItem::Number(n) => ItemModel::Number(*n),
            InputItem::Unsupported => ItemModel::Other,
        }
    }
}

/// The classified shape of an inputs payload.
pub enum InputShape {
    /// The payload was not valid JSON; carries the parser's message.
    Invalid(String),
    /// The payload parsed, but held no array under the requested field.
    NoStack,
    /// The elements of the array, in declaration order.
    Stack(Vec<InputItem>),
}

impl View for InputShape {
    type V = ShapeModel;

    open spec fn view(&self) -> ShapeModel {
        match self {
            InputShape::Invalid(m) => ShapeModel::Invalid(m@),
            InputShape::NoStack => ShapeModel::NoStack,
            InputShape::Stack(v) => ShapeModel::Stack(
                v@.map_values(|it: InputItem| it@),
            ),
        }
    }
}

/// What classifying the text `s` against the array field `field` yields.
/// JSON parsing is a pure function of the text, so the classification is one
/// as well; this name stands for its result.
pub uninterp spec fn input_shape_of(s: Seq<char>, field: Seq<char>) -> ShapeModel;

#[verifier::external_type_specification]
#[verifier::external_body]
pub struct ExValue(serde_json::Value);

/// Relies on `serde_json::Value::as_str` and `Value::as_u64`: tells a JSON
/// string, a `u64`-representable JSON number, and every other element
/// apart, moving the value over.  Part of [`classify_input_json`]'s reading
/// of the payload, which its contract covers.
#[verifier::external_body]
fn classify_item(item: &serde_json::Value) -> InputItem {
    if let Some(t) = item.as_str() {
        InputItem::Text(t.to_string())
    } else if let Some(n) = item.as_u64() {
        InputItem::Number(n)
    } else {
        InputItem::Unsupported
    }
}

/// Relies on `serde_json::from_str` and the `serde_json::Value` accessors
/// `get` and `as_array` (with [`classify_item`] for the elements): parses
/// `raw` as JSON and hands back, as plain values, exactly what the decoder
/// reads — parse failure (with the parser's message), a missing `field`
/// array, or the array's elements classified one by one.  All of these are
/// deterministic in `raw` and `field`, so the result is
/// `input_shape_of(raw@, field@)`.
#[verifier::external_body]
fn classify_input_json(raw: &str, field: &str) -> (r: InputShape)
    ensures
        r@ == input_shape_of(raw@, field@),
{
    let parsed: serde_json::Value = match serde_json::from_str(raw) {
        Ok(v) => v,
        Err(e) => return InputShape::Invalid(e.to_string()),
    };
    match parsed.get(field).and_then(|f| f.as_array()) {
        None => InputShape::NoStack,
        Some(arr) => InputShape::Stack(arr.iter().map(classify_item).collect()),
    }
}

/// Mathematical model of a decode failure.
pub enum DecodeErrorModel {
    /// The payload was not valid JSON; carries the parser's message.
    InvalidJson(Seq<char>),
    /// A string element was not a valid `u64` numeral; carries the offending
    /// text and why it failed.
    InvalidNumber(Seq<char>, NumberError),
}

/// A decode failure: malformed JSON, or an unparsable numeral.
#[derive(Debug, PartialEq, Eq)]
pub enum DecodeError {
    InvalidJson(String),
    InvalidNumber(String, NumberError),
}

impl View for DecodeError {
    type V = DecodeErrorModel;

    open spec fn view(&self) -> DecodeErrorModel {
        match self {
            DecodeError::InvalidJson(m) => DecodeErrorModel::InvalidJson(m@),
            DecodeError::InvalidNumber(v, e) => DecodeErrorModel::InvalidNumber(v@, *e),
        }
    }
}

/// The human-readable message of a decode failure, as a sequence of
/// characters.
pub open spec fn decode_error_message(e: DecodeErrorModel) -> Seq<char> {
    match e {
        DecodeErrorModel::InvalidJson(m) => "Invalid JSON: "@ + m,
        DecodeErrorModel::InvalidNumber(v, k) => "Invalid number '"@ + v + "': "@
            + k.text_spec(),
    }
}

impl DecodeError {
    /// The human-readable message reported for this failure.
    pub fn message(&self) -> (r: String)
        ensures
            r@ == decode_error_message(self@),
    {
        match self {
            DecodeError::InvalidJson(m) => String::from_str("Invalid JSON: ").concat(
                m.as_str(),
            ),
            DecodeError::InvalidNumber(v, e) => String::from_str("Invalid number '")
                .concat(v.as_str())
                .concat("': ")
                .concat(e.text()),
        }
    }
}

/// The values collected from the array elements, in declaration order:
/// strings are parsed as numerals, numbers are taken as they are, elements of
/// other types are skipped.  The first unparsable numeral decides a failure,
/// which carries the offending text.
pub open spec fn collect_values(items: Seq<ItemModel>) -> Result<Seq<u64>, Seq<char>>
    decreases items.len(),
{
    if items.len() == 0 {
        Ok(Seq::empty())
    } else {
        match items[0] {
            ItemModel::Text(t) => if parse_u64_spec(t) is Ok {
                match collect_values(items.drop_first()) {
                    Ok(rest) => Ok(seq![parse_u64_spec(t)->Ok_0 as u64] + rest),
                    Err(b) => Err(b),
                }
            } else {
                Err(t)
            },
            ItemModel::Number(n) => match collect_values(items.drop_first()) {
                Ok(rest) => Ok(seq![n] + rest),
                Err(b) => Err(b),
            },
            ItemModel::Other => collect_values(items.drop_first()),
        }
    }
}

/// The view of an optional raw payload.
pub open spec fn raw_view(raw: Option<&str>) -> Option<Seq<char>> {
    match raw {
        Option::None => Option::None,
        Option::Some(s) => Option::Some(s@),
    }
}

/// What decoding an optional inputs payload yields: the collected values in
/// reverse declaration order, or the first failure found.  An absent payload
/// and a payload without an `operand_stack` array both yield no inputs.
pub open spec fn decode_spec(raw: Option<Seq<char>>) -> Result<Seq<u64>, DecodeErrorModel> {
    match raw {
        Option::None => Ok(Seq::empty()),
        Option::Some(s) => match input_shape_of(s, "operand_stack"@) {
            ShapeModel::Invalid(m) => Err(DecodeErrorModel::InvalidJson(m)),
            ShapeModel::NoStack => Ok(Seq::empty()),
            ShapeModel::Stack(items) => match collect_values(items) {
                Ok(vals) => Ok(vals.reverse()),
                Err(t) => Err(
                    DecodeErrorModel::InvalidNumber(t, parse_u64_spec(t)->Err_0),
                ),
            },
        },
    }
}

/// Prepending already-collected values to the outcome of collecting the rest.
pub open spec fn with_prefix(p: Seq<u64>, r: Result<Seq<u64>, Seq<char>>) -> Result<
    Seq<u64>,
    Seq<char>,
> {
    match r {
        Ok(v) => Ok(p + v),
        Err(b) => Err(b),
    }
}

/// Decode an optional JSON inputs payload into the ordered sequence of
/// machine-stack values, reversed as the engine's push convention demands.
pub fn decode_stack_inputs(raw: Option<&str>) -> (r: Result<Vec<u64>, DecodeError>)
    ensures
        r matches Ok(v) ==> decode_spec(raw_view(raw)) == Result::<
            Seq<u64>,
            DecodeErrorModel,
        >::Ok(v@),
        r matches Err(e) ==> decode_spec(raw_view(raw)) == Result::<
            Seq<u64>,
            DecodeErrorModel,
        >::Err(e@),
{
    let s = match raw {
        Option::None => {
            return Ok(Vec::new());
        },
        Option::Some(s) => s,
    };
    let shape = classify_input_json(s, "operand_stack");
    let items = match shape {
        InputShape::Invalid(m) => {
            return Err(DecodeError::InvalidJson(m));
        },
        InputShape::NoStack => {
            return Ok(Vec::new());
        },
        InputShape::Stack(items) => items,
    };
    let ghost model: Seq<ItemModel> = items@.map_values(|it: InputItem| it@);
    proof {
        let shp = input_shape_of(s@, "operand_stack"@);
        assert(shp is Stack);
        assert(shp->Stack_0 =~= model);
        assert(shp == ShapeModel::Stack(model));
    }
    let mut vals: Vec<u64> = Vec::new();
    let n: usize = items.len();
    let mut i: usize = 0;
    proof {
        assert(model.skip(0) =~= model);
        assert(with_prefix(vals@, collect_values(model)) == collect_values(model)) by {
            match collect_values(model) {
                Ok(v) => {
                    assert(vals@ + v =~= v);
                },
                Err(_) => {},
            }
        }
    }
    while i < n
        invariant
            i <= n,
            n == items.len(),
            model == items@.map_values(|it: InputItem| it@),
            raw_view(raw) == Option::Some(s@),
            input_shape_of(s@, "operand_stack"@) == ShapeModel::Stack(model),
            with_prefix(vals@, collect_values(model.skip(i as int))) == collect_values(
                model,
            ),
        decreases n - i,
    {
        proof {
            assert(model.skip(i as int)[0] == model[i as int]);
            assert(model.skip(i as int).drop_first() =~= model.skip(i + 1));
        }
        match &items[i] {
            InputItem::Text(t) => {
                match parse_u64(t.as_str()) {
                    Ok(v) => {
                        proof {
                            match collect_values(model.skip(i + 1)) {
                                Ok(rv) => {
                                    assert((vals@ + (seq![v] + rv)) =~= (vals@.push(v) + rv));
                                },
                                Err(_) => {},
                            }
                        }
                        vals.push(v);
                    },
                    Err(e) => {
                        proof {
                            assert(collect_values(model) == Result::<
                                Seq<u64>,
                                Seq<char>,
                            >::Err(t@));
                        }
                        return Err(DecodeError::InvalidNumber(t.clone(), e));
                    },
                }
            },
            InputItem::Number(m) => {
                let v: u64 = *m;
                proof {
                    match collect_values(model.skip(i + 1)) {
                        Ok(rv) => {
                            assert((vals@ + (seq![v] + rv)) =~= (vals@.push(v) + rv));
                        },
                        Err(_) => {},
                    }
                }
                vals.push(v);
            },
            InputItem::Unsupported => {},
        }
        i = i + 1;
    }
    proof {
        assert(model.skip(n as int) =~= Seq::<ItemModel>::empty());
        assert(collect_values(model) == Result::<Seq<u64>, Seq<char>>::Ok(vals@)) by {
            assert(with_prefix(vals@, collect_values(model.skip(n as int)))
                == collect_values(model));
            assert(vals@ + Seq::<u64>::empty() =~= vals@);
        }
    }
    let mut rev: Vec<u64> = Vec::new();
    let mut j: usize = vals.len();
    proof {
        assert(vals@.skip(j as int).reverse() =~= Seq::<u64>::empty());
    }
    while j > 0
        invariant
            j <= vals.len(),
            rev@ == vals@.skip(j as int).reverse(),
        decreases j,
    {
        j = j - 1;
        let v: u64 = vals[j];
        proof {
            assert(vals@.skip(j as int).reverse() =~= rev@.push(v));
        }
        rev.push(v);
    }
    proof {
        assert(vals@.skip(0) =~= vals@);
    }
    Ok(rev)
}

/// Decoding is a pure function of the raw payload: the same input
/// specification always decodes to the same outcome, so decoding twice
/// yields identical sequences.
pub proof fn lemma_decode_deterministic(raw1: Option<Seq<char>>, raw2: Option<Seq<char>>)
    requires
        raw1 == raw2,
    ensures
        decode_spec(raw1) == decode_spec(raw2),
{
}

/// The input-reversal invariant: when the payload declares a stack of
/// values, the decoded sequence is their reversal — the last declared element
/// comes first, so it is pushed first and ends up deepest in the stack.
pub proof fn lemma_inputs_reversed(s: Seq<char>, items: Seq<ItemModel>, vals: Seq<u64>)
    requires
        input_shape_of(s, "operand_stack"@) == ShapeModel::Stack(items),
        collect_values(items) == Result::<Seq<u64>, Seq<char>>::Ok(vals),
    ensures
        decode_spec(Option::Some(s)) == Result::<Seq<u64>, DecodeErrorModel>::Ok(
            vals.reverse(),
        ),
        decode_spec(Option::Some(s))->Ok_0.len() == vals.len(),
        forall|k: int|
            0 <= k < vals.len() ==> decode_spec(Option::Some(s))->Ok_0[k] == vals[
                vals.len() - 1 - k
            ],
{
}

} // verus!

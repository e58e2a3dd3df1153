//! Span and event attributes, and their conversion to JSON.

use crate::json::{json_bool, json_clone, json_i64, json_string, json_view, Json};
use vstd::prelude::*;
use vstd::string::StringExecFns;

verus! {

/// What stands for a 64-bit floating-point attribute value. The library does no
/// floating-point arithmetic; whoever builds the attribute supplies the two
/// renderings the formatter reads.
pub struct FloatValue {
    /// The value as JSON: a number, or `null` where it is not finite.
    pub json: serde_json::Value,
    /// The value as it is displayed.
    pub text: String,
}

/// What stands for an array-valued attribute. Its elements are not kept: an
/// array never reaches the JSON output, only its displayed form can.
pub struct ArrayValue {
    /// The array as it is displayed.
    pub text: String,
}

/// A primitive attribute value.
pub enum AttributeValue {
    Bool(bool),
    I64(i64),
    F64(FloatValue),
    String(String),
    Array(ArrayValue),
}

/// A key with its value, as attached to a span or to an event of a span.
pub struct Attribute {
    pub key: String,
    pub value: AttributeValue,
}

/// The character of a decimal digit.
pub open spec fn digit_char(d: int) -> char {
    if d == 0 {
        '0'
    } else if d == 1 {
        '1'
    } else if d == 2 {
        '2'
    } else if d == 3 {
        '3'
    } else if d == 4 {
        '4'
    } else if d == 5 {
        '5'
    } else if d == 6 {
        '6'
    } else if d == 7 {
        '7'
    } else if d == 8 {
        '8'
    } else {
        '9'
    }
}

/// The decimal digits of a natural number, without leading zeros.
pub open spec fn decimal_digits(n: nat) -> Seq<char>
    decreases n,
{
    if n < 10 {
        seq![digit_char(n as int)]
    } else {
        decimal_digits(n / 10).push(digit_char((n % 10) as int))
    }
}

/// An integer in decimal notation, with a minus sign where it is negative.
pub open spec fn decimal(n: int) -> Seq<char> {
    if n < 0 {
        seq!['-'] + decimal_digits((-n) as nat)
    } else {
        decimal_digits(n as nat)
    }
}

fn digit_text(d: u8) -> (text: &'static str)
    requires
        d < 10,
    ensures
        text@ == seq![digit_char(d as int)],
{
    proof {
        reveal_strlit("0");
        reveal_strlit("1");
        reveal_strlit("2");
        reveal_strlit("3");
        reveal_strlit("4");
        reveal_strlit("5");
        reveal_strlit("6");
        reveal_strlit("7");
        reveal_strlit("8");
        reveal_strlit("9");
    }
    let text = if d == 0 {
        "0"
    } else if d == 1 {
        "1"
    } else if d == 2 {
        "2"
    } else if d == 3 {
        "3"
    } else if d == 4 {
        "4"
    } else if d == 5 {
        "5"
    } else if d == 6 {
        "6"
    } else if d == 7 {
        "7"
    } else if d == 8 {
        "8"
    } else {
        "9"
    };
    assert(text@ =~= seq![digit_char(d as int)]);
    text
}

fn append_decimal_digits(out: &mut String, n: u64)
    ensures
        final(out)@ == old(out)@ + decimal_digits(n as nat),
    decreases n,
{
    if n >= 10 {
        append_decimal_digits(out, n / 10);
    }
    let d: u8 = (n % 10) as u8;
    out.append(digit_text(d));
    assert(out@ =~= old(out)@ + decimal_digits(n as nat));
}

/// Renders an integer in decimal notation.
pub fn decimal_text(n: i64) -> (text: String)
    ensures
        text@ == decimal(n as int),
{
    let mut text = String::new();
    if n < 0 {
        let wide: i128 = n as i128;
        let magnitude: u64 = (0 - wide) as u64;
        proof {
            reveal_strlit("-");
        }
        text.append("-");
        append_decimal_digits(&mut text, magnitude);
        assert(text@ =~= decimal(n as int));
    } else {
        append_decimal_digits(&mut text, n as u64);
        assert(text@ =~= decimal(n as int));
    }
    text
}

/// An attribute value as a mathematical value: a float by the JSON value and
/// the text supplied for it, an array by the text supplied for it.
pub enum AttributeValueView {
    Bool(bool),
    I64(i64),
    F64 { json: Json, text: Seq<char> },
    String(Seq<char>),
    Array { text: Seq<char> },
}

/// An attribute as a mathematical value.
pub struct AttributeView {
    pub key: Seq<char>,
    pub value: AttributeValueView,
}

impl AttributeValueView {
    /// The JSON value an attribute value becomes: booleans, integers and strings
    /// keep their value, a float becomes the number supplied for it, and an
    /// array becomes the empty string.
    pub open spec fn json(self) -> Json {
        match self {
            AttributeValueView::Bool(b) => Json::Bool(b),
            AttributeValueView::I64(n) => Json::Integer(n as int),
            AttributeValueView::F64 { json, .. } => json,
            AttributeValueView::String(s) => Json::Text(s),
            AttributeValueView::Array { .. } => Json::Text(Seq::empty()),
        }
    }

    /// The text an attribute value is displayed as.
    pub open spec fn display(self) -> Seq<char> {
        match self {
            AttributeValueView::Bool(b) => if b {
                "true"@
            } else {
                "false"@
            },
            AttributeValueView::I64(n) => decimal(n as int),
            AttributeValueView::F64 { text, .. } => text,
            AttributeValueView::String(s) => s,
            AttributeValueView::Array { text } => text,
        }
    }
}

impl View for AttributeValue {
    type V = AttributeValueView;

    open spec fn view(&self) -> AttributeValueView {
        match self {
            AttributeValue::Bool(b) => AttributeValueView::Bool(*b),
            AttributeValue::I64(n) => AttributeValueView::I64(*n),
            AttributeValue::F64(f) => AttributeValueView::F64 {
                json: json_view(f.json),
                text: f.text@,
            },
            AttributeValue::String(s) => AttributeValueView::String(s@),
            AttributeValue::Array(a) => AttributeValueView::Array { text: a.text@ },
        }
    }
}

impl View for Attribute {
    type V = AttributeView;

    open spec fn view(&self) -> AttributeView {
        AttributeView { key: self.key@, value: self.value@ }
    }
}

/// A list of attributes as a mathematical value.
pub open spec fn attributes_view(attributes: Seq<Attribute>) -> Seq<AttributeView> {
    attributes.map_values(|attribute: Attribute| attribute@)
}

impl AttributeValue {
    /// Converts the value to JSON.
    pub fn to_json(&self) -> (value: serde_json::Value)
        ensures
            json_view(value) == self@.json(),
    {
        match self {
            AttributeValue::Bool(b) => json_bool(*b),
            AttributeValue::I64(n) => json_i64(*n),
            AttributeValue::F64(f) => json_clone(&f.json),
            AttributeValue::String(s) => json_string(s.clone()),
            AttributeValue::Array(_) => json_string(String::new()),
        }
    }

    /// Renders the value as it is displayed.
    pub fn to_text(&self) -> (text: String)
        ensures
            text@ == self@.display(),
    {
        match self {
            AttributeValue::Bool(b) => if *b {
                "true".to_owned()
            } else {
                "false".to_owned()
            },
            AttributeValue::I64(n) => decimal_text(*n),
            AttributeValue::F64(f) => f.text.clone(),
            AttributeValue::String(s) => s.clone(),
            AttributeValue::Array(a) => a.text.clone(),
        }
    }
}

} // verus!

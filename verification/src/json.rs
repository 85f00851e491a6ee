//! The body of a response as JSON text.

use vstd::prelude::*;
use vstd::string::*;
use crate::conversion::ResponseBody;

verus! {

/// The JSON string that `serde_json` writes for a text: the text between
/// double quotes, with the characters that JSON does not allow in a string
/// escaped.
pub uninterp spec fn json_string_text(text: Seq<char>) -> Seq<char>;

/// Writes `text` as a JSON string. The body makes a `serde_json::Value` of
/// the text with `Value::from` and takes what the `Display` of `Value`
/// prints for it. In its plain form that is the compact JSON of the value,
/// which for a string is decided by the text alone.
#[verifier::external_body]
fn encode_string(text: &str) -> (encoded: String)
    ensures
        encoded@ == json_string_text(text@),
{
    serde_json::Value::from(text).to_string()
}

/// One decimal digit.
pub open spec fn digit_text(digit: nat) -> Seq<char>
    recommends
        digit < 10,
{
    if digit == 0 {
        "0"@
    } else if digit == 1 {
        "1"@
    } else if digit == 2 {
        "2"@
    } else if digit == 3 {
        "3"@
    } else if digit == 4 {
        "4"@
    } else if digit == 5 {
        "5"@
    } else if digit == 6 {
        "6"@
    } else if digit == 7 {
        "7"@
    } else if digit == 8 {
        "8"@
    } else {
        "9"@
    }
}

/// A number in decimal, without leading zeros.
pub open spec fn decimal_text(number: nat) -> Seq<char>
    decreases number,
{
    if number < 10 {
        digit_text(number)
    } else {
        decimal_text(number / 10) + digit_text(number % 10)
    }
}

/// The JSON object of a code and a message that is already written as a
/// JSON string.
pub open spec fn envelope_text(code: u16, encoded_message: Seq<char>) -> Seq<char> {
    "{\"code\":"@ + decimal_text(code as nat) + ",\"message\":"@ + encoded_message + "}"@
}

fn digit(value: u16) -> (text: &'static str)
    requires
        value < 10,
    ensures
        text@ == digit_text(value as nat),
{
    if value == 0 {
        "0"
    } else if value == 1 {
        "1"
    } else if value == 2 {
        "2"
    } else if value == 3 {
        "3"
    } else if value == 4 {
        "4"
    } else if value == 5 {
        "5"
    } else if value == 6 {
        "6"
    } else if value == 7 {
        "7"
    } else if value == 8 {
        "8"
    } else {
        "9"
    }
}

/// Writes a number in decimal.
pub fn decimal(number: u16) -> (text: String)
    ensures
        text@ == decimal_text(number as nat),
    decreases number,
{
    if number < 10 {
        String::from_str(digit(number))
    } else {
        let mut text = decimal(number / 10);
        text.append(digit(number % 10));
        text
    }
}

/// Builds the JSON object `{"code":..,"message":..}` from a code and a
/// message that is already written as a JSON string.
pub fn envelope(code: u16, encoded_message: &str) -> (json: String)
    ensures
        json@ == envelope_text(code, encoded_message@),
{
    let number = decimal(code);
    let mut json = String::from_str("{\"code\":");
    json.append(number.as_str());
    json.append(",\"message\":");
    json.append(encoded_message);
    json.append("}");
    json
}

impl ResponseBody {
    /// The body as JSON text: an object of the code, as a number, and the
    /// message, as a string.
    pub fn to_json(&self) -> (json: String)
        ensures
            json@ == envelope_text(self.code, json_string_text(self.message@)),
    {
        let message = encode_string(self.message.as_str());
        envelope(self.code, message.as_str())
    }
}

} // verus!

//! The text of a frame on the wire: a JSON object with the message's name
//! under `type` and, where the message carries data, the data under
//! `payload`.

use vstd::prelude::*;
use vstd::string::StringExecFns;

verus! {

/// The JSON text that `serde_json::to_string` gives for a string: the string
/// between double quotes, with the characters escaped that JSON wants
/// escaped. It is the empty text where `serde_json` reports an error.
pub uninterp spec fn json_string(text: Seq<char>) -> Seq<char>;

/// `serde_json::to_string` on a string slice. Its result depends on the
/// characters of the slice alone.
#[verifier::external_body]
pub(crate) fn quote(text: &str) -> (quoted: String)
    ensures
        quoted@ == json_string(text@),
{
    serde_json::to_string(text).unwrap_or_default()
}

/// The JSON text of each string of `texts`, in the same order.
pub open spec fn json_strings(texts: Seq<Seq<char>>) -> Seq<Seq<char>> {
    texts.map_values(|text: Seq<char>| json_string(text))
}

/// Writes each string of `texts` as a JSON text.
pub(crate) fn quote_all(texts: &Vec<String>) -> (quoted: Vec<String>)
    ensures
        quoted.deep_view() == json_strings(texts.deep_view()),
{
    let mut quoted: Vec<String> = Vec::new();
    let mut i: usize = 0;
    while i < texts.len()
        invariant
            i <= texts.len(),
            quoted.len() == i,
            forall|j: int| 0 <= j < i ==> (#[trigger] quoted[j])@ == json_string(texts[j]@),
        decreases texts.len() - i,
    {
        quoted.push(quote(texts[i].as_str()));
        i += 1;
    }
    proof {
        assert(quoted.deep_view() =~= json_strings(texts.deep_view()));
    }
    quoted
}

/// The items one after another, with a comma between each two.
pub open spec fn comma_joined(items: Seq<Seq<char>>) -> Seq<char>
    decreases items.len(),
{
    if items.len() == 0 {
        Seq::empty()
    } else if items.len() == 1 {
        items[0]
    } else {
        comma_joined(items.drop_last()) + ","@ + items.last()
    }
}

/// A JSON array of items that are JSON texts already.
pub open spec fn array_text(items: Seq<Seq<char>>) -> Seq<char> {
    "["@ + comma_joined(items) + "]"@
}

/// A JSON object of members that are written out already.
pub open spec fn object_text(members: Seq<Seq<char>>) -> Seq<char> {
    "{"@ + comma_joined(members) + "}"@
}

/// One member of a JSON object: the name between double quotes, a colon and
/// the value, which is a JSON text already.
pub open spec fn member_text(name: Seq<char>, value: Seq<char>) -> Seq<char> {
    "\""@ + name + "\":"@ + value
}

/// A frame: the tag under `type`, then the payload under `payload` where
/// there is one.
pub open spec fn frame_text(tag: Seq<char>, payload: Option<Seq<char>>) -> Seq<char> {
    match payload {
        Some(content) => "{\"type\":\""@ + tag + "\",\"payload\":"@ + content + "}"@,
        None => "{\"type\":\""@ + tag + "\"}"@,
    }
}

/// Writes the items one after another, with a comma between each two.
pub fn join_with_commas(items: &Vec<String>) -> (text: String)
    ensures
        text@ == comma_joined(items.deep_view()),
{
    let ghost all = items.deep_view();
    let mut text = String::new();
    let mut i: usize = 0;
    while i < items.len()
        invariant
            i <= items.len(),
            all == items.deep_view(),
            text@ == comma_joined(all.take(i as int)),
        decreases items.len() - i,
    {
        if i > 0 {
            text.append(",");
        }
        text.append(items[i].as_str());
        proof {
            let longer = all.take(i + 1);
            assert(longer.drop_last() == all.take(i as int));
            assert(longer.last() == items[i as int]@);
        }
        i += 1;
    }
    proof {
        assert(all.take(i as int) == all);
    }
    text
}

/// Writes a JSON array of items that are JSON texts already.
pub fn array(items: &Vec<String>) -> (text: String)
    ensures
        text@ == array_text(items.deep_view()),
{
    let mut text = String::new();
    text.append("[");
    let inner = join_with_commas(items);
    text.append(inner.as_str());
    text.append("]");
    text
}

/// Writes a JSON object of members that are written out already.
pub fn object(members: &Vec<String>) -> (text: String)
    ensures
        text@ == object_text(members.deep_view()),
{
    let mut text = String::new();
    text.append("{");
    let inner = join_with_commas(members);
    text.append(inner.as_str());
    text.append("}");
    text
}

/// Writes one member of a JSON object from its name and its value, which is
/// a JSON text already.
pub fn member(name: &str, value: &str) -> (text: String)
    ensures
        text@ == member_text(name@, value@),
{
    let mut text = String::new();
    text.append("\"");
    text.append(name);
    text.append("\":");
    text.append(value);
    text
}

/// The characters of a payload, where there is one.
pub open spec fn payload_text(payload: Option<&str>) -> Option<Seq<char>> {
    match payload {
        Some(content) => Some(content@),
        None => None,
    }
}

/// Writes a frame from its tag and its payload, which is a JSON text already.
pub fn frame(tag: &str, payload: Option<&str>) -> (text: String)
    ensures
        text@ == frame_text(tag@, payload_text(payload)),
{
    let mut text = String::new();
    text.append("{\"type\":\"");
    text.append(tag);
    match payload {
        Some(content) => {
            text.append("\",\"payload\":");
            text.append(content);
            text.append("}");
        },
        None => {
            text.append("\"}");
        },
    }
    text
}

} // verus!

//! The fields that the exchange writes in an unusual way, and what they mean.

use crate::json;
use crate::primitives::{self, B256};
use crate::text;
use vstd::prelude::*;

verus! {

/// A text field in which the empty text stands for nothing.
pub fn deser_empty_string_to_none(v: String) -> (field: Option<String>)
    ensures
        field == (if v@.len() == 0 {
            None::<String>
        } else {
            Some(v)
        }),
{
    if text::is_empty(&v) {
        None
    } else {
        Some(v)
    }
}

/// A field with an identifier of thirty-two bytes, in which the empty text
/// stands for nothing. Any other text that denotes no identifier is refused,
/// with an explanation.
pub fn deser_empty_to_none(v: &str) -> (field: Result<Option<B256>, String>)
    ensures
        v@.len() == 0 ==> field == Ok::<Option<B256>, String>(None),
        v@.len() > 0 ==> match field {
            Ok(Some(b)) => text::hex_denoted(v@, 32) == Some(b@),
            Ok(None) => false,
            Err(e) => text::hex_denoted(v@, 32) is None && e@ == primitives::b256_parse_message(
                v@,
            ),
        },
{
    if text::is_empty(v) {
        Ok(None)
    } else {
        match B256::from_text(v) {
            Ok(b) => Ok(Some(b)),
            Err(e) => Err(e),
        }
    }
}

/// A field that should hold a list of texts.
#[derive(Debug, Clone)]
pub enum ListField {
    /// A list, with the text of each item that is one.
    Array(Vec<Option<String>>),
    /// A text, which may in turn hold a list.
    Text(String),
    /// Anything else.
    Other,
}

/// The text of a list's item; an item that is no text counts as empty.
pub open spec fn item_text(item: Option<String>) -> Seq<char> {
    match item {
        Some(s) => s@,
        None => seq![],
    }
}

/// The texts that a field with a list means, if it holds a list: the items, or
/// what the strings of a JSON list in a text say.
pub open spec fn list_means(v: ListField, list: Seq<Seq<char>>) -> bool {
    match v {
        ListField::Array(items) => list == items@.map_values(
            |item: Option<String>| item_text(item),
        ),
        ListField::Text(s) => json::is_json_list(s@, list),
        ListField::Other => false,
    }
}

/// A field means at most one list.
pub proof fn list_means_one(v: ListField, a: Seq<Seq<char>>, b: Seq<Seq<char>>)
    requires
        list_means(v, a),
        list_means(v, b),
    ensures
        a == b,
{
    if let ListField::Text(s) = v {
        json::json_list_is_unambiguous(s@, a, b);
    }
}

/// A list and a text that holds the same list in JSON notation mean the same,
/// whatever characters are in the texts.
pub proof fn text_means_its_list(items: Vec<Option<String>>, s: String, list: Seq<Seq<char>>)
    requires
        list_means(ListField::Array(items), list),
        s@ == json::json_list(list),
    ensures
        list_means(ListField::Text(s), list),
        forall|other: Seq<Seq<char>>| #[trigger]
            list_means(ListField::Text(s), other) ==> other == list,
{
    json::json_list_says(list);
    assert forall|other: Seq<Seq<char>>| #[trigger]
        list_means(ListField::Text(s), other) implies other == list by {
        list_means_one(ListField::Text(s), other, list);
    }
}

/// Why a field with a list is refused.
pub open spec fn list_refusal(v: ListField) -> Seq<char> {
    match v {
        ListField::Text(s) => json::json_list_message(s@),
        _ => "expected array or stringified array"@,
    }
}

/// A field with a list of texts: a list, or a text that holds one. Every other
/// field is refused, with an explanation.
pub fn deserialize_inner_vec(v: ListField) -> (list: Result<Vec<String>, String>)
    ensures
        match list {
            Ok(list) => list_means(v, text::texts(list@)),
            Err(e) => e@ == list_refusal(v) && forall|items: Seq<Seq<char>>|
                !#[trigger] list_means(v, items),
        },
        forall|items: Seq<Seq<char>>| #[trigger]
            list_means(v, items) ==> list is Ok && text::texts(list->Ok_0@) == items,
{
    let ghost field = v;
    let list = match v {
        ListField::Array(items) => {
            let mut list: Vec<String> = Vec::new();
            let mut i: usize = 0;
            while i < items.len()
                invariant
                    i <= items@.len(),
                    list@.len() == i,
                    forall|j: int|
                        0 <= j < i ==> (#[trigger] list@[j])@ == item_text(items@[j]),
                decreases items@.len() - i,
            {
                match &items[i] {
                    Some(s) => list.push(s.clone()),
                    None => list.push(String::new()),
                }
                i += 1;
            }
            assert(text::texts(list@) =~= items@.map_values(
                |item: Option<String>| item_text(item),
            ));
            Ok(list)
        },
        ListField::Text(s) => json::json_strings_of(&s),
        ListField::Other => Err("expected array or stringified array".to_owned()),
    };
    proof {
        if list is Ok {
            assert(list_means(field, text::texts(list->Ok_0@)));
            assert forall|items: Seq<Seq<char>>| #[trigger] list_means(field, items) implies items
                == text::texts(list->Ok_0@) by {
                list_means_one(field, items, text::texts(list->Ok_0@));
            }
        }
    }
    list
}

/// A field with a number written as a text. A text that denotes no number is
/// refused, with an explanation.
pub fn deserialize_string_to_u64(v: &str) -> (field: Result<u64, String>)
    ensures
        match field {
            Ok(n) => text::u64_denoted(v@) == Some(n),
            Err(e) => text::u64_denoted(v@) is None && e@ == text::u64_parse_message(v@),
        },
{
    text::u64_of_text(v)
}

/// A list is taken item by item, where an item that is no text counts as empty;
/// what is neither a list nor a text is refused.
pub proof fn lists_are_taken_item_by_item(v: ListField, list: Result<Vec<String>, String>)
    requires
        call_ensures(deserialize_inner_vec, (v,), list),
    ensures
        v matches ListField::Array(items) ==> {
            &&& list is Ok
            &&& list->Ok_0@.len() == items@.len()
            &&& forall|i: int|
                0 <= i < items@.len() ==> (#[trigger] list->Ok_0@[i])@ == (match items@[i] {
                    Some(s) => s@,
                    None => seq![],
                })
        },
        v matches ListField::Text(s) ==> {
            &&& list matches Ok(list) ==> json::is_json_list(s@, text::texts(list@))
            &&& list is Err ==> forall|items: Seq<Seq<char>>|
                !#[trigger] json::is_json_list(s@, items)
        },
        v is Other ==> list is Err && list->Err_0@ == "expected array or stringified array"@,
{
    match v {
        ListField::Array(items) => {
            let meant = items@.map_values(|item: Option<String>| item_text(item));
            assert(list_means(v, meant));
            let read = text::texts(list->Ok_0@);
            assert(read == meant);
            assert(read.len() == list->Ok_0@.len());
            assert forall|i: int| 0 <= i < items@.len() implies (#[trigger] list->Ok_0@[i])@
                == item_text(items@[i]) by {
                assert(read[i] == list->Ok_0@[i]@ && meant[i] == item_text(items@[i]));
            }
        },
        ListField::Text(s) => {
            if list is Err {
                assert forall|items: Seq<Seq<char>>| !#[trigger]
                    json::is_json_list(s@, items) by {
                    assert(!list_means(v, items));
                }
            }
        },
        ListField::Other => {
            if list is Ok {
                assert(list_means(v, text::texts(list->Ok_0@)));
            }
        },
    }
}

/// The empty text stands for nothing, and every other text for itself.
pub proof fn empty_texts_stand_for_nothing(v: String, field: Option<String>)
    requires
        call_ensures(deser_empty_string_to_none, (v,), field),
    ensures
        field is None <==> v@.len() == 0,
        field matches Some(s) ==> s@ == v@,
{
}

/// An identifier is read back from its notation, and the empty text stands for
/// none.
pub proof fn identifiers_are_read_back(
    id: B256,
    v: &str,
    empty: &str,
    field: Result<Option<B256>, String>,
    nothing: Result<Option<B256>, String>,
)
    requires
        v@ == seq!['0', 'x'] + text::hex(id@),
        empty@.len() == 0,
        call_ensures(deser_empty_to_none, (v,), field),
        call_ensures(deser_empty_to_none, (empty,), nothing),
    ensures
        field == Ok::<Option<B256>, String>(Some(id)),
        nothing == Ok::<Option<B256>, String>(None),
{
    primitives::b256_reads_back(id);
    if let Ok(Some(read)) = field {
        primitives::b256_bytes_determine(read, id);
    }
}

/// A number is read back from its decimal notation.
pub proof fn numbers_are_read_back(n: u64, v: &str, field: Result<u64, String>)
    requires
        v@ == text::decimal(n as nat),
        call_ensures(deserialize_string_to_u64, (v,), field),
    ensures
        field == Ok::<u64, String>(n),
{
    text::u64_reads_back(n);
}

} // verus!

//! Laws on JSON documents.

use vstd::prelude::*;

use crate::json::{elements, members, number_integer, parsed, Elements, Fields, Json, JsonTree};

verus! {

proof fn lemma_elements(items: Seq<Json>)
    ensures
        elements(items).len() == items.len(),
        forall|i: int| 0 <= i < items.len() ==> #[trigger] elements(items)[i] == items[i]@,
    decreases items.len(),
{
    if items.len() > 0 {
        lemma_elements(items.drop_last());
        assert forall|i: int| 0 <= i < items.len() implies #[trigger] elements(items)[i]
            == items[i]@ by {
            if i < items.len() - 1 {
                assert(elements(items.drop_last())[i] == items.drop_last()[i]@);
            }
        }
    }
}

proof fn lemma_last_member(items: Seq<(String, Json)>, name: Seq<char>, k: int)
    requires
        0 <= k < items.len(),
        items[k].0@ == name,
        forall|j: int| k < j < items.len() ==> (#[trigger] items[j]).0@ != name,
    ensures
        members(items).contains_key(name),
        members(items)[name] == items[k].1@,
    decreases items.len(),
{
    if k < items.len() - 1 {
        assert(items.last().0@ != name);
        lemma_last_member(items.drop_last(), name, k);
    }
}

proof fn lemma_no_member(items: Seq<(String, Json)>, name: Seq<char>)
    requires
        forall|j: int| 0 <= j < items.len() ==> (#[trigger] items[j]).0@ != name,
    ensures
        !members(items).contains_key(name),
    decreases items.len(),
{
    if items.len() > 0 {
        assert(items.last().0@ != name);
        lemma_no_member(items.drop_last(), name);
    }
}

/// The content of a document is what it is made of: its truth value, its number, its text, and
/// the contents of its elements, one for one.
pub proof fn law_content(json: Json)
    ensures
        json is Null <==> json@ is Null,
        json matches Json::Bool(b) ==> json@ == JsonTree::Bool(b),
        json matches Json::Number(n) ==> json@ == match number_integer(n) {
            Some(i) => JsonTree::Int(i),
            None => JsonTree::Float(n),
        },
        json matches Json::Str(s) ==> json@ == JsonTree::Str(s@),
        json matches Json::Array(items) ==> {
            &&& json@ matches JsonTree::Array(trees)
            &&& trees.len() == items@.len()
            &&& forall|i: int| 0 <= i < trees.len() ==> #[trigger] trees[i] == items@[i]@
        },
        json is Object <==> json@ is Object,
{
    if let Json::Array(items) = json {
        lemma_elements(items@);
    }
}

/// The member of a document is that of the name in its object, and there is none in anything else.
pub proof fn law_member_of_content(tree: JsonTree, name: Seq<char>)
    ensures
        tree.member(name) is Some <==> tree is Object && tree->Object_0.contains_key(name),
        tree.member(name) matches Some(found) ==> found == tree->Object_0[name],
{
}

/// Looking up a name finds the last member of that name, and nothing where there is none or
/// where the document is no object.
pub proof fn law_get(json: &Json, name: &str, k: int, r: Option<&Json>)
    requires
        call_ensures(Json::get, (json, name), r),
    ensures
        !(json is Object) ==> r is None,
        *json matches Json::Object(items) ==> {
            &&& (0 <= k < items@.len() && items@[k].0@ == name@ && forall|j: int|
                k < j < items@.len() ==> (#[trigger] items@[j]).0@ != name@) ==> r is Some
                && r->Some_0@ == items@[k].1@
            &&& (forall|j: int| 0 <= j < items@.len() ==> (#[trigger] items@[j]).0@ != name@)
                ==> r is None
        },
{
    if let Json::Object(items) = *json {
        if 0 <= k < items@.len() && items@[k].0@ == name@ && forall|j: int|
            k < j < items@.len() ==> (#[trigger] items@[j]).0@ != name@ {
            lemma_last_member(items@, name@, k);
        }
        if forall|j: int| 0 <= j < items@.len() ==> (#[trigger] items@[j]).0@ != name@ {
            lemma_no_member(items@, name@);
        }
    }
}

/// Looking up a name finds the member of the content.
pub proof fn law_get_finds_member(json: &Json, name: &str, r: Option<&Json>)
    requires
        call_ensures(Json::get, (json, name), r),
    ensures
        match r {
            Some(found) => json@.member(name@) == Some(found@),
            None => json@.member(name@) is None,
        },
{
}

/// A member that is put in is found under its name, and all other names lead where they led.
pub proof fn law_fields(before: Fields, name: &str, value: Json, after: Fields, was: Json, now: Json)
    requires
        call_ensures(Fields::with, (before, name, value), after),
        call_ensures(Fields::into_json, (before,), was),
        call_ensures(Fields::into_json, (after,), now),
    ensures
        now@.member(name@) == Some(value@),
        forall|other: Seq<char>| other != name@ ==> #[trigger] now@.member(other) == was@.member(other),
{
}

/// At first an object has no members, and an array no elements.
pub proof fn law_built_from_nothing(fields: Fields, object: Json, elements: Elements, array: Json)
    requires
        call_ensures(Fields::new, (), fields),
        call_ensures(Fields::into_json, (fields,), object),
        call_ensures(Elements::new, (), elements),
        call_ensures(Elements::into_json, (elements,), array),
    ensures
        object@ is Object,
        forall|name: Seq<char>| #[trigger] object@.member(name) is None,
        array@ == JsonTree::Array(Seq::empty()),
{
}

/// An element that is put in stands last, after all that stood there before.
pub proof fn law_elements(before: Elements, value: Json, after: Elements, was: Json, now: Json)
    requires
        call_ensures(Elements::with, (before, value), after),
        call_ensures(Elements::into_json, (before,), was),
        call_ensures(Elements::into_json, (after,), now),
    ensures
        was@ is Array,
        now@ == JsonTree::Array(was@->Array_0.push(value@)),
{
}

/// A copy has the content of what is copied.
pub proof fn law_copy(json: &Json, r: Json)
    requires
        call_ensures(Json::clone, (json,), r),
    ensures
        r@ == json@,
{
}

/// A text is had from a string alone, and is the text of the string.
pub proof fn law_strings(json: &Json, r: Option<&str>)
    requires
        call_ensures(Json::as_str, (json,), r),
    ensures
        match r {
            Some(s) => json@ == JsonTree::Str(s@),
            None => !(json@ is Str),
        },
{
}

/// An integer is had from a number alone, and exactly if the number is an integer of 64 bits with
/// sign; it is that integer.
pub proof fn law_integers(json: &Json, r: Option<i64>)
    requires
        call_ensures(Json::as_i64, (json,), r),
    ensures
        match r {
            Some(n) => json@ == JsonTree::Int(n as int),
            None => json@ matches JsonTree::Int(n) ==> n < -0x8000_0000_0000_0000 || n
                > 0x7fff_ffff_ffff_ffff,
        },
{
}

/// What is made of an integer or a text gives it back.
pub proof fn law_scalars(n: i64, number: Json, back: Option<i64>, s: &str, text: Json, again: Option<&str>)
    requires
        call_ensures(Json::integer, (n,), number),
        call_ensures(Json::as_i64, (&number,), back),
        call_ensures(Json::text, (s,), text),
        call_ensures(Json::as_str, (&text,), again),
    ensures
        back == Some(n),
        again is Some && again->Some_0@ == s@,
{
}

/// Reading the text that was written of a document gives the document back, where no number in
/// it is other than an integer and it lies at most 127 deep.
pub proof fn law_text_reads_back(
    json: &Json,
    compact: String,
    pretty: String,
    first: Result<Json, String>,
    second: Result<Json, String>,
    c: &str,
    p: &str,
)
    requires
        json@.fits(127),
        call_ensures(Json::to_compact, (json,), compact),
        call_ensures(Json::to_pretty, (json,), pretty),
        c@ == compact@,
        p@ == pretty@,
        call_ensures(Json::parse, (c,), first),
        call_ensures(Json::parse, (p,), second),
    ensures
        first is Ok && first->Ok_0@ == json@,
        second is Ok && second->Ok_0@ == json@,
        !compact@.contains('\n'),
{
}

/// What is read of a text is the document that it spells, or the reason why it spells none.
pub proof fn law_parse(text: &str, r: Result<Json, String>)
    requires
        call_ensures(Json::parse, (text,), r),
    ensures
        match r {
            Ok(json) => parsed(text@) == Ok::<JsonTree, Seq<char>>(json@),
            Err(why) => parsed(text@) == Err::<JsonTree, Seq<char>>(why@),
        },
{
}

/// Null, truth values, integers and strings hold no number that is other than an integer.
pub proof fn law_plain_documents_fit(tree: JsonTree)
    requires
        tree is Null || tree is Bool || tree is Int || tree is Str,
    ensures
        tree.fits(0),
        crate::json::integers_only(tree),
{
    assert(tree.fits(0));
}

/// Nothing is asked of a caller: every text can be read, and every document written.
pub proof fn law_every_document_is_taken(text: &str, json: &Json)
    ensures
        call_requires(Json::parse, (text,)),
        call_requires(Json::to_compact, (json,)),
        call_requires(Json::to_pretty, (json,)),
        call_requires(Json::get, (json, text)),
        call_requires(Json::as_str, (json,)),
        call_requires(Json::as_i64, (json,)),
{
}

} // verus!

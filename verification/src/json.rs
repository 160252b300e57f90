//! JSON documents: what the protocol code reads and builds, and the way to and from text.

use vstd::prelude::*;

verus! {

/// `serde_json::Number`: a JSON number, an integer of 64 bits or another.
#[verifier::external_type_specification]
#[verifier::external_body]
pub struct ExNumber(serde_json::Number);

/// `serde_json::Value`: the parser's own form of a JSON document.
#[verifier::external_type_specification]
#[verifier::external_body]
pub struct ExValue(serde_json::Value);

/// `serde_json::Map`: the members of an object, by name.
#[verifier::external_type_specification]
#[verifier::external_body]
#[verifier::reject_recursive_types(K)]
#[verifier::reject_recursive_types(V)]
pub struct ExMap<K, V>(serde_json::Map<K, V>);

/// `serde_json::Error`: why a document could not be written.
#[verifier::external_type_specification]
#[verifier::external_body]
pub struct ExError(serde_json::Error);

/// A JSON document.
#[derive(Debug, PartialEq)]
pub enum Json {
    Null,
    Bool(bool),
    Number(serde_json::Number),
    Str(String),
    Array(Vec<Json>),
    Object(Vec<(String, Json)>),
}

/// The content of a JSON document. The members of an object have no order; a number that is no
/// integer is left unopened.
#[verifier::ext_equal]
pub enum JsonTree {
    Null,
    Bool(bool),
    Int(int),
    Float(serde_json::Number),
    Str(Seq<char>),
    Array(Seq<JsonTree>),
    Object(Map<Seq<char>, JsonTree>),
}

/// The contents of the elements of an array.
pub open spec fn elements(items: Seq<Json>) -> Seq<JsonTree>
    decreases items,
{
    if items.len() == 0 {
        Seq::empty()
    } else {
        elements(items.drop_last()).push(tree_of(items.last()))
    }
}

/// The members of an object, by name; of two of one name the later one counts.
pub open spec fn members(items: Seq<(String, Json)>) -> Map<Seq<char>, JsonTree>
    decreases items,
{
    if items.len() == 0 {
        Map::empty()
    } else {
        members(items.drop_last()).insert(items.last().0@, tree_of(items.last().1))
    }
}

/// The content of a number.
pub open spec fn number_tree(n: serde_json::Number) -> JsonTree {
    match number_integer(n) {
        Some(i) => JsonTree::Int(i),
        None => JsonTree::Float(n),
    }
}

/// The content of a document.
pub open spec fn tree_of(json: Json) -> JsonTree
    decreases json,
{
    match json {
        Json::Null => JsonTree::Null,
        Json::Bool(b) => JsonTree::Bool(b),
        Json::Number(n) => number_tree(n),
        Json::Str(s) => JsonTree::Str(s@),
        Json::Array(items) => JsonTree::Array(elements(items@)),
        Json::Object(items) => JsonTree::Object(members(items@)),
    }
}

impl View for Json {
    type V = JsonTree;

    open spec fn view(&self) -> JsonTree {
        tree_of(*self)
    }
}

impl JsonTree {
    /// The member of that name, where the document is an object that has one.
    pub open spec fn member(self, name: Seq<char>) -> Option<JsonTree> {
        match self {
            JsonTree::Object(fields) => if fields.contains_key(name) {
                Some(fields[name])
            } else {
                None
            },
            _ => None,
        }
    }

    /// The text of a string.
    pub open spec fn string(self) -> Option<Seq<char>> {
        match self {
            JsonTree::Str(s) => Some(s),
            _ => None,
        }
    }

    /// The number, where it is an integer of 64 bits with sign.
    pub open spec fn integer(self) -> Option<i64> {
        match self {
            JsonTree::Int(n) => if i64::MIN <= n <= i64::MAX {
                Some(n as i64)
            } else {
                None
            },
            _ => None,
        }
    }

    /// Arrays and objects lie at most `depth` deep in one another.
    pub open spec fn shallow(self, depth: nat) -> bool
        decreases depth,
    {
        match self {
            JsonTree::Array(items) => {
                &&& depth > 0
                &&& forall|i: int|
                    0 <= i < items.len() ==> (#[trigger] items[i]).shallow((depth - 1) as nat)
            },
            JsonTree::Object(fields) => {
                &&& depth > 0
                &&& forall|name: Seq<char>| #[trigger]
                    fields.contains_key(name) ==> fields[name].shallow((depth - 1) as nat)
            },
            _ => true,
        }
    }

    /// No number in the document is other than an integer, and arrays and objects lie at most
    /// `depth` deep in one another.
    pub open spec fn fits(self, depth: nat) -> bool
        decreases depth,
    {
        match self {
            JsonTree::Float(_) => false,
            JsonTree::Array(items) => {
                &&& depth > 0
                &&& forall|i: int|
                    0 <= i < items.len() ==> (#[trigger] items[i]).fits((depth - 1) as nat)
            },
            JsonTree::Object(fields) => {
                &&& depth > 0
                &&& forall|name: Seq<char>| #[trigger]
                    fields.contains_key(name) ==> fields[name].fits((depth - 1) as nat)
            },
            _ => true,
        }
    }
}

/// No number in the document is other than an integer.
pub open spec fn integers_only(tree: JsonTree) -> bool {
    exists|depth: nat| tree.fits(depth)
}

/// The member of an optional document.
pub open spec fn member_of(tree: Option<JsonTree>, name: Seq<char>) -> Option<JsonTree> {
    match tree {
        Some(tree) => tree.member(name),
        None => None,
    }
}

/// The text of an optional string.
pub open spec fn string_of(tree: Option<JsonTree>) -> Option<Seq<char>> {
    match tree {
        Some(tree) => tree.string(),
        None => None,
    }
}

/// The value of an optional integer.
pub open spec fn integer_of(tree: Option<JsonTree>) -> Option<i64> {
    match tree {
        Some(tree) => tree.integer(),
        None => None,
    }
}

/// The content of an optional document.
pub open spec fn tree_of_option(json: Option<&Json>) -> Option<JsonTree> {
    match json {
        Some(json) => Some(json@),
        None => None,
    }
}

/// How deep arrays and objects may lie in one another in a text that is read.
pub const MAX_DEPTH: u64 = 127;

/// The integer that a `serde_json::Number` holds, where it holds one.
pub uninterp spec fn number_integer(number: serde_json::Number) -> Option<int>;

/// The document that a `serde_json::Value` holds: its elements and members, and theirs.
pub uninterp spec fn value_tree(value: serde_json::Value) -> JsonTree;

/// The documents that a `serde_json::Map` holds, by name.
pub uninterp spec fn map_members(
    map: serde_json::Map<String, serde_json::Value>,
) -> Map<Seq<char>, JsonTree>;

/// No members.
pub open spec fn no_members() -> Map<Seq<char>, JsonTree> {
    Map::empty()
}

/// The document that a text spells, or what is wrong with a text that spells none.
pub uninterp spec fn parsed(text: Seq<char>) -> Result<JsonTree, Seq<char>>;

/// The text spells that document.
pub open spec fn spells(text: Seq<char>, tree: JsonTree) -> bool {
    parsed(text) == Ok::<JsonTree, Seq<char>>(tree)
}

/// The text spells no document, for that reason.
pub open spec fn spells_nothing(text: Seq<char>, message: Seq<char>) -> bool {
    parsed(text) == Err::<JsonTree, Seq<char>>(message)
}

/// A document's text on one line.
pub uninterp spec fn compact_text(tree: JsonTree) -> Seq<char>;

/// A document's text over several lines, indented.
pub uninterp spec fn pretty_text(tree: JsonTree) -> Seq<char>;

/// Calls `serde_json::from_str`. Claimed: the outcome is a function of the text, whether a
/// document or the message of the error; and a document that lies deeper than the limit is not
/// read.
#[verifier::external_body]
fn value_of_text(text: &str) -> (r: Result<serde_json::Value, String>)
    ensures
        match r {
            Ok(value) => parsed(text@) == Ok::<JsonTree, Seq<char>>(value_tree(value)),
            Err(message) => parsed(text@) == Err::<JsonTree, Seq<char>>(message@),
        },
        r matches Ok(value) ==> value_tree(value).shallow(MAX_DEPTH as nat),
{
    serde_json::from_str::<serde_json::Value>(text).map_err(|e| e.to_string())
}

/// Calls `serde_json::to_string`. Claimed: a `Value` is always written (its keys are strings and
/// the text grows in memory); the text is a function of the document and holds no line feed
/// (inside a string one is escaped, outside no white space is written); and `serde_json::from_str`
/// gives the document back, short of the numbers that are no integers and the depth at which it
/// gives up.
#[verifier::external_body]
fn compact_text_of_value(value: &serde_json::Value) -> (r: Result<String, serde_json::Error>)
    ensures
        r is Ok,
        r->Ok_0@ == compact_text(value_tree(*value)),
        !r->Ok_0@.contains('\n'),
        value_tree(*value).fits(MAX_DEPTH as nat) ==> spells(r->Ok_0@, value_tree(*value)),
{
    serde_json::to_string(value)
}

/// Calls `serde_json::to_string_pretty`. Claimed: a `Value` is always written; the text is a
/// function of the document; and `serde_json::from_str` gives the document back, short of the
/// numbers that are no integers and the depth at which it gives up.
#[verifier::external_body]
fn pretty_text_of_value(value: &serde_json::Value) -> (r: Result<String, serde_json::Error>)
    ensures
        r is Ok,
        r->Ok_0@ == pretty_text(value_tree(*value)),
        value_tree(*value).fits(MAX_DEPTH as nat) ==> spells(r->Ok_0@, value_tree(*value)),
{
    serde_json::to_string_pretty(value)
}

/// Calls `Number::clone`, which copies the number.
pub assume_specification[ <serde_json::Number as Clone>::clone ](n: &serde_json::Number) -> (r:
    serde_json::Number)
    ensures
        r == *n,
;

/// Calls `Number::as_i64`. Claimed: it gives the integer, where the number is one that an `i64`
/// can hold, and nothing otherwise.
pub assume_specification[ serde_json::Number::as_i64 ](n: &serde_json::Number) -> (r: Option<i64>)
    ensures
        r == match number_integer(*n) {
            Some(i) => if i64::MIN <= i <= i64::MAX {
                Some(i as i64)
            } else {
                None
            },
            None => None,
        },
;

/// Calls `Number::from` on an `i64`. Claimed: the number is that integer.
#[verifier::external_body]
fn number_of_i64(n: i64) -> (r: serde_json::Number)
    ensures
        number_integer(r) == Some(n as int),
{
    serde_json::Number::from(n)
}

proof fn lemma_elements_push(items: Seq<Json>, last: Json)
    ensures
        elements(items.push(last)) == elements(items).push(last@),
{
    assert(items.push(last).drop_last() =~= items);
}

proof fn lemma_members_push(items: Seq<(String, Json)>, last: (String, Json))
    ensures
        members(items.push(last)) == members(items).insert(last.0@, last.1@),
{
    assert(items.push(last).drop_last() =~= items);
}

/// A document that fits a depth fits any greater one.
pub(crate) proof fn lemma_fits_deeper(tree: JsonTree, depth: nat, more: nat)
    requires
        tree.fits(depth),
        depth <= more,
    ensures
        tree.fits(more),
    decreases depth,
{
    match tree {
        JsonTree::Array(items) => {
            assert forall|i: int| 0 <= i < items.len() implies (#[trigger] items[i]).fits(
                (more - 1) as nat,
            ) by {
                lemma_fits_deeper(items[i], (depth - 1) as nat, (more - 1) as nat);
            }
        },
        JsonTree::Object(fields) => {
            assert forall|name: Seq<char>| #[trigger]
                fields.contains_key(name) implies fields[name].fits((more - 1) as nat) by {
                lemma_fits_deeper(fields[name], (depth - 1) as nat, (more - 1) as nat);
            }
        },
        _ => {},
    }
}

/// Where no number is other than an integer, what bounds the depth is enough to fit it.
pub(crate) proof fn lemma_shallow_fits(tree: JsonTree, depth: nat, some: nat)
    requires
        tree.shallow(depth),
        tree.fits(some),
    ensures
        tree.fits(depth),
    decreases depth,
{
    match tree {
        JsonTree::Array(items) => {
            assert forall|i: int| 0 <= i < items.len() implies (#[trigger] items[i]).fits(
                (depth - 1) as nat,
            ) by {
                lemma_shallow_fits(items[i], (depth - 1) as nat, (some - 1) as nat);
            }
        },
        JsonTree::Object(fields) => {
            assert forall|name: Seq<char>| #[trigger]
                fields.contains_key(name) implies fields[name].fits((depth - 1) as nat) by {
                lemma_shallow_fits(fields[name], (depth - 1) as nat, (some - 1) as nat);
            }
        },
        _ => {},
    }
}

/// A `serde_json::Value`, opened by one level.
enum Node {
    Null,
    Bool(bool),
    Number(serde_json::Number),
    Str(String),
    Array(Vec<serde_json::Value>),
    Object(serde_json::Map<String, serde_json::Value>),
}

/// The documents in an array of values.
spec fn value_elements(items: Seq<serde_json::Value>) -> Seq<JsonTree> {
    items.map_values(|value: serde_json::Value| value_tree(value))
}

/// The documents in members of an object; of two of one name the later one counts.
spec fn value_members(items: Seq<(String, serde_json::Value)>) -> Map<Seq<char>, JsonTree>
    decreases items.len(),
{
    if items.len() == 0 {
        Map::empty()
    } else {
        value_members(items.drop_last()).insert(items.last().0@, value_tree(items.last().1))
    }
}

/// No two members have one name.
spec fn names_differ(items: Seq<(String, serde_json::Value)>) -> bool {
    forall|i: int, j: int|
        0 <= i < j < items.len() ==> (#[trigger] items[i]).0@ != (#[trigger] items[j]).0@
}

/// The document that an opened value holds.
spec fn node_tree(node: Node) -> JsonTree {
    match node {
        Node::Null => JsonTree::Null,
        Node::Bool(b) => JsonTree::Bool(b),
        Node::Number(n) => number_tree(n),
        Node::Str(s) => JsonTree::Str(s@),
        Node::Array(items) => JsonTree::Array(value_elements(items@)),
        Node::Object(map) => JsonTree::Object(map_members(map)),
    }
}

/// Opens a `serde_json::Value`, variant by variant. Claimed: what comes out is what the value
/// holds.
#[verifier::external_body]
fn open_value(value: serde_json::Value) -> (r: Node)
    ensures
        node_tree(r) == value_tree(value),
{
    match value {
        serde_json::Value::Null => Node::Null,
        serde_json::Value::Bool(b) => Node::Bool(b),
        serde_json::Value::Number(n) => Node::Number(n),
        serde_json::Value::String(s) => Node::Str(s),
        serde_json::Value::Array(items) => Node::Array(items),
        serde_json::Value::Object(map) => Node::Object(map),
    }
}

/// Makes a `serde_json::Value`, variant by variant. Claimed: the value holds what went in.
#[verifier::external_body]
fn close_value(node: Node) -> (r: serde_json::Value)
    ensures
        value_tree(r) == node_tree(node),
{
    match node {
        Node::Null => serde_json::Value::Null,
        Node::Bool(b) => serde_json::Value::Bool(b),
        Node::Number(n) => serde_json::Value::Number(n),
        Node::Str(s) => serde_json::Value::String(s),
        Node::Array(items) => serde_json::Value::Array(items),
        Node::Object(map) => serde_json::Value::Object(map),
    }
}

/// Calls `serde_json::Map::new`. Claimed: the map has no members.
#[verifier::external_body]
fn empty_map() -> (r: serde_json::Map<String, serde_json::Value>)
    ensures
        map_members(r) == no_members(),
{
    serde_json::Map::new()
}

/// Calls `serde_json::Map::insert`. Claimed: the member is added, in place of one of the same
/// name where there is one, and the others stay.
#[verifier::external_body]
fn insert_member(
    map: &mut serde_json::Map<String, serde_json::Value>,
    name: String,
    value: serde_json::Value,
)
    ensures
        map_members(*final(map)) == map_members(*old(map)).insert(name@, value_tree(value)),
{
    map.insert(name, value);
}

/// Calls `into_iter` on a `serde_json::Map`. Claimed: the members come out, each once.
#[verifier::external_body]
fn map_entries(map: serde_json::Map<String, serde_json::Value>) -> (r: Vec<
    (String, serde_json::Value),
>)
    ensures
        value_members(r@) == map_members(map),
        names_differ(r@),
{
    map.into_iter().collect()
}

proof fn lemma_value_members_push(
    items: Seq<(String, serde_json::Value)>,
    last: (String, serde_json::Value),
)
    ensures
        value_members(items.push(last)) == value_members(items).insert(
            last.0@,
            value_tree(last.1),
        ),
{
    assert(items.push(last).drop_last() =~= items);
}

proof fn lemma_value_members_finite(items: Seq<(String, serde_json::Value)>)
    ensures
        value_members(items).dom().finite(),
    decreases items.len(),
{
    if items.len() > 0 {
        lemma_value_members_finite(items.drop_last());
    }
}

/// Each of the members that have different names stands in the object.
proof fn lemma_value_member(items: Seq<(String, serde_json::Value)>, i: int)
    requires
        names_differ(items),
        0 <= i < items.len(),
    ensures
        value_members(items).contains_key(items[i].0@),
        value_members(items)[items[i].0@] == value_tree(items[i].1),
    decreases items.len(),
{
    if i < items.len() - 1 {
        lemma_value_member(items.drop_last(), i);
    }
}

/// Reads the document that a value holds.
fn json_of_value(value: serde_json::Value) -> (r: Json)
    ensures
        r@ == value_tree(value),
    decreases value_tree(value),
{
    match open_value(value) {
        Node::Null => Json::Null,
        Node::Bool(b) => Json::Bool(b),
        Node::Number(n) => Json::Number(n),
        Node::Str(s) => Json::Str(s),
        Node::Array(items) => {
            let ghost all = items@;
            let mut out: Vec<Json> = Vec::new();
            for item in it: items
                invariant
                    it.seq() == all,
                    value_tree(value) == JsonTree::Array(value_elements(all)),
                    elements(out@) == value_elements(all.take(it.index() as int)),
            {
                proof {
                    let whole = value_tree(value);
                    assert(decreases_to!(whole => whole->Array_0));
                    assert(decreases_to!(whole->Array_0 => whole->Array_0[it.index() as int]));
                    assert(whole->Array_0[it.index() as int] == value_tree(item));
                }
                let json = json_of_value(item);
                proof {
                    lemma_elements_push(out@, json);
                    assert(value_elements(all.take(it.index() + 1)) =~= value_elements(
                        all.take(it.index() as int),
                    ).push(value_tree(item)));
                }
                out.push(json);
            }
            assert(all.take(all.len() as int) =~= all);
            Json::Array(out)
        },
        Node::Object(map) => {
            let items = map_entries(map);
            let ghost all = items@;
            let mut out: Vec<(String, Json)> = Vec::new();
            for item in it: items
                invariant
                    it.seq() == all,
                    names_differ(all),
                    value_tree(value) == JsonTree::Object(value_members(all)),
                    members(out@) == value_members(all.take(it.index() as int)),
            {
                let ghost name = item.0@;
                let ghost tree = value_tree(item.1);
                proof {
                    lemma_value_member(all, it.index() as int);
                    lemma_value_members_finite(all);
                    let whole = value_tree(value);
                    assert(decreases_to!(whole => whole->Object_0));
                    assert(decreases_to!(whole->Object_0 => whole->Object_0[name]));
                    assert(whole->Object_0[name] == tree);
                }
                let json = json_of_value(item.1);
                let member = (item.0, json);
                proof {
                    lemma_members_push(out@, member);
                    assert(all.take(it.index() + 1) =~= all.take(it.index() as int).push(
                        all[it.index() as int],
                    ));
                    lemma_value_members_push(all.take(it.index() as int), all[it.index() as int]);
                }
                out.push(member);
            }
            assert(all.take(all.len() as int) =~= all);
            Json::Object(out)
        },
    }
}

/// Makes the value that holds a document.
fn value_of_json(json: &Json) -> (r: serde_json::Value)
    ensures
        value_tree(r) == json@,
    decreases json,
{
    match json {
        Json::Null => close_value(Node::Null),
        Json::Bool(b) => close_value(Node::Bool(*b)),
        Json::Number(n) => close_value(Node::Number(n.clone())),
        Json::Str(s) => close_value(Node::Str(s.clone())),
        Json::Array(items) => {
            let mut out: Vec<serde_json::Value> = Vec::new();
            let mut i: usize = 0;
            while i < items.len()
                invariant
                    i <= items@.len(),
                    value_elements(out@) == elements(items@.take(i as int)),
                    decreases_to!(json => items),
                decreases items@.len() - i,
            {
                let value = value_of_json(&items[i]);
                proof {
                    assert(value_elements(out@.push(value)) =~= value_elements(out@).push(
                        value_tree(value),
                    ));
                    assert(items@.take(i + 1) =~= items@.take(i as int).push(items@[i as int]));
                    lemma_elements_push(items@.take(i as int), items@[i as int]);
                }
                out.push(value);
                i = i + 1;
            }
            assert(items@.take(i as int) =~= items@);
            close_value(Node::Array(out))
        },
        Json::Object(items) => {
            let mut map = empty_map();
            let mut i: usize = 0;
            assert(members(items@.take(0)) =~= no_members());
            while i < items.len()
                invariant
                    i <= items@.len(),
                    map_members(map) == members(items@.take(i as int)),
                    decreases_to!(json => items),
                decreases items@.len() - i,
            {
                let value = value_of_json(&items[i].1);
                proof {
                    assert(items@.take(i + 1) =~= items@.take(i as int).push(items@[i as int]));
                    lemma_members_push(items@.take(i as int), items@[i as int]);
                }
                insert_member(&mut map, items[i].0.clone(), value);
                i = i + 1;
            }
            assert(items@.take(i as int) =~= items@);
            close_value(Node::Object(map))
        },
    }
}

impl Clone for Json {
    fn clone(&self) -> (r: Self)
        ensures
            r@ == self@,
        decreases self,
    {
        match self {
            Json::Null => Json::Null,
            Json::Bool(b) => Json::Bool(*b),
            Json::Number(n) => Json::Number(n.clone()),
            Json::Str(s) => Json::Str(s.clone()),
            Json::Array(items) => {
                let mut copy: Vec<Json> = Vec::new();
                let mut i: usize = 0;
                while i < items.len()
                    invariant
                        i <= items@.len(),
                        elements(copy@) == elements(items@.take(i as int)),
                        decreases_to!(self => items),
                    decreases items@.len() - i,
                {
                    let item = items[i].clone();
                    proof {
                        lemma_elements_push(copy@, item);
                        assert(items@.take(i + 1) =~= items@.take(i as int).push(items@[i as int]));
                        lemma_elements_push(items@.take(i as int), items@[i as int]);
                    }
                    copy.push(item);
                    i = i + 1;
                }
                proof {
                    assert(items@.take(i as int) =~= items@);
                }
                Json::Array(copy)
            },
            Json::Object(items) => {
                let mut copy: Vec<(String, Json)> = Vec::new();
                let mut i: usize = 0;
                while i < items.len()
                    invariant
                        i <= items@.len(),
                        members(copy@) == members(items@.take(i as int)),
                        decreases_to!(self => items),
                    decreases items@.len() - i,
                {
                    let item = (items[i].0.clone(), items[i].1.clone());
                    proof {
                        lemma_members_push(copy@, item);
                        assert(items@.take(i + 1) =~= items@.take(i as int).push(items@[i as int]));
                        lemma_members_push(items@.take(i as int), items@[i as int]);
                    }
                    copy.push(item);
                    i = i + 1;
                }
                proof {
                    assert(items@.take(i as int) =~= items@);
                }
                Json::Object(copy)
            },
        }
    }
}

impl Json {
    /// Reads a document from its text.
    pub fn parse(text: &str) -> (r: Result<Json, String>)
        ensures
            match r {
                Ok(json) => spells(text@, json@) && json@.shallow(MAX_DEPTH as nat),
                Err(message) => spells_nothing(text@, message@),
            },
    {
        match value_of_text(text) {
            Ok(value) => Ok(json_of_value(value)),
            Err(message) => Err(message),
        }
    }

    /// Writes the document on one line. Reading the text gives the document back.
    pub fn to_compact(&self) -> (r: String)
        ensures
            r@ == compact_text(self@),
            !r@.contains('\n'),
            self@.fits(MAX_DEPTH as nat) ==> spells(r@, self@),
    {
        compact_text_of_value(&value_of_json(self)).unwrap()
    }

    /// Writes the document over several lines. Reading the text gives the document back.
    pub fn to_pretty(&self) -> (r: String)
        ensures
            r@ == pretty_text(self@),
            self@.fits(MAX_DEPTH as nat) ==> spells(r@, self@),
    {
        pretty_text_of_value(&value_of_json(self)).unwrap()
    }

    /// The integer as a document.
    pub fn integer(n: i64) -> (r: Json)
        ensures
            r@ == JsonTree::Int(n as int),
    {
        Json::Number(number_of_i64(n))
    }

    /// The string as a document.
    pub fn text(s: &str) -> (r: Json)
        ensures
            r@ == JsonTree::Str(s@),
    {
        Json::Str(s.to_owned())
    }

    /// The member of that name, where the document is an object that has one.
    pub fn get(&self, name: &str) -> (r: Option<&Json>)
        ensures
            tree_of_option(r) == self@.member(name@),
    {
        match self {
            Json::Object(items) => {
                let wanted: String = name.to_owned();
                let mut i: usize = items.len();
                assert(items@.take(i as int) =~= items@);
                while i > 0
                    invariant
                        i <= items@.len(),
                        wanted@ == name@,
                        self@ == JsonTree::Object(members(items@)),
                        members(items@).contains_key(name@) == members(
                            items@.take(i as int),
                        ).contains_key(name@),
                        members(items@).contains_key(name@) ==> members(items@)[name@] == members(
                            items@.take(i as int),
                        )[name@],
                    decreases i,
                {
                    i = i - 1;
                    proof {
                        assert(items@.take(i + 1) =~= items@.take(i as int).push(items@[i as int]));
                        lemma_members_push(items@.take(i as int), items@[i as int]);
                    }
                    if items[i].0 == wanted {
                        return Some(&items[i].1);
                    }
                }
                None
            },
            _ => None,
        }
    }

    /// The text of a string.
    pub fn as_str(&self) -> (r: Option<&str>)
        ensures
            match r {
                Some(s) => self@.string() == Some(s@),
                None => self@.string() is None,
            },
    {
        match self {
            Json::Str(s) => Some(s.as_str()),
            _ => None,
        }
    }

    /// The number, where it is an integer of 64 bits with sign.
    pub fn as_i64(&self) -> (r: Option<i64>)
        ensures
            r == self@.integer(),
    {
        match self {
            Json::Number(n) => n.as_i64(),
            _ => None,
        }
    }
}

/// The members of an object that is being built.
pub struct Fields {
    items: Vec<(String, Json)>,
}

impl View for Fields {
    type V = Map<Seq<char>, JsonTree>;

    closed spec fn view(&self) -> Map<Seq<char>, JsonTree> {
        members(self.items@)
    }
}

impl Fields {
    /// No members.
    pub fn new() -> (r: Fields)
        ensures
            r@ == Map::<Seq<char>, JsonTree>::empty(),
    {
        Fields { items: Vec::new() }
    }

    /// One member more, in place of an earlier one of the same name.
    pub fn with(self, name: &str, value: Json) -> (r: Fields)
        ensures
            r@ == self@.insert(name@, value@),
    {
        let mut items = self.items;
        let item = (name.to_owned(), value);
        proof {
            lemma_members_push(items@, item);
        }
        items.push(item);
        Fields { items }
    }

    /// The object with these members.
    pub fn into_json(self) -> (r: Json)
        ensures
            r@ == JsonTree::Object(self@),
    {
        Json::Object(self.items)
    }
}

/// The elements of an array that is being built.
pub struct Elements {
    items: Vec<Json>,
}

impl View for Elements {
    type V = Seq<JsonTree>;

    closed spec fn view(&self) -> Seq<JsonTree> {
        elements(self.items@)
    }
}

impl Elements {
    /// No elements.
    pub fn new() -> (r: Elements)
        ensures
            r@ == Seq::<JsonTree>::empty(),
    {
        Elements { items: Vec::new() }
    }

    /// One element more, at the end.
    pub fn with(self, value: Json) -> (r: Elements)
        ensures
            r@ == self@.push(value@),
    {
        let mut items = self.items;
        proof {
            lemma_elements_push(items@, value);
        }
        items.push(value);
        Elements { items }
    }

    /// The array of these elements.
    pub fn into_json(self) -> (r: Json)
        ensures
            r@ == JsonTree::Array(self@),
    {
        Json::Array(self.items)
    }
}

} // verus!

//! Finding the JSON text that a page carries between two markers, and walking
//! from the value it denotes to the part that is wanted.

use crate::json::{items_model, lemma_array_view, JsonModel, JsonValue};
use crate::parse::{from_str, is_json, parsed};
use crate::text::{chars_of, find, find_chars, find_from, str_eq, string_of};
use vstd::prelude::*;
use vstd::string::*;

verus! {

/// Why nothing was extracted.
#[derive(Debug, PartialEq, Eq)]
pub enum ExtractError {
    /// The marker does not occur in the text.
    MarkerNotFound(String),
    /// The text between the markers is not JSON text.
    InvalidJson,
    /// The value is no object with this key.
    KeyNotFound(String),
    /// The value is no array with an item that meets the predicate.
    PredicateNoMatch,
}

/// The model of an `ExtractError`.
pub enum ExtractErrorModel {
    MarkerNotFound(Seq<char>),
    InvalidJson,
    KeyNotFound(Seq<char>),
    PredicateNoMatch,
}

impl View for ExtractError {
    type V = ExtractErrorModel;

    open spec fn view(&self) -> ExtractErrorModel {
        match self {
            ExtractError::MarkerNotFound(m) => ExtractErrorModel::MarkerNotFound(m@),
            ExtractError::InvalidJson => ExtractErrorModel::InvalidJson,
            ExtractError::KeyNotFound(k) => ExtractErrorModel::KeyNotFound(k@),
            ExtractError::PredicateNoMatch => ExtractErrorModel::PredicateNoMatch,
        }
    }
}

/// One step of a walk through a JSON value.
#[derive(Debug, Clone, PartialEq, Eq)]
pub enum NavStep {
    /// Go to the value of the key in an object.
    Key(String),
    /// Go to the first item of an array whose field `field` is an array that
    /// holds the string `literal`.
    Find { field: String, literal: String },
}

/// The model of a `NavStep`.
pub enum NavStepModel {
    Key(Seq<char>),
    Find { field: Seq<char>, literal: Seq<char> },
}

impl View for NavStep {
    type V = NavStepModel;

    open spec fn view(&self) -> NavStepModel {
        match self {
            NavStep::Key(k) => NavStepModel::Key(k@),
            NavStep::Find { field, literal } => NavStepModel::Find {
                field: field@,
                literal: literal@,
            },
        }
    }
}

/// The text strictly between the first `start` in `html` and the first `end`
/// behind it, without regard to what the text is.
pub open spec fn between(html: Seq<char>, start: Seq<char>, end: Seq<char>) -> Result<
    Seq<char>,
    ExtractErrorModel,
> {
    match find(html, start) {
        None => Err(ExtractErrorModel::MarkerNotFound(start)),
        Some(i) => {
            let from = i + start.len();
            match find_from(html, end, from) {
                None => Err(ExtractErrorModel::MarkerNotFound(end)),
                Some(k) => Ok(html.subrange(from, k)),
            }
        },
    }
}

/// What extracting from `html` gives: the text between the markers, if it is
/// JSON text.
pub open spec fn extracted(html: Seq<char>, start: Seq<char>, end: Seq<char>) -> Result<
    Seq<char>,
    ExtractErrorModel,
> {
    match between(html, start, end) {
        Err(e) => Err(e),
        Ok(text) => if parsed(text) is Some {
            Ok(text)
        } else {
            Err(ExtractErrorModel::InvalidJson)
        },
    }
}

/// The text strictly between the first `start_marker` in `html` and the first
/// `end_marker` behind it.
pub fn slice_between(html: &str, start_marker: &str, end_marker: &str) -> (r: Result<
    String,
    ExtractError,
>)
    ensures
        match r {
            Ok(text) => between(html@, start_marker@, end_marker@) == Ok::<
                Seq<char>,
                ExtractErrorModel,
            >(text@),
            Err(e) => between(html@, start_marker@, end_marker@) == Err::<
                Seq<char>,
                ExtractErrorModel,
            >(e@),
        },
{
    let hay: Vec<char> = chars_of(html);
    let start: Vec<char> = chars_of(start_marker);
    let end: Vec<char> = chars_of(end_marker);
    match find_chars(&hay, &start, 0) {
        None => Err(ExtractError::MarkerNotFound(String::from_str(start_marker))),
        Some(i) => {
            proof {
                crate::text::lemma_find_from(hay@, start@, 0);
                assert(crate::text::occurs_at(hay@, start@, i as int));
                assert(i + start.len() <= hay.len());
            }
            let from: usize = i + start.len();
            match find_chars(&hay, &end, from) {
                None => Err(ExtractError::MarkerNotFound(String::from_str(end_marker))),
                Some(k) => {
                    proof {
                        crate::text::lemma_find_from(hay@, end@, from as int);
                    }
                    Ok(string_of(&hay, from, k))
                },
            }
        },
    }
}

/// The JSON text that `html` carries between the first `start_marker` and the
/// first `end_marker` behind it.
///
/// A marker that does not occur is reported as `MarkerNotFound`; text between
/// the markers that is not JSON text, as `InvalidJson`.
pub fn extract(html: &str, start_marker: &str, end_marker: &str) -> (r: Result<
    String,
    ExtractError,
>)
    ensures
        match r {
            Ok(text) => extracted(html@, start_marker@, end_marker@) == Ok::<
                Seq<char>,
                ExtractErrorModel,
            >(text@),
            Err(e) => extracted(html@, start_marker@, end_marker@) == Err::<
                Seq<char>,
                ExtractErrorModel,
            >(e@),
        },
{
    match slice_between(html, start_marker, end_marker) {
        Err(e) => Err(e),
        Ok(text) => {
            if is_json(text.as_str()) {
                Ok(text)
            } else {
                Err(ExtractError::InvalidJson)
            }
        },
    }
}

/// Whether the array `items` holds the string `literal`.
pub open spec fn holds_string(items: Seq<JsonModel>, literal: Seq<char>) -> bool {
    exists|i: int| 0 <= i < items.len() && #[trigger] items[i] == JsonModel::String(literal)
}

/// Whether the field `field` of `item` is an array that holds the string `literal`.
pub open spec fn meets(item: JsonModel, field: Seq<char>, literal: Seq<char>) -> bool {
    match item.get(field) {
        Some(JsonModel::Array(ks)) => holds_string(ks, literal),
        _ => false,
    }
}

/// The index of the first of `items` that meets the predicate, or the number
/// of items if none does.
pub open spec fn first_match(items: Seq<JsonModel>, field: Seq<char>, literal: Seq<char>) -> int
    decreases items.len(),
{
    if items.len() == 0 {
        0
    } else if meets(items[0], field, literal) {
        0
    } else {
        1 + first_match(items.drop_first(), field, literal)
    }
}

/// What one step from `j` gives.
pub open spec fn stepped(j: JsonModel, step: NavStepModel) -> Result<JsonModel, ExtractErrorModel> {
    match step {
        NavStepModel::Key(name) => match j.get(name) {
            Some(v) => Ok(v),
            None => Err(ExtractErrorModel::KeyNotFound(name)),
        },
        NavStepModel::Find { field, literal } => match j {
            JsonModel::Array(items) => {
                let p = first_match(items, field, literal);
                if p < items.len() {
                    Ok(items[p])
                } else {
                    Err(ExtractErrorModel::PredicateNoMatch)
                }
            },
            _ => Err(ExtractErrorModel::PredicateNoMatch),
        },
    }
}

/// What walking the steps `path` from `j` gives: the value reached, or the
/// error of the first step that fails.
pub open spec fn walked(j: JsonModel, path: Seq<NavStepModel>) -> Result<
    JsonModel,
    ExtractErrorModel,
>
    decreases path.len(),
{
    if path.len() == 0 {
        Ok(j)
    } else {
        match stepped(j, path[0]) {
            Ok(v) => walked(v, path.drop_first()),
            Err(e) => Err(e),
        }
    }
}

/// The models of the steps in `path`, in order.
pub open spec fn path_model(path: Seq<NavStep>) -> Seq<NavStepModel> {
    Seq::new(path.len(), |i: int| path[i]@)
}

/// `first_match` is the first index that meets the predicate.
pub proof fn lemma_first_match(items: Seq<JsonModel>, field: Seq<char>, literal: Seq<char>, p: int)
    requires
        0 <= p <= items.len(),
        forall|k: int| 0 <= k < p ==> !meets(#[trigger] items[k], field, literal),
        p < items.len() ==> meets(items[p], field, literal),
    ensures
        first_match(items, field, literal) == p,
    decreases items.len(),
{
    if items.len() > 0 && p > 0 {
        let rest = items.drop_first();
        assert(!meets(items[0], field, literal));
        assert forall|k: int| 0 <= k < p - 1 implies !meets(#[trigger] rest[k], field, literal) by {
            assert(rest[k] == items[k + 1]);
        }
        lemma_first_match(rest, field, literal, p - 1);
    }
}

/// Whether `items` holds the string `literal`.
fn array_holds(items: &Vec<JsonValue>, literal: &str) -> (r: bool)
    ensures
        r == holds_string(items_model(items@), literal@),
{
    let mut i: usize = 0;
    while i < items.len()
        invariant
            i <= items.len(),
            forall|k: int|
                0 <= k < i ==> (#[trigger] items_model(items@)[k]) != JsonModel::String(literal@),
        decreases items.len() - i,
    {
        match items[i].as_str() {
            Some(s) => {
                if str_eq(s, literal) {
                    assert(items_model(items@)[i as int] == JsonModel::String(literal@));
                    return true;
                }
            },
            None => {},
        }
        i = i + 1;
    }
    false
}

/// Whether the field `field` of `item` is an array that holds the string `literal`.
fn item_meets(item: &JsonValue, field: &str, literal: &str) -> (r: bool)
    ensures
        r == meets(item@, field@, literal@),
{
    match item.get(field) {
        Some(v) => match v.as_array() {
            Some(ks) => array_holds(ks, literal),
            None => false,
        },
        None => false,
    }
}

/// One step from `j`.
fn step<'a>(j: &'a JsonValue, s: &NavStep) -> (r: Result<&'a JsonValue, ExtractError>)
    ensures
        match r {
            Ok(v) => stepped(j@, s@) == Ok::<JsonModel, ExtractErrorModel>(v@),
            Err(e) => stepped(j@, s@) == Err::<JsonModel, ExtractErrorModel>(e@),
        },
{
    match s {
        NavStep::Key(name) => match j.get(name.as_str()) {
            Some(v) => Ok(v),
            None => Err(ExtractError::KeyNotFound(name.clone())),
        },
        NavStep::Find { field, literal } => match j.as_array() {
            None => Err(ExtractError::PredicateNoMatch),
            Some(items) => {
                let ghost im = items_model(items@);
                let mut i: usize = 0;
                while i < items.len()
                    invariant
                        i <= items.len(),
                        im == items_model(items@),
                        j@ == JsonModel::Array(im),
                        s@ == (NavStepModel::Find { field: field@, literal: literal@ }),
                        forall|k: int| 0 <= k < i ==> !meets(#[trigger] im[k], field@, literal@),
                    decreases items.len() - i,
                {
                    if item_meets(&items[i], field.as_str(), literal.as_str()) {
                        proof {
                            lemma_first_match(im, field@, literal@, i as int);
                        }
                        return Ok(&items[i]);
                    }
                    i = i + 1;
                }
                proof {
                    lemma_first_match(im, field@, literal@, i as int);
                }
                Err(ExtractError::PredicateNoMatch)
            },
        },
    }
}

/// Walks the steps `path` from `json` and gives the value reached.
///
/// The first step that fails ends the walk with its error: `KeyNotFound` with
/// the key for a `Key` step, `PredicateNoMatch` for a `Find` step.
pub fn navigate(json: JsonValue, path: &Vec<NavStep>) -> (r: Result<JsonValue, ExtractError>)
    ensures
        match r {
            Ok(v) => walked(json@, path_model(path@)) == Ok::<JsonModel, ExtractErrorModel>(v@),
            Err(e) => walked(json@, path_model(path@)) == Err::<JsonModel, ExtractErrorModel>(e@),
        },
{
    let ghost pm = path_model(path@);
    let mut cur: &JsonValue = &json;
    let mut i: usize = 0;
    proof {
        assert(pm.skip(0) =~= pm);
    }
    while i < path.len()
        invariant
            i <= path.len(),
            pm == path_model(path@),
            walked(json@, pm) == walked(cur@, pm.skip(i as int)),
        decreases path.len() - i,
    {
        proof {
            assert(pm.skip(i as int)[0] == path[i as int]@);
            assert(pm.skip(i as int).drop_first() =~= pm.skip(i + 1));
        }
        match step(cur, &path[i]) {
            Ok(v) => {
                cur = v;
            },
            Err(e) => {
                return Err(e);
            },
        }
        i = i + 1;
    }
    Ok(cur.clone())
}

/// The marker before the data that a season page carries.
pub const SEASON_START: &'static str = "<script id=\"__NEXT_DATA__\" type=\"application/json\">";

/// The marker behind the data that a season page carries.
pub const SEASON_END: &'static str = "</script>";

/// The text that the key of the query for a season holds.
pub const SEASON_QUERY: &'static str = "pgc/view/web/season";

/// The walk from the data of a season page to the state of the season.
pub open spec fn season_steps() -> Seq<NavStepModel> {
    seq![
        NavStepModel::Key("props"@),
        NavStepModel::Key("pageProps"@),
        NavStepModel::Key("dehydratedState"@),
        NavStepModel::Key("queries"@),
        NavStepModel::Find { field: "queryKey"@, literal: SEASON_QUERY@ },
        NavStepModel::Key("state"@),
        NavStepModel::Key("data"@),
    ]
}

/// What a season page gives: the state of the season, reached by
/// `season_steps` from the data between the two markers.
pub open spec fn season_of(html: Seq<char>) -> Result<JsonModel, ExtractErrorModel> {
    match extracted(html, SEASON_START@, SEASON_END@) {
        Err(e) => Err(e),
        Ok(text) => walked(parsed(text).unwrap(), season_steps()),
    }
}

/// A step to the value of the key `name`.
fn key(name: &str) -> (s: NavStep)
    ensures
        s@ == NavStepModel::Key(name@),
{
    NavStep::Key(String::from_str(name))
}

/// The walk from the data of a season page to the state of the season.
pub fn season_path() -> (path: Vec<NavStep>)
    ensures
        path_model(path@) == season_steps(),
{
    let mut path: Vec<NavStep> = Vec::new();
    path.push(key("props"));
    path.push(key("pageProps"));
    path.push(key("dehydratedState"));
    path.push(key("queries"));
    path.push(
        NavStep::Find {
            field: String::from_str("queryKey"),
            literal: String::from_str(SEASON_QUERY),
        },
    );
    path.push(key("state"));
    path.push(key("data"));
    assert(path_model(path@) =~= season_steps());
    path
}

/// The state of the season that the page `html` carries.
pub fn season_state(html: &str) -> (r: Result<JsonValue, ExtractError>)
    ensures
        match r {
            Ok(v) => season_of(html@) == Ok::<JsonModel, ExtractErrorModel>(v@),
            Err(e) => season_of(html@) == Err::<JsonModel, ExtractErrorModel>(e@),
        },
{
    let text: String = match extract(html, SEASON_START, SEASON_END) {
        Ok(text) => text,
        Err(e) => {
            return Err(e);
        },
    };
    match from_str(text.as_str()) {
        Ok(json) => navigate(json, &season_path()),
        Err(_) => Err(ExtractError::InvalidJson),
    }
}

} // verus!

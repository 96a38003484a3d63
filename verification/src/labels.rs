//! Label selectors: which workloads a resource applies to.
//!
//! Two selectors are the same when they are written the same way: the same
//! labels with the same values, and the same expressions in the same order.
//! Whether two selectors that are written differently pick the same
//! workloads is not asked.

use vstd::prelude::*;
use vstd::std_specs::cmp::PartialEqSpecImpl;
use vstd::string::*;
use crate::document::{Document, DocumentView, items_view, members_view, optional_view};
use crate::named::{find, keys, lemma_position, lookup, names, position};
use crate::schema::{Field, SchemaError};
use crate::text::reads;

verus! {

/// How an expression holds a label's value against its own values.
#[derive(Clone, Copy, Debug, PartialEq, Eq, Structural)]
pub enum Operator {
    In,
    NotIn,
    Exists,
    DoesNotExist,
}

/// One requirement on a label.
#[derive(Debug)]
pub struct Expression {
    pub key: String,
    pub operator: Operator,
    /// The values, as a set: neither their order nor a repetition counts.
    pub values: Option<Vec<String>>,
}

/// What an [`Expression`] holds.
pub ghost struct ExpressionView {
    pub key: Seq<char>,
    pub operator: Operator,
    pub values: Option<Set<Seq<char>>>,
}

/// A label selector.
#[derive(Debug)]
pub struct Selector {
    /// Labels and the values they must have, as a map: the order does not
    /// count, and of two entries for one label the first is the entry.
    pub match_labels: Option<Vec<(String, String)>>,
    pub match_expressions: Option<Vec<Expression>>,
}

/// What a [`Selector`] holds.
pub ghost struct SelectorView {
    pub match_labels: Option<Map<Seq<char>, Seq<char>>>,
    pub match_expressions: Option<Seq<ExpressionView>>,
}

/// A list of labels with their values, each string taken by its view.
pub open spec fn pairs_view(pairs: Seq<(String, String)>) -> Seq<(Seq<char>, Seq<char>)> {
    Seq::new(pairs.len(), |i: int| (pairs[i].0@, pairs[i].1@))
}

/// The map that a list of labels stands for.
pub open spec fn pairs_map(pairs: Seq<(Seq<char>, Seq<char>)>) -> Map<Seq<char>, Seq<char>> {
    Map::new(|key: Seq<char>| lookup(pairs, key) is Some, |key: Seq<char>| lookup(pairs, key)->0)
}

/// Whether every label of `ours` has the same value in `theirs`.
pub open spec fn labels_agree(ours: Map<Seq<char>, Seq<char>>, theirs: Map<Seq<char>, Seq<char>>) -> bool {
    forall|key: Seq<char>| #[trigger] ours.contains_key(key) ==> theirs.contains_key(key) && ours[key] == theirs[key]
}

/// A list of strings, each taken by its view.
pub open spec fn strings_view(strings: Seq<String>) -> Seq<Seq<char>> {
    Seq::new(strings.len(), |i: int| strings[i]@)
}

/// A list of expressions, each taken by its view.
pub open spec fn expressions_view(expressions: Seq<Expression>) -> Seq<ExpressionView> {
    Seq::new(expressions.len(), |i: int| expressions[i]@)
}

impl View for Expression {
    type V = ExpressionView;

    open spec fn view(&self) -> ExpressionView {
        ExpressionView { key: self.key@, operator: self.operator, values: values_view(self.values) }
    }
}

/// What stands for `labels` in a selector's view.
pub open spec fn labels_view(labels: Option<Vec<(String, String)>>) -> Option<Map<Seq<char>, Seq<char>>> {
    match labels {
        Some(pairs) => Some(pairs_map(pairs_view(pairs@))),
        None => None,
    }
}

/// What stands for `values` in an expression's view.
pub open spec fn values_view(values: Option<Vec<String>>) -> Option<Set<Seq<char>>> {
    match values {
        Some(strings) => Some(strings_view(strings@).to_set()),
        None => None,
    }
}

/// What stands for a selector's expressions in its view.
pub open spec fn optional_expressions_view(expressions: Option<Vec<Expression>>) -> Option<Seq<ExpressionView>> {
    match expressions {
        Some(list) => Some(expressions_view(list@)),
        None => None,
    }
}

impl View for Selector {
    type V = SelectorView;

    open spec fn view(&self) -> SelectorView {
        SelectorView {
            match_labels: labels_view(self.match_labels),
            match_expressions: optional_expressions_view(self.match_expressions),
        }
    }
}

/// The value that `pairs` gives to the label `key`.
pub fn label_of<'a>(pairs: &'a Vec<(String, String)>, key: &str) -> (found: Option<&'a String>)
    ensures
        match found {
            Some(value) => lookup(pairs_view(pairs@), key@) == Some(value@),
            None => lookup(pairs_view(pairs@), key@) is None,
        },
{
    assert(keys(pairs@) =~= names(pairs_view(pairs@)));
    match find(pairs, key) {
        Some(i) => Some(&pairs[i].1),
        None => None,
    }
}

/// Whether every label of `a` has the same value in `b`.
fn labels_within(a: &Vec<(String, String)>, b: &Vec<(String, String)>) -> (within: bool)
    ensures
        within == labels_agree(pairs_map(pairs_view(a@)), pairs_map(pairs_view(b@))),
{
    let ghost ours = pairs_view(a@);
    let ghost theirs = pairs_view(b@);
    let mut i: usize = 0;
    while i < a.len()
        invariant
            i <= a.len(),
            ours == pairs_view(a@),
            theirs == pairs_view(b@),
            forall|j: int| 0 <= j < i ==> lookup(theirs, #[trigger] ours[j].0) == lookup(ours, ours[j].0),
        decreases a.len() - i,
    {
        let key = a[i].0.as_str();
        proof {
            lemma_position(names(ours), key@);
            assert(names(ours)[i as int] == key@);
        }
        match (label_of(a, key), label_of(b, key)) {
            (Some(mine), Some(other)) => {
                if *mine != *other {
                    assert(pairs_map(ours).contains_key(key@));
                    return false;
                }
            },
            _ => {
                assert(pairs_map(ours).contains_key(key@));
                return false;
            },
        }
        assert(ours[i as int].0 == key@);
        i += 1;
    }
    proof {
        assert forall|key: Seq<char>| #[trigger]
            pairs_map(ours).contains_key(key) implies pairs_map(theirs).contains_key(key) && pairs_map(
            ours,
        )[key] == pairs_map(theirs)[key] by {
            lemma_position(names(ours), key);
            let j = position(names(ours), key)->0;
            assert(ours[j].0 == key);
        }
    }
    true
}

/// Whether two lists of labels stand for the same map.
pub fn labels_equal(a: &Vec<(String, String)>, b: &Vec<(String, String)>) -> (same: bool)
    ensures
        same == (pairs_map(pairs_view(a@)) == pairs_map(pairs_view(b@))),
{
    let same = labels_within(a, b) && labels_within(b, a);
    proof {
        let ours = pairs_map(pairs_view(a@));
        let theirs = pairs_map(pairs_view(b@));
        if same {
            assert(ours =~= theirs);
        }
    }
    same
}

/// Whether `value` is one of `strings`.
pub fn holds_string(strings: &Vec<String>, value: &String) -> (found: bool)
    ensures
        found == strings_view(strings@).to_set().contains(value@),
{
    let ghost view = strings_view(strings@);
    let mut i: usize = 0;
    while i < strings.len()
        invariant
            i <= strings.len(),
            view == strings_view(strings@),
            forall|j: int| 0 <= j < i ==> view[j] != value@,
        decreases strings.len() - i,
    {
        if strings[i] == *value {
            assert(view[i as int] == value@);
            return true;
        }
        i += 1;
    }
    false
}

/// Whether every string of `a` is one of `b`.
fn strings_within(a: &Vec<String>, b: &Vec<String>) -> (within: bool)
    ensures
        within == strings_view(a@).to_set().subset_of(strings_view(b@).to_set()),
{
    let ghost ours = strings_view(a@);
    let ghost theirs = strings_view(b@).to_set();
    let mut i: usize = 0;
    while i < a.len()
        invariant
            i <= a.len(),
            ours == strings_view(a@),
            theirs == strings_view(b@).to_set(),
            forall|j: int| 0 <= j < i ==> theirs.contains(#[trigger] ours[j]),
        decreases a.len() - i,
    {
        if !holds_string(b, &a[i]) {
            assert(ours[i as int] == a[i as int]@);
            assert(ours.to_set().contains(ours[i as int]));
            return false;
        }
        assert(ours[i as int] == a[i as int]@);
        i += 1;
    }
    true
}

/// Whether two lists of strings hold the same set of strings.
pub fn strings_equal(a: &Vec<String>, b: &Vec<String>) -> (same: bool)
    ensures
        same == (strings_view(a@).to_set() == strings_view(b@).to_set()),
{
    let same = strings_within(a, b) && strings_within(b, a);
    proof {
        if same {
            assert(strings_view(a@).to_set() =~= strings_view(b@).to_set());
        }
    }
    same
}

/// Two expressions are equal when they are written the same way: the same
/// key, the same operator, and the same set of values.
impl PartialEq for Expression {
    fn eq(&self, other: &Expression) -> (same: bool) {
        if self.key != other.key || self.operator != other.operator {
            return false;
        }
        match (&self.values, &other.values) {
            (None, None) => true,
            (Some(mine), Some(theirs)) => strings_equal(mine, theirs),
            _ => false,
        }
    }
}

impl PartialEqSpecImpl for Expression {
    open spec fn obeys_eq_spec() -> bool {
        true
    }

    open spec fn eq_spec(&self, other: &Expression) -> bool {
        self@ == other@
    }
}

/// Whether two lists of expressions are the same, item by item.
pub fn expressions_equal(a: &Vec<Expression>, b: &Vec<Expression>) -> (same: bool)
    ensures
        same == (expressions_view(a@) == expressions_view(b@)),
{
    if a.len() != b.len() {
        assert(expressions_view(a@).len() != expressions_view(b@).len());
        return false;
    }
    let mut i: usize = 0;
    while i < a.len()
        invariant
            i <= a.len(),
            a.len() == b.len(),
            forall|j: int| 0 <= j < i ==> a[j]@ == b[j]@,
        decreases a.len() - i,
    {
        if a[i] != b[i] {
            assert(expressions_view(a@)[i as int] != expressions_view(b@)[i as int]);
            return false;
        }
        i += 1;
    }
    assert(expressions_view(a@) =~= expressions_view(b@));
    true
}

/// Two selectors are equal when they are written the same way: the same
/// map of labels, and the same expressions in the same order.
impl PartialEq for Selector {
    fn eq(&self, other: &Selector) -> (same: bool) {
        let labels = match (&self.match_labels, &other.match_labels) {
            (None, None) => true,
            (Some(mine), Some(theirs)) => labels_equal(mine, theirs),
            _ => false,
        };
        if !labels {
            return false;
        }
        match (&self.match_expressions, &other.match_expressions) {
            (None, None) => true,
            (Some(mine), Some(theirs)) => expressions_equal(mine, theirs),
            _ => false,
        }
    }
}

impl PartialEqSpecImpl for Selector {
    open spec fn obeys_eq_spec() -> bool {
        true
    }

    open spec fn eq_spec(&self, other: &Selector) -> bool {
        self@ == other@
    }
}

/// Whether each member of an object holds a string.
pub open spec fn holds_strings(members: Seq<(Seq<char>, DocumentView)>) -> bool {
    forall|i: int| 0 <= i < members.len() ==> members[i].1 is String
}

/// The members of an object that holds strings, as labels with their values.
pub open spec fn member_pairs(members: Seq<(Seq<char>, DocumentView)>) -> Seq<(Seq<char>, Seq<char>)> {
    Seq::new(members.len(), |i: int| (members[i].0, members[i].1->String_0))
}

/// The labels that the field `matchLabels` stands for. A field that is
/// absent or null stands for none; else it is an object that holds strings.
pub open spec fn decode_labels(field: Option<DocumentView>) -> Result<
    Option<Map<Seq<char>, Seq<char>>>,
    SchemaError,
> {
    match field {
        None => Ok(None),
        Some(DocumentView::Null) => Ok(None),
        Some(DocumentView::Object(members)) => if holds_strings(members) {
            Ok(Some(pairs_map(member_pairs(members))))
        } else {
            Err(SchemaError::Invalid(Field::MatchLabels))
        },
        Some(_) => Err(SchemaError::Invalid(Field::MatchLabels)),
    }
}

/// Whether each item of an array is a string.
pub open spec fn all_strings(items: Seq<DocumentView>) -> bool {
    forall|i: int| 0 <= i < items.len() ==> items[i] is String
}

/// The items of an array of strings.
pub open spec fn item_strings(items: Seq<DocumentView>) -> Seq<Seq<char>> {
    Seq::new(items.len(), |i: int| items[i]->String_0)
}

/// The values that the field `values` stands for. A field that is absent or
/// null stands for none; else it is an array of strings.
pub open spec fn decode_values(field: Option<DocumentView>) -> Result<Option<Set<Seq<char>>>, SchemaError> {
    match field {
        None => Ok(None),
        Some(DocumentView::Null) => Ok(None),
        Some(DocumentView::Array(items)) => if all_strings(items) {
            Ok(Some(item_strings(items).to_set()))
        } else {
            Err(SchemaError::Invalid(Field::Values))
        },
        Some(_) => Err(SchemaError::Invalid(Field::Values)),
    }
}

/// The operator that a word stands for.
pub open spec fn decode_operator(word: Seq<char>) -> Option<Operator> {
    if word == "In"@ {
        Some(Operator::In)
    } else if word == "NotIn"@ {
        Some(Operator::NotIn)
    } else if word == "Exists"@ {
        Some(Operator::Exists)
    } else if word == "DoesNotExist"@ {
        Some(Operator::DoesNotExist)
    } else {
        None
    }
}

/// The expression that a document stands for: an object with a string
/// `key`, an `operator` that is one of the four words, and `values`.
#[verifier::opaque]
pub open spec fn decode_expression(doc: DocumentView) -> Result<ExpressionView, SchemaError> {
    if !(doc is Object) {
        Err(SchemaError::Invalid(Field::MatchExpressions))
    } else {
        match doc.get("key"@) {
            None => Err(SchemaError::Missing(Field::Key)),
            Some(DocumentView::String(key)) => match doc.get("operator"@) {
                None => Err(SchemaError::Missing(Field::Operator)),
                Some(DocumentView::String(word)) => match decode_operator(word) {
                    None => Err(SchemaError::Invalid(Field::Operator)),
                    Some(operator) => match decode_values(doc.get("values"@)) {
                        Err(error) => Err(error),
                        Ok(values) => Ok(ExpressionView { key, operator, values }),
                    },
                },
                Some(_) => Err(SchemaError::Invalid(Field::Operator)),
            },
            Some(_) => Err(SchemaError::Invalid(Field::Key)),
        }
    }
}

/// Whether each item of an array stands for an expression.
pub open spec fn all_expressions(items: Seq<DocumentView>) -> bool {
    forall|i: int| 0 <= i < items.len() ==> decode_expression(items[i]) is Ok
}

/// The expressions that the items of an array stand for.
pub open spec fn item_expressions(items: Seq<DocumentView>) -> Seq<ExpressionView> {
    Seq::new(items.len(), |i: int| decode_expression(items[i])->Ok_0)
}

/// The index of the first item that stands for no expression.
pub open spec fn first_refused(items: Seq<DocumentView>) -> int {
    choose|i: int|
        0 <= i < items.len() && decode_expression(items[i]) is Err && forall|j: int|
            0 <= j < i ==> decode_expression(items[j]) is Ok
}

/// The expressions that the field `matchExpressions` stands for. A field
/// that is absent or null stands for none; else it is an array of
/// expressions, and the first item that is none decides the error.
pub open spec fn decode_expressions(field: Option<DocumentView>) -> Result<
    Option<Seq<ExpressionView>>,
    SchemaError,
> {
    match field {
        None => Ok(None),
        Some(DocumentView::Null) => Ok(None),
        Some(DocumentView::Array(items)) => if all_expressions(items) {
            Ok(Some(item_expressions(items)))
        } else {
            Err(decode_expression(items[first_refused(items)])->Err_0)
        },
        Some(_) => Err(SchemaError::Invalid(Field::MatchExpressions)),
    }
}

/// The selector that a document stands for: an object with the fields
/// `matchLabels` and `matchExpressions`, read in this order.
pub open spec fn decode_selector(doc: DocumentView) -> Result<SelectorView, SchemaError> {
    if !(doc is Object) {
        Err(SchemaError::Invalid(Field::PodSelector))
    } else {
        match decode_labels(doc.get("matchLabels"@)) {
            Err(error) => Err(error),
            Ok(match_labels) => match decode_expressions(doc.get("matchExpressions"@)) {
                Err(error) => Err(error),
                Ok(match_expressions) => Ok(SelectorView { match_labels, match_expressions }),
            },
        }
    }
}

/// Reads labels with their values from the members of an object.
fn pairs_from(members: &Vec<(String, Document)>) -> (read: Option<Vec<(String, String)>>)
    ensures
        match read {
            Some(pairs) => holds_strings(members_view(members@)) && pairs_view(pairs@) == member_pairs(
                members_view(members@),
            ),
            None => !holds_strings(members_view(members@)),
        },
{
    let ghost view = members_view(members@);
    let mut pairs: Vec<(String, String)> = Vec::new();
    let mut i: usize = 0;
    while i < members.len()
        invariant
            i <= members.len(),
            pairs.len() == i,
            view == members_view(members@),
            forall|j: int|
                0 <= j < i ==> view[j].1 is String && pairs[j].0@ == view[j].0 && pairs[j].1@
                    == view[j].1->String_0,
        decreases members.len() - i,
    {
        match &members[i].1 {
            Document::String(value) => {
                pairs.push((members[i].0.clone(), value.clone()));
            },
            _ => {
                assert(!(view[i as int].1 is String));
                return None;
            },
        }
        i += 1;
    }
    assert(pairs_view(pairs@) =~= member_pairs(view));
    Some(pairs)
}

/// Reads the field `matchLabels`.
fn labels_from(field: Option<&Document>) -> (read: Result<Option<Vec<(String, String)>>, SchemaError>)
    ensures
        match read {
            Ok(labels) => decode_labels(optional_view(field)) == Ok::<_, SchemaError>(labels_view(labels)),
            Err(error) => decode_labels(optional_view(field)) == Err::<Option<Map<Seq<char>, Seq<char>>>, _>(
                error,
            ),
        },
{
    match field {
        None => Ok(None),
        Some(Document::Null) => Ok(None),
        Some(Document::Object(members)) => match pairs_from(members) {
            Some(pairs) => Ok(Some(pairs)),
            None => Err(SchemaError::Invalid(Field::MatchLabels)),
        },
        Some(_) => Err(SchemaError::Invalid(Field::MatchLabels)),
    }
}

/// Reads strings from the items of an array.
fn strings_from(items: &Vec<Document>) -> (read: Option<Vec<String>>)
    ensures
        match read {
            Some(strings) => all_strings(items_view(items@)) && strings_view(strings@) == item_strings(
                items_view(items@),
            ),
            None => !all_strings(items_view(items@)),
        },
{
    let ghost view = items_view(items@);
    let mut strings: Vec<String> = Vec::new();
    let mut i: usize = 0;
    while i < items.len()
        invariant
            i <= items.len(),
            strings.len() == i,
            view == items_view(items@),
            forall|j: int| 0 <= j < i ==> view[j] is String && strings[j]@ == view[j]->String_0,
        decreases items.len() - i,
    {
        match &items[i] {
            Document::String(value) => {
                strings.push(value.clone());
            },
            _ => {
                assert(!(view[i as int] is String));
                return None;
            },
        }
        i += 1;
    }
    assert(strings_view(strings@) =~= item_strings(view));
    Some(strings)
}

/// Reads the field `values`.
fn values_from(field: Option<&Document>) -> (read: Result<Option<Vec<String>>, SchemaError>)
    ensures
        match read {
            Ok(values) => decode_values(optional_view(field)) == Ok::<_, SchemaError>(values_view(values)),
            Err(error) => decode_values(optional_view(field)) == Err::<Option<Set<Seq<char>>>, _>(error),
        },
{
    match field {
        None => Ok(None),
        Some(Document::Null) => Ok(None),
        Some(Document::Array(items)) => match strings_from(items) {
            Some(strings) => Ok(Some(strings)),
            None => Err(SchemaError::Invalid(Field::Values)),
        },
        Some(_) => Err(SchemaError::Invalid(Field::Values)),
    }
}

impl Operator {
    /// Reads an operator from its word.
    pub fn from_word(word: &String) -> (read: Option<Operator>)
        ensures
            read == decode_operator(word@),
    {
        if reads(word, "In") {
            Some(Operator::In)
        } else if reads(word, "NotIn") {
            Some(Operator::NotIn)
        } else if reads(word, "Exists") {
            Some(Operator::Exists)
        } else if reads(word, "DoesNotExist") {
            Some(Operator::DoesNotExist)
        } else {
            None
        }
    }
}

impl Expression {
    /// Reads an expression from a document.
    pub fn from_document(doc: &Document) -> (read: Result<Expression, SchemaError>)
        ensures
            match read {
                Ok(expression) => decode_expression(doc@) == Ok::<_, SchemaError>(expression@),
                Err(error) => decode_expression(doc@) == Err::<ExpressionView, _>(error),
            },
    {
        reveal(decode_expression);
        match doc {
            Document::Object(_) => {},
            _ => {
                return Err(SchemaError::Invalid(Field::MatchExpressions));
            },
        }
        let key = match doc.get("key") {
            None => {
                return Err(SchemaError::Missing(Field::Key));
            },
            Some(Document::String(key)) => key.clone(),
            Some(_) => {
                return Err(SchemaError::Invalid(Field::Key));
            },
        };
        let operator = match doc.get("operator") {
            None => {
                return Err(SchemaError::Missing(Field::Operator));
            },
            Some(Document::String(word)) => match Operator::from_word(word) {
                None => {
                    return Err(SchemaError::Invalid(Field::Operator));
                },
                Some(operator) => operator,
            },
            Some(_) => {
                return Err(SchemaError::Invalid(Field::Operator));
            },
        };
        match values_from(doc.get("values")) {
            Err(error) => Err(error),
            Ok(values) => Ok(Expression { key, operator, values }),
        }
    }
}

/// Reads expressions from the items of an array.
fn expression_list_from(items: &Vec<Document>) -> (read: Result<Vec<Expression>, SchemaError>)
    ensures
        match read {
            Ok(expressions) => all_expressions(items_view(items@)) && expressions_view(expressions@)
                == item_expressions(items_view(items@)),
            Err(error) => !all_expressions(items_view(items@)) && decode_expression(
                items_view(items@)[first_refused(items_view(items@))],
            ) == Err::<ExpressionView, _>(error),
        },
{
    let ghost view = items_view(items@);
    let mut expressions: Vec<Expression> = Vec::new();
    let mut i: usize = 0;
    while i < items.len()
        invariant
            i <= items.len(),
            expressions.len() == i,
            view == items_view(items@),
            forall|j: int|
                0 <= j < i ==> decode_expression(view[j]) == Ok::<_, SchemaError>(expressions[j]@),
        decreases items.len() - i,
    {
        match Expression::from_document(&items[i]) {
            Ok(expression) => {
                expressions.push(expression);
            },
            Err(error) => {
                proof {
                    assert(decode_expression(view[i as int]) is Err);
                    let first = first_refused(view);
                    assert(first == i) by {
                        if first < i {
                            assert(decode_expression(view[first]) is Ok);
                        }
                    }
                }
                return Err(error);
            },
        }
        i += 1;
    }
    assert(expressions_view(expressions@) =~= item_expressions(view));
    Ok(expressions)
}

/// Reads the field `matchExpressions`.
fn expressions_from(field: Option<&Document>) -> (read: Result<Option<Vec<Expression>>, SchemaError>)
    ensures
        match read {
            Ok(expressions) => decode_expressions(optional_view(field)) == Ok::<_, SchemaError>(
                optional_expressions_view(expressions),
            ),
            Err(error) => decode_expressions(optional_view(field)) == Err::<Option<Seq<ExpressionView>>, _>(
                error,
            ),
        },
{
    match field {
        None => Ok(None),
        Some(Document::Null) => Ok(None),
        Some(Document::Array(items)) => match expression_list_from(items) {
            Ok(expressions) => Ok(Some(expressions)),
            Err(error) => Err(error),
        },
        Some(_) => Err(SchemaError::Invalid(Field::MatchExpressions)),
    }
}

impl Selector {
    /// Reads a selector from a document.
    pub fn from_document(doc: &Document) -> (read: Result<Selector, SchemaError>)
        ensures
            match read {
                Ok(selector) => decode_selector(doc@) == Ok::<_, SchemaError>(selector@),
                Err(error) => decode_selector(doc@) == Err::<SelectorView, _>(error),
            },
    {
        match doc {
            Document::Object(_) => {},
            _ => {
                return Err(SchemaError::Invalid(Field::PodSelector));
            },
        }
        let match_labels = match labels_from(doc.get("matchLabels")) {
            Err(error) => {
                return Err(error);
            },
            Ok(labels) => labels,
        };
        match expressions_from(doc.get("matchExpressions")) {
            Err(error) => Err(error),
            Ok(match_expressions) => Ok(Selector { match_labels, match_expressions }),
        }
    }
}

} // verus!

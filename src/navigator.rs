//! Paths into a document, the projection of the container a path names, and
//! changes made at the place a path names.

use crate::document::{
    data_entries, inserted, keys_unique, lemma_position_of, lookup, position_of, removed, Entry,
    JsonData,
};
use crate::text::{decimal, decimal_string};
use crate::value::{clone_elements, model, JsonModel, JsonValue};
use vstd::prelude::*;

verus! {

/// One step of a path: into an object's field, or into an array's element.
#[derive(Debug)]
pub enum Step {
    Name(String),
    Index(usize),
}

impl Clone for Step {
    fn clone(&self) -> (r: Self)
        ensures
            r == *self,
    {
        match self {
            Step::Name(s) => Step::Name(s.clone()),
            Step::Index(i) => Step::Index(*i),
        }
    }
}

/// Why a path does not name a container, or a change has no place to go.
#[derive(Debug)]
pub enum PathError {
    /// The step at this position does not lead to a container: its key or index
    /// is missing, it does not match the kind of container it is applied to, or
    /// it reaches a leaf.
    InvalidPath(Step, usize),
    /// The path names an array, which has no keyed fields to change.
    NotAnObject,
}

/// An object or an array.
pub open spec fn is_container_model(m: JsonModel) -> bool {
    m is Object || m is Array
}

/// The node that one step leads to from a node, if any.
pub open spec fn step_into(node: JsonModel, step: Step) -> Option<JsonModel> {
    match step {
        Step::Name(s) => match node {
            JsonModel::Object(e) => lookup(e, s@),
            _ => None,
        },
        Step::Index(i) => match node {
            JsonModel::Array(items) => if i < items.len() {
                Some(items[i as int])
            } else {
                None
            },
            _ => None,
        },
    }
}

/// The container reached by following the steps of `path` from `depth` on,
/// starting at `node`; or the position of the first step that does not lead to a
/// container.
pub open spec fn resolve_from(node: JsonModel, path: Seq<Step>, depth: int) -> Result<
    JsonModel,
    int,
>
    decreases path.len() - depth,
{
    if depth >= path.len() {
        Ok(node)
    } else {
        match step_into(node, path[depth]) {
            Some(child) => if is_container_model(child) {
                resolve_from(child, path, depth + 1)
            } else {
                Err(depth)
            },
            None => Err(depth),
        }
    }
}

/// The container that a path names in a document.
pub open spec fn resolve(doc: Seq<Entry>, path: Seq<Step>) -> Result<JsonModel, int> {
    resolve_from(JsonModel::Object(doc), path, 0)
}

/// `node` with the container that the path names from `depth` on replaced by
/// `target`.
pub open spec fn replace_at(node: JsonModel, path: Seq<Step>, depth: int, target: JsonModel) -> JsonModel
    decreases path.len() - depth,
{
    if depth >= path.len() {
        target
    } else {
        match path[depth] {
            Step::Name(s) => match node {
                JsonModel::Object(e) => {
                    let p = position_of(e, s@);
                    if p >= 0 {
                        JsonModel::Object(
                            e.update(p, (e[p].0, replace_at(e[p].1, path, depth + 1, target))),
                        )
                    } else {
                        node
                    }
                },
                _ => node,
            },
            Step::Index(i) => match node {
                JsonModel::Array(items) => if i < items.len() {
                    JsonModel::Array(
                        items.update(i as int, replace_at(items[i as int], path, depth + 1, target)),
                    )
                } else {
                    node
                },
                _ => node,
            },
        }
    }
}

/// Every object in the node, at any depth, holds each key once.
pub open spec fn well_formed(m: JsonModel) -> bool
    decreases m,
{
    match m {
        JsonModel::Object(e) => keys_unique(e) && forall|i: int|
            0 <= i < e.len() ==> well_formed(#[trigger] e[i].1),
        JsonModel::Array(items) => forall|i: int|
            0 <= i < items.len() ==> well_formed(#[trigger] items[i]),
        _ => true,
    }
}

/// The rows of a container as the display shows them: an object's fields, or an
/// array's elements keyed by their positions written in decimal.
pub open spec fn rows_of(m: JsonModel) -> Seq<Entry> {
    match m {
        JsonModel::Object(e) => e,
        JsonModel::Array(items) => Seq::new(
            items.len(),
            |i: int| (decimal(i as nat), items[i]),
        ),
        _ => Seq::empty(),
    }
}

/// A fresh copy of the container that a path names.
pub enum Projection {
    Fields(JsonData),
    Elements(Vec<JsonValue>),
}

impl View for Projection {
    type V = JsonModel;

    open spec fn view(&self) -> JsonModel {
        match self {
            Projection::Fields(d) => JsonModel::Object(d@),
            Projection::Elements(items) => model(JsonValue::Array(*items)),
        }
    }
}

impl Projection {
    /// The number of rows.
    pub fn row_count(&self) -> (r: usize)
        ensures
            r == rows_of(self@).len(),
    {
        match self {
            Projection::Fields(d) => d.len(),
            Projection::Elements(items) => items.len(),
        }
    }

    /// The key of a row: a field's key, or an element's position in decimal.
    pub fn row_key(&self, index: usize) -> (r: String)
        requires
            index < rows_of(self@).len(),
        ensures
            r@ == rows_of(self@)[index as int].0,
    {
        match self {
            Projection::Fields(d) => {
                let (k, _) = d.entry_at(index).unwrap();
                k.clone()
            },
            Projection::Elements(_) => decimal_string(index),
        }
    }

    /// The value of a row.
    pub fn row_value(&self, index: usize) -> (r: &JsonValue)
        requires
            index < rows_of(self@).len(),
        ensures
            r@ == rows_of(self@)[index as int].1,
    {
        match self {
            Projection::Fields(d) => {
                let (_, v) = d.entry_at(index).unwrap();
                v
            },
            Projection::Elements(items) => &items[index],
        }
    }

    /// Whether the rows are an array's elements.
    pub fn is_array(&self) -> (r: bool)
        ensures
            r == (self@ is Array),
    {
        match self {
            Projection::Fields(_) => false,
            Projection::Elements(_) => true,
        }
    }
}

/// A container being walked through.
enum Cursor<'a> {
    Object(&'a JsonData),
    Array(&'a Vec<JsonValue>),
}

impl<'a> Cursor<'a> {
    spec fn model(&self) -> JsonModel {
        match self {
            Cursor::Object(d) => JsonModel::Object(data_entries(**d)),
            Cursor::Array(items) => model(JsonValue::Array(**items)),
        }
    }
}

/// The rows of the container that `path` names in `doc`, as a fresh copy: an
/// object's fields, or an array's elements. Fails at the first step that does not
/// lead to a container, naming the step and its position.
pub fn project(doc: &JsonData, path: &Vec<Step>) -> (r: Result<Projection, PathError>)
    ensures
        match resolve(doc@, path@) {
            Ok(target) => r matches Ok(view) && view@ == target,
            Err(p) => r matches Err(PathError::InvalidPath(step, q)) && q == p && step
                == path@[p],
        },
{
    let mut cur = Cursor::Object(doc);
    let mut i: usize = 0;
    while i < path.len()
        invariant
            i <= path@.len(),
            resolve(doc@, path@) == resolve_from(cur.model(), path@, i as int),
            is_container_model(cur.model()),
        decreases path@.len() - i,
    {
        let step = &path[i];
        let next: Option<&JsonValue> = match (step, &cur) {
            (Step::Name(s), Cursor::Object(d)) => d.get(s.as_str()),
            (Step::Index(j), Cursor::Array(items)) => if *j < items.len() {
                Some(&items[*j])
            } else {
                None
            },
            _ => None,
        };
        proof {
            if let Some(child) = next {
                if let Cursor::Array(items) = cur {
                    assert(child@ == model(JsonValue::Array(*items))->Array_0[path@[i as int]->Index_0 as int]);
                }
            }
        }
        match next {
            Some(JsonValue::Object(d)) => {
                cur = Cursor::Object(d);
            },
            Some(JsonValue::Array(items)) => {
                cur = Cursor::Array(items);
            },
            _ => {
                return Err(PathError::InvalidPath(step.clone(), i));
            },
        }
        i = i + 1;
    }
    match cur {
        Cursor::Object(d) => Ok(Projection::Fields(d.clone())),
        Cursor::Array(items) => Ok(Projection::Elements(clone_elements(items))),
    }
}

} // verus!

verus! {

/// A change to one field of an object.
pub enum FieldEdit {
    Insert(String, JsonValue),
    Remove(String),
}

/// A change to one field of an object, in terms of keys and values.
pub ghost enum FieldChange {
    Insert(Seq<char>, JsonModel),
    Remove(Seq<char>),
}

impl FieldEdit {
    /// The change this makes.
    pub open spec fn change(self) -> FieldChange {
        match self {
            FieldEdit::Insert(k, v) => FieldChange::Insert(k@, v@),
            FieldEdit::Remove(k) => FieldChange::Remove(k@),
        }
    }
}

/// The fields of an object after the change.
pub open spec fn edited(e: Seq<Entry>, change: FieldChange) -> Seq<Entry> {
    match change {
        FieldChange::Insert(k, v) => inserted(e, k, v),
        FieldChange::Remove(k) => removed(e, k),
    }
}

/// What making a change at the place a path names does to a node: the new node,
/// or the error, in which case the node stays as it was.
pub open spec fn edit_outcome(node: JsonModel, path: Seq<Step>, depth: int, change: FieldChange) -> Result<
    JsonModel,
    PathError,
> {
    match resolve_from(node, path, depth) {
        Ok(JsonModel::Object(e)) => Ok(
            replace_at(node, path, depth, JsonModel::Object(edited(e, change))),
        ),
        Ok(_) => Err(PathError::NotAnObject),
        Err(p) => Err(PathError::InvalidPath(path[p], p as usize)),
    }
}

/// The error outcome of `edit_outcome` leaves `after` equal to `before`; success
/// makes it the new node.
pub open spec fn edit_done(
    before: JsonModel,
    after: JsonModel,
    path: Seq<Step>,
    depth: int,
    change: FieldChange,
    r: Result<(), PathError>,
) -> bool {
    match edit_outcome(before, path, depth, change) {
        Ok(m) => r is Ok && after == m,
        Err(PathError::InvalidPath(s, q)) => r matches Err(PathError::InvalidPath(s2, q2)) && s2
            == s && q2 == q && after == before,
        Err(PathError::NotAnObject) => r matches Err(PathError::NotAnObject) && after == before,
    }
}

fn edit_in_object(d: &mut JsonData, path: &Vec<Step>, depth: usize, edit: FieldEdit) -> (r: Result<
    (),
    PathError,
>)
    requires
        depth <= path@.len(),
    ensures
        edit_done(
            JsonModel::Object(old(d)@),
            JsonModel::Object(final(d)@),
            path@,
            depth as int,
            edit.change(),
            r,
        ),
        depth == path@.len() ==> keys_unique(old(d)@) && keys_unique(final(d)@),
    decreases path@.len() - depth, 0nat,
{
    if depth == path.len() {
        match edit {
            FieldEdit::Insert(k, v) => {
                d.insert(k, v);
            },
            FieldEdit::Remove(k) => {
                d.remove(k.as_str());
            },
        }
        return Ok(());
    }
    let step = &path[depth];
    match step {
        Step::Name(s) => {
            proof {
                lemma_position_of(d@, s@);
            }
            match d.index_of(s.as_str()) {
                None => Err(PathError::InvalidPath(step.clone(), depth)),
                Some(i) => {
                    let ghost before = d@;
                    let child = d.value_at_mut(i);
                    proof {
                        lemma_value_container(*child);
                    }
                    if child.is_container() {
                        let r = edit_in_value(child, path, depth + 1, edit);
                        proof {
                            if r is Err {
                                assert(d@ =~= before);
                            }
                        }
                        r
                    } else {
                        proof {
                            assert(d@ =~= before);
                        }
                        Err(PathError::InvalidPath(step.clone(), depth))
                    }
                },
            }
        },
        Step::Index(_) => Err(PathError::InvalidPath(step.clone(), depth)),
    }
}

fn edit_in_value(v: &mut JsonValue, path: &Vec<Step>, depth: usize, edit: FieldEdit) -> (r: Result<
    (),
    PathError,
>)
    requires
        depth <= path@.len(),
        is_container_model(old(v)@),
    ensures
        edit_done(old(v)@, final(v)@, path@, depth as int, edit.change(), r),
    decreases path@.len() - depth, 1nat,
{
    proof {
        lemma_value_container(*v);
    }
    match v {
        JsonValue::Object(d) => edit_in_object(d, path, depth, edit),
        JsonValue::Array(items) => {
            if depth == path.len() {
                return Err(PathError::NotAnObject);
            }
            let step = &path[depth];
            match step {
                Step::Index(j) => {
                    if *j < items.len() {
                        let ghost before = items@;
                        let ghost before_m = model(JsonValue::Array(*items))->Array_0;
                        let child = &mut items[*j];
                        proof {
                            lemma_value_container(*child);
                        }
                        if child.is_container() {
                            let r = edit_in_value(child, path, depth + 1, edit);
                            proof {
                                let after_m = model(JsonValue::Array(*items))->Array_0;
                                assert(items@ == before.update(*j as int, items@[*j as int]));
                                assert(after_m =~= before_m.update(*j as int, items@[*j as int]@));
                                if r is Err {
                                    assert(after_m =~= before_m);
                                }
                            }
                            r
                        } else {
                            proof {
                                assert(items@ =~= before);
                            }
                            Err(PathError::InvalidPath(step.clone(), depth))
                        }
                    } else {
                        Err(PathError::InvalidPath(step.clone(), depth))
                    }
                },
                Step::Name(_) => Err(PathError::InvalidPath(step.clone(), depth)),
            }
        },
        _ => Err(PathError::NotAnObject),
    }
}

/// Inserts or updates `key -> value` in the object that `path` names: an existing
/// key keeps its place, a new key goes last. Steps go into objects by name and into
/// arrays by index, as `project` follows them. Where the path does not resolve, or
/// names an array, nothing changes and the error says why.
pub fn write(doc: &mut JsonData, path: &Vec<Step>, key: String, value: JsonValue) -> (r: Result<
    (),
    PathError,
>)
    ensures
        edit_done(
            JsonModel::Object(old(doc)@),
            JsonModel::Object(final(doc)@),
            path@,
            0,
            FieldChange::Insert(key@, value@),
            r,
        ),
        path@.len() == 0 ==> keys_unique(old(doc)@) && keys_unique(final(doc)@),
{
    edit_in_object(doc, path, 0, FieldEdit::Insert(key, value))
}

/// Removes the field `key` from the object that `path` names; the other fields
/// keep their order. Where the path does not resolve, or names an array, nothing
/// changes and the error says why.
pub fn delete(doc: &mut JsonData, path: &Vec<Step>, key: String) -> (r: Result<(), PathError>)
    ensures
        edit_done(
            JsonModel::Object(old(doc)@),
            JsonModel::Object(final(doc)@),
            path@,
            0,
            FieldChange::Remove(key@),
            r,
        ),
        path@.len() == 0 ==> keys_unique(old(doc)@) && keys_unique(final(doc)@),
{
    edit_in_object(doc, path, 0, FieldEdit::Remove(key))
}

} // verus!

verus! {

/// The empty path names the document itself: its projection holds the document's
/// own fields, verbatim.
pub proof fn lemma_root_projection(doc: Seq<Entry>)
    ensures
        resolve(doc, Seq::empty()) == Ok::<JsonModel, int>(JsonModel::Object(doc)),
        rows_of(JsonModel::Object(doc)) == doc,
{
}

/// A container that a path reaches inside a well-formed node is well-formed.
pub proof fn lemma_resolve_well_formed(node: JsonModel, path: Seq<Step>, depth: int)
    requires
        well_formed(node),
        resolve_from(node, path, depth) is Ok,
    ensures
        well_formed(resolve_from(node, path, depth)->Ok_0),
    decreases path.len() - depth,
{
    if depth < path.len() {
        match path[depth] {
            Step::Name(s) => {
                if let JsonModel::Object(e) = node {
                    lemma_position_of(e, s@);
                    let p = position_of(e, s@);
                    if p >= 0 {
                        assert(well_formed(e[p].1));
                        lemma_resolve_well_formed(e[p].1, path, depth + 1);
                    }
                }
            },
            Step::Index(i) => {
                if let JsonModel::Array(items) = node {
                    if i < items.len() {
                        assert(well_formed(items[i as int]));
                        lemma_resolve_well_formed(items[i as int], path, depth + 1);
                    }
                }
            },
        }
    }
}

/// Putting back the container that a path names leaves the node as it was.
pub proof fn lemma_replace_with_same(node: JsonModel, path: Seq<Step>, depth: int)
    requires
        resolve_from(node, path, depth) is Ok,
    ensures
        replace_at(node, path, depth, resolve_from(node, path, depth)->Ok_0) == node,
    decreases path.len() - depth,
{
    if depth < path.len() {
        match path[depth] {
            Step::Name(s) => {
                if let JsonModel::Object(e) = node {
                    lemma_position_of(e, s@);
                    let p = position_of(e, s@);
                    if p >= 0 {
                        lemma_replace_with_same(e[p].1, path, depth + 1);
                        assert(e.update(p, (e[p].0, e[p].1)) =~= e);
                    }
                }
            },
            Step::Index(i) => {
                if let JsonModel::Array(items) = node {
                    if i < items.len() {
                        lemma_replace_with_same(items[i as int], path, depth + 1);
                        assert(items.update(i as int, items[i as int]) =~= items);
                    }
                }
            },
        }
    }
}

/// Writing back, at the path it was projected from, a row of an object exactly as
/// the projection shows it leaves the document as it was: same fields, same order.
pub proof fn lemma_rewrite_unchanged_row(doc: Seq<Entry>, path: Seq<Step>, row: int)
    requires
        well_formed(JsonModel::Object(doc)),
        resolve(doc, path) matches Ok(JsonModel::Object(e)) && 0 <= row < e.len(),
    ensures
        ({
            let e = resolve(doc, path)->Ok_0->Object_0;
            replace_at(JsonModel::Object(doc), path, 0, JsonModel::Object(inserted(e, e[row].0, e[row].1)))
                == JsonModel::Object(doc)
        }),
{
    let e = resolve(doc, path)->Ok_0->Object_0;
    lemma_resolve_well_formed(JsonModel::Object(doc), path, 0);
    crate::document::lemma_unique_position(e, e[row].0, row);
    assert(inserted(e, e[row].0, e[row].1) =~= e);
    lemma_replace_with_same(JsonModel::Object(doc), path, 0);
}

} // verus!

verus! {

/// What a path resolves to is a container.
pub proof fn lemma_resolved_is_container(doc: Seq<Entry>, path: Seq<Step>)
    ensures
        resolve(doc, path) matches Ok(t) ==> is_container_model(t),
{
    lemma_resolve_from_container(JsonModel::Object(doc), path, 0);
}

proof fn lemma_resolve_from_container(node: JsonModel, path: Seq<Step>, depth: int)
    requires
        is_container_model(node),
    ensures
        resolve_from(node, path, depth) matches Ok(t) ==> is_container_model(t),
    decreases path.len() - depth,
{
    if depth < path.len() {
        if let Some(child) = step_into(node, path[depth]) {
            if is_container_model(child) {
                lemma_resolve_from_container(child, path, depth + 1);
            }
        }
    }
}

/// A value is a container exactly where its model is.
pub proof fn lemma_value_container(v: JsonValue)
    ensures
        is_container_model(v@) == (v is Object || v is Array),
{
}

} // verus!

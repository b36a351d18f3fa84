//! One document of a store: a JSON file at a relative path. Reading and
//! writing the file is the caller's part; what is computed in between is here:
//! the dotted-path edits of a JSON value, and the errors of the engine.

use vstd::prelude::*;
use crate::json::JsonTree;
use crate::json::json_tree;
use crate::json::object_entries;
use crate::json::no_entries;
use crate::json::parsed_json;
use crate::json::rendered_json;
use crate::json::clone_value;
use crate::json::into_object;
use crate::json::object_value;
use crate::json::new_object;
use crate::json::put_entry;
use crate::json::take_entry;
use crate::json::parse_json;
use crate::json::render_json;
use crate::repo_query::RepoQuery;
use crate::text::split;
use crate::text::split_text;
use serde_json::Value;

verus! {

/// The entries of the object that `m` holds under `key`, or none where it
/// holds no object there.
pub open spec fn child_entries(m: Map<Seq<char>, JsonTree>, key: Seq<char>) -> Map<
    Seq<char>,
    JsonTree,
> {
    if m.contains_key(key) {
        match m[key] {
            JsonTree::Object(c) => c,
            _ => no_entries(),
        }
    } else {
        no_entries()
    }
}

/// The entries of an object after `value` is set at `path`. The last segment
/// is inserted or overwritten. Every segment before it leads into the object
/// under that key, which is made anew, empty, where the key is absent or
/// holds something else.
pub open spec fn updated_entries(
    m: Map<Seq<char>, JsonTree>,
    path: Seq<Seq<char>>,
    value: JsonTree,
) -> Map<Seq<char>, JsonTree>
    decreases path.len(),
{
    if path.len() == 0 {
        m
    } else if path.len() == 1 {
        m.insert(path[0], value)
    } else {
        m.insert(
            path[0],
            JsonTree::Object(updated_entries(child_entries(m, path[0]), path.drop_first(), value)),
        )
    }
}

/// A document after `value` is set at `path`. A document that is no object
/// stays as it is.
pub open spec fn updated_tree(data: JsonTree, path: Seq<Seq<char>>, value: JsonTree) -> JsonTree {
    match data {
        JsonTree::Object(m) => JsonTree::Object(updated_entries(m, path, value)),
        _ => data,
    }
}

/// The entries of an object after the entry at `path` is removed, or `None`
/// where the path cannot be walked: a key on it is absent, or a key before the
/// last holds no object.
pub open spec fn deleted_entries(m: Map<Seq<char>, JsonTree>, path: Seq<Seq<char>>) -> Option<
    Map<Seq<char>, JsonTree>,
>
    decreases path.len(),
{
    if path.len() == 0 || !m.contains_key(path[0]) {
        None
    } else if path.len() == 1 {
        Some(m.remove(path[0]))
    } else {
        match m[path[0]] {
            JsonTree::Object(c) => match deleted_entries(c, path.drop_first()) {
                Some(c2) => Some(m.insert(path[0], JsonTree::Object(c2))),
                None => None,
            },
            _ => None,
        }
    }
}

/// A document after the entry at `path` is removed. A document that is no
/// object, or in which the path cannot be walked, stays as it is.
pub open spec fn deleted_tree(data: JsonTree, path: Seq<Seq<char>>) -> JsonTree {
    match data {
        JsonTree::Object(m) => match deleted_entries(m, path) {
            Some(m2) => JsonTree::Object(m2),
            None => data,
        },
        _ => data,
    }
}

/// What stands at `path` in an object, if the path can be walked.
pub open spec fn entry_at(m: Map<Seq<char>, JsonTree>, path: Seq<Seq<char>>) -> Option<JsonTree>
    decreases path.len(),
{
    if path.len() == 0 || !m.contains_key(path[0]) {
        None
    } else if path.len() == 1 {
        Some(m[path[0]])
    } else {
        match m[path[0]] {
            JsonTree::Object(c) => entry_at(c, path.drop_first()),
            _ => None,
        }
    }
}

/// The segments that a vector of keys holds.
pub open spec fn segments(keys: Seq<String>) -> Seq<Seq<char>> {
    keys.map_values(|k: String| k@)
}

fn update_entries(
    obj: serde_json::Map<String, Value>,
    keys: &Vec<String>,
    i: usize,
    value: &Value,
) -> (r: serde_json::Map<String, Value>)
    requires
        i < keys@.len(),
    ensures
        object_entries(r) == updated_entries(
            object_entries(obj),
            segments(keys@).skip(i as int),
            json_tree(*value),
        ),
    decreases keys@.len() - i,
{
    let mut obj = obj;
    let ghost before = object_entries(obj);
    let ghost path = segments(keys@).skip(i as int);
    proof {
        assert(path[0] == keys@[i as int]@);
        assert(path.drop_first() =~= segments(keys@).skip(i + 1));
    }
    let key = keys[i].as_str();
    if i == keys.len() - 1 {
        put_entry(&mut obj, key, clone_value(value));
        obj
    } else {
        let child = match take_entry(&mut obj, key) {
            Some(v) => match into_object(v) {
                Some(m) => m,
                None => new_object(),
            },
            None => new_object(),
        };
        assert(object_entries(child) == child_entries(before, key@));
        let child = update_entries(child, keys, i + 1, value);
        put_entry(&mut obj, key, object_value(child));
        assert(object_entries(obj) =~= before.insert(
            key@,
            JsonTree::Object(object_entries(child)),
        ));
        obj
    }
}

fn delete_entries(obj: serde_json::Map<String, Value>, keys: &Vec<String>, i: usize) -> (r: Option<
    serde_json::Map<String, Value>,
>)
    requires
        i < keys@.len(),
    ensures
        match deleted_entries(object_entries(obj), segments(keys@).skip(i as int)) {
            Some(e) => r matches Some(m) && object_entries(m) == e,
            None => r is None,
        },
    decreases keys@.len() - i,
{
    let mut obj = obj;
    let ghost before = object_entries(obj);
    let ghost path = segments(keys@).skip(i as int);
    proof {
        assert(path[0] == keys@[i as int]@);
        assert(path.drop_first() =~= segments(keys@).skip(i + 1));
    }
    let key = keys[i].as_str();
    match take_entry(&mut obj, key) {
        None => None,
        Some(v) => {
            if i == keys.len() - 1 {
                Some(obj)
            } else {
                match into_object(v) {
                    None => None,
                    Some(child) => match delete_entries(child, keys, i + 1) {
                        None => None,
                        Some(rest) => {
                            put_entry(&mut obj, key, object_value(rest));
                            assert(object_entries(obj) =~= before.insert(
                                key@,
                                JsonTree::Object(object_entries(rest)),
                            ));
                            Some(obj)
                        },
                    },
                }
            }
        },
    }
}

/// Sets `value` at the dotted path `key` of a document and returns the new
/// document. Objects on the way are made where they are missing, and replace
/// what is no object. A document that is no object is returned unchanged.
pub fn update_json_value(data: &Value, key: &str, value: &Value) -> (r: Value)
    ensures
        json_tree(r) == updated_tree(json_tree(*data), split_text(key@, '.'), json_tree(*value)),
{
    match into_object(clone_value(data)) {
        Some(obj) => {
            let keys = split(key, '.');
            assert(segments(keys@).skip(0) =~= segments(keys@));
            object_value(update_entries(obj, &keys, 0, value))
        },
        None => clone_value(data),
    }
}

/// Removes the entry at the dotted path `key` of a document and returns the
/// new document. Where the path cannot be walked, because a key on it is
/// absent or a key before the last holds no object, and where the document is
/// no object, the document is returned unchanged.
pub fn delete_json_key(data: &Value, key: &str) -> (r: Value)
    ensures
        json_tree(r) == deleted_tree(json_tree(*data), split_text(key@, '.')),
{
    match into_object(clone_value(data)) {
        Some(obj) => {
            let keys = split(key, '.');
            assert(segments(keys@).skip(0) =~= segments(keys@));
            match delete_entries(obj, &keys, 0) {
                Some(m) => object_value(m),
                None => clone_value(data),
            }
        },
        None => clone_value(data),
    }
}

/// Setting a path twice leaves what setting it the second time alone would:
/// the later value replaces the earlier one, and nothing else changes.
pub proof fn law_update_replaces(
    m: Map<Seq<char>, JsonTree>,
    path: Seq<Seq<char>>,
    first: JsonTree,
    second: JsonTree,
)
    ensures
        updated_entries(updated_entries(m, path, first), path, second) == updated_entries(
            m,
            path,
            second,
        ),
    decreases path.len(),
{
    if path.len() == 0 {
    } else if path.len() == 1 {
        assert(m.insert(path[0], first).insert(path[0], second) =~= m.insert(path[0], second));
    } else {
        let child = child_entries(m, path[0]);
        let rest = path.drop_first();
        let once = updated_entries(child, rest, first);
        law_update_replaces(child, rest, first, second);
        let mid = m.insert(path[0], JsonTree::Object(once));
        assert(child_entries(mid, path[0]) == once);
        assert(mid.insert(path[0], JsonTree::Object(updated_entries(once, rest, second)))
            =~= m.insert(path[0], JsonTree::Object(updated_entries(child, rest, second))));
    }
}

/// The same of whole documents.
pub proof fn law_update_replaces_in_document(
    data: JsonTree,
    path: Seq<Seq<char>>,
    first: JsonTree,
    second: JsonTree,
)
    ensures
        updated_tree(updated_tree(data, path, first), path, second) == updated_tree(
            data,
            path,
            second,
        ),
{
    match data {
        JsonTree::Object(m) => {
            law_update_replaces(m, path, first, second);
        },
        _ => {},
    }
}

/// After a value is set at a path, it stands at that path.
pub proof fn law_update_then_read(m: Map<Seq<char>, JsonTree>, path: Seq<Seq<char>>, value: JsonTree)
    requires
        path.len() >= 1,
    ensures
        entry_at(updated_entries(m, path, value), path) == Some(value),
    decreases path.len(),
{
    if path.len() > 1 {
        law_update_then_read(child_entries(m, path[0]), path.drop_first(), value);
    }
}

/// An entry is removed exactly where something stands at the path, and
/// afterwards nothing stands there.
pub proof fn law_delete_removes(m: Map<Seq<char>, JsonTree>, path: Seq<Seq<char>>)
    ensures
        deleted_entries(m, path) is Some <==> entry_at(m, path) is Some,
        deleted_entries(m, path) matches Some(after) ==> entry_at(after, path) is None,
    decreases path.len(),
{
    if path.len() > 1 && m.contains_key(path[0]) {
        match m[path[0]] {
            JsonTree::Object(c) => {
                law_delete_removes(c, path.drop_first());
            },
            _ => {},
        }
    }
}

/// What can go wrong with a document. Each kind carries the message of its
/// cause.
pub enum RepoDocumentErr {
    NotFound(String),
    ReadError(String),
    WriteError(String),
    UpdateError(String),
    DeleteError(String),
    CreateError(String),
    CopyError(String),
    RemoveError(String),
}

impl RepoDocumentErr {
    /// The message of the cause that the error carries.
    pub open spec fn cause(&self) -> Seq<char> {
        match self {
            RepoDocumentErr::NotFound(c) => c@,
            RepoDocumentErr::ReadError(c) => c@,
            RepoDocumentErr::WriteError(c) => c@,
            RepoDocumentErr::UpdateError(c) => c@,
            RepoDocumentErr::DeleteError(c) => c@,
            RepoDocumentErr::CreateError(c) => c@,
            RepoDocumentErr::CopyError(c) => c@,
            RepoDocumentErr::RemoveError(c) => c@,
        }
    }

    /// What each kind of error says before the message of its cause.
    pub open spec fn heading(&self) -> Seq<char> {
        match self {
            RepoDocumentErr::NotFound(_) => "Repo document not found: "@,
            RepoDocumentErr::ReadError(_) => "Repo document read error: "@,
            RepoDocumentErr::WriteError(_) => "Repo document write error: "@,
            RepoDocumentErr::UpdateError(_) => "Repo document update error: "@,
            RepoDocumentErr::DeleteError(_) => "Repo document delete error: "@,
            RepoDocumentErr::CreateError(_) => "Repo document create error: "@,
            RepoDocumentErr::CopyError(_) => "Repo document copy error: "@,
            RepoDocumentErr::RemoveError(_) => "Repo document remove error: "@,
        }
    }

    /// The message of the error: its heading, then the message of its cause.
    pub open spec fn text(&self) -> Seq<char> {
        self.heading() + self.cause()
    }

    /// The message of the error.
    pub fn format(&self) -> (s: String)
        ensures
            s@ == self.text(),
    {
        match self {
            RepoDocumentErr::NotFound(c) => String::from_str("Repo document not found: ").concat(
                c.as_str(),
            ),
            RepoDocumentErr::ReadError(c) => String::from_str("Repo document read error: ").concat(
                c.as_str(),
            ),
            RepoDocumentErr::WriteError(c) => String::from_str(
                "Repo document write error: ",
            ).concat(c.as_str()),
            RepoDocumentErr::UpdateError(c) => String::from_str(
                "Repo document update error: ",
            ).concat(c.as_str()),
            RepoDocumentErr::DeleteError(c) => String::from_str(
                "Repo document delete error: ",
            ).concat(c.as_str()),
            RepoDocumentErr::CreateError(c) => String::from_str(
                "Repo document create error: ",
            ).concat(c.as_str()),
            RepoDocumentErr::CopyError(c) => String::from_str("Repo document copy error: ").concat(
                c.as_str(),
            ),
            RepoDocumentErr::RemoveError(c) => String::from_str(
                "Repo document remove error: ",
            ).concat(c.as_str()),
        }
    }

    /// The error of an update that failed for this reason: an `UpdateError`
    /// whose cause is the message of this error.
    pub fn in_update(self) -> (e: RepoDocumentErr)
        ensures
            e is UpdateError,
            e.cause() == self.text(),
    {
        RepoDocumentErr::UpdateError(self.format())
    }

    /// The error of a delete that failed for this reason: a `DeleteError`
    /// whose cause is the message of this error.
    pub fn in_delete(self) -> (e: RepoDocumentErr)
        ensures
            e is DeleteError,
            e.cause() == self.text(),
    {
        RepoDocumentErr::DeleteError(self.format())
    }
}

/// A JSON document: a file at a path below the root of its store.
pub struct JsonDocument {
    base_path: String,
    path: String,
}

impl JsonDocument {
    /// The root of the store that the document belongs to.
    pub closed spec fn spec_base_path(&self) -> Seq<char> {
        self.base_path@
    }

    /// The path of the document below that root.
    pub closed spec fn spec_path(&self) -> Seq<char> {
        self.path@
    }

    /// The document at `path` below `base_path`.
    pub fn new(base_path: &str, path: &str) -> (d: JsonDocument)
        ensures
            d.spec_base_path() == base_path@,
            d.spec_path() == path@,
    {
        JsonDocument { base_path: String::from_str(base_path), path: String::from_str(path) }
    }

    /// The root of the store that the document belongs to.
    pub fn base_path(&self) -> (r: &str)
        ensures
            r@ == self.spec_base_path(),
    {
        self.base_path.as_str()
    }

    /// The path of the document below the root of its store.
    pub fn path(&self) -> (r: &str)
        ensures
            r@ == self.spec_path(),
    {
        self.path.as_str()
    }

    /// Reads a document from the text of its file. A text that is not one JSON
    /// value gives a `ReadError` with the message of the parser.
    pub fn parse(contents: &str) -> (r: Result<Value, RepoDocumentErr>)
        ensures
            match r {
                Ok(v) => parsed_json(contents@) matches Ok(tree) && tree == json_tree(v),
                Err(e) => parsed_json(contents@) matches Err(message) && message == e.cause()
                    && e is ReadError,
            },
    {
        match parse_json(contents) {
            Ok(v) => Ok(v),
            Err(message) => Err(RepoDocumentErr::ReadError(message)),
        }
    }

    /// The text to write to the file of a document.
    pub fn render(data: &Value) -> (r: String)
        ensures
            r@ == rendered_json(json_tree(*data)),
    {
        render_json(data)
    }

    /// The new text of a file after `value` is set at the dotted path `key` of
    /// the document that `contents` holds. A text that is not one JSON value
    /// gives an `UpdateError` that carries the message of the `ReadError`.
    pub fn updated(contents: &str, key: &str, value: &Value) -> (r: Result<String, RepoDocumentErr>)
        ensures
            match parsed_json(contents@) {
                Ok(tree) => r matches Ok(text) && text@ == rendered_json(
                    updated_tree(tree, split_text(key@, '.'), json_tree(*value)),
                ),
                Err(message) => r matches Err(e) && e is UpdateError && e.cause()
                    == read_failure(message),
            },
    {
        match JsonDocument::parse(contents) {
            Ok(data) => Ok(render_json(&update_json_value(&data, key, value))),
            Err(cause) => Err(cause.in_update()),
        }
    }

    /// The new text of a file after the entry at the dotted path `key` is
    /// removed from the document that `contents` holds; the text of the same
    /// document where the path cannot be walked. A text that is not one JSON
    /// value gives a `DeleteError` that carries the message of the
    /// `ReadError`.
    pub fn deleted(contents: &str, key: &str) -> (r: Result<String, RepoDocumentErr>)
        ensures
            match parsed_json(contents@) {
                Ok(tree) => r matches Ok(text) && text@ == rendered_json(
                    deleted_tree(tree, split_text(key@, '.')),
                ),
                Err(message) => r matches Err(e) && e is DeleteError && e.cause()
                    == read_failure(message),
            },
    {
        match JsonDocument::parse(contents) {
            Ok(data) => Ok(render_json(&delete_json_key(&data, key))),
            Err(cause) => Err(cause.in_delete()),
        }
    }
}

/// The message of a `ReadError` with the given cause.
pub open spec fn read_failure(cause: Seq<char>) -> Seq<char> {
    "Repo document read error: "@ + cause
}

/// What a document of a store offers. `T` is the content of a document and
/// `Q` the operand of the queries that filter documents. An implementation
/// reads and writes the file of the document.
pub trait RepoDocument<T, Q> {
    /// The first document that satisfies the query, if there is one.
    fn find_one(&self, qry: RepoQuery<Q>) -> Result<Option<T>, RepoDocumentErr>;

    /// The documents that satisfy the query.
    fn find_many(&self, qry: RepoQuery<Q>) -> Result<Vec<T>, RepoDocumentErr>;

    /// The content of the document.
    fn read(&self) -> Result<T, RepoDocumentErr>;

    /// Replaces the content of the document.
    fn write(&self, data: T) -> Result<(), RepoDocumentErr>;

    /// Sets a value at a dotted path of the document.
    fn update(&self, key: &str, data: T) -> Result<(), RepoDocumentErr>;

    /// Removes the entry at a dotted path of the document.
    fn delete(&self, key: &str) -> Result<(), RepoDocumentErr>;

    /// Whether the document is there.
    fn is_present(&self) -> bool;

    /// Copies the file at `source` to the place of the document, and returns
    /// the number of bytes copied.
    fn copy(&self, source: &str) -> Result<u64, RepoDocumentErr>;

    /// Removes the document.
    fn remove(&self) -> Result<(), RepoDocumentErr>;
}

} // verus!

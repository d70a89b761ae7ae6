use vstd::prelude::*;

use crate::document::{ConfigDocument, DocView, KeyPath, Setting, SettingView, path_view};

verus! {

#[verifier::external_type_specification]
#[verifier::external_body]
pub struct ExTomlTable(toml_edit::Table);

/// What a TOML table holds under one key: a value, or a sub-table with its
/// dotted style and its own entries.
pub enum TomlNode {
    Leaf(SettingView),
    Group(bool, Seq<(Seq<char>, TomlNode)>),
}

pub type TomlEntries = Seq<(Seq<char>, TomlNode)>;

/// Storing `n` under `k`: replaced in place where `k` is present, appended otherwise.
pub open spec fn toml_insert(es: TomlEntries, k: Seq<char>, n: TomlNode) -> TomlEntries {
    if exists|i: int| 0 <= i < es.len() && es[i].0 == k {
        es.update(choose|i: int| 0 <= i < es.len() && es[i].0 == k, (k, n))
    } else {
        es.push((k, n))
    }
}

/// The entries of a TOML table, in the order of its map.
pub uninterp spec fn toml_table_entries(t: toml_edit::Table) -> TomlEntries;

/// Whether a TOML table is written with dotted keys.
pub uninterp spec fn toml_table_dotted(t: toml_edit::Table) -> bool;

/// Whether a TOML table, every table inside it, and every key and value in them
/// carry no formatting of their own (decor, position, implicit flag, key or value
/// representation), as a table made by `Table::new` and filled by
/// `Table::insert` with items of `toml_edit::value` does.
pub uninterp spec fn toml_table_plain(t: toml_edit::Table) -> bool;

/// The TOML text of a plain, non-dotted root table with the given entries.
pub uninterp spec fn toml_text(es: TomlEntries) -> Seq<char>;

/// Relies on toml_edit::Table::new: an empty, plain table with standard keys.
#[verifier::external_body]
fn new_table() -> (r: toml_edit::Table)
    ensures
        toml_table_entries(r) == Seq::<(Seq<char>, TomlNode)>::empty(),
        !toml_table_dotted(r),
        toml_table_plain(r),
{
    toml_edit::Table::new()
}

/// Relies on toml_edit::Table::set_dotted: sets the dotted flag and nothing else.
#[verifier::external_body]
fn set_dotted(t: &mut toml_edit::Table, yes: bool)
    ensures
        toml_table_entries(*final(t)) == toml_table_entries(*old(t)),
        toml_table_dotted(*final(t)) == yes,
        toml_table_plain(*final(t)) == toml_table_plain(*old(t)),
{
    t.set_dotted(yes);
}

/// Relies on toml_edit::Table::insert with toml_edit::value: stores a string.
#[verifier::external_body]
fn insert_str(t: &mut toml_edit::Table, key: &str, v: &str)
    ensures
        toml_table_entries(*final(t)) == toml_insert(
            toml_table_entries(*old(t)),
            key@,
            TomlNode::Leaf(SettingView::Str(v@)),
        ),
        toml_table_dotted(*final(t)) == toml_table_dotted(*old(t)),
        toml_table_plain(*old(t)) ==> toml_table_plain(*final(t)),
{
    t.insert(key, toml_edit::value(v));
}

/// Relies on toml_edit::Table::insert with toml_edit::value: stores an integer.
#[verifier::external_body]
fn insert_int(t: &mut toml_edit::Table, key: &str, v: i64)
    ensures
        toml_table_entries(*final(t)) == toml_insert(
            toml_table_entries(*old(t)),
            key@,
            TomlNode::Leaf(SettingView::Int(v as int)),
        ),
        toml_table_dotted(*final(t)) == toml_table_dotted(*old(t)),
        toml_table_plain(*old(t)) ==> toml_table_plain(*final(t)),
{
    t.insert(key, toml_edit::value(v));
}

/// Relies on toml_edit::Table::insert with toml_edit::value: stores a boolean.
#[verifier::external_body]
fn insert_bool(t: &mut toml_edit::Table, key: &str, v: bool)
    ensures
        toml_table_entries(*final(t)) == toml_insert(
            toml_table_entries(*old(t)),
            key@,
            TomlNode::Leaf(SettingView::Bool(v)),
        ),
        toml_table_dotted(*final(t)) == toml_table_dotted(*old(t)),
        toml_table_plain(*old(t)) ==> toml_table_plain(*final(t)),
{
    t.insert(key, toml_edit::value(v));
}

/// Relies on toml_edit::Table::insert with toml_edit::Item::Table: stores a
/// sub-table.
#[verifier::external_body]
fn insert_table(t: &mut toml_edit::Table, key: &str, child: toml_edit::Table)
    ensures
        toml_table_entries(*final(t)) == toml_insert(
            toml_table_entries(*old(t)),
            key@,
            TomlNode::Group(toml_table_dotted(child), toml_table_entries(child)),
        ),
        toml_table_dotted(*final(t)) == toml_table_dotted(*old(t)),
        toml_table_plain(*old(t)) && toml_table_plain(child) ==> toml_table_plain(*final(t)),
{
    t.insert(key, toml_edit::Item::Table(child));
}

/// Relies on toml_edit's `From<Table>` for `DocumentMut` and its `Display`: the
/// text depends on the entries alone where the table is plain and not dotted.
#[verifier::external_body]
fn document_text(t: toml_edit::Table) -> (r: String)
    ensures
        toml_table_plain(t) && !toml_table_dotted(t) ==> r@ == toml_text(toml_table_entries(t)),
{
    toml_edit::DocumentMut::from(t).to_string()
}

/// Whether `path` names an entry directly inside the group `prefix`.
pub fn is_child(path: &Vec<String>, prefix: &Vec<String>) -> (r: bool)
    ensures
        r == (path@.len() == prefix@.len() + 1 && path_view(path@).take(prefix@.len() as int)
            == path_view(prefix@)),
{
    if path.len() == 0 || path.len() - 1 != prefix.len() {
        return false;
    }
    let mut i: usize = 0;
    while i < prefix.len()
        invariant
            path@.len() == prefix@.len() + 1,
            0 <= i <= prefix@.len(),
            forall|j: int| 0 <= j < i ==> path@[j]@ == prefix@[j]@,
        decreases prefix@.len() - i,
    {
        if path[i] != prefix[i] {
            assert(path_view(path@).take(prefix@.len() as int)[i as int] != path_view(prefix@)[i as int]);
            return false;
        }
        i += 1;
    }
    assert(path_view(path@).take(prefix@.len() as int) =~= path_view(prefix@));
    true
}

pub open spec fn is_child_path(p: KeyPath, prefix: KeyPath) -> bool {
    p.len() == prefix.len() + 1 && p.take(prefix.len() as int) == prefix
}

/// The TOML entries of the group `prefix` of `all`, built from the entries `d`
/// in order; groups nested more than `depth` levels below it are left out.
pub open spec fn table_of(all: DocView, d: DocView, prefix: KeyPath, depth: nat) -> TomlEntries
    decreases depth, d.len(),
{
    if d.len() == 0 {
        Seq::empty()
    } else {
        let acc = table_of(all, d.drop_last(), prefix, depth);
        let e = d.last();
        if is_child_path(e.0, prefix) {
            let k = e.0[prefix.len() as int];
            match e.1 {
                SettingView::Table(dotted) => if depth > 0 {
                    toml_insert(
                        acc,
                        k,
                        TomlNode::Group(dotted, table_of(all, all, e.0, (depth - 1) as nat)),
                    )
                } else {
                    acc
                },
                _ => toml_insert(acc, k, TomlNode::Leaf(e.1)),
            }
        } else {
            acc
        }
    }
}

/// The length of the longest key path of `d`, and at least 1.
pub open spec fn doc_depth(d: DocView) -> nat
    decreases d.len(),
{
    if d.len() == 0 {
        1
    } else {
        let rest = doc_depth(d.drop_last());
        if d.last().0.len() > rest {
            d.last().0.len()
        } else {
            rest
        }
    }
}

/// The TOML entries that a document renders to: its groups nested as tables,
/// every entry that sits under its groups in document order.
pub open spec fn rendered(d: DocView) -> TomlEntries {
    table_of(d, d, Seq::empty(), doc_depth(d))
}

fn build_table(doc: &ConfigDocument, prefix: &Vec<String>, depth: usize) -> (r: toml_edit::Table)
    ensures
        toml_table_entries(r) == table_of(doc@, doc@, path_view(prefix@), depth as nat),
        !toml_table_dotted(r),
        toml_table_plain(r),
    decreases depth,
{
    let ghost pv = path_view(prefix@);
    let mut t = new_table();
    let mut i: usize = 0;
    while i < doc.len()
        invariant
            pv == path_view(prefix@),
            0 <= i <= doc@.len(),
            toml_table_entries(t) == table_of(doc@, doc@.take(i as int), pv, depth as nat),
            !toml_table_dotted(t),
            toml_table_plain(t),
        decreases doc@.len() - i,
    {
        let e = doc.entry(i);
        assert(doc@.take(i + 1).drop_last() =~= doc@.take(i as int));
        assert(doc@.take(i + 1).last() == doc@[i as int]);
        if is_child(&e.path, prefix) {
            let k = e.path[prefix.len()].as_str();
            assert(k@ == path_view(e.path@)[prefix@.len() as int]);
            match &e.setting {
                Setting::Table(dotted) => {
                    if depth > 0 {
                        let mut child = build_table(doc, &e.path, depth - 1);
                        set_dotted(&mut child, *dotted);
                        insert_table(&mut t, k, child);
                    }
                },
                Setting::Str(s) => insert_str(&mut t, k, s.as_str()),
                Setting::Int(n) => insert_int(&mut t, k, *n),
                Setting::Bool(b) => insert_bool(&mut t, k, *b),
            }
        }
        i += 1;
    }
    assert(doc@.take(i as int) =~= doc@);
    t
}

impl ConfigDocument {
    /// The document as a TOML table: groups nested as tables, each entry in
    /// document order.
    pub fn to_toml_table(&self) -> (r: toml_edit::Table)
        ensures
            toml_table_entries(r) == rendered(self@),
            !toml_table_dotted(r),
            toml_table_plain(r),
    {
        let root: Vec<String> = Vec::new();
        assert(path_view(root@) =~= Seq::<Seq<char>>::empty());
        build_table(self, &root, self.depth())
    }

    /// The length of the longest key path, and at least 1.
    pub fn depth(&self) -> (r: usize)
        ensures
            r == doc_depth(self@),
    {
        let mut r: usize = 1;
        let mut i: usize = 0;
        while i < self.len()
            invariant
                0 <= i <= self@.len(),
                r == doc_depth(self@.take(i as int)),
            decreases self@.len() - i,
        {
            assert(self@.take(i + 1).drop_last() =~= self@.take(i as int));
            let n = self.entry(i).path.len();
            if n > r {
                r = n;
            }
            i += 1;
        }
        assert(self@.take(i as int) =~= self@);
        r
    }

    /// The document as TOML text.
    pub fn to_toml_string(&self) -> (r: String)
        ensures
            r@ == toml_text(rendered(self@)),
    {
        document_text(self.to_toml_table())
    }
}

} // verus!

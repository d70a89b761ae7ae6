use vstd::prelude::*;

verus! {

/// A key path such as `network.carl.host`, one segment per element.
pub type KeyPath = Seq<Seq<char>>;

/// What a configuration document holds at one key path.
pub enum SettingView {
    /// A group of settings; `true` when written in the dotted style.
    Table(bool),
    Str(Seq<char>),
    Int(int),
    Bool(bool),
}

/// The executable form of [`SettingView`].
#[derive(Debug)]
pub enum Setting {
    Table(bool),
    Str(String),
    Int(i64),
    Bool(bool),
}

impl View for Setting {
    type V = SettingView;

    open spec fn view(&self) -> SettingView {
        match self {
            Setting::Table(dotted) => SettingView::Table(*dotted),
            Setting::Str(s) => SettingView::Str(s@),
            Setting::Int(i) => SettingView::Int(*i as int),
            Setting::Bool(b) => SettingView::Bool(*b),
        }
    }
}

pub open spec fn path_view(p: Seq<String>) -> KeyPath {
    p.map_values(|s: String| s@)
}

/// One entry of a document: a key path and what stands there.
#[derive(Debug)]
pub struct Entry {
    pub path: Vec<String>,
    pub setting: Setting,
}

impl View for Entry {
    type V = (KeyPath, SettingView);

    open spec fn view(&self) -> (KeyPath, SettingView) {
        (path_view(self.path@), self.setting@)
    }
}

/// An ordered configuration document: each key path occurs at most once, and
/// entries keep the order in which they were first added.
#[derive(Debug)]
pub struct ConfigDocument {
    entries: Vec<Entry>,
}

pub type DocView = Seq<(KeyPath, SettingView)>;

/// No key path occurs twice.
pub open spec fn unique_paths(d: DocView) -> bool {
    forall|i: int, j: int| 0 <= i < d.len() && 0 <= j < d.len() && i != j ==> d[i].0 != d[j].0
}

pub open spec fn has_path(d: DocView, p: KeyPath) -> bool {
    exists|i: int| 0 <= i < d.len() && d[i].0 == p
}

/// The position of `p` in `d`, when it occurs.
pub open spec fn index_of(d: DocView, p: KeyPath) -> int {
    choose|i: int| 0 <= i < d.len() && d[i].0 == p
}

/// What `d` holds at `p`.
pub open spec fn lookup(d: DocView, p: KeyPath) -> Option<SettingView> {
    if has_path(d, p) {
        Some(d[index_of(d, p)].1)
    } else {
        None
    }
}

pub open spec fn is_table(d: DocView, p: KeyPath) -> bool {
    lookup(d, p) matches Some(SettingView::Table(_))
}

/// Every group that encloses `p` is a group of `d`.
pub open spec fn parents_grouped(d: DocView, p: KeyPath) -> bool {
    forall|k: int| 0 < k < p.len() ==> #[trigger] is_table(d, p.take(k))
}

/// Every entry of `d` lies inside groups of `d`, so that none is lost when the
/// document is written out.
pub open spec fn grouped(d: DocView) -> bool {
    forall|q: KeyPath| #[trigger] lookup(d, q) is Some ==> parents_grouped(d, q)
}

/// Setting `p` to `v`: replaced in place where `p` occurs, appended otherwise.
pub open spec fn set_spec(d: DocView, p: KeyPath, v: SettingView) -> DocView {
    if has_path(d, p) {
        d.update(index_of(d, p), (p, v))
    } else {
        d.push((p, v))
    }
}

/// Making sure that `p` is a group: kept where it already is one, otherwise
/// set to a new group in the given style.
pub open spec fn ensure_table_spec(d: DocView, p: KeyPath, dotted: bool) -> DocView {
    if is_table(d, p) {
        d
    } else {
        set_spec(d, p, SettingView::Table(dotted))
    }
}

pub proof fn lemma_lookup_at(d: DocView, i: int)
    requires
        unique_paths(d),
        0 <= i < d.len(),
    ensures
        has_path(d, d[i].0),
        index_of(d, d[i].0) == i,
        lookup(d, d[i].0) == Some(d[i].1),
{
}

/// After setting `p`, `p` holds the new value and every other path is unchanged.
pub proof fn lemma_set(d: DocView, p: KeyPath, v: SettingView)
    requires
        unique_paths(d),
    ensures
        unique_paths(set_spec(d, p, v)),
        forall|q: KeyPath| #[trigger]
            lookup(set_spec(d, p, v), q) == if q == p {
                Some(v)
            } else {
                lookup(d, q)
            },
{
    let r = set_spec(d, p, v);
    if has_path(d, p) {
        let k = index_of(d, p);
        assert forall|i: int, j: int| 0 <= i < r.len() && 0 <= j < r.len() && i != j implies r[i].0
            != r[j].0 by {
            assert(d[k].0 == p);
        }
    }
    assert forall|q: KeyPath| #[trigger]
        lookup(r, q) == if q == p {
            Some(v)
        } else {
            lookup(d, q)
        } by {
        if has_path(r, q) {
            let i = index_of(r, q);
            lemma_lookup_at(r, i);
            if q != p {
                assert(d[i].0 == q);
                lemma_lookup_at(d, i);
            }
        } else {
            if q == p {
                assert(r[if has_path(d, p) { index_of(d, p) } else { d.len() as int }].0 == p);
            }
            if has_path(d, q) {
                let i = index_of(d, q);
                assert(r[i].0 == q);
            }
        }
    }
}

/// Setting a path to what it already holds changes nothing.
pub proof fn lemma_set_same(d: DocView, p: KeyPath, v: SettingView)
    requires
        unique_paths(d),
        lookup(d, p) == Some(v),
    ensures
        set_spec(d, p, v) == d,
{
    assert(set_spec(d, p, v) =~= d);
}

/// After making sure of a group at `p`, `p` is a group, and every other path is
/// unchanged.
pub proof fn lemma_ensure_table(d: DocView, p: KeyPath, dotted: bool)
    requires
        unique_paths(d),
    ensures
        unique_paths(ensure_table_spec(d, p, dotted)),
        is_table(ensure_table_spec(d, p, dotted), p),
        is_table(d, p) ==> ensure_table_spec(d, p, dotted) == d,
        forall|q: KeyPath|
            q != p ==> #[trigger] lookup(ensure_table_spec(d, p, dotted), q) == lookup(d, q),
{
    if !is_table(d, p) {
        lemma_set(d, p, SettingView::Table(dotted));
    }
}

impl View for ConfigDocument {
    type V = DocView;

    closed spec fn view(&self) -> DocView {
        self.entries@.map_values(|e: Entry| e@)
    }
}

/// Whether two key paths are equal.
pub fn paths_equal(a: &Vec<String>, b: &Vec<String>) -> (r: bool)
    ensures
        r == (path_view(a@) == path_view(b@)),
{
    if a.len() != b.len() {
        assert(path_view(a@).len() != path_view(b@).len());
        return false;
    }
    let mut i: usize = 0;
    while i < a.len()
        invariant
            a.len() == b.len(),
            0 <= i <= a.len(),
            forall|j: int| 0 <= j < i ==> a@[j]@ == b@[j]@,
        decreases a.len() - i,
    {
        if a[i] != b[i] {
            assert(path_view(a@)[i as int] != path_view(b@)[i as int]);
            return false;
        }
        i += 1;
    }
    assert(path_view(a@) =~= path_view(b@));
    true
}

impl ConfigDocument {
    pub open spec fn wf(&self) -> bool {
        unique_paths(self@)
    }

    /// An empty document.
    pub fn new() -> (r: ConfigDocument)
        ensures
            r@ == Seq::<(KeyPath, SettingView)>::empty(),
            r.wf(),
    {
        let r = ConfigDocument { entries: Vec::new() };
        assert(r@ =~= Seq::<(KeyPath, SettingView)>::empty());
        r
    }

    /// The number of entries.
    pub fn len(&self) -> (r: usize)
        ensures
            r == self@.len(),
    {
        self.entries.len()
    }

    /// The entry at position `i`.
    pub fn entry(&self, i: usize) -> (r: &Entry)
        requires
            i < self@.len(),
        ensures
            r@ == self@[i as int],
    {
        &self.entries[i]
    }

    /// The position of `p`, if it occurs.
    pub fn find(&self, p: &Vec<String>) -> (r: Option<usize>)
        requires
            self.wf(),
        ensures
            r is None <==> !has_path(self@, path_view(p@)),
            r matches Some(i) ==> i == index_of(self@, path_view(p@)) && i < self@.len(),
    {
        let mut i: usize = 0;
        while i < self.entries.len()
            invariant
                self.wf(),
                0 <= i <= self.entries@.len(),
                forall|j: int| 0 <= j < i ==> #[trigger] self@[j].0 != path_view(p@),
            decreases self.entries@.len() - i,
        {
            if paths_equal(&self.entries[i].path, p) {
                proof {
                    lemma_lookup_at(self@, i as int);
                }
                return Some(i);
            }
            i += 1;
        }
        None
    }

    /// What the document holds at `p`.
    pub fn get(&self, p: &Vec<String>) -> (r: Option<&Setting>)
        requires
            self.wf(),
        ensures
            match r {
                Some(s) => lookup(self@, path_view(p@)) == Some(s@),
                None => lookup(self@, path_view(p@)) is None,
            },
    {
        match self.find(p) {
            Some(i) => Some(&self.entries[i].setting),
            None => None,
        }
    }

    /// Sets `path` to `setting`, in place where the path already occurs. Every
    /// group that encloses `path` must exist already.
    pub fn set(&mut self, path: Vec<String>, setting: Setting)
        requires
            old(self).wf(),
            parents_grouped(old(self)@, path_view(path@)),
        ensures
            final(self).wf(),
            final(self)@ == set_spec(old(self)@, path_view(path@), setting@),
    {
        self.set_entry(path, setting);
    }

    /// Makes sure that `path` is a group; a new one takes the given style. Every
    /// group that encloses `path` must exist already.
    pub fn ensure_table(&mut self, path: Vec<String>, dotted: bool)
        requires
            old(self).wf(),
            parents_grouped(old(self)@, path_view(path@)),
        ensures
            final(self).wf(),
            final(self)@ == ensure_table_spec(old(self)@, path_view(path@), dotted),
    {
        self.ensure_group(path, dotted);
    }

    /// [`ConfigDocument::set`] without the demand on enclosing groups.
    pub(crate) fn set_entry(&mut self, path: Vec<String>, setting: Setting)
        requires
            old(self).wf(),
        ensures
            final(self).wf(),
            final(self)@ == set_spec(old(self)@, path_view(path@), setting@),
    {
        let ghost p = path_view(path@);
        let ghost v = setting@;
        proof {
            lemma_set(self@, p, v);
        }
        match self.find(&path) {
            Some(i) => {
                self.entries.set(i, Entry { path, setting });
                assert(self@ =~= old(self)@.update(i as int, (p, v)));
            },
            None => {
                self.entries.push(Entry { path, setting });
                assert(self@ =~= old(self)@.push((p, v)));
            },
        }
    }

    /// [`ConfigDocument::ensure_table`] without the demand on enclosing groups.
    pub(crate) fn ensure_group(&mut self, path: Vec<String>, dotted: bool)
        requires
            old(self).wf(),
        ensures
            final(self).wf(),
            final(self)@ == ensure_table_spec(old(self)@, path_view(path@), dotted),
    {
        let is_group = match self.get(&path) {
            Some(Setting::Table(_)) => true,
            _ => false,
        };
        if !is_group {
            self.set_entry(path, Setting::Table(dotted));
        }
    }
}

} // verus!

use vstd::prelude::*;

use crate::document::{
    ConfigDocument, DocView, KeyPath, Setting, SettingView, ensure_table_spec, is_table, lookup,
    path_view, set_spec, unique_paths, lemma_ensure_table, lemma_set, lemma_set_same,
};

verus! {

/// What one edit does at its key path.
pub enum ActionView {
    Put(SettingView),
    EnsureTable(bool),
}

pub type EditView = (KeyPath, ActionView);

/// The executable form of [`ActionView`].
#[derive(Debug)]
pub enum Action {
    /// Set the path to this setting.
    Put(Setting),
    /// Make sure the path is a group; a new one takes the given style.
    EnsureTable(bool),
}

impl View for Action {
    type V = ActionView;

    open spec fn view(&self) -> ActionView {
        match self {
            Action::Put(s) => ActionView::Put(s@),
            Action::EnsureTable(dotted) => ActionView::EnsureTable(*dotted),
        }
    }
}

/// One change to a document.
#[derive(Debug)]
pub struct Edit {
    pub path: Vec<String>,
    pub action: Action,
}

impl View for Edit {
    type V = EditView;

    open spec fn view(&self) -> EditView {
        (path_view(self.path@), self.action@)
    }
}

pub open spec fn step(d: DocView, e: EditView) -> DocView {
    match e.1 {
        ActionView::Put(v) => set_spec(d, e.0, v),
        ActionView::EnsureTable(dotted) => ensure_table_spec(d, e.0, dotted),
    }
}

/// The document after applying `es` in order.
pub open spec fn apply_edits(d: DocView, es: Seq<EditView>) -> DocView
    decreases es.len(),
{
    if es.len() == 0 {
        d
    } else {
        step(apply_edits(d, es.drop_last()), es.last())
    }
}

/// `d` already shows the effect of `e`.
pub open spec fn satisfied(d: DocView, e: EditView) -> bool {
    match e.1 {
        ActionView::Put(v) => lookup(d, e.0) == Some(v),
        ActionView::EnsureTable(_) => is_table(d, e.0),
    }
}

/// No two edits touch the same path.
pub open spec fn distinct_paths(es: Seq<EditView>) -> bool {
    forall|i: int, j: int| 0 <= i < es.len() && 0 <= j < es.len() && i != j ==> es[i].0 != es[j].0
}

pub open spec fn touches(es: Seq<EditView>, q: KeyPath) -> bool {
    exists|i: int| 0 <= i < es.len() && es[i].0 == q
}

pub proof fn lemma_step(d: DocView, e: EditView)
    requires
        unique_paths(d),
    ensures
        unique_paths(step(d, e)),
        satisfied(step(d, e), e),
        satisfied(d, e) ==> step(d, e) == d,
        forall|q: KeyPath| q != e.0 ==> #[trigger] lookup(step(d, e), q) == lookup(d, q),
{
    match e.1 {
        ActionView::Put(v) => {
            lemma_set(d, e.0, v);
            if satisfied(d, e) {
                lemma_set_same(d, e.0, v);
            }
        },
        ActionView::EnsureTable(dotted) => {
            lemma_ensure_table(d, e.0, dotted);
        },
    }
}

/// Applying edits keeps paths unique and leaves every path they do not touch as it was.
pub proof fn lemma_apply_frame(d: DocView, es: Seq<EditView>)
    requires
        unique_paths(d),
    ensures
        unique_paths(apply_edits(d, es)),
        forall|q: KeyPath| !touches(es, q) ==> #[trigger] lookup(apply_edits(d, es), q) == lookup(d, q),
    decreases es.len(),
{
    if es.len() > 0 {
        let init = es.drop_last();
        lemma_apply_frame(d, init);
        lemma_step(apply_edits(d, init), es.last());
        assert forall|q: KeyPath| !touches(es, q) implies #[trigger] lookup(apply_edits(d, es), q)
            == lookup(d, q) by {
            assert(es[es.len() - 1].0 != q);
            if touches(init, q) {
                let i = choose|i: int| 0 <= i < init.len() && init[i].0 == q;
                assert(es[i].0 == q);
            }
        }
    }
}

/// Once edits with distinct paths are applied, the document shows each of them.
pub proof fn lemma_apply_satisfies(d: DocView, es: Seq<EditView>)
    requires
        unique_paths(d),
        distinct_paths(es),
    ensures
        unique_paths(apply_edits(d, es)),
        forall|i: int| 0 <= i < es.len() ==> satisfied(apply_edits(d, es), #[trigger] es[i]),
    decreases es.len(),
{
    lemma_apply_frame(d, es);
    if es.len() > 0 {
        let init = es.drop_last();
        let last = es.last();
        assert(distinct_paths(init)) by {
            assert forall|i: int, j: int|
                0 <= i < init.len() && 0 <= j < init.len() && i != j implies init[i].0
                != init[j].0 by {
                assert(init[i] == es[i] && init[j] == es[j]);
            }
        }
        lemma_apply_satisfies(d, init);
        let before = apply_edits(d, init);
        lemma_step(before, last);
        assert forall|i: int| 0 <= i < es.len() implies satisfied(
            apply_edits(d, es),
            #[trigger] es[i],
        ) by {
            if i < es.len() - 1 {
                assert(init[i] == es[i]);
                assert(es[i].0 != last.0);
                assert(lookup(step(before, last), es[i].0) == lookup(before, es[i].0));
            }
        }
    }
}

/// Edits whose effect a document already shows leave it as it is.
pub proof fn lemma_apply_satisfied(d: DocView, es: Seq<EditView>)
    requires
        unique_paths(d),
        forall|i: int| 0 <= i < es.len() ==> satisfied(d, #[trigger] es[i]),
    ensures
        apply_edits(d, es) == d,
    decreases es.len(),
{
    if es.len() > 0 {
        let init = es.drop_last();
        assert forall|i: int| 0 <= i < init.len() implies satisfied(d, #[trigger] init[i]) by {
            assert(init[i] == es[i]);
        }
        lemma_apply_satisfied(d, init);
        lemma_step(d, es.last());
    }
}

/// Applying the same edits with distinct paths twice gives what applying them once gives.
pub proof fn lemma_apply_idempotent(d: DocView, es: Seq<EditView>)
    requires
        unique_paths(d),
        distinct_paths(es),
    ensures
        apply_edits(apply_edits(d, es), es) == apply_edits(d, es),
{
    lemma_apply_satisfies(d, es);
    lemma_apply_satisfied(apply_edits(d, es), es);
}

impl ConfigDocument {
    /// Applies `edits` in order.
    pub(crate) fn apply(&mut self, edits: Vec<Edit>)
        requires
            old(self).wf(),
        ensures
            final(self).wf(),
            final(self)@ == apply_edits(old(self)@, edits@.map_values(|e: Edit| e@)),
    {
        let ghost all = edits@.map_values(|e: Edit| e@);
        let ghost start = self@;
        let mut rest = edits;
        let n: usize = rest.len();
        let mut i: usize = 0;
        while rest.len() > 0
            invariant
                self.wf(),
                all.len() == n,
                i + rest@.len() == all.len(),
                self@ == apply_edits(start, all.take(i as int)),
                forall|k: int| 0 <= k < rest@.len() ==> #[trigger] rest@[k]@ == all[i + k],
            decreases rest@.len(),
        {
            let e = rest.remove(0);
            assert(e@ == all[i as int]);
            assert(all.take(i + 1).drop_last() =~= all.take(i as int));
            match e.action {
                Action::Put(s) => self.set_entry(e.path, s),
                Action::EnsureTable(dotted) => self.ensure_group(e.path, dotted),
            }
            i += 1;
        }
        assert(all.take(i as int) =~= all);
    }
}

} // verus!

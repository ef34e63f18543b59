//! The template catalog: every known template name with its visibility and
//! selection flags, kept sorted by name. The two derived lists — Available
//! (neither hidden nor selected) and Selected — are recomputed from it after
//! every mutation.

use vstd::prelude::*;
use crate::matching::chars_match_name;
use crate::text::{
    is_substring,
    lex_lt,
    lemma_lex_lt_connected,
    lemma_lex_lt_neq,
    lemma_lex_lt_trans,
    str_lt,
    strict_sorted,
};

verus! {

/// Upper bound on catalog entries; keeps every derived index comfortably
/// inside the integer arithmetic of the screen code.
pub const MAX_ITEMS: usize = 0xFFFF_FFFF;

/// One catalog entry as the specifications see it.
#[verifier::ext_equal]
pub ghost struct TemplateView {
    pub name: Seq<char>,
    pub hidden: bool,
    pub selected: bool,
}

#[derive(Debug)]
struct TemplateEntry {
    name: String,
    hidden: bool,
    selected: bool,
}

impl View for TemplateEntry {
    type V = TemplateView;

    closed spec fn view(&self) -> TemplateView {
        TemplateView { name: self.name@, hidden: self.hidden, selected: self.selected }
    }
}

/// The catalog: entries strictly sorted by name.
#[derive(Debug)]
pub struct Catalog {
    entries: Vec<TemplateEntry>,
}

impl View for Catalog {
    type V = Seq<TemplateView>;

    closed spec fn view(&self) -> Seq<TemplateView> {
        Seq::new(self.entries@.len(), |i: int| self.entries@[i]@)
    }
}

pub open spec fn catalog_names(cv: Seq<TemplateView>) -> Seq<Seq<char>> {
    Seq::new(cv.len(), |i: int| cv[i].name)
}

/// Well-formedness: names strictly sorted (hence unique), and not more
/// entries than `MAX_ITEMS`.
pub open spec fn catalog_wf(cv: Seq<TemplateView>) -> bool {
    &&& strict_sorted(catalog_names(cv))
    &&& cv.len() <= MAX_ITEMS
}

pub open spec fn catalog_has(cv: Seq<TemplateView>, name: Seq<char>) -> bool {
    exists|i: int| 0 <= i < cv.len() && (#[trigger] cv[i]).name == name
}

/// The index of `name` in the catalog, or -1 when absent.
pub open spec fn spec_index_of(cv: Seq<TemplateView>, name: Seq<char>) -> int
    decreases cv.len(),
{
    if cv.len() == 0 {
        -1
    } else if cv[0].name == name {
        0
    } else {
        let r = spec_index_of(cv.drop_first(), name);
        if r < 0 {
            -1
        } else {
            r + 1
        }
    }
}

/// Where a new entry named `name` belongs: after every strictly smaller
/// name.
pub open spec fn spec_insert_pos(cv: Seq<TemplateView>, name: Seq<char>) -> int
    decreases cv.len(),
{
    if cv.len() == 0 {
        0
    } else if lex_lt(cv[0].name, name) {
        1 + spec_insert_pos(cv.drop_first(), name)
    } else {
        0
    }
}

/// What registering a name does: nothing when it is already present, else a
/// fresh visible, unselected entry at its sorted position.
pub open spec fn spec_insert(cv: Seq<TemplateView>, name: Seq<char>) -> Seq<TemplateView> {
    if catalog_has(cv, name) {
        cv
    } else {
        cv.insert(
            spec_insert_pos(cv, name),
            TemplateView { name, hidden: false, selected: false },
        )
    }
}

/// What registering a whole listing does: each name in turn.
pub open spec fn spec_insert_all(cv: Seq<TemplateView>, names: Seq<Seq<char>>) -> Seq<
    TemplateView,
>
    decreases names.len(),
{
    if names.len() == 0 {
        cv
    } else {
        spec_insert_all(spec_insert(cv, names.first()), names.drop_first())
    }
}

/// What toggling a name does: flips its selection flag; a name not yet in
/// the catalog is registered selected.
pub open spec fn spec_toggle(cv: Seq<TemplateView>, name: Seq<char>) -> Seq<TemplateView> {
    if catalog_has(cv, name) {
        let i = spec_index_of(cv, name);
        cv.update(i, TemplateView { selected: !cv[i].selected, ..cv[i] })
    } else {
        cv.insert(spec_insert_pos(cv, name), TemplateView { name, hidden: false, selected: true })
    }
}

/// What filtering does: an entry is hidden exactly when its name does not
/// contain the filter text.
pub open spec fn spec_apply_filter(cv: Seq<TemplateView>, filter: Seq<char>) -> Seq<TemplateView> {
    Seq::new(
        cv.len(),
        |i: int|
            TemplateView {
                name: cv[i].name,
                hidden: !is_substring(filter, cv[i].name),
                selected: cv[i].selected,
            },
    )
}

/// The names of the entries satisfying `p`, in catalog order.
pub open spec fn spec_filtered_names(
    cv: Seq<TemplateView>,
    p: spec_fn(TemplateView) -> bool,
) -> Seq<Seq<char>>
    decreases cv.len(),
{
    if cv.len() == 0 {
        Seq::empty()
    } else {
        spec_filtered_names(cv.drop_last(), p) + if p(cv.last()) {
            seq![cv.last().name]
        } else {
            Seq::empty()
        }
    }
}

pub open spec fn available_pred() -> spec_fn(TemplateView) -> bool {
    |t: TemplateView| !t.hidden && !t.selected
}

pub open spec fn selected_pred() -> spec_fn(TemplateView) -> bool {
    |t: TemplateView| t.selected
}

pub open spec fn hidden_pred() -> spec_fn(TemplateView) -> bool {
    |t: TemplateView| t.hidden
}

/// The Available list: names neither hidden nor selected.
pub open spec fn spec_available(cv: Seq<TemplateView>) -> Seq<Seq<char>> {
    spec_filtered_names(cv, available_pred())
}

/// The Selected list: names with the selection flag set.
pub open spec fn spec_selected(cv: Seq<TemplateView>) -> Seq<Seq<char>> {
    spec_filtered_names(cv, selected_pred())
}

/// The hidden names.
pub open spec fn spec_hidden(cv: Seq<TemplateView>) -> Seq<Seq<char>> {
    spec_filtered_names(cv, hidden_pred())
}

proof fn lemma_index_of_found(cv: Seq<TemplateView>, name: Seq<char>, i: int)
    requires
        0 <= i < cv.len(),
        cv[i].name == name,
        forall|j: int| 0 <= j < i ==> (#[trigger] cv[j]).name != name,
    ensures
        spec_index_of(cv, name) == i,
    decreases i,
{
    if i == 0 {
    } else {
        assert(cv[0].name != name);
        lemma_index_of_found(cv.drop_first(), name, i - 1);
    }
}

/// When the name is present, `spec_index_of` points at its first
/// occurrence.
pub proof fn lemma_index_of_has(cv: Seq<TemplateView>, name: Seq<char>)
    requires
        catalog_has(cv, name),
    ensures
        0 <= spec_index_of(cv, name) < cv.len(),
        cv[spec_index_of(cv, name)].name == name,
        forall|j: int| 0 <= j < spec_index_of(cv, name) ==> (#[trigger] cv[j]).name != name,
    decreases cv.len(),
{
    if cv[0].name == name {
    } else {
        let w = choose|i: int| 0 <= i < cv.len() && (#[trigger] cv[i]).name == name;
        assert(cv.drop_first()[w - 1].name == name);
        lemma_index_of_has(cv.drop_first(), name);
        let r = spec_index_of(cv.drop_first(), name);
        assert forall|j: int| 0 <= j < r + 1 implies (#[trigger] cv[j]).name != name by {
            if j > 0 {
                assert(cv.drop_first()[j - 1] == cv[j]);
            }
        }
    }
}

proof fn lemma_insert_pos_bounds(cv: Seq<TemplateView>, name: Seq<char>)
    ensures
        0 <= spec_insert_pos(cv, name) <= cv.len(),
    decreases cv.len(),
{
    if cv.len() > 0 && lex_lt(cv[0].name, name) {
        lemma_insert_pos_bounds(cv.drop_first(), name);
    }
}

proof fn lemma_insert_pos_from_scan(cv: Seq<TemplateView>, name: Seq<char>, i: int)
    requires
        0 <= i <= cv.len(),
        forall|j: int| 0 <= j < i ==> lex_lt((#[trigger] cv[j]).name, name),
        i < cv.len() ==> !lex_lt(cv[i].name, name),
    ensures
        spec_insert_pos(cv, name) == i,
    decreases i,
{
    if cv.len() == 0 {
    } else if i == 0 {
    } else {
        assert(lex_lt(cv[0].name, name));
        lemma_insert_pos_from_scan(cv.drop_first(), name, i - 1);
    }
}

proof fn lemma_insert_pos_prefix(cv: Seq<TemplateView>, name: Seq<char>)
    ensures
        forall|j: int|
            0 <= j < spec_insert_pos(cv, name) ==> lex_lt((#[trigger] cv[j]).name, name),
        spec_insert_pos(cv, name) < cv.len() ==> !lex_lt(
            cv[spec_insert_pos(cv, name)].name,
            name,
        ),
    decreases cv.len(),
{
    if cv.len() > 0 && lex_lt(cv[0].name, name) {
        lemma_insert_pos_prefix(cv.drop_first(), name);
        lemma_insert_pos_bounds(cv.drop_first(), name);
        let p = spec_insert_pos(cv, name);
        assert forall|j: int| 0 <= j < p implies lex_lt((#[trigger] cv[j]).name, name) by {
            if j > 0 {
                assert(cv.drop_first()[j - 1] == cv[j]);
            }
        }
    }
}

/// Inserting an absent name at its computed position keeps the names
/// strictly sorted.
proof fn lemma_insert_preserves_sorted(cv: Seq<TemplateView>, tv: TemplateView)
    requires
        strict_sorted(catalog_names(cv)),
        !catalog_has(cv, tv.name),
    ensures
        strict_sorted(catalog_names(cv.insert(spec_insert_pos(cv, tv.name), tv))),
{
    let p = spec_insert_pos(cv, tv.name);
    lemma_insert_pos_bounds(cv, tv.name);
    lemma_insert_pos_prefix(cv, tv.name);
    let new = cv.insert(p, tv);
    let names = catalog_names(cv);
    let new_names = catalog_names(new);
    if p < cv.len() {
        assert forall|j: int| p <= j < cv.len() implies lex_lt(tv.name, (#[trigger] cv[j]).name) by {
            assert(cv[p].name != tv.name);
            lemma_lex_lt_connected(cv[p].name, tv.name);
            assert(lex_lt(tv.name, cv[p].name));
            if j > p {
                assert(lex_lt(names[p], names[j]));
                lemma_lex_lt_trans(tv.name, cv[p].name, cv[j].name);
            }
        }
    }
    assert forall|a: int, b: int|
        0 <= a < b < new_names.len() implies lex_lt(new_names[a], new_names[b]) by {
        assert(new.len() == cv.len() + 1);
        assert(forall|k: int| 0 <= k < p ==> new[k] == cv[k]);
        assert(new[p] == tv);
        assert(forall|k: int| p < k < new.len() ==> new[k] == cv[k - 1]);
        if b < p {
            assert(lex_lt(names[a], names[b]));
        } else if b == p {
            assert(lex_lt(cv[a].name, tv.name));
        } else if a < p {
            assert(a < b - 1 && p <= b - 1 < cv.len());
            assert(lex_lt(names[a], names[b - 1]));
        } else if a == p {
            assert(lex_lt(tv.name, cv[b - 1].name));
        } else {
            assert(lex_lt(names[a - 1], names[b - 1]));
        }
    }
}

/// Some entry of the catalog is named `n` and satisfies `p`.
pub open spec fn entry_with_name(
    cv: Seq<TemplateView>,
    p: spec_fn(TemplateView) -> bool,
    n: Seq<char>,
) -> bool {
    exists|i: int| 0 <= i < cv.len() && (#[trigger] cv[i]).name == n && p(cv[i])
}

/// A filtered name list of a sorted catalog is itself strictly sorted, no
/// longer than the catalog, and holds exactly the names of the entries that
/// satisfy the predicate.
pub proof fn lemma_filtered_props(cv: Seq<TemplateView>, p: spec_fn(TemplateView) -> bool)
    requires
        strict_sorted(catalog_names(cv)),
    ensures
        strict_sorted(spec_filtered_names(cv, p)),
        spec_filtered_names(cv, p).len() <= cv.len(),
        forall|k: int|
            0 <= k < spec_filtered_names(cv, p).len() ==> entry_with_name(
                cv,
                p,
                #[trigger] spec_filtered_names(cv, p)[k],
            ),
        forall|i: int|
            0 <= i < cv.len() && p(#[trigger] cv[i]) ==> spec_filtered_names(cv, p).contains(
                cv[i].name,
            ),
    decreases cv.len(),
{
    if cv.len() > 0 {
        let dl = cv.drop_last();
        let last = cv.last();
        assert(forall|i: int| 0 <= i < dl.len() ==> dl[i] == cv[i]);
        assert(strict_sorted(catalog_names(dl))) by {
            assert forall|a: int, b: int|
                0 <= a < b < dl.len() implies lex_lt(
                catalog_names(dl)[a],
                catalog_names(dl)[b],
            ) by {
                assert(lex_lt(catalog_names(cv)[a], catalog_names(cv)[b]));
            }
        }
        lemma_filtered_props(dl, p);
        let f = spec_filtered_names(cv, p);
        let fd = spec_filtered_names(dl, p);
        if p(last) {
            assert(f =~= fd.push(last.name));
            assert forall|k1: int, k2: int| 0 <= k1 < k2 < f.len() implies lex_lt(
                f[k1],
                f[k2],
            ) by {
                if k2 < fd.len() {
                    assert(lex_lt(fd[k1], fd[k2]));
                } else {
                    assert(f[k2] == last.name);
                    assert(f[k1] == fd[k1]);
                    assert(entry_with_name(dl, p, fd[k1]));
                    let i = choose|i: int|
                        0 <= i < dl.len() && (#[trigger] dl[i]).name == fd[k1] && p(dl[i]);
                    assert(lex_lt(catalog_names(cv)[i], catalog_names(cv)[cv.len() - 1]));
                }
            }
            assert forall|k: int| 0 <= k < f.len() implies entry_with_name(
                cv,
                p,
                #[trigger] f[k],
            ) by {
                if k < fd.len() {
                    assert(entry_with_name(dl, p, fd[k]));
                    let i = choose|i: int|
                        0 <= i < dl.len() && (#[trigger] dl[i]).name == fd[k] && p(dl[i]);
                    assert(cv[i].name == f[k] && p(cv[i]));
                } else {
                    assert(cv[cv.len() - 1].name == f[k] && p(cv[cv.len() - 1]));
                }
            }
            assert forall|i: int| 0 <= i < cv.len() && p(#[trigger] cv[i]) implies f.contains(
                cv[i].name,
            ) by {
                if i < cv.len() - 1 {
                    assert(fd.contains(dl[i].name));
                    let k = choose|k: int| 0 <= k < fd.len() && fd[k] == dl[i].name;
                    assert(f[k] == cv[i].name);
                } else {
                    assert(f[f.len() - 1] == cv[i].name);
                }
            }
        } else {
            assert(f =~= fd);
            assert forall|i: int| 0 <= i < cv.len() && p(#[trigger] cv[i]) implies f.contains(
                cv[i].name,
            ) by {
                assert(i < cv.len() - 1);
                assert(fd.contains(dl[i].name));
                let k = choose|k: int| 0 <= k < fd.len() && fd[k] == dl[i].name;
                assert(f[k] == cv[i].name);
            }
            assert forall|k: int| 0 <= k < f.len() implies entry_with_name(
                cv,
                p,
                #[trigger] f[k],
            ) by {
                assert(entry_with_name(dl, p, fd[k]));
                let i = choose|i: int|
                    0 <= i < dl.len() && (#[trigger] dl[i]).name == fd[k] && p(dl[i]);
                assert(cv[i].name == f[k] && p(cv[i]));
            }
        }
    }
}

/// Law: no name is in both derived lists at once, and the Available,
/// Selected and hidden names together are exactly the catalog's names.
pub proof fn lemma_lists_partition(cv: Seq<TemplateView>)
    requires
        catalog_wf(cv),
    ensures
        forall|n: Seq<char>|
            !(#[trigger] spec_available(cv).contains(n) && spec_selected(cv).contains(n)),
        forall|n: Seq<char>|
            #[trigger] catalog_has(cv, n) <==> (spec_available(cv).contains(n) || spec_selected(
                cv,
            ).contains(n) || spec_hidden(cv).contains(n)),
{
    lemma_filtered_props(cv, available_pred());
    lemma_filtered_props(cv, selected_pred());
    lemma_filtered_props(cv, hidden_pred());
    assert forall|i: int, j: int|
        0 <= i < cv.len() && 0 <= j < cv.len() && i != j implies (#[trigger] cv[i]).name != (
    #[trigger] cv[j]).name by {
        if i < j {
            assert(lex_lt(catalog_names(cv)[i], catalog_names(cv)[j]));
            lemma_lex_lt_neq(cv[i].name, cv[j].name);
        } else {
            assert(lex_lt(catalog_names(cv)[j], catalog_names(cv)[i]));
            lemma_lex_lt_neq(cv[j].name, cv[i].name);
        }
    }
    assert forall|n: Seq<char>|
        !(#[trigger] spec_available(cv).contains(n) && spec_selected(cv).contains(n)) by {
        if spec_available(cv).contains(n) && spec_selected(cv).contains(n) {
            let ka = choose|k: int|
                0 <= k < spec_available(cv).len() && spec_available(cv)[k] == n;
            let ks = choose|k: int| 0 <= k < spec_selected(cv).len() && spec_selected(cv)[k] == n;
            assert(entry_with_name(cv, available_pred(), spec_available(cv)[ka]));
            assert(entry_with_name(cv, selected_pred(), spec_selected(cv)[ks]));
            let ia = choose|i: int|
                0 <= i < cv.len() && (#[trigger] cv[i]).name == n && available_pred()(cv[i]);
            let is_ = choose|i: int|
                0 <= i < cv.len() && (#[trigger] cv[i]).name == n && selected_pred()(cv[i]);
            assert(ia == is_);
        }
    }
    assert forall|n: Seq<char>|
        #[trigger] catalog_has(cv, n) <==> (spec_available(cv).contains(n) || spec_selected(
        cv,
    ).contains(n) || spec_hidden(cv).contains(n)) by {
        if catalog_has(cv, n) {
            let i = choose|i: int| 0 <= i < cv.len() && (#[trigger] cv[i]).name == n;
            if cv[i].selected {
                assert(selected_pred()(cv[i]));
                assert(spec_selected(cv).contains(n));
            } else if cv[i].hidden {
                assert(hidden_pred()(cv[i]));
                assert(spec_hidden(cv).contains(n));
            } else {
                assert(available_pred()(cv[i]));
                assert(spec_available(cv).contains(n));
            }
        }
        if spec_available(cv).contains(n) {
            let k = choose|k: int|
                0 <= k < spec_available(cv).len() && spec_available(cv)[k] == n;
            assert(entry_with_name(cv, available_pred(), spec_available(cv)[k]));
            assert(catalog_has(cv, n));
        }
        if spec_selected(cv).contains(n) {
            let k = choose|k: int| 0 <= k < spec_selected(cv).len() && spec_selected(cv)[k] == n;
            assert(entry_with_name(cv, selected_pred(), spec_selected(cv)[k]));
            assert(catalog_has(cv, n));
        }
        if spec_hidden(cv).contains(n) {
            let k = choose|k: int| 0 <= k < spec_hidden(cv).len() && spec_hidden(cv)[k] == n;
            assert(entry_with_name(cv, hidden_pred(), spec_hidden(cv)[k]));
            assert(catalog_has(cv, n));
        }
    }
}

/// Law: toggling the same template twice returns the catalog to its
/// original state, and so to its original list membership.
pub proof fn lemma_toggle_twice(cv: Seq<TemplateView>, name: Seq<char>)
    requires
        catalog_wf(cv),
        catalog_has(cv, name),
    ensures
        spec_toggle(spec_toggle(cv, name), name) == cv,
{
    lemma_index_of_has(cv, name);
    let i = spec_index_of(cv, name);
    let cv1 = spec_toggle(cv, name);
    assert(cv1[i].name == name);
    assert(catalog_has(cv1, name));
    assert forall|j: int| 0 <= j < i implies (#[trigger] cv1[j]).name != name by {
        assert(cv1[j] == cv[j]);
    }
    lemma_index_of_found(cv1, name, i);
    let cv2 = spec_toggle(cv1, name);
    assert(cv2 =~= cv);
}

/// After the sorted scan stopped at `i` without finding `name`, the name is
/// nowhere in the catalog.
proof fn lemma_absent_from_scan(cv: Seq<TemplateView>, name: Seq<char>, i: int)
    requires
        strict_sorted(catalog_names(cv)),
        0 <= i <= cv.len(),
        forall|j: int| 0 <= j < i ==> lex_lt((#[trigger] cv[j]).name, name),
        i < cv.len() ==> !lex_lt(cv[i].name, name),
        i < cv.len() ==> cv[i].name != name,
    ensures
        forall|j: int| 0 <= j < cv.len() ==> (#[trigger] cv[j]).name != name,
        !catalog_has(cv, name),
{
    assert forall|j: int| 0 <= j < cv.len() implies (#[trigger] cv[j]).name != name by {
        if j < i {
            lemma_lex_lt_neq(cv[j].name, name);
        } else if j > i {
            lemma_lex_lt_connected(cv[i as int].name, name);
            assert(lex_lt(name, cv[i as int].name));
            assert(lex_lt(catalog_names(cv)[i as int], catalog_names(cv)[j]));
            lemma_lex_lt_trans(name, cv[i as int].name, cv[j].name);
            lemma_lex_lt_neq(name, cv[j].name);
        }
    }
}

impl Catalog {
    pub fn new() -> (r: Catalog)
        ensures
            r@ == Seq::<TemplateView>::empty(),
            catalog_wf(r@),
    {
        let r = Catalog { entries: Vec::new() };
        proof {
            assert(r@ =~= Seq::<TemplateView>::empty());
        }
        r
    }

    pub fn len(&self) -> (r: usize)
        ensures
            r == self@.len(),
    {
        self.entries.len()
    }

    /// The index of the first entry whose name is not below `name`: where
    /// `name` sits if present, where it would go if not.
    fn scan_pos(&self, name: &String) -> (r: usize)
        requires
            catalog_wf(self@),
        ensures
            r <= self@.len(),
            forall|j: int| 0 <= j < r ==> lex_lt((#[trigger] self@[j]).name, name@),
            r < self@.len() ==> !lex_lt(self@[r as int].name, name@),
    {
        let mut i: usize = 0;
        while i < self.entries.len() && str_lt(self.entries[i].name.as_str(), name.as_str())
            invariant
                catalog_wf(self@),
                self@.len() == self.entries@.len(),
                i <= self@.len(),
                forall|j: int| 0 <= j < i ==> lex_lt((#[trigger] self@[j]).name, name@),
            decreases self@.len() - i,
        {
            i = i + 1;
        }
        i
    }

    /// True when the catalog holds an entry named `name`.
    pub fn has_name(&self, name: &String) -> (r: bool)
        requires
            catalog_wf(self@),
        ensures
            r == catalog_has(self@, name@),
    {
        let i = self.scan_pos(name);
        if i < self.entries.len() && self.entries[i].name == *name {
            proof {
                assert(self@[i as int].name == name@);
            }
            true
        } else {
            proof {
                lemma_absent_from_scan(self@, name@, i as int);
            }
            false
        }
    }

    /// Registers a name, visible and unselected; a name already present is
    /// left as it is.
    pub fn insert_name(&mut self, name: String)
        requires
            catalog_wf(old(self)@),
            catalog_has(old(self)@, name@) || old(self)@.len() < MAX_ITEMS,
        ensures
            final(self)@ == spec_insert(old(self)@, name@),
            catalog_wf(final(self)@),
    {
        let i = self.scan_pos(&name);
        if i < self.entries.len() && self.entries[i].name == name {
            proof {
                assert(self@[i as int].name == name@);
            }
        } else {
            proof {
                lemma_absent_from_scan(self@, name@, i as int);
                lemma_insert_pos_from_scan(self@, name@, i as int);
                lemma_insert_preserves_sorted(
                    self@,
                    TemplateView { name: name@, hidden: false, selected: false },
                );
            }
            self.entries.insert(i, TemplateEntry { name, hidden: false, selected: false });
            proof {
                assert(final(self)@ =~= spec_insert(old(self)@, name@));
            }
        }
    }

    /// Registers every name of a listing.
    pub fn insert_names(&mut self, names: &Vec<String>)
        requires
            catalog_wf(old(self)@),
            old(self)@.len() + names@.len() <= MAX_ITEMS,
        ensures
            final(self)@ == spec_insert_all(old(self)@, names.deep_view()),
            catalog_wf(final(self)@),
    {
        let ghost nv = names.deep_view();
        let mut i: usize = 0;
        proof {
            assert(nv.skip(0) =~= nv);
        }
        while i < names.len()
            invariant
                catalog_wf(self@),
                nv == names.deep_view(),
                nv.len() == names@.len(),
                i <= nv.len(),
                self@.len() <= old(self)@.len() + i,
                old(self)@.len() + nv.len() <= MAX_ITEMS,
                spec_insert_all(old(self)@, nv) == spec_insert_all(self@, nv.skip(i as int)),
            decreases nv.len() - i,
        {
            proof {
                assert(nv.skip(i as int).first() == nv[i as int]);
                assert(nv.skip(i as int).drop_first() =~= nv.skip(i + 1));
            }
            let ghost prev = self@;
            self.insert_name(names[i].clone());
            proof {
                if !catalog_has(prev, nv[i as int]) {
                    lemma_insert_pos_bounds(prev, nv[i as int]);
                    assert(self@.len() == prev.len() + 1);
                }
            }
            i = i + 1;
        }
        proof {
            assert(nv.skip(nv.len() as int) =~= Seq::<Seq<char>>::empty());
        }
    }

    /// Flips the selection flag of `name`; a name not yet in the catalog is
    /// registered selected.
    pub fn toggle(&mut self, name: String)
        requires
            catalog_wf(old(self)@),
            catalog_has(old(self)@, name@) || old(self)@.len() < MAX_ITEMS,
        ensures
            final(self)@ == spec_toggle(old(self)@, name@),
            catalog_wf(final(self)@),
    {
        let i = self.scan_pos(&name);
        if i < self.entries.len() && self.entries[i].name == name {
            proof {
                assert(self@[i as int].name == name@);
                assert forall|j: int| 0 <= j < i implies (#[trigger] self@[j]).name != name@ by {
                    lemma_lex_lt_neq(self@[j].name, name@);
                }
                lemma_index_of_found(self@, name@, i as int);
            }
            let was = self.entries[i].selected;
            self.entries[i].selected = !was;
            proof {
                assert(final(self)@ =~= spec_toggle(old(self)@, name@));
                assert forall|a: int, b: int|
                    0 <= a < b < final(self)@.len() implies lex_lt(
                    catalog_names(final(self)@)[a],
                    catalog_names(final(self)@)[b],
                ) by {
                    assert(lex_lt(catalog_names(old(self)@)[a], catalog_names(old(self)@)[b]));
                }
            }
        } else {
            proof {
                lemma_absent_from_scan(self@, name@, i as int);
                lemma_insert_pos_from_scan(self@, name@, i as int);
                lemma_insert_preserves_sorted(
                    self@,
                    TemplateView { name: name@, hidden: false, selected: true },
                );
            }
            self.entries.insert(i, TemplateEntry { name, hidden: false, selected: true });
            proof {
                assert(final(self)@ =~= spec_toggle(old(self)@, name@));
            }
        }
    }

    /// Recomputes every entry's visibility from the filter text: an entry
    /// stays visible exactly when its name contains the filter.
    pub fn apply_filter(&mut self, filter: &Vec<char>)
        requires
            catalog_wf(old(self)@),
        ensures
            final(self)@ == spec_apply_filter(old(self)@, filter@),
            catalog_wf(final(self)@),
    {
        let ghost target = spec_apply_filter(old(self)@, filter@);
        let mut i: usize = 0;
        while i < self.entries.len()
            invariant
                self@.len() == self.entries@.len(),
                self@.len() == old(self)@.len(),
                i <= self@.len(),
                forall|k: int| 0 <= k < i ==> self@[k] == target[k],
                forall|k: int| i <= k < self@.len() ==> self@[k] == old(self)@[k],
                target == spec_apply_filter(old(self)@, filter@),
            decreases self@.len() - i,
        {
            let visible = chars_match_name(filter, self.entries[i].name.as_str());
            self.entries[i].hidden = !visible;
            proof {
                assert(self@[i as int] =~= target[i as int]);
            }
            i = i + 1;
        }
        proof {
            assert(final(self)@ =~= target);
            assert forall|a: int, b: int|
                0 <= a < b < final(self)@.len() implies lex_lt(
                catalog_names(final(self)@)[a],
                catalog_names(final(self)@)[b],
            ) by {
                assert(lex_lt(catalog_names(old(self)@)[a], catalog_names(old(self)@)[b]));
            }
        }
    }

    /// The Available list: names neither hidden nor selected, sorted.
    pub fn available_templates(&self) -> (r: Vec<String>)
        ensures
            r.deep_view() == spec_available(self@),
    {
        let mut out: Vec<String> = Vec::new();
        let mut i: usize = 0;
        while i < self.entries.len()
            invariant
                self@.len() == self.entries@.len(),
                i <= self@.len(),
                out.deep_view() =~= spec_filtered_names(
                    self@.subrange(0, i as int),
                    available_pred(),
                ),
            decreases self@.len() - i,
        {
            proof {
                assert(self@.subrange(0, i + 1).drop_last() =~= self@.subrange(0, i as int));
                assert(self@.subrange(0, i + 1).last() == self@[i as int]);
            }
            if !self.entries[i].hidden && !self.entries[i].selected {
                proof {
                    assert(available_pred()(self@[i as int]));
                }
                out.push(self.entries[i].name.clone());
            } else {
                proof {
                    assert(!available_pred()(self@[i as int]));
                }
            }
            i = i + 1;
        }
        proof {
            assert(self@.subrange(0, self@.len() as int) =~= self@);
        }
        out
    }

    /// The Selected list: names with the selection flag set, sorted.
    pub fn selected_templates(&self) -> (r: Vec<String>)
        ensures
            r.deep_view() == spec_selected(self@),
    {
        let mut out: Vec<String> = Vec::new();
        let mut i: usize = 0;
        while i < self.entries.len()
            invariant
                self@.len() == self.entries@.len(),
                i <= self@.len(),
                out.deep_view() =~= spec_filtered_names(
                    self@.subrange(0, i as int),
                    selected_pred(),
                ),
            decreases self@.len() - i,
        {
            proof {
                assert(self@.subrange(0, i + 1).drop_last() =~= self@.subrange(0, i as int));
                assert(self@.subrange(0, i + 1).last() == self@[i as int]);
            }
            if self.entries[i].selected {
                proof {
                    assert(selected_pred()(self@[i as int]));
                }
                out.push(self.entries[i].name.clone());
            } else {
                proof {
                    assert(!selected_pred()(self@[i as int]));
                }
            }
            i = i + 1;
        }
        proof {
            assert(self@.subrange(0, self@.len() as int) =~= self@);
        }
        out
    }
}

} // verus!

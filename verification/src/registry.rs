//! Which themes there are. A theme is a directory below the themes' directory
//! that holds a script of its own name for all shells or one for each shell.
//! The themes are listed by name in dictionary order.

use vstd::prelude::*;
use vstd::relations::{sorted_by, total_ordering};
use vstd::seq_lib::{lemma_multiset_commutative, lemma_sorted_unique};
use crate::context::SkinnerApp;
use crate::error::{ErrorView, SkinnerError};
use crate::text::{
    comes_first,
    lemma_text_le_antisymmetric,
    lemma_text_le_total,
    lemma_text_le_transitive,
    text_le,
};

verus! {

/// What was found of one entry of the themes' directory.
#[derive(Debug, Clone, PartialEq, Eq)]
pub struct ThemeEntry {
    /// The entry's name, where it can be read as text.
    pub name: Option<String>,
    /// Whether the entry is a directory.
    pub is_dir: bool,
    /// Whether the directory holds the script that is run once for all shells.
    pub has_global: bool,
    /// Whether the directory holds the script that each shell sources.
    pub has_per_shell: bool,
}

/// A `ThemeEntry` with its name as a sequence of characters.
pub struct EntryView {
    pub name: Option<Seq<char>>,
    pub is_dir: bool,
    pub has_global: bool,
    pub has_per_shell: bool,
}

impl DeepView for ThemeEntry {
    type V = EntryView;

    open spec fn deep_view(&self) -> EntryView {
        EntryView {
            name: self.name.deep_view(),
            is_dir: self.is_dir,
            has_global: self.has_global,
            has_per_shell: self.has_per_shell,
        }
    }
}

impl View for ThemeEntry {
    type V = EntryView;

    open spec fn view(&self) -> EntryView {
        self.deep_view()
    }
}

/// What was found where the themes' directory should be.
#[derive(Debug, Clone, PartialEq, Eq)]
pub enum ScanResult {
    /// There is no such directory.
    Missing,
    /// The directory, or one of its entries, could not be read.
    Unreadable { detail: String },
    /// The entries of the directory, in the order in which they were met.
    Entries { entries: Vec<ThemeEntry> },
}

/// A `ScanResult` with its texts as sequences of characters.
pub enum ScanView {
    Missing,
    Unreadable { detail: Seq<char> },
    Entries { entries: Seq<EntryView> },
}

impl DeepView for ScanResult {
    type V = ScanView;

    open spec fn deep_view(&self) -> ScanView {
        match self {
            ScanResult::Missing => ScanView::Missing,
            ScanResult::Unreadable { detail } => ScanView::Unreadable { detail: detail@ },
            ScanResult::Entries { entries } => ScanView::Entries { entries: entries.deep_view() },
        }
    }
}

impl View for ScanResult {
    type V = ScanView;

    open spec fn view(&self) -> ScanView {
        self.deep_view()
    }
}

/// Whether an entry is a theme: a directory with a readable name that holds
/// at least one of the two scripts.
pub open spec fn is_theme(entry: EntryView) -> bool {
    entry.is_dir && entry.name is Some && (entry.has_per_shell || entry.has_global)
}

/// The name under which an entry is listed, if it is a theme.
pub open spec fn theme_name(entry: EntryView) -> Option<Seq<char>> {
    if is_theme(entry) {
        entry.name
    } else {
        None
    }
}

/// The names of the themes among `entries`, in the order of the entries.
pub open spec fn theme_names(entries: Seq<EntryView>) -> Seq<Seq<char>> {
    entries.filter_map(|entry: EntryView| theme_name(entry))
}

/// The dictionary order as a relation.
pub open spec fn dictionary() -> spec_fn(Seq<char>, Seq<char>) -> bool {
    |a: Seq<char>, b: Seq<char>| text_le(a, b)
}

/// The names of the themes among `entries`, in dictionary order.
pub open spec fn listed(entries: Seq<EntryView>) -> Seq<Seq<char>> {
    theme_names(entries).sort_by(dictionary())
}

/// What listing the themes ends in, given what was found where their
/// directory should be: no themes where there is no directory, a failure where
/// it cannot be read, and else the names of its themes in dictionary order.
pub open spec fn themes_of(scan: ScanView) -> Result<Seq<Seq<char>>, ErrorView> {
    match scan {
        ScanView::Missing => Ok(Seq::empty()),
        ScanView::Unreadable { detail } => Err(ErrorView::Io { detail }),
        ScanView::Entries { entries } => Ok(listed(entries)),
    }
}

/// The view of a result that holds names or a failure.
pub open spec fn names_result(result: Result<Vec<String>, SkinnerError>) -> Result<
    Seq<Seq<char>>,
    ErrorView,
> {
    match result {
        Ok(names) => Ok(names.deep_view()),
        Err(error) => Err(error@),
    }
}

/// The dictionary order is a total order.
pub proof fn lemma_dictionary_total_order()
    ensures
        total_ordering(dictionary()),
{
    let leq = dictionary();
    assert forall|a: Seq<char>| #[trigger] leq(a, a) by {
        lemma_text_le_total(a, a);
    }
    assert forall|a: Seq<char>, b: Seq<char>| #[trigger] leq(a, b) && #[trigger] leq(b, a) implies a
        == b by {
        lemma_text_le_antisymmetric(a, b);
    }
    assert forall|a: Seq<char>, b: Seq<char>, c: Seq<char>| #[trigger]
        leq(a, b) && #[trigger] leq(b, c) implies leq(a, c) by {
        lemma_text_le_transitive(a, b, c);
    }
    assert forall|a: Seq<char>, b: Seq<char>| #[trigger] leq(a, b) || #[trigger] leq(b, a) by {
        lemma_text_le_total(a, b);
    }
}

/// The list of themes is in dictionary order and holds the names of the
/// themes among the entries, each as often as it occurs there, and no other
/// name.
pub proof fn lemma_listed(entries: Seq<EntryView>)
    ensures
        sorted_by(listed(entries), dictionary()),
        listed(entries).to_multiset() == theme_names(entries).to_multiset(),
        listed(entries).len() == theme_names(entries).len(),
        forall|i: int, j: int|
            0 <= i < j < listed(entries).len() ==> text_le(
                #[trigger] listed(entries)[i],
                #[trigger] listed(entries)[j],
            ),
{
    lemma_dictionary_total_order();
    theme_names(entries).lemma_sort_by_ensures(dictionary());
    theme_names(entries).to_multiset_ensures();
    listed(entries).to_multiset_ensures();
    let names = listed(entries);
    assert forall|i: int, j: int| 0 <= i < j < names.len() implies text_le(
        #[trigger] names[i],
        #[trigger] names[j],
    ) by {
        assert(dictionary()(names[i], names[j]));
    }
}

/// The name of a theme among the entries is among the names of their themes.
proof fn lemma_theme_is_named(entries: Seq<EntryView>, at: int)
    requires
        0 <= at < entries.len(),
        is_theme(entries[at]),
    ensures
        theme_names(entries).contains(entries[at].name->0),
    decreases entries.len(),
{
    let pick = |entry: EntryView| theme_name(entry);
    let rest = entries.drop_last();
    let name = entries[at].name->0;
    if at == entries.len() - 1 {
        let named = rest.filter_map(pick) + seq![name];
        assert(named[named.len() - 1] == name);
    } else {
        lemma_theme_is_named(rest, at);
        let found = choose|k: int|
            0 <= k < theme_names(rest).len() && theme_names(rest)[k] == name;
        assert(theme_names(entries)[found] == name);
    }
}

/// A name is listed exactly if some entry is a theme of that name. So an
/// entry that is no directory, whose name is not text, or that holds neither
/// script puts nothing on the list.
pub proof fn lemma_listed_contains(entries: Seq<EntryView>, name: Seq<char>)
    ensures
        listed(entries).contains(name) <==> exists|i: int|
            0 <= i < entries.len() && is_theme(#[trigger] entries[i]) && entries[i].name == Some(
                name,
            ),
{
    lemma_listed(entries);
    theme_names(entries).to_multiset_ensures();
    listed(entries).to_multiset_ensures();
    let pick = |entry: EntryView| theme_name(entry);
    assert(listed(entries).contains(name) <==> listed(entries).to_multiset().count(name) > 0);
    assert(theme_names(entries).contains(name) <==> theme_names(entries).to_multiset().count(name)
        > 0);
    if theme_names(entries).contains(name) {
        entries.lemma_filter_map_contains(pick, name);
        let entry = choose|entry: EntryView| #[trigger]
            entries.contains(entry) && pick(entry) == Some(name);
        let i = choose|i: int| 0 <= i < entries.len() && entries[i] == entry;
        assert(is_theme(entries[i]) && entries[i].name == Some(name));
    }
    if exists|i: int|
        0 <= i < entries.len() && is_theme(#[trigger] entries[i]) && entries[i].name == Some(name) {
        let i = choose|i: int|
            0 <= i < entries.len() && is_theme(#[trigger] entries[i]) && entries[i].name == Some(
                name,
            );
        lemma_theme_is_named(entries, i);
    }
}

/// Putting `name` into `names` at `at` adds it to what `names` holds.
proof fn lemma_insert_adds(names: Seq<Seq<char>>, at: int, name: Seq<char>)
    requires
        0 <= at <= names.len(),
    ensures
        names.insert(at, name).to_multiset() == names.to_multiset().insert(name),
{
    let head = names.take(at);
    let tail = names.skip(at);
    assert(names =~= head + tail);
    assert(names.insert(at, name) =~= head.push(name) + tail);
    lemma_multiset_commutative(head, tail);
    lemma_multiset_commutative(head.push(name), tail);
    head.to_multiset_ensures();
    assert(head.push(name).to_multiset().add(tail.to_multiset()) =~= head.to_multiset().add(
        tail.to_multiset(),
    ).insert(name));
}

/// Puts `name` into `names`, which are in dictionary order, before the first
/// name that does not come before it.
fn insert_in_order(names: &mut Vec<String>, name: String)
    requires
        sorted_by(old(names).deep_view(), dictionary()),
    ensures
        sorted_by(final(names).deep_view(), dictionary()),
        final(names).deep_view().to_multiset() == old(names).deep_view().to_multiset().insert(
            name@,
        ),
{
    let ghost before = names.deep_view();
    let mut at: usize = 0;
    let mut found = false;
    while !found && at < names.len()
        invariant
            at <= names.len(),
            names.deep_view() == before,
            forall|k: int| 0 <= k < at ==> !text_le(name@, #[trigger] before[k]),
            found ==> at < names.len() && text_le(name@, before[at as int]),
        decreases names.len() - at + if found { 0nat } else { 1nat },
    {
        if comes_first(name.as_str(), names[at].as_str()) {
            found = true;
        } else {
            at = at + 1;
        }
    }
    let ghost text = name@;
    names.insert(at, name);
    proof {
        let after = names.deep_view();
        assert(after =~= before.insert(at as int, text));
        lemma_insert_adds(before, at as int, text);
        assert forall|i: int, j: int| 0 <= i < j < after.len() implies #[trigger] dictionary()(
            after[i],
            after[j],
        ) by {
            if j == at {
                lemma_text_le_total(text, before[i]);
            } else if i == at {
                if j - 1 > at {
                    assert(dictionary()(before[at as int], before[j - 1]));
                    lemma_text_le_transitive(text, before[at as int], before[j - 1]);
                }
            } else {
                let old_i = if i < at { i } else { i - 1 };
                let old_j = if j < at { j } else { j - 1 };
                assert(dictionary()(before[old_i], before[old_j]));
            }
        }
    }
}

/// The names of the themes among `entries`, in dictionary order.
pub fn themes_among(entries: &Vec<ThemeEntry>) -> (names: Vec<String>)
    ensures
        names.deep_view() == listed(entries.deep_view()),
{
    let ghost pick = |entry: EntryView| theme_name(entry);
    let mut names: Vec<String> = Vec::new();
    let mut seen: usize = 0;
    proof {
        names.deep_view().to_multiset_ensures();
        assert(entries.deep_view().take(0).filter_map(pick) =~= Seq::<Seq<char>>::empty());
        assert(names.deep_view() =~= Seq::<Seq<char>>::empty());
    }
    while seen < entries.len()
        invariant
            seen <= entries.len(),
            pick == |entry: EntryView| theme_name(entry),
            sorted_by(names.deep_view(), dictionary()),
            names.deep_view().to_multiset() == entries.deep_view().take(seen as int).filter_map(
                pick,
            ).to_multiset(),
        decreases entries.len() - seen,
    {
        let entry = &entries[seen];
        proof {
            let all = entries.deep_view();
            let prior = all.take(seen as int).filter_map(pick);
            assert(all.take(seen + 1).drop_last() =~= all.take(seen as int));
            assert(all.take(seen + 1).last() == entry.deep_view());
            prior.to_multiset_ensures();
            assert(all.take(seen + 1).filter_map(pick) == match theme_name(entry.deep_view()) {
                Some(name) => prior + seq![name],
                None => prior,
            });
            if theme_name(entry.deep_view()) is Some {
                let name = theme_name(entry.deep_view())->0;
                assert(prior + seq![name] =~= prior.push(name));
            }
        }
        if entry.is_dir && (entry.has_per_shell || entry.has_global) {
            match &entry.name {
                Some(name) => {
                    insert_in_order(&mut names, name.clone());
                },
                None => {},
            }
        }
        seen = seen + 1;
    }
    proof {
        let all = entries.deep_view();
        assert(all.take(seen as int) =~= all);
        lemma_listed(all);
        lemma_dictionary_total_order();
        lemma_sorted_unique(names.deep_view(), listed(all), dictionary());
    }
    names
}

impl SkinnerApp {
    /// The themes to list, given what was found where their directory should
    /// be: none where there is no directory, a failure where it cannot be
    /// read, and else the names of its themes in dictionary order.
    pub fn list_themes(&self, scan: ScanResult) -> (themes: Result<Vec<String>, SkinnerError>)
        ensures
            names_result(themes) == themes_of(scan@),
    {
        match scan {
            ScanResult::Missing => {
                let none: Vec<String> = Vec::new();
                assert(none.deep_view() =~= Seq::<Seq<char>>::empty());
                Ok(none)
            },
            ScanResult::Unreadable { detail } => Err(SkinnerError::Io { detail }),
            ScanResult::Entries { entries } => Ok(themes_among(&entries)),
        }
    }
}

} // verus!

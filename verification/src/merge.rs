//! How the merged list of a session comes about: the launchers are parted
//! into those whose rows are there at once and those whose rows are filled in
//! later, each launcher produces its rows, and the rows that take part in the
//! numbering of shortcuts are numbered.

use vstd::prelude::*;
use crate::launcher::{items_view, Launcher, ResultItem, ResultItemView};
use crate::row::{RowTable, SherlockRowView};
use crate::tiles::{no_patch, AsyncLauncherTile};

verus! {

/// The predicate "fills its rows in later".
pub open spec fn fills_in_later() -> spec_fn(Launcher) -> bool {
    |l: Launcher| l.is_async
}

/// The predicate "shows its rows at once".
pub open spec fn shows_at_once() -> spec_fn(Launcher) -> bool {
    |l: Launcher| !l.is_async
}

/// Parts the launchers into those that fill their rows in later and those
/// that show them at once. Each part keeps the order of the launchers.
pub fn partition(launchers: Vec<Launcher>) -> (r: (Vec<Launcher>, Vec<Launcher>))
    ensures
        r.0@ == launchers@.filter(fills_in_later()),
        r.1@ == launchers@.filter(shows_at_once()),
{
    let mut later: Vec<Launcher> = Vec::new();
    let mut at_once: Vec<Launcher> = Vec::new();
    for launcher in it: launchers.into_iter()
        invariant
            it.seq() == launchers@,
            later@ == launchers@.take(it.index() as int).filter(fills_in_later()),
            at_once@ == launchers@.take(it.index() as int).filter(shows_at_once()),
    {
        proof {
            let i = it.index() as int;
            let done = launchers@.take(i);
            assert(done.push(launcher) =~= launchers@.take(i + 1));
            done.lemma_filter_push(launcher, fills_in_later());
            done.lemma_filter_push(launcher, shows_at_once());
        }
        if launcher.is_async {
            later.push(launcher);
        } else {
            at_once.push(launcher);
        }
    }
    assert(launchers@.take(launchers@.len() as int) =~= launchers@);
    (later, at_once)
}

/// A way to part what some launchers produced into what the last of them
/// produced and what the others did: the table as the others left it, their
/// items, and the items of the last. Every such parting is one to consider.
pub open spec fn patch_split(
    mid: Seq<SherlockRowView>,
    head: Seq<ResultItemView>,
    tail: Seq<ResultItemView>,
) -> bool {
    true
}

/// A way to part what some loaders handed out into what the last of them
/// handed out and what the others did. Every such parting is one to consider.
pub open spec fn loader_split(
    mid: Seq<SherlockRowView>,
    head: Seq<(AsyncLauncherTile, ResultItem)>,
    r: Option<(AsyncLauncherTile, ResultItem)>,
) -> bool {
    true
}

/// Whether the launchers, each in its turn, made the table grow from `before`
/// to `after` and produced `items` between them, those of an earlier launcher
/// before those of a later one.
pub open spec fn patches_of(
    launchers: Seq<Launcher>,
    keyword: Seq<char>,
    before: Seq<SherlockRowView>,
    after: Seq<SherlockRowView>,
    items: Seq<ResultItemView>,
) -> bool
    decreases launchers.len(),
{
    if launchers.len() == 0 {
        no_patch(before, after, items)
    } else {
        exists|mid: Seq<SherlockRowView>, head: Seq<ResultItemView>, tail: Seq<ResultItemView>|
            #![trigger patch_split(mid, head, tail)]
            {
                &&& patch_split(mid, head, tail)
                &&& patches_of(launchers.drop_last(), keyword, before, mid, head)
                &&& launchers.last().patch_spec(keyword, mid, after, tail)
                &&& items == head + tail
            }
    }
}

/// The one pair of a loader that handed one out, and nothing else.
pub open spec fn loaded(r: Option<(AsyncLauncherTile, ResultItem)>) -> Seq<
    (AsyncLauncherTile, ResultItem),
> {
    match r {
        Some(pair) => seq![pair],
        None => Seq::empty(),
    }
}

/// Whether the launchers, each in its turn, made the table grow from `before`
/// to `after` and handed out `pairs` between them, each pair a tile with the
/// item of its row, in the order of the launchers.
pub open spec fn loaders_of(
    launchers: Seq<Launcher>,
    keyword: Seq<char>,
    before: Seq<SherlockRowView>,
    after: Seq<SherlockRowView>,
    pairs: Seq<(AsyncLauncherTile, ResultItem)>,
) -> bool
    decreases launchers.len(),
{
    if launchers.len() == 0 {
        after == before && pairs.len() == 0
    } else {
        exists|
            mid: Seq<SherlockRowView>,
            head: Seq<(AsyncLauncherTile, ResultItem)>,
            r: Option<(AsyncLauncherTile, ResultItem)>,
        |
            #![trigger loader_split(mid, head, r)]
            {
                &&& loader_split(mid, head, r)
                &&& loaders_of(launchers.drop_last(), keyword, before, mid, head)
                &&& launchers.last().loader_spec(keyword, mid, after, r)
                &&& pairs == head + loaded(r)
            }
    }
}

/// One more launcher's rows after those of the launchers before it.
pub proof fn lemma_patches_step(
    launchers: Seq<Launcher>,
    keyword: Seq<char>,
    before: Seq<SherlockRowView>,
    mid: Seq<SherlockRowView>,
    after: Seq<SherlockRowView>,
    head: Seq<ResultItemView>,
    tail: Seq<ResultItemView>,
)
    requires
        launchers.len() > 0,
        patches_of(launchers.drop_last(), keyword, before, mid, head),
        launchers.last().patch_spec(keyword, mid, after, tail),
    ensures
        patches_of(launchers, keyword, before, after, head + tail),
{
    assert(patch_split(mid, head, tail));
}

/// One more launcher's loader after those of the launchers before it.
pub proof fn lemma_loaders_step(
    launchers: Seq<Launcher>,
    keyword: Seq<char>,
    before: Seq<SherlockRowView>,
    mid: Seq<SherlockRowView>,
    after: Seq<SherlockRowView>,
    head: Seq<(AsyncLauncherTile, ResultItem)>,
    r: Option<(AsyncLauncherTile, ResultItem)>,
)
    requires
        launchers.len() > 0,
        loaders_of(launchers.drop_last(), keyword, before, mid, head),
        launchers.last().loader_spec(keyword, mid, after, r),
    ensures
        loaders_of(launchers, keyword, before, after, head + loaded(r)),
{
    assert(loader_split(mid, head, r));
}

/// The views of two lists of items, one after the other, are the views of the
/// one list after the other.
pub proof fn lemma_items_view_add(a: Seq<ResultItem>, b: Seq<ResultItem>)
    ensures
        items_view(a + b) == items_view(a) + items_view(b),
{
}

/// The rows that the launchers show at once for `keyword`, added to the
/// table launcher by launcher, with their items in the same order.
pub fn dispatch_sync(launchers: &Vec<Launcher>, keyword: &str, rows: &mut RowTable) -> (items: Vec<
    ResultItem,
>)
    ensures
        patches_of(launchers@, keyword@, old(rows)@, final(rows)@, items_view(items@)),
{
    let mut items: Vec<ResultItem> = Vec::new();
    let mut i: usize = 0;
    while i < launchers.len()
        invariant
            i <= launchers.len(),
            patches_of(launchers@.take(i as int), keyword@, old(rows)@, rows@, items_view(items@)),
        decreases launchers.len() - i,
    {
        let ghost mid = rows@;
        let ghost head = items@;
        let mut patch = launchers[i].get_patch(keyword, rows);
        let ghost tail = patch@;
        items.append(&mut patch);
        proof {
            let next = launchers@.take(i as int + 1);
            assert(next.drop_last() =~= launchers@.take(i as int));
            lemma_items_view_add(head, tail);
            lemma_patches_step(
                next,
                keyword@,
                old(rows)@,
                mid,
                rows@,
                items_view(head),
                items_view(tail),
            );
        }
        i += 1;
    }
    assert(launchers@.take(launchers.len() as int) =~= launchers@);
    items
}

/// The placeholder rows of the launchers that fill their rows in later, added
/// to the table launcher by launcher, each with the tile that fills it in.
pub fn dispatch_loaders(launchers: Vec<Launcher>, keyword: &str, rows: &mut RowTable) -> (pairs:
    Vec<(AsyncLauncherTile, ResultItem)>)
    ensures
        loaders_of(launchers@, keyword@, old(rows)@, final(rows)@, pairs@),
{
    let mut pairs: Vec<(AsyncLauncherTile, ResultItem)> = Vec::new();
    for launcher in it: launchers.into_iter()
        invariant
            it.seq() == launchers@,
            loaders_of(
                launchers@.take(it.index() as int),
                keyword@,
                old(rows)@,
                rows@,
                pairs@,
            ),
    {
        let ghost i = it.index() as int;
        let ghost mid = rows@;
        let ghost head = pairs@;
        let loader = launcher.get_loader_widget(keyword, rows);
        let ghost r = loader;
        match loader {
            Some(pair) => {
                pairs.push(pair);
            },
            None => {},
        }
        proof {
            let next = launchers@.take(i + 1);
            assert(next.drop_last() =~= launchers@.take(i));
            assert(pairs@ =~= head + loaded(r));
            lemma_loaders_step(next, keyword@, old(rows)@, mid, rows@, head, r);
        }
    }
    assert(launchers@.take(launchers@.len() as int) =~= launchers@);
    pairs
}

/// How many of the first `i` items have a place for a shortcut.
pub open spec fn holders_before(items: Seq<ResultItem>, i: int) -> nat
    decreases i,
{
    if i <= 0 {
        0
    } else {
        let before = holders_before(items, i - 1);
        if items[i - 1].shortcut_holder {
            before + 1
        } else {
            before
        }
    }
}

/// The number of the shortcut of the item at `i`: the items with a place for
/// a shortcut are numbered from one in the order of the list, and the numbers
/// end at five.
pub open spec fn shortcut_number(items: Seq<ResultItem>, i: int) -> Option<u8> {
    if items[i].shortcut_holder && holders_before(items, i) < 5 {
        Some((holders_before(items, i) + 1) as u8)
    } else {
        None
    }
}

/// The numbers of the shortcuts of the items, item by item.
pub fn assign_shortcuts(items: &Vec<ResultItem>) -> (numbers: Vec<Option<u8>>)
    ensures
        numbers@.len() == items@.len(),
        forall|i: int|
            0 <= i < items@.len() ==> #[trigger] numbers@[i] == shortcut_number(items@, i),
{
    let mut numbers: Vec<Option<u8>> = Vec::new();
    let mut next: u8 = 1;
    let mut i: usize = 0;
    while i < items.len()
        invariant
            i <= items.len(),
            numbers@.len() == i,
            1 <= next <= 6,
            next == if holders_before(items@, i as int) < 5 {
                holders_before(items@, i as int) + 1
            } else {
                6
            },
            forall|k: int| 0 <= k < i ==> #[trigger] numbers@[k] == shortcut_number(items@, k),
        decreases items.len() - i,
    {
        if items[i].shortcut_holder && next < 6 {
            numbers.push(Some(next));
            next += 1;
        } else {
            numbers.push(None);
        }
        i += 1;
    }
    numbers
}

} // verus!

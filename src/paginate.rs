//! Fetching a whole paged collection: pages of `PAGE_MAX` items are
//! requested at offsets `0, PAGE_MAX, 2 * PAGE_MAX, ...`, and the walk ends at
//! the first page that is strictly shorter than `PAGE_MAX`. A page of
//! `PAGE_MAX` items or more is always followed by one more request, even when
//! that one turns out empty.
//!
//! The cursor holds the walk; the caller performs each request it names and
//! hands the page back.
use vstd::prelude::*;

verus! {

/// The number of items asked for in each page.
pub const PAGE_MAX: i32 = 100;

/// The state of a walk through a paged collection.
#[derive(Debug)]
pub struct PageCursor<T> {
    /// Offset of the next page to request.
    pub offset: i32,
    /// Whether the walk has ended.
    pub done: bool,
    /// The items of the pages received so far, in order.
    pub items: Vec<T>,
}

/// The state of a walk: offset of the next request, whether the walk has
/// ended, the items gathered, and the number of pages taken.
pub struct Walk<T> {
    pub offset: int,
    pub done: bool,
    pub items: Seq<T>,
    pub calls: nat,
}

/// The walk after it took `page` (a walk that has ended takes nothing).
pub open spec fn step<T>(w: Walk<T>, page: Seq<T>) -> Walk<T> {
    if w.done {
        w
    } else if page.len() >= PAGE_MAX as int && w.offset + PAGE_MAX as int <= i32::MAX as int {
        Walk { offset: w.offset + PAGE_MAX as int, done: false, items: w.items + page, calls: w.calls + 1 }
    } else {
        Walk { offset: w.offset, done: true, items: w.items + page, calls: w.calls + 1 }
    }
}

/// The walk from a fresh cursor after it was handed `pages`, in order.
pub open spec fn walk<T>(pages: Seq<Seq<T>>) -> Walk<T>
    decreases pages.len(),
{
    if pages.len() == 0 {
        Walk { offset: 0, done: false, items: Seq::empty(), calls: 0 }
    } else {
        step(walk(pages.drop_last()), pages.last())
    }
}

/// The pages, concatenated in order.
pub open spec fn concat_pages<T>(pages: Seq<Seq<T>>) -> Seq<T>
    decreases pages.len(),
{
    if pages.len() == 0 {
        Seq::empty()
    } else {
        concat_pages(pages.drop_last()) + pages.last()
    }
}

/// A walk that is handed `k` pages of at least `PAGE_MAX` items and then a
/// shorter one takes
/// exactly those `k + 1` pages, requesting them at offsets `0, PAGE_MAX, ...`,
/// and gathers their items in order; it ends there, whatever follows.
pub proof fn lemma_walk_ends_at_short_page<T>(pages: Seq<Seq<T>>, k: int)
    requires
        0 <= k < pages.len(),
        forall|i: int| 0 <= i < k ==> (#[trigger] pages[i]).len() >= PAGE_MAX as int,
        pages[k].len() < PAGE_MAX as int,
        k * PAGE_MAX as int <= i32::MAX as int,
    ensures
        walk(pages) == (Walk {
            offset: k * PAGE_MAX as int,
            done: true,
            items: concat_pages(pages.take(k + 1)),
            calls: (k + 1) as nat,
        }),
        forall|j: int|
            0 <= j <= k ==> (#[trigger] walk(pages.take(j))).offset == j * PAGE_MAX as int
                && !walk(pages.take(j)).done,
{
    assert forall|j: int| 0 <= j <= k implies (#[trigger] walk(pages.take(j))).offset == j
        * PAGE_MAX as int && !walk(pages.take(j)).done && walk(pages.take(j)).items == concat_pages(
        pages.take(j),
    ) && walk(pages.take(j)).calls == j by {
        lemma_walk_full_prefix(pages, k, j);
    }
    lemma_walk_full_prefix(pages, k, k);
    assert(pages.take(k + 1).drop_last() =~= pages.take(k));
    assert(pages.take(k + 1).last() == pages[k]);
    assert(concat_pages(pages.take(k + 1)) == concat_pages(pages.take(k)) + pages[k]);
    lemma_walk_stays_done(pages, k + 1);
}

proof fn lemma_walk_full_prefix<T>(pages: Seq<Seq<T>>, k: int, j: int)
    requires
        0 <= j <= k < pages.len(),
        forall|i: int| 0 <= i < k ==> (#[trigger] pages[i]).len() >= PAGE_MAX as int,
        k * PAGE_MAX as int <= i32::MAX as int,
    ensures
        walk(pages.take(j)) == (Walk {
            offset: j * PAGE_MAX as int,
            done: false,
            items: concat_pages(pages.take(j)),
            calls: j as nat,
        }),
    decreases j,
{
    if j == 0 {
        assert(pages.take(0) =~= Seq::<Seq<T>>::empty());
    } else {
        lemma_walk_full_prefix(pages, k, j - 1);
        assert(pages.take(j).drop_last() =~= pages.take(j - 1));
        assert(pages.take(j).last() == pages[j - 1]);
        assert(j * PAGE_MAX as int <= k * PAGE_MAX as int) by (nonlinear_arith)
            requires
                j <= k,
        ;
    }
}

proof fn lemma_walk_stays_done<T>(pages: Seq<Seq<T>>, n: int)
    requires
        0 < n <= pages.len(),
        walk(pages.take(n)).done,
    ensures
        walk(pages) == walk(pages.take(n)),
    decreases pages.len() - n,
{
    if n < pages.len() {
        assert(pages.take(n + 1).drop_last() =~= pages.take(n));
        lemma_walk_stays_done(pages, n + 1);
    } else {
        assert(pages.take(n) =~= pages);
    }
}

impl<T> PageCursor<T> {
    /// The walk that the cursor is in.
    pub open spec fn view(&self) -> Walk<T> {
        Walk { offset: self.offset as int, done: self.done, items: self.items@, calls: 0 }
    }

    pub open spec fn wf(&self) -> bool {
        0 <= self.offset && self.offset as int % PAGE_MAX as int == 0
    }

    /// A walk that has requested nothing yet.
    pub fn new() -> (r: Self)
        ensures
            r.wf(),
            r.offset == 0,
            !r.done,
            r.items@.len() == 0,
    {
        PageCursor { offset: 0, done: false, items: Vec::new() }
    }

    /// The request to perform next, as (offset, page size); `None` once the walk has ended.
    pub fn next_page(&self) -> (r: Option<(i32, i32)>)
        ensures
            self.done ==> r is None,
            !self.done ==> r == Some((self.offset, PAGE_MAX)),
    {
        if self.done {
            None
        } else {
            Some((self.offset, PAGE_MAX))
        }
    }

    /// Takes the page returned for the request that `next_page` named: its
    /// items are appended; a page of `PAGE_MAX` items or more moves the offset
    /// on by `PAGE_MAX`, a shorter one ends the walk. The walk also ends at
    /// such a page when the
    /// next offset could not be expressed.
    pub fn accept(&mut self, page: Vec<T>)
        requires
            old(self).wf(),
            !old(self).done,
        ensures
            final(self).wf(),
            final(self).items@ == old(self).items@ + page@,
            final(self).view() == (Walk { calls: 0, ..step(old(self).view(), page@) }),
            if page@.len() >= PAGE_MAX as int && old(self).offset as int + PAGE_MAX as int
                <= i32::MAX as int {
                !final(self).done && final(self).offset == old(self).offset + PAGE_MAX
            } else {
                final(self).done && final(self).offset == old(self).offset
            },
    {
        let full = page.len() >= PAGE_MAX as usize;
        let mut page = page;
        self.items.append(&mut page);
        if full && self.offset <= i32::MAX - PAGE_MAX {
            self.offset = self.offset + PAGE_MAX;
        } else {
            self.done = true;
        }
    }

    /// Whether the walk has ended.
    pub fn is_done(&self) -> (r: bool)
        ensures
            r == self.done,
    {
        self.done
    }

    /// The items gathered by the walk.
    pub fn into_items(self) -> (r: Vec<T>)
        ensures
            r@ == self.items@,
    {
        self.items
    }
}

} // verus!

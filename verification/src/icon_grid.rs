use vstd::prelude::*;
use vstd::arithmetic::div_mod::*;
use vstd::arithmetic::mul::*;
use core::ops::Range;

verus! {

/// What an icon slot of the app grid shows.
#[derive(Clone, Copy, PartialEq, Eq, Debug)]
pub enum IconSlot {
    /// Nothing: the page has fewer apps than slots.
    Empty,
    /// The "Add game" button, in the first slot of the first page.
    AddGame,
    /// The app with this index in the app list.
    App(usize),
}

/// Slots on a page, never fewer than one.
pub open spec fn page_capacity(total_slots: int) -> int {
    if total_slots > 1 {
        total_slots
    } else {
        1
    }
}

/// Apps on the first page: one slot there holds the "Add game" button, but
/// the page always takes at least one app.
pub open spec fn first_page_capacity(total_slots: int) -> int {
    if page_capacity(total_slots) > 1 {
        page_capacity(total_slots) - 1
    } else {
        1
    }
}

/// Index of the first app on page `k` when pages are filled in order.
pub open spec fn page_start(total_slots: int, k: int) -> int {
    if k <= 0 {
        0
    } else {
        first_page_capacity(total_slots) + (k - 1) * page_capacity(total_slots)
    }
}

/// Apps on page `k`.
pub open spec fn capacity_of_page(total_slots: int, k: int) -> int {
    if k == 0 {
        first_page_capacity(total_slots)
    } else {
        page_capacity(total_slots)
    }
}

/// Page `k` holds the apps from `page_start(k)` up to the start of page
/// `k + 1`, or to the end of the list when that comes first.
pub open spec fn is_page_at(page: Range<usize>, total_slots: int, app_count: int, k: int) -> bool {
    &&& page.start == page_start(total_slots, k)
    &&& page.end == if page_start(total_slots, k + 1) < app_count {
        page_start(total_slots, k + 1)
    } else {
        app_count
    }
}

/// `pages` is the paging of `app_count` apps into pages of `total_slots`
/// slots: page `k` holds the apps from `page_start(k)` up to the next page's
/// start or the end of the list, and there are just enough pages to hold
/// every app (one empty page when there are none).
pub open spec fn is_page_layout(pages: Seq<Range<usize>>, total_slots: int, app_count: int) -> bool {
    &&& pages.len() >= 1
    &&& page_start(total_slots, pages.len() as int) >= app_count
    &&& (pages.len() == 1 || page_start(total_slots, pages.len() - 1) < app_count)
    &&& forall|k: int|
        0 <= k < pages.len() ==> #[trigger] is_page_at(pages[k], total_slots, app_count, k)
}

/// The start of each page is the start of the one before plus its capacity.
pub proof fn lemma_page_start_step(total_slots: int, k: int)
    requires
        k >= 0,
    ensures
        page_start(total_slots, k + 1) == page_start(total_slots, k) + capacity_of_page(
            total_slots,
            k,
        ),
{
    lemma_mul_basics(page_capacity(total_slots));
    if k > 0 {
        lemma_mul_is_distributive_add_other_way(page_capacity(total_slots), k - 1, 1);
    }
}

/// Page starts grow strictly with the page number.
pub proof fn lemma_page_start_increasing(total_slots: int, j: int, k: int)
    requires
        0 <= j < k,
    ensures
        page_start(total_slots, j) < page_start(total_slots, k),
        page_start(total_slots, j + 1) <= page_start(total_slots, k),
    decreases k - j,
{
    lemma_page_start_step(total_slots, j);
    if j + 1 < k {
        lemma_page_start_increasing(total_slots, j + 1, k);
    }
}

/// Splits `total_app_count` apps into pages of `total_slots` icon slots. The
/// first page gives one slot to the "Add game" button; a single empty page is
/// returned when there are no apps.
pub fn compute_pages(total_slots: usize, total_app_count: usize) -> (pages: Vec<Range<usize>>)
    ensures
        is_page_layout(pages@, total_slots as int, total_app_count as int),
{
    let capacity = if total_slots > 1 {
        total_slots
    } else {
        1
    };
    let ghost ts = total_slots as int;
    let ghost n = total_app_count as int;
    let mut pages: Vec<Range<usize>> = Vec::new();
    if total_app_count == 0 {
        pages.push(0..0);
        return pages;
    }
    let mut start: usize = 0;
    while start < total_app_count
        invariant
            capacity as int == page_capacity(ts),
            n == total_app_count as int,
            n > 0,
            start as int <= n,
            start as int == if page_start(ts, pages@.len() as int) < n {
                page_start(ts, pages@.len() as int)
            } else {
                n
            },
            pages@.len() == 0 || page_start(ts, pages@.len() - 1) < n,
            forall|k: int| 0 <= k < pages@.len() ==> #[trigger] is_page_at(pages@[k], ts, n, k),
        decreases total_app_count - start,
    {
        let ghost count = pages@.len() as int;
        proof {
            lemma_page_start_step(ts, count);
        }
        let page_cap = if pages.len() == 0 {
            if capacity > 1 {
                capacity - 1
            } else {
                1
            }
        } else {
            capacity
        };
        let end = if page_cap >= total_app_count - start {
            total_app_count
        } else {
            start + page_cap
        };
        let ghost before = pages@;
        pages.push(start..end);
        proof {
            assert(pages@[count].start == start && pages@[count].end == end);
            assert(page_cap as int == capacity_of_page(ts, count));
            assert(start as int == page_start(ts, count));
            assert(end as int == if page_start(ts, count + 1) < n { page_start(ts, count + 1) } else { n });
            assert forall|j: int| 0 <= j < pages@.len() implies #[trigger] is_page_at(
                pages@[j],
                ts,
                n,
                j,
            ) by {
                if j < count {
                    assert(pages@[j] == before[j]);
                }
            }
        }
        start = end;
    }
    proof {
        let len = pages@.len() as int;
        if len > 1 {
            lemma_page_start_increasing(ts, len - 1, len);
        }
    }
    pages
}

/// What slot `slot` of page `page` shows: the "Add game" button first, then
/// the page's apps in order, then nothing.
pub open spec fn slot_content(pages: Seq<Range<usize>>, page: int, slot: int) -> IconSlot {
    if page == 0 && slot == 0 {
        IconSlot::AddGame
    } else {
        let app_slot = if page == 0 {
            slot - 1
        } else {
            slot
        };
        let index = pages[page].start + app_slot;
        if index < pages[page].end {
            IconSlot::App(index as usize)
        } else {
            IconSlot::Empty
        }
    }
}

/// `contents` lists what every slot of every page shows, page by page.
pub open spec fn is_slot_layout(
    pages: Seq<Range<usize>>,
    slots_per_page: int,
    contents: Seq<IconSlot>,
) -> bool {
    &&& contents.len() == pages.len() * slots_per_page
    &&& forall|i: int|
        0 <= i < contents.len() ==> #[trigger] contents[i] == slot_content(
            pages,
            i / slots_per_page,
            i % slots_per_page,
        )
}

proof fn lemma_slot_position(i: int, s: int, page: int, slot: int)
    requires
        s > 0,
        0 <= slot < s,
        page >= 0,
        i == page * s + slot,
    ensures
        i / s == page,
        i % s == slot,
{
    lemma_fundamental_div_mod_converse(i, s, page, slot);
}

/// What every icon slot shows, page by page, for the given paging.
pub fn icon_slot_contents(pages: &Vec<Range<usize>>, slots_per_page: usize) -> (contents: Vec<
    IconSlot,
>)
    requires
        pages@.len() * slots_per_page <= usize::MAX,
    ensures
        is_slot_layout(pages@, slots_per_page as int, contents@),
{
    let mut contents: Vec<IconSlot> = Vec::new();
    let ghost s = slots_per_page as int;
    let mut page: usize = 0;
    while page < pages.len()
        invariant
            s == slots_per_page as int,
            pages@.len() * s <= usize::MAX,
            page <= pages@.len(),
            contents@.len() == page * s,
            forall|i: int|
                0 <= i < contents@.len() ==> #[trigger] contents@[i] == slot_content(
                    pages@,
                    i / s,
                    i % s,
                ),
        decreases pages@.len() - page,
    {
        let range_start = pages[page].start;
        let range_end = pages[page].end;
        let mut slot: usize = 0;
        while slot < slots_per_page
            invariant
                s == slots_per_page as int,
                pages@.len() * s <= usize::MAX,
                page < pages@.len(),
                range_start == pages@[page as int].start,
                range_end == pages@[page as int].end,
                slot <= slots_per_page,
                contents@.len() == page * s + slot,
                forall|i: int|
                    0 <= i < contents@.len() ==> #[trigger] contents@[i] == slot_content(
                        pages@,
                        i / s,
                        i % s,
                    ),
            decreases slots_per_page - slot,
        {
            let content = if page == 0 && slot == 0 {
                IconSlot::AddGame
            } else {
                let app_slot = if page == 0 {
                    slot - 1
                } else {
                    slot
                };
                match range_start.checked_add(app_slot) {
                    Some(index) => if index < range_end {
                        IconSlot::App(index)
                    } else {
                        IconSlot::Empty
                    },
                    None => IconSlot::Empty,
                }
            };
            proof {
                lemma_slot_position(page * s + slot, s, page as int, slot as int);
            }
            contents.push(content);
            slot = slot + 1;
        }
        proof {
            lemma_mul_is_distributive_add_other_way(s, page as int, 1);
            lemma_mul_inequality(page as int + 1, pages@.len() as int, s);
        }
        page = page + 1;
    }
    contents
}

/// A page index clamped to the pages that exist (page 0 when there are none).
pub fn clamp_page_index(page: usize, page_count: usize) -> (r: usize)
    ensures
        r == if page_count == 0 {
            0
        } else if page < page_count {
            page as int
        } else {
            page_count - 1
        },
{
    let last = if page_count > 0 {
        page_count - 1
    } else {
        0
    };
    if page < last {
        page
    } else {
        last
    }
}


/// The page that holds app `i`: the first page for the apps that fit beside
/// the "Add game" button, and after that one page per `page_capacity` apps.
pub open spec fn page_of_app(total_slots: int, i: int) -> int {
    if i < first_page_capacity(total_slots) {
        0
    } else {
        1 + (i - first_page_capacity(total_slots)) / page_capacity(total_slots)
    }
}

/// The slot on its page that shows app `i`.
pub open spec fn slot_of_app(total_slots: int, i: int) -> int {
    if i < first_page_capacity(total_slots) {
        i + 1
    } else {
        (i - first_page_capacity(total_slots)) % page_capacity(total_slots)
    }
}

proof fn lemma_app_on_its_page(total_slots: int, i: int)
    requires
        total_slots >= 2,
        i >= 0,
    ensures
        0 <= page_of_app(total_slots, i),
        0 <= slot_of_app(total_slots, i) < total_slots,
        page_start(total_slots, page_of_app(total_slots, i)) <= i,
        i < page_start(total_slots, page_of_app(total_slots, i) + 1),
        page_of_app(total_slots, i) == 0 ==> slot_of_app(total_slots, i) == i + 1,
        page_of_app(total_slots, i) > 0 ==> page_start(total_slots, page_of_app(total_slots, i))
            + slot_of_app(total_slots, i) == i,
{
    let first = first_page_capacity(total_slots);
    let cap = page_capacity(total_slots);
    let k = page_of_app(total_slots, i);
    lemma_page_start_step(total_slots, k);
    if i >= first {
        let q = (i - first) / cap;
        let r = (i - first) % cap;
        lemma_fundamental_div_mod(i - first, cap);
        lemma_mod_bound(i - first, cap);
        lemma_div_pos_is_pos(i - first, cap);
        lemma_mul_is_commutative(cap, q);
        assert(page_start(total_slots, k) == first + q * cap);
    }
}

proof fn lemma_unique_page(total_slots: int, i: int, p1: int, p2: int)
    requires
        0 <= p1,
        0 <= p2,
        page_start(total_slots, p1) <= i < page_start(total_slots, p1 + 1),
        page_start(total_slots, p2) <= i < page_start(total_slots, p2 + 1),
    ensures
        p1 == p2,
{
    if p1 < p2 {
        lemma_page_start_increasing(total_slots, p1, p2);
    } else if p2 < p1 {
        lemma_page_start_increasing(total_slots, p2, p1);
    }
}

/// Some slot of `contents` shows app `i`.
pub open spec fn shows_app(contents: Seq<IconSlot>, i: int) -> bool {
    exists|j: int| 0 <= j < contents.len() && contents[j] == IconSlot::App(i as usize)
}

/// With at least two slots per page, the grid built from `compute_pages`
/// and `icon_slot_contents` shows the "Add game" button exactly once (in the
/// first slot), shows every app of the list exactly once, and shows no app
/// that is not in the list.
pub proof fn lemma_every_app_shown_once(
    pages: Seq<Range<usize>>,
    slots_per_page: int,
    app_count: int,
    contents: Seq<IconSlot>,
)
    requires
        slots_per_page >= 2,
        0 <= app_count <= usize::MAX,
        is_page_layout(pages, slots_per_page, app_count),
        is_slot_layout(pages, slots_per_page, contents),
    ensures
        contents[0] == IconSlot::AddGame,
        forall|j: int| 0 < j < contents.len() ==> contents[j] != IconSlot::AddGame,
        forall|j: int|
            0 <= j < contents.len() && (#[trigger] contents[j]) is App ==> contents[j]->0
                < app_count,
        forall|i: int| 0 <= i < app_count ==> #[trigger] shows_app(contents, i),
        forall|j1: int, j2: int|
            0 <= j1 < contents.len() && 0 <= j2 < contents.len() && (#[trigger] contents[j1]) is App
                && contents[j1] == #[trigger] contents[j2] ==> j1 == j2,
{
    let s = slots_per_page;
    let len = pages.len() as int;
    lemma_mul_inequality(1, len, s);
    lemma_mul_is_commutative(len, s);
    lemma_mul_basics(s);
    assert(contents.len() >= s);
    lemma_small_mod(0, s as nat);
    lemma_basic_div(0, s);
    assert(contents[0] == slot_content(pages, 0, 0));
    assert forall|j: int| 0 < j < contents.len() implies contents[j] != IconSlot::AddGame by {
        lemma_fundamental_div_mod(j, s);
        lemma_div_pos_is_pos(j, s);
        lemma_mod_bound(j, s);
        if j / s == 0 {
            lemma_mul_basics(s);
        }
    }
    assert forall|j: int|
        0 <= j < contents.len() && (#[trigger] contents[j]) is App implies contents[j]->0
            < app_count by {
        lemma_div_pos_is_pos(j, s);
        let p = j / s;
        assert(0 <= p < len) by {
            lemma_div_strictly_bounded_by(j, len, s);
        }
        assert(is_page_at(pages[p], s, app_count, p));
    }
    assert forall|i: int| 0 <= i < app_count implies #[trigger] shows_app(contents, i) by {
        lemma_app_on_its_page(s, i);
        let k = page_of_app(s, i);
        let slot = slot_of_app(s, i);
        if k >= len {
            if k > len {
                lemma_page_start_increasing(s, len, k);
            }
            assert(false);
        }
        assert(is_page_at(pages[k], s, app_count, k));
        let j = k * s + slot;
        lemma_slot_position(j, s, k, slot);
        lemma_mul_is_distributive_add_other_way(s, k, 1);
        lemma_mul_inequality(k + 1, len, s);
        assert(j < contents.len());
        assert(contents[j] == slot_content(pages, k, slot));
        assert(contents[j] == IconSlot::App(i as usize));
    }
    assert forall|j1: int, j2: int|
        0 <= j1 < contents.len() && 0 <= j2 < contents.len() && (#[trigger] contents[j1]) is App
            && contents[j1] == #[trigger] contents[j2] implies j1 == j2 by {
        let i = contents[j1]->0 as int;
        let p1 = j1 / s;
        let p2 = j2 / s;
        lemma_fundamental_div_mod(j1, s);
        lemma_fundamental_div_mod(j2, s);
        lemma_div_pos_is_pos(j1, s);
        lemma_div_pos_is_pos(j2, s);
        lemma_mod_bound(j1, s);
        lemma_mod_bound(j2, s);
        lemma_mul_is_commutative(len, s);
        lemma_div_strictly_bounded_by(j1, len, s);
        lemma_div_strictly_bounded_by(j2, len, s);
        assert(is_page_at(pages[p1], s, app_count, p1));
        assert(is_page_at(pages[p2], s, app_count, p2));
        lemma_page_start_step(s, p1);
        lemma_page_start_step(s, p2);
        lemma_unique_page(s, i, p1, p2);
    }
}

/// `j < len * s` puts `j / s` below `len`.
proof fn lemma_div_strictly_bounded_by(j: int, len: int, s: int)
    requires
        s > 0,
        0 <= j < len * s,
    ensures
        j / s < len,
{
    lemma_fundamental_div_mod(j, s);
    lemma_mod_bound(j, s);
    if j / s >= len {
        lemma_mul_inequality(len, j / s, s);
        lemma_mul_is_commutative(j / s, s);
    }
}

} // verus!

//! Playlist files: playlists written by hand as TOML next to the videos.
use vstd::prelude::*;
use crate::date::{Date, lemma_date_view_injective, option_date_before_or_same, option_date_le};
use crate::model::playlist::{UpsertPlaylist, UpsertPlaylistItem};

verus! {

/// How the entries of a playlist file are ordered.
#[derive(Debug, Clone, Copy, PartialEq, Eq, Structural)]
pub enum PlaylistFileOrder {
    /// As they stand in the file.
    Order,
    /// By the publication date of their videos, earliest first.
    Date,
}

impl Default for PlaylistFileOrder {
    /// Entries keep the order of the file unless the file says otherwise.
    fn default() -> (res: Self)
        ensures
            res == PlaylistFileOrder::Order,
    {
        PlaylistFileOrder::Order
    }
}

/// An entry of a playlist file: a video id and, possibly, its date.
#[derive(Debug)]
pub struct PlaylistFileItem {
    pub id: String,
    pub date: Option<Date>,
}

/// A playlist file.
#[derive(Debug)]
pub struct PlaylistFile {
    pub title: String,
    pub slug: String,
    pub order: PlaylistFileOrder,
    pub items: Vec<PlaylistFileItem>,
}

/// Whether the entries come in date order, entries without a date first.
pub open spec fn sorted_by_date(items: Seq<PlaylistFileItem>) -> bool {
    forall|i: int, j: int|
        0 <= i < j < items.len() ==> option_date_le(#[trigger] items[i].date, #[trigger] items[j].date)
}

/// Whether an entry has the date `d`.
pub open spec fn has_date(d: Option<Date>) -> spec_fn(PlaylistFileItem) -> bool {
    |x: PlaylistFileItem| x.date == d
}

/// The entries after each takes the publication date found for its video,
/// where one was found.
pub open spec fn with_found_dates(
    items: Seq<PlaylistFileItem>,
    found: Seq<Option<Date>>,
) -> Seq<PlaylistFileItem> {
    Seq::new(
        items.len(),
        |i: int|
            PlaylistFileItem {
                id: items[i].id,
                date: match found[i] {
                    Some(d) => Some(d),
                    None => items[i].date,
                },
            },
    )
}

/// Inserting an entry after all that come no later and before all that come
/// later keeps the entries in date order, and puts it last among those with
/// its date.
proof fn lemma_insert_in_order(r: Seq<PlaylistFileItem>, pos: int, y: PlaylistFileItem)
    requires
        sorted_by_date(r),
        0 <= pos <= r.len(),
        forall|j: int| 0 <= j < pos ==> option_date_le(#[trigger] r[j].date, y.date),
        forall|j: int| pos <= j < r.len() ==> !option_date_le(#[trigger] r[j].date, y.date),
    ensures
        sorted_by_date(r.insert(pos, y)),
        forall|d: Option<Date>|
            #[trigger] r.insert(pos, y).filter(has_date(d)) == if d == y.date {
                r.filter(has_date(d)).push(y)
            } else {
                r.filter(has_date(d))
            },
{
    broadcast use vstd::seq_lib::group_seq_properties;

    let r2 = r.insert(pos, y);
    assert forall|i: int, j: int| 0 <= i < j < r2.len() implies option_date_le(
        #[trigger] r2[i].date,
        #[trigger] r2[j].date,
    ) by {
        if j < pos {
            assert(r2[i] == r[i] && r2[j] == r[j]);
        } else if j == pos {
            assert(r2[i] == r[i]);
        } else if i < pos {
            assert(r2[i] == r[i] && r2[j] == r[j - 1]);
        } else if i == pos {
            assert(r2[j] == r[j - 1]);
        } else {
            assert(r2[i] == r[i - 1] && r2[j] == r[j - 1]);
        }
    }
    let front = r.take(pos);
    let back = r.skip(pos);
    assert(r =~= front + back);
    assert(r2 =~= front + seq![y] + back);
    assert forall|d: Option<Date>| #[trigger] r2.filter(has_date(d)) == if d == y.date {
        r.filter(has_date(d)).push(y)
    } else {
        r.filter(has_date(d))
    } by {
        let p = has_date(d);
        Seq::filter_distributes_over_add(front + seq![y], back, p);
        Seq::filter_distributes_over_add(front, seq![y], p);
        Seq::filter_distributes_over_add(front, back, p);
        reveal_with_fuel(Seq::filter, 2);
        assert(seq![y].drop_last() =~= Seq::<PlaylistFileItem>::empty());
        if d == y.date {
            assert forall|j: int| 0 <= j < back.len() implies !p(#[trigger] back[j]) by {
                assert(back[j] == r[pos + j]);
            }
            assert(back.all(|x: PlaylistFileItem| !p(x)));
            back.lemma_all_neg_filter_empty(p);
            assert(back.filter(p) =~= Seq::<PlaylistFileItem>::empty());
            assert(seq![y].filter(p) =~= seq![y]);
        } else {
            assert(seq![y].filter(p) =~= Seq::<PlaylistFileItem>::empty());
        }
    }
}

/// Keeping only the entries that pass a test keeps every copy of an entry
/// that passes it.
proof fn lemma_filter_keeps_count(s: Seq<PlaylistFileItem>, p: spec_fn(PlaylistFileItem) -> bool, x: PlaylistFileItem)
    requires
        p(x),
    ensures
        s.filter(p).to_multiset().count(x) == s.to_multiset().count(x),
    decreases s.len(),
{
    broadcast use vstd::seq_lib::group_to_multiset_ensures;

    if s.len() == 0 {
        reveal_with_fuel(Seq::filter, 1);
        assert(s.filter(p) =~= s);
    } else {
        let rest = s.drop_last();
        let y = s.last();
        lemma_filter_keeps_count(rest, p, x);
        assert(rest.push(y) =~= s);
        rest.lemma_filter_push(y, p);
    }
}

/// Ordering by date keeps the entries: entries that agree, date by date, on
/// which entries have each date and in what order (as `order_by_date`
/// ensures of the entries before and after it) are the same entries,
/// rearranged.
pub proof fn lemma_same_entries_by_date(before: Seq<PlaylistFileItem>, after: Seq<PlaylistFileItem>)
    requires
        forall|d: Option<Date>| #[trigger] after.filter(has_date(d)) == before.filter(has_date(d)),
    ensures
        after.to_multiset() == before.to_multiset(),
        after.len() == before.len(),
{
    broadcast use vstd::seq_lib::group_to_multiset_ensures;

    assert forall|x: PlaylistFileItem| after.to_multiset().count(x) == before.to_multiset().count(x) by {
        let p = has_date(x.date);
        lemma_filter_keeps_count(after, p, x);
        lemma_filter_keeps_count(before, p, x);
        assert(after.filter(p) == before.filter(p));
    }
    assert(after.to_multiset() =~= before.to_multiset());
    assert(after.to_multiset().len() == after.len());
    assert(before.to_multiset().len() == before.len());
}

/// Absent dates and present dates are each in order with themselves only
/// when equal.
proof fn lemma_option_date_le_antisymmetric(a: Option<Date>, b: Option<Date>)
    requires
        option_date_le(a, b),
        option_date_le(b, a),
    ensures
        a == b,
{
    match (a, b) {
        (Some(x), Some(y)) => {
            lemma_date_view_injective(x, y);
        },
        _ => {},
    }
}

/// Entries in date order are fixed by which entries have each date, in what
/// order: two date orderings that agree date by date are the same.
pub proof fn lemma_date_order_unique(a: Seq<PlaylistFileItem>, b: Seq<PlaylistFileItem>)
    requires
        sorted_by_date(a),
        sorted_by_date(b),
        forall|d: Option<Date>| #[trigger] a.filter(has_date(d)) == b.filter(has_date(d)),
    ensures
        a == b,
    decreases a.len(),
{
    broadcast use vstd::seq_lib::group_seq_properties;

    lemma_same_entries_by_date(b, a);
    if a.len() == 0 {
        assert(a =~= b);
    } else {
        let x = a.last();
        let y = b.last();
        let a0 = a.drop_last();
        let b0 = b.drop_last();
        assert(a0.push(x) =~= a);
        assert(b0.push(y) =~= b);
        // The last entry of each has the latest date of all.
        assert(b.filter(has_date(y.date)).contains(y)) by {
            b.lemma_filter_contains(has_date(y.date), b.len() - 1);
        }
        assert(a.filter(has_date(y.date)) == b.filter(has_date(y.date)));
        a.lemma_filter_contains_rev(has_date(y.date), y);
        let i = choose|i: int| 0 <= i < a.len() && a[i] == y;
        if i < a.len() - 1 {
            assert(option_date_le(a[i].date, a[a.len() - 1].date));
        }
        assert(option_date_le(y.date, x.date));
        assert(a.filter(has_date(x.date)).contains(x)) by {
            a.lemma_filter_contains(has_date(x.date), a.len() - 1);
        }
        assert(b.filter(has_date(x.date)) == a.filter(has_date(x.date)));
        b.lemma_filter_contains_rev(has_date(x.date), x);
        let j = choose|j: int| 0 <= j < b.len() && b[j] == x;
        if j < b.len() - 1 {
            assert(option_date_le(b[j].date, b[b.len() - 1].date));
        }
        assert(option_date_le(x.date, y.date));
        lemma_option_date_le_antisymmetric(x.date, y.date);
        // The last entries are the last of their date in both, so the same.
        a0.lemma_filter_push(x, has_date(x.date));
        b0.lemma_filter_push(y, has_date(x.date));
        assert(a.filter(has_date(x.date)).last() == x);
        assert(b.filter(has_date(x.date)).last() == y);
        assert(x == y);
        assert forall|d: Option<Date>| #[trigger] a0.filter(has_date(d)) == b0.filter(has_date(d)) by {
            a0.lemma_filter_push(x, has_date(d));
            b0.lemma_filter_push(y, has_date(d));
            if d == x.date {
                assert(a0.filter(has_date(d)) == a.filter(has_date(d)).drop_last());
                assert(b0.filter(has_date(d)) == b.filter(has_date(d)).drop_last());
            }
        }
        assert(sorted_by_date(a0));
        assert(sorted_by_date(b0));
        lemma_date_order_unique(a0, b0);
    }
}

/// Ordering entries that are already in date order, with no new date found
/// for any, leaves them as they are: entries that `order_by_date` may give
/// for them are those entries.
pub proof fn lemma_order_by_date_keeps_ordered(
    before: Seq<PlaylistFileItem>,
    found: Seq<Option<Date>>,
    after: Seq<PlaylistFileItem>,
)
    requires
        sorted_by_date(before),
        found.len() == before.len(),
        forall|i: int| 0 <= i < found.len() ==> #[trigger] found[i] is None,
        sorted_by_date(after),
        forall|d: Option<Date>|
            #[trigger] after.filter(has_date(d)) == with_found_dates(before, found).filter(has_date(d)),
    ensures
        after == before,
{
    assert(with_found_dates(before, found) =~= before) by {
        assert forall|i: int| 0 <= i < before.len() implies #[trigger] with_found_dates(before, found)[i] == before[i] by {
            assert(found[i] is None);
        }
    }
    lemma_date_order_unique(after, before);
}

/// Entries in date order have their dates in calendar order: of two entries,
/// the earlier one's date has no greater Julian day number where both have
/// dates, and where the later one has none, neither has the earlier one.
pub proof fn lemma_sorted_dates_ascend(items: Seq<PlaylistFileItem>, i: int, j: int)
    requires
        sorted_by_date(items),
        0 <= i < j < items.len(),
    ensures
        items[i].date is Some && items[j].date is Some ==> items[i].date.unwrap()@
            <= items[j].date.unwrap()@,
        items[j].date is None ==> items[i].date is None,
{
    assert(option_date_le(items[i].date, items[j].date));
}

impl PlaylistFile {
    /// The playlist to store: this file's title, slug and entries in order.
    pub fn into_upsert_playlist(self) -> (res: UpsertPlaylist)
        ensures
            res.title == self.title,
            res.slug == self.slug,
            res.items@.len() == self.items@.len(),
            forall|i: int| 0 <= i < res.items@.len() ==> #[trigger] res.items@[i].id == self.items@[i].id,
    {
        let ghost entries = self.items@;
        let mut rest = self.items;
        let n = rest.len();
        let mut items: Vec<UpsertPlaylistItem> = Vec::new();
        let mut i: usize = 0;
        while rest.len() > 0
            invariant
                n == entries.len(),
                i + rest.len() == n,
                rest@ == entries.skip(i as int),
                items@.len() == i,
                forall|j: int| 0 <= j < i ==> #[trigger] items@[j].id == entries[j].id,
            decreases rest.len(),
        {
            let entry = rest.remove(0);
            items.push(UpsertPlaylistItem { id: entry.id });
            proof {
                assert(rest@ =~= entries.skip(i + 1));
            }
            i = i + 1;
        }
        UpsertPlaylist { title: self.title, slug: self.slug, items }
    }

    /// Orders the entries by date, given the publication date found for each
    /// entry's video (`None` where the video was not found).  Each entry first
    /// takes the date found for it, where one was; then the entries are
    /// sorted by date, entries without a date first, and entries with the
    /// same date keep their order.
    pub fn order_by_date(&mut self, found: &Vec<Option<Date>>)
        requires
            found@.len() == old(self).items@.len(),
        ensures
            final(self).title == old(self).title,
            final(self).slug == old(self).slug,
            final(self).order == old(self).order,
            sorted_by_date(final(self).items@),
            forall|d: Option<Date>|
                #[trigger] final(self).items@.filter(has_date(d)) == with_found_dates(
                    old(self).items@,
                    found@,
                ).filter(has_date(d)),
    {
        broadcast use vstd::seq_lib::group_seq_properties;

        let ghost entries = self.items@;
        let ghost dated = with_found_dates(entries, found@);
        let mut rest: Vec<PlaylistFileItem> = Vec::new();
        std::mem::swap(&mut rest, &mut self.items);
        let n = rest.len();
        let mut sorted: Vec<PlaylistFileItem> = Vec::new();
        let mut i: usize = 0;
        proof {
            reveal_with_fuel(Seq::filter, 1);
            assert forall|d: Option<Date>| #[trigger] sorted@.filter(has_date(d)) == dated.take(0).filter(has_date(d)) by {
                assert(sorted@ =~= dated.take(0));
            }
        }
        while rest.len() > 0
            invariant
                n == entries.len(),
                found@.len() == n,
                dated == with_found_dates(entries, found@),
                i + rest.len() == n,
                rest@ == entries.skip(i as int),
                sorted@.len() == i,
                sorted_by_date(sorted@),
                forall|d: Option<Date>|
                    #[trigger] sorted@.filter(has_date(d)) == dated.take(i as int).filter(has_date(d)),
            decreases rest.len(),
        {
            let mut entry = rest.remove(0);
            match found[i] {
                Some(d) => {
                    entry.date = Some(d);
                },
                None => {},
            }
            assert(entry == dated[i as int]);
            let mut pos: usize = 0;
            let mut searching = true;
            while searching
                invariant
                    pos <= sorted@.len(),
                    forall|j: int| 0 <= j < pos ==> option_date_le(#[trigger] sorted@[j].date, entry.date),
                    !searching ==> (pos == sorted@.len() || !option_date_le(sorted@[pos as int].date, entry.date)),
                decreases sorted@.len() - pos, (if searching { 1int } else { 0int }),
            {
                if pos < sorted.len() && option_date_before_or_same(&sorted[pos].date, &entry.date) {
                    pos = pos + 1;
                } else {
                    searching = false;
                }
            }
            proof {
                let r = sorted@;
                assert forall|j: int| pos <= j < r.len() implies !option_date_le(#[trigger] r[j].date, entry.date) by {
                    if j > pos {
                        assert(option_date_le(r[pos as int].date, r[j].date));
                    }
                }
                lemma_insert_in_order(r, pos as int, entry);
                assert(dated.take(i + 1) =~= dated.take(i as int).push(entry));
                assert forall|d: Option<Date>| #[trigger] r.insert(pos as int, entry).filter(has_date(d)) == dated.take(i + 1).filter(has_date(d)) by {
                    dated.take(i as int).lemma_filter_push(entry, has_date(d));
                }
            }
            sorted.insert(pos, entry);
            proof {
                assert(rest@ =~= entries.skip(i + 1));
            }
            i = i + 1;
        }
        proof {
            assert(dated.take(n as int) =~= dated);
        }
        self.items = sorted;
    }
}

} // verus!

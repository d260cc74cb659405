//! Usage statistics and the transcript history, with the retention rule
//! that prunes old entries.
use vstd::prelude::*;

use crate::text::same_text;

verus! {

/// Seconds in one day.
pub const SECONDS_PER_DAY: i64 = 86400;

/// How long transcripts stay in the history.
#[derive(Clone, Copy, Debug, PartialEq, Eq, Structural)]
pub enum HistoryRetention {
    SevenDays,
    ThirtyDays,
    NinetyDays,
    Forever,
}

impl Default for HistoryRetention {
    fn default() -> (r: Self)
        ensures
            r == HistoryRetention::Forever,
    {
        HistoryRetention::Forever
    }
}

/// The number of days a retention setting keeps, if it is bounded.
pub open spec fn retention_days(r: HistoryRetention) -> Option<int> {
    match r {
        HistoryRetention::SevenDays => Some(7),
        HistoryRetention::ThirtyDays => Some(30),
        HistoryRetention::NinetyDays => Some(90),
        HistoryRetention::Forever => None,
    }
}

/// The oldest timestamp kept at time `now`, if the setting is bounded.
pub open spec fn cutoff_of(r: HistoryRetention, now: i64) -> Option<int> {
    match retention_days(r) {
        Some(d) => Some(now - d * SECONDS_PER_DAY),
        None => None,
    }
}

/// The earliest clock reading for which cutoffs are representable.
pub const EARLIEST_NOW: i64 = -9223372036846999808;

/// The oldest timestamp kept at time `now` (seconds since the Unix epoch).
pub fn retention_cutoff(retention: HistoryRetention, now: i64) -> (r: Option<i64>)
    requires
        now >= EARLIEST_NOW,
    ensures
        r matches Some(c) ==> cutoff_of(retention, now) == Some(c as int),
        r is None ==> cutoff_of(retention, now) is None,
{
    match retention {
        HistoryRetention::SevenDays => Some(now - 7 * SECONDS_PER_DAY),
        HistoryRetention::ThirtyDays => Some(now - 30 * SECONDS_PER_DAY),
        HistoryRetention::NinetyDays => Some(now - 90 * SECONDS_PER_DAY),
        HistoryRetention::Forever => None,
    }
}

/// One transcript kept in the history.
#[derive(Clone, Debug)]
pub struct HistoryItem {
    pub id: String,
    pub text: String,
    /// Seconds since the Unix epoch.
    pub timestamp: i64,
    /// The local day, `YYYY-MM-DD`, for grouping.
    pub date: String,
    /// The number of characters of `text`.
    pub char_count: usize,
}

impl HistoryItem {
    /// An entry for `text`, with its character count.
    pub fn new(id: String, text: String, timestamp: i64, date: String) -> (r: Self)
        ensures
            r.id == id,
            r.text == text,
            r.timestamp == timestamp,
            r.date == date,
            r.char_count == text@.len(),
    {
        let char_count = text.as_str().unicode_len();
        HistoryItem { id, text, timestamp, date, char_count }
    }
}

/// Whether an entry survives a cutoff.
pub open spec fn kept(cutoff: Option<int>, item: HistoryItem) -> bool {
    match cutoff {
        Some(c) => item.timestamp >= c,
        None => true,
    }
}

/// The entries a cutoff and an excluded id let through.
pub open spec fn selected(cutoff: Option<int>, id: Option<Seq<char>>) -> spec_fn(HistoryItem) -> bool {
    |it: HistoryItem|
        kept(cutoff, it) && match id {
            Some(s) => it.id@ != s,
            None => true,
        }
}

pub open spec fn cutoff_view(cutoff: Option<i64>) -> Option<int> {
    match cutoff {
        Some(c) => Some(c as int),
        None => None,
    }
}

pub open spec fn id_view(id: Option<&str>) -> Option<Seq<char>> {
    match id {
        Some(s) => Some(s@),
        None => None,
    }
}

/// Moves the entries of `items` out in order, keeping those newer than
/// `cutoff` and not named `id`.
fn filter_items(items: Vec<HistoryItem>, cutoff: Option<i64>, id: Option<&str>) -> (r: Vec<
    HistoryItem,
>)
    ensures
        r@ == items@.filter(selected(cutoff_view(cutoff), id_view(id))),
{
    let ghost pred = selected(cutoff_view(cutoff), id_view(id));
    let ghost all = items@;
    let n = items.len();
    let mut items = items;
    let mut rev: Vec<HistoryItem> = Vec::new();
    while items.len() > 0
        invariant
            items.len() + rev.len() == n,
            n == all.len(),
            forall|k: int| 0 <= k < items.len() ==> items@[k] == all[k],
            forall|k: int| 0 <= k < rev.len() ==> rev@[k] == all[n - 1 - k],
        decreases items.len(),
    {
        let it = items.pop().unwrap();
        rev.push(it);
    }
    let mut out: Vec<HistoryItem> = Vec::new();
    let mut i: usize = 0;
    while rev.len() > 0
        invariant
            rev.len() + i == n,
            n == all.len(),
            pred == selected(cutoff_view(cutoff), id_view(id)),
            forall|k: int| 0 <= k < rev.len() ==> rev@[k] == all[n - 1 - k],
            out@ == all.subrange(0, i as int).filter(pred),
        decreases rev.len(),
    {
        let it = rev.pop().unwrap();
        assert(it == all[i as int]);
        let keep_time = match cutoff {
            Some(c) => it.timestamp >= c,
            None => true,
        };
        let keep_id = match id {
            Some(s) => !same_text(it.id.as_str(), s),
            None => true,
        };
        proof {
            let pre = all.subrange(0, i as int);
            let post = all.subrange(0, i + 1);
            assert(post.drop_last() =~= pre);
            assert(post.last() == it);
            reveal(Seq::filter);
            assert(post.filter(pred) == if pred(it) {
                pre.filter(pred).push(it)
            } else {
                pre.filter(pred)
            });
            assert(pred(it) == (keep_time && keep_id));
        }
        if keep_time && keep_id {
            out.push(it);
        }
        i = i + 1;
    }
    assert(all.subrange(0, n as int) =~= all);
    out
}

/// The history with the entries older than the retention allows removed,
/// in their order.
pub fn prune_history(history: Vec<HistoryItem>, retention: HistoryRetention, now: i64) -> (r: Vec<
    HistoryItem,
>)
    requires
        now >= EARLIEST_NOW,
    ensures
        r@ == history@.filter(|it: HistoryItem| kept(cutoff_of(retention, now), it)),
{
    let cutoff = retention_cutoff(retention, now);
    let r = filter_items(history, cutoff, None);
    proof {
        assert(selected(cutoff_view(cutoff), id_view(None)) =~= (|it: HistoryItem|
            kept(cutoff_of(retention, now), it)));
    }
    r
}

/// The cutoff applied when an entry is added: a bounded retention prunes
/// only when its cutoff falls after the Unix epoch.
pub open spec fn adding_cutoff_of(r: HistoryRetention, now: i64) -> Option<int> {
    match cutoff_of(r, now) {
        Some(c) => if c > 0 {
            Some(c)
        } else {
            None
        },
        None => None,
    }
}

/// Adds `item` at the front of the history, then prunes by retention as of
/// `now`; a cutoff at or before the Unix epoch keeps every entry.
pub fn record_history(
    history: Vec<HistoryItem>,
    item: HistoryItem,
    retention: HistoryRetention,
    now: i64,
) -> (r: Vec<HistoryItem>)
    requires
        now >= EARLIEST_NOW,
    ensures
        r@ == seq![item].add(history@).filter(
            |it: HistoryItem| kept(adding_cutoff_of(retention, now), it),
        ),
{
    let mut all = history;
    all.insert(0, item);
    assert(all@ =~= seq![item].add(history@));
    let cutoff = match retention_cutoff(retention, now) {
        Some(c) => if c > 0 {
            Some(c)
        } else {
            None
        },
        None => None,
    };
    let r = filter_items(all, cutoff, None);
    proof {
        assert(selected(cutoff_view(cutoff), id_view(None)) =~= (|it: HistoryItem|
            kept(adding_cutoff_of(retention, now), it)));
    }
    r
}

/// The history without the entries whose id is `id`, in their order.
pub fn remove_history_item(history: Vec<HistoryItem>, id: &str) -> (r: Vec<HistoryItem>)
    ensures
        r@ == history@.filter(|it: HistoryItem| it.id@ != id@),
{
    let r = filter_items(history, None, Some(id));
    proof {
        assert(selected(cutoff_view(None), id_view(Some(id))) =~= (|it: HistoryItem|
            it.id@ != id@));
    }
    r
}

/// Running totals of dictated characters.
#[derive(Clone, Debug, Default)]
pub struct UsageStats {
    pub total_characters: u64,
    pub total_transcriptions: u64,
    pub today_characters: u64,
    /// The local day `today_characters` counts, `YYYY-MM-DD`.
    pub today_date: String,
}

impl UsageStats {
    /// The statistics as seen on `today`: the daily count starts over when
    /// the day has changed.
    pub fn for_day(self, today: &str) -> (r: UsageStats)
        ensures
            r.total_characters == self.total_characters,
            r.total_transcriptions == self.total_transcriptions,
            r.today_date@ == today@,
            r.today_characters == if self.today_date@ == today@ {
                self.today_characters
            } else {
                0
            },
    {
        if same_text(self.today_date.as_str(), today) {
            self
        } else {
            UsageStats {
                total_characters: self.total_characters,
                total_transcriptions: self.total_transcriptions,
                today_characters: 0,
                today_date: today.to_string(),
            }
        }
    }

    /// Whether one more transcript of `chars` characters can be counted.
    pub fn can_record(&self, chars: u64) -> (r: bool)
        ensures
            r == (self.total_characters + chars <= u64::MAX && self.total_transcriptions + 1
                <= u64::MAX && self.today_characters + chars <= u64::MAX),
    {
        chars <= u64::MAX - self.total_characters && self.total_transcriptions < u64::MAX
            && chars <= u64::MAX - self.today_characters
    }

    /// Counts one transcript of `chars` characters dictated on `today`.
    pub fn record(self, chars: u64, today: &str) -> (r: UsageStats)
        requires
            self.total_characters + chars <= u64::MAX,
            self.total_transcriptions + 1 <= u64::MAX,
            self.today_characters + chars <= u64::MAX,
        ensures
            r.total_characters == self.total_characters + chars,
            r.total_transcriptions == self.total_transcriptions + 1,
            r.today_date@ == today@,
            r.today_characters == (if self.today_date@ == today@ {
                self.today_characters
            } else {
                0
            }) + chars,
    {
        let mut s = self.for_day(today);
        s.total_characters = s.total_characters + chars;
        s.total_transcriptions = s.total_transcriptions + 1;
        s.today_characters = s.today_characters + chars;
        s
    }
}

} // verus!

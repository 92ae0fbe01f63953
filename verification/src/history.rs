//! The local rewrite history: what one entry records and how the list is kept.

use vstd::prelude::*;

use crate::text::{owned, take_chars, take_seq};

verus! {

/// How many entries the history keeps.
pub const HISTORY_LIMIT: usize = 50;

/// How many characters of each text an entry keeps.
pub const HISTORY_TEXT_LIMIT: usize = 4_000;

/// One rewrite, as the history keeps it.
#[derive(Clone, Debug)]
pub struct RewriteHistoryItem {
    pub id: u64,
    pub mode: String,
    pub original_text: String,
    pub result_text: String,
    pub persona_id: Option<String>,
    pub action: String,
    pub replaced: bool,
    pub created_at_ms: u64,
}

pub struct HistoryItemView {
    pub id: u64,
    pub mode: Seq<char>,
    pub original_text: Seq<char>,
    pub result_text: Seq<char>,
    pub persona_id: Option<Seq<char>>,
    pub action: Seq<char>,
    pub replaced: bool,
    pub created_at_ms: u64,
}

impl View for RewriteHistoryItem {
    type V = HistoryItemView;

    open spec fn view(&self) -> HistoryItemView {
        HistoryItemView {
            id: self.id,
            mode: self.mode@,
            original_text: self.original_text@,
            result_text: self.result_text@,
            persona_id: match self.persona_id {
                Some(p) => Some(p@),
                None => None,
            },
            action: self.action@,
            replaced: self.replaced,
            created_at_ms: self.created_at_ms,
        }
    }
}

pub open spec fn history_views(items: Seq<RewriteHistoryItem>) -> Seq<HistoryItemView> {
    items.map_values(|i: RewriteHistoryItem| i@)
}

/// A finished rewrite to record.
pub struct RewriteHistoryRecord<'a> {
    pub mode: &'static str,
    pub original_text: &'a str,
    pub result_text: &'a str,
    pub persona_id: Option<&'a str>,
    pub action: &'static str,
    pub replaced: bool,
}

impl RewriteHistoryItem {
    pub fn duplicate(&self) -> (r: Self)
        ensures
            r@ == self@,
    {
        RewriteHistoryItem {
            id: self.id,
            mode: self.mode.clone(),
            original_text: self.original_text.clone(),
            result_text: self.result_text.clone(),
            persona_id: match &self.persona_id {
                Some(p) => Some(p.clone()),
                None => None,
            },
            action: self.action.clone(),
            replaced: self.replaced,
            created_at_ms: self.created_at_ms,
        }
    }
}

/// The first characters of `text` that an entry keeps.
pub fn truncate_history_text(text: &str) -> (r: String)
    ensures
        r@ == take_seq(text@, HISTORY_TEXT_LIMIT as nat),
{
    take_chars(text, HISTORY_TEXT_LIMIT)
}

/// The entry that the history keeps for `record`, made at `created_at_ms`
/// (which is also its id): both texts cut to the text limit.
pub open spec fn history_item_spec(record: RewriteHistoryRecord, created_at_ms: u64) -> HistoryItemView {
    HistoryItemView {
        id: created_at_ms,
        mode: record.mode@,
        original_text: take_seq(record.original_text@, HISTORY_TEXT_LIMIT as nat),
        result_text: take_seq(record.result_text@, HISTORY_TEXT_LIMIT as nat),
        persona_id: match record.persona_id {
            Some(p) => Some(p@),
            None => None,
        },
        action: record.action@,
        replaced: record.replaced,
        created_at_ms,
    }
}

/// The entry for `record`, made at `created_at_ms`.
pub fn history_item(record: &RewriteHistoryRecord, created_at_ms: u64) -> (r: RewriteHistoryItem)
    ensures
        r@ == history_item_spec(*record, created_at_ms),
{
    RewriteHistoryItem {
        id: created_at_ms,
        mode: owned(record.mode),
        original_text: truncate_history_text(record.original_text),
        result_text: truncate_history_text(record.result_text),
        persona_id: match record.persona_id {
            Some(p) => Some(owned(p)),
            None => None,
        },
        action: owned(record.action),
        replaced: record.replaced,
        created_at_ms,
    }
}

/// The history with `item` added first and only the newest entries kept.
pub open spec fn prepend_spec(history: Seq<HistoryItemView>, item: HistoryItemView) -> Seq<
    HistoryItemView,
> {
    let all = seq![item] + history;
    if all.len() > HISTORY_LIMIT {
        all.take(HISTORY_LIMIT as int)
    } else {
        all
    }
}

/// `history` with `item` added first, cut to the newest entries.
pub fn prepend_history_item(history: &Vec<RewriteHistoryItem>, item: RewriteHistoryItem) -> (r: Vec<
    RewriteHistoryItem,
>)
    ensures
        history_views(r@) == prepend_spec(history_views(history@), item@),
{
    let ghost all = seq![item@] + history_views(history@);
    let mut out: Vec<RewriteHistoryItem> = Vec::new();
    out.push(item);
    let mut i: usize = 0;
    while i < history.len() && out.len() < HISTORY_LIMIT
        invariant
            i <= history@.len(),
            out@.len() == i + 1,
            out@.len() <= HISTORY_LIMIT,
            all == seq![out@[0]@] + history_views(history@),
            history_views(out@) == all.take(i + 1),
        decreases history@.len() - i,
    {
        out.push(history[i].duplicate());
        assert(all.take(i + 2) =~= all.take(i + 1).push(history@[i as int]@));
        assert(history_views(out@) =~= history_views(out@.drop_last()).push(history@[i as int]@));
        i = i + 1;
    }
    proof {
        if all.len() <= HISTORY_LIMIT {
            assert(all.take(i + 1) =~= all);
        }
    }
    out
}

/// The history after a rewrite: unchanged (`None`) when history is disabled,
/// else with the rewrite's entry added first.
pub fn record_into_history(
    history: &Vec<RewriteHistoryItem>,
    record: &RewriteHistoryRecord,
    history_enabled: bool,
    created_at_ms: u64,
) -> (r: Option<Vec<RewriteHistoryItem>>)
    ensures
        !history_enabled ==> r is None,
        history_enabled ==> (r matches Some(h) && history_views(h@) == prepend_spec(
            history_views(history@),
            history_item_spec(*record, created_at_ms),
        )),
{
    if !history_enabled {
        return None;
    }
    let item = history_item(record, created_at_ms);
    Some(prepend_history_item(history, item))
}

/// The result text of the first entry of `items` with id `id`.
pub open spec fn find_result_spec(items: Seq<HistoryItemView>, id: u64) -> Option<Seq<char>>
    decreases items.len(),
{
    if items.len() == 0 {
        None
    } else if items[0].id == id {
        Some(items[0].result_text)
    } else {
        find_result_spec(items.drop_first(), id)
    }
}

/// The result text of the entry with id `history_id` (the first one, should
/// two share it), or the error when no entry has it.
pub fn history_result_text(history: &Vec<RewriteHistoryItem>, history_id: u64) -> (r: Result<
    String,
    String,
>)
    ensures
        match find_result_spec(history_views(history@), history_id) {
            Some(t) => r matches Ok(x) && x@ == t,
            None => r matches Err(m) && m@ == "history item is no longer available"@,
        },
{
    let ghost views = history_views(history@);
    let mut i: usize = 0;
    assert(views.skip(0) =~= views);
    while i < history.len()
        invariant
            i <= history@.len(),
            views == history_views(history@),
            find_result_spec(views, history_id) == find_result_spec(views.skip(i as int), history_id),
        decreases history@.len() - i,
    {
        assert(views.skip(i as int)[0] == history@[i as int]@);
        if history[i].id == history_id {
            return Ok(history[i].result_text.clone());
        }
        assert(views.skip(i as int).drop_first() =~= views.skip(i + 1));
        i = i + 1;
    }
    assert(views.skip(i as int) =~= Seq::<HistoryItemView>::empty());
    Err(owned("history item is no longer available"))
}

/// A recorded rewrite can be copied back from the history: looking up the new
/// entry's id gives its (cut) result text, whatever the history held before.
pub proof fn law_recorded_result_reads_back(history: Seq<HistoryItemView>, item: HistoryItemView)
    ensures
        find_result_spec(prepend_spec(history, item), item.id) == Some(item.result_text),
{
    let p = prepend_spec(history, item);
    assert(p.len() >= 1 && p[0] == item);
}

/// The history never holds more than its limit, and the newest entry comes first.
pub proof fn law_history_is_bounded_and_newest_first(
    history: Seq<HistoryItemView>,
    item: HistoryItemView,
)
    ensures
        prepend_spec(history, item).len() <= HISTORY_LIMIT,
        prepend_spec(history, item)[0] == item,
        forall|j: int|
            1 <= j < prepend_spec(history, item).len() ==> prepend_spec(history, item)[j]
                == history[j - 1],
{
}

/// The entry kept for a rewrite records what was rewritten and what came
/// back, each whole when it has at most 4 000 characters and otherwise its
/// first 4 000; its id and time are the moment it was made, and its mode,
/// persona, action and whether the text was replaced are those of the rewrite.
/// The history keeps at most 50 entries.
pub proof fn law_history_entry_keeps_the_rewrite(record: RewriteHistoryRecord, created_at_ms: u64)
    ensures
        ({
            let e = history_item_spec(record, created_at_ms);
            &&& record.original_text@.len() <= 4_000 ==> e.original_text == record.original_text@
            &&& record.original_text@.len() > 4_000 ==> e.original_text
                == record.original_text@.subrange(0, 4_000)
            &&& record.result_text@.len() <= 4_000 ==> e.result_text == record.result_text@
            &&& record.result_text@.len() > 4_000 ==> e.result_text == record.result_text@.subrange(
                0,
                4_000,
            )
            &&& e.id == created_at_ms && e.created_at_ms == created_at_ms
            &&& e.mode == record.mode@ && e.action == record.action@
            &&& e.replaced == record.replaced
            &&& e.persona_id == match record.persona_id {
                Some(p) => Some(p@),
                None => None::<Seq<char>>,
            }
        }),
        HISTORY_LIMIT == 50,
{
}

} // verus!

//! The cursor-tracked poller: the decision core of the long-poll loop.
//!
//! The poller owns an acknowledgment cursor and a chat filter. The loop
//! around it (outside the library) performs one outside action at a time —
//! a remote fetch, a backoff sleep — and hands the outcome back as a
//! [`PollEvent`]; [`Poller::step`] advances the state and says which action
//! comes next. Every event of a fetched batch advances the cursor past its
//! sequence identifier before the filter is consulted, so a filtered-out
//! event is never requested again. A fetch failure leaves the cursor
//! untouched and asks for a backoff sleep before the next attempt.

use vstd::prelude::*;

use crate::numfmt::{spec_decimal, u64_to_decimal};
use crate::update::{ChatType, Chat, Message, Update};

verus! {

/// How long the remote side may hold a fetch open, in seconds.
pub const LONG_POLL_TIMEOUT_SECS: u64 = 30;

/// Safety margin of the local request timeout over the remote long-poll
/// timeout, in seconds, so that the remote timeout always fires first.
pub const CLIENT_TIMEOUT_MARGIN_SECS: u64 = 5;

/// The local request timeout, in seconds.
pub const CLIENT_TIMEOUT_SECS: u64 = LONG_POLL_TIMEOUT_SECS + CLIENT_TIMEOUT_MARGIN_SECS;

/// How many events one fetch may return at most.
pub const FETCH_LIMIT: u8 = 100;

/// How long to wait after a failed fetch before the next attempt, in seconds.
pub const BACKOFF_SECS: u64 = 5;

/// The chat allow-list: events are forwarded only from chats that are not
/// private and, when the list is not empty, whose identifier is listed.
#[derive(Debug, Clone)]
pub struct ChatFilter {
    /// Identifiers of the chats the service is restricted to; empty means
    /// unrestricted.
    pub allow: Vec<i64>,
}

impl ChatFilter {
    /// Whether a message from this chat passes the filter: never for a
    /// private chat, and only for a listed chat when the allow-list is
    /// not empty.
    pub open spec fn spec_allows(self, chat: Chat) -> bool {
        &&& chat.chat_type != ChatType::Private
        &&& (self.allow@.len() == 0 || self.allow@.contains(chat.id))
    }

    /// Decide whether a message from `chat` passes the filter.
    #[verifier::loop_isolation(false)]
    pub fn allows(&self, chat: &Chat) -> (passes: bool)
        ensures
            passes == self.spec_allows(*chat),
    {
        if chat.chat_type == ChatType::Private {
            return false;
        }
        if self.allow.len() == 0 {
            return true;
        }
        let mut i: usize = 0;
        while i < self.allow.len()
            invariant
                i <= self.allow.len(),
                forall|k: int| 0 <= k < i ==> self.allow@[k] != chat.id,
            decreases self.allow.len() - i,
        {
            if self.allow[i] == chat.id {
                assert(self.allow@.contains(chat.id));
                return true;
            }
            i += 1;
        }
        assert(!self.allow@.contains(chat.id));
        false
    }
}

/// A batch as the remote API contract promises it for a request at
/// `cursor`: sequence identifiers non-decreasing, none below the cursor,
/// and all with room for the cursor to advance past them.
pub open spec fn batch_well_formed(cursor: int, batch: Seq<Update>) -> bool {
    &&& forall|i: int| 0 <= i < batch.len() ==> cursor <= #[trigger] batch[i].update_id < i64::MAX
    &&& forall|i: int, j: int|
        0 <= i <= j < batch.len() ==> #[trigger] batch[i].update_id <= #[trigger] batch[j].update_id
}

/// Check the remote API's promise on a fetched batch, so that the loop
/// can tell a batch that breaks it apart from a well-formed one before
/// handing it to the poller.
#[verifier::loop_isolation(false)]
pub fn batch_is_well_formed(cursor: i64, batch: &Vec<Update>) -> (ok: bool)
    ensures
        ok == batch_well_formed(cursor as int, batch@),
{
    let mut prev: i64 = cursor;
    let mut i: usize = 0;
    while i < batch.len()
        invariant
            i <= batch.len(),
            prev as int == if i == 0 {
                cursor as int
            } else {
                batch@[i - 1].update_id as int
            },
            prev >= cursor,
            forall|k: int| 0 <= k < i ==> cursor <= #[trigger] batch@[k].update_id < i64::MAX,
            forall|k: int, j: int|
                0 <= k <= j < i ==> #[trigger] batch@[k].update_id <= #[trigger] batch@[
                    j
                ].update_id,
        decreases batch.len() - i,
    {
        let id = batch[i].update_id;
        if id < prev || id == i64::MAX {
            return false;
        }
        prev = id;
        i += 1;
    }
    true
}

/// The cursor after one batch: one past the last event received, or
/// unchanged when the batch is empty.
pub open spec fn spec_next_cursor(cursor: int, batch: Seq<Update>) -> int {
    if batch.len() == 0 {
        cursor
    } else {
        batch.last().update_id + 1
    }
}

/// The messages of a batch that survive the filter, in arrival order.
pub open spec fn spec_forwarded(filter: ChatFilter, batch: Seq<Update>) -> Seq<Message>
    decreases batch.len(),
{
    if batch.len() == 0 {
        Seq::empty()
    } else {
        let rest = spec_forwarded(filter, batch.drop_last());
        match batch.last().message {
            Some(m) => if filter.spec_allows(m.chat) {
                rest.push(m)
            } else {
                rest
            },
            None => rest,
        }
    }
}

/// Law: a message stands among the forwarded messages of a batch exactly
/// when some event of the batch carries it and its chat passes the filter.
pub proof fn lemma_forwarded_membership(filter: ChatFilter, batch: Seq<Update>, m: Message)
    ensures
        spec_forwarded(filter, batch).contains(m) <==> (exists|i: int|
            0 <= i < batch.len() && #[trigger] batch[i].message == Some(m)
                && filter.spec_allows(m.chat)),
    decreases batch.len(),
{
    if batch.len() == 0 {
    } else {
        let prefix = batch.drop_last();
        lemma_forwarded_membership(filter, prefix, m);
        let fwd = spec_forwarded(filter, batch);
        let rest = spec_forwarded(filter, prefix);
        assert(forall|i: int| 0 <= i < prefix.len() ==> prefix[i] == #[trigger] batch[i]);
        if fwd.contains(m) {
            if rest.contains(m) {
                let i = choose|i: int|
                    0 <= i < prefix.len() && #[trigger] prefix[i].message == Some(m)
                        && filter.spec_allows(m.chat);
                assert(batch[i].message == Some(m));
            } else {
                assert(batch.last().message == Some(m) && filter.spec_allows(m.chat)) by {
                    let j = choose|j: int| 0 <= j < fwd.len() && fwd[j] == m;
                    assert(j == fwd.len() - 1);
                }
                assert(batch[batch.len() - 1].message == Some(m));
            }
        }
        if exists|i: int|
            0 <= i < batch.len() && #[trigger] batch[i].message == Some(m)
                && filter.spec_allows(m.chat) {
            let i = choose|i: int|
                0 <= i < batch.len() && #[trigger] batch[i].message == Some(m)
                    && filter.spec_allows(m.chat);
            if i < batch.len() - 1 {
                assert(prefix[i].message == Some(m));
                assert(rest.contains(m));
                let j = choose|j: int| 0 <= j < rest.len() && rest[j] == m;
                assert(fwd[j] == m);
            } else {
                assert(fwd.last() == m);
            }
            assert(fwd.contains(m));
        }
    }
}

/// Law: the chat filter is exact. An event of a private chat is never
/// forwarded, whatever the allow-list holds; with a non-empty allow-list
/// an event of an unlisted chat is never forwarded; with an empty
/// allow-list every message event of a non-private chat is forwarded.
pub proof fn lemma_filter_correctness(filter: ChatFilter, batch: Seq<Update>, m: Message)
    ensures
        m.chat.chat_type == ChatType::Private ==> !spec_forwarded(filter, batch).contains(m),
        filter.allow@.len() > 0 && !filter.allow@.contains(m.chat.id)
            ==> !spec_forwarded(filter, batch).contains(m),
        (filter.allow@.len() == 0 && m.chat.chat_type != ChatType::Private && (exists|i: int|
            0 <= i < batch.len() && #[trigger] batch[i].message == Some(m)))
            ==> spec_forwarded(filter, batch).contains(m),
{
    lemma_forwarded_membership(filter, batch, m);
}

/// The cursor after a whole run of fetch responses, each absorbed by
/// [`Poller::process_batch`] in turn.
pub open spec fn spec_cursor_after(cursor: int, responses: Seq<Seq<Update>>) -> int
    decreases responses.len(),
{
    if responses.len() == 0 {
        cursor
    } else {
        spec_next_cursor(spec_cursor_after(cursor, responses.drop_last()), responses.last())
    }
}

/// A run of fetch responses as the remote API contract promises it: each
/// batch well formed with respect to the cursor the poller holds when it
/// arrives.
pub open spec fn responses_well_formed(cursor: int, responses: Seq<Seq<Update>>) -> bool
    decreases responses.len(),
{
    if responses.len() == 0 {
        true
    } else {
        &&& responses_well_formed(cursor, responses.drop_last())
        &&& batch_well_formed(
            spec_cursor_after(cursor, responses.drop_last()),
            responses.last(),
        )
    }
}

/// Whether any event at all was received across a run of responses.
pub open spec fn some_event(responses: Seq<Seq<Update>>) -> bool {
    exists|k: int| 0 <= k < responses.len() && #[trigger] responses[k].len() > 0
}

/// Whether `id` is the largest sequence identifier observed across a run
/// of responses: some event carries it and no event carries a larger one.
pub open spec fn is_max_observed_id(responses: Seq<Seq<Update>>, id: int) -> bool {
    &&& exists|k: int, j: int|
        0 <= k < responses.len() && 0 <= j < responses[k].len()
            && #[trigger] responses[k][j].update_id == id
    &&& forall|k: int, j: int|
        0 <= k < responses.len() && 0 <= j < responses[k].len()
            ==> #[trigger] responses[k][j].update_id <= id
}

/// Law: the cursor is monotone and exact. Across any run of well-formed
/// fetch responses the cursor never decreases; when no event was received
/// it is unchanged, and otherwise it stands one past the largest sequence
/// identifier observed across all events received — whether or not the
/// filter dropped some of them, since the cursor advances before the
/// filter is consulted.
pub proof fn lemma_cursor_monotonic(cursor: int, responses: Seq<Seq<Update>>)
    requires
        responses_well_formed(cursor, responses),
    ensures
        spec_cursor_after(cursor, responses) >= cursor,
        !some_event(responses) ==> spec_cursor_after(cursor, responses) == cursor,
        some_event(responses) ==> is_max_observed_id(
            responses,
            spec_cursor_after(cursor, responses) - 1,
        ),
    decreases responses.len(),
{
    if responses.len() == 0 {
    } else {
        let prefix = responses.drop_last();
        let last = responses.last();
        let c1 = spec_cursor_after(cursor, prefix);
        let c2 = spec_cursor_after(cursor, responses);
        lemma_cursor_monotonic(cursor, prefix);
        assert(forall|k: int| 0 <= k < prefix.len() ==> prefix[k] == #[trigger] responses[k]);
        if last.len() == 0 {
            assert(c2 == c1);
            if some_event(responses) {
                let k = choose|k: int|
                    0 <= k < responses.len() && #[trigger] responses[k].len() > 0;
                assert(prefix[k].len() > 0);
                assert(some_event(prefix));
                assert(is_max_observed_id(prefix, c1 - 1));
                let (pk, pj) = choose|pk: int, pj: int|
                    0 <= pk < prefix.len() && 0 <= pj < prefix[pk].len()
                        && #[trigger] prefix[pk][pj].update_id == c1 - 1;
                assert(responses[pk][pj].update_id == c2 - 1);
                assert(forall|k: int, j: int|
                    0 <= k < responses.len() && 0 <= j < responses[k].len()
                        ==> #[trigger] responses[k][j].update_id <= c2 - 1) by {
                    assert(forall|k: int, j: int|
                        0 <= k < responses.len() && 0 <= j < responses[k].len()
                            ==> #[trigger] prefix[k][j].update_id <= c1 - 1);
                }
            } else {
                assert(!some_event(prefix)) by {
                    if some_event(prefix) {
                        let k = choose|k: int|
                            0 <= k < prefix.len() && #[trigger] prefix[k].len() > 0;
                        assert(responses[k].len() > 0);
                    }
                }
                assert(c2 == cursor);
            }
        } else {
            let top = last.last().update_id;
            assert(c2 == top + 1);
            assert(last[last.len() - 1].update_id == top);
            assert(top >= c1) by {
                assert(batch_well_formed(c1, last));
            }
            assert(responses[responses.len() - 1] == last);
            assert(some_event(responses));
            assert(responses[responses.len() - 1][last.len() - 1].update_id == c2 - 1);
            assert(forall|k: int, j: int|
                0 <= k < responses.len() && 0 <= j < responses[k].len()
                    ==> #[trigger] responses[k][j].update_id <= c2 - 1) by {
                assert(forall|j: int|
                    0 <= j < last.len() ==> #[trigger] last[j].update_id <= top);
                if some_event(prefix) {
                    assert(is_max_observed_id(prefix, c1 - 1));
                    assert(forall|k: int, j: int|
                        0 <= k < prefix.len() && 0 <= j < prefix[k].len()
                            ==> #[trigger] prefix[k][j].update_id <= c1 - 1);
                } else {
                    assert(forall|k: int| 0 <= k < prefix.len()
                        ==> #[trigger] prefix[k].len() == 0);
                }
            }
        }
    }
}

/// The parameters of one remote fetch.
#[derive(Debug, PartialEq, Eq, Structural, Clone, Copy)]
pub struct FetchParams {
    /// The acknowledgment cursor: the lowest sequence identifier requested.
    pub offset: i64,
    /// How long the remote may hold the request open, in seconds.
    pub long_poll_timeout_secs: u64,
    /// The local request timeout, in seconds; exceeds the long-poll
    /// timeout by [`CLIENT_TIMEOUT_MARGIN_SECS`].
    pub client_timeout_secs: u64,
    /// At most this many events in the response.
    pub limit: u8,
}

/// The fetch parameters the poller uses at a given cursor.
pub open spec fn spec_fetch_params(offset: int) -> FetchParams {
    FetchParams {
        offset: offset as i64,
        long_poll_timeout_secs: LONG_POLL_TIMEOUT_SECS,
        client_timeout_secs: CLIENT_TIMEOUT_SECS,
        limit: FETCH_LIMIT,
    }
}

/// The event kinds requested from the remote platform, to keep payloads
/// small: only message events and callback queries.
pub fn allowed_event_kinds() -> (kinds: Vec<&'static str>)
    ensures
        kinds@.len() == 2,
        kinds@[0]@ == "message"@,
        kinds@[1]@ == "callback_query"@,
{
    let mut kinds: Vec<&'static str> = Vec::new();
    kinds.push("message");
    kinds.push("callback_query");
    kinds
}

/// The given pieces of text joined with a comma between each two.
pub open spec fn spec_join_comma(items: Seq<Seq<char>>) -> Seq<char>
    decreases items.len(),
{
    if items.len() == 0 {
        Seq::empty()
    } else if items.len() == 1 {
        items[0]
    } else {
        spec_join_comma(items.drop_last()) + ","@ + items.last()
    }
}

/// The URL of one fetch against the remote long-poll API, exactly as the
/// wire protocol wants it: the bot token in the path, then the cursor, the
/// long-poll timeout, the page limit and the requested event kinds as
/// query parameters.
pub open spec fn spec_updates_url(token: Seq<char>, p: FetchParams, allowed: Seq<Seq<char>>)
    -> Seq<char> {
    "https://api.telegram.org/bot"@ + token + "/getUpdates?offset="@ + spec_decimal(
        p.offset as nat,
    ) + "&timeout="@ + spec_decimal(p.long_poll_timeout_secs as nat) + "&limit="@ + spec_decimal(
        p.limit as nat,
    ) + "&allowed_updates="@ + spec_join_comma(allowed)
}

/// Write the fetch request out as a URL.
#[verifier::loop_isolation(false)]
pub fn updates_url(token: &str, params: &FetchParams, allowed: &Vec<&str>) -> (url: String)
    requires
        params.offset >= 0,
    ensures
        url@ == spec_updates_url(token@, *params, allowed@.map_values(|a: &str| a@)),
{
    let ghost views = allowed@.map_values(|a: &str| a@);
    let mut url = String::new();
    url.append("https://api.telegram.org/bot");
    url.append(token);
    url.append("/getUpdates?offset=");
    let offset = u64_to_decimal(params.offset as u64);
    url.append(offset.as_str());
    url.append("&timeout=");
    let timeout = u64_to_decimal(params.long_poll_timeout_secs);
    url.append(timeout.as_str());
    url.append("&limit=");
    let limit = u64_to_decimal(params.limit as u64);
    url.append(limit.as_str());
    url.append("&allowed_updates=");
    let ghost prefix = url@;
    let mut i: usize = 0;
    while i < allowed.len()
        invariant
            i <= allowed.len(),
            url@ == prefix + spec_join_comma(views.subrange(0, i as int)),
        decreases allowed.len() - i,
    {
        if i > 0 {
            url.append(",");
        }
        url.append(allowed[i]);
        proof {
            let upto = views.subrange(0, i + 1);
            assert(upto.drop_last() =~= views.subrange(0, i as int));
            assert(upto.last() == views[i as int]);
            assert(views[i as int] == allowed@[i as int]@);
            if i == 0 {
                assert(views.subrange(0, 0).len() == 0);
                assert(url@ =~= prefix + spec_join_comma(upto));
            } else {
                assert(url@ =~= prefix + spec_join_comma(upto));
            }
        }
        i += 1;
    }
    proof {
        assert(views.subrange(0, allowed.len() as int) =~= views);
        assert(url@ =~= spec_updates_url(token@, *params, views));
    }
    url
}

/// The outcome of the outside action the loop last performed.
pub enum PollEvent {
    /// The fetch returned this batch of events.
    FetchOk(Vec<Update>),
    /// The fetch failed: a network error, a malformed body, or a failure
    /// flag reported by the remote.
    FetchFailed,
    /// The backoff sleep finished.
    Slept,
    /// The shutdown signal fired.
    Shutdown,
}

/// The next outside action the loop is asked to perform.
#[derive(Debug, PartialEq, Eq, Structural, Clone, Copy)]
pub enum PollAction {
    /// Perform one remote fetch with these parameters.
    Fetch(FetchParams),
    /// Sleep this many seconds, still watching for shutdown.
    Sleep(u64),
    /// Stop the loop.
    Stop,
}

/// The poller state: the acknowledgment cursor and the chat filter.
#[derive(Debug)]
pub struct Poller {
    /// The next sequence identifier to request; never decreases.
    pub cursor: i64,
    /// The chat filter applied to every received event.
    pub filter: ChatFilter,
}

impl Poller {
    /// The cursor never runs below its starting point of zero.
    pub open spec fn wf(self) -> bool {
        self.cursor >= 0
    }

    /// A fresh poller: cursor at zero, with the given filter.
    pub fn new(filter: ChatFilter) -> (poller: Poller)
        ensures
            poller.wf(),
            poller.cursor == 0,
            poller.filter == filter,
    {
        Poller { cursor: 0, filter }
    }

    /// The first action of the loop: one fetch at the current cursor.
    pub fn start(&self) -> (action: PollAction)
        requires
            self.wf(),
        ensures
            action == PollAction::Fetch(spec_fetch_params(self.cursor as int)),
    {
        PollAction::Fetch(
            FetchParams {
                offset: self.cursor,
                long_poll_timeout_secs: LONG_POLL_TIMEOUT_SECS,
                client_timeout_secs: CLIENT_TIMEOUT_SECS,
                limit: FETCH_LIMIT,
            },
        )
    }

    /// Absorb one fetched batch: advance the cursor past every event, in
    /// arrival order and before the filter is consulted, and return the
    /// messages that survive the filter, in arrival order.
    #[verifier::loop_isolation(false)]
    pub fn process_batch(&mut self, batch: Vec<Update>) -> (forwarded: Vec<Message>)
        requires
            old(self).wf(),
            batch_well_formed(old(self).cursor as int, batch@),
        ensures
            final(self).wf(),
            final(self).filter == old(self).filter,
            final(self).cursor as int == spec_next_cursor(old(self).cursor as int, batch@),
            final(self).cursor >= old(self).cursor,
            forwarded@ == spec_forwarded(old(self).filter, batch@),
    {
        let ghost orig = batch@;
        let ghost cursor0 = self.cursor as int;
        let mut rest = batch;
        let mut forwarded: Vec<Message> = Vec::new();
        while rest.len() > 0
            invariant
                batch_well_formed(cursor0, orig),
                rest@.len() <= orig.len(),
                rest@ =~= orig.subrange(orig.len() - rest@.len(), orig.len() as int),
                self.cursor as int == spec_next_cursor(
                    cursor0,
                    orig.subrange(0, orig.len() - rest@.len()),
                ),
                forwarded@ == spec_forwarded(
                    self.filter,
                    orig.subrange(0, orig.len() - rest@.len()),
                ),
                self.filter == old(self).filter,
                cursor0 >= 0,
                self.cursor >= 0,
            decreases rest@.len(),
        {
            let ghost i: int = orig.len() - rest@.len();
            let upd = rest.remove(0);
            proof {
                assert(upd == orig[i]);
                assert(rest@ =~= orig.subrange(i + 1, orig.len() as int));
                assert(orig.subrange(0, i + 1).drop_last() =~= orig.subrange(0, i));
                assert(orig.subrange(0, i + 1).last() == orig[i]);
            }
            self.cursor = upd.update_id + 1;
            if let Some(message) = upd.message {
                if self.filter.allows(&message.chat) {
                    forwarded.push(message);
                }
            }
        }
        proof {
            assert(orig.subrange(0, orig.len() as int) =~= orig);
        }
        forwarded
    }

    /// Advance the state by one outcome of the loop's last outside action
    /// and decide the next action.
    ///
    /// Shutdown stops the loop at once. A successful fetch is absorbed by
    /// [`Poller::process_batch`] — the forwarded messages come back to the
    /// caller for delivery to the sink — and the next action is the next
    /// fetch, at the advanced cursor. A failed fetch changes nothing and
    /// asks for a sleep of [`BACKOFF_SECS`]; only when that sleep has
    /// finished does the poller ask to fetch again, at the unchanged
    /// cursor.
    pub fn step(&mut self, event: PollEvent) -> (outcome: (PollAction, Vec<Message>))
        requires
            old(self).wf(),
            event matches PollEvent::FetchOk(batch) ==> batch_well_formed(
                old(self).cursor as int,
                batch@,
            ),
        ensures
            final(self).wf(),
            final(self).filter == old(self).filter,
            final(self).cursor >= old(self).cursor,
            match event {
                PollEvent::FetchOk(batch) => {
                    &&& final(self).cursor as int == spec_next_cursor(
                        old(self).cursor as int,
                        batch@,
                    )
                    &&& outcome.0 == PollAction::Fetch(spec_fetch_params(final(self).cursor as int))
                    &&& outcome.1@ == spec_forwarded(old(self).filter, batch@)
                },
                PollEvent::FetchFailed => {
                    &&& final(self).cursor == old(self).cursor
                    &&& outcome.0 == PollAction::Sleep(BACKOFF_SECS)
                    &&& outcome.1@.len() == 0
                },
                PollEvent::Slept => {
                    &&& final(self).cursor == old(self).cursor
                    &&& outcome.0 == PollAction::Fetch(spec_fetch_params(old(self).cursor as int))
                    &&& outcome.1@.len() == 0
                },
                PollEvent::Shutdown => {
                    &&& final(self).cursor == old(self).cursor
                    &&& outcome.0 == PollAction::Stop
                    &&& outcome.1@.len() == 0
                },
            },
    {
        match event {
            PollEvent::FetchOk(batch) => {
                let forwarded = self.process_batch(batch);
                let params = FetchParams {
                    offset: self.cursor,
                    long_poll_timeout_secs: LONG_POLL_TIMEOUT_SECS,
                    client_timeout_secs: CLIENT_TIMEOUT_SECS,
                    limit: FETCH_LIMIT,
                };
                (PollAction::Fetch(params), forwarded)
            },
            PollEvent::FetchFailed => (PollAction::Sleep(BACKOFF_SECS), Vec::new()),
            PollEvent::Slept => {
                let params = FetchParams {
                    offset: self.cursor,
                    long_poll_timeout_secs: LONG_POLL_TIMEOUT_SECS,
                    client_timeout_secs: CLIENT_TIMEOUT_SECS,
                    limit: FETCH_LIMIT,
                };
                (PollAction::Fetch(params), Vec::new())
            },
            PollEvent::Shutdown => (PollAction::Stop, Vec::new()),
        }
    }
}

} // verus!

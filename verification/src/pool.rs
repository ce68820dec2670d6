//! Membership of the shared feed pool: adding a feed (find-or-create by
//! canonical URL, then subscribe this device), and unsubscribing (the last
//! subscriber prunes the feed and its articles). The worker runs each
//! storage action and hands back its answer; the decisions are made here.
use vstd::prelude::*;
use crate::queue::{FetchJob, FetchJobView};
use crate::text::{trim, trimmed};
use crate::time::opt_text;
use crate::urls::{canonical_url, canonical_url_text};

verus! {

/// What a create-feed body carries, as the JSON holds it (`None` when a
/// field is missing or of another type).
#[derive(Debug)]
pub struct AddFeedInput {
    pub url: Option<String>,
    pub title: Option<String>,
    pub fetch_interval_minutes: Option<i64>,
}

pub struct AddFeedInputView {
    pub url: Option<Seq<char>>,
    pub title: Option<Seq<char>>,
    pub fetch_interval_minutes: Option<i64>,
}

impl View for AddFeedInput {
    type V = AddFeedInputView;

    open spec fn view(&self) -> AddFeedInputView {
        AddFeedInputView { url: opt_text(self.url), title: opt_text(self.title), fetch_interval_minutes: self.fetch_interval_minutes }
    }
}

/// A new pool feed as it will be inserted (status `pending`, due now).
#[derive(Debug)]
pub struct NewFeed {
    pub url: String,
    pub title: String,
    pub normalized_url: String,
    pub fetch_interval_minutes: i64,
}

pub struct NewFeedView {
    pub url: Seq<char>,
    pub title: Seq<char>,
    pub normalized_url: Seq<char>,
    pub fetch_interval_minutes: i64,
}

impl View for NewFeed {
    type V = NewFeedView;

    open spec fn view(&self) -> NewFeedView {
        NewFeedView {
            url: self.url@,
            title: self.title@,
            normalized_url: self.normalized_url@,
            fetch_interval_minutes: self.fetch_interval_minutes,
        }
    }
}

pub open spec fn clamp(v: int, lo: int, hi: int) -> int {
    if v < lo { lo } else if v > hi { hi } else { v }
}

/// The feed a create request describes: the URL trimmed (required), the
/// title (default "RSS Feed"), the canonical URL that is the feed's pool
/// identity, and the refresh interval (default 15) held to 5..=1440 minutes.
pub open spec fn new_feed_of(input: AddFeedInputView) -> Result<NewFeedView, Seq<char>> {
    let url = trim(match input.url { Some(u) => u, None => Seq::empty() });
    if url.len() == 0 {
        Err("url is required"@)
    } else {
        Ok(NewFeedView {
            url,
            title: match input.title { Some(t) => t, None => "RSS Feed"@ },
            normalized_url: canonical_url_text(url),
            fetch_interval_minutes: clamp(match input.fetch_interval_minutes { Some(i) => i as int, None => 15 }, 5, 1440) as i64,
        })
    }
}

/// Reads a create-feed body.
pub fn new_feed(input: AddFeedInput) -> (r: Result<NewFeed, String>)
    ensures
        match r {
            Ok(f) => new_feed_of(input@) == Ok::<NewFeedView, Seq<char>>(f@),
            Err(m) => new_feed_of(input@) == Err::<NewFeedView, Seq<char>>(m@),
        },
{
    let raw = match input.url {
        Some(u) => u,
        None => String::new(),
    };
    let url = trimmed(raw.as_str());
    if url.as_str().is_empty() {
        return Err(String::from_str("url is required"));
    }
    let title = match input.title {
        Some(t) => t,
        None => String::from_str("RSS Feed"),
    };
    let normalized_url = canonical_url(url.as_str());
    let wanted: i64 = match input.fetch_interval_minutes {
        Some(i) => i,
        None => 15,
    };
    let interval: i64 = if wanted < 5 { 5 } else if wanted > 1440 { 1440 } else { wanted };
    Ok(NewFeed { url, title, normalized_url, fetch_interval_minutes: interval })
}

/// How adding a feed ended.
#[derive(Debug, Clone, Copy, PartialEq, Eq, Structural)]
pub struct AddedFeed {
    pub feed_id: i32,
    /// The feed is new to the pool.
    pub created: bool,
    /// This device already subscribed before the request.
    pub already: bool,
}

/// What the worker does next while adding a feed.
#[derive(Debug)]
pub enum AddFeedAction {
    /// Look up the pool feed with this canonical URL.
    FindExisting(String),
    /// Check whether this device subscribes to the feed.
    CheckSubscribed(i32),
    /// Subscribe this device to the feed (idempotent).
    Subscribe(i32),
    /// Insert the new pool feed, returning its id.
    CreateFeed(NewFeed),
    /// Queue the first fetch of a new feed (best effort: the outcome does not
    /// matter).
    EnqueueFetch(FetchJob),
    /// Load the feed's row for the answer.
    LoadFeedRow(i32),
    /// Done: the feed, or the error.
    Finish(Result<AddedFeed, String>),
}

pub enum AddFeedActionView {
    FindExisting(Seq<char>),
    CheckSubscribed(i32),
    Subscribe(i32),
    CreateFeed(NewFeedView),
    EnqueueFetch(FetchJobView),
    LoadFeedRow(i32),
    Finish(Result<AddedFeed, Seq<char>>),
}

impl View for AddFeedAction {
    type V = AddFeedActionView;

    open spec fn view(&self) -> AddFeedActionView {
        match self {
            AddFeedAction::FindExisting(u) => AddFeedActionView::FindExisting(u@),
            AddFeedAction::CheckSubscribed(i) => AddFeedActionView::CheckSubscribed(*i),
            AddFeedAction::Subscribe(i) => AddFeedActionView::Subscribe(*i),
            AddFeedAction::CreateFeed(f) => AddFeedActionView::CreateFeed(f@),
            AddFeedAction::EnqueueFetch(j) => AddFeedActionView::EnqueueFetch(j@),
            AddFeedAction::LoadFeedRow(i) => AddFeedActionView::LoadFeedRow(*i),
            AddFeedAction::Finish(Ok(a)) => AddFeedActionView::Finish(Ok(*a)),
            AddFeedAction::Finish(Err(m)) => AddFeedActionView::Finish(Err(m@)),
        }
    }
}

/// What came of the last action.
#[derive(Debug, Clone, Copy)]
pub enum AddFeedEvent {
    /// The lookup by canonical URL: no row, or a row with its id (`None`
    /// when the row has no id).
    Existing(Option<Option<i64>>),
    /// Whether this device subscribes.
    Subscribed(bool),
    /// The subscription was stored.
    SubscriptionStored,
    /// The insert's answer: no row, or the row's id (`None` when missing).
    Created(Option<Option<i64>>),
    /// The first fetch was queued (or queueing failed; either way).
    Enqueued,
    /// Whether the feed row was found.
    RowLoaded(bool),
}

#[derive(Debug, Clone, Copy, PartialEq, Eq, Structural)]
pub enum AddFeedPhase {
    FindingExisting,
    CheckingSubscribed { feed_id: i32 },
    Subscribing { feed_id: i32, created: bool },
    Creating,
    Enqueueing { feed_id: i32 },
    Loading { feed_id: i32, created: bool, already: bool },
    Done,
}

/// Adding a feed in progress.
pub struct AddFeed {
    feed: NewFeed,
    phase: AddFeedPhase,
}

pub struct AddFeedView {
    pub feed: NewFeedView,
    pub phase: AddFeedPhase,
}

impl View for AddFeed {
    type V = AddFeedView;

    closed spec fn view(&self) -> AddFeedView {
        AddFeedView { feed: self.feed@, phase: self.phase }
    }
}

pub open spec fn add_feed_expects(p: AddFeedPhase, e: AddFeedEvent) -> bool {
    match p {
        AddFeedPhase::FindingExisting => e is Existing,
        AddFeedPhase::CheckingSubscribed { .. } => e is Subscribed,
        AddFeedPhase::Subscribing { .. } => e is SubscriptionStored,
        AddFeedPhase::Creating => e is Created,
        AddFeedPhase::Enqueueing { .. } => e is Enqueued,
        AddFeedPhase::Loading { .. } => e is RowLoaded,
        AddFeedPhase::Done => false,
    }
}

/// One step of adding a feed:
/// - a pool feed with the same canonical URL is reused: the device is
///   subscribed unless it already was (`created: false`, `already` telling
///   which);
/// - otherwise the feed is created, the device subscribed, and only then the
///   first fetch queued (the fetch finds a subscriber), `created: true`;
/// - the answer carries the feed's row, so a missing row or id is an error.
pub open spec fn add_feed_step(s: AddFeedView, e: AddFeedEvent) -> (AddFeedView, AddFeedActionView) {
    let to = |p: AddFeedPhase| AddFeedView { phase: p, ..s };
    let done = to(AddFeedPhase::Done);
    match (s.phase, e) {
        (AddFeedPhase::FindingExisting, AddFeedEvent::Existing(None)) =>
            (to(AddFeedPhase::Creating), AddFeedActionView::CreateFeed(s.feed)),
        (AddFeedPhase::FindingExisting, AddFeedEvent::Existing(Some(None))) =>
            (done, AddFeedActionView::Finish(Err("existing feed row missing id"@))),
        (AddFeedPhase::FindingExisting, AddFeedEvent::Existing(Some(Some(id)))) =>
            (to(AddFeedPhase::CheckingSubscribed { feed_id: id as i32 }), AddFeedActionView::CheckSubscribed(id as i32)),
        (AddFeedPhase::CheckingSubscribed { feed_id }, AddFeedEvent::Subscribed(true)) =>
            (to(AddFeedPhase::Loading { feed_id, created: false, already: true }), AddFeedActionView::LoadFeedRow(feed_id)),
        (AddFeedPhase::CheckingSubscribed { feed_id }, AddFeedEvent::Subscribed(false)) =>
            (to(AddFeedPhase::Subscribing { feed_id, created: false }), AddFeedActionView::Subscribe(feed_id)),
        (AddFeedPhase::Subscribing { feed_id, created }, AddFeedEvent::SubscriptionStored) => if created {
            (to(AddFeedPhase::Enqueueing { feed_id }),
                AddFeedActionView::EnqueueFetch(FetchJobView { feed_id: feed_id as i64, url: s.feed.url }))
        } else {
            (to(AddFeedPhase::Loading { feed_id, created: false, already: false }), AddFeedActionView::LoadFeedRow(feed_id))
        },
        (AddFeedPhase::Creating, AddFeedEvent::Created(None)) =>
            (done, AddFeedActionView::Finish(Err("feed insert returned no row"@))),
        (AddFeedPhase::Creating, AddFeedEvent::Created(Some(None))) =>
            (done, AddFeedActionView::Finish(Err("feed insert missing id"@))),
        (AddFeedPhase::Creating, AddFeedEvent::Created(Some(Some(id)))) =>
            (to(AddFeedPhase::Subscribing { feed_id: id as i32, created: true }), AddFeedActionView::Subscribe(id as i32)),
        (AddFeedPhase::Enqueueing { feed_id }, AddFeedEvent::Enqueued) =>
            (to(AddFeedPhase::Loading { feed_id, created: true, already: false }), AddFeedActionView::LoadFeedRow(feed_id)),
        (AddFeedPhase::Loading { feed_id, created, already }, AddFeedEvent::RowLoaded(found)) => if found {
            (done, AddFeedActionView::Finish(Ok(AddedFeed { feed_id, created, already })))
        } else if created {
            (done, AddFeedActionView::Finish(Err("created feed row missing"@)))
        } else {
            (done, AddFeedActionView::Finish(Err("subscribed feed row missing"@)))
        },
        _ => (done, AddFeedActionView::Finish(Err(Seq::empty()))),
    }
}

impl AddFeed {
    /// Starts adding a feed described by a create request: the pool is
    /// searched by the canonical URL.
    pub fn begin(input: AddFeedInput) -> (r: Result<(AddFeed, AddFeedAction), String>)
        ensures
            match new_feed_of(input@) {
                Ok(f) => r matches Ok((m, a)) && m@ == (AddFeedView { feed: f, phase: AddFeedPhase::FindingExisting })
                    && a@ == AddFeedActionView::FindExisting(f.normalized_url),
                Err(e) => r matches Err(m) && m@ == e,
            },
    {
        match new_feed(input) {
            Err(m) => Err(m),
            Ok(feed) => {
                let key = feed.normalized_url.clone();
                Ok((AddFeed { feed, phase: AddFeedPhase::FindingExisting }, AddFeedAction::FindExisting(key)))
            },
        }
    }

    /// Whether adding is waiting for this kind of event.
    pub fn expects(&self, e: AddFeedEvent) -> (r: bool)
        ensures
            r == add_feed_expects(self@.phase, e),
    {
        match self.phase {
            AddFeedPhase::FindingExisting => matches!(e, AddFeedEvent::Existing(_)),
            AddFeedPhase::CheckingSubscribed { .. } => matches!(e, AddFeedEvent::Subscribed(_)),
            AddFeedPhase::Subscribing { .. } => matches!(e, AddFeedEvent::SubscriptionStored),
            AddFeedPhase::Creating => matches!(e, AddFeedEvent::Created(_)),
            AddFeedPhase::Enqueueing { .. } => matches!(e, AddFeedEvent::Enqueued),
            AddFeedPhase::Loading { .. } => matches!(e, AddFeedEvent::RowLoaded(_)),
            AddFeedPhase::Done => false,
        }
    }

    /// Applies the answer to the last action.
    pub fn step(&mut self, e: AddFeedEvent) -> (r: AddFeedAction)
        requires
            add_feed_expects(old(self)@.phase, e),
        ensures
            (final(self)@, r@) == add_feed_step(old(self)@, e),
    {
        let phase = self.phase;
        self.phase = AddFeedPhase::Done;
        match (phase, e) {
            (AddFeedPhase::FindingExisting, AddFeedEvent::Existing(None)) => {
                self.phase = AddFeedPhase::Creating;
                AddFeedAction::CreateFeed(NewFeed {
                    url: self.feed.url.clone(),
                    title: self.feed.title.clone(),
                    normalized_url: self.feed.normalized_url.clone(),
                    fetch_interval_minutes: self.feed.fetch_interval_minutes,
                })
            },
            (AddFeedPhase::FindingExisting, AddFeedEvent::Existing(Some(None))) =>
                AddFeedAction::Finish(Err(String::from_str("existing feed row missing id"))),
            (AddFeedPhase::FindingExisting, AddFeedEvent::Existing(Some(Some(id)))) => {
                let feed_id = id as i32;
                self.phase = AddFeedPhase::CheckingSubscribed { feed_id };
                AddFeedAction::CheckSubscribed(feed_id)
            },
            (AddFeedPhase::CheckingSubscribed { feed_id }, AddFeedEvent::Subscribed(already)) => {
                if already {
                    self.phase = AddFeedPhase::Loading { feed_id, created: false, already: true };
                    AddFeedAction::LoadFeedRow(feed_id)
                } else {
                    self.phase = AddFeedPhase::Subscribing { feed_id, created: false };
                    AddFeedAction::Subscribe(feed_id)
                }
            },
            (AddFeedPhase::Subscribing { feed_id, created }, AddFeedEvent::SubscriptionStored) => {
                if created {
                    self.phase = AddFeedPhase::Enqueueing { feed_id };
                    AddFeedAction::EnqueueFetch(FetchJob { feed_id: feed_id as i64, url: self.feed.url.clone() })
                } else {
                    self.phase = AddFeedPhase::Loading { feed_id, created: false, already: false };
                    AddFeedAction::LoadFeedRow(feed_id)
                }
            },
            (AddFeedPhase::Creating, AddFeedEvent::Created(None)) =>
                AddFeedAction::Finish(Err(String::from_str("feed insert returned no row"))),
            (AddFeedPhase::Creating, AddFeedEvent::Created(Some(None))) =>
                AddFeedAction::Finish(Err(String::from_str("feed insert missing id"))),
            (AddFeedPhase::Creating, AddFeedEvent::Created(Some(Some(id)))) => {
                let feed_id = id as i32;
                self.phase = AddFeedPhase::Subscribing { feed_id, created: true };
                AddFeedAction::Subscribe(feed_id)
            },
            (AddFeedPhase::Enqueueing { feed_id }, AddFeedEvent::Enqueued) => {
                self.phase = AddFeedPhase::Loading { feed_id, created: true, already: false };
                AddFeedAction::LoadFeedRow(feed_id)
            },
            (AddFeedPhase::Loading { feed_id, created, already }, AddFeedEvent::RowLoaded(found)) => {
                if found {
                    AddFeedAction::Finish(Ok(AddedFeed { feed_id, created, already }))
                } else if created {
                    AddFeedAction::Finish(Err(String::from_str("created feed row missing")))
                } else {
                    AddFeedAction::Finish(Err(String::from_str("subscribed feed row missing")))
                }
            },
            _ => AddFeedAction::Finish(Err(String::new())),
        }
    }
}

/// A phase an add can be in: a feed being loaded after it was created was
/// not already subscribed to.
pub open spec fn add_feed_phase_ok(p: AddFeedPhase) -> bool {
    p matches AddFeedPhase::Loading { created, already, .. } ==> !(created && already)
}

/// A new feed's first fetch is queued only after the device's subscription
/// is stored, so the fetch's subscription gate lets it through; a device
/// that already subscribed is never subscribed again; and a feed is never
/// reported both new to the pool and already subscribed.
pub proof fn add_feed_subscribes_before_fetching(s: AddFeedView, e: AddFeedEvent)
    requires
        add_feed_phase_ok(s.phase),
        add_feed_expects(s.phase, e),
    ensures
        add_feed_phase_ok(add_feed_step(s, e).0.phase),
        add_feed_step(s, e).1 is EnqueueFetch ==> s.phase is Subscribing && e is SubscriptionStored,
        add_feed_step(s, e).1 is Subscribe ==> !(e matches AddFeedEvent::Subscribed(true)),
        add_feed_step(s, e).1 matches AddFeedActionView::Finish(Ok(a)) ==> (a.created ==> !a.already),
{
}

/// A feed pool as adding a feed sees it: the id of the feed stored under
/// each canonical URL, the feeds this device subscribes to, and the id the
/// next inserted feed receives.
pub struct PoolModel {
    pub feeds: Map<Seq<char>, i64>,
    pub subscribed: Set<i32>,
    pub next_id: int,
}

/// Every stored id, and the next one, is a positive `i32`.
pub open spec fn pool_ids_fit(m: PoolModel) -> bool {
    &&& forall|u: Seq<char>| #[trigger] m.feeds.contains_key(u) ==> 0 < m.feeds[u] < i32::MAX
    &&& 0 < m.next_id < i32::MAX
}

pub open spec fn pool_has_feed(m: PoolModel, id: i32) -> bool {
    exists|u: Seq<char>| #[trigger] m.feeds.contains_key(u) && m.feeds[u] == id
}

/// How the pool answers a storage action, and what it holds afterwards.
pub open spec fn pool_answer(m: PoolModel, a: AddFeedActionView) -> (PoolModel, AddFeedEvent) {
    match a {
        AddFeedActionView::FindExisting(u) =>
            (m, AddFeedEvent::Existing(if m.feeds.contains_key(u) { Some(Some(m.feeds[u])) } else { None })),
        AddFeedActionView::CheckSubscribed(id) => (m, AddFeedEvent::Subscribed(m.subscribed.contains(id))),
        AddFeedActionView::Subscribe(id) =>
            (PoolModel { subscribed: m.subscribed.insert(id), ..m }, AddFeedEvent::SubscriptionStored),
        AddFeedActionView::CreateFeed(f) => (
            PoolModel { feeds: m.feeds.insert(f.normalized_url, m.next_id as i64), next_id: m.next_id + 1, ..m },
            AddFeedEvent::Created(Some(Some(m.next_id as i64))),
        ),
        AddFeedActionView::LoadFeedRow(id) => (m, AddFeedEvent::RowLoaded(pool_has_feed(m, id))),
        _ => (m, AddFeedEvent::Enqueued),
    }
}

/// Adding a feed run against a pool, from a state and the action it asked
/// for, until it finishes (within `fuel` answers): the pool afterwards and
/// the result.
pub open spec fn add_feed_against(m: PoolModel, s: AddFeedView, a: AddFeedActionView, fuel: nat)
    -> (PoolModel, Result<AddedFeed, Seq<char>>)
    decreases fuel,
{
    match a {
        AddFeedActionView::Finish(r) => (m, r),
        _ => if fuel == 0 {
            (m, Err(Seq::empty()))
        } else {
            let (m2, e) = pool_answer(m, a);
            let (s2, a2) = add_feed_step(s, e);
            add_feed_against(m2, s2, a2, (fuel - 1) as nat)
        },
    }
}

/// One whole add of the feed `f` against the pool `m`, as `begin` starts it.
pub open spec fn add_feed_to_pool(m: PoolModel, f: NewFeedView) -> (PoolModel, Result<AddedFeed, Seq<char>>) {
    add_feed_against(
        m,
        AddFeedView { feed: f, phase: AddFeedPhase::FindingExisting },
        AddFeedActionView::FindExisting(f.normalized_url),
        6,
    )
}

/// Adding is find-or-create and always succeeds against a pool: the result
/// says whether the feed was new to the pool (`created`) and whether this
/// device already subscribed (`already`), and afterwards the pool holds the
/// feed under its canonical URL with this device subscribed. Adding the same
/// feed again changes nothing and answers `created: false, already: true`
/// with the same feed.
pub proof fn adding_a_feed_again_changes_nothing(m: PoolModel, f: NewFeedView)
    requires
        pool_ids_fit(m),
    ensures
        ({
            let (m1, r1) = add_feed_to_pool(m, f);
            let c = f.normalized_url;
            let existed = m.feeds.contains_key(c);
            &&& r1 matches Ok(a)
            &&& a.created == !existed
            &&& a.already == (existed && m.subscribed.contains(m.feeds[c] as i32))
            &&& m1.feeds.contains_key(c) && m1.feeds[c] == a.feed_id
            &&& m1.subscribed.contains(a.feed_id)
            &&& add_feed_to_pool(m1, f) == (m1, Ok::<AddedFeed, Seq<char>>(AddedFeed { feed_id: a.feed_id, created: false, already: true }))
        }),
{
    reveal_with_fuel(add_feed_against, 7);
    let c = f.normalized_url;
    if m.feeds.contains_key(c) {
        let id = m.feeds[c];
        assert(pool_has_feed(m, id as i32));
        if m.subscribed.contains(id as i32) {
        } else {
            let m1 = PoolModel { subscribed: m.subscribed.insert(id as i32), ..m };
            assert(pool_has_feed(m1, id as i32));
        }
    } else {
        let id = m.next_id as i64;
        let m1 = PoolModel { feeds: m.feeds.insert(c, id), next_id: m.next_id + 1, ..m };
        assert(m1.feeds.contains_key(c) && m1.feeds[c] == id);
        assert(pool_has_feed(m1, id as i32));
        let m2 = PoolModel { subscribed: m1.subscribed.insert(id as i32), ..m1 };
        assert(m2.feeds.contains_key(c) && m2.feeds[c] == id);
        assert(pool_has_feed(m2, id as i32));
    }
}

// ---------------------------------------------------------------------------
// unsubscribing

/// What the worker does next while unsubscribing this device.
#[derive(Debug)]
pub enum UnsubscribeAction {
    /// Check that the feed exists.
    CheckFeed,
    /// Check that this device subscribes to it.
    CheckSubscribed,
    /// Delete this device's subscription.
    DeleteSubscription,
    /// Count the feed's remaining subscriptions.
    CountSubscribers,
    /// Delete the feed's articles, then the feed (last subscriber left).
    Prune,
    /// Done: whether the feed was pruned, or a 404 with its message.
    Finish(Result<bool, String>),
}

pub enum UnsubscribeActionView {
    CheckFeed,
    CheckSubscribed,
    DeleteSubscription,
    CountSubscribers,
    Prune,
    Finish(Result<bool, Seq<char>>),
}

impl View for UnsubscribeAction {
    type V = UnsubscribeActionView;

    open spec fn view(&self) -> UnsubscribeActionView {
        match self {
            UnsubscribeAction::CheckFeed => UnsubscribeActionView::CheckFeed,
            UnsubscribeAction::CheckSubscribed => UnsubscribeActionView::CheckSubscribed,
            UnsubscribeAction::DeleteSubscription => UnsubscribeActionView::DeleteSubscription,
            UnsubscribeAction::CountSubscribers => UnsubscribeActionView::CountSubscribers,
            UnsubscribeAction::Prune => UnsubscribeActionView::Prune,
            UnsubscribeAction::Finish(Ok(p)) => UnsubscribeActionView::Finish(Ok(*p)),
            UnsubscribeAction::Finish(Err(m)) => UnsubscribeActionView::Finish(Err(m@)),
        }
    }
}

/// What came of the last action.
#[derive(Debug, Clone, Copy)]
pub enum UnsubscribeEvent {
    FeedExists(bool),
    Subscribed(bool),
    SubscriptionDeleted,
    /// The remaining count as the query answered it (`None` counts as 0).
    Subscribers(Option<i64>),
    Pruned,
}

#[derive(Debug, Clone, Copy, PartialEq, Eq, Structural)]
pub enum UnsubscribePhase {
    CheckingFeed,
    CheckingSubscribed,
    Deleting,
    Counting,
    Pruning,
    Done,
}

pub open spec fn unsubscribe_expects(p: UnsubscribePhase, e: UnsubscribeEvent) -> bool {
    match p {
        UnsubscribePhase::CheckingFeed => e is FeedExists,
        UnsubscribePhase::CheckingSubscribed => e is Subscribed,
        UnsubscribePhase::Deleting => e is SubscriptionDeleted,
        UnsubscribePhase::Counting => e is Subscribers,
        UnsubscribePhase::Pruning => e is Pruned,
        UnsubscribePhase::Done => false,
    }
}

/// One step of unsubscribing: an unknown feed, or one this device does not
/// subscribe to, answers 404 without revealing other devices'
/// subscriptions; otherwise the subscription goes, and when none remains the
/// feed is pruned with its articles.
pub open spec fn unsubscribe_step(p: UnsubscribePhase, e: UnsubscribeEvent) -> (UnsubscribePhase, UnsubscribeActionView) {
    match (p, e) {
        (UnsubscribePhase::CheckingFeed, UnsubscribeEvent::FeedExists(true)) =>
            (UnsubscribePhase::CheckingSubscribed, UnsubscribeActionView::CheckSubscribed),
        (UnsubscribePhase::CheckingFeed, UnsubscribeEvent::FeedExists(false)) =>
            (UnsubscribePhase::Done, UnsubscribeActionView::Finish(Err("Feed not found"@))),
        (UnsubscribePhase::CheckingSubscribed, UnsubscribeEvent::Subscribed(true)) =>
            (UnsubscribePhase::Deleting, UnsubscribeActionView::DeleteSubscription),
        (UnsubscribePhase::CheckingSubscribed, UnsubscribeEvent::Subscribed(false)) =>
            (UnsubscribePhase::Done, UnsubscribeActionView::Finish(Err("Not subscribed to this feed"@))),
        (UnsubscribePhase::Deleting, UnsubscribeEvent::SubscriptionDeleted) =>
            (UnsubscribePhase::Counting, UnsubscribeActionView::CountSubscribers),
        (UnsubscribePhase::Counting, UnsubscribeEvent::Subscribers(left)) =>
            if (match left { Some(n) => n, None => 0 }) == 0 {
                (UnsubscribePhase::Pruning, UnsubscribeActionView::Prune)
            } else {
                (UnsubscribePhase::Done, UnsubscribeActionView::Finish(Ok(false)))
            },
        (UnsubscribePhase::Pruning, UnsubscribeEvent::Pruned) =>
            (UnsubscribePhase::Done, UnsubscribeActionView::Finish(Ok(true))),
        _ => (UnsubscribePhase::Done, UnsubscribeActionView::Finish(Err(Seq::empty()))),
    }
}

/// Unsubscribing a device from a pool feed, in progress.
pub struct Unsubscribe {
    phase: UnsubscribePhase,
}

impl View for Unsubscribe {
    type V = UnsubscribePhase;

    closed spec fn view(&self) -> UnsubscribePhase {
        self.phase
    }
}

impl Unsubscribe {
    /// Starts unsubscribing: first the feed must exist.
    pub fn begin() -> (r: (Unsubscribe, UnsubscribeAction))
        ensures
            r.0@ == UnsubscribePhase::CheckingFeed,
            r.1@ == UnsubscribeActionView::CheckFeed,
    {
        (Unsubscribe { phase: UnsubscribePhase::CheckingFeed }, UnsubscribeAction::CheckFeed)
    }

    pub fn expects(&self, e: UnsubscribeEvent) -> (r: bool)
        ensures
            r == unsubscribe_expects(self@, e),
    {
        match self.phase {
            UnsubscribePhase::CheckingFeed => matches!(e, UnsubscribeEvent::FeedExists(_)),
            UnsubscribePhase::CheckingSubscribed => matches!(e, UnsubscribeEvent::Subscribed(_)),
            UnsubscribePhase::Deleting => matches!(e, UnsubscribeEvent::SubscriptionDeleted),
            UnsubscribePhase::Counting => matches!(e, UnsubscribeEvent::Subscribers(_)),
            UnsubscribePhase::Pruning => matches!(e, UnsubscribeEvent::Pruned),
            UnsubscribePhase::Done => false,
        }
    }

    /// Applies the answer to the last action.
    pub fn step(&mut self, e: UnsubscribeEvent) -> (r: UnsubscribeAction)
        requires
            unsubscribe_expects(old(self)@, e),
        ensures
            (final(self)@, r@) == unsubscribe_step(old(self)@, e),
    {
        let phase = self.phase;
        self.phase = UnsubscribePhase::Done;
        match (phase, e) {
            (UnsubscribePhase::CheckingFeed, UnsubscribeEvent::FeedExists(found)) => {
                if found {
                    self.phase = UnsubscribePhase::CheckingSubscribed;
                    UnsubscribeAction::CheckSubscribed
                } else {
                    UnsubscribeAction::Finish(Err(String::from_str("Feed not found")))
                }
            },
            (UnsubscribePhase::CheckingSubscribed, UnsubscribeEvent::Subscribed(subscribed)) => {
                if subscribed {
                    self.phase = UnsubscribePhase::Deleting;
                    UnsubscribeAction::DeleteSubscription
                } else {
                    UnsubscribeAction::Finish(Err(String::from_str("Not subscribed to this feed")))
                }
            },
            (UnsubscribePhase::Deleting, UnsubscribeEvent::SubscriptionDeleted) => {
                self.phase = UnsubscribePhase::Counting;
                UnsubscribeAction::CountSubscribers
            },
            (UnsubscribePhase::Counting, UnsubscribeEvent::Subscribers(left)) => {
                let n = match left {
                    Some(n) => n,
                    None => 0,
                };
                if n == 0 {
                    self.phase = UnsubscribePhase::Pruning;
                    UnsubscribeAction::Prune
                } else {
                    UnsubscribeAction::Finish(Ok(false))
                }
            },
            (UnsubscribePhase::Pruning, UnsubscribeEvent::Pruned) => UnsubscribeAction::Finish(Ok(true)),
            _ => UnsubscribeAction::Finish(Err(String::new())),
        }
    }
}

/// A feed is pruned exactly when its last subscriber leaves, and never for a
/// device that was not subscribed.
pub proof fn prune_only_when_last_subscriber_leaves(p: UnsubscribePhase, e: UnsubscribeEvent)
    requires
        unsubscribe_expects(p, e),
    ensures
        unsubscribe_step(p, e).1 is Prune <==> (p == UnsubscribePhase::Counting
            && (match e { UnsubscribeEvent::Subscribers(Some(n)) => n == 0, UnsubscribeEvent::Subscribers(None) => true, _ => false })),
        unsubscribe_step(p, e).1 is DeleteSubscription ==> e matches UnsubscribeEvent::Subscribed(true),
{
}


/// The interval of a created feed is the requested one held to
/// 5..=1440 minutes: a requested value in range is kept as it is, a smaller
/// one becomes 5, a larger one 1440, and 15 is used only when none is given.
pub proof fn requested_interval_is_kept_within_bounds(input: AddFeedInputView)
    ensures
        new_feed_of(input) matches Ok(f) ==> match input.fetch_interval_minutes {
            Some(v) => (5 <= v <= 1440 ==> f.fetch_interval_minutes == v)
                && (v < 5 ==> f.fetch_interval_minutes == 5)
                && (v > 1440 ==> f.fetch_interval_minutes == 1440),
            None => f.fetch_interval_minutes == 15,
        },
{
}

}

//! Device identity for subscription isolation.
//!
//! The `X-User-Id` request header names a *device namespace*: one anonymous
//! browser. It is not authentication: any caller may send any key. This module
//! holds the canonicalisation of that key; looking the key up in the
//! `profiles` table is storage work done by the worker.
use vstd::prelude::*;
use crate::text::{trim, trimmed};

verus! {

/// Longest device key accepted, in UTF-8 bytes (an abuse guard; real keys are
/// 36-character UUIDs).
pub const MAX_DEVICE_KEY_BYTES: usize = 128;

/// The canonical device key for a raw header value: the value trimmed of
/// surrounding whitespace, or nothing when that is blank or longer than
/// [`MAX_DEVICE_KEY_BYTES`] bytes.
pub open spec fn device_key(raw: Seq<char>) -> Option<Seq<char>> {
    let key = trim(raw);
    if key.len() == 0 || vstd::utf8::encode_utf8(key).len() > MAX_DEVICE_KEY_BYTES {
        None
    } else {
        Some(key)
    }
}

/// Canonicalize a caller-supplied device key, or reject it.
///
/// Returns `None` when the header is blank or longer than 128 bytes.
pub fn normalize_device_key(raw: &str) -> (r: Option<String>)
    ensures
        r matches Some(k) ==> device_key(raw@) == Some(k@),
        r is None ==> device_key(raw@) is None,
{
    let key = trimmed(raw);
    let bytes = key.as_str().as_bytes().len();
    if key.as_str().is_empty() || bytes > MAX_DEVICE_KEY_BYTES {
        return None;
    }
    Some(key)
}


/// What the worker does next to resolve a device's profile id.
#[derive(Debug)]
pub enum ProfileStep {
    /// Look the key up in `profiles`.
    Lookup(String),
    /// Insert a profile for the key, returning its id.
    Insert(String),
    /// Resolution is over: the profile id, or why there is none.
    Done(Result<i32, String>),
}

pub enum ProfileStepView {
    Lookup(Seq<char>),
    Insert(Seq<char>),
    Done(Result<i32, Seq<char>>),
}

impl View for ProfileStep {
    type V = ProfileStepView;

    open spec fn view(&self) -> ProfileStepView {
        match self {
            ProfileStep::Lookup(k) => ProfileStepView::Lookup(k@),
            ProfileStep::Insert(k) => ProfileStepView::Insert(k@),
            ProfileStep::Done(Ok(id)) => ProfileStepView::Done(Ok(*id)),
            ProfileStep::Done(Err(m)) => ProfileStepView::Done(Err(m@)),
        }
    }
}

/// What came of the last step.
#[derive(Debug, Clone, Copy)]
pub enum ProfileEvent {
    /// The lookup's answer: the id of the matching row, if any.
    Looked(Option<i64>),
    /// The insert's answer: the new id, or `None` when the insert failed (for
    /// instance because another request provisioned the key first).
    Inserted(Option<i64>),
}

/// Where a resolution stands.
#[derive(Debug, Clone, Copy, PartialEq, Eq, Structural)]
pub enum ProfilePhase {
    FirstLookup,
    Inserting,
    SecondLookup,
    Resolved,
}

/// Resolving a device key to its profile id: look it up, provision it on
/// first sight, and when two requests race to provision the same key, fall
/// back to one more lookup.
pub struct ProfileResolution {
    key: String,
    phase: ProfilePhase,
}

pub struct ProfileResolutionView {
    pub key: Seq<char>,
    pub phase: ProfilePhase,
}

impl View for ProfileResolution {
    type V = ProfileResolutionView;

    closed spec fn view(&self) -> ProfileResolutionView {
        ProfileResolutionView { key: self.key@, phase: self.phase }
    }
}

pub open spec fn msg_header_required() -> Seq<char> {
    "X-User-Id header required"@
}

/// How resolution starts from the `X-User-Id` header (absent counts as
/// empty): an invalid key is refused, a valid one is looked up.
pub open spec fn profile_begin(header: Option<Seq<char>>) -> (Option<ProfileResolutionView>, ProfileStepView) {
    let raw = match header { Some(h) => h, None => Seq::empty() };
    match device_key(raw) {
        None => (None, ProfileStepView::Done(Err(msg_header_required()))),
        Some(k) => (Some(ProfileResolutionView { key: k, phase: ProfilePhase::FirstLookup }), ProfileStepView::Lookup(k)),
    }
}

pub open spec fn profile_expects(p: ProfilePhase, e: ProfileEvent) -> bool {
    match p {
        ProfilePhase::FirstLookup => e is Looked,
        ProfilePhase::Inserting => e is Inserted,
        ProfilePhase::SecondLookup => e is Looked,
        ProfilePhase::Resolved => false,
    }
}

/// One step: a found id ends resolution; a first miss provisions the key; a
/// failed insert is retried once as a lookup, which must then find it.
pub open spec fn profile_step(s: ProfileResolutionView, e: ProfileEvent) -> (ProfileResolutionView, ProfileStepView) {
    let done = ProfileResolutionView { phase: ProfilePhase::Resolved, ..s };
    match e {
        ProfileEvent::Looked(Some(id)) => (done, ProfileStepView::Done(Ok(id as i32))),
        ProfileEvent::Inserted(Some(id)) => (done, ProfileStepView::Done(Ok(id as i32))),
        ProfileEvent::Looked(None) => if s.phase == ProfilePhase::FirstLookup {
            (ProfileResolutionView { phase: ProfilePhase::Inserting, ..s }, ProfileStepView::Insert(s.key))
        } else {
            (done, ProfileStepView::Done(Err("profile provisioning failed"@)))
        },
        ProfileEvent::Inserted(None) => (ProfileResolutionView { phase: ProfilePhase::SecondLookup, ..s }, ProfileStepView::Lookup(s.key)),
    }
}

impl ProfileResolution {
    /// Starts resolving the device named by an `X-User-Id` header value.
    pub fn begin(header: Option<&str>) -> (r: (Option<ProfileResolution>, ProfileStep))
        ensures
            (match r.0 { Some(m) => Some(m@), None => None::<ProfileResolutionView> }, r.1@)
                == profile_begin(match header { Some(h) => Some(h@), None => None::<Seq<char>> }),
    {
        let raw = match header {
            Some(h) => h,
            None => {
                proof {
                    reveal_strlit("");
                }
                ""
            },
        };
        match normalize_device_key(raw) {
            None => (None, ProfileStep::Done(Err(String::from_str("X-User-Id header required")))),
            Some(key) => {
                let first = key.clone();
                (Some(ProfileResolution { key, phase: ProfilePhase::FirstLookup }), ProfileStep::Lookup(first))
            },
        }
    }

    /// Whether the resolution is waiting for this kind of event.
    pub fn expects(&self, e: ProfileEvent) -> (r: bool)
        ensures
            r == profile_expects(self@.phase, e),
    {
        match self.phase {
            ProfilePhase::FirstLookup => matches!(e, ProfileEvent::Looked(_)),
            ProfilePhase::Inserting => matches!(e, ProfileEvent::Inserted(_)),
            ProfilePhase::SecondLookup => matches!(e, ProfileEvent::Looked(_)),
            ProfilePhase::Resolved => false,
        }
    }

    /// Applies the answer to the last step.
    pub fn step(&mut self, e: ProfileEvent) -> (r: ProfileStep)
        requires
            profile_expects(old(self)@.phase, e),
        ensures
            (final(self)@, r@) == profile_step(old(self)@, e),
    {
        match e {
            ProfileEvent::Looked(Some(id)) => {
                self.phase = ProfilePhase::Resolved;
                ProfileStep::Done(Ok(id as i32))
            },
            ProfileEvent::Inserted(Some(id)) => {
                self.phase = ProfilePhase::Resolved;
                ProfileStep::Done(Ok(id as i32))
            },
            ProfileEvent::Looked(None) => {
                if self.phase == ProfilePhase::FirstLookup {
                    self.phase = ProfilePhase::Inserting;
                    ProfileStep::Insert(self.key.clone())
                } else {
                    self.phase = ProfilePhase::Resolved;
                    ProfileStep::Done(Err(String::from_str("profile provisioning failed")))
                }
            },
            ProfileEvent::Inserted(None) => {
                self.phase = ProfilePhase::SecondLookup;
                ProfileStep::Lookup(self.key.clone())
            },
        }
    }
}

/// The `profiles` table as resolution sees it: the id stored for each device
/// key (keys are unique), and the id the next inserted row receives.
pub struct ProfileTable {
    pub ids: Map<Seq<char>, i64>,
    pub next_id: int,
}

/// Every stored id, and the next one, is a positive `i32`.
pub open spec fn profile_ids_fit(t: ProfileTable) -> bool {
    &&& forall|k: Seq<char>| #[trigger] t.ids.contains_key(k) ==> 0 < t.ids[k] < i32::MAX
    &&& 0 < t.next_id < i32::MAX
}

/// How the table answers a step, and what it holds afterwards: an insert of
/// a key already present fails (the key is unique).
pub open spec fn profile_answer(t: ProfileTable, step: ProfileStepView) -> (ProfileTable, ProfileEvent) {
    match step {
        ProfileStepView::Lookup(k) =>
            (t, ProfileEvent::Looked(if t.ids.contains_key(k) { Some(t.ids[k]) } else { None })),
        ProfileStepView::Insert(k) => if t.ids.contains_key(k) {
            (t, ProfileEvent::Inserted(None))
        } else {
            (ProfileTable { ids: t.ids.insert(k, t.next_id as i64), next_id: t.next_id + 1 },
                ProfileEvent::Inserted(Some(t.next_id as i64)))
        },
        ProfileStepView::Done(_) => (t, ProfileEvent::Inserted(None)),
    }
}

/// Resolution run against a table from a state and the step it asked for,
/// until it is done (within `fuel` answers): the table afterwards and the
/// result.
pub open spec fn resolve_against(t: ProfileTable, s: ProfileResolutionView, step: ProfileStepView, fuel: nat)
    -> (ProfileTable, Result<i32, Seq<char>>)
    decreases fuel,
{
    match step {
        ProfileStepView::Done(r) => (t, r),
        _ => if fuel == 0 {
            (t, Err(Seq::empty()))
        } else {
            let (t2, e) = profile_answer(t, step);
            let (s2, step2) = profile_step(s, e);
            resolve_against(t2, s2, step2, (fuel - 1) as nat)
        },
    }
}

/// One whole resolution of an `X-User-Id` header against a table, as `begin`
/// starts it.
pub open spec fn resolve_profile(t: ProfileTable, header: Option<Seq<char>>) -> (ProfileTable, Result<i32, Seq<char>>) {
    match profile_begin(header) {
        (Some(s), step) => resolve_against(t, s, step, 3),
        (None, step) => match step {
            ProfileStepView::Done(r) => (t, r),
            _ => (t, Err(Seq::empty())),
        },
    }
}

/// A header whose key does not normalise is refused and the table is left
/// alone. Otherwise the device gets the id stored for its key, a row being
/// inserted only when there was none, and no row is ever removed; so a later
/// request whose key normalises to the same key gets the same id and
/// changes nothing.
pub proof fn a_device_key_keeps_its_profile(t: ProfileTable, h1: Option<Seq<char>>, h2: Option<Seq<char>>)
    requires
        profile_ids_fit(t),
        device_key(match h1 { Some(h) => h, None => Seq::empty() })
            == device_key(match h2 { Some(h) => h, None => Seq::empty() }),
    ensures
        ({
            let (t1, r1) = resolve_profile(t, h1);
            match device_key(match h1 { Some(h) => h, None => Seq::empty() }) {
                None => t1 == t && r1 == Err::<i32, Seq<char>>(msg_header_required()),
                Some(k) => {
                    &&& r1 matches Ok(id)
                    &&& t1.ids.contains_key(k) && t1.ids[k] == id
                    &&& t.ids.contains_key(k) ==> t1 == t && t.ids[k] == id
                    &&& !t.ids.contains_key(k) ==> t1.ids == t.ids.insert(k, id as i64)
                    &&& resolve_profile(t1, h2) == (t1, r1)
                },
            }
        }),
{
    reveal_with_fuel(resolve_against, 4);
}

}

//! Resolving a browser session to a durable user identity.
//!
//! Resolution alternates between reading or writing the session and asking
//! the identity store, so it is written as a state machine: each state names
//! the request that the driver makes next, and [`Resolution::advance`] takes
//! the answer. The identity record is a type parameter `U`; identities are
//! compared by their 128-bit id.
use vstd::prelude::*;

verus! {

/// Why a resolution failed. Every failure is reported to the caller.
#[derive(Debug)]
pub enum ResolveError {
    /// The session layer could not be read.
    SessionReadFailed(String),
    /// The session names an identity that the store no longer has.
    IdentityNotFound(u128),
    /// The identity store failed.
    StoreUnavailable(String),
    /// The new identity could not be written into the session.
    SessionWriteFailed(String),
}

/// Where a resolution stands, and so what the driver asks next.
pub enum Resolution<U> {
    /// Read the identity key stored in the session.
    ReadingSession,
    /// Look the stored identity up in the store.
    LoadingUser { id: u128 },
    /// Ask the store for a new anonymous identity.
    CreatingUser,
    /// Write the new identity's key into the session.
    WritingSession { id: u128, user: U },
    /// Finished: the session stands for this identity.
    Resolved { id: u128, user: U },
    /// Finished with an error.
    Failed(ResolveError),
}

/// The answer to the request that a [`Resolution`] names.
pub enum ResolveEvent<U> {
    /// The identity key read from the session, if it holds one.
    SessionRead(Result<Option<u128>, String>),
    /// The stored identity, if the store still has it.
    UserLoaded(Result<Option<U>, String>),
    /// The key and record of the identity that the store created.
    UserCreated(Result<(u128, U), String>),
    /// Whether the session write succeeded.
    SessionWritten(Result<(), String>),
}

/// One step of resolution. An answer to another request than the one that
/// was asked leaves the state as it is, and so does any answer once the
/// resolution is finished.
pub open spec fn next_resolution<U>(s: Resolution<U>, e: ResolveEvent<U>) -> Resolution<U> {
    match (s, e) {
        (Resolution::ReadingSession, ResolveEvent::SessionRead(r)) => match r {
            Ok(Some(id)) => Resolution::LoadingUser { id },
            Ok(None) => Resolution::CreatingUser,
            Err(m) => Resolution::Failed(ResolveError::SessionReadFailed(m)),
        },
        (Resolution::LoadingUser { id }, ResolveEvent::UserLoaded(r)) => match r {
            Ok(Some(user)) => Resolution::Resolved { id, user },
            Ok(None) => Resolution::Failed(ResolveError::IdentityNotFound(id)),
            Err(m) => Resolution::Failed(ResolveError::StoreUnavailable(m)),
        },
        (Resolution::CreatingUser, ResolveEvent::UserCreated(r)) => match r {
            Ok((id, user)) => Resolution::WritingSession { id, user },
            Err(m) => Resolution::Failed(ResolveError::StoreUnavailable(m)),
        },
        (Resolution::WritingSession { id, user }, ResolveEvent::SessionWritten(r)) => match r {
            Ok(()) => Resolution::Resolved { id, user },
            Err(m) => Resolution::Failed(ResolveError::SessionWriteFailed(m)),
        },
        (s, _) => s,
    }
}

impl<U> Resolution<U> {
    /// A resolution begins by reading the session.
    pub fn start() -> (r: Self)
        ensures
            r is ReadingSession,
    {
        Resolution::ReadingSession
    }

    /// Takes the answer to the current request.
    pub fn advance(self, event: ResolveEvent<U>) -> (r: Self)
        ensures
            r == next_resolution(self, event),
    {
        match (self, event) {
            (Resolution::ReadingSession, ResolveEvent::SessionRead(r)) => match r {
                Ok(Some(id)) => Resolution::LoadingUser { id },
                Ok(None) => Resolution::CreatingUser,
                Err(m) => Resolution::Failed(ResolveError::SessionReadFailed(m)),
            },
            (Resolution::LoadingUser { id }, ResolveEvent::UserLoaded(r)) => match r {
                Ok(Some(user)) => Resolution::Resolved { id, user },
                Ok(None) => Resolution::Failed(ResolveError::IdentityNotFound(id)),
                Err(m) => Resolution::Failed(ResolveError::StoreUnavailable(m)),
            },
            (Resolution::CreatingUser, ResolveEvent::UserCreated(r)) => match r {
                Ok((id, user)) => Resolution::WritingSession { id, user },
                Err(m) => Resolution::Failed(ResolveError::StoreUnavailable(m)),
            },
            (Resolution::WritingSession { id, user }, ResolveEvent::SessionWritten(r)) => match r {
                Ok(()) => Resolution::Resolved { id, user },
                Err(m) => Resolution::Failed(ResolveError::SessionWriteFailed(m)),
            },
            (s, _) => s,
        }
    }

    /// Whether nothing more is asked.
    pub fn is_finished(&self) -> (b: bool)
        ensures
            b == (self is Resolved || self is Failed),
    {
        match self {
            Resolution::Resolved { .. } | Resolution::Failed(_) => true,
            _ => false,
        }
    }

    /// The outcome of a finished resolution; `None` while a request is
    /// still pending.
    pub fn outcome(self) -> (r: Option<Result<U, ResolveError>>)
        ensures
            match self {
                Resolution::Resolved { user, .. } => r == Some(Ok::<U, ResolveError>(user)),
                Resolution::Failed(e) => r == Some(Err::<U, ResolveError>(e)),
                _ => r is None,
            },
    {
        match self {
            Resolution::Resolved { user, .. } => Some(Ok(user)),
            Resolution::Failed(e) => Some(Err(e)),
            _ => None,
        }
    }
}

/// A session slot and an identity store that answer faithfully: the slot
/// gives what was last written to it, the store finds exactly its rows, and
/// a creation adds the row `fresh`. Returns the answer and the slot and rows
/// afterwards.
pub open spec fn answer<U>(
    s: Resolution<U>,
    slot: Option<u128>,
    rows: Map<u128, U>,
    fresh: (u128, U),
) -> (ResolveEvent<U>, Option<u128>, Map<u128, U>) {
    match s {
        Resolution::ReadingSession => (ResolveEvent::SessionRead(Ok(slot)), slot, rows),
        Resolution::LoadingUser { id } => (
            ResolveEvent::UserLoaded(
                Ok(
                    if rows.contains_key(id) {
                        Some(rows[id])
                    } else {
                        None
                    },
                ),
            ),
            slot,
            rows,
        ),
        Resolution::CreatingUser => (
            ResolveEvent::UserCreated(Ok(fresh)),
            slot,
            rows.insert(fresh.0, fresh.1),
        ),
        Resolution::WritingSession { id, .. } => (
            ResolveEvent::SessionWritten(Ok(())),
            Some(id),
            rows,
        ),
        _ => (ResolveEvent::SessionWritten(Ok(())), slot, rows),
    }
}

/// `fuel` steps of resolution from `s` against a faithful slot and store.
pub open spec fn drive<U>(
    s: Resolution<U>,
    slot: Option<u128>,
    rows: Map<u128, U>,
    fresh: (u128, U),
    fuel: nat,
) -> (Resolution<U>, Option<u128>, Map<u128, U>)
    decreases fuel,
{
    if fuel == 0 {
        (s, slot, rows)
    } else {
        let (e, slot2, rows2) = answer(s, slot, rows, fresh);
        drive(next_resolution(s, e), slot2, rows2, fresh, (fuel - 1) as nat)
    }
}

/// One whole resolution against a faithful slot and store: the final state,
/// and the slot and rows afterwards. Four requests always suffice.
pub open spec fn resolve_once<U>(slot: Option<u128>, rows: Map<u128, U>, fresh: (u128, U)) -> (
    Resolution<U>,
    Option<u128>,
    Map<u128, U>,
) {
    drive(Resolution::ReadingSession, slot, rows, fresh, 4)
}

/// Resolutions one after another on the same session, the `i`-th one being
/// offered the row `freshes[i]` should it create one. Returns their final
/// states, and the slot and rows after the last.
pub open spec fn resolve_many<U>(
    slot: Option<u128>,
    rows: Map<u128, U>,
    freshes: Seq<(u128, U)>,
) -> (Seq<Resolution<U>>, Option<u128>, Map<u128, U>)
    decreases freshes.len(),
{
    if freshes.len() == 0 {
        (Seq::empty(), slot, rows)
    } else {
        let (r, slot2, rows2) = resolve_once(slot, rows, freshes[0]);
        let (rest, slot3, rows3) = resolve_many(slot2, rows2, freshes.drop_first());
        (seq![r] + rest, slot3, rows3)
    }
}

/// The finished state for identity `id` with record `user`.
pub open spec fn resolved_to<U>(id: u128, user: U) -> Resolution<U> {
    Resolution::Resolved { id, user }
}

/// Every resolution in `rs` returned identity `id` with record `user`.
pub open spec fn all_resolved_to<U>(rs: Seq<Resolution<U>>, id: u128, user: U) -> bool {
    forall|i: int| 0 <= i < rs.len() ==> #[trigger] rs[i] == resolved_to(id, user)
}

/// A session that holds the key of a stored identity resolves to it, and
/// neither the session nor the store changes.
pub proof fn lemma_resolve_stored<U>(id: u128, rows: Map<u128, U>, fresh: (u128, U))
    requires
        rows.contains_key(id),
    ensures
        resolve_once(Some(id), rows, fresh) == (resolved_to(id, rows[id]), Some(id), rows),
{
    reveal_with_fuel(drive, 5);
}

/// Idempotent resolution: however many times a session that holds the key of
/// a stored identity is resolved, every resolution returns that identity, and
/// neither the session nor the store changes.
pub proof fn lemma_resolution_idempotent<U>(id: u128, rows: Map<u128, U>, freshes: Seq<(u128, U)>)
    requires
        rows.contains_key(id),
    ensures
        resolve_many(Some(id), rows, freshes).0.len() == freshes.len(),
        all_resolved_to(resolve_many(Some(id), rows, freshes).0, id, rows[id]),
        resolve_many(Some(id), rows, freshes).1 == Some(id),
        resolve_many(Some(id), rows, freshes).2 == rows,
    decreases freshes.len(),
{
    if freshes.len() > 0 {
        lemma_resolve_stored(id, rows, freshes[0]);
        lemma_resolution_idempotent(id, rows, freshes.drop_first());
        let rest = resolve_many(Some(id), rows, freshes.drop_first()).0;
        let all = resolve_many(Some(id), rows, freshes).0;
        assert(all == seq![resolved_to(id, rows[id])] + rest);
        assert forall|i: int| 0 <= i < all.len() implies #[trigger] all[i] == resolved_to(
            id,
            rows[id],
        ) by {
            if i > 0 {
                assert(all[i] == rest[i - 1]);
            }
        }
    }
}

/// First-contact creation: a session with no stored identity gets exactly
/// one new row, whose key is written back into the session; every later
/// resolution on that session returns the same identity and creates no
/// other row.
pub proof fn lemma_first_contact<U>(rows: Map<u128, U>, fresh: (u128, U), later: Seq<(u128, U)>)
    requires
        !rows.contains_key(fresh.0),
    ensures
        resolve_once(None, rows, fresh) == (
            resolved_to(fresh.0, fresh.1),
            Some(fresh.0),
            rows.insert(fresh.0, fresh.1),
        ),
        rows.insert(fresh.0, fresh.1).dom() == rows.dom().insert(fresh.0),
        resolve_many(Some(fresh.0), rows.insert(fresh.0, fresh.1), later).0.len() == later.len(),
        all_resolved_to(
            resolve_many(Some(fresh.0), rows.insert(fresh.0, fresh.1), later).0,
            fresh.0,
            fresh.1,
        ),
        resolve_many(Some(fresh.0), rows.insert(fresh.0, fresh.1), later).1 == Some(fresh.0),
        resolve_many(Some(fresh.0), rows.insert(fresh.0, fresh.1), later).2 == rows.insert(
            fresh.0,
            fresh.1,
        ),
{
    reveal_with_fuel(drive, 5);
    let rows2 = rows.insert(fresh.0, fresh.1);
    assert(rows2.dom() =~= rows.dom().insert(fresh.0));
    lemma_resolution_idempotent(fresh.0, rows2, later);
}

/// Two fresh sessions, resolved one after the other against one store that
/// hands them distinct new ids: each session resolves to its own identity,
/// the two ids differ, and the store gains exactly those two rows.
pub proof fn lemma_two_sessions<U>(rows: Map<u128, U>, fa: (u128, U), fb: (u128, U))
    requires
        !rows.contains_key(fa.0),
        !rows.contains_key(fb.0),
        fa.0 != fb.0,
    ensures
        resolve_once(None, rows, fa).0 == resolved_to(fa.0, fa.1),
        resolve_once(None, resolve_once(None, rows, fa).2, fb).0 == resolved_to(fb.0, fb.1),
        resolve_once(None, resolve_once(None, rows, fa).2, fb).2 == rows.insert(fa.0, fa.1).insert(
            fb.0,
            fb.1,
        ),
        rows.insert(fa.0, fa.1).insert(fb.0, fb.1).dom() == rows.dom().insert(fa.0).insert(fb.0),
{
    lemma_first_contact(rows, fa, Seq::empty());
    let rows1 = rows.insert(fa.0, fa.1);
    lemma_first_contact(rows1, fb, Seq::empty());
    assert(rows1.insert(fb.0, fb.1).dom() =~= rows.dom().insert(fa.0).insert(fb.0));
}

/// Two first-contact resolutions of one session that race: both read the
/// empty session before either writes (two tabs opened at once). The first
/// then creates `fa` and writes its key, and the second creates `fb` and
/// writes its key over it. Returns both final states, and the slot and rows
/// afterwards.
pub open spec fn race_first_contact<U>(rows: Map<u128, U>, fa: (u128, U), fb: (u128, U)) -> (
    Resolution<U>,
    Resolution<U>,
    Option<u128>,
    Map<u128, U>,
) {
    let (a1, slot1, rows1) = drive(Resolution::ReadingSession, None, rows, fa, 1);
    let (b1, slot2, rows2) = drive(Resolution::ReadingSession, slot1, rows1, fb, 1);
    let (a2, slot3, rows3) = drive(a1, slot2, rows2, fa, 2);
    let (b2, slot4, rows4) = drive(b1, slot3, rows3, fb, 2);
    (a2, b2, slot4, rows4)
}

/// The race on a new session is bounded: each racer gets the identity it
/// created, the store gains exactly those two rows, the session keeps the
/// key written last, and every later resolution returns that identity and
/// creates nothing. The other row is an orphan that no session names.
pub proof fn lemma_first_contact_race<U>(
    rows: Map<u128, U>,
    fa: (u128, U),
    fb: (u128, U),
    later: Seq<(u128, U)>,
)
    requires
        !rows.contains_key(fa.0),
        !rows.contains_key(fb.0),
        fa.0 != fb.0,
    ensures
        race_first_contact(rows, fa, fb).0 == resolved_to(fa.0, fa.1),
        race_first_contact(rows, fa, fb).1 == resolved_to(fb.0, fb.1),
        race_first_contact(rows, fa, fb).2 == Some(fb.0),
        race_first_contact(rows, fa, fb).3 == rows.insert(fa.0, fa.1).insert(fb.0, fb.1),
        rows.insert(fa.0, fa.1).insert(fb.0, fb.1).dom() == rows.dom().insert(fa.0).insert(fb.0),
        all_resolved_to(
            resolve_many(Some(fb.0), rows.insert(fa.0, fa.1).insert(fb.0, fb.1), later).0,
            fb.0,
            fb.1,
        ),
        resolve_many(Some(fb.0), rows.insert(fa.0, fa.1).insert(fb.0, fb.1), later).2 == rows.insert(
            fa.0,
            fa.1,
        ).insert(fb.0, fb.1),
{
    reveal_with_fuel(drive, 3);
    let rows2 = rows.insert(fa.0, fa.1).insert(fb.0, fb.1);
    assert(rows2.dom() =~= rows.dom().insert(fa.0).insert(fb.0));
    assert(rows2[fb.0] == fb.1);
    lemma_resolution_idempotent(fb.0, rows2, later);
}

} // verus!

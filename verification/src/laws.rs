//! What holds of every request and of every run of a session.

use vstd::prelude::*;
use vstd::multiset::Multiset;
use crate::access::{expressible, windows_expressible};
use crate::alignment::{alignable, lemma_aligned_length_covers, lemma_offset_split};
use crate::error::MmapError;
use crate::granularity::active_granularity;
use crate::platform::Platform;
use crate::request::MappingRequest;
use crate::session::{session_of, Outcome, Session, WindowsStage};
use crate::syscall::{ledger_after, released_by, Resource};

verus! {

/// Where a session stands after its calls have been answered with
/// `replies`, one after the other. Replies that come after the session has
/// ended are not looked at.
pub open spec fn outcome_along(session: Session, replies: Seq<Result<usize, i32>>) -> Outcome
    decreases replies.len(),
{
    if replies.len() == 0 {
        Outcome::Pending(session)
    } else {
        match session.step(replies[0]) {
            Outcome::Pending(next) => outcome_along(next, replies.drop_first()),
            ended => ended,
        }
    }
}

/// What the process holds after the calls of a session have been answered
/// with `replies`, where it held `ledger` when the session was where it is.
pub open spec fn ledger_along(
    session: Session,
    replies: Seq<Result<usize, i32>>,
    ledger: Multiset<Resource>,
) -> Multiset<Resource>
    decreases replies.len(),
{
    if replies.len() == 0 {
        ledger
    } else {
        let after = ledger_after(ledger, session.pending_call(), replies[0]);
        match session.step(replies[0]) {
            Outcome::Pending(next) => ledger_along(next, replies.drop_first(), after),
            _ => after,
        }
    }
}

/// What the process holds on behalf of a session at an outcome: what the
/// session holds while it is pending, what the mapping owns once it is
/// mapped, nothing once it has failed.
pub open spec fn owed(outcome: Outcome) -> Multiset<Resource> {
    match outcome {
        Outcome::Pending(session) => session.held(),
        Outcome::Mapped(layout) => layout.resources(),
        Outcome::Failed(_) => Multiset::empty(),
    }
}

/// A session that has just been opened holds nothing.
pub proof fn lemma_open_session_holds_nothing(platform: Platform, request: MappingRequest)
    ensures
        session_of(platform, request) matches Ok(session) ==> session.held() == Multiset::<
            Resource,
        >::empty(),
{
}

/// One answered call takes the ledger from what the session held to what is
/// owed at the outcome: nothing is dropped from the books and nothing is
/// kept that the outcome does not account for. In particular a session
/// that ends in failure ends with everything released.
pub proof fn lemma_step_balances(session: Session, reply: Result<usize, i32>)
    ensures
        ledger_after(session.held(), session.pending_call(), reply) == owed(session.step(reply)),
{
    broadcast use vstd::multiset::group_multiset_axioms;

    let after = ledger_after(session.held(), session.pending_call(), reply);
    let expected = owed(session.step(reply));
    match session {
        Session::Posix(_) => {
            assert(after =~= expected);
        },
        Session::Windows(plan, stage) => {
            match stage {
                WindowsStage::ClosingSection { section, view } => {
                    match view {
                        Ok(base) => {
                            assert(Multiset::singleton(Resource::Handle(section)).insert(
                                Resource::View(base),
                            ).remove(Resource::Handle(section)) =~= Multiset::singleton(
                                Resource::View(base),
                            ));
                        },
                        Err(_) => {},
                    }
                    assert(after =~= expected);
                },
                _ => {
                    assert(after =~= expected);
                },
            }
        },
    }
}

/// A session gives back only what it holds: where the pending call
/// releases a resource, that resource is on the books of the session.
pub proof fn lemma_release_is_held(session: Session)
    ensures
        released_by(session.pending_call()) matches Some(resource) ==> session.held().count(
            resource,
        ) >= 1,
{
    broadcast use vstd::multiset::group_multiset_axioms;

}

/// However the system answers, the books balance: after any run of a
/// session, the process holds exactly what is owed at the outcome of the
/// run. A run that ends in failure leaves nothing behind, and a run that
/// ends in a mapping leaves exactly what the mapping owns.
pub proof fn lemma_run_balances(session: Session, replies: Seq<Result<usize, i32>>)
    ensures
        ledger_along(session, replies, session.held()) == owed(outcome_along(session, replies)),
    decreases replies.len(),
{
    if replies.len() > 0 {
        lemma_step_balances(session, replies[0]);
        match session.step(replies[0]) {
            Outcome::Pending(next) => {
                lemma_run_balances(next, replies.drop_first());
            },
            _ => {},
        }
    }
}

/// No run of a session that was opened for a request leaves anything
/// behind when it fails, and a request that is rejected has acquired
/// nothing to begin with.
pub proof fn lemma_failure_leaves_nothing(
    platform: Platform,
    request: MappingRequest,
    replies: Seq<Result<usize, i32>>,
)
    ensures
        session_of(platform, request) matches Ok(session) ==> (outcome_along(session, replies)
            is Failed ==> ledger_along(session, replies, Multiset::empty()) == Multiset::<
            Resource,
        >::empty()),
{
    match session_of(platform, request) {
        Ok(session) => {
            lemma_open_session_holds_nothing(platform, request);
            lemma_run_balances(session, replies);
        },
        Err(_) => {},
    }
}

/// An upper bound on the number of calls a session still makes, the pending
/// one included.
pub open spec fn calls_left(session: Session) -> nat {
    match session {
        Session::Posix(_) => 1,
        Session::Windows(_, stage) => match stage {
            WindowsStage::OpeningToken => 9,
            WindowsStage::LookingUpPrivilege { .. } => 8,
            WindowsStage::EnablingPrivilege { .. } => 7,
            WindowsStage::ClosingToken { .. } => 6,
            WindowsStage::CreatingSection => 5,
            WindowsStage::MappingView { .. } => 4,
            WindowsStage::ClosingSection { .. } => 3,
            WindowsStage::Duplicating { .. } | WindowsStage::Protecting { .. } => 2,
            WindowsStage::Unwinding { .. } => 1,
        },
    }
}

/// Every session ends: each answered call leaves fewer calls to make, so a
/// session is over after nine calls at most, and after one on a descriptor
/// platform.
pub proof fn lemma_step_makes_progress(session: Session, reply: Result<usize, i32>)
    ensures
        1 <= calls_left(session) <= 9,
        session is Posix ==> !(session.step(reply) is Pending),
        session.step(reply) matches Outcome::Pending(next) ==> calls_left(next) < calls_left(
            session,
        ),
{
}

/// A run that is as long as the bound on the calls of a session has ended.
pub proof fn lemma_run_ends(session: Session, replies: Seq<Result<usize, i32>>)
    requires
        replies.len() >= calls_left(session),
    ensures
        !(outcome_along(session, replies) is Pending),
    decreases replies.len(),
{
    lemma_step_makes_progress(session, replies[0]);
    match session.step(replies[0]) {
        Outcome::Pending(next) => {
            lemma_run_ends(next, replies.drop_first());
        },
        _ => {},
    }
}

/// A step changes neither the geometry of a session nor, where it ends in
/// a mapping, the geometry of what is mapped.
pub proof fn lemma_step_keeps_geometry(session: Session, reply: Result<usize, i32>)
    ensures
        match session.step(reply) {
            Outcome::Pending(next) => next.geometry() == session.geometry(),
            Outcome::Mapped(layout) => {
                &&& layout.aligned_len == session.geometry().aligned_len
                &&& layout.visible_offset == session.geometry().visible_offset
                &&& layout.len == session.geometry().len
            },
            Outcome::Failed(_) => true,
        },
{
}

/// Whatever the system answers, a mapping that comes out of a session has
/// the geometry the session was opened with: the visible length is the
/// requested length, and what the system mapped is the aligned length.
pub proof fn lemma_mapping_keeps_geometry(session: Session, replies: Seq<Result<usize, i32>>)
    ensures
        outcome_along(session, replies) matches Outcome::Mapped(layout) ==> {
            &&& layout.aligned_len == session.geometry().aligned_len
            &&& layout.visible_offset == session.geometry().visible_offset
            &&& layout.len == session.geometry().len
        },
        outcome_along(session, replies) matches Outcome::Pending(next) ==> next.geometry()
            == session.geometry(),
    decreases replies.len(),
{
    if replies.len() > 0 {
        lemma_step_keeps_geometry(session, replies[0]);
        match session.step(replies[0]) {
            Outcome::Pending(next) => {
                lemma_mapping_keeps_geometry(next, replies.drop_first());
            },
            _ => {},
        }
    }
}

/// A request of length zero is mapped over at least one byte, and the
/// mapping that comes of it shows none: the promotion to one byte does not
/// reach the visible range.
pub proof fn lemma_zero_length_promotion(
    platform: Platform,
    request: MappingRequest,
    replies: Seq<Result<usize, i32>>,
)
    requires
        platform.well_formed(),
        request.len == 0,
    ensures
        session_of(platform, request) matches Ok(session) ==> {
            &&& session.geometry().aligned_len >= 1
            &&& session.geometry().len == 0
            &&& (outcome_along(session, replies) matches Outcome::Mapped(layout)
                ==> layout.aligned_len >= 1 && layout.len == 0)
        },
{
    match session_of(platform, request) {
        Ok(session) => {
            lemma_request_geometry(platform, request);
            lemma_mapping_keeps_geometry(session, replies);
        },
        Err(_) => {},
    }
}

/// The geometry of an accepted request: the aligned offset and the visible
/// offset add up to the requested offset, the aligned offset is a multiple
/// of the granularity that is in force for the request, and what is mapped
/// covers the requested length from the visible offset on and is never
/// empty.
pub proof fn lemma_request_geometry(platform: Platform, request: MappingRequest)
    requires
        platform.well_formed(),
    ensures
        session_of(platform, request) matches Ok(session) ==> {
            let g = session.geometry();
            let granularity = active_granularity(platform, request);
            &&& g.aligned_offset + g.visible_offset == request.offset
            &&& g.aligned_offset as int % granularity as int == 0
            &&& g.visible_offset < granularity
            &&& g.len == request.len
            &&& g.aligned_len == vstd::math::max(request.len + g.visible_offset, 1)
            &&& g.well_formed()
        },
{
    let granularity = active_granularity(platform, request);
    match session_of(platform, request) {
        Ok(session) => {
            lemma_offset_split(request.offset, request.len, granularity);
            assert(alignable(request.offset, request.len, granularity));
            lemma_aligned_length_covers(request.offset, request.len, granularity);
        },
        Err(_) => {},
    }
}

/// A request that asks to write without reading is rejected as
/// inexpressible access, on every platform and whatever else it asks for.
pub proof fn lemma_write_needs_read(platform: Platform, request: MappingRequest)
    requires
        request.write,
        !request.read,
    ensures
        session_of(platform, request) == Err::<Session, MmapError>(MmapError::InvalidAccess),
{
}

/// A request that asks for any access without reading is rejected as
/// inexpressible access, and so is one that asks for no access at all.
pub proof fn lemma_access_needs_read(platform: Platform, request: MappingRequest)
    requires
        !request.read,
    ensures
        session_of(platform, request) == Err::<Session, MmapError>(MmapError::InvalidAccess),
{
}

/// Whether the access of a request can be expressed on a platform.
pub open spec fn access_accepted(platform: Platform, request: MappingRequest) -> bool {
    match platform {
        Platform::Posix(_) => expressible(request.read, request.write, request.execute),
        Platform::Windows(_) => windows_expressible(
            request.read,
            request.write,
            request.copy_on_write,
        ),
    }
}

/// A request whose access can be expressed and which sets both residency
/// hints is rejected for its conflicting advice.
pub proof fn lemma_residency_hints_conflict(platform: Platform, request: MappingRequest)
    requires
        access_accepted(platform, request),
        request.advise_willneed,
        request.advise_dontneed,
    ensures
        session_of(platform, request) == Err::<Session, MmapError>(MmapError::ConflictingAdvice),
{
}

/// A request whose access can be expressed and which sets more than one of
/// the access-pattern hints is rejected for its conflicting advice.
pub proof fn lemma_pattern_hints_conflict(platform: Platform, request: MappingRequest)
    requires
        access_accepted(platform, request),
        crate::advice::pattern_conflict(request),
    ensures
        session_of(platform, request) == Err::<Session, MmapError>(MmapError::ConflictingAdvice),
{
}

/// On a handle platform a request that asks both to write in place and to
/// write to a private copy is rejected as inexpressible access.
pub proof fn lemma_write_excludes_copy_on_write(platform: Platform, request: MappingRequest)
    requires
        platform is Windows,
        request.write,
        request.copy_on_write,
    ensures
        session_of(platform, request) == Err::<Session, MmapError>(MmapError::InvalidAccess),
{
}

/// A request is accepted exactly when its access can be expressed, its
/// hints do not exclude each other and its aligned length is representable;
/// and it is rejected for the first of these that fails.
pub proof fn lemma_acceptance(platform: Platform, request: MappingRequest)
    ensures
        session_of(platform, request) is Ok <==> {
            &&& access_accepted(platform, request)
            &&& !crate::advice::conflicting(request)
            &&& alignable(request.offset, request.len, active_granularity(platform, request))
        },
        session_of(platform, request) matches Err(e) ==> e == (if !access_accepted(
            platform,
            request,
        ) {
            MmapError::InvalidAccess
        } else if crate::advice::conflicting(request) {
            MmapError::ConflictingAdvice
        } else {
            MmapError::InvalidLength
        }),
{
}

} // verus!

//! The identity resolver's grow-and-retry protocol.
//!
//! The native user-database lookup writes its result through a
//! caller-supplied scratch buffer whose required size cannot be asked for
//! in advance, so the resolver offers a buffer of a fixed initial size and
//! grows it by a fixed step on every "insufficient buffer" answer, up to a
//! hard ceiling. The native call itself is operating-system work the
//! hosting process performs; everything the resolver decides — how to read
//! an outcome, when to retry, with what size, when to give up — lives
//! here, verified. `resolve_from_outcomes` runs the whole protocol over a
//! pre-recorded list of outcomes, which is also how tests exercise it.

use vstd::prelude::*;

verus! {

/// Size, in bytes, of the first scratch buffer offered to the native
/// lookup.
pub const PWBUF_INITIAL_SIZE: usize = 2048;

/// How much the scratch buffer grows after the native lookup reports that
/// the buffer it was given was too small.
pub const PWBUF_GROW_STEP: usize = 2048;

/// Hard ceiling on the scratch buffer: when a buffer of at least this size
/// is still reported as too small, the resolver gives up.
pub const PWBUF_MAX_SIZE: usize = 8192;

/// What one native lookup call reported, read off its status code and
/// output pointer.
pub enum LookupOutcome {
    /// The entry was found; the name field decoded as text, or was absent.
    Found(Option<String>),
    /// The scratch buffer was too small for the entry.
    InsufficientBuffer,
    /// No entry exists for the user id: a valid "no user" answer.
    NoEntry,
    /// Any other status code: the native layer broke its protocol.
    Unexpected(i32),
}

/// What the resolver does with one outcome.
pub enum LookupStep {
    /// Resolution is finished: the name, or absence.
    Done(Option<String>),
    /// Call the lookup again with a buffer of this size.
    Retry(usize),
    /// The native layer broke protocol: the host must abort with this
    /// status code, which no documented cause explains.
    Abort(i32),
}

/// How the resolver ends.
pub enum Resolution {
    /// The username, or absence when no entry (or no name) was found, or
    /// when the ceiling was reached.
    Settled(Option<String>),
    /// The native layer returned an undocumented status: the host must
    /// abort rather than log a misleading identity.
    Violation(i32),
}

/// What the resolver decides after one lookup attempt with a buffer of
/// `bufsize` bytes: a found entry or a definite absence settles it; an
/// undocumented status is fatal; a too-small buffer earns one retry with
/// `PWBUF_GROW_STEP` more bytes, unless the buffer already reached
/// `PWBUF_MAX_SIZE`, in which case the resolver gives up with absence.
pub open spec fn spec_lookup_advance(outcome: LookupOutcome, bufsize: usize) -> LookupStep {
    match outcome {
        LookupOutcome::Found(name) => LookupStep::Done(name),
        LookupOutcome::NoEntry => LookupStep::Done(None),
        LookupOutcome::Unexpected(code) => LookupStep::Abort(code),
        LookupOutcome::InsufficientBuffer => if bufsize < PWBUF_MAX_SIZE {
            LookupStep::Retry((bufsize + PWBUF_GROW_STEP) as usize)
        } else {
            LookupStep::Done(None)
        },
    }
}

/// One step of the protocol, exactly `spec_lookup_advance`.
pub fn lookup_advance(outcome: LookupOutcome, bufsize: usize) -> (step: LookupStep)
    ensures
        step == spec_lookup_advance(outcome, bufsize),
{
    match outcome {
        LookupOutcome::Found(name) => LookupStep::Done(name),
        LookupOutcome::NoEntry => LookupStep::Done(None),
        LookupOutcome::Unexpected(code) => LookupStep::Abort(code),
        LookupOutcome::InsufficientBuffer => {
            if bufsize < PWBUF_MAX_SIZE {
                LookupStep::Retry(bufsize + PWBUF_GROW_STEP)
            } else {
                LookupStep::Done(None)
            }
        },
    }
}

/// Where the protocol ends when attempt `i` is answered by `outcomes[i]`,
/// the first attempt offering `bufsize` bytes; `None` when the recorded
/// outcomes run out before the protocol finishes.
pub open spec fn spec_resolve(outcomes: Seq<LookupOutcome>, bufsize: usize) -> Option<Resolution>
    decreases outcomes,
{
    if outcomes.len() == 0 {
        None
    } else {
        match spec_lookup_advance(outcomes[0], bufsize) {
            LookupStep::Done(name) => Some(Resolution::Settled(name)),
            LookupStep::Abort(code) => Some(Resolution::Violation(code)),
            LookupStep::Retry(grown) => spec_resolve(outcomes.drop_first(), grown),
        }
    }
}

/// Runs the whole grow-and-retry protocol against a pre-recorded script of
/// native outcomes, starting from the initial buffer size: what the
/// resolver would settle on if the native lookup answered attempt `i` with
/// `outcomes[i]`. Returns `None` when the script ends before the protocol
/// does — a script of four outcomes is always long enough.
pub fn resolve_from_outcomes(outcomes: &Vec<LookupOutcome>) -> (r: Option<Resolution>)
    ensures
        r == spec_resolve(outcomes@, PWBUF_INITIAL_SIZE),
{
    let mut i: usize = 0;
    let mut bufsize: usize = PWBUF_INITIAL_SIZE;
    proof {
        assert(outcomes@.subrange(0, outcomes@.len() as int) =~= outcomes@);
    }
    while i < outcomes.len()
        invariant
            i <= outcomes@.len(),
            spec_resolve(outcomes@.subrange(i as int, outcomes@.len() as int), bufsize)
                == spec_resolve(outcomes@, PWBUF_INITIAL_SIZE),
        decreases outcomes@.len() - i,
    {
        let ghost remaining = outcomes@.subrange(i as int, outcomes@.len() as int);
        let outcome = match &outcomes[i] {
            LookupOutcome::Found(Some(name)) => LookupOutcome::Found(Some(name.clone())),
            LookupOutcome::Found(None) => LookupOutcome::Found(None),
            LookupOutcome::InsufficientBuffer => LookupOutcome::InsufficientBuffer,
            LookupOutcome::NoEntry => LookupOutcome::NoEntry,
            LookupOutcome::Unexpected(code) => LookupOutcome::Unexpected(*code),
        };
        proof {
            assert(remaining[0] == outcomes@[i as int]);
            assert(remaining.drop_first() =~= outcomes@.subrange(
                i + 1,
                outcomes@.len() as int,
            ));
        }
        match lookup_advance(outcome, bufsize) {
            LookupStep::Done(name) => {
                return Some(Resolution::Settled(name));
            },
            LookupStep::Abort(code) => {
                return Some(Resolution::Violation(code));
            },
            LookupStep::Retry(grown) => {
                bufsize = grown;
            },
        }
        i = i + 1;
    }
    proof {
        assert(outcomes@.subrange(i as int, outcomes@.len() as int) =~= Seq::<
            LookupOutcome,
        >::empty());
    }
    None
}

/// Law: the protocol never needs more than four attempts — the buffer
/// starts at 2048 bytes and can only grow to 4096, 6144 and 8192 before
/// the ceiling stops it — so any script of at least four outcomes settles
/// it, whatever the native layer answers: the resolver cannot loop
/// forever.
pub proof fn lemma_resolver_attempts_bounded(outcomes: Seq<LookupOutcome>)
    requires
        outcomes.len() >= 4,
    ensures
        spec_resolve(outcomes, PWBUF_INITIAL_SIZE) is Some,
{
    let d1 = outcomes.drop_first();
    let d2 = d1.drop_first();
    let d3 = d2.drop_first();
    assert(d1.len() >= 3 && d2.len() >= 2 && d3.len() >= 1);
    if outcomes[0] is InsufficientBuffer {
        assert(spec_resolve(outcomes, PWBUF_INITIAL_SIZE) == spec_resolve(d1, 4096));
        if d1[0] is InsufficientBuffer {
            assert(spec_resolve(d1, 4096) == spec_resolve(d2, 6144));
            if d2[0] is InsufficientBuffer {
                assert(spec_resolve(d2, 6144) == spec_resolve(d3, 8192));
                assert(spec_resolve(d3, 8192) is Some);
            }
        }
    }
}

} // verus!

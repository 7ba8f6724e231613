//! The poll cycle: one fetch-then-persist unit of work.
//!
//! The fetch collaborator is outside this core; the process calls it and
//! hands the outcome — the fetched blob, or nothing on a fetch error — to
//! the cycle, which persists under the storage protocol. No failure of any
//! step escapes a cycle: a failed fetch is reported at low severity and the
//! cycle ends (the next scheduled cycle is the retry), and a failed persist
//! adds one further low-severity report on top of what the persistence
//! writer already emitted.

use vstd::prelude::*;
use crate::diag::{Diag, DiagEvent};
use crate::store::{persist_transition, IoOutcome, LogStore};

verus! {

/// The diagnostics one cycle emits, given the fetch outcome, the store it
/// started from and the filesystem outcomes: a single fetch report on a
/// failed fetch; otherwise whatever the persist attempt emits, plus one
/// cycle-level report when that attempt failed.
pub open spec fn cycle_diag(
    s: crate::store::LogStoreView,
    fetched: Option<Seq<u8>>,
    io: IoOutcome,
) -> Seq<DiagEvent> {
    match fetched {
        None => seq![DiagEvent::FetchFailed],
        Some(content) => {
            let (s2, ok, ev) = persist_transition(s, content, io);
            if ok {
                ev
            } else {
                ev.push(DiagEvent::PersistFailed)
            }
        },
    }
}

/// Where one cycle leaves the store: untouched on a failed fetch, and at
/// the persist transition's result otherwise.
pub open spec fn cycle_transition(
    s: crate::store::LogStoreView,
    fetched: Option<Seq<u8>>,
    io: IoOutcome,
) -> crate::store::LogStoreView {
    match fetched {
        None => s,
        Some(content) => persist_transition(s, content, io).0,
    }
}

/// Perform one fetch-then-persist unit of work on the fetch outcome the
/// process hands in. Never fails: every error is contained and reported to
/// the diagnostic sink.
pub fn fetch_and_persist_once(
    store: &mut LogStore,
    fetched: Option<Vec<u8>>,
    io: IoOutcome,
    diag: &mut Diag,
)
    ensures
        final(store)@ == cycle_transition(old(store)@, fetched_view(fetched), io),
        final(diag)@ == old(diag)@ + cycle_diag(old(store)@, fetched_view(fetched), io),
{
    match fetched {
        Some(content) => {
            let ghost ev = persist_transition(store@, content@, io).2;
            let r = store.persist_sulog_content(content.as_slice(), io, diag);
            if r.is_err() {
                diag.record(DiagEvent::PersistFailed);
                proof {
                    assert((old(diag)@ + ev).push(DiagEvent::PersistFailed) =~= old(diag)@
                        + ev.push(DiagEvent::PersistFailed));
                }
            }
        },
        None => {
            diag.record(DiagEvent::FetchFailed);
            proof {
                assert(old(diag)@.push(DiagEvent::FetchFailed) =~= old(diag)@ + seq![
                    DiagEvent::FetchFailed,
                ]);
            }
        },
    }
}

/// The byte views of an optional fetched blob.
pub open spec fn fetched_view(fetched: Option<Vec<u8>>) -> Option<Seq<u8>> {
    match fetched {
        Some(v) => Some(v@),
        None => None,
    }
}

} // verus!

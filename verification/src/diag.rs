//! Diagnostic sink.
//!
//! Every failure inside the poller is contained: nothing propagates to the
//! caller of the public entry point. What each component does instead is
//! report the failure to a diagnostic sink. The sink records events in
//! order, so a contract can say exactly which diagnostics a step emits.

use vstd::prelude::*;

verus! {

/// How serious a diagnostic is: transient conditions are low-severity,
/// conditions that lose a persist attempt are elevated.
#[derive(Clone, Copy, Debug, PartialEq, Eq)]
pub enum Severity {
    Low,
    Elevated,
}

/// One reportable failure inside the poller.
#[derive(Clone, Copy, Debug, PartialEq, Eq)]
pub enum DiagEvent {
    /// The fetch collaborator returned an error.
    FetchFailed,
    /// The directory-ensure collaborator failed.
    EnsureDirFailed,
    /// The rotation rename failed; the append proceeds regardless.
    RotateFailed,
    /// The target file could not be opened for append.
    OpenFailed,
    /// The append to the target file failed.
    WriteFailed,
    /// A whole persist attempt failed (already reported in more detail).
    PersistFailed,
}

/// The severity each event is reported at: fetch, rotation and whole-cycle
/// failures are transient and low-severity; directory, open and write
/// failures abort a persist attempt and are elevated.
pub open spec fn severity_spec(e: DiagEvent) -> Severity {
    match e {
        DiagEvent::FetchFailed => Severity::Low,
        DiagEvent::EnsureDirFailed => Severity::Elevated,
        DiagEvent::RotateFailed => Severity::Low,
        DiagEvent::OpenFailed => Severity::Elevated,
        DiagEvent::WriteFailed => Severity::Elevated,
        DiagEvent::PersistFailed => Severity::Low,
    }
}

/// Report the severity an event is logged at.
pub fn severity_of(e: DiagEvent) -> (s: Severity)
    ensures
        s == severity_spec(e),
{
    match e {
        DiagEvent::FetchFailed => Severity::Low,
        DiagEvent::EnsureDirFailed => Severity::Elevated,
        DiagEvent::RotateFailed => Severity::Low,
        DiagEvent::OpenFailed => Severity::Elevated,
        DiagEvent::WriteFailed => Severity::Elevated,
        DiagEvent::PersistFailed => Severity::Low,
    }
}

/// An in-order record of the diagnostics emitted so far.
pub struct Diag {
    events: Vec<DiagEvent>,
}

impl View for Diag {
    type V = Seq<DiagEvent>;

    closed spec fn view(&self) -> Seq<DiagEvent> {
        self.events@
    }
}

impl Diag {
    /// A sink that has recorded nothing.
    pub fn new() -> (d: Diag)
        ensures
            d@ == Seq::<DiagEvent>::empty(),
    {
        Diag { events: Vec::new() }
    }

    /// Record one event after everything recorded so far.
    pub fn record(&mut self, e: DiagEvent)
        ensures
            final(self)@ == old(self)@.push(e),
    {
        self.events.push(e);
    }

    /// The events recorded so far, oldest first.
    pub fn events(&self) -> (r: &Vec<DiagEvent>)
        ensures
            r@ == self@,
    {
        &self.events
    }
}

} // verus!

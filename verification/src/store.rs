//! The rotation-and-append storage protocol.
//!
//! `LogStore` is the state the protocol acts on: the contents of the current
//! log file and of the single backup slot. Each persist attempt takes the
//! outcomes of the filesystem steps it depends on — ensuring the directory,
//! renaming during rotation, opening and writing the file — as an
//! `IoOutcome`, so the protocol's decisions are checked for every way those
//! steps can go, and a contract pins down the store, the reported result and
//! the emitted diagnostics in each case.

use vstd::prelude::*;
use crate::diag::{Diag, DiagEvent};

verus! {

/// Rotation threshold in bytes: a current file strictly over this size is
/// renamed to the backup slot before the next append.
pub const ROTATE_SIZE_BYTES: u64 = 32 * 1024 * 1024;

/// The outcomes of the filesystem steps one persist attempt depends on.
#[derive(Clone, Copy, Debug, PartialEq, Eq)]
pub struct IoOutcome {
    /// The directory-ensure collaborator succeeded.
    pub dir_ok: bool,
    /// The rotation rename succeeded (only consulted when rotation is due).
    pub rename_ok: bool,
    /// The target file opened for append.
    pub open_ok: bool,
    /// The append wrote the whole blob.
    pub write_ok: bool,
}

/// Mathematical state of the two log files: the bytes of the actively
/// appended current file, and the bytes of the backup slot if a rotation
/// has ever filled it.
pub struct LogStoreView {
    pub current: Seq<u8>,
    pub backup: Option<Seq<u8>>,
}

/// The state both files start in: an empty current file and no backup.
pub open spec fn empty_store() -> LogStoreView {
    LogStoreView { current: Seq::empty(), backup: None }
}

/// Rotation is due when the current file is strictly over the threshold.
pub open spec fn needs_rotation(s: LogStoreView) -> bool {
    s.current.len() > ROTATE_SIZE_BYTES as nat
}

/// Where rotation takes the store: when due and the rename succeeds, the
/// current contents move whole into the backup slot (overwriting any prior
/// backup) and the current file starts fresh; otherwise nothing moves.
pub open spec fn rotate_transition(s: LogStoreView, rename_ok: bool) -> LogStoreView {
    if needs_rotation(s) && rename_ok {
        LogStoreView { current: Seq::empty(), backup: Some(s.current) }
    } else {
        s
    }
}

/// The diagnostics rotation emits: a low-severity report when the rename
/// fails while rotation is due, and nothing otherwise.
pub open spec fn rotate_diag(s: LogStoreView, rename_ok: bool) -> Seq<DiagEvent> {
    if needs_rotation(s) && !rename_ok {
        seq![DiagEvent::RotateFailed]
    } else {
        Seq::empty()
    }
}

/// Where one persist attempt takes the store, whether it succeeds, and which
/// diagnostics it emits. An empty blob succeeds trivially with no I/O. A
/// directory-ensure failure aborts before rotation. Otherwise rotation runs
/// first, and the append happens only if the file opens and the write goes
/// through; a failed rename never stops the append.
pub open spec fn persist_transition(s: LogStoreView, content: Seq<u8>, io: IoOutcome) -> (
    LogStoreView,
    bool,
    Seq<DiagEvent>,
) {
    if content.len() == 0 {
        (s, true, Seq::empty())
    } else if !io.dir_ok {
        (s, false, seq![DiagEvent::EnsureDirFailed])
    } else {
        let rotated = rotate_transition(s, io.rename_ok);
        let rd = rotate_diag(s, io.rename_ok);
        if !io.open_ok {
            (rotated, false, rd.push(DiagEvent::OpenFailed))
        } else if !io.write_ok {
            (rotated, false, rd.push(DiagEvent::WriteFailed))
        } else {
            (LogStoreView { current: rotated.current + content, backup: rotated.backup }, true, rd)
        }
    }
}

/// Decide rotation from an observed current-file size, as the rotation
/// manager does: strictly over the threshold.
pub fn should_rotate(size: u64) -> (r: bool)
    ensures
        r == (size > ROTATE_SIZE_BYTES),
{
    size > ROTATE_SIZE_BYTES
}

fn append_bytes(dst: &mut Vec<u8>, src: &[u8])
    ensures
        final(dst)@ == old(dst)@ + src@,
{
    let mut i: usize = 0;
    while i < src.len()
        invariant
            i <= src@.len(),
            dst@ == old(dst)@ + src@.take(i as int),
        decreases src@.len() - i,
    {
        let b = src[i];
        dst.push(b);
        proof {
            assert(old(dst)@ + src@.take(i + 1) =~= (old(dst)@ + src@.take(i as int)).push(
                src@[i as int],
            ));
        }
        i = i + 1;
    }
    proof {
        assert(src@.take(src@.len() as int) =~= src@);
    }
}

/// The current log file and the single backup slot.
pub struct LogStore {
    current: Vec<u8>,
    backup: Option<Vec<u8>>,
}

impl View for LogStore {
    type V = LogStoreView;

    closed spec fn view(&self) -> LogStoreView {
        LogStoreView {
            current: self.current@,
            backup: match self.backup {
                Some(v) => Some(v@),
                None => None,
            },
        }
    }
}

impl LogStore {
    /// A store with an empty current file and no backup.
    pub fn new() -> (s: LogStore)
        ensures
            s@ == empty_store(),
    {
        let s = LogStore { current: Vec::new(), backup: None };
        proof {
            assert(s@.current =~= empty_store().current);
        }
        s
    }

    /// The bytes of the current file.
    pub fn current_bytes(&self) -> (r: &Vec<u8>)
        ensures
            r@ == self@.current,
    {
        &self.current
    }

    /// The size of the current file in bytes.
    pub fn current_len(&self) -> (n: usize)
        ensures
            n == self@.current.len(),
    {
        self.current.len()
    }

    /// The bytes of the backup slot, if a rotation has filled it.
    pub fn backup_bytes(&self) -> (r: Option<&Vec<u8>>)
        ensures
            match r {
                Some(v) => self@.backup == Some(v@),
                None => self@.backup is None,
            },
    {
        match &self.backup {
            Some(v) => Some(v),
            None => None,
        }
    }

    /// Rotate the current file into the backup slot if it is over the
    /// threshold, taking the rename's outcome; a failed rename is reported
    /// at low severity and leaves both files as they were.
    pub fn rotate_if_needed(&mut self, rename_ok: bool, diag: &mut Diag)
        ensures
            final(self)@ == rotate_transition(old(self)@, rename_ok),
            final(diag)@ == old(diag)@ + rotate_diag(old(self)@, rename_ok),
    {
        if self.current.len() as u64 > ROTATE_SIZE_BYTES {
            if rename_ok {
                let mut fresh: Vec<u8> = Vec::new();
                core::mem::swap(&mut self.current, &mut fresh);
                self.backup = Some(fresh);
            } else {
                diag.record(DiagEvent::RotateFailed);
                proof {
                    assert(old(diag)@.push(DiagEvent::RotateFailed) =~= old(diag)@ + seq![
                        DiagEvent::RotateFailed,
                    ]);
                }
            }
        }
        proof {
            assert(final(diag)@ =~= old(diag)@ + rotate_diag(old(self)@, rename_ok));
        }
    }

    /// One persist attempt: append `content` to the current file under the
    /// protocol `persist_transition` describes, reporting failure exactly
    /// when the directory cannot be ensured, the file does not open, or the
    /// write does not go through.
    pub fn persist_sulog_content(&mut self, content: &[u8], io: IoOutcome, diag: &mut Diag) -> (r:
        Result<(), ()>)
        ensures
            ({
                let (s2, ok, ev) = persist_transition(old(self)@, content@, io);
                &&& final(self)@ == s2
                &&& (r is Ok) == ok
                &&& final(diag)@ == old(diag)@ + ev
            }),
    {
        let ghost rd = rotate_diag(self@, io.rename_ok);
        if content.len() == 0 {
            proof {
                assert(old(diag)@ + Seq::<DiagEvent>::empty() =~= old(diag)@);
            }
            return Ok(());
        }
        if !io.dir_ok {
            diag.record(DiagEvent::EnsureDirFailed);
            proof {
                assert(old(diag)@.push(DiagEvent::EnsureDirFailed) =~= old(diag)@ + seq![
                    DiagEvent::EnsureDirFailed,
                ]);
            }
            return Err(());
        }
        self.rotate_if_needed(io.rename_ok, diag);
        if !io.open_ok {
            diag.record(DiagEvent::OpenFailed);
            proof {
                assert((old(diag)@ + rd).push(DiagEvent::OpenFailed) =~= old(diag)@ + rd.push(
                    DiagEvent::OpenFailed,
                ));
            }
            return Err(());
        }
        if !io.write_ok {
            diag.record(DiagEvent::WriteFailed);
            proof {
                assert((old(diag)@ + rd).push(DiagEvent::WriteFailed) =~= old(diag)@ + rd.push(
                    DiagEvent::WriteFailed,
                ));
            }
            return Err(());
        }
        append_bytes(&mut self.current, content);
        Ok(())
    }
}

/// The outcome of a persist attempt in which every filesystem step succeeds.
pub open spec fn io_all_ok() -> IoOutcome {
    IoOutcome { dir_ok: true, rename_ok: true, open_ok: true, write_ok: true }
}

/// The store after `k` appends of the blob `b` to an initially empty store,
/// with every filesystem step succeeding.
pub open spec fn store_after_appends(b: Seq<u8>, k: nat) -> LogStoreView
    decreases k,
{
    if k == 0 {
        empty_store()
    } else {
        persist_transition(store_after_appends(b, (k - 1) as nat), b, io_all_ok()).0
    }
}

/// The blob `b` repeated `k` times.
pub open spec fn repeat_bytes(b: Seq<u8>, k: nat) -> Seq<u8>
    decreases k,
{
    if k == 0 {
        Seq::empty()
    } else {
        repeat_bytes(b, (k - 1) as nat) + b
    }
}

/// `b` repeated `k` times is `k` times as long as `b`.
pub proof fn lemma_repeat_bytes_len(b: Seq<u8>, k: nat)
    ensures
        repeat_bytes(b, k).len() == k * b.len(),
    decreases k,
{
    if k == 0 {
        assert(k * b.len() == 0) by (nonlinear_arith)
            requires
                k == 0,
        ;
    } else {
        let km1 = (k - 1) as nat;
        lemma_repeat_bytes_len(b, km1);
        assert(repeat_bytes(b, k).len() == km1 * b.len() + b.len());
        assert(km1 * b.len() + b.len() == k * b.len()) by (nonlinear_arith)
            requires
                km1 == k - 1,
        ;
    }
}

/// Law: as long as rotation never triggers — the current file is at or under
/// the threshold at the start of every cycle, which holds whenever the first
/// `k - 1` appends fit within the threshold — `k` appends of one blob leave
/// the current file holding exactly that blob repeated `k` times, so its size
/// is the sum of the `k` blob lengths: nothing is lost, nothing duplicated,
/// and the backup slot is never touched.
pub proof fn lemma_appends_accumulate(b: Seq<u8>, k: nat)
    requires
        k >= 1 ==> (k - 1) * b.len() <= ROTATE_SIZE_BYTES,
    ensures
        store_after_appends(b, k).current == repeat_bytes(b, k),
        store_after_appends(b, k).current.len() == k * b.len(),
        store_after_appends(b, k).backup is None,
    decreases k,
{
    lemma_repeat_bytes_len(b, k);
    if k > 0 {
        if k >= 2 {
            assert((k - 2) * b.len() <= (k - 1) * b.len()) by (nonlinear_arith)
                requires
                    k >= 2,
            ;
        }
        lemma_appends_accumulate(b, (k - 1) as nat);
        lemma_repeat_bytes_len(b, (k - 1) as nat);
        let s = store_after_appends(b, (k - 1) as nat);
        assert(!needs_rotation(s));
        if b.len() == 0 {
            assert(repeat_bytes(b, k) =~= repeat_bytes(b, (k - 1) as nat));
        }
    }
}

/// Law: a cycle that starts with the current file over the threshold, and in
/// which every filesystem step succeeds, performs exactly one rotation before
/// its write: the backup slot afterwards holds precisely the pre-rotation
/// current contents (overwriting any prior backup), and the current file
/// holds only the newly appended blob.
pub proof fn lemma_rotation_cycle(s: LogStoreView, content: Seq<u8>, io: IoOutcome)
    requires
        needs_rotation(s),
        content.len() > 0,
        io.dir_ok,
        io.rename_ok,
        io.open_ok,
        io.write_ok,
    ensures
        persist_transition(s, content, io).0.backup == Some(s.current),
        persist_transition(s, content, io).0.current == content,
        persist_transition(s, content, io).1,
{
    assert(Seq::<u8>::empty() + content =~= content);
}

/// Law: an empty fetched blob produces zero bytes written: the persist
/// attempt succeeds trivially and both files — the current file's size
/// included — are left exactly as they were.
pub proof fn lemma_empty_blob_is_noop(s: LogStoreView, io: IoOutcome)
    ensures
        persist_transition(s, Seq::<u8>::empty(), io).0 == s,
        persist_transition(s, Seq::<u8>::empty(), io).1,
        persist_transition(s, Seq::<u8>::empty(), io).2 == Seq::<DiagEvent>::empty(),
{
}

/// Law: when the directory-ensure collaborator fails, the persist attempt
/// reports failure and the target file is left untouched — no rotation, no
/// append.
pub proof fn lemma_dir_failure_leaves_store(s: LogStoreView, content: Seq<u8>, io: IoOutcome)
    requires
        content.len() > 0,
        !io.dir_ok,
    ensures
        persist_transition(s, content, io).0 == s,
        !persist_transition(s, content, io).1,
{
}

} // verus!

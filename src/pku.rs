//! Protection-key register guard.
//!
//! The register itself is thread-local hardware state that only privileged
//! instructions reach. This module holds the decisions around it: which value
//! becomes the baseline, and which value (if any) must be written into the
//! register when a guard is installed and when it is discarded. Callers read
//! the register, hand the value in, and perform the write that comes back.
use vstd::prelude::*;

verus! {

/// The register value after performing `write` on a register holding `reg`.
pub open spec fn apply_write(reg: u32, write: Option<u32>) -> u32 {
    match write {
        Some(v) => v,
        None => reg,
    }
}

/// The baseline value held by a cell whose state is `captured`: absent while
/// nothing was captured, and absent where the feature is unsupported.
pub open spec fn baseline_of(captured: Option<Option<u32>>) -> Option<u32> {
    match captured {
        Some(b) => b,
        None => None,
    }
}

/// The state of a baseline cell after a capture attempt with `probed`.
pub open spec fn after_capture(captured: Option<Option<u32>>, probed: Option<u32>) -> Option<
    Option<u32>,
> {
    match captured {
        Some(b) => Some(b),
        None => Some(probed),
    }
}

/// The value a guard records on installation: the register value it found,
/// where a baseline exists.
pub open spec fn entry_saved(baseline: Option<u32>, current: u32) -> Option<u32> {
    match baseline {
        Some(_) => Some(current),
        None => None,
    }
}

/// The write performed on installation: the baseline, only where it differs
/// from the register value found.
pub open spec fn entry_write(baseline: Option<u32>, current: u32) -> Option<u32> {
    match baseline {
        Some(b) => if current != b {
            Some(b)
        } else {
            None
        },
        None => None,
    }
}

/// The write performed on disposal: the recorded value, only where the
/// register no longer holds it.
pub open spec fn exit_write(saved: Option<u32>, current: u32) -> Option<u32> {
    match saved {
        Some(s) => if current != s {
            Some(s)
        } else {
            None
        },
        None => None,
    }
}

/// Write-once cell for the baseline register value.
///
/// Its view is `None` until a capture, then `Some(b)` for good, where `b` is the
/// baseline value, or `None` where the protection-key feature is unsupported.
pub struct Baseline {
    captured: Option<Option<u32>>,
}

impl View for Baseline {
    type V = Option<Option<u32>>;

    closed spec fn view(&self) -> Option<Option<u32>> {
        self.captured
    }
}

impl Baseline {
    /// A cell in which nothing was captured yet.
    pub fn new() -> (r: Baseline)
        ensures
            r@ is None,
    {
        Baseline { captured: None }
    }

    /// Whether a capture has already taken place.
    pub fn is_captured(&self) -> (r: bool)
        ensures
            r == self@ is Some,
    {
        self.captured.is_some()
    }

    /// The baseline value, if one was captured on a supporting machine.
    pub fn get(&self) -> (r: Option<u32>)
        ensures
            r == baseline_of(self@),
    {
        match self.captured {
            Some(b) => b,
            None => None,
        }
    }
}

/// Captures the baseline once: `probed` is the register value read after the
/// capability probe succeeded, or `None` where the probe reported the feature
/// unsupported. Only the first capture has effect.
pub fn capture_baseline(cell: &mut Baseline, probed: Option<u32>)
    ensures
        final(cell)@ == after_capture(old(cell)@, probed),
{
    if cell.captured.is_none() {
        cell.captured = Some(probed);
    }
}

/// A register guard: the register value in effect on this thread before the
/// guard was installed, or nothing where no baseline exists.
pub struct PkruGuard {
    saved: Option<u32>,
}

impl View for PkruGuard {
    type V = Option<u32>;

    closed spec fn view(&self) -> Option<u32> {
        self.saved
    }
}

impl PkruGuard {
    /// Installs a guard against `baseline`, on a thread whose register holds
    /// `current`. Returns the guard and the value to write into the register,
    /// if any. Where `baseline` is `None`, `current` is not looked at, so the
    /// caller need not read the register.
    pub fn new(baseline: Option<u32>, current: u32) -> (r: (PkruGuard, Option<u32>))
        ensures
            r.0@ == entry_saved(baseline, current),
            r.1 == entry_write(baseline, current),
    {
        match baseline {
            Some(b) => {
                let write = if current != b {
                    Some(b)
                } else {
                    None
                };
                (PkruGuard { saved: Some(current) }, write)
            },
            None => (PkruGuard { saved: None }, None),
        }
    }

    /// Whether disposal needs the register value: false for an empty guard.
    pub fn is_active(&self) -> (r: bool)
        ensures
            r == self@ is Some,
    {
        self.saved.is_some()
    }

    /// The register value recorded on installation.
    pub fn saved(&self) -> (r: Option<u32>)
        ensures
            r == self@,
    {
        self.saved
    }

    /// Disposes of the guard on a thread whose register holds `current`.
    /// Returns the value to write into the register, if any.
    pub fn release(self, current: u32) -> (r: Option<u32>)
        ensures
            r == exit_write(self@, current),
    {
        match self.saved {
            Some(s) => if current != s {
                Some(s)
            } else {
                None
            },
            None => None,
        }
    }
}

/// Installing a guard brings the register to the baseline, where one exists;
/// disposing of it brings the register back to the value it held before
/// installation, whatever the guarded code left in it.
pub proof fn lemma_guard_round_trip(baseline: Option<u32>, before: u32, at_exit: u32)
    ensures
        baseline is Some ==> apply_write(before, entry_write(baseline, before))
            == baseline->Some_0,
        baseline is Some ==> apply_write(at_exit, exit_write(entry_saved(baseline, before), at_exit))
            == before,
        apply_write(
            apply_write(before, entry_write(baseline, before)),
            exit_write(
                entry_saved(baseline, before),
                apply_write(before, entry_write(baseline, before)),
            ),
        ) == before,
{
}

/// Where the capability probe reports the feature unsupported, the captured
/// baseline is absent, and guards neither record nor write anything.
pub proof fn lemma_unsupported_no_ops(captured: Option<Option<u32>>, current: u32, at_exit: u32)
    requires
        captured is None || captured == Some(None::<u32>),
    ensures
        baseline_of(after_capture(captured, None)) is None,
        entry_saved(baseline_of(after_capture(captured, None)), current) is None,
        entry_write(baseline_of(after_capture(captured, None)), current) is None,
        exit_write(entry_saved(baseline_of(after_capture(captured, None)), current), at_exit) is None,
{
}

/// Only the first capture has effect: capturing again leaves the cell as it is.
pub proof fn lemma_capture_idempotent(captured: Option<Option<u32>>, p1: Option<u32>, p2: Option<u32>)
    ensures
        after_capture(after_capture(captured, p1), p2) == after_capture(captured, p1),
{
}

} // verus!

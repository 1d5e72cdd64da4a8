//! Configuration that takes effect at a frame boundary.
//!
//! A cell holds the value in force and, at most, one value that waits. A
//! value written during frame `n` waits for frame `n + 1`, and is put in
//! force when the cell is asked during that frame, and during no other. A
//! later write replaces the value that waits. So whatever the number of
//! writes in a frame, the next frame sees the last of them, once.
use crate::error::Error;
use vstd::prelude::*;

verus! {

/// A configuration that can tell whether it is well formed.
pub trait ConfigValue: Sized {
    /// Whether the value may be put in force.
    spec fn valid(&self) -> bool;

    /// Whether the value may be put in force.
    fn is_valid(&self) -> (ok: bool)
        ensures
            ok == self.valid(),
    ;
}

/// Whether a cell has a value that waits.
pub enum StagedState<T> {
    /// Nothing waits: the value in force is the last word.
    Idle,
    /// `value` waits for the frame `target_frame`.
    Pending { value: T, target_frame: int },
}

/// A cell as contracts see it.
pub struct StagedView<T> {
    /// The value in force.
    pub applied: T,
    pub state: StagedState<T>,
}

/// A cell for a configuration of type `T`.
pub struct StagedConfig<T> {
    applied: T,
    pending: Option<T>,
    /// The frame during which `pending` was written.
    written_at: u64,
}

/// The cells that can exist: both values are well formed, and a value waits
/// for the frame after one that the counter can reach.
pub open spec fn cell_ok<T: ConfigValue>(cell: StagedView<T>) -> bool {
    &&& cell.applied.valid()
    &&& cell.state matches StagedState::Pending { value, target_frame } ==> value.valid() && 1
        <= target_frame <= u64::MAX + 1
}

/// Whether the value that waits in `cell` is to be put in force during the
/// frame `current_frame`.
pub open spec fn is_due<T>(cell: StagedView<T>, current_frame: u64) -> bool {
    cell.state matches StagedState::Pending { target_frame, .. } && target_frame == current_frame
}

/// What writing `value` during the frame `current_frame` answers and leaves.
///
/// A well-formed value waits from now on for the next frame, in place of
/// any value that waited. A malformed one is refused, and the cell is as it
/// was.
pub open spec fn set_model<T: ConfigValue>(cell: StagedView<T>, value: T, current_frame: u64) -> (
    StagedView<T>,
    Result<(), Error>,
) {
    if value.valid() {
        (
            StagedView {
                applied: cell.applied,
                state: StagedState::Pending { value, target_frame: current_frame + 1 },
            },
            Ok(()),
        )
    } else {
        (cell, Err(Error::InvalidConfig))
    }
}

/// What asking the cell during the frame `current_frame` leaves, and
/// whether it put a value in force.
pub open spec fn apply_model<T>(cell: StagedView<T>, current_frame: u64) -> (StagedView<T>, bool) {
    match cell.state {
        StagedState::Pending { value, target_frame } => if target_frame == current_frame {
            (StagedView { applied: value, state: StagedState::Idle }, true)
        } else {
            (cell, false)
        },
        StagedState::Idle => (cell, false),
    }
}

impl<T> View for StagedConfig<T> {
    type V = StagedView<T>;

    closed spec fn view(&self) -> StagedView<T> {
        StagedView {
            applied: self.applied,
            state: match self.pending {
                Some(value) => StagedState::Pending { value, target_frame: self.written_at + 1 },
                None => StagedState::Idle,
            },
        }
    }
}

impl<T: ConfigValue> StagedConfig<T> {
    /// The invariant of a cell.
    pub open spec fn wf(&self) -> bool {
        cell_ok(self@)
    }

    /// A cell in which `initial` is in force and nothing waits.
    ///
    /// Fails with [`Error::InvalidConfig`] if `initial` is malformed.
    pub fn new(initial: T) -> (result: Result<Self, Error>)
        ensures
            match result {
                Ok(cell) => initial.valid() && cell.wf() && cell@ == (StagedView {
                    applied: initial,
                    state: StagedState::Idle,
                }),
                Err(e) => !initial.valid() && e == Error::InvalidConfig,
            },
    {
        if initial.is_valid() {
            Ok(StagedConfig { applied: initial, pending: None, written_at: 0 })
        } else {
            Err(Error::InvalidConfig)
        }
    }

    /// Writes `value` during the frame `current_frame`: it waits for the
    /// next frame, and any value that waited is dropped.
    ///
    /// Fails with [`Error::InvalidConfig`] if `value` is malformed. The value
    /// in force and the value that waits are then as before.
    pub fn set(&mut self, value: T, current_frame: u64) -> (result: Result<(), Error>)
        requires
            old(self).wf(),
        ensures
            final(self).wf(),
            (final(self)@, result) == set_model(old(self)@, value, current_frame),
    {
        if value.is_valid() {
            self.pending = Some(value);
            self.written_at = current_frame;
            Ok(())
        } else {
            Err(Error::InvalidConfig)
        }
    }

    /// Asks the cell during the frame `current_frame`. If a value waits for
    /// this very frame, it is put in force, nothing waits any more, and the
    /// answer is `true`. Otherwise nothing changes.
    pub fn apply_if_due(&mut self, current_frame: u64) -> (applied_now: bool)
        requires
            old(self).wf(),
        ensures
            final(self).wf(),
            (final(self)@, applied_now) == apply_model(old(self)@, current_frame),
    {
        if self.pending.is_some() && current_frame > 0 && current_frame - 1 == self.written_at {
            match self.pending.take() {
                Some(value) => {
                    self.applied = value;
                },
                None => {},
            }
            true
        } else {
            false
        }
    }

    /// The value in force.
    pub fn applied(&self) -> (value: &T)
        ensures
            *value == self@.applied,
    {
        &self.applied
    }

    /// Whether a value waits.
    pub fn is_pending(&self) -> (waits: bool)
        ensures
            waits == (self@.state is Pending),
    {
        self.pending.is_some()
    }

    /// The value that waits, if one does.
    pub fn pending(&self) -> (value: Option<&T>)
        ensures
            match value {
                Some(v) => self@.state is Pending && *v == self@.state->value,
                None => self@.state is Idle,
            },
    {
        self.pending.as_ref()
    }
}

/// A burst of writes in one frame collapses to the last: after `first` and
/// then `last` have been written during the frame `frame`, the cell is as if
/// `last` alone had been written.
pub proof fn law_last_writer_wins<T: ConfigValue>(
    cell: StagedView<T>,
    first: T,
    last: T,
    frame: u64,
)
    requires
        cell_ok(cell),
        last.valid(),
    ensures
        set_model(set_model(cell, first, frame).0, last, frame) == set_model(cell, last, frame),
        cell_ok(set_model(cell, last, frame).0),
{
}

/// The staging delay is one frame, never more and never less: a value
/// written during the frame `frame` is due during the frame `frame + 1` and
/// during no other.
pub proof fn law_due_next_frame_only<T: ConfigValue>(
    cell: StagedView<T>,
    value: T,
    frame: u64,
    asked: u64,
)
    requires
        value.valid(),
    ensures
        is_due(set_model(cell, value, frame).0, asked) <==> asked == frame + 1,
{
}

/// A value that is due is put in force once: asking during its frame makes
/// it the value in force and leaves the cell idle, and asking the idle cell
/// again, during the next frame or any other, changes nothing.
pub proof fn law_applied_exactly_once<T: ConfigValue>(cell: StagedView<T>, frame: u64, later: u64)
    requires
        cell_ok(cell),
        is_due(cell, frame),
    ensures
        ({
            let first = apply_model(cell, frame);
            &&& first.1
            &&& first.0.applied == cell.state->value
            &&& first.0.state is Idle
            &&& cell_ok(first.0)
            &&& apply_model(first.0, later) == (first.0, false)
        }),
{
}

/// Until its frame comes, and after it has passed unasked, a value that
/// waits leaves the value in force alone.
pub proof fn law_not_due_changes_nothing<T: ConfigValue>(cell: StagedView<T>, frame: u64)
    requires
        !is_due(cell, frame),
    ensures
        apply_model(cell, frame) == (cell, false),
{
}

/// A malformed value is refused and leaves no trace: the value in force and
/// the value that waits are what they were, so what is put in force later
/// is what it would have been without the write.
pub proof fn law_invalid_set_changes_nothing<T: ConfigValue>(
    cell: StagedView<T>,
    value: T,
    frame: u64,
    later: u64,
)
    requires
        !value.valid(),
    ensures
        set_model(cell, value, frame) == (cell, Err::<(), Error>(Error::InvalidConfig)),
        apply_model(set_model(cell, value, frame).0, later) == apply_model(cell, later),
{
}

/// Writing during one frame and asking during the next puts the last value
/// written in force, whatever was written before it in that frame.
pub proof fn law_only_last_write_is_applied<T: ConfigValue>(
    cell: StagedView<T>,
    first: T,
    last: T,
    frame: u64,
)
    requires
        cell_ok(cell),
        last.valid(),
        frame < u64::MAX,
    ensures
        ({
            let written = set_model(set_model(cell, first, frame).0, last, frame).0;
            let asked = apply_model(written, (frame + 1) as u64);
            &&& apply_model(written, frame) == (written, false)
            &&& asked.1
            &&& asked.0.applied == last
            &&& asked.0.state is Idle
        }),
{
}

/// The cell after the values of `values` have been written, in order, all
/// during the frame `frame`.
pub open spec fn write_all<T: ConfigValue>(cell: StagedView<T>, values: Seq<T>, frame: u64) -> StagedView<
    T,
>
    decreases values.len(),
{
    if values.len() == 0 {
        cell
    } else {
        set_model(write_all(cell, values.drop_last(), frame), values.last(), frame).0
    }
}

/// However many values are written in a frame, well formed or not, if the
/// last of them is well formed the cell is as if it alone had been written:
/// in the next frame it is put in force, and none of the others ever is.
pub proof fn law_burst_collapses_to_last<T: ConfigValue>(
    cell: StagedView<T>,
    values: Seq<T>,
    frame: u64,
)
    requires
        values.len() > 0,
        values.last().valid(),
    ensures
        write_all(cell, values, frame) == set_model(cell, values.last(), frame).0,
        write_all(cell, values, frame).applied == cell.applied,
        frame < u64::MAX ==> apply_model(
            write_all(cell, values, frame),
            (frame + 1) as u64,
        ).0.applied == values.last(),
{
    lemma_writes_keep_applied(cell, values.drop_last(), frame);
}

/// Writing, any number of times, leaves the value in force alone.
proof fn lemma_writes_keep_applied<T: ConfigValue>(
    cell: StagedView<T>,
    values: Seq<T>,
    frame: u64,
)
    ensures
        write_all(cell, values, frame).applied == cell.applied,
    decreases values.len(),
{
    if values.len() > 0 {
        lemma_writes_keep_applied(cell, values.drop_last(), frame);
    }
}

} // verus!

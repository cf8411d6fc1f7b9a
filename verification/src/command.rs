use vstd::prelude::*;
use crate::viewport::{Viewport, MAGNIFICATION_STEP, PAN_STEP};

verus! {

/// The navigation commands.
#[derive(Clone, Copy, Debug, PartialEq, Eq, Structural)]
pub enum Command {
    Quit,
    PanLeft,
    PanRight,
    PanUp,
    PanDown,
    ZoomIn,
    ZoomOut,
    Reset,
}

/// What the caller of [`dispatch`] has to do next.
#[derive(Clone, Copy, Debug, PartialEq, Eq, Structural)]
pub struct Outcome {
    /// A quit command was met: leave the loop without drawing.
    pub quit: bool,
    /// A reset was applied: build the palette anew before drawing.
    pub palette_stale: bool,
}

/// The pan step at a zoom level, in units of the plane: the step at level 1
/// divided by the level.
pub open spec fn pan_step(zoom_level: int) -> int {
    PAN_STEP as int / zoom_level
}

/// A pan offset after one pan command. `direction` is 1 or -1. The command
/// is dropped, and the offset stays, where the zoom level is 0 or where the
/// new offset would not fit in an `i64`.
pub open spec fn panned(pan: i64, zoom_level: u64, direction: int) -> i64 {
    let target = pan + direction * pan_step(zoom_level as int);
    if zoom_level >= 1 && i64::MIN <= target <= i64::MAX {
        target as i64
    } else {
        pan
    }
}

impl Viewport {
    /// Whether a zoom-in applies: not where the magnification or the zoom
    /// level would leave the range of a `u64`.
    pub open spec fn can_zoom_in(self) -> bool {
        self.magnification + MAGNIFICATION_STEP <= u64::MAX && self.zoom_level < u64::MAX
    }

    /// Whether a zoom-out applies: not where it would leave the magnification
    /// at zero or below, or the zoom level below 1.
    pub open spec fn can_zoom_out(self) -> bool {
        self.magnification > MAGNIFICATION_STEP && self.zoom_level > 1
    }

    /// The view after one command.
    pub open spec fn step(self, command: Command) -> Viewport {
        match command {
            Command::Quit => self,
            Command::PanLeft => Viewport { pan_x: panned(self.pan_x, self.zoom_level, 1), ..self },
            Command::PanRight => Viewport {
                pan_x: panned(self.pan_x, self.zoom_level, -1),
                ..self
            },
            Command::PanUp => Viewport { pan_y: panned(self.pan_y, self.zoom_level, 1), ..self },
            Command::PanDown => Viewport { pan_y: panned(self.pan_y, self.zoom_level, -1), ..self },
            Command::ZoomIn => if self.can_zoom_in() {
                Viewport {
                    magnification: (self.magnification + MAGNIFICATION_STEP) as u64,
                    zoom_level: (self.zoom_level + 1) as u64,
                    ..self
                }
            } else {
                self
            },
            Command::ZoomOut => if self.can_zoom_out() {
                Viewport {
                    magnification: (self.magnification - MAGNIFICATION_STEP) as u64,
                    zoom_level: (self.zoom_level - 1) as u64,
                    ..self
                }
            } else {
                self
            },
            Command::Reset => Viewport::startup(),
        }
    }

    /// The view after a sequence of commands, applied first to last.
    pub open spec fn run(self, commands: Seq<Command>) -> Viewport
        decreases commands.len(),
    {
        if commands.len() == 0 {
            self
        } else {
            self.run(commands.drop_last()).step(commands.last())
        }
    }

    /// Applies one command to the view.
    pub fn apply(&mut self, command: Command)
        ensures
            *final(self) == old(self).step(command),
            old(self).valid() ==> final(self).valid(),
    {
        match command {
            Command::Quit => {},
            Command::PanLeft => {
                self.pan_x = pan(self.pan_x, self.zoom_level, true);
            },
            Command::PanRight => {
                self.pan_x = pan(self.pan_x, self.zoom_level, false);
            },
            Command::PanUp => {
                self.pan_y = pan(self.pan_y, self.zoom_level, true);
            },
            Command::PanDown => {
                self.pan_y = pan(self.pan_y, self.zoom_level, false);
            },
            Command::ZoomIn => {
                if self.magnification <= u64::MAX - MAGNIFICATION_STEP && self.zoom_level
                    < u64::MAX {
                    self.magnification = self.magnification + MAGNIFICATION_STEP;
                    self.zoom_level = self.zoom_level + 1;
                }
            },
            Command::ZoomOut => {
                if self.magnification > MAGNIFICATION_STEP && self.zoom_level > 1 {
                    self.magnification = self.magnification - MAGNIFICATION_STEP;
                    self.zoom_level = self.zoom_level - 1;
                }
            },
            Command::Reset => {
                *self = Viewport::default();
            },
        }
    }
}

/// One pan command on one axis: forward adds the step, backward takes it.
fn pan(offset: i64, zoom_level: u64, forward: bool) -> (r: i64)
    ensures
        r == panned(offset, zoom_level, if forward { 1 } else { -1 }),
{
    if zoom_level == 0 {
        return offset;
    }
    let step: i64 = if zoom_level > PAN_STEP as u64 {
        0
    } else {
        PAN_STEP / (zoom_level as i64)
    };
    assert(step == pan_step(zoom_level as int) && 0 <= step <= PAN_STEP) by (nonlinear_arith)
        requires
            zoom_level >= 1,
            PAN_STEP == 50_000_000_000,
            step == if zoom_level > PAN_STEP {
                0
            } else {
                PAN_STEP as int / zoom_level as int
            },
    ;
    let moved: Option<i64> = if forward {
        offset.checked_add(step)
    } else {
        offset.checked_sub(step)
    };
    match moved {
        Some(target) => target,
        None => offset,
    }
}

/// The index of the first quit command in `batch`, or the length of `batch`
/// where it holds none.
pub open spec fn first_quit(batch: Seq<Command>) -> int
    decreases batch.len(),
{
    if batch.len() == 0 {
        0
    } else if batch[0] == Command::Quit {
        0
    } else {
        1 + first_quit(batch.drop_first())
    }
}

/// `first_quit` is the one index up to which no command is a quit and at
/// which the batch ends or holds a quit.
pub proof fn lemma_first_quit(batch: Seq<Command>, stop: int)
    requires
        0 <= stop <= batch.len(),
        forall|k: int| 0 <= k < stop ==> batch[k] != Command::Quit,
        stop < batch.len() ==> batch[stop] == Command::Quit,
    ensures
        first_quit(batch) == stop,
    decreases batch.len(),
{
    if batch.len() > 0 && stop > 0 {
        let rest = batch.drop_first();
        assert forall|k: int| 0 <= k < stop - 1 implies rest[k] != Command::Quit by {
            assert(rest[k] == batch[k + 1]);
        }
        lemma_first_quit(rest, stop - 1);
    }
}

/// Applies the commands of one batch in order, up to the first quit, and
/// says what the caller has to do next. Nothing after a quit is applied.
pub fn dispatch(viewport: &mut Viewport, batch: &Vec<Command>) -> (outcome: Outcome)
    ensures
        *final(viewport) == old(viewport).run(batch@.take(first_quit(batch@))),
        outcome.quit == (first_quit(batch@) < batch@.len()),
        outcome.palette_stale == batch@.take(first_quit(batch@)).contains(Command::Reset),
        old(viewport).valid() ==> final(viewport).valid(),
{
    let mut palette_stale = false;
    let mut i: usize = 0;
    while i < batch.len()
        invariant
            i <= batch@.len(),
            forall|k: int| 0 <= k < i ==> batch@[k] != Command::Quit,
            *viewport == old(viewport).run(batch@.take(i as int)),
            palette_stale == batch@.take(i as int).contains(Command::Reset),
            old(viewport).valid() ==> viewport.valid(),
        decreases batch@.len() - i,
    {
        let command = batch[i];
        match command {
            Command::Quit => {
                proof {
                    lemma_first_quit(batch@, i as int);
                }
                return Outcome { quit: true, palette_stale };
            },
            Command::Reset => {
                palette_stale = true;
            },
            _ => {},
        }
        viewport.apply(command);
        proof {
            let before = batch@.take(i as int);
            let after = batch@.take(i + 1);
            assert(after.drop_last() =~= before);
            assert(after.last() == command);
            assert(after.contains(Command::Reset) == (before.contains(Command::Reset) || command
                == Command::Reset)) by {
                if before.contains(Command::Reset) {
                    let j = choose|j: int| 0 <= j < before.len() && before[j] == Command::Reset;
                    assert(after[j] == Command::Reset);
                }
                if command == Command::Reset {
                    assert(after[i as int] == Command::Reset);
                }
            }
        }
        i += 1;
    }
    proof {
        lemma_first_quit(batch@, i as int);
    }
    Outcome { quit: false, palette_stale }
}

/// A reset yields the startup view, whatever the view was: pan at the
/// origin, magnification 800, zoom level 1. A second reset changes nothing.
pub proof fn lemma_reset_restores_startup(viewport: Viewport)
    ensures
        viewport.step(Command::Reset) == Viewport::startup(),
        viewport.step(Command::Reset).pan_x == 0,
        viewport.step(Command::Reset).pan_y == 0,
        viewport.step(Command::Reset).magnification == 800,
        viewport.step(Command::Reset).zoom_level == 1,
        viewport.step(Command::Reset).step(Command::Reset) == viewport.step(Command::Reset),
{
}

/// A reset after any sequence of commands yields the startup view.
pub proof fn lemma_reset_after_any_run(viewport: Viewport, commands: Seq<Command>)
    ensures
        viewport.run(commands.push(Command::Reset)) == Viewport::startup(),
{
    assert(commands.push(Command::Reset).last() == Command::Reset);
}

/// A pan to the left followed by a pan to the right leaves the view as it
/// was, unless the pan to the left was dropped at the upper end of the range.
pub proof fn lemma_pan_left_then_right(viewport: Viewport)
    requires
        viewport.zoom_level >= 1 ==> viewport.pan_x + pan_step(viewport.zoom_level as int)
            <= i64::MAX,
    ensures
        viewport.step(Command::PanLeft).step(Command::PanRight) == viewport,
{
    if viewport.zoom_level >= 1 {
        lemma_pan_step_bounds(viewport.zoom_level as int);
    }
}

/// A pan to the right followed by a pan to the left leaves the view as it
/// was, unless the pan to the right was dropped at the lower end of the range.
pub proof fn lemma_pan_right_then_left(viewport: Viewport)
    requires
        viewport.zoom_level >= 1 ==> viewport.pan_x - pan_step(viewport.zoom_level as int)
            >= i64::MIN,
    ensures
        viewport.step(Command::PanRight).step(Command::PanLeft) == viewport,
{
    if viewport.zoom_level >= 1 {
        lemma_pan_step_bounds(viewport.zoom_level as int);
    }
}

/// A pan up followed by a pan down leaves the view as it was, unless the pan
/// up was dropped at the upper end of the range.
pub proof fn lemma_pan_up_then_down(viewport: Viewport)
    requires
        viewport.zoom_level >= 1 ==> viewport.pan_y + pan_step(viewport.zoom_level as int)
            <= i64::MAX,
    ensures
        viewport.step(Command::PanUp).step(Command::PanDown) == viewport,
{
    if viewport.zoom_level >= 1 {
        lemma_pan_step_bounds(viewport.zoom_level as int);
    }
}

/// A pan down followed by a pan up leaves the view as it was, unless the pan
/// down was dropped at the lower end of the range.
pub proof fn lemma_pan_down_then_up(viewport: Viewport)
    requires
        viewport.zoom_level >= 1 ==> viewport.pan_y - pan_step(viewport.zoom_level as int)
            >= i64::MIN,
    ensures
        viewport.step(Command::PanDown).step(Command::PanUp) == viewport,
{
    if viewport.zoom_level >= 1 {
        lemma_pan_step_bounds(viewport.zoom_level as int);
    }
}

/// On a valid view a zoom-in followed by a zoom-out leaves the view as it
/// was, unless the zoom-in was dropped at the upper end of the range while
/// the zoom-out applies.
pub proof fn lemma_zoom_in_then_out(viewport: Viewport)
    requires
        viewport.valid(),
        viewport.can_zoom_in() || !viewport.can_zoom_out(),
    ensures
        viewport.step(Command::ZoomIn).step(Command::ZoomOut) == viewport,
{
}

/// A zoom-out followed by a zoom-in leaves the view as it was, unless the
/// zoom-out was dropped while the zoom-in applies.
pub proof fn lemma_zoom_out_then_in(viewport: Viewport)
    requires
        viewport.can_zoom_out() || !viewport.can_zoom_in(),
    ensures
        viewport.step(Command::ZoomOut).step(Command::ZoomIn) == viewport,
{
}

/// The pan step is never negative and never more than the step at level 1.
pub proof fn lemma_pan_step_bounds(zoom_level: int)
    requires
        zoom_level >= 1,
    ensures
        0 <= pan_step(zoom_level) <= PAN_STEP,
{
    assert(0 <= PAN_STEP as int / zoom_level <= PAN_STEP) by (nonlinear_arith)
        requires
            zoom_level >= 1,
            PAN_STEP >= 0,
    ;
}

/// No command makes a valid view invalid.
pub proof fn lemma_step_keeps_valid(viewport: Viewport, command: Command)
    requires
        viewport.valid(),
    ensures
        viewport.step(command).valid(),
{
}

} // verus!

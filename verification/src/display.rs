//! The display engine: a five-cell trail that moves over a 5x5 grid and is
//! shown with graded brightness, the head brightest.

use crate::rand::drew_once;
use crate::rand::Rand;
use vstd::prelude::*;

verus! {

/// Side of the square grid.
pub const GRID: u8 = 5;

/// Number of cells of the grid.
pub const CELLS: u8 = 25;

/// Number of coordinates that the trail holds.
pub const TRAIL: usize = 5;

/// Index of the head, the newest coordinate of the trail.
pub const HEAD: usize = 4;

/// Timer period between two frames while idle.
pub const IDLE_DELAY: u32 = 140000;

/// Timer period between two frames while running.
pub const RUNNING_DELAY: u32 = 80000;

/// One picture for the LED matrix: a brightness from 0 to 9 for each cell,
/// addressed by the two parts of a coordinate in turn.
pub type Frame = [[u8; 5]; 5];

/// What the animation does: it sweeps the grid while idle and jumps to
/// random cells while running.
#[derive(Clone, Copy, PartialEq, Eq, Structural, Debug)]
pub enum Mode {
    Running,
    Idle,
}

/// Whether a coordinate lies on the grid.
pub open spec fn on_grid(p: (u8, u8)) -> bool {
    p.0 < GRID && p.1 < GRID
}

/// Place of a coordinate in the sweep: the first part runs fastest.
pub open spec fn sweep_index(p: (u8, u8)) -> int {
    p.1 * 5 + p.0
}

/// The coordinate at a place of the sweep.
pub open spec fn cell_at(index: int) -> (u8, u8) {
    ((index % 5) as u8, (index / 5) as u8)
}

/// The coordinate that follows `p` in the sweep: the first part goes up by
/// one, at the end of a line the second part does, and the last cell is
/// followed by the first.
pub open spec fn successor(p: (u8, u8)) -> (u8, u8) {
    if p.0 == 4 && p.1 == 4 {
        (0u8, 0u8)
    } else if p.0 == 4 {
        (0u8, (p.1 + 1) as u8)
    } else {
        ((p.0 + 1) as u8, p.1)
    }
}

/// The period that belongs to a mode.
pub open spec fn period_of(mode: Mode) -> u32 {
    match mode {
        Mode::Idle => IDLE_DELAY,
        Mode::Running => RUNNING_DELAY,
    }
}

/// Brightness of the coordinate at index `i` of the trail.
pub open spec fn level(i: int) -> int {
    2 * i + 1
}

/// Brightness of the cell `(x, y)` under a trail: that of the last index at
/// which the trail holds the cell, and 0 where it holds it nowhere.
pub open spec fn intensity(trail: Seq<(u8, u8)>, x: int, y: int) -> int
    decreases trail.len(),
{
    if trail.len() == 0 {
        0
    } else if trail.last().0 == x && trail.last().1 == y {
        level(trail.len() - 1)
    } else {
        intensity(trail.drop_last(), x, y)
    }
}

/// Whether a frame is the picture of a trail.
pub open spec fn shows(frame: Frame, trail: Seq<(u8, u8)>) -> bool {
    forall|x: int, y: int|
        0 <= x < 5 && 0 <= y < 5 ==> (#[trigger] frame[x][y]) == intensity(trail, x, y)
}

/// The trail after its oldest coordinate has left and `head` has come in.
pub open spec fn shifted(trail: Seq<(u8, u8)>, head: (u8, u8)) -> Seq<(u8, u8)> {
    trail.subrange(1, trail.len() as int).push(head)
}

/// What can be seen of a display.
pub struct DisplayView {
    pub mode: Mode,
    pub trail: Seq<(u8, u8)>,
    pub delay: u32,
}

impl DisplayView {
    /// The trail holds five coordinates of the grid, and the period is that
    /// of the mode.
    pub open spec fn wf(self) -> bool {
        &&& self.trail.len() == TRAIL
        &&& forall|i: int| 0 <= i < self.trail.len() ==> on_grid(#[trigger] self.trail[i])
        &&& self.delay == period_of(self.mode)
    }

    /// The display set into a mode, at the cadence of that mode.
    pub open spec fn in_mode(self, mode: Mode) -> DisplayView {
        DisplayView { mode, delay: period_of(mode), ..self }
    }

    /// The newest coordinate.
    pub open spec fn head(self) -> (u8, u8) {
        self.trail[HEAD as int]
    }

    /// The head that the next frame brings. While idle it is the successor
    /// of the head. While running it is the cell that was drawn, and the old
    /// head once more where nothing was drawn.
    pub open spec fn next_head(self, cell: Option<u8>) -> (u8, u8) {
        match self.mode {
            Mode::Idle => successor(self.head()),
            Mode::Running => match cell {
                Some(c) => cell_at(c as int),
                None => self.head(),
            },
        }
    }

    /// The display one frame later.
    pub open spec fn advanced(self, cell: Option<u8>) -> DisplayView {
        DisplayView { trail: shifted(self.trail, self.next_head(cell)), ..self }
    }

    /// The display after one frame for each draw of `cells`, in turn.
    pub open spec fn run_with(self, cells: Seq<Option<u8>>) -> DisplayView
        decreases cells.len(),
    {
        if cells.len() == 0 {
            self
        } else {
            self.run_with(cells.drop_last()).advanced(cells.last())
        }
    }

    /// The display after `n` frames in which nothing was drawn.
    pub open spec fn run(self, n: nat) -> DisplayView
        decreases n,
    {
        if n == 0 {
            self
        } else {
            self.run((n - 1) as nat).advanced(None)
        }
    }
}

/// The display engine.
pub struct Display {
    position: [(u8, u8); 5],
    delay: u32,
    mode: Mode,
}

impl View for Display {
    type V = DisplayView;

    closed spec fn view(&self) -> DisplayView {
        DisplayView { mode: self.mode, trail: self.position@, delay: self.delay }
    }
}

fn next_in_sweep(p: (u8, u8)) -> (q: (u8, u8))
    requires
        on_grid(p),
    ensures
        q == successor(p),
        on_grid(q),
{
    if p.0 == 4 && p.1 == 4 {
        (0, 0)
    } else if p.0 == 4 {
        (0, p.1 + 1)
    } else {
        (p.0 + 1, p.1)
    }
}

fn cell_of(index: u8) -> (q: (u8, u8))
    requires
        index < CELLS,
    ensures
        q == cell_at(index as int),
        on_grid(q),
{
    let x: u8 = index % 5;
    (x, (index - x) / 5)
}

fn level_of(i: usize) -> (b: u8)
    requires
        i < TRAIL,
    ensures
        b == level(i as int),
{
    match i {
        0 => 1,
        1 => 3,
        2 => 5,
        3 => 7,
        _ => 9,
    }
}

/// Draws the picture of a trail.
pub fn render(trail: &[(u8, u8); 5]) -> (frame: Frame)
    requires
        forall|i: int| 0 <= i < 5 ==> on_grid(#[trigger] trail@[i]),
    ensures
        shows(frame, trail@),
{
    let mut frame: Frame = [[0u8; 5]; 5];
    let mut i: usize = 0;
    while i < 5
        invariant
            i <= 5,
            forall|k: int| 0 <= k < 5 ==> on_grid(#[trigger] trail@[k]),
            shows(frame, trail@.take(i as int)),
        decreases 5 - i,
    {
        let p = trail[i];
        let ghost before = frame;
        let mut line = frame[p.0 as usize];
        line[p.1 as usize] = level_of(i);
        frame[p.0 as usize] = line;
        proof {
            let seen = trail@.take(i as int + 1);
            assert(seen.drop_last() == trail@.take(i as int));
            assert(seen.last() == p);
            assert forall|x: int, y: int| 0 <= x < 5 && 0 <= y < 5 implies (#[trigger] frame[x][y])
                == intensity(seen, x, y) by {
                if x == p.0 && y == p.1 {
                } else {
                    assert(frame[x][y] == before[x][y]);
                }
            }
        }
        i += 1;
    }
    proof {
        assert(trail@.take(5) == trail@);
    }
    frame
}

impl Display {
    #[verifier::type_invariant]
    spec fn inv(&self) -> bool {
        self@.wf()
    }

    /// Starts the display: idle, at the idle cadence, with the whole trail
    /// on the first cell of the sweep, so that the first picture shows that
    /// one cell at full brightness.
    pub fn init() -> (display: Display)
        ensures
            display@ == (DisplayView {
                mode: Mode::Idle,
                trail: Seq::new(5, |i: int| (0u8, 0u8)),
                delay: IDLE_DELAY,
            }),
            display@.wf(),
    {
        let display = Display { position: [(0, 0); 5], delay: IDLE_DELAY, mode: Mode::Idle };
        assert(display@.trail =~= Seq::new(5, |i: int| (0u8, 0u8)));
        display
    }

    /// The mode that the next frame is made in.
    pub fn mode(&self) -> (mode: Mode)
        ensures
            mode == self@.mode,
    {
        self.mode
    }

    /// The period that the frame timer is to be armed with.
    pub fn delay(&self) -> (delay: u32)
        ensures
            delay == self@.delay,
            delay == period_of(self@.mode),
    {
        proof {
            use_type_invariant(self);
        }
        self.delay
    }

    /// The trail, oldest coordinate first.
    pub fn trail(&self) -> (trail: [(u8, u8); 5])
        ensures
            trail@ == self@.trail,
            self@.wf(),
    {
        proof {
            use_type_invariant(self);
        }
        self.position
    }

    /// The newest coordinate of the trail.
    pub fn head(&self) -> (head: (u8, u8))
        ensures
            head == self@.head(),
            on_grid(head),
    {
        proof {
            use_type_invariant(self);
        }
        self.position[HEAD]
    }

    /// The picture of the trail as it stands.
    pub fn frame(&self) -> (frame: Frame)
        ensures
            shows(frame, self@.trail),
            self@.wf(),
    {
        proof {
            use_type_invariant(self);
        }
        render(&self.position)
    }

    /// Sets the display into its idle mode, at the idle cadence. The trail
    /// stays; the next frame is the first to show the change.
    pub fn idle(&mut self)
        ensures
            final(self)@ == old(self)@.in_mode(Mode::Idle),
            final(self)@.wf(),
    {
        proof {
            use_type_invariant(&*self);
        }
        let trail = self.position;
        *self = Display { position: trail, delay: IDLE_DELAY, mode: Mode::Idle };
    }

    /// Sets the display into its running mode, at the running cadence. The
    /// trail stays; the next frame is the first to show the change.
    pub fn running(&mut self)
        ensures
            final(self)@ == old(self)@.in_mode(Mode::Running),
            final(self)@.wf(),
    {
        proof {
            use_type_invariant(&*self);
        }
        let trail = self.position;
        *self = Display { position: trail, delay: RUNNING_DELAY, mode: Mode::Running };
    }

    /// Moves the trail on by one frame and draws it, given what was drawn
    /// from the entropy source for this frame: a cell index, or nothing
    /// where there is no source. While idle the draw is not looked at.
    ///
    /// The frame timer is to be armed again with [`Display::delay`].
    pub fn step(&mut self, cell: Option<u8>) -> (frame: Frame)
        requires
            cell matches Some(c) ==> c < CELLS,
        ensures
            final(self)@ == old(self)@.advanced(cell),
            final(self)@.wf(),
            shows(frame, final(self)@.trail),
    {
        proof {
            use_type_invariant(&*self);
        }
        let before = self.position;
        let head = match self.mode {
            Mode::Idle => next_in_sweep(before[HEAD]),
            Mode::Running => match cell {
                Some(c) => cell_of(c),
                None => before[HEAD],
            },
        };
        let mut trail = before;
        let mut i: usize = 0;
        while i < HEAD
            invariant
                i <= HEAD,
                forall|k: int| 0 <= k < i ==> trail@[k] == before@[k + 1],
                forall|k: int| i <= k < 5 ==> trail@[k] == before@[k],
            decreases HEAD - i,
        {
            trail[i] = before[i + 1];
            i += 1;
        }
        trail[HEAD] = head;
        assert(trail@ =~= shifted(before@, head));
        self.position = trail;
        render(&trail)
    }

    /// Moves the trail on by one frame and draws it. While running, the new
    /// head is drawn from the entropy source; where there is none, the trail
    /// only moves up and so fades into its head.
    ///
    /// The source is drawn from once while running and not at all while
    /// idle. The frame timer is to be armed again with [`Display::delay`].
    pub fn next(&mut self, rand: &mut Option<Rand>) -> (frame: Frame)
        ensures
            old(self)@.mode == Mode::Idle || *old(rand) is None ==> {
                &&& final(self)@ == old(self)@.advanced(None)
                &&& *final(rand) == *old(rand)
            },
            old(self)@.mode == Mode::Running && *old(rand) is Some ==> {
                &&& drew_once(*old(rand), *final(rand))
                &&& exists|c: u8|
                    c < CELLS && final(self)@ == #[trigger] old(self)@.advanced(Some(c))
            },
            final(self)@.wf(),
            shows(frame, final(self)@.trail),
    {
        let cell: Option<u8> = match self.mode {
            Mode::Idle => None,
            Mode::Running => match rand {
                Some(source) => Some(source.rand_u8(0, CELLS)),
                None => None,
            },
        };
        self.step(cell)
    }
}

/// Number of the first `n` idle frames at which the head went from the last
/// cell of the sweep to the first.
pub open spec fn wraps(d: DisplayView, n: nat) -> nat
    decreases n,
{
    if n == 0 {
        0
    } else {
        let now: nat = if d.run((n - 1) as nat).head() == (4u8, 4u8) {
            1
        } else {
            0
        };
        wraps(d, (n - 1) as nat) + now
    }
}

/// The successor of a coordinate stands one place further along the sweep,
/// and the last place is followed by the first.
pub proof fn lemma_successor_follows_sweep(p: (u8, u8))
    requires
        on_grid(p),
    ensures
        on_grid(successor(p)),
        sweep_index(successor(p)) == (sweep_index(p) + 1) % 25,
        successor(p) == cell_at((sweep_index(p) + 1) % 25),
        p == cell_at(sweep_index(p)),
{
}

/// A frame keeps the trail at five coordinates of the grid, moves each of
/// them one index down and leaves the mode and the cadence alone.
pub proof fn lemma_advanced_keeps_trail(d: DisplayView, cell: Option<u8>)
    requires
        d.wf(),
        cell matches Some(c) ==> c < CELLS,
    ensures
        d.advanced(cell).wf(),
        d.advanced(cell).mode == d.mode,
        forall|i: int| 0 <= i < HEAD ==> d.advanced(cell).trail[i] == d.trail[i + 1],
        d.advanced(cell).head() == d.next_head(cell),
{
    lemma_successor_follows_sweep(d.head());
}

/// While idle a frame does not depend on what was drawn.
pub proof fn lemma_idle_ignores_draw(d: DisplayView, cell: Option<u8>)
    requires
        d.mode == Mode::Idle,
    ensures
        d.advanced(cell) == d.advanced(None),
{
}

/// Whether every draw of `cells` is a cell index of the grid.
pub open spec fn drawn_on_grid(cells: Seq<Option<u8>>) -> bool {
    forall|i: int| 0 <= i < cells.len() ==> (#[trigger] cells[i] matches Some(c) ==> c < CELLS)
}

/// The coordinate at `back` places behind the head is the head of `back`
/// frames ago: a head moves down by one index with each frame and has left
/// the trail after five.
pub proof fn lemma_trail_holds_last_heads(d: DisplayView, cells: Seq<Option<u8>>, back: int)
    requires
        d.wf(),
        drawn_on_grid(cells),
        0 <= back <= HEAD,
        back <= cells.len(),
    ensures
        d.run_with(cells).wf(),
        d.run_with(cells).mode == d.mode,
        d.run_with(cells).trail[HEAD - back] == d.run_with(
            cells.take(cells.len() - back),
        ).head(),
    decreases cells.len(),
{
    if cells.len() == 0 {
        assert(cells.take(0) == cells);
    } else {
        let before = cells.drop_last();
        assert(drawn_on_grid(before)) by {
            assert forall|i: int| 0 <= i < before.len() implies (#[trigger] before[i] matches Some(
                c,
            ) ==> c < CELLS) by {
                assert(before[i] == cells[i]);
            }
        }
        if back == 0 {
            lemma_trail_holds_last_heads(d, before, 0);
            assert(cells.take(cells.len() as int) == cells);
        } else {
            lemma_trail_holds_last_heads(d, before, back - 1);
            assert(before.take(before.len() - (back - 1)) == cells.take(cells.len() - back));
        }
        lemma_advanced_keeps_trail(d.run_with(before), cells.last());
    }
}

/// While idle the head follows the sweep: after `n` frames it stands `n`
/// places further, counted round the grid.
pub proof fn lemma_idle_head_follows_sweep(d: DisplayView, n: nat)
    requires
        d.wf(),
        d.mode == Mode::Idle,
    ensures
        d.run(n).wf(),
        d.run(n).mode == Mode::Idle,
        d.run(n).head() == cell_at((sweep_index(d.head()) + n) % 25),
    decreases n,
{
    if n == 0 {
        lemma_successor_follows_sweep(d.head());
    } else {
        let before = d.run((n - 1) as nat);
        let start = sweep_index(d.head());
        let place = (start + n - 1) % 25;
        lemma_idle_head_follows_sweep(d, (n - 1) as nat);
        lemma_advanced_keeps_trail(before, None);
        lemma_sweep_index_of_cell(place);
        lemma_successor_follows_sweep(before.head());
        assert((place + 1) % 25 == (start + n) % 25);
    }
}

/// A place of the sweep is the place of the coordinate that stands at it.
pub proof fn lemma_sweep_index_of_cell(index: int)
    requires
        0 <= index < CELLS,
    ensures
        on_grid(cell_at(index)),
        sweep_index(cell_at(index)) == index,
{
}

/// While idle the head has gone round as often as the places it has gone
/// hold whole grids.
pub proof fn lemma_idle_wraps(d: DisplayView, n: nat)
    requires
        d.wf(),
        d.mode == Mode::Idle,
    ensures
        wraps(d, n) == (sweep_index(d.head()) + n) / 25,
    decreases n,
{
    if n > 0 {
        lemma_idle_wraps(d, (n - 1) as nat);
        lemma_idle_head_follows_sweep(d, (n - 1) as nat);
    }
}

/// While idle, 25 frames bring the head back to where it was, and it goes
/// from the last cell to the first at exactly one of them.
pub proof fn lemma_idle_cycle(d: DisplayView)
    requires
        d.wf(),
        d.mode == Mode::Idle,
    ensures
        d.run(25).head() == d.head(),
        wraps(d, 25) == 1,
{
    lemma_idle_head_follows_sweep(d, 25);
    lemma_idle_wraps(d, 25);
    lemma_successor_follows_sweep(d.head());
}

/// Brightness rises with the index in the trail, from 1 at the tail to 9 at
/// the head.
pub proof fn lemma_levels_rise(i: int, j: int)
    requires
        0 <= i < j < TRAIL,
    ensures
        1 <= level(i) < level(j) <= 9,
        level(0) == 1,
        level(HEAD as int) == 9,
{
}

/// A cell that the trail does not hold is dark, and no cell is brighter
/// than the newest coordinate.
pub proof fn lemma_intensity_off_trail(trail: Seq<(u8, u8)>, x: int, y: int)
    ensures
        0 <= intensity(trail, x, y),
        trail.len() > 0 ==> intensity(trail, x, y) <= level(trail.len() - 1),
        (forall|i: int| 0 <= i < trail.len() ==> !(trail[i].0 == x && trail[i].1 == y))
            ==> intensity(trail, x, y) == 0,
    decreases trail.len(),
{
    if trail.len() > 0 {
        lemma_intensity_off_trail(trail.drop_last(), x, y);
    }
}

/// The picture of a trail of five coordinates holds brightnesses from 0 to
/// 9 only.
pub proof fn lemma_shown_levels(frame: Frame, trail: Seq<(u8, u8)>)
    requires
        shows(frame, trail),
        trail.len() == TRAIL,
    ensures
        forall|x: int, y: int| 0 <= x < 5 && 0 <= y < 5 ==> (#[trigger] frame[x][y]) <= 9,
{
    assert forall|x: int, y: int| 0 <= x < 5 && 0 <= y < 5 implies (#[trigger] frame[x][y])
        <= 9 by {
        lemma_intensity_off_trail(trail, x, y);
    }
}

/// The picture of a trail that stands on one cell shows that cell at full
/// brightness and nothing else.
pub proof fn lemma_shown_single_cell(frame: Frame, trail: Seq<(u8, u8)>)
    requires
        shows(frame, trail),
        trail.len() == TRAIL,
        forall|i: int| 0 <= i < trail.len() ==> (#[trigger] trail[i]) == trail[0],
    ensures
        forall|x: int, y: int|
            0 <= x < 5 && 0 <= y < 5 ==> (#[trigger] frame[x][y]) == if x == trail[0].0 && y
                == trail[0].1 {
                9u8
            } else {
                0u8
            },
{
    assert forall|x: int, y: int| 0 <= x < 5 && 0 <= y < 5 implies (#[trigger] frame[x][y]) == if x
        == trail[0].0 && y == trail[0].1 {
        9u8
    } else {
        0u8
    } by {
        lemma_intensity_off_trail(trail, x, y);
        assert(trail.last() == trail[0]);
    }
}

/// A cell that the trail holds has the brightness of the last index that
/// holds it.
pub proof fn lemma_intensity_on_trail(trail: Seq<(u8, u8)>, i: int)
    requires
        0 <= i < trail.len(),
        forall|j: int| i < j < trail.len() ==> trail[j] != trail[i],
    ensures
        intensity(trail, trail[i].0 as int, trail[i].1 as int) == level(i),
    decreases trail.len(),
{
    if i < trail.len() - 1 {
        assert(trail.last() != trail[i]);
        lemma_intensity_on_trail(trail.drop_last(), i);
    }
}

} // verus!

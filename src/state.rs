//! The interaction state store: one owned value, changed only by whole
//! transitions (`apply`) and read only as whole copies (`read`).
use vstd::prelude::*;

verus! {

/// `v` clamped into the range of `i64`.
pub open spec fn clamp_i64(v: int) -> int {
    if v > i64::MAX {
        i64::MAX as int
    } else if v < i64::MIN {
        i64::MIN as int
    } else {
        v
    }
}

/// Adds `b` to `a`, stopping at the bounds of `i64` instead of wrapping.
pub fn saturating_sum(a: i64, b: i64) -> (r: i64)
    ensures
        r == clamp_i64(a + b),
{
    let s: i128 = a as i128 + b as i128;
    if s > i64::MAX as i128 {
        i64::MAX
    } else if s < i64::MIN as i128 {
        i64::MIN
    } else {
        s as i64
    }
}

/// The four control margins (in surface pixels) fixed at construction and
/// handed unchanged to every frame.
#[derive(Clone, Copy, Debug, PartialEq, Eq, Structural)]
pub struct Margins {
    pub bottom: i32,
    pub top: i32,
    pub left: i32,
    pub right: i32,
}

/// Everything one frame needs to know about user input and the drawable.
///
/// Rotation is kept in accumulated pixels of drag: the renderer scales it to
/// radians with a fixed per-axis factor, which keeps the mapping linear and
/// monotonic in the drag delta. `rotation_x` turns about the horizontal axis
/// and follows vertical drags; `rotation_y` turns about the vertical axis and
/// follows horizontal drags.
#[derive(Clone, Copy, Debug, PartialEq, Eq, Structural)]
pub struct InteractionState {
    pub pointer_down: bool,
    /// Last observed pointer position, in surface coordinates.
    pub pointer_x: i32,
    pub pointer_y: i32,
    pub rotation_x: i64,
    pub rotation_y: i64,
    /// Accumulated wheel delta, in thousandths of the host's delta unit.
    pub scroll_accum: i64,
    /// Drawable size.
    pub height: u32,
    pub width: u32,
    /// Animation clock in milliseconds.
    pub time: u64,
    pub playback_paused: bool,
    pub margins: Margins,
}

/// One semantic input: what a raw host event, or the frame driver, asks of
/// the store.
#[derive(Clone, Copy, Debug, PartialEq, Eq, Structural)]
pub enum Intent {
    /// The pointer went down at `(x, y)`.
    Press { x: i32, y: i32 },
    /// The pointer went up.
    Release,
    /// The pointer moved to `(x, y)`.
    Move { x: i32, y: i32 },
    /// The wheel turned by `delta` thousandths of the host's delta unit.
    Wheel { delta: i64 },
    /// A new frame: the clock and the drawable size.
    Frame { time: u64, height: u32, width: u32 },
    /// Playback was paused or resumed.
    Pause { paused: bool },
    /// Playback starts over: it is no longer paused.
    Reset,
}

/// A playback-control event arrived without the boolean it should carry.
#[derive(Clone, Copy, Debug, PartialEq, Eq, Structural)]
pub enum PayloadError {
    MissingDetail,
}

/// The state a store starts in.
pub open spec fn initial(m: Margins) -> InteractionState {
    InteractionState {
        pointer_down: false,
        pointer_x: 0,
        pointer_y: 0,
        rotation_x: 0,
        rotation_y: 0,
        scroll_accum: 0,
        height: 0,
        width: 0,
        time: 0,
        playback_paused: false,
        margins: m,
    }
}

/// The state after the pointer moves to `(x, y)`: the drag delta turns the
/// globe only while the pointer is down; the position is recorded either way.
pub open spec fn moved(s: InteractionState, x: i32, y: i32) -> InteractionState {
    InteractionState {
        rotation_x: if s.pointer_down {
            clamp_i64(s.rotation_x + (y - s.pointer_y)) as i64
        } else {
            s.rotation_x
        },
        rotation_y: if s.pointer_down {
            clamp_i64(s.rotation_y + (x - s.pointer_x)) as i64
        } else {
            s.rotation_y
        },
        pointer_x: x,
        pointer_y: y,
        ..s
    }
}

/// The single transition an intent makes.
pub open spec fn step(s: InteractionState, i: Intent) -> InteractionState {
    match i {
        Intent::Press { x, y } => InteractionState {
            pointer_down: true,
            pointer_x: x,
            pointer_y: y,
            ..s
        },
        Intent::Release => InteractionState { pointer_down: false, ..s },
        Intent::Move { x, y } => moved(s, x, y),
        Intent::Wheel { delta } => InteractionState {
            scroll_accum: clamp_i64(s.scroll_accum + delta) as i64,
            ..s
        },
        Intent::Frame { time, height, width } => InteractionState {
            time,
            height,
            width,
            ..s
        },
        Intent::Pause { paused } => InteractionState { playback_paused: paused, ..s },
        Intent::Reset => InteractionState { playback_paused: false, ..s },
    }
}

/// The store owned by the application: input handlers and the frame driver
/// change it through `apply` and see it through `read`.
pub struct StateStore {
    state: InteractionState,
}

impl View for StateStore {
    type V = InteractionState;

    closed spec fn view(&self) -> InteractionState {
        self.state
    }
}

impl StateStore {
    /// A store in its initial state, carrying `margins` for every frame.
    pub fn new(margins: Margins) -> (r: StateStore)
        ensures
            r@ == initial(margins),
    {
        StateStore {
            state: InteractionState {
                pointer_down: false,
                pointer_x: 0,
                pointer_y: 0,
                rotation_x: 0,
                rotation_y: 0,
                scroll_accum: 0,
                height: 0,
                width: 0,
                time: 0,
                playback_paused: false,
                margins,
            },
        }
    }

    /// A copy of the whole current state.
    pub fn read(&self) -> (r: InteractionState)
        ensures
            r == self@,
    {
        self.state
    }

    /// Makes the one transition that `intent` asks for.
    pub fn apply(&mut self, intent: Intent)
        ensures
            final(self)@ == step(old(self)@, intent),
    {
        let s = self.state;
        let next = match intent {
            Intent::Press { x, y } => InteractionState {
                pointer_down: true,
                pointer_x: x,
                pointer_y: y,
                ..s
            },
            Intent::Release => InteractionState { pointer_down: false, ..s },
            Intent::Move { x, y } => {
                let mut rotation_x = s.rotation_x;
                let mut rotation_y = s.rotation_y;
                if s.pointer_down {
                    let dy: i64 = y as i64 - s.pointer_y as i64;
                    let dx: i64 = x as i64 - s.pointer_x as i64;
                    rotation_x = saturating_sum(rotation_x, dy);
                    rotation_y = saturating_sum(rotation_y, dx);
                }
                InteractionState { rotation_x, rotation_y, pointer_x: x, pointer_y: y, ..s }
            },
            Intent::Wheel { delta } => InteractionState {
                scroll_accum: saturating_sum(s.scroll_accum, delta),
                ..s
            },
            Intent::Frame { time, height, width } => InteractionState {
                time,
                height,
                width,
                ..s
            },
            Intent::Pause { paused } => InteractionState { playback_paused: paused, ..s },
            Intent::Reset => InteractionState { playback_paused: false, ..s },
        };
        self.state = next;
    }

    /// Applies a pause event from its payload: a boolean detail sets the
    /// playback flag; a missing or non-boolean one is reported and changes
    /// nothing.
    pub fn apply_pause_detail(&mut self, detail: Option<bool>) -> (r: Result<(), PayloadError>)
        ensures
            match detail {
                Some(paused) => r is Ok && final(self)@ == step(
                    old(self)@,
                    Intent::Pause { paused },
                ),
                None => r == Err::<(), PayloadError>(PayloadError::MissingDetail) && final(self)@
                    == old(self)@,
            },
    {
        match detail {
            Some(paused) => {
                self.apply(Intent::Pause { paused });
                Ok(())
            },
            None => Err(PayloadError::MissingDetail),
        }
    }
}

} // verus!

verus! {

/// Replays `intents` in order from `s`.
pub open spec fn replay(s: InteractionState, intents: Seq<Intent>) -> InteractionState
    decreases intents.len(),
{
    if intents.len() == 0 {
        s
    } else {
        step(replay(s, intents.drop_last()), intents.last())
    }
}

/// A drag turns the globe by exactly the delta moved while the pointer was
/// down: after a press at `(x0, y0)`, a move to `(x1, y1)`, a release and a
/// move to `(x2, y2)`, the rotation has changed by `(y1 - y0, x1 - x0)` alone,
/// as long as the turned rotation stays within `i64`, and the pointer rests
/// at `(x2, y2)`.
pub proof fn drag_rotates_only_while_down(
    s: InteractionState,
    x0: i32,
    y0: i32,
    x1: i32,
    y1: i32,
    x2: i32,
    y2: i32,
)
    requires
        i64::MIN <= s.rotation_x + (y1 - y0) <= i64::MAX,
        i64::MIN <= s.rotation_y + (x1 - x0) <= i64::MAX,
    ensures
        ({
            let t = replay(
                s,
                seq![
                    Intent::Press { x: x0, y: y0 },
                    Intent::Move { x: x1, y: y1 },
                    Intent::Release,
                    Intent::Move { x: x2, y: y2 },
                ],
            );
            &&& t.rotation_x == s.rotation_x + (y1 - y0)
            &&& t.rotation_y == s.rotation_y + (x1 - x0)
            &&& !t.pointer_down
            &&& t.pointer_x == x2 && t.pointer_y == y2
        }),
{
    let p = Intent::Press { x: x0, y: y0 };
    let m1 = Intent::Move { x: x1, y: y1 };
    let m2 = Intent::Move { x: x2, y: y2 };
    let q = seq![p, m1, Intent::Release, m2];
    assert(q.drop_last() =~= seq![p, m1, Intent::Release]);
    assert(q.drop_last().drop_last() =~= seq![p, m1]);
    assert(q.drop_last().drop_last().drop_last() =~= seq![p]);
    assert(q.drop_last().drop_last().drop_last().drop_last() =~= Seq::<Intent>::empty());
    reveal_with_fuel(replay, 5);
}

/// Releasing is idempotent: a second release changes nothing, and a release
/// leaves the pointer up with rotation and last position as they were.
pub proof fn release_is_idempotent(s: InteractionState)
    ensures
        step(step(s, Intent::Release), Intent::Release) == step(s, Intent::Release),
        !step(s, Intent::Release).pointer_down,
        step(s, Intent::Release).rotation_x == s.rotation_x,
        step(s, Intent::Release).rotation_y == s.rotation_y,
        step(s, Intent::Release).pointer_x == s.pointer_x,
        step(s, Intent::Release).pointer_y == s.pointer_y,
{
}

/// A press, even one with no release since the last, records the position
/// and leaves the rotation untouched.
pub proof fn press_keeps_rotation(s: InteractionState, x: i32, y: i32)
    ensures
        step(s, Intent::Press { x, y }).rotation_x == s.rotation_x,
        step(s, Intent::Press { x, y }).rotation_y == s.rotation_y,
        step(s, Intent::Press { x, y }).pointer_x == x,
        step(s, Intent::Press { x, y }).pointer_y == y,
        step(s, Intent::Press { x, y }).pointer_down,
{
}

/// Replaying two runs one after the other is replaying their concatenation.
pub proof fn replay_concat(s: InteractionState, p: Seq<Intent>, q: Seq<Intent>)
    ensures
        replay(s, p + q) == replay(replay(s, p), q),
    decreases q.len(),
{
    if q.len() == 0 {
        assert(p + q =~= p);
    } else {
        assert((p + q).drop_last() =~= p + q.drop_last());
        replay_concat(s, p, q.drop_last());
    }
}

/// Whether every intent of `run` comes from the pointer.
pub open spec fn pointer_only(run: Seq<Intent>) -> bool {
    forall|k: int| 0 <= k < run.len() ==> (run[k] is Press || run[k] is Release || run[k] is Move)
}

/// Pointer intents never touch the wheel accumulator, whether the pointer is
/// up or down.
pub proof fn pointer_run_keeps_scroll(s: InteractionState, run: Seq<Intent>)
    requires
        pointer_only(run),
    ensures
        replay(s, run).scroll_accum == s.scroll_accum,
    decreases run.len(),
{
    if run.len() > 0 {
        assert(pointer_only(run.drop_last()));
        pointer_run_keeps_scroll(s, run.drop_last());
        assert(run.last() == run[run.len() - 1]);
    }
}

/// Wheel deltas add up, whatever the pointer does around and between them:
/// three deltas `a`, `b`, `c`, with any presses, releases and moves before,
/// between and after them, add `a + b + c` to the accumulator, as long as the
/// running sums stay within `i64`.
pub proof fn wheel_deltas_add_up(
    s: InteractionState,
    a: i64,
    b: i64,
    c: i64,
    r0: Seq<Intent>,
    r1: Seq<Intent>,
    r2: Seq<Intent>,
    r3: Seq<Intent>,
)
    requires
        pointer_only(r0),
        pointer_only(r1),
        pointer_only(r2),
        pointer_only(r3),
        i64::MIN <= s.scroll_accum + a <= i64::MAX,
        i64::MIN <= s.scroll_accum + a + b <= i64::MAX,
        i64::MIN <= s.scroll_accum + a + b + c <= i64::MAX,
    ensures
        replay(
            s,
            r0 + seq![Intent::Wheel { delta: a }] + r1 + seq![Intent::Wheel { delta: b }] + r2
                + seq![Intent::Wheel { delta: c }] + r3,
        ).scroll_accum == s.scroll_accum + a + b + c,
{
    let wa = seq![Intent::Wheel { delta: a }];
    let wb = seq![Intent::Wheel { delta: b }];
    let wc = seq![Intent::Wheel { delta: c }];
    reveal_with_fuel(replay, 2);
    assert(wa.drop_last() =~= Seq::<Intent>::empty());
    assert(wb.drop_last() =~= Seq::<Intent>::empty());
    assert(wc.drop_last() =~= Seq::<Intent>::empty());
    let s0 = replay(s, r0);
    pointer_run_keeps_scroll(s, r0);
    replay_concat(s, r0, wa);
    let s1 = replay(s, r0 + wa);
    assert(s1 == step(s0, Intent::Wheel { delta: a }));
    replay_concat(s, r0 + wa, r1);
    pointer_run_keeps_scroll(s1, r1);
    let s2 = replay(s, r0 + wa + r1);
    replay_concat(s, r0 + wa + r1, wb);
    let s3 = replay(s, r0 + wa + r1 + wb);
    assert(s3 == step(s2, Intent::Wheel { delta: b }));
    replay_concat(s, r0 + wa + r1 + wb, r2);
    pointer_run_keeps_scroll(s3, r2);
    let s4 = replay(s, r0 + wa + r1 + wb + r2);
    replay_concat(s, r0 + wa + r1 + wb + r2, wc);
    let s5 = replay(s, r0 + wa + r1 + wb + r2 + wc);
    assert(s5 == step(s4, Intent::Wheel { delta: c }));
    replay_concat(s, r0 + wa + r1 + wb + r2 + wc, r3);
    pointer_run_keeps_scroll(s5, r3);
}

/// Every transition is whole and touches only its own fields: a pointer intent
/// leaves scroll, size, clock and playback as they were; a wheel intent
/// changes the accumulator alone; a frame changes clock and size alone; a
/// playback intent changes the playback flag alone; and the margins never
/// change, over any run of intents.
pub proof fn transitions_touch_only_their_fields(s: InteractionState, i: Intent, run: Seq<Intent>)
    ensures
        ({
            let t = step(s, i);
            &&& (i is Press || i is Release || i is Move) ==> (t.scroll_accum == s.scroll_accum
                && t.height == s.height && t.width == s.width && t.time == s.time
                && t.playback_paused == s.playback_paused)
            &&& (i is Wheel) ==> t == InteractionState { scroll_accum: t.scroll_accum, ..s }
            &&& (i is Frame) ==> t == InteractionState {
                time: t.time,
                height: t.height,
                width: t.width,
                ..s
            }
            &&& (i is Pause || i is Reset) ==> t == InteractionState {
                playback_paused: t.playback_paused,
                ..s
            }
            &&& t.margins == s.margins
        }),
        replay(s, run).margins == s.margins,
    decreases run.len(),
{
    if run.len() > 0 {
        transitions_touch_only_their_fields(s, i, run.drop_last());
    }
}

} // verus!

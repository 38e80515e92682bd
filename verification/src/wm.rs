//! The tiling engine: which windows are tiled on which monitor, which of
//! them are held back while fullscreen, and where each was last put.

use std::collections::{HashMap, HashSet};
use vstd::prelude::*;
use crate::error::ShellError;
use crate::layout::{lemma_partition_windows, partition, tile, Placement};
use crate::monitor::{Monitor, MonitorRegistry, Rect};
use crate::state::FullState;
use crate::winevent::{EventData, WinEvent};

verus! {

broadcast use vstd::std_specs::hash::group_hash_axioms;

/// A tiled window and the monitor that it is tiled on.
#[derive(Clone, Copy, Debug, PartialEq, Eq, Structural)]
pub struct Tile {
    pub window: u64,
    pub monitor: u64,
}

/// The index of the tile of `window`, if it has one.
pub open spec fn position(tiles: Seq<Tile>, window: u64) -> Option<int>
    decreases tiles.len(),
{
    if tiles.len() == 0 {
        None
    } else if tiles[0].window == window {
        Some(0int)
    } else {
        match position(tiles.drop_first(), window) {
            Some(i) => Some(i + 1),
            None => None,
        }
    }
}

/// No window has two tiles.
pub open spec fn windows_unique(tiles: Seq<Tile>) -> bool {
    forall|i: int, j: int| 0 <= i < j < tiles.len() ==> tiles[i].window != tiles[j].window
}

/// The windows that take part in the layout of `monitor`: its tiles that
/// are not held back, in the order in which they were tiled.
pub open spec fn visible(tiles: Seq<Tile>, suppressed: Set<u64>, monitor: u64) -> Seq<u64>
    decreases tiles.len(),
{
    if tiles.len() == 0 {
        Seq::empty()
    } else {
        let before = visible(tiles.drop_last(), suppressed, monitor);
        let last = tiles.last();
        if last.monitor == monitor && !suppressed.contains(last.window) {
            before.push(last.window)
        } else {
            before
        }
    }
}

/// Those of `targets` that are not where they were last put.
pub open spec fn outstanding(targets: Seq<Placement>, applied: Map<u64, Rect>) -> Seq<Placement>
    decreases targets.len(),
{
    if targets.len() == 0 {
        Seq::empty()
    } else {
        let before = outstanding(targets.drop_last(), applied);
        let last = targets.last();
        if applied.contains_key(last.window) && applied[last.window] == last.rect {
            before
        } else {
            before.push(last)
        }
    }
}

/// `applied` after every one of `targets` was issued.
pub open spec fn recorded(applied: Map<u64, Rect>, targets: Seq<Placement>) -> Map<u64, Rect>
    decreases targets.len(),
{
    if targets.len() == 0 {
        applied
    } else {
        recorded(applied, targets.drop_last()).insert(targets.last().window, targets.last().rect)
    }
}

/// The engine's state as a value.
pub struct WmModel {
    /// The tiled windows, oldest first.
    pub tiles: Seq<Tile>,
    /// The windows that are held back while they are fullscreen.
    pub suppressed: Set<u64>,
    /// Where each window was last put.
    pub applied: Map<u64, Rect>,
}

impl WmModel {
    pub open spec fn wf(self) -> bool {
        windows_unique(self.tiles)
    }

    pub open spec fn is_tiled(self, window: u64) -> bool {
        position(self.tiles, window).is_some()
    }

    /// The monitor that `window` is tiled on.
    pub open spec fn owner(self, window: u64) -> Option<u64> {
        match position(self.tiles, window) {
            Some(i) => Some(self.tiles[i].monitor),
            None => None,
        }
    }

    /// Where the windows of `monitor` belong.
    pub open spec fn targets(self, monitor: &Monitor) -> Seq<Placement> {
        partition(monitor.rect, visible(self.tiles, self.suppressed, monitor.handle))
    }

    /// The placements that a layout pass on `monitor` issues.
    pub open spec fn commands(self, monitor: &Monitor) -> Seq<Placement> {
        outstanding(self.targets(monitor), self.applied)
    }

    /// The state after a layout pass on `monitor`.
    pub open spec fn recomputed(self, monitor: &Monitor) -> WmModel {
        WmModel { applied: recorded(self.applied, self.targets(monitor)), ..self }
    }

    /// The state without any trace of `window`.
    pub open spec fn purged(self, window: u64) -> WmModel {
        WmModel {
            tiles: match position(self.tiles, window) {
                Some(i) => self.tiles.remove(i),
                None => self.tiles,
            },
            suppressed: self.suppressed.remove(window),
            applied: self.applied.remove(window),
        }
    }

    /// The state after `event`. `tiling` says whether the monitor that the
    /// event names is known and has tiling switched on: only then does a
    /// window that appears become a tile.
    pub open spec fn react(self, event: WinEvent, tiling: bool) -> WmModel {
        match event {
            WinEvent::WindowCreated(d) | WinEvent::WindowFocused(d) => {
                if tiling && !self.is_tiled(d.handle) {
                    WmModel {
                        tiles: self.tiles.push(Tile { window: d.handle, monitor: d.monitor }),
                        ..self
                    }
                } else {
                    self
                }
            },
            WinEvent::WindowDestroyed(d) => self.purged(d.handle),
            WinEvent::SyntheticFullscreenStart(d) => WmModel {
                suppressed: self.suppressed.insert(d.handle),
                ..self
            },
            WinEvent::SyntheticFullscreenEnd(d) => WmModel {
                suppressed: self.suppressed.remove(d.handle),
                ..self
            },
            _ => self,
        }
    }

    /// The monitor whose layout `event` changes, if it changes any.
    pub open spec fn affected(self, event: WinEvent, tiling: bool) -> Option<u64> {
        match event {
            WinEvent::WindowCreated(d) | WinEvent::WindowFocused(d) => {
                if tiling && !self.is_tiled(d.handle) {
                    Some(d.monitor)
                } else {
                    None
                }
            },
            WinEvent::WindowDestroyed(d) => self.owner(d.handle),
            WinEvent::SyntheticFullscreenStart(d) => self.owner(d.handle),
            WinEvent::SyntheticFullscreenEnd(d) => self.owner(d.handle),
            _ => None,
        }
    }
}

/// `position` finds a tile exactly when the window has one, and then the
/// first.
pub proof fn lemma_position(tiles: Seq<Tile>, window: u64)
    ensures
        match position(tiles, window) {
            Some(i) => 0 <= i < tiles.len() && tiles[i].window == window && forall|j: int|
                0 <= j < i ==> tiles[j].window != window,
            None => forall|j: int| 0 <= j < tiles.len() ==> tiles[j].window != window,
        },
    decreases tiles.len(),
{
    if tiles.len() > 0 && tiles[0].window != window {
        let rest = tiles.drop_first();
        lemma_position(rest, window);
        match position(rest, window) {
            Some(i) => {
                assert forall|j: int| 0 <= j < i + 1 implies tiles[j].window != window by {
                    if j > 0 {
                        assert(rest[j - 1] == tiles[j]);
                    }
                }
            },
            None => {
                assert forall|j: int| 0 <= j < tiles.len() implies tiles[j].window != window by {
                    if j > 0 {
                        assert(rest[j - 1] == tiles[j]);
                    }
                }
            },
        }
    }
}

/// Every window in a layout is the window of a tile, and where no window
/// has two tiles, none occurs twice in a layout.
pub proof fn lemma_visible(tiles: Seq<Tile>, suppressed: Set<u64>, monitor: u64)
    requires
        windows_unique(tiles),
    ensures
        forall|k: int|
            0 <= k < visible(tiles, suppressed, monitor).len() ==> exists|i: int|
                0 <= i < tiles.len() && tiles[i].window == #[trigger] visible(
                    tiles,
                    suppressed,
                    monitor,
                )[k] && tiles[i].monitor == monitor && !suppressed.contains(tiles[i].window),
        visible(tiles, suppressed, monitor).no_duplicates(),
    decreases tiles.len(),
{
    if tiles.len() > 0 {
        let front = tiles.drop_last();
        let before = visible(front, suppressed, monitor);
        let all = visible(tiles, suppressed, monitor);
        lemma_visible(front, suppressed, monitor);
        assert forall|k: int| 0 <= k < all.len() implies exists|i: int|
            0 <= i < tiles.len() && tiles[i].window == #[trigger] all[k] && tiles[i].monitor
                == monitor && !suppressed.contains(tiles[i].window) by {
            if k < before.len() {
                assert(all[k] == before[k]);
                let i = choose|i: int|
                    0 <= i < front.len() && front[i].window == before[k] && front[i].monitor
                        == monitor && !suppressed.contains(front[i].window);
                assert(tiles[i] == front[i]);
            } else {
                assert(tiles[tiles.len() - 1].window == all[k]);
            }
        }
        assert forall|a: int, b: int| 0 <= a < all.len() && 0 <= b < all.len() && a
            != b implies all[a] != all[b] by {
            let (lo, hi) = if a < b {
                (a, b)
            } else {
                (b, a)
            };
            if hi < before.len() {
                assert(all[lo] == before[lo] && all[hi] == before[hi]);
            } else {
                assert(all[lo] == before[lo]);
                let i = choose|i: int|
                    0 <= i < front.len() && front[i].window == before[lo] && front[i].monitor
                        == monitor && !suppressed.contains(front[i].window);
                assert(tiles[i] == front[i]);
                assert(all[hi] == tiles[tiles.len() - 1].window);
            }
        }
    }
}

/// What is outstanding depends only on where the targets' own windows were
/// last put.
pub proof fn lemma_outstanding_ignores_others(
    targets: Seq<Placement>,
    applied: Map<u64, Rect>,
    window: u64,
    rect: Rect,
)
    requires
        forall|i: int| 0 <= i < targets.len() ==> targets[i].window != window,
    ensures
        outstanding(targets, applied.insert(window, rect)) == outstanding(targets, applied),
    decreases targets.len(),
{
    if targets.len() > 0 {
        lemma_outstanding_ignores_others(targets.drop_last(), applied, window, rect);
    }
}

/// Once every target was issued, none is outstanding.
pub proof fn lemma_nothing_outstanding_after_record(
    targets: Seq<Placement>,
    applied: Map<u64, Rect>,
)
    requires
        forall|i: int, j: int|
            0 <= i < j < targets.len() ==> targets[i].window != targets[j].window,
    ensures
        outstanding(targets, recorded(applied, targets)) == Seq::<Placement>::empty(),
    decreases targets.len(),
{
    if targets.len() > 0 {
        let front = targets.drop_last();
        let last = targets.last();
        lemma_nothing_outstanding_after_record(front, applied);
        lemma_outstanding_ignores_others(front, recorded(applied, front), last.window, last.rect);
    }
}

/// After every target was issued, each is where it was last put.
pub proof fn lemma_recorded_holds_targets(targets: Seq<Placement>, applied: Map<u64, Rect>)
    requires
        forall|i: int, j: int|
            0 <= i < j < targets.len() ==> targets[i].window != targets[j].window,
    ensures
        forall|i: int|
            0 <= i < targets.len() ==> recorded(applied, targets).contains_key(
                #[trigger] targets[i].window,
            ) && recorded(applied, targets)[targets[i].window] == targets[i].rect,
    decreases targets.len(),
{
    if targets.len() > 0 {
        lemma_recorded_holds_targets(targets.drop_last(), applied);
        assert forall|i: int| 0 <= i < targets.len() implies recorded(
            applied,
            targets,
        ).contains_key(#[trigger] targets[i].window) && recorded(
            applied,
            targets,
        )[targets[i].window] == targets[i].rect by {
            if i < targets.len() - 1 {
                assert(targets.drop_last()[i] == targets[i]);
            }
        }
    }
}

/// Issuing targets that are all where they were last put changes nothing.
pub proof fn lemma_record_again(targets: Seq<Placement>, applied: Map<u64, Rect>)
    requires
        forall|i: int|
            0 <= i < targets.len() ==> applied.contains_key(#[trigger] targets[i].window)
                && applied[targets[i].window] == targets[i].rect,
    ensures
        recorded(applied, targets) == applied,
    decreases targets.len(),
{
    if targets.len() > 0 {
        let front = targets.drop_last();
        assert forall|i: int| 0 <= i < front.len() implies applied.contains_key(
            #[trigger] front[i].window,
        ) && applied[front[i].window] == front[i].rect by {
            assert(front[i] == targets[i]);
        }
        lemma_record_again(front, applied);
        assert(targets[targets.len() - 1] == targets.last());
        assert(applied.insert(targets.last().window, targets.last().rect) =~= applied);
    }
}

/// The targets of a monitor name no window twice.
pub proof fn lemma_targets_unique(m: WmModel, monitor: &Monitor)
    requires
        m.wf(),
    ensures
        forall|i: int, j: int|
            0 <= i < j < m.targets(monitor).len() ==> m.targets(monitor)[i].window
                != m.targets(monitor)[j].window,
{
    let windows = visible(m.tiles, m.suppressed, monitor.handle);
    lemma_visible(m.tiles, m.suppressed, monitor.handle);
    lemma_partition_windows(monitor.rect, windows);
}

/// Layout is idempotent: a pass that follows a pass on the same monitor,
/// with no window come, gone, held back or released in between, issues no
/// placement and changes nothing.
pub proof fn lemma_second_pass_issues_nothing(m: WmModel, monitor: &Monitor)
    requires
        m.wf(),
    ensures
        m.recomputed(monitor).commands(monitor) == Seq::<Placement>::empty(),
        m.recomputed(monitor).recomputed(monitor) == m.recomputed(monitor),
{
    let targets = m.targets(monitor);
    lemma_targets_unique(m, monitor);
    lemma_nothing_outstanding_after_record(targets, m.applied);
    lemma_recorded_holds_targets(targets, m.applied);
    lemma_record_again(targets, recorded(m.applied, targets));
}

/// A layout pass moves no window in or out of any set.
pub proof fn lemma_pass_keeps_membership(m: WmModel, monitor: &Monitor)
    ensures
        m.recomputed(monitor).tiles == m.tiles,
        m.recomputed(monitor).suppressed == m.suppressed,
        m.recomputed(monitor).wf() == m.wf(),
{
}

/// A purged window is in no set: it has no tile, is not held back, and no
/// placement is remembered for it.
pub proof fn lemma_purged_leaves_nothing(m: WmModel, window: u64)
    requires
        m.wf(),
    ensures
        !m.purged(window).is_tiled(window),
        !m.purged(window).suppressed.contains(window),
        !m.purged(window).applied.contains_key(window),
        m.purged(window).wf(),
{
    let after = m.purged(window).tiles;
    lemma_position(m.tiles, window);
    lemma_position(after, window);
    match position(m.tiles, window) {
        Some(i) => {
            assert forall|j: int| 0 <= j < after.len() implies after[j].window != window by {
                if j < i {
                    assert(after[j] == m.tiles[j]);
                } else {
                    assert(after[j] == m.tiles[j + 1]);
                }
            }
            assert forall|a: int, b: int| 0 <= a < b < after.len() implies after[a].window
                != after[b].window by {
                let a0 = if a < i {
                    a
                } else {
                    a + 1
                };
                let b0 = if b < i {
                    b
                } else {
                    b + 1
                };
                assert(after[a] == m.tiles[a0] && after[b] == m.tiles[b0]);
            }
        },
        None => {},
    }
    if position(after, window).is_some() {
        assert(after[position(after, window).unwrap()].window == window);
    }
}

/// Every event keeps the state well formed.
pub proof fn lemma_react_keeps_wf(m: WmModel, event: WinEvent, tiling: bool)
    requires
        m.wf(),
    ensures
        m.react(event, tiling).wf(),
{
    match event {
        WinEvent::WindowCreated(d) | WinEvent::WindowFocused(d) => {
            lemma_position(m.tiles, d.handle);
        },
        WinEvent::WindowDestroyed(d) => {
            lemma_purged_leaves_nothing(m, d.handle);
        },
        _ => {},
    }
}

/// Where tiling is off for the monitor that an event names, or the monitor
/// is unknown, the event gives no window a tile.
pub proof fn lemma_no_tile_without_tiling(m: WmModel, event: WinEvent, window: u64)
    requires
        m.wf(),
        m.react(event, false).is_tiled(window),
    ensures
        m.is_tiled(window),
{
    match event {
        WinEvent::WindowDestroyed(d) => {
            let after = m.purged(d.handle).tiles;
            lemma_position(after, window);
            lemma_position(m.tiles, window);
            lemma_position(m.tiles, d.handle);
            let k = position(after, window).unwrap();
            match position(m.tiles, d.handle) {
                Some(i) => {
                    let k0 = if k < i {
                        k
                    } else {
                        k + 1
                    };
                    assert(after[k] == m.tiles[k0]);
                },
                None => {},
            }
        },
        _ => {},
    }
}

/// A layout pass remembers a placement only for windows that had one or
/// that it places.
pub proof fn lemma_recorded_domain(targets: Seq<Placement>, applied: Map<u64, Rect>, window: u64)
    requires
        recorded(applied, targets).contains_key(window),
    ensures
        applied.contains_key(window) || exists|i: int|
            0 <= i < targets.len() && targets[i].window == window,
    decreases targets.len(),
{
    if targets.len() > 0 {
        if targets.last().window == window {
            assert(targets[targets.len() - 1].window == window);
        } else {
            lemma_recorded_domain(targets.drop_last(), applied, window);
            if !applied.contains_key(window) {
                let i = choose|i: int|
                    0 <= i < targets.drop_last().len() && targets.drop_last()[i].window == window;
                assert(targets[i].window == window);
            }
        }
    }
}

/// A layout pass leaves a window alone that has no tile: it gets no
/// placement, and what is held back stays as it is.
pub proof fn lemma_pass_ignores_untiled(m: WmModel, monitor: &Monitor, window: u64)
    requires
        m.wf(),
        !m.is_tiled(window),
        !m.applied.contains_key(window),
    ensures
        !m.recomputed(monitor).applied.contains_key(window),
        !m.recomputed(monitor).is_tiled(window),
        m.recomputed(monitor).suppressed == m.suppressed,
{
    let windows = visible(m.tiles, m.suppressed, monitor.handle);
    let targets = m.targets(monitor);
    lemma_visible(m.tiles, m.suppressed, monitor.handle);
    lemma_partition_windows(monitor.rect, windows);
    lemma_position(m.tiles, window);
    if recorded(m.applied, targets).contains_key(window) {
        lemma_recorded_domain(targets, m.applied, window);
        let i = choose|i: int| 0 <= i < targets.len() && targets[i].window == window;
        assert(targets[i].window == windows[i]);
        let k = choose|k: int|
            0 <= k < m.tiles.len() && m.tiles[k].window == windows[i] && m.tiles[k].monitor
                == monitor.handle && !m.suppressed.contains(m.tiles[k].window);
        assert(m.tiles[k].window == window);
    }
}

/// Every event, with the layout pass that it brings, keeps the state well
/// formed.
pub proof fn lemma_event_keeps_wf(
    m: WmModel,
    state: &FullState,
    registry: Map<u64, Monitor>,
    event: WinEvent,
)
    requires
        m.wf(),
    ensures
        after_event(m, state, registry, event).wf(),
{
    lemma_react_keeps_wf(m, event, admits(state, registry, event));
}

/// A window that is declared fullscreen and destroyed right after leaves no
/// entry behind, neither among the windows held back nor anywhere else,
/// whatever the settings and the monitors were at either event and
/// whichever layout passes the two events brought.
pub proof fn lemma_fullscreen_then_destroyed(
    m: WmModel,
    state_at_start: &FullState,
    registry_at_start: Map<u64, Monitor>,
    state_at_end: &FullState,
    registry_at_end: Map<u64, Monitor>,
    start: EventData,
    destroyed: EventData,
)
    requires
        m.wf(),
        start.handle == destroyed.handle,
    ensures
        ({
            let held = after_event(
                m,
                state_at_start,
                registry_at_start,
                WinEvent::SyntheticFullscreenStart(start),
            );
            let after = after_event(
                held,
                state_at_end,
                registry_at_end,
                WinEvent::WindowDestroyed(destroyed),
            );
            &&& !after.suppressed.contains(start.handle)
            &&& !after.is_tiled(start.handle)
            &&& !after.applied.contains_key(start.handle)
        }),
{
    let first = WinEvent::SyntheticFullscreenStart(start);
    let second = WinEvent::WindowDestroyed(destroyed);
    let held = after_event(m, state_at_start, registry_at_start, first);
    lemma_event_keeps_wf(m, state_at_start, registry_at_start, first);
    let tiling = admits(state_at_end, registry_at_end, second);
    let purged = held.react(second, tiling);
    lemma_purged_leaves_nothing(held, destroyed.handle);
    match held.affected(second, tiling) {
        Some(monitor) => {
            if registry_at_end.contains_key(monitor) {
                lemma_pass_ignores_untiled(purged, &registry_at_end[monitor], destroyed.handle);
            }
        },
        None => {},
    }
}

/// Where tiling is off for the monitor that an event names, or the monitor
/// is unknown, the event and its layout pass give no window a tile.
pub proof fn lemma_event_tiles_nothing_without_tiling(
    m: WmModel,
    state: &FullState,
    registry: Map<u64, Monitor>,
    event: WinEvent,
    window: u64,
)
    requires
        m.wf(),
        !admits(state, registry, event),
        after_event(m, state, registry, event).is_tiled(window),
    ensures
        m.is_tiled(window),
{
    lemma_no_tile_without_tiling(m, event, window);
}

/// What one layout pass asks of the caller.
#[derive(Clone, Debug)]
pub struct LayoutPass {
    /// The monitor that was laid out.
    pub monitor: u64,
    /// The layout that holds on that monitor's workspace.
    pub layout: String,
    /// The windows to move, each with its place. Each is tried whatever
    /// becomes of the others.
    pub commands: Vec<Placement>,
}

/// Tiling is on for the monitor that `event` names, and the monitor is
/// known.
pub open spec fn admits(state: &FullState, registry: Map<u64, Monitor>, event: WinEvent) -> bool {
    registry.contains_key(event.spec_data().monitor) && state.flags_on(
        &registry[event.spec_data().monitor],
    ).wm_enabled
}

/// `event` brings a window that is not tiled yet, on a monitor that the
/// registry does not hold.
pub open spec fn names_stale_monitor(
    before: WmModel,
    registry: Map<u64, Monitor>,
    event: WinEvent,
) -> bool {
    match event {
        WinEvent::WindowCreated(d) | WinEvent::WindowFocused(d) => !before.is_tiled(d.handle)
            && !registry.contains_key(d.monitor),
        _ => false,
    }
}

/// The state in which `event` leaves the engine: the membership changes as
/// `react` says, and where that touches the layout of a known monitor, the
/// monitor is laid out again.
pub open spec fn after_event(
    before: WmModel,
    state: &FullState,
    registry: Map<u64, Monitor>,
    event: WinEvent,
) -> WmModel {
    let tiling = admits(state, registry, event);
    let reacted = before.react(event, tiling);
    match before.affected(event, tiling) {
        Some(m) => {
            if registry.contains_key(m) {
                reacted.recomputed(&registry[m])
            } else {
                reacted
            }
        },
        None => reacted,
    }
}

/// How the engine answers `event`: the membership changes as `react` says;
/// where that touches the layout of a known monitor, the layout is
/// recomputed and the pass returned; where the monitor is stale, the layout
/// is left alone and the answer is `StaleHandle`.
pub open spec fn event_outcome(
    before: WmModel,
    state: &FullState,
    registry: Map<u64, Monitor>,
    workspace_idx: int,
    event: WinEvent,
    after: WmModel,
    answer: Result<Option<LayoutPass>, ShellError>,
) -> bool {
    let tiling = admits(state, registry, event);
    let reacted = before.react(event, tiling);
    match before.affected(event, tiling) {
        Some(m) => {
            if registry.contains_key(m) {
                &&& after == reacted.recomputed(&registry[m])
                &&& answer matches Ok(Some(pass))
                &&& pass.monitor == m
                &&& pass.layout@ == state.layout_on(&registry[m], workspace_idx)
                &&& pass.commands@ == reacted.commands(&registry[m])
            } else {
                &&& after == reacted
                &&& answer matches Err(e)
                &&& e == ShellError::StaleHandle
            }
        },
        None => {
            &&& after == reacted
            &&& if names_stale_monitor(before, registry, event) {
                answer matches Err(e) && e == ShellError::StaleHandle
            } else {
                answer matches Ok(None)
            }
        },
    }
}

pub struct WindowManager {
    tiles: Vec<Tile>,
    suppressed: HashSet<u64>,
    applied: HashMap<u64, Rect>,
}

impl View for WindowManager {
    type V = WmModel;

    closed spec fn view(&self) -> WmModel {
        WmModel { tiles: self.tiles@, suppressed: self.suppressed@, applied: self.applied@ }
    }
}

impl WindowManager {
    #[verifier::type_invariant]
    spec fn inv(&self) -> bool {
        windows_unique(self.tiles@)
    }

    /// An engine that tiles nothing yet.
    pub fn new() -> (manager: Self)
        ensures
            manager@ == (WmModel {
                tiles: Seq::empty(),
                suppressed: Set::empty(),
                applied: Map::empty(),
            }),
            manager@.wf(),
    {
        WindowManager { tiles: Vec::new(), suppressed: HashSet::new(), applied: HashMap::new() }
    }

    fn find_tile(&self, window: u64) -> (found: Option<usize>)
        ensures
            self@.wf(),
            match found {
                Some(i) => position(self@.tiles, window) == Some(i as int) && i
                    < self@.tiles.len(),
                None => position(self@.tiles, window).is_none(),
            },
    {
        proof {
            use_type_invariant(self);
            lemma_position(self.tiles@, window);
        }
        let ghost at = position(self.tiles@, window);
        let mut i: usize = 0;
        while i < self.tiles.len()
            invariant
                i <= self.tiles.len(),
                windows_unique(self.tiles@),
                at == position(self.tiles@, window),
                at.is_some() ==> 0 <= at.unwrap() < self.tiles@.len() && self.tiles@[at.unwrap()].window
                    == window && at.unwrap() >= i,
                at.is_none() ==> forall|j: int|
                    0 <= j < self.tiles@.len() ==> self.tiles@[j].window != window,
            decreases self.tiles.len() - i,
        {
            if self.tiles[i].window == window {
                return Some(i);
            }
            i += 1;
        }
        None
    }

    /// Whether `window` is tiled.
    pub fn is_tiled(&self, window: u64) -> (tiled: bool)
        ensures
            tiled == self@.is_tiled(window),
            self@.wf(),
    {
        self.find_tile(window).is_some()
    }

    /// The monitor that `window` is tiled on.
    pub fn owner(&self, window: u64) -> (monitor: Option<u64>)
        ensures
            monitor == self@.owner(window),
            self@.wf(),
    {
        match self.find_tile(window) {
            Some(i) => Some(self.tiles[i].monitor),
            None => None,
        }
    }

    /// Whether `window` is held back from the layout.
    pub fn is_suppressed(&self, window: u64) -> (held: bool)
        ensures
            held == self@.suppressed.contains(window),
            self@.wf(),
    {
        proof {
            use_type_invariant(self);
        }
        self.suppressed.contains(&window)
    }

    /// Where `window` was last put.
    pub fn last_placement(&self, window: u64) -> (rect: Option<Rect>)
        ensures
            rect == if self@.applied.contains_key(window) {
                Some(self@.applied[window])
            } else {
                None
            },
    {
        match self.applied.get(&window) {
            Some(r) => Some(*r),
            None => None,
        }
    }

    /// The windows that take part in the layout of `monitor`, oldest first.
    pub fn windows_on(&self, monitor: u64) -> (windows: Vec<u64>)
        ensures
            windows@ == visible(self@.tiles, self@.suppressed, monitor),
            self@.wf(),
    {
        proof {
            use_type_invariant(self);
        }
        let mut windows: Vec<u64> = Vec::new();
        let mut i: usize = 0;
        while i < self.tiles.len()
            invariant
                i <= self.tiles.len(),
                windows@ == visible(self.tiles@.subrange(0, i as int), self.suppressed@, monitor),
            decreases self.tiles.len() - i,
        {
            let t = self.tiles[i];
            assert(self.tiles@.subrange(0, i + 1).drop_last() =~= self.tiles@.subrange(
                0,
                i as int,
            ));
            if t.monitor == monitor && !self.suppressed.contains(&t.window) {
                windows.push(t.window);
            }
            i += 1;
        }
        assert(self.tiles@.subrange(0, self.tiles@.len() as int) =~= self.tiles@);
        windows
    }

    /// Lays `monitor` out again and returns the placements to issue: those
    /// of its windows that are not where they were last put. A pass that
    /// follows another with nothing changed in between returns none.
    pub fn recompute_layout(&mut self, monitor: &Monitor) -> (commands: Vec<Placement>)
        ensures
            final(self)@ == old(self)@.recomputed(monitor),
            commands@ == old(self)@.commands(monitor),
            old(self)@.wf(),
            final(self)@.wf(),
    {
        proof {
            use_type_invariant(&*self);
        }
        let windows = self.windows_on(monitor.handle);
        let targets = tile(monitor.rect, &windows);
        let mut applied: HashMap<u64, Rect> = HashMap::new();
        std::mem::swap(&mut applied, &mut self.applied);
        let mut commands: Vec<Placement> = Vec::new();
        let mut i: usize = 0;
        while i < targets.len()
            invariant
                i <= targets.len(),
                commands@ == outstanding(targets@.subrange(0, i as int), applied@),
            decreases targets.len() - i,
        {
            let target = targets[i];
            assert(targets@.subrange(0, i + 1).drop_last() =~= targets@.subrange(0, i as int));
            let placed = match applied.get(&target.window) {
                Some(rect) => *rect == target.rect,
                None => false,
            };
            if !placed {
                commands.push(target);
            }
            i += 1;
        }
        assert(targets@.subrange(0, targets@.len() as int) =~= targets@);
        let mut j: usize = 0;
        while j < targets.len()
            invariant
                j <= targets.len(),
                applied@ == recorded(old(self).applied@, targets@.subrange(0, j as int)),
            decreases targets.len() - j,
        {
            let target = targets[j];
            assert(targets@.subrange(0, j + 1).drop_last() =~= targets@.subrange(0, j as int));
            applied.insert(target.window, target.rect);
            j += 1;
        }
        self.applied = applied;
        commands
    }

    fn add_tile(&mut self, t: Tile)
        requires
            !old(self)@.is_tiled(t.window),
        ensures
            final(self)@ == (WmModel { tiles: old(self)@.tiles.push(t), ..old(self)@ }),
    {
        proof {
            use_type_invariant(&*self);
            lemma_position(self.tiles@, t.window);
        }
        let mut tiles: Vec<Tile> = Vec::new();
        std::mem::swap(&mut tiles, &mut self.tiles);
        tiles.push(t);
        self.tiles = tiles;
    }

    fn purge(&mut self, window: u64)
        ensures
            final(self)@ == old(self)@.purged(window),
    {
        let found = self.find_tile(window);
        let mut tiles: Vec<Tile> = Vec::new();
        std::mem::swap(&mut tiles, &mut self.tiles);
        match found {
            Some(i) => {
                tiles.remove(i);
            },
            None => {},
        }
        self.tiles = tiles;
        self.set_suppressed(window, false);
        let mut applied: HashMap<u64, Rect> = HashMap::new();
        std::mem::swap(&mut applied, &mut self.applied);
        applied.remove(&window);
        self.applied = applied;
    }

    fn set_suppressed(&mut self, window: u64, held: bool)
        ensures
            final(self)@ == (WmModel {
                suppressed: if held {
                    old(self)@.suppressed.insert(window)
                } else {
                    old(self)@.suppressed.remove(window)
                },
                ..old(self)@
            }),
    {
        proof {
            use_type_invariant(&*self);
        }
        let mut suppressed: HashSet<u64> = HashSet::new();
        std::mem::swap(&mut suppressed, &mut self.suppressed);
        if held {
            suppressed.insert(window);
        } else {
            suppressed.remove(&window);
        }
        self.suppressed = suppressed;
    }

    /// Reacts to one event. Before a window becomes a tile the flags of the
    /// monitor that the event names are resolved, and a monitor with tiling
    /// off gets no tile. A window that is destroyed leaves every set that
    /// held it. Where the event changes what a monitor lays out, that
    /// monitor is laid out again, with the layout of `workspace_idx`.
    pub fn handle_event(
        &mut self,
        state: &FullState,
        registry: &MonitorRegistry,
        workspace_idx: usize,
        event: WinEvent,
    ) -> (answer: Result<Option<LayoutPass>, ShellError>)
        ensures
            old(self)@.wf(),
            final(self)@.wf(),
            final(self)@ == after_event(old(self)@, state, registry@, event),
            event_outcome(
                old(self)@,
                state,
                registry@,
                workspace_idx as int,
                event,
                final(self)@,
                answer,
            ),
    {
        let data = event.data();
        let found = self.find_tile(data.handle);
        let owner = match found {
            Some(i) => Some(self.tiles[i].monitor),
            None => None,
        };
        let mut target: Option<u64> = None;
        match event {
            WinEvent::WindowCreated(_) | WinEvent::WindowFocused(_) => {
                if found.is_none() {
                    match registry.find(data.monitor) {
                        Some(monitor) => {
                            if state.is_window_manager_enabled_on_monitor(monitor) {
                                self.add_tile(Tile { window: data.handle, monitor: data.monitor });
                                target = Some(data.monitor);
                            }
                        },
                        None => {
                            return Err(ShellError::StaleHandle);
                        },
                    }
                }
            },
            WinEvent::WindowDestroyed(_) => {
                self.purge(data.handle);
                target = owner;
            },
            WinEvent::SyntheticFullscreenStart(_) => {
                self.set_suppressed(data.handle, true);
                target = owner;
            },
            WinEvent::SyntheticFullscreenEnd(_) => {
                self.set_suppressed(data.handle, false);
                target = owner;
            },
            _ => {},
        }
        assert(self@ == old(self)@.react(event, admits(state, registry@, event)));
        assert(target == old(self)@.affected(event, admits(state, registry@, event)));
        match target {
            Some(m) => match registry.find(m) {
                Some(monitor) => {
                    let commands = self.recompute_layout(monitor);
                    let layout = state.resolve_layout(monitor, workspace_idx);
                    Ok(Some(LayoutPass { monitor: m, layout, commands }))
                },
                None => Err(ShellError::StaleHandle),
            },
            None => Ok(None),
        }
    }
}

} // verus!

//! The enumeration of the windows of a display: which windows are listed,
//! which of them are described, and in what order they come.

use vstd::prelude::*;
use vstd::utf8::valid_utf8;
use crate::atom::{get_atom, spec_get_atom, Atom, AtomName};
use crate::error::WindowError;
use crate::monitor::{owner_index, ImplMonitor};
use crate::window::{
    current_monitor_overlaps_most, spec_new, ImplWindow, WindowReplies, WindowView,
};

verus! {

/// What the window system answered when asked for the process that owns a
/// window. `None` stands for a round trip that failed or could not be made.
#[derive(Debug, Clone, PartialEq, Eq)]
pub struct PidReplies {
    /// The identifier of the property that holds a window's process id.
    pub atom: Option<Atom>,
    /// The values of that property on the window.
    pub values: Option<Vec<u32>>,
}

/// What the window system answered about one listed window.
#[derive(Debug, Clone, PartialEq, Eq)]
pub struct ClientReplies {
    /// The handle of the window.
    pub id: u32,
    /// The replies on the process that owns the window.
    pub pid: PidReplies,
    /// The replies from which the window is described.
    pub window: WindowReplies,
}

/// What the window system answered about one screen. `None` stands for a
/// round trip that failed or could not be made.
#[derive(Debug, Clone, PartialEq, Eq)]
pub struct ScreenReplies {
    /// The values of the active-window property on the screen's root.
    pub active_window: Option<Vec<u32>>,
    /// Whether the pointer query on the root found it to be on the
    /// connection's screen.
    pub same_screen: Option<bool>,
    /// The windows that the root lists, from bottom to top.
    pub clients: Option<Vec<ClientReplies>>,
}

/// What the window system answered in one pass over a display.
#[derive(Debug, Clone, PartialEq, Eq)]
pub struct DisplayReplies {
    /// The identifier of the property that lists a root's windows.
    pub client_list_atom: Option<Atom>,
    /// The identifier of the property that holds the focused window.
    pub active_window_atom: Option<Atom>,
    /// The screens of the display, in the order in which it reports them.
    pub screens: Vec<ScreenReplies>,
}

/// A listed window that was left out of an enumeration, and why.
#[derive(Debug, Clone, Copy, PartialEq, Eq, Structural)]
pub struct Skipped {
    /// The handle of the window.
    pub id: u32,
    /// The place of the window in the stacking order.
    pub z: i32,
    pub error: WindowError,
}

/// What an enumeration found.
#[derive(Debug, Clone, PartialEq, Eq)]
pub struct Enumeration {
    /// The windows that could be described, topmost first.
    pub windows: Vec<ImplWindow>,
    /// The listed windows that could not, bottommost first.
    pub skipped: Vec<Skipped>,
}

/// The process id of a window: the first value of its process-id property,
/// where the window manager knows that property and the window carries it.
pub open spec fn spec_get_window_pid(replies: PidReplies) -> Result<u32, WindowError> {
    match spec_get_atom(AtomName::NetWmPid, replies.atom) {
        Err(e) => Err(e),
        Ok(_) => match replies.values {
            None => Err(WindowError::ConnectionError),
            Some(values) => if values@.len() > 0 {
                Ok(values@[0])
            } else {
                Err(WindowError::PidResolutionError)
            },
        },
    }
}

/// Reads the process id that owns a window.
pub fn get_window_pid(replies: &PidReplies) -> (r: Result<u32, WindowError>)
    ensures
        r == spec_get_window_pid(*replies),
{
    match get_atom(AtomName::NetWmPid, replies.atom) {
        Err(e) => Err(e),
        Ok(_) => match &replies.values {
            None => Err(WindowError::ConnectionError),
            Some(values) => if values.len() > 0 {
                Ok(values[0])
            } else {
                Err(WindowError::PidResolutionError)
            },
        },
    }
}

/// The focused window as the screens report it: the first screen whose
/// active-window property could not be read, or holds a value, decides.
pub open spec fn first_active_window(screens: Seq<ScreenReplies>) -> Option<u32>
    decreases screens.len(),
{
    if screens.len() == 0 {
        None
    } else {
        match screens[0].active_window {
            None => None,
            Some(values) => if values@.len() > 0 {
                Some(values@[0])
            } else {
                first_active_window(screens.drop_first())
            },
        }
    }
}

/// The focused window of the display, if the window manager tracks one.
pub open spec fn spec_get_active_window_id(
    atom: Option<Atom>,
    screens: Seq<ScreenReplies>,
) -> Option<u32> {
    if spec_get_atom(AtomName::NetActiveWindow, atom) is Ok {
        first_active_window(screens)
    } else {
        None
    }
}

/// Finds the handle of the focused window. That none can be found is no
/// error: no window is then focused.
pub fn get_active_window_id(atom: Option<Atom>, screens: &Vec<ScreenReplies>) -> (r: Option<u32>)
    ensures
        r == spec_get_active_window_id(atom, screens@),
{
    if get_atom(AtomName::NetActiveWindow, atom).is_err() {
        return None;
    }
    let mut i: usize = 0;
    assert(screens@.subrange(0, screens.len() as int) == screens@);
    while i < screens.len()
        invariant
            i <= screens.len(),
            spec_get_atom(AtomName::NetActiveWindow, atom) is Ok,
            first_active_window(screens@) == first_active_window(
                screens@.subrange(i as int, screens.len() as int),
            ),
        decreases screens.len() - i,
    {
        let ghost rest = screens@.subrange(i as int, screens.len() as int);
        assert(rest[0] == screens@[i as int]);
        assert(rest.drop_first() == screens@.subrange(i + 1, screens.len() as int));
        match &screens[i].active_window {
            None => {
                return None;
            },
            Some(values) => {
                if values.len() > 0 {
                    return Some(values[0]);
                }
            },
        }
        i = i + 1;
    }
    None
}

/// The windows that a screen contributes: those that its root lists, where
/// the root is on the connection's screen and its list could be read.
pub open spec fn screen_clients(screen: ScreenReplies) -> Seq<ClientReplies> {
    match (screen.same_screen, screen.clients) {
        (Some(true), Some(clients)) => clients@,
        _ => Seq::empty(),
    }
}

/// The listed windows of all screens in stacking order, bottommost first.
/// The place of a window in this sequence is its `z`.
pub open spec fn candidates(screens: Seq<ScreenReplies>) -> Seq<ClientReplies>
    decreases screens.len(),
{
    if screens.len() == 0 {
        Seq::empty()
    } else {
        candidates(screens.drop_last()) + screen_clients(screens.last())
    }
}

/// The description of the listed window at place `z`, or the reason why it
/// has none.
pub open spec fn spec_resolve(
    client: ClientReplies,
    z: int,
    active: Option<u32>,
    monitors: Seq<ImplMonitor>,
) -> Result<WindowView, WindowError> {
    match spec_get_window_pid(client.pid) {
        Err(e) => Err(e),
        Ok(pid) => spec_new(
            client.window,
            client.id,
            pid,
            z as i32,
            active == Some(client.id),
            monitors,
        ),
    }
}

/// The descriptions of those of `clients` that have one, bottommost first.
pub open spec fn stacked(
    clients: Seq<ClientReplies>,
    active: Option<u32>,
    monitors: Seq<ImplMonitor>,
) -> Seq<WindowView>
    decreases clients.len(),
{
    if clients.len() == 0 {
        Seq::empty()
    } else {
        let below = stacked(clients.drop_last(), active, monitors);
        match spec_resolve(clients.last(), clients.len() - 1, active, monitors) {
            Ok(window) => below.push(window),
            Err(_) => below,
        }
    }
}

/// Those of `clients` that have no description, bottommost first, each with
/// the reason.
pub open spec fn skipped(
    clients: Seq<ClientReplies>,
    active: Option<u32>,
    monitors: Seq<ImplMonitor>,
) -> Seq<Skipped>
    decreases clients.len(),
{
    if clients.len() == 0 {
        Seq::empty()
    } else {
        let below = skipped(clients.drop_last(), active, monitors);
        match spec_resolve(clients.last(), clients.len() - 1, active, monitors) {
            Ok(_) => below,
            Err(error) => below.push(
                Skipped { id: clients.last().id, z: (clients.len() - 1) as i32, error },
            ),
        }
    }
}

/// The windows of a display, topmost first, or the error that keeps the
/// display from being enumerated at all.
pub open spec fn spec_all(display: DisplayReplies, monitors: Seq<ImplMonitor>) -> Result<
    Seq<WindowView>,
    WindowError,
> {
    match spec_get_atom(AtomName::NetClientListStacking, display.client_list_atom) {
        Err(e) => Err(e),
        Ok(_) => Ok(
            stacked(
                candidates(display.screens@),
                spec_get_active_window_id(display.active_window_atom, display.screens@),
                monitors,
            ).reverse(),
        ),
    }
}

/// The listed windows of a display that have no description, bottommost
/// first.
pub open spec fn spec_skipped(display: DisplayReplies, monitors: Seq<ImplMonitor>) -> Seq<Skipped> {
    skipped(
        candidates(display.screens@),
        spec_get_active_window_id(display.active_window_atom, display.screens@),
        monitors,
    )
}

/// The mathematical values of a sequence of descriptions.
pub open spec fn views(windows: Seq<ImplWindow>) -> Seq<WindowView> {
    windows.map_values(|window: ImplWindow| window@)
}

impl ClientReplies {
    /// Describes the listed window at place `z` of the stacking order, given
    /// the focused window and the monitors of the display.
    pub fn resolve(&self, z: i32, active: Option<u32>, impl_monitors: &Vec<ImplMonitor>) -> (r:
        Result<ImplWindow, WindowError>)
        ensures
            match r {
                Ok(window) => spec_resolve(*self, z as int, active, impl_monitors@) == Ok::<
                    WindowView,
                    WindowError,
                >(window@),
                Err(e) => spec_resolve(*self, z as int, active, impl_monitors@) == Err::<
                    WindowView,
                    WindowError,
                >(e),
            },
    {
        let pid: u32 = match get_window_pid(&self.pid) {
            Ok(pid) => pid,
            Err(e) => return Err(e),
        };
        let is_focused = match active {
            Some(id) => id == self.id,
            None => false,
        };
        ImplWindow::new(&self.window, self.id, pid, z, is_focused, impl_monitors)
    }
}

/// The listed windows of the first `n + 1` screens are those of the first
/// `n` and then those of the next; they are no more than those of all.
proof fn candidates_step(screens: Seq<ScreenReplies>, n: int)
    requires
        0 <= n < screens.len(),
    ensures
        candidates(screens.take(n + 1)) == candidates(screens.take(n)) + screen_clients(
            screens[n],
        ),
        candidates(screens.take(n + 1)).len() <= candidates(screens).len(),
    decreases screens.len() - n,
{
    assert(screens.take(n + 1).drop_last() == screens.take(n));
    if n + 1 < screens.len() {
        candidates_step(screens, n + 1);
    } else {
        assert(screens.take(n + 1) == screens);
    }
}

/// The descriptions of a sequence of listed windows with one more on top.
proof fn stacked_step(
    clients: Seq<ClientReplies>,
    top: ClientReplies,
    active: Option<u32>,
    monitors: Seq<ImplMonitor>,
)
    ensures
        stacked(clients.push(top), active, monitors) == match spec_resolve(
            top,
            clients.len() as int,
            active,
            monitors,
        ) {
            Ok(window) => stacked(clients, active, monitors).push(window),
            Err(_) => stacked(clients, active, monitors),
        },
        skipped(clients.push(top), active, monitors) == match spec_resolve(
            top,
            clients.len() as int,
            active,
            monitors,
        ) {
            Ok(_) => skipped(clients, active, monitors),
            Err(error) => skipped(clients, active, monitors).push(
                Skipped { id: top.id, z: clients.len() as i32, error },
            ),
        },
{
    assert(clients.push(top).drop_last() == clients);
}

impl DisplayReplies {
    /// Whether the listed windows are few enough for each to have a `z`, as
    /// [`enumerate`] and [`ImplWindow::all`] require.
    pub fn countable(&self) -> (ok: bool)
        ensures
            ok == (candidates(self.screens@).len() <= i32::MAX),
    {
        let limit: usize = i32::MAX as usize;
        let mut count: usize = 0;
        let mut s: usize = 0;
        while s < self.screens.len()
            invariant
                s <= self.screens.len(),
                limit == i32::MAX,
                count <= limit,
                count == candidates(self.screens@.take(s as int)).len(),
            decreases self.screens.len() - s,
        {
            let screen = &self.screens[s];
            proof {
                candidates_step(self.screens@, s as int);
            }
            if let (Some(true), Some(clients)) = (screen.same_screen, &screen.clients) {
                if clients.len() > limit - count {
                    return false;
                }
                count = count + clients.len();
            }
            s = s + 1;
        }
        assert(self.screens@.take(s as int) == self.screens@);
        true
    }
}

/// The elements of `items` in the opposite order.
fn reversed(items: Vec<ImplWindow>) -> (r: Vec<ImplWindow>)
    ensures
        r@ == items@.reverse(),
{
    let mut rest = items;
    let mut r: Vec<ImplWindow> = Vec::new();
    while rest.len() > 0
        invariant
            rest@.len() + r@.len() == items@.len(),
            forall|k: int| 0 <= k < rest@.len() ==> rest@[k] == items@[k],
            forall|k: int| 0 <= k < r@.len() ==> r@[k] == items@[items@.len() - 1 - k],
        decreases rest@.len(),
    {
        match rest.pop() {
            Some(item) => r.push(item),
            None => {},
        }
    }
    assert(r@ =~= items@.reverse());
    r
}

/// Enumerates the windows of a display from the replies of one pass over
/// it. A listed window that cannot be described is left out of the windows
/// and reported with the reason. It keeps its place in the count, so that
/// the `z` of a window does not depend on what became of the others. The
/// enumeration as a whole fails only where the name of the stacking list
/// could not be resolved.
///
/// The listed windows must be few enough for each to have a `z`, which
/// [`DisplayReplies::countable`] tells.
pub fn enumerate(display: &DisplayReplies, impl_monitors: &Vec<ImplMonitor>) -> (r: Result<
    Enumeration,
    WindowError,
>)
    requires
        candidates(display.screens@).len() <= i32::MAX,
    ensures
        match r {
            Ok(found) => {
                &&& spec_all(*display, impl_monitors@) == Ok::<Seq<WindowView>, WindowError>(
                    views(found.windows@),
                )
                &&& found.skipped@ == spec_skipped(*display, impl_monitors@)
                &&& forall|i: int|
                    0 <= i < found.windows@.len() ==> !(#[trigger] found.windows@[i].is_minimized
                        && found.windows@[i].is_maximized)
            },
            Err(e) => spec_all(*display, impl_monitors@) == Err::<Seq<WindowView>, WindowError>(e),
        },
{
    if let Err(e) = get_atom(AtomName::NetClientListStacking, display.client_list_atom) {
        return Err(e);
    }
    let active = get_active_window_id(display.active_window_atom, &display.screens);
    let mut impl_windows: Vec<ImplWindow> = Vec::new();
    let mut left_out: Vec<Skipped> = Vec::new();
    let mut z: i32 = -1;
    let mut s: usize = 0;
    while s < display.screens.len()
        invariant
            s <= display.screens.len(),
            candidates(display.screens@).len() <= i32::MAX,
            z + 1 == candidates(display.screens@.take(s as int)).len(),
            views(impl_windows@) == stacked(
                candidates(display.screens@.take(s as int)),
                active,
                impl_monitors@,
            ),
            left_out@ == skipped(
                candidates(display.screens@.take(s as int)),
                active,
                impl_monitors@,
            ),
        decreases display.screens.len() - s,
    {
        let screen = &display.screens[s];
        let ghost below = candidates(display.screens@.take(s as int));
        proof {
            candidates_step(display.screens@, s as int);
        }
        if let (Some(true), Some(clients)) = (screen.same_screen, &screen.clients) {
            let mut c: usize = 0;
            while c < clients.len()
                invariant
                    c <= clients.len(),
                    below.len() + clients.len() <= i32::MAX,
                    z + 1 == below.len() + c,
                    views(impl_windows@) == stacked(
                        below + clients@.take(c as int),
                        active,
                        impl_monitors@,
                    ),
                    left_out@ == skipped(below + clients@.take(c as int), active, impl_monitors@),
                decreases clients.len() - c,
            {
                z = z + 1;
                proof {
                    stacked_step(
                        below + clients@.take(c as int),
                        clients@[c as int],
                        active,
                        impl_monitors@,
                    );
                    assert((below + clients@.take(c as int)).push(clients@[c as int]) == below
                        + clients@.take(c + 1));
                }
                let ghost before = impl_windows@;
                match clients[c].resolve(z, active, impl_monitors) {
                    Ok(window) => {
                        impl_windows.push(window);
                        assert(views(impl_windows@) == views(before).push(window@));
                    },
                    Err(error) => {
                        left_out.push(Skipped { id: clients[c].id, z, error });
                    },
                }
                c = c + 1;
            }
            assert(clients@.take(c as int) == clients@);
        } else {
            assert(below + screen_clients(*screen) == below);
        }
        s = s + 1;
    }
    assert(display.screens@.take(s as int) == display.screens@);
    let ghost bottom_up = impl_windows@;
    let top_down = reversed(impl_windows);
    assert(views(top_down@) == views(bottom_up).reverse());
    assert forall|i: int| 0 <= i < top_down@.len() implies !(#[trigger] top_down@[i].is_minimized
        && top_down@[i].is_maximized) by {
        assert(views(top_down@)[i] == top_down@[i]@);
        enumerated_window_is_not_both(*display, impl_monitors@, i);
    }
    Ok(Enumeration { windows: top_down, skipped: left_out })
}

impl ImplWindow {
    /// Enumerates the windows of a display from the replies of one pass over
    /// it, topmost first: the windows that [`enumerate`] finds.
    pub fn all(display: &DisplayReplies, impl_monitors: &Vec<ImplMonitor>) -> (r: Result<
        Vec<ImplWindow>,
        WindowError,
    >)
        requires
            candidates(display.screens@).len() <= i32::MAX,
        ensures
            match r {
                Ok(windows) => spec_all(*display, impl_monitors@) == Ok::<
                    Seq<WindowView>,
                    WindowError,
                >(views(windows@)),
                Err(e) => spec_all(*display, impl_monitors@) == Err::<Seq<WindowView>, WindowError>(
                    e,
                ),
            },
            r matches Ok(windows) ==> forall|i: int|
                0 <= i < windows@.len() ==> !(#[trigger] windows@[i].is_minimized
                    && windows@[i].is_maximized),
    {
        match enumerate(display, impl_monitors) {
            Ok(found) => Ok(found.windows),
            Err(e) => Err(e),
        }
    }
}

/// Whether the listed window at `place` has a description.
pub open spec fn resolves(
    clients: Seq<ClientReplies>,
    place: int,
    active: Option<u32>,
    monitors: Seq<ImplMonitor>,
) -> bool {
    spec_resolve(clients[place], place, active, monitors) is Ok
}

/// Each description in a stack is that of the listed window at the place
/// that its `z` names, and the places rise along the stack.
pub proof fn stacked_places(
    clients: Seq<ClientReplies>,
    active: Option<u32>,
    monitors: Seq<ImplMonitor>,
    k: int,
)
    requires
        clients.len() <= i32::MAX,
        0 <= k < stacked(clients, active, monitors).len(),
    ensures
        0 <= stacked(clients, active, monitors)[k].z < clients.len(),
        spec_resolve(
            clients[stacked(clients, active, monitors)[k].z as int],
            stacked(clients, active, monitors)[k].z as int,
            active,
            monitors,
        ) == Ok::<WindowView, WindowError>(stacked(clients, active, monitors)[k]),
        k > 0 ==> stacked(clients, active, monitors)[k - 1].z < stacked(
            clients,
            active,
            monitors,
        )[k].z,
    decreases clients.len(),
{
    let front = clients.drop_last();
    let below = stacked(front, active, monitors);
    if k < below.len() {
        stacked_places(front, active, monitors, k);
    } else if k > 0 {
        stacked_places(front, active, monitors, k - 1);
    }
}

/// Of two descriptions in a stack the later one has the greater `z`.
pub proof fn stacked_ascends(
    clients: Seq<ClientReplies>,
    active: Option<u32>,
    monitors: Seq<ImplMonitor>,
    i: int,
    j: int,
)
    requires
        clients.len() <= i32::MAX,
        0 <= i < j < stacked(clients, active, monitors).len(),
    ensures
        stacked(clients, active, monitors)[i].z < stacked(clients, active, monitors)[j].z,
    decreases j - i,
{
    stacked_places(clients, active, monitors, j);
    if i < j - 1 {
        stacked_ascends(clients, active, monitors, i, j - 1);
    }
}

/// Every listed window that has a description is in the stack.
pub proof fn stacked_holds(
    clients: Seq<ClientReplies>,
    active: Option<u32>,
    monitors: Seq<ImplMonitor>,
    place: int,
) -> (k: int)
    requires
        0 <= place < clients.len(),
        resolves(clients, place, active, monitors),
    ensures
        0 <= k < stacked(clients, active, monitors).len(),
        stacked(clients, active, monitors)[k] == spec_resolve(
            clients[place],
            place,
            active,
            monitors,
        ).unwrap(),
    decreases clients.len(),
{
    let front = clients.drop_last();
    let below = stacked(front, active, monitors);
    if place == clients.len() - 1 {
        below.len() as int
    } else {
        stacked_holds(front, active, monitors, place)
    }
}

/// Every listed window is either described or skipped.
pub proof fn listed_windows_are_accounted_for(
    clients: Seq<ClientReplies>,
    active: Option<u32>,
    monitors: Seq<ImplMonitor>,
)
    ensures
        stacked(clients, active, monitors).len() + skipped(clients, active, monitors).len()
            == clients.len(),
    decreases clients.len(),
{
    if clients.len() > 0 {
        listed_windows_are_accounted_for(clients.drop_last(), active, monitors);
    }
}

/// Filtering a sequence and reversing it can be done in either order.
proof fn filter_reverse<A>(items: Seq<A>, keep: spec_fn(A) -> bool)
    ensures
        items.reverse().filter(keep) == items.filter(keep).reverse(),
    decreases items.len(),
{
    reveal(Seq::filter);
    if items.len() > 0 {
        let front = items.drop_last();
        let last = items.last();
        filter_reverse(front, keep);
        assert(items.reverse() == seq![last] + front.reverse());
        front.reverse().lemma_filter_prepend(last, keep);
        if keep(last) {
            assert(front.filter(keep).push(last).reverse() == seq![last] + front.filter(
                keep,
            ).reverse());
        } else {
            assert(Seq::<A>::empty() + front.filter(keep).reverse() == front.filter(
                keep,
            ).reverse());
        }
    }
}

/// Two stacks over listed windows that differ at one place only, where the
/// second has no process id to read, differ by the description of that
/// window only.
proof fn stacked_without(
    clients: Seq<ClientReplies>,
    others: Seq<ClientReplies>,
    active: Option<u32>,
    monitors: Seq<ImplMonitor>,
    place: int,
    n: int,
)
    requires
        clients.len() == others.len(),
        clients.len() <= i32::MAX,
        0 <= place < clients.len(),
        0 <= n <= clients.len(),
        forall|i: int| 0 <= i < clients.len() && i != place ==> others[i] == clients[i],
        spec_get_window_pid(others[place].pid) is Err,
    ensures
        stacked(others.take(n), active, monitors) == stacked(
            clients.take(n),
            active,
            monitors,
        ).filter(|window: WindowView| window.z != place),
    decreases n,
{
    let keep = |window: WindowView| window.z != place;
    reveal(Seq::filter);
    if n > 0 {
        stacked_without(clients, others, active, monitors, place, n - 1);
        assert(clients.take(n) == clients.take(n - 1).push(clients[n - 1]));
        assert(others.take(n) == others.take(n - 1).push(others[n - 1]));
        stacked_step(clients.take(n - 1), clients[n - 1], active, monitors);
        stacked_step(others.take(n - 1), others[n - 1], active, monitors);
        let below = stacked(clients.take(n - 1), active, monitors);
        match spec_resolve(clients[n - 1], n - 1, active, monitors) {
            Ok(window) => {
                below.lemma_filter_push(window, keep);
            },
            Err(_) => {},
        }
    } else {
        assert(clients.take(0).len() == 0);
        assert(others.take(0).len() == 0);
    }
}

/// Every window of an enumeration is the description of the listed window
/// at the place that its `z` names.
pub proof fn window_describes_its_candidate(
    display: DisplayReplies,
    monitors: Seq<ImplMonitor>,
    i: int,
)
    requires
        candidates(display.screens@).len() <= i32::MAX,
        spec_all(display, monitors) is Ok,
        0 <= i < spec_all(display, monitors).unwrap().len(),
    ensures
        ({
            let window = spec_all(display, monitors).unwrap()[i];
            let clients = candidates(display.screens@);
            let active = spec_get_active_window_id(display.active_window_atom, display.screens@);
            &&& 0 <= window.z < clients.len()
            &&& spec_resolve(clients[window.z as int], window.z as int, active, monitors) == Ok::<
                WindowView,
                WindowError,
            >(window)
        }),
{
    let clients = candidates(display.screens@);
    let active = spec_get_active_window_id(display.active_window_atom, display.screens@);
    let stack = stacked(clients, active, monitors);
    stacked_places(clients, active, monitors, stack.len() - 1 - i);
}

/// An enumeration runs from the top of the stacking order to its bottom:
/// each window has a greater `z` than every window after it, so that no two
/// share one.
pub proof fn enumeration_descends(
    display: DisplayReplies,
    monitors: Seq<ImplMonitor>,
    i: int,
    j: int,
)
    requires
        candidates(display.screens@).len() <= i32::MAX,
        spec_all(display, monitors) is Ok,
        0 <= i < j < spec_all(display, monitors).unwrap().len(),
    ensures
        spec_all(display, monitors).unwrap()[i].z > spec_all(display, monitors).unwrap()[j].z,
{
    let clients = candidates(display.screens@);
    let active = spec_get_active_window_id(display.active_window_atom, display.screens@);
    let stack = stacked(clients, active, monitors);
    stacked_ascends(clients, active, monitors, stack.len() - 1 - j, stack.len() - 1 - i);
}

/// Where no listed window without a description lies between two that have
/// one, the `z` of the enumerated windows falls by one from each window to
/// the next: together they are a range of integers without a gap.
pub proof fn enumeration_without_gaps(
    display: DisplayReplies,
    monitors: Seq<ImplMonitor>,
    i: int,
)
    requires
        candidates(display.screens@).len() <= i32::MAX,
        spec_all(display, monitors) is Ok,
        0 <= i,
        i + 1 < spec_all(display, monitors).unwrap().len(),
        ({
            let clients = candidates(display.screens@);
            let active = spec_get_active_window_id(display.active_window_atom, display.screens@);
            forall|a: int, b: int, c: int|
                0 <= a < b < c < clients.len() && #[trigger] resolves(clients, a, active, monitors)
                    && #[trigger] resolves(clients, c, active, monitors) ==> #[trigger] resolves(
                    clients,
                    b,
                    active,
                    monitors,
                )
        }),
    ensures
        spec_all(display, monitors).unwrap()[i].z == spec_all(display, monitors).unwrap()[i + 1].z
            + 1,
{
    let clients = candidates(display.screens@);
    let active = spec_get_active_window_id(display.active_window_atom, display.screens@);
    let stack = stacked(clients, active, monitors);
    let upper = stack.len() - 1 - i;
    let lower = upper - 1;
    stacked_places(clients, active, monitors, upper);
    stacked_places(clients, active, monitors, lower);
    let high = stack[upper].z as int;
    let low = stack[lower].z as int;
    if low + 1 < high {
        let between = low + 1;
        assert(resolves(clients, low, active, monitors));
        assert(resolves(clients, high, active, monitors));
        assert(resolves(clients, between, active, monitors));
        let k = stacked_holds(clients, active, monitors, between);
        assert(stack[k].z == between);
        if k < lower {
            stacked_ascends(clients, active, monitors, k, lower);
        } else if k > upper {
            stacked_ascends(clients, active, monitors, upper, k);
        }
    }
}

/// A listed window whose title is not well-formed text is not in the
/// enumeration: no enumerated window has its place.
pub proof fn undecodable_title_is_absent(
    display: DisplayReplies,
    monitors: Seq<ImplMonitor>,
    place: int,
    i: int,
)
    requires
        candidates(display.screens@).len() <= i32::MAX,
        spec_all(display, monitors) is Ok,
        0 <= place < candidates(display.screens@).len(),
        candidates(display.screens@)[place].window.title matches Some(bytes) && !valid_utf8(
            bytes@,
        ),
        0 <= i < spec_all(display, monitors).unwrap().len(),
    ensures
        spec_all(display, monitors).unwrap()[i].z != place,
{
    window_describes_its_candidate(display, monitors, i);
}

/// Every listed window that has a description is in the enumeration.
pub proof fn described_window_is_present(
    display: DisplayReplies,
    monitors: Seq<ImplMonitor>,
    place: int,
) -> (i: int)
    requires
        spec_all(display, monitors) is Ok,
        0 <= place < candidates(display.screens@).len(),
        resolves(
            candidates(display.screens@),
            place,
            spec_get_active_window_id(display.active_window_atom, display.screens@),
            monitors,
        ),
    ensures
        0 <= i < spec_all(display, monitors).unwrap().len(),
        spec_all(display, monitors).unwrap()[i] == spec_resolve(
            candidates(display.screens@)[place],
            place,
            spec_get_active_window_id(display.active_window_atom, display.screens@),
            monitors,
        ).unwrap(),
{
    let clients = candidates(display.screens@);
    let active = spec_get_active_window_id(display.active_window_atom, display.screens@);
    let k = stacked_holds(clients, active, monitors, place);
    stacked(clients, active, monitors).len() - 1 - k
}

/// No enumerated window is both minimized and maximized.
pub proof fn enumerated_window_is_not_both(
    display: DisplayReplies,
    monitors: Seq<ImplMonitor>,
    i: int,
)
    requires
        candidates(display.screens@).len() <= i32::MAX,
        spec_all(display, monitors) is Ok,
        0 <= i < spec_all(display, monitors).unwrap().len(),
    ensures
        !(spec_all(display, monitors).unwrap()[i].is_minimized && spec_all(
            display,
            monitors,
        ).unwrap()[i].is_maximized),
{
    window_describes_its_candidate(display, monitors, i);
}

/// The monitor of an enumerated window is one of those supplied. No other
/// shares more area with the window, and of those that share as much it is
/// the first.
pub proof fn enumerated_window_monitor_overlaps_most(
    display: DisplayReplies,
    monitors: Seq<ImplMonitor>,
    i: int,
    other: int,
)
    requires
        candidates(display.screens@).len() <= i32::MAX,
        spec_all(display, monitors) is Ok,
        0 <= i < spec_all(display, monitors).unwrap().len(),
        0 <= other < monitors.len(),
    ensures
        ({
            let window = spec_all(display, monitors).unwrap()[i];
            let owner = owner_index(window.rect(), monitors);
            &&& 0 <= owner < monitors.len()
            &&& window.current_monitor == monitors[owner]
            &&& window.rect().spec_overlap_area(monitors[other].spec_rect())
                <= window.rect().spec_overlap_area(window.current_monitor.spec_rect())
            &&& window.rect().spec_overlap_area(monitors[other].spec_rect())
                == window.rect().spec_overlap_area(window.current_monitor.spec_rect()) ==> owner
                <= other
        }),
{
    window_describes_its_candidate(display, monitors, i);
    let window = spec_all(display, monitors).unwrap()[i];
    let clients = candidates(display.screens@);
    let active = spec_get_active_window_id(display.active_window_atom, display.screens@);
    let client = clients[window.z as int];
    current_monitor_overlaps_most(
        client.window,
        client.id,
        spec_get_window_pid(client.pid).unwrap(),
        window.z,
        active == Some(client.id),
        monitors,
        other,
    );
}

/// A listed window whose process id cannot be read takes nothing but its
/// own description out of the enumeration: every other window stays, with
/// its `z` and all else that is said of it, and in its order.
pub proof fn unreadable_pid_hides_one_window(
    display: DisplayReplies,
    other: DisplayReplies,
    monitors: Seq<ImplMonitor>,
    place: int,
)
    requires
        candidates(display.screens@).len() <= i32::MAX,
        spec_all(display, monitors) is Ok,
        other.client_list_atom == display.client_list_atom,
        spec_get_active_window_id(other.active_window_atom, other.screens@)
            == spec_get_active_window_id(display.active_window_atom, display.screens@),
        candidates(other.screens@).len() == candidates(display.screens@).len(),
        0 <= place < candidates(display.screens@).len(),
        forall|i: int|
            0 <= i < candidates(display.screens@).len() && i != place ==> candidates(
                other.screens@,
            )[i] == candidates(display.screens@)[i],
        spec_get_window_pid(candidates(other.screens@)[place].pid) is Err,
    ensures
        spec_all(other, monitors) == Ok::<Seq<WindowView>, WindowError>(
            spec_all(display, monitors).unwrap().filter(|window: WindowView| window.z != place),
        ),
{
    let clients = candidates(display.screens@);
    let others = candidates(other.screens@);
    let active = spec_get_active_window_id(display.active_window_atom, display.screens@);
    let keep = |window: WindowView| window.z != place;
    stacked_without(clients, others, active, monitors, place, clients.len() as int);
    assert(clients.take(clients.len() as int) == clients);
    assert(others.take(others.len() as int) == others);
    filter_reverse(stacked(clients, active, monitors), keep);
}

} // verus!

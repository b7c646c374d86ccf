//! The description of one window, composed from the replies of the window
//! system to the requests about it.

use vstd::prelude::*;
use crate::atom::{get_atom, spec_get_atom, Atom, AtomName};
use crate::error::WindowError;
use crate::monitor::{
    assign, assigned_monitor_overlaps_most, owner_index, spec_assign, ImplMonitor,
};
use crate::rect::Rect;
use crate::state::{spec_window_state, window_state, StateAtoms, WindowState};
use crate::text::{app_name, decode_text, spec_app_name, spec_decode_text};

verus! {

/// The reply to a request for a window's geometry: its root, its position
/// relative to its parent, and its extent.
#[derive(Debug, Clone, Copy, PartialEq, Eq, Structural)]
pub struct GeometryReply {
    /// The handle of the window's root.
    pub root: u32,
    pub x: i16,
    pub y: i16,
    pub width: u16,
    pub height: u16,
}

/// A request to translate a position in the coordinates of one window into
/// those of another.
#[derive(Debug, Clone, Copy, PartialEq, Eq, Structural)]
pub struct TranslateRequest {
    pub src_window: u32,
    pub dst_window: u32,
    pub src_x: i16,
    pub src_y: i16,
}

/// The reply to a [`TranslateRequest`]: the position in the coordinates of
/// the destination.
#[derive(Debug, Clone, Copy, PartialEq, Eq, Structural)]
pub struct TranslateReply {
    pub dst_x: i16,
    pub dst_y: i16,
}

/// What the window system answered to the requests about one window. `None`
/// stands for a round trip that failed or could not be made.
#[derive(Debug, Clone, PartialEq, Eq)]
pub struct WindowReplies {
    /// The bytes of the window's name.
    pub title: Option<Vec<u8>>,
    /// The bytes of the window's class.
    pub class: Option<Vec<u8>>,
    pub geometry: Option<GeometryReply>,
    pub translated: Option<TranslateReply>,
    /// The identifier of the property that holds the window's states.
    pub state_atom: Option<Atom>,
    /// The identifier of the hidden state.
    pub hidden_atom: Option<Atom>,
    /// The identifier of the vertically maximized state.
    pub maximized_vert_atom: Option<Atom>,
    /// The identifier of the horizontally maximized state.
    pub maximized_horz_atom: Option<Atom>,
    /// The states listed for the window.
    pub states: Option<Vec<Atom>>,
}

/// The description of a window.
#[derive(Debug, Clone, PartialEq, Eq)]
pub struct ImplWindow {
    /// The handle that the window system gave the window.
    pub id: u32,
    pub title: String,
    pub app_name: String,
    /// The process that owns the window.
    pub pid: u32,
    /// The monitor that the window belongs to.
    pub current_monitor: ImplMonitor,
    /// The position of the window in the coordinates of its root.
    pub x: i32,
    pub y: i32,
    /// The place of the window in the stacking order, counted from the bottom.
    pub z: i32,
    pub width: u32,
    pub height: u32,
    pub is_minimized: bool,
    pub is_maximized: bool,
    pub is_focused: bool,
}

/// A window's description as a mathematical value.
pub struct WindowView {
    pub id: u32,
    pub title: Seq<char>,
    pub app_name: Seq<char>,
    pub pid: u32,
    pub current_monitor: ImplMonitor,
    pub x: i32,
    pub y: i32,
    pub z: i32,
    pub width: u32,
    pub height: u32,
    pub is_minimized: bool,
    pub is_maximized: bool,
    pub is_focused: bool,
}

impl WindowView {
    /// The rectangle that the window covers.
    pub open spec fn rect(self) -> Rect {
        Rect { x: self.x, y: self.y, width: self.width, height: self.height }
    }
}

impl View for ImplWindow {
    type V = WindowView;

    open spec fn view(&self) -> WindowView {
        WindowView {
            id: self.id,
            title: self.title@,
            app_name: self.app_name@,
            pid: self.pid,
            current_monitor: self.current_monitor,
            x: self.x,
            y: self.y,
            z: self.z,
            width: self.width,
            height: self.height,
            is_minimized: self.is_minimized,
            is_maximized: self.is_maximized,
            is_focused: self.is_focused,
        }
    }
}

/// Describes the translation to ask for once the geometry of `window` is
/// known: of the position that the geometry reported, taken as a position
/// inside the window itself, into the coordinates of the window's root.
pub fn translate_request(window: u32, geometry: GeometryReply) -> (request: TranslateRequest)
    ensures
        request == (TranslateRequest {
            src_window: window,
            dst_window: geometry.root,
            src_x: geometry.x,
            src_y: geometry.y,
        }),
{
    TranslateRequest {
        src_window: window,
        dst_window: geometry.root,
        src_x: geometry.x,
        src_y: geometry.y,
    }
}

/// The rectangle of a window in the coordinates of its root. The translated
/// position is that of a point inside the window, as far from the window's
/// origin as the geometry reported the window to be from its parent's; the
/// reported position is taken off again, which leaves the origin.
pub open spec fn spec_window_rect(geometry: GeometryReply, translated: TranslateReply) -> Rect {
    Rect {
        x: (translated.dst_x - geometry.x) as i32,
        y: (translated.dst_y - geometry.y) as i32,
        width: geometry.width as u32,
        height: geometry.height as u32,
    }
}

/// Composes the rectangle of a window from the two replies on its geometry.
pub fn window_rect(geometry: GeometryReply, translated: TranslateReply) -> (rect: Rect)
    ensures
        rect == spec_window_rect(geometry, translated),
        rect.x == translated.dst_x - geometry.x,
        rect.y == translated.dst_y - geometry.y,
{
    Rect::new(
        translated.dst_x as i32 - geometry.x as i32,
        translated.dst_y as i32 - geometry.y as i32,
        geometry.width as u32,
        geometry.height as u32,
    )
}

impl WindowReplies {
    /// The window's title, where its name was read and is well-formed text.
    pub open spec fn spec_title(self) -> Result<Seq<char>, WindowError> {
        match self.title {
            None => Err(WindowError::ConnectionError),
            Some(bytes) => spec_decode_text(bytes@),
        }
    }

    /// The window's application name, where its class was read and is
    /// well-formed text.
    pub open spec fn spec_app_name(self) -> Result<Seq<char>, WindowError> {
        match self.class {
            None => Err(WindowError::ConnectionError),
            Some(bytes) => match spec_decode_text(bytes@) {
                Ok(class) => Ok(spec_app_name(class)),
                Err(e) => Err(e),
            },
        }
    }

    /// The window's rectangle, where both replies on its geometry came.
    pub open spec fn spec_rect(self) -> Result<Rect, WindowError> {
        match (self.geometry, self.translated) {
            (Some(geometry), Some(translated)) => Ok(spec_window_rect(geometry, translated)),
            _ => Err(WindowError::ConnectionError),
        }
    }

    /// The identifiers of the states that the flags depend on, where the
    /// window manager knows the property that holds a window's states and
    /// each of the three states. The first lookup that fails, in this order,
    /// gives the error.
    pub open spec fn spec_state_atoms(self) -> Result<StateAtoms, WindowError> {
        match spec_get_atom(AtomName::NetWmState, self.state_atom) {
            Err(e) => Err(e),
            Ok(_) => match spec_get_atom(AtomName::NetWmStateHidden, self.hidden_atom) {
                Err(e) => Err(e),
                Ok(hidden) => match spec_get_atom(
                    AtomName::NetWmStateMaximizedVert,
                    self.maximized_vert_atom,
                ) {
                    Err(e) => Err(e),
                    Ok(maximized_vert) => match spec_get_atom(
                        AtomName::NetWmStateMaximizedHorz,
                        self.maximized_horz_atom,
                    ) {
                        Err(e) => Err(e),
                        Ok(maximized_horz) => Ok(
                            StateAtoms { hidden, maximized_vert, maximized_horz },
                        ),
                    },
                },
            },
        }
    }

    /// The window's flags, where the state identifiers resolved and the
    /// window's states were read.
    pub open spec fn spec_state(self) -> Result<WindowState, WindowError> {
        match self.spec_state_atoms() {
            Err(e) => Err(e),
            Ok(atoms) => match self.states {
                None => Err(WindowError::ConnectionError),
                Some(states) => Ok(spec_window_state(states@, atoms)),
            },
        }
    }

    /// Reads the window's title.
    pub fn title(&self) -> (r: Result<String, WindowError>)
        ensures
            match r {
                Ok(title) => self.spec_title() == Ok::<Seq<char>, WindowError>(title@),
                Err(e) => self.spec_title() == Err::<Seq<char>, WindowError>(e),
            },
    {
        match &self.title {
            None => Err(WindowError::ConnectionError),
            Some(bytes) => decode_text(bytes.as_slice()),
        }
    }

    /// Reads the window's application name.
    pub fn app_name(&self) -> (r: Result<String, WindowError>)
        ensures
            match r {
                Ok(name) => self.spec_app_name() == Ok::<Seq<char>, WindowError>(name@),
                Err(e) => self.spec_app_name() == Err::<Seq<char>, WindowError>(e),
            },
    {
        match &self.class {
            None => Err(WindowError::ConnectionError),
            Some(bytes) => match decode_text(bytes.as_slice()) {
                Ok(class) => Ok(app_name(class.as_str())),
                Err(e) => Err(e),
            },
        }
    }

    /// Reads the window's rectangle.
    pub fn rect(&self) -> (r: Result<Rect, WindowError>)
        ensures
            r == self.spec_rect(),
    {
        match (self.geometry, self.translated) {
            (Some(geometry), Some(translated)) => Ok(window_rect(geometry, translated)),
            _ => Err(WindowError::ConnectionError),
        }
    }

    /// Resolves the identifiers of the states that the flags depend on.
    pub fn state_atoms(&self) -> (r: Result<StateAtoms, WindowError>)
        ensures
            r == self.spec_state_atoms(),
    {
        match get_atom(AtomName::NetWmState, self.state_atom) {
            Err(e) => Err(e),
            Ok(_) => match get_atom(AtomName::NetWmStateHidden, self.hidden_atom) {
                Err(e) => Err(e),
                Ok(hidden) => match get_atom(
                    AtomName::NetWmStateMaximizedVert,
                    self.maximized_vert_atom,
                ) {
                    Err(e) => Err(e),
                    Ok(maximized_vert) => match get_atom(
                        AtomName::NetWmStateMaximizedHorz,
                        self.maximized_horz_atom,
                    ) {
                        Err(e) => Err(e),
                        Ok(maximized_horz) => Ok(
                            StateAtoms { hidden, maximized_vert, maximized_horz },
                        ),
                    },
                },
            },
        }
    }

    /// Reads the window's flags.
    pub fn state(&self) -> (r: Result<WindowState, WindowError>)
        ensures
            r == self.spec_state(),
    {
        match self.state_atoms() {
            Err(e) => Err(e),
            Ok(atoms) => match &self.states {
                None => Err(WindowError::ConnectionError),
                Some(states) => Ok(window_state(states.as_slice(), atoms)),
            },
        }
    }
}

/// The description of the window `id` that the replies amount to, or the
/// error of the first step that fails: title, application name, rectangle,
/// monitor, flags.
pub open spec fn spec_new(
    replies: WindowReplies,
    id: u32,
    pid: u32,
    z: i32,
    is_focused: bool,
    monitors: Seq<ImplMonitor>,
) -> Result<WindowView, WindowError> {
    match replies.spec_title() {
        Err(e) => Err(e),
        Ok(title) => match replies.spec_app_name() {
            Err(e) => Err(e),
            Ok(app_name) => match replies.spec_rect() {
                Err(e) => Err(e),
                Ok(rect) => match spec_assign(rect, monitors) {
                    Err(e) => Err(e),
                    Ok(current_monitor) => match replies.spec_state() {
                        Err(e) => Err(e),
                        Ok(state) => Ok(
                            WindowView {
                                id,
                                title,
                                app_name,
                                pid,
                                current_monitor,
                                x: rect.x,
                                y: rect.y,
                                z,
                                width: rect.width,
                                height: rect.height,
                                is_minimized: state.is_minimized,
                                is_maximized: state.is_maximized,
                                is_focused,
                            },
                        ),
                    },
                },
            },
        },
    }
}

impl ImplWindow {
    /// Describes the window `id` from the replies to the requests about it.
    /// Any step that fails makes the whole description fail, with the error
    /// of the first such step.
    pub fn new(
        replies: &WindowReplies,
        id: u32,
        pid: u32,
        z: i32,
        is_focused: bool,
        impl_monitors: &Vec<ImplMonitor>,
    ) -> (r: Result<ImplWindow, WindowError>)
        ensures
            match r {
                Ok(window) => spec_new(*replies, id, pid, z, is_focused, impl_monitors@) == Ok::<
                    WindowView,
                    WindowError,
                >(window@),
                Err(e) => spec_new(*replies, id, pid, z, is_focused, impl_monitors@) == Err::<
                    WindowView,
                    WindowError,
                >(e),
            },
            r matches Ok(window) ==> !(window.is_minimized && window.is_maximized),
    {
        let title = match replies.title() {
            Ok(title) => title,
            Err(e) => return Err(e),
        };
        let app_name = match replies.app_name() {
            Ok(app_name) => app_name,
            Err(e) => return Err(e),
        };
        let rect = match replies.rect() {
            Ok(rect) => rect,
            Err(e) => return Err(e),
        };
        let current_monitor = match assign(rect, impl_monitors) {
            Ok(current_monitor) => current_monitor,
            Err(e) => return Err(e),
        };
        let state = match replies.state() {
            Ok(state) => state,
            Err(e) => return Err(e),
        };
        Ok(
            ImplWindow {
                id,
                title,
                app_name,
                pid,
                current_monitor,
                x: rect.x,
                y: rect.y,
                z,
                width: rect.width,
                height: rect.height,
                is_minimized: state.is_minimized,
                is_maximized: state.is_maximized,
                is_focused,
            },
        )
    }
}

/// Where the window system translates as asked, adding the window's origin
/// in the coordinates of its root to the position to translate, the
/// rectangle of the window lies at that origin.
pub proof fn window_rect_lies_at_origin(
    geometry: GeometryReply,
    translated: TranslateReply,
    origin_x: int,
    origin_y: int,
)
    requires
        translated.dst_x == origin_x + geometry.x,
        translated.dst_y == origin_y + geometry.y,
    ensures
        spec_window_rect(geometry, translated).x == origin_x,
        spec_window_rect(geometry, translated).y == origin_y,
        spec_window_rect(geometry, translated).width == geometry.width,
        spec_window_rect(geometry, translated).height == geometry.height,
{
}

/// No description is both minimized and maximized.
pub proof fn minimized_window_is_not_maximized(
    replies: WindowReplies,
    id: u32,
    pid: u32,
    z: i32,
    is_focused: bool,
    monitors: Seq<ImplMonitor>,
)
    requires
        spec_new(replies, id, pid, z, is_focused, monitors) is Ok,
    ensures
        ({
            let window = spec_new(replies, id, pid, z, is_focused, monitors).unwrap();
            !(window.is_minimized && window.is_maximized)
        }),
{
}

/// The monitor of a description is one of those supplied. No other shares
/// more area with the window, and of those that share as much it is the
/// first.
pub proof fn current_monitor_overlaps_most(
    replies: WindowReplies,
    id: u32,
    pid: u32,
    z: i32,
    is_focused: bool,
    monitors: Seq<ImplMonitor>,
    other: int,
)
    requires
        spec_new(replies, id, pid, z, is_focused, monitors) is Ok,
        0 <= other < monitors.len(),
    ensures
        ({
            let window = spec_new(replies, id, pid, z, is_focused, monitors).unwrap();
            let owner = owner_index(window.rect(), monitors);
            &&& 0 <= owner < monitors.len()
            &&& window.current_monitor == monitors[owner]
            &&& window.rect().spec_overlap_area(monitors[other].spec_rect())
                <= window.rect().spec_overlap_area(window.current_monitor.spec_rect())
            &&& window.rect().spec_overlap_area(monitors[other].spec_rect())
                == window.rect().spec_overlap_area(window.current_monitor.spec_rect()) ==> owner
                <= other
        }),
{
    let window = spec_new(replies, id, pid, z, is_focused, monitors).unwrap();
    assert(window.rect() == replies.spec_rect().unwrap());
    assigned_monitor_overlaps_most(window.rect(), monitors, other);
}

} // verus!

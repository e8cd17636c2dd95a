use vstd::prelude::*;

use std::collections::HashMap;
use std::marker::PhantomData;

verus! {

/// Failures that can occur when the game-controller input system starts.
#[derive(Debug)]
pub enum GilrsSystemError {
    /// The input context could not be initialized.
    ContextInit(String),
    /// The controller subsystem could not be initialized.
    ControllerSubsystemInit(String),
}

/// The fixed text that opens the description of an error.
pub open spec fn error_prefix(e: GilrsSystemError) -> Seq<char> {
    match e {
        GilrsSystemError::ContextInit(_) => "Failed to initialize SDL: "@,
        GilrsSystemError::ControllerSubsystemInit(_) => "Failed to initialize SDL controller subsystem: "@,
    }
}

/// The detail that an error carries.
pub open spec fn error_detail(e: GilrsSystemError) -> Seq<char> {
    match e {
        GilrsSystemError::ContextInit(m) => m@,
        GilrsSystemError::ControllerSubsystemInit(m) => m@,
    }
}

impl GilrsSystemError {
    /// A readable description: a fixed prefix for the kind, then the detail.
    pub fn message(&self) -> (r: String)
        ensures
            r@ == error_prefix(*self) + error_detail(*self),
    {
        let (prefix, detail) = match self {
            GilrsSystemError::ContextInit(m) => ("Failed to initialize SDL: ", m.as_str()),
            GilrsSystemError::ControllerSubsystemInit(m) => (
                "Failed to initialize SDL controller subsystem: ",
                m.as_str(),
            ),
        };
        let mut r = String::from_str(prefix);
        r.append(detail);
        r
    }
}

/// Builds the game-controller input system; carries only the binding types.
#[derive(Debug)]
pub struct GilrsEventsSystemDesc<T> {
    marker: PhantomData<T>,
}

impl<T> GilrsEventsSystemDesc<T> {
    pub fn new() -> (r: Self) {
        GilrsEventsSystemDesc { marker: PhantomData }
    }
}

/// A gamepad event, as far as the registry is concerned.
#[derive(Clone, Copy, Debug, PartialEq, Eq, Structural)]
pub enum GamepadEventKind {
    AxisChanged,
    ButtonPressed,
    ButtonReleased,
    Connected,
    Disconnected,
    /// Any event the registry passes over.
    Other,
}

/// What the input system reports for a gamepad event, by controller index.
#[derive(Clone, Copy, Debug, PartialEq, Eq, Structural)]
pub enum ControllerNotice {
    AxisMoved(u32),
    ButtonPressed(u32),
    ButtonReleased(u32),
    Connected(u32),
    Disconnected(u32),
}

/// The notice an event on gamepad `id` gives in a registry `m`, where
/// `present` says whether the gamepad is attached and `index` is the index a
/// newly opened one gets. Events of gamepads not opened are passed over, but
/// for a connect.
pub open spec fn notice_of(
    m: Map<usize, u32>,
    id: usize,
    kind: GamepadEventKind,
    present: bool,
    index: u32,
) -> Option<ControllerNotice> {
    let opened = m.contains_key(id);
    match kind {
        GamepadEventKind::Connected => if present {
            Some(ControllerNotice::Connected(index))
        } else {
            None
        },
        GamepadEventKind::AxisChanged => if opened {
            Some(ControllerNotice::AxisMoved(m[id]))
        } else {
            None
        },
        GamepadEventKind::ButtonPressed => if opened {
            Some(ControllerNotice::ButtonPressed(m[id]))
        } else {
            None
        },
        GamepadEventKind::ButtonReleased => if opened {
            Some(ControllerNotice::ButtonReleased(m[id]))
        } else {
            None
        },
        GamepadEventKind::Disconnected => if opened {
            Some(ControllerNotice::Disconnected(m[id]))
        } else {
            None
        },
        GamepadEventKind::Other => None,
    }
}

/// The registry after an event on gamepad `id`: a connect of an attached
/// gamepad opens it under `index`; a disconnect of an opened one closes it.
pub open spec fn registry_after(
    m: Map<usize, u32>,
    id: usize,
    kind: GamepadEventKind,
    present: bool,
    index: u32,
) -> Map<usize, u32> {
    match kind {
        GamepadEventKind::Connected => if present {
            m.insert(id, index)
        } else {
            m
        },
        GamepadEventKind::Disconnected => m.remove(id),
        _ => m,
    }
}

/// The opened game controllers: gamepad id to controller index.
pub struct ControllerRegistry {
    opened: HashMap<usize, u32>,
}

impl View for ControllerRegistry {
    type V = Map<usize, u32>;

    closed spec fn view(&self) -> Map<usize, u32> {
        self.opened@
    }
}

impl ControllerRegistry {
    /// A registry with no controller opened.
    pub fn new() -> (r: ControllerRegistry)
        ensures
            r@ == Map::<usize, u32>::empty(),
    {
        ControllerRegistry { opened: HashMap::new() }
    }

    /// The index of gamepad `id`, if it is opened.
    pub fn index_of(&self, id: usize) -> (r: Option<u32>)
        ensures
            r == (if self@.contains_key(id) {
                Some(self@[id])
            } else {
                None
            }),
    {
        broadcast use vstd::std_specs::hash::group_hash_axioms;

        match self.opened.get(&id) {
            Some(i) => Some(*i),
            None => None,
        }
    }

    /// Opens gamepad `id` under `index` if it is attached.
    pub fn open_controller(&mut self, id: usize, present: bool, index: u32) -> (r: Option<u32>)
        ensures
            r == (if present {
                Some(index)
            } else {
                None
            }),
            final(self)@ == (if present {
                old(self)@.insert(id, index)
            } else {
                old(self)@
            }),
    {
        broadcast use vstd::std_specs::hash::group_hash_axioms;

        if present {
            self.opened.insert(id, index);
            Some(index)
        } else {
            None
        }
    }

    /// Closes gamepad `id` and gives the index it had, if it was opened.
    pub fn close_controller(&mut self, id: usize) -> (r: Option<u32>)
        ensures
            r == (if old(self)@.contains_key(id) {
                Some(old(self)@[id])
            } else {
                None
            }),
            final(self)@ == old(self)@.remove(id),
    {
        broadcast use vstd::std_specs::hash::group_hash_axioms;

        self.opened.remove(&id)
    }

    /// Handles one event of gamepad `id`: updates the registry and gives the
    /// notice to report, if any.
    pub fn handle_event(&mut self, id: usize, kind: GamepadEventKind, present: bool, index: u32) -> (r:
        Option<ControllerNotice>)
        ensures
            r == notice_of(old(self)@, id, kind, present, index),
            final(self)@ == registry_after(old(self)@, id, kind, present, index),
    {
        match kind {
            GamepadEventKind::Connected => match self.open_controller(id, present, index) {
                Some(i) => Some(ControllerNotice::Connected(i)),
                None => None,
            },
            GamepadEventKind::Disconnected => match self.close_controller(id) {
                Some(i) => Some(ControllerNotice::Disconnected(i)),
                None => None,
            },
            GamepadEventKind::AxisChanged => match self.index_of(id) {
                Some(i) => Some(ControllerNotice::AxisMoved(i)),
                None => None,
            },
            GamepadEventKind::ButtonPressed => match self.index_of(id) {
                Some(i) => Some(ControllerNotice::ButtonPressed(i)),
                None => None,
            },
            GamepadEventKind::ButtonReleased => match self.index_of(id) {
                Some(i) => Some(ControllerNotice::ButtonReleased(i)),
                None => None,
            },
            GamepadEventKind::Other => None,
        }
    }
}

} // verus!

//! The coordinator: one value that owns the spatial index, the element
//! registry, the device sessions and the state of the dispatch loop.
//!
//! The display, the scripting engine, the device readers and the elements
//! themselves live with the caller. Each function here decides; the caller
//! carries the decision out and reports back what it met.

use vstd::prelude::*;
use aabb_quadtree::ItemId;
use crate::devices::{in_order, Deactivation, DeviceSessions, InputDevice};
use crate::display::{after_clear, refresh_after_clear, Refresh};
use crate::events::{
    answer_at, dispatched, gesture_after, looks_up, square_of, touch_event, Callback, Dispatch, InputEvent,
    MultitouchEvent, NO_GESTURE,
};
use crate::geometry::{clipped_span, covers_from_origin, in_reach, span, surface, touch_area, Area};
use crate::index::{inserted, is_handle, item_number, ActiveRegionHandler, Region};
use crate::regions::{found_number, inserted_is_found, may_find, without_hit, ActiveRegions};
use crate::registry::added_is_found;
use crate::registry::{distinct, lookup, position, present, ElementRegistry, Entry};

verus! {

/// Where the dispatch loop stands.
#[derive(Clone, Copy, Debug, PartialEq, Eq, Structural)]
pub enum DispatchPhase {
    /// Never started.
    Idle,
    /// Reading events.
    Running,
    /// Asked to stop; the loop ends when it next checks.
    Draining,
    /// Ended, and the readers joined.
    Terminated,
}

/// The state of the coordinator.
pub struct ContextView {
    /// The height of the display.
    pub yres: u32,
    /// The width of the display.
    pub xres: u32,
    pub phase: DispatchPhase,
    pub sessions: DeviceSessions,
    /// The gesture on which the active regions were looked up last, or
    /// `NO_GESTURE`.
    pub last_gesture: int,
    /// The active regions, by number.
    pub regions: Map<nat, Region>,
    /// The display as the spatial index knows it: from the origin to its
    /// width and height.
    pub bounds: Area,
    /// What a lookup of the active regions answers at each point `(y, x)`:
    /// the number of the region it finds, if it finds one.
    pub hits: spec_fn(u16, u16) -> Option<nat>,
    /// How many active regions were ever created.
    pub issued: nat,
    /// The registered elements, oldest first.
    pub elements: Seq<Entry>,
}

/// The handler to give to an element when it is drawn: its click handler
/// together with the element itself, where it has a click handler.
pub open spec fn binding(element: u64, onclick: Option<u64>) -> Option<ActiveRegionHandler> {
    match onclick {
        Some(handler) => Some(ActiveRegionHandler { handler, element }),
        None => None,
    }
}

/// Builds the handler to give to an element when it is drawn.
pub fn region_handler(element: u64, onclick: Option<u64>) -> (handler: Option<ActiveRegionHandler>)
    ensures
        handler == binding(element, onclick),
{
    match onclick {
        Some(handler) => Some(ActiveRegionHandler { handler, element }),
        None => None,
    }
}

/// An element is registered under a free name, drawn with its click
/// handler, and makes the rectangle it has drawn an active region. Then the
/// first sample of a gesture strictly inside that rectangle, on the display
/// and away from every older region, sets off that click handler with that
/// element, and the next sample of the same gesture sets off no handler.
pub proof fn drawn_element_fires_once(
    elements: Seq<Entry>,
    name: Seq<char>,
    element: u64,
    onclick: u64,
    before: Map<nat, Region>,
    after: Map<nat, Region>,
    bounds: Area,
    number: nat,
    y: u16,
    x: u16,
    height: u16,
    width: u16,
    hits: spec_fn(u16, u16) -> Option<nat>,
    last_gesture: int,
    gesture_seq: u16,
    finger_id: u16,
    touch_y: u16,
    touch_x: u16,
)
    requires
        distinct(elements),
        !present(elements, name),
        inserted(
            before,
            after,
            number,
            ActiveRegionHandler { handler: onclick, element },
            clipped_span(y, x, height, width),
            bounds,
        ),
        span(y, x, height, width).holds_strictly(touch_x as int, touch_y as int),
        bounds.holds(touch_x as int, touch_y as int),
        forall|other: nat|
            before.contains_key(other) ==> !(#[trigger] before[other]).area.meets(touch_area(touch_y, touch_x)),
        may_find(after, bounds, touch_area(touch_y, touch_x), hits(touch_y, touch_x)),
        last_gesture != gesture_seq,
    ensures
        lookup(elements.push(Entry { name, element }), name) == Some(element),
        binding(element, Some(onclick)) == Some(ActiveRegionHandler { handler: onclick, element }),
        dispatched(after, hits, last_gesture, touch_event(gesture_seq, finger_id, touch_y, touch_x)) == (Dispatch {
            region: Some(ActiveRegionHandler { handler: onclick, element }),
            callback: Some(Callback::OnTouch),
        }),
        dispatched(
            after,
            hits,
            gesture_after(last_gesture, touch_event(gesture_seq, finger_id, touch_y, touch_x)),
            touch_event(gesture_seq, finger_id, touch_y, touch_x),
        ) == (Dispatch { region: None, callback: Some(Callback::OnTouch) }),
{
    added_is_found(elements, name, element);
    inserted_is_found(
        before,
        after,
        bounds,
        number,
        ActiveRegionHandler { handler: onclick, element },
        y,
        x,
        height,
        width,
        touch_y,
        touch_x,
        hits(touch_y, touch_x),
    );
}

/// The coordinator.
pub struct ApplicationContext {
    yres: u32,
    xres: u32,
    phase: DispatchPhase,
    sessions: DeviceSessions,
    last_active_region_gesture_id: i32,
    active_regions: ActiveRegions,
    ui_elements: ElementRegistry,
}

impl View for ApplicationContext {
    type V = ContextView;

    closed spec fn view(&self) -> ContextView {
        ContextView {
            yres: self.yres,
            xres: self.xres,
            phase: self.phase,
            sessions: self.sessions,
            last_gesture: self.last_active_region_gesture_id as int,
            regions: self.active_regions.regions(),
            bounds: self.active_regions.bounds(),
            hits: self.active_regions.hits(),
            issued: self.active_regions.issued(),
            elements: self.ui_elements.entries(),
        }
    }
}

impl ApplicationContext {
    /// The coordinator is consistent: both its parts are, the spatial index
    /// has the dimensions of the display, which are above zero, and the
    /// gesture it remembers is one that a touch can carry, or none.
    pub closed spec fn wf(&self) -> bool {
        &&& self.active_regions.wf()
        &&& self.ui_elements.wf()
        &&& self.yres > 0
        &&& self.xres > 0
        &&& self.active_regions.bounds() == surface(self.xres, self.yres)
        &&& NO_GESTURE <= self.last_active_region_gesture_id <= u16::MAX
    }

    /// What `wf` says, over the view.
    pub proof fn wf_facts(&self)
        requires
            self.wf(),
        ensures
            distinct(self@.elements),
            self@.yres > 0,
            self@.xres > 0,
            self@.bounds == surface(self@.xres, self@.yres),
            covers_from_origin(self@.bounds),
            NO_GESTURE <= self@.last_gesture <= u16::MAX,
            forall|number: nat| #[trigger]
                self@.regions.contains_key(number) ==> number < self@.issued && in_reach(
                    self@.regions[number].area,
                ),
    {
        self.active_regions.wf_facts();
    }

    /// A coordinator for a display `yres` high and `xres` wide: no elements,
    /// no active regions, no sessions, and a dispatch loop that has not
    /// started. The spatial index has the dimensions of the display.
    pub fn new(yres: u32, xres: u32) -> (context: ApplicationContext)
        requires
            yres > 0,
            xres > 0,
        ensures
            context.wf(),
            context@ == (ContextView {
                yres,
                xres,
                phase: DispatchPhase::Idle,
                sessions: DeviceSessions { wacom: false, multitouch: false, gpio: false },
                last_gesture: NO_GESTURE as int,
                regions: Map::<nat, Region>::empty(),
                bounds: surface(xres, yres),
                hits: context@.hits,
                issued: 0,
                elements: Seq::<Entry>::empty(),
            }),
    {
        ApplicationContext {
            yres,
            xres,
            phase: DispatchPhase::Idle,
            sessions: DeviceSessions::new(),
            last_active_region_gesture_id: NO_GESTURE,
            active_regions: ActiveRegions::new(xres, yres),
            ui_elements: ElementRegistry::new(),
        }
    }

    /// The height and the width of the display.
    pub fn get_dimensions(self) -> (dimensions: (u32, u32))
        ensures
            dimensions == (self@.yres, self@.xres),
    {
        (self.yres, self.xres)
    }

    /// Where the dispatch loop stands.
    pub fn phase(&self) -> (phase: DispatchPhase)
        ensures
            phase == self@.phase,
    {
        self.phase
    }

    /// The dispatch loop is to read another event.
    pub fn is_running(&self) -> (running: bool)
        ensures
            running == (self@.phase == DispatchPhase::Running),
    {
        self.phase == DispatchPhase::Running
    }

    /// How many active regions were ever created.
    pub fn regions_created(&self) -> (count: u32)
        requires
            self.wf(),
        ensures
            count as nat == self@.issued,
    {
        self.active_regions.issued_count()
    }

    /// Asks the dispatch loop to end. A running loop drains: it ends when it
    /// next checks, after the event it is waiting for. In any other phase
    /// nothing changes.
    pub fn stop(&mut self)
        ensures
            final(self).wf() == old(self).wf(),
            final(self)@ == (ContextView {
                phase: if old(self)@.phase == DispatchPhase::Running {
                    DispatchPhase::Draining
                } else {
                    old(self)@.phase
                },
                ..old(self)@
            }),
    {
        if self.phase == DispatchPhase::Running {
            self.phase = DispatchPhase::Draining;
        }
    }

    /// Registers `element` under `name` unless the name is taken, and says
    /// whether it did. A taken name keeps its element.
    pub fn add_element(&mut self, name: &str, element: u64) -> (added: bool)
        requires
            old(self).wf(),
        ensures
            final(self).wf(),
            added == !present(old(self)@.elements, name@),
            final(self)@ == (ContextView {
                elements: if added {
                    old(self)@.elements.push(Entry { name: name@, element })
                } else {
                    old(self)@.elements
                },
                ..old(self)@
            }),
    {
        self.ui_elements.add(name, element)
    }

    /// Takes `name` out of the registry, and says whether it was there.
    pub fn remove_element(&mut self, name: &str) -> (removed: bool)
        requires
            old(self).wf(),
        ensures
            final(self).wf(),
            removed == present(old(self)@.elements, name@),
            final(self)@ == (ContextView {
                elements: if removed {
                    old(self)@.elements.remove(position(old(self)@.elements, name@))
                } else {
                    old(self)@.elements
                },
                ..old(self)@
            }),
    {
        self.ui_elements.remove(name)
    }

    /// The element to draw under `name`: the one registered there, if any.
    /// The caller reads its click handler, builds the handler to pass with
    /// `region_handler`, and has the element draw itself.
    pub fn draw_element(&self, name: &str) -> (element: Option<u64>)
        ensures
            element == lookup(self@.elements, name@),
    {
        self.ui_elements.get(name)
    }

    /// The elements to draw when all are drawn: a snapshot of the registry,
    /// oldest first. What a draw does to the registry changes nothing in it.
    pub fn draw_elements(&self) -> (elements: Vec<u64>)
        ensures
            elements@ == self@.elements.map_values(|e: Entry| e.element),
    {
        self.ui_elements.elements()
    }

    /// The refresh that follows the clearing of the display.
    pub fn clear(&self, deep: bool) -> (refresh: Refresh)
        ensures
            refresh == after_clear(self@.yres, self@.xres, deep),
    {
        refresh_after_clear(self.yres, self.xres, deep)
    }

    /// `device` is active: it has a session, and the reader of that session
    /// is alive, as the caller has found.
    pub fn is_input_device_active(&self, device: InputDevice, reader_alive: bool) -> (active: bool)
        ensures
            active == (self@.sessions.holds(device) && reader_alive),
    {
        self.sessions.is_active(device, reader_alive)
    }

    /// Deactivates `device`. An unknown device is refused. A device that is
    /// inactive already is left as it is. The session of an active device
    /// leaves the coordinator, and the caller is told to stop it.
    pub fn deactivate_input_device(&mut self, device: InputDevice, reader_alive: bool) -> (answer: Deactivation)
        ensures
            final(self).wf() == old(self).wf(),
            answer == old(self)@.sessions.deactivation(device, reader_alive),
            answer.inactive == (device != InputDevice::Unknown),
            final(self)@ == (ContextView {
                sessions: old(self)@.sessions.deactivated(device, reader_alive),
                ..old(self)@
            }),
    {
        self.sessions.deactivate(device, reader_alive)
    }

    /// Starts dispatching. The sessions become those of the enabled devices,
    /// no gesture has been looked up, and the loop is running. Returns the
    /// devices whose readers the caller is to start, in starting order.
    pub fn dispatch_events(&mut self, enable_button: bool, enable_wacom: bool, enable_touch: bool) -> (started: Vec<
        InputDevice,
    >)
        requires
            old(self).wf(),
        ensures
            final(self).wf(),
            started@ == in_order(enable_wacom, enable_touch, enable_button),
            final(self)@ == (ContextView {
                phase: DispatchPhase::Running,
                sessions: DeviceSessions { wacom: enable_wacom, multitouch: enable_touch, gpio: enable_button },
                last_gesture: NO_GESTURE as int,
                ..old(self)@
            }),
    {
        let started = self.sessions.start(enable_button, enable_wacom, enable_touch);
        self.last_active_region_gesture_id = NO_GESTURE;
        self.phase = DispatchPhase::Running;
        started
    }

    /// Decides what to do on one event from the queue. A finger on the
    /// screen, in another gesture than the one looked up last, is looked up
    /// among the active regions, and the gesture is remembered whether or
    /// not a region was hit. Every event goes to the callback of its device
    /// class.
    pub fn handle_event(&mut self, event: InputEvent) -> (dispatch: Dispatch)
        requires
            old(self).wf(),
        ensures
            final(self).wf(),
            dispatch == dispatched(old(self)@.regions, old(self)@.hits, old(self)@.last_gesture, event),
            looks_up(old(self)@.last_gesture, event) ==> may_find(
                old(self)@.regions,
                old(self)@.bounds,
                square_of(event).unwrap(),
                answer_at(old(self)@.hits, event),
            ),
            final(self)@ == (ContextView {
                last_gesture: gesture_after(old(self)@.last_gesture, event),
                ..old(self)@
            }),
    {
        match event {
            InputEvent::GPIO => Dispatch { region: None, callback: Some(Callback::OnButton) },
            InputEvent::MultitouchEvent { event: touch } => {
                let mut region: Option<ActiveRegionHandler> = None;
                match touch {
                    MultitouchEvent::Touch { gesture_seq, finger_id: _, y, x } => {
                        let gesture: i32 = gesture_seq as i32;
                        if self.last_active_region_gesture_id != gesture {
                            match self.find_active_region(y, x) {
                                Some(hit) => {
                                    region = Some(hit.0);
                                },
                                None => {},
                            }
                            self.last_active_region_gesture_id = gesture;
                        }
                    },
                    MultitouchEvent::Unknown => {},
                }
                Dispatch { region, callback: Some(Callback::OnTouch) }
            },
            InputEvent::WacomEvent => Dispatch { region: None, callback: Some(Callback::OnWacom) },
            InputEvent::Unknown => Dispatch { region: None, callback: None },
        }
    }

    /// Ends dispatching. All sessions leave the coordinator. Returns the
    /// devices whose readers the caller is to join, in joining order.
    pub fn join_sessions(&mut self) -> (joined: Vec<InputDevice>)
        ensures
            final(self).wf() == old(self).wf(),
            joined@ == in_order(old(self)@.sessions.wacom, old(self)@.sessions.multitouch, old(self)@.sessions.gpio),
            final(self)@ == (ContextView {
                phase: DispatchPhase::Terminated,
                sessions: DeviceSessions { wacom: false, multitouch: false, gpio: false },
                ..old(self)@
            }),
    {
        let joined = self.sessions.take_all();
        self.phase = DispatchPhase::Terminated;
        joined
    }

    /// Looks for an active region under a touch at `(x, y)`: the first, by
    /// number, of those that the index reports for the square around the
    /// point. Nothing changes, so the same lookup answers the same again.
    pub fn find_active_region(&self, y: u16, x: u16) -> (found: Option<(ActiveRegionHandler, ItemId)>)
        requires
            self.wf(),
        ensures
            found_number(found) == (self@.hits)(y, x),
            may_find(self@.regions, self@.bounds, touch_area(y, x), (self@.hits)(y, x)),
            found matches Some(hit) ==> self@.regions[item_number(hit.1)].handler == hit.0 && is_handle(hit.1),
    {
        self.active_regions.find(y, x)
    }

    /// Removes the active region that a lookup at `(x, y)` answers, and
    /// says whether it answered one. Every other region stays.
    pub fn remove_active_region_at_point(&mut self, y: u16, x: u16) -> (removed: bool)
        requires
            old(self).wf(),
        ensures
            final(self).wf(),
            removed == (old(self)@.hits)(y, x).is_some(),
            may_find(old(self)@.regions, old(self)@.bounds, touch_area(y, x), (old(self)@.hits)(y, x)),
            final(self)@ == (ContextView {
                regions: without_hit(old(self)@.regions, (old(self)@.hits)(y, x)),
                hits: final(self)@.hits,
                ..old(self)@
            }),
    {
        self.active_regions.remove_at_point(y, x)
    }

    /// Makes the rectangle from `(x, y)` that is `width` wide and `height`
    /// high an active region of `element`, with the given click handler.
    /// The rectangle is cut off at the largest coordinate that a touch can
    /// report. One that meets the display is stored under the next number;
    /// one that lies outside it may be dropped.
    pub fn create_active_region(&mut self, y: u16, x: u16, height: u16, width: u16, handler: u64, element: u64)
        requires
            old(self).wf(),
            old(self)@.issued < u32::MAX,
        ensures
            final(self).wf(),
            inserted(
                old(self)@.regions,
                final(self)@.regions,
                old(self)@.issued,
                ActiveRegionHandler { handler, element },
                clipped_span(y, x, height, width),
                old(self)@.bounds,
            ),
            final(self)@ == (ContextView {
                regions: final(self)@.regions,
                hits: final(self)@.hits,
                issued: old(self)@.issued + 1,
                ..old(self)@
            }),
    {
        self.active_regions.insert(y, x, height, width, ActiveRegionHandler { handler, element });
    }
}

} // verus!

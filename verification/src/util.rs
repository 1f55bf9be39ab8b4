use crate::dispatch::Notification;
use vstd::prelude::*;

verus! {

/// The name of the kind of `event`, as it appears in logs.
pub open spec fn event_name(event: Notification) -> Seq<char> {
    match event {
        Notification::KeyPressed { .. } => "key_press"@,
        Notification::WindowMapped { .. } => "map_notify"@,
        Notification::WindowDestroyed { .. } => "destroy_notify"@,
        Notification::ButtonPressed { .. } => "button_press"@,
        Notification::Other => "other"@,
    }
}

/// Names the kind of `event`.
pub fn event_to_string(event: &Notification) -> (name: &'static str)
    ensures
        name@ == event_name(*event),
{
    match event {
        Notification::KeyPressed { .. } => "key_press",
        Notification::WindowMapped { .. } => "map_notify",
        Notification::WindowDestroyed { .. } => "destroy_notify",
        Notification::ButtonPressed { .. } => "button_press",
        Notification::Other => "other",
    }
}

} // verus!

//! Monitors: how they are told apart, listed, and how the window is placed
//! on one of them.

use vstd::prelude::*;
use crate::text::decimal;
use crate::text::decimal_text;
use crate::text::str_equal;

verus! {

/// What is known of one monitor: its name, where it sits on the virtual
/// desktop, and the part of it that is free for windows.
#[derive(Debug, Clone)]
pub struct MonitorGeometry {
    pub name: Option<String>,
    pub x: i32,
    pub y: i32,
    pub width: u32,
    pub height: u32,
    pub work_x: i32,
    pub work_y: i32,
    pub work_width: u32,
    pub work_height: u32,
}

/// One monitor as offered for selection.
#[derive(Debug, Clone)]
pub struct MonitorEntry {
    pub id: String,
    pub label: String,
    pub width: u32,
    pub height: u32,
    pub is_primary: bool,
    pub is_current: bool,
}

/// Mathematical content of a [`MonitorEntry`].
pub struct MonitorEntryView {
    pub id: Seq<char>,
    pub label: Seq<char>,
    pub width: u32,
    pub height: u32,
    pub is_primary: bool,
    pub is_current: bool,
}

impl View for MonitorEntry {
    type V = MonitorEntryView;

    open spec fn view(&self) -> MonitorEntryView {
        MonitorEntryView {
            id: self.id@,
            label: self.label@,
            width: self.width,
            height: self.height,
            is_primary: self.is_primary,
            is_current: self.is_current,
        }
    }
}

/// Where the window goes and how large it is there.
#[derive(Debug, Clone, Copy, PartialEq, Eq, Structural)]
pub struct WindowPlacement {
    pub x: i32,
    pub y: i32,
    pub width: u32,
    pub height: u32,
}

/// The id of the monitor at position `index` of the enumeration: index,
/// position and size, joined by colons. Monitors of the same name still get
/// different ids.
pub open spec fn identity_of(index: nat, monitor: MonitorGeometry) -> Seq<char> {
    decimal(index as int) + ":"@ + decimal(monitor.x as int) + ":"@ + decimal(monitor.y as int)
        + ":"@ + decimal(monitor.width as int) + ":"@ + decimal(monitor.height as int)
}

/// The name a monitor is shown under: its own, or its number in the
/// enumeration, counted from one.
pub open spec fn display_name_of(index: nat, monitor: MonitorGeometry) -> Seq<char> {
    match monitor.name {
        Some(name) => name@,
        None => "显示器 "@ + decimal(index as int + 1),
    }
}

/// The label of a monitor: the name it is shown under and its size.
pub open spec fn label_of(index: nat, monitor: MonitorGeometry) -> Seq<char> {
    display_name_of(index, monitor) + " ("@ + decimal(monitor.width as int) + "x"@ + decimal(
        monitor.height as int,
    ) + ")"@
}

/// Whether a monitor called `name` is the one called `other`. Monitors
/// without a name match nothing.
pub open spec fn names_match(name: Option<String>, other: Option<String>) -> bool {
    name matches Some(own) && other matches Some(theirs) && own@ == theirs@
}

/// The entry of the monitor at position `index`.
pub open spec fn entry_of(
    index: nat,
    monitor: MonitorGeometry,
    primary_name: Option<String>,
    current_name: Option<String>,
) -> MonitorEntryView {
    MonitorEntryView {
        id: identity_of(index, monitor),
        label: label_of(index, monitor),
        width: monitor.width,
        height: monitor.height,
        is_primary: names_match(monitor.name, primary_name),
        is_current: names_match(monitor.name, current_name),
    }
}

/// The window at the top left of the work area of `monitor`, cut down to
/// fit into it.
pub open spec fn placement_on(monitor: MonitorGeometry, width: u32, height: u32)
    -> WindowPlacement {
    WindowPlacement {
        x: monitor.work_x,
        y: monitor.work_y,
        width: if width <= monitor.work_width {
            width
        } else {
            monitor.work_width
        },
        height: if height <= monitor.work_height {
            height
        } else {
            monitor.work_height
        },
    }
}

fn append_decimal(text: &mut String, value: i128)
    ensures
        final(text)@ == old(text)@ + decimal(value as int),
{
    let digits = decimal_text(value);
    text.append(digits.as_str());
}

/// The id under which the monitor at position `index` is selected.
pub fn monitor_identity(index: usize, monitor: &MonitorGeometry) -> (id: String)
    ensures
        id@ == identity_of(index as nat, *monitor),
{
    let mut id = decimal_text(index as i128);
    id.append(":");
    append_decimal(&mut id, monitor.x as i128);
    id.append(":");
    append_decimal(&mut id, monitor.y as i128);
    id.append(":");
    append_decimal(&mut id, monitor.width as i128);
    id.append(":");
    append_decimal(&mut id, monitor.height as i128);
    id
}

/// The label under which the monitor at position `index` is shown.
pub fn monitor_label(index: usize, monitor: &MonitorGeometry) -> (label: String)
    ensures
        label@ == label_of(index as nat, *monitor),
{
    let mut label = match &monitor.name {
        Some(name) => name.clone(),
        None => {
            let mut numbered = "显示器 ".to_owned();
            append_decimal(&mut numbered, index as i128 + 1);
            numbered
        },
    };
    label.append(" (");
    append_decimal(&mut label, monitor.width as i128);
    label.append("x");
    append_decimal(&mut label, monitor.height as i128);
    label.append(")");
    label
}

/// Whether two monitor names are both there and equal.
pub fn same_monitor_name(name: &Option<String>, other: &Option<String>) -> (same: bool)
    ensures
        same == names_match(*name, *other),
{
    match (name, other) {
        (Some(own), Some(theirs)) => str_equal(own.as_str(), theirs.as_str()),
        _ => false,
    }
}

/// Describes the monitor at position `index` for selection, marking it where
/// it carries the name of the primary monitor or of the monitor the window
/// is on.
pub fn describe_monitor(
    index: usize,
    monitor: &MonitorGeometry,
    primary_name: &Option<String>,
    current_name: &Option<String>,
) -> (entry: MonitorEntry)
    ensures
        entry@ == entry_of(index as nat, *monitor, *primary_name, *current_name),
{
    MonitorEntry {
        id: monitor_identity(index, monitor),
        label: monitor_label(index, monitor),
        width: monitor.width,
        height: monitor.height,
        is_primary: same_monitor_name(&monitor.name, primary_name),
        is_current: same_monitor_name(&monitor.name, current_name),
    }
}

/// Whether the monitor at position `index` is the first that goes by
/// `monitor_id`.
pub open spec fn is_first_match(
    monitors: Seq<MonitorGeometry>,
    monitor_id: Seq<char>,
    index: int,
) -> bool {
    &&& 0 <= index < monitors.len()
    &&& identity_of(index as nat, monitors[index]) == monitor_id
    &&& forall|earlier: int|
        0 <= earlier < index ==> identity_of(earlier as nat, #[trigger] monitors[earlier])
            != monitor_id
}

/// Whether no monitor goes by `monitor_id`.
pub open spec fn no_match(monitors: Seq<MonitorGeometry>, monitor_id: Seq<char>) -> bool {
    forall|index: int|
        0 <= index < monitors.len() ==> identity_of(index as nat, #[trigger] monitors[index])
            != monitor_id
}

/// Finds the first monitor that goes by `monitor_id`.
pub fn find_monitor(monitors: &Vec<MonitorGeometry>, monitor_id: &str) -> (found: Option<usize>)
    ensures
        match found {
            Some(index) => is_first_match(monitors@, monitor_id@, index as int),
            None => no_match(monitors@, monitor_id@),
        },
{
    let count: usize = monitors.len();
    let mut index: usize = 0;
    while index < count
        invariant
            count == monitors@.len(),
            index <= count,
            forall|earlier: int|
                0 <= earlier < index ==> identity_of(earlier as nat, #[trigger] monitors@[earlier])
                    != monitor_id@,
        decreases count - index,
    {
        let id = monitor_identity(index, &monitors[index]);
        if str_equal(id.as_str(), monitor_id) {
            return Some(index);
        }
        index += 1;
    }
    None
}

/// Works out where the window goes when it is sent to the monitor that goes
/// by `monitor_id`: to the top left of the work area of the first such
/// monitor, no larger than the work area. Fails where no monitor goes by
/// that id.
pub fn plan_move(
    monitors: &Vec<MonitorGeometry>,
    monitor_id: &str,
    current_width: u32,
    current_height: u32,
) -> (plan: Result<WindowPlacement, String>)
    ensures
        match plan {
            Ok(placement) => exists|index: int|
                #![trigger monitors@[index]]
                is_first_match(monitors@, monitor_id@, index) && placement == placement_on(
                    monitors@[index],
                    current_width,
                    current_height,
                ),
            Err(message) => {
                &&& no_match(monitors@, monitor_id@)
                &&& message@ == "monitor not found: "@ + monitor_id@
            },
        },
{
    match find_monitor(monitors, monitor_id) {
        Some(index) => {
            let target = &monitors[index];
            let width = if current_width <= target.work_width {
                current_width
            } else {
                target.work_width
            };
            let height = if current_height <= target.work_height {
                current_height
            } else {
                target.work_height
            };
            Ok(WindowPlacement { x: target.work_x, y: target.work_y, width, height })
        },
        None => {
            let mut message = "monitor not found: ".to_owned();
            message.append(monitor_id);
            Err(message)
        },
    }
}

} // verus!

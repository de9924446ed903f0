use vstd::prelude::*;
use vstd::string::StringExecFns;

verus! {

/// One editor-originated UI notification the core decodes, by its wire name.
/// Unknown wire names decode to no event and are dropped.
#[derive(PartialEq, Eq, Structural, Clone, Copy, Debug)]
pub enum RedrawEvent {
    ModeInfoSet,
    ModeChange,
    BusyStart,
    BusyStop,
    Flush,
    GridResize,
    DefaultColorsSet,
    HlAttrDefine,
    GridLine,
    GridClear,
    GridDestroy,
    GridCursorGoto,
    GridScroll,
}

/// The redraw event a wire name decodes to, if the name is known.
pub open spec fn spec_decode_event(name: Seq<char>) -> Option<RedrawEvent> {
    if name == "mode_info_set"@ {
        Some(RedrawEvent::ModeInfoSet)
    } else if name == "mode_change"@ {
        Some(RedrawEvent::ModeChange)
    } else if name == "busy_start"@ {
        Some(RedrawEvent::BusyStart)
    } else if name == "busy_stop"@ {
        Some(RedrawEvent::BusyStop)
    } else if name == "flush"@ {
        Some(RedrawEvent::Flush)
    } else if name == "grid_resize"@ {
        Some(RedrawEvent::GridResize)
    } else if name == "default_colors_set"@ {
        Some(RedrawEvent::DefaultColorsSet)
    } else if name == "hl_attr_define"@ {
        Some(RedrawEvent::HlAttrDefine)
    } else if name == "grid_line"@ {
        Some(RedrawEvent::GridLine)
    } else if name == "grid_clear"@ {
        Some(RedrawEvent::GridClear)
    } else if name == "grid_destroy"@ {
        Some(RedrawEvent::GridDestroy)
    } else if name == "grid_cursor_goto"@ {
        Some(RedrawEvent::GridCursorGoto)
    } else if name == "grid_scroll"@ {
        Some(RedrawEvent::GridScroll)
    } else {
        None
    }
}

fn str_eq(a: &str, b: &str) -> (r: bool)
    ensures
        r == (a@ == b@),
{
    let x: String = a.to_owned();
    let y: String = b.to_owned();
    x == y
}

/// Decode one inner redraw-event name. Unknown names yield `None`; the
/// caller logs and drops them, never tears the connection down.
pub fn decode_event(name: &str) -> (r: Option<RedrawEvent>)
    ensures
        r == spec_decode_event(name@),
{
    if str_eq(name, "mode_info_set") {
        Some(RedrawEvent::ModeInfoSet)
    } else if str_eq(name, "mode_change") {
        Some(RedrawEvent::ModeChange)
    } else if str_eq(name, "busy_start") {
        Some(RedrawEvent::BusyStart)
    } else if str_eq(name, "busy_stop") {
        Some(RedrawEvent::BusyStop)
    } else if str_eq(name, "flush") {
        Some(RedrawEvent::Flush)
    } else if str_eq(name, "grid_resize") {
        Some(RedrawEvent::GridResize)
    } else if str_eq(name, "default_colors_set") {
        Some(RedrawEvent::DefaultColorsSet)
    } else if str_eq(name, "hl_attr_define") {
        Some(RedrawEvent::HlAttrDefine)
    } else if str_eq(name, "grid_line") {
        Some(RedrawEvent::GridLine)
    } else if str_eq(name, "grid_clear") {
        Some(RedrawEvent::GridClear)
    } else if str_eq(name, "grid_destroy") {
        Some(RedrawEvent::GridDestroy)
    } else if str_eq(name, "grid_cursor_goto") {
        Some(RedrawEvent::GridCursorGoto)
    } else if str_eq(name, "grid_scroll") {
        Some(RedrawEvent::GridScroll)
    } else {
        None
    }
}

/// The events a sequence of inner redraw-event names decodes to, in order,
/// with unknown names dropped.
pub open spec fn decoded_events(names: Seq<Seq<char>>) -> Seq<RedrawEvent>
    decreases names.len(),
{
    if names.len() == 0 {
        Seq::empty()
    } else {
        match spec_decode_event(names.first()) {
            Some(e) => seq![e] + decoded_events(names.drop_first()),
            None => decoded_events(names.drop_first()),
        }
    }
}

/// What the handler does with one notification from the editor. There is no
/// disposition that tears the connection down: every notification, known or
/// not, leaves the RPC loop running.
#[derive(Clone, Debug, PartialEq)]
pub enum Disposition {
    /// A `redraw` notification: forward these events to the UI sink, in order.
    Forward { events: Vec<RedrawEvent> },
    /// A `setting_changed` notification: forward the payload on the settings
    /// sink.
    Setting,
    /// Any other notification name: log it and ignore it.
    Ignored,
}

/// Handle one editor notification, given its name and the wire names of its
/// inner events. Only `redraw` is decoded here; `setting_changed` goes to
/// the settings sink with its payload; unknown notification names are
/// ignored, and unknown inner event names are dropped, so no notification
/// ever ends the session.
pub fn handle_notification(name: &str, event_names: &Vec<String>) -> (d: Disposition)
    ensures
        name@ == "redraw"@ ==> (d matches Disposition::Forward { events } && events@
            == decoded_events(event_names@.map_values(|s: String| s@))),
        name@ == "setting_changed"@ ==> d is Setting,
        name@ != "redraw"@ && name@ != "setting_changed"@ ==> d is Ignored,
{
    proof {
        reveal_strlit("redraw");
        reveal_strlit("setting_changed");
        assert("redraw"@.len() == 6);
        assert("setting_changed"@.len() == 15);
        assert("redraw"@ != "setting_changed"@);
    }
    if str_eq(name, "redraw") {
        let ghost views = event_names@.map_values(|s: String| s@);
        let mut events: Vec<RedrawEvent> = Vec::new();
        let mut i: usize = 0;
        proof {
            assert(views.skip(0) =~= views);
            assert(events@ + decoded_events(views) =~= decoded_events(views));
        }
        while i < event_names.len()
            invariant
                0 <= i <= event_names.len(),
                views == event_names@.map_values(|s: String| s@),
                decoded_events(views) == events@ + decoded_events(views.skip(i as int)),
            decreases event_names.len() - i,
        {
            let ghost pre = views.skip(i as int);
            proof {
                assert(pre.len() > 0);
                assert(pre.first() == views[i as int]);
                assert(pre.drop_first() =~= views.skip(i as int + 1));
            }
            match decode_event(event_names[i].as_str()) {
                Some(e) => {
                    let ghost events_pre = events@;
                    events.push(e);
                    proof {
                        assert(events_pre + (seq![e] + decoded_events(pre.drop_first()))
                            =~= events@ + decoded_events(pre.drop_first()));
                    }
                },
                None => {},
            }
            i = i + 1;
        }
        proof {
            assert(views.skip(views.len() as int).len() == 0);
            assert(decoded_events(views) =~= events@);
        }
        Disposition::Forward { events }
    } else if str_eq(name, "setting_changed") {
        Disposition::Setting
    } else {
        Disposition::Ignored
    }
}

/// The core consumes no requests from the editor: every request name fails
/// with a protocol error naming it. The connection is not torn down.
pub fn handle_request(name: &str) -> (r: Result<(), String>)
    ensures
        r matches Err(m) && m@ == "Unknown request: '"@ + name@ + "'"@,
{
    let mut m: String = "Unknown request: '".to_owned();
    m.append(name);
    m.append("'");
    Err(m)
}

/// Decode resilience for inner events: injecting an unknown inner event name
/// anywhere into a redraw notification leaves the decoded event sequence
/// exactly as it was, so the known events around it are still forwarded and
/// the connection survives. (For an unknown top-level notification name,
/// `handle_notification` ensures the notification is ignored outright.)
pub proof fn lemma_unknown_event_ignored(names: Seq<Seq<char>>, i: int, unknown: Seq<char>)
    requires
        0 <= i <= names.len(),
        spec_decode_event(unknown) is None,
    ensures
        decoded_events(names.insert(i, unknown)) == decoded_events(names),
    decreases names.len(),
{
    let inserted = names.insert(i, unknown);
    if i == 0 {
        assert(inserted.first() == unknown);
        assert(inserted.drop_first() =~= names);
    } else {
        assert(inserted.first() == names.first());
        assert(inserted.drop_first() =~= names.drop_first().insert(i - 1, unknown));
        lemma_unknown_event_ignored(names.drop_first(), i - 1, unknown);
    }
}

} // verus!

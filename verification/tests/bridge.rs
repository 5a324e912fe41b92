use river_layout_toolkit::bridge::Bridge;
use river_layout_toolkit::negotiation::{Plan, Reaction};
use river_layout_toolkit::protocol::{
    Global, LayoutDemand, LayoutEvent, OutputEvent, RegistryEvent, Request,
};
use river_layout_toolkit::{Error, GeneratedLayout, Inconsistency, Layout, Rectangle};

/// A generator that records what it is handed and answers as told.
#[derive(Default)]
struct Recorder {
    commands: Vec<(String, Option<u32>, String)>,
    demands: Vec<(u32, u32, u32, u32, String)>,
    refuse_commands: bool,
    fail_layouts: bool,
    extra_views: u32,
}

impl Layout for Recorder {
    type Error = String;

    const NAMESPACE: &'static str = "recorder";

    fn user_cmd(&mut self, cmd: String, tags: Option<u32>, output: &str) -> Result<(), String> {
        self.commands.push((cmd.clone(), tags, output.to_string()));
        if self.refuse_commands {
            Err(format!("refused: {}", cmd))
        } else {
            Ok(())
        }
    }

    fn generate_layout(
        &mut self,
        view_count: u32,
        usable_width: u32,
        usable_height: u32,
        tags: u32,
        output: &str,
    ) -> Result<GeneratedLayout, String> {
        self.demands
            .push((view_count, usable_width, usable_height, tags, output.to_string()));
        if self.fail_layouts {
            return Err("cannot lay out".to_string());
        }
        let mut views = Vec::new();
        for i in 0..(view_count + self.extra_views) {
            views.push(Rectangle {
                x: i as i32,
                y: 0,
                width: usable_width,
                height: usable_height,
            });
        }
        Ok(GeneratedLayout { layout_name: "rows".to_string(), views })
    }
}

fn output_added(name: u32) -> RegistryEvent {
    RegistryEvent::Global(Global { name, interface: "wl_output".to_string(), version: 4 })
}

/// A bridge with one output (registry name 1, handle 10) named "eDP-1" and
/// its session (handle 20).
fn bridge_with_session(layout: Recorder) -> Bridge<Recorder> {
    let mut bridge = Bridge::new(layout);
    assert_eq!(
        bridge.on_registry_event(output_added(1)),
        Ok(vec![Request::BindOutput { reg_name: 1, version: 4 }])
    );
    assert_eq!(bridge.on_output_bound(1, 10, 4), Ok(()));
    assert_eq!(
        bridge.on_output_event(10, OutputEvent::Name("eDP-1".to_string())),
        Ok(vec![Request::GetLayout { output: 10, namespace: "recorder".to_string() }])
    );
    assert_eq!(bridge.on_layout_created(10, 20), Ok(()));
    bridge
}

fn demand(view_count: u32, serial: u32) -> LayoutDemand {
    LayoutDemand { view_count, usable_width: 800, usable_height: 600, tags: 5, serial }
}

fn sent(reaction: Result<Reaction<String>, Inconsistency>) -> Vec<Request> {
    match reaction {
        Ok(Reaction::Send(requests)) => requests,
        other => panic!("unexpected reaction: {:?}", other),
    }
}

#[test]
fn new_bridge_knows_nothing() {
    let bridge = Bridge::new(Recorder::default());
    assert_eq!(bridge.pending_tags(), None);
    assert!(!bridge.registry().contains_name(1));
    assert!(bridge.layout().commands.is_empty());
}

#[test]
fn other_globals_are_ignored() {
    let mut bridge = Bridge::new(Recorder::default());
    let seat = RegistryEvent::Global(Global {
        name: 3,
        interface: "wl_seat".to_string(),
        version: 9,
    });
    assert_eq!(bridge.on_registry_event(seat), Ok(vec![]));
    assert!(!bridge.registry().contains_name(3));
}

#[test]
fn output_global_is_bound_at_version_four() {
    let mut bridge = Bridge::new(Recorder::default());
    assert_eq!(
        bridge.on_registry_event(output_added(42)),
        Ok(vec![Request::BindOutput { reg_name: 42, version: 4 }])
    );
    // The output is live once its handle is reported.
    assert!(!bridge.registry().contains_name(42));
    assert_eq!(bridge.on_output_bound(42, 7, 4), Ok(()));
    assert!(bridge.registry().contains_name(42));
    let output = bridge.registry().output(42).unwrap();
    assert_eq!((output.handle, output.version), (7, 4));
    assert!(output.name.is_none() && output.session.is_none());
}

#[test]
fn output_global_with_live_name_is_rejected() {
    let mut bridge = Bridge::new(Recorder::default());
    assert_eq!(bridge.on_output_bound(1, 10, 4), Ok(()));
    assert_eq!(
        bridge.on_registry_event(output_added(1)),
        Err(Inconsistency::DuplicateName)
    );
    assert_eq!(bridge.on_output_bound(1, 11, 4), Err(Inconsistency::DuplicateName));
    assert_eq!(bridge.on_output_bound(2, 10, 4), Err(Inconsistency::DuplicateHandle));
}

#[test]
fn removing_named_output_destroys_its_session_first() {
    let mut bridge = bridge_with_session(Recorder::default());
    assert_eq!(
        bridge.on_registry_event(RegistryEvent::GlobalRemove(1)),
        Ok(vec![
            Request::DestroyLayout { layout: 20 },
            Request::ReleaseOutput { output: 10 }
        ])
    );
    assert!(!bridge.registry().contains_name(1));
    assert!(bridge.registry().session(20).is_none());
    assert!(matches!(
        bridge.on_layout_event(20, LayoutEvent::LayoutDemand(demand(1, 1))),
        Err(Inconsistency::UnknownSession)
    ));
    assert_eq!(
        bridge.on_output_event(10, OutputEvent::Other),
        Err(Inconsistency::UnknownOutput)
    );
}

#[test]
fn removing_unknown_global_is_rejected() {
    let mut bridge = bridge_with_session(Recorder::default());
    assert_eq!(
        bridge.on_registry_event(RegistryEvent::GlobalRemove(2)),
        Err(Inconsistency::UnknownName)
    );
    assert!(bridge.registry().contains_name(1));
    assert!(bridge.registry().session(20).is_some());
}

#[test]
fn naming_event_for_unknown_output_is_rejected() {
    let mut bridge = Bridge::new(Recorder::default());
    assert_eq!(
        bridge.on_output_event(10, OutputEvent::Name("eDP-1".to_string())),
        Err(Inconsistency::UnknownOutput)
    );
    assert_eq!(
        bridge.on_output_event(10, OutputEvent::Other),
        Err(Inconsistency::UnknownOutput)
    );
}

#[test]
fn other_output_events_change_nothing() {
    let mut bridge = Bridge::new(Recorder::default());
    assert_eq!(bridge.on_output_bound(1, 10, 4), Ok(()));
    assert_eq!(bridge.on_output_event(10, OutputEvent::Other), Ok(vec![]));
    let output = bridge.registry().output(1).unwrap();
    assert!(output.name.is_none() && output.session.is_none());
}

#[test]
fn repeated_naming_event_is_a_no_op() {
    let mut bridge = bridge_with_session(Recorder::default());
    assert_eq!(
        bridge.on_output_event(10, OutputEvent::Name("eDP-1".to_string())),
        Ok(vec![])
    );
    assert_eq!(
        bridge.on_output_event(10, OutputEvent::Name("HDMI-A-1".to_string())),
        Ok(vec![])
    );
    let session = bridge.registry().session(20).unwrap();
    assert_eq!(session.output_name, "eDP-1");
    let output = bridge.registry().output(1).unwrap();
    assert_eq!(output.name.as_deref(), Some("eDP-1"));
    assert_eq!(output.session.as_ref().map(|s| s.handle), Some(20));
}

#[test]
fn session_is_requested_for_each_named_output() {
    let mut bridge = bridge_with_session(Recorder::default());
    assert_eq!(bridge.on_output_bound(2, 11, 4), Ok(()));
    assert_eq!(
        bridge.on_output_event(11, OutputEvent::Name("DP-2".to_string())),
        Ok(vec![Request::GetLayout { output: 11, namespace: "recorder".to_string() }])
    );
    assert_eq!(bridge.on_layout_created(11, 20), Err(Inconsistency::DuplicateHandle));
    assert_eq!(bridge.on_layout_created(11, 21), Ok(()));
    assert_eq!(bridge.on_layout_created(11, 22), Err(Inconsistency::UnrequestedSession));
    assert_eq!(bridge.registry().session(21).unwrap().output_name, "DP-2");
    assert_eq!(bridge.registry().session(20).unwrap().output_name, "eDP-1");
}

#[test]
fn session_report_without_naming_is_rejected() {
    let mut bridge = Bridge::new(Recorder::default());
    assert_eq!(bridge.on_layout_created(10, 20), Err(Inconsistency::UnknownOutput));
    assert_eq!(bridge.on_output_bound(1, 10, 4), Ok(()));
    assert_eq!(bridge.on_layout_created(10, 20), Err(Inconsistency::UnrequestedSession));
    assert!(bridge.registry().session(20).is_none());
}

#[test]
fn demand_is_handed_to_the_generator_as_it_came() {
    let mut bridge = bridge_with_session(Recorder::default());
    let asked = LayoutDemand {
        view_count: 2,
        usable_width: 1920,
        usable_height: 1080,
        tags: 0b101,
        serial: 31,
    };
    let requests = sent(bridge.on_layout_event(20, LayoutEvent::LayoutDemand(asked)));
    assert_eq!(
        bridge.layout().demands,
        vec![(2, 1920, 1080, 0b101, "eDP-1".to_string())]
    );
    assert_eq!(
        requests,
        vec![
            Request::PushViewDimensions {
                layout: 20,
                x: 0,
                y: 0,
                width: 1920,
                height: 1080,
                serial: 31
            },
            Request::PushViewDimensions {
                layout: 20,
                x: 1,
                y: 0,
                width: 1920,
                height: 1080,
                serial: 31
            },
            Request::Commit { layout: 20, layout_name: "rows".to_string(), serial: 31 },
        ]
    );
}

#[test]
fn every_reply_carries_its_own_serial() {
    let mut bridge = bridge_with_session(Recorder::default());
    for (count, serial) in [(0u32, 1u32), (1, 2), (4, 0), (3, u32::MAX)] {
        let requests =
            sent(bridge.on_layout_event(20, LayoutEvent::LayoutDemand(demand(count, serial))));
        assert_eq!(requests.len() as u32, count + 1);
        for (i, request) in requests.iter().enumerate() {
            if (i as u32) < count {
                assert!(matches!(
                    request,
                    Request::PushViewDimensions { layout: 20, serial: s, .. } if *s == serial
                ));
            } else {
                assert_eq!(
                    *request,
                    Request::Commit { layout: 20, layout_name: "rows".to_string(), serial }
                );
            }
        }
    }
}

#[test]
fn wrong_number_of_rectangles_ends_the_run() {
    let generator = Recorder { extra_views: 1, ..Recorder::default() };
    let mut bridge = bridge_with_session(generator);
    assert!(matches!(
        bridge.on_layout_event(20, LayoutEvent::LayoutDemand(demand(2, 8))),
        Ok(Reaction::Abort(Error::InvalidGeneratedLayout))
    ));
    assert_eq!(bridge.layout().demands.len(), 1);
}

#[test]
fn failing_generator_ends_the_run() {
    let generator = Recorder { fail_layouts: true, ..Recorder::default() };
    let mut bridge = bridge_with_session(generator);
    match bridge.on_layout_event(20, LayoutEvent::LayoutDemand(demand(2, 8))) {
        Ok(Reaction::Abort(Error::LayoutError(e))) => assert_eq!(e, "cannot lay out"),
        other => panic!("unexpected reaction: {:?}", other),
    }
}

#[test]
fn namespace_in_use_ends_the_run() {
    let mut bridge = bridge_with_session(Recorder::default());
    assert_eq!(bridge.on_output_bound(2, 11, 4), Ok(()));
    assert!(bridge.on_output_event(11, OutputEvent::Name("DP-2".to_string())).is_ok());
    assert_eq!(bridge.on_layout_created(11, 21), Ok(()));
    for session in [20, 21] {
        match bridge.on_layout_event(session, LayoutEvent::NamespaceInUse) {
            Ok(Reaction::Abort(Error::NamespaceInUse(namespace))) => {
                assert_eq!(namespace, "recorder")
            }
            other => panic!("unexpected reaction: {:?}", other),
        }
    }
    assert!(bridge.layout().commands.is_empty());
    assert!(bridge.layout().demands.is_empty());
}

#[test]
fn command_without_announcement_sees_no_tags() {
    let mut bridge = bridge_with_session(Recorder::default());
    let requests = sent(bridge.on_layout_event(20, LayoutEvent::UserCommand("swap".to_string())));
    assert_eq!(requests, vec![]);
    assert_eq!(
        bridge.layout().commands,
        vec![("swap".to_string(), None, "eDP-1".to_string())]
    );
}

#[test]
fn command_sees_the_tags_just_announced() {
    let mut bridge = bridge_with_session(Recorder::default());
    assert_eq!(sent(bridge.on_layout_event(20, LayoutEvent::UserCommandTags(0b11))), vec![]);
    assert_eq!(bridge.pending_tags(), Some(0b11));
    assert!(bridge.layout().commands.is_empty());
    assert_eq!(
        sent(bridge.on_layout_event(20, LayoutEvent::UserCommand("grow".to_string()))),
        vec![]
    );
    assert_eq!(
        bridge.layout().commands,
        vec![("grow".to_string(), Some(0b11), "eDP-1".to_string())]
    );
}

#[test]
fn tags_stay_until_the_next_announcement() {
    let mut bridge = bridge_with_session(Recorder::default());
    assert!(bridge.on_layout_event(20, LayoutEvent::UserCommandTags(1)).is_ok());
    assert!(bridge.on_layout_event(20, LayoutEvent::UserCommand("a".to_string())).is_ok());
    assert!(bridge.on_layout_event(20, LayoutEvent::UserCommand("b".to_string())).is_ok());
    assert_eq!(bridge.pending_tags(), Some(1));
    assert!(bridge.on_layout_event(20, LayoutEvent::UserCommandTags(2)).is_ok());
    assert!(bridge.on_layout_event(20, LayoutEvent::UserCommand("c".to_string())).is_ok());
    let seen: Vec<Option<u32>> = bridge.layout().commands.iter().map(|c| c.1).collect();
    assert_eq!(seen, vec![Some(1), Some(1), Some(2)]);
}

#[test]
fn tags_announced_on_one_session_reach_commands_on_another() {
    let mut bridge = bridge_with_session(Recorder::default());
    assert_eq!(bridge.on_output_bound(2, 11, 4), Ok(()));
    assert!(bridge.on_output_event(11, OutputEvent::Name("DP-2".to_string())).is_ok());
    assert_eq!(bridge.on_layout_created(11, 21), Ok(()));
    assert!(bridge.on_layout_event(20, LayoutEvent::UserCommandTags(9)).is_ok());
    assert!(bridge.on_layout_event(21, LayoutEvent::UserCommand("x".to_string())).is_ok());
    assert_eq!(
        bridge.layout().commands,
        vec![("x".to_string(), Some(9), "DP-2".to_string())]
    );
}

#[test]
fn refused_command_does_not_end_the_run() {
    let generator = Recorder { refuse_commands: true, ..Recorder::default() };
    let mut bridge = bridge_with_session(generator);
    match bridge.on_layout_event(20, LayoutEvent::UserCommand("bogus".to_string())) {
        Ok(Reaction::CommandFailed(e)) => assert_eq!(e, "refused: bogus"),
        other => panic!("unexpected reaction: {:?}", other),
    }
    // The session goes on as before.
    let requests = sent(bridge.on_layout_event(20, LayoutEvent::LayoutDemand(demand(1, 3))));
    assert_eq!(requests.len(), 2);
    assert!(bridge.registry().session(20).is_some());
}

#[test]
fn event_for_unknown_session_is_rejected() {
    let mut bridge = bridge_with_session(Recorder::default());
    for event in [
        LayoutEvent::NamespaceInUse,
        LayoutEvent::LayoutDemand(demand(1, 1)),
        LayoutEvent::UserCommand("x".to_string()),
        LayoutEvent::UserCommandTags(4),
    ] {
        assert!(matches!(
            bridge.on_layout_event(21, event),
            Err(Inconsistency::UnknownSession)
        ));
    }
    assert_eq!(bridge.pending_tags(), None);
    assert!(bridge.layout().commands.is_empty());
    assert!(bridge.layout().demands.is_empty());
}

#[test]
fn prepare_decides_without_asking_the_generator() {
    let mut bridge = bridge_with_session(Recorder::default());
    assert_eq!(
        bridge.prepare(20, LayoutEvent::NamespaceInUse),
        Ok(Plan::Abort { namespace: "recorder".to_string() })
    );
    assert_eq!(bridge.prepare(20, LayoutEvent::UserCommandTags(6)), Ok(Plan::Idle));
    assert_eq!(
        bridge.prepare(20, LayoutEvent::UserCommand("cmd".to_string())),
        Ok(Plan::Command {
            command: "cmd".to_string(),
            tags: Some(6),
            output: "eDP-1".to_string()
        })
    );
    assert_eq!(
        bridge.prepare(20, LayoutEvent::LayoutDemand(demand(3, 4))),
        Ok(Plan::Demand { demand: demand(3, 4), output: "eDP-1".to_string() })
    );
    assert_eq!(
        bridge.prepare(99, LayoutEvent::NamespaceInUse),
        Err(Inconsistency::UnknownSession)
    );
    assert!(bridge.layout().commands.is_empty());
    assert!(bridge.layout().demands.is_empty());
}

#[test]
fn carry_out_asks_what_the_plan_says() {
    let mut bridge = bridge_with_session(Recorder::default());
    let plan = Plan::Command {
        command: "cmd".to_string(),
        tags: Some(2),
        output: "somewhere".to_string(),
    };
    assert!(matches!(bridge.carry_out(20, plan), Reaction::Send(r) if r.is_empty()));
    assert_eq!(
        bridge.layout().commands,
        vec![("cmd".to_string(), Some(2), "somewhere".to_string())]
    );
    assert!(matches!(bridge.carry_out(20, Plan::Idle), Reaction::Send(r) if r.is_empty()));
    assert_eq!(bridge.layout().commands.len(), 1);
}

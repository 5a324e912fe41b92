use river_layout_toolkit::negotiation::{command_reply, demand_reply, Reaction};
use river_layout_toolkit::protocol::Request;
use river_layout_toolkit::{Error, GeneratedLayout, Rectangle};

fn rect(x: i32, y: i32, width: u32, height: u32) -> Rectangle {
    Rectangle { x, y, width, height }
}

fn push(layout: u32, r: Rectangle, serial: u32) -> Request {
    Request::PushViewDimensions {
        layout,
        x: r.x,
        y: r.y,
        width: r.width,
        height: r.height,
        serial,
    }
}

fn generated(name: &str, views: Vec<Rectangle>) -> Result<GeneratedLayout, String> {
    Ok(GeneratedLayout { layout_name: name.to_string(), views })
}

#[test]
fn conforming_layout_is_pushed_then_committed() {
    let views = vec![rect(0, 0, 960, 1080), rect(960, 0, 960, 540), rect(960, 540, 960, 540)];
    match demand_reply(9, generated("tile", views.clone()), 3, 1234) {
        Reaction::Send(requests) => assert_eq!(
            requests,
            vec![
                push(9, views[0], 1234),
                push(9, views[1], 1234),
                push(9, views[2], 1234),
                Request::Commit { layout: 9, layout_name: "tile".to_string(), serial: 1234 },
            ]
        ),
        other => panic!("unexpected reaction: {:?}", other),
    }
}

#[test]
fn rectangles_keep_the_generators_order() {
    let views = vec![rect(-5, 7, 1, 2), rect(3, -4, 5, 6)];
    match demand_reply(1, generated("x", views), 2, 0) {
        Reaction::Send(requests) => {
            assert_eq!(requests.len(), 3);
            assert_eq!(requests[0], push(1, rect(-5, 7, 1, 2), 0));
            assert_eq!(requests[1], push(1, rect(3, -4, 5, 6), 0));
        }
        other => panic!("unexpected reaction: {:?}", other),
    }
}

#[test]
fn empty_demand_is_answered_with_a_commit_only() {
    match demand_reply(2, generated("none", vec![]), 0, u32::MAX) {
        Reaction::Send(requests) => assert_eq!(
            requests,
            vec![Request::Commit {
                layout: 2,
                layout_name: "none".to_string(),
                serial: u32::MAX
            }]
        ),
        other => panic!("unexpected reaction: {:?}", other),
    }
}

#[test]
fn too_few_rectangles_end_the_run() {
    let views = vec![rect(0, 0, 1, 1), rect(0, 0, 1, 1)];
    assert!(matches!(
        demand_reply(1, generated("x", views), 3, 5),
        Reaction::Abort(Error::InvalidGeneratedLayout)
    ));
}

#[test]
fn too_many_rectangles_end_the_run() {
    let views = vec![rect(0, 0, 1, 1), rect(0, 0, 1, 1)];
    assert!(matches!(
        demand_reply(1, generated("x", views), 1, 5),
        Reaction::Abort(Error::InvalidGeneratedLayout)
    ));
    assert!(matches!(
        demand_reply(1, generated("x", vec![rect(0, 0, 1, 1)]), 0, 5),
        Reaction::Abort(Error::InvalidGeneratedLayout)
    ));
}

#[test]
fn generator_error_ends_the_run() {
    let failed: Result<GeneratedLayout, String> = Err("no layout".to_string());
    match demand_reply(1, failed, 0, 5) {
        Reaction::Abort(Error::LayoutError(e)) => assert_eq!(e, "no layout"),
        other => panic!("unexpected reaction: {:?}", other),
    }
}

#[test]
fn accepted_command_sends_nothing() {
    let accepted: Result<(), String> = Ok(());
    match command_reply(accepted) {
        Reaction::Send(requests) => assert_eq!(requests, vec![]),
        other => panic!("unexpected reaction: {:?}", other),
    }
}

#[test]
fn refused_command_is_reported() {
    let refused: Result<(), String> = Err("unknown command".to_string());
    match command_reply(refused) {
        Reaction::CommandFailed(e) => assert_eq!(e, "unknown command"),
        other => panic!("unexpected reaction: {:?}", other),
    }
}

use render_core::compass::{turns, Compass, Turn, MAXIMUM_BULLET, SEGMENTS};
use render_core::fixed::Fixed;
use render_core::geometry::{ellipse, rectangle, Direction, Topology};
use render_core::mapper::{Framebuffer, Ndc, Position};
use render_core::render::{
    Color, DeviceStep, DrawCommand, FinishAction, FrameState, Render, RenderError, BULLET_RADIUS,
    RING_RADIUS,
};
use render_core::shader::{fragment_shader, vertex_shader};

fn fixed(value: f64) -> Fixed {
    Fixed { raw: (value * 65536.0).round() as i32 }
}

fn at(x: f64, y: f64) -> Position {
    Position { x: fixed(x), y: fixed(y) }
}

fn number(coordinate: Ndc) -> f64 {
    coordinate.num as f64 / coordinate.den as f64
}

fn direction(turn: &Turn) -> Direction {
    let angle = 2.0 * std::f64::consts::PI * (turn.step as f64) / (turn.steps as f64);
    Direction { cos: fixed(angle.cos()), sin: fixed(angle.sin()) }
}

fn directions(steps: usize) -> Vec<Direction> {
    turns(steps).iter().map(direction).collect()
}

fn compass() -> Compass {
    Compass::new(directions(SEGMENTS), directions(MAXIMUM_BULLET)).unwrap()
}

fn opposite_pair() -> Compass {
    let rim = vec![
        Direction { cos: fixed(1.0), sin: fixed(0.0) },
        Direction { cos: fixed(-1.0), sin: fixed(0.0) },
        Direction { cos: fixed(0.0), sin: fixed(1.0) },
        Direction { cos: fixed(0.0), sin: fixed(-1.0) },
    ];
    Compass::new(rim, directions(MAXIMUM_BULLET)).unwrap()
}

fn same(one: &DrawCommand, other: &DrawCommand) -> bool {
    one.mesh.vertices == other.mesh.vertices
        && one.mesh.indices == other.mesh.indices
        && one.mesh.topology == other.mesh.topology
        && one.vertex_shader == other.vertex_shader
        && one.fragment_shader == other.fragment_shader
}

const SCREEN: Framebuffer = Framebuffer { width: 800, height: 600 };
const RED: Color = Color {
    r: Fixed { raw: 65536 },
    g: Fixed { raw: 0 },
    b: Fixed { raw: 0 },
    alpha: Fixed { raw: 65536 },
};

#[test]
fn turns_divide_the_full_turn_evenly() {
    assert!(turns(0).is_empty());
    let angles = turns(5);
    assert_eq!(angles.len(), 5);
    for (i, turn) in angles.iter().enumerate() {
        assert_eq!(*turn, Turn { step: i, steps: 5 });
    }
    assert_eq!(turns(SEGMENTS).len(), 200);
    assert_eq!(turns(200)[199], Turn { step: 199, steps: 200 });
}

#[test]
fn compass_takes_a_ring_of_the_right_length_only() {
    assert!(Compass::new(directions(200), directions(MAXIMUM_BULLET)).is_some());
    assert!(Compass::new(Vec::new(), directions(MAXIMUM_BULLET)).is_some());
    assert!(Compass::new(directions(200), directions(MAXIMUM_BULLET - 1)).is_none());
    assert!(Compass::new(directions(200), directions(MAXIMUM_BULLET + 1)).is_none());
    assert!(Compass::new(directions(200), Vec::new()).is_none());
}

#[test]
fn compass_hands_back_the_directions_it_was_given() {
    let rim = directions(7);
    let ring = directions(MAXIMUM_BULLET);
    let compass = Compass::new(rim.clone(), ring.clone()).unwrap();
    assert_eq!(*compass.rim_directions(), rim);
    for slot in 0..MAXIMUM_BULLET {
        assert_eq!(compass.ring_direction(slot), ring[slot]);
    }
}

#[test]
fn new_frame_is_drawing() {
    let compass = compass();
    let render = Render::new(&compass);
    assert_eq!(render.frame_state(), FrameState::Drawing);
}

#[test]
fn clear_color_answers_with_the_color() {
    let compass = compass();
    let mut render = Render::new(&compass);
    let answer = render.clear_color(fixed(0.1), fixed(0.2), fixed(-3.0), fixed(1.0));
    assert_eq!(
        answer,
        Ok(Color { r: fixed(0.1), g: fixed(0.2), b: fixed(-3.0), alpha: fixed(1.0) })
    );
    assert_eq!(render.frame_state(), FrameState::Drawing);
}

#[test]
fn finish_presents_the_frame_once() {
    let compass = compass();
    let mut render = Render::new(&compass);
    assert_eq!(render.finish(), FinishAction::Present);
    assert_eq!(render.frame_state(), FrameState::Finished);
}

#[test]
fn finish_twice_is_finish_once() {
    let compass = compass();
    let mut render = Render::new(&compass);
    assert_eq!(render.finish(), FinishAction::Present);
    assert_eq!(render.finish(), FinishAction::Nothing);
    assert_eq!(render.frame_state(), FrameState::Finished);
    assert_eq!(render.finish(), FinishAction::Nothing);
    assert_eq!(render.frame_state(), FrameState::Finished);
}

#[test]
fn finish_after_drawing_still_presents() {
    let compass = compass();
    let mut render = Render::new(&compass);
    assert!(render.draw_rectangle(at(1.0, 2.0), fixed(3.0), RED, SCREEN).is_ok());
    assert!(render.clear_color(fixed(0.0), fixed(0.0), fixed(0.0), fixed(1.0)).is_ok());
    assert_eq!(render.finish(), FinishAction::Present);
}

#[test]
fn clear_after_finish_is_an_illegal_state() {
    let compass = compass();
    let mut render = Render::new(&compass);
    render.finish();
    assert_eq!(
        render.clear_color(fixed(0.0), fixed(0.0), fixed(0.0), fixed(1.0)),
        Err(RenderError::IllegalState)
    );
}

#[test]
fn draw_rectangle_after_finish_is_an_illegal_state() {
    let compass = compass();
    let mut render = Render::new(&compass);
    render.finish();
    let answer = render.draw_rectangle(at(400.0, 300.0), fixed(50.0), RED, SCREEN);
    assert_eq!(answer.unwrap_err(), RenderError::IllegalState);
    assert_eq!(render.frame_state(), FrameState::Finished);
}

#[test]
fn draw_circle_after_finish_is_an_illegal_state() {
    let compass = compass();
    let mut render = Render::new(&compass);
    render.finish();
    let answer = render.draw_circle(at(400.0, 300.0), fixed(50.0), fixed(1.0), fixed(1.0), RED, SCREEN);
    assert_eq!(answer.unwrap_err(), RenderError::IllegalState);
}

#[test]
fn draw_remain_bullet_after_finish_is_an_illegal_state() {
    let compass = compass();
    let mut render = Render::new(&compass);
    render.finish();
    for &count in &[0usize, 1, MAXIMUM_BULLET] {
        let answer = render.draw_remain_bullet(at(400.0, 300.0), count, SCREEN);
        assert_eq!(answer.unwrap_err(), RenderError::IllegalState);
    }
}

#[test]
fn draw_rectangle_gives_the_mesh_and_the_program() {
    let compass = compass();
    let mut render = Render::new(&compass);
    let command = render.draw_rectangle(at(400.0, 300.0), fixed(50.0), RED, SCREEN).unwrap();
    let mesh = rectangle(at(400.0, 300.0), fixed(50.0), SCREEN);
    assert_eq!(command.mesh.vertices, mesh.vertices);
    assert_eq!(command.mesh.indices, vec![0, 1, 2, 1, 3, 2]);
    assert_eq!(command.mesh.topology, Topology::TrianglesList);
    assert_eq!(number(command.mesh.vertices[0].x), -0.125);
    assert!((number(command.mesh.vertices[0].y) - 0.1667).abs() < 1e-4);
    assert_eq!(command.vertex_shader, vertex_shader());
    assert_eq!(
        command.fragment_shader,
        "#version 140\nout vec4 color;\nvoid main() {\n    color = vec4(1.0, 0.0, 0.0, 1.0);\n}\n"
    );
    assert_eq!(render.frame_state(), FrameState::Drawing);
}

#[test]
fn draw_circle_gives_one_vertex_for_each_segment() {
    let compass = compass();
    let mut render = Render::new(&compass);
    for &(radius, a, b) in &[(0.0, 1.0, 1.0), (5.0, 1.0, 1.0), (3000.0, 0.25, 40.0), (-1.0, -1.0, 0.0)] {
        let command = render
            .draw_circle(at(12.0, 34.0), fixed(radius), fixed(a), fixed(b), RED, SCREEN)
            .unwrap();
        assert_eq!(command.mesh.vertices.len(), 200);
        assert!(command.mesh.indices.is_empty());
        assert_eq!(command.mesh.topology, Topology::TriangleFan);
    }
}

#[test]
fn draw_circle_follows_the_length_of_the_rim() {
    for &n in &[0usize, 3, 64] {
        let compass = Compass::new(directions(n), directions(MAXIMUM_BULLET)).unwrap();
        let mut render = Render::new(&compass);
        let command = render
            .draw_circle(at(1.0, 1.0), fixed(2.0), fixed(1.0), fixed(1.0), RED, SCREEN)
            .unwrap();
        assert_eq!(command.mesh.vertices.len(), n);
    }
}

#[test]
fn draw_circle_gives_the_mesh_and_the_program() {
    let compass = compass();
    let mut render = Render::new(&compass);
    let blue = Color { r: fixed(0.0), g: fixed(0.0), b: fixed(1.0), alpha: fixed(0.5) };
    let command = render
        .draw_circle(at(200.0, 150.0), fixed(40.0), fixed(2.0), fixed(0.5), blue, SCREEN)
        .unwrap();
    let mesh = ellipse(at(200.0, 150.0), fixed(40.0), fixed(2.0), fixed(0.5), compass.rim_directions(), SCREEN);
    assert_eq!(command.mesh.vertices, mesh.vertices);
    assert_eq!(command.vertex_shader, vertex_shader());
    assert_eq!(command.fragment_shader, fragment_shader(blue));
    let cube: i128 = 65536 * 65536 * 65536;
    assert_eq!(command.mesh.vertices[0].x, Ndc { num: (2 * 280 - 800) * cube, den: 800 * cube });
    assert_eq!(command.mesh.vertices[0].y, Ndc { num: (2 * 150 - 600) * cube, den: 600 * cube });
    assert_eq!(command.mesh.vertices[50].x, Ndc { num: (2 * 200 - 800) * cube, den: 800 * cube });
    assert_eq!(command.mesh.vertices[50].y, Ndc { num: (2 * 170 - 600) * cube, den: 600 * cube });
    assert!((number(command.mesh.vertices[0].x) - (-0.3)).abs() < 1e-12);
    assert!((number(command.mesh.vertices[50].y) - (170.0 / 300.0 - 1.0)).abs() < 1e-12);
}

#[test]
fn draw_remain_bullet_gives_one_circle_for_each_bullet() {
    let compass = compass();
    let mut render = Render::new(&compass);
    for count in 0..=MAXIMUM_BULLET {
        let commands = render.draw_remain_bullet(at(400.0, 300.0), count, SCREEN).unwrap();
        assert_eq!(commands.len(), count);
        for command in &commands {
            assert_eq!(command.mesh.vertices.len(), 200);
            assert_eq!(command.mesh.topology, Topology::TriangleFan);
            assert_eq!(command.fragment_shader, fragment_shader(RED));
            assert_eq!(command.vertex_shader, vertex_shader());
        }
    }
    assert_eq!(render.frame_state(), FrameState::Drawing);
}

#[test]
fn bullets_sit_on_the_ring_around_the_player() {
    let compass = opposite_pair();
    let mut render = Render::new(&compass);
    let commands = render.draw_remain_bullet(at(400.0, 300.0), MAXIMUM_BULLET, SCREEN).unwrap();
    assert_eq!(RING_RADIUS, 10);
    assert_eq!(BULLET_RADIUS, 10);
    for (i, command) in commands.iter().enumerate() {
        let v = &command.mesh.vertices;
        let x = (number(v[0].x) + number(v[1].x)) / 2.0;
        let y = (number(v[2].y) + number(v[3].y)) / 2.0;
        let px = (x + 1.0) * 400.0;
        let py = (y + 1.0) * 300.0;
        let angle = 2.0 * std::f64::consts::PI * (i as f64) / (MAXIMUM_BULLET as f64);
        assert!((px - (400.0 + 10.0 * angle.cos())).abs() < 1e-3);
        assert!((py - (300.0 + 10.0 * angle.sin())).abs() < 1e-3);
        let width = (number(v[0].x) - number(v[1].x)) * 400.0;
        let height = (number(v[2].y) - number(v[3].y)) * 300.0;
        assert!((width - 20.0).abs() < 1e-9);
        assert!((height - 20.0).abs() < 1e-9);
    }
}

#[test]
fn first_bullet_lies_to_the_right_of_the_player() {
    let compass = opposite_pair();
    let mut render = Render::new(&compass);
    let commands = render.draw_remain_bullet(at(400.0, 300.0), 1, SCREEN).unwrap();
    let cube: i128 = 65536 * 65536 * 65536;
    let v = &commands[0].mesh.vertices;
    assert_eq!(v[0].x, Ndc { num: (2 * 420 - 800) * cube, den: 800 * cube });
    assert_eq!(v[0].y, Ndc { num: 0, den: 600 * cube });
    assert_eq!(v[1].x, Ndc { num: 0, den: 800 * cube });
    assert_eq!(v[2].y, Ndc { num: 20 * cube, den: 600 * cube });
    assert_eq!(v[3].y, Ndc { num: -20 * cube, den: 600 * cube });
}

#[test]
fn bullets_are_spaced_evenly_when_the_ring_is_full() {
    let compass = opposite_pair();
    let mut render = Render::new(&compass);
    let commands = render.draw_remain_bullet(at(0.0, 0.0), MAXIMUM_BULLET, SCREEN).unwrap();
    let angles: Vec<f64> = commands.iter().map(bullet_angle).collect();
    let step = 2.0 * std::f64::consts::PI / (MAXIMUM_BULLET as f64);
    for i in 0..MAXIMUM_BULLET {
        let next = (i + 1) % MAXIMUM_BULLET;
        let gap = (angles[next] - angles[i]).rem_euclid(2.0 * std::f64::consts::PI);
        assert!((gap - step).abs() < 1e-3);
    }
}

#[test]
fn closing_gap_is_wider_when_the_ring_is_not_full() {
    let compass = opposite_pair();
    let mut render = Render::new(&compass);
    let step = 2.0 * std::f64::consts::PI / (MAXIMUM_BULLET as f64);
    for count in 2..MAXIMUM_BULLET {
        let commands = render.draw_remain_bullet(at(0.0, 0.0), count, SCREEN).unwrap();
        let angles: Vec<f64> = commands.iter().map(bullet_angle).collect();
        for i in 0..count - 1 {
            let gap = (angles[i + 1] - angles[i]).rem_euclid(2.0 * std::f64::consts::PI);
            assert!((gap - step).abs() < 1e-3);
        }
        let closing = (angles[0] - angles[count - 1]).rem_euclid(2.0 * std::f64::consts::PI);
        assert!(closing > step + 1e-3);
        let expected = step * ((MAXIMUM_BULLET - count + 1) as f64);
        assert!((closing - expected).abs() < 1e-3);
    }
}

fn bullet_angle(command: &DrawCommand) -> f64 {
    let v = &command.mesh.vertices;
    let x = ((number(v[0].x) + number(v[1].x)) / 2.0 + 1.0) * 400.0;
    let y = ((number(v[2].y) + number(v[3].y)) / 2.0 + 1.0) * 300.0;
    y.atan2(x)
}

#[test]
fn bullets_beyond_the_capacity_go_round_the_ring_again() {
    let compass = compass();
    let mut render = Render::new(&compass);
    let commands = render.draw_remain_bullet(at(50.0, 60.0), 2 * MAXIMUM_BULLET + 1, SCREEN).unwrap();
    assert_eq!(commands.len(), 2 * MAXIMUM_BULLET + 1);
    for i in 0..=MAXIMUM_BULLET {
        assert!(same(&commands[i], &commands[i + MAXIMUM_BULLET]));
    }
    assert!(!same(&commands[0], &commands[1]));
}

#[test]
fn bullets_near_the_edge_of_the_range_do_not_wrap() {
    let compass = opposite_pair();
    let mut render = Render::new(&compass);
    let corner = Position { x: Fixed { raw: i32::MAX }, y: Fixed { raw: i32::MIN } };
    let commands = render.draw_remain_bullet(corner, 1, SCREEN).unwrap();
    let square: i128 = 65536 * 65536;
    let cube: i128 = square * 65536;
    let v = &commands[0].mesh.vertices;
    let cx = (i32::MAX as i128) + 10 * 65536;
    assert_eq!(v[0].x.num, 2 * (cx * square + 10 * cube) - 800 * cube);
    assert_eq!(v[1].x.num, 2 * (cx * square - 10 * cube) - 800 * cube);
    assert_eq!(v[2].y.num, 2 * ((i32::MIN as i128) * square + 10 * cube) - 600 * cube);
}

#[test]
fn each_failed_step_has_its_error() {
    assert_eq!(RenderError::of_failed(DeviceStep::AllocateVertices), RenderError::ResourceAllocation);
    assert_eq!(RenderError::of_failed(DeviceStep::AllocateIndices), RenderError::ResourceAllocation);
    assert_eq!(RenderError::of_failed(DeviceStep::CompileShaders), RenderError::ShaderCompile);
    assert_eq!(RenderError::of_failed(DeviceStep::LinkProgram), RenderError::ShaderLink);
    assert_eq!(RenderError::of_failed(DeviceStep::PresentFrame), RenderError::Present);
}

#[test]
fn failed_draw_leaves_the_frame_drawing() {
    let compass = compass();
    let mut render = Render::new(&compass);
    let _command = render.draw_rectangle(at(1.0, 1.0), fixed(1.0), RED, SCREEN).unwrap();
    let error = RenderError::of_failed(DeviceStep::CompileShaders);
    assert_eq!(error, RenderError::ShaderCompile);
    assert_eq!(render.frame_state(), FrameState::Drawing);
    assert!(render.draw_rectangle(at(1.0, 1.0), fixed(1.0), RED, SCREEN).is_ok());
}

#[test]
fn later_draws_come_after_earlier_ones() {
    let compass = compass();
    let mut render = Render::new(&compass);
    let green = Color { r: fixed(0.0), g: fixed(1.0), b: fixed(0.0), alpha: fixed(1.0) };
    let first = render.draw_rectangle(at(10.0, 10.0), fixed(5.0), RED, SCREEN).unwrap();
    let second = render.draw_rectangle(at(10.0, 10.0), fixed(5.0), green, SCREEN).unwrap();
    assert_eq!(first.mesh.vertices, second.mesh.vertices);
    assert_ne!(first.fragment_shader, second.fragment_shader);
}

#[test]
fn framebuffer_is_taken_anew_for_each_draw() {
    let compass = compass();
    let mut render = Render::new(&compass);
    let before = render.draw_rectangle(at(400.0, 300.0), fixed(50.0), RED, SCREEN).unwrap();
    let after = render
        .draw_rectangle(at(400.0, 300.0), fixed(50.0), RED, Framebuffer { width: 1600, height: 1200 })
        .unwrap();
    assert_eq!(number(before.mesh.vertices[0].x), -0.125);
    assert_eq!(number(after.mesh.vertices[0].x), -0.5625);
}

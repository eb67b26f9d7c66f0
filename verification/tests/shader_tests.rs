use render_harness::event::Command;
use render_harness::window::Window;
use render_harness::shader::{
    BuildReport, BuildStep, ShaderBuild, DeviceCall, LinkReport, ShaderError, ShaderProgram, Stage, StageReport, UniformSlot, NOT_FOUND,
};

fn stage_ok(handle: u32) -> StageReport {
    StageReport { compiled: true, handle, log: String::new() }
}

fn stage_failed(log: &str) -> StageReport {
    StageReport { compiled: false, handle: 0, log: log.to_string() }
}

fn slot(name: &str, location: i32) -> UniformSlot {
    UniformSlot { name: name.to_string(), location }
}

fn link_ok(handle: u32, uniforms: Vec<UniformSlot>) -> LinkReport {
    LinkReport { linked: true, handle, log: String::new(), uniforms }
}

fn link_failed(log: &str) -> LinkReport {
    LinkReport { linked: false, handle: 0, log: log.to_string(), uniforms: Vec::new() }
}

fn lit_program() -> ShaderProgram {
    let uniforms = vec![
        slot("lightColor", 0),
        slot("lightPos", 1),
        slot("model", 2),
        slot("view", 3),
        slot("projection", 4),
    ];
    ShaderProgram::compile(stage_ok(1), stage_ok(2), link_ok(3, uniforms)).unwrap()
}

const ONE: u32 = 0x3f80_0000;

fn identity() -> [u32; 16] {
    [ONE, 0, 0, 0, 0, ONE, 0, 0, 0, 0, ONE, 0, 0, 0, 0, ONE]
}

#[test]
fn compile_succeeds_when_every_step_did() {
    let p = lit_program();
    assert_eq!(p.handle(), 3);
    assert_eq!(p.use_program(), DeviceCall::UseProgram { program: 3 });
}

#[test]
fn compile_reports_a_failed_vertex_stage() {
    let r = ShaderProgram::compile(
        stage_failed("0:1(1): error: syntax error"),
        stage_ok(2),
        link_ok(3, Vec::new()),
    );
    let e = r.unwrap_err();
    assert_eq!(
        e,
        ShaderError::Compile { stage: Stage::Vertex, log: "0:1(1): error: syntax error".to_string() }
    );
    assert_eq!(
        e.message(),
        "error: vertex stage failed to compile: 0:1(1): error: syntax error"
    );
}

#[test]
fn compile_reports_a_failed_fragment_stage() {
    let r = ShaderProgram::compile(stage_ok(1), stage_failed("bad token"), link_ok(3, Vec::new()));
    let e = r.unwrap_err();
    assert_eq!(e, ShaderError::Compile { stage: Stage::Fragment, log: "bad token".to_string() });
    assert_eq!(e.message(), "error: fragment stage failed to compile: bad token");
}

#[test]
fn compile_reports_a_failed_link() {
    let r = ShaderProgram::compile(stage_ok(1), stage_ok(2), link_failed("unresolved varying"));
    let e = r.unwrap_err();
    assert_eq!(e, ShaderError::Link { log: "unresolved varying".to_string() });
    assert_eq!(e.message(), "error: program failed to link: unresolved varying");
}

#[test]
fn compile_reports_the_first_failure() {
    let r = ShaderProgram::compile(stage_failed("v"), stage_failed("f"), link_failed("l"));
    assert_eq!(
        r.unwrap_err(),
        ShaderError::Compile { stage: Stage::Vertex, log: "v".to_string() }
    );
    let r = ShaderProgram::compile(stage_ok(1), stage_failed("f"), link_failed("l"));
    assert_eq!(
        r.unwrap_err(),
        ShaderError::Compile { stage: Stage::Fragment, log: "f".to_string() }
    );
}

#[test]
fn message_is_never_empty_and_names_the_error() {
    let errors = vec![
        ShaderError::Compile { stage: Stage::Vertex, log: String::new() },
        ShaderError::Compile { stage: Stage::Fragment, log: String::new() },
        ShaderError::Link { log: String::new() },
        ShaderError::Link { log: "x".to_string() },
    ];
    for e in errors {
        let m = e.message();
        assert!(m.len() > 5);
        assert!(m.starts_with("error"));
        assert!(m.contains("error"));
    }
}

#[test]
fn check_stage_returns_the_handle() {
    assert_eq!(ShaderProgram::check_stage(Stage::Vertex, stage_ok(17)), Ok(17));
    assert_eq!(ShaderProgram::check_stage(Stage::Fragment, stage_ok(18)), Ok(18));
}

#[test]
fn check_stage_returns_the_log() {
    assert_eq!(
        ShaderProgram::check_stage(Stage::Fragment, stage_failed("oops")),
        Err(ShaderError::Compile { stage: Stage::Fragment, log: "oops".to_string() })
    );
    assert_eq!(
        ShaderProgram::check_stage(Stage::Vertex, stage_failed("")),
        Err(ShaderError::Compile { stage: Stage::Vertex, log: String::new() })
    );
}

#[test]
fn check_link_keeps_handle_and_uniforms() {
    let p = ShaderProgram::check_link(link_ok(9, vec![slot("a", 4)])).unwrap();
    assert_eq!(p.handle(), 9);
    assert_eq!(p.location("a"), 4);
}

#[test]
fn check_link_returns_the_log() {
    let e = ShaderProgram::check_link(link_failed("no main")).unwrap_err();
    assert_eq!(e, ShaderError::Link { log: "no main".to_string() });
}

#[test]
fn location_of_each_uniform() {
    let p = lit_program();
    assert_eq!(p.location("lightColor"), 0);
    assert_eq!(p.location("lightPos"), 1);
    assert_eq!(p.location("model"), 2);
    assert_eq!(p.location("view"), 3);
    assert_eq!(p.location("projection"), 4);
}

#[test]
fn location_of_unknown_name_is_not_found() {
    let p = lit_program();
    assert_eq!(NOT_FOUND, -1);
    assert_eq!(p.location("missing"), NOT_FOUND);
    assert_eq!(p.location(""), NOT_FOUND);
    assert_eq!(p.location("Model"), NOT_FOUND);
    assert_eq!(p.location("mode"), NOT_FOUND);
}

#[test]
fn location_skips_slots_without_a_location() {
    let uniforms = vec![slot("block", -1), slot("block", 6), slot("gone", -1)];
    let p = ShaderProgram::check_link(link_ok(1, uniforms)).unwrap();
    assert_eq!(p.location("block"), 6);
    assert_eq!(p.location("gone"), NOT_FOUND);
}

#[test]
fn location_takes_the_first_of_equal_names() {
    let uniforms = vec![slot("a", 2), slot("a", 5)];
    let p = ShaderProgram::check_link(link_ok(1, uniforms)).unwrap();
    assert_eq!(p.location("a"), 2);
}

#[test]
fn program_without_uniforms_resolves_nothing() {
    let p = ShaderProgram::check_link(link_ok(1, Vec::new())).unwrap();
    assert_eq!(p.location("model"), NOT_FOUND);
}

#[test]
fn set_vec3_writes_the_components() {
    let p = lit_program();
    let (x, y, z) = (0.0f32.to_bits(), 1.0f32.to_bits(), 2.0f32.to_bits());
    assert_eq!(
        p.set_vec3("lightPos", x, y, z),
        DeviceCall::WriteVec3 { location: 1, x: 0, y: ONE, z: 0x4000_0000 }
    );
}

#[test]
fn set_vec3_on_unknown_name_goes_nowhere() {
    let p = lit_program();
    assert_eq!(
        p.set_vec3("absent", 1, 2, 3),
        DeviceCall::WriteVec3 { location: NOT_FOUND, x: 1, y: 2, z: 3 }
    );
    assert_eq!(p.location("lightColor"), 0);
    assert_eq!(p.location("lightPos"), 1);
}

#[test]
fn set_mat4_on_unknown_name_goes_nowhere() {
    let p = lit_program();
    assert_eq!(
        p.set_mat4("absent", identity()),
        DeviceCall::WriteMat4 { location: NOT_FOUND, values: identity() }
    );
    for name in ["lightColor", "lightPos", "model", "view", "projection"] {
        assert_ne!(p.location(name), NOT_FOUND);
    }
}

#[test]
fn set_mat4_carries_identity_bit_for_bit() {
    let p = lit_program();
    let call = p.set_mat4("model", identity());
    match call {
        DeviceCall::WriteMat4 { location, values } => {
            assert_eq!(location, 2);
            for (i, bits) in values.iter().enumerate() {
                let expected: f32 = if i % 5 == 0 { 1.0 } else { 0.0 };
                assert_eq!(*bits, expected.to_bits());
                assert_eq!(f32::from_bits(*bits), expected);
            }
        }
        _ => panic!("not a matrix write"),
    }
}

#[test]
fn set_mat4_keeps_the_order_of_components() {
    let p = lit_program();
    let mut values = [0u32; 16];
    for (i, v) in values.iter_mut().enumerate() {
        *v = 100 + i as u32;
    }
    assert_eq!(
        p.set_mat4("projection", values),
        DeviceCall::WriteMat4 {
            location: 4,
            values: [
                100, 101, 102, 103, 104, 105, 106, 107, 108, 109, 110, 111, 112, 113, 114, 115
            ],
        }
    );
}

#[test]
fn pass_through_pair_then_one_idle_iteration() {
    let mut w = Window::new("test", 640, 480).unwrap();
    let p = ShaderProgram::compile(stage_ok(1), stage_ok(2), link_ok(3, Vec::new())).unwrap();
    assert_eq!(p.use_program(), DeviceCall::UseProgram { program: 3 });
    let commands = w.render_loop(&vec![vec![]]);
    assert!(!w.should_close());
    assert_eq!(commands.iter().filter(|c| **c == Command::SwapBuffers).count(), 1);
}

#[test]
fn release_gives_the_delete_call() {
    let p = lit_program();
    assert_eq!(p.release(), DeviceCall::DeleteProgram { program: 3 });
}

#[test]
fn build_asks_for_vertex_fragment_link_in_order() {
    let build = ShaderBuild::start();
    assert_eq!(build.next_step(), BuildStep::CompileStage { stage: Stage::Vertex });
    let build = build.advance(BuildReport::Stage(stage_ok(11)));
    assert_eq!(build.next_step(), BuildStep::CompileStage { stage: Stage::Fragment });
    let build = build.advance(BuildReport::Stage(stage_ok(12)));
    assert_eq!(build.next_step(), BuildStep::Link { vertex: 11, fragment: 12 });
    let build = build.advance(BuildReport::Link(link_ok(13, vec![slot("model", 0)])));
    assert_eq!(build.next_step(), BuildStep::Finished);
    let p = build.finish().unwrap().unwrap();
    assert_eq!(p.handle(), 13);
    assert_eq!(p.location("model"), 0);
}

#[test]
fn build_fails_on_a_bad_vertex_stage() {
    let build = ShaderBuild::start().advance(BuildReport::Stage(stage_failed("bad vertex")));
    assert_eq!(build.next_step(), BuildStep::Finished);
    let build = build
        .advance(BuildReport::Stage(stage_ok(2)))
        .advance(BuildReport::Link(link_ok(3, Vec::new())));
    assert_eq!(build.next_step(), BuildStep::Finished);
    assert_eq!(
        build.finish().unwrap().unwrap_err(),
        ShaderError::Compile { stage: Stage::Vertex, log: "bad vertex".to_string() }
    );
}

#[test]
fn build_fails_on_a_bad_fragment_stage() {
    let build = ShaderBuild::start()
        .advance(BuildReport::Stage(stage_ok(1)))
        .advance(BuildReport::Stage(stage_failed("bad fragment")));
    assert_eq!(build.next_step(), BuildStep::Finished);
    let e = build.finish().unwrap().unwrap_err();
    assert_eq!(e, ShaderError::Compile { stage: Stage::Fragment, log: "bad fragment".to_string() });
    assert!(e.message().contains("error"));
    assert!(e.message().ends_with("bad fragment"));
}

#[test]
fn build_fails_on_a_bad_link() {
    let build = ShaderBuild::start()
        .advance(BuildReport::Stage(stage_ok(1)))
        .advance(BuildReport::Stage(stage_ok(2)))
        .advance(BuildReport::Link(link_failed("bad link")));
    assert_eq!(build.next_step(), BuildStep::Finished);
    assert_eq!(
        build.finish().unwrap().unwrap_err(),
        ShaderError::Link { log: "bad link".to_string() }
    );
}

#[test]
fn build_ignores_a_report_it_did_not_ask_for() {
    let build = ShaderBuild::start().advance(BuildReport::Link(link_ok(3, Vec::new())));
    assert_eq!(build.next_step(), BuildStep::CompileStage { stage: Stage::Vertex });
    let build = build.advance(BuildReport::Stage(stage_ok(1)));
    let build = build.advance(BuildReport::Link(link_failed("early")));
    assert_eq!(build.next_step(), BuildStep::CompileStage { stage: Stage::Fragment });
    let build = build.advance(BuildReport::Stage(stage_ok(2)));
    let build = build.advance(BuildReport::Stage(stage_failed("late")));
    assert_eq!(build.next_step(), BuildStep::Link { vertex: 1, fragment: 2 });
}

#[test]
fn finished_build_keeps_its_program() {
    let build = ShaderBuild::start()
        .advance(BuildReport::Stage(stage_ok(1)))
        .advance(BuildReport::Stage(stage_ok(2)))
        .advance(BuildReport::Link(link_ok(7, Vec::new())))
        .advance(BuildReport::Link(link_failed("again")))
        .advance(BuildReport::Stage(stage_failed("again")));
    assert_eq!(build.finish().unwrap().unwrap().handle(), 7);
}

#[test]
fn unfinished_build_has_no_outcome() {
    assert!(ShaderBuild::start().finish().is_none());
    let build = ShaderBuild::start().advance(BuildReport::Stage(stage_ok(1)));
    assert!(build.finish().is_none());
    let build = ShaderBuild::start()
        .advance(BuildReport::Stage(stage_ok(1)))
        .advance(BuildReport::Stage(stage_ok(2)));
    assert!(build.finish().is_none());
}

#[test]
fn build_and_compile_agree() {
    for (v, f, l) in [(true, true, true), (false, true, true), (true, false, true), (true, true, false), (false, false, false)] {
        let vertex = StageReport { compiled: v, handle: 1, log: "v".to_string() };
        let fragment = StageReport { compiled: f, handle: 2, log: "f".to_string() };
        let link = LinkReport { linked: l, handle: 3, log: "l".to_string(), uniforms: vec![slot("a", 1)] };
        let stepwise = ShaderBuild::start()
            .advance(BuildReport::Stage(vertex.clone()))
            .advance(BuildReport::Stage(fragment.clone()))
            .advance(BuildReport::Link(link.clone()))
            .finish()
            .unwrap();
        let direct = ShaderProgram::compile(vertex, fragment, link);
        match (stepwise, direct) {
            (Ok(a), Ok(b)) => {
                assert_eq!(a.handle(), b.handle());
                assert_eq!(a.location("a"), b.location("a"));
            }
            (Err(a), Err(b)) => assert_eq!(a, b),
            _ => panic!("the two builds disagree"),
        }
    }
}

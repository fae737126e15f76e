use gl_triangle::config::{
    source_path, window_title, CONTEXT_MAJOR, CONTEXT_MINOR, WINDOW_HEIGHT, WINDOW_WIDTH,
};
use gl_triangle::diagnostic::{log_text_len, read_log, succeeded, trim_log, STATUS_TRUE};
use gl_triangle::failure::Failure;
use gl_triangle::geometry::{
    AttributeLayout, Triangle, Vertex, COORDS_PER_VERTEX, COORD_BYTES, HALF, NEG_HALF,
    POSITION_SLOT, VERTEX_COUNT, ZERO,
};
use gl_triangle::handles::Stage;
use gl_triangle::input::{InputEvent, Key, KeyAction, LoopState};

#[test]
fn only_the_true_flag_is_success() {
    assert!(succeeded(1));
    assert!(succeeded(STATUS_TRUE));
    assert!(!succeeded(0));
    assert!(!succeeded(-1));
    assert!(!succeeded(2));
}

#[test]
fn the_status_flag_is_the_device_constant() {
    assert_eq!(STATUS_TRUE, gl::TRUE as i32);
    assert_ne!(STATUS_TRUE, gl::FALSE as i32);
}

#[test]
fn the_text_of_a_log_is_one_byte_shorter_than_reported() {
    assert_eq!(log_text_len(1), 0);
    assert_eq!(log_text_len(2), 1);
    assert_eq!(log_text_len(120), 119);
    assert_eq!(log_text_len(i32::MAX), i32::MAX as usize - 1);
}

#[test]
fn a_log_that_is_not_reported_has_no_text() {
    assert_eq!(log_text_len(0), 0);
    assert_eq!(log_text_len(-1), 0);
    assert_eq!(log_text_len(i32::MIN), 0);
}

#[test]
fn trimming_drops_the_terminator_and_what_follows() {
    assert_eq!(trim_log(vec![b'a', b'b', 0], 3), vec![b'a', b'b']);
    assert_eq!(trim_log(vec![b'a', b'b', 0, 9, 9], 3), vec![b'a', b'b']);
    assert_eq!(trim_log(vec![b'a', b'b', 0], 1), Vec::<u8>::new());
    assert_eq!(trim_log(vec![b'a', b'b', 0], 0), Vec::<u8>::new());
    assert_eq!(trim_log(vec![], 5), Vec::<u8>::new());
}

#[test]
fn trimming_keeps_a_buffer_that_is_shorter_than_reported() {
    assert_eq!(trim_log(vec![b'a', b'b'], 10), vec![b'a', b'b']);
    assert_eq!(trim_log(vec![b'a', b'b'], 3), vec![b'a', b'b']);
}

#[test]
fn a_log_of_text_is_decoded() {
    assert_eq!(read_log(b"error\0".to_vec(), 6), Some("error".to_string()));
    let accented = "gr\u{fc}n \u{2713}\0".as_bytes().to_vec();
    assert_eq!(accented.len(), 10);
    assert_eq!(read_log(accented, 10), Some("gr\u{fc}n \u{2713}".to_string()));
    assert_eq!(read_log(vec![0], 1), Some(String::new()));
    assert_eq!(read_log(vec![], 0), Some(String::new()));
}

#[test]
fn a_log_that_is_not_utf8_is_refused() {
    assert_eq!(read_log(vec![0xff, 0], 2), None);
    assert_eq!(read_log(vec![0xc0, 0x80, 0], 3), None);
    assert_eq!(read_log(vec![0xed, 0xa0, 0x80, 0], 4), None);
    assert_eq!(read_log(vec![0xe2, 0x9c, 0x93, 0], 3), None);
}

#[test]
fn the_triangle_has_the_fixed_coordinates() {
    let t = Triangle::fixed();
    let vertex = |v: Vertex| (f32::from_bits(v.x), f32::from_bits(v.y), f32::from_bits(v.z));
    assert_eq!(vertex(t.a), (0.0, 0.5, 0.0));
    assert_eq!(vertex(t.b), (-0.5, -0.5, 0.0));
    assert_eq!(vertex(t.c), (0.5, -0.5, 0.0));
}

#[test]
fn the_bit_patterns_are_those_of_the_floats() {
    assert_eq!(ZERO, 0.0f32.to_bits());
    assert_eq!(HALF, 0.5f32.to_bits());
    assert_eq!(NEG_HALF, (-0.5f32).to_bits());
}

#[test]
fn the_buffer_holds_nine_floats_in_order() {
    let words = Triangle::fixed().to_words();
    let floats: Vec<f32> = words.iter().map(|w| f32::from_bits(*w)).collect();
    assert_eq!(floats, vec![0.0, 0.5, 0.0, -0.5, -0.5, 0.0, 0.5, -0.5, 0.0]);
    assert_eq!(words, vec![0, 0x3F00_0000, 0, 0xBF00_0000, 0xBF00_0000, 0, 0x3F00_0000, 0xBF00_0000, 0]);
}

#[test]
fn uploading_twice_gives_the_same_bits() {
    assert_eq!(Triangle::fixed().to_words(), Triangle::fixed().to_words());
    assert_eq!(Triangle::fixed(), Triangle::fixed());
}

#[test]
fn words_follow_the_order_of_the_vertices() {
    let t = Triangle {
        a: Vertex { x: 1, y: 2, z: 3 },
        b: Vertex { x: 4, y: 5, z: 6 },
        c: Vertex { x: 7, y: 8, z: 9 },
    };
    assert_eq!(t.to_words(), vec![1, 2, 3, 4, 5, 6, 7, 8, 9]);
}

#[test]
fn the_upload_is_thirty_six_bytes() {
    let t = Triangle::fixed();
    assert_eq!(t.upload_len(), 36);
    assert_eq!(t.upload_len(), t.to_words().len() * std::mem::size_of::<f32>());
    assert_eq!(COORD_BYTES, std::mem::size_of::<f32>());
    assert_eq!((VERTEX_COUNT, COORDS_PER_VERTEX), (3, 3));
}

#[test]
fn positions_are_tightly_packed_in_slot_zero() {
    let layout = AttributeLayout::position();
    assert_eq!(layout, AttributeLayout { slot: 0, components: 3, stride: 12, offset: 0 });
    assert_eq!(layout.slot, POSITION_SLOT);
    assert_eq!(layout.stride as usize, 3 * std::mem::size_of::<f32>());
}

#[test]
fn escape_pressed_closes_the_loop() {
    let press = InputEvent::Key { key: Key::Escape, action: KeyAction::Press };
    assert!(press.is_closing());
    assert_eq!(LoopState::Running.on_event(press), LoopState::Closing);
    assert_eq!(LoopState::Closing.on_event(press), LoopState::Closing);
}

#[test]
fn a_close_request_closes_the_loop() {
    assert!(InputEvent::CloseRequested.is_closing());
    assert_eq!(LoopState::Running.on_event(InputEvent::CloseRequested), LoopState::Closing);
}

#[test]
fn no_other_event_changes_the_state() {
    let others = [
        InputEvent::Key { key: Key::Escape, action: KeyAction::Release },
        InputEvent::Key { key: Key::Escape, action: KeyAction::Repeat },
        InputEvent::Key { key: Key::Other, action: KeyAction::Press },
        InputEvent::Key { key: Key::Other, action: KeyAction::Release },
        InputEvent::Key { key: Key::Other, action: KeyAction::Repeat },
        InputEvent::Other,
    ];
    for event in others {
        assert!(!event.is_closing());
        assert_eq!(LoopState::Running.on_event(event), LoopState::Running);
        assert_eq!(LoopState::Closing.on_event(event), LoopState::Closing);
    }
}

#[test]
fn draining_looks_at_every_event() {
    let press = InputEvent::Key { key: Key::Escape, action: KeyAction::Press };
    let other = InputEvent::Key { key: Key::Other, action: KeyAction::Press };
    assert_eq!(LoopState::Running.drain(&vec![]), LoopState::Running);
    assert_eq!(LoopState::Running.drain(&vec![other, other]), LoopState::Running);
    assert_eq!(LoopState::Running.drain(&vec![press]), LoopState::Closing);
    assert_eq!(LoopState::Running.drain(&vec![other, press, other]), LoopState::Closing);
    assert_eq!(LoopState::Running.drain(&vec![other, other, press]), LoopState::Closing);
    assert_eq!(LoopState::Running.drain(&vec![press, press]), LoopState::Closing);
}

#[test]
fn closing_is_never_left() {
    let other = InputEvent::Key { key: Key::Other, action: KeyAction::Press };
    assert_eq!(LoopState::Closing.drain(&vec![]), LoopState::Closing);
    assert_eq!(LoopState::Closing.drain(&vec![other, InputEvent::Other]), LoopState::Closing);
}

#[test]
fn the_window_is_800_by_600_with_its_title() {
    assert_eq!((WINDOW_WIDTH, WINDOW_HEIGHT), (800, 600));
    assert_eq!(window_title(), "OpenGL Triangle");
    assert_eq!((CONTEXT_MAJOR, CONTEXT_MINOR), (3, 3));
}

#[test]
fn each_stage_has_its_source_file() {
    assert_eq!(source_path(Stage::Vertex), "shaders/vertex_shader.glsl");
    assert_eq!(source_path(Stage::Fragment), "shaders/fragment_shader.glsl");
}

#[test]
fn each_failure_has_its_message() {
    assert_eq!(Failure::WindowingInit.message(), "Failed to initialize GLFW.");
    assert_eq!(Failure::WindowCreation.message(), "Failed to create GLFW window.");
    assert_eq!(Failure::SourceOpen { stage: Stage::Vertex }.message(), "Failed to open shader file");
    assert_eq!(Failure::SourceRead { stage: Stage::Fragment }.message(), "Failed to read shader file");
    assert_eq!(
        Failure::Compile { stage: Stage::Vertex, log: "line 3: oops".to_string() }.message(),
        "line 3: oops"
    );
    assert_eq!(
        Failure::ShaderLogNotText { stage: Stage::Fragment }.message(),
        "ShaderInfoLog not valid utf8"
    );
    assert_eq!(Failure::Link { log: "unresolved".to_string() }.message(), "unresolved");
    assert_eq!(Failure::ProgramLogNotText.message(), "ProgramInfoLog not valid utf8");
    assert_eq!(Failure::UnexpectedReply.message(), "Unexpected reply to a device call");
}

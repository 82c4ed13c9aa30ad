use glium::program::ShaderType;
use glium::ProgramCreationError;
use visrs::bundle::{CompileRequest, ShaderBundle, ShaderRole, SourceProbe, TrackedSource};
use visrs::frame::ProgramState;
use visrs::reloader::{activate, poll_and_apply, ReloadOutcome, StartupError};
use visrs::watcher::Watcher;

#[derive(Debug, PartialEq)]
struct Compiled {
    vertex: String,
    fragment: String,
}

fn compile(request: CompileRequest) -> Result<Compiled, ProgramCreationError> {
    if request.fragment.contains("gl_FragColour") {
        Err(ProgramCreationError::CompilationError(
            "0:1: 'gl_FragColour' : undeclared identifier".to_string(),
            ShaderType::Fragment,
        ))
    } else {
        Ok(Compiled { vertex: request.vertex, fragment: request.fragment })
    }
}

fn opened(modified: u64, text: &str) -> SourceProbe {
    SourceProbe::Opened { modified, content: Some(text.to_string()) }
}

const VERTEX: &str = "void main() { gl_Position = vec4(0.0); }";
const FRAGMENT: &str = "void main() { gl_FragColor = vec4(1.0); }";
const BROKEN: &str = "void main() { gl_FragColour = vec4(1.0); }";
const FIXED: &str = "void main() { gl_FragColor = vec4(0.5); }";

#[test]
fn edit_break_and_fix_a_fragment_shader() {
    let mut watcher = Watcher::new(vec![
        TrackedSource::new("a.vert".to_string(), ShaderRole::Vertex),
        TrackedSource::new("a.frag".to_string(), ShaderRole::Fragment),
    ]);
    let mut channel: Vec<ShaderBundle> = vec![];

    // Cycle 1: both files readable, both new to the watcher.
    let sent = watcher.scan(&vec![opened(100, VERTEX), opened(100, FRAGMENT)]);
    let first = sent.expect("the first cycle sends a bundle");
    assert_eq!(first.vertex, Some(VERTEX.to_string()));
    assert_eq!(first.fragment, Some(FRAGMENT.to_string()));
    let mut active = activate(first, compile).expect("the first bundle compiles");
    assert_eq!(active, Compiled { vertex: VERTEX.to_string(), fragment: FRAGMENT.to_string() });
    let state = ProgramState::after_startup(true);
    assert!(state.shall_continue);

    // A frame with nothing new.
    assert_eq!(poll_and_apply(&mut channel, &mut active, compile), ReloadOutcome::Unchanged);

    // Cycle 2: the fragment shader is saved with a mistake in it.
    let sent = watcher.scan(&vec![opened(100, VERTEX), opened(105, BROKEN)]);
    assert_eq!(
        sent,
        Some(ShaderBundle {
            vertex: Some(VERTEX.to_string()),
            fragment: Some(BROKEN.to_string()),
            geometry: None,
        })
    );
    channel.push(sent.unwrap());
    let outcome = poll_and_apply(&mut channel, &mut active, compile);
    assert_eq!(
        outcome,
        ReloadOutcome::Failed(
            "Compilation error in fragment shader: 0:1: 'gl_FragColour' : undeclared identifier"
                .to_string()
        )
    );
    assert_eq!(active, Compiled { vertex: VERTEX.to_string(), fragment: FRAGMENT.to_string() });

    // Nothing is saved for a while: no bundle, no reload.
    assert_eq!(watcher.scan(&vec![opened(100, VERTEX), opened(105, BROKEN)]), None);
    assert_eq!(poll_and_apply(&mut channel, &mut active, compile), ReloadOutcome::Unchanged);

    // Cycle 3: the mistake is corrected.
    let sent = watcher.scan(&vec![opened(100, VERTEX), opened(110, FIXED)]);
    assert_eq!(
        sent,
        Some(ShaderBundle {
            vertex: Some(VERTEX.to_string()),
            fragment: Some(FIXED.to_string()),
            geometry: None,
        })
    );
    channel.push(sent.unwrap());
    assert_eq!(poll_and_apply(&mut channel, &mut active, compile), ReloadOutcome::Reloaded);
    assert_eq!(active, Compiled { vertex: VERTEX.to_string(), fragment: FIXED.to_string() });
}

#[test]
fn several_saves_between_two_frames_compile_once() {
    let mut watcher = Watcher::new(vec![
        TrackedSource::new("a.vert".to_string(), ShaderRole::Vertex),
        TrackedSource::new("a.frag".to_string(), ShaderRole::Fragment),
    ]);
    let mut channel: Vec<ShaderBundle> = vec![];
    for (time, text) in [(100, FRAGMENT), (101, BROKEN), (102, FIXED)] {
        if let Some(bundle) = watcher.scan(&vec![opened(100, VERTEX), opened(time, text)]) {
            channel.push(bundle);
        }
    }
    assert_eq!(channel.len(), 3);
    let mut active = Compiled { vertex: String::new(), fragment: String::new() };
    let mut compiled = 0;
    let outcome = poll_and_apply(&mut channel, &mut active, |request| {
        compiled += 1;
        compile(request)
    });
    assert_eq!(outcome, ReloadOutcome::Reloaded);
    assert_eq!(compiled, 1);
    assert_eq!(active, Compiled { vertex: VERTEX.to_string(), fragment: FIXED.to_string() });
    assert_eq!(poll_and_apply(&mut channel, &mut active, compile), ReloadOutcome::Unchanged);
}

#[test]
fn broken_first_bundle_means_no_frame() {
    let mut watcher = Watcher::new(vec![
        TrackedSource::new("a.vert".to_string(), ShaderRole::Vertex),
        TrackedSource::new("a.frag".to_string(), ShaderRole::Fragment),
    ]);
    let first = watcher.scan(&vec![opened(100, VERTEX), opened(100, BROKEN)]).unwrap();
    let started = activate(first, compile);
    assert_eq!(
        started,
        Err(StartupError::Compile(
            "Compilation error in fragment shader: 0:1: 'gl_FragColour' : undeclared identifier"
                .to_string()
        ))
    );
    let state = ProgramState::after_startup(started.is_ok());
    assert!(!state.shall_continue);
}

#[test]
fn unreadable_fragment_shader_holds_the_reload_back() {
    let mut watcher = Watcher::new(vec![
        TrackedSource::new("a.vert".to_string(), ShaderRole::Vertex),
        TrackedSource::new("a.frag".to_string(), ShaderRole::Fragment),
    ]);
    let mut active = activate(
        watcher.scan(&vec![opened(100, VERTEX), opened(100, FRAGMENT)]).unwrap(),
        compile,
    )
    .unwrap();
    let mut channel: Vec<ShaderBundle> = vec![];
    let sent = watcher.scan(&vec![opened(120, VERTEX), SourceProbe::Unavailable]);
    assert_eq!(
        sent,
        Some(ShaderBundle { vertex: Some(VERTEX.to_string()), fragment: None, geometry: None })
    );
    channel.push(sent.unwrap());
    assert_eq!(poll_and_apply(&mut channel, &mut active, compile), ReloadOutcome::Unchanged);
    assert_eq!(active, Compiled { vertex: VERTEX.to_string(), fragment: FRAGMENT.to_string() });
}

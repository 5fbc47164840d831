use soulstas::actions::TasActionType;
use soulstas::scheduler::{Command, Event, Scheduler, StatusQuery};
use soulstas::script::build_script;

fn lines(v: &[&str]) -> Vec<String> {
    v.iter().map(|s| s.to_string()).collect()
}

#[test]
fn end_to_end_with_stub_target() {
    let script =
        build_script(&lines(&["0 nothing", "10 fps 30", "20 await no_cutscene", "30 frame 5"]))
            .unwrap();
    let mut s = Scheduler::new(script);
    let mut ev = Event::Done;
    let mut begun: Vec<u32> = Vec::new();
    let mut performed: Vec<(u64, String)> = Vec::new();
    let mut fps_set: Vec<(u64, String)> = Vec::new();
    let mut cutscene_queries = 0u32;
    let mut advances_in_await = 0u32;
    let mut end_frames = 0u32;
    for _ in 0..10_000 {
        let cmd = s.step(ev);
        ev = Event::Done;
        match cmd {
            Command::ScriptStart => {}
            Command::BeginFrame { frame } => {
                if begun.last() == Some(&30) {
                    begun.push(frame);
                    break;
                }
                begun.push(frame);
            }
            Command::Perform { index } => {
                let frame = s.current_frame();
                match &s.script.actions[index].action {
                    TasActionType::Nothing => performed.push((frame, "nothing".to_string())),
                    TasActionType::Fps { fps } => fps_set.push((frame, fps.clone())),
                    TasActionType::Frame { frame: f } => {
                        performed.push((frame, format!("frame {}", f)))
                    }
                    _ => panic!("unexpected action"),
                }
            }
            Command::Query { query } => {
                assert_eq!(query, StatusQuery::InCutscene);
                assert_eq!(s.current_frame(), 20);
                cutscene_queries += 1;
                // The stub's cutscene ends after three released ticks.
                ev = Event::Status(cutscene_queries <= 3);
            }
            Command::AdvanceAndWait => advances_in_await += 1,
            Command::EndFrame => end_frames += 1,
            Command::ScriptEnd | Command::Finished => panic!("run ended early"),
        }
    }
    let expected: Vec<u32> = (0..=30).chain(std::iter::once(5)).collect();
    assert_eq!(begun, expected);
    assert_eq!(performed, vec![(0, "nothing".to_string()), (30, "frame 5".to_string())]);
    assert_eq!(fps_set, vec![(10, "30".to_string())]);
    assert_eq!(cutscene_queries, 4);
    assert_eq!(advances_in_await, 3);
    assert_eq!(end_frames, 31);
}

#[test]
fn run_ends_once_after_last_frame() {
    let script = build_script(&lines(&["0 nothing", "2 nothing"])).unwrap();
    let mut s = Scheduler::new(script);
    let mut cmds: Vec<Command> = Vec::new();
    for _ in 0..20 {
        cmds.push(s.step(Event::Done));
    }
    let begins: Vec<Command> =
        cmds.iter().copied().filter(|c| matches!(c, Command::BeginFrame { .. })).collect();
    assert_eq!(
        begins,
        vec![
            Command::BeginFrame { frame: 0 },
            Command::BeginFrame { frame: 1 },
            Command::BeginFrame { frame: 2 }
        ]
    );
    assert_eq!(cmds[0], Command::ScriptStart);
    assert_eq!(cmds.iter().filter(|c| **c == Command::ScriptEnd).count(), 1);
    assert_eq!(*cmds.last().unwrap(), Command::Finished);
    let end = cmds.iter().position(|c| *c == Command::ScriptEnd).unwrap();
    assert!(cmds[end + 1..].iter().all(|c| *c == Command::Finished));
}

#[test]
fn actions_of_a_frame_run_in_script_order() {
    let script = build_script(&lines(&["1 pause ms 3", "0 nothing", "1 pause input"])).unwrap();
    let mut s = Scheduler::new(script);
    let mut order: Vec<(u64, usize)> = Vec::new();
    loop {
        match s.step(Event::Done) {
            Command::Perform { index } => order.push((s.current_frame(), index)),
            Command::Finished => break,
            _ => {}
        }
    }
    assert_eq!(order, vec![(0, 1), (1, 0), (1, 2)]);
}

#[test]
fn await_focus_and_control_read_the_right_status() {
    let script = build_script(&lines(&["0 await focus", "0 await no_control"])).unwrap();
    let mut s = Scheduler::new(script);
    assert_eq!(s.step(Event::Done), Command::ScriptStart);
    assert_eq!(s.step(Event::Done), Command::BeginFrame { frame: 0 });
    assert_eq!(s.step(Event::Done), Command::Query { query: StatusQuery::WindowFocused });
    assert_eq!(s.step(Event::Status(false)), Command::AdvanceAndWait);
    assert_eq!(s.step(Event::Done), Command::Query { query: StatusQuery::WindowFocused });
    assert_eq!(s.step(Event::Status(true)), Command::Query { query: StatusQuery::HasControl });
    assert_eq!(s.step(Event::Status(false)), Command::EndFrame);
    assert_eq!(s.step(Event::Done), Command::ScriptEnd);
}

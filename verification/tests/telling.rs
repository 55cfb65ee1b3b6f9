use storytelling::story::Choice;
use storytelling::story::Scene;
use storytelling::story::Story;
use storytelling::telling::Telling;

fn make_test_story() -> Story {
    let mut scenes: Vec<(String, Scene)> = Vec::new();
    scenes.push((
        "test_scene".to_string(),
        Scene {
            message: "test_message".to_string(),
            choices: Vec::new(),
        },
    ));
    scenes.push((
        "other_scene".to_string(),
        Scene {
            message: "other_message".to_string(),
            choices: Vec::new(),
        },
    ));
    Story {
        intro: "potato".to_string(),
        scenes,
    }
}

fn make_test_telling(story: &Story) -> Telling {
    Telling {
        story,
        scene: "test_scene".to_string(),
        running: true,
    }
}

#[test]
fn message_returns_from_current_scene() {
    let story = make_test_story();
    let telling = make_test_telling(&story);
    assert_eq!("test_message", telling.message());
}

#[test]
fn move_scene_failure_returns_not_found() {
    let story = make_test_story();
    let mut telling = make_test_telling(&story);
    let result = telling.do_choice(&Choice::MoveScene {
        destination: "unknown_scene".to_string(),
    });
    assert!(result.is_err());
}

#[test]
fn move_scene_failure_doesnt_move_scene() {
    let story = make_test_story();
    let mut telling = make_test_telling(&story);
    let initial_scene = telling.scene.clone();
    let _ = telling.do_choice(&Choice::MoveScene {
        destination: "unknown_scene".to_string(),
    });
    assert_eq!(initial_scene, telling.scene);
}

#[test]
fn move_scene_success_returns_not_found() {
    let story = make_test_story();
    let mut telling = make_test_telling(&story);
    let result = telling.do_choice(&Choice::MoveScene {
        destination: "other_scene".to_string(),
    });
    assert!(result.is_ok());
}

#[test]
fn move_scene_success_failure_doesnt_move_scene() {
    let story = make_test_story();
    let mut telling = make_test_telling(&story);
    let initial_scene = telling.scene.clone();
    let _ = telling.do_choice(&Choice::MoveScene {
        destination: "other_scene".to_string(),
    });
    assert_ne!(initial_scene, telling.scene);
}

#[test]
fn exit_is_running_returns() {
    let story = make_test_story();
    let mut telling = make_test_telling(&story);
    let running_before = telling.is_running();
    let _ = telling.do_choice(&Choice::Exit);
    assert_ne!(running_before, telling.is_running());
}

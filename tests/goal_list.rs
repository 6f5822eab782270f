use goal_tracker::{
    click_message, is_submit_key, keypress_message, App, Goal, InputField, Msg,
};

fn names(app: &App) -> Vec<String> {
    app.goals.iter().map(|g| g.name.clone()).collect()
}

#[test]
fn create_starts_empty() {
    let app = App::create();
    assert!(app.goals.is_empty());
    assert!(app.render_time.last_view.is_none());
}

#[test]
fn update_appends_fresh_goal() {
    let mut app = App::create();
    assert!(app.update(Msg::CreateGoal("Read a book".to_string())));
    assert_eq!(app.goals.len(), 1);
    let g = &app.goals[0];
    assert_eq!(g.name, "Read a book");
    assert_eq!((g.quantity, g.started, g.complete), (0, 0, 0));
    assert!(g == &Goal::new("Read a book".to_string()));
}

#[test]
fn enter_submits_and_clears_field() {
    let mut app = App::create();
    let mut field = InputField::new("Run 5k".to_string());
    assert!(app.submit_keypress("Enter", &mut field));
    assert_eq!(names(&app), vec!["Run 5k".to_string()]);
    assert_eq!(field.value, "");
}

#[test]
fn other_key_changes_nothing() {
    let mut app = App::create();
    app.update(Msg::CreateGoal("first".to_string()));
    let mut field = InputField::new("Run 5k".to_string());
    for key in ["a", "enter", "Enter ", "Escape", "", "Shift"] {
        assert!(!app.submit_keypress(key, &mut field));
        assert_eq!(names(&app), vec!["first".to_string()]);
        assert_eq!(field.value, "Run 5k");
    }
}

#[test]
fn click_submits_and_clears_field() {
    let mut app = App::create();
    let mut field = InputField::new("Learn Rust".to_string());
    assert!(app.submit_click(&mut field));
    assert_eq!(names(&app), vec!["Learn Rust".to_string()]);
    assert_eq!(field.value, "");
}

#[test]
fn empty_text_is_accepted() {
    let mut app = App::create();
    let mut field = InputField::new(String::new());
    assert!(app.submit_click(&mut field));
    assert!(app.submit_keypress("Enter", &mut field));
    assert_eq!(names(&app), vec![String::new(), String::new()]);
    assert_eq!(field.value, "");
}

#[test]
fn submissions_keep_their_order() {
    let mut app = App::create();
    let mut field = InputField::new(String::new());
    let inputs = ["one", "two", "three", "two"];
    for (i, name) in inputs.iter().enumerate() {
        field.value = name.to_string();
        if i % 2 == 0 {
            app.submit_click(&mut field);
        } else {
            app.submit_keypress("Enter", &mut field);
        }
        assert_eq!(field.value, "");
    }
    assert_eq!(names(&app), inputs.iter().map(|s| s.to_string()).collect::<Vec<_>>());
}

#[test]
fn keypress_message_only_for_enter() {
    let mut field = InputField::new("goal".to_string());
    assert!(keypress_message("x", &mut field).is_none());
    assert_eq!(field.value, "goal");
    match keypress_message("Enter", &mut field) {
        Some(Msg::CreateGoal(name)) => assert_eq!(name, "goal"),
        None => panic!("Enter gave no message"),
    }
    assert_eq!(field.value, "");
}

#[test]
fn click_message_takes_field_text() {
    let mut field = InputField::new("ship it".to_string());
    let Msg::CreateGoal(name) = click_message(&mut field);
    assert_eq!(name, "ship it");
    assert_eq!(field.value, "");
    assert_eq!(field.take_value(), "");
}

#[test]
fn submit_key_is_enter_exactly() {
    assert!(is_submit_key("Enter"));
    assert!(!is_submit_key("enter"));
    assert!(!is_submit_key("Enter\n"));
    assert!(!is_submit_key(""));
}

#[test]
fn goals_compare_by_all_fields() {
    let a = Goal::new("a".to_string());
    let mut b = Goal::new("a".to_string());
    assert!(a == b);
    b.started = 1;
    assert!(a != b);
    assert!(Goal::new("a".to_string()) != Goal::new("b".to_string()));
}

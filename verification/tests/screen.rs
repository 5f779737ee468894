use skill_manager::employees::FindEmployees;
use skill_manager::error::Error;
use skill_manager::in_memory::in_memory_api;
use skill_manager::projects::{FindProjects, ProjectDescription};
use skill_manager::screen::{
    create_employee, hotkey_row, layout, retrieve_data, send_input, split_name, Effect, Header,
    InputField, InputMode, Key, List, Row, State, HEADER_SIZE, HOTKEY_HELP_SIZE,
    INPUT_FIELD_SIZE, LIST_MIN_SIZE,
};
use skill_manager::skills::{FindSkills, SkillLabel};

fn typing(text: &str, open_tab: Header) -> State {
    State { open_tab, mode: InputMode::Input(text.to_string()) }
}

#[test]
fn tabs_stand_in_the_order_employees_projects_skills() {
    assert_eq!(Header::Employees.ix(), 0);
    assert_eq!(Header::Projects.ix(), 1);
    assert_eq!(Header::Skills.ix(), 2);
    for tab in [Header::Employees, Header::Projects, Header::Skills] {
        assert_eq!(Header::at(tab.ix()), Some(tab));
    }
    assert_eq!(Header::at(3), None);
    assert_eq!(Header::at(0).unwrap().title(), "[E]mployees");
    assert_eq!(Header::at(1).unwrap().title(), "[P]rojects");
    assert_eq!(Header::at(2).unwrap().title(), "[S]kills");
    assert_eq!(Header::Employees.to_string(), "Employees");
    assert_eq!(Header::Projects.to_string(), "Projects");
    assert_eq!(Header::Skills.to_string(), "Skills");
}

#[test]
fn list_is_titled_by_the_open_tab() {
    let state = State { open_tab: Header::Projects, mode: InputMode::List };
    let list = List::new(vec!["a\n".to_string(), "b\n".to_string()], &state);
    assert_eq!(
        list,
        List { title: "Projects".to_string(), data: vec!["a\n".to_string(), "b\n".to_string()] }
    );
}

#[test]
fn input_field_puts_the_cursor_behind_the_text() {
    let field = InputField::new("Rust", Header::Skills);
    assert_eq!(field.input, "Rust");
    assert_eq!(field.open_tab, Header::Skills);
    assert_eq!(field.prefix(), "New Skill: ");
    assert_eq!(field.cursor(3, 7), (3 + 11 + 4, 7));
    assert_eq!(InputField::new("", Header::Projects).prefix(), "New Project: ");
    assert_eq!(InputField::new("", Header::Projects).cursor(0, 0), (13, 0));
    assert_eq!(InputField::new("é", Header::Employees).prefix(), "New Employee: ");
    assert_eq!(InputField::new("é", Header::Employees).cursor(1, 2), (16, 2));
}

#[test]
fn cursor_stops_at_the_last_column() {
    assert_eq!(InputField::new("abc", Header::Skills).cursor(u16::MAX - 13, 1), (u16::MAX, 1));
    assert_eq!(InputField::new("abc", Header::Skills).cursor(u16::MAX - 14, 1), (u16::MAX, 1));
    assert_eq!(
        InputField::new("abc", Header::Skills).cursor(u16::MAX - 15, 1),
        (u16::MAX - 1, 1)
    );
    assert_eq!(InputField::new("", Header::Skills).cursor(u16::MAX, 1), (u16::MAX, 1));
}

#[test]
fn screen_starts_with_the_list_of_employees() {
    assert_eq!(State::default(), State { open_tab: Header::Employees, mode: InputMode::List });
}

#[test]
fn keys_in_the_list_switch_tabs_open_the_input_or_quit() {
    let mut state = State::default();
    assert_eq!(state.handle_input(Key::Char('p')), Ok(vec![]));
    assert_eq!(state, State { open_tab: Header::Projects, mode: InputMode::List });
    assert_eq!(state.handle_input(Key::Char('s')), Ok(vec![]));
    assert_eq!(state.open_tab, Header::Skills);
    assert_eq!(state.handle_input(Key::Char('e')), Ok(vec![]));
    assert_eq!(state.open_tab, Header::Employees);
    assert_eq!(state.handle_input(Key::Char('x')), Ok(vec![]));
    assert_eq!(state.handle_input(Key::Backspace), Ok(vec![]));
    assert_eq!(state.handle_input(Key::Other), Ok(vec![]));
    assert_eq!(state, State::default());
    assert_eq!(state.handle_input(Key::Esc), Ok(vec![Effect::Quit]));
    assert_eq!(state, State::default());
    assert_eq!(state.handle_input(Key::Char('+')), Ok(vec![]));
    assert_eq!(state, typing("", Header::Employees));
}

#[test]
fn keys_in_the_input_edit_send_or_leave() {
    let mut state = typing("", Header::Skills);
    for c in ['R', 'u', 's', 't', 'p', '+'] {
        assert_eq!(state.handle_input(Key::Char(c)), Ok(vec![]));
    }
    assert_eq!(state, typing("Rustp+", Header::Skills));
    assert_eq!(state.handle_input(Key::Backspace), Ok(vec![]));
    assert_eq!(state.handle_input(Key::Backspace), Ok(vec![]));
    assert_eq!(state.handle_input(Key::Other), Ok(vec![]));
    assert_eq!(state, typing("Rust", Header::Skills));
    assert_eq!(
        state.handle_input(Key::Char('\n')),
        Ok(vec![Effect::SendInput("Rust".to_string())])
    );
    assert_eq!(state, State { open_tab: Header::Skills, mode: InputMode::List });

    let mut state = typing("", Header::Projects);
    assert_eq!(state.handle_input(Key::Backspace), Ok(vec![]));
    assert_eq!(state, typing("", Header::Projects));
    assert_eq!(state.handle_input(Key::Char('a')), Ok(vec![]));
    assert_eq!(state.handle_input(Key::Esc), Ok(vec![]));
    assert_eq!(state, State { open_tab: Header::Projects, mode: InputMode::List });
}

#[test]
fn rows_make_room_for_the_input_field() {
    assert_eq!(
        layout(&InputMode::List),
        vec![Row::Length(3), Row::Min(20), Row::Length(1)]
    );
    assert_eq!(hotkey_row(&InputMode::List), 2);
    assert_eq!(
        layout(&InputMode::Input("x".to_string())),
        vec![
            Row::Length(HEADER_SIZE),
            Row::Min(LIST_MIN_SIZE),
            Row::Length(INPUT_FIELD_SIZE),
            Row::Length(HOTKEY_HELP_SIZE)
        ]
    );
    assert_eq!(hotkey_row(&InputMode::Input("x".to_string())), 3);
}

#[test]
fn name_is_split_at_white_space() {
    assert_eq!(split_name("Jane Doe"), ("Jane".to_string(), "Doe".to_string()));
    assert_eq!(
        split_name("  Jane \t van  der\nDoe "),
        ("Jane".to_string(), "vanderDoe".to_string())
    );
    assert_eq!(split_name("Jane"), ("Jane".to_string(), "".to_string()));
    assert_eq!(split_name("   "), ("".to_string(), "".to_string()));
    assert_eq!(split_name(""), ("".to_string(), "".to_string()));
    assert_eq!(split_name("é\u{a0}ü"), ("é".to_string(), "ü".to_string()));
}

#[test]
fn employee_is_created_from_a_typed_name() {
    let mut db = in_memory_api();
    assert_eq!(create_employee(&mut db, "Jane van Doe".to_string()), Ok(()));
    let employees = db.employees.find_employees().unwrap();
    assert_eq!(employees.len(), 1);
    assert_eq!(employees[0].first_name.0, "Jane");
    assert_eq!(employees[0].last_name.0, "vanDoe");
    assert_eq!(employees[0].title.0, "");
    assert_eq!(employees[0].email.0, "");
    assert_eq!(employees[0].telephone.0, "");
    assert!(employees[0].skills.is_empty());
    assert!(employees[0].projects.is_empty());

    assert_eq!(
        create_employee(&mut db, "  ".to_string()),
        Err(Error::Other("Empty first name".to_string()))
    );
    assert_eq!(db.employees.find_employees().unwrap(), employees);
}

#[test]
fn sent_input_is_added_to_the_store_of_the_open_tab() {
    let mut db = in_memory_api();
    assert_eq!(send_input(&mut db, Header::Skills, "Rust".to_string()), Ok(()));
    assert_eq!(send_input(&mut db, Header::Projects, "Website".to_string()), Ok(()));
    assert_eq!(send_input(&mut db, Header::Employees, "Jane Doe".to_string()), Ok(()));
    assert_eq!(send_input(&mut db, Header::Skills, "Go".to_string()), Ok(()));
    assert!(send_input(&mut db, Header::Employees, "".to_string()).is_err());

    let skills = db.skills.find().unwrap();
    assert_eq!(skills.len(), 2);
    assert_eq!(skills[0].label, SkillLabel("Rust".into()));
    assert_eq!(skills[1].label, SkillLabel("Go".into()));
    let projects = db.projects.find_projects().unwrap();
    assert_eq!(projects.len(), 1);
    assert_eq!(projects[0].label.0, "Website");
    assert_eq!(projects[0].description, ProjectDescription("".into()));
    assert_eq!(db.employees.find_employees().unwrap().len(), 1);

    let mut state = State { open_tab: Header::Skills, mode: InputMode::List };
    assert_eq!(retrieve_data(&state, &db), vec!["Rust\n".to_string(), "Go\n".to_string()]);
    state.open_tab = Header::Projects;
    assert_eq!(retrieve_data(&state, &db), vec!["Website\n".to_string()]);
    state.open_tab = Header::Employees;
    assert_eq!(retrieve_data(&state, &db), vec!["Jane Doe\n".to_string()]);
}

#[test]
fn list_shows_every_record_of_a_long_store() {
    let mut db = in_memory_api();
    for i in 0..12 {
        assert_eq!(send_input(&mut db, Header::Skills, format!("s{}", i)), Ok(()));
    }
    let state = State { open_tab: Header::Skills, mode: InputMode::List };
    let lines = retrieve_data(&state, &db);
    assert_eq!(lines.len(), 12);
    assert_eq!(lines[11], "s11\n");
    assert_eq!(retrieve_data(&State::default(), &db), Vec::<String>::new());
}

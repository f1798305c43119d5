use todo_threader::command::{Color, Command};
use todo_threader::selection::{Selection, SelectionError};

fn nothing() -> Selection {
    Selection {
        test: false,
        raw: None,
        next: false,
        swap: false,
        following: None,
        add: None,
        color: Some(b"#FFFFFF".to_vec()),
        random: false,
    }
}

#[test]
fn nothing_selected_gives_no_command() {
    assert_eq!(nothing().select(), Ok(None));
    assert_eq!(Selection { random: true, ..nothing() }.select(), Ok(None));
}

#[test]
fn each_selector_gives_its_command() {
    assert_eq!(Selection { test: true, ..nothing() }.select(), Ok(Some(Command::Test)));
    assert_eq!(
        Selection { raw: Some(b"abc".to_vec()), ..nothing() }.select(),
        Ok(Some(Command::Raw { payload: b"abc".to_vec() }))
    );
    assert_eq!(Selection { next: true, ..nothing() }.select(), Ok(Some(Command::Next)));
    assert_eq!(Selection { swap: true, ..nothing() }.select(), Ok(Some(Command::Swap)));
    assert_eq!(
        Selection { following: Some(b"Buy milk".to_vec()), ..nothing() }.select(),
        Ok(Some(Command::Follow { task: b"Buy milk".to_vec(), color: Color::Text(b"#FFFFFF".to_vec()) }))
    );
    assert_eq!(
        Selection { add: Some(b"Buy milk".to_vec()), color: Some(b"00ff00".to_vec()), ..nothing() }.select(),
        Ok(Some(Command::Add { task: b"Buy milk".to_vec(), color: Color::Text(b"00ff00".to_vec()) }))
    );
}

#[test]
fn random_color_goes_to_both_task_commands() {
    assert_eq!(
        Selection { add: Some(b"t".to_vec()), random: true, ..nothing() }.select(),
        Ok(Some(Command::Add { task: b"t".to_vec(), color: Color::Random }))
    );
    assert_eq!(
        Selection { following: Some(b"t".to_vec()), random: true, ..nothing() }.select(),
        Ok(Some(Command::Follow { task: b"t".to_vec(), color: Color::Random }))
    );
    assert_eq!(Selection { next: true, random: true, ..nothing() }.select(), Ok(Some(Command::Next)));
}

#[test]
fn first_selector_counts() {
    let all = Selection {
        test: true,
        raw: Some(b"r".to_vec()),
        next: true,
        swap: true,
        following: Some(b"f".to_vec()),
        add: Some(b"a".to_vec()),
        color: Some(b"#000000".to_vec()),
        random: false,
    };
    assert_eq!(all.select(), Ok(Some(Command::Test)));
    let all = Selection {
        test: false,
        raw: Some(b"r".to_vec()),
        next: true,
        swap: true,
        following: Some(b"f".to_vec()),
        add: Some(b"a".to_vec()),
        color: Some(b"#000000".to_vec()),
        random: false,
    };
    assert_eq!(all.select(), Ok(Some(Command::Raw { payload: b"r".to_vec() })));
    assert_eq!(
        Selection { next: true, swap: true, add: Some(b"a".to_vec()), ..nothing() }.select(),
        Ok(Some(Command::Next))
    );
    assert_eq!(
        Selection { swap: true, following: Some(b"f".to_vec()), ..nothing() }.select(),
        Ok(Some(Command::Swap))
    );
    assert_eq!(
        Selection { following: Some(b"f".to_vec()), add: Some(b"a".to_vec()), ..nothing() }.select(),
        Ok(Some(Command::Follow { task: b"f".to_vec(), color: Color::Text(b"#FFFFFF".to_vec()) }))
    );
}

#[test]
fn selected_command_goes_on_the_wire() {
    let command = Selection { add: Some(b"Buy milk".to_vec()), color: Some(b"#A0B1C2".to_vec()), ..nothing() }
        .select()
        .unwrap()
        .unwrap();
    assert_eq!(command.encode(), b"ADDBuy milk;A0B1C2".to_vec());
}

#[test]
fn task_without_color_is_turned_down() {
    assert_eq!(
        Selection { add: Some(b"t".to_vec()), color: None, ..nothing() }.select(),
        Err(SelectionError::MissingColor)
    );
    assert_eq!(
        Selection { following: Some(b"t".to_vec()), color: None, ..nothing() }.select(),
        Err(SelectionError::MissingColor)
    );
}

#[test]
fn random_color_stands_in_for_a_missing_one() {
    assert_eq!(
        Selection { add: Some(b"t".to_vec()), color: None, random: true, ..nothing() }.select(),
        Ok(Some(Command::Add { task: b"t".to_vec(), color: Color::Random }))
    );
    assert_eq!(
        Selection { following: Some(b"t".to_vec()), color: None, random: true, ..nothing() }.select(),
        Ok(Some(Command::Follow { task: b"t".to_vec(), color: Color::Random }))
    );
}

#[test]
fn color_is_required_only_for_new_tasks() {
    assert_eq!(Selection { color: None, ..nothing() }.select(), Ok(None));
    assert_eq!(Selection { test: true, color: None, ..nothing() }.select(), Ok(Some(Command::Test)));
    assert_eq!(
        Selection { raw: Some(b"x".to_vec()), color: None, ..nothing() }.select(),
        Ok(Some(Command::Raw { payload: b"x".to_vec() }))
    );
    assert_eq!(Selection { next: true, color: None, ..nothing() }.select(), Ok(Some(Command::Next)));
    assert_eq!(Selection { swap: true, color: None, ..nothing() }.select(), Ok(Some(Command::Swap)));
    assert_eq!(
        Selection { swap: true, add: Some(b"t".to_vec()), color: None, ..nothing() }.select(),
        Ok(Some(Command::Swap))
    );
}

use callsy::confirm::{
    check_body_output_file, check_output_file, parse_confirm_line, ConfirmDecision,
};

#[test]
fn yes_answers_proceed_in_any_case_and_with_trailing_whitespace() {
    for line in ["y", "Y", "yes", "YES", "Yes", "y\n", "yes \r\n", "Y\t"] {
        assert_eq!(
            parse_confirm_line(&line.as_bytes().to_vec()),
            ConfirmDecision::Proceed
        );
    }
}

#[test]
fn no_answers_abort_in_any_case_and_with_trailing_whitespace() {
    for line in ["n", "N", "no", "NO", "No", "n\n", "no \r\n"] {
        assert_eq!(
            parse_confirm_line(&line.as_bytes().to_vec()),
            ConfirmDecision::Abort
        );
    }
}

#[test]
fn other_answers_ask_again() {
    for line in ["", "maybe", "yess", "nope", " y", "ye", "0"] {
        assert_eq!(
            parse_confirm_line(&line.as_bytes().to_vec()),
            ConfirmDecision::Retry
        );
    }
}

#[test]
fn missing_output_file_needs_no_confirmation() {
    assert_eq!(check_output_file(false, &Vec::new()), Some(true));
}

#[test]
fn declining_overwrite_aborts_before_any_work() {
    assert_eq!(check_output_file(true, &vec![b"no\n".to_vec()]), Some(false));
}

#[test]
fn first_decisive_answer_wins() {
    let answers = vec![b"hmm".to_vec(), b"".to_vec(), b"N\n".to_vec(), b"y".to_vec()];
    assert_eq!(check_output_file(true, &answers), Some(false));
}

#[test]
fn accepting_overwrite_proceeds() {
    let answers = vec![b"what".to_vec(), b"YES\n".to_vec()];
    assert_eq!(check_output_file(true, &answers), Some(true));
}

#[test]
fn indecisive_answers_leave_the_question_open() {
    let answers = vec![b"eh".to_vec(), b"hm".to_vec()];
    assert_eq!(check_output_file(true, &answers), None);
}

#[test]
fn absent_body_output_path_needs_no_confirmation() {
    assert_eq!(check_body_output_file(false, true, &Vec::new()), Some(true));
}

#[test]
fn present_body_output_path_is_confirmed_like_the_output_file() {
    assert_eq!(
        check_body_output_file(true, true, &vec![b"n".to_vec()]),
        Some(false)
    );
    assert_eq!(
        check_body_output_file(true, false, &Vec::new()),
        Some(true)
    );
}

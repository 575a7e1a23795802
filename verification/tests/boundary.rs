use persona_spirit::actors::vocabulary::{Observation, Operation};
use persona_spirit::error::Error;
use persona_spirit::record::{ObservationMode, RecordQuery};
use persona_spirit::runtime::{RequestOutputStream, SingleArgument};
use persona_spirit::store::{OutputStream, OutputTarget, RemovalCandidateCollection};

#[test]
fn persona_spirit_binary_accepts_exactly_one_argument() {
    let argument = SingleArgument::from_arguments(vec![
        "spirit".to_string(),
        "(State \"capture this intent\")".to_string(),
    ])
    .expect("single argument accepted");

    assert_eq!(argument.as_str(), "(State \"capture this intent\")");
}

#[test]
fn persona_spirit_binary_rejects_missing_argument() {
    let error = SingleArgument::from_arguments(vec!["spirit".to_string()]).unwrap_err();

    assert_eq!(
        error,
        Error::WrongArgumentCount {
            program: "spirit".to_string(),
            found: 0,
        }
    );
}

#[test]
fn persona_spirit_binary_rejects_extra_argument() {
    let error = SingleArgument::from_arguments(vec![
        "spirit".to_string(),
        "(State \"one\")".to_string(),
        "(State \"two\")".to_string(),
    ])
    .unwrap_err();

    assert_eq!(
        error,
        Error::WrongArgumentCount {
            program: "spirit".to_string(),
            found: 2,
        }
    );
}

#[test]
fn persona_spirit_binary_rejects_flag_style_argument() {
    let error =
        SingleArgument::from_arguments(vec!["spirit".to_string(), "--help".to_string()]).unwrap_err();

    assert_eq!(
        error,
        Error::FlagArgument {
            program: "spirit".to_string(),
            argument: "--help".to_string(),
        }
    );
}

#[test]
fn empty_command_line_names_no_program() {
    let error = SingleArgument::from_arguments(Vec::new()).unwrap_err();
    assert_eq!(
        error,
        Error::WrongArgumentCount {
            program: String::new(),
            found: 0,
        }
    );
}

#[test]
fn path_argument_is_not_inline_text() {
    let argument =
        SingleArgument::from_arguments(vec!["spirit".to_string(), "request.nota".to_string()])
            .expect("path accepted");
    assert_eq!(argument.inline_text(), None);
}

#[test]
fn printed_removal_candidates_choose_the_reply_stream() {
    let printed = Operation::CollectRemovalCandidates(RemovalCandidateCollection::new(
        RecordQuery::removal_candidates(ObservationMode::SummaryOnly),
        OutputTarget::Print(OutputStream::StandardError),
    ));
    let archived = Operation::CollectRemovalCandidates(RemovalCandidateCollection::new(
        RecordQuery::removal_candidates(ObservationMode::SummaryOnly),
        OutputTarget::default_archive_database(),
    ));
    assert_eq!(
        RequestOutputStream::from_operation(&printed).into_stream(),
        OutputStream::StandardError
    );
    assert_eq!(
        RequestOutputStream::from_operation(&archived).into_stream(),
        OutputStream::StandardOutput
    );
    let request = vec![Operation::Observe(Observation::Topics), printed];
    assert_eq!(
        RequestOutputStream::from_working_request(&request).into_stream(),
        OutputStream::StandardError
    );
    let quiet = vec![Operation::Observe(Observation::Topics), archived];
    assert_eq!(
        RequestOutputStream::from_working_request(&quiet).into_stream(),
        OutputStream::StandardOutput
    );
}

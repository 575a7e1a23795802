use persona_spirit::daemon::{
    BootstrapPolicyPath, DaemonConfiguration, DaemonRuntime, FrameCodec, OwnerFrameCodec,
    OwnerSignalClient, PublicSockets, SignalClient, SocketMode, SocketPath, StorePath,
    UpgradeFrameCodec, UpgradeSignalClient, DEFAULT_MAXIMUM_FRAME_BYTES,
};
use persona_spirit::error::Error;
use persona_spirit::handover::{
    spirit_contract_version, ComponentName, HandoverCompletion, HandoverMarker, UpgradeOperation,
    UpgradeReply,
};
use persona_spirit::record::{Date, Time};
use persona_spirit::policy::BootstrapPolicySource;
use persona_spirit::runtime::{
    Client, CommandLineSockets, OwnerRequestText, RequestInput, RequestText, SingleArgument,
};

fn configuration() -> DaemonConfiguration {
    DaemonConfiguration::new(
        SocketPath::new("/run/persona/spirit.sock".to_string()),
        SocketPath::new("/run/persona/spirit-owner.sock".to_string()),
        SocketPath::new("/run/persona/spirit-upgrade.sock".to_string()),
        StorePath::new("/var/lib/persona/spirit.redb".to_string()),
        SocketMode::from_octal(0o660),
    )
}

#[test]
fn daemon_configuration_defaults_to_embedded_policy() {
    let configuration = configuration();
    assert_eq!(configuration.bootstrap_policy_path, None);
    assert_eq!(configuration.bootstrap_policy_source(), BootstrapPolicySource::default());
    assert_eq!(configuration.store_location().as_path(), "/var/lib/persona/spirit.redb");
    assert_eq!(configuration.socket_mode.as_octal(), 0o660);
}

#[test]
fn daemon_configuration_reads_policy_from_configured_path() {
    let configuration = configuration()
        .with_bootstrap_policy_path(BootstrapPolicyPath::new("/etc/persona/bootstrap.nota".to_string()));
    assert_eq!(
        configuration.bootstrap_policy_source(),
        BootstrapPolicySource::path("/etc/persona/bootstrap.nota".to_string())
    );
    let runtime = DaemonRuntime::from_configuration(configuration.clone());
    assert_eq!(runtime.configuration(), &configuration);
}

#[test]
fn paths_give_back_their_text() {
    assert_eq!(SocketPath::new("/a".to_string()).as_path(), "/a");
    assert_eq!(StorePath::new("/b".to_string()).as_path(), "/b");
    assert_eq!(BootstrapPolicyPath::new("/c".to_string()).as_path(), "/c");
}

#[test]
fn frame_codecs_refuse_frames_above_their_limit() {
    let codec = FrameCodec::new(16);
    assert_eq!(codec.frame_length([0, 0, 0, 16]), Ok(16));
    assert_eq!(codec.frame_length([0, 0, 0, 17]), Err(Error::FrameTooLarge { found: 17, limit: 16 }));
    assert_eq!(
        FrameCodec::default().frame_length([0, 0x10, 0, 1]),
        Err(Error::FrameTooLarge { found: 1_048_577, limit: DEFAULT_MAXIMUM_FRAME_BYTES })
    );
    assert_eq!(FrameCodec::default().frame_length([0, 0x10, 0, 0]), Ok(1_048_576));
    assert_eq!(OwnerFrameCodec::new(300).frame_length([0, 0, 1, 2]), Ok(258));
    assert_eq!(
        UpgradeFrameCodec::new(0).frame_length([1, 0, 0, 0]),
        Err(Error::FrameTooLarge { found: 16_777_216, limit: 0 })
    );
    assert_eq!(UpgradeFrameCodec::default().maximum_frame_bytes(), 1_048_576);
    assert_eq!(OwnerFrameCodec::default().maximum_frame_bytes(), 1_048_576);
}

#[test]
fn clients_use_the_default_frame_limit() {
    let client = SignalClient::new(SocketPath::new("/s".to_string()));
    assert_eq!(client.socket().as_path(), "/s");
    assert_eq!(client.codec().maximum_frame_bytes(), DEFAULT_MAXIMUM_FRAME_BYTES);
    let owner = OwnerSignalClient::new(SocketPath::new("/o".to_string()));
    assert_eq!(owner.socket().as_path(), "/o");
    assert_eq!(owner.codec(), OwnerFrameCodec::default());
    let upgrade = UpgradeSignalClient::new(SocketPath::new("/u".to_string()));
    assert_eq!(upgrade.codec(), UpgradeFrameCodec::default());
}

#[test]
fn public_sockets_close_only_on_a_finalized_handover() {
    let marker = || HandoverMarker {
        component: ComponentName::new("persona-spirit".to_string()),
        schema_hash: spirit_contract_version(),
        commit_sequence: 0,
        write_counter: 0,
        last_record_identifier: None,
        recorded_at_date: Date::new(2026, 6, 1),
        recorded_at_time: Time::new(0, 0, 0),
    };
    let mut sockets = PublicSockets::open(
        SocketPath::new("/o".to_string()),
        SocketPath::new("/w".to_string()),
    );
    assert!(sockets.is_accepting());
    sockets.after_upgrade_reply(
        &UpgradeOperation::AskHandoverMarker(ComponentName::new("persona-spirit".to_string())),
        &UpgradeReply::HandoverMarker(marker()),
    );
    assert!(sockets.is_accepting());
    sockets.after_upgrade_reply(
        &UpgradeOperation::HandoverCompleted(HandoverCompletion {
            component: ComponentName::new("persona-spirit".to_string()),
            accepted_marker: marker(),
        }),
        &UpgradeReply::HandoverFinalized { finalized_marker: marker() },
    );
    assert!(!sockets.is_accepting());
}

#[test]
fn inline_argument_is_its_own_text_and_other_arguments_name_a_file() {
    let inline = RequestInput::new(SingleArgument::new("(Observe Topics)".to_string()));
    assert_eq!(inline.inline_text(), Some("(Observe Topics)".to_string()));
    assert_eq!(inline.file_path(), None);
    let file = RequestInput::new(SingleArgument::new("request.nota".to_string()));
    assert_eq!(file.inline_text(), None);
    assert_eq!(file.file_path(), Some("request.nota"));
    let empty = SingleArgument::new(String::new());
    assert_eq!(empty.inline_text(), None);
}

#[test]
fn command_line_sockets_report_missing_sockets() {
    let sockets = CommandLineSockets::ordinary_only(SocketPath::new("/o".to_string()));
    assert_eq!(sockets.ordinary_socket().map(|path| path.as_path()), Ok("/o"));
    assert_eq!(sockets.owner_socket(), Err(Error::MissingOwnerSpiritSocket));
    let none = CommandLineSockets::new(None, None);
    assert_eq!(none.ordinary_socket(), Err(Error::MissingSpiritSocket));
}

#[test]
fn clients_know_the_sockets_they_were_given() {
    let argument = SingleArgument::new("(Observe Topics)".to_string());
    let one = Client::with_socket(argument.clone(), SocketPath::new("/o".to_string()));
    assert_eq!(one.sockets().ordinary_socket().map(|path| path.as_path()), Ok("/o"));
    assert!(one.sockets().owner_socket().is_err());
    let both = Client::with_sockets(
        argument,
        SocketPath::new("/o".to_string()),
        SocketPath::new("/w".to_string()),
    );
    assert_eq!(both.sockets().owner_socket().map(|path| path.as_path()), Ok("/w"));
    assert_eq!(both.input().inline_text(), Some("(Observe Topics)".to_string()));
    assert_eq!(RequestText::new("(Record)".to_string()).as_str(), "(Record)");
    assert_eq!(OwnerRequestText::new("(Drain)".to_string()).as_str(), "(Drain)");
}

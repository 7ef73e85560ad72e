use mirakc::config::{Config, ToolsConfig, TunerConfig};
use mirakc::error::{CommandError, TunerError};
use mirakc::manager::{StartStreamingMessage, StopStreamingMessage, TunerActivation, TunerManager};
use mirakc::models::ChannelType;
use mirakc::tuner::Tuner;
use mirakc::user::{TunerSessionId, TunerSubscriptionId, TunerUser, TunerUserInfo,
    TunerUserPriority};

fn create_config(command: String) -> TunerConfig {
    TunerConfig { name: String::new(), channel_types: vec![ChannelType::GR], command, disabled: false }
}

fn create_user(priority: TunerUserPriority) -> TunerUser {
    TunerUser { info: TunerUserInfo::Job { name: "test".to_string() }, priority }
}

/// Starts the tuner as the caller does: makes the command line and records
/// the process that runs it.
fn activate(tuner: &mut Tuner, channel_type: ChannelType, channel: String) -> Result<(), TunerError> {
    let (command, words) = tuner.make_command_line(channel_type, &channel)?;
    assert!(!words.is_empty());
    tuner.activate(channel_type, channel, command, 1234);
    Ok(())
}

fn manager_with(tuners: Vec<TunerConfig>) -> TunerManager {
    let config = Config {
        epg_cache_dir: String::new(),
        tools: ToolsConfig {
            scan_services: String::new(),
            sync_clock: String::new(),
            collect_eits: String::new(),
        },
        channels: Vec::new(),
        tuners,
    };
    let mut manager = TunerManager::new();
    manager.load_tuners(&config);
    manager
}

fn tuner_config(name: &str, channel_types: Vec<ChannelType>, disabled: bool) -> TunerConfig {
    TunerConfig {
        name: name.to_string(),
        channel_types,
        command: "recv {{channel_type}} {{channel}} {{duration}}".to_string(),
        disabled,
    }
}

fn start(
    manager: &mut TunerManager,
    channel_type: ChannelType,
    channel: &str,
    user: &TunerUser,
    pid: u32,
) -> Result<TunerSubscriptionId, TunerError> {
    match manager.activate_tuner(channel_type, channel, user)? {
        TunerActivation::Subscribed(id) => Ok(id),
        TunerActivation::Spawn { tuner_index, command, .. } => manager.complete_activation(
            tuner_index,
            channel_type,
            channel.to_string(),
            command,
            Some(pid),
            user.clone(),
        ),
    }
}

#[test]
fn test_tuner_is_active() {
    let config = create_config("true".to_string());
    let mut tuner = Tuner::new(0, &config);

    assert!(!tuner.is_active());

    let result = activate(&mut tuner, ChannelType::GR, String::new());
    assert!(result.is_ok());

    assert!(tuner.is_active());
}

#[test]
fn test_tuner_activate() {
    {
        let config = create_config("true".to_string());
        let mut tuner = Tuner::new(0, &config);
        let result = activate(&mut tuner, ChannelType::GR, String::new());
        assert!(result.is_ok());
    }

    {
        let config = create_config("cmd '".to_string());
        let mut tuner = Tuner::new(0, &config);
        let result = activate(&mut tuner, ChannelType::GR, String::new());
        assert!(matches!(result, Err(TunerError::CommandFailed(CommandError::UnableToParse))));
        assert!(!tuner.is_active());
    }

    {
        // The caller reports that no process could be started.
        let mut manager = manager_with(vec![create_config("no-such-command".to_string())]);
        let user = create_user(0.into());
        let activation = manager.activate_tuner(ChannelType::GR, "", &user).unwrap();
        let result = match activation {
            TunerActivation::Spawn { tuner_index, command, words } => {
                assert_eq!(words, vec!["no-such-command".to_string()]);
                manager.complete_activation(tuner_index, ChannelType::GR, String::new(), command, None, user)
            }
            TunerActivation::Subscribed(_) => panic!("nothing runs yet"),
        };
        assert!(matches!(result, Err(TunerError::CommandFailed(CommandError::UnableToSpawn))));
        assert!(!manager.tuners[0].is_active());
    }
}

#[test]
fn a_template_that_does_not_render_fails_the_activation() {
    let config = create_config("cmd {{channel".to_string());
    let mut tuner = Tuner::new(0, &config);
    let result = activate(&mut tuner, ChannelType::GR, String::new());
    assert!(matches!(result, Err(TunerError::TemplateFailed)));
    assert!(!tuner.is_active());
}

#[test]
fn command_lines_are_split_as_a_shell_splits_them() {
    let config = create_config("recv --name 'a b' \"{{channel}} x\" c\\ d # rest".to_string());
    let tuner = Tuner::new(0, &config);
    let (command, words) = tuner.make_command_line(ChannelType::GR, "27").unwrap();
    assert_eq!(command, "recv --name 'a b' \"27 x\" c\\ d # rest");
    assert_eq!(words, vec!["recv", "--name", "a b", "27 x", "c d"]);
    let empty = Tuner::new(0, &create_config(String::new()));
    let (command, words) = empty.make_command_line(ChannelType::GR, "27").unwrap();
    assert!(command.is_empty() && words.is_empty());
    let open = Tuner::new(0, &create_config("recv \"{{channel}}".to_string()));
    assert!(matches!(
        open.make_command_line(ChannelType::GR, "27"),
        Err(TunerError::CommandFailed(CommandError::UnableToParse))
    ));
}

#[test]
fn test_tuner_stop_streaming() {
    let config = create_config("true".to_string());
    let mut tuner = Tuner::new(0, &config);
    let result = tuner.stop_streaming(Default::default());
    assert!(matches!(result, Err(TunerError::SessionNotFound)));

    let result = activate(&mut tuner, ChannelType::GR, String::new());
    assert!(result.is_ok());
    let subscription = tuner.subscribe(TunerUser {
        info: TunerUserInfo::Web { remote: None, agent: None },
        priority: 0.into(),
    });

    let result = tuner.stop_streaming(Default::default());
    assert!(matches!(result, Err(TunerError::SessionNotFound)));
    assert!(tuner.is_active());

    let result = tuner.stop_streaming(subscription);
    assert!(matches!(result, Ok(())));
    assert!(!tuner.is_active());
}

#[test]
fn test_tuner_can_grab() {
    let config = create_config("true".to_string());
    let mut tuner = Tuner::new(0, &config);
    assert!(tuner.can_grab(0.into()));

    activate(&mut tuner, ChannelType::GR, "1".to_string()).unwrap();
    tuner.subscribe(create_user(0.into()));

    assert!(!tuner.can_grab(0.into()));
    assert!(tuner.can_grab(1.into()));
    assert!(tuner.can_grab(2.into()));
    assert!(tuner.can_grab(TunerUserPriority::grab()));

    tuner.subscribe(create_user(1.into()));

    assert!(!tuner.can_grab(0.into()));
    assert!(!tuner.can_grab(1.into()));
    assert!(tuner.can_grab(2.into()));
    assert!(tuner.can_grab(TunerUserPriority::grab()));

    tuner.subscribe(create_user(TunerUserPriority::grab()));

    assert!(!tuner.can_grab(0.into()));
    assert!(!tuner.can_grab(1.into()));
    assert!(!tuner.can_grab(2.into()));
    assert!(tuner.can_grab(TunerUserPriority::grab()));
}

#[test]
fn test_tuner_reactivate() {
    let config = create_config("true".to_string());
    let mut tuner = Tuner::new(0, &config);
    activate(&mut tuner, ChannelType::GR, "1".to_string()).ok();

    tuner.deactivate();
    let result = activate(&mut tuner, ChannelType::GR, "2".to_string());
    assert!(result.is_ok());
}

#[test]
fn grab_priority_is_the_largest_number() {
    assert_eq!(TunerUserPriority::grab().value(), i32::MAX);
    assert!(TunerUserPriority::grab().is_grab());
    assert!(!TunerUserPriority::from(i32::MAX - 1).is_grab());
}

#[test]
fn default_identifiers_are_zero() {
    let id = TunerSubscriptionId::default();
    assert_eq!(id.serial_number, 0);
    assert_eq!(id.session_id, TunerSessionId { tuner_index: 0, tuner_pid: 0 });
}

#[test]
fn background_user_is_a_job_of_low_priority() {
    let user = TunerUser::background("epg".to_string());
    assert!(matches!(&user.info, TunerUserInfo::Job { name } if name == "epg"));
    assert_eq!(user.priority.value(), -1);
}

#[test]
fn serial_numbers_start_at_one_and_increase() {
    let config = create_config("true".to_string());
    let mut tuner = Tuner::new(3, &config);
    activate(&mut tuner, ChannelType::GR, "1".to_string()).unwrap();
    let a = tuner.subscribe(create_user(0.into()));
    let b = tuner.subscribe(create_user(0.into()));
    assert_eq!(a.serial_number, 1);
    assert_eq!(b.serial_number, 2);
    assert_eq!(a.session_id, TunerSessionId { tuner_index: 3, tuner_pid: 1234 });
    assert!(matches!(tuner.stop_streaming(a), Ok(())));
    let c = tuner.subscribe(create_user(0.into()));
    assert_eq!(c.serial_number, 3);
    // A subscription that has ended is stopped again without effect.
    assert!(matches!(tuner.stop_streaming(a), Ok(())));
    assert!(tuner.is_active());
    assert!(matches!(tuner.stop_streaming(b), Ok(())));
    assert!(matches!(tuner.stop_streaming(c), Ok(())));
    assert!(!tuner.is_active());
}

#[test]
fn make_command_fills_the_template() {
    let config = create_config("recv --type {{channel_type}} --ch {{channel}} {{duration}}".to_string());
    let tuner = Tuner::new(0, &config);
    assert_eq!(tuner.make_command(ChannelType::BS, "101").unwrap(), "recv --type BS --ch 101 -");
    assert_eq!(tuner.make_command(ChannelType::SKY, "x").unwrap(), "recv --type SKY --ch x -");
}

#[test]
fn make_command_refuses_what_the_library_does_not_render() {
    for command in ["a {{.}}", "a {{ . }}", "a {{{.}}}", "a {{&.}}", "{{=<% %>=}}<%channel%>", "{{> part}}"] {
        let tuner = Tuner::new(0, &create_config(command.to_string()));
        assert!(matches!(tuner.make_command(ChannelType::GR, "1"), Err(TunerError::TemplateFailed)));
    }
    for command in
        ["find . -name a.ts", "curl http://h.example/{{channel}}?a=b", "a {{channel}}.", "a {.} b"]
    {
        let tuner = Tuner::new(0, &create_config(command.to_string()));
        assert!(tuner.make_command(ChannelType::GR, "1").is_ok());
    }
}

#[test]
fn get_model_shows_the_session() {
    let config = create_config("true".to_string());
    let mut tuner = Tuner::new(2, &config);
    let model = tuner.get_model();
    assert_eq!(model.index, 2);
    assert!(model.is_free && !model.is_using && model.is_available);
    assert!(!model.is_remote && !model.is_fault);
    assert_eq!(model.command, None);
    assert_eq!(model.pid, None);
    assert!(model.users.is_empty());

    activate(&mut tuner, ChannelType::GR, "1".to_string()).unwrap();
    tuner.subscribe(create_user(7.into()));
    let model = tuner.get_model();
    assert!(!model.is_free && model.is_using);
    assert_eq!(model.command, Some("true".to_string()));
    assert_eq!(model.pid, Some(1234));
    assert_eq!(model.users.len(), 1);
    assert_eq!(model.users[0].priority, 7);
    assert_eq!(model.channel_types, vec![ChannelType::GR]);
}

#[test]
fn load_tuners_numbers_the_enabled_tuners() {
    let manager = manager_with(vec![
        tuner_config("a", vec![ChannelType::GR], false),
        tuner_config("b", vec![ChannelType::GR], true),
        tuner_config("c", vec![ChannelType::BS], false),
    ]);
    assert_eq!(manager.tuners.len(), 2);
    assert_eq!(manager.tuners[0].name, "a");
    assert_eq!(manager.tuners[0].index, 0);
    assert_eq!(manager.tuners[1].name, "c");
    assert_eq!(manager.tuners[1].index, 1);
    let models = manager.query_tuners();
    assert_eq!(models.len(), 2);
    assert_eq!(models[1].name, "c");
}

#[test]
fn selection_prefers_reuse_then_free_then_grab() {
    let mut manager = manager_with(vec![
        tuner_config("a", vec![ChannelType::GR], false),
        tuner_config("b", vec![ChannelType::GR, ChannelType::BS], false),
    ]);
    let low = create_user(0.into());
    let high = create_user(1.into());

    // Free: the first inactive tuner that supports the type is started.
    let first = manager.activate_tuner(ChannelType::GR, "27", &low).unwrap();
    let command = match first {
        TunerActivation::Spawn { tuner_index, command, words } => {
            assert_eq!(tuner_index, 0);
            assert_eq!(words, vec!["recv", "GR", "27", "-"]);
            command
        }
        TunerActivation::Subscribed(_) => panic!("nothing runs yet"),
    };
    assert_eq!(command, "recv GR 27 -");
    let a = manager
        .complete_activation(0, ChannelType::GR, "27".to_string(), command, Some(10), low.clone())
        .unwrap();
    assert_eq!(a, TunerSubscriptionId {
        session_id: TunerSessionId { tuner_index: 0, tuner_pid: 10 },
        serial_number: 1,
    });

    // Reuse: the same channel joins the running session.
    let b = start(&mut manager, ChannelType::GR, "27", &low, 99).unwrap();
    assert_eq!(b.session_id, a.session_id);
    assert_eq!(b.serial_number, 2);

    // Free again: another channel goes to the second tuner.
    let c = start(&mut manager, ChannelType::GR, "26", &low, 11).unwrap();
    assert_eq!(c.session_id, TunerSessionId { tuner_index: 1, tuner_pid: 11 });

    // Nothing free, equal priority: turned away.
    let refused = manager.activate_tuner(ChannelType::GR, "25", &low);
    assert!(matches!(refused, Err(TunerError::TunerUnavailable)));
    assert!(manager.tuners[0].is_active() && manager.tuners[1].is_active());

    // Higher priority grabs the first tuner that supports the type.
    let d = start(&mut manager, ChannelType::GR, "25", &high, 12).unwrap();
    assert_eq!(d, TunerSubscriptionId {
        session_id: TunerSessionId { tuner_index: 0, tuner_pid: 12 },
        serial_number: 1,
    });

    // The grabbed session is gone: its subscriptions are not found.
    assert!(matches!(manager.stop_streaming(a), Err(TunerError::SessionNotFound)));
    assert!(manager.tuners[0].is_active());

    // Only the second tuner supports BS; the grab priority takes it.
    let e = start(&mut manager, ChannelType::BS, "101", &create_user(TunerUserPriority::grab()), 13)
        .unwrap();
    assert_eq!(e.session_id, TunerSessionId { tuner_index: 1, tuner_pid: 13 });

    // No tuner supports CS.
    let none = manager.activate_tuner(ChannelType::CS, "1", &create_user(TunerUserPriority::grab()));
    assert!(matches!(none, Err(TunerError::TunerUnavailable)));
}

#[test]
fn tracker_rides_an_existing_session() {
    let mut manager = manager_with(vec![tuner_config("a", vec![ChannelType::GR], false)]);
    let stream = TunerSubscriptionId {
        session_id: TunerSessionId { tuner_index: 0, tuner_pid: 10 },
        serial_number: 1,
    };
    let tracker = TunerUser {
        info: TunerUserInfo::Tracker { stream_id: stream },
        priority: TunerUserPriority::grab(),
    };
    let refused = manager.activate_tuner(ChannelType::GR, "27", &tracker);
    assert!(matches!(refused, Err(TunerError::TunerUnavailable)));
    assert!(!manager.tuners[0].is_active());

    let a = start(&mut manager, ChannelType::GR, "27", &create_user(0.into()), 10).unwrap();
    assert_eq!(a, stream);
    // The tracker joins whatever channel it asks for.
    let joined = manager.activate_tuner(ChannelType::BS, "101", &tracker).unwrap();
    assert!(matches!(joined, TunerActivation::Subscribed(id) if id.serial_number == 2
        && id.session_id == stream.session_id));
}

#[test]
fn grab_with_a_bad_template_leaves_the_tuner_inactive() {
    let mut manager = manager_with(vec![TunerConfig {
        name: "a".to_string(),
        channel_types: vec![ChannelType::GR],
        command: "recv {{channel}} {{#x}}".to_string(),
        disabled: false,
    }]);
    let failed = manager.activate_tuner(ChannelType::GR, "27", &create_user(0.into()));
    assert!(matches!(failed, Err(TunerError::TemplateFailed)));
    manager.tuners[0].activate(ChannelType::GR, "27".to_string(), "x".to_string(), 1);
    manager.tuners[0].subscribe(create_user(0.into()));
    let failed = manager.activate_tuner(ChannelType::GR, "26", &create_user(1.into()));
    assert!(matches!(failed, Err(TunerError::TemplateFailed)));
    assert!(!manager.tuners[0].is_active());
}

#[test]
fn stop_streaming_deactivates_with_the_last_subscriber() {
    let mut manager = manager_with(vec![tuner_config("a", vec![ChannelType::GR], false)]);
    let user = TunerUser {
        info: TunerUserInfo::Web { remote: Some("127.0.0.1".to_string()), agent: None },
        priority: 0.into(),
    };
    let msg = StartStreamingMessage {
        channel_type: ChannelType::GR,
        channel: "27".to_string(),
        user: user.clone(),
    };
    let activation = manager.handle_start_streaming(&msg).unwrap();
    let id = match activation {
        TunerActivation::Spawn { tuner_index, command, .. } => manager
            .complete_activation(tuner_index, msg.channel_type, msg.channel.clone(), command, Some(5), user)
            .unwrap(),
        TunerActivation::Subscribed(id) => id,
    };
    assert!(manager.finish_start_streaming(id, true));
    assert!(manager.tuners[0].is_active());

    let result = manager.handle_stop_streaming(StopStreamingMessage { id: Default::default() });
    assert!(matches!(result, Err(TunerError::SessionNotFound)));
    assert!(manager.tuners[0].is_active());

    let result = manager.handle_stop_streaming(StopStreamingMessage { id });
    assert!(matches!(result, Ok(())));
    assert!(!manager.tuners[0].is_active());
}

#[test]
fn undelivered_subscription_deactivates_the_tuner() {
    let mut manager = manager_with(vec![tuner_config("a", vec![ChannelType::GR], false)]);
    let id = start(&mut manager, ChannelType::GR, "27", &create_user(0.into()), 5).unwrap();
    assert!(!manager.finish_start_streaming(id, false));
    assert!(!manager.tuners[0].is_active());
    manager.deactivate_all();
    assert!(!manager.tuners[0].is_active());
}

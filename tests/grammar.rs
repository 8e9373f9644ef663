use oxy::invocation::{
    destination, fits, invocation_from_reads, mode, table_fits, value_from_read, ArgValue,
};
use oxy::logging::{log_level, logging_directive, LogLevel};
use oxy::mode::{mode_from_name, mode_name, perspective_of, Mode, Perspective};
use oxy::resolve::{after_direct, after_retry, Attempt, Resolution, Step};
use oxy::schema::{arg_ordinal, arg_spec, build, mode_args, ArgId, ARG_COUNT};

const ALL: [Mode; 9] = [
    Mode::Client,
    Mode::Reexec,
    Mode::Server,
    Mode::ServeOne,
    Mode::ReverseServer,
    Mode::ReverseClient,
    Mode::Copy,
    Mode::Guide,
    Mode::Keygen,
];

#[test]
fn perspective_table() {
    for m in ALL.iter() {
        let expected = match m {
            Mode::Reexec | Mode::Server | Mode::ServeOne | Mode::ReverseServer => Perspective::Responder,
            _ => Perspective::Initiator,
        };
        assert_eq!(perspective_of(*m), expected, "{:?}", m);
    }
}

#[test]
fn mode_names_round_trip() {
    for m in ALL.iter() {
        assert_eq!(mode_from_name(&mode_name(*m).to_string()), Some(*m));
    }
    assert_eq!(mode_name(Mode::ServeOne), "serve-one");
    assert_eq!(mode_name(Mode::ReverseClient), "reverse-client");
    assert_eq!(mode_from_name(&"somehost".to_string()), None);
    assert_eq!(mode_from_name(&"".to_string()), None);
}

#[test]
fn verbosity_levels() {
    assert_eq!(log_level(0), LogLevel::Info);
    assert_eq!(log_level(1), LogLevel::Debug);
    assert_eq!(log_level(2), LogLevel::Trace);
    assert_eq!(log_level(3), LogLevel::Trace);
    assert_eq!(log_level(u64::MAX), LogLevel::Trace);
}

#[test]
fn directive_respects_override() {
    assert_eq!(logging_directive(0, false), Some("oxy=info"));
    assert_eq!(logging_directive(1, false), Some("oxy=debug"));
    assert_eq!(logging_directive(2, false), Some("oxy=trace"));
    assert_eq!(logging_directive(5, false), Some("oxy=trace"));
    assert_eq!(logging_directive(1, true), None);
}

#[test]
fn schema_lists_nine_modes() {
    let schema = build();
    assert_eq!(schema.modes.len(), 9);
    for (spec, m) in schema.modes.iter().zip(ALL.iter()) {
        assert_eq!(spec.mode, *m);
        assert_eq!(spec.hidden, *m == Mode::Reexec);
        let ids: Vec<ArgId> = spec.args.iter().map(|a| a.id).collect();
        assert_eq!(ids, mode_args(*m));
    }
}

#[test]
fn argument_descriptions() {
    let m = arg_spec(ArgId::Metacommand);
    assert_eq!((m.short, m.long, m.takes_value, m.multiple), (Some("m"), Some("metacommand"), true, true));
    let p = arg_spec(ArgId::Port);
    assert_eq!(p.default_value, Some("2600"));
    let b = arg_spec(ArgId::BindAddress);
    assert_eq!((b.index, b.default_value), (Some(1), Some("::0")));
    let d = arg_spec(ArgId::Destination);
    assert!(d.required);
    assert_eq!(arg_spec(ArgId::Identity).env, Some("OXY_IDENTITY"));
    assert!(!arg_spec(ArgId::Verbose).takes_value);
    assert_eq!(mode_args(Mode::Guide).len(), 0);
    assert_eq!(mode_args(Mode::Client).last(), Some(&ArgId::Destination));
    assert_eq!(mode_args(Mode::Reexec).first(), Some(&ArgId::Fd));
}

#[test]
fn ordinals_are_distinct() {
    let ids = [
        ArgId::Metacommand, ArgId::Identity, ArgId::Command, ArgId::LocalForward,
        ArgId::RemoteForward, ArgId::Socks, ArgId::Port, ArgId::User, ArgId::Via,
        ArgId::Verbose, ArgId::XForwarding, ArgId::TrustedXForwarding, ArgId::ServerConfig,
        ArgId::ClientConfig, ArgId::ForcedCommand, ArgId::UnsafeReexec, ArgId::Compression,
        ArgId::NoTmux, ArgId::Multiplexer, ArgId::Destination, ArgId::Fd, ArgId::BindAddress,
        ArgId::Location,
    ];
    let mut seen = vec![false; ARG_COUNT];
    for id in ids.iter() {
        let k = arg_ordinal(*id);
        assert!(!seen[k]);
        seen[k] = true;
    }
}

#[test]
fn retry_policy() {
    assert!(matches!(after_direct(Attempt::Rejected, true), Step::RetryAsClient));
    assert!(matches!(after_direct(Attempt::Rejected, false), Step::Done(Resolution::Failed)));
    assert!(matches!(after_direct(Attempt::HelpRequested, true), Step::Done(Resolution::HelpRequested)));
    assert!(matches!(after_retry(Attempt::Rejected), Resolution::Failed));
    assert!(matches!(after_retry(Attempt::HelpRequested), Resolution::Failed));
}

fn absent_table() -> Vec<ArgValue> {
    (0..ARG_COUNT).map(|_| ArgValue::Absent).collect()
}

fn client_table(dest: Option<&str>) -> Vec<ArgValue> {
    let mut t = absent_table();
    for id in mode_args(Mode::Client) {
        let v = match id {
            ArgId::Verbose | ArgId::XForwarding | ArgId::TrustedXForwarding | ArgId::Compression => {
                ArgValue::Count(0)
            }
            ArgId::Destination => match dest {
                Some(d) => ArgValue::Single(d.to_string()),
                None => ArgValue::Absent,
            },
            _ => ArgValue::Absent,
        };
        t[arg_ordinal(id)] = v;
    }
    t
}

#[test]
fn value_from_read_by_kind() {
    assert!(matches!(value_from_read(ArgId::Verbose, 3, None, None), ArgValue::Count(3)));
    assert!(matches!(
        value_from_read(ArgId::Metacommand, 0, None, Some(vec!["a".to_string(), "b".to_string()])),
        ArgValue::Many(v) if v == vec!["a", "b"]
    ));
    assert!(matches!(value_from_read(ArgId::Metacommand, 0, None, None), ArgValue::Absent));
    assert!(matches!(
        value_from_read(ArgId::Port, 0, Some("22".to_string()), None),
        ArgValue::Single(p) if p == "22"
    ));
    assert!(matches!(value_from_read(ArgId::User, 0, None, None), ArgValue::Absent));
}

#[test]
fn fits_by_kind() {
    assert!(fits(ArgId::Verbose, &ArgValue::Count(0)));
    assert!(!fits(ArgId::Verbose, &ArgValue::Absent));
    assert!(!fits(ArgId::Destination, &ArgValue::Absent));
    assert!(fits(ArgId::Destination, &ArgValue::Single("h".to_string())));
    assert!(fits(ArgId::Via, &ArgValue::Absent));
    assert!(!fits(ArgId::Port, &ArgValue::Many(vec![])));
}

#[test]
fn reads_become_an_invocation() {
    let inv = invocation_from_reads(&"client".to_string(), client_table(Some("h"))).unwrap();
    assert_eq!(mode(&inv), Mode::Client);
    assert_eq!(destination(&inv), "h");
    assert!(invocation_from_reads(&"client".to_string(), client_table(None)).is_none());
    assert!(invocation_from_reads(&"nosuchmode".to_string(), client_table(Some("h"))).is_none());
    assert!(invocation_from_reads(&"server".to_string(), client_table(Some("h"))).is_none());
    let guide = invocation_from_reads(&"guide".to_string(), absent_table()).unwrap();
    assert_eq!(mode(&guide), Mode::Guide);
    assert!(table_fits(Mode::Keygen, &absent_table()));
    assert!(!table_fits(Mode::Server, &absent_table()));
}

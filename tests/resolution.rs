use oxy::invocation::{
    active_arguments, batched_metacommands, bind_address, destination, mode, perspective,
    value_of, verbosity, ArgValue, Invocation,
};
use oxy::mode::{Mode, Perspective};
use oxy::resolve::{names_mode_first, resolve, with_implicit_client, Resolution};
use oxy::schema::ArgId;

fn argv(words: &[&str]) -> Vec<String> {
    words.iter().map(|w| w.to_string()).collect()
}

fn resolved(words: &[&str]) -> Invocation {
    match resolve(&argv(words), "0.1.0", "") {
        Resolution::Resolved(inv) => inv,
        other => panic!("{:?} did not resolve: {:?}", words, other),
    }
}

fn fails(words: &[&str]) -> bool {
    matches!(resolve(&argv(words), "0.1.0", ""), Resolution::Failed)
}

#[test]
fn each_mode_resolves_to_itself() {
    let cases: [(&[&str], Mode); 9] = [
        (&["oxy", "client", "host"], Mode::Client),
        (&["oxy", "server"], Mode::Server),
        (&["oxy", "reexec", "--fd", "3"], Mode::Reexec),
        (&["oxy", "serve-one"], Mode::ServeOne),
        (&["oxy", "reverse-server", "host"], Mode::ReverseServer),
        (&["oxy", "reverse-client"], Mode::ReverseClient),
        (&["oxy", "copy", "a", "b"], Mode::Copy),
        (&["oxy", "guide"], Mode::Guide),
        (&["oxy", "keygen"], Mode::Keygen),
    ];
    for (words, expected) in cases.iter() {
        assert_eq!(mode(&resolved(words)), *expected, "{:?}", words);
    }
}

#[test]
fn perspective_follows_mode() {
    let responders: [&[&str]; 4] = [
        &["oxy", "reexec", "--fd", "3"],
        &["oxy", "server"],
        &["oxy", "serve-one"],
        &["oxy", "reverse-server", "host"],
    ];
    for words in responders.iter() {
        assert_eq!(perspective(&resolved(words)), Perspective::Responder, "{:?}", words);
    }
    let initiators: [&[&str]; 5] = [
        &["oxy", "client", "host"],
        &["oxy", "reverse-client"],
        &["oxy", "copy", "a"],
        &["oxy", "guide"],
        &["oxy", "keygen"],
    ];
    for words in initiators.iter() {
        assert_eq!(perspective(&resolved(words)), Perspective::Initiator, "{:?}", words);
    }
}

#[test]
fn bare_host_is_an_implicit_client() {
    let implicit = resolved(&["oxy", "somehost"]);
    let explicit = resolved(&["oxy", "client", "somehost"]);
    assert_eq!(mode(&implicit), Mode::Client);
    assert_eq!(destination(&implicit), "somehost");
    assert_eq!(mode(&explicit), mode(&implicit));
    assert_eq!(destination(&explicit), destination(&implicit));
}

#[test]
fn client_without_destination_fails() {
    assert!(fails(&["oxy", "client"]));
    assert!(fails(&["oxy", "client", "--bogus"]));
}

#[test]
fn metacommands_keep_order_and_repeats() {
    let inv = resolved(&["oxy", "client", "-m", "a", "-m", "b", "-m", "c", "host"]);
    assert_eq!(batched_metacommands(&inv), vec!["a", "b", "c"]);
    let inv = resolved(&["oxy", "client", "-m", "x", "--metacommand", "x", "host"]);
    assert_eq!(batched_metacommands(&inv), vec!["x", "x"]);
}

#[test]
fn no_metacommands_gives_empty_list() {
    let inv = resolved(&["oxy", "client", "host"]);
    assert!(batched_metacommands(&inv).is_empty());
    let inv = resolved(&["oxy", "server"]);
    assert!(batched_metacommands(&inv).is_empty());
}

#[test]
fn repeated_reads_agree() {
    let inv = resolved(&["oxy", "client", "-v", "host", "ls"]);
    assert_eq!(mode(&inv), mode(&inv));
    assert_eq!(destination(&inv), destination(&inv));
    assert_eq!(destination(&inv), "host");
    assert_eq!(active_arguments(&inv).len(), active_arguments(&inv).len());
    assert_eq!(format!("{:?}", active_arguments(&inv)), format!("{:?}", active_arguments(&inv)));
}

#[test]
fn reexec_without_fd_fails() {
    assert!(fails(&["oxy", "reexec"]));
    assert!(fails(&["oxy", "server", "extra"]));
}

#[test]
fn client_destination_skips_flag_values_and_command() {
    let inv = resolved(&["oxy", "client", "-p", "22", "h", "ls"]);
    assert_eq!(destination(&inv), "h");
    assert_eq!(destination(&resolved(&["oxy", "reverse-server", "example.org"])), "example.org");
}

#[test]
fn first_word_decides_whether_to_retry() {
    assert!(names_mode_first(&argv(&["oxy", "client"])));
    assert!(names_mode_first(&argv(&["oxy", "reexec", "--fd", "3"])));
    assert!(!names_mode_first(&argv(&["oxy", "somehost"])));
    assert!(!names_mode_first(&argv(&["oxy", "-m", "a", "host"])));
    assert!(!names_mode_first(&argv(&["oxy"])));
}

#[test]
fn help_is_reported_not_retried() {
    assert!(matches!(resolve(&argv(&["oxy", "--help"]), "0.1.0", ""), Resolution::HelpRequested));
    assert!(matches!(resolve(&argv(&["oxy", "server", "--help"]), "0.1.0", ""), Resolution::HelpRequested));
}

#[test]
fn missing_subcommand_fails() {
    assert!(fails(&["oxy"]));
}

#[test]
fn unknown_flag_fails_after_retry() {
    assert!(fails(&["oxy", "server", "--bogus"]));
}

#[test]
fn bind_address_defaults() {
    assert_eq!(bind_address(&resolved(&["oxy", "serve-one"])), "::0");
    assert_eq!(bind_address(&resolved(&["oxy", "reverse-client"])), "::0");
    assert_eq!(bind_address(&resolved(&["oxy", "serve-one", "127.0.0.1"])), "127.0.0.1");
    assert_eq!(bind_address(&resolved(&["oxy", "client", "host"])), "0.0.0.0");
    assert_eq!(bind_address(&resolved(&["oxy", "server"])), "0.0.0.0");
}

#[test]
fn reverse_server_has_destination() {
    assert_eq!(destination(&resolved(&["oxy", "reverse-server", "far"])), "far");
    assert!(fails(&["oxy", "reverse-server"]));
}

#[test]
fn verbosity_counts_occurrences() {
    assert_eq!(verbosity(&resolved(&["oxy", "server"])), 0);
    assert_eq!(verbosity(&resolved(&["oxy", "server", "-v"])), 1);
    assert_eq!(verbosity(&resolved(&["oxy", "server", "-vv"])), 2);
    assert_eq!(verbosity(&resolved(&["oxy", "server", "-v", "--verbose", "-v"])), 3);
    assert_eq!(verbosity(&resolved(&["oxy", "guide"])), 0);
}

#[test]
fn port_and_config_defaults() {
    let inv = resolved(&["oxy", "server"]);
    assert!(matches!(value_of(&inv, ArgId::Port), ArgValue::Single(p) if p == "2600"));
    assert!(matches!(value_of(&inv, ArgId::ServerConfig), ArgValue::Single(p) if p == "~/.config/oxy/server.conf"));
    assert!(matches!(value_of(&inv, ArgId::Multiplexer), ArgValue::Single(p) if p == "/usr/bin/tmux new-session -A -s oxy"));
    let inv = resolved(&["oxy", "client", "-p", "22", "host"]);
    assert!(matches!(value_of(&inv, ArgId::Port), ArgValue::Single(p) if p == "22"));
}

#[test]
fn arguments_of_other_modes_are_absent() {
    let inv = resolved(&["oxy", "server"]);
    assert!(matches!(value_of(&inv, ArgId::Metacommand), ArgValue::Absent));
    assert!(matches!(value_of(&inv, ArgId::Destination), ArgValue::Absent));
    assert!(matches!(value_of(&inv, ArgId::UnsafeReexec), ArgValue::Count(0)));
    let inv = resolved(&["oxy", "reexec", "--fd", "7"]);
    assert!(matches!(value_of(&inv, ArgId::Fd), ArgValue::Single(fd) if fd == "7"));
}

#[test]
fn forwards_and_command_are_read() {
    let inv = resolved(&["oxy", "client", "-L", "80:h:80", "-L", "81:h:81", "-X", "host", "uptime"]);
    assert!(matches!(value_of(&inv, ArgId::LocalForward), ArgValue::Many(v) if v == &vec!["80:h:80", "81:h:81"]));
    assert!(matches!(value_of(&inv, ArgId::XForwarding), ArgValue::Count(1)));
    assert!(matches!(value_of(&inv, ArgId::Command), ArgValue::Single(c) if c == "uptime"));
    assert!(matches!(value_of(&inv, ArgId::RemoteForward), ArgValue::Absent));
}

#[test]
fn copy_locations_keep_order() {
    let inv = resolved(&["oxy", "copy", "src1", "src2", "dst"]);
    assert!(matches!(value_of(&inv, ArgId::Location), ArgValue::Many(v) if v == &vec!["src1", "src2", "dst"]));
}

#[test]
fn implicit_client_inserts_after_program_name() {
    assert_eq!(with_implicit_client(&argv(&["oxy", "somehost"])), argv(&["oxy", "client", "somehost"]));
    assert_eq!(with_implicit_client(&argv(&["oxy"])), argv(&["oxy", "client"]));
    assert_eq!(
        with_implicit_client(&argv(&["oxy", "-m", "a", "h"])),
        argv(&["oxy", "client", "-m", "a", "h"])
    );
}

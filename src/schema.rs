//! The command grammar as plain data: every argument and every mode that accepts it.
use crate::mode::{all_modes, Mode};
use vstd::prelude::*;

verus! {

/// Every argument that some mode accepts.
#[derive(Clone, Copy, Debug, PartialEq, Eq, Structural)]
pub enum ArgId {
    Metacommand,
    Identity,
    Command,
    LocalForward,
    RemoteForward,
    Socks,
    Port,
    User,
    Via,
    Verbose,
    XForwarding,
    TrustedXForwarding,
    ServerConfig,
    ClientConfig,
    ForcedCommand,
    UnsafeReexec,
    Compression,
    NoTmux,
    Multiplexer,
    Destination,
    Fd,
    BindAddress,
    Location,
}

/// Number of argument identifiers.
pub const ARG_COUNT: usize = 23;

/// How one argument is written and what it holds.
#[derive(Clone, Copy, Debug)]
pub struct ArgSpec {
    pub id: ArgId,
    pub name: &'static str,
    pub short: Option<&'static str>,
    pub long: Option<&'static str>,
    pub takes_value: bool,
    pub multiple: bool,
    pub index: Option<u64>,
    pub default_value: Option<&'static str>,
    pub env: Option<&'static str>,
    pub required: bool,
    pub display_order: Option<usize>,
    pub help: Option<&'static str>,
}

/// One subcommand of the grammar.
#[derive(Clone, Debug)]
pub struct ModeSpec {
    pub mode: Mode,
    pub about: &'static str,
    pub hidden: bool,
    pub args: Vec<ArgSpec>,
}

/// The whole grammar: its modes in display order.
#[derive(Clone, Debug)]
pub struct Schema {
    pub modes: Vec<ModeSpec>,
}

/// Position of an argument in a table indexed by argument.
pub open spec fn spec_arg_ordinal(id: ArgId) -> nat {
    match id {
        ArgId::Metacommand => 0,
        ArgId::Identity => 1,
        ArgId::Command => 2,
        ArgId::LocalForward => 3,
        ArgId::RemoteForward => 4,
        ArgId::Socks => 5,
        ArgId::Port => 6,
        ArgId::User => 7,
        ArgId::Via => 8,
        ArgId::Verbose => 9,
        ArgId::XForwarding => 10,
        ArgId::TrustedXForwarding => 11,
        ArgId::ServerConfig => 12,
        ArgId::ClientConfig => 13,
        ArgId::ForcedCommand => 14,
        ArgId::UnsafeReexec => 15,
        ArgId::Compression => 16,
        ArgId::NoTmux => 17,
        ArgId::Multiplexer => 18,
        ArgId::Destination => 19,
        ArgId::Fd => 20,
        ArgId::BindAddress => 21,
        ArgId::Location => 22,
    }
}

/// The key under which the parser stores an argument.
pub open spec fn spec_arg_name(id: ArgId) -> Seq<char> {
    match id {
        ArgId::Metacommand => "metacommand"@,
        ArgId::Identity => "identity"@,
        ArgId::Command => "command"@,
        ArgId::LocalForward => "local port forward"@,
        ArgId::RemoteForward => "remote port forward"@,
        ArgId::Socks => "socks"@,
        ArgId::Port => "port"@,
        ArgId::User => "user"@,
        ArgId::Via => "via"@,
        ArgId::Verbose => "verbose"@,
        ArgId::XForwarding => "X Forwarding"@,
        ArgId::TrustedXForwarding => "Trusted X Forwarding"@,
        ArgId::ServerConfig => "server config"@,
        ArgId::ClientConfig => "client config"@,
        ArgId::ForcedCommand => "forced command"@,
        ArgId::UnsafeReexec => "unsafe reexec"@,
        ArgId::Compression => "compression"@,
        ArgId::NoTmux => "no tmux"@,
        ArgId::Multiplexer => "multiplexer"@,
        ArgId::Destination => "destination"@,
        ArgId::Fd => "fd"@,
        ArgId::BindAddress => "bind-address"@,
        ArgId::Location => "location"@,
    }
}

/// The one-letter flag of an argument.
pub open spec fn spec_short(id: ArgId) -> Option<Seq<char>> {
    match id {
        ArgId::Metacommand => Some("m"@),
        ArgId::Identity => Some("i"@),
        ArgId::LocalForward => Some("L"@),
        ArgId::RemoteForward => Some("R"@),
        ArgId::Socks => Some("D"@),
        ArgId::Port => Some("p"@),
        ArgId::Verbose => Some("v"@),
        ArgId::XForwarding => Some("X"@),
        ArgId::TrustedXForwarding => Some("Y"@),
        ArgId::Compression => Some("C"@),
        _ => None,
    }
}

/// The long flag of an argument.
pub open spec fn spec_long(id: ArgId) -> Option<Seq<char>> {
    match id {
        ArgId::Metacommand => Some("metacommand"@),
        ArgId::Identity => Some("identity"@),
        ArgId::Socks => Some("socks"@),
        ArgId::Port => Some("port"@),
        ArgId::User => Some("user"@),
        ArgId::Via => Some("via"@),
        ArgId::Verbose => Some("verbose"@),
        ArgId::XForwarding => Some("x-forwarding"@),
        ArgId::TrustedXForwarding => Some("trusted-x-forwarding"@),
        ArgId::ServerConfig => Some("server-config"@),
        ArgId::ClientConfig => Some("client-config"@),
        ArgId::ForcedCommand => Some("forced-command"@),
        ArgId::UnsafeReexec => Some("unsafe-reexec"@),
        ArgId::Compression => Some("compress"@),
        ArgId::NoTmux => Some("no-tmux"@),
        ArgId::Multiplexer => Some("multiplexer"@),
        ArgId::Fd => Some("fd"@),
        _ => None,
    }
}

/// Arguments that are bare flags: they hold an occurrence count and no value.
pub open spec fn spec_is_flag(id: ArgId) -> bool {
    match id {
        ArgId::Verbose | ArgId::XForwarding | ArgId::TrustedXForwarding | ArgId::UnsafeReexec
        | ArgId::Compression | ArgId::NoTmux => true,
        _ => false,
    }
}

/// Arguments that may be given several times, each occurrence adding one value (or one count).
pub open spec fn spec_is_multiple(id: ArgId) -> bool {
    match id {
        ArgId::Metacommand | ArgId::LocalForward | ArgId::RemoteForward | ArgId::Socks
        | ArgId::Via | ArgId::Verbose | ArgId::Location => true,
        _ => false,
    }
}

/// The place of a positional argument, counting from one.
pub open spec fn spec_index(id: ArgId) -> Option<u64> {
    match id {
        ArgId::Destination | ArgId::BindAddress | ArgId::Location => Some(1),
        ArgId::Command => Some(2),
        _ => None,
    }
}

/// Arguments without which a parse fails.
pub open spec fn spec_is_required(id: ArgId) -> bool {
    id == ArgId::Destination || id == ArgId::Fd
}

/// The value an argument takes when the command line gives none.
pub open spec fn spec_default(id: ArgId) -> Option<Seq<char>> {
    match id {
        ArgId::Port => Some("2600"@),
        ArgId::ServerConfig => Some("~/.config/oxy/server.conf"@),
        ArgId::ClientConfig => Some("~/.config/oxy/client.conf"@),
        ArgId::Multiplexer => Some("/usr/bin/tmux new-session -A -s oxy"@),
        ArgId::BindAddress => Some("::0"@),
        _ => None,
    }
}

/// The environment variable that an argument falls back to.
pub open spec fn spec_env(id: ArgId) -> Option<Seq<char>> {
    if id == ArgId::Identity {
        Some("OXY_IDENTITY"@)
    } else {
        None
    }
}

/// The position of an argument in the help listing, where it is fixed.
pub open spec fn spec_display_order(id: ArgId) -> Option<usize> {
    match id {
        ArgId::LocalForward => Some(102),
        ArgId::RemoteForward => Some(103),
        ArgId::Socks => Some(104),
        _ => None,
    }
}

pub open spec fn opt_view(o: Option<&'static str>) -> Option<Seq<char>> {
    match o {
        Some(s) => Some(s@),
        None => None,
    }
}

/// An argument description agrees with the grammar on everything but its help text.
pub open spec fn arg_spec_ok(a: ArgSpec) -> bool {
    &&& a.name@ == spec_arg_name(a.id)
    &&& opt_view(a.short) == spec_short(a.id)
    &&& opt_view(a.long) == spec_long(a.id)
    &&& a.takes_value == !spec_is_flag(a.id)
    &&& a.multiple == spec_is_multiple(a.id)
    &&& a.index == spec_index(a.id)
    &&& opt_view(a.default_value) == spec_default(a.id)
    &&& opt_view(a.env) == spec_env(a.id)
    &&& a.required == spec_is_required(a.id)
    &&& a.display_order == spec_display_order(a.id)
}

/// The arguments shared by the modes that open a session.
pub open spec fn client_family() -> Seq<ArgId> {
    seq![
        ArgId::Metacommand,
        ArgId::Identity,
        ArgId::LocalForward,
        ArgId::RemoteForward,
        ArgId::Socks,
        ArgId::Port,
        ArgId::XForwarding,
        ArgId::TrustedXForwarding,
        ArgId::ServerConfig,
        ArgId::ClientConfig,
        ArgId::User,
        ArgId::Via,
        ArgId::Compression,
        ArgId::Verbose,
        ArgId::Command,
    ]
}

/// The arguments shared by the modes that serve a session.
pub open spec fn server_family() -> Seq<ArgId> {
    seq![
        ArgId::ServerConfig,
        ArgId::ClientConfig,
        ArgId::ForcedCommand,
        ArgId::Identity,
        ArgId::Port,
        ArgId::Verbose,
        ArgId::NoTmux,
        ArgId::Multiplexer,
    ]
}

/// The arguments of each mode, in the order in which the grammar declares them.
pub open spec fn spec_mode_args(m: Mode) -> Seq<ArgId> {
    match m {
        Mode::Client => client_family().push(ArgId::Destination),
        Mode::Reexec => seq![ArgId::Fd] + server_family(),
        Mode::Server => server_family().push(ArgId::UnsafeReexec),
        Mode::ServeOne => server_family().push(ArgId::BindAddress),
        Mode::ReverseServer => server_family().push(ArgId::Destination),
        Mode::ReverseClient => client_family().push(ArgId::BindAddress),
        Mode::Copy => seq![
            ArgId::ClientConfig,
            ArgId::ServerConfig,
            ArgId::Compression,
            ArgId::Location,
            ArgId::Identity,
            ArgId::Verbose,
        ],
        Mode::Guide | Mode::Keygen => seq![],
    }
}

/// A mode description agrees with the grammar on its mode.
pub open spec fn mode_spec_ok(s: ModeSpec, m: Mode) -> bool {
    &&& s.mode == m
    &&& s.hidden == (m == Mode::Reexec)
    &&& s.args@.len() == spec_mode_args(m).len()
    &&& forall|k: int|
        0 <= k < s.args@.len() ==> (#[trigger] s.args@[k]).id == spec_mode_args(m)[k]
            && arg_spec_ok(s.args@[k])
}

/// A schema lists every mode once, in display order, each as the grammar has it.
pub open spec fn schema_ok(s: Schema) -> bool {
    &&& s.modes@.len() == all_modes().len()
    &&& forall|i: int| 0 <= i < s.modes@.len() ==> mode_spec_ok(#[trigger] s.modes@[i], all_modes()[i])
}


pub fn arg_ordinal(id: ArgId) -> (r: usize)
    ensures
        r == spec_arg_ordinal(id),
        r < ARG_COUNT,
{
    match id {
        ArgId::Metacommand => 0,
        ArgId::Identity => 1,
        ArgId::Command => 2,
        ArgId::LocalForward => 3,
        ArgId::RemoteForward => 4,
        ArgId::Socks => 5,
        ArgId::Port => 6,
        ArgId::User => 7,
        ArgId::Via => 8,
        ArgId::Verbose => 9,
        ArgId::XForwarding => 10,
        ArgId::TrustedXForwarding => 11,
        ArgId::ServerConfig => 12,
        ArgId::ClientConfig => 13,
        ArgId::ForcedCommand => 14,
        ArgId::UnsafeReexec => 15,
        ArgId::Compression => 16,
        ArgId::NoTmux => 17,
        ArgId::Multiplexer => 18,
        ArgId::Destination => 19,
        ArgId::Fd => 20,
        ArgId::BindAddress => 21,
        ArgId::Location => 22,
    }
}

/// A bare flag with the given key and help text.
fn flag(id: ArgId, name: &'static str, help: &'static str) -> (r: ArgSpec)
    ensures
        r.id == id,
        r.name@ == name@,
        r.short is None && r.long is None && r.index is None,
        r.default_value is None && r.env is None && r.display_order is None,
        !r.takes_value && !r.multiple && !r.required,
        r.help == Some(help),
{
    ArgSpec {
        id,
        name,
        short: None,
        long: None,
        takes_value: false,
        multiple: false,
        index: None,
        default_value: None,
        env: None,
        required: false,
        display_order: None,
        help: Some(help),
    }
}

/// The description of one argument, the same in every mode that accepts it.
pub fn arg_spec(id: ArgId) -> (r: ArgSpec)
    ensures
        r.id == id,
        arg_spec_ok(r),
{
    match id {
        ArgId::Metacommand => ArgSpec {
            short: Some("m"),
            long: Some("metacommand"),
            takes_value: true,
            multiple: true,
            ..flag(id, "metacommand",
                "A command to run after the connection is established. The same commands from the F10 prompt.")
        },
        ArgId::Identity => ArgSpec {
            short: Some("i"),
            long: Some("identity"),
            takes_value: true,
            env: Some("OXY_IDENTITY"),
            ..flag(id, "identity",
                "Use [identity] as authentication information for connecting to the remote server.")
        },
        ArgId::Command => ArgSpec {
            takes_value: true,
            index: Some(2),
            help: None,
            ..flag(id, "command", "")
        },
        ArgId::LocalForward => ArgSpec {
            short: Some("L"),
            takes_value: true,
            multiple: true,
            display_order: Some(102),
            ..flag(id, "local port forward", "Create a local portforward")
        },
        ArgId::RemoteForward => ArgSpec {
            short: Some("R"),
            takes_value: true,
            multiple: true,
            display_order: Some(103),
            ..flag(id, "remote port forward", "Create a remote portforward")
        },
        ArgId::Socks => ArgSpec {
            short: Some("D"),
            long: Some("socks"),
            takes_value: true,
            multiple: true,
            display_order: Some(104),
            ..flag(id, "socks", "Bind a local port as a SOCKS5 proxy")
        },
        ArgId::Port => ArgSpec {
            short: Some("p"),
            long: Some("port"),
            takes_value: true,
            default_value: Some("2600"),
            ..flag(id, "port", "The port used for TCP")
        },
        ArgId::User => ArgSpec {
            long: Some("user"),
            takes_value: true,
            ..flag(id, "user",
                "The remote username to log in with. Only applicable for servers using --su-mode")
        },
        ArgId::Via => ArgSpec {
            long: Some("via"),
            takes_value: true,
            multiple: true,
            ..flag(id, "via",
                "Connect to a different oxy server first, then proxy traffic through the intermediary server.")
        },
        ArgId::Verbose => ArgSpec {
            short: Some("v"),
            long: Some("verbose"),
            multiple: true,
            ..flag(id, "verbose", "Increase debugging output")
        },
        ArgId::XForwarding => ArgSpec {
            short: Some("X"),
            long: Some("x-forwarding"),
            ..flag(id, "X Forwarding", "Enable X forwarding")
        },
        ArgId::TrustedXForwarding => ArgSpec {
            short: Some("Y"),
            long: Some("trusted-x-forwarding"),
            ..flag(id, "Trusted X Forwarding", "Enable trusted X forwarding")
        },
        ArgId::ServerConfig => ArgSpec {
            long: Some("server-config"),
            takes_value: true,
            default_value: Some("~/.config/oxy/server.conf"),
            ..flag(id, "server config", "Path to server.conf")
        },
        ArgId::ClientConfig => ArgSpec {
            long: Some("client-config"),
            takes_value: true,
            default_value: Some("~/.config/oxy/client.conf"),
            ..flag(id, "client config", "Path to client.conf")
        },
        ArgId::ForcedCommand => ArgSpec {
            long: Some("forced-command"),
            takes_value: true,
            ..flag(id, "forced command", "Restrict command execution to the specified command")
        },
        ArgId::UnsafeReexec => ArgSpec {
            long: Some("unsafe-reexec"),
            ..flag(id, "unsafe reexec", "Bypass safety restrictions intended to avoid privilege elevation")
        },
        ArgId::Compression => ArgSpec {
            short: Some("C"),
            long: Some("compress"),
            ..flag(id, "compression", "Enable ZLIB format compression of all transmitted data")
        },
        ArgId::NoTmux => ArgSpec {
            long: Some("no-tmux"),
            ..flag(id, "no tmux", "Do not use a terminal multiplexer as the default pty command")
        },
        ArgId::Multiplexer => ArgSpec {
            long: Some("multiplexer"),
            takes_value: true,
            default_value: Some("/usr/bin/tmux new-session -A -s oxy"),
            ..flag(id, "multiplexer",
                "The command to attach to a terminal multiplexer. Ignored if the first component is not an existent file, or if --no-tmux is supplied.")
        },
        ArgId::Destination => ArgSpec {
            takes_value: true,
            index: Some(1),
            required: true,
            help: None,
            ..flag(id, "destination", "")
        },
        ArgId::Fd => ArgSpec {
            long: Some("fd"),
            takes_value: true,
            required: true,
            help: None,
            ..flag(id, "fd", "")
        },
        ArgId::BindAddress => ArgSpec {
            takes_value: true,
            index: Some(1),
            default_value: Some("::0"),
            help: None,
            ..flag(id, "bind-address", "")
        },
        ArgId::Location => ArgSpec {
            takes_value: true,
            multiple: true,
            index: Some(1),
            help: None,
            ..flag(id, "location", "")
        },
    }
}

fn client_family_ids() -> (r: Vec<ArgId>)
    ensures
        r@ == client_family(),
{
    let r = vec![
        ArgId::Metacommand,
        ArgId::Identity,
        ArgId::LocalForward,
        ArgId::RemoteForward,
        ArgId::Socks,
        ArgId::Port,
        ArgId::XForwarding,
        ArgId::TrustedXForwarding,
        ArgId::ServerConfig,
        ArgId::ClientConfig,
        ArgId::User,
        ArgId::Via,
        ArgId::Compression,
        ArgId::Verbose,
        ArgId::Command,
    ];
    assert(r@ =~= client_family());
    r
}

fn server_family_ids() -> (r: Vec<ArgId>)
    ensures
        r@ == server_family(),
{
    let r = vec![
        ArgId::ServerConfig,
        ArgId::ClientConfig,
        ArgId::ForcedCommand,
        ArgId::Identity,
        ArgId::Port,
        ArgId::Verbose,
        ArgId::NoTmux,
        ArgId::Multiplexer,
    ];
    assert(r@ =~= server_family());
    r
}

/// The arguments of a mode, in declaration order.
pub fn mode_args(m: Mode) -> (r: Vec<ArgId>)
    ensures
        r@ == spec_mode_args(m),
{
    match m {
        Mode::Client => {
            let mut r = client_family_ids();
            r.push(ArgId::Destination);
            r
        },
        Mode::Reexec => {
            let mut r = vec![ArgId::Fd];
            let mut rest = server_family_ids();
            r.append(&mut rest);
            assert(r@ =~= seq![ArgId::Fd] + server_family());
            r
        },
        Mode::Server => {
            let mut r = server_family_ids();
            r.push(ArgId::UnsafeReexec);
            r
        },
        Mode::ServeOne => {
            let mut r = server_family_ids();
            r.push(ArgId::BindAddress);
            r
        },
        Mode::ReverseServer => {
            let mut r = server_family_ids();
            r.push(ArgId::Destination);
            r
        },
        Mode::ReverseClient => {
            let mut r = client_family_ids();
            r.push(ArgId::BindAddress);
            r
        },
        Mode::Copy => {
            let r = vec![
                ArgId::ClientConfig,
                ArgId::ServerConfig,
                ArgId::Compression,
                ArgId::Location,
                ArgId::Identity,
                ArgId::Verbose,
            ];
            assert(r@ =~= spec_mode_args(m));
            r
        },
        Mode::Guide | Mode::Keygen => {
            let r: Vec<ArgId> = Vec::new();
            assert(r@ =~= spec_mode_args(m));
            r
        },
    }
}

/// The one-line description shown for a mode in the help listing.
pub fn mode_about(m: Mode) -> &'static str {
    match m {
        Mode::Client => "Connect to an Oxy server.",
        Mode::Reexec => "Service a single oxy connection. Not intended to be run directly, run by oxy server",
        Mode::Server => "Listen for port knocks, accept TCP connections, then reexec for each one.",
        Mode::ServeOne => "Accept a single TCP connection, then service it in the same process.",
        Mode::ReverseServer => "Connect out to a listening client. Then, be a server.",
        Mode::ReverseClient => "Bind a port and wait for a server to connect. Then, be a client.",
        Mode::Copy => "Copy files from any number of sources to one destination.",
        Mode::Guide => "Print information to help a new user get the most out of Oxy.",
        Mode::Keygen => "Generate keys",
    }
}

/// The description of a mode with all of its arguments.
pub fn mode_spec(m: Mode) -> (r: ModeSpec)
    ensures
        mode_spec_ok(r, m),
{
    let ids = mode_args(m);
    let mut args: Vec<ArgSpec> = Vec::new();
    let mut k: usize = 0;
    while k < ids.len()
        invariant
            ids@ == spec_mode_args(m),
            k <= ids@.len(),
            args@.len() == k,
            forall|j: int| 0 <= j < k ==> (#[trigger] args@[j]).id == ids@[j] && arg_spec_ok(args@[j]),
        decreases ids@.len() - k,
    {
        args.push(arg_spec(ids[k]));
        k = k + 1;
    }
    ModeSpec { mode: m, about: mode_about(m), hidden: m == Mode::Reexec, args }
}

/// The complete grammar: the nine modes in display order, each with its arguments.
pub fn build() -> (r: Schema)
    ensures
        schema_ok(r),
{
    let mut modes: Vec<ModeSpec> = Vec::new();
    modes.push(mode_spec(Mode::Client));
    modes.push(mode_spec(Mode::Reexec));
    modes.push(mode_spec(Mode::Server));
    modes.push(mode_spec(Mode::ServeOne));
    modes.push(mode_spec(Mode::ReverseServer));
    modes.push(mode_spec(Mode::ReverseClient));
    modes.push(mode_spec(Mode::Copy));
    modes.push(mode_spec(Mode::Guide));
    modes.push(mode_spec(Mode::Keygen));
    Schema { modes }
}

/// Positions in the argument table are distinct for distinct arguments.
pub proof fn lemma_ordinal_injective(a: ArgId, b: ArgId)
    ensures
        spec_arg_ordinal(a) == spec_arg_ordinal(b) ==> a == b,
        spec_arg_ordinal(a) < ARG_COUNT,
{
}

/// The argument at a position of the argument table.
pub fn arg_at(j: usize) -> (r: ArgId)
    requires
        j < ARG_COUNT,
    ensures
        spec_arg_ordinal(r) == j,
{
    match j {
        0 => ArgId::Metacommand,
        1 => ArgId::Identity,
        2 => ArgId::Command,
        3 => ArgId::LocalForward,
        4 => ArgId::RemoteForward,
        5 => ArgId::Socks,
        6 => ArgId::Port,
        7 => ArgId::User,
        8 => ArgId::Via,
        9 => ArgId::Verbose,
        10 => ArgId::XForwarding,
        11 => ArgId::TrustedXForwarding,
        12 => ArgId::ServerConfig,
        13 => ArgId::ClientConfig,
        14 => ArgId::ForcedCommand,
        15 => ArgId::UnsafeReexec,
        16 => ArgId::Compression,
        17 => ArgId::NoTmux,
        18 => ArgId::Multiplexer,
        19 => ArgId::Destination,
        20 => ArgId::Fd,
        21 => ArgId::BindAddress,
        _ => ArgId::Location,
    }
}

/// Whether a mode accepts an argument.
pub fn in_mode(m: Mode, id: ArgId) -> (r: bool)
    ensures
        r == spec_mode_args(m).contains(id),
{
    let ids = mode_args(m);
    let mut k: usize = 0;
    while k < ids.len()
        invariant
            ids@ == spec_mode_args(m),
            k <= ids@.len(),
            forall|j: int| 0 <= j < k ==> ids@[j] != id,
        decreases ids@.len() - k,
    {
        if ids[k] == id {
            return true;
        }
        k = k + 1;
    }
    false
}

/// Every one-letter flag is one character other than a dash, and every long flag is a
/// non-empty word that does not start with a dash.
pub proof fn lemma_flag_words(id: ArgId)
    ensures
        spec_short(id) matches Some(s) ==> (s.len() == 1 && s[0] != '-'),
        spec_long(id) matches Some(l) ==> (l.len() > 0 && l[0] != '-'),
{
    reveal_strlit("m");
    reveal_strlit("i");
    reveal_strlit("L");
    reveal_strlit("R");
    reveal_strlit("D");
    reveal_strlit("p");
    reveal_strlit("v");
    reveal_strlit("X");
    reveal_strlit("Y");
    reveal_strlit("C");
    reveal_strlit("metacommand");
    reveal_strlit("identity");
    reveal_strlit("socks");
    reveal_strlit("port");
    reveal_strlit("user");
    reveal_strlit("via");
    reveal_strlit("verbose");
    reveal_strlit("x-forwarding");
    reveal_strlit("trusted-x-forwarding");
    reveal_strlit("server-config");
    reveal_strlit("client-config");
    reveal_strlit("forced-command");
    reveal_strlit("unsafe-reexec");
    reveal_strlit("compress");
    reveal_strlit("no-tmux");
    reveal_strlit("multiplexer");
    reveal_strlit("fd");
}

} // verus!

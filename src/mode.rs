//! The operating modes and the handshake role that each one plays.
use vstd::prelude::*;

verus! {

/// The top-level role that one invocation selects.
#[derive(Clone, Copy, Debug, PartialEq, Eq, Structural)]
pub enum Mode {
    Client,
    Server,
    Reexec,
    ServeOne,
    ReverseServer,
    ReverseClient,
    Copy,
    Guide,
    Keygen,
}

/// The side taken in the encryption handshake.
#[derive(Clone, Copy, Debug, PartialEq, Eq, Structural)]
pub enum Perspective {
    Initiator,
    Responder,
}

/// The subcommand word that selects a mode.
pub open spec fn spec_mode_name(m: Mode) -> Seq<char> {
    match m {
        Mode::Client => "client"@,
        Mode::Server => "server"@,
        Mode::Reexec => "reexec"@,
        Mode::ServeOne => "serve-one"@,
        Mode::ReverseServer => "reverse-server"@,
        Mode::ReverseClient => "reverse-client"@,
        Mode::Copy => "copy"@,
        Mode::Guide => "guide"@,
        Mode::Keygen => "keygen"@,
    }
}

/// The modes in the order in which the grammar lists them.
pub open spec fn all_modes() -> Seq<Mode> {
    seq![
        Mode::Client,
        Mode::Reexec,
        Mode::Server,
        Mode::ServeOne,
        Mode::ReverseServer,
        Mode::ReverseClient,
        Mode::Copy,
        Mode::Guide,
        Mode::Keygen,
    ]
}

/// Listening and single-connection servers answer the handshake; every other mode opens it.
pub open spec fn spec_perspective(m: Mode) -> Perspective {
    match m {
        Mode::Reexec | Mode::Server | Mode::ServeOne | Mode::ReverseServer => Perspective::Responder,
        _ => Perspective::Initiator,
    }
}

/// Modes whose grammar has a required `destination` positional.
pub open spec fn has_destination(m: Mode) -> bool {
    m == Mode::Client || m == Mode::ReverseServer
}

/// Modes whose grammar has a `bind-address` positional.
pub open spec fn has_bind_address(m: Mode) -> bool {
    m == Mode::ServeOne || m == Mode::ReverseClient
}

pub fn mode_name(m: Mode) -> (r: &'static str)
    ensures
        r@ == spec_mode_name(m),
{
    match m {
        Mode::Client => "client",
        Mode::Server => "server",
        Mode::Reexec => "reexec",
        Mode::ServeOne => "serve-one",
        Mode::ReverseServer => "reverse-server",
        Mode::ReverseClient => "reverse-client",
        Mode::Copy => "copy",
        Mode::Guide => "guide",
        Mode::Keygen => "keygen",
    }
}

/// No two modes share a subcommand word.
pub proof fn lemma_mode_names_distinct(a: Mode, b: Mode)
    ensures
        spec_mode_name(a) == spec_mode_name(b) <==> a == b,
{
    reveal_strlit("client");
    reveal_strlit("server");
    reveal_strlit("reexec");
    reveal_strlit("serve-one");
    reveal_strlit("reverse-server");
    reveal_strlit("reverse-client");
    reveal_strlit("copy");
    reveal_strlit("guide");
    reveal_strlit("keygen");
    if spec_mode_name(a) == spec_mode_name(b) {
        assert(spec_mode_name(a).len() == spec_mode_name(b).len());
        assert(spec_mode_name(a)[0] == spec_mode_name(b)[0]);
        assert(spec_mode_name(a)[2] == spec_mode_name(b)[2]);
        if spec_mode_name(a).len() == 14 {
            assert(spec_mode_name(a)[8] == spec_mode_name(b)[8]);
        }
    }
}

/// The mode that a subcommand word selects, if any.
pub fn mode_from_name(name: &String) -> (r: Option<Mode>)
    ensures
        r matches Some(m) ==> spec_mode_name(m) == name@,
        r is None ==> forall|m: Mode| spec_mode_name(m) != name@,
{
    let ghost all = all_modes();
    let mut i: usize = 0;
    while i < 9
        invariant
            i <= 9,
            all == all_modes(),
            forall|j: int| 0 <= j < i ==> spec_mode_name(#[trigger] all[j]) != name@,
        decreases 9 - i,
    {
        let m = match i {
            0 => Mode::Client,
            1 => Mode::Reexec,
            2 => Mode::Server,
            3 => Mode::ServeOne,
            4 => Mode::ReverseServer,
            5 => Mode::ReverseClient,
            6 => Mode::Copy,
            7 => Mode::Guide,
            _ => Mode::Keygen,
        };
        assert(m == all[i as int]);
        let word = mode_name(m).to_owned();
        if *name == word {
            return Some(m);
        }
        i = i + 1;
    }
    assert forall|m: Mode| spec_mode_name(m) != name@ by {
        match m {
            Mode::Client => assert(all[0] == m),
            Mode::Reexec => assert(all[1] == m),
            Mode::Server => assert(all[2] == m),
            Mode::ServeOne => assert(all[3] == m),
            Mode::ReverseServer => assert(all[4] == m),
            Mode::ReverseClient => assert(all[5] == m),
            Mode::Copy => assert(all[6] == m),
            Mode::Guide => assert(all[7] == m),
            Mode::Keygen => assert(all[8] == m),
        }
    }
    None
}

/// The handshake role of a mode.
pub fn perspective_of(m: Mode) -> (r: Perspective)
    ensures
        r == spec_perspective(m),
{
    match m {
        Mode::Reexec => Perspective::Responder,
        Mode::Server => Perspective::Responder,
        Mode::ServeOne => Perspective::Responder,
        Mode::ReverseServer => Perspective::Responder,
        _ => Perspective::Initiator,
    }
}

} // verus!

//! The grammar handed to clap, and clap's matches read back into an [`Invocation`].
use crate::invocation::{invocation_from_reads, value_from_read, values_fit, ArgValue, Invocation};
use crate::mode::{
    all_modes, lemma_mode_names_distinct, mode_from_name, mode_name, spec_mode_name, Mode,
};
use crate::resolve::{first_word_names_mode, Attempt};
use crate::schema::{
    arg_at, arg_spec, arg_spec_ok, build, in_mode, lemma_flag_words, lemma_ordinal_injective,
    mode_spec_ok, schema_ok, spec_arg_ordinal, spec_mode_args, ArgId, ArgSpec, ModeSpec, ARG_COUNT,
};
use clap::{App, AppSettings, Arg, ArgMatches, ErrorKind};
use vstd::prelude::*;

verus! {

#[verifier::external_type_specification]
#[verifier::external_body]
pub struct ExApp<'a, 'b>(App<'a, 'b>) where 'a: 'b;

#[verifier::external_type_specification]
#[verifier::external_body]
pub struct ExArg<'a, 'b>(Arg<'a, 'b>) where 'a: 'b;

#[verifier::external_type_specification]
#[verifier::external_body]
pub struct ExArgMatches<'a>(ArgMatches<'a>);

#[verifier::external_type_specification]
#[verifier::external_body]
pub struct ExClapError(clap::Error);

/// A clap argument, with the grammar entry that the settings made on it so far describe.
pub struct ClapArg {
    arg: Arg<'static, 'static>,
    model: Ghost<ArgSpec>,
}

/// A clap subcommand: its name, the arguments added to it so far, and whether it is hidden.
pub struct ClapSub {
    app: App<'static, 'static>,
    name: Ghost<Seq<char>>,
    args: Ghost<Seq<ArgSpec>>,
    is_hidden: Ghost<bool>,
}

/// What a subcommand was given: its name, its arguments in order, and whether it is hidden.
pub type SubModel = (Seq<char>, Seq<ArgSpec>, bool);

/// The clap command, with the subcommands added to it so far.
pub struct ClapCommand {
    app: App<'static, 'static>,
    subs: Ghost<Seq<SubModel>>,
    needs_subcommand: Ghost<bool>,
}

impl ClapSub {
    /// What this subcommand was given so far.
    pub closed spec fn model(self) -> SubModel {
        (self.name@, self.args@, self.is_hidden@)
    }
}

impl ClapCommand {
    /// The subcommands, in the order they were added.
    pub closed spec fn subcommands(self) -> Seq<SubModel> {
        self.subs@
    }

    /// Whether a command line without a subcommand is an error.
    pub closed spec fn requires_subcommand(self) -> bool {
        self.needs_subcommand@
    }

    /// The clap command itself.
    pub fn into_app(self) -> App<'static, 'static> {
        self.app
    }
}

/// An argument with only its key set.
pub open spec fn bare_arg(id: ArgId, name: &'static str) -> ArgSpec {
    ArgSpec {
        id,
        name,
        short: None,
        long: None,
        takes_value: false,
        multiple: false,
        index: None,
        default_value: None,
        env: None,
        required: false,
        display_order: None,
        help: None,
    }
}

/// The arguments named by a list of argument descriptions.
pub open spec fn arg_ids(args: Seq<ArgSpec>) -> Seq<ArgId> {
    args.map_values(|a: ArgSpec| a.id)
}

/// `ids` are the first arguments, in order, of the mode named `name`.
pub open spec fn grammar_prefix(name: Seq<char>, ids: Seq<ArgId>) -> bool {
    exists|m: Mode|
        spec_mode_name(m) == name && ids.len() <= spec_mode_args(m).len()
            && ids == (#[trigger] spec_mode_args(m)).subrange(0, ids.len() as int)
}

/// A subcommand is mode `m` as the grammar has it: its name, all of its arguments in order,
/// each set as the grammar describes it, and hidden exactly for `reexec`.
pub open spec fn sub_is_mode(sub: SubModel, m: Mode) -> bool {
    &&& sub.0 == spec_mode_name(m)
    &&& arg_ids(sub.1) == spec_mode_args(m)
    &&& forall|k: int| 0 <= k < sub.1.len() ==> arg_spec_ok(#[trigger] sub.1[k])
    &&& sub.2 == (m == Mode::Reexec)
}

/// Relies on clap's `Arg::with_name`: a new argument stored under `name`, nothing else set.
#[verifier::external_body]
fn new_arg(id: ArgId, name: &'static str) -> (r: ClapArg)
    ensures
        r.model@ == bare_arg(id, name),
{
    ClapArg { arg: Arg::with_name(name), model: Ghost(bare_arg(id, name)) }
}

/// Relies on clap's `Arg::short`: sets the one-letter flag (clap keeps the first character
/// after any dashes, so one character other than a dash is admitted).
#[verifier::external_body]
fn with_short(a: ClapArg, s: &'static str) -> (r: ClapArg)
    requires
        s@.len() == 1,
        s@[0] != '-',
    ensures
        r.model@ == (ArgSpec { short: Some(s), ..a.model@ }),
{
    ClapArg { arg: a.arg.short(s), model: a.model }
}

/// Relies on clap's `Arg::long`: sets the long flag (clap strips leading dashes, so a word
/// that does not start with one is admitted).
#[verifier::external_body]
fn with_long(a: ClapArg, l: &'static str) -> (r: ClapArg)
    requires
        l@.len() > 0,
        l@[0] != '-',
    ensures
        r.model@ == (ArgSpec { long: Some(l), ..a.model@ }),
{
    ClapArg { arg: a.arg.long(l), model: a.model }
}

/// Relies on clap's `Arg::help`: sets the help text.
#[verifier::external_body]
fn with_help(a: ClapArg, h: &'static str) -> (r: ClapArg)
    ensures
        r.model@ == (ArgSpec { help: Some(h), ..a.model@ }),
{
    ClapArg { arg: a.arg.help(h), model: a.model }
}

/// Relies on clap's `Arg::takes_value`: the argument takes a value.
#[verifier::external_body]
fn with_value(a: ClapArg) -> (r: ClapArg)
    ensures
        r.model@ == (ArgSpec { takes_value: true, ..a.model@ }),
{
    ClapArg { arg: a.arg.takes_value(true), model: a.model }
}

/// Relies on clap's `Arg::multiple`: the argument may be repeated.
#[verifier::external_body]
fn with_multiple(a: ClapArg) -> (r: ClapArg)
    ensures
        r.model@ == (ArgSpec { multiple: true, ..a.model@ }),
{
    ClapArg { arg: a.arg.multiple(true), model: a.model }
}

/// Relies on clap's `Arg::number_of_values`: each occurrence takes exactly one value; clap
/// also marks the argument as taking a value.
#[verifier::external_body]
fn with_one_value_each(a: ClapArg) -> (r: ClapArg)
    ensures
        r.model@ == (ArgSpec { takes_value: true, ..a.model@ }),
{
    ClapArg { arg: a.arg.number_of_values(1), model: a.model }
}

/// Relies on clap's `Arg::index`: the argument is the positional at `idx`, counting from one.
#[verifier::external_body]
fn with_index(a: ClapArg, idx: u64) -> (r: ClapArg)
    ensures
        r.model@ == (ArgSpec { index: Some(idx), ..a.model@ }),
{
    ClapArg { arg: a.arg.index(idx), model: a.model }
}

/// Relies on clap's `Arg::default_value`: the value used when none is given; clap also marks
/// the argument as taking a value.
#[verifier::external_body]
fn with_default(a: ClapArg, v: &'static str) -> (r: ClapArg)
    ensures
        r.model@ == (ArgSpec { default_value: Some(v), takes_value: true, ..a.model@ }),
{
    ClapArg { arg: a.arg.default_value(v), model: a.model }
}

/// Relies on clap's `Arg::env`: the environment variable whose value, read by clap at this
/// call, stands when no value is given; clap also marks the argument as taking a value.
#[verifier::external_body]
fn with_env(a: ClapArg, name: &'static str) -> (r: ClapArg)
    ensures
        r.model@ == (ArgSpec { env: Some(name), takes_value: true, ..a.model@ }),
{
    ClapArg { arg: a.arg.env(name), model: a.model }
}

/// Relies on clap's `Arg::required`: a parse without the argument fails.
#[verifier::external_body]
fn with_required(a: ClapArg) -> (r: ClapArg)
    ensures
        r.model@ == (ArgSpec { required: true, ..a.model@ }),
{
    ClapArg { arg: a.arg.required(true), model: a.model }
}

/// Relies on clap's `Arg::display_order`: the argument's place in the help listing.
#[verifier::external_body]
fn with_display_order(a: ClapArg, ord: usize) -> (r: ClapArg)
    ensures
        r.model@ == (ArgSpec { display_order: Some(ord), ..a.model@ }),
{
    ClapArg { arg: a.arg.display_order(ord), model: a.model }
}

/// Relies on clap's `App::new`: a new subcommand named `name`, with no arguments and shown in
/// the help listing.
#[verifier::external_body]
fn new_subcommand(name: &'static str) -> (r: ClapSub)
    ensures
        r.model() == (name@, Seq::<ArgSpec>::empty(), false),
{
    ClapSub {
        app: App::new(name),
        name: Ghost(name@),
        args: Ghost(Seq::empty()),
        is_hidden: Ghost(false),
    }
}

/// Relies on clap's `App::new`: a new command named `name`, with no subcommands, none required.
#[verifier::external_body]
fn new_command(name: &'static str) -> (r: ClapCommand)
    ensures
        r.subcommands() == Seq::<SubModel>::empty(),
        !r.requires_subcommand(),
{
    ClapCommand { app: App::new(name), subs: Ghost(Seq::empty()), needs_subcommand: Ghost(false) }
}

/// Relies on clap's `App::about`: the one-line description.
#[verifier::external_body]
fn with_about(sub: ClapSub, about: &'static str) -> (r: ClapSub)
    ensures
        r.model() == sub.model(),
{
    ClapSub { app: sub.app.about(about), ..sub }
}

/// Relies on clap's `App::setting` with `AppSettings::Hidden`: left out of the help listing.
#[verifier::external_body]
fn hidden(sub: ClapSub) -> (r: ClapSub)
    ensures
        r.model() == (sub.model().0, sub.model().1, true),
{
    ClapSub { app: sub.app.setting(AppSettings::Hidden), ..sub }
}

/// Relies on clap's `App::setting` with `AppSettings::UnifiedHelpMessage`: one list of
/// options and flags in the help text.
#[verifier::external_body]
fn unified_help(sub: ClapSub) -> (r: ClapSub)
    ensures
        r.model() == sub.model(),
{
    ClapSub { app: sub.app.setting(AppSettings::UnifiedHelpMessage), ..sub }
}

/// Relies on clap's `App::arg`: adds an argument. clap panics on a name, flag or position that
/// is already in use; only the next argument of the subcommand's own mode, set as the grammar
/// describes it, is admitted, and the grammar's modes are free of such clashes.
#[verifier::external_body]
fn with_arg(sub: ClapSub, a: ClapArg) -> (r: ClapSub)
    requires
        arg_spec_ok(a.model@),
        grammar_prefix(sub.model().0, arg_ids(sub.model().1.push(a.model@))),
    ensures
        r.model() == (sub.model().0, sub.model().1.push(a.model@), sub.model().2),
{
    ClapSub { app: sub.app.arg(a.arg), ..sub }
}

/// Relies on clap's `App::version`: the text printed for `--version`.
#[verifier::external_body]
fn with_version(cmd: ClapCommand, version: &'static str) -> (r: ClapCommand)
    ensures
        r.subcommands() == cmd.subcommands(),
        r.requires_subcommand() == cmd.requires_subcommand(),
{
    ClapCommand { app: cmd.app.version(version), ..cmd }
}

/// Relies on clap's `App::author`: the authors shown in the help text.
#[verifier::external_body]
fn with_author(cmd: ClapCommand, author: &'static str) -> (r: ClapCommand)
    ensures
        r.subcommands() == cmd.subcommands(),
        r.requires_subcommand() == cmd.requires_subcommand(),
{
    ClapCommand { app: cmd.app.author(author), ..cmd }
}

/// Relies on clap's `App::setting` with `AppSettings::UnifiedHelpMessage`, on the command.
#[verifier::external_body]
fn unified_help_all(cmd: ClapCommand) -> (r: ClapCommand)
    ensures
        r.subcommands() == cmd.subcommands(),
        r.requires_subcommand() == cmd.requires_subcommand(),
{
    ClapCommand { app: cmd.app.setting(AppSettings::UnifiedHelpMessage), ..cmd }
}

/// Relies on clap's `App::setting` with `AppSettings::SubcommandRequiredElseHelp`: a command
/// line without a subcommand is an error that shows the help.
#[verifier::external_body]
fn subcommand_required(cmd: ClapCommand) -> (r: ClapCommand)
    ensures
        r.subcommands() == cmd.subcommands(),
        r.requires_subcommand(),
{
    ClapCommand { app: cmd.app.setting(AppSettings::SubcommandRequiredElseHelp), ..cmd }
}

/// Relies on clap's `App::subcommand`: adds a subcommand; only a mode of the grammar with all
/// of its arguments is admitted.
#[verifier::external_body]
fn with_subcommand(cmd: ClapCommand, sub: ClapSub) -> (r: ClapCommand)
    requires
        exists|m: Mode| sub_is_mode(sub.model(), m),
    ensures
        r.subcommands() == cmd.subcommands().push(sub.model()),
        r.requires_subcommand() == cmd.requires_subcommand(),
{
    ClapCommand { app: cmd.app.subcommand(sub.app), ..cmd }
}

/// clap's matches, with the name of the subcommand that was matched.
pub struct ClapMatches {
    matches: ArgMatches<'static>,
    sub: Ghost<Option<Seq<char>>>,
}

impl ClapMatches {
    /// The name of the subcommand that was matched, if any.
    pub closed spec fn matched(self) -> Option<Seq<char>> {
        self.sub@
    }
}

/// Some subcommand of `cmd` is named `word`.
pub open spec fn names_subcommand(subs: Seq<SubModel>, word: Seq<char>) -> bool {
    exists|i: int| 0 <= i < subs.len() && (#[trigger] subs[i]).0 == word
}

/// Relies on clap's `App::get_matches_from_safe`: matches `argv`, program name first,
/// against the grammar, returning the error instead of printing it and exiting (for
/// `--version` clap prints the version itself before it returns). The checks that clap runs on
/// a grammar first hold of every command built through `with_subcommand`. clap takes the first
/// word that names a subcommand as that subcommand, so where the word right after the program
/// name is one, a match is a match of it.
#[verifier::external_body]
fn try_parse(cmd: ClapCommand, argv: &Vec<String>) -> (r: Result<ClapMatches, clap::Error>)
    ensures
        r matches Ok(m) ==> (argv@.len() >= 2 && names_subcommand(cmd.subcommands(), argv@[1]@)
            ==> m.matched() == Some(argv@[1]@)),
{
    match cmd.app.get_matches_from_safe(argv.iter()) {
        Ok(matches) => Ok(ClapMatches { matches, sub: Ghost(arbitrary()) }),
        Err(e) => Err(e),
    }
}

/// Relies on the `kind` field of clap's `Error`: whether the parse stopped because help was
/// asked for.
#[verifier::external_body]
fn is_help_request(e: &clap::Error) -> bool {
    e.kind == ErrorKind::HelpDisplayed
}

/// Relies on clap's `ArgMatches::subcommand_name`: the subcommand that was matched.
#[verifier::external_body]
fn subcommand_name(m: &ClapMatches) -> (r: Option<String>)
    ensures
        r matches Some(s) ==> m.matched() == Some(s@),
        r is None ==> m.matched() is None,
{
    m.matches.subcommand_name().map(String::from)
}

/// Relies on clap's `ArgMatches::subcommand_matches`: the matches of the named subcommand.
#[verifier::external_body]
fn subcommand_matches<'m>(m: &'m ClapMatches, name: &str) -> Option<&'m ArgMatches<'static>> {
    m.matches.subcommand_matches(name)
}

/// Relies on clap's `ArgMatches::value_of_lossy`: the value of an argument, given or
/// defaulted, with bytes that are not UTF-8 replaced rather than panicking.
#[verifier::external_body]
fn value_of(m: &ArgMatches<'static>, name: &str) -> Option<String> {
    m.value_of_lossy(name).map(|v| v.into_owned())
}

/// Relies on clap's `ArgMatches::values_of_lossy`: all values of an argument, in order.
#[verifier::external_body]
fn values_of(m: &ArgMatches<'static>, name: &str) -> Option<Vec<String>> {
    m.values_of_lossy(name)
}

/// Relies on clap's `ArgMatches::occurrences_of`: how often an argument was given.
#[verifier::external_body]
fn occurrences_of(m: &ArgMatches<'static>, name: &str) -> u64 {
    m.occurrences_of(name)
}

/// Where a mode stands in the display order.
proof fn mode_position(m: Mode) -> (i: int)
    ensures
        0 <= i < all_modes().len(),
        all_modes()[i] == m,
{
    match m {
        Mode::Client => 0,
        Mode::Reexec => 1,
        Mode::Server => 2,
        Mode::ServeOne => 3,
        Mode::ReverseServer => 4,
        Mode::ReverseClient => 5,
        Mode::Copy => 6,
        Mode::Guide => 7,
        Mode::Keygen => 8,
    }
}

/// One argument of the grammar in clap's terms.
fn clap_arg(spec: &ArgSpec) -> (r: ClapArg)
    requires
        arg_spec_ok(*spec),
    ensures
        r.model@ == *spec,
{
    proof { lemma_flag_words(spec.id); }
    let mut a = new_arg(spec.id, spec.name);
    if let Some(s) = spec.short {
        a = with_short(a, s);
    }
    if let Some(l) = spec.long {
        a = with_long(a, l);
    }
    if spec.takes_value {
        a = with_value(a);
    }
    if spec.multiple {
        a = with_multiple(a);
        if spec.takes_value {
            a = with_one_value_each(a);
        }
    }
    if let Some(i) = spec.index {
        a = with_index(a, i);
    }
    if let Some(d) = spec.default_value {
        a = with_default(a, d);
    }
    if let Some(e) = spec.env {
        a = with_env(a, e);
    }
    if spec.required {
        a = with_required(a);
    }
    if let Some(o) = spec.display_order {
        a = with_display_order(a, o);
    }
    if let Some(h) = spec.help {
        a = with_help(a, h);
    }
    a
}

/// One mode of the grammar as a clap subcommand.
fn clap_subcommand(spec: &ModeSpec) -> (r: ClapSub)
    requires
        mode_spec_ok(*spec, spec.mode),
    ensures
        sub_is_mode(r.model(), spec.mode),
{
    let mut sub = with_about(new_subcommand(mode_name(spec.mode)), spec.about);
    if spec.hidden {
        sub = hidden(sub);
    }
    let ghost args = spec_mode_args(spec.mode);
    assert(sub.model().1 =~= spec.args@.subrange(0, 0));
    let mut k: usize = 0;
    while k < spec.args.len()
        invariant
            mode_spec_ok(*spec, spec.mode),
            args == spec_mode_args(spec.mode),
            k <= spec.args@.len(),
            sub.model().0 == spec_mode_name(spec.mode),
            sub.model().1 == spec.args@.subrange(0, k as int),
            sub.model().2 == spec.hidden,
        decreases spec.args@.len() - k,
    {
        let a = clap_arg(&spec.args[k]);
        proof {
            assert(sub.model().1.push(a.model@) =~= spec.args@.subrange(0, k + 1));
            assert(arg_ids(sub.model().1.push(a.model@)) =~= args.subrange(0, k + 1));
            assert(grammar_prefix(sub.model().0, arg_ids(sub.model().1.push(a.model@))));
        }
        sub = with_arg(sub, a);
        k = k + 1;
    }
    let sub = unified_help(sub);
    assert(spec.args@.subrange(0, spec.args@.len() as int) =~= spec.args@);
    assert(arg_ids(sub.model().1) =~= args);
    sub
}

/// The whole grammar as a clap command named `oxy`, reporting `version` for `--version` and
/// naming `author` in its help: the nine modes in display order, each with all of its
/// arguments set as the grammar describes them and hidden exactly for `reexec`, and a
/// subcommand required.
pub fn create_app(version: &'static str, author: &'static str) -> (r: ClapCommand)
    ensures
        r.subcommands().len() == all_modes().len(),
        forall|i: int|
            0 <= i < all_modes().len() ==> sub_is_mode(#[trigger] r.subcommands()[i], all_modes()[i]),
        r.requires_subcommand(),
{
    let schema = build();
    let cmd = with_author(with_version(new_command("oxy"), version), author);
    let mut cmd = subcommand_required(unified_help_all(cmd));
    let mut i: usize = 0;
    while i < schema.modes.len()
        invariant
            schema_ok(schema),
            i <= schema.modes@.len(),
            cmd.requires_subcommand(),
            cmd.subcommands().len() == i,
            forall|j: int| 0 <= j < i ==> sub_is_mode(#[trigger] cmd.subcommands()[j], all_modes()[j]),
        decreases schema.modes@.len() - i,
    {
        let sub = clap_subcommand(&schema.modes[i]);
        cmd = with_subcommand(cmd, sub);
        i = i + 1;
    }
    cmd
}

/// What the matches report for one argument of the active mode.
fn read_value(sub: &ArgMatches<'static>, id: ArgId) -> ArgValue {
    let spec = arg_spec(id);
    let count = if !spec.takes_value {
        occurrences_of(sub, spec.name)
    } else {
        0
    };
    let one = if spec.takes_value && !spec.multiple {
        value_of(sub, spec.name)
    } else {
        None
    };
    let many = if spec.takes_value && spec.multiple {
        values_of(sub, spec.name)
    } else {
        None
    };
    value_from_read(id, count, one, many)
}

/// One slot per argument: what the matches report for the arguments of `m`, absent for the rest.
fn read_table(sub: &ArgMatches<'static>, m: Mode) -> (r: Vec<ArgValue>)
    ensures
        r@.len() == ARG_COUNT,
        forall|id: ArgId|
            !spec_mode_args(m).contains(id) ==> (#[trigger] r@[spec_arg_ordinal(id) as int]) is Absent,
{
    let mut values: Vec<ArgValue> = Vec::new();
    let mut j: usize = 0;
    while j < ARG_COUNT
        invariant
            j <= ARG_COUNT,
            values@.len() == j,
            forall|id: ArgId|
                spec_arg_ordinal(id) < j && !spec_mode_args(m).contains(id)
                    ==> (#[trigger] values@[spec_arg_ordinal(id) as int]) is Absent,
        decreases ARG_COUNT - j,
    {
        let id = arg_at(j);
        if in_mode(m, id) {
            values.push(read_value(sub, id));
        } else {
            values.push(ArgValue::Absent);
        }
        proof {
            assert forall|x: ArgId|
                spec_arg_ordinal(x) < j + 1 && !spec_mode_args(m).contains(x)
                    implies (#[trigger] values@[spec_arg_ordinal(x) as int]) is Absent by {
                lemma_ordinal_injective(x, id);
            }
        }
        j = j + 1;
    }
    proof {
        assert forall|x: ArgId|
            !spec_mode_args(m).contains(x) implies (#[trigger] values@[spec_arg_ordinal(x) as int]) is Absent by {
            lemma_ordinal_injective(x, x);
        }
    }
    values
}

/// The invocation that clap's matches describe: `None` where they name no mode of the
/// grammar or do not fit it.
fn invocation_from_matches(top: &ClapMatches) -> (r: Option<Invocation>)
    ensures
        r matches Some(inv) ==> top.matched() == Some(spec_mode_name(inv@.0)),
{
    let name = match subcommand_name(top) {
        Some(n) => n,
        None => return None,
    };
    let m = match mode_from_name(&name) {
        Some(m) => m,
        None => return None,
    };
    let sub = match subcommand_matches(top, mode_name(m)) {
        Some(s) => s,
        None => return None,
    };
    invocation_from_reads(&name, read_table(sub, m))
}

/// One attempt at matching `argv` against the grammar.
pub fn parse_attempt(argv: &Vec<String>, version: &'static str, author: &'static str) -> (r: Attempt)
    ensures
        r matches Attempt::Matched(inv) ==> values_fit(inv@.0, inv@.1),
        r matches Attempt::Matched(inv) ==> (first_word_names_mode(argv@)
            ==> spec_mode_name(inv@.0) == argv@[1]@),
{
    let cmd = create_app(version, author);
    proof {
        if first_word_names_mode(argv@) {
            let m = choose|m: Mode| spec_mode_name(m) == argv@[1]@;
            let i = mode_position(m);
            assert(sub_is_mode(cmd.subcommands()[i], all_modes()[i]));
            assert(names_subcommand(cmd.subcommands(), argv@[1]@));
        }
    }
    match try_parse(cmd, argv) {
        Ok(top) => match invocation_from_matches(&top) {
            Some(inv) => {
                proof {
                    use_type_invariant(&inv);
                    if first_word_names_mode(argv@) {
                        let m = choose|m: Mode| spec_mode_name(m) == argv@[1]@;
                        lemma_mode_names_distinct(m, inv@.0);
                    }
                }
                Attempt::Matched(inv)
            },
            None => Attempt::Rejected,
        },
        Err(e) => if is_help_request(&e) {
            Attempt::HelpRequested
        } else {
            Attempt::Rejected
        },
    }
}

} // verus!

//! The command line: its options, and what an invocation asks for.

use crate::text::strings_view;
use vstd::prelude::*;

verus! {

/// The base directory that is used where the command line names none.
pub const DEFAULT_BASE_DIR: &'static str = "/home/akira/jendeley/jendeley-backend/test_pdfs/";

/// Whether an option stands alone or is followed by a value.
#[derive(Debug, Clone, Copy, PartialEq, Eq)]
pub enum OptionKind {
    /// The option stands alone, as `-h` does.
    Flag,
    /// The option is followed by a value, as `-d PATH` is.
    Valued,
}

/// One option of the command line.
#[derive(Debug, PartialEq, Eq)]
pub struct OptionSpec {
    /// The name behind one dash: one ASCII character.
    pub short: String,
    /// The name behind two dashes: two characters or more.
    pub long: String,
    /// What the usage text says of the option.
    pub description: String,
    /// What the usage text shows in place of the value.
    pub hint: String,
    pub kind: OptionKind,
}

/// The mathematical value of an [`OptionSpec`].
pub struct OptionView {
    pub short: Seq<char>,
    pub long: Seq<char>,
    pub description: Seq<char>,
    pub hint: Seq<char>,
    pub kind: OptionKind,
}

impl View for OptionSpec {
    type V = OptionView;

    open spec fn view(&self) -> OptionView {
        OptionView {
            short: self.short@,
            long: self.long@,
            description: self.description@,
            hint: self.hint@,
            kind: self.kind,
        }
    }
}

impl OptionView {
    /// Whether the option has both of its names in the form that the option
    /// parser takes: a short name of one ASCII character and a long name of
    /// two characters or more.
    pub open spec fn well_named(self) -> bool {
        &&& self.short.len() == 1
        &&& (self.short[0] as u32) < 128
        &&& self.long.len() >= 2
    }
}

/// The values of a run of options, one by one.
pub open spec fn options_view(options: Seq<OptionSpec>) -> Seq<OptionView> {
    Seq::new(options.len(), |i: int| options[i]@)
}

/// What was found of one option on a command line: whether it was given, and
/// the value that came with it.
pub type Answer = (bool, Option<String>);

/// The mathematical value of a run of answers.
pub open spec fn answers_view(answers: Seq<Answer>) -> Seq<(bool, Option<Seq<char>>)> {
    Seq::new(answers.len(), |i: int| (answers[i].0, text_of(answers[i].1)))
}

/// The mathematical value of what matching a command line gave.
pub open spec fn matched_view(matched: Result<Vec<Answer>, String>) -> Result<
    Seq<(bool, Option<Seq<char>>)>,
    Seq<char>,
> {
    match matched {
        Ok(answers) => Ok(answers_view(answers@)),
        Err(message) => Err(message@),
    }
}

/// What `getopts` makes of the arguments `args` under the options `options`,
/// each of them optional and to be given once at most: for each option in
/// turn whether it was given and the value that came with it, or, where the
/// arguments do not fit the options, the words of `getopts::Fail` on why.
pub uninterp spec fn getopts_matches(options: Seq<OptionView>, args: Seq<Seq<char>>) -> Result<
    Seq<(bool, Option<Seq<char>>)>,
    Seq<char>,
>;

/// The usage text that `getopts::Options::usage` derives from the options
/// `options` under the first line `brief`.
pub uninterp spec fn getopts_usage(options: Seq<OptionView>, brief: Seq<char>) -> Seq<char>;

/// Declares `options` to a `getopts::Options`, with `optflag` or `optopt` by
/// kind, has it `parse` the arguments, and asks the `getopts::Matches` for each
/// option in turn, by its long name, with `opt_present` and `opt_str`. A
/// `getopts::Fail` is handed back as the text of its `to_string`.
///
/// Trusted: the result is [`getopts_matches`] of the options and arguments,
/// with one answer for each option. The demand on the names is what keeps
/// `getopts` from panicking: it refuses other lengths of names, and asking for
/// a name that was not declared.
#[verifier::external_body]
fn match_options(options: &Vec<OptionSpec>, args: &Vec<String>) -> (matched: Result<
    Vec<Answer>,
    String,
>)
    requires
        forall|i: int| 0 <= i < options@.len() ==> (#[trigger] options@[i]@).well_named(),
    ensures
        matched_view(matched) == getopts_matches(options_view(options@), strings_view(args@)),
        matched matches Ok(answers) ==> answers@.len() == options@.len(),
{
    let mut declared = getopts::Options::new();
    for o in options.iter() {
        match o.kind {
            OptionKind::Flag => declared.optflag(&o.short, &o.long, &o.description),
            OptionKind::Valued => declared.optopt(&o.short, &o.long, &o.description, &o.hint),
        };
    }
    match declared.parse(args) {
        Ok(m) => Ok(options.iter().map(|o| (m.opt_present(&o.long), m.opt_str(&o.long))).collect()),
        Err(fail) => Err(fail.to_string()),
    }
}

/// Declares `options` to a `getopts::Options`, with `optflag` or `optopt` by
/// kind, and has it derive its `usage` text under `brief`.
///
/// Trusted: the result is [`getopts_usage`] of the options and the first line.
/// The demand on the names is what keeps `getopts` from panicking.
#[verifier::external_body]
fn derive_usage(options: &Vec<OptionSpec>, brief: &str) -> (text: String)
    requires
        forall|i: int| 0 <= i < options@.len() ==> (#[trigger] options@[i]@).well_named(),
    ensures
        text@ == getopts_usage(options_view(options@), brief@),
{
    let mut declared = getopts::Options::new();
    for o in options.iter() {
        match o.kind {
            OptionKind::Flag => declared.optflag(&o.short, &o.long, &o.description),
            OptionKind::Valued => declared.optopt(&o.short, &o.long, &o.description, &o.hint),
        };
    }
    declared.usage(brief)
}

/// The place in [`option_table`] of the option that names the registry file.
pub const DB_OPTION: usize = 0;

/// The place in [`option_table`] of the option that names the base directory.
pub const BASE_OPTION: usize = 1;

/// The place in [`option_table`] of the option that asks for help.
pub const HELP_OPTION: usize = 2;

/// The options of the command line: `-d`/`--db` with the place of the
/// registry file, `-b`/`--base` with the base directory, and `-h`/`--help`.
pub open spec fn table_view() -> Seq<OptionView> {
    seq![
        OptionView {
            short: "d"@,
            long: "db"@,
            description: "Set path to the DB"@,
            hint: "PATH_TO_THE_DB"@,
            kind: OptionKind::Valued,
        },
        OptionView {
            short: "b"@,
            long: "base"@,
            description: "Set the directory that the PDF paths start from"@,
            hint: "BASE_DIR"@,
            kind: OptionKind::Valued,
        },
        OptionView {
            short: "h"@,
            long: "help"@,
            description: "print this help menu"@,
            hint: ""@,
            kind: OptionKind::Flag,
        },
    ]
}

/// Every option of the command line has names that the option parser takes.
pub proof fn lemma_table_well_named()
    ensures
        table_view().len() == 3,
        forall|i: int| 0 <= i < table_view().len() ==> (#[trigger] table_view()[i]).well_named(),
{
    reveal_strlit("d");
    reveal_strlit("db");
    reveal_strlit("b");
    reveal_strlit("base");
    reveal_strlit("h");
    reveal_strlit("help");
}

/// The options of the command line, as [`table_view`] lists them.
pub fn option_table() -> (options: Vec<OptionSpec>)
    ensures
        options_view(options@) == table_view(),
{
    let mut options: Vec<OptionSpec> = Vec::new();
    options.push(
        OptionSpec {
            short: "d".to_owned(),
            long: "db".to_owned(),
            description: "Set path to the DB".to_owned(),
            hint: "PATH_TO_THE_DB".to_owned(),
            kind: OptionKind::Valued,
        },
    );
    options.push(
        OptionSpec {
            short: "b".to_owned(),
            long: "base".to_owned(),
            description: "Set the directory that the PDF paths start from".to_owned(),
            hint: "BASE_DIR".to_owned(),
            kind: OptionKind::Valued,
        },
    );
    options.push(
        OptionSpec {
            short: "h".to_owned(),
            long: "help".to_owned(),
            description: "print this help menu".to_owned(),
            hint: "".to_owned(),
            kind: OptionKind::Flag,
        },
    );
    proof {
        assert(options_view(options@) =~= table_view());
    }
    options
}

/// The settings of a run.
#[derive(Debug, PartialEq, Eq)]
pub struct Args {
    /// The place of the registry file.
    pub db: String,
    /// The directory below which the PDF files lie; a path is made by putting
    /// an entry's segments directly behind it.
    pub base: String,
}

/// What an invocation asks for.
#[derive(Debug, PartialEq, Eq)]
pub enum Invocation {
    /// Print the usage text and end with status 0.
    Usage,
    /// Scan the registry.
    Run(Args),
    /// Nothing that can be done: the arguments do not fit the options. The
    /// words of the option parser on why.
    Rejected(String),
}

/// The mathematical value of an [`Invocation`].
pub enum InvocationView {
    Usage,
    Run { db: Seq<char>, base: Seq<char> },
    Rejected(Seq<char>),
}

impl View for Invocation {
    type V = InvocationView;

    open spec fn view(&self) -> InvocationView {
        match self {
            Invocation::Usage => InvocationView::Usage,
            Invocation::Run(args) => InvocationView::Run { db: args.db@, base: args.base@ },
            Invocation::Rejected(message) => InvocationView::Rejected(message@),
        }
    }
}

/// What an invocation asks for, given whether help was asked for, the registry
/// file it names and the base directory it names.
///
/// Help wins over everything else. Without a registry file there is nothing to
/// scan, and the usage text is shown as for help.
pub open spec fn decision(
    help: bool,
    db: Option<Seq<char>>,
    base: Option<Seq<char>>,
) -> InvocationView {
    if help {
        InvocationView::Usage
    } else {
        match db {
            Some(db) => InvocationView::Run {
                db,
                base: match base {
                    Some(b) => b,
                    None => DEFAULT_BASE_DIR@,
                },
            },
            None => InvocationView::Usage,
        }
    }
}

/// What an invocation asks for, given what matching its arguments against the
/// options of [`table_view`] gave.
pub open spec fn invocation_of(
    matched: Result<Seq<(bool, Option<Seq<char>>)>, Seq<char>>,
) -> InvocationView {
    match matched {
        Ok(answers) => decision(
            answers[HELP_OPTION as int].0,
            answers[DB_OPTION as int].1,
            answers[BASE_OPTION as int].1,
        ),
        Err(message) => InvocationView::Rejected(message),
    }
}

/// The arguments behind the program's name.
pub open spec fn tail_of(args: Seq<Seq<char>>) -> Seq<Seq<char>> {
    if args.len() == 0 {
        args
    } else {
        args.subrange(1, args.len() as int)
    }
}

/// The first line of the usage text for a program called `program`.
pub open spec fn brief_of(program: Seq<char>) -> Seq<char> {
    "Usage: "@ + program + " FILE [options]"@
}

/// The characters of a string that may be missing.
pub open spec fn text_of(text: Option<String>) -> Option<Seq<char>> {
    match text {
        Some(t) => Some(t@),
        None => None,
    }
}

/// What an invocation asks for, as [`decision`] defines it.
pub fn decide(help: bool, db: Option<String>, base: Option<String>) -> (invocation: Invocation)
    ensures
        invocation@ == decision(help, text_of(db), text_of(base)),
{
    if help {
        return Invocation::Usage;
    }
    match db {
        Some(db) => {
            let base = match base {
                Some(b) => b,
                None => DEFAULT_BASE_DIR.to_owned(),
            };
            Invocation::Run(Args { db, base })
        },
        None => Invocation::Usage,
    }
}

/// The arguments behind the program's name, copied.
pub fn arguments_behind_name(args: &Vec<String>) -> (tail: Vec<String>)
    ensures
        strings_view(tail@) == tail_of(strings_view(args@)),
{
    let mut tail: Vec<String> = Vec::new();
    let mut i: usize = 1;
    while i < args.len()
        invariant
            1 <= i,
            i <= args.len() || args.len() == 0,
            args.len() > 0 ==> tail@.len() == i - 1,
            args.len() == 0 ==> tail@.len() == 0,
            forall|j: int| 0 <= j < tail@.len() ==> #[trigger] tail@[j]@ == args@[j + 1]@,
        decreases args.len() - i,
    {
        tail.push(args[i].clone());
        i += 1;
    }
    proof {
        assert(strings_view(tail@) =~= tail_of(strings_view(args@)));
    }
    tail
}

/// What the invocation with the arguments `args` asks for; the first of
/// `args` is the program's name.
///
/// The arguments behind the name are matched against the options of
/// [`table_view`]. Where they do not fit, the invocation is rejected with the
/// option parser's words; else [`decision`] says what is asked for.
pub fn parse_args(args: &Vec<String>) -> (invocation: Invocation)
    ensures
        invocation@ == invocation_of(
            getopts_matches(table_view(), tail_of(strings_view(args@))),
        ),
{
    let options = option_table();
    let tail = arguments_behind_name(args);
    proof {
        lemma_table_well_named();
        assert forall|i: int| 0 <= i < options@.len() implies (#[trigger] options@[i]@).well_named() by {
            assert(options_view(options@)[i] == options@[i]@);
        }
    }
    let matched = match_options(&options, &tail);
    match matched {
        Ok(mut answers) => {
            proof {
                assert(options_view(options@).len() == 3);
            }
            let ghost seen = answers_view(answers@);
            let help = answers[HELP_OPTION].0;
            let base = answers.remove(BASE_OPTION).1;
            let db = answers.remove(DB_OPTION).1;
            proof {
                assert(text_of(base) == seen[BASE_OPTION as int].1);
                assert(text_of(db) == seen[DB_OPTION as int].1);
                assert(help == seen[HELP_OPTION as int].0);
            }
            decide(help, db, base)
        },
        Err(message) => Invocation::Rejected(message),
    }
}

/// The first line of the usage text, as [`brief_of`] defines it.
pub fn usage_brief(program: &str) -> (brief: String)
    ensures
        brief@ == brief_of(program@),
{
    let mut brief: String = "Usage: ".to_owned();
    brief.append(program);
    brief.append(" FILE [options]");
    brief
}

/// The usage text for a program called `program`: what the option parser
/// derives from the options of [`table_view`] under the first line
/// [`brief_of`].
pub fn usage(program: &str) -> (text: String)
    ensures
        text@ == getopts_usage(table_view(), brief_of(program@)),
{
    let options = option_table();
    let brief = usage_brief(program);
    proof {
        lemma_table_well_named();
        assert forall|i: int| 0 <= i < options@.len() implies (#[trigger] options@[i]@).well_named() by {
            assert(options_view(options@)[i] == options@[i]@);
        }
    }
    derive_usage(&options, brief.as_str())
}

/// Help is never overruled: with it, the usage text is shown whatever else the
/// command line holds; without it, a run is made exactly where a registry file
/// is named, below the base directory that is named, or the default one.
pub proof fn lemma_decision(help: bool, db: Option<Seq<char>>, base: Option<Seq<char>>)
    ensures
        !(decision(help, db, base) is Rejected),
        decision(help, db, base) is Run <==> (!help && db is Some),
        decision(help, db, base) is Run ==> decision(help, db, base)->db == db->0,
        decision(help, db, base) is Run && base is Some ==> decision(help, db, base)->base
            == base->0,
        decision(help, db, base) is Run && base is None ==> decision(help, db, base)->base
            == DEFAULT_BASE_DIR@,
{
}

} // verus!

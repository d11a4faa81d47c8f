//! The command line of the client.
//!
//! The parser reads flags and their values. It does not know what a key or
//! a filter is, and it reads no file: where an argument needs one of these,
//! it stops and asks. The caller answers, with the parsed value or with a
//! refusal, and the parser goes on to the next question or to the end.

use crate::text::{str_eq, strip_prefix, without_prefix};
use vstd::prelude::*;

verus! {

/// What an argument means when it is read as a flag.
#[derive(Debug, Clone, Copy, PartialEq, Eq, Structural)]
pub enum Flag {
    /// `--mobile`
    Mobile,
    /// `--light`
    Light,
    /// `--dark`
    Dark,
    /// `--pub` or `--npub`, followed by a public key
    PublicKey,
    /// `--sec` or `--nsec`, followed by a secret key
    SecretKey,
    /// `--no-since-optimize`
    NoSinceOptimize,
    /// `--filter`, followed by a filter in JSON
    Filter,
    /// `--dbpath`, followed by a path
    DbPath,
    /// `-r` or `--relay`, followed by a relay's address
    Relay,
    /// `--column` or `-c`, followed by a column's name
    Column,
    /// `--filter-file` or `-f`, followed by the path of a file with a filter
    FilterFile,
    /// Anything else.
    Other,
}

/// The flag that `arg` spells.
pub open spec fn flag_of(arg: Seq<char>) -> Flag {
    if arg == "--mobile"@ {
        Flag::Mobile
    } else if arg == "--light"@ {
        Flag::Light
    } else if arg == "--dark"@ {
        Flag::Dark
    } else if arg == "--pub"@ || arg == "--npub"@ {
        Flag::PublicKey
    } else if arg == "--sec"@ || arg == "--nsec"@ {
        Flag::SecretKey
    } else if arg == "--no-since-optimize"@ {
        Flag::NoSinceOptimize
    } else if arg == "--filter"@ {
        Flag::Filter
    } else if arg == "--dbpath"@ {
        Flag::DbPath
    } else if arg == "-r"@ || arg == "--relay"@ {
        Flag::Relay
    } else if arg == "--column"@ || arg == "-c"@ {
        Flag::Column
    } else if arg == "--filter-file"@ || arg == "-f"@ {
        Flag::FilterFile
    } else {
        Flag::Other
    }
}

/// Reads `arg` as a flag.
pub fn classify(arg: &str) -> (flag: Flag)
    ensures
        flag == flag_of(arg@),
{
    if str_eq(arg, "--mobile") {
        Flag::Mobile
    } else if str_eq(arg, "--light") {
        Flag::Light
    } else if str_eq(arg, "--dark") {
        Flag::Dark
    } else if str_eq(arg, "--pub") || str_eq(arg, "--npub") {
        Flag::PublicKey
    } else if str_eq(arg, "--sec") || str_eq(arg, "--nsec") {
        Flag::SecretKey
    } else if str_eq(arg, "--no-since-optimize") {
        Flag::NoSinceOptimize
    } else if str_eq(arg, "--filter") {
        Flag::Filter
    } else if str_eq(arg, "--dbpath") {
        Flag::DbPath
    } else if str_eq(arg, "-r") || str_eq(arg, "--relay") {
        Flag::Relay
    } else if str_eq(arg, "--column") || str_eq(arg, "-c") {
        Flag::Column
    } else if str_eq(arg, "--filter-file") || str_eq(arg, "-f") {
        Flag::FilterFile
    } else {
        Flag::Other
    }
}

/// Whose public key a column is about.
#[derive(Debug, PartialEq, Eq)]
pub enum PubkeySource<P> {
    /// The key given on the command line.
    Explicit(P),
    /// The key of the deck's author, known once an account is loaded.
    DeckAuthor,
}

/// A column asked for on the command line: a kind of column, or a query.
#[derive(Debug, PartialEq, Eq)]
pub enum ArgColumn<P, F> {
    /// The contact list of a user.
    Contacts(PubkeySource<P>),
    /// The notes that match the filters.
    Generic(Vec<F>),
}

/// A column, with its filters as a sequence.
pub enum ColumnModel<P, F> {
    /// The contact list of a user.
    Contacts(PubkeySource<P>),
    /// The notes that match the filters.
    Generic(Seq<F>),
}

impl<P, F> View for ArgColumn<P, F> {
    type V = ColumnModel<P, F>;

    open spec fn view(&self) -> ColumnModel<P, F> {
        match self {
            ArgColumn::Contacts(source) => ColumnModel::Contacts(*source),
            ArgColumn::Generic(filters) => ColumnModel::Generic(filters@),
        }
    }
}

/// What the command line asks for. `K` is a pair of keys, `P` a public key
/// and `F` a filter, each as the caller parsed it.
#[derive(Debug, PartialEq, Eq)]
pub struct Args<K, P, F> {
    /// The columns, in the order given.
    pub columns: Vec<ArgColumn<P, F>>,
    /// The relays, in the order given.
    pub relays: Vec<String>,
    /// Whether the mobile layout was asked for.
    pub is_mobile: Option<bool>,
    /// The accounts, in the order given.
    pub keys: Vec<K>,
    /// Whether queries may start from the newest note already stored.
    pub since_optimize: bool,
    /// Whether the light theme was asked for.
    pub light: bool,
    /// The directory of the database, where one was given.
    pub dbpath: Option<String>,
}

/// The arguments, as sequences.
pub struct ArgsModel<K, P, F> {
    /// The columns, in the order given.
    pub columns: Seq<ColumnModel<P, F>>,
    /// The relays, in the order given.
    pub relays: Seq<Seq<char>>,
    /// Whether the mobile layout was asked for.
    pub is_mobile: Option<bool>,
    /// The accounts, in the order given.
    pub keys: Seq<K>,
    /// Whether queries may start from the newest note already stored.
    pub since_optimize: bool,
    /// Whether the light theme was asked for.
    pub light: bool,
    /// The directory of the database, where one was given.
    pub dbpath: Option<Seq<char>>,
}

impl<K, P, F> View for Args<K, P, F> {
    type V = ArgsModel<K, P, F>;

    open spec fn view(&self) -> ArgsModel<K, P, F> {
        ArgsModel {
            columns: self.columns@.map_values(|column: ArgColumn<P, F>| column@),
            relays: self.relays@.map_values(|relay: String| relay@),
            is_mobile: self.is_mobile,
            keys: self.keys@,
            since_optimize: self.since_optimize,
            light: self.light,
            dbpath: match self.dbpath {
                Some(path) => Some(path@),
                None => None,
            },
        }
    }
}

/// What the parser asks the caller about.
#[derive(Debug, Clone, Copy, PartialEq, Eq, Structural)]
pub enum AskKind {
    /// A public key, for an account that can only read.
    PublicKey,
    /// A secret key, for an account that can sign.
    SecretKey,
    /// A public key, for the contact list of its owner.
    ContactsOf,
    /// A filter in JSON.
    Filter,
    /// The path of a file that holds a filter in JSON.
    FilterFile,
}

/// A question of the parser: a text, and what it is to be read as.
#[derive(Debug, PartialEq, Eq)]
pub struct Ask {
    /// What the text is to be read as.
    pub kind: AskKind,
    /// The text.
    pub text: String,
}

/// The caller's answer to a question.
#[derive(Debug, PartialEq, Eq)]
pub enum Answer<K, P, F> {
    /// The text is not what it was to be read as.
    Rejected,
    /// The file could not be read.
    Unreadable,
    /// The account that the key stands for.
    Keypair(K),
    /// The public key.
    Pubkey(P),
    /// The filter.
    Filter(F),
}

/// The state of a parser.
pub struct ParserModel<K, P, F> {
    /// The command line.
    pub args: Seq<Seq<char>>,
    /// The place of the argument to read next; while a question is open,
    /// the place of the argument that it is about.
    pub next: int,
    /// The question that is open.
    pub waiting: Option<AskKind>,
    /// What has been read.
    pub res: ArgsModel<K, P, F>,
}

/// The prefix of a column's name that asks for the contact list of a user.
pub const CONTACTS_OF: &'static str = "contacts:";

/// The column's name that asks for the contact list of the deck's author.
pub const CONTACTS: &'static str = "contacts";

/// The arguments before anything is read.
pub open spec fn initial_args<K, P, F>() -> ArgsModel<K, P, F> {
    ArgsModel {
        columns: Seq::empty(),
        relays: Seq::empty(),
        is_mobile: None,
        keys: Seq::empty(),
        since_optimize: true,
        light: false,
        dbpath: None,
    }
}

/// The contact list of the deck's author, the column of a command line that
/// names none.
pub open spec fn default_column<P, F>() -> ColumnModel<P, F> {
    ColumnModel::Contacts(PubkeySource::DeckAuthor)
}

/// The arguments as they are handed out: with the default column where no
/// column was read.
pub open spec fn finished<K, P, F>(res: ArgsModel<K, P, F>) -> ArgsModel<K, P, F> {
    if res.columns.len() == 0 {
        ArgsModel { columns: seq![default_column()], ..res }
    } else {
        res
    }
}

/// A parser at `next` with no question open.
pub open spec fn at<K, P, F>(
    args: Seq<Seq<char>>,
    next: int,
    res: ArgsModel<K, P, F>,
) -> ParserModel<K, P, F> {
    ParserModel { args, next, waiting: None, res }
}

/// A parser that asks about the argument at `next`.
pub open spec fn asking<K, P, F>(
    args: Seq<Seq<char>>,
    next: int,
    kind: AskKind,
    res: ArgsModel<K, P, F>,
) -> ParserModel<K, P, F> {
    ParserModel { args, next, waiting: Some(kind), res }
}

/// Reads on from `next` up to the first question or to the end.
///
/// A flag without a value takes effect and the next argument is read. A
/// flag with a value takes the argument after it; where there is none, the
/// reading ends. A path or a relay is recorded as it stands. A key, a filter,
/// a filter's file and the key of a contact list are asked about. What is
/// no flag is passed over, and so is a column's name that is not known.
pub open spec fn scan<K, P, F>(
    args: Seq<Seq<char>>,
    next: int,
    res: ArgsModel<K, P, F>,
) -> ParserModel<K, P, F>
    decreases args.len() - next,
{
    if next < 0 || next >= args.len() {
        at(args, next, res)
    } else {
        match flag_of(args[next]) {
            Flag::Mobile => scan(args, next + 1, ArgsModel { is_mobile: Some(true), ..res }),
            Flag::Light => scan(args, next + 1, ArgsModel { light: true, ..res }),
            Flag::Dark => scan(args, next + 1, ArgsModel { light: false, ..res }),
            Flag::NoSinceOptimize => scan(
                args,
                next + 1,
                ArgsModel { since_optimize: false, ..res },
            ),
            Flag::Other => scan(args, next + 1, res),
            flag => if next + 1 >= args.len() {
                at(args, next + 1, res)
            } else {
                let value = args[next + 1];
                match flag {
                    Flag::PublicKey => asking(args, next + 1, AskKind::PublicKey, res),
                    Flag::SecretKey => asking(args, next + 1, AskKind::SecretKey, res),
                    Flag::Filter => asking(args, next + 1, AskKind::Filter, res),
                    Flag::FilterFile => asking(args, next + 1, AskKind::FilterFile, res),
                    Flag::DbPath => scan(args, next + 2, ArgsModel { dbpath: Some(value), ..res }),
                    Flag::Relay => scan(
                        args,
                        next + 2,
                        ArgsModel { relays: res.relays.push(value), ..res },
                    ),
                    _ => if without_prefix(value, CONTACTS_OF@) is Some {
                        asking(args, next + 1, AskKind::ContactsOf, res)
                    } else if value == CONTACTS@ {
                        scan(
                            args,
                            next + 2,
                            ArgsModel { columns: res.columns.push(default_column()), ..res },
                        )
                    } else {
                        scan(args, next + 2, res)
                    },
                }
            },
        }
    }
}

/// The question that is open: its kind and its text. The text is the
/// argument at `next`; for a contact list, what follows `contacts:` in it.
pub open spec fn ask_of<K, P, F>(state: ParserModel<K, P, F>) -> Option<(AskKind, Seq<char>)> {
    match state.waiting {
        None => None,
        Some(AskKind::ContactsOf) => Some(
            (AskKind::ContactsOf, without_prefix(state.args[state.next], CONTACTS_OF@).unwrap()),
        ),
        Some(kind) => Some((kind, state.args[state.next])),
    }
}

/// What has been read once the open question is answered. A value of the
/// kind asked for is recorded; any other answer records nothing.
pub open spec fn recorded<K, P, F>(
    res: ArgsModel<K, P, F>,
    kind: AskKind,
    answer: Answer<K, P, F>,
) -> ArgsModel<K, P, F> {
    match (kind, answer) {
        (AskKind::PublicKey, Answer::Keypair(keypair)) => ArgsModel {
            keys: res.keys.push(keypair),
            ..res
        },
        (AskKind::SecretKey, Answer::Keypair(keypair)) => ArgsModel {
            keys: res.keys.push(keypair),
            ..res
        },
        (AskKind::ContactsOf, Answer::Pubkey(pubkey)) => ArgsModel {
            columns: res.columns.push(ColumnModel::Contacts(PubkeySource::Explicit(pubkey))),
            ..res
        },
        (AskKind::Filter, Answer::Filter(filter)) => ArgsModel {
            columns: res.columns.push(ColumnModel::Generic(seq![filter])),
            ..res
        },
        (AskKind::FilterFile, Answer::Filter(filter)) => ArgsModel {
            columns: res.columns.push(ColumnModel::Generic(seq![filter])),
            ..res
        },
        _ => res,
    }
}

/// Whether the argument that a question was about is read once more, as a
/// flag: the path of a file that could not be read, and a contact list's
/// name whose key was not accepted.
pub open spec fn read_again<K, P, F>(kind: AskKind, answer: Answer<K, P, F>) -> bool {
    ||| kind == AskKind::FilterFile && answer is Unreadable
    ||| kind == AskKind::ContactsOf && !(answer is Pubkey)
}

/// The state after an answer: the answer is recorded and the reading goes on
/// to the next question or to the end. Without an open question the answer
/// is dropped.
pub open spec fn answered<K, P, F>(
    state: ParserModel<K, P, F>,
    answer: Answer<K, P, F>,
) -> ParserModel<K, P, F> {
    match state.waiting {
        None => state,
        Some(kind) => scan(
            state.args,
            if read_again(kind, answer) {
                state.next
            } else {
                state.next + 1
            },
            recorded(state.res, kind, answer),
        ),
    }
}

/// The arguments of a command line, each as a character sequence.
pub open spec fn texts(args: Seq<String>) -> Seq<Seq<char>> {
    args.map_values(|arg: String| arg@)
}

/// A question is about an argument of the command line, and a question about
/// a contact list is about one that starts with `contacts:`.
pub open spec fn question_in_range<K, P, F>(state: ParserModel<K, P, F>) -> bool {
    match state.waiting {
        None => true,
        Some(kind) => 0 <= state.next < state.args.len() && (kind == AskKind::ContactsOf
            ==> without_prefix(state.args[state.next], CONTACTS_OF@) is Some),
    }
}

/// Reading on never goes back, passes at least one argument where there is
/// one, and stops at a question in range or at the end.
pub proof fn lemma_scan_goes_forward<K, P, F>(
    args: Seq<Seq<char>>,
    next: int,
    res: ArgsModel<K, P, F>,
)
    requires
        0 <= next,
    ensures
        scan(args, next, res).args == args,
        scan(args, next, res).next >= next,
        next < args.len() ==> next < scan(args, next, res).next <= args.len(),
        question_in_range(scan(args, next, res)),
        scan(args, next, res).waiting is None ==> scan(args, next, res).next >= args.len(),
    decreases args.len() - next,
{
    if next < args.len() {
        match flag_of(args[next]) {
            Flag::Mobile => lemma_scan_goes_forward(
                args,
                next + 1,
                ArgsModel { is_mobile: Some(true), ..res },
            ),
            Flag::Light => lemma_scan_goes_forward(
                args,
                next + 1,
                ArgsModel { light: true, ..res },
            ),
            Flag::Dark => lemma_scan_goes_forward(
                args,
                next + 1,
                ArgsModel { light: false, ..res },
            ),
            Flag::NoSinceOptimize => lemma_scan_goes_forward(
                args,
                next + 1,
                ArgsModel { since_optimize: false, ..res },
            ),
            Flag::Other => lemma_scan_goes_forward(args, next + 1, res),
            flag => if next + 1 < args.len() {
                let value = args[next + 1];
                lemma_scan_goes_forward(
                    args,
                    next + 2,
                    ArgsModel { dbpath: Some(value), ..res },
                );
                lemma_scan_goes_forward(
                    args,
                    next + 2,
                    ArgsModel { relays: res.relays.push(value), ..res },
                );
                lemma_scan_goes_forward(
                    args,
                    next + 2,
                    ArgsModel { columns: res.columns.push(default_column()), ..res },
                );
                lemma_scan_goes_forward(args, next + 2, res);
            },
        }
    }
}

/// Every answer to an open question moves the parser on: the next question,
/// if there is one, is about a later argument. So a command line of `n`
/// arguments is read with at most `n` questions.
pub proof fn lemma_answers_make_progress<K, P, F>(
    state: ParserModel<K, P, F>,
    answer: Answer<K, P, F>,
)
    requires
        state.waiting is Some,
        question_in_range(state),
    ensures
        answered(state, answer).args == state.args,
        state.next < answered(state, answer).next <= state.args.len(),
        question_in_range(answered(state, answer)),
{
    let kind = state.waiting->0;
    let from = if read_again(kind, answer) {
        state.next
    } else {
        state.next + 1
    };
    lemma_scan_goes_forward(state.args, from, recorded(state.res, kind, answer));
}

/// A parser of a command line, at a question or at the end.
pub struct ArgParser<K, P, F> {
    args: Vec<String>,
    next: usize,
    waiting: Option<AskKind>,
    res: Args<K, P, F>,
}

impl<K, P, F> View for ArgParser<K, P, F> {
    type V = ParserModel<K, P, F>;

    closed spec fn view(&self) -> ParserModel<K, P, F> {
        ParserModel {
            args: texts(self.args@),
            next: self.next as int,
            waiting: self.waiting,
            res: self.res@,
        }
    }
}

impl<K, P, F> Args<K, P, F> {
    /// The arguments before anything is read.
    fn initial() -> (res: Self)
        ensures
            res@ == initial_args::<K, P, F>(),
    {
        let res = Args {
            columns: Vec::new(),
            relays: Vec::new(),
            is_mobile: None,
            keys: Vec::new(),
            since_optimize: true,
            light: false,
            dbpath: None,
        };
        assert(res@.columns =~= Seq::empty());
        assert(res@.relays =~= Seq::empty());
        res
    }

    /// Starts to parse a command line: reads it up to the first question
    /// or, where there is none, to the end.
    pub fn parse(args: &[String]) -> (parser: ArgParser<K, P, F>)
        ensures
            parser@ == scan(texts(args@), 0, initial_args::<K, P, F>()),
    {
        let mut owned: Vec<String> = Vec::new();
        let mut i: usize = 0;
        while i < args.len()
            invariant
                0 <= i <= args.len(),
                owned.len() == i,
                forall|j: int| 0 <= j < i ==> owned[j] == args[j],
            decreases args.len() - i,
        {
            owned.push(args[i].clone());
            i = i + 1;
        }
        assert(owned@ =~= args@);
        ArgParser::run(owned, 0, Args::initial())
    }
}

impl<K, P, F> ArgParser<K, P, F> {
    #[verifier::type_invariant]
    spec fn well_formed(&self) -> bool {
        question_in_range(self@)
    }

    /// Reads on from `start` up to the first question or to the end.
    fn run(args: Vec<String>, start: usize, res: Args<K, P, F>) -> (parser: Self)
        ensures
            parser@ == scan(texts(args@), start as int, res@),
    {
        let ghost line = texts(args@);
        let ghost target = scan(line, start as int, res@);
        proof {
            lemma_scan_goes_forward(line, start as int, res@);
        }
        let mut res = res;
        let mut i = start;
        let mut waiting: Option<AskKind> = None;
        while i < args.len()
            invariant_except_break
                waiting is None,
                scan(line, i as int, res@) == target,
            invariant
                line == texts(args@),
            ensures
                (ParserModel { args: line, next: i as int, waiting, res: res@ }) == target,
            decreases args.len() - i,
        {
            let ghost before = res@;
            let flag = classify(args[i].as_str());
            match flag {
                Flag::Mobile => {
                    res.is_mobile = Some(true);
                    i = i + 1;
                },
                Flag::Light => {
                    res.light = true;
                    i = i + 1;
                },
                Flag::Dark => {
                    res.light = false;
                    i = i + 1;
                },
                Flag::NoSinceOptimize => {
                    res.since_optimize = false;
                    i = i + 1;
                },
                Flag::Other => {
                    i = i + 1;
                },
                _ => {
                    i = i + 1;
                    if i >= args.len() {
                        break ;
                    }
                    let value = &args[i];
                    assert(value@ == line[i as int]);
                    match flag {
                        Flag::PublicKey => {
                            waiting = Some(AskKind::PublicKey);
                            break ;
                        },
                        Flag::SecretKey => {
                            waiting = Some(AskKind::SecretKey);
                            break ;
                        },
                        Flag::Filter => {
                            waiting = Some(AskKind::Filter);
                            break ;
                        },
                        Flag::FilterFile => {
                            waiting = Some(AskKind::FilterFile);
                            break ;
                        },
                        Flag::DbPath => {
                            res.dbpath = Some(value.clone());
                            i = i + 1;
                        },
                        Flag::Relay => {
                            res.relays.push(value.clone());
                            assert(res@.relays =~= before.relays.push(value@));
                            i = i + 1;
                        },
                        _ => {
                            if strip_prefix(value.as_str(), CONTACTS_OF).is_some() {
                                waiting = Some(AskKind::ContactsOf);
                                break ;
                            } else if str_eq(value.as_str(), CONTACTS) {
                                res.columns.push(ArgColumn::Contacts(PubkeySource::DeckAuthor));
                                assert(res@.columns =~= before.columns.push(default_column()));
                                i = i + 1;
                            } else {
                                i = i + 1;
                            }
                        },
                    }
                },
            }
        }
        ArgParser { args, next: i, waiting, res }
    }

    /// The question that is open, or `None` at the end of the command line.
    pub fn ask(&self) -> (ask: Option<Ask>)
        ensures
            match ask {
                Some(question) => ask_of(self@) == Some((question.kind, question.text@)),
                None => ask_of(self@) is None,
            },
    {
        proof {
            use_type_invariant(self);
        }
        match self.waiting {
            None => None,
            Some(kind) => {
                let arg = &self.args[self.next];
                let text = match kind {
                    AskKind::ContactsOf => match strip_prefix(arg.as_str(), CONTACTS_OF) {
                        Some(rest) => rest.to_owned(),
                        None => arg.clone(),
                    },
                    _ => arg.clone(),
                };
                Some(Ask { kind, text })
            },
        }
    }

    /// Whether the command line is read to its end.
    pub fn is_done(&self) -> (done: bool)
        ensures
            done == (self@.waiting is None),
    {
        self.waiting.is_none()
    }

    /// Takes the answer to the open question and reads on to the next
    /// question or to the end. Without an open question nothing changes.
    pub fn answer(&mut self, answer: Answer<K, P, F>)
        ensures
            final(self)@ == answered(old(self)@, answer),
    {
        let mut taken = ArgParser::run(Vec::new(), 0, Args::initial());
        proof {
            use_type_invariant(&*self);
            use_type_invariant(&taken);
        }
        std::mem::swap(self, &mut taken);
        let ArgParser { args, next, waiting, res } = taken;
        match waiting {
            None => {
                *self = ArgParser { args, next, waiting: None, res };
            },
            Some(kind) => {
                let ghost before = res@;
                let mut res = res;
                let again = match kind {
                    AskKind::FilterFile => match &answer {
                        Answer::Unreadable => true,
                        _ => false,
                    },
                    AskKind::ContactsOf => match &answer {
                        Answer::Pubkey(_) => false,
                        _ => true,
                    },
                    _ => false,
                };
                match answer {
                    Answer::Keypair(keypair) => match kind {
                        AskKind::PublicKey => {
                            res.keys.push(keypair);
                        },
                        AskKind::SecretKey => {
                            res.keys.push(keypair);
                        },
                        _ => {},
                    },
                    Answer::Pubkey(pubkey) => match kind {
                        AskKind::ContactsOf => {
                            res.columns.push(ArgColumn::Contacts(PubkeySource::Explicit(pubkey)));
                            assert(res@.columns =~= before.columns.push(
                                ColumnModel::Contacts(PubkeySource::Explicit(pubkey)),
                            ));
                        },
                        _ => {},
                    },
                    Answer::Filter(filter) => match kind {
                        AskKind::Filter => {
                            let mut filters = Vec::new();
                            filters.push(filter);
                            assert(filters@ =~= seq![filter]);
                            res.columns.push(ArgColumn::Generic(filters));
                            assert(res@.columns =~= before.columns.push(
                                ColumnModel::Generic(seq![filter]),
                            ));
                        },
                        AskKind::FilterFile => {
                            let mut filters = Vec::new();
                            filters.push(filter);
                            assert(filters@ =~= seq![filter]);
                            res.columns.push(ArgColumn::Generic(filters));
                            assert(res@.columns =~= before.columns.push(
                                ColumnModel::Generic(seq![filter]),
                            ));
                        },
                        _ => {},
                    },
                    _ => {},
                }
                assert(res@ == recorded(before, kind, answer));
                assert(texts(args@).len() == args.len());
                let from = if again {
                    next
                } else {
                    next + 1
                };
                let parser = ArgParser::run(args, from, res);
                proof {
                    use_type_invariant(&parser);
                }
                *self = parser;
            },
        }
    }

    /// The arguments read so far, with the contact list of the deck's author
    /// as the only column where no column was read.
    pub fn finish(self) -> (args: Args<K, P, F>)
        ensures
            args@ == finished(self@.res),
    {
        let mut res = self.res;
        if res.columns.len() == 0 {
            res.columns.push(ArgColumn::Contacts(PubkeySource::DeckAuthor));
            assert(res@.columns =~= seq![default_column()]);
        }
        res
    }
}

} // verus!

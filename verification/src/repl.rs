//! The command language of the interactive client: parsing a typed line
//! into a command, the help text, and what each command does.

use vstd::prelude::*;
use vstd::slice::slice_subrange;
use vstd::string::StringExecFns;

use crate::signup_list_entry::SignupListEntryText;
use crate::text::{
    is_white_space, lemma_no_words_iff_blank, lemma_single_word, lemma_words_after_first,
    split_whitespace, str_eq, str_views, words,
};
use crate::user_session::ClientMessage;

verus! {

/// The kinds of command, without their arguments.
#[derive(Clone, Copy, Debug, PartialEq, Eq, Structural)]
pub enum ReplCommandDiscriminants {
    /// Exit the REPL.
    Exit,
    /// Put my name on the list.
    SignUp,
    /// Get the current sign-up list.
    List,
}

/// The word that names a kind of command: its name in lowercase.
pub open spec fn kind_name(kind: ReplCommandDiscriminants) -> Seq<char> {
    match kind {
        ReplCommandDiscriminants::Exit => seq!['e', 'x', 'i', 't'],
        ReplCommandDiscriminants::SignUp => seq!['s', 'i', 'g', 'n', 'u', 'p'],
        ReplCommandDiscriminants::List => seq!['l', 'i', 's', 't'],
    }
}

/// The kind of command that a word names, if any (names are matched exactly).
pub open spec fn kind_of_word(word: Seq<char>) -> Option<ReplCommandDiscriminants> {
    if word == kind_name(ReplCommandDiscriminants::Exit) {
        Some(ReplCommandDiscriminants::Exit)
    } else if word == kind_name(ReplCommandDiscriminants::SignUp) {
        Some(ReplCommandDiscriminants::SignUp)
    } else if word == kind_name(ReplCommandDiscriminants::List) {
        Some(ReplCommandDiscriminants::List)
    } else {
        None
    }
}

/// All kinds of command, in declaration order.
pub open spec fn all_kinds() -> Seq<ReplCommandDiscriminants> {
    seq![
        ReplCommandDiscriminants::Exit,
        ReplCommandDiscriminants::SignUp,
        ReplCommandDiscriminants::List,
    ]
}

/// Why a line is not a command.
#[derive(Clone, Copy, Debug, PartialEq, Eq, Structural)]
pub enum ReplParseError {
    /// The first word names no command.
    UnknownCommand,
    /// `exit` takes no args.
    ExitTakesNoArgs,
    /// Too many args given to `signup`.
    SignUpTooManyArgs,
    /// `signup` requires one arg: `name`.
    SignUpRequiresName,
    /// `list` takes no args.
    ListTakesNoArgs,
}

impl ReplCommandDiscriminants {
    /// The word that names this kind (what it is displayed as).
    pub fn name(&self) -> (res: &'static str)
        ensures
            res@ == kind_name(*self),
    {
        match self {
            ReplCommandDiscriminants::Exit => {
                proof {
                    reveal_strlit("exit");
                }
                "exit"
            },
            ReplCommandDiscriminants::SignUp => {
                proof {
                    reveal_strlit("signup");
                }
                "signup"
            },
            ReplCommandDiscriminants::List => {
                proof {
                    reveal_strlit("list");
                }
                "list"
            },
        }
    }

    /// The kind that a word names; the word must be a name exactly.
    pub fn from_word(word: &str) -> (res: Result<Self, ReplParseError>)
        ensures
            res matches Ok(k) ==> kind_of_word(word@) == Some(k),
            res matches Err(e) ==> kind_of_word(word@) is None && e == ReplParseError::UnknownCommand,
    {
        proof {
            reveal_strlit("exit");
            reveal_strlit("signup");
            reveal_strlit("list");
            assert("exit"@ =~= kind_name(ReplCommandDiscriminants::Exit));
            assert("signup"@ =~= kind_name(ReplCommandDiscriminants::SignUp));
            assert("list"@ =~= kind_name(ReplCommandDiscriminants::List));
        }
        if str_eq(word, "exit") {
            Ok(ReplCommandDiscriminants::Exit)
        } else if str_eq(word, "signup") {
            Ok(ReplCommandDiscriminants::SignUp)
        } else if str_eq(word, "list") {
            Ok(ReplCommandDiscriminants::List)
        } else {
            Err(ReplParseError::UnknownCommand)
        }
    }

    /// All kinds, in declaration order.
    pub fn all() -> (res: Vec<Self>)
        ensures
            res@ == all_kinds(),
    {
        let mut v: Vec<Self> = Vec::new();
        v.push(ReplCommandDiscriminants::Exit);
        v.push(ReplCommandDiscriminants::SignUp);
        v.push(ReplCommandDiscriminants::List);
        proof {
            assert(v@ =~= all_kinds());
        }
        v
    }
}

/// A command of the interactive client.
pub enum ReplCommand {
    /// Exit the REPL.
    Exit,
    /// Put my name on the list.
    SignUp { name: String },
    /// Get the current sign-up list.
    List,
}

/// A command as the contracts see it.
pub enum ReplCommandView {
    Exit,
    SignUp(Seq<char>),
    List,
}

impl View for ReplCommand {
    type V = ReplCommandView;

    open spec fn view(&self) -> ReplCommandView {
        match self {
            ReplCommand::Exit => ReplCommandView::Exit,
            ReplCommand::SignUp { name } => ReplCommandView::SignUp(name@),
            ReplCommand::List => ReplCommandView::List,
        }
    }
}

/// The command that a first word and the words after it make.
pub open spec fn command_from_words(first: Seq<char>, rest: Seq<Seq<char>>) -> Result<
    ReplCommandView,
    ReplParseError,
> {
    match kind_of_word(first) {
        None => Err(ReplParseError::UnknownCommand),
        Some(ReplCommandDiscriminants::Exit) => if rest.len() == 0 {
            Ok(ReplCommandView::Exit)
        } else {
            Err(ReplParseError::ExitTakesNoArgs)
        },
        Some(ReplCommandDiscriminants::SignUp) => if rest.len() == 1 {
            Ok(ReplCommandView::SignUp(rest[0]))
        } else if rest.len() == 0 {
            Err(ReplParseError::SignUpRequiresName)
        } else {
            Err(ReplParseError::SignUpTooManyArgs)
        },
        Some(ReplCommandDiscriminants::List) => if rest.len() == 0 {
            Ok(ReplCommandView::List)
        } else {
            Err(ReplParseError::ListTakesNoArgs)
        },
    }
}

/// What a typed line means: nothing for a line without words; otherwise the
/// command its words make, or why they make none.
pub open spec fn command_from_line(line: Seq<char>) -> Option<Result<ReplCommandView, ReplParseError>> {
    let ws = words(line);
    if ws.len() == 0 {
        None
    } else {
        Some(command_from_words(ws[0], ws.drop_first()))
    }
}

/// One line of the help text per kind: `- <name>` and a line feed.
pub open spec fn help_lines(kinds: Seq<ReplCommandDiscriminants>) -> Seq<char>
    decreases kinds.len(),
{
    if kinds.len() == 0 {
        Seq::empty()
    } else {
        help_lines(kinds.drop_last()) + seq!['-', ' '] + kind_name(kinds.last()) + seq!['\n']
    }
}

/// The help text: a heading, then one line per kind of command.
pub open spec fn help_text() -> Seq<char> {
    seq!['v', 'a', 'l', 'i', 'd', ' ', 'c', 'o', 'm', 'm', 'a', 'n', 'd', 's', ':', '\n']
        + help_lines(all_kinds())
}

/// What the client does for a command: stop, or send a message to the server.
pub enum ReplStep<R> {
    /// Leave the REPL.
    Break,
    /// Send this message and go on.
    Send(ClientMessage<R>),
}

/// Law: what a typed line leads to, by its words. No words: nothing. Exactly
/// `exit`: leave, and only then. Exactly `list`: ask for the list. `signup`
/// and one more word: sign up with that word. Any other line: the parse error
/// that its words make (`signup` alone lacks the name, `signup` with two or
/// more words has too many, `exit` or `list` with any word after it takes no
/// args, and any other first word names no command).
pub proof fn lemma_line_reaction_by_words<R>(line: Seq<char>, res: LineReaction<R>)
    requires
        line_reaction_matches(line, res),
    ensures
        words(line).len() == 0 <==> res is Ignore,
        res is Stop <==> words(line) == seq![seq!['e', 'x', 'i', 't']],
        words(line) == seq![seq!['l', 'i', 's', 't']] ==> (res matches LineReaction::Send(
            ClientMessage::GetList,
        )),
        words(line).len() == 2 && words(line)[0] == seq!['s', 'i', 'g', 'n', 'u', 'p'] ==> (
        res matches LineReaction::Send(ClientMessage::SignMeUp(t)) && t@ == words(line)[1]),
        words(line) == seq![seq!['s', 'i', 'g', 'n', 'u', 'p']] ==> res == LineReaction::<R>::Invalid(
            ReplParseError::SignUpRequiresName,
        ),
        words(line).len() >= 3 && words(line)[0] == seq!['s', 'i', 'g', 'n', 'u', 'p'] ==> res
            == LineReaction::<R>::Invalid(ReplParseError::SignUpTooManyArgs),
        words(line).len() >= 2 && words(line)[0] == seq!['e', 'x', 'i', 't'] ==> res
            == LineReaction::<R>::Invalid(ReplParseError::ExitTakesNoArgs),
        words(line).len() >= 2 && words(line)[0] == seq!['l', 'i', 's', 't'] ==> res
            == LineReaction::<R>::Invalid(ReplParseError::ListTakesNoArgs),
        words(line).len() >= 1 && words(line)[0] != seq!['e', 'x', 'i', 't'] && words(line)[0]
            != seq!['s', 'i', 'g', 'n', 'u', 'p'] && words(line)[0] != seq!['l', 'i', 's', 't']
            ==> res == LineReaction::<R>::Invalid(ReplParseError::UnknownCommand),
{
    let ws = words(line);
    let exit = kind_name(ReplCommandDiscriminants::Exit);
    let signup = kind_name(ReplCommandDiscriminants::SignUp);
    let list = kind_name(ReplCommandDiscriminants::List);
    assert(exit =~= seq!['e', 'x', 'i', 't']);
    assert(signup =~= seq!['s', 'i', 'g', 'n', 'u', 'p']);
    assert(list =~= seq!['l', 'i', 's', 't']);
    assert(exit != signup && exit != list && signup != list) by {
        assert(exit.len() != signup.len());
        assert(list.len() != signup.len());
        assert(exit[0] != list[0]);
    }
    if ws.len() > 0 {
        let rest = ws.drop_first();
        assert(rest.len() == ws.len() - 1);
        if ws.len() == 2 {
            assert(rest[0] == ws[1]);
        }
        if ws.len() == 1 {
            assert(ws =~= seq![ws[0]]);
        }
        if ws == seq![exit] {
            assert(ws[0] == exit);
        }
    }
}

/// What the client does with one typed line.
pub enum LineReaction<R> {
    /// The line has no words: prompt again.
    Ignore,
    /// The line is no command: report why (with the help text) and prompt again.
    Invalid(ReplParseError),
    /// Leave the REPL.
    Stop,
    /// Send this message to the server and prompt again.
    Send(ClientMessage<R>),
}

/// What a typed line leads to, given the command it holds.
pub open spec fn line_reaction_matches<R>(line: Seq<char>, res: LineReaction<R>) -> bool {
    match command_from_line(line) {
        None => res is Ignore,
        Some(Err(e)) => res == LineReaction::<R>::Invalid(e),
        Some(Ok(ReplCommandView::Exit)) => res is Stop,
        Some(Ok(ReplCommandView::List)) => res matches LineReaction::Send(ClientMessage::GetList),
        Some(Ok(ReplCommandView::SignUp(name))) => res matches LineReaction::Send(
            ClientMessage::SignMeUp(text),
        ) && text@ == name,
    }
}

/// What the client does with a typed line: nothing for a blank line, a
/// report for a line that is no command, and otherwise what its command
/// does.
pub fn react_to_line<R>(line: &str) -> (res: LineReaction<R>)
    ensures
        line_reaction_matches(line@, res),
        words(line@).len() == 0 <==> res is Ignore,
        res is Stop <==> words(line@) == seq![seq!['e', 'x', 'i', 't']],
        words(line@) == seq![seq!['l', 'i', 's', 't']] ==> (res matches LineReaction::Send(
            ClientMessage::GetList,
        )),
        words(line@).len() == 2 && words(line@)[0] == seq!['s', 'i', 'g', 'n', 'u', 'p'] ==> (
        res matches LineReaction::Send(ClientMessage::SignMeUp(t)) && t@ == words(line@)[1]),
        words(line@) == seq![seq!['s', 'i', 'g', 'n', 'u', 'p']] ==> res == LineReaction::<R>::Invalid(
            ReplParseError::SignUpRequiresName,
        ),
        words(line@).len() >= 3 && words(line@)[0] == seq!['s', 'i', 'g', 'n', 'u', 'p'] ==> res
            == LineReaction::<R>::Invalid(ReplParseError::SignUpTooManyArgs),
        words(line@).len() >= 2 && words(line@)[0] == seq!['e', 'x', 'i', 't'] ==> res
            == LineReaction::<R>::Invalid(ReplParseError::ExitTakesNoArgs),
        words(line@).len() >= 2 && words(line@)[0] == seq!['l', 'i', 's', 't'] ==> res
            == LineReaction::<R>::Invalid(ReplParseError::ListTakesNoArgs),
        words(line@).len() >= 1 && words(line@)[0] != seq!['e', 'x', 'i', 't'] && words(line@)[0]
            != seq!['s', 'i', 'g', 'n', 'u', 'p'] && words(line@)[0] != seq!['l', 'i', 's', 't']
            ==> res == LineReaction::<R>::Invalid(ReplParseError::UnknownCommand),
{
    let res = match ReplCommand::parse(line) {
        None => LineReaction::Ignore,
        Some(Err(e)) => LineReaction::Invalid(e),
        Some(Ok(cmd)) => match cmd.into_step() {
            ReplStep::Break => LineReaction::Stop,
            ReplStep::Send(msg) => LineReaction::Send(msg),
        },
    };
    proof {
        lemma_line_reaction_by_words(line@, res);
    }
    res
}

impl ReplCommand {
    /// The help text listing the valid commands.
    pub fn help_message() -> (res: String)
        ensures
            res@ == help_text(),
    {
        let mut buf = String::from_str("valid commands:\n");
        proof {
            reveal_strlit("valid commands:\n");
            reveal_strlit("- ");
            reveal_strlit("\n");
            assert(buf@ =~= help_text().take(16));
        }
        let kinds = ReplCommandDiscriminants::all();
        let mut i: usize = 0;
        while i < kinds.len()
            invariant
                i <= kinds@.len(),
                kinds@ == all_kinds(),
                buf@ =~= seq![
                    'v', 'a', 'l', 'i', 'd', ' ', 'c', 'o', 'm', 'm', 'a', 'n', 'd', 's', ':', '\n'
                ] + help_lines(kinds@.take(i as int)),
            decreases kinds@.len() - i,
        {
            buf.append("- ");
            buf.append(kinds[i].name());
            buf.append("\n");
            proof {
                reveal_strlit("- ");
                reveal_strlit("\n");
                assert(kinds@.take(i + 1).drop_last() =~= kinds@.take(i as int));
                assert(kinds@.take(i + 1).last() == kinds@[i as int]);
            }
            i = i + 1;
        }
        proof {
            assert(kinds@.take(kinds@.len() as int) =~= kinds@);
        }
        buf
    }

    /// Parses a typed line: `None` for a line with no words; otherwise the
    /// command that its words make, or why they make none.
    pub fn parse(cmd_str: &str) -> (res: Option<Result<Self, ReplParseError>>)
        ensures
            res is None <==> command_from_line(cmd_str@) is None,
            res matches Some(Ok(c)) ==> command_from_line(cmd_str@) == Some(
                Ok::<ReplCommandView, ReplParseError>(c@),
            ),
            res matches Some(Err(e)) ==> command_from_line(cmd_str@) == Some(
                Err::<ReplCommandView, ReplParseError>(e),
            ),
    {
        let ws = split_whitespace(cmd_str);
        if ws.len() == 0 {
            None
        } else {
            let rest = slice_subrange(ws.as_slice(), 1, ws.len());
            proof {
                assert(str_views(rest@) =~= str_views(ws@).drop_first());
            }
            Some(Self::parse_inner(ws[0], rest))
        }
    }

    /// The command that a first word and the words after it make.
    pub fn parse_inner(first: &str, rest: &[&str]) -> (res: Result<Self, ReplParseError>)
        ensures
            res matches Ok(c) ==> command_from_words(first@, str_views(rest@)) == Ok::<
                ReplCommandView,
                ReplParseError,
            >(c@),
            res matches Err(e) ==> command_from_words(first@, str_views(rest@)) == Err::<
                ReplCommandView,
                ReplParseError,
            >(e),
    {
        let kind = match ReplCommandDiscriminants::from_word(first) {
            Ok(k) => k,
            Err(e) => {
                return Err(e);
            },
        };
        match kind {
            ReplCommandDiscriminants::Exit => {
                if rest.len() == 0 {
                    Ok(ReplCommand::Exit)
                } else {
                    Err(ReplParseError::ExitTakesNoArgs)
                }
            },
            ReplCommandDiscriminants::SignUp => {
                if rest.len() == 1 {
                    let name = String::from_str(rest[0]);
                    Ok(ReplCommand::SignUp { name })
                } else if rest.len() == 0 {
                    Err(ReplParseError::SignUpRequiresName)
                } else {
                    Err(ReplParseError::SignUpTooManyArgs)
                }
            },
            ReplCommandDiscriminants::List => {
                if rest.len() == 0 {
                    Ok(ReplCommand::List)
                } else {
                    Err(ReplParseError::ListTakesNoArgs)
                }
            },
        }
    }

    /// What the client does for this command: `exit` leaves; `signup` sends
    /// a sign-up with the name; `list` asks for the whole list.
    pub fn into_step<R>(self) -> (res: ReplStep<R>)
        ensures
            (self@ matches ReplCommandView::Exit) <==> (res is Break),
            self@ matches ReplCommandView::SignUp(name) ==> (res matches ReplStep::Send(
                ClientMessage::SignMeUp(text),
            ) && text@ == name),
            (self@ matches ReplCommandView::List) ==> (res matches ReplStep::Send(
                ClientMessage::GetList,
            )),
    {
        match self {
            ReplCommand::Exit => ReplStep::Break,
            ReplCommand::SignUp { name } => ReplStep::Send(
                ClientMessage::SignMeUp(SignupListEntryText::from(name)),
            ),
            ReplCommand::List => ReplStep::Send(ClientMessage::GetList),
        }
    }
}

/// The canonical text of a command: its name, and for `signup` a space and
/// the name to sign up.
pub open spec fn command_text(cmd: ReplCommandView) -> Seq<char> {
    match cmd {
        ReplCommandView::Exit => kind_name(ReplCommandDiscriminants::Exit),
        ReplCommandView::SignUp(name) => kind_name(ReplCommandDiscriminants::SignUp) + seq![' ']
            + name,
        ReplCommandView::List => kind_name(ReplCommandDiscriminants::List),
    }
}

/// A name that a `signup` command can carry: one non-empty word.
pub open spec fn is_single_word(name: Seq<char>) -> bool {
    name.len() > 0 && forall|k: int| 0 <= k < name.len() ==> !is_white_space(#[trigger] name[k])
}

/// A name of a kind of command has no white space.
proof fn lemma_kind_name_is_word(kind: ReplCommandDiscriminants)
    ensures
        is_single_word(kind_name(kind)),
{
    let n = kind_name(kind);
    assert forall|k: int| 0 <= k < n.len() implies !is_white_space(#[trigger] n[k]) by {
        assert(n[k] as u32 >= 0x61);
    }
}

/// Law: a line is no command at all exactly when it holds nothing but white
/// space.
pub proof fn lemma_blank_line_is_no_command(line: Seq<char>)
    ensures
        command_from_line(line) is None <==> forall|i: int|
            0 <= i < line.len() ==> is_white_space(#[trigger] line[i]),
{
    lemma_no_words_iff_blank(line);
}

/// Law: the canonical text of every command whose name (for `signup`) is one
/// word parses back to that command.
pub proof fn lemma_command_text_parses_back(cmd: ReplCommandView)
    requires
        cmd matches ReplCommandView::SignUp(name) ==> is_single_word(name),
    ensures
        command_from_line(command_text(cmd)) == Some(Ok::<ReplCommandView, ReplParseError>(cmd)),
{
    match cmd {
        ReplCommandView::Exit => {
            lemma_kind_name_is_word(ReplCommandDiscriminants::Exit);
            lemma_single_word(kind_name(ReplCommandDiscriminants::Exit));
        },
        ReplCommandView::List => {
            lemma_kind_name_is_word(ReplCommandDiscriminants::List);
            lemma_single_word(kind_name(ReplCommandDiscriminants::List));
        },
        ReplCommandView::SignUp(name) => {
            let w = kind_name(ReplCommandDiscriminants::SignUp);
            lemma_kind_name_is_word(ReplCommandDiscriminants::SignUp);
            assert(is_white_space(' '));
            lemma_words_after_first(w, ' ', name);
            lemma_single_word(name);
            let ws = words(command_text(cmd));
            assert(ws =~= seq![w, name]);
            assert(ws.drop_first() =~= seq![name]);
        },
    }
}

} // verus!

//! The bot's commands: their syntax (`/name` or `/name@bot`, then anything)
//! and the help text that lists them.
use crate::text::{
    before_first, eq_ignore_ascii_case, find_char, first_index, lemma_first_index_bounds,
    same_ignoring_ascii_case, same_text,
};
use vstd::prelude::*;
use vstd::string::*;

verus! {

/// The commands that the bot understands.
#[derive(Clone, Copy, Debug, PartialEq, Eq, Structural)]
pub enum Command {
    Help,
    Start,
    Reset,
    Send,
    Employers,
}

/// Why a text is not one of the bot's commands.
#[derive(Clone, Debug)]
pub enum CommandParseError {
    /// The command was addressed to another bot (the name after `@`).
    WrongBotName(String),
    /// The first word is not a known command.
    UnknownCommand(String),
}

/// `CommandParseError` with its texts as character sequences.
pub enum CommandParseErrorView {
    WrongBotName(Seq<char>),
    UnknownCommand(Seq<char>),
}

impl DeepView for CommandParseError {
    type V = CommandParseErrorView;

    open spec fn deep_view(&self) -> CommandParseErrorView {
        match self {
            CommandParseError::WrongBotName(n) => CommandParseErrorView::WrongBotName(n@),
            CommandParseError::UnknownCommand(n) => CommandParseErrorView::UnknownCommand(n@),
        }
    }
}

/// The text that invokes a command.
pub open spec fn command_text(c: Command) -> Seq<char> {
    match c {
        Command::Help => "/help"@,
        Command::Start => "/start"@,
        Command::Reset => "/reset"@,
        Command::Send => "/send"@,
        Command::Employers => "/employers"@,
    }
}

/// The description of a command in the help text.
pub open spec fn command_description(c: Command) -> Seq<char> {
    match c {
        Command::Help => "display this text."@,
        Command::Start => "verify user."@,
        Command::Reset => "Reset user."@,
        Command::Send => "Send table to the employer"@,
        Command::Employers => "Get all employers"@,
    }
}

/// The command invoked by a text, if any.
pub open spec fn command_named(name: Seq<char>) -> Option<Command> {
    if name == command_text(Command::Help) {
        Some(Command::Help)
    } else if name == command_text(Command::Start) {
        Some(Command::Start)
    } else if name == command_text(Command::Reset) {
        Some(Command::Reset)
    } else if name == command_text(Command::Send) {
        Some(Command::Send)
    } else if name == command_text(Command::Employers) {
        Some(Command::Employers)
    } else {
        None
    }
}

/// The first word of a message: everything before the first space.
pub open spec fn command_word(text: Seq<char>) -> Seq<char> {
    before_first(text, ' ')
}

/// The command part of the first word: everything before the first `@`.
pub open spec fn command_name(text: Seq<char>) -> Seq<char> {
    before_first(command_word(text), '@')
}

/// The bot that the first word addresses: what stands between its first and
/// its second `@`, when it has an `@`.
pub open spec fn addressed_bot(text: Seq<char>) -> Option<Seq<char>> {
    let w = command_word(text);
    let k = first_index(w, '@');
    if k < w.len() {
        Some(before_first(w.skip(k + 1), '@'))
    } else {
        None
    }
}

/// How a message text is read as a command of the bot named `bot_name`.
pub open spec fn parse_command(text: Seq<char>, bot_name: Seq<char>) -> Result<
    Command,
    CommandParseErrorView,
> {
    match addressed_bot(text) {
        Some(n) if !same_ignoring_ascii_case(n, bot_name) => Err(
            CommandParseErrorView::WrongBotName(n),
        ),
        _ => match command_named(command_name(text)) {
            Some(c) => Ok(c),
            None => Err(CommandParseErrorView::UnknownCommand(command_name(text))),
        },
    }
}

/// The line of a command in the help text.
pub open spec fn command_line(c: Command) -> Seq<char> {
    command_text(c) + " — "@ + command_description(c)
}

/// The help text: a heading, an empty line, then one line per command.
pub open spec fn help_text() -> Seq<char> {
    "These commands are supported:"@ + "\n\n"@ + command_line(Command::Help) + "\n"@
        + command_line(Command::Start) + "\n"@ + command_line(Command::Reset) + "\n"@
        + command_line(Command::Send) + "\n"@ + command_line(Command::Employers)
}

/// Appends a command's help line.
fn push_command_line(out: &mut String, name: &str, description: &str)
    ensures
        final(out)@ == old(out)@ + (name@ + " — "@ + description@),
{
    out.append(name);
    out.append(" — ");
    out.append(description);
    assert(old(out)@ + name@ + " — "@ + description@ =~= old(out)@ + (name@ + " — "@
        + description@));
}

impl Command {
    /// Reads a message text as a command addressed to the bot `bot_name`.
    pub fn parse(text: &str, bot_name: &str) -> (r: Result<Command, CommandParseError>)
        ensures
            parse_command(text@, bot_name@) == match r {
                Ok(c) => Ok(c),
                Err(e) => Err(e.deep_view()),
            },
    {
        let word_end = find_char(text, ' ');
        proof {
            lemma_first_index_bounds(text@, ' ');
        }
        let word = text.substring_char(0, word_end);
        assert(word@ == command_word(text@));
        let at = find_char(word, '@');
        proof {
            lemma_first_index_bounds(word@, '@');
        }
        let word_len = word.unicode_len();
        if at < word_len {
            let rest = word.substring_char(at + 1, word_len);
            assert(rest@ =~= word@.skip(at + 1));
            let rest_end = find_char(rest, '@');
            proof {
                lemma_first_index_bounds(rest@, '@');
            }
            let user = rest.substring_char(0, rest_end);
            if !eq_ignore_ascii_case(user, bot_name) {
                return Err(CommandParseError::WrongBotName(String::from_str(user)));
            }
        }
        let name = word.substring_char(0, at);
        assert(name@ == command_name(text@));
        if same_text(name, "/help") {
            Ok(Command::Help)
        } else if same_text(name, "/start") {
            Ok(Command::Start)
        } else if same_text(name, "/reset") {
            Ok(Command::Reset)
        } else if same_text(name, "/send") {
            Ok(Command::Send)
        } else if same_text(name, "/employers") {
            Ok(Command::Employers)
        } else {
            Err(CommandParseError::UnknownCommand(String::from_str(name)))
        }
    }

    /// The text that lists the commands, as `/help` shows it.
    pub fn descriptions() -> (r: String)
        ensures
            r@ == help_text(),
    {
        let mut out = String::from_str("These commands are supported:");
        out.append("\n\n");
        push_command_line(&mut out, "/help", "display this text.");
        out.append("\n");
        push_command_line(&mut out, "/start", "verify user.");
        out.append("\n");
        push_command_line(&mut out, "/reset", "Reset user.");
        out.append("\n");
        push_command_line(&mut out, "/send", "Send table to the employer");
        out.append("\n");
        push_command_line(&mut out, "/employers", "Get all employers");
        assert(out@ =~= help_text());
        out
    }
}

} // verus!

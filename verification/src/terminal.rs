//! The terminal action: a script that runs the command in an interactive
//! terminal, with the selected items as its arguments.

use vstd::prelude::*;
use vstd::string::StringExecFns;
use crate::command::{push_all, texts, CommandLine, CommandLineView, Host, HostView, Platform};
use crate::path::{join_path, joined_path};
use crate::payload::{Payload, PayloadView};
use crate::text::chars_of;

verus! {

/// File mode of a script that may be executed: `rwxr-xr-x`.
pub const SCRIPT_MODE: u32 = 0o755;

/// What stands for `c` between single quotes: a quote closes the quoted text,
/// stands escaped outside it and opens it again; any other character stands
/// for itself.
pub open spec fn escaped_char(c: char) -> Seq<char> {
    if c == '\'' {
        seq!['\'', '\\', '\'', '\'']
    } else {
        seq![c]
    }
}

/// `item` with each of its characters escaped.
pub open spec fn escaped(item: Seq<char>) -> Seq<char>
    decreases item.len(),
{
    if item.len() == 0 {
        Seq::empty()
    } else {
        escaped(item.drop_last()) + escaped_char(item.last())
    }
}

/// `item` as one word of a shell command: escaped, between single quotes.
pub open spec fn quoted(item: Seq<char>) -> Seq<char> {
    seq!['\''] + escaped(item) + seq!['\'']
}

/// The items as words of a shell command, one blank between each two.
pub open spec fn quoted_args(items: Seq<Seq<char>>) -> Seq<char>
    decreases items.len(),
{
    if items.len() == 0 {
        Seq::empty()
    } else if items.len() == 1 {
        quoted(items[0])
    } else {
        quoted_args(items.drop_last()) + seq![' '] + quoted(items.last())
    }
}

/// The script for a POSIX shell: clear the screen, enter the target, set the
/// items as positional parameters, run the action, say that it ended, wait
/// for a key, clear again.
pub open spec fn shell_script(info: PayloadView) -> Seq<char> {
    "#!/bin/bash\nclear; cd \""@ + info.target + "\"; set -- "@ + quoted_args(info.items) + "; "@
        + info.action
        + "\necho \"\nProcess finished. Press Enter to close.\"\nread; clear"@
}

/// The script for the Windows command interpreter, which gets the items from
/// the command line that opens it.
pub open spec fn batch_script(info: PayloadView) -> Seq<char> {
    "@echo off\r\ncls & cd /d \""@ + info.target + "\" & "@ + info.action
        + "\r\necho Process finished. Press Enter to close.\r\npause >nul & cls\r\n"@
}

/// The text of the script that the terminal runs.
pub open spec fn terminal_script(info: PayloadView, platform: Platform) -> Seq<char> {
    match platform {
        Platform::Windows => batch_script(info),
        _ => shell_script(info),
    }
}

/// Name of the script's file in the temporary directory.
pub open spec fn script_name() -> Seq<char> {
    "tooly.command"@
}

/// The mode that the script's file is given, where the platform has one.
pub open spec fn terminal_mode(platform: Platform) -> Option<u32> {
    match platform {
        Platform::Windows => None,
        _ => Some(SCRIPT_MODE),
    }
}

/// The command that opens the script in the platform's terminal.
pub open spec fn terminal_command(
    platform: Platform,
    script_path: Seq<char>,
    items: Seq<Seq<char>>,
) -> CommandLineView {
    match platform {
        Platform::MacOs => CommandLineView { program: "open"@, args: seq![script_path] },
        Platform::Linux => CommandLineView { program: "xdg-open"@, args: seq![script_path] },
        Platform::Windows => CommandLineView {
            program: "cmd"@,
            args: seq!["/C"@, "start"@, "cmd"@, "/K"@, script_path] + items,
        },
    }
}

/// What the terminal action does: write `script` to `script_path`, give the
/// file `mode` where there is one, and start `command`. No limit is set on
/// the time the terminal stays open.
#[derive(Clone, Debug, PartialEq, Eq)]
pub struct TerminalPlan {
    pub script_path: String,
    pub script: String,
    pub mode: Option<u32>,
    pub command: CommandLine,
}

/// A `TerminalPlan` as plain text.
pub struct TerminalPlanView {
    pub script_path: Seq<char>,
    pub script: Seq<char>,
    pub mode: Option<u32>,
    pub command: CommandLineView,
}

impl View for TerminalPlan {
    type V = TerminalPlanView;

    open spec fn view(&self) -> TerminalPlanView {
        TerminalPlanView {
            script_path: self.script_path@,
            script: self.script@,
            mode: self.mode,
            command: self.command@,
        }
    }
}

/// The terminal action for `info` on `host`: the script, in a file of the
/// script's name under the host's temporary directory, and the command that
/// opens that file.
pub open spec fn terminal_plan(info: PayloadView, host: HostView) -> TerminalPlanView {
    let script_path = joined_path(host.platform, host.temp_dir, script_name());
    TerminalPlanView {
        script_path,
        script: terminal_script(info, host.platform),
        mode: terminal_mode(host.platform),
        command: terminal_command(host.platform, script_path, info.items),
    }
}

/// `item` as one word of a shell command.
pub fn quote_item(item: &str) -> (word: String)
    ensures
        word@ == quoted(item@),
{
    let v = chars_of(item);
    let mut word = String::new();
    word.push('\'');
    let mut i: usize = 0;
    while i < v.len()
        invariant
            i <= v.len(),
            word@ == seq!['\''] + escaped(v@.take(i as int)),
        decreases v.len() - i,
    {
        let c = v[i];
        proof {
            assert(v@.take(i + 1).drop_last() == v@.take(i as int));
        }
        if c == '\'' {
            word.push('\'');
            word.push('\\');
            word.push('\'');
            word.push('\'');
        } else {
            word.push(c);
        }
        assert(word@ == seq!['\''] + escaped(v@.take(i + 1)));
        i += 1;
    }
    assert(v@.take(v.len() as int) == v@);
    word.push('\'');
    word
}

/// The items as words of a shell command.
pub fn quote_items(items: &Vec<String>) -> (words: String)
    ensures
        words@ == quoted_args(texts(items@)),
{
    let mut words = String::new();
    let mut i: usize = 0;
    while i < items.len()
        invariant
            i <= items.len(),
            words@ == quoted_args(texts(items@).take(i as int)),
        decreases items.len() - i,
    {
        let word = quote_item(items[i].as_str());
        proof {
            let upto = texts(items@).take(i + 1);
            assert(upto.drop_last() == texts(items@).take(i as int));
            assert(upto.last() == items@[i as int]@);
        }
        if i > 0 {
            words.push(' ');
        }
        words.append(word.as_str());
        i += 1;
    }
    assert(texts(items@).take(items.len() as int) == texts(items@));
    words
}

/// The text of the script that runs `info.action` in a terminal.
pub fn script_text(info: &Payload, platform: Platform) -> (script: String)
    ensures
        script@ == terminal_script(info@, platform),
{
    match platform {
        Platform::Windows => {
            let mut script = "@echo off\r\ncls & cd /d \"".to_owned();
            script.append(info.target.as_str());
            script.append("\" & ");
            script.append(info.action.as_str());
            script.append(
                "\r\necho Process finished. Press Enter to close.\r\npause >nul & cls\r\n",
            );
            script
        },
        _ => {
            let words = quote_items(&info.items);
            let mut script = "#!/bin/bash\nclear; cd \"".to_owned();
            script.append(info.target.as_str());
            script.append("\"; set -- ");
            script.append(words.as_str());
            script.append("; ");
            script.append(info.action.as_str());
            script.append("\necho \"\nProcess finished. Press Enter to close.\"\nread; clear");
            script
        },
    }
}

/// Plans the terminal action for `info`: the script, the file under the
/// host's temporary directory that holds it, and the command that opens it.
pub fn action_terminal(info: &Payload, host: &Host) -> (plan: TerminalPlan)
    ensures
        plan@ == terminal_plan(info@, host@),
{
    let script_path = join_path(host.platform, host.temp_dir.as_str(), "tooly.command");
    let script = script_text(info, host.platform);
    let mut args: Vec<String> = Vec::new();
    let (program, mode) = match host.platform {
        Platform::MacOs => {
            args.push(script_path.clone());
            assert(texts(args@) == seq![script_path@]);
            ("open".to_owned(), Some(SCRIPT_MODE))
        },
        Platform::Linux => {
            args.push(script_path.clone());
            assert(texts(args@) == seq![script_path@]);
            ("xdg-open".to_owned(), Some(SCRIPT_MODE))
        },
        Platform::Windows => {
            args.push("/C".to_owned());
            args.push("start".to_owned());
            args.push("cmd".to_owned());
            args.push("/K".to_owned());
            args.push(script_path.clone());
            assert(texts(args@) == seq!["/C"@, "start"@, "cmd"@, "/K"@, script_path@]);
            push_all(&mut args, &info.items);
            ("cmd".to_owned(), None)
        },
    };
    TerminalPlan { script_path, script, mode, command: CommandLine { program, args } }
}

/// Where a shell stands while it reads a line word by word.
pub enum ShellMode {
    /// Between two words.
    Between,
    /// In a word, outside quotes.
    Unquoted,
    /// In a word, between single quotes.
    Quoted,
}

/// How a POSIX shell divides `rest` into words, having read `done` and, of
/// the word it is in, `word`. Between single quotes every character stands
/// for itself; outside them a single quote opens quoted text, a backslash
/// before a single quote makes that quote part of the word, and a blank ends
/// the word. The result is `None` where `rest` ends inside quotes or holds,
/// outside quotes, anything else.
pub open spec fn shell_split(
    rest: Seq<char>,
    mode: ShellMode,
    word: Seq<char>,
    done: Seq<Seq<char>>,
) -> Option<Seq<Seq<char>>>
    decreases rest.len(),
{
    if rest.len() == 0 {
        match mode {
            ShellMode::Between => Some(done),
            ShellMode::Unquoted => Some(done.push(word)),
            ShellMode::Quoted => None,
        }
    } else {
        let c = rest[0];
        match mode {
            ShellMode::Quoted => if c == '\'' {
                shell_split(rest.skip(1), ShellMode::Unquoted, word, done)
            } else {
                shell_split(rest.skip(1), ShellMode::Quoted, word.push(c), done)
            },
            ShellMode::Unquoted => if c == '\'' {
                shell_split(rest.skip(1), ShellMode::Quoted, word, done)
            } else if c == ' ' {
                shell_split(rest.skip(1), ShellMode::Between, Seq::empty(), done.push(word))
            } else if c == '\\' && rest.len() >= 2 && rest[1] == '\'' {
                shell_split(rest.skip(2), ShellMode::Unquoted, word.push('\''), done)
            } else {
                None
            },
            ShellMode::Between => if c == '\'' {
                shell_split(rest.skip(1), ShellMode::Quoted, Seq::empty(), done)
            } else if c == ' ' {
                shell_split(rest.skip(1), ShellMode::Between, Seq::empty(), done)
            } else if c == '\\' && rest.len() >= 2 && rest[1] == '\'' {
                shell_split(rest.skip(2), ShellMode::Unquoted, seq!['\''], done)
            } else {
                None
            },
        }
    }
}

/// The words that a POSIX shell reads from `line`.
pub open spec fn shell_words(line: Seq<char>) -> Option<Seq<Seq<char>>> {
    shell_split(line, ShellMode::Between, Seq::empty(), Seq::empty())
}

/// Escaping a text character by character: the escape of a text with one more
/// character in front.
proof fn lemma_escaped_front(c: char, item: Seq<char>)
    ensures
        escaped(seq![c] + item) == escaped_char(c) + escaped(item),
    decreases item.len(),
{
    let whole = seq![c] + item;
    if item.len() == 0 {
        assert(whole.drop_last() == Seq::<char>::empty());
        assert(escaped(whole.drop_last()) == Seq::<char>::empty());
        assert(escaped(whole) == escaped_char(c));
    } else {
        lemma_escaped_front(c, item.drop_last());
        assert(whole.drop_last() == seq![c] + item.drop_last());
        assert(whole.last() == item.last());
        assert(escaped(whole) == (escaped_char(c) + escaped(item.drop_last())) + escaped_char(
            item.last(),
        ));
    }
}

/// Inside quotes, the shell reads an escaped text and the closing quote as
/// the text itself.
proof fn lemma_split_escaped(
    item: Seq<char>,
    tail: Seq<char>,
    word: Seq<char>,
    done: Seq<Seq<char>>,
)
    ensures
        shell_split(escaped(item) + seq!['\''] + tail, ShellMode::Quoted, word, done)
            == shell_split(tail, ShellMode::Unquoted, word + item, done),
    decreases item.len(),
{
    let line = escaped(item) + seq!['\''] + tail;
    if item.len() == 0 {
        assert(line.skip(1) == tail);
        assert(word + item == word);
    } else {
        let c = item[0];
        let rest = item.skip(1);
        assert(item == seq![c] + rest);
        lemma_escaped_front(c, rest);
        let after = escaped(rest) + seq!['\''] + tail;
        assert(line == escaped_char(c) + after);
        if c == '\'' {
            let l1 = line.skip(1);
            assert(l1 == seq!['\\', '\'', '\''] + after);
            assert(l1[0] == '\\' && l1[1] == '\'');
            let l3 = l1.skip(2);
            assert(l3 == seq!['\''] + after);
            assert(l3.skip(1) == after);
            let longer = word.push('\'');
            assert(shell_split(line, ShellMode::Quoted, word, done) == shell_split(
                l1,
                ShellMode::Unquoted,
                word,
                done,
            ));
            assert(shell_split(l1, ShellMode::Unquoted, word, done) == shell_split(
                l3,
                ShellMode::Unquoted,
                longer,
                done,
            ));
            assert(shell_split(l3, ShellMode::Unquoted, longer, done) == shell_split(
                after,
                ShellMode::Quoted,
                longer,
                done,
            ));
            lemma_split_escaped(rest, tail, longer, done);
            assert(longer + rest == word + item);
        } else {
            assert(line.skip(1) == after);
            lemma_split_escaped(rest, tail, word.push(c), done);
            assert(word.push(c) + rest == word + item);
        }
    }
}

/// Between words, the shell reads a quoted item as the start of a word that
/// holds the item.
proof fn lemma_split_quoted(item: Seq<char>, tail: Seq<char>, done: Seq<Seq<char>>)
    ensures
        shell_split(quoted(item) + tail, ShellMode::Between, Seq::empty(), done) == shell_split(
            tail,
            ShellMode::Unquoted,
            item,
            done,
        ),
{
    let line = quoted(item) + tail;
    assert(line.skip(1) == escaped(item) + seq!['\''] + tail);
    lemma_split_escaped(item, tail, Seq::empty(), done);
    assert(Seq::<char>::empty() + item == item);
}

/// The shell reads the quoted items, followed by the end of the line or by a
/// blank, as the items: all but the last are words that are done, and the
/// last is the word it is in.
proof fn lemma_split_args(items: Seq<Seq<char>>, tail: Seq<char>, done: Seq<Seq<char>>)
    requires
        items.len() > 0,
    ensures
        shell_split(quoted_args(items) + tail, ShellMode::Between, Seq::empty(), done)
            == shell_split(tail, ShellMode::Unquoted, items.last(), done + items.drop_last()),
    decreases items.len(),
{
    if items.len() == 1 {
        lemma_split_quoted(items[0], tail, done);
        assert(done + items.drop_last() == done);
    } else {
        let init = items.drop_last();
        let next = seq![' '] + (quoted(items.last()) + tail);
        assert(quoted_args(items) + tail == quoted_args(init) + next);
        lemma_split_args(init, next, done);
        let seen = done + init.drop_last();
        assert(next.skip(1) == quoted(items.last()) + tail);
        lemma_split_quoted(items.last(), tail, seen.push(init.last()));
        assert(seen.push(init.last()) == done + init);
    }
}

/// Every item reaches the script as one argument, unchanged: a POSIX shell
/// that reads the quoted items finds exactly the items, whatever quotes and
/// blanks they hold.
pub proof fn lemma_quoted_args_are_the_items(items: Seq<Seq<char>>)
    ensures
        shell_words(quoted_args(items)) == Some(items),
{
    if items.len() > 0 {
        lemma_split_args(items, Seq::empty(), Seq::empty());
        assert(quoted_args(items) + Seq::<char>::empty() == quoted_args(items));
        assert((Seq::<Seq<char>>::empty() + items.drop_last()).push(items.last()) == items);
    }
}

} // verus!

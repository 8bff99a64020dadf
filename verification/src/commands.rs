//! The commands of the interactive prompt, and how a line is read as one.

use crate::numbers::{parse_i32, parse_u32, parse_u64};
#[allow(unused_imports)]
use crate::numbers::{invalid, signed, u32_of, u64_of, NumberError};
use vstd::prelude::*;
use vstd::string::*;

verus! {

/// White space, as Unicode has it.
pub open spec fn is_space(c: char) -> bool {
    ||| '\u{9}' <= c <= '\u{d}'
    ||| c == '\u{20}'
    ||| c == '\u{85}'
    ||| c == '\u{a0}'
    ||| c == '\u{1680}'
    ||| '\u{2000}' <= c <= '\u{200a}'
    ||| c == '\u{2028}'
    ||| c == '\u{2029}'
    ||| c == '\u{202f}'
    ||| c == '\u{205f}'
    ||| c == '\u{3000}'
}

/// Whether `c` is white space.
fn is_white_space(c: char) -> (result: bool)
    ensures
        result == is_space(c),
{
    ('\u{9}' <= c && c <= '\u{d}') || c == '\u{20}' || c == '\u{85}' || c == '\u{a0}' || c
        == '\u{1680}' || ('\u{2000}' <= c && c <= '\u{200a}') || c == '\u{2028}' || c == '\u{2029}'
        || c == '\u{202f}' || c == '\u{205f}' || c == '\u{3000}'
}

/// The number of characters before the first white space.
pub open spec fn word_len(line: Seq<char>) -> nat
    decreases line.len(),
{
    if line.len() == 0 || is_space(line[0]) {
        0
    } else {
        1 + word_len(line.drop_first())
    }
}

/// A word does not reach beyond its line.
pub proof fn lemma_word_fits(line: Seq<char>)
    ensures
        word_len(line) <= line.len(),
    decreases line.len(),
{
    if line.len() > 0 && !is_space(line[0]) {
        lemma_word_fits(line.drop_first());
    }
}

/// The words of a line: what stands between white space.
pub open spec fn words(line: Seq<char>) -> Seq<Seq<char>>
    decreases line.len(),
{
    if line.len() == 0 {
        Seq::empty()
    } else if is_space(line[0]) {
        words(line.drop_first())
    } else {
        proof {
            lemma_word_fits(line);
        }
        seq![line.take(word_len(line) as int)] + words(line.skip(word_len(line) as int))
    }
}

/// A word ends where all before is no white space, and white space or the end of the line is next.
pub proof fn lemma_word_len(line: Seq<char>, len: nat)
    requires
        len <= line.len(),
        forall|i: int| 0 <= i < len ==> !is_space(#[trigger] line[i]),
        len < line.len() ==> is_space(line[len as int]),
    ensures
        word_len(line) == len,
    decreases len,
{
    if len > 0 {
        assert(!is_space(line[0]));
        let rest = line.drop_first();
        assert forall|i: int| 0 <= i < len - 1 implies !is_space(#[trigger] rest[i]) by {
            assert(rest[i] == line[i + 1]);
        }
        lemma_word_len(rest, (len - 1) as nat);
    }
}

/// The texts of some strings.
pub open spec fn texts(strings: Seq<String>) -> Seq<Seq<char>> {
    strings.map_values(|string: String| string@)
}

/// Split a line into its words.
pub fn split_words(line: &str) -> (parts: Vec<String>)
    ensures
        texts(parts@) == words(line@),
{
    let len = line.unicode_len();
    let mut parts: Vec<String> = Vec::new();
    let mut i: usize = 0;
    assert(line@.skip(0) =~= line@);
    assert(texts(parts@) + words(line@) =~= words(line@));
    while i < len
        invariant
            i <= len,
            len == line@.len(),
            texts(parts@) + words(line@.skip(i as int)) == words(line@),
        decreases len - i,
    {
        let ghost rest = line@.skip(i as int);
        let c = line.get_char(i);
        assert(c == rest[0]);
        if is_white_space(c) {
            assert(rest.drop_first() =~= line@.skip(i + 1));
            i += 1;
        } else {
            let start = i;
            i += 1;
            while i < len && !is_white_space(line.get_char(i))
                invariant
                    start < i <= len,
                    len == line@.len(),
                    rest == line@.skip(start as int),
                    forall|j: int| 0 <= j < i - start ==> !is_space(#[trigger] rest[j]),
                ensures
                    i < len ==> is_space(rest[i - start]),
                decreases len - i,
            {
                i += 1;
            }
            proof {
                lemma_word_len(rest, (i - start) as nat);
                assert(rest.skip(i - start) =~= line@.skip(i as int));
            }
            let ghost before = parts@;
            let word = line.substring_char(start, i).to_owned();
            parts.push(word);
            assert(word@ == rest.take(i - start));
            assert(texts(parts@) =~= texts(before).push(word@));
            assert(texts(parts@) + words(line@.skip(i as int)) =~= texts(before) + (seq![word@]
                + words(line@.skip(i as int))));
        }
    }
    assert(line@.skip(len as int) =~= Seq::empty());
    assert(texts(parts@) + words(line@.skip(len as int)) =~= texts(parts@));
    parts
}

/// A command of the interactive prompt.
#[derive(Debug)]
pub enum ReplCommand {
    /// An empty line.
    Nothing,
    /// Launch a program.
    Run { program: String, args: Vec<String> },
    /// Attach to a process.
    Attach { pid: i32 },
    /// Resume the inferior, and again after each stop, this many times.
    Continue { count: u32 },
    /// Print the state of the engine.
    Status,
    /// Detach from the inferior.
    Detach,
    /// Terminate the inferior.
    Kill,
    /// Print the stop-path metrics.
    Metrics,
    /// Read the canonical registers.
    ReadAll,
    /// Read one register.
    Read { name: String },
    /// Write one register.
    Write { name: String, value: u64 },
    /// Print what commands there are.
    Help,
    /// Leave the prompt.
    Quit,
    /// A command without the words that it needs. The text says how it is used.
    Usage { text: &'static str },
    /// No command, or one with a word that means nothing.
    Invalid { message: String },
}

impl ReplCommand {
    /// This says how a command is used.
    pub open spec fn explains(self, usage: Seq<char>) -> bool {
        self matches ReplCommand::Usage { text } && text@ == usage
    }

    /// This says that a line is no command.
    pub open spec fn rejects(self, reason: Seq<char>) -> bool {
        self matches ReplCommand::Invalid { message } && message@ == reason
    }

    /// This is the command that the words of a line starting with `regs` stand for.
    pub open spec fn is_regs(self, parts: Seq<Seq<char>>) -> bool {
        if parts.len() < 3 {
            self.explains("usage: regs read <name|all> | regs write <name> <value>"@)
        } else if parts[1] == "read"@ {
            if parts[2] == "all"@ {
                self is ReadAll
            } else {
                self matches ReplCommand::Read { name } && name@ == parts[2]
            }
        } else if parts[1] == "write"@ {
            if parts.len() < 4 {
                self.explains("usage: regs write <name> <value>"@)
            } else {
                match u64_of(parts[3]) {
                    Ok(number) => self matches ReplCommand::Write { name, value } && name@
                        == parts[2] && value == number,
                    Err(reason) => self.rejects(reason),
                }
            }
        } else {
            self.rejects("unknown regs command: "@ + parts[1])
        }
    }

    /// This is the command that the words of a line stand for.
    pub open spec fn is_line(self, parts: Seq<Seq<char>>) -> bool {
        if parts.len() == 0 {
            self is Nothing
        } else if parts[0] == "run"@ {
            if parts.len() < 2 {
                self.explains("usage: run <program> [args...]"@)
            } else {
                self matches ReplCommand::Run { program, args } && program@ == parts[1] && texts(
                    args@,
                ) == parts.skip(2)
            }
        } else if parts[0] == "attach"@ {
            if parts.len() != 2 {
                self.explains("usage: attach <pid>"@)
            } else {
                match signed(parts[1]) {
                    Ok(number) => self matches ReplCommand::Attach { pid } && pid == number,
                    Err(error) => self.rejects(invalid("i32"@, parts[1], error)),
                }
            }
        } else if parts[0] == "continue"@ || parts[0] == "c"@ {
            if parts.len() < 2 {
                self matches ReplCommand::Continue { count } && count == 1
            } else {
                match u32_of(parts[1]) {
                    Ok(number) => self matches ReplCommand::Continue { count } && count == number,
                    Err(reason) => self.rejects(reason),
                }
            }
        } else if parts[0] == "status"@ {
            self is Status
        } else if parts[0] == "detach"@ {
            self is Detach
        } else if parts[0] == "kill"@ || parts[0] == "terminate"@ {
            self is Kill
        } else if parts[0] == "metrics"@ {
            self is Metrics
        } else if parts[0] == "regs"@ {
            self.is_regs(parts)
        } else if parts[0] == "help"@ || parts[0] == "?"@ {
            self is Help
        } else if parts[0] == "quit"@ || parts[0] == "q"@ || parts[0] == "exit"@ {
            self is Quit
        } else {
            self.rejects("unknown command: "@ + parts[0])
        }
    }
}

/// Whether the word is this text.
fn is_word(word: &String, text: &str) -> (result: bool)
    ensures
        result == (word@ == text@),
{
    *word == text.to_owned()
}

/// The words from the third on.
fn words_behind(parts: &Vec<String>) -> (rest: Vec<String>)
    requires
        parts@.len() >= 2,
    ensures
        texts(rest@) == texts(parts@).skip(2),
{
    let mut rest: Vec<String> = Vec::new();
    let mut i: usize = 2;
    while i < parts.len()
        invariant
            2 <= i <= parts@.len(),
            texts(rest@) == texts(parts@).subrange(2, i as int),
        decreases parts@.len() - i,
    {
        let ghost before = rest@;
        let word = parts[i].as_str().to_owned();
        rest.push(word);
        assert(texts(rest@) =~= texts(before).push(word@));
        i += 1;
    }
    rest
}

/// Read the words of a line that starts with `regs`.
pub fn parse_regs_command(parts: &Vec<String>) -> (command: ReplCommand)
    ensures
        command.is_regs(texts(parts@)),
{
    if parts.len() < 3 {
        return ReplCommand::Usage {
            text: "usage: regs read <name|all> | regs write <name> <value>",
        };
    }
    if is_word(&parts[1], "read") {
        if is_word(&parts[2], "all") {
            ReplCommand::ReadAll
        } else {
            ReplCommand::Read { name: parts[2].as_str().to_owned() }
        }
    } else if is_word(&parts[1], "write") {
        if parts.len() < 4 {
            return ReplCommand::Usage { text: "usage: regs write <name> <value>" };
        }
        match parse_u64(parts[3].as_str()) {
            Ok(value) => ReplCommand::Write { name: parts[2].as_str().to_owned(), value },
            Err(message) => ReplCommand::Invalid { message },
        }
    } else {
        ReplCommand::Invalid {
            message: "unknown regs command: ".to_owned().concat(parts[1].as_str()),
        }
    }
}

/// Read a line of the interactive prompt.
pub fn parse_line(line: &str) -> (command: ReplCommand)
    ensures
        command.is_line(words(line@)),
{
    let parts = split_words(line);
    assert(texts(parts@).len() == parts@.len());
    if parts.len() == 0 {
        return ReplCommand::Nothing;
    }
    let word = &parts[0];
    assert(texts(parts@)[0] == word@);
    if is_word(word, "run") {
        if parts.len() < 2 {
            return ReplCommand::Usage { text: "usage: run <program> [args...]" };
        }
        ReplCommand::Run { program: parts[1].as_str().to_owned(), args: words_behind(&parts) }
    } else if is_word(word, "attach") {
        if parts.len() != 2 {
            return ReplCommand::Usage { text: "usage: attach <pid>" };
        }
        match parse_i32(parts[1].as_str()) {
            Ok(pid) => ReplCommand::Attach { pid },
            Err(message) => ReplCommand::Invalid { message },
        }
    } else if is_word(word, "continue") || is_word(word, "c") {
        if parts.len() < 2 {
            return ReplCommand::Continue { count: 1 };
        }
        match parse_u32(parts[1].as_str()) {
            Ok(count) => ReplCommand::Continue { count },
            Err(message) => ReplCommand::Invalid { message },
        }
    } else if is_word(word, "status") {
        ReplCommand::Status
    } else if is_word(word, "detach") {
        ReplCommand::Detach
    } else if is_word(word, "kill") || is_word(word, "terminate") {
        ReplCommand::Kill
    } else if is_word(word, "metrics") {
        ReplCommand::Metrics
    } else if is_word(word, "regs") {
        parse_regs_command(&parts)
    } else if is_word(word, "help") || is_word(word, "?") {
        ReplCommand::Help
    } else if is_word(word, "quit") || is_word(word, "q") || is_word(word, "exit") {
        ReplCommand::Quit
    } else {
        ReplCommand::Invalid { message: "unknown command: ".to_owned().concat(word.as_str()) }
    }
}

/// What follows white space does not lengthen the word before it.
proof fn lemma_word_stops(a: Seq<char>, c: char, b: Seq<char>)
    requires
        is_space(c),
    ensures
        word_len(a.push(c) + b) == word_len(a),
    decreases a.len(),
{
    let line = a.push(c) + b;
    if a.len() == 0 {
        assert(line[0] == c);
    } else {
        assert(line[0] == a[0]);
        if !is_space(a[0]) {
            assert(line.drop_first() =~= a.drop_first().push(c) + b);
            lemma_word_stops(a.drop_first(), c, b);
        }
    }
}

/// White space separates words and does nothing else, wherever in a line it stands: the words of
/// the line are those before it and those behind it.
pub proof fn white_space_only_separates(a: Seq<char>, c: char, b: Seq<char>)
    requires
        is_space(c),
    ensures
        words(a.push(c) + b) == words(a) + words(b),
    decreases a.len(),
{
    let line = a.push(c) + b;
    if a.len() == 0 {
        assert(line[0] == c);
        assert(line.drop_first() =~= b);
        assert(words(a) + words(b) =~= words(b));
    } else if is_space(a[0]) {
        assert(line[0] == a[0]);
        assert(line.drop_first() =~= a.drop_first().push(c) + b);
        white_space_only_separates(a.drop_first(), c, b);
    } else {
        assert(line[0] == a[0]);
        lemma_word_stops(a, c, b);
        lemma_word_fits(a);
        let n = word_len(a) as int;
        assert(line.take(n) =~= a.take(n));
        assert(line.skip(n) =~= a.skip(n).push(c) + b);
        white_space_only_separates(a.skip(n), c, b);
        assert(seq![a.take(n)] + (words(a.skip(n)) + words(b)) =~= (seq![a.take(n)] + words(
            a.skip(n),
        )) + words(b));
    }
}

/// The end of a line, or any other white space around it, does not change which command it is.
pub proof fn white_space_around_a_line_changes_nothing(line: Seq<char>, c: char, d: char)
    requires
        is_space(c),
        is_space(d),
    ensures
        words(seq![c] + line.push(d)) == words(line),
{
    let empty = Seq::<char>::empty();
    assert(seq![c] + line.push(d) =~= empty.push(c) + line.push(d));
    white_space_only_separates(empty, c, line.push(d));
    assert(line.push(d) =~= line.push(d) + empty);
    white_space_only_separates(line, d, empty);
    assert(words(empty) + words(line.push(d)) =~= words(line));
}

/// A word has something in it, and no white space.
pub proof fn words_hold_no_white_space(line: Seq<char>, i: int, j: int)
    requires
        0 <= i < words(line).len(),
    ensures
        words(line)[i].len() > 0,
        0 <= j < words(line)[i].len() ==> !is_space(words(line)[i][j]),
    decreases line.len(),
{
    if is_space(line[0]) {
        words_hold_no_white_space(line.drop_first(), i, j);
    } else {
        lemma_word_fits(line);
        let n = word_len(line) as int;
        if i > 0 {
            words_hold_no_white_space(line.skip(n), i - 1, j);
        } else if 0 <= j < n {
            lemma_no_space_in_word(line, j);
        }
    }
}

/// There is no white space in a word.
proof fn lemma_no_space_in_word(line: Seq<char>, j: int)
    requires
        0 <= j < word_len(line),
    ensures
        !is_space(line[j]),
    decreases line.len(),
{
    lemma_word_fits(line);
    if j > 0 {
        lemma_no_space_in_word(line.drop_first(), j - 1);
        assert(line.drop_first()[j - 1] == line[j]);
    }
}

} // verus!

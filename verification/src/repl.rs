//! The interactive command language.
//!
//! One line of input is tokenized on whitespace; the first token selects
//! the command and the rest are its arguments. A missing argument yields
//! the command's usage message, an unrecognized first token an unknown-
//! command outcome, and `exit` alone on a line ends the loop. Parsing only
//! decides; the caller performs the chosen operation and prints.

use vstd::prelude::*;
use crate::text::str_eq;

verus! {

/// The whitespace that separates tokens.
pub open spec fn is_space_char(c: char) -> bool {
    c == ' ' || c == '\t' || c == '\r' || c == '\n'
}

/// The tokens of `s` given an already-read partial token `cur`.
pub open spec fn tokens_acc(s: Seq<char>, cur: Seq<char>) -> Seq<Seq<char>>
    decreases s.len(),
{
    if s.len() == 0 {
        if cur.len() == 0 {
            Seq::empty()
        } else {
            seq![cur]
        }
    } else if is_space_char(s[0]) {
        if cur.len() == 0 {
            tokens_acc(s.drop_first(), Seq::empty())
        } else {
            seq![cur] + tokens_acc(s.drop_first(), Seq::empty())
        }
    } else {
        tokens_acc(s.drop_first(), cur.push(s[0]))
    }
}

/// The whitespace-separated tokens of a line, in order.
pub open spec fn tokens_of(s: Seq<char>) -> Seq<Seq<char>> {
    tokens_acc(s, Seq::empty())
}

/// Splits a line into its whitespace-separated tokens.
pub fn tokenize(line: &str) -> (r: Vec<String>)
    ensures
        r@.map_values(|s: String| s@) == tokens_of(line@),
{
    let len = line.unicode_len();
    let mut out: Vec<String> = Vec::new();
    let mut start: usize = 0;
    let mut in_word = false;
    let mut i: usize = 0;
    proof {
        assert(line@.skip(0) =~= line@);
        assert(out@.map_values(|s: String| s@) =~= Seq::<Seq<char>>::empty());
        assert(Seq::<Seq<char>>::empty() + tokens_of(line@) =~= tokens_of(line@));
    }
    while i < len
        invariant
            len == line@.len(),
            0 <= i <= len,
            in_word ==> 0 <= start < i,
            in_word ==> out@.map_values(|s: String| s@) + tokens_acc(
                line@.skip(i as int),
                line@.subrange(start as int, i as int),
            ) == tokens_of(line@),
            !in_word ==> out@.map_values(|s: String| s@) + tokens_acc(
                line@.skip(i as int),
                Seq::empty(),
            ) == tokens_of(line@),
        decreases len - i,
    {
        proof {
            assert(line@.skip(i as int).drop_first() =~= line@.skip(i + 1));
            assert(line@.skip(i as int)[0] == line@[i as int]);
        }
        let c = line.get_char(i);
        if c == ' ' || c == '\t' || c == '\r' || c == '\n' {
            if in_word {
                let ghost prev = out@.map_values(|s: String| s@);
                let ghost cur = line@.subrange(start as int, i as int);
                let w = line.substring_char(start, i).to_owned();
                out.push(w);
                in_word = false;
                proof {
                    assert(tokens_acc(line@.skip(i as int), cur) == seq![cur] + tokens_acc(
                        line@.skip(i + 1),
                        Seq::empty(),
                    ));
                    assert(out@.map_values(|s: String| s@) =~= prev + seq![cur]);
                    assert((prev + seq![cur]) + tokens_acc(line@.skip(i + 1), Seq::empty())
                        =~= prev + (seq![cur] + tokens_acc(line@.skip(i + 1), Seq::empty())));
                }
            } else {
                proof {
                    assert(tokens_acc(line@.skip(i as int), Seq::empty()) == tokens_acc(
                        line@.skip(i + 1),
                        Seq::empty(),
                    ));
                }
            }
        } else {
            if !in_word {
                start = i;
                in_word = true;
                proof {
                    assert(line@.subrange(i as int, i as int) =~= Seq::<char>::empty());
                }
            }
            proof {
                let cur = line@.subrange(start as int, i as int);
                assert(cur.push(line@[i as int]) =~= line@.subrange(start as int, i + 1));
                assert(tokens_acc(line@.skip(i as int), cur) == tokens_acc(
                    line@.skip(i + 1),
                    cur.push(line@[i as int]),
                ));
            }
        }
        i = i + 1;
    }
    if in_word {
        let ghost prev = out@.map_values(|s: String| s@);
        let ghost cur = line@.subrange(start as int, len as int);
        let w = line.substring_char(start, len).to_owned();
        out.push(w);
        proof {
            assert(line@.skip(len as int) =~= Seq::<char>::empty());
            assert(out@.map_values(|s: String| s@) =~= prev + seq![cur]);
            assert((prev + seq![cur]) =~= prev + tokens_acc(line@.skip(len as int), cur));
        }
    } else {
        proof {
            assert(line@.skip(len as int) =~= Seq::<char>::empty());
            assert(out@.map_values(|s: String| s@) + tokens_acc(
                line@.skip(len as int),
                Seq::<char>::empty(),
            ) =~= out@.map_values(|s: String| s@));
        }
    }
    out
}

/// A fully-parsed command with its arguments.
pub enum Command {
    List(String),
    Delete(String),
    Rename(String, String),
    Move(String, String),
    Copy(String, String),
    Mkdir(String),
    OrganizeByType(String),
    OrganizeByDate(String),
    Find(String),
    Stats(String),
}

/// Which command a usage message belongs to.
#[derive(Clone, Copy, PartialEq, Eq, Structural, Debug)]
pub enum CommandKind {
    List,
    Delete,
    Rename,
    Move,
    Copy,
    Mkdir,
    OrganizeByType,
    OrganizeByDate,
    Find,
    Stats,
}

/// What one input line asks for.
pub enum ParseOutcome {
    /// A blank line: nothing to do, keep reading.
    Empty,
    /// `exit` alone: leave the loop.
    Exit,
    /// A well-formed command to run.
    Run(Command),
    /// A known command with too few arguments: print its usage line.
    Usage(CommandKind),
    /// An unrecognized first token: report it.
    Unknown(String),
}

/// What outcome a token list must parse to: the first token selects the
/// command; a command with enough arguments parses to `Run`, one with too
/// few to `Usage`; `exit` alone on a line is `Exit`; a blank line is
/// `Empty`; anything else is `Unknown`. Extra arguments are ignored.
pub open spec fn outcome_matches(ts: Seq<Seq<char>>, r: ParseOutcome) -> bool {
    if ts.len() == 0 {
        r is Empty
    } else if ts[0] == "exit"@ {
        if ts.len() == 1 {
            r is Exit
        } else {
            r matches ParseOutcome::Unknown(u) && u@ == ts[0]
        }
    } else if ts[0] == "list"@ {
        if ts.len() >= 2 {
            r matches ParseOutcome::Run(c) && c matches Command::List(d) && d@ == ts[1]
        } else {
            r == ParseOutcome::Usage(CommandKind::List)
        }
    } else if ts[0] == "delete"@ {
        if ts.len() >= 2 {
            r matches ParseOutcome::Run(c) && c matches Command::Delete(d) && d@ == ts[1]
        } else {
            r == ParseOutcome::Usage(CommandKind::Delete)
        }
    } else if ts[0] == "rename"@ {
        if ts.len() >= 3 {
            r matches ParseOutcome::Run(c) && c matches Command::Rename(a, b) && a@ == ts[1]
                && b@ == ts[2]
        } else {
            r == ParseOutcome::Usage(CommandKind::Rename)
        }
    } else if ts[0] == "move"@ {
        if ts.len() >= 3 {
            r matches ParseOutcome::Run(c) && c matches Command::Move(a, b) && a@ == ts[1]
                && b@ == ts[2]
        } else {
            r == ParseOutcome::Usage(CommandKind::Move)
        }
    } else if ts[0] == "copy"@ {
        if ts.len() >= 3 {
            r matches ParseOutcome::Run(c) && c matches Command::Copy(a, b) && a@ == ts[1]
                && b@ == ts[2]
        } else {
            r == ParseOutcome::Usage(CommandKind::Copy)
        }
    } else if ts[0] == "mkdir"@ {
        if ts.len() >= 2 {
            r matches ParseOutcome::Run(c) && c matches Command::Mkdir(d) && d@ == ts[1]
        } else {
            r == ParseOutcome::Usage(CommandKind::Mkdir)
        }
    } else if ts[0] == "organize-by-type"@ {
        if ts.len() >= 2 {
            r matches ParseOutcome::Run(c) && c matches Command::OrganizeByType(d) && d@
                == ts[1]
        } else {
            r == ParseOutcome::Usage(CommandKind::OrganizeByType)
        }
    } else if ts[0] == "organize-by-date"@ {
        if ts.len() >= 2 {
            r matches ParseOutcome::Run(c) && c matches Command::OrganizeByDate(d) && d@
                == ts[1]
        } else {
            r == ParseOutcome::Usage(CommandKind::OrganizeByDate)
        }
    } else if ts[0] == "find"@ {
        if ts.len() >= 2 {
            r matches ParseOutcome::Run(c) && c matches Command::Find(d) && d@ == ts[1]
        } else {
            r == ParseOutcome::Usage(CommandKind::Find)
        }
    } else if ts[0] == "stats"@ {
        if ts.len() >= 2 {
            r matches ParseOutcome::Run(c) && c matches Command::Stats(d) && d@ == ts[1]
        } else {
            r == ParseOutcome::Usage(CommandKind::Stats)
        }
    } else {
        r matches ParseOutcome::Unknown(u) && u@ == ts[0]
    }
}

/// Parses a token list into the outcome the interactive loop acts on.
pub fn parse_tokens(tokens: &Vec<String>) -> (r: ParseOutcome)
    ensures
        outcome_matches(tokens@.map_values(|s: String| s@), r),
{
    proof {
        reveal_strlit("exit");
        reveal_strlit("list");
        reveal_strlit("delete");
        reveal_strlit("rename");
        reveal_strlit("move");
        reveal_strlit("copy");
        reveal_strlit("mkdir");
        reveal_strlit("organize-by-type");
        reveal_strlit("organize-by-date");
        reveal_strlit("find");
        reveal_strlit("stats");
    }
    if tokens.len() == 0 {
        return ParseOutcome::Empty;
    }
    let w = tokens[0].as_str();
    if str_eq(w, "exit") {
        if tokens.len() == 1 {
            return ParseOutcome::Exit;
        }
        return ParseOutcome::Unknown(tokens[0].clone());
    }
    if str_eq(w, "list") {
        if tokens.len() >= 2 {
            return ParseOutcome::Run(Command::List(tokens[1].clone()));
        }
        return ParseOutcome::Usage(CommandKind::List);
    }
    if str_eq(w, "delete") {
        if tokens.len() >= 2 {
            return ParseOutcome::Run(Command::Delete(tokens[1].clone()));
        }
        return ParseOutcome::Usage(CommandKind::Delete);
    }
    if str_eq(w, "rename") {
        if tokens.len() >= 3 {
            return ParseOutcome::Run(
                Command::Rename(tokens[1].clone(), tokens[2].clone()),
            );
        }
        return ParseOutcome::Usage(CommandKind::Rename);
    }
    if str_eq(w, "move") {
        if tokens.len() >= 3 {
            return ParseOutcome::Run(Command::Move(tokens[1].clone(), tokens[2].clone()));
        }
        return ParseOutcome::Usage(CommandKind::Move);
    }
    if str_eq(w, "copy") {
        if tokens.len() >= 3 {
            return ParseOutcome::Run(Command::Copy(tokens[1].clone(), tokens[2].clone()));
        }
        return ParseOutcome::Usage(CommandKind::Copy);
    }
    if str_eq(w, "mkdir") {
        if tokens.len() >= 2 {
            return ParseOutcome::Run(Command::Mkdir(tokens[1].clone()));
        }
        return ParseOutcome::Usage(CommandKind::Mkdir);
    }
    if str_eq(w, "organize-by-type") {
        if tokens.len() >= 2 {
            return ParseOutcome::Run(Command::OrganizeByType(tokens[1].clone()));
        }
        return ParseOutcome::Usage(CommandKind::OrganizeByType);
    }
    if str_eq(w, "organize-by-date") {
        if tokens.len() >= 2 {
            return ParseOutcome::Run(Command::OrganizeByDate(tokens[1].clone()));
        }
        return ParseOutcome::Usage(CommandKind::OrganizeByDate);
    }
    if str_eq(w, "find") {
        if tokens.len() >= 2 {
            return ParseOutcome::Run(Command::Find(tokens[1].clone()));
        }
        return ParseOutcome::Usage(CommandKind::Find);
    }
    if str_eq(w, "stats") {
        if tokens.len() >= 2 {
            return ParseOutcome::Run(Command::Stats(tokens[1].clone()));
        }
        return ParseOutcome::Usage(CommandKind::Stats);
    }
    ParseOutcome::Unknown(tokens[0].clone())
}

/// Tokenizes one input line and parses it.
pub fn parse_line(line: &str) -> (r: ParseOutcome)
    ensures
        outcome_matches(tokens_of(line@), r),
{
    let tokens = tokenize(line);
    parse_tokens(&tokens)
}

/// The usage line printed when a command is given too few arguments.
pub open spec fn usage_of(k: CommandKind) -> Seq<char> {
    match k {
        CommandKind::List => "Usage: list <directory>"@,
        CommandKind::Delete => "Usage: delete <file>"@,
        CommandKind::Rename => "Usage: rename <old_name> <new_name>"@,
        CommandKind::Move => "Usage: move <source> <destination>"@,
        CommandKind::Copy => "Usage: copy <source> <destination>"@,
        CommandKind::Mkdir => "Usage: mkdir <directory>"@,
        CommandKind::OrganizeByType => "Usage: organize-by-type <directory>"@,
        CommandKind::OrganizeByDate => "Usage: organize-by-date <directory>"@,
        CommandKind::Find => "Usage: find <pattern>"@,
        CommandKind::Stats => "Usage: stats <directory>"@,
    }
}

/// The usage message for a command.
pub fn usage_message(k: CommandKind) -> (r: &'static str)
    ensures
        r@ == usage_of(k),
{
    match k {
        CommandKind::List => "Usage: list <directory>",
        CommandKind::Delete => "Usage: delete <file>",
        CommandKind::Rename => "Usage: rename <old_name> <new_name>",
        CommandKind::Move => "Usage: move <source> <destination>",
        CommandKind::Copy => "Usage: copy <source> <destination>",
        CommandKind::Mkdir => "Usage: mkdir <directory>",
        CommandKind::OrganizeByType => "Usage: organize-by-type <directory>",
        CommandKind::OrganizeByDate => "Usage: organize-by-date <directory>",
        CommandKind::Find => "Usage: find <pattern>",
        CommandKind::Stats => "Usage: stats <directory>",
    }
}

} // verus!

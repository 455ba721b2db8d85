//! The session: classification of one input line and the state machine of
//! the read/dispatch/print cycle.
//!
//! Every accepted line is appended to history before classification,
//! whatever becomes of it afterwards. A line whose trimmed text begins with
//! the reserved prefix `:` is a command invocation and is resolved against
//! the command table; any other line is code for the compiler. An interrupt
//! abandons the pending line and keeps the session running; end of input
//! stops it cleanly; any other read failure stops it as a failure.

use vstd::prelude::*;
use vstd::string::StrSliceExecFns;
use vstd::string::StringExecFns;

use crate::registry::CommandTable;
use crate::registry::has_command;
use crate::text::token_len;
use crate::text::trim;
use crate::text::trimmed;

verus! {

/// Whether trimmed line text is a command invocation: it begins with the
/// reserved prefix character.
pub open spec fn is_command_text(t: Seq<char>) -> bool {
    t.len() > 0 && t[0] == ':'
}

/// One trimmed input line, told apart: a command invocation split into its
/// name (prefix included) and the remainder of the line, or code to
/// evaluate.
pub enum LineClass {
    Command { name: String, args: String },
    Code { code: String },
}

/// Classifies one raw input line: trims it, then splits a command line at
/// the first space into the command name and the argument remainder.
pub fn classify(line: &str) -> (c: LineClass)
    ensures
        ({
            let t = trimmed(line@);
            if is_command_text(t) {
                c matches LineClass::Command { name, args } && name@ == t.take(
                    token_len(t) as int,
                ) && args@ == t.skip(token_len(t) as int)
            } else {
                c matches LineClass::Code { code } && code@ == t
            }
        }),
{
    let t = trim(line);
    let len = t.unicode_len();
    if len > 0 && t.get_char(0) == ':' {
        let split = crate::text::scan_token(t);
        let name = String::from_str(t.substring_char(0, split));
        let args = String::from_str(t.substring_char(split, len));
        LineClass::Command { name, args }
    } else {
        LineClass::Code { code: String::from_str(t) }
    }
}

/// What the session asks the surrounding program to do with one event.
pub enum Action {
    /// Read the next line; nothing else happens.
    Continue,
    /// Stop the session; `clean` says whether this is an orderly end.
    Quit { clean: bool },
    /// Invoke the registered command action at `index` with `args`.
    Run { index: usize, args: String },
    /// Print this one report line.
    Report { message: String },
    /// Hand this code line to the compiler and execute it.
    Eval { code: String },
}

/// One outcome of waiting for an input line.
pub enum ReadEvent {
    /// A line was read.
    Line(String),
    /// The pending read was interrupted; the line is abandoned.
    Interrupted,
    /// Input ended; the session is over.
    EndOfInput,
    /// The input service failed for some other reason.
    Failed,
}

/// The report for a command name that the table does not hold.
pub open spec fn unknown_command_message(name: Seq<char>) -> Seq<char> {
    "unknown command '"@ + name + "'"@
}

/// What dispatching one accepted line yields, given the command table:
/// a command line resolves its name (without the prefix) to the first
/// matching table entry, or reports it unknown; any other line is code.
pub open spec fn dispatched(table: Seq<Seq<char>>, line: Seq<char>, a: Action) -> bool {
    let t = trimmed(line);
    let name = t.take(token_len(t) as int);
    let rest = t.skip(token_len(t) as int);
    if is_command_text(t) {
        if has_command(table, name.skip(1)) {
            a matches Action::Run { index, args } && index < table.len() && table[
                index as int
            ] == name.skip(1) && (forall|j: int| 0 <= j < index ==> table[j] != name.skip(1))
                && args@ == rest
        } else {
            a matches Action::Report { message } && message@ == unknown_command_message(name)
        }
    } else {
        a matches Action::Eval { code } && code@ == t
    }
}

/// Law: a line whose trimmed text begins with the reserved prefix is never
/// handed to the compiler, whatever the command table holds and whether or
/// not the name resolves.
pub proof fn lemma_command_line_never_evaluated(table: Seq<Seq<char>>, line: Seq<char>, a: Action)
    requires
        dispatched(table, line, a),
        is_command_text(trimmed(line)),
    ensures
        !(a is Eval),
{
}

/// The session state: the command table, the history of accepted lines in
/// the order they were entered, and whether the session has stopped.
pub struct Session {
    pub commands: CommandTable,
    pub history: Vec<String>,
    pub stopped: bool,
}

impl Session {
    /// A running session with the given command table and empty history.
    pub fn new(commands: CommandTable) -> (s: Session)
        ensures
            s.commands@ == commands@,
            s.history@ == Seq::<String>::empty(),
            !s.is_stopped(),
    {
        Session { commands, history: Vec::new(), stopped: false }
    }

    /// Whether the session has stopped.
    pub open spec fn is_stopped(&self) -> bool {
        self.stopped
    }

    /// Stops the session; a registered command action may ask for this.
    pub fn request_stop(&mut self)
        ensures
            final(self).is_stopped(),
            final(self).commands@ == old(self).commands@,
            final(self).history@ == old(self).history@,
    {
        self.stopped = true;
    }

    /// Drives the state machine by one read event.
    ///
    /// An interrupt changes nothing and the session keeps running; end of
    /// input stops the session cleanly; another read failure stops it
    /// uncleanly. An accepted line is appended to history exactly once,
    /// before classification and whatever its dispatch then yields, and is
    /// dispatched as `dispatched` says.
    pub fn step(&mut self, ev: ReadEvent) -> (a: Action)
        requires
            !old(self).is_stopped(),
        ensures
            match ev {
                ReadEvent::Interrupted => *final(self) == *old(self) && a == Action::Continue,
                ReadEvent::EndOfInput => final(self).is_stopped() && final(self).commands@ == old(
                    self,
                ).commands@ && final(self).history@ == old(self).history@ && a == (Action::Quit {
                    clean: true,
                }),
                ReadEvent::Failed => final(self).is_stopped() && final(self).commands@ == old(
                    self,
                ).commands@ && final(self).history@ == old(self).history@ && a == (Action::Quit {
                    clean: false,
                }),
                ReadEvent::Line(text) => !final(self).is_stopped() && final(self).commands@ == old(
                    self,
                ).commands@ && final(self).history@ == old(self).history@.push(text) && dispatched(
                    old(self).commands@,
                    text@,
                    a,
                ),
            },
            (ev matches ReadEvent::Line(text) && is_command_text(trimmed(text@))) ==> !(a is Eval),
    {
        match ev {
            ReadEvent::Interrupted => Action::Continue,
            ReadEvent::EndOfInput => {
                self.stopped = true;
                Action::Quit { clean: true }
            },
            ReadEvent::Failed => {
                self.stopped = true;
                Action::Quit { clean: false }
            },
            ReadEvent::Line(text) => {
                self.history.push(text.clone());
                match classify(text.as_str()) {
                    LineClass::Code { code } => Action::Eval { code },
                    LineClass::Command { name, args } => {
                        proof {
                            crate::text::lemma_token_len_le(trimmed(text@));
                            assert(token_len(trimmed(text@)) >= 1);
                        }
                        let name_len = name.as_str().unicode_len();
                        let key = name.as_str().substring_char(1, name_len);
                        match self.commands.lookup(key) {
                            Some(index) => Action::Run { index, args },
                            None => {
                                let mut message = String::from_str("unknown command '");
                                message.append(name.as_str());
                                message.append("'");
                                Action::Report { message }
                            },
                        }
                    },
                }
            },
        }
    }
}

} // verus!

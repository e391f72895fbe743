use crate::handling::{message_views, Message, MessageKind, MessageView};
use vstd::prelude::*;
use vstd::string::{StrSliceExecFns, StringExecFns};

verus! {

#[derive(Debug, Clone, Copy, PartialEq, Eq, Structural)]
pub enum CompilerFlags {
    CompilerDebug,
}

/// What the command line asks for, and the diagnostics of reading it.
#[derive(Debug)]
pub struct State {
    pub flags: Vec<CompilerFlags>,
    pub output_file: String,
    pub input_files: Vec<String>,
    pub show_help: bool,
    pub show_version: bool,
    pub output: Vec<Message>,
}

/// A state with its texts as sequences of characters.
pub ghost struct StateView {
    pub flags: Seq<CompilerFlags>,
    pub output_file: Seq<char>,
    pub input_files: Seq<Seq<char>>,
    pub show_help: bool,
    pub show_version: bool,
    pub output: Seq<MessageView>,
}

/// The characters of each text of a sequence, in order.
pub open spec fn texts(items: Seq<String>) -> Seq<Seq<char>> {
    items.map_values(|s: String| s@)
}

impl View for State {
    type V = StateView;

    open spec fn view(&self) -> StateView {
        StateView {
            flags: self.flags@,
            output_file: self.output_file@,
            input_files: texts(self.input_files@),
            show_help: self.show_help,
            show_version: self.show_version,
            output: message_views(self.output@),
        }
    }
}

/// A host error, which has no place in a source.
pub open spec fn host_error(text: Seq<char>) -> MessageView {
    MessageView { kind: MessageKind::Error, message: text, position: None }
}

/// Whether an argument is a flag: it begins with `-`.
pub open spec fn is_flag(arg: Seq<char>) -> bool {
    arg.len() > 0 && arg[0] == '-'
}

impl StateView {
    /// The state the command line starts from: nothing asked, nothing said.
    pub open spec fn initial() -> StateView {
        StateView {
            flags: Seq::empty(),
            output_file: Seq::empty(),
            input_files: Seq::empty(),
            show_help: false,
            show_version: false,
            output: Seq::empty(),
        }
    }

    /// The state after the flag `flag`: `-cdbg` adds the debug flag, any
    /// other flag adds the error "Unknown flag: <flag>".
    pub open spec fn flagged(self, flag: Seq<char>) -> StateView {
        if flag == "-cdbg"@ {
            StateView { flags: self.flags.push(CompilerFlags::CompilerDebug), ..self }
        } else {
            StateView { output: self.output.push(host_error("Unknown flag: "@ + flag)), ..self }
        }
    }

    /// The state after the arguments from `i` on. `-h` or `--help` asks for
    /// help, `-v` or `--version` for the version; `-o` or `--output` takes
    /// the next argument as the output file, and without one adds the error
    /// "Missing output file" and stops. Any other argument that begins with
    /// `-` is a flag, and an unknown flag stops. All others are input files.
    pub open spec fn after(self, args: Seq<Seq<char>>, i: int) -> StateView
        decreases args.len() - i,
    {
        if i < 0 || i >= args.len() {
            self
        } else {
            let arg = args[i];
            if arg == "-h"@ || arg == "--help"@ {
                (StateView { show_help: true, ..self }).after(args, i + 1)
            } else if arg == "-v"@ || arg == "--version"@ {
                (StateView { show_version: true, ..self }).after(args, i + 1)
            } else if arg == "-o"@ || arg == "--output"@ {
                if i + 1 < args.len() {
                    (StateView { output_file: args[i + 1], ..self }).after(args, i + 2)
                } else {
                    StateView {
                        output: self.output.push(host_error("Missing output file"@)),
                        ..self
                    }
                }
            } else if is_flag(arg) {
                if arg == "-cdbg"@ {
                    self.flagged(arg).after(args, i + 1)
                } else {
                    self.flagged(arg)
                }
            } else {
                (StateView { input_files: self.input_files.push(arg), ..self }).after(args, i + 1)
            }
        }
    }

    /// The state after a whole command line: an empty one asks for help.
    pub open spec fn parsed(self, args: Seq<Seq<char>>) -> StateView {
        if args.len() == 0 {
            StateView { show_help: true, ..self }
        } else {
            self.after(args, 0)
        }
    }
}

/// Whether `text` is `word`.
fn is_word(text: &String, word: &str) -> (is: bool)
    ensures
        is == (text@ == word@),
{
    let other = String::from_str(word);
    *text == other
}

impl State {
    pub fn new() -> (state: Self)
        ensures
            state@ == StateView::initial(),
    {
        let state = State {
            flags: Vec::new(),
            output_file: String::new(),
            input_files: Vec::new(),
            show_help: false,
            show_version: false,
            output: Vec::new(),
        };
        assert(state@.input_files =~= Seq::empty());
        assert(state@.output =~= Seq::empty());
        assert(state@.flags =~= Seq::empty());
        state
    }

    /// Reads the command line into the state.
    pub fn parse_args(&mut self, args: Vec<String>)
        ensures
            final(self)@ == old(self)@.parsed(texts(args@)),
    {
        if args.is_empty() {
            self.show_help = true;
            return ;
        }
        let ghost all = texts(args@);
        let mut i: usize = 0;
        while i < args.len()
            invariant_except_break
                self@.after(all, i as int) == old(self)@.after(all, 0),
            invariant
                i <= args.len(),
                all == texts(args@),
            ensures
                self@ == old(self)@.after(all, 0),
            decreases args.len() - i,
        {
            let arg: &String = &args[i];
            assert(all[i as int] == arg@);
            if is_word(arg, "-h") || is_word(arg, "--help") {
                self.show_help = true;
                i = i + 1;
            } else if is_word(arg, "-v") || is_word(arg, "--version") {
                self.show_version = true;
                i = i + 1;
            } else if is_word(arg, "-o") || is_word(arg, "--output") {
                if i + 1 < args.len() {
                    self.output_file = args[i + 1].clone();
                    assert(all[i + 1] == args@[i + 1]@);
                    i = i + 2;
                } else {
                    let ghost before = self.output@;
                    let error = Message::new(
                        MessageKind::Error,
                        String::from_str("Missing output file"),
                        None,
                    );
                    self.output.push(error);
                    assert(message_views(self.output@) =~= message_views(before).push(error@));
                    break ;
                }
            } else if arg.as_str().unicode_len() > 0 && arg.as_str().get_char(0) == '-' {
                if let Some(error) = self.set_flag(arg.clone()) {
                    let ghost before = self.output@;
                    self.output.push(error);
                    assert(message_views(self.output@) =~= message_views(before).push(error@));
                    break ;
                }
                i = i + 1;
            } else {
                let ghost before = self.input_files@;
                let file = arg.clone();
                self.input_files.push(file);
                assert(texts(self.input_files@) =~= texts(before).push(arg@));
                i = i + 1;
            }
        }
    }

    /// Sets the flag `flag` if it is known, else returns the error for it.
    pub fn set_flag(&mut self, flag: String) -> (error: Option<Message>)
        ensures
            flag@ == "-cdbg"@ ==> error is None && final(self)@ == old(self)@.flagged(flag@),
            flag@ != "-cdbg"@ ==> error is Some && *final(self) == *old(self) && error->0@
                == host_error("Unknown flag: "@ + flag@),
    {
        if is_word(&flag, "-cdbg") {
            self.flags.push(CompilerFlags::CompilerDebug);
            None
        } else {
            let mut text = String::from_str("Unknown flag: ");
            text.append(flag.as_str());
            Some(Message::new(MessageKind::Error, text, None))
        }
    }
}

} // verus!

//! Telling a typed line apart: nothing, a local command, or a message to
//! publish. Commands are looked up in a table of verbs that can be extended.

use vstd::prelude::*;
use vstd::string::StringExecFns;
use crate::command::{command_of, parse_command, Command, CommandView};
use crate::event::{DecodedEvent, EventView};

verus! {

/// What a known verb does when it is entered.
#[derive(Debug, Clone, PartialEq, Eq)]
pub enum VerbEffect {
    /// Ask the consumer to end the session.
    Shutdown,
    /// Answer with a fixed line of feedback.
    Feedback(String),
}

/// The mathematical value of a [`VerbEffect`].
pub enum VerbEffectView {
    Shutdown,
    Feedback(Seq<char>),
}

impl View for VerbEffect {
    type V = VerbEffectView;

    open spec fn view(&self) -> VerbEffectView {
        match *self {
            VerbEffect::Shutdown => VerbEffectView::Shutdown,
            VerbEffect::Feedback(text) => VerbEffectView::Feedback(text@),
        }
    }
}

/// One row of the verb table.
struct VerbEntry {
    verb: String,
    effect: VerbEffect,
}

/// What to do with a line that the user entered.
#[derive(Debug, Clone, PartialEq, Eq)]
pub enum InputAction {
    /// The line was empty: do nothing.
    Nothing,
    /// The line is a message: publish this text, unchanged.
    Publish(String),
    /// The line was a command: queue this event for the consumer.
    Emit(DecodedEvent),
}

/// The mathematical value of an [`InputAction`].
pub enum InputActionView {
    Nothing,
    Publish(Seq<char>),
    Emit(EventView),
}

impl View for InputAction {
    type V = InputActionView;

    open spec fn view(&self) -> InputActionView {
        match *self {
            InputAction::Nothing => InputActionView::Nothing,
            InputAction::Publish(text) => InputActionView::Publish(text@),
            InputAction::Emit(event) => InputActionView::Emit(event@),
        }
    }
}

/// The feedback for a verb that the table does not hold.
pub open spec fn unknown_command_text(verb: Seq<char>) -> Seq<char> {
    "Unknown command: "@ + verb
}

/// The event that a verb's effect produces.
pub open spec fn effect_event(effect: VerbEffectView) -> EventView {
    match effect {
        VerbEffectView::Shutdown => EventView::ShutdownRequested,
        VerbEffectView::Feedback(text) => EventView::CommandFeedback(text),
    }
}

/// The event that a command produces under a table of verbs. Verbs are
/// compared as entered, case included.
pub open spec fn dispatch_event(
    verbs: Map<Seq<char>, VerbEffectView>,
    command: CommandView,
) -> EventView {
    if verbs.contains_key(command.verb) {
        effect_event(verbs[command.verb])
    } else {
        EventView::CommandFeedback(unknown_command_text(command.verb))
    }
}

/// The event for what follows the sigil. Where no verb follows it, the
/// line is reported as an unknown command with an empty name.
pub open spec fn command_line_event(
    verbs: Map<Seq<char>, VerbEffectView>,
    line: Seq<char>,
) -> EventView {
    match command_of(line) {
        Some(command) => dispatch_event(verbs, command),
        None => EventView::CommandFeedback(unknown_command_text(Seq::empty())),
    }
}

/// What a line of input means: an empty line means nothing, a line that
/// starts with the sigil is a command, any other line is a message to
/// publish as it stands.
pub open spec fn interpret_input(
    sigil: char,
    verbs: Map<Seq<char>, VerbEffectView>,
    text: Seq<char>,
) -> InputActionView {
    if text.len() == 0 {
        InputActionView::Nothing
    } else if text[0] == sigil {
        InputActionView::Emit(command_line_event(verbs, text.skip(1)))
    } else {
        InputActionView::Publish(text)
    }
}

/// The table that a list of rows stands for. An earlier row wins over a
/// later one with the same verb.
spec fn table_of(rows: Seq<VerbEntry>) -> Map<Seq<char>, VerbEffectView>
    decreases rows.len(),
{
    if rows.len() == 0 {
        Map::empty()
    } else {
        table_of(rows.drop_first()).insert(rows[0].verb@, rows[0].effect@)
    }
}

/// The verbs that every interpreter starts with: `quit`, which asks for
/// shutdown.
pub open spec fn standard_verbs() -> Map<Seq<char>, VerbEffectView> {
    Map::empty().insert("quit"@, VerbEffectView::Shutdown)
}

/// Under the standard verbs, `quit` asks for shutdown and every other verb
/// is answered as unknown, by its name.
pub proof fn lemma_standard_dispatch(command: CommandView)
    ensures
        dispatch_event(standard_verbs(), command) == if command.verb == "quit"@ {
            EventView::ShutdownRequested
        } else {
            EventView::CommandFeedback(unknown_command_text(command.verb))
        },
{
}

/// Interprets lines of input against a sigil and a table of verbs.
pub struct CommandInterpreter {
    sigil: char,
    rows: Vec<VerbEntry>,
}

impl CommandInterpreter {
    /// The character that marks a line as a command.
    pub closed spec fn sigil(&self) -> char {
        self.sigil
    }

    /// The verbs known to this interpreter, each with its effect.
    pub closed spec fn verbs(&self) -> Map<Seq<char>, VerbEffectView> {
        table_of(self.rows@)
    }

    /// An interpreter with the given sigil and the standard verbs.
    pub fn new(sigil: char) -> (interpreter: Self)
        ensures
            interpreter.sigil() == sigil,
            interpreter.verbs() == standard_verbs(),
    {
        let mut rows: Vec<VerbEntry> = Vec::new();
        rows.push(VerbEntry { verb: "quit".to_owned(), effect: VerbEffect::Shutdown });
        proof {
            assert(rows@.drop_first() =~= Seq::empty());
            assert(table_of(rows@.drop_first()) =~= Map::empty());
            assert(table_of(rows@) =~= standard_verbs());
        }
        CommandInterpreter { sigil, rows }
    }

    /// The configured sigil.
    pub fn get_sigil(&self) -> (sigil: char)
        ensures
            sigil == self.sigil(),
    {
        self.sigil
    }

    /// The effect registered for `verb`, if there is one.
    pub fn effect_of(&self, verb: &str) -> (effect: Option<VerbEffect>)
        ensures
            match effect {
                Some(e) => self.verbs().contains_key(verb@) && self.verbs()[verb@] == e@,
                None => !self.verbs().contains_key(verb@),
            },
    {
        let wanted = verb.to_owned();
        let n = self.rows.len();
        let mut i: usize = 0;
        assert(self.rows@.skip(0) =~= self.rows@);
        while i < n
            invariant
                wanted@ == verb@,
                n == self.rows@.len(),
                i <= n,
                self.verbs().contains_key(verb@) == table_of(self.rows@.skip(i as int)).contains_key(
                    verb@,
                ),
                self.verbs().contains_key(verb@) ==> self.verbs()[verb@] == table_of(
                    self.rows@.skip(i as int),
                )[verb@],
            decreases n - i,
        {
            let ghost rest = self.rows@.skip(i as int);
            assert(rest.drop_first() =~= self.rows@.skip(i + 1));
            assert(rest[0] == self.rows@[i as int]);
            if self.rows[i].verb == wanted {
                return Some(self.rows[i].effect.duplicate());
            }
            i = i + 1;
        }
        None
    }

    /// Adds a verb to the table. A verb that is already known keeps its
    /// effect: the call then changes nothing and returns `false`.
    pub fn register(&mut self, verb: &str, effect: VerbEffect) -> (added: bool)
        ensures
            added == !old(self).verbs().contains_key(verb@),
            final(self).sigil() == old(self).sigil(),
            final(self).verbs() == if added {
                old(self).verbs().insert(verb@, effect@)
            } else {
                old(self).verbs()
            },
    {
        match self.effect_of(verb) {
            Some(_) => false,
            None => {
                let ghost before = self.rows@;
                let entry = VerbEntry { verb: verb.to_owned(), effect };
                self.rows.insert(0, entry);
                assert(self.rows@.drop_first() =~= before);
                true
            },
        }
    }

    /// The event that a command produces: the effect of its verb, or the
    /// feedback that the verb is unknown. The arguments are not looked at.
    pub fn dispatch(&self, command: &Command) -> (event: DecodedEvent)
        ensures
            event@ == dispatch_event(self.verbs(), command@),
    {
        match self.effect_of(command.verb.as_str()) {
            Some(VerbEffect::Shutdown) => DecodedEvent::ShutdownRequested,
            Some(VerbEffect::Feedback(text)) => DecodedEvent::CommandFeedback(text),
            None => DecodedEvent::CommandFeedback(unknown_command(command.verb.as_str())),
        }
    }

    /// Decides what a line of input asks for.
    pub fn interpret(&self, text: &str) -> (action: InputAction)
        ensures
            action@ == interpret_input(self.sigil(), self.verbs(), text@),
    {
        let n = text.unicode_len();
        if n == 0 {
            return InputAction::Nothing;
        }
        if text.get_char(0) == self.sigil {
            let line = text.substring_char(1, n);
            assert(line@ =~= text@.skip(1));
            let event = match parse_command(line) {
                Some(command) => self.dispatch(&command),
                None => DecodedEvent::CommandFeedback(unknown_command("")),
            };
            proof {
                reveal_strlit("");
                assert(""@ =~= Seq::<char>::empty());
            }
            InputAction::Emit(event)
        } else {
            InputAction::Publish(text.to_owned())
        }
    }
}

impl VerbEffect {
    /// A copy of this effect.
    pub fn duplicate(&self) -> (copy: VerbEffect)
        ensures
            copy@ == self@,
    {
        match self {
            VerbEffect::Shutdown => VerbEffect::Shutdown,
            VerbEffect::Feedback(text) => VerbEffect::Feedback(text.clone()),
        }
    }
}

/// The line of feedback for a verb that is not known.
pub fn unknown_command(verb: &str) -> (text: String)
    ensures
        text@ == unknown_command_text(verb@),
{
    "Unknown command: ".to_owned().concat(verb)
}

} // verus!

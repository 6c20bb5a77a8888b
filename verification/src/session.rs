//! One reading session: the words of a text, the playback state over them,
//! and what the display loop decides in each iteration.
//!
//! The loop itself belongs to the caller, who draws the frame, waits for
//! input for at most the wait budget, and hands back what arrived together
//! with the current instant.

use crate::input::{command_for, dispatch, Command, KeyEvent};
use crate::orp::{get_orp_index, orp_index};
use crate::playback::{Playback, PlaybackState};
use crate::words::{no_tokens_iff_blank, split_words, tokens};
use vstd::prelude::*;
use vstd::string::StrSliceExecFns;

verus! {

/// Whether the loop goes on after an event.
#[derive(Clone, Copy, Debug, PartialEq, Eq, Structural)]
pub enum Flow {
    Continue,
    Quit,
}

/// Whether `event` ends the loop: it does where its command is to quit.
pub open spec fn quits(event: Option<KeyEvent>) -> bool {
    event matches Some(e) && command_for(e) == Some(Command::Quit)
}

impl Playback {
    /// The state after `command` at `now`. Quitting changes nothing.
    pub open spec fn apply(self, command: Command, now: nat) -> Playback {
        match command {
            Command::Quit => self,
            Command::TogglePause => self.toggle_pause(now),
            Command::StepForward => self.step_forward(now),
            Command::StepBackward => self.step_backward(now),
            Command::IncreaseRate => self.increase_rate(),
            Command::DecreaseRate => self.decrease_rate(),
        }
    }

    /// The state after one iteration of the loop in which `event` arrived, or
    /// nothing where it is `None`: the command of the event is applied, then
    /// the schedule is evaluated. An event that quits leaves the state as it
    /// is.
    pub open spec fn handle(self, event: Option<KeyEvent>, now: nat) -> Playback {
        match event {
            None => self.tick(now),
            Some(e) => match command_for(e) {
                None => self.tick(now),
                Some(Command::Quit) => self,
                Some(command) => self.apply(command, now).tick(now),
            },
        }
    }

    /// An iteration keeps the invariant of the state, whatever arrived.
    pub proof fn handle_keeps_invariant(self, event: Option<KeyEvent>, now: nat)
        requires
            self.wf(),
        ensures
            self.handle(event, now).wf(),
            self.handle(event, now).len == self.len,
    {
        if let Some(e) = event {
            if let Some(command) = command_for(e) {
                self.operations_keep_invariant(now);
                self.apply(command, now).operations_keep_invariant(now);
            }
        }
    }

    /// A key that comes up, a key without a binding and no event at all are
    /// the same to the loop: only the schedule is evaluated.
    pub proof fn ignored_events_only_tick(self, event: KeyEvent, now: nat)
        requires
            command_for(event) is None,
        ensures
            self.handle(Some(event), now) == self.handle(None, now),
            self.handle(None, now) == self.tick(now),
    {
    }
}

impl PlaybackState {
    /// Carries out `command` at `now` and tells whether it ends the loop.
    pub fn apply(&mut self, command: Command, now: u64) -> (flow: Flow)
        ensures
            final(self)@ == old(self)@.apply(command, now as nat),
            final(self)@.wf(),
            flow == Flow::Quit <==> command == Command::Quit,
        no_unwind
    {
        proof {
            use_type_invariant(&*self);
        }
        match command {
            Command::Quit => {
                return Flow::Quit;
            },
            Command::TogglePause => self.toggle_pause(now),
            Command::StepForward => self.step_forward(now),
            Command::StepBackward => self.step_backward(now),
            Command::IncreaseRate => self.increase_rate(),
            Command::DecreaseRate => self.decrease_rate(),
        }
        Flow::Continue
    }

    /// One iteration of the loop at `now`: dispatches `event`, if one arrived,
    /// carries out its command and then evaluates the schedule. After an
    /// event that quits the state is unchanged.
    pub fn handle(&mut self, event: Option<KeyEvent>, now: u64) -> (flow: Flow)
        ensures
            final(self)@ == old(self)@.handle(event, now as nat),
            final(self)@.wf(),
            flow == Flow::Quit <==> quits(event),
        no_unwind
    {
        proof {
            use_type_invariant(&*self);
        }
        if let Some(e) = event {
            if let Some(command) = dispatch(e) {
                match self.apply(command, now) {
                    Flow::Quit => {
                        return Flow::Quit;
                    },
                    Flow::Continue => {},
                }
            }
        }
        self.tick(now);
        Flow::Continue
    }
}

/// What the screen shows for one state of a session.
#[derive(Clone, Copy, Debug, PartialEq, Eq)]
pub enum Frame<'a> {
    /// A word, with what is drawn around it.
    Word {
        /// The word itself.
        word: &'a str,
        /// Its place in the text, counted from 1.
        position: usize,
        /// Number of words in the text.
        total: usize,
        /// Index of the character to highlight, where highlighting is on.
        highlight: Option<usize>,
        /// Number of characters that stand left of the screen's centre
        /// column.
        lead: usize,
        /// Words per minute.
        rate: u32,
        /// Whether the reader is paused.
        paused: bool,
    },
    /// The text has ended.
    Finished,
}

/// The column at which a word starts that has `lead` characters left of the
/// column `center`; column 0 where they do not fit.
pub open spec fn start_column_of(center: nat, lead: nat) -> nat {
    if lead >= center {
        0
    } else {
        (center - lead) as nat
    }
}

/// Computes the column at which to start a word that has `lead` characters
/// left of the column `center`.
pub fn start_column(center: u16, lead: usize) -> (column: u16)
    ensures
        column == start_column_of(center as nat, lead as nat),
{
    if lead >= center as usize {
        0
    } else {
        center - (lead as u16)
    }
}

/// Mathematical model of a session.
pub struct Reading {
    /// The words of the text.
    pub words: Seq<Seq<char>>,
    /// The playback state over them.
    pub playback: Playback,
    /// Whether the focus character of each word is highlighted.
    pub focus: bool,
}

impl Reading {
    /// The invariant of a session: the state is valid, it counts the words
    /// that are there, and no word is empty.
    pub open spec fn wf(self) -> bool {
        &&& self.playback.wf()
        &&& self.playback.len == self.words.len()
        &&& forall|i: int| 0 <= i < self.words.len() ==> (#[trigger] self.words[i]).len() >= 1
    }

    /// The session in which reading of `text` starts.
    pub open spec fn initial(text: Seq<char>, rate: nat, focus: bool, now: nat) -> Reading {
        Reading {
            words: tokens(text),
            playback: Playback::initial(tokens(text).len(), rate, now),
            focus,
        }
    }

    /// The word on screen. Meaningful while the text has not ended.
    pub open spec fn current(self) -> Seq<char>
        recommends
            !self.playback.finished(),
    {
        self.words[self.playback.index as int]
    }

    /// The index of the character to highlight in the word on screen: its
    /// focus character where highlighting is on.
    pub open spec fn highlight(self) -> Option<nat> {
        if self.focus {
            Some(orp_index(self.current().len()))
        } else {
            None
        }
    }

    /// The number of characters of the word on screen that stand left of the
    /// centre column: with highlighting, those before the focus character, so
    /// that it stands in the centre; without, half of the word, rounded down.
    pub open spec fn lead(self) -> nat {
        if self.focus {
            orp_index(self.current().len())
        } else {
            self.current().len() / 2
        }
    }

    /// Whether `frame` is what the screen shows for this session.
    pub open spec fn shows(self, frame: Frame) -> bool {
        match frame {
            Frame::Finished => self.playback.finished(),
            Frame::Word { word, position, total, highlight, lead, rate, paused } => {
                &&& !self.playback.finished()
                &&& word@ == self.current()
                &&& position == self.playback.index + 1
                &&& total == self.playback.len
                &&& match highlight {
                    Some(h) => self.highlight() == Some(h as nat),
                    None => self.highlight() is None,
                }
                &&& lead == self.lead()
                &&& rate == self.playback.rate
                &&& paused == self.playback.paused
            },
        }
    }

    /// The session after one iteration of the loop: the words and the
    /// highlighting stay, the state moves on.
    pub open spec fn handle(self, event: Option<KeyEvent>, now: nat) -> Reading {
        Reading { playback: self.playback.handle(event, now), ..self }
    }

    /// The highlighted character is a character of the word on screen, and
    /// the word starts no further left of the centre than it is long.
    pub proof fn highlight_lies_in_word(self)
        requires
            self.wf(),
            !self.playback.finished(),
        ensures
            self.highlight() matches Some(h) ==> h < self.current().len(),
            self.lead() < self.current().len(),
            self.focus ==> self.highlight() == Some(self.lead()),
    {
        let len = self.current().len();
        assert(len >= 1);
        crate::orp::orp_index_lies_in_word(len);
    }

    /// An iteration keeps the invariant of the session, whatever arrived.
    pub proof fn handle_keeps_invariant(self, event: Option<KeyEvent>, now: nat)
        requires
            self.wf(),
        ensures
            self.handle(event, now).wf(),
    {
        self.playback.handle_keeps_invariant(event, now);
    }
}

/// A reading session over the words of one text.
#[derive(Debug)]
pub struct Session {
    words: Vec<String>,
    playback: PlaybackState,
    focus: bool,
}

impl View for Session {
    type V = Reading;

    closed spec fn view(&self) -> Reading {
        Reading { words: self.words.deep_view(), playback: self.playback@, focus: self.focus }
    }
}

impl Session {
    #[verifier::type_invariant]
    pub closed spec fn inv(&self) -> bool {
        self@.wf()
    }

    /// Splits `text` into words and starts paused on the first of them. There
    /// is no session over a text without words, and only over such a text.
    pub fn start(text: &str, rate: u32, focus: bool, now: u64) -> (session: Option<Session>)
        ensures
            session is None <==> tokens(text@).len() == 0,
            session matches Some(s) ==> s@ == Reading::initial(
                text@,
                rate as nat,
                focus,
                now as nat,
            ) && s@.wf(),
    {
        let words = split_words(text);
        proof {
            no_tokens_iff_blank(text@);
        }
        match PlaybackState::new(words.len(), rate, now) {
            None => None,
            Some(playback) => Some(Session { words, playback, focus }),
        }
    }

    /// The playback state of the session.
    pub fn playback(&self) -> (playback: &PlaybackState)
        ensures
            playback@ == self@.playback,
            self@.wf(),
    {
        proof {
            use_type_invariant(self);
        }
        &self.playback
    }

    /// Whether the focus character of each word is highlighted.
    pub fn focus(&self) -> (focus: bool)
        ensures
            focus == self@.focus,
    {
        self.focus
    }

    /// The words of the text.
    pub fn words(&self) -> (words: &Vec<String>)
        ensures
            words.deep_view() == self@.words,
            self@.wf(),
    {
        proof {
            use_type_invariant(self);
        }
        &self.words
    }

    /// What the screen shows for the session as it stands.
    pub fn frame(&self) -> (frame: Frame<'_>)
        ensures
            self@.shows(frame),
            self@.wf(),
    {
        proof {
            use_type_invariant(self);
        }
        let index: usize = self.playback.index();
        if index >= self.words.len() {
            return Frame::Finished;
        }
        let word: &str = self.words[index].as_str();
        let length: usize = word.unicode_len();
        assert(word@ == self@.words[index as int]);
        let orp: usize = get_orp_index(length);
        let highlight: Option<usize> = if self.focus {
            Some(orp)
        } else {
            None
        };
        let lead: usize = if self.focus {
            orp
        } else {
            length / 2
        };
        Frame::Word {
            word,
            position: index + 1,
            total: self.words.len(),
            highlight,
            lead,
            rate: self.playback.rate(),
            paused: self.playback.is_paused(),
        }
    }

    /// How long the loop may wait for input at `now`, in milliseconds.
    pub fn wait_budget(&self, now: u64) -> (ms: u64)
        ensures
            ms == self@.playback.wait_budget(now as nat),
    {
        self.playback.wait_budget(now)
    }

    /// One iteration of the loop at `now`, with the event that arrived or
    /// `None`; tells whether the loop ends.
    pub fn handle(&mut self, event: Option<KeyEvent>, now: u64) -> (flow: Flow)
        ensures
            final(self)@ == old(self)@.handle(event, now as nat),
            final(self)@.wf(),
            flow == Flow::Quit <==> quits(event),
    {
        proof {
            use_type_invariant(&*self);
            self@.handle_keeps_invariant(event, now as nat);
        }
        self.playback.handle(event, now)
    }
}

} // verus!

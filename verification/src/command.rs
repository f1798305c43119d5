//! The commands of the display and their form on the wire.
//!
//! | Command | On the wire             |
//! |---------|-------------------------|
//! | test    | `ping`                  |
//! | raw     | the payload, as it is   |
//! | next    | `NXT`                   |
//! | swap    | `SWP`                   |
//! | follow  | `FLW`, task, `;`, color |
//! | add     | `ADD`, task, `;`, color |
//!
//! Nothing follows the last byte shown: no line end and no delimiter. The
//! color goes out without its `#`.

use vstd::prelude::*;
use vstd::slice::slice_to_vec;
use vstd::string::*;
use crate::color::{
    color_text, format_color, is_bare_color, is_hex_digit, random_color_number, strip_hash,
    without_hash, COLOR_MAX, HASH,
};

verus! {

/// The color of a new task: spelled out by the user, or left to chance.
#[derive(Debug, PartialEq, Eq)]
pub enum Color {
    /// The color as the user wrote it, in HTML notation with or without `#`.
    /// It is passed on as it is: nothing checks that it has six hexadecimal
    /// digits.
    Text(Vec<u8>),
    /// A color that is drawn anew each time the command is encoded.
    Random,
}

/// A [`Color`] as contracts see it.
pub enum ColorView {
    Text(Seq<u8>),
    Random,
}

impl View for Color {
    type V = ColorView;

    open spec fn view(&self) -> ColorView {
        match self {
            Color::Text(text) => ColorView::Text(text@),
            Color::Random => ColorView::Random,
        }
    }
}

impl ColorView {
    /// The color as it goes on the wire when `number` is what chance gives:
    /// the text without its `#`. A random color is spelled in HTML notation
    /// first, like one that the user wrote, and loses its `#` the same way.
    pub open spec fn on_wire(self, number: nat) -> Seq<u8> {
        match self {
            ColorView::Text(text) => without_hash(text),
            ColorView::Random => without_hash(color_text(number)),
        }
    }
}

/// One command for the display.
#[derive(Debug, PartialEq, Eq)]
pub enum Command {
    /// Asks whether the display is there.
    Test,
    /// Sends `payload` as it is.
    Raw { payload: Vec<u8> },
    /// Marks the current task as done.
    Next,
    /// Swaps the current task with the one after it.
    Swap,
    /// Schedules `task` right after the current one.
    Follow { task: Vec<u8>, color: Color },
    /// Schedules `task` after all others.
    Add { task: Vec<u8>, color: Color },
}

/// A [`Command`] as contracts see it.
pub enum CommandView {
    Test,
    Raw { payload: Seq<u8> },
    Next,
    Swap,
    Follow { task: Seq<u8>, color: ColorView },
    Add { task: Seq<u8>, color: ColorView },
}

impl View for Command {
    type V = CommandView;

    open spec fn view(&self) -> CommandView {
        match self {
            Command::Test => CommandView::Test,
            Command::Raw { payload } => CommandView::Raw { payload: payload@ },
            Command::Next => CommandView::Next,
            Command::Swap => CommandView::Swap,
            Command::Follow { task, color } => CommandView::Follow { task: task@, color: color@ },
            Command::Add { task, color } => CommandView::Add { task: task@, color: color@ },
        }
    }
}

impl CommandView {
    /// Whether the command changes the tasks on the display. The other two,
    /// test and raw, only probe the line.
    pub open spec fn is_mutating(self) -> bool {
        !(self is Test || self is Raw)
    }

    /// Whether encoding the command draws a color at random.
    pub open spec fn draws_color(self) -> bool {
        match self {
            CommandView::Follow { color, .. } => color is Random,
            CommandView::Add { color, .. } => color is Random,
            _ => false,
        }
    }

    /// The bytes that the command puts on the wire when `number` is the
    /// color that chance gives. A command that draws no color has the same
    /// bytes for every `number`.
    pub open spec fn wire(self, number: nat) -> Seq<u8> {
        match self {
            CommandView::Test => "ping".spec_bytes(),
            CommandView::Raw { payload } => payload,
            CommandView::Next => "NXT".spec_bytes(),
            CommandView::Swap => "SWP".spec_bytes(),
            CommandView::Follow { task, color } => "FLW".spec_bytes() + task + ";".spec_bytes()
                + color.on_wire(number),
            CommandView::Add { task, color } => "ADD".spec_bytes() + task + ";".spec_bytes()
                + color.on_wire(number),
        }
    }
}

/// Appends `bytes` to `wire`.
fn push_all(wire: &mut Vec<u8>, bytes: &[u8])
    ensures
        final(wire)@ == old(wire)@ + bytes@,
{
    let mut i: usize = 0;
    while i < bytes.len()
        invariant
            i <= bytes.len(),
            wire@ == old(wire)@ + bytes@.subrange(0, i as int),
        decreases bytes.len() - i,
    {
        wire.push(bytes[i]);
        i += 1;
        assert(bytes@.subrange(0, i as int) =~= bytes@.subrange(0, i - 1).push(bytes@[i - 1]));
    }
    assert(bytes@.subrange(0, i as int) =~= bytes@);
}

impl Color {
    /// Appends the color to `wire` as [`ColorView::on_wire`] spells it for
    /// `number`.
    fn push_onto(&self, wire: &mut Vec<u8>, number: u32)
        ensures
            final(wire)@ == old(wire)@ + self@.on_wire(number as nat),
    {
        match self {
            Color::Text(text) => push_all(wire, strip_hash(text.as_slice())),
            Color::Random => {
                let text: Vec<u8> = format_color(number);
                push_all(wire, strip_hash(text.as_slice()));
            },
        }
    }
}

/// A task command: `word`, the task, `;` and the color.
fn encode_task(word: &str, task: &Vec<u8>, color: &Color, number: u32) -> (wire: Vec<u8>)
    ensures
        wire@ == word.spec_bytes() + task@ + ";".spec_bytes() + color@.on_wire(number as nat),
{
    let mut wire: Vec<u8> = slice_to_vec(word.as_bytes());
    push_all(&mut wire, task.as_slice());
    push_all(&mut wire, ";".as_bytes());
    color.push_onto(&mut wire, number);
    wire
}

impl Command {
    /// The command that asks whether the display is there.
    pub fn test() -> (command: Command)
        ensures
            command@ == CommandView::Test,
    {
        Command::Test
    }

    /// The command that sends `payload` as it is.
    pub fn raw(payload: &[u8]) -> (command: Command)
        ensures
            command@ == (CommandView::Raw { payload: payload@ }),
    {
        Command::Raw { payload: slice_to_vec(payload) }
    }

    /// The command that marks the current task as done.
    pub fn next() -> (command: Command)
        ensures
            command@ == CommandView::Next,
    {
        Command::Next
    }

    /// The command that swaps the current task with the one after it.
    pub fn swap() -> (command: Command)
        ensures
            command@ == CommandView::Swap,
    {
        Command::Swap
    }

    /// The command that schedules `task` right after the current one, in the
    /// color that the text `color` names.
    pub fn following(task: &[u8], color: &[u8]) -> (command: Command)
        ensures
            command@ == (CommandView::Follow { task: task@, color: ColorView::Text(color@) }),
    {
        Command::Follow { task: slice_to_vec(task), color: Color::Text(slice_to_vec(color)) }
    }

    /// The command that schedules `task` after all others, in the color that
    /// the text `color` names.
    pub fn add(task: &[u8], color: &[u8]) -> (command: Command)
        ensures
            command@ == (CommandView::Add { task: task@, color: ColorView::Text(color@) }),
    {
        Command::Add { task: slice_to_vec(task), color: Color::Text(slice_to_vec(color)) }
    }

    /// Whether the command changes the tasks on the display.
    pub fn is_mutating(&self) -> (mutating: bool)
        ensures
            mutating == self@.is_mutating(),
    {
        match self {
            Command::Test => false,
            Command::Raw { .. } => false,
            _ => true,
        }
    }

    /// Whether encoding the command draws a color at random.
    pub fn draws_color(&self) -> (draws: bool)
        ensures
            draws == self@.draws_color(),
    {
        match self {
            Command::Follow { color: Color::Random, .. } => true,
            Command::Add { color: Color::Random, .. } => true,
            _ => false,
        }
    }

    /// Encodes the command with `number` for the color that chance gives.
    pub fn encode_with(&self, number: u32) -> (wire: Vec<u8>)
        ensures
            wire@ == self@.wire(number as nat),
    {
        match self {
            Command::Test => slice_to_vec("ping".as_bytes()),
            Command::Raw { payload } => slice_to_vec(payload.as_slice()),
            Command::Next => slice_to_vec("NXT".as_bytes()),
            Command::Swap => slice_to_vec("SWP".as_bytes()),
            Command::Follow { task, color } => encode_task("FLW", task, color, number),
            Command::Add { task, color } => encode_task("ADD", task, color, number),
        }
    }

    /// Encodes the command, drawing the color first where it is left to
    /// chance: the bytes are those of [`Command::encode_with`] for some color
    /// number, and for a command that draws none they are the same for all.
    pub fn encode(&self) -> (wire: Vec<u8>)
        ensures
            exists|number: nat| number <= COLOR_MAX && wire@ == #[trigger] self@.wire(number),
            !self@.draws_color() ==> forall|number: nat| wire@ == #[trigger] self@.wire(number),
    {
        let number: u32 = if self.draws_color() {
            random_color_number()
        } else {
            0
        };
        self.encode_with(number)
    }
}

/// The command words and the separator, byte by byte.
pub proof fn lemma_words_spelled()
    ensures
        "ping".spec_bytes() == seq![0x70u8, 0x69u8, 0x6Eu8, 0x67u8],
        "NXT".spec_bytes() == seq![0x4Eu8, 0x58u8, 0x54u8],
        "SWP".spec_bytes() == seq![0x53u8, 0x57u8, 0x50u8],
        "FLW".spec_bytes() == seq![0x46u8, 0x4Cu8, 0x57u8],
        "ADD".spec_bytes() == seq![0x41u8, 0x44u8, 0x44u8],
        ";".spec_bytes() == seq![0x3Bu8],
{
    reveal_strlit("ping");
    reveal_strlit("NXT");
    reveal_strlit("SWP");
    reveal_strlit("FLW");
    reveal_strlit("ADD");
    reveal_strlit(";");
    is_ascii_spec_bytes("ping");
    is_ascii_spec_bytes("NXT");
    is_ascii_spec_bytes("SWP");
    is_ascii_spec_bytes("FLW");
    is_ascii_spec_bytes("ADD");
    is_ascii_spec_bytes(";");
    assert("ping".spec_bytes() =~= seq![0x70u8, 0x69u8, 0x6Eu8, 0x67u8]);
    assert("NXT".spec_bytes() =~= seq![0x4Eu8, 0x58u8, 0x54u8]);
    assert("SWP".spec_bytes() =~= seq![0x53u8, 0x57u8, 0x50u8]);
    assert("FLW".spec_bytes() =~= seq![0x46u8, 0x4Cu8, 0x57u8]);
    assert("ADD".spec_bytes() =~= seq![0x41u8, 0x44u8, 0x44u8]);
    assert(";".spec_bytes() =~= seq![0x3Bu8]);
}

/// Next and swap are their three letters and nothing more, whatever color
/// chance would give: no delimiter follows.
pub proof fn lemma_bare_words(number: nat)
    ensures
        CommandView::Next.wire(number) == seq![0x4Eu8, 0x58u8, 0x54u8],
        CommandView::Next.wire(number).len() == 3,
        CommandView::Swap.wire(number) == seq![0x53u8, 0x57u8, 0x50u8],
        CommandView::Swap.wire(number).len() == 3,
{
    lemma_words_spelled();
}

/// A full color goes out the same with and without its `#`: for every task
/// and every `color` of six hexadecimal digits, follow and add put their
/// word, the task, `;` and those six digits on the wire, and no `#` stands
/// where the color begins.
pub proof fn lemma_hash_makes_no_difference(task: Seq<u8>, color: Seq<u8>, number: nat)
    requires
        is_bare_color(color),
    ensures
        ({
            let bare = ColorView::Text(color);
            let marked = ColorView::Text(seq![HASH] + color);
            let follow = "FLW".spec_bytes() + task + ";".spec_bytes() + color;
            let add = "ADD".spec_bytes() + task + ";".spec_bytes() + color;
            &&& (CommandView::Follow { task, color: bare }).wire(number) == follow
            &&& (CommandView::Follow { task, color: marked }).wire(number) == follow
            &&& (CommandView::Add { task, color: bare }).wire(number) == add
            &&& (CommandView::Add { task, color: marked }).wire(number) == add
            &&& follow[(task.len() + 4) as int] != HASH
            &&& add[(task.len() + 4) as int] != HASH
        }),
{
    lemma_words_spelled();
    assert(is_hex_digit(color[0]));
    assert(without_hash(color) == color);
    assert(without_hash(seq![HASH] + color) =~= color);
}

} // verus!

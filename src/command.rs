use vstd::prelude::*;
use vstd::slice::{slice_subrange, slice_to_vec};

use crate::error::Error;

verus! {

/// Which displays a command is for.
#[derive(Debug, PartialEq, Eq)]
pub enum TargetDisplay {
    /// Every display with this name.
    Display(Vec<u8>),
    /// Every display.
    All,
}

/// A command, in verb-noun order on the wire: `on DP-3`.
#[derive(Debug, PartialEq, Eq)]
pub enum BacklightCommand {
    /// The control socket that power commands through the window manager use.
    SwaySock(Vec<u8>),
    On(TargetDisplay),
    Off(TargetDisplay),
    Up(TargetDisplay),
    Down(TargetDisplay),
    Toggle(TargetDisplay),
    Max(TargetDisplay),
    Min(TargetDisplay),
    Default(TargetDisplay),
}

/// A target as mathematics sees it.
pub enum TargetView {
    Named(Seq<u8>),
    All,
}

/// A command as mathematics sees it.
pub enum CommandView {
    SwaySock(Seq<u8>),
    On(TargetView),
    Off(TargetView),
    Up(TargetView),
    Down(TargetView),
    Toggle(TargetView),
    Max(TargetView),
    Min(TargetView),
    Default(TargetView),
}

impl View for TargetDisplay {
    type V = TargetView;

    open spec fn view(&self) -> TargetView {
        match self {
            TargetDisplay::Display(n) => TargetView::Named(n@),
            TargetDisplay::All => TargetView::All,
        }
    }
}

impl View for BacklightCommand {
    type V = CommandView;

    open spec fn view(&self) -> CommandView {
        match self {
            BacklightCommand::SwaySock(p) => CommandView::SwaySock(p@),
            BacklightCommand::On(t) => CommandView::On(t@),
            BacklightCommand::Off(t) => CommandView::Off(t@),
            BacklightCommand::Up(t) => CommandView::Up(t@),
            BacklightCommand::Down(t) => CommandView::Down(t@),
            BacklightCommand::Toggle(t) => CommandView::Toggle(t@),
            BacklightCommand::Max(t) => CommandView::Max(t@),
            BacklightCommand::Min(t) => CommandView::Min(t@),
            BacklightCommand::Default(t) => CommandView::Default(t@),
        }
    }
}

/// The verbs of the grammar, in the order in which they are tried.
#[derive(Debug, Clone, Copy, PartialEq, Eq)]
pub enum Verb {
    SwaySock,
    Toggle,
    Down,
    Up,
    Off,
    On,
    Max,
    Min,
    Default,
}

/// The verb's keyword, in lower case.
pub open spec fn verb_word(v: Verb) -> Seq<u8> {
    match v {
        Verb::SwaySock => seq![115u8, 119, 97, 121, 115, 111, 99, 107],
        Verb::Toggle => seq![116u8, 111, 103, 103, 108, 101],
        Verb::Down => seq![100u8, 111, 119, 110],
        Verb::Up => seq![117u8, 112],
        Verb::Off => seq![111u8, 102, 102],
        Verb::On => seq![111u8, 110],
        Verb::Max => seq![109u8, 97, 120],
        Verb::Min => seq![109u8, 105, 110],
        Verb::Default => seq![100u8, 101, 102, 97, 117, 108, 116],
    }
}

/// The keyword that selects every display, in lower case.
pub open spec fn all_word() -> Seq<u8> {
    seq![97u8, 108, 108]
}

/// An ASCII letter in lower case; other bytes unchanged.
pub open spec fn ascii_lower(c: u8) -> u8 {
    if 65 <= c <= 90 {
        (c + 32) as u8
    } else {
        c
    }
}

/// `s` starts with `word` (which is in lower case), ignoring ASCII case.
pub open spec fn starts_with_no_case(s: Seq<u8>, word: Seq<u8>) -> bool {
    &&& word.len() <= s.len()
    &&& forall|i: int| 0 <= i < word.len() ==> #[trigger] ascii_lower(s[i]) == word[i]
}

/// The first position at or after `i` that does not hold a space.
pub open spec fn spaces_end(s: Seq<u8>, i: int) -> int
    decreases s.len() - i,
{
    if 0 <= i < s.len() && s[i] == 32 {
        spaces_end(s, i + 1)
    } else {
        i
    }
}

/// The first position at or after `i` that holds a space, or the end.
pub open spec fn token_end(s: Seq<u8>, i: int) -> int
    decreases s.len() - i,
{
    if 0 <= i < s.len() && s[i] != 32 {
        token_end(s, i + 1)
    } else {
        i
    }
}

/// The command a verb builds around its target. `swaysock` takes a path
/// rather than a target and is decoded on its own.
pub open spec fn command_of(v: Verb, t: TargetView) -> CommandView {
    match v {
        Verb::SwaySock | Verb::On => CommandView::On(t),
        Verb::Toggle => CommandView::Toggle(t),
        Verb::Down => CommandView::Down(t),
        Verb::Up => CommandView::Up(t),
        Verb::Off => CommandView::Off(t),
        Verb::Max => CommandView::Max(t),
        Verb::Min => CommandView::Min(t),
        Verb::Default => CommandView::Default(t),
    }
}

/// The target that a token names: every display for `all` in any case,
/// else the display of that name.
pub open spec fn target_of(tok: Seq<u8>) -> TargetView {
    if tok.len() == 3 && starts_with_no_case(tok, all_word()) {
        TargetView::All
    } else {
        TargetView::Named(tok)
    }
}

/// What `verb` followed by optional spaces and its argument makes of `s`,
/// with the position where the parse stops; `None` when the keyword does not
/// match or the argument is absent. A path is the whole remainder; a target
/// is the token up to the next space.
pub open spec fn spec_verb_command(s: Seq<u8>, v: Verb) -> Option<(int, CommandView)> {
    if !starts_with_no_case(s, verb_word(v)) {
        None
    } else {
        let a = spaces_end(s, verb_word(v).len() as int);
        if a >= s.len() {
            None
        } else if v is SwaySock {
            Some((s.len() as int, CommandView::SwaySock(s.subrange(a, s.len() as int))))
        } else {
            let e = token_end(s, a);
            Some((e, command_of(v, target_of(s.subrange(a, e)))))
        }
    }
}

/// The command that a whole line decodes to: the first verb, in the order of
/// `Verb`, whose keyword starts the line; `None` when none does or its
/// argument is absent. What follows a target's token is ignored.
pub open spec fn spec_parse_command(s: Seq<u8>) -> Option<CommandView> {
    let first = if starts_with_no_case(s, verb_word(Verb::SwaySock)) {
        Some(Verb::SwaySock)
    } else if starts_with_no_case(s, verb_word(Verb::Toggle)) {
        Some(Verb::Toggle)
    } else if starts_with_no_case(s, verb_word(Verb::Down)) {
        Some(Verb::Down)
    } else if starts_with_no_case(s, verb_word(Verb::Up)) {
        Some(Verb::Up)
    } else if starts_with_no_case(s, verb_word(Verb::Off)) {
        Some(Verb::Off)
    } else if starts_with_no_case(s, verb_word(Verb::On)) {
        Some(Verb::On)
    } else if starts_with_no_case(s, verb_word(Verb::Max)) {
        Some(Verb::Max)
    } else if starts_with_no_case(s, verb_word(Verb::Min)) {
        Some(Verb::Min)
    } else if starts_with_no_case(s, verb_word(Verb::Default)) {
        Some(Verb::Default)
    } else {
        None
    };
    match first {
        None => None,
        Some(v) => match spec_verb_command(s, v) {
            None => None,
            Some(p) => Some(p.1),
        },
    }
}

/// The space byte, the one separator of the grammar.
pub fn is_space(c: u8) -> (r: bool)
    ensures
        r == (c == 32),
{
    c == 32
}

fn lower(c: u8) -> (r: u8)
    ensures
        r == ascii_lower(c),
{
    if 65 <= c && c <= 90 {
        c + 32
    } else {
        c
    }
}

fn word(v: Verb) -> (r: Vec<u8>)
    ensures
        r@ == verb_word(v),
{
    let r = match v {
        Verb::SwaySock => vec![115u8, 119, 97, 121, 115, 111, 99, 107],
        Verb::Toggle => vec![116u8, 111, 103, 103, 108, 101],
        Verb::Down => vec![100u8, 111, 119, 110],
        Verb::Up => vec![117u8, 112],
        Verb::Off => vec![111u8, 102, 102],
        Verb::On => vec![111u8, 110],
        Verb::Max => vec![109u8, 97, 120],
        Verb::Min => vec![109u8, 105, 110],
        Verb::Default => vec![100u8, 101, 102, 97, 117, 108, 116],
    };
    assert(r@ =~= verb_word(v));
    r
}

/// Whether `s` starts with the lower-case `w`, ignoring ASCII case.
pub(crate) fn tag_no_case(s: &[u8], w: &[u8]) -> (r: bool)
    ensures
        r == starts_with_no_case(s@, w@),
{
    if w.len() > s.len() {
        return false;
    }
    let mut i: usize = 0;
    while i < w.len()
        invariant
            w@.len() <= s@.len(),
            i <= w@.len(),
            forall|k: int| 0 <= k < i ==> #[trigger] ascii_lower(s@[k]) == w@[k],
        decreases w@.len() - i,
    {
        if lower(s[i]) != w[i] {
            return false;
        }
        i = i + 1;
    }
    true
}

fn skip_spaces(s: &[u8], start: usize) -> (r: usize)
    requires
        start <= s@.len(),
    ensures
        r == spaces_end(s@, start as int),
        start <= r <= s@.len(),
{
    let mut i = start;
    while i < s.len() && is_space(s[i])
        invariant
            start <= i <= s@.len(),
            spaces_end(s@, i as int) == spaces_end(s@, start as int),
        decreases s@.len() - i,
    {
        i = i + 1;
    }
    i
}

fn scan_token(s: &[u8], start: usize) -> (r: usize)
    requires
        start <= s@.len(),
    ensures
        r == token_end(s@, start as int),
        start <= r <= s@.len(),
{
    let mut i = start;
    while i < s.len() && !is_space(s[i])
        invariant
            start <= i <= s@.len(),
            token_end(s@, i as int) == token_end(s@, start as int),
        decreases s@.len() - i,
    {
        i = i + 1;
    }
    i
}

/// Splits `input` at its first space: `(rest, token)`, where the token is
/// everything before the first space and the rest starts at it.
pub fn token(input: &[u8]) -> (r: (Vec<u8>, Vec<u8>))
    ensures
        r.1@ == input@.subrange(0, token_end(input@, 0)),
        r.0@ == input@.subrange(token_end(input@, 0), input@.len() as int),
{
    let e = scan_token(input, 0);
    (slice_to_vec(slice_subrange(input, e, input.len())), slice_to_vec(slice_subrange(input, 0, e)))
}

fn target(tok: &[u8]) -> (r: TargetDisplay)
    ensures
        r@ == target_of(tok@),
{
    let all = vec![97u8, 108, 108];
    assert(all@ =~= all_word());
    if tok.len() == 3 && tag_no_case(tok, all.as_slice()) {
        TargetDisplay::All
    } else {
        TargetDisplay::Display(slice_to_vec(tok))
    }
}

/// Decodes `verb`, optional spaces and its argument from the start of
/// `input`; returns what is left and the command.
pub fn verb_command(input: &[u8], v: Verb) -> (r: Result<(Vec<u8>, BacklightCommand), Error>)
    ensures
        match spec_verb_command(input@, v) {
            None => r == Err::<(Vec<u8>, BacklightCommand), Error>(Error::BadParse),
            Some((e, c)) => r matches Ok((rest, cmd)) && cmd@ == c && rest@ == input@.subrange(
                e,
                input@.len() as int,
            ),
        },
{
    let w = word(v);
    if !tag_no_case(input, w.as_slice()) {
        return Err(Error::BadParse);
    }
    let a = skip_spaces(input, w.len());
    if a >= input.len() {
        return Err(Error::BadParse);
    }
    if let Verb::SwaySock = v {
        let p = slice_to_vec(slice_subrange(input, a, input.len()));
        return Ok((Vec::new(), BacklightCommand::SwaySock(p)));
    }
    let e = scan_token(input, a);
    let t = target(slice_subrange(input, a, e));
    let rest = slice_to_vec(slice_subrange(input, e, input.len()));
    let cmd = match v {
        Verb::Toggle => BacklightCommand::Toggle(t),
        Verb::Down => BacklightCommand::Down(t),
        Verb::Up => BacklightCommand::Up(t),
        Verb::Off => BacklightCommand::Off(t),
        Verb::Max => BacklightCommand::Max(t),
        Verb::Min => BacklightCommand::Min(t),
        Verb::Default => BacklightCommand::Default(t),
        Verb::SwaySock | Verb::On => BacklightCommand::On(t),
    };
    Ok((rest, cmd))
}

/// Decodes `on` and its target from the start of `input`.
pub fn on_command(input: &[u8]) -> (r: Result<(Vec<u8>, BacklightCommand), Error>)
    ensures
        match spec_verb_command(input@, Verb::On) {
            None => r == Err::<(Vec<u8>, BacklightCommand), Error>(Error::BadParse),
            Some((e, c)) => r matches Ok((rest, cmd)) && cmd@ == c && rest@ == input@.subrange(
                e,
                input@.len() as int,
            ),
        },
{
    verb_command(input, Verb::On)
}

/// Decodes `swaysock` and its path from the start of `input`.
pub fn swaysock_command(input: &[u8]) -> (r: Result<(Vec<u8>, BacklightCommand), Error>)
    ensures
        match spec_verb_command(input@, Verb::SwaySock) {
            None => r == Err::<(Vec<u8>, BacklightCommand), Error>(Error::BadParse),
            Some((e, c)) => r matches Ok((rest, cmd)) && cmd@ == c && rest@ == input@.subrange(
                e,
                input@.len() as int,
            ),
        },
{
    verb_command(input, Verb::SwaySock)
}

/// Decodes one command line. The verb is matched without regard to ASCII
/// case; a line that starts with no verb, or lacks the argument, is
/// `BadParse`.
pub fn parse_command(input: &[u8]) -> (r: Result<BacklightCommand, Error>)
    ensures
        match spec_parse_command(input@) {
            None => r == Err::<BacklightCommand, Error>(Error::BadParse),
            Some(c) => r matches Ok(cmd) && cmd@ == c,
        },
{
    let order = [
        Verb::SwaySock,
        Verb::Toggle,
        Verb::Down,
        Verb::Up,
        Verb::Off,
        Verb::On,
        Verb::Max,
        Verb::Min,
        Verb::Default,
    ];
    let mut i: usize = 0;
    while i < 9
        invariant
            order@ == seq![
                Verb::SwaySock,
                Verb::Toggle,
                Verb::Down,
                Verb::Up,
                Verb::Off,
                Verb::On,
                Verb::Max,
                Verb::Min,
                Verb::Default,
            ],
            i <= 9,
            forall|k: int| 0 <= k < i ==> !starts_with_no_case(input@, #[trigger] verb_word(order@[k])),
        decreases 9 - i,
    {
        let v = order[i];
        let w = word(v);
        if tag_no_case(input, w.as_slice()) {
            return match verb_command(input, v) {
                Ok((_, cmd)) => Ok(cmd),
                Err(e) => Err(e),
            };
        }
        i = i + 1;
    }
    Err(Error::BadParse)
}

} // verus!

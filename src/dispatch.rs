use vstd::prelude::*;

use crate::command::{BacklightCommand, CommandView, TargetDisplay, TargetView};
use crate::display::Display;
use crate::error::Error;
use crate::scale::{level_down, level_up};

verus! {

/// A hardware operation on one display.
#[derive(Debug, Clone, Copy, PartialEq, Eq)]
pub enum Op {
    TurnOn,
    TurnOff,
    /// Write this native brightness value.
    SetBrightness(usize),
}

/// An operation and the index of the display it is for.
#[derive(Debug, Clone, Copy, PartialEq, Eq)]
pub struct Action {
    pub display: usize,
    pub op: Op,
}

/// What a dispatch asks of the hardware, in order, and the control socket
/// that a `swaysock` command names.
#[derive(Debug)]
pub struct Outcome {
    pub actions: Vec<Action>,
    pub socket: Option<Vec<u8>>,
}

/// The display is one that the target selects.
pub open spec fn selects(t: TargetView, d: Display) -> bool {
    match t {
        TargetView::All => true,
        TargetView::Named(n) => d.spec_name() == n,
    }
}

/// `op` for each display among the first `n` that the target selects, in order.
pub open spec fn power_writes(ds: Seq<Display>, t: TargetView, op: Op, n: int) -> Seq<Action>
    decreases n,
{
    if n <= 0 {
        Seq::empty()
    } else {
        power_writes(ds, t, op, n - 1) + if selects(t, ds[n - 1]) {
            seq![Action { display: (n - 1) as usize, op }]
        } else {
            Seq::empty()
        }
    }
}

/// The power state read for display `i`; `None` when it could not be read.
pub open spec fn power_at(power: Seq<Option<bool>>, i: int) -> Option<bool> {
    if 0 <= i < power.len() {
        power[i]
    } else {
        None
    }
}

/// For each display among the first `n` named `name`: off if it reads on,
/// on if it reads off, nothing if its state is unknown.
pub open spec fn toggle_writes(ds: Seq<Display>, name: Seq<u8>, power: Seq<Option<bool>>, n: int) -> Seq<Action>
    decreases n,
{
    if n <= 0 {
        Seq::empty()
    } else {
        toggle_writes(ds, name, power, n - 1) + if ds[n - 1].spec_name() == name {
            match power_at(power, n - 1) {
                Some(true) => seq![Action { display: (n - 1) as usize, op: Op::TurnOff }],
                Some(false) => seq![Action { display: (n - 1) as usize, op: Op::TurnOn }],
                None => Seq::empty(),
            }
        } else {
            Seq::empty()
        }
    }
}

/// The display already sits at the bound that a step in this direction
/// moves toward: the ceiling going up, the floor going down.
pub open spec fn at_bound(d: Display, up: bool) -> bool {
    if up {
        d.spec_brightness() is Max
    } else {
        d.spec_brightness() is Min
    }
}

/// The display after one step in this direction.
pub open spec fn stepped(d: Display, up: bool) -> Display {
    if up {
        d.with_level(level_up(d.spec_level()))
    } else {
        d.with_level(level_down(d.spec_level()))
    }
}

/// Which displays a named step moves: those of that name that are not at
/// the bound already.
pub open spec fn named_moves(ds: Seq<Display>, name: Seq<u8>, up: bool) -> Seq<bool> {
    Seq::new(ds.len(), |i: int| ds[i].spec_name() == name && !at_bound(ds[i], up))
}

/// Some display of the group is not at the bound.
pub open spec fn group_has_room(ds: Seq<Display>, up: bool) -> bool {
    exists|j: int| 0 <= j < ds.len() && !at_bound(#[trigger] ds[j], up)
}

/// Which displays a group step moves: all of them once any has room, else none.
pub open spec fn group_moves(ds: Seq<Display>, up: bool) -> Seq<bool> {
    Seq::new(ds.len(), |i: int| group_has_room(ds, up))
}

/// The displays after the step, where `moves` says which ones take it.
pub open spec fn after_steps(ds: Seq<Display>, moves: Seq<bool>, up: bool) -> Seq<Display> {
    Seq::new(ds.len(), |i: int| if moves[i] { stepped(ds[i], up) } else { ds[i] })
}

/// A brightness write of its new value for each display among the first `n`
/// that moved, in order.
pub open spec fn brightness_writes(new: Seq<Display>, moves: Seq<bool>, n: int) -> Seq<Action>
    decreases n,
{
    if n <= 0 {
        Seq::empty()
    } else {
        brightness_writes(new, moves, n - 1) + if moves[n - 1] {
            seq![
                Action {
                    display: (n - 1) as usize,
                    op: Op::SetBrightness(new[n - 1].spec_brightness().payload()),
                },
            ]
        } else {
            Seq::empty()
        }
    }
}

/// `op` for every display that the target selects, in order.
pub fn power_actions(target: &TargetDisplay, displays: &Vec<Display>, op: Op) -> (r: Vec<Action>)
    ensures
        r@ == power_writes(displays@, target@, op, displays@.len() as int),
{
    let mut r: Vec<Action> = Vec::new();
    let mut i: usize = 0;
    while i < displays.len()
        invariant
            i <= displays@.len(),
            r@ == power_writes(displays@, target@, op, i as int),
        decreases displays@.len() - i,
    {
        let hit = match target {
            TargetDisplay::All => true,
            TargetDisplay::Display(n) => names_equal(displays[i].name(), n),
        };
        if hit {
            r.push(Action { display: i, op });
        }
        proof {
            assert(hit == selects(target@, displays@[i as int]));
        }
        i = i + 1;
    }
    r
}

fn names_equal(a: &Vec<u8>, b: &Vec<u8>) -> (r: bool)
    ensures
        r == (a@ == b@),
{
    if a.len() != b.len() {
        return false;
    }
    let mut i: usize = 0;
    while i < a.len()
        invariant
            a@.len() == b@.len(),
            i <= a@.len(),
            forall|k: int| 0 <= k < i ==> a@[k] == b@[k],
        decreases a@.len() - i,
    {
        if a[i] != b[i] {
            return false;
        }
        i = i + 1;
    }
    assert(a@ =~= b@);
    true
}

/// Toggles every display named `name` from the power state read for it:
/// off if on, on if off, and nothing where the state is unknown.
pub fn toggle_display(name: &Vec<u8>, displays: &Vec<Display>, power: &Vec<Option<bool>>) -> (r: Vec<Action>)
    ensures
        r@ == toggle_writes(displays@, name@, power@, displays@.len() as int),
{
    let mut r: Vec<Action> = Vec::new();
    let mut i: usize = 0;
    while i < displays.len()
        invariant
            i <= displays@.len(),
            r@ == toggle_writes(displays@, name@, power@, i as int),
        decreases displays@.len() - i,
    {
        if names_equal(displays[i].name(), name) {
            let state = if i < power.len() {
                power[i]
            } else {
                None
            };
            match state {
                Some(true) => r.push(Action { display: i, op: Op::TurnOff }),
                Some(false) => r.push(Action { display: i, op: Op::TurnOn }),
                None => {},
            }
        }
        i = i + 1;
    }
    r
}

/// Toggles the group by the first display: all off if it reads on, all on if
/// it reads off; when its state is unknown, nothing is done and
/// `NoBacklightStatus` is returned.
pub fn toggle_all_displays(displays: &Vec<Display>, power: &Vec<Option<bool>>) -> (r: Result<Vec<Action>, Error>)
    ensures
        displays@.len() == 0 ==> (r matches Ok(a) && a@.len() == 0),
        displays@.len() > 0 ==> match power_at(power@, 0) {
            Some(true) => (r matches Ok(a) && a@ == power_writes(displays@, TargetView::All, Op::TurnOff, displays@.len() as int)),
            Some(false) => (r matches Ok(a) && a@ == power_writes(displays@, TargetView::All, Op::TurnOn, displays@.len() as int)),
            None => r == Err::<Vec<Action>, Error>(Error::NoBacklightStatus),
        },
{
    if displays.len() == 0 {
        return Ok(Vec::new());
    }
    let lead = if power.len() > 0 {
        power[0]
    } else {
        None
    };
    match lead {
        Some(true) => Ok(power_actions(&TargetDisplay::All, displays, Op::TurnOff)),
        Some(false) => Ok(power_actions(&TargetDisplay::All, displays, Op::TurnOn)),
        None => Err(Error::NoBacklightStatus),
    }
}

/// Steps each display that `moves` marks, in order, and asks for a write of
/// its new value.
fn apply_steps(displays: &mut Vec<Display>, moves: &Vec<bool>, up: bool) -> (r: Vec<Action>)
    requires
        moves@.len() == old(displays)@.len(),
    ensures
        final(displays)@ == after_steps(old(displays)@, moves@, up),
        r@ == brightness_writes(final(displays)@, moves@, moves@.len() as int),
{
    let ghost target = after_steps(old(displays)@, moves@, up);
    let mut r: Vec<Action> = Vec::new();
    let mut i: usize = 0;
    while i < displays.len()
        invariant
            moves@.len() == displays@.len(),
            target.len() == displays@.len(),
            target == after_steps(old(displays)@, moves@, up),
            i <= displays@.len(),
            forall|k: int| 0 <= k < i ==> displays@[k] == target[k],
            forall|k: int| i <= k < displays@.len() ==> displays@[k] == old(displays)@[k],
            r@ == brightness_writes(target, moves@, i as int),
        decreases displays@.len() - i,
    {
        if moves[i] {
            let v = if up {
                displays[i].brightness_up()
            } else {
                displays[i].brightness_down()
            };
            r.push(Action { display: i, op: Op::SetBrightness(v.value()) });
        }
        i = i + 1;
    }
    assert(displays@ =~= target);
    r
}

/// Steps every display named `name` that is not already at the bound in that
/// direction; the others are left alone.
fn named_step(name: &Vec<u8>, displays: &mut Vec<Display>, up: bool) -> (r: Vec<Action>)
    ensures
        final(displays)@ == after_steps(old(displays)@, named_moves(old(displays)@, name@, up), up),
        r@ == brightness_writes(
            final(displays)@,
            named_moves(old(displays)@, name@, up),
            old(displays)@.len() as int,
        ),
{
    let mut moves: Vec<bool> = Vec::new();
    let mut i: usize = 0;
    while i < displays.len()
        invariant
            i <= displays@.len(),
            moves@.len() == i,
            forall|k: int| 0 <= k < i ==> moves@[k] == named_moves(displays@, name@, up)[k],
        decreases displays@.len() - i,
    {
        let b = displays[i].get_brightness();
        let bound = if up {
            b.is_max()
        } else {
            b.is_min()
        };
        moves.push(names_equal(displays[i].name(), name) && !bound);
        i = i + 1;
    }
    assert(moves@ =~= named_moves(displays@, name@, up));
    apply_steps(displays, &moves, up)
}

/// Steps the whole group once any display has room in that direction, every
/// display then, also those already at the bound; else does nothing.
fn group_step(displays: &mut Vec<Display>, up: bool) -> (r: Vec<Action>)
    ensures
        final(displays)@ == after_steps(old(displays)@, group_moves(old(displays)@, up), up),
        r@ == brightness_writes(
            final(displays)@,
            group_moves(old(displays)@, up),
            old(displays)@.len() as int,
        ),
{
    let mut room = false;
    let mut i: usize = 0;
    while i < displays.len()
        invariant
            i <= displays@.len(),
            room == exists|j: int| 0 <= j < i && !at_bound(#[trigger] displays@[j], up),
        decreases displays@.len() - i,
    {
        let b = displays[i].get_brightness();
        let bound = if up {
            b.is_max()
        } else {
            b.is_min()
        };
        if !bound {
            room = true;
        }
        i = i + 1;
    }
    let mut moves: Vec<bool> = Vec::new();
    let mut k: usize = 0;
    while k < displays.len()
        invariant
            k <= displays@.len(),
            moves@.len() == k,
            room == group_has_room(displays@, up),
            forall|j: int| 0 <= j < k ==> moves@[j] == room,
        decreases displays@.len() - k,
    {
        moves.push(room);
        k = k + 1;
    }
    assert(moves@ =~= group_moves(displays@, up));
    apply_steps(displays, &moves, up)
}

/// Brightens every display named `name` that is not at its ceiling.
pub fn display_brightness_up(name: &Vec<u8>, displays: &mut Vec<Display>) -> (r: Vec<Action>)
    ensures
        final(displays)@ == after_steps(old(displays)@, named_moves(old(displays)@, name@, true), true),
        r@ == brightness_writes(
            final(displays)@,
            named_moves(old(displays)@, name@, true),
            old(displays)@.len() as int,
        ),
{
    named_step(name, displays, true)
}

/// Dims every display named `name` that is not at its floor.
pub fn display_brightness_down(name: &Vec<u8>, displays: &mut Vec<Display>) -> (r: Vec<Action>)
    ensures
        final(displays)@ == after_steps(old(displays)@, named_moves(old(displays)@, name@, false), false),
        r@ == brightness_writes(
            final(displays)@,
            named_moves(old(displays)@, name@, false),
            old(displays)@.len() as int,
        ),
{
    named_step(name, displays, false)
}

/// Brightens every display once any of them is below its ceiling.
pub fn all_brightness_up(displays: &mut Vec<Display>) -> (r: Vec<Action>)
    ensures
        final(displays)@ == after_steps(old(displays)@, group_moves(old(displays)@, true), true),
        r@ == brightness_writes(
            final(displays)@,
            group_moves(old(displays)@, true),
            old(displays)@.len() as int,
        ),
{
    group_step(displays, true)
}

/// Dims every display once any of them is above its floor.
pub fn all_brightness_down(displays: &mut Vec<Display>) -> (r: Vec<Action>)
    ensures
        final(displays)@ == after_steps(old(displays)@, group_moves(old(displays)@, false), false),
        r@ == brightness_writes(
            final(displays)@,
            group_moves(old(displays)@, false),
            old(displays)@.len() as int,
        ),
{
    group_step(displays, false)
}

/// The power state of display `i` is read before `cmd` is dispatched: for a
/// named toggle, every display of that name; for a group toggle, the first.
pub open spec fn needs_power_state(cmd: CommandView, ds: Seq<Display>, i: int) -> bool {
    match cmd {
        CommandView::Toggle(TargetView::Named(n)) => ds[i].spec_name() == n,
        CommandView::Toggle(TargetView::All) => i == 0,
        _ => false,
    }
}

/// For each display, whether its power state must be read and handed to
/// `execute_command` along with `cmd`.
pub fn power_queries(cmd: &BacklightCommand, displays: &Vec<Display>) -> (r: Vec<bool>)
    ensures
        r@.len() == displays@.len(),
        forall|i: int| 0 <= i < r@.len() ==> r@[i] == needs_power_state(cmd@, displays@, i),
{
    let mut r: Vec<bool> = Vec::new();
    let mut i: usize = 0;
    while i < displays.len()
        invariant
            i <= displays@.len(),
            r@.len() == i,
            forall|k: int| 0 <= k < i ==> r@[k] == needs_power_state(cmd@, displays@, k),
        decreases displays@.len() - i,
    {
        let q = match cmd {
            BacklightCommand::Toggle(TargetDisplay::Display(n)) => names_equal(displays[i].name(), n),
            BacklightCommand::Toggle(TargetDisplay::All) => i == 0,
            _ => false,
        };
        r.push(q);
        i = i + 1;
    }
    r
}

/// Dispatches one command over the displays. `power[i]` is the power state
/// read for display `i` where `power_queries` asked for it (`None` where the
/// read failed). Scales change as the command says; the hardware writes come
/// back in order, for the caller to perform, and a failure of one of them
/// concerns that display alone.
pub fn execute_command(
    cmd: BacklightCommand,
    displays: &mut Vec<Display>,
    power: &Vec<Option<bool>>,
) -> (r: Result<Outcome, Error>)
    ensures
        match cmd@ {
            CommandView::Up(t) => {
                let moves = match t {
                    TargetView::All => group_moves(old(displays)@, true),
                    TargetView::Named(n) => named_moves(old(displays)@, n, true),
                };
                &&& final(displays)@ == after_steps(old(displays)@, moves, true)
                &&& r matches Ok(o)
                &&& o.socket is None
                &&& o.actions@ == brightness_writes(final(displays)@, moves, old(displays)@.len() as int)
            },
            CommandView::Down(t) => {
                let moves = match t {
                    TargetView::All => group_moves(old(displays)@, false),
                    TargetView::Named(n) => named_moves(old(displays)@, n, false),
                };
                &&& final(displays)@ == after_steps(old(displays)@, moves, false)
                &&& r matches Ok(o)
                &&& o.socket is None
                &&& o.actions@ == brightness_writes(final(displays)@, moves, old(displays)@.len() as int)
            },
            _ => final(displays)@ == old(displays)@,
        },
        match cmd@ {
            CommandView::SwaySock(p) => (r matches Ok(o) && o.actions@.len() == 0 && (o.socket matches Some(s) && s@ == p)),
            CommandView::On(t) => (r matches Ok(o) && o.socket is None && o.actions@ == power_writes(old(displays)@, t, Op::TurnOn, old(displays)@.len() as int)),
            CommandView::Off(t) => (r matches Ok(o) && o.socket is None && o.actions@ == power_writes(old(displays)@, t, Op::TurnOff, old(displays)@.len() as int)),
            CommandView::Toggle(TargetView::Named(n)) => (r matches Ok(o) && o.socket is None && o.actions@ == toggle_writes(old(displays)@, n, power@, old(displays)@.len() as int)),
            CommandView::Toggle(TargetView::All) => if old(displays)@.len() == 0 {
                (r matches Ok(o) && o.socket is None && o.actions@.len() == 0)
            } else {
                match power_at(power@, 0) {
                    Some(true) => (r matches Ok(o) && o.socket is None && o.actions@ == power_writes(old(displays)@, TargetView::All, Op::TurnOff, old(displays)@.len() as int)),
                    Some(false) => (r matches Ok(o) && o.socket is None && o.actions@ == power_writes(old(displays)@, TargetView::All, Op::TurnOn, old(displays)@.len() as int)),
                    None => r == Err::<Outcome, Error>(Error::NoBacklightStatus),
                }
            },
            CommandView::Max(_) | CommandView::Min(_) | CommandView::Default(_) => r == Err::<Outcome, Error>(Error::NotImplemented),
            _ => true,
        },
{
    match cmd {
        BacklightCommand::SwaySock(p) => Ok(Outcome { actions: Vec::new(), socket: Some(p) }),
        BacklightCommand::On(t) => Ok(Outcome { actions: power_actions(&t, displays, Op::TurnOn), socket: None }),
        BacklightCommand::Off(t) => Ok(Outcome { actions: power_actions(&t, displays, Op::TurnOff), socket: None }),
        BacklightCommand::Toggle(TargetDisplay::Display(n)) => Ok(Outcome { actions: toggle_display(&n, displays, power), socket: None }),
        BacklightCommand::Toggle(TargetDisplay::All) => match toggle_all_displays(displays, power) {
            Ok(a) => Ok(Outcome { actions: a, socket: None }),
            Err(e) => Err(e),
        },
        BacklightCommand::Up(TargetDisplay::Display(n)) => Ok(Outcome { actions: display_brightness_up(&n, displays), socket: None }),
        BacklightCommand::Up(TargetDisplay::All) => Ok(Outcome { actions: all_brightness_up(displays), socket: None }),
        BacklightCommand::Down(TargetDisplay::Display(n)) => Ok(Outcome { actions: display_brightness_down(&n, displays), socket: None }),
        BacklightCommand::Down(TargetDisplay::All) => Ok(Outcome { actions: all_brightness_down(displays), socket: None }),
        BacklightCommand::Max(_) | BacklightCommand::Min(_) | BacklightCommand::Default(_) => Err(Error::NotImplemented),
    }
}

proof fn lemma_no_moves_no_writes(new: Seq<Display>, moves: Seq<bool>, n: int)
    requires
        0 <= n <= moves.len(),
        forall|i: int| 0 <= i < moves.len() ==> !moves[i],
    ensures
        brightness_writes(new, moves, n) == Seq::<Action>::empty(),
    decreases n,
{
    if n > 0 {
        lemma_no_moves_no_writes(new, moves, n - 1);
    }
}

proof fn lemma_all_moves_writes(new: Seq<Display>, moves: Seq<bool>, n: int)
    requires
        0 <= n <= moves.len(),
        n <= new.len(),
        forall|i: int| 0 <= i < moves.len() ==> moves[i],
    ensures
        brightness_writes(new, moves, n).len() == n,
        forall|i: int|
            0 <= i < n ==> #[trigger] brightness_writes(new, moves, n)[i] == (Action {
                display: i as usize,
                op: Op::SetBrightness(new[i].spec_brightness().payload()),
            }),
    decreases n,
{
    if n > 0 {
        lemma_all_moves_writes(new, moves, n - 1);
    }
}

/// A group step writes to every display, once each and in order, when any
/// display has room in that direction, even to those already at the bound;
/// when none has room, no display changes and nothing is written.
pub proof fn law_group_guard(ds: Seq<Display>, up: bool)
    ensures
        group_has_room(ds, up) ==> {
            let new = after_steps(ds, group_moves(ds, up), up);
            let w = brightness_writes(new, group_moves(ds, up), ds.len() as int);
            &&& w.len() == ds.len()
            &&& forall|i: int|
                0 <= i < ds.len() ==> #[trigger] w[i] == (Action {
                    display: i as usize,
                    op: Op::SetBrightness(stepped(ds[i], up).spec_brightness().payload()),
                })
        },
        !group_has_room(ds, up) ==> {
            &&& after_steps(ds, group_moves(ds, up), up) == ds
            &&& brightness_writes(ds, group_moves(ds, up), ds.len() as int) == Seq::<Action>::empty()
        },
{
    let moves = group_moves(ds, up);
    let new = after_steps(ds, moves, up);
    if group_has_room(ds, up) {
        lemma_all_moves_writes(new, moves, ds.len() as int);
    } else {
        assert(new =~= ds);
        lemma_no_moves_no_writes(ds, moves, ds.len() as int);
    }
}

proof fn lemma_group_power_writes(ds: Seq<Display>, op: Op, n: int)
    requires
        0 <= n <= ds.len(),
    ensures
        power_writes(ds, TargetView::All, op, n).len() == n,
        forall|i: int|
            0 <= i < n ==> #[trigger] power_writes(ds, TargetView::All, op, n)[i] == (Action {
                display: i as usize,
                op,
            }),
    decreases n,
{
    if n > 0 {
        lemma_group_power_writes(ds, op, n - 1);
    }
}

/// A group power operation goes to every display, once each and in order.
/// So a group toggle whose first display reads on turns every display off,
/// and one whose first display reads off turns every display on.
pub proof fn law_group_power(ds: Seq<Display>, op: Op)
    ensures
        power_writes(ds, TargetView::All, op, ds.len() as int).len() == ds.len(),
        forall|i: int|
            0 <= i < ds.len() ==> #[trigger] power_writes(ds, TargetView::All, op, ds.len() as int)[i]
                == (Action { display: i as usize, op }),
{
    lemma_group_power_writes(ds, op, ds.len() as int);
}

} // verus!

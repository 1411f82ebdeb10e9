//! The player's input actions: their names in the key-binding file, the
//! execution context each one is restricted to, and the built-in key bindings
//! used when the binding file cannot be read.

use vstd::prelude::*;

use crate::state::{spec_execution_context, GameState, GutzExecutionContext};

verus! {

/// What the player wants to do, independent of the key that triggers it.
#[derive(Clone, Copy, PartialEq, Eq, Hash, Debug)]
pub enum PlayerAction {
    RotateLeft,
    RotateRight,
    Charge,
    Restart,
    /// Opens or closes the pause menu.
    Pause,
    /// Leaves the paused round for the title screen.
    QuitToTitle,
}

/// Keys the built-in bindings use.
#[derive(Clone, Copy, PartialEq, Eq, Hash, Debug)]
pub enum BindingKey {
    KeyA,
    KeyD,
    Space,
    KeyR,
    Escape,
    KeyQ,
}

/// The name of an action in the key-binding file.
pub open spec fn spec_action_name(a: PlayerAction) -> Seq<char> {
    match a {
        PlayerAction::RotateLeft => seq!['r', 'o', 't', 'a', 't', 'e', '_', 'l', 'e', 'f', 't'],
        PlayerAction::RotateRight => seq!['r', 'o', 't', 'a', 't', 'e', '_', 'r', 'i', 'g', 'h', 't'],
        PlayerAction::Charge => seq!['c', 'h', 'a', 'r', 'g', 'e'],
        PlayerAction::Restart => seq!['r', 'e', 's', 't', 'a', 'r', 't'],
        PlayerAction::Pause => seq!['p', 'a', 'u', 's', 'e'],
        PlayerAction::QuitToTitle => seq!['q', 'u', 'i', 't', '_', 't', 'o', '_', 't', 'i', 't', 'l', 'e'],
    }
}

/// The action a name in the key-binding file stands for.
pub open spec fn spec_resolve_action(name: Seq<char>) -> Option<PlayerAction> {
    if name == spec_action_name(PlayerAction::RotateLeft) {
        Some(PlayerAction::RotateLeft)
    } else if name == spec_action_name(PlayerAction::RotateRight) {
        Some(PlayerAction::RotateRight)
    } else if name == spec_action_name(PlayerAction::Charge) {
        Some(PlayerAction::Charge)
    } else if name == spec_action_name(PlayerAction::Restart) {
        Some(PlayerAction::Restart)
    } else if name == spec_action_name(PlayerAction::Pause) {
        Some(PlayerAction::Pause)
    } else if name == spec_action_name(PlayerAction::QuitToTitle) {
        Some(PlayerAction::QuitToTitle)
    } else {
        None
    }
}

/// The execution context an action is restricted to: restarting only happens
/// out of game, every other action only in game.
pub open spec fn spec_action_context(a: PlayerAction) -> GutzExecutionContext {
    match a {
        PlayerAction::Restart => GutzExecutionContext::OutGame,
        _ => GutzExecutionContext::InGame,
    }
}

/// The built-in key of an action.
pub open spec fn spec_default_key(a: PlayerAction) -> BindingKey {
    match a {
        PlayerAction::RotateLeft => BindingKey::KeyA,
        PlayerAction::RotateRight => BindingKey::KeyD,
        PlayerAction::Charge => BindingKey::Space,
        PlayerAction::Restart => BindingKey::KeyR,
        PlayerAction::Pause => BindingKey::Escape,
        PlayerAction::QuitToTitle => BindingKey::KeyQ,
    }
}

/// Every action, in declaration order.
pub open spec fn all_actions() -> Seq<PlayerAction> {
    seq![
        PlayerAction::RotateLeft,
        PlayerAction::RotateRight,
        PlayerAction::Charge,
        PlayerAction::Restart,
        PlayerAction::Pause,
        PlayerAction::QuitToTitle,
    ]
}

/// Name of the key-binding file.
pub const INPUT_CONFIG_PATH: &'static str = "input.toml";

fn str_eq(a: &str, b: &str) -> (r: bool)
    ensures
        r == (a@ == b@),
{
    String::from_str(a) == String::from_str(b)
}

/// The action named `name` in the key-binding file, if any.
pub fn resolve_action(name: &str) -> (r: Option<PlayerAction>)
    ensures
        r == spec_resolve_action(name@),
{
    proof {
        reveal_strlit("rotate_left");
        reveal_strlit("rotate_right");
        reveal_strlit("charge");
        reveal_strlit("restart");
        reveal_strlit("pause");
        reveal_strlit("quit_to_title");
        assert("rotate_left"@ =~= spec_action_name(PlayerAction::RotateLeft));
        assert("rotate_right"@ =~= spec_action_name(PlayerAction::RotateRight));
        assert("charge"@ =~= spec_action_name(PlayerAction::Charge));
        assert("restart"@ =~= spec_action_name(PlayerAction::Restart));
        assert("pause"@ =~= spec_action_name(PlayerAction::Pause));
        assert("quit_to_title"@ =~= spec_action_name(PlayerAction::QuitToTitle));
    }
    if str_eq(name, "rotate_left") {
        Some(PlayerAction::RotateLeft)
    } else if str_eq(name, "rotate_right") {
        Some(PlayerAction::RotateRight)
    } else if str_eq(name, "charge") {
        Some(PlayerAction::Charge)
    } else if str_eq(name, "restart") {
        Some(PlayerAction::Restart)
    } else if str_eq(name, "pause") {
        Some(PlayerAction::Pause)
    } else if str_eq(name, "quit_to_title") {
        Some(PlayerAction::QuitToTitle)
    } else {
        None
    }
}

/// The execution context `action` is restricted to.
pub fn action_context(action: PlayerAction) -> (r: GutzExecutionContext)
    ensures
        r == spec_action_context(action),
{
    match action {
        PlayerAction::Restart => GutzExecutionContext::OutGame,
        _ => GutzExecutionContext::InGame,
    }
}

/// The restriction of every action, in declaration order.
pub fn setup_input_bindings() -> (r: Vec<(PlayerAction, GutzExecutionContext)>)
    ensures
        r@.len() == all_actions().len(),
        forall|i: int|
            0 <= i < r@.len() ==> #[trigger] r@[i] == (all_actions()[i], spec_action_context(
                all_actions()[i],
            )),
{
    let mut v: Vec<(PlayerAction, GutzExecutionContext)> = Vec::new();
    v.push((PlayerAction::RotateLeft, action_context(PlayerAction::RotateLeft)));
    v.push((PlayerAction::RotateRight, action_context(PlayerAction::RotateRight)));
    v.push((PlayerAction::Charge, action_context(PlayerAction::Charge)));
    v.push((PlayerAction::Restart, action_context(PlayerAction::Restart)));
    v.push((PlayerAction::Pause, action_context(PlayerAction::Pause)));
    v.push((PlayerAction::QuitToTitle, action_context(PlayerAction::QuitToTitle)));
    v
}

/// The built-in key of `action`.
pub fn default_key(action: PlayerAction) -> (r: BindingKey)
    ensures
        r == spec_default_key(action),
{
    match action {
        PlayerAction::RotateLeft => BindingKey::KeyA,
        PlayerAction::RotateRight => BindingKey::KeyD,
        PlayerAction::Charge => BindingKey::Space,
        PlayerAction::Restart => BindingKey::KeyR,
        PlayerAction::Pause => BindingKey::Escape,
        PlayerAction::QuitToTitle => BindingKey::KeyQ,
    }
}

/// The built-in binding of every action, in declaration order; used when the
/// key-binding file cannot be read.
pub fn bind_hardcoded_defaults() -> (r: Vec<(PlayerAction, BindingKey)>)
    ensures
        r@.len() == all_actions().len(),
        forall|i: int|
            0 <= i < r@.len() ==> #[trigger] r@[i] == (all_actions()[i], spec_default_key(
                all_actions()[i],
            )),
{
    let mut v: Vec<(PlayerAction, BindingKey)> = Vec::new();
    v.push((PlayerAction::RotateLeft, default_key(PlayerAction::RotateLeft)));
    v.push((PlayerAction::RotateRight, default_key(PlayerAction::RotateRight)));
    v.push((PlayerAction::Charge, default_key(PlayerAction::Charge)));
    v.push((PlayerAction::Restart, default_key(PlayerAction::Restart)));
    v.push((PlayerAction::Pause, default_key(PlayerAction::Pause)));
    v.push((PlayerAction::QuitToTitle, default_key(PlayerAction::QuitToTitle)));
    v
}

/// Every action can be bound from the key-binding file: its name resolves to
/// it, and no two actions share a name.
pub proof fn lemma_every_action_has_a_name(a: PlayerAction, b: PlayerAction)
    ensures
        spec_resolve_action(spec_action_name(a)) == Some(a),
        a != b ==> spec_action_name(a) != spec_action_name(b),
{
    let na = spec_action_name(a);
    let nb = spec_action_name(b);
    if a != b && na.len() == nb.len() {
        assert(na[0] != nb[0] || na[1] != nb[1]);
    }
    assert(spec_resolve_action(na) == Some(a)) by {
        let names = seq![
            spec_action_name(PlayerAction::RotateLeft),
            spec_action_name(PlayerAction::RotateRight),
            spec_action_name(PlayerAction::Charge),
            spec_action_name(PlayerAction::Restart),
            spec_action_name(PlayerAction::Pause),
            spec_action_name(PlayerAction::QuitToTitle),
        ];
        assert(forall|i: int, j: int| 0 <= i < 6 && 0 <= j < 6 && i != j ==> #[trigger] names[i] != #[trigger] names[j]) by {
            assert(names[0].len() == 11 && names[1].len() == 12 && names[2].len() == 6);
            assert(names[3].len() == 7 && names[4].len() == 5 && names[5].len() == 13);
        }
    }
}

/// No two actions share a built-in key.
pub proof fn lemma_default_keys_distinct(a: PlayerAction, b: PlayerAction)
    ensures
        a != b ==> spec_default_key(a) != spec_default_key(b),
{
}

/// With each action restricted to its context, restarting is never possible
/// during play, and rotating, charging, pausing and quitting are only possible
/// during play.
pub proof fn lemma_action_contexts(a: PlayerAction, s: GameState)
    ensures
        a == PlayerAction::Restart ==> (spec_action_context(a) == spec_execution_context(s)
            <==> s != GameState::Playing),
        a != PlayerAction::Restart ==> (spec_action_context(a) == spec_execution_context(s)
            <==> s == GameState::Playing),
{
}

} // verus!

//! The game's UI screens, how game events move them on and off the screen
//! stack, and the texts the HUD and the screens show.

use vstd::prelude::*;

use crate::gutz_ui::{spec_pop, GutzUiStack};
use crate::state::{Health, SaveData, Score};

verus! {

/// The screens this game puts on the UI stack.
#[derive(Clone, Copy, Hash, Debug)]
pub enum UiScreen {
    Title,
    Paused,
    GameOver,
}

impl PartialEq for UiScreen {
    fn eq(&self, other: &UiScreen) -> (r: bool) {
        match (self, other) {
            (UiScreen::Title, UiScreen::Title) => true,
            (UiScreen::Paused, UiScreen::Paused) => true,
            (UiScreen::GameOver, UiScreen::GameOver) => true,
            _ => false,
        }
    }
}

impl Eq for UiScreen {

}

impl vstd::std_specs::cmp::PartialEqSpecImpl for UiScreen {
    open spec fn obeys_eq_spec() -> bool {
        true
    }

    open spec fn eq_spec(&self, other: &UiScreen) -> bool {
        *self == *other
    }
}

/// `UiScreen`'s `==` is equality of variants.
pub proof fn lemma_ui_screen_concrete_eq()
    ensures
        vstd::laws_eq::obeys_concrete_eq::<UiScreen>(),
{
    reveal(vstd::laws_eq::obeys_concrete_eq);
}

/// Entering the title state opens the title screen.
pub fn open_title_screen(stack: &mut GutzUiStack<UiScreen>)
    ensures
        final(stack)@ == old(stack)@.push(UiScreen::Title),
{
    stack.push(UiScreen::Title);
}

/// Entering the game-over state opens the result screen.
pub fn open_game_over_screen(stack: &mut GutzUiStack<UiScreen>)
    ensures
        final(stack)@ == old(stack)@.push(UiScreen::GameOver),
{
    stack.push(UiScreen::GameOver);
}

/// Entering play closes whichever out-of-game screen is on top.
pub fn close_outgame_screen(stack: &mut GutzUiStack<UiScreen>)
    ensures
        final(stack)@ == spec_pop(old(stack)@),
{
    stack.pop();
}

/// Keeps the pause screen in step with the pause flag: when the flag changed,
/// pausing opens the pause screen and resuming closes the top screen.
pub fn sync_paused_screen(stack: &mut GutzUiStack<UiScreen>, paused_changed: bool, paused: bool)
    ensures
        !paused_changed ==> final(stack)@ == old(stack)@,
        paused_changed && paused ==> final(stack)@ == old(stack)@.push(UiScreen::Paused),
        paused_changed && !paused ==> final(stack)@ == spec_pop(old(stack)@),
{
    if !paused_changed {
        return ;
    }
    if paused {
        stack.push(UiScreen::Paused);
    } else {
        stack.pop();
    }
}

/// Pausing and then resuming leaves the screen stack as it was.
pub proof fn lemma_pause_resume_restores(s: Seq<UiScreen>)
    ensures
        spec_pop(s.push(UiScreen::Paused)) == s,
{
    assert(s.push(UiScreen::Paused).drop_last() =~= s);
}

/// The character of a decimal digit.
pub open spec fn digit_char(d: nat) -> char {
    if d == 0 {
        '0'
    } else if d == 1 {
        '1'
    } else if d == 2 {
        '2'
    } else if d == 3 {
        '3'
    } else if d == 4 {
        '4'
    } else if d == 5 {
        '5'
    } else if d == 6 {
        '6'
    } else if d == 7 {
        '7'
    } else if d == 8 {
        '8'
    } else {
        '9'
    }
}

/// Decimal notation of `n`, without leading zeros.
pub open spec fn decimal(n: nat) -> Seq<char>
    decreases n,
{
    if n < 10 {
        seq![digit_char(n)]
    } else {
        decimal(n / 10).push(digit_char(n % 10))
    }
}

/// The value of a decimal digit character (0 for other characters).
pub open spec fn digit_value(c: char) -> nat {
    if c == '1' {
        1
    } else if c == '2' {
        2
    } else if c == '3' {
        3
    } else if c == '4' {
        4
    } else if c == '5' {
        5
    } else if c == '6' {
        6
    } else if c == '7' {
        7
    } else if c == '8' {
        8
    } else if c == '9' {
        9
    } else {
        0
    }
}

/// The number a string of decimal digits denotes.
pub open spec fn decimal_value(s: Seq<char>) -> nat
    decreases s.len(),
{
    if s.len() == 0 {
        0
    } else {
        decimal_value(s.drop_last()) * 10 + digit_value(s.last())
    }
}

/// The shown number reads back as the number itself, and it starts with a
/// zero only when it is zero.
pub proof fn lemma_decimal_reads_back(n: nat)
    ensures
        decimal_value(decimal(n)) == n,
        decimal(n).len() >= 1,
        n > 0 ==> decimal(n)[0] != '0',
    decreases n,
{
    if n >= 10 {
        lemma_decimal_reads_back(n / 10);
        let d = decimal(n);
        assert(d == decimal(n / 10).push(digit_char(n % 10)));
        assert(d.drop_last() =~= decimal(n / 10));
        assert(digit_value(digit_char(n % 10)) == n % 10);
        assert(n == (n / 10) * 10 + n % 10);
        assert(d[0] == decimal(n / 10)[0]);
        assert(d.last() == digit_char(n % 10));
        assert(decimal_value(d) == decimal_value(d.drop_last()) * 10 + digit_value(d.last()));
    } else {
        let d = decimal(n);
        assert(d == seq![digit_char(n)]);
        assert(d.drop_last() =~= Seq::<char>::empty());
        assert(d.last() == digit_char(n));
        assert(digit_value(digit_char(n)) == n);
        assert(decimal_value(d) == decimal_value(d.drop_last()) * 10 + digit_value(d.last()));
    }
}

fn digit_str(d: u32) -> (r: &'static str)
    requires
        d < 10,
    ensures
        r@ == seq![digit_char(d as nat)],
{
    if d == 0 {
        proof {
            reveal_strlit("0");
        }
        "0"
    } else if d == 1 {
        proof {
            reveal_strlit("1");
        }
        "1"
    } else if d == 2 {
        proof {
            reveal_strlit("2");
        }
        "2"
    } else if d == 3 {
        proof {
            reveal_strlit("3");
        }
        "3"
    } else if d == 4 {
        proof {
            reveal_strlit("4");
        }
        "4"
    } else if d == 5 {
        proof {
            reveal_strlit("5");
        }
        "5"
    } else if d == 6 {
        proof {
            reveal_strlit("6");
        }
        "6"
    } else if d == 7 {
        proof {
            reveal_strlit("7");
        }
        "7"
    } else if d == 8 {
        proof {
            reveal_strlit("8");
        }
        "8"
    } else {
        proof {
            reveal_strlit("9");
        }
        "9"
    }
}

/// Appends the decimal notation of `n` to `s`.
fn append_decimal(s: &mut String, n: u32)
    ensures
        final(s)@ == old(s)@ + decimal(n as nat),
    decreases n,
{
    if n >= 10 {
        append_decimal(s, n / 10);
    }
    s.append(digit_str(n % 10));
    proof {
        if n >= 10 {
            assert(decimal(n as nat) == decimal((n / 10) as nat).push(digit_char((n % 10) as nat)));
        }
    }
    assert(final(s)@ =~= old(s)@ + decimal(n as nat)) by {
        if n < 10 {
            assert(decimal(n as nat) == seq![digit_char(n as nat)]);
        }
    }
}

pub open spec fn score_label() -> Seq<char> {
    seq!['S', 'c', 'o', 'r', 'e', ':', ' ']
}

pub open spec fn hp_label() -> Seq<char> {
    seq!['H', 'P', ':', ' ']
}

pub open spec fn high_score_label() -> Seq<char> {
    seq!['H', 'i', 'g', 'h', ' ', 'S', 'c', 'o', 'r', 'e', ':', ' ']
}

/// The HUD line for the score: "Score: " and the score in decimal.
pub fn score_text(score: &Score) -> (r: String)
    ensures
        r@ == score_label() + decimal(score.0 as nat),
{
    proof {
        reveal_strlit("Score: ");
    }
    let mut s = String::from_str("Score: ");
    append_decimal(&mut s, score.0);
    s
}

/// The HUD line for the health: "HP: " and the health in decimal, shown as
/// zero when it is negative.
pub fn health_text(health: &Health) -> (r: String)
    ensures
        r@ == hp_label() + decimal(if health.0 < 0 {
            0
        } else {
            health.0 as nat
        }),
{
    proof {
        reveal_strlit("HP: ");
    }
    let mut s = String::from_str("HP: ");
    let shown: u32 = if health.0 < 0 {
        0
    } else {
        health.0 as u32
    };
    append_decimal(&mut s, shown);
    s
}

/// The line showing the stored high score: "High Score: " and the value.
pub fn high_score_text(save_data: &SaveData) -> (r: String)
    ensures
        r@ == high_score_label() + decimal(save_data.high_score as nat),
{
    proof {
        reveal_strlit("High Score: ");
    }
    let mut s = String::from_str("High Score: ");
    append_decimal(&mut s, save_data.high_score);
    s
}

} // verus!

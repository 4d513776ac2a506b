//! The refresh sequence: a fixed, deterministic plan of input events.
//!
//! A plan is a list of [`Step`]s — inject one event, or pause for a fixed
//! number of milliseconds. Key combinations follow one protocol throughout:
//! press every key in the listed order, then release them all in reverse
//! order, with a short delay after every individual press and release.
//!
//! The full refresh plan is: show the desktop (meta+D), move the pointer to
//! the screen center, right-click there, press "R" to pick "refresh" from
//! the context menu, and alt-tab back to the previous window, with the
//! documented pauses in between.

use vstd::prelude::*;

use crate::input::{Button, InputEvent, Key, SCREEN_CENTER_X, SCREEN_CENTER_Y};
use crate::input::screen_center;

verus! {

/// One step of a plan: inject a single event, or pause.
#[derive(Clone, Copy, Debug, PartialEq, Eq, Structural)]
pub enum Step {
    /// Inject one synthetic input event.
    Inject(InputEvent),
    /// Suspend for the given number of milliseconds before the next step.
    Pause(u64),
}

/// Delay after each individual key or button press and release, in ms.
pub const TAP_DELAY_MS: u64 = 50;

/// Delay right after issuing a pointer move, in ms.
pub const MOVE_SETTLE_MS: u64 = 10;

/// Pause after the show-desktop combination, in ms.
pub const DESKTOP_WAIT_MS: u64 = 2000;

/// Further pause after the pointer move, in ms.
pub const MOVE_WAIT_MS: u64 = 500;

/// Pause after the right-click, while the context menu opens, in ms.
pub const MENU_WAIT_MS: u64 = 800;

/// Pause after pressing "R", while the refresh runs, in ms.
pub const REFRESH_WAIT_MS: u64 = 1000;

/// Pause after the alt-tab combination, in ms.
pub const RESTORE_WAIT_MS: u64 = 1000;

/// The steps that press every key of `keys`, in the listed order, each press
/// followed by the per-event delay.
pub open spec fn press_steps(keys: Seq<Key>) -> Seq<Step>
    decreases keys.len(),
{
    if keys.len() == 0 {
        Seq::empty()
    } else {
        press_steps(keys.drop_last())
            + seq![Step::Inject(InputEvent::KeyPress(keys.last())), Step::Pause(TAP_DELAY_MS)]
    }
}

/// The steps that release every key of `keys`, in reverse of the listed
/// order, each release followed by the per-event delay.
pub open spec fn release_steps(keys: Seq<Key>) -> Seq<Step>
    decreases keys.len(),
{
    if keys.len() == 0 {
        Seq::empty()
    } else {
        release_steps(keys.drop_first())
            + seq![Step::Inject(InputEvent::KeyRelease(keys.first())), Step::Pause(TAP_DELAY_MS)]
    }
}

/// A key combination: all presses forward, then all releases in reverse.
pub open spec fn combo_steps_spec(keys: Seq<Key>) -> Seq<Step> {
    press_steps(keys) + release_steps(keys)
}

/// A single key tapped on its own: press, then release.
pub open spec fn tap_steps_spec(key: Key) -> Seq<Step> {
    seq![
        Step::Inject(InputEvent::KeyPress(key)),
        Step::Pause(TAP_DELAY_MS),
        Step::Inject(InputEvent::KeyRelease(key)),
        Step::Pause(TAP_DELAY_MS),
    ]
}

/// A mouse button clicked at the current pointer position: press, then
/// release, the per-event delay after each.
pub open spec fn click_steps_spec(button: Button) -> Seq<Step> {
    seq![
        Step::Inject(InputEvent::ButtonPress(button)),
        Step::Pause(TAP_DELAY_MS),
        Step::Inject(InputEvent::ButtonRelease(button)),
        Step::Pause(TAP_DELAY_MS),
    ]
}

/// The pointer moved to an absolute position, with its settle delay.
pub open spec fn move_steps_spec(x: u32, y: u32) -> Seq<Step> {
    seq![Step::Inject(InputEvent::MouseMove { x, y }), Step::Pause(MOVE_SETTLE_MS)]
}

/// The keys of the "show desktop" combination, in press order.
pub open spec fn show_desktop_keys() -> Seq<Key> {
    seq![Key::MetaLeft, Key::KeyD]
}

/// The keys of the "switch back" combination, in press order.
pub open spec fn alt_tab_keys() -> Seq<Key> {
    seq![Key::Alt, Key::Tab]
}

/// The whole refresh plan, in order: show the desktop and let it settle,
/// move the pointer to the screen center, right-click, tap "R", wait out the
/// refresh, and alt-tab back.
pub open spec fn refresh_sequence_spec() -> Seq<Step> {
    combo_steps_spec(show_desktop_keys()) + seq![Step::Pause(DESKTOP_WAIT_MS)]
        + move_steps_spec(SCREEN_CENTER_X, SCREEN_CENTER_Y) + seq![Step::Pause(MOVE_WAIT_MS)]
        + click_steps_spec(Button::Right) + seq![Step::Pause(MENU_WAIT_MS)]
        + tap_steps_spec(Key::KeyR) + seq![Step::Pause(REFRESH_WAIT_MS)]
        + combo_steps_spec(alt_tab_keys()) + seq![Step::Pause(RESTORE_WAIT_MS)]
}

/// The refresh plan has exactly 31 steps: eight for each of the two
/// two-key combinations, four for the click, four for the tap, two for the
/// pointer move, and the five stand-alone pauses.
pub proof fn lemma_refresh_sequence_len()
    ensures
        refresh_sequence_spec().len() == 31,
{
    reveal_with_fuel(press_steps, 3);
    reveal_with_fuel(release_steps, 3);
}

/// Builds the steps of a key combination: every key of `keys` pressed in the
/// listed order, then every key released in reverse order, the per-event
/// delay after each individual press and release.
pub fn combo_steps(keys: &Vec<Key>) -> (r: Vec<Step>)
    ensures
        r@ == combo_steps_spec(keys@),
{
    let mut r: Vec<Step> = Vec::new();
    let n = keys.len();
    let mut i: usize = 0;
    while i < n
        invariant
            n == keys@.len(),
            i <= n,
            r@ == press_steps(keys@.take(i as int)),
        decreases n - i,
    {
        r.push(Step::Inject(InputEvent::KeyPress(keys[i])));
        r.push(Step::Pause(TAP_DELAY_MS));
        proof {
            let done = keys@.take(i as int + 1);
            assert(done.drop_last() =~= keys@.take(i as int));
            assert(done.last() == keys@[i as int]);
        }
        i = i + 1;
    }
    proof {
        assert(keys@.take(n as int) =~= keys@);
    }
    let mut j: usize = n;
    while j > 0
        invariant
            n == keys@.len(),
            j <= n,
            r@ == press_steps(keys@) + release_steps(keys@.skip(j as int)),
        decreases j,
    {
        j = j - 1;
        r.push(Step::Inject(InputEvent::KeyRelease(keys[j])));
        r.push(Step::Pause(TAP_DELAY_MS));
        proof {
            let rest = keys@.skip(j as int);
            assert(rest.drop_first() =~= keys@.skip(j as int + 1));
            assert(rest.first() == keys@[j as int]);
        }
    }
    proof {
        assert(keys@.skip(0) =~= keys@);
    }
    r
}

/// Builds the steps that tap a single key: press, then release.
pub fn tap_steps(key: Key) -> (r: Vec<Step>)
    ensures
        r@ == tap_steps_spec(key),
{
    let mut r: Vec<Step> = Vec::new();
    r.push(Step::Inject(InputEvent::KeyPress(key)));
    r.push(Step::Pause(TAP_DELAY_MS));
    r.push(Step::Inject(InputEvent::KeyRelease(key)));
    r.push(Step::Pause(TAP_DELAY_MS));
    proof {
        assert(r@ =~= tap_steps_spec(key));
    }
    r
}

/// Builds the steps that click a mouse button: press, then release.
pub fn click_steps(button: Button) -> (r: Vec<Step>)
    ensures
        r@ == click_steps_spec(button),
{
    let mut r: Vec<Step> = Vec::new();
    r.push(Step::Inject(InputEvent::ButtonPress(button)));
    r.push(Step::Pause(TAP_DELAY_MS));
    r.push(Step::Inject(InputEvent::ButtonRelease(button)));
    r.push(Step::Pause(TAP_DELAY_MS));
    proof {
        assert(r@ =~= click_steps_spec(button));
    }
    r
}

/// Builds the steps that move the pointer to an absolute position.
pub fn move_steps(x: u32, y: u32) -> (r: Vec<Step>)
    ensures
        r@ == move_steps_spec(x, y),
{
    let mut r: Vec<Step> = Vec::new();
    r.push(Step::Inject(InputEvent::MouseMove { x, y }));
    r.push(Step::Pause(MOVE_SETTLE_MS));
    proof {
        assert(r@ =~= move_steps_spec(x, y));
    }
    r
}

/// Builds the whole refresh plan.
pub fn refresh_sequence() -> (r: Vec<Step>)
    ensures
        r@ == refresh_sequence_spec(),
{
    let mut show_desktop: Vec<Key> = Vec::new();
    show_desktop.push(Key::MetaLeft);
    show_desktop.push(Key::KeyD);
    proof {
        assert(show_desktop@ =~= show_desktop_keys());
    }
    let mut r = combo_steps(&show_desktop);
    r.push(Step::Pause(DESKTOP_WAIT_MS));

    let (center_x, center_y) = screen_center();
    let mut moved = move_steps(center_x, center_y);
    r.append(&mut moved);
    r.push(Step::Pause(MOVE_WAIT_MS));

    let mut clicked = click_steps(Button::Right);
    r.append(&mut clicked);
    r.push(Step::Pause(MENU_WAIT_MS));

    let mut tapped = tap_steps(Key::KeyR);
    r.append(&mut tapped);
    r.push(Step::Pause(REFRESH_WAIT_MS));

    let mut alt_tab: Vec<Key> = Vec::new();
    alt_tab.push(Key::Alt);
    alt_tab.push(Key::Tab);
    proof {
        assert(alt_tab@ =~= alt_tab_keys());
    }
    let mut switched = combo_steps(&alt_tab);
    r.append(&mut switched);
    r.push(Step::Pause(RESTORE_WAIT_MS));

    proof {
        assert(r@ =~= refresh_sequence_spec());
    }
    r
}

} // verus!

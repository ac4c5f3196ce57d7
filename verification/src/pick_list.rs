//! Display a dropdown list of selectable options.
use vstd::prelude::*;
use crate::keyboard::Modifiers;
use crate::mouse::Interaction;

verus! {

/// Returns the current mouse interaction of a pick list: a pointer while the
/// cursor is over its bounds.
pub fn mouse_interaction(is_mouse_over: bool) -> (r: Interaction)
    ensures
        r == if is_mouse_over { Interaction::Pointer } else { Interaction::Unset },
{
    if is_mouse_over {
        Interaction::Pointer
    } else {
        Interaction::none()
    }
}

/// The first position of `key` among the options from position `i` on, if
/// it is there.
pub open spec fn first_from(options: Seq<u64>, key: u64, i: int) -> Option<int>
    decreases options.len() - i,
{
    if i < 0 || i >= options.len() {
        None
    } else if options[i] == key {
        Some(i)
    } else {
        first_from(options, key, i + 1)
    }
}

/// The last position of `key` among the options before position `i`, if it
/// is there.
pub open spec fn last_before(options: Seq<u64>, key: u64, i: int) -> Option<int>
    decreases i,
{
    if i <= 0 || i > options.len() {
        None
    } else if options[i - 1] == key {
        Some(i - 1)
    } else {
        last_before(options, key, i - 1)
    }
}

proof fn lemma_first_from_range(options: Seq<u64>, key: u64, i: int)
    ensures
        first_from(options, key, i) matches Some(p) ==> i <= p < options.len(),
    decreases options.len() - i,
{
    if 0 <= i < options.len() && options[i] != key {
        lemma_first_from_range(options, key, i + 1);
    }
}

proof fn lemma_last_before_range(options: Seq<u64>, key: u64, i: int)
    ensures
        last_before(options, key, i) matches Some(p) ==> 0 <= p < i,
    decreases i,
{
    if 0 < i <= options.len() && options[i - 1] != key {
        lemma_last_before_range(options, key, i - 1);
    }
}

/// The first position of `key` among the options, if it is there.
pub open spec fn first_position(options: Seq<u64>, key: u64) -> Option<int> {
    first_from(options, key, 0)
}

/// The last position of `key` among the options, if it is there.
pub open spec fn last_position(options: Seq<u64>, key: u64) -> Option<int> {
    last_before(options, key, options.len() as int)
}

/// The state of a pick list that the logic reads: whether its menu is
/// open, the option hovered in it, and the keyboard modifiers. Options are
/// told apart by integer keys.
#[derive(Debug, Clone, Copy, PartialEq, Eq, Structural)]
pub struct State {
    /// Whether the menu is open.
    pub is_open: bool,
    /// The position of the hovered option in the menu.
    pub hovered_option: Option<usize>,
    /// The keyboard modifiers last reported.
    pub keyboard_modifiers: Modifiers,
}

impl State {
    /// The state of a closed pick list.
    pub fn new() -> (r: Self)
        ensures
            !r.is_open,
            r.hovered_option is None,
            r.keyboard_modifiers == (Modifiers { shift: false, control: false, alt: false, logo: false }),
    {
        State { is_open: false, hovered_option: None, keyboard_modifiers: Modifiers::none() }
    }

    /// Handles a left press or a finger press: an open menu closes (the
    /// press was outside it); a closed one opens when the press is over the
    /// pick list, hovering the selected option. Returns whether the event is
    /// captured.
    pub fn press(&mut self, is_over: bool, options: &Vec<u64>, selected: Option<u64>) -> (r: bool)
        ensures
            old(self).is_open ==> r && !final(self).is_open && final(self).hovered_option
                == old(self).hovered_option,
            !old(self).is_open && is_over ==> {
                &&& r
                &&& final(self).is_open
                &&& final(self).hovered_option == match selected {
                    Some(k) => match first_position(options@, k) {
                        Some(i) => Some(i as usize),
                        None => None,
                    },
                    None => None::<usize>,
                }
            },
            !old(self).is_open && !is_over ==> !r && *final(self) == *old(self),
            final(self).keyboard_modifiers == old(self).keyboard_modifiers,
    {
        if self.is_open {
            self.is_open = false;
            true
        } else if is_over {
            self.is_open = true;
            self.hovered_option = match selected {
                Some(k) => position_of(options, k),
                None => None,
            };
            true
        } else {
            false
        }
    }

    /// The keyboard modifiers changed.
    pub fn modifiers_changed(&mut self, modifiers: Modifiers)
        ensures
            final(self).keyboard_modifiers == modifiers,
            final(self).is_open == old(self).is_open,
            final(self).hovered_option == old(self).hovered_option,
    {
        self.keyboard_modifiers = modifiers;
    }

    /// Handles a wheel scroll by lines over a closed pick list with the
    /// command modifier held: scrolling down (`direction < 0`) picks the
    /// option after the selected one (the first with none selected),
    /// scrolling up (`direction > 0`) the one before it (the last with none
    /// selected). Returns whether the event is captured, and the position of
    /// the option to select, if any.
    pub fn wheel(&self, is_over: bool, direction: i8, options: &Vec<u64>, selected: Option<u64>) -> (r: (
        bool,
        Option<usize>,
    ))
        ensures
            r.0 == (self.keyboard_modifiers.control && is_over && !self.is_open),
            !r.0 ==> r.1 is None,
            r.0 ==> r.1 == if direction < 0 {
                match selected {
                    Some(k) => match first_position(options@, k) {
                        Some(i) => if i + 1 < options@.len() {
                            Some((i + 1) as usize)
                        } else {
                            None
                        },
                        None => None,
                    },
                    None => if options@.len() > 0 {
                        Some(0usize)
                    } else {
                        None
                    },
                }
            } else if direction > 0 {
                match selected {
                    Some(k) => match last_position(options@, k) {
                        Some(i) => if i > 0 {
                            Some((i - 1) as usize)
                        } else {
                            None
                        },
                        None => None,
                    },
                    None => if options@.len() > 0 {
                        Some((options@.len() - 1) as usize)
                    } else {
                        None
                    },
                }
            } else {
                None
            },
    {
        if !(self.keyboard_modifiers.command() && is_over && !self.is_open) {
            return (false, None);
        }
        let n = options.len();
        proof {
            if let Some(k) = selected {
                lemma_first_from_range(options@, k, 0);
                lemma_last_before_range(options@, k, options@.len() as int);
            }
        }
        let next = if direction < 0 {
            match selected {
                Some(k) => match position_of(options, k) {
                    Some(i) => if i + 1 < n {
                        Some(i + 1)
                    } else {
                        None
                    },
                    None => None,
                },
                None => if n > 0 {
                    Some(0)
                } else {
                    None
                },
            }
        } else if direction > 0 {
            match selected {
                Some(k) => match last_position_of(options, k) {
                    Some(i) => if i > 0 {
                        Some(i - 1)
                    } else {
                        None
                    },
                    None => None,
                },
                None => if n > 0 {
                    Some(n - 1)
                } else {
                    None
                },
            }
        } else {
            None
        };
        (true, next)
    }
}

/// The first position of `key` among the options.
fn position_of(options: &Vec<u64>, key: u64) -> (r: Option<usize>)
    ensures
        r == match first_position(options@, key) {
            Some(i) => Some(i as usize),
            None => None::<usize>,
        },
        r matches Some(i) ==> i < options@.len(),
{
    proof {
        lemma_first_from_range(options@, key, 0);
    }
    let mut i: usize = 0;
    while i < options.len()
        invariant
            i <= options@.len(),
            first_from(options@, key, 0) == first_from(options@, key, i as int),
        decreases options@.len() - i,
    {
        if options[i] == key {
            return Some(i);
        }
        i += 1;
    }
    None
}

/// The last position of `key` among the options.
fn last_position_of(options: &Vec<u64>, key: u64) -> (r: Option<usize>)
    ensures
        r == match last_position(options@, key) {
            Some(i) => Some(i as usize),
            None => None::<usize>,
        },
        r matches Some(i) ==> i < options@.len(),
{
    proof {
        lemma_last_before_range(options@, key, options@.len() as int);
    }
    let n = options.len();
    let mut i: usize = n;
    while i > 0
        invariant
            i <= n,
            n == options@.len(),
            last_before(options@, key, n as int) == last_before(options@, key, i as int),
        decreases i,
    {
        if options[i - 1] == key {
            return Some(i - 1);
        }
        i -= 1;
    }
    None
}

} // verus!

//! The menu from which a level is chosen.

use vstd::prelude::*;
use crate::state::Level;

verus! {

/// What the player picked in the menu.
#[derive(Clone, Copy, Debug, PartialEq, Eq)]
pub enum MenuChoice {
    /// Play the level with this index.
    Play(usize),
    /// Leave the game.
    Exit,
}

/// The keys that matter to the menu, each pressed in this frame or not.
#[derive(Clone, Copy, Debug, PartialEq, Eq)]
pub struct MenuKeys {
    pub up: bool,
    pub down: bool,
    pub enter: bool,
}

/// A list of options, one of them selected. The options are the names of the
/// levels, in their order, and a last one that leaves the game.
#[derive(Debug)]
pub struct Menu {
    selected: usize,
    options: Vec<&'static str>,
}

/// The selection after the arrow keys of one frame: up moves it one option
/// toward the first, then down moves it one option toward the last, and
/// neither moves it off the list of `count` options.
pub open spec fn moved(selected: int, count: int, keys: MenuKeys) -> int {
    let raised = if keys.up && selected > 0 {
        selected - 1
    } else {
        selected
    };
    if keys.down && raised < count - 1 {
        raised + 1
    } else {
        raised
    }
}

/// What the menu answers when the selection stands at `selected` of `count`
/// options: nothing unless enter was pressed, leaving for the last option, and
/// otherwise the level of that index.
pub open spec fn chosen(selected: int, count: int, keys: MenuKeys) -> Option<MenuChoice> {
    if !keys.enter {
        None
    } else if selected == count - 1 {
        Some(MenuChoice::Exit)
    } else {
        Some(MenuChoice::Play(selected as usize))
    }
}

impl Menu {
    #[verifier::type_invariant]
    spec fn inv(self) -> bool {
        self.selected < self.options@.len()
    }

    /// The index of the selected option.
    pub closed spec fn cursor(self) -> int {
        self.selected as int
    }

    /// The texts of the options, in their order.
    pub closed spec fn labels(self) -> Seq<&'static str> {
        self.options@
    }

    /// Builds the menu for the given levels, with the first option selected.
    pub fn new(levels: &Vec<Level>) -> (menu: Self)
        ensures
            menu.cursor() == 0,
            menu.labels().len() == levels@.len() + 1,
            forall|i: int| 0 <= i < levels@.len() ==> (#[trigger] menu.labels()[i])@ == levels@[i].name@,
            menu.labels()[levels@.len() as int]@ == "Exit"@,
    {
        let mut options: Vec<&'static str> = Vec::new();
        let mut i: usize = 0;
        while i < levels.len()
            invariant
                i <= levels.len(),
                options@.len() == i,
                forall|j: int| 0 <= j < i ==> (#[trigger] options@[j])@ == levels@[j].name@,
            decreases levels.len() - i,
        {
            options.push(levels[i].name);
            i += 1;
        }
        options.push("Exit");
        Self { selected: 0, options }
    }

    /// The index of the selected option.
    pub fn selected(&self) -> (index: usize)
        ensures
            index == self.cursor(),
            index < self.labels().len(),
    {
        proof {
            use_type_invariant(self);
        }
        self.selected
    }

    /// The texts of the options, in their order.
    pub fn options(&self) -> (texts: &Vec<&'static str>)
        ensures
            texts@ == self.labels(),
    {
        &self.options
    }

    /// Applies the keys of one frame: moves the selection, and answers with
    /// the option on which it then stands if enter was pressed.
    pub fn handle_input(&mut self, keys: &MenuKeys) -> (choice: Option<MenuChoice>)
        ensures
            final(self).labels() == old(self).labels(),
            final(self).cursor() == moved(
                old(self).cursor(),
                old(self).labels().len() as int,
                *keys,
            ),
            choice == chosen(final(self).cursor(), old(self).labels().len() as int, *keys),
    {
        proof {
            use_type_invariant(&*self);
        }
        if keys.up && self.selected > 0 {
            self.selected -= 1;
        }
        if keys.down && self.selected < self.options.len() - 1 {
            self.selected += 1;
        }
        if keys.enter {
            if self.selected == self.options.len() - 1 {
                return Some(MenuChoice::Exit);
            }
            return Some(MenuChoice::Play(self.selected));
        }
        None
    }

    /// Runs the menu for one frame. While the answer is `None` the menu stays
    /// open and is to be drawn.
    pub fn update(&mut self, keys: &MenuKeys) -> (choice: Option<MenuChoice>)
        ensures
            final(self).labels() == old(self).labels(),
            final(self).cursor() == moved(
                old(self).cursor(),
                old(self).labels().len() as int,
                *keys,
            ),
            choice == chosen(final(self).cursor(), old(self).labels().len() as int, *keys),
    {
        self.handle_input(keys)
    }
}

impl Clone for Menu {
    /// A menu with the same options and the same selection.
    fn clone(&self) -> (copy: Self)
        ensures
            copy.cursor() == self.cursor(),
            copy.labels() == self.labels(),
    {
        proof {
            use_type_invariant(self);
        }
        let mut options: Vec<&'static str> = Vec::new();
        let mut i: usize = 0;
        while i < self.options.len()
            invariant
                i <= self.options.len(),
                options@ == self.options@.take(i as int),
            decreases self.options.len() - i,
        {
            options.push(self.options[i]);
            i += 1;
        }
        assert(self.options@.take(i as int) == self.options@);
        Self { selected: self.selected, options }
    }
}

} // verus!

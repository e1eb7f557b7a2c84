use vstd::prelude::*;

verus! {

/// What the player picked for the selected party member.
#[derive(Debug, Clone, Copy, PartialEq, Eq, Structural)]
pub enum PartySelectAction {
    Select,
    Summary,
}

/// The keys held down during one frame, as the menu reads them.
#[derive(Debug, Clone, Copy, PartialEq, Eq, Structural)]
pub struct MenuControls {
    pub up: bool,
    pub down: bool,
    pub a: bool,
    pub b: bool,
}

/// One line of option text and where it is drawn.
pub struct TextLine {
    pub text: &'static str,
    pub x: u32,
    pub y: u32,
}

/// Where the menu's parts go on screen, in pixels.
pub struct PartySelectLayout {
    pub background_x: u32,
    pub background_y: u32,
    pub cursor_x: u32,
    pub cursor_y: u32,
    pub lines: Vec<TextLine>,
}

pub const BACKGROUND_X: u32 = 146;
pub const BACKGROUND_Y: u32 = 83;
pub const CURSOR_X: u32 = 154;
pub const CURSOR_Y: u32 = 94;
pub const TEXT_X: u32 = 161;
pub const TEXT_Y: u32 = 93;
pub const LINE_HEIGHT: u32 = 16;

/// How many options the menu offers: four in the overworld, three in battle.
pub open spec fn option_count(is_world: bool) -> nat {
    if is_world {
        4
    } else {
        3
    }
}

/// The text of option `index`.
pub open spec fn option_label(is_world: bool, index: int) -> Seq<char> {
    if is_world {
        if index == 0 {
            "Summary"@
        } else if index == 1 {
            "Switch"@
        } else if index == 2 {
            "Item"@
        } else {
            "Cancel"@
        }
    } else {
        if index == 0 {
            "Shift"@
        } else if index == 1 {
            "Summary"@
        } else {
            "Cancel"@
        }
    }
}

/// The action that confirming option `index` reports, if any.
pub open spec fn action_at(is_world: bool, index: int) -> Option<PartySelectAction> {
    if index == 0 {
        Some(if is_world { PartySelectAction::Summary } else { PartySelectAction::Select })
    } else if index == 1 {
        Some(if is_world { PartySelectAction::Select } else { PartySelectAction::Summary })
    } else {
        None
    }
}

/// Whether option `index` is "Cancel", the last one, which closes the menu.
pub open spec fn closes_at(is_world: bool, index: int) -> bool {
    index + 1 == option_count(is_world)
}

/// The cursor after one frame: up moves it back and down moves it on, each
/// only while that stays on the list; when both are held, down wins.
pub open spec fn moved_cursor(is_world: bool, cursor: int, up: bool, down: bool) -> int {
    if down && cursor + 1 < option_count(is_world) {
        cursor + 1
    } else if up && cursor > 0 {
        cursor - 1
    } else {
        cursor
    }
}

/// Whether `l` is the menu drawn for the given list with the cursor on `cursor`.
pub open spec fn is_layout(l: PartySelectLayout, is_world: bool, cursor: nat) -> bool {
    &&& l.background_x == BACKGROUND_X
    &&& l.background_y == BACKGROUND_Y
    &&& l.cursor_x == CURSOR_X
    &&& l.cursor_y == CURSOR_Y + LINE_HEIGHT * cursor
    &&& l.lines@.len() == option_count(is_world)
    &&& forall|i: int|
        0 <= i < l.lines@.len() ==> {
            &&& (#[trigger] l.lines@[i]).text@ == option_label(is_world, i)
            &&& l.lines@[i].x == TEXT_X
            &&& l.lines@[i].y == TEXT_Y + LINE_HEIGHT * i
        }
}

fn label(is_world: bool, index: usize) -> (r: &'static str)
    requires
        index < option_count(is_world),
    ensures
        r@ == option_label(is_world, index as int),
{
    if is_world {
        if index == 0 {
            "Summary"
        } else if index == 1 {
            "Switch"
        } else if index == 2 {
            "Item"
        } else {
            "Cancel"
        }
    } else {
        if index == 0 {
            "Shift"
        } else if index == 1 {
            "Summary"
        } else {
            "Cancel"
        }
    }
}

/// The state of a `PartySelectMenu`.
pub struct MenuState {
    /// Whether the menu is open.
    pub alive: bool,
    /// The index of the option under the cursor.
    pub cursor: nat,
    /// `None` while the menu has no list to show, else whether it shows the
    /// overworld list or the battle list.
    pub is_world: Option<bool>,
}

/// A menu that lets the player act on one member of the party.
pub struct PartySelectMenu {
    alive: bool,
    cursor: usize,
    is_world: Option<bool>,
}

impl View for PartySelectMenu {
    type V = MenuState;

    closed spec fn view(&self) -> MenuState {
        MenuState { alive: self.alive, cursor: self.cursor as nat, is_world: self.is_world }
    }
}

impl PartySelectMenu {
    /// The cursor never passes the longest list.
    pub closed spec fn wf(&self) -> bool {
        self.cursor < 4
    }

    /// A closed menu, with no list chosen and the cursor on the first option.
    pub fn new() -> (r: Self)
        ensures
            r.wf(),
            r@ == (MenuState { alive: false, cursor: 0, is_world: None }),
    {
        PartySelectMenu { alive: false, cursor: 0, is_world: None }
    }

    /// The index of the option under the cursor.
    pub fn cursor(&self) -> (r: usize)
        ensures
            r == self@.cursor,
    {
        self.cursor
    }

    /// Whether the menu is open.
    pub fn alive(&self) -> (r: bool)
        ensures
            r == self@.alive,
    {
        self.alive
    }

    /// Opens or closes the menu, leaving the cursor where it is.
    pub fn set_alive(&mut self, alive: bool)
        ensures
            final(self).wf() == old(self).wf(),
            final(self)@ == (MenuState { alive, ..old(self)@ }),
    {
        self.alive = alive;
    }

    /// Which list the menu shows: overworld, battle, or none.
    pub fn is_world(&self) -> (r: Option<bool>)
        ensures
            r == self@.is_world,
    {
        self.is_world
    }

    /// Chooses which list the menu shows, or none. The cursor stays where it
    /// is, also past the end of a shorter list, where confirming does nothing.
    pub fn set_world(&mut self, is_world: Option<bool>)
        ensures
            final(self).wf() == old(self).wf(),
            final(self)@ == (MenuState { is_world, ..old(self)@ }),
    {
        self.is_world = is_world;
    }

    /// Reads one frame of input. The cursor moves first; then `b` closes the
    /// menu, and `a` confirms the option under the moved cursor: it reports
    /// that option's action, or closes the menu on "Cancel". Without a list
    /// nothing happens.
    pub fn input(&mut self, controls: MenuControls) -> (r: Option<PartySelectAction>)
        requires
            old(self).wf(),
        ensures
            final(self).wf(),
            final(self)@.is_world == old(self)@.is_world,
            match old(self)@.is_world {
                None => {
                    &&& r.is_none()
                    &&& final(self)@.alive == old(self)@.alive
                    &&& final(self)@.cursor == old(self)@.cursor
                },
                Some(w) => {
                    let c = moved_cursor(w, old(self)@.cursor as int, controls.up, controls.down);
                    &&& final(self)@.cursor == c
                    &&& r == (if controls.a { action_at(w, c) } else { None })
                    &&& final(self)@.alive == (old(self)@.alive && !controls.b && !(controls.a
                        && closes_at(w, c)))
                },
            },
    {
        match self.is_world {
            None => None,
            Some(is_world) => {
                let count: usize = if is_world { 4 } else { 3 };
                let cursor = self.cursor;
                if controls.up && cursor > 0 {
                    self.cursor = cursor - 1;
                }
                if controls.down && cursor + 1 < count {
                    self.cursor = cursor + 1;
                }
                if controls.b {
                    self.alive = false;
                }
                if controls.a {
                    let cursor = self.cursor;
                    if cursor + 1 == count {
                        self.alive = false;
                    }
                    if cursor == 0 {
                        Some(if is_world { PartySelectAction::Summary } else { PartySelectAction::Select })
                    } else if cursor == 1 {
                        Some(if is_world { PartySelectAction::Select } else { PartySelectAction::Summary })
                    } else {
                        None
                    }
                } else {
                    None
                }
            },
        }
    }

    /// What to draw this frame: nothing while the menu is closed or has no
    /// list, else the background, the cursor beside the selected option, and
    /// the options one under another.
    pub fn draw(&self) -> (r: Option<PartySelectLayout>)
        requires
            self.wf(),
        ensures
            match r {
                None => !self@.alive || self@.is_world.is_none(),
                Some(l) => self@.alive && self@.is_world.is_some() && is_layout(
                    l,
                    self@.is_world.unwrap(),
                    self@.cursor,
                ),
            },
    {
        if !self.alive {
            return None;
        }
        match self.is_world {
            None => None,
            Some(is_world) => {
                let count: usize = if is_world { 4 } else { 3 };
                let mut lines: Vec<TextLine> = Vec::new();
                let mut i: usize = 0;
                while i < count
                    invariant
                        count == option_count(is_world),
                        i <= count,
                        lines@.len() == i,
                        forall|j: int|
                            0 <= j < i ==> {
                                &&& (#[trigger] lines@[j]).text@ == option_label(is_world, j)
                                &&& lines@[j].x == TEXT_X
                                &&& lines@[j].y == TEXT_Y + LINE_HEIGHT * j
                            },
                    decreases count - i,
                {
                    lines.push(TextLine { text: label(is_world, i), x: TEXT_X, y: TEXT_Y + LINE_HEIGHT * (i as u32) });
                    i = i + 1;
                }
                Some(
                    PartySelectLayout {
                        background_x: BACKGROUND_X,
                        background_y: BACKGROUND_Y,
                        cursor_x: CURSOR_X,
                        cursor_y: CURSOR_Y + LINE_HEIGHT * (self.cursor as u32),
                        lines,
                    },
                )
            },
        }
    }

    /// Opens a closed menu or closes an open one, and puts the cursor back on
    /// the first option.
    pub fn toggle(&mut self)
        ensures
            final(self).wf(),
            final(self)@.alive == !old(self)@.alive,
            final(self)@.cursor == 0,
            final(self)@.is_world == old(self)@.is_world,
    {
        self.alive = !self.alive;
        self.reset();
    }

    /// Puts the cursor back on the first option.
    pub fn reset(&mut self)
        ensures
            final(self).wf(),
            final(self)@.cursor == 0,
            final(self)@.alive == old(self)@.alive,
            final(self)@.is_world == old(self)@.is_world,
    {
        self.cursor = 0;
    }
}

} // verus!

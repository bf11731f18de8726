//! The layout catalog shared by the layout cycle, the layout picker and the
//! status-bar protocol.
use crate::text::{lowered, str_eq, to_ascii_lower, trim, trimmed};
use vstd::prelude::*;

verus! {

/// A window layout. `ANY` stands for no layout of the catalog.
#[allow(non_camel_case_types)]
#[derive(Debug, Clone, Copy, PartialEq, Eq, Structural)]
pub enum LayoutEnum {
    TILE,
    FIBONACCI,
    CENTERED_MASTER,
    BSTACK,
    GRID,
    DECK,
    THREE_COL,
    TATAMI,
    MONOCLE,
    FULLSCREEN,
    SCROLLING,
    VSTACK,
    FLOAT,
    ANY,
}

/// Every layout of the catalog, in cycle order.
pub open spec fn catalog() -> Seq<LayoutEnum> {
    seq![
        LayoutEnum::TILE,
        LayoutEnum::FIBONACCI,
        LayoutEnum::CENTERED_MASTER,
        LayoutEnum::BSTACK,
        LayoutEnum::GRID,
        LayoutEnum::DECK,
        LayoutEnum::THREE_COL,
        LayoutEnum::TATAMI,
        LayoutEnum::MONOCLE,
        LayoutEnum::FULLSCREEN,
        LayoutEnum::SCROLLING,
        LayoutEnum::VSTACK,
        LayoutEnum::FLOAT,
    ]
}

impl LayoutEnum {
    /// The name the layout goes by in configuration files.
    pub open spec fn name_of(self) -> Seq<char> {
        match self {
            LayoutEnum::TILE => "tile"@,
            LayoutEnum::FIBONACCI => "fibonacci"@,
            LayoutEnum::CENTERED_MASTER => "centeredmaster"@,
            LayoutEnum::BSTACK => "bstack"@,
            LayoutEnum::GRID => "grid"@,
            LayoutEnum::DECK => "deck"@,
            LayoutEnum::THREE_COL => "threecol"@,
            LayoutEnum::TATAMI => "tatami"@,
            LayoutEnum::MONOCLE => "monocle"@,
            LayoutEnum::FULLSCREEN => "fullscreen"@,
            LayoutEnum::SCROLLING => "scrolling"@,
            LayoutEnum::VSTACK => "vstack"@,
            LayoutEnum::FLOAT => "float"@,
            LayoutEnum::ANY => ""@,
        }
    }

    /// The short symbol a status bar shows.
    pub open spec fn symbol_of(self) -> Seq<char> {
        match self {
            LayoutEnum::TILE => "[]="@,
            LayoutEnum::FIBONACCI => "[@]"@,
            LayoutEnum::CENTERED_MASTER => "|M|"@,
            LayoutEnum::BSTACK => "TTT"@,
            LayoutEnum::GRID => "HHH"@,
            LayoutEnum::DECK => "[D]"@,
            LayoutEnum::THREE_COL => "|||"@,
            LayoutEnum::TATAMI => "|+|"@,
            LayoutEnum::MONOCLE => "[M]"@,
            LayoutEnum::FULLSCREEN => "[F]"@,
            LayoutEnum::SCROLLING => "[S]"@,
            LayoutEnum::VSTACK => "[V]"@,
            LayoutEnum::FLOAT => "><>"@,
            LayoutEnum::ANY => ""@,
        }
    }

    /// The name shown to people.
    pub open spec fn label_of(self) -> Seq<char> {
        match self {
            LayoutEnum::TILE => "Tile"@,
            LayoutEnum::FIBONACCI => "Fibonacci"@,
            LayoutEnum::CENTERED_MASTER => "Centered Master"@,
            LayoutEnum::BSTACK => "Bottom Stack"@,
            LayoutEnum::GRID => "Grid"@,
            LayoutEnum::DECK => "Deck"@,
            LayoutEnum::THREE_COL => "Three Columns"@,
            LayoutEnum::TATAMI => "Tatami"@,
            LayoutEnum::MONOCLE => "Monocle"@,
            LayoutEnum::FULLSCREEN => "Fullscreen"@,
            LayoutEnum::SCROLLING => "Scrolling"@,
            LayoutEnum::VSTACK => "Vertical Stack"@,
            LayoutEnum::FLOAT => "Float"@,
            LayoutEnum::ANY => "Layout"@,
        }
    }

    /// The identifier on the status-bar protocol.
    pub open spec fn id_of(self) -> Option<u32> {
        match self {
            LayoutEnum::TILE => Some(0),
            LayoutEnum::FIBONACCI => Some(3),
            LayoutEnum::CENTERED_MASTER => Some(4),
            LayoutEnum::BSTACK => Some(5),
            LayoutEnum::GRID => Some(6),
            LayoutEnum::DECK => Some(7),
            LayoutEnum::THREE_COL => Some(8),
            LayoutEnum::TATAMI => Some(9),
            LayoutEnum::MONOCLE => Some(2),
            LayoutEnum::FULLSCREEN => Some(10),
            LayoutEnum::SCROLLING => Some(11),
            LayoutEnum::VSTACK => Some(12),
            LayoutEnum::FLOAT => Some(1),
            LayoutEnum::ANY => None,
        }
    }

    /// The position in the cycle; 0 for a layout that is not in it.
    pub open spec fn index_of(self) -> int {
        match self {
            LayoutEnum::TILE => 0,
            LayoutEnum::FIBONACCI => 1,
            LayoutEnum::CENTERED_MASTER => 2,
            LayoutEnum::BSTACK => 3,
            LayoutEnum::GRID => 4,
            LayoutEnum::DECK => 5,
            LayoutEnum::THREE_COL => 6,
            LayoutEnum::TATAMI => 7,
            LayoutEnum::MONOCLE => 8,
            LayoutEnum::FULLSCREEN => 9,
            LayoutEnum::SCROLLING => 10,
            LayoutEnum::VSTACK => 11,
            LayoutEnum::FLOAT => 12,
            LayoutEnum::ANY => 0,
        }
    }

    /// The layout that a protocol identifier names; `ANY` when none does.
    pub open spec fn with_id(id: u32) -> LayoutEnum {
        match id {
            0 => LayoutEnum::TILE,
            1 => LayoutEnum::FLOAT,
            2 => LayoutEnum::MONOCLE,
            3 => LayoutEnum::FIBONACCI,
            4 => LayoutEnum::CENTERED_MASTER,
            5 => LayoutEnum::BSTACK,
            6 => LayoutEnum::GRID,
            7 => LayoutEnum::DECK,
            8 => LayoutEnum::THREE_COL,
            9 => LayoutEnum::TATAMI,
            10 => LayoutEnum::FULLSCREEN,
            11 => LayoutEnum::SCROLLING,
            12 => LayoutEnum::VSTACK,
            _ => LayoutEnum::ANY,
        }
    }

    /// The layout that goes by exactly this name.
    pub open spec fn named(name: Seq<char>) -> Option<LayoutEnum> {
        if name == "tile"@ {
            Some(LayoutEnum::TILE)
        } else if name == "fibonacci"@ {
            Some(LayoutEnum::FIBONACCI)
        } else if name == "centeredmaster"@ {
            Some(LayoutEnum::CENTERED_MASTER)
        } else if name == "bstack"@ {
            Some(LayoutEnum::BSTACK)
        } else if name == "grid"@ {
            Some(LayoutEnum::GRID)
        } else if name == "deck"@ {
            Some(LayoutEnum::DECK)
        } else if name == "threecol"@ {
            Some(LayoutEnum::THREE_COL)
        } else if name == "tatami"@ {
            Some(LayoutEnum::TATAMI)
        } else if name == "monocle"@ {
            Some(LayoutEnum::MONOCLE)
        } else if name == "fullscreen"@ {
            Some(LayoutEnum::FULLSCREEN)
        } else if name == "scrolling"@ {
            Some(LayoutEnum::SCROLLING)
        } else if name == "vstack"@ {
            Some(LayoutEnum::VSTACK)
        } else if name == "float"@ {
            Some(LayoutEnum::FLOAT)
        } else {
            None
        }
    }

    /// The name the layout goes by in configuration files.
    pub fn name(&self) -> (r: &'static str)
        ensures
            r@ == self.name_of(),
    {
        match *self {
            LayoutEnum::TILE => "tile",
            LayoutEnum::FIBONACCI => "fibonacci",
            LayoutEnum::CENTERED_MASTER => "centeredmaster",
            LayoutEnum::BSTACK => "bstack",
            LayoutEnum::GRID => "grid",
            LayoutEnum::DECK => "deck",
            LayoutEnum::THREE_COL => "threecol",
            LayoutEnum::TATAMI => "tatami",
            LayoutEnum::MONOCLE => "monocle",
            LayoutEnum::FULLSCREEN => "fullscreen",
            LayoutEnum::SCROLLING => "scrolling",
            LayoutEnum::VSTACK => "vstack",
            LayoutEnum::FLOAT => "float",
            LayoutEnum::ANY => "",
        }
    }

    /// The short symbol a status bar shows.
    pub fn symbol(&self) -> (r: &'static str)
        ensures
            r@ == self.symbol_of(),
    {
        match *self {
            LayoutEnum::TILE => "[]=",
            LayoutEnum::FIBONACCI => "[@]",
            LayoutEnum::CENTERED_MASTER => "|M|",
            LayoutEnum::BSTACK => "TTT",
            LayoutEnum::GRID => "HHH",
            LayoutEnum::DECK => "[D]",
            LayoutEnum::THREE_COL => "|||",
            LayoutEnum::TATAMI => "|+|",
            LayoutEnum::MONOCLE => "[M]",
            LayoutEnum::FULLSCREEN => "[F]",
            LayoutEnum::SCROLLING => "[S]",
            LayoutEnum::VSTACK => "[V]",
            LayoutEnum::FLOAT => "><>",
            LayoutEnum::ANY => "",
        }
    }

    /// Human-facing name, for UI that has room for more than the symbol.
    pub fn label(&self) -> (r: &'static str)
        ensures
            r@ == self.label_of(),
    {
        match *self {
            LayoutEnum::TILE => "Tile",
            LayoutEnum::FIBONACCI => "Fibonacci",
            LayoutEnum::CENTERED_MASTER => "Centered Master",
            LayoutEnum::BSTACK => "Bottom Stack",
            LayoutEnum::GRID => "Grid",
            LayoutEnum::DECK => "Deck",
            LayoutEnum::THREE_COL => "Three Columns",
            LayoutEnum::TATAMI => "Tatami",
            LayoutEnum::MONOCLE => "Monocle",
            LayoutEnum::FULLSCREEN => "Fullscreen",
            LayoutEnum::SCROLLING => "Scrolling",
            LayoutEnum::VSTACK => "Vertical Stack",
            LayoutEnum::FLOAT => "Float",
            LayoutEnum::ANY => "Layout",
        }
    }

    /// Identifier this layout travels under on the status-bar protocol. A
    /// layout outside the catalog has no wire representation and reports
    /// `None` rather than a plausible-looking zero.
    pub fn protocol_id(&self) -> (r: Option<u32>)
        ensures
            r == self.id_of(),
    {
        match *self {
            LayoutEnum::TILE => Some(0),
            LayoutEnum::FIBONACCI => Some(3),
            LayoutEnum::CENTERED_MASTER => Some(4),
            LayoutEnum::BSTACK => Some(5),
            LayoutEnum::GRID => Some(6),
            LayoutEnum::DECK => Some(7),
            LayoutEnum::THREE_COL => Some(8),
            LayoutEnum::TATAMI => Some(9),
            LayoutEnum::MONOCLE => Some(2),
            LayoutEnum::FULLSCREEN => Some(10),
            LayoutEnum::SCROLLING => Some(11),
            LayoutEnum::VSTACK => Some(12),
            LayoutEnum::FLOAT => Some(1),
            LayoutEnum::ANY => None,
        }
    }

    /// Whether the layout arranges windows itself.
    pub fn is_tile(&self) -> (r: bool)
        ensures
            r == !(*self == LayoutEnum::FLOAT || *self == LayoutEnum::MONOCLE || *self
                == LayoutEnum::ANY),
    {
        !matches!(*self, LayoutEnum::FLOAT | LayoutEnum::MONOCLE | LayoutEnum::ANY)
    }

    /// Whether windows are placed by hand.
    pub fn is_float(&self) -> (r: bool)
        ensures
            r == (*self == LayoutEnum::FLOAT),
    {
        matches!(*self, LayoutEnum::FLOAT)
    }

    /// Whether one window covers the others.
    pub fn is_monocle(&self) -> (r: bool)
        ensures
            r == (*self == LayoutEnum::MONOCLE || *self == LayoutEnum::FULLSCREEN),
    {
        matches!(*self, LayoutEnum::MONOCLE | LayoutEnum::FULLSCREEN)
    }

    /// Whether the layout gives a window the whole screen.
    pub fn is_fullscreen_layout(&self) -> (r: bool)
        ensures
            r == (*self == LayoutEnum::FULLSCREEN),
    {
        matches!(*self, LayoutEnum::FULLSCREEN)
    }

    /// Every layout, in the order the cycle visits them. This is what the
    /// layout picker lays out on its film strip.
    pub fn all() -> (r: Vec<LayoutEnum>)
        ensures
            r@ == catalog(),
    {
        let all = vec![
            LayoutEnum::TILE,
            LayoutEnum::FIBONACCI,
            LayoutEnum::CENTERED_MASTER,
            LayoutEnum::BSTACK,
            LayoutEnum::GRID,
            LayoutEnum::DECK,
            LayoutEnum::THREE_COL,
            LayoutEnum::TATAMI,
            LayoutEnum::MONOCLE,
            LayoutEnum::FULLSCREEN,
            LayoutEnum::SCROLLING,
            LayoutEnum::VSTACK,
            LayoutEnum::FLOAT,
        ];
        assert(all@ == catalog());
        all
    }

    /// Position in [`LayoutEnum::all`], or 0 for a layout that is not in it.
    pub fn cycle_index(&self) -> (r: usize)
        ensures
            r == self.index_of(),
    {
        match *self {
            LayoutEnum::TILE => 0,
            LayoutEnum::FIBONACCI => 1,
            LayoutEnum::CENTERED_MASTER => 2,
            LayoutEnum::BSTACK => 3,
            LayoutEnum::GRID => 4,
            LayoutEnum::DECK => 5,
            LayoutEnum::THREE_COL => 6,
            LayoutEnum::TATAMI => 7,
            LayoutEnum::MONOCLE => 8,
            LayoutEnum::FULLSCREEN => 9,
            LayoutEnum::SCROLLING => 10,
            LayoutEnum::VSTACK => 11,
            LayoutEnum::FLOAT => 12,
            LayoutEnum::ANY => 0,
        }
    }

    /// The layout after this one in the cycle.
    pub fn cycle_next(&self) -> (r: LayoutEnum)
        ensures
            r == catalog()[(self.index_of() + 1) % 13],
    {
        let cycle = Self::all();
        let next: usize = self.cycle_index() + 1;
        if next == cycle.len() {
            cycle[0]
        } else {
            cycle[next]
        }
    }

    /// The layout before this one in the cycle.
    pub fn cycle_prev(&self) -> (r: LayoutEnum)
        ensures
            r == catalog()[(self.index_of() + 12) % 13],
    {
        let cycle = Self::all();
        let index: usize = self.cycle_index();
        if index == 0 {
            cycle[cycle.len() - 1]
        } else {
            cycle[index - 1]
        }
    }

    /// The layout `name` identifies, up to surrounding white space and ASCII
    /// case, or `None` when nothing goes by that name.
    pub fn from_name(name: &str) -> (r: Option<LayoutEnum>)
        ensures
            r == Self::named(lowered(trimmed(name@))),
    {
        let text = trim(name);
        let name = to_ascii_lower(text.as_str());
        Self::by_name(name.as_str())
    }

    /// The layout that goes by exactly this name.
    pub fn by_name(name: &str) -> (r: Option<LayoutEnum>)
        ensures
            r == Self::named(name@),
    {
        if str_eq(name, "tile") {
            Some(LayoutEnum::TILE)
        } else if str_eq(name, "fibonacci") {
            Some(LayoutEnum::FIBONACCI)
        } else if str_eq(name, "centeredmaster") {
            Some(LayoutEnum::CENTERED_MASTER)
        } else if str_eq(name, "bstack") {
            Some(LayoutEnum::BSTACK)
        } else if str_eq(name, "grid") {
            Some(LayoutEnum::GRID)
        } else if str_eq(name, "deck") {
            Some(LayoutEnum::DECK)
        } else if str_eq(name, "threecol") {
            Some(LayoutEnum::THREE_COL)
        } else if str_eq(name, "tatami") {
            Some(LayoutEnum::TATAMI)
        } else if str_eq(name, "monocle") {
            Some(LayoutEnum::MONOCLE)
        } else if str_eq(name, "fullscreen") {
            Some(LayoutEnum::FULLSCREEN)
        } else if str_eq(name, "scrolling") {
            Some(LayoutEnum::SCROLLING)
        } else if str_eq(name, "vstack") {
            Some(LayoutEnum::VSTACK)
        } else if str_eq(name, "float") {
            Some(LayoutEnum::FLOAT)
        } else {
            None
        }
    }
}

/// Protocol identifier to layout, as a status bar sends it.
///
/// An identifier outside the catalog resolves to [`LayoutEnum::ANY`], which a
/// layout change treats as "leave the layout alone".
impl From<u32> for LayoutEnum {
    fn from(value: u32) -> (r: LayoutEnum) {
        match value {
            0 => LayoutEnum::TILE,
            1 => LayoutEnum::FLOAT,
            2 => LayoutEnum::MONOCLE,
            3 => LayoutEnum::FIBONACCI,
            4 => LayoutEnum::CENTERED_MASTER,
            5 => LayoutEnum::BSTACK,
            6 => LayoutEnum::GRID,
            7 => LayoutEnum::DECK,
            8 => LayoutEnum::THREE_COL,
            9 => LayoutEnum::TATAMI,
            10 => LayoutEnum::FULLSCREEN,
            11 => LayoutEnum::SCROLLING,
            12 => LayoutEnum::VSTACK,
            _ => LayoutEnum::ANY,
        }
    }
}

impl vstd::std_specs::convert::FromSpecImpl<u32> for LayoutEnum {
    open spec fn obeys_from_spec() -> bool {
        true
    }

    open spec fn from_spec(value: u32) -> LayoutEnum {
        LayoutEnum::with_id(value)
    }
}

/// Every catalog layout comes back from its own wire identifier.
pub proof fn protocol_id_round_trips(layout: LayoutEnum)
    requires
        layout != LayoutEnum::ANY,
    ensures
        layout.id_of() is Some,
        LayoutEnum::with_id(layout.id_of()->0) == layout,
{
}

/// An identifier that names a layout is that layout's own; one that names none
/// is no layout's.
pub proof fn with_id_is_exact(id: u32)
    ensures
        LayoutEnum::with_id(id) != LayoutEnum::ANY ==> LayoutEnum::with_id(id).id_of() == Some(id),
        LayoutEnum::with_id(id) == LayoutEnum::ANY ==> forall|l: LayoutEnum|
            #[trigger] l.id_of() != Some(id),
{
}

/// Every catalog layout comes back from its own name.
pub proof fn name_round_trips(layout: LayoutEnum)
    requires
        layout != LayoutEnum::ANY,
    ensures
        LayoutEnum::named(layout.name_of()) == Some(layout),
{
    reveal_strlit("tile");
    reveal_strlit("fibonacci");
    reveal_strlit("centeredmaster");
    reveal_strlit("bstack");
    reveal_strlit("grid");
    reveal_strlit("deck");
    reveal_strlit("threecol");
    reveal_strlit("tatami");
    reveal_strlit("monocle");
    reveal_strlit("fullscreen");
    reveal_strlit("scrolling");
    reveal_strlit("vstack");
    reveal_strlit("float");
    assert("tile"@.len() == 4);
    assert("fibonacci"@.len() == 9);
    assert("centeredmaster"@.len() == 14);
    assert("bstack"@.len() == 6);
    assert("grid"@.len() == 4);
    assert("deck"@.len() == 4);
    assert("threecol"@.len() == 8);
    assert("tatami"@.len() == 6);
    assert("monocle"@.len() == 7);
    assert("fullscreen"@.len() == 10);
    assert("scrolling"@.len() == 9);
    assert("vstack"@.len() == 6);
    assert("float"@.len() == 5);
    assert("tile"@[0] == 't' && "grid"@[0] == 'g' && "deck"@[0] == 'd');
    assert("bstack"@[0] == 'b' && "tatami"@[0] == 't' && "vstack"@[0] == 'v');
    assert("fibonacci"@[0] == 'f' && "scrolling"@[0] == 's');
}

/// One step forward and one step back through the cycle lead back to the same
/// layout, in either order.
pub proof fn cycle_steps_are_inverse(layout: LayoutEnum)
    requires
        layout != LayoutEnum::ANY,
    ensures
        catalog()[layout.index_of()] == layout,
        catalog()[(catalog()[(layout.index_of() + 1) % 13].index_of() + 12) % 13] == layout,
        catalog()[(catalog()[(layout.index_of() + 12) % 13].index_of() + 1) % 13] == layout,
{
}

/// No two layouts have the same symbol, and every symbol is three characters
/// wide.
pub proof fn symbols_tell_layouts_apart(a: LayoutEnum, b: LayoutEnum)
    requires
        a != LayoutEnum::ANY,
        b != LayoutEnum::ANY,
    ensures
        a.symbol_of() == b.symbol_of() <==> a == b,
        a.symbol_of().len() == 3,
{
    reveal_strlit("[]=");
    reveal_strlit("[@]");
    reveal_strlit("|M|");
    reveal_strlit("TTT");
    reveal_strlit("HHH");
    reveal_strlit("[D]");
    reveal_strlit("|||");
    reveal_strlit("|+|");
    reveal_strlit("[M]");
    reveal_strlit("[F]");
    reveal_strlit("[S]");
    reveal_strlit("[V]");
    reveal_strlit("><>");
    assert("[]="@[0] == '[' && "[]="@[1] == ']');
    assert("[@]"@[0] == '[' && "[@]"@[1] == '@');
    assert("|M|"@[0] == '|' && "|M|"@[1] == 'M');
    assert("TTT"@[0] == 'T' && "TTT"@[1] == 'T');
    assert("HHH"@[0] == 'H' && "HHH"@[1] == 'H');
    assert("[D]"@[0] == '[' && "[D]"@[1] == 'D');
    assert("|||"@[0] == '|' && "|||"@[1] == '|');
    assert("|+|"@[0] == '|' && "|+|"@[1] == '+');
    assert("[M]"@[0] == '[' && "[M]"@[1] == 'M');
    assert("[F]"@[0] == '[' && "[F]"@[1] == 'F');
    assert("[S]"@[0] == '[' && "[S]"@[1] == 'S');
    assert("[V]"@[0] == '[' && "[V]"@[1] == 'V');
    assert("><>"@[0] == '>' && "><>"@[1] == '<');
}

/// No two layouts are shown to people under the same name.
pub proof fn labels_tell_layouts_apart(a: LayoutEnum, b: LayoutEnum)
    ensures
        a.label_of() == b.label_of() <==> a == b,
        a.label_of().len() > 0,
{
    reveal_strlit("Tile");
    reveal_strlit("Fibonacci");
    reveal_strlit("Centered Master");
    reveal_strlit("Bottom Stack");
    reveal_strlit("Grid");
    reveal_strlit("Deck");
    reveal_strlit("Three Columns");
    reveal_strlit("Tatami");
    reveal_strlit("Monocle");
    reveal_strlit("Fullscreen");
    reveal_strlit("Scrolling");
    reveal_strlit("Vertical Stack");
    reveal_strlit("Float");
    reveal_strlit("Layout");
    assert("Tile"@.len() == 4 && "Tile"@[0] == 'T');
    assert("Fibonacci"@.len() == 9 && "Fibonacci"@[0] == 'F');
    assert("Centered Master"@.len() == 15 && "Centered Master"@[0] == 'C');
    assert("Bottom Stack"@.len() == 12 && "Bottom Stack"@[0] == 'B');
    assert("Grid"@.len() == 4 && "Grid"@[0] == 'G');
    assert("Deck"@.len() == 4 && "Deck"@[0] == 'D');
    assert("Three Columns"@.len() == 13 && "Three Columns"@[0] == 'T');
    assert("Tatami"@.len() == 6 && "Tatami"@[0] == 'T');
    assert("Monocle"@.len() == 7 && "Monocle"@[0] == 'M');
    assert("Fullscreen"@.len() == 10 && "Fullscreen"@[0] == 'F');
    assert("Scrolling"@.len() == 9 && "Scrolling"@[0] == 'S');
    assert("Vertical Stack"@.len() == 14 && "Vertical Stack"@[0] == 'V');
    assert("Float"@.len() == 5 && "Float"@[0] == 'F');
    assert("Layout"@.len() == 6 && "Layout"@[0] == 'L');
}

} // verus!

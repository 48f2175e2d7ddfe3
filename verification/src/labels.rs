use vstd::prelude::*;
use crate::text::text_eq;

verus! {

/// How an item is marked so that it can be scanned.
#[derive(Clone, Copy, Debug, PartialEq, Eq, Structural)]
pub enum Record {
    Qr,
    Barcode,
    Nothing,
}

/// The colour of a printed label.
#[derive(Clone, Copy, Debug, PartialEq, Eq, Structural)]
pub enum Color {
    Red,
    Orange,
    Brown,
    SkyBlue,
    Blue,
    Green,
    Yellow,
    Purple,
    Pink,
}

/// A printed label: its visible id and its colour.
#[derive(Clone, Debug)]
pub struct Label {
    pub visible_id: String,
    pub color: Color,
}

/// The body of a request that registers a label by hand.
#[derive(Clone, Debug)]
pub struct LabelModelData {
    pub visible_id: String,
    pub color: String,
}

impl LabelModelData {
    /// The label that the request registers; its colour is read as
    /// `label_color_from_name` reads it.
    pub fn to_label(&self) -> (r: Label)
        ensures
            r.visible_id@ == self.visible_id@,
            r.color == admin_label_color(self.color@),
            self.color@ == "orange"@ ==> r.color == Color::Blue,
            self.color@ != "orange"@ ==> (color_named(self.color@) matches Some(c) ==> r.color == c),
            color_named(self.color@) is None ==> r.color == Color::Red,
    {
        Label { visible_id: self.visible_id.clone(), color: label_color_from_name(self.color.as_str()) }
    }
}

/// The record kind that a lower-case CSV cell names.
pub open spec fn record_named(name: Seq<char>) -> Option<Record> {
    if name == "qr"@ {
        Some(Record::Qr)
    } else if name == "barcode"@ {
        Some(Record::Barcode)
    } else if name == "nothing"@ {
        Some(Record::Nothing)
    } else {
        None
    }
}

/// The colour that a lower-case colour name stands for.
pub open spec fn color_named(name: Seq<char>) -> Option<Color> {
    if name == "red"@ {
        Some(Color::Red)
    } else if name == "orange"@ {
        Some(Color::Orange)
    } else if name == "brown"@ {
        Some(Color::Brown)
    } else if name == "skyblue"@ {
        Some(Color::SkyBlue)
    } else if name == "blue"@ {
        Some(Color::Blue)
    } else if name == "green"@ {
        Some(Color::Green)
    } else if name == "yellow"@ {
        Some(Color::Yellow)
    } else if name == "purple"@ {
        Some(Color::Purple)
    } else if name == "pink"@ {
        Some(Color::Pink)
    } else {
        None
    }
}

/// The names of the record kinds and of the colours, as the CSV files and the admin end
/// point write them: `qr`, `barcode`, `nothing`; `red`, `orange`, `brown`, `skyblue`,
/// `blue`, `green`, `yellow`, `purple`, `pink`. Each names its own record kind or colour.
pub proof fn lemma_name_tables()
    ensures
        record_named("qr"@) == Some(Record::Qr),
        record_named("barcode"@) == Some(Record::Barcode),
        record_named("nothing"@) == Some(Record::Nothing),
        color_named("red"@) == Some(Color::Red),
        color_named("orange"@) == Some(Color::Orange),
        color_named("brown"@) == Some(Color::Brown),
        color_named("skyblue"@) == Some(Color::SkyBlue),
        color_named("blue"@) == Some(Color::Blue),
        color_named("green"@) == Some(Color::Green),
        color_named("yellow"@) == Some(Color::Yellow),
        color_named("purple"@) == Some(Color::Purple),
        color_named("pink"@) == Some(Color::Pink),
{
    reveal_strlit("qr");
    reveal_strlit("barcode");
    reveal_strlit("nothing");
    reveal_strlit("red");
    reveal_strlit("orange");
    reveal_strlit("brown");
    reveal_strlit("skyblue");
    reveal_strlit("blue");
    reveal_strlit("green");
    reveal_strlit("yellow");
    reveal_strlit("purple");
    reveal_strlit("pink");
    assert("qr"@[0] == 'q' && "barcode"@[0] == 'b' && "nothing"@[0] == 'n');
    assert("orange"@[0] == 'o' && "brown"@[0] == 'b' && "skyblue"@[0] == 's');
    assert("blue"@[0] == 'b' && "green"@[0] == 'g' && "yellow"@[0] == 'y');
    assert("purple"@[0] == 'p' && "pink"@[0] == 'p' && "red"@[0] == 'r');
    assert("brown"@[1] == 'r' && "blue"@[1] == 'l' && "purple"@[1] == 'u' && "pink"@[1] == 'i');
}

/// The colour that the admin end point stores for each colour name: the colour the name
/// stands for, except that `orange` is stored as blue.
pub proof fn lemma_admin_colour_table()
    ensures
        admin_label_color("red"@) == Color::Red,
        admin_label_color("orange"@) == Color::Blue,
        admin_label_color("brown"@) == Color::Brown,
        admin_label_color("skyblue"@) == Color::SkyBlue,
        admin_label_color("blue"@) == Color::Blue,
        admin_label_color("green"@) == Color::Green,
        admin_label_color("yellow"@) == Color::Yellow,
        admin_label_color("purple"@) == Color::Purple,
        admin_label_color("pink"@) == Color::Pink,
{
    lemma_name_tables();
    reveal_strlit("orange");
    reveal_strlit("red");
    reveal_strlit("brown");
    reveal_strlit("skyblue");
    reveal_strlit("blue");
    reveal_strlit("green");
    reveal_strlit("yellow");
    reveal_strlit("purple");
    reveal_strlit("pink");
    assert("red"@[0] != "orange"@[0] && "brown"@[0] != "orange"@[0] && "skyblue"@[0] != "orange"@[0]);
    assert("blue"@[0] != "orange"@[0] && "green"@[0] != "orange"@[0] && "yellow"@[0] != "orange"@[0]);
    assert("purple"@[0] != "orange"@[0] && "pink"@[0] != "orange"@[0]);
}

pub fn parse_record(name: &str) -> (r: Option<Record>)
    ensures
        r == record_named(name@),
{
    if text_eq(name, "qr") {
        Some(Record::Qr)
    } else if text_eq(name, "barcode") {
        Some(Record::Barcode)
    } else if text_eq(name, "nothing") {
        Some(Record::Nothing)
    } else {
        None
    }
}

pub fn parse_color(name: &str) -> (r: Option<Color>)
    ensures
        r == color_named(name@),
{
    if text_eq(name, "red") {
        Some(Color::Red)
    } else if text_eq(name, "orange") {
        Some(Color::Orange)
    } else if text_eq(name, "brown") {
        Some(Color::Brown)
    } else if text_eq(name, "skyblue") {
        Some(Color::SkyBlue)
    } else if text_eq(name, "blue") {
        Some(Color::Blue)
    } else if text_eq(name, "green") {
        Some(Color::Green)
    } else if text_eq(name, "yellow") {
        Some(Color::Yellow)
    } else if text_eq(name, "purple") {
        Some(Color::Purple)
    } else if text_eq(name, "pink") {
        Some(Color::Pink)
    } else {
        None
    }
}

/// The colour that the label registration of the admin end point stores for a colour
/// name: `orange` is stored as blue, and a name it does not know leaves the colour red.
pub open spec fn admin_label_color(name: Seq<char>) -> Color {
    if name == "orange"@ {
        Color::Blue
    } else {
        match color_named(name) {
            Some(c) => c,
            None => Color::Red,
        }
    }
}

pub fn label_color_from_name(name: &str) -> (r: Color)
    ensures
        r == admin_label_color(name@),
        name@ == "orange"@ ==> r == Color::Blue,
        name@ != "orange"@ ==> (color_named(name@) matches Some(c) ==> r == c),
        color_named(name@) is None ==> r == Color::Red,
{
    if text_eq(name, "orange") {
        Color::Blue
    } else {
        match parse_color(name) {
            Some(c) => c,
            None => Color::Red,
        }
    }
}

/// The colours that newly generated labels are drawn from.
pub open spec fn palette() -> Seq<Color> {
    seq![
        Color::Red,
        Color::Orange,
        Color::Brown,
        Color::SkyBlue,
        Color::Blue,
        Color::Green,
        Color::Yellow,
        Color::Purple,
        Color::Pink,
    ]
}

/// The palette colour that a drawn number selects: the number modulo the palette's size.
pub fn palette_color(draw: usize) -> (r: Color)
    ensures
        r == palette()[(draw % 9) as int],
{
    let index = draw % 9;
    if index == 0 {
        Color::Red
    } else if index == 1 {
        Color::Orange
    } else if index == 2 {
        Color::Brown
    } else if index == 3 {
        Color::SkyBlue
    } else if index == 4 {
        Color::Blue
    } else if index == 5 {
        Color::Green
    } else if index == 6 {
        Color::Yellow
    } else if index == 7 {
        Color::Purple
    } else {
        Color::Pink
    }
}

} // verus!

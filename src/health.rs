use vstd::prelude::*;
use crate::text::{replace_text, replaced, same_text, with_class};

verus! {

/// The colour scheme of a health card.
#[derive(Clone, Copy, Debug, PartialEq, Eq, Structural)]
pub enum HealthTone {
    Green,
    Yellow,
    Red,
    Gray,
}

/// The tone that a colour name selects: the three known names, gray for any other.
pub open spec fn tone_of(color: Seq<char>) -> HealthTone {
    if color == "green"@ {
        HealthTone::Green
    } else if color == "yellow"@ {
        HealthTone::Yellow
    } else if color == "red"@ {
        HealthTone::Red
    } else {
        HealthTone::Gray
    }
}

pub open spec fn bg_class_of(t: HealthTone) -> Seq<char> {
    match t {
        HealthTone::Green => "bg-green-50"@,
        HealthTone::Yellow => "bg-yellow-50"@,
        HealthTone::Red => "bg-red-50"@,
        HealthTone::Gray => "bg-gray-50"@,
    }
}

pub open spec fn text_class_of(t: HealthTone) -> Seq<char> {
    match t {
        HealthTone::Green => "text-green-800"@,
        HealthTone::Yellow => "text-yellow-800"@,
        HealthTone::Red => "text-red-800"@,
        HealthTone::Gray => "text-gray-800"@,
    }
}

pub open spec fn dot_class_of(t: HealthTone) -> Seq<char> {
    match t {
        HealthTone::Green => "bg-green-500"@,
        HealthTone::Yellow => "bg-yellow-500"@,
        HealthTone::Red => "bg-red-500"@,
        HealthTone::Gray => "bg-gray-500"@,
    }
}

impl HealthTone {
    /// Reads a colour name; any name but green, yellow or red gives gray.
    pub fn from_color(color: &str) -> (r: HealthTone)
        ensures
            r == tone_of(color@),
    {
        if same_text(color, "green") {
            HealthTone::Green
        } else if same_text(color, "yellow") {
            HealthTone::Yellow
        } else if same_text(color, "red") {
            HealthTone::Red
        } else {
            HealthTone::Gray
        }
    }

    /// The card's background class.
    pub fn bg_class(&self) -> (r: &'static str)
        ensures
            r@ == bg_class_of(*self),
    {
        match self {
            HealthTone::Green => "bg-green-50",
            HealthTone::Yellow => "bg-yellow-50",
            HealthTone::Red => "bg-red-50",
            HealthTone::Gray => "bg-gray-50",
        }
    }

    /// The class of the card's title and status text.
    pub fn text_class(&self) -> (r: &'static str)
        ensures
            r@ == text_class_of(*self),
    {
        match self {
            HealthTone::Green => "text-green-800",
            HealthTone::Yellow => "text-yellow-800",
            HealthTone::Red => "text-red-800",
            HealthTone::Gray => "text-gray-800",
        }
    }

    /// The class of the card's status dot.
    pub fn dot_class(&self) -> (r: &'static str)
        ensures
            r@ == dot_class_of(*self),
    {
        match self {
            HealthTone::Green => "bg-green-500",
            HealthTone::Yellow => "bg-yellow-500",
            HealthTone::Red => "bg-red-500",
            HealthTone::Gray => "bg-gray-500",
        }
    }
}

/// A colour name other than green, yellow and red styles a card in the gray
/// variant; green styles it with the green background, text and dot classes.
pub proof fn lemma_color_variants(color: Seq<char>)
    ensures
        color != "green"@ && color != "yellow"@ && color != "red"@ ==> {
            &&& tone_of(color) == HealthTone::Gray
            &&& bg_class_of(tone_of(color)) == "bg-gray-50"@
            &&& text_class_of(tone_of(color)) == "text-gray-800"@
            &&& dot_class_of(tone_of(color)) == "bg-gray-500"@
        },
        color == "green"@ ==> {
            &&& bg_class_of(tone_of(color)) == "bg-green-50"@
            &&& text_class_of(tone_of(color)) == "text-green-800"@
            &&& dot_class_of(tone_of(color)) == "bg-green-500"@
        },
{
}

/// The classes of the parts of one health card.
pub struct HealthCardStyle {
    pub container: String,
    pub dot: String,
    pub title: String,
    pub status: String,
    pub details: String,
}

/// Styles a health card for a colour name: the tone's classes after the
/// fixed layout classes of each part; the details line takes the text
/// class with its shade 800 lightened to 600.
pub fn health_card_style(color: &str) -> (r: HealthCardStyle)
    ensures
        r.container@ == "p-4 rounded-lg"@ + seq![' '] + bg_class_of(tone_of(color@)),
        r.dot@ == "w-3 h-3 rounded-full mr-3"@ + seq![' '] + dot_class_of(tone_of(color@)),
        r.title@ == "font-medium"@ + seq![' '] + text_class_of(tone_of(color@)),
        r.status@ == "text-sm font-semibold"@ + seq![' '] + text_class_of(tone_of(color@)),
        r.details@ == "text-xs"@ + seq![' '] + replaced(
            text_class_of(tone_of(color@)),
            "800"@,
            "600"@,
        ),
{
    let tone = HealthTone::from_color(color);
    let text = tone.text_class();
    proof {
        reveal_strlit("800");
    }
    let lighter = replace_text(text, "800", "600");
    HealthCardStyle {
        container: with_class("p-4 rounded-lg", tone.bg_class()),
        dot: with_class("w-3 h-3 rounded-full mr-3", tone.dot_class()),
        title: with_class("font-medium", text),
        status: with_class("text-sm font-semibold", text),
        details: with_class("text-xs", lighter.as_str()),
    }
}

/// One card of the system health page.
pub struct HealthCardInfo {
    pub title: &'static str,
    pub status: &'static str,
    pub color: &'static str,
    pub details: &'static str,
}

/// The title, status, colour name and details of each card of the system
/// health page, in order of display.
pub open spec fn health_page_rows() -> Seq<(Seq<char>, Seq<char>, Seq<char>, Seq<char>)> {
    seq![
        ("Server"@, "Online"@, "green"@, "Running smoothly"@),
        ("Database"@, "Connected"@, "green"@, "PostgreSQL 16"@),
        ("Cache"@, "Ready"@, "green"@, "Redis active"@),
        ("Authentication"@, "Active"@, "green"@, "Keycloak integration"@),
        ("API"@, "Operational"@, "green"@, "All endpoints responding"@),
        ("Storage"@, "Available"@, "green"@, "85% capacity"@),
    ]
}

pub open spec fn row_of(c: HealthCardInfo) -> (Seq<char>, Seq<char>, Seq<char>, Seq<char>) {
    (c.title@, c.status@, c.color@, c.details@)
}

/// The cards of the system health page.
pub fn health_page_cards() -> (r: Vec<HealthCardInfo>)
    ensures
        r@.map_values(|c: HealthCardInfo| row_of(c)) == health_page_rows(),
{
    let r = vec![
        HealthCardInfo {
            title: "Server",
            status: "Online",
            color: "green",
            details: "Running smoothly",
        },
        HealthCardInfo {
            title: "Database",
            status: "Connected",
            color: "green",
            details: "PostgreSQL 16",
        },
        HealthCardInfo { title: "Cache", status: "Ready", color: "green", details: "Redis active" },
        HealthCardInfo {
            title: "Authentication",
            status: "Active",
            color: "green",
            details: "Keycloak integration",
        },
        HealthCardInfo {
            title: "API",
            status: "Operational",
            color: "green",
            details: "All endpoints responding",
        },
        HealthCardInfo {
            title: "Storage",
            status: "Available",
            color: "green",
            details: "85% capacity",
        },
    ];
    assert(r@.map_values(|c: HealthCardInfo| row_of(c)) =~= health_page_rows());
    r
}

} // verus!

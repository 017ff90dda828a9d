//! Values that the UI and the server exchange through this layer.
use vstd::prelude::*;

verus! {

#[derive(Clone, Copy, Debug, PartialEq, Eq, Structural)]
pub struct Color {
    pub r: u8,
    pub g: u8,
    pub b: u8,
}

#[derive(Debug)]
pub struct BlockType {
    pub id: u8,
    pub name: String,
    pub color: Color,
}

/// The block being tracked now.
#[derive(Debug)]
pub struct CurrentBlock {
    pub block_type_id: u8,
    pub current_block_name: String,
}

/// A block type to create; the server assigns its id.
#[derive(Debug)]
pub struct NewBlockType {
    pub name: String,
    pub color: Color,
}

/// A named set of UI colours, each a CSS colour text.
#[derive(Debug)]
pub struct Palette {
    pub name: String,
    pub accent: String,
    pub accent_hover: String,
    pub accent2: String,
    pub bg: String,
    pub bg_dark: String,
    pub disabled_color: String,
}

/// The palette in use and its position in the UI's list.
#[derive(Debug)]
pub struct PaletteData {
    pub idx: u8,
    pub palette: Palette,
}

/// Where a public address is, as the geolocation service describes it.
#[derive(Debug)]
pub struct Locator {
    pub ip: String,
    pub latitude: String,
    pub longitude: String,
    pub city: String,
    pub region: String,
    pub country: String,
    pub timezone: String,
    pub location: String,
}

/// The text that `Debug` writes for a string: quoted, with escapes.
pub uninterp spec fn debug_literal(s: Seq<char>) -> Seq<char>;

/// Relies on std's `Debug` for `str` (through `format!("{:?}")`): a quoted,
/// escaped copy of the text, which depends on the text alone.
#[verifier::external_body]
fn debug_text(s: &str) -> (r: String)
    ensures
        r@ == debug_literal(s@),
{
    format!("{:?}", s)
}

/// How a place is shown: city, region and country, each quoted.
pub open spec fn location_text(city: Seq<char>, region: Seq<char>, country: Seq<char>) -> Seq<char> {
    debug_literal(city) + ", "@ + debug_literal(region) + ", "@ + debug_literal(country)
}

impl Locator {
    /// A locator from the service's fields, each as the text of its JSON value.
    pub fn new(
        ip: String,
        latitude: String,
        longitude: String,
        city: String,
        region: String,
        country: String,
        timezone: String,
    ) -> (l: Locator)
        ensures
            l.ip == ip,
            l.latitude == latitude,
            l.longitude == longitude,
            l.city == city,
            l.region == region,
            l.country == country,
            l.timezone == timezone,
            l.location@ == location_text(city@, region@, country@),
    {
        let mut location = debug_text(city.as_str());
        location.append(", ");
        location.append(debug_text(region.as_str()).as_str());
        location.append(", ");
        location.append(debug_text(country.as_str()).as_str());
        Locator { ip, latitude, longitude, city, region, country, timezone, location }
    }
}

/// The palette used before the user picks one.
pub fn default_palette() -> (p: PaletteData)
    ensures
        p.idx == 1,
        p.palette.name@ == "Violet"@,
        p.palette.accent@ == "#3e0e3e"@,
        p.palette.accent_hover@ == "#efceff"@,
        p.palette.accent2@ == "#de9cff"@,
        p.palette.bg@ == "#200a2b"@,
        p.palette.bg_dark@ == "#1e1e1e"@,
        p.palette.disabled_color@ == "#fff7c3"@,
{
    PaletteData {
        idx: 1,
        palette: Palette {
            name: String::from_str("Violet"),
            accent: String::from_str("#3e0e3e"),
            accent_hover: String::from_str("#efceff"),
            accent2: String::from_str("#de9cff"),
            bg: String::from_str("#200a2b"),
            bg_dark: String::from_str("#1e1e1e"),
            disabled_color: String::from_str("#fff7c3"),
        },
    }
}

/// The server lists a day's blocks oldest first; the UI shows them newest first.
pub fn newest_first<T>(blocks: Vec<T>) -> (r: Vec<T>)
    ensures
        r@ == blocks@.reverse(),
{
    let ghost original = blocks@;
    let n = blocks.len();
    let mut rest = blocks;
    let mut r: Vec<T> = Vec::new();
    while rest.len() > 0
        invariant
            n == original.len(),
            rest.len() <= n,
            rest@ == original.subrange(0, rest.len() as int),
            r@.len() == n - rest.len(),
            forall|j: int| 0 <= j < r@.len() ==> r@[j] == original[n - 1 - j],
        decreases rest.len(),
    {
        let x = rest.pop().unwrap();
        r.push(x);
    }
    assert(r@ =~= original.reverse());
    r
}

} // verus!

//! The markup mission format: a document of placemarks, of which one is the
//! start, one the end, and one the path flown between them.

use vstd::pervasive::unreached;
use vstd::prelude::*;

use crate::error::Error;
use crate::ieee::Binary64;
use crate::text::str_eq;

verus! {

/// A position: longitude and latitude in degrees, and a height in meters.
#[derive(Clone, Copy, Debug, PartialEq, Eq, Structural)]
pub struct Coord {
    pub x: Binary64,
    pub y: Binary64,
    pub z: Option<Binary64>,
}

/// A single position.
#[derive(Clone, Copy, Debug, PartialEq, Eq, Structural)]
pub struct Point {
    pub coord: Coord,
}

/// A succession of positions.
#[derive(Debug, PartialEq, Eq)]
pub struct LineString {
    pub coords: Vec<Coord>,
}

/// The shape of a placemark, as far as missions are made of it.
#[derive(Debug, PartialEq, Eq)]
pub enum Geometry {
    Point(Point),
    LineString(LineString),
    /// Any other shape.
    Other,
}

/// A named shape.
#[derive(Debug, PartialEq, Eq)]
pub struct Placemark {
    pub name: Option<String>,
    pub geometry: Option<Geometry>,
}

/// An element of the document that is nothing more than a name and text.
#[derive(Debug, PartialEq, Eq)]
pub struct Element {
    pub name: String,
    pub content: Option<String>,
}

/// A node of a markup file.
#[derive(Debug, PartialEq, Eq)]
pub enum Kml {
    /// The file itself.
    KmlDocument { elements: Vec<Kml> },
    Document { elements: Vec<Kml> },
    Placemark(Placemark),
    Element(Element),
    /// Any other node.
    Other,
}

/// A mission, as found in a document.
#[derive(Debug, PartialEq, Eq)]
pub struct Mission<'kml> {
    pub name: &'kml String,
    pub start: &'kml Point,
    pub end: &'kml Point,
    pub path: &'kml LineString,
}

/// What a placemark is to a mission.
#[derive(Debug, PartialEq, Eq)]
pub enum PlaceMarkType<'e> {
    Start(&'e Point),
    End(&'e Point),
    Path(&'e LineString),
}

/// The point of a placemark that is a point called `name`.
pub open spec fn named_point(elt: Placemark, name: Seq<char>) -> Option<Point> {
    match (elt.geometry, elt.name) {
        (Some(Geometry::Point(point)), Some(called)) => if called@ == name {
            Some(point)
        } else {
            None
        },
        _ => None,
    }
}

/// The start that a placemark marks: a point called `Start Point`.
pub open spec fn placemark_start(elt: Placemark) -> Option<Point> {
    named_point(elt, "Start Point"@)
}

/// The end that a placemark marks: a point called `End Point`.
pub open spec fn placemark_end(elt: Placemark) -> Option<Point> {
    named_point(elt, "End Point"@)
}

/// The path that a placemark marks: a line, whatever it is called.
pub open spec fn placemark_path(elt: Placemark) -> Option<LineString> {
    match elt.geometry {
        Some(Geometry::LineString(path)) => Some(path),
        _ => None,
    }
}

/// Whether a placemark has a part in a mission.
pub open spec fn placemark_known(elt: Placemark) -> bool {
    placemark_start(elt) is Some || placemark_end(elt) is Some || placemark_path(elt) is Some
}

/// No point is both the start and the end.
pub proof fn lemma_names_differ()
    ensures
        "Start Point"@ != "End Point"@,
        forall|elt: Placemark|
            !(#[trigger] placemark_start(elt) is Some && placemark_end(elt) is Some),
{
    reveal_strlit("Start Point");
    reveal_strlit("End Point");
    assert("Start Point"@.len() == 11);
    assert("End Point"@.len() == 9);
}

/// What a placemark is to a mission: a line is the path; a point is the
/// start or the end if it is named so; anything else is nothing to it.
pub fn try_parse_placemark<'e>(elt: &'e Placemark) -> (r: Option<PlaceMarkType<'e>>)
    ensures
        match r {
            Some(PlaceMarkType::Start(point)) => placemark_start(*elt) == Some(*point),
            Some(PlaceMarkType::End(point)) => placemark_end(*elt) == Some(*point),
            Some(PlaceMarkType::Path(line)) => placemark_path(*elt) == Some(*line),
            None => !placemark_known(*elt),
        },
{
    proof {
        reveal_strlit("Start Point");
        reveal_strlit("End Point");
    }
    match &elt.geometry {
        Some(Geometry::LineString(path)) => Some(PlaceMarkType::Path(path)),
        Some(Geometry::Point(point)) => match &elt.name {
            Some(name) => if str_eq(name.as_str(), "Start Point") {
                Some(PlaceMarkType::Start(point))
            } else if str_eq(name.as_str(), "End Point") {
                Some(PlaceMarkType::End(point))
            } else {
                None
            },
            None => None,
        },
        _ => None,
    }
}

/// The mission's name, if this element holds it.
pub open spec fn spec_parse_name(elt: Element) -> Option<String> {
    if elt.name@ == "name"@ {
        elt.content
    } else {
        None
    }
}

/// The mission's name, if this element holds it: the text of an element
/// called `name`.
pub fn try_parse_name<'e>(elt: &'e Element) -> (r: Option<&'e String>)
    ensures
        match spec_parse_name(*elt) {
            Some(name) => r matches Some(found) && *found == name,
            None => r is None,
        },
{
    if str_eq(elt.name.as_str(), "name") {
        elt.content.as_ref()
    } else {
        None
    }
}

/// Whether every placemark of the document has a part in a mission.
pub open spec fn placemarks_known(doc: Seq<Kml>) -> bool {
    forall|i: int|
        0 <= i < doc.len() ==> (#[trigger] doc[i] matches Kml::Placemark(elt) ==> placemark_known(
            elt,
        ))
}

/// The start that a node marks.
pub open spec fn start_at(node: Kml) -> Option<Point> {
    match node {
        Kml::Placemark(elt) => placemark_start(elt),
        _ => None,
    }
}

/// The end that a node marks.
pub open spec fn end_at(node: Kml) -> Option<Point> {
    match node {
        Kml::Placemark(elt) => placemark_end(elt),
        _ => None,
    }
}

/// The path that a node marks.
pub open spec fn path_at(node: Kml) -> Option<LineString> {
    match node {
        Kml::Placemark(elt) => placemark_path(elt),
        _ => None,
    }
}

/// The name that a node holds.
pub open spec fn name_at(node: Kml) -> Option<String> {
    match node {
        Kml::Element(elt) => spec_parse_name(elt),
        _ => None,
    }
}

/// The first start point from node `from` on.
pub open spec fn find_start(doc: Seq<Kml>, from: int) -> Option<Point>
    decreases doc.len() - from,
{
    if from < 0 || from >= doc.len() {
        None
    } else if start_at(doc[from]) is Some {
        start_at(doc[from])
    } else {
        find_start(doc, from + 1)
    }
}

/// The first end point from node `from` on.
pub open spec fn find_end(doc: Seq<Kml>, from: int) -> Option<Point>
    decreases doc.len() - from,
{
    if from < 0 || from >= doc.len() {
        None
    } else if end_at(doc[from]) is Some {
        end_at(doc[from])
    } else {
        find_end(doc, from + 1)
    }
}

/// The first path from node `from` on.
pub open spec fn find_path(doc: Seq<Kml>, from: int) -> Option<LineString>
    decreases doc.len() - from,
{
    if from < 0 || from >= doc.len() {
        None
    } else if path_at(doc[from]) is Some {
        path_at(doc[from])
    } else {
        find_path(doc, from + 1)
    }
}

/// The first name from node `from` on.
pub open spec fn find_name(doc: Seq<Kml>, from: int) -> Option<String>
    decreases doc.len() - from,
{
    if from < 0 || from >= doc.len() {
        None
    } else if name_at(doc[from]) is Some {
        name_at(doc[from])
    } else {
        find_name(doc, from + 1)
    }
}

/// The part of a mission that a document lacks, looked for in the order
/// name, start, end, path.
pub open spec fn missing_part(doc: Seq<Kml>) -> Option<&'static str> {
    if find_name(doc, 0) is None {
        Some("Missing mission name.")
    } else if find_start(doc, 0) is None {
        Some("Missing mission start.")
    } else if find_end(doc, 0) is None {
        Some("Missing mission end.")
    } else if find_path(doc, 0) is None {
        Some("Missing mission path.")
    } else {
        None
    }
}

/// Finds the mission in the nodes of a document: its name, its start, its
/// end and its path, each the first of its kind. The placemarks have to be
/// such that each has a part in a mission.
pub fn parse_document<'kml>(doc: &'kml Vec<Kml>) -> (r: Result<Mission<'kml>, Error>)
    requires
        placemarks_known(doc@),
    ensures
        match missing_part(doc@) {
            Some(what) => r == Err::<Mission<'kml>, Error>(Error::MalformedLitchiMission(what)),
            None => r matches Ok(mission) && {
                &&& Some(*mission.name) == find_name(doc@, 0)
                &&& Some(*mission.start) == find_start(doc@, 0)
                &&& Some(*mission.end) == find_end(doc@, 0)
                &&& Some(*mission.path) == find_path(doc@, 0)
            },
        },
{
    let mut name: Option<&String> = None;
    let mut start: Option<&Point> = None;
    let mut end: Option<&Point> = None;
    let mut path: Option<&LineString> = None;
    let mut i: usize = 0;
    while i < doc.len()
        invariant
            i <= doc@.len(),
            placemarks_known(doc@),
            find_name(doc@, 0) == (match name {
                Some(found) => Some(*found),
                None => find_name(doc@, i as int),
            }),
            find_start(doc@, 0) == (match start {
                Some(found) => Some(*found),
                None => find_start(doc@, i as int),
            }),
            find_end(doc@, 0) == (match end {
                Some(found) => Some(*found),
                None => find_end(doc@, i as int),
            }),
            find_path(doc@, 0) == (match path {
                Some(found) => Some(*found),
                None => find_path(doc@, i as int),
            }),
        decreases doc@.len() - i,
    {
        proof {
            lemma_names_differ();
        }
        match &doc[i] {
            Kml::Placemark(elt) => match try_parse_placemark(elt) {
                Some(PlaceMarkType::Start(point)) => {
                    if start.is_none() {
                        start = Some(point);
                    }
                },
                Some(PlaceMarkType::End(point)) => {
                    if end.is_none() {
                        end = Some(point);
                    }
                },
                Some(PlaceMarkType::Path(line)) => {
                    if path.is_none() {
                        path = Some(line);
                    }
                },
                None => unreached(),
            },
            Kml::Element(elt) => {
                if name.is_none() {
                    name = try_parse_name(elt);
                }
            },
            _ => {},
        }
        i = i + 1;
    }
    let name = match name {
        Some(name) => name,
        None => {
            return Err(Error::MalformedLitchiMission("Missing mission name."));
        },
    };
    let start = match start {
        Some(start) => start,
        None => {
            return Err(Error::MalformedLitchiMission("Missing mission start."));
        },
    };
    let end = match end {
        Some(end) => end,
        None => {
            return Err(Error::MalformedLitchiMission("Missing mission end."));
        },
    };
    let path = match path {
        Some(path) => path,
        None => {
            return Err(Error::MalformedLitchiMission("Missing mission path."));
        },
    };
    Ok(Mission { name, start, end, path })
}

/// The nodes of the first node of a file, if that is a document.
pub open spec fn main_document(value: Kml) -> Option<Seq<Kml>> {
    match value {
        Kml::KmlDocument { elements } => if elements@.len() > 0 {
            match elements@[0] {
                Kml::Document { elements } => Some(elements@),
                _ => None,
            }
        } else {
            None
        },
        _ => None,
    }
}

impl<'kml> Mission<'kml> {
    /// Finds the mission in a markup file: it is looked for in the file's
    /// first node, which has to be a document.
    pub fn try_from(value: &'kml Kml) -> (r: Result<Mission<'kml>, Error>)
        requires
            value is KmlDocument,
            main_document(*value) matches Some(doc) ==> placemarks_known(doc),
        ensures
            match main_document(*value) {
                None => r == Err::<Mission<'kml>, Error>(
                    Error::MalformedLitchiMission("Missing main Document: no mission."),
                ),
                Some(doc) => match missing_part(doc) {
                    Some(what) => r == Err::<Mission<'kml>, Error>(
                        Error::MalformedLitchiMission(what),
                    ),
                    None => r matches Ok(mission) && {
                        &&& Some(*mission.name) == find_name(doc, 0)
                        &&& Some(*mission.start) == find_start(doc, 0)
                        &&& Some(*mission.end) == find_end(doc, 0)
                        &&& Some(*mission.path) == find_path(doc, 0)
                    },
                },
            },
    {
        match value {
            Kml::KmlDocument { elements } => {
                if elements.len() > 0 {
                    match &elements[0] {
                        Kml::Document { elements } => {
                            return parse_document(elements);
                        },
                        _ => {},
                    }
                }
                Err(Error::MalformedLitchiMission("Missing main Document: no mission."))
            },
            _ => Err(Error::MalformedLitchiMission("Missing main Document: no mission.")),
        }
    }
}

} // verus!

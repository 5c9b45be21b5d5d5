//! How the maps RPCs shape their answers from what the Maps client reports:
//! which field is taken, and what stands in for a missing one. Coordinates are
//! floating point and are carried over by the caller.

use vstd::prelude::*;

verus! {

/// The text of an optional string, empty when absent.
pub open spec fn text_or_empty(s: Option<String>) -> Seq<char> {
    match s {
        Some(t) => t@,
        None => Seq::empty(),
    }
}

/// The string, or an empty one when absent.
pub(crate) fn string_or_empty(s: &Option<String>) -> (r: String)
    ensures
        r@ == text_or_empty(*s),
{
    match s {
        Some(t) => t.clone(),
        None => String::new(),
    }
}

/// Address Validation: the region code to send, none when the request leaves
/// it empty.
pub fn region_code(code: &str) -> (r: Option<String>)
    ensures
        code@.len() == 0 ==> r is None,
        code@.len() > 0 ==> (r matches Some(c) && c@ == code@),
{
    if code.is_empty() {
        None
    } else {
        Some(code.to_owned())
    }
}

/// One leg of a Directions route.
pub struct LegData {
    pub distance_text: String,
    pub distance_meters: u32,
    pub duration_text: String,
    pub duration_seconds: i64,
    pub start_address: String,
    pub end_address: String,
}

/// A Directions route: its summary and its legs.
pub struct RouteData {
    pub summary: String,
    pub legs: Vec<LegData>,
}

/// A route as the Directions RPC answers it.
#[derive(Debug)]
pub struct RouteSummary {
    pub summary: String,
    pub distance: String,
    pub duration: String,
    pub start_address: String,
    pub end_address: String,
    pub distance_meters: u32,
    pub duration_seconds: i64,
}

/// `r` answers for `route`: its summary, and the figures of its first leg, or
/// empty text and zeros when it has no leg.
pub open spec fn summarizes(r: RouteSummary, route: RouteData) -> bool {
    &&& r.summary@ == route.summary@
    &&& if route.legs@.len() > 0 {
        let leg = route.legs@[0];
        &&& r.distance@ == leg.distance_text@
        &&& r.duration@ == leg.duration_text@
        &&& r.start_address@ == leg.start_address@
        &&& r.end_address@ == leg.end_address@
        &&& r.distance_meters == leg.distance_meters
        &&& r.duration_seconds == leg.duration_seconds
    } else {
        &&& r.distance@.len() == 0
        &&& r.duration@.len() == 0
        &&& r.start_address@.len() == 0
        &&& r.end_address@.len() == 0
        &&& r.distance_meters == 0
        &&& r.duration_seconds == 0
    }
}

/// Directions: the answer for one route (first leg only).
pub fn route_summary(route: &RouteData) -> (r: RouteSummary)
    ensures
        summarizes(r, *route),
        route.legs@.len() > 0 ==> r.distance_meters == route.legs@[0].distance_meters
            && r.duration_seconds == route.legs@[0].duration_seconds,
{
    if route.legs.len() > 0 {
        let leg = &route.legs[0];
        RouteSummary {
            summary: route.summary.clone(),
            distance: leg.distance_text.clone(),
            duration: leg.duration_text.clone(),
            start_address: leg.start_address.clone(),
            end_address: leg.end_address.clone(),
            distance_meters: leg.distance_meters,
            duration_seconds: leg.duration_seconds,
        }
    } else {
        RouteSummary {
            summary: route.summary.clone(),
            distance: String::new(),
            duration: String::new(),
            start_address: String::new(),
            end_address: String::new(),
            distance_meters: 0,
            duration_seconds: 0,
        }
    }
}

/// Directions: the answer for each route, in order.
pub fn route_summaries(routes: &Vec<RouteData>) -> (r: Vec<RouteSummary>)
    ensures
        r@.len() == routes@.len(),
        forall|i: int| 0 <= i < routes@.len() ==> summarizes(#[trigger] r@[i], routes@[i]),
{
    let mut out: Vec<RouteSummary> = Vec::new();
    let mut i: usize = 0;
    while i < routes.len()
        invariant
            i <= routes@.len(),
            out@.len() == i,
            forall|j: int| 0 <= j < i ==> summarizes(#[trigger] out@[j], routes@[j]),
        decreases routes@.len() - i,
    {
        out.push(route_summary(&routes[i]));
        i = i + 1;
    }
    out
}

/// One cell of a Distance Matrix answer, as the Maps client reports it; the
/// status is already in its text form.
pub struct ElementData {
    pub distance_meters: Option<u32>,
    pub duration_seconds: Option<i64>,
    pub status: String,
}

/// One cell as the Distance Matrix RPC answers it.
#[derive(Debug)]
pub struct MatrixElement {
    pub distance_meters: u32,
    pub duration_seconds: i64,
    pub status: String,
}

/// `m` answers for `e`: its figures, zero where missing, and its status.
pub open spec fn element_answers(m: MatrixElement, e: ElementData) -> bool {
    &&& m.distance_meters == (match e.distance_meters {
        Some(d) => d,
        None => 0,
    })
    &&& m.duration_seconds == (match e.duration_seconds {
        Some(d) => d,
        None => 0,
    })
    &&& m.status@ == e.status@
}

/// Distance Matrix: the answer for one cell.
pub fn matrix_element(e: &ElementData) -> (m: MatrixElement)
    ensures
        element_answers(m, *e),
        e.distance_meters matches Some(d) ==> m.distance_meters == d,
        e.duration_seconds matches Some(d) ==> m.duration_seconds == d,
{
    MatrixElement {
        distance_meters: match e.distance_meters {
            Some(d) => d,
            None => 0,
        },
        duration_seconds: match e.duration_seconds {
            Some(d) => d,
            None => 0,
        },
        status: e.status.clone(),
    }
}

/// Distance Matrix: the answer for one row (an origin), cell by cell.
pub fn matrix_row(row: &Vec<ElementData>) -> (r: Vec<MatrixElement>)
    ensures
        r@.len() == row@.len(),
        forall|j: int| 0 <= j < row@.len() ==> element_answers(#[trigger] r@[j], row@[j]),
{
    let mut out: Vec<MatrixElement> = Vec::new();
    let mut j: usize = 0;
    while j < row.len()
        invariant
            j <= row@.len(),
            out@.len() == j,
            forall|k: int| 0 <= k < j ==> element_answers(#[trigger] out@[k], row@[k]),
        decreases row@.len() - j,
    {
        out.push(matrix_element(&row[j]));
        j = j + 1;
    }
    out
}

/// Distance Matrix: the answer for every row, in order.
pub fn matrix_rows(rows: &Vec<Vec<ElementData>>) -> (r: Vec<Vec<MatrixElement>>)
    ensures
        r@.len() == rows@.len(),
        forall|i: int|
            0 <= i < rows@.len() ==> (#[trigger] r@[i])@.len() == rows@[i]@.len() && forall|j: int|
                0 <= j < rows@[i]@.len() ==> element_answers(#[trigger] r@[i]@[j], rows@[i]@[j]),
{
    let mut out: Vec<Vec<MatrixElement>> = Vec::new();
    let mut i: usize = 0;
    while i < rows.len()
        invariant
            i <= rows@.len(),
            out@.len() == i,
            forall|k: int|
                0 <= k < i ==> (#[trigger] out@[k])@.len() == rows@[k]@.len() && forall|j: int|
                    0 <= j < rows@[k]@.len() ==> element_answers(#[trigger] out@[k]@[j], rows@[k]@[j]),
        decreases rows@.len() - i,
    {
        out.push(matrix_row(&rows[i]));
        i = i + 1;
    }
    out
}

/// A point snapped to a road, as the Maps client reports it.
pub struct SnappedData {
    pub place_id: Option<String>,
    pub origin_index: Option<usize>,
}

/// A snapped point as the Roads RPCs answer it.
#[derive(Debug)]
pub struct SnappedSummary {
    pub place_id: String,
    pub original_index: u32,
}

/// Roads: the place id (empty when missing) and the index of the original
/// point (its low 32 bits, as `as u32` keeps them; zero when missing).
pub fn snapped_point(p: &SnappedData) -> (r: SnappedSummary)
    ensures
        r.place_id@ == text_or_empty(p.place_id),
        r.original_index == (match p.origin_index {
            Some(i) => i as u32,
            None => 0,
        }),
{
    SnappedSummary {
        place_id: string_or_empty(&p.place_id),
        original_index: match p.origin_index {
            Some(i) => i as u32,
            None => 0,
        },
    }
}

/// A place of Places (New), as the Maps client reports it.
pub struct PlaceData {
    pub display_name: Option<String>,
    pub formatted_address: Option<String>,
    pub id: Option<String>,
}

/// A place as the Text Search and Nearby Search RPCs answer it.
#[derive(Debug)]
pub struct PlaceSummary {
    pub display_name: String,
    pub formatted_address: String,
    pub place_id: String,
}

/// Places: name, address and id, each empty when missing.
pub fn place_summary(p: &PlaceData) -> (r: PlaceSummary)
    ensures
        r.display_name@ == text_or_empty(p.display_name),
        r.formatted_address@ == text_or_empty(p.formatted_address),
        r.place_id@ == text_or_empty(p.id),
{
    PlaceSummary {
        display_name: string_or_empty(&p.display_name),
        formatted_address: string_or_empty(&p.formatted_address),
        place_id: string_or_empty(&p.id),
    }
}

/// Law: a route with a leg answers the first leg's own figures and texts,
/// unchanged; one without legs answers zeros and empty texts.
pub proof fn lemma_route_takes_first_leg(r: RouteSummary, route: RouteData)
    requires
        summarizes(r, route),
    ensures
        r.summary@ == route.summary@,
        route.legs@.len() > 0 ==> {
            &&& r.distance_meters == route.legs@[0].distance_meters
            &&& r.duration_seconds == route.legs@[0].duration_seconds
            &&& r.distance@ == route.legs@[0].distance_text@
            &&& r.duration@ == route.legs@[0].duration_text@
            &&& r.start_address@ == route.legs@[0].start_address@
            &&& r.end_address@ == route.legs@[0].end_address@
        },
        route.legs@.len() == 0 ==> r.distance_meters == 0 && r.duration_seconds == 0,
{
}

/// Law: a cell answers exactly the distance and duration it reports, zero
/// only when one is missing, and its status.
pub proof fn lemma_cell_keeps_its_figures(m: MatrixElement, e: ElementData)
    requires
        element_answers(m, e),
    ensures
        e.distance_meters matches Some(d) ==> m.distance_meters == d,
        e.distance_meters is None ==> m.distance_meters == 0,
        e.duration_seconds matches Some(d) ==> m.duration_seconds == d,
        e.duration_seconds is None ==> m.duration_seconds == 0,
        m.status@ == e.status@,
{
}

} // verus!

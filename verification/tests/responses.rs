use google_maps_connectrpc::responses::{
    matrix_element, matrix_rows, place_summary, region_code, route_summaries, route_summary,
    snapped_point, ElementData, LegData, PlaceData, RouteData, SnappedData,
};

fn leg(n: u32) -> LegData {
    LegData {
        distance_text: format!("{n} km"),
        distance_meters: n * 1000,
        duration_text: format!("{n} mins"),
        duration_seconds: i64::from(n) * 60,
        start_address: format!("start {n}"),
        end_address: format!("end {n}"),
    }
}

#[test]
fn region_code_is_omitted_when_empty() {
    assert!(region_code("").is_none());
    assert_eq!(region_code("CA").as_deref(), Some("CA"));
}

#[test]
fn route_takes_its_first_leg() {
    let r = route_summary(&RouteData { summary: "Hwy 417".into(), legs: vec![leg(5), leg(9)] });
    assert_eq!(r.summary, "Hwy 417");
    assert_eq!(r.distance, "5 km");
    assert_eq!(r.duration, "5 mins");
    assert_eq!(r.start_address, "start 5");
    assert_eq!(r.end_address, "end 5");
    assert_eq!(r.distance_meters, 5000);
    assert_eq!(r.duration_seconds, 300);
}

#[test]
fn route_without_legs_has_empty_figures() {
    let r = route_summary(&RouteData { summary: "s".into(), legs: vec![] });
    assert_eq!(r.summary, "s");
    assert_eq!(r.distance, "");
    assert_eq!(r.duration, "");
    assert_eq!(r.start_address, "");
    assert_eq!(r.end_address, "");
    assert_eq!(r.distance_meters, 0);
    assert_eq!(r.duration_seconds, 0);
    let all = route_summaries(&vec![
        RouteData { summary: "a".into(), legs: vec![leg(1)] },
        RouteData { summary: "b".into(), legs: vec![] },
    ]);
    assert_eq!(all.len(), 2);
    assert_eq!(all[0].distance_meters, 1000);
    assert_eq!(all[1].summary, "b");
}

#[test]
fn matrix_cells_default_missing_figures_to_zero() {
    let e = matrix_element(&ElementData {
        distance_meters: Some(1234),
        duration_seconds: Some(99),
        status: "Ok".into(),
    });
    assert_eq!((e.distance_meters, e.duration_seconds, e.status.as_str()), (1234, 99, "Ok"));
    let e = matrix_element(&ElementData {
        distance_meters: None,
        duration_seconds: None,
        status: "ZeroResults".into(),
    });
    assert_eq!((e.distance_meters, e.duration_seconds, e.status.as_str()), (0, 0, "ZeroResults"));
    let rows = matrix_rows(&vec![
        vec![ElementData { distance_meters: Some(1), duration_seconds: None, status: "Ok".into() }],
        vec![],
    ]);
    assert_eq!(rows.len(), 2);
    assert_eq!(rows[0][0].distance_meters, 1);
    assert!(rows[1].is_empty());
}

#[test]
fn snapped_point_defaults_and_keeps_low_bits_of_the_index() {
    let p = snapped_point(&SnappedData { place_id: Some("ChIJ".into()), origin_index: Some(3) });
    assert_eq!((p.place_id.as_str(), p.original_index), ("ChIJ", 3));
    let p = snapped_point(&SnappedData { place_id: None, origin_index: None });
    assert_eq!((p.place_id.as_str(), p.original_index), ("", 0));
    let big = (1usize << 32) + 5;
    let p = snapped_point(&SnappedData { place_id: None, origin_index: Some(big) });
    assert_eq!(p.original_index, big as u32);
}

#[test]
fn place_fields_default_to_empty() {
    let p = place_summary(&PlaceData {
        display_name: Some("Cafe".into()),
        formatted_address: None,
        id: Some("places/1".into()),
    });
    assert_eq!(p.display_name, "Cafe");
    assert_eq!(p.formatted_address, "");
    assert_eq!(p.place_id, "places/1");
}

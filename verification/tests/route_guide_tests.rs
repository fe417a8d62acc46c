use tower_grpc::route_guide::{
    features_at, get_feature, in_range, list_features, Feature, NoteBoard, Point, Rectangle, RouteNote,
    RouteRecorder, RouteSummary,
};

fn pt(latitude: i32, longitude: i32) -> Point {
    Point { latitude, longitude }
}

fn feature(name: &str, p: Point) -> Feature {
    Feature { name: name.to_string(), location: Some(p) }
}

fn note(p: Point, m: &str) -> RouteNote {
    RouteNote { location: Some(p), message: m.to_string() }
}

#[test]
fn in_range_takes_any_pair_of_corners() {
    let r = Rectangle { lo: Some(pt(10, 10)), hi: Some(pt(0, 0)) };
    assert!(in_range(&pt(5, 5), &r));
    assert!(in_range(&pt(0, 10), &r));
    assert!(!in_range(&pt(11, 5), &r));
    assert!(!in_range(&pt(5, -1), &r));
    let flipped = Rectangle { lo: Some(pt(0, 10)), hi: Some(pt(10, 0)) };
    assert!(in_range(&pt(5, 5), &flipped));
}

#[test]
fn get_feature_finds_the_first_at_the_point() {
    let fs = vec![feature("a", pt(1, 1)), feature("b", pt(2, 2)), feature("c", pt(2, 2))];
    let f = get_feature(&fs, &pt(2, 2));
    assert_eq!(f.name, "b");
    assert_eq!(f.location, Some(pt(2, 2)));
    let none = get_feature(&fs, &pt(9, 9));
    assert_eq!(none.name, "");
    assert_eq!(none.location, None);
}

#[test]
fn list_features_keeps_those_in_the_rectangle_in_order() {
    let fs = vec![feature("a", pt(1, 1)), feature("b", pt(20, 2)), feature("c", pt(3, 3))];
    let r = Rectangle { lo: Some(pt(0, 0)), hi: Some(pt(5, 5)) };
    let names: Vec<String> = list_features(&fs, &r).into_iter().map(|f| f.name).collect();
    assert_eq!(names, vec!["a".to_string(), "c".to_string()]);
}

#[test]
fn record_route_counts_points_features_and_legs() {
    let fs = vec![feature("a", pt(1, 1)), feature("b", pt(1, 1)), feature("c", pt(3, 3))];
    assert_eq!(features_at(&fs, &pt(1, 1)), 2);
    let mut rec = RouteRecorder::new();
    rec.add(&fs, pt(1, 1), 500);
    assert_eq!(rec.summary.distance, 0);
    rec.add(&fs, pt(3, 3), 70);
    rec.add(&fs, pt(4, 4), 30);
    assert_eq!(rec.last, Some(pt(4, 4)));
    let s = rec.finish(12);
    assert_eq!(s, RouteSummary { point_count: 3, feature_count: 3, distance: 100, elapsed_time: 12 });
}

#[test]
fn route_chat_returns_the_notes_at_the_point() {
    let mut board = NoteBoard::new();
    let r = board.chat(note(pt(1, 1), "first"));
    assert_eq!(r.len(), 1);
    let r = board.chat(note(pt(2, 2), "elsewhere"));
    assert_eq!(r.len(), 1);
    assert_eq!(r[0].message, "elsewhere");
    let r = board.chat(note(pt(1, 1), "second"));
    let msgs: Vec<&str> = r.iter().map(|n| n.message.as_str()).collect();
    assert_eq!(msgs, vec!["first", "second"]);
    assert!(r.iter().all(|n| n.location == Some(pt(1, 1))));
}

#[test]
fn record_route_over_points_and_legs() {
    let fs = vec![feature("a", pt(1, 1)), feature("b", pt(1, 1)), feature("c", pt(3, 3))];
    let points = vec![pt(1, 1), pt(3, 3), pt(4, 4)];
    let legs = vec![500, 70, 30];
    let s = tower_grpc::route_guide::record_route(&fs, &points, &legs, 12);
    assert_eq!(s, RouteSummary { point_count: 3, feature_count: 3, distance: 100, elapsed_time: 12 });
}

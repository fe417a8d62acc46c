//! The route guide example service: features on a map, the features in a
//! rectangle, the summary of a recorded route, and the notes left at each
//! point of a route chat.
use vstd::prelude::*;

verus! {

/// A point on the map, in degrees multiplied by 10^7.
#[derive(Clone, Copy, Debug, PartialEq, Eq, Structural)]
pub struct Point {
    /// The latitude.
    pub latitude: i32,
    /// The longitude.
    pub longitude: i32,
}

/// A rectangle given by two opposite corners.
#[derive(Clone, Copy, Debug, PartialEq, Eq, Structural)]
pub struct Rectangle {
    /// One corner.
    pub lo: Option<Point>,
    /// The opposite corner.
    pub hi: Option<Point>,
}

/// A named feature at a point.
#[derive(Debug)]
pub struct Feature {
    /// The name; empty where there is no feature.
    pub name: String,
    /// Where the feature is.
    pub location: Option<Point>,
}

/// A message left at a point.
#[derive(Debug)]
pub struct RouteNote {
    /// Where the message was left.
    pub location: Option<Point>,
    /// The message.
    pub message: String,
}

/// What is known of a recorded route.
#[derive(Clone, Copy, Debug, PartialEq, Eq, Structural)]
pub struct RouteSummary {
    /// The number of points received.
    pub point_count: i32,
    /// The number of known features passed.
    pub feature_count: i32,
    /// The distance covered, in metres.
    pub distance: i32,
    /// The time the route took, in seconds.
    pub elapsed_time: i32,
}

/// A feature as plain values: its name and where it is.
pub open spec fn feature_view(f: Feature) -> (Seq<char>, Option<Point>) {
    (f.name@, f.location)
}

/// A note as plain values: where it was left and its message.
pub open spec fn note_view(n: RouteNote) -> (Option<Point>, Seq<char>) {
    (n.location, n.message@)
}

impl Feature {
    /// A copy of the feature.
    pub fn duplicate(&self) -> (r: Feature)
        ensures
            feature_view(r) == feature_view(*self),
    {
        Feature { name: self.name.clone(), location: self.location }
    }
}

impl RouteNote {
    /// A copy of the note.
    pub fn duplicate(&self) -> (r: RouteNote)
        ensures
            note_view(r) == note_view(*self),
    {
        RouteNote { location: self.location, message: self.message.clone() }
    }
}

/// The smaller of two numbers.
pub open spec fn min_i32(a: i32, b: i32) -> i32 {
    if a <= b { a } else { b }
}

/// The larger of two numbers.
pub open spec fn max_i32(a: i32, b: i32) -> i32 {
    if a >= b { a } else { b }
}

/// The point lies in the rectangle spanned by the corners `lo` and `hi`,
/// its edges included.
pub open spec fn point_in_rect(p: Point, lo: Point, hi: Point) -> bool {
    &&& min_i32(lo.longitude, hi.longitude) <= p.longitude <= max_i32(lo.longitude, hi.longitude)
    &&& min_i32(lo.latitude, hi.latitude) <= p.latitude <= max_i32(lo.latitude, hi.latitude)
}

/// Whether the point lies in the rectangle, its edges included.
pub fn in_range(point: &Point, rect: &Rectangle) -> (r: bool)
    requires
        rect.lo is Some,
        rect.hi is Some,
    ensures
        r == point_in_rect(*point, rect.lo->0, rect.hi->0),
{
    let lo = match &rect.lo {
        Some(p) => p,
        None => vstd::pervasive::unreached(),
    };
    let hi = match &rect.hi {
        Some(p) => p,
        None => vstd::pervasive::unreached(),
    };
    let left = if lo.longitude <= hi.longitude { lo.longitude } else { hi.longitude };
    let right = if lo.longitude >= hi.longitude { lo.longitude } else { hi.longitude };
    let top = if lo.latitude >= hi.latitude { lo.latitude } else { hi.latitude };
    let bottom = if lo.latitude <= hi.latitude { lo.latitude } else { hi.latitude };
    point.longitude >= left && point.longitude <= right && point.latitude >= bottom && point.latitude <= top
}

/// Whether a feature is at the point.
fn is_at(f: &Feature, point: &Point) -> (r: bool)
    ensures
        r == (f.location == Some(*point)),
{
    match &f.location {
        Some(l) => *l == *point,
        None => false,
    }
}

/// The feature at a point: the first of the features that is there, or a
/// feature with an empty name and no location where none is.
pub fn get_feature(features: &Vec<Feature>, point: &Point) -> (r: Feature)
    ensures
        (exists|i: int| 0 <= i < features@.len() && (#[trigger] features@[i]).location == Some(*point)) ==> exists|i: int|
            0 <= i < features@.len() && (#[trigger] features@[i]).location == Some(*point)
            && (forall|j: int| 0 <= j < i ==> (#[trigger] features@[j]).location != Some(*point))
            && feature_view(r) == feature_view(features@[i]),
        !(exists|i: int| 0 <= i < features@.len() && (#[trigger] features@[i]).location == Some(*point)) ==>
            r.name@ == Seq::<char>::empty() && r.location is None,
{
    let mut i: usize = 0;
    while i < features.len()
        invariant
            i <= features@.len(),
            forall|j: int| 0 <= j < i ==> (#[trigger] features@[j]).location != Some(*point),
        decreases features@.len() - i,
    {
        if is_at(&features[i], point) {
            return features[i].duplicate();
        }
        i = i + 1;
    }
    Feature { name: String::new(), location: None }
}

/// The features in the rectangle, in order.
pub open spec fn features_in(fs: Seq<Feature>, lo: Point, hi: Point) -> Seq<(Seq<char>, Option<Point>)>
    decreases fs.len(),
{
    if fs.len() == 0 {
        Seq::empty()
    } else {
        let rest = features_in(fs.drop_last(), lo, hi);
        if point_in_rect(fs.last().location->0, lo, hi) {
            rest.push(feature_view(fs.last()))
        } else {
            rest
        }
    }
}

/// The features that lie in the rectangle, in order. Every feature has a
/// location.
pub fn list_features(features: &Vec<Feature>, rect: &Rectangle) -> (r: Vec<Feature>)
    requires
        rect.lo is Some,
        rect.hi is Some,
        forall|i: int| 0 <= i < features@.len() ==> (#[trigger] features@[i]).location is Some,
    ensures
        r@.map_values(|f: Feature| feature_view(f)) == features_in(features@, rect.lo->0, rect.hi->0),
{
    let mut r: Vec<Feature> = Vec::new();
    let mut i: usize = 0;
    while i < features.len()
        invariant
            i <= features@.len(),
            rect.lo is Some,
            rect.hi is Some,
            forall|k: int| 0 <= k < features@.len() ==> (#[trigger] features@[k]).location is Some,
            r@.map_values(|f: Feature| feature_view(f)) == features_in(features@.take(i as int), rect.lo->0, rect.hi->0),
        decreases features@.len() - i,
    {
        let f = &features[i];
        let loc = match &f.location {
            Some(l) => l,
            None => vstd::pervasive::unreached(),
        };
        let ghost before = r@;
        if in_range(loc, rect) {
            r.push(f.duplicate());
            assert(r@.map_values(|f: Feature| feature_view(f)) =~= before.map_values(|f: Feature| feature_view(f)).push(feature_view(features@[i as int])));
        }
        assert(features@.take(i as int + 1).drop_last() =~= features@.take(i as int));
        i = i + 1;
    }
    assert(features@.take(features@.len() as int) =~= features@);
    r
}

/// The number of features at the point.
pub open spec fn count_at(fs: Seq<Feature>, p: Point) -> nat
    decreases fs.len(),
{
    if fs.len() == 0 {
        0
    } else {
        count_at(fs.drop_last(), p) + if fs.last().location == Some(p) { 1nat } else { 0nat }
    }
}

/// There are no more features at a point than features.
pub proof fn lemma_count_at_le(fs: Seq<Feature>, p: Point)
    ensures
        count_at(fs, p) <= fs.len(),
    decreases fs.len(),
{
    if fs.len() > 0 {
        lemma_count_at_le(fs.drop_last(), p);
    }
}

/// The number of features at the point.
pub fn features_at(features: &Vec<Feature>, point: &Point) -> (r: usize)
    ensures
        r == count_at(features@, *point),
{
    let mut n: usize = 0;
    let mut i: usize = 0;
    while i < features.len()
        invariant
            i <= features@.len(),
            n == count_at(features@.take(i as int), *point),
            n <= i,
        decreases features@.len() - i,
    {
        assert(features@.take(i as int + 1).drop_last() =~= features@.take(i as int));
        if is_at(&features[i], point) {
            n = n + 1;
        }
        i = i + 1;
    }
    assert(features@.take(features@.len() as int) =~= features@);
    n
}

/// The summary of a route as its points come in: the summary so far and
/// the last point.
pub struct RouteRecorder {
    /// The summary so far; its time is not set yet.
    pub summary: RouteSummary,
    /// The last point received.
    pub last: Option<Point>,
}

impl RouteRecorder {
    /// A route with no point yet.
    pub fn new() -> (r: RouteRecorder)
        ensures
            r.summary == (RouteSummary { point_count: 0, feature_count: 0, distance: 0, elapsed_time: 0 }),
            r.last is None,
    {
        RouteRecorder { summary: RouteSummary { point_count: 0, feature_count: 0, distance: 0, elapsed_time: 0 }, last: None }
    }

    /// Adds the next point of the route: one more point, the features at
    /// it, and where there was a point before, the distance `leg` from that
    /// point to this one.
    pub fn add(&mut self, features: &Vec<Feature>, point: Point, leg: i32)
        requires
            old(self).summary.point_count < i32::MAX,
            old(self).summary.feature_count + count_at(features@, point) <= i32::MAX,
            old(self).last is Some ==> i32::MIN <= old(self).summary.distance + leg <= i32::MAX,
        ensures
            final(self).summary.point_count == old(self).summary.point_count + 1,
            final(self).summary.feature_count == old(self).summary.feature_count + count_at(features@, point),
            final(self).summary.distance == old(self).summary.distance + if old(self).last is Some { leg as int } else { 0 },
            final(self).summary.elapsed_time == old(self).summary.elapsed_time,
            final(self).last == Some(point),
    {
        self.summary.point_count = self.summary.point_count + 1;
        let n = features_at(features, &point);
        proof {
            lemma_count_at_le(features@, point);
        }
        let total: i128 = self.summary.feature_count as i128 + n as i128;
        self.summary.feature_count = total as i32;
        if self.last.is_some() {
            self.summary.distance = self.summary.distance + leg;
        }
        self.last = Some(point);
    }

    /// The summary of the finished route, which took `elapsed_secs`
    /// seconds.
    pub fn finish(self, elapsed_secs: i32) -> (r: RouteSummary)
        ensures
            r == (RouteSummary { elapsed_time: elapsed_secs, ..self.summary }),
    {
        RouteSummary { elapsed_time: elapsed_secs, ..self.summary }
    }
}

/// The counts of a route through `ps`: points, features passed, and the
/// distance covered, where `legs[i]` is the distance from the point before
/// the `i`th to it (the first point has no leg).
pub open spec fn route_counts(fs: Seq<Feature>, ps: Seq<Point>, legs: Seq<i32>) -> (int, int, int)
    decreases ps.len(),
{
    if ps.len() == 0 {
        (0, 0, 0)
    } else {
        let c = route_counts(fs, ps.drop_last(), legs);
        (c.0 + 1, c.1 + count_at(fs, ps.last()), c.2 + if ps.len() > 1 { legs[ps.len() - 1] as int } else { 0 })
    }
}

/// The counts of every stretch of the route from its start fit in the
/// summary's fields.
pub open spec fn route_fits(fs: Seq<Feature>, ps: Seq<Point>, legs: Seq<i32>) -> bool {
    forall|k: int| 0 <= k <= ps.len() ==> {
        let c = #[trigger] route_counts(fs, ps.take(k), legs);
        &&& c.0 <= i32::MAX
        &&& c.1 <= i32::MAX
        &&& i32::MIN <= c.2 <= i32::MAX
    }
}

/// The summary of a route through `points` that took `elapsed_secs`
/// seconds, with `legs[i]` the distance from the point before the `i`th to
/// it. The counts must fit in the summary's fields.
pub fn record_route(features: &Vec<Feature>, points: &Vec<Point>, legs: &Vec<i32>, elapsed_secs: i32) -> (r: RouteSummary)
    requires
        legs@.len() == points@.len(),
        route_fits(features@, points@, legs@),
    ensures
        ({
            let c = route_counts(features@, points@, legs@);
            r == RouteSummary { point_count: c.0 as i32, feature_count: c.1 as i32, distance: c.2 as i32, elapsed_time: elapsed_secs }
        }),
{
    let mut rec = RouteRecorder::new();
    let mut i: usize = 0;
    assert(points@.take(0) =~= Seq::<Point>::empty());
    while i < points.len()
        invariant
            i <= points@.len(),
            legs@.len() == points@.len(),
            route_fits(features@, points@, legs@),
            ({
                let c = route_counts(features@, points@.take(i as int), legs@);
                &&& rec.summary.point_count == c.0
                &&& rec.summary.feature_count == c.1
                &&& rec.summary.distance == c.2
                &&& rec.summary.elapsed_time == 0
            }),
            i == 0 ==> rec.last is None,
            i > 0 ==> rec.last is Some,
        decreases points@.len() - i,
    {
        let ghost before = route_counts(features@, points@.take(i as int), legs@);
        proof {
            let t = points@.take(i as int + 1);
            assert(t.drop_last() =~= points@.take(i as int));
            assert(t.last() == points@[i as int]);
            let after = route_counts(features@, t, legs@);
            assert(after.0 <= i32::MAX && after.1 <= i32::MAX && i32::MIN <= after.2 <= i32::MAX);
        }
        rec.add(features, points[i], legs[i]);
        i = i + 1;
    }
    assert(points@.take(points@.len() as int) =~= points@);
    rec.finish(elapsed_secs)
}

/// The notes left so far, grouped by point: each point once, in the order
/// it first got a note, with its notes in the order they were left.
pub struct NoteBoard {
    notes: Vec<(Point, Vec<RouteNote>)>,
}

/// The notes at each point, as plain values.
pub open spec fn board_entries(v: Seq<(Point, Vec<RouteNote>)>) -> Seq<(Point, Seq<(Option<Point>, Seq<char>)>)> {
    Seq::new(v.len(), |i: int| (v[i].0, v[i].1@.map_values(|n: RouteNote| note_view(n))))
}

/// Whether the board has notes at the point.
pub open spec fn board_has(e: Seq<(Point, Seq<(Option<Point>, Seq<char>)>)>, p: Point) -> bool {
    exists|i: int| 0 <= i < e.len() && (#[trigger] e[i]).0 == p
}

/// The position of the point's notes.
pub open spec fn board_index(e: Seq<(Point, Seq<(Option<Point>, Seq<char>)>)>, p: Point) -> int {
    choose|i: int| 0 <= i < e.len() && (#[trigger] e[i]).0 == p
}

/// The board after a note is left at `p`: added after the notes at `p`,
/// or as the first note of a new point at the end.
pub open spec fn board_with(e: Seq<(Point, Seq<(Option<Point>, Seq<char>)>)>, p: Point, n: (Option<Point>, Seq<char>)) -> Seq<(Point, Seq<(Option<Point>, Seq<char>)>)> {
    if board_has(e, p) {
        let i = board_index(e, p);
        e.update(i, (p, e[i].1.push(n)))
    } else {
        e.push((p, seq![n]))
    }
}

/// Each point has one entry.
pub open spec fn board_wf(e: Seq<(Point, Seq<(Option<Point>, Seq<char>)>)>) -> bool {
    forall|i: int, j: int| 0 <= i < j < e.len() ==> (#[trigger] e[i]).0 != (#[trigger] e[j]).0
}

/// The notes at the point, none where it has no notes.
pub open spec fn board_notes(e: Seq<(Point, Seq<(Option<Point>, Seq<char>)>)>, p: Point) -> Seq<(Option<Point>, Seq<char>)> {
    if board_has(e, p) {
        e[board_index(e, p)].1
    } else {
        Seq::empty()
    }
}

impl View for NoteBoard {
    type V = Seq<(Point, Seq<(Option<Point>, Seq<char>)>)>;

    closed spec fn view(&self) -> Self::V {
        board_entries(self.notes@)
    }
}

impl NoteBoard {
    #[verifier::type_invariant]
    closed spec fn points_distinct(self) -> bool {
        forall|i: int, j: int| 0 <= i < j < self.notes@.len() ==> (#[trigger] self.notes@[i]).0 != (#[trigger] self.notes@[j]).0
    }

    /// A board with no notes.
    pub fn new() -> (r: NoteBoard)
        ensures
            r@ == Seq::<(Point, Seq<(Option<Point>, Seq<char>)>)>::empty(),
    {
        let r = NoteBoard { notes: Vec::new() };
        assert(r@ =~= Seq::<(Point, Seq<(Option<Point>, Seq<char>)>)>::empty());
        r
    }

    /// Copies of notes, in order.
    fn copies(notes: &Vec<RouteNote>) -> (r: Vec<RouteNote>)
        ensures
            r@.map_values(|n: RouteNote| note_view(n)) == notes@.map_values(|n: RouteNote| note_view(n)),
    {
        let mut r: Vec<RouteNote> = Vec::new();
        let mut i: usize = 0;
        while i < notes.len()
            invariant
                i <= notes@.len(),
                r@.len() == i,
                r@.map_values(|n: RouteNote| note_view(n)) == notes@.take(i as int).map_values(|n: RouteNote| note_view(n)),
            decreases notes@.len() - i,
        {
            let ghost before = r@;
            let d = notes[i].duplicate();
            r.push(d);
            proof {
                assert(notes@.take(i as int + 1) =~= notes@.take(i as int).push(notes@[i as int]));
                assert(r@ == before.push(d));
                assert(r@.map_values(|n: RouteNote| note_view(n)) =~= before.map_values(|n: RouteNote| note_view(n)).push(note_view(d)));
                assert(r@.map_values(|n: RouteNote| note_view(n)) =~= notes@.take(i as int + 1).map_values(|n: RouteNote| note_view(n)));
            }
            i = i + 1;
        }
        assert(notes@.take(notes@.len() as int) =~= notes@);
        r
    }

    /// Leaves a note at its location, and returns all notes left there so
    /// far, this one last. The note has a location.
    pub fn chat(&mut self, note: RouteNote) -> (r: Vec<RouteNote>)
        requires
            note.location is Some,
        ensures
            board_wf(old(self)@),
            board_wf(final(self)@),
            final(self)@ == board_with(old(self)@, note.location->0, note_view(note)),
            r@.map_values(|n: RouteNote| note_view(n)) == board_notes(final(self)@, note.location->0),
    {
        proof {
            use_type_invariant(&*self);
        }
        let p = match note.location {
            Some(p) => p,
            None => vstd::pervasive::unreached(),
        };
        let ghost e = self@;
        let ghost nv = note_view(note);
        let mut i: usize = 0;
        while i < self.notes.len()
            invariant_except_break
                i <= self.notes@.len(),
                forall|k: int| 0 <= k < i ==> (#[trigger] self.notes@[k]).0 != p,
            invariant
                e == board_entries(self.notes@),
            ensures
                i <= self.notes@.len(),
                forall|k: int| 0 <= k < i ==> (#[trigger] self.notes@[k]).0 != p,
                i < self.notes@.len() ==> self.notes@[i as int].0 == p,
            decreases self.notes@.len() - i,
        {
            if self.notes[i].0 == p {
                break;
            }
            i = i + 1;
        }
        if i < self.notes.len() {
            proof {
                assert(e[i as int].0 == p);
                assert(board_has(e, p));
                let j = board_index(e, p);
                if j != i as int {
                    if j < i as int {
                        assert(self.notes@[j].0 != p);
                    } else {
                        assert(self.notes@[i as int].0 != self.notes@[j].0);
                    }
                }
                assert(board_index(e, p) == i as int);
            }
            let mut entries: Vec<(Point, Vec<RouteNote>)> = Vec::new();
            std::mem::swap(&mut entries, &mut self.notes);
            let mut entry = entries.remove(i);
            let ghost old_notes = entry.1@;
            entry.1.push(note);
            let ghost new_notes = entry.1@;
            let out = NoteBoard::copies(&entry.1);
            entries.insert(i, entry);
            proof {
                assert(entries@ =~= old(self).notes@.update(i as int, entries@[i as int]));
                assert(new_notes =~= old_notes.push(note));
                assert(entries@[i as int].1@ == new_notes);
                assert(new_notes.map_values(|n: RouteNote| note_view(n)) =~= old_notes.map_values(|n: RouteNote| note_view(n)).push(nv));
                assert(e[i as int].1 == old_notes.map_values(|n: RouteNote| note_view(n)));
                assert(board_entries(entries@) =~= board_with(e, p, nv));
                assert forall|a: int, b: int| 0 <= a < b < entries@.len() implies (#[trigger] entries@[a]).0 != (#[trigger] entries@[b]).0 by {
                    assert(entries@[a].0 == old(self).notes@[a].0);
                    assert(entries@[b].0 == old(self).notes@[b].0);
                }
                assert(board_entries(entries@)[i as int].0 == p);
                assert(board_has(board_entries(entries@), p));
                let j = board_index(board_entries(entries@), p);
                if j != i as int {
                    assert(entries@[j].0 == p);
                    if j < i as int {
                        assert(entries@[j].0 != entries@[i as int].0);
                    } else {
                        assert(entries@[i as int].0 != entries@[j].0);
                    }
                }
            }
            self.notes = entries;
            out
        } else {
            proof {
                assert(!board_has(e, p)) by {
                    if board_has(e, p) {
                        let j = board_index(e, p);
                        assert(self.notes@[j].0 != p);
                    }
                }
            }
            let mut first: Vec<RouteNote> = Vec::new();
            first.push(note);
            let out = NoteBoard::copies(&first);
            let mut entries: Vec<(Point, Vec<RouteNote>)> = Vec::new();
            std::mem::swap(&mut entries, &mut self.notes);
            let ghost before = entries@;
            entries.push((p, first));
            proof {
                assert(board_entries(entries@) =~= board_with(e, p, nv)) by {
                    assert(entries@[before.len() as int].1@.map_values(|n: RouteNote| note_view(n)) =~= seq![nv]);
                }
                assert forall|a: int, b: int| 0 <= a < b < entries@.len() implies (#[trigger] entries@[a]).0 != (#[trigger] entries@[b]).0 by {
                    if b == before.len() {
                        assert(before[a].0 != p);
                    }
                }
                let last = before.len() as int;
                assert(board_entries(entries@)[last].0 == p);
                assert(board_has(board_entries(entries@), p));
                let j = board_index(board_entries(entries@), p);
                if j != last {
                    assert(entries@[j].0 == p);
                    assert(before[j].0 != p);
                }
                assert(out@.map_values(|n: RouteNote| note_view(n)) =~= seq![nv]);
            }
            self.notes = entries;
            out
        }
    }
}

/// Leaving a note at a point adds it after the notes there, and leaves the
/// notes at every other point as they were.
pub proof fn lemma_chat_then_notes(e: Seq<(Point, Seq<(Option<Point>, Seq<char>)>)>, p: Point, n: (Option<Point>, Seq<char>), q: Point)
    requires
        board_wf(e),
    ensures
        board_wf(board_with(e, p, n)),
        board_notes(board_with(e, p, n), p) == board_notes(e, p).push(n),
        q != p ==> board_notes(board_with(e, p, n), q) == board_notes(e, q),
{
    let f = board_with(e, p, n);
    if board_has(e, p) {
        let i = board_index(e, p);
        assert(f[i].0 == p);
        assert(board_has(f, p));
        let j = board_index(f, p);
        if j != i {
            assert(e[j].0 == p);
        }
        if q != p {
            if board_has(e, q) {
                let k = board_index(e, q);
                assert(f[k].0 == q);
                assert(board_has(f, q));
                let m = board_index(f, q);
                if m != k {
                    assert(f[m].0 == e[m].0);
                }
            } else {
                assert(!board_has(f, q)) by {
                    if board_has(f, q) {
                        let m = board_index(f, q);
                        assert(f[m].0 == e[m].0);
                    }
                }
            }
        }
    } else {
        let last = e.len() as int;
        assert(f[last].0 == p);
        assert(board_has(f, p));
        let j = board_index(f, p);
        if j != last {
            assert(e[j].0 == p);
        }
        assert(board_notes(e, p) =~= Seq::<(Option<Point>, Seq<char>)>::empty());
        assert(board_notes(f, p) =~= board_notes(e, p).push(n));
        if q != p {
            if board_has(e, q) {
                let k = board_index(e, q);
                assert(f[k].0 == q);
                assert(board_has(f, q));
                let m = board_index(f, q);
                if m != k {
                    assert(f[m].0 == q);
                }
            } else {
                assert(!board_has(f, q)) by {
                    if board_has(f, q) {
                        let m = board_index(f, q);
                        if m < last {
                            assert(f[m].0 == e[m].0);
                        }
                    }
                }
            }
        }
    }
}

/// A rectangle is the same whichever pair of opposite corners gives it.
pub proof fn lemma_rect_corners_symmetric(p: Point, lo: Point, hi: Point)
    ensures
        point_in_rect(p, lo, hi) == point_in_rect(p, hi, lo),
{
}

/// `x` lies between `a` and `b`, in whichever order they come.
pub open spec fn between(x: i32, a: i32, b: i32) -> bool {
    (a <= x && x <= b) || (b <= x && x <= a)
}

/// A point is in the rectangle exactly when its latitude lies between the
/// corners' latitudes and its longitude between the corners' longitudes;
/// both corners are in it, and so is any point that takes its latitude
/// from one corner and its longitude from the other.
pub proof fn lemma_in_rect_by_coordinates(p: Point, lo: Point, hi: Point)
    ensures
        point_in_rect(p, lo, hi) <==> (between(p.latitude, lo.latitude, hi.latitude)
            && between(p.longitude, lo.longitude, hi.longitude)),
        point_in_rect(lo, lo, hi),
        point_in_rect(hi, lo, hi),
        (p.latitude == lo.latitude && p.longitude == hi.longitude) ==> point_in_rect(p, lo, hi),
        (p.latitude == hi.latitude && p.longitude == lo.longitude) ==> point_in_rect(p, lo, hi),
{
}

} // verus!

//! The desktop's monitor layout in physical pixels: the checks on each
//! display, the stable order of the monitors, their bounding box and its
//! limits, and which monitor holds a pointer position.

use vstd::prelude::*;
use crate::error::{AppControlError, AppResult};

verus! {

/// The message of every desktop platform refusal.
pub open spec fn platform_message() -> Seq<char> {
    "The Windows desktop platform could not complete this operation."@
}

/// A desktop platform refusal with a stable code.
pub fn platform_error(code: &'static str) -> (e: AppControlError)
    ensures
        e.code == code,
        e.message@ == platform_message(),
        e.details == crate::json::Json::Null,
{
    AppControlError::new(code, "The Windows desktop platform could not complete this operation.")
}

/// One monitor: its native handle and its rectangle in physical pixels.
#[derive(Clone, Copy, Debug, PartialEq, Eq, Structural)]
pub struct MonitorRect {
    pub handle: isize,
    pub x: i32,
    pub y: i32,
    pub width: u32,
    pub height: u32,
}

/// The coordinate bound of a monitor's origin.
pub const COORDINATE_LIMIT: i64 = 1_000_000;

/// The side bound of a monitor and of the whole desktop.
pub const SIDE_LIMIT: i64 = 16_384;

/// The area bound of the whole desktop.
pub const AREA_LIMIT: i64 = 67_108_864;

/// The most displays a layout may hold.
pub const MAX_DISPLAYS: usize = 32;

/// Whether a monitor rectangle passed the display checks.
pub open spec fn monitor_valid(m: MonitorRect) -> bool {
    &&& -COORDINATE_LIMIT <= m.x <= COORDINATE_LIMIT
    &&& -COORDINATE_LIMIT <= m.y <= COORDINATE_LIMIT
    &&& 1 <= m.width <= SIDE_LIMIT
    &&& 1 <= m.height <= SIDE_LIMIT
}

/// The display count check: at least one and at most `MAX_DISPLAYS` displays.
pub fn check_display_count(count: usize) -> (r: AppResult<()>)
    ensures
        r is Ok <==> 1 <= count <= MAX_DISPLAYS,
        r matches Err(e) ==> e.code@ == "DISPLAY_UNAVAILABLE"@ && e.message@ == platform_message(),
{
    if count == 0 || count > MAX_DISPLAYS {
        return Err(platform_error("DISPLAY_UNAVAILABLE"));
    }
    Ok(())
}

/// Checks the rounded physical rectangle of one display: an origin within
/// the coordinate bound and sides of one to `SIDE_LIMIT` pixels.
pub fn validated_rect(x: i64, y: i64, width: i64, height: i64) -> (r: AppResult<(i32, i32, u32, u32)>)
    ensures
        r is Ok <==> (-COORDINATE_LIMIT <= x <= COORDINATE_LIMIT && -COORDINATE_LIMIT <= y <= COORDINATE_LIMIT
            && 1 <= width <= SIDE_LIMIT && 1 <= height <= SIDE_LIMIT),
        r matches Ok(v) ==> v.0 == x && v.1 == y && v.2 == width && v.3 == height,
        r matches Err(e) ==> e.code@ == "DISPLAY_UNAVAILABLE"@ && e.message@ == platform_message(),
{
    if x < -COORDINATE_LIMIT || x > COORDINATE_LIMIT || y < -COORDINATE_LIMIT || y > COORDINATE_LIMIT
        || width < 1 || width > SIDE_LIMIT || height < 1 || height > SIDE_LIMIT
    {
        return Err(platform_error("DISPLAY_UNAVAILABLE"));
    }
    Ok((x as i32, y as i32, width as u32, height as u32))
}

/// Whether `a` comes strictly before `b`: by `x`, then `y`, then handle.
pub open spec fn key_lt(a: MonitorRect, b: MonitorRect) -> bool {
    a.x < b.x || (a.x == b.x && (a.y < b.y || (a.y == b.y && a.handle < b.handle)))
}

/// Whether `a` does not come after `b`.
pub open spec fn key_le(a: MonitorRect, b: MonitorRect) -> bool {
    !key_lt(b, a)
}

/// Where a monitor goes in an ordered list: after every monitor that does
/// not come after it.
pub open spec fn insertion_point(s: Seq<MonitorRect>, m: MonitorRect) -> int
    decreases s.len(),
{
    if s.len() == 0 {
        0
    } else if key_lt(m, s[0]) {
        0
    } else {
        1 + insertion_point(s.drop_first(), m)
    }
}

/// The monitors in the layout order: by `x`, `y` and handle, and monitors with
/// equal keys in their display order.
pub open spec fn layout_order(s: Seq<MonitorRect>) -> Seq<MonitorRect>
    decreases s.len(),
{
    if s.len() == 0 {
        s
    } else {
        let sorted = layout_order(s.drop_last());
        sorted.insert(insertion_point(sorted, s.last()), s.last())
    }
}

/// Whether a list of monitors is in key order.
pub open spec fn key_sorted(s: Seq<MonitorRect>) -> bool {
    forall|i: int, j: int| 0 <= i < j < s.len() ==> key_le(#[trigger] s[i], #[trigger] s[j])
}

proof fn lemma_insertion_point(s: Seq<MonitorRect>, m: MonitorRect)
    requires
        key_sorted(s),
    ensures
        0 <= insertion_point(s, m) <= s.len(),
        forall|i: int| 0 <= i < insertion_point(s, m) ==> key_le(#[trigger] s[i], m),
        forall|i: int| insertion_point(s, m) <= i < s.len() ==> key_lt(m, #[trigger] s[i]),
    decreases s.len(),
{
    if s.len() > 0 && !key_lt(m, s[0]) {
        let t = s.drop_first();
        assert forall|i: int, j: int| 0 <= i < j < t.len() implies key_le(#[trigger] t[i], #[trigger] t[j]) by {
            assert(t[i] == s[i + 1] && t[j] == s[j + 1]);
        }
        lemma_insertion_point(t, m);
        assert forall|i: int| 0 <= i < insertion_point(s, m) implies key_le(#[trigger] s[i], m) by {
            if i > 0 {
                assert(s[i] == t[i - 1]);
            }
        }
        assert forall|i: int| insertion_point(s, m) <= i < s.len() implies key_lt(m, #[trigger] s[i]) by {
            assert(s[i] == t[i - 1]);
        }
    }
}

/// The layout order is ascending in (`x`, `y`, handle) and holds exactly the
/// given monitors, each as often as given.
pub proof fn lemma_layout_order(s: Seq<MonitorRect>)
    ensures
        key_sorted(layout_order(s)),
        forall|i: int, j: int| 0 <= i < j < layout_order(s).len() ==> (layout_order(s)[i].x < layout_order(s)[j].x
            || (layout_order(s)[i].x == layout_order(s)[j].x && (layout_order(s)[i].y < layout_order(s)[j].y
            || (layout_order(s)[i].y == layout_order(s)[j].y && layout_order(s)[i].handle <= layout_order(s)[j].handle)))),
        layout_order(s).to_multiset() == s.to_multiset(),
        layout_order(s).len() == s.len(),
    decreases s.len(),
{
    broadcast use vstd::seq_lib::group_to_multiset_ensures;
    if s.len() > 0 {
        let d = s.drop_last();
        let e = s.last();
        lemma_layout_order(d);
        let sorted = layout_order(d);
        lemma_insertion_point(sorted, e);
        let p = insertion_point(sorted, e);
        let r = sorted.insert(p, e);
        assert forall|i: int, j: int| 0 <= i < j < r.len() implies key_le(#[trigger] r[i], #[trigger] r[j]) by {
            if j < p {
                assert(r[i] == sorted[i] && r[j] == sorted[j]);
            } else if j == p {
                assert(r[j] == e && r[i] == sorted[i]);
            } else if i < p {
                assert(r[i] == sorted[i] && r[j] == sorted[j - 1]);
                assert(key_le(sorted[i], e));
                assert(key_lt(e, sorted[j - 1]));
            } else if i == p {
                assert(r[i] == e && r[j] == sorted[j - 1]);
            } else {
                assert(r[i] == sorted[i - 1] && r[j] == sorted[j - 1]);
            }
        }
        vstd::seq_lib::to_multiset_insert(sorted, p, e);
        assert(s =~= d.push(e));
    }
    let r = layout_order(s);
    assert forall|i: int, j: int| 0 <= i < j < r.len() implies (r[i].x < r[j].x
        || (r[i].x == r[j].x && (r[i].y < r[j].y || (r[i].y == r[j].y && r[i].handle <= r[j].handle)))) by {
        assert(key_le(r[i], r[j]));
    }
}

/// The smallest `x` of a non-empty list.
pub open spec fn min_x(s: Seq<MonitorRect>) -> int
    decreases s.len(),
{
    if s.len() <= 1 {
        s[0].x as int
    } else {
        let m = min_x(s.drop_last());
        if s.last().x < m { s.last().x as int } else { m }
    }
}

/// The smallest `y` of a non-empty list.
pub open spec fn min_y(s: Seq<MonitorRect>) -> int
    decreases s.len(),
{
    if s.len() <= 1 {
        s[0].y as int
    } else {
        let m = min_y(s.drop_last());
        if s.last().y < m { s.last().y as int } else { m }
    }
}

/// The largest right edge of a non-empty list.
pub open spec fn max_right(s: Seq<MonitorRect>) -> int
    decreases s.len(),
{
    if s.len() <= 1 {
        s[0].x + s[0].width
    } else {
        let m = max_right(s.drop_last());
        if s.last().x + s.last().width > m { s.last().x + s.last().width } else { m }
    }
}

/// The largest bottom edge of a non-empty list.
pub open spec fn max_bottom(s: Seq<MonitorRect>) -> int
    decreases s.len(),
{
    if s.len() <= 1 {
        s[0].y + s[0].height
    } else {
        let m = max_bottom(s.drop_last());
        if s.last().y + s.last().height > m { s.last().y + s.last().height } else { m }
    }
}

/// The desktop layout: the ordered monitors and their bounding box.
#[derive(Debug)]
pub struct DesktopLayout {
    pub monitors: Vec<MonitorRect>,
    pub x: i32,
    pub y: i32,
    pub width: u32,
    pub height: u32,
}

/// Whether the bounding box of `s` fits the desktop limits.
pub open spec fn box_fits(s: Seq<MonitorRect>) -> bool {
    let w = max_right(s) - min_x(s);
    let h = max_bottom(s) - min_y(s);
    1 <= w <= SIDE_LIMIT && 1 <= h <= SIDE_LIMIT && w * h <= AREA_LIMIT
}

/// Places a monitor after every monitor that does not come after it.
fn insert_in_order(out: &mut Vec<MonitorRect>, m: MonitorRect)
    requires
        key_sorted(old(out)@),
    ensures
        final(out)@ == old(out)@.insert(insertion_point(old(out)@, m), m),
{
    proof { lemma_insertion_point(out@, m); }
    let mut p: usize = 0;
    assert(out@.skip(0) =~= out@);
    while p < out.len() && !(m.x < out[p].x || (m.x == out[p].x && (m.y < out[p].y || (m.y == out[p].y && m.handle < out[p].handle))))
        invariant
            p <= out@.len(),
            insertion_point(out@, m) == p + insertion_point(out@.skip(p as int), m),
        decreases out@.len() - p,
    {
        let ghost t = out@.skip(p as int);
        assert(t.drop_first() =~= out@.skip(p + 1));
        assert(t[0] == out@[p as int]);
        p = p + 1;
    }
    proof {
        if p < out@.len() {
            assert(out@.skip(p as int)[0] == out@[p as int]);
        } else {
            assert(out@.skip(p as int).len() == 0);
        }
    }
    out.insert(p, m);
}

/// Orders monitors by `x`, `y` and handle, keeping the display order of equal keys.
pub fn order_monitors(monitors: &Vec<MonitorRect>) -> (r: Vec<MonitorRect>)
    ensures
        r@ == layout_order(monitors@),
        forall|i: int, j: int| 0 <= i < j < r@.len() ==> (r@[i].x < r@[j].x
            || (r@[i].x == r@[j].x && (r@[i].y < r@[j].y
            || (r@[i].y == r@[j].y && r@[i].handle <= r@[j].handle)))),
        r@.to_multiset() == monitors@.to_multiset(),
{
    let mut out: Vec<MonitorRect> = Vec::new();
    let mut i: usize = 0;
    while i < monitors.len()
        invariant
            i <= monitors@.len(),
            out@ == layout_order(monitors@.take(i as int)),
        decreases monitors@.len() - i,
    {
        proof {
            lemma_layout_order(monitors@.take(i as int));
            let t = monitors@.take(i + 1);
            assert(t.drop_last() =~= monitors@.take(i as int));
            assert(t.last() == monitors@[i as int]);
        }
        insert_in_order(&mut out, monitors[i]);
        i = i + 1;
    }
    assert(monitors@.take(i as int) =~= monitors@);
    proof { lemma_layout_order(monitors@); }
    out
}

/// The layout of validated monitors: the monitors in layout order and their
/// bounding box, refused when the box exceeds a side or the area limit.
pub fn union_layout(monitors: &Vec<MonitorRect>) -> (r: AppResult<DesktopLayout>)
    requires
        1 <= monitors@.len() <= MAX_DISPLAYS,
        forall|i: int| 0 <= i < monitors@.len() ==> monitor_valid(#[trigger] monitors@[i]),
    ensures
        r is Ok <==> box_fits(monitors@),
        r matches Err(e) ==> e.code@ == "RESOURCE_EXHAUSTED"@ && e.message@ == platform_message(),
        r matches Ok(l) ==> l.monitors@ == layout_order(monitors@)
            && l.x == min_x(monitors@) && l.y == min_y(monitors@)
            && l.width == max_right(monitors@) - min_x(monitors@)
            && l.height == max_bottom(monitors@) - min_y(monitors@),
        r matches Ok(l) ==> forall|i: int, j: int| 0 <= i < j < l.monitors@.len() ==> (l.monitors@[i].x < l.monitors@[j].x
            || (l.monitors@[i].x == l.monitors@[j].x && (l.monitors@[i].y < l.monitors@[j].y
            || (l.monitors@[i].y == l.monitors@[j].y && l.monitors@[i].handle <= l.monitors@[j].handle)))),
        r matches Ok(l) ==> l.monitors@.to_multiset() == monitors@.to_multiset(),
{
    let s = monitors;
    let mut lx: i32 = s[0].x;
    let mut ly: i32 = s[0].y;
    let mut right: i64 = s[0].x as i64 + s[0].width as i64;
    let mut bottom: i64 = s[0].y as i64 + s[0].height as i64;
    let mut i: usize = 1;
    proof {
        assert(monitors@.take(1).len() == 1);
        assert(monitors@.take(1)[0] == monitors@[0]);
    }
    while i < s.len()
        invariant
            1 <= i <= s@.len(),
            s@.len() <= MAX_DISPLAYS,
            forall|k: int| 0 <= k < s@.len() ==> monitor_valid(#[trigger] s@[k]),
            lx == min_x(s@.take(i as int)),
            ly == min_y(s@.take(i as int)),
            right == max_right(s@.take(i as int)),
            bottom == max_bottom(s@.take(i as int)),
            -COORDINATE_LIMIT <= lx <= COORDINATE_LIMIT,
            -COORDINATE_LIMIT <= ly <= COORDINATE_LIMIT,
            -COORDINATE_LIMIT + 1 <= right <= COORDINATE_LIMIT + SIDE_LIMIT,
            -COORDINATE_LIMIT + 1 <= bottom <= COORDINATE_LIMIT + SIDE_LIMIT,
        decreases s@.len() - i,
    {
        proof {
            let t = s@.take(i + 1);
            assert(t.drop_last() =~= s@.take(i as int));
            assert(t.last() == s@[i as int]);
        }
        let m = s[i];
        if m.x < lx {
            lx = m.x;
        }
        if m.y < ly {
            ly = m.y;
        }
        let r: i64 = m.x as i64 + m.width as i64;
        if r > right {
            right = r;
        }
        let b: i64 = m.y as i64 + m.height as i64;
        if b > bottom {
            bottom = b;
        }
        i = i + 1;
    }
    assert(s@.take(i as int) =~= s@);
    let width: i64 = right - lx as i64;
    let height: i64 = bottom - ly as i64;
    if width < 1 || width > SIDE_LIMIT || height < 1 || height > SIDE_LIMIT {
        return Err(platform_error("RESOURCE_EXHAUSTED"));
    }
    assert(0 <= width * height <= SIDE_LIMIT * SIDE_LIMIT) by (nonlinear_arith)
        requires
            1 <= width <= SIDE_LIMIT,
            1 <= height <= SIDE_LIMIT;
    let area: i64 = width * height;
    if area > AREA_LIMIT {
        return Err(platform_error("RESOURCE_EXHAUSTED"));
    }
    let ordered = order_monitors(monitors);
    Ok(DesktopLayout { monitors: ordered, x: lx, y: ly, width: width as u32, height: height as u32 })
}

/// Whether a monitor holds a pointer position.
pub open spec fn holds(m: MonitorRect, x: int, y: int) -> bool {
    m.x <= x && m.y <= y && x < m.x + m.width && y < m.y + m.height
}

/// Whether a monitor holds a pointer position.
pub fn monitor_contains(m: &MonitorRect, x: i32, y: i32) -> (r: bool)
    ensures
        r == holds(*m, x as int, y as int),
{
    x >= m.x && y >= m.y && (x as i64) < m.x as i64 + m.width as i64 && (y as i64) < m.y as i64 + m.height as i64
}

/// The first monitor of the layout that holds a pointer position.
pub fn monitor_at(layout: &DesktopLayout, x: i32, y: i32) -> (r: Option<usize>)
    ensures
        match r {
            Some(i) => i < layout.monitors@.len() && holds(layout.monitors@[i as int], x as int, y as int)
                && forall|k: int| 0 <= k < i ==> !holds(#[trigger] layout.monitors@[k], x as int, y as int),
            None => forall|k: int| 0 <= k < layout.monitors@.len() ==> !holds(#[trigger] layout.monitors@[k], x as int, y as int),
        },
{
    let mut i: usize = 0;
    while i < layout.monitors.len()
        invariant
            i <= layout.monitors@.len(),
            forall|k: int| 0 <= k < i ==> !holds(#[trigger] layout.monitors@[k], x as int, y as int),
        decreases layout.monitors@.len() - i,
    {
        if monitor_contains(&layout.monitors[i], x, y) {
            return Some(i);
        }
        i = i + 1;
    }
    None
}

/// Whether two layouts are the same: equal monitors in the same order and an
/// equal bounding box.
pub fn same_layout(a: &DesktopLayout, b: &DesktopLayout) -> (r: bool)
    ensures
        r == (a.monitors@ == b.monitors@ && a.x == b.x && a.y == b.y && a.width == b.width && a.height == b.height),
{
    if a.x != b.x || a.y != b.y || a.width != b.width || a.height != b.height {
        return false;
    }
    if a.monitors.len() != b.monitors.len() {
        return false;
    }
    let mut i: usize = 0;
    while i < a.monitors.len()
        invariant
            i <= a.monitors@.len(),
            a.monitors@.len() == b.monitors@.len(),
            forall|k: int| 0 <= k < i ==> a.monitors@[k] == b.monitors@[k],
        decreases a.monitors@.len() - i,
    {
        if a.monitors[i] != b.monitors[i] {
            return false;
        }
        i = i + 1;
    }
    assert(a.monitors@ =~= b.monitors@);
    true
}

/// The pointer position moved by a delta already scaled to physical pixels;
/// a position outside the 32-bit range is refused.
pub fn moved_point(x: i32, y: i32, dx: i64, dy: i64) -> (r: AppResult<(i32, i32)>)
    requires
        i64::MIN <= x + dx <= i64::MAX,
        i64::MIN <= y + dy <= i64::MAX,
    ensures
        r is Ok <==> (i32::MIN <= x + dx <= i32::MAX && i32::MIN <= y + dy <= i32::MAX),
        r matches Ok(p) ==> p.0 == x + dx && p.1 == y + dy,
        r matches Err(e) ==> e.code@ == "INVALID_ARGUMENT"@ && e.message@ == platform_message(),
{
    let nx: i64 = x as i64 + dx;
    let ny: i64 = y as i64 + dy;
    if nx < i32::MIN as i64 || nx > i32::MAX as i64 || ny < i32::MIN as i64 || ny > i32::MAX as i64 {
        return Err(platform_error("INVALID_ARGUMENT"));
    }
    Ok((nx as i32, ny as i32))
}

} // verus!

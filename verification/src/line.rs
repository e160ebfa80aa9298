//! Straight lines, walked point by point and cut off where they leave the
//! screen.

use vstd::prelude::*;
use line_drawing::Bresenham;
use specs_blit::PixelBuffer;
use crate::frame::{
    buffer_height, buffer_pixels, buffer_width, lemma_position_index, on_screen, pixel_index,
    plot_point, well_formed,
};

verus! {

#[verifier::external_type_specification]
#[verifier::external_body]
#[verifier::reject_recursive_types(T)]
pub struct ExBresenham<T>(Bresenham<T>);

/// The points of the line from `start` to `end`, both included, in the
/// order in which Bresenham's algorithm visits them.
pub uninterp spec fn bresenham(start: (i64, i64), end: (i64, i64)) -> Seq<(i64, i64)>;

/// The points that a line walk has not handed out yet.
pub uninterp spec fn remaining(walk: Bresenham<i64>) -> Seq<(i64, i64)>;

/// The distance between two numbers.
pub open spec fn distance(a: int, b: int) -> int {
    if a <= b {
        b - a
    } else {
        a - b
    }
}

/// How many points the line between two points has: one for each step
/// along the axis on which the points lie further apart, and one more.
pub open spec fn line_len(start: (i64, i64), end: (i64, i64)) -> int {
    if distance(start.0 as int, end.0 as int) >= distance(start.1 as int, end.1 as int) {
        distance(start.0 as int, end.0 as int) + 1
    } else {
        distance(start.1 as int, end.1 as int) + 1
    }
}

/// Whether both coordinates of a point are 32-bit numbers.
pub open spec fn in_range(point: (i64, i64)) -> bool {
    &&& i32::MIN <= point.0 <= i32::MAX
    &&& i32::MIN <= point.1 <= i32::MAX
}

/// `Bresenham::new`: a walk that has all the points of the line still to
/// hand out. It starts with `start`, ends with `end`, and takes one step
/// along the longer axis from each point to the next. The walk counts in
/// 64 bits, which the differences of 32-bit coordinates fit.
#[verifier::external_body]
fn walk_line(start: (i64, i64), end: (i64, i64)) -> (walk: Bresenham<i64>)
    requires
        in_range(start),
        in_range(end),
    ensures
        remaining(walk) == bresenham(start, end),
        remaining(walk).len() == line_len(start, end),
        remaining(walk).first() == start,
        remaining(walk).last() == end,
{
    Bresenham::new(start, end)
}

/// `Iterator::next` of `Bresenham`: hands out the first of the remaining
/// points, or nothing once none remains.
#[verifier::external_body]
fn next_point(walk: &mut Bresenham<i64>) -> (point: Option<(i64, i64)>)
    ensures
        remaining(*old(walk)).len() == 0 ==> point.is_none() && remaining(*final(walk)).len() == 0,
        remaining(*old(walk)).len() > 0 ==> point == Some(remaining(*old(walk))[0])
            && remaining(*final(walk)) == remaining(*old(walk)).drop_first(),
{
    walk.next()
}

/// How many points of a walk are drawn: those before the first one that
/// lies off the screen.
pub open spec fn visible_len(walk: Seq<(i64, i64)>, width: nat, height: nat) -> nat
    decreases walk.len(),
{
    if walk.len() == 0 || !on_screen(walk[0], width, height) {
        0
    } else {
        1 + visible_len(walk.drop_first(), width, height)
    }
}

/// Whether one of the first `count` points of a walk falls on the pixel at
/// `index`.
pub open spec fn covers(walk: Seq<(i64, i64)>, count: nat, width: nat, index: int) -> bool {
    exists|i: int| 0 <= i < count && i < walk.len() && pixel_index(#[trigger] walk[i], width) == index
}

/// The pixels after the first `count` points of a walk were painted.
pub open spec fn painted(
    pixels: Seq<u32>,
    width: nat,
    walk: Seq<(i64, i64)>,
    count: nat,
    color: u32,
) -> Seq<u32> {
    Seq::new(
        pixels.len(),
        |index: int|
            if covers(walk, count, width, index) {
                color
            } else {
                pixels[index]
            },
    )
}

/// The pixels after a walk was drawn: the walk is painted up to its first
/// point off the screen, and every other pixel is as it was.
pub open spec fn drawn(
    pixels: Seq<u32>,
    width: nat,
    height: nat,
    walk: Seq<(i64, i64)>,
    color: u32,
) -> Seq<u32> {
    painted(pixels, width, walk, visible_len(walk, width, height), color)
}

/// The pixels after the first `count` lines of a list were drawn, one
/// after the other.
pub open spec fn drawn_lines(
    pixels: Seq<u32>,
    width: nat,
    height: nat,
    lines: Seq<Segment>,
    count: nat,
) -> Seq<u32>
    decreases count,
{
    if count == 0 || count > lines.len() {
        pixels
    } else {
        let line = lines[count - 1];
        drawn(
            drawn_lines(pixels, width, height, lines, (count - 1) as nat),
            width,
            height,
            bresenham(line.start(), line.end()),
            line.shade(),
        )
    }
}

/// A line of one colour between two points of the screen's coordinate
/// system.
#[derive(Clone, Copy, Debug, PartialEq, Eq)]
pub struct Segment {
    p1: (i32, i32),
    p2: (i32, i32),
    color: u32,
}

impl Segment {
    /// The point the line starts at.
    pub closed spec fn start(&self) -> (i64, i64) {
        (self.p1.0 as i64, self.p1.1 as i64)
    }

    /// The point the line ends at.
    pub closed spec fn end(&self) -> (i64, i64) {
        (self.p2.0 as i64, self.p2.1 as i64)
    }

    /// The colour the line is drawn in.
    pub closed spec fn shade(&self) -> u32 {
        self.color
    }

    /// A line from `p1` to `p2`.
    pub fn new(p1: (i32, i32), p2: (i32, i32), color: u32) -> (segment: Segment)
        ensures
            segment.start() == (p1.0 as i64, p1.1 as i64),
            segment.end() == (p2.0 as i64, p2.1 as i64),
            segment.shade() == color,
    {
        Segment { p1, p2, color }
    }

    pub fn p1(&self) -> (point: (i32, i32))
        ensures
            self.start() == (point.0 as i64, point.1 as i64),
    {
        self.p1
    }

    pub fn p2(&self) -> (point: (i32, i32))
        ensures
            self.end() == (point.0 as i64, point.1 as i64),
    {
        self.p2
    }

    pub fn color(&self) -> (color: u32)
        ensures
            color == self.shade(),
    {
        self.color
    }

    /// The same line in another colour.
    pub fn with_color(&self, color: u32) -> (segment: Segment)
        ensures
            segment.start() == self.start(),
            segment.end() == self.end(),
            segment.shade() == color,
    {
        Segment { p1: self.p1, p2: self.p2, color }
    }
}

/// If the first `count` points of a walk are on the screen and the walk
/// ends there or goes off the screen there, `count` points are drawn.
proof fn lemma_visible_len(walk: Seq<(i64, i64)>, width: nat, height: nat, count: nat)
    requires
        count <= walk.len(),
        forall|i: int| 0 <= i < count ==> on_screen(#[trigger] walk[i], width, height),
        count == walk.len() || !on_screen(walk[count as int], width, height),
    ensures
        visible_len(walk, width, height) == count,
    decreases count,
{
    if count > 0 {
        let rest = walk.drop_first();
        assert(on_screen(walk[0], width, height));
        assert forall|i: int| 0 <= i < count - 1 implies on_screen(
            #[trigger] rest[i],
            width,
            height,
        ) by {
            assert(rest[i] == walk[i + 1]);
        }
        if count < walk.len() {
            assert(rest[count - 1] == walk[count as int]);
        }
        lemma_visible_len(rest, width, height, (count - 1) as nat);
    }
}

/// Painting one more point of a walk changes the one pixel it falls on.
proof fn lemma_paint_next(pixels: Seq<u32>, width: nat, walk: Seq<(i64, i64)>, count: nat, color: u32)
    requires
        count < walk.len(),
        0 <= pixel_index(walk[count as int], width) < pixels.len(),
    ensures
        painted(pixels, width, walk, count + 1, color) == painted(
            pixels,
            width,
            walk,
            count,
            color,
        ).update(pixel_index(walk[count as int], width), color),
{
    let target = pixel_index(walk[count as int], width);
    let before = painted(pixels, width, walk, count, color);
    let after = painted(pixels, width, walk, count + 1, color);
    assert forall|index: int| 0 <= index < pixels.len() implies after[index] == before.update(
        target,
        color,
    )[index] by {
        if covers(walk, count, width, index) {
            let i = choose|i: int|
                0 <= i < count && i < walk.len() && pixel_index(#[trigger] walk[i], width) == index;
            assert(0 <= i < count + 1 && pixel_index(walk[i], width) == index);
        }
        if index == target {
            assert(pixel_index(walk[count as int], width) == index);
        }
    }
    assert(after =~= before.update(target, color));
}

/// Draw a walk that is already at hand: paint its points in order and stop
/// at the first one off the screen.
pub fn plot(buffer: &mut PixelBuffer, points: &Vec<(i64, i64)>, color: u32)
    requires
        well_formed(*old(buffer)),
    ensures
        well_formed(*final(buffer)),
        buffer_width(*final(buffer)) == buffer_width(*old(buffer)),
        buffer_height(*final(buffer)) == buffer_height(*old(buffer)),
        buffer_pixels(*final(buffer)) == drawn(
            buffer_pixels(*old(buffer)),
            buffer_width(*old(buffer)),
            buffer_height(*old(buffer)),
            points@,
            color,
        ),
{
    let ghost before = buffer_pixels(*buffer);
    let ghost width = buffer_width(*buffer);
    let ghost height = buffer_height(*buffer);
    assert(painted(before, width, points@, 0, color) =~= before);
    let mut i: usize = 0;
    while i < points.len()
        invariant
            i <= points.len(),
            before == buffer_pixels(*old(buffer)),
            width == buffer_width(*old(buffer)),
            height == buffer_height(*old(buffer)),
            buffer_width(*buffer) == width,
            buffer_height(*buffer) == height,
            before.len() == width * height,
            forall|k: int| 0 <= k < i ==> on_screen(#[trigger] points@[k], width, height),
            buffer_pixels(*buffer) == painted(before, width, points@, i as nat, color),
        decreases points.len() - i,
    {
        if !plot_point(buffer, points[i], color) {
            proof {
                lemma_visible_len(points@, width, height, i as nat);
            }
            return ;
        }
        proof {
            lemma_paint_next(before, width, points@, i as nat, color);
        }
        i = i + 1;
    }
    proof {
        lemma_visible_len(points@, width, height, i as nat);
    }
}

/// Draw a line: walk from its start to its end and paint each point, until
/// the walk is through or leaves the screen.
pub fn draw_line(buffer: &mut PixelBuffer, segment: &Segment)
    requires
        well_formed(*old(buffer)),
    ensures
        well_formed(*final(buffer)),
        buffer_width(*final(buffer)) == buffer_width(*old(buffer)),
        buffer_height(*final(buffer)) == buffer_height(*old(buffer)),
        buffer_pixels(*final(buffer)) == drawn(
            buffer_pixels(*old(buffer)),
            buffer_width(*old(buffer)),
            buffer_height(*old(buffer)),
            bresenham(segment.start(), segment.end()),
            segment.shade(),
        ),
        bresenham(segment.start(), segment.end()).len() == line_len(
            segment.start(),
            segment.end(),
        ),
        bresenham(segment.start(), segment.end()).first() == segment.start(),
        bresenham(segment.start(), segment.end()).last() == segment.end(),
{
    let ghost before = buffer_pixels(*buffer);
    let ghost width = buffer_width(*buffer);
    let ghost height = buffer_height(*buffer);
    let color = segment.color();
    let from = segment.p1();
    let to = segment.p2();
    let mut walk = walk_line((from.0 as i64, from.1 as i64), (to.0 as i64, to.1 as i64));
    let ghost points = remaining(walk);
    let ghost mut count: nat = 0;
    assert(painted(before, width, points, 0, color) =~= before);
    assert(points.skip(0) =~= points);
    loop
        invariant_except_break
            remaining(walk) == points.skip(count as int),
        invariant
            count <= points.len(),
            buffer_width(*buffer) == width,
            buffer_height(*buffer) == height,
            before.len() == width * height,
            forall|k: int| 0 <= k < count ==> on_screen(#[trigger] points[k], width, height),
            buffer_pixels(*buffer) == painted(before, width, points, count, color),
            points == bresenham(segment.start(), segment.end()),
            color == segment.shade(),
        ensures
            buffer_width(*buffer) == width,
            buffer_height(*buffer) == height,
            buffer_pixels(*buffer) == drawn(before, width, height, points, color),
        decreases points.len() - count,
    {
        match next_point(&mut walk) {
            None => {
                proof {
                    lemma_visible_len(points, width, height, count);
                }
                break ;
            },
            Some(point) => {
                assert(point == points[count as int]);
                assert(points.skip(count as int).drop_first() =~= points.skip(count as int + 1));
                if !plot_point(buffer, point, color) {
                    proof {
                        lemma_visible_len(points, width, height, count);
                    }
                    break ;
                }
                proof {
                    lemma_paint_next(before, width, points, count, color);
                    count = count + 1;
                }
            },
        }
    }
}

/// Draws the lines of a frame.
pub struct LineSystem;

impl LineSystem {
    /// Draw every line into the frame buffer, in the order of the list.
    pub fn run(&mut self, buffer: &mut PixelBuffer, lines: &Vec<Segment>)
        requires
            well_formed(*old(buffer)),
        ensures
            well_formed(*final(buffer)),
            buffer_width(*final(buffer)) == buffer_width(*old(buffer)),
            buffer_height(*final(buffer)) == buffer_height(*old(buffer)),
            buffer_pixels(*final(buffer)) == drawn_lines(
                buffer_pixels(*old(buffer)),
                buffer_width(*old(buffer)),
                buffer_height(*old(buffer)),
                lines@,
                lines@.len(),
            ),
    {
        let ghost before = buffer_pixels(*buffer);
        let ghost width = buffer_width(*buffer);
        let ghost height = buffer_height(*buffer);
        let mut i: usize = 0;
        while i < lines.len()
            invariant
                i <= lines.len(),
                well_formed(*buffer),
                buffer_width(*buffer) == width,
                buffer_height(*buffer) == height,
                buffer_pixels(*buffer) == drawn_lines(before, width, height, lines@, i as nat),
            decreases lines.len() - i,
        {
            draw_line(buffer, &lines[i]);
            i = i + 1;
        }
    }
}

/// The points that are drawn are the first points of the walk, and each is
/// on the screen.
pub proof fn lemma_visible_on_screen(walk: Seq<(i64, i64)>, width: nat, height: nat)
    ensures
        visible_len(walk, width, height) <= walk.len(),
        forall|i: int|
            0 <= i < visible_len(walk, width, height) ==> on_screen(
                #[trigger] walk[i],
                width,
                height,
            ),
        visible_len(walk, width, height) < walk.len() ==> !on_screen(
            walk[visible_len(walk, width, height) as int],
            width,
            height,
        ),
    decreases walk.len(),
{
    if walk.len() > 0 && on_screen(walk[0], width, height) {
        let rest = walk.drop_first();
        lemma_visible_on_screen(rest, width, height);
        assert forall|i: int| 0 <= i < visible_len(walk, width, height) implies on_screen(
            #[trigger] walk[i],
            width,
            height,
        ) by {
            if i > 0 {
                assert(walk[i] == rest[i - 1]);
            }
        }
        if visible_len(walk, width, height) < walk.len() {
            assert(walk[visible_len(walk, width, height) as int] == rest[visible_len(
                rest,
                width,
                height,
            ) as int]);
        }
    }
}

/// Clipping: drawing a walk keeps the buffer's size, and changes no pixel
/// but those under the points of the walk that are on the screen, which
/// take the colour.
pub proof fn lemma_drawn_clipped(
    pixels: Seq<u32>,
    width: nat,
    height: nat,
    walk: Seq<(i64, i64)>,
    color: u32,
)
    ensures
        drawn(pixels, width, height, walk, color).len() == pixels.len(),
        forall|index: int|
            0 <= index < pixels.len() && #[trigger] drawn(pixels, width, height, walk, color)[index]
                != pixels[index] ==> drawn(pixels, width, height, walk, color)[index] == color
                && exists|i: int|
                0 <= i < walk.len() && on_screen(#[trigger] walk[i], width, height) && pixel_index(
                    walk[i],
                    width,
                ) == index,
{
    let count = visible_len(walk, width, height);
    lemma_visible_on_screen(walk, width, height);
    assert forall|index: int|
        0 <= index < pixels.len() && #[trigger] drawn(pixels, width, height, walk, color)[index]
            != pixels[index] implies drawn(pixels, width, height, walk, color)[index] == color
        && exists|i: int|
        0 <= i < walk.len() && on_screen(#[trigger] walk[i], width, height) && pixel_index(
            walk[i],
            width,
        ) == index by {
        assert(covers(walk, count, width, index));
        let i = choose|i: int|
            0 <= i < count && i < walk.len() && pixel_index(#[trigger] walk[i], width) == index;
        assert(on_screen(walk[i], width, height));
    }
}

/// A walk that starts on the screen has its start drawn; one that starts
/// off the screen changes nothing.
pub proof fn lemma_start_drawn(
    pixels: Seq<u32>,
    width: nat,
    height: nat,
    walk: Seq<(i64, i64)>,
    color: u32,
)
    requires
        pixels.len() == width * height,
        walk.len() > 0,
    ensures
        on_screen(walk[0], width, height) ==> drawn(pixels, width, height, walk, color)[pixel_index(
            walk[0],
            width,
        )] == color,
        !on_screen(walk[0], width, height) ==> drawn(pixels, width, height, walk, color) == pixels,
{
    if on_screen(walk[0], width, height) {
        lemma_position_index(width, height, walk[0].0 as int, walk[0].1 as int);
        assert(visible_len(walk, width, height) >= 1);
        assert(covers(walk, visible_len(walk, width, height), width, pixel_index(walk[0], width)));
    } else {
        assert(drawn(pixels, width, height, walk, color) =~= pixels);
    }
}

/// A walk that stays on the screen is drawn to its end: every point of
/// it, the last too, has the colour.
pub proof fn lemma_whole_walk_drawn(
    pixels: Seq<u32>,
    width: nat,
    height: nat,
    walk: Seq<(i64, i64)>,
    color: u32,
    i: int,
)
    requires
        pixels.len() == width * height,
        forall|k: int| 0 <= k < walk.len() ==> on_screen(#[trigger] walk[k], width, height),
        0 <= i < walk.len(),
    ensures
        visible_len(walk, width, height) == walk.len(),
        drawn(pixels, width, height, walk, color)[pixel_index(walk[i], width)] == color,
{
    lemma_visible_len(walk, width, height, walk.len());
    lemma_position_index(width, height, walk[i].0 as int, walk[i].1 as int);
    assert(covers(walk, walk.len(), width, pixel_index(walk[i], width)));
}

} // verus!

//! Provides math based tools mostly related to 2 dimensions: points,
//! dimensions, rectangles and axis-aligned collision testing.

use vstd::prelude::*;

verus! {

/// The TwoDimensional trait is for values that live in 2d space and have
/// an x and a y axis value.
pub trait TwoDimensional: Sized {
    /// A number type that represents what x and y are.
    #[allow(non_camel_case_types)]
    type number;

    /// The x axis value, as specifications see it.
    spec fn spec_x(&self) -> Self::number;

    /// The y axis value, as specifications see it.
    spec fn spec_y(&self) -> Self::number;

    /// Returns an x axis value.
    fn get_x(&self) -> (r: Self::number)
        ensures
            r == self.spec_x(),
    ;

    /// Returns a y axis value.
    fn get_y(&self) -> (r: Self::number)
        ensures
            r == self.spec_y(),
    ;

    /// Returns the coordinates of x and y as a tuple.
    fn get_coordinates(&self) -> (r: (Self::number, Self::number))
        ensures
            r == (self.spec_x(), self.spec_y()),
    ;
}

/// A Point in 2d space.
///
/// Lower y values are up and lower x values are left, by game convention.
#[derive(Copy, Clone, Debug, Eq, PartialEq, Structural)]
pub struct Point {
    /// The horizontal coordinate.
    pub x: i32,
    /// The vertical coordinate.
    pub y: i32,
}

impl Point {
    /// Creates a new instance of Point.
    pub fn new(x: i32, y: i32) -> (r: Point)
        ensures
            r == (Point { x, y }),
    {
        Point { x, y }
    }

    /// Sets x to a new value.
    pub fn set_x(&mut self, x: i32)
        ensures
            *final(self) == (Point { x, y: old(self).y }),
    {
        self.x = x;
    }

    /// Sets y to a new value.
    pub fn set_y(&mut self, y: i32)
        ensures
            *final(self) == (Point { x: old(self).x, y }),
    {
        self.y = y;
    }
}

impl TwoDimensional for Point {
    type number = i32;

    open spec fn spec_x(&self) -> i32 {
        self.x
    }

    open spec fn spec_y(&self) -> i32 {
        self.y
    }

    fn get_x(&self) -> i32 {
        self.x
    }

    fn get_y(&self) -> i32 {
        self.y
    }

    fn get_coordinates(&self) -> (i32, i32) {
        (self.x, self.y)
    }
}

/// Dimension holds the width and height of a 2d object.
#[derive(Copy, Clone, Debug, Eq, PartialEq, Structural)]
pub struct Dimension {
    /// The horizontal extent.
    pub width: u32,
    /// The vertical extent.
    pub height: u32,
}

impl Dimension {
    /// Creates a new instance of Dimension.
    pub fn new(width: u32, height: u32) -> (r: Dimension)
        ensures
            r == (Dimension { width, height }),
    {
        Dimension { width, height }
    }

    /// Gets the height of Dimension.
    pub fn get_height(&self) -> (r: u32)
        ensures
            r == self.height,
    {
        self.height
    }

    /// Gets the width of Dimension.
    pub fn get_width(&self) -> (r: u32)
        ensures
            r == self.width,
    {
        self.width
    }

    /// Sets the width of Dimension.
    pub fn set_width(&mut self, width: u32)
        ensures
            *final(self) == (Dimension { width, height: old(self).height }),
    {
        self.width = width;
    }

    /// Sets the height of Dimension.
    pub fn set_height(&mut self, height: u32)
        ensures
            *final(self) == (Dimension { width: old(self).width, height }),
    {
        self.height = height;
    }
}

impl TwoDimensional for Dimension {
    type number = u32;

    open spec fn spec_x(&self) -> u32 {
        self.width
    }

    open spec fn spec_y(&self) -> u32 {
        self.height
    }

    /// Gets the width of Dimension.
    fn get_x(&self) -> u32 {
        self.width
    }

    /// Gets the height of Dimension.
    fn get_y(&self) -> u32 {
        self.height
    }

    fn get_coordinates(&self) -> (u32, u32) {
        (self.width, self.height)
    }
}

/// A Rectangle holds the position and size of an object.
///
/// The position is a corner, not the center: visually the top left.  Its
/// bounds are inclusive integer tile coordinates, where
/// `max = origin + extent - 1`.
#[derive(Copy, Clone, Debug, PartialEq, Eq, Structural)]
pub struct Rectangle {
    /// The anchor corner.
    pub point: Point,
    /// The extent on each axis.
    pub dimension: Dimension,
}

impl Rectangle {
    /// The leftmost column covered by the rectangle.
    pub open spec fn spec_x_min(self) -> int {
        self.point.x as int
    }

    /// The topmost row covered by the rectangle.
    pub open spec fn spec_y_min(self) -> int {
        self.point.y as int
    }

    /// The rightmost column covered by the rectangle (inclusive).
    pub open spec fn spec_x_max(self) -> int {
        self.point.x as int + self.dimension.width as int - 1
    }

    /// The bottom row covered by the rectangle (inclusive).
    pub open spec fn spec_y_max(self) -> int {
        self.point.y as int + self.dimension.height as int - 1
    }

    /// A placed rectangle covers at least one tile on each axis and its
    /// inclusive bounds fit the machine's signed coordinates.
    pub open spec fn wf(self) -> bool {
        &&& 1 <= self.dimension.width as int
        &&& 1 <= self.dimension.height as int
        &&& self.dimension.width as int <= i32::MAX as int
        &&& self.dimension.height as int <= i32::MAX as int
        &&& self.point.x as int + self.dimension.width as int <= i32::MAX as int
        &&& self.point.y as int + self.dimension.height as int <= i32::MAX as int
    }

    /// A placed rectangle with one tile of slack on every side, so that a
    /// one-step move in any direction stays well formed.
    pub open spec fn wf_margin(self) -> bool {
        &&& self.wf()
        &&& (i32::MIN as int) < self.point.x as int
        &&& (i32::MIN as int) < self.point.y as int
        &&& (self.point.x as int + self.dimension.width as int) < i32::MAX as int
        &&& (self.point.y as int + self.dimension.height as int) < i32::MAX as int
    }

    /// True iff the rectangles' vertical ranges overlap and their
    /// horizontal ranges overlap, with inclusive bounds on both axes.
    pub open spec fn spec_collides(self, other: Rectangle) -> bool {
        &&& self.spec_y_max() >= other.spec_y_min()
        &&& self.spec_y_min() <= other.spec_y_max()
        &&& self.spec_x_max() >= other.spec_x_min()
        &&& self.spec_x_min() <= other.spec_x_max()
    }

    /// The rectangle as it would be after a translation by (dx, dy).
    pub open spec fn spec_moved(self, dx: int, dy: int) -> Rectangle {
        Rectangle {
            point: Point { x: (self.point.x + dx) as i32, y: (self.point.y + dy) as i32 },
            dimension: self.dimension,
        }
    }

    /// Creates a new instance of Rectangle.
    pub fn new(x: i32, y: i32, width: u32, height: u32) -> (r: Rectangle)
        ensures
            r == (Rectangle { point: Point { x, y }, dimension: Dimension { width, height } }),
    {
        Rectangle { point: Point::new(x, y), dimension: Dimension::new(width, height) }
    }

    /// Returns the position of the rectangle as a Point.
    ///
    /// The position is not the center of the rectangle but one of the
    /// corners; visually, the top left.
    pub fn get_point(&self) -> (r: Point)
        ensures
            r == self.point,
    {
        self.point
    }

    /// Returns the size of the rectangle as a Dimension.
    pub fn get_dimension(&self) -> (r: Dimension)
        ensures
            r == self.dimension,
    {
        self.dimension
    }

    /// Changes the value of x by the given amount.
    pub fn move_x(&mut self, amount_x: i32)
        requires
            i32::MIN as int <= amount_x as int + old(self).point.x as int <= i32::MAX as int,
        ensures
            *final(self) == old(self).spec_moved(amount_x as int, 0),
    {
        let new_x = amount_x + self.get_point().get_x();
        self.point.set_x(new_x);
    }

    /// Changes the value of y by the given amount.
    pub fn move_y(&mut self, amount_y: i32)
        requires
            i32::MIN as int <= amount_y as int + old(self).point.y as int <= i32::MAX as int,
        ensures
            *final(self) == old(self).spec_moved(0, amount_y as int),
    {
        let new_y = amount_y + self.get_point().get_y();
        self.point.set_y(new_y);
    }

    /// Changes the values of x and y by the values of a Point.
    pub fn move_xy(&mut self, amount: Point)
        requires
            i32::MIN as int <= amount.x as int + old(self).point.x as int <= i32::MAX as int,
            i32::MIN as int <= amount.y as int + old(self).point.y as int <= i32::MAX as int,
        ensures
            *final(self) == old(self).spec_moved(amount.x as int, amount.y as int),
    {
        self.move_x(amount.get_x());
        self.move_y(amount.get_y());
    }

    /// Returns the x position of the Rectangle.
    pub fn x(&self) -> (r: i32)
        ensures
            r == self.point.x,
    {
        self.get_point().get_x()
    }

    /// Returns the y position of the Rectangle.
    pub fn y(&self) -> (r: i32)
        ensures
            r == self.point.y,
    {
        self.get_point().get_y()
    }

    /// Returns the width of the rectangle.
    pub fn width(&self) -> (r: u32)
        ensures
            r == self.dimension.width,
    {
        self.get_dimension().get_width()
    }

    /// Returns the height of the rectangle.
    pub fn height(&self) -> (r: u32)
        ensures
            r == self.dimension.height,
    {
        self.get_dimension().get_height()
    }

    /// Returns true if the Rectangle is colliding with the given other
    /// Rectangle, else returns false.
    pub fn is_colliding(&self, other_rectangle: Rectangle) -> (r: bool)
        requires
            self.wf(),
            other_rectangle.wf(),
        ensures
            r == self.spec_collides(other_rectangle),
    {
        if self.y_max() < other_rectangle.y_min() {
            return false;
        }
        if self.y_min() > other_rectangle.y_max() {
            return false;
        }
        if self.x_max() >= other_rectangle.x_min() && self.x_min() <= other_rectangle.x_max() {
            return true;
        }
        false
    }

    /// Returns false if the Rectangle is colliding with the given other
    /// Rectangle, else returns true.
    pub fn is_not_colliding(&self, other_rectangle: Rectangle) -> (r: bool)
        requires
            self.wf(),
            other_rectangle.wf(),
        ensures
            r == !self.spec_collides(other_rectangle),
    {
        !self.is_colliding(other_rectangle)
    }

    /// Returns the vertical value of the opposite corner of the rectangle
    /// from y: y accounting for height, inclusive.
    pub fn y_max(&self) -> (r: i32)
        requires
            self.wf(),
        ensures
            r as int == self.spec_y_max(),
    {
        self.y() + self.height() as i32 - 1
    }

    /// Returns the horizontal value of the opposite corner of the rectangle
    /// from x: x accounting for width, inclusive.
    pub fn x_max(&self) -> (r: i32)
        requires
            self.wf(),
        ensures
            r as int == self.spec_x_max(),
    {
        self.x() + self.width() as i32 - 1
    }

    /// Returns y.
    pub fn y_min(&self) -> (r: i32)
        ensures
            r as int == self.spec_y_min(),
    {
        self.y()
    }

    /// Returns x.
    pub fn x_min(&self) -> (r: i32)
        ensures
            r as int == self.spec_x_min(),
    {
        self.x()
    }
}

/// Collision testing is symmetric: two rectangles collide with each other
/// or with neither order of the test.
pub proof fn lemma_collision_symmetric(a: Rectangle, b: Rectangle)
    ensures
        a.spec_collides(b) == b.spec_collides(a),
{
}

/// A placed rectangle always collides with itself.
pub proof fn lemma_collides_with_self(a: Rectangle)
    requires
        1 <= a.dimension.width as int,
        1 <= a.dimension.height as int,
    ensures
        a.spec_collides(a),
{
}

} // verus!

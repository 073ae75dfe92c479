use vstd::prelude::*;

verus! {

/// Whether a surface of these dimensions has an aspect ratio.
pub open spec fn valid_dimensions(width: int, height: int) -> bool {
    width > 0 && height > 0
}

/// Surface dimensions that have no aspect ratio: one of them is zero or
/// negative.
#[derive(Clone, Copy, Debug, PartialEq, Eq, Structural)]
pub struct InvalidDimensions {
    pub width: i64,
    pub height: i64,
}

/// An aspect ratio, held exactly as the positive width and height that it is
/// the quotient of.
#[derive(Clone, Copy, Debug, PartialEq, Eq, Structural)]
pub struct Aspect {
    width: i64,
    height: i64,
}

impl View for Aspect {
    type V = (int, int);

    /// Width and height, in this order.
    closed spec fn view(&self) -> (int, int) {
        (self.width as int, self.height as int)
    }
}

impl Aspect {
    #[verifier::type_invariant]
    spec fn positive(self) -> bool {
        self.width > 0 && self.height > 0
    }

    /// Whether this ratio equals `width / height`, as exact fractions.
    pub open spec fn is_ratio(self, width: int, height: int) -> bool {
        self@.0 * height == self@.1 * width
    }

    /// The width that the ratio was taken from.
    pub fn width(&self) -> (w: i64)
        ensures
            w == self@.0,
            w > 0,
    {
        proof {
            use_type_invariant(self);
        }
        self.width
    }

    /// The height that the ratio was taken from.
    pub fn height(&self) -> (h: i64)
        ensures
            h == self@.1,
            h > 0,
    {
        proof {
            use_type_invariant(self);
        }
        self.height
    }
}

/// Decides what aspect ratio a surface of given dimensions has.
pub struct ViewportPolicy;

impl ViewportPolicy {
    /// The aspect ratio of a `width` by `height` surface. Dimensions that are
    /// zero or negative are refused and handed back in the error.
    pub fn aspect_ratio(width: i64, height: i64) -> (r: Result<Aspect, InvalidDimensions>)
        ensures
            r.is_ok() <==> valid_dimensions(width as int, height as int),
            r matches Ok(a) ==> a@ == (width as int, height as int) && a.is_ratio(
                width as int,
                height as int,
            ),
            r matches Err(e) ==> e.width == width && e.height == height,
    {
        proof {
            assert((width as int) * (height as int) == (height as int) * (width as int))
                by (nonlinear_arith);
        }
        if width > 0 && height > 0 {
            Ok(Aspect { width, height })
        } else {
            Err(InvalidDimensions { width, height })
        }
    }
}

} // verus!

//! The render state: the parameters of a picture and its grid of pixels.
//!
//! The grid is row-major. A dimension of the held parameters counts
//! pixels of the grid, that is the requested dimension multiplied by the
//! supersampling factor; the factor itself is held as at least one.
//!
//! The plane coordinate of a pixel is computed by a coordinate mapper that
//! the caller supplies: a function of the grid's dimensions, the window and
//! the pixel's column and row.

use vstd::prelude::*;
use vstd::std_specs::cmp::PartialEqSpecImpl;
use crate::math::{Complex, Real};

verus! {

/// A pixel: iteration count, plane coordinate `c`, trajectory state `z`,
/// divergence flag.
pub type Pixel = (u32, Complex, Complex, bool);

/// The window of the plane that a picture shows: centre and radius, the
/// radius covering the shorter dimension.
pub type Window = (Complex, Real);

/// The default ceiling of iterations.
pub const DEFAULT_MAX_ITER: u32 = 500;

/// The default width and height.
pub const DEFAULT_SIDE: u32 = 1000;

/// The pattern of the scalar two, the default radius.
pub const TWO_BITS: u64 = 0x4000_0000_0000_0000;

/// What a picture is to show and how finely.
#[derive(Clone, Copy, Debug)]
pub struct Parameters {
    /// Width and height in pixels. In the parameters that a render holds
    /// they count the pixels of the grid, the factor included.
    pub image_size: (u32, u32),
    /// How many grid pixels, in each dimension, make one pixel of the
    /// picture. Zero counts as one.
    pub supersampling: u32,
    pub center: Complex,
    /// Half the extent of the window along its shorter dimension.
    pub radius: Real,
    /// The ceiling of iterations.
    pub max_iter: u32,
}

/// Why no grid can be built for some parameters.
#[derive(Clone, Copy, Debug, PartialEq, Eq, Structural)]
pub enum ParameterError {
    /// The grid would have no column or no row.
    EmptyImage,
    /// A dimension of the grid, or the number of its pixels, is above
    /// `u32::MAX`.
    TooLarge,
}

/// Parameters, normalized, with the grid built for them.
#[derive(Clone, Debug)]
pub struct Render {
    pub params: Parameters,
    /// The iterations completed on the grid.
    pub iterations: u32,
    /// The grid, row by row.
    pub pixels: Vec<Pixel>,
}

/// The pixel that a fresh grid holds at plane coordinate `c`.
pub open spec fn fresh_pixel(c: Complex) -> Pixel {
    (0u32, c, Complex(Real { bits: 0 }, Real { bits: 0 }), false)
}

impl Parameters {
    /// The supersampling factor in effect: one where zero is given.
    pub open spec fn spec_factor(self) -> int {
        if self.supersampling == 0 {
            1
        } else {
            self.supersampling as int
        }
    }

    /// The number of columns of the grid.
    pub open spec fn grid_width(self) -> int {
        self.image_size.0 * self.spec_factor()
    }

    /// The number of rows of the grid.
    pub open spec fn grid_height(self) -> int {
        self.image_size.1 * self.spec_factor()
    }

    /// Why these parameters have no grid, if they have none.
    pub open spec fn spec_error(self) -> Option<ParameterError> {
        if self.grid_width() == 0 || self.grid_height() == 0 {
            Some(ParameterError::EmptyImage)
        } else if self.grid_width() > u32::MAX || self.grid_height() > u32::MAX
            || self.grid_width() * self.grid_height() > u32::MAX {
            Some(ParameterError::TooLarge)
        } else {
            None
        }
    }

    /// The parameters as a render holds them: the factor at least one, the
    /// dimensions those of the grid.
    pub open spec fn spec_normalized(self) -> Parameters
        recommends
            self.spec_error() is None,
    {
        Parameters {
            image_size: (self.grid_width() as u32, self.grid_height() as u32),
            supersampling: self.spec_factor() as u32,
            center: self.center,
            radius: self.radius,
            max_iter: self.max_iter,
        }
    }

    /// Equality field by field, scalars compared as IEEE-754 values.
    pub open spec fn same_value(self, other: Parameters) -> bool {
        &&& self.same_grid(other)
        &&& self.max_iter == other.max_iter
    }

    /// Dimensions, factor and window are those of `other`, scalars
    /// compared as IEEE-754 values: a grid built for one serves the other.
    pub open spec fn same_grid(self, other: Parameters) -> bool {
        &&& self.image_size == other.image_size
        &&& self.supersampling == other.supersampling
        &&& self.center.same_value(other.center)
        &&& self.radius.same_value(other.radius)
    }

    /// Normalizes the parameters, or says why they have no grid.
    pub fn normalized(&self) -> (r: Result<Parameters, ParameterError>)
        ensures
            match r {
                Ok(p) => self.spec_error() is None && p == self.spec_normalized(),
                Err(e) => self.spec_error() == Some(e),
            },
    {
        let factor: u32 = if self.supersampling == 0 {
            1
        } else {
            self.supersampling
        };
        assert(self.image_size.0 * factor <= 0xFFFF_FFFF * 0xFFFF_FFFF) by (nonlinear_arith)
            requires
                self.image_size.0 <= 0xFFFF_FFFF,
                factor <= 0xFFFF_FFFF,
        ;
        assert(self.image_size.1 * factor <= 0xFFFF_FFFF * 0xFFFF_FFFF) by (nonlinear_arith)
            requires
                self.image_size.1 <= 0xFFFF_FFFF,
                factor <= 0xFFFF_FFFF,
        ;
        let width: u64 = self.image_size.0 as u64 * factor as u64;
        let height: u64 = self.image_size.1 as u64 * factor as u64;
        if width == 0 || height == 0 {
            return Err(ParameterError::EmptyImage);
        }
        if width > u32::MAX as u64 || height > u32::MAX as u64 {
            return Err(ParameterError::TooLarge);
        }
        assert(width * height <= 0xFFFF_FFFF * 0xFFFF_FFFF) by (nonlinear_arith)
            requires
                width <= 0xFFFF_FFFF,
                height <= 0xFFFF_FFFF,
        ;
        if width * height > u32::MAX as u64 {
            return Err(ParameterError::TooLarge);
        }
        Ok(
            Parameters {
                image_size: (width as u32, height as u32),
                supersampling: factor,
                center: self.center,
                radius: self.radius,
                max_iter: self.max_iter,
            },
        )
    }

    /// Whether a grid built for `other` serves these parameters too.
    pub fn keeps_grid_of(&self, other: &Parameters) -> (r: bool)
        ensures
            r == self.same_grid(*other),
    {
        self.image_size.0 == other.image_size.0 && self.image_size.1 == other.image_size.1
            && self.supersampling == other.supersampling && self.center == other.center
            && self.radius == other.radius
    }
}

impl PartialEq for Parameters {
    fn eq(&self, other: &Parameters) -> (r: bool) {
        self.keeps_grid_of(other) && self.max_iter == other.max_iter
    }
}

impl PartialEqSpecImpl for Parameters {
    open spec fn obeys_eq_spec() -> bool {
        true
    }

    open spec fn eq_spec(&self, other: &Parameters) -> bool {
        self.same_value(*other)
    }
}

impl Render {
    /// The invariant of a render: the held factor is at least one, the
    /// grid has a column and a row, it holds one pixel for each column of
    /// each row, and their number fits in 32 bits.
    pub open spec fn wf(&self) -> bool {
        &&& self.params.supersampling >= 1
        &&& self.params.image_size.0 >= 1
        &&& self.params.image_size.1 >= 1
        &&& self.pixels@.len() == self.params.image_size.0 * self.params.image_size.1
        &&& self.pixels@.len() <= u32::MAX
    }

    /// The mapper accepts every pixel of the grid that `params` ask for.
    pub open spec fn mapper_covers<M: Fn((u32, u32), Window, u32, u32) -> Complex>(
        params: Parameters,
        mapper: M,
    ) -> bool {
        params.spec_error() is None ==> forall|x: u32, y: u32|
            x < params.grid_width() && y < params.grid_height() ==> call_requires(
                mapper,
                (
                    params.spec_normalized().image_size,
                    (params.center, params.radius),
                    x,
                    y,
                ),
            )
    }

    /// The render is the one that `params` ask for, as built: the held
    /// parameters are the normalized ones, nothing is iterated, and the
    /// pixel at index `i` is the fresh pixel whose coordinate the mapper
    /// gave for column `i % width` of row `i / width`.
    pub open spec fn is_fresh<M: Fn((u32, u32), Window, u32, u32) -> Complex>(
        &self,
        params: Parameters,
        mapper: M,
    ) -> bool {
        &&& self.params == params.spec_normalized()
        &&& self.iterations == 0
        &&& self.pixels@.len() == params.grid_width() * params.grid_height()
        &&& forall|i: int|
            0 <= i < self.pixels@.len() ==> {
                &&& #[trigger] self.pixels@[i] == fresh_pixel(self.pixels@[i].1)
                &&& call_ensures(
                    mapper,
                    (
                        self.params.image_size,
                        (params.center, params.radius),
                        (i % params.grid_width()) as u32,
                        (i / params.grid_width()) as u32,
                    ),
                    self.pixels@[i].1,
                )
            }
    }

    /// Builds the render that `params` ask for, or says why they have no
    /// grid. A factor of zero counts as one.
    pub fn new<M: Fn((u32, u32), Window, u32, u32) -> Complex>(params: Parameters, mapper: M) -> (r:
        Result<Render, ParameterError>)
        requires
            Render::mapper_covers(params, mapper),
        ensures
            match r {
                Ok(render) => params.spec_error() is None && render.is_fresh(params, mapper)
                    && render.wf(),
                Err(e) => params.spec_error() == Some(e),
            },
    {
        let held = match params.normalized() {
            Ok(p) => p,
            Err(e) => {
                return Err(e);
            },
        };
        let width: u32 = held.image_size.0;
        let height: u32 = held.image_size.1;
        let count: usize = (width as u64 * height as u64) as usize;
        let mut pixels: Vec<Pixel> = Vec::with_capacity(count);
        let mut idx: usize = 0;
        while idx < count
            invariant
                params.spec_error() is None,
                held == params.spec_normalized(),
                width == params.grid_width(),
                height == params.grid_height(),
                width >= 1,
                count == width * height,
                idx <= count,
                pixels@.len() == idx,
                Render::mapper_covers(params, mapper),
                forall|i: int|
                    0 <= i < idx ==> {
                        &&& #[trigger] pixels@[i] == fresh_pixel(pixels@[i].1)
                        &&& call_ensures(
                            mapper,
                            (
                                held.image_size,
                                (params.center, params.radius),
                                (i % params.grid_width()) as u32,
                                (i / params.grid_width()) as u32,
                            ),
                            pixels@[i].1,
                        )
                    },
            decreases count - idx,
        {
            let x: u32 = (idx % width as usize) as u32;
            let y: u32 = (idx / width as usize) as u32;
            assert(idx / (width as usize) < height) by (nonlinear_arith)
                requires
                    idx < width * height,
                    width >= 1,
            ;
            let c = mapper(held.image_size, (held.center, held.radius), x, y);
            pixels.push((0, c, Complex::zero(), false));
            idx += 1;
        }
        Ok(Render { params: held, iterations: 0, pixels })
    }

    /// The parameters of the default render: a square of `DEFAULT_SIDE`
    /// pixels, no supersampling, the window of radius two about the
    /// origin, `DEFAULT_MAX_ITER` iterations.
    pub open spec fn spec_default_parameters() -> Parameters {
        Parameters {
            image_size: (DEFAULT_SIDE, DEFAULT_SIDE),
            supersampling: 1,
            center: Complex(Real { bits: 0 }, Real { bits: 0 }),
            radius: Real { bits: TWO_BITS },
            max_iter: DEFAULT_MAX_ITER,
        }
    }

    #[verifier::when_used_as_spec(spec_default_parameters)]
    pub fn default_parameters() -> (p: Parameters)
        ensures
            p == Render::spec_default_parameters(),
    {
        Parameters {
            image_size: (DEFAULT_SIDE, DEFAULT_SIDE),
            supersampling: 1,
            center: Complex::zero(),
            radius: Real::from_bits(TWO_BITS),
            max_iter: DEFAULT_MAX_ITER,
        }
    }

    /// The render of the default parameters.
    pub fn default<M: Fn((u32, u32), Window, u32, u32) -> Complex>(mapper: M) -> (render: Render)
        requires
            Render::mapper_covers(Render::spec_default_parameters(), mapper),
        ensures
            render.is_fresh(Render::spec_default_parameters(), mapper),
            render.wf(),
    {
        match Render::new(Render::default_parameters(), mapper) {
            Ok(render) => render,
            Err(_) => {
                assert(Render::spec_default_parameters().spec_error() is None);
                vstd::pervasive::unreached()
            },
        }
    }

    /// Takes new parameters. Where dimensions, factor and window are those
    /// that the render holds (scalars compared as IEEE-754 values), the
    /// grid and the count of completed iterations stay as they are and
    /// only the held parameters change, whether the new ceiling of
    /// iterations is above or below the old one. Otherwise the render
    /// becomes the one that `Render::new` builds; where that fails, the
    /// render stays as it was.
    pub fn recalc<M: Fn((u32, u32), Window, u32, u32) -> Complex>(
        &mut self,
        params: &Parameters,
        mapper: M,
    ) -> (r: Result<(), ParameterError>)
        requires
            old(self).wf(),
            Render::mapper_covers(*params, mapper),
        ensures
            params.same_grid(old(self).params) ==> {
                &&& r is Ok
                &&& final(self).params == *params
                &&& final(self).iterations == old(self).iterations
                &&& final(self).pixels == old(self).pixels
            },
            !params.same_grid(old(self).params) ==> match r {
                Ok(_) => params.spec_error() is None && final(self).is_fresh(*params, mapper),
                Err(e) => params.spec_error() == Some(e) && *final(self) == *old(self),
            },
            final(self).wf(),
    {
        if params.keeps_grid_of(&self.params) {
            self.params = *params;
            Ok(())
        } else {
            match Render::new(*params, mapper) {
                Ok(render) => {
                    *self = render;
                    Ok(())
                },
                Err(e) => Err(e),
            }
        }
    }
}

/// A factor of zero asks for the render that a factor of one asks for:
/// the same parameters are rejected for the same reason, the same
/// parameters are held, and every grid that is fresh for one is fresh for
/// the other.
pub proof fn law_zero_factor_is_one<M: Fn((u32, u32), Window, u32, u32) -> Complex>(
    zero: Parameters,
    one: Parameters,
    mapper: M,
    render: Render,
)
    requires
        zero.supersampling == 0,
        one == (Parameters { supersampling: 1, ..zero }),
    ensures
        zero.spec_error() == one.spec_error(),
        zero.spec_normalized() == one.spec_normalized(),
        Render::mapper_covers(zero, mapper) == Render::mapper_covers(one, mapper),
        render.is_fresh(zero, mapper) == render.is_fresh(one, mapper),
{
}

/// A fresh render is well formed, and each of its pixels is at iteration
/// zero, at the origin and not diverged.
pub proof fn law_fresh_grid_is_zeroed<M: Fn((u32, u32), Window, u32, u32) -> Complex>(
    render: Render,
    params: Parameters,
    mapper: M,
)
    requires
        params.spec_error() is None,
        render.is_fresh(params, mapper),
    ensures
        render.wf(),
        render.pixels@.len() == render.params.image_size.0 * render.params.image_size.1,
        forall|i: int|
            0 <= i < render.pixels@.len() ==> {
                &&& (#[trigger] render.pixels@[i]).0 == 0
                &&& render.pixels@[i].2 == Complex(Real { bits: 0 }, Real { bits: 0 })
                &&& !render.pixels@[i].3
            },
{
}

/// Parameters whose centre or radius is not the held one, as IEEE-754
/// values, never keep the grid.
pub proof fn law_changed_window_rebuilds(held: Parameters, params: Parameters)
    requires
        !params.center.same_value(held.center) || !params.radius.same_value(held.radius),
    ensures
        !params.same_grid(held),
{
}

/// Parameters that differ from the held ones in the ceiling of iterations
/// alone keep the grid, provided that no scalar of the window is a NaN.
pub proof fn law_changed_ceiling_keeps_grid(held: Parameters, params: Parameters)
    requires
        params == (Parameters { max_iter: params.max_iter, ..held }),
        !held.center.0.spec_is_nan(),
        !held.center.1.spec_is_nan(),
        !held.radius.spec_is_nan(),
    ensures
        params.same_grid(held),
{
}

} // verus!

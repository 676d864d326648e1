//! The camera: where it stands, what it looks at, and the pixel grid.
use vstd::prelude::*;
use crate::ray::Ray;
use crate::scalar::Scalar;
use crate::vec3::Vec3;

verus! {

/// Bit pattern of `0.1`, the default near clipping distance.
pub const DEFAULT_Z_NEAR_BITS: u32 = 0x3dcc_cccd;

/// Bit pattern of `100.0`, the default far clipping distance.
pub const DEFAULT_Z_FAR_BITS: u32 = 0x42c8_0000;

/// Bit pattern of `39.6`, the default vertical field of view in degrees.
pub const DEFAULT_FOV_BITS: u32 = 0x421e_6666;

/// Bit pattern of `180.0`, the bound of the field of view in degrees.
pub const HALF_TURN_BITS: u32 = 0x4334_0000;

pub const DEFAULT_WIDTH: u32 = 800;

pub const DEFAULT_HEIGHT: u32 = 600;

/// The parameters of a camera.
pub struct CameraView {
    pub position: Vec3,
    pub target: Vec3,
    pub z_near: Scalar,
    pub z_far: Scalar,
    /// Vertical field of view in degrees.
    pub vertical_fov: Scalar,
    pub width: u32,
    pub height: u32,
}

impl CameraView {
    /// The camera that a builder with nothing set builds: at the origin,
    /// looking along `+Z`, clipping at `0.1` and `100`, with a field of view
    /// of `39.6` degrees and an image of 800 by 600.
    pub open spec fn default_view() -> CameraView {
        CameraView {
            position: Vec3::zero(),
            target: Vec3 { x: Scalar::zero(), y: Scalar::zero(), z: Scalar::one() },
            z_near: Scalar { bits: DEFAULT_Z_NEAR_BITS },
            z_far: Scalar { bits: DEFAULT_Z_FAR_BITS },
            vertical_fov: Scalar { bits: DEFAULT_FOV_BITS },
            width: DEFAULT_WIDTH,
            height: DEFAULT_HEIGHT,
        }
    }

    /// The parameters make a camera: the near plane lies in front of it and
    /// the far plane behind the near one, the field of view is strictly
    /// between 0 and 180 degrees, and the image has pixels.
    pub open spec fn valid(self) -> bool {
        &&& Scalar::zero().lt_spec(self.z_near)
        &&& self.z_near.lt_spec(self.z_far)
        &&& Scalar::zero().lt_spec(self.vertical_fov)
        &&& self.vertical_fov.lt_spec(Scalar { bits: HALF_TURN_BITS })
        &&& self.width * self.height > 0
    }

    /// The number of pixels of the image.
    pub open spec fn pixel_count(self) -> int {
        self.width * self.height
    }

    /// Where pixel `(x, y)` stands in a list of all pixels: column after
    /// column from the left, each from the top.
    pub open spec fn pixel_index(self, x: int, y: int) -> int {
        x * self.height + y
    }
}

/// A perspective camera: position, target, clipping distances, vertical
/// field of view and image size. World up is `+Y`.
#[derive(Debug, Clone, Copy)]
pub struct Camera {
    position: Vec3,
    target: Vec3,
    z_near: Scalar,
    z_far: Scalar,
    vertical_fov: Scalar,
    width: u32,
    height: u32,
}

impl View for Camera {
    type V = CameraView;

    closed spec fn view(&self) -> CameraView {
        CameraView {
            position: self.position,
            target: self.target,
            z_near: self.z_near,
            z_far: self.z_far,
            vertical_fov: self.vertical_fov,
            width: self.width,
            height: self.height,
        }
    }
}

impl Camera {
    fn new(
        position: Vec3,
        target: Vec3,
        z_near: Scalar,
        z_far: Scalar,
        vertical_fov: Scalar,
        width: u32,
        height: u32,
    ) -> (camera: Camera)
        ensures
            camera@ == (CameraView { position, target, z_near, z_far, vertical_fov, width, height }),
    {
        Camera { position, target, z_near, z_far, vertical_fov, width, height }
    }

    /// Width and height of the image that this camera produces.
    pub fn get_dimensions(&self) -> (d: (u32, u32))
        ensures
            d == (self@.width, self@.height),
    {
        (self.width, self.height)
    }

    pub fn position(&self) -> (p: Vec3)
        ensures
            p == self@.position,
    {
        self.position
    }

    pub fn target(&self) -> (t: Vec3)
        ensures
            t == self@.target,
    {
        self.target
    }

    /// The near and the far clipping distance.
    pub fn clipping(&self) -> (c: (Scalar, Scalar))
        ensures
            c == (self@.z_near, self@.z_far),
    {
        (self.z_near, self.z_far)
    }

    /// The vertical field of view in degrees.
    pub fn vertical_fov(&self) -> (f: Scalar)
        ensures
            f == self@.vertical_fov,
    {
        self.vertical_fov
    }

    /// Whether the parameters make a camera.
    pub fn is_valid(&self) -> (r: bool)
        ensures
            r == self@.valid(),
    {
        assert(self.width > 0 && self.height > 0 <==> self.width * self.height > 0) by (nonlinear_arith);
        Scalar::zero().lt(self.z_near) && self.z_near.lt(self.z_far) && Scalar::zero().lt(self.vertical_fov)
            && self.vertical_fov.lt(Scalar::from_bits(HALF_TURN_BITS)) && self.width > 0 && self.height > 0
    }

    /// The primary ray that leaves the camera in the given direction: the
    /// direction through a pixel, as the inverse projection and the inverse
    /// view of this camera give it. It starts at the camera's position.
    pub fn get_ray(&self, direction: Vec3) -> (ray: Ray)
        ensures
            ray.origin == self@.position,
            ray.direction == direction,
    {
        Ray::new(self.position, direction)
    }

    /// Where pixel `(x, y)` stands in a list of all pixels of the image.
    pub fn pixel_index(&self, x: u32, y: u32) -> (i: usize)
        requires
            x < self@.width,
            y < self@.height,
            self@.pixel_count() <= usize::MAX,
        ensures
            i == self@.pixel_index(x as int, y as int),
            i < self@.pixel_count(),
    {
        proof {
            lemma_pixel_index_in_range(self@, x as int, y as int);
        }
        assert(x * self.height >= 0) by (nonlinear_arith);
        (x as usize) * (self.height as usize) + (y as usize)
    }

    /// The pixel that stands at `index` in a list of all pixels of the
    /// image.
    pub fn pixel_at(&self, index: usize) -> (p: (u32, u32))
        requires
            index < self@.pixel_count(),
        ensures
            p.0 < self@.width,
            p.1 < self@.height,
            self@.pixel_index(p.0 as int, p.1 as int) == index,
    {
        assert(self.height > 0) by (nonlinear_arith)
            requires
                index < self.width * self.height,
        ;
        let height: usize = self.height as usize;
        let x: usize = index / height;
        let y: usize = index % height;
        assert(x < self.width && x * height + y == index) by (nonlinear_arith)
            requires
                x == index / height,
                y == index % height,
                height > 0,
                index < self.width * height,
        ;
        (x as u32, y as u32)
    }
}

impl Default for Camera {
    fn default() -> (camera: Camera)
        ensures
            camera@ == CameraView::default_view(),
    {
        CameraBuilder::new().build()
    }
}

/// Every pixel of the image has a place of its own in the list of pixels.
pub proof fn lemma_pixel_index_in_range(camera: CameraView, x: int, y: int)
    requires
        0 <= x < camera.width,
        0 <= y < camera.height,
    ensures
        0 <= camera.pixel_index(x, y) < camera.pixel_count(),
{
    assert(0 <= x * camera.height + y < camera.width * camera.height) by (nonlinear_arith)
        requires
            0 <= x < camera.width,
            0 <= y < camera.height,
    ;
}

/// No two pixels of the image share a place in the list of pixels.
pub proof fn lemma_pixel_index_is_injective(camera: CameraView, x: int, y: int, i: int, j: int)
    requires
        0 <= x < camera.width,
        0 <= y < camera.height,
        0 <= i < camera.width,
        0 <= j < camera.height,
        camera.pixel_index(x, y) == camera.pixel_index(i, j),
    ensures
        x == i,
        y == j,
{
    let h = camera.height as int;
    if x < i {
        assert(x * h + y < i * h + j) by (nonlinear_arith)
            requires
                0 <= x < i,
                0 <= y < h,
                0 <= j,
        ;
    } else if i < x {
        assert(i * h + j < x * h + y) by (nonlinear_arith)
            requires
                0 <= i < x,
                0 <= j < h,
                0 <= y,
        ;
    }
}

/// Collects the parameters of a camera; what is not set takes its default.
#[derive(Clone, Copy, Debug)]
pub struct CameraBuilder {
    position: Option<Vec3>,
    target: Option<Vec3>,
    z_near: Option<Scalar>,
    z_far: Option<Scalar>,
    vertical_fov: Option<Scalar>,
    width: Option<u32>,
    height: Option<u32>,
}

/// What has been set on a builder.
pub struct CameraBuilderView {
    pub position: Option<Vec3>,
    pub target: Option<Vec3>,
    pub z_near: Option<Scalar>,
    pub z_far: Option<Scalar>,
    pub vertical_fov: Option<Scalar>,
    pub width: Option<u32>,
    pub height: Option<u32>,
}

impl CameraBuilderView {
    /// Nothing set.
    pub open spec fn empty() -> CameraBuilderView {
        CameraBuilderView {
            position: None,
            target: None,
            z_near: None,
            z_far: None,
            vertical_fov: None,
            width: None,
            height: None,
        }
    }

    /// The camera that is built: each parameter as set, or else as in
    /// `defaults`.
    pub open spec fn build_over(self, defaults: CameraView) -> CameraView {
        CameraView {
            position: if let Some(p) = self.position { p } else { defaults.position },
            target: if let Some(t) = self.target { t } else { defaults.target },
            z_near: if let Some(n) = self.z_near { n } else { defaults.z_near },
            z_far: if let Some(f) = self.z_far { f } else { defaults.z_far },
            vertical_fov: if let Some(v) = self.vertical_fov { v } else { defaults.vertical_fov },
            width: if let Some(w) = self.width { w } else { defaults.width },
            height: if let Some(h) = self.height { h } else { defaults.height },
        }
    }
}

impl View for CameraBuilder {
    type V = CameraBuilderView;

    closed spec fn view(&self) -> CameraBuilderView {
        CameraBuilderView {
            position: self.position,
            target: self.target,
            z_near: self.z_near,
            z_far: self.z_far,
            vertical_fov: self.vertical_fov,
            width: self.width,
            height: self.height,
        }
    }
}

impl CameraBuilder {
    pub fn new() -> (b: Self)
        ensures
            b@ == CameraBuilderView::empty(),
    {
        Self { position: None, target: None, z_near: None, z_far: None, vertical_fov: None, width: None, height: None }
    }

    /// The position of the camera. Defaults to the origin.
    pub fn with_position(self, position: Vec3) -> (b: Self)
        ensures
            b@ == (CameraBuilderView { position: Some(position), ..self@ }),
    {
        let mut b = self;
        b.position = Some(position);
        b
    }

    /// The point that the camera looks at. Defaults to `(0, 0, 1)`.
    pub fn with_target(self, target: Vec3) -> (b: Self)
        ensures
            b@ == (CameraBuilderView { target: Some(target), ..self@ }),
    {
        let mut b = self;
        b.target = Some(target);
        b
    }

    /// The near clipping distance. Defaults to `0.1`.
    pub fn with_z_near(self, z_near: Scalar) -> (b: Self)
        ensures
            b@ == (CameraBuilderView { z_near: Some(z_near), ..self@ }),
    {
        let mut b = self;
        b.z_near = Some(z_near);
        b
    }

    /// The far clipping distance. Defaults to `100`.
    pub fn with_z_far(self, z_far: Scalar) -> (b: Self)
        ensures
            b@ == (CameraBuilderView { z_far: Some(z_far), ..self@ }),
    {
        let mut b = self;
        b.z_far = Some(z_far);
        b
    }

    /// The width of the image in pixels. Defaults to 800.
    pub fn with_width(self, width: u32) -> (b: Self)
        ensures
            b@ == (CameraBuilderView { width: Some(width), ..self@ }),
    {
        let mut b = self;
        b.width = Some(width);
        b
    }

    /// The height of the image in pixels. Defaults to 600.
    pub fn with_height(self, height: u32) -> (b: Self)
        ensures
            b@ == (CameraBuilderView { height: Some(height), ..self@ }),
    {
        let mut b = self;
        b.height = Some(height);
        b
    }

    /// The vertical field of view in degrees. Defaults to `39.6`.
    pub fn with_vertical_fov(self, vertical_fov: Scalar) -> (b: Self)
        ensures
            b@ == (CameraBuilderView { vertical_fov: Some(vertical_fov), ..self@ }),
    {
        let mut b = self;
        b.vertical_fov = Some(vertical_fov);
        b
    }

    /// Builds the camera from what was set and the defaults.
    pub fn build(self) -> (camera: Camera)
        ensures
            camera@ == self@.build_over(CameraView::default_view()),
    {
        self.build_over(&Camera::new(
            Vec3::zero(),
            Vec3::new(Scalar::zero(), Scalar::zero(), Scalar::one()),
            Scalar::from_bits(DEFAULT_Z_NEAR_BITS),
            Scalar::from_bits(DEFAULT_Z_FAR_BITS),
            Scalar::from_bits(DEFAULT_FOV_BITS),
            DEFAULT_WIDTH,
            DEFAULT_HEIGHT,
        ))
    }

    /// Builds the camera from what was set; what was not set is taken from
    /// `defaults`.
    pub fn build_over(self, defaults: &Camera) -> (camera: Camera)
        ensures
            camera@ == self@.build_over(defaults@),
    {
        Camera::new(
            match self.position {
                Some(p) => p,
                None => defaults.position,
            },
            match self.target {
                Some(t) => t,
                None => defaults.target,
            },
            match self.z_near {
                Some(n) => n,
                None => defaults.z_near,
            },
            match self.z_far {
                Some(f) => f,
                None => defaults.z_far,
            },
            match self.vertical_fov {
                Some(v) => v,
                None => defaults.vertical_fov,
            },
            match self.width {
                Some(w) => w,
                None => defaults.width,
            },
            match self.height {
                Some(h) => h,
                None => defaults.height,
            },
        )
    }
}

impl Default for CameraBuilder {
    fn default() -> (b: CameraBuilder)
        ensures
            b@ == CameraBuilderView::empty(),
    {
        Self::new()
    }
}

} // verus!

//! The front door: a builder that collects what a render needs and says
//! what is missing before any work begins.
use vstd::prelude::*;
use crate::camera::{Camera, CameraBuilder, CameraBuilderView, CameraView};
use crate::scalar::Scalar;
use crate::vec3::Vec3;

verus! {

/// Bit pattern of `1000.0`, the far clipping distance of a ray tracer that
/// was given none.
pub const FACADE_Z_FAR_BITS: u32 = 0x447a_0000;

/// A required input is missing.
#[derive(Debug, Clone, Copy, PartialEq, Eq, Structural)]
pub enum ConfigError {
    /// No directory was given.
    MissingDirectory,
    /// A directory was given, but no OBJ file.
    MissingObjFile,
}

/// What has been set on a ray tracer.
pub struct RayTracerView {
    pub camera: CameraBuilderView,
    pub directory: Option<Seq<char>>,
    pub obj_file: Option<Seq<char>>,
    pub sample_count: Option<u32>,
    pub recursion_depth: Option<u32>,
    pub image_resolution: Option<(u32, u32)>,
}

impl RayTracerView {
    /// Nothing set.
    pub open spec fn empty() -> RayTracerView {
        RayTracerView {
            camera: CameraBuilderView::empty(),
            directory: None,
            obj_file: None,
            sample_count: None,
            recursion_depth: None,
            image_resolution: None,
        }
    }

    /// The camera of a ray tracer that was told nothing about it: at the
    /// origin, looking at the origin, clipping at `0.1` and `1000`, with a
    /// field of view of `39.6` degrees.
    pub open spec fn camera_defaults() -> CameraView {
        CameraView {
            target: Vec3::zero(),
            z_far: Scalar { bits: FACADE_Z_FAR_BITS },
            ..CameraView::default_view()
        }
    }

    /// The image size: as set, or 800 by 600.
    pub open spec fn resolution(self) -> (u32, u32) {
        if let Some(r) = self.image_resolution {
            r
        } else {
            (crate::camera::DEFAULT_WIDTH, crate::camera::DEFAULT_HEIGHT)
        }
    }

    /// The camera of the render: the image size from the resolution, the
    /// rest as set or by default.
    pub open spec fn camera_view(self) -> CameraView {
        (CameraBuilderView {
            width: Some(self.resolution().0),
            height: Some(self.resolution().1),
            ..self.camera
        }).build_over(RayTracerView::camera_defaults())
    }

    /// What is missing, if anything: the directory first.
    pub open spec fn missing(self) -> Option<ConfigError> {
        if self.directory is None {
            Some(ConfigError::MissingDirectory)
        } else if self.obj_file is None {
            Some(ConfigError::MissingObjFile)
        } else {
            None
        }
    }
}

/// All that a render needs, with every default filled in.
pub struct RenderPlan {
    /// The directory of the OBJ file and of its material file.
    pub directory: String,
    /// The name of the OBJ file.
    pub obj_file: String,
    pub width: u32,
    pub height: u32,
    /// Samples per pixel.
    pub samples: u32,
    /// Recursion depth.
    pub bounces: u32,
    pub camera: Camera,
}

/// Collects the settings of a render. Directory and OBJ file must be set;
/// everything else has a default.
pub struct RayTracer {
    camera_builder: CameraBuilder,
    directory: Option<String>,
    obj_file: Option<String>,
    sample_count: Option<u32>,
    recursion_depth: Option<u32>,
    image_resolution: Option<(u32, u32)>,
}

impl View for RayTracer {
    type V = RayTracerView;

    closed spec fn view(&self) -> RayTracerView {
        RayTracerView {
            camera: self.camera_builder@,
            directory: match self.directory {
                Some(d) => Some(d@),
                None => None,
            },
            obj_file: match self.obj_file {
                Some(f) => Some(f@),
                None => None,
            },
            sample_count: self.sample_count,
            recursion_depth: self.recursion_depth,
            image_resolution: self.image_resolution,
        }
    }
}

impl RayTracer {
    pub fn new() -> (t: Self)
        ensures
            t@ == RayTracerView::empty(),
    {
        Self {
            camera_builder: CameraBuilder::new(),
            directory: None,
            obj_file: None,
            sample_count: None,
            recursion_depth: None,
            image_resolution: None,
        }
    }

    /// Sets the directory of the OBJ file. Required.
    pub fn directory(self, directory: &str) -> (t: Self)
        ensures
            t@ == (RayTracerView { directory: Some(directory@), ..self@ }),
    {
        let mut t = self;
        t.directory = Some(directory.to_owned());
        t
    }

    /// Sets the name of the OBJ file. Required.
    pub fn obj_file(self, obj_file: &str) -> (t: Self)
        ensures
            t@ == (RayTracerView { obj_file: Some(obj_file@), ..self@ }),
    {
        let mut t = self;
        t.obj_file = Some(obj_file.to_owned());
        t
    }

    /// Sets the directory and the name of the OBJ file.
    pub fn file(self, directory: &str, obj_file: &str) -> (t: Self)
        ensures
            t@ == (RayTracerView { directory: Some(directory@), obj_file: Some(obj_file@), ..self@ }),
    {
        let mut t = self;
        t.directory = Some(directory.to_owned());
        t.obj_file = Some(obj_file.to_owned());
        t
    }

    /// Sets the size of the image. Defaults to 800 by 600.
    pub fn resolution(self, width: u32, height: u32) -> (t: Self)
        ensures
            t@ == (RayTracerView { image_resolution: Some((width, height)), ..self@ }),
    {
        let mut t = self;
        t.image_resolution = Some((width, height));
        t
    }

    /// Sets the position of the camera. Defaults to the origin.
    pub fn camera_position(self, x: Scalar, y: Scalar, z: Scalar) -> (t: Self)
        ensures
            t@ == (RayTracerView {
                camera: CameraBuilderView { position: Some(Vec3 { x, y, z }), ..self@.camera },
                ..self@
            }),
    {
        let mut t = self;
        t.camera_builder = t.camera_builder.with_position(Vec3::new(x, y, z));
        t
    }

    /// Sets the point that the camera looks at. Defaults to the origin.
    pub fn camera_target(self, x: Scalar, y: Scalar, z: Scalar) -> (t: Self)
        ensures
            t@ == (RayTracerView {
                camera: CameraBuilderView { target: Some(Vec3 { x, y, z }), ..self@.camera },
                ..self@
            }),
    {
        let mut t = self;
        t.camera_builder = t.camera_builder.with_target(Vec3::new(x, y, z));
        t
    }

    /// Sets the vertical field of view in degrees. Defaults to `39.6`.
    pub fn camera_vertical_fov(self, fov: Scalar) -> (t: Self)
        ensures
            t@ == (RayTracerView {
                camera: CameraBuilderView { vertical_fov: Some(fov), ..self@.camera },
                ..self@
            }),
    {
        let mut t = self;
        t.camera_builder = t.camera_builder.with_vertical_fov(fov);
        t
    }

    /// Sets the clipping distances. Defaults to `0.1` and `1000`.
    pub fn camera_clipping(self, near: Scalar, far: Scalar) -> (t: Self)
        ensures
            t@ == (RayTracerView {
                camera: CameraBuilderView { z_near: Some(near), z_far: Some(far), ..self@.camera },
                ..self@
            }),
    {
        let mut t = self;
        t.camera_builder = t.camera_builder.with_z_far(far).with_z_near(near);
        t
    }

    /// Sets the number of samples per pixel. Defaults to 1.
    pub fn sample_count(self, sample_count: u32) -> (t: Self)
        ensures
            t@ == (RayTracerView { sample_count: Some(sample_count), ..self@ }),
    {
        let mut t = self;
        t.sample_count = Some(sample_count);
        t
    }

    /// Sets the recursion depth. Defaults to 1.
    pub fn recursion_depth(self, recursion_depth: u32) -> (t: Self)
        ensures
            t@ == (RayTracerView { recursion_depth: Some(recursion_depth), ..self@ }),
    {
        let mut t = self;
        t.recursion_depth = Some(recursion_depth);
        t
    }

    /// The plan of the render, or what is missing for one. Nothing is read
    /// and nothing is rendered here.
    pub fn plan(&self) -> (r: Result<RenderPlan, ConfigError>)
        ensures
            match r {
                Ok(plan) => {
                    &&& self@.missing() is None
                    &&& Some(plan.directory@) == self@.directory
                    &&& Some(plan.obj_file@) == self@.obj_file
                    &&& (plan.width, plan.height) == self@.resolution()
                    &&& plan.samples == if let Some(n) = self@.sample_count { n } else { 1 }
                    &&& plan.bounces == if let Some(n) = self@.recursion_depth { n } else { 1 }
                    &&& plan.camera@ == self@.camera_view()
                },
                Err(e) => self@.missing() == Some(e),
            },
    {
        let directory = match &self.directory {
            Some(d) => d.clone(),
            None => {
                return Err(ConfigError::MissingDirectory);
            },
        };
        let obj_file = match &self.obj_file {
            Some(f) => f.clone(),
            None => {
                return Err(ConfigError::MissingObjFile);
            },
        };
        let (width, height) = match self.image_resolution {
            Some(r) => r,
            None => (crate::camera::DEFAULT_WIDTH, crate::camera::DEFAULT_HEIGHT),
        };
        let samples: u32 = match self.sample_count {
            Some(n) => n,
            None => 1,
        };
        let bounces: u32 = match self.recursion_depth {
            Some(n) => n,
            None => 1,
        };
        let defaults = CameraBuilder::new().with_target(Vec3::zero()).with_z_far(
            Scalar::from_bits(FACADE_Z_FAR_BITS),
        ).build();
        let camera = self.camera_builder.with_width(width).with_height(height).build_over(&defaults);
        Ok(RenderPlan { directory, obj_file, width, height, samples, bounces, camera })
    }
}

impl Default for RayTracer {
    fn default() -> (t: RayTracer)
        ensures
            t@ == RayTracerView::empty(),
    {
        Self::new()
    }
}

} // verus!

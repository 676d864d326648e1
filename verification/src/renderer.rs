//! The renderer: the walk of one sample through the scene, and the image.
use vstd::prelude::*;
use crate::camera::{Camera, CameraView};
use crate::film::Film;
use crate::material::Material;
use crate::ray::{Hit, Ray};
use crate::scalar::Scalar;
use crate::scene::{Scene, SceneView};
use crate::search::Search;
use crate::trianglemesh::TriangleMesh;
use crate::vec3::Vec3;

verus! {

/// Bit pattern of `0.01`: hits nearer than this are not counted, so that a
/// ray does not hit the surface that it leaves.
pub const TRACE_T_MIN_BITS: u32 = 0x3c23_d70a;

/// Bit pattern of `100.0`: hits farther than this are not counted.
pub const TRACE_T_MAX_BITS: u32 = 0x42c8_0000;

/// Bit pattern of `5.0`: by how much emitted light is amplified.
pub const EMISSIVE_GAIN_BITS: u32 = 0x40a0_0000;

/// How far the walk of one sample has come.
pub struct WalkView {
    /// The recursion depth of the renderer.
    pub limit: u32,
    /// How many rays have been cast and answered.
    pub cast: nat,
    /// Another ray is to be cast.
    pub live: bool,
}

impl WalkView {
    /// A walk before its first ray.
    pub open spec fn initial(limit: u32) -> WalkView {
        WalkView { limit, cast: 0, live: true }
    }

    /// No walk casts more than `limit + 1` rays, and a live one has cast at
    /// most `limit`.
    pub open spec fn wf(self) -> bool {
        &&& self.cast <= self.limit + 1
        &&& self.live ==> self.cast <= self.limit
    }

    /// The walk after a ray was cast: it goes on if the ray hit something
    /// and the depth of the next ray does not exceed the limit.
    pub open spec fn after(self, hit: bool) -> WalkView {
        WalkView { limit: self.limit, cast: self.cast + 1, live: hit && self.cast + 1 <= self.limit }
    }

    /// The walk after the rays it cast met with the given outcomes, `true`
    /// for a hit. Outcomes after the end of the walk are not looked at.
    pub open spec fn walked(limit: u32, outcomes: Seq<bool>) -> WalkView
        decreases outcomes.len(),
    {
        if outcomes.len() == 0 {
            WalkView::initial(limit)
        } else {
            let before = WalkView::walked(limit, outcomes.drop_last());
            if before.live {
                before.after(outcomes.last())
            } else {
                before
            }
        }
    }
}

/// The walk of one sample: a primary ray and the bounces that follow it.
#[derive(Debug, Clone, Copy)]
pub struct Walk {
    limit: u32,
    cast: u64,
    live: bool,
}

impl View for Walk {
    type V = WalkView;

    closed spec fn view(&self) -> WalkView {
        WalkView { limit: self.limit, cast: self.cast as nat, live: self.live }
    }
}

impl Walk {
    /// A walk that may go `limit` bounces deep.
    pub fn begin(limit: u32) -> (walk: Walk)
        ensures
            walk@ == WalkView::initial(limit),
            walk@.wf(),
    {
        Walk { limit, cast: 0, live: true }
    }

    /// Whether another ray is to be cast.
    pub fn wants_ray(&self) -> (r: bool)
        ensures
            r == self@.live,
    {
        self.live
    }

    /// How many rays have been cast.
    pub fn rays_cast(&self) -> (n: u64)
        ensures
            n == self@.cast,
    {
        self.cast
    }

    /// Takes what the ray that was cast has hit, and returns the material
    /// to shade with: that of the hit triangle, or nothing where the ray
    /// missed.
    ///
    /// A miss ends the walk and adds no light. After a hit the walk goes on
    /// unless the next ray would be deeper than the limit.
    pub fn advance(&mut self, mesh: &TriangleMesh, hit: Option<Hit>) -> (surface: Option<Material>)
        requires
            old(self)@.wf(),
            old(self)@.live,
            hit matches Some(h) ==> h.triangle_index.indices_spec().4 < mesh@.materials.len(),
        ensures
            final(self)@ == old(self)@.after(hit is Some),
            final(self)@.wf(),
            surface == match hit {
                Some(h) => Some(mesh@.materials[h.triangle_index.indices_spec().4 as int]),
                None => None,
            },
    {
        self.cast = self.cast + 1;
        match hit {
            Some(h) => {
                self.live = self.cast <= self.limit as u64;
                Some(h.material(mesh))
            },
            None => {
                self.live = false;
                None
            },
        }
    }
}

/// Whatever the rays of a walk meet, the walk casts at most one ray more
/// than the recursion depth.
pub proof fn lemma_walk_is_bounded(limit: u32, outcomes: Seq<bool>)
    ensures
        WalkView::walked(limit, outcomes).limit == limit,
        WalkView::walked(limit, outcomes).wf(),
        WalkView::walked(limit, outcomes).cast <= limit + 1,
    decreases outcomes.len(),
{
    if outcomes.len() > 0 {
        lemma_walk_is_bounded(limit, outcomes.drop_last());
    }
}

/// A ray that misses ends the walk, at any depth.
pub proof fn lemma_miss_ends_walk(walk: WalkView)
    ensures
        !walk.after(false).live,
{
}

/// What a renderer is set up with.
pub struct SceneRendererView {
    pub camera: CameraView,
    pub scene: SceneView,
    pub sample_count: u32,
    pub recursion_depth: u32,
}

impl SceneRendererView {
    /// The bytes of a pixel whose samples gathered `color` on the average:
    /// black where the scene has nothing to hit, else the bytes of the
    /// colour.
    pub open spec fn pixel(self, color: Vec3) -> [u8; 3] {
        if self.scene.bare() {
            [0u8, 0u8, 0u8]
        } else {
            SceneRenderer::vec3_to_rgb_spec(color)
        }
    }
}

/// Renders a scene as seen by a camera.
pub struct SceneRenderer<'scene> {
    camera: &'scene Camera,
    scene: &'scene Scene,
    sample_count: u32,
    recursion_depth: u32,
}

impl<'scene> View for SceneRenderer<'scene> {
    type V = SceneRendererView;

    closed spec fn view(&self) -> SceneRendererView {
        SceneRendererView {
            camera: self.camera@,
            scene: self.scene@,
            sample_count: self.sample_count,
            recursion_depth: self.recursion_depth,
        }
    }
}

impl<'scene> SceneRenderer<'scene> {
    /// The bytes of a linear colour: each channel times 255, rounded down
    /// and held to `0 ..= 255`.
    pub open spec fn vec3_to_rgb_spec(color: Vec3) -> [u8; 3] {
        [color.x.quantize_spec(), color.y.quantize_spec(), color.z.quantize_spec()]
    }

    /// A renderer with one sample per pixel and a recursion depth of one.
    pub fn new(camera: &'scene Camera, scene: &'scene Scene) -> (r: Self)
        ensures
            r@ == (SceneRendererView {
                camera: camera@,
                scene: scene@,
                sample_count: 1,
                recursion_depth: 1,
            }),
    {
        Self { camera, scene, sample_count: 1, recursion_depth: 1 }
    }

    /// Sets the number of samples per pixel.
    pub fn set_sample_count(&mut self, sample_count: u32)
        ensures
            final(self)@ == (SceneRendererView { sample_count, ..old(self)@ }),
    {
        self.sample_count = sample_count;
    }

    /// Sets the recursion depth.
    pub fn set_recursion_depth(&mut self, recursion_depth: u32)
        ensures
            final(self)@ == (SceneRendererView { recursion_depth, ..old(self)@ }),
    {
        self.recursion_depth = recursion_depth;
    }

    pub fn sample_count(&self) -> (n: u32)
        ensures
            n == self@.sample_count,
    {
        self.sample_count
    }

    pub fn recursion_depth(&self) -> (n: u32)
        ensures
            n == self@.recursion_depth,
    {
        self.recursion_depth
    }

    pub fn camera(&self) -> (camera: &'scene Camera)
        ensures
            camera@ == self@.camera,
    {
        self.camera
    }

    pub fn scene(&self) -> (scene: &'scene Scene)
        ensures
            scene@ == self@.scene,
    {
        self.scene
    }

    /// The factor by which emitted light is amplified, `5.0`.
    pub fn emissive_gain() -> (gain: Scalar)
        ensures
            gain.bits == EMISSIVE_GAIN_BITS,
    {
        Scalar::from_bits(EMISSIVE_GAIN_BITS)
    }

    /// Starts the walk of one sample, which may go as deep as the
    /// recursion depth.
    pub fn begin_walk(&self) -> (walk: Walk)
        ensures
            walk@ == WalkView::initial(self@.recursion_depth),
            walk@.wf(),
    {
        Walk::begin(self.recursion_depth)
    }

    /// Starts the search for what `ray` hits: the closest hit at a distance
    /// strictly between `0.01` and `100`.
    pub fn begin_search(&self, ray: Ray) -> (search: Search)
        ensures
            search@ == crate::search::SearchView::initial(
                ray,
                Scalar { bits: TRACE_T_MIN_BITS },
                Scalar { bits: TRACE_T_MAX_BITS },
            ),
    {
        Search::begin(ray, Scalar::from_bits(TRACE_T_MIN_BITS), Scalar::from_bits(TRACE_T_MAX_BITS))
    }

    /// The three bytes of a linear colour: each channel `c` becomes
    /// `floor(c * 255)` held to `0 ..= 255`, where the product is exact.
    /// Channels below zero and NaN give `0`. Nothing else is done to the
    /// colour: no gamma, no tone mapping.
    pub fn vec3_to_rgb(color: Vec3) -> (rgb: [u8; 3])
        ensures
            rgb == Self::vec3_to_rgb_spec(color),
    {
        let r = color.x.quantize();
        let g = color.y.quantize();
        let b = color.z.quantize();
        let rgb = [r, g, b];
        assert(rgb =~= Self::vec3_to_rgb_spec(color));
        rgb
    }

    /// The image of the scene, given the light that the samples gathered.
    ///
    /// `colors` holds one linear colour for each pixel of the camera's
    /// image, in the order of [`Camera::pixel_index`]: the mean of what the
    /// samples of that pixel gathered. Pixel `(x, y)` of the image, `y`
    /// growing downward, gets the bytes of the colour of pixel `(x, y)`.
    ///
    /// A scene that has no triangle has nothing to hit, and no sample can
    /// have gathered light in it: its image is black, whatever `colors`
    /// holds.
    pub fn render(&self, colors: &[Vec3]) -> (film: Film)
        requires
            colors@.len() == self@.camera.pixel_count(),
            3 * self@.camera.width <= usize::MAX,
            3 * self@.camera.width * self@.camera.height <= isize::MAX,
        ensures
            film.width() == self@.camera.width,
            film.height() == self@.camera.height,
            film.complete(),
            forall|x: int, y: int|
                0 <= x < self@.camera.width && 0 <= y < self@.camera.height ==> #[trigger] film.pixel(x, y)
                    == self@.pixel(colors@[self@.camera.pixel_index(x, y)]),
            self@.scene.objects.len() == 0 ==> forall|x: int, y: int|
                0 <= x < self@.camera.width && 0 <= y < self@.camera.height ==> #[trigger] film.pixel(x, y)
                    == [0u8, 0u8, 0u8],
    {
        let (width, height) = self.camera.get_dimensions();
        let count: usize = colors.len();
        let bare = self.scene.is_bare();
        let mut film = Film::new(width, height);
        let mut x: u32 = 0;
        while x < width
            invariant
                x <= width,
                width == self@.camera.width,
                height == self@.camera.height,
                bare == self@.scene.bare(),
                colors@.len() == self@.camera.pixel_count(),
                colors@.len() == count,
                film.width() == width,
                film.height() == height,
                film.complete(),
                forall|i: int, j: int|
                    0 <= i < x && 0 <= j < height ==> #[trigger] film.pixel(i, j) == self@.pixel(
                        colors@[self@.camera.pixel_index(i, j)],
                    ),
            decreases width - x,
        {
            let mut y: u32 = 0;
            while y < height
                invariant
                    x < width,
                    y <= height,
                    width == self@.camera.width,
                    height == self@.camera.height,
                    bare == self@.scene.bare(),
                    colors@.len() == self@.camera.pixel_count(),
                    colors@.len() == count,
                    film.width() == width,
                    film.height() == height,
                    film.complete(),
                    forall|i: int, j: int|
                        0 <= i < width && 0 <= j < height && (i < x || (i == x && j < y)) ==> #[trigger] film.pixel(
                            i,
                            j,
                        ) == self@.pixel(colors@[self@.camera.pixel_index(i, j)]),
                decreases height - y,
            {
                let index = self.camera.pixel_index(x, y);
                let rgb: [u8; 3] = if bare {
                    [0, 0, 0]
                } else {
                    Self::vec3_to_rgb(colors[index])
                };
                assert(rgb =~= self@.pixel(colors@[index as int]));
                film.put_pixel(x, y, rgb);
                y += 1;
            }
            x += 1;
        }
        film
    }
}

/// A colour whose channels are all zero gives a black pixel.
pub proof fn lemma_zero_is_black(color: Vec3)
    requires
        color.is_zero_spec(),
    ensures
        SceneRenderer::vec3_to_rgb_spec(color) == [0u8, 0u8, 0u8],
{
    crate::scalar::lemma_zero_quantizes_to_zero(color.x);
    crate::scalar::lemma_zero_quantizes_to_zero(color.y);
    crate::scalar::lemma_zero_quantizes_to_zero(color.z);
    assert(SceneRenderer::vec3_to_rgb_spec(color) =~= [0u8, 0u8, 0u8]);
}

} // verus!
